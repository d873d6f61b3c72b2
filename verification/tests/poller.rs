use creditbar::alerts::FiredSet;
use creditbar::models::{Org, Severity, UsageLevels};
use creditbar::poller::{cycle_start, is_selected, orgs_to_poll, plan_failure_error, poll_org, CycleStart};

fn org(id: &str, name: &str) -> Org {
    Org { id: id.into(), name: name.into() }
}

fn ids(v: &[Org]) -> Vec<(String, String)> {
    v.iter().map(|o| (o.id.clone(), o.name.clone())).collect()
}

#[test]
fn listed_orgs_are_polled() {
    let r = orgs_to_poll(Some(vec![org("a", "A"), org("b", "B")]), "b", &Some("Bee".into()));
    assert_eq!(ids(&r), vec![("a".into(), "A".into()), ("b".into(), "B".into())]);
}

#[test]
fn selected_org_added_when_missing() {
    let r = orgs_to_poll(Some(vec![org("a", "A")]), "z", &None);
    assert_eq!(ids(&r), vec![("a".into(), "A".into()), ("z".into(), "Organization".into())]);
}

#[test]
fn failed_or_empty_listing_polls_selected_only() {
    assert_eq!(ids(&orgs_to_poll(None, "s", &Some("Sel".into()))), vec![("s".into(), "Sel".into())]);
    assert_eq!(ids(&orgs_to_poll(Some(vec![]), "s", &None)), vec![("s".into(), "Organization".into())]);
}

#[test]
fn poll_org_combines_decisions() {
    let mut fired = FiredSet::new();
    let levels = UsageLevels {
        chatbot: None,
        document: Some(8100),
        webpages: None,
        credits: Some(5000),
        voice_credits: None,
        voice_lite_credits: None,
        campaign_credits: None,
        members: None,
    };
    let r = poll_org(&mut fired, "o", "Org", "o", &Some("past_due".into()), &levels);
    assert_eq!(r.severity, Severity::Warn);
    assert_eq!(r.worst, 8100);
    assert_eq!(r.tray_title.as_deref(), Some("81%"));
    assert_eq!(r.banners.len(), 2);
    assert_eq!(r.banners[0].body, "Documents at 80%. Approaching document limit. Upgrade to add more.");
    assert_eq!(r.banners[1].body, "Subscription past due. Update payment to keep service running.");
    let again = poll_org(&mut fired, "o", "Org", "other", &Some("past_due".into()), &levels);
    assert!(again.banners.is_empty());
    assert!(again.tray_title.is_none());
    assert!(is_selected("x", "x"));
    assert!(!is_selected("x", "y"));
}

#[test]
fn cycle_polls_only_with_token_and_org() {
    assert!(matches!(cycle_start(None, Some("o".into())), CycleStart::Idle));
    assert!(matches!(cycle_start(Some("t".into()), None), CycleStart::Idle));
    assert!(matches!(cycle_start(None, None), CycleStart::Idle));
    match cycle_start(Some("t".into()), Some("o".into())) {
        CycleStart::Poll { token, selected_id } => {
            assert_eq!(token, "t");
            assert_eq!(selected_id, "o");
        }
        CycleStart::Idle => panic!("expected a poll"),
    }
}

#[test]
fn plan_failures_recorded_for_selected_org_only() {
    assert_eq!(plan_failure_error("a", "a", "boom".into()), Some("boom".to_string()));
    assert_eq!(plan_failure_error("a", "b", "boom".into()), None);
}
