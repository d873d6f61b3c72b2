use creditbar::alerts::{
    banner_body, check_subscription_status, check_thresholds, AlertKind, BucketKind, FiredSet,
};
use creditbar::models::UsageLevels;

fn levels(credits: Option<u16>, chatbot: Option<u16>) -> UsageLevels {
    UsageLevels {
        chatbot,
        document: None,
        webpages: None,
        credits,
        voice_credits: None,
        voice_lite_credits: None,
        campaign_credits: None,
        members: None,
    }
}

#[test]
fn full_bucket_fires_one_banner_on_cold_start() {
    let mut fired = FiredSet::new();
    let banners = check_thresholds(&mut fired, "org1", "Acme Inc", &levels(Some(10000), None));
    assert_eq!(banners.len(), 1);
    assert_eq!(banners[0].title, "Acme Inc");
    assert_eq!(banners[0].body, "Credits at 100%. Your chatbot can't answer messages.");
    for t in [80, 95, 100] {
        assert!(fired.contains("org1", AlertKind::Threshold(BucketKind::Credits, t)));
    }
}

#[test]
fn recheck_fires_nothing() {
    let mut fired = FiredSet::new();
    let l = levels(Some(8500), Some(9700));
    let first = check_thresholds(&mut fired, "org1", "Acme", &l);
    assert_eq!(first.len(), 2);
    assert_eq!(first[0].body, "Credits at 80%. Top up before your chatbot pauses.");
    assert_eq!(first[1].body, "Chatbots at 95%. Almost at chatbot limit. Upgrade to add more.");
    let second = check_thresholds(&mut fired, "org1", "Acme", &l);
    assert!(second.is_empty());
}

#[test]
fn climbing_fires_each_new_threshold_once() {
    let mut fired = FiredSet::new();
    let a = check_thresholds(&mut fired, "o", "O", &levels(Some(8000), None));
    assert_eq!(a.len(), 1);
    let b = check_thresholds(&mut fired, "o", "O", &levels(Some(9500), None));
    assert_eq!(b[0].body, "Credits at 95%. Chatbot will pause soon. Top up.");
    // dips then climbs back to 85%: no re-alert at 80%
    assert!(check_thresholds(&mut fired, "o", "O", &levels(Some(7000), None)).is_empty());
    assert!(check_thresholds(&mut fired, "o", "O", &levels(Some(8500), None)).is_empty());
    let c = check_thresholds(&mut fired, "o", "O", &levels(Some(10000), None));
    assert_eq!(c.len(), 1);
    assert_eq!(c[0].body, "Credits at 100%. Your chatbot can't answer messages.");
}

#[test]
fn below_eighty_fires_nothing() {
    let mut fired = FiredSet::new();
    assert!(check_thresholds(&mut fired, "o", "O", &levels(Some(7999), Some(0))).is_empty());
    assert!(!fired.contains("o", AlertKind::Threshold(BucketKind::Credits, 80)));
}

#[test]
fn orgs_dedup_independently() {
    let mut fired = FiredSet::new();
    let l = levels(Some(10000), None);
    assert_eq!(check_thresholds(&mut fired, "acme", "Acme", &l).len(), 1);
    let beta = check_thresholds(&mut fired, "beta", "Beta", &l);
    assert_eq!(beta.len(), 1);
    assert_eq!(beta[0].title, "Beta");
}

#[test]
fn past_due_fires_once_and_rearms() {
    let mut fired = FiredSet::new();
    let pd = Some("past_due".to_string());
    let b = check_subscription_status(&mut fired, "o", "Org", &pd).unwrap();
    assert_eq!(b.title, "Org");
    assert_eq!(b.body, "Subscription past due. Update payment to keep service running.");
    assert!(check_subscription_status(&mut fired, "o", "Org", &pd).is_none());
    assert!(check_subscription_status(&mut fired, "o", "Org", &Some("active".to_string())).is_none());
    assert!(!fired.contains("o", AlertKind::PastDue));
    assert!(check_subscription_status(&mut fired, "o", "Org", &pd).is_some());
    assert!(check_subscription_status(&mut fired, "o", "Org", &None).is_none());
    assert!(!fired.contains("o", AlertKind::PastDue));
}

#[test]
fn fired_set_insert_remove() {
    let mut f = FiredSet::new();
    f.insert("a", AlertKind::PastDue);
    f.insert("a", AlertKind::PastDue);
    assert!(f.contains("a", AlertKind::PastDue));
    assert!(!f.contains("b", AlertKind::PastDue));
    f.remove("a", AlertKind::PastDue);
    assert!(!f.contains("a", AlertKind::PastDue));
}

#[test]
fn banner_copy_for_every_bucket() {
    assert_eq!(banner_body(BucketKind::VoiceLiteCredits, 95), "Voice Lite Credits at 95%. Voice features pausing. Top up.");
    assert_eq!(banner_body(BucketKind::TeamMembers, 100), "Team Members at 100%. Seat limit reached. Upgrade to add more.");
    assert_eq!(banner_body(BucketKind::Webpages, 80), "Webpages at 80%. Approaching webpage limit. Upgrade to add more.");
    assert_eq!(banner_body(BucketKind::CampaignCredits, 100), "Campaign Credits at 100%. Campaign sends have stopped.");
    assert_eq!(banner_body(BucketKind::Documents, 50), "Documents at 50%.");
    assert_eq!(banner_body(BucketKind::VoiceCredits, 0), "Voice Credits at 0%.");
}

#[test]
fn banner_copy_leads_with_label_and_count_caps_say_add_more() {
    let kinds = [
        (BucketKind::Credits, "Credits"),
        (BucketKind::VoiceCredits, "Voice Credits"),
        (BucketKind::VoiceLiteCredits, "Voice Lite Credits"),
        (BucketKind::CampaignCredits, "Campaign Credits"),
        (BucketKind::Chatbots, "Chatbots"),
        (BucketKind::TeamMembers, "Team Members"),
        (BucketKind::Documents, "Documents"),
        (BucketKind::Webpages, "Webpages"),
    ];
    for (k, label) in kinds {
        for t in [80u8, 95, 100] {
            let body = banner_body(k, t);
            assert!(body.starts_with(&format!("{label} at {t}%.")), "{body}");
            let count_cap = matches!(k, BucketKind::Chatbots | BucketKind::TeamMembers | BucketKind::Documents | BucketKind::Webpages);
            assert_eq!(body.ends_with("Upgrade to add more."), count_cap, "{body}");
        }
    }
}

#[test]
fn dedup_set_stays_closed_downward() {
    let mut fired = FiredSet::new();
    let l = levels(Some(9600), None);
    check_thresholds(&mut fired, "o", "O", &l);
    assert!(fired.contains("o", AlertKind::Threshold(BucketKind::Credits, 95)));
    assert!(fired.contains("o", AlertKind::Threshold(BucketKind::Credits, 80)));
    assert!(!fired.contains("o", AlertKind::Threshold(BucketKind::Credits, 100)));
    assert!(!fired.contains("p", AlertKind::Threshold(BucketKind::Credits, 80)));
}
