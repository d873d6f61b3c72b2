use creditbar::models::{severity_for_level, Severity, UsageLevels};

fn none() -> UsageLevels {
    UsageLevels {
        chatbot: None,
        document: None,
        webpages: None,
        credits: None,
        voice_credits: None,
        voice_lite_credits: None,
        campaign_credits: None,
        members: None,
    }
}

#[test]
fn no_buckets_is_idle() {
    assert_eq!(none().worst_severity(), (Severity::Idle, 0));
}

#[test]
fn worst_bucket_decides() {
    let mut u = none();
    u.credits = Some(6500);
    u.members = Some(9100);
    assert_eq!(u.worst_severity(), (Severity::Alert, 9100));
    let mut v = none();
    v.webpages = Some(0);
    assert_eq!(v.worst_severity(), (Severity::Normal, 0));
    v.voice_credits = Some(7000);
    assert_eq!(v.worst_severity(), (Severity::Warn, 7000));
}

#[test]
fn severity_levels() {
    assert_eq!(severity_for_level(6999), Severity::Normal);
    assert_eq!(severity_for_level(7000), Severity::Warn);
    assert_eq!(severity_for_level(8999), Severity::Warn);
    assert_eq!(severity_for_level(9000), Severity::Alert);
}
