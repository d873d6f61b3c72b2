use creditbar::notifications::{announce_new, is_billing_type, shorten_body, Notification};
use std::collections::HashSet;

fn note(id: i64, kind: Option<&str>, unread: bool, title: Option<&str>, body: &str) -> Notification {
    Notification {
        id,
        title: title.map(|t| t.to_string()),
        body: body.to_string(),
        kind: kind.map(|k| k.to_string()),
        unread,
    }
}

#[test]
fn billing_types() {
    assert!(is_billing_type("CREDIT_EXHAUSTED"));
    assert!(is_billing_type("VOICE_CREDIT_LIMIT_75_PERCENT_REACHED"));
    assert!(!is_billing_type("CHAT_ASSIGNED"));
    assert!(!is_billing_type("credit_exhausted"));
}

#[test]
fn announces_new_unread_billing_once() {
    let list = vec![
        note(1, Some("CREDIT_EXHAUSTED"), true, Some("Credits gone"), "Top up"),
        note(2, Some("CHAT_ASSIGNED"), true, None, "x"),
        note(3, Some("PAST_DUE_SUBSCRIPTION"), false, None, "read already"),
        note(4, None, true, None, "no type"),
        note(5, Some("PAST_DUE_SUBSCRIPTION"), true, None, "Pay"),
    ];
    let mut announced = HashSet::new();
    let banners = announce_new(&list, &mut announced);
    assert_eq!(banners.len(), 2);
    assert_eq!(banners[0].title, "Credits gone");
    assert_eq!(banners[0].body, "Top up");
    assert_eq!(banners[1].title, "YourGPT");
    assert_eq!(announced, HashSet::from([1, 5]));
    assert!(announce_new(&list, &mut announced).is_empty());
}

#[test]
fn long_bodies_are_cut_at_200_bytes() {
    let long = "a".repeat(250);
    let cut = shorten_body(&long);
    assert_eq!(cut, format!("{}\u{2026}", "a".repeat(200)));
    let exact = "b".repeat(200);
    assert_eq!(shorten_body(&exact), exact);
    let wide = format!("{}{}", "c".repeat(198), "é".repeat(10));
    assert_eq!(shorten_body(&wide), format!("{}é\u{2026}", "c".repeat(198)));
}
