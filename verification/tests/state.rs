use creditbar::keychain::{delete_settings, delete_token, KeychainAccount, KeychainError};
use creditbar::state::{
    choose_token, save_given_token, token_for_request, trimmed_token, SettingsResp, UserSettings,
};

fn stored(interval: u64) -> UserSettings {
    UserSettings { organization_id: Some("o1".into()), organization_name: Some("Acme".into()), interval_secs: interval }
}

#[test]
fn defaults_have_no_org_and_thirty_seconds() {
    let d = UserSettings::defaults();
    assert_eq!(d.organization_id, None);
    assert_eq!(d.organization_name, None);
    assert_eq!(d.interval_secs, 30);
}

#[test]
fn stored_interval_is_made_safe() {
    assert_eq!(UserSettings::from_stored(Some(stored(0))).interval_secs, 30);
    assert_eq!(UserSettings::from_stored(Some(stored(1))).interval_secs, 15);
    assert_eq!(UserSettings::from_stored(Some(stored(60))).interval_secs, 60);
    assert_eq!(UserSettings::from_stored(Some(stored(100000))).interval_secs, 300);
    let s = UserSettings::from_stored(Some(stored(45)));
    assert_eq!(s.organization_id.as_deref(), Some("o1"));
    assert_eq!(s.organization_name.as_deref(), Some("Acme"));
    let none = UserSettings::from_stored(None);
    assert_eq!(none.interval_secs, 30);
    assert_eq!(none.organization_id, None);
}

#[test]
fn saved_interval_is_clamped() {
    assert_eq!(UserSettings::for_save("a".into(), "A".into(), 0).interval_secs, 15);
    assert_eq!(UserSettings::for_save("a".into(), "A".into(), 301).interval_secs, 300);
    assert_eq!(UserSettings::for_save("a".into(), "A".into(), 120).interval_secs, 120);
}

#[test]
fn switching_org_keeps_interval() {
    let s = stored(90).with_organization("o2".into(), "Beta".into());
    assert_eq!(s.organization_id.as_deref(), Some("o2"));
    assert_eq!(s.organization_name.as_deref(), Some("Beta"));
    assert_eq!(s.interval_secs, 90);
    assert_eq!(stored(5).poll_interval_secs(), 15);
    assert_eq!(stored(60).poll_interval_secs(), 60);
}

#[test]
fn settings_answer_mirrors_settings() {
    let r = SettingsResp::new(true, stored(45));
    assert!(r.has_token);
    assert_eq!(r.organization_id.as_deref(), Some("o1"));
    assert_eq!(r.interval_secs, 45);
}

#[test]
fn given_token_wins_when_not_blank() {
    assert_eq!(token_for_request(Some("jwt123".into()), || Some("stored".to_string())), Ok("jwt123".to_string()));
    assert_eq!(token_for_request(Some(" jwt ".into()), || None), Ok(" jwt ".to_string()));
}

#[test]
fn blank_token_falls_back_to_store() {
    assert_eq!(token_for_request(Some("   ".into()), || Some("stored".to_string())), Ok("stored".to_string()));
    assert_eq!(token_for_request(None, || Some("s2".to_string())), Ok("s2".to_string()));
    assert_eq!(
        token_for_request(Some("   ".into()), || None),
        Err("No token saved. Open Settings to connect your account.".to_string())
    );
}

#[test]
fn choose_token_prefers_given_then_stored() {
    assert_eq!(choose_token(Some("a".into()), Some("b".into())), Ok("a".to_string()));
    assert_eq!(choose_token(Some(" \t".into()), Some("b".into())), Ok("b".to_string()));
    assert_eq!(choose_token(None, Some("b".into())), Ok("b".to_string()));
    assert_eq!(choose_token(None, Some(" ".into())), Ok(" ".to_string()));
    assert_eq!(
        choose_token(Some("".into()), None),
        Err("No token saved. Open Settings to connect your account.".to_string())
    );
    assert_eq!(
        choose_token(None, None),
        Err("No token saved. Open Settings to connect your account.".to_string())
    );
}

#[test]
fn token_to_store_is_trimmed() {
    assert_eq!(trimmed_token(&Some("  abc \n".into())), Some("abc".to_string()));
    assert_eq!(trimmed_token(&Some(" \t ".into())), None);
    assert_eq!(trimmed_token(&None), None);
    assert_eq!(save_given_token(&None), None);
    assert_eq!(save_given_token(&Some("  ".into())), None);
    let saved = save_given_token(&Some("  tok \n".into())).expect("a token is given");
    if let Some(e) = saved.entry {
        assert_eq!(e.account, "token");
        assert_eq!(e.calls, vec![creditbar::keychain::StoreCall::Write("tok".to_string())]);
    }
}

#[test]
fn keychain_deletes_never_fail() {
    assert_eq!(delete_token().answer, Ok(()));
    assert_eq!(delete_settings().answer, Ok(()));
    assert_eq!(KeychainError::OpenEntry(KeychainAccount::Token).message(), "open keychain entry: token");
    assert_eq!(KeychainError::SaveSettings.message(), "save settings to keychain");
}
