use creditbar::keychain::{
    delete_settings, delete_token, entry_names, load_settings_json, load_token, read_outcome,
    save_settings_json, save_token, write_outcome, KeychainAccount, KeychainError, StoreCall,
};

#[test]
fn read_outcome_keeps_text_drops_errors() {
    assert_eq!(read_outcome(Ok("jwt".to_string())), Some("jwt".to_string()));
    assert_eq!(read_outcome(Err(keyring::Error::NoEntry)), None);
}

#[test]
fn write_outcome_maps_failure() {
    assert_eq!(write_outcome(Ok(()), KeychainError::SaveToken), Ok(()));
    assert_eq!(
        write_outcome(Err(keyring::Error::NoEntry), KeychainError::SaveSettings),
        Err(KeychainError::SaveSettings)
    );
}

#[test]
fn entries_are_named_per_account() {
    assert_eq!(entry_names(KeychainAccount::Token), ("ai.yourgpt.creditbar", "token"));
    assert_eq!(entry_names(KeychainAccount::Settings), ("ai.yourgpt.creditbar", "settings"));
}

#[test]
fn save_token_writes_the_token_entry() {
    let out = save_token("abc");
    match out.entry {
        Some(e) => {
            assert_eq!(e.service, "ai.yourgpt.creditbar");
            assert_eq!(e.account, "token");
            assert_eq!(e.calls, vec![StoreCall::Write("abc".to_string())]);
            assert!(out.answer == Ok(()) || out.answer == Err(KeychainError::SaveToken));
        }
        None => assert_eq!(out.answer, Err(KeychainError::OpenEntry(KeychainAccount::Token))),
    }
}

#[test]
fn save_settings_writes_the_settings_entry() {
    let out = save_settings_json("{\"interval_secs\":30}");
    match out.entry {
        Some(e) => {
            assert_eq!(e.service, "ai.yourgpt.creditbar");
            assert_eq!(e.account, "settings");
            assert_eq!(e.calls, vec![StoreCall::Write("{\"interval_secs\":30}".to_string())]);
            assert!(out.answer == Ok(()) || out.answer == Err(KeychainError::SaveSettings));
        }
        None => assert_eq!(out.answer, Err(KeychainError::OpenEntry(KeychainAccount::Settings))),
    }
}

#[test]
fn loads_read_their_own_entry() {
    let t = load_token();
    match t.entry {
        Some(e) => {
            assert_eq!(e.account, "token");
            assert_eq!(e.calls, vec![StoreCall::Read]);
        }
        None => assert_eq!(t.answer, None),
    }
    let s = load_settings_json();
    match s.entry {
        Some(e) => {
            assert_eq!(e.account, "settings");
            assert_eq!(e.calls, vec![StoreCall::Read]);
        }
        None => assert_eq!(s.answer, None),
    }
}

#[test]
fn deletes_remove_their_own_entry() {
    let t = delete_token();
    assert_eq!(t.answer, Ok(()));
    if let Some(e) = t.entry {
        assert_eq!((e.service.as_str(), e.account.as_str()), ("ai.yourgpt.creditbar", "token"));
        assert_eq!(e.calls, vec![StoreCall::Remove]);
    }
    let s = delete_settings();
    assert_eq!(s.answer, Ok(()));
    if let Some(e) = s.entry {
        assert_eq!(e.account, "settings");
        assert_eq!(e.calls, vec![StoreCall::Remove]);
    }
}
