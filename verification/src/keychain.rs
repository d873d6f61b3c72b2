//! The API token and the settings, kept in the platform credential store
//! through the `keyring` crate.
//!
//! What the store holds is outside this library: reads and writes may fail, and
//! a read may give back anything another program stored. The functions below
//! state what they do with whatever the store answers, and record as plain
//! values which entry they opened and which calls they made on it.
use vstd::prelude::*;

verus! {

/// A credential store entry.
#[verifier::external_type_specification]
#[verifier::external_body]
pub struct ExKeyringEntry(keyring::Entry);

/// A credential store failure.
#[verifier::external_type_specification]
#[verifier::external_body]
pub struct ExKeyringError(keyring::Error);

/// The service name all entries are kept under.
pub const SERVICE: &'static str = "ai.yourgpt.creditbar";

/// The account of the API token.
pub const TOKEN_ACCOUNT: &'static str = "token";

/// The account of the settings.
pub const SETTINGS_ACCOUNT: &'static str = "settings";

/// The entries the library keeps.
#[derive(Clone, Copy, Debug, PartialEq, Eq, Structural)]
pub enum KeychainAccount {
    Token,
    Settings,
}

/// Why a credential store operation failed.
#[derive(Clone, Copy, Debug, PartialEq, Eq, Structural)]
pub enum KeychainError {
    /// The entry could not be opened.
    OpenEntry(KeychainAccount),
    /// The token could not be written.
    SaveToken,
    /// The settings could not be written.
    SaveSettings,
}

/// The service name of every entry the library keeps.
pub open spec fn service_name() -> Seq<char> {
    "ai.yourgpt.creditbar"@
}

/// The account name of an entry.
pub open spec fn account_name(account: KeychainAccount) -> Seq<char> {
    match account {
        KeychainAccount::Token => "token"@,
        KeychainAccount::Settings => "settings"@,
    }
}

/// The service and account an entry is kept under.
pub fn entry_names(account: KeychainAccount) -> (r: (&'static str, &'static str))
    ensures
        r.0@ == service_name(),
        r.1@ == account_name(account),
{
    match account {
        KeychainAccount::Token => (SERVICE, TOKEN_ACCOUNT),
        KeychainAccount::Settings => (SERVICE, SETTINGS_ACCOUNT),
    }
}

/// A call made on an opened entry of the credential store.
#[derive(Clone, Debug, PartialEq, Eq)]
pub enum StoreCall {
    /// The entry's password was read.
    Read,
    /// This text was written as the entry's password.
    Write(String),
    /// The entry was removed.
    Remove,
}

/// An entry of the credential store as plain values: the service and account
/// it was opened under, and the calls made on it, in order.
#[derive(Clone, Debug, PartialEq, Eq)]
pub struct EntryRecord {
    pub service: String,
    pub account: String,
    pub calls: Vec<StoreCall>,
}

/// What an operation on one of the library's entries did: the entry it
/// opened, if the store opened one, and the operation's answer.
#[derive(Clone, Debug, PartialEq, Eq)]
pub struct EntryOutcome<T> {
    pub entry: Option<EntryRecord>,
    pub answer: T,
}

/// Whether `e` was opened under the library's names for `account`.
pub open spec fn is_entry_of(e: EntryRecord, account: KeychainAccount) -> bool {
    e.service@ == service_name() && e.account@ == account_name(account)
}

/// Whether `call` wrote `text`.
pub open spec fn is_write_of(call: StoreCall, text: Seq<char>) -> bool {
    call matches StoreCall::Write(t) && t@ == text
}

/// Whether the one call made on `e` wrote `text`.
pub open spec fn wrote_once(e: EntryRecord, text: Seq<char>) -> bool {
    e.calls@.len() == 1 && is_write_of(e.calls@[0], text)
}

/// An opened entry together with its record.
struct StoreEntry {
    record: EntryRecord,
    entry: keyring::Entry,
}

/// keyring's `Entry::new`: opens the entry of `service` and `user` with the
/// default credential builder. Whether the store opens it depends on the
/// platform, so nothing is stated of success; an opened entry is recorded
/// under exactly the two names handed to `Entry::new`, with no calls yet.
#[verifier::external_body]
fn open_store_entry(service: &str, user: &str) -> (r: keyring::Result<StoreEntry>)
    ensures
        r matches Ok(e) ==> e.record.service@ == service@ && e.record.account@ == user@
            && e.record.calls@.len() == 0,
{
    match keyring::Entry::new(service, user) {
        Ok(entry) => Ok(StoreEntry {
            record: EntryRecord { service: service.to_owned(), account: user.to_owned(), calls: Vec::new() },
            entry,
        }),
        Err(err) => Err(err),
    }
}

/// keyring's `Entry::get_password`: reads the entry's password from the
/// store. What comes back depends on the store; nothing is stated of it. The
/// read is recorded on the entry.
#[verifier::external_body]
fn get_password(e: &mut StoreEntry) -> (r: keyring::Result<String>)
    ensures
        final(e).record.service == old(e).record.service,
        final(e).record.account == old(e).record.account,
        final(e).record.calls@ == old(e).record.calls@.push(StoreCall::Read),
{
    e.record.calls.push(StoreCall::Read);
    e.entry.get_password()
}

/// keyring's `Entry::set_password`: writes `password` as the entry's
/// password. Whether the store takes it is not stated; the text handed to
/// `set_password` is recorded on the entry as it was given.
#[verifier::external_body]
fn set_password(e: &mut StoreEntry, password: &str) -> (r: keyring::Result<()>)
    ensures
        final(e).record.service == old(e).record.service,
        final(e).record.account == old(e).record.account,
        final(e).record.calls@.drop_last() == old(e).record.calls@,
        final(e).record.calls@.len() == old(e).record.calls@.len() + 1,
        is_write_of(final(e).record.calls@.last(), password@),
{
    e.record.calls.push(StoreCall::Write(password.to_owned()));
    e.entry.set_password(password)
}

/// keyring's `Entry::delete_credential`: removes the entry from the store.
/// Whether it succeeds depends on the store; nothing is stated of it. The
/// removal is recorded on the entry.
#[verifier::external_body]
fn delete_credential(e: &mut StoreEntry) -> (r: keyring::Result<()>)
    ensures
        final(e).record.service == old(e).record.service,
        final(e).record.account == old(e).record.account,
        final(e).record.calls@ == old(e).record.calls@.push(StoreCall::Remove),
{
    e.record.calls.push(StoreCall::Remove);
    e.entry.delete_credential()
}

/// Opens the library's entry for `account`, under the names `entry_names`
/// gives.
fn open_entry(account: KeychainAccount) -> (r: Result<StoreEntry, KeychainError>)
    ensures
        match r {
            Ok(e) => is_entry_of(e.record, account) && e.record.calls@.len() == 0,
            Err(e) => e == KeychainError::OpenEntry(account),
        },
{
    let (service, user) = entry_names(account);
    match open_store_entry(service, user) {
        Ok(e) => Ok(e),
        Err(_) => Err(KeychainError::OpenEntry(account)),
    }
}

/// The text a read of the store gave, if it gave one.
pub fn read_outcome(read: keyring::Result<String>) -> (r: Option<String>)
    ensures
        match read {
            Ok(s) => r == Some(s),
            Err(_) => r is None,
        },
{
    match read {
        Ok(s) => Some(s),
        Err(_) => None,
    }
}

/// The outcome of a write to the store: `failure` when the write failed.
pub fn write_outcome(write: keyring::Result<()>, failure: KeychainError) -> (r: Result<
    (),
    KeychainError,
>)
    ensures
        match write {
            Ok(_) => r is Ok,
            Err(_) => r == Err::<(), KeychainError>(failure),
        },
{
    match write {
        Ok(()) => Ok(()),
        Err(_) => Err(failure),
    }
}

/// Reads the entry of `account`: nothing when the store does not open it,
/// else one read of that entry.
fn load(account: KeychainAccount) -> (r: EntryOutcome<Option<String>>)
    ensures
        match r.entry {
            Some(e) => is_entry_of(e, account) && e.calls@ == seq![StoreCall::Read],
            None => r.answer is None,
        },
{
    match open_entry(account) {
        Ok(mut e) => {
            let read = get_password(&mut e);
            let answer = read_outcome(read);
            EntryOutcome { entry: Some(e.record), answer }
        },
        Err(_) => EntryOutcome { entry: None, answer: None },
    }
}

/// Writes `text` to the entry of `account`: one write of exactly `text`,
/// answered `failure` when the store refuses it.
fn store(account: KeychainAccount, text: &str, failure: KeychainError) -> (r: EntryOutcome<
    Result<(), KeychainError>,
>)
    ensures
        match r.entry {
            Some(e) => is_entry_of(e, account) && wrote_once(e, text@) && (r.answer is Ok
                || r.answer == Err::<(), KeychainError>(failure)),
            None => r.answer == Err::<(), KeychainError>(KeychainError::OpenEntry(account)),
        },
{
    match open_entry(account) {
        Ok(mut e) => {
            let written = set_password(&mut e, text);
            let answer = write_outcome(written, failure);
            proof {
                assert(e.record.calls@.len() == 1);
                assert(e.record.calls@[0] == e.record.calls@.last());
            }
            EntryOutcome { entry: Some(e.record), answer }
        },
        Err(err) => EntryOutcome { entry: None, answer: Err(err) },
    }
}

/// Removes the entry of `account`; a missing or unopenable entry is no
/// failure.
fn delete(account: KeychainAccount) -> (r: EntryOutcome<Result<(), KeychainError>>)
    ensures
        r.answer is Ok,
        r.entry matches Some(e) ==> is_entry_of(e, account) && e.calls@ == seq![StoreCall::Remove],
{
    match open_entry(account) {
        Ok(mut e) => {
            let _ = delete_credential(&mut e);
            EntryOutcome { entry: Some(e.record), answer: Ok(()) }
        },
        Err(_) => EntryOutcome { entry: None, answer: Ok(()) },
    }
}

/// The stored API token, if there is one: one read of the token entry.
pub fn load_token() -> (r: EntryOutcome<Option<String>>)
    ensures
        match r.entry {
            Some(e) => is_entry_of(e, KeychainAccount::Token) && e.calls@ == seq![StoreCall::Read],
            None => r.answer is None,
        },
{
    load(KeychainAccount::Token)
}

/// Stores the API token: one write of exactly `token` to the token entry.
pub fn save_token(token: &str) -> (r: EntryOutcome<Result<(), KeychainError>>)
    ensures
        match r.entry {
            Some(e) => is_entry_of(e, KeychainAccount::Token) && wrote_once(e, token@) && (
            r.answer is Ok || r.answer == Err::<(), KeychainError>(KeychainError::SaveToken)),
            None => r.answer == Err::<(), KeychainError>(
                KeychainError::OpenEntry(KeychainAccount::Token),
            ),
        },
{
    store(KeychainAccount::Token, token, KeychainError::SaveToken)
}

/// Removes the stored API token; never fails.
pub fn delete_token() -> (r: EntryOutcome<Result<(), KeychainError>>)
    ensures
        r.answer is Ok,
        r.entry matches Some(e) ==> is_entry_of(e, KeychainAccount::Token) && e.calls@ == seq![
            StoreCall::Remove,
        ],
{
    delete(KeychainAccount::Token)
}

/// The stored settings document, if there is one: one read of the settings
/// entry.
pub fn load_settings_json() -> (r: EntryOutcome<Option<String>>)
    ensures
        match r.entry {
            Some(e) => is_entry_of(e, KeychainAccount::Settings) && e.calls@ == seq![
                StoreCall::Read,
            ],
            None => r.answer is None,
        },
{
    load(KeychainAccount::Settings)
}

/// Stores the settings document: one write of exactly `json` to the settings
/// entry.
pub fn save_settings_json(json: &str) -> (r: EntryOutcome<Result<(), KeychainError>>)
    ensures
        match r.entry {
            Some(e) => is_entry_of(e, KeychainAccount::Settings) && wrote_once(e, json@) && (
            r.answer is Ok || r.answer == Err::<(), KeychainError>(KeychainError::SaveSettings)),
            None => r.answer == Err::<(), KeychainError>(
                KeychainError::OpenEntry(KeychainAccount::Settings),
            ),
        },
{
    store(KeychainAccount::Settings, json, KeychainError::SaveSettings)
}

/// Removes the stored settings; never fails.
pub fn delete_settings() -> (r: EntryOutcome<Result<(), KeychainError>>)
    ensures
        r.answer is Ok,
        r.entry matches Some(e) ==> is_entry_of(e, KeychainAccount::Settings) && e.calls@ == seq![
            StoreCall::Remove,
        ],
{
    delete(KeychainAccount::Settings)
}

impl KeychainError {
    /// What the failure is, for people.
    pub fn message(&self) -> (s: String)
        ensures
            s@ == keychain_error_text(*self),
    {
        match self {
            KeychainError::OpenEntry(KeychainAccount::Token) => "open keychain entry: token".to_owned(),
            KeychainError::OpenEntry(KeychainAccount::Settings) => "open keychain entry: settings".to_owned(),
            KeychainError::SaveToken => "save token to keychain".to_owned(),
            KeychainError::SaveSettings => "save settings to keychain".to_owned(),
        }
    }
}

/// The text of a credential store failure.
pub open spec fn keychain_error_text(e: KeychainError) -> Seq<char> {
    match e {
        KeychainError::OpenEntry(KeychainAccount::Token) => "open keychain entry: token"@,
        KeychainError::OpenEntry(KeychainAccount::Settings) => "open keychain entry: settings"@,
        KeychainError::SaveToken => "save token to keychain"@,
        KeychainError::SaveSettings => "save settings to keychain"@,
    }
}

} // verus!
