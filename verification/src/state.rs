//! User settings (selected organization and refresh interval) and the answers
//! the settings window and the organization picker get.
use vstd::prelude::*;

use crate::keychain::{is_entry_of, save_token, wrote_once, EntryOutcome, KeychainAccount, KeychainError};
use crate::models::Org;
use crate::text::{is_blank, trim_spec, trim_string};

verus! {

/// The default refresh interval, in seconds.
pub const DEFAULT_INTERVAL_SECS: u64 = 30;

/// The shortest refresh interval, in seconds.
pub const MIN_INTERVAL_SECS: u64 = 15;

/// The longest refresh interval, in seconds.
pub const MAX_INTERVAL_SECS: u64 = 300;

/// What the user chose in the settings window.
#[derive(Clone, Debug)]
pub struct UserSettings {
    pub organization_id: Option<String>,
    pub organization_name: Option<String>,
    pub interval_secs: u64,
}

/// Settings as values.
pub struct UserSettingsView {
    pub organization_id: Option<Seq<char>>,
    pub organization_name: Option<Seq<char>>,
    pub interval_secs: u64,
}

impl View for UserSettings {
    type V = UserSettingsView;

    open spec fn view(&self) -> UserSettingsView {
        UserSettingsView {
            organization_id: self.organization_id.deep_view(),
            organization_name: self.organization_name.deep_view(),
            interval_secs: self.interval_secs,
        }
    }
}

/// `x` clamped to `lo..=hi`.
pub open spec fn clamp(x: u64, lo: u64, hi: u64) -> u64 {
    if x < lo {
        lo
    } else if x > hi {
        hi
    } else {
        x
    }
}

/// A stored interval made safe to poll with: 0 (never written) becomes the
/// default, anything else is clamped to 15..=300.
pub open spec fn stored_interval(x: u64) -> u64 {
    if x == 0 {
        DEFAULT_INTERVAL_SECS
    } else {
        clamp(x, MIN_INTERVAL_SECS, MAX_INTERVAL_SECS)
    }
}

fn clamp_interval(x: u64) -> (r: u64)
    ensures
        r == clamp(x, MIN_INTERVAL_SECS, MAX_INTERVAL_SECS),
{
    if x < MIN_INTERVAL_SECS {
        MIN_INTERVAL_SECS
    } else if x > MAX_INTERVAL_SECS {
        MAX_INTERVAL_SECS
    } else {
        x
    }
}

impl UserSettings {
    /// No organization selected, refreshing every 30 seconds.
    pub fn defaults() -> (s: UserSettings)
        ensures
            s@ == (UserSettingsView {
                organization_id: None,
                organization_name: None,
                interval_secs: DEFAULT_INTERVAL_SECS,
            }),
    {
        UserSettings {
            organization_id: None,
            organization_name: None,
            interval_secs: DEFAULT_INTERVAL_SECS,
        }
    }

    /// The settings to use given what the store held: the stored settings with
    /// their interval made safe, or the defaults when nothing usable was stored.
    pub fn from_stored(stored: Option<UserSettings>) -> (s: UserSettings)
        ensures
            s@ == match stored {
                Some(t) => UserSettingsView {
                    organization_id: t@.organization_id,
                    organization_name: t@.organization_name,
                    interval_secs: stored_interval(t.interval_secs),
                },
                None => UserSettingsView {
                    organization_id: None,
                    organization_name: None,
                    interval_secs: DEFAULT_INTERVAL_SECS,
                },
            },
            MIN_INTERVAL_SECS <= s.interval_secs <= MAX_INTERVAL_SECS,
    {
        match stored {
            Some(t) => {
                let interval_secs = if t.interval_secs == 0 {
                    DEFAULT_INTERVAL_SECS
                } else {
                    clamp_interval(t.interval_secs)
                };
                UserSettings {
                    organization_id: t.organization_id,
                    organization_name: t.organization_name,
                    interval_secs,
                }
            },
            None => Self::defaults(),
        }
    }

    /// The settings the settings window saves: the chosen organization and the
    /// interval clamped to 15..=300 seconds.
    pub fn for_save(organization_id: String, organization_name: String, interval_secs: u64) -> (s:
        UserSettings)
        ensures
            s@ == (UserSettingsView {
                organization_id: Some(organization_id@),
                organization_name: Some(organization_name@),
                interval_secs: clamp(interval_secs, MIN_INTERVAL_SECS, MAX_INTERVAL_SECS),
            }),
            MIN_INTERVAL_SECS <= s.interval_secs <= MAX_INTERVAL_SECS,
    {
        UserSettings {
            organization_id: Some(organization_id),
            organization_name: Some(organization_name),
            interval_secs: clamp_interval(interval_secs),
        }
    }

    /// These settings with another organization selected; the interval is kept.
    pub fn with_organization(self, organization_id: String, organization_name: String) -> (s:
        UserSettings)
        ensures
            s@ == (UserSettingsView {
                organization_id: Some(organization_id@),
                organization_name: Some(organization_name@),
                interval_secs: self.interval_secs,
            }),
    {
        UserSettings {
            organization_id: Some(organization_id),
            organization_name: Some(organization_name),
            interval_secs: self.interval_secs,
        }
    }

    /// The seconds to wait between polls: the interval, but never under 15.
    pub fn poll_interval_secs(&self) -> (r: u64)
        ensures
            r == if self.interval_secs < MIN_INTERVAL_SECS {
                MIN_INTERVAL_SECS
            } else {
                self.interval_secs
            },
    {
        if self.interval_secs < MIN_INTERVAL_SECS {
            MIN_INTERVAL_SECS
        } else {
            self.interval_secs
        }
    }
}

/// What the settings window is told.
pub struct SettingsResp {
    pub has_token: bool,
    pub organization_id: Option<String>,
    pub organization_name: Option<String>,
    pub interval_secs: u64,
}

impl SettingsResp {
    /// The answer for the current settings.
    pub fn new(has_token: bool, settings: UserSettings) -> (r: SettingsResp)
        ensures
            r.has_token == has_token,
            r.organization_id.deep_view() == settings@.organization_id,
            r.organization_name.deep_view() == settings@.organization_name,
            r.interval_secs == settings.interval_secs,
    {
        SettingsResp {
            has_token,
            organization_id: settings.organization_id,
            organization_name: settings.organization_name,
            interval_secs: settings.interval_secs,
        }
    }
}

/// The organizations the picker offers.
pub struct OrgsResp {
    pub orgs: Vec<Org>,
}

/// The message when no token is given and none is stored.
pub open spec fn no_token_text() -> Seq<char> {
    "No token saved. Open Settings to connect your account."@
}

/// The token a caller gave, when it is not blank.
pub open spec fn given_token(given: Option<String>) -> Option<Seq<char>> {
    match given {
        Some(t) => if trim_spec(t@).len() == 0 {
            None
        } else {
            Some(t@)
        },
        None => None,
    }
}

/// Whether `r` is the token to call the API with, given `given` and the
/// stored token `stored`: the given one unless it is blank, else the stored
/// one; the no-token message when neither is there.
pub open spec fn is_token_choice(
    given: Option<String>,
    stored: Option<String>,
    r: Result<String, String>,
) -> bool {
    match given_token(given) {
        Some(t) => r matches Ok(s) && s@ == t,
        None => match stored {
            Some(t) => r matches Ok(s) && s@ == t@,
            None => r matches Err(m) && m@ == no_token_text(),
        },
    }
}

/// The token to call the API with: `given` unless it is blank, else
/// `stored`; an error when neither is there.
pub fn choose_token(given: Option<String>, stored: Option<String>) -> (r: Result<String, String>)
    ensures
        is_token_choice(given, stored, r),
{
    if let Some(t) = given {
        if !is_blank(t.as_str()) {
            return Ok(t);
        }
    }
    match stored {
        Some(t) => Ok(t),
        None => Err("No token saved. Open Settings to connect your account.".to_owned()),
    }
}

/// The token to call the API with: the given one unless it is blank, else the
/// one `load_stored` gives, which is asked only then.
pub fn token_for_request<F: FnOnce() -> Option<String>>(
    given: Option<String>,
    load_stored: F,
) -> (r: Result<String, String>)
    requires
        call_requires(load_stored, ()),
    ensures
        given_token(given) is Some ==> is_token_choice(given, None, r),
        given_token(given) is None ==> exists|stored: Option<String>|
            call_ensures(load_stored, (), stored) && is_token_choice(given, stored, r),
{
    if let Some(t) = &given {
        if !is_blank(t.as_str()) {
            return choose_token(given, None);
        }
    }
    let stored = load_stored();
    choose_token(given, stored)
}

/// The token the settings window asks to store: the given one without
/// surrounding whitespace, when that is not empty.
pub open spec fn token_to_store(given: Option<String>) -> Option<Seq<char>> {
    match given {
        Some(t) => if trim_spec(t@).len() == 0 {
            None
        } else {
            Some(trim_spec(t@))
        },
        None => None,
    }
}

/// The given token without surrounding whitespace, when that is not empty.
pub fn trimmed_token(given: &Option<String>) -> (r: Option<String>)
    ensures
        r.deep_view() == token_to_store(*given),
{
    match given {
        Some(t) => {
            let s = trim_string(t.as_str());
            if s.as_str().is_empty() {
                None
            } else {
                Some(s)
            }
        },
        None => None,
    }
}

/// Stores the token the settings window was given, if any: the token without
/// surrounding whitespace is written to the token entry; nothing is written
/// (`None`) for a missing or blank token.
pub fn save_given_token(given: &Option<String>) -> (r: Option<EntryOutcome<Result<(), KeychainError>>>)
    ensures
        token_to_store(*given) is None <==> r is None,
        r matches Some(out) ==> match out.entry {
            Some(e) => is_entry_of(e, KeychainAccount::Token) && wrote_once(
                e,
                token_to_store(*given)->0,
            ) && (out.answer is Ok || out.answer == Err::<(), KeychainError>(
                KeychainError::SaveToken,
            )),
            None => out.answer == Err::<(), KeychainError>(
                KeychainError::OpenEntry(KeychainAccount::Token),
            ),
        },
{
    match trimmed_token(given) {
        Some(t) => Some(save_token(t.as_str())),
        None => None,
    }
}

} // verus!
