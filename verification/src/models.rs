//! Organizations, severities and the fill levels of an organization's quota buckets.
//!
//! A bucket's fill level is held in hundredths of a percent (`0..=10000`): the
//! percentage of its limit that is used, clamped to `0..=100`, times 100 and
//! rounded down. Every threshold the library compares against is a whole
//! percentage, so comparing levels decides as comparing the percentages does.
use vstd::prelude::*;

verus! {

/// How close an organization is to its plan limits.
#[derive(Clone, Copy, Debug, PartialEq, Eq, Structural)]
pub enum Severity {
    /// Nothing to show: no quota buckets are known.
    Idle,
    /// Below the warning level.
    Normal,
    Warn,
    Alert,
}

/// A YourGPT organization the account belongs to.
#[derive(Clone, Debug)]
pub struct Org {
    pub id: String,
    pub name: String,
}

/// An organization as text values.
pub struct OrgView {
    pub id: Seq<char>,
    pub name: Seq<char>,
}

impl View for Org {
    type V = OrgView;

    open spec fn view(&self) -> OrgView {
        OrgView { id: self.id@, name: self.name@ }
    }
}

/// The full fill level: 100%.
pub const FULL_LEVEL: u16 = 10000;

/// The fill level of each quota bucket of a plan, in hundredths of a percent;
/// `None` where the plan has no such bucket.
#[derive(Clone, Copy, Debug)]
pub struct UsageLevels {
    pub chatbot: Option<u16>,
    pub document: Option<u16>,
    pub webpages: Option<u16>,
    pub credits: Option<u16>,
    pub voice_credits: Option<u16>,
    pub voice_lite_credits: Option<u16>,
    pub campaign_credits: Option<u16>,
    pub members: Option<u16>,
}

/// The eight levels in the order the plan lists its buckets.
pub open spec fn levels_seq(u: UsageLevels) -> Seq<Option<u16>> {
    seq![
        u.chatbot,
        u.document,
        u.webpages,
        u.credits,
        u.voice_credits,
        u.voice_lite_credits,
        u.campaign_credits,
        u.members,
    ]
}

/// Every known level is at most 100%.
pub open spec fn levels_valid(u: UsageLevels) -> bool {
    forall|i: int|
        0 <= i < 8 ==> match #[trigger] levels_seq(u)[i] {
            Some(l) => l <= FULL_LEVEL,
            None => true,
        }
}

/// The severity of a fill level: Alert from 90%, Warn from 70%, Ok below.
pub open spec fn severity_of_level(level: u16) -> Severity {
    if level >= 9000 {
        Severity::Alert
    } else if level >= 7000 {
        Severity::Warn
    } else {
        Severity::Normal
    }
}

/// The highest of the known levels in `s`, 0 when none is known.
pub open spec fn max_level(s: Seq<Option<u16>>) -> u16
    decreases s.len(),
{
    if s.len() == 0 {
        0
    } else {
        let rest = max_level(s.drop_last());
        match s.last() {
            Some(l) => if l > rest {
                l
            } else {
                rest
            },
            None => rest,
        }
    }
}

/// Some bucket of `s` is known.
pub open spec fn any_known(s: Seq<Option<u16>>) -> bool {
    exists|i: int| 0 <= i < s.len() && (#[trigger] s[i]) is Some
}

/// The worst severity across the known buckets and the worst level; Idle and 0
/// when no bucket is known.
pub open spec fn worst_severity_spec(u: UsageLevels) -> (Severity, u16) {
    let s = levels_seq(u);
    if !any_known(s) {
        (Severity::Idle, 0)
    } else {
        (severity_of_level(max_level(s)), max_level(s))
    }
}

/// The severity of a fill level.
pub fn severity_for_level(level: u16) -> (s: Severity)
    ensures
        s == severity_of_level(level),
{
    if level >= 9000 {
        Severity::Alert
    } else if level >= 7000 {
        Severity::Warn
    } else {
        Severity::Normal
    }
}

/// The worst level is at least every known level and is one of them (or 0).
pub proof fn lemma_max_level(s: Seq<Option<u16>>)
    ensures
        forall|i: int| 0 <= i < s.len() ==> match #[trigger] s[i] {
            Some(l) => l <= max_level(s),
            None => true,
        },
        max_level(s) == 0 || exists|i: int| 0 <= i < s.len() && #[trigger] s[i] == Some(max_level(s)),
    decreases s.len(),
{
    if s.len() > 0 {
        lemma_max_level(s.drop_last());
        let rest = s.drop_last();
        assert forall|i: int| 0 <= i < s.len() implies match #[trigger] s[i] {
            Some(l) => l <= max_level(s),
            None => true,
        } by {
            if i < s.len() - 1 {
                assert(s[i] == rest[i]);
            }
        }
        if max_level(s) != 0 {
            if max_level(s) != max_level(rest) {
                assert(s[s.len() - 1] == Some(max_level(s)));
            } else {
                let j = choose|j: int| 0 <= j < rest.len() && #[trigger] rest[j] == Some(max_level(rest));
                assert(s[j] == rest[j]);
            }
        }
    }
}

impl UsageLevels {
    /// The eight levels in the order the plan lists its buckets.
    pub fn levels(&self) -> (v: Vec<Option<u16>>)
        ensures
            v@ == levels_seq(*self),
    {
        let mut v: Vec<Option<u16>> = Vec::new();
        v.push(self.chatbot);
        v.push(self.document);
        v.push(self.webpages);
        v.push(self.credits);
        v.push(self.voice_credits);
        v.push(self.voice_lite_credits);
        v.push(self.campaign_credits);
        v.push(self.members);
        assert(v@ =~= levels_seq(*self));
        v
    }

    /// The worst severity across all known buckets, and the worst level.
    pub fn worst_severity(&self) -> (r: (Severity, u16))
        ensures
            r == worst_severity_spec(*self),
    {
        let v = self.levels();
        let mut known = false;
        let mut worst: u16 = 0;
        let mut i: usize = 0;
        while i < v.len()
            invariant
                v@ == levels_seq(*self),
                0 <= i <= v@.len(),
                worst == max_level(v@.take(i as int)),
                known == any_known(v@.take(i as int)),
            decreases v@.len() - i,
        {
            let ghost prev = v@.take(i as int);
            assert(v@.take(i + 1).drop_last() =~= prev);
            match v[i] {
                Some(l) => {
                    known = true;
                    if l > worst {
                        worst = l;
                    }
                    assert(v@.take(i + 1)[i as int] is Some);
                },
                None => {
                    assert forall|k: int| 0 <= k < i + 1 && (#[trigger] v@.take(i + 1)[k]) is Some implies prev[k] is Some by {
                        if k < i {
                            assert(v@.take(i + 1)[k] == prev[k]);
                        }
                    }
                },
            }
            proof {
                if known && !any_known(prev) {
                    assert(v@.take(i + 1)[i as int] is Some);
                }
                if any_known(prev) {
                    let k = choose|k: int| 0 <= k < prev.len() && (#[trigger] prev[k]) is Some;
                    assert(v@.take(i + 1)[k] == prev[k]);
                }
            }
            i = i + 1;
        }
        assert(v@.take(8) =~= v@);
        if !known {
            (Severity::Idle, 0)
        } else {
            (severity_for_level(worst), worst)
        }
    }
}


/// The worst level is the highest known level: at least every known bucket's
/// level and equal to one of them; Idle exactly when no bucket is known.
pub proof fn law_worst_is_highest(u: UsageLevels)
    ensures
        (worst_severity_spec(u).0 == Severity::Idle) == !any_known(levels_seq(u)),
        forall|i: int|
            0 <= i < 8 ==> match #[trigger] levels_seq(u)[i] {
                Some(l) => l <= worst_severity_spec(u).1,
                None => true,
            },
        any_known(levels_seq(u)) ==> exists|i: int|
            0 <= i < 8 && #[trigger] levels_seq(u)[i] == Some(worst_severity_spec(u).1),
{
    let s = levels_seq(u);
    lemma_max_level(s);
    if any_known(s) && max_level(s) == 0 {
        let i = choose|i: int| 0 <= i < s.len() && (#[trigger] s[i]) is Some;
        assert(s[i]->0 <= 0);
        assert(s[i] == Some(max_level(s)));
    }
}


/// Every one of the eight buckets is looked at: the worst level is at least the
/// level of each known bucket and is the level of one of them; the severity is
/// Idle (with level 0) exactly when no bucket is known, and otherwise Alert from
/// 90%, Warn from 70% and Normal below.
pub proof fn law_worst_covers_every_bucket(u: UsageLevels)
    ensures
        ({
            let w = worst_severity_spec(u);
            &&& (u.chatbot matches Some(l) ==> l <= w.1)
            &&& (u.document matches Some(l) ==> l <= w.1)
            &&& (u.webpages matches Some(l) ==> l <= w.1)
            &&& (u.credits matches Some(l) ==> l <= w.1)
            &&& (u.voice_credits matches Some(l) ==> l <= w.1)
            &&& (u.voice_lite_credits matches Some(l) ==> l <= w.1)
            &&& (u.campaign_credits matches Some(l) ==> l <= w.1)
            &&& (u.members matches Some(l) ==> l <= w.1)
            &&& (w.0 == Severity::Idle) == (u.chatbot is None && u.document is None && u.webpages is None && u.credits is None && u.voice_credits is None && u.voice_lite_credits is None && u.campaign_credits is None && u.members is None)
            &&& w.0 == Severity::Idle ==> w.1 == 0
            &&& w.0 != Severity::Idle ==> (u.chatbot == Some(w.1) || u.document == Some(w.1) || u.webpages == Some(w.1) || u.credits == Some(w.1) || u.voice_credits == Some(w.1) || u.voice_lite_credits == Some(w.1) || u.campaign_credits == Some(w.1) || u.members == Some(w.1))
            &&& w.0 != Severity::Idle ==> ((w.0 == Severity::Alert) == (w.1 >= 9000) && (w.0
                == Severity::Warn) == (7000 <= w.1 && w.1 < 9000) && (w.0 == Severity::Normal) == (w.1
                < 7000))
        }),
{
    let s = levels_seq(u);
    law_worst_is_highest(u);
    assert(s[0] == u.chatbot);
    assert(s[1] == u.document);
    assert(s[2] == u.webpages);
    assert(s[3] == u.credits);
    assert(s[4] == u.voice_credits);
    assert(s[5] == u.voice_lite_credits);
    assert(s[6] == u.campaign_credits);
    assert(s[7] == u.members);
    assert(s.len() == 8);
    if !(u.chatbot is None && u.document is None && u.webpages is None && u.credits is None && u.voice_credits is None && u.voice_lite_credits is None && u.campaign_credits is None && u.members is None) {
        assert(any_known(s)) by {
            if u.chatbot is Some { assert(s[0] is Some); }
            else if u.document is Some { assert(s[1] is Some); }
            else if u.webpages is Some { assert(s[2] is Some); }
            else if u.credits is Some { assert(s[3] is Some); }
            else if u.voice_credits is Some { assert(s[4] is Some); }
            else if u.voice_lite_credits is Some { assert(s[5] is Some); }
            else if u.campaign_credits is Some { assert(s[6] is Some); }
            else { assert(s[7] is Some); }
        }
    }
    if any_known(s) {
        let i = choose|i: int| 0 <= i < 8 && #[trigger] s[i] == Some(worst_severity_spec(u).1);
        assert(0 <= i < 8);
    }
}

} // verus!
