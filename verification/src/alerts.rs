//! Threshold and past-due banners, deduplicated per organization.
//!
//! Each poll cycle checks every quota bucket of every organization. A bucket that
//! has crossed 80%, 95% or 100% of its limit gets a banner for the highest
//! threshold crossed, at most once per (organization, bucket, threshold) for the
//! life of the dedup set; firing a threshold also marks every lower one, so a
//! bucket that is already full fires one banner, not three, and a bucket that
//! dips and climbs back is not alerted again for a threshold it passed before.
//! A subscription that becomes past due gets one banner, re-armed once it
//! recovers.
use vstd::prelude::*;

use crate::json::text_eq;
use crate::models::UsageLevels;
use crate::text::{decimal, push_decimal, push_str_chars, string_from_chars};

verus! {

/// The quota buckets, in the order they are checked.
#[derive(Clone, Copy, Debug, PartialEq, Eq, Structural)]
pub enum BucketKind {
    Credits,
    VoiceCredits,
    VoiceLiteCredits,
    CampaignCredits,
    Chatbots,
    TeamMembers,
    Documents,
    Webpages,
}

/// What a banner was fired for.
#[derive(Clone, Copy, Debug, PartialEq, Eq, Structural)]
pub enum AlertKind {
    /// A bucket reached a threshold, in whole percent.
    Threshold(BucketKind, u8),
    /// The subscription is past due.
    PastDue,
}

/// A fired banner: the organization it was for and what it was for.
pub struct FiredKey {
    pub org_id: String,
    pub alert: AlertKind,
}

impl View for FiredKey {
    type V = (Seq<char>, AlertKind);

    open spec fn view(&self) -> (Seq<char>, AlertKind) {
        (self.org_id@, self.alert)
    }
}

/// A native banner to show.
pub struct Banner {
    pub title: String,
    pub body: String,
}

/// A banner as text values.
pub struct BannerView {
    pub title: Seq<char>,
    pub body: Seq<char>,
}

impl View for Banner {
    type V = BannerView;

    open spec fn view(&self) -> BannerView {
        BannerView { title: self.title@, body: self.body@ }
    }
}

/// Banners as text values.
pub open spec fn banners_view(v: Seq<Banner>) -> Seq<BannerView> {
    v.map_values(|b: Banner| b@)
}

/// Whether some key of `keys` is `k`.
pub open spec fn has_key(keys: Seq<FiredKey>, k: (Seq<char>, AlertKind)) -> bool {
    exists|i: int| 0 <= i < keys.len() && (#[trigger] keys[i])@ == k
}

/// The banners fired so far, as a set of (organization id, alert) pairs.
pub struct FiredSet {
    keys: Vec<FiredKey>,
}

impl View for FiredSet {
    type V = Set<(Seq<char>, AlertKind)>;

    closed spec fn view(&self) -> Set<(Seq<char>, AlertKind)> {
        Set::new(|k: (Seq<char>, AlertKind)| has_key(self.keys@, k))
    }
}

impl FiredSet {
    /// An empty set.
    pub fn new() -> (s: FiredSet)
        ensures
            s@ == Set::<(Seq<char>, AlertKind)>::empty(),
    {
        let s = FiredSet { keys: Vec::new() };
        assert(s@ =~= Set::<(Seq<char>, AlertKind)>::empty());
        s
    }

    /// Whether `(org_id, alert)` has fired.
    pub fn contains(&self, org_id: &str, alert: AlertKind) -> (r: bool)
        ensures
            r == self@.contains((org_id@, alert)),
    {
        let mut i: usize = 0;
        while i < self.keys.len()
            invariant
                0 <= i <= self.keys@.len(),
                forall|k: int| 0 <= k < i ==> (#[trigger] self.keys@[k])@ != (org_id@, alert),
            decreases self.keys@.len() - i,
        {
            if self.keys[i].alert == alert && text_eq(self.keys[i].org_id.as_str(), org_id) {
                assert(self.keys@[i as int]@ == (org_id@, alert));
                return true;
            }
            i = i + 1;
        }
        false
    }

    /// Records `(org_id, alert)` as fired.
    pub fn insert(&mut self, org_id: &str, alert: AlertKind)
        ensures
            final(self)@ == old(self)@.insert((org_id@, alert)),
    {
        if !self.contains(org_id, alert) {
            let ghost before = self.keys@;
            self.keys.push(FiredKey { org_id: org_id.to_owned(), alert });
            assert forall|k: (Seq<char>, AlertKind)| has_key(self.keys@, k) == (has_key(before, k)
                || k == (org_id@, alert)) by {
                if has_key(before, k) {
                    let i = choose|i: int| 0 <= i < before.len() && (#[trigger] before[i])@ == k;
                    assert(self.keys@[i] == before[i]);
                }
                if k == (org_id@, alert) {
                    assert(self.keys@[before.len() as int]@ == k);
                }
                if has_key(self.keys@, k) {
                    let i = choose|i: int| 0 <= i < self.keys@.len() && (#[trigger] self.keys@[i])@ == k;
                    if i < before.len() {
                        assert(self.keys@[i] == before[i]);
                    }
                }
            }
            assert(self@ =~= old(self)@.insert((org_id@, alert)));
        } else {
            assert(self@ =~= old(self)@.insert((org_id@, alert)));
        }
    }

    /// Forgets that `(org_id, alert)` fired.
    pub fn remove(&mut self, org_id: &str, alert: AlertKind)
        ensures
            final(self)@ == old(self)@.remove((org_id@, alert)),
    {
        let ghost target = (org_id@, alert);
        let mut kept: Vec<FiredKey> = Vec::new();
        let rest = &self.keys;
        let ghost all = rest@;
        let mut i: usize = 0;
        while i < rest.len()
            invariant
                0 <= i <= rest@.len(),
                rest@ == all,
                target == (org_id@, alert),
                forall|k: (Seq<char>, AlertKind)| has_key(kept@, k) == (has_key(all.take(i as int), k) && k != target),
            decreases rest@.len() - i,
        {
            let matches = rest[i].alert == alert && text_eq(rest[i].org_id.as_str(), org_id);
            let ghost prev = kept@;
            let ghost taken = all.take(i as int);
            if !matches {
                let k = FiredKey { org_id: rest[i].org_id.clone(), alert: rest[i].alert };
                kept.push(k);
            }
            proof {
                assert(matches == (all[i as int]@ == target));
                if !matches {
                    assert(kept@[prev.len() as int]@ == all[i as int]@);
                    assert(kept@.drop_last() == prev);
                } else {
                    assert(kept@ == prev);
                }
                let next = all.take(i + 1);
                assert(next[i as int] == all[i as int]);
                assert forall|k: (Seq<char>, AlertKind)| has_key(kept@, k) == (has_key(next, k) && k != target) by {
                    if has_key(next, k) {
                        let j = choose|j: int| 0 <= j < next.len() && (#[trigger] next[j])@ == k;
                        if j < i {
                            assert(taken[j] == next[j]);
                        }
                    }
                    if has_key(taken, k) {
                        let j = choose|j: int| 0 <= j < taken.len() && (#[trigger] taken[j])@ == k;
                        assert(taken[j] == next[j]);
                    }
                    if has_key(kept@, k) {
                        let j = choose|j: int| 0 <= j < kept@.len() && (#[trigger] kept@[j])@ == k;
                        if j < prev.len() {
                            assert(kept@[j] == prev[j]);
                        }
                    }
                    if has_key(prev, k) {
                        let j = choose|j: int| 0 <= j < prev.len() && (#[trigger] prev[j])@ == k;
                        assert(kept@[j] == prev[j]);
                    }
                    if !matches && k == all[i as int]@ {
                        assert(kept@[prev.len() as int]@ == k);
                    }
                }
            }
            i = i + 1;
        }
        assert(all.take(all.len() as int) =~= all);
        self.keys = kept;
        assert(self@ =~= old(self)@.remove((org_id@, alert)));
    }
}

// ---------------------------------------------------------------------------
// Bucket labels and banner copy
// ---------------------------------------------------------------------------

/// The display label of a bucket.
pub open spec fn label_of(k: BucketKind) -> Seq<char> {
    match k {
        BucketKind::Credits => "Credits"@,
        BucketKind::VoiceCredits => "Voice Credits"@,
        BucketKind::VoiceLiteCredits => "Voice Lite Credits"@,
        BucketKind::CampaignCredits => "Campaign Credits"@,
        BucketKind::Chatbots => "Chatbots"@,
        BucketKind::TeamMembers => "Team Members"@,
        BucketKind::Documents => "Documents"@,
        BucketKind::Webpages => "Webpages"@,
    }
}

/// The display label of a bucket.
pub fn bucket_label(k: BucketKind) -> (s: &'static str)
    ensures
        s@ == label_of(k),
{
    match k {
        BucketKind::Credits => "Credits",
        BucketKind::VoiceCredits => "Voice Credits",
        BucketKind::VoiceLiteCredits => "Voice Lite Credits",
        BucketKind::CampaignCredits => "Campaign Credits",
        BucketKind::Chatbots => "Chatbots",
        BucketKind::TeamMembers => "Team Members",
        BucketKind::Documents => "Documents",
        BucketKind::Webpages => "Webpages",
    }
}

/// The buckets with their levels, in the order they are checked.
pub open spec fn named_seq(u: UsageLevels) -> Seq<(BucketKind, Option<u16>)> {
    seq![
        (BucketKind::Credits, u.credits),
        (BucketKind::VoiceCredits, u.voice_credits),
        (BucketKind::VoiceLiteCredits, u.voice_lite_credits),
        (BucketKind::CampaignCredits, u.campaign_credits),
        (BucketKind::Chatbots, u.chatbot),
        (BucketKind::TeamMembers, u.members),
        (BucketKind::Documents, u.document),
        (BucketKind::Webpages, u.webpages),
    ]
}

/// The buckets with their levels, in the order they are checked.
pub fn named_buckets(u: &UsageLevels) -> (v: Vec<(BucketKind, Option<u16>)>)
    ensures
        v@ == named_seq(*u),
{
    let mut v: Vec<(BucketKind, Option<u16>)> = Vec::new();
    v.push((BucketKind::Credits, u.credits));
    v.push((BucketKind::VoiceCredits, u.voice_credits));
    v.push((BucketKind::VoiceLiteCredits, u.voice_lite_credits));
    v.push((BucketKind::CampaignCredits, u.campaign_credits));
    v.push((BucketKind::Chatbots, u.chatbot));
    v.push((BucketKind::TeamMembers, u.members));
    v.push((BucketKind::Documents, u.document));
    v.push((BucketKind::Webpages, u.webpages));
    assert(v@ =~= named_seq(*u));
    v
}

/// The fixed banner copy for a bucket at a threshold: what stops working for
/// credit buckets, that nothing more can be added for count buckets.
pub open spec fn banner_copy(k: BucketKind, t: u8) -> Option<Seq<char>> {
    match (k, t) {
        (BucketKind::Credits, 80) => Some("Credits at 80%. Top up before your chatbot pauses."@),
        (BucketKind::Credits, 95) => Some("Credits at 95%. Chatbot will pause soon. Top up."@),
        (BucketKind::Credits, 100) => Some("Credits at 100%. Your chatbot can't answer messages."@),
        (BucketKind::VoiceCredits, 80) => Some("Voice Credits at 80%. Top up before voice pauses."@),
        (BucketKind::VoiceCredits, 95) => Some(
            "Voice Credits at 95%. Voice features pausing. Top up."@,
        ),
        (BucketKind::VoiceCredits, 100) => Some(
            "Voice Credits at 100%. Voice features have stopped."@,
        ),
        (BucketKind::VoiceLiteCredits, 80) => Some(
            "Voice Lite Credits at 80%. Top up before voice pauses."@,
        ),
        (BucketKind::VoiceLiteCredits, 95) => Some(
            "Voice Lite Credits at 95%. Voice features pausing. Top up."@,
        ),
        (BucketKind::VoiceLiteCredits, 100) => Some(
            "Voice Lite Credits at 100%. Voice features have stopped."@,
        ),
        (BucketKind::CampaignCredits, 80) => Some(
            "Campaign Credits at 80%. Top up before campaigns pause."@,
        ),
        (BucketKind::CampaignCredits, 95) => Some(
            "Campaign Credits at 95%. Sends pausing soon. Top up."@,
        ),
        (BucketKind::CampaignCredits, 100) => Some(
            "Campaign Credits at 100%. Campaign sends have stopped."@,
        ),
        (BucketKind::Chatbots, 80) => Some(
            "Chatbots at 80%. Approaching chatbot limit. Upgrade to add more."@,
        ),
        (BucketKind::Chatbots, 95) => Some(
            "Chatbots at 95%. Almost at chatbot limit. Upgrade to add more."@,
        ),
        (BucketKind::Chatbots, 100) => Some(
            "Chatbots at 100%. Chatbot limit reached. Upgrade to add more."@,
        ),
        (BucketKind::TeamMembers, 80) => Some(
            "Team Members at 80%. Approaching seat limit. Upgrade to add more."@,
        ),
        (BucketKind::TeamMembers, 95) => Some("Team Members at 95%. Almost at seat limit. Upgrade to add more."@),
        (BucketKind::TeamMembers, 100) => Some("Team Members at 100%. Seat limit reached. Upgrade to add more."@),
        (BucketKind::Documents, 80) => Some(
            "Documents at 80%. Approaching document limit. Upgrade to add more."@,
        ),
        (BucketKind::Documents, 95) => Some(
            "Documents at 95%. Almost at document limit. Upgrade to add more."@,
        ),
        (BucketKind::Documents, 100) => Some("Documents at 100%. Document limit reached. Upgrade to add more."@),
        (BucketKind::Webpages, 80) => Some("Webpages at 80%. Approaching webpage limit. Upgrade to add more."@),
        (BucketKind::Webpages, 95) => Some("Webpages at 95%. Almost at webpage limit. Upgrade to add more."@),
        (BucketKind::Webpages, 100) => Some("Webpages at 100%. Webpage limit reached. Upgrade to add more."@),
        _ => None,
    }
}

/// The banner text for a bucket at a threshold: the fixed copy, or
/// "<label> at <threshold>%." for a threshold without copy.
pub open spec fn banner_body_spec(k: BucketKind, t: u8) -> Seq<char> {
    match banner_copy(k, t) {
        Some(c) => c,
        None => label_of(k) + " at "@ + decimal(t as nat) + "%."@,
    }
}

fn banner_copy_str(k: BucketKind, t: u8) -> (r: Option<&'static str>)
    ensures
        match r {
            Some(s) => banner_copy(k, t) == Some(s@),
            None => banner_copy(k, t) is None,
        },
{
    match (k, t) {
        (BucketKind::Credits, 80) => Some("Credits at 80%. Top up before your chatbot pauses."),
        (BucketKind::Credits, 95) => Some("Credits at 95%. Chatbot will pause soon. Top up."),
        (BucketKind::Credits, 100) => Some("Credits at 100%. Your chatbot can't answer messages."),
        (BucketKind::VoiceCredits, 80) => Some("Voice Credits at 80%. Top up before voice pauses."),
        (BucketKind::VoiceCredits, 95) => Some(
            "Voice Credits at 95%. Voice features pausing. Top up.",
        ),
        (BucketKind::VoiceCredits, 100) => Some(
            "Voice Credits at 100%. Voice features have stopped.",
        ),
        (BucketKind::VoiceLiteCredits, 80) => Some(
            "Voice Lite Credits at 80%. Top up before voice pauses.",
        ),
        (BucketKind::VoiceLiteCredits, 95) => Some(
            "Voice Lite Credits at 95%. Voice features pausing. Top up.",
        ),
        (BucketKind::VoiceLiteCredits, 100) => Some(
            "Voice Lite Credits at 100%. Voice features have stopped.",
        ),
        (BucketKind::CampaignCredits, 80) => Some(
            "Campaign Credits at 80%. Top up before campaigns pause.",
        ),
        (BucketKind::CampaignCredits, 95) => Some(
            "Campaign Credits at 95%. Sends pausing soon. Top up.",
        ),
        (BucketKind::CampaignCredits, 100) => Some(
            "Campaign Credits at 100%. Campaign sends have stopped.",
        ),
        (BucketKind::Chatbots, 80) => Some(
            "Chatbots at 80%. Approaching chatbot limit. Upgrade to add more.",
        ),
        (BucketKind::Chatbots, 95) => Some(
            "Chatbots at 95%. Almost at chatbot limit. Upgrade to add more.",
        ),
        (BucketKind::Chatbots, 100) => Some(
            "Chatbots at 100%. Chatbot limit reached. Upgrade to add more.",
        ),
        (BucketKind::TeamMembers, 80) => Some(
            "Team Members at 80%. Approaching seat limit. Upgrade to add more.",
        ),
        (BucketKind::TeamMembers, 95) => Some("Team Members at 95%. Almost at seat limit. Upgrade to add more."),
        (BucketKind::TeamMembers, 100) => Some("Team Members at 100%. Seat limit reached. Upgrade to add more."),
        (BucketKind::Documents, 80) => Some(
            "Documents at 80%. Approaching document limit. Upgrade to add more.",
        ),
        (BucketKind::Documents, 95) => Some(
            "Documents at 95%. Almost at document limit. Upgrade to add more.",
        ),
        (BucketKind::Documents, 100) => Some("Documents at 100%. Document limit reached. Upgrade to add more."),
        (BucketKind::Webpages, 80) => Some("Webpages at 80%. Approaching webpage limit. Upgrade to add more."),
        (BucketKind::Webpages, 95) => Some("Webpages at 95%. Almost at webpage limit. Upgrade to add more."),
        (BucketKind::Webpages, 100) => Some("Webpages at 100%. Webpage limit reached. Upgrade to add more."),
        _ => None,
    }
}

/// The banner text for a bucket at a threshold.
pub fn banner_body(k: BucketKind, t: u8) -> (s: String)
    ensures
        s@ == banner_body_spec(k, t),
{
    match banner_copy_str(k, t) {
        Some(c) => c.to_owned(),
        None => {
            let mut v: Vec<char> = Vec::new();
            push_str_chars(&mut v, bucket_label(k));
            push_str_chars(&mut v, " at ");
            push_decimal(&mut v, t as u64);
            push_str_chars(&mut v, "%.");
            assert(v@ =~= banner_body_spec(k, t));
            string_from_chars(&v)
        },
    }
}

// ---------------------------------------------------------------------------
// Threshold checks
// ---------------------------------------------------------------------------

/// The highest threshold a level has crossed: 100, 95 or 80 percent.
pub open spec fn highest_crossed(level: u16) -> Option<u8> {
    if level >= 10000 {
        Some(100)
    } else if level >= 9500 {
        Some(95)
    } else if level >= 8000 {
        Some(80)
    } else {
        None
    }
}

/// The keys firing threshold `t` of bucket `k` records: `t` and every lower threshold.
pub open spec fn marked(org: Seq<char>, k: BucketKind, t: u8) -> Set<(Seq<char>, AlertKind)> {
    if t == 100 {
        set![
            (org, AlertKind::Threshold(k, 100)),
            (org, AlertKind::Threshold(k, 95)),
            (org, AlertKind::Threshold(k, 80)),
        ]
    } else if t == 95 {
        set![(org, AlertKind::Threshold(k, 95)), (org, AlertKind::Threshold(k, 80))]
    } else {
        set![(org, AlertKind::Threshold(k, t))]
    }
}

/// One bucket's check: the new dedup set and the threshold fired, if any.
pub open spec fn bucket_step(
    fired: Set<(Seq<char>, AlertKind)>,
    org: Seq<char>,
    k: BucketKind,
    level: Option<u16>,
) -> (Set<(Seq<char>, AlertKind)>, Option<u8>) {
    match level {
        None => (fired, None),
        Some(l) => match highest_crossed(l) {
            None => (fired, None),
            Some(t) => if fired.contains((org, AlertKind::Threshold(k, t))) {
                (fired, None)
            } else {
                (fired.union(marked(org, k, t)), Some(t))
            },
        },
    }
}

/// The checks of `items` in order: the final dedup set and the (bucket, threshold)
/// pairs fired.
pub open spec fn threshold_run(
    fired: Set<(Seq<char>, AlertKind)>,
    org: Seq<char>,
    items: Seq<(BucketKind, Option<u16>)>,
) -> (Set<(Seq<char>, AlertKind)>, Seq<(BucketKind, u8)>)
    decreases items.len(),
{
    if items.len() == 0 {
        (fired, Seq::empty())
    } else {
        let prev = threshold_run(fired, org, items.drop_last());
        let step = bucket_step(prev.0, org, items.last().0, items.last().1);
        (
            step.0,
            match step.1 {
                Some(t) => prev.1.push((items.last().0, t)),
                None => prev.1,
            },
        )
    }
}

/// The banners for fired (bucket, threshold) pairs of an organization.
pub open spec fn threshold_banners(org_name: Seq<char>, fired: Seq<(BucketKind, u8)>) -> Seq<
    BannerView,
> {
    fired.map_values(|a: (BucketKind, u8)| BannerView { title: org_name, body: banner_body_spec(a.0, a.1) })
}

fn highest_threshold(level: u16) -> (r: Option<u8>)
    ensures
        r == highest_crossed(level),
{
    if level >= 10000 {
        Some(100)
    } else if level >= 9500 {
        Some(95)
    } else if level >= 8000 {
        Some(80)
    } else {
        None
    }
}

/// Fires the threshold banners an organization's buckets call for, and records
/// them in `fired`.
pub fn check_thresholds(
    fired: &mut FiredSet,
    org_id: &str,
    org_name: &str,
    levels: &UsageLevels,
) -> (banners: Vec<Banner>)
    ensures
        final(fired)@ == threshold_run(old(fired)@, org_id@, named_seq(*levels)).0,
        banners_view(banners@) == threshold_banners(
            org_name@,
            threshold_run(old(fired)@, org_id@, named_seq(*levels)).1,
        ),
{
    let items = named_buckets(levels);
    let mut banners: Vec<Banner> = Vec::new();
    let ghost start = fired@;
    let mut i: usize = 0;
    while i < items.len()
        invariant
            0 <= i <= items@.len(),
            items@ == named_seq(*levels),
            start == old(fired)@,
            fired@ == threshold_run(start, org_id@, items@.take(i as int)).0,
            banners_view(banners@) == threshold_banners(
                org_name@,
                threshold_run(start, org_id@, items@.take(i as int)).1,
            ),
        decreases items@.len() - i,
    {
        let (kind, level) = items[i];
        let ghost prev_items = items@.take(i as int);
        let ghost prev_run = threshold_run(start, org_id@, prev_items);
        let ghost prev_banners = banners@;
        assert(items@.take(i + 1).drop_last() =~= prev_items);
        assert(items@.take(i + 1).last() == (kind, level));
        if let Some(l) = level {
            if let Some(t) = highest_threshold(l) {
                if !fired.contains(org_id, AlertKind::Threshold(kind, t)) {
                    let ghost before = fired@;
                    fired.insert(org_id, AlertKind::Threshold(kind, t));
                    if t == 100 {
                        fired.insert(org_id, AlertKind::Threshold(kind, 95));
                        fired.insert(org_id, AlertKind::Threshold(kind, 80));
                    } else if t == 95 {
                        fired.insert(org_id, AlertKind::Threshold(kind, 80));
                    }
                    assert(fired@ =~= before.union(marked(org_id@, kind, t)));
                    let body = banner_body(kind, t);
                    let title = org_name.to_owned();
                    banners.push(Banner { title, body });
                    assert(banners_view(banners@) =~= banners_view(prev_banners).push(
                        BannerView { title: org_name@, body: banner_body_spec(kind, t) },
                    ));
                    assert(threshold_banners(org_name@, prev_run.1.push((kind, t))) =~= threshold_banners(
                        org_name@,
                        prev_run.1,
                    ).push(BannerView { title: org_name@, body: banner_body_spec(kind, t) }));
                }
            }
        }
        i = i + 1;
    }
    assert(items@.take(items@.len() as int) =~= items@);
    banners
}

// ---------------------------------------------------------------------------
// Subscription status
// ---------------------------------------------------------------------------

/// One subscription status check: the new dedup set and whether a banner fires.
/// A past-due status fires once; any other status clears the record so that the
/// next past-due status fires again.
pub open spec fn past_due_step(
    fired: Set<(Seq<char>, AlertKind)>,
    org: Seq<char>,
    status: Option<Seq<char>>,
) -> (Set<(Seq<char>, AlertKind)>, bool) {
    let key = (org, AlertKind::PastDue);
    let past_due = status == Some("past_due"@);
    if past_due && !fired.contains(key) {
        (fired.insert(key), true)
    } else if !past_due && fired.contains(key) {
        (fired.remove(key), false)
    } else {
        (fired, false)
    }
}

/// The past-due banner text.
pub open spec fn past_due_body() -> Seq<char> {
    "Subscription past due. Update payment to keep service running."@
}

/// Fires the past-due banner when a subscription has become past due, and
/// re-arms it when the subscription has recovered.
pub fn check_subscription_status(
    fired: &mut FiredSet,
    org_id: &str,
    org_name: &str,
    status: &Option<String>,
) -> (banner: Option<Banner>)
    ensures
        final(fired)@ == past_due_step(old(fired)@, org_id@, status.deep_view()).0,
        match banner {
            Some(b) => past_due_step(old(fired)@, org_id@, status.deep_view()).1 && b@ == BannerView {
                title: org_name@,
                body: past_due_body(),
            },
            None => !past_due_step(old(fired)@, org_id@, status.deep_view()).1,
        },
{
    let past_due = match status {
        Some(s) => text_eq(s.as_str(), "past_due"),
        None => false,
    };
    let already = fired.contains(org_id, AlertKind::PastDue);
    if past_due && !already {
        fired.insert(org_id, AlertKind::PastDue);
        Some(
            Banner {
                title: org_name.to_owned(),
                body: "Subscription past due. Update payment to keep service running.".to_owned(),
            },
        )
    } else if !past_due && already {
        fired.remove(org_id, AlertKind::PastDue);
        None
    } else {
        None
    }
}


// ---------------------------------------------------------------------------
// Laws
// ---------------------------------------------------------------------------

/// The key the highest threshold crossed by an item's level would be recorded under.
pub open spec fn item_key(org: Seq<char>, item: (BucketKind, Option<u16>)) -> Option<
    (Seq<char>, AlertKind),
> {
    match item.1 {
        Some(l) => match highest_crossed(l) {
            Some(t) => Some((org, AlertKind::Threshold(item.0, t))),
            None => None,
        },
        None => None,
    }
}

/// Every item's highest-threshold key is in `fired`.
pub open spec fn covers(
    fired: Set<(Seq<char>, AlertKind)>,
    org: Seq<char>,
    items: Seq<(BucketKind, Option<u16>)>,
) -> bool {
    forall|i: int|
        0 <= i < items.len() ==> match #[trigger] item_key(org, items[i]) {
            Some(k) => fired.contains(k),
            None => true,
        }
}

/// A check only ever adds to the dedup set, and afterwards the set holds the
/// highest crossed threshold of every bucket checked.
pub proof fn law_threshold_check_records(
    fired: Set<(Seq<char>, AlertKind)>,
    org: Seq<char>,
    items: Seq<(BucketKind, Option<u16>)>,
)
    ensures
        fired.subset_of(threshold_run(fired, org, items).0),
        covers(threshold_run(fired, org, items).0, org, items),
    decreases items.len(),
{
    if items.len() > 0 {
        let rest = items.drop_last();
        law_threshold_check_records(fired, org, rest);
        let prev = threshold_run(fired, org, rest);
        let last = items.last();
        let step = bucket_step(prev.0, org, last.0, last.1);
        assert(prev.0.subset_of(step.0));
        assert forall|i: int| 0 <= i < items.len() implies match #[trigger] item_key(org, items[i]) {
            Some(k) => step.0.contains(k),
            None => true,
        } by {
            if i < items.len() - 1 {
                assert(items[i] == rest[i]);
                assert(match item_key(org, rest[i]) {
                    Some(k) => prev.0.contains(k),
                    None => true,
                });
            }
        }
    }
}

/// When the dedup set already covers every bucket, a check fires nothing and
/// changes nothing.
pub proof fn lemma_covered_run_is_quiet(
    fired: Set<(Seq<char>, AlertKind)>,
    org: Seq<char>,
    items: Seq<(BucketKind, Option<u16>)>,
)
    requires
        covers(fired, org, items),
    ensures
        threshold_run(fired, org, items) == (fired, Seq::<(BucketKind, u8)>::empty()),
    decreases items.len(),
{
    if items.len() > 0 {
        let rest = items.drop_last();
        assert forall|i: int| 0 <= i < rest.len() implies match #[trigger] item_key(org, rest[i]) {
            Some(k) => fired.contains(k),
            None => true,
        } by {
            assert(rest[i] == items[i]);
            assert(match item_key(org, items[i]) {
                Some(k) => fired.contains(k),
                None => true,
            });
        }
        lemma_covered_run_is_quiet(fired, org, rest);
        assert(match item_key(org, items[items.len() - 1]) {
            Some(k) => fired.contains(k),
            None => true,
        });
    }
}

/// Checking the same levels a second time fires no banner and leaves the dedup
/// set as the first check left it: each (organization, bucket, threshold)
/// banner fires at most once.
pub proof fn law_recheck_fires_nothing(
    fired: Set<(Seq<char>, AlertKind)>,
    org: Seq<char>,
    levels: UsageLevels,
)
    ensures
        ({
            let first = threshold_run(fired, org, named_seq(levels));
            threshold_run(first.0, org, named_seq(levels)) == (
                first.0,
                Seq::<(BucketKind, u8)>::empty(),
            )
        }),
{
    law_threshold_check_records(fired, org, named_seq(levels));
    lemma_covered_run_is_quiet(threshold_run(fired, org, named_seq(levels)).0, org, named_seq(levels));
}

/// Each banner of a check is for one of the buckets checked, at the highest
/// threshold that bucket has crossed, and comes before the banners of later buckets.
pub open spec fn banners_match_items(
    out: Seq<(BucketKind, u8)>,
    items: Seq<(BucketKind, Option<u16>)>,
) -> bool {
    exists|pos: Seq<int>|
        #![trigger pos.len()]
        pos.len() == out.len() && (forall|j: int|
            0 <= j < out.len() ==> 0 <= #[trigger] pos[j] < items.len() && items[pos[j]].0
                == out[j].0 && (items[pos[j]].1 matches Some(l) && highest_crossed(l) == Some(
                out[j].1,
            ))) && (forall|a: int, b: int| 0 <= a < b < out.len() ==> #[trigger] pos[a] < #[trigger] pos[b])
}

/// Every banner of a check is for a distinct bucket of the check, in order, at
/// that bucket's highest crossed threshold: at most one banner per bucket per check.
pub proof fn law_one_banner_per_bucket(
    fired: Set<(Seq<char>, AlertKind)>,
    org: Seq<char>,
    items: Seq<(BucketKind, Option<u16>)>,
)
    ensures
        banners_match_items(threshold_run(fired, org, items).1, items),
        threshold_run(fired, org, items).1.len() <= items.len(),
    decreases items.len(),
{
    let out = threshold_run(fired, org, items).1;
    if items.len() == 0 {
        let pos: Seq<int> = Seq::empty();
        assert(pos.len() == out.len());
    } else {
        let rest = items.drop_last();
        law_one_banner_per_bucket(fired, org, rest);
        let prev = threshold_run(fired, org, rest);
        let pos0 = choose|pos: Seq<int>|
            #![trigger pos.len()]
            pos.len() == prev.1.len() && (forall|j: int|
                0 <= j < prev.1.len() ==> 0 <= #[trigger] pos[j] < rest.len() && rest[pos[j]].0
                    == prev.1[j].0 && (rest[pos[j]].1 matches Some(l) && highest_crossed(l) == Some(
                    prev.1[j].1,
                ))) && (forall|a: int, b: int|
                0 <= a < b < prev.1.len() ==> #[trigger] pos[a] < #[trigger] pos[b]);
        let step = bucket_step(prev.0, org, items.last().0, items.last().1);
        if step.1 is Some {
            let pos = pos0.push(items.len() - 1);
            assert(out == prev.1.push((items.last().0, step.1->0)));
            assert forall|j: int| 0 <= j < out.len() implies 0 <= #[trigger] pos[j] < items.len()
                && items[pos[j]].0 == out[j].0 && (items[pos[j]].1 matches Some(l)
                && highest_crossed(l) == Some(out[j].1)) by {
                if j < prev.1.len() {
                    assert(pos[j] == pos0[j]);
                    assert(items[pos0[j]] == rest[pos0[j]]);
                    assert(out[j] == prev.1[j]);
                }
            }
            assert forall|a: int, b: int| 0 <= a < b < out.len() implies #[trigger] pos[a]
                < #[trigger] pos[b] by {
                if b < prev.1.len() {
                    assert(pos[a] == pos0[a]);
                    assert(pos[b] == pos0[b]);
                } else {
                    assert(pos[a] == pos0[a]);
                }
            }
            assert(pos.len() == out.len());
        } else {
            assert forall|j: int| 0 <= j < out.len() implies 0 <= #[trigger] pos0[j] < items.len()
                && items[pos0[j]].0 == out[j].0 && (items[pos0[j]].1 matches Some(l)
                && highest_crossed(l) == Some(out[j].1)) by {
                assert(items[pos0[j]] == rest[pos0[j]]);
            }
            assert(pos0.len() == out.len());
        }
    }
}

/// A bucket that has already fired threshold `t` (which also records every lower
/// threshold) does not fire again at `t` or below, whatever its level in between.
pub proof fn law_no_refire_at_or_below(
    fired: Set<(Seq<char>, AlertKind)>,
    org: Seq<char>,
    k: BucketKind,
    t: u8,
    level: u16,
)
    requires
        t == 80 || t == 95 || t == 100,
        marked(org, k, t).subset_of(fired),
        highest_crossed(level) matches Some(t2) && t2 <= t,
    ensures
        bucket_step(fired, org, k, Some(level)) == (fired, None::<u8>),
{
    let t2 = highest_crossed(level)->0;
    assert(marked(org, k, t).contains((org, AlertKind::Threshold(k, t2))));
}

/// A bucket already full when first checked fires one banner, at 100%, not one
/// per threshold.
pub proof fn law_full_bucket_fires_once(org: Seq<char>, k: BucketKind, level: u16)
    requires
        level >= 10000,
    ensures
        threshold_run(Set::empty(), org, seq![(k, Some(level))]).1 == seq![(k, 100u8)],
{
    let items = seq![(k, Some(level))];
    assert(items.drop_last() =~= Seq::<(BucketKind, Option<u16>)>::empty());
    assert(threshold_run(Set::empty(), org, items.drop_last()).1 =~= Seq::<(BucketKind, u8)>::empty());
}

/// Every bucket is checked at its own level. Each banner a check fires is for a
/// bucket whose own level has crossed exactly that banner's threshold as its
/// highest, and after the check every bucket whose own level crossed a
/// threshold has its highest crossed threshold recorded for the organization.
pub proof fn law_buckets_checked_at_own_level(
    fired: Set<(Seq<char>, AlertKind)>,
    org: Seq<char>,
    u: UsageLevels,
)
    ensures
        ({
            let run = threshold_run(fired, org, named_seq(u));
            &&& forall|j: int|
                0 <= j < run.1.len() ==> match (#[trigger] run.1[j]).0 {
                    BucketKind::Credits => u.credits matches Some(l) && highest_crossed(l) == Some(run.1[j].1),
                    BucketKind::VoiceCredits => u.voice_credits matches Some(l) && highest_crossed(l) == Some(run.1[j].1),
                    BucketKind::VoiceLiteCredits => u.voice_lite_credits matches Some(l) && highest_crossed(l) == Some(run.1[j].1),
                    BucketKind::CampaignCredits => u.campaign_credits matches Some(l) && highest_crossed(l) == Some(run.1[j].1),
                    BucketKind::Chatbots => u.chatbot matches Some(l) && highest_crossed(l) == Some(run.1[j].1),
                    BucketKind::TeamMembers => u.members matches Some(l) && highest_crossed(l) == Some(run.1[j].1),
                    BucketKind::Documents => u.document matches Some(l) && highest_crossed(l) == Some(run.1[j].1),
                    BucketKind::Webpages => u.webpages matches Some(l) && highest_crossed(l) == Some(run.1[j].1),
                }
            &&& u.credits matches Some(l) ==> (highest_crossed(l) matches Some(t) ==> run.0.contains((org, AlertKind::Threshold(BucketKind::Credits, t))))
            &&& u.voice_credits matches Some(l) ==> (highest_crossed(l) matches Some(t) ==> run.0.contains((org, AlertKind::Threshold(BucketKind::VoiceCredits, t))))
            &&& u.voice_lite_credits matches Some(l) ==> (highest_crossed(l) matches Some(t) ==> run.0.contains((org, AlertKind::Threshold(BucketKind::VoiceLiteCredits, t))))
            &&& u.campaign_credits matches Some(l) ==> (highest_crossed(l) matches Some(t) ==> run.0.contains((org, AlertKind::Threshold(BucketKind::CampaignCredits, t))))
            &&& u.chatbot matches Some(l) ==> (highest_crossed(l) matches Some(t) ==> run.0.contains((org, AlertKind::Threshold(BucketKind::Chatbots, t))))
            &&& u.members matches Some(l) ==> (highest_crossed(l) matches Some(t) ==> run.0.contains((org, AlertKind::Threshold(BucketKind::TeamMembers, t))))
            &&& u.document matches Some(l) ==> (highest_crossed(l) matches Some(t) ==> run.0.contains((org, AlertKind::Threshold(BucketKind::Documents, t))))
            &&& u.webpages matches Some(l) ==> (highest_crossed(l) matches Some(t) ==> run.0.contains((org, AlertKind::Threshold(BucketKind::Webpages, t))))
        }),
{
    let items = named_seq(u);
    let run = threshold_run(fired, org, items);
    assert(items[0] == (BucketKind::Credits, u.credits));
    assert(items[1] == (BucketKind::VoiceCredits, u.voice_credits));
    assert(items[2] == (BucketKind::VoiceLiteCredits, u.voice_lite_credits));
    assert(items[3] == (BucketKind::CampaignCredits, u.campaign_credits));
    assert(items[4] == (BucketKind::Chatbots, u.chatbot));
    assert(items[5] == (BucketKind::TeamMembers, u.members));
    assert(items[6] == (BucketKind::Documents, u.document));
    assert(items[7] == (BucketKind::Webpages, u.webpages));
    law_one_banner_per_bucket(fired, org, items);
    law_threshold_check_records(fired, org, items);
    let pos = choose|pos: Seq<int>|
        #![trigger pos.len()]
        pos.len() == run.1.len() && (forall|j: int|
            0 <= j < run.1.len() ==> 0 <= #[trigger] pos[j] < items.len() && items[pos[j]].0
                == run.1[j].0 && (items[pos[j]].1 matches Some(l) && highest_crossed(l) == Some(
                run.1[j].1,
            ))) && (forall|a: int, b: int| 0 <= a < b < run.1.len() ==> #[trigger] pos[a] < #[trigger] pos[b]);
    assert forall|j: int| 0 <= j < run.1.len() implies match (#[trigger] run.1[j]).0 {
                    BucketKind::Credits => u.credits matches Some(l) && highest_crossed(l) == Some(run.1[j].1),
                    BucketKind::VoiceCredits => u.voice_credits matches Some(l) && highest_crossed(l) == Some(run.1[j].1),
                    BucketKind::VoiceLiteCredits => u.voice_lite_credits matches Some(l) && highest_crossed(l) == Some(run.1[j].1),
                    BucketKind::CampaignCredits => u.campaign_credits matches Some(l) && highest_crossed(l) == Some(run.1[j].1),
                    BucketKind::Chatbots => u.chatbot matches Some(l) && highest_crossed(l) == Some(run.1[j].1),
                    BucketKind::TeamMembers => u.members matches Some(l) && highest_crossed(l) == Some(run.1[j].1),
                    BucketKind::Documents => u.document matches Some(l) && highest_crossed(l) == Some(run.1[j].1),
                    BucketKind::Webpages => u.webpages matches Some(l) && highest_crossed(l) == Some(run.1[j].1),
    } by {
        let p = pos[j];
        assert(0 <= p < 8);
        assert(items[p].0 == run.1[j].0);
    }
    assert(match item_key(org, items[0]) { Some(key) => run.0.contains(key), None => true });
    assert(match item_key(org, items[1]) { Some(key) => run.0.contains(key), None => true });
    assert(match item_key(org, items[2]) { Some(key) => run.0.contains(key), None => true });
    assert(match item_key(org, items[3]) { Some(key) => run.0.contains(key), None => true });
    assert(match item_key(org, items[4]) { Some(key) => run.0.contains(key), None => true });
    assert(match item_key(org, items[5]) { Some(key) => run.0.contains(key), None => true });
    assert(match item_key(org, items[6]) { Some(key) => run.0.contains(key), None => true });
    assert(match item_key(org, items[7]) { Some(key) => run.0.contains(key), None => true });
}

/// A record a check added for bucket `k` names a bucket that was checked.
proof fn lemma_run_adds_checked_kinds(
    fired: Set<(Seq<char>, AlertKind)>,
    org: Seq<char>,
    items: Seq<(BucketKind, Option<u16>)>,
    k: BucketKind,
    a: u8,
)
    requires
        threshold_run(fired, org, items).0.contains((org, AlertKind::Threshold(k, a))),
        !fired.contains((org, AlertKind::Threshold(k, a))),
    ensures
        exists|j: int| 0 <= j < items.len() && (#[trigger] items[j]).0 == k,
    decreases items.len(),
{
    let rest = items.drop_last();
    let prev = threshold_run(fired, org, rest);
    if prev.0.contains((org, AlertKind::Threshold(k, a))) {
        lemma_run_adds_checked_kinds(fired, org, rest, k, a);
        let j = choose|j: int| 0 <= j < rest.len() && (#[trigger] rest[j]).0 == k;
        assert(items[j] == rest[j]);
    } else {
        assert(items[items.len() - 1].0 == k);
    }
}

/// A bucket checked once, with no record yet for it, fires its highest crossed
/// threshold.
proof fn lemma_run_fires_fresh(
    fired: Set<(Seq<char>, AlertKind)>,
    org: Seq<char>,
    items: Seq<(BucketKind, Option<u16>)>,
    i: int,
)
    requires
        0 <= i < items.len(),
        items[i].1 matches Some(l) && highest_crossed(l) is Some,
        forall|a: u8| !fired.contains((org, AlertKind::Threshold(items[i].0, a))),
        forall|j: int| 0 <= j < items.len() && j != i ==> (#[trigger] items[j]).0 != items[i].0,
    ensures
        threshold_run(fired, org, items).1.contains(
            (items[i].0, highest_crossed(items[i].1->0)->0),
        ),
    decreases items.len(),
{
    let rest = items.drop_last();
    let prev = threshold_run(fired, org, rest);
    let out = threshold_run(fired, org, items).1;
    let k = items[i].0;
    let t = highest_crossed(items[i].1->0)->0;
    if i == items.len() - 1 {
        if prev.0.contains((org, AlertKind::Threshold(k, t))) {
            lemma_run_adds_checked_kinds(fired, org, rest, k, t);
            let j = choose|j: int| 0 <= j < rest.len() && (#[trigger] rest[j]).0 == k;
            assert(items[j] == rest[j]);
        }
        assert(out == prev.1.push((k, t)));
        assert(out[out.len() - 1] == (k, t));
    } else {
        assert(rest[i] == items[i]);
        assert forall|j: int| 0 <= j < rest.len() && j != i implies (#[trigger] rest[j]).0 != rest[i].0 by {
            assert(rest[j] == items[j]);
        }
        lemma_run_fires_fresh(fired, org, rest, i);
        let x = choose|x: int| 0 <= x < prev.1.len() && prev.1[x] == (k, t);
        if out != prev.1 {
            assert(out[x] == prev.1[x]);
        }
    }
}

/// On a first check, with nothing recorded yet, every bucket whose own level
/// has crossed a threshold fires a banner at its highest crossed threshold.
pub proof fn law_first_check_fires_every_crossed_bucket(org: Seq<char>, u: UsageLevels)
    ensures
        ({
            let out = threshold_run(Set::empty(), org, named_seq(u)).1;
            &&& u.credits matches Some(l) ==> (highest_crossed(l) matches Some(t) ==> out.contains((BucketKind::Credits, t)))
            &&& u.voice_credits matches Some(l) ==> (highest_crossed(l) matches Some(t) ==> out.contains((BucketKind::VoiceCredits, t)))
            &&& u.voice_lite_credits matches Some(l) ==> (highest_crossed(l) matches Some(t) ==> out.contains((BucketKind::VoiceLiteCredits, t)))
            &&& u.campaign_credits matches Some(l) ==> (highest_crossed(l) matches Some(t) ==> out.contains((BucketKind::CampaignCredits, t)))
            &&& u.chatbot matches Some(l) ==> (highest_crossed(l) matches Some(t) ==> out.contains((BucketKind::Chatbots, t)))
            &&& u.members matches Some(l) ==> (highest_crossed(l) matches Some(t) ==> out.contains((BucketKind::TeamMembers, t)))
            &&& u.document matches Some(l) ==> (highest_crossed(l) matches Some(t) ==> out.contains((BucketKind::Documents, t)))
            &&& u.webpages matches Some(l) ==> (highest_crossed(l) matches Some(t) ==> out.contains((BucketKind::Webpages, t)))
        }),
{
    let items = named_seq(u);
    assert(items[0] == (BucketKind::Credits, u.credits));
    assert(items[1] == (BucketKind::VoiceCredits, u.voice_credits));
    assert(items[2] == (BucketKind::VoiceLiteCredits, u.voice_lite_credits));
    assert(items[3] == (BucketKind::CampaignCredits, u.campaign_credits));
    assert(items[4] == (BucketKind::Chatbots, u.chatbot));
    assert(items[5] == (BucketKind::TeamMembers, u.members));
    assert(items[6] == (BucketKind::Documents, u.document));
    assert(items[7] == (BucketKind::Webpages, u.webpages));
    assert forall|a: int, b: int| 0 <= a < 8 && 0 <= b < 8 && a != b implies (#[trigger] items[a]).0 != (#[trigger] items[b]).0 by {}
    if let Some(l) = u.credits { if highest_crossed(l) is Some { lemma_run_fires_fresh(Set::empty(), org, items, 0); } }
    if let Some(l) = u.voice_credits { if highest_crossed(l) is Some { lemma_run_fires_fresh(Set::empty(), org, items, 1); } }
    if let Some(l) = u.voice_lite_credits { if highest_crossed(l) is Some { lemma_run_fires_fresh(Set::empty(), org, items, 2); } }
    if let Some(l) = u.campaign_credits { if highest_crossed(l) is Some { lemma_run_fires_fresh(Set::empty(), org, items, 3); } }
    if let Some(l) = u.chatbot { if highest_crossed(l) is Some { lemma_run_fires_fresh(Set::empty(), org, items, 4); } }
    if let Some(l) = u.members { if highest_crossed(l) is Some { lemma_run_fires_fresh(Set::empty(), org, items, 5); } }
    if let Some(l) = u.document { if highest_crossed(l) is Some { lemma_run_fires_fresh(Set::empty(), org, items, 6); } }
    if let Some(l) = u.webpages { if highest_crossed(l) is Some { lemma_run_fires_fresh(Set::empty(), org, items, 7); } }
}

/// The thresholds are 80%, 95% and 100% of the limit: a level fires 100 from
/// 100%, 95 from 95%, 80 from 80%, and nothing below 80%.
pub proof fn law_thresholds_are_80_95_100(level: u16)
    ensures
        (highest_crossed(level) == Some(100u8)) == (level >= 10000),
        (highest_crossed(level) == Some(95u8)) == (9500 <= level && level < 10000),
        (highest_crossed(level) == Some(80u8)) == (8000 <= level && level < 9500),
        (highest_crossed(level) is None) == (level < 8000),
{
}

/// `f` and `g` hold the same records for organization `org`.
pub open spec fn same_for_org(
    f: Set<(Seq<char>, AlertKind)>,
    g: Set<(Seq<char>, AlertKind)>,
    org: Seq<char>,
) -> bool {
    forall|a: AlertKind| #[trigger] f.contains((org, a)) == g.contains((org, a))
}

/// Organizations are deduplicated independently: what an organization's check
/// fires depends only on that organization's records.
pub proof fn law_orgs_independent(
    f: Set<(Seq<char>, AlertKind)>,
    g: Set<(Seq<char>, AlertKind)>,
    org: Seq<char>,
    items: Seq<(BucketKind, Option<u16>)>,
)
    requires
        same_for_org(f, g, org),
    ensures
        threshold_run(f, org, items).1 == threshold_run(g, org, items).1,
        same_for_org(threshold_run(f, org, items).0, threshold_run(g, org, items).0, org),
    decreases items.len(),
{
    if items.len() > 0 {
        let rest = items.drop_last();
        law_orgs_independent(f, g, org, rest);
        let pf = threshold_run(f, org, rest);
        let pg = threshold_run(g, org, rest);
        let last = items.last();
        let sf = bucket_step(pf.0, org, last.0, last.1);
        let sg = bucket_step(pg.0, org, last.0, last.1);
        match last.1 {
            Some(l) => match highest_crossed(l) {
                Some(t) => {
                    assert(pf.0.contains((org, AlertKind::Threshold(last.0, t))) == pg.0.contains(
                        (org, AlertKind::Threshold(last.0, t)),
                    ));
                },
                None => {},
            },
            None => {},
        }
        assert forall|a: AlertKind| #[trigger] sf.0.contains((org, a)) == sg.0.contains((org, a)) by {
            assert(pf.0.contains((org, a)) == pg.0.contains((org, a)));
        }
    }
}

/// A past-due subscription fires its banner once: the next check while it is
/// still past due fires nothing.
pub proof fn law_past_due_fires_once(fired: Set<(Seq<char>, AlertKind)>, org: Seq<char>)
    ensures
        !past_due_step(past_due_step(fired, org, Some("past_due"@)).0, org, Some("past_due"@)).1,
{
}

/// Once a past-due subscription has recovered, the next time it is past due
/// fires the banner again.
pub proof fn law_past_due_rearms_after_recovery(
    fired: Set<(Seq<char>, AlertKind)>,
    org: Seq<char>,
    other: Option<Seq<char>>,
)
    requires
        other != Some("past_due"@),
    ensures
        ({
            let s1 = past_due_step(fired, org, Some("past_due"@));
            let s2 = past_due_step(s1.0, org, other);
            past_due_step(s2.0, org, Some("past_due"@)).1
        }),
{
}

/// Past-due records and threshold records never affect each other: a status
/// check changes no threshold record.
pub proof fn law_past_due_leaves_thresholds(
    fired: Set<(Seq<char>, AlertKind)>,
    org: Seq<char>,
    status: Option<Seq<char>>,
    o: Seq<char>,
    k: BucketKind,
    t: u8,
)
    ensures
        past_due_step(fired, org, status).0.contains((o, AlertKind::Threshold(k, t)))
            == fired.contains((o, AlertKind::Threshold(k, t))),
{
}


/// One of the thresholds banners fire at: 80, 95 or 100 percent.
pub open spec fn is_threshold(t: u8) -> bool {
    t == 80 || t == 95 || t == 100
}

/// A level has reached threshold `t`.
pub open spec fn crossed(level: u16, t: u8) -> bool {
    is_threshold(t) && level as int >= t as int * 100
}

/// Every recorded threshold of a bucket comes with every lower threshold.
pub open spec fn downward_closed(fired: Set<(Seq<char>, AlertKind)>) -> bool {
    forall|o: Seq<char>, k: BucketKind, t: u8, t2: u8|
        #![trigger fired.contains((o, AlertKind::Threshold(k, t))), fired.contains((o, AlertKind::Threshold(k, t2)))]
        fired.contains((o, AlertKind::Threshold(k, t))) && is_threshold(t2) && t2 < t
            ==> fired.contains((o, AlertKind::Threshold(k, t2)))
}

/// Some item of `items` is bucket `k` at a level that has reached `t`.
pub open spec fn crossed_in(items: Seq<(BucketKind, Option<u16>)>, k: BucketKind, t: u8) -> bool {
    exists|i: int|
        0 <= i < items.len() && (#[trigger] items[i]).0 == k && (items[i].1 matches Some(l) && crossed(l, t))
}

/// What a check over `items` may add to `fired`, and must hold afterwards.
pub open spec fn closure_outcome(
    fired: Set<(Seq<char>, AlertKind)>,
    org: Seq<char>,
    items: Seq<(BucketKind, Option<u16>)>,
    r: Set<(Seq<char>, AlertKind)>,
) -> bool {
    &&& fired.subset_of(r)
    &&& downward_closed(r)
    &&& forall|key: (Seq<char>, AlertKind)|
        #[trigger] r.contains(key) && !fired.contains(key) ==> key.0 == org && (key.1 matches AlertKind::Threshold(k, t)
            && crossed_in(items, k, t))
    &&& forall|i: int, t: u8|
        0 <= i < items.len() && (items[i].1 matches Some(l) && crossed(l, t)) ==> #[trigger] r.contains(
            (org, AlertKind::Threshold(items[i].0, t)),
        )
    &&& forall|key: (Seq<char>, AlertKind)| key.0 != org ==> (#[trigger] r.contains(key) == fired.contains(key))
}

proof fn lemma_step_closure(
    fired: Set<(Seq<char>, AlertKind)>,
    org: Seq<char>,
    k: BucketKind,
    level: Option<u16>,
)
    requires
        downward_closed(fired),
    ensures
        closure_outcome(fired, org, seq![(k, level)], bucket_step(fired, org, k, level).0),
{
    let items = seq![(k, level)];
    let r = bucket_step(fired, org, k, level).0;
    assert(items[0] == (k, level));
    match level {
        Some(l) => match highest_crossed(l) {
            Some(th) => {
                if !fired.contains((org, AlertKind::Threshold(k, th))) {
                    let m = marked(org, k, th);
                    assert(r == fired.union(m));
                    assert forall|o: Seq<char>, k2: BucketKind, t: u8, t2: u8|
                        #![trigger r.contains((o, AlertKind::Threshold(k2, t))), r.contains((o, AlertKind::Threshold(k2, t2)))]
                        r.contains((o, AlertKind::Threshold(k2, t))) && is_threshold(t2) && t2 < t
                            implies r.contains((o, AlertKind::Threshold(k2, t2))) by {
                        if !fired.contains((o, AlertKind::Threshold(k2, t))) {
                            assert(m.contains((o, AlertKind::Threshold(k2, t))));
                            assert(m.contains((o, AlertKind::Threshold(k2, t2))));
                        }
                    }
                    assert forall|key: (Seq<char>, AlertKind)|
                        #[trigger] r.contains(key) && !fired.contains(key) implies key.0 == org && (key.1 matches AlertKind::Threshold(k3, t)
                            && crossed_in(items, k3, t)) by {
                        assert(m.contains(key));
                    }
                }
            },
            None => {},
        },
        None => {},
    }
}

/// Extending `items` by one bucket keeps what a check over the shorter list may
/// add within what the longer list allows.
proof fn lemma_crossed_in_prefix(items: Seq<(BucketKind, Option<u16>)>, k: BucketKind, t: u8)
    requires
        items.len() > 0,
        crossed_in(items.drop_last(), k, t) || crossed_in(seq![items.last()], k, t),
    ensures
        crossed_in(items, k, t),
{
    if crossed_in(items.drop_last(), k, t) {
        let i = choose|i: int|
            0 <= i < items.drop_last().len() && (#[trigger] items.drop_last()[i]).0 == k && (
            items.drop_last()[i].1 matches Some(l) && crossed(l, t));
        assert(items[i] == items.drop_last()[i]);
    } else {
        assert(seq![items.last()][0] == items[items.len() - 1]);
    }
}

/// A check keeps the dedup set closed downward: it removes nothing, adds only
/// thresholds of this organization that a checked bucket has reached, records
/// every threshold each checked bucket has reached, and leaves other
/// organizations' records as they were. So a bucket is never alerted for a
/// threshold below one it already fired.
pub proof fn law_threshold_check_closure(
    fired: Set<(Seq<char>, AlertKind)>,
    org: Seq<char>,
    items: Seq<(BucketKind, Option<u16>)>,
)
    requires
        downward_closed(fired),
    ensures
        closure_outcome(fired, org, items, threshold_run(fired, org, items).0),
    decreases items.len(),
{
    let r = threshold_run(fired, org, items).0;
    if items.len() == 0 {
        assert(r == fired);
    } else {
        let rest = items.drop_last();
        let last = items.last();
        law_threshold_check_closure(fired, org, rest);
        let p = threshold_run(fired, org, rest).0;
        lemma_step_closure(p, org, last.0, last.1);
        assert(r == bucket_step(p, org, last.0, last.1).0);
        let one = seq![(last.0, last.1)];
        assert forall|key: (Seq<char>, AlertKind)|
            #[trigger] r.contains(key) && !fired.contains(key) implies key.0 == org && (key.1 matches AlertKind::Threshold(k, t)
                && crossed_in(items, k, t)) by {
            if p.contains(key) {
                assert(key.1 matches AlertKind::Threshold(k, t) && crossed_in(rest, k, t));
                match key.1 {
                    AlertKind::Threshold(k, t) => {
                        lemma_crossed_in_prefix(items, k, t);
                    },
                    _ => {},
                }
            } else {
                assert(key.1 matches AlertKind::Threshold(k, t) && crossed_in(one, k, t));
                assert(one =~= seq![items.last()]);
                match key.1 {
                    AlertKind::Threshold(k, t) => {
                        lemma_crossed_in_prefix(items, k, t);
                    },
                    _ => {},
                }
            }
        }
        assert forall|i: int, t: u8|
            0 <= i < items.len() && (items[i].1 matches Some(l) && crossed(l, t)) implies #[trigger] r.contains(
                (org, AlertKind::Threshold(items[i].0, t)),
            ) by {
            if i < rest.len() {
                assert(items[i] == rest[i]);
                assert(p.contains((org, AlertKind::Threshold(rest[i].0, t))));
            } else {
                assert(one[0] == items[i]);
                assert(r.contains((org, AlertKind::Threshold(one[0].0, t))));
            }
        }
    }
}


/// A fresh dedup set is closed downward, and status checks keep it so: the
/// closure holds over a whole session of checks.
pub proof fn law_closure_holds_across_checks(
    fired: Set<(Seq<char>, AlertKind)>,
    org: Seq<char>,
    status: Option<Seq<char>>,
)
    ensures
        downward_closed(Set::<(Seq<char>, AlertKind)>::empty()),
        downward_closed(fired) ==> downward_closed(past_due_step(fired, org, status).0),
{
    let r = past_due_step(fired, org, status).0;
    if downward_closed(fired) {
        assert forall|o: Seq<char>, k: BucketKind, t: u8, t2: u8|
            #![trigger r.contains((o, AlertKind::Threshold(k, t))), r.contains((o, AlertKind::Threshold(k, t2)))]
            r.contains((o, AlertKind::Threshold(k, t))) && is_threshold(t2) && t2 < t
                implies r.contains((o, AlertKind::Threshold(k, t2))) by {
            assert(fired.contains((o, AlertKind::Threshold(k, t))));
            assert(fired.contains((o, AlertKind::Threshold(k, t2))));
        }
    }
}

} // verus!
