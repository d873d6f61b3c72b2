//! Mirroring the server's billing notifications as native banners: only billing,
//! credit and plan notifications, only unread ones, each announced at most once.
use vstd::prelude::*;
use vstd::string::StringSliceAdditionalSpecFns;
use vstd::utf8::{decode_utf8, encode_utf8, is_char_boundary};

use crate::alerts::{Banner, BannerView};
use crate::json::text_eq;

verus! {

broadcast use vstd::std_specs::hash::group_hash_axioms;

/// A notification of the server's feed, as far as the banners need it.
pub struct Notification {
    pub id: i64,
    pub title: Option<String>,
    pub body: String,
    /// The notification's `type`, from its `notification_data`.
    pub kind: Option<String>,
    pub unread: bool,
}

/// The notification types that concern billing, credits and the plan.
pub open spec fn is_billing_kind(t: Seq<char>) -> bool {
    ||| t == "CREDIT_LIMIT_50_PERCENT_REACHED"@
    ||| t == "CREDIT_LIMIT_75_PERCENT_REACHED"@
    ||| t == "CREDIT_EXHAUSTED"@
    ||| t == "PAST_DUE_SUBSCRIPTION"@
    ||| t == "VOICE_CREDIT_LIMIT_75_PERCENT_REACHED"@
    ||| t == "VOICE_CREDIT_EXHAUSTED"@
}

/// Whether a notification type concerns billing, credits or the plan.
pub fn is_billing_type(t: &str) -> (r: bool)
    ensures
        r == is_billing_kind(t@),
{
    text_eq(t, "CREDIT_LIMIT_50_PERCENT_REACHED") || text_eq(t, "CREDIT_LIMIT_75_PERCENT_REACHED")
        || text_eq(t, "CREDIT_EXHAUSTED") || text_eq(t, "PAST_DUE_SUBSCRIPTION") || text_eq(
        t,
        "VOICE_CREDIT_LIMIT_75_PERCENT_REACHED",
    ) || text_eq(t, "VOICE_CREDIT_EXHAUSTED")
}

/// A notification to announce: a billing type, unread, and not announced before.
pub open spec fn is_new_billing(n: Notification, announced: Set<i64>) -> bool {
    &&& n.kind matches Some(k)
    &&& is_billing_kind(k@)
    &&& n.unread
    &&& !announced.contains(n.id)
}

/// The notifications of `list` to announce, in order.
pub open spec fn new_billing(list: Seq<Notification>, announced: Set<i64>) -> Seq<Notification>
    decreases list.len(),
{
    if list.len() == 0 {
        Seq::empty()
    } else {
        let rest = new_billing(list.drop_last(), announced);
        if is_new_billing(list.last(), announced) {
            rest.push(list.last())
        } else {
            rest
        }
    }
}

/// The byte length past which a banner body is cut.
pub const BODY_LIMIT: usize = 200;

/// A banner body: the text when its UTF-8 encoding is at most 200 bytes long,
/// else its first 200 bytes followed by an ellipsis.
pub open spec fn short_body(b: Seq<char>) -> Seq<char> {
    if encode_utf8(b).len() > BODY_LIMIT {
        decode_utf8(encode_utf8(b).subrange(0, BODY_LIMIT as int)) + seq!['\u{2026}']
    } else {
        b
    }
}

/// A body can be cut: it is short, or byte 200 starts a character (and its
/// length fits in memory).
pub open spec fn can_cut(b: Seq<char>) -> bool {
    &&& encode_utf8(b).len() <= usize::MAX
    &&& encode_utf8(b).len() <= BODY_LIMIT || is_char_boundary(encode_utf8(b), BODY_LIMIT as int)
}

/// The banner of a notification: its title, "YourGPT" when it has none, and its
/// body, cut to 200 bytes.
pub open spec fn notification_banner(n: Notification) -> BannerView {
    BannerView {
        title: match n.title {
            Some(t) => t@,
            None => "YourGPT"@,
        },
        body: short_body(n.body@),
    }
}

/// A banner body, cut to 200 bytes.
pub fn shorten_body(body: &str) -> (r: String)
    requires
        can_cut(body@),
    ensures
        r@ == short_body(body@),
{
    if body.len() > BODY_LIMIT {
        let (head, _) = body.split_at(BODY_LIMIT);
        proof {
            vstd::utf8::encode_utf8_decode_utf8(head@);
            reveal_strlit("\u{2026}");
        }
        let mut out = head.to_owned();
        assert(head.spec_bytes() == encode_utf8(body@).subrange(0, BODY_LIMIT as int));
        assert(head@ == decode_utf8(encode_utf8(body@).subrange(0, BODY_LIMIT as int)));
        out.append("\u{2026}");
        assert("\u{2026}"@ == seq!['\u{2026}']);
        assert(out@ =~= short_body(body@));
        out
    } else {
        body.to_owned()
    }
}

/// The banner of a notification.
pub fn banner_for(n: &Notification) -> (b: Banner)
    requires
        can_cut(n.body@),
    ensures
        b@ == notification_banner(*n),
{
    let title = match &n.title {
        Some(t) => t.clone(),
        None => "YourGPT".to_owned(),
    };
    Banner { title, body: shorten_body(n.body.as_str()) }
}

/// Whether a notification is to be announced.
pub fn is_new_billing_notification(n: &Notification, announced: &std::collections::HashSet<i64>) -> (r:
    bool)
    ensures
        r == is_new_billing(*n, announced@),
{
    let billing = match &n.kind {
        Some(k) => is_billing_type(k.as_str()),
        None => false,
    };
    billing && n.unread && !announced.contains(&n.id)
}

/// Announces the new billing notifications of a feed: a banner for each, in feed
/// order, and their ids recorded so that none is announced again.
pub fn announce_new(
    list: &Vec<Notification>,
    announced: &mut std::collections::HashSet<i64>,
) -> (banners: Vec<Banner>)
    requires
        forall|i: int|
            0 <= i < list@.len() && is_new_billing(#[trigger] list@[i], old(announced)@) ==> can_cut(
                list@[i].body@,
            ),
    ensures
        banners@.map_values(|b: Banner| b@) == new_billing(list@, old(announced)@).map_values(
            |n: Notification| notification_banner(n),
        ),
        final(announced)@ == old(announced)@.union(ids_of(new_billing(list@, old(announced)@))),
{
    let ghost start = announced@;
    let mut fresh: Vec<usize> = Vec::new();
    let mut i: usize = 0;
    while i < list.len()
        invariant
            0 <= i <= list@.len(),
            announced@ == start,
            fresh@.len() == new_billing(list@.take(i as int), start).len(),
            forall|j: int|
                0 <= j < fresh@.len() ==> #[trigger] fresh@[j] < i && list@[fresh@[j] as int]
                    == new_billing(list@.take(i as int), start)[j],
        decreases list@.len() - i,
    {
        assert(list@.take(i + 1).drop_last() =~= list@.take(i as int));
        assert(list@.take(i + 1).last() == list@[i as int]);
        if is_new_billing_notification(&list[i], announced) {
            fresh.push(i);
        }
        i = i + 1;
    }
    assert(list@.take(list@.len() as int) =~= list@);
    let ghost chosen = new_billing(list@, start);
    proof {
        lemma_new_billing_members(list@, start);
    }
    let mut banners: Vec<Banner> = Vec::new();
    let mut k: usize = 0;
    while k < fresh.len()
        invariant
            0 <= k <= fresh@.len(),
            fresh@.len() == chosen.len(),
            forall|j: int|
                0 <= j < fresh@.len() ==> #[trigger] fresh@[j] < list@.len() && list@[fresh@[j] as int]
                    == chosen[j],
            forall|j: int| 0 <= j < chosen.len() ==> is_new_billing(#[trigger] chosen[j], start),
            forall|i: int|
                0 <= i < list@.len() && is_new_billing(#[trigger] list@[i], start) ==> can_cut(
                    list@[i].body@,
                ),
            banners@.map_values(|b: Banner| b@) == chosen.take(k as int).map_values(
                |n: Notification| notification_banner(n),
            ),
            announced@ == start.union(chosen.take(k as int).map_values(|n: Notification| n.id).to_set()),
        decreases fresh@.len() - k,
    {
        let idx = fresh[k];
        let n = &list[idx];
        assert(is_new_billing(chosen[k as int], start));
        let ghost before_b = banners@;
        banners.push(banner_for(n));
        announced.insert(n.id);
        proof {
            let t0 = chosen.take(k as int);
            let t1 = chosen.take(k + 1);
            let c = chosen[k as int];
            assert(*n == c);
            assert(t1 =~= t0.push(c));
            assert(banners@ == before_b.push(banners@.last()));
            assert(banners@.last()@ == notification_banner(c));
            assert(banners@.map_values(|b: Banner| b@) =~= before_b.map_values(|b: Banner| b@).push(
                notification_banner(c),
            ));
            assert(t1.map_values(|n: Notification| notification_banner(n)) =~= t0.map_values(
                |n: Notification| notification_banner(n),
            ).push(notification_banner(c)));
            let ids0 = t0.map_values(|n: Notification| n.id);
            let ids1 = t1.map_values(|n: Notification| n.id);
            assert(ids1 =~= ids0.push(c.id));
            assert forall|a: i64| #[trigger] ids1.to_set().contains(a) == (ids0.to_set().contains(a) || a == c.id) by {
                if ids0.contains(a) {
                    let j = choose|j: int| 0 <= j < ids0.len() && ids0[j] == a;
                    assert(ids1[j] == a);
                }
                if a == c.id {
                    assert(ids1[k as int] == a);
                }
                if ids1.contains(a) {
                    let j = choose|j: int| 0 <= j < ids1.len() && ids1[j] == a;
                    if j < k {
                        assert(ids0[j] == a);
                    }
                }
            }
            assert(announced@ =~= start.union(ids1.to_set()));
        }
        k = k + 1;
    }
    assert(chosen.take(chosen.len() as int) =~= chosen);
    banners
}

/// Every notification chosen for announcing is a new billing notification.
pub proof fn lemma_new_billing_members(list: Seq<Notification>, announced: Set<i64>)
    ensures
        forall|j: int|
            0 <= j < new_billing(list, announced).len() ==> is_new_billing(
                #[trigger] new_billing(list, announced)[j],
                announced,
            ),
    decreases list.len(),
{
    if list.len() > 0 {
        let rest = list.drop_last();
        lemma_new_billing_members(rest, announced);
        let r = new_billing(rest, announced);
        let out = new_billing(list, announced);
        assert forall|j: int| 0 <= j < out.len() implies is_new_billing(#[trigger] out[j], announced) by {
            if j < r.len() {
                assert(out[j] == r[j]);
            }
        }
    }
}


/// Ids of notifications.
pub open spec fn ids_of(list: Seq<Notification>) -> Set<i64> {
    list.map_values(|n: Notification| n.id).to_set()
}

/// With more ids announced, nothing new is chosen that was not chosen before.
proof fn lemma_new_billing_shrinks(list: Seq<Notification>, a: Set<i64>, b: Set<i64>)
    requires
        a.subset_of(b),
    ensures
        forall|j: int|
            0 <= j < new_billing(list, b).len() ==> new_billing(list, a).contains(
                #[trigger] new_billing(list, b)[j],
            ),
    decreases list.len(),
{
    if list.len() > 0 {
        let rest = list.drop_last();
        lemma_new_billing_shrinks(rest, a, b);
        let ra = new_billing(rest, a);
        let rb = new_billing(rest, b);
        let oa = new_billing(list, a);
        let ob = new_billing(list, b);
        assert forall|j: int| 0 <= j < ob.len() implies oa.contains(#[trigger] ob[j]) by {
            if j < rb.len() {
                assert(ob[j] == rb[j]);
                assert(ra.contains(rb[j]));
                let i = choose|i: int| 0 <= i < ra.len() && ra[i] == rb[j];
                assert(oa[i] == ra[i]);
            } else {
                assert(ob[j] == list.last());
                assert(oa[oa.len() - 1] == list.last());
            }
        }
    }
}

/// Announcing a feed twice announces nothing the second time: each billing
/// notification is announced at most once.
pub proof fn law_announce_once(list: Seq<Notification>, announced: Set<i64>)
    ensures
        new_billing(list, announced.union(ids_of(new_billing(list, announced)))).len() == 0,
{
    let chosen = new_billing(list, announced);
    let after = announced.union(ids_of(chosen));
    lemma_new_billing_shrinks(list, announced, after);
    lemma_new_billing_members(list, after);
    let again = new_billing(list, after);
    if again.len() > 0 {
        assert(chosen.contains(again[0]));
        let i = choose|i: int| 0 <= i < chosen.len() && chosen[i] == again[0];
        let ids = chosen.map_values(|n: Notification| n.id);
        assert(ids[i] == again[0].id);
        assert(ids.contains(again[0].id));
        assert(is_new_billing(again[0], after));
    }
}

/// A new billing notification of `list` is chosen for announcing.
proof fn lemma_new_billing_keeps(list: Seq<Notification>, announced: Set<i64>, i: int)
    requires
        0 <= i < list.len(),
        is_new_billing(list[i], announced),
    ensures
        new_billing(list, announced).contains(list[i]),
    decreases list.len(),
{
    let rest = list.drop_last();
    let out = new_billing(list, announced);
    if i == list.len() - 1 {
        assert(out[out.len() - 1] == list[i]);
    } else {
        assert(rest[i] == list[i]);
        lemma_new_billing_keeps(rest, announced, i);
        let r = new_billing(rest, announced);
        let x = choose|x: int| 0 <= x < r.len() && r[x] == list[i];
        assert(out[x] == r[x]);
    }
}

/// The billing types are exactly "CREDIT_LIMIT_50_PERCENT_REACHED",
/// "CREDIT_LIMIT_75_PERCENT_REACHED", "CREDIT_EXHAUSTED", "PAST_DUE_SUBSCRIPTION",
/// "VOICE_CREDIT_LIMIT_75_PERCENT_REACHED" and "VOICE_CREDIT_EXHAUSTED": an
/// unread notification of one of these types that was not announced before is
/// announced, and every notification announced is unread, new and of one of
/// these types.
pub proof fn law_billing_types_announced(list: Seq<Notification>, announced: Set<i64>)
    ensures
        forall|i: int|
            0 <= i < list.len() && (#[trigger] list[i]).unread && !announced.contains(list[i].id)
                && (list[i].kind matches Some(k) && (k@ == "CREDIT_LIMIT_50_PERCENT_REACHED"@
                    || k@ == "CREDIT_LIMIT_75_PERCENT_REACHED"@
                    || k@ == "CREDIT_EXHAUSTED"@
                    || k@ == "PAST_DUE_SUBSCRIPTION"@
                    || k@ == "VOICE_CREDIT_LIMIT_75_PERCENT_REACHED"@
                    || k@ == "VOICE_CREDIT_EXHAUSTED"@)) ==> new_billing(
                list,
                announced,
            ).contains(list[i]),
        forall|j: int|
            0 <= j < new_billing(list, announced).len() ==> ({
                let n = #[trigger] new_billing(list, announced)[j];
                &&& n.unread
                &&& !announced.contains(n.id)
                &&& n.kind matches Some(k) && (k@ == "CREDIT_LIMIT_50_PERCENT_REACHED"@
                    || k@ == "CREDIT_LIMIT_75_PERCENT_REACHED"@
                    || k@ == "CREDIT_EXHAUSTED"@
                    || k@ == "PAST_DUE_SUBSCRIPTION"@
                    || k@ == "VOICE_CREDIT_LIMIT_75_PERCENT_REACHED"@
                    || k@ == "VOICE_CREDIT_EXHAUSTED"@)
            }),
{
    assert forall|i: int|
        0 <= i < list.len() && (#[trigger] list[i]).unread && !announced.contains(list[i].id)
            && (list[i].kind matches Some(k) && (k@ == "CREDIT_LIMIT_50_PERCENT_REACHED"@
                    || k@ == "CREDIT_LIMIT_75_PERCENT_REACHED"@
                    || k@ == "CREDIT_EXHAUSTED"@
                    || k@ == "PAST_DUE_SUBSCRIPTION"@
                    || k@ == "VOICE_CREDIT_LIMIT_75_PERCENT_REACHED"@
                    || k@ == "VOICE_CREDIT_EXHAUSTED"@)) implies new_billing(
            list,
            announced,
        ).contains(list[i]) by {
        lemma_new_billing_keeps(list, announced, i);
    }
    lemma_new_billing_members(list, announced);
}

} // verus!
