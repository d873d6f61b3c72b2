//! Decisions of a poll cycle: which organizations to poll.
use vstd::prelude::*;

use crate::alerts::{
    check_subscription_status, check_thresholds, named_seq, past_due_step, threshold_banners,
    threshold_run, Banner, BannerView, FiredSet, banners_view, past_due_body,
};
use crate::json::text_eq;
use crate::models::{worst_severity_spec, Org, OrgView, Severity, UsageLevels};
use crate::tray::{tray_title, tray_title_spec};

verus! {

/// The name shown for the selected organization when none is known.
pub const FALLBACK_ORG_NAME: &'static str = "Organization";

/// The selected organization as an entry of the poll list.
pub open spec fn selected_entry(selected_id: Seq<char>, selected_name: Option<Seq<char>>) -> OrgView {
    OrgView {
        id: selected_id,
        name: match selected_name {
            Some(n) => n,
            None => FALLBACK_ORG_NAME@,
        },
    }
}

/// Some entry of `orgs` has the id `id`.
pub open spec fn has_org_id(orgs: Seq<OrgView>, id: Seq<char>) -> bool {
    exists|i: int| 0 <= i < orgs.len() && (#[trigger] orgs[i]).id == id
}

/// The organizations a cycle polls: the listed ones when the list came back
/// non-empty, else the selected one alone; the selected one is added at the end
/// when the list lacks it.
pub open spec fn poll_list_spec(
    listed: Option<Seq<OrgView>>,
    selected_id: Seq<char>,
    selected_name: Option<Seq<char>>,
) -> Seq<OrgView> {
    let base = match listed {
        Some(l) => if l.len() > 0 {
            l
        } else {
            seq![selected_entry(selected_id, selected_name)]
        },
        None => seq![selected_entry(selected_id, selected_name)],
    };
    if has_org_id(base, selected_id) {
        base
    } else {
        base.push(selected_entry(selected_id, selected_name))
    }
}

fn selected_org(selected_id: &str, selected_name: &Option<String>) -> (o: Org)
    ensures
        o@ == selected_entry(selected_id@, selected_name.deep_view()),
{
    let name = match selected_name {
        Some(n) => n.clone(),
        None => FALLBACK_ORG_NAME.to_owned(),
    };
    Org { id: selected_id.to_owned(), name }
}

/// The organizations a poll cycle checks, given the organization list (`None`
/// when listing failed) and the selected organization.
pub fn orgs_to_poll(listed: Option<Vec<Org>>, selected_id: &str, selected_name: &Option<String>) -> (r:
    Vec<Org>)
    ensures
        r@.map_values(|o: Org| o@) == poll_list_spec(
            match listed {
                Some(l) => Some(l@.map_values(|o: Org| o@)),
                None => None,
            },
            selected_id@,
            selected_name.deep_view(),
        ),
{
    let ghost lv = match &listed {
        Some(l) => Some(l@.map_values(|o: Org| o@)),
        None => None::<Seq<OrgView>>,
    };
    let mut base: Vec<Org> = match listed {
        Some(l) => if l.len() > 0 {
            l
        } else {
            let mut v: Vec<Org> = Vec::new();
            v.push(selected_org(selected_id, selected_name));
            v
        },
        None => {
            let mut v: Vec<Org> = Vec::new();
            v.push(selected_org(selected_id, selected_name));
            v
        },
    };
    let ghost bv = base@.map_values(|o: Org| o@);
    proof {
        let sel = selected_entry(selected_id@, selected_name.deep_view());
        match lv {
            Some(l) => {
                if l.len() == 0 {
                    assert(bv =~= seq![sel]);
                } else {
                    assert(bv =~= l);
                }
            },
            None => {
                assert(bv =~= seq![sel]);
            },
        }
    }
    let mut found = false;
    let mut i: usize = 0;
    while i < base.len()
        invariant
            0 <= i <= base@.len(),
            bv == base@.map_values(|o: Org| o@),
            found == exists|k: int| 0 <= k < i && (#[trigger] bv[k]).id == selected_id@,
        decreases base@.len() - i,
    {
        if text_eq(base[i].id.as_str(), selected_id) {
            assert(bv[i as int].id == selected_id@);
            found = true;
        }
        i = i + 1;
    }
    if !found {
        base.push(selected_org(selected_id, selected_name));
        assert(base@.map_values(|o: Org| o@) =~= bv.push(
            selected_entry(selected_id@, selected_name.deep_view()),
        ));
    }
    base
}

/// Whether an organization is the selected one.
pub fn is_selected(org_id: &str, selected_id: &str) -> (r: bool)
    ensures
        r == (org_id@ == selected_id@),
{
    text_eq(org_id, selected_id)
}


/// The selected organization is always polled, whether or not listing
/// succeeded and whether or not the list names it.
pub proof fn law_selected_always_polled(
    listed: Option<Seq<OrgView>>,
    selected_id: Seq<char>,
    selected_name: Option<Seq<char>>,
)
    ensures
        has_org_id(poll_list_spec(listed, selected_id, selected_name), selected_id),
{
    let r = poll_list_spec(listed, selected_id, selected_name);
    let e = selected_entry(selected_id, selected_name);
    if !has_org_id(r, selected_id) {
        assert(r.last() == e);
        assert(r[r.len() - 1].id == selected_id);
    }
}


/// What one organization's poll decides.
pub struct OrgPoll {
    /// The banners to show, threshold banners first.
    pub banners: Vec<Banner>,
    pub severity: Severity,
    /// The worst bucket level, in hundredths of a percent.
    pub worst: u16,
    /// For the selected organization, the title beside the menu bar icon.
    pub tray_title: Option<String>,
}

/// Decides one organization's poll: its severity and worst level, the threshold
/// banners and then the past-due banner it calls for (recorded in `fired`), and,
/// when it is the selected organization, the menu bar title.
pub fn poll_org(
    fired: &mut FiredSet,
    org_id: &str,
    org_name: &str,
    selected_id: &str,
    status: &Option<String>,
    levels: &UsageLevels,
) -> (r: OrgPoll)
    ensures
        ({
            let t = threshold_run(old(fired)@, org_id@, named_seq(*levels));
            let p = past_due_step(t.0, org_id@, status.deep_view());
            &&& final(fired)@ == p.0
            &&& banners_view(r.banners@) == threshold_banners(org_name@, t.1) + if p.1 {
                seq![BannerView { title: org_name@, body: past_due_body() }]
            } else {
                Seq::<BannerView>::empty()
            }
        }),
        (r.severity, r.worst) == worst_severity_spec(*levels),
        r.tray_title.deep_view() == if org_id@ == selected_id@ {
            Some(tray_title_spec(worst_severity_spec(*levels).1))
        } else {
            None
        },
{
    let (severity, worst) = levels.worst_severity();
    let mut banners = check_thresholds(fired, org_id, org_name, levels);
    let ghost first = banners@;
    match check_subscription_status(fired, org_id, org_name, status) {
        Some(b) => {
            banners.push(b);
            assert(banners_view(banners@) =~= banners_view(first).push(banners@.last()@));
        },
        None => {
            assert(banners_view(banners@) =~= banners_view(first) + Seq::<BannerView>::empty());
        },
    }
    let title = if is_selected(org_id, selected_id) {
        Some(tray_title(worst))
    } else {
        None
    };
    OrgPoll { banners, severity, worst, tray_title: title }
}


/// How a poll cycle begins.
pub enum CycleStart {
    /// No token or no selected organization: nothing to fetch, the tray goes idle.
    Idle,
    /// Poll with this token, for this selected organization.
    Poll { token: String, selected_id: String },
}

/// How a poll cycle begins: it polls only when a token is stored and an
/// organization is selected.
pub fn cycle_start(token: Option<String>, selected_id: Option<String>) -> (r: CycleStart)
    ensures
        match (token, selected_id) {
            (Some(t), Some(o)) => r == CycleStart::Poll { token: t, selected_id: o },
            _ => r is Idle,
        },
{
    match (token, selected_id) {
        (Some(t), Some(o)) => CycleStart::Poll { token: t, selected_id: o },
        _ => CycleStart::Idle,
    }
}

/// The error to record when an organization's plan details could not be fetched:
/// the message for the selected organization, nothing for the others.
pub fn plan_failure_error(org_id: &str, selected_id: &str, message: String) -> (r: Option<String>)
    ensures
        r == if org_id@ == selected_id@ {
            Some(message)
        } else {
            None::<String>
        },
{
    if is_selected(org_id, selected_id) {
        Some(message)
    } else {
        None
    }
}

} // verus!
