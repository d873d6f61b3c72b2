//! The YourGPT API protocol: request bodies, the response envelope, and the
//! reading of organization lists, plan details and notification feeds out of the
//! envelope's data, whatever shape the server chose for them.
use vstd::prelude::*;

use crate::json::{
    find_field, first_i64, first_i64_obj, first_i64_obj_spec, first_i64_spec, first_string,
    first_string_spec, json_as_text, json_get, lookup, lookup_field, parse_unix_seconds,
    take_field, take_value, unix_seconds_spec, JsonValue,
};
use crate::models::{Org, OrgView};
use crate::text::{
    chars_of, contains_str, decimal, format_i64, format_u64, has_sub, lowercase, signed_decimal,
    to_lowercase,
};

verus! {

/// The `app_id` every request body carries: the chatbot app.
pub const APP_ID: &'static str = "1";

/// The envelope `type` of a successful call.
pub const SUCCESS_KIND: &'static str = "RXSUCCESS";

/// Why a call's answer could not be used.
pub enum ApiError {
    /// The server answered with a status outside 200..=299. `status_line` is the
    /// status as shown to people; `detail` is the envelope's message, or else the body.
    Http { status: u16, status_line: String, detail: String },
    /// A success answer whose body is not a YourGPT envelope.
    Envelope,
    /// The envelope's `type` is not the success kind; holds the message to show.
    Rejected(String),
    /// An organization list that is an object without an array under
    /// `organizations` or `data`.
    OrgsShape,
    /// An organization list that is neither an array nor an object.
    OrgsNotArray,
    /// Plan details that are not an object; holds what came instead.
    PlanShape(JsonValue),
    /// A notification feed that is an object without an array under
    /// `notifications` or `data`.
    NotificationsShape,
    /// A notification feed that is neither an array, an object nor null.
    NotificationsNotArray,
}

/// The YourGPT response envelope.
pub struct Envelope {
    /// The envelope's `type`.
    pub kind: Option<String>,
    pub message: Option<String>,
    pub data: Option<JsonValue>,
}

// ---------------------------------------------------------------------------
// Requests and responses
// ---------------------------------------------------------------------------

/// `body` with `app_id` set to the chatbot app, unless it already has one.
pub open spec fn app_id_added(body: JsonValue, r: JsonValue) -> bool {
    match body {
        JsonValue::Object(f) => if lookup(f@, "app_id"@) is Some {
            r == body
        } else {
            &&& r matches JsonValue::Object(g)
            &&& g@.len() == f@.len() + 1
            &&& g@.take(f@.len() as int) == f@
            &&& g@.last().0@ == "app_id"@
            &&& json_as_text(g@.last().1) == Some(APP_ID@)
            &&& lookup(g@, "app_id"@) == Some(g@.last().1)
        },
        _ => r == body,
    }
}

/// Adds `app_id` to an object body that lacks one; any other body is kept as it is.
pub fn with_app_id(body: JsonValue) -> (r: JsonValue)
    ensures
        app_id_added(body, r),
{
    match body {
        JsonValue::Object(fields) => {
            if find_field(&fields, "app_id").is_some() {
                JsonValue::Object(fields)
            } else {
                let mut fields = fields;
                let ghost before = fields@;
                let pair = ("app_id".to_owned(), JsonValue::Str(APP_ID.to_owned()));
                proof {
                    crate::json::lemma_lookup_push(before, pair, "app_id"@);
                }
                fields.push(pair);
                assert(fields@ == before.push(pair));
                assert(fields@.take(before.len() as int) =~= before);
                JsonValue::Object(fields)
            }
        },
        other => other,
    }
}

/// The body of a call without parameters.
pub fn empty_request() -> (r: JsonValue)
    ensures
        r matches JsonValue::Object(g) && g@.len() == 1 && g@[0].0@ == "app_id"@ && json_as_text(
            g@[0].1,
        ) == Some(APP_ID@),
{
    let v: Vec<(String, JsonValue)> = Vec::new();
    let ghost e = v;
    assert(lookup(e@, "app_id"@) is None);
    with_app_id(JsonValue::Object(v))
}

/// The body of a plan detail call for an organization.
pub fn plan_detail_request(organization_id: &str) -> (r: JsonValue)
    ensures
        r matches JsonValue::Object(g) && g@.len() == 2 && g@[0].0@ == "organization_id"@
            && json_as_text(g@[0].1) == Some(organization_id@) && g@[1].0@ == "app_id"@
            && json_as_text(g@[1].1) == Some(APP_ID@),
{
    let mut v: Vec<(String, JsonValue)> = Vec::new();
    v.push(("organization_id".to_owned(), JsonValue::Str(organization_id.to_owned())));
    proof {
        reveal_strlit("organization_id");
        reveal_strlit("app_id");
        assert("organization_id"@[0] == 'o');
        assert("app_id"@[0] == 'a');
        assert(v@[0].0@ != "app_id"@);
        assert(v@.drop_first().len() == 0);
        assert(lookup(v@.drop_first(), "app_id"@) is None);
        assert(lookup(v@, "app_id"@) is None);
    }
    with_app_id(JsonValue::Object(v))
}

/// Whether a status code is a success (200..=299).
pub open spec fn is_success(status: u16) -> bool {
    200 <= status && status <= 299
}

/// What a failed call shows: the envelope's message, or else the body text.
pub open spec fn failure_detail(envelope: Option<Envelope>, text: Seq<char>) -> Seq<char> {
    match envelope {
        Some(e) => match e.message {
            Some(m) => m@,
            None => text,
        },
        None => text,
    }
}

/// Reads a call's answer: the envelope's data when the status is a success and the
/// envelope's `type` is absent or the success kind; the matching error otherwise.
/// `envelope` is the body decoded as an envelope, `None` when it is not one.
pub fn interpret_response(
    status: u16,
    status_line: String,
    envelope: Option<Envelope>,
    text: String,
) -> (r: Result<JsonValue, ApiError>)
    ensures
        !is_success(status) ==> (r matches Err(ApiError::Http { status: s, status_line: l, detail: d })
            && s == status && l@ == status_line@ && d@ == failure_detail(envelope, text@)),
        is_success(status) && envelope is None ==> (r matches Err(ApiError::Envelope)),
        is_success(status) && envelope is Some ==> match envelope->0.kind {
            Some(k) if k@ != SUCCESS_KIND@ => (r matches Err(ApiError::Rejected(m)) && m@ == (
            match envelope->0.message {
                Some(msg) => msg@,
                None => "API returned error"@,
            })),
            _ => r == Ok::<JsonValue, ApiError>(
                match envelope->0.data {
                    Some(d) => d,
                    None => JsonValue::Null,
                },
            ),
        },
{
    if !(200 <= status && status <= 299) {
        let detail = match envelope {
            Some(e) => match e.message {
                Some(m) => m,
                None => text,
            },
            None => text,
        };
        return Err(ApiError::Http { status, status_line, detail });
    }
    match envelope {
        None => Err(ApiError::Envelope),
        Some(e) => {
            let rejected = match &e.kind {
                Some(k) => !crate::json::text_eq(k.as_str(), SUCCESS_KIND),
                None => false,
            };
            if rejected {
                let msg = match e.message {
                    Some(m) => m,
                    None => "API returned error".to_owned(),
                };
                Err(ApiError::Rejected(msg))
            } else {
                match e.data {
                    Some(d) => Ok(d),
                    None => Ok(JsonValue::Null),
                }
            }
        },
    }
}

// ---------------------------------------------------------------------------
// Organization lists
// ---------------------------------------------------------------------------

/// The items of an organization list: the data itself when it is an array, else
/// the array under `organizations` or, failing that, under `data`.
pub open spec fn org_array_spec(data: JsonValue) -> Result<Seq<JsonValue>, ApiError> {
    match data {
        JsonValue::Array(a) => Ok(a@),
        JsonValue::Object(m) => match lookup(m@, "organizations"@) {
            Some(JsonValue::Array(a)) => Ok(a@),
            _ => match lookup(m@, "data"@) {
                Some(JsonValue::Array(a)) => Ok(a@),
                _ => Err(ApiError::OrgsShape),
            },
        },
        _ => Err(ApiError::OrgsNotArray),
    }
}

/// The first present of the id fields of an organization item.
pub open spec fn org_id_field(item: JsonValue) -> Option<JsonValue> {
    match json_get(item, "organization_id"@) {
        Some(v) => Some(v),
        None => match json_get(item, "id"@) {
            Some(v) => Some(v),
            None => match json_get(item, "organization_uid"@) {
                Some(v) => Some(v),
                None => json_get(item, "uid"@),
            },
        },
    }
}

/// The first present of the name fields of an organization item.
pub open spec fn org_name_field(item: JsonValue) -> Option<JsonValue> {
    match json_get(item, "organization_name"@) {
        Some(v) => Some(v),
        None => match json_get(item, "name"@) {
            Some(v) => Some(v),
            None => json_get(item, "title"@),
        },
    }
}

/// An id as text: a string as it is, a number as its decimal text.
pub open spec fn id_text(v: JsonValue) -> Option<Seq<char>> {
    match v {
        JsonValue::Str(s) => Some(s@),
        JsonValue::PosInt(n) => Some(decimal(n as nat)),
        JsonValue::NegInt(n) => Some(signed_decimal(n as int)),
        JsonValue::Float(t) => Some(t@),
        _ => None,
    }
}

/// The organization an item describes: it needs an id; the name is the name
/// field's text, or the id when there is none.
pub open spec fn org_of(item: JsonValue) -> Option<OrgView> {
    match org_id_field(item) {
        Some(v) => match id_text(v) {
            Some(id) => Some(
                OrgView {
                    id,
                    name: match org_name_field(item) {
                        Some(n) => match json_as_text(n) {
                            Some(t) => t,
                            None => id,
                        },
                        None => id,
                    },
                },
            ),
            None => None,
        },
        None => None,
    }
}

/// The organizations of the items, in order, skipping items without an id.
pub open spec fn orgs_of(items: Seq<JsonValue>) -> Seq<OrgView>
    decreases items.len(),
{
    if items.len() == 0 {
        Seq::empty()
    } else {
        let rest = orgs_of(items.drop_last());
        match org_of(items.last()) {
            Some(o) => rest.push(o),
            None => rest,
        }
    }
}

/// The organization list an envelope's data describes.
pub open spec fn org_list_spec(data: JsonValue) -> Result<Seq<OrgView>, ApiError> {
    match org_array_spec(data) {
        Ok(items) => Ok(orgs_of(items)),
        Err(e) => Err(e),
    }
}

/// Organizations as text values.
pub open spec fn orgs_view(v: Seq<Org>) -> Seq<OrgView> {
    v.map_values(|o: Org| o@)
}

fn org_array(data: &JsonValue) -> (r: Result<&Vec<JsonValue>, ApiError>)
    ensures
        match r {
            Ok(a) => org_array_spec(*data) == Ok::<Seq<JsonValue>, ApiError>(a@),
            Err(e) => org_array_spec(*data) == Err::<Seq<JsonValue>, ApiError>(e),
        },
{
    match data {
        JsonValue::Array(a) => Ok(a),
        JsonValue::Object(m) => match lookup_field(m, "organizations") {
            Some(JsonValue::Array(a)) => Ok(a),
            _ => match lookup_field(m, "data") {
                Some(JsonValue::Array(a)) => Ok(a),
                _ => Err(ApiError::OrgsShape),
            },
        },
        _ => Err(ApiError::OrgsNotArray),
    }
}

fn org_id_of(item: &JsonValue) -> (r: Option<&JsonValue>)
    ensures
        crate::json::opt_ref(r) == org_id_field(*item),
{
    match item.get("organization_id") {
        Some(v) => Some(v),
        None => match item.get("id") {
            Some(v) => Some(v),
            None => match item.get("organization_uid") {
                Some(v) => Some(v),
                None => item.get("uid"),
            },
        },
    }
}

fn org_name_of(item: &JsonValue) -> (r: Option<&JsonValue>)
    ensures
        crate::json::opt_ref(r) == org_name_field(*item),
{
    match item.get("organization_name") {
        Some(v) => Some(v),
        None => match item.get("name") {
            Some(v) => Some(v),
            None => item.get("title"),
        },
    }
}

/// An id value as text.
pub fn id_string(v: &JsonValue) -> (r: Option<String>)
    ensures
        r.deep_view() == id_text(*v),
{
    match v {
        JsonValue::Str(s) => Some(s.clone()),
        JsonValue::PosInt(n) => Some(format_u64(*n)),
        JsonValue::NegInt(n) => Some(format_i64(*n)),
        JsonValue::Float(t) => Some(t.clone()),
        _ => None,
    }
}

/// The organization an item of the list describes, if it has an id.
pub fn org_from_item(item: &JsonValue) -> (r: Option<Org>)
    ensures
        match r {
            Some(o) => org_of(*item) == Some(o@),
            None => org_of(*item) is None,
        },
{
    let id = match org_id_of(item) {
        Some(v) => match id_string(v) {
            Some(s) => s,
            None => {
                return None;
            },
        },
        None => {
            return None;
        },
    };
    let name = match org_name_of(item) {
        Some(n) => match n.as_text() {
            Some(t) => t.to_owned(),
            None => id.clone(),
        },
        None => id.clone(),
    };
    Some(Org { id, name })
}

/// Reads the organizations out of the data of a `getMyOrganizations` answer.
pub fn orgs_from_data(data: &JsonValue) -> (r: Result<Vec<Org>, ApiError>)
    ensures
        match r {
            Ok(v) => org_list_spec(*data) == Ok::<Seq<OrgView>, ApiError>(orgs_view(v@)),
            Err(e) => org_list_spec(*data) == Err::<Seq<OrgView>, ApiError>(e),
        },
{
    let items = match org_array(data) {
        Ok(a) => a,
        Err(e) => {
            return Err(e);
        },
    };
    let mut out: Vec<Org> = Vec::new();
    let mut i: usize = 0;
    while i < items.len()
        invariant
            0 <= i <= items@.len(),
            orgs_view(out@) == orgs_of(items@.take(i as int)),
        decreases items@.len() - i,
    {
        let ghost prev = out@;
        assert(items@.take(i + 1).drop_last() =~= items@.take(i as int));
        assert(items@.take(i + 1).last() == items@[i as int]);
        match org_from_item(&items[i]) {
            Some(o) => {
                out.push(o);
                assert(orgs_view(out@) =~= orgs_view(prev).push(out@.last()@));
            },
            None => {},
        }
        i = i + 1;
    }
    assert(items@.take(items@.len() as int) =~= items@);
    Ok(out)
}

/// An organization item's id is the first present of "organization_id", "id",
/// "organization_uid" and "uid" (a string as it is); an item with none of them
/// is skipped. Its name is the first present of "organization_name", "name" and
/// "title" when that is a string, and the id otherwise.
pub proof fn law_org_fields(item: JsonValue)
    ensures
        json_get(item, "organization_id"@) matches Some(JsonValue::Str(s)) ==> org_of(item) matches Some(
            o,
        ) && o.id == s@,
        json_get(item, "organization_id"@) is None ==> (json_get(item, "id"@) matches Some(
            JsonValue::Str(s),
        ) ==> org_of(item) matches Some(o) && o.id == s@),
        (json_get(item, "organization_id"@) is None && json_get(item, "id"@) is None && json_get(
            item,
            "organization_uid"@,
        ) is None && json_get(item, "uid"@) is None) ==> org_of(item) is None,
        org_of(item) matches Some(o) ==> ({
            &&& json_get(item, "organization_name"@) matches Some(v) ==> (v matches JsonValue::Str(
                s,
            ) ==> o.name == s@)
            &&& json_get(item, "organization_name"@) matches Some(v) ==> (v !is Str ==> o.name
                == o.id)
            &&& json_get(item, "organization_name"@) is None ==> (json_get(item, "name"@) matches Some(
                JsonValue::Str(s),
            ) ==> o.name == s@)
            &&& (json_get(item, "organization_name"@) is None && json_get(item, "name"@) is None)
                ==> (json_get(item, "title"@) matches Some(JsonValue::Str(s)) ==> o.name == s@)
            &&& (json_get(item, "organization_name"@) is None && json_get(item, "name"@) is None
                && json_get(item, "title"@) is None) ==> o.name == o.id
        }),
{
}

/// The organization list holds the organization of every item that has an id,
/// and nothing else: each listed organization is the organization of one of the
/// items.
pub proof fn law_orgs_listed(items: Seq<JsonValue>)
    ensures
        forall|i: int|
            0 <= i < items.len() ==> (org_of(#[trigger] items[i]) matches Some(o) ==> orgs_of(
                items,
            ).contains(o)),
        forall|j: int|
            #![trigger orgs_of(items)[j]]
            0 <= j < orgs_of(items).len() ==> exists|i: int|
                0 <= i < items.len() && org_of(#[trigger] items[i]) == Some(orgs_of(items)[j]),
        orgs_of(items).len() <= items.len(),
    decreases items.len(),
{
    if items.len() > 0 {
        let rest = items.drop_last();
        law_orgs_listed(rest);
        let r = orgs_of(rest);
        let out = orgs_of(items);
        assert forall|i: int|
            0 <= i < items.len() implies (org_of(#[trigger] items[i]) matches Some(o) ==> out.contains(o)) by {
            if let Some(o) = org_of(items[i]) {
                if i == items.len() - 1 {
                    assert(out[out.len() - 1] == o);
                } else {
                    assert(rest[i] == items[i]);
                    let x = choose|x: int| 0 <= x < r.len() && r[x] == o;
                    assert(out[x] == r[x]);
                }
            }
        }
        assert forall|j: int| #![trigger out[j]] 0 <= j < out.len() implies exists|i: int|
            0 <= i < items.len() && org_of(#[trigger] items[i]) == Some(out[j]) by {
            if j < r.len() {
                assert(out[j] == r[j]);
                let i = choose|i: int| 0 <= i < rest.len() && org_of(#[trigger] rest[i]) == Some(r[j]);
                assert(items[i] == rest[i]);
            } else {
                assert(org_of(items[items.len() - 1]) == Some(out[j]));
            }
        }
    }
}

// ---------------------------------------------------------------------------
// Plan display names
// ---------------------------------------------------------------------------

/// The plan families a plan key can name.
#[derive(Clone, Copy, Debug, PartialEq, Eq, Structural)]
pub enum PlanTier {
    Trial,
    AgencyStarter,
    AgencyGrowth,
    Starter,
    Essential,
    Professional,
    Elite,
    PrimeStandard,
    PrimeExclusive,
    Growth,
    Advanced,
    Agency,
}

/// The family a lowercased plan key names: the first of the markers it contains,
/// in this order; none when it contains none of them.
pub open spec fn tier_of(p: Seq<char>) -> Option<PlanTier> {
    if p == "chatbot_trial"@ || has_sub(p, "trial"@) {
        Some(PlanTier::Trial)
    } else if has_sub(p, "agency_starter"@) {
        Some(PlanTier::AgencyStarter)
    } else if has_sub(p, "agency_growth"@) {
        Some(PlanTier::AgencyGrowth)
    } else if has_sub(p, "starter"@) {
        Some(PlanTier::Starter)
    } else if has_sub(p, "essential"@) {
        Some(PlanTier::Essential)
    } else if has_sub(p, "professional"@) {
        Some(PlanTier::Professional)
    } else if has_sub(p, "elite"@) {
        Some(PlanTier::Elite)
    } else if has_sub(p, "prime_standard"@) {
        Some(PlanTier::PrimeStandard)
    } else if has_sub(p, "prime_exclusive"@) {
        Some(PlanTier::PrimeExclusive)
    } else if has_sub(p, "growth"@) {
        Some(PlanTier::Growth)
    } else if has_sub(p, "advanced"@) {
        Some(PlanTier::Advanced)
    } else if has_sub(p, "agency"@) {
        Some(PlanTier::Agency)
    } else {
        None
    }
}

/// The display title of a plan family.
pub open spec fn tier_title(t: PlanTier) -> Seq<char> {
    match t {
        PlanTier::Trial => "Trial"@,
        PlanTier::AgencyStarter => "Agency Starter"@,
        PlanTier::AgencyGrowth => "Agency Growth"@,
        PlanTier::Starter => "Starter"@,
        PlanTier::Essential => "Essential"@,
        PlanTier::Professional => "Professional"@,
        PlanTier::Elite => "Elite"@,
        PlanTier::PrimeStandard => "Prime Standard"@,
        PlanTier::PrimeExclusive => "Prime Exclusive"@,
        PlanTier::Growth => "Growth"@,
        PlanTier::Advanced => "Advanced"@,
        PlanTier::Agency => "Agency"@,
    }
}

/// A lowercased plan key names a yearly plan.
pub open spec fn is_yearly(p: Seq<char>) -> bool {
    has_sub(p, "yearly"@) || has_sub(p, "annual"@)
}

/// The display name of a plan key `plan` whose lowercase form is `lower`: the
/// family title, with " (Yearly)" for yearly plans other than trials; the key
/// itself when it names no family.
pub open spec fn display_name_spec(lower: Seq<char>, plan: Seq<char>) -> Seq<char> {
    match tier_of(lower) {
        None => plan,
        Some(PlanTier::Trial) => "Trial"@,
        Some(t) => if is_yearly(lower) {
            tier_title(t) + " (Yearly)"@
        } else {
            tier_title(t)
        },
    }
}

fn tier_of_exec(p: &Vec<char>, lower: &str) -> (r: Option<PlanTier>)
    requires
        p@ == lower@,
    ensures
        r == tier_of(lower@),
{
    if crate::json::text_eq(lower, "chatbot_trial") || contains_str(p, "trial") {
        Some(PlanTier::Trial)
    } else if contains_str(p, "agency_starter") {
        Some(PlanTier::AgencyStarter)
    } else if contains_str(p, "agency_growth") {
        Some(PlanTier::AgencyGrowth)
    } else if contains_str(p, "starter") {
        Some(PlanTier::Starter)
    } else if contains_str(p, "essential") {
        Some(PlanTier::Essential)
    } else if contains_str(p, "professional") {
        Some(PlanTier::Professional)
    } else if contains_str(p, "elite") {
        Some(PlanTier::Elite)
    } else if contains_str(p, "prime_standard") {
        Some(PlanTier::PrimeStandard)
    } else if contains_str(p, "prime_exclusive") {
        Some(PlanTier::PrimeExclusive)
    } else if contains_str(p, "growth") {
        Some(PlanTier::Growth)
    } else if contains_str(p, "advanced") {
        Some(PlanTier::Advanced)
    } else if contains_str(p, "agency") {
        Some(PlanTier::Agency)
    } else {
        None
    }
}

fn tier_title_str(t: PlanTier) -> (s: &'static str)
    ensures
        s@ == tier_title(t),
{
    match t {
        PlanTier::Trial => "Trial",
        PlanTier::AgencyStarter => "Agency Starter",
        PlanTier::AgencyGrowth => "Agency Growth",
        PlanTier::Starter => "Starter",
        PlanTier::Essential => "Essential",
        PlanTier::Professional => "Professional",
        PlanTier::Elite => "Elite",
        PlanTier::PrimeStandard => "Prime Standard",
        PlanTier::PrimeExclusive => "Prime Exclusive",
        PlanTier::Growth => "Growth",
        PlanTier::Advanced => "Advanced",
        PlanTier::Agency => "Agency",
    }
}

/// The display name of the plan key `plan`, given its lowercase form `lower`.
pub fn display_name_for(lower: &str, plan: &str) -> (r: String)
    ensures
        r@ == display_name_spec(lower@, plan@),
{
    let p = chars_of(lower);
    match tier_of_exec(&p, lower) {
        None => plan.to_owned(),
        Some(PlanTier::Trial) => "Trial".to_owned(),
        Some(t) => {
            let mut s = tier_title_str(t).to_owned();
            if contains_str(&p, "yearly") || contains_str(&p, "annual") {
                s.append(" (Yearly)");
            }
            s
        },
    }
}

/// Maps a YourGPT plan key (such as "chatbot_professional_monthly") to its
/// display name, matching the key case-insensitively.
pub fn plan_key_to_display_name(plan: &str) -> (r: String)
    ensures
        r@ == display_name_spec(lowercase(plan@), plan@),
{
    let lower = to_lowercase(plan);
    display_name_for(lower.as_str(), plan)
}

/// `title`, with " (Yearly)" when the lowercased key mentions "yearly" or
/// "annual".
pub open spec fn with_period(lower: Seq<char>, title: Seq<char>) -> Seq<char> {
    if has_sub(lower, "yearly"@) || has_sub(lower, "annual"@) {
        title + " (Yearly)"@
    } else {
        title
    }
}

/// A plan key is shown as the family of the first marker it contains, checked
/// in the order trial, agency_starter, agency_growth, starter, essential,
/// professional, elite, prime_standard, prime_exclusive, growth, advanced,
/// agency: "Trial" for trials, else the family's title with " (Yearly)" for
/// yearly or annual keys; a key with none of the markers is shown as it is.
pub proof fn law_display_name_follows_first_marker(lower: Seq<char>, plan: Seq<char>)
    ensures
        (lower == "chatbot_trial"@ || has_sub(lower, "trial"@)) ==> display_name_spec(lower, plan) == "Trial"@,
        (lower != "chatbot_trial"@ && !has_sub(lower, "trial"@) && has_sub(lower, "agency_starter"@)) ==> display_name_spec(lower, plan) == with_period(lower, "Agency Starter"@),
        (lower != "chatbot_trial"@ && !has_sub(lower, "trial"@) && !has_sub(lower, "agency_starter"@) && has_sub(lower, "agency_growth"@)) ==> display_name_spec(lower, plan) == with_period(lower, "Agency Growth"@),
        (lower != "chatbot_trial"@ && !has_sub(lower, "trial"@) && !has_sub(lower, "agency_starter"@) && !has_sub(lower, "agency_growth"@) && has_sub(lower, "starter"@)) ==> display_name_spec(lower, plan) == with_period(lower, "Starter"@),
        (lower != "chatbot_trial"@ && !has_sub(lower, "trial"@) && !has_sub(lower, "agency_starter"@) && !has_sub(lower, "agency_growth"@) && !has_sub(lower, "starter"@) && has_sub(lower, "essential"@)) ==> display_name_spec(lower, plan) == with_period(lower, "Essential"@),
        (lower != "chatbot_trial"@ && !has_sub(lower, "trial"@) && !has_sub(lower, "agency_starter"@) && !has_sub(lower, "agency_growth"@) && !has_sub(lower, "starter"@) && !has_sub(lower, "essential"@) && has_sub(lower, "professional"@)) ==> display_name_spec(lower, plan) == with_period(lower, "Professional"@),
        (lower != "chatbot_trial"@ && !has_sub(lower, "trial"@) && !has_sub(lower, "agency_starter"@) && !has_sub(lower, "agency_growth"@) && !has_sub(lower, "starter"@) && !has_sub(lower, "essential"@) && !has_sub(lower, "professional"@) && has_sub(lower, "elite"@)) ==> display_name_spec(lower, plan) == with_period(lower, "Elite"@),
        (lower != "chatbot_trial"@ && !has_sub(lower, "trial"@) && !has_sub(lower, "agency_starter"@) && !has_sub(lower, "agency_growth"@) && !has_sub(lower, "starter"@) && !has_sub(lower, "essential"@) && !has_sub(lower, "professional"@) && !has_sub(lower, "elite"@) && has_sub(lower, "prime_standard"@)) ==> display_name_spec(lower, plan) == with_period(lower, "Prime Standard"@),
        (lower != "chatbot_trial"@ && !has_sub(lower, "trial"@) && !has_sub(lower, "agency_starter"@) && !has_sub(lower, "agency_growth"@) && !has_sub(lower, "starter"@) && !has_sub(lower, "essential"@) && !has_sub(lower, "professional"@) && !has_sub(lower, "elite"@) && !has_sub(lower, "prime_standard"@) && has_sub(lower, "prime_exclusive"@)) ==> display_name_spec(lower, plan) == with_period(lower, "Prime Exclusive"@),
        (lower != "chatbot_trial"@ && !has_sub(lower, "trial"@) && !has_sub(lower, "agency_starter"@) && !has_sub(lower, "agency_growth"@) && !has_sub(lower, "starter"@) && !has_sub(lower, "essential"@) && !has_sub(lower, "professional"@) && !has_sub(lower, "elite"@) && !has_sub(lower, "prime_standard"@) && !has_sub(lower, "prime_exclusive"@) && has_sub(lower, "growth"@)) ==> display_name_spec(lower, plan) == with_period(lower, "Growth"@),
        (lower != "chatbot_trial"@ && !has_sub(lower, "trial"@) && !has_sub(lower, "agency_starter"@) && !has_sub(lower, "agency_growth"@) && !has_sub(lower, "starter"@) && !has_sub(lower, "essential"@) && !has_sub(lower, "professional"@) && !has_sub(lower, "elite"@) && !has_sub(lower, "prime_standard"@) && !has_sub(lower, "prime_exclusive"@) && !has_sub(lower, "growth"@) && has_sub(lower, "advanced"@)) ==> display_name_spec(lower, plan) == with_period(lower, "Advanced"@),
        (lower != "chatbot_trial"@ && !has_sub(lower, "trial"@) && !has_sub(lower, "agency_starter"@) && !has_sub(lower, "agency_growth"@) && !has_sub(lower, "starter"@) && !has_sub(lower, "essential"@) && !has_sub(lower, "professional"@) && !has_sub(lower, "elite"@) && !has_sub(lower, "prime_standard"@) && !has_sub(lower, "prime_exclusive"@) && !has_sub(lower, "growth"@) && !has_sub(lower, "advanced"@) && has_sub(lower, "agency"@)) ==> display_name_spec(lower, plan) == with_period(lower, "Agency"@),
        (lower != "chatbot_trial"@ && !has_sub(lower, "trial"@) && !has_sub(lower, "agency_starter"@) && !has_sub(lower, "agency_growth"@) && !has_sub(lower, "starter"@) && !has_sub(lower, "essential"@) && !has_sub(lower, "professional"@) && !has_sub(lower, "elite"@) && !has_sub(lower, "prime_standard"@) && !has_sub(lower, "prime_exclusive"@) && !has_sub(lower, "growth"@) && !has_sub(lower, "advanced"@) && !has_sub(lower, "agency"@)) ==> display_name_spec(lower, plan) == plan,
{
}

// ---------------------------------------------------------------------------
// Plan details
// ---------------------------------------------------------------------------

/// What the library reads out of a plan detail answer.
pub struct PlanDetailResult {
    pub plan_name: Option<String>,
    pub subscription_status: Option<String>,
    pub current_period_start: Option<i64>,
    pub current_period_end: Option<i64>,
    /// Unix seconds at which the trial ends; only present on a trial.
    pub trial_expiry: Option<i64>,
    /// The usage object, for the buckets to be read from.
    pub usage: JsonValue,
}

/// Plan details as values.
pub struct PlanDetailView {
    pub plan_name: Option<Seq<char>>,
    pub subscription_status: Option<Seq<char>>,
    pub current_period_start: Option<i64>,
    pub current_period_end: Option<i64>,
    pub trial_expiry: Option<i64>,
    pub usage: JsonValue,
}

impl View for PlanDetailResult {
    type V = PlanDetailView;

    open spec fn view(&self) -> PlanDetailView {
        PlanDetailView {
            plan_name: self.plan_name.deep_view(),
            subscription_status: self.subscription_status.deep_view(),
            current_period_start: self.current_period_start,
            current_period_end: self.current_period_end,
            trial_expiry: self.trial_expiry,
            usage: self.usage,
        }
    }
}

/// `root[outer][inner]`.
pub open spec fn nested(root: Seq<(String, JsonValue)>, outer: Seq<char>, inner: Seq<char>) -> Option<
    JsonValue,
> {
    match lookup(root, outer) {
        Some(o) => json_get(o, inner),
        None => None,
    }
}

/// The usage object: under `usage`, `activePlanDetails.usage` or
/// `plan_detail.usage`, the first present; null when none is.
pub open spec fn usage_spec(root: Seq<(String, JsonValue)>) -> JsonValue {
    match lookup(root, "usage"@) {
        Some(u) => u,
        None => match nested(root, "activePlanDetails"@, "usage"@) {
            Some(u) => u,
            None => match nested(root, "plan_detail"@, "usage"@) {
                Some(u) => u,
                None => JsonValue::Null,
            },
        },
    }
}

/// The plan name: the display name of the `plan` key when it is a string, else the
/// first string among `plan_name`, `plan_title` and `name`.
pub open spec fn plan_name_spec(root: Seq<(String, JsonValue)>) -> Option<Seq<char>> {
    match lookup(root, "plan"@) {
        Some(JsonValue::Str(k)) => Some(display_name_spec(lowercase(k@), k@)),
        _ => first_string_spec(root, seq!["plan_name", "plan_title", "name"]),
    }
}

/// A billing period bound: the root's `top` field, else `subscriptionData.top`,
/// else `next_billing_cycle.cycle`, the first that holds an integer.
pub open spec fn period_spec(root: Seq<(String, JsonValue)>, top: &str, cycle: &str) -> Option<i64> {
    match first_i64_spec(root, seq![top]) {
        Some(n) => Some(n),
        None => match match lookup(root, "subscriptionData"@) {
            Some(s) => first_i64_obj_spec(s, seq![top]),
            None => None,
        } {
            Some(n) => Some(n),
            None => match lookup(root, "next_billing_cycle"@) {
                Some(c) => first_i64_obj_spec(c, seq![cycle]),
                None => None,
            },
        },
    }
}

/// The trial end: `subscriptionData.trail_plan.expiry_date` as Unix seconds.
pub open spec fn trial_expiry_spec(root: Seq<(String, JsonValue)>) -> Option<i64> {
    match nested(root, "subscriptionData"@, "trail_plan"@) {
        Some(tp) => if tp is Null {
            None
        } else {
            match json_get(tp, "expiry_date"@) {
                Some(e) => unix_seconds_spec(e),
                None => None,
            }
        },
        None => None,
    }
}

/// The plan details a plan detail answer's data describes.
pub open spec fn plan_detail_spec(data: JsonValue) -> Result<PlanDetailView, ApiError> {
    match data {
        JsonValue::Object(f) => Ok(
            PlanDetailView {
                plan_name: plan_name_spec(f@),
                subscription_status: first_string_spec(f@, seq!["status", "subscription_status"]),
                current_period_start: period_spec(f@, "current_period_start", "period_start"),
                current_period_end: period_spec(f@, "current_period_end", "period_end"),
                trial_expiry: trial_expiry_spec(f@),
                usage: usage_spec(f@),
            },
        ),
        other => Err(ApiError::PlanShape(other)),
    }
}

fn period_of(fields: &Vec<(String, JsonValue)>, top: &str, cycle: &str) -> (r: Option<i64>)
    ensures
        r == period_spec(fields@, top, cycle),
{
    let keys = [top];
    assert(keys@ =~= seq![top]);
    if let Some(n) = first_i64(fields, &keys) {
        return Some(n);
    }
    let from_subscription = match lookup_field(fields, "subscriptionData") {
        Some(s) => first_i64_obj(s, &keys),
        None => None,
    };
    if let Some(n) = from_subscription {
        return Some(n);
    }
    let cycle_keys = [cycle];
    assert(cycle_keys@ =~= seq![cycle]);
    match lookup_field(fields, "next_billing_cycle") {
        Some(c) => first_i64_obj(c, &cycle_keys),
        None => None,
    }
}

fn trial_expiry_of(fields: &Vec<(String, JsonValue)>) -> (r: Option<i64>)
    ensures
        r == trial_expiry_spec(fields@),
{
    let tp = match lookup_field(fields, "subscriptionData") {
        Some(s) => match s.get("trail_plan") {
            Some(tp) => tp,
            None => {
                return None;
            },
        },
        None => {
            return None;
        },
    };
    if tp.is_null() {
        return None;
    }
    match tp.get("expiry_date") {
        Some(e) => parse_unix_seconds(e),
        None => None,
    }
}

fn has_nested(fields: &Vec<(String, JsonValue)>, outer: &str, inner: &str) -> (r: bool)
    ensures
        r == nested(fields@, outer@, inner@) is Some,
{
    match lookup_field(fields, outer) {
        Some(o) => o.get(inner).is_some(),
        None => false,
    }
}

fn take_nested(fields: Vec<(String, JsonValue)>, outer: &str, inner: &str) -> (r: Option<JsonValue>)
    ensures
        r == nested(fields@, outer@, inner@),
{
    match take_field(fields, outer) {
        Some(o) => take_value(o, inner),
        None => None,
    }
}

fn usage_of(fields: Vec<(String, JsonValue)>) -> (r: JsonValue)
    ensures
        r == usage_spec(fields@),
{
    if find_field(&fields, "usage").is_some() {
        match take_field(fields, "usage") {
            Some(u) => u,
            None => JsonValue::Null,
        }
    } else if has_nested(&fields, "activePlanDetails", "usage") {
        match take_nested(fields, "activePlanDetails", "usage") {
            Some(u) => u,
            None => JsonValue::Null,
        }
    } else {
        match take_nested(fields, "plan_detail", "usage") {
            Some(u) => u,
            None => JsonValue::Null,
        }
    }
}

/// Reads the plan details out of the data of a `getOrgPlanDetail` answer.
pub fn plan_detail_from_data(data: JsonValue) -> (r: Result<PlanDetailResult, ApiError>)
    ensures
        match r {
            Ok(p) => plan_detail_spec(data) == Ok::<PlanDetailView, ApiError>(p@),
            Err(e) => plan_detail_spec(data) == Err::<PlanDetailView, ApiError>(e),
        },
{
    match data {
        JsonValue::Object(fields) => {
            let name_keys = ["plan_name", "plan_title", "name"];
            assert(name_keys@ =~= seq!["plan_name", "plan_title", "name"]);
            let plan_name = match lookup_field(&fields, "plan") {
                Some(JsonValue::Str(k)) => Some(plan_key_to_display_name(k.as_str())),
                _ => first_string(&fields, &name_keys),
            };
            let status_keys = ["status", "subscription_status"];
            assert(status_keys@ =~= seq!["status", "subscription_status"]);
            let subscription_status = first_string(&fields, &status_keys);
            let current_period_start = period_of(&fields, "current_period_start", "period_start");
            let current_period_end = period_of(&fields, "current_period_end", "period_end");
            let trial_expiry = trial_expiry_of(&fields);
            let usage = usage_of(fields);
            let p = PlanDetailResult {
                plan_name,
                subscription_status,
                current_period_start,
                current_period_end,
                trial_expiry,
                usage,
            };
            assert(p@ == plan_detail_spec(data)->Ok_0);
            Ok(p)
        },
        other => Err(ApiError::PlanShape(other)),
    }
}

// ---------------------------------------------------------------------------
// Notification feeds
// ---------------------------------------------------------------------------

/// The items of a notification feed: the data itself when it is an array, else
/// the array under `notifications` or, failing that, under `data`; none for null.
pub open spec fn notification_items_spec(data: JsonValue) -> Result<Seq<JsonValue>, ApiError> {
    match data {
        JsonValue::Array(a) => Ok(a@),
        JsonValue::Object(m) => match lookup(m@, "notifications"@) {
            Some(JsonValue::Array(a)) => Ok(a@),
            _ => match lookup(m@, "data"@) {
                Some(JsonValue::Array(a)) => Ok(a@),
                _ => Err(ApiError::NotificationsShape),
            },
        },
        JsonValue::Null => Ok(Seq::empty()),
        _ => Err(ApiError::NotificationsNotArray),
    }
}

fn holds_array(fields: &Vec<(String, JsonValue)>, key: &str) -> (r: bool)
    ensures
        r == (lookup(fields@, key@) matches Some(JsonValue::Array(_))),
{
    match lookup_field(fields, key) {
        Some(JsonValue::Array(_)) => true,
        _ => false,
    }
}

/// Reads the notification items out of the data of a `getMyNotification` answer.
pub fn notification_items_from_data(data: JsonValue) -> (r: Result<Vec<JsonValue>, ApiError>)
    ensures
        match r {
            Ok(v) => notification_items_spec(data) == Ok::<Seq<JsonValue>, ApiError>(v@),
            Err(e) => notification_items_spec(data) == Err::<Seq<JsonValue>, ApiError>(e),
        },
{
    match data {
        JsonValue::Array(a) => Ok(a),
        JsonValue::Object(m) => {
            if holds_array(&m, "notifications") {
                match take_field(m, "notifications") {
                    Some(JsonValue::Array(a)) => Ok(a),
                    _ => Err(ApiError::NotificationsShape),
                }
            } else if holds_array(&m, "data") {
                match take_field(m, "data") {
                    Some(JsonValue::Array(a)) => Ok(a),
                    _ => Err(ApiError::NotificationsShape),
                }
            } else {
                Err(ApiError::NotificationsShape)
            }
        },
        JsonValue::Null => Ok(Vec::new()),
        _ => Err(ApiError::NotificationsNotArray),
    }
}

} // verus!
