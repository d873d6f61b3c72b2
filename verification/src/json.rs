//! A JSON document model and the lookups the YourGPT responses are read with:
//! field access, first-present-key probing, and coercion of numbers and
//! numeric strings to Unix timestamps.
use vstd::prelude::*;

use crate::text::{chars_of, parse_i64, parse_i64_spec};

verus! {

/// A JSON value. Objects keep their fields in order; a lookup finds the first
/// field with the key.
pub enum JsonValue {
    Null,
    Bool(bool),
    /// A non-negative integer.
    PosInt(u64),
    /// A negative integer.
    NegInt(i64),
    /// A number with a fraction or an exponent, held as its JSON text.
    Float(String),
    Str(String),
    Array(Vec<JsonValue>),
    Object(Vec<(String, JsonValue)>),
}

/// The value of the first field of `fields` whose key is `key`.
pub open spec fn lookup(fields: Seq<(String, JsonValue)>, key: Seq<char>) -> Option<JsonValue>
    decreases fields.len(),
{
    if fields.len() == 0 {
        None
    } else if fields[0].0@ == key {
        Some(fields[0].1)
    } else {
        lookup(fields.drop_first(), key)
    }
}

/// Looking up a key after appending a field finds the earlier field when there is
/// one, else the appended field when it has the key.
pub proof fn lemma_lookup_push(fields: Seq<(String, JsonValue)>, p: (String, JsonValue), key: Seq<char>)
    ensures
        lookup(fields.push(p), key) == match lookup(fields, key) {
            Some(v) => Some(v),
            None => if p.0@ == key {
                Some(p.1)
            } else {
                None
            },
        },
    decreases fields.len(),
{
    if fields.len() > 0 {
        assert(fields.push(p)[0] == fields[0]);
        assert(fields.push(p).drop_first() =~= fields.drop_first().push(p));
        lemma_lookup_push(fields.drop_first(), p, key);
    } else {
        assert(fields.push(p)[0] == p);
        assert(fields.push(p).drop_first() =~= Seq::<(String, JsonValue)>::empty());
        assert(lookup(Seq::<(String, JsonValue)>::empty(), key) is None);
    }
}

/// `v[key]` for an object `v`; nothing for any other value.
pub open spec fn json_get(v: JsonValue, key: Seq<char>) -> Option<JsonValue> {
    match v {
        JsonValue::Object(fields) => lookup(fields@, key),
        _ => None,
    }
}

/// The integer a value holds when it fits in an `i64` (serde_json's `Value::as_i64`).
pub open spec fn json_as_i64(v: JsonValue) -> Option<i64> {
    match v {
        JsonValue::PosInt(n) => if n <= i64::MAX as u64 {
            Some(n as i64)
        } else {
            None
        },
        JsonValue::NegInt(n) => Some(n),
        _ => None,
    }
}

/// The text of a string value (serde_json's `Value::as_str`).
pub open spec fn json_as_text(v: JsonValue) -> Option<Seq<char>> {
    match v {
        JsonValue::Str(s) => Some(s@),
        _ => None,
    }
}

/// A borrowed optional value, read as a value.
pub open spec fn opt_ref(r: Option<&JsonValue>) -> Option<JsonValue> {
    match r {
        Some(x) => Some(*x),
        None => None,
    }
}

/// Whether two texts hold the same characters.
pub fn text_eq(a: &str, b: &str) -> (r: bool)
    ensures
        r == (a@ == b@),
{
    let x = chars_of(a);
    let y = chars_of(b);
    if x.len() != y.len() {
        return false;
    }
    let mut i: usize = 0;
    while i < x.len()
        invariant
            x@ == a@,
            y@ == b@,
            x@.len() == y@.len(),
            0 <= i <= x@.len(),
            forall|k: int| 0 <= k < i ==> x@[k] == y@[k],
        decreases x@.len() - i,
    {
        if x[i] != y[i] {
            return false;
        }
        i = i + 1;
    }
    assert(x@ =~= y@);
    true
}

/// The index of the first field of `fields` whose key is `key`.
pub fn find_field(fields: &Vec<(String, JsonValue)>, key: &str) -> (r: Option<usize>)
    ensures
        match r {
            Some(i) => i < fields@.len() && lookup(fields@, key@) == Some(fields@[i as int].1),
            None => lookup(fields@, key@) is None,
        },
{
    let n = fields.len();
    let mut i: usize = 0;
    assert(fields@.subrange(0, n as int) =~= fields@);
    while i < n
        invariant
            n == fields@.len(),
            0 <= i <= n,
            lookup(fields@, key@) == lookup(fields@.subrange(i as int, n as int), key@),
        decreases n - i,
    {
        let ghost rest = fields@.subrange(i as int, n as int);
        assert(rest[0] == fields@[i as int]);
        if text_eq(fields[i].0.as_str(), key) {
            return Some(i);
        }
        assert(rest.drop_first() =~= fields@.subrange(i + 1, n as int));
        i = i + 1;
    }
    None
}

/// The first field of `fields` whose key is `key`.
pub fn lookup_field<'a>(fields: &'a Vec<(String, JsonValue)>, key: &str) -> (r: Option<
    &'a JsonValue,
>)
    ensures
        opt_ref(r) == lookup(fields@, key@),
{
    match find_field(fields, key) {
        Some(i) => Some(&fields[i].1),
        None => None,
    }
}

/// Moves out the value of the first field of `fields` whose key is `key`.
pub fn take_field(fields: Vec<(String, JsonValue)>, key: &str) -> (r: Option<JsonValue>)
    ensures
        r == lookup(fields@, key@),
{
    match find_field(&fields, key) {
        Some(i) => {
            let mut fields = fields;
            let (_, v) = fields.remove(i);
            Some(v)
        },
        None => None,
    }
}

/// Moves out `v[key]` when `v` is an object.
pub fn take_value(v: JsonValue, key: &str) -> (r: Option<JsonValue>)
    ensures
        r == json_get(v, key@),
{
    match v {
        JsonValue::Object(fields) => take_field(fields, key),
        _ => None,
    }
}

impl JsonValue {
    /// `self[key]` when `self` is an object (serde_json's `Value::get` with a key).
    pub fn get<'a>(&'a self, key: &str) -> (r: Option<&'a JsonValue>)
        ensures
            opt_ref(r) == json_get(*self, key@),
    {
        match self {
            JsonValue::Object(fields) => lookup_field(fields, key),
            _ => None,
        }
    }

    /// The integer held when it fits in an `i64`.
    pub fn as_i64(&self) -> (r: Option<i64>)
        ensures
            r == json_as_i64(*self),
    {
        match self {
            JsonValue::PosInt(n) => if *n <= 9223372036854775807u64 {
                Some(*n as i64)
            } else {
                None
            },
            JsonValue::NegInt(n) => Some(*n),
            _ => None,
        }
    }

    /// The text of a string value.
    pub fn as_text(&self) -> (r: Option<&str>)
        ensures
            match r {
                Some(s) => json_as_text(*self) == Some(s@),
                None => json_as_text(*self) is None,
            },
    {
        match self {
            JsonValue::Str(s) => Some(s.as_str()),
            _ => None,
        }
    }

    /// Whether the value is `null`.
    pub fn is_null(&self) -> (r: bool)
        ensures
            r == (*self is Null),
    {
        match self {
            JsonValue::Null => true,
            _ => false,
        }
    }
}

/// The text of the first key in `keys` whose field holds a string.
pub open spec fn first_string_spec(fields: Seq<(String, JsonValue)>, keys: Seq<&str>) -> Option<
    Seq<char>,
>
    decreases keys.len(),
{
    if keys.len() == 0 {
        None
    } else {
        match lookup(fields, keys[0]@) {
            Some(JsonValue::Str(s)) => Some(s@),
            _ => first_string_spec(fields, keys.drop_first()),
        }
    }
}

/// The integer a field holds: an `i64` number, or a string that parses as one.
pub open spec fn field_i64(v: JsonValue) -> Option<i64> {
    match json_as_i64(v) {
        Some(n) => Some(n),
        None => match v {
            JsonValue::Str(s) => parse_i64_spec(s@),
            _ => None,
        },
    }
}

/// The integer of the first key in `keys` whose field holds one.
pub open spec fn first_i64_spec(fields: Seq<(String, JsonValue)>, keys: Seq<&str>) -> Option<i64>
    decreases keys.len(),
{
    if keys.len() == 0 {
        None
    } else {
        match lookup(fields, keys[0]@) {
            Some(v) => match field_i64(v) {
                Some(n) => Some(n),
                None => first_i64_spec(fields, keys.drop_first()),
            },
            None => first_i64_spec(fields, keys.drop_first()),
        }
    }
}

/// `first_i64_spec` over an object value; nothing for any other value.
pub open spec fn first_i64_obj_spec(v: JsonValue, keys: Seq<&str>) -> Option<i64> {
    match v {
        JsonValue::Object(fields) => first_i64_spec(fields@, keys),
        _ => None,
    }
}

/// The text of the first key in `keys` whose field is a string.
pub fn first_string(fields: &Vec<(String, JsonValue)>, keys: &[&str]) -> (r: Option<String>)
    ensures
        r.deep_view() == first_string_spec(fields@, keys@),
{
    let n = keys.len();
    let mut i: usize = 0;
    assert(keys@.subrange(0, n as int) =~= keys@);
    while i < n
        invariant
            n == keys@.len(),
            0 <= i <= n,
            first_string_spec(fields@, keys@) == first_string_spec(
                fields@,
                keys@.subrange(i as int, n as int),
            ),
        decreases n - i,
    {
        let ghost rest = keys@.subrange(i as int, n as int);
        assert(rest[0] == keys@[i as int]);
        assert(rest.drop_first() =~= keys@.subrange(i + 1, n as int));
        match lookup_field(fields, keys[i]) {
            Some(JsonValue::Str(s)) => {
                return Some(s.clone());
            },
            _ => {},
        }
        i = i + 1;
    }
    None
}

/// The integer a field holds: an `i64` number, or a string that parses as one.
pub fn i64_of_field(v: &JsonValue) -> (r: Option<i64>)
    ensures
        r == field_i64(*v),
{
    match v.as_i64() {
        Some(n) => Some(n),
        None => match v {
            JsonValue::Str(s) => parse_i64(s.as_str()),
            _ => None,
        },
    }
}

/// The integer of the first key in `keys` whose field holds one.
pub fn first_i64(fields: &Vec<(String, JsonValue)>, keys: &[&str]) -> (r: Option<i64>)
    ensures
        r == first_i64_spec(fields@, keys@),
{
    let n = keys.len();
    let mut i: usize = 0;
    assert(keys@.subrange(0, n as int) =~= keys@);
    while i < n
        invariant
            n == keys@.len(),
            0 <= i <= n,
            first_i64_spec(fields@, keys@) == first_i64_spec(
                fields@,
                keys@.subrange(i as int, n as int),
            ),
        decreases n - i,
    {
        let ghost rest = keys@.subrange(i as int, n as int);
        assert(rest[0] == keys@[i as int]);
        assert(rest.drop_first() =~= keys@.subrange(i + 1, n as int));
        match lookup_field(fields, keys[i]) {
            Some(v) => match i64_of_field(v) {
                Some(x) => {
                    return Some(x);
                },
                None => {},
            },
            None => {},
        }
        i = i + 1;
    }
    None
}

/// `first_i64` over an object value; nothing for any other value.
pub fn first_i64_obj(v: &JsonValue, keys: &[&str]) -> (r: Option<i64>)
    ensures
        r == first_i64_obj_spec(*v, keys@),
{
    match v {
        JsonValue::Object(fields) => first_i64(fields, keys),
        _ => None,
    }
}

// ---------------------------------------------------------------------------
// Unix timestamps
// ---------------------------------------------------------------------------

/// What chrono's `DateTime::parse_from_rfc3339` followed by `timestamp` gives for
/// a text: the Unix seconds of an RFC 3339 date-time, or nothing when the text is
/// not one. A function of the text alone.
pub uninterp spec fn rfc3339_seconds(s: Seq<char>) -> Option<i64>;

/// chrono's `DateTime::parse_from_rfc3339`, read as Unix seconds. Trusted: the
/// result is `rfc3339_seconds` of the text; which texts parse is left unstated.
#[verifier::external_body]
fn parse_rfc3339_seconds(s: &str) -> (r: Option<i64>)
    ensures
        r == rfc3339_seconds(s@),
{
    chrono::DateTime::parse_from_rfc3339(s).ok().map(|dt| dt.timestamp())
}

/// Values above this are read as milliseconds.
pub const MILLIS_CUTOFF: i64 = 1_000_000_000_000;

/// A timestamp in seconds: one that looks like JavaScript milliseconds is divided by 1000.
pub open spec fn seconds_from(n: i64) -> i64 {
    if n > MILLIS_CUTOFF {
        (n / 1000) as i64
    } else {
        n
    }
}

/// What a JSON value says as Unix seconds: an integer (seconds, or milliseconds
/// when above the cutoff), a string holding one, or an RFC 3339 date-time string.
pub open spec fn unix_seconds_spec(v: JsonValue) -> Option<i64> {
    match json_as_i64(v) {
        Some(n) => Some(seconds_from(n)),
        None => match v {
            JsonValue::Str(s) => match parse_i64_spec(s@) {
                Some(n) => Some(seconds_from(n)),
                None => rfc3339_seconds(s@),
            },
            _ => None,
        },
    }
}

fn normalize_seconds(n: i64) -> (r: i64)
    ensures
        r == seconds_from(n),
{
    if n > MILLIS_CUTOFF {
        n / 1000
    } else {
        n
    }
}

/// Coerces a JSON value to Unix seconds.
pub fn parse_unix_seconds(v: &JsonValue) -> (r: Option<i64>)
    ensures
        r == unix_seconds_spec(*v),
{
    if let Some(n) = v.as_i64() {
        return Some(normalize_seconds(n));
    }
    match v {
        JsonValue::Str(s) => {
            if let Some(n) = parse_i64(s.as_str()) {
                return Some(normalize_seconds(n));
            }
            parse_rfc3339_seconds(s.as_str())
        },
        _ => None,
    }
}

} // verus!
