//! A plain-value model of JSON documents.
//!
//! Protocol frames travel as JSON text. The logic of this crate never reads
//! an outside JSON type: text is turned into a [`JsonValue`] tree at the
//! boundary, every rule and every dispatch is verified code over that tree,
//! and a tree is turned back into text only when a frame is sent. Numbers
//! are kept as `i64`: every numeric field of the protocol is a small
//! non-negative integer, and a number outside `i64` is treated as absent.

use vstd::prelude::*;
use vstd::string::StringSliceAdditionalSpecFns;

verus! {

/// A JSON document as plain values. An object holds its entries as a
/// list and a lookup takes the first entry with a matching key; a
/// document built by this crate keeps its insertion order, while one
/// that came through the parsing boundary arrives with the parser's
/// canonical order and duplicate keys collapsed.
#[derive(Debug, PartialEq)]
pub enum JsonValue {
    Null,
    Bool(bool),
    Int(i64),
    Str(String),
    Arr(Vec<JsonValue>),
    Obj(Vec<(String, JsonValue)>),
}

/// First value bound to `key` among `entries`, if any.
pub open spec fn spec_lookup(entries: Seq<(String, JsonValue)>, key: Seq<char>) -> Option<
    JsonValue,
>
    decreases entries.len(),
{
    if entries.len() == 0 {
        None
    } else if entries[0].0@ == key {
        Some(entries[0].1)
    } else {
        spec_lookup(entries.skip(1), key)
    }
}

/// The string held by a `Str` field of an object, if the field is there
/// and holds a string.
pub open spec fn spec_str_field(entries: Seq<(String, JsonValue)>, key: Seq<char>) -> Option<
    Seq<char>,
> {
    match spec_lookup(entries, key) {
        Some(JsonValue::Str(s)) => Some(s@),
        _ => None,
    }
}

/// The integer held by an `Int` field of an object, if the field is there
/// and holds an integer.
pub open spec fn spec_int_field(entries: Seq<(String, JsonValue)>, key: Seq<char>) -> Option<i64> {
    match spec_lookup(entries, key) {
        Some(JsonValue::Int(i)) => Some(i),
        _ => None,
    }
}

/// The integer held by an `Int` field, when it fits in `u32`.
pub open spec fn spec_u32_field(entries: Seq<(String, JsonValue)>, key: Seq<char>) -> Option<u32> {
    match spec_int_field(entries, key) {
        Some(i) => if 0 <= i <= u32::MAX {
            Some(i as u32)
        } else {
            None
        },
        None => None,
    }
}

/// Byte-wise string equality, which for UTF-8 text is equality of the
/// character sequences.
pub fn str_eq(a: &str, b: &str) -> (r: bool)
    ensures
        r == (a@ == b@),
{
    let ab = a.as_bytes();
    let bb = b.as_bytes();
    if ab.len() != bb.len() {
        proof {
            assert(a@ != b@);
        }
        return false;
    }
    let n = ab.len();
    let mut i: usize = 0;
    while i < n
        invariant
            n == ab@.len() == bb@.len(),
            ab@ == a.spec_bytes(),
            bb@ == b.spec_bytes(),
            0 <= i <= n,
            forall|j: int| 0 <= j < i ==> ab@[j] == bb@[j],
        decreases n - i,
    {
        if ab[i] != bb[i] {
            proof {
                assert(a.spec_bytes() != b.spec_bytes());
            }
            return false;
        }
        i = i + 1;
    }
    proof {
        assert(ab@ =~= bb@);
        vstd::utf8::encode_utf8_decode_utf8(a@);
        vstd::utf8::encode_utf8_decode_utf8(b@);
    }
    true
}

impl JsonValue {
    /// True of the `Null` variant.
    pub fn is_null(&self) -> (r: bool)
        ensures
            r == (self is Null),
    {
        match self {
            JsonValue::Null => true,
            _ => false,
        }
    }

    /// The held string, when this value is a string.
    pub fn as_str(&self) -> (r: Option<&String>)
        ensures
            match r {
                Some(s) => *self == JsonValue::Str(*s),
                None => !(self is Str),
            },
    {
        match self {
            JsonValue::Str(s) => Some(s),
            _ => None,
        }
    }

    /// The held integer, when this value is an integer.
    pub fn as_int(&self) -> (r: Option<i64>)
        ensures
            match r {
                Some(i) => *self == JsonValue::Int(i),
                None => !(self is Int),
            },
    {
        match self {
            JsonValue::Int(i) => Some(*i),
            _ => None,
        }
    }

    /// The held entries, when this value is an object.
    pub fn as_obj(&self) -> (r: Option<&Vec<(String, JsonValue)>>)
        ensures
            match r {
                Some(es) => *self == JsonValue::Obj(*es),
                None => !(self is Obj),
            },
    {
        match self {
            JsonValue::Obj(es) => Some(es),
            _ => None,
        }
    }

    /// The held elements, when this value is an array.
    pub fn as_arr(&self) -> (r: Option<&Vec<JsonValue>>)
        ensures
            match r {
                Some(es) => *self == JsonValue::Arr(*es),
                None => !(self is Arr),
            },
    {
        match self {
            JsonValue::Arr(es) => Some(es),
            _ => None,
        }
    }
}

/// First value bound to `key` among `entries`, if any.
pub fn lookup<'a>(entries: &'a Vec<(String, JsonValue)>, key: &str) -> (r: Option<&'a JsonValue>)
    ensures
        match r {
            Some(v) => spec_lookup(entries@, key@) == Some(*v),
            None => spec_lookup(entries@, key@) is None,
        },
{
    let n = entries.len();
    let mut i: usize = 0;
    proof {
        assert(entries@.skip(0) =~= entries@);
    }
    while i < n
        invariant
            n == entries@.len(),
            0 <= i <= n,
            spec_lookup(entries@, key@) == spec_lookup(entries@.skip(i as int), key@),
        decreases n - i,
    {
        proof {
            assert(entries@.skip(i as int)[0] == entries@[i as int]);
            assert(entries@.skip(i as int).skip(1) =~= entries@.skip(i + 1));
        }
        if str_eq(entries[i].0.as_str(), key) {
            return Some(&entries[i].1);
        }
        i = i + 1;
    }
    proof {
        assert(entries@.skip(n as int).len() == 0);
    }
    None
}

/// What `serde_json` makes of a byte sequence: the parsed document as a
/// [`JsonValue`], or `None` when the bytes are not valid JSON. The result
/// is a function of the bytes alone.
pub uninterp spec fn parsed_json(text: Seq<u8>) -> Option<JsonValue>;

/// The JSON text that `serde_json` writes for a [`JsonValue`]. The result
/// is a function of the value alone.
pub uninterp spec fn dumped_json(v: JsonValue) -> Seq<char>;

#[verifier::external_type_specification]
#[verifier::external_body]
pub struct ExValue(serde_json::Value);

/// Relies on the public variants of `serde_json::Value`: each maps to the
/// matching [`JsonValue`] arm, a number through `Number::as_i64` (a number
/// outside `i64` becomes `Null`), arrays and objects element by element in
/// order. Called only from the parsing boundary below.
#[verifier::external_body]
fn lift(v: &serde_json::Value) -> JsonValue {
    match v {
        serde_json::Value::Null => JsonValue::Null,
        serde_json::Value::Bool(b) => JsonValue::Bool(*b),
        serde_json::Value::Number(n) => match n.as_i64() {
            Some(i) => JsonValue::Int(i),
            None => JsonValue::Null,
        },
        serde_json::Value::String(s) => JsonValue::Str(s.clone()),
        serde_json::Value::Array(a) => JsonValue::Arr(a.iter().map(lift).collect()),
        serde_json::Value::Object(o) => JsonValue::Obj(
            o.iter().map(|(k, x)| (k.clone(), lift(x))).collect(),
        ),
    }
}

/// Relies on the public constructors of `serde_json::Value`: the reverse of
/// [`lift`], one arm per [`JsonValue`] variant. Called only from the
/// serialising boundary below.
#[verifier::external_body]
fn lower(v: &JsonValue) -> serde_json::Value {
    match v {
        JsonValue::Null => serde_json::Value::Null,
        JsonValue::Bool(b) => serde_json::Value::Bool(*b),
        JsonValue::Int(i) => serde_json::Value::Number(serde_json::Number::from(*i)),
        JsonValue::Str(s) => serde_json::Value::String(s.clone()),
        JsonValue::Arr(a) => serde_json::Value::Array(a.iter().map(lower).collect()),
        JsonValue::Obj(o) => serde_json::Value::Object(
            o.iter().map(|(k, x)| (k.clone(), lower(x))).collect(),
        ),
    }
}

/// Relies on `serde_json::from_slice::<Value>`: `Some` exactly when the
/// bytes are a valid JSON document, and then the document itself, lifted
/// into the crate's model by [`lift`].
#[verifier::external_body]
pub(crate) fn json_parse(text: &[u8]) -> (r: Option<JsonValue>)
    ensures
        r == parsed_json(text@),
{
    serde_json::from_slice::<serde_json::Value>(text).ok().map(|v| lift(&v))
}

/// Relies on `serde_json::to_string`: the canonical one-line JSON text of
/// the value, lowered out of the crate's model by [`lower`]. Writing a
/// `Value` cannot fail.
#[verifier::external_body]
pub(crate) fn json_dump(v: &JsonValue) -> (r: String)
    ensures
        r@ == dumped_json(*v),
{
    serde_json::to_string(&lower(v)).unwrap_or_default()
}

/// A lookup finds the first entry whose key matches.
pub proof fn lemma_lookup_index(es: Seq<(String, JsonValue)>, key: Seq<char>, i: int)
    requires
        0 <= i < es.len(),
        es[i].0@ == key,
        forall|j: int| 0 <= j < i ==> (#[trigger] es[j]).0@ != key,
    ensures
        spec_lookup(es, key) == Some(es[i].1),
    decreases i,
{
    reveal_with_fuel(spec_lookup, 2);
    if i == 0 {
    } else {
        assert(es[0].0@ != key);
        let rest = es.skip(1);
        assert(rest[i - 1] == es[i]);
        assert(forall|j: int| 0 <= j < i - 1 ==> (#[trigger] rest[j]) == es[j + 1]);
        lemma_lookup_index(rest, key, i - 1);
    }
}

/// A lookup over entries none of which carries the key finds nothing.
pub proof fn lemma_lookup_none(es: Seq<(String, JsonValue)>, key: Seq<char>)
    requires
        forall|j: int| 0 <= j < es.len() ==> (#[trigger] es[j]).0@ != key,
    ensures
        spec_lookup(es, key) is None,
    decreases es.len(),
{
    reveal_with_fuel(spec_lookup, 2);
    if es.len() == 0 {
    } else {
        let rest = es.skip(1);
        assert(forall|j: int| 0 <= j < rest.len() ==> (#[trigger] rest[j]) == es[j + 1]);
        lemma_lookup_none(rest, key);
    }
}

} // verus!
