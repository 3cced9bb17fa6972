//! JSON values, held as `serde_json::Value` and read through a few trusted
//! accessors. A value is described by what those accessors can observe of it:
//! its top-level member names, the members that read as an `i64` or as a
//! string, and the same of each member. A JSON text is described by the same
//! observations of the value it parses to.
use vstd::prelude::*;

verus! {

#[verifier::external_type_specification]
#[verifier::external_body]
pub struct ExValue(serde_json::Value);

/// Relies on `Value`'s `Clone`: the copy is the same JSON value.
pub assume_specification[ <serde_json::Value as Clone>::clone ](v: &serde_json::Value) -> (r: serde_json::Value)
    ensures
        r == *v,
;

/// The names of the members of an object value (empty for any other value).
pub uninterp spec fn json_keys(v: serde_json::Value) -> Set<Seq<char>>;

/// The members of an object value that hold an integer representable as `i64`.
pub uninterp spec fn json_ints(v: serde_json::Value) -> Map<Seq<char>, i64>;

/// The members of an object value that hold a string.
pub uninterp spec fn json_strs(v: serde_json::Value) -> Map<Seq<char>, Seq<char>>;

/// The contents of a value that is itself a string.
pub uninterp spec fn json_as_str(v: serde_json::Value) -> Option<Seq<char>>;

/// The number a value that is itself an integer representable as `i64` holds.
pub uninterp spec fn json_as_i64(v: serde_json::Value) -> Option<i64>;

/// Whether a value is an object.
pub uninterp spec fn json_is_object(v: serde_json::Value) -> bool;

/// The integer members (as `json_ints`) of the member `key` of a value;
/// empty when there is no such member.
pub uninterp spec fn nested_ints(v: serde_json::Value, key: Seq<char>) -> Map<Seq<char>, i64>;

/// The string members (as `json_strs`) of the member `key` of a value;
/// empty when there is no such member.
pub uninterp spec fn nested_strs(v: serde_json::Value, key: Seq<char>) -> Map<Seq<char>, Seq<char>>;

/// The member names of the value a JSON text parses to.
pub uninterp spec fn text_keys(s: Seq<char>) -> Set<Seq<char>>;

/// The integer members of the value a JSON text parses to.
pub uninterp spec fn text_ints(s: Seq<char>) -> Map<Seq<char>, i64>;

/// The string members of the value a JSON text parses to.
pub uninterp spec fn text_strs(s: Seq<char>) -> Map<Seq<char>, Seq<char>>;

/// The integer members of the member `key` of the value a JSON text parses to.
pub uninterp spec fn text_nested_ints(s: Seq<char>, key: Seq<char>) -> Map<Seq<char>, i64>;

/// The string members of the member `key` of the value a JSON text parses to.
pub uninterp spec fn text_nested_strs(s: Seq<char>, key: Seq<char>) -> Map<Seq<char>, Seq<char>>;

/// Whether `serde_json` accepts a text as one JSON value (well-formed,
/// and nested no deeper than its recursion limit).
pub uninterp spec fn is_json_text(s: Seq<char>) -> bool;

/// A lower-case hexadecimal digit.
pub open spec fn hex_digit(d: u32) -> char {
    if d == 0 { '0' } else if d == 1 { '1' } else if d == 2 { '2' } else if d == 3 { '3' }
    else if d == 4 { '4' } else if d == 5 { '5' } else if d == 6 { '6' } else if d == 7 { '7' }
    else if d == 8 { '8' } else if d == 9 { '9' } else if d == 10 { 'a' } else if d == 11 { 'b' }
    else if d == 12 { 'c' } else if d == 13 { 'd' } else if d == 14 { 'e' } else { 'f' }
}

/// How a character is written inside a JSON string literal: quote and
/// backslash escaped, the five usual control characters by letter, the other
/// control characters below U+0020 as `\u00XX`, the rest as they are.
pub open spec fn json_escape(c: char) -> Seq<char> {
    if c == '"' {
        seq!['\\', '"']
    } else if c == '\\' {
        seq!['\\', '\\']
    } else if c == '\u{8}' {
        seq!['\\', 'b']
    } else if c == '\t' {
        seq!['\\', 't']
    } else if c == '\n' {
        seq!['\\', 'n']
    } else if c == '\u{c}' {
        seq!['\\', 'f']
    } else if c == '\r' {
        seq!['\\', 'r']
    } else if (c as u32) < 0x20 {
        seq!['\\', 'u', '0', '0', hex_digit((c as u32) / 16), hex_digit((c as u32) % 16)]
    } else {
        seq![c]
    }
}

/// A text with each character escaped for a JSON string literal.
pub open spec fn json_escaped(s: Seq<char>) -> Seq<char>
    decreases s.len(),
{
    if s.len() == 0 {
        Seq::empty()
    } else {
        json_escaped(s.drop_last()) + json_escape(s.last())
    }
}

/// The JSON string literal that stands for a text: the escaped text in quotes.
pub open spec fn json_quoted(s: Seq<char>) -> Seq<char> {
    seq!['"'] + json_escaped(s) + seq!['"']
}

/// Relies on `serde_json::from_str::<Value>`: whether it succeeds, and the
/// value it gives, depend on the text alone; on failure the error is rendered
/// as text.
#[verifier::external_body]
pub(crate) fn parse_json(text: &str) -> (r: Result<serde_json::Value, String>)
    ensures
        r is Ok <==> is_json_text(text@),
        r matches Ok(v) ==> json_keys(v) == text_keys(text@) && json_ints(v) == text_ints(text@)
            && json_strs(v) == text_strs(text@)
            && (forall|k: Seq<char>| #[trigger] nested_ints(v, k) == text_nested_ints(text@, k))
            && (forall|k: Seq<char>| #[trigger] nested_strs(v, k) == text_nested_strs(text@, k)),
{
    serde_json::from_str::<serde_json::Value>(text).map_err(|e| e.to_string())
}

/// Relies on `Value::get` with a string key followed by `Value::as_i64`.
#[verifier::external_body]
pub(crate) fn get_i64(v: &serde_json::Value, key: &str) -> (r: Option<i64>)
    ensures
        json_ints(*v).contains_key(key@) ==> r == Some(json_ints(*v)[key@]),
        !json_ints(*v).contains_key(key@) ==> r is None,
{
    v.get(key).and_then(serde_json::Value::as_i64)
}

/// Relies on `Value::get` with a string key followed by `Value::as_str`.
#[verifier::external_body]
pub(crate) fn get_str(v: &serde_json::Value, key: &str) -> (r: Option<String>)
    ensures
        match r {
            Some(s) => json_strs(*v).contains_key(key@) && json_strs(*v)[key@] == s@,
            None => !json_strs(*v).contains_key(key@),
        },
{
    v.get(key).and_then(serde_json::Value::as_str).map(String::from)
}

/// Relies on `Value::get` with a string key: a copy of the member, if present.
#[verifier::external_body]
pub(crate) fn get_member(v: &serde_json::Value, key: &str) -> (r: Option<serde_json::Value>)
    ensures
        r is Some <==> json_keys(*v).contains(key@),
        r matches Some(m) ==> json_ints(m) == nested_ints(*v, key@) && json_strs(m) == nested_strs(*v, key@),
{
    v.get(key).cloned()
}

/// Relies on `Value::get`: a reference to the member, if present.
#[verifier::external_body]
pub(crate) fn member_ref<'a>(v: &'a serde_json::Value, key: &str) -> (r: Option<&'a serde_json::Value>)
    ensures
        r is Some <==> json_keys(*v).contains(key@),
{
    v.get(key)
}

/// Relies on `Value::get_mut`: a mutable reference to the member, if present.
#[verifier::external_body]
pub(crate) fn member_mut<'a>(v: &'a mut serde_json::Value, key: &str) -> (r: Option<&'a mut serde_json::Value>)
    ensures
        r is Some <==> json_keys(*old(v)).contains(key@),
{
    v.get_mut(key)
}

/// Relies on `Value::as_str`.
#[verifier::external_body]
pub(crate) fn value_as_str(v: &serde_json::Value) -> (r: Option<String>)
    ensures
        match r {
            Some(s) => json_as_str(*v) == Some(s@),
            None => json_as_str(*v) is None,
        },
{
    v.as_str().map(String::from)
}

/// Relies on `Value::from(String)`: a string value.
#[verifier::external_body]
pub(crate) fn json_string(s: String) -> (r: serde_json::Value)
    ensures
        json_as_str(r) == Some(s@),
        json_as_i64(r) is None,
{
    serde_json::Value::from(s)
}

/// Relies on `Value::from(i64)`: a number value, which is no string.
#[verifier::external_body]
pub(crate) fn json_int(n: i64) -> (r: serde_json::Value)
    ensures
        json_as_str(r) is None,
        json_as_i64(r) == Some(n),
{
    serde_json::Value::from(n)
}

/// Relies on `Value::from(bool)`: a boolean value, which is no string.
#[verifier::external_body]
pub(crate) fn json_bool(b: bool) -> (r: serde_json::Value)
    ensures
        json_as_str(r) is None,
        json_as_i64(r) is None,
{
    serde_json::Value::from(b)
}

/// Relies on collecting pairs into a `serde_json::Map`: an object whose
/// member names are the names given; of a name given twice, the later value
/// stays.
#[verifier::external_body]
pub(crate) fn json_object(members: Vec<(String, serde_json::Value)>) -> (r: serde_json::Value)
    ensures
        json_is_object(r),
        json_keys(r) == members@.map_values(|m: (String, serde_json::Value)| m.0@).to_set(),
        forall|i: int| 0 <= i < members@.len()
            && (forall|j: int| i < j < members@.len() ==> members@[j].0@ != members@[i].0@) ==> {
            &&& (json_as_i64(#[trigger] members@[i].1) matches Some(n) ==> json_ints(r).contains_key(members@[i].0@)
                && json_ints(r)[members@[i].0@] == n)
            &&& (json_as_i64(members@[i].1) is None ==> !json_ints(r).contains_key(members@[i].0@))
            &&& (json_as_str(members@[i].1) matches Some(t) ==> json_strs(r).contains_key(members@[i].0@)
                && json_strs(r)[members@[i].0@] == t)
            &&& (json_as_str(members@[i].1) is None ==> !json_strs(r).contains_key(members@[i].0@))
        },
{
    serde_json::Value::Object(members.into_iter().collect())
}

/// Relies on `serde_json::to_string` on a `&str`, which cannot fail: the
/// quoted, escaped JSON literal of the text.
#[verifier::external_body]
pub(crate) fn quote_json(s: &str) -> (r: String)
    ensures
        r@ == json_quoted(s@),
{
    match serde_json::to_string(s) {
        Ok(t) => t,
        Err(_) => String::new(),
    }
}

} // verus!
