//! Reading the arguments of a tool call. The model sends them as a JSON
//! object in text; `serde_json` parses it. What a field holds is named here
//! and depends on the text and the key alone.
use vstd::prelude::*;

verus! {

/// The text parses as JSON.
pub uninterp spec fn json_valid(text: Seq<char>) -> bool;

/// The string held by field `key` of the JSON object in `text`, if the text
/// parses, is an object, and the field holds a string.
pub uninterp spec fn json_str_field(text: Seq<char>, key: Seq<char>) -> Option<Seq<char>>;

/// The unsigned integer held by field `key` of the JSON object in `text`,
/// if there is one that fits in 64 bits.
pub uninterp spec fn json_u64_field(text: Seq<char>, key: Seq<char>) -> Option<u64>;

/// The items of the array held by field `key` of the JSON object in
/// `text`, each the string it holds or `None` when it holds something else.
pub uninterp spec fn json_str_list_field(text: Seq<char>, key: Seq<char>) -> Option<
    Seq<Option<Seq<char>>>,
>;

/// Whether `text` parses as JSON. Trusted: `serde_json::from_str` into a
/// `Value` succeeds or fails on the text alone; a text it rejects holds no
/// field.
#[verifier::external_body]
pub(crate) fn args_are_json(text: &str) -> (r: bool)
    ensures
        r == json_valid(text@),
{
    serde_json::from_str::<serde_json::Value>(text).is_ok()
}

/// The string field `key` of the arguments. Trusted: `serde_json::from_str`,
/// `Value::get` and `Value::as_str`; a text that does not parse holds no field.
#[verifier::external_body]
pub(crate) fn arg_str(text: &str, key: &str) -> (r: Option<String>)
    ensures
        match r {
            Some(s) => json_str_field(text@, key@) == Some(s@) && json_valid(text@),
            None => json_str_field(text@, key@) is None,
        },
{
    match serde_json::from_str::<serde_json::Value>(text) {
        Ok(v) => match v.get(key) {
            Some(f) => match f.as_str() {
                Some(s) => Some(s.to_string()),
                None => None,
            },
            None => None,
        },
        Err(_) => None,
    }
}

/// The unsigned integer field `key` of the arguments. Trusted:
/// `serde_json::from_str`, `Value::get` and `Value::as_u64`.
#[verifier::external_body]
pub(crate) fn arg_u64(text: &str, key: &str) -> (r: Option<u64>)
    ensures
        r == json_u64_field(text@, key@),
        r is Some ==> json_valid(text@),
{
    match serde_json::from_str::<serde_json::Value>(text) {
        Ok(v) => match v.get(key) {
            Some(f) => f.as_u64(),
            None => None,
        },
        Err(_) => None,
    }
}

/// The array field `key` of the arguments, each item the string it holds
/// or `None`. Trusted: `serde_json::from_str`, `Value::get`,
/// `Value::as_array` and `Value::as_str`.
#[verifier::external_body]
pub(crate) fn arg_str_list(text: &str, key: &str) -> (r: Option<Vec<Option<String>>>)
    ensures
        match r {
            Some(v) => json_str_list_field(text@, key@) == Some(
                v@.map_values(|o: Option<String>| opt_view(o)),
            ) && json_valid(text@),
            None => json_str_list_field(text@, key@) is None,
        },
{
    match serde_json::from_str::<serde_json::Value>(text) {
        Ok(v) => match v.get(key) {
            Some(f) => match f.as_array() {
                Some(items) => Some(
                    items.iter().map(|i| i.as_str().map(|s| s.to_string())).collect(),
                ),
                None => None,
            },
            None => None,
        },
        Err(_) => None,
    }
}

/// The string field `key` of the tool arguments `args`, if there is one.
pub fn string_field(args: &str, key: &str) -> (r: Option<String>)
    ensures
        opt_view(r) == json_str_field(args@, key@),
{
    arg_str(args, key)
}

/// The view of an optional string.
pub open spec fn opt_view(o: Option<String>) -> Option<Seq<char>> {
    match o {
        Some(s) => Some(s@),
        None => None,
    }
}

} // verus!
