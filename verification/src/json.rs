//! JSON strings, written and read by `serde_json`.

use vstd::prelude::*;

verus! {

/// What `serde_json::to_string` gives for the string `s`: the JSON string
/// literal for `s`, that is `s` between double quotes with the characters
/// escaped that JSON does not take as they are; `None` where it reports an
/// error.
pub uninterp spec fn json_string(s: Seq<char>) -> Option<Seq<char>>;

/// Calls `serde_json::to_string` on a string. The outcome, the literal or
/// the failure, is given the name [`json_string`]: it depends on the string
/// alone. Nothing else is claimed of it.
#[verifier::external_body]
pub(crate) fn json_quote(s: &str) -> (quoted: Option<String>)
    ensures
        match quoted {
            Some(q) => json_string(s@) == Some(q@),
            None => json_string(s@) is None,
        },
{
    serde_json::to_string(s).ok()
}

/// The string that the JSON object `text` holds under `key`: what
/// `serde_json` reads from `text` as a value, then finds in it under `key`,
/// where that is a string. `None` where `text` is no JSON, where it is no
/// object with such a member, and where the member is no string.
pub uninterp spec fn json_text_field(text: Seq<char>, key: Seq<char>) -> Option<Seq<char>>;

/// Reads `text` with `serde_json::from_str` as a `serde_json::Value`, looks
/// `key` up in it with `Value::get` and takes the string with
/// `Value::as_str`. The outcome is given the name [`json_text_field`];
/// nothing else is claimed of it.
#[verifier::external_body]
pub(crate) fn text_field(text: &str, key: &str) -> (field: Option<String>)
    ensures
        match field {
            Some(f) => json_text_field(text@, key@) == Some(f@),
            None => json_text_field(text@, key@) is None,
        },
{
    let value = serde_json::from_str::<serde_json::Value>(text).ok()?;
    value.get(key)?.as_str().map(String::from)
}

} // verus!
