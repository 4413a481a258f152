//! The JSON answers of the service.
use vstd::prelude::*;

verus! {

/// Whether `serde_json` reads `s` as one JSON value: it refuses malformed
/// text, anything but whitespace after the value, and nesting deeper than
/// its limit.
pub uninterp spec fn is_json(s: Seq<char>) -> bool;

/// The compact JSON text that `serde_json` writes for member `key` of the
/// value it reads from `body`: `null` where the value has no such member.
pub uninterp spec fn member_text_of(body: Seq<char>, key: Seq<char>) -> Seq<char>;

/// Relies on `serde_json::from_str` into a `Value`, on `Index<&str>` for
/// `Value` and on `Display` for `Value`: whether the text reads as JSON, and
/// the text of the member, depend on `body` and `key` alone. The index gives
/// `null` for a missing member and never panics; the parse error is dropped.
#[verifier::external_body]
pub(crate) fn member_text(body: &str, key: &str) -> (r: Option<String>)
    ensures
        r is Some <==> is_json(body@),
        r is Some ==> r->0@ == member_text_of(body@, key@),
{
    match serde_json::from_str::<serde_json::Value>(body) {
        Ok(v) => Some(v[key].to_string()),
        Err(_) => None,
    }
}

} // verus!
