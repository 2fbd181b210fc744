//! JSON parsing and reserialization, relied on from serde_json.

use vstd::prelude::*;

verus! {

/// Whether the text parses as a single JSON document.
pub uninterp spec fn json_wf(s: Seq<char>) -> bool;

/// The canonical serialization of the JSON document parsed from `s`
/// (meaningful only where `json_wf(s)` holds).
pub uninterp spec fn json_canon(s: Seq<char>) -> Seq<char>;

/// Relies on `serde_json::from_str::<Value>` and `serde_json::Value`'s
/// `to_string`: parsing succeeds exactly on well-formed JSON text, and the
/// reserialized form of the parsed value depends on the input text alone
/// (the value's object maps are ordered, so serialization is reproducible).
#[verifier::external_body]
pub(crate) fn json_canonical(s: &str) -> (r: Option<String>)
    ensures
        r is Some <==> json_wf(s@),
        r matches Some(c) ==> c@ == json_canon(s@),
{
    match serde_json::from_str::<serde_json::Value>(s) {
        Ok(value) => Some(value.to_string()),
        Err(_) => None,
    }
}

} // verus!
