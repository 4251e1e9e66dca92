//! The parts of `serde_json` that the crate relies on.
//!
//! JSON values are carried through the crate unread. The few questions that
//! are asked about them are answered by `serde_json` itself; the contracts
//! in this module state what is assumed of its answers, and nothing here is
//! proved.

use vstd::prelude::*;

verus! {

/// `serde_json::Value`: a JSON value of any shape, carried as it is.
#[verifier::external_type_specification]
#[verifier::external_body]
pub struct ExValue(serde_json::Value);

/// `serde_json::Map`: the members of a JSON object, carried as they are.
#[verifier::external_type_specification]
#[verifier::external_body]
#[verifier::reject_recursive_types(K)]
#[verifier::reject_recursive_types(V)]
pub struct ExMembers<K, V>(serde_json::Map<K, V>);

/// The JSON value that a text denotes: what `serde_json::from_str` decodes
/// from it, or `None` where it reports an error.
pub uninterp spec fn json_document(text: Seq<char>) -> Option<serde_json::Value>;

/// The member names of a JSON object: the keys for which `Value::get`
/// finds a member. A value that is no object has none.
pub uninterp spec fn json_keys(value: serde_json::Value) -> Set<Seq<char>>;

/// Decodes a text with `serde_json::from_str` into a `Value`.
///
/// Assumed: the outcome depends on the text alone; it is the value that
/// `json_document` names, and `None` where decoding fails.
#[verifier::external_body]
pub(crate) fn parse_json(text: &str) -> (parsed: Option<serde_json::Value>)
    ensures
        parsed == json_document(text@),
{
    serde_json::from_str::<serde_json::Value>(text).ok()
}

/// Looks a member up by name with `Value::get`.
///
/// Assumed: a member is found exactly for the names in `json_keys`.
#[verifier::external_body]
pub(crate) fn json_member<'a>(value: &'a serde_json::Value, key: &str) -> (member: Option<
    &'a serde_json::Value,
>)
    ensures
        member is Some <==> json_keys(*value).contains(key@),
{
    value.get(key)
}

} // verus!
