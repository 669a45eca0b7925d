//! The size of the tool contract that the engine publishes.

use vstd::prelude::*;

verus! {

/// The length of the array under `key` in the JSON object held by `text`, as
/// serde_json reads it; `None` when `text` is not JSON, holds no such key or
/// no array under it.
pub uninterp spec fn json_array_len_at(text: Seq<char>, key: Seq<char>) -> Option<usize>;

/// Parses `text` with `serde_json::from_str` into a `serde_json::Value`, looks
/// `key` up with `Value::get` and measures the array found with
/// `Value::as_array`. Trusted: the result is the one serde_json gives for
/// these two arguments; nothing is said of which texts it reads.
#[verifier::external_body]
fn array_len_at(text: &str, key: &str) -> (r: Option<usize>)
    ensures
        r == json_array_len_at(text@, key@),
{
    match serde_json::from_str::<serde_json::Value>(text) {
        Ok(value) => value.get(key).and_then(serde_json::Value::as_array).map(Vec::len),
        Err(_) => None,
    }
}

/// The number of tools the contract `contract` (a JSON document) declares
/// under `tools`, or zero when it declares none readable.
pub open spec fn declared_tool_count(contract: Seq<char>) -> usize {
    match json_array_len_at(contract, "tools"@) {
        Some(n) => n,
        None => 0,
    }
}

/// The number of tools declared by the JSON contract `contract`.
pub fn tool_count_in(contract: &str) -> (n: usize)
    ensures
        n == declared_tool_count(contract@),
{
    match array_len_at(contract, "tools") {
        Some(n) => n,
        None => 0,
    }
}

} // verus!
