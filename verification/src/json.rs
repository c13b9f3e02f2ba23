//! The boundary to `serde_json`: the outside type that passes through this
//! library, and the calls that write and read it.
//!
//! Nothing here is proved. Each contract restates what `serde_json` does, and
//! the rest of the library is verified against these statements.

use vstd::prelude::*;

verus! {

/// `serde_json::Value`, a JSON document held as a tree. The library carries
/// such values through without looking inside them.
#[verifier::external_type_specification]
#[verifier::external_body]
pub struct ExValue(serde_json::Value);

/// The compact JSON text of a value, as `serde_json::to_string` writes it.
pub uninterp spec fn json_text(value: serde_json::Value) -> Seq<char>;

/// What `serde_json::from_str` makes of a text: the value that it denotes,
/// or the message of the error that says why it denotes none.
pub uninterp spec fn json_parse(text: Seq<char>) -> Result<serde_json::Value, Seq<char>>;

/// A parse result with the message of a failure taken by its view.
pub open spec fn parse_view(r: Result<serde_json::Value, String>) -> Result<
    serde_json::Value,
    Seq<char>,
> {
    match r {
        Ok(value) => Ok(value),
        Err(message) => Err(message@),
    }
}

/// Calls `serde_json::to_string` on a value; an error is handed on as its
/// message.
///
/// Claimed: the call succeeds and returns the value's compact text. The crate
/// documents two causes of failure, a `Serialize` impl that chooses to fail
/// and a map with a key that is no string; the impl for `Value` never fails by
/// itself, and the keys of its objects are `String`s.
#[verifier::external_body]
pub(crate) fn to_text(value: &serde_json::Value) -> (r: Result<String, String>)
    ensures
        r is Ok,
        r->Ok_0@ == json_text(*value),
{
    serde_json::to_string(value).map_err(|e| e.to_string())
}

/// Calls `serde_json::from_str` for a `Value`; an error is handed on as its
/// message.
///
/// Claimed: whether the text is accepted, the value read from it and the
/// message of a refusal depend on the text alone.
#[verifier::external_body]
pub(crate) fn parse(text: &str) -> (r: Result<serde_json::Value, String>)
    ensures
        parse_view(r) == json_parse(text@),
{
    serde_json::from_str(text).map_err(|e: serde_json::Error| e.to_string())
}

/// `Clone` for `serde_json::Value`, which the crate derives.
///
/// Claimed: the copy equals the value that it was made from.
pub assume_specification[ <serde_json::Value as Clone>::clone ](
    value: &serde_json::Value,
) -> (copy: serde_json::Value)
    ensures
        copy == *value,
;

} // verus!
