//! The JSON values that pass through the service unread, and the calls into
//! the JSON library that the service makes on them.

use vstd::prelude::*;

verus! {

/// A JSON value. Nothing here looks inside one: payloads are carried from the
/// place that produced them to the place that stores or returns them.
#[verifier::external_type_specification]
#[verifier::external_body]
pub struct ExJsonValue(serde_json::Value);

/// `serde_json::Value::clone`: the copy is the same JSON value.
pub assume_specification[ <serde_json::Value as Clone>::clone ](
    value: &serde_json::Value,
) -> (copy: serde_json::Value)
    ensures
        copy == *value,
;

/// What `serde_json::from_str` makes of `text` when asked for a
/// `serde_json::Value`: the value that the text denotes, or the library's
/// description of why the text is not one JSON document.
pub uninterp spec fn parsed_json(text: Seq<char>) -> Result<serde_json::Value, Seq<char>>;

/// The view of a parse result: the error text as a sequence of characters.
pub open spec fn parse_view(r: Result<serde_json::Value, String>) -> Result<
    serde_json::Value,
    Seq<char>,
> {
    match r {
        Ok(v) => Ok(v),
        Err(e) => Err(e@),
    }
}

/// `serde_json::from_str::<serde_json::Value>`, with the error rendered by
/// its `Display` impl. The result is a function of the text alone; the
/// contract gives it the name `parsed_json` and says nothing else of it.
#[verifier::external_body]
pub(crate) fn parse_json(text: &str) -> (r: Result<serde_json::Value, String>)
    ensures
        parse_view(r) == parsed_json(text@),
{
    serde_json::from_str::<serde_json::Value>(text).map_err(|e| e.to_string())
}

} // verus!
