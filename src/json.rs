//! Reading the controller's JSON replies through serde_json.
use vstd::prelude::*;

verus! {

/// The string found at a JSON pointer in a JSON text: `None` where the text
/// is not well-formed JSON, where nothing stands at the pointer, or where
/// what stands there is not a string.
pub uninterp spec fn json_str_at(text: Seq<char>, pointer: Seq<char>) -> Option<Seq<char>>;

/// Relies on serde_json::from_str into a Value, Value::pointer and
/// Value::as_str: the string at `pointer` in the JSON document `text`, which
/// depends on the two texts alone.
#[verifier::external_body]
fn str_at(text: &str, pointer: &str) -> (r: Option<String>)
    ensures
        r is None <==> json_str_at(text@, pointer@) is None,
        r matches Some(v) ==> json_str_at(text@, pointer@) == Some(v@),
{
    match serde_json::from_str::<serde_json::Value>(text) {
        Ok(doc) => match doc.pointer(pointer) {
            Some(v) => v.as_str().map(String::from),
            None => None,
        },
        Err(_) => None,
    }
}

/// The path of the reported value in a reply body.
pub open spec fn value_pointer() -> Seq<char> {
    "/response/val"@
}

/// The string at `response.val` of a reply body, where the body is JSON and
/// holds one there. Nothing else of the body's shape is required.
pub fn reported_value(body: &str) -> (r: Option<String>)
    ensures
        r is None <==> json_str_at(body@, value_pointer()) is None,
        r matches Some(v) ==> json_str_at(body@, value_pointer()) == Some(v@),
{
    str_at(body, "/response/val")
}

} // verus!
