//! Reading members out of JSON documents.

use vstd::prelude::*;

verus! {

/// The member `name` of the JSON object that `payload` holds, as bytes: the
/// content of a member that is a string, and the number, as `serde_json`
/// prints it, of a member that is a number. There is no such member if the
/// payload is no JSON document, if the document is no object, if the object
/// has no member of that name, or if the member is neither a string nor a
/// number.
pub uninterp spec fn json_member(payload: Seq<u8>, name: Seq<char>) -> Option<Seq<u8>>;

/// Reads member `name` out of the JSON object in `payload`.
///
/// Trusted: the body calls `serde_json::from_slice` for a
/// `serde_json::Value`, looks the member up with `Value::get` and tells the
/// variants `Value::String` and `Value::Number` apart from all others. The
/// contract claims no more than that the result is what those calls give for
/// these arguments, under the name [`json_member`].
#[verifier::external_body]
pub(crate) fn read_member(payload: &[u8], name: &str) -> (member: Option<Vec<u8>>)
    ensures
        member matches Some(bytes) ==> json_member(payload@, name@) == Some(bytes@),
        member is None ==> json_member(payload@, name@) is None,
{
    let document: serde_json::Value = serde_json::from_slice(payload).ok()?;
    match document.get(name)? {
        serde_json::Value::String(text) => Some(text.clone().into_bytes()),
        serde_json::Value::Number(number) => Some(number.to_string().into_bytes()),
        _ => None,
    }
}

} // verus!
