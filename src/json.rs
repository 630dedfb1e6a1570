use vstd::prelude::*;

verus! {

/// The compact JSON text of the member `key` of the object written as JSON
/// text in `doc`. `None` where `doc` is not JSON, is not an object, or has no
/// such member.
pub uninterp spec fn json_member(doc: Seq<char>, key: Seq<char>) -> Option<Seq<char>>;

/// The compact JSON text of element `index` of the array written as JSON text
/// in `doc`. `None` where `doc` is not JSON, is not an array, or is shorter.
pub uninterp spec fn json_element(doc: Seq<char>, index: nat) -> Option<Seq<char>>;

/// The string held by the member `key` of the object written as JSON text in
/// `doc`, decoded. `None` where `doc` is not JSON, is not an object, lacks the
/// member, or the member is not a string.
pub uninterp spec fn json_string_member(doc: Seq<char>, key: Seq<char>) -> Option<Seq<char>>;

/// The characters of an optional string.
pub open spec fn text_view(t: Option<String>) -> Option<Seq<char>> {
    match t {
        Some(s) => Some(s@),
        None => None,
    }
}

/// Relies on serde_json::from_str to read `doc` as a `serde_json::Value`, on
/// `Value::get` with a string key to find the member of an object, and on the
/// `Display` impl of `Value`, which writes the member back as compact JSON.
#[verifier::external_body]
pub(crate) fn member_text(doc: &str, key: &str) -> (r: Option<String>)
    ensures
        text_view(r) == json_member(doc@, key@),
{
    let value: serde_json::Value = serde_json::from_str(doc).ok()?;
    value.get(key).map(|member| member.to_string())
}

/// Relies on serde_json::from_str to read `doc` as a `serde_json::Value`, on
/// `Value::get` with a string key to find the member of an object, and on
/// `Value::as_str` for the string that the member holds.
#[verifier::external_body]
pub(crate) fn string_member_value(doc: &str, key: &str) -> (r: Option<String>)
    ensures
        text_view(r) == json_string_member(doc@, key@),
{
    let value: serde_json::Value = serde_json::from_str(doc).ok()?;
    value.get(key)?.as_str().map(String::from)
}

/// Relies on serde_json::from_str to read `doc` as a `serde_json::Value`, on
/// `Value::get` with an index to find the element of an array, and on the
/// `Display` impl of `Value`, which writes the element back as compact JSON.
#[verifier::external_body]
pub(crate) fn element_text(doc: &str, index: usize) -> (r: Option<String>)
    ensures
        text_view(r) == json_element(doc@, index as nat),
{
    let value: serde_json::Value = serde_json::from_str(doc).ok()?;
    value.get(index).map(|element| element.to_string())
}

} // verus!
