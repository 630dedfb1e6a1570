use vstd::prelude::*;

use crate::escape::{escape_json_text, escaped, lemma_escaped_prefix};
use crate::json::{json_string_member, string_member_value};

verus! {

/// Member of the credentials document that holds the account name.
pub const NAME_FIELD: &'static str = "simBrief_userName";

/// Member of the credentials document that holds the API key.
pub const KEY_FIELD: &'static str = "api_token";

/// The credentials document up to the account name.
pub const DOCUMENT_HEAD: &'static str = "{\n\t\"simBrief_userName\": \"";

/// The credentials document between the account name and the API key.
pub const DOCUMENT_MIDDLE: &'static str = "\",\n\t\"api_token\": \"";

/// The credentials document after the API key.
pub const DOCUMENT_TAIL: &'static str = "\"\n}";

/// One of the two credentials.
#[derive(Clone, Copy, Debug, PartialEq, Eq, Structural)]
pub enum JsonKey {
    Name,
    Key,
}

pub open spec fn field_name(key: JsonKey) -> Seq<char> {
    match key {
        JsonKey::Name => NAME_FIELD@,
        JsonKey::Key => KEY_FIELD@,
    }
}

/// The text of the credentials document whose two JSON strings are written
/// as `name` and `key`.
pub open spec fn document_of(name: Seq<char>, key: Seq<char>) -> Seq<char> {
    DOCUMENT_HEAD@ + name + DOCUMENT_MIDDLE@ + key + DOCUMENT_TAIL@
}

/// The text of the document after credential `key` is set to `value`, the
/// other one keeping `other`; both are escaped as JSON strings.
pub open spec fn written_document(key: JsonKey, value: Seq<char>, other: Seq<char>) -> Seq<char> {
    match key {
        JsonKey::Name => document_of(escaped(value), escaped(other)),
        JsonKey::Key => document_of(escaped(other), escaped(value)),
    }
}

/// Credential `key` as held in the document `name`/`api_key`.
pub open spec fn credential_of(name: Seq<char>, api_key: Seq<char>, key: JsonKey) -> Seq<char> {
    match key {
        JsonKey::Name => name,
        JsonKey::Key => api_key,
    }
}

/// The other credential.
pub open spec fn other_key(key: JsonKey) -> JsonKey {
    match key {
        JsonKey::Name => JsonKey::Key,
        JsonKey::Key => JsonKey::Name,
    }
}

/// What reading credential `key` from the document text `document` gives: the
/// value, and the text to write in place of a document that lacks it.
pub open spec fn credential_read(document: Seq<char>, key: JsonKey) -> (
    Seq<char>,
    Option<Seq<char>>,
) {
    match json_string_member(document, field_name(key)) {
        Some(value) => (value, None),
        None => (Seq::empty(), Some(document_of(Seq::empty(), Seq::empty()))),
    }
}

/// The document that holds both credentials empty, written where the file is
/// missing or unreadable.
pub fn default_document() -> (r: String)
    ensures
        r@ == document_of(Seq::empty(), Seq::empty()),
{
    let mut document = String::from_str(DOCUMENT_HEAD);
    document.append(DOCUMENT_MIDDLE);
    document.append(DOCUMENT_TAIL);
    proof {
        assert(document@ =~= document_of(Seq::empty(), Seq::empty()));
    }
    document
}

/// Reads credential `key` from the text `document` of the credentials file.
/// Where the text is not JSON or lacks the member, the value is empty and the
/// second part holds the document to write in its place.
pub fn get_json_data(document: &str, key: JsonKey) -> (r: (String, Option<String>))
    ensures
        credential_read(document@, key) == (r.0@, match r.1 {
            Some(d) => Some(d@),
            None => None::<Seq<char>>,
        }),
{
    let field = match key {
        JsonKey::Name => NAME_FIELD,
        JsonKey::Key => KEY_FIELD,
    };
    match string_member_value(document, field) {
        Some(value) => (value, None),
        None => (String::new(), Some(default_document())),
    }
}

/// The text of the credentials document with credential `key` set to `val`
/// and the other one set to `other_val`, each written as a JSON string.
pub fn set_json_data(key: JsonKey, val: &str, other_val: &str) -> (r: String)
    ensures
        r@ == written_document(key, val@, other_val@),
{
    let (name, api_key) = match key {
        JsonKey::Name => (escape_json_text(val), escape_json_text(other_val)),
        JsonKey::Key => (escape_json_text(other_val), escape_json_text(val)),
    };
    let mut document = String::from_str(DOCUMENT_HEAD);
    document.append(name.as_str());
    document.append(DOCUMENT_MIDDLE);
    document.append(api_key.as_str());
    document.append(DOCUMENT_TAIL);
    document
}

/// A credentials document determines the two values that it was written
/// with, whatever characters they hold.
pub proof fn lemma_document_determines_values(
    name1: Seq<char>,
    key1: Seq<char>,
    name2: Seq<char>,
    key2: Seq<char>,
)
    requires
        document_of(escaped(name1), escaped(key1)) == document_of(escaped(name2), escaped(key2)),
    ensures
        name1 == name2,
        key1 == key2,
{
    reveal_strlit("\",\n\t\"api_token\": \"");
    reveal_strlit("\"\n}");
    let head = DOCUMENT_HEAD@;
    let middle = DOCUMENT_MIDDLE@;
    let tail = DOCUMENT_TAIL@;
    let rest1 = middle + escaped(key1) + tail;
    let rest2 = middle + escaped(key2) + tail;
    let d1 = document_of(escaped(name1), escaped(key1));
    let d2 = document_of(escaped(name2), escaped(key2));
    assert(d1 =~= head + (escaped(name1) + rest1));
    assert(d2 =~= head + (escaped(name2) + rest2));
    assert(escaped(name1) + rest1 =~= d1.subrange(head.len() as int, d1.len() as int));
    assert(escaped(name2) + rest2 =~= d2.subrange(head.len() as int, d2.len() as int));
    assert(rest1[0] == middle[0]);
    assert(rest2[0] == middle[0]);
    lemma_escaped_prefix(name1, name2, rest1, rest2);
    assert(escaped(key1) + tail =~= rest1.subrange(middle.len() as int, rest1.len() as int));
    assert(escaped(key2) + tail =~= rest2.subrange(middle.len() as int, rest2.len() as int));
    lemma_escaped_prefix(key1, key2, tail, tail);
}

/// The document written with credential `key` set to `val` and the other one
/// kept as `other_val` holds, for any strings, `val` under `key` and
/// `other_val` under the other credential: no other pair of values is
/// written as the same text.
pub proof fn lemma_written_document_holds_values(
    key: JsonKey,
    val: Seq<char>,
    other_val: Seq<char>,
    name: Seq<char>,
    api_key: Seq<char>,
)
    requires
        document_of(escaped(name), escaped(api_key)) == written_document(key, val, other_val),
    ensures
        credential_of(name, api_key, key) == val,
        credential_of(name, api_key, other_key(key)) == other_val,
{
    match key {
        JsonKey::Name => lemma_document_determines_values(name, api_key, val, other_val),
        JsonKey::Key => lemma_document_determines_values(name, api_key, other_val, val),
    }
}

/// Reading the same document text twice gives the same value and the same
/// repair.
pub proof fn lemma_reads_agree(first: Seq<char>, second: Seq<char>, key: JsonKey)
    requires
        first == second,
    ensures
        credential_read(first, key) == credential_read(second, key),
{
}

} // verus!
