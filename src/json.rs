use std::collections::BTreeMap;

use serde_json::Value;
use vstd::prelude::*;

verus! {

#[verifier::external_type_specification]
#[verifier::external_body]
pub struct ExJsonError(serde_json::Error);

/// An object whose members are objects of string arrays: the shape of the
/// registry document, as nested key/value lists.
pub type NestedDoc = Vec<(String, Vec<(String, Vec<String>)>)>;

/// Every key of a key/value list occurs once.
pub open spec fn keys_distinct<V>(e: Seq<(Seq<char>, V)>) -> bool {
    forall|i: int, j: int|
        0 <= i < e.len() && 0 <= j < e.len() && i != j ==> #[trigger] e[i].0 != #[trigger] e[j].0
}

/// Keys are distinct at both levels of a nested document.
pub open spec fn nested_keys_distinct(
    doc: Seq<(Seq<char>, Seq<(Seq<char>, Seq<Seq<char>>)>)>,
) -> bool {
    &&& keys_distinct(doc)
    &&& forall|i: int| 0 <= i < doc.len() ==> keys_distinct(#[trigger] doc[i].1)
}

/// The compact JSON text that serde_json writes for a nested document.
pub uninterp spec fn json_text_of(doc: Seq<(Seq<char>, Seq<(Seq<char>, Seq<Seq<char>>)>)>) -> Seq<
    char,
>;

/// The nested document that serde_json reads from a text, if the text is
/// such a document.
pub uninterp spec fn json_decoded(text: Seq<char>) -> Option<
    Seq<(Seq<char>, Seq<(Seq<char>, Seq<Seq<char>>)>)>,
>;

/// Relies on serde_json's `Display` for `Value`: writes the nested document
/// as compact JSON text; an object of string keys always serialises.
#[verifier::external_body]
pub(crate) fn encode_nested(doc: &NestedDoc) -> (r: String)
    ensures
        r@ == json_text_of(doc.deep_view()),
{
    let object = doc.iter().map(|(key, members)| {
        let inner = members.iter().map(|(name, items)| {
            (name.clone(), Value::Array(items.iter().map(|s| Value::String(s.clone())).collect()))
        });
        (key.clone(), Value::Object(inner.collect()))
    });
    Value::Object(object.collect()).to_string()
}

/// Relies on serde_json::from_str reading a text into nested `BTreeMap`s
/// (an object of objects of string arrays); the keys of a map occur once.
#[verifier::external_body]
pub(crate) fn decode_nested(text: &str) -> (r: Result<NestedDoc, serde_json::Error>)
    ensures
        match r {
            Ok(doc) => json_decoded(text@) == Some(doc.deep_view()) && nested_keys_distinct(
                doc.deep_view(),
            ),
            Err(_) => json_decoded(text@) is None,
        },
{
    serde_json::from_str::<BTreeMap<String, BTreeMap<String, Vec<String>>>>(text).map(
        |doc| doc.into_iter().map(|(key, members)| (key, members.into_iter().collect())).collect(),
    )
}

} // verus!
