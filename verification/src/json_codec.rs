//! The object-notation strategy: documents as JSON, through serde_json.

use vstd::prelude::*;

use crate::document::{wf_doc, Document};
use crate::errors::FileError;
use crate::file_io::SerdeStr;

verus! {

/// Marker selecting the object-notation (JSON) encoding.
pub struct Json;

#[verifier::external_type_specification]
#[verifier::external_body]
pub struct ExJsonValue(serde_json::Value);

/// The text serde_json renders a document as: a function of the document
/// alone (keys are emitted in sorted order whatever order they were built
/// in, so the rendering is deterministic).
pub uninterp spec fn json_text_of(d: Document) -> Seq<char>;

/// The document serde_json's parse of the text converts to, if the text is
/// well-formed JSON within the document model.
pub uninterp spec fn json_doc_of(s: Seq<char>) -> Option<Document>;

/// Conversion half of [`json_encode`]: rebuilds a document as the
/// serde_json value tree, variant for variant.
#[verifier::external_body]
fn doc_to_json_value(d: &Document) -> (v: serde_json::Value) {
    match d {
        Document::Bool(b) => serde_json::Value::Bool(*b),
        Document::Int(i) => serde_json::Value::Number(serde_json::Number::from(*i)),
        Document::Text(s) => serde_json::Value::String(s.clone()),
        Document::List(xs) => serde_json::Value::Array(
            xs.iter().map(doc_to_json_value).collect(),
        ),
        Document::Table(ps) => serde_json::Value::Object(
            ps.iter().map(|p| (p.0.clone(), doc_to_json_value(&p.1))).collect(),
        ),
    }
}

/// Conversion half of [`json_decode`]: reads a serde_json value tree back
/// as a document, variant for variant; anything outside the document model
/// (null, floats) is no document.
#[verifier::external_body]
fn json_value_to_doc(v: &serde_json::Value) -> (r: Option<Document>) {
    match v {
        serde_json::Value::Null => None,
        serde_json::Value::Bool(b) => Some(Document::Bool(*b)),
        serde_json::Value::Number(n) => n.as_i64().map(Document::Int),
        serde_json::Value::String(s) => Some(Document::Text(s.clone())),
        serde_json::Value::Array(a) => a.iter().map(json_value_to_doc).collect::<Option<
            Vec<Document>,
        >>().map(Document::List),
        serde_json::Value::Object(m) => m.iter().map(
            |p| json_value_to_doc(p.1).map(|d| (p.0.clone(), d)),
        ).collect::<Option<Vec<(String, Document)>>>().map(Document::Table),
    }
}

/// Relies on serde_json::to_string: rendering a value tree with string keys
/// and plain values cannot fail and depends on the document alone; by
/// serde_json's own round-trip guarantee, parsing the rendering of a
/// well-formed document (keys sorted and unique) yields it back.
#[verifier::external_body]
fn json_encode(d: &Document) -> (r: String)
    ensures
        r@ == json_text_of(*d),
        wf_doc(*d) ==> json_doc_of(r@) == Some(*d),
{
    serde_json::to_string(&doc_to_json_value(d)).unwrap_or_default()
}

/// Relies on serde_json::from_str: parsing depends on the text alone.
#[verifier::external_body]
fn json_decode(s: &str) -> (r: Option<Document>)
    ensures
        r == json_doc_of(s@),
{
    serde_json::from_str::<serde_json::Value>(s).ok().as_ref().and_then(json_value_to_doc)
}

/// The object-notation rendering of a document, with the round-trip fact
/// surfaced: rendering a well-formed document thereby shows it encodable
/// under [`Json`], so concrete documents can discharge `encodable` and the
/// round-trip law.
pub fn json_render(d: &Document) -> (r: String)
    ensures
        r@ == json_text_of(*d),
        wf_doc(*d) ==> json_doc_of(r@) == Some(*d),
        wf_doc(*d) ==> <Document as SerdeStr<Json>>::encodable(d),
{
    json_encode(d)
}

impl SerdeStr<Json> for Document {
    open spec fn encodable(&self) -> bool {
        wf_doc(*self) && json_doc_of(json_text_of(*self)) == Some(*self)
    }

    open spec fn encoding(&self) -> Seq<char> {
        json_text_of(*self)
    }

    open spec fn decoded(s: Seq<char>) -> Option<Document> {
        json_doc_of(s)
    }

    proof fn lemma_round_trip(&self) {
    }

    fn ser_to_string(&self) -> (r: Result<String, FileError>) {
        Ok(json_encode(self))
    }

    fn de_from_str(s: &str) -> (r: Result<Document, FileError>) {
        match json_decode(s) {
            Some(d) => Ok(d),
            None => Err(FileError::InvalidData),
        }
    }
}

} // verus!
