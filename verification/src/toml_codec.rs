//! The tabular/markup strategy: documents as TOML, through the toml crate.

use vstd::prelude::*;

use crate::document::{wf_doc, Document};
use crate::errors::FileError;
use crate::file_io::SerdeStr;

verus! {

/// Marker selecting the tabular/markup (TOML) encoding.
pub struct Toml;

#[verifier::external_type_specification]
#[verifier::external_body]
pub struct ExTomlValue(toml::Value);

/// The text the toml crate renders a document as, when it can: TOML cannot
/// represent every document (the top level must be a table, for one). The
/// rendering is a function of the document alone.
pub uninterp spec fn toml_text_of(d: Document) -> Option<Seq<char>>;

/// The document the toml crate's parse of the text converts to, if the
/// text is well-formed TOML within the document model.
pub uninterp spec fn toml_doc_of(s: Seq<char>) -> Option<Document>;

/// Conversion half of [`toml_encode`]: rebuilds a document as the toml
/// value tree, variant for variant.
#[verifier::external_body]
fn doc_to_toml_value(d: &Document) -> (v: toml::Value) {
    match d {
        Document::Bool(b) => toml::Value::Boolean(*b),
        Document::Int(i) => toml::Value::Integer(*i),
        Document::Text(s) => toml::Value::String(s.clone()),
        Document::List(xs) => toml::Value::Array(xs.iter().map(doc_to_toml_value).collect()),
        Document::Table(ps) => toml::Value::Table(
            ps.iter().map(|p| (p.0.clone(), doc_to_toml_value(&p.1))).collect(),
        ),
    }
}

/// Conversion half of [`toml_decode`]: reads a toml value tree back as a
/// document, variant for variant; anything outside the document model
/// (floats, datetimes) is no document.
#[verifier::external_body]
fn toml_value_to_doc(v: &toml::Value) -> (r: Option<Document>) {
    match v {
        toml::Value::Boolean(b) => Some(Document::Bool(*b)),
        toml::Value::Integer(i) => Some(Document::Int(*i)),
        toml::Value::String(s) => Some(Document::Text(s.clone())),
        toml::Value::Array(a) => a.iter().map(toml_value_to_doc).collect::<Option<
            Vec<Document>,
        >>().map(Document::List),
        toml::Value::Table(m) => m.iter().map(
            |p| toml_value_to_doc(p.1).map(|d| (p.0.clone(), d)),
        ).collect::<Option<Vec<(String, Document)>>>().map(Document::Table),
        _ => None,
    }
}

/// Relies on toml::to_string: rendering depends on the document alone and
/// fails exactly when TOML cannot represent it; by the toml crate's own
/// round-trip guarantee, parsing the rendering of a well-formed document
/// (keys sorted and unique) yields it back.
#[verifier::external_body]
fn toml_encode(d: &Document) -> (r: Option<String>)
    ensures
        match r {
            Some(s) => toml_text_of(*d) == Some(s@) && (wf_doc(*d) ==> toml_doc_of(s@)
                == Some(*d)),
            None => toml_text_of(*d) is None,
        },
{
    toml::to_string(&doc_to_toml_value(d)).ok()
}

/// Relies on toml::from_str: parsing depends on the text alone.
#[verifier::external_body]
fn toml_decode(s: &str) -> (r: Option<Document>)
    ensures
        r == toml_doc_of(s@),
{
    toml::from_str::<toml::Value>(s).ok().as_ref().and_then(toml_value_to_doc)
}

/// The tabular rendering of a document, with the round-trip fact surfaced:
/// rendering a well-formed document thereby shows it encodable under
/// [`Toml`], so concrete documents can discharge `encodable` and the
/// round-trip law.
pub fn toml_render(d: &Document) -> (r: Option<String>)
    ensures
        match r {
            Some(s) => {
                &&& toml_text_of(*d) == Some(s@)
                &&& wf_doc(*d) ==> toml_doc_of(s@) == Some(*d)
                &&& wf_doc(*d) ==> <Document as SerdeStr<Toml>>::encodable(d)
            },
            None => toml_text_of(*d) is None,
        },
{
    toml_encode(d)
}

impl SerdeStr<Toml> for Document {
    open spec fn encodable(&self) -> bool {
        &&& wf_doc(*self)
        &&& toml_text_of(*self) matches Some(s) && toml_doc_of(s) == Some(*self)
    }

    open spec fn encoding(&self) -> Seq<char> {
        toml_text_of(*self)->Some_0
    }

    open spec fn decoded(s: Seq<char>) -> Option<Document> {
        toml_doc_of(s)
    }

    proof fn lemma_round_trip(&self) {
    }

    fn ser_to_string(&self) -> (r: Result<String, FileError>) {
        match toml_encode(self) {
            Some(s) => Ok(s),
            None => Err(FileError::InvalidData),
        }
    }

    fn de_from_str(s: &str) -> (r: Result<Document, FileError>) {
        match toml_decode(s) {
            Some(d) => Ok(d),
            None => Err(FileError::InvalidData),
        }
    }
}

} // verus!
