//! The structured values the engine persists: mappings of named fields to
//! primitives, nested mappings, and sequences.

use vstd::prelude::*;

verus! {

/// A structured value representable under both standard encodings.
#[derive(Debug, PartialEq, Eq)]
pub enum Document {
    Bool(bool),
    Int(i64),
    Text(String),
    List(Vec<Document>),
    Table(Vec<(String, Document)>),
}

/// Strict lexicographic order on character sequences, by Unicode scalar
/// value. This agrees with byte order on the UTF-8 renderings, which is the
/// order both encoders emit table keys in.
pub open spec fn lex_lt(a: Seq<char>, b: Seq<char>) -> bool
    decreases a.len(),
{
    if b.len() == 0 {
        false
    } else if a.len() == 0 {
        true
    } else if a[0] == b[0] {
        lex_lt(a.drop_first(), b.drop_first())
    } else {
        a[0] < b[0]
    }
}

/// Well-formedness: every table has its keys strictly increasing, so key
/// order is canonical and no key repeats, at every nesting depth.
pub open spec fn wf_doc(d: Document) -> bool
    decreases d,
{
    match d {
        Document::Bool(_) => true,
        Document::Int(_) => true,
        Document::Text(_) => true,
        Document::List(xs) => forall|i: int| 0 <= i < xs@.len() ==> wf_doc(#[trigger] xs@[i]),
        Document::Table(ps) => {
            &&& forall|i: int| 0 <= i < ps@.len() ==> wf_doc((#[trigger] ps@[i]).1)
            &&& forall|i: int, j: int|
                0 <= i < j < ps@.len() ==> lex_lt(#[trigger] ps@[i].0@, #[trigger] ps@[j].0@)
        },
    }
}

} // verus!
