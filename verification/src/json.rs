//! A small model of structured configuration documents: nested key-value
//! objects whose leaves are booleans and text. Initialization options for a
//! language server are values of this shape.

use vstd::prelude::*;

verus! {

/// A structured configuration document: a boolean or text leaf, or an object
/// holding an ordered list of key-value entries.
#[derive(Debug, PartialEq, Eq)]
pub enum JsonValue {
    Bool(bool),
    Text(String),
    Object(Vec<(String, JsonValue)>),
}

/// The mathematical shape of a document: the same tree with every string
/// abstracted to its sequence of characters.
#[verifier::ext_equal]
pub ghost enum JsonData {
    Bool(bool),
    Text(Seq<char>),
    Object(Seq<(Seq<char>, JsonData)>),
}

impl JsonValue {
    /// The abstract document that this value represents.
    pub open spec fn data(self) -> JsonData
        decreases self,
    {
        match self {
            JsonValue::Bool(b) => JsonData::Bool(b),
            JsonValue::Text(s) => JsonData::Text(s@),
            JsonValue::Object(entries) => JsonData::Object(entries_data(entries@)),
        }
    }
}

/// The abstract entries of an object: each key as its characters, each value
/// as the document it represents.
pub open spec fn entries_data(entries: Seq<(String, JsonValue)>) -> Seq<(Seq<char>, JsonData)>
    decreases entries,
{
    if entries.len() == 0 {
        Seq::empty()
    } else {
        seq![(entries[0].0@, entries[0].1.data())] + entries_data(
            entries.subrange(1, entries.len() as int),
        )
    }
}

/// The abstract entries of an object line up one for one with its concrete
/// entries: same length, and entry `i` holds key `i`'s characters beside the
/// document that value `i` represents.
pub proof fn lemma_entries_data(entries: Seq<(String, JsonValue)>)
    ensures
        entries_data(entries).len() == entries.len(),
        forall|i: int|
            0 <= i < entries.len() ==> entries_data(entries)[i] == (
            entries[i].0@,
            entries[i].1.data(),
            ),
    decreases entries.len(),
{
    if entries.len() > 0 {
        lemma_entries_data(entries.subrange(1, entries.len() as int));
    }
}

impl View for JsonValue {
    type V = JsonData;

    open spec fn view(&self) -> JsonData {
        (*self).data()
    }
}

} // verus!
