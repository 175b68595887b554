//! The in-memory metadata document produced by a decode pass.

use vstd::prelude::*;

verus! {

/// A decoded metadata document: the ordered raw values of the fields that a
/// decode pass reconstructed. The error layer only ever asks how many fields
/// a document holds; the values themselves are carried through untouched.
pub struct Document {
    fields: Vec<u64>,
}

impl View for Document {
    type V = Seq<u64>;

    closed spec fn view(&self) -> Seq<u64> {
        self.fields@
    }
}

impl Document {
    /// Packages the raw values decoded for each field into a document.
    pub fn from_fields(fields: Vec<u64>) -> (document: Document)
        ensures
            document@ == fields@,
    {
        Document { fields }
    }

    /// The number of decoded fields this document holds.
    pub fn field_count(&self) -> (count: usize)
        ensures
            count == self@.len(),
    {
        self.fields.len()
    }

    /// Releases the raw field values this document holds.
    pub fn into_fields(self) -> (fields: Vec<u64>)
        ensures
            fields@ == self@,
    {
        self.fields
    }
}

} // verus!
