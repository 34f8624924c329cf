//! References to the fields that a condition can speak of.

use crate::value::ValueKind;
use vstd::prelude::*;

verus! {

/// A handle on one typed column of the joined row that a query yields.
#[derive(Clone, Copy, Debug, PartialEq, Eq, Structural)]
pub struct FieldRef {
    /// Where the field stands in the row.
    pub column: usize,
    /// The type of its values.
    pub kind: ValueKind,
    /// Whether its source may be absent from a row, as the far side of an outer join is.
    pub nullable: bool,
}

impl FieldRef {
    /// A field of a source that every row has: it is never absent.
    pub fn new(column: usize, kind: ValueKind) -> (f: FieldRef)
        ensures
            f.column == column,
            f.kind == kind,
            !f.nullable,
    {
        FieldRef { column, kind, nullable: false }
    }

    /// The same field, reached through an outer join: it may be absent.
    pub fn outer_joined(self) -> (f: FieldRef)
        ensures
            f.column == self.column,
            f.kind == self.kind,
            f.nullable,
    {
        FieldRef { column: self.column, kind: self.kind, nullable: true }
    }
}

} // verus!
