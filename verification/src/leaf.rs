//! A filter bound to the field it compares.

use crate::field::FieldRef;
use crate::filters::LeafFilter;
use crate::truth::Truth;
use crate::value::{cell, Value, ValueKind};
use vstd::prelude::*;

verus! {

/// Why a filter could not be bound to a field: their kinds differ.
#[derive(Clone, Copy, Debug, PartialEq, Eq, Structural)]
pub struct KindMismatch {
    /// The kind of value that the field holds.
    pub field: ValueKind,
    /// The kind of value that the filter compares.
    pub filter: ValueKind,
}

/// One comparison against one field. The filter is always of the field's
/// kind: a leaf cannot be made otherwise.
#[derive(Debug, PartialEq, Eq)]
pub struct Leaf {
    field: FieldRef,
    filter: LeafFilter,
}

impl Leaf {
    #[verifier::type_invariant]
    spec fn kinds_agree(self) -> bool {
        self.field.kind == self.filter.kind()
    }

    /// The field that the leaf reads.
    pub closed spec fn spec_field(&self) -> FieldRef {
        self.field
    }

    /// The comparison that the leaf makes.
    pub closed spec fn spec_filter(&self) -> &LeafFilter {
        &self.filter
    }

    /// Whether the filter is of the field's kind. Every leaf that code can
    /// hold is; a leaf that only a proof speaks of need not be.
    pub open spec fn well_typed(self) -> bool {
        self.field().kind == self.filter().kind()
    }

    /// What the leaf yields on `row`: its filter, on the cell of its field.
    pub open spec fn holds(self, row: Seq<Value>) -> Truth {
        self.filter().holds(cell(row, self.field().column))
    }

    /// Whether `row` has no value for the leaf to compare: the cell of its
    /// field holds nothing of the filter's kind.
    pub open spec fn absent_in(self, row: Seq<Value>) -> bool {
        !cell(row, self.field().column).has_kind(self.filter().kind())
    }

    /// Whether `row` gives the leaf what its field declares: a value to
    /// compare, or nothing at all where the field is nullable.
    pub open spec fn provided_by(self, row: Seq<Value>) -> bool {
        !self.absent_in(row) || (self.field().nullable && cell(row, self.field().column) is Null)
    }

    /// Binds `filter` to `field`, if they are of one kind.
    pub fn new(field: FieldRef, filter: LeafFilter) -> (r: Result<Leaf, KindMismatch>)
        ensures
            r is Ok <==> field.kind == filter.kind(),
            r matches Ok(leaf) ==> leaf.field() == field && leaf.filter() == filter
                && leaf.well_typed(),
            r matches Err(e) ==> e.field == field.kind && e.filter == filter.kind(),
    {
        let kind = filter.kind_of();
        if field.kind == kind {
            Ok(Leaf { field, filter })
        } else {
            Err(KindMismatch { field: field.kind, filter: kind })
        }
    }

    /// Applies the leaf to `row`.
    pub fn evaluate(&self, row: &Vec<Value>) -> (t: Truth)
        ensures
            t == self.holds(row@),
    {
        let column: usize = self.field.column;
        if column < row.len() {
            self.filter.evaluate(&row[column])
        } else {
            self.filter.evaluate(&Value::Null)
        }
    }

    /// The field that the leaf reads.
    #[verifier::when_used_as_spec(spec_field)]
    pub fn field(&self) -> (f: FieldRef)
        ensures
            f == self.spec_field(),
            self.well_typed(),
    {
        proof {
            use_type_invariant(self);
        }
        self.field
    }

    /// The comparison that the leaf makes.
    #[verifier::when_used_as_spec(spec_filter)]
    pub fn filter(&self) -> (f: &LeafFilter)
        ensures
            f == self.spec_filter(),
            self.well_typed(),
    {
        proof {
            use_type_invariant(self);
        }
        &self.filter
    }
}

} // verus!
