//! Condition trees: what a caller asks of the rows, before it is compiled.

use crate::field::FieldRef;
use crate::filters::{AndOr, LeafFilter};
use crate::leaf::{KindMismatch, Leaf};
use crate::truth::Truth;
use crate::value::Value;
use vstd::prelude::*;

verus! {

/// A condition: one comparison, or a group of conditions that must all
/// hold (`And`) or of which one must hold (`Or`). The nesting alone
/// decides what is grouped with what.
#[derive(Debug, PartialEq, Eq)]
pub enum Condition {
    Leaf(Leaf),
    And(Vec<Condition>),
    Or(Vec<Condition>),
}

/// Whether no member of the group asks anything of `row`.
pub open spec fn no_member_asks(conditions: Seq<Condition>, row: Seq<Value>) -> bool
    decreases conditions, 0int,
{
    forall|i: int| 0 <= i < conditions.len() ==> (#[trigger] conditions[i]).truth(row) is None
}

/// Whether some member of the group yields `truth` on `row`.
pub open spec fn some_member_yields(
    conditions: Seq<Condition>,
    row: Seq<Value>,
    truth: Truth,
) -> bool
    decreases conditions, 0int,
{
    exists|i: int|
        0 <= i < conditions.len() && (#[trigger] conditions[i]).truth(row) == Some(truth)
}

/// What a group of conditions yields on `row`, whatever the order of its
/// members. Members that ask nothing do not count; a group in which no
/// member asks anything asks nothing itself (`None`): it is neither true
/// nor false. Otherwise a conjunction is false if a member is false, else
/// unknown if a member is unknown, else true; a disjunction is true if a
/// member is true, else unknown if a member is unknown, else false.
pub open spec fn group_truth(conditions: Seq<Condition>, and_or: AndOr, row: Seq<Value>) -> Option<
    Truth,
>
    decreases conditions, 1int,
{
    if no_member_asks(conditions, row) {
        None
    } else if some_member_yields(conditions, row, and_or.decisive()) {
        Some(and_or.decisive())
    } else if some_member_yields(conditions, row, Truth::Unknown) {
        Some(Truth::Unknown)
    } else {
        Some(and_or.decisive().not())
    }
}

impl Condition {
    /// What the condition yields on `row`, or `None` if it asks nothing.
    pub open spec fn truth(self, row: Seq<Value>) -> Option<Truth>
        decreases self,
    {
        match self {
            Condition::Leaf(leaf) => Some(leaf.holds(row)),
            Condition::And(conditions) => group_truth(conditions@, AndOr::And, row),
            Condition::Or(conditions) => group_truth(conditions@, AndOr::Or, row),
        }
    }

    /// Whether the condition asks nothing: it is a group, and no comparison
    /// stands anywhere in it.
    pub open spec fn is_vacuous(self) -> bool
        decreases self,
    {
        match self {
            Condition::Leaf(_) => false,
            Condition::And(conditions) => all_vacuous(conditions@),
            Condition::Or(conditions) => all_vacuous(conditions@),
        }
    }

    /// Whether some comparison in the condition reads a nullable field.
    pub open spec fn reads_nullable(self) -> bool
        decreases self,
    {
        match self {
            Condition::Leaf(leaf) => leaf.field().nullable,
            Condition::And(conditions) => some_reads_nullable(conditions@),
            Condition::Or(conditions) => some_reads_nullable(conditions@),
        }
    }

    /// The condition that compares `field` by `filter`, if they are of one kind.
    pub fn leaf(field: FieldRef, filter: LeafFilter) -> (r: Result<Condition, KindMismatch>)
        ensures
            r is Ok <==> field.kind == filter.kind(),
            r matches Ok(condition) ==> condition matches Condition::Leaf(leaf) && leaf.field()
                == field && leaf.filter() == filter,
            r matches Err(e) ==> e.field == field.kind && e.filter == filter.kind(),
    {
        match Leaf::new(field, filter) {
            Ok(leaf) => Ok(Condition::Leaf(leaf)),
            Err(e) => Err(e),
        }
    }

    /// Whether the condition is the group of `members` under `and_or`.
    pub open spec fn is_group_of(self, and_or: AndOr, members: Seq<Condition>) -> bool {
        match and_or {
            AndOr::And => self matches Condition::And(conditions) && conditions@ == members,
            AndOr::Or => self matches Condition::Or(conditions) && conditions@ == members,
        }
    }
}

/// Whether every one of the conditions asks nothing.
pub open spec fn all_vacuous(conditions: Seq<Condition>) -> bool
    decreases conditions,
{
    forall|i: int| 0 <= i < conditions.len() ==> (#[trigger] conditions[i]).is_vacuous()
}

/// Whether one of the conditions reads a nullable field.
pub open spec fn some_reads_nullable(conditions: Seq<Condition>) -> bool
    decreases conditions,
{
    exists|i: int| 0 <= i < conditions.len() && (#[trigger] conditions[i]).reads_nullable()
}

} // verus!
