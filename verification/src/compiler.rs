//! The compiler: from a condition tree to one compiled condition, or to
//! none where the tree asks nothing.

use crate::condition::{all_vacuous, group_truth, some_reads_nullable, Condition};
use crate::filters::AndOr;
use crate::leaf::Leaf;
use crate::predicate::{BoolExpr, BoxedCondition, Domain, NullableExpr};
use crate::semantics::{
    holds_on, lemma_compiled_domain, lemma_compiled_group_domain, lemma_compiled_group_truth,
    lemma_compiled_group_vacuous, lemma_compiled_truth, lemma_compiled_vacuous,
};
use crate::value::Value;
use vstd::prelude::*;

verus! {

/// The conditions compiled so far, extended by what the next one compiled
/// to. A condition that compiled to nothing leaves them as they are; the
/// first that compiled to something stands alone; each later one is joined
/// on the right.
pub open spec fn extended(
    so_far: Option<BoxedCondition>,
    and_or: AndOr,
    next: Option<BoxedCondition>,
) -> Option<BoxedCondition> {
    match (so_far, next) {
        (Some(a), Some(b)) => Some(a.joined(and_or, b)),
        (Some(a), None) => Some(a),
        (None, b) => b,
    }
}

/// What a sequence of conditions compiles to under one connective: the
/// conditions are taken from first to last.
pub open spec fn compiled_group(conditions: Seq<Condition>, and_or: AndOr) -> Option<
    BoxedCondition,
>
    decreases conditions,
{
    if conditions.len() == 0 {
        None
    } else {
        extended(
            compiled_group(conditions.drop_last(), and_or),
            and_or,
            conditions.last().compiled(),
        )
    }
}

impl Leaf {
    /// What the leaf compiles to: a comparison, lifted into the nullable
    /// domain if its field may be absent.
    pub open spec fn compiled(self) -> BoxedCondition {
        if self.field().nullable {
            BoxedCondition::Nullable(NullableExpr::Lifted(self))
        } else {
            BoxedCondition::Bool(BoolExpr::Compare(self))
        }
    }

    /// Compiles the leaf.
    pub fn to_boxed_condition(self) -> (r: BoxedCondition)
        ensures
            r == self.compiled(),
            r.lifts_nullable_fields(),
            r.domain() == Domain::NullableBool <==> self.field().nullable,
            forall|row: Seq<Value>| #[trigger] r.holds(row) == self.holds(row),
    {
        if self.field().nullable {
            BoxedCondition::Nullable(NullableExpr::Lifted(self))
        } else {
            BoxedCondition::Bool(BoolExpr::Compare(self))
        }
    }
}

impl Condition {
    /// What the condition compiles to: a leaf to its comparison, a group to
    /// what its members compile to under the group's connective.
    pub open spec fn compiled(self) -> Option<BoxedCondition>
        decreases self,
    {
        match self {
            Condition::Leaf(leaf) => Some(leaf.compiled()),
            Condition::And(conditions) => compiled_group(conditions@, AndOr::And),
            Condition::Or(conditions) => compiled_group(conditions@, AndOr::Or),
        }
    }

    /// Compiles the condition. A group without a comparison anywhere in it
    /// compiles to nothing; whatever else compiles to a condition that
    /// yields on every row what the tree yields, with every comparison on a
    /// nullable field lifted.
    pub fn to_boxed_condition(self) -> (r: Option<BoxedCondition>)
        ensures
            r == self.compiled(),
            r is None <==> self.is_vacuous(),
            r matches Some(compiled) ==> {
                &&& compiled.lifts_nullable_fields()
                &&& compiled.domain() == Domain::NullableBool <==> self.reads_nullable()
            },
            forall|row: Seq<Value>| #[trigger] holds_on(r, row) == self.truth(row),
        decreases self,
    {
        proof {
            lemma_compiled_vacuous(self);
            lemma_compiled_domain(self);
            assert forall|row: Seq<Value>| #[trigger]
                holds_on(self.compiled(), row) == self.truth(row) by {
                lemma_compiled_truth(self, row);
            }
        }
        match self {
            Condition::Leaf(leaf) => Some(leaf.to_boxed_condition()),
            Condition::And(conditions) => create_filter(conditions, AndOr::And),
            Condition::Or(conditions) => create_filter(conditions, AndOr::Or),
        }
    }
}

/// Compiles `conditions` and joins what they compile to by `and_or`, from
/// first to last. Conditions that ask nothing are passed over; if none
/// asks anything, there is no filter: not one that keeps every row, nor
/// one that keeps none.
pub fn create_filter(conditions: Vec<Condition>, and_or: AndOr) -> (r: Option<BoxedCondition>)
    ensures
        r == compiled_group(conditions@, and_or),
        r is None <==> all_vacuous(conditions@),
        r matches Some(compiled) ==> {
            &&& compiled.lifts_nullable_fields()
            &&& compiled.domain() == Domain::NullableBool <==> some_reads_nullable(conditions@)
        },
        forall|row: Seq<Value>| #[trigger]
            holds_on(r, row) == group_truth(conditions@, and_or, row),
    decreases conditions,
{
    let ghost all = conditions@;
    proof {
        lemma_compiled_group_vacuous(all, and_or);
        lemma_compiled_group_domain(all, and_or);
        assert forall|row: Seq<Value>| #[trigger]
            holds_on(compiled_group(all, and_or), row) == group_truth(all, and_or, row) by {
            lemma_compiled_group_truth(all, and_or, row);
        }
    }
    let mut boxed_conditions: Option<BoxedCondition> = None;
    for condition in iter: conditions
        invariant
            iter.seq() == all,
            boxed_conditions == compiled_group(all.take(iter.index()), and_or),
    {
        proof {
            let i = iter.index();
            assert(all.take(i + 1).drop_last() == all.take(i));
            assert(all.take(i + 1).last() == condition);
        }
        boxed_conditions = match condition.to_boxed_condition() {
            Some(boxed_condition) => Some(
                match boxed_conditions {
                    Some(bc) => bc.join(and_or, boxed_condition),
                    None => boxed_condition,
                },
            ),
            None => boxed_conditions,
        };
    }
    assert(all.take(all.len() as int) == all);
    boxed_conditions
}

/// Compiles `conditions` as one conjunction.
#[allow(non_snake_case)]
pub fn create__and_filter(conditions: Vec<Condition>) -> (r: Option<BoxedCondition>)
    ensures
        r == compiled_group(conditions@, AndOr::And),
        r is None <==> all_vacuous(conditions@),
        r matches Some(compiled) ==> {
            &&& compiled.lifts_nullable_fields()
            &&& compiled.domain() == Domain::NullableBool <==> some_reads_nullable(conditions@)
        },
        forall|row: Seq<Value>| #[trigger]
            holds_on(r, row) == group_truth(conditions@, AndOr::And, row),
{
    create_filter(conditions, AndOr::And)
}

} // verus!
