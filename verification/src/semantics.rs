//! What compilation preserves: a compiled condition yields on every row
//! what the tree it came from yields.

use crate::compiler::{compiled_group, extended};
use crate::condition::{
    all_vacuous, group_truth, no_member_asks, some_member_yields, some_reads_nullable, Condition,
};
use crate::filters::AndOr;
use crate::predicate::{lemma_joined_holds, BoxedCondition, Domain};
use crate::truth::Truth;
use crate::value::Value;
use vstd::prelude::*;

verus! {

/// What a compiled condition yields on `row`, where there is one.
pub open spec fn holds_on(compiled: Option<BoxedCondition>, row: Seq<Value>) -> Option<Truth> {
    match compiled {
        Some(condition) => Some(condition.holds(row)),
        None => None,
    }
}

/// The truth of a group so far, extended by the truth of one more member.
pub open spec fn truth_extended(
    so_far: Option<Truth>,
    and_or: AndOr,
    next: Option<Truth>,
) -> Option<Truth> {
    match (so_far, next) {
        (Some(a), Some(b)) => Some(and_or.apply(a, b)),
        (Some(a), None) => Some(a),
        (None, b) => b,
    }
}

/// A group yields what its members but the last yield, extended by the last.
pub proof fn lemma_group_truth_step(conditions: Seq<Condition>, and_or: AndOr, row: Seq<Value>)
    requires
        conditions.len() > 0,
    ensures
        group_truth(conditions, and_or, row) == truth_extended(
            group_truth(conditions.drop_last(), and_or, row),
            and_or,
            conditions.last().truth(row),
        ),
{
    let front = conditions.drop_last();
    let last = conditions.last();
    let n = conditions.len() as int;
    assert(forall|i: int| 0 <= i < n - 1 ==> front[i] == conditions[i]);
    assert(no_member_asks(conditions, row) <==> no_member_asks(front, row) && last.truth(row)
        is None) by {
        if no_member_asks(conditions, row) {
            assert(conditions[n - 1].truth(row) is None);
            assert forall|i: int| 0 <= i < front.len() implies (#[trigger] front[i]).truth(row)
                is None by {
                assert(conditions[i].truth(row) is None);
            }
        }
        if no_member_asks(front, row) && last.truth(row) is None {
            assert forall|i: int| 0 <= i < n implies (#[trigger] conditions[i]).truth(row)
                is None by {
                if i < n - 1 {
                    assert(front[i].truth(row) is None);
                }
            }
        }
    }
    assert forall|t: Truth|
        some_member_yields(conditions, row, t) <==> some_member_yields(front, row, t)
            || last.truth(row) == Some(t) by {
        if some_member_yields(conditions, row, t) {
            let i = choose|i: int|
                0 <= i < n && (#[trigger] conditions[i]).truth(row) == Some(t);
            if i < n - 1 {
                assert(front[i].truth(row) == Some(t));
            }
        }
        if some_member_yields(front, row, t) {
            let i = choose|i: int|
                0 <= i < front.len() && (#[trigger] front[i]).truth(row) == Some(t);
            assert(conditions[i].truth(row) == Some(t));
        }
        if last.truth(row) == Some(t) {
            assert(conditions[n - 1].truth(row) == Some(t));
        }
    }
}

/// A compiled condition yields on every row what its tree yields, and
/// there is none exactly where the tree asks nothing.
pub proof fn lemma_compiled_truth(condition: Condition, row: Seq<Value>)
    ensures
        holds_on(condition.compiled(), row) == condition.truth(row),
    decreases condition,
{
    match condition {
        Condition::Leaf(leaf) => {},
        Condition::And(conditions) => lemma_compiled_group_truth(conditions@, AndOr::And, row),
        Condition::Or(conditions) => lemma_compiled_group_truth(conditions@, AndOr::Or, row),
    }
}

/// A compiled group yields on every row what the group yields.
pub proof fn lemma_compiled_group_truth(conditions: Seq<Condition>, and_or: AndOr, row: Seq<Value>)
    ensures
        holds_on(compiled_group(conditions, and_or), row) == group_truth(conditions, and_or, row),
    decreases conditions,
{
    if conditions.len() > 0 {
        lemma_compiled_group_truth(conditions.drop_last(), and_or, row);
        lemma_compiled_truth(conditions.last(), row);
        lemma_group_truth_step(conditions, and_or, row);
        let so_far = compiled_group(conditions.drop_last(), and_or);
        let next = conditions.last().compiled();
        if so_far is Some && next is Some {
            lemma_joined_holds(so_far->0, and_or, next->0, row);
        }
    }
}

/// A condition compiles to nothing exactly if it asks nothing.
pub proof fn lemma_compiled_vacuous(condition: Condition)
    ensures
        condition.compiled() is None <==> condition.is_vacuous(),
    decreases condition,
{
    match condition {
        Condition::Leaf(leaf) => {},
        Condition::And(conditions) => lemma_compiled_group_vacuous(conditions@, AndOr::And),
        Condition::Or(conditions) => lemma_compiled_group_vacuous(conditions@, AndOr::Or),
    }
}

/// A group compiles to nothing exactly if each of its members asks nothing.
pub proof fn lemma_compiled_group_vacuous(conditions: Seq<Condition>, and_or: AndOr)
    ensures
        compiled_group(conditions, and_or) is None <==> all_vacuous(conditions),
    decreases conditions,
{
    if conditions.len() > 0 {
        let front = conditions.drop_last();
        let n = conditions.len() as int;
        lemma_compiled_group_vacuous(front, and_or);
        lemma_compiled_vacuous(conditions.last());
        if all_vacuous(conditions) {
            assert(conditions[n - 1].is_vacuous());
            assert forall|i: int| 0 <= i < front.len() implies (#[trigger] front[i])
                .is_vacuous() by {
                assert(conditions[i].is_vacuous());
            }
        }
        if all_vacuous(front) && conditions.last().is_vacuous() {
            assert forall|i: int| 0 <= i < n implies (#[trigger] conditions[i]).is_vacuous() by {
                if i < n - 1 {
                    assert(front[i].is_vacuous());
                }
            }
        }
    }
}

/// What a condition compiles to lifts every comparison on a nullable
/// field, and is in the nullable domain exactly if there is such a
/// comparison.
pub proof fn lemma_compiled_domain(condition: Condition)
    ensures
        condition.compiled() matches Some(compiled) ==> {
            &&& compiled.lifts_nullable_fields()
            &&& compiled.domain() == Domain::NullableBool <==> condition.reads_nullable()
        },
        condition.compiled() is None ==> !condition.reads_nullable(),
    decreases condition,
{
    match condition {
        Condition::Leaf(leaf) => {},
        Condition::And(conditions) => lemma_compiled_group_domain(conditions@, AndOr::And),
        Condition::Or(conditions) => lemma_compiled_group_domain(conditions@, AndOr::Or),
    }
}

/// What a group compiles to lifts every comparison on a nullable field,
/// and is in the nullable domain exactly if there is such a comparison.
pub proof fn lemma_compiled_group_domain(conditions: Seq<Condition>, and_or: AndOr)
    ensures
        compiled_group(conditions, and_or) matches Some(compiled) ==> {
            &&& compiled.lifts_nullable_fields()
            &&& compiled.domain() == Domain::NullableBool <==> some_reads_nullable(conditions)
        },
        compiled_group(conditions, and_or) is None ==> !some_reads_nullable(conditions),
    decreases conditions,
{
    if conditions.len() > 0 {
        let front = conditions.drop_last();
        let last = conditions.last();
        let n = conditions.len() as int;
        lemma_compiled_group_domain(front, and_or);
        lemma_compiled_domain(last);
        assert(some_reads_nullable(conditions) <==> some_reads_nullable(front)
            || last.reads_nullable()) by {
            if some_reads_nullable(conditions) {
                let i = choose|i: int|
                    0 <= i < n && (#[trigger] conditions[i]).reads_nullable();
                if i < n - 1 {
                    assert(front[i].reads_nullable());
                }
            }
            if some_reads_nullable(front) {
                let i = choose|i: int|
                    0 <= i < front.len() && (#[trigger] front[i]).reads_nullable();
                assert(conditions[i].reads_nullable());
            }
            if last.reads_nullable() {
                assert(conditions[n - 1].reads_nullable());
            }
        }
        let so_far = compiled_group(front, and_or);
        let next = last.compiled();
        if so_far is Some && next is Some {
            lemma_joined_domain(so_far->0, and_or, next->0);
        }
    }
}

/// Joining keeps every comparison on a nullable field lifted, and gives a
/// nullable condition exactly if one side was nullable.
pub proof fn lemma_joined_domain(a: BoxedCondition, and_or: AndOr, b: BoxedCondition)
    requires
        a.lifts_nullable_fields(),
        b.lifts_nullable_fields(),
    ensures
        a.joined(and_or, b).lifts_nullable_fields(),
        a.joined(and_or, b).domain() == Domain::NullableBool <==> a.domain()
            == Domain::NullableBool || b.domain() == Domain::NullableBool,
{
    match (a, b) {
        (BoxedCondition::Bool(x), BoxedCondition::Bool(y)) => {
            assert(x.joined(and_or, y).strict());
        },
        _ => {},
    }
}

} // verus!
