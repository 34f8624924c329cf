//! Laws of compilation: what holds of every condition tree and every row.

use crate::compiler::{compiled_group, extended};
use crate::condition::{group_truth, no_member_asks, some_member_yields, Condition};
use crate::filters::AndOr;
use crate::leaf::Leaf;
use crate::predicate::{BoolExpr, BoxedCondition};
use crate::semantics::{
    holds_on, lemma_compiled_group_truth, lemma_compiled_truth, lemma_compiled_vacuous,
    lemma_group_truth_step, truth_extended,
};
use crate::truth::Truth;
use crate::value::Value;
use vstd::prelude::*;

verus! {

/// An empty group compiles to nothing under either connective, and asks
/// nothing of any row: it is neither a filter that keeps every row nor
/// one that keeps none.
pub proof fn law_empty_group_is_nothing(group: Condition, and_or: AndOr, row: Seq<Value>)
    requires
        group.is_group_of(and_or, Seq::empty()),
    ensures
        group.compiled() is None,
        group.truth(row) is None,
        compiled_group(Seq::empty(), and_or) is None,
{
}

/// A member that asks nothing, an empty group or a nest of them, changes
/// nothing wherever it stands in a group: what the group compiles to is
/// the very same condition as without it.
pub proof fn law_vacuous_member_is_ignored(
    conditions: Seq<Condition>,
    i: int,
    member: Condition,
    and_or: AndOr,
)
    requires
        0 <= i <= conditions.len(),
        member.is_vacuous(),
    ensures
        compiled_group(conditions.insert(i, member), and_or) == compiled_group(conditions, and_or),
    decreases conditions.len(),
{
    let with_member = conditions.insert(i, member);
    if i == conditions.len() {
        lemma_compiled_vacuous(member);
        assert(with_member.drop_last() == conditions);
        assert(with_member.last() == member);
    } else {
        law_vacuous_member_is_ignored(conditions.drop_last(), i, member, and_or);
        assert(with_member.drop_last() == conditions.drop_last().insert(i, member));
        assert(with_member.last() == conditions.last());
    }
}

/// What a group of two compiles to: the first member's condition joined
/// with the second's, or the one that there is.
pub proof fn lemma_compiled_pair(a: Condition, b: Condition, and_or: AndOr)
    ensures
        compiled_group(seq![a, b], and_or) == extended(a.compiled(), and_or, b.compiled()),
{
    let pair = seq![a, b];
    let single = seq![a];
    assert(pair.drop_last() == single);
    assert(single.drop_last() == Seq::<Condition>::empty());
    assert(compiled_group(single.drop_last(), and_or) is None);
    assert(compiled_group(single, and_or) == extended(None, and_or, a.compiled()));
}

/// A group of two yields the connective applied to what its members
/// yield, or what the one member yields that asks anything.
pub proof fn lemma_pair_truth(a: Condition, b: Condition, and_or: AndOr, row: Seq<Value>)
    ensures
        group_truth(seq![a, b], and_or, row) == truth_extended(a.truth(row), and_or, b.truth(row)),
        holds_on(compiled_group(seq![a, b], and_or), row) == truth_extended(
            a.truth(row),
            and_or,
            b.truth(row),
        ),
{
    let pair = seq![a, b];
    let single = seq![a];
    assert(pair.drop_last() == single);
    assert(single.drop_last() == Seq::<Condition>::empty());
    lemma_group_truth_step(pair, and_or, row);
    lemma_group_truth_step(single, and_or, row);
    assert(group_truth(Seq::<Condition>::empty(), and_or, row) is None);
    lemma_compiled_group_truth(pair, and_or, row);
}

/// What two runs of conditions yield as one group is the connective
/// applied to what each run yields as a group.
pub proof fn law_group_of_concatenation(
    front: Seq<Condition>,
    back: Seq<Condition>,
    and_or: AndOr,
    row: Seq<Value>,
)
    ensures
        group_truth(front + back, and_or, row) == truth_extended(
            group_truth(front, and_or, row),
            and_or,
            group_truth(back, and_or, row),
        ),
    decreases back.len(),
{
    if back.len() == 0 {
        assert(front + back == front);
        assert(no_member_asks(back, row));
    } else {
        law_group_of_concatenation(front, back.drop_last(), and_or, row);
        assert((front + back).drop_last() == front + back.drop_last());
        assert((front + back).last() == back.last());
        lemma_group_truth_step(front + back, and_or, row);
        lemma_group_truth_step(back, and_or, row);
    }
}

/// A group nested in a group of the same connective can be dissolved into
/// it: on every row both compile to conditions that yield the same.
pub proof fn law_nested_group_flattens(
    before: Seq<Condition>,
    nested: Condition,
    members: Seq<Condition>,
    after: Seq<Condition>,
    and_or: AndOr,
    row: Seq<Value>,
)
    requires
        nested.is_group_of(and_or, members),
    ensures
        holds_on(compiled_group(before.push(nested) + after, and_or), row) == holds_on(
            compiled_group(before + members + after, and_or),
            row,
        ),
{
    let nested_alone = seq![nested];
    assert(before.push(nested) == before + nested_alone);
    assert(nested_alone.drop_last() == Seq::<Condition>::empty());
    assert(no_member_asks(Seq::<Condition>::empty(), row));
    lemma_group_truth_step(nested_alone, and_or, row);
    assert(group_truth(nested_alone, and_or, row) == group_truth(members, and_or, row));
    law_group_of_concatenation(before, nested_alone, and_or, row);
    law_group_of_concatenation(before, members, and_or, row);
    law_group_of_concatenation(before + nested_alone, after, and_or, row);
    law_group_of_concatenation(before + members, after, and_or, row);
    lemma_compiled_group_truth(before.push(nested) + after, and_or, row);
    lemma_compiled_group_truth(before + members + after, and_or, row);
}

/// Within one connective the grouping is immaterial: `a` with the group
/// of `b` and `c`, and the group of `a` and `b` with `c`, compile to
/// conditions that yield the same on every row.
pub proof fn law_grouping_is_associative(
    a: Condition,
    b: Condition,
    c: Condition,
    a_b: Condition,
    b_c: Condition,
    and_or: AndOr,
    row: Seq<Value>,
)
    requires
        a_b.is_group_of(and_or, seq![a, b]),
        b_c.is_group_of(and_or, seq![b, c]),
    ensures
        holds_on(compiled_group(seq![a, b_c], and_or), row) == holds_on(
            compiled_group(seq![a_b, c], and_or),
            row,
        ),
{
    let none = Seq::<Condition>::empty();
    law_nested_group_flattens(seq![a], b_c, seq![b, c], none, and_or, row);
    law_nested_group_flattens(none, a_b, seq![a, b], seq![c], and_or, row);
    assert(seq![a].push(b_c) + none == seq![a, b_c]);
    assert(none.push(a_b) + seq![c] == seq![a_b, c]);
    assert(seq![a] + seq![b, c] + none == none + seq![a, b] + seq![c]);
}

/// Within one connective the order is immaterial: two groups with the
/// same members, in whatever order and however often, compile to
/// conditions that yield the same on every row.
pub proof fn law_order_is_immaterial(
    one: Seq<Condition>,
    other: Seq<Condition>,
    and_or: AndOr,
    row: Seq<Value>,
)
    requires
        forall|c: Condition| one.contains(c) <==> other.contains(c),
    ensures
        holds_on(compiled_group(one, and_or), row) == holds_on(compiled_group(other, and_or), row),
{
    lemma_same_members_same_truth(one, other, and_or, row);
    lemma_same_members_same_truth(other, one, and_or, row);
    let decisive = and_or.decisive();
    assert(some_member_yields(one, row, decisive) <==> some_member_yields(other, row, decisive));
    assert(some_member_yields(one, row, Truth::Unknown) <==> some_member_yields(
        other,
        row,
        Truth::Unknown,
    ));
    assert(group_truth(one, and_or, row) == group_truth(other, and_or, row));
    lemma_compiled_group_truth(one, and_or, row);
    lemma_compiled_group_truth(other, and_or, row);
}

/// What holds of the members of one group holds of those of a group
/// whose members are all among them.
proof fn lemma_same_members_same_truth(
    one: Seq<Condition>,
    other: Seq<Condition>,
    and_or: AndOr,
    row: Seq<Value>,
)
    requires
        forall|c: Condition| one.contains(c) <==> other.contains(c),
    ensures
        no_member_asks(one, row) ==> no_member_asks(other, row),
        forall|t: Truth| some_member_yields(one, row, t) ==> some_member_yields(other, row, t),
{
    if no_member_asks(one, row) {
        assert forall|i: int| 0 <= i < other.len() implies (#[trigger] other[i]).truth(row)
            is None by {
            assert(other.contains(other[i]));
            let j = choose|j: int| 0 <= j < one.len() && one[j] == other[i];
            assert(one[j].truth(row) is None);
        }
    }
    assert forall|t: Truth| some_member_yields(one, row, t) implies some_member_yields(
        other,
        row,
        t,
    ) by {
        let i = choose|i: int| 0 <= i < one.len() && (#[trigger] one[i]).truth(row) == Some(t);
        assert(one.contains(one[i]));
        let j = choose|j: int| 0 <= j < other.len() && other[j] == one[i];
        assert(other[j].truth(row) == Some(t));
    }
}

/// Joining two conditions puts the connective at the root.
pub proof fn lemma_joined_connective(a: BoxedCondition, and_or: AndOr, b: BoxedCondition)
    ensures
        a.joined(and_or, b).connective() == Some(and_or),
{
}

/// The nesting decides what is grouped with what. `a` or the group of
/// `b` and `c` compiles to a disjunction, and the group of `a` or `b`
/// with the group of `a` or `c` to a conjunction: they are different
/// conditions, and each yields what its own nesting says. They agree on
/// every row all the same, since three-valued disjunction distributes
/// over conjunction.
pub proof fn law_grouping_is_structural(
    a: Condition,
    b: Condition,
    c: Condition,
    b_and_c: Condition,
    a_or_b: Condition,
    a_or_c: Condition,
    row: Seq<Value>,
)
    requires
        !a.is_vacuous(),
        !b.is_vacuous(),
        !c.is_vacuous(),
        b_and_c.is_group_of(AndOr::And, seq![b, c]),
        a_or_b.is_group_of(AndOr::Or, seq![a, b]),
        a_or_c.is_group_of(AndOr::Or, seq![a, c]),
    ensures
        compiled_group(seq![a, b_and_c], AndOr::Or) != compiled_group(
            seq![a_or_b, a_or_c],
            AndOr::And,
        ),
        compiled_group(seq![a, b_and_c], AndOr::Or) matches Some(compiled)
            && compiled.connective() == Some(AndOr::Or),
        compiled_group(seq![a_or_b, a_or_c], AndOr::And) matches Some(compiled)
            && compiled.connective() == Some(AndOr::And),
        a.truth(row) is Some && b.truth(row) is Some && c.truth(row) is Some,
        holds_on(compiled_group(seq![a, b_and_c], AndOr::Or), row) == Some(
            a.truth(row)->0.or(b.truth(row)->0.and(c.truth(row)->0)),
        ),
        holds_on(compiled_group(seq![a_or_b, a_or_c], AndOr::And), row) == Some(
            a.truth(row)->0.or(b.truth(row)->0).and(a.truth(row)->0.or(c.truth(row)->0)),
        ),
        holds_on(compiled_group(seq![a, b_and_c], AndOr::Or), row) == holds_on(
            compiled_group(seq![a_or_b, a_or_c], AndOr::And),
            row,
        ),
{
    lemma_compiled_vacuous(a);
    lemma_compiled_vacuous(b);
    lemma_compiled_vacuous(c);
    lemma_compiled_pair(b, c, AndOr::And);
    lemma_compiled_pair(a, b, AndOr::Or);
    lemma_compiled_pair(a, c, AndOr::Or);
    lemma_compiled_pair(a, b_and_c, AndOr::Or);
    lemma_compiled_pair(a_or_b, a_or_c, AndOr::And);
    lemma_joined_connective(a.compiled()->0, AndOr::Or, b_and_c.compiled()->0);
    lemma_joined_connective(a_or_b.compiled()->0, AndOr::And, a_or_c.compiled()->0);
    lemma_compiled_truth_is_some(a, row);
    lemma_compiled_truth_is_some(b, row);
    lemma_compiled_truth_is_some(c, row);
    lemma_pair_truth(b, c, AndOr::And, row);
    lemma_pair_truth(a, b, AndOr::Or, row);
    lemma_pair_truth(a, c, AndOr::Or, row);
    lemma_pair_truth(a, b_and_c, AndOr::Or, row);
    lemma_pair_truth(a_or_b, a_or_c, AndOr::And, row);
}

/// A condition that asks anything yields a truth on every row.
proof fn lemma_compiled_truth_is_some(condition: Condition, row: Seq<Value>)
    requires
        !condition.is_vacuous(),
    ensures
        condition.truth(row) is Some,
{
    lemma_compiled_vacuous(condition);
    lemma_compiled_truth(condition, row);
}

/// Moving a member from one group into another changes what is asked:
/// where `a` is true and `c` is false, `a` or the group of `b` and `c`
/// is true, while the group of `a` or `b`, and `c`, is false.
pub proof fn law_regrouping_changes_meaning(
    a: Condition,
    b: Condition,
    c: Condition,
    b_and_c: Condition,
    a_or_b: Condition,
    row: Seq<Value>,
)
    requires
        a.truth(row) == Some(Truth::True),
        b.truth(row) is Some,
        c.truth(row) == Some(Truth::False),
        b_and_c.is_group_of(AndOr::And, seq![b, c]),
        a_or_b.is_group_of(AndOr::Or, seq![a, b]),
    ensures
        holds_on(compiled_group(seq![a, b_and_c], AndOr::Or), row) == Some(Truth::True),
        holds_on(compiled_group(seq![a_or_b, c], AndOr::And), row) == Some(Truth::False),
{
    lemma_pair_truth(b, c, AndOr::And, row);
    lemma_pair_truth(a, b, AndOr::Or, row);
    lemma_pair_truth(a, b_and_c, AndOr::Or, row);
    lemma_pair_truth(a_or_b, c, AndOr::And, row);
}

/// A comparison whose value is absent from the row does not keep a true
/// condition from holding in a disjunction: the two together are true.
pub proof fn law_absent_or_true_is_true(leaf: Leaf, other: Condition, row: Seq<Value>)
    requires
        leaf.absent_in(row),
        other.truth(row) == Some(Truth::True),
    ensures
        holds_on(compiled_group(seq![Condition::Leaf(leaf), other], AndOr::Or), row) == Some(
            Truth::True,
        ),
        holds_on(compiled_group(seq![other, Condition::Leaf(leaf)], AndOr::Or), row) == Some(
            Truth::True,
        ),
{
    lemma_pair_truth(Condition::Leaf(leaf), other, AndOr::Or, row);
    lemma_pair_truth(other, Condition::Leaf(leaf), AndOr::Or, row);
}

/// A comparison whose value is absent from the row is not made true by a
/// true condition beside it in a conjunction: the two together are what
/// the comparison alone is, unknown or false, and the row is not kept.
/// The one filter that is true of an absent value, the test for absence
/// itself, is left out.
pub proof fn law_absent_and_true_is_not_true(leaf: Leaf, other: Condition, row: Seq<Value>)
    requires
        leaf.absent_in(row),
        !leaf.filter().asks_absence(),
        other.truth(row) == Some(Truth::True),
    ensures
        leaf.holds(row) != Truth::True,
        holds_on(compiled_group(seq![Condition::Leaf(leaf), other], AndOr::And), row) == Some(
            leaf.holds(row),
        ),
        holds_on(compiled_group(seq![other, Condition::Leaf(leaf)], AndOr::And), row) == Some(
            leaf.holds(row),
        ),
{
    lemma_pair_truth(Condition::Leaf(leaf), other, AndOr::And, row);
    lemma_pair_truth(other, Condition::Leaf(leaf), AndOr::And, row);
}

/// The test for absence and the test for presence of one field part the
/// rows on which another condition is true, or on which it asks nothing:
/// each such row is kept by exactly one of the two conjunctions. A row on
/// which the other condition is false or unknown is kept by neither.
pub proof fn law_null_checks_partition(
    is_null: Leaf,
    is_not_null: Leaf,
    other: Condition,
    row: Seq<Value>,
)
    requires
        is_null.filter().asks_absence(),
        is_not_null.filter().asks_presence(),
        is_null.filter().kind() == is_not_null.filter().kind(),
        is_null.field().column == is_not_null.field().column,
    ensures
        ({
            let with_null = holds_on(
                compiled_group(seq![Condition::Leaf(is_null), other], AndOr::And),
                row,
            );
            let with_not_null = holds_on(
                compiled_group(seq![Condition::Leaf(is_not_null), other], AndOr::And),
                row,
            );
            if other.truth(row) == Some(Truth::True) || other.truth(row) is None {
                (with_null == Some(Truth::True)) != (with_not_null == Some(Truth::True))
            } else {
                with_null != Some(Truth::True) && with_not_null != Some(Truth::True)
            }
        }),
{
    lemma_pair_truth(Condition::Leaf(is_null), other, AndOr::And, row);
    lemma_pair_truth(Condition::Leaf(is_not_null), other, AndOr::And, row);
}

/// An expression in the plain domain that reads only fields that are
/// always present is never unknown on a row that gives those fields
/// their values.
pub proof fn law_plain_condition_is_definite(expression: BoolExpr, row: Seq<Value>)
    requires
        expression.strict(),
        expression.provided_by(row),
    ensures
        expression.holds(row).definite(),
    decreases expression,
{
    match expression {
        BoolExpr::Compare(leaf) => {},
        BoolExpr::And(a, b) => {
            law_plain_condition_is_definite(*a, row);
            law_plain_condition_is_definite(*b, row);
        },
        BoolExpr::Or(a, b) => {
            law_plain_condition_is_definite(*a, row);
            law_plain_condition_is_definite(*b, row);
        },
    }
}

} // verus!
