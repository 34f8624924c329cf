//! Queries as far as filtering goes: which rows of a source a query keeps.

use crate::compiler::{compiled_group, create_filter};
use crate::condition::{group_truth, Condition};
use crate::filters::AndOr;
use crate::predicate::BoxedCondition;
use crate::semantics::holds_on;
use crate::truth::Truth;
use crate::value::Value;
use vstd::prelude::*;

verus! {

/// A query over the joined rows of its sources, with the filters applied
/// to it so far. It keeps a row on which every filter is true.
#[derive(Debug, PartialEq, Eq)]
pub struct BoxedQuery {
    pub filters: Vec<BoxedCondition>,
}

/// Whether every one of `filters` is true on `row`.
pub open spec fn all_true(filters: Seq<BoxedCondition>, row: Seq<Value>) -> bool {
    forall|i: int| 0 <= i < filters.len() ==> (#[trigger] filters[i]).holds(row) == Truth::True
}

impl BoxedQuery {
    /// Whether the query keeps `row`.
    pub open spec fn keeps(self, row: Seq<Value>) -> bool {
        all_true(self.filters@, row)
    }

    /// A query that keeps every row.
    pub fn new() -> (q: BoxedQuery)
        ensures
            q.filters@ == Seq::<BoxedCondition>::empty(),
            forall|row: Seq<Value>| #[trigger] q.keeps(row),
    {
        BoxedQuery { filters: Vec::new() }
    }

    /// The query with one more filter: it then keeps the rows that it kept
    /// before and on which `condition` is true.
    pub fn filter(self, condition: BoxedCondition) -> (q: BoxedQuery)
        ensures
            q.filters@ == self.filters@.push(condition),
            forall|row: Seq<Value>| #[trigger]
                q.keeps(row) <==> self.keeps(row) && condition.holds(row) == Truth::True,
    {
        let ghost before = self.filters@;
        let mut filters = self.filters;
        filters.push(condition);
        proof {
            assert forall|row: Seq<Value>| #[trigger]
                all_true(filters@, row) <==> all_true(before, row) && condition.holds(row)
                    == Truth::True by {
                if all_true(filters@, row) {
                    assert(filters@[before.len() as int].holds(row) == Truth::True);
                    assert forall|i: int| 0 <= i < before.len() implies (#[trigger] before[i])
                        .holds(row) == Truth::True by {
                        assert(filters@[i].holds(row) == Truth::True);
                    }
                }
            }
        }
        BoxedQuery { filters }
    }

    /// The query with `condition` applied as a filter if there is one, and
    /// as it was if there is none.
    pub fn filter_if_some(self, condition: Option<BoxedCondition>) -> (q: BoxedQuery)
        ensures
            q.filters@ == match condition {
                Some(c) => self.filters@.push(c),
                None => self.filters@,
            },
            forall|row: Seq<Value>| #[trigger]
                q.keeps(row) <==> self.keeps(row) && match condition {
                    Some(c) => c.holds(row) == Truth::True,
                    None => true,
                },
    {
        match condition {
            Some(c) => self.filter(c),
            None => self,
        }
    }

    /// Decides whether the query keeps `row`.
    pub fn selects(&self, row: &Vec<Value>) -> (b: bool)
        ensures
            b == self.keeps(row@),
    {
        let mut i: usize = 0;
        while i < self.filters.len()
            invariant
                i <= self.filters@.len(),
                forall|j: int|
                    0 <= j < i ==> (#[trigger] self.filters@[j]).holds(row@) == Truth::True,
            decreases self.filters@.len() - i,
        {
            if !self.filters[i].evaluate(row).is_true() {
                return false;
            }
            i += 1;
        }
        true
    }

    /// The positions of the rows that the query keeps, in ascending order.
    pub fn load(&self, rows: &Vec<Vec<Value>>) -> (kept: Vec<usize>)
        ensures
            forall|k: int|
                0 <= k < kept@.len() ==> (#[trigger] kept@[k]) < rows@.len() && self.keeps(
                    rows@[kept@[k] as int]@,
                ),
            forall|i: int|
                0 <= i < rows@.len() && self.keeps((#[trigger] rows@[i])@) ==> kept@.contains(
                    i as usize,
                ),
            forall|k: int, l: int| 0 <= k < l < kept@.len() ==> kept@[k] < kept@[l],
    {
        let mut kept: Vec<usize> = Vec::new();
        let mut i: usize = 0;
        while i < rows.len()
            invariant
                i <= rows@.len(),
                forall|k: int|
                    0 <= k < kept@.len() ==> (#[trigger] kept@[k]) < i && self.keeps(
                        rows@[kept@[k] as int]@,
                    ),
                forall|j: int|
                    0 <= j < i && self.keeps((#[trigger] rows@[j])@) ==> kept@.contains(j as usize),
                forall|k: int, l: int| 0 <= k < l < kept@.len() ==> kept@[k] < kept@[l],
            decreases rows@.len() - i,
        {
            if self.selects(&rows[i]) {
                let ghost before = kept@;
                kept.push(i);
                proof {
                    assert(kept@[before.len() as int] == i);
                    assert forall|j: int|
                        0 <= j < i + 1 && self.keeps((#[trigger] rows@[j])@) implies kept@.contains(
                        j as usize,
                    ) by {
                        if j < i {
                            let k = choose|k: int| 0 <= k < before.len() && before[k] == j as usize;
                            assert(kept@[k] == j as usize);
                        }
                    }
                }
            }
            i += 1;
        }
        kept
    }
}

/// The query that keeps the rows on which all of `conditions` hold. If
/// they ask nothing, the query is left without a filter and keeps every row.
pub fn create_filtered_query(conditions: Vec<Condition>) -> (q: BoxedQuery)
    ensures
        q.filters@ == match compiled_group(conditions@, AndOr::And) {
            Some(c) => seq![c],
            None => Seq::empty(),
        },
        forall|row: Seq<Value>| #[trigger]
            q.keeps(row) <==> group_truth(conditions@, AndOr::And, row) is None || group_truth(
                conditions@,
                AndOr::And,
                row,
            ) == Some(Truth::True),
{
    let boxed_query = BoxedQuery::new();
    let filter = create_filter(conditions, AndOr::And);
    let ghost compiled = filter;
    let filtered = boxed_query.filter_if_some(filter);
    proof {
        assert forall|row: Seq<Value>| #[trigger]
            filtered.keeps(row) <==> group_truth(conditions@, AndOr::And, row) is None
                || group_truth(conditions@, AndOr::And, row) == Some(Truth::True) by {
            assert(holds_on(compiled, row) == group_truth(conditions@, AndOr::And, row));
            assert(boxed_query.keeps(row));
        }
    }
    filtered
}

} // verus!
