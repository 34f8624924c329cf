//! Compiled conditions: boolean expressions over the fields of one row, in
//! the plain boolean domain or lifted into the nullable one.

use crate::filters::AndOr;
use crate::leaf::Leaf;
use crate::truth::Truth;
use crate::value::Value;
use vstd::prelude::*;

verus! {

/// The type of an expression's value.
#[derive(Clone, Copy, Debug, PartialEq, Eq, Structural)]
pub enum Domain {
    /// True or false.
    Bool,
    /// True, false or unknown.
    NullableBool,
}

/// An expression in the plain boolean domain.
#[derive(Debug, PartialEq, Eq)]
pub enum BoolExpr {
    Compare(Leaf),
    And(Box<BoolExpr>, Box<BoolExpr>),
    Or(Box<BoolExpr>, Box<BoolExpr>),
}

/// An expression in the nullable boolean domain. Its operands are all in
/// that domain too: each comparison in it was lifted there by itself.
#[derive(Debug, PartialEq, Eq)]
pub enum NullableExpr {
    Lifted(Leaf),
    And(Box<NullableExpr>, Box<NullableExpr>),
    Or(Box<NullableExpr>, Box<NullableExpr>),
}

/// A compiled condition, ready to filter the rows of a query.
#[derive(Debug, PartialEq, Eq)]
pub enum BoxedCondition {
    Bool(BoolExpr),
    Nullable(NullableExpr),
}

impl BoolExpr {
    /// What the expression yields on `row`.
    pub open spec fn holds(self, row: Seq<Value>) -> Truth
        decreases self,
    {
        match self {
            BoolExpr::Compare(leaf) => leaf.holds(row),
            BoolExpr::And(a, b) => a.holds(row).and(b.holds(row)),
            BoolExpr::Or(a, b) => a.holds(row).or(b.holds(row)),
        }
    }

    /// Whether the expression reads only fields that are always present.
    pub open spec fn strict(self) -> bool
        decreases self,
    {
        match self {
            BoolExpr::Compare(leaf) => !leaf.field().nullable,
            BoolExpr::And(a, b) => a.strict() && b.strict(),
            BoolExpr::Or(a, b) => a.strict() && b.strict(),
        }
    }

    /// Whether `row` gives every comparison in the expression what its field declares.
    pub open spec fn provided_by(self, row: Seq<Value>) -> bool
        decreases self,
    {
        match self {
            BoolExpr::Compare(leaf) => leaf.provided_by(row),
            BoolExpr::And(a, b) => a.provided_by(row) && b.provided_by(row),
            BoolExpr::Or(a, b) => a.provided_by(row) && b.provided_by(row),
        }
    }

    /// The expression in the nullable domain: the same connectives over
    /// the same comparisons, each of them lifted.
    pub open spec fn lifted(self) -> NullableExpr
        decreases self,
    {
        match self {
            BoolExpr::Compare(leaf) => NullableExpr::Lifted(leaf),
            BoolExpr::And(a, b) => NullableExpr::And(Box::new(a.lifted()), Box::new(b.lifted())),
            BoolExpr::Or(a, b) => NullableExpr::Or(Box::new(a.lifted()), Box::new(b.lifted())),
        }
    }

    /// The two expressions joined by one connective.
    pub open spec fn joined(self, and_or: AndOr, other: BoolExpr) -> BoolExpr {
        match and_or {
            AndOr::And => BoolExpr::And(Box::new(self), Box::new(other)),
            AndOr::Or => BoolExpr::Or(Box::new(self), Box::new(other)),
        }
    }

    /// Applies the expression to `row`.
    pub fn evaluate(&self, row: &Vec<Value>) -> (t: Truth)
        ensures
            t == self.holds(row@),
        decreases self,
    {
        match self {
            BoolExpr::Compare(leaf) => leaf.evaluate(row),
            BoolExpr::And(a, b) => a.evaluate(row).and(b.evaluate(row)),
            BoolExpr::Or(a, b) => a.evaluate(row).or(b.evaluate(row)),
        }
    }

    /// Moves the expression into the nullable domain. What it yields on a
    /// row stays what it was.
    pub fn nullable(self) -> (r: NullableExpr)
        ensures
            r == self.lifted(),
            forall|row: Seq<Value>| #[trigger] r.holds(row) == self.holds(row),
        decreases self,
    {
        proof {
            assert forall|row: Seq<Value>| #[trigger]
                self.lifted().holds(row) == self.holds(row) by {
                lemma_lifted_holds(self, row);
            }
        }
        match self {
            BoolExpr::Compare(leaf) => NullableExpr::Lifted(leaf),
            BoolExpr::And(a, b) => NullableExpr::And(
                Box::new((*a).nullable()),
                Box::new((*b).nullable()),
            ),
            BoolExpr::Or(a, b) => NullableExpr::Or(
                Box::new((*a).nullable()),
                Box::new((*b).nullable()),
            ),
        }
    }
}

/// A lift changes the domain of an expression, not what it yields.
pub proof fn lemma_lifted_holds(expression: BoolExpr, row: Seq<Value>)
    ensures
        expression.lifted().holds(row) == expression.holds(row),
    decreases expression,
{
    match expression {
        BoolExpr::Compare(leaf) => {},
        BoolExpr::And(a, b) => {
            lemma_lifted_holds(*a, row);
            lemma_lifted_holds(*b, row);
        },
        BoolExpr::Or(a, b) => {
            lemma_lifted_holds(*a, row);
            lemma_lifted_holds(*b, row);
        },
    }
}

impl NullableExpr {
    /// What the expression yields on `row`. A lift changes the domain, not the value.
    pub open spec fn holds(self, row: Seq<Value>) -> Truth
        decreases self,
    {
        match self {
            NullableExpr::Lifted(leaf) => leaf.holds(row),
            NullableExpr::And(a, b) => a.holds(row).and(b.holds(row)),
            NullableExpr::Or(a, b) => a.holds(row).or(b.holds(row)),
        }
    }

    /// The two expressions joined by one connective.
    pub open spec fn joined(self, and_or: AndOr, other: NullableExpr) -> NullableExpr {
        match and_or {
            AndOr::And => NullableExpr::And(Box::new(self), Box::new(other)),
            AndOr::Or => NullableExpr::Or(Box::new(self), Box::new(other)),
        }
    }

    /// Applies the expression to `row`.
    pub fn evaluate(&self, row: &Vec<Value>) -> (t: Truth)
        ensures
            t == self.holds(row@),
        decreases self,
    {
        match self {
            NullableExpr::Lifted(leaf) => leaf.evaluate(row),
            NullableExpr::And(a, b) => a.evaluate(row).and(b.evaluate(row)),
            NullableExpr::Or(a, b) => a.evaluate(row).or(b.evaluate(row)),
        }
    }
}

impl BoxedCondition {
    /// What the condition yields on `row`.
    pub open spec fn holds(self, row: Seq<Value>) -> Truth {
        match self {
            BoxedCondition::Bool(e) => e.holds(row),
            BoxedCondition::Nullable(e) => e.holds(row),
        }
    }

    /// The domain in which the condition was compiled.
    pub open spec fn domain(self) -> Domain {
        match self {
            BoxedCondition::Bool(_) => Domain::Bool,
            BoxedCondition::Nullable(_) => Domain::NullableBool,
        }
    }

    /// Whether every comparison on a nullable field was lifted: a
    /// condition in the plain domain reads no such field.
    pub open spec fn lifts_nullable_fields(self) -> bool {
        match self {
            BoxedCondition::Bool(e) => e.strict(),
            BoxedCondition::Nullable(_) => true,
        }
    }

    /// The connective at the root of the condition, if it is not a single comparison.
    pub open spec fn connective(self) -> Option<AndOr> {
        match self {
            BoxedCondition::Bool(BoolExpr::And(_, _)) => Some(AndOr::And),
            BoxedCondition::Bool(BoolExpr::Or(_, _)) => Some(AndOr::Or),
            BoxedCondition::Bool(BoolExpr::Compare(_)) => None,
            BoxedCondition::Nullable(NullableExpr::And(_, _)) => Some(AndOr::And),
            BoxedCondition::Nullable(NullableExpr::Or(_, _)) => Some(AndOr::Or),
            BoxedCondition::Nullable(NullableExpr::Lifted(_)) => None,
        }
    }

    /// The condition in the nullable domain: itself if it is there already,
    /// else with each of its comparisons lifted.
    pub open spec fn lifted(self) -> NullableExpr {
        match self {
            BoxedCondition::Bool(e) => e.lifted(),
            BoxedCondition::Nullable(e) => e,
        }
    }

    /// The two conditions joined by one connective. Two plain conditions
    /// stay plain; if either is nullable, both sides enter the nullable
    /// domain first, so that the operands of a connective are of one domain.
    pub open spec fn joined(self, and_or: AndOr, other: BoxedCondition) -> BoxedCondition {
        match (self, other) {
            (BoxedCondition::Bool(a), BoxedCondition::Bool(b)) => BoxedCondition::Bool(
                a.joined(and_or, b),
            ),
            _ => BoxedCondition::Nullable(self.lifted().joined(and_or, other.lifted())),
        }
    }

    /// Applies the condition to `row`.
    pub fn evaluate(&self, row: &Vec<Value>) -> (t: Truth)
        ensures
            t == self.holds(row@),
    {
        match self {
            BoxedCondition::Bool(e) => e.evaluate(row),
            BoxedCondition::Nullable(e) => e.evaluate(row),
        }
    }

    /// The domain of the condition.
    pub fn domain_of(&self) -> (d: Domain)
        ensures
            d == self.domain(),
    {
        match self {
            BoxedCondition::Bool(_) => Domain::Bool,
            BoxedCondition::Nullable(_) => Domain::NullableBool,
        }
    }

    /// Joins the two conditions by `and_or`: the result yields on every
    /// row the connective applied to what the two yield.
    pub fn join(self, and_or: AndOr, other: BoxedCondition) -> (r: BoxedCondition)
        ensures
            r == self.joined(and_or, other),
            r.connective() == Some(and_or),
            r.domain() == Domain::Bool <==> self.domain() == Domain::Bool && other.domain()
                == Domain::Bool,
            forall|row: Seq<Value>| #[trigger]
                r.holds(row) == and_or.apply(self.holds(row), other.holds(row)),
    {
        match and_or {
            AndOr::And => self.and(other),
            AndOr::Or => self.or(other),
        }
    }

    /// The conjunction of the two conditions.
    pub fn and(self, other: BoxedCondition) -> (r: BoxedCondition)
        ensures
            r == self.joined(AndOr::And, other),
            r.connective() == Some(AndOr::And),
            r.domain() == Domain::Bool <==> self.domain() == Domain::Bool && other.domain()
                == Domain::Bool,
            forall|row: Seq<Value>| #[trigger]
                r.holds(row) == self.holds(row).and(other.holds(row)),
    {
        proof {
            assert forall|row: Seq<Value>| #[trigger]
                self.joined(AndOr::And, other).holds(row) == self.holds(row).and(
                    other.holds(row),
                ) by {
                lemma_joined_holds(self, AndOr::And, other, row);
            }
        }
        match (self, other) {
            (BoxedCondition::Bool(a), BoxedCondition::Bool(b)) => BoxedCondition::Bool(
                BoolExpr::And(Box::new(a), Box::new(b)),
            ),
            (a, b) => BoxedCondition::Nullable(
                NullableExpr::And(Box::new(a.nullable()), Box::new(b.nullable())),
            ),
        }
    }

    /// The disjunction of the two conditions.
    pub fn or(self, other: BoxedCondition) -> (r: BoxedCondition)
        ensures
            r == self.joined(AndOr::Or, other),
            r.connective() == Some(AndOr::Or),
            r.domain() == Domain::Bool <==> self.domain() == Domain::Bool && other.domain()
                == Domain::Bool,
            forall|row: Seq<Value>| #[trigger]
                r.holds(row) == self.holds(row).or(other.holds(row)),
    {
        proof {
            assert forall|row: Seq<Value>| #[trigger]
                self.joined(AndOr::Or, other).holds(row) == self.holds(row).or(
                    other.holds(row),
                ) by {
                lemma_joined_holds(self, AndOr::Or, other, row);
            }
        }
        match (self, other) {
            (BoxedCondition::Bool(a), BoxedCondition::Bool(b)) => BoxedCondition::Bool(
                BoolExpr::Or(Box::new(a), Box::new(b)),
            ),
            (a, b) => BoxedCondition::Nullable(
                NullableExpr::Or(Box::new(a.nullable()), Box::new(b.nullable())),
            ),
        }
    }

    /// Moves the condition into the nullable domain. What it yields on a
    /// row stays what it was.
    pub fn nullable(self) -> (r: NullableExpr)
        ensures
            r == self.lifted(),
            forall|row: Seq<Value>| #[trigger] r.holds(row) == self.holds(row),
    {
        match self {
            BoxedCondition::Bool(e) => e.nullable(),
            BoxedCondition::Nullable(e) => e,
        }
    }
}

/// Joining two compiled conditions applies the connective to what they yield.
pub proof fn lemma_joined_holds(
    a: BoxedCondition,
    and_or: AndOr,
    b: BoxedCondition,
    row: Seq<Value>,
)
    ensures
        a.joined(and_or, b).holds(row) == and_or.apply(a.holds(row), b.holds(row)),
{
    match (a, b) {
        (BoxedCondition::Bool(x), BoxedCondition::Bool(y)) => {
            assert(x.joined(and_or, y).holds(row) == and_or.apply(x.holds(row), y.holds(row)));
        },
        _ => {
            let x = a.lifted();
            let y = b.lifted();
            if let BoxedCondition::Bool(e) = a {
                lemma_lifted_holds(e, row);
            }
            if let BoxedCondition::Bool(e) = b {
                lemma_lifted_holds(e, row);
            }
            assert(x.joined(and_or, y).holds(row) == and_or.apply(x.holds(row), y.holds(row)));
        },
    }
}

} // verus!
