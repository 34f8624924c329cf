//! The closed sets of comparisons that a condition can make on one field,
//! and what each of them yields on a value that may be absent.

use crate::double::Double;
use crate::pattern::{like, like_match};
use crate::truth::Truth;
use crate::value::{Value, ValueKind};
use vstd::prelude::*;

verus! {

/// How the conditions of one group are joined.
#[derive(Clone, Copy, Debug, PartialEq, Eq, Structural)]
pub enum AndOr {
    And,
    Or,
}

impl AndOr {
    /// The connective applied to two truths.
    pub open spec fn apply(self, a: Truth, b: Truth) -> Truth {
        match self {
            AndOr::And => a.and(b),
            AndOr::Or => a.or(b),
        }
    }

    /// The truth that settles a group at once: false in a conjunction, true
    /// in a disjunction.
    pub open spec fn decisive(self) -> Truth {
        match self {
            AndOr::And => Truth::False,
            AndOr::Or => Truth::True,
        }
    }
}

/// A number that a filter can compare: it is ordered by an integer key.
pub trait Number: Sized {
    /// The integer by which values of this type are ordered and told apart.
    spec fn key(&self) -> int;

    /// Computes the key.
    fn order_key(&self) -> (k: i64)
        ensures
            k == self.key(),
    ;
}

impl Number for i32 {
    open spec fn key(&self) -> int {
        *self as int
    }

    fn order_key(&self) -> (k: i64) {
        *self as i64
    }
}

impl Number for Double {
    open spec fn key(&self) -> int {
        Double::key(*self)
    }

    fn order_key(&self) -> (k: i64) {
        Double::order_key(self)
    }
}

/// A comparison on a numeric field.
#[derive(Clone, Debug, PartialEq, Eq)]
pub enum NumberFilter<T> {
    Equal(T),
    NotEqual(T),
    GreaterThan(T),
    LessThan(T),
    IsNull,
    IsNotNull,
}

/// A comparison on a text field.
#[derive(Clone, Debug, PartialEq, Eq)]
pub enum StringFilter {
    Equal(String),
    NotEqual(String),
    /// The text matches the wildcard pattern.
    Like(String),
    /// The text is one of those listed.
    In(Vec<String>),
    IsNull,
    IsNotNull,
}

/// A comparison on a boolean field.
#[derive(Clone, Copy, Debug, PartialEq, Eq, Structural)]
pub enum BooleanFilter {
    IsTrue,
    IsFalse,
    IsNull,
    IsNotNull,
}

/// A filter of any kind, not yet bound to a field.
#[derive(Clone, Debug, PartialEq, Eq)]
pub enum LeafFilter {
    Integer(NumberFilter<i32>),
    Double(NumberFilter<Double>),
    Text(StringFilter),
    Boolean(BooleanFilter),
}

/// The value behind a borrowed option.
pub open spec fn copied<T>(value: Option<&T>) -> Option<T> {
    match value {
        Some(v) => Some(*v),
        None => None,
    }
}

/// The characters of the text behind a borrowed option.
pub open spec fn text_of(value: Option<&String>) -> Option<Seq<char>> {
    match value {
        Some(v) => Some(v@),
        None => None,
    }
}

/// Whether `text` is the text of one of `items`.
pub open spec fn listed(items: Seq<String>, text: Seq<char>) -> bool {
    exists|i: int| 0 <= i < items.len() && (#[trigger] items[i])@ == text
}

/// Decides whether `text` is one of `items`.
pub fn is_listed(items: &Vec<String>, text: &String) -> (b: bool)
    ensures
        b == listed(items@, text@),
{
    let mut i: usize = 0;
    while i < items.len()
        invariant
            i <= items@.len(),
            forall|j: int| 0 <= j < i ==> (#[trigger] items@[j])@ != text@,
        decreases items@.len() - i,
    {
        if items[i] == *text {
            return true;
        }
        i += 1;
    }
    false
}

impl<T: Number> NumberFilter<T> {
    /// What the comparison yields on `value`, where `None` is an absent
    /// value: the two tests for a value are always definite, the others
    /// are unknown when there is none.
    pub open spec fn holds(self, value: Option<T>) -> Truth {
        match self {
            NumberFilter::IsNull => Truth::of(value is None),
            NumberFilter::IsNotNull => Truth::of(value is Some),
            NumberFilter::Equal(x) => match value {
                Some(v) => Truth::of(v.key() == x.key()),
                None => Truth::Unknown,
            },
            NumberFilter::NotEqual(x) => match value {
                Some(v) => Truth::of(v.key() != x.key()),
                None => Truth::Unknown,
            },
            NumberFilter::GreaterThan(x) => match value {
                Some(v) => Truth::of(v.key() > x.key()),
                None => Truth::Unknown,
            },
            NumberFilter::LessThan(x) => match value {
                Some(v) => Truth::of(v.key() < x.key()),
                None => Truth::Unknown,
            },
        }
    }

    /// Applies the comparison to `value`.
    pub fn evaluate(&self, value: Option<&T>) -> (t: Truth)
        ensures
            t == self.holds(copied(value)),
    {
        match self {
            NumberFilter::IsNull => Truth::from_bool(value.is_none()),
            NumberFilter::IsNotNull => Truth::from_bool(value.is_some()),
            NumberFilter::Equal(x) => match value {
                Some(v) => Truth::from_bool(v.order_key() == x.order_key()),
                None => Truth::Unknown,
            },
            NumberFilter::NotEqual(x) => match value {
                Some(v) => Truth::from_bool(v.order_key() != x.order_key()),
                None => Truth::Unknown,
            },
            NumberFilter::GreaterThan(x) => match value {
                Some(v) => Truth::from_bool(v.order_key() > x.order_key()),
                None => Truth::Unknown,
            },
            NumberFilter::LessThan(x) => match value {
                Some(v) => Truth::from_bool(v.order_key() < x.order_key()),
                None => Truth::Unknown,
            },
        }
    }
}

impl StringFilter {
    /// What the comparison yields on `value`, where `None` is an absent value.
    /// Membership is the disjunction of one equality per listed text: on an
    /// absent value it is unknown, but false when nothing is listed.
    pub open spec fn holds(self, value: Option<Seq<char>>) -> Truth {
        match self {
            StringFilter::IsNull => Truth::of(value is None),
            StringFilter::IsNotNull => Truth::of(value is Some),
            StringFilter::Equal(s) => match value {
                Some(v) => Truth::of(v == s@),
                None => Truth::Unknown,
            },
            StringFilter::NotEqual(s) => match value {
                Some(v) => Truth::of(v != s@),
                None => Truth::Unknown,
            },
            StringFilter::Like(pattern) => match value {
                Some(v) => Truth::of(like(pattern@, v)),
                None => Truth::Unknown,
            },
            StringFilter::In(items) => match value {
                Some(v) => Truth::of(listed(items@, v)),
                None => if items@.len() == 0 {
                    Truth::False
                } else {
                    Truth::Unknown
                },
            },
        }
    }

    /// Applies the comparison to `value`.
    pub fn evaluate(&self, value: Option<&String>) -> (t: Truth)
        ensures
            t == self.holds(text_of(value)),
    {
        match self {
            StringFilter::IsNull => Truth::from_bool(value.is_none()),
            StringFilter::IsNotNull => Truth::from_bool(value.is_some()),
            StringFilter::Equal(s) => match value {
                Some(v) => Truth::from_bool(*v == *s),
                None => Truth::Unknown,
            },
            StringFilter::NotEqual(s) => match value {
                Some(v) => Truth::from_bool(!(*v == *s)),
                None => Truth::Unknown,
            },
            StringFilter::Like(pattern) => match value {
                Some(v) => Truth::from_bool(like_match(pattern.as_str(), v.as_str())),
                None => Truth::Unknown,
            },
            StringFilter::In(items) => match value {
                Some(v) => Truth::from_bool(is_listed(items, v)),
                None => if items.len() == 0 {
                    Truth::False
                } else {
                    Truth::Unknown
                },
            },
        }
    }
}

impl BooleanFilter {
    /// What the comparison yields on `value`, where `None` is an absent value.
    pub open spec fn holds(self, value: Option<bool>) -> Truth {
        match self {
            BooleanFilter::IsNull => Truth::of(value is None),
            BooleanFilter::IsNotNull => Truth::of(value is Some),
            BooleanFilter::IsTrue => match value {
                Some(v) => Truth::of(v),
                None => Truth::Unknown,
            },
            BooleanFilter::IsFalse => match value {
                Some(v) => Truth::of(!v),
                None => Truth::Unknown,
            },
        }
    }

    /// Applies the comparison to `value`.
    pub fn evaluate(&self, value: Option<bool>) -> (t: Truth)
        ensures
            t == self.holds(value),
    {
        match self {
            BooleanFilter::IsNull => Truth::from_bool(value.is_none()),
            BooleanFilter::IsNotNull => Truth::from_bool(value.is_some()),
            BooleanFilter::IsTrue => match value {
                Some(v) => Truth::from_bool(v),
                None => Truth::Unknown,
            },
            BooleanFilter::IsFalse => match value {
                Some(v) => Truth::from_bool(!v),
                None => Truth::Unknown,
            },
        }
    }
}

impl LeafFilter {
    /// The kind of value that the filter compares.
    pub open spec fn kind(self) -> ValueKind {
        match self {
            LeafFilter::Integer(_) => ValueKind::Integer,
            LeafFilter::Double(_) => ValueKind::Double,
            LeafFilter::Text(_) => ValueKind::Text,
            LeafFilter::Boolean(_) => ValueKind::Boolean,
        }
    }

    /// What the filter yields on a cell. A cell that holds no value of the
    /// filter's kind reads as an absent value.
    pub open spec fn holds(self, cell: Value) -> Truth {
        match self {
            LeafFilter::Integer(f) => f.holds(cell.integer()),
            LeafFilter::Double(f) => f.holds(cell.double()),
            LeafFilter::Text(f) => f.holds(cell.text()),
            LeafFilter::Boolean(f) => f.holds(cell.boolean()),
        }
    }

    /// Whether the filter asks that no value be there.
    pub open spec fn asks_absence(self) -> bool {
        match self {
            LeafFilter::Integer(f) => f is IsNull,
            LeafFilter::Double(f) => f is IsNull,
            LeafFilter::Text(f) => f is IsNull,
            LeafFilter::Boolean(f) => f is IsNull,
        }
    }

    /// Whether the filter asks only that a value be there.
    pub open spec fn asks_presence(self) -> bool {
        match self {
            LeafFilter::Integer(f) => f is IsNotNull,
            LeafFilter::Double(f) => f is IsNotNull,
            LeafFilter::Text(f) => f is IsNotNull,
            LeafFilter::Boolean(f) => f is IsNotNull,
        }
    }

    /// Tells the kind of value that the filter compares.
    pub fn kind_of(&self) -> (k: ValueKind)
        ensures
            k == self.kind(),
    {
        match self {
            LeafFilter::Integer(_) => ValueKind::Integer,
            LeafFilter::Double(_) => ValueKind::Double,
            LeafFilter::Text(_) => ValueKind::Text,
            LeafFilter::Boolean(_) => ValueKind::Boolean,
        }
    }

    /// Applies the filter to a cell.
    pub fn evaluate(&self, cell: &Value) -> (t: Truth)
        ensures
            t == self.holds(*cell),
    {
        match self {
            LeafFilter::Integer(f) => match cell {
                Value::Integer(v) => f.evaluate(Some(v)),
                _ => f.evaluate(None),
            },
            LeafFilter::Double(f) => match cell {
                Value::Double(v) => f.evaluate(Some(v)),
                _ => f.evaluate(None),
            },
            LeafFilter::Text(f) => match cell {
                Value::Text(v) => f.evaluate(Some(v)),
                _ => f.evaluate(None),
            },
            LeafFilter::Boolean(f) => match cell {
                Value::Boolean(v) => f.evaluate(Some(*v)),
                _ => f.evaluate(None),
            },
        }
    }
}

} // verus!
