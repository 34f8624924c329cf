//! Three-valued truth, as a store computes it when a compared value may be absent.

use vstd::prelude::*;

verus! {

/// The truth of a predicate on one row. `Unknown` is what a comparison
/// against an absent value yields; a filter keeps a row only on `True`.
#[derive(Clone, Copy, Debug, PartialEq, Eq, Structural)]
pub enum Truth {
    True,
    False,
    Unknown,
}

impl Truth {
    /// The definite truth of a boolean.
    pub open spec fn of(b: bool) -> Truth {
        if b {
            Truth::True
        } else {
            Truth::False
        }
    }

    /// Conjunction: false as soon as one side is false, true only when both are.
    pub open spec fn spec_and(self, other: Truth) -> Truth {
        if self == Truth::False || other == Truth::False {
            Truth::False
        } else if self == Truth::True && other == Truth::True {
            Truth::True
        } else {
            Truth::Unknown
        }
    }

    /// Disjunction: true as soon as one side is true, false only when both are.
    pub open spec fn spec_or(self, other: Truth) -> Truth {
        if self == Truth::True || other == Truth::True {
            Truth::True
        } else if self == Truth::False && other == Truth::False {
            Truth::False
        } else {
            Truth::Unknown
        }
    }

    /// Negation: swaps true and false and leaves unknown as it is.
    pub open spec fn spec_not(self) -> Truth {
        match self {
            Truth::True => Truth::False,
            Truth::False => Truth::True,
            Truth::Unknown => Truth::Unknown,
        }
    }

    /// Whether this is one of the two definite values.
    pub open spec fn definite(self) -> bool {
        self != Truth::Unknown
    }

    /// The definite truth of `b`.
    pub fn from_bool(b: bool) -> (t: Truth)
        ensures
            t == Truth::of(b),
    {
        if b {
            Truth::True
        } else {
            Truth::False
        }
    }

    /// The conjunction of the two.
    #[verifier::when_used_as_spec(spec_and)]
    pub fn and(self, other: Truth) -> (t: Truth)
        ensures
            t == self.spec_and(other),
    {
        match (self, other) {
            (Truth::False, _) => Truth::False,
            (_, Truth::False) => Truth::False,
            (Truth::True, Truth::True) => Truth::True,
            _ => Truth::Unknown,
        }
    }

    /// The disjunction of the two.
    #[verifier::when_used_as_spec(spec_or)]
    pub fn or(self, other: Truth) -> (t: Truth)
        ensures
            t == self.spec_or(other),
    {
        match (self, other) {
            (Truth::True, _) => Truth::True,
            (_, Truth::True) => Truth::True,
            (Truth::False, Truth::False) => Truth::False,
            _ => Truth::Unknown,
        }
    }

    /// The negation.
    #[verifier::when_used_as_spec(spec_not)]
    pub fn not(self) -> (t: Truth)
        ensures
            t == self.spec_not(),
    {
        match self {
            Truth::True => Truth::False,
            Truth::False => Truth::True,
            Truth::Unknown => Truth::Unknown,
        }
    }

    /// Whether a filter keeps the row: only a true predicate does.
    pub fn is_true(self) -> (b: bool)
        ensures
            b == (self == Truth::True),
    {
        match self {
            Truth::True => true,
            _ => false,
        }
    }
}

} // verus!
