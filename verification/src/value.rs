//! The cells of a joined row, and the kinds of value a field can hold.

use crate::double::Double;
use vstd::prelude::*;

verus! {

/// The type of value that a field holds.
#[derive(Clone, Copy, Debug, PartialEq, Eq, Structural)]
pub enum ValueKind {
    Integer,
    Double,
    Text,
    Boolean,
}

/// One cell of a row. `Null` stands where a joined source gave no row.
#[derive(Clone, Debug, PartialEq, Eq)]
pub enum Value {
    Null,
    Integer(i32),
    Double(Double),
    Text(String),
    Boolean(bool),
}

impl Value {
    /// The integer in this cell, if it holds one.
    pub open spec fn integer(self) -> Option<i32> {
        match self {
            Value::Integer(v) => Some(v),
            _ => None,
        }
    }

    /// The double-precision number in this cell, if it holds one.
    pub open spec fn double(self) -> Option<Double> {
        match self {
            Value::Double(v) => Some(v),
            _ => None,
        }
    }

    /// The characters of the text in this cell, if it holds text.
    pub open spec fn text(self) -> Option<Seq<char>> {
        match self {
            Value::Text(v) => Some(v@),
            _ => None,
        }
    }

    /// The boolean in this cell, if it holds one.
    pub open spec fn boolean(self) -> Option<bool> {
        match self {
            Value::Boolean(v) => Some(v),
            _ => None,
        }
    }

    /// Whether this cell holds a value of the given kind.
    pub open spec fn has_kind(self, kind: ValueKind) -> bool {
        match kind {
            ValueKind::Integer => self is Integer,
            ValueKind::Double => self is Double,
            ValueKind::Text => self is Text,
            ValueKind::Boolean => self is Boolean,
        }
    }
}

/// The cell of `row` at `column`; a row too short to have one reads as `Null` there.
pub open spec fn cell(row: Seq<Value>, column: usize) -> Value {
    if column < row.len() {
        row[column as int]
    } else {
        Value::Null
    }
}

} // verus!
