//! A compiler from nested filter conditions to a single boolean predicate
//! over the fields of a joined row.
//!
//! A caller builds a [`Condition`] tree out of comparisons on fields and of
//! groups joined by "and" or "or", and hands it to [`create_filter`]. What
//! comes back is a [`BoxedCondition`] that yields on every row what the
//! tree yields, or nothing at all where the tree holds no comparison.

pub mod compiler;
pub mod condition;
pub mod double;
pub mod field;
pub mod filters;
pub mod laws;
pub mod leaf;
pub mod pattern;
pub mod predicate;
pub mod query;
pub mod semantics;
pub mod truth;
pub mod value;

pub use compiler::{create__and_filter, create_filter};
pub use condition::Condition;
pub use double::Double;
pub use field::FieldRef;
pub use filters::{AndOr, BooleanFilter, LeafFilter, NumberFilter, StringFilter};
pub use leaf::{KindMismatch, Leaf};
pub use predicate::{BoolExpr, BoxedCondition, Domain, NullableExpr};
pub use query::{create_filtered_query, BoxedQuery};
pub use truth::Truth;
pub use value::{Value, ValueKind};
