//! A fluent builder for Lucene-style query strings, with field registration.
pub mod fields;
pub mod laws;
pub mod query;
pub mod text;

pub use fields::{FieldDescriptor, FieldKind, FieldSetter, FieldTable, RangeSetter, RegistrationError};
pub use query::{LuceneQueryBuilder, Operator, QueryString};
