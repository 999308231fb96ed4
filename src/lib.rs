//! Decision engine of a fluent-setter generator: reads the `#[set(...)]`
//! annotations of a record's fields, classifies each field's type, and decides
//! the signature and body of one chaining setter per annotated field.
pub mod args;
pub mod attributes;
pub mod data;
pub mod field;
pub mod meta;
pub mod ty;
pub mod visibility;

pub use data::derive_fluent_setters;
