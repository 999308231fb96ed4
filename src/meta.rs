//! Plain-value forms of the annotations attached to a field.
//!
//! A path is kept as its text (`set`, `doc`, `a::b`); a path that is a single
//! identifier is then equal, as text, to that identifier.
use vstd::prelude::*;

verus! {

/// A literal appearing as the value of a name-value annotation.
#[derive(Debug, Clone, PartialEq, Eq)]
pub enum Lit {
    /// A string literal, with its value (escapes already resolved).
    Str(String),
    /// Any other literal.
    Other,
}

/// One item of a parenthesised annotation argument list.
#[derive(Debug, Clone, PartialEq, Eq)]
pub enum NestedMeta {
    /// A bare path: `into`.
    Path(String),
    /// A path followed by its own parenthesised list: `pub(crate)`.
    List(String),
    /// `path = literal`: `pub = "crate"`.
    NameValue(String, Lit),
    /// A bare literal: `"text"`.
    Lit(Lit),
}

/// The body of an annotation, once read as `#[path]`, `#[path(...)]` or `#[path = lit]`.
#[derive(Debug, Clone, PartialEq, Eq)]
pub enum Meta {
    Path,
    List(Vec<NestedMeta>),
    NameValue(Lit),
}

/// An annotation on a field: its path, and its body where that body could be read
/// as a [`Meta`] (`None` when it could not).
#[derive(Debug, Clone, PartialEq, Eq)]
pub struct Attribute {
    pub path: String,
    pub meta: Option<Meta>,
}

/// Whether a path, written out as text, is exactly the identifier `w`.
pub fn is_word(path: &String, w: &str) -> (r: bool)
    ensures
        r == (path@ == w@),
{
    let owned = w.to_owned();
    path.eq(&owned)
}

} // verus!
