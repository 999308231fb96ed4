//! Syntactic classification of a field's declared type.
//!
//! The classification looks at the written shape of the type only: an alias of
//! `Option` or of `bool` is classified as any other type.
use vstd::prelude::*;
use crate::meta::is_word;

verus! {

/// The head of a path type such as `Option<u32>` or `std::string::String`.
#[derive(Debug, Clone, PartialEq, Eq)]
pub struct TypePath {
    /// Identifier of the first path segment.
    pub first_ident: String,
    /// Whether the whole path is that one identifier, with no leading `::`
    /// and no generic arguments.
    pub is_ident: bool,
    /// The first generic argument of the first segment, written out, when that
    /// segment has angle-bracketed arguments and the first of them is a type.
    pub first_arg: Option<String>,
}

/// A field's declared type: its text, and its head when it is a path type.
#[derive(Debug, Clone, PartialEq, Eq)]
pub struct TypeExpr {
    pub tokens: String,
    pub path: Option<TypePath>,
}

/// A field type of the form `Option<T>`: the whole type and `T`.
#[derive(Debug, Clone, PartialEq, Eq)]
pub struct OptionTy {
    pub ty: String,
    pub inner: String,
}

/// The categories of field type that the setters distinguish.
#[derive(Debug, Clone, PartialEq, Eq)]
pub enum Type {
    Bool(String),
    Option(OptionTy),
    Other(String),
}

/// `Option<T>` when the first segment is `Option` with a type argument, `bool`
/// when the path is exactly `bool`, anything else otherwise.
pub open spec fn type_of(t: TypeExpr) -> Type {
    match t.path {
        Some(p) => if p.first_ident@ == "Option"@ && p.first_arg is Some {
            Type::Option(OptionTy { ty: t.tokens, inner: p.first_arg->0 })
        } else if p.is_ident && p.first_ident@ == "bool"@ {
            Type::Bool(t.tokens)
        } else {
            Type::Other(t.tokens)
        },
        None => Type::Other(t.tokens),
    }
}

/// The declared type, as written, whatever its category.
pub open spec fn type_text(t: Type) -> String {
    match t {
        Type::Bool(s) => s,
        Type::Option(o) => o.ty,
        Type::Other(s) => s,
    }
}

impl Type {
    /// Classifies a declared type.
    pub fn from_expr(t: &TypeExpr) -> (r: Type)
        ensures
            r == type_of(*t),
    {
        let tokens = t.tokens.clone();
        match &t.path {
            Some(p) => {
                if let Some(inner) = &p.first_arg {
                    if is_word(&p.first_ident, "Option") {
                        return Type::Option(OptionTy { ty: tokens, inner: inner.clone() });
                    }
                }
                if p.is_ident && is_word(&p.first_ident, "bool") {
                    Type::Bool(tokens)
                } else {
                    Type::Other(tokens)
                }
            },
            None => Type::Other(tokens),
        }
    }

    /// The declared type, as written.
    pub fn to_tokens(&self) -> (r: String)
        ensures
            r == type_text(*self),
    {
        match self {
            Type::Bool(s) => s.clone(),
            Type::Option(o) => o.ty.clone(),
            Type::Other(s) => s.clone(),
        }
    }
}

impl OptionTy {
    /// The `T` of `Option<T>`.
    pub fn inner_ty(&self) -> (r: &String)
        ensures
            *r == self.inner,
    {
        &self.inner
    }
}

} // verus!
