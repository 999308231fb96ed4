//! Visibility requested for a generated setter.
use vstd::prelude::*;
use crate::meta::{is_word, Lit, NestedMeta};

verus! {

/// Visibility of a generated setter: private (the default), `pub`, or
/// `pub(crate)`.
#[derive(Debug, Clone, Copy, PartialEq, Eq, Structural)]
pub enum Visibility {
    Private,
    Public,
    Crate,
}

/// What an annotation item says about visibility: `None` when the item is not
/// a visibility item at all (its path is not `pub`), `Some(Err(()))` when it is
/// one but malformed, `Some(Ok(v))` otherwise.
pub open spec fn visibility_of(meta: NestedMeta) -> Option<Result<Visibility, ()>> {
    match meta {
        NestedMeta::Path(p) => if p@ == "pub"@ { Some(Ok(Visibility::Public)) } else { None },
        NestedMeta::List(p) => if p@ == "pub"@ { Some(Err(())) } else { None },
        NestedMeta::NameValue(p, lit) => if p@ == "pub"@ {
            Some(restricted_of(lit))
        } else {
            None
        },
        NestedMeta::Lit(_) => None,
    }
}

/// `pub = "crate"` is the one restricted scope accepted.
pub open spec fn restricted_of(lit: Lit) -> Result<Visibility, ()> {
    match lit {
        Lit::Str(s) => if s@ == "crate"@ { Ok(Visibility::Crate) } else { Err(()) },
        Lit::Other => Err(()),
    }
}

/// `pub = "crate"` restricts the setter to the enclosing crate; any other value
/// of `pub = ...` (another scope, a literal that is no string) is malformed.
pub proof fn lemma_pub_in_crate(p: String, lit: Lit)
    requires
        p@ == "pub"@,
    ensures
        (lit matches Lit::Str(s) && s@ == "crate"@) ==> visibility_of(NestedMeta::NameValue(p, lit))
            == Some(Ok::<Visibility, ()>(Visibility::Crate)),
        !(lit matches Lit::Str(s) && s@ == "crate"@) ==> visibility_of(
            NestedMeta::NameValue(p, lit),
        ) == Some(Err::<Visibility, ()>(())),
{
}

impl Visibility {
    pub fn public() -> (r: Self)
        ensures
            r == Visibility::Public,
    {
        Visibility::Public
    }

    pub fn private() -> (r: Self)
        ensures
            r == Visibility::Private,
    {
        Visibility::Private
    }

    pub fn in_crate() -> (r: Self)
        ensures
            r == Visibility::Crate,
    {
        Visibility::Crate
    }

    /// Reads a visibility item of an annotation argument list.
    pub fn from_meta(meta: &NestedMeta) -> (r: Option<Result<Self, ()>>)
        ensures
            r == visibility_of(*meta),
    {
        match meta {
            NestedMeta::Path(p) => {
                if is_word(p, "pub") {
                    Some(Ok(Self::public()))
                } else {
                    None
                }
            },
            NestedMeta::List(p) => {
                if is_word(p, "pub") {
                    Some(Err(()))
                } else {
                    None
                }
            },
            NestedMeta::NameValue(p, lit) => {
                if is_word(p, "pub") {
                    Some(parse_restricted(lit))
                } else {
                    None
                }
            },
            NestedMeta::Lit(_) => None,
        }
    }
}

impl Default for Visibility {
    fn default() -> (r: Self)
        ensures
            r == Visibility::Private,
    {
        Self::private()
    }
}

fn parse_restricted(lit: &Lit) -> (r: Result<Visibility, ()>)
    ensures
        r == restricted_of(*lit),
{
    match lit {
        Lit::Str(s) => {
            if is_word(s, "crate") {
                Ok(Visibility::in_crate())
            } else {
                Err(())
            }
        },
        Lit::Other => Err(()),
    }
}

} // verus!
