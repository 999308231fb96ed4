//! One field of the record, and the setter decided for it.
use vstd::prelude::*;
use crate::args::FromAttributeError;
use crate::args::{args_of_attribute, default_args, Args};
use crate::attributes::{attributes_of, scan_of, Attributes, Scan};
use crate::meta::{Attribute, Meta};
use crate::ty::{type_of, type_text, Type, TypeExpr};
use crate::visibility::Visibility;

verus! {

/// A field of the record as declared: its name (absent in a tuple struct), its
/// type and its annotations.
#[derive(Debug, Clone, PartialEq, Eq)]
pub struct FieldInput {
    pub ident: Option<String>,
    pub ty: TypeExpr,
    pub attrs: Vec<Attribute>,
}

/// A field that asked for a setter.
#[derive(Debug, Clone, PartialEq, Eq)]
pub struct Field {
    pub name: String,
    pub ty: Type,
    pub attrs: Attributes,
}

/// The parameter of a setter after `mut self`.
#[derive(Debug, Clone, PartialEq, Eq)]
pub enum ParamTy {
    /// `name: T`
    Exact(String),
    /// `name: impl Into<T>`
    Into(String),
}

/// The value that the setter's body assigns to the field.
#[derive(Debug, Clone, Copy, PartialEq, Eq, Structural)]
pub enum Assigned {
    /// `self.name = name;`
    Param,
    /// `self.name = name.into();`
    ParamInto,
    /// `self.name = Some(name);`
    SomeParam,
    /// `self.name = Some(name.into());`
    SomeParamInto,
    /// `self.name = true;`
    LiteralTrue,
}

/// A generated setter: `doc vis fn name(mut self, param) -> Self { self.name = value; self }`.
#[derive(Debug, Clone, PartialEq, Eq)]
pub struct Setter {
    pub doc: Option<String>,
    pub visibility: Visibility,
    pub name: String,
    /// `None` for a setter that takes no parameter besides `self`.
    pub param: Option<ParamTy>,
    pub value: Assigned,
}

/// A combination of `strip`, `into` and field type that has no setter.
#[derive(Debug, Clone, Copy, PartialEq, Eq, Structural)]
pub enum IncompatibleConfiguration {
    /// `strip` and `into` together on a `bool` field.
    StripWithIntoOnBool,
    /// `strip` on a field that is neither `bool` nor `Option<T>`.
    StripOnOtherType,
}

/// Why no setters could be generated for a record.
#[derive(Debug, Clone, Copy, PartialEq, Eq, Structural)]
pub enum DeriveError {
    /// The record has a field without a name.
    UnnamedField,
    /// A field's annotations could not be read.
    Attribute(FromAttributeError),
    /// A field's annotations ask for a setter that cannot exist.
    Incompatible(IncompatibleConfiguration),
}

/// The setter of field `f` with the given parameter and assigned value.
pub open spec fn setter_with(f: Field, param: Option<ParamTy>, value: Assigned) -> Setter {
    Setter { doc: f.attrs.doc, visibility: f.attrs.visibility, name: f.name, param, value }
}

/// The decision table: `(into, strip, type category)` to setter or error.
pub open spec fn setter_of(f: Field) -> Result<Setter, IncompatibleConfiguration> {
    match (f.attrs.into, f.attrs.strip, f.ty) {
        (true, true, Type::Bool(_)) => Err(IncompatibleConfiguration::StripWithIntoOnBool),
        (true, true, Type::Option(o)) => Ok(
            setter_with(f, Some(ParamTy::Into(o.inner)), Assigned::SomeParamInto),
        ),
        (_, true, Type::Other(_)) => Err(IncompatibleConfiguration::StripOnOtherType),
        (true, false, t) => Ok(setter_with(f, Some(ParamTy::Into(type_text(t))), Assigned::ParamInto)),
        (false, true, Type::Bool(_)) => Ok(setter_with(f, None, Assigned::LiteralTrue)),
        (false, true, Type::Option(o)) => Ok(
            setter_with(f, Some(ParamTy::Exact(o.inner)), Assigned::SomeParam),
        ),
        (false, false, t) => Ok(setter_with(f, Some(ParamTy::Exact(type_text(t))), Assigned::Param)),
    }
}

/// The field as read from its declaration: `Ok(None)` when it has no `set`
/// annotation.
pub open spec fn field_of(fi: FieldInput) -> Result<Option<Field>, DeriveError> {
    match fi.ident {
        None => Err(DeriveError::UnnamedField),
        Some(name) => match attributes_of(fi.attrs@) {
            Err(e) => Err(DeriveError::Attribute(e)),
            Ok(None) => Ok(None),
            Ok(Some(attrs)) => Ok(Some(Field { name, ty: type_of(fi.ty), attrs })),
        },
    }
}

/// A field with no flags gets a setter that takes the field's exact type and
/// assigns it directly.
pub proof fn lemma_plain_setter(f: Field)
    requires
        !f.attrs.into,
        !f.attrs.strip,
    ensures
        setter_of(f) == Ok::<Setter, IncompatibleConfiguration>(
            setter_with(f, Some(ParamTy::Exact(type_text(f.ty))), Assigned::Param),
        ),
{
}

/// `into` alone: the setter takes anything convertible into the field's type,
/// and converts it before assigning.
pub proof fn lemma_into_setter(f: Field)
    requires
        f.attrs.into,
        !f.attrs.strip,
    ensures
        setter_of(f) == Ok::<Setter, IncompatibleConfiguration>(
            setter_with(f, Some(ParamTy::Into(type_text(f.ty))), Assigned::ParamInto),
        ),
{
}

/// `strip` alone on `Option<T>`: the setter takes `T` and wraps it in `Some`.
pub proof fn lemma_strip_option_setter(f: Field)
    requires
        !f.attrs.into,
        f.attrs.strip,
        f.ty is Option,
    ensures
        setter_of(f) == Ok::<Setter, IncompatibleConfiguration>(
            setter_with(f, Some(ParamTy::Exact(f.ty->Option_0.inner)), Assigned::SomeParam),
        ),
{
}

/// `strip, into` on `Option<T>`: the setter takes anything convertible into
/// `T`, converts it, then wraps it in `Some`.
pub proof fn lemma_strip_into_option_setter(f: Field)
    requires
        f.attrs.into,
        f.attrs.strip,
        f.ty is Option,
    ensures
        setter_of(f) == Ok::<Setter, IncompatibleConfiguration>(
            setter_with(f, Some(ParamTy::Into(f.ty->Option_0.inner)), Assigned::SomeParamInto),
        ),
{
}

/// `strip` alone on `bool`: the setter takes no parameter and assigns `true`.
pub proof fn lemma_strip_bool_setter(f: Field)
    requires
        !f.attrs.into,
        f.attrs.strip,
        f.ty is Bool,
    ensures
        setter_of(f) == Ok::<Setter, IncompatibleConfiguration>(
            setter_with(f, None, Assigned::LiteralTrue),
        ),
{
}

/// `strip, into` on `bool` has no setter.
pub proof fn lemma_strip_into_bool_rejected(f: Field)
    requires
        f.attrs.into,
        f.attrs.strip,
        f.ty is Bool,
    ensures
        setter_of(f) == Err::<Setter, IncompatibleConfiguration>(
            IncompatibleConfiguration::StripWithIntoOnBool,
        ),
{
}

/// `strip` on a type that is neither `bool` nor `Option<T>` has no setter,
/// with or without `into`.
pub proof fn lemma_strip_other_rejected(f: Field)
    requires
        f.attrs.strip,
        f.ty is Other,
    ensures
        setter_of(f) == Err::<Setter, IncompatibleConfiguration>(
            IncompatibleConfiguration::StripOnOtherType,
        ),
{
}

/// Every setter is named after its field and carries the field's requested
/// visibility and its documentation text unchanged.
pub proof fn lemma_setter_keeps_name_visibility_doc(f: Field)
    requires
        setter_of(f) is Ok,
    ensures
        setter_of(f)->Ok_0.name == f.name,
        setter_of(f)->Ok_0.visibility == f.attrs.visibility,
        setter_of(f)->Ok_0.doc == f.attrs.doc,
{
}

/// A named field whose only annotation is a bare `#[set]` gets a private,
/// undocumented setter named after it that takes the declared type and assigns
/// it directly.
pub proof fn lemma_bare_marker_field(fi: FieldInput)
    requires
        fi.ident is Some,
        fi.attrs@.len() == 1,
        fi.attrs@[0].path@ == "set"@,
        fi.attrs@[0].meta == Some(Meta::Path),
    ensures
        field_of(fi) is Ok,
        field_of(fi)->Ok_0 is Some,
        setter_of(field_of(fi)->Ok_0->Some_0) == Ok::<Setter, IncompatibleConfiguration>(
            Setter {
                doc: None,
                visibility: Visibility::Private,
                name: fi.ident->Some_0,
                param: Some(ParamTy::Exact(fi.ty.tokens)),
                value: Assigned::Param,
            },
        ),
{
    let attrs = fi.attrs@;
    assert(attrs.drop_last() =~= Seq::<Attribute>::empty());
    assert(scan_of(attrs.drop_last()) == Ok::<Scan, FromAttributeError>((None, None, false)));
    assert(attrs.last() == attrs[0]);
    assert(args_of_attribute(attrs[0]) == Ok::<Args, FromAttributeError>(default_args()));
    assert(scan_of(attrs) == Ok::<Scan, FromAttributeError>((Some(default_args()), None, false)));
}

impl Field {
    /// Reads a declared field; `Ok(None)` when it asks for no setter.
    pub fn from_field(field: &FieldInput) -> (r: Result<Option<Self>, DeriveError>)
        ensures
            r == field_of(*field),
    {
        let name = match &field.ident {
            Some(n) => n.clone(),
            None => return Err(DeriveError::UnnamedField),
        };
        let ty = Type::from_expr(&field.ty);
        match Attributes::try_from_attrs(&field.attrs) {
            Err(e) => Err(DeriveError::Attribute(e)),
            Ok(None) => Ok(None),
            Ok(Some(attrs)) => Ok(Some(Field { name, ty, attrs })),
        }
    }

    fn setter(&self, param: Option<ParamTy>, value: Assigned) -> (r: Setter)
        ensures
            r == setter_with(*self, param, value),
    {
        Setter {
            doc: self.attrs.doc_attribute(),
            visibility: self.attrs.visibility,
            name: self.name.clone(),
            param,
            value,
        }
    }

    /// Decides the setter of this field.
    pub fn generate_setter(&self) -> (r: Result<Setter, IncompatibleConfiguration>)
        ensures
            r == setter_of(*self),
    {
        match (self.attrs.into, self.attrs.strip, &self.ty) {
            (true, true, Type::Bool(_)) => Err(IncompatibleConfiguration::StripWithIntoOnBool),
            (true, true, Type::Option(option)) => {
                let inner = option.inner_ty().clone();
                Ok(self.setter(Some(ParamTy::Into(inner)), Assigned::SomeParamInto))
            },
            (_, true, Type::Other(_)) => Err(IncompatibleConfiguration::StripOnOtherType),
            (true, false, ty) => {
                let text = ty.to_tokens();
                Ok(self.setter(Some(ParamTy::Into(text)), Assigned::ParamInto))
            },
            (false, true, Type::Bool(_)) => Ok(self.setter(None, Assigned::LiteralTrue)),
            (false, true, Type::Option(option)) => {
                let inner = option.inner_ty().clone();
                Ok(self.setter(Some(ParamTy::Exact(inner)), Assigned::SomeParam))
            },
            (false, false, ty) => {
                let text = ty.to_tokens();
                Ok(self.setter(Some(ParamTy::Exact(text)), Assigned::Param))
            },
        }
    }
}

} // verus!
