//! A whole record: its annotated fields, and the block of setters generated for it.
use vstd::prelude::*;
use crate::attributes::lemma_unmarked_attrs;
use crate::field::{field_of, setter_of, DeriveError, Field, FieldInput, IncompatibleConfiguration, Setter};

verus! {

/// A record as declared: its name, its generic parameters (written out, and
/// carried through untouched) and its fields in order.
#[derive(Debug, Clone, PartialEq, Eq)]
pub struct DeriveInput {
    pub ident: String,
    pub generics: String,
    pub fields: Vec<FieldInput>,
}

/// A record with the fields that asked for a setter.
#[derive(Debug, Clone, PartialEq, Eq)]
pub struct Data {
    pub name: String,
    pub generics: String,
    pub fields: Vec<Field>,
}

/// `impl<generics> name<generics> { setters }`.
#[derive(Debug, Clone, PartialEq, Eq)]
pub struct ImplBlock {
    pub name: String,
    pub generics: String,
    pub setters: Vec<Setter>,
}

/// The fields that ask for a setter, in declaration order; the first field that
/// cannot be read decides the error.
pub open spec fn fields_of(fs: Seq<FieldInput>) -> Result<Seq<Field>, DeriveError>
    decreases fs.len(),
{
    if fs.len() == 0 {
        Ok(Seq::empty())
    } else {
        match fields_of(fs.drop_last()) {
            Ok(kept) => match field_of(fs.last()) {
                Ok(Some(f)) => Ok(kept.push(f)),
                Ok(None) => Ok(kept),
                Err(e) => Err(e),
            },
            Err(e) => Err(e),
        }
    }
}

/// The setter of each field, in order; the first field with no possible setter
/// decides the error.
pub open spec fn setters_of(fs: Seq<Field>) -> Result<Seq<Setter>, IncompatibleConfiguration>
    decreases fs.len(),
{
    if fs.len() == 0 {
        Ok(Seq::empty())
    } else {
        match setters_of(fs.drop_last()) {
            Ok(done) => match setter_of(fs.last()) {
                Ok(s) => Ok(done.push(s)),
                Err(e) => Err(e),
            },
            Err(e) => Err(e),
        }
    }
}

/// `b` is the block of `setters` for the record `name<generics>`.
pub open spec fn is_block(b: ImplBlock, name: String, generics: String, setters: Seq<Setter>) -> bool {
    &&& b.name == name
    &&& b.generics == generics
    &&& b.setters@ == setters
}

/// What the generator produces for a record: nothing when no field asked for a
/// setter, one block of setters otherwise, or the first error.
pub open spec fn derive_result(
    input: DeriveInput,
    r: Result<Option<ImplBlock>, DeriveError>,
) -> bool {
    match fields_of(input.fields@) {
        Err(e) => r == Err::<Option<ImplBlock>, DeriveError>(e),
        Ok(fs) => if fs.len() == 0 {
            r == Ok::<Option<ImplBlock>, DeriveError>(None)
        } else {
            match setters_of(fs) {
                Err(e) => r == Err::<Option<ImplBlock>, DeriveError>(DeriveError::Incompatible(e)),
                Ok(ss) => r is Ok && r->Ok_0 is Some && is_block(
                    r->Ok_0->Some_0,
                    input.ident,
                    input.generics,
                    ss,
                ),
            }
        },
    }
}

proof fn lemma_fields_error_sticks(fs: Seq<FieldInput>, i: int)
    requires
        0 <= i <= fs.len(),
        fields_of(fs.subrange(0, i)) is Err,
    ensures
        fields_of(fs) == fields_of(fs.subrange(0, i)),
    decreases fs.len() - i,
{
    if i == fs.len() {
        assert(fs.subrange(0, i) =~= fs);
    } else {
        let shorter = fs.drop_last();
        assert(shorter.subrange(0, i) =~= fs.subrange(0, i));
        lemma_fields_error_sticks(shorter, i);
    }
}

proof fn lemma_setters_error_sticks(fs: Seq<Field>, i: int)
    requires
        0 <= i <= fs.len(),
        setters_of(fs.subrange(0, i)) is Err,
    ensures
        setters_of(fs) == setters_of(fs.subrange(0, i)),
    decreases fs.len() - i,
{
    if i == fs.len() {
        assert(fs.subrange(0, i) =~= fs);
    } else {
        let shorter = fs.drop_last();
        assert(shorter.subrange(0, i) =~= fs.subrange(0, i));
        lemma_setters_error_sticks(shorter, i);
    }
}

/// Whether a declared field carries a `set` annotation.
pub open spec fn is_marked(fi: FieldInput) -> bool {
    exists|k: int| 0 <= k < fi.attrs@.len() && (#[trigger] fi.attrs@[k]).path@ == "set"@
}

/// The fields that carry a `set` annotation, in declaration order.
pub open spec fn marked_only() -> spec_fn(FieldInput) -> bool {
    |fi: FieldInput| is_marked(fi)
}

/// A named field with no `set` annotation gets no setter, is no error, and adds
/// nothing to the fields kept before it.
pub proof fn lemma_unmarked_field(prefix: Seq<FieldInput>, fi: FieldInput)
    requires
        fi.ident is Some,
        !is_marked(fi),
    ensures
        field_of(fi) == Ok::<Option<Field>, DeriveError>(None),
        fields_of(prefix.push(fi)) == fields_of(prefix),
{
    assert forall|k: int| 0 <= k < fi.attrs@.len() implies (#[trigger] fi.attrs@[k]).path@
        != "set"@ by {}
    lemma_unmarked_attrs(fi.attrs@);
    assert(prefix.push(fi).drop_last() =~= prefix);
}

/// Leaving out the named fields that carry no `set` annotation changes nothing
/// in what is read from a record.
pub proof fn lemma_unmarked_fields_dropped(fs: Seq<FieldInput>)
    requires
        forall|i: int| 0 <= i < fs.len() ==> (#[trigger] fs[i]).ident is Some,
    ensures
        fields_of(fs) == fields_of(fs.filter(marked_only())),
    decreases fs.len(),
{
    reveal(Seq::filter);
    if fs.len() > 0 {
        let shorter = fs.drop_last();
        let last = fs.last();
        assert forall|i: int| 0 <= i < shorter.len() implies (#[trigger] shorter[i]).ident is Some by {
            assert(shorter[i] == fs[i]);
        }
        assert(last.ident is Some) by {
            assert(last == fs[fs.len() - 1]);
        }
        lemma_unmarked_fields_dropped(shorter);
        let kept = shorter.filter(marked_only());
        if is_marked(last) {
            assert(fs.filter(marked_only()) == kept.push(last));
            assert(kept.push(last).drop_last() =~= kept);
        } else {
            assert(fs.filter(marked_only()) == kept);
            lemma_unmarked_field(shorter, last);
        }
    }
}

/// A record gives the same outcome as the record with its unmarked fields
/// deleted: a field without a `set` annotation contributes nothing.
pub proof fn lemma_unmarked_fields_contribute_nothing(
    input: DeriveInput,
    trimmed: DeriveInput,
    r: Result<Option<ImplBlock>, DeriveError>,
)
    requires
        forall|i: int| 0 <= i < input.fields@.len() ==> (#[trigger] input.fields@[i]).ident is Some,
        trimmed.ident == input.ident,
        trimmed.generics == input.generics,
        trimmed.fields@ == input.fields@.filter(marked_only()),
    ensures
        derive_result(input, r) == derive_result(trimmed, r),
{
    lemma_unmarked_fields_dropped(input.fields@);
}

proof fn lemma_no_marked_fields(fs: Seq<FieldInput>)
    requires
        forall|i: int| 0 <= i < fs.len() ==> (#[trigger] fs[i]).ident is Some,
        forall|i: int| 0 <= i < fs.len() ==> !is_marked(#[trigger] fs[i]),
    ensures
        fields_of(fs) == Ok::<Seq<Field>, DeriveError>(Seq::empty()),
    decreases fs.len(),
{
    if fs.len() > 0 {
        let shorter = fs.drop_last();
        let last = fs.last();
        assert forall|i: int| 0 <= i < shorter.len() implies (#[trigger] shorter[i]).ident is Some
            && !is_marked(shorter[i]) by {
            assert(shorter[i] == fs[i]);
        }
        assert(last == fs[fs.len() - 1]);
        lemma_no_marked_fields(shorter);
        lemma_unmarked_field(shorter, last);
    }
}

/// A record of named fields, none of which carries a `set` annotation,
/// produces no output at all, not even an empty block, and no error.
pub proof fn lemma_unmarked_record(input: DeriveInput, r: Result<Option<ImplBlock>, DeriveError>)
    requires
        forall|i: int| 0 <= i < input.fields@.len() ==> (#[trigger] input.fields@[i]).ident is Some,
        forall|i: int| 0 <= i < input.fields@.len() ==> !is_marked(#[trigger] input.fields@[i]),
        derive_result(input, r),
    ensures
        r == Ok::<Option<ImplBlock>, DeriveError>(None),
{
    lemma_no_marked_fields(input.fields@);
}

/// The block of setters is for the record's own name, with its generic
/// parameters carried over unchanged.
pub proof fn lemma_generics_carried(input: DeriveInput, r: Result<Option<ImplBlock>, DeriveError>)
    requires
        derive_result(input, r),
        r matches Ok(Some(_)),
    ensures
        r->Ok_0->Some_0.generics == input.generics,
        r->Ok_0->Some_0.name == input.ident,
{
}

impl Data {
    /// Reads a record declaration, keeping the fields that ask for a setter.
    pub fn from_derive_input(input: &DeriveInput) -> (r: Result<Data, DeriveError>)
        ensures
            match fields_of(input.fields@) {
                Ok(fs) => r is Ok && r->Ok_0.name == input.ident && r->Ok_0.generics
                    == input.generics && r->Ok_0.fields@ == fs,
                Err(e) => r == Err::<Data, DeriveError>(e),
            },
    {
        let mut fields: Vec<Field> = Vec::new();
        let mut i: usize = 0;
        while i < input.fields.len()
            invariant
                i <= input.fields.len(),
                fields_of(input.fields@.subrange(0, i as int)) == Ok::<Seq<Field>, DeriveError>(
                    fields@,
                ),
            decreases input.fields.len() - i,
        {
            proof {
                assert(input.fields@.subrange(0, i + 1).drop_last() =~= input.fields@.subrange(
                    0,
                    i as int,
                ));
            }
            match Field::from_field(&input.fields[i]) {
                Ok(Some(f)) => fields.push(f),
                Ok(None) => {},
                Err(e) => {
                    proof {
                        lemma_fields_error_sticks(input.fields@, i + 1);
                    }
                    return Err(e);
                },
            }
            i += 1;
        }
        proof {
            assert(input.fields@.subrange(0, input.fields.len() as int) =~= input.fields@);
        }
        Ok(Data { name: input.ident.clone(), generics: input.generics.clone(), fields })
    }

    /// The block of setters for this record: `Ok(None)` when no field asked for
    /// one, so that nothing at all is emitted.
    pub fn generate_impl(&self) -> (r: Result<Option<ImplBlock>, IncompatibleConfiguration>)
        ensures
            self.fields.len() == 0 ==> r == Ok::<Option<ImplBlock>, IncompatibleConfiguration>(
                None,
            ),
            self.fields.len() > 0 ==> match setters_of(self.fields@) {
                Ok(ss) => r is Ok && r->Ok_0 is Some && is_block(
                    r->Ok_0->Some_0,
                    self.name,
                    self.generics,
                    ss,
                ),
                Err(e) => r == Err::<Option<ImplBlock>, IncompatibleConfiguration>(e),
            },
    {
        if self.fields.len() == 0 {
            return Ok(None);
        }
        let mut setters: Vec<Setter> = Vec::new();
        let mut i: usize = 0;
        while i < self.fields.len()
            invariant
                i <= self.fields.len(),
                setters_of(self.fields@.subrange(0, i as int)) == Ok::<
                    Seq<Setter>,
                    IncompatibleConfiguration,
                >(setters@),
            decreases self.fields.len() - i,
        {
            proof {
                assert(self.fields@.subrange(0, i + 1).drop_last() =~= self.fields@.subrange(
                    0,
                    i as int,
                ));
            }
            match self.fields[i].generate_setter() {
                Ok(s) => setters.push(s),
                Err(e) => {
                    proof {
                        lemma_setters_error_sticks(self.fields@, i + 1);
                    }
                    return Err(e);
                },
            }
            i += 1;
        }
        proof {
            assert(self.fields@.subrange(0, self.fields.len() as int) =~= self.fields@);
        }
        Ok(Some(ImplBlock { name: self.name.clone(), generics: self.generics.clone(), setters }))
    }
}

/// Generates the setters of a record: nothing when no field carries a `set`
/// annotation, one block of setters otherwise, or the first error met.
pub fn derive_fluent_setters(input: &DeriveInput) -> (r: Result<Option<ImplBlock>, DeriveError>)
    ensures
        derive_result(*input, r),
{
    match Data::from_derive_input(input) {
        Err(e) => Err(e),
        Ok(data) => match data.generate_impl() {
            Ok(b) => Ok(b),
            Err(e) => Err(DeriveError::Incompatible(e)),
        },
    }
}

} // verus!
