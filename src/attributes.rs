//! Everything a field's annotations say about its setter.
use vstd::prelude::*;
use crate::args::{args_of_attribute, Args, FromAttributeError};
use crate::meta::{is_word, Attribute, Lit, Meta};
use crate::visibility::Visibility;

verus! {

/// The full set of field annotations that the generator is interested in.
#[derive(Debug, Clone, PartialEq, Eq)]
pub struct Attributes {
    pub into: bool,
    pub strip: bool,
    pub visibility: Visibility,
    pub doc: Option<String>,
}

/// What a `path = lit` annotation says about documentation: `None` when it is
/// not a `doc` annotation, `Some(Err(()))` when its value is no string.
pub open spec fn doc_of(path: String, lit: Lit) -> Option<Result<String, ()>> {
    if path@ == "doc"@ {
        match lit {
            Lit::Str(s) => Some(Ok(s)),
            Lit::Other => Some(Err(())),
        }
    } else {
        None
    }
}

/// The `set` arguments read so far, the documentation text read so far, and
/// whether a `doc` annotation with a value that is no string was met.
pub type Scan = (Option<Args>, Option<String>, bool);

/// Effect of one annotation on what was read so far. A later `set` or `doc`
/// annotation replaces an earlier one; annotations of other names are ignored.
/// A malformed `set` annotation is rejected at once; a malformed `doc`
/// annotation is only noted, since it matters only on a field with a setter.
pub open spec fn scan_step(st: Scan, attr: Attribute) -> Result<Scan, FromAttributeError> {
    match args_of_attribute(attr) {
        Ok(a) => Ok((Some(a), st.1, st.2)),
        Err(FromAttributeError::UnrecognisedAttribute) => match attr.meta {
            Some(Meta::NameValue(lit)) => match doc_of(attr.path, lit) {
                Some(Ok(s)) => Ok((st.0, Some(s), st.2)),
                Some(Err(())) => Ok((st.0, st.1, true)),
                None => Ok(st),
            },
            _ => Ok(st),
        },
        Err(e) => Err(e),
    }
}

/// The annotations read left to right; the first rejected one decides the error.
pub open spec fn scan_of(attrs: Seq<Attribute>) -> Result<Scan, FromAttributeError>
    decreases attrs.len(),
{
    if attrs.len() == 0 {
        Ok((None, None, false))
    } else {
        match scan_of(attrs.drop_last()) {
            Ok(st) => scan_step(st, attrs.last()),
            Err(e) => Err(e),
        }
    }
}

/// The setter configuration of a field: `None` when no `set` annotation is
/// present, so that the field gets no setter whatever else it carries. On a
/// field with a `set` annotation, a `doc` annotation whose value is no string
/// makes the annotations malformed.
pub open spec fn attributes_of(attrs: Seq<Attribute>) -> Result<Option<Attributes>, FromAttributeError> {
    match scan_of(attrs) {
        Ok((Some(a), doc, bad_doc)) => if bad_doc {
            Err(FromAttributeError::MalformedAttribute)
        } else {
            Ok(Some(Attributes { into: a.into, strip: a.strip, visibility: a.visibility, doc }))
        },
        Ok((None, _, _)) => Ok(None),
        Err(e) => Err(e),
    }
}

proof fn lemma_scan_error_sticks(attrs: Seq<Attribute>, i: int)
    requires
        0 <= i <= attrs.len(),
        scan_of(attrs.subrange(0, i)) is Err,
    ensures
        scan_of(attrs) == scan_of(attrs.subrange(0, i)),
    decreases attrs.len() - i,
{
    if i == attrs.len() {
        assert(attrs.subrange(0, i) =~= attrs);
    } else {
        let shorter = attrs.drop_last();
        assert(shorter.subrange(0, i) =~= attrs.subrange(0, i));
        lemma_scan_error_sticks(shorter, i);
    }
}

/// A field with no `set` annotation asks for no setter, and is no error,
/// whatever other annotations (documentation included) it carries.
pub proof fn lemma_unmarked_attrs(attrs: Seq<Attribute>)
    requires
        forall|k: int| 0 <= k < attrs.len() ==> (#[trigger] attrs[k]).path@ != "set"@,
    ensures
        scan_of(attrs) is Ok,
        scan_of(attrs)->Ok_0.0 is None,
        attributes_of(attrs) == Ok::<Option<Attributes>, FromAttributeError>(None),
    decreases attrs.len(),
{
    if attrs.len() > 0 {
        let shorter = attrs.drop_last();
        assert forall|k: int| 0 <= k < shorter.len() implies (#[trigger] shorter[k]).path@
            != "set"@ by {
            assert(shorter[k] == attrs[k]);
        }
        lemma_unmarked_attrs(shorter);
        assert(attrs[attrs.len() - 1].path@ != "set"@);
    }
}

/// A `doc` annotation (a `///` comment) is captured as written, leading space
/// included, replacing any earlier one and leaving the `set` arguments as they were.
pub proof fn lemma_doc_captured(attrs: Seq<Attribute>, x: Attribute, d: String)
    requires
        x.path@ == "doc"@,
        x.meta == Some(Meta::NameValue(Lit::Str(d))),
        scan_of(attrs) is Ok,
    ensures
        scan_of(attrs.push(x)) == Ok::<Scan, FromAttributeError>(
            (scan_of(attrs)->Ok_0.0, Some(d), scan_of(attrs)->Ok_0.2),
        ),
{
    reveal_strlit("doc");
    reveal_strlit("set");
    assert(x.path@[0] != "set"@[0]);
    assert(attrs.push(x).drop_last() =~= attrs);
}

fn copy_text(s: &Option<String>) -> (r: Option<String>)
    ensures
        r == *s,
{
    match s {
        Some(t) => Some(t.clone()),
        None => None,
    }
}

impl Attributes {
    /// Reads the annotations of one field.
    pub fn try_from_attrs(attrs: &Vec<Attribute>) -> (r: Result<Option<Self>, FromAttributeError>)
        ensures
            r == attributes_of(attrs@),
    {
        let mut set: Option<Args> = None;
        let mut doc: Option<String> = None;
        let mut bad_doc = false;
        let mut i: usize = 0;
        while i < attrs.len()
            invariant
                i <= attrs.len(),
                scan_of(attrs@.subrange(0, i as int)) == Ok::<Scan, FromAttributeError>((set, doc, bad_doc)),
            decreases attrs.len() - i,
        {
            let attr = &attrs[i];
            proof {
                assert(attrs@.subrange(0, i + 1).drop_last() =~= attrs@.subrange(0, i as int));
            }
            match Args::try_from_attribute(attr) {
                Ok(a) => set = Some(a),
                Err(FromAttributeError::UnrecognisedAttribute) => {
                    if let Some(Meta::NameValue(lit)) = &attr.meta {
                        match parse_doc(&attr.path, lit) {
                            Some(Ok(s)) => doc = Some(s),
                            Some(Err(())) => bad_doc = true,
                            None => {},
                        }
                    }
                },
                Err(e) => {
                    proof {
                        lemma_scan_error_sticks(attrs@, i + 1);
                    }
                    return Err(e);
                },
            }
            i += 1;
        }
        proof {
            assert(attrs@.subrange(0, attrs.len() as int) =~= attrs@);
        }
        match set {
            Some(a) => {
                if bad_doc {
                    Err(FromAttributeError::MalformedAttribute)
                } else {
                    Ok(Some(Attributes { into: a.into, strip: a.strip, visibility: a.visibility, doc }))
                }
            },
            None => Ok(None),
        }
    }

    /// The documentation text to attach to the setter, if any.
    pub fn doc_attribute(&self) -> (r: Option<String>)
        ensures
            r == self.doc,
    {
        copy_text(&self.doc)
    }
}

fn parse_doc(path: &String, lit: &Lit) -> (r: Option<Result<String, ()>>)
    ensures
        r == doc_of(*path, *lit),
{
    if !is_word(path, "doc") {
        None
    } else {
        match lit {
            Lit::Str(s) => Some(Ok(s.clone())),
            Lit::Other => Some(Err(())),
        }
    }
}

} // verus!
