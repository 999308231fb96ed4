//! The argument list of the `#[set(...)]` field annotation.
use vstd::prelude::*;
use crate::meta::{is_word, Attribute, Meta, NestedMeta};
use crate::visibility::{visibility_of, Visibility};

verus! {

/// The arguments within the `#[set(...)]` field annotation.
#[derive(Debug, Clone, Copy, PartialEq, Eq, Structural)]
pub struct Args {
    pub into: bool,
    pub strip: bool,
    pub visibility: Visibility,
}

/// Why a field annotation could not be read as a `#[set(...)]` annotation.
#[derive(Debug, Clone, Copy, PartialEq, Eq, Structural)]
pub enum FromAttributeError {
    /// The annotation is a `set` annotation whose body has the wrong shape.
    MalformedAttribute,
    /// The annotation is not a `set` annotation: not an error for the field.
    UnrecognisedAttribute,
    /// The argument list itself was rejected.
    FromPunctuated(FromPunctuatedError),
}

/// Why a `set` argument list was rejected.
#[derive(Debug, Clone, Copy, PartialEq, Eq, Structural)]
pub enum FromPunctuatedError {
    /// `into` or `strip` given more than once.
    DuplicateArgs,
    /// An item that is none of `into`, `strip`, `pub`, `pub = "crate"`.
    UnrecognisedArg,
}

/// Arguments of a bare `#[set]`: no flag, private setter.
pub open spec fn default_args() -> Args {
    Args { into: false, strip: false, visibility: Visibility::Private }
}

/// Whether an item is the bare identifier `w`.
pub open spec fn item_is(item: NestedMeta, w: Seq<char>) -> bool {
    match item {
        NestedMeta::Path(p) => p@ == w,
        _ => false,
    }
}

/// Effect of one argument item on the arguments read so far. Visibility items
/// overwrite silently; the two flags may each be given once.
pub open spec fn apply_item(a: Args, item: NestedMeta) -> Result<Args, FromPunctuatedError> {
    if item_is(item, "into"@) {
        if a.into {
            Err(FromPunctuatedError::DuplicateArgs)
        } else {
            Ok(Args { into: true, strip: a.strip, visibility: a.visibility })
        }
    } else if item_is(item, "strip"@) {
        if a.strip {
            Err(FromPunctuatedError::DuplicateArgs)
        } else {
            Ok(Args { into: a.into, strip: true, visibility: a.visibility })
        }
    } else {
        match visibility_of(item) {
            Some(Ok(v)) => Ok(Args { into: a.into, strip: a.strip, visibility: v }),
            _ => Err(FromPunctuatedError::UnrecognisedArg),
        }
    }
}

/// Arguments read from a list of items, left to right; the first rejected item
/// decides the error.
pub open spec fn args_of_items(items: Seq<NestedMeta>) -> Result<Args, FromPunctuatedError>
    decreases items.len(),
{
    if items.len() == 0 {
        Ok(default_args())
    } else {
        match args_of_items(items.drop_last()) {
            Ok(a) => apply_item(a, items.last()),
            Err(e) => Err(e),
        }
    }
}

/// Arguments of an annotation, or why it is not a well-formed `set` annotation.
pub open spec fn args_of_attribute(attr: Attribute) -> Result<Args, FromAttributeError> {
    if attr.path@ == "set"@ {
        match attr.meta {
            Some(Meta::Path) => Ok(default_args()),
            Some(Meta::List(items)) => match args_of_items(items@) {
                Ok(a) => Ok(a),
                Err(e) => Err(FromAttributeError::FromPunctuated(e)),
            },
            _ => Err(FromAttributeError::MalformedAttribute),
        }
    } else {
        Err(FromAttributeError::UnrecognisedAttribute)
    }
}

/// Once a prefix of the list is rejected, so is the whole list, with the same error.
proof fn lemma_items_error_sticks(items: Seq<NestedMeta>, i: int)
    requires
        0 <= i <= items.len(),
        args_of_items(items.subrange(0, i)) is Err,
    ensures
        args_of_items(items) == args_of_items(items.subrange(0, i)),
    decreases items.len() - i,
{
    if i == items.len() {
        assert(items.subrange(0, i) =~= items);
    } else {
        let shorter = items.drop_last();
        assert(shorter.subrange(0, i) =~= items.subrange(0, i));
        lemma_items_error_sticks(shorter, i);
    }
}

/// An item that is none of `into`, `strip` or a well-formed visibility.
pub open spec fn unrecognised(item: NestedMeta) -> bool {
    !item_is(item, "into"@) && !item_is(item, "strip"@) && !(visibility_of(item) matches Some(
        Ok(_),
    ))
}

/// A flag, once read, stays raised for the rest of the list.
proof fn lemma_flag_stays(items: Seq<NestedMeta>, k: int, w: Seq<char>)
    requires
        0 <= k < items.len(),
        item_is(items[k], w),
        w == "into"@ || w == "strip"@,
        args_of_items(items) is Ok,
    ensures
        w == "into"@ ==> args_of_items(items)->Ok_0.into,
        w == "strip"@ ==> args_of_items(items)->Ok_0.strip,
    decreases items.len(),
{
    reveal_strlit("into");
    reveal_strlit("strip");
    assert("into"@.len() != "strip"@.len());
    let shorter = items.drop_last();
    if k < items.len() - 1 {
        assert(shorter[k] == items[k]);
        lemma_flag_stays(shorter, k, w);
    }
}

/// Giving `into` (or `strip`) a second time is rejected as a duplicate, unless
/// an earlier item was already rejected.
pub proof fn lemma_duplicate_flag(items: Seq<NestedMeta>, k: int, x: NestedMeta, w: Seq<char>)
    requires
        w == "into"@ || w == "strip"@,
        0 <= k < items.len(),
        item_is(items[k], w),
        item_is(x, w),
    ensures
        args_of_items(items) is Ok ==> args_of_items(items.push(x)) == Err::<
            Args,
            FromPunctuatedError,
        >(FromPunctuatedError::DuplicateArgs),
        args_of_items(items) is Err ==> args_of_items(items.push(x)) == args_of_items(items),
{
    reveal_strlit("into");
    reveal_strlit("strip");
    assert(items.push(x).drop_last() =~= items);
    if args_of_items(items) is Ok {
        lemma_flag_stays(items, k, w);
    }
}

/// An item that is none of the recognised forms is rejected, unless an earlier
/// item was already rejected.
pub proof fn lemma_unrecognised_item(items: Seq<NestedMeta>, x: NestedMeta)
    requires
        unrecognised(x),
    ensures
        args_of_items(items) is Ok ==> args_of_items(items.push(x)) == Err::<
            Args,
            FromPunctuatedError,
        >(FromPunctuatedError::UnrecognisedArg),
        args_of_items(items) is Err ==> args_of_items(items.push(x)) == args_of_items(items),
{
    assert(items.push(x).drop_last() =~= items);
}

/// Without any visibility item the setter stays private.
pub proof fn lemma_default_visibility(items: Seq<NestedMeta>)
    requires
        forall|k: int| 0 <= k < items.len() ==> visibility_of(#[trigger] items[k]) is None,
        args_of_items(items) is Ok,
    ensures
        args_of_items(items)->Ok_0.visibility == Visibility::Private,
    decreases items.len(),
{
    if items.len() > 0 {
        let shorter = items.drop_last();
        assert forall|k: int| 0 <= k < shorter.len() implies visibility_of(
            #[trigger] shorter[k],
        ) is None by {
            assert(shorter[k] == items[k]);
        }
        lemma_default_visibility(shorter);
        assert(visibility_of(items[items.len() - 1]) is None);
    }
}

/// A well-formed visibility item (`pub`, `pub = "crate"`) sets the visibility,
/// replacing any earlier one, and leaves the flags as they were.
pub proof fn lemma_visibility_item(items: Seq<NestedMeta>, x: NestedMeta, v: Visibility)
    requires
        visibility_of(x) == Some(Ok::<Visibility, ()>(v)),
        args_of_items(items) is Ok,
    ensures
        args_of_items(items.push(x)) == Ok::<Args, FromPunctuatedError>(
            Args {
                into: args_of_items(items)->Ok_0.into,
                strip: args_of_items(items)->Ok_0.strip,
                visibility: v,
            },
        ),
{
    reveal_strlit("pub");
    reveal_strlit("into");
    reveal_strlit("strip");
    assert(items.push(x).drop_last() =~= items);
    if let NestedMeta::Path(p) = x {
        assert(p@ == "pub"@);
        assert(p@[0] != "into"@[0]);
        assert(p@[0] != "strip"@[0]);
    }
}

/// A bare `#[set]`, or `#[set()]`, asks for a setter with no flags and private
/// visibility.
pub proof fn lemma_bare_marker(attr: Attribute)
    requires
        attr.path@ == "set"@,
        attr.meta == Some(Meta::Path) || (attr.meta matches Some(Meta::List(items))
            && items@.len() == 0),
    ensures
        args_of_attribute(attr) == Ok::<Args, FromAttributeError>(default_args()),
{
}

impl Default for Args {
    fn default() -> (r: Self)
        ensures
            r == default_args(),
    {
        Args { into: false, strip: false, visibility: Visibility::private() }
    }
}

impl Args {
    /// Reads the items of a `set` argument list.
    pub fn try_from_items(items: &Vec<NestedMeta>) -> (r: Result<Args, FromPunctuatedError>)
        ensures
            r == args_of_items(items@),
    {
        let mut args = Args::default();
        let mut i: usize = 0;
        while i < items.len()
            invariant
                i <= items.len(),
                args_of_items(items@.subrange(0, i as int)) == Ok::<Args, FromPunctuatedError>(args),
            decreases items.len() - i,
        {
            let item = &items[i];
            proof {
                assert(items@.subrange(0, i + 1).drop_last() =~= items@.subrange(0, i as int));
            }
            if parse_nested_ident(item, "into") {
                match try_set_bool(&mut args.into) {
                    Ok(()) => {},
                    Err(e) => {
                        proof {
                            lemma_items_error_sticks(items@, i + 1);
                        }
                        return Err(e);
                    },
                }
            } else if parse_nested_ident(item, "strip") {
                match try_set_bool(&mut args.strip) {
                    Ok(()) => {},
                    Err(e) => {
                        proof {
                            lemma_items_error_sticks(items@, i + 1);
                        }
                        return Err(e);
                    },
                }
            } else {
                match Visibility::from_meta(item) {
                    Some(Ok(v)) => args.visibility = v,
                    _ => {
                        proof {
                            lemma_items_error_sticks(items@, i + 1);
                        }
                        return Err(FromPunctuatedError::UnrecognisedArg);
                    },
                }
            }
            i += 1;
        }
        proof {
            assert(items@.subrange(0, items.len() as int) =~= items@);
        }
        Ok(args)
    }

    /// Reads a field annotation as a `set` annotation.
    pub fn try_from_attribute(attr: &Attribute) -> (r: Result<Args, FromAttributeError>)
        ensures
            r == args_of_attribute(*attr),
    {
        if is_word(&attr.path, "set") {
            match &attr.meta {
                Some(Meta::Path) => Ok(Args::default()),
                Some(Meta::List(items)) => match Args::try_from_items(items) {
                    Ok(a) => Ok(a),
                    Err(e) => Err(FromAttributeError::FromPunctuated(e)),
                },
                _ => Err(FromAttributeError::MalformedAttribute),
            }
        } else {
            Err(FromAttributeError::UnrecognisedAttribute)
        }
    }
}

/// Raises a flag that may be raised once only.
pub fn try_set_bool(flag: &mut bool) -> (r: Result<(), FromPunctuatedError>)
    ensures
        *old(flag) ==> r == Err::<(), FromPunctuatedError>(FromPunctuatedError::DuplicateArgs)
            && *final(flag),
        !*old(flag) ==> r == Ok::<(), FromPunctuatedError>(()) && *final(flag),
{
    if *flag {
        Err(FromPunctuatedError::DuplicateArgs)
    } else {
        *flag = true;
        Ok(())
    }
}

/// Whether an argument item is the bare identifier `ident`.
fn parse_nested_ident(item: &NestedMeta, ident: &str) -> (r: bool)
    ensures
        r == item_is(*item, ident@),
{
    match item {
        NestedMeta::Path(p) => is_word(p, ident),
        _ => false,
    }
}

} // verus!
