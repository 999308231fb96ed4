use fluent_setters::args::{Args, FromAttributeError, FromPunctuatedError};
use fluent_setters::attributes::Attributes;
use fluent_setters::meta::{Attribute, Lit, Meta, NestedMeta};
use fluent_setters::ty::{Type, TypeExpr, TypePath};
use fluent_setters::visibility::Visibility;

fn word(w: &str) -> NestedMeta {
    NestedMeta::Path(w.to_string())
}

fn pub_in(scope: &str) -> NestedMeta {
    NestedMeta::NameValue("pub".to_string(), Lit::Str(scope.to_string()))
}

fn set_list(items: Vec<NestedMeta>) -> Attribute {
    Attribute { path: "set".to_string(), meta: Some(Meta::List(items)) }
}

fn doc(text: &str) -> Attribute {
    Attribute { path: "doc".to_string(), meta: Some(Meta::NameValue(Lit::Str(text.to_string()))) }
}

fn args(into: bool, strip: bool, visibility: Visibility) -> Args {
    Args { into, strip, visibility }
}

fn path_type(text: &str, first: &str, is_ident: bool, arg: Option<&str>) -> TypeExpr {
    TypeExpr {
        tokens: text.to_string(),
        path: Some(TypePath {
            first_ident: first.to_string(),
            is_ident,
            first_arg: arg.map(|a| a.to_string()),
        }),
    }
}

fn kind(t: &TypeExpr) -> &'static str {
    match Type::from_expr(t) {
        Type::Bool(_) => "bool",
        Type::Option(_) => "option",
        Type::Other(_) => "other",
    }
}

#[test]
fn args_parse_pub_path() {
    let meta: syn::Meta = syn::parse_str(r#"pub="crate""#).unwrap();
    if let syn::Meta::NameValue(name_value) = &meta {
        assert!(name_value.path.is_ident("pub"));
    }
    assert_eq!(Visibility::from_meta(&pub_in("crate")), Some(Ok(Visibility::in_crate())));
}

#[test]
fn field_attribute_parse_pub_path() {
    let meta: syn::Meta = syn::parse_str(r#"pub="crate""#).unwrap();
    if let syn::Meta::NameValue(name_value) = &meta {
        assert!(name_value.path.is_ident("pub"));
    }
}

#[test]
fn visibility_public() {
    assert_eq!(Visibility::from_meta(&word("pub")), Some(Ok(Visibility::public())));
}

#[test]
fn visibility_pub_in_crate() {
    assert_eq!(Visibility::from_meta(&pub_in("crate")), Some(Ok(Visibility::Crate)));
}

#[test]
fn visibility_other_scope_and_list_are_malformed() {
    assert_eq!(Visibility::from_meta(&pub_in("super")), Some(Err(())));
    assert_eq!(
        Visibility::from_meta(&NestedMeta::NameValue("pub".to_string(), Lit::Other)),
        Some(Err(()))
    );
    assert_eq!(Visibility::from_meta(&NestedMeta::List("pub".to_string())), Some(Err(())));
    assert_eq!(Visibility::from_meta(&word("into")), None);
    assert_eq!(Visibility::default(), Visibility::private());
}

#[test]
fn args_into() {
    assert_eq!(Args::try_from_items(&vec![word("into")]), Ok(args(true, false, Visibility::Private)));
}

#[test]
fn args_strip() {
    assert_eq!(Args::try_from_items(&vec![word("strip")]), Ok(args(false, true, Visibility::Private)));
}

#[test]
fn args_into_strip() {
    assert_eq!(
        Args::try_from_items(&vec![word("into"), word("strip")]),
        Ok(args(true, true, Visibility::Private))
    );
}

#[test]
fn args_unrecognised_argument() {
    assert_eq!(
        Args::try_from_items(&vec![word("unrecognised")]),
        Err(FromPunctuatedError::UnrecognisedArg)
    );
    assert_eq!(
        Args::try_from_items(&vec![word("into"), NestedMeta::Lit(Lit::Other)]),
        Err(FromPunctuatedError::UnrecognisedArg)
    );
    assert_eq!(
        Args::try_from_items(&vec![word("strip"), pub_in("super")]),
        Err(FromPunctuatedError::UnrecognisedArg)
    );
    assert_eq!(
        Args::try_from_items(&vec![NestedMeta::List("pub".to_string())]),
        Err(FromPunctuatedError::UnrecognisedArg)
    );
}

#[test]
fn args_duplicate_arguments() {
    assert_eq!(
        Args::try_from_items(&vec![word("into"), word("into")]),
        Err(FromPunctuatedError::DuplicateArgs)
    );
    assert_eq!(
        Args::try_from_items(&vec![word("strip"), word("into"), word("strip")]),
        Err(FromPunctuatedError::DuplicateArgs)
    );
}

#[test]
fn args_first_rejected_item_decides() {
    assert_eq!(
        Args::try_from_items(&vec![word("bogus"), word("into"), word("into")]),
        Err(FromPunctuatedError::UnrecognisedArg)
    );
    assert_eq!(
        Args::try_from_items(&vec![word("into"), word("into"), word("bogus")]),
        Err(FromPunctuatedError::DuplicateArgs)
    );
}

#[test]
fn args_public() {
    assert_eq!(Args::try_from_items(&vec![word("pub")]), Ok(args(false, false, Visibility::Public)));
}

#[test]
fn args_pub_in_crate() {
    assert_eq!(Args::try_from_items(&vec![pub_in("crate")]), Ok(args(false, false, Visibility::Crate)));
}

#[test]
fn args_visibility_last_wins() {
    assert_eq!(
        Args::try_from_items(&vec![word("pub"), pub_in("crate")]),
        Ok(args(false, false, Visibility::Crate))
    );
    assert_eq!(
        Args::try_from_items(&vec![pub_in("crate"), word("pub")]),
        Ok(args(false, false, Visibility::Public))
    );
}

#[test]
fn attribute_into() {
    assert_eq!(
        Args::try_from_attribute(&set_list(vec![word("into")])),
        Ok(args(true, false, Visibility::Private))
    );
}

#[test]
fn attribute_everything() {
    assert_eq!(
        Args::try_from_attribute(&set_list(vec![word("into"), word("strip"), pub_in("crate")])),
        Ok(args(true, true, Visibility::in_crate()))
    );
}

#[test]
fn attribute_unrecognised() {
    let det = Attribute { path: "det".to_string(), meta: Some(Meta::List(vec![word("into")])) };
    assert_eq!(Args::try_from_attribute(&det), Err(FromAttributeError::UnrecognisedAttribute));
}

#[test]
fn attribute_no_args() {
    let bare = Attribute { path: "set".to_string(), meta: Some(Meta::Path) };
    assert_eq!(Args::try_from_attribute(&bare), Ok(Args::default()));
    assert_eq!(Args::try_from_attribute(&set_list(vec![])), Ok(args(false, false, Visibility::Private)));
}

#[test]
fn attribute_malformed() {
    let valued = Attribute { path: "set".to_string(), meta: Some(Meta::NameValue(Lit::Other)) };
    assert_eq!(Args::try_from_attribute(&valued), Err(FromAttributeError::MalformedAttribute));
    let unreadable = Attribute { path: "set".to_string(), meta: None };
    assert_eq!(Args::try_from_attribute(&unreadable), Err(FromAttributeError::MalformedAttribute));
    assert_eq!(
        Args::try_from_attribute(&set_list(vec![word("into"), word("into")])),
        Err(FromAttributeError::FromPunctuated(FromPunctuatedError::DuplicateArgs))
    );
}

#[test]
fn attributes_plain() {
    let attrs = vec![set_list(vec![word("into"), word("strip")])];
    assert_eq!(
        Attributes::try_from_attrs(&attrs),
        Ok(Some(Attributes { into: true, strip: true, visibility: Visibility::private(), doc: None }))
    );
}

#[test]
fn attributes_with_doc_comment() {
    let attrs = vec![doc(" This is a doc comment"), set_list(vec![word("into"), word("strip")])];
    assert_eq!(
        Attributes::try_from_attrs(&attrs),
        Ok(Some(Attributes {
            into: true,
            strip: true,
            visibility: Visibility::private(),
            doc: Some(" This is a doc comment".to_string()),
        }))
    );
}

#[test]
fn attributes_unrelated() {
    let unrelated = Attribute { path: "unrelated".to_string(), meta: Some(Meta::Path) };
    let attrs = vec![doc(" This is a doc comment"), set_list(vec![word("into"), word("strip")]), unrelated];
    assert_eq!(
        Attributes::try_from_attrs(&attrs),
        Ok(Some(Attributes {
            into: true,
            strip: true,
            visibility: Visibility::private(),
            doc: Some(" This is a doc comment".to_string()),
        }))
    );
}

#[test]
fn attributes_empty() {
    let attrs = vec![Attribute { path: "set".to_string(), meta: Some(Meta::Path) }];
    assert_eq!(
        Attributes::try_from_attrs(&attrs),
        Ok(Some(Attributes { into: false, strip: false, visibility: Visibility::private(), doc: None }))
    );
}

#[test]
fn attributes_without_marker() {
    assert_eq!(Attributes::try_from_attrs(&vec![]), Ok(None));
    assert_eq!(Attributes::try_from_attrs(&vec![doc(" Only documented")]), Ok(None));
}

#[test]
fn attributes_malformed_doc() {
    let bad_doc = Attribute { path: "doc".to_string(), meta: Some(Meta::NameValue(Lit::Other)) };
    assert_eq!(
        Attributes::try_from_attrs(&vec![bad_doc, set_list(vec![])]),
        Err(FromAttributeError::MalformedAttribute)
    );
}

#[test]
fn attributes_errors_are_reported() {
    assert_eq!(
        Attributes::try_from_attrs(&vec![set_list(vec![word("nope")])]),
        Err(FromAttributeError::FromPunctuated(FromPunctuatedError::UnrecognisedArg))
    );
}

#[test]
fn attributes_doc_attribute() {
    let a = Attributes { into: false, strip: false, visibility: Visibility::Public, doc: Some(" x".to_string()) };
    assert_eq!(a.doc_attribute(), Some(" x".to_string()));
}

#[test]
fn type_other() {
    assert_eq!(kind(&path_type("u32", "u32", true, None)), "other");
}

#[test]
fn type_option() {
    let t = path_type("Option < u32 >", "Option", false, Some("u32"));
    assert_eq!(kind(&t), "option");
    match Type::from_expr(&t) {
        Type::Option(o) => assert_eq!(o.inner_ty(), "u32"),
        _ => panic!("expected an optional type"),
    }
}

#[test]
fn type_bool() {
    assert_eq!(kind(&path_type("bool", "bool", true, None)), "bool");
}

#[test]
fn type_classification_is_syntactic() {
    assert_eq!(kind(&path_type("std :: option :: Option < u8 >", "std", false, None)), "other");
    assert_eq!(kind(&path_type("bool :: X", "bool", false, None)), "other");
    assert_eq!(kind(&path_type("Option", "Option", true, None)), "other");
    assert_eq!(kind(&TypeExpr { tokens: "(u8 , u8)".to_string(), path: None }), "other");
    assert_eq!(Type::from_expr(&path_type("bool", "bool", true, None)).to_tokens(), "bool");
}

#[test]
fn attributes_malformed_doc_without_marker_is_no_error() {
    let bad_doc = Attribute { path: "doc".to_string(), meta: Some(Meta::NameValue(Lit::Other)) };
    let unrelated = Attribute { path: "serde".to_string(), meta: None };
    assert_eq!(Attributes::try_from_attrs(&vec![bad_doc.clone(), unrelated]), Ok(None));
    assert_eq!(
        Attributes::try_from_attrs(&vec![set_list(vec![]), bad_doc]),
        Err(FromAttributeError::MalformedAttribute)
    );
}
