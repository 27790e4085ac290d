use strict_linking::tree::{AnnotationParseFailure, Attr, ForeignFunctionDecl, Literal, Meta};

fn attr(path: &[&str], meta: Result<Meta, AnnotationParseFailure>) -> Attr {
    Attr { path: path.iter().map(|segment| segment.to_string()).collect(), meta }
}

fn link_name(name: &str) -> Attr {
    attr(&["link_name"], Ok(Meta::NameValue(Literal::Str(name.to_string()))))
}

fn function(attributes: Vec<Attr>) -> ForeignFunctionDecl {
    ForeignFunctionDecl { identifier: String::from("foo"), attributes }
}

#[test]
fn single_segment_link_name_is_a_rename_annotation() {
    assert!(link_name("bar").is_rename_annotation());
    assert!(attr(&["link_name"], Ok(Meta::Path)).is_rename_annotation());
}

#[test]
fn other_paths_are_not_rename_annotations() {
    assert!(!attr(&["no_mangle"], Ok(Meta::Path)).is_rename_annotation());
    assert!(!attr(&[], Ok(Meta::Path)).is_rename_annotation());
    assert!(!attr(&["a", "link_name"], Ok(Meta::Path)).is_rename_annotation());
    assert!(!attr(&["link_name", "b"], Ok(Meta::Path)).is_rename_annotation());
    assert!(!attr(&["link_names"], Ok(Meta::Path)).is_rename_annotation());
    assert!(!attr(&["Link_name"], Ok(Meta::Path)).is_rename_annotation());
}

#[test]
fn declaration_without_attributes_has_no_override() {
    let decl = function(vec![]);
    assert_eq!(decl.rename_annotation(), None);
    assert_eq!(decl.override_name(), None);
    assert_eq!(decl.rename_failure(), None);
}

#[test]
fn string_literal_becomes_the_override() {
    let decl = function(vec![attr(&["inline"], Ok(Meta::Path)), link_name("bar")]);
    assert_eq!(decl.rename_annotation(), Some(&link_name("bar")));
    assert_eq!(decl.override_name(), Some("bar"));
    assert_eq!(decl.rename_failure(), None);
}

#[test]
fn first_rename_annotation_decides() {
    let decl = function(vec![link_name("first"), link_name("second")]);
    assert_eq!(decl.override_name(), Some("first"));
    let shadowed = function(vec![attr(&["link_name"], Ok(Meta::List)), link_name("second")]);
    assert_eq!(shadowed.override_name(), None);
}

#[test]
fn annotation_of_another_form_names_nothing() {
    assert_eq!(function(vec![attr(&["link_name"], Ok(Meta::Path))]).override_name(), None);
    assert_eq!(function(vec![attr(&["link_name"], Ok(Meta::List))]).override_name(), None);
    assert_eq!(
        function(vec![attr(&["link_name"], Ok(Meta::NameValue(Literal::Other)))]).override_name(),
        None
    );
}

#[test]
fn unreadable_annotation_is_reported_and_names_nothing() {
    let failure = AnnotationParseFailure { message: String::from("Error(\"expected literal\")") };
    let decl = function(vec![attr(
        &["link_name"],
        Err(AnnotationParseFailure { message: String::from("Error(\"expected literal\")") }),
    )]);
    assert_eq!(decl.override_name(), None);
    assert_eq!(decl.rename_failure(), Some(&failure));
}

#[test]
fn unreadable_attribute_of_another_name_is_not_reported() {
    let decl = function(vec![
        attr(&["doc"], Err(AnnotationParseFailure { message: String::from("bad") })),
        link_name("bar"),
    ]);
    assert_eq!(decl.override_name(), Some("bar"));
    assert_eq!(decl.rename_failure(), None);
}
