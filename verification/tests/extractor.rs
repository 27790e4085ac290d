use strict_linking::extractor::{discover, Extractor};
use strict_linking::style::LinkerArgStyle;
use strict_linking::tree::{
    AnnotationParseFailure, Attr, Declaration, ForeignFunctionDecl, Literal, Meta, SourceItem,
};
use strict_linking::walker::ItemVisitor;

fn link_name(name: &str) -> Attr {
    Attr {
        path: vec![String::from("link_name")],
        meta: Ok(Meta::NameValue(Literal::Str(name.to_string()))),
    }
}

fn function(identifier: &str) -> Declaration {
    Declaration::Function(ForeignFunctionDecl {
        identifier: identifier.to_string(),
        attributes: vec![],
    })
}

fn renamed(identifier: &str, name: &str) -> Declaration {
    Declaration::Function(ForeignFunctionDecl {
        identifier: identifier.to_string(),
        attributes: vec![link_name(name)],
    })
}

fn block(abi: Option<&str>, declarations: Vec<Declaration>) -> SourceItem {
    SourceItem::ExternBlock { abi_tag: abi.map(|tag| tag.to_string()), declarations }
}

fn module(items: Vec<SourceItem>) -> SourceItem {
    SourceItem::Module { items }
}

fn lines(items: &Vec<SourceItem>, style: LinkerArgStyle) -> Vec<String> {
    discover(items, style).directives
}

#[test]
fn no_items_give_no_directives() {
    let found = discover(&vec![], LinkerArgStyle::Gcc);
    assert_eq!(found.style, LinkerArgStyle::Gcc);
    assert_eq!(found.directives.len(), 0);
    assert_eq!(found.notices.len(), 0);
}

#[test]
fn one_directive_per_function_of_a_c_block() {
    let items = vec![block(Some("C"), vec![function("a"), function("b"), function("c")])];
    assert_eq!(
        lines(&items, LinkerArgStyle::Gcc),
        vec!["--require-defined=a", "--require-defined=b", "--require-defined=c"]
    );
    assert_eq!(lines(&items, LinkerArgStyle::BsdLd), vec!["-u _a", "-u _b", "-u _c"]);
    assert_eq!(
        lines(&items, LinkerArgStyle::Msvc),
        vec!["/INCLUDE:\"a\"", "/INCLUDE:\"b\"", "/INCLUDE:\"c\""]
    );
}

#[test]
fn blocks_of_other_abis_are_ignored() {
    let items = vec![
        block(Some("system"), vec![function("a")]),
        block(Some("c"), vec![function("b")]),
        block(Some("C-unwind"), vec![function("c")]),
        block(Some(""), vec![function("d")]),
        block(None, vec![function("e")]),
        block(Some("Rust"), vec![function("f")]),
    ];
    assert_eq!(lines(&items, LinkerArgStyle::Gcc).len(), 0);
}

#[test]
fn items_that_are_not_foreign_give_nothing() {
    let items = vec![SourceItem::Other, module(vec![SourceItem::Other]), module(vec![])];
    assert_eq!(lines(&items, LinkerArgStyle::BsdLd).len(), 0);
}

#[test]
fn declarations_that_are_not_functions_give_nothing() {
    let items = vec![block(
        Some("C"),
        vec![Declaration::Other, function("a"), Declaration::Other, function("b")],
    )];
    assert_eq!(lines(&items, LinkerArgStyle::BsdLd), vec!["-u _a", "-u _b"]);
}

#[test]
fn directives_follow_source_order_depth_first() {
    let items = vec![
        block(Some("C"), vec![function("a")]),
        module(vec![
            block(Some("C"), vec![function("b"), function("c")]),
            module(vec![block(Some("C"), vec![function("d")])]),
            block(Some("system"), vec![function("skipped")]),
            block(Some("C"), vec![function("e")]),
        ]),
        SourceItem::Other,
        block(Some("C"), vec![function("f")]),
    ];
    assert_eq!(
        lines(&items, LinkerArgStyle::BsdLd),
        vec!["-u _a", "-u _b", "-u _c", "-u _d", "-u _e", "-u _f"]
    );
}

#[test]
fn discovery_twice_gives_the_same_directives() {
    let items = vec![
        module(vec![block(Some("C"), vec![function("b"), renamed("c", "see")])]),
        block(Some("C"), vec![function("a")]),
    ];
    assert_eq!(lines(&items, LinkerArgStyle::Msvc), lines(&items, LinkerArgStyle::Msvc));
    assert_eq!(
        lines(&items, LinkerArgStyle::Msvc),
        vec!["/INCLUDE:\"b\"", "/INCLUDE:\"see\"", "/INCLUDE:\"a\""]
    );
}

#[test]
fn module_contributes_what_its_items_contribute() {
    let flat = vec![
        block(Some("C"), vec![function("a")]),
        block(Some("C"), vec![function("b")]),
        block(Some("C"), vec![function("c")]),
    ];
    let nested = vec![
        block(Some("C"), vec![function("a")]),
        module(vec![block(Some("C"), vec![function("b")])]),
        block(Some("C"), vec![function("c")]),
    ];
    assert_eq!(lines(&flat, LinkerArgStyle::Gcc), lines(&nested, LinkerArgStyle::Gcc));
}

#[test]
fn rename_annotation_names_the_symbol() {
    let items = vec![block(Some("C"), vec![renamed("foo", "bar")])];
    assert_eq!(lines(&items, LinkerArgStyle::Gcc), vec!["--require-defined=bar"]);
    assert_eq!(lines(&items, LinkerArgStyle::BsdLd), vec!["-u _bar"]);
    assert_eq!(lines(&items, LinkerArgStyle::Msvc), vec!["/INCLUDE:\"bar\""]);
}

#[test]
fn decorated_rename_is_corrected_for_msvc() {
    let items = vec![block(Some("C"), vec![renamed("foo", "_?Foo@@YAXXZ")])];
    assert_eq!(lines(&items, LinkerArgStyle::Msvc), vec!["/INCLUDE:\"?Foo@@YAXXZ\""]);
    assert_eq!(lines(&items, LinkerArgStyle::Gcc), vec!["--require-defined=_?Foo@@YAXXZ"]);
    assert_eq!(lines(&items, LinkerArgStyle::BsdLd), vec!["-u __?Foo@@YAXXZ"]);
}

#[test]
fn empty_symbol_leaves_the_directive_set_unaffected() {
    let items = vec![block(Some("C"), vec![function("a"), function(""), function("b")])];
    assert_eq!(lines(&items, LinkerArgStyle::Gcc), vec!["--require-defined=a", "--require-defined=b"]);
    let only_empty = vec![block(Some("C"), vec![function("")])];
    assert_eq!(lines(&only_empty, LinkerArgStyle::Msvc).len(), 0);
}

#[test]
fn empty_rename_falls_back_to_the_identifier() {
    let items = vec![block(Some("C"), vec![renamed("foo", "")])];
    assert_eq!(lines(&items, LinkerArgStyle::BsdLd), vec!["-u _foo"]);
}

#[test]
fn unreadable_rename_is_noticed_and_the_identifier_used() {
    let broken = Declaration::Function(ForeignFunctionDecl {
        identifier: String::from("foo"),
        attributes: vec![
            Attr {
                path: vec![String::from("link_name")],
                meta: Err(AnnotationParseFailure {
                    message: String::from("Error(\"expected literal\")"),
                }),
            },
            link_name("ignored"),
        ],
    });
    let items = vec![block(Some("C"), vec![function("a"), broken, function("b")])];
    let found = discover(&items, LinkerArgStyle::Gcc);
    assert_eq!(
        found.directives,
        vec!["--require-defined=a", "--require-defined=foo", "--require-defined=b"]
    );
    assert_eq!(
        found.notices,
        vec!["Error parsing meta for link_name Error(\"expected literal\")"]
    );
}

#[test]
fn unreadable_rename_outside_c_blocks_is_not_noticed() {
    let broken = Declaration::Function(ForeignFunctionDecl {
        identifier: String::from("foo"),
        attributes: vec![Attr {
            path: vec![String::from("link_name")],
            meta: Err(AnnotationParseFailure { message: String::from("bad") }),
        }],
    });
    let found = discover(&vec![block(Some("system"), vec![broken])], LinkerArgStyle::Gcc);
    assert_eq!(found.directives.len(), 0);
    assert_eq!(found.notices.len(), 0);
}

#[test]
fn extractor_starts_empty() {
    let extractor = Extractor::new(LinkerArgStyle::Msvc);
    assert_eq!(extractor.style, LinkerArgStyle::Msvc);
    assert_eq!(extractor.directives.len(), 0);
    assert_eq!(extractor.notices.len(), 0);
}

#[test]
fn extractor_visits_only_the_item_itself() {
    let mut extractor = Extractor::new(LinkerArgStyle::BsdLd);
    extractor.visit(&module(vec![block(Some("C"), vec![function("inner")])]));
    assert_eq!(extractor.directives.len(), 0);
    extractor.visit(&block(Some("C"), vec![function("a")]));
    extractor.visit(&SourceItem::Other);
    extractor.visit(&block(Some("C"), vec![function("b")]));
    assert_eq!(extractor.directives, vec!["-u _a", "-u _b"]);
}

#[test]
fn extractor_handles_declarations_one_by_one() {
    let mut extractor = Extractor::new(LinkerArgStyle::Gcc);
    extractor.visit_declaration(&function("a"));
    extractor.visit_declaration(&Declaration::Other);
    extractor.visit_block(&vec![renamed("b", "bee"), function("c")]);
    assert_eq!(
        extractor.directives,
        vec!["--require-defined=a", "--require-defined=bee", "--require-defined=c"]
    );
}
