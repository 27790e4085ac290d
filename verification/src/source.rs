//! Reading expanded source text into the tree that discovery walks.
//!
//! The text is lexed by `proc_macro2` and parsed by `syn`. Nothing in this
//! file is proved: each function here states what is taken on trust about the
//! two. All of it is said of a process that is not a procedural macro, such as
//! a build script: there `proc_macro2` lexes by itself, and what it makes of a
//! text depends on the text alone. Inside a procedural macro the compiler's
//! lexer would decide, and nothing here is claimed of it.

use std::str::FromStr;
use vstd::prelude::*;
use crate::literal::unreadable_literal;
use crate::tree::{
    AnnotationParseFailure, Attr, Declaration, ForeignFunctionDecl, Literal, Meta, SourceItem,
    SourceItemView,
};

verus! {

/// Why a text is not the source of a Rust file.
#[derive(Debug, PartialEq, Eq)]
pub struct ParseFailure {
    /// The parser's account of the error.
    pub message: String,
}

/// The literal tokens that `proc_macro2::TokenStream::from_str` finds in a
/// text, each as `proc_macro2::Literal::to_string` prints it, in the order of
/// the text and at any depth of brackets; or `None` where the lexer rejects
/// the text.
pub uninterp spec fn lexed_literals(text: Seq<char>) -> Option<Seq<Seq<char>>>;

/// What parsing makes of a text: the items of the file that
/// `syn::parse_str::<syn::File>` parses it to, or the `Debug` text of the
/// parser's error where it is not a Rust file. Of the items it holds what
/// discovery reads: for an `extern` block, what `syn::LitStr::value` makes of
/// its ABI string; for a foreign function, the text of its identifier; for
/// each of its attributes, the identifiers of its path and what
/// `syn::Attribute::parse_meta` and `syn::LitStr::value` make of its content.
pub uninterp spec fn parsed_source(text: Seq<char>) -> Result<Seq<SourceItemView>, Seq<char>>;

/// Lexes a text with `proc_macro2::TokenStream::from_str`, the call that
/// `syn::parse_str` starts with, and hands out its literal tokens.
///
/// Taken on trust: outside a procedural macro lexing depends on the text
/// alone, so the outcome is `lexed_literals` of the text.
#[verifier::external_body]
pub(crate) fn literal_tokens(text: &str) -> (tokens: Option<Vec<String>>)
    ensures
        tokens.deep_view() == lexed_literals(text@),
{
    match proc_macro2::TokenStream::from_str(text) {
        Ok(stream) => {
            let mut found = Vec::new();
            collect_literals(stream, &mut found);
            Some(found)
        },
        Err(_) => None,
    }
}

/// Adds the text of each literal token of a `proc_macro2::TokenStream` to
/// `found`, going into each group of brackets where it stands. Nothing is
/// promised of the result.
#[verifier::external_body]
fn collect_literals(stream: proc_macro2::TokenStream, found: &mut Vec<String>) {
    for token in stream {
        match token {
            proc_macro2::TokenTree::Group(group) => collect_literals(group.stream(), found),
            proc_macro2::TokenTree::Literal(literal) => found.push(literal.to_string()),
            proc_macro2::TokenTree::Ident(_) => {},
            proc_macro2::TokenTree::Punct(_) => {},
        }
    }
}

/// Parses a text as a Rust file with `syn::parse_str::<syn::File>` and hands
/// out the file's items.
///
/// `syn` panics where it is to read a literal token of a kind it does not
/// know (`syn::Lit::new`), in an expression or in the content of an
/// attribute. Such texts are left out: every literal token of the text must
/// be one that it reads.
///
/// Taken on trust: on the texts that are left, the call and the reading of
/// every attribute and ABI string return; and outside a procedural macro they
/// depend on the text alone, so the outcome is `parsed_source` of the text.
#[verifier::external_body]
pub(crate) fn parse_items(text: &str) -> (parsed: Result<Vec<SourceItem>, ParseFailure>)
    requires
        unreadable_literal(lexed_literals(text@)) is None,
    ensures
        parsed_source(text@) == match parsed {
            Ok(items) => Ok::<Seq<SourceItemView>, Seq<char>>(items.deep_view()),
            Err(failure) => Err(failure.message@),
        },
{
    match syn::parse_str::<syn::File>(text) {
        Ok(file) => Ok(file.items.iter().map(item_from_syn).collect()),
        Err(error) => Err(ParseFailure { message: format!("{:?}", error) }),
    }
}

/// Copies a `syn::Item` into a [`SourceItem`]: a module with the items of its
/// body (none where it has no body), an `extern` block with the value of its
/// ABI string (`syn::LitStr::value`) and its declarations, and anything else
/// as `Other`. Nothing is promised of the result.
#[verifier::external_body]
fn item_from_syn(item: &syn::Item) -> SourceItem {
    match item {
        syn::Item::Mod(module) => SourceItem::Module {
            items: match &module.content {
                Some((_, body)) => body.iter().map(item_from_syn).collect(),
                None => Vec::new(),
            },
        },
        syn::Item::ForeignMod(block) => SourceItem::ExternBlock {
            abi_tag: block.abi.name.as_ref().map(|name| name.value()),
            declarations: block.items.iter().map(foreign_item_from_syn).collect(),
        },
        _ => SourceItem::Other,
    }
}

/// Copies a `syn::ForeignItem` into a [`Declaration`]: a function with the
/// text of its identifier and its attributes, anything else as `Other`.
/// Nothing is promised of the result.
#[verifier::external_body]
fn foreign_item_from_syn(item: &syn::ForeignItem) -> Declaration {
    match item {
        syn::ForeignItem::Fn(function) => Declaration::Function(
            ForeignFunctionDecl {
                identifier: function.sig.ident.to_string(),
                attributes: function.attrs.iter().map(attribute_from_syn).collect(),
            },
        ),
        _ => Declaration::Other,
    }
}

/// Copies a `syn::Attribute` into an [`Attr`]: the identifiers of its
/// path's segments, and what `syn::Attribute::parse_meta` makes of it, with a
/// string literal given by its value (`syn::LitStr::value`) and an error by
/// its `Debug` text. It is called on the attributes of a text whose every
/// literal token `syn` reads, so that `parse_meta` returns. Nothing is
/// promised of the result.
#[verifier::external_body]
fn attribute_from_syn(attribute: &syn::Attribute) -> Attr {
    Attr {
        path: attribute.path.segments.iter().map(|segment| segment.ident.to_string()).collect(),
        meta: match attribute.parse_meta() {
            Ok(syn::Meta::Path(_)) => Ok(Meta::Path),
            Ok(syn::Meta::List(_)) => Ok(Meta::List),
            Ok(syn::Meta::NameValue(pair)) => Ok(Meta::NameValue(match pair.lit {
                syn::Lit::Str(text) => Literal::Str(text.value()),
                _ => Literal::Other,
            })),
            Err(error) => Err(AnnotationParseFailure { message: format!("{:?}", error) }),
        },
    }
}

} // verus!
