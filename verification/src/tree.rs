//! The expanded source of a project, reduced to what symbol discovery reads.

use vstd::prelude::*;

verus! {

/// The value of a `name = value` attribute.
#[derive(Debug, PartialEq, Eq)]
pub enum Literal {
    /// A string literal, with the text it denotes.
    Str(String),
    /// Any other kind of literal.
    Other,
}

/// The content of an attribute.
#[derive(Debug, PartialEq, Eq)]
pub enum Meta {
    /// A bare path, as in `#[no_mangle]`.
    Path,
    /// A path with a parenthesised list, as in `#[link(name = "m")]`.
    List,
    /// A path with a value, as in `#[link_name = "sym"]`.
    NameValue(Literal),
}

/// Why the content of an attribute could not be read.
#[derive(Debug, PartialEq, Eq)]
pub struct AnnotationParseFailure {
    /// The parser's account of the error.
    pub message: String,
}

/// An attribute on a declaration.
#[derive(Debug, PartialEq, Eq)]
pub struct Attr {
    /// The identifiers of the segments of the attribute's path.
    pub path: Vec<String>,
    /// The attribute's content, or why it is not well formed.
    pub meta: Result<Meta, AnnotationParseFailure>,
}

/// A function declared in an `extern` block.
#[derive(Debug, PartialEq, Eq)]
pub struct ForeignFunctionDecl {
    /// The name of the function in the source.
    pub identifier: String,
    /// The attributes on the declaration, in source order.
    pub attributes: Vec<Attr>,
}

/// A declaration inside an `extern` block.
#[derive(Debug, PartialEq, Eq)]
pub enum Declaration {
    /// A function.
    Function(ForeignFunctionDecl),
    /// A static, a type or anything else that is not a function.
    Other,
}

/// A top-level or nested item of the expanded source.
#[derive(Debug, PartialEq, Eq)]
pub enum SourceItem {
    /// A module with the items of its body, in source order.
    Module { items: Vec<SourceItem> },
    /// An `extern` block with its ABI string, if it names one.
    ExternBlock { abi_tag: Option<String>, declarations: Vec<Declaration> },
    /// Any other item.
    Other,
}

/// The mathematical value of a [`Literal`].
pub enum LiteralView {
    Str(Seq<char>),
    Other,
}

/// The mathematical value of a [`Meta`].
pub enum MetaView {
    Path,
    List,
    NameValue(LiteralView),
}

/// The mathematical value of an [`Attr`]. A content that could not be read
/// is given by the message of the failure.
pub struct AttrView {
    pub path: Seq<Seq<char>>,
    pub meta: Result<MetaView, Seq<char>>,
}

/// The mathematical value of a [`ForeignFunctionDecl`].
pub struct ForeignFunctionDeclView {
    pub identifier: Seq<char>,
    pub attributes: Seq<AttrView>,
}

/// The mathematical value of a [`Declaration`].
pub enum DeclarationView {
    Function(ForeignFunctionDeclView),
    Other,
}

/// The mathematical value of a [`SourceItem`].
pub enum SourceItemView {
    Module { items: Seq<SourceItemView> },
    ExternBlock { abi_tag: Option<Seq<char>>, declarations: Seq<DeclarationView> },
    Other,
}

impl DeepView for Literal {
    type V = LiteralView;

    open spec fn deep_view(&self) -> LiteralView {
        match self {
            Literal::Str(text) => LiteralView::Str(text@),
            Literal::Other => LiteralView::Other,
        }
    }
}

impl DeepView for Meta {
    type V = MetaView;

    open spec fn deep_view(&self) -> MetaView {
        match self {
            Meta::Path => MetaView::Path,
            Meta::List => MetaView::List,
            Meta::NameValue(literal) => MetaView::NameValue(literal.deep_view()),
        }
    }
}

impl DeepView for Attr {
    type V = AttrView;

    open spec fn deep_view(&self) -> AttrView {
        AttrView {
            path: self.path.deep_view(),
            meta: match self.meta {
                Ok(meta) => Ok(meta.deep_view()),
                Err(failure) => Err(failure.message@),
            },
        }
    }
}

impl DeepView for ForeignFunctionDecl {
    type V = ForeignFunctionDeclView;

    open spec fn deep_view(&self) -> ForeignFunctionDeclView {
        ForeignFunctionDeclView {
            identifier: self.identifier@,
            attributes: self.attributes.deep_view(),
        }
    }
}

impl DeepView for Declaration {
    type V = DeclarationView;

    open spec fn deep_view(&self) -> DeclarationView {
        match self {
            Declaration::Function(decl) => DeclarationView::Function(decl.deep_view()),
            Declaration::Other => DeclarationView::Other,
        }
    }
}

/// The mathematical value of an item: the same tree over sequences.
pub open spec fn item_view(item: SourceItem) -> SourceItemView
    decreases item,
{
    match item {
        SourceItem::Module { items } => SourceItemView::Module {
            items: Seq::new(
                items.len() as nat,
                |i: int|
                    if 0 <= i < items.len() {
                        item_view(items[i])
                    } else {
                        SourceItemView::Other
                    },
            ),
        },
        SourceItem::ExternBlock { abi_tag, declarations } => SourceItemView::ExternBlock {
            abi_tag: abi_tag.deep_view(),
            declarations: declarations.deep_view(),
        },
        SourceItem::Other => SourceItemView::Other,
    }
}

impl DeepView for SourceItem {
    type V = SourceItemView;

    open spec fn deep_view(&self) -> SourceItemView {
        item_view(*self)
    }
}

/// The view of a module is made of the views of its items.
pub proof fn lemma_module_view(items: Vec<SourceItem>)
    ensures
        (SourceItem::Module { items }).deep_view() == (SourceItemView::Module {
            items: items.deep_view(),
        }),
{
    assert(item_view(SourceItem::Module { items })->items =~= items.deep_view());
}

} // verus!
