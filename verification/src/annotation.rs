//! The rename annotation of a declaration: the `link_name` attribute that
//! gives a foreign function a symbol other than its identifier.

use vstd::prelude::*;
use crate::text::same_text;
use crate::tree::{
    AnnotationParseFailure, Attr, AttrView, ForeignFunctionDecl, Literal, LiteralView, Meta,
    MetaView,
};

verus! {

/// Whether an attribute is a rename annotation: its path is the single
/// segment `link_name`.
pub open spec fn is_rename_annotation(attribute: AttrView) -> bool {
    attribute.path.len() == 1 && attribute.path[0] == "link_name"@
}

/// The rename annotation among the attributes of a declaration: the first
/// attribute that is one. Later ones are not looked at.
pub open spec fn rename_annotation(attributes: Seq<AttrView>) -> Option<AttrView>
    decreases attributes.len(),
{
    if attributes.len() == 0 {
        None
    } else if is_rename_annotation(attributes[0]) {
        Some(attributes[0])
    } else {
        rename_annotation(attributes.drop_first())
    }
}

/// The name that the attributes of a declaration give it: the text of its
/// rename annotation, where that is `link_name = "..."` with a string literal.
/// An annotation of any other form, or one that is not well formed, names
/// nothing.
pub open spec fn override_name(attributes: Seq<AttrView>) -> Option<Seq<char>> {
    match rename_annotation(attributes) {
        Some(annotation) => match annotation.meta {
            Ok(MetaView::NameValue(LiteralView::Str(name))) => Some(name),
            _ => None,
        },
        None => None,
    }
}

/// Why the rename annotation of a declaration could not be read, if it has
/// one and that is the case.
pub open spec fn rename_failure(attributes: Seq<AttrView>) -> Option<Seq<char>> {
    match rename_annotation(attributes) {
        Some(annotation) => match annotation.meta {
            Err(message) => Some(message),
            Ok(_) => None,
        },
        None => None,
    }
}

impl Attr {
    /// Whether this attribute is a rename annotation.
    pub fn is_rename_annotation(&self) -> (is: bool)
        ensures
            is == is_rename_annotation(self.deep_view()),
    {
        self.path.len() == 1 && same_text(self.path[0].as_str(), "link_name")
    }
}

impl ForeignFunctionDecl {
    /// The rename annotation of this declaration, if it has one.
    pub fn rename_annotation(&self) -> (found: Option<&Attr>)
        ensures
            found.deep_view() == rename_annotation(self.deep_view().attributes),
    {
        let ghost attributes = self.deep_view().attributes;
        let mut i: usize = 0;
        assert(attributes.skip(0) =~= attributes);
        while i < self.attributes.len()
            invariant
                i <= self.attributes.len(),
                attributes == self.attributes.deep_view(),
                rename_annotation(attributes) == rename_annotation(attributes.skip(i as int)),
            decreases self.attributes.len() - i,
        {
            let ghost rest = attributes.skip(i as int);
            assert(rest[0] == self.attributes[i as int].deep_view());
            if self.attributes[i].is_rename_annotation() {
                return Some(&self.attributes[i]);
            }
            assert(rest.drop_first() =~= attributes.skip(i as int + 1));
            i += 1;
        }
        None
    }

    /// The name that this declaration's rename annotation gives it, if any.
    pub fn override_name(&self) -> (name: Option<&str>)
        ensures
            name.deep_view() == override_name(self.deep_view().attributes),
    {
        match self.rename_annotation() {
            Some(annotation) => match &annotation.meta {
                Ok(Meta::NameValue(Literal::Str(name))) => Some(name.as_str()),
                _ => None,
            },
            None => None,
        }
    }

    /// Why this declaration's rename annotation could not be read, if it has
    /// one and that is the case.
    pub fn rename_failure(&self) -> (failure: Option<&AnnotationParseFailure>)
        ensures
            match failure {
                Some(f) => rename_failure(self.deep_view().attributes) == Some(f.message@),
                None => rename_failure(self.deep_view().attributes) is None,
            },
    {
        match self.rename_annotation() {
            Some(annotation) => match &annotation.meta {
                Err(failure) => Some(failure),
                Ok(_) => None,
            },
            None => None,
        }
    }
}

} // verus!
