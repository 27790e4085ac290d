//! The types of `syn` and `proc_macro2` that pass through this crate
//! unopened.

use vstd::prelude::*;

verus! {

/// `syn::Item`, an item of a parsed file. Nothing is known of its content.
#[verifier::external_type_specification]
#[verifier::external_body]
pub struct ExSynItem(syn::Item);

/// `syn::ForeignItem`, a declaration inside a parsed `extern` block. Nothing
/// is known of its content.
#[verifier::external_type_specification]
#[verifier::external_body]
pub struct ExSynForeignItem(syn::ForeignItem);

/// `syn::Attribute`, a parsed attribute. Nothing is known of its content.
#[verifier::external_type_specification]
#[verifier::external_body]
pub struct ExSynAttribute(syn::Attribute);

/// `proc_macro2::TokenStream`, a sequence of lexed tokens. Nothing is known of
/// its content.
#[verifier::external_type_specification]
#[verifier::external_body]
pub struct ExTokenStream(proc_macro2::TokenStream);

} // verus!
