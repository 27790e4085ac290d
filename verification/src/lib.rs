//! Forces a link failure when a foreign-ABI function that a library declares is
//! missing from the final binary.
//!
//! The crate walks the fully expanded source of a project, finds every function
//! declared in an `extern "C"` block, works out the symbol name the linker will
//! see, and produces one linker directive per symbol in the syntax of the
//! target's linker family.
//!
//! - [`style`] assigns a target to a linker family.
//! - [`tree`] holds the expanded source as discovery reads it, and [`source`]
//!   parses text into it.
//! - [`walker`] visits the items of a tree, and [`extractor`] is the visitor
//!   that finds the foreign functions.
//! - [`annotation`] and [`symbol`] resolve the symbol of a declaration, and
//!   [`directive`] writes the directive that requires it.
//! - [`pipeline`] runs all of it as a state machine whose caller does the
//!   work that touches the outside world.
//! - [`laws`] states what holds of the whole.

pub mod annotation;
pub mod directive;
pub mod extractor;
pub mod laws;
pub mod literal;
pub mod pipeline;
pub mod source;
pub mod style;
pub mod symbol;
pub mod syntax;
pub mod text;
pub mod tree;
pub mod walker;
