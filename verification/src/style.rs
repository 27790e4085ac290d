//! The linker families this crate can write directives for, and how a target
//! is assigned to one of them.

use vstd::prelude::*;
use crate::text::is_text;

verus! {

/// The argument syntax of a linker family.
#[derive(Copy, Clone, Debug, PartialEq, Eq, Structural)]
pub enum LinkerArgStyle {
    /// GNU ld and compatible linkers.
    Gcc,
    /// The BSD linker, as used on Apple platforms.
    BsdLd,
    /// Microsoft's `link.exe`.
    Msvc,
}

/// The linker family of a target, given its vendor and its ABI environment.
///
/// An Apple vendor decides alone; otherwise the environment does, and a target
/// that names neither a known vendor nor a known environment gets the BSD
/// syntax.
pub open spec fn style_of_target(
    vendor: Option<Seq<char>>,
    abi_environment: Option<Seq<char>>,
) -> LinkerArgStyle {
    if vendor == Some("apple"@) {
        LinkerArgStyle::BsdLd
    } else if abi_environment == Some("msvc"@) {
        LinkerArgStyle::Msvc
    } else if abi_environment == Some("gnu"@) {
        LinkerArgStyle::Gcc
    } else {
        LinkerArgStyle::BsdLd
    }
}

impl LinkerArgStyle {
    /// Picks the linker family for a target from its vendor and ABI
    /// environment, either of which may be unknown.
    pub fn detect(vendor: Option<&str>, abi_environment: Option<&str>) -> (style: LinkerArgStyle)
        ensures
            style == style_of_target(vendor.deep_view(), abi_environment.deep_view()),
    {
        if is_text(vendor, "apple") {
            LinkerArgStyle::BsdLd
        } else if is_text(abi_environment, "msvc") {
            LinkerArgStyle::Msvc
        } else if is_text(abi_environment, "gnu") {
            LinkerArgStyle::Gcc
        } else {
            LinkerArgStyle::BsdLd
        }
    }
}

} // verus!
