//! The name under which the linker sees a declared foreign function.

use vstd::prelude::*;
use crate::style::LinkerArgStyle;

verus! {

/// A symbol name as the linker of the given family will produce it.
///
/// Microsoft's linker adds the leading decoration character itself, so a name
/// that already carries one in front of the mangling marker `?` loses its
/// first character. Every other name is used as written.
pub open spec fn linker_format(symbol: Seq<char>, style: LinkerArgStyle) -> Seq<char> {
    if style == LinkerArgStyle::Msvc && symbol.len() >= 2 && symbol[1] == '?' {
        symbol.drop_first()
    } else {
        symbol
    }
}

/// The name a declaration is linked under before any decoration is corrected:
/// its rename annotation if it has a non-empty one, its identifier otherwise.
pub open spec fn base_name(identifier: Seq<char>, override_name: Option<Seq<char>>) -> Seq<char> {
    match override_name {
        Some(name) => if name.len() > 0 {
            name
        } else {
            identifier
        },
        None => identifier,
    }
}

/// The symbol that a directive for a declaration names.
pub open spec fn resolved_symbol(
    identifier: Seq<char>,
    override_name: Option<Seq<char>>,
    style: LinkerArgStyle,
) -> Seq<char> {
    linker_format(base_name(identifier, override_name), style)
}

/// Corrects a symbol name for the decoration that the linker of the given
/// family applies on its own.
pub fn convert_symbol_to_linker_format(s: &str, style: LinkerArgStyle) -> (converted: &str)
    ensures
        converted@ == linker_format(s@, style),
{
    match style {
        LinkerArgStyle::Msvc => {
            let length: usize = s.unicode_len();
            if length >= 2 && s.get_char(1) == '?' {
                s.substring_char(1, length)
            } else {
                s
            }
        },
        _ => s,
    }
}

/// Resolves the symbol of a declaration from its identifier and its rename
/// annotation, if it has one.
pub fn resolve_symbol<'a>(
    identifier: &'a str,
    override_name: Option<&'a str>,
    style: LinkerArgStyle,
) -> (symbol: &'a str)
    ensures
        symbol@ == resolved_symbol(identifier@, override_name.deep_view(), style),
{
    let base: &str = match override_name {
        Some(name) => if name.is_empty() {
            identifier
        } else {
            name
        },
        None => identifier,
    };
    convert_symbol_to_linker_format(base, style)
}

} // verus!
