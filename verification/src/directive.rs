//! The text of a linker directive that requires a symbol to be defined.

use vstd::prelude::*;
use crate::style::LinkerArgStyle;

verus! {

/// The directive that makes a linker of the given family fail unless `symbol`
/// is defined.
pub open spec fn directive_text(symbol: Seq<char>, style: LinkerArgStyle) -> Seq<char> {
    match style {
        LinkerArgStyle::Gcc => "--require-defined="@ + symbol,
        LinkerArgStyle::BsdLd => "-u _"@ + symbol,
        LinkerArgStyle::Msvc => "/INCLUDE:\""@ + symbol + "\""@,
    }
}

/// The lines that a symbol adds to a directive set: one directive, or nothing
/// for the empty symbol.
pub open spec fn directive_lines(symbol: Seq<char>, style: LinkerArgStyle) -> Seq<Seq<char>> {
    if symbol.len() == 0 {
        Seq::empty()
    } else {
        seq![directive_text(symbol, style)]
    }
}

/// Writes the directive for a symbol, or `None` for the empty symbol, which
/// names nothing to require.
pub fn directive(symbol: &str, style: LinkerArgStyle) -> (line: Option<String>)
    ensures
        line.deep_view() == if symbol@.len() == 0 {
            None
        } else {
            Some(directive_text(symbol@, style))
        },
{
    if symbol.is_empty() {
        return None;
    }
    let line = match style {
        LinkerArgStyle::Gcc => String::from_str("--require-defined=").concat(symbol),
        LinkerArgStyle::BsdLd => String::from_str("-u _").concat(symbol),
        LinkerArgStyle::Msvc => String::from_str("/INCLUDE:\"").concat(symbol).concat("\""),
    };
    Some(line)
}

/// Adds the directive for symbol `s` to the end of `out`. The empty symbol
/// adds nothing.
pub fn strict_link_symbol(out: &mut Vec<String>, s: &str, style: LinkerArgStyle)
    ensures
        final(out).deep_view() == old(out).deep_view() + directive_lines(s@, style),
{
    match directive(s, style) {
        Some(line) => {
            out.push(line);
            assert(out.deep_view() =~= old(out).deep_view() + directive_lines(s@, style));
        },
        None => {
            assert(out.deep_view() =~= old(out).deep_view() + directive_lines(s@, style));
        },
    }
}

/// The instruction that makes the build pass a file of directives to the
/// linker as a response file. Microsoft's linker is handed the file as it is;
/// for the others the argument goes through the compiler driver.
pub open spec fn response_file_argument_text(path: Seq<char>, style: LinkerArgStyle) -> Seq<char> {
    match style {
        LinkerArgStyle::Msvc => "cargo:rustc-link-arg=@"@ + path,
        _ => "cargo:rustc-link-arg=-Wl,@"@ + path,
    }
}

/// Writes the instruction that passes the file at `path` to the linker as a
/// response file.
pub fn response_file_argument(path: &str, style: LinkerArgStyle) -> (instruction: String)
    ensures
        instruction@ == response_file_argument_text(path@, style),
{
    match style {
        LinkerArgStyle::Msvc => String::from_str("cargo:rustc-link-arg=@").concat(path),
        _ => String::from_str("cargo:rustc-link-arg=-Wl,@").concat(path),
    }
}

} // verus!
