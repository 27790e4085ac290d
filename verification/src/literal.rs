//! The literal tokens that the parser can read.
//!
//! The lexer knows more kinds of literal than the parser does: C string
//! literals, and the mark that the compiler prints where an expansion failed.
//! The parser does not return on those, so a text is searched for them before
//! it is parsed.

use vstd::prelude::*;

verus! {

/// Whether a character is a decimal digit.
pub open spec fn is_digit(c: char) -> bool {
    '0' <= c && c <= '9'
}

/// Whether the parser can read a literal token: the token is a string or a
/// raw string, a character, a number, or a byte string or byte, which it is
/// told to be by its first characters.
pub open spec fn is_readable_literal(token: Seq<char>) -> bool {
    token.len() > 0 && (token[0] == '"' || token[0] == 'r' || token[0] == '\'' || is_digit(
        token[0],
    ) || (token[0] == 'b' && token.len() > 1 && (token[1] == '"' || token[1] == 'r' || token[1]
        == '\'')))
}

/// The first of `tokens` that the parser cannot read, if there is one.
pub open spec fn first_unreadable(tokens: Seq<Seq<char>>) -> Option<Seq<char>>
    decreases tokens.len(),
{
    if tokens.len() == 0 {
        None
    } else if !is_readable_literal(tokens[0]) {
        Some(tokens[0])
    } else {
        first_unreadable(tokens.drop_first())
    }
}

/// The first literal of a text that the parser cannot read. A text that the
/// lexer rejects has none: the parser reports it as an error.
pub open spec fn unreadable_literal(literals: Option<Seq<Seq<char>>>) -> Option<Seq<char>> {
    match literals {
        Some(tokens) => first_unreadable(tokens),
        None => None,
    }
}

/// Tells whether the parser can read a literal token.
pub fn readable_literal(token: &str) -> (readable: bool)
    ensures
        readable == is_readable_literal(token@),
{
    let length: usize = token.unicode_len();
    if length == 0 {
        return false;
    }
    let first = token.get_char(0);
    if first == '"' || first == 'r' || first == '\'' || ('0' <= first && first <= '9') {
        true
    } else if first == 'b' && length > 1 {
        let second = token.get_char(1);
        second == '"' || second == 'r' || second == '\''
    } else {
        false
    }
}

/// Finds the first of `tokens` that the parser cannot read.
pub fn find_unreadable(tokens: &Vec<String>) -> (found: Option<String>)
    ensures
        found.deep_view() == first_unreadable(tokens.deep_view()),
{
    let ghost all = tokens.deep_view();
    let mut i: usize = 0;
    assert(all.skip(0) =~= all);
    while i < tokens.len()
        invariant
            i <= tokens.len(),
            all == tokens.deep_view(),
            first_unreadable(all) == first_unreadable(all.skip(i as int)),
        decreases tokens.len() - i,
    {
        let ghost rest = all.skip(i as int);
        assert(rest[0] == tokens[i as int]@);
        if !readable_literal(tokens[i].as_str()) {
            return Some(tokens[i].clone());
        }
        assert(rest.drop_first() =~= all.skip(i as int + 1));
        i += 1;
    }
    None
}

} // verus!
