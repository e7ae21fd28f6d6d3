//! A plain model of lexical tokens: what the visibility rewrite reads.
use vstd::prelude::*;

verus! {

/// The kind of bracket that encloses a group.
#[derive(Clone, Copy, Debug, PartialEq, Eq, Structural)]
pub enum Delimiter {
    /// `( ... )`
    Parenthesis,
    /// `{ ... }`
    Brace,
    /// `[ ... ]`
    Bracket,
    /// A group with no visible delimiters (what proc-macro crates call `None`).
    Invisible,
}

/// Whether a punctuation character is followed directly by another one.
#[derive(Clone, Copy, Debug, PartialEq, Eq, Structural)]
pub enum Spacing {
    Alone,
    Joint,
}

/// One lexical token; a group holds the tokens between its delimiters.
#[derive(Debug, PartialEq, Eq)]
pub enum TokenTree {
    Group(Delimiter, Vec<TokenTree>),
    Ident(String),
    Punct(char, Spacing),
    Literal(String),
}

/// The identifier that opens a visibility qualifier.
pub open spec fn is_pub_keyword(t: TokenTree) -> bool {
    t matches TokenTree::Ident(text) && text@ == "pub"@
}

/// A group delimited by parentheses, whatever it holds.
pub open spec fn is_paren_group(t: TokenTree) -> bool {
    t matches TokenTree::Group(d, _) && d == Delimiter::Parenthesis
}

} // verus!
