//! The tokens that a code-generation host hands over.

use vstd::prelude::*;

verus! {

/// A source location, as byte offsets into the host's input.
#[derive(Clone, Copy, Debug, PartialEq, Eq, Structural)]
pub struct Span {
    pub lo: u32,
    pub hi: u32,
}

/// How a group of tokens is bracketed.
#[derive(Clone, Copy, Debug, PartialEq, Eq, Structural)]
pub enum Delimiter {
    Parenthesis,
    Brace,
    Bracket,
    /// No visible bracket: the group only structures the input.
    Transparent,
}

/// One lexical token, or a delimited group of them.
#[derive(Debug)]
pub enum Token {
    Ident { text: String, span: Span },
    Literal { text: String, span: Span },
    Punct { ch: char, span: Span },
    Group { delimiter: Delimiter, stream: Vec<Token>, span: Span },
}

/// Where a token stands in the source.
pub open spec fn token_span(t: Token) -> Span {
    match t {
        Token::Ident { span, .. } => span,
        Token::Literal { span, .. } => span,
        Token::Punct { span, .. } => span,
        Token::Group { span, .. } => span,
    }
}

/// Whether `t` is the punctuation character `c`.
pub open spec fn is_punct(t: Token, c: char) -> bool {
    match t {
        Token::Punct { ch, .. } => ch == c,
        _ => false,
    }
}

impl Token {
    /// Where this token stands in the source.
    pub fn span(&self) -> (r: Span)
        ensures
            r == token_span(*self),
    {
        match self {
            Token::Ident { span, .. } => *span,
            Token::Literal { span, .. } => *span,
            Token::Punct { span, .. } => *span,
            Token::Group { span, .. } => *span,
        }
    }

    /// Whether this token is the punctuation character `c`.
    pub fn is_punct(&self, c: char) -> (r: bool)
        ensures
            r == is_punct(*self, c),
    {
        match self {
            Token::Punct { ch, .. } => *ch == c,
            _ => false,
        }
    }
}

} // verus!
