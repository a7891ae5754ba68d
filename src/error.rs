//! The failures of parsing and pasting, with the locations they concern.

use vstd::prelude::*;
use crate::token::Span;

verus! {

/// What went wrong.
#[derive(Clone, Copy, Debug, PartialEq, Eq, Structural)]
pub enum ErrorKind {
    /// `env!` followed by something other than a parenthesized group.
    ExpectedParen,
    /// `env!` at the end of the input.
    ExpectedParenAfterEnv,
    /// Where a string literal was required.
    ExpectedStringLiteral,
    /// `env!()` with nothing inside.
    ExpectedEnvArgument,
    /// More than the one literal inside `env!(...)`.
    UnexpectedTokenInEnv,
    /// A `:` not followed by an identifier.
    ExpectedIdentAfterColon,
    /// `:replace` not followed by a parenthesized group.
    ExpectedParenAfterReplace,
    /// A punctuation character that has no meaning here.
    UnexpectedPunct,
    /// A bracketed group, or a token left over in a transparent group.
    UnexpectedToken,
    /// Transparent groups nested beyond the depth limit.
    NestingTooDeep,
    /// A `#` anywhere but first.
    MisplacedRawMarker,
    /// A second lifetime marker.
    UnexpectedLifetime,
    /// An environment variable that is not defined.
    NoSuchEnvVar,
    /// A modifier with no value before it.
    UnexpectedModifier,
    /// A modifier name that is not known.
    UnsupportedModifier,
    /// More than three tokens in the arguments of a replace.
    ExpectedCloseParen,
    /// Replace arguments not of the form `from, to`.
    ExpectedReplaceFormat,
    /// A replace with no value before it.
    ReplaceNeedsValue,
    /// A replace argument that is neither an identifier nor a literal.
    ExpectedIdentOrLiteral,
}

/// A failure, located at one token or between two; `name` is the variable
/// that an environment lookup did not find, and empty for other failures.
#[derive(Clone, Debug, PartialEq, Eq)]
pub struct PasteError {
    pub kind: ErrorKind,
    pub span: Span,
    pub end: Option<Span>,
    pub name: String,
}

/// A failure, with the variable's name as characters.
pub struct ErrorView {
    pub kind: ErrorKind,
    pub span: Span,
    pub end: Option<Span>,
    pub name: Seq<char>,
}

impl View for PasteError {
    type V = ErrorView;

    open spec fn view(&self) -> ErrorView {
        ErrorView { kind: self.kind, span: self.span, end: self.end, name: self.name@ }
    }
}

/// A failure at one location.
pub open spec fn at(kind: ErrorKind, span: Span) -> ErrorView {
    ErrorView { kind, span, end: None, name: Seq::empty() }
}

/// A failure that runs from one location to another.
pub open spec fn between(kind: ErrorKind, span: Span, end: Span) -> ErrorView {
    ErrorView { kind, span, end: Some(end), name: Seq::empty() }
}

/// An environment variable called `name`, read at `span`, is not defined.
pub open spec fn missing_var(span: Span, name: Seq<char>) -> ErrorView {
    ErrorView { kind: ErrorKind::NoSuchEnvVar, span, end: None, name }
}

/// The full text of a failure: the text of its kind, followed for an
/// undefined variable by `: ` and the variable's name.
pub open spec fn error_message(e: ErrorView) -> Seq<char> {
    if e.kind == ErrorKind::NoSuchEnvVar {
        message_of(e.kind) + ": "@ + e.name
    } else {
        message_of(e.kind)
    }
}

impl PasteError {
    /// A failure at one location.
    pub fn at(kind: ErrorKind, span: Span) -> (r: PasteError)
        ensures
            r@ == at(kind, span),
    {
        PasteError { kind, span, end: None, name: String::new() }
    }

    /// A failure that runs from one location to another.
    pub fn between(kind: ErrorKind, span: Span, end: Span) -> (r: PasteError)
        ensures
            r@ == between(kind, span, end),
    {
        PasteError { kind, span, end: Some(end), name: String::new() }
    }

    /// An environment variable called `name`, read at `span`, is not defined.
    pub fn missing_var(span: Span, name: String) -> (r: PasteError)
        ensures
            r@ == missing_var(span, name@),
    {
        PasteError { kind: ErrorKind::NoSuchEnvVar, span, end: None, name }
    }

    /// The human-readable text of this failure.
    pub fn message(&self) -> (r: String)
        ensures
            r@ == error_message(self@),
    {
        let mut r = String::from_str(self.kind.message());
        if self.kind == ErrorKind::NoSuchEnvVar {
            r.append(": ");
            r.append(self.name.as_str());
        }
        r
    }
}

/// The human-readable text of each kind of failure.
pub open spec fn message_of(kind: ErrorKind) -> Seq<char> {
    match kind {
            ErrorKind::ExpectedParen => "expected `(`"@,
            ErrorKind::ExpectedParenAfterEnv => "expected `(` after `env!`"@,
            ErrorKind::ExpectedStringLiteral => "expected string literal"@,
            ErrorKind::ExpectedEnvArgument => "expected string literal as argument to env! macro"@,
            ErrorKind::UnexpectedTokenInEnv => "unexpected token in env! macro"@,
            ErrorKind::ExpectedIdentAfterColon => "expected identifier after `:`"@,
            ErrorKind::ExpectedParenAfterReplace => "expected `(` after replace modifier"@,
            ErrorKind::UnexpectedPunct => "unexpected punct"@,
            ErrorKind::UnexpectedToken => "unexpected token"@,
            ErrorKind::NestingTooDeep => "transparent groups nested too deeply"@,
            ErrorKind::MisplacedRawMarker => "`#` is reserved keyword and it enables the raw mode (i.e. generate Raw Identifiers) and it is only allowed in the beginning like `[< # ... >]`"@,
            ErrorKind::UnexpectedLifetime => "unexpected lifetime"@,
            ErrorKind::NoSuchEnvVar => "no such env var"@,
            ErrorKind::UnexpectedModifier => "unexpected modifier"@,
            ErrorKind::UnsupportedModifier => "unsupported modifier"@,
            ErrorKind::ExpectedCloseParen => "expected `)`"@,
            ErrorKind::ExpectedReplaceFormat => "expected replace modifier format: `:replace(\"from\", \"to\")`"@,
            ErrorKind::ReplaceNeedsValue => "replace modifier requires a preceding value to operate on."@,
            ErrorKind::ExpectedIdentOrLiteral => "Expected either Ident, or Literal."@,
    }
}

impl ErrorKind {
    /// The human-readable text of this kind of failure.
    pub fn message(&self) -> (r: &'static str)
        ensures
            r@ == message_of(*self),
    {
        match self {
            ErrorKind::ExpectedParen => "expected `(`",
            ErrorKind::ExpectedParenAfterEnv => "expected `(` after `env!`",
            ErrorKind::ExpectedStringLiteral => "expected string literal",
            ErrorKind::ExpectedEnvArgument => "expected string literal as argument to env! macro",
            ErrorKind::UnexpectedTokenInEnv => "unexpected token in env! macro",
            ErrorKind::ExpectedIdentAfterColon => "expected identifier after `:`",
            ErrorKind::ExpectedParenAfterReplace => "expected `(` after replace modifier",
            ErrorKind::UnexpectedPunct => "unexpected punct",
            ErrorKind::UnexpectedToken => "unexpected token",
            ErrorKind::NestingTooDeep => "transparent groups nested too deeply",
            ErrorKind::MisplacedRawMarker => "`#` is reserved keyword and it enables the raw mode (i.e. generate Raw Identifiers) and it is only allowed in the beginning like `[< # ... >]`",
            ErrorKind::UnexpectedLifetime => "unexpected lifetime",
            ErrorKind::NoSuchEnvVar => "no such env var",
            ErrorKind::UnexpectedModifier => "unexpected modifier",
            ErrorKind::UnsupportedModifier => "unsupported modifier",
            ErrorKind::ExpectedCloseParen => "expected `)`",
            ErrorKind::ExpectedReplaceFormat => "expected replace modifier format: `:replace(\"from\", \"to\")`",
            ErrorKind::ReplaceNeedsValue => "replace modifier requires a preceding value to operate on.",
            ErrorKind::ExpectedIdentOrLiteral => "Expected either Ident, or Literal.",
        }
    }
}

} // verus!
