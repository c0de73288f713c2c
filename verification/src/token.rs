//! The parser's input: one token of the lexer's output, carried as plain values
//! (its kind in `SyntaxKind` terms, its exact source text, and its byte span).

use crate::syntax_kind::SyntaxKind;
use vstd::prelude::*;

verus! {

/// A half-open byte range `[lo, hi)` of the source.
#[derive(Debug, Clone, Copy, PartialEq, Eq, Structural)]
pub struct Span {
    pub lo: usize,
    pub hi: usize,
}

/// One token of the lexer's output: its kind (always a token kind; `Eof` marks
/// the end of input), the exact text it covers, and its span.
#[derive(Debug)]
pub struct Token {
    pub kind: SyntaxKind,
    pub text: String,
    pub span: Span,
}

impl Token {
    pub fn new(kind: SyntaxKind, text: String, span: Span) -> (r: Token)
        ensures
            r.kind == kind,
            r.text == text,
            r.span == span,
    {
        Token { kind, text, span }
    }
}

} // verus!
