//! Parse-stage diagnostics. A `ParseError` is a message plus the byte span it
//! refers to. The parser is total: it collects these in `ParseResult::errors`
//! and never fails or panics.

use crate::token::Span;
use vstd::prelude::*;

verus! {

/// A single parse diagnostic: what went wrong and where.
#[derive(Debug, Clone, PartialEq)]
pub struct ParseError {
    pub message: String,
    pub span: Span,
}

impl ParseError {
    pub fn new(message: String, span: Span) -> (r: ParseError)
        ensures
            r.message@ == message@,
            r.span == span,
    {
        ParseError { message, span }
    }
}

} // verus!
