//! The lexer's token classification, and the single bridge from it into
//! `SyntaxKind`: every lexer kind maps to exactly one token kind, and a kind
//! is trivia on one side exactly when it is on the other.

use crate::syntax_kind::{is_token_kind, is_trivia_kind, label_of, SyntaxKind};
use vstd::prelude::*;

verus! {

/// A keyword, as the lexer classifies it.
#[derive(Debug, Clone, Copy, PartialEq, Eq, Structural)]
pub enum Keyword {
    Val,
    Var,
    Fn,
    Struct,
    Enum,
    Trait,
    Impl,
    Let,
    Inout,
    Sink,
    Match,
    If,
    Else,
    Loop,
    Break,
    Continue,
    Return,
    Try,
    Catch,
    Errdefer,
    Error,
    Panic,
    Mod,
    Use,
    Pub,
    Scope,
    Spawn,
    True,
    False,
    SelfValue,
    SelfType,
    As,
    In,
    Is,
    Subscript,
    Yield,
    Super,
    Crate,
}

/// A punctuation token, as the lexer classifies it.
#[derive(Debug, Clone, Copy, PartialEq, Eq, Structural)]
pub enum Punct {
    LParen,
    RParen,
    LBracket,
    RBracket,
    LBrace,
    RBrace,
    Comma,
    Semicolon,
    Colon,
    ColonColon,
    Arrow,
    FatArrow,
    Dot,
    DotDot,
    DotDotEq,
    Plus,
    Minus,
    Star,
    Slash,
    Percent,
    Amp,
    AmpAmp,
    Pipe,
    PipePipe,
    Caret,
    Shl,
    Shr,
    Bang,
    Eq,
    EqEq,
    Ne,
    Lt,
    Le,
    Gt,
    Ge,
    PlusEq,
    MinusEq,
    StarEq,
    SlashEq,
    PercentEq,
    Question,
}

/// The lexer's classification of a token. Literal kinds stand without their
/// values, which the bridge does not read.
#[derive(Debug, Clone, Copy, PartialEq, Eq, Structural)]
pub enum TokenKind {
    Whitespace,
    Newline,
    LineComment,
    DocComment,
    BlockComment,
    IntLit,
    FloatLit,
    ByteLit,
    StrLit,
    Ident,
    Label,
    Keyword(Keyword),
    Punct(Punct),
    Unknown,
    Eof,
}

/// The lexer's trivia: whitespace, newlines and comments.
pub open spec fn is_lexer_trivia(k: TokenKind) -> bool {
    match k {
        TokenKind::Whitespace
        | TokenKind::Newline
        | TokenKind::LineComment
        | TokenKind::DocComment
        | TokenKind::BlockComment => true,
        _ => false,
    }
}

impl TokenKind {
    /// Whether the lexer counts this kind as trivia.
    pub fn is_trivia(&self) -> (r: bool)
        ensures
            r == is_lexer_trivia(*self),
    {
        match self {
            TokenKind::Whitespace
            | TokenKind::Newline
            | TokenKind::LineComment
            | TokenKind::DocComment
            | TokenKind::BlockComment => true,
            _ => false,
        }
    }
}

/// The token kind of a keyword.
pub open spec fn keyword_syntax_kind(kw: Keyword) -> SyntaxKind {
    match kw {
        Keyword::Val => SyntaxKind::KwVal,
        Keyword::Var => SyntaxKind::KwVar,
        Keyword::Fn => SyntaxKind::KwFn,
        Keyword::Struct => SyntaxKind::KwStruct,
        Keyword::Enum => SyntaxKind::KwEnum,
        Keyword::Trait => SyntaxKind::KwTrait,
        Keyword::Impl => SyntaxKind::KwImpl,
        Keyword::Let => SyntaxKind::KwLet,
        Keyword::Inout => SyntaxKind::KwInout,
        Keyword::Sink => SyntaxKind::KwSink,
        Keyword::Match => SyntaxKind::KwMatch,
        Keyword::If => SyntaxKind::KwIf,
        Keyword::Else => SyntaxKind::KwElse,
        Keyword::Loop => SyntaxKind::KwLoop,
        Keyword::Break => SyntaxKind::KwBreak,
        Keyword::Continue => SyntaxKind::KwContinue,
        Keyword::Return => SyntaxKind::KwReturn,
        Keyword::Try => SyntaxKind::KwTry,
        Keyword::Catch => SyntaxKind::KwCatch,
        Keyword::Errdefer => SyntaxKind::KwErrdefer,
        Keyword::Error => SyntaxKind::KwError,
        Keyword::Panic => SyntaxKind::KwPanic,
        Keyword::Mod => SyntaxKind::KwMod,
        Keyword::Use => SyntaxKind::KwUse,
        Keyword::Pub => SyntaxKind::KwPub,
        Keyword::Scope => SyntaxKind::KwScope,
        Keyword::Spawn => SyntaxKind::KwSpawn,
        Keyword::True => SyntaxKind::KwTrue,
        Keyword::False => SyntaxKind::KwFalse,
        Keyword::SelfValue => SyntaxKind::KwSelf,
        Keyword::SelfType => SyntaxKind::KwSelfType,
        Keyword::As => SyntaxKind::KwAs,
        Keyword::In => SyntaxKind::KwIn,
        Keyword::Is => SyntaxKind::KwIs,
        Keyword::Subscript => SyntaxKind::KwSubscript,
        Keyword::Yield => SyntaxKind::KwYield,
        Keyword::Super => SyntaxKind::KwSuper,
        Keyword::Crate => SyntaxKind::KwCrate,
    }
}

/// The token kind of a punctuation token.
pub open spec fn punct_syntax_kind(p: Punct) -> SyntaxKind {
    match p {
        Punct::LParen => SyntaxKind::LParen,
        Punct::RParen => SyntaxKind::RParen,
        Punct::LBracket => SyntaxKind::LBracket,
        Punct::RBracket => SyntaxKind::RBracket,
        Punct::LBrace => SyntaxKind::LBrace,
        Punct::RBrace => SyntaxKind::RBrace,
        Punct::Comma => SyntaxKind::Comma,
        Punct::Semicolon => SyntaxKind::Semicolon,
        Punct::Colon => SyntaxKind::Colon,
        Punct::ColonColon => SyntaxKind::ColonColon,
        Punct::Arrow => SyntaxKind::Arrow,
        Punct::FatArrow => SyntaxKind::FatArrow,
        Punct::Dot => SyntaxKind::Dot,
        Punct::DotDot => SyntaxKind::DotDot,
        Punct::DotDotEq => SyntaxKind::DotDotEq,
        Punct::Plus => SyntaxKind::Plus,
        Punct::Minus => SyntaxKind::Minus,
        Punct::Star => SyntaxKind::Star,
        Punct::Slash => SyntaxKind::Slash,
        Punct::Percent => SyntaxKind::Percent,
        Punct::Amp => SyntaxKind::Amp,
        Punct::AmpAmp => SyntaxKind::AmpAmp,
        Punct::Pipe => SyntaxKind::Pipe,
        Punct::PipePipe => SyntaxKind::PipePipe,
        Punct::Caret => SyntaxKind::Caret,
        Punct::Shl => SyntaxKind::Shl,
        Punct::Shr => SyntaxKind::Shr,
        Punct::Bang => SyntaxKind::Bang,
        Punct::Eq => SyntaxKind::Eq,
        Punct::EqEq => SyntaxKind::EqEq,
        Punct::Ne => SyntaxKind::Ne,
        Punct::Lt => SyntaxKind::Lt,
        Punct::Le => SyntaxKind::Le,
        Punct::Gt => SyntaxKind::Gt,
        Punct::Ge => SyntaxKind::Ge,
        Punct::PlusEq => SyntaxKind::PlusEq,
        Punct::MinusEq => SyntaxKind::MinusEq,
        Punct::StarEq => SyntaxKind::StarEq,
        Punct::SlashEq => SyntaxKind::SlashEq,
        Punct::PercentEq => SyntaxKind::PercentEq,
        Punct::Question => SyntaxKind::Question,
    }
}

/// The token kind of a lexer kind.
pub open spec fn lexer_syntax_kind(k: TokenKind) -> SyntaxKind {
    match k {
        TokenKind::Whitespace => SyntaxKind::Whitespace,
        TokenKind::Newline => SyntaxKind::Newline,
        TokenKind::LineComment => SyntaxKind::LineComment,
        TokenKind::DocComment => SyntaxKind::DocComment,
        TokenKind::BlockComment => SyntaxKind::BlockComment,
        TokenKind::IntLit => SyntaxKind::IntLit,
        TokenKind::FloatLit => SyntaxKind::FloatLit,
        TokenKind::ByteLit => SyntaxKind::ByteLit,
        TokenKind::StrLit => SyntaxKind::StrLit,
        TokenKind::Ident => SyntaxKind::Ident,
        TokenKind::Label => SyntaxKind::Label,
        TokenKind::Keyword(kw) => keyword_syntax_kind(kw),
        TokenKind::Punct(p) => punct_syntax_kind(p),
        TokenKind::Unknown => SyntaxKind::Unknown,
        TokenKind::Eof => SyntaxKind::Eof,
    }
}

impl SyntaxKind {
    /// The single bridge from the lexer's token classification into this
    /// enum. Every `TokenKind` maps to exactly one token `SyntaxKind`.
    pub fn from_lexer(kind: &TokenKind) -> (r: SyntaxKind)
        ensures
            r == lexer_syntax_kind(*kind),
    {
        match kind {
            TokenKind::Whitespace => SyntaxKind::Whitespace,
            TokenKind::Newline => SyntaxKind::Newline,
            TokenKind::LineComment => SyntaxKind::LineComment,
            TokenKind::DocComment => SyntaxKind::DocComment,
            TokenKind::BlockComment => SyntaxKind::BlockComment,
            TokenKind::IntLit => SyntaxKind::IntLit,
            TokenKind::FloatLit => SyntaxKind::FloatLit,
            TokenKind::ByteLit => SyntaxKind::ByteLit,
            TokenKind::StrLit => SyntaxKind::StrLit,
            TokenKind::Ident => SyntaxKind::Ident,
            TokenKind::Label => SyntaxKind::Label,
            TokenKind::Keyword(kw) => keyword_kind(*kw),
            TokenKind::Punct(p) => punct_kind(*p),
            TokenKind::Unknown => SyntaxKind::Unknown,
            TokenKind::Eof => SyntaxKind::Eof,
        }
    }
}

/// Map a lexer keyword to its token kind.
fn keyword_kind(kw: Keyword) -> (r: SyntaxKind)
    ensures
        r == keyword_syntax_kind(kw),
{
    match kw {
        Keyword::Val => SyntaxKind::KwVal,
        Keyword::Var => SyntaxKind::KwVar,
        Keyword::Fn => SyntaxKind::KwFn,
        Keyword::Struct => SyntaxKind::KwStruct,
        Keyword::Enum => SyntaxKind::KwEnum,
        Keyword::Trait => SyntaxKind::KwTrait,
        Keyword::Impl => SyntaxKind::KwImpl,
        Keyword::Let => SyntaxKind::KwLet,
        Keyword::Inout => SyntaxKind::KwInout,
        Keyword::Sink => SyntaxKind::KwSink,
        Keyword::Match => SyntaxKind::KwMatch,
        Keyword::If => SyntaxKind::KwIf,
        Keyword::Else => SyntaxKind::KwElse,
        Keyword::Loop => SyntaxKind::KwLoop,
        Keyword::Break => SyntaxKind::KwBreak,
        Keyword::Continue => SyntaxKind::KwContinue,
        Keyword::Return => SyntaxKind::KwReturn,
        Keyword::Try => SyntaxKind::KwTry,
        Keyword::Catch => SyntaxKind::KwCatch,
        Keyword::Errdefer => SyntaxKind::KwErrdefer,
        Keyword::Error => SyntaxKind::KwError,
        Keyword::Panic => SyntaxKind::KwPanic,
        Keyword::Mod => SyntaxKind::KwMod,
        Keyword::Use => SyntaxKind::KwUse,
        Keyword::Pub => SyntaxKind::KwPub,
        Keyword::Scope => SyntaxKind::KwScope,
        Keyword::Spawn => SyntaxKind::KwSpawn,
        Keyword::True => SyntaxKind::KwTrue,
        Keyword::False => SyntaxKind::KwFalse,
        Keyword::SelfValue => SyntaxKind::KwSelf,
        Keyword::SelfType => SyntaxKind::KwSelfType,
        Keyword::As => SyntaxKind::KwAs,
        Keyword::In => SyntaxKind::KwIn,
        Keyword::Is => SyntaxKind::KwIs,
        Keyword::Subscript => SyntaxKind::KwSubscript,
        Keyword::Yield => SyntaxKind::KwYield,
        Keyword::Super => SyntaxKind::KwSuper,
        Keyword::Crate => SyntaxKind::KwCrate,
    }
}

/// Map a lexer punctuation token to its token kind.
fn punct_kind(p: Punct) -> (r: SyntaxKind)
    ensures
        r == punct_syntax_kind(p),
{
    match p {
        Punct::LParen => SyntaxKind::LParen,
        Punct::RParen => SyntaxKind::RParen,
        Punct::LBracket => SyntaxKind::LBracket,
        Punct::RBracket => SyntaxKind::RBracket,
        Punct::LBrace => SyntaxKind::LBrace,
        Punct::RBrace => SyntaxKind::RBrace,
        Punct::Comma => SyntaxKind::Comma,
        Punct::Semicolon => SyntaxKind::Semicolon,
        Punct::Colon => SyntaxKind::Colon,
        Punct::ColonColon => SyntaxKind::ColonColon,
        Punct::Arrow => SyntaxKind::Arrow,
        Punct::FatArrow => SyntaxKind::FatArrow,
        Punct::Dot => SyntaxKind::Dot,
        Punct::DotDot => SyntaxKind::DotDot,
        Punct::DotDotEq => SyntaxKind::DotDotEq,
        Punct::Plus => SyntaxKind::Plus,
        Punct::Minus => SyntaxKind::Minus,
        Punct::Star => SyntaxKind::Star,
        Punct::Slash => SyntaxKind::Slash,
        Punct::Percent => SyntaxKind::Percent,
        Punct::Amp => SyntaxKind::Amp,
        Punct::AmpAmp => SyntaxKind::AmpAmp,
        Punct::Pipe => SyntaxKind::Pipe,
        Punct::PipePipe => SyntaxKind::PipePipe,
        Punct::Caret => SyntaxKind::Caret,
        Punct::Shl => SyntaxKind::Shl,
        Punct::Shr => SyntaxKind::Shr,
        Punct::Bang => SyntaxKind::Bang,
        Punct::Eq => SyntaxKind::Eq,
        Punct::EqEq => SyntaxKind::EqEq,
        Punct::Ne => SyntaxKind::Ne,
        Punct::Lt => SyntaxKind::Lt,
        Punct::Le => SyntaxKind::Le,
        Punct::Gt => SyntaxKind::Gt,
        Punct::Ge => SyntaxKind::Ge,
        Punct::PlusEq => SyntaxKind::PlusEq,
        Punct::MinusEq => SyntaxKind::MinusEq,
        Punct::StarEq => SyntaxKind::StarEq,
        Punct::SlashEq => SyntaxKind::SlashEq,
        Punct::PercentEq => SyntaxKind::PercentEq,
        Punct::Question => SyntaxKind::Question,
    }
}

/// The position of each keyword in `Keyword::all`.
pub open spec fn keyword_index(k: Keyword) -> int {
    match k {
        Keyword::Val => 0,
        Keyword::Var => 1,
        Keyword::Fn => 2,
        Keyword::Struct => 3,
        Keyword::Enum => 4,
        Keyword::Trait => 5,
        Keyword::Impl => 6,
        Keyword::Let => 7,
        Keyword::Inout => 8,
        Keyword::Sink => 9,
        Keyword::Match => 10,
        Keyword::If => 11,
        Keyword::Else => 12,
        Keyword::Loop => 13,
        Keyword::Break => 14,
        Keyword::Continue => 15,
        Keyword::Return => 16,
        Keyword::Try => 17,
        Keyword::Catch => 18,
        Keyword::Errdefer => 19,
        Keyword::Error => 20,
        Keyword::Panic => 21,
        Keyword::Mod => 22,
        Keyword::Use => 23,
        Keyword::Pub => 24,
        Keyword::Scope => 25,
        Keyword::Spawn => 26,
        Keyword::True => 27,
        Keyword::False => 28,
        Keyword::SelfValue => 29,
        Keyword::SelfType => 30,
        Keyword::As => 31,
        Keyword::In => 32,
        Keyword::Is => 33,
        Keyword::Subscript => 34,
        Keyword::Yield => 35,
        Keyword::Super => 36,
        Keyword::Crate => 37,
    }
}

impl Keyword {
    /// Every keyword, in declaration order.
    pub fn all() -> (r: Vec<Keyword>)
        ensures
            forall|kw: Keyword| r@.contains(kw),
            r@.len() == 38,
            r@.no_duplicates(),
    {
        let r = vec![
            Keyword::Val,
            Keyword::Var,
            Keyword::Fn,
            Keyword::Struct,
            Keyword::Enum,
            Keyword::Trait,
            Keyword::Impl,
            Keyword::Let,
            Keyword::Inout,
            Keyword::Sink,
            Keyword::Match,
            Keyword::If,
            Keyword::Else,
            Keyword::Loop,
            Keyword::Break,
            Keyword::Continue,
            Keyword::Return,
            Keyword::Try,
            Keyword::Catch,
            Keyword::Errdefer,
            Keyword::Error,
            Keyword::Panic,
            Keyword::Mod,
            Keyword::Use,
            Keyword::Pub,
            Keyword::Scope,
            Keyword::Spawn,
            Keyword::True,
            Keyword::False,
            Keyword::SelfValue,
            Keyword::SelfType,
            Keyword::As,
            Keyword::In,
            Keyword::Is,
            Keyword::Subscript,
            Keyword::Yield,
            Keyword::Super,
            Keyword::Crate,
        ];
        proof {
            assert forall|kw: Keyword| r@.contains(kw) by {
                match kw {
                    Keyword::Val => assert(r@[0] == kw),
                    Keyword::Var => assert(r@[1] == kw),
                    Keyword::Fn => assert(r@[2] == kw),
                    Keyword::Struct => assert(r@[3] == kw),
                    Keyword::Enum => assert(r@[4] == kw),
                    Keyword::Trait => assert(r@[5] == kw),
                    Keyword::Impl => assert(r@[6] == kw),
                    Keyword::Let => assert(r@[7] == kw),
                    Keyword::Inout => assert(r@[8] == kw),
                    Keyword::Sink => assert(r@[9] == kw),
                    Keyword::Match => assert(r@[10] == kw),
                    Keyword::If => assert(r@[11] == kw),
                    Keyword::Else => assert(r@[12] == kw),
                    Keyword::Loop => assert(r@[13] == kw),
                    Keyword::Break => assert(r@[14] == kw),
                    Keyword::Continue => assert(r@[15] == kw),
                    Keyword::Return => assert(r@[16] == kw),
                    Keyword::Try => assert(r@[17] == kw),
                    Keyword::Catch => assert(r@[18] == kw),
                    Keyword::Errdefer => assert(r@[19] == kw),
                    Keyword::Error => assert(r@[20] == kw),
                    Keyword::Panic => assert(r@[21] == kw),
                    Keyword::Mod => assert(r@[22] == kw),
                    Keyword::Use => assert(r@[23] == kw),
                    Keyword::Pub => assert(r@[24] == kw),
                    Keyword::Scope => assert(r@[25] == kw),
                    Keyword::Spawn => assert(r@[26] == kw),
                    Keyword::True => assert(r@[27] == kw),
                    Keyword::False => assert(r@[28] == kw),
                    Keyword::SelfValue => assert(r@[29] == kw),
                    Keyword::SelfType => assert(r@[30] == kw),
                    Keyword::As => assert(r@[31] == kw),
                    Keyword::In => assert(r@[32] == kw),
                    Keyword::Is => assert(r@[33] == kw),
                    Keyword::Subscript => assert(r@[34] == kw),
                    Keyword::Yield => assert(r@[35] == kw),
                    Keyword::Super => assert(r@[36] == kw),
                    Keyword::Crate => assert(r@[37] == kw),
                }
            }
        }
        proof {
            assert forall|i: int| 0 <= i < r@.len() implies keyword_index(#[trigger] r@[i]) == i by {
                assert(r@.len() == 38);
            }
            assert forall|i: int, j: int| 0 <= i < r@.len() && 0 <= j < r@.len() && i != j implies r@[i]
                != r@[j] by {
                assert(keyword_index(r@[i]) == i);
                assert(keyword_index(r@[j]) == j);
            }
        }
        r
    }
}

/// The position of each punct in `Punct::all`.
pub open spec fn punct_index(k: Punct) -> int {
    match k {
        Punct::LParen => 0,
        Punct::RParen => 1,
        Punct::LBracket => 2,
        Punct::RBracket => 3,
        Punct::LBrace => 4,
        Punct::RBrace => 5,
        Punct::Comma => 6,
        Punct::Semicolon => 7,
        Punct::Colon => 8,
        Punct::ColonColon => 9,
        Punct::Arrow => 10,
        Punct::FatArrow => 11,
        Punct::Dot => 12,
        Punct::DotDot => 13,
        Punct::DotDotEq => 14,
        Punct::Plus => 15,
        Punct::Minus => 16,
        Punct::Star => 17,
        Punct::Slash => 18,
        Punct::Percent => 19,
        Punct::Amp => 20,
        Punct::AmpAmp => 21,
        Punct::Pipe => 22,
        Punct::PipePipe => 23,
        Punct::Caret => 24,
        Punct::Shl => 25,
        Punct::Shr => 26,
        Punct::Bang => 27,
        Punct::Eq => 28,
        Punct::EqEq => 29,
        Punct::Ne => 30,
        Punct::Lt => 31,
        Punct::Le => 32,
        Punct::Gt => 33,
        Punct::Ge => 34,
        Punct::PlusEq => 35,
        Punct::MinusEq => 36,
        Punct::StarEq => 37,
        Punct::SlashEq => 38,
        Punct::PercentEq => 39,
        Punct::Question => 40,
    }
}

impl Punct {
    /// Every punctuation token, in declaration order.
    pub fn all() -> (r: Vec<Punct>)
        ensures
            forall|p: Punct| r@.contains(p),
            r@.len() == 41,
            r@.no_duplicates(),
    {
        let r = vec![
            Punct::LParen,
            Punct::RParen,
            Punct::LBracket,
            Punct::RBracket,
            Punct::LBrace,
            Punct::RBrace,
            Punct::Comma,
            Punct::Semicolon,
            Punct::Colon,
            Punct::ColonColon,
            Punct::Arrow,
            Punct::FatArrow,
            Punct::Dot,
            Punct::DotDot,
            Punct::DotDotEq,
            Punct::Plus,
            Punct::Minus,
            Punct::Star,
            Punct::Slash,
            Punct::Percent,
            Punct::Amp,
            Punct::AmpAmp,
            Punct::Pipe,
            Punct::PipePipe,
            Punct::Caret,
            Punct::Shl,
            Punct::Shr,
            Punct::Bang,
            Punct::Eq,
            Punct::EqEq,
            Punct::Ne,
            Punct::Lt,
            Punct::Le,
            Punct::Gt,
            Punct::Ge,
            Punct::PlusEq,
            Punct::MinusEq,
            Punct::StarEq,
            Punct::SlashEq,
            Punct::PercentEq,
            Punct::Question,
        ];
        proof {
            assert forall|p: Punct| r@.contains(p) by {
                match p {
                    Punct::LParen => assert(r@[0] == p),
                    Punct::RParen => assert(r@[1] == p),
                    Punct::LBracket => assert(r@[2] == p),
                    Punct::RBracket => assert(r@[3] == p),
                    Punct::LBrace => assert(r@[4] == p),
                    Punct::RBrace => assert(r@[5] == p),
                    Punct::Comma => assert(r@[6] == p),
                    Punct::Semicolon => assert(r@[7] == p),
                    Punct::Colon => assert(r@[8] == p),
                    Punct::ColonColon => assert(r@[9] == p),
                    Punct::Arrow => assert(r@[10] == p),
                    Punct::FatArrow => assert(r@[11] == p),
                    Punct::Dot => assert(r@[12] == p),
                    Punct::DotDot => assert(r@[13] == p),
                    Punct::DotDotEq => assert(r@[14] == p),
                    Punct::Plus => assert(r@[15] == p),
                    Punct::Minus => assert(r@[16] == p),
                    Punct::Star => assert(r@[17] == p),
                    Punct::Slash => assert(r@[18] == p),
                    Punct::Percent => assert(r@[19] == p),
                    Punct::Amp => assert(r@[20] == p),
                    Punct::AmpAmp => assert(r@[21] == p),
                    Punct::Pipe => assert(r@[22] == p),
                    Punct::PipePipe => assert(r@[23] == p),
                    Punct::Caret => assert(r@[24] == p),
                    Punct::Shl => assert(r@[25] == p),
                    Punct::Shr => assert(r@[26] == p),
                    Punct::Bang => assert(r@[27] == p),
                    Punct::Eq => assert(r@[28] == p),
                    Punct::EqEq => assert(r@[29] == p),
                    Punct::Ne => assert(r@[30] == p),
                    Punct::Lt => assert(r@[31] == p),
                    Punct::Le => assert(r@[32] == p),
                    Punct::Gt => assert(r@[33] == p),
                    Punct::Ge => assert(r@[34] == p),
                    Punct::PlusEq => assert(r@[35] == p),
                    Punct::MinusEq => assert(r@[36] == p),
                    Punct::StarEq => assert(r@[37] == p),
                    Punct::SlashEq => assert(r@[38] == p),
                    Punct::PercentEq => assert(r@[39] == p),
                    Punct::Question => assert(r@[40] == p),
                }
            }
        }
        proof {
            assert forall|i: int| 0 <= i < r@.len() implies punct_index(#[trigger] r@[i]) == i by {
                assert(r@.len() == 41);
            }
            assert forall|i: int, j: int| 0 <= i < r@.len() && 0 <= j < r@.len() && i != j implies r@[i]
                != r@[j] by {
                assert(punct_index(r@[i]) == i);
                assert(punct_index(r@[j]) == j);
            }
        }
        r
    }
}

/// The bridge never yields a node kind: every lexer kind becomes a token kind.
pub proof fn lemma_from_lexer_is_token(k: TokenKind)
    ensures
        is_token_kind(lexer_syntax_kind(k)),
{
}

/// A kind is trivia for the parser exactly when the lexer counts it as trivia.
pub proof fn lemma_trivia_bridge(k: TokenKind)
    ensures
        is_trivia_kind(lexer_syntax_kind(k)) <==> is_lexer_trivia(k),
{
}

/// The name of a punctuation token: its variant's own name.
pub open spec fn punct_name(p: Punct) -> Seq<char> {
    match p {
        Punct::LParen => "LParen"@,
        Punct::RParen => "RParen"@,
        Punct::LBracket => "LBracket"@,
        Punct::RBracket => "RBracket"@,
        Punct::LBrace => "LBrace"@,
        Punct::RBrace => "RBrace"@,
        Punct::Comma => "Comma"@,
        Punct::Semicolon => "Semicolon"@,
        Punct::Colon => "Colon"@,
        Punct::ColonColon => "ColonColon"@,
        Punct::Arrow => "Arrow"@,
        Punct::FatArrow => "FatArrow"@,
        Punct::Dot => "Dot"@,
        Punct::DotDot => "DotDot"@,
        Punct::DotDotEq => "DotDotEq"@,
        Punct::Plus => "Plus"@,
        Punct::Minus => "Minus"@,
        Punct::Star => "Star"@,
        Punct::Slash => "Slash"@,
        Punct::Percent => "Percent"@,
        Punct::Amp => "Amp"@,
        Punct::AmpAmp => "AmpAmp"@,
        Punct::Pipe => "Pipe"@,
        Punct::PipePipe => "PipePipe"@,
        Punct::Caret => "Caret"@,
        Punct::Shl => "Shl"@,
        Punct::Shr => "Shr"@,
        Punct::Bang => "Bang"@,
        Punct::Eq => "Eq"@,
        Punct::EqEq => "EqEq"@,
        Punct::Ne => "Ne"@,
        Punct::Lt => "Lt"@,
        Punct::Le => "Le"@,
        Punct::Gt => "Gt"@,
        Punct::Ge => "Ge"@,
        Punct::PlusEq => "PlusEq"@,
        Punct::MinusEq => "MinusEq"@,
        Punct::StarEq => "StarEq"@,
        Punct::SlashEq => "SlashEq"@,
        Punct::PercentEq => "PercentEq"@,
        Punct::Question => "Question"@,
    }
}

/// The punctuation token that a syntax kind stands for, if it stands for one.
pub open spec fn punct_of_syntax_kind(k: SyntaxKind) -> Option<Punct> {
    match k {
        SyntaxKind::LParen => Some(Punct::LParen),
        SyntaxKind::RParen => Some(Punct::RParen),
        SyntaxKind::LBracket => Some(Punct::LBracket),
        SyntaxKind::RBracket => Some(Punct::RBracket),
        SyntaxKind::LBrace => Some(Punct::LBrace),
        SyntaxKind::RBrace => Some(Punct::RBrace),
        SyntaxKind::Comma => Some(Punct::Comma),
        SyntaxKind::Semicolon => Some(Punct::Semicolon),
        SyntaxKind::Colon => Some(Punct::Colon),
        SyntaxKind::ColonColon => Some(Punct::ColonColon),
        SyntaxKind::Arrow => Some(Punct::Arrow),
        SyntaxKind::FatArrow => Some(Punct::FatArrow),
        SyntaxKind::Dot => Some(Punct::Dot),
        SyntaxKind::DotDot => Some(Punct::DotDot),
        SyntaxKind::DotDotEq => Some(Punct::DotDotEq),
        SyntaxKind::Plus => Some(Punct::Plus),
        SyntaxKind::Minus => Some(Punct::Minus),
        SyntaxKind::Star => Some(Punct::Star),
        SyntaxKind::Slash => Some(Punct::Slash),
        SyntaxKind::Percent => Some(Punct::Percent),
        SyntaxKind::Amp => Some(Punct::Amp),
        SyntaxKind::AmpAmp => Some(Punct::AmpAmp),
        SyntaxKind::Pipe => Some(Punct::Pipe),
        SyntaxKind::PipePipe => Some(Punct::PipePipe),
        SyntaxKind::Caret => Some(Punct::Caret),
        SyntaxKind::Shl => Some(Punct::Shl),
        SyntaxKind::Shr => Some(Punct::Shr),
        SyntaxKind::Bang => Some(Punct::Bang),
        SyntaxKind::Eq => Some(Punct::Eq),
        SyntaxKind::EqEq => Some(Punct::EqEq),
        SyntaxKind::Ne => Some(Punct::Ne),
        SyntaxKind::Lt => Some(Punct::Lt),
        SyntaxKind::Le => Some(Punct::Le),
        SyntaxKind::Gt => Some(Punct::Gt),
        SyntaxKind::Ge => Some(Punct::Ge),
        SyntaxKind::PlusEq => Some(Punct::PlusEq),
        SyntaxKind::MinusEq => Some(Punct::MinusEq),
        SyntaxKind::StarEq => Some(Punct::StarEq),
        SyntaxKind::SlashEq => Some(Punct::SlashEq),
        SyntaxKind::PercentEq => Some(Punct::PercentEq),
        SyntaxKind::Question => Some(Punct::Question),
        _ => None,
    }
}

/// The bridge keeps each punctuation token's name: the syntax kind that
/// `from_lexer` gives for `Punct(p)` is the one whose label is `p`'s name.
pub proof fn lemma_punct_bridge_keeps_name(p: Punct)
    ensures
        label_of(lexer_syntax_kind(TokenKind::Punct(p))) == punct_name(p),
{
}

/// The bridge tells punctuation tokens apart: the syntax kind of `Punct(p)`
/// stands for `p` again, so two distinct tokens never share a syntax kind.
pub proof fn lemma_punct_bridge_injective(p: Punct, q: Punct)
    ensures
        punct_of_syntax_kind(lexer_syntax_kind(TokenKind::Punct(p))) == Some(p),
        p != q ==> lexer_syntax_kind(TokenKind::Punct(p)) != lexer_syntax_kind(TokenKind::Punct(q)),
{
}

/// The keyword that a syntax kind stands for, if it stands for one.
pub open spec fn keyword_of_syntax_kind(k: SyntaxKind) -> Option<Keyword> {
    match k {
        SyntaxKind::KwVal => Some(Keyword::Val),
        SyntaxKind::KwVar => Some(Keyword::Var),
        SyntaxKind::KwFn => Some(Keyword::Fn),
        SyntaxKind::KwStruct => Some(Keyword::Struct),
        SyntaxKind::KwEnum => Some(Keyword::Enum),
        SyntaxKind::KwTrait => Some(Keyword::Trait),
        SyntaxKind::KwImpl => Some(Keyword::Impl),
        SyntaxKind::KwLet => Some(Keyword::Let),
        SyntaxKind::KwInout => Some(Keyword::Inout),
        SyntaxKind::KwSink => Some(Keyword::Sink),
        SyntaxKind::KwMatch => Some(Keyword::Match),
        SyntaxKind::KwIf => Some(Keyword::If),
        SyntaxKind::KwElse => Some(Keyword::Else),
        SyntaxKind::KwLoop => Some(Keyword::Loop),
        SyntaxKind::KwBreak => Some(Keyword::Break),
        SyntaxKind::KwContinue => Some(Keyword::Continue),
        SyntaxKind::KwReturn => Some(Keyword::Return),
        SyntaxKind::KwTry => Some(Keyword::Try),
        SyntaxKind::KwCatch => Some(Keyword::Catch),
        SyntaxKind::KwErrdefer => Some(Keyword::Errdefer),
        SyntaxKind::KwError => Some(Keyword::Error),
        SyntaxKind::KwPanic => Some(Keyword::Panic),
        SyntaxKind::KwMod => Some(Keyword::Mod),
        SyntaxKind::KwUse => Some(Keyword::Use),
        SyntaxKind::KwPub => Some(Keyword::Pub),
        SyntaxKind::KwScope => Some(Keyword::Scope),
        SyntaxKind::KwSpawn => Some(Keyword::Spawn),
        SyntaxKind::KwTrue => Some(Keyword::True),
        SyntaxKind::KwFalse => Some(Keyword::False),
        SyntaxKind::KwSelf => Some(Keyword::SelfValue),
        SyntaxKind::KwSelfType => Some(Keyword::SelfType),
        SyntaxKind::KwAs => Some(Keyword::As),
        SyntaxKind::KwIn => Some(Keyword::In),
        SyntaxKind::KwIs => Some(Keyword::Is),
        SyntaxKind::KwSubscript => Some(Keyword::Subscript),
        SyntaxKind::KwYield => Some(Keyword::Yield),
        SyntaxKind::KwSuper => Some(Keyword::Super),
        SyntaxKind::KwCrate => Some(Keyword::Crate),
        _ => None,
    }
}

/// The bridge tells keywords apart: the syntax kind of `Keyword(k)` stands for
/// `k` again, so two distinct keywords never share a syntax kind.
pub proof fn lemma_keyword_bridge_injective(k: Keyword, j: Keyword)
    ensures
        keyword_of_syntax_kind(lexer_syntax_kind(TokenKind::Keyword(k))) == Some(k),
        k != j ==> lexer_syntax_kind(TokenKind::Keyword(k)) != lexer_syntax_kind(TokenKind::Keyword(j)),
{
}

/// The lexer kind that a syntax kind stands for, if it stands for one.
pub open spec fn token_kind_of_syntax_kind(k: SyntaxKind) -> Option<TokenKind> {
    match k {
        SyntaxKind::Whitespace => Some(TokenKind::Whitespace),
        SyntaxKind::Newline => Some(TokenKind::Newline),
        SyntaxKind::LineComment => Some(TokenKind::LineComment),
        SyntaxKind::DocComment => Some(TokenKind::DocComment),
        SyntaxKind::BlockComment => Some(TokenKind::BlockComment),
        SyntaxKind::IntLit => Some(TokenKind::IntLit),
        SyntaxKind::FloatLit => Some(TokenKind::FloatLit),
        SyntaxKind::ByteLit => Some(TokenKind::ByteLit),
        SyntaxKind::StrLit => Some(TokenKind::StrLit),
        SyntaxKind::Ident => Some(TokenKind::Ident),
        SyntaxKind::Label => Some(TokenKind::Label),
        SyntaxKind::Unknown => Some(TokenKind::Unknown),
        SyntaxKind::Eof => Some(TokenKind::Eof),
        _ => match keyword_of_syntax_kind(k) {
            Some(kw) => Some(TokenKind::Keyword(kw)),
            None => match punct_of_syntax_kind(k) {
                Some(p) => Some(TokenKind::Punct(p)),
                None => None,
            },
        },
    }
}

/// The bridge loses nothing: the syntax kind of a lexer kind stands for that
/// lexer kind again, so distinct lexer kinds never share a syntax kind.
pub proof fn lemma_bridge_injective(a: TokenKind, b: TokenKind)
    ensures
        token_kind_of_syntax_kind(lexer_syntax_kind(a)) == Some(a),
        a != b ==> lexer_syntax_kind(a) != lexer_syntax_kind(b),
{
    lemma_bridge_inverse(a);
    lemma_bridge_inverse(b);
}

/// `token_kind_of_syntax_kind` undoes the bridge.
proof fn lemma_bridge_inverse(a: TokenKind)
    ensures
        token_kind_of_syntax_kind(lexer_syntax_kind(a)) == Some(a),
{
    match a {
        TokenKind::Keyword(kw) => {
            lemma_keyword_bridge_injective(kw, kw);
        },
        TokenKind::Punct(p) => {
            lemma_punct_bridge_injective(p, p);
            assert(keyword_of_syntax_kind(punct_syntax_kind(p)) is None);
        },
        _ => {},
    }
}

} // verus!
