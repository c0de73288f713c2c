//! `SyntaxKind` — one flat enum naming both token kinds and node kinds, plus
//! the display label of each kind (its variant name) and the group predicates
//! (trivia / keyword / token / node) over it.

use vstd::prelude::*;

verus! {

/// A node or token kind. Token kinds (trivia, keywords and other tokens) tag
/// tree leaves; node kinds tag interior nodes. One flat enum keeps the tree
/// homogeneous.
#[derive(Debug, Clone, Copy, PartialEq, Eq, Hash, Structural)]
pub enum SyntaxKind {
    // trivia
    Whitespace,
    Newline,
    LineComment,
    DocComment,
    BlockComment,
    // tokens
    IntLit,
    FloatLit,
    ByteLit,
    StrLit,
    Ident,
    Label,
    LParen,
    RParen,
    LBracket,
    RBracket,
    LBrace,
    RBrace,
    Comma,
    Semicolon,
    Colon,
    ColonColon,
    Arrow,
    FatArrow,
    Dot,
    DotDot,
    DotDotEq,
    Plus,
    Minus,
    Star,
    Slash,
    Percent,
    Amp,
    AmpAmp,
    Pipe,
    PipePipe,
    Caret,
    Shl,
    Shr,
    Bang,
    Eq,
    EqEq,
    Ne,
    Lt,
    Le,
    Gt,
    Ge,
    PlusEq,
    MinusEq,
    StarEq,
    SlashEq,
    PercentEq,
    Question,
    Unknown,
    Eof,
    // keywords
    KwVal,
    KwVar,
    KwFn,
    KwStruct,
    KwEnum,
    KwTrait,
    KwImpl,
    KwLet,
    KwInout,
    KwSink,
    KwMatch,
    KwIf,
    KwElse,
    KwLoop,
    KwBreak,
    KwContinue,
    KwReturn,
    KwTry,
    KwCatch,
    KwErrdefer,
    KwError,
    KwPanic,
    KwMod,
    KwUse,
    KwPub,
    KwScope,
    KwSpawn,
    KwTrue,
    KwFalse,
    KwSelf,
    KwSelfType,
    KwSuper,
    KwCrate,
    KwAs,
    KwIn,
    KwIs,
    KwSubscript,
    KwYield,
    // nodes
    SourceFile,
    FnDef,
    StructDef,
    EnumDef,
    TraitDef,
    ImplBlock,
    ModDef,
    UseDecl,
    ConstDef,
    ErrorSetDef,
    Visibility,
    ParamList,
    Param,
    SelfParam,
    FieldList,
    Field,
    VariantList,
    Variant,
    VariantPayload,
    GenericParamList,
    GenericParam,
    TraitBounds,
    RetType,
    UseTree,
    UseGroup,
    UseRename,
    ErrorVariantList,
    ErrorVariant,
    AssocItemList,
    TraitItemList,
    SubscriptDef,
    YieldStmt,
    LetStmt,
    ExprStmt,
    ReturnStmt,
    BreakStmt,
    ContinueStmt,
    ErrdeferStmt,
    BlockExpr,
    LiteralExpr,
    PathExpr,
    BinExpr,
    PrefixExpr,
    CallExpr,
    MethodCallExpr,
    FieldExpr,
    IndexExpr,
    ParenExpr,
    IfExpr,
    MatchExpr,
    LoopExpr,
    ClosureExpr,
    StructLitExpr,
    CastExpr,
    RangeExpr,
    TryExpr,
    AssignExpr,
    CatchExpr,
    ScopeExpr,
    SpawnExpr,
    ListLitExpr,
    ArgList,
    Path,
    PathSegment,
    Name,
    NameRef,
    LoopCondition,
    LoopIter,
    LoopLabel,
    MatchArmList,
    MatchArm,
    MatchGuard,
    ClosureParamList,
    ClosureParam,
    StructLitFieldList,
    StructLitField,
    WildcardPat,
    LiteralPat,
    IdentPat,
    TupleStructPat,
    StructPat,
    PathPat,
    OrPat,
    RestPat,
    RangePat,
    StructPatFieldList,
    StructPatField,
    TuplePatFieldList,
    PathType,
    SliceType,
    GenericArgList,
    ErrorUnionType,
    ErrorSetUnionType,
    DynType,
    UnitType,
    FnType,
    FnTypeParams,
    Error,
}

/// Whitespace, newlines and comments: the leaves the grammar skips but the tree keeps.
pub open spec fn is_trivia_kind(k: SyntaxKind) -> bool {
    match k {
        SyntaxKind::Whitespace
        | SyntaxKind::Newline
        | SyntaxKind::LineComment
        | SyntaxKind::DocComment
        | SyntaxKind::BlockComment => true,
        _ => false,
    }
}

/// A reserved keyword token.
pub open spec fn is_keyword_kind(k: SyntaxKind) -> bool {
    match k {
        SyntaxKind::KwVal
        | SyntaxKind::KwVar
        | SyntaxKind::KwFn
        | SyntaxKind::KwStruct
        | SyntaxKind::KwEnum
        | SyntaxKind::KwTrait
        | SyntaxKind::KwImpl
        | SyntaxKind::KwLet
        | SyntaxKind::KwInout
        | SyntaxKind::KwSink
        | SyntaxKind::KwMatch
        | SyntaxKind::KwIf
        | SyntaxKind::KwElse
        | SyntaxKind::KwLoop
        | SyntaxKind::KwBreak
        | SyntaxKind::KwContinue
        | SyntaxKind::KwReturn
        | SyntaxKind::KwTry
        | SyntaxKind::KwCatch
        | SyntaxKind::KwErrdefer
        | SyntaxKind::KwError
        | SyntaxKind::KwPanic
        | SyntaxKind::KwMod
        | SyntaxKind::KwUse
        | SyntaxKind::KwPub
        | SyntaxKind::KwScope
        | SyntaxKind::KwSpawn
        | SyntaxKind::KwTrue
        | SyntaxKind::KwFalse
        | SyntaxKind::KwSelf
        | SyntaxKind::KwSelfType
        | SyntaxKind::KwSuper
        | SyntaxKind::KwCrate
        | SyntaxKind::KwAs
        | SyntaxKind::KwIn
        | SyntaxKind::KwIs
        | SyntaxKind::KwSubscript
        | SyntaxKind::KwYield => true,
        _ => false,
    }
}

/// Any leaf kind: trivia, keyword, or other token.
pub open spec fn is_token_kind(k: SyntaxKind) -> bool {
    match k {
        SyntaxKind::Whitespace
        | SyntaxKind::Newline
        | SyntaxKind::LineComment
        | SyntaxKind::DocComment
        | SyntaxKind::BlockComment
        | SyntaxKind::IntLit
        | SyntaxKind::FloatLit
        | SyntaxKind::ByteLit
        | SyntaxKind::StrLit
        | SyntaxKind::Ident
        | SyntaxKind::Label
        | SyntaxKind::LParen
        | SyntaxKind::RParen
        | SyntaxKind::LBracket
        | SyntaxKind::RBracket
        | SyntaxKind::LBrace
        | SyntaxKind::RBrace
        | SyntaxKind::Comma
        | SyntaxKind::Semicolon
        | SyntaxKind::Colon
        | SyntaxKind::ColonColon
        | SyntaxKind::Arrow
        | SyntaxKind::FatArrow
        | SyntaxKind::Dot
        | SyntaxKind::DotDot
        | SyntaxKind::DotDotEq
        | SyntaxKind::Plus
        | SyntaxKind::Minus
        | SyntaxKind::Star
        | SyntaxKind::Slash
        | SyntaxKind::Percent
        | SyntaxKind::Amp
        | SyntaxKind::AmpAmp
        | SyntaxKind::Pipe
        | SyntaxKind::PipePipe
        | SyntaxKind::Caret
        | SyntaxKind::Shl
        | SyntaxKind::Shr
        | SyntaxKind::Bang
        | SyntaxKind::Eq
        | SyntaxKind::EqEq
        | SyntaxKind::Ne
        | SyntaxKind::Lt
        | SyntaxKind::Le
        | SyntaxKind::Gt
        | SyntaxKind::Ge
        | SyntaxKind::PlusEq
        | SyntaxKind::MinusEq
        | SyntaxKind::StarEq
        | SyntaxKind::SlashEq
        | SyntaxKind::PercentEq
        | SyntaxKind::Question
        | SyntaxKind::Unknown
        | SyntaxKind::Eof
        | SyntaxKind::KwVal
        | SyntaxKind::KwVar
        | SyntaxKind::KwFn
        | SyntaxKind::KwStruct
        | SyntaxKind::KwEnum
        | SyntaxKind::KwTrait
        | SyntaxKind::KwImpl
        | SyntaxKind::KwLet
        | SyntaxKind::KwInout
        | SyntaxKind::KwSink
        | SyntaxKind::KwMatch
        | SyntaxKind::KwIf
        | SyntaxKind::KwElse
        | SyntaxKind::KwLoop
        | SyntaxKind::KwBreak
        | SyntaxKind::KwContinue
        | SyntaxKind::KwReturn
        | SyntaxKind::KwTry
        | SyntaxKind::KwCatch
        | SyntaxKind::KwErrdefer
        | SyntaxKind::KwError
        | SyntaxKind::KwPanic
        | SyntaxKind::KwMod
        | SyntaxKind::KwUse
        | SyntaxKind::KwPub
        | SyntaxKind::KwScope
        | SyntaxKind::KwSpawn
        | SyntaxKind::KwTrue
        | SyntaxKind::KwFalse
        | SyntaxKind::KwSelf
        | SyntaxKind::KwSelfType
        | SyntaxKind::KwSuper
        | SyntaxKind::KwCrate
        | SyntaxKind::KwAs
        | SyntaxKind::KwIn
        | SyntaxKind::KwIs
        | SyntaxKind::KwSubscript
        | SyntaxKind::KwYield => true,
        _ => false,
    }
}

/// The canonical display label of a kind: the variant's own name.
pub open spec fn label_of(k: SyntaxKind) -> Seq<char> {
    match k {
        SyntaxKind::Whitespace => "Whitespace"@,
        SyntaxKind::Newline => "Newline"@,
        SyntaxKind::LineComment => "LineComment"@,
        SyntaxKind::DocComment => "DocComment"@,
        SyntaxKind::BlockComment => "BlockComment"@,
        SyntaxKind::IntLit => "IntLit"@,
        SyntaxKind::FloatLit => "FloatLit"@,
        SyntaxKind::ByteLit => "ByteLit"@,
        SyntaxKind::StrLit => "StrLit"@,
        SyntaxKind::Ident => "Ident"@,
        SyntaxKind::Label => "Label"@,
        SyntaxKind::LParen => "LParen"@,
        SyntaxKind::RParen => "RParen"@,
        SyntaxKind::LBracket => "LBracket"@,
        SyntaxKind::RBracket => "RBracket"@,
        SyntaxKind::LBrace => "LBrace"@,
        SyntaxKind::RBrace => "RBrace"@,
        SyntaxKind::Comma => "Comma"@,
        SyntaxKind::Semicolon => "Semicolon"@,
        SyntaxKind::Colon => "Colon"@,
        SyntaxKind::ColonColon => "ColonColon"@,
        SyntaxKind::Arrow => "Arrow"@,
        SyntaxKind::FatArrow => "FatArrow"@,
        SyntaxKind::Dot => "Dot"@,
        SyntaxKind::DotDot => "DotDot"@,
        SyntaxKind::DotDotEq => "DotDotEq"@,
        SyntaxKind::Plus => "Plus"@,
        SyntaxKind::Minus => "Minus"@,
        SyntaxKind::Star => "Star"@,
        SyntaxKind::Slash => "Slash"@,
        SyntaxKind::Percent => "Percent"@,
        SyntaxKind::Amp => "Amp"@,
        SyntaxKind::AmpAmp => "AmpAmp"@,
        SyntaxKind::Pipe => "Pipe"@,
        SyntaxKind::PipePipe => "PipePipe"@,
        SyntaxKind::Caret => "Caret"@,
        SyntaxKind::Shl => "Shl"@,
        SyntaxKind::Shr => "Shr"@,
        SyntaxKind::Bang => "Bang"@,
        SyntaxKind::Eq => "Eq"@,
        SyntaxKind::EqEq => "EqEq"@,
        SyntaxKind::Ne => "Ne"@,
        SyntaxKind::Lt => "Lt"@,
        SyntaxKind::Le => "Le"@,
        SyntaxKind::Gt => "Gt"@,
        SyntaxKind::Ge => "Ge"@,
        SyntaxKind::PlusEq => "PlusEq"@,
        SyntaxKind::MinusEq => "MinusEq"@,
        SyntaxKind::StarEq => "StarEq"@,
        SyntaxKind::SlashEq => "SlashEq"@,
        SyntaxKind::PercentEq => "PercentEq"@,
        SyntaxKind::Question => "Question"@,
        SyntaxKind::Unknown => "Unknown"@,
        SyntaxKind::Eof => "Eof"@,
        SyntaxKind::KwVal => "KwVal"@,
        SyntaxKind::KwVar => "KwVar"@,
        SyntaxKind::KwFn => "KwFn"@,
        SyntaxKind::KwStruct => "KwStruct"@,
        SyntaxKind::KwEnum => "KwEnum"@,
        SyntaxKind::KwTrait => "KwTrait"@,
        SyntaxKind::KwImpl => "KwImpl"@,
        SyntaxKind::KwLet => "KwLet"@,
        SyntaxKind::KwInout => "KwInout"@,
        SyntaxKind::KwSink => "KwSink"@,
        SyntaxKind::KwMatch => "KwMatch"@,
        SyntaxKind::KwIf => "KwIf"@,
        SyntaxKind::KwElse => "KwElse"@,
        SyntaxKind::KwLoop => "KwLoop"@,
        SyntaxKind::KwBreak => "KwBreak"@,
        SyntaxKind::KwContinue => "KwContinue"@,
        SyntaxKind::KwReturn => "KwReturn"@,
        SyntaxKind::KwTry => "KwTry"@,
        SyntaxKind::KwCatch => "KwCatch"@,
        SyntaxKind::KwErrdefer => "KwErrdefer"@,
        SyntaxKind::KwError => "KwError"@,
        SyntaxKind::KwPanic => "KwPanic"@,
        SyntaxKind::KwMod => "KwMod"@,
        SyntaxKind::KwUse => "KwUse"@,
        SyntaxKind::KwPub => "KwPub"@,
        SyntaxKind::KwScope => "KwScope"@,
        SyntaxKind::KwSpawn => "KwSpawn"@,
        SyntaxKind::KwTrue => "KwTrue"@,
        SyntaxKind::KwFalse => "KwFalse"@,
        SyntaxKind::KwSelf => "KwSelf"@,
        SyntaxKind::KwSelfType => "KwSelfType"@,
        SyntaxKind::KwSuper => "KwSuper"@,
        SyntaxKind::KwCrate => "KwCrate"@,
        SyntaxKind::KwAs => "KwAs"@,
        SyntaxKind::KwIn => "KwIn"@,
        SyntaxKind::KwIs => "KwIs"@,
        SyntaxKind::KwSubscript => "KwSubscript"@,
        SyntaxKind::KwYield => "KwYield"@,
        SyntaxKind::SourceFile => "SourceFile"@,
        SyntaxKind::FnDef => "FnDef"@,
        SyntaxKind::StructDef => "StructDef"@,
        SyntaxKind::EnumDef => "EnumDef"@,
        SyntaxKind::TraitDef => "TraitDef"@,
        SyntaxKind::ImplBlock => "ImplBlock"@,
        SyntaxKind::ModDef => "ModDef"@,
        SyntaxKind::UseDecl => "UseDecl"@,
        SyntaxKind::ConstDef => "ConstDef"@,
        SyntaxKind::ErrorSetDef => "ErrorSetDef"@,
        SyntaxKind::Visibility => "Visibility"@,
        SyntaxKind::ParamList => "ParamList"@,
        SyntaxKind::Param => "Param"@,
        SyntaxKind::SelfParam => "SelfParam"@,
        SyntaxKind::FieldList => "FieldList"@,
        SyntaxKind::Field => "Field"@,
        SyntaxKind::VariantList => "VariantList"@,
        SyntaxKind::Variant => "Variant"@,
        SyntaxKind::VariantPayload => "VariantPayload"@,
        SyntaxKind::GenericParamList => "GenericParamList"@,
        SyntaxKind::GenericParam => "GenericParam"@,
        SyntaxKind::TraitBounds => "TraitBounds"@,
        SyntaxKind::RetType => "RetType"@,
        SyntaxKind::UseTree => "UseTree"@,
        SyntaxKind::UseGroup => "UseGroup"@,
        SyntaxKind::UseRename => "UseRename"@,
        SyntaxKind::ErrorVariantList => "ErrorVariantList"@,
        SyntaxKind::ErrorVariant => "ErrorVariant"@,
        SyntaxKind::AssocItemList => "AssocItemList"@,
        SyntaxKind::TraitItemList => "TraitItemList"@,
        SyntaxKind::SubscriptDef => "SubscriptDef"@,
        SyntaxKind::YieldStmt => "YieldStmt"@,
        SyntaxKind::LetStmt => "LetStmt"@,
        SyntaxKind::ExprStmt => "ExprStmt"@,
        SyntaxKind::ReturnStmt => "ReturnStmt"@,
        SyntaxKind::BreakStmt => "BreakStmt"@,
        SyntaxKind::ContinueStmt => "ContinueStmt"@,
        SyntaxKind::ErrdeferStmt => "ErrdeferStmt"@,
        SyntaxKind::BlockExpr => "BlockExpr"@,
        SyntaxKind::LiteralExpr => "LiteralExpr"@,
        SyntaxKind::PathExpr => "PathExpr"@,
        SyntaxKind::BinExpr => "BinExpr"@,
        SyntaxKind::PrefixExpr => "PrefixExpr"@,
        SyntaxKind::CallExpr => "CallExpr"@,
        SyntaxKind::MethodCallExpr => "MethodCallExpr"@,
        SyntaxKind::FieldExpr => "FieldExpr"@,
        SyntaxKind::IndexExpr => "IndexExpr"@,
        SyntaxKind::ParenExpr => "ParenExpr"@,
        SyntaxKind::IfExpr => "IfExpr"@,
        SyntaxKind::MatchExpr => "MatchExpr"@,
        SyntaxKind::LoopExpr => "LoopExpr"@,
        SyntaxKind::ClosureExpr => "ClosureExpr"@,
        SyntaxKind::StructLitExpr => "StructLitExpr"@,
        SyntaxKind::CastExpr => "CastExpr"@,
        SyntaxKind::RangeExpr => "RangeExpr"@,
        SyntaxKind::TryExpr => "TryExpr"@,
        SyntaxKind::AssignExpr => "AssignExpr"@,
        SyntaxKind::CatchExpr => "CatchExpr"@,
        SyntaxKind::ScopeExpr => "ScopeExpr"@,
        SyntaxKind::SpawnExpr => "SpawnExpr"@,
        SyntaxKind::ListLitExpr => "ListLitExpr"@,
        SyntaxKind::ArgList => "ArgList"@,
        SyntaxKind::Path => "Path"@,
        SyntaxKind::PathSegment => "PathSegment"@,
        SyntaxKind::Name => "Name"@,
        SyntaxKind::NameRef => "NameRef"@,
        SyntaxKind::LoopCondition => "LoopCondition"@,
        SyntaxKind::LoopIter => "LoopIter"@,
        SyntaxKind::LoopLabel => "LoopLabel"@,
        SyntaxKind::MatchArmList => "MatchArmList"@,
        SyntaxKind::MatchArm => "MatchArm"@,
        SyntaxKind::MatchGuard => "MatchGuard"@,
        SyntaxKind::ClosureParamList => "ClosureParamList"@,
        SyntaxKind::ClosureParam => "ClosureParam"@,
        SyntaxKind::StructLitFieldList => "StructLitFieldList"@,
        SyntaxKind::StructLitField => "StructLitField"@,
        SyntaxKind::WildcardPat => "WildcardPat"@,
        SyntaxKind::LiteralPat => "LiteralPat"@,
        SyntaxKind::IdentPat => "IdentPat"@,
        SyntaxKind::TupleStructPat => "TupleStructPat"@,
        SyntaxKind::StructPat => "StructPat"@,
        SyntaxKind::PathPat => "PathPat"@,
        SyntaxKind::OrPat => "OrPat"@,
        SyntaxKind::RestPat => "RestPat"@,
        SyntaxKind::RangePat => "RangePat"@,
        SyntaxKind::StructPatFieldList => "StructPatFieldList"@,
        SyntaxKind::StructPatField => "StructPatField"@,
        SyntaxKind::TuplePatFieldList => "TuplePatFieldList"@,
        SyntaxKind::PathType => "PathType"@,
        SyntaxKind::SliceType => "SliceType"@,
        SyntaxKind::GenericArgList => "GenericArgList"@,
        SyntaxKind::ErrorUnionType => "ErrorUnionType"@,
        SyntaxKind::ErrorSetUnionType => "ErrorSetUnionType"@,
        SyntaxKind::DynType => "DynType"@,
        SyntaxKind::UnitType => "UnitType"@,
        SyntaxKind::FnType => "FnType"@,
        SyntaxKind::FnTypeParams => "FnTypeParams"@,
        SyntaxKind::Error => "Error"@,
    }
}

/// Every kind, in declaration order.
pub open spec fn all_kinds_spec() -> Seq<SyntaxKind> {
    seq![
        SyntaxKind::Whitespace,
        SyntaxKind::Newline,
        SyntaxKind::LineComment,
        SyntaxKind::DocComment,
        SyntaxKind::BlockComment,
        SyntaxKind::IntLit,
        SyntaxKind::FloatLit,
        SyntaxKind::ByteLit,
        SyntaxKind::StrLit,
        SyntaxKind::Ident,
        SyntaxKind::Label,
        SyntaxKind::LParen,
        SyntaxKind::RParen,
        SyntaxKind::LBracket,
        SyntaxKind::RBracket,
        SyntaxKind::LBrace,
        SyntaxKind::RBrace,
        SyntaxKind::Comma,
        SyntaxKind::Semicolon,
        SyntaxKind::Colon,
        SyntaxKind::ColonColon,
        SyntaxKind::Arrow,
        SyntaxKind::FatArrow,
        SyntaxKind::Dot,
        SyntaxKind::DotDot,
        SyntaxKind::DotDotEq,
        SyntaxKind::Plus,
        SyntaxKind::Minus,
        SyntaxKind::Star,
        SyntaxKind::Slash,
        SyntaxKind::Percent,
        SyntaxKind::Amp,
        SyntaxKind::AmpAmp,
        SyntaxKind::Pipe,
        SyntaxKind::PipePipe,
        SyntaxKind::Caret,
        SyntaxKind::Shl,
        SyntaxKind::Shr,
        SyntaxKind::Bang,
        SyntaxKind::Eq,
        SyntaxKind::EqEq,
        SyntaxKind::Ne,
        SyntaxKind::Lt,
        SyntaxKind::Le,
        SyntaxKind::Gt,
        SyntaxKind::Ge,
        SyntaxKind::PlusEq,
        SyntaxKind::MinusEq,
        SyntaxKind::StarEq,
        SyntaxKind::SlashEq,
        SyntaxKind::PercentEq,
        SyntaxKind::Question,
        SyntaxKind::Unknown,
        SyntaxKind::Eof,
        SyntaxKind::KwVal,
        SyntaxKind::KwVar,
        SyntaxKind::KwFn,
        SyntaxKind::KwStruct,
        SyntaxKind::KwEnum,
        SyntaxKind::KwTrait,
        SyntaxKind::KwImpl,
        SyntaxKind::KwLet,
        SyntaxKind::KwInout,
        SyntaxKind::KwSink,
        SyntaxKind::KwMatch,
        SyntaxKind::KwIf,
        SyntaxKind::KwElse,
        SyntaxKind::KwLoop,
        SyntaxKind::KwBreak,
        SyntaxKind::KwContinue,
        SyntaxKind::KwReturn,
        SyntaxKind::KwTry,
        SyntaxKind::KwCatch,
        SyntaxKind::KwErrdefer,
        SyntaxKind::KwError,
        SyntaxKind::KwPanic,
        SyntaxKind::KwMod,
        SyntaxKind::KwUse,
        SyntaxKind::KwPub,
        SyntaxKind::KwScope,
        SyntaxKind::KwSpawn,
        SyntaxKind::KwTrue,
        SyntaxKind::KwFalse,
        SyntaxKind::KwSelf,
        SyntaxKind::KwSelfType,
        SyntaxKind::KwSuper,
        SyntaxKind::KwCrate,
        SyntaxKind::KwAs,
        SyntaxKind::KwIn,
        SyntaxKind::KwIs,
        SyntaxKind::KwSubscript,
        SyntaxKind::KwYield,
        SyntaxKind::SourceFile,
        SyntaxKind::FnDef,
        SyntaxKind::StructDef,
        SyntaxKind::EnumDef,
        SyntaxKind::TraitDef,
        SyntaxKind::ImplBlock,
        SyntaxKind::ModDef,
        SyntaxKind::UseDecl,
        SyntaxKind::ConstDef,
        SyntaxKind::ErrorSetDef,
        SyntaxKind::Visibility,
        SyntaxKind::ParamList,
        SyntaxKind::Param,
        SyntaxKind::SelfParam,
        SyntaxKind::FieldList,
        SyntaxKind::Field,
        SyntaxKind::VariantList,
        SyntaxKind::Variant,
        SyntaxKind::VariantPayload,
        SyntaxKind::GenericParamList,
        SyntaxKind::GenericParam,
        SyntaxKind::TraitBounds,
        SyntaxKind::RetType,
        SyntaxKind::UseTree,
        SyntaxKind::UseGroup,
        SyntaxKind::UseRename,
        SyntaxKind::ErrorVariantList,
        SyntaxKind::ErrorVariant,
        SyntaxKind::AssocItemList,
        SyntaxKind::TraitItemList,
        SyntaxKind::SubscriptDef,
        SyntaxKind::YieldStmt,
        SyntaxKind::LetStmt,
        SyntaxKind::ExprStmt,
        SyntaxKind::ReturnStmt,
        SyntaxKind::BreakStmt,
        SyntaxKind::ContinueStmt,
        SyntaxKind::ErrdeferStmt,
        SyntaxKind::BlockExpr,
        SyntaxKind::LiteralExpr,
        SyntaxKind::PathExpr,
        SyntaxKind::BinExpr,
        SyntaxKind::PrefixExpr,
        SyntaxKind::CallExpr,
        SyntaxKind::MethodCallExpr,
        SyntaxKind::FieldExpr,
        SyntaxKind::IndexExpr,
        SyntaxKind::ParenExpr,
        SyntaxKind::IfExpr,
        SyntaxKind::MatchExpr,
        SyntaxKind::LoopExpr,
        SyntaxKind::ClosureExpr,
        SyntaxKind::StructLitExpr,
        SyntaxKind::CastExpr,
        SyntaxKind::RangeExpr,
        SyntaxKind::TryExpr,
        SyntaxKind::AssignExpr,
        SyntaxKind::CatchExpr,
        SyntaxKind::ScopeExpr,
        SyntaxKind::SpawnExpr,
        SyntaxKind::ListLitExpr,
        SyntaxKind::ArgList,
        SyntaxKind::Path,
        SyntaxKind::PathSegment,
        SyntaxKind::Name,
        SyntaxKind::NameRef,
        SyntaxKind::LoopCondition,
        SyntaxKind::LoopIter,
        SyntaxKind::LoopLabel,
        SyntaxKind::MatchArmList,
        SyntaxKind::MatchArm,
        SyntaxKind::MatchGuard,
        SyntaxKind::ClosureParamList,
        SyntaxKind::ClosureParam,
        SyntaxKind::StructLitFieldList,
        SyntaxKind::StructLitField,
        SyntaxKind::WildcardPat,
        SyntaxKind::LiteralPat,
        SyntaxKind::IdentPat,
        SyntaxKind::TupleStructPat,
        SyntaxKind::StructPat,
        SyntaxKind::PathPat,
        SyntaxKind::OrPat,
        SyntaxKind::RestPat,
        SyntaxKind::RangePat,
        SyntaxKind::StructPatFieldList,
        SyntaxKind::StructPatField,
        SyntaxKind::TuplePatFieldList,
        SyntaxKind::PathType,
        SyntaxKind::SliceType,
        SyntaxKind::GenericArgList,
        SyntaxKind::ErrorUnionType,
        SyntaxKind::ErrorSetUnionType,
        SyntaxKind::DynType,
        SyntaxKind::UnitType,
        SyntaxKind::FnType,
        SyntaxKind::FnTypeParams,
        SyntaxKind::Error,
    ]
}

impl SyntaxKind {
    /// Every variant, for consistency checks and exhaustive iteration.
    pub fn all() -> (r: Vec<SyntaxKind>)
        ensures
            r@ == all_kinds_spec(),
    {
        let r: Vec<SyntaxKind> = vec![
            SyntaxKind::Whitespace,
            SyntaxKind::Newline,
            SyntaxKind::LineComment,
            SyntaxKind::DocComment,
            SyntaxKind::BlockComment,
            SyntaxKind::IntLit,
            SyntaxKind::FloatLit,
            SyntaxKind::ByteLit,
            SyntaxKind::StrLit,
            SyntaxKind::Ident,
            SyntaxKind::Label,
            SyntaxKind::LParen,
            SyntaxKind::RParen,
            SyntaxKind::LBracket,
            SyntaxKind::RBracket,
            SyntaxKind::LBrace,
            SyntaxKind::RBrace,
            SyntaxKind::Comma,
            SyntaxKind::Semicolon,
            SyntaxKind::Colon,
            SyntaxKind::ColonColon,
            SyntaxKind::Arrow,
            SyntaxKind::FatArrow,
            SyntaxKind::Dot,
            SyntaxKind::DotDot,
            SyntaxKind::DotDotEq,
            SyntaxKind::Plus,
            SyntaxKind::Minus,
            SyntaxKind::Star,
            SyntaxKind::Slash,
            SyntaxKind::Percent,
            SyntaxKind::Amp,
            SyntaxKind::AmpAmp,
            SyntaxKind::Pipe,
            SyntaxKind::PipePipe,
            SyntaxKind::Caret,
            SyntaxKind::Shl,
            SyntaxKind::Shr,
            SyntaxKind::Bang,
            SyntaxKind::Eq,
            SyntaxKind::EqEq,
            SyntaxKind::Ne,
            SyntaxKind::Lt,
            SyntaxKind::Le,
            SyntaxKind::Gt,
            SyntaxKind::Ge,
            SyntaxKind::PlusEq,
            SyntaxKind::MinusEq,
            SyntaxKind::StarEq,
            SyntaxKind::SlashEq,
            SyntaxKind::PercentEq,
            SyntaxKind::Question,
            SyntaxKind::Unknown,
            SyntaxKind::Eof,
            SyntaxKind::KwVal,
            SyntaxKind::KwVar,
            SyntaxKind::KwFn,
            SyntaxKind::KwStruct,
            SyntaxKind::KwEnum,
            SyntaxKind::KwTrait,
            SyntaxKind::KwImpl,
            SyntaxKind::KwLet,
            SyntaxKind::KwInout,
            SyntaxKind::KwSink,
            SyntaxKind::KwMatch,
            SyntaxKind::KwIf,
            SyntaxKind::KwElse,
            SyntaxKind::KwLoop,
            SyntaxKind::KwBreak,
            SyntaxKind::KwContinue,
            SyntaxKind::KwReturn,
            SyntaxKind::KwTry,
            SyntaxKind::KwCatch,
            SyntaxKind::KwErrdefer,
            SyntaxKind::KwError,
            SyntaxKind::KwPanic,
            SyntaxKind::KwMod,
            SyntaxKind::KwUse,
            SyntaxKind::KwPub,
            SyntaxKind::KwScope,
            SyntaxKind::KwSpawn,
            SyntaxKind::KwTrue,
            SyntaxKind::KwFalse,
            SyntaxKind::KwSelf,
            SyntaxKind::KwSelfType,
            SyntaxKind::KwSuper,
            SyntaxKind::KwCrate,
            SyntaxKind::KwAs,
            SyntaxKind::KwIn,
            SyntaxKind::KwIs,
            SyntaxKind::KwSubscript,
            SyntaxKind::KwYield,
            SyntaxKind::SourceFile,
            SyntaxKind::FnDef,
            SyntaxKind::StructDef,
            SyntaxKind::EnumDef,
            SyntaxKind::TraitDef,
            SyntaxKind::ImplBlock,
            SyntaxKind::ModDef,
            SyntaxKind::UseDecl,
            SyntaxKind::ConstDef,
            SyntaxKind::ErrorSetDef,
            SyntaxKind::Visibility,
            SyntaxKind::ParamList,
            SyntaxKind::Param,
            SyntaxKind::SelfParam,
            SyntaxKind::FieldList,
            SyntaxKind::Field,
            SyntaxKind::VariantList,
            SyntaxKind::Variant,
            SyntaxKind::VariantPayload,
            SyntaxKind::GenericParamList,
            SyntaxKind::GenericParam,
            SyntaxKind::TraitBounds,
            SyntaxKind::RetType,
            SyntaxKind::UseTree,
            SyntaxKind::UseGroup,
            SyntaxKind::UseRename,
            SyntaxKind::ErrorVariantList,
            SyntaxKind::ErrorVariant,
            SyntaxKind::AssocItemList,
            SyntaxKind::TraitItemList,
            SyntaxKind::SubscriptDef,
            SyntaxKind::YieldStmt,
            SyntaxKind::LetStmt,
            SyntaxKind::ExprStmt,
            SyntaxKind::ReturnStmt,
            SyntaxKind::BreakStmt,
            SyntaxKind::ContinueStmt,
            SyntaxKind::ErrdeferStmt,
            SyntaxKind::BlockExpr,
            SyntaxKind::LiteralExpr,
            SyntaxKind::PathExpr,
            SyntaxKind::BinExpr,
            SyntaxKind::PrefixExpr,
            SyntaxKind::CallExpr,
            SyntaxKind::MethodCallExpr,
            SyntaxKind::FieldExpr,
            SyntaxKind::IndexExpr,
            SyntaxKind::ParenExpr,
            SyntaxKind::IfExpr,
            SyntaxKind::MatchExpr,
            SyntaxKind::LoopExpr,
            SyntaxKind::ClosureExpr,
            SyntaxKind::StructLitExpr,
            SyntaxKind::CastExpr,
            SyntaxKind::RangeExpr,
            SyntaxKind::TryExpr,
            SyntaxKind::AssignExpr,
            SyntaxKind::CatchExpr,
            SyntaxKind::ScopeExpr,
            SyntaxKind::SpawnExpr,
            SyntaxKind::ListLitExpr,
            SyntaxKind::ArgList,
            SyntaxKind::Path,
            SyntaxKind::PathSegment,
            SyntaxKind::Name,
            SyntaxKind::NameRef,
            SyntaxKind::LoopCondition,
            SyntaxKind::LoopIter,
            SyntaxKind::LoopLabel,
            SyntaxKind::MatchArmList,
            SyntaxKind::MatchArm,
            SyntaxKind::MatchGuard,
            SyntaxKind::ClosureParamList,
            SyntaxKind::ClosureParam,
            SyntaxKind::StructLitFieldList,
            SyntaxKind::StructLitField,
            SyntaxKind::WildcardPat,
            SyntaxKind::LiteralPat,
            SyntaxKind::IdentPat,
            SyntaxKind::TupleStructPat,
            SyntaxKind::StructPat,
            SyntaxKind::PathPat,
            SyntaxKind::OrPat,
            SyntaxKind::RestPat,
            SyntaxKind::RangePat,
            SyntaxKind::StructPatFieldList,
            SyntaxKind::StructPatField,
            SyntaxKind::TuplePatFieldList,
            SyntaxKind::PathType,
            SyntaxKind::SliceType,
            SyntaxKind::GenericArgList,
            SyntaxKind::ErrorUnionType,
            SyntaxKind::ErrorSetUnionType,
            SyntaxKind::DynType,
            SyntaxKind::UnitType,
            SyntaxKind::FnType,
            SyntaxKind::FnTypeParams,
            SyntaxKind::Error,
        ];
        r
    }

    /// The canonical display label — the variant's own name.
    pub fn label(self) -> (r: &'static str)
        ensures
            r@ == label_of(self),
    {
        match self {
            SyntaxKind::Whitespace => {
                proof {
                    reveal_strlit("Whitespace");
                }
                "Whitespace"
            },
            SyntaxKind::Newline => {
                proof {
                    reveal_strlit("Newline");
                }
                "Newline"
            },
            SyntaxKind::LineComment => {
                proof {
                    reveal_strlit("LineComment");
                }
                "LineComment"
            },
            SyntaxKind::DocComment => {
                proof {
                    reveal_strlit("DocComment");
                }
                "DocComment"
            },
            SyntaxKind::BlockComment => {
                proof {
                    reveal_strlit("BlockComment");
                }
                "BlockComment"
            },
            SyntaxKind::IntLit => {
                proof {
                    reveal_strlit("IntLit");
                }
                "IntLit"
            },
            SyntaxKind::FloatLit => {
                proof {
                    reveal_strlit("FloatLit");
                }
                "FloatLit"
            },
            SyntaxKind::ByteLit => {
                proof {
                    reveal_strlit("ByteLit");
                }
                "ByteLit"
            },
            SyntaxKind::StrLit => {
                proof {
                    reveal_strlit("StrLit");
                }
                "StrLit"
            },
            SyntaxKind::Ident => {
                proof {
                    reveal_strlit("Ident");
                }
                "Ident"
            },
            SyntaxKind::Label => {
                proof {
                    reveal_strlit("Label");
                }
                "Label"
            },
            SyntaxKind::LParen => {
                proof {
                    reveal_strlit("LParen");
                }
                "LParen"
            },
            SyntaxKind::RParen => {
                proof {
                    reveal_strlit("RParen");
                }
                "RParen"
            },
            SyntaxKind::LBracket => {
                proof {
                    reveal_strlit("LBracket");
                }
                "LBracket"
            },
            SyntaxKind::RBracket => {
                proof {
                    reveal_strlit("RBracket");
                }
                "RBracket"
            },
            SyntaxKind::LBrace => {
                proof {
                    reveal_strlit("LBrace");
                }
                "LBrace"
            },
            SyntaxKind::RBrace => {
                proof {
                    reveal_strlit("RBrace");
                }
                "RBrace"
            },
            SyntaxKind::Comma => {
                proof {
                    reveal_strlit("Comma");
                }
                "Comma"
            },
            SyntaxKind::Semicolon => {
                proof {
                    reveal_strlit("Semicolon");
                }
                "Semicolon"
            },
            SyntaxKind::Colon => {
                proof {
                    reveal_strlit("Colon");
                }
                "Colon"
            },
            SyntaxKind::ColonColon => {
                proof {
                    reveal_strlit("ColonColon");
                }
                "ColonColon"
            },
            SyntaxKind::Arrow => {
                proof {
                    reveal_strlit("Arrow");
                }
                "Arrow"
            },
            SyntaxKind::FatArrow => {
                proof {
                    reveal_strlit("FatArrow");
                }
                "FatArrow"
            },
            SyntaxKind::Dot => {
                proof {
                    reveal_strlit("Dot");
                }
                "Dot"
            },
            SyntaxKind::DotDot => {
                proof {
                    reveal_strlit("DotDot");
                }
                "DotDot"
            },
            SyntaxKind::DotDotEq => {
                proof {
                    reveal_strlit("DotDotEq");
                }
                "DotDotEq"
            },
            SyntaxKind::Plus => {
                proof {
                    reveal_strlit("Plus");
                }
                "Plus"
            },
            SyntaxKind::Minus => {
                proof {
                    reveal_strlit("Minus");
                }
                "Minus"
            },
            SyntaxKind::Star => {
                proof {
                    reveal_strlit("Star");
                }
                "Star"
            },
            SyntaxKind::Slash => {
                proof {
                    reveal_strlit("Slash");
                }
                "Slash"
            },
            SyntaxKind::Percent => {
                proof {
                    reveal_strlit("Percent");
                }
                "Percent"
            },
            SyntaxKind::Amp => {
                proof {
                    reveal_strlit("Amp");
                }
                "Amp"
            },
            SyntaxKind::AmpAmp => {
                proof {
                    reveal_strlit("AmpAmp");
                }
                "AmpAmp"
            },
            SyntaxKind::Pipe => {
                proof {
                    reveal_strlit("Pipe");
                }
                "Pipe"
            },
            SyntaxKind::PipePipe => {
                proof {
                    reveal_strlit("PipePipe");
                }
                "PipePipe"
            },
            SyntaxKind::Caret => {
                proof {
                    reveal_strlit("Caret");
                }
                "Caret"
            },
            SyntaxKind::Shl => {
                proof {
                    reveal_strlit("Shl");
                }
                "Shl"
            },
            SyntaxKind::Shr => {
                proof {
                    reveal_strlit("Shr");
                }
                "Shr"
            },
            SyntaxKind::Bang => {
                proof {
                    reveal_strlit("Bang");
                }
                "Bang"
            },
            SyntaxKind::Eq => {
                proof {
                    reveal_strlit("Eq");
                }
                "Eq"
            },
            SyntaxKind::EqEq => {
                proof {
                    reveal_strlit("EqEq");
                }
                "EqEq"
            },
            SyntaxKind::Ne => {
                proof {
                    reveal_strlit("Ne");
                }
                "Ne"
            },
            SyntaxKind::Lt => {
                proof {
                    reveal_strlit("Lt");
                }
                "Lt"
            },
            SyntaxKind::Le => {
                proof {
                    reveal_strlit("Le");
                }
                "Le"
            },
            SyntaxKind::Gt => {
                proof {
                    reveal_strlit("Gt");
                }
                "Gt"
            },
            SyntaxKind::Ge => {
                proof {
                    reveal_strlit("Ge");
                }
                "Ge"
            },
            SyntaxKind::PlusEq => {
                proof {
                    reveal_strlit("PlusEq");
                }
                "PlusEq"
            },
            SyntaxKind::MinusEq => {
                proof {
                    reveal_strlit("MinusEq");
                }
                "MinusEq"
            },
            SyntaxKind::StarEq => {
                proof {
                    reveal_strlit("StarEq");
                }
                "StarEq"
            },
            SyntaxKind::SlashEq => {
                proof {
                    reveal_strlit("SlashEq");
                }
                "SlashEq"
            },
            SyntaxKind::PercentEq => {
                proof {
                    reveal_strlit("PercentEq");
                }
                "PercentEq"
            },
            SyntaxKind::Question => {
                proof {
                    reveal_strlit("Question");
                }
                "Question"
            },
            SyntaxKind::Unknown => {
                proof {
                    reveal_strlit("Unknown");
                }
                "Unknown"
            },
            SyntaxKind::Eof => {
                proof {
                    reveal_strlit("Eof");
                }
                "Eof"
            },
            SyntaxKind::KwVal => {
                proof {
                    reveal_strlit("KwVal");
                }
                "KwVal"
            },
            SyntaxKind::KwVar => {
                proof {
                    reveal_strlit("KwVar");
                }
                "KwVar"
            },
            SyntaxKind::KwFn => {
                proof {
                    reveal_strlit("KwFn");
                }
                "KwFn"
            },
            SyntaxKind::KwStruct => {
                proof {
                    reveal_strlit("KwStruct");
                }
                "KwStruct"
            },
            SyntaxKind::KwEnum => {
                proof {
                    reveal_strlit("KwEnum");
                }
                "KwEnum"
            },
            SyntaxKind::KwTrait => {
                proof {
                    reveal_strlit("KwTrait");
                }
                "KwTrait"
            },
            SyntaxKind::KwImpl => {
                proof {
                    reveal_strlit("KwImpl");
                }
                "KwImpl"
            },
            SyntaxKind::KwLet => {
                proof {
                    reveal_strlit("KwLet");
                }
                "KwLet"
            },
            SyntaxKind::KwInout => {
                proof {
                    reveal_strlit("KwInout");
                }
                "KwInout"
            },
            SyntaxKind::KwSink => {
                proof {
                    reveal_strlit("KwSink");
                }
                "KwSink"
            },
            SyntaxKind::KwMatch => {
                proof {
                    reveal_strlit("KwMatch");
                }
                "KwMatch"
            },
            SyntaxKind::KwIf => {
                proof {
                    reveal_strlit("KwIf");
                }
                "KwIf"
            },
            SyntaxKind::KwElse => {
                proof {
                    reveal_strlit("KwElse");
                }
                "KwElse"
            },
            SyntaxKind::KwLoop => {
                proof {
                    reveal_strlit("KwLoop");
                }
                "KwLoop"
            },
            SyntaxKind::KwBreak => {
                proof {
                    reveal_strlit("KwBreak");
                }
                "KwBreak"
            },
            SyntaxKind::KwContinue => {
                proof {
                    reveal_strlit("KwContinue");
                }
                "KwContinue"
            },
            SyntaxKind::KwReturn => {
                proof {
                    reveal_strlit("KwReturn");
                }
                "KwReturn"
            },
            SyntaxKind::KwTry => {
                proof {
                    reveal_strlit("KwTry");
                }
                "KwTry"
            },
            SyntaxKind::KwCatch => {
                proof {
                    reveal_strlit("KwCatch");
                }
                "KwCatch"
            },
            SyntaxKind::KwErrdefer => {
                proof {
                    reveal_strlit("KwErrdefer");
                }
                "KwErrdefer"
            },
            SyntaxKind::KwError => {
                proof {
                    reveal_strlit("KwError");
                }
                "KwError"
            },
            SyntaxKind::KwPanic => {
                proof {
                    reveal_strlit("KwPanic");
                }
                "KwPanic"
            },
            SyntaxKind::KwMod => {
                proof {
                    reveal_strlit("KwMod");
                }
                "KwMod"
            },
            SyntaxKind::KwUse => {
                proof {
                    reveal_strlit("KwUse");
                }
                "KwUse"
            },
            SyntaxKind::KwPub => {
                proof {
                    reveal_strlit("KwPub");
                }
                "KwPub"
            },
            SyntaxKind::KwScope => {
                proof {
                    reveal_strlit("KwScope");
                }
                "KwScope"
            },
            SyntaxKind::KwSpawn => {
                proof {
                    reveal_strlit("KwSpawn");
                }
                "KwSpawn"
            },
            SyntaxKind::KwTrue => {
                proof {
                    reveal_strlit("KwTrue");
                }
                "KwTrue"
            },
            SyntaxKind::KwFalse => {
                proof {
                    reveal_strlit("KwFalse");
                }
                "KwFalse"
            },
            SyntaxKind::KwSelf => {
                proof {
                    reveal_strlit("KwSelf");
                }
                "KwSelf"
            },
            SyntaxKind::KwSelfType => {
                proof {
                    reveal_strlit("KwSelfType");
                }
                "KwSelfType"
            },
            SyntaxKind::KwSuper => {
                proof {
                    reveal_strlit("KwSuper");
                }
                "KwSuper"
            },
            SyntaxKind::KwCrate => {
                proof {
                    reveal_strlit("KwCrate");
                }
                "KwCrate"
            },
            SyntaxKind::KwAs => {
                proof {
                    reveal_strlit("KwAs");
                }
                "KwAs"
            },
            SyntaxKind::KwIn => {
                proof {
                    reveal_strlit("KwIn");
                }
                "KwIn"
            },
            SyntaxKind::KwIs => {
                proof {
                    reveal_strlit("KwIs");
                }
                "KwIs"
            },
            SyntaxKind::KwSubscript => {
                proof {
                    reveal_strlit("KwSubscript");
                }
                "KwSubscript"
            },
            SyntaxKind::KwYield => {
                proof {
                    reveal_strlit("KwYield");
                }
                "KwYield"
            },
            SyntaxKind::SourceFile => {
                proof {
                    reveal_strlit("SourceFile");
                }
                "SourceFile"
            },
            SyntaxKind::FnDef => {
                proof {
                    reveal_strlit("FnDef");
                }
                "FnDef"
            },
            SyntaxKind::StructDef => {
                proof {
                    reveal_strlit("StructDef");
                }
                "StructDef"
            },
            SyntaxKind::EnumDef => {
                proof {
                    reveal_strlit("EnumDef");
                }
                "EnumDef"
            },
            SyntaxKind::TraitDef => {
                proof {
                    reveal_strlit("TraitDef");
                }
                "TraitDef"
            },
            SyntaxKind::ImplBlock => {
                proof {
                    reveal_strlit("ImplBlock");
                }
                "ImplBlock"
            },
            SyntaxKind::ModDef => {
                proof {
                    reveal_strlit("ModDef");
                }
                "ModDef"
            },
            SyntaxKind::UseDecl => {
                proof {
                    reveal_strlit("UseDecl");
                }
                "UseDecl"
            },
            SyntaxKind::ConstDef => {
                proof {
                    reveal_strlit("ConstDef");
                }
                "ConstDef"
            },
            SyntaxKind::ErrorSetDef => {
                proof {
                    reveal_strlit("ErrorSetDef");
                }
                "ErrorSetDef"
            },
            SyntaxKind::Visibility => {
                proof {
                    reveal_strlit("Visibility");
                }
                "Visibility"
            },
            SyntaxKind::ParamList => {
                proof {
                    reveal_strlit("ParamList");
                }
                "ParamList"
            },
            SyntaxKind::Param => {
                proof {
                    reveal_strlit("Param");
                }
                "Param"
            },
            SyntaxKind::SelfParam => {
                proof {
                    reveal_strlit("SelfParam");
                }
                "SelfParam"
            },
            SyntaxKind::FieldList => {
                proof {
                    reveal_strlit("FieldList");
                }
                "FieldList"
            },
            SyntaxKind::Field => {
                proof {
                    reveal_strlit("Field");
                }
                "Field"
            },
            SyntaxKind::VariantList => {
                proof {
                    reveal_strlit("VariantList");
                }
                "VariantList"
            },
            SyntaxKind::Variant => {
                proof {
                    reveal_strlit("Variant");
                }
                "Variant"
            },
            SyntaxKind::VariantPayload => {
                proof {
                    reveal_strlit("VariantPayload");
                }
                "VariantPayload"
            },
            SyntaxKind::GenericParamList => {
                proof {
                    reveal_strlit("GenericParamList");
                }
                "GenericParamList"
            },
            SyntaxKind::GenericParam => {
                proof {
                    reveal_strlit("GenericParam");
                }
                "GenericParam"
            },
            SyntaxKind::TraitBounds => {
                proof {
                    reveal_strlit("TraitBounds");
                }
                "TraitBounds"
            },
            SyntaxKind::RetType => {
                proof {
                    reveal_strlit("RetType");
                }
                "RetType"
            },
            SyntaxKind::UseTree => {
                proof {
                    reveal_strlit("UseTree");
                }
                "UseTree"
            },
            SyntaxKind::UseGroup => {
                proof {
                    reveal_strlit("UseGroup");
                }
                "UseGroup"
            },
            SyntaxKind::UseRename => {
                proof {
                    reveal_strlit("UseRename");
                }
                "UseRename"
            },
            SyntaxKind::ErrorVariantList => {
                proof {
                    reveal_strlit("ErrorVariantList");
                }
                "ErrorVariantList"
            },
            SyntaxKind::ErrorVariant => {
                proof {
                    reveal_strlit("ErrorVariant");
                }
                "ErrorVariant"
            },
            SyntaxKind::AssocItemList => {
                proof {
                    reveal_strlit("AssocItemList");
                }
                "AssocItemList"
            },
            SyntaxKind::TraitItemList => {
                proof {
                    reveal_strlit("TraitItemList");
                }
                "TraitItemList"
            },
            SyntaxKind::SubscriptDef => {
                proof {
                    reveal_strlit("SubscriptDef");
                }
                "SubscriptDef"
            },
            SyntaxKind::YieldStmt => {
                proof {
                    reveal_strlit("YieldStmt");
                }
                "YieldStmt"
            },
            SyntaxKind::LetStmt => {
                proof {
                    reveal_strlit("LetStmt");
                }
                "LetStmt"
            },
            SyntaxKind::ExprStmt => {
                proof {
                    reveal_strlit("ExprStmt");
                }
                "ExprStmt"
            },
            SyntaxKind::ReturnStmt => {
                proof {
                    reveal_strlit("ReturnStmt");
                }
                "ReturnStmt"
            },
            SyntaxKind::BreakStmt => {
                proof {
                    reveal_strlit("BreakStmt");
                }
                "BreakStmt"
            },
            SyntaxKind::ContinueStmt => {
                proof {
                    reveal_strlit("ContinueStmt");
                }
                "ContinueStmt"
            },
            SyntaxKind::ErrdeferStmt => {
                proof {
                    reveal_strlit("ErrdeferStmt");
                }
                "ErrdeferStmt"
            },
            SyntaxKind::BlockExpr => {
                proof {
                    reveal_strlit("BlockExpr");
                }
                "BlockExpr"
            },
            SyntaxKind::LiteralExpr => {
                proof {
                    reveal_strlit("LiteralExpr");
                }
                "LiteralExpr"
            },
            SyntaxKind::PathExpr => {
                proof {
                    reveal_strlit("PathExpr");
                }
                "PathExpr"
            },
            SyntaxKind::BinExpr => {
                proof {
                    reveal_strlit("BinExpr");
                }
                "BinExpr"
            },
            SyntaxKind::PrefixExpr => {
                proof {
                    reveal_strlit("PrefixExpr");
                }
                "PrefixExpr"
            },
            SyntaxKind::CallExpr => {
                proof {
                    reveal_strlit("CallExpr");
                }
                "CallExpr"
            },
            SyntaxKind::MethodCallExpr => {
                proof {
                    reveal_strlit("MethodCallExpr");
                }
                "MethodCallExpr"
            },
            SyntaxKind::FieldExpr => {
                proof {
                    reveal_strlit("FieldExpr");
                }
                "FieldExpr"
            },
            SyntaxKind::IndexExpr => {
                proof {
                    reveal_strlit("IndexExpr");
                }
                "IndexExpr"
            },
            SyntaxKind::ParenExpr => {
                proof {
                    reveal_strlit("ParenExpr");
                }
                "ParenExpr"
            },
            SyntaxKind::IfExpr => {
                proof {
                    reveal_strlit("IfExpr");
                }
                "IfExpr"
            },
            SyntaxKind::MatchExpr => {
                proof {
                    reveal_strlit("MatchExpr");
                }
                "MatchExpr"
            },
            SyntaxKind::LoopExpr => {
                proof {
                    reveal_strlit("LoopExpr");
                }
                "LoopExpr"
            },
            SyntaxKind::ClosureExpr => {
                proof {
                    reveal_strlit("ClosureExpr");
                }
                "ClosureExpr"
            },
            SyntaxKind::StructLitExpr => {
                proof {
                    reveal_strlit("StructLitExpr");
                }
                "StructLitExpr"
            },
            SyntaxKind::CastExpr => {
                proof {
                    reveal_strlit("CastExpr");
                }
                "CastExpr"
            },
            SyntaxKind::RangeExpr => {
                proof {
                    reveal_strlit("RangeExpr");
                }
                "RangeExpr"
            },
            SyntaxKind::TryExpr => {
                proof {
                    reveal_strlit("TryExpr");
                }
                "TryExpr"
            },
            SyntaxKind::AssignExpr => {
                proof {
                    reveal_strlit("AssignExpr");
                }
                "AssignExpr"
            },
            SyntaxKind::CatchExpr => {
                proof {
                    reveal_strlit("CatchExpr");
                }
                "CatchExpr"
            },
            SyntaxKind::ScopeExpr => {
                proof {
                    reveal_strlit("ScopeExpr");
                }
                "ScopeExpr"
            },
            SyntaxKind::SpawnExpr => {
                proof {
                    reveal_strlit("SpawnExpr");
                }
                "SpawnExpr"
            },
            SyntaxKind::ListLitExpr => {
                proof {
                    reveal_strlit("ListLitExpr");
                }
                "ListLitExpr"
            },
            SyntaxKind::ArgList => {
                proof {
                    reveal_strlit("ArgList");
                }
                "ArgList"
            },
            SyntaxKind::Path => {
                proof {
                    reveal_strlit("Path");
                }
                "Path"
            },
            SyntaxKind::PathSegment => {
                proof {
                    reveal_strlit("PathSegment");
                }
                "PathSegment"
            },
            SyntaxKind::Name => {
                proof {
                    reveal_strlit("Name");
                }
                "Name"
            },
            SyntaxKind::NameRef => {
                proof {
                    reveal_strlit("NameRef");
                }
                "NameRef"
            },
            SyntaxKind::LoopCondition => {
                proof {
                    reveal_strlit("LoopCondition");
                }
                "LoopCondition"
            },
            SyntaxKind::LoopIter => {
                proof {
                    reveal_strlit("LoopIter");
                }
                "LoopIter"
            },
            SyntaxKind::LoopLabel => {
                proof {
                    reveal_strlit("LoopLabel");
                }
                "LoopLabel"
            },
            SyntaxKind::MatchArmList => {
                proof {
                    reveal_strlit("MatchArmList");
                }
                "MatchArmList"
            },
            SyntaxKind::MatchArm => {
                proof {
                    reveal_strlit("MatchArm");
                }
                "MatchArm"
            },
            SyntaxKind::MatchGuard => {
                proof {
                    reveal_strlit("MatchGuard");
                }
                "MatchGuard"
            },
            SyntaxKind::ClosureParamList => {
                proof {
                    reveal_strlit("ClosureParamList");
                }
                "ClosureParamList"
            },
            SyntaxKind::ClosureParam => {
                proof {
                    reveal_strlit("ClosureParam");
                }
                "ClosureParam"
            },
            SyntaxKind::StructLitFieldList => {
                proof {
                    reveal_strlit("StructLitFieldList");
                }
                "StructLitFieldList"
            },
            SyntaxKind::StructLitField => {
                proof {
                    reveal_strlit("StructLitField");
                }
                "StructLitField"
            },
            SyntaxKind::WildcardPat => {
                proof {
                    reveal_strlit("WildcardPat");
                }
                "WildcardPat"
            },
            SyntaxKind::LiteralPat => {
                proof {
                    reveal_strlit("LiteralPat");
                }
                "LiteralPat"
            },
            SyntaxKind::IdentPat => {
                proof {
                    reveal_strlit("IdentPat");
                }
                "IdentPat"
            },
            SyntaxKind::TupleStructPat => {
                proof {
                    reveal_strlit("TupleStructPat");
                }
                "TupleStructPat"
            },
            SyntaxKind::StructPat => {
                proof {
                    reveal_strlit("StructPat");
                }
                "StructPat"
            },
            SyntaxKind::PathPat => {
                proof {
                    reveal_strlit("PathPat");
                }
                "PathPat"
            },
            SyntaxKind::OrPat => {
                proof {
                    reveal_strlit("OrPat");
                }
                "OrPat"
            },
            SyntaxKind::RestPat => {
                proof {
                    reveal_strlit("RestPat");
                }
                "RestPat"
            },
            SyntaxKind::RangePat => {
                proof {
                    reveal_strlit("RangePat");
                }
                "RangePat"
            },
            SyntaxKind::StructPatFieldList => {
                proof {
                    reveal_strlit("StructPatFieldList");
                }
                "StructPatFieldList"
            },
            SyntaxKind::StructPatField => {
                proof {
                    reveal_strlit("StructPatField");
                }
                "StructPatField"
            },
            SyntaxKind::TuplePatFieldList => {
                proof {
                    reveal_strlit("TuplePatFieldList");
                }
                "TuplePatFieldList"
            },
            SyntaxKind::PathType => {
                proof {
                    reveal_strlit("PathType");
                }
                "PathType"
            },
            SyntaxKind::SliceType => {
                proof {
                    reveal_strlit("SliceType");
                }
                "SliceType"
            },
            SyntaxKind::GenericArgList => {
                proof {
                    reveal_strlit("GenericArgList");
                }
                "GenericArgList"
            },
            SyntaxKind::ErrorUnionType => {
                proof {
                    reveal_strlit("ErrorUnionType");
                }
                "ErrorUnionType"
            },
            SyntaxKind::ErrorSetUnionType => {
                proof {
                    reveal_strlit("ErrorSetUnionType");
                }
                "ErrorSetUnionType"
            },
            SyntaxKind::DynType => {
                proof {
                    reveal_strlit("DynType");
                }
                "DynType"
            },
            SyntaxKind::UnitType => {
                proof {
                    reveal_strlit("UnitType");
                }
                "UnitType"
            },
            SyntaxKind::FnType => {
                proof {
                    reveal_strlit("FnType");
                }
                "FnType"
            },
            SyntaxKind::FnTypeParams => {
                proof {
                    reveal_strlit("FnTypeParams");
                }
                "FnTypeParams"
            },
            SyntaxKind::Error => {
                proof {
                    reveal_strlit("Error");
                }
                "Error"
            },
        }
    }

    /// Whitespace / newline / comments.
    pub fn is_trivia(self) -> (r: bool)
        ensures
            r == is_trivia_kind(self),
    {
        match self {
            SyntaxKind::Whitespace
            | SyntaxKind::Newline
            | SyntaxKind::LineComment
            | SyntaxKind::DocComment
            | SyntaxKind::BlockComment => true,
            _ => false,
        }
    }

    /// A reserved keyword token. Used to allow keywords in member-name position.
    pub fn is_keyword(self) -> (r: bool)
        ensures
            r == is_keyword_kind(self),
            r ==> is_token_kind(self),
    {
        match self {
            SyntaxKind::KwVal
            | SyntaxKind::KwVar
            | SyntaxKind::KwFn
            | SyntaxKind::KwStruct
            | SyntaxKind::KwEnum
            | SyntaxKind::KwTrait
            | SyntaxKind::KwImpl
            | SyntaxKind::KwLet
            | SyntaxKind::KwInout
            | SyntaxKind::KwSink
            | SyntaxKind::KwMatch
            | SyntaxKind::KwIf
            | SyntaxKind::KwElse
            | SyntaxKind::KwLoop
            | SyntaxKind::KwBreak
            | SyntaxKind::KwContinue
            | SyntaxKind::KwReturn
            | SyntaxKind::KwTry
            | SyntaxKind::KwCatch
            | SyntaxKind::KwErrdefer
            | SyntaxKind::KwError
            | SyntaxKind::KwPanic
            | SyntaxKind::KwMod
            | SyntaxKind::KwUse
            | SyntaxKind::KwPub
            | SyntaxKind::KwScope
            | SyntaxKind::KwSpawn
            | SyntaxKind::KwTrue
            | SyntaxKind::KwFalse
            | SyntaxKind::KwSelf
            | SyntaxKind::KwSelfType
            | SyntaxKind::KwSuper
            | SyntaxKind::KwCrate
            | SyntaxKind::KwAs
            | SyntaxKind::KwIn
            | SyntaxKind::KwIs
            | SyntaxKind::KwSubscript
            | SyntaxKind::KwYield => true,
            _ => false,
        }
    }

    /// True for any leaf kind (trivia, keyword, or other token), false for
    /// interior node kinds.
    pub fn is_token(self) -> (r: bool)
        ensures
            r == is_token_kind(self),
            is_trivia_kind(self) ==> r,
    {
        match self {
            SyntaxKind::Whitespace
            | SyntaxKind::Newline
            | SyntaxKind::LineComment
            | SyntaxKind::DocComment
            | SyntaxKind::BlockComment
            | SyntaxKind::IntLit
            | SyntaxKind::FloatLit
            | SyntaxKind::ByteLit
            | SyntaxKind::StrLit
            | SyntaxKind::Ident
            | SyntaxKind::Label
            | SyntaxKind::LParen
            | SyntaxKind::RParen
            | SyntaxKind::LBracket
            | SyntaxKind::RBracket
            | SyntaxKind::LBrace
            | SyntaxKind::RBrace
            | SyntaxKind::Comma
            | SyntaxKind::Semicolon
            | SyntaxKind::Colon
            | SyntaxKind::ColonColon
            | SyntaxKind::Arrow
            | SyntaxKind::FatArrow
            | SyntaxKind::Dot
            | SyntaxKind::DotDot
            | SyntaxKind::DotDotEq
            | SyntaxKind::Plus
            | SyntaxKind::Minus
            | SyntaxKind::Star
            | SyntaxKind::Slash
            | SyntaxKind::Percent
            | SyntaxKind::Amp
            | SyntaxKind::AmpAmp
            | SyntaxKind::Pipe
            | SyntaxKind::PipePipe
            | SyntaxKind::Caret
            | SyntaxKind::Shl
            | SyntaxKind::Shr
            | SyntaxKind::Bang
            | SyntaxKind::Eq
            | SyntaxKind::EqEq
            | SyntaxKind::Ne
            | SyntaxKind::Lt
            | SyntaxKind::Le
            | SyntaxKind::Gt
            | SyntaxKind::Ge
            | SyntaxKind::PlusEq
            | SyntaxKind::MinusEq
            | SyntaxKind::StarEq
            | SyntaxKind::SlashEq
            | SyntaxKind::PercentEq
            | SyntaxKind::Question
            | SyntaxKind::Unknown
            | SyntaxKind::Eof
            | SyntaxKind::KwVal
            | SyntaxKind::KwVar
            | SyntaxKind::KwFn
            | SyntaxKind::KwStruct
            | SyntaxKind::KwEnum
            | SyntaxKind::KwTrait
            | SyntaxKind::KwImpl
            | SyntaxKind::KwLet
            | SyntaxKind::KwInout
            | SyntaxKind::KwSink
            | SyntaxKind::KwMatch
            | SyntaxKind::KwIf
            | SyntaxKind::KwElse
            | SyntaxKind::KwLoop
            | SyntaxKind::KwBreak
            | SyntaxKind::KwContinue
            | SyntaxKind::KwReturn
            | SyntaxKind::KwTry
            | SyntaxKind::KwCatch
            | SyntaxKind::KwErrdefer
            | SyntaxKind::KwError
            | SyntaxKind::KwPanic
            | SyntaxKind::KwMod
            | SyntaxKind::KwUse
            | SyntaxKind::KwPub
            | SyntaxKind::KwScope
            | SyntaxKind::KwSpawn
            | SyntaxKind::KwTrue
            | SyntaxKind::KwFalse
            | SyntaxKind::KwSelf
            | SyntaxKind::KwSelfType
            | SyntaxKind::KwSuper
            | SyntaxKind::KwCrate
            | SyntaxKind::KwAs
            | SyntaxKind::KwIn
            | SyntaxKind::KwIs
            | SyntaxKind::KwSubscript
            | SyntaxKind::KwYield => true,
            _ => false,
        }
    }

    /// True for interior node kinds.
    pub fn is_node(self) -> (r: bool)
        ensures
            r == !is_token_kind(self),
    {
        !self.is_token()
    }
}

} // verus!
