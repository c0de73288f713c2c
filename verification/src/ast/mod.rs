//! Typed AST views over the lossless tree.
//!
//! Each struct is a thin wrapper over `SyntaxNode`, with no data of its own.
//! `AstNode` is the common interface; each view adds accessor methods that
//! navigate to immediate children by kind, skipping trivia.
//!
//! The compiler consumes this layer and never sees trivia; the formatter
//! consumes the raw red tree and sees everything.
//!
//! The views are grouped into submodules by family (items, statements,
//! expressions, patterns, types, ...) and re-exported here. This module owns
//! the `AstNode` trait, the shared navigation helpers, and the cross-family
//! kind classifiers (`is_pat` / `is_type_kind` / `is_expr_kind`).

mod expr;
mod expr_flow;
mod expr_part;
mod item;
mod item_part;
mod name;
mod pattern;
mod stmt;
mod ty;

pub use expr::{
    BlockExpr, LiteralExpr, PathExpr, BinExpr, PrefixExpr, CallExpr, MethodCallExpr, FieldExpr,
    IndexExpr, ParenExpr,
};
pub use expr_flow::{
    IfExpr, MatchExpr, LoopExpr, ClosureExpr, StructLitExpr, CastExpr, RangeExpr, TryExpr,
    AssignExpr, CatchExpr, ScopeExpr, SpawnExpr, ListLitExpr, ArgList,
};
pub use expr_part::{
    LoopCondition, LoopIter, LoopLabel, MatchArmList, MatchArm, MatchGuard, ClosureParamList,
    ClosureParam, StructLitFieldList, StructLitField,
};
pub use item::{
    SourceFile, FnDef, StructDef, EnumDef, TraitDef, ImplBlock, ModDef, UseDecl, ConstDef,
    ErrorSetDef, SubscriptDef,
};
pub use item_part::{
    Visibility, ParamList, Param, SelfParam, FieldList, Field, VariantList, Variant, VariantPayload,
    GenericParamList, GenericParam, TraitBounds, RetType, UseTree, UseGroup, UseRename,
    ErrorVariantList, ErrorVariant, AssocItemList, TraitItemList,
};
pub use name::{Path, PathSegment, Name, NameRef};
pub use pattern::{
    WildcardPat, LiteralPat, IdentPat, TupleStructPat, StructPat, PathPat, OrPat, RestPat, RangePat,
    StructPatFieldList, StructPatField, TuplePatFieldList,
};
pub use stmt::{LetStmt, ExprStmt, ReturnStmt, BreakStmt, ContinueStmt, ErrdeferStmt, YieldStmt};
pub use ty::{
    PathType, GenericArgList, ErrorUnionType, ErrorSetUnionType, DynType, UnitType, FnType,
    FnTypeParams, SliceType,
};

use crate::syntax::{elems_of, nodes_of, SyntaxElement, SyntaxNode, SyntaxToken};
use crate::syntax_kind::{is_token_kind, is_trivia_kind, SyntaxKind};
use vstd::prelude::*;

verus! {

// ── the trait ───────────────────────────────────────────────────────────────

/// The common interface for every typed AST view.
pub trait AstNode: Sized {
    /// Whether a node of `kind` can be viewed as `Self`.
    spec fn accepts(kind: SyntaxKind) -> bool;

    /// The node this view wraps.
    spec fn node_of(&self) -> SyntaxNode;

    /// Whether a `SyntaxNode` of this `kind` can be wrapped as `Self`.
    fn can_cast(kind: SyntaxKind) -> (r: bool)
        ensures
            r == Self::accepts(kind),
    ;

    /// Wrap `node` as `Self`, returning `None` if the kind does not match.
    fn cast(node: SyntaxNode) -> (r: Option<Self>)
        ensures
            (r is Some) == Self::accepts(node.kind_of()),
            r matches Some(v) ==> v.node_of() == node,
    ;

    /// The underlying red-tree node.
    fn syntax(&self) -> (r: &SyntaxNode)
        ensures
            *r == self.node_of(),
    ;
}

// ── the model of navigation ─────────────────────────────────────────────────

/// The node a view wraps, if any.
pub open spec fn view_opt<N: AstNode>(r: Option<N>) -> Option<SyntaxNode> {
    match r {
        Some(v) => Some(v.node_of()),
        None => None,
    }
}

/// The nodes a run of views wraps.
pub open spec fn views_of<N: AstNode>(r: Seq<N>) -> Seq<SyntaxNode> {
    r.map_values(|v: N| v.node_of())
}

/// The first of a run, if any.
pub open spec fn first_of<T>(s: Seq<T>) -> Option<T> {
    if s.len() > 0 {
        Some(s[0])
    } else {
        None
    }
}

/// The `n`-th of a run, if any.
pub open spec fn nth_of<T>(s: Seq<T>, n: int) -> Option<T> {
    if 0 <= n < s.len() {
        Some(s[n])
    } else {
        None
    }
}

/// The nodes of a run that `N` accepts, in order.
pub open spec fn filter_accepted<N: AstNode>(ns: Seq<SyntaxNode>) -> Seq<SyntaxNode>
    decreases ns.len(),
{
    if ns.len() == 0 {
        Seq::empty()
    } else if N::accepts(ns.last().kind_of()) {
        filter_accepted::<N>(ns.drop_last()).push(ns.last())
    } else {
        filter_accepted::<N>(ns.drop_last())
    }
}

/// Families of node kinds the views navigate by.
#[derive(Clone, Copy, PartialEq, Eq, Structural)]
pub enum Family {
    Pat,
    Type,
    Expr,
    Stmt,
    NotError,
}

/// Whether `k` belongs to family `f`.
pub open spec fn in_family(f: Family, k: SyntaxKind) -> bool {
    match f {
        Family::Pat => is_pat_kind(k),
        Family::Type => is_type_kind_spec(k),
        Family::Expr => is_expr_kind_spec(k),
        Family::Stmt => k == SyntaxKind::LetStmt || k == SyntaxKind::ExprStmt || k
            == SyntaxKind::ErrdeferStmt || k == SyntaxKind::YieldStmt || k == SyntaxKind::Error,
        Family::NotError => k != SyntaxKind::Error,
    }
}

/// The nodes of a run in family `f`, in order.
pub open spec fn filter_family(ns: Seq<SyntaxNode>, f: Family) -> Seq<SyntaxNode>
    decreases ns.len(),
{
    if ns.len() == 0 {
        Seq::empty()
    } else if in_family(f, ns.last().kind_of()) {
        filter_family(ns.drop_last(), f).push(ns.last())
    } else {
        filter_family(ns.drop_last(), f)
    }
}

/// Classes of tokens the views look for.
#[derive(Clone, Copy, PartialEq, Eq, Structural)]
pub enum TokenClass {
    /// Exactly this kind, never trivia.
    Is(SyntaxKind),
    /// Anything but trivia.
    NonTrivia,
    /// A binary operator.
    BinOp,
    /// An assignment operator.
    AssignOp,
    /// A prefix operator.
    PrefixOp,
    /// A literal that can bound a range pattern.
    RangeLiteral,
}

/// Whether a token of kind `k` is in class `c`.
pub open spec fn in_class(c: TokenClass, k: SyntaxKind) -> bool {
    match c {
        TokenClass::Is(want) => k == want && !is_trivia_kind(k),
        TokenClass::NonTrivia => !is_trivia_kind(k),
        TokenClass::BinOp => is_bin_op_kind(k),
        TokenClass::AssignOp => is_assign_op_kind(k),
        TokenClass::PrefixOp => k == SyntaxKind::Minus || k == SyntaxKind::Bang,
        TokenClass::RangeLiteral => k == SyntaxKind::IntLit || k == SyntaxKind::FloatLit || k
            == SyntaxKind::ByteLit || k == SyntaxKind::StrLit || k == SyntaxKind::KwTrue || k
            == SyntaxKind::KwFalse,
    }
}

/// The token children of a run in class `c`, in order.
pub open spec fn filter_class(es: Seq<SyntaxElement>, c: TokenClass) -> Seq<SyntaxToken>
    decreases es.len(),
{
    if es.len() == 0 {
        Seq::empty()
    } else {
        match es.last() {
            SyntaxElement::Token(t) => if in_class(c, t.kind_of()) {
                filter_class(es.drop_last(), c).push(t)
            } else {
                filter_class(es.drop_last(), c)
            },
            SyntaxElement::Node(_) => filter_class(es.drop_last(), c),
        }
    }
}

/// The child nodes of `parent` that `N` accepts.
pub open spec fn accepted_children<N: AstNode>(parent: SyntaxNode) -> Seq<SyntaxNode> {
    filter_accepted::<N>(nodes_of(parent))
}

/// The child nodes of `parent` in family `f`.
pub open spec fn family_children(parent: SyntaxNode, f: Family) -> Seq<SyntaxNode> {
    filter_family(nodes_of(parent), f)
}

/// The token children of `parent` in class `c`.
pub open spec fn class_tokens(parent: SyntaxNode, c: TokenClass) -> Seq<SyntaxToken> {
    filter_class(elems_of(parent), c)
}

// ── kind classifiers ────────────────────────────────────────────────────────

/// The pattern kinds.
pub open spec fn is_pat_kind(kind: SyntaxKind) -> bool {
    ||| kind == SyntaxKind::WildcardPat
    ||| kind == SyntaxKind::LiteralPat
    ||| kind == SyntaxKind::IdentPat
    ||| kind == SyntaxKind::TupleStructPat
    ||| kind == SyntaxKind::StructPat
    ||| kind == SyntaxKind::PathPat
    ||| kind == SyntaxKind::OrPat
    ||| kind == SyntaxKind::RestPat
    ||| kind == SyntaxKind::RangePat
}

/// The type kinds (an `Error` node stands where a type failed to parse).
pub open spec fn is_type_kind_spec(kind: SyntaxKind) -> bool {
    ||| kind == SyntaxKind::PathType
    ||| kind == SyntaxKind::ErrorUnionType
    ||| kind == SyntaxKind::ErrorSetUnionType
    ||| kind == SyntaxKind::UnitType
    ||| kind == SyntaxKind::Error
}

/// The expression kinds (jumps included: they are expressions).
pub open spec fn is_expr_kind_spec(kind: SyntaxKind) -> bool {
    ||| kind == SyntaxKind::BlockExpr
    ||| kind == SyntaxKind::LiteralExpr
    ||| kind == SyntaxKind::PathExpr
    ||| kind == SyntaxKind::BinExpr
    ||| kind == SyntaxKind::PrefixExpr
    ||| kind == SyntaxKind::CallExpr
    ||| kind == SyntaxKind::MethodCallExpr
    ||| kind == SyntaxKind::FieldExpr
    ||| kind == SyntaxKind::IndexExpr
    ||| kind == SyntaxKind::ParenExpr
    ||| kind == SyntaxKind::IfExpr
    ||| kind == SyntaxKind::MatchExpr
    ||| kind == SyntaxKind::LoopExpr
    ||| kind == SyntaxKind::ClosureExpr
    ||| kind == SyntaxKind::StructLitExpr
    ||| kind == SyntaxKind::CastExpr
    ||| kind == SyntaxKind::RangeExpr
    ||| kind == SyntaxKind::TryExpr
    ||| kind == SyntaxKind::AssignExpr
    ||| kind == SyntaxKind::CatchExpr
    ||| kind == SyntaxKind::ScopeExpr
    ||| kind == SyntaxKind::SpawnExpr
    ||| kind == SyntaxKind::ListLitExpr
    ||| kind == SyntaxKind::ReturnStmt
    ||| kind == SyntaxKind::BreakStmt
    ||| kind == SyntaxKind::ContinueStmt
    ||| kind == SyntaxKind::YieldStmt
}

/// The binary operator tokens.
pub open spec fn is_bin_op_kind(kind: SyntaxKind) -> bool {
    ||| kind == SyntaxKind::Plus
    ||| kind == SyntaxKind::Minus
    ||| kind == SyntaxKind::Star
    ||| kind == SyntaxKind::Slash
    ||| kind == SyntaxKind::Percent
    ||| kind == SyntaxKind::Amp
    ||| kind == SyntaxKind::AmpAmp
    ||| kind == SyntaxKind::Pipe
    ||| kind == SyntaxKind::PipePipe
    ||| kind == SyntaxKind::Caret
    ||| kind == SyntaxKind::Shl
    ||| kind == SyntaxKind::Shr
    ||| kind == SyntaxKind::EqEq
    ||| kind == SyntaxKind::Ne
    ||| kind == SyntaxKind::Lt
    ||| kind == SyntaxKind::Le
    ||| kind == SyntaxKind::Gt
    ||| kind == SyntaxKind::Ge
}

/// The assignment operator tokens.
pub open spec fn is_assign_op_kind(kind: SyntaxKind) -> bool {
    ||| kind == SyntaxKind::Eq
    ||| kind == SyntaxKind::PlusEq
    ||| kind == SyntaxKind::MinusEq
    ||| kind == SyntaxKind::StarEq
    ||| kind == SyntaxKind::SlashEq
    ||| kind == SyntaxKind::PercentEq
}

/// Whether `kind` is a pattern kind.
pub fn is_pat(kind: SyntaxKind) -> (r: bool)
    ensures
        r == is_pat_kind(kind),
{
    match kind {
        SyntaxKind::WildcardPat | SyntaxKind::LiteralPat | SyntaxKind::IdentPat
        | SyntaxKind::TupleStructPat | SyntaxKind::StructPat | SyntaxKind::PathPat
        | SyntaxKind::OrPat | SyntaxKind::RestPat | SyntaxKind::RangePat => true,
        _ => false,
    }
}

/// Whether `kind` is a type kind.
pub fn is_type_kind(kind: SyntaxKind) -> (r: bool)
    ensures
        r == is_type_kind_spec(kind),
{
    match kind {
        SyntaxKind::PathType | SyntaxKind::ErrorUnionType | SyntaxKind::ErrorSetUnionType
        | SyntaxKind::UnitType | SyntaxKind::Error => true,
        _ => false,
    }
}

/// Whether `kind` is an expression kind.
pub fn is_expr_kind(kind: SyntaxKind) -> (r: bool)
    ensures
        r == is_expr_kind_spec(kind),
{
    match kind {
        SyntaxKind::BlockExpr | SyntaxKind::LiteralExpr | SyntaxKind::PathExpr
        | SyntaxKind::BinExpr | SyntaxKind::PrefixExpr | SyntaxKind::CallExpr
        | SyntaxKind::MethodCallExpr | SyntaxKind::FieldExpr | SyntaxKind::IndexExpr
        | SyntaxKind::ParenExpr | SyntaxKind::IfExpr | SyntaxKind::MatchExpr
        | SyntaxKind::LoopExpr | SyntaxKind::ClosureExpr | SyntaxKind::StructLitExpr
        | SyntaxKind::CastExpr | SyntaxKind::RangeExpr | SyntaxKind::TryExpr
        | SyntaxKind::AssignExpr | SyntaxKind::CatchExpr | SyntaxKind::ScopeExpr
        | SyntaxKind::SpawnExpr | SyntaxKind::ListLitExpr | SyntaxKind::ReturnStmt
        | SyntaxKind::BreakStmt | SyntaxKind::ContinueStmt | SyntaxKind::YieldStmt => true,
        _ => false,
    }
}

/// Whether `kind` is in family `f`.
fn family_has(f: Family, kind: SyntaxKind) -> (r: bool)
    ensures
        r == in_family(f, kind),
{
    match f {
        Family::Pat => is_pat(kind),
        Family::Type => is_type_kind(kind),
        Family::Expr => is_expr_kind(kind),
        Family::Stmt => match kind {
            SyntaxKind::LetStmt | SyntaxKind::ExprStmt | SyntaxKind::ErrdeferStmt
            | SyntaxKind::YieldStmt | SyntaxKind::Error => true,
            _ => false,
        },
        Family::NotError => kind != SyntaxKind::Error,
    }
}

/// Whether `kind` is a binary operator token.
fn is_bin_op(kind: SyntaxKind) -> (r: bool)
    ensures
        r == is_bin_op_kind(kind),
{
    match kind {
        SyntaxKind::Plus | SyntaxKind::Minus | SyntaxKind::Star | SyntaxKind::Slash
        | SyntaxKind::Percent | SyntaxKind::Amp | SyntaxKind::AmpAmp | SyntaxKind::Pipe
        | SyntaxKind::PipePipe | SyntaxKind::Caret | SyntaxKind::Shl | SyntaxKind::Shr
        | SyntaxKind::EqEq | SyntaxKind::Ne | SyntaxKind::Lt | SyntaxKind::Le | SyntaxKind::Gt
        | SyntaxKind::Ge => true,
        _ => false,
    }
}

/// Whether `kind` is an assignment operator token.
fn is_assign_op(kind: SyntaxKind) -> (r: bool)
    ensures
        r == is_assign_op_kind(kind),
{
    match kind {
        SyntaxKind::Eq | SyntaxKind::PlusEq | SyntaxKind::MinusEq | SyntaxKind::StarEq
        | SyntaxKind::SlashEq | SyntaxKind::PercentEq => true,
        _ => false,
    }
}

/// Whether `kind` is a literal that can bound a range pattern.
fn is_range_pat_literal(kind: SyntaxKind) -> (r: bool)
    ensures
        r == in_class(TokenClass::RangeLiteral, kind),
{
    match kind {
        SyntaxKind::IntLit | SyntaxKind::FloatLit | SyntaxKind::ByteLit | SyntaxKind::StrLit
        | SyntaxKind::KwTrue | SyntaxKind::KwFalse => true,
        _ => false,
    }
}

/// Whether a token of `kind` is in class `c`.
fn class_has(c: TokenClass, kind: SyntaxKind) -> (r: bool)
    ensures
        r == in_class(c, kind),
{
    match c {
        TokenClass::Is(want) => kind == want && !kind.is_trivia(),
        TokenClass::NonTrivia => !kind.is_trivia(),
        TokenClass::BinOp => is_bin_op(kind),
        TokenClass::AssignOp => is_assign_op(kind),
        TokenClass::PrefixOp => kind == SyntaxKind::Minus || kind == SyntaxKind::Bang,
        TokenClass::RangeLiteral => is_range_pat_literal(kind),
    }
}

// ── coverage of the node kinds ──────────────────────────────────────────────

/// Whether some typed view accepts nodes of kind `k`.
pub open spec fn has_view(k: SyntaxKind) -> bool {
    ||| SourceFile::accepts(k)
    ||| FnDef::accepts(k)
    ||| StructDef::accepts(k)
    ||| EnumDef::accepts(k)
    ||| TraitDef::accepts(k)
    ||| ImplBlock::accepts(k)
    ||| ModDef::accepts(k)
    ||| UseDecl::accepts(k)
    ||| ConstDef::accepts(k)
    ||| ErrorSetDef::accepts(k)
    ||| SubscriptDef::accepts(k)
    ||| Visibility::accepts(k)
    ||| ParamList::accepts(k)
    ||| Param::accepts(k)
    ||| SelfParam::accepts(k)
    ||| FieldList::accepts(k)
    ||| Field::accepts(k)
    ||| VariantList::accepts(k)
    ||| Variant::accepts(k)
    ||| VariantPayload::accepts(k)
    ||| GenericParamList::accepts(k)
    ||| GenericParam::accepts(k)
    ||| TraitBounds::accepts(k)
    ||| RetType::accepts(k)
    ||| UseTree::accepts(k)
    ||| UseGroup::accepts(k)
    ||| UseRename::accepts(k)
    ||| ErrorVariantList::accepts(k)
    ||| ErrorVariant::accepts(k)
    ||| AssocItemList::accepts(k)
    ||| TraitItemList::accepts(k)
    ||| LetStmt::accepts(k)
    ||| ExprStmt::accepts(k)
    ||| ReturnStmt::accepts(k)
    ||| BreakStmt::accepts(k)
    ||| ContinueStmt::accepts(k)
    ||| ErrdeferStmt::accepts(k)
    ||| YieldStmt::accepts(k)
    ||| BlockExpr::accepts(k)
    ||| LiteralExpr::accepts(k)
    ||| PathExpr::accepts(k)
    ||| BinExpr::accepts(k)
    ||| PrefixExpr::accepts(k)
    ||| CallExpr::accepts(k)
    ||| MethodCallExpr::accepts(k)
    ||| FieldExpr::accepts(k)
    ||| IndexExpr::accepts(k)
    ||| ParenExpr::accepts(k)
    ||| IfExpr::accepts(k)
    ||| MatchExpr::accepts(k)
    ||| LoopExpr::accepts(k)
    ||| ClosureExpr::accepts(k)
    ||| StructLitExpr::accepts(k)
    ||| CastExpr::accepts(k)
    ||| RangeExpr::accepts(k)
    ||| TryExpr::accepts(k)
    ||| AssignExpr::accepts(k)
    ||| CatchExpr::accepts(k)
    ||| ScopeExpr::accepts(k)
    ||| SpawnExpr::accepts(k)
    ||| ListLitExpr::accepts(k)
    ||| ArgList::accepts(k)
    ||| Path::accepts(k)
    ||| PathSegment::accepts(k)
    ||| Name::accepts(k)
    ||| NameRef::accepts(k)
    ||| LoopCondition::accepts(k)
    ||| LoopIter::accepts(k)
    ||| LoopLabel::accepts(k)
    ||| MatchArmList::accepts(k)
    ||| MatchArm::accepts(k)
    ||| MatchGuard::accepts(k)
    ||| ClosureParamList::accepts(k)
    ||| ClosureParam::accepts(k)
    ||| StructLitFieldList::accepts(k)
    ||| StructLitField::accepts(k)
    ||| WildcardPat::accepts(k)
    ||| LiteralPat::accepts(k)
    ||| IdentPat::accepts(k)
    ||| TupleStructPat::accepts(k)
    ||| StructPat::accepts(k)
    ||| PathPat::accepts(k)
    ||| OrPat::accepts(k)
    ||| RestPat::accepts(k)
    ||| RangePat::accepts(k)
    ||| StructPatFieldList::accepts(k)
    ||| StructPatField::accepts(k)
    ||| TuplePatFieldList::accepts(k)
    ||| PathType::accepts(k)
    ||| GenericArgList::accepts(k)
    ||| ErrorUnionType::accepts(k)
    ||| ErrorSetUnionType::accepts(k)
    ||| DynType::accepts(k)
    ||| UnitType::accepts(k)
    ||| FnType::accepts(k)
    ||| FnTypeParams::accepts(k)
    ||| SliceType::accepts(k)
}

/// Every node kind but `Error` has a typed view: a tree holds no node the
/// AST layer cannot see, recovery nodes aside.
pub proof fn lemma_every_node_kind_has_view(k: SyntaxKind)
    ensures
        !is_token_kind(k) && k != SyntaxKind::Error ==> has_view(k),
{
}

// ── navigation helpers ──────────────────────────────────────────────────────

/// First child node that casts successfully to `N`.
pub(crate) fn child_node<N: AstNode>(parent: &SyntaxNode) -> (r: Option<N>)
    ensures
        view_opt(r) == first_of(accepted_children::<N>(*parent)),
{
    let all = child_nodes_of::<N>(parent);
    let mut all = all;
    if all.len() > 0 {
        let v = all.swap_remove(0);
        Some(v)
    } else {
        None
    }
}

/// All child nodes that cast successfully to `N`.
pub(crate) fn child_nodes_of<N: AstNode>(parent: &SyntaxNode) -> (r: Vec<N>)
    ensures
        views_of(r@) == accepted_children::<N>(*parent),
{
    let ns = parent.child_nodes();
    let mut out: Vec<N> = Vec::new();
    let mut i: usize = 0;
    proof {
        assert(ns@.take(0) =~= Seq::<SyntaxNode>::empty());
        assert(views_of(out@) =~= Seq::<SyntaxNode>::empty());
    }
    while i < ns.len()
        invariant
            i <= ns.len(),
            ns@ == nodes_of(*parent),
            views_of(out@) == filter_accepted::<N>(ns@.take(i as int)),
        decreases ns.len() - i,
    {
        proof {
            assert(ns@.take(i as int + 1).drop_last() =~= ns@.take(i as int));
            assert(ns@.take(i as int + 1).last() == ns@[i as int]);
        }
        if N::can_cast(ns[i].kind()) {
            match N::cast(ns[i].clone()) {
                Some(v) => {
                    let ghost before = out@;
                    out.push(v);
                    proof {
                        assert(views_of(out@) =~= views_of(before).push(ns@[i as int]));
                    }
                },
                None => {},
            }
        }
        i = i + 1;
    }
    proof {
        assert(ns@.take(ns.len() as int) =~= ns@);
    }
    out
}

/// All child nodes in family `f`.
fn family_nodes(parent: &SyntaxNode, f: Family) -> (r: Vec<SyntaxNode>)
    ensures
        r@ == family_children(*parent, f),
{
    let ns = parent.child_nodes();
    let mut out: Vec<SyntaxNode> = Vec::new();
    let mut i: usize = 0;
    proof {
        assert(ns@.take(0) =~= Seq::<SyntaxNode>::empty());
    }
    while i < ns.len()
        invariant
            i <= ns.len(),
            ns@ == nodes_of(*parent),
            out@ == filter_family(ns@.take(i as int), f),
        decreases ns.len() - i,
    {
        proof {
            assert(ns@.take(i as int + 1).drop_last() =~= ns@.take(i as int));
            assert(ns@.take(i as int + 1).last() == ns@[i as int]);
        }
        if family_has(f, ns[i].kind()) {
            out.push(ns[i].clone());
        }
        i = i + 1;
    }
    proof {
        assert(ns@.take(ns.len() as int) =~= ns@);
    }
    out
}

/// The `n`-th child node in family `f`.
fn nth_family_node(parent: &SyntaxNode, f: Family, n: usize) -> (r: Option<SyntaxNode>)
    ensures
        r == nth_of(family_children(*parent, f), n as int),
{
    let all = family_nodes(parent, f);
    if n < all.len() {
        Some(all[n].clone())
    } else {
        None
    }
}

/// All token children in class `c`.
fn class_token_list(parent: &SyntaxNode, c: TokenClass) -> (r: Vec<SyntaxToken>)
    ensures
        r@ == class_tokens(*parent, c),
{
    let es = parent.children();
    let mut out: Vec<SyntaxToken> = Vec::new();
    let mut i: usize = 0;
    proof {
        assert(es@.take(0) =~= Seq::<SyntaxElement>::empty());
    }
    while i < es.len()
        invariant
            i <= es.len(),
            es@ == elems_of(*parent),
            out@ == filter_class(es@.take(i as int), c),
        decreases es.len() - i,
    {
        proof {
            assert(es@.take(i as int + 1).drop_last() =~= es@.take(i as int));
            assert(es@.take(i as int + 1).last() == es@[i as int]);
        }
        match &es[i] {
            SyntaxElement::Token(t) => {
                if class_has(c, t.kind()) {
                    out.push(t.clone());
                }
            },
            SyntaxElement::Node(_) => {},
        }
        i = i + 1;
    }
    proof {
        assert(es@.take(es.len() as int) =~= es@);
    }
    out
}

/// The `n`-th token child in class `c`.
fn nth_class_token(parent: &SyntaxNode, c: TokenClass, n: usize) -> (r: Option<SyntaxToken>)
    ensures
        r == nth_of(class_tokens(*parent, c), n as int),
{
    let all = class_token_list(parent, c);
    if n < all.len() {
        Some(all[n].clone())
    } else {
        None
    }
}

/// First non-trivia token child with a specific `kind`.
pub(crate) fn child_token(parent: &SyntaxNode, kind: SyntaxKind) -> (r: Option<SyntaxToken>)
    ensures
        r == first_of(class_tokens(*parent, TokenClass::Is(kind))),
{
    nth_class_token(parent, TokenClass::Is(kind), 0)
}

/// First non-trivia token child, any kind.
pub(crate) fn first_token(parent: &SyntaxNode) -> (r: Option<SyntaxToken>)
    ensures
        r == first_of(class_tokens(*parent, TokenClass::NonTrivia)),
{
    nth_class_token(parent, TokenClass::NonTrivia, 0)
}

/// First child node whose kind is in the pattern family.
pub fn child_pat_node(parent: &SyntaxNode) -> (r: Option<SyntaxNode>)
    ensures
        r == first_of(family_children(*parent, Family::Pat)),
{
    nth_family_node(parent, Family::Pat, 0)
}

/// First child node whose kind is in the type family.
pub(crate) fn child_type_node(parent: &SyntaxNode) -> (r: Option<SyntaxNode>)
    ensures
        r == first_of(family_children(*parent, Family::Type)),
{
    nth_family_node(parent, Family::Type, 0)
}

/// First child node whose kind is in the expression family.
pub(crate) fn child_expr_node(parent: &SyntaxNode) -> (r: Option<SyntaxNode>)
    ensures
        r == first_of(family_children(*parent, Family::Expr)),
{
    nth_family_node(parent, Family::Expr, 0)
}

/// All child nodes whose kind is in the expression family.
pub(crate) fn child_expr_nodes(parent: &SyntaxNode) -> (r: Vec<SyntaxNode>)
    ensures
        r@ == family_children(*parent, Family::Expr),
{
    family_nodes(parent, Family::Expr)
}

} // verus!
