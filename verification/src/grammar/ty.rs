//! Type-annotation grammar. Covers path types with generic arguments, slices,
//! the unit/paren type, and the error-union sugar `E!T` plus parenthesized
//! error-set unions `(A || B)`.
//!
//! Nested generics that close with `>>` (`Map<K, List<V>>`) parse correctly:
//! `>>` lexes as one `Shr`, which `Parser::eat_generic_close` splits into two
//! `>` so the inner and outer lists each claim one.

use super::{path, step};
use crate::ast::is_type_kind_spec;
use crate::parser::{accounted, lemma_wf_bounds, CompletedMarker, Parser, MAX_DEPTH};
use crate::syntax_kind::SyntaxKind as K;
use vstd::prelude::*;

verus! {

broadcast use lemma_wf_bounds;

/// The kinds of node a type parses to: those of the typed views, and slices.
pub open spec fn is_type_node_kind(k: K) -> bool {
    is_type_kind_spec(k) || k == K::SliceType
}

/// Parse a type, returning the completed node. Always produces a node (an
/// `Error` node on unexpected input) so callers never juggle `Option`.
///
/// Types recurse (generic args, error-union `!`), so this shares the parser's
/// recursion-depth guard: past the limit it recovers instead of overflowing
/// the stack.
pub(crate) fn ty(p: &mut Parser) -> (r: CompletedMarker)
    requires
        old(p).wf(),
        old(p).depth_level() < MAX_DEPTH,
    ensures
        step(*final(p), *old(p)),
        final(p).is_top(r),
        is_type_node_kind(final(p).node_kind(r.index())),
    decreases old(p).remaining(), MAX_DEPTH - old(p).depth_level(), 6int,
{
    if !p.enter_recursion() {
        let m = p.start();
        p.error("type nesting too deep");
        if !p.at_end() {
            p.bump();
        }
        p.leave_recursion();
        return m.complete(p, K::Error);
    }
    let result = ty_inner(p);
    p.leave_recursion();
    result
}

fn ty_inner(p: &mut Parser) -> (r: CompletedMarker)
    requires
        old(p).wf(),
        old(p).depth_level() < MAX_DEPTH,
    ensures
        step(*final(p), *old(p)),
        final(p).is_top(r),
        is_type_node_kind(final(p).node_kind(r.index())),
    decreases old(p).remaining(), MAX_DEPTH - old(p).depth_level(), 5int,
{
    let lhs = type_primary(p);
    // Error-union sugar: `ErrorSet ! SuccessType`.
    if p.at(K::Bang) {
        let m = lhs.precede(p);
        p.bump();
        ty(p);
        return m.complete(p, K::ErrorUnionType);
    }
    lhs
}

fn type_primary(p: &mut Parser) -> (r: CompletedMarker)
    requires
        old(p).wf(),
        old(p).depth_level() < MAX_DEPTH,
    ensures
        step(*final(p), *old(p)),
        final(p).is_top(r),
        final(p).node_kind(r.index()) != K::ErrorUnionType
            && is_type_node_kind(final(p).node_kind(r.index())),
    decreases old(p).remaining(), MAX_DEPTH - old(p).depth_level(), 4int,
{
    match p.current() {
        K::LParen => paren_type(p),
        K::LBracket => slice_type(p),
        K::Ident | K::KwSelfType => path_type(p),
        _ => {
            let m = p.start();
            // Recovery-set aware: a closer claimed by an enclosing construct
            // is left in place so its owner can claim it.
            p.err_recover("expected a type");
            m.complete(p, K::Error)
        },
    }
}

/// `[T]`: a slice, a runtime-sized borrowed view of homogeneous elements. The
/// element type recurses, so `[[Int]]` and `[Pair<K, V>]` parse.
fn slice_type(p: &mut Parser) -> (r: CompletedMarker)
    requires
        old(p).wf(),
        old(p).depth_level() < MAX_DEPTH,
        old(p).current_kind() == K::LBracket,
    ensures
        step(*final(p), *old(p)),
        final(p).is_top(r),
        final(p).node_kind(r.index()) == K::SliceType,
    decreases old(p).remaining(), MAX_DEPTH - old(p).depth_level(), 3int,
{
    let m = p.start();
    p.bump();  // [
    ty(p);
    p.expect(K::RBracket);
    m.complete(p, K::SliceType)
}

/// `Name`, `Name::Seg`, optionally followed by `<args>`.
fn path_type(p: &mut Parser) -> (r: CompletedMarker)
    requires
        old(p).wf(),
        old(p).depth_level() < MAX_DEPTH,
    ensures
        step(*final(p), *old(p)),
        final(p).is_top(r),
        final(p).node_kind(r.index()) == K::PathType,
    decreases old(p).remaining(), MAX_DEPTH - old(p).depth_level(), 3int,
{
    let m = p.start();
    path(p, false);
    if p.at(K::Lt) {
        generic_arg_list(p);
    }
    m.complete(p, K::PathType)
}

/// `< Type (, Type)* >`. A closing `>>` lexes as one `Shr`, which
/// `eat_generic_close` splits so the inner and outer lists each claim one `>`.
fn generic_arg_list(p: &mut Parser)
    requires
        old(p).wf(),
        old(p).depth_level() < MAX_DEPTH,
        old(p).current_kind() == K::Lt,
    ensures
        step(*final(p), *old(p)),
        final(p).started(old(p).event_count())
            && final(p).node_kind(old(p).event_count()) == K::GenericArgList,
    decreases old(p).remaining(), MAX_DEPTH - old(p).depth_level(), 2int,
{
    let m = p.start();
    p.bump();  // <
    while !p.at_generic_close() && !p.at_end()
        invariant
            p.wf(),
            p.evolved(*old(p)),
            accounted(*p, *old(p)),
            p.open_markers() == old(p).open_markers().push(m.index()),
            p.position() > old(p).position(),
            p.depth_level() < MAX_DEPTH,
        decreases p.remaining(),
    {
        ty(p);
        if !p.eat(K::Comma) {
            break;
        }
    }
    p.eat_generic_close();
    m.complete(p, K::GenericArgList);
}

/// `()` (unit), `(Type)` (grouping), or `(A || B)` (error-set union).
fn paren_type(p: &mut Parser) -> (r: CompletedMarker)
    requires
        old(p).wf(),
        old(p).depth_level() < MAX_DEPTH,
        old(p).current_kind() == K::LParen,
    ensures
        step(*final(p), *old(p)),
        final(p).is_top(r),
        final(p).node_kind(r.index()) == K::UnitType
            || final(p).node_kind(r.index()) == K::PathType
            || final(p).node_kind(r.index()) == K::ErrorSetUnionType,
    decreases old(p).remaining(), MAX_DEPTH - old(p).depth_level(), 3int,
{
    let m = p.start();
    p.bump();  // (
    if p.eat(K::RParen) {
        return m.complete(p, K::UnitType);
    }
    ty(p);
    let mut is_union = false;
    while p.at(K::PipePipe)
        invariant
            p.wf(),
            p.evolved(*old(p)),
            accounted(*p, *old(p)),
            p.open_markers() == old(p).open_markers().push(m.index()),
            p.position() > old(p).position(),
            p.depth_level() < MAX_DEPTH,
        decreases p.remaining(),
    {
        is_union = true;
        p.bump();
        ty(p);
    }
    p.expect(K::RParen);
    m.complete(
        p,
        if is_union {
            K::ErrorSetUnionType
        } else {
            K::PathType
        },
    )
}

} // verus!
