//! Pattern grammar: wildcard, literal (incl. range), identifier binding, path /
//! tuple-struct / struct destructure, and `|` alternatives. Guards (`if expr`)
//! are attached at the match-arm level, not here.

use super::{is_segment_start, node_at, path, step};
use crate::ast::is_pat_kind;
use crate::parser::{accounted, lemma_wf_bounds, CompletedMarker, Parser};
use crate::syntax_kind::SyntaxKind as K;
use vstd::prelude::*;

verus! {

broadcast use lemma_wf_bounds;

/// Whether `k` is a literal token.
pub open spec fn is_literal_atom(k: K) -> bool {
    k == K::IntLit || k == K::FloatLit || k == K::ByteLit || k == K::StrLit || k == K::KwTrue
        || k == K::KwFalse
}

/// Whether `k` can begin a literal pattern (a literal, or `-` before one).
pub open spec fn is_literal_start(k: K) -> bool {
    is_literal_atom(k) || k == K::Minus
}

fn at_literal_atom(p: &Parser) -> (r: bool)
    ensures
        r == is_literal_atom(p.current_kind()),
{
    p.at(K::IntLit) || p.at(K::FloatLit) || p.at(K::ByteLit) || p.at(K::StrLit) || p.at(
        K::KwTrue,
    ) || p.at(K::KwFalse)
}

fn at_literal_start(p: &Parser) -> (r: bool)
    ensures
        r == is_literal_start(p.current_kind()),
{
    at_literal_atom(p) || p.at(K::Minus)
}

/// A full pattern, including top-level `|` alternatives.
pub(crate) fn pattern(p: &mut Parser)
    requires
        old(p).wf(),
    ensures
        step(*final(p), *old(p)),
        !old(p).ended() ==> final(p).position() > old(p).position(),
        final(p).started(old(p).event_count()),
        (is_pat_kind(final(p).node_kind(old(p).event_count()))
            || final(p).node_kind(old(p).event_count()) == K::Error),
    decreases old(p).remaining(), 4int,
{
    let lhs = pattern_single(p);
    let ghost k0 = p.node_kind(lhs.index());
    if p.at(K::Pipe) {
        let m = lhs.precede(p);
        while p.eat(K::Pipe)
            invariant
                p.started(lhs.index()),
                p.node_kind(lhs.index()) == k0,
                p.wf(),
                p.evolved(*old(p)),
                accounted(*p, *old(p)),
                p.open_markers() == old(p).open_markers().push(m.index()),
                !old(p).ended() ==> p.position() > old(p).position(),
            decreases p.remaining(),
        {
            pattern_single(p);
        }
        m.complete(p, K::OrPat);
    }
}

fn pattern_single(p: &mut Parser) -> (r: CompletedMarker)
    requires
        old(p).wf(),
    ensures
        step(*final(p), *old(p)),
        final(p).is_top(r),
        !old(p).ended() ==> final(p).position() > old(p).position(),
        r.index() == old(p).event_count(),
        (is_pat_kind(final(p).node_kind(r.index())) || final(p).node_kind(r.index()) == K::Error),
        final(p).node_kind(r.index()) != K::OrPat,
    decreases old(p).remaining(), 3int,
{
    if p.at_contextual("_") {
        let m = p.start();
        p.bump();
        return m.complete(p, K::WildcardPat);
    }
    if at_literal_start(p) {
        return literal_pattern(p);
    }
    match p.current() {
        K::Ident | K::KwSelfType => path_pattern(p),
        _ => {
            let m = p.start();
            p.error("expected a pattern");
            if !p.at_end() {
                p.bump();
            }
            m.complete(p, K::Error)
        },
    }
}

/// A literal, or a literal range (`1..=9`).
fn literal_pattern(p: &mut Parser) -> (r: CompletedMarker)
    requires
        old(p).wf(),
        is_literal_start(old(p).current_kind()),
    ensures
        step(*final(p), *old(p)),
        final(p).is_top(r),
        final(p).position() > old(p).position(),
        r.index() == old(p).event_count(),
        final(p).node_kind(r.index()) == K::LiteralPat
            || final(p).node_kind(r.index()) == K::RangePat,
{
    let m = p.start();
    literal_atom(p);
    if p.at(K::DotDot) || p.at(K::DotDotEq) {
        p.bump();
        literal_atom(p);
        return m.complete(p, K::RangePat);
    }
    m.complete(p, K::LiteralPat)
}

/// Consume one literal token, allowing an optional leading `-`.
fn literal_atom(p: &mut Parser)
    requires
        old(p).wf(),
    ensures
        step(*final(p), *old(p)),
        is_literal_start(old(p).current_kind()) ==> final(p).position() > old(p).position(),
{
    p.eat(K::Minus);
    if at_literal_atom(p) {
        p.bump();
    } else {
        p.error("expected a literal");
    }
}

/// `Name`, or a qualified path, optionally with a `(..)` or `{..}` payload. A
/// bare single identifier is a binding (`IdentPat`); a multi-segment path is a
/// `PathPat`.
fn path_pattern(p: &mut Parser) -> (r: CompletedMarker)
    requires
        old(p).wf(),
        is_segment_start(old(p).current_kind()),
    ensures
        step(*final(p), *old(p)),
        final(p).is_top(r),
        final(p).position() > old(p).position(),
        r.index() == old(p).event_count(),
        (final(p).node_kind(r.index()) == K::TupleStructPat
            || final(p).node_kind(r.index()) == K::StructPat
            || final(p).node_kind(r.index()) == K::IdentPat
            || final(p).node_kind(r.index()) == K::PathPat),
    decreases old(p).remaining(), 2int,
{
    let m = p.start();
    let segments = path(p, true);
    match p.current() {
        K::LParen => {
            tuple_pat_fields(p);
            m.complete(p, K::TupleStructPat)
        },
        K::LBrace => {
            struct_pat_fields(p);
            m.complete(p, K::StructPat)
        },
        _ => {
            if segments == 1 {
                m.complete(p, K::IdentPat)
            } else {
                m.complete(p, K::PathPat)
            }
        },
    }
}

/// `( pattern (, pattern)* )`
fn tuple_pat_fields(p: &mut Parser)
    requires
        old(p).wf(),
        old(p).current_kind() == K::LParen,
    ensures
        step(*final(p), *old(p)),
        node_at(*final(p), old(p).event_count(), K::TuplePatFieldList),
    decreases old(p).remaining(), 1int,
{
    let m = p.start();
    p.bump();  // (
    while !p.at(K::RParen) && !p.at_end()
        invariant
            p.wf(),
            p.evolved(*old(p)),
            accounted(*p, *old(p)),
            p.open_markers() == old(p).open_markers().push(m.index()),
            p.position() > old(p).position(),
        decreases p.remaining(),
    {
        pattern(p);
        if !p.eat(K::Comma) {
            break;
        }
    }
    p.expect(K::RParen);
    m.complete(p, K::TuplePatFieldList);
}

/// `{ field (, field)* }` where a field is `name` or `name: pattern` or `..`.
fn struct_pat_fields(p: &mut Parser)
    requires
        old(p).wf(),
        old(p).current_kind() == K::LBrace,
    ensures
        step(*final(p), *old(p)),
        node_at(*final(p), old(p).event_count(), K::StructPatFieldList),
    decreases old(p).remaining(), 1int,
{
    let m = p.start();
    p.bump();  // {
    while !p.at(K::RBrace) && !p.at_end()
        invariant
            p.wf(),
            p.evolved(*old(p)),
            accounted(*p, *old(p)),
            p.open_markers() == old(p).open_markers().push(m.index()),
            p.position() > old(p).position(),
        decreases p.remaining(),
    {
        if p.eat(K::DotDot) {
            let r = p.start();
            r.complete(p, K::RestPat);
            break;
        }
        struct_pat_field(p);
        if !p.eat(K::Comma) {
            break;
        }
    }
    p.expect(K::RBrace);
    m.complete(p, K::StructPatFieldList);
}

fn struct_pat_field(p: &mut Parser)
    requires
        old(p).wf(),
    ensures
        step(*final(p), *old(p)),
        node_at(*final(p), old(p).event_count(), K::StructPatField),
    decreases old(p).remaining(), 0int,
{
    let m = p.start();
    p.expect(K::Ident);
    if p.eat(K::Colon) {
        pattern(p);
    }
    m.complete(p, K::StructPatField);
}

} // verus!
