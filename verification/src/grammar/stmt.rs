//! Statement and block grammar. A block is a sequence of statements;
//! statements are `val`/`var` bindings, `errdefer`, `yield`, or
//! expression-statements. `return`/`break`/`continue` are expressions, so
//! they flow through `expr_stmt` uniformly.

use super::expr::{at_expr_start, expr, expr_start_kinds, is_expr_start};
use super::pattern::pattern;
use super::{node_at, step};
use super::ty::ty;
use crate::parser::{accounted, lemma_wf_bounds, CompletedMarker, Parser, MAX_DEPTH};
use crate::syntax_kind::SyntaxKind as K;
use vstd::prelude::*;

verus! {

broadcast use lemma_wf_bounds;

/// The kind of statement node that a statement starting with `k` builds.
pub open spec fn stmt_node_kind(k: K) -> K {
    if k == K::KwVal || k == K::KwVar {
        K::LetStmt
    } else if k == K::KwErrdefer {
        K::ErrdeferStmt
    } else if k == K::KwYield {
        K::YieldStmt
    } else {
        K::ExprStmt
    }
}

/// Whether `k` only ever begins a statement (a binding or cleanup keyword).
pub open spec fn is_stmt_only_start(k: K) -> bool {
    k == K::KwVal || k == K::KwVar || k == K::KwErrdefer || k == K::KwYield
}

/// The statement first-set: every expression start (an expression is a
/// statement), plus the keywords that only ever begin a statement. This is the
/// resync target for block recovery.
fn stmt_start_kinds() -> (r: Vec<K>)
    ensures
        forall|k: K| r@.contains(k) <==> (is_stmt_only_start(k) || is_expr_start(k)),
{
    let mut r = vec![K::KwVal, K::KwVar, K::KwErrdefer, K::KwYield];
    let mut rest = expr_start_kinds();
    let ghost head = r@;
    let ghost tail = rest@;
    r.append(&mut rest);
    proof {
        assert(r@ == head + tail);
        assert forall|k: K| r@.contains(k) <==> (is_stmt_only_start(k) || is_expr_start(k)) by {
            if is_stmt_only_start(k) {
                if k == K::KwVal { assert(r@[0] == k); }
                else if k == K::KwVar { assert(r@[1] == k); }
                else if k == K::KwErrdefer { assert(r@[2] == k); }
                else { assert(r@[3] == k); }
            }
            if tail.contains(k) {
                let i = choose|i: int| 0 <= i < tail.len() && tail[i] == k;
                assert(r@[4 + i] == k);
            }
            if r@.contains(k) {
                let i = choose|i: int| 0 <= i < r@.len() && r@[i] == k;
                if i >= 4 {
                    assert(tail[i - 4] == k);
                }
            }
        }
    }
    r
}

/// Whether the current token can begin a statement (so the block loop should
/// try to parse one rather than treating it as garbage).
fn at_stmt_start(p: &Parser) -> (r: bool)
    ensures
        r == (is_stmt_only_start(p.current_kind()) || is_expr_start(p.current_kind())),
{
    p.at(K::KwVal) || p.at(K::KwVar) || p.at(K::KwErrdefer) || p.at(K::KwYield) || at_expr_start(
        p,
    )
}

/// `{ stmt* }`: also the block-as-expression form. Every iteration consumes
/// at least one token (a statement bumps, or `recover_to` absorbs a garbage
/// run), so the loop terminates.
pub(crate) fn block(p: &mut Parser) -> (r: CompletedMarker)
    requires
        old(p).wf(),
        old(p).depth_level() < MAX_DEPTH,
    ensures
        step(*final(p), *old(p)),
        final(p).is_top(r),
        node_at(*final(p), r.index(), K::BlockExpr),
        r.index() == old(p).event_count(),
        old(p).current_kind() == K::LBrace ==> final(p).position() > old(p).position(),
    decreases old(p).remaining(), MAX_DEPTH - old(p).depth_level(), 4int,
{
    let m = p.start();
    p.expect(K::LBrace);
    // Blocks are a nesting point too; count them toward the recursion guard so
    // deeply nested `{ ... }` recovers instead of overflowing the stack.
    if p.enter_recursion() {
        let sync = stmt_start_kinds();
        while !p.at(K::RBrace) && !p.at_end()
            invariant
                p.wf(),
                p.moved_on(*old(p)),
                accounted(*p, *old(p)),
                p.depth_level() == old(p).depth_level() + 1,
                p.depth_level() < MAX_DEPTH,
                p.open_markers() == old(p).open_markers().push(m.index()),
                forall|k: K| sync@.contains(k) <==> (is_stmt_only_start(k) || is_expr_start(k)),
                old(p).current_kind() == K::LBrace ==> p.position() > old(p).position(),
            decreases p.remaining(),
        {
            if at_stmt_start(p) {
                let before = p.pos();
                stmt(p);
                // A statement that made no progress means a leaf recovery
                // declined a closer an enclosing construct owns; break so it
                // bubbles out instead of spinning.
                if p.pos() == before {
                    break;
                }
            } else if !p.recover_to("expected a statement", sync.as_slice()) {
                // Already at a claimed closer or end: let the owner have it.
                break;
            }
            // Otherwise `recover_to` absorbed a garbage run into one Error
            // node and resynced to the next statement; loop on.
        }
    } else {
        p.error("block nesting too deep");
        while !p.at(K::RBrace) && !p.at_end()
            invariant
                p.wf(),
                p.moved_on(*old(p)),
                accounted(*p, *old(p)),
                p.depth_level() == old(p).depth_level() + 1,
                p.open_markers() == old(p).open_markers().push(m.index()),
                old(p).current_kind() == K::LBrace ==> p.position() > old(p).position(),
            decreases p.remaining(),
        {
            p.bump();
        }
    }
    p.leave_recursion();
    p.expect(K::RBrace);
    m.complete(p, K::BlockExpr)
}

fn stmt(p: &mut Parser)
    requires
        old(p).wf(),
        old(p).depth_level() < MAX_DEPTH,
    ensures
        step(*final(p), *old(p)),
        node_at(*final(p), old(p).event_count(), stmt_node_kind(old(p).current_kind())),
    decreases old(p).remaining(), MAX_DEPTH - old(p).depth_level(), 5int,
{
    match p.current() {
        K::KwVal | K::KwVar => let_stmt(p),
        K::KwErrdefer => errdefer_stmt(p),
        K::KwYield => yield_stmt(p),
        _ => expr_stmt(p),
    }
}

/// `val|var pattern (: Type)? (= expr)?`: the binding form. A pattern (not
/// just a name) is accepted so destructuring bindings parse.
fn let_stmt(p: &mut Parser)
    requires
        old(p).wf(),
        old(p).depth_level() < MAX_DEPTH,
    ensures
        step(*final(p), *old(p)),
        node_at(*final(p), old(p).event_count(), K::LetStmt),
    decreases old(p).remaining(), MAX_DEPTH - old(p).depth_level(), 4int,
{
    let m = p.start();
    p.bump();  // val / var
    pattern(p);
    if p.eat(K::Colon) {
        ty(p);
    }
    if p.eat(K::Eq) {
        expr(p);
    }
    p.eat(K::Semicolon);
    m.complete(p, K::LetStmt);
}

/// `errdefer stmt`: error-path cleanup.
fn errdefer_stmt(p: &mut Parser)
    requires
        old(p).wf(),
        old(p).depth_level() < MAX_DEPTH,
    ensures
        step(*final(p), *old(p)),
        node_at(*final(p), old(p).event_count(), K::ErrdeferStmt),
    decreases old(p).remaining(), MAX_DEPTH - old(p).depth_level(), 4int,
{
    let m = p.start();
    p.bump();  // errdefer
    expr(p);
    p.eat(K::Semicolon);
    m.complete(p, K::ErrdeferStmt);
}

/// `yield expr`: a subscript body's value producer.
fn yield_stmt(p: &mut Parser)
    requires
        old(p).wf(),
        old(p).depth_level() < MAX_DEPTH,
    ensures
        step(*final(p), *old(p)),
        node_at(*final(p), old(p).event_count(), K::YieldStmt),
    decreases old(p).remaining(), MAX_DEPTH - old(p).depth_level(), 4int,
{
    let m = p.start();
    p.bump();  // yield
    expr(p);
    p.eat(K::Semicolon);
    m.complete(p, K::YieldStmt);
}

fn expr_stmt(p: &mut Parser)
    requires
        old(p).wf(),
        old(p).depth_level() < MAX_DEPTH,
    ensures
        step(*final(p), *old(p)),
        node_at(*final(p), old(p).event_count(), K::ExprStmt),
    decreases old(p).remaining(), MAX_DEPTH - old(p).depth_level(), 4int,
{
    let m = p.start();
    expr(p);
    p.eat(K::Semicolon);
    m.complete(p, K::ExprStmt);
}

} // verus!
