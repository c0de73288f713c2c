//! Expression grammar: a Pratt (precedence-climbing) parser. `expr_bp` is the
//! climbing loop; `lhs` handles prefix operators and primaries; `postfix`
//! handles the tightest forms (call, field, method, index, cast). Binding
//! powers come from `infix_bp`: the table is the specification.

use super::pattern;
use super::stmt::block;
use super::ty::ty;
use super::{is_segment_start, node_at, path, step};
use crate::ast::{in_class, is_expr_kind_spec, TokenClass};
use crate::event::chain_top;
use crate::parser::{accounted, error_leaf, lemma_wf_bounds, CompletedMarker, Parser, MAX_DEPTH};
use crate::syntax_kind::{is_keyword_kind, SyntaxKind as K};
use vstd::prelude::*;

verus! {

broadcast use lemma_wf_bounds;

/// Whether `k` can begin an expression (the first-set), for optional-operand
/// decisions (`return`, `break`).
pub open spec fn is_expr_start(k: K) -> bool {
    ||| k == K::IntLit
    ||| k == K::FloatLit
    ||| k == K::ByteLit
    ||| k == K::StrLit
    ||| k == K::KwTrue
    ||| k == K::KwFalse
    ||| k == K::Ident
    ||| k == K::KwSelf
    ||| k == K::KwSelfType
    ||| k == K::LParen
    ||| k == K::LBracket
    ||| k == K::LBrace
    ||| k == K::KwIf
    ||| k == K::KwMatch
    ||| k == K::KwLoop
    ||| k == K::KwScope
    ||| k == K::Pipe
    ||| k == K::PipePipe
    ||| k == K::Minus
    ||| k == K::Bang
    ||| k == K::KwTry
    ||| k == K::KwReturn
    ||| k == K::KwBreak
    ||| k == K::KwContinue
}

/// The kinds that can begin an expression, in table order.
pub fn expr_start_kinds() -> (r: Vec<K>)
    ensures
        forall|k: K| r@.contains(k) <==> is_expr_start(k),
{
    let r = vec![
        K::IntLit,
        K::FloatLit,
        K::ByteLit,
        K::StrLit,
        K::KwTrue,
        K::KwFalse,
        K::Ident,
        K::KwSelf,
        K::KwSelfType,
        K::LParen,
        K::LBracket,
        K::LBrace,
        K::KwIf,
        K::KwMatch,
        K::KwLoop,
        K::KwScope,
        K::Pipe,
        K::PipePipe,
        K::Minus,
        K::Bang,
        K::KwTry,
        K::KwReturn,
        K::KwBreak,
        K::KwContinue,
    ];
    proof {
        assert forall|k: K| r@.contains(k) <==> is_expr_start(k) by {
            if is_expr_start(k) {
                if k == K::IntLit { assert(r@[0] == k); }
                else if k == K::FloatLit { assert(r@[1] == k); }
                else if k == K::ByteLit { assert(r@[2] == k); }
                else if k == K::StrLit { assert(r@[3] == k); }
                else if k == K::KwTrue { assert(r@[4] == k); }
                else if k == K::KwFalse { assert(r@[5] == k); }
                else if k == K::Ident { assert(r@[6] == k); }
                else if k == K::KwSelf { assert(r@[7] == k); }
                else if k == K::KwSelfType { assert(r@[8] == k); }
                else if k == K::LParen { assert(r@[9] == k); }
                else if k == K::LBracket { assert(r@[10] == k); }
                else if k == K::LBrace { assert(r@[11] == k); }
                else if k == K::KwIf { assert(r@[12] == k); }
                else if k == K::KwMatch { assert(r@[13] == k); }
                else if k == K::KwLoop { assert(r@[14] == k); }
                else if k == K::KwScope { assert(r@[15] == k); }
                else if k == K::Pipe { assert(r@[16] == k); }
                else if k == K::PipePipe { assert(r@[17] == k); }
                else if k == K::Minus { assert(r@[18] == k); }
                else if k == K::Bang { assert(r@[19] == k); }
                else if k == K::KwTry { assert(r@[20] == k); }
                else if k == K::KwReturn { assert(r@[21] == k); }
                else if k == K::KwBreak { assert(r@[22] == k); }
                else { assert(r@[23] == k); }
            }
        }
    }
    r
}

/// Whether `k` begins a primary expression: an expression start other than a
/// prefix operator.
pub open spec fn is_primary_start(k: K) -> bool {
    is_expr_start(k) && k != K::Minus && k != K::Bang && k != K::KwTry
}

/// The node a primary expression starting with token `tok` builds.
pub open spec fn primary_node(tok: K, node: K) -> bool {
    if tok == K::IntLit || tok == K::FloatLit || tok == K::ByteLit || tok == K::StrLit || tok
        == K::KwTrue || tok == K::KwFalse {
        node == K::LiteralExpr
    } else if tok == K::Ident || tok == K::KwSelf || tok == K::KwSelfType {
        node == K::PathExpr || node == K::StructLitExpr
    } else if tok == K::LParen {
        node == K::ParenExpr
    } else if tok == K::LBracket {
        node == K::ListLitExpr
    } else if tok == K::LBrace {
        node == K::BlockExpr
    } else if tok == K::KwIf {
        node == K::IfExpr
    } else if tok == K::KwMatch {
        node == K::MatchExpr
    } else if tok == K::KwLoop {
        node == K::LoopExpr
    } else if tok == K::KwScope {
        node == K::ScopeExpr
    } else if tok == K::Pipe || tok == K::PipePipe {
        node == K::ClosureExpr
    } else if tok == K::KwReturn {
        node == K::ReturnStmt
    } else if tok == K::KwBreak {
        node == K::BreakStmt
    } else if tok == K::KwContinue {
        node == K::ContinueStmt
    } else {
        false
    }
}

/// The nodes the postfix forms build around an expression.
pub open spec fn is_postfix_kind(k: K) -> bool {
    ||| k == K::CallExpr
    ||| k == K::MethodCallExpr
    ||| k == K::FieldExpr
    ||| k == K::IndexExpr
    ||| k == K::CastExpr
}

/// Whether `k` begins a postfix form: call `(`, field or method `.`, index
/// `[`, cast `as`.
pub open spec fn is_postfix_start(k: K) -> bool {
    k == K::LParen || k == K::Dot || k == K::LBracket || k == K::KwAs
}

/// Whether the current token can begin an expression.
pub(crate) fn at_expr_start(p: &Parser) -> (r: bool)
    ensures
        r == is_expr_start(p.current_kind()),
{
    let k = p.current();
    match k {
        K::IntLit | K::FloatLit | K::ByteLit | K::StrLit | K::KwTrue | K::KwFalse | K::Ident
        | K::KwSelf | K::KwSelfType | K::LParen | K::LBracket | K::LBrace | K::KwIf | K::KwMatch
        | K::KwLoop | K::KwScope | K::Pipe | K::PipePipe | K::Minus | K::Bang | K::KwTry
        | K::KwReturn | K::KwBreak | K::KwContinue => true,
        _ => false,
    }
}

/// Binding power above every infix operator, used for prefix operands so
/// unary binds tighter than any binary operator.
pub const PREFIX_BP: u8 = 24;

/// The precedence table: for an infix operator, its left and right binding
/// powers and the node kind it builds. Left-associative operators bind
/// `(2L, 2L+1)`; assignment is right-associative (`(3, 2)`).
pub open spec fn infix_binding(op: K) -> Option<(u8, u8, K)> {
    if op == K::Eq || op == K::PlusEq || op == K::MinusEq || op == K::StarEq || op == K::SlashEq
        || op == K::PercentEq {
        Some((3, 2, K::AssignExpr))
    } else if op == K::DotDot || op == K::DotDotEq {
        Some((4, 5, K::RangeExpr))
    } else if op == K::PipePipe {
        Some((6, 7, K::BinExpr))
    } else if op == K::AmpAmp {
        Some((8, 9, K::BinExpr))
    } else if op == K::EqEq || op == K::Ne || op == K::Lt || op == K::Le || op == K::Gt || op
        == K::Ge {
        Some((10, 11, K::BinExpr))
    } else if op == K::Pipe {
        Some((12, 13, K::BinExpr))
    } else if op == K::Caret {
        Some((14, 15, K::BinExpr))
    } else if op == K::Amp {
        Some((16, 17, K::BinExpr))
    } else if op == K::Shl || op == K::Shr {
        Some((18, 19, K::BinExpr))
    } else if op == K::Plus || op == K::Minus {
        Some((20, 21, K::BinExpr))
    } else if op == K::Star || op == K::Slash || op == K::Percent {
        Some((22, 23, K::BinExpr))
    } else {
        None
    }
}

/// Every operator that the precedence table lets build a `BinExpr` is a token
/// of the binary-operator class that `BinExpr::op_token` looks for, and every
/// operator that builds an `AssignExpr` is an assignment-operator token; each
/// binary-operator token in turn builds a `BinExpr`.
pub proof fn lemma_infix_operators_classified(op: K)
    ensures
        infix_binding(op) matches Some((_, _, n)) && n == K::BinExpr ==> in_class(TokenClass::BinOp, op),
        infix_binding(op) matches Some((_, _, n)) && n == K::AssignExpr ==> in_class(
            TokenClass::AssignOp,
            op,
        ),
        in_class(TokenClass::BinOp, op) ==> (infix_binding(op) matches Some((_, _, n)) && n
            == K::BinExpr),
        in_class(TokenClass::AssignOp, op) ==> (infix_binding(op) matches Some((_, _, n)) && n
            == K::AssignExpr),
{
}

/// Associativity of the precedence table: every operator but assignment is
/// left-associative, binding `(2L, 2L + 1)`, so an operand on its right stops
/// before an operator of its own level; assignment is right-associative, its
/// right power below its left, so `a = b = c` is `a = (b = c)`.
pub proof fn lemma_infix_associativity(op: K)
    ensures
        infix_binding(op) matches Some((l, r, n)) ==> (n == K::AssignExpr ==> r < l) && (n
            != K::AssignExpr ==> l % 2 == 0 && r == l + 1),
{
}

/// Prefix operators bind tighter than every infix operator: the binding power
/// a prefix operand is parsed at exceeds each infix operator's left power, so
/// the operand's climbing loop stops before any infix operator.
pub proof fn lemma_prefix_binds_tightest(op: K)
    ensures
        infix_binding(op) matches Some((l, _, _)) ==> l < PREFIX_BP,
{
}

/// The node a prefix operator token opens: `-` and `!` a `PrefixExpr`, `try`
/// a `TryExpr`.
pub open spec fn prefix_operator_node(k: K) -> Option<K> {
    if k == K::Minus || k == K::Bang {
        Some(K::PrefixExpr)
    } else if k == K::KwTry {
        Some(K::TryExpr)
    } else {
        None
    }
}

/// The tokens that open a `PrefixExpr` are exactly the prefix-operator tokens
/// that `PrefixExpr::op_token` looks for.
pub proof fn lemma_prefix_operators_classified(k: K)
    ensures
        prefix_operator_node(k) == Some(K::PrefixExpr) <==> in_class(TokenClass::PrefixOp, k),
{
}

/// The node kinds that the precedence table builds around an infix operator.
pub open spec fn is_infix_node_kind(k: K) -> bool {
    k == K::BinExpr || k == K::AssignExpr || k == K::RangeExpr
}

/// The binding level of the node at event `j`: for an infix node, the left
/// power of the operator whose token it consumed right after its start (`-1`
/// where there is none); above every binding power for any other node, which
/// no operator splits.
pub open spec fn node_level(p: Parser, j: int) -> int {
    if is_infix_node_kind(p.node_kind(j)) {
        if j + 1 < p.event_count() {
            match p.consumed_kind(j + 1) {
                Some(op) => match infix_binding(op) {
                    Some(b) => b.0 as int,
                    None => -1,
                },
                None => -1,
            }
        } else {
            -1
        }
    } else {
        256
    }
}

/// The right operand of the infix node at event `j`, where there is one (its
/// first node starts right after the operator's token), binds at least as
/// tightly as the operator's right power.
pub open spec fn right_operand_binds(p: Parser, j: int) -> bool {
    is_infix_node_kind(p.node_kind(j)) && p.started(j + 2) ==> (match p.consumed_kind(j + 1) {
        Some(op) => match infix_binding(op) {
            Some(b) => node_level(p, chain_top(p.events_view(), j + 2)) >= b.1,
            None => false,
        },
        None => false,
    })
}

/// Later steps of the cursor keep every chain already linked: the outermost
/// node of a chain is found again from its old outermost node, which lies no
/// further back than where the chain begins.
proof fn lemma_chain_top_kept(prev: Parser, cur: Parser, i: int)
    requires
        cur.moved_on(prev),
    ensures
        chain_top(cur.events_view(), i) == chain_top(
            cur.events_view(),
            chain_top(prev.events_view(), i),
        ),
        chain_top(prev.events_view(), i) >= i,
        0 <= i < prev.event_count() ==> chain_top(prev.events_view(), i) < prev.event_count(),
    decreases prev.events_view().len() - i,
{
    let es = prev.events_view();
    if 0 <= i < es.len() && es[i] is Start && es[i]->forward_parent is Some && i
        < es[i]->forward_parent->0 < es.len() {
        assert(prev.started(i));
        assert(cur.events_view()[i] == es[i]);
        lemma_chain_top_kept(prev, cur, es[i]->forward_parent->0 as int);
    }
}

/// A node wrapped by `precede` and then closed with no node around it is the
/// outermost node of the wrapped node's chain.
proof fn lemma_chain_top_linked(prev: Parser, cur: Parser, l: int, m: int)
    requires
        prev.started(l),
        prev.events_view()[l]->forward_parent == Some(m as usize),
        cur.moved_on(prev),
        cur.wf(),
        l < m,
        cur.started(m),
        cur.events_view()[m]->forward_parent is None,
    ensures
        chain_top(cur.events_view(), l) == m,
{
    let es = cur.events_view();
    assert(es[l] == prev.events_view()[l]);
    assert(chain_top(es, m) == m);
}


/// Unless at end of input it consumes at least one token. Where an expression
/// can begin, the first node it opens is that expression's leftmost operand;
/// elsewhere it reports the missing expression (or, past the depth limit, the
/// nesting) as its one new diagnostic.
pub(crate) fn expr(p: &mut Parser)
    requires
        old(p).wf(),
        old(p).depth_level() < MAX_DEPTH,
    ensures
        step(*final(p), *old(p)),
        !old(p).ended() ==> final(p).position() > old(p).position(),
        old(p).depth_level() + 1 < MAX_DEPTH && is_expr_start(old(p).current_kind()) ==> final(p).started(old(p).event_count()) && is_expr_kind_spec(
            final(p).node_kind(old(p).event_count()),
        ),
        old(p).depth_level() + 1 < MAX_DEPTH && !is_expr_start(old(p).current_kind()) ==> final(p).errors_view().drop_last() == old(p).errors_view() && final(p).errors_view().last().message@
            == "expected an expression"@,
        old(p).depth_level() + 1 >= MAX_DEPTH ==> final(p).errors_view().drop_last() == old(p).errors_view() && final(p).errors_view().last().message@
            == "expression nesting too deep"@,
    decreases old(p).remaining(), MAX_DEPTH - old(p).depth_level(), 3int,
{
    let cm = match expr_bp(p, 0) {
        Some(cm) => cm,
        None => {
            return ;
        },
    };
    if p.at(K::KwCatch) {
        let m = cm.precede(p);
        p.bump();  // catch
        expr_bp(p, 0);  // handler (commonly a `|e| ...` closure)
        m.complete(p, K::CatchExpr);
    }
}

/// The precedence-climbing core: parse an expression whose operators bind at
/// least `min_bp`, as far as they reach: it stops only where the next token is
/// no infix operator binding at least `min_bp`. The expression's node is the
/// outermost of those that start where it starts, and it obeys the precedence
/// table: its level (an infix node's operator's left power) is at least
/// `min_bp`, so above every infix left power it is the operand that `lhs`
/// parsed; and an infix node's right operand binds at least as tightly as the
/// operator's right power, which makes `a - b - c` read `(a - b) - c` and
/// `a + b * c` read `a + (b * c)`.
fn expr_bp(p: &mut Parser, min_bp: u8) -> (r: Option<CompletedMarker>)
    requires
        old(p).wf(),
        old(p).depth_level() < MAX_DEPTH,
    ensures
        step(*final(p), *old(p)),
        r matches Some(cm) ==> final(p).is_top(cm),
        r matches Some(cm) ==> is_expr_kind_spec(final(p).node_kind(cm.index())),
        old(p).depth_level() + 1 < MAX_DEPTH ==>
            (r is None <==> !is_expr_start(old(p).current_kind())),
        !old(p).ended() ==> final(p).position() > old(p).position(),
        r is Some ==> final(p).started(old(p).event_count()) && is_expr_kind_spec(
            final(p).node_kind(old(p).event_count()),
        ),
        r matches Some(cm) ==> cm.index() == chain_top(final(p).events_view(), old(p).event_count()),
        r is Some ==> (infix_binding(final(p).current_kind()) matches Some((l, _, _)) ==> l
            < min_bp),
        old(p).depth_level() + 1 < MAX_DEPTH && !is_expr_start(old(p).current_kind()) ==> final(p).errors_view().drop_last() == old(p).errors_view() && final(p).errors_view().last().message@
            == "expected an expression"@,
        old(p).depth_level() + 1 >= MAX_DEPTH ==> r is None && final(p).errors_view().drop_last()
            == old(p).errors_view() && final(p).errors_view().last().message@
            == "expression nesting too deep"@,
        final(p).started(old(p).event_count()) ==> node_level(
            *final(p),
            chain_top(final(p).events_view(), old(p).event_count()),
        ) >= min_bp && right_operand_binds(
            *final(p),
            chain_top(final(p).events_view(), old(p).event_count()),
        ) && final(p).events_view()[chain_top(
            final(p).events_view(),
            old(p).event_count(),
        )]->forward_parent is None,
    decreases old(p).remaining(), MAX_DEPTH - old(p).depth_level(), 2int,
{
    let ghost e0 = old(p).event_count();
    let mut lhs = match lhs(p) {
        Some(cm) => cm,
        None => {
            return None;
        },
    };
    loop
        invariant
            p.wf(),
            p.evolved(*old(p)),
            accounted(*p, *old(p)),
            p.open_markers() == old(p).open_markers(),
            p.depth_level() < MAX_DEPTH,
            p.is_top(lhs),
            is_expr_kind_spec(p.node_kind(lhs.index())),
            p.started(e0) && is_expr_kind_spec(p.node_kind(e0)),
            !old(p).ended() ==> p.position() > old(p).position(),
            old(p).depth_level() + 1 < MAX_DEPTH,
            lhs.index() == chain_top(p.events_view(), e0),
            node_level(*p, lhs.index()) >= min_bp,
            right_operand_binds(*p, lhs.index()),
        ensures
            infix_binding(p.current_kind()) matches Some((l, _, _)) ==> l < min_bp,
        decreases p.remaining(),
    {
        let (l_bp, r_bp, kind) = match infix_bp(p.current()) {
            Some(t) => t,
            None => {
                break;
            },
        };
        if l_bp < min_bp {
            break;
        }
        let ghost p0 = *p;
        let ghost l0 = lhs.index();
        let m = lhs.precede(p);
        let ghost p1 = *p;
        p.bump();  // the operator
        let ghost p2 = *p;
        expr_bp(p, r_bp);
        let ghost p3 = *p;
        lhs = m.complete(p, kind);
        proof {
            lemma_chain_top_kept(p0, *p, e0);
            lemma_chain_top_linked(p1, *p, l0, m.index());
            let mi = m.index();
            assert(p2.event_count() == mi + 2);
            assert(p2.consumed_kind(mi + 1) == Some(p0.current_kind()));
            assert(p.consumed_kind(mi + 1) == Some(p0.current_kind())) by {
                assert(p3.consumed_kind(mi + 1) == p2.consumed_kind(mi + 1));
            }
            if p.started(mi + 2) {
                assert(p3.started(mi + 2)) by {
                    if p3.event_count() > mi + 2 {
                        assert(p.events_view()[mi + 2] == p3.events_view()[mi + 2]);
                    }
                }
                let c = chain_top(p3.events_view(), mi + 2);
                lemma_chain_top_kept(p3, *p, mi + 2);
                assert(p.events_view()[c] == p3.events_view()[c]);
                if is_infix_node_kind(p3.node_kind(c)) {
                    assert(p.consumed_kind(c + 1) == p3.consumed_kind(c + 1));
                }
                assert(node_level(*p, c) == node_level(p3, c));
            }
        }
    }
    Some(lhs)
}

/// Infix operator binding powers `(left, right, node-kind)`.
fn infix_bp(op: K) -> (r: Option<(u8, u8, K)>)
    ensures
        r == infix_binding(op),
        r is Some ==> op != K::Eof,
{
    let bp: (u8, u8) = match op {
        K::Eq | K::PlusEq | K::MinusEq | K::StarEq | K::SlashEq | K::PercentEq => {
            return Some((3, 2, K::AssignExpr));
        },
        K::DotDot | K::DotDotEq => {
            return Some((4, 5, K::RangeExpr));
        },
        K::PipePipe => (6, 7),
        K::AmpAmp => (8, 9),
        K::EqEq | K::Ne | K::Lt | K::Le | K::Gt | K::Ge => (10, 11),
        K::Pipe => (12, 13),
        K::Caret => (14, 15),
        K::Amp => (16, 17),
        K::Shl | K::Shr => (18, 19),
        K::Plus | K::Minus => (20, 21),
        K::Star | K::Slash | K::Percent => (22, 23),
        _ => {
            return None;
        },
    };
    Some((bp.0, bp.1, K::BinExpr))
}

/// Prefix operators and primaries, then trailing postfix. This is the
/// recursion chokepoint, so the stack-overflow guard lives here: past the
/// depth limit it recovers (consumes a token, reports) instead of descending.
fn lhs(p: &mut Parser) -> (r: Option<CompletedMarker>)
    requires
        old(p).wf(),
        old(p).depth_level() < MAX_DEPTH,
    ensures
        step(*final(p), *old(p)),
        r matches Some(cm) ==> final(p).is_top(cm),
        r matches Some(cm) ==> is_expr_kind_spec(final(p).node_kind(cm.index())),
        old(p).depth_level() + 1 < MAX_DEPTH ==>
            (r is None <==> !is_expr_start(old(p).current_kind())),
        !old(p).ended() ==> final(p).position() > old(p).position(),
        r is Some ==> final(p).started(old(p).event_count()) && is_expr_kind_spec(
            final(p).node_kind(old(p).event_count()),
        ),
        r matches Some(cm) ==> cm.index() == chain_top(final(p).events_view(), old(p).event_count()),
        r matches Some(cm) ==> !is_infix_node_kind(final(p).node_kind(cm.index())),
        old(p).depth_level() + 1 < MAX_DEPTH && !is_expr_start(old(p).current_kind()) ==> final(p).errors_view().drop_last() == old(p).errors_view() && final(p).errors_view().last().message@
            == "expected an expression"@,
        old(p).depth_level() + 1 >= MAX_DEPTH ==> r is None && final(p).errors_view().drop_last()
            == old(p).errors_view() && final(p).errors_view().last().message@
            == "expression nesting too deep"@,
        r is None ==> final(p).events_view() == old(p).events_view() || final(p).events_view()
            == old(p).events_view() + error_leaf(),
    decreases old(p).remaining(), MAX_DEPTH - old(p).depth_level(), 1int,
{
    if !p.enter_recursion() {
        p.err_and_bump("expression nesting too deep");
        p.leave_recursion();
        return None;
    }
    let result = lhs_inner(p);
    p.leave_recursion();
    result
}

fn lhs_inner(p: &mut Parser) -> (r: Option<CompletedMarker>)
    requires
        old(p).wf(),
        old(p).depth_level() < MAX_DEPTH,
    ensures
        prefix_operator_node(old(p).current_kind()) matches Some(n) ==> r is Some && node_at(
            *final(p),
            old(p).event_count(),
            n,
        ),
        step(*final(p), *old(p)),
        r matches Some(cm) ==> final(p).is_top(cm),
        r matches Some(cm) ==> is_expr_kind_spec(final(p).node_kind(cm.index())),
        r is None <==> !is_expr_start(old(p).current_kind()),
        !old(p).ended() ==> final(p).position() > old(p).position(),
        r is Some ==> final(p).started(old(p).event_count()) && is_expr_kind_spec(
            final(p).node_kind(old(p).event_count()),
        ),
        r matches Some(cm) ==> cm.index() == chain_top(final(p).events_view(), old(p).event_count()),
        r matches Some(cm) ==> !is_infix_node_kind(final(p).node_kind(cm.index())),
        r is None ==> final(p).errors_view().drop_last() == old(p).errors_view()
            && final(p).errors_view().last().message@ == "expected an expression"@,
        r is None ==> final(p).events_view() == old(p).events_view() || final(p).events_view()
            == old(p).events_view() + error_leaf(),
    decreases old(p).remaining(), MAX_DEPTH - old(p).depth_level(), 8int,
{
    match p.current() {
        K::Minus | K::Bang => Some(prefix(p, K::PrefixExpr)),
        K::KwTry => Some(prefix(p, K::TryExpr)),
        _ => {
            let cm = match primary(p) {
                Some(cm) => cm,
                None => {
                    return None;
                },
            };
            Some(postfix(p, cm))
        },
    }
}

/// A prefix-operator expression: consume the operator, then an operand
/// binding tighter than any infix. Where an operand follows the operator, the
/// operand's outermost node (its first node, followed through the nodes opened
/// around it) is no infix node: an infix operator after the operand closes the
/// prefix expression first, so the infix node wraps it instead of sitting in
/// it (`-a + b` is `(-a) + b`).
fn prefix(p: &mut Parser, kind: K) -> (r: CompletedMarker)
    requires
        old(p).wf(),
        kind != K::Error,
        old(p).depth_level() < MAX_DEPTH,
    ensures
        step(*final(p), *old(p)),
        final(p).is_top(r),
        r.index() == old(p).event_count(),
        node_at(*final(p), r.index(), kind),
        !old(p).ended() ==> final(p).position() > old(p).position(),
        !old(p).ended() && old(p).depth_level() + 1 < MAX_DEPTH && is_expr_start(
            old(p).kind_ahead(1),
        ) ==> final(p).started(old(p).event_count() + 2) && !is_infix_node_kind(
            final(p).node_kind(chain_top(final(p).events_view(), old(p).event_count() + 2)),
        ),
    decreases old(p).remaining(), MAX_DEPTH - old(p).depth_level(), 4int,
{
    let m = p.start();
    p.bump();
    let ghost p2 = *p;
    expr_bp(p, PREFIX_BP);
    let ghost p3 = *p;
    let r = m.complete(p, kind);
    proof {
        if p2.depth_level() + 1 < MAX_DEPTH && is_expr_start(p2.current_kind()) {
            let c = chain_top(p3.events_view(), p2.event_count());
            lemma_chain_top_kept(p3, *p, p2.event_count());
            assert(p.events_view()[c] == p3.events_view()[c]);
        }
    }
    r
}

/// The tightest forms, applied left to right: call, field/method, index,
/// cast.
fn postfix(p: &mut Parser, lhs: CompletedMarker) -> (r: CompletedMarker)
    requires
        old(p).wf(),
        old(p).depth_level() < MAX_DEPTH,
        old(p).is_top(lhs),
    ensures
        step(*final(p), *old(p)),
        final(p).is_top(r),
        r.index() == lhs.index() || is_postfix_kind(final(p).node_kind(r.index())),
        !is_postfix_start(final(p).current_kind()),
        is_postfix_start(old(p).current_kind()) ==> final(p).position() > old(p).position()
            && is_postfix_kind(final(p).node_kind(r.index())),
        !is_postfix_start(old(p).current_kind()) ==> r == lhs && *final(p) == *old(p),
        r.index() == chain_top(final(p).events_view(), lhs.index()),
    decreases old(p).remaining(), MAX_DEPTH - old(p).depth_level(), 6int,
{
    let ghost i0 = lhs.index();
    let ghost lhs0 = lhs;
    let mut lhs = lhs;
    loop
        invariant
            p.wf(),
            p.evolved(*old(p)),
            accounted(*p, *old(p)),
            p.open_markers() == old(p).open_markers(),
            p.depth_level() < MAX_DEPTH,
            p.is_top(lhs),
            lhs.index() == i0 || is_postfix_kind(p.node_kind(lhs.index())),
            p.position() == old(p).position() ==> lhs == lhs0 && *p == *old(p),
            p.position() > old(p).position() ==> is_postfix_kind(p.node_kind(lhs.index())),
            !is_postfix_start(old(p).current_kind()) ==> p.position() == old(p).position(),
            lhs.index() == chain_top(p.events_view(), i0),
        ensures
            !is_postfix_start(p.current_kind()),
        decreases p.remaining(),
    {
        let ghost p0 = *p;
        let ghost l0 = lhs.index();
        lhs = match p.current() {
            K::LParen => call(p, lhs),
            K::Dot => field_or_method(p, lhs),
            K::LBracket => index(p, lhs),
            K::KwAs => cast(p, lhs),
            _ => {
                break;
            },
        };
        proof {
            lemma_chain_top_kept(p0, *p, i0);
        }
    }
    lhs
}

fn primary(p: &mut Parser) -> (r: Option<CompletedMarker>)
    requires
        old(p).wf(),
        old(p).depth_level() < MAX_DEPTH,
    ensures
        step(*final(p), *old(p)),
        r matches Some(cm) ==> final(p).is_top(cm),
        r matches Some(cm) ==> primary_node(old(p).current_kind(), final(p).node_kind(cm.index())),
        r is None <==> !is_primary_start(old(p).current_kind()),
        r matches Some(cm) ==> cm.index() == old(p).event_count(),
        !old(p).ended() ==> final(p).position() > old(p).position(),
        r is None ==> final(p).errors_view().drop_last() == old(p).errors_view()
            && final(p).errors_view().last().message@ == "expected an expression"@,
        r is None ==> final(p).events_view() == old(p).events_view() || final(p).events_view()
            == old(p).events_view() + error_leaf(),
    decreases old(p).remaining(), MAX_DEPTH - old(p).depth_level(), 7int,
{
    match p.current() {
        K::IntLit | K::FloatLit | K::ByteLit | K::StrLit | K::KwTrue | K::KwFalse => Some(
            literal(p),
        ),
        K::Ident | K::KwSelf | K::KwSelfType => Some(path_or_struct_lit(p)),
        K::LParen => Some(paren_expr(p)),
        K::LBracket => Some(list_lit(p)),
        K::LBrace => Some(block(p)),
        K::KwIf => Some(if_expr(p)),
        K::KwMatch => Some(match_expr(p)),
        K::KwLoop => Some(loop_expr(p)),
        K::KwScope => Some(scope_expr(p)),
        K::Pipe | K::PipePipe => Some(closure_expr(p)),
        K::KwReturn => Some(jump_expr(p, K::ReturnStmt, true)),
        K::KwBreak => Some(jump_expr(p, K::BreakStmt, true)),
        K::KwContinue => Some(jump_expr(p, K::ContinueStmt, false)),
        _ => {
            p.err_and_bump("expected an expression");
            None
        },
    }
}

fn literal(p: &mut Parser) -> (r: CompletedMarker)
    requires
        old(p).wf(),
    ensures
        step(*final(p), *old(p)),
        final(p).is_top(r),
        r.index() == old(p).event_count(),
        node_at(*final(p), r.index(), K::LiteralExpr),
        !old(p).ended() ==> final(p).position() > old(p).position(),
{
    let m = p.start();
    p.bump();
    m.complete(p, K::LiteralExpr)
}

/// A path expression, or a struct literal `Path { fields }` when allowed.
fn path_or_struct_lit(p: &mut Parser) -> (r: CompletedMarker)
    requires
        old(p).wf(),
        old(p).depth_level() < MAX_DEPTH,
    ensures
        step(*final(p), *old(p)),
        final(p).is_top(r),
        r.index() == old(p).event_count(),
        final(p).node_kind(r.index()) == K::PathExpr
            || final(p).node_kind(r.index()) == K::StructLitExpr,
        is_segment_start(old(p).current_kind()) ==> final(p).position() > old(p).position(),
    decreases old(p).remaining(), MAX_DEPTH - old(p).depth_level(), 6int,
{
    let m = p.start();
    path(p, false);
    if !p.no_struct() && p.at(K::LBrace) {
        struct_lit_fields(p);
        return m.complete(p, K::StructLitExpr);
    }
    m.complete(p, K::PathExpr)
}

/// `{ field (, field)* }` where field is `name: expr`, shorthand `name`, or
/// `..base`.
fn struct_lit_fields(p: &mut Parser)
    requires
        old(p).wf(),
        old(p).depth_level() < MAX_DEPTH,
    ensures
        step(*final(p), *old(p)),
        node_at(*final(p), old(p).event_count(), K::StructLitFieldList),
    decreases old(p).remaining(), MAX_DEPTH - old(p).depth_level(), 5int,
{
    let m = p.start();
    p.bump();  // {
    while !p.at(K::RBrace) && !p.at_end()
        invariant
            p.wf(),
            p.evolved(*old(p)),
            accounted(*p, *old(p)),
            p.open_markers() == old(p).open_markers().push(m.index()),
            p.depth_level() < MAX_DEPTH,
        decreases p.remaining(),
    {
        if p.eat(K::DotDot) {
            expr(p);  // ..base
            break;
        }
        struct_lit_field(p);
        if !p.eat(K::Comma) {
            break;
        }
    }
    p.expect(K::RBrace);
    m.complete(p, K::StructLitFieldList);
}

fn struct_lit_field(p: &mut Parser)
    requires
        old(p).wf(),
        old(p).depth_level() < MAX_DEPTH,
    ensures
        step(*final(p), *old(p)),
        node_at(*final(p), old(p).event_count(), K::StructLitField),
    decreases old(p).remaining(), MAX_DEPTH - old(p).depth_level(), 4int,
{
    let m = p.start();
    p.expect(K::Ident);
    if p.eat(K::Colon) {
        expr(p);
    }
    m.complete(p, K::StructLitField);
}

fn paren_expr(p: &mut Parser) -> (r: CompletedMarker)
    requires
        old(p).wf(),
        old(p).depth_level() < MAX_DEPTH,
    ensures
        step(*final(p), *old(p)),
        final(p).is_top(r),
        r.index() == old(p).event_count(),
        node_at(*final(p), r.index(), K::ParenExpr),
        !old(p).ended() ==> final(p).position() > old(p).position(),
    decreases old(p).remaining(), MAX_DEPTH - old(p).depth_level(), 4int,
{
    let m = p.start();
    p.bump();  // (
    if !p.eat(K::RParen) {
        expr(p);
        p.expect(K::RParen);
    }
    m.complete(p, K::ParenExpr)
}

fn list_lit(p: &mut Parser) -> (r: CompletedMarker)
    requires
        old(p).wf(),
        old(p).depth_level() < MAX_DEPTH,
    ensures
        step(*final(p), *old(p)),
        final(p).is_top(r),
        r.index() == old(p).event_count(),
        node_at(*final(p), r.index(), K::ListLitExpr),
        !old(p).ended() ==> final(p).position() > old(p).position(),
    decreases old(p).remaining(), MAX_DEPTH - old(p).depth_level(), 4int,
{
    let m = p.start();
    p.bump();  // [
    while !p.at(K::RBracket) && !p.at_end()
        invariant
            p.wf(),
            p.evolved(*old(p)),
            accounted(*p, *old(p)),
            p.open_markers() == old(p).open_markers().push(m.index()),
            p.depth_level() < MAX_DEPTH,
            !old(p).ended() ==> p.position() > old(p).position(),
        decreases p.remaining(),
    {
        expr(p);
        if !p.eat(K::Comma) {
            break;
        }
    }
    p.expect(K::RBracket);
    m.complete(p, K::ListLitExpr)
}

/// `if cond { .. } (else if .. | else { .. })?`. The condition forbids struct
/// literals so `if x { }` reads `x` then the block.
fn if_expr(p: &mut Parser) -> (r: CompletedMarker)
    requires
        old(p).wf(),
        old(p).depth_level() < MAX_DEPTH,
        old(p).current_kind() == K::KwIf,
    ensures
        step(*final(p), *old(p)),
        final(p).is_top(r),
        r.index() == old(p).event_count(),
        node_at(*final(p), r.index(), K::IfExpr),
        !old(p).ended() ==> final(p).position() > old(p).position(),
    decreases old(p).remaining(), MAX_DEPTH - old(p).depth_level(), 5int,
{
    let m = p.start();
    p.bump();  // if
    cond(p);
    block(p);
    if p.eat(K::KwElse) {
        if p.at(K::KwIf) {
            if_expr(p);
        } else {
            block(p);
        }
    }
    m.complete(p, K::IfExpr)
}

/// Parse a condition or scrutinee expression with struct literals disabled,
/// restoring the caller's setting afterwards.
fn cond(p: &mut Parser)
    requires
        old(p).wf(),
        old(p).depth_level() < MAX_DEPTH,
    ensures
        step(*final(p), *old(p)),
        final(p).no_struct_flag() == old(p).no_struct_flag(),
        !old(p).ended() ==> final(p).position() > old(p).position(),
        old(p).depth_level() + 1 < MAX_DEPTH && is_expr_start(old(p).current_kind()) ==> final(p).started(old(p).event_count()) && is_expr_kind_spec(
            final(p).node_kind(old(p).event_count()),
        ),
        old(p).depth_level() + 1 < MAX_DEPTH && !is_expr_start(old(p).current_kind()) ==> final(p).errors_view().drop_last() == old(p).errors_view() && final(p).errors_view().last().message@
            == "expected an expression"@,
        old(p).depth_level() + 1 >= MAX_DEPTH ==> final(p).errors_view().drop_last() == old(p).errors_view() && final(p).errors_view().last().message@
            == "expression nesting too deep"@,
    decreases old(p).remaining(), MAX_DEPTH - old(p).depth_level(), 4int,
{
    let prev = p.set_no_struct(true);
    expr(p);
    p.set_no_struct(prev);
}

fn match_expr(p: &mut Parser) -> (r: CompletedMarker)
    requires
        old(p).wf(),
        old(p).depth_level() < MAX_DEPTH,
    ensures
        step(*final(p), *old(p)),
        final(p).is_top(r),
        r.index() == old(p).event_count(),
        node_at(*final(p), r.index(), K::MatchExpr),
        !old(p).ended() ==> final(p).position() > old(p).position(),
    decreases old(p).remaining(), MAX_DEPTH - old(p).depth_level(), 6int,
{
    let m = p.start();
    p.bump();  // match
    cond(p);
    match_arm_list(p);
    m.complete(p, K::MatchExpr)
}

fn match_arm_list(p: &mut Parser)
    requires
        old(p).wf(),
        old(p).depth_level() < MAX_DEPTH,
    ensures
        step(*final(p), *old(p)),
        node_at(*final(p), old(p).event_count(), K::MatchArmList),
    decreases old(p).remaining(), MAX_DEPTH - old(p).depth_level(), 5int,
{
    let m = p.start();
    p.expect(K::LBrace);
    while !p.at(K::RBrace) && !p.at_end()
        invariant
            p.wf(),
            p.evolved(*old(p)),
            accounted(*p, *old(p)),
            p.open_markers() == old(p).open_markers().push(m.index()),
            p.depth_level() < MAX_DEPTH,
        decreases p.remaining(),
    {
        match_arm(p);
    }
    p.expect(K::RBrace);
    m.complete(p, K::MatchArmList);
}

fn match_arm(p: &mut Parser)
    requires
        old(p).wf(),
        old(p).depth_level() < MAX_DEPTH,
    ensures
        step(*final(p), *old(p)),
        !old(p).ended() ==> final(p).position() > old(p).position(),
        node_at(*final(p), old(p).event_count(), K::MatchArm),
    decreases old(p).remaining(), MAX_DEPTH - old(p).depth_level(), 4int,
{
    let m = p.start();
    pattern::pattern(p);
    if p.at(K::KwIf) {
        let g = p.start();
        p.bump();
        expr(p);
        g.complete(p, K::MatchGuard);
    }
    p.expect(K::FatArrow);
    expr(p);
    p.eat(K::Comma);
    m.complete(p, K::MatchArm);
}

/// The three `loop` forms: infinite, pre-condition, iterator.
fn loop_expr(p: &mut Parser) -> (r: CompletedMarker)
    requires
        old(p).wf(),
        old(p).depth_level() < MAX_DEPTH,
    ensures
        step(*final(p), *old(p)),
        final(p).is_top(r),
        r.index() == old(p).event_count(),
        node_at(*final(p), r.index(), K::LoopExpr),
        !old(p).ended() ==> final(p).position() > old(p).position(),
    decreases old(p).remaining(), MAX_DEPTH - old(p).depth_level(), 5int,
{
    let m = p.start();
    p.bump();  // loop
    if p.eat(K::KwIf) {
        cond(p);
    } else if !p.at(K::LBrace) {
        pattern::pattern(p);
        p.expect(K::KwIn);
        cond(p);
    }
    block(p);
    m.complete(p, K::LoopExpr)
}

/// `scope |s| { .. }`.
fn scope_expr(p: &mut Parser) -> (r: CompletedMarker)
    requires
        old(p).wf(),
        old(p).depth_level() < MAX_DEPTH,
    ensures
        step(*final(p), *old(p)),
        final(p).is_top(r),
        r.index() == old(p).event_count(),
        node_at(*final(p), r.index(), K::ScopeExpr),
        !old(p).ended() ==> final(p).position() > old(p).position(),
    decreases old(p).remaining(), MAX_DEPTH - old(p).depth_level(), 5int,
{
    let m = p.start();
    p.bump();  // scope
    closure_params(p);
    block(p);
    m.complete(p, K::ScopeExpr)
}

/// `|a, b| body` or `|| body`, with optional `-> Type` before the body.
fn closure_expr(p: &mut Parser) -> (r: CompletedMarker)
    requires
        old(p).wf(),
        old(p).depth_level() < MAX_DEPTH,
    ensures
        step(*final(p), *old(p)),
        final(p).is_top(r),
        r.index() == old(p).event_count(),
        node_at(*final(p), r.index(), K::ClosureExpr),
        old(p).current_kind() == K::Pipe || old(p).current_kind() == K::PipePipe ==> final(p).position() > old(p).position(),
    decreases old(p).remaining(), MAX_DEPTH - old(p).depth_level(), 4int,
{
    let m = p.start();
    closure_params(p);
    if p.eat(K::Arrow) {
        ty(p);
    }
    expr(p);
    m.complete(p, K::ClosureExpr)
}

fn closure_params(p: &mut Parser)
    requires
        old(p).wf(),
        old(p).depth_level() < MAX_DEPTH,
    ensures
        step(*final(p), *old(p)),
        node_at(*final(p), old(p).event_count(), K::ClosureParamList),
        old(p).current_kind() == K::Pipe || old(p).current_kind() == K::PipePipe ==> final(p).position() > old(p).position(),
{
    let m = p.start();
    if p.eat(K::PipePipe) {
        m.complete(p, K::ClosureParamList);
        return ;
    }
    p.expect(K::Pipe);
    while !p.at(K::Pipe) && !p.at_end()
        invariant
            p.wf(),
            p.evolved(*old(p)),
            accounted(*p, *old(p)),
            p.open_markers() == old(p).open_markers().push(m.index()),
            p.depth_level() < MAX_DEPTH,
            old(p).current_kind() == K::Pipe ==> p.position() > old(p).position(),
        decreases p.remaining(),
    {
        closure_param(p);
        if !p.eat(K::Comma) {
            break;
        }
    }
    p.expect(K::Pipe);
    m.complete(p, K::ClosureParamList);
}

fn closure_param(p: &mut Parser)
    requires
        old(p).wf(),
        old(p).depth_level() < MAX_DEPTH,
    ensures
        step(*final(p), *old(p)),
        node_at(*final(p), old(p).event_count(), K::ClosureParam),
{
    let m = p.start();
    p.expect(K::Ident);
    if p.eat(K::Colon) {
        ty(p);
    }
    m.complete(p, K::ClosureParam);
}

/// `return [expr]`, `break [expr]`, `continue`: diverging expressions. When
/// `takes_value` and the next token can start an expression, an operand is
/// parsed.
fn jump_expr(p: &mut Parser, kind: K, takes_value: bool) -> (r: CompletedMarker)
    requires
        old(p).wf(),
        kind != K::Error,
        old(p).depth_level() < MAX_DEPTH,
    ensures
        step(*final(p), *old(p)),
        final(p).is_top(r),
        r.index() == old(p).event_count(),
        node_at(*final(p), r.index(), kind),
        !old(p).ended() ==> final(p).position() > old(p).position(),
    decreases old(p).remaining(), MAX_DEPTH - old(p).depth_level(), 4int,
{
    let m = p.start();
    p.bump();  // return / break / continue
    if takes_value && at_expr_start(p) {
        expr(p);
    }
    m.complete(p, kind)
}

// ── postfix builders ────────────────────────────────────────────────────────

fn call(p: &mut Parser, lhs: CompletedMarker) -> (r: CompletedMarker)
    requires
        old(p).wf(),
        old(p).depth_level() < MAX_DEPTH,
        old(p).is_top(lhs),
        old(p).current_kind() == K::LParen,
    ensures
        step(*final(p), *old(p)),
        final(p).is_top(r),
        final(p).position() > old(p).position(),
        node_at(*final(p), r.index(), K::CallExpr),
        r.index() == chain_top(final(p).events_view(), lhs.index()),
    decreases old(p).remaining(), MAX_DEPTH - old(p).depth_level(), 5int,
{
    let m = lhs.precede(p);
    let ghost p1 = *p;
    arg_list(p);
    let r = m.complete(p, K::CallExpr);
    proof {
        lemma_chain_top_linked(p1, *p, lhs.index(), m.index());
    }
    r
}

fn arg_list(p: &mut Parser)
    requires
        old(p).wf(),
        old(p).depth_level() < MAX_DEPTH,
        old(p).current_kind() == K::LParen,
    ensures
        step(*final(p), *old(p)),
        final(p).position() > old(p).position(),
        node_at(*final(p), old(p).event_count(), K::ArgList),
    decreases old(p).remaining(), MAX_DEPTH - old(p).depth_level(), 4int,
{
    let m = p.start();
    p.bump();  // (
    while !p.at(K::RParen) && !p.at_end()
        invariant
            p.wf(),
            p.evolved(*old(p)),
            accounted(*p, *old(p)),
            p.open_markers() == old(p).open_markers().push(m.index()),
            p.depth_level() < MAX_DEPTH,
            p.position() > old(p).position(),
        decreases p.remaining(),
    {
        expr(p);
        if !p.eat(K::Comma) {
            break;
        }
    }
    p.expect(K::RParen);
    m.complete(p, K::ArgList);
}

fn field_or_method(p: &mut Parser, lhs: CompletedMarker) -> (r: CompletedMarker)
    requires
        old(p).wf(),
        old(p).depth_level() < MAX_DEPTH,
        old(p).is_top(lhs),
        old(p).current_kind() == K::Dot,
    ensures
        step(*final(p), *old(p)),
        final(p).is_top(r),
        final(p).position() > old(p).position(),
        final(p).node_kind(r.index()) == K::MethodCallExpr
            || final(p).node_kind(r.index()) == K::FieldExpr,
        r.index() == chain_top(final(p).events_view(), lhs.index()),
    decreases old(p).remaining(), MAX_DEPTH - old(p).depth_level(), 5int,
{
    let m = lhs.precede(p);
    let ghost p1 = *p;
    p.bump();  // .
    // A member name is an identifier or a keyword used as a name (`s.spawn(..)`,
    // `x.match(..)`): keywords read as identifiers in member position.
    if p.at(K::Ident) || p.current().is_keyword() {
        let n = p.start();
        p.bump();
        n.complete(p, K::NameRef);
    } else {
        p.error("expected a field or method name");
    }
    let r = if p.at(K::LParen) {
        arg_list(p);
        m.complete(p, K::MethodCallExpr)
    } else {
        m.complete(p, K::FieldExpr)
    };
    proof {
        lemma_chain_top_linked(p1, *p, lhs.index(), m.index());
    }
    r
}

fn index(p: &mut Parser, lhs: CompletedMarker) -> (r: CompletedMarker)
    requires
        old(p).wf(),
        old(p).depth_level() < MAX_DEPTH,
        old(p).is_top(lhs),
        old(p).current_kind() == K::LBracket,
    ensures
        step(*final(p), *old(p)),
        final(p).is_top(r),
        final(p).position() > old(p).position(),
        node_at(*final(p), r.index(), K::IndexExpr),
        r.index() == chain_top(final(p).events_view(), lhs.index()),
    decreases old(p).remaining(), MAX_DEPTH - old(p).depth_level(), 5int,
{
    let m = lhs.precede(p);
    let ghost p1 = *p;
    p.bump();  // [
    expr(p);
    p.expect(K::RBracket);
    let r = m.complete(p, K::IndexExpr);
    proof {
        lemma_chain_top_linked(p1, *p, lhs.index(), m.index());
    }
    r
}

fn cast(p: &mut Parser, lhs: CompletedMarker) -> (r: CompletedMarker)
    requires
        old(p).wf(),
        old(p).depth_level() < MAX_DEPTH,
        old(p).is_top(lhs),
        old(p).current_kind() == K::KwAs,
    ensures
        step(*final(p), *old(p)),
        final(p).is_top(r),
        final(p).position() > old(p).position(),
        node_at(*final(p), r.index(), K::CastExpr),
        r.index() == chain_top(final(p).events_view(), lhs.index()),
{
    let m = lhs.precede(p);
    let ghost p1 = *p;
    p.bump();  // as
    ty(p);
    let r = m.complete(p, K::CastExpr);
    proof {
        lemma_chain_top_linked(p1, *p, lhs.index(), m.index());
    }
    r
}

} // verus!
