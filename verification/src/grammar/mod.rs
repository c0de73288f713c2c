//! Grammar productions. One module per production family; this module owns the
//! entry point (`source_file`) and the shared `path` helper. Every function
//! here is small and single-purpose, and every loop either consumes a token or
//! breaks: the termination discipline, which Verus checks.
//!
//! Each production keeps the cursor's invariant and its open markers: whatever
//! nodes it opens it also closes, so the event stream stays well-nested.

mod expr;
pub mod item;

pub use expr::{
    expr_start_kinds, infix_binding, is_infix_node_kind, lemma_infix_associativity,
    lemma_infix_operators_classified, lemma_prefix_binds_tightest,
    lemma_prefix_operators_classified, prefix_operator_node,
};
mod pattern;
mod stmt;
mod ty;

use crate::event::{balanced, count_tokens, parents_forward, split_state, Event};
use crate::parser::{accounted, lemma_wf_bounds, Parser, MAX_DEPTH};
use crate::syntax_kind::SyntaxKind as K;
use item::{is_item_start, item_node_for};
use crate::token::Token;
use vstd::prelude::*;

verus! {

broadcast use lemma_wf_bounds;

/// One grammar step: the cursor keeps its invariant, its open markers and its
/// depth, moves only forward, and completes no `Error` node without a new
/// diagnostic.
pub open spec fn step(p: Parser, prev: Parser) -> bool {
    &&& p.wf()
    &&& p.evolved(prev)
    &&& p.open_markers() =~= prev.open_markers()
    &&& accounted(p, prev)
}

/// Event `j` of the cursor's stream opens a node of kind `k`.
pub open spec fn node_at(p: Parser, j: int, k: K) -> bool {
    p.started(j) && p.node_kind(j) == k
}

/// The node of the item the cursor's first token begins, if it begins one
/// whose keyword names its node (`pub` looks at the keyword after it).
pub open spec fn first_item_node(p: Parser) -> Option<K> {
    let k = if p.current_kind() == K::KwPub {
        p.kind_ahead(1)
    } else {
        p.current_kind()
    };
    if is_item_start(p.current_kind(), p.current_text_view()) {
        item_node_for(k)
    } else {
        None
    }
}

/// The node of the item a run of significant tokens begins with, if it begins
/// with one whose keyword names its node (`pub` looks at the token after it).
pub open spec fn leading_item(st: Seq<Token>) -> Option<K> {
    if st.len() == 0 {
        None
    } else {
        let k0 = st[0].kind;
        let k = if k0 == K::KwPub {
            if st.len() > 1 {
                st[1].kind
            } else {
                K::Eof
            }
        } else {
            k0
        };
        if is_item_start(k0, st[0].text@) {
            item_node_for(k)
        } else {
            None
        }
    }
}

/// Whether `k` can begin a path segment.
pub open spec fn is_segment_start(k: K) -> bool {
    k == K::Ident || k == K::KwSelf || k == K::KwSelfType
}

/// Parse a whole source file: a sequence of items until end of input. A token
/// that can't begin an item is absorbed (with one diagnostic) into a single
/// `Error` node up to the next item start, so a garbage run resyncs cleanly
/// rather than emitting one error per token.
///
/// This is the parser's totality backstop: it consumes every token, so it
/// never honors `at_claimed_close`. Every iteration consumes at least one
/// token (an item, or at least one token of a garbage run), so the loop
/// reaches the end. Input that begins with an item yields that item's node
/// as the first node inside the `SourceFile`.
pub(crate) fn source_file(p: &mut Parser)
    requires
        old(p).wf(),
        old(p).event_count() == 0,
        old(p).position() == 0,
        old(p).open_markers().len() == 0,
        old(p).depth_level() == 0,
    ensures
        step(*final(p), *old(p)),
        final(p).ended(),
        balanced(final(p).events_view()),
        final(p).events_view()[0] == (Event::Start { kind: K::SourceFile, forward_parent: None }),
        count_tokens(final(p).events_view()) == final(p).token_count(),
        split_state(final(p).events_view()) == Some(false),
        parents_forward(final(p).events_view()),
        first_item_node(*old(p)) matches Some(n) ==> final(p).started(1) && final(p).node_kind(1)
            == n,
{
    let m = p.start();
    let ghost p0 = *p;
    while !p.at_end()
        invariant
            p.wf(),
            p.evolved(*old(p)),
            accounted(*p, *old(p)),
            p.open_markers() == seq![0int],
            m.index() == 0,
            p.depth_level() == 0,
            p.position() == 0 ==> p.event_count() == 1 && p.current_kind() == old(p).current_kind()
                && p.kind_ahead(1) == old(p).kind_ahead(1) && p.current_text_view() == old(
                p,
            ).current_text_view(),
            p.position() > 0 ==> (first_item_node(*old(p)) matches Some(n) ==> p.started(1)
                && p.node_kind(1) == n),
        decreases p.remaining(),
    {
        let ghost start = p.position();
        if item::at_item_start(p) {
            item::item(p);
        } else {
            // Absorb the garbage run [here, next-item-start) as one Error node.
            let ghost before_err = p.error_count();
            p.error("expected an item");
            let e = p.start();
            p.bump();
            while !p.at_end() && !item::at_item_start(p)
                invariant
                    p.wf(),
                    p.evolved(*old(p)),
                    accounted(*p, *old(p)),
                    p.open_markers() == seq![0int, e.index()],
                    p.depth_level() == 0,
                    p.position() > start,
                    p.error_count() > before_err,
                    accounted(*p, *old(p)),
                    start > 0 ==> (first_item_node(*old(p)) matches Some(n) ==> p.started(1)
                        && p.node_kind(1) == n),
                    start == 0 ==> first_item_node(*old(p)) is None,
                decreases p.remaining(),
            {
                p.bump();
            }
            e.complete(p, K::Error);
        }
    }
    let ghost before = *p;
    m.complete(p, K::SourceFile);
    proof {
        crate::parser::lemma_root_closed(before, K::SourceFile);
    }
}

/// A `::`-separated path of name segments (e.g. `std::io::print`). When
/// `allow_dot` is set, `.` also separates segments: used by enum-variant
/// patterns (`FsError.NotFound`). Returns the number of segments parsed.
pub(crate) fn path(p: &mut Parser, allow_dot: bool) -> (segments: usize)
    requires
        old(p).wf(),
    ensures
        step(*final(p), *old(p)),
        is_segment_start(old(p).current_kind()) ==> final(p).position() > old(p).position()
            && segments >= 1,
        node_at(*final(p), old(p).event_count(), K::Path),
{
    let m = p.start();
    let mut segments: usize = 0;
    loop
        invariant
            p.wf(),
            p.evolved(*old(p)),
            accounted(*p, *old(p)),
            p.open_markers() == old(p).open_markers().push(m.index()),
            segments <= p.position() - old(p).position(),
            segments == 0 ==> p.position() == old(p).position() && p.current_kind() == old(
                p,
            ).current_kind(),
            segments >= 1 ==> p.position() > old(p).position(),
        ensures
            p.wf(),
            p.evolved(*old(p)),
            accounted(*p, *old(p)),
            p.open_markers() == old(p).open_markers().push(m.index()),
            is_segment_start(old(p).current_kind()) ==> segments >= 1 && p.position() > old(
                p,
            ).position(),
        decreases p.remaining(),
    {
        if !path_segment(p) {
            break;
        }
        segments = segments + 1;
        let join = p.at(K::ColonColon) || (allow_dot && p.at(K::Dot));
        if join {
            p.bump();
        } else {
            break;
        }
    }
    m.complete(p, K::Path);
    segments
}

/// One path segment: an identifier, `self`, or `Self`. Returns whether one was
/// consumed.
fn path_segment(p: &mut Parser) -> (r: bool)
    requires
        old(p).wf(),
    ensures
        step(*final(p), *old(p)),
        r == is_segment_start(old(p).current_kind()),
        r ==> final(p).position() == old(p).position() + 1,
        !r ==> final(p).position() == old(p).position() && final(p).current_kind() == old(
            p,
        ).current_kind(),
        r ==> node_at(*final(p), old(p).event_count(), K::PathSegment),
        !r ==> final(p).events_view() == old(p).events_view(),
{
    if p.at(K::Ident) || p.at(K::KwSelf) || p.at(K::KwSelfType) {
        let m = p.start();
        p.bump();
        m.complete(p, K::PathSegment);
        true
    } else {
        false
    }
}

} // verus!
