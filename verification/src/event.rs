//! Parser events and tree materialization.
//!
//! The grammar never touches `Rc`, offsets or trivia. It emits a flat
//! `Vec<Event>` over the significant tokens; `build_tree` then walks the events
//! alongside the full token list and produces the green tree, re-inserting
//! trivia by source position.

use crate::green::{children_leaves, ShapeStep, frames_node_count, frames_node_kinds, frames_shape, node_shape, node_count, node_kinds, node_text, node_wf, GreenNode, GreenNodeBuilder, GreenToken};
use crate::invariants::{
    significant_leaves_text, significant_tokens_text, trivia_leaves, trivia_tokens,
};
use crate::syntax_kind::{is_trivia_kind, SyntaxKind};
use crate::text::{blen, lemma_blen_concat};
use crate::token::Token;
use std::rc::Rc;
use vstd::prelude::*;
use vstd::multiset::Multiset;

verus! {

broadcast use vstd::multiset::group_multiset_axioms;

/// A flat instruction in the parse stream.
#[derive(Debug, Clone, Copy, PartialEq, Eq, Structural)]
pub enum Event {
    /// Open a node. `forward_parent` (an absolute event index) lets a completed
    /// node be retroactively wrapped by a later one: the mechanism behind
    /// left-associative precedence (see `CompletedMarker::precede`).
    Start { kind: SyntaxKind, forward_parent: Option<usize> },
    /// Close the most recently opened node.
    Finish,
    /// Consume the next significant token.
    Token,
    /// Split the next significant token after its first character: the first
    /// character becomes a leaf of kind `first`; the rest stays the current
    /// token with kind `rest`, consumed by the next `Token` (`>>` into `>` `>`).
    Split { first: SyntaxKind, rest: SyntaxKind },
    /// An abandoned `Start` (or a `Start` consumed as a forward parent). Skipped.
    Tombstone,
}

// ── counting over event sequences ───────────────────────────────────────────

/// The number of `Start` events.
pub open spec fn count_starts(es: Seq<Event>) -> nat
    decreases es.len(),
{
    if es.len() == 0 {
        0
    } else {
        count_starts(es.drop_last()) + if es.last() is Start {
            1nat
        } else {
            0nat
        }
    }
}

/// The number of `Finish` events.
pub open spec fn count_finishes(es: Seq<Event>) -> nat
    decreases es.len(),
{
    if es.len() == 0 {
        0
    } else {
        count_finishes(es.drop_last()) + if es.last() is Finish {
            1nat
        } else {
            0nat
        }
    }
}

/// The number of `Token` events.
pub open spec fn count_tokens(es: Seq<Event>) -> nat
    decreases es.len(),
{
    if es.len() == 0 {
        0
    } else {
        count_tokens(es.drop_last()) + if es.last() is Token {
            1nat
        } else {
            0nat
        }
    }
}

/// Tracks splits: `Some(pending)` says whether a split remainder awaits its
/// `Token`; `None` marks a split that came while another was still pending.
pub open spec fn split_state(es: Seq<Event>) -> Option<bool>
    decreases es.len(),
{
    if es.len() == 0 {
        Some(false)
    } else {
        match split_state(es.drop_last()) {
            None => None,
            Some(pending) => match es.last() {
                Event::Split { .. } => if pending {
                    None
                } else {
                    Some(true)
                },
                Event::Token => Some(false),
                _ => Some(pending),
            },
        }
    }
}

/// Every forward parent points at an event of the stream.
pub open spec fn parents_in_range(es: Seq<Event>) -> bool {
    forall|i: int|
        0 <= i < es.len() ==> (#[trigger] es[i] matches Event::Start { forward_parent, .. } && (
        forward_parent matches Some(f) ==> f < es.len())) || !(es[i] is Start)
}

/// A balanced stream: one outermost node opened by the first event and closed
/// by the last, which stays open in between, with as many `Start`s as
/// `Finish`es.
pub open spec fn balanced(es: Seq<Event>) -> bool {
    &&& es.len() > 0
    &&& es[0] is Start
    &&& es.last() is Finish
    &&& forall|t: int|
        1 <= t < es.len() ==> count_starts(#[trigger] es.take(t)) > count_finishes(es.take(t))
    &&& count_starts(es) == count_finishes(es)
}

// ── token-side measures ─────────────────────────────────────────────────────

/// A significant token: neither trivia nor `Eof`.
pub open spec fn is_significant(t: Token) -> bool {
    !is_trivia_kind(t.kind) && t.kind != SyntaxKind::Eof
}

/// The number of significant tokens.
pub open spec fn sig_count(ts: Seq<Token>) -> nat
    decreases ts.len(),
{
    if ts.len() == 0 {
        0
    } else {
        sig_count(ts.drop_last()) + if is_significant(ts.last()) {
            1nat
        } else {
            0nat
        }
    }
}

/// The significant tokens of a run (neither trivia nor `Eof`), in order.
pub open spec fn significant_tokens(ts: Seq<Token>) -> Seq<Token>
    decreases ts.len(),
{
    if ts.len() == 0 {
        Seq::empty()
    } else if is_significant(ts.last()) {
        significant_tokens(ts.drop_last()).push(ts.last())
    } else {
        significant_tokens(ts.drop_last())
    }
}

/// There are `sig_count` significant tokens.
pub proof fn lemma_significant_tokens_len(ts: Seq<Token>)
    ensures
        significant_tokens(ts).len() == sig_count(ts),
    decreases ts.len(),
{
    if ts.len() > 0 {
        lemma_significant_tokens_len(ts.drop_last());
    }
}

/// The texts of a run of tokens, concatenated.
pub open spec fn tokens_text(ts: Seq<Token>) -> Seq<char>
    decreases ts.len(),
{
    if ts.len() == 0 {
        Seq::empty()
    } else {
        tokens_text(ts.drop_last()) + ts.last().text@
    }
}

/// No `Eof` token in the run.
pub open spec fn no_eof(ts: Seq<Token>) -> bool {
    forall|i: int| 0 <= i < ts.len() ==> (#[trigger] ts[i]).kind != SyntaxKind::Eof
}

/// The tokens that carry source text: all of them, less a final `Eof`.
pub open spec fn source_tokens(ts: Seq<Token>) -> Seq<Token> {
    if ts.len() > 0 && ts.last().kind == SyntaxKind::Eof {
        ts.drop_last()
    } else {
        ts
    }
}

/// A lexer-shaped stream: `Eof`, if present, only at the end.
pub open spec fn eof_only_last(ts: Seq<Token>) -> bool {
    no_eof(source_tokens(ts))
}

/// The stream and the tokens agree: the events are balanced, splits pair up
/// with a later `Token`, and there is exactly one `Token` per significant
/// token.
pub open spec fn events_match_tokens(es: Seq<Event>, ts: Seq<Token>) -> bool {
    &&& balanced(es)
    &&& split_state(es) == Some(false)
    &&& count_tokens(es) == sig_count(ts)
    &&& eof_only_last(ts)
}

// ── lemmas over the measures ────────────────────────────────────────────────

/// One more event extends every count by that event.
pub proof fn lemma_events_take_step(es: Seq<Event>, i: int)
    requires
        0 <= i < es.len(),
    ensures
        count_starts(es.take(i + 1)) == count_starts(es.take(i)) + if es[i] is Start {
            1nat
        } else {
            0nat
        },
        count_finishes(es.take(i + 1)) == count_finishes(es.take(i)) + if es[i] is Finish {
            1nat
        } else {
            0nat
        },
        count_tokens(es.take(i + 1)) == count_tokens(es.take(i)) + if es[i] is Token {
            1nat
        } else {
            0nat
        },
        split_state(es.take(i + 1)) == match split_state(es.take(i)) {
            None => None,
            Some(pending) => match es[i] {
                Event::Split { .. } => if pending {
                    None
                } else {
                    Some(true)
                },
                Event::Token => Some(false),
                _ => Some(pending),
            },
        },
{
    assert(es.take(i + 1).drop_last() =~= es.take(i));
    assert(es.take(i + 1).last() == es[i]);
}

/// No events have been counted in the empty prefix.
pub proof fn lemma_events_take_zero(es: Seq<Event>)
    ensures
        count_starts(es.take(0)) == 0,
        count_finishes(es.take(0)) == 0,
        count_tokens(es.take(0)) == 0,
        split_state(es.take(0)) == Some(false),
{
    assert(es.take(0) =~= Seq::<Event>::empty());
}

/// One more token extends the text and the significant count by that token.
pub proof fn lemma_tokens_take_step(ts: Seq<Token>, c: int)
    requires
        0 <= c < ts.len(),
    ensures
        tokens_text(ts.take(c + 1)) == tokens_text(ts.take(c)) + ts[c].text@,
        sig_count(ts.take(c + 1)) == sig_count(ts.take(c)) + if is_significant(ts[c]) {
            1nat
        } else {
            0nat
        },
{
    assert(ts.take(c + 1).drop_last() =~= ts.take(c));
    assert(ts.take(c + 1).last() == ts[c]);
}

/// The text of a prefix is no longer than the text of the whole run.
pub proof fn lemma_tokens_text_prefix_len(ts: Seq<Token>, c: int)
    requires
        0 <= c <= ts.len(),
    ensures
        blen(tokens_text(ts.take(c))) <= blen(tokens_text(ts)),
    decreases ts.len() - c,
{
    if c == ts.len() {
        assert(ts.take(c) =~= ts);
    } else {
        lemma_tokens_text_prefix_len(ts, c + 1);
        lemma_tokens_take_step(ts, c);
        lemma_blen_concat(tokens_text(ts.take(c)), ts[c].text@);
    }
}

/// The significant count of a prefix is at most that of the whole run, and
/// strictly less when a significant token follows the prefix.
pub proof fn lemma_sig_count_prefix(ts: Seq<Token>, c: int)
    requires
        0 <= c <= ts.len(),
    ensures
        sig_count(ts.take(c)) <= sig_count(ts),
        c < ts.len() && is_significant(ts[c]) ==> sig_count(ts.take(c)) < sig_count(ts),
    decreases ts.len() - c,
{
    if c == ts.len() {
        assert(ts.take(c) =~= ts);
    } else {
        lemma_sig_count_prefix(ts, c + 1);
        lemma_tokens_take_step(ts, c);
    }
}

/// When a scan over a lexer-shaped stream stops at the end or at `Eof`, having
/// passed no `Eof`, it has covered exactly the source tokens.
pub proof fn lemma_stop_covers_source(ts: Seq<Token>, c: int)
    requires
        0 <= c <= ts.len(),
        eof_only_last(ts),
        no_eof(ts.take(c)),
        c == ts.len() || ts[c].kind == SyntaxKind::Eof,
    ensures
        ts.take(c) == source_tokens(ts),
{
    if c == ts.len() {
        assert(ts.take(c) =~= ts);
        if ts.len() > 0 && ts.last().kind == SyntaxKind::Eof {
            assert(ts.take(c)[c - 1] == ts.last());
        }
    } else {
        if ts.last().kind != SyntaxKind::Eof {
            assert(source_tokens(ts)[c] == ts[c]);
        } else if c < ts.len() - 1 {
            assert(source_tokens(ts)[c] == ts[c]);
        } else {
            assert(ts.take(c) =~= ts.drop_last());
        }
    }
}

/// The number of events at index `k` and beyond that were `Start`s and have
/// already been opened (tombstoned) ahead of the walk.
pub open spec fn ahead(orig: Seq<Event>, cur: Seq<Event>, k: int) -> nat
    decreases orig.len() - k,
{
    if k >= orig.len() || k < 0 {
        0
    } else {
        (if orig[k] is Start && cur[k] is Tombstone {
            1nat
        } else {
            0nat
        }) + ahead(orig, cur, k + 1)
    }
}

/// Tombstoning one more unopened `Start` at or beyond `k` adds one to `ahead`.
pub proof fn lemma_ahead_tombstone(orig: Seq<Event>, cur: Seq<Event>, k: int, f: int)
    requires
        0 <= k <= f < orig.len(),
        cur.len() == orig.len(),
        orig[f] is Start,
        !(cur[f] is Tombstone),
    ensures
        ahead(orig, cur.update(f, Event::Tombstone), k) == ahead(orig, cur, k) + 1,
    decreases f - k,
{
    if k < f {
        lemma_ahead_tombstone(orig, cur, k + 1, f);
    } else {
        lemma_ahead_same(orig, cur, cur.update(f, Event::Tombstone), k + 1);
    }
}

/// `ahead` only looks at indices from `k` on.
pub proof fn lemma_ahead_same(orig: Seq<Event>, cur: Seq<Event>, cur2: Seq<Event>, k: int)
    requires
        cur.len() == orig.len(),
        cur2.len() == orig.len(),
        0 <= k,
        forall|j: int| k <= j < orig.len() ==> cur[j] == cur2[j],
    ensures
        ahead(orig, cur, k) == ahead(orig, cur2, k),
    decreases orig.len() - k,
{
    if k < orig.len() {
        lemma_ahead_same(orig, cur, cur2, k + 1);
    }
}

/// Nothing is ahead before the walk has tombstoned anything.
pub proof fn lemma_ahead_none(orig: Seq<Event>, k: int)
    requires
        0 <= k,
    ensures
        ahead(orig, orig, k) == 0,
    decreases orig.len() - k,
{
    if k < orig.len() {
        lemma_ahead_none(orig, k + 1);
    }
}

/// The kinds of the `Start` events.
pub open spec fn start_kinds(es: Seq<Event>) -> Multiset<SyntaxKind>
    decreases es.len(),
{
    if es.len() == 0 {
        Multiset::empty()
    } else if es.last() is Start {
        start_kinds(es.drop_last()).insert(es.last()->kind)
    } else {
        start_kinds(es.drop_last())
    }
}

/// One more event adds its kind when it is a `Start`.
pub proof fn lemma_start_kinds_step(es: Seq<Event>, i: int)
    requires
        0 <= i < es.len(),
    ensures
        start_kinds(es.take(i + 1)) == if es[i] is Start {
            start_kinds(es.take(i)).insert(es[i]->kind)
        } else {
            start_kinds(es.take(i))
        },
{
    assert(es.take(i + 1).drop_last() =~= es.take(i));
}

/// Appending an event that is not a `Start` leaves the start kinds alone.
pub proof fn lemma_start_kinds_push(es: Seq<Event>, e: Event)
    ensures
        !(e is Start) ==> start_kinds(es.push(e)) == start_kinds(es),
        e is Start ==> start_kinds(es.push(e)) == start_kinds(es).insert(e->kind),
{
    assert(es.push(e).drop_last() =~= es);
}

/// Turning a slot that holds no `Start` into a `Start` adds its kind;
/// replacing a `Start` by one of the same kind changes nothing.
pub proof fn lemma_start_kinds_update(es: Seq<Event>, i: int, e: Event)
    requires
        0 <= i < es.len(),
        e is Start,
    ensures
        !(es[i] is Start) ==> start_kinds(es.update(i, e)) == start_kinds(es).insert(e->kind),
        es[i] is Start && es[i]->kind == e->kind ==> start_kinds(es.update(i, e)) == start_kinds(
            es,
        ),
    decreases es.len(),
{
    let u = es.update(i, e);
    if i == es.len() - 1 {
        assert(u.drop_last() =~= es.drop_last());
    } else {
        assert(u.drop_last() =~= es.drop_last().update(i, e));
        lemma_start_kinds_update(es.drop_last(), i, e);
        assert(u.last() == es.last());
        if !(es[i] is Start) {
            assert(start_kinds(u) =~= start_kinds(es).insert(e->kind));
        }
    }
}

/// A `Start` anywhere in a stream puts its kind among the stream's start
/// kinds.
pub proof fn lemma_start_kinds_has(es: Seq<Event>, j: int)
    requires
        0 <= j < es.len(),
        es[j] is Start,
    ensures
        start_kinds(es).count(es[j]->kind) > 0,
    decreases es.len(),
{
    if j < es.len() - 1 {
        lemma_start_kinds_has(es.drop_last(), j);
    }
}

/// The kinds of the `Start`s at index `k` and beyond that have already been
/// opened (tombstoned) ahead of the walk.
pub open spec fn ahead_kinds(orig: Seq<Event>, cur: Seq<Event>, k: int) -> Multiset<SyntaxKind>
    decreases orig.len() - k,
{
    if k >= orig.len() || k < 0 {
        Multiset::empty()
    } else if orig[k] is Start && cur[k] is Tombstone {
        ahead_kinds(orig, cur, k + 1).insert(orig[k]->kind)
    } else {
        ahead_kinds(orig, cur, k + 1)
    }
}

/// Tombstoning one more unopened `Start` at or beyond `k` adds its kind.
pub proof fn lemma_ahead_kinds_tombstone(orig: Seq<Event>, cur: Seq<Event>, k: int, f: int)
    requires
        0 <= k <= f < orig.len(),
        cur.len() == orig.len(),
        orig[f] is Start,
        !(cur[f] is Tombstone),
    ensures
        ahead_kinds(orig, cur.update(f, Event::Tombstone), k) == ahead_kinds(orig, cur, k).insert(
            orig[f]->kind,
        ),
    decreases f - k,
{
    if k < f {
        lemma_ahead_kinds_tombstone(orig, cur, k + 1, f);
        if orig[k] is Start && cur[k] is Tombstone {
            assert(ahead_kinds(orig, cur.update(f, Event::Tombstone), k) =~= ahead_kinds(
                orig,
                cur,
                k,
            ).insert(orig[f]->kind));
        }
    } else {
        lemma_ahead_kinds_same(orig, cur, cur.update(f, Event::Tombstone), k + 1);
    }
}

/// `ahead_kinds` only looks at indices from `k` on.
pub proof fn lemma_ahead_kinds_same(orig: Seq<Event>, cur: Seq<Event>, cur2: Seq<Event>, k: int)
    requires
        cur.len() == orig.len(),
        cur2.len() == orig.len(),
        0 <= k,
        forall|j: int| k <= j < orig.len() ==> cur[j] == cur2[j],
    ensures
        ahead_kinds(orig, cur, k) == ahead_kinds(orig, cur2, k),
    decreases orig.len() - k,
{
    if k < orig.len() {
        lemma_ahead_kinds_same(orig, cur, cur2, k + 1);
    }
}

/// Nothing is ahead before the walk has tombstoned anything.
pub proof fn lemma_ahead_kinds_none(orig: Seq<Event>, k: int)
    requires
        0 <= k,
    ensures
        ahead_kinds(orig, orig, k) == Multiset::<SyntaxKind>::empty(),
    decreases orig.len() - k,
{
    if k < orig.len() {
        lemma_ahead_kinds_none(orig, k + 1);
    }
}

/// The kinds of a list, as a multiset.
pub open spec fn kinds_ms(s: Seq<SyntaxKind>) -> Multiset<SyntaxKind>
    decreases s.len(),
{
    if s.len() == 0 {
        Multiset::empty()
    } else {
        kinds_ms(s.drop_first()).insert(s[0])
    }
}

/// Appending a kind adds it to the multiset.
pub proof fn lemma_kinds_ms_push(s: Seq<SyntaxKind>, k: SyntaxKind)
    ensures
        kinds_ms(s.push(k)) == kinds_ms(s).insert(k),
    decreases s.len(),
{
    if s.len() == 0 {
        assert(s.push(k).drop_first() =~= Seq::<SyntaxKind>::empty());
        assert(s.push(k)[0] == k);
        assert(kinds_ms(s.push(k)) == kinds_ms(Seq::<SyntaxKind>::empty()).insert(k));
        assert(kinds_ms(s) == Multiset::<SyntaxKind>::empty());
    } else {
        assert(s.push(k).drop_first() =~= s.drop_first().push(k));
        lemma_kinds_ms_push(s.drop_first(), k);
        assert(s.push(k)[0] == s[0]);
        assert(kinds_ms(s.push(k)) == kinds_ms(s.drop_first()).insert(k).insert(s[0]));
        assert(kinds_ms(s.push(k)) =~= kinds_ms(s).insert(k));
    }
}

/// The number of events that are not `Tombstone`.
pub open spec fn live_count(es: Seq<Event>) -> nat
    decreases es.len(),
{
    if es.len() == 0 {
        0
    } else {
        live_count(es.drop_last()) + if es.last() is Tombstone {
            0nat
        } else {
            1nat
        }
    }
}

/// Following a `Start`'s forward parents: the parents' kinds, innermost
/// first, and the events with each slot visited turned into a `Tombstone`. The
/// walk stops at a slot that holds no `Start`.
pub open spec fn parent_chain(cur: Seq<Event>, fp: Option<usize>) -> (Seq<SyntaxKind>, Seq<Event>)
    decreases live_count(cur),
{
    match fp {
        Some(f) => if f < cur.len() {
            let next = cur.update(f as int, Event::Tombstone);
            match cur[f as int] {
                Event::Start { kind, forward_parent } => {
                    proof {
                        lemma_live_count_tombstone(cur, f as int);
                    }
                    let rest = parent_chain(next, forward_parent);
                    (seq![kind] + rest.0, rest.1)
                },
                _ => (Seq::empty(), next),
            }
        } else {
            (Seq::empty(), cur)
        },
        None => (Seq::empty(), cur),
    }
}

/// The openings of a chain of kinds given innermost first: the outermost
/// opens first.
pub open spec fn opens_rev(ks: Seq<SyntaxKind>) -> Seq<ShapeStep>
    decreases ks.len(),
{
    if ks.len() == 0 {
        Seq::empty()
    } else {
        opens_rev(ks.drop_first()).push(ShapeStep::Open(ks[0]))
    }
}

/// The outline an event stream describes, walking it from index `i` (of `n`):
/// a `Start` opens its node, after the forward parents it names, outermost
/// first, each of which is then used up; a `Finish` closes the innermost open
/// node; other events add no step.
pub open spec fn shape_run(cur: Seq<Event>, i: int, n: int) -> Seq<ShapeStep>
    decreases n - i,
{
    if i < 0 || i >= n || i >= cur.len() {
        Seq::empty()
    } else {
        let c1 = cur.update(i, Event::Tombstone);
        match cur[i] {
            Event::Start { kind, forward_parent } => {
                let chain = parent_chain(c1, forward_parent);
                opens_rev(seq![kind] + chain.0) + shape_run(chain.1, i + 1, n)
            },
            Event::Finish => seq![ShapeStep::Close] + shape_run(c1, i + 1, n),
            _ => shape_run(c1, i + 1, n),
        }
    }
}

/// Tombstoning an event never raises the live count, and lowers it when the
/// event was live.
pub proof fn lemma_live_count_tombstone(es: Seq<Event>, f: int)
    requires
        0 <= f < es.len(),
    ensures
        live_count(es.update(f, Event::Tombstone)) <= live_count(es),
        !(es[f] is Tombstone) ==> live_count(es.update(f, Event::Tombstone)) < live_count(es),
        es[f] is Tombstone ==> es.update(f, Event::Tombstone) == es,
    decreases es.len(),
{
    let es2 = es.update(f, Event::Tombstone);
    if es[f] is Tombstone {
        assert(es2 =~= es);
    }
    if f == es.len() - 1 {
        assert(es2.drop_last() =~= es.drop_last());
    } else {
        assert(es2.drop_last() =~= es.drop_last().update(f, Event::Tombstone));
        lemma_live_count_tombstone(es.drop_last(), f);
    }
}

/// The live count is at most the length.
pub proof fn lemma_live_count_bound(es: Seq<Event>)
    ensures
        live_count(es) <= es.len(),
    decreases es.len(),
{
    if es.len() > 0 {
        lemma_live_count_bound(es.drop_last());
    }
}

/// The outermost node of the chain that begins with the `Start` at event
/// `i`: forward parents are followed, each pointing further on, to a node
/// with none.
pub open spec fn chain_top(es: Seq<Event>, i: int) -> int
    decreases es.len() - i,
{
    if 0 <= i < es.len() && es[i] is Start && es[i]->forward_parent is Some && i
        < es[i]->forward_parent->0 < es.len() {
        chain_top(es, es[i]->forward_parent->0 as int)
    } else {
        i
    }
}

/// Every forward parent points further on, at a `Start` or a `Tombstone`.
pub open spec fn parents_forward(es: Seq<Event>) -> bool {
    forall|j: int|
        0 <= j < es.len() && (#[trigger] es[j] matches Event::Start { forward_parent, .. }
            && forward_parent is Some) ==> ({
            let f = es[j]->forward_parent->0 as int;
            &&& j < f < es.len()
            &&& (es[f] is Start || es[f] is Tombstone)
        })
}

/// The token count of a prefix never exceeds that of a longer prefix.
pub proof fn lemma_count_tokens_prefix(es: Seq<Event>, a: int, b: int)
    requires
        0 <= a <= b <= es.len(),
    ensures
        count_tokens(es.take(a)) <= count_tokens(es.take(b)),
    decreases b - a,
{
    if a < b {
        lemma_count_tokens_prefix(es, a, b - 1);
        lemma_events_take_step(es, b - 1);
    }
}

/// A broken split state stays broken.
pub proof fn lemma_split_none_persists(es: Seq<Event>, a: int, b: int)
    requires
        0 <= a <= b <= es.len(),
        split_state(es.take(a)) is None,
    ensures
        split_state(es.take(b)) is None,
    decreases b - a,
{
    if a < b {
        lemma_split_none_persists(es, a, b - 1);
        lemma_events_take_step(es, b - 1);
    }
}

/// A pending split in a stream whose splits all pair up is followed by a
/// `Token`.
pub proof fn lemma_split_pending_token(es: Seq<Event>, a: int)
    requires
        0 <= a <= es.len(),
        split_state(es.take(a)) == Some(true),
        split_state(es) == Some(false),
    ensures
        count_tokens(es.take(a)) < count_tokens(es),
    decreases es.len() - a,
{
    if a == es.len() {
        assert(es.take(a) =~= es);
    } else {
        lemma_events_take_step(es, a);
        assert(es.take(es.len() as int) =~= es);
        if es[a] is Token {
            lemma_count_tokens_prefix(es, a + 1, es.len() as int);
        } else if es[a] is Split {
            lemma_split_none_persists(es, a + 1, es.len() as int);
        } else {
            lemma_split_pending_token(es, a + 1);
        }
    }
}

/// Stopping at the end or at `Eof` of a lexer-shaped stream has passed every
/// significant token.
pub proof fn lemma_stop_counts_all(ts: Seq<Token>, c: int)
    requires
        0 <= c <= ts.len(),
        eof_only_last(ts),
        no_eof(ts.take(c)),
        c == ts.len() || ts[c].kind == SyntaxKind::Eof,
    ensures
        sig_count(ts.take(c)) == sig_count(ts),
{
    lemma_stop_covers_source(ts, c);
    if ts.len() > 0 && ts.last().kind == SyntaxKind::Eof {
        assert(ts.drop_last() =~= source_tokens(ts));
    } else {
        assert(source_tokens(ts) =~= ts);
    }
}

/// Every split gives both pieces a kind that is neither trivia nor `Eof`.
pub open spec fn splits_significant(es: Seq<Event>) -> bool {
    forall|j: int|
        0 <= j < es.len() && (#[trigger] es[j] is Split) ==> !is_trivia_kind(es[j]->first)
            && !is_trivia_kind(es[j]->rest) && es[j]->first != SyntaxKind::Eof && es[j]->rest
            != SyntaxKind::Eof
}

/// Appending a leaf adds its text to the significant text unless it is
/// trivia or `Eof`.
pub proof fn lemma_sig_leaves_push(l: Seq<GreenToken>, t: GreenToken)
    ensures
        significant_leaves_text(l.push(t)) == significant_leaves_text(l) + if is_trivia_kind(
            t.kind,
        ) || t.kind == SyntaxKind::Eof {
            Seq::<char>::empty()
        } else {
            t.text@
        },
{
    assert(l.push(t).drop_last() =~= l);
    if is_trivia_kind(t.kind) || t.kind == SyntaxKind::Eof {
        assert(significant_leaves_text(l) + Seq::<char>::empty() =~= significant_leaves_text(l));
    }
}

/// One more token adds its text to the significant text unless it is trivia
/// or `Eof`.
pub proof fn lemma_sig_tokens_step(ts: Seq<Token>, c: int)
    requires
        0 <= c < ts.len(),
    ensures
        significant_tokens_text(ts.take(c + 1)) == significant_tokens_text(ts.take(c)) + if is_significant(ts[c]) {
            ts[c].text@
        } else {
            Seq::<char>::empty()
        },
{
    assert(ts.take(c + 1).drop_last() =~= ts.take(c));
    assert(ts.take(c + 1).last() == ts[c]);
    if !is_significant(ts[c]) {
        assert(significant_tokens_text(ts.take(c)) + Seq::<char>::empty() =~= significant_tokens_text(ts.take(c)));
    }
}

/// Appending a leaf adds it to the trivia leaves exactly when it is trivia.
pub proof fn lemma_trivia_leaves_push(l: Seq<GreenToken>, t: GreenToken)
    ensures
        trivia_leaves(l.push(t)) == if is_trivia_kind(t.kind) {
            trivia_leaves(l).push((t.kind, t.text@))
        } else {
            trivia_leaves(l)
        },
{
    assert(l.push(t).drop_last() =~= l);
}

/// One more token adds it to the trivia tokens exactly when it is trivia.
pub proof fn lemma_trivia_tokens_step(ts: Seq<Token>, c: int)
    requires
        0 <= c < ts.len(),
    ensures
        trivia_tokens(ts.take(c + 1)) == if is_trivia_kind(ts[c].kind) {
            trivia_tokens(ts.take(c)).push((ts[c].kind, ts[c].text@))
        } else {
            trivia_tokens(ts.take(c))
        },
{
    assert(ts.take(c + 1).drop_last() =~= ts.take(c));
    assert(ts.take(c + 1).last() == ts[c]);
}

/// A final `Eof` adds nothing to the trivia.
pub proof fn lemma_trivia_tokens_source(ts: Seq<Token>)
    ensures
        trivia_tokens(source_tokens(ts)) == trivia_tokens(ts),
{
    if ts.len() > 0 && ts.last().kind == SyntaxKind::Eof {
        assert(ts.drop_last() == source_tokens(ts));
        assert(!is_trivia_kind(SyntaxKind::Eof));
    }
}

/// A final `Eof` adds nothing to the significant text.
pub proof fn lemma_sig_tokens_source(ts: Seq<Token>)
    ensures
        significant_tokens_text(source_tokens(ts)) == significant_tokens_text(ts),
{
    if ts.len() > 0 && ts.last().kind == SyntaxKind::Eof {
        assert(ts.drop_last() == source_tokens(ts));
    }
}

// ── tree materialization ────────────────────────────────────────────────────

/// The text an optional split remainder still holds.
pub open spec fn pending_text(p: Option<(SyntaxKind, String)>) -> Seq<char> {
    match p {
        Some((_, t)) => t@,
        None => Seq::empty(),
    }
}

/// The builder's text and the pending remainder together are exactly the
/// text of the first `c` tokens.
pub open spec fn text_exact(
    b: GreenNodeBuilder,
    p: Option<(SyntaxKind, String)>,
    ts: Seq<Token>,
    c: int,
) -> bool {
    b.text() + pending_text(p) == tokens_text(ts.take(c))
}

/// The significant text of the builder's leaves and the pending remainder
/// together are exactly the significant text of the first `c` tokens.
pub open spec fn sig_exact(
    b: GreenNodeBuilder,
    p: Option<(SyntaxKind, String)>,
    ts: Seq<Token>,
    c: int,
) -> bool {
    significant_leaves_text(b.leaves()) + pending_text(p) == significant_tokens_text(ts.take(c))
}

/// The builder's trivia leaves are exactly the trivia among the first `c`
/// tokens.
pub open spec fn trivia_exact(b: GreenNodeBuilder, ts: Seq<Token>, c: int) -> bool {
    trivia_leaves(b.leaves()) == trivia_tokens(ts.take(c))
}

/// A pending remainder, if any, has a kind that is not trivia.
pub open spec fn pending_significant(p: Option<(SyntaxKind, String)>) -> bool {
    match p {
        Some((k, _)) => !is_trivia_kind(k) && k != SyntaxKind::Eof,
        None => true,
    }
}

/// The builder's text and the pending remainder fit in the text of the first
/// `c` tokens.
pub open spec fn text_within(
    b: GreenNodeBuilder,
    p: Option<(SyntaxKind, String)>,
    ts: Seq<Token>,
    c: int,
) -> bool {
    blen(b.text()) + blen(pending_text(p)) <= blen(tokens_text(ts.take(c)))
}

/// Where a scan over the tokens stopped: the end, an `Eof`, or a token that
/// is not trivia.
pub open spec fn stopped_at(ts: Seq<Token>, c: int) -> bool {
    c == ts.len() || ts[c].kind == SyntaxKind::Eof || !is_trivia_kind(ts[c].kind)
}

/// Facts about the first `c` tokens once a scan has moved past token `c`.
proof fn lemma_scan_step(ts: Seq<Token>, c: int)
    requires
        0 <= c < ts.len(),
        no_eof(ts.take(c)),
        ts[c].kind != SyntaxKind::Eof,
    ensures
        no_eof(ts.take(c + 1)),
        tokens_text(ts.take(c + 1)) == tokens_text(ts.take(c)) + ts[c].text@,
        blen(tokens_text(ts.take(c + 1))) == blen(tokens_text(ts.take(c))) + blen(ts[c].text@),
        blen(tokens_text(ts.take(c + 1))) <= blen(tokens_text(ts)),
        sig_count(ts.take(c + 1)) == sig_count(ts.take(c)) + if is_significant(ts[c]) {
            1nat
        } else {
            0nat
        },
{
    lemma_tokens_take_step(ts, c);
    lemma_tokens_text_prefix_len(ts, c + 1);
    lemma_blen_concat(tokens_text(ts.take(c)), ts[c].text@);
    assert forall|j: int| 0 <= j < c + 1 implies (#[trigger] ts.take(c + 1)[j]).kind
        != SyntaxKind::Eof by {
        if j < c {
            assert(ts.take(c + 1)[j] == ts.take(c)[j]);
        }
    }
}

/// Emit pending trivia leaves until the next significant token (or `Eof`).
fn flush_trivia(builder: &mut GreenNodeBuilder, tokens: &[Token], cursor: &mut usize)
    requires
        old(builder).wf(),
        *old(cursor) <= tokens.len(),
        blen(tokens_text(tokens@)) <= usize::MAX,
        blen(old(builder).text()) <= blen(tokens_text(tokens@.take(*old(cursor) as int))),
        no_eof(tokens@.take(*old(cursor) as int)),
    ensures
        final(builder).wf(),
        final(builder).opened_count() == old(builder).opened_count(),
        final(builder).opened_kinds() == old(builder).opened_kinds(),
        final(builder).opened_shape() == old(builder).opened_shape(),
        *old(cursor) <= *final(cursor) <= tokens.len(),
        stopped_at(tokens@, *final(cursor) as int),
        no_eof(tokens@.take(*final(cursor) as int)),
        final(builder).frames().len() == old(builder).frames().len(),
        final(builder).root() == old(builder).root(),
        old(builder).frames().len() > 0 ==> final(builder).frames()[0].0 == old(
            builder,
        ).frames()[0].0,
        blen(final(builder).text()) <= blen(tokens_text(tokens@.take(*final(cursor) as int))),
        blen(final(builder).text()) + blen(tokens_text(tokens@.take(*old(cursor) as int))) <= blen(
            old(builder).text(),
        ) + blen(tokens_text(tokens@.take(*final(cursor) as int))),
        sig_count(tokens@.take(*final(cursor) as int)) == sig_count(
            tokens@.take(*old(cursor) as int),
        ),
        old(builder).frames().len() > 0 && old(builder).text() == tokens_text(
            tokens@.take(*old(cursor) as int),
        ) ==> final(builder).text() == tokens_text(tokens@.take(*final(cursor) as int)),
        old(builder).frames().len() > 0 && significant_leaves_text(old(builder).leaves())
            == significant_tokens_text(tokens@.take(*old(cursor) as int)) ==> significant_leaves_text(
            final(builder).leaves(),
        ) == significant_tokens_text(tokens@.take(*final(cursor) as int)),
        old(builder).frames().len() > 0 && trivia_leaves(old(builder).leaves()) == trivia_tokens(
            tokens@.take(*old(cursor) as int),
        ) ==> trivia_leaves(final(builder).leaves()) == trivia_tokens(
            tokens@.take(*final(cursor) as int),
        ),
{
    let ghost c0 = *old(cursor) as int;
    let ghost t0 = old(builder).text();
    let ghost sexact = old(builder).frames().len() > 0 && significant_leaves_text(
        old(builder).leaves(),
    ) == significant_tokens_text(tokens@.take(c0));
    let ghost texact = old(builder).frames().len() > 0 && trivia_leaves(old(builder).leaves())
        == trivia_tokens(tokens@.take(c0));
    let ghost exact = old(builder).frames().len() > 0 && old(builder).text() == tokens_text(
        tokens@.take(c0),
    );
    while *cursor < tokens.len() && tokens[*cursor].kind != SyntaxKind::Eof
        && tokens[*cursor].kind.is_trivia()
        invariant
            t0 == old(builder).text(),
            blen(builder.text()) + blen(tokens_text(tokens@.take(c0))) <= blen(t0) + blen(
                tokens_text(tokens@.take(*cursor as int)),
            ),
            builder.wf(),
            builder.opened_count() == old(builder).opened_count(),
            builder.opened_kinds() == old(builder).opened_kinds(),
            builder.opened_shape() == old(builder).opened_shape(),
            c0 <= *cursor <= tokens.len(),
            blen(tokens_text(tokens@)) <= usize::MAX,
            no_eof(tokens@.take(*cursor as int)),
            builder.frames().len() == old(builder).frames().len(),
            builder.root() == old(builder).root(),
            old(builder).frames().len() > 0 ==> builder.frames()[0].0 == old(
                builder,
            ).frames()[0].0,
            blen(builder.text()) <= blen(tokens_text(tokens@.take(*cursor as int))),
            sig_count(tokens@.take(*cursor as int)) == sig_count(tokens@.take(c0)),
            exact ==> builder.text() == tokens_text(tokens@.take(*cursor as int)),
            exact ==> builder.frames().len() > 0,
            sexact == (old(builder).frames().len() > 0 && significant_leaves_text(
                old(builder).leaves(),
            ) == significant_tokens_text(tokens@.take(c0))),
            sexact ==> builder.frames().len() > 0 && significant_leaves_text(builder.leaves())
                == significant_tokens_text(tokens@.take(*cursor as int)),
            texact == (old(builder).frames().len() > 0 && trivia_leaves(old(builder).leaves())
                == trivia_tokens(tokens@.take(c0))),
            texact ==> builder.frames().len() > 0 && trivia_leaves(builder.leaves())
                == trivia_tokens(tokens@.take(*cursor as int)),
        decreases tokens.len() - *cursor,
    {
        let c = *cursor;
        let tok = &tokens[c];
        let ghost tb = builder.text();
        let ghost lb = builder.leaves();
        proof {
            lemma_scan_step(tokens@, c as int);
            lemma_blen_concat(tb, tok.text@);
            lemma_sig_tokens_step(tokens@, c as int);
            lemma_sig_leaves_push(lb, GreenToken { kind: tok.kind, text: tok.text });
            lemma_trivia_tokens_step(tokens@, c as int);
            lemma_trivia_leaves_push(lb, GreenToken { kind: tok.kind, text: tok.text });
        }
        builder.token(kind_of_token(tok), tok.text.clone());
        *cursor = c + 1;
    }
}

/// Emit the next significant token leaf, after any trivia still before it.
/// `Eof` is never placed in the tree.
fn emit_significant(builder: &mut GreenNodeBuilder, tokens: &[Token], cursor: &mut usize)
    requires
        old(builder).wf(),
        *old(cursor) <= tokens.len(),
        blen(tokens_text(tokens@)) <= usize::MAX,
        blen(old(builder).text()) <= blen(tokens_text(tokens@.take(*old(cursor) as int))),
        no_eof(tokens@.take(*old(cursor) as int)),
    ensures
        final(builder).wf(),
        final(builder).opened_count() == old(builder).opened_count(),
        final(builder).opened_kinds() == old(builder).opened_kinds(),
        final(builder).opened_shape() == old(builder).opened_shape(),
        *old(cursor) <= *final(cursor) <= tokens.len(),
        no_eof(tokens@.take(*final(cursor) as int)),
        final(builder).frames().len() == old(builder).frames().len(),
        final(builder).root() == old(builder).root(),
        old(builder).frames().len() > 0 ==> final(builder).frames()[0].0 == old(
            builder,
        ).frames()[0].0,
        blen(final(builder).text()) <= blen(tokens_text(tokens@.take(*final(cursor) as int))),
        ({
            let c = *old(cursor) as int;
            c < tokens.len() && is_significant(tokens@[c]) ==> *final(cursor) == c + 1
                && sig_count(tokens@.take(c + 1)) == sig_count(tokens@.take(c)) + 1
        }),
        old(builder).frames().len() > 0 && old(builder).text() == tokens_text(
            tokens@.take(*old(cursor) as int),
        ) ==> final(builder).text() == tokens_text(tokens@.take(*final(cursor) as int)),
        old(builder).frames().len() > 0 && significant_leaves_text(old(builder).leaves())
            == significant_tokens_text(tokens@.take(*old(cursor) as int)) ==> significant_leaves_text(
            final(builder).leaves(),
        ) == significant_tokens_text(tokens@.take(*final(cursor) as int)),
        old(builder).frames().len() > 0 && trivia_leaves(old(builder).leaves()) == trivia_tokens(
            tokens@.take(*old(cursor) as int),
        ) ==> trivia_leaves(final(builder).leaves()) == trivia_tokens(
            tokens@.take(*final(cursor) as int),
        ),
{
    let ghost c0 = *old(cursor) as int;
    let ghost sexact = old(builder).frames().len() > 0 && significant_leaves_text(
        old(builder).leaves(),
    ) == significant_tokens_text(tokens@.take(c0));
    let ghost texact = old(builder).frames().len() > 0 && trivia_leaves(old(builder).leaves())
        == trivia_tokens(tokens@.take(c0));
    let ghost exact = old(builder).frames().len() > 0 && old(builder).text() == tokens_text(
        tokens@.take(c0),
    );
    while *cursor < tokens.len()
        invariant
            builder.wf(),
            builder.opened_count() == old(builder).opened_count(),
            builder.opened_kinds() == old(builder).opened_kinds(),
            builder.opened_shape() == old(builder).opened_shape(),
            c0 <= *cursor <= tokens.len(),
            blen(tokens_text(tokens@)) <= usize::MAX,
            no_eof(tokens@.take(*cursor as int)),
            builder.frames().len() == old(builder).frames().len(),
            builder.root() == old(builder).root(),
            old(builder).frames().len() > 0 ==> builder.frames()[0].0 == old(
                builder,
            ).frames()[0].0,
            blen(builder.text()) <= blen(tokens_text(tokens@.take(*cursor as int))),
            c0 == *old(cursor),
            exact == (old(builder).frames().len() > 0 && old(builder).text() == tokens_text(
                tokens@.take(c0),
            )),
            c0 < tokens.len() && is_significant(tokens@[c0]) ==> *cursor == c0,
            exact ==> builder.text() == tokens_text(tokens@.take(*cursor as int)),
            exact ==> builder.frames().len() > 0,
            sexact == (old(builder).frames().len() > 0 && significant_leaves_text(
                old(builder).leaves(),
            ) == significant_tokens_text(tokens@.take(c0))),
            sexact ==> builder.frames().len() > 0 && significant_leaves_text(builder.leaves())
                == significant_tokens_text(tokens@.take(*cursor as int)),
            texact == (old(builder).frames().len() > 0 && trivia_leaves(old(builder).leaves())
                == trivia_tokens(tokens@.take(c0))),
            texact ==> builder.frames().len() > 0 && trivia_leaves(builder.leaves())
                == trivia_tokens(tokens@.take(*cursor as int)),
        decreases tokens.len() - *cursor,
    {
        let c = *cursor;
        let tok = &tokens[c];
        if tok.kind == SyntaxKind::Eof {
            return ;
        }
        let ghost tb = builder.text();
        let ghost lb = builder.leaves();
        proof {
            lemma_scan_step(tokens@, c as int);
            lemma_blen_concat(tb, tok.text@);
            lemma_sig_tokens_step(tokens@, c as int);
            lemma_sig_leaves_push(lb, GreenToken { kind: tok.kind, text: tok.text });
            lemma_trivia_tokens_step(tokens@, c as int);
            lemma_trivia_leaves_push(lb, GreenToken { kind: tok.kind, text: tok.text });
        }
        builder.token(kind_of_token(tok), tok.text.clone());
        *cursor = c + 1;
        if !tok.kind.is_trivia() {
            return ;
        }
    }
}

/// The `Token` event: place the pending split remainder if there is one, else
/// the next significant token with the trivia before it.
fn place_token(
    builder: &mut GreenNodeBuilder,
    tokens: &[Token],
    cursor: &mut usize,
    pending: &mut Option<(SyntaxKind, String)>,
)
    requires
        old(builder).wf(),
        *old(cursor) <= tokens.len(),
        blen(tokens_text(tokens@)) <= usize::MAX,
        no_eof(tokens@.take(*old(cursor) as int)),
        text_within(*old(builder), *old(pending), tokens@, *old(cursor) as int),
    ensures
        final(builder).wf(),
        final(builder).opened_count() == old(builder).opened_count(),
        final(builder).opened_kinds() == old(builder).opened_kinds(),
        final(builder).opened_shape() == old(builder).opened_shape(),
        *old(cursor) <= *final(cursor) <= tokens.len(),
        no_eof(tokens@.take(*final(cursor) as int)),
        final(builder).frames().len() == old(builder).frames().len(),
        final(builder).root() == old(builder).root(),
        old(builder).frames().len() > 0 ==> final(builder).frames()[0].0 == old(
            builder,
        ).frames()[0].0,
        *final(pending) is None,
        text_within(*final(builder), *final(pending), tokens@, *final(cursor) as int),
        old(builder).frames().len() > 0 && text_exact(
            *old(builder),
            *old(pending),
            tokens@,
            *old(cursor) as int,
        ) ==> text_exact(*final(builder), *final(pending), tokens@, *final(cursor) as int),
        *old(pending) is Some ==> *final(cursor) == *old(cursor),
        ({
            let c = *old(cursor) as int;
            *old(pending) is None && eof_only_last(tokens@) && sig_count(tokens@.take(c))
                < sig_count(tokens@) ==> sig_count(tokens@.take(*final(cursor) as int)) == sig_count(
                tokens@.take(c),
            ) + 1
        }),
        old(builder).frames().len() > 0 && pending_significant(*old(pending)) && sig_exact(
            *old(builder),
            *old(pending),
            tokens@,
            *old(cursor) as int,
        ) ==> sig_exact(*final(builder), *final(pending), tokens@, *final(cursor) as int),
        old(builder).frames().len() > 0 && pending_significant(*old(pending)) && trivia_exact(
            *old(builder),
            tokens@,
            *old(cursor) as int,
        ) ==> trivia_exact(*final(builder), tokens@, *final(cursor) as int),
{
    let ghost c0 = *old(cursor) as int;
    let ghost tb = builder.text();
    let ghost lb = builder.leaves();
    match pending.take() {
        Some((k, t)) => {
            proof {
                lemma_blen_concat(tb, t@);
                lemma_tokens_text_prefix_len(tokens@, c0);
                lemma_sig_leaves_push(lb, GreenToken { kind: k, text: t });
                lemma_trivia_leaves_push(lb, GreenToken { kind: k, text: t });
            }
            builder.token(k, t);
            proof {
                assert(builder.text() + pending_text(*pending) =~= builder.text());
                assert(significant_leaves_text(builder.leaves()) + pending_text(*pending)
                    =~= significant_leaves_text(builder.leaves()));
            }
        },
        None => {
            proof {
                assert(tb + pending_text(*old(pending)) =~= tb);
                assert(significant_leaves_text(lb) + pending_text(*old(pending))
                    =~= significant_leaves_text(lb));
            }
            flush_trivia(builder, tokens, cursor);
            let ghost c1 = *cursor as int;
            proof {
                if eof_only_last(tokens@) && sig_count(tokens@.take(c0)) < sig_count(tokens@) {
                    if c1 == tokens.len() || tokens@[c1].kind == SyntaxKind::Eof {
                        lemma_stop_counts_all(tokens@, c1);
                    }
                }
            }
            emit_significant(builder, tokens, cursor);
            proof {
                assert(builder.text() + pending_text(*pending) =~= builder.text());
                assert(significant_leaves_text(builder.leaves()) + pending_text(*pending)
                    =~= significant_leaves_text(builder.leaves()));
            }
        },
    }
}

/// The `Split` event: the next significant token leaves its first character
/// as a leaf of kind `first`, and the rest pending with kind `rest`.
fn place_split(
    builder: &mut GreenNodeBuilder,
    tokens: &[Token],
    cursor: &mut usize,
    pending: &mut Option<(SyntaxKind, String)>,
    first: SyntaxKind,
    rest: SyntaxKind,
)
    requires
        old(builder).wf(),
        *old(cursor) <= tokens.len(),
        blen(tokens_text(tokens@)) <= usize::MAX,
        no_eof(tokens@.take(*old(cursor) as int)),
        text_within(*old(builder), *old(pending), tokens@, *old(cursor) as int),
    ensures
        final(builder).wf(),
        final(builder).opened_count() == old(builder).opened_count(),
        final(builder).opened_kinds() == old(builder).opened_kinds(),
        final(builder).opened_shape() == old(builder).opened_shape(),
        *old(cursor) <= *final(cursor) <= tokens.len(),
        no_eof(tokens@.take(*final(cursor) as int)),
        final(builder).frames().len() == old(builder).frames().len(),
        final(builder).root() == old(builder).root(),
        old(builder).frames().len() > 0 ==> final(builder).frames()[0].0 == old(
            builder,
        ).frames()[0].0,
        text_within(*final(builder), *final(pending), tokens@, *final(cursor) as int),
        old(builder).frames().len() > 0 && text_exact(
            *old(builder),
            *old(pending),
            tokens@,
            *old(cursor) as int,
        ) ==> text_exact(*final(builder), *final(pending), tokens@, *final(cursor) as int),
        ({
            let c = *old(cursor) as int;
            *old(pending) is None && eof_only_last(tokens@) && sig_count(tokens@.take(c))
                < sig_count(tokens@) ==> *final(pending) is Some && sig_count(
                tokens@.take(*final(cursor) as int),
            ) == sig_count(tokens@.take(c)) + 1
        }),
        !is_trivia_kind(rest) && rest != SyntaxKind::Eof ==> pending_significant(*final(pending)),
        old(builder).frames().len() > 0 && pending_significant(*old(pending)) && !is_trivia_kind(
            first,
        ) && first != SyntaxKind::Eof && !is_trivia_kind(rest) && rest != SyntaxKind::Eof
            && sig_exact(
            *old(builder),
            *old(pending),
            tokens@,
            *old(cursor) as int,
        ) ==> sig_exact(*final(builder), *final(pending), tokens@, *final(cursor) as int),
        old(builder).frames().len() > 0 && pending_significant(*old(pending)) && !is_trivia_kind(
            first,
        ) && trivia_exact(*old(builder), tokens@, *old(cursor) as int) ==> trivia_exact(
            *final(builder),
            tokens@,
            *final(cursor) as int,
        ),
{
    let ghost c0 = *old(cursor) as int;
    let ghost tb = builder.text();
    let ghost lb = builder.leaves();
    if let Some((k, t)) = pending.take() {
        proof {
            lemma_blen_concat(tb, t@);
            lemma_tokens_text_prefix_len(tokens@, c0);
            lemma_sig_leaves_push(lb, GreenToken { kind: k, text: t });
            lemma_trivia_leaves_push(lb, GreenToken { kind: k, text: t });
        }
        builder.token(k, t);
    } else {
        proof {
            assert(tb + pending_text(*old(pending)) =~= tb);
            assert(significant_leaves_text(lb) + pending_text(*old(pending))
                =~= significant_leaves_text(lb));
        }
    }
    flush_trivia(builder, tokens, cursor);
    let c = *cursor;
    proof {
        if *old(pending) is None && eof_only_last(tokens@) && sig_count(tokens@.take(c0))
            < sig_count(tokens@) {
            if c == tokens.len() || tokens@[c as int].kind == SyntaxKind::Eof {
                lemma_stop_counts_all(tokens@, c as int);
            }
        }
    }
    if c < tokens.len() && tokens[c].kind != SyntaxKind::Eof {
        let tok = &tokens[c];
        let ghost t1 = builder.text();
        let ghost l1 = builder.leaves();
        proof {
            lemma_scan_step(tokens@, c as int);
            lemma_sig_tokens_step(tokens@, c as int);
            lemma_trivia_tokens_step(tokens@, c as int);
        }
        let s = tok.text.as_str();
        let n = s.unicode_len();
        *cursor = c + 1;
        if n >= 2 {
            let head = s.substring_char(0, 1).to_owned();
            let tail = s.substring_char(1, n).to_owned();
            proof {
                assert(head@ + tail@ =~= tok.text@);
                lemma_blen_concat(head@, tail@);
                lemma_blen_concat(t1, head@);
                lemma_blen_concat(t1 + head@, tail@);
                lemma_blen_concat(t1, tok.text@);
                assert(t1 + head@ + tail@ =~= t1 + tok.text@);
                lemma_sig_leaves_push(l1, GreenToken { kind: first, text: head });
                lemma_trivia_leaves_push(l1, GreenToken { kind: first, text: head });
                assert(significant_leaves_text(l1) + head@ + tail@ =~= significant_leaves_text(l1)
                    + tok.text@);
            }
            builder.token(first, head);
            *pending = Some((rest, tail));
        } else {
            proof {
                lemma_blen_concat(t1, tok.text@);
            }
            *pending = Some((rest, tok.text.clone()));
        }
    } else {
        proof {
            assert(builder.text() + pending_text(*pending) =~= builder.text());
            assert(significant_leaves_text(builder.leaves()) + pending_text(*pending)
                =~= significant_leaves_text(builder.leaves()));
        }
    }
}

/// Events from `k` on are untouched, or `Start`s already opened.
pub open spec fn walk_rest(orig: Seq<Event>, cur: Seq<Event>, k: int) -> bool {
    forall|j: int|
        k <= j < orig.len() ==> (#[trigger] cur[j] == orig[j] || (cur[j] is Tombstone
            && orig[j] is Start))
}

/// Follow the `forward_parent` chain from a `Start`, marking each consumed
/// parent as a `Tombstone`. Returns the kinds innermost-first (so the caller
/// opens them in reverse).
fn gather_forward_parents(
    kind: SyntaxKind,
    forward_parent: Option<usize>,
    events: &mut Vec<Event>,
    Ghost(i): Ghost<int>,
    Ghost(orig): Ghost<Seq<Event>>,
) -> (kinds: Vec<SyntaxKind>)
    requires
        old(events).len() == orig.len(),
        0 <= i < orig.len(),
        parents_in_range(old(events)@),
        forward_parent matches Some(f) ==> f < old(events).len(),
    ensures
        final(events).len() == old(events).len(),
        parents_in_range(final(events)@),
        forall|j: int|
            0 <= j < old(events).len() ==> #[trigger] final(events)[j] == old(events)[j]
                || final(events)[j] is Tombstone,
        kinds.len() >= 1,
        kinds[0] == kind,
        forward_parent is None ==> kinds.len() == 1,
        live_count(final(events)@) + kinds.len() <= live_count(old(events)@) + 1,
        parents_forward(orig) && orig[i] == (Event::Start { kind, forward_parent }) && walk_rest(
            orig,
            old(events)@,
            i + 1,
        ) ==> {
            &&& walk_rest(orig, final(events)@, i + 1)
            &&& ahead(orig, final(events)@, i + 1) == ahead(orig, old(events)@, i + 1) + kinds.len()
                - 1
            &&& ahead_kinds(orig, final(events)@, i + 1) == ahead_kinds(orig, old(events)@, i + 1).add(
                kinds_ms(kinds@.drop_first()),
            )
            &&& parent_chain(old(events)@, forward_parent) == (kinds@.drop_first(), final(events)@)
            &&& forall|j: int| 0 <= j <= i ==> #[trigger] final(events)[j] == old(events)[j]
        },
{
    let ghost g = parents_forward(orig) && orig[i] == (Event::Start { kind, forward_parent })
        && walk_rest(orig, old(events)@, i + 1);
    let mut kinds = vec![kind];
    let mut fp = forward_parent;
    proof {
        assert(kinds@.drop_first() =~= Seq::<SyntaxKind>::empty());
        assert(kinds@.drop_first() + parent_chain(events@, fp).0 =~= parent_chain(events@, fp).0);
        assert(ahead_kinds(orig, events@, i + 1).add(kinds_ms(kinds@.drop_first())) =~= ahead_kinds(
            orig,
            events@,
            i + 1,
        ));
    }
    while fp.is_some()
        invariant
            events.len() == old(events).len() == orig.len(),
            0 <= i < orig.len(),
            parents_in_range(events@),
            fp matches Some(f) ==> f < events.len(),
            forall|j: int|
                0 <= j < old(events).len() ==> #[trigger] events[j] == old(events)[j]
                    || events[j] is Tombstone,
            kinds.len() >= 1,
            kinds[0] == kind,
            forward_parent is None ==> kinds.len() == 1 && fp is None,
            live_count(events@) + kinds.len() <= live_count(old(events)@) + 1,
            g == (parents_forward(orig) && orig[i] == (Event::Start { kind, forward_parent })
                && walk_rest(orig, old(events)@, i + 1)),
            g ==> walk_rest(orig, events@, i + 1),
            g ==> ahead(orig, events@, i + 1) == ahead(orig, old(events)@, i + 1) + kinds.len()
                - 1,
            g ==> ahead_kinds(orig, events@, i + 1) == ahead_kinds(orig, old(events)@, i + 1).add(
                kinds_ms(kinds@.drop_first()),
            ),
            parent_chain(old(events)@, forward_parent) == (
                kinds@.drop_first() + parent_chain(events@, fp).0,
                parent_chain(events@, fp).1,
            ),
            g ==> forall|j: int| 0 <= j <= i ==> #[trigger] events[j] == old(events)[j],
            g ==> (fp matches Some(f) ==> i < f && (orig[f as int] is Start || orig[f as int] is Tombstone)),
        decreases live_count(events@), if fp is Some { 1int } else { 0int },
    {
        let idx = fp.unwrap();
        let e = events[idx];
        let ghost before = events@;
        proof {
            lemma_live_count_tombstone(before, idx as int);
            if g {
                assert(walk_rest(orig, before, i + 1));
                assert(before[idx as int] == orig[idx as int] || before[idx as int] is Tombstone);
            }
        }
        events[idx] = Event::Tombstone;
        proof {
            assert(events@ == before.update(idx as int, Event::Tombstone));
            assert forall|j: int|
                0 <= j < events.len() && (#[trigger] events@[j] matches Event::Start {
                    forward_parent,
                    ..
                } && forward_parent is Some) implies events@[j]->forward_parent->0
                < events.len() by {
                assert(events@[j] == before[j]);
            }
            assert forall|j: int| 0 <= j < old(events).len() implies #[trigger] events[j] == old(events)[j]
                || events[j] is Tombstone by {
                if j != idx {
                    assert(events[j] == before[j]);
                }
            }
        }
        match e {
            Event::Start { kind: parent_kind, forward_parent: next } => {
                proof {
                    if g {
                        assert(orig[idx as int] == before[idx as int]);
                        lemma_ahead_tombstone(orig, before, i + 1, idx as int);
                        lemma_ahead_kinds_tombstone(orig, before, i + 1, idx as int);
                        assert forall|j: int| i + 1 <= j < orig.len() implies (#[trigger] events@[j] == orig[j] || (events@[j] is Tombstone
                            && orig[j] is Start)) by {
                            if j != idx {
                                assert(events@[j] == before[j]);
                            }
                        }
                        assert forall|j: int| 0 <= j <= i implies #[trigger] events[j] == old(events)[j] by {
                            assert(events@[j] == before[j]);
                        }
                    }
                }
                let ghost k0 = kinds@;
                kinds.push(parent_kind);
                proof {
                    assert(parent_chain(before, Some(idx)) == (
                        seq![parent_kind] + parent_chain(events@, next).0,
                        parent_chain(events@, next).1,
                    ));
                    assert(kinds@.drop_first() =~= k0.drop_first().push(parent_kind));
                    assert(k0.drop_first() + (seq![parent_kind] + parent_chain(events@, next).0)
                        =~= kinds@.drop_first() + parent_chain(events@, next).0);
                    if g {
                        assert(kinds@.drop_first() =~= k0.drop_first().push(parent_kind));
                        lemma_kinds_ms_push(k0.drop_first(), parent_kind);
                        assert(ahead_kinds(orig, events@, i + 1) =~= ahead_kinds(
                            orig,
                            old(events)@,
                            i + 1,
                        ).add(kinds_ms(kinds@.drop_first())));
                    }
                }
                fp = next;
            },
            _ => {
                proof {
                    if g {
                        assert(before[idx as int] is Tombstone);
                        assert(events@ =~= before);
                    }
                    assert(parent_chain(before, Some(idx)) == (Seq::<SyntaxKind>::empty(), events@));
                    assert(kinds@.drop_first() + Seq::<SyntaxKind>::empty() =~= kinds@.drop_first());
                }
                fp = None;
            },
        }
    }
    kinds
}

/// Materialize a green tree from the event stream and the full token list.
/// Trivia tokens (and never `Eof`) are inserted as leaves at their source
/// positions; significant tokens are consumed in lock-step with `Token` events.
/// For a well-nested stream the tree's outline is the one `shape_run` reads
/// off the events, so it has one node per `Start`, with the same kinds.
#[verifier::rlimit(60)]
pub fn build_tree(events: Vec<Event>, tokens: &[Token]) -> (r: Rc<GreenNode>)
    requires
        parents_in_range(events@),
        blen(tokens_text(tokens@)) <= usize::MAX,
    ensures
        node_wf(*r),
        events_match_tokens(events@, tokens@) && parents_forward(events@) ==> node_text(*r)
            == tokens_text(source_tokens(tokens@)),
        balanced(events@) && parents_forward(events@) && (events@[0] matches Event::Start {
            kind,
            forward_parent,
        } && forward_parent is None) ==> r.kind == events@[0]->kind,
        events_match_tokens(events@, tokens@) && parents_forward(events@) && splits_significant(
            events@,
        ) ==> significant_leaves_text(children_leaves(r.children@)) == significant_tokens_text(
            tokens@,
        ),
        events_match_tokens(events@, tokens@) && parents_forward(events@) && splits_significant(
            events@,
        ) ==> trivia_leaves(children_leaves(r.children@)) == trivia_tokens(tokens@),
        balanced(events@) && parents_forward(events@) ==> node_count(*r) == count_starts(events@),
        balanced(events@) && parents_forward(events@) ==> node_kinds(*r) == start_kinds(events@),
        balanced(events@) && parents_forward(events@) ==> node_shape(*r) == shape_run(
            events@,
            0,
            events@.len() as int,
        ),
{
    let mut events = events;
    let ghost orig = events@;
    let ghost good = events_match_tokens(orig, tokens@) && parents_forward(orig);
    let ghost ge = balanced(orig) && parents_forward(orig);
    let ghost sgood = good && splits_significant(orig);
    let ghost root_plain = orig.len() > 0 && (orig[0] matches Event::Start { kind, forward_parent }
        && forward_parent is None);
    let mut builder = GreenNodeBuilder::new();
    let mut cursor: usize = 0;
    let mut open: usize = 0;
    let mut pending: Option<(SyntaxKind, String)> = None;
    let n = events.len();
    proof {
        lemma_events_take_zero(orig);
        lemma_live_count_bound(orig);
        lemma_ahead_none(orig, 0);
        assert(tokens@.take(0) =~= Seq::<Token>::empty());
        assert(builder.text() =~= Seq::<char>::empty()) by {
            assert(builder.frames() =~= Seq::<(SyntaxKind, Seq<crate::green::GreenChild>)>::empty());
        }
        assert(builder.text() + pending_text(pending) =~= Seq::<char>::empty());
        assert(builder.leaves() =~= Seq::<GreenToken>::empty()) by {
            assert(builder.frames() =~= Seq::<(SyntaxKind, Seq<crate::green::GreenChild>)>::empty());
        }
        assert(significant_leaves_text(builder.leaves()) + pending_text(pending)
            =~= significant_tokens_text(tokens@.take(0)));
        assert(trivia_leaves(builder.leaves()) =~= trivia_tokens(tokens@.take(0)));
        lemma_ahead_kinds_none(orig, 0);
        assert(orig.take(0) =~= Seq::<Event>::empty());
        assert(builder.frames() =~= Seq::<(SyntaxKind, Seq<crate::green::GreenChild>)>::empty());
        assert(frames_node_kinds(builder.frames()) =~= Multiset::empty());
        assert(builder.opened_kinds() =~= start_kinds(orig.take(0)).add(
            ahead_kinds(orig, events@, 0),
        ));
        assert(frames_shape(builder.frames()) =~= Seq::<ShapeStep>::empty());
        assert(builder.opened_shape() + shape_run(events@, 0, n as int) =~= shape_run(
            orig,
            0,
            n as int,
        ));
    }
    let mut i: usize = 0;
    while i < n
        invariant
            n == events.len() == orig.len(),
            0 <= i <= n,
            good == (events_match_tokens(orig, tokens@) && parents_forward(orig)),
            ge == (balanced(orig) && parents_forward(orig)),
            good ==> ge,
            root_plain == (orig.len() > 0 && (orig[0] matches Event::Start { kind, forward_parent }
                && forward_parent is None)),
            parents_in_range(events@),
            builder.wf(),
            builder.frames().len() == open,
            i == 0 ==> open == 0,
            open + live_count(events@) <= n,
            cursor <= tokens.len(),
            no_eof(tokens@.take(cursor as int)),
            blen(tokens_text(tokens@)) <= usize::MAX,
            text_within(builder, pending, tokens@, cursor as int),
            ge ==> walk_rest(orig, events@, i as int),
            ge ==> builder.opened_count() == open + count_finishes(orig.take(i as int)),
            ge ==> builder.opened_kinds() == start_kinds(orig.take(i as int)).add(
                ahead_kinds(orig, events@, i as int),
            ),
            ge ==> builder.opened_shape() + shape_run(events@, i as int, n as int) == shape_run(
                orig,
                0,
                n as int,
            ),
            ge ==> open as int == count_starts(orig.take(i as int)) + ahead(
                orig,
                events@,
                i as int,
            ) - count_finishes(orig.take(i as int)),
            good ==> split_state(orig.take(i as int)) == Some(pending is Some),
            good ==> sig_count(tokens@.take(cursor as int)) == count_tokens(orig.take(i as int))
                + if pending is Some {
                1nat
            } else {
                0nat
            },
            good && i < n ==> text_exact(builder, pending, tokens@, cursor as int),
            ge && i < n ==> builder.root() is None,
            good && i == n ==> (builder.root() matches Some(rt) && node_text(rt) == tokens_text(
                source_tokens(tokens@),
            )),
            ge && root_plain && 1 <= i < n ==> builder.frames().len() > 0 && builder.frames()[0].0
                == orig[0]->kind,
            ge && root_plain && i == n ==> (builder.root() matches Some(rt) && rt.kind
                == orig[0]->kind),
            sgood == (good && splits_significant(orig)),
            sgood ==> pending_significant(pending),
            sgood && i < n ==> sig_exact(builder, pending, tokens@, cursor as int),
            sgood && i == n ==> (builder.root() matches Some(rt) && significant_leaves_text(
                children_leaves(rt.children@),
            ) == significant_tokens_text(tokens@)),
            sgood && i < n ==> trivia_exact(builder, tokens@, cursor as int),
            sgood && i == n ==> (builder.root() matches Some(rt) && trivia_leaves(
                children_leaves(rt.children@),
            ) == trivia_tokens(tokens@)),
        decreases n - i,
    {
        let e = events[i];
        let ghost cur0 = events@;
        let ghost sh0 = builder.opened_shape();
        proof {
            lemma_live_count_tombstone(cur0, i as int);
            lemma_events_take_step(orig, i as int);
            assert(orig.take(n as int) =~= orig);
            if ge {
                assert(cur0[i as int] == orig[i as int] || (cur0[i as int] is Tombstone && orig[i as int] is Start));
                assert(ahead(orig, cur0, i as int) == (if orig[i as int] is Start && cur0[i as int] is Tombstone {
                    1nat
                } else {
                    0nat
                }) + ahead(orig, cur0, i as int + 1));
                lemma_start_kinds_step(orig, i as int);
                assert(ahead_kinds(orig, cur0, i as int) == if orig[i as int] is Start
                    && cur0[i as int] is Tombstone {
                    ahead_kinds(orig, cur0, i as int + 1).insert(orig[i as int]->kind)
                } else {
                    ahead_kinds(orig, cur0, i as int + 1)
                });
                if 1 <= i < n {
                    assert(count_starts(orig.take(i as int)) > count_finishes(orig.take(i as int)));
                }
                assert(orig[n - 1] == orig.last());
            }
        }
        events[i] = Event::Tombstone;
        proof {
            assert(events@ == cur0.update(i as int, Event::Tombstone));
            lemma_ahead_same(orig, cur0, events@, i as int + 1);
            lemma_ahead_kinds_same(orig, cur0, events@, i as int + 1);
            assert forall|j: int|
                0 <= j < events.len() && (#[trigger] events@[j] matches Event::Start {
                    forward_parent,
                    ..
                } && forward_parent is Some) implies events@[j]->forward_parent->0
                < events.len() by {
                assert(events@[j] == cur0[j]);
            }
            if ge {
                assert forall|j: int| i + 1 <= j < orig.len() implies (#[trigger] events@[j] == orig[j] || (events@[j] is Tombstone
                    && orig[j] is Start)) by {
                    assert(events@[j] == cur0[j]);
                }
            }
        }
        match e {
            Event::Start { kind, forward_parent } => {
                let ghost cur1 = events@;
                let kinds = gather_forward_parents(
                    kind,
                    forward_parent,
                    &mut events,
                    Ghost(i as int),
                    Ghost(orig),
                );
                proof {
                    if ge {
                        assert(e == orig[i as int]);
                    }
                }
                let ghost tx = builder.text();
                let ghost lx = builder.leaves();
                let ghost rt = builder.root();
                let ghost open0 = open as int;
                let ghost oc0 = builder.opened_count();
                let ghost ok0 = builder.opened_kinds();
                let ghost os0 = builder.opened_shape();
                let ghost f0 = if open > 0 { builder.frames()[0].0 } else { kind };
                let mut j = kinds.len();
                while j > 0
                    invariant
                        j <= kinds.len(),
                        builder.wf(),
                        builder.frames().len() == open,
                        open == open0 + kinds.len() - j,
                        open0 + kinds.len() + live_count(events@) <= n,
                        builder.text() == tx,
                        builder.leaves() == lx,
                        builder.root() == rt,
                        builder.opened_count() == oc0 + kinds.len() - j,
                        builder.opened_kinds() == ok0.add(kinds_ms(kinds@.subrange(j as int, kinds.len() as int))),
                        builder.opened_shape() == os0 + opens_rev(kinds@.subrange(j as int, kinds.len() as int)),
                        open0 > 0 ==> builder.frames()[0].0 == f0,
                        open0 == 0 && j < kinds.len() ==> builder.frames()[0].0 == kinds@[kinds.len()
                            - 1],
                    decreases j,
                {
                    j = j - 1;
                    proof {
                        assert(kinds@.subrange(j as int, kinds.len() as int).drop_first() =~= kinds@.subrange(
                            j as int + 1,
                            kinds.len() as int,
                        ));
                    }
                    builder.start_node(kinds[j]);
                    open = open + 1;
                    proof {
                        let sub = kinds@.subrange(j as int, kinds.len() as int);
                        assert(sub[0] == kinds@[j as int]);
                        assert(opens_rev(sub) == opens_rev(sub.drop_first()).push(ShapeStep::Open(sub[0])));
                        assert(builder.opened_shape() =~= os0 + opens_rev(sub));
                    }
                }
                proof {
                    if ge {
                        assert(kinds@.subrange(0, kinds.len() as int) =~= kinds@);
                        assert(kinds_ms(kinds@) == kinds_ms(kinds@.drop_first()).insert(kinds@[0]));
                        assert(builder.opened_kinds() =~= start_kinds(orig.take(i as int + 1)).add(
                            ahead_kinds(orig, events@, i as int + 1),
                        ));
                        assert(kinds@ =~= seq![kind] + kinds@.drop_first());
                        assert(shape_run(cur0, i as int, n as int) == opens_rev(
                            seq![kind] + parent_chain(cur1, forward_parent).0,
                        ) + shape_run(parent_chain(cur1, forward_parent).1, i as int + 1, n as int));
                        assert(builder.opened_shape() + shape_run(events@, i as int + 1, n as int)
                            =~= shape_run(orig, 0, n as int));
                    }
                }
            },
            Event::Finish => {
                proof {
                    if ge && i + 1 == n {
                        assert(open == 1);
                    }
                    if good && i + 1 == n {
                        assert(pending is None);
                        assert(builder.text() + pending_text(pending) =~= builder.text());
                    }
                }
                if open == 1 {
                    flush_trivia(&mut builder, tokens, &mut cursor);
                }
                proof {
                    if good && i + 1 == n {
                        let c = cursor as int;
                        if !(c == tokens.len() || tokens@[c].kind == SyntaxKind::Eof) {
                            lemma_sig_count_prefix(tokens@, c);
                        }
                        lemma_stop_covers_source(tokens@, c);
                        lemma_sig_tokens_source(tokens@);
                        lemma_trivia_tokens_source(tokens@);
                        assert(significant_leaves_text(builder.leaves()) + pending_text(pending)
                            =~= significant_leaves_text(builder.leaves()));
                    }
                }
                let ghost fs_before = builder.frames();
                builder.finish_node();
                proof {
                    if ge {
                        assert(shape_run(cur0, i as int, n as int) == seq![ShapeStep::Close]
                            + shape_run(events@, i as int + 1, n as int));
                        assert(builder.opened_shape() + shape_run(events@, i as int + 1, n as int)
                            =~= shape_run(orig, 0, n as int));
                    }
                    if fs_before.len() > 1 {
                        let nfs = builder.frames();
                        if nfs.len() > 1 {
                            assert(nfs[0] == fs_before[0]);
                        }
                    }
                }
                open = open.saturating_sub(1);
            },
            Event::Token => {
                proof {
                    if good {
                        lemma_count_tokens_prefix(orig, i as int + 1, n as int);
                    }
                }
                place_token(&mut builder, tokens, &mut cursor, &mut pending);
                proof {
                    assert(shape_run(cur0, i as int, n as int) == shape_run(events@, i as int + 1, n as int));
                }
            },
            Event::Split { first, rest } => {
                proof {
                    if good {
                        if pending is Some {
                            lemma_split_none_persists(orig, i as int + 1, n as int);
                        }
                        lemma_split_pending_token(orig, i as int + 1);
                    }
                }
                place_split(&mut builder, tokens, &mut cursor, &mut pending, first, rest);
                proof {
                    assert(shape_run(cur0, i as int, n as int) == shape_run(events@, i as int + 1, n as int));
                }
            },
            Event::Tombstone => {
                proof {
                    assert(shape_run(cur0, i as int, n as int) == shape_run(events@, i as int + 1, n as int));
                }
            },
        }
        i = i + 1;
    }
    proof {
        if ge {
            assert(orig.take(n as int) =~= orig);
            assert(ahead(orig, events@, n as int) == 0);
            assert(open == 0);
            assert(builder.frames().len() == 0);
            assert(frames_node_count(builder.frames()) == 0);
            assert(ahead_kinds(orig, events@, n as int) == Multiset::<SyntaxKind>::empty());
            assert(frames_node_kinds(builder.frames()) =~= Multiset::empty());
            assert(builder.opened_kinds() =~= start_kinds(orig));
        }
    }
    builder.finish()
}

/// A token's kind.
fn kind_of_token(t: &Token) -> (k: SyntaxKind)
    ensures
        k == t.kind,
{
    t.kind
}

} // verus!
