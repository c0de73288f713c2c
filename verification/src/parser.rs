//! The parser cursor. It walks the significant-token view (trivia and `Eof`
//! filtered out), emits `Event`s, and collects diagnostics. It never builds the
//! tree directly and never touches trivia or offsets.
//!
//! Recovery and termination: unexpected tokens are wrapped in `Error` nodes via
//! `err_and_bump`, which always consumes a token, so every grammar loop that
//! calls it makes progress. The `at_end` guard plus "every loop either bumps or
//! breaks" is what guarantees the parser always terminates.
//!
//! The event stream the cursor emits is kept well-nested at every step: with
//! each open marker's placeholder read as an opened node, every prefix opens at
//! least as many nodes as it closes, the stream holds one `Token` per consumed
//! token, and every forward parent points further on, at a node.

use crate::error::ParseError;
use crate::event::{
    balanced, count_finishes, count_starts, count_tokens, lemma_events_take_step,
    parents_forward, sig_count, start_kinds, lemma_start_kinds_push, lemma_start_kinds_update, significant_tokens, lemma_significant_tokens_len, split_state, splits_significant, Event,
};
use crate::syntax_kind::{is_keyword_kind, is_trivia_kind, label_of, SyntaxKind};
use crate::text::push_str;
use crate::token::{Span, Token};
use vstd::prelude::*;

verus! {

/// A significant token: its kind, its source span, and its text.
struct SigToken {
    kind: SyntaxKind,
    span: Span,
    text: String,
}

/// Maximum nesting before the parser stops descending and recovers. Deeper
/// input is treated as a (recoverable) error rather than risking a stack
/// overflow.
pub const MAX_DEPTH: usize = 64;

// ── the nesting discipline ──────────────────────────────────────────────────

/// The stream with each open marker's placeholder read as an opened node.
pub open spec fn filled(es: Seq<Event>, open: Seq<int>) -> Seq<Event> {
    Seq::new(
        es.len(),
        |k: int|
            if open.contains(k) {
                Event::Start { kind: SyntaxKind::Error, forward_parent: None }
            } else {
                es[k]
            },
    )
}

/// Strictly increasing positions.
pub open spec fn increasing(s: Seq<int>) -> bool {
    forall|a: int, b: int| 0 <= a < b < s.len() ==> s[a] < s[b]
}

/// Every prefix opens at least as many nodes as it closes, and at least one
/// more for each open marker it has passed; all but the open markers' nodes
/// are closed.
pub open spec fn nesting_ok(v: Seq<Event>, open: Seq<int>) -> bool {
    &&& count_starts(v) == count_finishes(v) + open.len()
    &&& forall|t: int|
        0 <= t <= v.len() ==> count_starts(#[trigger] v.take(t)) >= count_finishes(v.take(t))
    &&& forall|k: int, t: int|
        #![trigger open[k], v.take(t)]
        0 <= k < open.len() && 0 <= open[k] < t <= v.len() ==> count_starts(v.take(t))
            >= count_finishes(v.take(t)) + k + 1
}

/// Appending an event leaves every prefix of the old stream as it was.
proof fn lemma_push_prefix(v: Seq<Event>, e: Event, t: int)
    requires
        0 <= t <= v.len(),
    ensures
        v.push(e).take(t) == v.take(t),
{
    assert(v.push(e).take(t) =~= v.take(t));
}

/// Replacing a `Start` by a `Start` changes no count of any prefix.
proof fn lemma_restart_prefix(v: Seq<Event>, p: int, e: Event, t: int)
    requires
        0 <= p < v.len(),
        v[p] is Start,
        e is Start,
        0 <= t <= v.len(),
    ensures
        count_starts(v.update(p, e).take(t)) == count_starts(v.take(t)),
        count_finishes(v.update(p, e).take(t)) == count_finishes(v.take(t)),
        count_tokens(v.update(p, e).take(t)) == count_tokens(v.take(t)),
        split_state(v.update(p, e).take(t)) == split_state(v.take(t)),
    decreases t,
{
    let w = v.update(p, e);
    if t > 0 {
        lemma_restart_prefix(v, p, e, t - 1);
        lemma_events_take_step(v, t - 1);
        lemma_events_take_step(w, t - 1);
    } else {
        assert(w.take(0) =~= v.take(0));
    }
}

/// Replacing a `Start` by a `Start` keeps the nesting discipline.
proof fn lemma_restart_nesting(v: Seq<Event>, open: Seq<int>, p: int, e: Event)
    requires
        0 <= p < v.len(),
        v[p] is Start,
        e is Start,
        nesting_ok(v, open),
    ensures
        nesting_ok(v.update(p, e), open),
        count_tokens(v.update(p, e)) == count_tokens(v),
        split_state(v.update(p, e)) == split_state(v),
{
    let w = v.update(p, e);
    assert(v.take(v.len() as int) =~= v);
    assert(w.take(w.len() as int) =~= w);
    lemma_restart_prefix(v, p, e, v.len() as int);
    assert forall|t: int| 0 <= t <= w.len() implies count_starts(#[trigger] w.take(t))
        >= count_finishes(w.take(t)) by {
        lemma_restart_prefix(v, p, e, t);
        assert(count_starts(v.take(t)) >= count_finishes(v.take(t)));
    }
    assert forall|k: int, t: int|
        #![trigger open[k], w.take(t)]
        0 <= k < open.len() && 0 <= open[k] < t <= w.len() implies count_starts(w.take(t))
            >= count_finishes(w.take(t)) + k + 1 by {
        lemma_restart_prefix(v, p, e, t);
        assert(count_starts(v.take(t)) >= count_finishes(v.take(t)) + k + 1);
    }
}

/// Appending an event that opens no node keeps every prefix constraint, the
/// new full prefix included.
proof fn lemma_push_plain(v: Seq<Event>, open: Seq<int>, e: Event)
    requires
        nesting_ok(v, open),
        increasing(open),
        forall|k: int| 0 <= k < open.len() ==> #[trigger] open[k] < v.len(),
        !(e is Start),
        !(e is Finish),
    ensures
        nesting_ok(v.push(e), open),
        count_tokens(v.push(e)) == count_tokens(v) + if e is Token {
            1nat
        } else {
            0nat
        },
        split_state(v.push(e)) == match split_state(v) {
            None => None,
            Some(pending) => match e {
                Event::Split { .. } => if pending {
                    None
                } else {
                    Some(true)
                },
                Event::Token => Some(false),
                _ => Some(pending),
            },
        },
{
    let w = v.push(e);
    let n = v.len() as int;
    assert(v.take(n) =~= v);
    assert(w.take(n + 1) =~= w);
    lemma_events_take_step(w, n);
    lemma_push_prefix(v, e, n);
    assert forall|t: int| 0 <= t <= w.len() implies count_starts(#[trigger] w.take(t))
        >= count_finishes(w.take(t)) by {
        if t <= n {
            lemma_push_prefix(v, e, t);
        }
    }
    assert forall|k: int, t: int|
        #![trigger open[k], w.take(t)]
        0 <= k < open.len() && 0 <= open[k] < t <= w.len() implies count_starts(w.take(t))
            >= count_finishes(w.take(t)) + k + 1 by {
        if t <= n {
            lemma_push_prefix(v, e, t);
            assert(count_starts(v.take(t)) >= count_finishes(v.take(t)) + k + 1);
        } else {
            assert(k + 1 <= open.len());
        }
    }
}

/// Appending a `Start` whose position becomes the new innermost open marker.
proof fn lemma_push_open(v: Seq<Event>, open: Seq<int>, e: Event)
    requires
        nesting_ok(v, open),
        increasing(open),
        forall|k: int| 0 <= k < open.len() ==> #[trigger] open[k] < v.len(),
        e is Start,
    ensures
        nesting_ok(v.push(e), open.push(v.len() as int)),
        count_tokens(v.push(e)) == count_tokens(v),
        split_state(v.push(e)) == split_state(v),
        increasing(open.push(v.len() as int)),
{
    let w = v.push(e);
    let o = open.push(v.len() as int);
    let n = v.len() as int;
    assert(v.take(n) =~= v);
    assert(w.take(n + 1) =~= w);
    lemma_events_take_step(w, n);
    lemma_push_prefix(v, e, n);
    assert forall|t: int| 0 <= t <= w.len() implies count_starts(#[trigger] w.take(t))
        >= count_finishes(w.take(t)) by {
        if t <= n {
            lemma_push_prefix(v, e, t);
        }
    }
    assert forall|k: int, t: int|
        #![trigger o[k], w.take(t)]
        0 <= k < o.len() && 0 <= o[k] < t <= w.len() implies count_starts(w.take(t))
            >= count_finishes(w.take(t)) + k + 1 by {
        if k < open.len() {
            assert(o[k] == open[k]);
            if t <= n {
                lemma_push_prefix(v, e, t);
                assert(count_starts(v.take(t)) >= count_finishes(v.take(t)) + k + 1);
            }
        }
    }
}

/// Closing the innermost open marker: its placeholder becomes the node's
/// `Start` and a `Finish` is appended.
proof fn lemma_close(v: Seq<Event>, open: Seq<int>, e: Event)
    requires
        nesting_ok(v, open),
        increasing(open),
        open.len() > 0,
        forall|k: int| 0 <= k < open.len() ==> 0 <= #[trigger] open[k] < v.len(),
        v[open.last()] is Start,
        e is Start,
    ensures
        nesting_ok(v.update(open.last(), e).push(Event::Finish), open.drop_last()),
        count_tokens(v.update(open.last(), e).push(Event::Finish)) == count_tokens(v),
        split_state(v.update(open.last(), e).push(Event::Finish)) == split_state(v),
{
    let p = open.last();
    let u = v.update(p, e);
    let w = u.push(Event::Finish);
    let o = open.drop_last();
    let n = v.len() as int;
    lemma_restart_nesting(v, open, p, e);
    assert(u.take(n) =~= u);
    assert(w.take(n + 1) =~= w);
    lemma_events_take_step(w, n);
    lemma_push_prefix(u, Event::Finish, n);
    assert forall|t: int| 0 <= t <= w.len() implies count_starts(#[trigger] w.take(t))
        >= count_finishes(w.take(t)) by {
        if t <= n {
            lemma_push_prefix(u, Event::Finish, t);
        }
    }
    assert forall|k: int, t: int|
        #![trigger o[k], w.take(t)]
        0 <= k < o.len() && 0 <= o[k] < t <= w.len() implies count_starts(w.take(t))
            >= count_finishes(w.take(t)) + k + 1 by {
        assert(o[k] == open[k]);
        if t <= n {
            lemma_push_prefix(u, Event::Finish, t);
            assert(count_starts(u.take(t)) >= count_finishes(u.take(t)) + k + 1);
        }
    }
}

/// The number of `Error` nodes the cursor has completed.
pub open spec fn error_nodes(p: Parser) -> nat {
    start_kinds(p.events_view()).count(SyntaxKind::Error)
}

/// From `prev` to `p` no diagnostic is lost, and no `Error` node is completed
/// without a new diagnostic beside it.
pub open spec fn accounted(p: Parser, prev: Parser) -> bool {
    &&& p.error_count() >= prev.error_count()
    &&& p.error_count() == prev.error_count() ==> error_nodes(p) == error_nodes(prev)
}

/// What the cursor's invariant says of its bounds, for any caller.
pub broadcast proof fn lemma_wf_bounds(p: Parser)
    ensures
        #[trigger] p.wf() ==> {
            &&& 0 <= p.position() <= p.token_count() <= usize::MAX
            &&& p.event_count() <= usize::MAX
            &&& 0 <= p.depth_level() <= MAX_DEPTH
            &&& (p.current_kind() == SyntaxKind::Eof) == p.ended()
        },
{
    assert(p.events@.len() == p.events.len());
}

/// The diagnostic for a missing `want` where `found` stands.
pub open spec fn expected_message(want: SyntaxKind, found: SyntaxKind) -> Seq<char> {
    seq!['e', 'x', 'p', 'e', 'c', 't', 'e', 'd', ' '] + label_of(want) + seq![
        ',',
        ' ',
        'f',
        'o',
        'u',
        'n',
        'd',
        ' ',
    ] + label_of(found)
}

/// The events of one token wrapped in an `Error` node.
pub open spec fn error_leaf() -> Seq<Event> {
    seq![Event::Start { kind: SyntaxKind::Error, forward_parent: None }, Event::Token, Event::Finish]
}

/// How consuming a token of kind `k` moves the bracket counts: an opener
/// counts up, a closer counts down (not below zero).
pub open spec fn bracket_step(b: (nat, nat, nat), k: SyntaxKind) -> (nat, nat, nat) {
    let (p, s, c) = b;
    if k == SyntaxKind::LParen {
        (p + 1, s, c)
    } else if k == SyntaxKind::LBracket {
        (p, s + 1, c)
    } else if k == SyntaxKind::LBrace {
        (p, s, c + 1)
    } else if k == SyntaxKind::RParen {
        (if p > 0 { (p - 1) as nat } else { 0 }, s, c)
    } else if k == SyntaxKind::RBracket {
        (p, if s > 0 { (s - 1) as nat } else { 0 }, c)
    } else if k == SyntaxKind::RBrace {
        (p, s, if c > 0 { (c - 1) as nat } else { 0 })
    } else {
        (p, s, c)
    }
}

/// Closing the one remaining open marker, at the very first event, after the
/// last token leaves a balanced stream with one `Token` per token.
pub proof fn lemma_root_closed(before: Parser, kind: SyntaxKind)
    requires
        before.wf(),
        before.open_markers() == seq![0int],
        before.ended(),
    ensures
        ({
            let es = before.events_view().update(0, Event::Start { kind, forward_parent: None }).push(
                Event::Finish,
            );
            &&& balanced(es)
            &&& es[0] == (Event::Start { kind, forward_parent: None })
            &&& count_tokens(es) == before.token_count()
            &&& split_state(es) == Some(false)
            &&& parents_forward(es)
        }),
{
    let st = Event::Start { kind, forward_parent: None };
    let open = before.open@;
    let ev = before.events@;
    let v = filled(ev, open);
    let es = ev.update(0, st).push(Event::Finish);
    let n = ev.len() as int;
    assert(open[0] == 0);
    assert(open.contains(0int));
    assert forall|k: int| 0 <= k < n && k != 0 implies !open.contains(k) by {
        if open.contains(k) {
            let i = choose|i: int| 0 <= i < open.len() && open[i] == k;
            assert(i == 0);
        }
    }
    assert(v.update(0, st).push(Event::Finish) =~= es);
    lemma_close(v, open, st);
    assert(open.drop_last() =~= Seq::<int>::empty());
    lemma_parents_update(v, 0, st);
    lemma_parents_push(v.update(0, st), Event::Finish);
    let u = v.update(0, st);
    assert forall|t: int| 1 <= t < es.len() implies count_starts(#[trigger] es.take(t))
        > count_finishes(es.take(t)) by {
        lemma_push_prefix(u, Event::Finish, t);
        lemma_restart_prefix(v, 0, st, t);
        assert(count_starts(v.take(t)) >= count_finishes(v.take(t)) + 0 + 1);
    }
    assert(es.take(es.len() as int) =~= es);
    assert(es.last() is Finish);
}

// ── how the filled view follows the cursor's edits ──────────────────────────

/// Appending an event past every open marker appends it to the filled view.
proof fn lemma_filled_push(es: Seq<Event>, open: Seq<int>, e: Event)
    requires
        forall|k: int| 0 <= k < open.len() ==> #[trigger] open[k] < es.len(),
    ensures
        filled(es.push(e), open) == filled(es, open).push(e),
{
    let n = es.len() as int;
    assert(!open.contains(n)) by {
        if open.contains(n) {
            let k = choose|k: int| 0 <= k < open.len() && open[k] == n;
            assert(open[k] < es.len());
        }
    }
    assert(filled(es.push(e), open) =~= filled(es, open).push(e));
}

/// Opening a marker at the end appends an opened node to the filled view.
proof fn lemma_filled_push_open(es: Seq<Event>, open: Seq<int>)
    requires
        forall|k: int| 0 <= k < open.len() ==> #[trigger] open[k] < es.len(),
    ensures
        filled(es.push(Event::Tombstone), open.push(es.len() as int)) == filled(es, open).push(
            Event::Start { kind: SyntaxKind::Error, forward_parent: None },
        ),
{
    let n = es.len() as int;
    let o = open.push(n);
    assert(o.contains(n)) by {
        assert(o[open.len() as int] == n);
    }
    assert forall|k: int| 0 <= k < n implies o.contains(k) == open.contains(k) by {
        if open.contains(k) {
            let i = choose|i: int| 0 <= i < open.len() && open[i] == k;
            assert(o[i] == k);
        }
        if o.contains(k) {
            let i = choose|i: int| 0 <= i < o.len() && o[i] == k;
            assert(i < open.len());
            assert(open[i] == k);
        }
    }
    assert(filled(es.push(Event::Tombstone), o) =~= filled(es, open).push(
        Event::Start { kind: SyntaxKind::Error, forward_parent: None },
    ));
}

/// Rewriting an event that is no open marker rewrites it in the filled view.
proof fn lemma_filled_update(es: Seq<Event>, open: Seq<int>, p: int, e: Event)
    requires
        0 <= p < es.len(),
        !open.contains(p),
    ensures
        filled(es.update(p, e), open) == filled(es, open).update(p, e),
{
    assert(filled(es.update(p, e), open) =~= filled(es, open).update(p, e));
}

/// Closing the innermost open marker rewrites its placeholder in the filled
/// view.
proof fn lemma_filled_close(es: Seq<Event>, open: Seq<int>, e: Event)
    requires
        open.len() > 0,
        increasing(open),
        0 <= open.last() < es.len(),
    ensures
        filled(es.update(open.last(), e), open.drop_last()) == filled(es, open).update(
            open.last(),
            e,
        ),
{
    let p = open.last();
    let o = open.drop_last();
    assert(!o.contains(p)) by {
        if o.contains(p) {
            let i = choose|i: int| 0 <= i < o.len() && o[i] == p;
            assert(open[i] < open[open.len() - 1]);
        }
    }
    assert forall|k: int| 0 <= k < es.len() && k != p implies o.contains(k) == open.contains(
        k,
    ) by {
        if open.contains(k) {
            let i = choose|i: int| 0 <= i < open.len() && open[i] == k;
            assert(i != open.len() - 1);
            assert(o[i] == k);
        }
        if o.contains(k) {
            let i = choose|i: int| 0 <= i < o.len() && o[i] == k;
            assert(open[i] == k);
        }
    }
    assert(open.contains(p)) by {
        assert(open[open.len() - 1] == p);
    }
    assert(filled(es.update(p, e), o) =~= filled(es, open).update(p, e));
}

/// Appending an event that carries no forward parent keeps the forward
/// parents in order.
proof fn lemma_parents_push(v: Seq<Event>, e: Event)
    requires
        parents_forward(v),
        e matches Event::Start { forward_parent, .. } ==> forward_parent is None,
    ensures
        parents_forward(v.push(e)),
{
    let w = v.push(e);
    assert forall|j: int|
        0 <= j < w.len() && (#[trigger] w[j] matches Event::Start { forward_parent, .. }
            && forward_parent is Some) implies ({
        let f = w[j]->forward_parent->0 as int;
        &&& j < f < w.len()
        &&& (w[f] is Start || w[f] is Tombstone)
    }) by {
        assert(w[j] == v[j]);
        let f = w[j]->forward_parent->0 as int;
        assert(w[f] == v[f]);
    }
}

/// Rewriting a node's `Start` with a forward parent at a later node keeps
/// the forward parents in order.
proof fn lemma_parents_update(v: Seq<Event>, p: int, e: Event)
    requires
        parents_forward(v),
        0 <= p < v.len(),
        v[p] is Start,
        e is Start,
        e->forward_parent matches Some(f) ==> p < f < v.len() && v[f as int] is Start,
    ensures
        parents_forward(v.update(p, e)),
{
    let w = v.update(p, e);
    assert forall|j: int|
        0 <= j < w.len() && (#[trigger] w[j] matches Event::Start { forward_parent, .. }
            && forward_parent is Some) implies ({
        let f = w[j]->forward_parent->0 as int;
        &&& j < f < w.len()
        &&& (w[f] is Start || w[f] is Tombstone)
    }) by {
        let f = w[j]->forward_parent->0 as int;
        if j != p {
            assert(w[j] == v[j]);
        }
    }
}

// ── markers ─────────────────────────────────────────────────────────────────

/// An open node: created by `start`, closed by `Marker::complete`. Points at
/// the placeholder event.
pub struct Marker {
    pos: usize,
}

impl Marker {
    /// The index of the marker's placeholder event.
    pub closed spec fn index(&self) -> int {
        self.pos as int
    }
}

/// A closed node, returned by `Marker::complete`. Can be retroactively wrapped
/// by a later node via `precede` (the precedence-climbing mechanism).
#[derive(Clone, Copy)]
pub struct CompletedMarker {
    pos: usize,
}

impl CompletedMarker {
    /// The index of the node's `Start` event.
    pub closed spec fn index(&self) -> int {
        self.pos as int
    }
}

/// The parsing cursor. Produced events and collected errors are taken out by
/// `finish` once the grammar has run.
pub struct Parser {
    tokens: Vec<SigToken>,
    pos: usize,
    events: Vec<Event>,
    errors: Vec<ParseError>,
    /// When set, `{` does not start a struct literal: used while parsing the
    /// condition or scrutinee of `if` / `loop` / `match`, where `{` opens the
    /// body.
    no_struct: bool,
    /// Current recursion depth; the guard against stack overflow on
    /// pathologically nested input.
    depth: usize,
    /// Counts of consumed openers `(`, `[`, `{` not yet matched by a consumed
    /// closer. A closer while its count is positive belongs to an enclosing
    /// construct.
    parens: usize,
    brackets: usize,
    braces: usize,
    /// Positions of the open markers, outermost first.
    open: Ghost<Seq<int>>,
    /// Whether the current token is the remainder of a split `>>`.
    split: Ghost<bool>,
    /// For each event, the kind of the token it consumed, where it is a
    /// `Token`.
    consumed: Ghost<Seq<Option<SyntaxKind>>>,
}

impl Parser {
    // ── the model ──────────────────────────────────────────────────────────

    /// The number of significant tokens.
    pub closed spec fn token_count(&self) -> nat {
        self.tokens.len() as nat
    }

    /// The cursor's index into the significant tokens.
    pub closed spec fn position(&self) -> nat {
        self.pos as nat
    }

    /// The kind of the token at the cursor, or `Eof` past the end.
    pub closed spec fn current_kind(&self) -> SyntaxKind {
        if self.pos < self.tokens.len() {
            self.tokens@[self.pos as int].kind
        } else {
            SyntaxKind::Eof
        }
    }

    /// The kind `n` tokens ahead of the cursor, or `Eof` past the end.
    pub closed spec fn kind_ahead(&self, n: int) -> SyntaxKind {
        if 0 <= self.pos + n < self.tokens.len() {
            self.tokens@[self.pos + n].kind
        } else {
            SyntaxKind::Eof
        }
    }

    /// The text of the token at the cursor, or empty past the end.
    pub closed spec fn current_text_view(&self) -> Seq<char> {
        if self.pos < self.tokens.len() {
            self.tokens@[self.pos as int].text@
        } else {
            Seq::empty()
        }
    }

    /// The emitted events.
    pub closed spec fn events_view(&self) -> Seq<Event> {
        self.events@
    }

    /// The kind of the token that event `j` consumed, where it is a `Token`.
    pub closed spec fn consumed_kind(&self, j: int) -> Option<SyntaxKind> {
        self.consumed@[j]
    }

    /// The number of emitted events.
    pub open spec fn event_count(&self) -> int {
        self.events_view().len() as int
    }

    /// The kind of the node whose `Start` is event `j`.
    pub open spec fn node_kind(&self, j: int) -> SyntaxKind {
        self.events_view()[j]->kind
    }

    /// Whether event `j` is a node's `Start`.
    pub open spec fn started(&self, j: int) -> bool {
        0 <= j < self.events_view().len() && self.events_view()[j] is Start
    }

    /// The collected diagnostics, oldest first.
    pub closed spec fn errors_view(&self) -> Seq<ParseError> {
        self.errors@
    }

    /// The collected diagnostics' count.
    pub open spec fn error_count(&self) -> int {
        self.errors_view().len() as int
    }

    /// The span a diagnostic at the cursor points at: the current token's, or
    /// a zero-width span just past the last token.
    pub closed spec fn current_span_view(&self) -> Span {
        if self.pos < self.tokens.len() {
            self.tokens@[self.pos as int].span
        } else if self.tokens.len() > 0 {
            Span {
                lo: self.tokens@[self.tokens.len() - 1].span.hi,
                hi: self.tokens@[self.tokens.len() - 1].span.hi,
            }
        } else {
            Span { lo: 0, hi: 0 }
        }
    }

    /// The counts of consumed `(`, `[` and `{` not yet matched by a consumed
    /// closer.
    pub closed spec fn bracket_counts(&self) -> (nat, nat, nat) {
        (self.parens as nat, self.brackets as nat, self.braces as nat)
    }

    /// The positions of the open markers, outermost first.
    pub closed spec fn open_markers(&self) -> Seq<int> {
        self.open@
    }

    /// Whether `{` is read as a block rather than a struct literal.
    pub closed spec fn no_struct_flag(&self) -> bool {
        self.no_struct
    }

    /// The recursion depth.
    pub closed spec fn depth_level(&self) -> nat {
        self.depth as nat
    }

    /// The number of significant tokens left.
    pub open spec fn remaining(&self) -> int {
        self.token_count() - self.position()
    }

    /// Past the last significant token.
    pub open spec fn ended(&self) -> bool {
        self.position() >= self.token_count()
    }

    /// A closed node of this stream.
    pub open spec fn completed(&self, cm: CompletedMarker) -> bool {
        self.started(cm.index())
    }

    /// A closed node with no node opened around it yet: the outermost of the
    /// nodes that start where it starts.
    pub open spec fn is_top(&self, cm: CompletedMarker) -> bool {
        self.completed(cm) && self.events_view()[cm.index()]->forward_parent is None
    }

    /// How a later state of the cursor relates to an earlier one: the same
    /// tokens, a cursor no further back, and every node opened stays a node.
    pub open spec fn evolved(&self, prev: Parser) -> bool {
        &&& self.moved_on(prev)
        &&& self.depth_level() == prev.depth_level()
    }

    /// The same tokens, a cursor no further back, and every node opened stays
    /// a node of its kind (the recursion depth aside); a node already wrapped
    /// by another keeps its event as it is, and each event keeps the token
    /// kind it consumed.
    pub open spec fn moved_on(&self, prev: Parser) -> bool {
        &&& self.token_count() == prev.token_count()
        &&& prev.position() <= self.position()
        &&& prev.event_count() <= self.event_count()
        &&& forall|j: int| #[trigger] prev.started(j) ==> self.started(j) && self.node_kind(j)
            == prev.node_kind(j)
        &&& forall|j: int|
            #[trigger] prev.started(j) && prev.events_view()[j]->forward_parent is Some
                ==> self.events_view()[j] == prev.events_view()[j]
        &&& forall|j: int|
            0 <= j < prev.event_count() ==> #[trigger] self.consumed_kind(j) == prev.consumed_kind(j)
    }

    /// Nothing of the cursor has moved: only diagnostics may have been added.
    pub open spec fn unmoved(&self, prev: Parser) -> bool {
        &&& self.token_count() == prev.token_count()
        &&& self.position() == prev.position()
        &&& self.current_kind() == prev.current_kind()
        &&& self.events_view() == prev.events_view()
        &&& self.event_count() == prev.event_count()
        &&& self.open_markers() == prev.open_markers()
        &&& self.depth_level() == prev.depth_level()
        &&& self.no_struct_flag() == prev.no_struct_flag()
        &&& forall|j: int| #[trigger] self.started(j) == prev.started(j)
    }

    /// The cursor's invariant: the nesting discipline over the events, one
    /// `Token` per consumed token, a split remainder only at the cursor, and
    /// forward parents pointing further on at nodes.
    pub closed spec fn wf(&self) -> bool {
        let v = filled(self.events@, self.open@);
        &&& self.pos <= self.tokens.len()
        &&& self.depth <= MAX_DEPTH
        &&& forall|k: int| 0 <= k < self.tokens.len() ==> #[trigger] self.tokens@[k].kind != SyntaxKind::Eof
        &&& increasing(self.open@)
        &&& forall|k: int|
            0 <= k < self.open@.len() ==> 0 <= #[trigger] self.open@[k] < self.events.len()
                && self.events@[self.open@[k]] is Tombstone
        &&& nesting_ok(v, self.open@)
        &&& count_tokens(v) == self.pos
        &&& split_state(v) == Some(self.split@)
        &&& self.split@ ==> self.pos < self.tokens.len() && self.tokens@[self.pos as int].kind
            == SyntaxKind::Gt
        &&& parents_forward(v)
        &&& self.parens + self.brackets + self.braces <= self.pos
        &&& splits_significant(self.events@)
        &&& self.consumed@.len() == self.events@.len()
    }

    /// Every split the cursor has emitted gives both pieces a kind that is not
    /// trivia.
    pub proof fn lemma_splits_significant(&self)
        requires
            self.wf(),
        ensures
            splits_significant(self.events_view()),
    {
    }

    // ── construction ────────────────────────────────────────────────────────

    /// Build a cursor over the lexer's tokens, keeping only the significant
    /// ones (trivia and `Eof` dropped: `Eof` is represented by running off the
    /// end).
    pub fn new(tokens: &[Token]) -> (p: Parser)
        ensures
            p.wf(),
            p.token_count() == sig_count(tokens@),
            p.position() == 0,
            p.event_count() == 0,
            p.open_markers().len() == 0,
            p.depth_level() == 0,
            p.error_count() == 0,
            forall|j: int|
                0 <= j < sig_count(tokens@) ==> #[trigger] p.kind_ahead(j) == significant_tokens(
                    tokens@,
                )[j].kind,
            sig_count(tokens@) > 0 ==> p.current_text_view() == significant_tokens(tokens@)[0].text@,
            sig_count(tokens@) > 0 ==> p.current_kind() == significant_tokens(tokens@)[0].kind,
            sig_count(tokens@) == 0 ==> p.current_kind() == SyntaxKind::Eof,
            sig_count(tokens@) <= 1 ==> p.kind_ahead(1) == SyntaxKind::Eof,
    {
        let mut sig: Vec<SigToken> = Vec::new();
        let mut i: usize = 0;
        while i < tokens.len()
            invariant
                i <= tokens.len(),
                sig.len() == sig_count(tokens@.take(i as int)),
                sig.len() == significant_tokens(tokens@.take(i as int)).len(),
                forall|k: int| 0 <= k < sig.len() ==> #[trigger] sig@[k].kind != SyntaxKind::Eof,
                forall|k: int|
                    0 <= k < sig.len() ==> #[trigger] sig@[k].kind == significant_tokens(
                        tokens@.take(i as int),
                    )[k].kind && sig@[k].text@ == significant_tokens(tokens@.take(i as int))[k].text@,
            decreases tokens.len() - i,
        {
            let t = &tokens[i];
            proof {
                assert(tokens@.take(i as int + 1).drop_last() =~= tokens@.take(i as int));
                assert(tokens@.take(i as int + 1).last() == tokens@[i as int]);
                lemma_significant_tokens_len(tokens@.take(i as int));
            }
            if !t.kind.is_trivia() && t.kind != SyntaxKind::Eof {
                sig.push(SigToken { kind: t.kind, span: t.span, text: t.text.clone() });
            }
            i = i + 1;
        }
        proof {
            assert(tokens@.take(tokens.len() as int) =~= tokens@);
        }
        let p = Parser {
            tokens: sig,
            pos: 0,
            events: Vec::new(),
            errors: Vec::new(),
            no_struct: false,
            depth: 0,
            parens: 0,
            brackets: 0,
            braces: 0,
            open: Ghost(Seq::empty()),
            split: Ghost(false),
            consumed: Ghost(Seq::empty()),
        };
        proof {
            if sig_count(tokens@) > 0 {
                assert(p.tokens@[0].kind == significant_tokens(tokens@)[0].kind);
                assert(p.tokens@[0].text@ == significant_tokens(tokens@)[0].text@);
            }
            let v = filled(p.events@, p.open@);
            assert(v =~= Seq::<Event>::empty());
            assert(v.take(0) =~= v);
            crate::event::lemma_events_take_zero(v);
        }
        p
    }

    // ── recursion guard ─────────────────────────────────────────────────────

    /// Enter a level of recursion. Returns `false` when the depth limit is
    /// hit, signalling the caller to recover instead of descending. Always
    /// pair with `leave_recursion`.
    pub fn enter_recursion(&mut self) -> (r: bool)
        requires
            old(self).wf(),
            old(self).depth_level() < MAX_DEPTH,
        ensures
            final(self).wf(),
            final(self).depth_level() == old(self).depth_level() + 1,
            r == (final(self).depth_level() < MAX_DEPTH),
            final(self).token_count() == old(self).token_count(),
            final(self).position() == old(self).position(),
            final(self).current_kind() == old(self).current_kind(),
            final(self).events_view() == old(self).events_view(),
            final(self).open_markers() == old(self).open_markers(),
            final(self).moved_on(*old(self)),
            accounted(*final(self), *old(self)),
            final(self).errors_view() == old(self).errors_view(),
            final(self).no_struct_flag() == old(self).no_struct_flag(),
    {
        self.depth = self.depth + 1;
        self.depth < MAX_DEPTH
    }

    /// Leave a level of recursion entered with `enter_recursion`.
    pub fn leave_recursion(&mut self)
        requires
            old(self).wf(),
        ensures
            final(self).wf(),
            old(self).depth_level() > 0 ==> final(self).depth_level() == old(self).depth_level()
                - 1,
            old(self).depth_level() == 0 ==> final(self).depth_level() == 0,
            final(self).token_count() == old(self).token_count(),
            final(self).position() == old(self).position(),
            final(self).current_kind() == old(self).current_kind(),
            final(self).events_view() == old(self).events_view(),
            final(self).open_markers() == old(self).open_markers(),
            final(self).moved_on(*old(self)),
            accounted(*final(self), *old(self)),
            final(self).errors_view() == old(self).errors_view(),
            final(self).no_struct_flag() == old(self).no_struct_flag(),
    {
        self.depth = self.depth.saturating_sub(1);
    }

    /// Whether a `{` here should be read as a block (not a struct literal).
    pub fn no_struct(&self) -> (r: bool)
        ensures
            r == self.no_struct_flag(),
    {
        self.no_struct
    }

    /// Set the no-struct restriction, returning the previous value so the
    /// caller can restore it.
    pub fn set_no_struct(&mut self, value: bool) -> (r: bool)
        requires
            old(self).wf(),
        ensures
            r == old(self).no_struct_flag(),
            final(self).no_struct_flag() == value,
            final(self).wf(),
            final(self).evolved(*old(self)),
            accounted(*final(self), *old(self)),
            final(self).position() == old(self).position(),
            final(self).current_kind() == old(self).current_kind(),
            final(self).open_markers() == old(self).open_markers(),
            final(self).events_view() == old(self).events_view(),
            final(self).errors_view() == old(self).errors_view(),
    {
        let prev = self.no_struct;
        self.no_struct = value;
        prev
    }

    // ── cursor inspection ───────────────────────────────────────────────────

    /// The current token's kind, or `Eof` past the end.
    pub fn current(&self) -> (r: SyntaxKind)
        ensures
            r == self.current_kind(),
    {
        self.nth(0)
    }

    /// The kind `n` tokens ahead (`Eof` past the end).
    pub fn nth(&self, n: usize) -> (r: SyntaxKind)
        ensures
            r == self.kind_ahead(n as int),
            n == 0 ==> r == self.current_kind(),
    {
        if self.pos < self.tokens.len() && n < self.tokens.len() - self.pos {
            self.tokens[self.pos + n].kind
        } else {
            SyntaxKind::Eof
        }
    }

    /// Whether the current token is `kind`.
    pub fn at(&self, kind: SyntaxKind) -> (r: bool)
        ensures
            r == (self.current_kind() == kind),
    {
        self.current() == kind
    }

    /// The current token's text (empty past the end).
    pub fn current_text(&self) -> (r: &str)
        ensures
            r@ == self.current_text_view(),
    {
        if self.pos < self.tokens.len() {
            self.tokens[self.pos].text.as_str()
        } else {
            proof {
                reveal_strlit("");
            }
            ""
        }
    }

    /// True if the current token is an identifier with exactly this text.
    pub fn at_contextual(&self, text: &str) -> (r: bool)
        ensures
            r == (self.current_kind() == SyntaxKind::Ident && self.current_text_view() == text@),
    {
        if self.current() != SyntaxKind::Ident {
            return false;
        }
        let want = text.to_owned();
        self.tokens[self.pos].text == want
    }

    /// True for any of the given kinds.
    pub fn at_any(&self, kinds: &[SyntaxKind]) -> (r: bool)
        ensures
            r == kinds@.contains(self.current_kind()),
    {
        let cur = self.current();
        let mut i: usize = 0;
        while i < kinds.len()
            invariant
                i <= kinds.len(),
                cur == self.current_kind(),
                forall|j: int| 0 <= j < i ==> kinds@[j] != cur,
            decreases kinds.len() - i,
        {
            if kinds[i] == cur {
                return true;
            }
            i = i + 1;
        }
        false
    }

    /// Past the last significant token.
    pub fn at_end(&self) -> (r: bool)
        ensures
            r == self.ended(),
    {
        self.pos >= self.tokens.len()
    }

    /// The cursor's index into the significant tokens.
    pub fn pos(&self) -> (r: usize)
        ensures
            r == self.position(),
    {
        self.pos
    }

    /// Whether the current token closes a bracket that an enclosing construct
    /// opened (and so should be left for that construct to claim).
    pub fn at_claimed_close(&self) -> (r: bool)
        ensures
            r == self.at_claimed_close_spec(),
    {
        match self.current() {
            SyntaxKind::RParen => self.parens > 0,
            SyntaxKind::RBracket => self.brackets > 0,
            SyntaxKind::RBrace => self.braces > 0,
            _ => false,
        }
    }

    /// Whether the current token closes a bracket an enclosing construct
    /// opened.
    pub open spec fn at_claimed_close_spec(&self) -> bool {
        ||| (self.current_kind() == SyntaxKind::RParen && self.bracket_counts().0 > 0)
        ||| (self.current_kind() == SyntaxKind::RBracket && self.bracket_counts().1 > 0)
        ||| (self.current_kind() == SyntaxKind::RBrace && self.bracket_counts().2 > 0)
    }

    /// Whether the current token can close a generic list: `>`, or a `>>`
    /// that `eat_generic_close` splits.
    pub fn at_generic_close(&self) -> (r: bool)
        ensures
            r == (self.current_kind() == SyntaxKind::Gt || self.current_kind() == SyntaxKind::Shr),
    {
        self.at(SyntaxKind::Gt) || self.at(SyntaxKind::Shr)
    }

    /// The current token's span (or a zero-width span at end of input).
    fn current_span(&self) -> (r: Span)
        ensures
            r == self.current_span_view(),
    {
        if self.pos < self.tokens.len() {
            self.tokens[self.pos].span
        } else if self.tokens.len() > 0 {
            let hi = self.tokens[self.tokens.len() - 1].span.hi;
            Span { lo: hi, hi }
        } else {
            Span { lo: 0, hi: 0 }
        }
    }

    // ── consumption ─────────────────────────────────────────────────────────

    /// Consume the current token into the tree, advancing the cursor.
    pub fn bump(&mut self)
        requires
            old(self).wf(),
        ensures
            final(self).wf(),
            final(self).evolved(*old(self)),
            accounted(*final(self), *old(self)),
            final(self).open_markers() == old(self).open_markers(),
            final(self).no_struct_flag() == old(self).no_struct_flag(),
            final(self).errors_view() == old(self).errors_view(),
            old(self).ended() ==> final(self).unmoved(*old(self)) && final(self).bracket_counts()
                == old(self).bracket_counts(),
            !old(self).ended() ==> final(self).position() == old(self).position() + 1
                && final(self).current_kind() == old(self).kind_ahead(1) && final(self).events_view()
                == old(self).events_view().push(Event::Token) && final(self).bracket_counts()
                == bracket_step(old(self).bracket_counts(), old(self).current_kind()),
            old(self).current_kind() != SyntaxKind::Eof ==> !old(self).ended(),
            !old(self).ended() ==> final(self).consumed_kind(old(self).event_count()) == Some(
                old(self).current_kind(),
            ),
    {
        if self.at_end() {
            return ;
        }
        let k = self.tokens[self.pos].kind;
        match k {
            SyntaxKind::LParen => {
                self.parens = self.parens + 1;
            },
            SyntaxKind::LBracket => {
                self.brackets = self.brackets + 1;
            },
            SyntaxKind::LBrace => {
                self.braces = self.braces + 1;
            },
            SyntaxKind::RParen => {
                self.parens = self.parens.saturating_sub(1);
            },
            SyntaxKind::RBracket => {
                self.brackets = self.brackets.saturating_sub(1);
            },
            SyntaxKind::RBrace => {
                self.braces = self.braces.saturating_sub(1);
            },
            _ => {},
        }
        let ghost es = self.events@;
        proof {
            let v = filled(es, self.open@);
            lemma_filled_push(es, self.open@, Event::Token);
            lemma_push_plain(v, self.open@, Event::Token);
            lemma_parents_push(v, Event::Token);
        }
        self.events.push(Event::Token);
        self.consumed = Ghost(self.consumed@.push(Some(k)));
        self.pos = self.pos + 1;
        self.split = Ghost(false);
        proof {
            lemma_start_kinds_push(es, Event::Token);
            assert forall|j: int| #[trigger] old(self).started(j) implies self.started(j) && self.node_kind(j)
                == old(self).node_kind(j) by {
                assert(self.events@[j] == es[j]);
            }
            assert forall|k: int|
                0 <= k < self.open@.len() implies 0 <= #[trigger] self.open@[k]
                < self.events.len() && self.events@[self.open@[k]] is Tombstone by {
                assert(self.events@[self.open@[k]] == es[self.open@[k]]);
            }
        }
    }

    /// Consume the current token iff it is `kind`; report whether it was.
    pub fn eat(&mut self, kind: SyntaxKind) -> (r: bool)
        requires
            old(self).wf(),
            kind != SyntaxKind::Eof,
        ensures
            r == (old(self).current_kind() == kind),
            final(self).wf(),
            final(self).evolved(*old(self)),
            accounted(*final(self), *old(self)),
            final(self).open_markers() == old(self).open_markers(),
            final(self).no_struct_flag() == old(self).no_struct_flag(),
            final(self).errors_view() == old(self).errors_view(),
            r ==> final(self).position() == old(self).position() + 1 && final(self).events_view()
                == old(self).events_view().push(Event::Token),
            !r ==> final(self).unmoved(*old(self)) && final(self).bracket_counts() == old(
                self,
            ).bracket_counts(),
            !r ==> *final(self) == *old(self),
    {
        if self.at(kind) {
            self.bump();
            true
        } else {
            false
        }
    }

    /// Consume the current token iff it is one of `kinds`; report whether it
    /// was.
    pub fn eat_any(&mut self, kinds: &[SyntaxKind]) -> (r: bool)
        requires
            old(self).wf(),
            !kinds@.contains(SyntaxKind::Eof),
        ensures
            r == kinds@.contains(old(self).current_kind()),
            final(self).wf(),
            final(self).evolved(*old(self)),
            accounted(*final(self), *old(self)),
            final(self).open_markers() == old(self).open_markers(),
            final(self).no_struct_flag() == old(self).no_struct_flag(),
            final(self).errors_view() == old(self).errors_view(),
            r ==> final(self).position() == old(self).position() + 1 && final(self).events_view()
                == old(self).events_view().push(Event::Token),
            !r ==> final(self).unmoved(*old(self)),
    {
        if self.at_any(kinds) {
            self.bump();
            true
        } else {
            false
        }
    }

    /// Consume `kind` or record an "expected" diagnostic (without consuming).
    pub fn expect(&mut self, kind: SyntaxKind) -> (r: bool)
        requires
            old(self).wf(),
            kind != SyntaxKind::Eof,
        ensures
            r == (old(self).current_kind() == kind),
            final(self).wf(),
            final(self).evolved(*old(self)),
            accounted(*final(self), *old(self)),
            final(self).open_markers() == old(self).open_markers(),
            final(self).no_struct_flag() == old(self).no_struct_flag(),
            r ==> final(self).position() == old(self).position() + 1 && final(self).events_view()
                == old(self).events_view().push(Event::Token) && final(self).errors_view() == old(
                self,
            ).errors_view(),
            !r ==> final(self).unmoved(*old(self)),
            !r ==> final(self).errors_view().drop_last() == old(self).errors_view(),
            !r ==> final(self).error_count() == old(self).error_count() + 1,
            !r ==> final(self).errors_view().last().message@ == expected_message(
                kind,
                old(self).current_kind(),
            ),
            !r ==> final(self).errors_view().last().span == old(self).current_span_view(),
    {
        if self.eat(kind) {
            return true;
        }
        let mut message = String::new();
        push_str(&mut message, "expected ");
        push_str(&mut message, kind.label());
        push_str(&mut message, ", found ");
        push_str(&mut message, self.current().label());
        proof {
            reveal_strlit("expected ");
            reveal_strlit(", found ");
            assert(message@ =~= expected_message(kind, self.current_kind()));
        }
        self.error_owned(message);
        false
    }

    // ── diagnostics & recovery ──────────────────────────────────────────────

    /// Record a diagnostic at the current position without consuming
    /// anything.
    pub fn error(&mut self, message: &str)
        requires
            old(self).wf(),
        ensures
            final(self).wf(),
            final(self).unmoved(*old(self)),
            final(self).evolved(*old(self)),
            accounted(*final(self), *old(self)),
            final(self).bracket_counts() == old(self).bracket_counts(),
            final(self).errors_view().drop_last() == old(self).errors_view(),
            final(self).error_count() == old(self).error_count() + 1,
            final(self).errors_view().last().message@ == message@,
            final(self).errors_view().last().span == old(self).current_span_view(),
    {
        self.error_owned(message.to_owned());
    }

    /// Record a diagnostic with an owned message.
    fn error_owned(&mut self, message: String)
        requires
            old(self).wf(),
        ensures
            final(self).wf(),
            final(self).unmoved(*old(self)),
            final(self).evolved(*old(self)),
            accounted(*final(self), *old(self)),
            final(self).bracket_counts() == old(self).bracket_counts(),
            final(self).errors_view().drop_last() == old(self).errors_view(),
            final(self).error_count() == old(self).error_count() + 1,
            final(self).errors_view().last().message@ == message@,
            final(self).errors_view().last().span == old(self).current_span_view(),
    {
        let span = self.current_span();
        self.errors.push(ParseError::new(message, span));
    }

    /// Wrap the current token in an `Error` node and consume it: the recovery
    /// primitive. Always advances (unless at end), guaranteeing loop progress.
    pub fn err_and_bump(&mut self, message: &str)
        requires
            old(self).wf(),
        ensures
            final(self).wf(),
            final(self).evolved(*old(self)),
            accounted(*final(self), *old(self)),
            final(self).open_markers() == old(self).open_markers(),
            final(self).no_struct_flag() == old(self).no_struct_flag(),
            final(self).errors_view().drop_last() == old(self).errors_view(),
            final(self).error_count() == old(self).error_count() + 1,
            final(self).errors_view().last().message@ == message@,
            final(self).errors_view().last().span == old(self).current_span_view(),
            old(self).ended() ==> final(self).position() == old(self).position()
                && final(self).events_view() == old(self).events_view(),
            !old(self).ended() ==> final(self).position() == old(self).position() + 1
                && final(self).events_view() == old(self).events_view() + error_leaf(),
    {
        self.error(message);
        if self.at_end() {
            return ;
        }
        let ghost es = self.events_view();
        let m = self.start();
        self.bump();
        m.complete(self, SyntaxKind::Error);
        proof {
            assert(self.events_view() =~= es + error_leaf());
        }
    }

    /// Like `err_and_bump`, but a closer claimed by an enclosing construct is
    /// left in place for its owner (only the diagnostic is recorded).
    pub fn err_recover(&mut self, message: &str)
        requires
            old(self).wf(),
        ensures
            final(self).wf(),
            final(self).evolved(*old(self)),
            accounted(*final(self), *old(self)),
            final(self).open_markers() == old(self).open_markers(),
            final(self).no_struct_flag() == old(self).no_struct_flag(),
            final(self).position() <= old(self).position() + 1,
            final(self).errors_view().drop_last() == old(self).errors_view(),
            final(self).error_count() == old(self).error_count() + 1,
            final(self).errors_view().last().message@ == message@,
            final(self).errors_view().last().span == old(self).current_span_view(),
            old(self).ended() || old(self).at_claimed_close_spec() ==> final(self).position() == old(
                self,
            ).position() && final(self).events_view() == old(self).events_view(),
            !(old(self).ended() || old(self).at_claimed_close_spec()) ==> final(self).position()
                == old(self).position() + 1 && final(self).events_view() == old(self).events_view()
                + error_leaf(),
    {
        self.error(message);
        if self.at_end() || self.at_claimed_close() {
            return ;
        }
        let ghost es = self.events_view();
        let m = self.start();
        self.bump();
        m.complete(self, SyntaxKind::Error);
        proof {
            assert(self.events_view() =~= es + error_leaf());
        }
    }

    /// Absorb a garbage run into one `Error` node (with one diagnostic), up to
    /// the next token of `sync`, the end, or a closer claimed by an enclosing
    /// construct. Returns `false`, doing nothing, when already at the end or at
    /// such a closer.
    pub fn recover_to(&mut self, message: &str, sync: &[SyntaxKind]) -> (r: bool)
        requires
            old(self).wf(),
        ensures
            final(self).wf(),
            final(self).evolved(*old(self)),
            accounted(*final(self), *old(self)),
            final(self).open_markers() == old(self).open_markers(),
            final(self).no_struct_flag() == old(self).no_struct_flag(),
            r == !(old(self).ended() || old(self).at_claimed_close_spec()),
            r ==> final(self).position() > old(self).position(),
            r ==> final(self).errors_view().drop_last() == old(self).errors_view(),
            r ==> final(self).error_count() == old(self).error_count() + 1,
            r ==> final(self).errors_view().last().message@ == message@,
            r ==> final(self).errors_view().last().span == old(self).current_span_view(),
            !r ==> *final(self) == *old(self),
    {
        if self.at_end() || self.at_claimed_close() {
            return false;
        }
        self.error(message);
        let m = self.start();
        self.bump();
        while !self.at_end() && !self.at_any(sync) && !self.at_claimed_close()
            invariant
                self.wf(),
                self.evolved(*old(self)),
                self.position() > old(self).position(),
                self.open_markers() == old(self).open_markers().push(m.index()),
                self.no_struct_flag() == old(self).no_struct_flag(),
                self.errors_view().drop_last() == old(self).errors_view(),
                self.error_count() == old(self).error_count() + 1,
                self.errors_view().last().message@ == message@,
                self.errors_view().last().span == old(self).current_span_view(),
            decreases self.remaining(),
        {
            self.bump();
        }
        m.complete(self, SyntaxKind::Error);
        true
    }

    /// Close a generic list: consume a `>`, or split a `>>` so that its first
    /// `>` closes this list and the second stays current for the enclosing one.
    /// Reports whether a closer was taken.
    pub fn eat_generic_close(&mut self) -> (r: bool)
        requires
            old(self).wf(),
        ensures
            r == (old(self).current_kind() == SyntaxKind::Gt || old(self).current_kind()
                == SyntaxKind::Shr),
            final(self).wf(),
            final(self).evolved(*old(self)),
            accounted(*final(self), *old(self)),
            final(self).open_markers() == old(self).open_markers(),
            final(self).no_struct_flag() == old(self).no_struct_flag(),
            old(self).current_kind() == SyntaxKind::Gt ==> final(self).position() == old(
                self,
            ).position() + 1,
            old(self).current_kind() == SyntaxKind::Shr ==> final(self).position() == old(
                self,
            ).position() && final(self).current_kind() == SyntaxKind::Gt,
            final(self).errors_view() == old(self).errors_view(),
            old(self).current_kind() == SyntaxKind::Gt ==> final(self).events_view() == old(
                self,
            ).events_view().push(Event::Token),
            old(self).current_kind() == SyntaxKind::Shr ==> final(self).events_view() == old(
                self,
            ).events_view().push(Event::Split { first: SyntaxKind::Gt, rest: SyntaxKind::Gt }),
            !r ==> *final(self) == *old(self),
    {
        if self.at(SyntaxKind::Gt) {
            self.bump();
            return true;
        }
        if !self.at(SyntaxKind::Shr) {
            return false;
        }
        let i = self.pos;
        let span = self.tokens[i].span;
        let rest_span = if span.lo < span.hi {
            Span { lo: span.lo + 1, hi: span.hi }
        } else {
            span
        };
        let n = self.tokens[i].text.as_str().unicode_len();
        let rest_text = if n >= 1 {
            self.tokens[i].text.as_str().substring_char(1, n).to_owned()
        } else {
            String::new()
        };
        let ghost es = self.events@;
        let split_event = Event::Split { first: SyntaxKind::Gt, rest: SyntaxKind::Gt };
        proof {
            let v = filled(es, self.open@);
            lemma_filled_push(es, self.open@, split_event);
            lemma_push_plain(v, self.open@, split_event);
            lemma_parents_push(v, split_event);
        }
        self.events.push(split_event);
        self.consumed = Ghost(self.consumed@.push(None));
        self.tokens.set(i, SigToken { kind: SyntaxKind::Gt, span: rest_span, text: rest_text });
        self.split = Ghost(true);
        proof {
            lemma_start_kinds_push(es, split_event);
            assert forall|j: int| #[trigger] old(self).started(j) implies self.started(j) && self.node_kind(j)
                == old(self).node_kind(j) by {
                assert(self.events@[j] == es[j]);
            }
            assert forall|k: int|
                0 <= k < self.open@.len() implies 0 <= #[trigger] self.open@[k]
                < self.events.len() && self.events@[self.open@[k]] is Tombstone by {
                assert(self.events@[self.open@[k]] == es[self.open@[k]]);
            }
            assert forall|k: int| 0 <= k < self.tokens.len() implies #[trigger] self.tokens@[k].kind
                != SyntaxKind::Eof by {
                if k != i {
                    assert(self.tokens@[k] == old(self).tokens@[k]);
                }
            }
        }
        true
    }

    // ── markers ─────────────────────────────────────────────────────────────

    /// Open a node. Must be `complete`d.
    pub fn start(&mut self) -> (m: Marker)
        requires
            old(self).wf(),
        ensures
            final(self).wf(),
            final(self).evolved(*old(self)),
            accounted(*final(self), *old(self)),
            final(self).position() == old(self).position(),
            final(self).current_kind() == old(self).current_kind(),
            final(self).current_text_view() == old(self).current_text_view(),
            final(self).no_struct_flag() == old(self).no_struct_flag(),
            m.index() == old(self).event_count(),
            final(self).open_markers() == old(self).open_markers().push(m.index()),
            final(self).kind_ahead(1) == old(self).kind_ahead(1),
            final(self).events_view() == old(self).events_view().push(Event::Tombstone),
            final(self).errors_view() == old(self).errors_view(),
            final(self).bracket_counts() == old(self).bracket_counts(),
    {
        let pos = self.events.len();
        let ghost es = self.events@;
        proof {
            let v = filled(es, self.open@);
            let st = Event::Start { kind: SyntaxKind::Error, forward_parent: None };
            lemma_filled_push_open(es, self.open@);
            lemma_push_open(v, self.open@, st);
            lemma_parents_push(v, st);
        }
        self.events.push(Event::Tombstone);
        self.consumed = Ghost(self.consumed@.push(None));
        self.open = Ghost(self.open@.push(pos as int));
        proof {
            lemma_start_kinds_push(es, Event::Tombstone);
            assert forall|j: int| #[trigger] old(self).started(j) implies self.started(j) && self.node_kind(j)
                == old(self).node_kind(j) by {
                assert(self.events@[j] == es[j]);
            }
            assert forall|k: int|
                0 <= k < self.open@.len() implies 0 <= #[trigger] self.open@[k]
                < self.events.len() && self.events@[self.open@[k]] is Tombstone by {
                if k < self.open@.len() - 1 {
                    assert(self.open@[k] == old(self).open@[k]);
                    assert(self.events@[self.open@[k]] == es[self.open@[k]]);
                }
            }
        }
        Marker { pos }
    }

    /// Consume the parser, returning the event stream and diagnostics.
    pub fn finish(self) -> (r: (Vec<Event>, Vec<ParseError>))
        ensures
            r.0@ == self.events_view(),
            r.1@ == self.errors_view(),
    {
        (self.events, self.errors)
    }
}

impl Marker {
    /// Close this node with `kind`. Returns a `CompletedMarker` that can later
    /// `precede` (wrap) this node.
    pub fn complete(self, p: &mut Parser, kind: SyntaxKind) -> (r: CompletedMarker)
        requires
            old(p).wf(),
            old(p).open_markers().len() > 0,
            old(p).open_markers().last() == self.index(),
        ensures
            final(p).wf(),
            final(p).evolved(*old(p)),
            kind != SyntaxKind::Error ==> accounted(*final(p), *old(p)),
            kind == SyntaxKind::Error ==> error_nodes(*final(p)) == error_nodes(*old(p)) + 1,
            final(p).position() == old(p).position(),
            final(p).current_kind() == old(p).current_kind(),
            final(p).no_struct_flag() == old(p).no_struct_flag(),
            final(p).open_markers() == old(p).open_markers().drop_last(),
            r.index() == self.index(),
            final(p).is_top(r),
            final(p).node_kind(r.index()) == kind,
            final(p).errors_view() == old(p).errors_view(),
            final(p).bracket_counts() == old(p).bracket_counts(),
            final(p).events_view() == old(p).events_view().update(
                self.index(),
                Event::Start { kind, forward_parent: None },
            ).push(Event::Finish),
    {
        let ghost es = p.events@;
        let ghost open = p.open@;
        let st = Event::Start { kind, forward_parent: None };
        proof {
            let v = filled(es, open);
            assert(open.contains(self.pos as int)) by {
                assert(open[open.len() - 1] == self.pos as int);
            }
            lemma_filled_close(es, open, st);
            lemma_filled_push(es.update(self.pos as int, st), open.drop_last(), Event::Finish);
            lemma_close(v, open, st);
            lemma_parents_update(v, self.pos as int, st);
            lemma_parents_push(v.update(self.pos as int, st), Event::Finish);
        }
        p.events.set(self.pos, st);
        p.events.push(Event::Finish);
        p.consumed = Ghost(p.consumed@.push(None));
        p.open = Ghost(open.drop_last());
        proof {
            assert(es[self.pos as int] is Tombstone) by {
                assert(open[open.len() - 1] == self.pos as int);
            }
            lemma_start_kinds_update(es, self.pos as int, st);
            lemma_start_kinds_push(es.update(self.pos as int, st), Event::Finish);
            assert forall|j: int| #[trigger] old(p).started(j) implies p.started(j) && p.node_kind(j)
                == old(p).node_kind(j) by {
                if j != self.pos {
                    assert(p.events@[j] == es[j]);
                }
            }
            assert forall|k: int|
                0 <= k < p.open@.len() implies 0 <= #[trigger] p.open@[k] < p.events.len()
                && p.events@[p.open@[k]] is Tombstone by {
                assert(p.open@[k] == open[k]);
                assert(open[k] < open[open.len() - 1]);
                assert(p.events@[p.open@[k]] == es[open[k]]);
            }
        }
        CompletedMarker { pos: self.pos }
    }
}

impl CompletedMarker {
    /// Open a new node that becomes the parent of this completed one: used by
    /// the Pratt loop to wrap an already-parsed lhs in a binary expression.
    pub fn precede(self, p: &mut Parser) -> (m: Marker)
        requires
            old(p).wf(),
            old(p).is_top(self),
        ensures
            final(p).wf(),
            final(p).evolved(*old(p)),
            accounted(*final(p), *old(p)),
            final(p).position() == old(p).position(),
            final(p).current_kind() == old(p).current_kind(),
            final(p).no_struct_flag() == old(p).no_struct_flag(),
            m.index() == old(p).event_count(),
            final(p).open_markers() == old(p).open_markers().push(m.index()),
            final(p).errors_view() == old(p).errors_view(),
            final(p).bracket_counts() == old(p).bracket_counts(),
            final(p).events_view() == old(p).events_view().push(Event::Tombstone).update(
                self.index(),
                Event::Start {
                    kind: old(p).events_view()[self.index()]->kind,
                    forward_parent: Some(m.index() as usize),
                },
            ),
    {
        let new_marker = p.start();
        let ghost pm = *p;
        let ghost es = p.events@;
        let ghost open = p.open@;
        match p.events[self.pos] {
            Event::Start { kind, .. } => {
                let e = Event::Start { kind, forward_parent: Some(new_marker.pos) };
                proof {
                    let v = filled(es, open);
                    assert(!open.contains(self.pos as int)) by {
                        if open.contains(self.pos as int) {
                            let k = choose|k: int| 0 <= k < open.len() && open[k] == self.pos;
                            assert(es[open[k]] is Tombstone);
                        }
                    }
                    assert(open.contains(new_marker.pos as int)) by {
                        assert(open[open.len() - 1] == new_marker.pos as int);
                    }
                    lemma_filled_update(es, open, self.pos as int, e);
                    lemma_restart_nesting(v, open, self.pos as int, e);
                    lemma_parents_update(v, self.pos as int, e);
                }
                p.events.set(self.pos, e);
                proof {
                    lemma_start_kinds_update(es, self.pos as int, e);
                    assert forall|j: int| #[trigger] old(p).started(j) implies p.started(j) && p.node_kind(j)
                == old(p).node_kind(j) by {
                        if j != self.pos {
                            assert(p.events@[j] == es[j]);
                        }
                    }
                    assert forall|k: int|
                        0 <= k < p.open@.len() implies 0 <= #[trigger] p.open@[k]
                        < p.events.len() && p.events@[p.open@[k]] is Tombstone by {
                        assert(p.events@[p.open@[k]] == es[p.open@[k]]);
                    }
                    assert forall|j: int| 0 <= j < old(p).event_count() implies #[trigger] p.consumed_kind(j)
                        == old(p).consumed_kind(j) by {
                        assert(pm.consumed_kind(j) == old(p).consumed_kind(j));
                    }
                }
            },
            _ => {},
        }
        new_marker
    }
}

} // verus!
