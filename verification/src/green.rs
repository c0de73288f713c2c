//! The green tree: immutable, position-independent nodes and tokens shared via
//! `Rc`, built bottom-up by `GreenNodeBuilder`. A green node knows its text
//! length, never its offset; offsets belong to the red tree (`syntax`).

use crate::syntax_kind::SyntaxKind;
use crate::text::{blen, lemma_blen_concat};
use std::rc::Rc;
use vstd::prelude::*;
use vstd::multiset::Multiset;

verus! {

broadcast use vstd::multiset::group_multiset_axioms;

/// A leaf: a kind plus the exact source text it covers.
#[derive(Debug, PartialEq)]
pub struct GreenToken {
    pub kind: SyntaxKind,
    pub text: String,
}

/// An interior node: a kind, its total text length, and its ordered children.
#[derive(Debug, PartialEq)]
pub struct GreenNode {
    pub kind: SyntaxKind,
    pub text_len: usize,
    pub children: Vec<GreenChild>,
}

/// Dismantle a green node iteratively, so that dropping a very deep tree
/// cannot overflow the stack: uniquely owned descendants are hoisted onto a
/// work stack and each node drops with its children already taken out. A
/// shared subtree is left alone; only its count goes down.
impl Drop for GreenNode {
    fn drop(&mut self)
        opens_invariants none
        no_unwind
    {
        let mut stack = empty_children();
        std::mem::swap(&mut stack, &mut self.children);
        loop
            decreases children_size(stack@),
        {
            let ghost before = stack@;
            let child = match pop_child(&mut stack) {
                Some(c) => c,
                None => {
                    break;
                },
            };
            let ghost rest = stack@;
            assert(children_size(before) == children_size(rest) + child_size(child));
            if let GreenChild::Node(rc) = child {
                if let Ok(mut node) = unwrap_unique(rc) {
                    let mut orphans = empty_children();
                    std::mem::swap(&mut orphans, &mut node.children);
                    assert(child_size(child) == 1 + children_size(orphans@));
                    loop
                        invariant
                            children_size(stack@) + children_size(orphans@) < children_size(
                                before,
                            ),
                        decreases orphans@.len(),
                    {
                        let ghost st = stack@;
                        let orphan = match pop_child(&mut orphans) {
                            Some(c) => c,
                            None => {
                                break;
                            },
                        };
                        if children_len(&stack) < usize::MAX / 128 {
                            proof {
                                assert(st.push(orphan).drop_last() =~= st);
                            }
                            push_child(&mut stack, orphan);
                        }
                    }
                }
            }
        }
    }
}

/// `Vec::new`: an empty vector, made without allocating; it cannot panic.
#[verifier::external_body]
fn empty_children() -> (v: Vec<GreenChild>)
    ensures
        v@ == Seq::<GreenChild>::empty(),
    opens_invariants none
    no_unwind
{
    Vec::new()
}

/// `Vec::len`: the number of elements; it cannot panic.
#[verifier::external_body]
fn children_len(v: &Vec<GreenChild>) -> (n: usize)
    ensures
        n == v@.len(),
    opens_invariants none
    no_unwind
{
    v.len()
}

/// `Vec::pop`: removes and returns the last element, or `None` when the vector
/// is empty; it cannot panic.
#[verifier::external_body]
fn pop_child(v: &mut Vec<GreenChild>) -> (r: Option<GreenChild>)
    ensures
        old(v)@.len() == 0 ==> r is None && final(v)@ == old(v)@,
        old(v)@.len() > 0 ==> r == Some(old(v)@.last()) && final(v)@ == old(v)@.drop_last(),
    opens_invariants none
    no_unwind
{
    v.pop()
}

/// `Vec::push`: appends an element. It panics only when the new capacity
/// would exceed `isize::MAX` bytes; a `GreenChild` takes at most two machine
/// words, so below the length required here even a doubled capacity stays
/// within that bound.
#[verifier::external_body]
fn push_child(v: &mut Vec<GreenChild>, c: GreenChild)
    requires
        old(v)@.len() < usize::MAX / 128,
    ensures
        final(v)@ == old(v)@.push(c),
    opens_invariants none
    no_unwind
{
    v.push(c)
}

/// `Rc::try_unwrap`: the node itself when this was its only strong reference,
/// else the same `Rc` back; it cannot panic.
#[verifier::external_body]
fn unwrap_unique(rc: Rc<GreenNode>) -> (r: Result<GreenNode, Rc<GreenNode>>)
    ensures
        match r {
            Ok(n) => n == *rc,
            Err(e) => e == rc,
        },
    opens_invariants none
    no_unwind
{
    Rc::try_unwrap(rc)
}

/// The number of nodes and leaves under a child, itself included.
pub open spec fn child_size(c: GreenChild) -> nat
    decreases c,
{
    match c {
        GreenChild::Node(n) => 1 + children_size(n.children@),
        GreenChild::Token(_) => 1,
    }
}

/// The number of nodes and leaves under a run of children.
pub open spec fn children_size(cs: Seq<GreenChild>) -> nat
    decreases cs,
{
    if cs.len() == 0 {
        0
    } else {
        children_size(cs.drop_last()) + child_size(cs.last())
    }
}

/// A child slot in a green node: either a subtree or a leaf.
#[derive(Debug, PartialEq)]
pub enum GreenChild {
    Node(Rc<GreenNode>),
    Token(Rc<GreenToken>),
}

/// The text a child covers.
pub open spec fn child_text(c: GreenChild) -> Seq<char>
    decreases c,
{
    match c {
        GreenChild::Node(n) => children_text(n.children@),
        GreenChild::Token(t) => t.text@,
    }
}

/// The concatenated text of a run of children, left to right.
pub open spec fn children_text(cs: Seq<GreenChild>) -> Seq<char>
    decreases cs,
{
    if cs.len() == 0 {
        Seq::empty()
    } else {
        children_text(cs.drop_last()) + child_text(cs.last())
    }
}

/// The text a node covers: its children's texts concatenated.
pub open spec fn node_text(n: GreenNode) -> Seq<char> {
    children_text(n.children@)
}

/// The byte length a child covers.
pub open spec fn child_len(c: GreenChild) -> nat {
    blen(child_text(c))
}

/// Well-formedness of a child: a node caches its exact byte length, every
/// nested node is well-formed too, and no length exceeds `usize::MAX`.
pub open spec fn child_wf(c: GreenChild) -> bool
    decreases c,
{
    match c {
        GreenChild::Node(n) => n.text_len == blen(children_text(n.children@)) && children_wf(
            n.children@,
        ),
        GreenChild::Token(t) => blen(t.text@) <= usize::MAX,
    }
}

/// Every child of a run is well-formed.
pub open spec fn children_wf(cs: Seq<GreenChild>) -> bool
    decreases cs,
{
    if cs.len() == 0 {
        true
    } else {
        children_wf(cs.drop_last()) && child_wf(cs.last())
    }
}

/// A well-formed green node (see `child_wf`).
pub open spec fn node_wf(n: GreenNode) -> bool {
    child_wf(GreenChild::Node(Rc::new(n)))
}

/// Appending a child extends the run's text by the child's text.
pub proof fn lemma_children_text_push(cs: Seq<GreenChild>, c: GreenChild)
    ensures
        children_text(cs.push(c)) == children_text(cs) + child_text(c),
        children_wf(cs.push(c)) == (children_wf(cs) && child_wf(c)),
{
    assert(cs.push(c).drop_last() =~= cs);
}

/// Every element of a well-formed run is well-formed.
pub proof fn lemma_children_wf_index(cs: Seq<GreenChild>, i: int)
    requires
        children_wf(cs),
        0 <= i < cs.len(),
    ensures
        child_wf(cs[i]),
    decreases cs.len(),
{
    if i < cs.len() - 1 {
        lemma_children_wf_index(cs.drop_last(), i);
    }
}

/// The text of a run is the text of its first `i` children followed by the rest.
pub proof fn lemma_children_text_split(cs: Seq<GreenChild>, i: int)
    requires
        0 <= i <= cs.len(),
    ensures
        children_text(cs) == children_text(cs.take(i)) + children_text(cs.skip(i)),
    decreases cs.len() - i,
{
    if i == cs.len() {
        assert(cs.take(i) =~= cs);
        assert(cs.skip(i) =~= Seq::<GreenChild>::empty());
        assert(children_text(cs) + Seq::<char>::empty() =~= children_text(cs));
    } else {
        lemma_children_text_split(cs, i + 1);
        assert(cs.take(i + 1) =~= cs.take(i).push(cs[i]));
        lemma_children_text_push(cs.take(i), cs[i]);
        let rest = cs.skip(i);
        assert(rest.len() > 0);
        assert(rest.skip(1) =~= cs.skip(i + 1));
        lemma_children_text_first(rest);
        assert(rest[0] == cs[i]);
        assert(children_text(cs.take(i)) + (child_text(cs[i]) + children_text(cs.skip(i + 1)))
            =~= children_text(cs.take(i)) + child_text(cs[i]) + children_text(cs.skip(i + 1)));
    }
}

/// The text of a non-empty run is its first child's text followed by the rest.
pub proof fn lemma_children_text_first(cs: Seq<GreenChild>)
    requires
        cs.len() > 0,
    ensures
        children_text(cs) == child_text(cs[0]) + children_text(cs.skip(1)),
    decreases cs.len(),
{
    if cs.len() == 1 {
        assert(cs.drop_last() =~= Seq::<GreenChild>::empty());
        assert(cs.skip(1) =~= Seq::<GreenChild>::empty());
        assert(child_text(cs[0]) + Seq::<char>::empty() =~= child_text(cs[0]));
        assert(Seq::<char>::empty() + child_text(cs[0]) =~= child_text(cs[0]));
    } else {
        lemma_children_text_first(cs.drop_last());
        assert(cs.drop_last().skip(1) =~= cs.skip(1).drop_last());
        assert(cs.skip(1).last() == cs.last());
        assert(cs.drop_last()[0] == cs[0]);
        assert(child_text(cs[0]) + children_text(cs.skip(1).drop_last()) + child_text(cs.last())
            =~= child_text(cs[0]) + (children_text(cs.skip(1).drop_last()) + child_text(
            cs.last(),
        )));
    }
}

impl Clone for GreenChild {
    fn clone(&self) -> (r: GreenChild)
        ensures
            r == *self,
    {
        match self {
            GreenChild::Node(n) => GreenChild::Node(Rc::clone(n)),
            GreenChild::Token(t) => GreenChild::Token(Rc::clone(t)),
        }
    }
}

impl GreenToken {
    /// The byte length of the token's text.
    pub fn text_len(&self) -> (r: usize)
        requires
            blen(self.text@) <= usize::MAX,
        ensures
            r == blen(self.text@),
    {
        crate::text::str_byte_len(self.text.as_str())
    }
}

impl GreenNode {
    /// The node's cached byte length (the sum of its children's lengths).
    pub fn text_len(&self) -> (r: usize)
        ensures
            r == self.text_len,
            node_wf(*self) ==> r == blen(node_text(*self)),
    {
        self.text_len
    }
}

impl GreenChild {
    /// The byte length of the child.
    pub fn text_len(&self) -> (r: usize)
        requires
            child_wf(*self),
        ensures
            r == child_len(*self),
    {
        match self {
            GreenChild::Node(n) => n.text_len(),
            GreenChild::Token(t) => t.text_len(),
        }
    }

    /// The child's kind.
    pub fn kind(&self) -> (r: SyntaxKind)
        ensures
            r == child_kind(*self),
    {
        match self {
            GreenChild::Node(n) => n.kind,
            GreenChild::Token(t) => t.kind,
        }
    }
}

/// The kind of a child.
pub open spec fn child_kind(c: GreenChild) -> SyntaxKind {
    match c {
        GreenChild::Node(n) => n.kind,
        GreenChild::Token(t) => t.kind,
    }
}

/// The leaves under a child, left to right.
pub open spec fn child_leaves(c: GreenChild) -> Seq<GreenToken>
    decreases c,
{
    match c {
        GreenChild::Node(n) => children_leaves(n.children@),
        GreenChild::Token(t) => seq![*t],
    }
}

/// The leaves under a run of children, left to right.
pub open spec fn children_leaves(cs: Seq<GreenChild>) -> Seq<GreenToken>
    decreases cs,
{
    if cs.len() == 0 {
        Seq::empty()
    } else {
        children_leaves(cs.drop_last()) + child_leaves(cs.last())
    }
}

/// The texts of a run of leaves, concatenated.
pub open spec fn leaves_text(ts: Seq<GreenToken>) -> Seq<char>
    decreases ts.len(),
{
    if ts.len() == 0 {
        Seq::empty()
    } else {
        leaves_text(ts.drop_last()) + ts.last().text@
    }
}

/// Concatenating leaf runs concatenates their texts.
pub proof fn lemma_leaves_text_concat(a: Seq<GreenToken>, b: Seq<GreenToken>)
    ensures
        leaves_text(a + b) == leaves_text(a) + leaves_text(b),
    decreases b.len(),
{
    if b.len() == 0 {
        assert(a + b =~= a);
        assert(leaves_text(a) + Seq::<char>::empty() =~= leaves_text(a));
    } else {
        assert((a + b).drop_last() =~= a + b.drop_last());
        lemma_leaves_text_concat(a, b.drop_last());
        assert(leaves_text(a) + leaves_text(b.drop_last()) + b.last().text@ =~= leaves_text(a)
            + (leaves_text(b.drop_last()) + b.last().text@));
    }
}

/// The leaves of a child spell out exactly the child's text.
pub proof fn lemma_child_leaves_text(c: GreenChild)
    ensures
        leaves_text(child_leaves(c)) == child_text(c),
    decreases c,
{
    match c {
        GreenChild::Node(n) => {
            lemma_children_leaves_text(n.children@);
            assert(leaves_text(children_leaves(n.children@)) == children_text(n.children@));
            assert(child_leaves(c) == children_leaves(n.children@));
            assert(child_text(c) == children_text(n.children@));
            assert(leaves_text(child_leaves(c)) == child_text(c));
        },
        GreenChild::Token(t) => {
            assert(seq![*t].drop_last() =~= Seq::<GreenToken>::empty());
            assert(leaves_text(Seq::<GreenToken>::empty()) == Seq::<char>::empty());
            assert(Seq::<char>::empty() + t.text@ =~= t.text@);
            assert(leaves_text(child_leaves(c)) == child_text(c));
        },
    }
}

/// The leaves of a run spell out exactly the run's text.
pub proof fn lemma_children_leaves_text(cs: Seq<GreenChild>)
    ensures
        leaves_text(children_leaves(cs)) == children_text(cs),
    decreases cs,
{
    if cs.len() > 0 {
        lemma_children_leaves_text(cs.drop_last());
        lemma_child_leaves_text(cs.last());
        lemma_leaves_text_concat(children_leaves(cs.drop_last()), child_leaves(cs.last()));
    }
}

/// The concatenated text of a stack of open frames, bottom to top.
pub open spec fn frames_text(fs: Seq<(SyntaxKind, Seq<GreenChild>)>) -> Seq<char>
    decreases fs.len(),
{
    if fs.len() == 0 {
        Seq::empty()
    } else {
        frames_text(fs.drop_last()) + children_text(fs.last().1)
    }
}

/// The leaves of a stack of open frames, bottom to top.
pub open spec fn frames_leaves(fs: Seq<(SyntaxKind, Seq<GreenChild>)>) -> Seq<GreenToken>
    decreases fs.len(),
{
    if fs.len() == 0 {
        Seq::empty()
    } else {
        frames_leaves(fs.drop_last()) + children_leaves(fs.last().1)
    }
}

/// Appending a child extends the run's leaves by the child's leaves.
pub proof fn lemma_children_leaves_push(cs: Seq<GreenChild>, c: GreenChild)
    ensures
        children_leaves(cs.push(c)) == children_leaves(cs) + child_leaves(c),
{
    assert(cs.push(c).drop_last() =~= cs);
}

/// The number of interior nodes a child holds, itself included.
pub open spec fn child_node_count(c: GreenChild) -> nat
    decreases c,
{
    match c {
        GreenChild::Node(n) => 1 + children_node_count(n.children@),
        GreenChild::Token(_) => 0,
    }
}

/// The number of interior nodes in a run of children.
pub open spec fn children_node_count(cs: Seq<GreenChild>) -> nat
    decreases cs,
{
    if cs.len() == 0 {
        0
    } else {
        children_node_count(cs.drop_last()) + child_node_count(cs.last())
    }
}

/// The number of interior nodes in a tree, its root included.
pub open spec fn node_count(n: GreenNode) -> nat {
    1 + children_node_count(n.children@)
}

/// The number of nodes a stack of open frames stands for: each open node and
/// the nodes it already holds.
pub open spec fn frames_node_count(fs: Seq<(SyntaxKind, Seq<GreenChild>)>) -> nat
    decreases fs.len(),
{
    if fs.len() == 0 {
        0
    } else {
        frames_node_count(fs.drop_last()) + 1 + children_node_count(fs.last().1)
    }
}

/// One step of a tree's outline: a node opens, or the innermost open node
/// closes. Leaves take no step.
pub enum ShapeStep {
    Open(SyntaxKind),
    Close,
}

/// A child's outline: for a node, its opening, its children's outline and its
/// closing; nothing for a leaf.
pub open spec fn child_shape(c: GreenChild) -> Seq<ShapeStep>
    decreases c,
{
    match c {
        GreenChild::Node(n) => seq![ShapeStep::Open(n.kind)] + children_shape(n.children@) + seq![
            ShapeStep::Close,
        ],
        GreenChild::Token(_) => Seq::empty(),
    }
}

/// The outline of a run of children, left to right.
pub open spec fn children_shape(cs: Seq<GreenChild>) -> Seq<ShapeStep>
    decreases cs,
{
    if cs.len() == 0 {
        Seq::empty()
    } else {
        children_shape(cs.drop_last()) + child_shape(cs.last())
    }
}

/// A tree's outline: which nodes nest in which, in order, with their kinds.
pub open spec fn node_shape(n: GreenNode) -> Seq<ShapeStep> {
    seq![ShapeStep::Open(n.kind)] + children_shape(n.children@) + seq![ShapeStep::Close]
}

/// The outline of a stack of open frames so far: each open node's opening and
/// what it already holds, bottom to top.
pub open spec fn frames_shape(fs: Seq<(SyntaxKind, Seq<GreenChild>)>) -> Seq<ShapeStep>
    decreases fs.len(),
{
    if fs.len() == 0 {
        Seq::empty()
    } else {
        frames_shape(fs.drop_last()) + seq![ShapeStep::Open(fs.last().0)] + children_shape(
            fs.last().1,
        )
    }
}

/// The kinds of the interior nodes a child holds, itself included.
pub open spec fn child_node_kinds(c: GreenChild) -> Multiset<SyntaxKind>
    decreases c,
{
    match c {
        GreenChild::Node(n) => children_node_kinds(n.children@).insert(n.kind),
        GreenChild::Token(_) => Multiset::empty(),
    }
}

/// The kinds of the interior nodes in a run of children.
pub open spec fn children_node_kinds(cs: Seq<GreenChild>) -> Multiset<SyntaxKind>
    decreases cs,
{
    if cs.len() == 0 {
        Multiset::empty()
    } else {
        children_node_kinds(cs.drop_last()).add(child_node_kinds(cs.last()))
    }
}

/// The kinds of the interior nodes in a tree, its root included.
pub open spec fn node_kinds(n: GreenNode) -> Multiset<SyntaxKind> {
    children_node_kinds(n.children@).insert(n.kind)
}

/// The kinds of the nodes a stack of open frames stands for.
pub open spec fn frames_node_kinds(fs: Seq<(SyntaxKind, Seq<GreenChild>)>) -> Multiset<SyntaxKind>
    decreases fs.len(),
{
    if fs.len() == 0 {
        Multiset::empty()
    } else {
        frames_node_kinds(fs.drop_last()).add(children_node_kinds(fs.last().1).insert(fs.last().0))
    }
}

/// Every frame of a stack holds well-formed children.
pub open spec fn frames_wf(fs: Seq<(SyntaxKind, Seq<GreenChild>)>) -> bool {
    forall|i: int| 0 <= i < fs.len() ==> #[trigger] children_wf(fs[i].1)
}

/// Builds a green tree bottom-up with a `start_node` / `token` / `finish_node`
/// discipline.
pub struct GreenNodeBuilder {
    /// Open nodes: each holds its kind and the children accumulated so far. The
    /// last entry is the currently-open node.
    stack: Vec<(SyntaxKind, Vec<GreenChild>)>,
    /// The completed root, set when the outermost `finish_node` pops the stack
    /// empty.
    root: Option<Rc<GreenNode>>,
}

impl GreenNodeBuilder {
    /// The open frames, bottom to top, each as its kind and children so far.
    pub closed spec fn frames(&self) -> Seq<(SyntaxKind, Seq<GreenChild>)> {
        self.stack@.map_values(|f: (SyntaxKind, Vec<GreenChild>)| (f.0, f.1@))
    }

    /// The completed root, if the outermost node has been finished.
    pub closed spec fn root(&self) -> Option<GreenNode> {
        match self.root {
            Some(r) => Some(*r),
            None => None,
        }
    }

    /// The text accumulated in the open frames.
    pub open spec fn text(&self) -> Seq<char> {
        frames_text(self.frames())
    }

    /// The number of nodes opened so far: those still open, those inside
    /// them, and those of the completed root.
    pub open spec fn opened_count(&self) -> nat {
        frames_node_count(self.frames()) + match self.root() {
            Some(r) => node_count(r),
            None => 0,
        }
    }

    /// The outline built so far: the completed root's, then that of the open
    /// frames.
    pub open spec fn opened_shape(&self) -> Seq<ShapeStep> {
        match self.root() {
            Some(r) => node_shape(r) + frames_shape(self.frames()),
            None => frames_shape(self.frames()),
        }
    }

    /// The kinds of the nodes opened so far.
    pub open spec fn opened_kinds(&self) -> Multiset<SyntaxKind> {
        frames_node_kinds(self.frames()).add(
            match self.root() {
                Some(r) => node_kinds(r),
                None => Multiset::empty(),
            },
        )
    }

    /// The leaves accumulated in the open frames, left to right.
    pub open spec fn leaves(&self) -> Seq<GreenToken> {
        frames_leaves(self.frames())
    }

    /// The builder's invariant: well-formed contents whose total length fits
    /// in a `usize`.
    pub open spec fn wf(&self) -> bool {
        &&& frames_wf(self.frames())
        &&& (self.root() matches Some(r) ==> node_wf(r))
        &&& blen(self.text()) <= usize::MAX
    }

    pub fn new() -> (b: GreenNodeBuilder)
        ensures
            b.frames() == Seq::<(SyntaxKind, Seq<GreenChild>)>::empty(),
            b.root() is None,
            b.wf(),
    {
        let b = GreenNodeBuilder { stack: Vec::new(), root: None };
        proof {
            assert(b.frames() =~= Seq::<(SyntaxKind, Seq<GreenChild>)>::empty());
        }
        b
    }

    /// Open a new interior node; subsequent tokens and nodes nest inside it
    /// until the matching `finish_node`.
    pub fn start_node(&mut self, kind: SyntaxKind)
        requires
            old(self).wf(),
        ensures
            final(self).frames() == old(self).frames().push((kind, Seq::<GreenChild>::empty())),
            final(self).root() == old(self).root(),
            final(self).text() == old(self).text(),
            final(self).leaves() == old(self).leaves(),
            final(self).wf(),
            final(self).opened_count() == old(self).opened_count() + 1,
            final(self).opened_kinds() == old(self).opened_kinds().insert(kind),
            final(self).opened_shape() == old(self).opened_shape().push(ShapeStep::Open(kind)),
    {
        self.stack.push((kind, Vec::new()));
        proof {
            let fs = old(self).frames();
            assert(children_node_kinds(Seq::<GreenChild>::empty()) =~= Multiset::empty());
            assert(children_node_count(Seq::<GreenChild>::empty()) == 0);
            assert(self.frames() =~= fs.push((kind, Seq::<GreenChild>::empty())));
            assert(self.frames().drop_last() =~= fs);
            assert(frames_node_kinds(self.frames()) =~= frames_node_kinds(fs).add(
                Multiset::empty().insert(kind),
            ));
            assert(self.opened_kinds() =~= old(self).opened_kinds().insert(kind));
            assert(children_shape(Seq::<GreenChild>::empty()) =~= Seq::<ShapeStep>::empty());
            assert(frames_shape(self.frames()) =~= frames_shape(fs).push(ShapeStep::Open(kind)));
            assert(self.opened_shape() =~= old(self).opened_shape().push(ShapeStep::Open(kind)));
            assert(children_text(Seq::<GreenChild>::empty()) == Seq::<char>::empty());
            assert(self.text() =~= old(self).text());
            assert(children_leaves(Seq::<GreenChild>::empty()) == Seq::<GreenToken>::empty());
            assert(self.leaves() =~= old(self).leaves());
            assert(children_wf(Seq::<GreenChild>::empty()));
            let nf = self.frames();
            assert forall|i: int| 0 <= i < nf.len() implies #[trigger] children_wf(nf[i].1) by {
                if i < nf.len() - 1 {
                    assert(nf[i] == fs[i]);
                }
            }
        }
    }

    /// Append a leaf to the currently-open node. With no node open, nothing
    /// happens.
    #[verifier::spinoff_prover]
    pub fn token(&mut self, kind: SyntaxKind, text: String)
        requires
            old(self).wf(),
            blen(old(self).text()) + blen(text@) <= usize::MAX,
        ensures
            old(self).frames().len() > 0 ==> final(self).frames() == old(self).frames().update(
                old(self).frames().len() - 1,
                (
                    old(self).frames().last().0,
                    old(self).frames().last().1.push(
                        GreenChild::Token(Rc::new(GreenToken { kind, text })),
                    ),
                ),
            ),
            old(self).frames().len() > 0 ==> final(self).text() == old(self).text() + text@,
            old(self).frames().len() > 0 ==> final(self).leaves() == old(self).leaves().push(
                GreenToken { kind, text },
            ),
            old(self).frames().len() == 0 ==> final(self).leaves() == old(self).leaves(),
            old(self).frames().len() == 0 ==> final(self).frames() == old(self).frames(),
            old(self).frames().len() == 0 ==> final(self).text() == old(self).text(),
            final(self).root() == old(self).root(),
            final(self).wf(),
            final(self).opened_count() == old(self).opened_count(),
            final(self).opened_kinds() == old(self).opened_kinds(),
            final(self).opened_shape() == old(self).opened_shape(),
    {
        let ghost tok = GreenChild::Token(Rc::new(GreenToken { kind, text }));
        let n = self.stack.len();
        if n > 0 {
            let leaf = GreenChild::Token(Rc::new(GreenToken { kind, text }));
            let (k, mut children) = self.stack.pop().unwrap();
            children.push(leaf);
            self.stack.push((k, children));
            proof {
                let fs = old(self).frames();
                let last = fs.last();
                let nf = fs.update(fs.len() - 1, (last.0, last.1.push(tok)));
                assert(self.frames() =~= nf);
                assert(nf.drop_last() =~= fs.drop_last());
                lemma_children_text_push(last.1, tok);
                assert(child_text(tok) == text@);
                assert(self.text() =~= old(self).text() + text@);
                lemma_children_leaves_push(last.1, tok);
                assert(child_leaves(tok) == seq![GreenToken { kind, text }]);
                assert(last.1.push(tok).drop_last() =~= last.1);
                assert(child_node_count(tok) == 0);
                assert(children_node_count(last.1.push(tok)) == children_node_count(last.1));
                assert(child_node_kinds(tok) =~= Multiset::empty());
                assert(children_node_kinds(last.1.push(tok)) =~= children_node_kinds(last.1));
                assert(self.opened_kinds() =~= old(self).opened_kinds());
                assert(child_shape(tok) =~= Seq::<ShapeStep>::empty());
                assert(children_shape(last.1.push(tok)) =~= children_shape(last.1));
                assert(frames_shape(nf) =~= frames_shape(fs));
                assert(self.opened_shape() =~= old(self).opened_shape());
                assert(self.leaves() =~= old(self).leaves().push(GreenToken { kind, text }));
                assert(child_wf(tok));
                assert(children_wf(fs[fs.len() - 1].1));
                lemma_blen_concat(old(self).text(), text@);
                assert forall|i: int| 0 <= i < nf.len() implies #[trigger] children_wf(
                    nf[i].1,
                ) by {
                    if i < nf.len() - 1 {
                        assert(nf[i] == fs[i]);
                    }
                }
            }
        }
    }

    /// Close the currently-open node, attaching it to its parent, or recording
    /// it as the root if no other node is open.
    #[verifier::spinoff_prover]
    pub fn finish_node(&mut self)
        requires
            old(self).wf(),
        ensures
            final(self).wf(),
            old(self).frames().len() == 0 ==> final(self).frames() == old(self).frames()
                && final(self).root() == old(self).root(),
            old(self).frames().len() > 0 ==> final(self).frames().len() == old(self).frames().len()
                - 1,
            old(self).frames().len() > 1 ==> final(self).text() == old(self).text()
                && final(self).root() == old(self).root(),
            old(self).frames().len() == 1 ==> (final(self).root() matches Some(r) && r.kind
                == old(self).frames()[0].0 && r.children@ == old(self).frames()[0].1 && node_text(r)
                == old(self).text() && children_leaves(r.children@) == old(self).leaves()),
            old(self).frames().len() != 1 ==> final(self).leaves() == old(self).leaves(),
            old(self).frames().len() > 1 ==> ({
                let fs = old(self).frames();
                let nfs = final(self).frames();
                &&& forall|i: int| 0 <= i < nfs.len() - 1 ==> nfs[i] == fs[i]
                &&& nfs.last().0 == fs[fs.len() - 2].0
                &&& nfs.last().1.len() == fs[fs.len() - 2].1.len() + 1
                &&& nfs.last().1.drop_last() == fs[fs.len() - 2].1
                &&& nfs.last().1.last() matches GreenChild::Node(n) && n.kind == fs.last().0
                    && n.children@ == fs.last().1
            }),
            old(self).frames().len() != 1 || old(self).root() is None ==> final(self).opened_count() == old(self).opened_count(),
            old(self).frames().len() != 1 || old(self).root() is None ==> final(self).opened_kinds() == old(self).opened_kinds(),
            old(self).frames().len() > 0 && old(self).root() is None ==> final(self).opened_shape()
                == old(self).opened_shape().push(ShapeStep::Close),
    {
        if self.stack.len() == 0 {
            return ;
        }
        let ghost fs = old(self).frames();
        let (kind, children) = self.stack.pop().unwrap();
        proof {
            assert(self.frames() =~= fs.drop_last());
            assert(children@ == fs.last().1);
            assert(children_wf(fs[fs.len() - 1].1));
            assert(blen(old(self).text()) == blen(frames_text(fs.drop_last())) + blen(
                children_text(children@),
            )) by {
                lemma_blen_concat(frames_text(fs.drop_last()), children_text(children@));
            }
        }
        let mut text_len: usize = 0;
        let mut i: usize = 0;
        while i < children.len()
            invariant
                0 <= i <= children.len(),
                children_wf(children@),
                blen(children_text(children@)) <= usize::MAX,
                text_len == blen(children_text(children@.take(i as int))),
            decreases children.len() - i,
        {
            proof {
                lemma_children_wf_index(children@, i as int);
                lemma_children_text_split(children@, i as int + 1);
                lemma_blen_concat(
                    children_text(children@.take(i as int + 1)),
                    children_text(children@.skip(i as int + 1)),
                );
                assert(children@.take(i as int + 1) =~= children@.take(i as int).push(
                    children@[i as int],
                ));
                lemma_children_text_push(children@.take(i as int), children@[i as int]);
                lemma_blen_concat(
                    children_text(children@.take(i as int)),
                    child_text(children@[i as int]),
                );
            }
            text_len = text_len + children[i].text_len();
            i = i + 1;
        }
        proof {
            assert(children@.take(children.len() as int) =~= children@);
        }
        let ghost cs = children@;
        let node = Rc::new(GreenNode { kind, text_len, children });
        proof {
            assert(node_text(*node) == children_text(cs));
            assert(node_wf(*node));
        }
        let n = self.stack.len();
        if n > 0 {
            let (pk, mut siblings) = self.stack.pop().unwrap();
            let ghost before = siblings@;
            siblings.push(GreenChild::Node(node));
            self.stack.push((pk, siblings));
            proof {
                let fs1 = fs.drop_last();
                let c = GreenChild::Node(node);
                let nf = fs1.update(fs1.len() - 1, (pk, before.push(c)));
                assert(self.frames() =~= nf);
                assert(before == fs1.last().1);
                assert(nf.drop_last() =~= fs1.drop_last());
                assert(fs1.drop_last() =~= fs.drop_last().drop_last());
                lemma_children_text_push(before, c);
                assert(child_text(c) == children_text(cs));
                assert(self.text() =~= old(self).text());
                lemma_children_leaves_push(before, c);
                assert(child_leaves(c) == children_leaves(cs));
                assert(nf.drop_last() =~= fs1.drop_last());
                let a = frames_leaves(fs1.drop_last());
                let b = children_leaves(before);
                let d = children_leaves(cs);
                assert(frames_leaves(fs1) == a + b);
                assert(frames_leaves(fs) == frames_leaves(fs1) + d);
                assert(frames_leaves(nf) == a + (b + d));
                assert(self.leaves() =~= old(self).leaves());
                assert(children_wf(fs[fs.len() - 2].1));
                assert(child_wf(c));
                assert(children_wf(before.push(c)));
                assert forall|j: int| 0 <= j < nf.len() implies #[trigger] children_wf(
                    nf[j].1,
                ) by {
                    if j < nf.len() - 1 {
                        assert(nf[j] == fs[j]);
                    } else {
                        assert(nf[j].1 == before.push(c));
                    }
                }
                assert(nf.last().1.drop_last() =~= before);
                assert(before.push(c).drop_last() =~= before);
                assert(node.children@ == cs);
                assert(child_node_count(c) == 1 + children_node_count(cs));
                assert(children_node_count(before.push(c)) == children_node_count(before) + 1
                    + children_node_count(cs));
                assert(fs.drop_last() == fs1);
                assert(frames_node_count(nf) == frames_node_count(fs1.drop_last()) + 1
                    + children_node_count(before.push(c)));
                assert(frames_node_count(fs) == frames_node_count(fs1) + 1 + children_node_count(
                    cs,
                ));
                assert(child_node_kinds(c) == children_node_kinds(cs).insert(kind));
                assert(children_node_kinds(before.push(c)) == children_node_kinds(before).add(
                    child_node_kinds(c),
                ));
                assert(fs1.last().1 == before);
                assert(fs1.last().0 == pk);
                assert(frames_node_kinds(fs1) == frames_node_kinds(fs1.drop_last()).add(
                    children_node_kinds(before).insert(pk),
                ));
                assert(frames_node_kinds(fs) == frames_node_kinds(fs1).add(
                    children_node_kinds(cs).insert(kind),
                ));
                assert(nf.last() == (pk, before.push(c)));
                assert(frames_node_kinds(nf) == frames_node_kinds(fs1.drop_last()).add(
                    children_node_kinds(before.push(c)).insert(pk),
                ));
                assert(frames_node_kinds(nf) =~= frames_node_kinds(fs));
                assert(self.opened_kinds() =~= old(self).opened_kinds());
                if old(self).root() is None {
                    assert(child_shape(c) == seq![ShapeStep::Open(kind)] + children_shape(cs)
                        + seq![ShapeStep::Close]);
                    assert(children_shape(before.push(c)) == children_shape(before) + child_shape(
                        c,
                    ));
                    assert(frames_shape(fs1) == frames_shape(fs1.drop_last()) + seq![
                        ShapeStep::Open(pk),
                    ] + children_shape(before));
                    assert(frames_shape(fs) == frames_shape(fs1) + seq![ShapeStep::Open(kind)]
                        + children_shape(cs));
                    assert(frames_shape(nf) == frames_shape(fs1.drop_last()) + seq![
                        ShapeStep::Open(pk),
                    ] + children_shape(before.push(c)));
                    assert(frames_shape(nf) =~= frames_shape(fs).push(ShapeStep::Close));
                    assert(self.opened_shape() =~= old(self).opened_shape().push(ShapeStep::Close));
                }
            }
        } else {
            self.root = Some(node);
            proof {
                assert(fs.drop_last() =~= Seq::<(SyntaxKind, Seq<GreenChild>)>::empty());
                assert(old(self).text() =~= children_text(fs.last().1));
                assert(frames_leaves(fs.drop_last()) =~= Seq::<GreenToken>::empty());
                assert(old(self).leaves() =~= children_leaves(fs.last().1));
                assert(self.frames() =~= Seq::<(SyntaxKind, Seq<GreenChild>)>::empty());
                assert(frames_node_count(fs) == frames_node_count(fs.drop_last()) + 1
                    + children_node_count(cs));
                if old(self).root() is None {
                    assert(frames_node_kinds(fs.drop_last()) =~= Multiset::empty());
                    assert(frames_node_kinds(fs) == frames_node_kinds(fs.drop_last()).add(
                        children_node_kinds(cs).insert(kind),
                    ));
                    assert(frames_node_kinds(self.frames()) =~= Multiset::empty());
                    assert(self.opened_kinds() =~= old(self).opened_kinds());
                    assert(frames_shape(fs.drop_last()) =~= Seq::<ShapeStep>::empty());
                    assert(frames_shape(fs) == frames_shape(fs.drop_last()) + seq![
                        ShapeStep::Open(kind),
                    ] + children_shape(cs));
                    assert(frames_shape(self.frames()) =~= Seq::<ShapeStep>::empty());
                    assert(self.opened_shape() =~= old(self).opened_shape().push(ShapeStep::Close));
                }
            }
        }
    }

    /// Consume the builder, returning the root. A build that never finished a
    /// root yields an empty `SourceFile` node.
    pub fn finish(self) -> (r: Rc<GreenNode>)
        requires
            self.wf(),
        ensures
            node_wf(*r),
            self.root() matches Some(root) ==> *r == root,
            self.root() is None ==> r.kind == SyntaxKind::SourceFile && r.children@.len() == 0
                && r.text_len == 0,
    {
        match self.root {
            Some(root) => root,
            None => {
                let r = Rc::new(GreenNode { kind: SyntaxKind::SourceFile, text_len: 0, children: Vec::new() });
                proof {
                    assert(r.children@ =~= Seq::<GreenChild>::empty());
                }
                r
            },
        }
    }
}

impl Default for GreenNodeBuilder {
    fn default() -> (b: GreenNodeBuilder)
        ensures
            b.frames() == Seq::<(SyntaxKind, Seq<GreenChild>)>::empty(),
            b.root() is None,
            b.wf(),
    {
        GreenNodeBuilder::new()
    }
}

} // verus!
