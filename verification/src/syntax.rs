//! The red tree: a navigable wrapper over the green tree that adds absolute
//! byte offsets and parent pointers, computed on traversal. Offsets are derived
//! by accumulating green child lengths.

use crate::green::{
    child_kind, child_leaves, child_len, children_leaves, child_text, child_wf, children_text, children_wf,
    leaves_text, lemma_children_leaves_text, lemma_leaves_text_concat, lemma_children_text_push, lemma_children_text_split, lemma_children_wf_index, node_text,
    node_wf, GreenChild, GreenNode, GreenToken,
};
use crate::syntax_kind::SyntaxKind;
use crate::text::{blen, lemma_blen_concat};
use crate::token::Span;
use std::rc::Rc;
use vstd::prelude::*;

verus! {

/// A node in the red tree: a shared green node plus where it sits in the
/// source and who its parent is.
pub struct SyntaxNode {
    green: Rc<GreenNode>,
    offset: usize,
    parent: Option<Rc<SyntaxNode>>,
}

/// A leaf in the red tree: a shared green token plus its absolute position.
pub struct SyntaxToken {
    green: Rc<GreenToken>,
    offset: usize,
    parent: Option<Rc<SyntaxNode>>,
}

/// Either kind of red-tree child.
pub enum SyntaxElement {
    Node(SyntaxNode),
    Token(SyntaxToken),
}

impl SyntaxNode {
    #[verifier::type_invariant]
    spec fn inv(self) -> bool {
        &&& node_wf(*self.green)
        &&& self.offset + self.green.text_len <= usize::MAX
    }

    /// The green node this red node wraps.
    pub closed spec fn green_of(self) -> GreenNode {
        *self.green
    }

    /// The node's absolute byte offset.
    pub closed spec fn offset_of(self) -> nat {
        self.offset as nat
    }

    /// The node's parent, if any.
    pub closed spec fn parent_of(self) -> Option<SyntaxNode> {
        match self.parent {
            Some(p) => Some(*p),
            None => None,
        }
    }

    /// The node's kind.
    pub open spec fn kind_of(self) -> SyntaxKind {
        self.green_of().kind
    }

    /// The text the node covers.
    pub open spec fn text_of(self) -> Seq<char> {
        node_text(self.green_of())
    }

    /// The node's byte length.
    pub open spec fn len_of(self) -> nat {
        blen(self.text_of())
    }

    /// What every red node satisfies: it wraps a well-formed green node whose
    /// end offset fits in a `usize`.
    pub open spec fn valid(self) -> bool {
        &&& node_wf(self.green_of())
        &&& self.green_of().text_len == self.len_of()
        &&& self.offset_of() + self.len_of() <= usize::MAX
    }
}

impl SyntaxToken {
    #[verifier::type_invariant]
    spec fn inv(self) -> bool {
        self.offset + blen(self.green.text@) <= usize::MAX
    }

    /// The green token this red token wraps.
    pub closed spec fn green_of(self) -> GreenToken {
        *self.green
    }

    /// The token's absolute byte offset.
    pub closed spec fn offset_of(self) -> nat {
        self.offset as nat
    }

    /// The token's parent, if any.
    pub closed spec fn parent_of(self) -> Option<SyntaxNode> {
        match self.parent {
            Some(p) => Some(*p),
            None => None,
        }
    }

    /// The token's kind.
    pub open spec fn kind_of(self) -> SyntaxKind {
        self.green_of().kind
    }

    /// The token's text.
    pub open spec fn text_of(self) -> Seq<char> {
        self.green_of().text@
    }

    /// What every red token satisfies: its end offset fits in a `usize`.
    pub open spec fn valid(self) -> bool {
        self.offset_of() + blen(self.text_of()) <= usize::MAX
    }
}

/// The green child an element wraps.
pub open spec fn elem_green(e: SyntaxElement) -> GreenChild {
    match e {
        SyntaxElement::Node(n) => GreenChild::Node(Rc::new(n.green_of())),
        SyntaxElement::Token(t) => GreenChild::Token(Rc::new(t.green_of())),
    }
}

/// An element's kind.
pub open spec fn elem_kind(e: SyntaxElement) -> SyntaxKind {
    match e {
        SyntaxElement::Node(n) => n.kind_of(),
        SyntaxElement::Token(t) => t.kind_of(),
    }
}

/// An element's absolute byte offset.
pub open spec fn elem_offset(e: SyntaxElement) -> nat {
    match e {
        SyntaxElement::Node(n) => n.offset_of(),
        SyntaxElement::Token(t) => t.offset_of(),
    }
}

/// An element's parent.
pub open spec fn elem_parent(e: SyntaxElement) -> Option<SyntaxNode> {
    match e {
        SyntaxElement::Node(n) => n.parent_of(),
        SyntaxElement::Token(t) => t.parent_of(),
    }
}

/// The offset of the `i`-th child of a node: the node's offset plus the
/// lengths of the children before it.
pub open spec fn child_offset(n: SyntaxNode, i: int) -> nat {
    n.offset_of() + blen(children_text(n.green_of().children@.take(i)))
}

/// What `children` returns: one element per green child, in order, each
/// wrapping that green child, at its accumulated offset, with `n` as parent.
pub open spec fn is_children_of(r: Seq<SyntaxElement>, n: SyntaxNode) -> bool {
    &&& r.len() == n.green_of().children@.len()
    &&& forall|i: int|
        0 <= i < r.len() ==> {
            &&& elem_green(#[trigger] r[i]) == n.green_of().children@[i]
            &&& elem_offset(r[i]) == child_offset(n, i)
            &&& elem_parent(r[i]) == Some(n)
        }
}

/// The children of `n`: the one element sequence `is_children_of` describes.
pub open spec fn elems_of(n: SyntaxNode) -> Seq<SyntaxElement> {
    choose|cs: Seq<SyntaxElement>| is_children_of(cs, n)
}

/// The child nodes of `n`, in order.
pub open spec fn nodes_of(n: SyntaxNode) -> Seq<SyntaxNode> {
    nodes_only(elems_of(n))
}

/// An element is fixed by its green child, its offset and its parent.
proof fn lemma_elem_unique(a: SyntaxElement, b: SyntaxElement)
    requires
        elem_green(a) == elem_green(b),
        elem_offset(a) == elem_offset(b),
        elem_parent(a) == elem_parent(b),
    ensures
        a == b,
{
    match a {
        SyntaxElement::Node(x) => {
            if let SyntaxElement::Node(y) = b {
                assert(x.green == y.green);
                assert(x.parent == y.parent) by {
                    match x.parent {
                        Some(px) => {
                            assert(y.parent is Some);
                        },
                        None => {},
                    }
                }
            }
        },
        SyntaxElement::Token(x) => {
            if let SyntaxElement::Token(y) = b {
                assert(x.green == y.green);
                assert(x.parent == y.parent) by {
                    match x.parent {
                        Some(px) => {
                            assert(y.parent is Some);
                        },
                        None => {},
                    }
                }
            }
        },
    }
}

/// The children of a node are unique: any sequence `is_children_of`
/// describes is `elems_of`.
pub proof fn lemma_children_unique(cs: Seq<SyntaxElement>, n: SyntaxNode)
    requires
        is_children_of(cs, n),
    ensures
        elems_of(n) == cs,
{
    let ds = elems_of(n);
    assert(is_children_of(ds, n));
    assert forall|i: int| 0 <= i < cs.len() implies ds[i] == cs[i] by {
        lemma_elem_unique(ds[i], cs[i]);
    }
    assert(ds =~= cs);
}

/// The child nodes (not tokens) of `r`, in order.
pub open spec fn nodes_only(r: Seq<SyntaxElement>) -> Seq<SyntaxNode>
    decreases r.len(),
{
    if r.len() == 0 {
        Seq::empty()
    } else {
        match r.last() {
            SyntaxElement::Node(n) => nodes_only(r.drop_last()).push(n),
            SyntaxElement::Token(_) => nodes_only(r.drop_last()),
        }
    }
}

impl Clone for SyntaxNode {
    fn clone(&self) -> (r: SyntaxNode)
        ensures
            r == *self,
    {
        proof {
            use_type_invariant(self);
        }
        let parent = match &self.parent {
            Some(p) => Some(Rc::clone(p)),
            None => None,
        };
        SyntaxNode { green: Rc::clone(&self.green), offset: self.offset, parent }
    }
}

impl Clone for SyntaxToken {
    fn clone(&self) -> (r: SyntaxToken)
        ensures
            r == *self,
    {
        proof {
            use_type_invariant(self);
        }
        let parent = match &self.parent {
            Some(p) => Some(Rc::clone(p)),
            None => None,
        };
        SyntaxToken { green: Rc::clone(&self.green), offset: self.offset, parent }
    }
}

impl Clone for SyntaxElement {
    fn clone(&self) -> (r: SyntaxElement)
        ensures
            r == *self,
    {
        match self {
            SyntaxElement::Node(n) => SyntaxElement::Node(n.clone()),
            SyntaxElement::Token(t) => SyntaxElement::Token(t.clone()),
        }
    }
}

impl SyntaxNode {
    /// Wrap a green root as the red root (offset 0, no parent). A green
    /// node's cached length is not carried by its type: its fields are
    /// public, and the iterative drop empties a node's children while its
    /// length stays, which a type invariant would forbid. So the caller passes
    /// a well-formed tree, as every builder-made tree is.
    pub fn new_root(green: Rc<GreenNode>) -> (r: SyntaxNode)
        requires
            node_wf(*green),
        ensures
            r.green_of() == *green,
            r.offset_of() == 0,
            r.parent_of() is None,
    {
        SyntaxNode { green, offset: 0, parent: None }
    }

    pub fn kind(&self) -> (r: SyntaxKind)
        ensures
            r == self.kind_of(),
            self.valid(),
    {
        proof {
            use_type_invariant(self);
        }
        self.green.kind
    }

    /// Half-open byte span `[offset, offset + len)`.
    pub fn span(&self) -> (r: Span)
        ensures
            r.lo == self.offset_of(),
            r.hi == self.offset_of() + self.len_of(),
            self.valid(),
    {
        proof {
            use_type_invariant(self);
        }
        Span { lo: self.offset, hi: self.offset + self.green.text_len() }
    }

    pub fn parent(&self) -> (r: Option<&SyntaxNode>)
        ensures
            r matches Some(p) ==> self.parent_of() == Some(*p),
            r is None ==> self.parent_of() is None,
    {
        match &self.parent {
            Some(p) => Some(&**p),
            None => None,
        }
    }

    /// The node's children (nodes and tokens), each tagged with its absolute
    /// offset, in source order.
    pub fn children(&self) -> (r: Vec<SyntaxElement>)
        ensures
            is_children_of(r@, *self),
            r@ == elems_of(*self),
            self.valid(),
    {
        proof {
            use_type_invariant(self);
        }
        let me = Rc::new(self.clone());
        let ghost cs = self.green.children@;
        let mut offset = self.offset;
        let mut out: Vec<SyntaxElement> = Vec::new();
        let n = self.green.children.len();
        let mut i: usize = 0;
        proof {
            assert(cs.take(0) =~= Seq::<GreenChild>::empty());
        }
        while i < n
            invariant
                n == cs.len(),
                cs == self.green.children@,
                0 <= i <= n,
                children_wf(cs),
                self.offset + blen(children_text(cs)) <= usize::MAX,
                *me == *self,
                offset == self.offset + blen(children_text(cs.take(i as int))),
                out@.len() == i,
                forall|j: int|
                    0 <= j < i ==> {
                        &&& elem_green(#[trigger] out@[j]) == cs[j]
                        &&& elem_offset(out@[j]) == child_offset(*self, j)
                        &&& elem_parent(out@[j]) == Some(*self)
                    },
            decreases n - i,
        {
            proof {
                lemma_children_wf_index(cs, i as int);
                lemma_children_text_split(cs, i as int + 1);
                lemma_blen_concat(
                    children_text(cs.take(i as int + 1)),
                    children_text(cs.skip(i as int + 1)),
                );
                assert(cs.take(i as int + 1) =~= cs.take(i as int).push(cs[i as int]));
                lemma_children_text_push(cs.take(i as int), cs[i as int]);
                lemma_blen_concat(children_text(cs.take(i as int)), child_text(cs[i as int]));
            }
            let child = &self.green.children[i];
            out.push(red_child(child, offset, &me));
            offset = offset + child.text_len();
            i = i + 1;
        }
        proof {
            lemma_children_unique(out@, *self);
        }
        out
    }

    /// Child nodes only (typed-view navigation skips leaves).
    pub fn child_nodes(&self) -> (r: Vec<SyntaxNode>)
        ensures
            exists|cs: Seq<SyntaxElement>| is_children_of(cs, *self) && r@ == nodes_only(cs),
            r@ == nodes_of(*self),
    {
        let children = self.children();
        let mut out: Vec<SyntaxNode> = Vec::new();
        let mut i: usize = 0;
        while i < children.len()
            invariant
                0 <= i <= children@.len(),
                out@ == nodes_only(children@.take(i as int)),
            decreases children.len() - i,
        {
            proof {
                assert(children@.take(i as int + 1).drop_last() =~= children@.take(i as int));
            }
            match &children[i] {
                SyntaxElement::Node(n) => out.push(n.clone()),
                SyntaxElement::Token(_) => {},
            }
            i = i + 1;
        }
        proof {
            assert(children@.take(children@.len() as int) =~= children@);
        }
        out
    }
}

/// The offset of the `j`-th leaf under `n`: the node's offset plus the
/// lengths of the leaves before it.
pub open spec fn leaf_offset(n: SyntaxNode, j: int) -> nat {
    n.offset_of() + blen(leaves_text(children_leaves(n.green_of().children@).take(j)))
}

/// The byte length of the first `k` leaves of `a + b`.
proof fn lemma_leaves_prefix_len(a: Seq<GreenToken>, b: Seq<GreenToken>, k: int)
    requires
        0 <= k <= a.len() + b.len(),
    ensures
        k <= a.len() ==> blen(leaves_text((a + b).take(k))) == blen(leaves_text(a.take(k))),
        k >= a.len() ==> blen(leaves_text((a + b).take(k))) == blen(leaves_text(a)) + blen(
            leaves_text(b.take(k - a.len())),
        ),
{
    if k <= a.len() {
        assert((a + b).take(k) =~= a.take(k));
    }
    if k >= a.len() {
        assert((a + b).take(k) =~= a + b.take(k - a.len()));
        lemma_leaves_text_concat(a, b.take(k - a.len()));
        lemma_blen_concat(leaves_text(a), leaves_text(b.take(k - a.len())));
    }
}

/// The leaf after the first `j` starts where they end.
proof fn lemma_leaves_take_step(ls: Seq<GreenToken>, j: int)
    requires
        0 <= j < ls.len(),
    ensures
        blen(leaves_text(ls.take(j + 1))) == blen(leaves_text(ls.take(j))) + blen(ls[j].text@),
{
    assert(ls.take(j + 1).drop_last() =~= ls.take(j));
    lemma_blen_concat(leaves_text(ls.take(j)), ls[j].text@);
}

impl SyntaxNode {
    /// All leaf tokens under this node, in left-to-right order. Each sits at
    /// its leaf offset, so the tokens tile the node: the first starts where
    /// the node starts, each ends where the next starts, the last ends where
    /// the node ends, and their texts make up the node's text.
    pub fn tokens(&self) -> (r: Vec<SyntaxToken>)
        ensures
            r@.map_values(|t: SyntaxToken| t.green_of()) == children_leaves(
                self.green_of().children@,
            ),
            forall|j: int| 0 <= j < r@.len() ==> #[trigger] r@[j].offset_of() == leaf_offset(*self, j),
            r@.len() > 0 ==> r@[0].offset_of() == self.offset_of(),
            forall|j: int|
                0 <= j < r@.len() - 1 ==> #[trigger] r@[j].offset_of() + blen(r@[j].text_of())
                    == r@[j + 1].offset_of(),
            r@.len() > 0 ==> r@.last().offset_of() + blen(r@.last().text_of()) == self.offset_of()
                + self.len_of(),
            leaves_text(r@.map_values(|t: SyntaxToken| t.green_of())) == self.text_of(),
    {
        let mut out: Vec<SyntaxToken> = Vec::new();
        collect_tokens(self, &mut out);
        proof {
            let ls = children_leaves(self.green_of().children@);
            assert(out@.map_values(|t: SyntaxToken| t.green_of()) =~= Seq::<GreenToken>::empty()
                + ls);
            lemma_children_leaves_text(self.green_of().children@);
            assert forall|j: int| 0 <= j < out@.len() implies #[trigger] out@[j].offset_of()
                == leaf_offset(*self, j) by {
                assert(out@[j - 0].offset_of() == leaf_offset(*self, j - 0));
            }
            assert(ls.take(0) =~= Seq::<GreenToken>::empty());
            if out@.len() > 0 {
                assert(out@[0].offset_of() == leaf_offset(*self, 0));
            }
            assert forall|j: int| 0 <= j < out@.len() - 1 implies #[trigger] out@[j].offset_of()
                + blen(out@[j].text_of()) == out@[j + 1].offset_of() by {
                assert(out@[j].offset_of() == leaf_offset(*self, j));
                assert(out@[j + 1].offset_of() == leaf_offset(*self, j + 1));
                assert(out@.map_values(|t: SyntaxToken| t.green_of())[j] == out@[j].green_of());
                lemma_leaves_take_step(ls, j);
            }
            if out@.len() > 0 {
                let j = out@.len() - 1;
                assert(out@[j].offset_of() == leaf_offset(*self, j));
                assert(out@.map_values(|t: SyntaxToken| t.green_of())[j] == out@[j].green_of());
                lemma_leaves_take_step(ls, j);
                assert(ls.take(j + 1) =~= ls);
            }
        }
        out
    }
}

/// Depth-first collect of every leaf token under `node`.
fn collect_tokens(node: &SyntaxNode, out: &mut Vec<SyntaxToken>)
    ensures
        final(out)@.map_values(|t: SyntaxToken| t.green_of()) == old(out)@.map_values(
            |t: SyntaxToken| t.green_of(),
        ) + children_leaves(node.green_of().children@),
        final(out)@.len() == old(out)@.len() + children_leaves(node.green_of().children@).len(),
        forall|j: int| 0 <= j < old(out)@.len() ==> #[trigger] final(out)@[j] == old(out)@[j],
        forall|j: int|
            old(out)@.len() <= j < final(out)@.len() ==> #[trigger] final(out)@[j].offset_of()
                == leaf_offset(*node, j - old(out)@.len()),
    decreases node.green_of(),
{
    let children = node.children();
    let ghost cs = node.green_of().children@;
    let ghost start = old(out)@.map_values(|t: SyntaxToken| t.green_of());
    let ghost s0 = old(out)@.len() as int;
    let ghost orig = old(out)@;
    let mut i: usize = 0;
    proof {
        assert(cs.take(0) =~= Seq::<GreenChild>::empty());
        assert(out@.map_values(|t: SyntaxToken| t.green_of()) =~= start + children_leaves(
            cs.take(0),
        ));
    }
    while i < children.len()
        invariant
            0 <= i <= children@.len(),
            is_children_of(children@, *node),
            cs == node.green_of().children@,
            out@.map_values(|t: SyntaxToken| t.green_of()) == start + children_leaves(
                cs.take(i as int),
            ),
            s0 == orig.len(),
            start == orig.map_values(|t: SyntaxToken| t.green_of()),
            out@.len() == s0 + children_leaves(cs.take(i as int)).len(),
            forall|j: int| 0 <= j < s0 ==> #[trigger] out@[j] == orig[j],
            forall|j: int|
                s0 <= j < out@.len() ==> #[trigger] out@[j].offset_of() == node.offset_of() + blen(
                    leaves_text(children_leaves(cs.take(i as int)).take(j - s0)),
                ),
        decreases children.len() - i,
    {
        let ghost before = out@.map_values(|t: SyntaxToken| t.green_of());
        let ghost before_out = out@;
        let ghost li = children_leaves(cs.take(i as int));
        proof {
            lemma_children_leaves_text(cs.take(i as int));
        }
        proof {
            assert(elem_green(children@[i as int]) == cs[i as int]);
            assert(cs.take(i as int + 1).drop_last() =~= cs.take(i as int));
        }
        match &children[i] {
            SyntaxElement::Node(n) => {
                proof {
                    assert(cs[i as int] == GreenChild::Node(Rc::new(n.green_of())));
                    assert(decreases_to!(node.green_of() => n.green_of())) by {
                        assert(decreases_to!(node.green_of() => node.green_of().children));
                        assert(decreases_to!(node.green_of().children => cs));
                        assert(decreases_to!(cs => cs[i as int]));
                        let c = cs[i as int];
                        if let GreenChild::Node(rc) = c {
                            assert(decreases_to!(c => rc));
                            assert(*rc == n.green_of());
                        }
                    }
                }
                collect_tokens(n, out);
                proof {
                    assert(child_leaves(cs[i as int]) == children_leaves(n.green_of().children@));
                    assert(elem_offset(children@[i as int]) == child_offset(*node, i as int));
                    let bl = s0 + li.len();
                    let c = child_leaves(cs[i as int]);
                    assert forall|j: int| bl <= j < out@.len() implies #[trigger] out@[j].offset_of()
                        == node.offset_of() + blen(leaves_text(li)) + blen(
                        leaves_text(c.take(j - bl)),
                    ) by {
                        assert(out@[j].offset_of() == leaf_offset(*n, j - before_out.len()));
                    }
                }
            },
            SyntaxElement::Token(t) => {
                let tc = t.clone();
                out.push(tc);
                proof {
                    assert(elem_offset(children@[i as int]) == child_offset(*node, i as int));
                    let bl = s0 + li.len();
                    let c = child_leaves(cs[i as int]);
                    assert(c.take(0) =~= Seq::<GreenToken>::empty());
                    assert(out@[bl].offset_of() == node.offset_of() + blen(leaves_text(li)) + blen(
                        leaves_text(c.take(bl - bl)),
                    ));
                    assert(out@.map_values(|t: SyntaxToken| t.green_of()) =~= before.push(
                        t.green_of(),
                    ));
                    assert(child_leaves(cs[i as int]) == seq![t.green_of()]);
                }
            },
        }
        proof {
            assert(out@.map_values(|t: SyntaxToken| t.green_of()) =~= start + children_leaves(
                cs.take(i as int + 1),
            ));
            let c = child_leaves(cs[i as int]);
            assert(children_leaves(cs.take(i as int + 1)) =~= li + c);
            assert(out@.len() == s0 + li.len() + c.len());
            assert forall|j: int| 0 <= j < s0 implies #[trigger] out@[j] == orig[j] by {
                assert(out@[j] == before_out[j]);
            }
            assert forall|j: int| s0 <= j < out@.len() implies #[trigger] out@[j].offset_of()
                == node.offset_of() + blen(leaves_text((li + c).take(j - s0))) by {
                lemma_leaves_prefix_len(li, c, j - s0);
                if j >= s0 + li.len() {
                    assert(out@[j].offset_of() == node.offset_of() + blen(leaves_text(li)) + blen(
                        leaves_text(c.take(j - s0 - li.len())),
                    ));
                    assert(blen(leaves_text((li + c).take(j - s0))) == blen(leaves_text(li)) + blen(
                        leaves_text(c.take(j - s0 - li.len())),
                    ));
                }
                if j < s0 + li.len() {
                    assert(out@[j] == before_out[j]);
                    assert(before_out[j].offset_of() == node.offset_of() + blen(
                        leaves_text(li.take(j - s0)),
                    ));
                }
            }
        }
        i = i + 1;
    }
    proof {
        assert(cs.take(children@.len() as int) =~= cs);
    }
}

impl SyntaxToken {
    pub fn kind(&self) -> (r: SyntaxKind)
        ensures
            r == self.kind_of(),
            self.valid(),
    {
        proof {
            use_type_invariant(self);
        }
        self.green.kind
    }

    pub fn text(&self) -> (r: &str)
        ensures
            r@ == self.text_of(),
    {
        self.green.text.as_str()
    }

    pub fn span(&self) -> (r: Span)
        ensures
            r.lo == self.offset_of(),
            r.hi == self.offset_of() + blen(self.text_of()),
            self.valid(),
    {
        proof {
            use_type_invariant(self);
        }
        Span { lo: self.offset, hi: self.offset + self.green.text_len() }
    }

    pub fn parent(&self) -> (r: Option<&SyntaxNode>)
        ensures
            r matches Some(p) ==> self.parent_of() == Some(*p),
            r is None ==> self.parent_of() is None,
    {
        match &self.parent {
            Some(p) => Some(&**p),
            None => None,
        }
    }
}

impl SyntaxElement {
    pub fn kind(&self) -> (r: SyntaxKind)
        ensures
            r == elem_kind(*self),
    {
        match self {
            SyntaxElement::Node(n) => n.kind(),
            SyntaxElement::Token(t) => t.kind(),
        }
    }

    pub fn span(&self) -> (r: Span)
        ensures
            r.lo == elem_offset(*self),
            r.hi == elem_offset(*self) + child_len(elem_green(*self)),
    {
        match self {
            SyntaxElement::Node(n) => n.span(),
            SyntaxElement::Token(t) => t.span(),
        }
    }
}

/// Build the red child sitting at `offset` under `parent`.
fn red_child(child: &GreenChild, offset: usize, parent: &Rc<SyntaxNode>) -> (r: SyntaxElement)
    requires
        child_wf(*child),
        offset + child_len(*child) <= usize::MAX,
    ensures
        elem_green(r) == *child,
        elem_offset(r) == offset,
        elem_parent(r) == Some(**parent),
{
    match child {
        GreenChild::Node(n) => SyntaxElement::Node(
            SyntaxNode { green: Rc::clone(n), offset, parent: Some(Rc::clone(parent)) },
        ),
        GreenChild::Token(t) => SyntaxElement::Token(
            SyntaxToken { green: Rc::clone(t), offset, parent: Some(Rc::clone(parent)) },
        ),
    }
}

} // verus!
