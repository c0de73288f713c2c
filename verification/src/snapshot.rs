//! Canonical tree snapshot serializer: `&SyntaxNode -> String`. This output is
//! both the debug dump and the golden-test oracle, so the format is a
//! contract: LF-only, deterministic, indentation = depth.
//!
//! Kind names come exclusively from `SyntaxKind::label`, never spelled here.
//! Only escape sequences and format punctuation are literals.

use crate::green::{children_text, GreenChild, GreenNode};
use crate::syntax::{elem_green, elem_offset, is_children_of, SyntaxElement, SyntaxNode, SyntaxToken};
use crate::syntax_kind::{label_of, SyntaxKind};
use crate::text::{blen, decimal, hexadecimal, push_char, push_decimal, push_hex, push_str};
use std::rc::Rc;
use vstd::prelude::*;

verus! {

// ── the format ──────────────────────────────────────────────────────────────

/// Two spaces per depth level.
pub open spec fn indent(depth: nat) -> Seq<char>
    decreases depth,
{
    if depth == 0 {
        Seq::empty()
    } else {
        indent((depth - 1) as nat) + seq![' ', ' ']
    }
}

/// How one character of a token's text is written: backslash, quote and the
/// usual control characters by their escapes, other control characters as
/// `\u{hex}`, everything else as itself.
pub open spec fn escape_char(c: char) -> Seq<char> {
    if c == '\\' {
        seq!['\\', '\\']
    } else if c == '"' {
        seq!['\\', '"']
    } else if c == '\n' {
        seq!['\\', 'n']
    } else if c == '\r' {
        seq!['\\', 'r']
    } else if c == '\t' {
        seq!['\\', 't']
    } else if c == '\0' {
        seq!['\\', '0']
    } else if (c as u32) < 0x20 || c as u32 == 0x7f {
        seq!['\\', 'u', '{'] + hexadecimal(c as u32 as nat) + seq!['}']
    } else {
        seq![c]
    }
}

/// A text with every character escaped, so it occupies one line.
pub open spec fn escape_text(s: Seq<char>) -> Seq<char>
    decreases s.len(),
{
    if s.len() == 0 {
        Seq::empty()
    } else {
        escape_text(s.drop_last()) + escape_char(s.last())
    }
}

/// `KIND @ lo..hi` for a node.
pub open spec fn head(kind: SyntaxKind, lo: nat, hi: nat) -> Seq<char> {
    label_of(kind) + seq![' ', '@', ' '] + decimal(lo) + seq!['.', '.'] + decimal(hi)
}

/// A node's line.
pub open spec fn node_line(kind: SyntaxKind, lo: nat, hi: nat, depth: nat) -> Seq<char> {
    indent(depth) + head(kind, lo, hi) + seq!['\n']
}

/// A leaf's line: `KIND @ lo..hi "escaped text"`.
pub open spec fn token_line(kind: SyntaxKind, lo: nat, text: Seq<char>, depth: nat) -> Seq<char> {
    indent(depth) + head(kind, lo, lo + blen(text)) + seq![' ', '"'] + escape_text(text) + seq![
        '"',
        '\n',
    ]
}

/// The dump of a child starting at `offset`, at nesting `depth`: a node's
/// line and then its children one level deeper, or a leaf's line.
pub open spec fn dump_child(c: GreenChild, offset: nat, depth: nat) -> Seq<char>
    decreases c,
{
    match c {
        GreenChild::Node(n) => node_line(
            n.kind,
            offset,
            offset + blen(children_text(n.children@)),
            depth,
        ) + dump_children(n.children@, offset, depth + 1),
        GreenChild::Token(t) => token_line(t.kind, offset, t.text@, depth),
    }
}

/// The dumps of a run of children, the first starting at `offset`.
pub open spec fn dump_children(cs: Seq<GreenChild>, offset: nat, depth: nat) -> Seq<char>
    decreases cs,
{
    if cs.len() == 0 {
        Seq::empty()
    } else {
        dump_children(cs.drop_last(), offset, depth) + dump_child(
            cs.last(),
            offset + blen(children_text(cs.drop_last())),
            depth,
        )
    }
}

/// The number of levels a child spans: one for a leaf, one more than its
/// deepest child for a node.
pub open spec fn child_height(c: GreenChild) -> nat
    decreases c,
{
    match c {
        GreenChild::Node(n) => 1 + children_height(n.children@),
        GreenChild::Token(_) => 1,
    }
}

/// The most levels any child of a run spans.
pub open spec fn children_height(cs: Seq<GreenChild>) -> nat
    decreases cs,
{
    if cs.len() == 0 {
        0
    } else {
        let a = children_height(cs.drop_last());
        let b = child_height(cs.last());
        if a >= b {
            a
        } else {
            b
        }
    }
}

/// No child spans more levels than its run.
pub proof fn lemma_child_height(cs: Seq<GreenChild>, i: int)
    requires
        0 <= i < cs.len(),
    ensures
        child_height(cs[i]) <= children_height(cs),
    decreases cs.len(),
{
    if i < cs.len() - 1 {
        lemma_child_height(cs.drop_last(), i);
        assert(cs.drop_last()[i] == cs[i]);
    }
}

/// The dump of a node at `offset` and `depth`.
pub open spec fn dump_node(n: GreenNode, offset: nat, depth: nat) -> Seq<char> {
    dump_child(GreenChild::Node(Rc::new(n)), offset, depth)
}

// ── the serializer ──────────────────────────────────────────────────────────

/// Serialize a tree to the canonical indented form: one node or token per
/// line, two spaces per depth level.
pub fn serialize(root: &SyntaxNode) -> (r: String)
    requires
        children_height(root.green_of().children@) <= usize::MAX,
    ensures
        r@ == dump_node(root.green_of(), root.offset_of(), 0),
{
    let mut out = String::new();
    serialize_node(root, 0, &mut out);
    proof {
        assert(out@ =~= Seq::<char>::empty() + dump_node(root.green_of(), root.offset_of(), 0));
    }
    out
}

/// Emit `node`'s line, then recurse into its children one level deeper.
fn serialize_node(node: &SyntaxNode, depth: usize, out: &mut String)
    requires
        depth + children_height(node.green_of().children@) <= usize::MAX,
    ensures
        final(out)@ == old(out)@ + dump_node(node.green_of(), node.offset_of(), depth as nat),
    decreases node.green_of(),
{
    let span = node.span();
    push_indent(out, depth);
    push_head(out, node.kind(), span.lo, span.hi);
    push_char(out, '\n');
    let ghost line = node_line(
        node.green_of().kind,
        node.offset_of(),
        node.offset_of() + blen(children_text(node.green_of().children@)),
        depth as nat,
    );
    proof {
        assert(out@ =~= old(out)@ + line);
    }
    let children = node.children();
    let ghost cs = node.green_of().children@;
    let ghost start = out@;
    let mut i: usize = 0;
    proof {
        assert(cs.take(0) =~= Seq::<GreenChild>::empty());
        assert(out@ =~= start + dump_children(cs.take(0), node.offset_of(), depth as nat + 1));
    }
    while i < children.len()
        invariant
            0 <= i <= children@.len(),
            depth + children_height(cs) <= usize::MAX,
            is_children_of(children@, *node),
            cs == node.green_of().children@,
            start == old(out)@ + line,
            out@ == start + dump_children(cs.take(i as int), node.offset_of(), depth as nat + 1),
        decreases children.len() - i,
    {
        let ghost before = out@;
        proof {
            lemma_child_height(cs, i as int);
            assert(elem_green(children@[i as int]) == cs[i as int]);
            assert(cs.take(i as int + 1).drop_last() =~= cs.take(i as int));
            assert(cs.take(i as int + 1).last() == cs[i as int]);
            assert(elem_offset(children@[i as int]) == node.offset_of() + blen(
                children_text(cs.take(i as int)),
            ));
        }
        match &children[i] {
            SyntaxElement::Node(n) => {
                proof {
                    assert(cs[i as int] == GreenChild::Node(Rc::new(n.green_of())));
                    assert(decreases_to!(node.green_of() => n.green_of())) by {
                        assert(decreases_to!(node.green_of() => node.green_of().children));
                        assert(decreases_to!(node.green_of().children => cs));
                        assert(decreases_to!(cs => cs[i as int]));
                        let c = cs[i as int];
                        if let GreenChild::Node(rc) = c {
                            assert(decreases_to!(c => rc));
                            assert(*rc == n.green_of());
                        }
                    }
                }
                serialize_node(n, depth + 1, out);
            },
            SyntaxElement::Token(t) => {
                serialize_token(t, depth + 1, out);
                proof {
                    assert(cs[i as int] == GreenChild::Token(Rc::new(t.green_of())));
                }
            },
        }
        proof {
            let off = node.offset_of() + blen(children_text(cs.take(i as int)));
            let x = cs.take(i as int + 1);
            assert(dump_children(x, node.offset_of(), depth as nat + 1) == dump_children(
                x.drop_last(),
                node.offset_of(),
                depth as nat + 1,
            ) + dump_child(x.last(), node.offset_of() + blen(children_text(x.drop_last())), depth as nat + 1));
            assert(out@ == before + dump_child(cs[i as int], off, depth as nat + 1));
            assert(out@ =~= start + dump_children(
                cs.take(i as int + 1),
                node.offset_of(),
                depth as nat + 1,
            ));
        }
        i = i + 1;
    }
    proof {
        assert(cs.take(children@.len() as int) =~= cs);
    }
}

/// Emit a leaf line: `KIND @ lo..hi "repr"`.
fn serialize_token(token: &SyntaxToken, depth: usize, out: &mut String)
    ensures
        final(out)@ == old(out)@ + token_line(
            token.green_of().kind,
            token.offset_of(),
            token.green_of().text@,
            depth as nat,
        ),
{
    let span = token.span();
    push_indent(out, depth);
    push_head(out, token.kind(), span.lo, span.hi);
    push_str(out, " ");
    push_quoted(out, token.text());
    push_char(out, '\n');
    proof {
        reveal_strlit(" ");
        assert(out@ =~= old(out)@ + token_line(
            token.green_of().kind,
            token.offset_of(),
            token.green_of().text@,
            depth as nat,
        ));
    }
}

/// `KIND @ lo..hi`.
fn push_head(out: &mut String, kind: SyntaxKind, lo: usize, hi: usize)
    ensures
        final(out)@ == old(out)@ + head(kind, lo as nat, hi as nat),
{
    push_str(out, kind.label());
    push_str(out, " @ ");
    push_decimal(out, lo);
    push_str(out, "..");
    push_decimal(out, hi);
    proof {
        reveal_strlit(" @ ");
        reveal_strlit("..");
        assert(out@ =~= old(out)@ + head(kind, lo as nat, hi as nat));
    }
}

fn push_indent(out: &mut String, depth: usize)
    ensures
        final(out)@ == old(out)@ + indent(depth as nat),
{
    let mut i: usize = 0;
    while i < depth
        invariant
            i <= depth,
            out@ == old(out)@ + indent(i as nat),
        decreases depth - i,
    {
        push_str(out, INDENT);
        proof {
            reveal_strlit("  ");
            assert(out@ =~= old(out)@ + indent(i as nat + 1));
        }
        i = i + 1;
    }
}

const INDENT: &'static str = "  ";

/// The text between double quotes, escaped.
fn push_quoted(out: &mut String, s: &str)
    ensures
        final(out)@ == old(out)@ + seq!['"'] + escape_text(s@) + seq!['"'],
{
    push_char(out, '"');
    push_escaped(out, s);
    push_char(out, '"');
    proof {
        assert(out@ =~= old(out)@ + seq!['"'] + escape_text(s@) + seq!['"']);
    }
}

/// Escape so a token always occupies exactly one snapshot line.
fn push_escaped(out: &mut String, s: &str)
    ensures
        final(out)@ == old(out)@ + escape_text(s@),
{
    let n = s.unicode_len();
    let mut i: usize = 0;
    proof {
        assert(s@.take(0) =~= Seq::<char>::empty());
    }
    while i < n
        invariant
            n == s@.len(),
            i <= n,
            out@ == old(out)@ + escape_text(s@.take(i as int)),
        decreases n - i,
    {
        let c = s.get_char(i);
        let ghost before = out@;
        push_escaped_char(out, c);
        proof {
            assert(s@.take(i as int + 1).drop_last() =~= s@.take(i as int));
            assert(s@.take(i as int + 1).last() == c);
            assert(out@ =~= old(out)@ + escape_text(s@.take(i as int + 1)));
        }
        i = i + 1;
    }
    proof {
        assert(s@.take(n as int) =~= s@);
    }
}

fn push_escaped_char(out: &mut String, c: char)
    ensures
        final(out)@ == old(out)@ + escape_char(c),
{
    if c == '\\' {
        push_char(out, '\\');
        push_char(out, '\\');
    } else if c == '"' {
        push_char(out, '\\');
        push_char(out, '"');
    } else if c == '\n' {
        push_char(out, '\\');
        push_char(out, 'n');
    } else if c == '\r' {
        push_char(out, '\\');
        push_char(out, 'r');
    } else if c == '\t' {
        push_char(out, '\\');
        push_char(out, 't');
    } else if c == '\0' {
        push_char(out, '\\');
        push_char(out, '0');
    } else if (c as u32) < 0x20 || c as u32 == 0x7f {
        push_char(out, '\\');
        push_char(out, 'u');
        push_char(out, '{');
        push_hex(out, c as u32);
        push_char(out, '}');
    } else {
        push_char(out, c);
    }
    proof {
        assert(out@ =~= old(out)@ + escape_char(c));
    }
}

} // verus!
