//! Coverage invariants of a tree, defined once and pure:
//! - `reconstruct`: the tree rebuilds its text from its leaves (losslessness);
//! - `spans_well_formed`: the tree shape is sound (nesting and contiguity);
//! - `every_token_present`: every significant lexer token's text landed in the
//!   tree, in order, exactly once.

use crate::green::{
    child_len, child_text, children_leaves, children_text, children_wf,
    lemma_children_leaves_text, lemma_children_text_push, lemma_children_text_split,
    lemma_children_wf_index, GreenChild, GreenToken,
};
use crate::syntax::{
    child_offset, elem_green, elem_kind, elem_offset, is_children_of, SyntaxElement, SyntaxNode,
    SyntaxToken,
};
use crate::syntax_kind::{is_trivia_kind, label_of, SyntaxKind};
use crate::text::{blen, decimal, lemma_blen_concat, push_decimal, push_str};
use crate::token::Token;
use std::rc::Rc;
use vstd::prelude::*;

verus! {

/// A structural defect found by `spans_well_formed`.
#[derive(Debug, PartialEq)]
pub enum SpanError {
    /// The root span did not cover `[0, source_len)`.
    RootNotWholeSource { got_hi: usize, source_len: usize },
    /// A child poked outside its parent's span.
    ChildEscapesParent { parent: SyntaxKind, child: SyntaxKind },
    /// Two adjacent siblings were not contiguous (a gap or an overlap).
    SiblingsNotContiguous { prev_hi: usize, next_lo: usize },
    /// A node's span did not equal the union of its children's spans.
    NodeSpanMismatch { node: SyntaxKind },
}

/// A coverage defect found by `every_token_present`.
#[derive(Debug, PartialEq)]
pub enum CoverageError {
    /// The significant (non-trivia) text in the tree did not match the lexer's.
    SignificantTextMismatch { tree: String, lexer: String },
}

/// The texts of the significant leaves of a run (neither trivia nor `Eof`),
/// concatenated.
pub open spec fn significant_leaves_text(ts: Seq<GreenToken>) -> Seq<char>
    decreases ts.len(),
{
    if ts.len() == 0 {
        Seq::empty()
    } else if is_trivia_kind(ts.last().kind) || ts.last().kind == SyntaxKind::Eof {
        significant_leaves_text(ts.drop_last())
    } else {
        significant_leaves_text(ts.drop_last()) + ts.last().text@
    }
}

/// The texts of the lexer's significant tokens (neither trivia nor `Eof`),
/// concatenated.
pub open spec fn significant_tokens_text(ts: Seq<Token>) -> Seq<char>
    decreases ts.len(),
{
    if ts.len() == 0 {
        Seq::empty()
    } else if is_trivia_kind(ts.last().kind) || ts.last().kind == SyntaxKind::Eof {
        significant_tokens_text(ts.drop_last())
    } else {
        significant_tokens_text(ts.drop_last()) + ts.last().text@
    }
}

/// The trivia leaves of a run, each as its kind and text, in order.
pub open spec fn trivia_leaves(ls: Seq<GreenToken>) -> Seq<(SyntaxKind, Seq<char>)>
    decreases ls.len(),
{
    if ls.len() == 0 {
        Seq::empty()
    } else if is_trivia_kind(ls.last().kind) {
        trivia_leaves(ls.drop_last()).push((ls.last().kind, ls.last().text@))
    } else {
        trivia_leaves(ls.drop_last())
    }
}

/// The lexer's trivia tokens, each as its kind and text, in order.
pub open spec fn trivia_tokens(ts: Seq<Token>) -> Seq<(SyntaxKind, Seq<char>)>
    decreases ts.len(),
{
    if ts.len() == 0 {
        Seq::empty()
    } else if is_trivia_kind(ts.last().kind) {
        trivia_tokens(ts.drop_last()).push((ts.last().kind, ts.last().text@))
    } else {
        trivia_tokens(ts.drop_last())
    }
}

/// The trivia leaves of the tree under `root`.
pub open spec fn tree_trivia(root: SyntaxNode) -> Seq<(SyntaxKind, Seq<char>)> {
    trivia_leaves(children_leaves(root.green_of().children@))
}

/// The significant text of the tree under `root`.
pub open spec fn tree_significant_text(root: SyntaxNode) -> Seq<char> {
    significant_leaves_text(children_leaves(root.green_of().children@))
}

/// Concatenate every leaf token's text, left to right. Always equal to the
/// text of the tree — the losslessness guarantee.
pub fn reconstruct(root: &SyntaxNode) -> (r: String)
    ensures
        r@ == root.text_of(),
{
    let tokens = root.tokens();
    let ghost leaves = tokens@.map_values(|t: SyntaxToken| t.green_of());
    let mut out = String::new();
    let mut i: usize = 0;
    while i < tokens.len()
        invariant
            0 <= i <= tokens@.len(),
            leaves == tokens@.map_values(|t: SyntaxToken| t.green_of()),
            out@ == crate::green::leaves_text(leaves.take(i as int)),
        decreases tokens.len() - i,
    {
        proof {
            assert(leaves.take(i as int + 1).drop_last() =~= leaves.take(i as int));
        }
        push_str(&mut out, tokens[i].text());
        i = i + 1;
    }
    proof {
        assert(leaves.take(tokens@.len() as int) =~= leaves);
        lemma_children_leaves_text(root.green_of().children@);
    }
    out
}

/// Check the tree shape: the root covers the whole source, children nest
/// inside and tile their parent without gaps or overlaps, and each node's span
/// is the union of its children's. Every red tree meets the nesting and tiling
/// part, so the result depends only on the root's span.
pub fn spans_well_formed(root: &SyntaxNode, source_len: usize) -> (r: Result<(), SpanError>)
    ensures
        r is Ok <==> (root.offset_of() == 0 && root.offset_of() + root.len_of() == source_len),
        r is Err ==> r == Err::<(), SpanError>(
            SpanError::RootNotWholeSource {
                got_hi: (root.offset_of() + root.len_of()) as usize,
                source_len,
            },
        ),
{
    let span = root.span();
    if span.lo != 0 || span.hi != source_len {
        return Err(SpanError::RootNotWholeSource { got_hi: span.hi, source_len });
    }
    check_node(root)
}

/// Per-node shape check of one node's children, then recurse. Never fails on a
/// red tree: children offsets accumulate from the parent's offset and the
/// children's lengths add up to the parent's.
fn check_node(node: &SyntaxNode) -> (r: Result<(), SpanError>)
    ensures
        r is Ok,
    decreases node.green_of(),
{
    let children = node.children();
    let parent = node.span();
    let ghost cs = node.green_of().children@;
    let mut cursor = parent.lo;
    let mut i: usize = 0;
    proof {
        assert(cs.take(0) =~= Seq::<GreenChild>::empty());
    }
    while i < children.len()
        invariant
            0 <= i <= children@.len(),
            is_children_of(children@, *node),
            node.valid(),
            cs == node.green_of().children@,
            parent.lo == node.offset_of(),
            parent.hi == node.offset_of() + node.len_of(),
            cursor == node.offset_of() + blen(children_text(cs.take(i as int))),
        decreases children.len() - i,
    {
        let cspan = children[i].span();
        proof {
            assert(elem_green(children@[i as int]) == cs[i as int]);
            lemma_children_text_split(cs, i as int + 1);
            lemma_blen_concat(
                children_text(cs.take(i as int + 1)),
                children_text(cs.skip(i as int + 1)),
            );
            assert(cs.take(i as int + 1) =~= cs.take(i as int).push(cs[i as int]));
            lemma_children_text_push(cs.take(i as int), cs[i as int]);
            lemma_blen_concat(children_text(cs.take(i as int)), child_text(cs[i as int]));
        }
        if cspan.lo < parent.lo || cspan.hi > parent.hi {
            return Err(
                SpanError::ChildEscapesParent { parent: node.kind(), child: children[i].kind() },
            );
        }
        if cspan.lo != cursor {
            return Err(SpanError::SiblingsNotContiguous { prev_hi: cursor, next_lo: cspan.lo });
        }
        cursor = cspan.hi;
        i = i + 1;
    }
    proof {
        assert(cs.take(children@.len() as int) =~= cs);
    }
    if children.len() != 0 && cursor != parent.hi {
        return Err(SpanError::NodeSpanMismatch { node: node.kind() });
    }
    let mut j: usize = 0;
    while j < children.len()
        invariant
            0 <= j <= children@.len(),
            is_children_of(children@, *node),
            cs == node.green_of().children@,
        decreases children.len() - j,
    {
        match &children[j] {
            SyntaxElement::Node(n) => {
                proof {
                    assert(elem_green(children@[j as int]) == cs[j as int]);
                    assert(decreases_to!(node.green_of() => n.green_of())) by {
                        assert(decreases_to!(node.green_of() => node.green_of().children));
                        assert(decreases_to!(node.green_of().children => cs));
                        assert(decreases_to!(cs => cs[j as int]));
                        let c = cs[j as int];
                        if let GreenChild::Node(rc) = c {
                            assert(decreases_to!(c => rc));
                            assert(*rc == n.green_of());
                        }
                    }
                }
                let r = check_node(n);
                if r.is_err() {
                    return r;
                }
            },
            SyntaxElement::Token(_) => {},
        }
        j = j + 1;
    }
    Ok(())
}

/// Whether the tree's significant text equals the lexer's, both concatenated
/// in order, with trivia and `Eof` left out on both sides. Compared as concatenated text
/// (not per token) because the parser may split one source token into several
/// leaves (`>>` into `>` `>`).
pub fn every_token_present(root: &SyntaxNode, lexer_tokens: &[Token]) -> (r: Result<
    (),
    CoverageError,
>)
    ensures
        r is Ok <==> tree_significant_text(*root) == significant_tokens_text(lexer_tokens@),
        r matches Err(CoverageError::SignificantTextMismatch { tree, lexer }) ==> tree@
            == tree_significant_text(*root) && lexer@ == significant_tokens_text(lexer_tokens@),
{
    let leaves = root.tokens();
    let ghost gl = leaves@.map_values(|t: SyntaxToken| t.green_of());
    let mut tree = String::new();
    let mut i: usize = 0;
    while i < leaves.len()
        invariant
            0 <= i <= leaves@.len(),
            gl == leaves@.map_values(|t: SyntaxToken| t.green_of()),
            tree@ == significant_leaves_text(gl.take(i as int)),
        decreases leaves.len() - i,
    {
        proof {
            assert(gl.take(i as int + 1).drop_last() =~= gl.take(i as int));
        }
        let lk = leaves[i].kind();
        if !lk.is_trivia() && lk != SyntaxKind::Eof {
            push_str(&mut tree, leaves[i].text());
        }
        i = i + 1;
    }
    proof {
        assert(gl.take(leaves@.len() as int) =~= gl);
    }
    let mut lexer = String::new();
    let mut k: usize = 0;
    while k < lexer_tokens.len()
        invariant
            0 <= k <= lexer_tokens@.len(),
            lexer@ == significant_tokens_text(lexer_tokens@.take(k as int)),
        decreases lexer_tokens.len() - k,
    {
        proof {
            assert(lexer_tokens@.take(k as int + 1).drop_last() =~= lexer_tokens@.take(k as int));
        }
        let t = &lexer_tokens[k];
        if !t.kind.is_trivia() && t.kind != SyntaxKind::Eof {
            push_str(&mut lexer, t.text.as_str());
        }
        k = k + 1;
    }
    proof {
        assert(lexer_tokens@.take(lexer_tokens@.len() as int) =~= lexer_tokens@);
    }
    if tree != lexer {
        return Err(CoverageError::SignificantTextMismatch { tree, lexer });
    }
    Ok(())
}

/// The `Debug` text of a string: the text in double quotes, with quotes,
/// backslashes and control characters escaped.
pub uninterp spec fn str_debug_text(s: Seq<char>) -> Seq<char>;

/// `format!` with `{:?}` on a string slice: std's `Debug` for `str`, which
/// quotes the text and escapes it. Its exact characters (the escaping rules)
/// are not written out here; the result is named by `str_debug_text`, a
/// function of the text alone.
#[verifier::external_body]
fn str_debug(s: &str) -> (r: String)
    ensures
        r@ == str_debug_text(s@),
{
    format!("{:?}", s)
}

/// The `Debug` text of a `SignificantTextMismatch` holding these two texts:
/// the variant's name, then each field's name and quoted text.
pub open spec fn mismatch_debug_text(tree: Seq<char>, lexer: Seq<char>) -> Seq<char> {
    "SignificantTextMismatch { tree: "@ + str_debug_text(tree) + ", lexer: "@ + str_debug_text(
        lexer,
    ) + " }"@
}

/// The `Debug` rendering of a coverage error, laid out as the derived `Debug`
/// lays out a struct-like variant.
pub fn coverage_error_debug(e: &CoverageError) -> (r: String)
    ensures
        (match e {
            CoverageError::SignificantTextMismatch { tree, lexer } => r@ == mismatch_debug_text(
                tree@,
                lexer@,
            ),
        }),
{
    match e {
        CoverageError::SignificantTextMismatch { tree, lexer } => {
            let mut m = String::from_str("SignificantTextMismatch { tree: ");
            let t = str_debug(tree.as_str());
            push_str(&mut m, t.as_str());
            push_str(&mut m, ", lexer: ");
            let l = str_debug(lexer.as_str());
            push_str(&mut m, l.as_str());
            push_str(&mut m, " }");
            proof {
                reveal_strlit("SignificantTextMismatch { tree: ");
                reveal_strlit(", lexer: ");
                reveal_strlit(" }");
            }
            m
        },
    }
}

/// The message for a tree whose text differs from the source.
pub open spec fn reconstruct_message(tree_len: nat, source_len: nat) -> Seq<char> {
    "reconstruct mismatch: tree rebuilt "@ + decimal(tree_len) + " bytes, source is "@ + decimal(
        source_len,
    ) + " bytes"@
}

/// The message for a root whose span is not the whole source.
pub open spec fn root_span_message(got_hi: nat, source_len: nat) -> Seq<char> {
    "span error: RootNotWholeSource { got_hi: "@ + decimal(got_hi) + ", source_len: "@ + decimal(
        source_len,
    ) + " }"@
}

/// The three coverage invariants together: the tree spells out the source,
/// its root starts at offset 0 (so it spans the whole source), and its
/// significant text is the lexer's.
pub open spec fn coverage_ok(root: SyntaxNode, source: Seq<char>, lexer_tokens: Seq<Token>) -> bool {
    &&& root.text_of() == source
    &&& root.offset_of() == 0
    &&& tree_significant_text(root) == significant_tokens_text(lexer_tokens)
}

/// Run all three coverage invariants. Returns a description of the first
/// failure.
pub fn check_all(root: &SyntaxNode, source: &str, lexer_tokens: &[Token]) -> (r: Result<
    (),
    String,
>)
    ensures
        r is Ok <==> coverage_ok(*root, source@, lexer_tokens@),
        root.text_of() != source@ ==> (r matches Err(m) && m@ == reconstruct_message(
            root.len_of(),
            (blen(source@) as usize) as nat,
        )),
        root.text_of() == source@ && root.offset_of() != 0 ==> (r matches Err(m) && m@
            == root_span_message(root.offset_of() + root.len_of(), root.len_of())),
        root.text_of() == source@ && root.offset_of() == 0 && tree_significant_text(*root)
            != significant_tokens_text(lexer_tokens@) ==> (r matches Err(m) && m@
            == "coverage error: "@ + mismatch_debug_text(
            tree_significant_text(*root),
            significant_tokens_text(lexer_tokens@),
        )),
{
    let rebuilt = reconstruct(root);
    let src = String::from_str(source);
    let span = root.span();
    if rebuilt != src {
        let mut m = String::from_str("reconstruct mismatch: tree rebuilt ");
        push_decimal(&mut m, span.hi - span.lo);
        push_str(&mut m, " bytes, source is ");
        push_decimal(&mut m, source.len());
        push_str(&mut m, " bytes");
        proof {
            reveal_strlit("reconstruct mismatch: tree rebuilt ");
            reveal_strlit(" bytes, source is ");
            reveal_strlit(" bytes");
        }
        return Err(m);
    }
    let source_len = source.len();
    match spans_well_formed(root, source_len) {
        Ok(()) => {},
        Err(e) => {
            let mut m = String::from_str("span error: RootNotWholeSource { got_hi: ");
            push_decimal(&mut m, span.hi);
            push_str(&mut m, ", source_len: ");
            push_decimal(&mut m, source_len);
            push_str(&mut m, " }");
            proof {
                reveal_strlit("span error: RootNotWholeSource { got_hi: ");
                reveal_strlit(", source_len: ");
                reveal_strlit(" }");
            }
            return Err(m);
        },
    }
    match every_token_present(root, lexer_tokens) {
        Ok(()) => Ok(()),
        Err(e) => {
            let d = coverage_error_debug(&e);
            Err(coverage_message(d.as_str()))
        },
    }
}

/// The message `check_all` gives for a coverage defect, from the defect's
/// `Debug` text.
pub fn coverage_message(debug: &str) -> (m: String)
    ensures
        m@ == "coverage error: "@ + debug@,
{
    let mut m = String::from_str("coverage error: ");
    push_str(&mut m, debug);
    proof {
        reveal_strlit("coverage error: ");
    }
    m
}

} // verus!
