//! A lossless, total parser for the Axiom language: token stream in, lossless
//! concrete syntax tree (green/red tree) plus diagnostics out, with typed AST
//! views, tree invariant checks and a canonical snapshot serializer; and the
//! type checker's self-contained parts (match exhaustiveness, unification of
//! generic type parameters, the scoped type environment, the intrinsic
//! functions).

pub mod syntax_kind;
pub mod lexer_kind;
pub mod text;
pub mod green;
pub mod token;
pub mod syntax;
pub mod invariants;
pub mod event;
pub mod error;
pub mod parser;
pub mod grammar;
pub mod snapshot;
pub mod ast;
pub mod exhaustiveness;
pub mod unify;
pub mod builtins;
pub mod env;
pub mod hir;
pub mod typeck;

pub use crate::error::ParseError;
pub use crate::invariants::{check_all, reconstruct};
pub use crate::snapshot::serialize;
pub use crate::syntax::{SyntaxElement, SyntaxNode, SyntaxToken};
pub use crate::syntax_kind::SyntaxKind;
pub use crate::token::{Span, Token};

use crate::event::{
    build_tree, eof_only_last, lemma_significant_tokens_len, significant_tokens, source_tokens,
    tokens_text, Event,
};
use crate::grammar::leading_item;
use crate::green::node_kinds;
use crate::invariants::{coverage_ok, trivia_tokens, tree_trivia};
use crate::text::blen;
use vstd::prelude::*;

verus! {

/// The outcome of a parse: the lossless tree and the diagnostics collected on
/// the way. The parser is total: it always yields a tree.
pub struct ParseResult {
    pub tree: SyntaxNode,
    pub errors: Vec<ParseError>,
}

/// Parse a token stream (the lexer's full output, trivia and `Eof` included)
/// into a lossless tree rooted at a `SourceFile` node. For a stream with `Eof`
/// at most at its end, the tree spells out exactly the stream's text, its
/// significant text is the stream's (so the tree passes `check_all`), and
/// every trivia token lands in it as a leaf of the same kind and text, in
/// order. A stream whose first significant token begins an item (`fn`,
/// `struct`, ..., or `pub` before one) yields that item's node; and a tree
/// holding an `Error` node always comes with at least one diagnostic.
pub fn parse(tokens: &[Token]) -> (r: ParseResult)
    requires
        blen(tokens_text(tokens@)) <= usize::MAX,
    ensures
        r.tree.kind_of() == SyntaxKind::SourceFile,
        r.tree.offset_of() == 0,
        r.tree.parent_of() is None,
        eof_only_last(tokens@) ==> r.tree.text_of() == tokens_text(source_tokens(tokens@)),
        eof_only_last(tokens@) ==> coverage_ok(r.tree, tokens_text(source_tokens(tokens@)), tokens@),
        eof_only_last(tokens@) ==> tree_trivia(r.tree) == trivia_tokens(tokens@),
        leading_item(significant_tokens(tokens@)) matches Some(n) ==> node_kinds(
            r.tree.green_of(),
        ).count(n) > 0,
        r.errors@.len() == 0 ==> node_kinds(r.tree.green_of()).count(SyntaxKind::Error) == 0,
{
    let mut p = parser::Parser::new(tokens);
    proof {
        let st = significant_tokens(tokens@);
        lemma_significant_tokens_len(tokens@);
        assert(grammar::first_item_node(p) == leading_item(st));
        assert(p.events_view() =~= Seq::<Event>::empty());
        assert(parser::error_nodes(p) == 0);
    }
    grammar::source_file(&mut p);
    proof {
        p.lemma_splits_significant();
    }
    let (events, errors) = p.finish();
    proof {
        assert(event::parents_in_range(events@)) by {
            assert forall|i: int|
                0 <= i < events@.len() implies (#[trigger] events@[i] matches Event::Start {
                forward_parent,
                ..
            } && (forward_parent matches Some(f) ==> f < events@.len())) || !(events@[i] is Start) by {
                if events@[i] is Start && events@[i]->forward_parent is Some {
                    assert(events@[i] matches Event::Start { forward_parent, .. } && forward_parent
                        is Some);
                }
            }
        }
    }
    proof {
        if leading_item(significant_tokens(tokens@)) is Some {
            event::lemma_start_kinds_has(events@, 1);
        }
    }
    let green = build_tree(events, tokens);
    ParseResult { tree: SyntaxNode::new_root(green), errors }
}

} // verus!
