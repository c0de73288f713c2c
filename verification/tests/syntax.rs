use axiom_parser::green::GreenNodeBuilder;
use axiom_parser::syntax::SyntaxNode;
use axiom_parser::syntax_kind::SyntaxKind;
use axiom_parser::token::Span;

fn sample() -> SyntaxNode {
    // SourceFile { LetStmt { "let" " " "x" } }
    let mut b = GreenNodeBuilder::new();
    b.start_node(SyntaxKind::SourceFile);
    b.start_node(SyntaxKind::LetStmt);
    b.token(SyntaxKind::KwLet, "let".to_string());
    b.token(SyntaxKind::Whitespace, " ".to_string());
    b.token(SyntaxKind::Ident, "x".to_string());
    b.finish_node();
    b.finish_node();
    SyntaxNode::new_root(b.finish())
}

#[test]
fn test_root_span_covers_whole_source() {
    let root = sample();
    assert_eq!(root.span(), Span { lo: 0, hi: 5 });
}

#[test]
fn test_child_offsets_accumulate() {
    let root = sample();
    let stmt = &root.child_nodes()[0];
    let toks = stmt.children();
    assert_eq!(toks[0].span(), Span { lo: 0, hi: 3 }); // "let"
    assert_eq!(toks[1].span(), Span { lo: 3, hi: 4 }); // " "
    assert_eq!(toks[2].span(), Span { lo: 4, hi: 5 }); // "x"
}

#[test]
fn test_tokens_flattens_in_source_order() {
    let root = sample();
    let texts: Vec<String> = root.tokens().iter().map(|t| t.text().to_string()).collect();
    assert_eq!(texts, vec!["let", " ", "x"]);
}

#[test]
fn test_parent_pointer_links_up() {
    let root = sample();
    let stmt = &root.child_nodes()[0];
    assert_eq!(stmt.parent().map(SyntaxNode::kind), Some(SyntaxKind::SourceFile));
}

#[test]
fn test_root_has_no_parent_and_token_parent_is_its_node() {
    let root = sample();
    assert!(root.parent().is_none());
    let stmt = &root.child_nodes()[0];
    let toks = stmt.tokens();
    assert_eq!(toks[2].parent().map(SyntaxNode::kind), Some(SyntaxKind::LetStmt));
    assert_eq!(toks[2].kind(), SyntaxKind::Ident);
}

#[test]
fn test_tokens_tile_the_node() {
    let root = sample();
    let ts = root.tokens();
    assert!(!ts.is_empty());
    assert_eq!(ts[0].span().lo, root.span().lo);
    for w in ts.windows(2) {
        assert_eq!(w[0].span().hi, w[1].span().lo);
    }
    assert_eq!(ts[ts.len() - 1].span().hi, root.span().hi);
    let total: usize = ts.iter().map(|t| t.text().len()).sum();
    assert_eq!(total, root.span().hi - root.span().lo);
}
