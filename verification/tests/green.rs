use axiom_parser::green::{GreenChild, GreenNodeBuilder};
use axiom_parser::syntax_kind::SyntaxKind;

#[test]
fn test_builds_nested_tree_with_lengths() {
    // SourceFile { LetStmt { KwLet "let" Whitespace " " Ident "x" } }
    let mut b = GreenNodeBuilder::new();
    b.start_node(SyntaxKind::SourceFile);
    b.start_node(SyntaxKind::LetStmt);
    b.token(SyntaxKind::KwLet, "let".to_string());
    b.token(SyntaxKind::Whitespace, " ".to_string());
    b.token(SyntaxKind::Ident, "x".to_string());
    b.finish_node();
    b.finish_node();
    let root = b.finish();

    assert_eq!(root.kind, SyntaxKind::SourceFile);
    assert_eq!(root.text_len(), 5); // "let" + " " + "x"
    assert_eq!(root.children.len(), 1);
    let GreenChild::Node(n) = &root.children[0] else {
        unreachable!("expected a node child");
    };
    assert_eq!(n.kind, SyntaxKind::LetStmt);
    assert_eq!(n.children.len(), 3);
    assert_eq!(n.text_len(), 5);
}

#[test]
fn test_empty_build_yields_empty_source_file() {
    let root = GreenNodeBuilder::new().finish();
    assert_eq!(root.kind, SyntaxKind::SourceFile);
    assert_eq!(root.text_len(), 0);
}

#[test]
fn test_token_outside_any_node_is_ignored() {
    let mut b = GreenNodeBuilder::new();
    b.token(SyntaxKind::Ident, "lost".to_string());
    b.start_node(SyntaxKind::SourceFile);
    b.token(SyntaxKind::Ident, "kept".to_string());
    b.finish_node();
    let root = b.finish();
    assert_eq!(root.text_len(), 4);
    assert_eq!(root.children.len(), 1);
}

#[test]
fn test_child_lengths_sum_to_parent_length() {
    let mut b = GreenNodeBuilder::new();
    b.start_node(SyntaxKind::SourceFile);
    b.token(SyntaxKind::Ident, "héllo".to_string());
    b.start_node(SyntaxKind::Name);
    b.token(SyntaxKind::Ident, "ü".to_string());
    b.finish_node();
    b.finish_node();
    let root = b.finish();
    let total: usize = root.children.iter().map(|c| c.text_len()).sum();
    assert_eq!(root.text_len(), total);
    assert_eq!(root.text_len(), 8); // byte lengths, not characters
}

#[test]
fn test_deep_tree_drops_without_stack_overflow() {
    // A degenerate, very deep tree: dropping it must not recurse per level.
    let depth = 200_000;
    let mut b = GreenNodeBuilder::new();
    for _ in 0..depth {
        b.start_node(SyntaxKind::BlockExpr);
    }
    b.token(SyntaxKind::Ident, "x".to_string());
    for _ in 0..depth {
        b.finish_node();
    }
    let root = b.finish();
    assert_eq!(root.kind, SyntaxKind::BlockExpr);
    drop(root);
}
