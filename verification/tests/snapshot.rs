use axiom_parser::green::GreenNodeBuilder;
use axiom_parser::snapshot::serialize;
use axiom_parser::syntax::SyntaxNode;
use axiom_parser::syntax_kind::SyntaxKind;

fn sample() -> SyntaxNode {
    let mut b = GreenNodeBuilder::new();
    b.start_node(SyntaxKind::SourceFile);
    b.start_node(SyntaxKind::LetStmt);
    b.token(SyntaxKind::KwLet, "let".to_string());
    b.token(SyntaxKind::Whitespace, " ".to_string());
    b.token(SyntaxKind::Ident, "x".to_string());
    b.finish_node();
    b.finish_node();
    SyntaxNode::new_root(b.finish())
}

#[test]
fn test_serialize_indented_tree() {
    let out = serialize(&sample());
    assert_eq!(
        out,
        "SourceFile @ 0..5\n  \
         LetStmt @ 0..5\n    \
         KwLet @ 0..3 \"let\"\n    \
         Whitespace @ 3..4 \" \"\n    \
         Ident @ 4..5 \"x\"\n"
    );
}

#[test]
fn test_serialize_escapes_token_text() {
    let mut b = GreenNodeBuilder::new();
    b.start_node(SyntaxKind::SourceFile);
    b.token(SyntaxKind::StrLit, "\"a\\b\"".to_string());
    b.token(SyntaxKind::Newline, "\n".to_string());
    b.token(SyntaxKind::Whitespace, "\t\r".to_string());
    b.token(SyntaxKind::Unknown, "\u{1}\u{7f}\0".to_string());
    b.finish_node();
    let out = serialize(&SyntaxNode::new_root(b.finish()));
    assert_eq!(
        out,
        "SourceFile @ 0..11\n  \
         StrLit @ 0..5 \"\\\"a\\\\b\\\"\"\n  \
         Newline @ 5..6 \"\\n\"\n  \
         Whitespace @ 6..8 \"\\t\\r\"\n  \
         Unknown @ 8..11 \"\\u{1}\\u{7f}\\0\"\n"
    );
}

#[test]
fn test_serialize_empty_tree() {
    let root = SyntaxNode::new_root(GreenNodeBuilder::new().finish());
    assert_eq!(serialize(&root), "SourceFile @ 0..0\n");
}
