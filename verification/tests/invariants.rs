use axiom_parser::green::GreenNodeBuilder;
use axiom_parser::invariants::{
    check_all, every_token_present, reconstruct, spans_well_formed, CoverageError, SpanError,
};
use axiom_parser::syntax::SyntaxNode;
use axiom_parser::syntax_kind::SyntaxKind;
use axiom_parser::token::{Span, Token};

fn sample() -> SyntaxNode {
    let mut b = GreenNodeBuilder::new();
    b.start_node(SyntaxKind::SourceFile);
    b.start_node(SyntaxKind::LetStmt);
    b.token(SyntaxKind::KwLet, "let".to_string());
    b.token(SyntaxKind::Whitespace, " ".to_string());
    b.token(SyntaxKind::Ident, "x".to_string());
    b.finish_node();
    b.finish_node();
    SyntaxNode::new_root(b.finish())
}

fn tok(kind: SyntaxKind, text: &str, lo: usize) -> Token {
    Token::new(kind, text.to_string(), Span { lo, hi: lo + text.len() })
}

fn let_x_tokens() -> Vec<Token> {
    vec![
        tok(SyntaxKind::KwLet, "let", 0),
        tok(SyntaxKind::Whitespace, " ", 3),
        tok(SyntaxKind::Ident, "x", 4),
        tok(SyntaxKind::Eof, "", 5),
    ]
}

#[test]
fn test_reconstruct_concatenates_leaves() {
    assert_eq!(reconstruct(&sample()), "let x");
}

#[test]
fn test_spans_well_formed_on_good_tree() {
    assert_eq!(spans_well_formed(&sample(), 5), Ok(()));
}

#[test]
fn test_spans_well_formed_rejects_wrong_source_len() {
    assert!(spans_well_formed(&sample(), 99).is_err());
}

#[test]
fn test_spans_well_formed_names_the_mismatch() {
    assert!(matches!(spans_well_formed(&sample(), 4), Err(SpanError::RootNotWholeSource { .. })));
}

#[test]
fn test_every_token_present_matches_lexer() {
    assert_eq!(every_token_present(&sample(), &let_x_tokens()), Ok(()));
}

#[test]
fn test_every_token_present_reports_a_missing_token() {
    let mut toks = let_x_tokens();
    toks.insert(3, tok(SyntaxKind::Ident, "y", 5));
    assert!(matches!(every_token_present(&sample(), &toks), Err(CoverageError::SignificantTextMismatch { .. })));
}

#[test]
fn test_check_all_green_on_consistent_tree() {
    assert_eq!(check_all(&sample(), "let x", &let_x_tokens()), Ok(()));
}

#[test]
fn test_check_all_reports_a_text_mismatch() {
    assert!(check_all(&sample(), "let y", &let_x_tokens()).is_err());
}

#[test]
fn test_check_all_text_mismatch_message() {
    assert_eq!(
        check_all(&sample(), "let xy", &let_x_tokens()),
        Err("reconstruct mismatch: tree rebuilt 5 bytes, source is 6 bytes".to_string())
    );
}

#[test]
fn test_check_all_reports_a_coverage_error() {
    let toks = vec![
        tok(SyntaxKind::KwLet, "let", 0),
        tok(SyntaxKind::Whitespace, " ", 3),
        tok(SyntaxKind::Ident, "y", 4),
        tok(SyntaxKind::Eof, "", 5),
    ];
    assert_eq!(
        check_all(&sample(), "let x", &toks),
        Err("coverage error: SignificantTextMismatch { tree: \"letx\", lexer: \"lety\" }".to_string())
    );
}

#[test]
fn test_every_token_present_ignores_trivia_and_eof() {
    let toks = vec![
        tok(SyntaxKind::KwLet, "let", 0),
        tok(SyntaxKind::Ident, "x", 3),
        tok(SyntaxKind::Eof, "", 4),
    ];
    assert_eq!(every_token_present(&sample(), &toks), Ok(()));
}

#[test]
fn test_coverage_message_prefixes_the_defect() {
    assert_eq!(
        axiom_parser::invariants::coverage_message("Mismatch"),
        "coverage error: Mismatch".to_string()
    );
}

#[test]
fn test_every_token_present_skips_eof_leaves() {
    let mut b = GreenNodeBuilder::new();
    b.start_node(SyntaxKind::SourceFile);
    b.token(SyntaxKind::Eof, "x".to_string());
    b.finish_node();
    let root = SyntaxNode::new_root(b.finish());
    assert_eq!(every_token_present(&root, &[]), Ok(()));
}

#[test]
fn test_coverage_error_debug_matches_derived_debug() {
    let e = CoverageError::SignificantTextMismatch {
        tree: "a\"b\n".to_string(),
        lexer: "c\\d".to_string(),
    };
    assert_eq!(axiom_parser::invariants::coverage_error_debug(&e), format!("{:?}", e));
    assert_eq!(
        axiom_parser::invariants::coverage_error_debug(&e),
        "SignificantTextMismatch { tree: \"a\\\"b\\n\", lexer: \"c\\\\d\" }"
    );
}

#[test]
fn test_check_all_reports_coverage_debug_text() {
    let toks = vec![
        tok(SyntaxKind::KwLet, "let", 0),
        tok(SyntaxKind::Whitespace, " ", 3),
        tok(SyntaxKind::Ident, "y", 4),
    ];
    let r = check_all(&sample(), "let x", &toks);
    assert_eq!(
        r,
        Err("coverage error: SignificantTextMismatch { tree: \"letx\", lexer: \"lety\" }".to_string())
    );
}
