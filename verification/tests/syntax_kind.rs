use axiom_parser::lexer_kind::{Keyword, Punct, TokenKind};
use axiom_parser::syntax_kind::SyntaxKind;
use std::collections::HashSet;

#[test]
fn test_labels_unique_and_nonempty() {
    let mut seen = HashSet::new();
    for kind in SyntaxKind::all() {
        let label = kind.label();
        assert!(!label.is_empty(), "empty label for {kind:?}");
        assert!(seen.insert(label), "duplicate label {label:?}");
    }
}

#[test]
fn test_label_is_variant_name() {
    assert_eq!(SyntaxKind::FnDef.label(), "FnDef");
    assert_eq!(SyntaxKind::KwLet.label(), "KwLet");
    assert_eq!(SyntaxKind::IntLit.label(), "IntLit");
}

#[test]
fn test_label_matches_debug_name_for_every_kind() {
    for kind in SyntaxKind::all() {
        assert_eq!(kind.label(), format!("{kind:?}"));
    }
}

#[test]
fn test_group_predicates_partition_the_enum() {
    for kind in SyntaxKind::all() {
        // Every kind is either a token or a node, never both, never neither.
        assert_ne!(kind.is_token(), kind.is_node(), "ambiguous group {kind:?}");
        // Trivia is a strict subset of tokens.
        if kind.is_trivia() {
            assert!(kind.is_token(), "trivia {kind:?} must be a token");
        }
    }
}

#[test]
fn test_keywords_are_tokens_and_not_trivia() {
    for kind in SyntaxKind::all() {
        if kind.is_keyword() {
            assert!(kind.is_token());
            assert!(!kind.is_trivia());
        }
    }
    assert!(SyntaxKind::KwFn.is_keyword());
    assert!(!SyntaxKind::Ident.is_keyword());
    assert!(SyntaxKind::LineComment.is_trivia());
    assert!(SyntaxKind::SourceFile.is_node());
}

#[test]
fn test_all_lists_each_kind_once() {
    let all = SyntaxKind::all();
    let set: HashSet<SyntaxKind> = all.iter().copied().collect();
    assert_eq!(set.len(), all.len());
    assert_eq!(all[0], SyntaxKind::Whitespace);
}

#[test]
fn test_from_lexer_always_yields_a_token_kind() {
    // The bridge must never produce a node kind. Cover every lexer TokenKind.
    let samples = [
        TokenKind::Whitespace,
        TokenKind::Newline,
        TokenKind::LineComment,
        TokenKind::DocComment,
        TokenKind::BlockComment,
        TokenKind::IntLit,
        TokenKind::FloatLit,
        TokenKind::ByteLit,
        TokenKind::StrLit,
        TokenKind::Ident,
        TokenKind::Unknown,
        TokenKind::Eof,
    ];
    for tk in &samples {
        assert!(SyntaxKind::from_lexer(tk).is_token());
    }
    for kw in Keyword::all() {
        assert!(SyntaxKind::from_lexer(&TokenKind::Keyword(kw)).is_token());
    }
    for p in Punct::all() {
        assert!(SyntaxKind::from_lexer(&TokenKind::Punct(p)).is_token());
    }
}

#[test]
fn test_trivia_bridge_matches_lexer_is_trivia() {
    // A token is trivia on the parser side iff it is trivia on the lexer side.
    let trivia = [
        TokenKind::Whitespace,
        TokenKind::Newline,
        TokenKind::LineComment,
        TokenKind::DocComment,
        TokenKind::BlockComment,
    ];
    for tk in &trivia {
        assert!(tk.is_trivia());
        assert!(SyntaxKind::from_lexer(tk).is_trivia());
    }
    assert!(!SyntaxKind::from_lexer(&TokenKind::Ident).is_trivia());
}

#[test]
fn test_from_lexer_maps_keywords_and_punctuation() {
    assert_eq!(SyntaxKind::from_lexer(&TokenKind::Keyword(Keyword::SelfValue)), SyntaxKind::KwSelf);
    assert_eq!(SyntaxKind::from_lexer(&TokenKind::Punct(Punct::Shr)), SyntaxKind::Shr);
    assert_eq!(SyntaxKind::from_lexer(&TokenKind::Label), SyntaxKind::Label);
    assert_eq!(Keyword::all().len(), 38);
    assert_eq!(Punct::all().len(), 41);
}
