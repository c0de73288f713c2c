use axiom_parser::ast::{
    AstNode, BinExpr, ExprStmt, FnDef, LetStmt, SourceFile, StructDef,
};
use axiom_parser::event::{build_tree, Event};
use axiom_parser::grammar::expr_start_kinds;
use axiom_parser::{check_all, parse, reconstruct, serialize, ParseResult, Span, SyntaxElement, SyntaxKind, SyntaxNode, Token};

// ── a small tokenizer for test sources ──────────────────────────────────────

fn keyword(word: &str) -> Option<SyntaxKind> {
    let k = match word {
        "val" => SyntaxKind::KwVal,
        "var" => SyntaxKind::KwVar,
        "fn" => SyntaxKind::KwFn,
        "struct" => SyntaxKind::KwStruct,
        "enum" => SyntaxKind::KwEnum,
        "trait" => SyntaxKind::KwTrait,
        "impl" => SyntaxKind::KwImpl,
        "let" => SyntaxKind::KwLet,
        "inout" => SyntaxKind::KwInout,
        "sink" => SyntaxKind::KwSink,
        "match" => SyntaxKind::KwMatch,
        "if" => SyntaxKind::KwIf,
        "else" => SyntaxKind::KwElse,
        "loop" => SyntaxKind::KwLoop,
        "break" => SyntaxKind::KwBreak,
        "continue" => SyntaxKind::KwContinue,
        "return" => SyntaxKind::KwReturn,
        "try" => SyntaxKind::KwTry,
        "catch" => SyntaxKind::KwCatch,
        "errdefer" => SyntaxKind::KwErrdefer,
        "error" => SyntaxKind::KwError,
        "panic" => SyntaxKind::KwPanic,
        "mod" => SyntaxKind::KwMod,
        "use" => SyntaxKind::KwUse,
        "pub" => SyntaxKind::KwPub,
        "scope" => SyntaxKind::KwScope,
        "spawn" => SyntaxKind::KwSpawn,
        "true" => SyntaxKind::KwTrue,
        "false" => SyntaxKind::KwFalse,
        "self" => SyntaxKind::KwSelf,
        "Self" => SyntaxKind::KwSelfType,
        "super" => SyntaxKind::KwSuper,
        "crate" => SyntaxKind::KwCrate,
        "as" => SyntaxKind::KwAs,
        "in" => SyntaxKind::KwIn,
        "is" => SyntaxKind::KwIs,
        "subscript" => SyntaxKind::KwSubscript,
        "yield" => SyntaxKind::KwYield,
        _ => return None,
    };
    Some(k)
}

const PUNCT: &[(&str, SyntaxKind)] = &[
    ("..=", SyntaxKind::DotDotEq),
    ("::", SyntaxKind::ColonColon),
    ("->", SyntaxKind::Arrow),
    ("=>", SyntaxKind::FatArrow),
    ("==", SyntaxKind::EqEq),
    ("!=", SyntaxKind::Ne),
    ("<=", SyntaxKind::Le),
    (">=", SyntaxKind::Ge),
    ("&&", SyntaxKind::AmpAmp),
    ("||", SyntaxKind::PipePipe),
    ("<<", SyntaxKind::Shl),
    (">>", SyntaxKind::Shr),
    ("..", SyntaxKind::DotDot),
    ("+=", SyntaxKind::PlusEq),
    ("-=", SyntaxKind::MinusEq),
    ("*=", SyntaxKind::StarEq),
    ("/=", SyntaxKind::SlashEq),
    ("%=", SyntaxKind::PercentEq),
    ("(", SyntaxKind::LParen),
    (")", SyntaxKind::RParen),
    ("[", SyntaxKind::LBracket),
    ("]", SyntaxKind::RBracket),
    ("{", SyntaxKind::LBrace),
    ("}", SyntaxKind::RBrace),
    (",", SyntaxKind::Comma),
    (";", SyntaxKind::Semicolon),
    (":", SyntaxKind::Colon),
    (".", SyntaxKind::Dot),
    ("+", SyntaxKind::Plus),
    ("-", SyntaxKind::Minus),
    ("*", SyntaxKind::Star),
    ("/", SyntaxKind::Slash),
    ("%", SyntaxKind::Percent),
    ("&", SyntaxKind::Amp),
    ("|", SyntaxKind::Pipe),
    ("^", SyntaxKind::Caret),
    ("!", SyntaxKind::Bang),
    ("=", SyntaxKind::Eq),
    ("<", SyntaxKind::Lt),
    (">", SyntaxKind::Gt),
    ("?", SyntaxKind::Question),
];

fn is_ident_char(c: char) -> bool {
    c.is_alphanumeric() || c == '_'
}

/// Split `src` into tokens covering it exactly, followed by `Eof`.
fn lex(src: &str) -> Vec<Token> {
    let mut out = Vec::new();
    let mut pos = 0;
    while pos < src.len() {
        let rest = &src[pos..];
        let c = rest.chars().next().unwrap_or(' ');
        let (kind, len) = if c == '\n' {
            (SyntaxKind::Newline, 1)
        } else if c == ' ' || c == '\t' || c == '\r' {
            let n = rest.find(|ch: char| ch != ' ' && ch != '\t' && ch != '\r').unwrap_or(rest.len());
            (SyntaxKind::Whitespace, n)
        } else if rest.starts_with("//") {
            let n = rest.find('\n').unwrap_or(rest.len());
            let kind = if rest.starts_with("///") { SyntaxKind::DocComment } else { SyntaxKind::LineComment };
            (kind, n)
        } else if rest.starts_with("/*") {
            let n = rest[2..].find("*/").map(|i| i + 4).unwrap_or(rest.len());
            (SyntaxKind::BlockComment, n)
        } else if rest.starts_with("b'") {
            let n = rest[2..].find('\'').map(|i| i + 3).unwrap_or(rest.len());
            (SyntaxKind::ByteLit, n)
        } else if c.is_alphabetic() || c == '_' {
            let n = rest.find(|ch: char| !is_ident_char(ch)).unwrap_or(rest.len());
            (keyword(&rest[..n]).unwrap_or(SyntaxKind::Ident), n)
        } else if c.is_ascii_digit() {
            let mut n = rest.find(|ch: char| !ch.is_ascii_digit()).unwrap_or(rest.len());
            let after = &rest[n..];
            if after.starts_with('.') && after[1..].starts_with(|ch: char| ch.is_ascii_digit()) {
                n += 1 + after[1..].find(|ch: char| !ch.is_ascii_digit()).unwrap_or(after.len() - 1);
                (SyntaxKind::FloatLit, n)
            } else {
                (SyntaxKind::IntLit, n)
            }
        } else if c == '"' {
            let mut n = 1;
            let mut escaped = false;
            let mut closed = false;
            for ch in rest[1..].chars() {
                n += ch.len_utf8();
                if escaped {
                    escaped = false;
                } else if ch == '\\' {
                    escaped = true;
                } else if ch == '"' {
                    closed = true;
                    break;
                }
            }
            let _ = closed;
            (SyntaxKind::StrLit, n)
        } else if c == '\'' && rest[1..].starts_with(|ch: char| ch.is_alphabetic() || ch == '_') {
            let n = 1 + rest[1..].find(|ch: char| !is_ident_char(ch)).unwrap_or(rest.len() - 1);
            (SyntaxKind::Label, n)
        } else if let Some((p, k)) = PUNCT.iter().find(|(p, _)| rest.starts_with(p)) {
            (*k, p.len())
        } else {
            (SyntaxKind::Unknown, c.len_utf8())
        };
        out.push(Token::new(kind, rest[..len].to_string(), Span { lo: pos, hi: pos + len }));
        pos += len;
    }
    out.push(Token::new(SyntaxKind::Eof, String::new(), Span { lo: src.len(), hi: src.len() }));
    out
}

fn parse_src(src: &str) -> ParseResult {
    parse(&lex(src))
}

fn assert_total(source: &str) {
    let tokens = lex(source);
    let result = parse(&tokens);
    if let Err(reason) = check_all(&result.tree, source, &tokens) {
        panic!("invariant failed on input {source:?}: {reason:?}");
    }
    assert_eq!(reconstruct(&result.tree), source);
}

// ── grammar ─────────────────────────────────────────────────────────────────

/// A representative source snippet for each expression-start kind.
fn snippet_for(kind: SyntaxKind) -> &'static str {
    match kind {
        SyntaxKind::IntLit => "1",
        SyntaxKind::FloatLit => "1.0",
        SyntaxKind::ByteLit => "b'a'",
        SyntaxKind::StrLit => "\"s\"",
        SyntaxKind::KwTrue => "true",
        SyntaxKind::KwFalse => "false",
        SyntaxKind::Ident => "x",
        SyntaxKind::KwSelf => "self",
        SyntaxKind::KwSelfType => "Self",
        SyntaxKind::LParen => "(x)",
        SyntaxKind::LBracket => "[x]",
        SyntaxKind::LBrace => "{ }",
        SyntaxKind::KwIf => "if x { }",
        SyntaxKind::KwMatch => "match x { }",
        SyntaxKind::KwLoop => "loop { }",
        SyntaxKind::Label => "'l: loop { }",
        SyntaxKind::KwScope => "scope { }",
        SyntaxKind::Pipe => "|a| a",
        SyntaxKind::PipePipe => "|| x",
        SyntaxKind::Minus => "-x",
        SyntaxKind::Bang => "!x",
        SyntaxKind::KwTry => "try x",
        SyntaxKind::KwReturn => "return",
        SyntaxKind::KwBreak => "break",
        SyntaxKind::KwContinue => "continue",
        other => panic!("EXPR_START gained {other:?} with no test snippet — add one"),
    }
}

#[test]
fn test_expr_start_matches_primary_dispatch() {
    for kind in expr_start_kinds() {
        let src = format!("fn f() {{ {} }}", snippet_for(kind));
        let result = parse_src(&src);
        let resync: Vec<_> = result
            .errors
            .iter()
            .filter(|e| e.message.contains("expected a statement"))
            .collect();
        assert!(
            resync.is_empty(),
            "{kind:?} is in EXPR_START but `primary`/`lhs_inner` did not accept it as a statement (got resync diagnostics: {resync:?})",
        );
    }
}

#[test]
fn test_statement_garbage_run_collapses_to_one_error() {
    let result = parse_src("fn f() {\n    @ @ @ val x = 1\n}\n");
    let resync: Vec<_> = result
        .errors
        .iter()
        .filter(|e| e.message.contains("expected a statement"))
        .collect();
    assert_eq!(resync.len(), 1, "garbage run should yield exactly one diagnostic, got {:?}", result.errors);
    let dump = serialize(&result.tree);
    assert_eq!(dump.matches("Error @").count(), 1, "garbage run should collapse to one Error node:\n{dump}");
    assert!(dump.contains("LetStmt @"), "val binding should still parse:\n{dump}");
}

/// Parse `src` as the annotated type of a parameter and return the tree dump.
fn dump_param_ty(src: &str) -> String {
    let result = parse_src(&format!("fn f(x: {src}) {{ }}\n"));
    assert!(result.errors.is_empty(), "unexpected parse errors for `{src}`: {:?}", result.errors);
    serialize(&result.tree)
}

#[test]
fn test_slice_type_parses() {
    let dump = dump_param_ty("[U8]");
    assert!(dump.contains("SliceType @"), "expected SliceType node:\n{dump}");
}

#[test]
fn test_slice_type_element_is_path() {
    let dump = dump_param_ty("[U8]");
    let slice_pos = dump.find("SliceType @").expect("SliceType present");
    assert!(dump[slice_pos..].contains("PathType @"), "slice element should be a PathType:\n{dump}");
}

#[test]
fn test_nested_slice_type_parses() {
    let dump = dump_param_ty("[[Int]]");
    assert_eq!(dump.matches("SliceType @").count(), 2, "expected two nested SliceType nodes:\n{dump}");
}

#[test]
fn test_nested_generics_split_shift_token() {
    let dump = dump_param_ty("Map<K, List<V>>");
    assert_eq!(dump.matches("GenericArgList @").count(), 2, "{dump}");
    assert_eq!(dump.matches("Gt @").count(), 2, "`>>` should become two `>` leaves:\n{dump}");
    assert!(!dump.contains("Shr @"), "{dump}");
}

#[test]
fn test_split_generics_pass_every_check() {
    assert_total("fn f(m: Map<K, List<V>>) {}\n");
}

#[test]
fn test_parse_is_lossless_on_a_program() {
    let src = "// header\nfn main(x: Int) -> Int {\n    val y = x * 2 + 1; // note\n    if y > 3 { return y } else { y }\n}\n";
    assert_total(src);
    let result = parse_src(src);
    assert!(result.errors.is_empty(), "{:?}", result.errors);
    assert_eq!(result.tree.kind(), SyntaxKind::SourceFile);
}

#[test]
fn test_missing_closer_reports_expected() {
    let result = parse_src("fn f( {}");
    assert!(result.errors.iter().any(|e| e.message == "expected RParen, found LBrace"), "{:?}", result.errors);
}

// ── precedence and associativity ────────────────────────────────────────────

/// Parse source and return the root `SourceFile` node.
fn tree(src: &str) -> SourceFile {
    let result = parse_src(src);
    assert!(result.errors.is_empty(), "parse errors: {:?}", result.errors);
    SourceFile::cast(result.tree).unwrap()
}

/// Find the first node of the given kind in pre-order traversal.
fn find_node(node: &SyntaxNode, kind: SyntaxKind) -> Option<SyntaxNode> {
    if node.kind() == kind {
        return Some(node.clone());
    }
    for child in node.child_nodes() {
        if let Some(found) = find_node(&child, kind) {
            return Some(found);
        }
    }
    None
}

/// Get the operator token text from a BinExpr or AssignExpr.
fn bin_op(expr: &SyntaxNode) -> String {
    expr.children()
        .into_iter()
        .find_map(|elem| match elem {
            SyntaxElement::Token(t)
                if matches!(
                    t.kind(),
                    SyntaxKind::Plus
                        | SyntaxKind::Minus
                        | SyntaxKind::Star
                        | SyntaxKind::Slash
                        | SyntaxKind::Percent
                        | SyntaxKind::Lt
                        | SyntaxKind::Le
                        | SyntaxKind::Gt
                        | SyntaxKind::Ge
                        | SyntaxKind::EqEq
                        | SyntaxKind::Ne
                        | SyntaxKind::AmpAmp
                        | SyntaxKind::PipePipe
                        | SyntaxKind::Amp
                        | SyntaxKind::Pipe
                        | SyntaxKind::Caret
                        | SyntaxKind::Shl
                        | SyntaxKind::Shr
                        | SyntaxKind::DotDot
                        | SyntaxKind::Eq
                ) =>
            {
                Some(t.text().to_string())
            }
            _ => None,
        })
        .expect("expression must have an operator token")
}

fn first_child_of_kind(node: &SyntaxNode, kind: SyntaxKind) -> SyntaxNode {
    node.child_nodes().into_iter().find(|c| c.kind() == kind).unwrap()
}

#[test]
fn precedence_mul_binds_tighter_than_add() {
    let root = tree("fn f() { 1 + 2 * 3 }");
    let bin = find_node(root.syntax(), SyntaxKind::BinExpr).unwrap();
    assert_eq!(bin_op(&bin), "+");
    let rhs = first_child_of_kind(&bin, SyntaxKind::BinExpr);
    assert_eq!(bin_op(&rhs), "*");
}

#[test]
fn precedence_div_binds_tighter_than_sub() {
    let root = tree("fn f() { 10 - 6 / 2 }");
    let bin = find_node(root.syntax(), SyntaxKind::BinExpr).unwrap();
    assert_eq!(bin_op(&bin), "-");
    let rhs = first_child_of_kind(&bin, SyntaxKind::BinExpr);
    assert_eq!(bin_op(&rhs), "/");
}

#[test]
fn precedence_comparison_looser_than_arithmetic() {
    let root = tree("fn f() { 1 + 2 > 3 * 4 }");
    let bin = find_node(root.syntax(), SyntaxKind::BinExpr).unwrap();
    assert_eq!(bin_op(&bin), ">");
    let children: Vec<SyntaxNode> =
        bin.child_nodes().into_iter().filter(|c| c.kind() == SyntaxKind::BinExpr).collect();
    assert_eq!(children.len(), 2, "must have two child BinExpr nodes");
    assert_eq!(bin_op(&children[0]), "+");
    assert_eq!(bin_op(&children[1]), "*");
}

#[test]
fn precedence_logical_and_binds_tighter_than_or() {
    let root = tree("fn f() { a || b && c }");
    let bin = find_node(root.syntax(), SyntaxKind::BinExpr).unwrap();
    assert_eq!(bin_op(&bin), "||");
    let rhs = first_child_of_kind(&bin, SyntaxKind::BinExpr);
    assert_eq!(bin_op(&rhs), "&&");
}

#[test]
fn precedence_bitand_binds_tighter_than_comparison() {
    let root = tree("fn f() { a & b == c }");
    let bin = find_node(root.syntax(), SyntaxKind::BinExpr).unwrap();
    assert_eq!(bin_op(&bin), "==");
    let lhs = first_child_of_kind(&bin, SyntaxKind::BinExpr);
    assert_eq!(bin_op(&lhs), "&");
}

#[test]
fn precedence_add_binds_tighter_than_shift() {
    let root = tree("fn f() { 1 + 2 << 3 }");
    let bin = find_node(root.syntax(), SyntaxKind::BinExpr).unwrap();
    assert_eq!(bin_op(&bin), "<<");
    let lhs = first_child_of_kind(&bin, SyntaxKind::BinExpr);
    assert_eq!(bin_op(&lhs), "+");
}

#[test]
fn associativity_add_is_left() {
    let root = tree("fn f() { 1 + 2 + 3 }");
    let bin = find_node(root.syntax(), SyntaxKind::BinExpr).unwrap();
    assert_eq!(bin_op(&bin), "+");
    let lhs = first_child_of_kind(&bin, SyntaxKind::BinExpr);
    assert_eq!(bin_op(&lhs), "+");
    assert!(
        bin.child_nodes().into_iter().any(|c| c.kind() == SyntaxKind::LiteralExpr),
        "RHS must be a literal"
    );
}

#[test]
fn associativity_mul_is_left() {
    let root = tree("fn f() { 2 * 3 * 4 }");
    let bin = find_node(root.syntax(), SyntaxKind::BinExpr).unwrap();
    assert_eq!(bin_op(&bin), "*");
    let lhs = first_child_of_kind(&bin, SyntaxKind::BinExpr);
    assert_eq!(bin_op(&lhs), "*");
}

#[test]
fn associativity_assign_is_right() {
    let root = tree("fn f() { a = b = c }");
    let assign = find_node(root.syntax(), SyntaxKind::AssignExpr).unwrap();
    assert_eq!(bin_op(&assign), "=");
    let rhs = first_child_of_kind(&assign, SyntaxKind::AssignExpr);
    assert_eq!(bin_op(&rhs), "=");
}

#[test]
fn associativity_range_is_right() {
    let root = tree("fn f() { 1..2..3 }");
    let range = find_node(root.syntax(), SyntaxKind::RangeExpr).unwrap();
    assert_eq!(bin_op(&range), "..");
    let lhs = first_child_of_kind(&range, SyntaxKind::RangeExpr);
    assert_eq!(bin_op(&lhs), "..");
}

#[test]
fn mixed_precedence_chain() {
    let root = tree("fn f() { 1 + 2 * 3 - 4 / 2 }");
    let bin = find_node(root.syntax(), SyntaxKind::BinExpr).unwrap();
    assert_eq!(bin_op(&bin), "-");
    let lhs = first_child_of_kind(&bin, SyntaxKind::BinExpr);
    assert_eq!(bin_op(&lhs), "+");
    let lhs_rhs = first_child_of_kind(&lhs, SyntaxKind::BinExpr);
    assert_eq!(bin_op(&lhs_rhs), "*");
    let rhs = bin
        .child_nodes()
        .into_iter()
        .filter(|c| c.kind() == SyntaxKind::BinExpr)
        .last()
        .unwrap();
    assert_eq!(bin_op(&rhs), "/");
}

// ── totality ────────────────────────────────────────────────────────────────

/// Deterministic xorshift64 PRNG (fixed seed, reproducible failures).
struct Rng(u64);

impl Rng {
    fn next_u64(&mut self) -> u64 {
        let mut x = self.0;
        x ^= x << 13;
        x ^= x >> 7;
        x ^= x << 17;
        self.0 = x;
        x
    }

    fn pick<T: Copy>(&mut self, items: &[T]) -> T {
        items[(self.next_u64() as usize) % items.len()]
    }
}

/// Characters biased toward parser edge cases.
const POOL: &[char] = &[
    'a', 'Z', '_', '0', '9', ' ', '\n', '"', '\\', '/', '*', '.', '=', '<', '>', '&', '|', '^',
    '!', '+', '-', '%', ':', ';', '(', ')', '{', '}', '[', ']', ',', 'é', '😀',
];

/// Real token fragments, so the grammar's productions actually fire.
const FRAGMENTS: &[&str] = &[
    "fn", "struct", "enum", "trait", "impl", "val", "var", "let", "inout", "sink", "match", "if",
    "else", "loop", "return", "try", "catch", "mod", "use", "pub", "scope", "const", "for", "in",
    "as", "->", "=>", "::", "..", "..=", "||", "&&", "==", "(", ")", "{", "}", "[", "]", "<", ">",
    "x", "Foo", "42", "1.5", "\"s\"", ".", ",", ":", ";", "=", "+", "self", "Self",
];

fn random_chars(rng: &mut Rng, max_len: usize) -> String {
    let len = (rng.next_u64() as usize) % max_len;
    (0..len).map(|_| rng.pick(POOL)).collect()
}

fn random_program(rng: &mut Rng, max_frags: usize) -> String {
    let n = (rng.next_u64() as usize) % max_frags;
    let mut s = String::new();
    for _ in 0..n {
        s.push_str(rng.pick(FRAGMENTS));
        s.push(' ');
    }
    s
}

#[test]
fn fuzz_char_soup_is_total() {
    let mut rng = Rng(0x5EED_0000_0000_0001);
    for _ in 0..20_000 {
        assert_total(&random_chars(&mut rng, 80));
    }
}

#[test]
fn fuzz_token_fragments_is_total() {
    let mut rng = Rng(0xA11CE_u64.wrapping_mul(0x9E37_79B9));
    for _ in 0..20_000 {
        assert_total(&random_program(&mut rng, 40));
    }
}

#[test]
fn adversarial_inputs_are_total() {
    let cases = [
        "",
        "{",
        "}",
        "((((((((((",
        "fn fn fn fn",
        "struct S {",
        "match x {",
        "fn f() { val x = ",
        "impl T for ",
        "use a::b::{c, d::{e",
        "1 + + + 2",
        "|||||",
        "..=..=..=",
        "fn f<T: A + B + >() {}",
    ];
    for case in cases {
        assert_total(case);
    }
}

#[test]
fn deeply_nested_input_terminates() {
    let deep = "fn f() ".to_string() + &"{ if x ".repeat(300) + &"{}".repeat(300);
    assert_total(&deep);
    let wide = "fn f() { ".to_string() + &"a + ".repeat(1_000) + "b }";
    assert_total(&wide);
}

// ── tree building from events ───────────────────────────────────────────────

/// `a + b` as a left-assoc BinExpr wrapping two LiteralExprs, wrapped in a
/// SourceFile root, as the Pratt loop would emit it.
fn wrapped_bin_expr_events() -> Vec<Event> {
    vec![
        Event::Start { kind: SyntaxKind::SourceFile, forward_parent: None },
        Event::Start { kind: SyntaxKind::LiteralExpr, forward_parent: Some(4) },
        Event::Token,
        Event::Finish,
        Event::Start { kind: SyntaxKind::BinExpr, forward_parent: None },
        Event::Token,
        Event::Start { kind: SyntaxKind::LiteralExpr, forward_parent: None },
        Event::Token,
        Event::Finish,
        Event::Finish,
        Event::Finish,
    ]
}

#[test]
fn test_forward_parent_wraps_lhs() {
    let src = "a + b";
    let tokens = lex(src);
    let green = build_tree(wrapped_bin_expr_events(), &tokens);
    let root = SyntaxNode::new_root(green);
    assert_eq!(root.child_nodes()[0].kind(), SyntaxKind::BinExpr);
    assert_eq!(check_all(&root, src, &tokens), Ok(()));
}

fn count_nodes(n: &SyntaxNode) -> usize {
    1 + n.child_nodes().iter().map(count_nodes).sum::<usize>()
}

#[test]
fn test_build_tree_opens_one_node_per_start() {
    let tokens = lex("a + b");
    let root = SyntaxNode::new_root(build_tree(wrapped_bin_expr_events(), &tokens));
    assert_eq!(count_nodes(&root), 4);
    let bin = &root.child_nodes()[0];
    let kids: Vec<SyntaxKind> = bin.child_nodes().iter().map(|c| c.kind()).collect();
    assert_eq!(kids, vec![SyntaxKind::LiteralExpr, SyntaxKind::LiteralExpr]);
}

#[test]
fn test_trivia_only_input_attaches_to_root() {
    let src = "// just a comment\n";
    let tokens = lex(src);
    let events = vec![Event::Start { kind: SyntaxKind::SourceFile, forward_parent: None }, Event::Finish];
    let root = SyntaxNode::new_root(build_tree(events, &tokens));
    assert_eq!(check_all(&root, src, &tokens), Ok(()));
    assert!(!root.tokens().is_empty());
}

#[test]
fn test_leading_and_trailing_trivia_preserved() {
    let src = "  a + b  \n";
    let tokens = lex(src);
    let root = SyntaxNode::new_root(build_tree(wrapped_bin_expr_events(), &tokens));
    assert_eq!(check_all(&root, src, &tokens), Ok(()));
}

#[test]
fn test_split_event_divides_a_token() {
    let src = ">>";
    let tokens = lex(src);
    let events = vec![
        Event::Start { kind: SyntaxKind::SourceFile, forward_parent: None },
        Event::Split { first: SyntaxKind::Gt, rest: SyntaxKind::Gt },
        Event::Token,
        Event::Finish,
    ];
    let root = SyntaxNode::new_root(build_tree(events, &tokens));
    assert_eq!(serialize(&root), "SourceFile @ 0..2\n  Gt @ 0..1 \">\"\n  Gt @ 1..2 \">\"\n");
}

// ── typed views over parsed sources ─────────────────────────────────────────

fn first_fn(result: &ParseResult) -> FnDef {
    result.tree.child_nodes().into_iter().find_map(FnDef::cast).expect("should have a FnDef")
}

fn fn_def_name_accessor() {
    let result = parse_src("fn greet() {}");
    let name = first_fn(&result).name().expect("FnDef should have a name");
    assert_eq!(name.text(), Some("greet".to_string()));
}

#[test]
fn ast_test_fn_def_name_accessor() {
    fn_def_name_accessor();
}

#[test]
fn tests_test_fn_def_name_accessor() {
    fn_def_name_accessor();
}

fn fn_def_name_skips_trivia() {
    let result = parse_src("fn   spaced() {}");
    let name = first_fn(&result).name().expect("FnDef should have a name");
    assert_eq!(name.text(), Some("spaced".to_string()));
}

#[test]
fn ast_test_fn_def_name_skips_trivia() {
    fn_def_name_skips_trivia();
}

#[test]
fn tests_test_fn_def_name_skips_trivia() {
    fn_def_name_skips_trivia();
}

fn fn_def_param_list() {
    let result = parse_src("fn add(x: i32, y: i32) -> i32 {}");
    let params = first_fn(&result).param_list().expect("should have param list");
    assert_eq!(params.params().len(), 2);
}

#[test]
fn ast_test_fn_def_param_list() {
    fn_def_param_list();
}

#[test]
fn tests_test_fn_def_param_list() {
    fn_def_param_list();
}

fn fn_def_ret_type() {
    let result = parse_src("fn inc(x: i32) -> i32 { x }");
    assert!(first_fn(&result).ret_type().is_some(), "should have a return type");
}

#[test]
fn ast_test_fn_def_ret_type() {
    fn_def_ret_type();
}

#[test]
fn tests_test_fn_def_ret_type() {
    fn_def_ret_type();
}

fn struct_def_name_and_fields() {
    let result = parse_src("struct Point { x: f64, y: f64 }");
    let def = result.tree.child_nodes().into_iter().find_map(StructDef::cast).expect("should have a StructDef");
    assert_eq!(def.name().and_then(|n| n.text()), Some("Point".to_string()));
    let fields = def.field_list().expect("should have field list").fields();
    assert_eq!(fields.len(), 2);
}

#[test]
fn ast_test_struct_def_name_and_fields() {
    struct_def_name_and_fields();
}

#[test]
fn tests_test_struct_def_name_and_fields() {
    struct_def_name_and_fields();
}

fn let_stmt_accessors() {
    let result = parse_src("fn f() { val x: i32 = 1 }");
    let body = first_fn(&result).body().expect("body");
    let stmt = body.stmts().into_iter().find_map(LetStmt::cast).expect("LetStmt");
    let kw = stmt.binding_kw().expect("binding keyword");
    assert_eq!(kw.kind(), SyntaxKind::KwVal);
    assert!(stmt.pattern().is_some(), "should have a pattern");
    assert!(stmt.ty().is_some(), "should have a type annotation");
    assert!(stmt.value().is_some(), "should have an initializer");
}

#[test]
fn ast_test_let_stmt_accessors() {
    let_stmt_accessors();
}

#[test]
fn tests_test_let_stmt_accessors() {
    let_stmt_accessors();
}

fn bin_expr_operands_and_operator() {
    let result = parse_src("fn f() { 1 + 2 }");
    let body = first_fn(&result).body().expect("body");
    let expr_stmt = body.stmts().into_iter().find_map(ExprStmt::cast).expect("ExprStmt");
    let bin = BinExpr::cast(expr_stmt.expr().expect("ExprStmt has expr")).expect("BinExpr");
    assert!(bin.lhs().is_some(), "lhs should exist");
    assert!(bin.rhs().is_some(), "rhs should exist");
    let op = bin.op_token().expect("operator token");
    assert_eq!(op.kind(), SyntaxKind::Plus);
}

#[test]
fn ast_test_bin_expr_operands_and_operator() {
    bin_expr_operands_and_operator();
}

#[test]
fn tests_test_bin_expr_operands_and_operator() {
    bin_expr_operands_and_operator();
}

fn name_text() {
    let result = parse_src("fn hello() {}");
    let name = first_fn(&result).name().expect("name");
    assert_eq!(name.ident_token().map(|t| t.kind()), Some(SyntaxKind::Ident));
    assert_eq!(name.text(), Some("hello".to_string()));
}

#[test]
fn ast_test_name_text() {
    name_text();
}

#[test]
fn tests_test_name_text() {
    name_text();
}

fn source_file_items_excludes_error_nodes() {
    let result = parse_src("@ fn f() {}");
    let sf = SourceFile::cast(result.tree).expect("SourceFile");
    let items = sf.items();
    assert!(items.iter().all(|n| n.kind() != SyntaxKind::Error), "items() must exclude Error nodes");
    assert_eq!(items.len(), 1, "only the fn should be an item");
}

#[test]
fn ast_test_source_file_items_excludes_error_nodes() {
    source_file_items_excludes_error_nodes();
}

#[test]
fn tests_test_source_file_items_excludes_error_nodes() {
    source_file_items_excludes_error_nodes();
}

#[test]
fn test_trivia_tokens_land_in_order_with_their_kinds() {
    let src = "// head\nfn f( ) { /* body */ }\n";
    let tokens = lex(src);
    let result = parse(&tokens);
    let in_tree: Vec<(SyntaxKind, String)> = result
        .tree
        .tokens()
        .iter()
        .filter(|t| t.kind().is_trivia())
        .map(|t| (t.kind(), t.text().to_string()))
        .collect();
    let in_stream: Vec<(SyntaxKind, String)> = tokens
        .iter()
        .filter(|t| t.kind.is_trivia())
        .map(|t| (t.kind, t.text.clone()))
        .collect();
    assert_eq!(in_tree, in_stream);
    assert_eq!(in_tree.len(), 9);
}

fn has_kind(n: &SyntaxNode, k: SyntaxKind) -> bool {
    n.kind() == k || n.child_nodes().iter().any(|c| has_kind(c, k))
}

#[test]
fn test_leading_item_keyword_yields_its_node() {
    for (src, k) in [
        ("fn f() {}", SyntaxKind::FnDef),
        ("pub struct S { x: Int }", SyntaxKind::StructDef),
        ("use a::b", SyntaxKind::UseDecl),
    ] {
        let r = parse_src(src);
        assert!(has_kind(&r.tree, k), "{src}");
    }
}

#[test]
fn test_error_nodes_come_with_diagnostics() {
    for src in ["@ fn f() {}", "fn f( {", "struct", "fn f() { 1 + }"] {
        let r = parse_src(src);
        if has_kind(&r.tree, SyntaxKind::Error) {
            assert!(!r.errors.is_empty(), "{src}");
        }
    }
    let clean = parse_src("fn f() { val x = 1 }");
    assert!(clean.errors.is_empty());
    assert!(!has_kind(&clean.tree, SyntaxKind::Error));
}
