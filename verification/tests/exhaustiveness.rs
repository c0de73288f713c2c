use axiom_parser::exhaustiveness::{
    check_match_exhaustiveness, IdentPat, MatchArm, NameRef, Pattern, ResolvedName, StructPat,
    TupleStructPat, TypeDiagnostic,
};
use axiom_parser::token::Span;

fn span() -> Span {
    Span { lo: 0, hi: 0 }
}

fn make_match_arms(arms: Vec<Pattern>) -> Vec<MatchArm> {
    arms.into_iter().map(|pattern| MatchArm { pattern, guarded: false }).collect()
}

fn variant(text: &str) -> Pattern {
    Pattern::TupleStruct(TupleStructPat {
        path: NameRef::Resolved(ResolvedName { text: text.into() }),
    })
}

fn ident(name: &str) -> Pattern {
    Pattern::Ident(IdentPat { name: name.into() })
}

fn ab() -> Vec<String> {
    vec!["A".into(), "B".into()]
}

#[test]
fn test_wildcard_covers_all() {
    let arms = make_match_arms(vec![Pattern::Wildcard]);
    let diags = check_match_exhaustiveness(&arms, &ab(), &[], span());
    assert!(diags.is_empty());
}

#[test]
fn test_tuple_struct_covers_one() {
    let arms = make_match_arms(vec![variant("A")]);
    let diags = check_match_exhaustiveness(&arms, &ab(), &[], span());
    assert_eq!(diags.len(), 1);
    assert!(diags[0].message().contains("non-exhaustive"));
}

#[test]
fn test_all_variants_covered() {
    let arms = make_match_arms(vec![variant("A"), variant("B")]);
    let diags = check_match_exhaustiveness(&arms, &ab(), &[], span());
    assert!(diags.is_empty());
}

#[test]
fn test_unit_variant_as_ident() {
    let arms = make_match_arms(vec![ident("A"), ident("B")]);
    let diags = check_match_exhaustiveness(&arms, &ab(), &ab(), span());
    assert!(diags.is_empty());
}

#[test]
fn test_ident_catch_all_covers_all() {
    let arms = make_match_arms(vec![ident("x")]);
    let diags = check_match_exhaustiveness(&arms, &ab(), &[], span());
    assert!(diags.is_empty());
}

#[test]
fn test_or_pattern_union() {
    let arms = make_match_arms(vec![Pattern::Or(vec![variant("A"), variant("B")])]);
    let diags = check_match_exhaustiveness(&arms, &ab(), &[], span());
    assert!(diags.is_empty());
}

#[test]
fn test_guarded_arm_does_not_cover() {
    let arms = vec![MatchArm { pattern: variant("A"), guarded: true }];
    let diags = check_match_exhaustiveness(&arms, &ab(), &[], span());
    assert_eq!(diags.len(), 1);
    assert!(diags[0].message().contains("non-exhaustive"));
}

#[test]
fn test_guarded_arm_plus_wildcard_is_exhaustive() {
    let arms = vec![
        MatchArm { pattern: variant("A"), guarded: true },
        MatchArm { pattern: Pattern::Wildcard, guarded: false },
    ];
    let diags = check_match_exhaustiveness(&arms, &ab(), &[], span());
    assert!(diags.is_empty());
}

#[test]
fn test_guarded_plus_unguarded_same_variant_is_exhaustive() {
    let arms = vec![
        MatchArm { pattern: variant("A"), guarded: true },
        MatchArm { pattern: variant("A"), guarded: false },
        MatchArm { pattern: variant("B"), guarded: false },
    ];
    let diags = check_match_exhaustiveness(&arms, &ab(), &[], span());
    assert!(diags.is_empty());
}

#[test]
fn test_all_guarded_arms_still_non_exhaustive() {
    let arms = vec![
        MatchArm { pattern: variant("A"), guarded: true },
        MatchArm { pattern: variant("B"), guarded: true },
    ];
    let diags = check_match_exhaustiveness(&arms, &ab(), &[], span());
    assert_eq!(diags.len(), 1);
    assert!(diags[0].message().contains("non-exhaustive"));
}

// ── further cases ───────────────────────────────────────────────────────────

#[test]
fn test_missing_variants_listed_in_enum_order() {
    let all: Vec<String> = vec!["A".into(), "B".into(), "C".into()];
    let arms = make_match_arms(vec![variant("B")]);
    let diags = check_match_exhaustiveness(&arms, &all, &[], Span { lo: 3, hi: 9 });
    assert_eq!(diags.len(), 1);
    let TypeDiagnostic::NonExhaustiveMatch { missing, span } = &diags[0];
    assert_eq!(missing, &vec!["A".to_string(), "C".to_string()]);
    assert_eq!((span.lo, span.hi), (3, 9));
    assert_eq!(diags[0].message(), "non-exhaustive match: missing A, C");
}

#[test]
fn test_no_variants_is_always_exhaustive() {
    let diags = check_match_exhaustiveness(&[], &[], &[], span());
    assert!(diags.is_empty());
}

#[test]
fn test_no_arms_misses_every_variant() {
    let diags = check_match_exhaustiveness(&[], &ab(), &[], span());
    assert_eq!(diags[0].message(), "non-exhaustive match: missing A, B");
}

#[test]
fn test_literal_range_and_unresolved_cover_nothing() {
    let arms = make_match_arms(vec![
        Pattern::Literal,
        Pattern::Range,
        Pattern::TupleStruct(TupleStructPat { path: NameRef::Unresolved("A".into()) }),
    ]);
    let diags = check_match_exhaustiveness(&arms, &ab(), &[], span());
    assert_eq!(diags[0].message(), "non-exhaustive match: missing A, B");
}

#[test]
fn test_unit_variant_ident_covers_only_itself() {
    let arms = make_match_arms(vec![ident("A")]);
    let diags = check_match_exhaustiveness(&arms, &ab(), &ab(), span());
    assert_eq!(diags[0].message(), "non-exhaustive match: missing B");
}

#[test]
fn test_struct_pattern_covers_its_variant() {
    let arms = make_match_arms(vec![
        Pattern::Struct(StructPat { path: NameRef::Resolved(ResolvedName { text: "A".into() }) }),
        variant("B"),
    ]);
    let diags = check_match_exhaustiveness(&arms, &ab(), &[], span());
    assert!(diags.is_empty());
}
