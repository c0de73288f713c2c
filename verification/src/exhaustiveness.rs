//! Match exhaustiveness over enum variants: a pure check over the arms'
//! patterns and the enum's variant list.
//!
//! A `_` wildcard covers every variant, and so does an identifier that names
//! no unit variant (it binds the whole value). An identifier that names a unit
//! variant covers that variant; a tuple-struct or struct pattern covers the
//! variant its resolved path names; an or-pattern covers the union of its
//! alternatives. Literal and range patterns cover no variant. An arm with a
//! guard covers nothing: the guard is a run-time predicate.

use crate::text::push_str;
use crate::token::Span;
use vstd::prelude::*;

verus! {

/// A resolved name: the text it was written with.
pub struct ResolvedName {
    pub text: String,
}

/// A name in a pattern path, resolved or not.
pub enum NameRef {
    Resolved(ResolvedName),
    Unresolved(String),
}

/// An identifier pattern: a binding, or the name of a unit variant.
pub struct IdentPat {
    pub name: String,
}

/// `Path(fields..)`.
pub struct TupleStructPat {
    pub path: NameRef,
}

/// `Path { fields.. }`.
pub struct StructPat {
    pub path: NameRef,
}

/// The patterns of a match arm, as far as variant coverage reads them.
pub enum Pattern {
    Wildcard,
    Ident(IdentPat),
    Literal,
    TupleStruct(TupleStructPat),
    Struct(StructPat),
    /// `a | b | ..`: the alternatives.
    Or(Vec<Pattern>),
    Range,
}

/// A match arm: its pattern and whether a guard follows it.
pub struct MatchArm {
    pub pattern: Pattern,
    pub guarded: bool,
}

/// The diagnostic of a match that leaves variants uncovered.
pub enum TypeDiagnostic {
    NonExhaustiveMatch { missing: Vec<String>, span: Span },
}

/// Names separated by `, `.
pub open spec fn joined(ns: Seq<Seq<char>>) -> Seq<char>
    decreases ns.len(),
{
    if ns.len() == 0 {
        Seq::empty()
    } else if ns.len() == 1 {
        ns[0]
    } else {
        joined(ns.drop_last()) + ", "@ + ns.last()
    }
}

impl TypeDiagnostic {
    /// The diagnostic's text: `non-exhaustive match: missing ` and the
    /// uncovered variants, separated by `, `.
    pub fn message(&self) -> (r: String)
        ensures
            ({
                let TypeDiagnostic::NonExhaustiveMatch { missing, .. } = *self;
                r@ == "non-exhaustive match: missing "@ + joined(names(missing@))
            }),
    {
        match self {
            TypeDiagnostic::NonExhaustiveMatch { missing, .. } => {
                let mut out = String::from_str("non-exhaustive match: missing ");
                proof {
                    reveal_strlit("non-exhaustive match: missing ");
                    reveal_strlit(", ");
                }
                let ghost head = out@;
                let mut i: usize = 0;
                while i < missing.len()
                    invariant
                        0 <= i <= missing.len(),
                        head == "non-exhaustive match: missing "@,
                        out@ == head + joined(names(missing@.take(i as int))),
                    decreases missing.len() - i,
                {
                    proof {
                        assert(names(missing@.take(i as int + 1)).drop_last() =~= names(
                            missing@.take(i as int),
                        ));
                    }
                    if i > 0 {
                        push_str(&mut out, ", ");
                    }
                    push_str(&mut out, missing[i].as_str());
                    proof {
                        if i == 0 {
                            assert(names(missing@.take(1)) =~= seq![missing@[0]@]);
                            assert(out@ =~= head + joined(names(missing@.take(1))));
                        } else {
                            assert(out@ =~= head + joined(names(missing@.take(i as int + 1))));
                        }
                    }
                    i = i + 1;
                }
                proof {
                    assert(missing@.take(missing.len() as int) =~= missing@);
                }
                out
            },
        }
    }
}

/// The texts of a list of names.
pub open spec fn names(v: Seq<String>) -> Seq<Seq<char>> {
    v.map_values(|s: String| s@)
}

/// Whether pattern `p` covers variant `v`, with `all` the enum's variants and
/// `units` the names of its unit variants.
pub open spec fn covers(p: Pattern, all: Seq<Seq<char>>, units: Seq<Seq<char>>, v: Seq<char>) -> bool
    decreases p,
{
    match p {
        Pattern::Wildcard => all.contains(v),
        Pattern::Ident(ip) => if units.contains(ip.name@) {
            v == ip.name@
        } else {
            all.contains(v)
        },
        Pattern::Literal => false,
        Pattern::TupleStruct(ts) => ts.path matches NameRef::Resolved(r) && v == r.text@,
        Pattern::Struct(sp) => sp.path matches NameRef::Resolved(r) && v == r.text@,
        Pattern::Or(alternatives) => exists|i: int|
            0 <= i < alternatives@.len() && covers(#[trigger] alternatives@[i], all, units, v),
        Pattern::Range => false,
    }
}

/// Whether one of the first `n` alternatives covers variant `v`.
pub open spec fn some_alternative_covers(
    alts: Seq<Pattern>,
    n: int,
    all: Seq<Seq<char>>,
    units: Seq<Seq<char>>,
    v: Seq<char>,
) -> bool {
    exists|j: int| 0 <= j < n && covers(#[trigger] alts[j], all, units, v)
}

/// One more alternative covers what the shorter run covers, and what it
/// covers itself.
proof fn lemma_alternatives_step(
    alts: Seq<Pattern>,
    n: int,
    all: Seq<Seq<char>>,
    units: Seq<Seq<char>>,
    v: Seq<char>,
)
    requires
        0 <= n,
    ensures
        some_alternative_covers(alts, n + 1, all, units, v) == (some_alternative_covers(
            alts,
            n,
            all,
            units,
            v,
        ) || covers(alts[n], all, units, v)),
{
    if some_alternative_covers(alts, n + 1, all, units, v) {
        let j = choose|j: int| 0 <= j < n + 1 && covers(#[trigger] alts[j], all, units, v);
        if j < n {
            assert(some_alternative_covers(alts, n, all, units, v));
        }
    }
    if covers(alts[n], all, units, v) {
        assert(0 <= n < n + 1 && covers(alts[n], all, units, v));
    }
    if some_alternative_covers(alts, n, all, units, v) {
        let j = choose|j: int| 0 <= j < n && covers(#[trigger] alts[j], all, units, v);
        assert(0 <= j < n + 1);
    }
}

/// Whether one of the first `n` arms is unguarded and covers variant `v`.
pub open spec fn some_arm_covers(
    arms: Seq<MatchArm>,
    n: int,
    all: Seq<Seq<char>>,
    units: Seq<Seq<char>>,
    v: Seq<char>,
) -> bool {
    exists|j: int| 0 <= j < n && !arms[j].guarded && covers(#[trigger] arms[j].pattern, all, units, v)
}

/// One more arm covers what the shorter run covers, and what it covers itself
/// when unguarded.
proof fn lemma_arms_step(
    arms: Seq<MatchArm>,
    n: int,
    all: Seq<Seq<char>>,
    units: Seq<Seq<char>>,
    v: Seq<char>,
)
    requires
        0 <= n,
    ensures
        some_arm_covers(arms, n + 1, all, units, v) == (some_arm_covers(arms, n, all, units, v) || (
        !arms[n].guarded && covers(arms[n].pattern, all, units, v))),
{
    if some_arm_covers(arms, n + 1, all, units, v) {
        let j = choose|j: int|
            0 <= j < n + 1 && !arms[j].guarded && covers(#[trigger] arms[j].pattern, all, units, v);
        if j < n {
            assert(some_arm_covers(arms, n, all, units, v));
        }
    }
    if !arms[n].guarded && covers(arms[n].pattern, all, units, v) {
        assert(0 <= n < n + 1 && !arms[n].guarded && covers(arms[n].pattern, all, units, v));
    }
    if some_arm_covers(arms, n, all, units, v) {
        let j = choose|j: int|
            0 <= j < n && !arms[j].guarded && covers(#[trigger] arms[j].pattern, all, units, v);
        assert(0 <= j < n + 1);
    }
}

/// Whether some unguarded arm covers variant `v`.
pub open spec fn arms_cover(
    arms: Seq<MatchArm>,
    all: Seq<Seq<char>>,
    units: Seq<Seq<char>>,
    v: Seq<char>,
) -> bool {
    some_arm_covers(arms, arms.len() as int, all, units, v)
}

/// The variants of `vs` that no unguarded arm covers, in order.
pub open spec fn uncovered(
    arms: Seq<MatchArm>,
    all: Seq<Seq<char>>,
    units: Seq<Seq<char>>,
    vs: Seq<Seq<char>>,
) -> Seq<Seq<char>>
    decreases vs.len(),
{
    if vs.len() == 0 {
        Seq::empty()
    } else if arms_cover(arms, all, units, vs.last()) {
        uncovered(arms, all, units, vs.drop_last())
    } else {
        uncovered(arms, all, units, vs.drop_last()).push(vs.last())
    }
}

/// A sequence with one more element contains exactly what it contained, and
/// that element.
proof fn lemma_contains_push(a: Seq<Seq<char>>, x: Seq<char>)
    ensures
        forall|v: Seq<char>| #[trigger] a.push(x).contains(v) <==> (a.contains(v) || v == x),
{
    assert forall|v: Seq<char>| #[trigger] a.push(x).contains(v) <==> (a.contains(v) || v == x) by {
        if a.contains(v) {
            let j = choose|j: int| 0 <= j < a.len() && a[j] == v;
            assert(a.push(x)[j] == v);
        }
        if v == x {
            assert(a.push(x)[a.len() as int] == v);
        }
        if a.push(x).contains(v) {
            let j = choose|j: int| 0 <= j < a.push(x).len() && a.push(x)[j] == v;
            if j < a.len() {
                assert(a[j] == v);
            }
        }
    }
}

/// Whether `v` holds a string with the text `s`.
fn contains_name(v: &[String], s: &String) -> (r: bool)
    ensures
        r == names(v@).contains(s@),
{
    let mut i: usize = 0;
    while i < v.len()
        invariant
            0 <= i <= v.len(),
            forall|j: int| 0 <= j < i ==> v@[j]@ != s@,
        decreases v.len() - i,
    {
        if v[i] == *s {
            proof {
                assert(names(v@)[i as int] == s@);
            }
            return true;
        }
        i = i + 1;
    }
    proof {
        if names(v@).contains(s@) {
            let j = choose|j: int| 0 <= j < names(v@).len() && names(v@)[j] == s@;
            assert(v@[j]@ == s@);
        }
    }
    false
}

/// Add `s` to `covered` unless it is already there.
fn add_name(covered: &mut Vec<String>, s: &String)
    ensures
        forall|v: Seq<char>|
            #[trigger] names(final(covered)@).contains(v) <==> (names(old(covered)@).contains(v) || v == s@),
{
    if !contains_name(covered.as_slice(), s) {
        let ghost before = covered@;
        covered.push(s.clone());
        proof {
            assert(names(covered@) =~= names(before).push(s@));
            lemma_contains_push(names(before), s@);
        }
    }
}

/// A concatenation contains exactly what either part contains.
proof fn lemma_contains_concat(a: Seq<Seq<char>>, b: Seq<Seq<char>>)
    ensures
        forall|v: Seq<char>| #[trigger] (a + b).contains(v) <==> (a.contains(v) || b.contains(v)),
{
    assert forall|v: Seq<char>| #[trigger] (a + b).contains(v) <==> (a.contains(v) || b.contains(
        v,
    )) by {
        if a.contains(v) {
            let j = choose|j: int| 0 <= j < a.len() && a[j] == v;
            assert((a + b)[j] == v);
        }
        if b.contains(v) {
            let j = choose|j: int| 0 <= j < b.len() && b[j] == v;
            assert((a + b)[a.len() + j] == v);
        }
        if (a + b).contains(v) {
            let j = choose|j: int| 0 <= j < (a + b).len() && (a + b)[j] == v;
            if j < a.len() {
                assert(a[j] == v);
            } else {
                assert(b[j - a.len()] == v);
            }
        }
    }
}

/// Add every variant of `all` to `covered`.
fn add_all(covered: &mut Vec<String>, all: &[String])
    ensures
        forall|v: Seq<char>|
            #[trigger] names(final(covered)@).contains(v) <==> (names(old(covered)@).contains(v) || names(
                all@,
            ).contains(v)),
{
    let ghost c0 = covered@;
    let mut i: usize = 0;
    while i < all.len()
        invariant
            0 <= i <= all.len(),
            covered@ == c0 + all@.take(i as int),
        decreases all.len() - i,
    {
        covered.push(all[i].clone());
        proof {
            assert(c0 + all@.take(i as int + 1) =~= (c0 + all@.take(i as int)).push(all@[i as int]));
        }
        i = i + 1;
    }
    proof {
        assert(all@.take(all.len() as int) =~= all@);
        assert(names(covered@) =~= names(c0) + names(all@));
        lemma_contains_concat(names(c0), names(all@));
    }
}

/// Add to `covered` every variant that `pat` covers.
fn collect_covered_variants(
    pat: &Pattern,
    all: &[String],
    covered: &mut Vec<String>,
    unit_variants: &[String],
)
    ensures
        forall|v: Seq<char>|
            #[trigger] names(final(covered)@).contains(v) <==> (names(old(covered)@).contains(v) || covers(
                *pat,
                names(all@),
                names(unit_variants@),
                v,
            )),
    decreases pat,
{
    match pat {
        Pattern::Wildcard => {
            add_all(covered, all);
        },
        Pattern::Ident(p) => {
            if contains_name(unit_variants, &p.name) {
                add_name(covered, &p.name);
            } else {
                add_all(covered, all);
            }
        },
        Pattern::Literal => {},
        Pattern::TupleStruct(ts) => match &ts.path {
            NameRef::Resolved(r) => {
                add_name(covered, &r.text);
            },
            NameRef::Unresolved(_) => {},
        },
        Pattern::Struct(sp) => match &sp.path {
            NameRef::Resolved(r) => {
                add_name(covered, &r.text);
            },
            NameRef::Unresolved(_) => {},
        },
        Pattern::Or(alternatives) => {
            let ghost c0 = covered@;
            let ghost alts = alternatives@;
            let mut i: usize = 0;
            while i < alternatives.len()
                invariant
                    0 <= i <= alternatives.len(),
                    alts == alternatives@,
                    *pat == Pattern::Or(*alternatives),
                    forall|v: Seq<char>|
                        names(covered@).contains(v) <==> (names(c0).contains(v)
                            || some_alternative_covers(
                            alts,
                            i as int,
                            names(all@),
                            names(unit_variants@),
                            v,
                        )),
                decreases alternatives.len() - i,
            {
                proof {
                    assert(*alternatives == (*pat)->Or_0);
                    assert(decreases_to!(*pat => (*pat)->Or_0));
                    assert(decreases_to!(*alternatives => alternatives@));
                    assert(decreases_to!(alternatives@ => alternatives@[i as int]));
                }
                let ghost i0 = i as int;
                let ghost before = covered@;
                collect_covered_variants(&alternatives[i], all, covered, unit_variants);
                i = i + 1;
                proof {
                    assert forall|v: Seq<char>|
                        names(covered@).contains(v) <==> (names(c0).contains(v)
                            || some_alternative_covers(
                            alts,
                            i as int,
                            names(all@),
                            names(unit_variants@),
                            v,
                        )) by {
                        let (a, u) = (names(all@), names(unit_variants@));
                        assert(names(before).contains(v) <==> (names(c0).contains(v)
                            || some_alternative_covers(alts, i0, a, u, v)));
                        assert(names(covered@).contains(v) <==> (names(before).contains(v)
                            || covers(alts[i0], a, u, v)));
                        lemma_alternatives_step(alts, i0, a, u, v);
                        assert(i as int == i0 + 1);
                        assert(some_alternative_covers(alts, i0 + 1, a, u, v)
                            == some_alternative_covers(alts, i as int, a, u, v));
                    }
                }
            }
            proof {
                assert forall|v: Seq<char>|
                    covers(*pat, names(all@), names(unit_variants@), v)
                        == some_alternative_covers(
                        alts,
                        alts.len() as int,
                        names(all@),
                        names(unit_variants@),
                        v,
                    ) by {
                    let (a, u) = (names(all@), names(unit_variants@));
                    if covers(*pat, a, u, v) {
                        let j = choose|j: int| 0 <= j < alts.len() && covers(#[trigger] alts[j], a, u, v);
                        assert(some_alternative_covers(alts, alts.len() as int, a, u, v));
                    }
                }
            }
        },
        Pattern::Range => {},
    }
}

/// Check whether a match covers every variant of an enum. Returns one
/// `NonExhaustiveMatch` diagnostic, listing the uncovered variants in the
/// enum's order, or nothing when the match is exhaustive (or the enum has no
/// variants). `unit_variants` names the variants without fields, so that an
/// identifier pattern naming one covers that variant only.
pub fn check_match_exhaustiveness(
    arms: &[MatchArm],
    all_variants: &[String],
    unit_variants: &[String],
    span: Span,
) -> (r: Vec<TypeDiagnostic>)
    ensures
        ({
            let missing = uncovered(
                arms@,
                names(all_variants@),
                names(unit_variants@),
                names(all_variants@),
            );
            &&& r@.len() == 0 <==> missing.len() == 0
            &&& r@.len() <= 1
            &&& r@.len() == 1 ==> (r@[0] matches TypeDiagnostic::NonExhaustiveMatch {
                missing: m,
                span: s,
            } && names(m@) == missing && s == span)
        }),
{
    let ghost all = names(all_variants@);
    let ghost units = names(unit_variants@);
    if all_variants.len() == 0 {
        proof {
            assert(all =~= Seq::<Seq<char>>::empty());
        }
        return Vec::new();
    }
    let mut covered: Vec<String> = Vec::new();
    let mut i: usize = 0;
    while i < arms.len()
        invariant
            0 <= i <= arms.len(),
            all == names(all_variants@),
            units == names(unit_variants@),
            forall|v: Seq<char>|
                names(covered@).contains(v) <==> some_arm_covers(arms@, i as int, all, units, v),
        decreases arms.len() - i,
    {
        if !arms[i].guarded {
            collect_covered_variants(&arms[i].pattern, all_variants, &mut covered, unit_variants);
        }
        proof {
            assert forall|v: Seq<char>|
                names(covered@).contains(v) <==> some_arm_covers(arms@, i + 1, all, units, v) by {
                lemma_arms_step(arms@, i as int, all, units, v);
            }
        }
        i = i + 1;
    }
    let mut missing: Vec<String> = Vec::new();
    let mut k: usize = 0;
    while k < all_variants.len()
        invariant
            0 <= k <= all_variants.len(),
            all == names(all_variants@),
            units == names(unit_variants@),
            forall|v: Seq<char>|
                names(covered@).contains(v) <==> arms_cover(arms@, all, units, v),
            names(missing@) == uncovered(arms@, all, units, all.take(k as int)),
        decreases all_variants.len() - k,
    {
        proof {
            assert(all.take(k as int + 1).drop_last() =~= all.take(k as int));
            assert(all.take(k as int + 1).last() == all_variants@[k as int]@);
        }
        if !contains_name(covered.as_slice(), &all_variants[k]) {
            let ghost before = missing@;
            missing.push(all_variants[k].clone());
            proof {
                assert(names(missing@) =~= names(before).push(all_variants@[k as int]@));
            }
        }
        k = k + 1;
    }
    proof {
        assert(all.take(all_variants.len() as int) =~= all);
    }
    if missing.len() == 0 {
        return Vec::new();
    }
    vec![TypeDiagnostic::NonExhaustiveMatch { missing, span }]
}

/// The uncovered list holds exactly the variants of `vs` that no unguarded
/// arm covers.
pub proof fn lemma_uncovered_members(
    arms: Seq<MatchArm>,
    all: Seq<Seq<char>>,
    units: Seq<Seq<char>>,
    vs: Seq<Seq<char>>,
)
    ensures
        forall|v: Seq<char>|
            #[trigger] uncovered(arms, all, units, vs).contains(v) <==> (vs.contains(v)
                && !arms_cover(arms, all, units, v)),
    decreases vs.len(),
{
    if vs.len() > 0 {
        lemma_uncovered_members(arms, all, units, vs.drop_last());
        lemma_contains_push(vs.drop_last(), vs.last());
        assert(vs.drop_last().push(vs.last()) =~= vs);
        lemma_contains_push(uncovered(arms, all, units, vs.drop_last()), vs.last());
    }
}

/// An unguarded wildcard arm makes a match exhaustive, whatever the other
/// arms are.
pub proof fn lemma_wildcard_is_exhaustive(
    arms: Seq<MatchArm>,
    all: Seq<Seq<char>>,
    units: Seq<Seq<char>>,
    i: int,
)
    requires
        0 <= i < arms.len(),
        arms[i].pattern is Wildcard,
        !arms[i].guarded,
    ensures
        uncovered(arms, all, units, all).len() == 0,
{
    lemma_uncovered_members(arms, all, units, all);
    let missing = uncovered(arms, all, units, all);
    if missing.len() > 0 {
        let v = missing[0];
        assert(missing.contains(v));
        assert(covers(arms[i].pattern, all, units, v));
        assert(some_arm_covers(arms, arms.len() as int, all, units, v));
    }
}

/// A guarded arm covers nothing: adding one to a match changes no variant's
/// coverage.
pub proof fn lemma_guarded_arm_covers_nothing(
    arms: Seq<MatchArm>,
    arm: MatchArm,
    all: Seq<Seq<char>>,
    units: Seq<Seq<char>>,
    vs: Seq<Seq<char>>,
)
    requires
        arm.guarded,
    ensures
        uncovered(arms.push(arm), all, units, vs) == uncovered(arms, all, units, vs),
    decreases vs.len(),
{
    if vs.len() > 0 {
        lemma_guarded_arm_covers_nothing(arms, arm, all, units, vs.drop_last());
        let v = vs.last();
        lemma_arms_step(arms.push(arm), arms.len() as int, all, units, v);
        assert(some_arm_covers(arms.push(arm), arms.len() as int, all, units, v) == some_arm_covers(
            arms,
            arms.len() as int,
            all,
            units,
            v,
        )) by {
            if some_arm_covers(arms.push(arm), arms.len() as int, all, units, v) {
                let j = choose|j: int|
                    0 <= j < arms.len() && !arms.push(arm)[j].guarded && covers(
                        #[trigger] arms.push(arm)[j].pattern,
                        all,
                        units,
                        v,
                    );
                assert(arms.push(arm)[j] == arms[j]);
            }
            if some_arm_covers(arms, arms.len() as int, all, units, v) {
                let j = choose|j: int|
                    0 <= j < arms.len() && !arms[j].guarded && covers(
                        #[trigger] arms[j].pattern,
                        all,
                        units,
                        v,
                    );
                assert(arms.push(arm)[j] == arms[j]);
            }
        }
    }
}

} // verus!
