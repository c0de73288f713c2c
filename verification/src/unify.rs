//! Unification and substitution for generic type parameters.
//!
//! When a generic function such as `fn id<T>(x: T) -> T` is called, the
//! argument types are unified with the parameter types to find the concrete
//! type of each type parameter, which is then substituted into the return
//! type. Unification only ever adds bindings: the first binding of a
//! parameter wins, and a later conflicting use is an error.

use vstd::prelude::*;

verus! {

/// A type parameter: its name, its position in its generic list, and the
/// definition that declares it.
#[derive(Debug, PartialEq)]
pub struct TypeParamId {
    pub name: String,
    pub index: usize,
    pub def_id: usize,
}

/// A nominal struct type.
#[derive(Debug, PartialEq)]
pub struct StructTy {
    pub name: String,
    pub def_id: usize,
}

/// A nominal enum type.
#[derive(Debug, PartialEq)]
pub struct EnumTy {
    pub name: String,
    pub def_id: usize,
}

/// A generic type applied to arguments, such as `List<Int>`. Unification
/// and substitution treat it as a whole: they compare it, they do not look
/// inside it.
#[derive(Debug, PartialEq)]
pub struct InstanceTy {
    pub name: String,
    pub def_id: usize,
    pub args: Vec<Ty>,
}

/// A function type.
#[derive(Debug, PartialEq)]
pub struct FnTy {
    pub params: Vec<Ty>,
    pub return_type: Box<Ty>,
}

/// A type as the checker sees it.
#[derive(Debug, PartialEq)]
pub enum Ty {
    Int,
    Float,
    Bool,
    String,
    Unit,
    Struct(StructTy),
    Enum(EnumTy),
    TypeParam(TypeParamId),
    Fn(FnTy),
    Tuple(Vec<Ty>),
    Instance(InstanceTy),
    /// The type of an expression that failed to check.
    Error,
}

/// What identifies a type parameter: its name, index and declaring
/// definition.
pub type ParamKey = (Seq<char>, nat, nat);

/// The mathematical value of a type: names by their text.
pub enum TyModel {
    Int,
    Float,
    Bool,
    Str,
    Unit,
    Struct(Seq<char>, nat),
    Enum(Seq<char>, nat),
    Param(ParamKey),
    Fn(Seq<TyModel>, Box<TyModel>),
    Tuple(Seq<TyModel>),
    Instance(Seq<char>, nat, Seq<TyModel>),
    Error,
}

/// The key of a type parameter.
pub open spec fn param_key(p: TypeParamId) -> ParamKey {
    (p.name@, p.index as nat, p.def_id as nat)
}

/// The value of a type.
pub open spec fn ty_model(t: Ty) -> TyModel
    decreases t,
{
    match t {
        Ty::Int => TyModel::Int,
        Ty::Float => TyModel::Float,
        Ty::Bool => TyModel::Bool,
        Ty::String => TyModel::Str,
        Ty::Unit => TyModel::Unit,
        Ty::Struct(s) => TyModel::Struct(s.name@, s.def_id as nat),
        Ty::Enum(e) => TyModel::Enum(e.name@, e.def_id as nat),
        Ty::TypeParam(p) => TyModel::Param(param_key(p)),
        Ty::Fn(f) => TyModel::Fn(tys_model(f.params@), Box::new(ty_model(*f.return_type))),
        Ty::Tuple(es) => TyModel::Tuple(tys_model(es@)),
        Ty::Instance(i) => TyModel::Instance(i.name@, i.def_id as nat, tys_model(i.args@)),
        Ty::Error => TyModel::Error,
    }
}

/// The values of a run of types.
pub open spec fn tys_model(ts: Seq<Ty>) -> Seq<TyModel>
    decreases ts,
{
    if ts.len() == 0 {
        Seq::empty()
    } else {
        tys_model(ts.drop_last()).push(ty_model(ts.last()))
    }
}

impl View for Ty {
    type V = TyModel;

    open spec fn view(&self) -> TyModel {
        ty_model(*self)
    }
}

/// The values of a run of types have one entry per type.
pub proof fn lemma_tys_model_index(ts: Seq<Ty>, i: int)
    requires
        0 <= i < ts.len(),
    ensures
        tys_model(ts).len() == ts.len(),
        tys_model(ts)[i] == ty_model(ts[i]),
    decreases ts.len(),
{
    lemma_tys_model_len(ts);
    lemma_tys_model_len(ts.drop_last());
    if i < ts.len() - 1 {
        lemma_tys_model_index(ts.drop_last(), i);
    }
}

/// The values of a run of types have one entry per type.
pub proof fn lemma_tys_model_len(ts: Seq<Ty>)
    ensures
        tys_model(ts).len() == ts.len(),
    decreases ts.len(),
{
    if ts.len() > 0 {
        lemma_tys_model_len(ts.drop_last());
    }
}

/// Whether two type parameters are the same parameter.
fn same_param(a: &TypeParamId, b: &TypeParamId) -> (r: bool)
    ensures
        r == (param_key(*a) == param_key(*b)),
{
    a.name == b.name && a.index == b.index && a.def_id == b.def_id
}

/// A copy of a type parameter.
fn copy_param(p: &TypeParamId) -> (r: TypeParamId)
    ensures
        param_key(r) == param_key(*p),
{
    TypeParamId { name: p.name.clone(), index: p.index, def_id: p.def_id }
}

/// A copy of a type.
pub fn copy_ty(t: &Ty) -> (r: Ty)
    ensures
        r@ == t@,
    decreases t,
{
    match t {
        Ty::Int => Ty::Int,
        Ty::Float => Ty::Float,
        Ty::Bool => Ty::Bool,
        Ty::String => Ty::String,
        Ty::Unit => Ty::Unit,
        Ty::Struct(s) => Ty::Struct(StructTy { name: s.name.clone(), def_id: s.def_id }),
        Ty::Enum(e) => Ty::Enum(EnumTy { name: e.name.clone(), def_id: e.def_id }),
        Ty::TypeParam(p) => Ty::TypeParam(copy_param(p)),
        Ty::Fn(f) => {
            proof {
                assert(decreases_to!(*t => (*t)->Fn_0));
            }
            let params = copy_tys(&f.params);
            let ret = copy_ty(&f.return_type);
            Ty::Fn(FnTy { params, return_type: Box::new(ret) })
        },
        Ty::Tuple(es) => Ty::Tuple(copy_tys(es)),
        Ty::Instance(inst) => {
            proof {
                assert(decreases_to!(*t => (*t)->Instance_0));
            }
            Ty::Instance(
                InstanceTy { name: inst.name.clone(), def_id: inst.def_id, args: copy_tys(&inst.args) },
            )
        },
        Ty::Error => Ty::Error,
    }
}

/// A copy of a run of types.
fn copy_tys(ts: &Vec<Ty>) -> (r: Vec<Ty>)
    ensures
        tys_model(r@) == tys_model(ts@),
    decreases ts,
{
    let mut out: Vec<Ty> = Vec::new();
    let mut i: usize = 0;
    while i < ts.len()
        invariant
            0 <= i <= ts.len(),
            tys_model(out@) == tys_model(ts@.take(i as int)),
        decreases ts.len() - i,
    {
        proof {
            assert(decreases_to!(*ts => ts@));
            assert(decreases_to!(ts@ => ts@[i as int]));
        }
        let c = copy_ty(&ts[i]);
        let ghost before = out@;
        out.push(c);
        proof {
            assert(out@.drop_last() =~= before);
            assert(ts@.take(i as int + 1).drop_last() =~= ts@.take(i as int));
        }
        i = i + 1;
    }
    proof {
        assert(ts@.take(ts.len() as int) =~= ts@);
    }
    out
}

/// Whether two types are the same type.
pub fn same_ty(a: &Ty, b: &Ty) -> (r: bool)
    ensures
        r == (a@ == b@),
    decreases a,
{
    match (a, b) {
        (Ty::Int, Ty::Int) => true,
        (Ty::Float, Ty::Float) => true,
        (Ty::Bool, Ty::Bool) => true,
        (Ty::String, Ty::String) => true,
        (Ty::Unit, Ty::Unit) => true,
        (Ty::Error, Ty::Error) => true,
        (Ty::Struct(x), Ty::Struct(y)) => x.name == y.name && x.def_id == y.def_id,
        (Ty::Enum(x), Ty::Enum(y)) => x.name == y.name && x.def_id == y.def_id,
        (Ty::TypeParam(x), Ty::TypeParam(y)) => same_param(x, y),
        (Ty::Fn(f), Ty::Fn(g)) => {
            proof {
                assert(decreases_to!(*a => (*a)->Fn_0));
            }
            same_tys(&f.params, &g.params) && same_ty(&f.return_type, &g.return_type)
        },
        (Ty::Tuple(x), Ty::Tuple(y)) => same_tys(x, y),
        (Ty::Instance(x), Ty::Instance(y)) => {
            proof {
                assert(decreases_to!(*a => (*a)->Instance_0));
            }
            x.name == y.name && x.def_id == y.def_id && same_tys(&x.args, &y.args)
        },
        _ => false,
    }
}

/// Whether two runs of types are the same, type by type.
fn same_tys(a: &Vec<Ty>, b: &Vec<Ty>) -> (r: bool)
    ensures
        r == (tys_model(a@) == tys_model(b@)),
    decreases a,
{
    proof {
        lemma_tys_model_len(a@);
        lemma_tys_model_len(b@);
    }
    if a.len() != b.len() {
        return false;
    }
    let mut i: usize = 0;
    while i < a.len()
        invariant
            0 <= i <= a.len(),
            a.len() == b.len(),
            forall|j: int| 0 <= j < i ==> ty_model(#[trigger] a@[j]) == ty_model(b@[j]),
        decreases a.len() - i,
    {
        proof {
            assert(decreases_to!(*a => a@));
            assert(decreases_to!(a@ => a@[i as int]));
        }
        if !same_ty(&a[i], &b[i]) {
            proof {
                lemma_tys_model_index(a@, i as int);
                lemma_tys_model_index(b@, i as int);
            }
            return false;
        }
        i = i + 1;
    }
    proof {
        assert forall|j: int| 0 <= j < a.len() implies tys_model(a@)[j] == tys_model(b@)[j] by {
            lemma_tys_model_index(a@, j);
            lemma_tys_model_index(b@, j);
            assert(ty_model(a@[j]) == ty_model(b@[j]));
        }
        assert(tys_model(a@) =~= tys_model(b@));
    }
    true
}

/// Whether a type mentions a type parameter anywhere.
pub open spec fn has_param(t: TyModel) -> bool
    decreases t,
{
    match t {
        TyModel::Param(_) => true,
        TyModel::Fn(ps, r) => any_has_param(ps) || has_param(*r),
        TyModel::Tuple(es) => any_has_param(es),
        _ => false,
    }
}

/// Whether some type of a run mentions a type parameter.
pub open spec fn any_has_param(ts: Seq<TyModel>) -> bool
    decreases ts,
{
    if ts.len() == 0 {
        false
    } else {
        any_has_param(ts.drop_last()) || has_param(ts.last())
    }
}

/// Whether a type contains any unresolved type parameter.
pub fn contains_type_param(ty: &Ty) -> (r: bool)
    ensures
        r == has_param(ty@),
    decreases ty,
{
    match ty {
        Ty::TypeParam(_) => true,
        Ty::Fn(f) => {
            proof {
                assert(decreases_to!(*ty => (*ty)->Fn_0));
            }
            any_contains_type_param(&f.params) || contains_type_param(&f.return_type)
        },
        Ty::Tuple(es) => any_contains_type_param(es),
        _ => false,
    }
}

/// Whether any type of a run contains a type parameter.
fn any_contains_type_param(ts: &Vec<Ty>) -> (r: bool)
    ensures
        r == any_has_param(tys_model(ts@)),
    decreases ts,
{
    let mut found = false;
    let mut i: usize = 0;
    while i < ts.len()
        invariant
            0 <= i <= ts.len(),
            found == any_has_param(tys_model(ts@.take(i as int))),
        decreases ts.len() - i,
    {
        proof {
            assert(decreases_to!(*ts => ts@));
            assert(decreases_to!(ts@ => ts@[i as int]));
        }
        let ghost prev = ts@.take(i as int);
        let ghost cur = ts@[i as int];
        if !found {
            found = contains_type_param(&ts[i]);
        }
        i = i + 1;
        proof {
            assert(ts@.take(i as int).drop_last() =~= prev);
            assert(ts@.take(i as int).last() == cur);
            let y = tys_model(ts@.take(i as int));
            assert(y == tys_model(prev).push(ty_model(cur)));
            assert(y.drop_last() =~= tys_model(prev));
            assert(any_has_param(y) == (any_has_param(tys_model(prev)) || has_param(ty_model(cur))));
        }
    }
    proof {
        assert(ts@.take(ts.len() as int) =~= ts@);
    }
    found
}

// ── substitutions ───────────────────────────────────────────────────────────

/// The bindings a list of entries makes, later entries taking precedence.
pub open spec fn entries_map(es: Seq<(TypeParamId, Ty)>) -> Map<ParamKey, TyModel>
    decreases es.len(),
{
    if es.len() == 0 {
        Map::empty()
    } else {
        entries_map(es.drop_last()).insert(param_key(es.last().0), ty_model(es.last().1))
    }
}

/// No parameter is bound twice.
pub open spec fn keys_distinct(es: Seq<(TypeParamId, Ty)>) -> bool {
    forall|i: int, j: int|
        0 <= i < j < es.len() ==> param_key(#[trigger] es[i].0) != param_key(#[trigger] es[j].0)
}

/// An entry's binding is in the map.
proof fn lemma_entries_lookup(es: Seq<(TypeParamId, Ty)>, i: int)
    requires
        keys_distinct(es),
        0 <= i < es.len(),
    ensures
        entries_map(es).contains_key(param_key(es[i].0)),
        entries_map(es)[param_key(es[i].0)] == ty_model(es[i].1),
    decreases es.len(),
{
    if i < es.len() - 1 {
        assert(keys_distinct(es.drop_last()));
        lemma_entries_lookup(es.drop_last(), i);
        assert(param_key(es[i].0) != param_key(es[es.len() - 1].0));
    }
}

/// A parameter no entry binds is not in the map.
proof fn lemma_entries_absent(es: Seq<(TypeParamId, Ty)>, k: ParamKey)
    requires
        forall|i: int| 0 <= i < es.len() ==> param_key(#[trigger] es[i].0) != k,
    ensures
        !entries_map(es).contains_key(k),
    decreases es.len(),
{
    if es.len() > 0 {
        lemma_entries_absent(es.drop_last(), k);
    }
}

/// Replacing the entry of a parameter rebinds that parameter.
proof fn lemma_entries_update(es: Seq<(TypeParamId, Ty)>, i: int, e: (TypeParamId, Ty))
    requires
        keys_distinct(es),
        0 <= i < es.len(),
        param_key(e.0) == param_key(es[i].0),
    ensures
        entries_map(es.update(i, e)) == entries_map(es).insert(param_key(e.0), ty_model(e.1)),
    decreases es.len(),
{
    let n = es.len() - 1;
    if i == n {
        assert(es.update(i, e).drop_last() =~= es.drop_last());
        assert(entries_map(es.update(i, e)) =~= entries_map(es).insert(param_key(e.0), ty_model(e.1)));
    } else {
        assert(keys_distinct(es.drop_last()));
        lemma_entries_update(es.drop_last(), i, e);
        assert(es.update(i, e).drop_last() =~= es.drop_last().update(i, e));
        assert(es.update(i, e).last() == es.last());
        assert(param_key(es[i].0) != param_key(es[n].0));
        assert(entries_map(es.update(i, e)) =~= entries_map(es).insert(param_key(e.0), ty_model(e.1)));
    }
}

/// A substitution: the type bound to each type parameter so far.
pub struct Substitution {
    entries: Vec<(TypeParamId, Ty)>,
}

impl View for Substitution {
    type V = Map<ParamKey, TyModel>;

    closed spec fn view(&self) -> Map<ParamKey, TyModel> {
        entries_map(self.entries@)
    }
}

impl Substitution {
    /// The substitution's invariant: each parameter is bound at most once.
    pub closed spec fn wf(&self) -> bool {
        keys_distinct(self.entries@)
    }

    /// The empty substitution.
    pub fn new() -> (s: Substitution)
        ensures
            s.wf(),
            s@ == Map::<ParamKey, TyModel>::empty(),
    {
        Substitution { entries: Vec::new() }
    }

    /// The type bound to `p`, if any.
    pub fn get(&self, p: &TypeParamId) -> (r: Option<&Ty>)
        requires
            self.wf(),
        ensures
            r is Some <==> self@.contains_key(param_key(*p)),
            r matches Some(t) ==> t@ == self@[param_key(*p)],
    {
        let mut i: usize = 0;
        while i < self.entries.len()
            invariant
                0 <= i <= self.entries.len(),
                self.wf(),
                forall|j: int| 0 <= j < i ==> param_key(#[trigger] self.entries@[j].0) != param_key(*p),
            decreases self.entries.len() - i,
        {
            if same_param(&self.entries[i].0, p) {
                proof {
                    lemma_entries_lookup(self.entries@, i as int);
                }
                return Some(&self.entries[i].1);
            }
            i = i + 1;
        }
        proof {
            lemma_entries_absent(self.entries@, param_key(*p));
        }
        None
    }

    /// Bind `p` to `t`, replacing any earlier binding of `p`.
    pub fn insert(&mut self, p: TypeParamId, t: Ty)
        requires
            old(self).wf(),
        ensures
            final(self).wf(),
            final(self)@ == old(self)@.insert(param_key(p), t@),
    {
        let mut i: usize = 0;
        while i < self.entries.len()
            invariant
                0 <= i <= self.entries.len(),
                self.entries@ == old(self).entries@,
                keys_distinct(self.entries@),
                forall|j: int| 0 <= j < i ==> param_key(#[trigger] self.entries@[j].0) != param_key(p),
            decreases self.entries.len() - i,
        {
            if same_param(&self.entries[i].0, &p) {
                let ghost es = self.entries@;
                let ghost e = (p, t);
                proof {
                    lemma_entries_update(es, i as int, e);
                }
                self.entries.set(i, (p, t));
                proof {
                    assert(self.entries@ == es.update(i as int, e));
                    assert forall|a: int, b: int|
                        0 <= a < b < self.entries@.len() implies param_key(
                            #[trigger] self.entries@[a].0,
                        ) != param_key(#[trigger] self.entries@[b].0) by {
                        assert(param_key(es[a].0) != param_key(es[b].0));
                        assert(param_key(self.entries@[a].0) == param_key(es[a].0));
                        assert(param_key(self.entries@[b].0) == param_key(es[b].0));
                    }
                }
                return ;
            }
            i = i + 1;
        }
        let ghost es = self.entries@;
        self.entries.push((p, t));
        proof {
            assert(self.entries@.drop_last() =~= es);
        }
    }
}

// ── substitution ────────────────────────────────────────────────────────────

/// A type with every bound parameter replaced by its binding.
pub open spec fn subst_ty(t: TyModel, s: Map<ParamKey, TyModel>) -> TyModel
    decreases t,
{
    match t {
        TyModel::Param(k) => if s.contains_key(k) {
            s[k]
        } else {
            t
        },
        TyModel::Fn(ps, r) => TyModel::Fn(subst_all(ps, s), Box::new(subst_ty(*r, s))),
        TyModel::Tuple(es) => TyModel::Tuple(subst_all(es, s)),
        _ => t,
    }
}

/// `subst_ty` over a run of types.
pub open spec fn subst_all(ts: Seq<TyModel>, s: Map<ParamKey, TyModel>) -> Seq<TyModel>
    decreases ts,
{
    if ts.len() == 0 {
        Seq::empty()
    } else {
        subst_all(ts.drop_last(), s).push(subst_ty(ts.last(), s))
    }
}

/// Substitute all type parameters in `ty` using `subst`. A parameter with no
/// binding stays as it is.
pub fn substitute(ty: &Ty, subst: &Substitution) -> (r: Ty)
    requires
        subst.wf(),
    ensures
        r@ == subst_ty(ty@, subst@),
    decreases ty,
{
    match ty {
        Ty::TypeParam(tp) => match subst.get(tp) {
            Some(bound) => copy_ty(bound),
            None => copy_ty(ty),
        },
        Ty::Fn(f) => {
            proof {
                assert(decreases_to!(*ty => (*ty)->Fn_0));
            }
            let params = substitute_all(&f.params, subst);
            let ret = substitute(&f.return_type, subst);
            Ty::Fn(FnTy { params, return_type: Box::new(ret) })
        },
        Ty::Tuple(elems) => Ty::Tuple(substitute_all(elems, subst)),
        _ => copy_ty(ty),
    }
}

/// `substitute` over a run of types.
fn substitute_all(ts: &Vec<Ty>, subst: &Substitution) -> (r: Vec<Ty>)
    requires
        subst.wf(),
    ensures
        tys_model(r@) == subst_all(tys_model(ts@), subst@),
    decreases ts,
{
    let mut out: Vec<Ty> = Vec::new();
    let mut i: usize = 0;
    while i < ts.len()
        invariant
            0 <= i <= ts.len(),
            subst.wf(),
            tys_model(out@) == subst_all(tys_model(ts@.take(i as int)), subst@),
        decreases ts.len() - i,
    {
        proof {
            assert(decreases_to!(*ts => ts@));
            assert(decreases_to!(ts@ => ts@[i as int]));
        }
        let ghost prev = ts@.take(i as int);
        let ghost cur = ts@[i as int];
        let ghost before = out@;
        let c = substitute(&ts[i], subst);
        out.push(c);
        i = i + 1;
        proof {
            assert(out@.drop_last() =~= before);
            assert(ts@.take(i as int).drop_last() =~= prev);
            assert(ts@.take(i as int).last() == cur);
            let y = tys_model(ts@.take(i as int));
            assert(y == tys_model(prev).push(ty_model(cur)));
            assert(y.drop_last() =~= tys_model(prev));
            assert(subst_all(y, subst@) == subst_all(tys_model(prev), subst@).push(
                subst_ty(ty_model(cur), subst@),
            ));
        }
    }
    proof {
        assert(ts@.take(ts.len() as int) =~= ts@);
    }
    out
}

// ── unification ─────────────────────────────────────────────────────────────

/// The outcome of a unification: the substitution it leaves, and `None` on
/// success or `Some` of the type it found on a mismatch.
pub type Unified = (Map<ParamKey, TyModel>, Option<TyModel>);

/// Two types that unification does not take apart: equal, or a mismatch on
/// `actual`.
pub open spec fn compare(actual: TyModel, expected: TyModel, s: Map<ParamKey, TyModel>) -> Unified {
    if actual == expected {
        (s, None)
    } else {
        (s, Some(actual))
    }
}

/// Unify `actual` (an inferred type) with `expected` (a declared type that
/// may mention type parameters) under the substitution `s`. A parameter on
/// the expected side is bound to the actual type, or checked against its
/// binding; function types unify parameter by parameter and then their
/// return types, tuples element by element; anything else must be equal.
pub open spec fn unify_spec(actual: TyModel, expected: TyModel, s: Map<ParamKey, TyModel>) -> Unified
    decreases expected,
{
    match expected {
        TyModel::Param(k) => if s.contains_key(k) {
            if s[k] == actual {
                (s, None)
            } else {
                (s, Some(s[k]))
            }
        } else {
            (s.insert(k, actual), None)
        },
        TyModel::Fn(eps, er) => match actual {
            TyModel::Fn(aps, ar) => if aps.len() != eps.len() {
                (s, Some(actual))
            } else {
                let (s1, r1) = unify_all_spec(aps, eps, s);
                if r1 is Some {
                    (s1, r1)
                } else {
                    unify_spec(*ar, *er, s1)
                }
            },
            _ => compare(actual, expected, s),
        },
        TyModel::Tuple(ees) => match actual {
            TyModel::Tuple(aes) => if aes.len() == ees.len() {
                unify_all_spec(aes, ees, s)
            } else {
                compare(actual, expected, s)
            },
            _ => compare(actual, expected, s),
        },
        _ => compare(actual, expected, s),
    }
}

/// Unify two runs of types pairwise, left to right, stopping at the first
/// mismatch.
pub open spec fn unify_all_spec(actuals: Seq<TyModel>, expecteds: Seq<TyModel>, s: Map<ParamKey, TyModel>) -> Unified
    decreases expecteds,
{
    if expecteds.len() == 0 || actuals.len() == 0 {
        (s, None)
    } else {
        let (s1, r1) = unify_spec(actuals[0], expecteds[0], s);
        if r1 is Some {
            (s1, r1)
        } else {
            unify_all_spec(
                actuals.subrange(1, actuals.len() as int),
                expecteds.subrange(1, expecteds.len() as int),
                s1,
            )
        }
    }
}

/// What a unification result reports: `None` on success, else the type found.
pub open spec fn outcome(r: Result<(), Ty>) -> Option<TyModel> {
    match r {
        Ok(_) => None,
        Err(t) => Some(t@),
    }
}

/// Unify `actual` (the inferred argument type) with `expected` (the declared
/// parameter type, which may mention type parameters). On success `subst`
/// holds any new bindings; on a mismatch the type found is returned, for the
/// error report, and the bindings made before it stay.
pub fn unify(actual: &Ty, expected: &Ty, subst: &mut Substitution) -> (r: Result<(), Ty>)
    requires
        old(subst).wf(),
    ensures
        final(subst).wf(),
        (final(subst)@, outcome(r)) == unify_spec(actual@, expected@, old(subst)@),
    decreases expected,
{
    match expected {
        Ty::TypeParam(tp) => match subst.get(tp) {
            Some(bound) => {
                if same_ty(bound, actual) {
                    Ok(())
                } else {
                    Err(copy_ty(bound))
                }
            },
            None => {
                subst.insert(copy_param(tp), copy_ty(actual));
                Ok(())
            },
        },
        Ty::Fn(e) => match actual {
            Ty::Fn(a) => {
                proof {
                    assert(decreases_to!(*expected => (*expected)->Fn_0));
                    lemma_tys_model_len(a.params@);
                    lemma_tys_model_len(e.params@);
                }
                if a.params.len() != e.params.len() {
                    return Err(copy_ty(actual));
                }
                match unify_all(&a.params, &e.params, subst) {
                    Ok(()) => unify(&a.return_type, &e.return_type, subst),
                    Err(t) => Err(t),
                }
            },
            _ => compare_types(actual, expected),
        },
        Ty::Tuple(e) => match actual {
            Ty::Tuple(a) => {
                proof {
                    lemma_tys_model_len(a@);
                    lemma_tys_model_len(e@);
                }
                if a.len() == e.len() {
                    unify_all(a, e, subst)
                } else {
                    compare_types(actual, expected)
                }
            },
            _ => compare_types(actual, expected),
        },
        _ => compare_types(actual, expected),
    }
}

/// `Ok` when the types are equal, else the actual type as a mismatch.
fn compare_types(actual: &Ty, expected: &Ty) -> (r: Result<(), Ty>)
    ensures
        outcome(r) == compare(actual@, expected@, Map::empty()).1,
{
    if same_ty(actual, expected) {
        Ok(())
    } else {
        Err(copy_ty(actual))
    }
}

/// Unify two runs of types of the same length pairwise, stopping at the
/// first mismatch.
fn unify_all(actuals: &Vec<Ty>, expecteds: &Vec<Ty>, subst: &mut Substitution) -> (r: Result<
    (),
    Ty,
>)
    requires
        old(subst).wf(),
        actuals.len() == expecteds.len(),
    ensures
        final(subst).wf(),
        (final(subst)@, outcome(r)) == unify_all_spec(
            tys_model(actuals@),
            tys_model(expecteds@),
            old(subst)@,
        ),
    decreases expecteds,
{
    let ghost am = tys_model(actuals@);
    let ghost em = tys_model(expecteds@);
    let ghost n = actuals.len() as int;
    proof {
        lemma_tys_model_len(actuals@);
        lemma_tys_model_len(expecteds@);
        assert(am.subrange(0, n) =~= am);
        assert(em.subrange(0, n) =~= em);
    }
    let mut i: usize = 0;
    while i < actuals.len()
        invariant
            0 <= i <= n,
            n == actuals.len() == expecteds.len(),
            am == tys_model(actuals@),
            em == tys_model(expecteds@),
            am.len() == n,
            em.len() == n,
            subst.wf(),
            unify_all_spec(am, em, old(subst)@) == unify_all_spec(
                am.subrange(i as int, n),
                em.subrange(i as int, n),
                subst@,
            ),
        decreases n - i,
    {
        proof {
            assert(decreases_to!(*expecteds => expecteds@));
            assert(decreases_to!(expecteds@ => expecteds@[i as int]));
            lemma_tys_model_index(actuals@, i as int);
            lemma_tys_model_index(expecteds@, i as int);
            let ar = am.subrange(i as int, n);
            let er = em.subrange(i as int, n);
            assert(ar[0] == am[i as int]);
            assert(er[0] == em[i as int]);
            assert(ar.subrange(1, ar.len() as int) =~= am.subrange(i + 1, n));
            assert(er.subrange(1, er.len() as int) =~= em.subrange(i + 1, n));
        }
        match unify(&actuals[i], &expecteds[i], subst) {
            Ok(()) => {},
            Err(t) => {
                return Err(t);
            },
        }
        i = i + 1;
    }
    Ok(())
}

// ── laws ────────────────────────────────────────────────────────────────────

/// Every type parameter a type mentions is bound in `s`.
pub open spec fn params_bound(t: TyModel, s: Map<ParamKey, TyModel>) -> bool
    decreases t,
{
    match t {
        TyModel::Param(k) => s.contains_key(k),
        TyModel::Fn(ps, r) => all_bound(ps, s) && params_bound(*r, s),
        TyModel::Tuple(es) => all_bound(es, s),
        _ => true,
    }
}

/// `params_bound` for every type of a run.
pub open spec fn all_bound(ts: Seq<TyModel>, s: Map<ParamKey, TyModel>) -> bool
    decreases ts,
{
    if ts.len() == 0 {
        true
    } else {
        all_bound(ts.drop_last(), s) && params_bound(ts.last(), s)
    }
}

/// `all_bound` holds exactly when each type of the run is bound.
proof fn lemma_all_bound_index(ts: Seq<TyModel>, s: Map<ParamKey, TyModel>)
    ensures
        all_bound(ts, s) <==> forall|i: int| 0 <= i < ts.len() ==> params_bound(#[trigger] ts[i], s),
    decreases ts.len(),
{
    if ts.len() > 0 {
        lemma_all_bound_index(ts.drop_last(), s);
        if forall|i: int| 0 <= i < ts.len() ==> params_bound(#[trigger] ts[i], s) {
            assert forall|i: int| 0 <= i < ts.drop_last().len() implies params_bound(
                #[trigger] ts.drop_last()[i],
                s,
            ) by {
                assert(ts.drop_last()[i] == ts[i]);
            }
            assert(params_bound(ts[ts.len() - 1], s));
        }
        if all_bound(ts, s) {
            assert forall|i: int| 0 <= i < ts.len() implies params_bound(#[trigger] ts[i], s) by {
                if i < ts.len() - 1 {
                    assert(ts.drop_last()[i] == ts[i]);
                }
            }
        }
    }
}

/// `subst_all` substitutes each type of the run.
proof fn lemma_subst_all_index(ts: Seq<TyModel>, s: Map<ParamKey, TyModel>)
    ensures
        subst_all(ts, s).len() == ts.len(),
        forall|i: int| 0 <= i < ts.len() ==> #[trigger] subst_all(ts, s)[i] == subst_ty(ts[i], s),
    decreases ts.len(),
{
    if ts.len() > 0 {
        lemma_subst_all_index(ts.drop_last(), s);
        assert forall|i: int| 0 <= i < ts.len() implies #[trigger] subst_all(ts, s)[i] == subst_ty(
            ts[i],
            s,
        ) by {
            if i < ts.len() - 1 {
                assert(ts.drop_last()[i] == ts[i]);
            }
        }
    }
}

/// Bindings added to a substitution change nothing of a type whose
/// parameters were all bound already.
proof fn lemma_stable(t: TyModel, s1: Map<ParamKey, TyModel>, s2: Map<ParamKey, TyModel>)
    requires
        params_bound(t, s1),
        s1.submap_of(s2),
    ensures
        params_bound(t, s2),
        subst_ty(t, s1) == subst_ty(t, s2),
    decreases t,
{
    match t {
        TyModel::Fn(ps, r) => {
            lemma_stable_all(ps, s1, s2);
            lemma_stable(*r, s1, s2);
        },
        TyModel::Tuple(es) => {
            lemma_stable_all(es, s1, s2);
        },
        _ => {},
    }
}

/// `lemma_stable` for a run of types.
proof fn lemma_stable_all(ts: Seq<TyModel>, s1: Map<ParamKey, TyModel>, s2: Map<ParamKey, TyModel>)
    requires
        all_bound(ts, s1),
        s1.submap_of(s2),
    ensures
        all_bound(ts, s2),
        subst_all(ts, s1) == subst_all(ts, s2),
    decreases ts,
{
    if ts.len() > 0 {
        lemma_stable_all(ts.drop_last(), s1, s2);
        lemma_stable(ts.last(), s1, s2);
    }
}

/// Unification only adds bindings: every binding of `s` is still there,
/// unchanged, whether it succeeds or not.
pub proof fn lemma_unify_extends(actual: TyModel, expected: TyModel, s: Map<ParamKey, TyModel>)
    ensures
        s.submap_of(unify_spec(actual, expected, s).0),
    decreases expected,
{
    match expected {
        TyModel::Fn(eps, er) => match actual {
            TyModel::Fn(aps, ar) => if aps.len() == eps.len() {
                lemma_unify_all_extends(aps, eps, s);
                let (s1, r1) = unify_all_spec(aps, eps, s);
                if r1 is None {
                    lemma_unify_extends(*ar, *er, s1);
                    vstd::map_lib::lemma_submap_of_trans(s, s1, unify_spec(*ar, *er, s1).0);
                }
            },
            _ => {},
        },
        TyModel::Tuple(ees) => match actual {
            TyModel::Tuple(aes) => if aes.len() == ees.len() {
                lemma_unify_all_extends(aes, ees, s);
            },
            _ => {},
        },
        TyModel::Param(k) => {
            assert(s.submap_of(unify_spec(actual, expected, s).0));
        },
        _ => {},
    }
}

/// `lemma_unify_extends` for runs of types.
pub proof fn lemma_unify_all_extends(actuals: Seq<TyModel>, expecteds: Seq<TyModel>, s: Map<ParamKey, TyModel>)
    ensures
        s.submap_of(unify_all_spec(actuals, expecteds, s).0),
    decreases expecteds,
{
    if expecteds.len() > 0 && actuals.len() > 0 {
        lemma_unify_extends(actuals[0], expecteds[0], s);
        let (s1, r1) = unify_spec(actuals[0], expecteds[0], s);
        if r1 is None {
            let ar = actuals.subrange(1, actuals.len() as int);
            let er = expecteds.subrange(1, expecteds.len() as int);
            lemma_unify_all_extends(ar, er, s1);
            vstd::map_lib::lemma_submap_of_trans(s, s1, unify_all_spec(ar, er, s1).0);
        }
    }
}

/// Unification is sound: when it succeeds, every parameter of the expected
/// type is bound, and substituting the bindings into the expected type gives
/// back the actual type.
pub proof fn lemma_unify_sound(actual: TyModel, expected: TyModel, s: Map<ParamKey, TyModel>)
    requires
        unify_spec(actual, expected, s).1 is None,
    ensures
        params_bound(expected, unify_spec(actual, expected, s).0),
        subst_ty(expected, unify_spec(actual, expected, s).0) == actual,
    decreases expected,
{
    match expected {
        TyModel::Fn(eps, er) => match actual {
            TyModel::Fn(aps, ar) => if aps.len() == eps.len() {
                let (s1, r1) = unify_all_spec(aps, eps, s);
                lemma_unify_all_sound(aps, eps, s);
                lemma_unify_sound(*ar, *er, s1);
                lemma_unify_extends(*ar, *er, s1);
                let s2 = unify_spec(*ar, *er, s1).0;
                lemma_stable_all(eps, s1, s2);
            },
            _ => {},
        },
        TyModel::Tuple(ees) => match actual {
            TyModel::Tuple(aes) => if aes.len() == ees.len() {
                lemma_unify_all_sound(aes, ees, s);
            },
            _ => {},
        },
        _ => {},
    }
}

/// `lemma_unify_sound` for runs of types of the same length.
pub proof fn lemma_unify_all_sound(actuals: Seq<TyModel>, expecteds: Seq<TyModel>, s: Map<ParamKey, TyModel>)
    requires
        actuals.len() == expecteds.len(),
        unify_all_spec(actuals, expecteds, s).1 is None,
    ensures
        all_bound(expecteds, unify_all_spec(actuals, expecteds, s).0),
        subst_all(expecteds, unify_all_spec(actuals, expecteds, s).0) == actuals,
    decreases expecteds,
{
    let sf = unify_all_spec(actuals, expecteds, s).0;
    if expecteds.len() == 0 {
        assert(subst_all(expecteds, sf) =~= actuals);
    } else {
        let (s1, r1) = unify_spec(actuals[0], expecteds[0], s);
        let ar = actuals.subrange(1, actuals.len() as int);
        let er = expecteds.subrange(1, expecteds.len() as int);
        lemma_unify_sound(actuals[0], expecteds[0], s);
        lemma_unify_all_sound(ar, er, s1);
        lemma_unify_all_extends(ar, er, s1);
        lemma_stable(expecteds[0], s1, sf);
        lemma_all_bound_index(er, sf);
        lemma_all_bound_index(expecteds, sf);
        lemma_subst_all_index(er, sf);
        lemma_subst_all_index(expecteds, sf);
        assert forall|i: int| 0 <= i < expecteds.len() implies params_bound(
            #[trigger] expecteds[i],
            sf,
        ) by {
            if i > 0 {
                assert(expecteds[i] == er[i - 1]);
            }
        }
        assert forall|i: int| 0 <= i < expecteds.len() implies #[trigger] subst_all(expecteds, sf)[i]
            == actuals[i] by {
            if i > 0 {
                assert(expecteds[i] == er[i - 1]);
                assert(subst_all(er, sf)[i - 1] == ar[i - 1]);
            }
        }
        assert(subst_all(expecteds, sf) =~= actuals);
    }
}

/// What a substitution says of a parameter: its binding, or the parameter
/// itself where it has none.
pub open spec fn lookup(ext: Map<ParamKey, TyModel>, k: ParamKey) -> TyModel {
    if ext.contains_key(k) {
        ext[k]
    } else {
        TyModel::Param(k)
    }
}

/// Every binding of `m` is what `ext` says of its parameter.
pub open spec fn agrees(m: Map<ParamKey, TyModel>, ext: Map<ParamKey, TyModel>) -> bool {
    forall|k: ParamKey| #[trigger] m.contains_key(k) ==> m[k] == lookup(ext, k)
}

/// Completeness, under bindings that agree with `ext`.
proof fn lemma_unify_complete_agrees(
    actual: TyModel,
    expected: TyModel,
    s: Map<ParamKey, TyModel>,
    ext: Map<ParamKey, TyModel>,
)
    requires
        agrees(s, ext),
        subst_ty(expected, ext) == actual,
    ensures
        unify_spec(actual, expected, s).1 is None,
        agrees(unify_spec(actual, expected, s).0, ext),
    decreases expected,
{
    match expected {
        TyModel::Param(k) => {
            let r = unify_spec(actual, expected, s).0;
            if !s.contains_key(k) {
                assert forall|j: ParamKey| #[trigger] r.contains_key(j) implies r[j] == lookup(ext, j) by {
                    if j != k {
                        assert(s.contains_key(j));
                    }
                }
            }
        },
        TyModel::Fn(eps, er) => {
            lemma_subst_all_index(eps, ext);
            match actual {
                TyModel::Fn(aps, ar) => {
                    lemma_unify_all_complete_agrees(aps, eps, s, ext);
                    let s1 = unify_all_spec(aps, eps, s).0;
                    lemma_unify_complete_agrees(*ar, *er, s1, ext);
                },
                _ => {},
            }
        },
        TyModel::Tuple(ees) => {
            lemma_subst_all_index(ees, ext);
            match actual {
                TyModel::Tuple(aes) => {
                    lemma_unify_all_complete_agrees(aes, ees, s, ext);
                },
                _ => {},
            }
        },
        _ => {},
    }
}

/// `lemma_unify_complete_agrees` for runs of types.
proof fn lemma_unify_all_complete_agrees(
    actuals: Seq<TyModel>,
    expecteds: Seq<TyModel>,
    s: Map<ParamKey, TyModel>,
    ext: Map<ParamKey, TyModel>,
)
    requires
        agrees(s, ext),
        subst_all(expecteds, ext) == actuals,
    ensures
        unify_all_spec(actuals, expecteds, s).1 is None,
        agrees(unify_all_spec(actuals, expecteds, s).0, ext),
    decreases expecteds,
{
    lemma_subst_all_index(expecteds, ext);
    if expecteds.len() > 0 {
        let ar = actuals.subrange(1, actuals.len() as int);
        let er = expecteds.subrange(1, expecteds.len() as int);
        lemma_unify_complete_agrees(actuals[0], expecteds[0], s, ext);
        let s1 = unify_spec(actuals[0], expecteds[0], s).0;
        lemma_subst_all_index(er, ext);
        assert forall|i: int| 0 <= i < er.len() implies #[trigger] subst_all(er, ext)[i] == ar[i] by {
            assert(er[i] == expecteds[i + 1]);
            assert(subst_all(expecteds, ext)[i + 1] == actuals[i + 1]);
        }
        assert(subst_all(er, ext) =~= ar);
        lemma_unify_all_complete_agrees(ar, er, s1, ext);
    }
}

/// Unification is complete: where some extension `ext` of the substitution
/// makes the expected type equal to the actual type, unification succeeds;
/// the bindings it leaves keep the old ones, and each new one is what `ext`
/// says of its parameter (the parameter itself where `ext` leaves it
/// unbound).
pub proof fn lemma_unify_complete(
    actual: TyModel,
    expected: TyModel,
    s: Map<ParamKey, TyModel>,
    ext: Map<ParamKey, TyModel>,
)
    requires
        s.submap_of(ext),
        subst_ty(expected, ext) == actual,
    ensures
        unify_spec(actual, expected, s).1 is None,
        s.submap_of(unify_spec(actual, expected, s).0),
        agrees(unify_spec(actual, expected, s).0, ext),
{
    assert(agrees(s, ext));
    lemma_unify_complete_agrees(actual, expected, s, ext);
    lemma_unify_extends(actual, expected, s);
}

/// Unifying against an expected type whose parameters are all bound already
/// adds no binding, whatever the outcome.
proof fn lemma_unify_bound_keeps(actual: TyModel, expected: TyModel, s: Map<ParamKey, TyModel>)
    requires
        params_bound(expected, s),
    ensures
        unify_spec(actual, expected, s).0 == s,
    decreases expected,
{
    match expected {
        TyModel::Fn(eps, er) => match actual {
            TyModel::Fn(aps, ar) => if aps.len() == eps.len() {
                lemma_unify_all_bound_keeps(aps, eps, s);
                lemma_unify_bound_keeps(*ar, *er, s);
            },
            _ => {},
        },
        TyModel::Tuple(ees) => match actual {
            TyModel::Tuple(aes) => if aes.len() == ees.len() {
                lemma_unify_all_bound_keeps(aes, ees, s);
            },
            _ => {},
        },
        _ => {},
    }
}

/// `lemma_unify_bound_keeps` for runs of types.
proof fn lemma_unify_all_bound_keeps(actuals: Seq<TyModel>, expecteds: Seq<TyModel>, s: Map<ParamKey, TyModel>)
    requires
        all_bound(expecteds, s),
    ensures
        unify_all_spec(actuals, expecteds, s).0 == s,
    decreases expecteds,
{
    if expecteds.len() > 0 && actuals.len() > 0 {
        let ar = actuals.subrange(1, actuals.len() as int);
        let er = expecteds.subrange(1, expecteds.len() as int);
        lemma_all_bound_index(expecteds, s);
        lemma_all_bound_index(er, s);
        assert forall|i: int| 0 <= i < er.len() implies params_bound(#[trigger] er[i], s) by {
            assert(er[i] == expecteds[i + 1]);
        }
        lemma_unify_bound_keeps(actuals[0], expecteds[0], s);
        lemma_unify_all_bound_keeps(ar, er, s);
    }
}

/// A type unifies with an expected type whose parameters are all bound
/// exactly when it is that type with the bindings substituted, and either
/// way the substitution is left unchanged: a parameter already bound to `t`
/// unifies with `t`.
pub proof fn lemma_unify_bound_iff(actual: TyModel, expected: TyModel, s: Map<ParamKey, TyModel>)
    requires
        params_bound(expected, s),
    ensures
        unify_spec(actual, expected, s).0 == s,
        unify_spec(actual, expected, s).1 is None <==> actual == subst_ty(expected, s),
{
    lemma_unify_bound_keeps(actual, expected, s);
    if actual == subst_ty(expected, s) {
        lemma_unify_complete(actual, expected, s, s);
    }
    if unify_spec(actual, expected, s).1 is None {
        lemma_unify_sound(actual, expected, s);
    }
}

/// Unification succeeds exactly when some extension of the substitution makes
/// the expected type equal to the actual type.
pub proof fn lemma_unify_succeeds_iff(actual: TyModel, expected: TyModel, s: Map<ParamKey, TyModel>)
    ensures
        unify_spec(actual, expected, s).1 is None <==> exists|ext: Map<ParamKey, TyModel>|
            s.submap_of(ext) && #[trigger] subst_ty(expected, ext) == actual,
{
    if unify_spec(actual, expected, s).1 is None {
        lemma_unify_sound(actual, expected, s);
        lemma_unify_extends(actual, expected, s);
        let ext = unify_spec(actual, expected, s).0;
        assert(s.submap_of(ext) && subst_ty(expected, ext) == actual);
    }
    if exists|ext: Map<ParamKey, TyModel>| s.submap_of(ext) && #[trigger] subst_ty(expected, ext) == actual {
        let ext = choose|ext: Map<ParamKey, TyModel>| s.submap_of(ext) && #[trigger] subst_ty(expected, ext) == actual;
        lemma_unify_complete(actual, expected, s, ext);
    }
}

} // verus!
