//! The type checker's collect pass over struct and trait definitions:
//! resolving written types against the environment, recording each struct
//! field's type in the type map, defining each struct's name, and entering
//! each trait's method signatures in the trait registry; and the check of a
//! struct literal's fields against its struct's.
//!
//! Field types are resolved before any struct of the batch is defined, so a
//! field naming a struct of the same batch resolves by what the environment
//! held before the pass.

use crate::env::{resolve, BindingModel, Mutability, TypeEnv};
use crate::hir::{HirField, HirItem, HirTraitMethod, HirTy, HirTypeParam};
use crate::unify::{copy_ty, FnTy, InstanceTy, StructTy, Ty, TyModel, TypeParamId};
use vstd::prelude::*;

verus! {

/// The state the collect pass reads and writes.
pub struct TypeChecker {
    /// The scoped type environment.
    pub env: TypeEnv,
    /// The type map: an id and its type, in the order they were recorded; a
    /// later entry for an id replaces an earlier one.
    pub types: Vec<(usize, Ty)>,
    /// The type parameters in scope, outermost first: name and declaring id.
    pub type_params: Vec<(String, usize)>,
    /// The `Self` type inside an impl block.
    pub self_type: Option<Ty>,
    /// The trait registry, in the order traits were entered; a later entry
    /// for a name replaces an earlier one.
    pub trait_registry: Vec<TraitInfo>,
    /// The diagnostics emitted so far, in order.
    pub diagnostics: Vec<TypeDiagnostic>,
}

/// A type diagnostic. Each names the node whose span it points at.
#[derive(Debug, PartialEq)]
pub enum TypeDiagnostic {
    /// A struct literal leaves out a field of its struct.
    StructMissingField { name: String, field: String, at: usize },
    /// A struct literal sets a field its struct does not have.
    StructUnknownField { name: String, field: String, at: usize },
    /// A struct literal sets a different number of fields than its struct has.
    StructFieldCountMismatch { name: String, expected: usize, found: usize, at: usize },
    /// A value's type differs from the type expected of it.
    TypeMismatch { expected: Ty, found: Ty, at: usize },
}

/// A diagnostic, as a value.
pub enum DiagModel {
    Missing(Seq<char>, Seq<char>, nat),
    Unknown(Seq<char>, Seq<char>, nat),
    Count(Seq<char>, nat, nat, nat),
    Mismatch(TyModel, TyModel, nat),
}

/// A diagnostic's value.
pub open spec fn diag_view(d: TypeDiagnostic) -> DiagModel {
    match d {
        TypeDiagnostic::StructMissingField { name, field, at } => DiagModel::Missing(
            name@,
            field@,
            at as nat,
        ),
        TypeDiagnostic::StructUnknownField { name, field, at } => DiagModel::Unknown(
            name@,
            field@,
            at as nat,
        ),
        TypeDiagnostic::StructFieldCountMismatch { name, expected, found, at } => DiagModel::Count(
            name@,
            expected as nat,
            found as nat,
            at as nat,
        ),
        TypeDiagnostic::TypeMismatch { expected, found, at } => DiagModel::Mismatch(
            expected@,
            found@,
            at as nat,
        ),
    }
}

/// The diagnostics' values.
pub open spec fn diags_view(v: Seq<TypeDiagnostic>) -> Seq<DiagModel> {
    v.map_values(|d: TypeDiagnostic| diag_view(d))
}

/// A trait method's signature: its name, parameter types and return type.
pub struct TraitMethodInfo {
    pub name: String,
    pub params: Vec<Ty>,
    pub return_type: Ty,
}

/// A trait as the registry holds it.
pub struct TraitInfo {
    pub name: String,
    pub def_id: usize,
    /// Methods without a default body, in order.
    pub required_methods: Vec<TraitMethodInfo>,
    /// Methods with a default body, in order.
    pub default_methods: Vec<TraitMethodInfo>,
    /// The names bounding the trait's type parameters, in order.
    pub supertraits: Vec<String>,
}

/// A method signature, as a value.
pub type MethodModel = (Seq<char>, Seq<TyModel>, TyModel);

/// A registry entry, as a value.
pub type TraitModel = (Seq<char>, nat, Seq<MethodModel>, Seq<MethodModel>, Seq<Seq<char>>);

/// A method signature's value.
pub open spec fn method_view(m: TraitMethodInfo) -> MethodModel {
    (m.name@, crate::unify::tys_model(m.params@), m.return_type@)
}

/// A run of method signatures' values.
pub open spec fn methods_view(ms: Seq<TraitMethodInfo>) -> Seq<MethodModel> {
    ms.map_values(|m: TraitMethodInfo| method_view(m))
}

/// A run of names' values.
pub open spec fn names_view(ns: Seq<String>) -> Seq<Seq<char>> {
    ns.map_values(|n: String| n@)
}

/// A registry entry's value.
pub open spec fn trait_view(t: TraitInfo) -> TraitModel {
    (
        t.name@,
        t.def_id as nat,
        methods_view(t.required_methods@),
        methods_view(t.default_methods@),
        names_view(t.supertraits@),
    )
}

/// The registry's entries' values.
pub open spec fn registry_view(v: Seq<TraitInfo>) -> Seq<TraitModel> {
    v.map_values(|t: TraitInfo| trait_view(t))
}

/// A trait's type parameters as the resolver sees them: name and id.
pub open spec fn trait_params(tps: Seq<HirTypeParam>) -> Seq<(Seq<char>, nat)> {
    tps.map_values(|tp: HirTypeParam| (tp.name@, tp.id as nat))
}

/// The types of a method's parameters: a parameter without a written type is
/// `Error`.
pub open spec fn param_tys(
    env: Seq<Map<Seq<char>, BindingModel>>,
    ps: Seq<(Seq<char>, nat)>,
    st: Option<TyModel>,
    pts: Seq<Option<HirTy>>,
) -> Seq<TyModel>
    decreases pts.len(),
{
    if pts.len() == 0 {
        Seq::empty()
    } else {
        param_tys(env, ps, st, pts.drop_last()).push(
            match pts.last() {
                Some(t) => resolve_ty(env, ps, st, t),
                None => TyModel::Error,
            },
        )
    }
}

/// A trait method's signature: its return type defaults to `Unit`.
pub open spec fn method_sig(
    env: Seq<Map<Seq<char>, BindingModel>>,
    ps: Seq<(Seq<char>, nat)>,
    st: Option<TyModel>,
    m: HirTraitMethod,
) -> MethodModel {
    (
        m.name@,
        param_tys(env, ps, st, m.params@),
        match m.return_type {
            Some(t) => resolve_ty(env, ps, st, t),
            None => TyModel::Unit,
        },
    )
}

/// The signatures of the methods with (or without) a default body, in order.
pub open spec fn method_sigs(
    env: Seq<Map<Seq<char>, BindingModel>>,
    ps: Seq<(Seq<char>, nat)>,
    st: Option<TyModel>,
    ms: Seq<HirTraitMethod>,
    with_body: bool,
) -> Seq<MethodModel>
    decreases ms.len(),
{
    if ms.len() == 0 {
        Seq::empty()
    } else {
        let prev = method_sigs(env, ps, st, ms.drop_last(), with_body);
        if ms.last().body.is_some() == with_body {
            prev.push(method_sig(env, ps, st, ms.last()))
        } else {
            prev
        }
    }
}

/// The names bounding a run of type parameters, parameter by parameter.
pub open spec fn bound_names(tps: Seq<HirTypeParam>) -> Seq<Seq<char>>
    decreases tps.len(),
{
    if tps.len() == 0 {
        Seq::empty()
    } else {
        bound_names(tps.drop_last()) + names_view(tps.last().bounds@)
    }
}

/// The registry entries the collect pass makes: one per trait, in order, its
/// methods resolved with the trait's type parameters in scope.
pub open spec fn trait_entries(
    env: Seq<Map<Seq<char>, BindingModel>>,
    st: Option<TyModel>,
    items: Seq<HirItem>,
) -> Seq<TraitModel>
    decreases items.len(),
{
    if items.len() == 0 {
        Seq::empty()
    } else {
        let prev = trait_entries(env, st, items.drop_last());
        match items.last() {
            HirItem::TraitDef { id, name, type_params, methods } => {
                let ps = trait_params(type_params@);
                prev.push(
                    (
                        name@,
                        id as nat,
                        method_sigs(env, ps, st, methods@, false),
                        method_sigs(env, ps, st, methods@, true),
                        bound_names(type_params@),
                    ),
                )
            },
            _ => prev,
        }
    }
}

/// Whether some trait among the items declares a method.
pub open spec fn declares_trait_method(items: Seq<HirItem>) -> bool
    decreases items.len(),
{
    if items.len() == 0 {
        false
    } else {
        declares_trait_method(items.drop_last()) || match items.last() {
            HirItem::TraitDef { methods, .. } => methods.len() > 0,
            _ => false,
        }
    }
}

/// The type map's entries, as values.
pub open spec fn types_view(v: Seq<(usize, Ty)>) -> Seq<(nat, TyModel)> {
    v.map_values(|e: (usize, Ty)| (e.0 as nat, e.1@))
}

/// The type parameters in scope, as values.
pub open spec fn params_view(v: Seq<(String, usize)>) -> Seq<(Seq<char>, nat)> {
    v.map_values(|e: (String, usize)| (e.0@, e.1 as nat))
}

/// The `Self` type, as a value.
pub open spec fn self_view(t: Option<Ty>) -> Option<TyModel> {
    match t {
        Some(t) => Some(t@),
        None => None,
    }
}

/// The built-in type a name denotes, if any.
pub open spec fn builtin_ty(name: Seq<char>) -> Option<TyModel> {
    if name == "Int"@ {
        Some(TyModel::Int)
    } else if name == "Float"@ {
        Some(TyModel::Float)
    } else if name == "Bool"@ {
        Some(TyModel::Bool)
    } else if name == "String"@ {
        Some(TyModel::Str)
    } else if name == "Unit"@ {
        Some(TyModel::Unit)
    } else {
        None
    }
}

/// The position of the first type parameter with this name.
pub open spec fn param_position(ps: Seq<(Seq<char>, nat)>, name: Seq<char>) -> Option<nat>
    decreases ps.len(),
{
    if ps.len() == 0 {
        None
    } else if ps[0].0 == name {
        Some(0)
    } else {
        match param_position(ps.drop_first(), name) {
            Some(i) => Some(i + 1),
            None => None,
        }
    }
}

/// What a written type denotes: built-in names first, then `Self`, then the
/// environment's binding; a type parameter by its position in scope; a
/// generic type applied to its resolved arguments. What nothing names is
/// `Error`.
pub open spec fn resolve_ty(
    env: Seq<Map<Seq<char>, BindingModel>>,
    ps: Seq<(Seq<char>, nat)>,
    self_ty: Option<TyModel>,
    t: HirTy,
) -> TyModel
    decreases t,
{
    match t {
        HirTy::Named(n) => match builtin_ty(n@) {
            Some(b) => b,
            None => if n@ == "Self"@ {
                match self_ty {
                    Some(s) => s,
                    None => TyModel::Error,
                }
            } else {
                match resolve(env, n@) {
                    Some(b) => b.0,
                    None => TyModel::Error,
                }
            },
        },
        HirTy::Unit => TyModel::Unit,
        HirTy::Tuple(es) => TyModel::Tuple(resolve_tys(env, ps, self_ty, es@)),
        HirTy::Fn { params, return_type } => TyModel::Fn(
            resolve_tys(env, ps, self_ty, params@),
            Box::new(resolve_ty(env, ps, self_ty, *return_type)),
        ),
        HirTy::TypeParam(n) => match param_position(ps, n@) {
            Some(i) => TyModel::Param((n@, i, ps[i as int].1)),
            None => TyModel::Error,
        },
        HirTy::Instance { name, args } => match builtin_ty(name@) {
            Some(b) => b,
            None => TyModel::Instance(name@, 0, resolve_tys(env, ps, self_ty, args@)),
        },
        HirTy::Error => TyModel::Error,
    }
}

/// What a run of written types denotes, type by type.
pub open spec fn resolve_tys(
    env: Seq<Map<Seq<char>, BindingModel>>,
    ps: Seq<(Seq<char>, nat)>,
    self_ty: Option<TyModel>,
    ts: Seq<HirTy>,
) -> Seq<TyModel>
    decreases ts,
{
    if ts.len() == 0 {
        Seq::empty()
    } else {
        resolve_tys(env, ps, self_ty, ts.drop_last()).push(
            resolve_ty(env, ps, self_ty, ts.last()),
        )
    }
}

/// The type-map entries of a run of fields: each field's id and resolved
/// type.
pub open spec fn field_entries(
    env: Seq<Map<Seq<char>, BindingModel>>,
    ps: Seq<(Seq<char>, nat)>,
    self_ty: Option<TyModel>,
    fs: Seq<HirField>,
) -> Seq<(nat, TyModel)>
    decreases fs.len(),
{
    if fs.len() == 0 {
        Seq::empty()
    } else {
        field_entries(env, ps, self_ty, fs.drop_last()).push(
            (fs.last().id as nat, resolve_ty(env, ps, self_ty, fs.last().ty)),
        )
    }
}

/// The type-map entries the collect pass records: every struct's fields, in
/// order.
pub open spec fn struct_field_entries(
    env: Seq<Map<Seq<char>, BindingModel>>,
    ps: Seq<(Seq<char>, nat)>,
    self_ty: Option<TyModel>,
    items: Seq<HirItem>,
) -> Seq<(nat, TyModel)>
    decreases items.len(),
{
    if items.len() == 0 {
        Seq::empty()
    } else {
        struct_field_entries(env, ps, self_ty, items.drop_last()) + match items.last() {
            HirItem::StructDef { fields, .. } => field_entries(env, ps, self_ty, fields@),
            _ => Seq::empty(),
        }
    }
}

/// Defining a name in the innermost scope.
pub open spec fn env_define(
    env: Seq<Map<Seq<char>, BindingModel>>,
    name: Seq<char>,
    b: BindingModel,
) -> Seq<Map<Seq<char>, BindingModel>> {
    env.update(env.len() - 1, env.last().insert(name, b))
}

/// The environment after the collect pass: each struct, in order, defined
/// as its own nominal type, immutable.
pub open spec fn define_structs(
    env: Seq<Map<Seq<char>, BindingModel>>,
    items: Seq<HirItem>,
) -> Seq<Map<Seq<char>, BindingModel>>
    decreases items.len(),
{
    if items.len() == 0 {
        env
    } else {
        let e = define_structs(env, items.drop_last());
        match items.last() {
            HirItem::StructDef { id, name, .. } => env_define(
                e,
                name@,
                (TyModel::Struct(name@, id as nat), id as nat, Mutability::Immutable),
            ),
            _ => e,
        }
    }
}

/// The structs among the items: name and id, in order.
pub open spec fn struct_names(items: Seq<HirItem>) -> Seq<(Seq<char>, nat)>
    decreases items.len(),
{
    if items.len() == 0 {
        Seq::empty()
    } else {
        struct_names(items.drop_last()) + match items.last() {
            HirItem::StructDef { id, name, .. } => seq![(name@, id as nat)],
            _ => Seq::empty(),
        }
    }
}

/// The environment after defining each named struct in order.
pub open spec fn define_names(
    env: Seq<Map<Seq<char>, BindingModel>>,
    ns: Seq<(Seq<char>, nat)>,
) -> Seq<Map<Seq<char>, BindingModel>>
    decreases ns.len(),
{
    if ns.len() == 0 {
        env
    } else {
        let (name, id) = ns.last();
        env_define(
            define_names(env, ns.drop_last()),
            name,
            (TyModel::Struct(name, id), id, Mutability::Immutable),
        )
    }
}

/// Defining the structs one by one is defining their names in order.
proof fn lemma_define_structs(env: Seq<Map<Seq<char>, BindingModel>>, items: Seq<HirItem>)
    ensures
        define_structs(env, items) == define_names(env, struct_names(items)),
    decreases items.len(),
{
    if items.len() > 0 {
        lemma_define_structs(env, items.drop_last());
        let ns = struct_names(items.drop_last());
        match items.last() {
            HirItem::StructDef { id, name, .. } => {
                let ns2 = ns + seq![(name@, id as nat)];
                assert(ns2.drop_last() =~= ns);
                assert(struct_names(items) == ns2);
            },
            _ => {
                assert(struct_names(items) =~= ns);
            },
        }
    }
}

/// The built-in type a name denotes.
fn builtin_named(name: &String) -> (r: Option<Ty>)
    ensures
        match builtin_ty(name@) {
            Some(b) => r matches Some(t) && t@ == b,
            None => r is None,
        },
{
    if *name == "Int".to_owned() {
        Some(Ty::Int)
    } else if *name == "Float".to_owned() {
        Some(Ty::Float)
    } else if *name == "Bool".to_owned() {
        Some(Ty::Bool)
    } else if *name == "String".to_owned() {
        Some(Ty::String)
    } else if *name == "Unit".to_owned() {
        Some(Ty::Unit)
    } else {
        None
    }
}

impl TypeChecker {
    /// The checker's invariant: its environment's.
    pub open spec fn wf(&self) -> bool {
        self.env.wf()
    }

    /// What a written type denotes in this checker's scope.
    pub open spec fn resolves(&self, t: HirTy) -> TyModel {
        resolve_ty(self.env@, params_view(self.type_params@), self_view(self.self_type), t)
    }

    /// Resolve a written type against the environment, the type parameters in
    /// scope and the `Self` type.
    pub fn resolve_hir_ty(&self, hir_ty: &HirTy) -> (r: Ty)
        requires
            self.wf(),
        ensures
            r@ == self.resolves(*hir_ty),
        decreases hir_ty,
    {
        match hir_ty {
            HirTy::Named(n) => {
                match builtin_named(n) {
                    Some(b) => {
                        return b;
                    },
                    None => {},
                }
                if *n == "Self".to_owned() {
                    return match &self.self_type {
                        Some(t) => copy_ty(t),
                        None => Ty::Error,
                    };
                }
                match self.env.lookup(n.as_str()) {
                    Some(info) => copy_ty(&info.ty),
                    None => Ty::Error,
                }
            },
            HirTy::Unit => Ty::Unit,
            HirTy::Tuple(es) => Ty::Tuple(self.resolve_hir_tys(es)),
            HirTy::Fn { params, return_type } => {
                let ps = self.resolve_hir_tys(params);
                let ret = self.resolve_hir_ty(return_type);
                Ty::Fn(FnTy { params: ps, return_type: Box::new(ret) })
            },
            HirTy::TypeParam(n) => {
                let ghost pv = params_view(self.type_params@);
                let mut i: usize = 0;
                proof {
                    assert(pv.subrange(0, pv.len() as int) =~= pv);
                }
                while i < self.type_params.len()
                    invariant
                        i <= self.type_params@.len(),
                        *hir_ty == HirTy::TypeParam(*n),
                        pv == params_view(self.type_params@),
                        forall|j: int| 0 <= j < i ==> pv[j].0 != n@,
                        param_position(pv, n@) == match param_position(
                            pv.subrange(i as int, pv.len() as int),
                            n@,
                        ) {
                            Some(k) => Some((k + i) as nat),
                            None => None,
                        },
                    decreases self.type_params.len() - i,
                {
                    let ghost rest = pv.subrange(i as int, pv.len() as int);
                    proof {
                        assert(rest.drop_first() =~= pv.subrange(i as int + 1, pv.len() as int));
                        assert(rest[0] == pv[i as int]);
                    }
                    proof {
                        assert(pv[i as int] == (self.type_params@[i as int].0@, self.type_params@[i as int].1 as nat));
                    }
                    if self.type_params[i].0 == *n {
                        proof {
                            assert(param_position(rest, n@) == Some(0nat));
                            assert(param_position(pv, n@) == Some(i as nat));
                        }
                        let nm = n.as_str().to_owned();
                        let d = self.type_params[i].1;
                        proof {
                            assert(nm@ == n@);
                            assert(pv[i as int].1 == d as nat);
                        }
                        let r = Ty::TypeParam(TypeParamId { name: nm, index: i, def_id: d });
                        proof {
                            assert(r@ == TyModel::Param((n@, i as nat, d as nat)));
                            assert(*hir_ty == HirTy::TypeParam(*n));
                            assert(param_position(pv, n@) == Some(i as nat));
                            assert(resolve_ty(self.env@, pv, self_view(self.self_type), HirTy::TypeParam(*n))
                                == TyModel::Param((n@, i as nat, pv[i as int].1)));
                            assert(self.resolves(*hir_ty) == TyModel::Param((n@, i as nat, pv[i as int].1)));
                        }
                        return r;
                    }
                    i = i + 1;
                }
                proof {
                    assert(pv.subrange(i as int, pv.len() as int).len() == 0);
                }
                Ty::Error
            },
            HirTy::Instance { name, args } => {
                match builtin_named(name) {
                    Some(b) => b,
                    None => {
                        let a = self.resolve_hir_tys(args);
                        Ty::Instance(InstanceTy { name: name.clone(), def_id: 0, args: a })
                    },
                }
            },
            HirTy::Error => Ty::Error,
        }
    }

    /// Resolve a run of written types, type by type.
    fn resolve_hir_tys(&self, ts: &Vec<HirTy>) -> (r: Vec<Ty>)
        requires
            self.wf(),
        ensures
            crate::unify::tys_model(r@) == resolve_tys(
                self.env@,
                params_view(self.type_params@),
                self_view(self.self_type),
                ts@,
            ),
        decreases ts,
    {
        let ghost ps = params_view(self.type_params@);
        let ghost st = self_view(self.self_type);
        let mut out: Vec<Ty> = Vec::new();
        let mut i: usize = 0;
        while i < ts.len()
            invariant
                i <= ts@.len(),
                self.wf(),
                ps == params_view(self.type_params@),
                st == self_view(self.self_type),
                crate::unify::tys_model(out@) == resolve_tys(self.env@, ps, st, ts@.take(i as int)),
            decreases ts.len() - i,
        {
            proof {
                assert(decreases_to!(ts => ts@[i as int])) by {
                    assert(decreases_to!(ts => ts@));
                }
                assert(ts@.take(i as int + 1).drop_last() =~= ts@.take(i as int));
            }
            let t = self.resolve_hir_ty(&ts[i]);
            let ghost before = out@;
            out.push(t);
            proof {
                assert(out@.drop_last() =~= before);
            }
            i = i + 1;
        }
        proof {
            assert(ts@.take(ts@.len() as int) =~= ts@);
        }
        out
    }

    /// Resolve a trait method's signature with the given type parameters in
    /// scope, leaving the scope empty afterwards.
    fn method_info(&mut self, ps: &Vec<(String, usize)>, m: &HirTraitMethod) -> (r: TraitMethodInfo)
        requires
            old(self).wf(),
        ensures
            final(self).wf(),
            method_view(r) == method_sig(
                old(self).env@,
                params_view(ps@),
                self_view(old(self).self_type),
                *m,
            ),
            final(self).env@ == old(self).env@,
            final(self).types@ == old(self).types@,
            final(self).type_params@ == Seq::<(String, usize)>::empty(),
            final(self).self_type == old(self).self_type,
            final(self).trait_registry@ == old(self).trait_registry@,
            final(self).diagnostics@ == old(self).diagnostics@,
    {
        let mut scope: Vec<(String, usize)> = Vec::new();
        let mut k: usize = 0;
        while k < ps.len()
            invariant
                k <= ps@.len(),
                params_view(scope@) == params_view(ps@).take(k as int),
            decreases ps.len() - k,
        {
            let ghost before = scope@;
            let nm = ps[k].0.clone();
            scope.push((nm, ps[k].1));
            proof {
                assert(nm@ == ps@[k as int].0@);
                assert(params_view(scope@) =~= params_view(before).push((nm@, ps@[k as int].1 as nat)));
                assert(params_view(ps@).take(k as int + 1) =~= params_view(ps@).take(k as int).push(
                    params_view(ps@)[k as int],
                ));
                assert(params_view(scope@) =~= params_view(ps@).take(k as int + 1));
            }
            k = k + 1;
        }
        proof {
            assert(params_view(ps@).take(ps@.len() as int) =~= params_view(ps@));
        }
        self.type_params = scope;
        let ghost pv = params_view(ps@);
        let ghost st = self_view(self.self_type);
        let mut params: Vec<Ty> = Vec::new();
        let mut i: usize = 0;
        while i < m.params.len()
            invariant
                i <= m.params@.len(),
                self.wf(),
                params_view(self.type_params@) == pv,
                st == self_view(self.self_type),
                self.env@ == old(self).env@,
                crate::unify::tys_model(params@) == param_tys(self.env@, pv, st, m.params@.take(i as int)),
            decreases m.params.len() - i,
        {
            proof {
                assert(m.params@.take(i as int + 1).drop_last() =~= m.params@.take(i as int));
            }
            let t = match &m.params[i] {
                Some(t) => self.resolve_hir_ty(t),
                None => Ty::Error,
            };
            let ghost before = params@;
            params.push(t);
            proof {
                assert(params@.drop_last() =~= before);
            }
            i = i + 1;
        }
        proof {
            assert(m.params@.take(m.params@.len() as int) =~= m.params@);
        }
        let return_type = match &m.return_type {
            Some(t) => self.resolve_hir_ty(t),
            None => Ty::Unit,
        };
        self.type_params = Vec::new();
        TraitMethodInfo { name: m.name.clone(), params, return_type }
    }

    /// The collect pass over trait definitions: enter each trait in the
    /// registry with its methods' signatures, split by whether they have a
    /// default body, and the names bounding its type parameters as its
    /// supertraits. Each method is resolved with the trait's type parameters
    /// in scope, and the scope is emptied after it.
    pub fn collect_trait_defs(&mut self, items: &Vec<HirItem>)
        requires
            old(self).wf(),
        ensures
            final(self).wf(),
            registry_view(final(self).trait_registry@) == registry_view(old(self).trait_registry@)
                + trait_entries(old(self).env@, self_view(old(self).self_type), items@),
            final(self).env@ == old(self).env@,
            final(self).types@ == old(self).types@,
            final(self).self_type == old(self).self_type,
            declares_trait_method(items@) ==> final(self).type_params@ == Seq::<
                (String, usize),
            >::empty(),
            !declares_trait_method(items@) ==> final(self).type_params@ == old(self).type_params@,
            final(self).diagnostics@ == old(self).diagnostics@,
    {
        let ghost env0 = self.env@;
        let ghost st = self_view(self.self_type);
        let ghost r0 = registry_view(self.trait_registry@);
        let mut i: usize = 0;
        while i < items.len()
            invariant
                i <= items@.len(),
                self.wf(),
                self.env@ == env0,
                self.types@ == old(self).types@,
                self.self_type == old(self).self_type,
                self.diagnostics@ == old(self).diagnostics@,
                st == self_view(self.self_type),
                registry_view(self.trait_registry@) == r0 + trait_entries(env0, st, items@.take(i as int)),
                declares_trait_method(items@.take(i as int)) ==> self.type_params@ == Seq::<
                    (String, usize),
                >::empty(),
                !declares_trait_method(items@.take(i as int)) ==> self.type_params@ == old(
                    self,
                ).type_params@,
            decreases items.len() - i,
        {
            proof {
                assert(items@.take(i as int + 1).drop_last() =~= items@.take(i as int));
            }
            match &items[i] {
                HirItem::TraitDef { id, name, type_params, methods } => {
                    let mut ps: Vec<(String, usize)> = Vec::new();
                    let mut supers: Vec<String> = Vec::new();
                    let mut k: usize = 0;
                    while k < type_params.len()
                        invariant
                            k <= type_params@.len(),
                            params_view(ps@) == trait_params(type_params@).take(k as int),
                            names_view(supers@) == bound_names(type_params@.take(k as int)),
                        decreases type_params.len() - k,
                    {
                        let tp = &type_params[k];
                        let ghost pb = ps@;
                        let tn = tp.name.clone();
                        ps.push((tn, tp.id));
                        proof {
                            assert(tn@ == tp.name@);
                            assert(params_view(ps@) =~= params_view(pb).push((tn@, tp.id as nat)));
                            assert(trait_params(type_params@).take(k as int + 1) =~= trait_params(
                                type_params@,
                            ).take(k as int).push(trait_params(type_params@)[k as int]));
                        }
                        let mut b: usize = 0;
                        let ghost s0 = names_view(supers@);
                        while b < tp.bounds.len()
                            invariant
                                b <= tp.bounds@.len(),
                                names_view(supers@) == s0 + names_view(tp.bounds@).take(b as int),
                            decreases tp.bounds.len() - b,
                        {
                            let ghost sb = supers@;
                            let bn = tp.bounds[b].clone();
                            supers.push(bn);
                            proof {
                                assert(bn@ == tp.bounds@[b as int]@);
                                assert(names_view(supers@) =~= names_view(sb).push(bn@));
                                assert(names_view(tp.bounds@).take(b as int + 1) =~= names_view(
                                    tp.bounds@,
                                ).take(b as int).push(names_view(tp.bounds@)[b as int]));
                                assert(names_view(supers@) =~= s0 + names_view(tp.bounds@).take(
                                    b as int + 1,
                                ));
                            }
                            b = b + 1;
                        }
                        proof {
                            assert(names_view(tp.bounds@).take(tp.bounds@.len() as int) =~= names_view(
                                tp.bounds@,
                            ));
                            assert(type_params@.take(k as int + 1).drop_last() =~= type_params@.take(
                                k as int,
                            ));
                            assert(params_view(ps@) =~= trait_params(type_params@).take(k as int + 1));
                        }
                        k = k + 1;
                    }
                    proof {
                        assert(trait_params(type_params@).take(type_params@.len() as int) =~= trait_params(
                            type_params@,
                        ));
                        assert(type_params@.take(type_params@.len() as int) =~= type_params@);
                    }
                    let ghost pv = trait_params(type_params@);
                    let mut required: Vec<TraitMethodInfo> = Vec::new();
                    let mut defaults: Vec<TraitMethodInfo> = Vec::new();
                    let ghost tp0 = self.type_params@;
                    let mut j: usize = 0;
                    while j < methods.len()
                        invariant
                            j <= methods@.len(),
                            self.wf(),
                            self.env@ == env0,
                            self.types@ == old(self).types@,
                            self.self_type == old(self).self_type,
                            self.diagnostics@ == old(self).diagnostics@,
                            st == self_view(self.self_type),
                            registry_view(self.trait_registry@) == r0 + trait_entries(
                                env0,
                                st,
                                items@.take(i as int),
                            ),
                            params_view(ps@) == pv,
                            methods_view(required@) == method_sigs(env0, pv, st, methods@.take(j as int), false),
                            methods_view(defaults@) == method_sigs(env0, pv, st, methods@.take(j as int), true),
                            j == 0 ==> self.type_params@ == tp0,
                            j > 0 ==> self.type_params@ == Seq::<(String, usize)>::empty(),
                        decreases methods.len() - j,
                    {
                        proof {
                            assert(methods@.take(j as int + 1).drop_last() =~= methods@.take(j as int));
                        }
                        let info = self.method_info(&ps, &methods[j]);
                        if methods[j].body.is_some() {
                            let ghost before = defaults@;
                            defaults.push(info);
                            proof {
                                assert(methods_view(defaults@) =~= methods_view(before).push(
                                    method_view(info),
                                ));
                            }
                        } else {
                            let ghost before = required@;
                            required.push(info);
                            proof {
                                assert(methods_view(required@) =~= methods_view(before).push(
                                    method_view(info),
                                ));
                            }
                        }
                        j = j + 1;
                    }
                    proof {
                        assert(methods@.take(methods@.len() as int) =~= methods@);
                    }
                    let ghost rb = self.trait_registry@;
                    self.trait_registry.push(
                        TraitInfo {
                            name: name.clone(),
                            def_id: *id,
                            required_methods: required,
                            default_methods: defaults,
                            supertraits: supers,
                        },
                    );
                    proof {
                        assert(registry_view(self.trait_registry@) =~= registry_view(rb).push(
                            trait_view(self.trait_registry@.last()),
                        ));
                    }
                },
                _ => {},
            }
            i = i + 1;
        }
        proof {
            assert(items@.take(items@.len() as int) =~= items@);
        }
    }

    /// The collect pass over struct definitions: resolve every field's type
    /// against the environment as it stood before the pass, record it in the
    /// type map, then define each struct's name as its nominal type.
    pub fn collect_struct_defs(&mut self, items: &Vec<HirItem>)
        requires
            old(self).wf(),
        ensures
            final(self).wf(),
            types_view(final(self).types@) == types_view(old(self).types@) + struct_field_entries(
                old(self).env@,
                params_view(old(self).type_params@),
                self_view(old(self).self_type),
                items@,
            ),
            final(self).env@ == define_structs(old(self).env@, items@),
            final(self).type_params@ == old(self).type_params@,
            final(self).self_type == old(self).self_type,
            final(self).trait_registry@ == old(self).trait_registry@,
            final(self).diagnostics@ == old(self).diagnostics@,
    {
        let ghost env0 = self.env@;
        let ghost ps = params_view(self.type_params@);
        let ghost st = self_view(self.self_type);
        // First pass: resolve the fields of every struct.
        let mut entries: Vec<(usize, Ty)> = Vec::new();
        let mut names: Vec<(String, usize)> = Vec::new();
        let mut i: usize = 0;
        while i < items.len()
            invariant
                i <= items@.len(),
                self.wf(),
                self.env@ == env0,
                self.type_params@ == old(self).type_params@,
                self.trait_registry@ == old(self).trait_registry@,
                self.self_type == old(self).self_type,
                self.diagnostics@ == old(self).diagnostics@,
                ps == params_view(self.type_params@),
                st == self_view(self.self_type),
                types_view(entries@) == struct_field_entries(env0, ps, st, items@.take(i as int)),
                params_view(names@) == struct_names(items@.take(i as int)),
            decreases items.len() - i,
        {
            proof {
                assert(items@.take(i as int + 1).drop_last() =~= items@.take(i as int));
            }
            match &items[i] {
                HirItem::StructDef { id, name, fields } => {
                    let ghost e0 = entries@;
                    let mut j: usize = 0;
                    while j < fields.len()
                        invariant
                            j <= fields@.len(),
                            self.wf(),
                            self.env@ == env0,
                            self.type_params@ == old(self).type_params@,
                            self.trait_registry@ == old(self).trait_registry@,
                            self.self_type == old(self).self_type,
                            self.diagnostics@ == old(self).diagnostics@,
                            ps == params_view(self.type_params@),
                            st == self_view(self.self_type),
                            types_view(entries@) == types_view(e0) + field_entries(
                                env0,
                                ps,
                                st,
                                fields@.take(j as int),
                            ),
                        decreases fields.len() - j,
                    {
                        proof {
                            assert(fields@.take(j as int + 1).drop_last() =~= fields@.take(
                                j as int,
                            ));
                        }
                        let f = &fields[j];
                        let t = self.resolve_hir_ty(&f.ty);
                        let ghost before = entries@;
                        entries.push((f.id, t));
                        proof {
                            assert(types_view(entries@) =~= types_view(before).push(
                                (f.id as nat, t@),
                            ));
                        }
                        j = j + 1;
                    }
                    proof {
                        assert(fields@.take(fields@.len() as int) =~= fields@);
                    }
                    let ghost n0 = names@;
                    names.push((name.clone(), *id));
                    proof {
                        assert(params_view(names@) =~= params_view(n0) + seq![(name@, *id as nat)]);
                    }
                },
                _ => {
                    proof {
                        assert(types_view(entries@) =~= types_view(entries@) + Seq::<
                            (nat, TyModel),
                        >::empty());
                        assert(params_view(names@) =~= params_view(names@) + Seq::<
                            (Seq<char>, nat),
                        >::empty());
                    }
                },
            }
            i = i + 1;
        }
        proof {
            assert(items@.take(items@.len() as int) =~= items@);
        }
        // Second pass: record the field types, then define the structs.
        let ghost t0 = types_view(self.types@);
        let mut k: usize = 0;
        while k < entries.len()
            invariant
                k <= entries@.len(),
                types_view(self.types@) == t0 + types_view(entries@).take(k as int),
                self.env@ == env0,
                self.wf(),
                self.type_params@ == old(self).type_params@,
                self.trait_registry@ == old(self).trait_registry@,
                self.self_type == old(self).self_type,
                self.diagnostics@ == old(self).diagnostics@,
                ps == params_view(self.type_params@),
                st == self_view(self.self_type),
            decreases entries.len() - k,
        {
            let t = copy_ty(&entries[k].1);
            let ghost before = self.types@;
            self.types.push((entries[k].0, t));
            proof {
                assert(types_view(entries@).take(k as int + 1) =~= types_view(entries@).take(
                    k as int,
                ).push((entries@[k as int].0 as nat, entries@[k as int].1@)));
                assert(types_view(self.types@) =~= types_view(before).push(
                    (entries@[k as int].0 as nat, entries@[k as int].1@),
                ));
            }
            k = k + 1;
        }
        proof {
            assert(types_view(entries@).take(entries@.len() as int) =~= types_view(entries@));
        }
        let mut m: usize = 0;
        while m < names.len()
            invariant
                m <= names@.len(),
                self.wf(),
                self.env@ == define_names(env0, params_view(names@).take(m as int)),
                types_view(self.types@) == t0 + types_view(entries@),
                self.type_params@ == old(self).type_params@,
                self.trait_registry@ == old(self).trait_registry@,
                self.self_type == old(self).self_type,
                self.diagnostics@ == old(self).diagnostics@,
                ps == params_view(self.type_params@),
                st == self_view(self.self_type),
            decreases names.len() - m,
        {
            let name = names[m].0.clone();
            let id = names[m].1;
            proof {
                assert(params_view(names@).take(m as int + 1).drop_last() =~= params_view(
                    names@,
                ).take(m as int));
            }
            let ghost e = self.env@;
            self.env.define(
                name.clone(),
                Ty::Struct(StructTy { name, def_id: id }),
                id,
                Mutability::Immutable,
            );
            m = m + 1;
        }
        proof {
            assert(params_view(names@).take(names@.len() as int) =~= params_view(names@));
            lemma_define_structs(env0, items@);
        }
    }
}

/// The fields of the first struct with this name among the items.
pub open spec fn struct_fields_of(items: Seq<HirItem>, name: Seq<char>) -> Option<Seq<HirField>>
    decreases items.len(),
{
    if items.len() == 0 {
        None
    } else {
        match items[0] {
            HirItem::StructDef { name: n, fields, .. } => if n@ == name {
                Some(fields@)
            } else {
                struct_fields_of(items.drop_first(), name)
            },
            _ => struct_fields_of(items.drop_first(), name),
        }
    }
}

/// A struct's fields as the checker expects them: name and resolved type.
pub open spec fn resolved_fields(
    env: Seq<Map<Seq<char>, BindingModel>>,
    ps: Seq<(Seq<char>, nat)>,
    st: Option<TyModel>,
    fs: Seq<HirField>,
) -> Seq<(Seq<char>, TyModel)> {
    fs.map_values(|f: HirField| (f.name@, resolve_ty(env, ps, st, f.ty)))
}

/// Expected fields, as values.
pub open spec fn expected_view(v: Seq<(String, Ty)>) -> Seq<(Seq<char>, TyModel)> {
    v.map_values(|e: (String, Ty)| (e.0@, e.1@))
}

/// Provided fields of a literal: name and the id of the value expression.
pub open spec fn provided_view(v: Seq<(String, usize)>) -> Seq<(Seq<char>, nat)> {
    v.map_values(|e: (String, usize)| (e.0@, e.1 as nat))
}

/// The type the first expected field with this name has.
pub open spec fn expected_ty(ef: Seq<(Seq<char>, TyModel)>, n: Seq<char>) -> Option<TyModel>
    decreases ef.len(),
{
    if ef.len() == 0 {
        None
    } else if ef[0].0 == n {
        Some(ef[0].1)
    } else {
        expected_ty(ef.drop_first(), n)
    }
}

/// Whether a provided field has this name.
pub open spec fn provides(pf: Seq<(Seq<char>, nat)>, n: Seq<char>) -> bool {
    exists|i: int| 0 <= i < pf.len() && pf[i].0 == n
}

/// The type the type map records for an id: its latest entry.
pub open spec fn type_of(tv: Seq<(nat, TyModel)>, id: nat) -> Option<TyModel>
    decreases tv.len(),
{
    if tv.len() == 0 {
        None
    } else if tv.last().0 == id {
        Some(tv.last().1)
    } else {
        type_of(tv.drop_last(), id)
    }
}

/// One diagnostic per expected field the literal leaves out.
pub open spec fn missing_diags(
    sname: Seq<char>,
    at: nat,
    ef: Seq<(Seq<char>, TyModel)>,
    pf: Seq<(Seq<char>, nat)>,
) -> Seq<DiagModel>
    decreases ef.len(),
{
    if ef.len() == 0 {
        Seq::empty()
    } else {
        let prev = missing_diags(sname, at, ef.drop_last(), pf);
        if provides(pf, ef.last().0) {
            prev
        } else {
            prev.push(DiagModel::Missing(sname, ef.last().0, at))
        }
    }
}

/// One diagnostic per provided field the struct does not have.
pub open spec fn unknown_diags(
    sname: Seq<char>,
    at: nat,
    ef: Seq<(Seq<char>, TyModel)>,
    pf: Seq<(Seq<char>, nat)>,
) -> Seq<DiagModel>
    decreases pf.len(),
{
    if pf.len() == 0 {
        Seq::empty()
    } else {
        let prev = unknown_diags(sname, at, ef, pf.drop_last());
        if expected_ty(ef, pf.last().0) is Some {
            prev
        } else {
            prev.push(DiagModel::Unknown(sname, pf.last().0, at))
        }
    }
}

/// One diagnostic per provided field whose value's recorded type differs from
/// the field's type, neither being `Error` (an unrecorded value counts as
/// `Error`).
pub open spec fn mismatch_diags(
    ef: Seq<(Seq<char>, TyModel)>,
    pf: Seq<(Seq<char>, nat)>,
    tv: Seq<(nat, TyModel)>,
) -> Seq<DiagModel>
    decreases pf.len(),
{
    if pf.len() == 0 {
        Seq::empty()
    } else {
        let prev = mismatch_diags(ef, pf.drop_last(), tv);
        let (n, vid) = pf.last();
        match expected_ty(ef, n) {
            Some(et) => {
                let vt = match type_of(tv, vid) {
                    Some(t) => t,
                    None => TyModel::Error,
                };
                if vt != TyModel::Error && et != TyModel::Error && vt != et {
                    prev.push(DiagModel::Mismatch(et, vt, vid))
                } else {
                    prev
                }
            },
            None => prev,
        }
    }
}

/// What checking a struct literal against its struct's fields reports, in
/// order: missing fields, unknown fields, a field-count mismatch, then value
/// type mismatches.
pub open spec fn struct_lit_diags(
    sname: Seq<char>,
    at: nat,
    ef: Seq<(Seq<char>, TyModel)>,
    pf: Seq<(Seq<char>, nat)>,
    tv: Seq<(nat, TyModel)>,
) -> Seq<DiagModel> {
    missing_diags(sname, at, ef, pf) + unknown_diags(sname, at, ef, pf) + (if pf.len()
        != ef.len() {
        seq![DiagModel::Count(sname, ef.len(), pf.len(), at)]
    } else {
        Seq::empty()
    }) + mismatch_diags(ef, pf, tv)
}

/// Each value mismatch that a struct literal's check reports comes from one
/// provided field: the field's type and the value's recorded type, which
/// differ and neither of which is `Error`.
proof fn lemma_mismatch_diags_sound(
    ef: Seq<(Seq<char>, TyModel)>,
    pf: Seq<(Seq<char>, nat)>,
    tv: Seq<(nat, TyModel)>,
    k: int,
)
    requires
        0 <= k < mismatch_diags(ef, pf, tv).len(),
    ensures
        mismatch_diags(ef, pf, tv)[k] matches DiagModel::Mismatch(e, v, id) && e != v && e
            != TyModel::Error && v != TyModel::Error && type_of(tv, id) == Some(v) && exists|i: int|
            0 <= i < pf.len() && #[trigger] pf[i].1 == id && expected_ty(ef, pf[i].0) == Some(e),
    decreases pf.len(),
{
    let prev = mismatch_diags(ef, pf.drop_last(), tv);
    if k < prev.len() {
        lemma_mismatch_diags_sound(ef, pf.drop_last(), tv, k);
        let id = prev[k]->Mismatch_2;
        let e = prev[k]->Mismatch_0;
        let i = choose|i: int|
            0 <= i < pf.drop_last().len() && #[trigger] pf.drop_last()[i].1 == id && expected_ty(
                ef,
                pf.drop_last()[i].0,
            ) == Some(e);
        assert(pf[i] == pf.drop_last()[i]);
    } else {
        let i = pf.len() - 1;
        assert(pf[i] == pf.last());
    }
}

/// A provided field whose value's recorded type differs from the field's
/// type, neither being `Error`, is reported as a value mismatch.
proof fn lemma_mismatch_diags_complete(
    ef: Seq<(Seq<char>, TyModel)>,
    pf: Seq<(Seq<char>, nat)>,
    tv: Seq<(nat, TyModel)>,
    i: int,
    et: TyModel,
    vt: TyModel,
)
    requires
        0 <= i < pf.len(),
        expected_ty(ef, pf[i].0) == Some(et),
        type_of(tv, pf[i].1) == Some(vt),
        vt != TyModel::Error,
        et != TyModel::Error,
        vt != et,
    ensures
        mismatch_diags(ef, pf, tv).contains(DiagModel::Mismatch(et, vt, pf[i].1)),
    decreases pf.len(),
{
    let prev = mismatch_diags(ef, pf.drop_last(), tv);
    let d = DiagModel::Mismatch(et, vt, pf[i].1);
    if i < pf.len() - 1 {
        assert(pf.drop_last()[i] == pf[i]);
        lemma_mismatch_diags_complete(ef, pf.drop_last(), tv, i, et, vt);
        let k = choose|k: int| 0 <= k < prev.len() && prev[k] == d;
        let cur = mismatch_diags(ef, pf, tv);
        assert(cur[k] == d);
    } else {
        let cur = mismatch_diags(ef, pf, tv);
        assert(pf.last() == pf[i]);
        assert(cur == prev.push(d));
        assert(cur[prev.len() as int] == d);
    }
}

/// Missing-field reports are all `Missing`.
proof fn lemma_missing_diags_kind(
    sname: Seq<char>,
    at: nat,
    ef: Seq<(Seq<char>, TyModel)>,
    pf: Seq<(Seq<char>, nat)>,
    k: int,
)
    requires
        0 <= k < missing_diags(sname, at, ef, pf).len(),
    ensures
        missing_diags(sname, at, ef, pf)[k] is Missing,
    decreases ef.len(),
{
    if k < missing_diags(sname, at, ef.drop_last(), pf).len() {
        lemma_missing_diags_kind(sname, at, ef.drop_last(), pf, k);
    }
}

/// Unknown-field reports are all `Unknown`.
proof fn lemma_unknown_diags_kind(
    sname: Seq<char>,
    at: nat,
    ef: Seq<(Seq<char>, TyModel)>,
    pf: Seq<(Seq<char>, nat)>,
    k: int,
)
    requires
        0 <= k < unknown_diags(sname, at, ef, pf).len(),
    ensures
        unknown_diags(sname, at, ef, pf)[k] is Unknown,
    decreases pf.len(),
{
    if k < unknown_diags(sname, at, ef, pf.drop_last()).len() {
        lemma_unknown_diags_kind(sname, at, ef, pf.drop_last(), k);
    }
}

/// A struct literal's check reports a type mismatch for a provided field
/// exactly when the value's recorded type differs from the field's declared
/// type (types compared structurally, struct types by name and id), where
/// neither is `Error`.
pub proof fn lemma_struct_lit_mismatch_iff(
    sname: Seq<char>,
    at: nat,
    ef: Seq<(Seq<char>, TyModel)>,
    pf: Seq<(Seq<char>, nat)>,
    tv: Seq<(nat, TyModel)>,
    i: int,
    et: TyModel,
    vt: TyModel,
)
    requires
        0 <= i < pf.len(),
        expected_ty(ef, pf[i].0) == Some(et),
        type_of(tv, pf[i].1) == Some(vt),
        vt != TyModel::Error,
        et != TyModel::Error,
    ensures
        struct_lit_diags(sname, at, ef, pf, tv).contains(DiagModel::Mismatch(et, vt, pf[i].1))
            <==> vt != et,
{
    let d = DiagModel::Mismatch(et, vt, pf[i].1);
    let all = struct_lit_diags(sname, at, ef, pf, tv);
    let mm = mismatch_diags(ef, pf, tv);
    let head = all.len() - mm.len();
    assert forall|k: int| 0 <= k < mm.len() implies all[head + k] == mm[k] by {}
    if vt != et {
        lemma_mismatch_diags_complete(ef, pf, tv, i, et, vt);
        let k = choose|k: int| 0 <= k < mm.len() && mm[k] == d;
        assert(all[head + k] == d);
    }
    if all.contains(d) {
        let k = choose|k: int| 0 <= k < all.len() && all[k] == d;
        let md = missing_diags(sname, at, ef, pf);
        let ud = unknown_diags(sname, at, ef, pf);
        if k < md.len() {
            lemma_missing_diags_kind(sname, at, ef, pf, k);
        } else if k < md.len() + ud.len() {
            lemma_unknown_diags_kind(sname, at, ef, pf, k - md.len());
        } else if k < head {
        } else {
            lemma_mismatch_diags_sound(ef, pf, tv, k - head);
        }
    }
}

/// Each type mismatch that a struct literal's check reports names a provided
/// field's value, with the field's declared type and the value's recorded
/// type, which differ and neither of which is `Error`.
pub proof fn lemma_struct_lit_mismatch_sound(
    sname: Seq<char>,
    at: nat,
    ef: Seq<(Seq<char>, TyModel)>,
    pf: Seq<(Seq<char>, nat)>,
    tv: Seq<(nat, TyModel)>,
    e: TyModel,
    v: TyModel,
    id: nat,
)
    requires
        struct_lit_diags(sname, at, ef, pf, tv).contains(DiagModel::Mismatch(e, v, id)),
    ensures
        e != v,
        e != TyModel::Error,
        v != TyModel::Error,
        type_of(tv, id) == Some(v),
        exists|i: int| 0 <= i < pf.len() && #[trigger] pf[i].1 == id && expected_ty(ef, pf[i].0) == Some(e),
{
    let d = DiagModel::Mismatch(e, v, id);
    let all = struct_lit_diags(sname, at, ef, pf, tv);
    let mm = mismatch_diags(ef, pf, tv);
    let head = all.len() - mm.len();
    let k = choose|k: int| 0 <= k < all.len() && all[k] == d;
    let md = missing_diags(sname, at, ef, pf);
    let ud = unknown_diags(sname, at, ef, pf);
    if k < md.len() {
        lemma_missing_diags_kind(sname, at, ef, pf, k);
    } else if k < md.len() + ud.len() {
        lemma_unknown_diags_kind(sname, at, ef, pf, k - md.len());
    } else if k < head {
    } else {
        assert(all[k] == mm[k - head]);
        lemma_mismatch_diags_sound(ef, pf, tv, k - head);
    }
}

/// A value is in a concatenation exactly when it is in one of the parts.
proof fn lemma_concat_contains(a: Seq<DiagModel>, b: Seq<DiagModel>, d: DiagModel)
    ensures
        (a + b).contains(d) <==> a.contains(d) || b.contains(d),
{
    if (a + b).contains(d) {
        let k = choose|k: int| 0 <= k < (a + b).len() && (a + b)[k] == d;
        if k >= a.len() {
            assert(b[k - a.len()] == d);
        }
    }
    if a.contains(d) {
        let k = choose|k: int| 0 <= k < a.len() && a[k] == d;
        assert((a + b)[k] == d);
    }
    if b.contains(d) {
        let k = choose|k: int| 0 <= k < b.len() && b[k] == d;
        assert((a + b)[a.len() + k] == d);
    }
}

/// A value is in a pushed sequence exactly when it is the new last value or
/// was there before.
proof fn lemma_push_contains(a: Seq<DiagModel>, x: DiagModel, d: DiagModel)
    ensures
        a.push(x).contains(d) <==> a.contains(d) || x == d,
{
    if a.push(x).contains(d) {
        let k = choose|k: int| 0 <= k < a.push(x).len() && a.push(x)[k] == d;
        if k < a.len() {
            assert(a[k] == d);
        }
    }
    if a.contains(d) {
        let k = choose|k: int| 0 <= k < a.len() && a[k] == d;
        assert(a.push(x)[k] == d);
    }
    if x == d {
        assert(a.push(x)[a.len() as int] == d);
    }
}

/// `missing_diags` names exactly the expected fields the literal leaves out.
proof fn lemma_missing_diags_has(
    sname: Seq<char>,
    at: nat,
    ef: Seq<(Seq<char>, TyModel)>,
    pf: Seq<(Seq<char>, nat)>,
    n: Seq<char>,
)
    ensures
        missing_diags(sname, at, ef, pf).contains(DiagModel::Missing(sname, n, at)) <==> (exists|
            i: int,
        | 0 <= i < ef.len() && #[trigger] ef[i].0 == n) && !provides(pf, n),
    decreases ef.len(),
{
    if ef.len() > 0 {
        let d = DiagModel::Missing(sname, n, at);
        let prev = missing_diags(sname, at, ef.drop_last(), pf);
        lemma_missing_diags_has(sname, at, ef.drop_last(), pf, n);
        lemma_push_contains(prev, DiagModel::Missing(sname, ef.last().0, at), d);
        if exists|i: int| 0 <= i < ef.drop_last().len() && #[trigger] ef.drop_last()[i].0 == n {
            let i = choose|i: int| 0 <= i < ef.drop_last().len() && #[trigger] ef.drop_last()[i].0 == n;
            assert(ef[i].0 == n);
        }
        if exists|i: int| 0 <= i < ef.len() && #[trigger] ef[i].0 == n {
            let i = choose|i: int| 0 <= i < ef.len() && #[trigger] ef[i].0 == n;
            if i < ef.len() - 1 {
                assert(ef.drop_last()[i].0 == n);
            }
        }
        assert(ef[ef.len() - 1] == ef.last());
    }
}

/// `unknown_diags` names exactly the provided fields the struct does not
/// have.
proof fn lemma_unknown_diags_has(
    sname: Seq<char>,
    at: nat,
    ef: Seq<(Seq<char>, TyModel)>,
    pf: Seq<(Seq<char>, nat)>,
    n: Seq<char>,
)
    ensures
        unknown_diags(sname, at, ef, pf).contains(DiagModel::Unknown(sname, n, at)) <==> provides(
            pf,
            n,
        ) && expected_ty(ef, n) is None,
    decreases pf.len(),
{
    if pf.len() > 0 {
        let d = DiagModel::Unknown(sname, n, at);
        let prev = unknown_diags(sname, at, ef, pf.drop_last());
        lemma_unknown_diags_has(sname, at, ef, pf.drop_last(), n);
        lemma_push_contains(prev, DiagModel::Unknown(sname, pf.last().0, at), d);
        if provides(pf.drop_last(), n) {
            let i = choose|i: int| 0 <= i < pf.drop_last().len() && pf.drop_last()[i].0 == n;
            assert(pf[i].0 == n);
        }
        if provides(pf, n) {
            let i = choose|i: int| 0 <= i < pf.len() && pf[i].0 == n;
            if i < pf.len() - 1 {
                assert(pf.drop_last()[i].0 == n);
            }
        }
        assert(pf[pf.len() - 1] == pf.last());
    }
}

/// What a struct literal's check reports of its fields: a missing-field
/// report for exactly the struct's fields the literal leaves out, an
/// unknown-field report for exactly the literal's fields the struct does not
/// have, and a count report exactly when the literal sets a different number
/// of fields than the struct has.
pub proof fn lemma_struct_lit_field_reports(
    sname: Seq<char>,
    at: nat,
    ef: Seq<(Seq<char>, TyModel)>,
    pf: Seq<(Seq<char>, nat)>,
    tv: Seq<(nat, TyModel)>,
    n: Seq<char>,
)
    ensures
        struct_lit_diags(sname, at, ef, pf, tv).contains(DiagModel::Missing(sname, n, at)) <==> (
        exists|i: int| 0 <= i < ef.len() && #[trigger] ef[i].0 == n) && !provides(pf, n),
        struct_lit_diags(sname, at, ef, pf, tv).contains(DiagModel::Unknown(sname, n, at))
            <==> provides(pf, n) && expected_ty(ef, n) is None,
        struct_lit_diags(sname, at, ef, pf, tv).contains(
            DiagModel::Count(sname, ef.len(), pf.len(), at),
        ) <==> pf.len() != ef.len(),
{
    let md = missing_diags(sname, at, ef, pf);
    let ud = unknown_diags(sname, at, ef, pf);
    let cd = if pf.len() != ef.len() {
        seq![DiagModel::Count(sname, ef.len(), pf.len(), at)]
    } else {
        Seq::empty()
    };
    let mm = mismatch_diags(ef, pf, tv);
    assert(struct_lit_diags(sname, at, ef, pf, tv) == md + ud + cd + mm);
    lemma_missing_diags_has(sname, at, ef, pf, n);
    lemma_unknown_diags_has(sname, at, ef, pf, n);
    let dm = DiagModel::Missing(sname, n, at);
    let du = DiagModel::Unknown(sname, n, at);
    let dc = DiagModel::Count(sname, ef.len(), pf.len(), at);
    lemma_concat_contains(md + ud + cd, mm, dm);
    lemma_concat_contains(md + ud, cd, dm);
    lemma_concat_contains(md, ud, dm);
    lemma_concat_contains(md + ud + cd, mm, du);
    lemma_concat_contains(md + ud, cd, du);
    lemma_concat_contains(md, ud, du);
    lemma_concat_contains(md + ud + cd, mm, dc);
    lemma_concat_contains(md + ud, cd, dc);
    lemma_concat_contains(md, ud, dc);
    if ud.contains(dm) || ud.contains(dc) {
        let k = choose|k: int| 0 <= k < ud.len() && (ud[k] == dm || ud[k] == dc);
        lemma_unknown_diags_kind(sname, at, ef, pf, k);
    }
    if md.contains(du) || md.contains(dc) {
        let k = choose|k: int| 0 <= k < md.len() && (md[k] == du || md[k] == dc);
        lemma_missing_diags_kind(sname, at, ef, pf, k);
    }
    if mm.contains(dm) || mm.contains(du) || mm.contains(dc) {
        let k = choose|k: int| 0 <= k < mm.len() && (mm[k] == dm || mm[k] == du || mm[k] == dc);
        lemma_mismatch_diags_sound(ef, pf, tv, k);
    }
    if cd.contains(dm) || cd.contains(du) {
        let k = choose|k: int| 0 <= k < cd.len() && (cd[k] == dm || cd[k] == du);
    }
    if pf.len() != ef.len() {
        assert(cd[0] == dc);
    }
}

/// Whether a type is `Error`.
fn is_error(t: &Ty) -> (r: bool)
    ensures
        r == (t@ == TyModel::Error),
{
    match t {
        Ty::Error => true,
        _ => false,
    }
}

/// The position of the first expected field with this name.
fn find_expected(ef: &Vec<(String, Ty)>, n: &String) -> (r: Option<usize>)
    ensures
        match expected_ty(expected_view(ef@), n@) {
            Some(t) => r matches Some(k) && k < ef@.len() && ef@[k as int].1@ == t,
            None => r is None,
        },
{
    let ghost ev = expected_view(ef@);
    let mut i: usize = 0;
    proof {
        assert(ev.subrange(0, ev.len() as int) =~= ev);
    }
    while i < ef.len()
        invariant
            i <= ef@.len(),
            ev == expected_view(ef@),
            expected_ty(ev, n@) == expected_ty(ev.subrange(i as int, ev.len() as int), n@),
        decreases ef.len() - i,
    {
        let ghost rest = ev.subrange(i as int, ev.len() as int);
        proof {
            assert(rest.drop_first() =~= ev.subrange(i as int + 1, ev.len() as int));
            assert(rest[0] == ev[i as int]);
            assert(ev[i as int] == (ef@[i as int].0@, ef@[i as int].1@));
        }
        if ef[i].0 == *n {
            return Some(i);
        }
        i = i + 1;
    }
    proof {
        assert(ev.subrange(i as int, ev.len() as int).len() == 0);
    }
    None
}

/// Whether some provided field has this name.
fn has_provided(pf: &Vec<(String, usize)>, n: &String) -> (r: bool)
    ensures
        r == provides(provided_view(pf@), n@),
{
    let ghost pv = provided_view(pf@);
    let mut i: usize = 0;
    while i < pf.len()
        invariant
            i <= pf@.len(),
            pv == provided_view(pf@),
            forall|j: int| 0 <= j < i ==> pv[j].0 != n@,
        decreases pf.len() - i,
    {
        proof {
            assert(pv[i as int] == (pf@[i as int].0@, pf@[i as int].1 as nat));
        }
        if pf[i].0 == *n {
            return true;
        }
        i = i + 1;
    }
    false
}

impl TypeChecker {
    /// The type the type map records for an id: its latest entry.
    pub fn recorded_type(&self, id: usize) -> (r: Option<&Ty>)
        ensures
            match type_of(types_view(self.types@), id as nat) {
                Some(t) => r matches Some(x) && x@ == t,
                None => r is None,
            },
    {
        let ghost tv = types_view(self.types@);
        let mut i: usize = self.types.len();
        proof {
            assert(tv.take(tv.len() as int) =~= tv);
        }
        while i > 0
            invariant
                i <= self.types@.len(),
                tv == types_view(self.types@),
                type_of(tv, id as nat) == type_of(tv.take(i as int), id as nat),
            decreases i,
        {
            proof {
                assert(tv.take(i as int).drop_last() =~= tv.take(i as int - 1));
                assert(tv.take(i as int).last() == tv[i as int - 1]);
                assert(tv[i as int - 1] == (self.types@[i as int - 1].0 as nat, self.types@[i as int - 1].1@));
            }
            if self.types[i - 1].0 == id {
                return Some(&self.types[i - 1].1);
            }
            i = i - 1;
        }
        proof {
            assert(tv.take(0) =~= Seq::<(nat, TyModel)>::empty());
        }
        None
    }

    /// The fields of the first struct with this name among the items, each
    /// with its resolved type.
    pub fn lookup_struct_fields(&self, items: &Vec<HirItem>, name: &String) -> (r: Option<
        Vec<(String, Ty)>,
    >)
        requires
            self.wf(),
        ensures
            match struct_fields_of(items@, name@) {
                Some(fs) => r matches Some(v) && expected_view(v@) == resolved_fields(
                    self.env@,
                    params_view(self.type_params@),
                    self_view(self.self_type),
                    fs,
                ),
                None => r is None,
            },
    {
        let ghost ps = params_view(self.type_params@);
        let ghost st = self_view(self.self_type);
        let mut i: usize = 0;
        proof {
            assert(items@.subrange(0, items@.len() as int) =~= items@);
        }
        while i < items.len()
            invariant
                i <= items@.len(),
                self.wf(),
                ps == params_view(self.type_params@),
                st == self_view(self.self_type),
                struct_fields_of(items@, name@) == struct_fields_of(
                    items@.subrange(i as int, items@.len() as int),
                    name@,
                ),
            decreases items.len() - i,
        {
            let ghost rest = items@.subrange(i as int, items@.len() as int);
            proof {
                assert(rest.drop_first() =~= items@.subrange(i as int + 1, items@.len() as int));
                assert(rest[0] == items@[i as int]);
            }
            match &items[i] {
                HirItem::StructDef { name: n, fields, .. } => {
                    if *n == *name {
                        let mut out: Vec<(String, Ty)> = Vec::new();
                        let mut j: usize = 0;
                        while j < fields.len()
                            invariant
                                j <= fields@.len(),
                                self.wf(),
                                ps == params_view(self.type_params@),
                                st == self_view(self.self_type),
                                expected_view(out@) == resolved_fields(
                                    self.env@,
                                    ps,
                                    st,
                                    fields@.take(j as int),
                                ),
                            decreases fields.len() - j,
                        {
                            let f = &fields[j];
                            let t = self.resolve_hir_ty(&f.ty);
                            let fname = f.name.clone();
                            let ghost before = out@;
                            out.push((fname, t));
                            proof {
                                assert(expected_view(out@) =~= expected_view(before).push(
                                    (f.name@, t@),
                                ));
                                assert(resolved_fields(self.env@, ps, st, fields@.take(j as int + 1))
                                    =~= resolved_fields(self.env@, ps, st, fields@.take(j as int)).push(
                                    (f.name@, resolve_ty(self.env@, ps, st, f.ty)),
                                ));
                            }
                            j = j + 1;
                        }
                        proof {
                            assert(fields@.take(fields@.len() as int) =~= fields@);
                        }
                        return Some(out);
                    }
                },
                _ => {},
            }
            i = i + 1;
        }
        None
    }

    /// Check a struct literal's fields against its struct's: report each
    /// missing field, each unknown field, a count mismatch, and each value
    /// whose recorded type differs from its field's. The literal's type is
    /// the struct, or `Error` where no struct of that name is declared.
    pub fn check_struct_fields(
        &mut self,
        items: &Vec<HirItem>,
        sl_id: usize,
        fields: &Vec<(String, usize)>,
        struct_ty: &StructTy,
    ) -> (r: Ty)
        requires
            old(self).wf(),
        ensures
            final(self).wf(),
            final(self).env@ == old(self).env@,
            final(self).types@ == old(self).types@,
            final(self).type_params@ == old(self).type_params@,
            final(self).self_type == old(self).self_type,
            final(self).trait_registry@ == old(self).trait_registry@,
            match struct_fields_of(items@, struct_ty.name@) {
                Some(fs) => r@ == TyModel::Struct(struct_ty.name@, struct_ty.def_id as nat)
                    && diags_view(final(self).diagnostics@) == diags_view(old(self).diagnostics@)
                    + struct_lit_diags(
                    struct_ty.name@,
                    sl_id as nat,
                    resolved_fields(
                        old(self).env@,
                        params_view(old(self).type_params@),
                        self_view(old(self).self_type),
                        fs,
                    ),
                    provided_view(fields@),
                    types_view(old(self).types@),
                ),
                None => r@ == TyModel::Error && final(self).diagnostics@ == old(self).diagnostics@,
            },
    {
        let expected = match self.lookup_struct_fields(items, &struct_ty.name) {
            Some(v) => v,
            None => {
                return Ty::Error;
            },
        };
        let ghost ef = expected_view(expected@);
        let ghost pf = provided_view(fields@);
        let ghost tv = types_view(self.types@);
        let ghost d0 = diags_view(self.diagnostics@);
        let ghost sname = struct_ty.name@;
        let ghost at = sl_id as nat;
        // Missing fields.
        let mut i: usize = 0;
        while i < expected.len()
            invariant
                i <= expected@.len(),
                ef == expected_view(expected@),
                pf == provided_view(fields@),
                sname == struct_ty.name@,
                at == sl_id as nat,
                diags_view(self.diagnostics@) == d0 + missing_diags(sname, at, ef.take(i as int), pf),
                self.env@ == old(self).env@,
                self.types@ == old(self).types@,
                self.type_params@ == old(self).type_params@,
                self.self_type == old(self).self_type,
                self.trait_registry@ == old(self).trait_registry@,
                self.wf(),
            decreases expected.len() - i,
        {
            proof {
                assert(ef.take(i as int + 1).drop_last() =~= ef.take(i as int));
                assert(ef[i as int] == (expected@[i as int].0@, expected@[i as int].1@));
            }
            let ghost before = self.diagnostics@;
            if !has_provided(fields, &expected[i].0) {
                let sn = struct_ty.name.clone();
                let fnm = expected[i].0.clone();
                proof {
                    assert(sn@ == sname);
                    assert(fnm@ == ef[i as int].0);
                }
                let d = TypeDiagnostic::StructMissingField { name: sn, field: fnm, at: sl_id };
                proof {
                    assert(diag_view(d) == DiagModel::Missing(sname, ef[i as int].0, at));
                }
                self.diagnostics.push(d);
                proof {
                    assert(diags_view(self.diagnostics@) =~= diags_view(before).push(
                        DiagModel::Missing(sname, ef[i as int].0, at),
                    ));
                }
            }
            i = i + 1;
        }
        proof {
            assert(ef.take(ef.len() as int) =~= ef);
        }
        let ghost d1 = diags_view(self.diagnostics@);
        // Unknown fields.
        let mut k: usize = 0;
        while k < fields.len()
            invariant
                k <= fields@.len(),
                ef == expected_view(expected@),
                pf == provided_view(fields@),
                sname == struct_ty.name@,
                at == sl_id as nat,
                diags_view(self.diagnostics@) == d1 + unknown_diags(sname, at, ef, pf.take(k as int)),
                self.env@ == old(self).env@,
                self.types@ == old(self).types@,
                self.type_params@ == old(self).type_params@,
                self.self_type == old(self).self_type,
                self.trait_registry@ == old(self).trait_registry@,
                self.wf(),
            decreases fields.len() - k,
        {
            proof {
                assert(pf.take(k as int + 1).drop_last() =~= pf.take(k as int));
                assert(pf[k as int] == (fields@[k as int].0@, fields@[k as int].1 as nat));
            }
            let ghost before = self.diagnostics@;
            if find_expected(&expected, &fields[k].0).is_none() {
                let sn = struct_ty.name.clone();
                let fnm = fields[k].0.clone();
                proof {
                    assert(sn@ == sname);
                    assert(fnm@ == pf[k as int].0);
                }
                let d = TypeDiagnostic::StructUnknownField { name: sn, field: fnm, at: sl_id };
                proof {
                    assert(diag_view(d) == DiagModel::Unknown(sname, pf[k as int].0, at));
                }
                self.diagnostics.push(d);
                proof {
                    assert(diags_view(self.diagnostics@) =~= diags_view(before).push(
                        DiagModel::Unknown(sname, pf[k as int].0, at),
                    ));
                }
            }
            k = k + 1;
        }
        proof {
            assert(pf.take(pf.len() as int) =~= pf);
        }
        // Field count.
        let ghost before_count = self.diagnostics@;
        if fields.len() != expected.len() {
            self.diagnostics.push(
                TypeDiagnostic::StructFieldCountMismatch {
                    name: struct_ty.name.clone(),
                    expected: expected.len(),
                    found: fields.len(),
                    at: sl_id,
                },
            );
            proof {
                assert(diags_view(self.diagnostics@) =~= diags_view(before_count).push(
                    DiagModel::Count(sname, ef.len(), pf.len(), at),
                ));
            }
        }
        let ghost d2 = diags_view(self.diagnostics@);
        // Value types.
        let mut m: usize = 0;
        while m < fields.len()
            invariant
                m <= fields@.len(),
                ef == expected_view(expected@),
                pf == provided_view(fields@),
                tv == types_view(self.types@),
                diags_view(self.diagnostics@) == d2 + mismatch_diags(ef, pf.take(m as int), tv),
                self.env@ == old(self).env@,
                self.types@ == old(self).types@,
                self.type_params@ == old(self).type_params@,
                self.self_type == old(self).self_type,
                self.trait_registry@ == old(self).trait_registry@,
                self.wf(),
            decreases fields.len() - m,
        {
            proof {
                assert(pf.take(m as int + 1).drop_last() =~= pf.take(m as int));
                assert(pf[m as int] == (fields@[m as int].0@, fields@[m as int].1 as nat));
            }
            let ghost before = self.diagnostics@;
            match find_expected(&expected, &fields[m].0) {
                Some(e) => {
                    let vid = fields[m].1;
                    let value_ty = match self.recorded_type(vid) {
                        Some(t) => copy_ty(t),
                        None => Ty::Error,
                    };
                    let expected_t = &expected[e].1;
                    if !is_error(&value_ty) && !is_error(expected_t) && !crate::unify::same_ty(
                        &value_ty,
                        expected_t,
                    ) {
                        let et = copy_ty(expected_t);
                        let ghost vt = value_ty@;
                        self.diagnostics.push(
                            TypeDiagnostic::TypeMismatch { expected: et, found: value_ty, at: vid },
                        );
                        proof {
                            assert(diags_view(self.diagnostics@) =~= diags_view(before).push(
                                DiagModel::Mismatch(expected@[e as int].1@, vt, vid as nat),
                            ));
                        }
                    }
                },
                None => {},
            }
            m = m + 1;
        }
        proof {
            assert(pf.take(pf.len() as int) =~= pf);
            assert(d0 + missing_diags(sname, at, ef, pf) + unknown_diags(sname, at, ef, pf) + (if pf.len()
                != ef.len() {
                seq![DiagModel::Count(sname, ef.len(), pf.len(), at)]
            } else {
                Seq::empty()
            }) + mismatch_diags(ef, pf, tv) =~= d0 + struct_lit_diags(sname, at, ef, pf, tv));
        }
        Ty::Struct(StructTy { name: struct_ty.name.clone(), def_id: struct_ty.def_id })
    }
}

} // verus!
