use axiom_parser::unify::{
    contains_type_param, substitute, unify, FnTy, StructTy, Substitution, Ty, TypeParamId,
};

fn tp(name: &str, index: usize) -> Ty {
    Ty::TypeParam(TypeParamId { name: name.to_string(), index, def_id: index })
}

fn param(name: &str, index: usize, def_id: usize) -> TypeParamId {
    TypeParamId { name: name.to_string(), index, def_id }
}

#[test]
fn test_unify_type_param_with_concrete() {
    let mut subst = Substitution::new();
    // unify Int with T → T = Int
    assert!(unify(&Ty::Int, &tp("T", 0), &mut subst).is_ok());
    assert_eq!(subst.get(&param("T", 0, 0)), Some(&Ty::Int));
}

#[test]
fn test_unify_type_param_conflict() {
    let mut subst = Substitution::new();
    assert!(unify(&Ty::Int, &tp("T", 0), &mut subst).is_ok());
    // T is bound to Int; unifying with Float should fail.
    assert!(unify(&Ty::Float, &tp("T", 0), &mut subst).is_err());
}

#[test]
fn test_unify_same_concrete() {
    let mut subst = Substitution::new();
    assert!(unify(&Ty::Int, &Ty::Int, &mut subst).is_ok());
    assert!(unify(&Ty::Bool, &Ty::Float, &mut subst).is_err());
}

#[test]
fn test_substitute_type_param() {
    let mut subst = Substitution::new();
    subst.insert(param("T", 0, 0), Ty::Int);
    assert_eq!(substitute(&tp("T", 0), &subst), Ty::Int);
    // Unbound param stays as-is.
    assert_eq!(substitute(&tp("U", 1), &subst), tp("U", 1));
}

#[test]
fn test_substitute_fn_type() {
    let mut subst = Substitution::new();
    subst.insert(param("T", 0, 0), Ty::Int);
    let fn_ty = Ty::Fn(FnTy { params: vec![tp("T", 0)], return_type: Box::new(tp("T", 0)) });
    let result = substitute(&fn_ty, &subst);
    assert_eq!(result, Ty::Fn(FnTy { params: vec![Ty::Int], return_type: Box::new(Ty::Int) }));
}

#[test]
fn unify_test_contains_type_param() {
    assert!(contains_type_param(&tp("T", 0)));
    assert!(!contains_type_param(&Ty::Int));
    let fn_ty = Ty::Fn(FnTy { params: vec![tp("T", 0)], return_type: Box::new(Ty::Int) });
    assert!(contains_type_param(&fn_ty));
}

#[test]
fn tests_test_contains_type_param() {
    assert!(contains_type_param(&Ty::TypeParam(param("T", 0, 0))));
    assert!(!contains_type_param(&Ty::Int));
    assert!(!contains_type_param(&Ty::Struct(StructTy { name: "Foo".to_string(), def_id: 0 })));
}

#[test]
fn test_contains_type_param_in_fn() {
    let fnty = Ty::Fn(FnTy { params: vec![Ty::TypeParam(param("T", 0, 0))], return_type: Box::new(Ty::Int) });
    assert!(contains_type_param(&fnty));
}

#[test]
fn test_contains_type_param_tuple() {
    let tup = Ty::Tuple(vec![Ty::Int, Ty::TypeParam(param("T", 0, 0))]);
    assert!(contains_type_param(&tup));
    assert!(!contains_type_param(&Ty::Tuple(vec![Ty::Int, Ty::Float])));
}

#[test]
fn test_unify_concrete_with_typeparam() {
    let t = param("T", 0, 0);
    let mut subst = Substitution::new();
    let _ = unify(&Ty::Int, &Ty::TypeParam(param("T", 0, 0)), &mut subst);
    assert_eq!(subst.get(&t), Some(&Ty::Int));
}

#[test]
fn test_unify_fn_types() {
    let t = param("T", 0, 0);
    let actual = Ty::Fn(FnTy { params: vec![Ty::Int], return_type: Box::new(Ty::Int) });
    let expected = Ty::Fn(FnTy {
        params: vec![Ty::TypeParam(param("T", 0, 0))],
        return_type: Box::new(Ty::TypeParam(param("T", 0, 0))),
    });
    let mut subst = Substitution::new();
    let _ = unify(&actual, &expected, &mut subst);
    assert_eq!(subst.get(&t), Some(&Ty::Int));
}

#[test]
fn test_unify_idempotent() {
    let t = param("T", 0, 0);
    let mut subst = Substitution::new();
    let _ = unify(&Ty::String, &Ty::TypeParam(param("T", 0, 0)), &mut subst);
    let _ = unify(&Ty::Int, &Ty::TypeParam(param("T", 0, 0)), &mut subst);
    // First binding wins.
    assert_eq!(subst.get(&t), Some(&Ty::String));
}

#[test]
fn test_substitute_typeparam() {
    let mut subst = Substitution::new();
    subst.insert(param("T", 0, 0), Ty::Int);
    assert_eq!(substitute(&Ty::TypeParam(param("T", 0, 0)), &subst), Ty::Int);
    assert_eq!(substitute(&Ty::Float, &subst), Ty::Float);
}

#[test]
fn test_substitute_fn() {
    let mut subst = Substitution::new();
    subst.insert(param("T", 0, 0), Ty::String);
    let fnty = Ty::Fn(FnTy {
        params: vec![Ty::TypeParam(param("T", 0, 0))],
        return_type: Box::new(Ty::TypeParam(param("T", 0, 0))),
    });
    let expected = Ty::Fn(FnTy { params: vec![Ty::String], return_type: Box::new(Ty::String) });
    assert_eq!(substitute(&fnty, &subst), expected);
}

#[test]
fn test_substitute_tuple() {
    let mut subst = Substitution::new();
    subst.insert(param("T", 0, 0), Ty::Bool);
    let tup = Ty::Tuple(vec![Ty::TypeParam(param("T", 0, 0)), Ty::Int]);
    assert_eq!(substitute(&tup, &subst), Ty::Tuple(vec![Ty::Bool, Ty::Int]));
}

// ── further cases ───────────────────────────────────────────────────────────

#[test]
fn test_unify_reports_the_conflicting_binding() {
    let mut subst = Substitution::new();
    assert!(unify(&Ty::Int, &tp("T", 0), &mut subst).is_ok());
    assert_eq!(unify(&Ty::Float, &tp("T", 0), &mut subst), Err(Ty::Int));
}

#[test]
fn test_unify_fn_arity_mismatch_reports_actual() {
    let actual = Ty::Fn(FnTy { params: vec![Ty::Int, Ty::Int], return_type: Box::new(Ty::Unit) });
    let expected = Ty::Fn(FnTy { params: vec![tp("T", 0)], return_type: Box::new(Ty::Unit) });
    let mut subst = Substitution::new();
    let copy = Ty::Fn(FnTy { params: vec![Ty::Int, Ty::Int], return_type: Box::new(Ty::Unit) });
    assert_eq!(unify(&actual, &expected, &mut subst), Err(copy));
    assert_eq!(subst.get(&param("T", 0, 0)), None);
}

#[test]
fn test_unify_keeps_bindings_made_before_a_mismatch() {
    // (Int, Bool) against (T, Float): T binds, then Bool ≠ Float.
    let actual = Ty::Tuple(vec![Ty::Int, Ty::Bool]);
    let expected = Ty::Tuple(vec![tp("T", 0), Ty::Float]);
    let mut subst = Substitution::new();
    assert_eq!(unify(&actual, &expected, &mut subst), Err(Ty::Bool));
    assert_eq!(subst.get(&param("T", 0, 0)), Some(&Ty::Int));
}

#[test]
fn test_unify_then_substitute_gives_back_actual() {
    let actual = Ty::Fn(FnTy { params: vec![Ty::String, Ty::Int], return_type: Box::new(Ty::Bool) });
    let expected = Ty::Fn(FnTy {
        params: vec![tp("A", 0), tp("B", 1)],
        return_type: Box::new(tp("C", 2)),
    });
    let mut subst = Substitution::new();
    assert!(unify(&actual, &expected, &mut subst).is_ok());
    assert_eq!(substitute(&expected, &subst), actual);
}

#[test]
fn test_insert_replaces_a_binding() {
    let mut subst = Substitution::new();
    subst.insert(param("T", 0, 0), Ty::Int);
    subst.insert(param("T", 0, 0), Ty::Bool);
    assert_eq!(subst.get(&param("T", 0, 0)), Some(&Ty::Bool));
    assert_eq!(subst.get(&param("T", 1, 0)), None);
}
