use axiom_parser::env::{Mutability, TypeEnv};
use axiom_parser::unify::Ty;

#[test]
fn test_lookup_finds_a_definition() {
    let mut env = TypeEnv::new();
    env.define("x".to_string(), Ty::Int, 1, Mutability::Immutable);
    let b = env.lookup("x").expect("x is bound");
    assert_eq!(b.ty, Ty::Int);
    assert_eq!(b.def_id, 1);
    assert_eq!(b.mutability, Mutability::Immutable);
    assert!(env.lookup("y").is_none());
}

#[test]
fn test_inner_scope_shadows_until_popped() {
    let mut env = TypeEnv::new();
    env.define("x".to_string(), Ty::Int, 1, Mutability::Immutable);
    env.push_scope();
    env.define("x".to_string(), Ty::Bool, 2, Mutability::Mutable);
    assert_eq!(env.lookup("x").map(|b| b.def_id), Some(2));
    env.pop_scope();
    assert_eq!(env.lookup("x").map(|b| b.def_id), Some(1));
}

#[test]
fn test_outer_bindings_visible_in_inner_scope() {
    let mut env = TypeEnv::new();
    env.define("x".to_string(), Ty::Float, 7, Mutability::Mutable);
    env.push_scope();
    assert_eq!(env.lookup("x").map(|b| b.def_id), Some(7));
}

#[test]
fn test_redefinition_in_a_scope_replaces() {
    let mut env = TypeEnv::new();
    env.define("x".to_string(), Ty::Int, 1, Mutability::Immutable);
    env.define("x".to_string(), Ty::String, 3, Mutability::Mutable);
    let b = env.lookup("x").expect("x is bound");
    assert_eq!((b.def_id, b.mutability), (3, Mutability::Mutable));
    assert_eq!(b.ty, Ty::String);
}

#[test]
fn test_outermost_scope_is_never_popped() {
    let mut env = TypeEnv::new();
    env.define("x".to_string(), Ty::Int, 1, Mutability::Immutable);
    env.pop_scope();
    env.pop_scope();
    assert!(env.lookup("x").is_some());
}
