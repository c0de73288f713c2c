use axiom_parser::builtins::builtin_fn;
use axiom_parser::unify::{FnTy, Ty, TypeParamId};

fn print_ty() -> Ty {
    Ty::Fn(FnTy {
        params: vec![Ty::TypeParam(TypeParamId { name: "T".to_string(), index: 0, def_id: usize::MAX })],
        return_type: Box::new(Ty::Unit),
    })
}

#[test]
fn test_print_and_println_take_any_type() {
    assert_eq!(builtin_fn("print"), Some(print_ty()));
    assert_eq!(builtin_fn("println"), Some(print_ty()));
}

#[test]
fn test_todo_returns_the_error_type() {
    assert_eq!(
        builtin_fn("todo"),
        Some(Ty::Fn(FnTy { params: vec![], return_type: Box::new(Ty::Error) }))
    );
}

#[test]
fn test_unknown_name_is_not_builtin() {
    assert_eq!(builtin_fn("printf"), None);
    assert_eq!(builtin_fn(""), None);
}
