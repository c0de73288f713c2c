//! The compiler-intrinsic functions the type checker knows by name, standing
//! in for a prelude: `print` and `println` take a value of any type (a type
//! parameter the unifier binds at each call), and `todo` stubs out an
//! unimplemented function with the error type, which silences mismatches.

use crate::unify::{tys_model, FnTy, Ty, TyModel, TypeParamId};
use vstd::prelude::*;

verus! {

/// The type of `print` and `println`: `fn<T>(T) -> Unit`, whose parameter has
/// no definition site (`usize::MAX` stands for it).
pub open spec fn print_type() -> TyModel {
    TyModel::Fn(
        seq![TyModel::Param(("T"@, 0nat, usize::MAX as nat))],
        Box::new(TyModel::Unit),
    )
}

/// The type of `todo`: `fn() -> Error`.
pub open spec fn todo_type() -> TyModel {
    TyModel::Fn(Seq::empty(), Box::new(TyModel::Error))
}

/// Look up a compiler-intrinsic function by name. Returns `None` for unknown
/// names.
pub fn builtin_fn(name: &str) -> (r: Option<Ty>)
    ensures
        (name@ == "print"@ || name@ == "println"@) ==> (r matches Some(t) && t@ == print_type()),
        name@ == "todo"@ ==> (r matches Some(t) && t@ == todo_type()),
        name@ != "print"@ && name@ != "println"@ && name@ != "todo"@ ==> r is None,
{
    let n = name.to_owned();
    proof {
        reveal_strlit("T");
        reveal_strlit("print");
        reveal_strlit("println");
        reveal_strlit("todo");
        assert("todo"@.len() == 4);
        assert("print"@.len() == 5);
        assert("println"@.len() == 7);
    }
    if n == "print".to_owned() || n == "println".to_owned() {
        let tp = Ty::TypeParam(
            TypeParamId { name: "T".to_owned(), index: 0, def_id: usize::MAX },
        );
        let ghost tpv = tp;
        assert(tpv@ == TyModel::Param(("T"@, 0nat, usize::MAX as nat)));
        let params = vec![tp];
        proof {
            assert(params@ =~= seq![tpv]);
            assert(params@.drop_last() =~= Seq::<Ty>::empty());
            assert(params@.last() == tpv);
            reveal_with_fuel(tys_model, 2);
            assert(tys_model(params@) =~= seq![TyModel::Param(("T"@, 0nat, usize::MAX as nat))]);
        }
        let t = Ty::Fn(FnTy { params, return_type: Box::new(Ty::Unit) });
        proof {
            reveal_with_fuel(crate::unify::ty_model, 2);
            assert(t@ == print_type());
        }
        Some(t)
    } else if n == "todo".to_owned() {
        let params: Vec<Ty> = Vec::new();
        proof {
            assert(tys_model(params@) =~= Seq::<TyModel>::empty());
        }
        let t = Ty::Fn(FnTy { params, return_type: Box::new(Ty::Error) });
        proof {
            reveal_with_fuel(crate::unify::ty_model, 2);
            assert(t@ == todo_type());
        }
        Some(t)
    } else {
        None
    }
}

} // verus!
