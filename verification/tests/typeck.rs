use axiom_parser::env::{Mutability, TypeEnv};
use axiom_parser::hir::{HirField, HirItem, HirTraitMethod, HirTy, HirTypeParam};
use axiom_parser::typeck::{TypeChecker, TypeDiagnostic};
use axiom_parser::unify::{FnTy, InstanceTy, StructTy, Ty, TypeParamId};

fn checker() -> TypeChecker {
    TypeChecker {
        env: TypeEnv::new(),
        types: Vec::new(),
        type_params: Vec::new(),
        self_type: None,
        trait_registry: Vec::new(),
        diagnostics: Vec::new(),
    }
}

fn named(s: &str) -> HirTy {
    HirTy::Named(s.to_string())
}

#[test]
fn test_resolve_builtins_and_unknown_names() {
    let tc = checker();
    assert_eq!(tc.resolve_hir_ty(&named("Int")), Ty::Int);
    assert_eq!(tc.resolve_hir_ty(&named("String")), Ty::String);
    assert_eq!(tc.resolve_hir_ty(&named("Nope")), Ty::Error);
    assert_eq!(tc.resolve_hir_ty(&named("Self")), Ty::Error);
    assert_eq!(tc.resolve_hir_ty(&HirTy::Unit), Ty::Unit);
}

#[test]
fn test_resolve_self_params_and_compound_types() {
    let mut tc = checker();
    tc.self_type = Some(Ty::Bool);
    tc.type_params = vec![("T".to_string(), 7), ("U".to_string(), 8)];
    assert_eq!(tc.resolve_hir_ty(&named("Self")), Ty::Bool);
    assert_eq!(
        tc.resolve_hir_ty(&HirTy::TypeParam("U".to_string())),
        Ty::TypeParam(TypeParamId { name: "U".to_string(), index: 1, def_id: 8 })
    );
    assert_eq!(tc.resolve_hir_ty(&HirTy::TypeParam("V".to_string())), Ty::Error);
    let f = HirTy::Fn { params: vec![named("Int"), HirTy::Tuple(vec![])], return_type: Box::new(named("Float")) };
    assert_eq!(
        tc.resolve_hir_ty(&f),
        Ty::Fn(FnTy { params: vec![Ty::Int, Ty::Tuple(vec![])], return_type: Box::new(Ty::Float) })
    );
    let inst = HirTy::Instance { name: "List".to_string(), args: vec![named("Int")] };
    assert_eq!(
        tc.resolve_hir_ty(&inst),
        Ty::Instance(InstanceTy { name: "List".to_string(), def_id: 0, args: vec![Ty::Int] })
    );
    let builtin_inst = HirTy::Instance { name: "Int".to_string(), args: vec![named("Bool")] };
    assert_eq!(tc.resolve_hir_ty(&builtin_inst), Ty::Int);
}

#[test]
fn test_collect_struct_defs_records_fields_and_defines_names() {
    let mut tc = checker();
    let items = vec![
        HirItem::StructDef {
            id: 1,
            name: "Point".to_string(),
            fields: vec![
                HirField { id: 2, name: "x".to_string(), ty: named("Float") },
                HirField { id: 3, name: "next".to_string(), ty: named("Point") },
            ],
        },
        HirItem::UseItem { id: 4 },
        HirItem::StructDef {
            id: 5,
            name: "Pair".to_string(),
            fields: vec![HirField { id: 6, name: "a".to_string(), ty: named("Int") }],
        },
    ];
    tc.collect_struct_defs(&items);
    // Fields resolve against the environment before the pass: `Point` is not
    // yet defined when its own field is resolved.
    assert_eq!(tc.types, vec![(2, Ty::Float), (3, Ty::Error), (6, Ty::Int)]);
    let p = tc.env.lookup("Point").expect("Point is defined");
    assert_eq!(p.ty, Ty::Struct(StructTy { name: "Point".to_string(), def_id: 1 }));
    assert_eq!(p.def_id, 1);
    assert_eq!(p.mutability, Mutability::Immutable);
    assert!(tc.env.lookup("Pair").is_some());
    // Once defined, the name resolves to the struct type.
    assert_eq!(
        tc.resolve_hir_ty(&named("Pair")),
        Ty::Struct(StructTy { name: "Pair".to_string(), def_id: 5 })
    );
}

#[test]
fn test_collect_trait_defs_splits_methods_and_lists_supertraits() {
    let mut tc = checker();
    tc.type_params = vec![("Outer".to_string(), 99)];
    let items = vec![HirItem::TraitDef {
        id: 10,
        name: "Hashable".to_string(),
        type_params: vec![HirTypeParam {
            id: 11,
            name: "T".to_string(),
            bounds: vec!["Equatable".to_string(), "Show".to_string()],
        }],
        methods: vec![
            HirTraitMethod {
                name: "hash".to_string(),
                params: vec![Some(HirTy::TypeParam("T".to_string())), None],
                return_type: Some(named("Int")),
                body: None,
            },
            HirTraitMethod {
                name: "describe".to_string(),
                params: vec![],
                return_type: None,
                body: Some(axiom_parser::hir::HirBlock { id: 12, stmts: vec![], tail: None }),
            },
        ],
    }];
    tc.collect_trait_defs(&items);
    assert_eq!(tc.trait_registry.len(), 1);
    let t = &tc.trait_registry[0];
    assert_eq!(t.name, "Hashable");
    assert_eq!(t.def_id, 10);
    assert_eq!(t.supertraits, vec!["Equatable".to_string(), "Show".to_string()]);
    assert_eq!(t.required_methods.len(), 1);
    assert_eq!(t.required_methods[0].name, "hash");
    assert_eq!(
        t.required_methods[0].params,
        vec![Ty::TypeParam(TypeParamId { name: "T".to_string(), index: 0, def_id: 11 }), Ty::Error]
    );
    assert_eq!(t.required_methods[0].return_type, Ty::Int);
    assert_eq!(t.default_methods.len(), 1);
    assert_eq!(t.default_methods[0].name, "describe");
    assert_eq!(t.default_methods[0].return_type, Ty::Unit);
    // The type-parameter scope is emptied after each method.
    assert!(tc.type_params.is_empty());
}

fn point_items() -> Vec<HirItem> {
    vec![HirItem::StructDef {
        id: 1,
        name: "Point".to_string(),
        fields: vec![
            HirField { id: 2, name: "x".to_string(), ty: named("Int") },
            HirField { id: 3, name: "y".to_string(), ty: named("Int") },
        ],
    }]
}

fn point_ty() -> StructTy {
    StructTy { name: "Point".to_string(), def_id: 1 }
}

#[test]
fn test_check_struct_fields_accepts_a_complete_literal() {
    let mut tc = checker();
    tc.types = vec![(20, Ty::Int), (21, Ty::Int)];
    let fields = vec![("x".to_string(), 20), ("y".to_string(), 21)];
    let r = tc.check_struct_fields(&point_items(), 9, &fields, &point_ty());
    assert_eq!(r, Ty::Struct(point_ty()));
    assert!(tc.diagnostics.is_empty());
}

#[test]
fn test_check_struct_fields_reports_missing_unknown_count_and_mismatch() {
    let mut tc = checker();
    tc.types = vec![(20, Ty::Int), (20, Ty::Bool), (22, Ty::Error)];
    let fields = vec![("x".to_string(), 20), ("z".to_string(), 22), ("w".to_string(), 23)];
    let r = tc.check_struct_fields(&point_items(), 9, &fields, &point_ty());
    assert_eq!(r, Ty::Struct(point_ty()));
    assert_eq!(
        tc.diagnostics,
        vec![
            TypeDiagnostic::StructMissingField { name: "Point".to_string(), field: "y".to_string(), at: 9 },
            TypeDiagnostic::StructUnknownField { name: "Point".to_string(), field: "z".to_string(), at: 9 },
            TypeDiagnostic::StructUnknownField { name: "Point".to_string(), field: "w".to_string(), at: 9 },
            TypeDiagnostic::StructFieldCountMismatch { name: "Point".to_string(), expected: 2, found: 3, at: 9 },
            // The latest entry for id 20 is `Bool`.
            TypeDiagnostic::TypeMismatch { expected: Ty::Int, found: Ty::Bool, at: 20 },
        ]
    );
}

#[test]
fn test_check_struct_fields_of_unknown_struct_is_error() {
    let mut tc = checker();
    let r = tc.check_struct_fields(&point_items(), 9, &vec![], &StructTy { name: "Nope".to_string(), def_id: 4 });
    assert_eq!(r, Ty::Error);
    assert!(tc.diagnostics.is_empty());
}
