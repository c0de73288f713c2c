use axiom_parser::hir::{
    block_max_id, collect_block_ids, collect_expr_ids, collect_stmt_ids, expr_max_id, hir_max_id,
    item_max_id, HirArm, HirAssignTarget, HirBlock, HirExpr, HirItem, HirLoopKind, HirPattern,
    HirStmt, HirTraitMethod,
};

fn lit(id: usize) -> HirExpr {
    HirExpr::Lit { id }
}

fn block(id: usize, stmts: Vec<HirStmt>, tail: Option<HirExpr>) -> HirBlock {
    HirBlock { id, stmts, tail: tail.map(Box::new) }
}

#[test]
fn test_hir_max_id_empty_is_zero() {
    assert_eq!(hir_max_id(&Vec::new()), 0);
}

#[test]
fn test_hir_max_id_finds_deep_expression_id() {
    // fn f() { val x = 1 + g(2, 40); return }
    let call = HirExpr::Call { id: 5, args: vec![lit(6), lit(40)] };
    let bin = HirExpr::Bin { id: 3, left: Box::new(lit(4)), right: Box::new(call) };
    let body = block(
        2,
        vec![HirStmt::Val { id: 7, pattern: HirPattern::Ident { id: 70 }, value: bin }, HirStmt::Return { id: 8, value: None }],
        None,
    );
    let items = vec![HirItem::StructDef { id: 1, name: "S".to_string(), fields: vec![] }, HirItem::FnDef { id: 0, body }];
    // The walk reads no pattern ids: 70 is not counted.
    assert_eq!(hir_max_id(&items), 40);
}

#[test]
fn test_hir_max_id_counts_statement_ids() {
    let body = block(2, vec![HirStmt::Continue { id: 99 }], Some(lit(3)));
    let items = vec![HirItem::FnDef { id: 1, body }];
    assert_eq!(hir_max_id(&items), 99);
}

#[test]
fn test_item_ids_beyond_bodies() {
    assert_eq!(item_max_id(&HirItem::UseItem { id: 12 }), 12);
    let imp = HirItem::ImplDef {
        id: 3,
        method_bodies: vec![block(4, vec![], Some(lit(9)))],
        subscript_bodies: vec![block(10, vec![], None)],
    };
    assert_eq!(item_max_id(&imp), 10);
    let method = |body: Option<HirBlock>| HirTraitMethod {
        name: "m".to_string(),
        params: vec![],
        return_type: None,
        body,
    };
    let tr = HirItem::TraitDef {
        id: 20,
        name: "T".to_string(),
        type_params: vec![],
        methods: vec![method(None), method(Some(block(21, vec![], None)))],
    };
    assert_eq!(item_max_id(&tr), 21);
}

#[test]
fn test_expr_max_id_walks_match_if_and_loops() {
    let m = HirExpr::Match {
        id: 1,
        scrutinee: Box::new(lit(2)),
        arms: vec![HirArm { pattern: HirPattern::Wildcard { id: 90 }, guard: Some(lit(30)), body: lit(4) }],
    };
    assert_eq!(expr_max_id(&m), 30);
    let i = HirExpr::If {
        id: 1,
        condition: Box::new(lit(2)),
        then_branch: block(3, vec![], None),
        else_branch: Some(Box::new(lit(17))),
    };
    assert_eq!(expr_max_id(&i), 17);
    let l = HirExpr::Loop {
        id: 1,
        kind: Box::new(HirLoopKind::Iterator {
            binding_id: 60,
            iterable: lit(8),
            body: block(2, vec![], None),
        }),
    };
    assert_eq!(expr_max_id(&l), 8);
    let idx = HirExpr::Index { id: 50, base: Box::new(lit(2)), indices: vec![lit(3)] };
    assert_eq!(expr_max_id(&idx), 50);
}

#[test]
fn test_block_max_id_includes_own_id() {
    assert_eq!(block_max_id(&block(7, vec![], None)), 7);
}

fn names(ids: &[(usize, String)]) -> Vec<(usize, &str)> {
    ids.iter().map(|(i, s)| (*i, s.as_str())).collect()
}

#[test]
fn test_collect_expr_ids_is_preorder_with_kind_names() {
    let e = HirExpr::Bin { id: 1, left: Box::new(lit(2)), right: Box::new(HirExpr::Path { id: 3 }) };
    let mut ids = Vec::new();
    collect_expr_ids(&e, &mut ids);
    assert_eq!(names(&ids), vec![(1, "Bin"), (2, "Lit"), (3, "Path")]);
}

#[test]
fn test_collect_ids_visits_patterns_targets_and_bindings() {
    let assign = HirExpr::Assign {
        id: 10,
        target: HirAssignTarget::Index { base: Box::new(lit(11)), index: Box::new(lit(12)) },
        value: Box::new(lit(13)),
    };
    let l = HirExpr::Loop {
        id: 20,
        kind: Box::new(HirLoopKind::Iterator {
            binding_id: 21,
            iterable: lit(22),
            body: block(23, vec![HirStmt::Expr { id: 24, expr: assign }], None),
        }),
    };
    let mut ids = Vec::new();
    collect_expr_ids(&l, &mut ids);
    assert_eq!(
        names(&ids),
        vec![
            (20, "Loop"),
            (21, "IteratorBinding"),
            (22, "Lit"),
            (23, "Block"),
            (24, "ExprStmt"),
            (10, "Assign"),
            (11, "Lit"),
            (12, "Lit"),
            (13, "Lit"),
        ]
    );
}

#[test]
fn test_collect_stmt_ids_includes_pattern_tree() {
    let pat = HirPattern::TupleStruct {
        id: 2,
        fields: vec![HirPattern::Ident { id: 3 }, HirPattern::Or { id: 4, alternatives: vec![HirPattern::Range { id: 5 }] }],
    };
    let st = HirStmt::Var { id: 1, pattern: pat, value: lit(6) };
    let mut ids = vec![(0, "Seed".to_string())];
    collect_stmt_ids(&st, &mut ids);
    assert_eq!(
        names(&ids),
        vec![(0, "Seed"), (1, "VarStmt"), (2, "TupleStructPat"), (3, "IdentPat"), (4, "OrPat"), (5, "RangePat"), (6, "Lit")]
    );
}

#[test]
fn test_block_expression_lists_block_id_twice() {
    let e = HirExpr::Block(block(7, vec![HirStmt::Continue { id: 8 }], Some(lit(9))));
    let mut ids = Vec::new();
    collect_expr_ids(&e, &mut ids);
    assert_eq!(names(&ids), vec![(7, "Block"), (7, "Block"), (8, "ContinueStmt"), (9, "Lit")]);
    let mut only = Vec::new();
    collect_block_ids(&block(7, vec![], None), &mut only);
    assert_eq!(names(&only), vec![(7, "Block")]);
}
