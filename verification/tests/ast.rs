use axiom_parser::ast::{
    ArgList, AssignExpr, AssocItemList, BinExpr, BlockExpr, BreakStmt,
    CallExpr, CastExpr, CatchExpr, ClosureExpr, ClosureParam, ClosureParamList,
    ConstDef, ContinueStmt, DynType, EnumDef, ErrdeferStmt, ErrorSetDef,
    ErrorSetUnionType, ErrorUnionType, ErrorVariant, ErrorVariantList, ExprStmt, Field,
    FieldExpr, FieldList, FnDef, FnType, FnTypeParams, GenericArgList,
    GenericParam, GenericParamList, IdentPat, IfExpr, ImplBlock, IndexExpr,
    LetStmt, ListLitExpr, LiteralExpr, LiteralPat, LoopCondition, LoopExpr,
    LoopIter, LoopLabel, MatchArm, MatchArmList, MatchExpr, MatchGuard,
    MethodCallExpr, ModDef, Name, NameRef, OrPat, Param,
    ParamList, ParenExpr, Path, PathExpr, PathPat, PathSegment,
    PathType, PrefixExpr, RangeExpr, RangePat, RestPat, RetType,
    ReturnStmt, ScopeExpr, SelfParam, SliceType, SourceFile, SpawnExpr,
    StructDef, StructLitExpr, StructLitField, StructLitFieldList, StructPat, StructPatField,
    StructPatFieldList, SubscriptDef, TraitBounds, TraitDef, TraitItemList, TryExpr,
    TuplePatFieldList, TupleStructPat, UnitType, UseDecl, UseGroup, UseRename,
    UseTree, Variant, VariantList, VariantPayload, Visibility, WildcardPat,
    YieldStmt,
    AstNode,
};
use axiom_parser::green::GreenNodeBuilder;
use axiom_parser::{SyntaxKind, SyntaxNode};

fn can_cast_item(kind: SyntaxKind) -> bool {
    FnDef::can_cast(kind)
        || StructDef::can_cast(kind)
        || EnumDef::can_cast(kind)
        || TraitDef::can_cast(kind)
        || ImplBlock::can_cast(kind)
        || ModDef::can_cast(kind)
        || UseDecl::can_cast(kind)
        || ConstDef::can_cast(kind)
        || ErrorSetDef::can_cast(kind)
}

fn can_cast_item_part(kind: SyntaxKind) -> bool {
    Visibility::can_cast(kind)
        || ParamList::can_cast(kind)
        || Param::can_cast(kind)
        || SelfParam::can_cast(kind)
        || FieldList::can_cast(kind)
        || Field::can_cast(kind)
        || VariantList::can_cast(kind)
        || Variant::can_cast(kind)
        || VariantPayload::can_cast(kind)
        || GenericParamList::can_cast(kind)
        || GenericParam::can_cast(kind)
        || TraitBounds::can_cast(kind)
        || RetType::can_cast(kind)
        || UseTree::can_cast(kind)
        || UseGroup::can_cast(kind)
        || UseRename::can_cast(kind)
        || ErrorVariantList::can_cast(kind)
        || ErrorVariant::can_cast(kind)
        || AssocItemList::can_cast(kind)
        || TraitItemList::can_cast(kind)
}

fn can_cast_stmt(kind: SyntaxKind) -> bool {
    LetStmt::can_cast(kind)
        || ExprStmt::can_cast(kind)
        || ReturnStmt::can_cast(kind)
        || BreakStmt::can_cast(kind)
        || ContinueStmt::can_cast(kind)
        || ErrdeferStmt::can_cast(kind)
}

fn can_cast_expr(kind: SyntaxKind) -> bool {
    BlockExpr::can_cast(kind)
        || LiteralExpr::can_cast(kind)
        || PathExpr::can_cast(kind)
        || BinExpr::can_cast(kind)
        || PrefixExpr::can_cast(kind)
        || CallExpr::can_cast(kind)
        || MethodCallExpr::can_cast(kind)
        || FieldExpr::can_cast(kind)
        || IndexExpr::can_cast(kind)
        || ParenExpr::can_cast(kind)
        || IfExpr::can_cast(kind)
        || MatchExpr::can_cast(kind)
        || LoopExpr::can_cast(kind)
        || ClosureExpr::can_cast(kind)
        || StructLitExpr::can_cast(kind)
        || CastExpr::can_cast(kind)
        || RangeExpr::can_cast(kind)
        || TryExpr::can_cast(kind)
        || AssignExpr::can_cast(kind)
        || CatchExpr::can_cast(kind)
        || ScopeExpr::can_cast(kind)
        || SpawnExpr::can_cast(kind)
        || ListLitExpr::can_cast(kind)
}

fn can_cast_path_name(kind: SyntaxKind) -> bool {
    Path::can_cast(kind)
        || PathSegment::can_cast(kind)
        || Name::can_cast(kind)
        || NameRef::can_cast(kind)
}

fn can_cast_loop_match_misc(kind: SyntaxKind) -> bool {
    LoopCondition::can_cast(kind)
        || LoopIter::can_cast(kind)
        || LoopLabel::can_cast(kind)
        || MatchArmList::can_cast(kind)
        || MatchArm::can_cast(kind)
        || MatchGuard::can_cast(kind)
        || ClosureParamList::can_cast(kind)
        || ClosureParam::can_cast(kind)
        || StructLitFieldList::can_cast(kind)
        || StructLitField::can_cast(kind)
        || ArgList::can_cast(kind)
}

fn can_cast_pattern(kind: SyntaxKind) -> bool {
    WildcardPat::can_cast(kind)
        || LiteralPat::can_cast(kind)
        || IdentPat::can_cast(kind)
        || TupleStructPat::can_cast(kind)
        || StructPat::can_cast(kind)
        || PathPat::can_cast(kind)
        || OrPat::can_cast(kind)
        || RestPat::can_cast(kind)
        || RangePat::can_cast(kind)
        || StructPatFieldList::can_cast(kind)
        || StructPatField::can_cast(kind)
        || TuplePatFieldList::can_cast(kind)
}

fn can_cast_type(kind: SyntaxKind) -> bool {
    PathType::can_cast(kind)
        || GenericArgList::can_cast(kind)
        || ErrorUnionType::can_cast(kind)
        || ErrorSetUnionType::can_cast(kind)
        || DynType::can_cast(kind)
        || UnitType::can_cast(kind)
        || FnType::can_cast(kind)
        || FnTypeParams::can_cast(kind)
}

/// The views the newer families add: subscripts, `yield`, slices.
fn can_cast_newer(kind: SyntaxKind) -> bool {
    SubscriptDef::can_cast(kind) || YieldStmt::can_cast(kind) || SliceType::can_cast(kind)
}

fn can_cast_any(kind: SyntaxKind) -> bool {
    SourceFile::can_cast(kind)
        || can_cast_item(kind)
        || can_cast_item_part(kind)
        || can_cast_stmt(kind)
        || can_cast_expr(kind)
        || can_cast_path_name(kind)
        || can_cast_loop_match_misc(kind)
        || can_cast_pattern(kind)
        || can_cast_type(kind)
        || can_cast_newer(kind)
}

fn build(kind: SyntaxKind) -> SyntaxNode {
    let mut b = GreenNodeBuilder::new();
    b.start_node(kind);
    b.finish_node();
    SyntaxNode::new_root(b.finish())
}

fn every_node_kind_covered() {
    for kind in SyntaxKind::all() {
        if kind.is_node() && kind != SyntaxKind::Error {
            assert!(
                can_cast_any(kind),
                "{kind:?} is a node kind but has no AST view — add one and register it in can_cast_any"
            );
        }
    }
}

#[test]
fn ast_test_ast_every_node_kind_covered() {
    every_node_kind_covered();
}

#[test]
fn tests_test_ast_every_node_kind_covered() {
    every_node_kind_covered();
}

#[test]
fn ast_test_ast_cast_round_trip() {
    let representative = [
        SyntaxKind::SourceFile,
        SyntaxKind::FnDef,
        SyntaxKind::StructDef,
        SyntaxKind::EnumDef,
        SyntaxKind::TraitDef,
        SyntaxKind::ImplBlock,
        SyntaxKind::ModDef,
        SyntaxKind::UseDecl,
        SyntaxKind::ConstDef,
        SyntaxKind::ErrorSetDef,
        SyntaxKind::LetStmt,
        SyntaxKind::ExprStmt,
        SyntaxKind::BinExpr,
        SyntaxKind::IfExpr,
        SyntaxKind::MatchExpr,
        SyntaxKind::Name,
        SyntaxKind::NameRef,
        SyntaxKind::Path,
        SyntaxKind::IdentPat,
        SyntaxKind::PathType,
    ];
    for kind in representative {
        let node = build(kind);
        assert!(can_cast_any(kind), "no view for {kind:?}");
        assert_eq!(node.kind(), kind, "builder produced wrong kind for {kind:?}");
    }
}

#[test]
fn tests_test_ast_cast_round_trip() {
    let fn_def = FnDef::cast(build(SyntaxKind::FnDef)).expect("FnDef::cast");
    assert_eq!(fn_def.syntax().kind(), SyntaxKind::FnDef);
    assert!(FnDef::cast(build(SyntaxKind::StructDef)).is_none());

    let struct_def = StructDef::cast(build(SyntaxKind::StructDef)).expect("StructDef::cast");
    assert_eq!(struct_def.syntax().kind(), SyntaxKind::StructDef);

    let let_stmt = LetStmt::cast(build(SyntaxKind::LetStmt)).expect("LetStmt::cast");
    assert_eq!(let_stmt.syntax().kind(), SyntaxKind::LetStmt);

    let bin_expr = BinExpr::cast(build(SyntaxKind::BinExpr)).expect("BinExpr::cast");
    assert_eq!(bin_expr.syntax().kind(), SyntaxKind::BinExpr);

    let name = Name::cast(build(SyntaxKind::Name)).expect("Name::cast");
    assert_eq!(name.syntax().kind(), SyntaxKind::Name);

    let path_type = PathType::cast(build(SyntaxKind::PathType)).expect("PathType::cast");
    assert_eq!(path_type.syntax().kind(), SyntaxKind::PathType);

    let ident_pat = IdentPat::cast(build(SyntaxKind::IdentPat)).expect("IdentPat::cast");
    assert_eq!(ident_pat.syntax().kind(), SyntaxKind::IdentPat);
    assert!(IdentPat::cast(build(SyntaxKind::WildcardPat)).is_none());
}

fn fn_def_cast_round_trip() {
    let view = FnDef::cast(build(SyntaxKind::FnDef)).expect("FnDef::cast must succeed");
    assert_eq!(view.syntax().kind(), SyntaxKind::FnDef);
}

#[test]
fn ast_test_fn_def_cast_round_trip() {
    fn_def_cast_round_trip();
}

#[test]
fn tests_test_fn_def_cast_round_trip() {
    fn_def_cast_round_trip();
}

fn fn_def_cast_rejects_wrong_kind() {
    assert!(FnDef::cast(build(SyntaxKind::StructDef)).is_none());
}

#[test]
fn ast_test_fn_def_cast_rejects_wrong_kind() {
    fn_def_cast_rejects_wrong_kind();
}

#[test]
fn tests_test_fn_def_cast_rejects_wrong_kind() {
    fn_def_cast_rejects_wrong_kind();
}

#[test]
fn test_every_view_accepts_exactly_its_kind() {
    for kind in SyntaxKind::all() {
        let node = build(kind);
        assert_eq!(FnDef::cast(node).is_some(), kind == SyntaxKind::FnDef);
        assert_eq!(SourceFile::can_cast(kind), kind == SyntaxKind::SourceFile);
        assert_eq!(SliceType::can_cast(kind), kind == SyntaxKind::SliceType);
    }
}
