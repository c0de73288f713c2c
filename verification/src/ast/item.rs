//! Typed views for items: the source file, functions, structs, enums, traits, impls, modules,
//! `use`, constants, error sets, subscripts.

use super::{
    accepted_children, child_expr_node, child_node, child_nodes_of, child_type_node,
    family_children, family_nodes, first_of, view_opt, views_of, AstNode, Family,
};
use super::expr::{BlockExpr};
use super::item_part::{
    AssocItemList, ErrorVariantList, FieldList, GenericParamList, ParamList, RetType, TraitItemList,
    UseTree, VariantList, Visibility,
};
use super::name::{Name};
use super::ty::{PathType};
use crate::syntax::SyntaxNode;
use crate::syntax_kind::SyntaxKind;
use vstd::prelude::*;

verus! {

pub struct SourceFile(SyntaxNode);

impl AstNode for SourceFile {
    open spec fn accepts(kind: SyntaxKind) -> bool {
        kind == SyntaxKind::SourceFile
    }

    closed spec fn node_of(&self) -> SyntaxNode {
        self.0
    }

    fn can_cast(kind: SyntaxKind) -> (r: bool) {
        kind == SyntaxKind::SourceFile
    }

    fn cast(node: SyntaxNode) -> (r: Option<Self>) {
        if Self::can_cast(node.kind()) {
            Some(Self(node))
        } else {
            None
        }
    }

    fn syntax(&self) -> (r: &SyntaxNode) {
        &self.0
    }
}

impl SourceFile {
    /// All top-level item nodes (FnDef, StructDef, …).
    pub fn items(&self) -> (r: Vec<SyntaxNode>)
        ensures
            r@ == family_children(self.node_of(), Family::NotError),
    {
        family_nodes(&self.0, Family::NotError)
    }
}

pub struct FnDef(SyntaxNode);

impl AstNode for FnDef {
    open spec fn accepts(kind: SyntaxKind) -> bool {
        kind == SyntaxKind::FnDef
    }

    closed spec fn node_of(&self) -> SyntaxNode {
        self.0
    }

    fn can_cast(kind: SyntaxKind) -> (r: bool) {
        kind == SyntaxKind::FnDef
    }

    fn cast(node: SyntaxNode) -> (r: Option<Self>) {
        if Self::can_cast(node.kind()) {
            Some(Self(node))
        } else {
            None
        }
    }

    fn syntax(&self) -> (r: &SyntaxNode) {
        &self.0
    }
}

impl FnDef {
    pub fn visibility(&self) -> (r: Option<Visibility>)
        ensures
            view_opt(r) == first_of(accepted_children::<Visibility>(self.node_of())),
    {
        child_node(&self.0)
    }

    pub fn name(&self) -> (r: Option<Name>)
        ensures
            view_opt(r) == first_of(accepted_children::<Name>(self.node_of())),
    {
        child_node(&self.0)
    }

    pub fn generic_param_list(&self) -> (r: Option<GenericParamList>)
        ensures
            view_opt(r) == first_of(accepted_children::<GenericParamList>(self.node_of())),
    {
        child_node(&self.0)
    }

    pub fn param_list(&self) -> (r: Option<ParamList>)
        ensures
            view_opt(r) == first_of(accepted_children::<ParamList>(self.node_of())),
    {
        child_node(&self.0)
    }

    pub fn ret_type(&self) -> (r: Option<RetType>)
        ensures
            view_opt(r) == first_of(accepted_children::<RetType>(self.node_of())),
    {
        child_node(&self.0)
    }

    pub fn body(&self) -> (r: Option<BlockExpr>)
        ensures
            view_opt(r) == first_of(accepted_children::<BlockExpr>(self.node_of())),
    {
        child_node(&self.0)
    }
}

pub struct StructDef(SyntaxNode);

impl AstNode for StructDef {
    open spec fn accepts(kind: SyntaxKind) -> bool {
        kind == SyntaxKind::StructDef
    }

    closed spec fn node_of(&self) -> SyntaxNode {
        self.0
    }

    fn can_cast(kind: SyntaxKind) -> (r: bool) {
        kind == SyntaxKind::StructDef
    }

    fn cast(node: SyntaxNode) -> (r: Option<Self>) {
        if Self::can_cast(node.kind()) {
            Some(Self(node))
        } else {
            None
        }
    }

    fn syntax(&self) -> (r: &SyntaxNode) {
        &self.0
    }
}

impl StructDef {
    pub fn visibility(&self) -> (r: Option<Visibility>)
        ensures
            view_opt(r) == first_of(accepted_children::<Visibility>(self.node_of())),
    {
        child_node(&self.0)
    }

    pub fn name(&self) -> (r: Option<Name>)
        ensures
            view_opt(r) == first_of(accepted_children::<Name>(self.node_of())),
    {
        child_node(&self.0)
    }

    pub fn generic_param_list(&self) -> (r: Option<GenericParamList>)
        ensures
            view_opt(r) == first_of(accepted_children::<GenericParamList>(self.node_of())),
    {
        child_node(&self.0)
    }

    pub fn field_list(&self) -> (r: Option<FieldList>)
        ensures
            view_opt(r) == first_of(accepted_children::<FieldList>(self.node_of())),
    {
        child_node(&self.0)
    }
}

pub struct EnumDef(SyntaxNode);

impl AstNode for EnumDef {
    open spec fn accepts(kind: SyntaxKind) -> bool {
        kind == SyntaxKind::EnumDef
    }

    closed spec fn node_of(&self) -> SyntaxNode {
        self.0
    }

    fn can_cast(kind: SyntaxKind) -> (r: bool) {
        kind == SyntaxKind::EnumDef
    }

    fn cast(node: SyntaxNode) -> (r: Option<Self>) {
        if Self::can_cast(node.kind()) {
            Some(Self(node))
        } else {
            None
        }
    }

    fn syntax(&self) -> (r: &SyntaxNode) {
        &self.0
    }
}

impl EnumDef {
    pub fn visibility(&self) -> (r: Option<Visibility>)
        ensures
            view_opt(r) == first_of(accepted_children::<Visibility>(self.node_of())),
    {
        child_node(&self.0)
    }

    pub fn name(&self) -> (r: Option<Name>)
        ensures
            view_opt(r) == first_of(accepted_children::<Name>(self.node_of())),
    {
        child_node(&self.0)
    }

    pub fn generic_param_list(&self) -> (r: Option<GenericParamList>)
        ensures
            view_opt(r) == first_of(accepted_children::<GenericParamList>(self.node_of())),
    {
        child_node(&self.0)
    }

    pub fn variant_list(&self) -> (r: Option<VariantList>)
        ensures
            view_opt(r) == first_of(accepted_children::<VariantList>(self.node_of())),
    {
        child_node(&self.0)
    }
}

pub struct TraitDef(SyntaxNode);

impl AstNode for TraitDef {
    open spec fn accepts(kind: SyntaxKind) -> bool {
        kind == SyntaxKind::TraitDef
    }

    closed spec fn node_of(&self) -> SyntaxNode {
        self.0
    }

    fn can_cast(kind: SyntaxKind) -> (r: bool) {
        kind == SyntaxKind::TraitDef
    }

    fn cast(node: SyntaxNode) -> (r: Option<Self>) {
        if Self::can_cast(node.kind()) {
            Some(Self(node))
        } else {
            None
        }
    }

    fn syntax(&self) -> (r: &SyntaxNode) {
        &self.0
    }
}

impl TraitDef {
    pub fn visibility(&self) -> (r: Option<Visibility>)
        ensures
            view_opt(r) == first_of(accepted_children::<Visibility>(self.node_of())),
    {
        child_node(&self.0)
    }

    pub fn name(&self) -> (r: Option<Name>)
        ensures
            view_opt(r) == first_of(accepted_children::<Name>(self.node_of())),
    {
        child_node(&self.0)
    }

    pub fn generic_param_list(&self) -> (r: Option<GenericParamList>)
        ensures
            view_opt(r) == first_of(accepted_children::<GenericParamList>(self.node_of())),
    {
        child_node(&self.0)
    }

    pub fn item_list(&self) -> (r: Option<TraitItemList>)
        ensures
            view_opt(r) == first_of(accepted_children::<TraitItemList>(self.node_of())),
    {
        child_node(&self.0)
    }
}

pub struct ImplBlock(SyntaxNode);

impl AstNode for ImplBlock {
    open spec fn accepts(kind: SyntaxKind) -> bool {
        kind == SyntaxKind::ImplBlock
    }

    closed spec fn node_of(&self) -> SyntaxNode {
        self.0
    }

    fn can_cast(kind: SyntaxKind) -> (r: bool) {
        kind == SyntaxKind::ImplBlock
    }

    fn cast(node: SyntaxNode) -> (r: Option<Self>) {
        if Self::can_cast(node.kind()) {
            Some(Self(node))
        } else {
            None
        }
    }

    fn syntax(&self) -> (r: &SyntaxNode) {
        &self.0
    }
}

impl ImplBlock {
    pub fn generic_param_list(&self) -> (r: Option<GenericParamList>)
        ensures
            view_opt(r) == first_of(accepted_children::<GenericParamList>(self.node_of())),
    {
        child_node(&self.0)
    }

    /// The first type child: either the trait (for `impl Trait for Type`) or
    /// the subject (for `impl Type`). Use `trait_ty()` / `subject_ty()` for
    /// the specific roles once the grammar distinguishes them further.
    pub fn first_type(&self) -> (r: Option<SyntaxNode>)
        ensures
            r == first_of(family_children(self.node_of(), Family::Type)),
    {
        child_type_node(&self.0)
    }

    /// All type children in order. For `impl Trait for Type` this returns
    /// `[Trait, Type]`; for `impl Type` it returns `[Type]`.
    pub fn types(&self) -> (r: Vec<PathType>)
        ensures
            views_of(r@) == accepted_children::<PathType>(self.node_of()),
    {
        child_nodes_of(&self.0)
    }

    pub fn assoc_item_list(&self) -> (r: Option<AssocItemList>)
        ensures
            view_opt(r) == first_of(accepted_children::<AssocItemList>(self.node_of())),
    {
        child_node(&self.0)
    }
}

pub struct ModDef(SyntaxNode);

impl AstNode for ModDef {
    open spec fn accepts(kind: SyntaxKind) -> bool {
        kind == SyntaxKind::ModDef
    }

    closed spec fn node_of(&self) -> SyntaxNode {
        self.0
    }

    fn can_cast(kind: SyntaxKind) -> (r: bool) {
        kind == SyntaxKind::ModDef
    }

    fn cast(node: SyntaxNode) -> (r: Option<Self>) {
        if Self::can_cast(node.kind()) {
            Some(Self(node))
        } else {
            None
        }
    }

    fn syntax(&self) -> (r: &SyntaxNode) {
        &self.0
    }
}

impl ModDef {
    pub fn visibility(&self) -> (r: Option<Visibility>)
        ensures
            view_opt(r) == first_of(accepted_children::<Visibility>(self.node_of())),
    {
        child_node(&self.0)
    }

    pub fn name(&self) -> (r: Option<Name>)
        ensures
            view_opt(r) == first_of(accepted_children::<Name>(self.node_of())),
    {
        child_node(&self.0)
    }

    pub fn items(&self) -> (r: Vec<SyntaxNode>)
        ensures
            r@ == family_children(self.node_of(), Family::NotError),
    {
        family_nodes(&self.0, Family::NotError)
    }
}

pub struct UseDecl(SyntaxNode);

impl AstNode for UseDecl {
    open spec fn accepts(kind: SyntaxKind) -> bool {
        kind == SyntaxKind::UseDecl
    }

    closed spec fn node_of(&self) -> SyntaxNode {
        self.0
    }

    fn can_cast(kind: SyntaxKind) -> (r: bool) {
        kind == SyntaxKind::UseDecl
    }

    fn cast(node: SyntaxNode) -> (r: Option<Self>) {
        if Self::can_cast(node.kind()) {
            Some(Self(node))
        } else {
            None
        }
    }

    fn syntax(&self) -> (r: &SyntaxNode) {
        &self.0
    }
}

impl UseDecl {
    pub fn visibility(&self) -> (r: Option<Visibility>)
        ensures
            view_opt(r) == first_of(accepted_children::<Visibility>(self.node_of())),
    {
        child_node(&self.0)
    }

    pub fn use_tree(&self) -> (r: Option<UseTree>)
        ensures
            view_opt(r) == first_of(accepted_children::<UseTree>(self.node_of())),
    {
        child_node(&self.0)
    }
}

pub struct ConstDef(SyntaxNode);

impl AstNode for ConstDef {
    open spec fn accepts(kind: SyntaxKind) -> bool {
        kind == SyntaxKind::ConstDef
    }

    closed spec fn node_of(&self) -> SyntaxNode {
        self.0
    }

    fn can_cast(kind: SyntaxKind) -> (r: bool) {
        kind == SyntaxKind::ConstDef
    }

    fn cast(node: SyntaxNode) -> (r: Option<Self>) {
        if Self::can_cast(node.kind()) {
            Some(Self(node))
        } else {
            None
        }
    }

    fn syntax(&self) -> (r: &SyntaxNode) {
        &self.0
    }
}

impl ConstDef {
    pub fn visibility(&self) -> (r: Option<Visibility>)
        ensures
            view_opt(r) == first_of(accepted_children::<Visibility>(self.node_of())),
    {
        child_node(&self.0)
    }

    pub fn name(&self) -> (r: Option<Name>)
        ensures
            view_opt(r) == first_of(accepted_children::<Name>(self.node_of())),
    {
        child_node(&self.0)
    }

    pub fn ty(&self) -> (r: Option<SyntaxNode>)
        ensures
            r == first_of(family_children(self.node_of(), Family::Type)),
    {
        child_type_node(&self.0)
    }

    pub fn value(&self) -> (r: Option<SyntaxNode>)
        ensures
            r == first_of(family_children(self.node_of(), Family::Expr)),
    {
        child_expr_node(&self.0)
    }
}

pub struct ErrorSetDef(SyntaxNode);

impl AstNode for ErrorSetDef {
    open spec fn accepts(kind: SyntaxKind) -> bool {
        kind == SyntaxKind::ErrorSetDef
    }

    closed spec fn node_of(&self) -> SyntaxNode {
        self.0
    }

    fn can_cast(kind: SyntaxKind) -> (r: bool) {
        kind == SyntaxKind::ErrorSetDef
    }

    fn cast(node: SyntaxNode) -> (r: Option<Self>) {
        if Self::can_cast(node.kind()) {
            Some(Self(node))
        } else {
            None
        }
    }

    fn syntax(&self) -> (r: &SyntaxNode) {
        &self.0
    }
}

impl ErrorSetDef {
    pub fn visibility(&self) -> (r: Option<Visibility>)
        ensures
            view_opt(r) == first_of(accepted_children::<Visibility>(self.node_of())),
    {
        child_node(&self.0)
    }

    pub fn name(&self) -> (r: Option<Name>)
        ensures
            view_opt(r) == first_of(accepted_children::<Name>(self.node_of())),
    {
        child_node(&self.0)
    }

    pub fn variant_list(&self) -> (r: Option<ErrorVariantList>)
        ensures
            view_opt(r) == first_of(accepted_children::<ErrorVariantList>(self.node_of())),
    {
        child_node(&self.0)
    }
}

pub struct SubscriptDef(SyntaxNode);

impl AstNode for SubscriptDef {
    open spec fn accepts(kind: SyntaxKind) -> bool {
        kind == SyntaxKind::SubscriptDef
    }

    closed spec fn node_of(&self) -> SyntaxNode {
        self.0
    }

    fn can_cast(kind: SyntaxKind) -> (r: bool) {
        kind == SyntaxKind::SubscriptDef
    }

    fn cast(node: SyntaxNode) -> (r: Option<Self>) {
        if Self::can_cast(node.kind()) {
            Some(Self(node))
        } else {
            None
        }
    }

    fn syntax(&self) -> (r: &SyntaxNode) {
        &self.0
    }
}

impl SubscriptDef {
    pub fn param_list(&self) -> (r: Option<ParamList>)
        ensures
            view_opt(r) == first_of(accepted_children::<ParamList>(self.node_of())),
    {
        child_node(&self.0)
    }

    pub fn ret_type(&self) -> (r: Option<RetType>)
        ensures
            view_opt(r) == first_of(accepted_children::<RetType>(self.node_of())),
    {
        child_node(&self.0)
    }

    pub fn body(&self) -> (r: Option<BlockExpr>)
        ensures
            view_opt(r) == first_of(accepted_children::<BlockExpr>(self.node_of())),
    {
        child_node(&self.0)
    }
}

} // verus!
