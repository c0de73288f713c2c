//! Typed views for the parts of items: visibility, parameters, fields, variants, generics, bounds,
//! return types, `use` trees, error variants, member lists.

use super::{
    accepted_children, child_node, child_nodes_of, child_token, child_type_node, class_tokens,
    family_children, family_nodes, first_of, view_opt, views_of, AstNode, Family, TokenClass,
};
use super::item::{FnDef};
use crate::syntax::{SyntaxNode, SyntaxToken};
use crate::syntax_kind::SyntaxKind;
use vstd::prelude::*;

verus! {

pub struct Visibility(SyntaxNode);

impl AstNode for Visibility {
    open spec fn accepts(kind: SyntaxKind) -> bool {
        kind == SyntaxKind::Visibility
    }

    closed spec fn node_of(&self) -> SyntaxNode {
        self.0
    }

    fn can_cast(kind: SyntaxKind) -> (r: bool) {
        kind == SyntaxKind::Visibility
    }

    fn cast(node: SyntaxNode) -> (r: Option<Self>) {
        if Self::can_cast(node.kind()) {
            Some(Self(node))
        } else {
            None
        }
    }

    fn syntax(&self) -> (r: &SyntaxNode) {
        &self.0
    }
}

impl Visibility {
    pub fn pub_token(&self) -> (r: Option<SyntaxToken>)
        ensures
            r == first_of(class_tokens(self.node_of(), TokenClass::Is(SyntaxKind::KwPub))),
    {
        child_token(&self.0, SyntaxKind::KwPub)
    }
}

pub struct ParamList(SyntaxNode);

impl AstNode for ParamList {
    open spec fn accepts(kind: SyntaxKind) -> bool {
        kind == SyntaxKind::ParamList
    }

    closed spec fn node_of(&self) -> SyntaxNode {
        self.0
    }

    fn can_cast(kind: SyntaxKind) -> (r: bool) {
        kind == SyntaxKind::ParamList
    }

    fn cast(node: SyntaxNode) -> (r: Option<Self>) {
        if Self::can_cast(node.kind()) {
            Some(Self(node))
        } else {
            None
        }
    }

    fn syntax(&self) -> (r: &SyntaxNode) {
        &self.0
    }
}

impl ParamList {
    pub fn self_param(&self) -> (r: Option<SelfParam>)
        ensures
            view_opt(r) == first_of(accepted_children::<SelfParam>(self.node_of())),
    {
        child_node(&self.0)
    }

    pub fn params(&self) -> (r: Vec<Param>)
        ensures
            views_of(r@) == accepted_children::<Param>(self.node_of()),
    {
        child_nodes_of(&self.0)
    }
}

pub struct Param(SyntaxNode);

impl AstNode for Param {
    open spec fn accepts(kind: SyntaxKind) -> bool {
        kind == SyntaxKind::Param
    }

    closed spec fn node_of(&self) -> SyntaxNode {
        self.0
    }

    fn can_cast(kind: SyntaxKind) -> (r: bool) {
        kind == SyntaxKind::Param
    }

    fn cast(node: SyntaxNode) -> (r: Option<Self>) {
        if Self::can_cast(node.kind()) {
            Some(Self(node))
        } else {
            None
        }
    }

    fn syntax(&self) -> (r: &SyntaxNode) {
        &self.0
    }
}

impl Param {
    pub fn name_token(&self) -> (r: Option<SyntaxToken>)
        ensures
            r == first_of(class_tokens(self.node_of(), TokenClass::Is(SyntaxKind::Ident))),
    {
        child_token(&self.0, SyntaxKind::Ident)
    }

    pub fn ty(&self) -> (r: Option<SyntaxNode>)
        ensures
            r == first_of(family_children(self.node_of(), Family::Type)),
    {
        child_type_node(&self.0)
    }
}

pub struct SelfParam(SyntaxNode);

impl AstNode for SelfParam {
    open spec fn accepts(kind: SyntaxKind) -> bool {
        kind == SyntaxKind::SelfParam
    }

    closed spec fn node_of(&self) -> SyntaxNode {
        self.0
    }

    fn can_cast(kind: SyntaxKind) -> (r: bool) {
        kind == SyntaxKind::SelfParam
    }

    fn cast(node: SyntaxNode) -> (r: Option<Self>) {
        if Self::can_cast(node.kind()) {
            Some(Self(node))
        } else {
            None
        }
    }

    fn syntax(&self) -> (r: &SyntaxNode) {
        &self.0
    }
}

impl SelfParam {
    pub fn self_token(&self) -> (r: Option<SyntaxToken>)
        ensures
            r == first_of(class_tokens(self.node_of(), TokenClass::Is(SyntaxKind::KwSelf))),
    {
        child_token(&self.0, SyntaxKind::KwSelf)
    }
}

pub struct FieldList(SyntaxNode);

impl AstNode for FieldList {
    open spec fn accepts(kind: SyntaxKind) -> bool {
        kind == SyntaxKind::FieldList
    }

    closed spec fn node_of(&self) -> SyntaxNode {
        self.0
    }

    fn can_cast(kind: SyntaxKind) -> (r: bool) {
        kind == SyntaxKind::FieldList
    }

    fn cast(node: SyntaxNode) -> (r: Option<Self>) {
        if Self::can_cast(node.kind()) {
            Some(Self(node))
        } else {
            None
        }
    }

    fn syntax(&self) -> (r: &SyntaxNode) {
        &self.0
    }
}

impl FieldList {
    pub fn fields(&self) -> (r: Vec<Field>)
        ensures
            views_of(r@) == accepted_children::<Field>(self.node_of()),
    {
        child_nodes_of(&self.0)
    }
}

pub struct Field(SyntaxNode);

impl AstNode for Field {
    open spec fn accepts(kind: SyntaxKind) -> bool {
        kind == SyntaxKind::Field
    }

    closed spec fn node_of(&self) -> SyntaxNode {
        self.0
    }

    fn can_cast(kind: SyntaxKind) -> (r: bool) {
        kind == SyntaxKind::Field
    }

    fn cast(node: SyntaxNode) -> (r: Option<Self>) {
        if Self::can_cast(node.kind()) {
            Some(Self(node))
        } else {
            None
        }
    }

    fn syntax(&self) -> (r: &SyntaxNode) {
        &self.0
    }
}

impl Field {
    pub fn visibility(&self) -> (r: Option<Visibility>)
        ensures
            view_opt(r) == first_of(accepted_children::<Visibility>(self.node_of())),
    {
        child_node(&self.0)
    }

    pub fn name_token(&self) -> (r: Option<SyntaxToken>)
        ensures
            r == first_of(class_tokens(self.node_of(), TokenClass::Is(SyntaxKind::Ident))),
    {
        child_token(&self.0, SyntaxKind::Ident)
    }

    pub fn ty(&self) -> (r: Option<SyntaxNode>)
        ensures
            r == first_of(family_children(self.node_of(), Family::Type)),
    {
        child_type_node(&self.0)
    }
}

pub struct VariantList(SyntaxNode);

impl AstNode for VariantList {
    open spec fn accepts(kind: SyntaxKind) -> bool {
        kind == SyntaxKind::VariantList
    }

    closed spec fn node_of(&self) -> SyntaxNode {
        self.0
    }

    fn can_cast(kind: SyntaxKind) -> (r: bool) {
        kind == SyntaxKind::VariantList
    }

    fn cast(node: SyntaxNode) -> (r: Option<Self>) {
        if Self::can_cast(node.kind()) {
            Some(Self(node))
        } else {
            None
        }
    }

    fn syntax(&self) -> (r: &SyntaxNode) {
        &self.0
    }
}

impl VariantList {
    pub fn variants(&self) -> (r: Vec<Variant>)
        ensures
            views_of(r@) == accepted_children::<Variant>(self.node_of()),
    {
        child_nodes_of(&self.0)
    }
}

pub struct Variant(SyntaxNode);

impl AstNode for Variant {
    open spec fn accepts(kind: SyntaxKind) -> bool {
        kind == SyntaxKind::Variant
    }

    closed spec fn node_of(&self) -> SyntaxNode {
        self.0
    }

    fn can_cast(kind: SyntaxKind) -> (r: bool) {
        kind == SyntaxKind::Variant
    }

    fn cast(node: SyntaxNode) -> (r: Option<Self>) {
        if Self::can_cast(node.kind()) {
            Some(Self(node))
        } else {
            None
        }
    }

    fn syntax(&self) -> (r: &SyntaxNode) {
        &self.0
    }
}

impl Variant {
    pub fn name_token(&self) -> (r: Option<SyntaxToken>)
        ensures
            r == first_of(class_tokens(self.node_of(), TokenClass::Is(SyntaxKind::Ident))),
    {
        child_token(&self.0, SyntaxKind::Ident)
    }

    pub fn payload(&self) -> (r: Option<VariantPayload>)
        ensures
            view_opt(r) == first_of(accepted_children::<VariantPayload>(self.node_of())),
    {
        child_node(&self.0)
    }
}

pub struct VariantPayload(SyntaxNode);

impl AstNode for VariantPayload {
    open spec fn accepts(kind: SyntaxKind) -> bool {
        kind == SyntaxKind::VariantPayload
    }

    closed spec fn node_of(&self) -> SyntaxNode {
        self.0
    }

    fn can_cast(kind: SyntaxKind) -> (r: bool) {
        kind == SyntaxKind::VariantPayload
    }

    fn cast(node: SyntaxNode) -> (r: Option<Self>) {
        if Self::can_cast(node.kind()) {
            Some(Self(node))
        } else {
            None
        }
    }

    fn syntax(&self) -> (r: &SyntaxNode) {
        &self.0
    }
}

impl VariantPayload {
    pub fn types(&self) -> (r: Vec<SyntaxNode>)
        ensures
            r@ == family_children(self.node_of(), Family::Type),
    {
        family_nodes(&self.0, Family::Type)
    }
}

pub struct GenericParamList(SyntaxNode);

impl AstNode for GenericParamList {
    open spec fn accepts(kind: SyntaxKind) -> bool {
        kind == SyntaxKind::GenericParamList
    }

    closed spec fn node_of(&self) -> SyntaxNode {
        self.0
    }

    fn can_cast(kind: SyntaxKind) -> (r: bool) {
        kind == SyntaxKind::GenericParamList
    }

    fn cast(node: SyntaxNode) -> (r: Option<Self>) {
        if Self::can_cast(node.kind()) {
            Some(Self(node))
        } else {
            None
        }
    }

    fn syntax(&self) -> (r: &SyntaxNode) {
        &self.0
    }
}

impl GenericParamList {
    pub fn params(&self) -> (r: Vec<GenericParam>)
        ensures
            views_of(r@) == accepted_children::<GenericParam>(self.node_of()),
    {
        child_nodes_of(&self.0)
    }
}

pub struct GenericParam(SyntaxNode);

impl AstNode for GenericParam {
    open spec fn accepts(kind: SyntaxKind) -> bool {
        kind == SyntaxKind::GenericParam
    }

    closed spec fn node_of(&self) -> SyntaxNode {
        self.0
    }

    fn can_cast(kind: SyntaxKind) -> (r: bool) {
        kind == SyntaxKind::GenericParam
    }

    fn cast(node: SyntaxNode) -> (r: Option<Self>) {
        if Self::can_cast(node.kind()) {
            Some(Self(node))
        } else {
            None
        }
    }

    fn syntax(&self) -> (r: &SyntaxNode) {
        &self.0
    }
}

impl GenericParam {
    pub fn name_token(&self) -> (r: Option<SyntaxToken>)
        ensures
            r == first_of(class_tokens(self.node_of(), TokenClass::Is(SyntaxKind::Ident))),
    {
        child_token(&self.0, SyntaxKind::Ident)
    }

    pub fn bounds(&self) -> (r: Option<TraitBounds>)
        ensures
            view_opt(r) == first_of(accepted_children::<TraitBounds>(self.node_of())),
    {
        child_node(&self.0)
    }
}

pub struct TraitBounds(SyntaxNode);

impl AstNode for TraitBounds {
    open spec fn accepts(kind: SyntaxKind) -> bool {
        kind == SyntaxKind::TraitBounds
    }

    closed spec fn node_of(&self) -> SyntaxNode {
        self.0
    }

    fn can_cast(kind: SyntaxKind) -> (r: bool) {
        kind == SyntaxKind::TraitBounds
    }

    fn cast(node: SyntaxNode) -> (r: Option<Self>) {
        if Self::can_cast(node.kind()) {
            Some(Self(node))
        } else {
            None
        }
    }

    fn syntax(&self) -> (r: &SyntaxNode) {
        &self.0
    }
}

impl TraitBounds {
    pub fn types(&self) -> (r: Vec<SyntaxNode>)
        ensures
            r@ == family_children(self.node_of(), Family::Type),
    {
        family_nodes(&self.0, Family::Type)
    }
}

pub struct RetType(SyntaxNode);

impl AstNode for RetType {
    open spec fn accepts(kind: SyntaxKind) -> bool {
        kind == SyntaxKind::RetType
    }

    closed spec fn node_of(&self) -> SyntaxNode {
        self.0
    }

    fn can_cast(kind: SyntaxKind) -> (r: bool) {
        kind == SyntaxKind::RetType
    }

    fn cast(node: SyntaxNode) -> (r: Option<Self>) {
        if Self::can_cast(node.kind()) {
            Some(Self(node))
        } else {
            None
        }
    }

    fn syntax(&self) -> (r: &SyntaxNode) {
        &self.0
    }
}

impl RetType {
    pub fn ty(&self) -> (r: Option<SyntaxNode>)
        ensures
            r == first_of(family_children(self.node_of(), Family::Type)),
    {
        child_type_node(&self.0)
    }
}

pub struct UseTree(SyntaxNode);

impl AstNode for UseTree {
    open spec fn accepts(kind: SyntaxKind) -> bool {
        kind == SyntaxKind::UseTree
    }

    closed spec fn node_of(&self) -> SyntaxNode {
        self.0
    }

    fn can_cast(kind: SyntaxKind) -> (r: bool) {
        kind == SyntaxKind::UseTree
    }

    fn cast(node: SyntaxNode) -> (r: Option<Self>) {
        if Self::can_cast(node.kind()) {
            Some(Self(node))
        } else {
            None
        }
    }

    fn syntax(&self) -> (r: &SyntaxNode) {
        &self.0
    }
}

impl UseTree {
    pub fn group(&self) -> (r: Option<UseGroup>)
        ensures
            view_opt(r) == first_of(accepted_children::<UseGroup>(self.node_of())),
    {
        child_node(&self.0)
    }

    pub fn rename(&self) -> (r: Option<UseRename>)
        ensures
            view_opt(r) == first_of(accepted_children::<UseRename>(self.node_of())),
    {
        child_node(&self.0)
    }
}

pub struct UseGroup(SyntaxNode);

impl AstNode for UseGroup {
    open spec fn accepts(kind: SyntaxKind) -> bool {
        kind == SyntaxKind::UseGroup
    }

    closed spec fn node_of(&self) -> SyntaxNode {
        self.0
    }

    fn can_cast(kind: SyntaxKind) -> (r: bool) {
        kind == SyntaxKind::UseGroup
    }

    fn cast(node: SyntaxNode) -> (r: Option<Self>) {
        if Self::can_cast(node.kind()) {
            Some(Self(node))
        } else {
            None
        }
    }

    fn syntax(&self) -> (r: &SyntaxNode) {
        &self.0
    }
}

impl UseGroup {
    pub fn trees(&self) -> (r: Vec<UseTree>)
        ensures
            views_of(r@) == accepted_children::<UseTree>(self.node_of()),
    {
        child_nodes_of(&self.0)
    }
}

pub struct UseRename(SyntaxNode);

impl AstNode for UseRename {
    open spec fn accepts(kind: SyntaxKind) -> bool {
        kind == SyntaxKind::UseRename
    }

    closed spec fn node_of(&self) -> SyntaxNode {
        self.0
    }

    fn can_cast(kind: SyntaxKind) -> (r: bool) {
        kind == SyntaxKind::UseRename
    }

    fn cast(node: SyntaxNode) -> (r: Option<Self>) {
        if Self::can_cast(node.kind()) {
            Some(Self(node))
        } else {
            None
        }
    }

    fn syntax(&self) -> (r: &SyntaxNode) {
        &self.0
    }
}

impl UseRename {
    pub fn name_token(&self) -> (r: Option<SyntaxToken>)
        ensures
            r == first_of(class_tokens(self.node_of(), TokenClass::Is(SyntaxKind::Ident))),
    {
        child_token(&self.0, SyntaxKind::Ident)
    }
}

pub struct ErrorVariantList(SyntaxNode);

impl AstNode for ErrorVariantList {
    open spec fn accepts(kind: SyntaxKind) -> bool {
        kind == SyntaxKind::ErrorVariantList
    }

    closed spec fn node_of(&self) -> SyntaxNode {
        self.0
    }

    fn can_cast(kind: SyntaxKind) -> (r: bool) {
        kind == SyntaxKind::ErrorVariantList
    }

    fn cast(node: SyntaxNode) -> (r: Option<Self>) {
        if Self::can_cast(node.kind()) {
            Some(Self(node))
        } else {
            None
        }
    }

    fn syntax(&self) -> (r: &SyntaxNode) {
        &self.0
    }
}

impl ErrorVariantList {
    pub fn variants(&self) -> (r: Vec<ErrorVariant>)
        ensures
            views_of(r@) == accepted_children::<ErrorVariant>(self.node_of()),
    {
        child_nodes_of(&self.0)
    }
}

pub struct ErrorVariant(SyntaxNode);

impl AstNode for ErrorVariant {
    open spec fn accepts(kind: SyntaxKind) -> bool {
        kind == SyntaxKind::ErrorVariant
    }

    closed spec fn node_of(&self) -> SyntaxNode {
        self.0
    }

    fn can_cast(kind: SyntaxKind) -> (r: bool) {
        kind == SyntaxKind::ErrorVariant
    }

    fn cast(node: SyntaxNode) -> (r: Option<Self>) {
        if Self::can_cast(node.kind()) {
            Some(Self(node))
        } else {
            None
        }
    }

    fn syntax(&self) -> (r: &SyntaxNode) {
        &self.0
    }
}

impl ErrorVariant {
    pub fn name_token(&self) -> (r: Option<SyntaxToken>)
        ensures
            r == first_of(class_tokens(self.node_of(), TokenClass::Is(SyntaxKind::Ident))),
    {
        child_token(&self.0, SyntaxKind::Ident)
    }
}

pub struct AssocItemList(SyntaxNode);

impl AstNode for AssocItemList {
    open spec fn accepts(kind: SyntaxKind) -> bool {
        kind == SyntaxKind::AssocItemList
    }

    closed spec fn node_of(&self) -> SyntaxNode {
        self.0
    }

    fn can_cast(kind: SyntaxKind) -> (r: bool) {
        kind == SyntaxKind::AssocItemList
    }

    fn cast(node: SyntaxNode) -> (r: Option<Self>) {
        if Self::can_cast(node.kind()) {
            Some(Self(node))
        } else {
            None
        }
    }

    fn syntax(&self) -> (r: &SyntaxNode) {
        &self.0
    }
}

impl AssocItemList {
    pub fn methods(&self) -> (r: Vec<FnDef>)
        ensures
            views_of(r@) == accepted_children::<FnDef>(self.node_of()),
    {
        child_nodes_of(&self.0)
    }
}

pub struct TraitItemList(SyntaxNode);

impl AstNode for TraitItemList {
    open spec fn accepts(kind: SyntaxKind) -> bool {
        kind == SyntaxKind::TraitItemList
    }

    closed spec fn node_of(&self) -> SyntaxNode {
        self.0
    }

    fn can_cast(kind: SyntaxKind) -> (r: bool) {
        kind == SyntaxKind::TraitItemList
    }

    fn cast(node: SyntaxNode) -> (r: Option<Self>) {
        if Self::can_cast(node.kind()) {
            Some(Self(node))
        } else {
            None
        }
    }

    fn syntax(&self) -> (r: &SyntaxNode) {
        &self.0
    }
}

impl TraitItemList {
    pub fn methods(&self) -> (r: Vec<FnDef>)
        ensures
            views_of(r@) == accepted_children::<FnDef>(self.node_of()),
    {
        child_nodes_of(&self.0)
    }
}

} // verus!
