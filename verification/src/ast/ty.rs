//! Typed views for type annotations.

use super::{
    accepted_children, child_node, child_type_node, family_children, family_nodes, first_of,
    nth_family_node, nth_of, view_opt, AstNode, Family,
};
use super::item_part::{RetType};
use super::name::{Path};
use crate::syntax::SyntaxNode;
use crate::syntax_kind::SyntaxKind;
use vstd::prelude::*;

verus! {

pub struct PathType(SyntaxNode);

impl AstNode for PathType {
    open spec fn accepts(kind: SyntaxKind) -> bool {
        kind == SyntaxKind::PathType
    }

    closed spec fn node_of(&self) -> SyntaxNode {
        self.0
    }

    fn can_cast(kind: SyntaxKind) -> (r: bool) {
        kind == SyntaxKind::PathType
    }

    fn cast(node: SyntaxNode) -> (r: Option<Self>) {
        if Self::can_cast(node.kind()) {
            Some(Self(node))
        } else {
            None
        }
    }

    fn syntax(&self) -> (r: &SyntaxNode) {
        &self.0
    }
}

impl PathType {
    /// The path for a named type like `Foo` or `pkg::Bar`.
    /// 
    /// Returns `None` for parenthesized types like `(T)`: the grammar reuses
    /// `PathType` as the wrapper node in that case, but the only child is another
    /// `PathType`, not a `Path`.
    pub fn path(&self) -> (r: Option<Path>)
        ensures
            view_opt(r) == first_of(accepted_children::<Path>(self.node_of())),
    {
        child_node(&self.0)
    }

    pub fn generic_arg_list(&self) -> (r: Option<GenericArgList>)
        ensures
            view_opt(r) == first_of(accepted_children::<GenericArgList>(self.node_of())),
    {
        child_node(&self.0)
    }
}

pub struct GenericArgList(SyntaxNode);

impl AstNode for GenericArgList {
    open spec fn accepts(kind: SyntaxKind) -> bool {
        kind == SyntaxKind::GenericArgList
    }

    closed spec fn node_of(&self) -> SyntaxNode {
        self.0
    }

    fn can_cast(kind: SyntaxKind) -> (r: bool) {
        kind == SyntaxKind::GenericArgList
    }

    fn cast(node: SyntaxNode) -> (r: Option<Self>) {
        if Self::can_cast(node.kind()) {
            Some(Self(node))
        } else {
            None
        }
    }

    fn syntax(&self) -> (r: &SyntaxNode) {
        &self.0
    }
}

impl GenericArgList {
    pub fn args(&self) -> (r: Vec<SyntaxNode>)
        ensures
            r@ == family_children(self.node_of(), Family::Type),
    {
        family_nodes(&self.0, Family::Type)
    }
}

pub struct ErrorUnionType(SyntaxNode);

impl AstNode for ErrorUnionType {
    open spec fn accepts(kind: SyntaxKind) -> bool {
        kind == SyntaxKind::ErrorUnionType
    }

    closed spec fn node_of(&self) -> SyntaxNode {
        self.0
    }

    fn can_cast(kind: SyntaxKind) -> (r: bool) {
        kind == SyntaxKind::ErrorUnionType
    }

    fn cast(node: SyntaxNode) -> (r: Option<Self>) {
        if Self::can_cast(node.kind()) {
            Some(Self(node))
        } else {
            None
        }
    }

    fn syntax(&self) -> (r: &SyntaxNode) {
        &self.0
    }
}

impl ErrorUnionType {
    pub fn error_type(&self) -> (r: Option<SyntaxNode>)
        ensures
            r == nth_of(family_children(self.node_of(), Family::Type), 0),
    {
        nth_family_node(&self.0, Family::Type, 0)
    }

    pub fn success_type(&self) -> (r: Option<SyntaxNode>)
        ensures
            r == nth_of(family_children(self.node_of(), Family::Type), 1),
    {
        nth_family_node(&self.0, Family::Type, 1)
    }
}

pub struct ErrorSetUnionType(SyntaxNode);

impl AstNode for ErrorSetUnionType {
    open spec fn accepts(kind: SyntaxKind) -> bool {
        kind == SyntaxKind::ErrorSetUnionType
    }

    closed spec fn node_of(&self) -> SyntaxNode {
        self.0
    }

    fn can_cast(kind: SyntaxKind) -> (r: bool) {
        kind == SyntaxKind::ErrorSetUnionType
    }

    fn cast(node: SyntaxNode) -> (r: Option<Self>) {
        if Self::can_cast(node.kind()) {
            Some(Self(node))
        } else {
            None
        }
    }

    fn syntax(&self) -> (r: &SyntaxNode) {
        &self.0
    }
}

impl ErrorSetUnionType {
    pub fn members(&self) -> (r: Vec<SyntaxNode>)
        ensures
            r@ == family_children(self.node_of(), Family::Type),
    {
        family_nodes(&self.0, Family::Type)
    }
}

/// Reserved for `dyn Trait` dynamic dispatch types. Not yet implemented in the
/// grammar; this node kind is never produced by the current parser.
pub struct DynType(SyntaxNode);

impl AstNode for DynType {
    open spec fn accepts(kind: SyntaxKind) -> bool {
        kind == SyntaxKind::DynType
    }

    closed spec fn node_of(&self) -> SyntaxNode {
        self.0
    }

    fn can_cast(kind: SyntaxKind) -> (r: bool) {
        kind == SyntaxKind::DynType
    }

    fn cast(node: SyntaxNode) -> (r: Option<Self>) {
        if Self::can_cast(node.kind()) {
            Some(Self(node))
        } else {
            None
        }
    }

    fn syntax(&self) -> (r: &SyntaxNode) {
        &self.0
    }
}

impl DynType {
    pub fn inner_type(&self) -> (r: Option<SyntaxNode>)
        ensures
            r == first_of(family_children(self.node_of(), Family::Type)),
    {
        child_type_node(&self.0)
    }
}

pub struct UnitType(SyntaxNode);

impl AstNode for UnitType {
    open spec fn accepts(kind: SyntaxKind) -> bool {
        kind == SyntaxKind::UnitType
    }

    closed spec fn node_of(&self) -> SyntaxNode {
        self.0
    }

    fn can_cast(kind: SyntaxKind) -> (r: bool) {
        kind == SyntaxKind::UnitType
    }

    fn cast(node: SyntaxNode) -> (r: Option<Self>) {
        if Self::can_cast(node.kind()) {
            Some(Self(node))
        } else {
            None
        }
    }

    fn syntax(&self) -> (r: &SyntaxNode) {
        &self.0
    }
}

/// Reserved for first-class function types (`fn(T) -> U`). Not yet implemented
/// in the grammar; this node kind is never produced by the current parser.
pub struct FnType(SyntaxNode);

impl AstNode for FnType {
    open spec fn accepts(kind: SyntaxKind) -> bool {
        kind == SyntaxKind::FnType
    }

    closed spec fn node_of(&self) -> SyntaxNode {
        self.0
    }

    fn can_cast(kind: SyntaxKind) -> (r: bool) {
        kind == SyntaxKind::FnType
    }

    fn cast(node: SyntaxNode) -> (r: Option<Self>) {
        if Self::can_cast(node.kind()) {
            Some(Self(node))
        } else {
            None
        }
    }

    fn syntax(&self) -> (r: &SyntaxNode) {
        &self.0
    }
}

impl FnType {
    pub fn params(&self) -> (r: Option<FnTypeParams>)
        ensures
            view_opt(r) == first_of(accepted_children::<FnTypeParams>(self.node_of())),
    {
        child_node(&self.0)
    }

    pub fn ret_type(&self) -> (r: Option<RetType>)
        ensures
            view_opt(r) == first_of(accepted_children::<RetType>(self.node_of())),
    {
        child_node(&self.0)
    }
}

/// Parameter list for a first-class function type (`fn(T, U)`). Not yet
/// implemented in the grammar; this node kind is never produced today.
pub struct FnTypeParams(SyntaxNode);

impl AstNode for FnTypeParams {
    open spec fn accepts(kind: SyntaxKind) -> bool {
        kind == SyntaxKind::FnTypeParams
    }

    closed spec fn node_of(&self) -> SyntaxNode {
        self.0
    }

    fn can_cast(kind: SyntaxKind) -> (r: bool) {
        kind == SyntaxKind::FnTypeParams
    }

    fn cast(node: SyntaxNode) -> (r: Option<Self>) {
        if Self::can_cast(node.kind()) {
            Some(Self(node))
        } else {
            None
        }
    }

    fn syntax(&self) -> (r: &SyntaxNode) {
        &self.0
    }
}

impl FnTypeParams {
    pub fn types(&self) -> (r: Vec<SyntaxNode>)
        ensures
            r@ == family_children(self.node_of(), Family::Type),
    {
        family_nodes(&self.0, Family::Type)
    }
}

/// `[T]` — a slice type. The single child type node is the element type.
pub struct SliceType(SyntaxNode);

impl AstNode for SliceType {
    open spec fn accepts(kind: SyntaxKind) -> bool {
        kind == SyntaxKind::SliceType
    }

    closed spec fn node_of(&self) -> SyntaxNode {
        self.0
    }

    fn can_cast(kind: SyntaxKind) -> (r: bool) {
        kind == SyntaxKind::SliceType
    }

    fn cast(node: SyntaxNode) -> (r: Option<Self>) {
        if Self::can_cast(node.kind()) {
            Some(Self(node))
        } else {
            None
        }
    }

    fn syntax(&self) -> (r: &SyntaxNode) {
        &self.0
    }
}

impl SliceType {
    /// The element type `T` in `[T]`.
    pub fn element_type(&self) -> (r: Option<SyntaxNode>)
        ensures
            r == first_of(family_children(self.node_of(), Family::Type)),
    {
        child_type_node(&self.0)
    }
}

} // verus!
