//! Typed views for the core expressions: blocks, literals, paths, operators, calls, fields,
//! indexing, parentheses.

use super::{
    accepted_children, child_expr_node, child_node, class_tokens, family_children, family_nodes,
    first_of, first_token, nth_class_token, nth_family_node, nth_of, view_opt, AstNode, Family,
    TokenClass,
};
use super::expr_flow::{ArgList};
use super::name::{NameRef, Path};
use crate::syntax::{SyntaxNode, SyntaxToken};
use crate::syntax_kind::SyntaxKind;
use vstd::prelude::*;

verus! {

pub struct BlockExpr(SyntaxNode);

impl AstNode for BlockExpr {
    open spec fn accepts(kind: SyntaxKind) -> bool {
        kind == SyntaxKind::BlockExpr
    }

    closed spec fn node_of(&self) -> SyntaxNode {
        self.0
    }

    fn can_cast(kind: SyntaxKind) -> (r: bool) {
        kind == SyntaxKind::BlockExpr
    }

    fn cast(node: SyntaxNode) -> (r: Option<Self>) {
        if Self::can_cast(node.kind()) {
            Some(Self(node))
        } else {
            None
        }
    }

    fn syntax(&self) -> (r: &SyntaxNode) {
        &self.0
    }
}

impl BlockExpr {
    pub fn stmts(&self) -> (r: Vec<SyntaxNode>)
        ensures
            r@ == family_children(self.node_of(), Family::Stmt),
    {
        family_nodes(&self.0, Family::Stmt)
    }
}

pub struct LiteralExpr(SyntaxNode);

impl AstNode for LiteralExpr {
    open spec fn accepts(kind: SyntaxKind) -> bool {
        kind == SyntaxKind::LiteralExpr
    }

    closed spec fn node_of(&self) -> SyntaxNode {
        self.0
    }

    fn can_cast(kind: SyntaxKind) -> (r: bool) {
        kind == SyntaxKind::LiteralExpr
    }

    fn cast(node: SyntaxNode) -> (r: Option<Self>) {
        if Self::can_cast(node.kind()) {
            Some(Self(node))
        } else {
            None
        }
    }

    fn syntax(&self) -> (r: &SyntaxNode) {
        &self.0
    }
}

impl LiteralExpr {
    pub fn token(&self) -> (r: Option<SyntaxToken>)
        ensures
            r == first_of(class_tokens(self.node_of(), TokenClass::NonTrivia)),
    {
        first_token(&self.0)
    }
}

pub struct PathExpr(SyntaxNode);

impl AstNode for PathExpr {
    open spec fn accepts(kind: SyntaxKind) -> bool {
        kind == SyntaxKind::PathExpr
    }

    closed spec fn node_of(&self) -> SyntaxNode {
        self.0
    }

    fn can_cast(kind: SyntaxKind) -> (r: bool) {
        kind == SyntaxKind::PathExpr
    }

    fn cast(node: SyntaxNode) -> (r: Option<Self>) {
        if Self::can_cast(node.kind()) {
            Some(Self(node))
        } else {
            None
        }
    }

    fn syntax(&self) -> (r: &SyntaxNode) {
        &self.0
    }
}

impl PathExpr {
    pub fn path(&self) -> (r: Option<Path>)
        ensures
            view_opt(r) == first_of(accepted_children::<Path>(self.node_of())),
    {
        child_node(&self.0)
    }
}

pub struct BinExpr(SyntaxNode);

impl AstNode for BinExpr {
    open spec fn accepts(kind: SyntaxKind) -> bool {
        kind == SyntaxKind::BinExpr
    }

    closed spec fn node_of(&self) -> SyntaxNode {
        self.0
    }

    fn can_cast(kind: SyntaxKind) -> (r: bool) {
        kind == SyntaxKind::BinExpr
    }

    fn cast(node: SyntaxNode) -> (r: Option<Self>) {
        if Self::can_cast(node.kind()) {
            Some(Self(node))
        } else {
            None
        }
    }

    fn syntax(&self) -> (r: &SyntaxNode) {
        &self.0
    }
}

impl BinExpr {
    pub fn lhs(&self) -> (r: Option<SyntaxNode>)
        ensures
            r == nth_of(family_children(self.node_of(), Family::Expr), 0),
    {
        nth_family_node(&self.0, Family::Expr, 0)
    }

    pub fn rhs(&self) -> (r: Option<SyntaxNode>)
        ensures
            r == nth_of(family_children(self.node_of(), Family::Expr), 1),
    {
        nth_family_node(&self.0, Family::Expr, 1)
    }

    pub fn op_token(&self) -> (r: Option<SyntaxToken>)
        ensures
            r == first_of(class_tokens(self.node_of(), TokenClass::BinOp)),
    {
        nth_class_token(&self.0, TokenClass::BinOp, 0)
    }
}

pub struct PrefixExpr(SyntaxNode);

impl AstNode for PrefixExpr {
    open spec fn accepts(kind: SyntaxKind) -> bool {
        kind == SyntaxKind::PrefixExpr
    }

    closed spec fn node_of(&self) -> SyntaxNode {
        self.0
    }

    fn can_cast(kind: SyntaxKind) -> (r: bool) {
        kind == SyntaxKind::PrefixExpr
    }

    fn cast(node: SyntaxNode) -> (r: Option<Self>) {
        if Self::can_cast(node.kind()) {
            Some(Self(node))
        } else {
            None
        }
    }

    fn syntax(&self) -> (r: &SyntaxNode) {
        &self.0
    }
}

impl PrefixExpr {
    pub fn op_token(&self) -> (r: Option<SyntaxToken>)
        ensures
            r == first_of(class_tokens(self.node_of(), TokenClass::PrefixOp)),
    {
        nth_class_token(&self.0, TokenClass::PrefixOp, 0)
    }

    pub fn expr(&self) -> (r: Option<SyntaxNode>)
        ensures
            r == first_of(family_children(self.node_of(), Family::Expr)),
    {
        child_expr_node(&self.0)
    }
}

pub struct CallExpr(SyntaxNode);

impl AstNode for CallExpr {
    open spec fn accepts(kind: SyntaxKind) -> bool {
        kind == SyntaxKind::CallExpr
    }

    closed spec fn node_of(&self) -> SyntaxNode {
        self.0
    }

    fn can_cast(kind: SyntaxKind) -> (r: bool) {
        kind == SyntaxKind::CallExpr
    }

    fn cast(node: SyntaxNode) -> (r: Option<Self>) {
        if Self::can_cast(node.kind()) {
            Some(Self(node))
        } else {
            None
        }
    }

    fn syntax(&self) -> (r: &SyntaxNode) {
        &self.0
    }
}

impl CallExpr {
    pub fn callee(&self) -> (r: Option<SyntaxNode>)
        ensures
            r == first_of(family_children(self.node_of(), Family::Expr)),
    {
        child_expr_node(&self.0)
    }

    pub fn arg_list(&self) -> (r: Option<ArgList>)
        ensures
            view_opt(r) == first_of(accepted_children::<ArgList>(self.node_of())),
    {
        child_node(&self.0)
    }
}

pub struct MethodCallExpr(SyntaxNode);

impl AstNode for MethodCallExpr {
    open spec fn accepts(kind: SyntaxKind) -> bool {
        kind == SyntaxKind::MethodCallExpr
    }

    closed spec fn node_of(&self) -> SyntaxNode {
        self.0
    }

    fn can_cast(kind: SyntaxKind) -> (r: bool) {
        kind == SyntaxKind::MethodCallExpr
    }

    fn cast(node: SyntaxNode) -> (r: Option<Self>) {
        if Self::can_cast(node.kind()) {
            Some(Self(node))
        } else {
            None
        }
    }

    fn syntax(&self) -> (r: &SyntaxNode) {
        &self.0
    }
}

impl MethodCallExpr {
    pub fn receiver(&self) -> (r: Option<SyntaxNode>)
        ensures
            r == first_of(family_children(self.node_of(), Family::Expr)),
    {
        child_expr_node(&self.0)
    }

    pub fn method_name(&self) -> (r: Option<NameRef>)
        ensures
            view_opt(r) == first_of(accepted_children::<NameRef>(self.node_of())),
    {
        child_node(&self.0)
    }

    pub fn arg_list(&self) -> (r: Option<ArgList>)
        ensures
            view_opt(r) == first_of(accepted_children::<ArgList>(self.node_of())),
    {
        child_node(&self.0)
    }
}

pub struct FieldExpr(SyntaxNode);

impl AstNode for FieldExpr {
    open spec fn accepts(kind: SyntaxKind) -> bool {
        kind == SyntaxKind::FieldExpr
    }

    closed spec fn node_of(&self) -> SyntaxNode {
        self.0
    }

    fn can_cast(kind: SyntaxKind) -> (r: bool) {
        kind == SyntaxKind::FieldExpr
    }

    fn cast(node: SyntaxNode) -> (r: Option<Self>) {
        if Self::can_cast(node.kind()) {
            Some(Self(node))
        } else {
            None
        }
    }

    fn syntax(&self) -> (r: &SyntaxNode) {
        &self.0
    }
}

impl FieldExpr {
    pub fn expr(&self) -> (r: Option<SyntaxNode>)
        ensures
            r == first_of(family_children(self.node_of(), Family::Expr)),
    {
        child_expr_node(&self.0)
    }

    pub fn field_name(&self) -> (r: Option<NameRef>)
        ensures
            view_opt(r) == first_of(accepted_children::<NameRef>(self.node_of())),
    {
        child_node(&self.0)
    }
}

pub struct IndexExpr(SyntaxNode);

impl AstNode for IndexExpr {
    open spec fn accepts(kind: SyntaxKind) -> bool {
        kind == SyntaxKind::IndexExpr
    }

    closed spec fn node_of(&self) -> SyntaxNode {
        self.0
    }

    fn can_cast(kind: SyntaxKind) -> (r: bool) {
        kind == SyntaxKind::IndexExpr
    }

    fn cast(node: SyntaxNode) -> (r: Option<Self>) {
        if Self::can_cast(node.kind()) {
            Some(Self(node))
        } else {
            None
        }
    }

    fn syntax(&self) -> (r: &SyntaxNode) {
        &self.0
    }
}

impl IndexExpr {
    pub fn base(&self) -> (r: Option<SyntaxNode>)
        ensures
            r == nth_of(family_children(self.node_of(), Family::Expr), 0),
    {
        nth_family_node(&self.0, Family::Expr, 0)
    }

    pub fn index(&self) -> (r: Option<SyntaxNode>)
        ensures
            r == nth_of(family_children(self.node_of(), Family::Expr), 1),
    {
        nth_family_node(&self.0, Family::Expr, 1)
    }
}

pub struct ParenExpr(SyntaxNode);

impl AstNode for ParenExpr {
    open spec fn accepts(kind: SyntaxKind) -> bool {
        kind == SyntaxKind::ParenExpr
    }

    closed spec fn node_of(&self) -> SyntaxNode {
        self.0
    }

    fn can_cast(kind: SyntaxKind) -> (r: bool) {
        kind == SyntaxKind::ParenExpr
    }

    fn cast(node: SyntaxNode) -> (r: Option<Self>) {
        if Self::can_cast(node.kind()) {
            Some(Self(node))
        } else {
            None
        }
    }

    fn syntax(&self) -> (r: &SyntaxNode) {
        &self.0
    }
}

impl ParenExpr {
    pub fn expr(&self) -> (r: Option<SyntaxNode>)
        ensures
            r == first_of(family_children(self.node_of(), Family::Expr)),
    {
        child_expr_node(&self.0)
    }
}

} // verus!
