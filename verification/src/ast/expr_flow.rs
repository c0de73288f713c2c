//! Typed views for control-flow and compound expressions: `if`, `match`, `loop`, closures, struct
//! literals, casts, ranges, `try`, assignment, `catch`, `scope`, `spawn`, list literals, and
//! argument lists.

use super::{
    accepted_children, child_expr_node, child_expr_nodes, child_node, child_type_node, class_tokens,
    family_children, first_of, nth_class_token, nth_family_node, nth_of, view_opt, AstNode, Family,
    TokenClass,
};
use super::expr::{BlockExpr};
use super::expr_part::{ClosureParamList, LoopLabel, MatchArmList, StructLitFieldList};
use super::item_part::{RetType};
use super::name::{Path};
use crate::syntax::{SyntaxNode, SyntaxToken};
use crate::syntax_kind::SyntaxKind;
use vstd::prelude::*;

verus! {

pub struct IfExpr(SyntaxNode);

impl AstNode for IfExpr {
    open spec fn accepts(kind: SyntaxKind) -> bool {
        kind == SyntaxKind::IfExpr
    }

    closed spec fn node_of(&self) -> SyntaxNode {
        self.0
    }

    fn can_cast(kind: SyntaxKind) -> (r: bool) {
        kind == SyntaxKind::IfExpr
    }

    fn cast(node: SyntaxNode) -> (r: Option<Self>) {
        if Self::can_cast(node.kind()) {
            Some(Self(node))
        } else {
            None
        }
    }

    fn syntax(&self) -> (r: &SyntaxNode) {
        &self.0
    }
}

impl IfExpr {
    pub fn condition(&self) -> (r: Option<SyntaxNode>)
        ensures
            r == nth_of(family_children(self.node_of(), Family::Expr), 0),
    {
        nth_family_node(&self.0, Family::Expr, 0)
    }

    pub fn then_branch(&self) -> (r: Option<BlockExpr>)
        ensures
            view_opt(r) == first_of(accepted_children::<BlockExpr>(self.node_of())),
    {
        child_node(&self.0)
    }

    pub fn else_branch(&self) -> (r: Option<SyntaxNode>)
        ensures
            r == nth_of(family_children(self.node_of(), Family::Expr), 1),
    {
        nth_family_node(&self.0, Family::Expr, 1)
    }
}

pub struct MatchExpr(SyntaxNode);

impl AstNode for MatchExpr {
    open spec fn accepts(kind: SyntaxKind) -> bool {
        kind == SyntaxKind::MatchExpr
    }

    closed spec fn node_of(&self) -> SyntaxNode {
        self.0
    }

    fn can_cast(kind: SyntaxKind) -> (r: bool) {
        kind == SyntaxKind::MatchExpr
    }

    fn cast(node: SyntaxNode) -> (r: Option<Self>) {
        if Self::can_cast(node.kind()) {
            Some(Self(node))
        } else {
            None
        }
    }

    fn syntax(&self) -> (r: &SyntaxNode) {
        &self.0
    }
}

impl MatchExpr {
    pub fn scrutinee(&self) -> (r: Option<SyntaxNode>)
        ensures
            r == first_of(family_children(self.node_of(), Family::Expr)),
    {
        child_expr_node(&self.0)
    }

    pub fn arm_list(&self) -> (r: Option<MatchArmList>)
        ensures
            view_opt(r) == first_of(accepted_children::<MatchArmList>(self.node_of())),
    {
        child_node(&self.0)
    }
}

pub struct LoopExpr(SyntaxNode);

impl AstNode for LoopExpr {
    open spec fn accepts(kind: SyntaxKind) -> bool {
        kind == SyntaxKind::LoopExpr
    }

    closed spec fn node_of(&self) -> SyntaxNode {
        self.0
    }

    fn can_cast(kind: SyntaxKind) -> (r: bool) {
        kind == SyntaxKind::LoopExpr
    }

    fn cast(node: SyntaxNode) -> (r: Option<Self>) {
        if Self::can_cast(node.kind()) {
            Some(Self(node))
        } else {
            None
        }
    }

    fn syntax(&self) -> (r: &SyntaxNode) {
        &self.0
    }
}

impl LoopExpr {
    pub fn label(&self) -> (r: Option<LoopLabel>)
        ensures
            view_opt(r) == first_of(accepted_children::<LoopLabel>(self.node_of())),
    {
        child_node(&self.0)
    }

    pub fn body(&self) -> (r: Option<BlockExpr>)
        ensures
            view_opt(r) == first_of(accepted_children::<BlockExpr>(self.node_of())),
    {
        child_node(&self.0)
    }
}

pub struct ClosureExpr(SyntaxNode);

impl AstNode for ClosureExpr {
    open spec fn accepts(kind: SyntaxKind) -> bool {
        kind == SyntaxKind::ClosureExpr
    }

    closed spec fn node_of(&self) -> SyntaxNode {
        self.0
    }

    fn can_cast(kind: SyntaxKind) -> (r: bool) {
        kind == SyntaxKind::ClosureExpr
    }

    fn cast(node: SyntaxNode) -> (r: Option<Self>) {
        if Self::can_cast(node.kind()) {
            Some(Self(node))
        } else {
            None
        }
    }

    fn syntax(&self) -> (r: &SyntaxNode) {
        &self.0
    }
}

impl ClosureExpr {
    pub fn param_list(&self) -> (r: Option<ClosureParamList>)
        ensures
            view_opt(r) == first_of(accepted_children::<ClosureParamList>(self.node_of())),
    {
        child_node(&self.0)
    }

    pub fn ret_type(&self) -> (r: Option<RetType>)
        ensures
            view_opt(r) == first_of(accepted_children::<RetType>(self.node_of())),
    {
        child_node(&self.0)
    }

    pub fn body(&self) -> (r: Option<SyntaxNode>)
        ensures
            r == first_of(family_children(self.node_of(), Family::Expr)),
    {
        child_expr_node(&self.0)
    }
}

pub struct StructLitExpr(SyntaxNode);

impl AstNode for StructLitExpr {
    open spec fn accepts(kind: SyntaxKind) -> bool {
        kind == SyntaxKind::StructLitExpr
    }

    closed spec fn node_of(&self) -> SyntaxNode {
        self.0
    }

    fn can_cast(kind: SyntaxKind) -> (r: bool) {
        kind == SyntaxKind::StructLitExpr
    }

    fn cast(node: SyntaxNode) -> (r: Option<Self>) {
        if Self::can_cast(node.kind()) {
            Some(Self(node))
        } else {
            None
        }
    }

    fn syntax(&self) -> (r: &SyntaxNode) {
        &self.0
    }
}

impl StructLitExpr {
    pub fn path(&self) -> (r: Option<Path>)
        ensures
            view_opt(r) == first_of(accepted_children::<Path>(self.node_of())),
    {
        child_node(&self.0)
    }

    pub fn field_list(&self) -> (r: Option<StructLitFieldList>)
        ensures
            view_opt(r) == first_of(accepted_children::<StructLitFieldList>(self.node_of())),
    {
        child_node(&self.0)
    }
}

pub struct CastExpr(SyntaxNode);

impl AstNode for CastExpr {
    open spec fn accepts(kind: SyntaxKind) -> bool {
        kind == SyntaxKind::CastExpr
    }

    closed spec fn node_of(&self) -> SyntaxNode {
        self.0
    }

    fn can_cast(kind: SyntaxKind) -> (r: bool) {
        kind == SyntaxKind::CastExpr
    }

    fn cast(node: SyntaxNode) -> (r: Option<Self>) {
        if Self::can_cast(node.kind()) {
            Some(Self(node))
        } else {
            None
        }
    }

    fn syntax(&self) -> (r: &SyntaxNode) {
        &self.0
    }
}

impl CastExpr {
    pub fn expr(&self) -> (r: Option<SyntaxNode>)
        ensures
            r == first_of(family_children(self.node_of(), Family::Expr)),
    {
        child_expr_node(&self.0)
    }

    pub fn ty(&self) -> (r: Option<SyntaxNode>)
        ensures
            r == first_of(family_children(self.node_of(), Family::Type)),
    {
        child_type_node(&self.0)
    }
}

pub struct RangeExpr(SyntaxNode);

impl AstNode for RangeExpr {
    open spec fn accepts(kind: SyntaxKind) -> bool {
        kind == SyntaxKind::RangeExpr
    }

    closed spec fn node_of(&self) -> SyntaxNode {
        self.0
    }

    fn can_cast(kind: SyntaxKind) -> (r: bool) {
        kind == SyntaxKind::RangeExpr
    }

    fn cast(node: SyntaxNode) -> (r: Option<Self>) {
        if Self::can_cast(node.kind()) {
            Some(Self(node))
        } else {
            None
        }
    }

    fn syntax(&self) -> (r: &SyntaxNode) {
        &self.0
    }
}

impl RangeExpr {
    pub fn start(&self) -> (r: Option<SyntaxNode>)
        ensures
            r == nth_of(family_children(self.node_of(), Family::Expr), 0),
    {
        nth_family_node(&self.0, Family::Expr, 0)
    }

    pub fn end(&self) -> (r: Option<SyntaxNode>)
        ensures
            r == nth_of(family_children(self.node_of(), Family::Expr), 1),
    {
        nth_family_node(&self.0, Family::Expr, 1)
    }
}

pub struct TryExpr(SyntaxNode);

impl AstNode for TryExpr {
    open spec fn accepts(kind: SyntaxKind) -> bool {
        kind == SyntaxKind::TryExpr
    }

    closed spec fn node_of(&self) -> SyntaxNode {
        self.0
    }

    fn can_cast(kind: SyntaxKind) -> (r: bool) {
        kind == SyntaxKind::TryExpr
    }

    fn cast(node: SyntaxNode) -> (r: Option<Self>) {
        if Self::can_cast(node.kind()) {
            Some(Self(node))
        } else {
            None
        }
    }

    fn syntax(&self) -> (r: &SyntaxNode) {
        &self.0
    }
}

impl TryExpr {
    pub fn expr(&self) -> (r: Option<SyntaxNode>)
        ensures
            r == first_of(family_children(self.node_of(), Family::Expr)),
    {
        child_expr_node(&self.0)
    }
}

pub struct AssignExpr(SyntaxNode);

impl AstNode for AssignExpr {
    open spec fn accepts(kind: SyntaxKind) -> bool {
        kind == SyntaxKind::AssignExpr
    }

    closed spec fn node_of(&self) -> SyntaxNode {
        self.0
    }

    fn can_cast(kind: SyntaxKind) -> (r: bool) {
        kind == SyntaxKind::AssignExpr
    }

    fn cast(node: SyntaxNode) -> (r: Option<Self>) {
        if Self::can_cast(node.kind()) {
            Some(Self(node))
        } else {
            None
        }
    }

    fn syntax(&self) -> (r: &SyntaxNode) {
        &self.0
    }
}

impl AssignExpr {
    pub fn lhs(&self) -> (r: Option<SyntaxNode>)
        ensures
            r == nth_of(family_children(self.node_of(), Family::Expr), 0),
    {
        nth_family_node(&self.0, Family::Expr, 0)
    }

    pub fn rhs(&self) -> (r: Option<SyntaxNode>)
        ensures
            r == nth_of(family_children(self.node_of(), Family::Expr), 1),
    {
        nth_family_node(&self.0, Family::Expr, 1)
    }

    pub fn op_token(&self) -> (r: Option<SyntaxToken>)
        ensures
            r == first_of(class_tokens(self.node_of(), TokenClass::AssignOp)),
    {
        nth_class_token(&self.0, TokenClass::AssignOp, 0)
    }
}

pub struct CatchExpr(SyntaxNode);

impl AstNode for CatchExpr {
    open spec fn accepts(kind: SyntaxKind) -> bool {
        kind == SyntaxKind::CatchExpr
    }

    closed spec fn node_of(&self) -> SyntaxNode {
        self.0
    }

    fn can_cast(kind: SyntaxKind) -> (r: bool) {
        kind == SyntaxKind::CatchExpr
    }

    fn cast(node: SyntaxNode) -> (r: Option<Self>) {
        if Self::can_cast(node.kind()) {
            Some(Self(node))
        } else {
            None
        }
    }

    fn syntax(&self) -> (r: &SyntaxNode) {
        &self.0
    }
}

impl CatchExpr {
    pub fn expr(&self) -> (r: Option<SyntaxNode>)
        ensures
            r == nth_of(family_children(self.node_of(), Family::Expr), 0),
    {
        nth_family_node(&self.0, Family::Expr, 0)
    }

    pub fn handler(&self) -> (r: Option<SyntaxNode>)
        ensures
            r == nth_of(family_children(self.node_of(), Family::Expr), 1),
    {
        nth_family_node(&self.0, Family::Expr, 1)
    }
}

pub struct ScopeExpr(SyntaxNode);

impl AstNode for ScopeExpr {
    open spec fn accepts(kind: SyntaxKind) -> bool {
        kind == SyntaxKind::ScopeExpr
    }

    closed spec fn node_of(&self) -> SyntaxNode {
        self.0
    }

    fn can_cast(kind: SyntaxKind) -> (r: bool) {
        kind == SyntaxKind::ScopeExpr
    }

    fn cast(node: SyntaxNode) -> (r: Option<Self>) {
        if Self::can_cast(node.kind()) {
            Some(Self(node))
        } else {
            None
        }
    }

    fn syntax(&self) -> (r: &SyntaxNode) {
        &self.0
    }
}

impl ScopeExpr {
    pub fn param_list(&self) -> (r: Option<ClosureParamList>)
        ensures
            view_opt(r) == first_of(accepted_children::<ClosureParamList>(self.node_of())),
    {
        child_node(&self.0)
    }

    pub fn body(&self) -> (r: Option<BlockExpr>)
        ensures
            view_opt(r) == first_of(accepted_children::<BlockExpr>(self.node_of())),
    {
        child_node(&self.0)
    }
}

pub struct SpawnExpr(SyntaxNode);

impl AstNode for SpawnExpr {
    open spec fn accepts(kind: SyntaxKind) -> bool {
        kind == SyntaxKind::SpawnExpr
    }

    closed spec fn node_of(&self) -> SyntaxNode {
        self.0
    }

    fn can_cast(kind: SyntaxKind) -> (r: bool) {
        kind == SyntaxKind::SpawnExpr
    }

    fn cast(node: SyntaxNode) -> (r: Option<Self>) {
        if Self::can_cast(node.kind()) {
            Some(Self(node))
        } else {
            None
        }
    }

    fn syntax(&self) -> (r: &SyntaxNode) {
        &self.0
    }
}

impl SpawnExpr {
    pub fn param_list(&self) -> (r: Option<ClosureParamList>)
        ensures
            view_opt(r) == first_of(accepted_children::<ClosureParamList>(self.node_of())),
    {
        child_node(&self.0)
    }

    pub fn body(&self) -> (r: Option<BlockExpr>)
        ensures
            view_opt(r) == first_of(accepted_children::<BlockExpr>(self.node_of())),
    {
        child_node(&self.0)
    }
}

pub struct ListLitExpr(SyntaxNode);

impl AstNode for ListLitExpr {
    open spec fn accepts(kind: SyntaxKind) -> bool {
        kind == SyntaxKind::ListLitExpr
    }

    closed spec fn node_of(&self) -> SyntaxNode {
        self.0
    }

    fn can_cast(kind: SyntaxKind) -> (r: bool) {
        kind == SyntaxKind::ListLitExpr
    }

    fn cast(node: SyntaxNode) -> (r: Option<Self>) {
        if Self::can_cast(node.kind()) {
            Some(Self(node))
        } else {
            None
        }
    }

    fn syntax(&self) -> (r: &SyntaxNode) {
        &self.0
    }
}

impl ListLitExpr {
    pub fn elements(&self) -> (r: Vec<SyntaxNode>)
        ensures
            r@ == family_children(self.node_of(), Family::Expr),
    {
        child_expr_nodes(&self.0)
    }
}

pub struct ArgList(SyntaxNode);

impl AstNode for ArgList {
    open spec fn accepts(kind: SyntaxKind) -> bool {
        kind == SyntaxKind::ArgList
    }

    closed spec fn node_of(&self) -> SyntaxNode {
        self.0
    }

    fn can_cast(kind: SyntaxKind) -> (r: bool) {
        kind == SyntaxKind::ArgList
    }

    fn cast(node: SyntaxNode) -> (r: Option<Self>) {
        if Self::can_cast(node.kind()) {
            Some(Self(node))
        } else {
            None
        }
    }

    fn syntax(&self) -> (r: &SyntaxNode) {
        &self.0
    }
}

impl ArgList {
    pub fn args(&self) -> (r: Vec<SyntaxNode>)
        ensures
            r@ == family_children(self.node_of(), Family::Expr),
    {
        child_expr_nodes(&self.0)
    }
}

} // verus!
