//! Typed views for the parts of expressions: loop headers and labels, match arms and guards,
//! closure parameters, struct-literal fields.

use super::{
    accepted_children, child_expr_node, child_node, child_nodes_of, child_pat_node, child_token,
    child_type_node, class_tokens, family_children, first_of, view_opt, views_of, AstNode, Family,
    TokenClass,
};
use super::expr_flow::{LoopExpr};
use crate::syntax::{SyntaxNode, SyntaxToken};
use crate::syntax_kind::SyntaxKind;
use vstd::prelude::*;

verus! {

/// Reserved for a future grammar refactor that wraps the `loop if` condition.
/// The current grammar emits the condition directly into `LoopExpr`; this node
/// kind is never produced by the parser today. Use `LoopExpr::loop_condition()`.
pub struct LoopCondition(SyntaxNode);

impl AstNode for LoopCondition {
    open spec fn accepts(kind: SyntaxKind) -> bool {
        kind == SyntaxKind::LoopCondition
    }

    closed spec fn node_of(&self) -> SyntaxNode {
        self.0
    }

    fn can_cast(kind: SyntaxKind) -> (r: bool) {
        kind == SyntaxKind::LoopCondition
    }

    fn cast(node: SyntaxNode) -> (r: Option<Self>) {
        if Self::can_cast(node.kind()) {
            Some(Self(node))
        } else {
            None
        }
    }

    fn syntax(&self) -> (r: &SyntaxNode) {
        &self.0
    }
}

impl LoopCondition {
    pub fn expr(&self) -> (r: Option<SyntaxNode>)
        ensures
            r == first_of(family_children(self.node_of(), Family::Expr)),
    {
        child_expr_node(&self.0)
    }
}

/// Reserved for a future grammar refactor that wraps the `loop pat in` iterator
/// header. The current grammar emits the pattern and iterable directly into
/// `LoopExpr`; this node kind is never produced today. Use
/// `LoopExpr::iter_pattern()` / `LoopExpr::iter_iterable()`.
pub struct LoopIter(SyntaxNode);

impl AstNode for LoopIter {
    open spec fn accepts(kind: SyntaxKind) -> bool {
        kind == SyntaxKind::LoopIter
    }

    closed spec fn node_of(&self) -> SyntaxNode {
        self.0
    }

    fn can_cast(kind: SyntaxKind) -> (r: bool) {
        kind == SyntaxKind::LoopIter
    }

    fn cast(node: SyntaxNode) -> (r: Option<Self>) {
        if Self::can_cast(node.kind()) {
            Some(Self(node))
        } else {
            None
        }
    }

    fn syntax(&self) -> (r: &SyntaxNode) {
        &self.0
    }
}

impl LoopIter {
    pub fn pattern(&self) -> (r: Option<SyntaxNode>)
        ensures
            r == first_of(family_children(self.node_of(), Family::Pat)),
    {
        child_pat_node(&self.0)
    }

    pub fn iterable(&self) -> (r: Option<SyntaxNode>)
        ensures
            r == first_of(family_children(self.node_of(), Family::Expr)),
    {
        child_expr_node(&self.0)
    }
}

pub struct LoopLabel(SyntaxNode);

impl AstNode for LoopLabel {
    open spec fn accepts(kind: SyntaxKind) -> bool {
        kind == SyntaxKind::LoopLabel
    }

    closed spec fn node_of(&self) -> SyntaxNode {
        self.0
    }

    fn can_cast(kind: SyntaxKind) -> (r: bool) {
        kind == SyntaxKind::LoopLabel
    }

    fn cast(node: SyntaxNode) -> (r: Option<Self>) {
        if Self::can_cast(node.kind()) {
            Some(Self(node))
        } else {
            None
        }
    }

    fn syntax(&self) -> (r: &SyntaxNode) {
        &self.0
    }
}

impl LoopLabel {
    pub fn label_token(&self) -> (r: Option<SyntaxToken>)
        ensures
            r == first_of(class_tokens(self.node_of(), TokenClass::Is(SyntaxKind::Label))),
    {
        child_token(&self.0, SyntaxKind::Label)
    }
}

pub struct MatchArmList(SyntaxNode);

impl AstNode for MatchArmList {
    open spec fn accepts(kind: SyntaxKind) -> bool {
        kind == SyntaxKind::MatchArmList
    }

    closed spec fn node_of(&self) -> SyntaxNode {
        self.0
    }

    fn can_cast(kind: SyntaxKind) -> (r: bool) {
        kind == SyntaxKind::MatchArmList
    }

    fn cast(node: SyntaxNode) -> (r: Option<Self>) {
        if Self::can_cast(node.kind()) {
            Some(Self(node))
        } else {
            None
        }
    }

    fn syntax(&self) -> (r: &SyntaxNode) {
        &self.0
    }
}

impl MatchArmList {
    pub fn arms(&self) -> (r: Vec<MatchArm>)
        ensures
            views_of(r@) == accepted_children::<MatchArm>(self.node_of()),
    {
        child_nodes_of(&self.0)
    }
}

pub struct MatchArm(SyntaxNode);

impl AstNode for MatchArm {
    open spec fn accepts(kind: SyntaxKind) -> bool {
        kind == SyntaxKind::MatchArm
    }

    closed spec fn node_of(&self) -> SyntaxNode {
        self.0
    }

    fn can_cast(kind: SyntaxKind) -> (r: bool) {
        kind == SyntaxKind::MatchArm
    }

    fn cast(node: SyntaxNode) -> (r: Option<Self>) {
        if Self::can_cast(node.kind()) {
            Some(Self(node))
        } else {
            None
        }
    }

    fn syntax(&self) -> (r: &SyntaxNode) {
        &self.0
    }
}

impl MatchArm {
    pub fn pattern(&self) -> (r: Option<SyntaxNode>)
        ensures
            r == first_of(family_children(self.node_of(), Family::Pat)),
    {
        child_pat_node(&self.0)
    }

    pub fn guard(&self) -> (r: Option<MatchGuard>)
        ensures
            view_opt(r) == first_of(accepted_children::<MatchGuard>(self.node_of())),
    {
        child_node(&self.0)
    }

    pub fn body(&self) -> (r: Option<SyntaxNode>)
        ensures
            r == first_of(family_children(self.node_of(), Family::Expr)),
    {
        child_expr_node(&self.0)
    }
}

pub struct MatchGuard(SyntaxNode);

impl AstNode for MatchGuard {
    open spec fn accepts(kind: SyntaxKind) -> bool {
        kind == SyntaxKind::MatchGuard
    }

    closed spec fn node_of(&self) -> SyntaxNode {
        self.0
    }

    fn can_cast(kind: SyntaxKind) -> (r: bool) {
        kind == SyntaxKind::MatchGuard
    }

    fn cast(node: SyntaxNode) -> (r: Option<Self>) {
        if Self::can_cast(node.kind()) {
            Some(Self(node))
        } else {
            None
        }
    }

    fn syntax(&self) -> (r: &SyntaxNode) {
        &self.0
    }
}

impl MatchGuard {
    pub fn expr(&self) -> (r: Option<SyntaxNode>)
        ensures
            r == first_of(family_children(self.node_of(), Family::Expr)),
    {
        child_expr_node(&self.0)
    }
}

pub struct ClosureParamList(SyntaxNode);

impl AstNode for ClosureParamList {
    open spec fn accepts(kind: SyntaxKind) -> bool {
        kind == SyntaxKind::ClosureParamList
    }

    closed spec fn node_of(&self) -> SyntaxNode {
        self.0
    }

    fn can_cast(kind: SyntaxKind) -> (r: bool) {
        kind == SyntaxKind::ClosureParamList
    }

    fn cast(node: SyntaxNode) -> (r: Option<Self>) {
        if Self::can_cast(node.kind()) {
            Some(Self(node))
        } else {
            None
        }
    }

    fn syntax(&self) -> (r: &SyntaxNode) {
        &self.0
    }
}

impl ClosureParamList {
    pub fn params(&self) -> (r: Vec<ClosureParam>)
        ensures
            views_of(r@) == accepted_children::<ClosureParam>(self.node_of()),
    {
        child_nodes_of(&self.0)
    }
}

pub struct ClosureParam(SyntaxNode);

impl AstNode for ClosureParam {
    open spec fn accepts(kind: SyntaxKind) -> bool {
        kind == SyntaxKind::ClosureParam
    }

    closed spec fn node_of(&self) -> SyntaxNode {
        self.0
    }

    fn can_cast(kind: SyntaxKind) -> (r: bool) {
        kind == SyntaxKind::ClosureParam
    }

    fn cast(node: SyntaxNode) -> (r: Option<Self>) {
        if Self::can_cast(node.kind()) {
            Some(Self(node))
        } else {
            None
        }
    }

    fn syntax(&self) -> (r: &SyntaxNode) {
        &self.0
    }
}

impl ClosureParam {
    pub fn name_token(&self) -> (r: Option<SyntaxToken>)
        ensures
            r == first_of(class_tokens(self.node_of(), TokenClass::Is(SyntaxKind::Ident))),
    {
        child_token(&self.0, SyntaxKind::Ident)
    }

    pub fn ty(&self) -> (r: Option<SyntaxNode>)
        ensures
            r == first_of(family_children(self.node_of(), Family::Type)),
    {
        child_type_node(&self.0)
    }
}

pub struct StructLitFieldList(SyntaxNode);

impl AstNode for StructLitFieldList {
    open spec fn accepts(kind: SyntaxKind) -> bool {
        kind == SyntaxKind::StructLitFieldList
    }

    closed spec fn node_of(&self) -> SyntaxNode {
        self.0
    }

    fn can_cast(kind: SyntaxKind) -> (r: bool) {
        kind == SyntaxKind::StructLitFieldList
    }

    fn cast(node: SyntaxNode) -> (r: Option<Self>) {
        if Self::can_cast(node.kind()) {
            Some(Self(node))
        } else {
            None
        }
    }

    fn syntax(&self) -> (r: &SyntaxNode) {
        &self.0
    }
}

impl StructLitFieldList {
    pub fn fields(&self) -> (r: Vec<StructLitField>)
        ensures
            views_of(r@) == accepted_children::<StructLitField>(self.node_of()),
    {
        child_nodes_of(&self.0)
    }

    /// The `..base` spread expression, if present. The grammar emits the spread
    /// directly into this node (no wrapping child node), so `fields()` does not
    /// include it.
    pub fn spread_base(&self) -> (r: Option<SyntaxNode>)
        ensures
            r == (if class_tokens(self.node_of(), TokenClass::Is(SyntaxKind::DotDot)).len() > 0 {
            first_of(family_children(self.node_of(), Family::Expr))
        } else {
            None
        }),
    {
        if child_token(&self.0, SyntaxKind::DotDot).is_some() {
                child_expr_node(&self.0)
            } else {
                None
            }
    }
}

pub struct StructLitField(SyntaxNode);

impl AstNode for StructLitField {
    open spec fn accepts(kind: SyntaxKind) -> bool {
        kind == SyntaxKind::StructLitField
    }

    closed spec fn node_of(&self) -> SyntaxNode {
        self.0
    }

    fn can_cast(kind: SyntaxKind) -> (r: bool) {
        kind == SyntaxKind::StructLitField
    }

    fn cast(node: SyntaxNode) -> (r: Option<Self>) {
        if Self::can_cast(node.kind()) {
            Some(Self(node))
        } else {
            None
        }
    }

    fn syntax(&self) -> (r: &SyntaxNode) {
        &self.0
    }
}

impl StructLitField {
    pub fn name_token(&self) -> (r: Option<SyntaxToken>)
        ensures
            r == first_of(class_tokens(self.node_of(), TokenClass::Is(SyntaxKind::Ident))),
    {
        child_token(&self.0, SyntaxKind::Ident)
    }

    pub fn value(&self) -> (r: Option<SyntaxNode>)
        ensures
            r == first_of(family_children(self.node_of(), Family::Expr)),
    {
        child_expr_node(&self.0)
    }
}

} // verus!
