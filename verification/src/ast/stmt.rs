//! Typed views for statements.

use super::{
    child_expr_node, child_pat_node, child_token, child_type_node, class_tokens, family_children,
    first_of, AstNode, Family, TokenClass,
};
use crate::syntax::{SyntaxNode, SyntaxToken};
use crate::syntax_kind::SyntaxKind;
use vstd::prelude::*;

verus! {

pub struct LetStmt(SyntaxNode);

impl AstNode for LetStmt {
    open spec fn accepts(kind: SyntaxKind) -> bool {
        kind == SyntaxKind::LetStmt
    }

    closed spec fn node_of(&self) -> SyntaxNode {
        self.0
    }

    fn can_cast(kind: SyntaxKind) -> (r: bool) {
        kind == SyntaxKind::LetStmt
    }

    fn cast(node: SyntaxNode) -> (r: Option<Self>) {
        if Self::can_cast(node.kind()) {
            Some(Self(node))
        } else {
            None
        }
    }

    fn syntax(&self) -> (r: &SyntaxNode) {
        &self.0
    }
}

impl LetStmt {
    pub fn binding_kw(&self) -> (r: Option<SyntaxToken>)
        ensures
            r == (if class_tokens(self.node_of(), TokenClass::Is(SyntaxKind::KwVal)).len() > 0 {
            first_of(class_tokens(self.node_of(), TokenClass::Is(SyntaxKind::KwVal)))
        } else {
            first_of(class_tokens(self.node_of(), TokenClass::Is(SyntaxKind::KwVar)))
        }),
    {
        match child_token(&self.0, SyntaxKind::KwVal) {
                Some(t) => Some(t),
                None => child_token(&self.0, SyntaxKind::KwVar),
            }
    }

    pub fn pattern(&self) -> (r: Option<SyntaxNode>)
        ensures
            r == first_of(family_children(self.node_of(), Family::Pat)),
    {
        child_pat_node(&self.0)
    }

    pub fn ty(&self) -> (r: Option<SyntaxNode>)
        ensures
            r == first_of(family_children(self.node_of(), Family::Type)),
    {
        child_type_node(&self.0)
    }

    pub fn value(&self) -> (r: Option<SyntaxNode>)
        ensures
            r == first_of(family_children(self.node_of(), Family::Expr)),
    {
        child_expr_node(&self.0)
    }
}

pub struct ExprStmt(SyntaxNode);

impl AstNode for ExprStmt {
    open spec fn accepts(kind: SyntaxKind) -> bool {
        kind == SyntaxKind::ExprStmt
    }

    closed spec fn node_of(&self) -> SyntaxNode {
        self.0
    }

    fn can_cast(kind: SyntaxKind) -> (r: bool) {
        kind == SyntaxKind::ExprStmt
    }

    fn cast(node: SyntaxNode) -> (r: Option<Self>) {
        if Self::can_cast(node.kind()) {
            Some(Self(node))
        } else {
            None
        }
    }

    fn syntax(&self) -> (r: &SyntaxNode) {
        &self.0
    }
}

impl ExprStmt {
    pub fn expr(&self) -> (r: Option<SyntaxNode>)
        ensures
            r == first_of(family_children(self.node_of(), Family::Expr)),
    {
        child_expr_node(&self.0)
    }

    /// Whether this statement is terminated by a `;`. A block's final expression
    /// is its value only when there is *no* trailing semicolon (DESIGN_SPEC §16);
    /// a trailing `;` discards the value, making the block evaluate to `()`.
    pub fn has_semicolon(&self) -> (r: bool)
        ensures
            r == (class_tokens(self.node_of(), TokenClass::Is(SyntaxKind::Semicolon)).len() > 0),
    {
        child_token(&self.0, SyntaxKind::Semicolon).is_some()
    }
}

pub struct ReturnStmt(SyntaxNode);

impl AstNode for ReturnStmt {
    open spec fn accepts(kind: SyntaxKind) -> bool {
        kind == SyntaxKind::ReturnStmt
    }

    closed spec fn node_of(&self) -> SyntaxNode {
        self.0
    }

    fn can_cast(kind: SyntaxKind) -> (r: bool) {
        kind == SyntaxKind::ReturnStmt
    }

    fn cast(node: SyntaxNode) -> (r: Option<Self>) {
        if Self::can_cast(node.kind()) {
            Some(Self(node))
        } else {
            None
        }
    }

    fn syntax(&self) -> (r: &SyntaxNode) {
        &self.0
    }
}

impl ReturnStmt {
    pub fn value(&self) -> (r: Option<SyntaxNode>)
        ensures
            r == first_of(family_children(self.node_of(), Family::Expr)),
    {
        child_expr_node(&self.0)
    }
}

pub struct BreakStmt(SyntaxNode);

impl AstNode for BreakStmt {
    open spec fn accepts(kind: SyntaxKind) -> bool {
        kind == SyntaxKind::BreakStmt
    }

    closed spec fn node_of(&self) -> SyntaxNode {
        self.0
    }

    fn can_cast(kind: SyntaxKind) -> (r: bool) {
        kind == SyntaxKind::BreakStmt
    }

    fn cast(node: SyntaxNode) -> (r: Option<Self>) {
        if Self::can_cast(node.kind()) {
            Some(Self(node))
        } else {
            None
        }
    }

    fn syntax(&self) -> (r: &SyntaxNode) {
        &self.0
    }
}

impl BreakStmt {
    pub fn label_token(&self) -> (r: Option<SyntaxToken>)
        ensures
            r == first_of(class_tokens(self.node_of(), TokenClass::Is(SyntaxKind::Label))),
    {
        child_token(&self.0, SyntaxKind::Label)
    }

    pub fn value(&self) -> (r: Option<SyntaxNode>)
        ensures
            r == first_of(family_children(self.node_of(), Family::Expr)),
    {
        child_expr_node(&self.0)
    }
}

pub struct ContinueStmt(SyntaxNode);

impl AstNode for ContinueStmt {
    open spec fn accepts(kind: SyntaxKind) -> bool {
        kind == SyntaxKind::ContinueStmt
    }

    closed spec fn node_of(&self) -> SyntaxNode {
        self.0
    }

    fn can_cast(kind: SyntaxKind) -> (r: bool) {
        kind == SyntaxKind::ContinueStmt
    }

    fn cast(node: SyntaxNode) -> (r: Option<Self>) {
        if Self::can_cast(node.kind()) {
            Some(Self(node))
        } else {
            None
        }
    }

    fn syntax(&self) -> (r: &SyntaxNode) {
        &self.0
    }
}

impl ContinueStmt {
    pub fn label_token(&self) -> (r: Option<SyntaxToken>)
        ensures
            r == first_of(class_tokens(self.node_of(), TokenClass::Is(SyntaxKind::Label))),
    {
        child_token(&self.0, SyntaxKind::Label)
    }
}

pub struct ErrdeferStmt(SyntaxNode);

impl AstNode for ErrdeferStmt {
    open spec fn accepts(kind: SyntaxKind) -> bool {
        kind == SyntaxKind::ErrdeferStmt
    }

    closed spec fn node_of(&self) -> SyntaxNode {
        self.0
    }

    fn can_cast(kind: SyntaxKind) -> (r: bool) {
        kind == SyntaxKind::ErrdeferStmt
    }

    fn cast(node: SyntaxNode) -> (r: Option<Self>) {
        if Self::can_cast(node.kind()) {
            Some(Self(node))
        } else {
            None
        }
    }

    fn syntax(&self) -> (r: &SyntaxNode) {
        &self.0
    }
}

impl ErrdeferStmt {
    pub fn expr(&self) -> (r: Option<SyntaxNode>)
        ensures
            r == first_of(family_children(self.node_of(), Family::Expr)),
    {
        child_expr_node(&self.0)
    }
}

pub struct YieldStmt(SyntaxNode);

impl AstNode for YieldStmt {
    open spec fn accepts(kind: SyntaxKind) -> bool {
        kind == SyntaxKind::YieldStmt
    }

    closed spec fn node_of(&self) -> SyntaxNode {
        self.0
    }

    fn can_cast(kind: SyntaxKind) -> (r: bool) {
        kind == SyntaxKind::YieldStmt
    }

    fn cast(node: SyntaxNode) -> (r: Option<Self>) {
        if Self::can_cast(node.kind()) {
            Some(Self(node))
        } else {
            None
        }
    }

    fn syntax(&self) -> (r: &SyntaxNode) {
        &self.0
    }
}

impl YieldStmt {
    pub fn value(&self) -> (r: Option<SyntaxNode>)
        ensures
            r == first_of(family_children(self.node_of(), Family::Expr)),
    {
        child_expr_node(&self.0)
    }
}

} // verus!
