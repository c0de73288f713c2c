//! Typed views for patterns.

use super::{
    accepted_children, child_node, child_nodes_of, child_pat_node, child_token, class_tokens,
    family_children, family_nodes, first_of, first_token, nth_class_token, nth_of, view_opt,
    views_of, AstNode, Family, TokenClass,
};
use super::name::{Path};
use crate::syntax::{SyntaxNode, SyntaxToken};
use crate::syntax_kind::SyntaxKind;
use vstd::prelude::*;

verus! {

pub struct WildcardPat(SyntaxNode);

impl AstNode for WildcardPat {
    open spec fn accepts(kind: SyntaxKind) -> bool {
        kind == SyntaxKind::WildcardPat
    }

    closed spec fn node_of(&self) -> SyntaxNode {
        self.0
    }

    fn can_cast(kind: SyntaxKind) -> (r: bool) {
        kind == SyntaxKind::WildcardPat
    }

    fn cast(node: SyntaxNode) -> (r: Option<Self>) {
        if Self::can_cast(node.kind()) {
            Some(Self(node))
        } else {
            None
        }
    }

    fn syntax(&self) -> (r: &SyntaxNode) {
        &self.0
    }
}

pub struct LiteralPat(SyntaxNode);

impl AstNode for LiteralPat {
    open spec fn accepts(kind: SyntaxKind) -> bool {
        kind == SyntaxKind::LiteralPat
    }

    closed spec fn node_of(&self) -> SyntaxNode {
        self.0
    }

    fn can_cast(kind: SyntaxKind) -> (r: bool) {
        kind == SyntaxKind::LiteralPat
    }

    fn cast(node: SyntaxNode) -> (r: Option<Self>) {
        if Self::can_cast(node.kind()) {
            Some(Self(node))
        } else {
            None
        }
    }

    fn syntax(&self) -> (r: &SyntaxNode) {
        &self.0
    }
}

impl LiteralPat {
    pub fn token(&self) -> (r: Option<SyntaxToken>)
        ensures
            r == first_of(class_tokens(self.node_of(), TokenClass::NonTrivia)),
    {
        first_token(&self.0)
    }
}

pub struct IdentPat(SyntaxNode);

impl AstNode for IdentPat {
    open spec fn accepts(kind: SyntaxKind) -> bool {
        kind == SyntaxKind::IdentPat
    }

    closed spec fn node_of(&self) -> SyntaxNode {
        self.0
    }

    fn can_cast(kind: SyntaxKind) -> (r: bool) {
        kind == SyntaxKind::IdentPat
    }

    fn cast(node: SyntaxNode) -> (r: Option<Self>) {
        if Self::can_cast(node.kind()) {
            Some(Self(node))
        } else {
            None
        }
    }

    fn syntax(&self) -> (r: &SyntaxNode) {
        &self.0
    }
}

impl IdentPat {
    pub fn name_token(&self) -> (r: Option<SyntaxToken>)
        ensures
            r == first_of(class_tokens(self.node_of(), TokenClass::NonTrivia)),
    {
        first_token(&self.0)
    }
}

pub struct TupleStructPat(SyntaxNode);

impl AstNode for TupleStructPat {
    open spec fn accepts(kind: SyntaxKind) -> bool {
        kind == SyntaxKind::TupleStructPat
    }

    closed spec fn node_of(&self) -> SyntaxNode {
        self.0
    }

    fn can_cast(kind: SyntaxKind) -> (r: bool) {
        kind == SyntaxKind::TupleStructPat
    }

    fn cast(node: SyntaxNode) -> (r: Option<Self>) {
        if Self::can_cast(node.kind()) {
            Some(Self(node))
        } else {
            None
        }
    }

    fn syntax(&self) -> (r: &SyntaxNode) {
        &self.0
    }
}

impl TupleStructPat {
    pub fn path(&self) -> (r: Option<Path>)
        ensures
            view_opt(r) == first_of(accepted_children::<Path>(self.node_of())),
    {
        child_node(&self.0)
    }

    pub fn fields(&self) -> (r: Option<TuplePatFieldList>)
        ensures
            view_opt(r) == first_of(accepted_children::<TuplePatFieldList>(self.node_of())),
    {
        child_node(&self.0)
    }
}

pub struct StructPat(SyntaxNode);

impl AstNode for StructPat {
    open spec fn accepts(kind: SyntaxKind) -> bool {
        kind == SyntaxKind::StructPat
    }

    closed spec fn node_of(&self) -> SyntaxNode {
        self.0
    }

    fn can_cast(kind: SyntaxKind) -> (r: bool) {
        kind == SyntaxKind::StructPat
    }

    fn cast(node: SyntaxNode) -> (r: Option<Self>) {
        if Self::can_cast(node.kind()) {
            Some(Self(node))
        } else {
            None
        }
    }

    fn syntax(&self) -> (r: &SyntaxNode) {
        &self.0
    }
}

impl StructPat {
    pub fn path(&self) -> (r: Option<Path>)
        ensures
            view_opt(r) == first_of(accepted_children::<Path>(self.node_of())),
    {
        child_node(&self.0)
    }

    pub fn field_list(&self) -> (r: Option<StructPatFieldList>)
        ensures
            view_opt(r) == first_of(accepted_children::<StructPatFieldList>(self.node_of())),
    {
        child_node(&self.0)
    }
}

pub struct PathPat(SyntaxNode);

impl AstNode for PathPat {
    open spec fn accepts(kind: SyntaxKind) -> bool {
        kind == SyntaxKind::PathPat
    }

    closed spec fn node_of(&self) -> SyntaxNode {
        self.0
    }

    fn can_cast(kind: SyntaxKind) -> (r: bool) {
        kind == SyntaxKind::PathPat
    }

    fn cast(node: SyntaxNode) -> (r: Option<Self>) {
        if Self::can_cast(node.kind()) {
            Some(Self(node))
        } else {
            None
        }
    }

    fn syntax(&self) -> (r: &SyntaxNode) {
        &self.0
    }
}

impl PathPat {
    pub fn path(&self) -> (r: Option<Path>)
        ensures
            view_opt(r) == first_of(accepted_children::<Path>(self.node_of())),
    {
        child_node(&self.0)
    }
}

pub struct OrPat(SyntaxNode);

impl AstNode for OrPat {
    open spec fn accepts(kind: SyntaxKind) -> bool {
        kind == SyntaxKind::OrPat
    }

    closed spec fn node_of(&self) -> SyntaxNode {
        self.0
    }

    fn can_cast(kind: SyntaxKind) -> (r: bool) {
        kind == SyntaxKind::OrPat
    }

    fn cast(node: SyntaxNode) -> (r: Option<Self>) {
        if Self::can_cast(node.kind()) {
            Some(Self(node))
        } else {
            None
        }
    }

    fn syntax(&self) -> (r: &SyntaxNode) {
        &self.0
    }
}

impl OrPat {
    pub fn alternatives(&self) -> (r: Vec<SyntaxNode>)
        ensures
            r@ == family_children(self.node_of(), Family::Pat),
    {
        family_nodes(&self.0, Family::Pat)
    }
}

pub struct RestPat(SyntaxNode);

impl AstNode for RestPat {
    open spec fn accepts(kind: SyntaxKind) -> bool {
        kind == SyntaxKind::RestPat
    }

    closed spec fn node_of(&self) -> SyntaxNode {
        self.0
    }

    fn can_cast(kind: SyntaxKind) -> (r: bool) {
        kind == SyntaxKind::RestPat
    }

    fn cast(node: SyntaxNode) -> (r: Option<Self>) {
        if Self::can_cast(node.kind()) {
            Some(Self(node))
        } else {
            None
        }
    }

    fn syntax(&self) -> (r: &SyntaxNode) {
        &self.0
    }
}

pub struct RangePat(SyntaxNode);

impl AstNode for RangePat {
    open spec fn accepts(kind: SyntaxKind) -> bool {
        kind == SyntaxKind::RangePat
    }

    closed spec fn node_of(&self) -> SyntaxNode {
        self.0
    }

    fn can_cast(kind: SyntaxKind) -> (r: bool) {
        kind == SyntaxKind::RangePat
    }

    fn cast(node: SyntaxNode) -> (r: Option<Self>) {
        if Self::can_cast(node.kind()) {
            Some(Self(node))
        } else {
            None
        }
    }

    fn syntax(&self) -> (r: &SyntaxNode) {
        &self.0
    }
}

impl RangePat {
    /// The `..` or `..=` range operator token.
    pub fn range_op_token(&self) -> (r: Option<SyntaxToken>)
        ensures
            r == (if class_tokens(self.node_of(), TokenClass::Is(SyntaxKind::DotDot)).len() > 0 {
            first_of(class_tokens(self.node_of(), TokenClass::Is(SyntaxKind::DotDot)))
        } else {
            first_of(class_tokens(self.node_of(), TokenClass::Is(SyntaxKind::DotDotEq)))
        }),
    {
        match child_token(&self.0, SyntaxKind::DotDot) {
                Some(t) => Some(t),
                None => child_token(&self.0, SyntaxKind::DotDotEq),
            }
    }

    /// The start bound's literal token. For negative bounds (e.g. `-1..=9`),
    /// this skips the leading `-` and returns the literal itself.
    pub fn start_literal(&self) -> (r: Option<SyntaxToken>)
        ensures
            r == first_of(class_tokens(self.node_of(), TokenClass::RangeLiteral)),
    {
        nth_class_token(&self.0, TokenClass::RangeLiteral, 0)
    }

    /// The end bound's literal token. For negative bounds, this skips the `-`.
    pub fn end_literal(&self) -> (r: Option<SyntaxToken>)
        ensures
            r == nth_of(class_tokens(self.node_of(), TokenClass::RangeLiteral), 1),
    {
        nth_class_token(&self.0, TokenClass::RangeLiteral, 1)
    }

    pub fn start(&self) -> (r: Option<SyntaxToken>)
        ensures
            r == first_of(class_tokens(self.node_of(), TokenClass::NonTrivia)),
    {
        first_token(&self.0)
    }
}

pub struct StructPatFieldList(SyntaxNode);

impl AstNode for StructPatFieldList {
    open spec fn accepts(kind: SyntaxKind) -> bool {
        kind == SyntaxKind::StructPatFieldList
    }

    closed spec fn node_of(&self) -> SyntaxNode {
        self.0
    }

    fn can_cast(kind: SyntaxKind) -> (r: bool) {
        kind == SyntaxKind::StructPatFieldList
    }

    fn cast(node: SyntaxNode) -> (r: Option<Self>) {
        if Self::can_cast(node.kind()) {
            Some(Self(node))
        } else {
            None
        }
    }

    fn syntax(&self) -> (r: &SyntaxNode) {
        &self.0
    }
}

impl StructPatFieldList {
    pub fn fields(&self) -> (r: Vec<StructPatField>)
        ensures
            views_of(r@) == accepted_children::<StructPatField>(self.node_of()),
    {
        child_nodes_of(&self.0)
    }
}

pub struct StructPatField(SyntaxNode);

impl AstNode for StructPatField {
    open spec fn accepts(kind: SyntaxKind) -> bool {
        kind == SyntaxKind::StructPatField
    }

    closed spec fn node_of(&self) -> SyntaxNode {
        self.0
    }

    fn can_cast(kind: SyntaxKind) -> (r: bool) {
        kind == SyntaxKind::StructPatField
    }

    fn cast(node: SyntaxNode) -> (r: Option<Self>) {
        if Self::can_cast(node.kind()) {
            Some(Self(node))
        } else {
            None
        }
    }

    fn syntax(&self) -> (r: &SyntaxNode) {
        &self.0
    }
}

impl StructPatField {
    pub fn name_token(&self) -> (r: Option<SyntaxToken>)
        ensures
            r == first_of(class_tokens(self.node_of(), TokenClass::Is(SyntaxKind::Ident))),
    {
        child_token(&self.0, SyntaxKind::Ident)
    }

    pub fn pattern(&self) -> (r: Option<SyntaxNode>)
        ensures
            r == first_of(family_children(self.node_of(), Family::Pat)),
    {
        child_pat_node(&self.0)
    }
}

pub struct TuplePatFieldList(SyntaxNode);

impl AstNode for TuplePatFieldList {
    open spec fn accepts(kind: SyntaxKind) -> bool {
        kind == SyntaxKind::TuplePatFieldList
    }

    closed spec fn node_of(&self) -> SyntaxNode {
        self.0
    }

    fn can_cast(kind: SyntaxKind) -> (r: bool) {
        kind == SyntaxKind::TuplePatFieldList
    }

    fn cast(node: SyntaxNode) -> (r: Option<Self>) {
        if Self::can_cast(node.kind()) {
            Some(Self(node))
        } else {
            None
        }
    }

    fn syntax(&self) -> (r: &SyntaxNode) {
        &self.0
    }
}

impl TuplePatFieldList {
    pub fn patterns(&self) -> (r: Vec<SyntaxNode>)
        ensures
            r@ == family_children(self.node_of(), Family::Pat),
    {
        family_nodes(&self.0, Family::Pat)
    }
}

} // verus!
