//! Typed views for paths and names.

use super::{
    accepted_children, child_nodes_of, child_token, class_tokens, first_of, first_token, views_of,
    AstNode, TokenClass,
};
use crate::syntax::{SyntaxNode, SyntaxToken};
use crate::syntax_kind::SyntaxKind;
use vstd::prelude::*;

verus! {

pub struct Path(SyntaxNode);

impl AstNode for Path {
    open spec fn accepts(kind: SyntaxKind) -> bool {
        kind == SyntaxKind::Path
    }

    closed spec fn node_of(&self) -> SyntaxNode {
        self.0
    }

    fn can_cast(kind: SyntaxKind) -> (r: bool) {
        kind == SyntaxKind::Path
    }

    fn cast(node: SyntaxNode) -> (r: Option<Self>) {
        if Self::can_cast(node.kind()) {
            Some(Self(node))
        } else {
            None
        }
    }

    fn syntax(&self) -> (r: &SyntaxNode) {
        &self.0
    }
}

impl Path {
    pub fn segments(&self) -> (r: Vec<PathSegment>)
        ensures
            views_of(r@) == accepted_children::<PathSegment>(self.node_of()),
    {
        child_nodes_of(&self.0)
    }
}

pub struct PathSegment(SyntaxNode);

impl AstNode for PathSegment {
    open spec fn accepts(kind: SyntaxKind) -> bool {
        kind == SyntaxKind::PathSegment
    }

    closed spec fn node_of(&self) -> SyntaxNode {
        self.0
    }

    fn can_cast(kind: SyntaxKind) -> (r: bool) {
        kind == SyntaxKind::PathSegment
    }

    fn cast(node: SyntaxNode) -> (r: Option<Self>) {
        if Self::can_cast(node.kind()) {
            Some(Self(node))
        } else {
            None
        }
    }

    fn syntax(&self) -> (r: &SyntaxNode) {
        &self.0
    }
}

impl PathSegment {
    pub fn name_token(&self) -> (r: Option<SyntaxToken>)
        ensures
            r == first_of(class_tokens(self.node_of(), TokenClass::NonTrivia)),
    {
        first_token(&self.0)
    }
}

pub struct Name(SyntaxNode);

impl AstNode for Name {
    open spec fn accepts(kind: SyntaxKind) -> bool {
        kind == SyntaxKind::Name
    }

    closed spec fn node_of(&self) -> SyntaxNode {
        self.0
    }

    fn can_cast(kind: SyntaxKind) -> (r: bool) {
        kind == SyntaxKind::Name
    }

    fn cast(node: SyntaxNode) -> (r: Option<Self>) {
        if Self::can_cast(node.kind()) {
            Some(Self(node))
        } else {
            None
        }
    }

    fn syntax(&self) -> (r: &SyntaxNode) {
        &self.0
    }
}

impl Name {
    pub fn ident_token(&self) -> (r: Option<SyntaxToken>)
        ensures
            r == first_of(class_tokens(self.node_of(), TokenClass::Is(SyntaxKind::Ident))),
    {
        child_token(&self.0, SyntaxKind::Ident)
    }

    pub fn text(&self) -> (r: Option<String>)
        ensures
            r matches Some(s) ==> (first_of(class_tokens(self.node_of(), TokenClass::Is(SyntaxKind::Ident))) matches Some(t) && s@ == t.text_of()),
            r is None <==> class_tokens(self.node_of(), TokenClass::Is(SyntaxKind::Ident)).len() == 0,
    {
        match self.ident_token() {
                Some(t) => Some(t.text().to_owned()),
                None => None,
            }
    }
}

pub struct NameRef(SyntaxNode);

impl AstNode for NameRef {
    open spec fn accepts(kind: SyntaxKind) -> bool {
        kind == SyntaxKind::NameRef
    }

    closed spec fn node_of(&self) -> SyntaxNode {
        self.0
    }

    fn can_cast(kind: SyntaxKind) -> (r: bool) {
        kind == SyntaxKind::NameRef
    }

    fn cast(node: SyntaxNode) -> (r: Option<Self>) {
        if Self::can_cast(node.kind()) {
            Some(Self(node))
        } else {
            None
        }
    }

    fn syntax(&self) -> (r: &SyntaxNode) {
        &self.0
    }
}

impl NameRef {
    /// The identifier or keyword token used as a name.
    pub fn token(&self) -> (r: Option<SyntaxToken>)
        ensures
            r == first_of(class_tokens(self.node_of(), TokenClass::NonTrivia)),
    {
        first_token(&self.0)
    }

    pub fn text(&self) -> (r: Option<String>)
        ensures
            r matches Some(s) ==> (first_of(class_tokens(self.node_of(), TokenClass::NonTrivia)) matches Some(t) && s@ == t.text_of()),
            r is None <==> class_tokens(self.node_of(), TokenClass::NonTrivia).len() == 0,
    {
        match self.token() {
                Some(t) => Some(t.text().to_owned()),
                None => None,
            }
    }
}

} // verus!
