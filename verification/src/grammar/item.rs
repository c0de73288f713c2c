//! Item grammar: functions, structs, enums, traits, impls, modules, `use`,
//! error sets, and `const`.
//!
//! `item` starts the item node, consumes an optional `pub`, then dispatches on
//! the leading keyword and hands the open marker to the specific parser, which
//! completes it. Two words are not reserved keywords and so lex as
//! identifiers: `const` and the `for` of `impl Trait for Type`, handled
//! contextually here.

use super::expr::expr;
use super::stmt::block;
use super::{is_segment_start, node_at, step};
use super::ty::ty;
use crate::parser::{accounted, lemma_wf_bounds, Marker, Parser, MAX_DEPTH};
use crate::syntax_kind::SyntaxKind as K;
use vstd::prelude::*;

verus! {

broadcast use lemma_wf_bounds;

/// A step that closes the item marker it was handed: the cursor keeps its
/// invariant and moves only forward, and the innermost open marker is closed.
pub open spec fn closes_item(p: Parser, prev: Parser) -> bool {
    &&& p.wf()
    &&& p.evolved(prev)
    &&& p.open_markers() =~= prev.open_markers().drop_last()
    &&& p.position() > prev.position()
    &&& accounted(p, prev)
}

/// What an item handler is handed: the cursor at the item's keyword, with the
/// item's marker innermost.
pub open spec fn item_ready(p: Parser, m: Marker) -> bool {
    &&& p.wf()
    &&& p.depth_level() < MAX_DEPTH
    &&& p.open_markers().len() > 0
    &&& p.open_markers().last() == m.index()
}

/// The item node that the keyword `k` (after an optional `pub`) begins, where
/// a keyword decides it; `const` is an identifier and is decided by its text.
pub open spec fn item_node_for(k: K) -> Option<K> {
    if k == K::KwFn {
        Some(K::FnDef)
    } else if k == K::KwStruct {
        Some(K::StructDef)
    } else if k == K::KwEnum {
        Some(K::EnumDef)
    } else if k == K::KwTrait {
        Some(K::TraitDef)
    } else if k == K::KwImpl {
        Some(K::ImplBlock)
    } else if k == K::KwMod {
        Some(K::ModDef)
    } else if k == K::KwUse {
        Some(K::UseDecl)
    } else if k == K::KwError {
        Some(K::ErrorSetDef)
    } else {
        None
    }
}

/// Whether a token of kind `k` and text `text` can begin an item: `pub`, an
/// item keyword, or the contextual word `const`.
pub open spec fn is_item_start(k: K, text: Seq<char>) -> bool {
    ||| k == K::KwPub
    ||| item_node_for(k) is Some
    ||| (k == K::Ident && text == "const"@)
}

/// Whether the current token can begin an item.
pub(crate) fn at_item_start(p: &Parser) -> (r: bool)
    ensures
        r == is_item_start(p.current_kind(), p.current_text_view()),
        r ==> !p.ended() || !p.wf(),
{
    let r = p.at(K::KwPub) || p.at(K::KwFn) || p.at(K::KwStruct) || p.at(K::KwEnum) || p.at(
        K::KwTrait,
    ) || p.at(K::KwImpl) || p.at(K::KwMod) || p.at(K::KwUse) || p.at(K::KwError)
        || p.at_contextual("const");
    r
}

/// Parse one top-level (or nested) item, recovering on anything unexpected.
pub(crate) fn item(p: &mut Parser)
    requires
        old(p).wf(),
        old(p).depth_level() < MAX_DEPTH,
    ensures
        step(*final(p), *old(p)),
        !old(p).ended() ==> final(p).position() > old(p).position(),
        ({
            let k = if old(p).current_kind() == K::KwPub {
                old(p).kind_ahead(1)
            } else {
                old(p).current_kind()
            };
            &&& final(p).started(old(p).event_count())
            &&& item_node_for(k) matches Some(n) ==> final(p).node_kind(old(p).event_count()) == n
            &&& item_node_for(k) is None ==> (final(p).node_kind(old(p).event_count())
                == K::ConstDef || final(p).node_kind(old(p).event_count()) == K::Error)
        }),
    decreases old(p).remaining(), 2int,
{
    let m = p.start();
    opt_visibility(p);
    match p.current() {
        K::KwFn => fn_def(p, m),
        K::KwStruct => struct_def(p, m),
        K::KwEnum => enum_def(p, m),
        K::KwTrait => trait_def(p, m),
        K::KwImpl => impl_block(p, m),
        K::KwMod => mod_def(p, m),
        K::KwUse => use_decl(p, m),
        K::KwError => error_set_def(p, m),
        _ => {
            if p.at_contextual("const") {
                const_def(p, m);
            } else {
                p.error("expected an item");
                if !p.at_end() {
                    p.bump();
                }
                m.complete(p, K::Error);
            }
        },
    }
}

fn opt_visibility(p: &mut Parser)
    requires
        old(p).wf(),
    ensures
        step(*final(p), *old(p)),
        old(p).current_kind() != K::KwPub ==> final(p).position() == old(p).position()
            && final(p).current_kind() == old(p).current_kind(),
        old(p).current_kind() == K::KwPub ==> final(p).position() == old(p).position() + 1,
        old(p).current_kind() == K::KwPub ==>
            node_at(*final(p), old(p).event_count(), K::Visibility),
        old(p).current_kind() != K::KwPub ==> final(p).events_view() == old(p).events_view(),
        old(p).current_kind() == K::KwPub ==> final(p).current_kind() == old(p).kind_ahead(1),
{
    if p.at(K::KwPub) {
        let m = p.start();
        p.bump();
        m.complete(p, K::Visibility);
    }
}

fn name(p: &mut Parser)
    requires
        old(p).wf(),
    ensures
        step(*final(p), *old(p)),
        node_at(*final(p), old(p).event_count(), K::Name),
{
    let m = p.start();
    p.expect(K::Ident);
    m.complete(p, K::Name);
}

// ── functions ───────────────────────────────────────────────────────────────

/// `fn name<generics>(params) -> Ret { body }`. The body is optional (trait
/// method signatures end at `;`).
fn fn_def(p: &mut Parser, m: Marker)
    requires
        item_ready(*old(p), m),
        old(p).current_kind() == K::KwFn,
    ensures
        closes_item(*final(p), *old(p)),
        node_at(*final(p), m.index(), K::FnDef),
{
    p.bump();  // fn
    name(p);
    opt_generic_params(p);
    param_list(p);
    if p.eat(K::Arrow) {
        let r = p.start();
        ty(p);
        r.complete(p, K::RetType);
    }
    if p.at(K::LBrace) {
        block(p);
    } else {
        p.eat(K::Semicolon);
    }
    m.complete(p, K::FnDef);
}

/// `( param (, param)* )`.
fn param_list(p: &mut Parser)
    requires
        old(p).wf(),
        old(p).depth_level() < MAX_DEPTH,
    ensures
        step(*final(p), *old(p)),
        node_at(*final(p), old(p).event_count(), K::ParamList),
{
    let m = p.start();
    p.expect(K::LParen);
    while !p.at(K::RParen) && !p.at_end()
        invariant
            p.wf(),
            p.evolved(*old(p)),
            accounted(*p, *old(p)),
            p.open_markers() == old(p).open_markers().push(m.index()),
            p.depth_level() < MAX_DEPTH,
        decreases p.remaining(),
    {
        param(p);
        if !p.eat(K::Comma) {
            break;
        }
    }
    p.expect(K::RParen);
    m.complete(p, K::ParamList);
}

/// A parameter: optional convention (`let`/`inout`/`sink`), then either a
/// `self` receiver or `name: Type`.
fn param(p: &mut Parser)
    requires
        old(p).wf(),
        old(p).depth_level() < MAX_DEPTH,
    ensures
        step(*final(p), *old(p)),
        final(p).started(old(p).event_count()),
        final(p).node_kind(old(p).event_count()) == K::SelfParam
            || final(p).node_kind(old(p).event_count()) == K::Param,
{
    let m = p.start();
    if p.at(K::KwLet) || p.at(K::KwInout) || p.at(K::KwSink) {
        p.bump();
    }
    if p.at(K::KwSelf) {
        p.bump();
        m.complete(p, K::SelfParam);
        return ;
    }
    p.expect(K::Ident);
    if p.eat(K::Colon) {
        ty(p);
    }
    m.complete(p, K::Param);
}

// ── generics ────────────────────────────────────────────────────────────────

fn opt_generic_params(p: &mut Parser)
    requires
        old(p).wf(),
        old(p).depth_level() < MAX_DEPTH,
    ensures
        step(*final(p), *old(p)),
        old(p).current_kind() == K::Lt ==>
            node_at(*final(p), old(p).event_count(), K::GenericParamList),
        old(p).current_kind() != K::Lt ==> final(p).events_view() == old(p).events_view(),
{
    if p.at(K::Lt) {
        generic_params(p);
    }
}

/// `< Param (, Param)* >` where a param is `T` with optional `: Bound + Bound`.
fn generic_params(p: &mut Parser)
    requires
        old(p).wf(),
        old(p).depth_level() < MAX_DEPTH,
    ensures
        step(*final(p), *old(p)),
        node_at(*final(p), old(p).event_count(), K::GenericParamList),
{
    let m = p.start();
    p.bump();  // <
    while !p.at_generic_close() && !p.at_end()
        invariant
            p.wf(),
            p.evolved(*old(p)),
            accounted(*p, *old(p)),
            p.open_markers() == old(p).open_markers().push(m.index()),
            p.depth_level() < MAX_DEPTH,
        decreases p.remaining(),
    {
        generic_param(p);
        if !p.eat(K::Comma) {
            break;
        }
    }
    p.eat_generic_close();
    m.complete(p, K::GenericParamList);
}

fn generic_param(p: &mut Parser)
    requires
        old(p).wf(),
        old(p).depth_level() < MAX_DEPTH,
    ensures
        step(*final(p), *old(p)),
        node_at(*final(p), old(p).event_count(), K::GenericParam),
{
    let m = p.start();
    p.expect(K::Ident);
    if p.eat(K::Colon) {
        trait_bounds(p);
    }
    m.complete(p, K::GenericParam);
}

fn trait_bounds(p: &mut Parser)
    requires
        old(p).wf(),
        old(p).depth_level() < MAX_DEPTH,
    ensures
        step(*final(p), *old(p)),
        node_at(*final(p), old(p).event_count(), K::TraitBounds),
{
    let m = p.start();
    ty(p);
    while p.eat(K::Plus)
        invariant
            p.wf(),
            p.evolved(*old(p)),
            accounted(*p, *old(p)),
            p.open_markers() == old(p).open_markers().push(m.index()),
            p.depth_level() < MAX_DEPTH,
        decreases p.remaining(),
    {
        ty(p);
    }
    m.complete(p, K::TraitBounds);
}

// ── structs / enums ─────────────────────────────────────────────────────────

fn struct_def(p: &mut Parser, m: Marker)
    requires
        item_ready(*old(p), m),
        old(p).current_kind() == K::KwStruct,
    ensures
        closes_item(*final(p), *old(p)),
        node_at(*final(p), m.index(), K::StructDef),
{
    p.bump();  // struct
    name(p);
    opt_generic_params(p);
    if p.at(K::LBrace) {
        field_list(p);
    } else {
        p.eat(K::Semicolon);
    }
    m.complete(p, K::StructDef);
}

fn field_list(p: &mut Parser)
    requires
        old(p).wf(),
        old(p).depth_level() < MAX_DEPTH,
    ensures
        step(*final(p), *old(p)),
        node_at(*final(p), old(p).event_count(), K::FieldList),
{
    let m = p.start();
    p.bump();  // {
    while !p.at(K::RBrace) && !p.at_end()
        invariant
            p.wf(),
            p.evolved(*old(p)),
            accounted(*p, *old(p)),
            p.open_markers() == old(p).open_markers().push(m.index()),
            p.depth_level() < MAX_DEPTH,
        decreases p.remaining(),
    {
        field(p);
        if !p.eat(K::Comma) {
            break;
        }
    }
    p.expect(K::RBrace);
    m.complete(p, K::FieldList);
}

fn field(p: &mut Parser)
    requires
        old(p).wf(),
        old(p).depth_level() < MAX_DEPTH,
    ensures
        step(*final(p), *old(p)),
        node_at(*final(p), old(p).event_count(), K::Field),
{
    let m = p.start();
    opt_visibility(p);
    p.expect(K::Ident);
    p.expect(K::Colon);
    ty(p);
    m.complete(p, K::Field);
}

fn enum_def(p: &mut Parser, m: Marker)
    requires
        item_ready(*old(p), m),
        old(p).current_kind() == K::KwEnum,
    ensures
        closes_item(*final(p), *old(p)),
        node_at(*final(p), m.index(), K::EnumDef),
{
    p.bump();  // enum
    name(p);
    opt_generic_params(p);
    variant_list(p);
    m.complete(p, K::EnumDef);
}

fn variant_list(p: &mut Parser)
    requires
        old(p).wf(),
        old(p).depth_level() < MAX_DEPTH,
    ensures
        step(*final(p), *old(p)),
        node_at(*final(p), old(p).event_count(), K::VariantList),
{
    let m = p.start();
    p.expect(K::LBrace);
    while !p.at(K::RBrace) && !p.at_end()
        invariant
            p.wf(),
            p.evolved(*old(p)),
            accounted(*p, *old(p)),
            p.open_markers() == old(p).open_markers().push(m.index()),
            p.depth_level() < MAX_DEPTH,
        decreases p.remaining(),
    {
        variant(p);
        if !p.eat(K::Comma) {
            break;
        }
    }
    p.expect(K::RBrace);
    m.complete(p, K::VariantList);
}

/// `Name` or `Name(Type, Type)` (tuple payload).
fn variant(p: &mut Parser)
    requires
        old(p).wf(),
        old(p).depth_level() < MAX_DEPTH,
    ensures
        step(*final(p), *old(p)),
        node_at(*final(p), old(p).event_count(), K::Variant),
{
    let m = p.start();
    p.expect(K::Ident);
    if p.at(K::LParen) {
        variant_payload(p);
    }
    m.complete(p, K::Variant);
}

fn variant_payload(p: &mut Parser)
    requires
        old(p).wf(),
        old(p).depth_level() < MAX_DEPTH,
    ensures
        step(*final(p), *old(p)),
        node_at(*final(p), old(p).event_count(), K::VariantPayload),
{
    let m = p.start();
    p.bump();  // (
    while !p.at(K::RParen) && !p.at_end()
        invariant
            p.wf(),
            p.evolved(*old(p)),
            accounted(*p, *old(p)),
            p.open_markers() == old(p).open_markers().push(m.index()),
            p.depth_level() < MAX_DEPTH,
        decreases p.remaining(),
    {
        ty(p);
        if !p.eat(K::Comma) {
            break;
        }
    }
    p.expect(K::RParen);
    m.complete(p, K::VariantPayload);
}

// ── traits / impls ──────────────────────────────────────────────────────────

fn trait_def(p: &mut Parser, m: Marker)
    requires
        item_ready(*old(p), m),
        old(p).current_kind() == K::KwTrait,
    ensures
        closes_item(*final(p), *old(p)),
        node_at(*final(p), m.index(), K::TraitDef),
{
    p.bump();  // trait
    name(p);
    opt_generic_params(p);
    member_list(p, K::TraitItemList);
    m.complete(p, K::TraitDef);
}

/// `impl Type { .. }` or `impl Trait for Type { .. }`. `for` is a contextual
/// identifier, not a keyword.
fn impl_block(p: &mut Parser, m: Marker)
    requires
        item_ready(*old(p), m),
        old(p).current_kind() == K::KwImpl,
    ensures
        closes_item(*final(p), *old(p)),
        node_at(*final(p), m.index(), K::ImplBlock),
{
    p.bump();  // impl
    opt_generic_params(p);
    ty(p);
    if p.at_contextual("for") {
        p.bump();
        ty(p);
    }
    member_list(p, K::AssocItemList);
    m.complete(p, K::ImplBlock);
}

/// `{ method* }` shared by traits and impls. Each method may carry `pub`.
fn member_list(p: &mut Parser, kind: K)
    requires
        old(p).wf(),
        kind != K::Error,
        old(p).depth_level() < MAX_DEPTH,
    ensures
        step(*final(p), *old(p)),
        node_at(*final(p), old(p).event_count(), kind),
{
    let m = p.start();
    p.expect(K::LBrace);
    while !p.at(K::RBrace) && !p.at_end()
        invariant
            p.wf(),
            p.evolved(*old(p)),
            accounted(*p, *old(p)),
            p.open_markers() == old(p).open_markers().push(m.index()),
            p.depth_level() < MAX_DEPTH,
        decreases p.remaining(),
    {
        let before = p.pos();
        if p.at(K::KwFn) || p.at(K::KwPub) {
            let im = p.start();
            opt_visibility(p);
            if p.at(K::KwFn) {
                fn_def(p, im);
            } else {
                p.error("expected a method");
                im.complete(p, K::Error);
                if !p.at_end() {
                    p.bump();
                }
            }
        } else {
            p.err_recover("expected a method");
        }
        // `err_recover` may decline a closer claimed by an enclosing
        // construct; break on no progress so it bubbles out to its owner.
        if p.pos() == before {
            break;
        }
    }
    p.expect(K::RBrace);
    m.complete(p, kind);
}

// ── modules / use / error sets / const ──────────────────────────────────────

fn mod_def(p: &mut Parser, m: Marker)
    requires
        item_ready(*old(p), m),
        old(p).current_kind() == K::KwMod,
    ensures
        closes_item(*final(p), *old(p)),
        node_at(*final(p), m.index(), K::ModDef),
    decreases old(p).remaining(), 1int,
{
    p.bump();  // mod
    name(p);
    if p.at(K::LBrace) {
        p.bump();
        while !p.at(K::RBrace) && !p.at_end()
            invariant
                p.wf(),
                p.evolved(*old(p)),
                accounted(*p, *old(p)),
                p.position() > old(p).position(),
                p.open_markers() == old(p).open_markers(),
                p.depth_level() < MAX_DEPTH,
            decreases p.remaining(),
        {
            item(p);
        }
        p.expect(K::RBrace);
    } else {
        p.eat(K::Semicolon);
    }
    m.complete(p, K::ModDef);
}

fn use_decl(p: &mut Parser, m: Marker)
    requires
        item_ready(*old(p), m),
        old(p).current_kind() == K::KwUse,
    ensures
        closes_item(*final(p), *old(p)),
        node_at(*final(p), m.index(), K::UseDecl),
{
    p.bump();  // use
    use_tree(p);
    p.eat(K::Semicolon);
    m.complete(p, K::UseDecl);
}

/// Whether `k` begins a `use` tree that consumes it: a path segment, a
/// `{group}`, or a `*` glob.
pub open spec fn is_use_tree_start(k: K) -> bool {
    is_segment_start(k) || k == K::LBrace || k == K::Star
}

/// A path of segments, optionally ending in a `{group}` or `*` glob, with an
/// optional `as rename`. Mutually recursive with `use_group`, so it shares the
/// recursion-depth guard: deeply nested groups recover instead of overflowing
/// the stack.
fn use_tree(p: &mut Parser)
    requires
        old(p).wf(),
        old(p).depth_level() < MAX_DEPTH,
    ensures
        step(*final(p), *old(p)),
        old(p).depth_level() + 1 < MAX_DEPTH ==> node_at(
            *final(p),
            old(p).event_count(),
            K::UseTree,
        ),
        old(p).depth_level() + 1 >= MAX_DEPTH ==> final(p).errors_view().drop_last()
            == old(p).errors_view() && final(p).errors_view().last().message@
            == "use nesting too deep"@,
        is_use_tree_start(old(p).current_kind()) ==> final(p).position() > old(p).position(),
    decreases old(p).remaining(), MAX_DEPTH - old(p).depth_level(), 3int,
{
    if !p.enter_recursion() {
        p.err_and_bump("use nesting too deep");
        p.leave_recursion();
        return ;
    }
    use_tree_inner(p);
    p.leave_recursion();
}

fn use_tree_inner(p: &mut Parser)
    requires
        old(p).wf(),
        old(p).depth_level() < MAX_DEPTH,
    ensures
        step(*final(p), *old(p)),
        node_at(*final(p), old(p).event_count(), K::UseTree),
        is_use_tree_start(old(p).current_kind()) ==> final(p).position() > old(p).position(),
    decreases old(p).remaining(), MAX_DEPTH - old(p).depth_level(), 2int,
{
    let m = p.start();
    loop
        invariant
            p.wf(),
            p.evolved(*old(p)),
            accounted(*p, *old(p)),
            p.open_markers() == old(p).open_markers().push(m.index()),
            p.depth_level() < MAX_DEPTH,
            p.position() == old(p).position() ==> p.current_kind() == old(p).current_kind(),
        ensures
            p.wf(),
            p.evolved(*old(p)),
            accounted(*p, *old(p)),
            p.open_markers() == old(p).open_markers().push(m.index()),
            p.depth_level() < MAX_DEPTH,
            is_use_tree_start(old(p).current_kind()) ==> p.position() > old(p).position(),
        decreases p.remaining(),
    {
        if p.at(K::LBrace) {
            use_group(p);
            break;
        }
        if p.eat(K::Star) {
            break;
        }
        if !path_segment_token(p) {
            break;
        }
        if !p.eat(K::ColonColon) {
            break;
        }
    }
    if p.eat(K::KwAs) {
        let r = p.start();
        p.expect(K::Ident);
        r.complete(p, K::UseRename);
    }
    m.complete(p, K::UseTree);
}

fn path_segment_token(p: &mut Parser) -> (r: bool)
    requires
        old(p).wf(),
    ensures
        step(*final(p), *old(p)),
        r ==> final(p).position() == old(p).position() + 1,
        r ==> node_at(*final(p), old(p).event_count(), K::PathSegment),
        r == is_segment_start(old(p).current_kind()),
        !r ==> *final(p) == *old(p),
{
    if p.at(K::Ident) || p.at(K::KwSelf) || p.at(K::KwSelfType) {
        let s = p.start();
        p.bump();
        s.complete(p, K::PathSegment);
        true
    } else {
        false
    }
}

fn use_group(p: &mut Parser)
    requires
        old(p).wf(),
        old(p).depth_level() < MAX_DEPTH,
        old(p).current_kind() == K::LBrace,
    ensures
        step(*final(p), *old(p)),
        node_at(*final(p), old(p).event_count(), K::UseGroup),
        final(p).position() > old(p).position(),
    decreases old(p).remaining(), MAX_DEPTH - old(p).depth_level(), 1int,
{
    let m = p.start();
    p.bump();  // {
    while !p.at(K::RBrace) && !p.at_end()
        invariant
            p.wf(),
            p.evolved(*old(p)),
            accounted(*p, *old(p)),
            p.position() > old(p).position(),
            p.open_markers() == old(p).open_markers().push(m.index()),
            p.depth_level() < MAX_DEPTH,
        decreases p.remaining(),
    {
        use_tree(p);
        if !p.eat(K::Comma) {
            break;
        }
    }
    p.expect(K::RBrace);
    m.complete(p, K::UseGroup);
}

fn error_set_def(p: &mut Parser, m: Marker)
    requires
        item_ready(*old(p), m),
        old(p).current_kind() == K::KwError,
    ensures
        closes_item(*final(p), *old(p)),
        node_at(*final(p), m.index(), K::ErrorSetDef),
{
    p.bump();  // error
    name(p);
    error_variant_list(p);
    m.complete(p, K::ErrorSetDef);
}

fn error_variant_list(p: &mut Parser)
    requires
        old(p).wf(),
    ensures
        step(*final(p), *old(p)),
        node_at(*final(p), old(p).event_count(), K::ErrorVariantList),
{
    let m = p.start();
    p.expect(K::LBrace);
    while !p.at(K::RBrace) && !p.at_end()
        invariant
            p.wf(),
            p.evolved(*old(p)),
            accounted(*p, *old(p)),
            p.open_markers() == old(p).open_markers().push(m.index()),
        decreases p.remaining(),
    {
        let v = p.start();
        p.expect(K::Ident);
        v.complete(p, K::ErrorVariant);
        if !p.eat(K::Comma) {
            break;
        }
    }
    p.expect(K::RBrace);
    m.complete(p, K::ErrorVariantList);
}

/// `const NAME: Type = expr`. `const` is a contextual identifier.
fn const_def(p: &mut Parser, m: Marker)
    requires
        item_ready(*old(p), m),
        old(p).current_kind() == K::Ident,
    ensures
        closes_item(*final(p), *old(p)),
        node_at(*final(p), m.index(), K::ConstDef),
{
    p.bump();  // const (ident)
    name(p);
    if p.eat(K::Colon) {
        ty(p);
    }
    if p.eat(K::Eq) {
        expr(p);
    }
    p.eat(K::Semicolon);
    m.complete(p, K::ConstDef);
}

} // verus!
