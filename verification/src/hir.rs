//! The part of the lowered program (HIR) that the type checker's id walks
//! read, as plain values: every node's numeric id, and which nodes sit under
//! which.
//!
//! - `hir_max_id` finds the highest id in a program so the desugar pass can
//!   seed its counter of fresh ids past every id already handed out. It reads
//!   the ids of items, blocks, statements and expressions, not of patterns,
//!   assignment targets or iterator bindings.
//! - `collect_expr_ids` lists, in pre-order, every id under an expression with
//!   the name of its node's kind: the ids the type map must cover.

use vstd::prelude::*;

verus! {

/// An expression, with the sub-expressions and blocks under it.
pub enum HirExpr {
    Lit { id: usize },
    Path { id: usize },
    Bin { id: usize, left: Box<HirExpr>, right: Box<HirExpr> },
    Unary { id: usize, operand: Box<HirExpr> },
    Call { id: usize, args: Vec<HirExpr> },
    MethodCall { id: usize, receiver: Box<HirExpr>, args: Vec<HirExpr> },
    Field { id: usize, receiver: Box<HirExpr> },
    Index { id: usize, base: Box<HirExpr>, indices: Vec<HirExpr> },
    /// A block expression; its id is the block's.
    Block(HirBlock),
    If {
        id: usize,
        condition: Box<HirExpr>,
        then_branch: HirBlock,
        else_branch: Option<Box<HirExpr>>,
    },
    Match { id: usize, scrutinee: Box<HirExpr>, arms: Vec<HirArm> },
    Loop { id: usize, kind: Box<HirLoopKind> },
    /// A struct literal, with its fields' value expressions.
    StructLit { id: usize, fields: Vec<HirExpr> },
    ListLit { id: usize, elements: Vec<HirExpr> },
    /// An assignment: its target and the assigned value.
    Assign { id: usize, target: HirAssignTarget, value: Box<HirExpr> },
}

/// Where an assignment stores.
pub enum HirAssignTarget {
    Name,
    Field { receiver: Box<HirExpr> },
    Index { base: Box<HirExpr>, index: Box<HirExpr> },
}

/// A pattern, with the sub-patterns under it.
pub enum HirPattern {
    Wildcard { id: usize },
    Ident { id: usize },
    Literal { id: usize },
    TupleStruct { id: usize, fields: Vec<HirPattern> },
    /// A struct pattern, with its fields' patterns.
    Struct { id: usize, fields: Vec<HirPattern> },
    Or { id: usize, alternatives: Vec<HirPattern> },
    Range { id: usize },
}

/// A match arm: its pattern, its optional guard and its body.
pub struct HirArm {
    pub pattern: HirPattern,
    pub guard: Option<HirExpr>,
    pub body: HirExpr,
}

/// The three loop forms.
pub enum HirLoopKind {
    Infinite(HirBlock),
    Conditional { condition: HirExpr, body: HirBlock },
    /// An iterator loop: the id of its binding, what it walks, and its body.
    Iterator { binding_id: usize, iterable: HirExpr, body: HirBlock },
}

/// A block: its id, its statements, and its optional tail expression.
pub struct HirBlock {
    pub id: usize,
    pub stmts: Vec<HirStmt>,
    pub tail: Option<Box<HirExpr>>,
}

/// A statement, with the pattern and expression it holds, if any.
#[allow(inconsistent_fields)]
pub enum HirStmt {
    Val { id: usize, pattern: HirPattern, value: HirExpr },
    Var { id: usize, pattern: HirPattern, value: HirExpr },
    Expr { id: usize, expr: HirExpr },
    Return { id: usize, value: Option<HirExpr> },
    Break { id: usize, value: Option<HirExpr> },
    Continue { id: usize },
}

/// A type as written in the source, its names not yet resolved.
pub enum HirTy {
    /// A named type (`Int`, `Point`, `Self`), by its text.
    Named(String),
    Unit,
    Tuple(Vec<HirTy>),
    Fn { params: Vec<HirTy>, return_type: Box<HirTy> },
    /// A type parameter in scope, by its name.
    TypeParam(String),
    /// A generic type applied to arguments (`List<Int>`).
    Instance { name: String, args: Vec<HirTy> },
    Error,
}

/// A type parameter: its id, its name, and the names of its trait bounds.
pub struct HirTypeParam {
    pub id: usize,
    pub name: String,
    pub bounds: Vec<String>,
}

/// A trait method: its name, its parameters' written types (a parameter may
/// have none), its written return type if any, and its default body if any.
pub struct HirTraitMethod {
    pub name: String,
    pub params: Vec<Option<HirTy>>,
    pub return_type: Option<HirTy>,
    pub body: Option<HirBlock>,
}

/// A struct field: its id, its name and its written type.
pub struct HirField {
    pub id: usize,
    pub name: String,
    pub ty: HirTy,
}

/// An item, with the bodies the walk descends into.
pub enum HirItem {
    FnDef { id: usize, body: HirBlock },
    /// A struct, with its name and fields.
    StructDef { id: usize, name: String, fields: Vec<HirField> },
    EnumDef { id: usize },
    /// A trait: its name, its type parameters and its methods.
    TraitDef { id: usize, name: String, type_params: Vec<HirTypeParam>, methods: Vec<HirTraitMethod> },
    /// An impl block, with its methods' and subscripts' bodies.
    ImplDef { id: usize, method_bodies: Vec<HirBlock>, subscript_bodies: Vec<HirBlock> },
    SubscriptDef { id: usize },
    UseItem { id: usize },
}

/// The larger of two numbers.
pub open spec fn max_of(a: nat, b: nat) -> nat {
    if a >= b {
        a
    } else {
        b
    }
}

/// An expression's own id.
pub open spec fn expr_id(e: HirExpr) -> nat {
    match e {
        HirExpr::Lit { id } => id as nat,
        HirExpr::Path { id } => id as nat,
        HirExpr::Bin { id, .. } => id as nat,
        HirExpr::Unary { id, .. } => id as nat,
        HirExpr::Call { id, .. } => id as nat,
        HirExpr::MethodCall { id, .. } => id as nat,
        HirExpr::Field { id, .. } => id as nat,
        HirExpr::Index { id, .. } => id as nat,
        HirExpr::Block(b) => b.id as nat,
        HirExpr::If { id, .. } => id as nat,
        HirExpr::Match { id, .. } => id as nat,
        HirExpr::Loop { id, .. } => id as nat,
        HirExpr::StructLit { id, .. } => id as nat,
        HirExpr::ListLit { id, .. } => id as nat,
        HirExpr::Assign { id, .. } => id as nat,
    }
}

/// A statement's own id.
pub open spec fn stmt_id(s: HirStmt) -> nat {
    match s {
        HirStmt::Val { id, .. } => id as nat,
        HirStmt::Var { id, .. } => id as nat,
        HirStmt::Expr { id, .. } => id as nat,
        HirStmt::Return { id, .. } => id as nat,
        HirStmt::Break { id, .. } => id as nat,
        HirStmt::Continue { id } => id as nat,
    }
}

/// The highest id the walk finds in an expression: its own, and those of the
/// sub-expressions and blocks under it.
pub open spec fn expr_max(e: HirExpr) -> nat
    decreases e,
{
    match e {
        HirExpr::Lit { id } => id as nat,
        HirExpr::Path { id } => id as nat,
        HirExpr::Bin { id, left, right } => max_of(
            max_of(id as nat, expr_max(*left)),
            expr_max(*right),
        ),
        HirExpr::Unary { id, operand } => max_of(id as nat, expr_max(*operand)),
        HirExpr::Call { id, args } => max_of(id as nat, exprs_max(args@)),
        HirExpr::MethodCall { id, receiver, args } => max_of(
            max_of(id as nat, expr_max(*receiver)),
            exprs_max(args@),
        ),
        HirExpr::Field { id, receiver } => max_of(id as nat, expr_max(*receiver)),
        HirExpr::Index { id, base, indices } => max_of(
            max_of(id as nat, expr_max(*base)),
            exprs_max(indices@),
        ),
        HirExpr::Block(b) => max_of(b.id as nat, block_max(b)),
        HirExpr::If { id, condition, then_branch, else_branch } => {
            let m = max_of(max_of(id as nat, expr_max(*condition)), block_max(then_branch));
            match else_branch {
                Some(eb) => max_of(m, expr_max(*eb)),
                None => m,
            }
        },
        HirExpr::Match { id, scrutinee, arms } => max_of(
            max_of(id as nat, expr_max(*scrutinee)),
            arms_max(arms@),
        ),
        HirExpr::Loop { id, kind } => max_of(id as nat, loop_max(*kind)),
        HirExpr::StructLit { id, fields } => max_of(id as nat, exprs_max(fields@)),
        HirExpr::ListLit { id, elements } => max_of(id as nat, exprs_max(elements@)),
        HirExpr::Assign { id, value, .. } => max_of(id as nat, expr_max(*value)),
    }
}

/// The highest id the walk finds in a run of expressions (0 for none).
pub open spec fn exprs_max(s: Seq<HirExpr>) -> nat
    decreases s,
{
    if s.len() == 0 {
        0
    } else {
        max_of(exprs_max(s.drop_last()), expr_max(s.last()))
    }
}

/// The highest id the walk finds in a run of match arms: their guards and
/// bodies (0 for none).
pub open spec fn arms_max(s: Seq<HirArm>) -> nat
    decreases s,
{
    if s.len() == 0 {
        0
    } else {
        let a = s.last();
        let g = match a.guard {
            Some(g) => max_of(arms_max(s.drop_last()), expr_max(g)),
            None => arms_max(s.drop_last()),
        };
        max_of(g, expr_max(a.body))
    }
}

/// The highest id the walk finds in a loop's parts.
pub open spec fn loop_max(k: HirLoopKind) -> nat
    decreases k,
{
    match k {
        HirLoopKind::Infinite(b) => block_max(b),
        HirLoopKind::Conditional { condition, body } => max_of(
            expr_max(condition),
            block_max(body),
        ),
        HirLoopKind::Iterator { iterable, body, .. } => max_of(
            expr_max(iterable),
            block_max(body),
        ),
    }
}

/// The highest id the walk finds under a statement, beside its own (0 for a
/// statement that holds no expression).
pub open spec fn stmt_sub_max(s: HirStmt) -> nat
    decreases s,
{
    match s {
        HirStmt::Val { value, .. } => expr_max(value),
        HirStmt::Var { value, .. } => expr_max(value),
        HirStmt::Expr { expr, .. } => expr_max(expr),
        HirStmt::Return { value, .. } => match value {
            Some(v) => expr_max(v),
            None => 0,
        },
        HirStmt::Break { value, .. } => match value {
            Some(v) => expr_max(v),
            None => 0,
        },
        HirStmt::Continue { .. } => 0,
    }
}

/// The highest id the walk finds in a run of statements: each one's own id and
/// what lies under it (0 for none).
pub open spec fn stmts_max(s: Seq<HirStmt>) -> nat
    decreases s,
{
    if s.len() == 0 {
        0
    } else {
        max_of(max_of(stmts_max(s.drop_last()), stmt_id(s.last())), stmt_sub_max(s.last()))
    }
}

/// The highest id the walk finds in a block: its own, its statements', and its
/// tail's.
pub open spec fn block_max(b: HirBlock) -> nat
    decreases b,
{
    let m = max_of(b.id as nat, stmts_max(b.stmts@));
    match b.tail {
        Some(t) => max_of(m, expr_max(*t)),
        None => m,
    }
}

/// The highest id the walk finds in a run of blocks (0 for none).
pub open spec fn blocks_max(s: Seq<HirBlock>) -> nat
    decreases s.len(),
{
    if s.len() == 0 {
        0
    } else {
        max_of(blocks_max(s.drop_last()), block_max(s.last()))
    }
}

/// The highest id the walk finds in a run of trait methods' default bodies
/// (0 for none).
pub open spec fn opt_blocks_max(s: Seq<HirTraitMethod>) -> nat
    decreases s.len(),
{
    if s.len() == 0 {
        0
    } else {
        match s.last().body {
            Some(b) => max_of(opt_blocks_max(s.drop_last()), block_max(b)),
            None => opt_blocks_max(s.drop_last()),
        }
    }
}

/// The highest id the walk finds in an item: its own, and that of the bodies
/// it holds.
pub open spec fn item_max(it: HirItem) -> nat {
    match it {
        HirItem::FnDef { id, body } => max_of(id as nat, block_max(body)),
        HirItem::StructDef { id, .. } => id as nat,
        HirItem::EnumDef { id } => id as nat,
        HirItem::TraitDef { id, methods, .. } => max_of(
            id as nat,
            opt_blocks_max(methods@),
        ),
        HirItem::ImplDef { id, method_bodies, subscript_bodies } => max_of(
            id as nat,
            max_of(blocks_max(method_bodies@), blocks_max(subscript_bodies@)),
        ),
        HirItem::SubscriptDef { id } => id as nat,
        HirItem::UseItem { id } => id as nat,
    }
}

/// The highest id in a program's items (0 for none).
pub open spec fn hir_max(items: Seq<HirItem>) -> nat
    decreases items.len(),
{
    if items.len() == 0 {
        0
    } else {
        max_of(hir_max(items.drop_last()), item_max(items.last()))
    }
}

fn max_usize(a: usize, b: usize) -> (r: usize)
    ensures
        r == max_of(a as nat, b as nat),
{
    if a >= b {
        a
    } else {
        b
    }
}

/// The highest id in a program: 0 for a program with no items. Every id the
/// walk meets is at most this.
pub fn hir_max_id(items: &Vec<HirItem>) -> (r: usize)
    ensures
        r == hir_max(items@),
        forall|k: int| 0 <= k < items@.len() ==> item_max(#[trigger] items@[k]) <= r,
{
    let mut max: usize = 0;
    let mut i: usize = 0;
    while i < items.len()
        invariant
            i <= items@.len(),
            max == hir_max(items@.take(i as int)),
            forall|k: int| 0 <= k < i ==> item_max(#[trigger] items@[k]) <= max,
        decreases items.len() - i,
    {
        proof {
            assert(items@.take(i as int + 1).drop_last() =~= items@.take(i as int));
        }
        max = max_usize(max, item_max_id(&items[i]));
        i = i + 1;
    }
    proof {
        assert(items@.take(items@.len() as int) =~= items@);
    }
    max
}

/// The highest id in an item: its own, or one in a body it holds.
pub fn item_max_id(item: &HirItem) -> (r: usize)
    ensures
        r == item_max(*item),
{
    match item {
        HirItem::FnDef { id, body } => max_usize(*id, block_max_id(body)),
        HirItem::StructDef { id, .. } => *id,
        HirItem::EnumDef { id } => *id,
        HirItem::TraitDef { id, methods, .. } => {
            let mut m: usize = 0;
            let mut i: usize = 0;
            while i < methods.len()
                invariant
                    i <= methods@.len(),
                    m == opt_blocks_max(methods@.take(i as int)),
                decreases methods.len() - i,
            {
                proof {
                    assert(methods@.take(i as int + 1).drop_last() =~= methods@.take(i as int));
                }
                match &methods[i].body {
                    Some(b) => {
                        m = max_usize(m, block_max_id(b));
                    },
                    None => {},
                }
                i = i + 1;
            }
            proof {
                assert(methods@.take(methods@.len() as int) =~= methods@);
            }
            max_usize(*id, m)
        },
        HirItem::ImplDef { id, method_bodies, subscript_bodies } => {
            let m1 = blocks_max_id(method_bodies);
            let m2 = blocks_max_id(subscript_bodies);
            max_usize(*id, max_usize(m1, m2))
        },
        HirItem::SubscriptDef { id } => *id,
        HirItem::UseItem { id } => *id,
    }
}

/// The highest id in a run of blocks (0 for none).
fn blocks_max_id(bs: &Vec<HirBlock>) -> (r: usize)
    ensures
        r == blocks_max(bs@),
{
    let mut m: usize = 0;
    let mut i: usize = 0;
    while i < bs.len()
        invariant
            i <= bs@.len(),
            m == blocks_max(bs@.take(i as int)),
        decreases bs.len() - i,
    {
        proof {
            assert(bs@.take(i as int + 1).drop_last() =~= bs@.take(i as int));
        }
        m = max_usize(m, block_max_id(&bs[i]));
        i = i + 1;
    }
    proof {
        assert(bs@.take(bs@.len() as int) =~= bs@);
    }
    m
}

/// The highest id in a block: its own, each statement's own and what lies
/// under it, and its tail's.
pub fn block_max_id(block: &HirBlock) -> (r: usize)
    ensures
        r == block_max(*block),
    decreases block, 1int,
{
    let mut max: usize = block.id;
    let mut i: usize = 0;
    while i < block.stmts.len()
        invariant
            i <= block.stmts@.len(),
            max == max_of(block.id as nat, stmts_max(block.stmts@.take(i as int))),
        decreases block.stmts.len() - i,
    {
        proof {
            assert(block.stmts@.take(i as int + 1).drop_last() =~= block.stmts@.take(i as int));
            assert(decreases_to!(block => block.stmts@[i as int])) by {
                assert(decreases_to!(block => block.stmts));
                assert(decreases_to!(block.stmts => block.stmts@));
            }
        }
        let st = &block.stmts[i];
        max = max_usize(max, stmt_id_of(st));
        max = max_usize(max, stmt_max_sub_id(st));
        i = i + 1;
    }
    proof {
        assert(block.stmts@.take(block.stmts@.len() as int) =~= block.stmts@);
    }
    match &block.tail {
        Some(t) => max_usize(max, expr_max_id(t)),
        None => max,
    }
}

/// A statement's own id.
fn stmt_id_of(s: &HirStmt) -> (r: usize)
    ensures
        r == stmt_id(*s),
{
    match s {
        HirStmt::Val { id, .. } => *id,
        HirStmt::Var { id, .. } => *id,
        HirStmt::Expr { id, .. } => *id,
        HirStmt::Return { id, .. } => *id,
        HirStmt::Break { id, .. } => *id,
        HirStmt::Continue { id } => *id,
    }
}

/// The highest id under a statement, beside its own: that of the expression it
/// holds (0 for none).
pub fn stmt_max_sub_id(stmt: &HirStmt) -> (r: usize)
    ensures
        r == stmt_sub_max(*stmt),
    decreases stmt, 1int,
{
    match stmt {
        HirStmt::Val { value, .. } => expr_max_id(value),
        HirStmt::Var { value, .. } => expr_max_id(value),
        HirStmt::Expr { expr, .. } => expr_max_id(expr),
        HirStmt::Return { value, .. } => match value {
            Some(v) => expr_max_id(v),
            None => 0,
        },
        HirStmt::Break { value, .. } => match value {
            Some(v) => expr_max_id(v),
            None => 0,
        },
        HirStmt::Continue { .. } => 0,
    }
}

/// The highest id in a loop's parts.
pub fn loop_max_id(kind: &HirLoopKind) -> (r: usize)
    ensures
        r == loop_max(*kind),
    decreases kind, 1int,
{
    match kind {
        HirLoopKind::Infinite(b) => block_max_id(b),
        HirLoopKind::Conditional { condition, body } => max_usize(
            expr_max_id(condition),
            block_max_id(body),
        ),
        HirLoopKind::Iterator { iterable, body, .. } => max_usize(
            expr_max_id(iterable),
            block_max_id(body),
        ),
    }
}

/// The highest id in a run of expressions (0 for none).
fn exprs_max_id(es: &Vec<HirExpr>) -> (r: usize)
    ensures
        r == exprs_max(es@),
    decreases es, 1int,
{
    let mut m: usize = 0;
    let mut i: usize = 0;
    while i < es.len()
        invariant
            i <= es@.len(),
            m == exprs_max(es@.take(i as int)),
        decreases es.len() - i,
    {
        proof {
            assert(es@.take(i as int + 1).drop_last() =~= es@.take(i as int));
            assert(decreases_to!(es => es@[i as int])) by {
                assert(decreases_to!(es => es@));
            }
        }
        m = max_usize(m, expr_max_id(&es[i]));
        i = i + 1;
    }
    proof {
        assert(es@.take(es@.len() as int) =~= es@);
    }
    m
}

/// The highest id in a run of match arms: guards and bodies (0 for none).
fn arms_max_id(arms: &Vec<HirArm>) -> (r: usize)
    ensures
        r == arms_max(arms@),
    decreases arms, 1int,
{
    let mut m: usize = 0;
    let mut i: usize = 0;
    while i < arms.len()
        invariant
            i <= arms@.len(),
            m == arms_max(arms@.take(i as int)),
        decreases arms.len() - i,
    {
        proof {
            assert(arms@.take(i as int + 1).drop_last() =~= arms@.take(i as int));
            assert(decreases_to!(arms => arms@[i as int])) by {
                assert(decreases_to!(arms => arms@));
            }
        }
        let arm = &arms[i];
        if let Some(g) = &arm.guard {
            m = max_usize(m, expr_max_id(g));
        }
        m = max_usize(m, expr_max_id(&arm.body));
        i = i + 1;
    }
    proof {
        assert(arms@.take(arms@.len() as int) =~= arms@);
    }
    m
}

/// The highest id in an expression: its own, and those of the sub-expressions
/// and blocks under it.
pub fn expr_max_id(expr: &HirExpr) -> (r: usize)
    ensures
        r == expr_max(*expr),
        expr_id(*expr) <= r,
    decreases expr, 1int,
{
    match expr {
        HirExpr::Lit { id } => *id,
        HirExpr::Path { id } => *id,
        HirExpr::Bin { id, left, right } => max_usize(
            max_usize(*id, expr_max_id(left)),
            expr_max_id(right),
        ),
        HirExpr::Unary { id, operand } => max_usize(*id, expr_max_id(operand)),
        HirExpr::Call { id, args } => max_usize(*id, exprs_max_id(args)),
        HirExpr::MethodCall { id, receiver, args } => max_usize(
            max_usize(*id, expr_max_id(receiver)),
            exprs_max_id(args),
        ),
        HirExpr::Field { id, receiver } => max_usize(*id, expr_max_id(receiver)),
        HirExpr::Index { id, base, indices } => max_usize(
            max_usize(*id, expr_max_id(base)),
            exprs_max_id(indices),
        ),
        HirExpr::Block(b) => max_usize(b.id, block_max_id(b)),
        HirExpr::If { id, condition, then_branch, else_branch } => {
            let m = max_usize(max_usize(*id, expr_max_id(condition)), block_max_id(then_branch));
            match else_branch {
                Some(eb) => max_usize(m, expr_max_id(eb)),
                None => m,
            }
        },
        HirExpr::Match { id, scrutinee, arms } => max_usize(
            max_usize(*id, expr_max_id(scrutinee)),
            arms_max_id(arms),
        ),
        HirExpr::Loop { id, kind } => max_usize(*id, loop_max_id(kind)),
        HirExpr::StructLit { id, fields } => max_usize(*id, exprs_max_id(fields)),
        HirExpr::ListLit { id, elements } => max_usize(*id, exprs_max_id(elements)),
        HirExpr::Assign { id, value, .. } => max_usize(*id, expr_max_id(value)),
    }
}

// ── the ids the type map must cover ────────────────────────────────────────

/// An id with the name of its node's kind.
pub type IdEntry = (usize, Seq<char>);

/// The ids collected so far, each with its kind name as text.
pub open spec fn entries_view(v: Seq<(usize, String)>) -> Seq<IdEntry> {
    v.map_values(|e: (usize, String)| (e.0, e.1@))
}

/// The name of an expression's kind.
pub open spec fn expr_kind_text(e: HirExpr) -> Seq<char> {
    match e {
        HirExpr::Lit { .. } => "Lit"@,
        HirExpr::Path { .. } => "Path"@,
        HirExpr::Bin { .. } => "Bin"@,
        HirExpr::Unary { .. } => "Unary"@,
        HirExpr::Call { .. } => "Call"@,
        HirExpr::MethodCall { .. } => "MethodCall"@,
        HirExpr::Field { .. } => "Field"@,
        HirExpr::Index { .. } => "Index"@,
        HirExpr::Block(_) => "Block"@,
        HirExpr::If { .. } => "If"@,
        HirExpr::Match { .. } => "Match"@,
        HirExpr::Loop { .. } => "Loop"@,
        HirExpr::StructLit { .. } => "StructLit"@,
        HirExpr::ListLit { .. } => "ListLit"@,
        HirExpr::Assign { .. } => "Assign"@,
    }
}

/// A pattern's own id and the name of its kind.
pub open spec fn pattern_entry(p: HirPattern) -> IdEntry {
    match p {
        HirPattern::Wildcard { id } => (id, "Wildcard"@),
        HirPattern::Ident { id } => (id, "IdentPat"@),
        HirPattern::Literal { id } => (id, "LitPat"@),
        HirPattern::TupleStruct { id, .. } => (id, "TupleStructPat"@),
        HirPattern::Struct { id, .. } => (id, "StructPat"@),
        HirPattern::Or { id, .. } => (id, "OrPat"@),
        HirPattern::Range { id } => (id, "RangePat"@),
    }
}

/// The ids under a pattern, in pre-order.
pub open spec fn pattern_ids(p: HirPattern) -> Seq<IdEntry>
    decreases p,
{
    seq![pattern_entry(p)] + match p {
        HirPattern::TupleStruct { fields, .. } => patterns_ids(fields@),
        HirPattern::Struct { fields, .. } => patterns_ids(fields@),
        HirPattern::Or { alternatives, .. } => patterns_ids(alternatives@),
        _ => Seq::empty(),
    }
}

/// The ids under a run of patterns, in order.
pub open spec fn patterns_ids(s: Seq<HirPattern>) -> Seq<IdEntry>
    decreases s,
{
    if s.len() == 0 {
        Seq::empty()
    } else {
        patterns_ids(s.drop_last()) + pattern_ids(s.last())
    }
}

/// The ids under an expression, in pre-order: its own, then its children's.
pub open spec fn expr_ids(e: HirExpr) -> Seq<IdEntry>
    decreases e, 1int,
{
    seq![(expr_id(e) as usize, expr_kind_text(e))] + expr_children_ids(e)
}

/// The ids under an expression's children, in order.
pub open spec fn expr_children_ids(e: HirExpr) -> Seq<IdEntry>
    decreases e, 0int,
{
    match e {
        HirExpr::Lit { .. } => Seq::empty(),
        HirExpr::Path { .. } => Seq::empty(),
        HirExpr::Bin { left, right, .. } => expr_ids(*left) + expr_ids(*right),
        HirExpr::Unary { operand, .. } => expr_ids(*operand),
        HirExpr::Call { args, .. } => exprs_ids(args@),
        HirExpr::MethodCall { receiver, args, .. } => expr_ids(*receiver) + exprs_ids(args@),
        HirExpr::Field { receiver, .. } => expr_ids(*receiver),
        HirExpr::Index { base, indices, .. } => expr_ids(*base) + exprs_ids(indices@),
        HirExpr::Block(b) => block_ids(b),
        HirExpr::If { condition, then_branch, else_branch, .. } => expr_ids(*condition)
            + block_ids(then_branch) + match else_branch {
            Some(eb) => expr_ids(*eb),
            None => Seq::empty(),
        },
        HirExpr::Match { scrutinee, arms, .. } => expr_ids(*scrutinee) + arms_ids(arms@),
        HirExpr::Loop { kind, .. } => loop_ids(*kind),
        HirExpr::StructLit { fields, .. } => exprs_ids(fields@),
        HirExpr::ListLit { elements, .. } => exprs_ids(elements@),
        HirExpr::Assign { target, value, .. } => target_ids(target) + expr_ids(*value),
    }
}

/// The ids under a run of expressions, in order.
pub open spec fn exprs_ids(s: Seq<HirExpr>) -> Seq<IdEntry>
    decreases s,
{
    if s.len() == 0 {
        Seq::empty()
    } else {
        exprs_ids(s.drop_last()) + expr_ids(s.last())
    }
}

/// The ids under a run of match arms: each arm's pattern, then its body.
pub open spec fn arms_ids(s: Seq<HirArm>) -> Seq<IdEntry>
    decreases s,
{
    if s.len() == 0 {
        Seq::empty()
    } else {
        arms_ids(s.drop_last()) + pattern_ids(s.last().pattern) + expr_ids(s.last().body)
    }
}

/// The ids under an assignment target.
pub open spec fn target_ids(t: HirAssignTarget) -> Seq<IdEntry>
    decreases t,
{
    match t {
        HirAssignTarget::Name => Seq::empty(),
        HirAssignTarget::Field { receiver } => expr_ids(*receiver),
        HirAssignTarget::Index { base, index } => expr_ids(*base) + expr_ids(*index),
    }
}

/// The ids under a loop's parts, an iterator loop's binding first.
pub open spec fn loop_ids(k: HirLoopKind) -> Seq<IdEntry>
    decreases k,
{
    match k {
        HirLoopKind::Infinite(b) => block_ids(b),
        HirLoopKind::Conditional { condition, body } => expr_ids(condition) + block_ids(body),
        HirLoopKind::Iterator { binding_id, iterable, body } => seq![
            (binding_id, "IteratorBinding"@),
        ] + expr_ids(iterable) + block_ids(body),
    }
}

/// The ids under a statement, its own first.
pub open spec fn stmt_ids(st: HirStmt) -> Seq<IdEntry>
    decreases st,
{
    match st {
        HirStmt::Val { id, pattern, value } => seq![(id, "ValStmt"@)] + pattern_ids(pattern)
            + expr_ids(value),
        HirStmt::Var { id, pattern, value } => seq![(id, "VarStmt"@)] + pattern_ids(pattern)
            + expr_ids(value),
        HirStmt::Expr { id, expr } => seq![(id, "ExprStmt"@)] + expr_ids(expr),
        HirStmt::Return { id, value } => seq![(id, "ReturnStmt"@)] + match value {
            Some(v) => expr_ids(v),
            None => Seq::empty(),
        },
        HirStmt::Break { id, value } => seq![(id, "BreakStmt"@)] + match value {
            Some(v) => expr_ids(v),
            None => Seq::empty(),
        },
        HirStmt::Continue { id } => seq![(id, "ContinueStmt"@)],
    }
}

/// The ids under a run of statements, in order.
pub open spec fn stmts_ids(s: Seq<HirStmt>) -> Seq<IdEntry>
    decreases s,
{
    if s.len() == 0 {
        Seq::empty()
    } else {
        stmts_ids(s.drop_last()) + stmt_ids(s.last())
    }
}

/// The ids under a block: its own, its statements', then its tail's.
pub open spec fn block_ids(b: HirBlock) -> Seq<IdEntry>
    decreases b,
{
    seq![(b.id, "Block"@)] + stmts_ids(b.stmts@) + match b.tail {
        Some(t) => expr_ids(*t),
        None => Seq::empty(),
    }
}

/// Append one id with its kind name.
fn push_entry(ids: &mut Vec<(usize, String)>, id: usize, name: &str)
    ensures
        entries_view(final(ids)@) == entries_view(old(ids)@).push((id, name@)),
{
    ids.push((id, String::from_str(name)));
    proof {
        assert(entries_view(ids@) =~= entries_view(old(ids)@).push((id, name@)));
    }
}

/// An expression's own id.
fn expr_id_of(e: &HirExpr) -> (r: usize)
    ensures
        r == expr_id(*e),
{
    match e {
        HirExpr::Lit { id } => *id,
        HirExpr::Path { id } => *id,
        HirExpr::Bin { id, .. } => *id,
        HirExpr::Unary { id, .. } => *id,
        HirExpr::Call { id, .. } => *id,
        HirExpr::MethodCall { id, .. } => *id,
        HirExpr::Field { id, .. } => *id,
        HirExpr::Index { id, .. } => *id,
        HirExpr::Block(b) => b.id,
        HirExpr::If { id, .. } => *id,
        HirExpr::Match { id, .. } => *id,
        HirExpr::Loop { id, .. } => *id,
        HirExpr::StructLit { id, .. } => *id,
        HirExpr::ListLit { id, .. } => *id,
        HirExpr::Assign { id, .. } => *id,
    }
}

/// The name of an expression's kind.
pub fn expr_kind_name(e: &HirExpr) -> (r: &'static str)
    ensures
        r@ == expr_kind_text(*e),
{
    match e {
        HirExpr::Lit { .. } => "Lit",
        HirExpr::Path { .. } => "Path",
        HirExpr::Bin { .. } => "Bin",
        HirExpr::Unary { .. } => "Unary",
        HirExpr::Call { .. } => "Call",
        HirExpr::MethodCall { .. } => "MethodCall",
        HirExpr::Field { .. } => "Field",
        HirExpr::Index { .. } => "Index",
        HirExpr::Block(_) => "Block",
        HirExpr::If { .. } => "If",
        HirExpr::Match { .. } => "Match",
        HirExpr::Loop { .. } => "Loop",
        HirExpr::StructLit { .. } => "StructLit",
        HirExpr::ListLit { .. } => "ListLit",
        HirExpr::Assign { .. } => "Assign",
    }
}

/// Append the ids under a pattern, in pre-order.
pub fn collect_pattern_ids(pat: &HirPattern, ids: &mut Vec<(usize, String)>)
    ensures
        entries_view(final(ids)@) == entries_view(old(ids)@) + pattern_ids(*pat),
    decreases pat, 1int,
{
    let ghost v0 = entries_view(ids@);
    match pat {
        HirPattern::Wildcard { id } => push_entry(ids, *id, "Wildcard"),
        HirPattern::Ident { id } => push_entry(ids, *id, "IdentPat"),
        HirPattern::Literal { id } => push_entry(ids, *id, "LitPat"),
        HirPattern::TupleStruct { id, .. } => push_entry(ids, *id, "TupleStructPat"),
        HirPattern::Struct { id, .. } => push_entry(ids, *id, "StructPat"),
        HirPattern::Or { id, .. } => push_entry(ids, *id, "OrPat"),
        HirPattern::Range { id } => push_entry(ids, *id, "RangePat"),
    }
    let ghost v1 = entries_view(ids@);
    match pat {
        HirPattern::TupleStruct { fields, .. } => collect_patterns_ids(fields, ids),
        HirPattern::Struct { fields, .. } => collect_patterns_ids(fields, ids),
        HirPattern::Or { alternatives, .. } => collect_patterns_ids(alternatives, ids),
        _ => {},
    }
    proof {
        assert(v1 == v0.push(pattern_entry(*pat)));
        match *pat {
            HirPattern::TupleStruct { .. } | HirPattern::Struct { .. } | HirPattern::Or { .. } => {
                assert(entries_view(ids@) =~= v0 + pattern_ids(*pat));
            },
            _ => {
                assert(entries_view(ids@) =~= v0 + pattern_ids(*pat));
            },
        }
    }
}

/// Append the ids under a run of patterns, in order.
fn collect_patterns_ids(ps: &Vec<HirPattern>, ids: &mut Vec<(usize, String)>)
    ensures
        entries_view(final(ids)@) == entries_view(old(ids)@) + patterns_ids(ps@),
    decreases ps, 0int,
{
    let ghost v0 = entries_view(ids@);
    let mut i: usize = 0;
    proof {
        assert(ps@.take(0) =~= Seq::<HirPattern>::empty());
        assert(v0 + patterns_ids(ps@.take(0)) =~= v0);
    }
    while i < ps.len()
        invariant
            i <= ps@.len(),
            entries_view(ids@) == v0 + patterns_ids(ps@.take(i as int)),
        decreases ps.len() - i,
    {
        proof {
            assert(ps@.take(i as int + 1).drop_last() =~= ps@.take(i as int));
            assert(decreases_to!(ps => ps@[i as int])) by {
                assert(decreases_to!(ps => ps@));
            }
        }
        collect_pattern_ids(&ps[i], ids);
        proof {
            assert(v0 + patterns_ids(ps@.take(i as int)) + pattern_ids(ps@[i as int]) =~= v0
                + patterns_ids(ps@.take(i as int + 1)));
        }
        i = i + 1;
    }
    proof {
        assert(ps@.take(ps@.len() as int) =~= ps@);
    }
}

/// Append the ids under an expression, in pre-order: its own with its kind's
/// name, then its children's.
pub fn collect_expr_ids(expr: &HirExpr, ids: &mut Vec<(usize, String)>)
    ensures
        entries_view(final(ids)@) == entries_view(old(ids)@) + expr_ids(*expr),
    decreases expr, 1int,
{
    let ghost v0 = entries_view(ids@);
    push_entry(ids, expr_id_of(expr), expr_kind_name(expr));
    collect_expr_children(expr, ids);
    proof {
        assert(v0.push((expr_id(*expr) as usize, expr_kind_text(*expr))) + expr_children_ids(*expr)
            =~= v0 + expr_ids(*expr));
    }
}

/// Append the ids under a run of expressions, in order.
fn collect_exprs_ids(es: &Vec<HirExpr>, ids: &mut Vec<(usize, String)>)
    ensures
        entries_view(final(ids)@) == entries_view(old(ids)@) + exprs_ids(es@),
    decreases es, 2int,
{
    let ghost v0 = entries_view(ids@);
    let mut i: usize = 0;
    proof {
        assert(es@.take(0) =~= Seq::<HirExpr>::empty());
        assert(v0 + exprs_ids(es@.take(0)) =~= v0);
    }
    while i < es.len()
        invariant
            i <= es@.len(),
            entries_view(ids@) == v0 + exprs_ids(es@.take(i as int)),
        decreases es.len() - i,
    {
        proof {
            assert(es@.take(i as int + 1).drop_last() =~= es@.take(i as int));
            assert(decreases_to!(es => es@[i as int])) by {
                assert(decreases_to!(es => es@));
            }
        }
        collect_expr_ids(&es[i], ids);
        proof {
            assert(v0 + exprs_ids(es@.take(i as int)) + expr_ids(es@[i as int]) =~= v0 + exprs_ids(
                es@.take(i as int + 1),
            ));
        }
        i = i + 1;
    }
    proof {
        assert(es@.take(es@.len() as int) =~= es@);
    }
}

/// Append the ids under a run of match arms: each arm's pattern, then its
/// body.
fn collect_arms_ids(arms: &Vec<HirArm>, ids: &mut Vec<(usize, String)>)
    ensures
        entries_view(final(ids)@) == entries_view(old(ids)@) + arms_ids(arms@),
    decreases arms, 2int,
{
    let ghost v0 = entries_view(ids@);
    let mut i: usize = 0;
    proof {
        assert(arms@.take(0) =~= Seq::<HirArm>::empty());
        assert(v0 + arms_ids(arms@.take(0)) =~= v0);
    }
    while i < arms.len()
        invariant
            i <= arms@.len(),
            entries_view(ids@) == v0 + arms_ids(arms@.take(i as int)),
        decreases arms.len() - i,
    {
        proof {
            assert(arms@.take(i as int + 1).drop_last() =~= arms@.take(i as int));
            assert(decreases_to!(arms => arms@[i as int])) by {
                assert(decreases_to!(arms => arms@));
            }
        }
        let arm = &arms[i];
        collect_pattern_ids(&arm.pattern, ids);
        collect_expr_ids(&arm.body, ids);
        proof {
            assert(v0 + arms_ids(arms@.take(i as int)) + pattern_ids(arm.pattern) + expr_ids(
                arm.body,
            ) =~= v0 + arms_ids(arms@.take(i as int + 1)));
        }
        i = i + 1;
    }
    proof {
        assert(arms@.take(arms@.len() as int) =~= arms@);
    }
}

/// Append the ids under an assignment target.
fn collect_assign_target_ids(target: &HirAssignTarget, ids: &mut Vec<(usize, String)>)
    ensures
        entries_view(final(ids)@) == entries_view(old(ids)@) + target_ids(*target),
    decreases target, 2int,
{
    let ghost v0 = entries_view(ids@);
    match target {
        HirAssignTarget::Name => {
            proof {
                assert(v0 + target_ids(*target) =~= v0);
            }
        },
        HirAssignTarget::Field { receiver } => collect_expr_ids(receiver, ids),
        HirAssignTarget::Index { base, index } => {
            collect_expr_ids(base, ids);
            collect_expr_ids(index, ids);
            proof {
                assert(v0 + expr_ids(**base) + expr_ids(**index) =~= v0 + target_ids(*target));
            }
        },
    }
}

/// Append the ids under a loop's parts, an iterator loop's binding first.
fn collect_loop_ids(kind: &HirLoopKind, ids: &mut Vec<(usize, String)>)
    ensures
        entries_view(final(ids)@) == entries_view(old(ids)@) + loop_ids(*kind),
    decreases kind, 2int,
{
    let ghost v0 = entries_view(ids@);
    match kind {
        HirLoopKind::Infinite(b) => collect_block_ids(b, ids),
        HirLoopKind::Conditional { condition, body } => {
            collect_expr_ids(condition, ids);
            collect_block_ids(body, ids);
            proof {
                assert(v0 + expr_ids(*condition) + block_ids(*body) =~= v0 + loop_ids(*kind));
            }
        },
        HirLoopKind::Iterator { binding_id, iterable, body } => {
            push_entry(ids, *binding_id, "IteratorBinding");
            collect_expr_ids(iterable, ids);
            collect_block_ids(body, ids);
            proof {
                assert(v0.push((*binding_id, "IteratorBinding"@)) + expr_ids(*iterable) + block_ids(
                    *body,
                ) =~= v0 + loop_ids(*kind));
            }
        },
    }
}

/// Append the ids under a statement, its own first.
pub fn collect_stmt_ids(stmt: &HirStmt, ids: &mut Vec<(usize, String)>)
    ensures
        entries_view(final(ids)@) == entries_view(old(ids)@) + stmt_ids(*stmt),
    decreases stmt, 2int,
{
    let ghost v0 = entries_view(ids@);
    match stmt {
        HirStmt::Val { id, pattern, value } => {
            push_entry(ids, *id, "ValStmt");
            collect_pattern_ids(pattern, ids);
            collect_expr_ids(value, ids);
            proof {
                assert(v0.push((*id, "ValStmt"@)) + pattern_ids(*pattern) + expr_ids(*value)
                    =~= v0 + stmt_ids(*stmt));
            }
        },
        HirStmt::Var { id, pattern, value } => {
            push_entry(ids, *id, "VarStmt");
            collect_pattern_ids(pattern, ids);
            collect_expr_ids(value, ids);
            proof {
                assert(v0.push((*id, "VarStmt"@)) + pattern_ids(*pattern) + expr_ids(*value)
                    =~= v0 + stmt_ids(*stmt));
            }
        },
        HirStmt::Expr { id, expr } => {
            push_entry(ids, *id, "ExprStmt");
            collect_expr_ids(expr, ids);
            proof {
                assert(v0.push((*id, "ExprStmt"@)) + expr_ids(*expr) =~= v0 + stmt_ids(*stmt));
            }
        },
        HirStmt::Return { id, value } => {
            push_entry(ids, *id, "ReturnStmt");
            let ghost v1 = entries_view(ids@);
            match value {
                Some(v) => collect_expr_ids(v, ids),
                None => {},
            }
            proof {
                assert(entries_view(ids@) =~= v0 + stmt_ids(*stmt));
            }
        },
        HirStmt::Break { id, value } => {
            push_entry(ids, *id, "BreakStmt");
            let ghost v1 = entries_view(ids@);
            match value {
                Some(v) => collect_expr_ids(v, ids),
                None => {},
            }
            proof {
                assert(entries_view(ids@) =~= v0 + stmt_ids(*stmt));
            }
        },
        HirStmt::Continue { id } => {
            push_entry(ids, *id, "ContinueStmt");
            proof {
                assert(entries_view(ids@) =~= v0 + stmt_ids(*stmt));
            }
        },
    }
}

/// Append the ids under a block: its own, its statements', then its tail's.
pub fn collect_block_ids(block: &HirBlock, ids: &mut Vec<(usize, String)>)
    ensures
        entries_view(final(ids)@) == entries_view(old(ids)@) + block_ids(*block),
    decreases block, 2int,
{
    let ghost v0 = entries_view(ids@);
    push_entry(ids, block.id, "Block");
    let ghost v1 = entries_view(ids@);
    let mut i: usize = 0;
    proof {
        assert(block.stmts@.take(0) =~= Seq::<HirStmt>::empty());
        assert(v1 + stmts_ids(block.stmts@.take(0)) =~= v1);
    }
    while i < block.stmts.len()
        invariant
            i <= block.stmts@.len(),
            entries_view(ids@) == v1 + stmts_ids(block.stmts@.take(i as int)),
        decreases block.stmts.len() - i,
    {
        proof {
            assert(block.stmts@.take(i as int + 1).drop_last() =~= block.stmts@.take(i as int));
            assert(decreases_to!(block => block.stmts@[i as int])) by {
                assert(decreases_to!(block => block.stmts));
                assert(decreases_to!(block.stmts => block.stmts@));
            }
        }
        collect_stmt_ids(&block.stmts[i], ids);
        proof {
            assert(v1 + stmts_ids(block.stmts@.take(i as int)) + stmt_ids(block.stmts@[i as int])
                =~= v1 + stmts_ids(block.stmts@.take(i as int + 1)));
        }
        i = i + 1;
    }
    proof {
        assert(block.stmts@.take(block.stmts@.len() as int) =~= block.stmts@);
    }
    let ghost v2 = entries_view(ids@);
    match &block.tail {
        Some(t) => collect_expr_ids(t, ids),
        None => {},
    }
    proof {
        assert(entries_view(ids@) =~= v0 + block_ids(*block));
    }
}

/// Append the ids under an expression's children, in order.
pub fn collect_expr_children(expr: &HirExpr, ids: &mut Vec<(usize, String)>)
    ensures
        entries_view(final(ids)@) == entries_view(old(ids)@) + expr_children_ids(*expr),
    decreases expr, 0int,
{
    let ghost v0 = entries_view(ids@);
    match expr {
        HirExpr::Lit { .. } | HirExpr::Path { .. } => {},
        HirExpr::Bin { left, right, .. } => {
            collect_expr_ids(left, ids);
            collect_expr_ids(right, ids);
        },
        HirExpr::Unary { operand, .. } => collect_expr_ids(operand, ids),
        HirExpr::Call { args, .. } => collect_exprs_ids(args, ids),
        HirExpr::MethodCall { receiver, args, .. } => {
            collect_expr_ids(receiver, ids);
            collect_exprs_ids(args, ids);
        },
        HirExpr::Field { receiver, .. } => collect_expr_ids(receiver, ids),
        HirExpr::Index { base, indices, .. } => {
            collect_expr_ids(base, ids);
            collect_exprs_ids(indices, ids);
        },
        HirExpr::Block(b) => collect_block_ids(b, ids),
        HirExpr::If { condition, then_branch, else_branch, .. } => {
            collect_expr_ids(condition, ids);
            collect_block_ids(then_branch, ids);
            match else_branch {
                Some(eb) => collect_expr_ids(eb, ids),
                None => {},
            }
        },
        HirExpr::Match { scrutinee, arms, .. } => {
            collect_expr_ids(scrutinee, ids);
            collect_arms_ids(arms, ids);
        },
        HirExpr::Loop { kind, .. } => collect_loop_ids(kind, ids),
        HirExpr::StructLit { fields, .. } => collect_exprs_ids(fields, ids),
        HirExpr::ListLit { elements, .. } => collect_exprs_ids(elements, ids),
        HirExpr::Assign { target, value, .. } => {
            collect_assign_target_ids(target, ids);
            collect_expr_ids(value, ids);
        },
    }
    proof {
        assert(entries_view(ids@) =~= v0 + expr_children_ids(*expr));
    }
}

} // verus!
