//! What the rewriting pass guarantees of its output, stated as containment
//! scans over the tree and proved for every input block.
//!
//! Two statements are made of a source block (one holding no output-only
//! forms). First, the pass's output carries a compile-time diagnostic exactly
//! when the block holds a rejected construct — a macro invocation in
//! statement or expression position, an attribute on a rewritten node, or an
//! `await` in a synchronous generator. Second, when nothing is rejected, no
//! suspension syntax survives in any position the pass rewrites: every
//! `yield` and `await` has become its explicit suspension operation.

use crate::ast::{Arm, ArmList, Block, Expr, ExprList, FieldList, FieldValue, Local, Stmt, StmtList, Ty};
use crate::input::{spec_expand, Input};
use crate::trans::{
    banned_arm, banned_arms, banned_block, banned_expr, banned_exprs, banned_field, banned_fields,
    banned_local, banned_opt, banned_stmt, banned_stmts, trans_arm, trans_arms, trans_block,
    trans_expr, trans_exprs, trans_field, trans_fields, trans_local, trans_opt, trans_stmt,
    trans_stmts,
};
use vstd::prelude::*;

verus! {

/// The classes of nodes the rewriter's guarantees speak of.
pub enum NodeSet {
    /// Compile-time diagnostics.
    Diagnostics,
    /// What a fully lowered block no longer holds in rewritten positions:
    /// source suspension syntax, rejected macro and unparsed nodes, and
    /// diagnostics.
    Unlowered,
    /// Forms that only the rewriter's output holds; a source block has none.
    OutputForms,
}

/// Whether one expression node belongs to a class.
pub open spec fn expr_in_set(e: Expr, s: NodeSet) -> bool {
    match s {
        NodeSet::Diagnostics => e is Diag,
        NodeSet::Unlowered => e is Yield || e is Await || e is Macro || e is Verbatim
            || e is Diag,
        NodeSet::OutputForms => e is Suspend || e is AwaitLowered || e is Diag,
    }
}

/// Whether one statement node belongs to a class.
pub open spec fn stmt_in_set(st: Stmt, s: NodeSet) -> bool {
    match s {
        NodeSet::Unlowered => st is MacroCall,
        _ => false,
    }
}

/// Whether any node anywhere in the expression belongs to the class.
pub open spec fn expr_contains(e: Expr, s: NodeSet) -> bool
    decreases e,
{
    expr_in_set(e, s) || match e {
        Expr::Array { elems, .. } => exprs_contain(elems, s),
        Expr::Assign { left, right, .. } => expr_contains(*left, s) || expr_contains(*right, s),
        Expr::Async { .. } => false,
        Expr::Binary { left, right, .. } => expr_contains(*left, s) || expr_contains(*right, s),
        Expr::Block { block, .. } => block_contains(block, s),
        Expr::Break { expr, .. } => opt_contains(expr, s),
        Expr::Call { func, args, .. } => expr_contains(*func, s) || exprs_contain(args, s),
        Expr::Cast { expr, .. } => expr_contains(*expr, s),
        Expr::Closure { .. } => false,
        Expr::Const { block, .. } => block_contains(block, s),
        Expr::Continue { .. } => false,
        Expr::Field { base, .. } => expr_contains(*base, s),
        Expr::ForLoop { expr, body, .. } => expr_contains(*expr, s) || block_contains(body, s),
        Expr::Group { expr, .. } => expr_contains(*expr, s),
        Expr::If { cond, then_branch, else_branch, .. } => expr_contains(*cond, s)
            || block_contains(then_branch, s) || opt_contains(else_branch, s),
        Expr::Index { expr, index, .. } => expr_contains(*expr, s) || expr_contains(*index, s),
        Expr::Infer { .. } => false,
        Expr::Let { expr, .. } => expr_contains(*expr, s),
        Expr::Lit { .. } => false,
        Expr::Loop { body, .. } => block_contains(body, s),
        Expr::Macro => false,
        Expr::Match { expr, arms, .. } => expr_contains(*expr, s) || arms_contain(arms, s),
        Expr::MethodCall { receiver, args, .. } => expr_contains(*receiver, s) || exprs_contain(
            args,
            s,
        ),
        Expr::Paren { expr, .. } => expr_contains(*expr, s),
        Expr::Path { .. } => false,
        Expr::Range { start, end, .. } => opt_contains(start, s) || opt_contains(end, s),
        Expr::RawAddr { expr, .. } => expr_contains(*expr, s),
        Expr::Reference { expr, .. } => expr_contains(*expr, s),
        Expr::Repeat { expr, len, .. } => expr_contains(*expr, s) || expr_contains(*len, s),
        Expr::Return { expr, .. } => opt_contains(expr, s),
        Expr::Struct { fields, rest, .. } => fields_contain(fields, s) || opt_contains(rest, s),
        Expr::Try { expr, .. } => expr_contains(*expr, s),
        Expr::TryBlock { block, .. } => block_contains(block, s),
        Expr::Tuple { elems, .. } => exprs_contain(elems, s),
        Expr::Unary { expr, .. } => expr_contains(*expr, s),
        Expr::Unsafe { block, .. } => block_contains(block, s),
        Expr::Verbatim => false,
        Expr::While { cond, body, .. } => expr_contains(*cond, s) || block_contains(body, s),
        Expr::Await { base, .. } => expr_contains(*base, s),
        Expr::Yield { expr } => opt_contains(expr, s),
        Expr::Suspend { arg, .. } => opt_contains(arg, s),
        Expr::AwaitLowered { base, .. } => expr_contains(*base, s),
        Expr::Diag(..) => false,
    }
}

/// Whether an optional expression contains a node of the class.
pub open spec fn opt_contains(o: Option<Box<Expr>>, s: NodeSet) -> bool
    decreases o,
{
    match o {
        None => false,
        Some(e) => expr_contains(*e, s),
    }
}

/// Whether any expression of a sequence contains a node of the class.
pub open spec fn exprs_contain(l: ExprList, s: NodeSet) -> bool
    decreases l,
{
    match l {
        ExprList::Nil => false,
        ExprList::Cons(e, rest) => expr_contains(*e, s) || exprs_contain(*rest, s),
    }
}

/// Whether a block contains a node of the class.
pub open spec fn block_contains(b: Block, s: NodeSet) -> bool
    decreases b,
{
    stmts_contain(b.stmts, s)
}

/// Whether any statement of a sequence contains a node of the class.
pub open spec fn stmts_contain(l: StmtList, s: NodeSet) -> bool
    decreases l,
{
    match l {
        StmtList::Nil => false,
        StmtList::Cons(st, rest) => stmt_contains(st, s) || stmts_contain(*rest, s),
    }
}

/// Whether a statement contains a node of the class.
pub open spec fn stmt_contains(st: Stmt, s: NodeSet) -> bool
    decreases st,
{
    stmt_in_set(st, s) || match st {
        Stmt::Local(local) => local_contains(local, s),
        Stmt::Item(..) => false,
        Stmt::Expr(e, ..) => expr_contains(*e, s),
        Stmt::MacroCall => false,
    }
}

/// Whether a `let` binding's initializer contains a node of the class.
pub open spec fn local_contains(l: Local, s: NodeSet) -> bool
    decreases l,
{
    match l.init {
        None => false,
        Some(init) => expr_contains(*init.expr, s) || opt_contains(init.diverge, s),
    }
}

/// Whether any arm of a `match` contains a node of the class.
pub open spec fn arms_contain(l: ArmList, s: NodeSet) -> bool
    decreases l,
{
    match l {
        ArmList::Nil => false,
        ArmList::Cons(a, rest) => arm_contains(a, s) || arms_contain(*rest, s),
    }
}

/// Whether a match arm contains a node of the class.
pub open spec fn arm_contains(a: Arm, s: NodeSet) -> bool
    decreases a,
{
    expr_contains(*a.body, s)
}

/// Whether any field of a struct literal contains a node of the class.
pub open spec fn fields_contain(l: FieldList, s: NodeSet) -> bool
    decreases l,
{
    match l {
        FieldList::Nil => false,
        FieldList::Cons(f, rest) => field_contains(f, s) || fields_contain(*rest, s),
    }
}

/// Whether a struct-literal field contains a node of the class.
pub open spec fn field_contains(f: FieldValue, s: NodeSet) -> bool
    decreases f,
{
    expr_contains(*f.value, s)
}

/// A block as a generator definition carries it: no output-only forms in it.
pub open spec fn is_source_block(b: Block) -> bool {
    !block_contains(b, NodeSet::OutputForms)
}

/// Whether a node of the class stands in a position the pass rewrites. This
/// scan walks exactly where the pass walks: it skips the places the pass
/// carries over verbatim — the target of an assignment, the length of an
/// array-repeat, the operand of an `await`, and the opaque scopes (nested
/// items, closures, async blocks).
pub open spec fn expr_reaches(e: Expr, s: NodeSet) -> bool
    decreases e,
{
    expr_in_set(e, s) || match e {
        Expr::Array { elems, .. } => exprs_reach(elems, s),
        Expr::Assign { right, .. } => expr_reaches(*right, s),
        Expr::Async { .. } => false,
        Expr::Binary { left, right, .. } => expr_reaches(*left, s) || expr_reaches(*right, s),
        Expr::Block { block, .. } => block_reaches(block, s),
        Expr::Break { expr, .. } => opt_reaches(expr, s),
        Expr::Call { func, args, .. } => expr_reaches(*func, s) || exprs_reach(args, s),
        Expr::Cast { expr, .. } => expr_reaches(*expr, s),
        Expr::Closure { .. } => false,
        Expr::Const { block, .. } => block_reaches(block, s),
        Expr::Continue { .. } => false,
        Expr::Field { base, .. } => expr_reaches(*base, s),
        Expr::ForLoop { expr, body, .. } => expr_reaches(*expr, s) || block_reaches(body, s),
        Expr::Group { expr, .. } => expr_reaches(*expr, s),
        Expr::If { cond, then_branch, else_branch, .. } => expr_reaches(*cond, s)
            || block_reaches(then_branch, s) || opt_reaches(else_branch, s),
        Expr::Index { expr, index, .. } => expr_reaches(*expr, s) || expr_reaches(*index, s),
        Expr::Infer { .. } => false,
        Expr::Let { expr, .. } => expr_reaches(*expr, s),
        Expr::Lit { .. } => false,
        Expr::Loop { body, .. } => block_reaches(body, s),
        Expr::Macro => false,
        Expr::Match { expr, arms, .. } => expr_reaches(*expr, s) || arms_reach(arms, s),
        Expr::MethodCall { receiver, args, .. } => expr_reaches(*receiver, s) || exprs_reach(
            args,
            s,
        ),
        Expr::Paren { expr, .. } => expr_reaches(*expr, s),
        Expr::Path { .. } => false,
        Expr::Range { start, end, .. } => opt_reaches(start, s) || opt_reaches(end, s),
        Expr::RawAddr { expr, .. } => expr_reaches(*expr, s),
        Expr::Reference { expr, .. } => expr_reaches(*expr, s),
        Expr::Repeat { expr, .. } => expr_reaches(*expr, s),
        Expr::Return { expr, .. } => opt_reaches(expr, s),
        Expr::Struct { fields, rest, .. } => fields_reach(fields, s) || opt_reaches(rest, s),
        Expr::Try { expr, .. } => expr_reaches(*expr, s),
        Expr::TryBlock { block, .. } => block_reaches(block, s),
        Expr::Tuple { elems, .. } => exprs_reach(elems, s),
        Expr::Unary { expr, .. } => expr_reaches(*expr, s),
        Expr::Unsafe { block, .. } => block_reaches(block, s),
        Expr::Verbatim => false,
        Expr::While { cond, body, .. } => expr_reaches(*cond, s) || block_reaches(body, s),
        Expr::Await { .. } => false,
        Expr::Yield { expr } => opt_reaches(expr, s),
        Expr::Suspend { arg, .. } => opt_reaches(arg, s),
        Expr::AwaitLowered { .. } => false,
        Expr::Diag(..) => false,
    }
}

/// `expr_reaches` over an optional expression.
pub open spec fn opt_reaches(o: Option<Box<Expr>>, s: NodeSet) -> bool
    decreases o,
{
    match o {
        None => false,
        Some(e) => expr_reaches(*e, s),
    }
}

/// `expr_reaches` over a sequence of expressions.
pub open spec fn exprs_reach(l: ExprList, s: NodeSet) -> bool
    decreases l,
{
    match l {
        ExprList::Nil => false,
        ExprList::Cons(e, rest) => expr_reaches(*e, s) || exprs_reach(*rest, s),
    }
}

/// `expr_reaches` over a block.
pub open spec fn block_reaches(b: Block, s: NodeSet) -> bool
    decreases b,
{
    stmts_reach(b.stmts, s)
}

/// `expr_reaches` over a sequence of statements.
pub open spec fn stmts_reach(l: StmtList, s: NodeSet) -> bool
    decreases l,
{
    match l {
        StmtList::Nil => false,
        StmtList::Cons(st, rest) => stmt_reaches(st, s) || stmts_reach(*rest, s),
    }
}

/// `expr_reaches` over a statement.
pub open spec fn stmt_reaches(st: Stmt, s: NodeSet) -> bool
    decreases st,
{
    stmt_in_set(st, s) || match st {
        Stmt::Local(local) => local_reaches(local, s),
        Stmt::Item(..) => false,
        Stmt::Expr(e, ..) => expr_reaches(*e, s),
        Stmt::MacroCall => false,
    }
}

/// `expr_reaches` over a `let` binding.
pub open spec fn local_reaches(l: Local, s: NodeSet) -> bool
    decreases l,
{
    match l.init {
        None => false,
        Some(init) => expr_reaches(*init.expr, s) || opt_reaches(init.diverge, s),
    }
}

/// `expr_reaches` over the arms of a `match`.
pub open spec fn arms_reach(l: ArmList, s: NodeSet) -> bool
    decreases l,
{
    match l {
        ArmList::Nil => false,
        ArmList::Cons(a, rest) => expr_reaches(*a.body, s) || arms_reach(*rest, s),
    }
}

/// `expr_reaches` over the fields of a struct literal.
pub open spec fn fields_reach(l: FieldList, s: NodeSet) -> bool
    decreases l,
{
    match l {
        FieldList::Nil => false,
        FieldList::Cons(f, rest) => expr_reaches(*f.value, s) || fields_reach(*rest, s),
    }
}

/// Every diagnostic is an output-only form, so a tree free of output forms is
/// free of diagnostics.
proof fn lemma_expr_diag_mono(e: Expr)
    ensures
        expr_contains(e, NodeSet::Diagnostics) ==> expr_contains(e, NodeSet::OutputForms),
    decreases e,
{
    match e {
        Expr::Array { elems, .. } => lemma_exprs_diag_mono(elems),
        Expr::Assign { left, right, .. } => {
            lemma_expr_diag_mono(*left);
            lemma_expr_diag_mono(*right);
        },
        Expr::Binary { left, right, .. } => {
            lemma_expr_diag_mono(*left);
            lemma_expr_diag_mono(*right);
        },
        Expr::Block { block, .. } => lemma_block_diag_mono(block),
        Expr::Break { expr, .. } => lemma_opt_diag_mono(expr),
        Expr::Call { func, args, .. } => {
            lemma_expr_diag_mono(*func);
            lemma_exprs_diag_mono(args);
        },
        Expr::Cast { expr, .. } => lemma_expr_diag_mono(*expr),
        Expr::Const { block, .. } => lemma_block_diag_mono(block),
        Expr::Field { base, .. } => lemma_expr_diag_mono(*base),
        Expr::ForLoop { expr, body, .. } => {
            lemma_expr_diag_mono(*expr);
            lemma_block_diag_mono(body);
        },
        Expr::Group { expr, .. } => lemma_expr_diag_mono(*expr),
        Expr::If { cond, then_branch, else_branch, .. } => {
            lemma_expr_diag_mono(*cond);
            lemma_block_diag_mono(then_branch);
            lemma_opt_diag_mono(else_branch);
        },
        Expr::Index { expr, index, .. } => {
            lemma_expr_diag_mono(*expr);
            lemma_expr_diag_mono(*index);
        },
        Expr::Let { expr, .. } => lemma_expr_diag_mono(*expr),
        Expr::Loop { body, .. } => lemma_block_diag_mono(body),
        Expr::Match { expr, arms, .. } => {
            lemma_expr_diag_mono(*expr);
            lemma_arms_diag_mono(arms);
        },
        Expr::MethodCall { receiver, args, .. } => {
            lemma_expr_diag_mono(*receiver);
            lemma_exprs_diag_mono(args);
        },
        Expr::Paren { expr, .. } => lemma_expr_diag_mono(*expr),
        Expr::Range { start, end, .. } => {
            lemma_opt_diag_mono(start);
            lemma_opt_diag_mono(end);
        },
        Expr::RawAddr { expr, .. } => lemma_expr_diag_mono(*expr),
        Expr::Reference { expr, .. } => lemma_expr_diag_mono(*expr),
        Expr::Repeat { expr, len, .. } => {
            lemma_expr_diag_mono(*expr);
            lemma_expr_diag_mono(*len);
        },
        Expr::Return { expr, .. } => lemma_opt_diag_mono(expr),
        Expr::Struct { fields, rest, .. } => {
            lemma_fields_diag_mono(fields);
            lemma_opt_diag_mono(rest);
        },
        Expr::Try { expr, .. } => lemma_expr_diag_mono(*expr),
        Expr::TryBlock { block, .. } => lemma_block_diag_mono(block),
        Expr::Tuple { elems, .. } => lemma_exprs_diag_mono(elems),
        Expr::Unary { expr, .. } => lemma_expr_diag_mono(*expr),
        Expr::Unsafe { block, .. } => lemma_block_diag_mono(block),
        Expr::While { cond, body, .. } => {
            lemma_expr_diag_mono(*cond);
            lemma_block_diag_mono(body);
        },
        Expr::Await { base, .. } => lemma_expr_diag_mono(*base),
        Expr::Yield { expr } => lemma_opt_diag_mono(expr),
        Expr::Suspend { arg, .. } => lemma_opt_diag_mono(arg),
        Expr::AwaitLowered { base, .. } => lemma_expr_diag_mono(*base),
        _ => {},
    }
}

proof fn lemma_opt_diag_mono(o: Option<Box<Expr>>)
    ensures
        opt_contains(o, NodeSet::Diagnostics) ==> opt_contains(o, NodeSet::OutputForms),
    decreases o,
{
    match o {
        None => {},
        Some(e) => lemma_expr_diag_mono(*e),
    }
}

proof fn lemma_exprs_diag_mono(l: ExprList)
    ensures
        exprs_contain(l, NodeSet::Diagnostics) ==> exprs_contain(l, NodeSet::OutputForms),
    decreases l,
{
    match l {
        ExprList::Nil => {},
        ExprList::Cons(e, rest) => {
            lemma_expr_diag_mono(*e);
            lemma_exprs_diag_mono(*rest);
        },
    }
}

proof fn lemma_block_diag_mono(b: Block)
    ensures
        block_contains(b, NodeSet::Diagnostics) ==> block_contains(b, NodeSet::OutputForms),
    decreases b,
{
    lemma_stmts_diag_mono(b.stmts);
}

proof fn lemma_stmts_diag_mono(l: StmtList)
    ensures
        stmts_contain(l, NodeSet::Diagnostics) ==> stmts_contain(l, NodeSet::OutputForms),
    decreases l,
{
    match l {
        StmtList::Nil => {},
        StmtList::Cons(st, rest) => {
            lemma_stmt_diag_mono(st);
            lemma_stmts_diag_mono(*rest);
        },
    }
}

proof fn lemma_stmt_diag_mono(st: Stmt)
    ensures
        stmt_contains(st, NodeSet::Diagnostics) ==> stmt_contains(st, NodeSet::OutputForms),
    decreases st,
{
    match st {
        Stmt::Local(local) => lemma_local_diag_mono(local),
        Stmt::Expr(e, ..) => lemma_expr_diag_mono(*e),
        _ => {},
    }
}

proof fn lemma_local_diag_mono(l: Local)
    ensures
        local_contains(l, NodeSet::Diagnostics) ==> local_contains(l, NodeSet::OutputForms),
    decreases l,
{
    match l.init {
        None => {},
        Some(init) => {
            lemma_expr_diag_mono(*init.expr);
            lemma_opt_diag_mono(init.diverge);
        },
    }
}

proof fn lemma_arms_diag_mono(l: ArmList)
    ensures
        arms_contain(l, NodeSet::Diagnostics) ==> arms_contain(l, NodeSet::OutputForms),
    decreases l,
{
    match l {
        ArmList::Nil => {},
        ArmList::Cons(a, rest) => {
            lemma_expr_diag_mono(*a.body);
            lemma_arms_diag_mono(*rest);
            assert(arm_contains(a, NodeSet::Diagnostics) ==> arm_contains(
                a,
                NodeSet::OutputForms,
            ));
        },
    }
}

proof fn lemma_fields_diag_mono(l: FieldList)
    ensures
        fields_contain(l, NodeSet::Diagnostics) ==> fields_contain(l, NodeSet::OutputForms),
    decreases l,
{
    match l {
        FieldList::Nil => {},
        FieldList::Cons(f, rest) => {
            lemma_expr_diag_mono(*f.value);
            lemma_fields_diag_mono(*rest);
            assert(field_contains(f, NodeSet::Diagnostics) ==> field_contains(
                f,
                NodeSet::OutputForms,
            ));
        },
    }
}

/// The induction behind the two rewriter guarantees, per expression.
proof fn lemma_trans_expr(e: Expr, out: Ty, is_async: bool)
    requires
        !expr_contains(e, NodeSet::OutputForms),
    ensures
        expr_contains(trans_expr(e, out, is_async), NodeSet::Diagnostics) <==> banned_expr(
            e,
            is_async,
        ),
        !banned_expr(e, is_async) ==> !expr_reaches(trans_expr(e, out, is_async), NodeSet::Unlowered),
    decreases e,
{
    match e {
        Expr::Array { elems, .. } => lemma_trans_exprs(elems, out, is_async),
        Expr::Assign { left, right, .. } => {
            lemma_expr_diag_mono(*left);
            lemma_trans_expr(*right, out, is_async);
        },
        Expr::Binary { left, right, .. } => {
            lemma_trans_expr(*left, out, is_async);
            lemma_trans_expr(*right, out, is_async);
        },
        Expr::Block { block, .. } => lemma_trans_block_inner(block, out, is_async),
        Expr::Break { expr, .. } => lemma_trans_opt(expr, out, is_async),
        Expr::Call { func, args, .. } => {
            lemma_trans_expr(*func, out, is_async);
            lemma_trans_exprs(args, out, is_async);
        },
        Expr::Cast { expr, .. } => lemma_trans_expr(*expr, out, is_async),
        Expr::Const { block, .. } => lemma_trans_block_inner(block, out, is_async),
        Expr::Field { base, .. } => lemma_trans_expr(*base, out, is_async),
        Expr::ForLoop { expr, body, .. } => {
            lemma_trans_expr(*expr, out, is_async);
            lemma_trans_block_inner(body, out, is_async);
        },
        Expr::Group { expr, .. } => lemma_trans_expr(*expr, out, is_async),
        Expr::If { cond, then_branch, else_branch, .. } => {
            lemma_trans_expr(*cond, out, is_async);
            lemma_trans_block_inner(then_branch, out, is_async);
            lemma_trans_opt(else_branch, out, is_async);
        },
        Expr::Index { expr, index, .. } => {
            lemma_trans_expr(*expr, out, is_async);
            lemma_trans_expr(*index, out, is_async);
        },
        Expr::Let { expr, .. } => lemma_trans_expr(*expr, out, is_async),
        Expr::Loop { body, .. } => lemma_trans_block_inner(body, out, is_async),
        Expr::Match { expr, arms, .. } => {
            lemma_trans_expr(*expr, out, is_async);
            lemma_trans_arms(arms, out, is_async);
        },
        Expr::MethodCall { receiver, args, .. } => {
            lemma_trans_expr(*receiver, out, is_async);
            lemma_trans_exprs(args, out, is_async);
        },
        Expr::Paren { expr, .. } => lemma_trans_expr(*expr, out, is_async),
        Expr::Range { start, end, .. } => {
            lemma_trans_opt(start, out, is_async);
            lemma_trans_opt(end, out, is_async);
        },
        Expr::RawAddr { expr, .. } => lemma_trans_expr(*expr, out, is_async),
        Expr::Reference { expr, .. } => lemma_trans_expr(*expr, out, is_async),
        Expr::Repeat { expr, len, .. } => {
            lemma_trans_expr(*expr, out, is_async);
            lemma_expr_diag_mono(*len);
        },
        Expr::Return { expr, .. } => lemma_trans_opt(expr, out, is_async),
        Expr::Struct { fields, rest, .. } => {
            lemma_trans_fields(fields, out, is_async);
            lemma_trans_opt(rest, out, is_async);
        },
        Expr::Try { expr, .. } => lemma_trans_expr(*expr, out, is_async),
        Expr::TryBlock { block, .. } => lemma_trans_block_inner(block, out, is_async),
        Expr::Tuple { elems, .. } => lemma_trans_exprs(elems, out, is_async),
        Expr::Unary { expr, .. } => lemma_trans_expr(*expr, out, is_async),
        Expr::Unsafe { block, .. } => lemma_trans_block_inner(block, out, is_async),
        Expr::While { cond, body, .. } => {
            lemma_trans_expr(*cond, out, is_async);
            lemma_trans_block_inner(body, out, is_async);
        },
        Expr::Await { base, .. } => lemma_expr_diag_mono(*base),
        Expr::Yield { expr } => lemma_trans_opt(expr, out, is_async),
        _ => {},
    }
}

proof fn lemma_trans_opt(o: Option<Box<Expr>>, out: Ty, is_async: bool)
    requires
        !opt_contains(o, NodeSet::OutputForms),
    ensures
        opt_contains(trans_opt(o, out, is_async), NodeSet::Diagnostics) <==> banned_opt(
            o,
            is_async,
        ),
        !banned_opt(o, is_async) ==> !opt_reaches(trans_opt(o, out, is_async), NodeSet::Unlowered),
    decreases o,
{
    match o {
        None => {},
        Some(e) => lemma_trans_expr(*e, out, is_async),
    }
}

proof fn lemma_trans_exprs(l: ExprList, out: Ty, is_async: bool)
    requires
        !exprs_contain(l, NodeSet::OutputForms),
    ensures
        exprs_contain(trans_exprs(l, out, is_async), NodeSet::Diagnostics) <==> banned_exprs(
            l,
            is_async,
        ),
        !banned_exprs(l, is_async) ==> !exprs_reach(
            trans_exprs(l, out, is_async),
            NodeSet::Unlowered,
        ),
    decreases l,
{
    match l {
        ExprList::Nil => {},
        ExprList::Cons(e, rest) => {
            lemma_trans_expr(*e, out, is_async);
            lemma_trans_exprs(*rest, out, is_async);
        },
    }
}

proof fn lemma_trans_block_inner(b: Block, out: Ty, is_async: bool)
    requires
        !block_contains(b, NodeSet::OutputForms),
    ensures
        block_contains(trans_block(b, out, is_async), NodeSet::Diagnostics) <==> banned_block(
            b,
            is_async,
        ),
        !banned_block(b, is_async) ==> !block_reaches(
            trans_block(b, out, is_async),
            NodeSet::Unlowered,
        ),
    decreases b,
{
    lemma_trans_stmts(b.stmts, out, is_async);
}

proof fn lemma_trans_stmts(l: StmtList, out: Ty, is_async: bool)
    requires
        !stmts_contain(l, NodeSet::OutputForms),
    ensures
        stmts_contain(trans_stmts(l, out, is_async), NodeSet::Diagnostics) <==> banned_stmts(
            l,
            is_async,
        ),
        !banned_stmts(l, is_async) ==> !stmts_reach(
            trans_stmts(l, out, is_async),
            NodeSet::Unlowered,
        ),
    decreases l,
{
    match l {
        StmtList::Nil => {},
        StmtList::Cons(st, rest) => {
            lemma_trans_stmt(st, out, is_async);
            lemma_trans_stmts(*rest, out, is_async);
        },
    }
}

proof fn lemma_trans_stmt(st: Stmt, out: Ty, is_async: bool)
    requires
        !stmt_contains(st, NodeSet::OutputForms),
    ensures
        stmt_contains(trans_stmt(st, out, is_async), NodeSet::Diagnostics) <==> banned_stmt(
            st,
            is_async,
        ),
        !banned_stmt(st, is_async) ==> !stmt_reaches(
            trans_stmt(st, out, is_async),
            NodeSet::Unlowered,
        ),
    decreases st,
{
    match st {
        Stmt::Local(local) => lemma_trans_local(local, out, is_async),
        Stmt::Expr(e, ..) => lemma_trans_expr(*e, out, is_async),
        _ => {},
    }
}

proof fn lemma_trans_local(l: Local, out: Ty, is_async: bool)
    requires
        !local_contains(l, NodeSet::OutputForms),
    ensures
        local_contains(trans_local(l, out, is_async), NodeSet::Diagnostics) <==> banned_local(
            l,
            is_async,
        ),
        !banned_local(l, is_async) ==> !local_reaches(
            trans_local(l, out, is_async),
            NodeSet::Unlowered,
        ),
    decreases l,
{
    match l.init {
        None => {},
        Some(init) => {
            lemma_trans_expr(*init.expr, out, is_async);
            lemma_trans_opt(init.diverge, out, is_async);
        },
    }
}

proof fn lemma_trans_arms(l: ArmList, out: Ty, is_async: bool)
    requires
        !arms_contain(l, NodeSet::OutputForms),
    ensures
        arms_contain(trans_arms(l, out, is_async), NodeSet::Diagnostics) <==> banned_arms(
            l,
            is_async,
        ),
        !banned_arms(l, is_async) ==> !arms_reach(trans_arms(l, out, is_async), NodeSet::Unlowered),
    decreases l,
{
    match l {
        ArmList::Nil => {},
        ArmList::Cons(a, rest) => {
            assert(!arm_contains(a, NodeSet::OutputForms));
            lemma_trans_expr(*a.body, out, is_async);
            lemma_trans_arms(*rest, out, is_async);
            assert(arm_contains(trans_arm(a, out, is_async), NodeSet::Diagnostics) <==> banned_arm(
                a,
                is_async,
            ));
        },
    }
}

proof fn lemma_trans_fields(l: FieldList, out: Ty, is_async: bool)
    requires
        !fields_contain(l, NodeSet::OutputForms),
    ensures
        fields_contain(trans_fields(l, out, is_async), NodeSet::Diagnostics) <==> banned_fields(
            l,
            is_async,
        ),
        !banned_fields(l, is_async) ==> !fields_reach(
            trans_fields(l, out, is_async),
            NodeSet::Unlowered,
        ),
    decreases l,
{
    match l {
        FieldList::Nil => {},
        FieldList::Cons(f, rest) => {
            assert(!field_contains(f, NodeSet::OutputForms));
            lemma_trans_expr(*f.value, out, is_async);
            lemma_trans_fields(*rest, out, is_async);
            assert(field_contains(trans_field(f, out, is_async), NodeSet::Diagnostics)
                <==> banned_field(f, is_async));
        },
    }
}

/// The pass rejects a source block exactly when it must: the output carries a
/// compile-time diagnostic if and only if the block holds a macro invocation
/// in statement or expression position, an attribute on a rewritten node,
/// unparseable tokens, or — in a synchronous generator — an `await`.
pub proof fn lemma_rewrite_rejects_iff(b: Block, out: Ty, is_async: bool)
    requires
        is_source_block(b),
    ensures
        block_contains(trans_block(b, out, is_async), NodeSet::Diagnostics) <==> banned_block(
            b,
            is_async,
        ),
{
    lemma_trans_block_inner(b, out, is_async);
}

/// A source block that the pass does not reject is fully lowered: in every
/// position the pass rewrites, the output holds no `yield`, no `await`, no
/// macro invocation, no unparsed tokens and no diagnostic — every suspension
/// is the explicit operation.
pub proof fn lemma_rewrite_lowers(b: Block, out: Ty, is_async: bool)
    requires
        is_source_block(b),
        !banned_block(b, is_async),
    ensures
        !block_reaches(trans_block(b, out, is_async), NodeSet::Unlowered),
        !block_contains(trans_block(b, out, is_async), NodeSet::Diagnostics),
{
    lemma_trans_block_inner(b, out, is_async);
}

/// A definition that constructs does so with a fully lowered body: once the
/// declaration parses and nothing in the body is rejected, the construction's
/// body holds no diagnostic, and no suspension syntax in any rewritten
/// position — every `yield` and `await` has become its explicit suspension
/// operation.
pub proof fn lemma_construction_is_lowered(inp: Input)
    requires
        is_source_block(inp.code),
        !banned_block(inp.code, inp.is_async),
    ensures
        !block_reaches(spec_expand(inp).body, NodeSet::Unlowered),
        !block_contains(spec_expand(inp).body, NodeSet::Diagnostics),
{
    lemma_rewrite_lowers(inp.code, inp.out, inp.is_async);
}

} // verus!
