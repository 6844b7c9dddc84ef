//! The rewriting pass: walk a statement block and replace every `yield` (and,
//! in async mode, every `await`) with its explicit suspension operation,
//! while rejecting constructs that could smuggle suspension syntax past the
//! pass — macro invocations in statement or expression position, attributes
//! on rewritten nodes, and `await` in a synchronous generator.
//!
//! The pass recurses into statement sequences, `if`/`else`, match arms, all
//! loop forms (including the iterated-over expression), nested blocks,
//! `unsafe`/`try`/`const` blocks, and the sub-expression positions of calls,
//! operators, field and index access, struct literals, casts and references.
//! It does not enter nested items, closures or async blocks: those are new
//! scopes of their own.

use crate::ast::{
    Arm, ArmList, Block, DiagKind, Expr, ExprList, FieldList, FieldValue, Local, LocalInit, Stmt,
    StmtList, Ty,
};
use vstd::prelude::*;

verus! {

/// The rewrite of one expression.
pub open spec fn trans_expr(e: Expr, out: Ty, is_async: bool) -> Expr
    decreases e,
{
    match e {
        Expr::Array { attr, elems } => if attr {
            Expr::Diag(DiagKind::AttrForbidden)
        } else {
            Expr::Array { attr, elems: trans_exprs(elems, out, is_async) }
        },
        Expr::Assign { attr, left, right } => if attr {
            Expr::Diag(DiagKind::AttrForbidden)
        } else {
            Expr::Assign { attr, left, right: Box::new(trans_expr(*right, out, is_async)) }
        },
        Expr::Async { attr } => if attr {
            Expr::Diag(DiagKind::AttrForbidden)
        } else {
            Expr::Async { attr }
        },
        Expr::Binary { attr, left, right } => if attr {
            Expr::Diag(DiagKind::AttrForbidden)
        } else {
            Expr::Binary {
                attr,
                left: Box::new(trans_expr(*left, out, is_async)),
                right: Box::new(trans_expr(*right, out, is_async)),
            }
        },
        Expr::Block { attr, block } => if attr {
            Expr::Diag(DiagKind::AttrForbidden)
        } else {
            Expr::Block { attr, block: trans_block(block, out, is_async) }
        },
        Expr::Break { attr, expr } => if attr {
            Expr::Diag(DiagKind::AttrForbidden)
        } else {
            Expr::Break { attr, expr: trans_opt(expr, out, is_async) }
        },
        Expr::Call { attr, func, args } => if attr {
            Expr::Diag(DiagKind::AttrForbidden)
        } else {
            Expr::Call {
                attr,
                func: Box::new(trans_expr(*func, out, is_async)),
                args: trans_exprs(args, out, is_async),
            }
        },
        Expr::Cast { attr, expr } => if attr {
            Expr::Diag(DiagKind::AttrForbidden)
        } else {
            Expr::Cast { attr, expr: Box::new(trans_expr(*expr, out, is_async)) }
        },
        Expr::Closure { attr } => if attr {
            Expr::Diag(DiagKind::AttrForbidden)
        } else {
            Expr::Closure { attr }
        },
        Expr::Const { attr, block } => if attr {
            Expr::Diag(DiagKind::AttrForbidden)
        } else {
            Expr::Const { attr, block: trans_block(block, out, is_async) }
        },
        Expr::Continue { attr } => if attr {
            Expr::Diag(DiagKind::AttrForbidden)
        } else {
            Expr::Continue { attr }
        },
        Expr::Field { attr, base } => if attr {
            Expr::Diag(DiagKind::AttrForbidden)
        } else {
            Expr::Field { attr, base: Box::new(trans_expr(*base, out, is_async)) }
        },
        Expr::ForLoop { attr, expr, body } => if attr {
            Expr::Diag(DiagKind::AttrForbidden)
        } else {
            Expr::ForLoop {
                attr,
                expr: Box::new(trans_expr(*expr, out, is_async)),
                body: trans_block(body, out, is_async),
            }
        },
        Expr::Group { attr, expr } => if attr {
            Expr::Diag(DiagKind::AttrForbidden)
        } else {
            Expr::Group { attr, expr: Box::new(trans_expr(*expr, out, is_async)) }
        },
        Expr::If { attr, cond, then_branch, else_branch } => if attr {
            Expr::Diag(DiagKind::AttrForbidden)
        } else {
            Expr::If {
                attr,
                cond: Box::new(trans_expr(*cond, out, is_async)),
                then_branch: trans_block(then_branch, out, is_async),
                else_branch: trans_opt(else_branch, out, is_async),
            }
        },
        Expr::Index { attr, expr, index } => if attr {
            Expr::Diag(DiagKind::AttrForbidden)
        } else {
            Expr::Index {
                attr,
                expr: Box::new(trans_expr(*expr, out, is_async)),
                index: Box::new(trans_expr(*index, out, is_async)),
            }
        },
        Expr::Infer { attr } => if attr {
            Expr::Diag(DiagKind::AttrForbidden)
        } else {
            Expr::Infer { attr }
        },
        Expr::Let { attr, expr } => if attr {
            Expr::Diag(DiagKind::AttrForbidden)
        } else {
            Expr::Let { attr, expr: Box::new(trans_expr(*expr, out, is_async)) }
        },
        Expr::Lit { attr, val } => if attr {
            Expr::Diag(DiagKind::AttrForbidden)
        } else {
            Expr::Lit { attr, val }
        },
        Expr::Loop { attr, body } => if attr {
            Expr::Diag(DiagKind::AttrForbidden)
        } else {
            Expr::Loop { attr, body: trans_block(body, out, is_async) }
        },
        Expr::Macro => Expr::Diag(DiagKind::MacroForbidden),
        Expr::Match { attr, expr, arms } => if attr {
            Expr::Diag(DiagKind::AttrForbidden)
        } else {
            Expr::Match {
                attr,
                expr: Box::new(trans_expr(*expr, out, is_async)),
                arms: trans_arms(arms, out, is_async),
            }
        },
        Expr::MethodCall { attr, receiver, args } => if attr {
            Expr::Diag(DiagKind::AttrForbidden)
        } else {
            Expr::MethodCall {
                attr,
                receiver: Box::new(trans_expr(*receiver, out, is_async)),
                args: trans_exprs(args, out, is_async),
            }
        },
        Expr::Paren { attr, expr } => if attr {
            Expr::Diag(DiagKind::AttrForbidden)
        } else {
            Expr::Paren { attr, expr: Box::new(trans_expr(*expr, out, is_async)) }
        },
        Expr::Path { attr, id } => if attr {
            Expr::Diag(DiagKind::AttrForbidden)
        } else {
            Expr::Path { attr, id }
        },
        Expr::Range { attr, start, end } => if attr {
            Expr::Diag(DiagKind::AttrForbidden)
        } else {
            Expr::Range {
                attr,
                start: trans_opt(start, out, is_async),
                end: trans_opt(end, out, is_async),
            }
        },
        Expr::RawAddr { attr, expr } => if attr {
            Expr::Diag(DiagKind::AttrForbidden)
        } else {
            Expr::RawAddr { attr, expr: Box::new(trans_expr(*expr, out, is_async)) }
        },
        Expr::Reference { attr, expr } => if attr {
            Expr::Diag(DiagKind::AttrForbidden)
        } else {
            Expr::Reference { attr, expr: Box::new(trans_expr(*expr, out, is_async)) }
        },
        Expr::Repeat { attr, expr, len } => if attr {
            Expr::Diag(DiagKind::AttrForbidden)
        } else {
            Expr::Repeat { attr, expr: Box::new(trans_expr(*expr, out, is_async)), len }
        },
        Expr::Return { attr, expr } => if attr {
            Expr::Diag(DiagKind::AttrForbidden)
        } else {
            Expr::Return { attr, expr: trans_opt(expr, out, is_async) }
        },
        Expr::Struct { attr, fields, rest } => if attr {
            Expr::Diag(DiagKind::AttrForbidden)
        } else {
            Expr::Struct {
                attr,
                fields: trans_fields(fields, out, is_async),
                rest: trans_opt(rest, out, is_async),
            }
        },
        Expr::Try { attr, expr } => if attr {
            Expr::Diag(DiagKind::AttrForbidden)
        } else {
            Expr::Try { attr, expr: Box::new(trans_expr(*expr, out, is_async)) }
        },
        Expr::TryBlock { attr, block } => if attr {
            Expr::Diag(DiagKind::AttrForbidden)
        } else {
            Expr::TryBlock { attr, block: trans_block(block, out, is_async) }
        },
        Expr::Tuple { attr, elems } => if attr {
            Expr::Diag(DiagKind::AttrForbidden)
        } else {
            Expr::Tuple { attr, elems: trans_exprs(elems, out, is_async) }
        },
        Expr::Unary { attr, expr } => if attr {
            Expr::Diag(DiagKind::AttrForbidden)
        } else {
            Expr::Unary { attr, expr: Box::new(trans_expr(*expr, out, is_async)) }
        },
        Expr::Unsafe { attr, block } => if attr {
            Expr::Diag(DiagKind::AttrForbidden)
        } else {
            Expr::Unsafe { attr, block: trans_block(block, out, is_async) }
        },
        Expr::Verbatim => Expr::Diag(DiagKind::Unparsed),
        Expr::While { attr, cond, body } => if attr {
            Expr::Diag(DiagKind::AttrForbidden)
        } else {
            Expr::While {
                attr,
                cond: Box::new(trans_expr(*cond, out, is_async)),
                body: trans_block(body, out, is_async),
            }
        },
        Expr::Await { attr, base } => if attr {
            Expr::Diag(DiagKind::AttrForbidden)
        } else if is_async {
            Expr::AwaitLowered { ty: out, base }
        } else {
            Expr::Diag(DiagKind::AwaitInSync)
        },
        Expr::Yield { expr } => Expr::Suspend { ty: out, arg: trans_opt(expr, out, is_async) },
        Expr::Suspend { ty, arg } => Expr::Suspend { ty, arg },
        Expr::AwaitLowered { ty, base } => Expr::AwaitLowered { ty, base },
        Expr::Diag(k) => Expr::Diag(k),
    }
}

/// The rewrite of an optional sub-expression.
pub open spec fn trans_opt(o: Option<Box<Expr>>, out: Ty, is_async: bool) -> Option<Box<Expr>>
    decreases o,
{
    match o {
        None => None,
        Some(e) => Some(Box::new(trans_expr(*e, out, is_async))),
    }
}

/// The rewrite of each expression of a sequence, in place.
pub open spec fn trans_exprs(l: ExprList, out: Ty, is_async: bool) -> ExprList
    decreases l,
{
    match l {
        ExprList::Nil => ExprList::Nil,
        ExprList::Cons(e, rest) => ExprList::Cons(
            Box::new(trans_expr(*e, out, is_async)),
            Box::new(trans_exprs(*rest, out, is_async)),
        ),
    }
}

/// The rewrite of a statement block.
pub open spec fn trans_block(b: Block, out: Ty, is_async: bool) -> Block
    decreases b,
{
    Block { stmts: trans_stmts(b.stmts, out, is_async) }
}

/// The rewrite of each statement of a sequence, in place.
pub open spec fn trans_stmts(l: StmtList, out: Ty, is_async: bool) -> StmtList
    decreases l,
{
    match l {
        StmtList::Nil => StmtList::Nil,
        StmtList::Cons(s, rest) => StmtList::Cons(
            trans_stmt(s, out, is_async),
            Box::new(trans_stmts(*rest, out, is_async)),
        ),
    }
}

/// The rewrite of one statement. A macro invocation standing as a statement
/// is rejected outright; an attribute on a `let` binding or on a nested item
/// is rejected; an attribute-free nested item is an opaque scope whose body
/// is left untouched.
pub open spec fn trans_stmt(s: Stmt, out: Ty, is_async: bool) -> Stmt
    decreases s,
{
    match s {
        Stmt::Local(local) => if local.attr {
            Stmt::Expr(Box::new(Expr::Diag(DiagKind::AttrForbidden)), true)
        } else {
            Stmt::Local(trans_local(local, out, is_async))
        },
        Stmt::Item(item) => if item.attr {
            Stmt::Expr(Box::new(Expr::Diag(DiagKind::AttrForbidden)), true)
        } else {
            Stmt::Item(item)
        },
        Stmt::Expr(e, semi) => Stmt::Expr(Box::new(trans_expr(*e, out, is_async)), semi),
        Stmt::MacroCall => Stmt::Expr(Box::new(Expr::Diag(DiagKind::MacroForbidden)), true),
    }
}

/// The rewrite of a `let` binding: its initializer and the diverging `else`.
pub open spec fn trans_local(l: Local, out: Ty, is_async: bool) -> Local
    decreases l,
{
    match l.init {
        None => Local { attr: l.attr, init: None },
        Some(init) => Local {
            attr: l.attr,
            init: Some(
                LocalInit {
                    expr: Box::new(trans_expr(*init.expr, out, is_async)),
                    diverge: trans_opt(init.diverge, out, is_async),
                },
            ),
        },
    }
}

/// The rewrite of each match arm: an attribute on an arm is rejected, else
/// the arm's body is rewritten.
pub open spec fn trans_arms(l: ArmList, out: Ty, is_async: bool) -> ArmList
    decreases l,
{
    match l {
        ArmList::Nil => ArmList::Nil,
        ArmList::Cons(a, rest) => ArmList::Cons(
            trans_arm(a, out, is_async),
            Box::new(trans_arms(*rest, out, is_async)),
        ),
    }
}

/// The rewrite of one match arm.
pub open spec fn trans_arm(a: Arm, out: Ty, is_async: bool) -> Arm
    decreases a,
{
    if a.attr {
        Arm { attr: false, body: Box::new(Expr::Diag(DiagKind::AttrForbidden)) }
    } else {
        Arm { attr: a.attr, body: Box::new(trans_expr(*a.body, out, is_async)) }
    }
}

/// The rewrite of each field of a struct literal: an attribute on a field
/// value is rejected, else the value is rewritten.
pub open spec fn trans_fields(l: FieldList, out: Ty, is_async: bool) -> FieldList
    decreases l,
{
    match l {
        FieldList::Nil => FieldList::Nil,
        FieldList::Cons(f, rest) => FieldList::Cons(
            trans_field(f, out, is_async),
            Box::new(trans_fields(*rest, out, is_async)),
        ),
    }
}

/// The rewrite of one struct-literal field.
pub open spec fn trans_field(f: FieldValue, out: Ty, is_async: bool) -> FieldValue
    decreases f,
{
    if f.attr {
        FieldValue { attr: f.attr, value: Box::new(Expr::Diag(DiagKind::AttrForbidden)) }
    } else {
        FieldValue { attr: f.attr, value: Box::new(trans_expr(*f.value, out, is_async)) }
    }
}

/// Whether the pass rejects this expression: a macro invocation or
/// unparseable tokens here, an attribute on it or on anything the pass
/// rewrites below it, or (synchronous mode) an `await`.
pub open spec fn banned_expr(e: Expr, is_async: bool) -> bool
    decreases e,
{
    match e {
        Expr::Array { attr, elems } => attr || banned_exprs(elems, is_async),
        Expr::Assign { attr, left, right } => attr || banned_expr(*right, is_async),
        Expr::Async { attr } => attr,
        Expr::Binary { attr, left, right } => attr || banned_expr(*left, is_async) || banned_expr(
            *right,
            is_async,
        ),
        Expr::Block { attr, block } => attr || banned_block(block, is_async),
        Expr::Break { attr, expr } => attr || banned_opt(expr, is_async),
        Expr::Call { attr, func, args } => attr || banned_expr(*func, is_async) || banned_exprs(
            args,
            is_async,
        ),
        Expr::Cast { attr, expr } => attr || banned_expr(*expr, is_async),
        Expr::Closure { attr } => attr,
        Expr::Const { attr, block } => attr || banned_block(block, is_async),
        Expr::Continue { attr } => attr,
        Expr::Field { attr, base } => attr || banned_expr(*base, is_async),
        Expr::ForLoop { attr, expr, body } => attr || banned_expr(*expr, is_async) || banned_block(
            body,
            is_async,
        ),
        Expr::Group { attr, expr } => attr || banned_expr(*expr, is_async),
        Expr::If { attr, cond, then_branch, else_branch } => attr || banned_expr(*cond, is_async)
            || banned_block(then_branch, is_async) || banned_opt(else_branch, is_async),
        Expr::Index { attr, expr, index } => attr || banned_expr(*expr, is_async) || banned_expr(
            *index,
            is_async,
        ),
        Expr::Infer { attr } => attr,
        Expr::Let { attr, expr } => attr || banned_expr(*expr, is_async),
        Expr::Lit { attr, val } => attr,
        Expr::Loop { attr, body } => attr || banned_block(body, is_async),
        Expr::Macro => true,
        Expr::Match { attr, expr, arms } => attr || banned_expr(*expr, is_async) || banned_arms(
            arms,
            is_async,
        ),
        Expr::MethodCall { attr, receiver, args } => attr || banned_expr(*receiver, is_async)
            || banned_exprs(args, is_async),
        Expr::Paren { attr, expr } => attr || banned_expr(*expr, is_async),
        Expr::Path { attr, id } => attr,
        Expr::Range { attr, start, end } => attr || banned_opt(start, is_async) || banned_opt(
            end,
            is_async,
        ),
        Expr::RawAddr { attr, expr } => attr || banned_expr(*expr, is_async),
        Expr::Reference { attr, expr } => attr || banned_expr(*expr, is_async),
        Expr::Repeat { attr, expr, len } => attr || banned_expr(*expr, is_async),
        Expr::Return { attr, expr } => attr || banned_opt(expr, is_async),
        Expr::Struct { attr, fields, rest } => attr || banned_fields(fields, is_async)
            || banned_opt(rest, is_async),
        Expr::Try { attr, expr } => attr || banned_expr(*expr, is_async),
        Expr::TryBlock { attr, block } => attr || banned_block(block, is_async),
        Expr::Tuple { attr, elems } => attr || banned_exprs(elems, is_async),
        Expr::Unary { attr, expr } => attr || banned_expr(*expr, is_async),
        Expr::Unsafe { attr, block } => attr || banned_block(block, is_async),
        Expr::Verbatim => true,
        Expr::While { attr, cond, body } => attr || banned_expr(*cond, is_async) || banned_block(
            body,
            is_async,
        ),
        Expr::Await { attr, base } => attr || !is_async,
        Expr::Yield { expr } => banned_opt(expr, is_async),
        Expr::Suspend { ty, arg } => false,
        Expr::AwaitLowered { ty, base } => false,
        Expr::Diag(k) => true,
    }
}

/// Whether the pass rejects an optional sub-expression.
pub open spec fn banned_opt(o: Option<Box<Expr>>, is_async: bool) -> bool
    decreases o,
{
    match o {
        None => false,
        Some(e) => banned_expr(*e, is_async),
    }
}

/// Whether the pass rejects any expression of a sequence.
pub open spec fn banned_exprs(l: ExprList, is_async: bool) -> bool
    decreases l,
{
    match l {
        ExprList::Nil => false,
        ExprList::Cons(e, rest) => banned_expr(*e, is_async) || banned_exprs(*rest, is_async),
    }
}

/// Whether the pass rejects anything in a block.
pub open spec fn banned_block(b: Block, is_async: bool) -> bool
    decreases b,
{
    banned_stmts(b.stmts, is_async)
}

/// Whether the pass rejects any statement of a sequence.
pub open spec fn banned_stmts(l: StmtList, is_async: bool) -> bool
    decreases l,
{
    match l {
        StmtList::Nil => false,
        StmtList::Cons(s, rest) => banned_stmt(s, is_async) || banned_stmts(*rest, is_async),
    }
}

/// Whether the pass rejects one statement.
pub open spec fn banned_stmt(s: Stmt, is_async: bool) -> bool
    decreases s,
{
    match s {
        Stmt::Local(local) => local.attr || banned_local(local, is_async),
        Stmt::Item(item) => item.attr,
        Stmt::Expr(e, semi) => banned_expr(*e, is_async),
        Stmt::MacroCall => true,
    }
}

/// Whether the pass rejects anything in a `let` binding's initializer.
pub open spec fn banned_local(l: Local, is_async: bool) -> bool
    decreases l,
{
    match l.init {
        None => false,
        Some(init) => banned_expr(*init.expr, is_async) || banned_opt(init.diverge, is_async),
    }
}

/// Whether the pass rejects any arm of a `match`.
pub open spec fn banned_arms(l: ArmList, is_async: bool) -> bool
    decreases l,
{
    match l {
        ArmList::Nil => false,
        ArmList::Cons(a, rest) => banned_arm(a, is_async) || banned_arms(*rest, is_async),
    }
}

/// Whether the pass rejects one match arm.
pub open spec fn banned_arm(a: Arm, is_async: bool) -> bool
    decreases a,
{
    a.attr || banned_expr(*a.body, is_async)
}

/// Whether the pass rejects any field of a struct literal.
pub open spec fn banned_fields(l: FieldList, is_async: bool) -> bool
    decreases l,
{
    match l {
        FieldList::Nil => false,
        FieldList::Cons(f, rest) => banned_field(f, is_async) || banned_fields(*rest, is_async),
    }
}

/// Whether the pass rejects one struct-literal field.
pub open spec fn banned_field(f: FieldValue, is_async: bool) -> bool
    decreases f,
{
    f.attr || banned_expr(*f.value, is_async)
}

/// Run the pass over one expression. Returns the rewritten expression and
/// whether anything in it was rejected.
pub fn rewrite_expr(e: &Expr, out: Ty, is_async: bool) -> (r: (Expr, bool))
    ensures
        r.0 == trans_expr(*e, out, is_async),
        r.1 == banned_expr(*e, is_async),
    decreases *e,
{
    match e {
        Expr::Array { attr, elems } => {
            if *attr {
                (Expr::Diag(DiagKind::AttrForbidden), true)
            } else {
                let (elems2, bad) = rewrite_exprs(elems, out, is_async);
                (Expr::Array { attr: *attr, elems: elems2 }, bad)
            }
        },
        Expr::Assign { attr, left, right } => {
            if *attr {
                (Expr::Diag(DiagKind::AttrForbidden), true)
            } else {
                let left2 = clone_expr(left);
                let (right2, bad) = rewrite_expr(&**right, out, is_async);
                (
                    Expr::Assign { attr: *attr, left: left2, right: Box::new(right2) },
                    bad,
                )
            }
        },
        Expr::Async { attr } => {
            if *attr {
                (Expr::Diag(DiagKind::AttrForbidden), true)
            } else {
                (Expr::Async { attr: *attr }, false)
            }
        },
        Expr::Binary { attr, left, right } => {
            if *attr {
                (Expr::Diag(DiagKind::AttrForbidden), true)
            } else {
                let (left2, b1) = rewrite_expr(&**left, out, is_async);
                let (right2, b2) = rewrite_expr(&**right, out, is_async);
                (
                    Expr::Binary { attr: *attr, left: Box::new(left2), right: Box::new(right2) },
                    b1 || b2,
                )
            }
        },
        Expr::Block { attr, block } => {
            if *attr {
                (Expr::Diag(DiagKind::AttrForbidden), true)
            } else {
                let (block2, bad) = rewrite_block(block, out, is_async);
                (Expr::Block { attr: *attr, block: block2 }, bad)
            }
        },
        Expr::Break { attr, expr } => {
            if *attr {
                (Expr::Diag(DiagKind::AttrForbidden), true)
            } else {
                let (expr2, bad) = rewrite_opt(expr, out, is_async);
                (Expr::Break { attr: *attr, expr: expr2 }, bad)
            }
        },
        Expr::Call { attr, func, args } => {
            if *attr {
                (Expr::Diag(DiagKind::AttrForbidden), true)
            } else {
                let (func2, b1) = rewrite_expr(&**func, out, is_async);
                let (args2, b2) = rewrite_exprs(args, out, is_async);
                (
                    Expr::Call { attr: *attr, func: Box::new(func2), args: args2 },
                    b1 || b2,
                )
            }
        },
        Expr::Cast { attr, expr } => {
            if *attr {
                (Expr::Diag(DiagKind::AttrForbidden), true)
            } else {
                let (expr2, bad) = rewrite_expr(&**expr, out, is_async);
                (Expr::Cast { attr: *attr, expr: Box::new(expr2) }, bad)
            }
        },
        Expr::Closure { attr } => {
            if *attr {
                (Expr::Diag(DiagKind::AttrForbidden), true)
            } else {
                (Expr::Closure { attr: *attr }, false)
            }
        },
        Expr::Const { attr, block } => {
            if *attr {
                (Expr::Diag(DiagKind::AttrForbidden), true)
            } else {
                let (block2, bad) = rewrite_block(block, out, is_async);
                (Expr::Const { attr: *attr, block: block2 }, bad)
            }
        },
        Expr::Continue { attr } => {
            if *attr {
                (Expr::Diag(DiagKind::AttrForbidden), true)
            } else {
                (Expr::Continue { attr: *attr }, false)
            }
        },
        Expr::Field { attr, base } => {
            if *attr {
                (Expr::Diag(DiagKind::AttrForbidden), true)
            } else {
                let (base2, bad) = rewrite_expr(&**base, out, is_async);
                (Expr::Field { attr: *attr, base: Box::new(base2) }, bad)
            }
        },
        Expr::ForLoop { attr, expr, body } => {
            if *attr {
                (Expr::Diag(DiagKind::AttrForbidden), true)
            } else {
                let (expr2, b1) = rewrite_expr(&**expr, out, is_async);
                let (body2, b2) = rewrite_block(body, out, is_async);
                (
                    Expr::ForLoop { attr: *attr, expr: Box::new(expr2), body: body2 },
                    b1 || b2,
                )
            }
        },
        Expr::Group { attr, expr } => {
            if *attr {
                (Expr::Diag(DiagKind::AttrForbidden), true)
            } else {
                let (expr2, bad) = rewrite_expr(&**expr, out, is_async);
                (Expr::Group { attr: *attr, expr: Box::new(expr2) }, bad)
            }
        },
        Expr::If { attr, cond, then_branch, else_branch } => {
            if *attr {
                (Expr::Diag(DiagKind::AttrForbidden), true)
            } else {
                let (cond2, b1) = rewrite_expr(&**cond, out, is_async);
                let (then2, b2) = rewrite_block(then_branch, out, is_async);
                let (else2, b3) = rewrite_opt(else_branch, out, is_async);
                (
                    Expr::If {
                        attr: *attr,
                        cond: Box::new(cond2),
                        then_branch: then2,
                        else_branch: else2,
                    },
                    b1 || b2 || b3,
                )
            }
        },
        Expr::Index { attr, expr, index } => {
            if *attr {
                (Expr::Diag(DiagKind::AttrForbidden), true)
            } else {
                let (expr2, b1) = rewrite_expr(&**expr, out, is_async);
                let (index2, b2) = rewrite_expr(&**index, out, is_async);
                (
                    Expr::Index { attr: *attr, expr: Box::new(expr2), index: Box::new(index2) },
                    b1 || b2,
                )
            }
        },
        Expr::Infer { attr } => {
            if *attr {
                (Expr::Diag(DiagKind::AttrForbidden), true)
            } else {
                (Expr::Infer { attr: *attr }, false)
            }
        },
        Expr::Let { attr, expr } => {
            if *attr {
                (Expr::Diag(DiagKind::AttrForbidden), true)
            } else {
                let (expr2, bad) = rewrite_expr(&**expr, out, is_async);
                (Expr::Let { attr: *attr, expr: Box::new(expr2) }, bad)
            }
        },
        Expr::Lit { attr, val } => {
            if *attr {
                (Expr::Diag(DiagKind::AttrForbidden), true)
            } else {
                (Expr::Lit { attr: *attr, val: *val }, false)
            }
        },
        Expr::Loop { attr, body } => {
            if *attr {
                (Expr::Diag(DiagKind::AttrForbidden), true)
            } else {
                let (body2, bad) = rewrite_block(body, out, is_async);
                (Expr::Loop { attr: *attr, body: body2 }, bad)
            }
        },
        Expr::Macro => (Expr::Diag(DiagKind::MacroForbidden), true),
        Expr::Match { attr, expr, arms } => {
            if *attr {
                (Expr::Diag(DiagKind::AttrForbidden), true)
            } else {
                let (expr2, b1) = rewrite_expr(&**expr, out, is_async);
                let (arms2, b2) = rewrite_arms(arms, out, is_async);
                (
                    Expr::Match { attr: *attr, expr: Box::new(expr2), arms: arms2 },
                    b1 || b2,
                )
            }
        },
        Expr::MethodCall { attr, receiver, args } => {
            if *attr {
                (Expr::Diag(DiagKind::AttrForbidden), true)
            } else {
                let (receiver2, b1) = rewrite_expr(&**receiver, out, is_async);
                let (args2, b2) = rewrite_exprs(args, out, is_async);
                (
                    Expr::MethodCall { attr: *attr, receiver: Box::new(receiver2), args: args2 },
                    b1 || b2,
                )
            }
        },
        Expr::Paren { attr, expr } => {
            if *attr {
                (Expr::Diag(DiagKind::AttrForbidden), true)
            } else {
                let (expr2, bad) = rewrite_expr(&**expr, out, is_async);
                (Expr::Paren { attr: *attr, expr: Box::new(expr2) }, bad)
            }
        },
        Expr::Path { attr, id } => {
            if *attr {
                (Expr::Diag(DiagKind::AttrForbidden), true)
            } else {
                (Expr::Path { attr: *attr, id: *id }, false)
            }
        },
        Expr::Range { attr, start, end } => {
            if *attr {
                (Expr::Diag(DiagKind::AttrForbidden), true)
            } else {
                let (start2, b1) = rewrite_opt(start, out, is_async);
                let (end2, b2) = rewrite_opt(end, out, is_async);
                (Expr::Range { attr: *attr, start: start2, end: end2 }, b1 || b2)
            }
        },
        Expr::RawAddr { attr, expr } => {
            if *attr {
                (Expr::Diag(DiagKind::AttrForbidden), true)
            } else {
                let (expr2, bad) = rewrite_expr(&**expr, out, is_async);
                (Expr::RawAddr { attr: *attr, expr: Box::new(expr2) }, bad)
            }
        },
        Expr::Reference { attr, expr } => {
            if *attr {
                (Expr::Diag(DiagKind::AttrForbidden), true)
            } else {
                let (expr2, bad) = rewrite_expr(&**expr, out, is_async);
                (Expr::Reference { attr: *attr, expr: Box::new(expr2) }, bad)
            }
        },
        Expr::Repeat { attr, expr, len } => {
            if *attr {
                (Expr::Diag(DiagKind::AttrForbidden), true)
            } else {
                let (expr2, bad) = rewrite_expr(&**expr, out, is_async);
                let len2 = clone_expr(len);
                (
                    Expr::Repeat { attr: *attr, expr: Box::new(expr2), len: len2 },
                    bad,
                )
            }
        },
        Expr::Return { attr, expr } => {
            if *attr {
                (Expr::Diag(DiagKind::AttrForbidden), true)
            } else {
                let (expr2, bad) = rewrite_opt(expr, out, is_async);
                (Expr::Return { attr: *attr, expr: expr2 }, bad)
            }
        },
        Expr::Struct { attr, fields, rest } => {
            if *attr {
                (Expr::Diag(DiagKind::AttrForbidden), true)
            } else {
                let (fields2, b1) = rewrite_fields(fields, out, is_async);
                let (rest2, b2) = rewrite_opt(rest, out, is_async);
                (
                    Expr::Struct { attr: *attr, fields: fields2, rest: rest2 },
                    b1 || b2,
                )
            }
        },
        Expr::Try { attr, expr } => {
            if *attr {
                (Expr::Diag(DiagKind::AttrForbidden), true)
            } else {
                let (expr2, bad) = rewrite_expr(&**expr, out, is_async);
                (Expr::Try { attr: *attr, expr: Box::new(expr2) }, bad)
            }
        },
        Expr::TryBlock { attr, block } => {
            if *attr {
                (Expr::Diag(DiagKind::AttrForbidden), true)
            } else {
                let (block2, bad) = rewrite_block(block, out, is_async);
                (Expr::TryBlock { attr: *attr, block: block2 }, bad)
            }
        },
        Expr::Tuple { attr, elems } => {
            if *attr {
                (Expr::Diag(DiagKind::AttrForbidden), true)
            } else {
                let (elems2, bad) = rewrite_exprs(elems, out, is_async);
                (Expr::Tuple { attr: *attr, elems: elems2 }, bad)
            }
        },
        Expr::Unary { attr, expr } => {
            if *attr {
                (Expr::Diag(DiagKind::AttrForbidden), true)
            } else {
                let (expr2, bad) = rewrite_expr(&**expr, out, is_async);
                (Expr::Unary { attr: *attr, expr: Box::new(expr2) }, bad)
            }
        },
        Expr::Unsafe { attr, block } => {
            if *attr {
                (Expr::Diag(DiagKind::AttrForbidden), true)
            } else {
                let (block2, bad) = rewrite_block(block, out, is_async);
                (Expr::Unsafe { attr: *attr, block: block2 }, bad)
            }
        },
        Expr::Verbatim => (Expr::Diag(DiagKind::Unparsed), true),
        Expr::While { attr, cond, body } => {
            if *attr {
                (Expr::Diag(DiagKind::AttrForbidden), true)
            } else {
                let (cond2, b1) = rewrite_expr(&**cond, out, is_async);
                let (body2, b2) = rewrite_block(body, out, is_async);
                (
                    Expr::While { attr: *attr, cond: Box::new(cond2), body: body2 },
                    b1 || b2,
                )
            }
        },
        Expr::Await { attr, base } => {
            if *attr {
                (Expr::Diag(DiagKind::AttrForbidden), true)
            } else if is_async {
                let base2 = clone_expr(base);
                (Expr::AwaitLowered { ty: out, base: base2 }, false)
            } else {
                (Expr::Diag(DiagKind::AwaitInSync), true)
            }
        },
        Expr::Yield { expr } => {
            let (arg2, bad) = rewrite_opt(expr, out, is_async);
            (Expr::Suspend { ty: out, arg: arg2 }, bad)
        },
        Expr::Suspend { ty, arg } => {
            let arg2 = clone_opt_expr(arg);
            (Expr::Suspend { ty: *ty, arg: arg2 }, false)
        },
        Expr::AwaitLowered { ty, base } => {
            let base2 = clone_expr(base);
            (Expr::AwaitLowered { ty: *ty, base: base2 }, false)
        },
        Expr::Diag(k) => (Expr::Diag(*k), true),
    }
}

/// Run the pass over an optional sub-expression.
pub fn rewrite_opt(o: &Option<Box<Expr>>, out: Ty, is_async: bool) -> (r: (
    Option<Box<Expr>>,
    bool,
))
    ensures
        r.0 == trans_opt(*o, out, is_async),
        r.1 == banned_opt(*o, is_async),
    decreases *o,
{
    match o {
        None => (None, false),
        Some(e) => {
            let (e2, bad) = rewrite_expr(&**e, out, is_async);
            (Some(Box::new(e2)), bad)
        },
    }
}

/// Run the pass over each expression of a sequence.
pub fn rewrite_exprs(l: &ExprList, out: Ty, is_async: bool) -> (r: (ExprList, bool))
    ensures
        r.0 == trans_exprs(*l, out, is_async),
        r.1 == banned_exprs(*l, is_async),
    decreases *l,
{
    match l {
        ExprList::Nil => (ExprList::Nil, false),
        ExprList::Cons(e, rest) => {
            let (e2, b1) = rewrite_expr(&**e, out, is_async);
            let (rest2, b2) = rewrite_exprs(&**rest, out, is_async);
            (ExprList::Cons(Box::new(e2), Box::new(rest2)), b1 || b2)
        },
    }
}

/// Run the pass over a whole statement block: the rewriter's entry point.
pub fn rewrite_block(b: &Block, out: Ty, is_async: bool) -> (r: (Block, bool))
    ensures
        r.0 == trans_block(*b, out, is_async),
        r.1 == banned_block(*b, is_async),
    decreases *b,
{
    let (stmts2, bad) = rewrite_stmts(&b.stmts, out, is_async);
    (Block { stmts: stmts2 }, bad)
}

/// Run the pass over each statement of a sequence.
pub fn rewrite_stmts(l: &StmtList, out: Ty, is_async: bool) -> (r: (StmtList, bool))
    ensures
        r.0 == trans_stmts(*l, out, is_async),
        r.1 == banned_stmts(*l, is_async),
    decreases *l,
{
    match l {
        StmtList::Nil => (StmtList::Nil, false),
        StmtList::Cons(s, rest) => {
            let (s2, b1) = rewrite_stmt(s, out, is_async);
            let (rest2, b2) = rewrite_stmts(&**rest, out, is_async);
            (StmtList::Cons(s2, Box::new(rest2)), b1 || b2)
        },
    }
}

/// Run the pass over one statement.
pub fn rewrite_stmt(s: &Stmt, out: Ty, is_async: bool) -> (r: (Stmt, bool))
    ensures
        r.0 == trans_stmt(*s, out, is_async),
        r.1 == banned_stmt(*s, is_async),
    decreases *s,
{
    match s {
        Stmt::Local(local) => {
            if local.attr {
                (Stmt::Expr(Box::new(Expr::Diag(DiagKind::AttrForbidden)), true), true)
            } else {
                let (local2, bad) = rewrite_local(local, out, is_async);
                (Stmt::Local(local2), bad)
            }
        },
        Stmt::Item(item) => {
            if item.attr {
                (Stmt::Expr(Box::new(Expr::Diag(DiagKind::AttrForbidden)), true), true)
            } else {
                (Stmt::Item(crate::ast::Item { attr: item.attr }), false)
            }
        },
        Stmt::Expr(e, semi) => {
            let (e2, bad) = rewrite_expr(&**e, out, is_async);
            (Stmt::Expr(Box::new(e2), *semi), bad)
        },
        Stmt::MacroCall => (
            Stmt::Expr(Box::new(Expr::Diag(DiagKind::MacroForbidden)), true),
            true,
        ),
    }
}

/// Run the pass over a `let` binding.
pub fn rewrite_local(l: &Local, out: Ty, is_async: bool) -> (r: (Local, bool))
    ensures
        r.0 == trans_local(*l, out, is_async),
        r.1 == banned_local(*l, is_async),
    decreases *l,
{
    match &l.init {
        None => (Local { attr: l.attr, init: None }, false),
        Some(init) => {
            let (expr2, b1) = rewrite_expr(&*init.expr, out, is_async);
            let (diverge2, b2) = rewrite_opt(&init.diverge, out, is_async);
            (
                Local {
                    attr: l.attr,
                    init: Some(LocalInit { expr: Box::new(expr2), diverge: diverge2 }),
                },
                b1 || b2,
            )
        },
    }
}

/// Run the pass over the arms of a `match`.
pub fn rewrite_arms(l: &ArmList, out: Ty, is_async: bool) -> (r: (ArmList, bool))
    ensures
        r.0 == trans_arms(*l, out, is_async),
        r.1 == banned_arms(*l, is_async),
    decreases *l,
{
    match l {
        ArmList::Nil => (ArmList::Nil, false),
        ArmList::Cons(a, rest) => {
            let (a2, b1) = rewrite_arm(a, out, is_async);
            let (rest2, b2) = rewrite_arms(&**rest, out, is_async);
            (ArmList::Cons(a2, Box::new(rest2)), b1 || b2)
        },
    }
}

/// Run the pass over one match arm.
pub fn rewrite_arm(a: &Arm, out: Ty, is_async: bool) -> (r: (Arm, bool))
    ensures
        r.0 == trans_arm(*a, out, is_async),
        r.1 == banned_arm(*a, is_async),
    decreases *a,
{
    if a.attr {
        (Arm { attr: false, body: Box::new(Expr::Diag(DiagKind::AttrForbidden)) }, true)
    } else {
        let (body2, bad) = rewrite_expr(&*a.body, out, is_async);
        (Arm { attr: a.attr, body: Box::new(body2) }, bad)
    }
}

/// Run the pass over the fields of a struct literal.
pub fn rewrite_fields(l: &FieldList, out: Ty, is_async: bool) -> (r: (FieldList, bool))
    ensures
        r.0 == trans_fields(*l, out, is_async),
        r.1 == banned_fields(*l, is_async),
    decreases *l,
{
    match l {
        FieldList::Nil => (FieldList::Nil, false),
        FieldList::Cons(f, rest) => {
            let (f2, b1) = rewrite_field(f, out, is_async);
            let (rest2, b2) = rewrite_fields(&**rest, out, is_async);
            (FieldList::Cons(f2, Box::new(rest2)), b1 || b2)
        },
    }
}

/// Run the pass over one struct-literal field.
pub fn rewrite_field(f: &FieldValue, out: Ty, is_async: bool) -> (r: (FieldValue, bool))
    ensures
        r.0 == trans_field(*f, out, is_async),
        r.1 == banned_field(*f, is_async),
    decreases *f,
{
    if f.attr {
        (
            FieldValue { attr: f.attr, value: Box::new(Expr::Diag(DiagKind::AttrForbidden)) },
            true,
        )
    } else {
        let (value2, bad) = rewrite_expr(&*f.value, out, is_async);
        (FieldValue { attr: f.attr, value: Box::new(value2) }, bad)
    }
}

/// An exact structural copy of an expression, for the sub-expression
/// positions the pass carries over without rewriting.
pub fn clone_expr(e: &Box<Expr>) -> (r: Box<Expr>)
    ensures
        *r == **e,
    decreases **e,
{
    match &**e {
        Expr::Array { attr, elems } => Box::new(
            Expr::Array { attr: *attr, elems: clone_exprs(elems) },
        ),
        Expr::Assign { attr, left, right } => Box::new(
            Expr::Assign { attr: *attr, left: clone_expr(left), right: clone_expr(right) },
        ),
        Expr::Async { attr } => Box::new(Expr::Async { attr: *attr }),
        Expr::Binary { attr, left, right } => Box::new(
            Expr::Binary { attr: *attr, left: clone_expr(left), right: clone_expr(right) },
        ),
        Expr::Block { attr, block } => Box::new(
            Expr::Block { attr: *attr, block: clone_block(block) },
        ),
        Expr::Break { attr, expr } => Box::new(
            Expr::Break { attr: *attr, expr: clone_opt_expr(expr) },
        ),
        Expr::Call { attr, func, args } => Box::new(
            Expr::Call { attr: *attr, func: clone_expr(func), args: clone_exprs(args) },
        ),
        Expr::Cast { attr, expr } => Box::new(Expr::Cast { attr: *attr, expr: clone_expr(expr) }),
        Expr::Closure { attr } => Box::new(Expr::Closure { attr: *attr }),
        Expr::Const { attr, block } => Box::new(
            Expr::Const { attr: *attr, block: clone_block(block) },
        ),
        Expr::Continue { attr } => Box::new(Expr::Continue { attr: *attr }),
        Expr::Field { attr, base } => Box::new(
            Expr::Field { attr: *attr, base: clone_expr(base) },
        ),
        Expr::ForLoop { attr, expr, body } => Box::new(
            Expr::ForLoop { attr: *attr, expr: clone_expr(expr), body: clone_block(body) },
        ),
        Expr::Group { attr, expr } => Box::new(
            Expr::Group { attr: *attr, expr: clone_expr(expr) },
        ),
        Expr::If { attr, cond, then_branch, else_branch } => Box::new(
            Expr::If {
                attr: *attr,
                cond: clone_expr(cond),
                then_branch: clone_block(then_branch),
                else_branch: clone_opt_expr(else_branch),
            },
        ),
        Expr::Index { attr, expr, index } => Box::new(
            Expr::Index { attr: *attr, expr: clone_expr(expr), index: clone_expr(index) },
        ),
        Expr::Infer { attr } => Box::new(Expr::Infer { attr: *attr }),
        Expr::Let { attr, expr } => Box::new(Expr::Let { attr: *attr, expr: clone_expr(expr) }),
        Expr::Lit { attr, val } => Box::new(Expr::Lit { attr: *attr, val: *val }),
        Expr::Loop { attr, body } => Box::new(Expr::Loop { attr: *attr, body: clone_block(body) }),
        Expr::Macro => Box::new(Expr::Macro),
        Expr::Match { attr, expr, arms } => Box::new(
            Expr::Match { attr: *attr, expr: clone_expr(expr), arms: clone_arms(arms) },
        ),
        Expr::MethodCall { attr, receiver, args } => Box::new(
            Expr::MethodCall {
                attr: *attr,
                receiver: clone_expr(receiver),
                args: clone_exprs(args),
            },
        ),
        Expr::Paren { attr, expr } => Box::new(
            Expr::Paren { attr: *attr, expr: clone_expr(expr) },
        ),
        Expr::Path { attr, id } => Box::new(Expr::Path { attr: *attr, id: *id }),
        Expr::Range { attr, start, end } => Box::new(
            Expr::Range { attr: *attr, start: clone_opt_expr(start), end: clone_opt_expr(end) },
        ),
        Expr::RawAddr { attr, expr } => Box::new(
            Expr::RawAddr { attr: *attr, expr: clone_expr(expr) },
        ),
        Expr::Reference { attr, expr } => Box::new(
            Expr::Reference { attr: *attr, expr: clone_expr(expr) },
        ),
        Expr::Repeat { attr, expr, len } => Box::new(
            Expr::Repeat { attr: *attr, expr: clone_expr(expr), len: clone_expr(len) },
        ),
        Expr::Return { attr, expr } => Box::new(
            Expr::Return { attr: *attr, expr: clone_opt_expr(expr) },
        ),
        Expr::Struct { attr, fields, rest } => Box::new(
            Expr::Struct { attr: *attr, fields: clone_fields(fields), rest: clone_opt_expr(rest) },
        ),
        Expr::Try { attr, expr } => Box::new(Expr::Try { attr: *attr, expr: clone_expr(expr) }),
        Expr::TryBlock { attr, block } => Box::new(
            Expr::TryBlock { attr: *attr, block: clone_block(block) },
        ),
        Expr::Tuple { attr, elems } => Box::new(
            Expr::Tuple { attr: *attr, elems: clone_exprs(elems) },
        ),
        Expr::Unary { attr, expr } => Box::new(
            Expr::Unary { attr: *attr, expr: clone_expr(expr) },
        ),
        Expr::Unsafe { attr, block } => Box::new(
            Expr::Unsafe { attr: *attr, block: clone_block(block) },
        ),
        Expr::Verbatim => Box::new(Expr::Verbatim),
        Expr::While { attr, cond, body } => Box::new(
            Expr::While { attr: *attr, cond: clone_expr(cond), body: clone_block(body) },
        ),
        Expr::Await { attr, base } => Box::new(
            Expr::Await { attr: *attr, base: clone_expr(base) },
        ),
        Expr::Yield { expr } => Box::new(Expr::Yield { expr: clone_opt_expr(expr) }),
        Expr::Suspend { ty, arg } => Box::new(Expr::Suspend { ty: *ty, arg: clone_opt_expr(arg) }),
        Expr::AwaitLowered { ty, base } => Box::new(
            Expr::AwaitLowered { ty: *ty, base: clone_expr(base) },
        ),
        Expr::Diag(k) => Box::new(Expr::Diag(*k)),
    }
}

/// An exact structural copy of an optional expression.
pub fn clone_opt_expr(o: &Option<Box<Expr>>) -> (r: Option<Box<Expr>>)
    ensures
        r == *o,
    decreases *o,
{
    match o {
        None => None,
        Some(e) => Some(clone_expr(e)),
    }
}

/// An exact structural copy of an expression sequence.
pub fn clone_exprs(l: &ExprList) -> (r: ExprList)
    ensures
        r == *l,
    decreases *l,
{
    match l {
        ExprList::Nil => ExprList::Nil,
        ExprList::Cons(e, rest) => ExprList::Cons(clone_expr(e), Box::new(clone_exprs(&**rest))),
    }
}

/// An exact structural copy of a block.
pub fn clone_block(b: &Block) -> (r: Block)
    ensures
        r == *b,
    decreases *b,
{
    Block { stmts: clone_stmts(&b.stmts) }
}

/// An exact structural copy of a statement sequence.
pub fn clone_stmts(l: &StmtList) -> (r: StmtList)
    ensures
        r == *l,
    decreases *l,
{
    match l {
        StmtList::Nil => StmtList::Nil,
        StmtList::Cons(s, rest) => StmtList::Cons(clone_stmt(s), Box::new(clone_stmts(&**rest))),
    }
}

/// An exact structural copy of one statement.
pub fn clone_stmt(s: &Stmt) -> (r: Stmt)
    ensures
        r == *s,
    decreases *s,
{
    match s {
        Stmt::Local(local) => Stmt::Local(clone_local(local)),
        Stmt::Item(item) => Stmt::Item(crate::ast::Item { attr: item.attr }),
        Stmt::Expr(e, semi) => Stmt::Expr(clone_expr(e), *semi),
        Stmt::MacroCall => Stmt::MacroCall,
    }
}

/// An exact structural copy of a `let` binding.
pub fn clone_local(l: &Local) -> (r: Local)
    ensures
        r == *l,
    decreases *l,
{
    match &l.init {
        None => Local { attr: l.attr, init: None },
        Some(init) => Local {
            attr: l.attr,
            init: Some(
                LocalInit { expr: clone_expr(&init.expr), diverge: clone_opt_expr(&init.diverge) },
            ),
        },
    }
}

/// An exact structural copy of the arms of a `match`.
pub fn clone_arms(l: &ArmList) -> (r: ArmList)
    ensures
        r == *l,
    decreases *l,
{
    match l {
        ArmList::Nil => ArmList::Nil,
        ArmList::Cons(a, rest) => ArmList::Cons(
            Arm { attr: a.attr, body: clone_expr(&a.body) },
            Box::new(clone_arms(&**rest)),
        ),
    }
}

/// An exact structural copy of the fields of a struct literal.
pub fn clone_fields(l: &FieldList) -> (r: FieldList)
    ensures
        r == *l,
    decreases *l,
{
    match l {
        FieldList::Nil => FieldList::Nil,
        FieldList::Cons(f, rest) => FieldList::Cons(
            FieldValue { attr: f.attr, value: clone_expr(&f.value) },
            Box::new(clone_fields(&**rest)),
        ),
    }
}

} // verus!
