//! The syntax model that the rewriting pass works on: a statement block as
//! the generator definition carries it, with `yield`/`await` still in source
//! form. Nodes record whether any attribute sits on them — the pass rejects
//! attributes in rewritten positions, since an attribute can expand into
//! hidden suspension-bearing code. Scopes the pass must not enter (nested
//! items, closures, async blocks) are kept opaque.

use vstd::prelude::*;

verus! {

/// The generator's declared item type, carried opaquely through lowering and
/// stamped onto each suspension operation.
#[derive(Clone, Copy, PartialEq, Eq, Structural, Debug)]
pub struct Ty {
    pub id: u64,
}

/// The compile-time diagnostics the pass can emit in place of a rejected
/// construct.
#[derive(Clone, Copy, PartialEq, Eq, Structural, Debug)]
pub enum DiagKind {
    /// A macro invocation stood directly as a statement or expression: its
    /// expansion could itself contain a yield, invisibly to the pass.
    MacroForbidden,
    /// An attribute sat on a statement (a `let` binding or a nested item),
    /// a rewritten expression, a field value or a match arm.
    AttrForbidden,
    /// An `await` appeared although the generator is declared synchronous.
    AwaitInSync,
    /// Tokens the host parser could not make sense of.
    Unparsed,
}

/// A statement block.
pub struct Block {
    pub stmts: StmtList,
}

/// A sequence of statements.
pub enum StmtList {
    Nil,
    Cons(Stmt, Box<StmtList>),
}

/// A sequence of expressions: array elements, call arguments, tuple fields.
pub enum ExprList {
    Nil,
    Cons(Box<Expr>, Box<ExprList>),
}

/// The arms of a `match`.
pub enum ArmList {
    Nil,
    Cons(Arm, Box<ArmList>),
}

/// The `name: value` pairs of a struct literal.
pub enum FieldList {
    Nil,
    Cons(FieldValue, Box<FieldList>),
}

/// A nested item definition: an opaque new scope whose body the pass never
/// enters. An attribute on the item itself is rejected like on any other
/// statement.
pub struct Item {
    pub attr: bool,
}

/// A `let` binding's initializer, with the diverging `else` expression of a
/// `let .. else`.
pub struct LocalInit {
    pub expr: Box<Expr>,
    pub diverge: Option<Box<Expr>>,
}

/// A `let` binding.
pub struct Local {
    pub attr: bool,
    pub init: Option<LocalInit>,
}

/// One arm of a `match`.
pub struct Arm {
    pub attr: bool,
    pub body: Box<Expr>,
}

/// One `name: value` pair of a struct literal.
pub struct FieldValue {
    pub attr: bool,
    pub value: Box<Expr>,
}

/// A statement.
pub enum Stmt {
    Local(Local),
    Item(Item),
    /// An expression statement; the flag records a trailing semicolon.
    Expr(Box<Expr>, bool),
    /// A macro invocation standing as a whole statement.
    MacroCall,
}

/// An expression. The `attr` field of a variant records whether any
/// attribute sits directly on that node.
pub enum Expr {
    Array { attr: bool, elems: ExprList },
    Assign { attr: bool, left: Box<Expr>, right: Box<Expr> },
    /// An async block: a new suspendable scope of its own, kept opaque.
    Async { attr: bool },
    Binary { attr: bool, left: Box<Expr>, right: Box<Expr> },
    Block { attr: bool, block: Block },
    Break { attr: bool, expr: Option<Box<Expr>> },
    Call { attr: bool, func: Box<Expr>, args: ExprList },
    Cast { attr: bool, expr: Box<Expr> },
    /// A closure: its body is a new scope the pass never rewrites.
    Closure { attr: bool },
    Const { attr: bool, block: Block },
    Continue { attr: bool },
    Field { attr: bool, base: Box<Expr> },
    ForLoop { attr: bool, expr: Box<Expr>, body: Block },
    Group { attr: bool, expr: Box<Expr> },
    If { attr: bool, cond: Box<Expr>, then_branch: Block, else_branch: Option<Box<Expr>> },
    Index { attr: bool, expr: Box<Expr>, index: Box<Expr> },
    Infer { attr: bool },
    Let { attr: bool, expr: Box<Expr> },
    Lit { attr: bool, val: u64 },
    Loop { attr: bool, body: Block },
    /// A macro invocation in expression position.
    Macro,
    Match { attr: bool, expr: Box<Expr>, arms: ArmList },
    MethodCall { attr: bool, receiver: Box<Expr>, args: ExprList },
    Paren { attr: bool, expr: Box<Expr> },
    Path { attr: bool, id: u64 },
    Range { attr: bool, start: Option<Box<Expr>>, end: Option<Box<Expr>> },
    RawAddr { attr: bool, expr: Box<Expr> },
    Reference { attr: bool, expr: Box<Expr> },
    Repeat { attr: bool, expr: Box<Expr>, len: Box<Expr> },
    Return { attr: bool, expr: Option<Box<Expr>> },
    Struct { attr: bool, fields: FieldList, rest: Option<Box<Expr>> },
    Try { attr: bool, expr: Box<Expr> },
    TryBlock { attr: bool, block: Block },
    Tuple { attr: bool, elems: ExprList },
    Unary { attr: bool, expr: Box<Expr> },
    Unsafe { attr: bool, block: Block },
    /// Tokens the host parser could not parse.
    Verbatim,
    While { attr: bool, cond: Box<Expr>, body: Block },
    Await { attr: bool, base: Box<Expr> },
    Yield { expr: Option<Box<Expr>> },
    /// Output form of a lowered `yield`: deposit the argument's value into
    /// the slot of the current resume call and suspend.
    Suspend { ty: Ty, arg: Option<Box<Expr>> },
    /// Output form of a lowered `await`: poll the wrapped work with the real
    /// notification handle of the current resume call.
    AwaitLowered { ty: Ty, base: Box<Expr> },
    /// Output form of a rejection: a compile-time diagnostic in place of the
    /// offending construct.
    Diag(DiagKind),
}

} // verus!
