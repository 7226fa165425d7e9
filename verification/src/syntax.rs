//! Expressions and statements, as far as the rewrite looks into them, and
//! their mathematical values.

use vstd::prelude::*;

verus! {

/// How an expression binds when something is written directly behind it.
#[derive(Clone, Copy, Debug, PartialEq, Eq, Structural)]
pub enum Binding {
    /// A path, a literal, a call, a method call, a field access, an index, a
    /// macro call, `?`: it may stand in front of `.name` as it is.
    Postfix,
    /// Everything else: operators, casts, assignments, ranges, closures,
    /// control flow.
    Loose,
}

/// The kinds of expression that bind tightly, and a last one for all the
/// others.
#[derive(Clone, Copy, Debug, PartialEq, Eq, Structural)]
pub enum Kind {
    /// `[a, b]`
    Array,
    /// `f(a)`
    Call,
    /// `a.b`
    Field,
    /// `a[b]`
    Index,
    /// A literal.
    Lit,
    /// `m!(..)`
    Macro,
    /// `a.f(b)`
    MethodCall,
    /// `a::b`
    Path,
    /// `[a; n]`
    Repeat,
    /// `a?`
    Try,
    /// `(a, b)`
    Tuple,
    /// Any other expression, one with attributes in front among them.
    Other,
}

/// How an expression of a kind binds: as a postfix operand where nothing of
/// it can come loose when `.name` is written behind it, loosely otherwise.
pub open spec fn binding_of(kind: Kind) -> Binding {
    match kind {
        Kind::Other => Binding::Loose,
        _ => Binding::Postfix,
    }
}

impl Kind {
    /// How an expression of this kind binds.
    pub fn binding(self) -> (r: Binding)
        ensures
            r == binding_of(self),
    {
        match self {
            Kind::Array
            | Kind::Call
            | Kind::Field
            | Kind::Index
            | Kind::Lit
            | Kind::Macro
            | Kind::MethodCall
            | Kind::Path
            | Kind::Repeat
            | Kind::Try
            | Kind::Tuple => Binding::Postfix,
            Kind::Other => Binding::Loose,
        }
    }
}

/// An expression, as far as the rewriter has to look into it.
#[derive(Debug, PartialEq, Eq)]
pub enum Expr {
    /// `base.await`
    Await(Box<Expr>),
    /// `async { .. }` or, with `capture`, `async move { .. }`
    Async { capture: bool, stmts: Vec<Stmt> },
    /// `{ .. }`
    Block(Vec<Stmt>),
    /// `( inner )`
    Paren(Box<Expr>),
    /// Any other expression: its tokens, with its sub-expressions in place.
    Other { binding: Binding, parts: Vec<Part> },
}

/// One piece of a construct that is carried through: tokens or a sub-expression.
#[derive(Debug, PartialEq, Eq)]
pub enum Part {
    Tokens(String),
    Expr(Expr),
}

/// A statement of a block.
#[derive(Debug, PartialEq, Eq)]
pub enum Stmt {
    /// An expression without a semicolon: the value of its block.
    Expr(Expr),
    /// An expression followed by `;`.
    Semi(Expr),
    /// A `let`, a nested item or a macro statement, with its sub-expressions in place.
    Other(Vec<Part>),
}

/// The mathematical value of an [`Expr`].
pub enum ExprView {
    Await(Box<ExprView>),
    Async { capture: bool, stmts: Seq<StmtView> },
    Block(Seq<StmtView>),
    Paren(Box<ExprView>),
    Other { binding: Binding, parts: Seq<PartView> },
}

/// The mathematical value of a [`Part`].
pub enum PartView {
    Tokens(Seq<char>),
    Expr(ExprView),
}

/// The mathematical value of a [`Stmt`].
pub enum StmtView {
    Expr(ExprView),
    Semi(ExprView),
    Other(Seq<PartView>),
}

/// The value of an expression.
pub open spec fn expr_view(e: Expr) -> ExprView
    decreases e,
{
    match e {
        Expr::Await(base) => ExprView::Await(Box::new(expr_view(*base))),
        Expr::Async { capture, stmts } => ExprView::Async { capture, stmts: stmts_view(stmts@) },
        Expr::Block(stmts) => ExprView::Block(stmts_view(stmts@)),
        Expr::Paren(inner) => ExprView::Paren(Box::new(expr_view(*inner))),
        Expr::Other { binding, parts } => ExprView::Other { binding, parts: parts_view(parts@) },
    }
}

/// The value of a piece.
pub open spec fn part_view(p: Part) -> PartView
    decreases p,
{
    match p {
        Part::Tokens(t) => PartView::Tokens(t@),
        Part::Expr(e) => PartView::Expr(expr_view(e)),
    }
}

/// The values of a list of pieces, one for one.
pub open spec fn parts_view(s: Seq<Part>) -> Seq<PartView>
    decreases s,
{
    if s.len() == 0 {
        Seq::empty()
    } else {
        parts_view(s.drop_last()).push(part_view(s.last()))
    }
}

/// The value of a statement.
pub open spec fn stmt_view(s: Stmt) -> StmtView
    decreases s,
{
    match s {
        Stmt::Expr(e) => StmtView::Expr(expr_view(e)),
        Stmt::Semi(e) => StmtView::Semi(expr_view(e)),
        Stmt::Other(parts) => StmtView::Other(parts_view(parts@)),
    }
}

/// The values of a list of statements, one for one.
pub open spec fn stmts_view(s: Seq<Stmt>) -> Seq<StmtView>
    decreases s,
{
    if s.len() == 0 {
        Seq::empty()
    } else {
        stmts_view(s.drop_last()).push(stmt_view(s.last()))
    }
}

/// The value of a list of pieces holds the value of each piece, in its
/// place.
pub proof fn lemma_parts_view_index(s: Seq<Part>)
    ensures
        parts_view(s).len() == s.len(),
        forall|i: int| 0 <= i < s.len() ==> #[trigger] parts_view(s)[i] == part_view(s[i]),
    decreases s.len(),
{
    if s.len() > 0 {
        lemma_parts_view_index(s.drop_last());
    }
}

/// The value of a list of statements holds the value of each statement, in
/// its place.
pub proof fn lemma_stmts_view_index(s: Seq<Stmt>)
    ensures
        stmts_view(s).len() == s.len(),
        forall|i: int| 0 <= i < s.len() ==> #[trigger] stmts_view(s)[i] == stmt_view(s[i]),
    decreases s.len(),
{
    if s.len() > 0 {
        lemma_stmts_view_index(s.drop_last());
    }
}

impl View for Expr {
    type V = ExprView;

    open spec fn view(&self) -> ExprView {
        expr_view(*self)
    }
}

impl View for Part {
    type V = PartView;

    open spec fn view(&self) -> PartView {
        part_view(*self)
    }
}

impl View for Stmt {
    type V = StmtView;

    open spec fn view(&self) -> StmtView {
        stmt_view(*self)
    }
}

} // verus!
