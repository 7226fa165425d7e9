//! The rewriter: what becomes of suspension expressions and async blocks,
//! what holds of the result, and the code that does it.

use vstd::prelude::*;
use crate::item::{
    Function, FunctionView, ImplBlock, ImplBlockView, Member, MemberView, Method, MethodView,
    TraitDecl, TraitDeclView, members_view,
};
use crate::parse::{Item, ItemView};
use crate::syntax::{
    Binding, Expr, ExprView, Part, PartView, Stmt, StmtView, lemma_parts_view_index,
    lemma_stmts_view_index, part_view, parts_view, stmt_view, stmts_view,
};

verus! {

/// Whether `.name` may be written directly behind the expression without
/// changing what the expression means.
pub open spec fn binds_tightly(e: ExprView) -> bool {
    match e {
        ExprView::Paren(_) => true,
        ExprView::Other { binding, .. } => binding == Binding::Postfix,
        _ => false,
    }
}

/// What an async block becomes once its statements are rewritten: the one
/// expression it holds, where that is all it holds and the expression binds
/// tightly; a plain block otherwise.
pub open spec fn unwrap_block(stmts: Seq<StmtView>) -> ExprView {
    if stmts.len() == 1 && stmts[0] is Expr && binds_tightly(stmts[0]->Expr_0) {
        stmts[0]->Expr_0
    } else {
        ExprView::Block(stmts)
    }
}

/// The synchronous form of an expression. Sub-expressions are rewritten first.
/// `base.await` becomes `base`, in parentheses unless it binds tightly.
/// `async { .. }` becomes `{ .. }`, or what [`unwrap_block`] makes of it.
/// Everything else keeps its shape.
pub open spec fn sync_expr(e: ExprView) -> ExprView
    decreases e,
{
    match e {
        ExprView::Await(base) => {
            let inner = sync_expr(*base);
            if binds_tightly(inner) {
                inner
            } else {
                ExprView::Paren(Box::new(inner))
            }
        },
        ExprView::Async { capture, stmts } => unwrap_block(sync_stmts(stmts)),
        ExprView::Block(stmts) => ExprView::Block(sync_stmts(stmts)),
        ExprView::Paren(inner) => ExprView::Paren(Box::new(sync_expr(*inner))),
        ExprView::Other { binding, parts } => ExprView::Other { binding, parts: sync_parts(parts) },
    }
}

/// The synchronous form of a piece. Tokens stay as they are.
pub open spec fn sync_part(p: PartView) -> PartView
    decreases p,
{
    match p {
        PartView::Tokens(t) => PartView::Tokens(t),
        PartView::Expr(e) => PartView::Expr(sync_expr(e)),
    }
}

/// The synchronous form of each piece, in its place.
pub open spec fn sync_parts(s: Seq<PartView>) -> Seq<PartView>
    decreases s,
{
    if s.len() == 0 {
        Seq::empty()
    } else {
        sync_parts(s.drop_last()).push(sync_part(s.last()))
    }
}

/// The synchronous form of a statement. It stays the kind of statement it is.
pub open spec fn sync_stmt(s: StmtView) -> StmtView
    decreases s,
{
    match s {
        StmtView::Expr(e) => StmtView::Expr(sync_expr(e)),
        StmtView::Semi(e) => StmtView::Semi(sync_expr(e)),
        StmtView::Other(parts) => StmtView::Other(sync_parts(parts)),
    }
}

/// The synchronous form of each statement, in its place.
pub open spec fn sync_stmts(s: Seq<StmtView>) -> Seq<StmtView>
    decreases s,
{
    if s.len() == 0 {
        Seq::empty()
    } else {
        sync_stmts(s.drop_last()).push(sync_stmt(s.last()))
    }
}

/// The number of suspension expressions and async blocks in an expression.
pub open spec fn suspensions_in_expr(e: ExprView) -> nat
    decreases e,
{
    match e {
        ExprView::Await(base) => 1 + suspensions_in_expr(*base),
        ExprView::Async { capture, stmts } => 1 + suspensions_in_stmts(stmts),
        ExprView::Block(stmts) => suspensions_in_stmts(stmts),
        ExprView::Paren(inner) => suspensions_in_expr(*inner),
        ExprView::Other { binding, parts } => suspensions_in_parts(parts),
    }
}

/// The number of suspension expressions and async blocks in a piece.
pub open spec fn suspensions_in_part(p: PartView) -> nat
    decreases p,
{
    match p {
        PartView::Tokens(t) => 0,
        PartView::Expr(e) => suspensions_in_expr(e),
    }
}

/// The number of suspension expressions and async blocks in the pieces.
pub open spec fn suspensions_in_parts(s: Seq<PartView>) -> nat
    decreases s,
{
    if s.len() == 0 {
        0
    } else {
        suspensions_in_parts(s.drop_last()) + suspensions_in_part(s.last())
    }
}

/// The number of suspension expressions and async blocks in a statement.
pub open spec fn suspensions_in_stmt(s: StmtView) -> nat
    decreases s,
{
    match s {
        StmtView::Expr(e) => suspensions_in_expr(e),
        StmtView::Semi(e) => suspensions_in_expr(e),
        StmtView::Other(parts) => suspensions_in_parts(parts),
    }
}

/// The number of suspension expressions and async blocks in the statements.
pub open spec fn suspensions_in_stmts(s: Seq<StmtView>) -> nat
    decreases s,
{
    if s.len() == 0 {
        0
    } else {
        suspensions_in_stmts(s.drop_last()) + suspensions_in_stmt(s.last())
    }
}

/// The tokens that an expression carries through, in the order in which they
/// are written: all of its tokens but `.await`, `async`, `move`, and the
/// parentheses and braces of the shapes that the rewrite knows.
pub open spec fn carried_by_expr(e: ExprView) -> Seq<Seq<char>>
    decreases e,
{
    match e {
        ExprView::Await(base) => carried_by_expr(*base),
        ExprView::Async { capture, stmts } => carried_by_stmts(stmts),
        ExprView::Block(stmts) => carried_by_stmts(stmts),
        ExprView::Paren(inner) => carried_by_expr(*inner),
        ExprView::Other { binding, parts } => carried_by_parts(parts),
    }
}

/// The tokens that a piece carries through.
pub open spec fn carried_by_part(p: PartView) -> Seq<Seq<char>>
    decreases p,
{
    match p {
        PartView::Tokens(t) => seq![t],
        PartView::Expr(e) => carried_by_expr(e),
    }
}

/// The tokens that the pieces carry through, in order.
pub open spec fn carried_by_parts(s: Seq<PartView>) -> Seq<Seq<char>>
    decreases s,
{
    if s.len() == 0 {
        Seq::empty()
    } else {
        carried_by_parts(s.drop_last()) + carried_by_part(s.last())
    }
}

/// The tokens that a statement carries through, and with them whether it is
/// closed by a semicolon.
pub open spec fn carried_by_stmt(s: StmtView) -> Seq<Seq<char>>
    decreases s,
{
    match s {
        StmtView::Expr(e) => carried_by_expr(e),
        StmtView::Semi(e) => carried_by_expr(e).push(";"@),
        StmtView::Other(parts) => carried_by_parts(parts),
    }
}

/// The tokens that the statements carry through, in order.
pub open spec fn carried_by_stmts(s: Seq<StmtView>) -> Seq<Seq<char>>
    decreases s,
{
    if s.len() == 0 {
        Seq::empty()
    } else {
        carried_by_stmts(s.drop_last()) + carried_by_stmt(s.last())
    }
}

/// A method with its body rewritten. The signature is not touched.
pub open spec fn strip_method(m: MethodView) -> MethodView {
    MethodView {
        body: match m.body {
            Some(body) => Some(sync_stmts(body)),
            None => None,
        },
        ..m
    }
}

/// A member with every expression in it rewritten.
pub open spec fn strip_member(m: MemberView) -> MemberView {
    match m {
        MemberView::Method(method) => MemberView::Method(strip_method(method)),
        MemberView::Other(parts) => MemberView::Other(sync_parts(parts)),
    }
}

/// Each member rewritten by itself, in its place.
pub open spec fn strip_members(s: Seq<MemberView>) -> Seq<MemberView> {
    Seq::new(s.len(), |i: int| strip_member(s[i]))
}

/// An item with every expression in it rewritten by [`sync_expr`]. Async
/// markers stay as they are, and a static item stays as it is.
pub open spec fn strip_item(item: ItemView) -> ItemView {
    match item {
        ItemView::Trait(t) => ItemView::Trait(
            TraitDeclView { members: strip_members(t.members), ..t },
        ),
        ItemView::Impl(b) => ItemView::Impl(
            ImplBlockView { members: strip_members(b.members), ..b },
        ),
        ItemView::Fn(f) => ItemView::Fn(FunctionView { body: sync_stmts(f.body), ..f }),
        ItemView::Static(s) => ItemView::Static(s),
    }
}

/// The number of suspension expressions and async blocks in a member.
pub open spec fn suspensions_in_member(m: MemberView) -> nat {
    match m {
        MemberView::Method(method) => match method.body {
            Some(body) => suspensions_in_stmts(body),
            None => 0,
        },
        MemberView::Other(parts) => suspensions_in_parts(parts),
    }
}

/// The number of suspension expressions and async blocks in the members.
pub open spec fn suspensions_in_members(s: Seq<MemberView>) -> nat
    decreases s.len(),
{
    if s.len() == 0 {
        0
    } else {
        suspensions_in_members(s.drop_last()) + suspensions_in_member(s.last())
    }
}

/// The number of suspension expressions and async blocks in the bodies of an
/// item. A static item is not looked into.
pub open spec fn suspensions_in_item(item: ItemView) -> nat {
    match item {
        ItemView::Trait(t) => suspensions_in_members(t.members),
        ItemView::Impl(b) => suspensions_in_members(b.members),
        ItemView::Fn(f) => suspensions_in_stmts(f.body),
        ItemView::Static(s) => 0,
    }
}

/// The synchronous form of an expression holds no suspension expression and no
/// async block, however deep the expression nests them.
pub proof fn lemma_sync_expr_has_no_suspension(e: ExprView)
    ensures
        suspensions_in_expr(sync_expr(e)) == 0,
    decreases e,
{
    match e {
        ExprView::Await(base) => {
            lemma_sync_expr_has_no_suspension(*base);
            let inner = sync_expr(*base);
            assert(suspensions_in_expr(ExprView::Paren(Box::new(inner))) == suspensions_in_expr(
                inner,
            ));
        },
        ExprView::Async { capture, stmts } => {
            lemma_sync_stmts_have_no_suspension(stmts);
            let rewritten = sync_stmts(stmts);
            if rewritten.len() == 1 {
                assert(suspensions_in_stmts(rewritten) == suspensions_in_stmts(
                    rewritten.drop_last(),
                ) + suspensions_in_stmt(rewritten.last()));
                assert(rewritten.last() == rewritten[0]);
                assert(suspensions_in_stmt(rewritten[0]) == 0);
            }
            assert(suspensions_in_expr(ExprView::Block(rewritten)) == suspensions_in_stmts(
                rewritten,
            ));
        },
        ExprView::Block(stmts) => {
            lemma_sync_stmts_have_no_suspension(stmts);
        },
        ExprView::Paren(inner) => {
            lemma_sync_expr_has_no_suspension(*inner);
        },
        ExprView::Other { binding, parts } => {
            lemma_sync_parts_have_no_suspension(parts);
        },
    }
}

/// [`lemma_sync_expr_has_no_suspension`], for the pieces of a construct.
pub proof fn lemma_sync_parts_have_no_suspension(s: Seq<PartView>)
    ensures
        suspensions_in_parts(sync_parts(s)) == 0,
    decreases s,
{
    if s.len() > 0 {
        lemma_sync_parts_have_no_suspension(s.drop_last());
        match s.last() {
            PartView::Tokens(t) => {},
            PartView::Expr(e) => {
                lemma_sync_expr_has_no_suspension(e);
            },
        }
        let r = sync_parts(s);
        assert(r == sync_parts(s.drop_last()).push(sync_part(s.last())));
        assert(r.drop_last() =~= sync_parts(s.drop_last()));
        assert(r.last() == sync_part(s.last()));
        assert(suspensions_in_part(sync_part(s.last())) == 0);
        assert(suspensions_in_parts(r) == suspensions_in_parts(r.drop_last()) + suspensions_in_part(r.last()));
    }
}

/// [`lemma_sync_expr_has_no_suspension`], for the statements of a block.
pub proof fn lemma_sync_stmts_have_no_suspension(s: Seq<StmtView>)
    ensures
        suspensions_in_stmts(sync_stmts(s)) == 0,
    decreases s,
{
    if s.len() > 0 {
        lemma_sync_stmts_have_no_suspension(s.drop_last());
        match s.last() {
            StmtView::Expr(e) => {
                lemma_sync_expr_has_no_suspension(e);
            },
            StmtView::Semi(e) => {
                lemma_sync_expr_has_no_suspension(e);
            },
            StmtView::Other(parts) => {
                lemma_sync_parts_have_no_suspension(parts);
            },
        }
        let r = sync_stmts(s);
        assert(r == sync_stmts(s.drop_last()).push(sync_stmt(s.last())));
        assert(r.drop_last() =~= sync_stmts(s.drop_last()));
        assert(r.last() == sync_stmt(s.last()));
        assert(suspensions_in_stmt(sync_stmt(s.last())) == 0);
        assert(suspensions_in_stmts(r) == suspensions_in_stmts(r.drop_last()) + suspensions_in_stmt(r.last()));
    }
}

/// An expression without suspension expressions and async blocks is its own
/// synchronous form.
pub proof fn lemma_sync_expr_keeps_synchronous(e: ExprView)
    requires
        suspensions_in_expr(e) == 0,
    ensures
        sync_expr(e) == e,
    decreases e,
{
    match e {
        ExprView::Await(base) => {},
        ExprView::Async { capture, stmts } => {},
        ExprView::Block(stmts) => {
            lemma_sync_stmts_keep_synchronous(stmts);
        },
        ExprView::Paren(inner) => {
            lemma_sync_expr_keeps_synchronous(*inner);
        },
        ExprView::Other { binding, parts } => {
            lemma_sync_parts_keep_synchronous(parts);
        },
    }
}

/// [`lemma_sync_expr_keeps_synchronous`], for the pieces of a construct.
pub proof fn lemma_sync_parts_keep_synchronous(s: Seq<PartView>)
    requires
        suspensions_in_parts(s) == 0,
    ensures
        sync_parts(s) == s,
    decreases s,
{
    if s.len() > 0 {
        assert(suspensions_in_parts(s) == suspensions_in_parts(s.drop_last())
            + suspensions_in_part(s.last()));
        lemma_sync_parts_keep_synchronous(s.drop_last());
        match s.last() {
            PartView::Tokens(t) => {},
            PartView::Expr(e) => {
                lemma_sync_expr_keeps_synchronous(e);
            },
        }
        assert(sync_part(s.last()) == s.last());
        assert(sync_parts(s) == sync_parts(s.drop_last()).push(sync_part(s.last())));
        assert(s.drop_last().push(s.last()) =~= s);
    } else {
        assert(sync_parts(s) =~= s);
    }
}

/// [`lemma_sync_expr_keeps_synchronous`], for the statements of a block.
pub proof fn lemma_sync_stmts_keep_synchronous(s: Seq<StmtView>)
    requires
        suspensions_in_stmts(s) == 0,
    ensures
        sync_stmts(s) == s,
    decreases s,
{
    if s.len() > 0 {
        assert(suspensions_in_stmts(s) == suspensions_in_stmts(s.drop_last())
            + suspensions_in_stmt(s.last()));
        lemma_sync_stmts_keep_synchronous(s.drop_last());
        match s.last() {
            StmtView::Expr(e) => {
                lemma_sync_expr_keeps_synchronous(e);
            },
            StmtView::Semi(e) => {
                lemma_sync_expr_keeps_synchronous(e);
            },
            StmtView::Other(parts) => {
                lemma_sync_parts_keep_synchronous(parts);
            },
        }
        assert(sync_stmt(s.last()) == s.last());
        assert(sync_stmts(s) == sync_stmts(s.drop_last()).push(sync_stmt(s.last())));
        assert(s.drop_last().push(s.last()) =~= s);
    } else {
        assert(sync_stmts(s) =~= s);
    }
}

/// The rewrite touches nothing but suspension expressions and async blocks:
/// every other token is carried through, none is lost, none is added, and
/// their order stays.
pub proof fn lemma_sync_expr_carries_the_tokens(e: ExprView)
    ensures
        carried_by_expr(sync_expr(e)) == carried_by_expr(e),
    decreases e,
{
    match e {
        ExprView::Await(base) => {
            lemma_sync_expr_carries_the_tokens(*base);
            let inner = sync_expr(*base);
            assert(carried_by_expr(ExprView::Paren(Box::new(inner))) == carried_by_expr(inner));
        },
        ExprView::Async { capture, stmts } => {
            lemma_sync_stmts_carry_the_tokens(stmts);
            let rewritten = sync_stmts(stmts);
            if rewritten.len() == 1 {
                assert(rewritten.drop_last() =~= Seq::empty());
                assert(carried_by_stmts(rewritten) == carried_by_stmts(rewritten.drop_last())
                    + carried_by_stmt(rewritten.last()));
                assert(carried_by_stmts(rewritten.drop_last()) =~= Seq::empty());
                assert(carried_by_stmts(rewritten) =~= carried_by_stmt(rewritten[0]));
            }
            assert(carried_by_expr(ExprView::Block(rewritten)) == carried_by_stmts(rewritten));
        },
        ExprView::Block(stmts) => {
            lemma_sync_stmts_carry_the_tokens(stmts);
        },
        ExprView::Paren(inner) => {
            lemma_sync_expr_carries_the_tokens(*inner);
        },
        ExprView::Other { binding, parts } => {
            lemma_sync_parts_carry_the_tokens(parts);
        },
    }
}

/// [`lemma_sync_expr_carries_the_tokens`], for the pieces of a construct.
pub proof fn lemma_sync_parts_carry_the_tokens(s: Seq<PartView>)
    ensures
        carried_by_parts(sync_parts(s)) == carried_by_parts(s),
    decreases s,
{
    if s.len() > 0 {
        lemma_sync_parts_carry_the_tokens(s.drop_last());
        match s.last() {
            PartView::Tokens(t) => {},
            PartView::Expr(e) => {
                lemma_sync_expr_carries_the_tokens(e);
            },
        }
        let r = sync_parts(s);
        assert(r == sync_parts(s.drop_last()).push(sync_part(s.last())));
        assert(r.drop_last() =~= sync_parts(s.drop_last()));
        assert(carried_by_part(sync_part(s.last())) == carried_by_part(s.last()));
        assert(carried_by_parts(r) == carried_by_parts(r.drop_last()) + carried_by_part(r.last()));
    }
}

/// [`lemma_sync_expr_carries_the_tokens`], for the statements of a block.
pub proof fn lemma_sync_stmts_carry_the_tokens(s: Seq<StmtView>)
    ensures
        carried_by_stmts(sync_stmts(s)) == carried_by_stmts(s),
    decreases s,
{
    if s.len() > 0 {
        lemma_sync_stmts_carry_the_tokens(s.drop_last());
        match s.last() {
            StmtView::Expr(e) => {
                lemma_sync_expr_carries_the_tokens(e);
            },
            StmtView::Semi(e) => {
                lemma_sync_expr_carries_the_tokens(e);
            },
            StmtView::Other(parts) => {
                lemma_sync_parts_carry_the_tokens(parts);
            },
        }
        let r = sync_stmts(s);
        assert(r == sync_stmts(s.drop_last()).push(sync_stmt(s.last())));
        assert(r.drop_last() =~= sync_stmts(s.drop_last()));
        assert(carried_by_stmt(sync_stmt(s.last())) == carried_by_stmt(s.last()));
        assert(carried_by_stmts(r) == carried_by_stmts(r.drop_last()) + carried_by_stmt(r.last()));
    }
}

/// Whatever stood in front of `.await`, what replaces the suspension
/// expression binds tightly: a method call written behind it still applies to
/// the whole of it.
pub proof fn lemma_awaited_binds_tightly(base: ExprView)
    ensures
        binds_tightly(sync_expr(ExprView::Await(Box::new(base)))),
        sync_expr(ExprView::Await(Box::new(base))) == sync_expr(base) || sync_expr(
            ExprView::Await(Box::new(base)),
        ) == ExprView::Paren(Box::new(sync_expr(base))),
{
}

/// Rewriting a second time changes nothing.
pub proof fn lemma_sync_expr_idempotent(e: ExprView)
    ensures
        sync_expr(sync_expr(e)) == sync_expr(e),
{
    lemma_sync_expr_has_no_suspension(e);
    lemma_sync_expr_keeps_synchronous(sync_expr(e));
}

proof fn lemma_strip_members_have_no_suspension(s: Seq<MemberView>)
    ensures
        suspensions_in_members(strip_members(s)) == 0,
    decreases s.len(),
{
    let r = strip_members(s);
    if s.len() > 0 {
        lemma_strip_members_have_no_suspension(s.drop_last());
        assert(r.drop_last() =~= strip_members(s.drop_last()));
        match s.last() {
            MemberView::Method(method) => {
                if let Some(body) = method.body {
                    lemma_sync_stmts_have_no_suspension(body);
                }
            },
            MemberView::Other(parts) => {
                lemma_sync_parts_have_no_suspension(parts);
            },
        }
        assert(suspensions_in_member(r.last()) == 0);
    }
}

proof fn lemma_strip_members_keep_synchronous(s: Seq<MemberView>)
    requires
        suspensions_in_members(s) == 0,
    ensures
        strip_members(s) == s,
    decreases s.len(),
{
    if s.len() > 0 {
        lemma_strip_members_keep_synchronous(s.drop_last());
        match s.last() {
            MemberView::Method(method) => {
                if let Some(body) = method.body {
                    lemma_sync_stmts_keep_synchronous(body);
                }
            },
            MemberView::Other(parts) => {
                lemma_sync_parts_keep_synchronous(parts);
            },
        }
        assert(strip_member(s.last()) == s.last());
        assert(strip_members(s.drop_last()) == s.drop_last());
        assert forall|i: int| 0 <= i < s.len() implies strip_member(s[i]) == s[i] by {
            if i < s.len() - 1 {
                assert(strip_members(s.drop_last())[i] == s.drop_last()[i]);
            }
        }
    }
    assert(strip_members(s) =~= s);
}

/// After the rewrite no body of the item holds a suspension expression or an
/// async block.
pub proof fn lemma_strip_item_has_no_suspension(item: ItemView)
    ensures
        suspensions_in_item(strip_item(item)) == 0,
{
    match item {
        ItemView::Trait(t) => {
            lemma_strip_members_have_no_suspension(t.members);
        },
        ItemView::Impl(b) => {
            lemma_strip_members_have_no_suspension(b.members);
        },
        ItemView::Fn(f) => {
            lemma_sync_stmts_have_no_suspension(f.body);
        },
        ItemView::Static(s) => {},
    }
}

/// An item without suspension expressions and async blocks is rewritten to
/// itself.
pub proof fn lemma_strip_item_keeps_synchronous(item: ItemView)
    requires
        suspensions_in_item(item) == 0,
    ensures
        strip_item(item) == item,
{
    match item {
        ItemView::Trait(t) => {
            lemma_strip_members_keep_synchronous(t.members);
        },
        ItemView::Impl(b) => {
            lemma_strip_members_keep_synchronous(b.members);
        },
        ItemView::Fn(f) => {
            lemma_sync_stmts_keep_synchronous(f.body);
        },
        ItemView::Static(s) => {},
    }
}

fn tight(e: &Expr) -> (r: bool)
    ensures
        r == binds_tightly(e@),
{
    match e {
        Expr::Paren(_) => true,
        Expr::Other { binding, .. } => match binding {
            Binding::Postfix => true,
            Binding::Loose => false,
        },
        _ => false,
    }
}

/// What is left of an async block whose statements are already rewritten.
fn unwrap(stmts: Vec<Stmt>) -> (r: Expr)
    ensures
        r@ == unwrap_block(stmts_view(stmts@)),
{
    let mut stmts = stmts;
    proof {
        lemma_stmts_view_index(stmts@);
    }
    if stmts.len() != 1 {
        return Expr::Block(stmts);
    }
    let ghost before = stmts@;
    match stmts.pop() {
        Some(Stmt::Expr(inner)) => {
            if tight(&inner) {
                inner
            } else {
                stmts.push(Stmt::Expr(inner));
                assert(stmts@ =~= before);
                Expr::Block(stmts)
            }
        },
        Some(other) => {
            stmts.push(other);
            assert(stmts@ =~= before);
            Expr::Block(stmts)
        },
        None => Expr::Block(stmts),
    }
}

/// Rewrites an expression into its synchronous form.
pub fn rewrite_expr(e: Expr) -> (r: Expr)
    ensures
        r@ == sync_expr(e@),
        suspensions_in_expr(r@) == 0,
        suspensions_in_expr(e@) == 0 ==> r@ == e@,
    decreases e,
{
    proof {
        lemma_sync_expr_has_no_suspension(e@);
        if suspensions_in_expr(e@) == 0 {
            lemma_sync_expr_keeps_synchronous(e@);
        }
    }
    match e {
        Expr::Await(base) => {
            let inner = rewrite_expr(*base);
            if tight(&inner) {
                inner
            } else {
                Expr::Paren(Box::new(inner))
            }
        },
        Expr::Async { capture, stmts } => unwrap(rewrite_stmts(stmts)),
        Expr::Block(stmts) => Expr::Block(rewrite_stmts(stmts)),
        Expr::Paren(inner) => Expr::Paren(Box::new(rewrite_expr(*inner))),
        Expr::Other { binding, parts } => Expr::Other { binding, parts: rewrite_parts(parts) },
    }
}

fn rewrite_part(p: Part) -> (r: Part)
    ensures
        r@ == sync_part(p@),
    decreases p,
{
    match p {
        Part::Tokens(t) => Part::Tokens(t),
        Part::Expr(e) => Part::Expr(rewrite_expr(e)),
    }
}

/// Rewrites the sub-expressions among the pieces of a construct.
pub fn rewrite_parts(v: Vec<Part>) -> (r: Vec<Part>)
    ensures
        parts_view(r@) == sync_parts(parts_view(v@)),
    decreases v@,
{
    let ghost whole = v@;
    let mut out: Vec<Part> = Vec::new();
    for part in it: v
        invariant
            it.seq() == whole,
            parts_view(out@) == sync_parts(parts_view(whole.take(it.index() as int))),
    {
        let ghost done = whole.take(it.index() as int);
        assert(whole.take(it.index() + 1).drop_last() =~= done);
        assert(parts_view(done).push(part_view(part)).drop_last() =~= parts_view(done));
        let ghost front = out@;
        out.push(rewrite_part(part));
        assert(out@.drop_last() =~= front);
    }
    assert(whole.take(whole.len() as int) =~= whole);
    out
}

fn rewrite_stmt(s: Stmt) -> (r: Stmt)
    ensures
        r@ == sync_stmt(s@),
    decreases s,
{
    match s {
        Stmt::Expr(e) => Stmt::Expr(rewrite_expr(e)),
        Stmt::Semi(e) => Stmt::Semi(rewrite_expr(e)),
        Stmt::Other(parts) => Stmt::Other(rewrite_parts(parts)),
    }
}

/// Rewrites the statements of a block.
pub fn rewrite_stmts(v: Vec<Stmt>) -> (r: Vec<Stmt>)
    ensures
        stmts_view(r@) == sync_stmts(stmts_view(v@)),
    decreases v@,
{
    let ghost whole = v@;
    let mut out: Vec<Stmt> = Vec::new();
    for stmt in it: v
        invariant
            it.seq() == whole,
            stmts_view(out@) == sync_stmts(stmts_view(whole.take(it.index() as int))),
    {
        let ghost done = whole.take(it.index() as int);
        assert(whole.take(it.index() + 1).drop_last() =~= done);
        assert(stmts_view(done).push(stmt_view(stmt)).drop_last() =~= stmts_view(done));
        let ghost front = out@;
        out.push(rewrite_stmt(stmt));
        assert(out@.drop_last() =~= front);
    }
    assert(whole.take(whole.len() as int) =~= whole);
    out
}

fn rewrite_member(m: Member) -> (r: Member)
    ensures
        r@ == strip_member(m@),
{
    match m {
        Member::Method(method) => {
            let Method { attrs, vis, sig, body } = method;
            let body = match body {
                Some(stmts) => Some(rewrite_stmts(stmts)),
                None => None,
            };
            Member::Method(Method { attrs, vis, sig, body })
        },
        Member::Other(parts) => Member::Other(rewrite_parts(parts)),
    }
}

fn rewrite_members(v: Vec<Member>) -> (r: Vec<Member>)
    ensures
        members_view(r@) == strip_members(members_view(v@)),
{
    let ghost whole = v@;
    let mut out: Vec<Member> = Vec::new();
    for member in it: v
        invariant
            it.seq() == whole,
            out@.len() == it.index(),
            forall|i: int| 0 <= i < out@.len() ==> out@[i]@ == strip_member(whole[i]@),
    {
        out.push(rewrite_member(member));
    }
    assert(members_view(out@) =~= strip_members(members_view(whole)));
    out
}

fn expr_is_synchronous(e: &Expr) -> (r: bool)
    ensures
        r == (suspensions_in_expr(e@) == 0),
    decreases e,
{
    match e {
        Expr::Await(_) => false,
        Expr::Async { .. } => false,
        Expr::Block(stmts) => stmts_are_synchronous(stmts),
        Expr::Paren(inner) => expr_is_synchronous(inner),
        Expr::Other { binding, parts } => parts_are_synchronous(parts),
    }
}

fn parts_are_synchronous(v: &Vec<Part>) -> (r: bool)
    ensures
        r == (suspensions_in_parts(parts_view(v@)) == 0),
    decreases v,
{
    let mut i: usize = 0;
    while i < v.len()
        invariant
            i <= v.len(),
            suspensions_in_parts(parts_view(v@.take(i as int))) == 0,
        decreases v.len() - i,
    {
        let ghost next = v@.take(i + 1);
        assert(next.drop_last() =~= v@.take(i as int));
        assert(parts_view(next).drop_last() =~= parts_view(v@.take(i as int)));
        assert(parts_view(next).last() == part_view(v@[i as int]));
        assert(suspensions_in_parts(parts_view(next)) == suspensions_in_parts(
            parts_view(next).drop_last(),
        ) + suspensions_in_part(parts_view(next).last()));
        let clean = match &v[i] {
            Part::Tokens(_) => true,
            Part::Expr(e) => expr_is_synchronous(e),
        };
        assert(clean == (suspensions_in_part(part_view(v@[i as int])) == 0));
        if !clean {
            proof {
                lemma_parts_view_index(v@);
                lemma_parts_view_take(v@, i + 1);
                lemma_suspensions_in_parts_grow(parts_view(v@), i + 1);
            }
            return false;
        }
        i += 1;
    }
    assert(v@.take(v.len() as int) =~= v@);
    true
}

fn stmts_are_synchronous(v: &Vec<Stmt>) -> (r: bool)
    ensures
        r == (suspensions_in_stmts(stmts_view(v@)) == 0),
    decreases v,
{
    let mut i: usize = 0;
    while i < v.len()
        invariant
            i <= v.len(),
            suspensions_in_stmts(stmts_view(v@.take(i as int))) == 0,
        decreases v.len() - i,
    {
        let ghost next = v@.take(i + 1);
        assert(next.drop_last() =~= v@.take(i as int));
        assert(stmts_view(next).drop_last() =~= stmts_view(v@.take(i as int)));
        assert(stmts_view(next).last() == stmt_view(v@[i as int]));
        assert(suspensions_in_stmts(stmts_view(next)) == suspensions_in_stmts(
            stmts_view(next).drop_last(),
        ) + suspensions_in_stmt(stmts_view(next).last()));
        let clean = match &v[i] {
            Stmt::Expr(e) => expr_is_synchronous(e),
            Stmt::Semi(e) => expr_is_synchronous(e),
            Stmt::Other(parts) => parts_are_synchronous(parts),
        };
        assert(clean == (suspensions_in_stmt(stmt_view(v@[i as int])) == 0));
        if !clean {
            proof {
                lemma_stmts_view_index(v@);
                lemma_stmts_view_take(v@, i + 1);
                lemma_suspensions_in_stmts_grow(stmts_view(v@), i + 1);
            }
            return false;
        }
        i += 1;
    }
    assert(v@.take(v.len() as int) =~= v@);
    true
}

/// The value of the first `n` pieces is the first `n` of the values.
proof fn lemma_parts_view_take(s: Seq<Part>, n: int)
    requires
        0 <= n <= s.len(),
    ensures
        parts_view(s.take(n)) == parts_view(s).take(n),
    decreases s.len(),
{
    if n == s.len() {
        assert(s.take(n) =~= s);
        lemma_parts_view_index(s);
        assert(parts_view(s).take(n) =~= parts_view(s));
    } else {
        lemma_parts_view_take(s.drop_last(), n);
        lemma_parts_view_index(s.drop_last());
        assert(s.drop_last().take(n) =~= s.take(n));
        assert(parts_view(s).take(n) =~= parts_view(s.drop_last()).take(n));
    }
}

/// The value of the first `n` statements is the first `n` of the values.
proof fn lemma_stmts_view_take(s: Seq<Stmt>, n: int)
    requires
        0 <= n <= s.len(),
    ensures
        stmts_view(s.take(n)) == stmts_view(s).take(n),
    decreases s.len(),
{
    lemma_stmts_view_index(s);
    if n == s.len() {
        assert(s.take(n) =~= s);
        assert(stmts_view(s).take(n) =~= stmts_view(s));
    } else {
        lemma_stmts_view_take(s.drop_last(), n);
        lemma_stmts_view_index(s.drop_last());
        assert(s.drop_last().take(n) =~= s.take(n));
        assert(stmts_view(s).take(n) =~= stmts_view(s.drop_last()).take(n));
    }
}

/// The pieces hold at least as many suspension expressions and async blocks
/// as the first `n` of them.
proof fn lemma_suspensions_in_parts_grow(s: Seq<PartView>, n: int)
    requires
        0 <= n <= s.len(),
    ensures
        suspensions_in_parts(s.take(n)) <= suspensions_in_parts(s),
    decreases s.len() - n,
{
    if n < s.len() {
        assert(s.take(n + 1).drop_last() =~= s.take(n));
        lemma_suspensions_in_parts_grow(s, n + 1);
    } else {
        assert(s.take(n) =~= s);
    }
}

/// The statements hold at least as many suspension expressions and async
/// blocks as the first `n` of them.
proof fn lemma_suspensions_in_stmts_grow(s: Seq<StmtView>, n: int)
    requires
        0 <= n <= s.len(),
    ensures
        suspensions_in_stmts(s.take(n)) <= suspensions_in_stmts(s),
    decreases s.len() - n,
{
    if n < s.len() {
        assert(s.take(n + 1).drop_last() =~= s.take(n));
        lemma_suspensions_in_stmts_grow(s, n + 1);
    } else {
        assert(s.take(n) =~= s);
    }
}

fn member_is_synchronous(m: &Member) -> (r: bool)
    ensures
        r == (suspensions_in_member(m@) == 0),
{
    match m {
        Member::Method(method) => match &method.body {
            Some(body) => stmts_are_synchronous(body),
            None => true,
        },
        Member::Other(parts) => parts_are_synchronous(parts),
    }
}

fn members_are_synchronous(list: &Vec<Member>) -> (r: bool)
    ensures
        r == (suspensions_in_members(members_view(list@)) == 0),
{
    let mut i: usize = 0;
    assert(members_view(list@).take(0) =~= Seq::empty());
    while i < list.len()
        invariant
            i <= list.len(),
            suspensions_in_members(members_view(list@).take(i as int)) == 0,
        decreases list.len() - i,
    {
        let ghost next = members_view(list@).take(i + 1);
        assert(next.drop_last() =~= members_view(list@).take(i as int));
        assert(next.last() == list@[i as int]@);
        if !member_is_synchronous(&list[i]) {
            proof {
                lemma_suspensions_grow(members_view(list@), i + 1);
            }
            return false;
        }
        i += 1;
    }
    assert(members_view(list@).take(i as int) =~= members_view(list@));
    true
}

/// The members hold at least as many suspension expressions and async blocks
/// as the first `n` of them.
proof fn lemma_suspensions_grow(s: Seq<MemberView>, n: int)
    requires
        0 <= n <= s.len(),
    ensures
        suspensions_in_members(s.take(n)) <= suspensions_in_members(s),
    decreases s.len() - n,
{
    if n < s.len() {
        assert(s.take(n + 1).drop_last() =~= s.take(n));
        lemma_suspensions_grow(s, n + 1);
    } else {
        assert(s.take(n) =~= s);
    }
}

impl Expr {
    /// Walks the expression and says whether it is free of suspension
    /// expressions and async blocks.
    pub fn is_synchronous(&self) -> (r: bool)
        ensures
            r == (suspensions_in_expr(self@) == 0),
    {
        expr_is_synchronous(self)
    }
}

impl Item {
    /// Walks the bodies of the item and says whether they are free of
    /// suspension expressions and async blocks.
    pub fn has_no_suspension(&self) -> (r: bool)
        ensures
            r == (suspensions_in_item(self@) == 0),
    {
        match self {
            Item::Trait(decl) => members_are_synchronous(&decl.members),
            Item::Impl(block) => members_are_synchronous(&block.members),
            Item::Fn(function) => stmts_are_synchronous(&function.body),
            Item::Static(_) => true,
        }
    }
}

/// The rewriter that takes suspension expressions and async blocks out of an
/// item.
#[derive(Debug, PartialEq, Eq)]
pub struct AsyncAwaitRemoval;

impl AsyncAwaitRemoval {
    /// Rewrites every expression of the item, wherever it nests, into its
    /// synchronous form. Async markers are left alone.
    pub fn remove_async_await(&mut self, item: Item) -> (r: Item)
        ensures
            r@ == strip_item(item@),
            suspensions_in_item(r@) == 0,
            suspensions_in_item(item@) == 0 ==> r@ == item@,
    {
        proof {
            lemma_strip_item_has_no_suspension(item@);
            if suspensions_in_item(item@) == 0 {
                lemma_strip_item_keeps_synchronous(item@);
            }
        }
        match item {
            Item::Trait(decl) => {
                let TraitDecl { attrs, vis, name, generics, members } = decl;
                Item::Trait(
                    TraitDecl { attrs, vis, name, generics, members: rewrite_members(members) },
                )
            },
            Item::Impl(block) => {
                let ImplBlock {
                    attrs,
                    qualifiers,
                    generics,
                    trait_name,
                    self_ty,
                    where_clause,
                    members,
                } = block;
                Item::Impl(
                    ImplBlock {
                        attrs,
                        qualifiers,
                        generics,
                        trait_name,
                        self_ty,
                        where_clause,
                        members: rewrite_members(members),
                    },
                )
            },
            Item::Fn(function) => {
                let Function { attrs, vis, sig, body } = function;
                Item::Fn(Function { attrs, vis, sig, body: rewrite_stmts(body) })
            },
            Item::Static(item) => Item::Static(item),
        }
    }

    /// Rewrites one expression in place; see [`sync_expr`].
    pub fn visit_expr_mut(&mut self, node: &mut Expr)
        ensures
            final(node)@ == sync_expr(old(node)@),
            suspensions_in_expr(final(node)@) == 0,
    {
        let mut taken = Expr::Block(Vec::new());
        std::mem::swap(node, &mut taken);
        *node = rewrite_expr(taken);
    }
}

} // verus!
