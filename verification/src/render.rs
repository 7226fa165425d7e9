//! From a tree back to token text.

use vstd::prelude::*;
use crate::item::{
    Function, FunctionView, ImplBlock, ImplBlockView, Member, MemberView, Method, MethodView,
    Signature, SignatureView, StaticItem, StaticItemView, TraitDecl, TraitDeclView, members_view,
    texts,
};
use crate::parse::{Item, ItemView};
use crate::syntax::{Expr, ExprView, Part, PartView, Stmt, StmtView, parts_view, stmts_view};

verus! {

/// A run of tokens with the space that parts it from what follows; nothing
/// where there are no tokens.
pub open spec fn word(t: Seq<char>) -> Seq<char> {
    if t.len() == 0 {
        t
    } else {
        t + " "@
    }
}

/// A keyword that is written only where its flag is set.
pub open spec fn keyword(present: bool, text: Seq<char>) -> Seq<char> {
    if present {
        text
    } else {
        Seq::empty()
    }
}

/// The words of a list, in order.
pub open spec fn words(s: Seq<Seq<char>>) -> Seq<char>
    decreases s.len(),
{
    if s.len() == 0 {
        Seq::empty()
    } else {
        words(s.drop_last()) + word(s.last())
    }
}

/// The token text of an expression.
pub open spec fn render_expr(e: ExprView) -> Seq<char>
    decreases e,
{
    match e {
        ExprView::Await(base) => render_expr(*base) + ". await "@,
        ExprView::Async { capture, stmts } => "async "@ + keyword(capture, "move "@) + "{ "@
            + render_stmts(stmts) + "} "@,
        ExprView::Block(stmts) => "{ "@ + render_stmts(stmts) + "} "@,
        ExprView::Paren(inner) => "( "@ + render_expr(*inner) + ") "@,
        ExprView::Other { binding, parts } => render_parts(parts),
    }
}

/// The token text of a piece: its tokens as a word, or its expression.
pub open spec fn render_part(p: PartView) -> Seq<char>
    decreases p,
{
    match p {
        PartView::Tokens(t) => word(t),
        PartView::Expr(e) => render_expr(e),
    }
}

/// The token text of the pieces, in order.
pub open spec fn render_parts(s: Seq<PartView>) -> Seq<char>
    decreases s,
{
    if s.len() == 0 {
        Seq::empty()
    } else {
        render_parts(s.drop_last()) + render_part(s.last())
    }
}

/// The token text of a statement.
pub open spec fn render_stmt(s: StmtView) -> Seq<char>
    decreases s,
{
    match s {
        StmtView::Expr(e) => render_expr(e),
        StmtView::Semi(e) => render_expr(e) + "; "@,
        StmtView::Other(parts) => render_parts(parts),
    }
}

/// The token text of the statements, in order.
pub open spec fn render_stmts(s: Seq<StmtView>) -> Seq<char>
    decreases s,
{
    if s.len() == 0 {
        Seq::empty()
    } else {
        render_stmts(s.drop_last()) + render_stmt(s.last())
    }
}

/// The token text of a signature: `const`, `async`, `unsafe` and the ABI in
/// that order, as far as each is there, then `fn`, the name and the rest.
pub open spec fn render_signature(sig: SignatureView) -> Seq<char> {
    keyword(sig.is_const, "const "@) + keyword(sig.is_async, "async "@) + keyword(
        sig.is_unsafe,
        "unsafe "@,
    ) + word(sig.abi) + "fn "@ + word(sig.name) + word(sig.decl)
}

/// The token text of a function: attributes, visibility, signature, body.
pub open spec fn render_function(f: FunctionView) -> Seq<char> {
    words(f.attrs) + word(f.vis) + render_signature(f.sig) + "{ "@ + render_stmts(f.body) + "} "@
}

/// The token text of a method. One without a body ends in a semicolon.
pub open spec fn render_method(m: MethodView) -> Seq<char> {
    words(m.attrs) + word(m.vis) + render_signature(m.sig) + (match m.body {
        Some(body) => "{ "@ + render_stmts(body) + "} "@,
        None => "; "@,
    })
}

/// The token text of a member.
pub open spec fn render_member(m: MemberView) -> Seq<char> {
    match m {
        MemberView::Method(method) => render_method(method),
        MemberView::Other(parts) => render_parts(parts),
    }
}

/// The token text of the members, in order.
pub open spec fn render_members(s: Seq<MemberView>) -> Seq<char>
    decreases s.len(),
{
    if s.len() == 0 {
        Seq::empty()
    } else {
        render_members(s.drop_last()) + render_member(s.last())
    }
}

/// The token text of a trait declaration.
pub open spec fn render_trait(t: TraitDeclView) -> Seq<char> {
    words(t.attrs) + word(t.vis) + "trait "@ + word(t.name) + word(t.generics) + "{ "@
        + render_members(t.members) + "} "@
}

/// The implemented trait followed by `for`, where a trait is implemented.
pub open spec fn render_implemented(trait_name: Option<Seq<char>>) -> Seq<char> {
    match trait_name {
        Some(name) => word(name) + "for "@,
        None => Seq::empty(),
    }
}

/// The token text of an implementation block.
pub open spec fn render_impl(b: ImplBlockView) -> Seq<char> {
    words(b.attrs) + word(b.qualifiers) + "impl "@ + word(b.generics) + render_implemented(
        b.trait_name,
    ) + word(b.self_ty) + word(b.where_clause) + "{ "@ + render_members(b.members) + "} "@
}

/// The token text of a static item.
pub open spec fn render_static(s: StaticItemView) -> Seq<char> {
    words(s.attrs) + word(s.tokens)
}

/// The token text of an item.
pub open spec fn render_item(item: ItemView) -> Seq<char> {
    match item {
        ItemView::Trait(t) => render_trait(t),
        ItemView::Impl(b) => render_impl(b),
        ItemView::Fn(f) => render_function(f),
        ItemView::Static(s) => render_static(s),
    }
}

/// Text written behind `base + done` stands behind `base`, after `done`.
proof fn lemma_written(base: Seq<char>, done: Seq<char>, piece: Seq<char>)
    ensures
        (base + done) + piece == base + (done + piece),
{
    assert((base + done) + piece =~= base + (done + piece));
}

fn write_word(t: &str, out: &mut String)
    ensures
        final(out)@ == old(out)@ + word(t@),
{
    if !t.is_empty() {
        out.append(t);
        out.append(" ");
        assert(final(out)@ =~= old(out)@ + word(t@));
    } else {
        assert(old(out)@ + word(t@) =~= old(out)@);
    }
}

fn write_keyword(present: bool, text: &str, out: &mut String)
    ensures
        final(out)@ == old(out)@ + keyword(present, text@),
{
    if present {
        out.append(text);
    } else {
        assert(old(out)@ + keyword(present, text@) =~= old(out)@);
    }
}

fn write_words(list: &Vec<String>, out: &mut String)
    ensures
        final(out)@ == old(out)@ + words(texts(list@)),
{
    let mut i: usize = 0;
    assert(texts(list@).take(0) =~= Seq::empty());
    assert(old(out)@ + Seq::<char>::empty() =~= old(out)@);
    while i < list.len()
        invariant
            i <= list.len(),
            out@ == old(out)@ + words(texts(list@).take(i as int)),
        decreases list.len() - i,
    {
        let ghost done = texts(list@).take(i as int);
        let ghost next = texts(list@).take(i + 1);
        assert(next.drop_last() =~= done);
        assert(next.last() == list@[i as int]@);
        let ghost before = out@;
        write_word(list[i].as_str(), out);
        assert(out@ =~= old(out)@ + words(next));
        i += 1;
    }
    assert(texts(list@).take(i as int) =~= texts(list@));
}

fn write_expr(e: &Expr, out: &mut String)
    ensures
        final(out)@ == old(out)@ + render_expr(e@),
    decreases e,
{
    match e {
        Expr::Await(base) => {
            write_expr(base, out);
            out.append(". await ");
            assert(out@ =~= old(out)@ + render_expr(e@));
        },
        Expr::Async { capture, stmts } => {
            out.append("async ");
            write_keyword(*capture, "move ", out);
            out.append("{ ");
            write_stmts(stmts, out);
            out.append("} ");
            assert(out@ =~= old(out)@ + render_expr(e@));
        },
        Expr::Block(stmts) => {
            out.append("{ ");
            write_stmts(stmts, out);
            out.append("} ");
            assert(out@ =~= old(out)@ + render_expr(e@));
        },
        Expr::Paren(inner) => {
            out.append("( ");
            write_expr(inner, out);
            out.append(") ");
            assert(out@ =~= old(out)@ + render_expr(e@));
        },
        Expr::Other { binding, parts } => {
            write_parts(parts, out);
        },
    }
}

fn write_part(p: &Part, out: &mut String)
    ensures
        final(out)@ == old(out)@ + render_part(p@),
    decreases p,
{
    match p {
        Part::Tokens(t) => write_word(t.as_str(), out),
        Part::Expr(e) => write_expr(e, out),
    }
}

fn write_parts(v: &Vec<Part>, out: &mut String)
    ensures
        final(out)@ == old(out)@ + render_parts(parts_view(v@)),
    decreases v,
{
    let mut i: usize = 0;
    assert(old(out)@ + render_parts(parts_view(v@.take(0))) =~= old(out)@);
    while i < v.len()
        invariant
            i <= v.len(),
            out@ == old(out)@ + render_parts(parts_view(v@.take(i as int))),
        decreases v.len() - i,
    {
        let ghost done = v@.take(i as int);
        let ghost next = v@.take(i + 1);
        assert(next.drop_last() =~= done);
        assert(parts_view(next).drop_last() =~= parts_view(done));
        write_part(&v[i], out);
        proof {
            lemma_written(old(out)@, render_parts(parts_view(done)), render_part(v@[i as int]@));
        }
        i += 1;
    }
    assert(v@.take(v.len() as int) =~= v@);
}

fn write_stmt(s: &Stmt, out: &mut String)
    ensures
        final(out)@ == old(out)@ + render_stmt(s@),
    decreases s,
{
    match s {
        Stmt::Expr(e) => write_expr(e, out),
        Stmt::Semi(e) => {
            write_expr(e, out);
            out.append("; ");
            assert(out@ =~= old(out)@ + render_stmt(s@));
        },
        Stmt::Other(parts) => {
            write_parts(parts, out);
        },
    }
}

fn write_stmts(v: &Vec<Stmt>, out: &mut String)
    ensures
        final(out)@ == old(out)@ + render_stmts(stmts_view(v@)),
    decreases v,
{
    let mut i: usize = 0;
    assert(old(out)@ + render_stmts(stmts_view(v@.take(0))) =~= old(out)@);
    while i < v.len()
        invariant
            i <= v.len(),
            out@ == old(out)@ + render_stmts(stmts_view(v@.take(i as int))),
        decreases v.len() - i,
    {
        let ghost done = v@.take(i as int);
        let ghost next = v@.take(i + 1);
        assert(next.drop_last() =~= done);
        assert(stmts_view(next).drop_last() =~= stmts_view(done));
        write_stmt(&v[i], out);
        proof {
            lemma_written(old(out)@, render_stmts(stmts_view(done)), render_stmt(v@[i as int]@));
        }
        i += 1;
    }
    assert(v@.take(v.len() as int) =~= v@);
}

fn write_signature(sig: &Signature, out: &mut String)
    ensures
        final(out)@ == old(out)@ + render_signature(sig@),
{
    let ghost base = out@;
    write_keyword(sig.is_const, "const ", out);
    let ghost done = keyword(sig.is_const, "const "@);
    write_keyword(sig.is_async, "async ", out);
    proof {
        lemma_written(base, done, keyword(sig.is_async, "async "@));
    }
    let ghost done = done + keyword(sig.is_async, "async "@);
    write_keyword(sig.is_unsafe, "unsafe ", out);
    proof {
        lemma_written(base, done, keyword(sig.is_unsafe, "unsafe "@));
    }
    let ghost done = done + keyword(sig.is_unsafe, "unsafe "@);
    write_word(sig.abi.as_str(), out);
    proof {
        lemma_written(base, done, word(sig.abi@));
    }
    let ghost done = done + word(sig.abi@);
    out.append("fn ");
    proof {
        lemma_written(base, done, "fn "@);
    }
    let ghost done = done + "fn "@;
    write_word(sig.name.as_str(), out);
    proof {
        lemma_written(base, done, word(sig.name@));
    }
    let ghost done = done + word(sig.name@);
    write_word(sig.decl.as_str(), out);
    proof {
        lemma_written(base, done, word(sig.decl@));
    }
}

fn write_body(body: &Vec<Stmt>, out: &mut String)
    ensures
        final(out)@ == old(out)@ + ("{ "@ + render_stmts(stmts_view(body@)) + "} "@),
{
    out.append("{ ");
    write_stmts(body, out);
    out.append("} ");
    assert(out@ =~= old(out)@ + ("{ "@ + render_stmts(stmts_view(body@)) + "} "@));
}

fn write_function(f: &Function, out: &mut String)
    ensures
        final(out)@ == old(out)@ + render_function(f@),
{
    write_words(&f.attrs, out);
    write_word(f.vis.as_str(), out);
    write_signature(&f.sig, out);
    write_body(&f.body, out);
    assert(out@ =~= old(out)@ + render_function(f@));
}

fn write_method(m: &Method, out: &mut String)
    ensures
        final(out)@ == old(out)@ + render_method(m@),
{
    write_words(&m.attrs, out);
    write_word(m.vis.as_str(), out);
    write_signature(&m.sig, out);
    match &m.body {
        Some(body) => write_body(body, out),
        None => out.append("; "),
    }
    assert(out@ =~= old(out)@ + render_method(m@));
}

fn write_member(m: &Member, out: &mut String)
    ensures
        final(out)@ == old(out)@ + render_member(m@),
{
    match m {
        Member::Method(method) => write_method(method, out),
        Member::Other(parts) => {
            write_parts(parts, out);
        },
    }
}

fn write_members(list: &Vec<Member>, out: &mut String)
    ensures
        final(out)@ == old(out)@ + ("{ "@ + render_members(members_view(list@)) + "} "@),
{
    out.append("{ ");
    let ghost opened = out@;
    let mut i: usize = 0;
    assert(members_view(list@).take(0) =~= Seq::empty());
    assert(opened + Seq::<char>::empty() =~= opened);
    while i < list.len()
        invariant
            i <= list.len(),
            out@ == opened + render_members(members_view(list@).take(i as int)),
        decreases list.len() - i,
    {
        let ghost done = members_view(list@).take(i as int);
        let ghost next = members_view(list@).take(i + 1);
        assert(next.drop_last() =~= done);
        assert(next.last() == list@[i as int]@);
        write_member(&list[i], out);
        assert(out@ =~= opened + render_members(next));
        i += 1;
    }
    assert(members_view(list@).take(i as int) =~= members_view(list@));
    out.append("} ");
    assert(out@ =~= old(out)@ + ("{ "@ + render_members(members_view(list@)) + "} "@));
}

fn write_trait(t: &TraitDecl, out: &mut String)
    ensures
        final(out)@ == old(out)@ + render_trait(t@),
{
    write_words(&t.attrs, out);
    write_word(t.vis.as_str(), out);
    out.append("trait ");
    write_word(t.name.as_str(), out);
    write_word(t.generics.as_str(), out);
    write_members(&t.members, out);
    assert(out@ =~= old(out)@ + render_trait(t@));
}

fn write_implemented(trait_name: &Option<String>, out: &mut String)
    ensures
        final(out)@ == old(out)@ + render_implemented(
            match trait_name {
                Some(name) => Some(name@),
                None => None,
            },
        ),
{
    match trait_name {
        Some(name) => {
            write_word(name.as_str(), out);
            out.append("for ");
            proof {
                lemma_written(old(out)@, word(name@), "for "@);
            }
        },
        None => {
            assert(old(out)@ + Seq::<char>::empty() =~= old(out)@);
        },
    }
}

fn write_impl(b: &ImplBlock, out: &mut String)
    ensures
        final(out)@ == old(out)@ + render_impl(b@),
{
    let ghost base = out@;
    write_words(&b.attrs, out);
    let ghost done = words(b@.attrs);
    write_word(b.qualifiers.as_str(), out);
    proof {
        lemma_written(base, done, word(b@.qualifiers));
    }
    let ghost done = done + word(b@.qualifiers);
    out.append("impl ");
    proof {
        lemma_written(base, done, "impl "@);
    }
    let ghost done = done + "impl "@;
    write_word(b.generics.as_str(), out);
    proof {
        lemma_written(base, done, word(b@.generics));
    }
    let ghost done = done + word(b@.generics);
    write_implemented(&b.trait_name, out);
    proof {
        lemma_written(base, done, render_implemented(b@.trait_name));
    }
    let ghost done = done + render_implemented(b@.trait_name);
    write_word(b.self_ty.as_str(), out);
    proof {
        lemma_written(base, done, word(b@.self_ty));
    }
    let ghost done = done + word(b@.self_ty);
    write_word(b.where_clause.as_str(), out);
    proof {
        lemma_written(base, done, word(b@.where_clause));
    }
    let ghost done = done + word(b@.where_clause);
    write_members(&b.members, out);
    proof {
        let tail = "{ "@ + render_members(b@.members) + "} "@;
        lemma_written(base, done, tail);
        lemma_written(done, "{ "@ + render_members(b@.members), "} "@);
        lemma_written(done, "{ "@, render_members(b@.members));
    }
}

fn write_static(s: &StaticItem, out: &mut String)
    ensures
        final(out)@ == old(out)@ + render_static(s@),
{
    write_words(&s.attrs, out);
    write_word(s.tokens.as_str(), out);
    assert(out@ =~= old(out)@ + render_static(s@));
}

impl Expr {
    /// The expression as token text.
    pub fn to_tokens(&self) -> (r: String)
        ensures
            r@ == render_expr(self@),
    {
        let mut out = String::new();
        write_expr(self, &mut out);
        assert(out@ =~= render_expr(self@));
        out
    }
}

impl Item {
    /// Writes the item's tokens behind what `out` holds.
    pub fn write_tokens(&self, out: &mut String)
        ensures
            final(out)@ == old(out)@ + render_item(self@),
    {
        match self {
            Item::Trait(t) => write_trait(t, out),
            Item::Impl(b) => write_impl(b, out),
            Item::Fn(f) => write_function(f, out),
            Item::Static(s) => write_static(s, out),
        }
    }

    /// The item as token text.
    pub fn to_tokens(&self) -> (r: String)
        ensures
            r@ == render_item(self@),
    {
        let mut out = String::new();
        self.write_tokens(&mut out);
        assert(out@ =~= render_item(self@));
        out
    }
}

} // verus!
