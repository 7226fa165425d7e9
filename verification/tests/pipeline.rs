//! The library behind syn: source text is read into the library's tree,
//! and what the library returns is held against source text.

use maybe_async::item::{Function, ImplBlock, Member, Method, Signature, StaticItem, TraitDecl};
use maybe_async::meta::{Lit, Meta, MetaList, NestedMeta, Operand, StrLit};
use maybe_async::parse::{Item, Readings, Shape};
use maybe_async::{async_impl, maybe_async, must_be_async, must_be_sync};
use maybe_async::syntax::{Expr, Kind, Part, Stmt};
use proc_macro2::{Span, TokenStream, TokenTree};
use quote::ToTokens;
use syn::parse::{Parse, ParseStream};
use syn::visit_mut::{self, VisitMut};

/// An annotated item: its outer attributes, and the reading of the tokens
/// behind them by the grammar of their shape.
struct Input {
    attrs: Vec<String>,
    readings: Readings,
}

impl Parse for Input {
    fn parse(input: ParseStream) -> syn::Result<Self> {
        let attrs = input.call(syn::Attribute::parse_outer)?;
        let rest: TokenStream = input.parse()?;
        // The library finds the shape, and only the reading of that shape is
        // lowered. A text that it cannot read is reported as it says.
        let shape = Shape::of(&rest.to_string())
            .map_err(|e| syn::Error::new(Span::call_site(), e.message))?;
        let mut readings = unread();
        match shape {
            Shape::TraitImpl => {
                readings.as_impl = syn::parse2::<syn::ItemImpl>(rest).ok().map(|b| impl_block(&b));
            }
            Shape::Trait => {
                readings.as_trait = syn::parse2::<syn::ItemTrait>(rest).ok().map(|t| trait_decl(&t));
            }
            Shape::Fn => {
                readings.as_fn = syn::parse2::<syn::ItemFn>(rest).ok().map(|f| function(&f));
            }
            Shape::Static => {
                readings.as_static =
                    syn::parse2::<syn::ItemStatic>(rest).ok().map(|s| static_item(&s));
            }
        }
        Ok(Input { attrs: attrs.iter().map(text).collect(), readings })
    }
}

/// The readings of an item that was not read at all.
fn unread() -> Readings {
    Readings { as_impl: None, as_trait: None, as_fn: None, as_static: None }
}

fn text<T: ToTokens>(node: &T) -> String {
    node.to_token_stream().to_string()
}

/// The texts of several nodes in a row, parted by spaces.
fn texts(nodes: &[&dyn ToTokens]) -> String {
    let mut stream = TokenStream::new();
    for node in nodes {
        node.to_tokens(&mut stream);
    }
    stream.to_string()
}

fn outer(attrs: &[syn::Attribute]) -> Vec<String> {
    attrs.iter().filter(|a| matches!(a.style, syn::AttrStyle::Outer)).map(text).collect()
}

fn inner(attrs: &[syn::Attribute]) -> Vec<Stmt> {
    attrs
        .iter()
        .filter(|a| matches!(a.style, syn::AttrStyle::Inner(_)))
        .map(|a| Stmt::Other(vec![Part::Tokens(text(a))]))
        .collect()
}

fn signature(sig: &syn::Signature) -> Signature {
    // What follows the name is what syn writes behind it.
    let mut decl = TokenStream::new();
    let mut seen_fn = false;
    let mut seen_name = false;
    for token in sig.to_token_stream() {
        if seen_name {
            decl.extend(std::iter::once(token));
        } else if seen_fn {
            seen_name = true;
        } else if matches!(&token, TokenTree::Ident(word) if word == "fn") {
            seen_fn = true;
        }
    }
    Signature {
        is_const: sig.constness.is_some(),
        is_async: sig.asyncness.is_some(),
        is_unsafe: sig.unsafety.is_some(),
        abi: text(&sig.abi),
        name: sig.ident.to_string(),
        decl: decl.to_string(),
    }
}

fn function(item: &syn::ItemFn) -> Function {
    Function {
        attrs: outer(&item.attrs),
        vis: text(&item.vis),
        sig: signature(&item.sig),
        body: block(&item.block),
    }
}

fn trait_decl(item: &syn::ItemTrait) -> TraitDecl {
    TraitDecl {
        attrs: outer(&item.attrs),
        vis: texts(&[&item.vis, &item.unsafety, &item.auto_token]),
        name: item.ident.to_string(),
        generics: texts(&[
            &item.generics,
            &item.colon_token,
            &item.supertraits,
            &item.generics.where_clause,
        ]),
        members: item.items.iter().map(trait_member).collect(),
    }
}

fn impl_block(item: &syn::ItemImpl) -> ImplBlock {
    ImplBlock {
        attrs: outer(&item.attrs),
        qualifiers: texts(&[&item.defaultness, &item.unsafety]),
        generics: text(&item.generics),
        trait_name: item.trait_.as_ref().map(|(bang, path, _)| texts(&[bang, path])),
        self_ty: text(&item.self_ty),
        where_clause: text(&item.generics.where_clause),
        members: item.items.iter().map(impl_member).collect(),
    }
}

fn static_item(item: &syn::ItemStatic) -> StaticItem {
    let mut bare = item.clone();
    bare.attrs.clear();
    StaticItem { attrs: outer(&item.attrs), tokens: text(&bare) }
}

fn trait_member(member: &syn::TraitItem) -> Member {
    match member {
        syn::TraitItem::Method(method) => Member::Method(Method {
            attrs: outer(&method.attrs),
            vis: String::new(),
            sig: signature(&method.sig),
            body: method.default.as_ref().map(|body| {
                let mut stmts = inner(&method.attrs);
                stmts.extend(block(body));
                stmts
            }),
        }),
        other => {
            let mut copy = other.clone();
            let mut holes = Holes::of(other);
            visit_mut::visit_trait_item_mut(&mut holes, &mut copy);
            Member::Other(holes.fill(copy.to_token_stream()))
        }
    }
}

fn impl_member(member: &syn::ImplItem) -> Member {
    match member {
        syn::ImplItem::Method(method) => {
            let mut stmts = inner(&method.attrs);
            stmts.extend(block(&method.block));
            Member::Method(Method {
                attrs: outer(&method.attrs),
                vis: texts(&[&method.vis, &method.defaultness]),
                sig: signature(&method.sig),
                body: Some(stmts),
            })
        }
        other => {
            let mut copy = other.clone();
            let mut holes = Holes::of(other);
            visit_mut::visit_impl_item_mut(&mut holes, &mut copy);
            Member::Other(holes.fill(copy.to_token_stream()))
        }
    }
}

fn block(block: &syn::Block) -> Vec<Stmt> {
    block.stmts.iter().map(stmt).collect()
}

fn stmt(stmt: &syn::Stmt) -> Stmt {
    match stmt {
        syn::Stmt::Expr(e) => Stmt::Expr(expr(e)),
        syn::Stmt::Semi(e, _) => Stmt::Semi(expr(e)),
        other => {
            let mut copy = other.clone();
            let mut holes = Holes::of(other);
            visit_mut::visit_stmt_mut(&mut holes, &mut copy);
            Stmt::Other(holes.fill(copy.to_token_stream()))
        }
    }
}

/// An expression with attributes in front: the attributes as tokens, then
/// the expression without them.
fn attributed(attrs: &[syn::Attribute], bare: Expr) -> Expr {
    if attrs.is_empty() {
        return bare;
    }
    let mut parts: Vec<Part> = attrs.iter().map(|a| Part::Tokens(text(a))).collect();
    parts.push(Part::Expr(bare));
    Expr::Other { binding: Kind::Other.binding(), parts }
}

fn expr(node: &syn::Expr) -> Expr {
    match node {
        syn::Expr::Await(e) => attributed(&e.attrs, Expr::Await(Box::new(expr(&e.base)))),
        syn::Expr::Async(e) => attributed(
            &e.attrs,
            Expr::Async { capture: e.capture.is_some(), stmts: block(&e.block) },
        ),
        syn::Expr::Block(e) if e.label.is_none() => {
            attributed(&e.attrs, Expr::Block(block(&e.block)))
        }
        syn::Expr::Paren(e) => attributed(&e.attrs, Expr::Paren(Box::new(expr(&e.expr)))),
        // A group without delimiters binds as parentheses do, and the text
        // would not show it.
        syn::Expr::Group(e) => attributed(&e.attrs, Expr::Paren(Box::new(expr(&e.expr)))),
        other => {
            let mut copy = other.clone();
            let mut holes = Holes::of(other);
            visit_mut::visit_expr_mut(&mut holes, &mut copy);
            Expr::Other {
                binding: kind(other).binding(),
                parts: holes.fill(copy.to_token_stream()),
            }
        }
    }
}

fn kind(node: &syn::Expr) -> Kind {
    match node {
        syn::Expr::Array(_) => Kind::Array,
        syn::Expr::Call(_) => Kind::Call,
        syn::Expr::Field(_) => Kind::Field,
        syn::Expr::Index(_) => Kind::Index,
        syn::Expr::Lit(_) => Kind::Lit,
        syn::Expr::Macro(_) => Kind::Macro,
        syn::Expr::MethodCall(_) => Kind::MethodCall,
        syn::Expr::Path(_) => Kind::Path,
        syn::Expr::Repeat(_) => Kind::Repeat,
        syn::Expr::Try(_) => Kind::Try,
        syn::Expr::Tuple(_) => Kind::Tuple,
        _ => Kind::Other,
    }
}

/// Takes the sub-expressions out of a node: each is lowered and leaves a
/// placeholder where it stood, so that the node's own tokens can be told
/// from theirs.
// The walk over a node's sub-expressions is syn's, through its `VisitMut`
// trait, which only an impl of that trait can steer.
struct Holes {
    /// What every placeholder starts with: a name that the node's own text
    /// does not hold.
    prefix: String,
    /// Each sub-expression, and whether its placeholder stands in braces.
    found: Vec<(Expr, bool)>,
}

impl Holes {
    fn of<T: ToTokens>(node: &T) -> Self {
        let own = text(node);
        let mut prefix = String::from("__maybe_async_hole");
        while own.contains(&prefix) {
            prefix.push('_');
        }
        Holes { prefix, found: Vec::new() }
    }

    fn placeholder(&self, index: usize) -> String {
        format!("{}_{}_", self.prefix, index)
    }
}

/// Whether syn writes the expression as a block where it minds the
/// difference: behind `else`, and in front of the next arm of a `match`. An
/// async block is left out, for it may not stay a block.
fn stays_a_block(node: &syn::Expr) -> bool {
    matches!(
        node,
        syn::Expr::Unsafe(_)
            | syn::Expr::Block(_)
            | syn::Expr::If(_)
            | syn::Expr::Match(_)
            | syn::Expr::While(_)
            | syn::Expr::Loop(_)
            | syn::Expr::ForLoop(_)
            | syn::Expr::TryBlock(_)
    )
}

impl VisitMut for Holes {
    fn visit_expr_mut(&mut self, node: &mut syn::Expr) {
        let name = syn::Ident::new(&self.placeholder(self.found.len()), Span::call_site());
        let path = syn::Expr::Path(syn::ExprPath { attrs: Vec::new(), qself: None, path: name.into() });
        let braced = stays_a_block(node);
        self.found.push((expr(node), braced));
        *node = if braced {
            syn::Expr::Block(syn::ExprBlock {
                attrs: Vec::new(),
                label: None,
                block: syn::Block { brace_token: Default::default(), stmts: vec![syn::Stmt::Expr(path)] },
            })
        } else {
            path
        };
    }
}

impl Holes {
    /// The node's tokens as pieces, with each sub-expression where its
    /// placeholder stands.
    fn fill(self, tokens: TokenStream) -> Vec<Part> {
        let text = tokens.to_string();
        let mut places: Vec<(usize, usize, Expr)> = Vec::new();
        let names: Vec<String> = (0..self.found.len()).map(|k| self.placeholder(k)).collect();
        for ((found, braced), name) in self.found.into_iter().zip(names) {
            if let Some(at) = text.find(&name) {
                let (mut start, mut end) = (at, at + name.len());
                if braced {
                    // The placeholder's own braces go with it.
                    start = text[..start].trim_end().len().saturating_sub(1);
                    end = text.len() - text[end..].trim_start().len() + 1;
                }
                places.push((start, end, found));
            }
        }
        places.sort_by_key(|place| place.0);
        let mut parts = Vec::new();
        let mut from = 0;
        for (start, end, found) in places {
            let between = text[from..start].trim();
            if !between.is_empty() {
                parts.push(Part::Tokens(between.to_string()));
            }
            parts.push(Part::Expr(found));
            from = end;
        }
        let behind = text[from..].trim();
        if !behind.is_empty() {
            parts.push(Part::Tokens(behind.to_string()));
        }
        parts
    }
}

fn lit(lit: &syn::Lit) -> Lit {
    match lit {
        syn::Lit::Str(s) => Lit::Str(StrLit::new(s.value())),
        other => Lit::Other(text(other)),
    }
}

fn operand(nested: &syn::NestedMeta) -> Operand {
    match nested {
        syn::NestedMeta::Lit(l) => Operand::Lit(lit(l)),
        syn::NestedMeta::Meta(meta) => Operand::Meta(text(meta)),
    }
}

/// An argument of the test annotation.
fn nested_meta(nested: &syn::NestedMeta) -> NestedMeta {
    match nested {
        syn::NestedMeta::Lit(l) => NestedMeta::Lit(lit(l)),
        syn::NestedMeta::Meta(syn::Meta::Path(path)) => NestedMeta::Meta(Meta::Path(text(path))),
        syn::NestedMeta::Meta(syn::Meta::NameValue(pair)) => {
            NestedMeta::Meta(Meta::NameValue(text(pair)))
        }
        syn::NestedMeta::Meta(syn::Meta::List(list)) => NestedMeta::Meta(Meta::List(MetaList {
            name: list.path.segments[0].ident.to_string(),
            tokens: text(list),
            nested: list.nested.iter().map(operand).collect(),
        })),
    }
}

fn read(source: &str) -> Input {
    syn::parse_str::<Input>(source).unwrap()
}

/// Token text without its white space.
fn normal(source: &str) -> String {
    let tokens = source.parse::<TokenStream>().unwrap().to_string();
    tokens.chars().filter(|c| !c.is_whitespace()).collect()
}

fn sync_of(source: &str) -> String {
    let Input { attrs, readings } = read(source);
    normal(&must_be_sync(attrs, readings).unwrap())
}

fn async_of(args: &str, source: &str) -> String {
    let Input { attrs, readings } = read(source);
    normal(&must_be_async(args, attrs, readings).unwrap())
}

const PUB_TRAIT: &str = "pub trait PubTrait {
    fn sync_fn() {}

    async fn declare_async(&self);

    async fn async_fn(&self) {
        self.declare_async().await
    }
}";

const TRAIT_IMPL: &str = "impl PrivateTrait for MaybeAsyncStruct {
    fn sync_fn() {}

    async fn declare_async(&self) {}

    async fn async_fn(&self) {
        self.declare_async().await
    }
}";

#[test]
fn trait_from_source_becomes_synchronous() {
    assert_eq!(Shape::of(PUB_TRAIT), Ok(Shape::Trait));
    assert_eq!(
        sync_of(PUB_TRAIT),
        normal(
            "pub trait PubTrait {
                fn sync_fn() {}
                fn declare_async(&self);
                fn async_fn(&self) { self.declare_async() }
            }"
        )
    );
}

#[test]
fn trait_from_source_stays_asynchronous() {
    assert_eq!(
        async_of("", PUB_TRAIT),
        normal(&format!("#[async_trait::async_trait] {}", PUB_TRAIT))
    );
    assert_eq!(
        async_of("? Send", PUB_TRAIT),
        normal(&format!("#[async_trait::async_trait(?Send)] {}", PUB_TRAIT))
    );
}

#[test]
fn trait_implementation_from_source() {
    assert_eq!(Shape::of(TRAIT_IMPL), Ok(Shape::TraitImpl));
    assert_eq!(
        sync_of(TRAIT_IMPL),
        normal(
            "impl PrivateTrait for MaybeAsyncStruct {
                fn sync_fn() {}
                fn declare_async(&self) {}
                fn async_fn(&self) { self.declare_async() }
            }"
        )
    );
    assert_eq!(
        async_of("Send", TRAIT_IMPL),
        normal(&format!("#[async_trait::async_trait] {}", TRAIT_IMPL))
    );
}

#[test]
fn functions_from_source() {
    assert_eq!(sync_of("async fn maybe_async_fn() {}"), normal("fn maybe_async_fn() {}"));
    assert_eq!(sync_of("pub async fn pub_fn() {}"), normal("pub fn pub_fn() {}"));
    assert_eq!(async_of("", "pub async fn pub_fn() {}"), normal("pub async fn pub_fn() {}"));
    assert_eq!(
        sync_of("async fn async_fn() -> bool { true }"),
        normal("fn async_fn() -> bool { true }")
    );
    assert_eq!(
        sync_of(
            "async fn maybe_async_fn() -> Result<(), ()> {
                let a = Foo::async_fn_name().await?;
                let b = Foo::sync_fn_name()?;
                Ok(())
            }"
        ),
        normal(
            "fn maybe_async_fn() -> Result<(), ()> {
                let a = Foo::async_fn_name()?;
                let b = Foo::sync_fn_name()?;
                Ok(())
            }"
        )
    );
}

#[test]
fn unsafe_function_from_source() {
    let source = "#[inline] pub async unsafe extern \"C\" fn f<T: Send>(x: T) -> u8 where T: Copy { g(x).await }";
    assert_eq!(
        sync_of(source),
        normal("#[inline] pub unsafe extern \"C\" fn f<T: Send>(x: T) -> u8 where T: Copy { g(x) }")
    );
    assert_eq!(async_of("", source), normal(source));
}

#[test]
fn suspension_in_front_of_a_method_call_from_source() {
    assert_eq!(sync_of("fn f() { a().await.method() }"), normal("fn f() { a().method() }"));
    assert_eq!(sync_of("fn f() { (x + y).await }"), normal("fn f() { (x + y) }"));
    assert_eq!(
        sync_of("fn f() { (x + y).await.method() }"),
        normal("fn f() { (x + y).method() }")
    );
    assert_eq!(sync_of("fn f() { a.await + b.await }"), normal("fn f() { a + b }"));
    assert_eq!(sync_of("fn f() { -a.await }"), normal("fn f() { -a }"));
}

#[test]
fn async_blocks_from_source() {
    assert_eq!(sync_of("fn f() -> bool { async { true }.await }"), normal("fn f() -> bool { true }"));
    assert_eq!(
        sync_of("fn f() { let x = async move { a().await; b }; }"),
        normal("fn f() { let x = { a(); b }; }")
    );
    assert_eq!(
        sync_of("fn f() { spawn(async { g().await; }); }"),
        normal("fn f() { spawn({ g(); }); }")
    );
    assert_eq!(sync_of("fn f() { let x = async { a + b }; }"), normal("fn f() { let x = { a + b }; }"));
    assert_eq!(sync_of("fn f() { async {}.await }"), normal("fn f() { ({}) }"));
}

#[test]
fn suspensions_in_nested_constructs_from_source() {
    assert_eq!(
        sync_of(
            "async fn f(v: Vec<u8>) -> u8 {
                if ready().await { a().await; } else { return b(async { c }).await; }
                let g = |x| async move { x.call().await };
                for i in it().await { h(i).await?; }
                match m().await { Some(n) if p(n).await => n.await, _ => [q().await; 2][0] }
            }"
        ),
        normal(
            "fn f(v: Vec<u8>) -> u8 {
                if ready() { a(); } else { return b(c); }
                let g = |x| x.call();
                for i in it() { h(i)?; }
                match m() { Some(n) if p(n) => n, _ => [q(); 2][0] }
            }"
        )
    );
}

#[test]
fn async_block_as_the_body_of_a_match_arm() {
    assert_eq!(
        sync_of("fn f() { match x { A => async { y } B => { z } C => w } }"),
        normal("fn f() { match x { A => y, B => { z } C => w } }")
    );
}

#[test]
fn output_read_again_holds_no_marker_and_no_suspension() {
    for source in [
        PUB_TRAIT,
        TRAIT_IMPL,
        "async fn f() { let x = async { a().await; b }.await; if x.await { c(async move { d }).await } }",
        "pub async unsafe fn f() -> u8 { loop { match g().await { Some(x) => return x.await, None => {} } } }",
    ] {
        let Input { attrs, readings } = read(source);
        let before = Item::parse(attrs, readings).unwrap();
        assert!(!before.is_synchronous());
        let Input { attrs, readings } = read(source);
        let output = must_be_sync(attrs, readings).unwrap();
        let Input { attrs, readings } = read(&output);
        let after = Item::parse(attrs, readings).unwrap();
        assert!(after.has_no_marker());
        assert!(after.has_no_suspension());
        let Input { attrs, readings } = read(&output);
        assert_eq!(normal(&must_be_sync(attrs, readings).unwrap()), normal(&output));
    }
}

#[test]
fn suspension_inside_a_macro_call_is_out_of_sight() {
    assert_eq!(
        sync_of("async fn f() { assert_eq!(g().await, 1); }"),
        normal("fn f() { assert_eq!(g().await, 1); }")
    );
}

#[test]
fn nested_function_keeps_its_marker() {
    assert_eq!(
        sync_of("async fn f() { async fn g() { h().await } g().await }"),
        normal("fn f() { async fn g() { h() } g() }")
    );
}

#[test]
fn synchronous_source_comes_back_unchanged() {
    for source in [
        "fn f<T>(x: T) -> T where T: Clone { let y = x.clone(); (y, 1).0 }",
        "pub(crate) trait T: Send + Sync { type X; const C: usize = 1 + 2; fn a(&self) -> Self::X; }",
        "unsafe impl<T> Bar<T> for Foo<T> where T: Send { type X = T; fn a(&self) { b(); } }",
        "/// documented\n#[allow(unused)] static X: [u8; 2] = [0; 2];",
        "fn f() { if a { b } else if c { d } else { e } match g { 1 => { h } 2 => i, _ => loop {} } }",
        "fn f() -> u8 { let x = if a { 1 } else { 2 }; unsafe { g(x) }.max(while b {} == ()) }",
        "fn f() { 'l: loop { break 'l; } for i in 0..2 { continue; } let c = move |x: u8| -> u8 { x }; }",
        "fn f() { let S { a, .. } = S { a: [1, 2][0], ..d() }; a as u8 + *&mut b? - !c.d::<u8>(e)[f].g }",
    ] {
        assert_eq!(sync_of(source), normal(source));
    }
}

#[test]
fn static_item_from_source() {
    assert_eq!(Shape::of("static X: u8 = 0;"), Ok(Shape::Static));
    assert_eq!(async_of("", "pub static X: u8 = 0;"), normal("pub static X: u8 = 0;"));
}

fn refusal(source: &str) -> String {
    match syn::parse_str::<Input>(source) {
        Ok(_) => panic!("read: {}", source),
        Err(e) => e.to_string(),
    }
}

#[test]
fn inherent_implementation_from_source_is_rejected() {
    let source = "impl Foo { async fn f(&self) { g().await } }";
    assert_eq!(refusal(source), "expected trait impl, trait, fn, or static item");
}

#[test]
fn other_items_from_source_are_rejected() {
    for source in ["struct Foo;", "mod m {}", "fn f();", "const X: u8 = 0;"] {
        assert_eq!(refusal(source), "expected trait impl, trait, fn, or static item");
    }
}

#[test]
fn unreadable_source_is_reported_as_such() {
    for source in [
        "async fn f() -> &'static CStr { c\"x\" }",
        "trait T { async fn f() -> &'static CStr { g(cr#\"x\"#).await } }",
    ] {
        assert_eq!(
            refusal(source),
            "cannot read a C string literal or the marker of a failed macro expansion"
        );
    }
}

#[test]
fn strings_that_look_like_c_strings_are_read() {
    assert_eq!(
        sync_of("async fn f() { g(\"c\", \" c\", 'c', r#\"c\"#, b\"c\").await }"),
        normal("fn f() { g(\"c\", \" c\", 'c', r#\"c\"#, b\"c\") }")
    );
}

#[test]
fn placeholder_names_in_the_source_are_left_alone() {
    assert_eq!(
        sync_of("async fn f() { __maybe_async_hole_0_(__maybe_async_hole_1_.await).await }"),
        normal("fn f() { __maybe_async_hole_0_(__maybe_async_hole_1_) }")
    );
}

#[test]
fn outer_attributes_from_source_stand_in_front() {
    let source = "#[first] /** second */ #[third(x)] async fn f() {}";
    let Input { attrs, readings } = read(source);
    assert_eq!(attrs.len(), 3);
    assert_eq!(
        normal(&must_be_sync(attrs, readings).unwrap()),
        normal("#[first] #[doc = \" second \"] #[third(x)] fn f() {}")
    );
}

#[test]
fn async_implementation_is_dropped_in_the_synchronous_build() {
    let Input { attrs, readings } = read(TRAIT_IMPL);
    assert_eq!(async_impl("", attrs, readings, true), Ok(String::new()));
    assert_eq!(async_impl("", Vec::new(), unread(), true), Ok(String::new()));
}

#[test]
fn arguments_of_the_test_annotation_from_source() {
    let parser = syn::punctuated::Punctuated::<syn::NestedMeta, syn::token::Comma>::parse_terminated;
    let arguments = syn::parse::Parser::parse_str(
        parser,
        "feature = \"is_sync\", async(all(not(feature = \"is_sync\"), feature = \"tokio\"), tokio::test)",
    )
    .unwrap();
    let arguments = arguments.iter().map(nested_meta).collect();
    let expansion = maybe_async::test(arguments, "async fn t() { f().await; }").unwrap();
    assert_eq!(
        normal(&expansion),
        normal(
            "#[cfg_attr(feature = \"is_sync\", maybe_async::must_be_sync, test)]
             #[cfg_attr(all(not(feature = \"is_sync\"), feature = \"tokio\"), maybe_async::must_be_async, tokio::test)]
             async fn t() { f().await; }"
        )
    );
}
