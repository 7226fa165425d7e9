use maybe_async::item::{Function, ImplBlock, Signature, StaticItem, TraitDecl};
use maybe_async::lex::readable;
use maybe_async::parse::{Item, ParseError, Readings, Shape};

const NO_SHAPE: &str = "expected trait impl, trait, fn, or static item";

fn text(s: &str) -> String {
    s.to_string()
}

fn signature(name: &str) -> Signature {
    Signature {
        is_const: false,
        is_async: false,
        is_unsafe: false,
        abi: text(""),
        name: text(name),
        decl: text("()"),
    }
}

fn function(name: &str) -> Function {
    Function { attrs: vec![text("#[own]")], vis: text(""), sig: signature(name), body: vec![] }
}

fn trait_decl(name: &str) -> TraitDecl {
    TraitDecl {
        attrs: vec![text("#[own]")],
        vis: text("pub"),
        name: text(name),
        generics: text(""),
        members: vec![],
    }
}

fn impl_block(trait_name: Option<&str>) -> ImplBlock {
    ImplBlock {
        attrs: vec![text("#[own]")],
        qualifiers: text(""),
        generics: text(""),
        trait_name: trait_name.map(text),
        self_ty: text("Foo"),
        where_clause: text(""),
        members: vec![],
    }
}

fn static_item() -> StaticItem {
    StaticItem { attrs: vec![text("#[own]")], tokens: text("static X : u8 = 0 ;") }
}

fn nothing() -> Readings {
    Readings { as_impl: None, as_trait: None, as_fn: None, as_static: None }
}

fn no_shape() -> ParseError {
    ParseError { message: text(NO_SHAPE), offset: 0 }
}

fn unreadable() -> ParseError {
    ParseError {
        message: text("cannot read a C string literal or the marker of a failed macro expansion"),
        offset: 0,
    }
}

#[test]
fn trait_implementation_is_accepted() {
    let readings = Readings { as_impl: Some(impl_block(Some("Bar"))), ..nothing() };
    let item = Item::parse(vec![text("#[outer]")], readings).unwrap();
    let mut expected = impl_block(Some("Bar"));
    expected.attrs = vec![text("#[outer]")];
    assert_eq!(item, Item::Impl(expected));
}

#[test]
fn inherent_implementation_is_rejected() {
    let readings = Readings { as_impl: Some(impl_block(None)), ..nothing() };
    assert_eq!(Item::parse(vec![], readings), Err(no_shape()));
}

#[test]
fn inherent_implementation_never_counts_as_a_trait_implementation() {
    let readings = Readings {
        as_impl: Some(impl_block(None)),
        as_fn: Some(function("f")),
        ..nothing()
    };
    let mut expected = function("f");
    expected.attrs = vec![];
    assert_eq!(Item::parse(vec![], readings), Ok(Item::Fn(expected)));
}

#[test]
fn trait_declaration_is_accepted() {
    let readings = Readings { as_trait: Some(trait_decl("T")), ..nothing() };
    let item = Item::parse(vec![text("#[a]"), text("#[b]")], readings).unwrap();
    let mut expected = trait_decl("T");
    expected.attrs = vec![text("#[a]"), text("#[b]")];
    assert_eq!(item, Item::Trait(expected));
}

#[test]
fn function_is_accepted() {
    let readings = Readings { as_fn: Some(function("f")), ..nothing() };
    let mut expected = function("f");
    expected.attrs = vec![text("#[outer]")];
    assert_eq!(Item::parse(vec![text("#[outer]")], readings), Ok(Item::Fn(expected)));
}

#[test]
fn static_item_is_accepted() {
    let readings = Readings { as_static: Some(static_item()), ..nothing() };
    let mut expected = static_item();
    expected.attrs = vec![];
    assert_eq!(Item::parse(vec![], readings), Ok(Item::Static(expected)));
}

#[test]
fn nothing_matches_nothing() {
    let error = Item::parse(vec![text("#[outer]")], nothing()).unwrap_err();
    assert_eq!(error.message, NO_SHAPE);
    assert_eq!(error.offset, 0);
}

#[test]
fn first_match_wins() {
    let all = || Readings {
        as_impl: Some(impl_block(Some("Bar"))),
        as_trait: Some(trait_decl("T")),
        as_fn: Some(function("f")),
        as_static: Some(static_item()),
    };
    assert!(matches!(Item::parse(vec![], all()), Ok(Item::Impl(_))));
    assert!(matches!(Item::parse(vec![], Readings { as_impl: None, ..all() }), Ok(Item::Trait(_))));
    assert!(matches!(
        Item::parse(vec![], Readings { as_impl: None, as_trait: None, ..all() }),
        Ok(Item::Fn(_))
    ));
    assert!(matches!(
        Item::parse(vec![], Readings { as_impl: None, as_trait: None, as_fn: None, ..all() }),
        Ok(Item::Static(_))
    ));
}

#[test]
fn outer_attributes_replace_the_readings_own() {
    let readings = Readings { as_fn: Some(function("f")), ..nothing() };
    match Item::parse(vec![text("#[inline]"), text("#[test]")], readings) {
        Ok(Item::Fn(f)) => assert_eq!(f.attrs, vec![text("#[inline]"), text("#[test]")]),
        other => panic!("{:?}", other),
    }
    let readings = Readings { as_fn: Some(function("f")), ..nothing() };
    match Item::parse(vec![], readings) {
        Ok(Item::Fn(f)) => assert!(f.attrs.is_empty()),
        other => panic!("{:?}", other),
    }
}

#[test]
fn shape_follows_the_order_of_the_grammars() {
    assert_eq!(Shape::decide(Some(true), true, true, true), Ok(Shape::TraitImpl));
    assert_eq!(Shape::decide(Some(true), false, false, false), Ok(Shape::TraitImpl));
    assert_eq!(Shape::decide(None, true, true, true), Ok(Shape::Trait));
    assert_eq!(Shape::decide(None, false, true, true), Ok(Shape::Fn));
    assert_eq!(Shape::decide(None, false, false, true), Ok(Shape::Static));
    assert_eq!(Shape::decide(None, false, false, false), Err(no_shape()));
}

#[test]
fn implementation_block_without_a_trait_does_not_count() {
    assert_eq!(Shape::decide(Some(false), false, false, false), Err(no_shape()));
    assert_eq!(Shape::decide(Some(false), true, true, true), Ok(Shape::Trait));
    assert_eq!(Shape::decide(Some(false), false, true, false), Ok(Shape::Fn));
    assert_eq!(Shape::decide(Some(false), false, false, true), Ok(Shape::Static));
}

#[test]
fn text_with_a_c_string_is_not_readable() {
    for text in [
        "fn f() { c\"x\" }",
        "impl T for S { fn f() { c\"x\" } }",
        "trait T { fn f() { c\"x\" } }",
        "static X: &CStr = c\"x\";",
        "c\"x\"",
        "fn f() { g(cr\"x\") }",
        "fn f() { cr#\"x\"# }",
        "fn f() { 1.c\"x\" }",
    ] {
        assert!(!readable(text), "{}", text);
        assert_eq!(Shape::of(text), Err(unreadable()), "{}", text);
    }
}

#[test]
fn text_with_the_error_marker_is_not_readable() {
    for text in [
        "(/*ERROR*/)",
        "fn f() { (/*ERROR*/) }",
        "static X: (/*ERROR*/) = 0;",
        "trait T { fn f() -> (/*ERROR*/); }",
    ] {
        assert!(!readable(text), "{}", text);
        assert_eq!(Shape::of(text), Err(unreadable()), "{}", text);
    }
}

#[test]
fn readable_text_without_a_shape_keeps_the_other_message() {
    for text in ["", "struct Foo;", "impl Foo {}", "fn f() { \"c\"", "fn f() { \"c\" } }"] {
        assert!(readable(text), "{}", text);
        assert_eq!(Shape::of(text), Err(no_shape()), "{}", text);
    }
}

#[test]
fn text_behind_a_character_outside_ascii() {
    assert!(readable("fn f() { let é = \"c\"; é }"));
    assert_eq!(Shape::of("fn f() { let é = \"c\"; é }"), Ok(Shape::Fn));
    assert!(!readable("fn f() { é\u{2003}c\"x\" }"));
    assert!(!readable("fn f() { \u{2003}r\"x\" }"));
    assert!(readable("fn f() { \u{2003} r\"x\" }"));
}

#[test]
fn ordinary_text_is_readable() {
    for text in [
        "",
        "c",
        "cr",
        "#[cfg(feature = \"is_sync\")] fn f() {}",
        "fn f() { abc\"x\"; sync\"\"; x_c\"y\"; 1c\"z\" }",
        "fn f(c: u8, cr: u8) -> u8 { c + cr }",
        "fn f() { (/*ERROR */ 1) }",
        "fn f() { (/* ERROR*/) }",
        "fn f() { let s = \"a\\n\\u{1F600}\\x41\"; let c = 'c'; let r = r#\"c\"#; 0x1F + 1e-3 }",
        "fn f<'a>(x: &'a str) -> &'a str { x }",
    ] {
        assert!(readable(text), "{}", text);
    }
}

#[test]
fn characters_inside_strings_and_comments_do_not_count() {
    for text in [
        "fn f() { \"c\" }",
        "fn f() { \"a c\" }",
        "fn f() { r#\"c\"# }",
        "fn f() { [\"a\", \"b\", \"c\"] }",
        "fn f() { '\"'; \" c\" }",
        "fn f() { /* c\"x\" (/*ERROR*/) */ }",
        "fn f() { // c\"x\"\n }",
        "fn f() { \"(/*ERROR*/)\" }",
        "fn f() { r#c; \"x\" }",
    ] {
        assert!(readable(text), "{}", text);
        assert_eq!(Shape::of(text), Ok(Shape::Fn), "{}", text);
    }
}

#[test]
fn shape_of_a_trait_implementation() {
    assert_eq!(Shape::of("impl Bar for Foo { async fn f(&self) {} }"), Ok(Shape::TraitImpl));
    assert_eq!(
        Shape::of("#[inline] unsafe impl<T: Clone> a::Bar<T> for Foo<T> where T: Send {}"),
        Ok(Shape::TraitImpl)
    );
}

#[test]
fn shape_of_an_inherent_implementation() {
    assert_eq!(Shape::of("impl Foo { async fn f(&self) {} }"), Err(no_shape()));
    assert_eq!(Shape::of("impl<T> Foo<T> {}"), Err(no_shape()));
}

#[test]
fn shape_of_a_trait_declaration() {
    assert_eq!(
        Shape::of("pub trait T { fn sync_fn() {} async fn declare_async(&self); }"),
        Ok(Shape::Trait)
    );
    assert_eq!(Shape::of("/// documented\ntrait T {}"), Ok(Shape::Trait));
}

#[test]
fn shape_of_a_function() {
    assert_eq!(Shape::of("async fn maybe_async_fn() {}"), Ok(Shape::Fn));
    assert_eq!(Shape::of("pub async fn f() -> bool { true }"), Ok(Shape::Fn));
    assert_eq!(Shape::of("pub(crate) unsafe fn f() {}"), Ok(Shape::Fn));
    assert_eq!(Shape::of("#[test] async unsafe fn f() { g().await }"), Ok(Shape::Fn));
}

#[test]
fn shape_of_a_static_item() {
    assert_eq!(Shape::of("static X: u8 = 0;"), Ok(Shape::Static));
    assert_eq!(Shape::of("pub static mut COUNTER: usize = 0;"), Ok(Shape::Static));
}

#[test]
fn shape_of_anything_else() {
    assert_eq!(Shape::of(""), Err(no_shape()));
    assert_eq!(Shape::of("struct Foo;"), Err(no_shape()));
    assert_eq!(Shape::of("fn f();"), Err(no_shape()));
    assert_eq!(Shape::of("fn f() {} fn g() {}"), Err(no_shape()));
    assert_eq!(Shape::of("trait T {"), Err(no_shape()));
    assert_eq!(Shape::of("const X: u8 = 0;"), Err(no_shape()));
}
