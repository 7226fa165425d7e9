//! The classifier: which of four shapes an annotated item has.

use vstd::prelude::*;
use crate::lex::{is_readable, readable};
use crate::item::{
    Function, FunctionView, ImplBlock, ImplBlockView, StaticItem, StaticItemView, TraitDecl,
    TraitDeclView, texts,
};

verus! {

/// The unit of transformation: exactly one of four shapes.
#[derive(Debug, PartialEq, Eq)]
pub enum Item {
    Trait(TraitDecl),
    Impl(ImplBlock),
    Fn(Function),
    Static(StaticItem),
}

/// The mathematical value of an [`Item`].
pub enum ItemView {
    Trait(TraitDeclView),
    Impl(ImplBlockView),
    Fn(FunctionView),
    Static(StaticItemView),
}

impl View for Item {
    type V = ItemView;

    open spec fn view(&self) -> ItemView {
        match self {
            Item::Trait(t) => ItemView::Trait(t@),
            Item::Impl(b) => ItemView::Impl(b@),
            Item::Fn(f) => ItemView::Fn(f@),
            Item::Static(s) => ItemView::Static(s@),
        }
    }
}

impl ItemView {
    /// An implementation block that is an item names the trait it implements.
    pub open spec fn well_formed(self) -> bool {
        self matches ItemView::Impl(block) ==> block.trait_name is Some
    }

    /// The item's outer attributes.
    pub open spec fn attrs(self) -> Seq<Seq<char>> {
        match self {
            ItemView::Trait(t) => t.attrs,
            ItemView::Impl(b) => b.attrs,
            ItemView::Fn(f) => f.attrs,
            ItemView::Static(s) => s.attrs,
        }
    }
}

/// What each of the four item grammars made of one token stream, read behind
/// its outer attributes: the item where the grammar accepted the stream, and
/// nothing where it did not.
#[derive(Debug, PartialEq, Eq)]
pub struct Readings {
    pub as_impl: Option<ImplBlock>,
    pub as_trait: Option<TraitDecl>,
    pub as_fn: Option<Function>,
    pub as_static: Option<StaticItem>,
}

/// The mathematical value of [`Readings`].
pub struct ReadingsView {
    pub as_impl: Option<ImplBlockView>,
    pub as_trait: Option<TraitDeclView>,
    pub as_fn: Option<FunctionView>,
    pub as_static: Option<StaticItemView>,
}

impl View for Readings {
    type V = ReadingsView;

    open spec fn view(&self) -> ReadingsView {
        ReadingsView {
            as_impl: match self.as_impl {
                Some(b) => Some(b@),
                None => None,
            },
            as_trait: match self.as_trait {
                Some(t) => Some(t@),
                None => None,
            },
            as_fn: match self.as_fn {
                Some(f) => Some(f@),
                None => None,
            },
            as_static: match self.as_static {
                Some(s) => Some(s@),
                None => None,
            },
        }
    }
}

/// The tokens have no shape, or they cannot be read. Each case has its fixed
/// message, and the error points at the start of the input.
#[derive(Debug, PartialEq, Eq)]
pub struct ParseError {
    pub message: String,
    /// The offset into the input at which the error is reported.
    pub offset: usize,
}

/// The message for tokens that have none of the four shapes.
pub open spec fn parse_error_message() -> Seq<char> {
    "expected trait impl, trait, fn, or static item"@
}

/// The message for a text that the grammars cannot be asked about.
pub open spec fn unreadable_message() -> Seq<char> {
    "cannot read a C string literal or the marker of a failed macro expansion"@
}

/// The two messages are not the same.
pub proof fn lemma_messages_differ()
    ensures
        unreadable_message() != parse_error_message(),
{
    reveal_strlit("expected trait impl, trait, fn, or static item");
    reveal_strlit("cannot read a C string literal or the marker of a failed macro expansion");
    assert(parse_error_message()[0] == 'e');
    assert(unreadable_message()[0] == 'c');
}

/// The four shapes that an annotated item can have.
#[derive(Clone, Copy, Debug, PartialEq, Eq, Structural)]
pub enum Shape {
    /// An implementation block that names the trait it implements.
    TraitImpl,
    Trait,
    Fn,
    Static,
}

/// The shape of a token stream, from what the four grammars made of it. The
/// grammars count in a fixed order and the first that accepted the stream
/// wins. `names_trait` says that the grammar of implementation blocks
/// accepted it and that the block names a trait: a block that names none does
/// not count.
pub open spec fn shape_of(names_trait: bool, as_trait: bool, as_fn: bool, as_static: bool)
    -> Option<Shape> {
    if names_trait {
        Some(Shape::TraitImpl)
    } else if as_trait {
        Some(Shape::Trait)
    } else if as_fn {
        Some(Shape::Fn)
    } else if as_static {
        Some(Shape::Static)
    } else {
        None
    }
}

impl ReadingsView {
    /// Whether the stream reads as an implementation block that names a trait.
    pub open spec fn names_trait(self) -> bool {
        self.as_impl matches Some(block) && block.trait_name is Some
    }

    /// The shape that the readings give.
    pub open spec fn shape(self) -> Option<Shape> {
        shape_of(self.names_trait(), self.as_trait is Some, self.as_fn is Some, self.as_static is Some)
    }
}

/// The item that the readings give: the reading of their shape, with `attrs`
/// as its outer attributes.
pub open spec fn classify(attrs: Seq<Seq<char>>, readings: ReadingsView) -> Option<ItemView> {
    match readings.shape() {
        Some(Shape::TraitImpl) => Some(
            ItemView::Impl(ImplBlockView { attrs, ..readings.as_impl->0 }),
        ),
        Some(Shape::Trait) => Some(ItemView::Trait(TraitDeclView { attrs, ..readings.as_trait->0 })),
        Some(Shape::Fn) => Some(ItemView::Fn(FunctionView { attrs, ..readings.as_fn->0 })),
        Some(Shape::Static) => Some(
            ItemView::Static(StaticItemView { attrs, ..readings.as_static->0 }),
        ),
        None => None,
    }
}

/// An implementation block that names no trait is never accepted as a trait
/// implementation, and where the tokens read as nothing else there is no item.
pub proof fn lemma_inherent_impl_is_rejected(attrs: Seq<Seq<char>>, readings: ReadingsView)
    requires
        readings.as_impl matches Some(block) && block.trait_name is None,
    ensures
        !(classify(attrs, readings) matches Some(ItemView::Impl(_))),
        readings.as_trait is None && readings.as_fn is None && readings.as_static is None
            ==> classify(attrs, readings) is None,
{
}

/// The classification gives a trait implementation exactly when the tokens
/// read as an implementation block that names a trait, whatever else they
/// read as.
pub proof fn lemma_impl_item_iff_trait_is_named(attrs: Seq<Seq<char>>, readings: ReadingsView)
    ensures
        classify(attrs, readings) matches Some(ItemView::Impl(_)) <==> readings.names_trait(),
        classify(attrs, readings) matches Some(ItemView::Impl(block)) ==> block.trait_name is Some,
{
}

/// An item that comes out of the classification is well formed and carries
/// the outer attributes that were handed in, whatever its reading held.
pub proof fn lemma_classified_item_has_the_attributes(
    attrs: Seq<Seq<char>>,
    readings: ReadingsView,
)
    ensures
        classify(attrs, readings) matches Some(item) ==> item.well_formed() && item.attrs()
            == attrs,
{
}

/// `syn::parse_str::<syn::ItemImpl>`: reads the tokens as an implementation
/// block. Gives nothing where syn rejects them, and where it accepts them
/// whether the block names a trait. Nothing is claimed of the outcome:
/// whether tokens are accepted is for syn to say, and syn tokenizes through
/// the compiler inside a macro and with proc-macro2 elsewhere. The text has
/// to be readable: the grammar reads literals through `syn::Lit::new`, which
/// panics on a literal that is no string, byte string, byte, character or
/// number. The tokenizer of proc-macro2, which every text has to pass inside
/// a macro too, makes such a literal of a C string and of the error marker
/// and of nothing else, and a readable text holds neither as a token.
#[verifier::external_body]
fn read_impl(tokens: &str) -> Option<bool>
    requires
        is_readable(tokens@),
{
    match syn::parse_str::<syn::ItemImpl>(tokens) {
        Ok(block) => Some(block.trait_.is_some()),
        Err(_) => None,
    }
}

/// `syn::parse_str::<syn::ItemTrait>`: whether syn accepts the tokens as a
/// trait declaration. Nothing is claimed of the outcome. The text has to be
/// readable, as for [`read_impl`].
#[verifier::external_body]
fn reads_as_trait(tokens: &str) -> bool
    requires
        is_readable(tokens@),
{
    syn::parse_str::<syn::ItemTrait>(tokens).is_ok()
}

/// `syn::parse_str::<syn::ItemFn>`: whether syn accepts the tokens as a
/// function with a body. Nothing is claimed of the outcome. The text has to
/// be readable, as for [`read_impl`].
#[verifier::external_body]
fn reads_as_fn(tokens: &str) -> bool
    requires
        is_readable(tokens@),
{
    syn::parse_str::<syn::ItemFn>(tokens).is_ok()
}

/// `syn::parse_str::<syn::ItemStatic>`: whether syn accepts the tokens as a
/// static item. Nothing is claimed of the outcome. The text has to be
/// readable, as for [`read_impl`].
#[verifier::external_body]
fn reads_as_static(tokens: &str) -> bool
    requires
        is_readable(tokens@),
{
    syn::parse_str::<syn::ItemStatic>(tokens).is_ok()
}

fn no_shape() -> (e: ParseError)
    ensures
        e.message@ == parse_error_message(),
        e.offset == 0,
{
    ParseError {
        message: String::from_str("expected trait impl, trait, fn, or static item"),
        offset: 0,
    }
}

fn unreadable() -> (e: ParseError)
    ensures
        e.message@ == unreadable_message(),
        e.offset == 0,
{
    ParseError {
        message: String::from_str(
            "cannot read a C string literal or the marker of a failed macro expansion",
        ),
        offset: 0,
    }
}

impl Shape {
    /// The shape that follows from what the four grammars said; see
    /// [`shape_of`]. `as_impl` is the answer of the grammar of
    /// implementation blocks: nothing where it turned the tokens away, and
    /// else whether the block names a trait. Only a block that does counts.
    pub fn decide(as_impl: Option<bool>, as_trait: bool, as_fn: bool, as_static: bool) -> (r:
        Result<Shape, ParseError>)
        ensures
            match r {
                Ok(shape) => shape_of(as_impl == Some(true), as_trait, as_fn, as_static) == Some(
                    shape,
                ),
                Err(e) => shape_of(as_impl == Some(true), as_trait, as_fn, as_static) is None
                    && e.message@ == parse_error_message() && e.offset == 0,
            },
    {
        let names_trait = match as_impl {
            Some(named) => named,
            None => false,
        };
        if names_trait {
            Ok(Shape::TraitImpl)
        } else if as_trait {
            Ok(Shape::Trait)
        } else if as_fn {
            Ok(Shape::Fn)
        } else if as_static {
            Ok(Shape::Static)
        } else {
            Err(no_shape())
        }
    }

    /// Finds the shape of an item in its token text. A text that is not
    /// readable is turned away with a message of its own. About any other
    /// each of the four grammars is asked, on the whole text, and
    /// [`Shape::decide`] says what follows from their answers. What the
    /// grammars accept is not this library's to say, so beyond that the
    /// contract holds whatever they answer.
    pub fn of(tokens: &str) -> (r: Result<Shape, ParseError>)
        ensures
            !is_readable(tokens@) <==> (r matches Err(e) && e.message@ == unreadable_message()),
            r matches Err(e) ==> e.offset == 0 && (e.message@ == unreadable_message()
                || e.message@ == parse_error_message()),
    {
        proof {
            lemma_messages_differ();
        }
        if !readable(tokens) {
            return Err(unreadable());
        }
        Shape::decide(
            read_impl(tokens),
            reads_as_trait(tokens),
            reads_as_fn(tokens),
            reads_as_static(tokens),
        )
    }
}

impl Item {
    /// Classifies a token stream from its outer attributes and its four
    /// readings. The readings are tried in a fixed order and the first match
    /// wins; its own attributes are replaced by `attrs`.
    pub fn parse(attrs: Vec<String>, readings: Readings) -> (r: Result<Item, ParseError>)
        ensures
            match r {
                Ok(item) => classify(texts(attrs@), readings@) == Some(item@),
                Err(e) => classify(texts(attrs@), readings@) is None && e.message@
                    == parse_error_message() && e.offset == 0,
            },
            r matches Ok(item) ==> item@.well_formed() && item@.attrs() == texts(attrs@),
            r matches Ok(Item::Impl(_)) <==> readings@.names_trait(),
    {
        let as_impl = match &readings.as_impl {
            Some(block) => Some(block.trait_name.is_some()),
            None => None,
        };
        let shape = Shape::decide(
            as_impl,
            readings.as_trait.is_some(),
            readings.as_fn.is_some(),
            readings.as_static.is_some(),
        )?;
        let Readings { as_impl, as_trait, as_fn, as_static } = readings;
        match shape {
            Shape::TraitImpl => {
                let mut block = as_impl.unwrap();
                block.attrs = attrs;
                Ok(Item::Impl(block))
            },
            Shape::Trait => {
                let mut decl = as_trait.unwrap();
                decl.attrs = attrs;
                Ok(Item::Trait(decl))
            },
            Shape::Fn => {
                let mut function = as_fn.unwrap();
                function.attrs = attrs;
                Ok(Item::Fn(function))
            },
            Shape::Static => {
                let mut item = as_static.unwrap();
                item.attrs = attrs;
                Ok(Item::Static(item))
            },
        }
    }
}

} // verus!
