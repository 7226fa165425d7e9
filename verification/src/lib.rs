//! One source for blocking and non-blocking code.
//!
//! An item that is marked "maybe async" is either kept asynchronous, behind
//! an attribute that brings async support to traits, or made synchronous: its
//! async markers are cleared and every suspension expression and async block
//! in it is rewritten away. The library works on a tree of the item; reading
//! tokens into that tree and tokens out of the text it returns is the
//! caller's part.

use vstd::prelude::*;

pub mod convert;
pub mod error;
pub mod item;
pub mod lex;
pub mod meta;
pub mod parse;
pub mod render;
pub mod syntax;
pub mod visit;

use crate::convert::{Capability, capability_of, convert_async, convert_sync, render_async, sync_item};
use crate::error::{MacroError, MacroErrorView};
use crate::item::texts;
use crate::meta::{
    Meta, MetaView, NestedMeta, NestedMetaView, arguments_view, condition_of, operand_tokens,
};
use crate::parse::{Item, ItemView, Readings, ReadingsView, classify, parse_error_message};
use crate::render::render_item;

verus! {

/// The annotated item, or the error that is reported where it has none of
/// the four shapes.
pub open spec fn item_of(attrs: Seq<Seq<char>>, readings: ReadingsView) -> Result<
    ItemView,
    MacroErrorView,
> {
    match classify(attrs, readings) {
        Some(item) => Ok(item),
        None => Err(MacroErrorView::Parse(parse_error_message(), 0)),
    }
}

/// What `must_be_sync` expands to.
pub open spec fn sync_expansion(attrs: Seq<Seq<char>>, readings: ReadingsView) -> Result<
    Seq<char>,
    MacroErrorView,
> {
    match item_of(attrs, readings) {
        Ok(item) => Ok(render_item(sync_item(item))),
        Err(e) => Err(e),
    }
}

/// What `must_be_async` expands to. The argument is read first.
pub open spec fn async_expansion(
    args: Seq<char>,
    attrs: Seq<Seq<char>>,
    readings: ReadingsView,
) -> Result<Seq<char>, MacroErrorView> {
    match capability_of(args) {
        None => Err(MacroErrorView::InvalidDirectionality),
        Some(capability) => match item_of(attrs, readings) {
            Ok(item) => Ok(render_async(item, capability)),
            Err(e) => Err(e),
        },
    }
}

/// What `maybe_async` expands to: the synchronous form where `is_sync` is
/// set, the asynchronous form otherwise. The argument is read in either case.
pub open spec fn maybe_expansion(
    args: Seq<char>,
    attrs: Seq<Seq<char>>,
    readings: ReadingsView,
    is_sync: bool,
) -> Result<Seq<char>, MacroErrorView> {
    match capability_of(args) {
        None => Err(MacroErrorView::InvalidDirectionality),
        Some(capability) => if is_sync {
            sync_expansion(attrs, readings)
        } else {
            async_expansion(args, attrs, readings)
        },
    }
}

/// What `async_impl` expands to: nothing where `is_sync` is set, and then the
/// item is not even looked at.
pub open spec fn async_impl_expansion(
    args: Seq<char>,
    attrs: Seq<Seq<char>>,
    readings: ReadingsView,
    is_sync: bool,
) -> Result<Seq<char>, MacroErrorView> {
    match capability_of(args) {
        None => Err(MacroErrorView::InvalidDirectionality),
        Some(capability) => if is_sync {
            Ok(Seq::empty())
        } else {
            async_expansion(args, attrs, readings)
        },
    }
}

/// Whether an expansion is the one that was asked for.
pub open spec fn is_expansion(
    r: Result<String, MacroError>,
    expected: Result<Seq<char>, MacroErrorView>,
) -> bool {
    match r {
        Ok(tokens) => expected == Ok::<Seq<char>, MacroErrorView>(tokens@),
        Err(e) => expected == Err::<Seq<char>, MacroErrorView>(e@),
    }
}

fn read_item(attrs: Vec<String>, readings: Readings) -> (r: Result<Item, MacroError>)
    ensures
        match r {
            Ok(item) => item_of(texts(attrs@), readings@) == Ok::<ItemView, MacroErrorView>(item@),
            Err(e) => item_of(texts(attrs@), readings@) == Err::<ItemView, MacroErrorView>(e@),
        },
{
    match Item::parse(attrs, readings) {
        Ok(item) => Ok(item),
        Err(e) => Err(MacroError::Parse(e)),
    }
}

/// Expands to the synchronous form where `is_sync` is set and to the
/// asynchronous form otherwise. `args` is the annotation's argument: nothing
/// or `Send`, or `?Send`.
pub fn maybe_async(args: &str, attrs: Vec<String>, readings: Readings, is_sync: bool) -> (r: Result<
    String,
    MacroError,
>)
    ensures
        is_expansion(r, maybe_expansion(args@, texts(attrs@), readings@, is_sync)),
{
    let capability = match Capability::parse(args) {
        Ok(capability) => capability,
        Err(e) => {
            return Err(e);
        },
    };
    let mut item = match read_item(attrs, readings) {
        Ok(item) => item,
        Err(e) => {
            return Err(e);
        },
    };
    if is_sync {
        Ok(convert_sync(&mut item))
    } else {
        Ok(convert_async(&item, capability))
    }
}

/// Expands to the asynchronous form: the item as it is, with the attribute
/// that brings async support to traits.
pub fn must_be_async(args: &str, attrs: Vec<String>, readings: Readings) -> (r: Result<
    String,
    MacroError,
>)
    ensures
        is_expansion(r, async_expansion(args@, texts(attrs@), readings@)),
{
    let capability = match Capability::parse(args) {
        Ok(capability) => capability,
        Err(e) => {
            return Err(e);
        },
    };
    match read_item(attrs, readings) {
        Ok(item) => Ok(convert_async(&item, capability)),
        Err(e) => Err(e),
    }
}

/// Expands to the synchronous form.
pub fn must_be_sync(attrs: Vec<String>, readings: Readings) -> (r: Result<String, MacroError>)
    ensures
        is_expansion(r, sync_expansion(texts(attrs@), readings@)),
{
    match read_item(attrs, readings) {
        Ok(item) => {
            let mut item = item;
            Ok(convert_sync(&mut item))
        },
        Err(e) => Err(e),
    }
}

/// Keeps a synchronous implementation where `is_sync` is set and drops it
/// otherwise.
pub fn sync_impl(input: &str, is_sync: bool) -> (r: String)
    ensures
        r@ == if is_sync {
            input@
        } else {
            Seq::empty()
        },
{
    if is_sync {
        String::from_str(input)
    } else {
        String::new()
    }
}

/// Drops an asynchronous implementation where `is_sync` is set and expands
/// it as `must_be_async` does otherwise.
pub fn async_impl(args: &str, attrs: Vec<String>, readings: Readings, is_sync: bool) -> (r: Result<
    String,
    MacroError,
>)
    ensures
        is_expansion(r, async_impl_expansion(args@, texts(attrs@), readings@, is_sync)),
{
    let capability = match Capability::parse(args) {
        Ok(capability) => capability,
        Err(e) => {
            return Err(e);
        },
    };
    if is_sync {
        Ok(String::new())
    } else {
        match read_item(attrs, readings) {
            Ok(item) => Ok(convert_async(&item, capability)),
            Err(e) => Err(e),
        }
    }
}

/// The attributes in front of the synchronous test. Where no asynchronous
/// variant is asked for, the test is compiled only under the condition.
pub open spec fn sync_guard(condition: Seq<char>, alone: bool) -> Seq<char> {
    if alone {
        "#[cfg("@ + condition + ")] #[cfg_attr("@ + condition
            + ", maybe_async::must_be_sync, test)] "@
    } else {
        "#[cfg_attr("@ + condition + ", maybe_async::must_be_sync, test)] "@
    }
}

/// The attribute that guards one asynchronous variant of the test.
pub open spec fn async_guard(condition: Seq<char>, test_macro: Seq<char>) -> Seq<char> {
    "#[cfg_attr("@ + condition + ", maybe_async::must_be_async, "@ + test_macro + ")] "@
}

/// The guard that an argument behind the first asks for. It has to be a list
/// named `async` with a condition and a test macro.
pub open spec fn async_guard_of(argument: NestedMetaView) -> Result<Seq<char>, MacroErrorView> {
    match argument {
        NestedMetaView::Meta(MetaView::List(list)) => if list.name != "async"@ {
            Err(MacroErrorView::UnknownPath(list.name))
        } else if list.nested.len() != 2 {
            Err(MacroErrorView::WrongArity(list.nested.len() as usize))
        } else {
            match operand_tokens(list.nested[0]) {
                Err(e) => Err(e),
                Ok(condition) => match operand_tokens(list.nested[1]) {
                    Err(e) => Err(e),
                    Ok(test_macro) => Ok(async_guard(condition, test_macro)),
                },
            }
        },
        _ => Err(MacroErrorView::ExpectedList),
    }
}

/// The guards of all the arguments, in order, or the error of the first
/// argument that has one.
pub open spec fn async_guards(arguments: Seq<NestedMetaView>) -> Result<Seq<char>, MacroErrorView>
    decreases arguments.len(),
{
    if arguments.len() == 0 {
        Ok(Seq::empty())
    } else {
        match async_guards(arguments.drop_last()) {
            Err(e) => Err(e),
            Ok(guards) => match async_guard_of(arguments.last()) {
                Err(e) => Err(e),
                Ok(guard) => Ok(guards + guard),
            },
        }
    }
}

/// What the test annotation expands to: the guard of the synchronous test,
/// the guards of its asynchronous variants, and the test itself.
pub open spec fn test_expansion(arguments: Seq<NestedMetaView>, input: Seq<char>) -> Result<
    Seq<char>,
    MacroErrorView,
> {
    if arguments.len() == 0 {
        Err(MacroErrorView::MissingCondition)
    } else {
        match condition_of(arguments[0]) {
            Err(e) => Err(e),
            Ok(condition) => match async_guards(arguments.skip(1)) {
                Err(e) => Err(e),
                Ok(guards) => Ok(sync_guard(condition, arguments.len() == 1) + guards + input),
            },
        }
    }
}

fn write_async_guard(argument: &NestedMeta, out: &mut String) -> (r: Result<(), MacroError>)
    ensures
        match r {
            Ok(()) => async_guard_of(argument@) is Ok && final(out)@ == old(out)@ + async_guard_of(
                argument@,
            )->Ok_0,
            Err(e) => async_guard_of(argument@) == Err::<Seq<char>, MacroErrorView>(e@),
        },
{
    let list = match argument {
        NestedMeta::Meta(Meta::List(list)) => list,
        _ => {
            return Err(MacroError::ExpectedList);
        },
    };
    let expected = String::from_str("async");
    if list.name != expected {
        return Err(MacroError::UnknownPath(list.name.clone()));
    }
    if list.nested.len() != 2 {
        return Err(MacroError::WrongArity(list.nested.len()));
    }
    let condition = match list.nested[0].tokens() {
        Ok(tokens) => tokens,
        Err(e) => {
            return Err(e);
        },
    };
    let test_macro = match list.nested[1].tokens() {
        Ok(tokens) => tokens,
        Err(e) => {
            return Err(e);
        },
    };
    out.append("#[cfg_attr(");
    out.append(condition);
    out.append(", maybe_async::must_be_async, ");
    out.append(test_macro);
    out.append(")] ");
    assert(out@ =~= old(out)@ + async_guard(condition@, test_macro@));
    Ok(())
}

/// Unifies the test code of the synchronous and the asynchronous build. The
/// first argument is the condition under which the test is synchronous; each
/// further argument is a list `async(condition, test_macro)`.
pub fn test(args: Vec<NestedMeta>, input: &str) -> (r: Result<String, MacroError>)
    ensures
        is_expansion(r, test_expansion(arguments_view(args@), input@)),
{
    if args.len() < 1 {
        return Err(MacroError::MissingCondition);
    }
    let ghost arguments = arguments_view(args@);
    let condition = match args[0].condition() {
        Ok(tokens) => tokens,
        Err(e) => {
            return Err(e);
        },
    };
    let mut out = String::new();
    if args.len() == 1 {
        out.append("#[cfg(");
        out.append(condition);
        out.append(")] #[cfg_attr(");
        out.append(condition);
        out.append(", maybe_async::must_be_sync, test)] ");
    } else {
        out.append("#[cfg_attr(");
        out.append(condition);
        out.append(", maybe_async::must_be_sync, test)] ");
    }
    let ghost guard = sync_guard(condition@, args.len() == 1);
    assert(out@ =~= guard);
    let mut i: usize = 1;
    assert(arguments.skip(1).take(0) =~= Seq::empty());
    assert(guard + Seq::<char>::empty() =~= guard);
    while i < args.len()
        invariant
            1 <= i <= args.len(),
            arguments == arguments_view(args@),
            condition_of(arguments[0]) == Ok::<Seq<char>, MacroErrorView>(condition@),
            async_guards(arguments.skip(1).take(i - 1)) is Ok,
            out@ == guard + async_guards(arguments.skip(1).take(i - 1))->Ok_0,
        decreases args.len() - i,
    {
        let ghost done = arguments.skip(1).take(i - 1);
        let ghost next = arguments.skip(1).take(i as int);
        assert(next.drop_last() =~= done);
        assert(next.last() == args@[i as int]@);
        let ghost before = out@;
        match write_async_guard(&args[i], &mut out) {
            Ok(()) => {
                assert(out@ =~= guard + async_guards(next)->Ok_0);
            },
            Err(e) => {
                proof {
                    assert(async_guards(next) == Err::<Seq<char>, MacroErrorView>(e@));
                    lemma_first_error_wins(arguments.skip(1), i as int);
                }
                return Err(e);
            },
        }
        i += 1;
    }
    assert(arguments.skip(1).take(i - 1) =~= arguments.skip(1));
    out.append(input);
    Ok(out)
}

/// Where the guards of a prefix of the arguments fail, the guards of all of
/// them fail in the same way.
proof fn lemma_first_error_wins(arguments: Seq<NestedMetaView>, n: int)
    requires
        0 <= n <= arguments.len(),
        async_guards(arguments.take(n)) is Err,
    ensures
        async_guards(arguments) == async_guards(arguments.take(n)),
    decreases arguments.len() - n,
{
    if n < arguments.len() {
        assert(arguments.take(n + 1).drop_last() =~= arguments.take(n));
        lemma_first_error_wins(arguments, n + 1);
    } else {
        assert(arguments.take(n) =~= arguments);
    }
}

} // verus!
