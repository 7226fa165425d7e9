//! The errors of the annotations and their diagnostics.

use vstd::prelude::*;
use crate::parse::ParseError;

verus! {

/// Why an annotation could not be expanded.
#[derive(Debug, PartialEq, Eq)]
pub enum MacroError {
    /// The annotated tokens have none of the four shapes.
    Parse(ParseError),
    /// The argument is neither `Send` nor `?Send`.
    InvalidDirectionality,
    /// The test annotation has no argument.
    MissingCondition,
    /// A literal that is no string stands where a condition or a test macro
    /// is expected.
    ExpectedMetaOrString,
    /// The value of a string literal is no sequence of tokens.
    NotTokens(String),
    /// A list of the test annotation has another name than `async`.
    UnknownPath(String),
    /// An `async(..)` list of the test annotation holds this many arguments,
    /// not two.
    WrongArity(usize),
    /// An argument of the test annotation behind the first is no list.
    ExpectedList,
}

/// The mathematical value of a [`MacroError`]. A parse error is held by its
/// message and its offset.
pub enum MacroErrorView {
    Parse(Seq<char>, usize),
    InvalidDirectionality,
    MissingCondition,
    ExpectedMetaOrString,
    NotTokens(Seq<char>),
    UnknownPath(Seq<char>),
    WrongArity(usize),
    ExpectedList,
}

impl View for MacroError {
    type V = MacroErrorView;

    open spec fn view(&self) -> MacroErrorView {
        match self {
            MacroError::Parse(e) => MacroErrorView::Parse(e.message@, e.offset),
            MacroError::InvalidDirectionality => MacroErrorView::InvalidDirectionality,
            MacroError::MissingCondition => MacroErrorView::MissingCondition,
            MacroError::ExpectedMetaOrString => MacroErrorView::ExpectedMetaOrString,
            MacroError::NotTokens(value) => MacroErrorView::NotTokens(value@),
            MacroError::UnknownPath(name) => MacroErrorView::UnknownPath(name@),
            MacroError::WrongArity(n) => MacroErrorView::WrongArity(*n),
            MacroError::ExpectedList => MacroErrorView::ExpectedList,
        }
    }
}

/// The decimal digit for a number below ten.
pub open spec fn digit(d: nat) -> char {
    if d == 0 {
        '0'
    } else if d == 1 {
        '1'
    } else if d == 2 {
        '2'
    } else if d == 3 {
        '3'
    } else if d == 4 {
        '4'
    } else if d == 5 {
        '5'
    } else if d == 6 {
        '6'
    } else if d == 7 {
        '7'
    } else if d == 8 {
        '8'
    } else {
        '9'
    }
}

/// A number in decimal, without leading zeros.
pub open spec fn decimal(n: nat) -> Seq<char>
    decreases n,
{
    if n < 10 {
        seq![digit(n)]
    } else {
        decimal(n / 10).push(digit(n % 10))
    }
}

/// The diagnostic that is shown for an error.
pub open spec fn message_of(e: MacroErrorView) -> Seq<char> {
    match e {
        MacroErrorView::Parse(message, offset) => message,
        MacroErrorView::InvalidDirectionality => "Only accepts `Send` or `?Send`"@,
        MacroErrorView::MissingCondition =>
            "Must not be empty, at least specify the condition for sync code"@,
        MacroErrorView::ExpectedMetaOrString => "expected meta or string literal"@,
        MacroErrorView::NotTokens(value) => "string literal holds no sequence of tokens: `"@
            + value + "`"@,
        MacroErrorView::UnknownPath(name) => "Unknown path: `"@ + name + "`, must be `async`"@,
        MacroErrorView::WrongArity(n) =>
            "Must pass two metas or string literals like `async(condition, async_test_macro)`, you passed "@
                + decimal(n as nat) + " metas."@,
        MacroErrorView::ExpectedList =>
            "Must be list of metas like: `async(condition, async_test_macro)`"@,
    }
}

fn digit_text(d: usize) -> (r: &'static str)
    requires
        d < 10,
    ensures
        r@ == seq![digit(d as nat)],
{
    proof {
        reveal_strlit("0");
        reveal_strlit("1");
        reveal_strlit("2");
        reveal_strlit("3");
        reveal_strlit("4");
        reveal_strlit("5");
        reveal_strlit("6");
        reveal_strlit("7");
        reveal_strlit("8");
        reveal_strlit("9");
    }
    let r = if d == 0 {
        "0"
    } else if d == 1 {
        "1"
    } else if d == 2 {
        "2"
    } else if d == 3 {
        "3"
    } else if d == 4 {
        "4"
    } else if d == 5 {
        "5"
    } else if d == 6 {
        "6"
    } else if d == 7 {
        "7"
    } else if d == 8 {
        "8"
    } else {
        "9"
    };
    assert(r@ =~= seq![digit(d as nat)]);
    r
}

/// Writes a number in decimal.
pub fn decimal_text(n: usize) -> (r: String)
    ensures
        r@ == decimal(n as nat),
    decreases n,
{
    if n < 10 {
        String::from_str(digit_text(n))
    } else {
        let mut r = decimal_text(n / 10);
        r.append(digit_text(n % 10));
        assert(r@ =~= decimal(n as nat));
        r
    }
}

impl MacroError {
    /// The diagnostic to show for this error.
    pub fn message(&self) -> (r: String)
        ensures
            r@ == message_of(self@),
    {
        match self {
            MacroError::Parse(e) => e.message.clone(),
            MacroError::InvalidDirectionality => String::from_str("Only accepts `Send` or `?Send`"),
            MacroError::MissingCondition => String::from_str(
                "Must not be empty, at least specify the condition for sync code",
            ),
            MacroError::ExpectedMetaOrString => String::from_str("expected meta or string literal"),
            MacroError::NotTokens(value) => {
                let mut r = String::from_str("string literal holds no sequence of tokens: `");
                r.append(value.as_str());
                r.append("`");
                r
            },
            MacroError::UnknownPath(name) => {
                let mut r = String::from_str("Unknown path: `");
                r.append(name.as_str());
                r.append("`, must be `async`");
                r
            },
            MacroError::WrongArity(n) => {
                let mut r = String::from_str(
                    "Must pass two metas or string literals like `async(condition, async_test_macro)`, you passed ",
                );
                let count = decimal_text(*n);
                r.append(count.as_str());
                r.append(" metas.");
                r
            },
            MacroError::ExpectedList => String::from_str(
                "Must be list of metas like: `async(condition, async_test_macro)`",
            ),
        }
    }
}

} // verus!
