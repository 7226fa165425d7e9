//! The arguments of the test annotation.

use vstd::prelude::*;
use crate::error::{MacroError, MacroErrorView};

verus! {

/// A string literal among the arguments of an annotation. It stands for the
/// tokens that its value holds.
#[derive(Debug, PartialEq, Eq)]
pub struct StrLit {
    /// The value of the literal.
    pub value: String,
    /// The tokens that the tokenizer finds in the value, as text, or nothing
    /// where the value is no sequence of tokens.
    pub tokens: Option<String>,
}

/// A literal among the arguments of an annotation.
#[derive(Debug, PartialEq, Eq)]
pub enum Lit {
    /// A string literal.
    Str(StrLit),
    /// Any other literal, by its tokens.
    Other(String),
}

/// An argument inside a list: a literal, or a meta item by its tokens.
#[derive(Debug, PartialEq, Eq)]
pub enum Operand {
    Lit(Lit),
    Meta(String),
}

/// A list such as `async(condition, test_macro)`.
#[derive(Debug, PartialEq, Eq)]
pub struct MetaList {
    /// The first segment of the list's path.
    pub name: String,
    /// The whole list as tokens.
    pub tokens: String,
    pub nested: Vec<Operand>,
}

/// A meta item. A path and a name-value pair are held by their tokens.
#[derive(Debug, PartialEq, Eq)]
pub enum Meta {
    Path(String),
    NameValue(String),
    List(MetaList),
}

/// An argument of an annotation.
#[derive(Debug, PartialEq, Eq)]
pub enum NestedMeta {
    Lit(Lit),
    Meta(Meta),
}

/// The mathematical value of a [`StrLit`].
pub struct StrLitView {
    pub value: Seq<char>,
    pub tokens: Option<Seq<char>>,
}

/// The mathematical value of a [`Lit`].
pub enum LitView {
    Str(StrLitView),
    Other(Seq<char>),
}

impl View for StrLit {
    type V = StrLitView;

    open spec fn view(&self) -> StrLitView {
        StrLitView {
            value: self.value@,
            tokens: match self.tokens {
                Some(tokens) => Some(tokens@),
                None => None,
            },
        }
    }
}

/// `proc_macro2::TokenStream::from_str` and the `to_string` of the stream:
/// the tokens of a text, written out again, or nothing where the text is no
/// sequence of tokens. Nothing is claimed of the outcome: proc-macro2
/// tokenizes through the compiler inside a macro and by itself elsewhere.
#[verifier::external_body]
fn tokens_in(text: &str) -> Option<String> {
    match <proc_macro2::TokenStream as std::str::FromStr>::from_str(text) {
        Ok(stream) => Some(stream.to_string()),
        Err(_) => None,
    }
}

impl StrLit {
    /// The string literal of a value. The tokenizer is asked for the tokens
    /// in it.
    pub fn new(value: String) -> (r: StrLit)
        ensures
            r.value@ == value@,
    {
        let tokens = tokens_in(value.as_str());
        StrLit { value, tokens }
    }
}

/// The mathematical value of an [`Operand`].
pub enum OperandView {
    Lit(LitView),
    Meta(Seq<char>),
}

/// The mathematical value of a [`MetaList`].
pub struct MetaListView {
    pub name: Seq<char>,
    pub tokens: Seq<char>,
    pub nested: Seq<OperandView>,
}

/// The mathematical value of a [`Meta`].
pub enum MetaView {
    Path(Seq<char>),
    NameValue(Seq<char>),
    List(MetaListView),
}

/// The mathematical value of a [`NestedMeta`].
pub enum NestedMetaView {
    Lit(LitView),
    Meta(MetaView),
}

impl View for Lit {
    type V = LitView;

    open spec fn view(&self) -> LitView {
        match self {
            Lit::Str(lit) => LitView::Str(lit@),
            Lit::Other(tokens) => LitView::Other(tokens@),
        }
    }
}

impl View for Operand {
    type V = OperandView;

    open spec fn view(&self) -> OperandView {
        match self {
            Operand::Lit(lit) => OperandView::Lit(lit@),
            Operand::Meta(tokens) => OperandView::Meta(tokens@),
        }
    }
}

impl View for MetaList {
    type V = MetaListView;

    open spec fn view(&self) -> MetaListView {
        MetaListView {
            name: self.name@,
            tokens: self.tokens@,
            nested: Seq::new(self.nested@.len(), |i: int| self.nested@[i]@),
        }
    }
}

impl View for Meta {
    type V = MetaView;

    open spec fn view(&self) -> MetaView {
        match self {
            Meta::Path(tokens) => MetaView::Path(tokens@),
            Meta::NameValue(tokens) => MetaView::NameValue(tokens@),
            Meta::List(list) => MetaView::List(list@),
        }
    }
}

impl View for NestedMeta {
    type V = NestedMetaView;

    open spec fn view(&self) -> NestedMetaView {
        match self {
            NestedMeta::Lit(lit) => NestedMetaView::Lit(lit@),
            NestedMeta::Meta(meta) => NestedMetaView::Meta(meta@),
        }
    }
}

/// The values of a list of arguments, one for one.
pub open spec fn arguments_view(s: Seq<NestedMeta>) -> Seq<NestedMetaView> {
    Seq::new(s.len(), |i: int| s[i]@)
}

/// The tokens that a literal stands for: those in the value of a string
/// literal, where its value holds tokens. Any other literal stands for
/// nothing.
pub open spec fn lit_tokens(lit: LitView) -> Result<Seq<char>, MacroErrorView> {
    match lit {
        LitView::Str(lit) => match lit.tokens {
            Some(tokens) => Ok(tokens),
            None => Err(MacroErrorView::NotTokens(lit.value)),
        },
        LitView::Other(_) => Err(MacroErrorView::ExpectedMetaOrString),
    }
}

/// The tokens that an argument inside a list stands for.
pub open spec fn operand_tokens(operand: OperandView) -> Result<Seq<char>, MacroErrorView> {
    match operand {
        OperandView::Lit(lit) => lit_tokens(lit),
        OperandView::Meta(tokens) => Ok(tokens),
    }
}

/// The tokens of a meta item.
pub open spec fn meta_tokens(meta: MetaView) -> Seq<char> {
    match meta {
        MetaView::Path(tokens) => tokens,
        MetaView::NameValue(tokens) => tokens,
        MetaView::List(list) => list.tokens,
    }
}

/// The condition that an argument gives: the tokens of a meta item, or the
/// value of a string literal.
pub open spec fn condition_of(argument: NestedMetaView) -> Result<Seq<char>, MacroErrorView> {
    match argument {
        NestedMetaView::Lit(lit) => lit_tokens(lit),
        NestedMetaView::Meta(meta) => Ok(meta_tokens(meta)),
    }
}

fn tokens_of_lit(lit: &Lit) -> (r: Result<&str, MacroError>)
    ensures
        match r {
            Ok(tokens) => lit_tokens(lit@) == Ok::<Seq<char>, MacroErrorView>(tokens@),
            Err(e) => lit_tokens(lit@) == Err::<Seq<char>, MacroErrorView>(e@),
        },
{
    match lit {
        Lit::Str(lit) => match &lit.tokens {
            Some(tokens) => Ok(tokens.as_str()),
            None => Err(MacroError::NotTokens(lit.value.clone())),
        },
        Lit::Other(_) => Err(MacroError::ExpectedMetaOrString),
    }
}

impl Operand {
    /// The tokens that the argument stands for.
    pub fn tokens(&self) -> (r: Result<&str, MacroError>)
        ensures
            match r {
                Ok(tokens) => operand_tokens(self@) == Ok::<Seq<char>, MacroErrorView>(tokens@),
                Err(e) => operand_tokens(self@) == Err::<Seq<char>, MacroErrorView>(e@),
            },
    {
        match self {
            Operand::Lit(lit) => tokens_of_lit(lit),
            Operand::Meta(tokens) => Ok(tokens.as_str()),
        }
    }
}

impl NestedMeta {
    /// The condition that the argument gives.
    pub fn condition(&self) -> (r: Result<&str, MacroError>)
        ensures
            match r {
                Ok(tokens) => condition_of(self@) == Ok::<Seq<char>, MacroErrorView>(tokens@),
                Err(e) => condition_of(self@) == Err::<Seq<char>, MacroErrorView>(e@),
            },
    {
        match self {
            NestedMeta::Lit(lit) => tokens_of_lit(lit),
            NestedMeta::Meta(meta) => match meta {
                Meta::Path(tokens) => Ok(tokens.as_str()),
                Meta::NameValue(tokens) => Ok(tokens.as_str()),
                Meta::List(list) => Ok(list.tokens.as_str()),
            },
        }
    }
}

} // verus!
