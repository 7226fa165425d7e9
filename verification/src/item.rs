//! Functions, traits and implementation blocks with their members, and their
//! mathematical values.

use vstd::prelude::*;
use crate::syntax::{Part, PartView, Stmt, StmtView, parts_view, stmts_view};

verus! {

/// The signature of a function or method. The async marker and the unsafe
/// qualifier are flags of their own; the other tokens are carried as text.
#[derive(Debug, PartialEq, Eq)]
pub struct Signature {
    /// `const` stands in front.
    pub is_const: bool,
    /// The async marker.
    pub is_async: bool,
    /// The unsafe qualifier.
    pub is_unsafe: bool,
    /// `extern` with its ABI, or nothing.
    pub abi: String,
    /// The function's name.
    pub name: String,
    /// What follows the name: generics, parameters, return type, where clause.
    pub decl: String,
}

/// A standalone function.
#[derive(Debug, PartialEq, Eq)]
pub struct Function {
    pub attrs: Vec<String>,
    pub vis: String,
    pub sig: Signature,
    pub body: Vec<Stmt>,
}

/// A method of a trait or of an implementation block. In a trait the body is
/// the default body and may be missing.
#[derive(Debug, PartialEq, Eq)]
pub struct Method {
    pub attrs: Vec<String>,
    /// Visibility and `default`, where written.
    pub vis: String,
    pub sig: Signature,
    pub body: Option<Vec<Stmt>>,
}

/// A member of a trait or of an implementation block.
#[derive(Debug, PartialEq, Eq)]
pub enum Member {
    Method(Method),
    /// An associated constant or type, or a macro call, with its
    /// sub-expressions in place.
    Other(Vec<Part>),
}

/// A trait declaration.
#[derive(Debug, PartialEq, Eq)]
pub struct TraitDecl {
    pub attrs: Vec<String>,
    /// Visibility, and `unsafe` or `auto` where written.
    pub vis: String,
    pub name: String,
    /// What stands between the name and the members: generic parameters,
    /// supertraits, where clause.
    pub generics: String,
    pub members: Vec<Member>,
}

/// An implementation block. It implements a trait where `trait_name` is given;
/// without one it is an inherent implementation.
#[derive(Debug, PartialEq, Eq)]
pub struct ImplBlock {
    pub attrs: Vec<String>,
    /// `default` or `unsafe`, where written.
    pub qualifiers: String,
    /// The generic parameters behind `impl`.
    pub generics: String,
    /// The path of the implemented trait.
    pub trait_name: Option<String>,
    /// The implementing type.
    pub self_ty: String,
    pub where_clause: String,
    pub members: Vec<Member>,
}

/// A static item. It is carried through as it is.
#[derive(Debug, PartialEq, Eq)]
pub struct StaticItem {
    pub attrs: Vec<String>,
    /// Everything behind the attributes.
    pub tokens: String,
}

/// The texts of a list of strings.
pub open spec fn texts(s: Seq<String>) -> Seq<Seq<char>> {
    Seq::new(s.len(), |i: int| s[i]@)
}

/// The mathematical value of a [`Signature`].
pub struct SignatureView {
    pub is_const: bool,
    pub is_async: bool,
    pub is_unsafe: bool,
    pub abi: Seq<char>,
    pub name: Seq<char>,
    pub decl: Seq<char>,
}

/// The mathematical value of a [`Function`].
pub struct FunctionView {
    pub attrs: Seq<Seq<char>>,
    pub vis: Seq<char>,
    pub sig: SignatureView,
    pub body: Seq<StmtView>,
}

/// The mathematical value of a [`Method`].
pub struct MethodView {
    pub attrs: Seq<Seq<char>>,
    pub vis: Seq<char>,
    pub sig: SignatureView,
    pub body: Option<Seq<StmtView>>,
}

/// The mathematical value of a [`Member`].
pub enum MemberView {
    Method(MethodView),
    Other(Seq<PartView>),
}

/// The mathematical value of a [`TraitDecl`].
pub struct TraitDeclView {
    pub attrs: Seq<Seq<char>>,
    pub vis: Seq<char>,
    pub name: Seq<char>,
    pub generics: Seq<char>,
    pub members: Seq<MemberView>,
}

/// The mathematical value of an [`ImplBlock`].
pub struct ImplBlockView {
    pub attrs: Seq<Seq<char>>,
    pub qualifiers: Seq<char>,
    pub generics: Seq<char>,
    pub trait_name: Option<Seq<char>>,
    pub self_ty: Seq<char>,
    pub where_clause: Seq<char>,
    pub members: Seq<MemberView>,
}

/// The mathematical value of a [`StaticItem`].
pub struct StaticItemView {
    pub attrs: Seq<Seq<char>>,
    pub tokens: Seq<char>,
}

impl View for Signature {
    type V = SignatureView;

    open spec fn view(&self) -> SignatureView {
        SignatureView {
            is_const: self.is_const,
            is_async: self.is_async,
            is_unsafe: self.is_unsafe,
            abi: self.abi@,
            name: self.name@,
            decl: self.decl@,
        }
    }
}

impl View for Function {
    type V = FunctionView;

    open spec fn view(&self) -> FunctionView {
        FunctionView {
            attrs: texts(self.attrs@),
            vis: self.vis@,
            sig: self.sig@,
            body: stmts_view(self.body@),
        }
    }
}

impl View for Method {
    type V = MethodView;

    open spec fn view(&self) -> MethodView {
        MethodView {
            attrs: texts(self.attrs@),
            vis: self.vis@,
            sig: self.sig@,
            body: match self.body {
                Some(body) => Some(stmts_view(body@)),
                None => None,
            },
        }
    }
}

impl View for Member {
    type V = MemberView;

    open spec fn view(&self) -> MemberView {
        match self {
            Member::Method(m) => MemberView::Method(m@),
            Member::Other(parts) => MemberView::Other(parts_view(parts@)),
        }
    }
}

/// The values of a list of members, one for one.
pub open spec fn members_view(s: Seq<Member>) -> Seq<MemberView> {
    Seq::new(s.len(), |i: int| s[i]@)
}

impl View for TraitDecl {
    type V = TraitDeclView;

    open spec fn view(&self) -> TraitDeclView {
        TraitDeclView {
            attrs: texts(self.attrs@),
            vis: self.vis@,
            name: self.name@,
            generics: self.generics@,
            members: members_view(self.members@),
        }
    }
}

impl View for ImplBlock {
    type V = ImplBlockView;

    open spec fn view(&self) -> ImplBlockView {
        ImplBlockView {
            attrs: texts(self.attrs@),
            qualifiers: self.qualifiers@,
            generics: self.generics@,
            trait_name: match self.trait_name {
                Some(name) => Some(name@),
                None => None,
            },
            self_ty: self.self_ty@,
            where_clause: self.where_clause@,
            members: members_view(self.members@),
        }
    }
}

impl View for StaticItem {
    type V = StaticItemView;

    open spec fn view(&self) -> StaticItemView {
        StaticItemView { attrs: texts(self.attrs@), tokens: self.tokens@ }
    }
}

} // verus!
