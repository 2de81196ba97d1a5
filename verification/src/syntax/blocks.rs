//! Declarations that hold methods: `impl` blocks and traits.

use crate::syntax::body::Block;
use crate::syntax::body::BlockView;
use crate::syntax::function::Function;
use crate::syntax::function::FunctionView;
use crate::syntax::function::Signature;
use crate::syntax::function::SignatureView;
use crate::syntax::generics::Generics;
use crate::syntax::generics::GenericsView;
use crate::syntax::types::TypeExpr;
use crate::syntax::types::TypeExprView;
use crate::syntax::types::Visibility;
use crate::syntax::types::VisibilityView;
use vstd::prelude::*;

verus! {

/// One item inside an `impl` block.
#[derive(Debug, PartialEq, Eq)]
pub enum ImplItem {
    /// A method, or an associated function.
    Method { is_default: bool, function: Function },
    /// Anything else (a constant, an associated type, a macro call), as
    /// source text.
    Other(String),
}

/// The view of [`ImplItem`]: the same tree, made of `Seq`, `Option` and plain data.
pub enum ImplItemView {
    Method { is_default: bool, function: FunctionView },
    Other(Seq<char>),
}

impl View for ImplItem {
    type V = ImplItemView;

    open spec fn view(&self) -> ImplItemView {
        match self {
            ImplItem::Method { is_default, function } => ImplItemView::Method {
                is_default: *is_default,
                function: function@,
            },
            ImplItem::Other(text) => ImplItemView::Other(text@),
        }
    }
}

impl DeepView for ImplItem {
    type V = ImplItemView;

    open spec fn deep_view(&self) -> ImplItemView {
        self@
    }
}

impl Clone for ImplItem {
    fn clone(&self) -> (r: Self)
        ensures
            r@ == self@,
    {
        match self {
            ImplItem::Method { is_default, function } => ImplItem::Method {
                is_default: *is_default,
                function: function.clone(),
            },
            ImplItem::Other(text) => ImplItem::Other(text.clone()),
        }
    }
}

/// An `impl` block: inherent when `trait_path` is absent, the
/// implementation of a trait for `self_ty` when it is present.
#[derive(Debug, PartialEq, Eq)]
pub struct ImplBlock {
    pub attrs: Vec<String>,
    pub is_default: bool,
    /// Whether the block is written `unsafe impl`.
    pub is_unsafe: bool,
    pub generics: Generics,
    /// The path of the implemented trait, as source text.
    pub trait_path: Option<String>,
    pub self_ty: TypeExpr,
    pub items: Vec<ImplItem>,
}

/// The view of [`ImplBlock`]: the same tree, made of `Seq`, `Option` and plain data.
pub struct ImplBlockView {
    pub attrs: Seq<Seq<char>>,
    pub is_default: bool,
    pub is_unsafe: bool,
    pub generics: GenericsView,
    pub trait_path: Option<Seq<char>>,
    pub self_ty: TypeExprView,
    pub items: Seq<ImplItemView>,
}

impl View for ImplBlock {
    type V = ImplBlockView;

    open spec fn view(&self) -> ImplBlockView {
        ImplBlockView {
            attrs: self.attrs.deep_view(),
            is_default: self.is_default,
            is_unsafe: self.is_unsafe,
            generics: self.generics@,
            trait_path: self.trait_path.deep_view(),
            self_ty: self.self_ty@,
            items: self.items.deep_view(),
        }
    }
}

impl DeepView for ImplBlock {
    type V = ImplBlockView;

    open spec fn deep_view(&self) -> ImplBlockView {
        self@
    }
}

impl Clone for ImplBlock {
    fn clone(&self) -> (r: Self)
        ensures
            r@ == self@,
    {
        ImplBlock {
            attrs: self.attrs.clone(),
            is_default: self.is_default,
            is_unsafe: self.is_unsafe,
            generics: self.generics.clone(),
            trait_path: self.trait_path.clone(),
            self_ty: self.self_ty.clone(),
            items: self.items.clone(),
        }
    }
}

/// One item inside a trait.
#[derive(Debug, PartialEq, Eq)]
pub enum TraitItem {
    /// A method signature, with its default body if it has one.
    Method { attrs: Vec<String>, sig: Signature, default: Option<Block> },
    /// Anything else, as source text.
    Other(String),
}

/// The view of [`TraitItem`]: the same tree, made of `Seq`, `Option` and plain data.
pub enum TraitItemView {
    Method { attrs: Seq<Seq<char>>, sig: SignatureView, default: Option<BlockView> },
    Other(Seq<char>),
}

impl View for TraitItem {
    type V = TraitItemView;

    open spec fn view(&self) -> TraitItemView {
        match self {
            TraitItem::Method { attrs, sig, default } => TraitItemView::Method {
                attrs: attrs.deep_view(),
                sig: sig@,
                default: default.deep_view(),
            },
            TraitItem::Other(text) => TraitItemView::Other(text@),
        }
    }
}

impl DeepView for TraitItem {
    type V = TraitItemView;

    open spec fn deep_view(&self) -> TraitItemView {
        self@
    }
}

impl Clone for TraitItem {
    fn clone(&self) -> (r: Self)
        ensures
            r@ == self@,
    {
        match self {
            TraitItem::Method { attrs, sig, default } => TraitItem::Method {
                attrs: attrs.clone(),
                sig: sig.clone(),
                default: default.clone(),
            },
            TraitItem::Other(text) => TraitItem::Other(text.clone()),
        }
    }
}

/// A `trait` declaration.
#[derive(Debug, PartialEq, Eq)]
pub struct TraitDecl {
    pub attrs: Vec<String>,
    pub vis: Visibility,
    /// Whether the trait is written `unsafe trait`.
    pub is_unsafe: bool,
    pub is_auto: bool,
    pub name: String,
    pub generics: Generics,
    /// The bounds after the colon, as source text.
    pub supertraits: Option<String>,
    pub items: Vec<TraitItem>,
}

/// The view of [`TraitDecl`]: the same tree, made of `Seq`, `Option` and plain data.
pub struct TraitDeclView {
    pub attrs: Seq<Seq<char>>,
    pub vis: VisibilityView,
    pub is_unsafe: bool,
    pub is_auto: bool,
    pub name: Seq<char>,
    pub generics: GenericsView,
    pub supertraits: Option<Seq<char>>,
    pub items: Seq<TraitItemView>,
}

impl View for TraitDecl {
    type V = TraitDeclView;

    open spec fn view(&self) -> TraitDeclView {
        TraitDeclView {
            attrs: self.attrs.deep_view(),
            vis: self.vis@,
            is_unsafe: self.is_unsafe,
            is_auto: self.is_auto,
            name: self.name@,
            generics: self.generics@,
            supertraits: self.supertraits.deep_view(),
            items: self.items.deep_view(),
        }
    }
}

impl DeepView for TraitDecl {
    type V = TraitDeclView;

    open spec fn deep_view(&self) -> TraitDeclView {
        self@
    }
}

impl Clone for TraitDecl {
    fn clone(&self) -> (r: Self)
        ensures
            r@ == self@,
    {
        TraitDecl {
            attrs: self.attrs.clone(),
            vis: self.vis.clone(),
            is_unsafe: self.is_unsafe,
            is_auto: self.is_auto,
            name: self.name.clone(),
            generics: self.generics.clone(),
            supertraits: self.supertraits.clone(),
            items: self.items.clone(),
        }
    }
}

} // verus!
