//! The declaration: what the rewriter is handed, and what it hands back.

use crate::syntax::blocks::ImplBlock;
use crate::syntax::blocks::ImplBlockView;
use crate::syntax::blocks::TraitDecl;
use crate::syntax::blocks::TraitDeclView;
use crate::syntax::data::DataStruct;
use crate::syntax::data::DataStructView;
use crate::syntax::data::Enumeration;
use crate::syntax::data::EnumerationView;
use crate::syntax::function::Function;
use crate::syntax::function::FunctionView;
use vstd::prelude::*;

verus! {

/// A declaration, by syntactic category.
#[derive(Debug, PartialEq, Eq)]
pub enum Declaration {
    /// A free function.
    Function(Function),
    /// A `struct`.
    DataStruct(DataStruct),
    /// An `impl` block.
    ImplBlock(ImplBlock),
    /// An `enum`.
    Enumeration(Enumeration),
    /// A `trait`.
    Trait(TraitDecl),
    /// A declaration of any other category, as source text.
    Other(String),
}

/// The view of [`Declaration`]: the same tree, made of `Seq`, `Option` and plain data.
pub enum DeclarationView {
    Function(FunctionView),
    DataStruct(DataStructView),
    ImplBlock(ImplBlockView),
    Enumeration(EnumerationView),
    Trait(TraitDeclView),
    Other(Seq<char>),
}

impl View for Declaration {
    type V = DeclarationView;

    open spec fn view(&self) -> DeclarationView {
        match self {
            Declaration::Function(function) => DeclarationView::Function(function@),
            Declaration::DataStruct(data) => DeclarationView::DataStruct(data@),
            Declaration::ImplBlock(block) => DeclarationView::ImplBlock(block@),
            Declaration::Enumeration(enumeration) => DeclarationView::Enumeration(enumeration@),
            Declaration::Trait(decl) => DeclarationView::Trait(decl@),
            Declaration::Other(text) => DeclarationView::Other(text@),
        }
    }
}

impl DeepView for Declaration {
    type V = DeclarationView;

    open spec fn deep_view(&self) -> DeclarationView {
        self@
    }
}

impl Clone for Declaration {
    fn clone(&self) -> (r: Self)
        ensures
            r@ == self@,
    {
        match self {
            Declaration::Function(function) => Declaration::Function(function.clone()),
            Declaration::DataStruct(data) => Declaration::DataStruct(data.clone()),
            Declaration::ImplBlock(block) => Declaration::ImplBlock(block.clone()),
            Declaration::Enumeration(enumeration) => Declaration::Enumeration(enumeration.clone()),
            Declaration::Trait(decl) => Declaration::Trait(decl.clone()),
            Declaration::Other(text) => Declaration::Other(text.clone()),
        }
    }
}

} // verus!
