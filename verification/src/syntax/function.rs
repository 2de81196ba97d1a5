//! Function signatures and functions.

use crate::syntax::body::Block;
use crate::syntax::body::BlockView;
use crate::syntax::generics::Generics;
use crate::syntax::generics::GenericsView;
use crate::syntax::types::TypeExpr;
use crate::syntax::types::TypeExprView;
use crate::syntax::types::Visibility;
use crate::syntax::types::VisibilityView;
use vstd::prelude::*;

verus! {

/// One parameter of a function.
#[derive(Debug, PartialEq, Eq)]
pub struct Parameter {
    /// The pattern that binds the argument; for a receiver without a type
    /// the receiver as written (`self`, `&self`, `&mut self`).
    pub pattern: String,
    /// The declared type; absent only for a receiver written without one.
    pub ty: Option<TypeExpr>,
}

/// The view of [`Parameter`]: the same tree, made of `Seq`, `Option` and plain data.
pub struct ParameterView {
    pub pattern: Seq<char>,
    pub ty: Option<TypeExprView>,
}

impl View for Parameter {
    type V = ParameterView;

    open spec fn view(&self) -> ParameterView {
        ParameterView { pattern: self.pattern@, ty: self.ty.deep_view() }
    }
}

impl DeepView for Parameter {
    type V = ParameterView;

    open spec fn deep_view(&self) -> ParameterView {
        self@
    }
}

impl Clone for Parameter {
    fn clone(&self) -> (r: Self)
        ensures
            r@ == self@,
    {
        Parameter { pattern: self.pattern.clone(), ty: self.ty.clone() }
    }
}

/// Everything of a function but its attributes, visibility and body.
#[derive(Debug, PartialEq, Eq)]
pub struct Signature {
    pub is_const: bool,
    pub is_async: bool,
    /// Whether the function is `unsafe` to call.
    pub is_unsafe: bool,
    /// The ABI after `extern`, as source text; empty for a bare `extern`.
    pub abi: Option<String>,
    pub name: String,
    pub generics: Generics,
    pub params: Vec<Parameter>,
    /// The return type; absent when none is written.
    pub output: Option<TypeExpr>,
}

/// The view of [`Signature`]: the same tree, made of `Seq`, `Option` and plain data.
pub struct SignatureView {
    pub is_const: bool,
    pub is_async: bool,
    pub is_unsafe: bool,
    pub abi: Option<Seq<char>>,
    pub name: Seq<char>,
    pub generics: GenericsView,
    pub params: Seq<ParameterView>,
    pub output: Option<TypeExprView>,
}

impl View for Signature {
    type V = SignatureView;

    open spec fn view(&self) -> SignatureView {
        SignatureView {
            is_const: self.is_const,
            is_async: self.is_async,
            is_unsafe: self.is_unsafe,
            abi: self.abi.deep_view(),
            name: self.name@,
            generics: self.generics@,
            params: self.params.deep_view(),
            output: self.output.deep_view(),
        }
    }
}

impl DeepView for Signature {
    type V = SignatureView;

    open spec fn deep_view(&self) -> SignatureView {
        self@
    }
}

impl Clone for Signature {
    fn clone(&self) -> (r: Self)
        ensures
            r@ == self@,
    {
        Signature {
            is_const: self.is_const,
            is_async: self.is_async,
            is_unsafe: self.is_unsafe,
            abi: self.abi.clone(),
            name: self.name.clone(),
            generics: self.generics.clone(),
            params: self.params.clone(),
            output: self.output.clone(),
        }
    }
}

/// A function with a body: a free function or a method of an `impl` block.
#[derive(Debug, PartialEq, Eq)]
pub struct Function {
    /// The attributes written on the function, each as source text.
    pub attrs: Vec<String>,
    pub vis: Visibility,
    pub sig: Signature,
    pub body: Block,
}

/// The view of [`Function`]: the same tree, made of `Seq`, `Option` and plain data.
pub struct FunctionView {
    pub attrs: Seq<Seq<char>>,
    pub vis: VisibilityView,
    pub sig: SignatureView,
    pub body: BlockView,
}

impl View for Function {
    type V = FunctionView;

    open spec fn view(&self) -> FunctionView {
        FunctionView {
            attrs: self.attrs.deep_view(),
            vis: self.vis@,
            sig: self.sig@,
            body: self.body@,
        }
    }
}

impl DeepView for Function {
    type V = FunctionView;

    open spec fn deep_view(&self) -> FunctionView {
        self@
    }
}

impl Clone for Function {
    fn clone(&self) -> (r: Self)
        ensures
            r@ == self@,
    {
        Function {
            attrs: self.attrs.clone(),
            vis: self.vis.clone(),
            sig: self.sig.clone(),
            body: self.body.clone(),
        }
    }
}

} // verus!
