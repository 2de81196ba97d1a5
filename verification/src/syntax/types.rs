//! Visibility markers and type expressions.

use vstd::prelude::*;

verus! {

/// Who may name an item.
#[derive(Debug, PartialEq, Eq)]
pub enum Visibility {
    /// No marker: private to the enclosing module.
    Inherited,
    /// `pub`.
    Public,
    /// `pub(..)`, with the text between the parentheses.
    Restricted(String),
}

/// The view of [`Visibility`]: the same tree, made of `Seq`, `Option` and plain data.
pub enum VisibilityView {
    Inherited,
    Public,
    Restricted(Seq<char>),
}

impl View for Visibility {
    type V = VisibilityView;

    open spec fn view(&self) -> VisibilityView {
        match self {
            Visibility::Inherited => VisibilityView::Inherited,
            Visibility::Public => VisibilityView::Public,
            Visibility::Restricted(scope) => VisibilityView::Restricted(scope@),
        }
    }
}

impl DeepView for Visibility {
    type V = VisibilityView;

    open spec fn deep_view(&self) -> VisibilityView {
        self@
    }
}

impl Clone for Visibility {
    fn clone(&self) -> (r: Self)
        ensures
            r@ == self@,
    {
        match self {
            Visibility::Inherited => Visibility::Inherited,
            Visibility::Public => Visibility::Public,
            Visibility::Restricted(scope) => Visibility::Restricted(scope.clone()),
        }
    }
}

/// A type as it is written in a signature, a field or an `impl` header.
#[derive(Debug, PartialEq, Eq)]
pub enum TypeExpr {
    /// A type carried as source text.
    Source(String),
    /// The type `Self`.
    SelfType,
    /// A named type applied to generic arguments: `Name<'a, T, N>`, or
    /// plain `Name` when `args` is empty.
    Named { name: String, args: Vec<String> },
}

/// The view of [`TypeExpr`]: the same tree, made of `Seq`, `Option` and plain data.
pub enum TypeExprView {
    Source(Seq<char>),
    SelfType,
    Named { name: Seq<char>, args: Seq<Seq<char>> },
}

impl View for TypeExpr {
    type V = TypeExprView;

    open spec fn view(&self) -> TypeExprView {
        match self {
            TypeExpr::Source(text) => TypeExprView::Source(text@),
            TypeExpr::SelfType => TypeExprView::SelfType,
            TypeExpr::Named { name, args } => TypeExprView::Named {
                name: name@,
                args: args.deep_view(),
            },
        }
    }
}

impl DeepView for TypeExpr {
    type V = TypeExprView;

    open spec fn deep_view(&self) -> TypeExprView {
        self@
    }
}

impl Clone for TypeExpr {
    fn clone(&self) -> (r: Self)
        ensures
            r@ == self@,
    {
        match self {
            TypeExpr::Source(text) => TypeExpr::Source(text.clone()),
            TypeExpr::SelfType => TypeExpr::SelfType,
            TypeExpr::Named { name, args } => TypeExpr::Named {
                name: name.clone(),
                args: args.clone(),
            },
        }
    }
}

} // verus!
