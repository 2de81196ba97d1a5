//! Data-bearing declarations: field lists, structures and enumerations.

use crate::syntax::generics::Generics;
use crate::syntax::generics::GenericsView;
use crate::syntax::types::TypeExpr;
use crate::syntax::types::TypeExprView;
use crate::syntax::types::Visibility;
use crate::syntax::types::VisibilityView;
use vstd::prelude::*;

verus! {

/// A field that is keyed by an identifier.
#[derive(Debug, PartialEq, Eq)]
pub struct NamedField {
    pub attrs: Vec<String>,
    pub vis: Visibility,
    pub name: String,
    pub ty: TypeExpr,
}

/// A field that is known by its position only.
#[derive(Debug, PartialEq, Eq)]
pub struct PositionalField {
    pub attrs: Vec<String>,
    pub vis: Visibility,
    pub ty: TypeExpr,
}

/// The field list of a structure or of an enum variant.
#[derive(Debug, PartialEq, Eq)]
pub enum Fields {
    /// `{ a: T, b: U }`
    Named(Vec<NamedField>),
    /// `(T, U)`
    Positional(Vec<PositionalField>),
    /// No field list.
    Unit,
}

/// The view of [`NamedField`]: the same tree, made of `Seq`, `Option` and plain data.
pub struct NamedFieldView {
    pub attrs: Seq<Seq<char>>,
    pub vis: VisibilityView,
    pub name: Seq<char>,
    pub ty: TypeExprView,
}

/// The view of [`PositionalField`]: the same tree, made of `Seq`, `Option` and plain data.
pub struct PositionalFieldView {
    pub attrs: Seq<Seq<char>>,
    pub vis: VisibilityView,
    pub ty: TypeExprView,
}

/// The view of [`Fields`]: the same tree, made of `Seq`, `Option` and plain data.
pub enum FieldsView {
    Named(Seq<NamedFieldView>),
    Positional(Seq<PositionalFieldView>),
    Unit,
}

impl View for NamedField {
    type V = NamedFieldView;

    open spec fn view(&self) -> NamedFieldView {
        NamedFieldView {
            attrs: self.attrs.deep_view(),
            vis: self.vis@,
            name: self.name@,
            ty: self.ty@,
        }
    }
}

impl DeepView for NamedField {
    type V = NamedFieldView;

    open spec fn deep_view(&self) -> NamedFieldView {
        self@
    }
}

impl Clone for NamedField {
    fn clone(&self) -> (r: Self)
        ensures
            r@ == self@,
    {
        NamedField {
            attrs: self.attrs.clone(),
            vis: self.vis.clone(),
            name: self.name.clone(),
            ty: self.ty.clone(),
        }
    }
}

impl View for PositionalField {
    type V = PositionalFieldView;

    open spec fn view(&self) -> PositionalFieldView {
        PositionalFieldView { attrs: self.attrs.deep_view(), vis: self.vis@, ty: self.ty@ }
    }
}

impl DeepView for PositionalField {
    type V = PositionalFieldView;

    open spec fn deep_view(&self) -> PositionalFieldView {
        self@
    }
}

impl Clone for PositionalField {
    fn clone(&self) -> (r: Self)
        ensures
            r@ == self@,
    {
        PositionalField {
            attrs: self.attrs.clone(),
            vis: self.vis.clone(),
            ty: self.ty.clone(),
        }
    }
}

impl View for Fields {
    type V = FieldsView;

    open spec fn view(&self) -> FieldsView {
        match self {
            Fields::Named(fields) => FieldsView::Named(fields.deep_view()),
            Fields::Positional(fields) => FieldsView::Positional(fields.deep_view()),
            Fields::Unit => FieldsView::Unit,
        }
    }
}

impl DeepView for Fields {
    type V = FieldsView;

    open spec fn deep_view(&self) -> FieldsView {
        self@
    }
}

impl Clone for Fields {
    fn clone(&self) -> (r: Self)
        ensures
            r@ == self@,
    {
        match self {
            Fields::Named(fields) => Fields::Named(fields.clone()),
            Fields::Positional(fields) => Fields::Positional(fields.clone()),
            Fields::Unit => Fields::Unit,
        }
    }
}

/// A `struct` declaration.
#[derive(Debug, PartialEq, Eq)]
pub struct DataStruct {
    pub attrs: Vec<String>,
    pub vis: Visibility,
    pub name: String,
    pub generics: Generics,
    pub fields: Fields,
}

/// The view of [`DataStruct`]: the same tree, made of `Seq`, `Option` and plain data.
pub struct DataStructView {
    pub attrs: Seq<Seq<char>>,
    pub vis: VisibilityView,
    pub name: Seq<char>,
    pub generics: GenericsView,
    pub fields: FieldsView,
}

impl View for DataStruct {
    type V = DataStructView;

    open spec fn view(&self) -> DataStructView {
        DataStructView {
            attrs: self.attrs.deep_view(),
            vis: self.vis@,
            name: self.name@,
            generics: self.generics@,
            fields: self.fields@,
        }
    }
}

impl DeepView for DataStruct {
    type V = DataStructView;

    open spec fn deep_view(&self) -> DataStructView {
        self@
    }
}

impl Clone for DataStruct {
    fn clone(&self) -> (r: Self)
        ensures
            r@ == self@,
    {
        DataStruct {
            attrs: self.attrs.clone(),
            vis: self.vis.clone(),
            name: self.name.clone(),
            generics: self.generics.clone(),
            fields: self.fields.clone(),
        }
    }
}

/// One variant of an enumeration.
#[derive(Debug, PartialEq, Eq)]
pub struct Variant {
    pub attrs: Vec<String>,
    pub name: String,
    pub fields: Fields,
    /// The expression after the equals sign, as source text.
    pub discriminant: Option<String>,
}

/// The view of [`Variant`]: the same tree, made of `Seq`, `Option` and plain data.
pub struct VariantView {
    pub attrs: Seq<Seq<char>>,
    pub name: Seq<char>,
    pub fields: FieldsView,
    pub discriminant: Option<Seq<char>>,
}

impl View for Variant {
    type V = VariantView;

    open spec fn view(&self) -> VariantView {
        VariantView {
            attrs: self.attrs.deep_view(),
            name: self.name@,
            fields: self.fields@,
            discriminant: self.discriminant.deep_view(),
        }
    }
}

impl DeepView for Variant {
    type V = VariantView;

    open spec fn deep_view(&self) -> VariantView {
        self@
    }
}

impl Clone for Variant {
    fn clone(&self) -> (r: Self)
        ensures
            r@ == self@,
    {
        Variant {
            attrs: self.attrs.clone(),
            name: self.name.clone(),
            fields: self.fields.clone(),
            discriminant: self.discriminant.clone(),
        }
    }
}

/// An `enum` declaration.
#[derive(Debug, PartialEq, Eq)]
pub struct Enumeration {
    pub attrs: Vec<String>,
    pub vis: Visibility,
    pub name: String,
    pub generics: Generics,
    pub variants: Vec<Variant>,
}

/// The view of [`Enumeration`]: the same tree, made of `Seq`, `Option` and plain data.
pub struct EnumerationView {
    pub attrs: Seq<Seq<char>>,
    pub vis: VisibilityView,
    pub name: Seq<char>,
    pub generics: GenericsView,
    pub variants: Seq<VariantView>,
}

impl View for Enumeration {
    type V = EnumerationView;

    open spec fn view(&self) -> EnumerationView {
        EnumerationView {
            attrs: self.attrs.deep_view(),
            vis: self.vis@,
            name: self.name@,
            generics: self.generics@,
            variants: self.variants.deep_view(),
        }
    }
}

impl DeepView for Enumeration {
    type V = EnumerationView;

    open spec fn deep_view(&self) -> EnumerationView {
        self@
    }
}

impl Clone for Enumeration {
    fn clone(&self) -> (r: Self)
        ensures
            r@ == self@,
    {
        Enumeration {
            attrs: self.attrs.clone(),
            vis: self.vis.clone(),
            name: self.name.clone(),
            generics: self.generics.clone(),
            variants: self.variants.clone(),
        }
    }
}

} // verus!
