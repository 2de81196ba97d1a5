//! The shape of a field list: its form, and one (name, type) entry per
//! field, in declared order.

use crate::names::positional_name;
use crate::names::positional_name_spec;
use crate::syntax::data::Fields;
use crate::syntax::data::FieldsView;
use crate::syntax::types::TypeExpr;
use crate::syntax::types::TypeExprView;
use vstd::prelude::*;

verus! {

/// The three forms a field list can take.
#[derive(Clone, Copy, Debug, PartialEq, Eq)]
pub enum ShapeKind {
    /// Fields keyed by identifier: `{ a: T, b: U }`.
    Named,
    /// Ordered fields without names: `(T, U)`.
    Positional,
    /// No field list at all.
    Unit,
}

/// One field as a constructor sees it: the name of the parameter that
/// carries it, and its declared type.
#[derive(Debug, PartialEq, Eq)]
pub struct ShapeEntry {
    pub name: String,
    pub ty: TypeExpr,
}

/// The uniform description of a field list.
#[derive(Debug, PartialEq, Eq)]
pub struct Shape {
    pub kind: ShapeKind,
    pub entries: Vec<ShapeEntry>,
}

/// The view of [`ShapeEntry`]: the same tree, made of `Seq`, `Option` and plain data.
pub struct ShapeEntryView {
    pub name: Seq<char>,
    pub ty: TypeExprView,
}

/// The view of [`Shape`]: the same tree, made of `Seq`, `Option` and plain data.
pub struct ShapeView {
    pub kind: ShapeKind,
    pub entries: Seq<ShapeEntryView>,
}

impl View for ShapeEntry {
    type V = ShapeEntryView;

    open spec fn view(&self) -> ShapeEntryView {
        ShapeEntryView { name: self.name@, ty: self.ty@ }
    }
}

impl DeepView for ShapeEntry {
    type V = ShapeEntryView;

    open spec fn deep_view(&self) -> ShapeEntryView {
        self@
    }
}

impl Clone for ShapeEntry {
    fn clone(&self) -> (r: Self)
        ensures
            r@ == self@,
    {
        ShapeEntry { name: self.name.clone(), ty: self.ty.clone() }
    }
}

impl View for Shape {
    type V = ShapeView;

    open spec fn view(&self) -> ShapeView {
        ShapeView { kind: self.kind, entries: self.entries.deep_view() }
    }
}

impl DeepView for Shape {
    type V = ShapeView;

    open spec fn deep_view(&self) -> ShapeView {
        self@
    }
}

impl Clone for Shape {
    fn clone(&self) -> (r: Self)
        ensures
            r@ == self@,
    {
        Shape { kind: self.kind, entries: self.entries.clone() }
    }
}

impl FieldsView {
    /// The number of declared fields.
    pub open spec fn count(self) -> nat {
        match self {
            FieldsView::Named(fields) => fields.len(),
            FieldsView::Positional(fields) => fields.len(),
            FieldsView::Unit => 0,
        }
    }

    /// The form of the field list.
    pub open spec fn kind(self) -> ShapeKind {
        match self {
            FieldsView::Named(_) => ShapeKind::Named,
            FieldsView::Positional(_) => ShapeKind::Positional,
            FieldsView::Unit => ShapeKind::Unit,
        }
    }

    /// The shape of the field list. A named field gives its own name and
    /// type; the positional field at index `i` gives the name `field_<i>`
    /// and its type; a unit list gives no entry.
    pub open spec fn shape(self) -> ShapeView {
        match self {
            FieldsView::Named(fields) => ShapeView {
                kind: ShapeKind::Named,
                entries: Seq::new(
                    fields.len(),
                    |i: int| ShapeEntryView { name: fields[i].name, ty: fields[i].ty },
                ),
            },
            FieldsView::Positional(fields) => ShapeView {
                kind: ShapeKind::Positional,
                entries: Seq::new(
                    fields.len(),
                    |i: int| ShapeEntryView { name: positional_name_spec(i as nat), ty: fields[i].ty },
                ),
            },
            FieldsView::Unit => ShapeView { kind: ShapeKind::Unit, entries: Seq::empty() },
        }
    }
}

impl Fields {
    /// Inspects the field list and describes its shape.
    pub fn shape(&self) -> (r: Shape)
        ensures
            r@ == self@.shape(),
    {
        match self {
            Fields::Named(fields) => {
                let mut entries: Vec<ShapeEntry> = Vec::new();
                let mut i: usize = 0;
                while i < fields.len()
                    invariant
                        i <= fields.len(),
                        entries.len() == i,
                        forall|j: int|
                            0 <= j < i ==> entries@[j]@ == (ShapeEntryView {
                                name: fields@[j]@.name,
                                ty: fields@[j]@.ty,
                            }),
                    decreases fields.len() - i,
                {
                    entries.push(
                        ShapeEntry { name: fields[i].name.clone(), ty: fields[i].ty.clone() },
                    );
                    i += 1;
                }
                let r = Shape { kind: ShapeKind::Named, entries };
                assert(r@.entries =~= self@.shape().entries);
                r
            },
            Fields::Positional(fields) => {
                let mut entries: Vec<ShapeEntry> = Vec::new();
                let mut i: usize = 0;
                while i < fields.len()
                    invariant
                        i <= fields.len(),
                        entries.len() == i,
                        forall|j: int|
                            0 <= j < i ==> entries@[j]@ == (ShapeEntryView {
                                name: positional_name_spec(j as nat),
                                ty: fields@[j]@.ty,
                            }),
                    decreases fields.len() - i,
                {
                    entries.push(ShapeEntry { name: positional_name(i), ty: fields[i].ty.clone() });
                    i += 1;
                }
                let r = Shape { kind: ShapeKind::Positional, entries };
                assert(r@.entries =~= self@.shape().entries);
                r
            },
            Fields::Unit => {
                let r = Shape { kind: ShapeKind::Unit, entries: Vec::new() };
                assert(r@.entries =~= self@.shape().entries);
                r
            },
        }
    }
}

} // verus!
