//! Synthesis of constructor functions from a shape.

use crate::names::struct_constructor_name;
use crate::names::struct_constructor_name_spec;
use crate::names::variant_constructor_name;
use crate::names::variant_constructor_name_spec;
use crate::shape::Shape;
use crate::shape::ShapeView;
use crate::syntax::body::Block;
use crate::syntax::body::BlockView;
use crate::syntax::body::Stmt;
use crate::syntax::body::StmtView;
use crate::syntax::function::Function;
use crate::syntax::function::FunctionView;
use crate::syntax::function::Parameter;
use crate::syntax::function::ParameterView;
use crate::syntax::function::Signature;
use crate::syntax::function::SignatureView;
use crate::syntax::generics::Generics;
use crate::syntax::generics::GenericsView;
use crate::syntax::types::TypeExpr;
use crate::syntax::types::TypeExprView;
use crate::syntax::types::Visibility;
use crate::syntax::types::VisibilityView;
use vstd::prelude::*;

verus! {

impl ShapeView {
    /// One parameter per entry, in order: the entry's name bound at the
    /// entry's type.
    pub open spec fn params(self) -> Seq<ParameterView> {
        Seq::new(
            self.entries.len(),
            |i: int| ParameterView { pattern: self.entries[i].name, ty: Some(self.entries[i].ty) },
        )
    }

    /// The names of the entries, in order.
    pub open spec fn names(self) -> Seq<Seq<char>> {
        Seq::new(self.entries.len(), |i: int| self.entries[i].name)
    }

    /// The expression that builds `Self`, or the variant `variant` of
    /// `Self`, in the form of this shape, from the parameters of
    /// [`ShapeView::params`] passed on unchanged and in order.
    pub open spec fn construction(self, variant: Option<Seq<char>>) -> StmtView {
        StmtView::Construct { variant, kind: self.kind, args: self.names() }
    }

    /// The body of a constructor. A structure is built inside an `unsafe`
    /// scope; a variant is built by the block's only statement.
    pub open spec fn constructor_body(self, variant: Option<Seq<char>>) -> BlockView {
        let building = BlockView { stmts: seq![self.construction(variant)] };
        if variant is None {
            building.enclosed_in_unsafe()
        } else {
            building
        }
    }

    /// The constructor called `name`: public, `unsafe` to call, without
    /// attributes or generics of its own, one parameter per entry, and
    /// returning `Self`.
    pub open spec fn constructor(self, name: Seq<char>, variant: Option<Seq<char>>) -> FunctionView {
        FunctionView {
            attrs: Seq::empty(),
            vis: VisibilityView::Public,
            sig: SignatureView {
                is_const: false,
                is_async: false,
                is_unsafe: true,
                abi: None,
                name,
                generics: GenericsView::none(),
                params: self.params(),
                output: Some(TypeExprView::SelfType),
            },
            body: self.constructor_body(variant),
        }
    }

    /// The constructor of a structure of this shape, named `new_unsafe`.
    pub open spec fn struct_constructor(self) -> FunctionView {
        self.constructor(struct_constructor_name_spec(), None)
    }

    /// The constructor of the variant `variant` of this shape, named
    /// `new_<lower-cased variant>_unsafe`.
    pub open spec fn variant_constructor(self, variant: Seq<char>) -> FunctionView {
        self.constructor(variant_constructor_name_spec(variant), Some(variant))
    }
}

impl Shape {
    /// The parameter list of a constructor for this shape.
    pub fn params(&self) -> (r: Vec<Parameter>)
        ensures
            r.deep_view() == self@.params(),
    {
        let mut params: Vec<Parameter> = Vec::new();
        let mut i: usize = 0;
        while i < self.entries.len()
            invariant
                i <= self.entries.len(),
                params.len() == i,
                forall|j: int|
                    0 <= j < i ==> params@[j]@ == (ParameterView {
                        pattern: self.entries@[j]@.name,
                        ty: Some(self.entries@[j]@.ty),
                    }),
            decreases self.entries.len() - i,
        {
            params.push(
                Parameter {
                    pattern: self.entries[i].name.clone(),
                    ty: Some(self.entries[i].ty.clone()),
                },
            );
            i += 1;
        }
        params
    }

    /// The names of the entries, in order.
    pub fn names(&self) -> (r: Vec<String>)
        ensures
            r.deep_view() == self@.names(),
    {
        let mut names: Vec<String> = Vec::new();
        let mut i: usize = 0;
        while i < self.entries.len()
            invariant
                i <= self.entries.len(),
                names.len() == i,
                forall|j: int| 0 <= j < i ==> names@[j]@ == self.entries@[j]@.name,
            decreases self.entries.len() - i,
        {
            names.push(self.entries[i].name.clone());
            i += 1;
        }
        names
    }

    /// Synthesizes the constructor called `name` for this shape. With a
    /// `variant` it builds that variant of `Self`, without one `Self`
    /// itself.
    pub fn constructor(&self, name: String, variant: Option<String>) -> (r: Function)
        ensures
            r@ == self@.constructor(name@, variant.deep_view()),
    {
        let wrap = variant.is_none();
        let mut stmts: Vec<Stmt> = Vec::new();
        stmts.push(Stmt::Construct { variant, kind: self.kind, args: self.names() });
        let building = Block { stmts };
        assert(building@.stmts =~= seq![self@.construction(variant.deep_view())]);
        let body = if wrap {
            building.enclosed_in_unsafe()
        } else {
            building
        };
        let attrs: Vec<String> = Vec::new();
        assert(attrs.deep_view() =~= Seq::empty());
        Function {
            attrs,
            vis: Visibility::Public,
            sig: Signature {
                is_const: false,
                is_async: false,
                is_unsafe: true,
                abi: None,
                name,
                generics: Generics::none(),
                params: self.params(),
                output: Some(TypeExpr::SelfType),
            },
            body,
        }
    }

    /// Synthesizes `new_unsafe`, the constructor of a structure of this
    /// shape.
    pub fn struct_constructor(&self) -> (r: Function)
        ensures
            r@ == self@.struct_constructor(),
    {
        self.constructor(struct_constructor_name(), None)
    }

    /// Synthesizes `new_<lower-cased variant>_unsafe`, the constructor of
    /// the variant `variant` of this shape.
    pub fn variant_constructor(&self, variant: &String) -> (r: Function)
        ensures
            r@ == self@.variant_constructor(variant@),
    {
        self.constructor(variant_constructor_name(variant.as_str()), Some(variant.clone()))
    }
}

} // verus!
