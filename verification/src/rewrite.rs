//! The five rewrite rules, one per category of declaration.

use crate::syntax::blocks::ImplBlock;
use crate::syntax::blocks::ImplBlockView;
use crate::syntax::blocks::ImplItem;
use crate::syntax::blocks::ImplItemView;
use crate::syntax::blocks::TraitDecl;
use crate::syntax::blocks::TraitDeclView;
use crate::syntax::blocks::TraitItem;
use crate::syntax::blocks::TraitItemView;
use crate::syntax::body::Block;
use crate::syntax::body::BlockView;
use crate::syntax::body::StmtView;
use crate::syntax::data::DataStruct;
use crate::syntax::data::DataStructView;
use crate::syntax::data::Enumeration;
use crate::syntax::data::EnumerationView;
use crate::syntax::function::Function;
use crate::syntax::function::FunctionView;
use crate::syntax::generics::Generics;
use crate::syntax::generics::GenericsView;
use crate::syntax::types::TypeExpr;
use crate::syntax::types::TypeExprView;
use vstd::prelude::*;

verus! {

impl FunctionView {
    /// The function with its body enclosed in one `unsafe` scope.
    /// Attributes, visibility and signature stay as they are; in
    /// particular the signature does not become `unsafe`.
    pub open spec fn with_unsafe_body(self) -> FunctionView {
        FunctionView { body: self.body.enclosed_in_unsafe(), ..self }
    }
}

impl ImplItemView {
    /// A method with its body enclosed in one `unsafe` scope; any other
    /// item unchanged.
    pub open spec fn with_unsafe_body(self) -> ImplItemView {
        match self {
            ImplItemView::Method { is_default, function } => ImplItemView::Method {
                is_default,
                function: function.with_unsafe_body(),
            },
            ImplItemView::Other(text) => ImplItemView::Other(text),
        }
    }
}

impl ImplBlockView {
    /// The rewritten `impl` block: every method body enclosed in `unsafe`,
    /// and the block itself marked `unsafe` where it implements a trait.
    /// An inherent block keeps whatever marker it came with.
    pub open spec fn rewritten(self) -> ImplBlockView {
        ImplBlockView {
            is_unsafe: self.is_unsafe || self.trait_path is Some,
            items: Seq::new(self.items.len(), |i: int| self.items[i].with_unsafe_body()),
            ..self
        }
    }
}

/// A default body enclosed in one `unsafe` scope; no body where there is
/// none.
pub open spec fn marked_default(default: Option<BlockView>) -> Option<BlockView> {
    match default {
        Some(body) => Some(body.enclosed_in_unsafe()),
        None => None,
    }
}

impl TraitItemView {
    /// A method with its signature marked `unsafe` and its default body,
    /// if it has one, enclosed in `unsafe`; any other item unchanged.
    pub open spec fn marked(self) -> TraitItemView {
        match self {
            TraitItemView::Method { attrs, sig, default } => TraitItemView::Method {
                attrs,
                sig: sig.marked_unsafe(),
                default: marked_default(default),
            },
            TraitItemView::Other(text) => TraitItemView::Other(text),
        }
    }
}

impl TraitDeclView {
    /// The rewritten trait: marked `unsafe`, with every item marked.
    pub open spec fn rewritten(self) -> TraitDeclView {
        TraitDeclView {
            is_unsafe: true,
            items: Seq::new(self.items.len(), |i: int| self.items[i].marked()),
            ..self
        }
    }
}

/// The inherent `impl` block that holds `items` for the type called `name`
/// and declared with `generics`: no attributes, no markers, the header
/// `impl<..> name<..> where ..` that [`GenericsView::for_impl`] and
/// [`GenericsView::type_args`] give.
pub open spec fn companion_block(
    name: Seq<char>,
    generics: GenericsView,
    items: Seq<ImplItemView>,
) -> ImplBlockView {
    ImplBlockView {
        attrs: Seq::empty(),
        is_default: false,
        is_unsafe: false,
        generics: generics.for_impl(),
        trait_path: None,
        self_ty: TypeExprView::Named { name, args: generics.type_args() },
        items,
    }
}

impl DataStructView {
    /// The companion block of the structure: its single item is the
    /// constructor `new_unsafe` for the shape of the structure's fields.
    pub open spec fn constructors(self) -> ImplBlockView {
        companion_block(
            self.name,
            self.generics,
            seq![
                ImplItemView::Method {
                    is_default: false,
                    function: self.fields.shape().struct_constructor(),
                },
            ],
        )
    }
}

impl EnumerationView {
    /// The constructor of the variant at `index`.
    pub open spec fn constructor(self, index: int) -> ImplItemView {
        ImplItemView::Method {
            is_default: false,
            function: self.variants[index].fields.shape().variant_constructor(
                self.variants[index].name,
            ),
        }
    }

    /// The companion block of the enumeration: one constructor per
    /// variant, in the order of the variants.
    pub open spec fn constructors(self) -> ImplBlockView {
        companion_block(
            self.name,
            self.generics,
            Seq::new(self.variants.len(), |i: int| self.constructor(i)),
        )
    }
}

/// Builds the inherent `impl` block that holds `items` for the type called
/// `name` and declared with `generics`.
pub fn companion(name: &String, generics: &Generics, items: Vec<ImplItem>) -> (r: ImplBlock)
    ensures
        r@ == companion_block(name@, generics@, items.deep_view()),
{
    let attrs: Vec<String> = Vec::new();
    assert(attrs.deep_view() =~= Seq::empty());
    ImplBlock {
        attrs,
        is_default: false,
        is_unsafe: false,
        generics: generics.for_impl(),
        trait_path: None,
        self_ty: TypeExpr::Named { name: name.clone(), args: generics.type_args() },
        items,
    }
}

/// Rewrites a free function: the body is enclosed in one `unsafe` scope,
/// everything else is copied unchanged.
pub fn wrap_function(func: &Function) -> (r: Function)
    ensures
        r@ == func@.with_unsafe_body(),
        r@.attrs == func@.attrs,
        r@.vis == func@.vis,
        r@.sig == func@.sig,
        r@.body.stmts == seq![StmtView::Unsafe(func@.body)],
{
    Function {
        attrs: func.attrs.clone(),
        vis: func.vis.clone(),
        sig: func.sig.clone(),
        body: func.body.enclosed_in_unsafe(),
    }
}

/// Rewrites a structure: the declaration itself is copied unchanged, and
/// beside it stands an `impl` block with the constructor `new_unsafe`.
pub fn wrap_struct(struct_item: &DataStruct) -> (r: (DataStruct, ImplBlock))
    ensures
        r.0@ == struct_item@,
        r.1@ == struct_item@.constructors(),
{
    let shape = struct_item.fields.shape();
    let mut items: Vec<ImplItem> = Vec::new();
    items.push(ImplItem::Method { is_default: false, function: shape.struct_constructor() });
    assert(items.deep_view() =~= struct_item@.constructors().items);
    (struct_item.clone(), companion(&struct_item.name, &struct_item.generics, items))
}

/// Rewrites one item of an `impl` block.
pub fn wrap_impl_item(item: &ImplItem) -> (r: ImplItem)
    ensures
        r@ == item@.with_unsafe_body(),
{
    match item {
        ImplItem::Method { is_default, function } => ImplItem::Method {
            is_default: *is_default,
            function: wrap_function(function),
        },
        ImplItem::Other(text) => ImplItem::Other(text.clone()),
    }
}

/// Rewrites an `impl` block: every method body is enclosed in one `unsafe`
/// scope, other items are copied unchanged, and a block that implements a
/// trait becomes an `unsafe impl`.
pub fn wrap_impl(impl_item: &ImplBlock) -> (r: ImplBlock)
    ensures
        r@ == impl_item@.rewritten(),
{
    let mut items: Vec<ImplItem> = Vec::new();
    let mut i: usize = 0;
    while i < impl_item.items.len()
        invariant
            i <= impl_item.items.len(),
            items.len() == i,
            forall|j: int| 0 <= j < i ==> items@[j]@ == impl_item.items@[j]@.with_unsafe_body(),
        decreases impl_item.items.len() - i,
    {
        items.push(wrap_impl_item(&impl_item.items[i]));
        i += 1;
    }
    assert(items.deep_view() =~= impl_item@.rewritten().items);
    ImplBlock {
        attrs: impl_item.attrs.clone(),
        is_default: impl_item.is_default,
        is_unsafe: impl_item.is_unsafe || impl_item.trait_path.is_some(),
        generics: impl_item.generics.clone(),
        trait_path: impl_item.trait_path.clone(),
        self_ty: impl_item.self_ty.clone(),
        items,
    }
}

/// Rewrites an enumeration: the declaration itself is copied unchanged,
/// and beside it stands an `impl` block with one constructor per variant.
pub fn wrap_enum(enum_item: &Enumeration) -> (r: (Enumeration, ImplBlock))
    ensures
        r.0@ == enum_item@,
        r.1@ == enum_item@.constructors(),
{
    let mut items: Vec<ImplItem> = Vec::new();
    let mut i: usize = 0;
    while i < enum_item.variants.len()
        invariant
            i <= enum_item.variants.len(),
            items.len() == i,
            forall|j: int| 0 <= j < i ==> items@[j]@ == enum_item@.constructor(j),
        decreases enum_item.variants.len() - i,
    {
        let variant = &enum_item.variants[i];
        let shape = variant.fields.shape();
        items.push(
            ImplItem::Method { is_default: false, function: shape.variant_constructor(&variant.name) },
        );
        i += 1;
    }
    assert(items.deep_view() =~= enum_item@.constructors().items);
    (enum_item.clone(), companion(&enum_item.name, &enum_item.generics, items))
}

/// Encloses a default body in one `unsafe` scope, where there is one.
pub fn wrap_default(default: &Option<Block>) -> (r: Option<Block>)
    ensures
        r.deep_view() == marked_default(default.deep_view()),
{
    match default {
        Some(body) => Some(body.enclosed_in_unsafe()),
        None => None,
    }
}

/// Rewrites one item of a trait.
pub fn wrap_trait_item(item: &TraitItem) -> (r: TraitItem)
    ensures
        r@ == item@.marked(),
{
    match item {
        TraitItem::Method { attrs, sig, default } => TraitItem::Method {
            attrs: attrs.clone(),
            sig: sig.marked_unsafe(),
            default: wrap_default(default),
        },
        TraitItem::Other(text) => TraitItem::Other(text.clone()),
    }
}

/// Rewrites a trait: the trait becomes an `unsafe trait`, every method
/// signature becomes `unsafe`, and every default body is enclosed in one
/// `unsafe` scope. A method without a default body gains none.
pub fn wrap_trait(trait_item: &TraitDecl) -> (r: TraitDecl)
    ensures
        r@ == trait_item@.rewritten(),
{
    let mut items: Vec<TraitItem> = Vec::new();
    let mut i: usize = 0;
    while i < trait_item.items.len()
        invariant
            i <= trait_item.items.len(),
            items.len() == i,
            forall|j: int| 0 <= j < i ==> items@[j]@ == trait_item.items@[j]@.marked(),
        decreases trait_item.items.len() - i,
    {
        items.push(wrap_trait_item(&trait_item.items[i]));
        i += 1;
    }
    assert(items.deep_view() =~= trait_item@.rewritten().items);
    TraitDecl {
        attrs: trait_item.attrs.clone(),
        vis: trait_item.vis.clone(),
        is_unsafe: true,
        is_auto: trait_item.is_auto,
        name: trait_item.name.clone(),
        generics: trait_item.generics.clone(),
        supertraits: trait_item.supertraits.clone(),
        items,
    }
}

} // verus!
