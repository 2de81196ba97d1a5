//! A syntactic rewriter for declarations.
//!
//! A declaration arrives as a tree ([`syntax::declaration::Declaration`]) and leaves as a
//! sequence of trees: executable bodies are enclosed in an `unsafe` scope,
//! trait method signatures are marked `unsafe`, and data-bearing declarations
//! gain `unsafe` constructor functions derived from their field lists.
//! Nothing is resolved or type-checked: every rule reads only the shape of
//! the tree, and every rule is stated as a spec function on the view of the
//! tree and proved of the executable code.

pub mod constructor;
pub mod laws;
pub mod marker;
pub mod names;
pub mod rewrite;
pub mod shape;
pub mod syntax;

use crate::rewrite::wrap_enum;
use crate::rewrite::wrap_function;
use crate::rewrite::wrap_impl;
use crate::rewrite::wrap_struct;
use crate::rewrite::wrap_trait;
use crate::syntax::declaration::Declaration;
use crate::syntax::declaration::DeclarationView;
use vstd::prelude::*;

verus! {

impl DeclarationView {
    /// What the rewriter puts in the place of the declaration.
    ///
    /// A function, an `impl` block or a trait is replaced by its rewritten
    /// self. A structure or an enumeration stays as it is and is followed
    /// by its companion block of constructors. A declaration of any other
    /// category stays as it is, alone.
    pub open spec fn rewritten(self) -> Seq<DeclarationView> {
        match self {
            DeclarationView::Function(function) => seq![
                DeclarationView::Function(function.with_unsafe_body()),
            ],
            DeclarationView::DataStruct(data) => seq![
                DeclarationView::DataStruct(data),
                DeclarationView::ImplBlock(data.constructors()),
            ],
            DeclarationView::ImplBlock(block) => seq![DeclarationView::ImplBlock(block.rewritten())],
            DeclarationView::Enumeration(enumeration) => seq![
                DeclarationView::Enumeration(enumeration),
                DeclarationView::ImplBlock(enumeration.constructors()),
            ],
            DeclarationView::Trait(decl) => seq![DeclarationView::Trait(decl.rewritten())],
            DeclarationView::Other(text) => seq![DeclarationView::Other(text)],
        }
    }
}

/// Rewrites one declaration according to its category and returns the
/// declarations that replace it, in order. The input is left untouched;
/// the output shares nothing with it. The arguments of the attribute are
/// accepted and ignored.
pub fn noble(_args: &str, item: &Declaration) -> (r: Vec<Declaration>)
    ensures
        r.deep_view() == item@.rewritten(),
{
    let mut out: Vec<Declaration> = Vec::new();
    match item {
        Declaration::Function(func) => {
            out.push(Declaration::Function(wrap_function(func)));
        },
        Declaration::DataStruct(struct_item) => {
            let (kept, constructors) = wrap_struct(struct_item);
            out.push(Declaration::DataStruct(kept));
            out.push(Declaration::ImplBlock(constructors));
        },
        Declaration::ImplBlock(impl_item) => {
            out.push(Declaration::ImplBlock(wrap_impl(impl_item)));
        },
        Declaration::Enumeration(enum_item) => {
            let (kept, constructors) = wrap_enum(enum_item);
            out.push(Declaration::Enumeration(kept));
            out.push(Declaration::ImplBlock(constructors));
        },
        Declaration::Trait(trait_item) => {
            out.push(Declaration::Trait(wrap_trait(trait_item)));
        },
        Declaration::Other(text) => {
            out.push(Declaration::Other(text.clone()));
        },
    }
    out
}

} // verus!
