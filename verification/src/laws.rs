//! What holds of the rewrite rules for every declaration, stated over the
//! views of the tree and proved from the rules' definitions.

use crate::names::constructor_name_around;
use crate::names::lowercase;
use crate::names::positional_name_spec;
use crate::shape::ShapeEntryView;
use crate::shape::ShapeKind;
use crate::syntax::blocks::ImplBlockView;
use crate::syntax::blocks::ImplItemView;
use crate::syntax::blocks::TraitDeclView;
use crate::syntax::blocks::TraitItemView;
use crate::syntax::body::BlockView;
use crate::syntax::body::StmtView;
use crate::syntax::data::DataStructView;
use crate::syntax::data::EnumerationView;
use crate::syntax::data::FieldsView;
use crate::syntax::declaration::DeclarationView;
use crate::syntax::function::FunctionView;
use crate::syntax::function::ParameterView;
use crate::syntax::function::SignatureView;
use crate::syntax::generics::GenericsView;
use crate::syntax::types::TypeExprView;
use crate::syntax::types::VisibilityView;
use vstd::prelude::*;

verus! {

/// A shape has one entry per declared field, in declared order. A named
/// field gives its own name, the positional field at index `i` the name
/// `field_<i>`, and every entry carries the type of its field.
pub proof fn shape_follows_fields(fields: FieldsView)
    ensures
        fields.shape().kind == fields.kind(),
        fields.shape().entries.len() == fields.count(),
        fields matches FieldsView::Named(named) ==> forall|i: int|
            0 <= i < named.len() ==> fields.shape().entries[i] == (ShapeEntryView {
                name: named[i].name,
                ty: named[i].ty,
            }),
        fields matches FieldsView::Positional(positional) ==> forall|i: int|
            0 <= i < positional.len() ==> fields.shape().entries[i] == (ShapeEntryView {
                name: positional_name_spec(i as nat),
                ty: positional[i].ty,
            }),
{
}

/// Enclosing a body in `unsafe` adds exactly one scope and keeps the body
/// whole inside it: the statements of the old body are the statements of
/// the one `unsafe` expression that the new body consists of.
pub proof fn marking_adds_one_scope(body: BlockView)
    ensures
        body.enclosed_in_unsafe().stmts.len() == 1,
        body.enclosed_in_unsafe().stmts[0] == StmtView::Unsafe(body),
        body.enclosed_in_unsafe().is_unsafe_scope(),
        body.enclosed_in_unsafe().unsafe_depth() == body.unsafe_depth() + 1,
{
}

/// Marking is not idempotent: a body that is marked again is enclosed
/// again, so it differs from the body that was marked once.
pub proof fn marking_twice_nests(body: BlockView)
    ensures
        body.enclosed_in_unsafe().enclosed_in_unsafe().unsafe_depth() == body.unsafe_depth() + 2,
        body.enclosed_in_unsafe().enclosed_in_unsafe() != body.enclosed_in_unsafe(),
        body.enclosed_in_unsafe() != body,
{
    marking_adds_one_scope(body);
    marking_adds_one_scope(body.enclosed_in_unsafe());
}

/// Rewriting a function leaves its attributes, its visibility and its
/// whole signature as they were (so the signature does not gain `unsafe`),
/// and puts the old body inside exactly one `unsafe` scope.
pub proof fn function_rewrite_keeps_signature(function: FunctionView)
    ensures
        DeclarationView::Function(function).rewritten() == seq![
            DeclarationView::Function(function.with_unsafe_body()),
        ],
        function.with_unsafe_body().attrs == function.attrs,
        function.with_unsafe_body().vis == function.vis,
        function.with_unsafe_body().sig == function.sig,
        function.with_unsafe_body().sig.is_unsafe == function.sig.is_unsafe,
        function.with_unsafe_body().body.stmts == seq![StmtView::Unsafe(function.body)],
        function.with_unsafe_body().body.unsafe_depth() == function.body.unsafe_depth() + 1,
{
    marking_adds_one_scope(function.body);
}

/// A structure is replaced by itself, unchanged, followed by one inherent
/// `impl` block for the same type, which holds exactly one item: the
/// public, `unsafe` function `new_unsafe`, which returns `Self`.
pub proof fn struct_rewrite_adds_one_constructor(data: DataStructView)
    ensures
        DeclarationView::DataStruct(data).rewritten().len() == 2,
        DeclarationView::DataStruct(data).rewritten()[0] == DeclarationView::DataStruct(data),
        DeclarationView::DataStruct(data).rewritten()[1] == DeclarationView::ImplBlock(
            data.constructors(),
        ),
        data.constructors().trait_path is None,
        !data.constructors().is_unsafe,
        data.constructors().self_ty == (TypeExprView::Named {
            name: data.name,
            args: data.generics.type_args(),
        }),
        data.constructors().generics == data.generics.for_impl(),
        data.constructors().items.len() == 1,
        data.constructors().items[0] == (ImplItemView::Method {
            is_default: false,
            function: data.fields.shape().struct_constructor(),
        }),
        data.fields.shape().struct_constructor().sig.name == "new_unsafe"@,
        data.fields.shape().struct_constructor().sig.is_unsafe,
        data.fields.shape().struct_constructor().sig.output == Some(TypeExprView::SelfType),
        data.fields.shape().struct_constructor().sig.generics == GenericsView::none(),
        data.fields.shape().struct_constructor().sig.params.len() == data.fields.count(),
        data.fields.shape().struct_constructor().vis == VisibilityView::Public,
{
}

/// For a structure with named fields, `new_unsafe` takes one parameter per
/// field, with the field's name and type and in declared order, and builds
/// `Self { .. }` from those names, in that order, inside one `unsafe`
/// scope.
pub proof fn named_struct_constructor(data: DataStructView)
    requires
        data.fields is Named,
    ensures
        ({
            let fields = data.fields->Named_0;
            let constructor = data.fields.shape().struct_constructor();
            &&& constructor.sig.params.len() == fields.len()
            &&& forall|i: int|
                0 <= i < fields.len() ==> constructor.sig.params[i] == (ParameterView {
                    pattern: fields[i].name,
                    ty: Some(fields[i].ty),
                })
            &&& constructor.body.stmts.len() == 1
            &&& constructor.body.stmts[0] matches StmtView::Unsafe(inner)
            &&& inner.stmts.len() == 1
            &&& inner.stmts[0] matches StmtView::Construct { variant, kind, args }
            &&& variant is None
            &&& kind == ShapeKind::Named
            &&& args.len() == fields.len()
            &&& forall|i: int| 0 <= i < fields.len() ==> args[i] == fields[i].name
        }),
{
}

/// For a structure with positional fields, `new_unsafe` takes the
/// parameters `field_0`, `field_1`, and so on, one per field, each with
/// the type of the field at its index, and builds `Self(..)` from those
/// names, in that order, inside one `unsafe` scope.
pub proof fn positional_struct_constructor(data: DataStructView)
    requires
        data.fields is Positional,
    ensures
        ({
            let fields = data.fields->Positional_0;
            let constructor = data.fields.shape().struct_constructor();
            &&& constructor.sig.params.len() == fields.len()
            &&& forall|i: int|
                0 <= i < fields.len() ==> constructor.sig.params[i] == (ParameterView {
                    pattern: positional_name_spec(i as nat),
                    ty: Some(fields[i].ty),
                })
            &&& constructor.body.stmts.len() == 1
            &&& constructor.body.stmts[0] matches StmtView::Unsafe(inner)
            &&& inner.stmts.len() == 1
            &&& inner.stmts[0] matches StmtView::Construct { variant, kind, args }
            &&& variant is None
            &&& kind == ShapeKind::Positional
            &&& args.len() == fields.len()
            &&& forall|i: int| 0 <= i < fields.len() ==> args[i] == positional_name_spec(i as nat)
        }),
{
}

/// For a structure without a field list, `new_unsafe` takes no parameter
/// and still builds the value, inside one `unsafe` scope.
pub proof fn unit_struct_constructor(data: DataStructView)
    requires
        data.fields is Unit,
    ensures
        ({
            let constructor = data.fields.shape().struct_constructor();
            &&& constructor.sig.params.len() == 0
            &&& constructor.sig.is_unsafe
            &&& constructor.body.stmts.len() == 1
            &&& constructor.body.stmts[0] matches StmtView::Unsafe(inner)
            &&& inner.stmts.len() == 1
            &&& inner.stmts[0] matches StmtView::Construct { variant, kind, args }
            &&& variant is None
            &&& kind == ShapeKind::Unit
            &&& args.len() == 0
        }),
{
}

/// An enumeration is replaced by itself, unchanged, followed by one
/// inherent `impl` block for the same type with exactly one constructor
/// per variant, in the order of the variants.
pub proof fn enum_rewrite_adds_one_constructor_per_variant(enumeration: EnumerationView)
    ensures
        DeclarationView::Enumeration(enumeration).rewritten().len() == 2,
        DeclarationView::Enumeration(enumeration).rewritten()[0] == DeclarationView::Enumeration(
            enumeration,
        ),
        DeclarationView::Enumeration(enumeration).rewritten()[1] == DeclarationView::ImplBlock(
            enumeration.constructors(),
        ),
        enumeration.constructors().trait_path is None,
        !enumeration.constructors().is_unsafe,
        enumeration.constructors().self_ty == (TypeExprView::Named {
            name: enumeration.name,
            args: enumeration.generics.type_args(),
        }),
        enumeration.constructors().generics == enumeration.generics.for_impl(),
        enumeration.constructors().items.len() == enumeration.variants.len(),
        forall|i: int|
            0 <= i < enumeration.variants.len() ==> #[trigger] enumeration.constructors().items[i]
                == enumeration.constructor(i),
{
}

/// The constructor of the variant at `index` is a public, `unsafe`
/// function named `new_<lower-cased variant name>_unsafe` that returns
/// `Self`. It takes one parameter per field of that variant (named as the
/// variant's own shape names them, typed as the fields are, in declared
/// order) and its body is the one expression that builds that variant
/// from those names, in the variant's own form.
pub proof fn variant_constructor_follows_variant(enumeration: EnumerationView, index: int)
    requires
        0 <= index < enumeration.variants.len(),
    ensures
        ({
            let variant = enumeration.variants[index];
            let shape = variant.fields.shape();
            &&& enumeration.constructor(index) matches ImplItemView::Method { is_default, function }
            &&& !is_default
            &&& function.vis == VisibilityView::Public
            &&& function.sig.is_unsafe
            &&& function.sig.name == constructor_name_around(lowercase(variant.name))
            &&& function.sig.output == Some(TypeExprView::SelfType)
            &&& function.sig.params.len() == variant.fields.count()
            &&& forall|i: int|
                0 <= i < shape.entries.len() ==> function.sig.params[i] == (ParameterView {
                    pattern: shape.entries[i].name,
                    ty: Some(shape.entries[i].ty),
                })
            &&& function.body.stmts.len() == 1
            &&& function.body.stmts[0] matches StmtView::Construct { variant: built, kind, args }
            &&& built == Some(variant.name)
            &&& kind == variant.fields.kind()
            &&& args.len() == variant.fields.count()
            &&& forall|i: int| 0 <= i < shape.entries.len() ==> args[i] == shape.entries[i].name
        }),
{
}

/// Rewriting an `impl` block keeps its header and the number and order of
/// its items. Every method keeps its signature and has its old body inside
/// exactly one `unsafe` scope; every other item is unchanged.
pub proof fn impl_rewrite_wraps_every_method(block: ImplBlockView)
    ensures
        DeclarationView::ImplBlock(block).rewritten() == seq![
            DeclarationView::ImplBlock(block.rewritten()),
        ],
        block.rewritten().attrs == block.attrs,
        block.rewritten().is_default == block.is_default,
        block.rewritten().generics == block.generics,
        block.rewritten().trait_path == block.trait_path,
        block.rewritten().self_ty == block.self_ty,
        block.rewritten().items.len() == block.items.len(),
        forall|i: int|
            0 <= i < block.items.len() ==> #[trigger] block.rewritten().items[i]
                == match block.items[i] {
                ImplItemView::Method { is_default, function } => ImplItemView::Method {
                    is_default,
                    function: FunctionView {
                        body: BlockView { stmts: seq![StmtView::Unsafe(function.body)] },
                        ..function
                    },
                },
                ImplItemView::Other(text) => ImplItemView::Other(text),
            },
{
}

/// A block that implements a trait leaves as an `unsafe impl`; an
/// inherent block leaves with the marker it came with. So for a block
/// that arrives unmarked, the marker is present afterwards if and only if
/// the block implements a trait.
pub proof fn impl_marker_follows_trait(block: ImplBlockView)
    ensures
        block.trait_path is Some ==> block.rewritten().is_unsafe,
        block.trait_path is None ==> block.rewritten().is_unsafe == block.is_unsafe,
        !block.is_unsafe ==> (block.rewritten().is_unsafe <==> block.trait_path is Some),
{
}

/// Rewriting a trait marks the trait `unsafe` and keeps the rest of its
/// header and the number and order of its items. Every method signature
/// becomes `unsafe` and is otherwise unchanged; a default body ends up
/// inside exactly one `unsafe` scope; a method without a default body
/// still has none; every other item is unchanged.
pub proof fn trait_rewrite_marks_every_method(decl: TraitDeclView)
    ensures
        DeclarationView::Trait(decl).rewritten() == seq![DeclarationView::Trait(decl.rewritten())],
        decl.rewritten().is_unsafe,
        decl.rewritten().attrs == decl.attrs,
        decl.rewritten().vis == decl.vis,
        decl.rewritten().is_auto == decl.is_auto,
        decl.rewritten().name == decl.name,
        decl.rewritten().generics == decl.generics,
        decl.rewritten().supertraits == decl.supertraits,
        decl.rewritten().items.len() == decl.items.len(),
        forall|i: int|
            0 <= i < decl.items.len() ==> #[trigger] decl.rewritten().items[i]
                == match decl.items[i] {
                TraitItemView::Method { attrs, sig, default } => TraitItemView::Method {
                    attrs,
                    sig: SignatureView { is_unsafe: true, ..sig },
                    default: match default {
                        Some(body) => Some(BlockView { stmts: seq![StmtView::Unsafe(body)] }),
                        None => None,
                    },
                },
                TraitItemView::Other(text) => TraitItemView::Other(text),
            },
{
}

/// A declaration of no recognized category is replaced by itself alone.
pub proof fn other_declarations_pass_through(text: Seq<char>)
    ensures
        DeclarationView::Other(text).rewritten() == seq![DeclarationView::Other(text)],
{
}

/// Every declaration is replaced by one declaration, or by two where it
/// is a structure or an enumeration.
pub proof fn rewrite_gives_one_or_two(declaration: DeclarationView)
    ensures
        declaration.rewritten().len() == if declaration is DataStruct || declaration
            is Enumeration {
            2nat
        } else {
            1nat
        },
{
}

/// Rewriting is not idempotent for a function: rewriting the result again
/// encloses the body a second time.
pub proof fn rewriting_a_function_twice_nests(function: FunctionView)
    ensures
        function.with_unsafe_body().with_unsafe_body().body.unsafe_depth()
            == function.body.unsafe_depth() + 2,
        function.with_unsafe_body().with_unsafe_body() != function.with_unsafe_body(),
{
    marking_twice_nests(function.body);
}

/// Rewriting is not idempotent for a structure: the structure that leaves
/// is the one that came, so rewriting it again gives the same companion
/// block, with a second `new_unsafe`; and rewriting the companion block
/// encloses the constructor's body a second time.
pub proof fn rewriting_a_struct_twice_repeats(data: DataStructView)
    ensures
        DeclarationView::DataStruct(data).rewritten()[0].rewritten() == DeclarationView::DataStruct(
            data,
        ).rewritten(),
        data.constructors().rewritten().items.len() == 1,
        data.constructors().rewritten().items[0] matches ImplItemView::Method { function, .. }
            && function.sig.name == "new_unsafe"@ && function.body.unsafe_depth() == 2,
{
    let shape = data.fields.shape();
    let building = BlockView { stmts: seq![shape.construction(None)] };
    assert(building.unsafe_depth() == 0);
    marking_twice_nests(building);
}

} // verus!
