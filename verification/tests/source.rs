use noble::noble;
use noble::syntax::blocks::{ImplBlock, ImplItem, TraitDecl, TraitItem};
use noble::syntax::body::{Block, Stmt};
use noble::syntax::data::{DataStruct, Enumeration, Fields, NamedField, PositionalField, Variant};
use noble::syntax::declaration::Declaration;
use noble::syntax::function::{Function, Parameter, Signature};
use noble::syntax::generics::{GenericParam, Generics, ParamKind};
use noble::syntax::types::{TypeExpr, Visibility};
use noble::shape::ShapeKind;
use quote::ToTokens;

// ---- from syn's tree to the library's ----

fn text<T: ToTokens>(node: &T) -> String {
    node.to_token_stream().to_string()
}

fn attrs_of(attrs: &[syn::Attribute]) -> Vec<String> {
    attrs.iter().map(text).collect()
}

fn vis_of(vis: &syn::Visibility) -> Visibility {
    match vis {
        syn::Visibility::Inherited => Visibility::Inherited,
        syn::Visibility::Public(_) => Visibility::Public,
        syn::Visibility::Restricted(r) => {
            let scope = match &r.in_token {
                Some(_) => format!("in {}", text(&r.path)),
                None => text(&r.path),
            };
            Visibility::Restricted(scope)
        }
    }
}

fn generics_of(generics: &syn::Generics) -> Generics {
    let params = generics
        .params
        .iter()
        .map(|p| match p {
            syn::GenericParam::Lifetime(l) => GenericParam {
                kind: ParamKind::Lifetime,
                attrs: attrs_of(&l.attrs),
                name: text(&l.lifetime),
                bounds: if l.bounds.is_empty() { None } else { Some(text(&l.bounds)) },
                default: None,
            },
            syn::GenericParam::Type(t) => GenericParam {
                kind: ParamKind::Type,
                attrs: attrs_of(&t.attrs),
                name: text(&t.ident),
                bounds: if t.bounds.is_empty() { None } else { Some(text(&t.bounds)) },
                default: t.default.as_ref().map(text),
            },
            syn::GenericParam::Const(c) => GenericParam {
                kind: ParamKind::Const,
                attrs: attrs_of(&c.attrs),
                name: text(&c.ident),
                bounds: Some(text(&c.ty)),
                default: c.default.as_ref().map(text),
            },
        })
        .collect();
    Generics { params, where_clause: generics.where_clause.as_ref().map(|w| text(&w.predicates)) }
}

fn param_of(arg: &syn::FnArg) -> Parameter {
    match arg {
        syn::FnArg::Receiver(r) if r.colon_token.is_none() => {
            Parameter { pattern: text(r), ty: None }
        }
        syn::FnArg::Receiver(r) => {
            let mut pattern = attrs_of(&r.attrs).join(" ");
            if r.mutability.is_some() {
                pattern.push_str(" mut");
            }
            pattern.push_str(" self");
            Parameter { pattern, ty: Some(TypeExpr::Source(text(&r.ty))) }
        }
        syn::FnArg::Typed(t) => {
            let mut pattern = attrs_of(&t.attrs).join(" ");
            pattern.push(' ');
            pattern.push_str(&text(&t.pat));
            Parameter { pattern, ty: Some(TypeExpr::Source(text(&t.ty))) }
        }
    }
}

fn sig_of(sig: &syn::Signature) -> Signature {
    let mut params: Vec<Parameter> = sig.inputs.iter().map(param_of).collect();
    if let Some(v) = &sig.variadic {
        params.push(Parameter { pattern: text(v), ty: None });
    }
    Signature {
        is_const: sig.constness.is_some(),
        is_async: sig.asyncness.is_some(),
        is_unsafe: sig.unsafety.is_some(),
        abi: sig.abi.as_ref().map(|a| a.name.as_ref().map(text).unwrap_or_default()),
        name: text(&sig.ident),
        generics: generics_of(&sig.generics),
        params,
        output: match &sig.output {
            syn::ReturnType::Default => None,
            syn::ReturnType::Type(_, ty) => Some(TypeExpr::Source(text(ty))),
        },
    }
}

fn block_of(block: &syn::Block) -> Block {
    Block { stmts: block.stmts.iter().map(|s| Stmt::Source(text(s))).collect() }
}

fn fields_of(fields: &syn::Fields) -> Fields {
    match fields {
        syn::Fields::Named(named) => Fields::Named(
            named
                .named
                .iter()
                .map(|f| NamedField {
                    attrs: attrs_of(&f.attrs),
                    vis: vis_of(&f.vis),
                    name: f.ident.as_ref().map(text).unwrap_or_default(),
                    ty: TypeExpr::Source(text(&f.ty)),
                })
                .collect(),
        ),
        syn::Fields::Unnamed(unnamed) => Fields::Positional(
            unnamed
                .unnamed
                .iter()
                .map(|f| PositionalField {
                    attrs: attrs_of(&f.attrs),
                    vis: vis_of(&f.vis),
                    ty: TypeExpr::Source(text(&f.ty)),
                })
                .collect(),
        ),
        syn::Fields::Unit => Fields::Unit,
    }
}

fn declaration_of(item: &syn::Item) -> Declaration {
    match item {
        syn::Item::Fn(f) => Declaration::Function(Function {
            attrs: attrs_of(&f.attrs),
            vis: vis_of(&f.vis),
            sig: sig_of(&f.sig),
            body: block_of(&f.block),
        }),
        syn::Item::Struct(s) => Declaration::DataStruct(DataStruct {
            attrs: attrs_of(&s.attrs),
            vis: vis_of(&s.vis),
            name: text(&s.ident),
            generics: generics_of(&s.generics),
            fields: fields_of(&s.fields),
        }),
        syn::Item::Enum(e) => Declaration::Enumeration(Enumeration {
            attrs: attrs_of(&e.attrs),
            vis: vis_of(&e.vis),
            name: text(&e.ident),
            generics: generics_of(&e.generics),
            variants: e
                .variants
                .iter()
                .map(|v| Variant {
                    attrs: attrs_of(&v.attrs),
                    name: text(&v.ident),
                    fields: fields_of(&v.fields),
                    discriminant: v.discriminant.as_ref().map(|d| text(&d.1)),
                })
                .collect(),
        }),
        syn::Item::Impl(i) => Declaration::ImplBlock(ImplBlock {
            attrs: attrs_of(&i.attrs),
            is_default: i.defaultness.is_some(),
            is_unsafe: i.unsafety.is_some(),
            generics: generics_of(&i.generics),
            trait_path: i.trait_.as_ref().map(|t| match t.0 {
                Some(_) => format!("!{}", text(&t.1)),
                None => text(&t.1),
            }),
            self_ty: TypeExpr::Source(text(&i.self_ty)),
            items: i
                .items
                .iter()
                .map(|item| match item {
                    syn::ImplItem::Fn(m) => ImplItem::Method {
                        is_default: m.defaultness.is_some(),
                        function: Function {
                            attrs: attrs_of(&m.attrs),
                            vis: vis_of(&m.vis),
                            sig: sig_of(&m.sig),
                            body: block_of(&m.block),
                        },
                    },
                    other => ImplItem::Other(text(other)),
                })
                .collect(),
        }),
        syn::Item::Trait(t) => Declaration::Trait(TraitDecl {
            attrs: attrs_of(&t.attrs),
            vis: vis_of(&t.vis),
            is_unsafe: t.unsafety.is_some(),
            is_auto: t.auto_token.is_some(),
            name: text(&t.ident),
            generics: generics_of(&t.generics),
            supertraits: t.colon_token.as_ref().map(|_| text(&t.supertraits)),
            items: t
                .items
                .iter()
                .map(|item| match item {
                    syn::TraitItem::Fn(m) => TraitItem::Method {
                        attrs: attrs_of(&m.attrs),
                        sig: sig_of(&m.sig),
                        default: m.default.as_ref().map(block_of),
                    },
                    other => TraitItem::Other(text(other)),
                })
                .collect(),
        }),
        other => Declaration::Other(text(other)),
    }
}

// ---- from the library's tree to source text ----

fn outer(attrs: &[String]) -> String {
    attrs.iter().filter(|a| !a.replace(' ', "").starts_with("#!")).cloned().collect::<Vec<_>>().join(" ")
}

fn inner(attrs: &[String]) -> String {
    attrs.iter().filter(|a| a.replace(' ', "").starts_with("#!")).cloned().collect::<Vec<_>>().join(" ")
}

fn vis_text(vis: &Visibility) -> String {
    match vis {
        Visibility::Inherited => String::new(),
        Visibility::Public => "pub".to_string(),
        Visibility::Restricted(scope) => format!("pub({})", scope),
    }
}

fn type_text(ty: &TypeExpr) -> String {
    match ty {
        TypeExpr::Source(t) => t.clone(),
        TypeExpr::SelfType => "Self".to_string(),
        TypeExpr::Named { name, args } if args.is_empty() => name.clone(),
        TypeExpr::Named { name, args } => format!("{}<{}>", name, args.join(", ")),
    }
}

fn param_list_text(params: &[GenericParam]) -> String {
    if params.is_empty() {
        return String::new();
    }
    let each: Vec<String> = params
        .iter()
        .map(|p| {
            let mut out = p.attrs.join(" ");
            if p.kind == ParamKind::Const {
                out.push_str(" const");
            }
            out.push(' ');
            out.push_str(&p.name);
            if let Some(b) = &p.bounds {
                out.push_str(": ");
                out.push_str(b);
            }
            if let Some(d) = &p.default {
                out.push_str(" = ");
                out.push_str(d);
            }
            out
        })
        .collect();
    format!("<{}>", each.join(", "))
}

fn where_text(generics: &Generics) -> String {
    match &generics.where_clause {
        Some(predicates) => format!("where {}", predicates),
        None => String::new(),
    }
}

fn block_text(block: &Block, inner_attrs: &str) -> String {
    let stmts: Vec<String> = block
        .stmts
        .iter()
        .map(|s| match s {
            Stmt::Source(t) => t.clone(),
            Stmt::Unsafe(b) => format!("unsafe {}", block_text(b, "")),
            Stmt::Construct { variant, kind, args } => {
                let path = match variant {
                    Some(v) => format!("Self::{}", v),
                    None => "Self".to_string(),
                };
                match kind {
                    ShapeKind::Named => format!("{} {{ {} }}", path, args.join(", ")),
                    ShapeKind::Positional => format!("{}({})", path, args.join(", ")),
                    ShapeKind::Unit => path,
                }
            }
        })
        .collect();
    format!("{{ {} {} }}", inner_attrs, stmts.join(" "))
}

fn sig_text(sig: &Signature) -> String {
    let mut out = String::new();
    if sig.is_const {
        out.push_str("const ");
    }
    if sig.is_async {
        out.push_str("async ");
    }
    if sig.is_unsafe {
        out.push_str("unsafe ");
    }
    if let Some(abi) = &sig.abi {
        out.push_str(&format!("extern {} ", abi));
    }
    let params: Vec<String> = sig
        .params
        .iter()
        .map(|p| match &p.ty {
            Some(ty) => format!("{}: {}", p.pattern, type_text(ty)),
            None => p.pattern.clone(),
        })
        .collect();
    out.push_str(&format!(
        "fn {}{}({})",
        sig.name,
        param_list_text(&sig.generics.params),
        params.join(", ")
    ));
    if let Some(ty) = &sig.output {
        out.push_str(&format!(" -> {}", type_text(ty)));
    }
    out.push(' ');
    out.push_str(&where_text(&sig.generics));
    out
}

fn function_text(function: &Function, is_default: bool) -> String {
    format!(
        "{} {} {} {} {}",
        outer(&function.attrs),
        vis_text(&function.vis),
        if is_default { "default" } else { "" },
        sig_text(&function.sig),
        block_text(&function.body, &inner(&function.attrs))
    )
}

fn fields_text(fields: &Fields) -> String {
    match fields {
        Fields::Named(named) => {
            let each: Vec<String> = named
                .iter()
                .map(|f| {
                    format!("{} {} {}: {}", f.attrs.join(" "), vis_text(&f.vis), f.name, type_text(&f.ty))
                })
                .collect();
            format!("{{ {} }}", each.join(", "))
        }
        Fields::Positional(positional) => {
            let each: Vec<String> = positional
                .iter()
                .map(|f| format!("{} {} {}", f.attrs.join(" "), vis_text(&f.vis), type_text(&f.ty)))
                .collect();
            format!("({})", each.join(", "))
        }
        Fields::Unit => String::new(),
    }
}

fn declaration_text(declaration: &Declaration) -> String {
    match declaration {
        Declaration::Function(f) => function_text(f, false),
        Declaration::DataStruct(s) => {
            let head = format!(
                "{} {} struct {}{}",
                s.attrs.join(" "),
                vis_text(&s.vis),
                s.name,
                param_list_text(&s.generics.params)
            );
            match &s.fields {
                Fields::Named(_) => {
                    format!("{} {} {}", head, where_text(&s.generics), fields_text(&s.fields))
                }
                _ => format!("{} {} {};", head, fields_text(&s.fields), where_text(&s.generics)),
            }
        }
        Declaration::Enumeration(e) => {
            let variants: Vec<String> = e
                .variants
                .iter()
                .map(|v| {
                    let mut out =
                        format!("{} {} {}", v.attrs.join(" "), v.name, fields_text(&v.fields));
                    if let Some(d) = &v.discriminant {
                        out.push_str(&format!(" = {}", d));
                    }
                    out
                })
                .collect();
            format!(
                "{} {} enum {}{} {} {{ {} }}",
                e.attrs.join(" "),
                vis_text(&e.vis),
                e.name,
                param_list_text(&e.generics.params),
                where_text(&e.generics),
                variants.join(", ")
            )
        }
        Declaration::ImplBlock(i) => {
            let items: Vec<String> = i
                .items
                .iter()
                .map(|item| match item {
                    ImplItem::Method { is_default, function } => function_text(function, *is_default),
                    ImplItem::Other(t) => t.clone(),
                })
                .collect();
            format!(
                "{} {} {} impl{} {} {} {} {{ {} {} }}",
                outer(&i.attrs),
                if i.is_default { "default" } else { "" },
                if i.is_unsafe { "unsafe" } else { "" },
                param_list_text(&i.generics.params),
                match &i.trait_path {
                    Some(path) => format!("{} for", path),
                    None => String::new(),
                },
                type_text(&i.self_ty),
                where_text(&i.generics),
                inner(&i.attrs),
                items.join(" ")
            )
        }
        Declaration::Trait(t) => {
            let items: Vec<String> = t
                .items
                .iter()
                .map(|item| match item {
                    TraitItem::Method { attrs, sig, default } => match default {
                        Some(body) => {
                            format!("{} {} {}", outer(attrs), sig_text(sig), block_text(body, &inner(attrs)))
                        }
                        None => format!("{} {};", outer(attrs), sig_text(sig)),
                    },
                    TraitItem::Other(t) => t.clone(),
                })
                .collect();
            format!(
                "{} {} {} {} trait {}{} {} {} {{ {} {} }}",
                outer(&t.attrs),
                vis_text(&t.vis),
                if t.is_unsafe { "unsafe" } else { "" },
                if t.is_auto { "auto" } else { "" },
                t.name,
                param_list_text(&t.generics.params),
                match &t.supertraits {
                    Some(bounds) => format!(": {}", bounds),
                    None => String::new(),
                },
                where_text(&t.generics),
                inner(&t.attrs),
                items.join(" ")
            )
        }
        Declaration::Other(t) => t.clone(),
    }
}

// ---- the attribute, on source text ----

fn leaves(stream: proc_macro2::TokenStream, out: &mut Vec<String>) {
    for tree in stream {
        match tree {
            proc_macro2::TokenTree::Group(group) => {
                let (open, close) = match group.delimiter() {
                    proc_macro2::Delimiter::Parenthesis => ("(", ")"),
                    proc_macro2::Delimiter::Brace => ("{", "}"),
                    proc_macro2::Delimiter::Bracket => ("[", "]"),
                    proc_macro2::Delimiter::None => ("", ""),
                };
                out.push(open.to_string());
                leaves(group.stream(), out);
                out.push(close.to_string());
            }
            proc_macro2::TokenTree::Ident(ident) => out.push(ident.to_string()),
            proc_macro2::TokenTree::Punct(punct) => out.push(punct.as_char().to_string()),
            proc_macro2::TokenTree::Literal(literal) => out.push(literal.to_string()),
        }
    }
}

/// The tokens of `source`, one per word, so that spacing plays no part.
fn tokens(source: &str) -> String {
    let mut out = Vec::new();
    leaves(source.parse::<proc_macro2::TokenStream>().expect("tokens"), &mut out);
    out.join(" ")
}

fn read(source: &str) -> Declaration {
    declaration_of(&syn::parse_str::<syn::Item>(source).expect("an item"))
}

fn print(declarations: &[Declaration]) -> String {
    let parts: Vec<String> = declarations.iter().map(declaration_text).collect();
    parts.join(" ")
}

fn expand(source: &str) -> String {
    tokens(&print(&noble("", &read(source))))
}

fn reread(printed: &str) -> Vec<Declaration> {
    syn::parse_str::<syn::File>(printed).expect("a file").items.iter().map(declaration_of).collect()
}

#[test]
fn add_function_from_source() {
    assert_eq!(
        expand("fn add(a: i32, b: i32) -> i32 { a + b }"),
        tokens("fn add(a: i32, b: i32) -> i32 { unsafe { a + b } }")
    );
}

#[test]
fn point_struct_from_source() {
    assert_eq!(
        expand("struct Point { x: f64, y: f64 }"),
        tokens(
            "struct Point { x: f64, y: f64 } \
             impl Point { pub unsafe fn new_unsafe(x: f64, y: f64) -> Self { unsafe { Self { x, y } } } }"
        )
    );
}

#[test]
fn shape_enum_from_source() {
    assert_eq!(
        expand("enum Shape { Circle(f64), Empty }"),
        tokens(
            "enum Shape { Circle(f64), Empty } \
             impl Shape { \
                 pub unsafe fn new_circle_unsafe(field_0: f64) -> Self { Self::Circle(field_0) } \
                 pub unsafe fn new_empty_unsafe() -> Self { Self::Empty } \
             }"
        )
    );
}

#[test]
fn tuple_and_unit_structs_from_source() {
    assert_eq!(
        expand("pub struct Pair(pub T1, T2);"),
        tokens(
            "pub struct Pair(pub T1, T2); \
             impl Pair { pub unsafe fn new_unsafe(field_0: T1, field_1: T2) -> Self { \
                 unsafe { Self(field_0, field_1) } } }"
        )
    );
    assert_eq!(
        expand("struct Marker;"),
        tokens("struct Marker; impl Marker { pub unsafe fn new_unsafe() -> Self { unsafe { Self } } }")
    );
}

#[test]
fn generic_struct_from_source() {
    assert_eq!(
        expand(
            "#[derive(Debug)] pub(crate) struct Grid<T: Clone = u8, 'a, const N: usize = 3> \
             where T: 'a { cells: [&'a T; N] }"
        ),
        tokens(
            "#[derive(Debug)] pub(crate) struct Grid<T: Clone = u8, 'a, const N: usize = 3> \
             where T: 'a { cells: [&'a T; N] } \
             impl<'a, T: Clone, const N: usize> Grid<'a, T, N> where T: 'a { \
                 pub unsafe fn new_unsafe(cells: [&'a T; N]) -> Self { unsafe { Self { cells } } } }"
        )
    );
}

#[test]
fn enum_with_named_variant_and_discriminant_from_source() {
    assert_eq!(
        expand("pub enum Op<T> { Nop = 0, Push { value: T, times: usize }, POP(u8, u8) }"),
        tokens(
            "pub enum Op<T> { Nop = 0, Push { value: T, times: usize }, POP(u8, u8) } \
             impl<T> Op<T> { \
                 pub unsafe fn new_nop_unsafe() -> Self { Self::Nop } \
                 pub unsafe fn new_push_unsafe(value: T, times: usize) -> Self { \
                     Self::Push { value, times } } \
                 pub unsafe fn new_pop_unsafe(field_0: u8, field_1: u8) -> Self { \
                     Self::POP(field_0, field_1) } \
             }"
        )
    );
}

#[test]
fn inherent_impl_from_source() {
    assert_eq!(
        expand(
            "impl<T> Stack<T> { const CAP: usize = 8; \
             pub fn len(&self) -> usize { self.items.len() } \
             fn push(&mut self, item: T) { self.items.push(item); } }"
        ),
        tokens(
            "impl<T> Stack<T> { const CAP: usize = 8; \
             pub fn len(&self) -> usize { unsafe { self.items.len() } } \
             fn push(&mut self, item: T) { unsafe { self.items.push(item); } } }"
        )
    );
}

#[test]
fn trait_impl_from_source() {
    assert_eq!(
        expand(
            "impl<T: Copy> Iterator for Stack<T> where T: Send { type Item = T; \
             fn next(&mut self) -> Option<T> { self.items.pop() } }"
        ),
        tokens(
            "unsafe impl<T: Copy> Iterator for Stack<T> where T: Send { type Item = T; \
             fn next(&mut self) -> Option<T> { unsafe { self.items.pop() } } }"
        )
    );
}

#[test]
fn trait_from_source() {
    assert_eq!(
        expand(
            "pub trait Walker: Sized { type Item; const LIMIT: usize; \
             fn step(&mut self) -> Option<Self::Item>; \
             fn skip(&mut self) { self.step(); } }"
        ),
        tokens(
            "pub unsafe trait Walker: Sized { type Item; const LIMIT: usize; \
             unsafe fn step(&mut self) -> Option<Self::Item>; \
             unsafe fn skip(&mut self) { unsafe { self.step(); } } }"
        )
    );
}

#[test]
fn other_items_from_source_are_unchanged() {
    for source in [
        "use std::collections::HashMap;",
        "const LIMIT: usize = 10;",
        "static NAME: &str = \"n\";",
        "type Pair = (u8, u8);",
        "mod inner { pub fn f() {} }",
        "union Bits { a: u32, b: f32 }",
    ] {
        assert_eq!(expand(source), tokens(source));
    }
}

#[test]
fn expanding_twice_from_source_nests() {
    let once = noble("", &read("fn add(a: i32, b: i32) -> i32 { a + b }"));
    let twice = noble("", &once[0]);
    assert_eq!(
        tokens(&print(&twice)),
        tokens("fn add(a: i32, b: i32) -> i32 { unsafe { unsafe { a + b } } }")
    );
    let reparsed = reread(&print(&once));
    assert_eq!(
        tokens(&print(&noble("", &reparsed[0]))),
        tokens("fn add(a: i32, b: i32) -> i32 { unsafe { unsafe { a + b } } }")
    );
}

#[test]
fn printed_output_reads_back_as_the_same_tree() {
    for source in [
        "fn add(a: i32, b: i32) -> i32 { a + b }",
        "pub(crate) async unsafe fn raw<T: Copy>(p: *const T) where T: Send { let v = *p; drop(v); }",
        "struct Point { x: f64, y: f64 }",
        "pub struct Pair(pub T1, T2);",
        "struct Marker;",
        "struct Grid<T: Clone = u8, 'a, const N: usize = 3> where T: 'a { cells: [&'a T; N] }",
        "enum Shape { Circle(f64), Empty }",
        "pub enum Op<T> { Nop = 0, Push { value: T, times: usize }, POP(u8, u8) }",
        "impl<T> Stack<T> { const CAP: usize = 8; pub fn len(&self) -> usize { self.items.len() } }",
        "impl<T: Copy> Iterator for Stack<T> { type Item = T; fn next(&mut self) -> Option<T> { None } }",
        "pub trait Walker: Sized { type Item; fn step(&mut self); fn skip(&mut self) { self.step(); } }",
    ] {
        let out = noble("", &read(source));
        let printed = print(&out);
        let back = reread(&printed);
        assert_eq!(back.len(), out.len(), "{}", source);
        assert_eq!(tokens(&print(&back)), tokens(&printed), "{}", source);
    }
}

#[test]
fn impl_header_agrees_with_split_for_impl() {
    for source in [
        "struct A;",
        "struct B<T>(T);",
        "struct C<T: Clone = u8, 'a, const N: usize = 3, 'b: 'a, U = T> where T: 'a { t: &'a T, u: &'b U }",
        "struct D<'x, 'y: 'x>(&'x u8, &'y u8);",
        "struct E<const N: usize, #[cfg(all())] T: ?Sized + 'static>(Box<T>);",
        "enum F<K: Ord, V = K, 'k> { One(&'k K), Two { v: V } }",
    ] {
        let item = syn::parse_str::<syn::Item>(source).expect("an item");
        let generics = match &item {
            syn::Item::Struct(s) => &s.generics,
            syn::Item::Enum(e) => &e.generics,
            _ => unreachable!(),
        };
        let (for_impl, for_type, _) = generics.split_for_impl();
        let ours = generics_of(generics);
        assert_eq!(
            tokens(&param_list_text(&ours.for_impl().params)),
            tokens(&text(&for_impl)).replace(", >", ">"),
            "{}",
            source
        );
        let args = ours.type_args();
        let printed = if args.is_empty() { String::new() } else { format!("<{}>", args.join(", ")) };
        assert_eq!(tokens(&printed), tokens(&text(&for_type)).replace(", >", ">"), "{}", source);
        assert_eq!(ours.for_impl().where_clause, ours.where_clause, "{}", source);
    }
}

#[test]
fn synthesized_names_are_identifiers() {
    let out = noble("", &read("enum E { Alpha(u8, u16), BetaGamma { x: u8 }, Z }"));
    match &out[1] {
        Declaration::ImplBlock(block) => {
            assert_eq!(block.items.len(), 3);
            for item in &block.items {
                match item {
                    ImplItem::Method { function, .. } => {
                        syn::parse_str::<syn::Ident>(&function.sig.name).expect("an identifier");
                        for p in &function.sig.params {
                            syn::parse_str::<syn::Ident>(&p.pattern).expect("an identifier");
                        }
                    }
                    other => panic!("not a method: {:?}", other),
                }
            }
        }
        other => panic!("not a block: {:?}", other),
    }
}
