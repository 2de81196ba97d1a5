//! Generic parameter lists, and the two forms in which an `impl` header
//! repeats the parameters of the type it is written for.

use vstd::prelude::*;

verus! {

/// What a generic parameter stands for.
#[derive(Clone, Copy, Debug, PartialEq, Eq)]
pub enum ParamKind {
    /// A lifetime, such as `'a`.
    Lifetime,
    /// A type, such as `T`.
    Type,
    /// A constant, such as `const N: usize`.
    Const,
}

/// One parameter of a generic parameter list.
#[derive(Debug, PartialEq, Eq)]
pub struct GenericParam {
    pub kind: ParamKind,
    /// The attributes written on the parameter, each as source text.
    pub attrs: Vec<String>,
    /// The parameter's name; for a lifetime it includes the apostrophe.
    pub name: String,
    /// What follows the colon: the bounds of a lifetime or type parameter,
    /// the type of a constant parameter.
    pub bounds: Option<String>,
    /// What follows the equals sign.
    pub default: Option<String>,
}

/// The generic parameters of a declaration and its `where` clause.
#[derive(Debug, PartialEq, Eq)]
pub struct Generics {
    pub params: Vec<GenericParam>,
    /// The predicates of the `where` clause, as source text.
    pub where_clause: Option<String>,
}

/// The view of [`GenericParam`]: the same tree, made of `Seq`, `Option` and plain data.
pub struct GenericParamView {
    pub kind: ParamKind,
    pub attrs: Seq<Seq<char>>,
    pub name: Seq<char>,
    pub bounds: Option<Seq<char>>,
    pub default: Option<Seq<char>>,
}

/// The view of [`Generics`]: the same tree, made of `Seq`, `Option` and plain data.
pub struct GenericsView {
    pub params: Seq<GenericParamView>,
    pub where_clause: Option<Seq<char>>,
}

impl View for GenericParam {
    type V = GenericParamView;

    open spec fn view(&self) -> GenericParamView {
        GenericParamView {
            kind: self.kind,
            attrs: self.attrs.deep_view(),
            name: self.name@,
            bounds: self.bounds.deep_view(),
            default: self.default.deep_view(),
        }
    }
}

impl DeepView for GenericParam {
    type V = GenericParamView;

    open spec fn deep_view(&self) -> GenericParamView {
        self@
    }
}

impl View for Generics {
    type V = GenericsView;

    open spec fn view(&self) -> GenericsView {
        GenericsView {
            params: self.params.deep_view(),
            where_clause: self.where_clause.deep_view(),
        }
    }
}

impl DeepView for Generics {
    type V = GenericsView;

    open spec fn deep_view(&self) -> GenericsView {
        self@
    }
}

impl Clone for GenericParam {
    fn clone(&self) -> (r: Self)
        ensures
            r@ == self@,
    {
        GenericParam {
            kind: self.kind,
            attrs: self.attrs.clone(),
            name: self.name.clone(),
            bounds: self.bounds.clone(),
            default: self.default.clone(),
        }
    }
}

impl Clone for Generics {
    fn clone(&self) -> (r: Self)
        ensures
            r@ == self@,
    {
        let r = Generics { params: self.params.clone(), where_clause: self.where_clause.clone() };
        r
    }
}

impl GenericParamView {
    pub open spec fn is_lifetime(self) -> bool {
        self.kind == ParamKind::Lifetime
    }

    /// The parameter as an `impl` header declares it: the default is left
    /// off, everything else stays.
    pub open spec fn without_default(self) -> GenericParamView {
        GenericParamView { default: None, ..self }
    }
}

/// The parameters that are lifetimes (`lifetimes` is true) or that are not
/// (`lifetimes` is false), in their declared order.
pub open spec fn of_kind(params: Seq<GenericParamView>, lifetimes: bool) -> Seq<GenericParamView> {
    params.filter(|p: GenericParamView| p.is_lifetime() == lifetimes)
}

/// The parameters in the order in which a header lists them: every
/// lifetime first, then the types and constants, each group in its
/// declared order.
pub open spec fn lifetimes_first(params: Seq<GenericParamView>) -> Seq<GenericParamView> {
    of_kind(params, true) + of_kind(params, false)
}

impl GenericsView {
    /// The generics without any parameter and without a `where` clause.
    pub open spec fn none() -> GenericsView {
        GenericsView { params: Seq::empty(), where_clause: None }
    }

    /// The generics that an `impl` block for the declared type carries:
    /// the parameters with lifetimes first and defaults left off, and the
    /// `where` clause unchanged.
    pub open spec fn for_impl(self) -> GenericsView {
        GenericsView {
            params: lifetimes_first(self.params).map_values(
                |p: GenericParamView| p.without_default(),
            ),
            where_clause: self.where_clause,
        }
    }

    /// The arguments that name the declared type inside its own `impl`
    /// header: the bare names of the parameters, lifetimes first.
    pub open spec fn type_args(self) -> Seq<Seq<char>> {
        lifetimes_first(self.params).map_values(|p: GenericParamView| p.name)
    }
}

impl GenericParam {
    /// A copy of the parameter without its default.
    pub fn without_default(&self) -> (r: GenericParam)
        ensures
            r@ == self@.without_default(),
    {
        GenericParam {
            kind: self.kind,
            attrs: self.attrs.clone(),
            name: self.name.clone(),
            bounds: self.bounds.clone(),
            default: None,
        }
    }

    pub fn is_lifetime(&self) -> (r: bool)
        ensures
            r == self@.is_lifetime(),
    {
        match self.kind {
            ParamKind::Lifetime => true,
            _ => false,
        }
    }
}

/// Appends to `out` a copy of each parameter that is a lifetime
/// (`lifetimes` is true) or that is not (`lifetimes` is false), in order.
fn push_of_kind(params: &Vec<GenericParam>, lifetimes: bool, out: &mut Vec<GenericParam>)
    ensures
        final(out).deep_view() == old(out).deep_view() + of_kind(params.deep_view(), lifetimes),
{
    let ghost all = params.deep_view();
    let ghost wanted = |p: GenericParamView| p.is_lifetime() == lifetimes;
    let ghost before = out.deep_view();
    proof {
        reveal(Seq::filter);
        assert(all.take(0).filter(wanted) =~= Seq::empty());
        assert(out.deep_view() =~= before + all.take(0).filter(wanted));
    }
    let mut i: usize = 0;
    while i < params.len()
        invariant
            i <= params.len(),
            all == params.deep_view(),
            wanted == |p: GenericParamView| p.is_lifetime() == lifetimes,
            out.deep_view() == before + all.take(i as int).filter(wanted),
        decreases params.len() - i,
    {
        proof {
            all.lemma_take_succ_push(i as int);
            all.take(i as int).lemma_filter_push(all[i as int], wanted);
        }
        if params[i].is_lifetime() == lifetimes {
            let ghost so_far = out.deep_view();
            out.push(params[i].clone());
            assert(out.deep_view() =~= so_far.push(all[i as int]));
            assert(out.deep_view() =~= before + all.take(i as int + 1).filter(wanted));
        }
        i += 1;
    }
    proof {
        all.lemma_take_len();
    }
}

impl Generics {
    /// Generics without any parameter and without a `where` clause.
    pub fn none() -> (r: Generics)
        ensures
            r@ == GenericsView::none(),
    {
        let r = Generics { params: Vec::new(), where_clause: None };
        assert(r@.params =~= Seq::empty());
        r
    }

    /// Copies of the parameters in the order of a header: lifetimes first.
    pub fn lifetimes_first(&self) -> (r: Vec<GenericParam>)
        ensures
            r.deep_view() == lifetimes_first(self@.params),
    {
        let mut ordered: Vec<GenericParam> = Vec::new();
        assert(ordered.deep_view() =~= Seq::empty());
        push_of_kind(&self.params, true, &mut ordered);
        push_of_kind(&self.params, false, &mut ordered);
        assert(ordered.deep_view() =~= lifetimes_first(self@.params));
        ordered
    }

    /// The generics for the header of an `impl` block written for the
    /// type that declares `self`.
    pub fn for_impl(&self) -> (r: Generics)
        ensures
            r@ == self@.for_impl(),
    {
        let ordered = self.lifetimes_first();
        let mut params: Vec<GenericParam> = Vec::new();
        let mut i: usize = 0;
        while i < ordered.len()
            invariant
                i <= ordered.len(),
                params.len() == i,
                forall|j: int| 0 <= j < i ==> params@[j]@ == ordered@[j]@.without_default(),
            decreases ordered.len() - i,
        {
            params.push(ordered[i].without_default());
            i += 1;
        }
        let r = Generics { params, where_clause: self.where_clause.clone() };
        assert(r@.params =~= self@.for_impl().params);
        r
    }

    /// The bare parameter names that follow the type's name in the header
    /// of an `impl` block written for the type that declares `self`.
    pub fn type_args(&self) -> (r: Vec<String>)
        ensures
            r.deep_view() == self@.type_args(),
    {
        let ordered = self.lifetimes_first();
        let mut args: Vec<String> = Vec::new();
        let mut i: usize = 0;
        while i < ordered.len()
            invariant
                i <= ordered.len(),
                args.len() == i,
                forall|j: int| 0 <= j < i ==> args@[j]@ == ordered@[j]@.name,
            decreases ordered.len() - i,
        {
            args.push(ordered[i].name.clone());
            i += 1;
        }
        args
    }
}

} // verus!
