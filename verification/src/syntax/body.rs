//! Executable bodies: blocks of statements.

use crate::shape::ShapeKind;
use vstd::prelude::*;

verus! {

/// One statement of a block.
#[derive(Debug, PartialEq, Eq)]
pub enum Stmt {
    /// A statement carried as source text; the rewriter never looks inside.
    Source(String),
    /// The expression `unsafe { .. }`.
    Unsafe(Block),
    /// An expression that builds `Self` or one of its variants from the
    /// identifiers in `args`.
    Construct { variant: Option<String>, kind: ShapeKind, args: Vec<String> },
}

/// A brace-delimited sequence of statements.
#[derive(Debug, PartialEq, Eq)]
pub struct Block {
    pub stmts: Vec<Stmt>,
}

/// The view of [`Stmt`]: the same tree, made of `Seq`, `Option` and plain data.
pub enum StmtView {
    Source(Seq<char>),
    Unsafe(BlockView),
    Construct { variant: Option<Seq<char>>, kind: ShapeKind, args: Seq<Seq<char>> },
}

/// The view of [`Block`]: the same tree, made of `Seq`, `Option` and plain data.
pub struct BlockView {
    pub stmts: Seq<StmtView>,
}

impl DeepView for Stmt {
    type V = StmtView;

    open spec fn deep_view(&self) -> StmtView {
        self@
    }
}

impl DeepView for Block {
    type V = BlockView;

    open spec fn deep_view(&self) -> BlockView {
        self@
    }
}

impl View for Stmt {
    type V = StmtView;

    open spec fn view(&self) -> StmtView
        decreases self,
    {
        match self {
            Stmt::Source(text) => StmtView::Source(text@),
            Stmt::Unsafe(block) => StmtView::Unsafe(block.view()),
            Stmt::Construct { variant, kind, args } => StmtView::Construct {
                variant: variant.deep_view(),
                kind: *kind,
                args: args.deep_view(),
            },
        }
    }
}

impl View for Block {
    type V = BlockView;

    open spec fn view(&self) -> BlockView
        decreases self,
    {
        BlockView {
            stmts: Seq::new(
                self.stmts@.len(),
                |i: int|
                    if 0 <= i < self.stmts@.len() {
                        self.stmts@[i].view()
                    } else {
                        arbitrary()
                    },
            ),
        }
    }
}

impl Clone for Stmt {
    fn clone(&self) -> (r: Self)
        ensures
            r@ == self@,
        decreases self,
    {
        match self {
            Stmt::Source(text) => Stmt::Source(text.clone()),
            Stmt::Unsafe(block) => Stmt::Unsafe(block.clone()),
            Stmt::Construct { variant, kind, args } => Stmt::Construct {
                variant: variant.clone(),
                kind: *kind,
                args: args.clone(),
            },
        }
    }
}

impl Clone for Block {
    fn clone(&self) -> (r: Self)
        ensures
            r@ == self@,
        decreases self,
    {
        let mut stmts: Vec<Stmt> = Vec::new();
        let mut i: usize = 0;
        while i < self.stmts.len()
            invariant
                i <= self.stmts.len(),
                stmts.len() == i,
                forall|j: int| 0 <= j < i ==> stmts@[j]@ == self.stmts@[j]@,
            decreases self.stmts.len() - i,
        {
            stmts.push(self.stmts[i].clone());
            i += 1;
        }
        let r = Block { stmts };
        assert(r@.stmts =~= self@.stmts);
        r
    }
}

} // verus!
