//! The two markers: an `unsafe` scope around a body, and `unsafe` on a
//! signature. Both are unconditional: marking what is already marked marks
//! it again.

use crate::syntax::body::Block;
use crate::syntax::body::BlockView;
use crate::syntax::body::Stmt;
use crate::syntax::body::StmtView;
use crate::syntax::function::Signature;
use crate::syntax::function::SignatureView;
use vstd::prelude::*;

verus! {

impl BlockView {
    /// The block `{ unsafe { .. } }` around the statements of `self`: a
    /// block whose only statement is an `unsafe` expression that holds
    /// `self` whole.
    pub open spec fn enclosed_in_unsafe(self) -> BlockView {
        BlockView { stmts: seq![StmtView::Unsafe(self)] }
    }

    /// Whether the block consists of exactly one `unsafe` expression.
    pub open spec fn is_unsafe_scope(self) -> bool {
        self.stmts.len() == 1 && self.stmts[0] is Unsafe
    }

    /// How many `unsafe` scopes enclose the statements of the block, each
    /// scope being the only statement of the block around it.
    pub open spec fn unsafe_depth(self) -> nat
        decreases self,
    {
        if self.stmts.len() == 1 {
            match self.stmts[0] {
                StmtView::Unsafe(inner) => 1 + inner.unsafe_depth(),
                _ => 0,
            }
        } else {
            0
        }
    }
}

impl SignatureView {
    /// The signature with the `unsafe` qualifier set and nothing else
    /// changed.
    pub open spec fn marked_unsafe(self) -> SignatureView {
        SignatureView { is_unsafe: true, ..self }
    }
}

impl Block {
    /// A new block that runs the statements of `self` inside one `unsafe`
    /// scope. No statement is added, removed or reordered.
    pub fn enclosed_in_unsafe(&self) -> (r: Block)
        ensures
            r@ == self@.enclosed_in_unsafe(),
    {
        let mut stmts: Vec<Stmt> = Vec::new();
        stmts.push(Stmt::Unsafe(self.clone()));
        let r = Block { stmts };
        assert(r@.stmts =~= self@.enclosed_in_unsafe().stmts);
        r
    }
}

impl Signature {
    /// A copy of the signature that is `unsafe` to call.
    pub fn marked_unsafe(&self) -> (r: Signature)
        ensures
            r@ == self@.marked_unsafe(),
    {
        Signature {
            is_const: self.is_const,
            is_async: self.is_async,
            is_unsafe: true,
            abi: self.abi.clone(),
            name: self.name.clone(),
            generics: self.generics.clone(),
            params: self.params.clone(),
            output: self.output.clone(),
        }
    }
}

} // verus!
