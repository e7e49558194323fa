//! Wrapper for the native expression object: a parsed but unevaluated
//! piece of the runtime's own program representation.

use vstd::prelude::*;

verus! {

use crate::api::cells::CellState;
use crate::api::heap::{at, in_dom, JlData};
use crate::api::reference::Ref;
use crate::api::Julia;
use crate::error::Error;

/// A handle viewed as an expression.
#[derive(Debug, PartialEq, Eq, Structural)]
pub struct Expr(pub Ref);

/// What parsing a string does, as far as the host observes it: the heap
/// grows by one expression carrying the text, wrapped in a fresh
/// single-owner handle.  The parsed form itself is opaque to the host.
pub open spec fn expr_made(pre: Julia, post: Julia, e: Expr, text: Seq<char>) -> bool {
    &&& post.store.vals@.len() == pre.store.vals@.len() + 1
    &&& forall|a: usize|
        in_dom(pre.store.vals@, a) ==> at(post.store.vals@, a) == at(pre.store.vals@, a)
    &&& e.0.cell == pre.cells.slots@.len()
    &&& post.cells.slots@ == pre.cells.slots@.push(
        CellState { addr: (pre.store.vals@.len() + 1) as usize, count: 1, poisoned: false },
    )
    &&& at(post.store.vals@, (pre.store.vals@.len() + 1) as usize) matches JlData::Expr(t) && t@
        == text
    &&& post == (Julia { store: post.store, cells: post.cells, ..pre })
}

impl Expr {
    /// Parse a string without evaluating it.  The host records the text
    /// and hands the parse itself to the foreign parser; a parse fault
    /// would surface through the bridge at evaluation time.
    pub fn with_string(rt: &mut Julia, string: &str) -> (r: Result<Expr, Error>)
        ensures
            r matches Ok(e) && expr_made(*old(rt), *final(rt), e, string@),
    {
        let d = JlData::Expr(String::from_str(string));
        let ghost gd = d;
        let v = rt.wrap_value(d);
        let e = Expr(v);
        proof {
            assert(e.0 == v);
            assert(gd->Expr_0@ == string@);
        }
        Ok(e)
    }
}

} // verus!
