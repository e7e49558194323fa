//! Wrapper for the native task object.

use vstd::prelude::*;

verus! {

use crate::api::cells::CellState;
use crate::api::function::Function;
use crate::api::heap::{at, in_dom, JlData};
use crate::api::reference::Ref;
use crate::api::Julia;
use crate::error::Error;

/// A handle viewed as a cooperative unit of foreign execution.
#[derive(Debug, PartialEq, Eq, Structural)]
pub struct Task(pub Ref);

/// What creating a task does: the heap grows by one task holding its
/// start function's address, wrapped in a fresh single-owner handle.
pub open spec fn task_made(pre: Julia, post: Julia, t: Task, start: usize) -> bool {
    &&& post.store.vals@.len() == pre.store.vals@.len() + 1
    &&& forall|a: usize|
        in_dom(pre.store.vals@, a) ==> at(post.store.vals@, a) == at(pre.store.vals@, a)
    &&& t.0.cell == pre.cells.slots@.len()
    &&& post.cells.slots@ == pre.cells.slots@.push(
        CellState { addr: (pre.store.vals@.len() + 1) as usize, count: 1, poisoned: false },
    )
    &&& at(post.store.vals@, (pre.store.vals@.len() + 1) as usize) == JlData::Task(start)
    &&& post == (Julia { store: post.store, cells: post.cells, ..pre })
}

impl Task {
    /// Construct a new task around a start function.  Creation only:
    /// scheduling stays with the foreign runtime.
    pub fn with_function(rt: &mut Julia, start: &Function) -> (r: Result<Task, Error>)
        requires
            start.0.live(*old(rt)),
        ensures
            match r {
                Ok(t) => !start.0.poisoned_in(*old(rt)) && task_made(
                    *old(rt),
                    *final(rt),
                    t,
                    start.0.addr_of(*old(rt)),
                ),
                Err(e) => start.0.poisoned_in(*old(rt)) && e == Error::PoisonError && *final(rt)
                    == *old(rt),
            },
    {
        let sa = match start.0.lock(rt) {
            Ok(a) => a,
            Err(e) => {
                return Err(e);
            },
        };
        Ok(Task(rt.wrap_value(JlData::Task(sa))))
    }
}

} // verus!
