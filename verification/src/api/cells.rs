//! The reference-counted, poisonable cells behind every handle.
//!
//! The binding guards each foreign address with a shared,
//! mutually-exclusive cell: cloning a handle shares the cell, a borrower that
//! fails while holding the guard poisons it for good, and the address can be
//! extracted only by the sole remaining owner.  The cells live in one table
//! owned by the runtime context; a handle stores the index of its cell.

use vstd::prelude::*;

verus! {

use crate::error::Error;

/// The state of one guarded cell: the foreign address it protects, how many
/// live handles share it, and whether its guard has been poisoned.
#[derive(Debug, Clone, Copy, PartialEq, Eq, Structural)]
pub struct CellState {
    pub addr: usize,
    pub count: usize,
    pub poisoned: bool,
}

/// The cell after one more handle started sharing it.  The count saturates:
/// a count of `usize::MAX` live clones cannot arise in a real process, and a
/// saturated cell simply can never be consumed.
pub open spec fn retained(c: CellState) -> CellState {
    CellState {
        count: if c.count < usize::MAX {
            (c.count + 1) as usize
        } else {
            c.count
        },
        ..c
    }
}

/// The cell after one of its handles was dropped.
pub open spec fn dropped(c: CellState) -> CellState {
    CellState { count: (c.count - 1) as usize, ..c }
}

/// The cell after a borrower failed while holding the guard.
pub open spec fn tainted(c: CellState) -> CellState {
    CellState { poisoned: true, ..c }
}

/// What borrowing the address through the guard yields: the address, unless
/// the guard is poisoned.
pub open spec fn lock_result(c: CellState) -> Result<usize, Error> {
    if c.poisoned {
        Err(Error::PoisonError)
    } else {
        Ok(c.addr)
    }
}

/// What consuming the cell yields: the address, but only for the sole owner
/// of an unpoisoned cell.  Sharing is checked before poisoning.
pub open spec fn take_result(c: CellState) -> Result<usize, Error> {
    if c.count > 1 {
        Err(Error::ResourceInUse)
    } else if c.poisoned {
        Err(Error::PoisonError)
    } else {
        Ok(c.addr)
    }
}

/// The table of every cell the runtime context has handed out.  Consumed
/// cells stay behind as tombstones with a count of zero, so indices are
/// never reused.
#[derive(Debug)]
pub struct CellTable {
    pub slots: Vec<CellState>,
}

impl CellTable {
    /// Whether `id` names a cell with at least one live handle.
    pub open spec fn live(self, id: usize) -> bool {
        id < self.slots@.len() && self.slots@[id as int].count >= 1
    }

    /// The state of cell `id`.
    pub open spec fn state(self, id: usize) -> CellState {
        self.slots@[id as int]
    }

    /// An empty table.
    pub fn new() -> (t: CellTable)
        ensures
            t.slots@ == Seq::<CellState>::empty(),
    {
        CellTable { slots: Vec::new() }
    }

    /// A fresh cell around `addr` with a single owner and a clean guard.
    pub fn create(&mut self, addr: usize) -> (id: usize)
        ensures
            final(self).slots@ == old(self).slots@.push(
                CellState { addr, count: 1, poisoned: false },
            ),
            id == old(self).slots@.len(),
            final(self).live(id),
            final(self).state(id) == (CellState { addr, count: 1, poisoned: false }),
    {
        let id = self.slots.len();
        self.slots.push(CellState { addr, count: 1, poisoned: false });
        id
    }

    /// One more handle starts sharing cell `id`.
    pub fn retain(&mut self, id: usize)
        requires
            old(self).live(id),
        ensures
            final(self).slots@ == old(self).slots@.update(
                id as int,
                retained(old(self).state(id)),
            ),
    {
        let c = self.slots[id];
        if c.count < usize::MAX {
            self.slots[id] = CellState { count: c.count + 1, ..c };
        } else {
            proof {
                assert(self.slots@ =~= self.slots@.update(id as int, retained(c)));
            }
        }
    }

    /// One handle of cell `id` is dropped.
    pub fn release(&mut self, id: usize)
        requires
            old(self).live(id),
        ensures
            final(self).slots@ == old(self).slots@.update(
                id as int,
                dropped(old(self).state(id)),
            ),
    {
        let c = self.slots[id];
        self.slots[id] = CellState { count: c.count - 1, ..c };
    }

    /// Consume one handle of cell `id` and, if it was the sole owner of an
    /// unpoisoned cell, yield the guarded address.  The handle is spent
    /// either way: a failed extraction still gives the handle up.
    pub fn take(&mut self, id: usize) -> (r: Result<usize, Error>)
        requires
            old(self).live(id),
        ensures
            r == take_result(old(self).state(id)),
            final(self).slots@ == old(self).slots@.update(
                id as int,
                dropped(old(self).state(id)),
            ),
    {
        let c = self.slots[id];
        self.slots[id] = CellState { count: c.count - 1, ..c };
        if c.count > 1 {
            Err(Error::ResourceInUse)
        } else if c.poisoned {
            Err(Error::PoisonError)
        } else {
            Ok(c.addr)
        }
    }

    /// Record that a borrower failed while holding the guard of cell `id`.
    pub fn poison(&mut self, id: usize)
        requires
            old(self).live(id),
        ensures
            final(self).slots@ == old(self).slots@.update(
                id as int,
                tainted(old(self).state(id)),
            ),
    {
        let c = self.slots[id];
        self.slots[id] = CellState { poisoned: true, ..c };
    }

    /// Borrow the address guarded by cell `id`.
    pub fn lock(&self, id: usize) -> (r: Result<usize, Error>)
        requires
            self.live(id),
        ensures
            r == lock_result(self.state(id)),
    {
        let c = self.slots[id];
        if c.poisoned {
            Err(Error::PoisonError)
        } else {
            Ok(c.addr)
        }
    }

    /// Whether the guard of cell `id` is poisoned.
    pub fn is_poisoned(&self, id: usize) -> (r: bool)
        requires
            self.live(id),
        ensures
            r == self.state(id).poisoned,
    {
        self.slots[id].poisoned
    }
}

/// The operations that can hit a live cell without consuming it.
pub enum CellOp {
    Retain,
    Release,
    Poison,
}

/// One operation applied to a cell.
pub open spec fn step(c: CellState, op: CellOp) -> CellState {
    match op {
        CellOp::Retain => retained(c),
        CellOp::Release => dropped(c),
        CellOp::Poison => tainted(c),
    }
}

/// A whole sequence of operations applied to a cell, in order.
pub open spec fn run(c: CellState, ops: Seq<CellOp>) -> CellState
    decreases ops.len(),
{
    if ops.len() == 0 {
        c
    } else {
        run(step(c, ops[0]), ops.skip(1))
    }
}

/// Once a cell's guard is poisoned it stays poisoned, whatever mix of
/// clones, drops and further failures follows, and every later borrow
/// through the guard fails with `PoisonError`.
pub proof fn lemma_poison_persists(c: CellState, ops: Seq<CellOp>)
    requires
        c.poisoned,
    ensures
        run(c, ops).poisoned,
        lock_result(run(c, ops)) == Err::<usize, Error>(Error::PoisonError),
    decreases ops.len(),
{
    if ops.len() > 0 {
        assert(step(c, ops[0]).poisoned);
        lemma_poison_persists(step(c, ops[0]), ops.skip(1));
    }
}

/// With two handles sharing a cell, consuming through either fails with
/// `ResourceInUse`; once one of the two is dropped, consuming through the
/// remaining one yields the address, unless the guard is poisoned.
pub proof fn lemma_single_extraction(c: CellState)
    requires
        c.count == 1,
    ensures
        take_result(retained(c)) == Err::<usize, Error>(Error::ResourceInUse),
        take_result(dropped(retained(c))) == take_result(c),
        !c.poisoned ==> take_result(c) == Ok::<usize, Error>(c.addr),
{
}

} // verus!
