//! Wrappers for the iterable sequence views: one-dimensional arrays, byte
//! arrays and simple vectors.
//!
//! An out-of-range index surfaces as a `Bounds`-classified exception, as
//! the foreign runtime raises it, never as a host-side panic.

use vstd::prelude::*;

verus! {

use crate::api::cells::CellState;
use crate::api::exception::Exception;
use crate::api::heap::{at, in_dom, ArrayData, FieldVal, JlData, StructData};
use crate::api::reference::Ref;
use crate::api::Julia;
use crate::error::Error;

/// A handle viewed as a one-dimensional array.
#[derive(Debug, PartialEq, Eq, Structural)]
pub struct Array(pub Ref);

/// A handle viewed as a contiguous byte array.
#[derive(Debug, PartialEq, Eq, Structural)]
pub struct ByteArray(pub Ref);

/// A handle viewed as a simple vector.
#[derive(Debug, PartialEq, Eq, Structural)]
pub struct Svec(pub Ref);

/// The element addresses of the simple vector at `addr`.
pub open spec fn svec_elems(h: Seq<JlData>, addr: usize) -> Seq<usize>
    recommends
        in_dom(h, addr),
        at(h, addr) is Svec,
{
    at(h, addr)->Svec_0@
}

/// The element addresses of the array at `addr`.
pub open spec fn array_elems(h: Seq<JlData>, addr: usize) -> Seq<usize>
    recommends
        in_dom(h, addr),
        at(h, addr) is Array,
{
    at(h, addr)->Array_0.elems@
}

/// The bytes of the byte array at `addr`.
pub open spec fn byte_elems(h: Seq<JlData>, addr: usize) -> Seq<u8>
    recommends
        in_dom(h, addr),
        at(h, addr) is Bytes,
{
    at(h, addr)->Bytes_0@
}

/// What constructing a simple vector with the given element addresses
/// does: the heap grows by one simple vector, wrapped in a fresh
/// single-owner handle, and nothing else of the context moves.
pub open spec fn svec_made(pre: Julia, post: Julia, r: Svec, elems: Seq<usize>) -> bool {
    &&& post.store.vals@.len() == pre.store.vals@.len() + 1
    &&& forall|a: usize|
        in_dom(pre.store.vals@, a) ==> at(post.store.vals@, a) == at(pre.store.vals@, a)
    &&& r.0.cell == pre.cells.slots@.len()
    &&& post.cells.slots@ == pre.cells.slots@.push(
        CellState { addr: (pre.store.vals@.len() + 1) as usize, count: 1, poisoned: false },
    )
    &&& r.0.addr_of(post) == (pre.store.vals@.len() + 1) as usize
    &&& in_dom(post.store.vals@, r.0.addr_of(post))
    &&& at(post.store.vals@, r.0.addr_of(post)) matches JlData::Svec(v) && v@ == elems
    &&& post == (Julia { store: post.store, cells: post.cells, ..pre })
}

/// What a fabricated out-of-range fault looks like: the heap grows by one
/// `BoundsError` object wrapped in a fresh handle, the error carries it
/// classified as `Bounds`, and the pending slot — set by the foreign
/// raise and drained by the bridge — is left as it was.
pub open spec fn bounds_fault(pre: Julia, post: Julia, e: Error) -> bool {
    &&& post.store.vals@.len() == pre.store.vals@.len() + 1
    &&& forall|a: usize|
        in_dom(pre.store.vals@, a) ==> at(post.store.vals@, a) == at(pre.store.vals@, a)
    &&& post.cells.slots@ == pre.cells.slots@.push(
        CellState { addr: (pre.store.vals@.len() + 1) as usize, count: 1, poisoned: false },
    )
    &&& e == Error::UnhandledException(
        Exception::Bounds(Ref { cell: pre.cells.slots@.len() as usize }),
    )
    &&& post == (Julia { store: post.store, cells: post.cells, ..pre })
}

/// Fabricate the fault an out-of-range index raises: a fresh
/// `BoundsError` object, already drained from the pending slot and
/// classified.
fn raise_bounds(rt: &mut Julia) -> (e: Error)
    ensures
        bounds_fault(*old(rt), *final(rt), e),
{
    let fields: Vec<FieldVal> = Vec::new();
    let ex = rt.wrap_value(
        JlData::StructVal(
            StructData { ty: 0, typename: String::from_str("BoundsError"), fields },
        ),
    );
    Error::UnhandledException(Exception::Bounds(ex))
}

impl Svec {
    /// Whether this handle is live and really backed by a simple vector.
    pub open spec fn backs_svec(self, rt: Julia) -> bool {
        &&& self.0.live(rt)
        &&& in_dom(rt.store.vals@, self.0.addr_of(rt))
        &&& at(rt.store.vals@, self.0.addr_of(rt)) is Svec
    }

    /// Returns the length of the simple vector.
    pub fn len(&self, rt: &Julia) -> (r: Result<usize, Error>)
        requires
            self.backs_svec(*rt),
        ensures
            match r {
                Ok(n) => !self.0.poisoned_in(*rt) && n == svec_elems(
                    rt.store.vals@,
                    self.0.addr_of(*rt),
                ).len(),
                Err(e) => self.0.poisoned_in(*rt) && e == Error::PoisonError,
            },
    {
        let addr = match self.0.lock(rt) {
            Ok(a) => a,
            Err(e) => {
                return Err(e);
            },
        };
        match rt.store.get(addr) {
            Some(JlData::Svec(v)) => Ok(v.len()),
            _ => {
                proof {
                    assert(false);
                }
                Ok(0)
            },
        }
    }

    /// Checks if the simple vector is empty.  A handle whose guard is
    /// poisoned reports empty rather than failing.
    pub fn is_empty(&self, rt: &Julia) -> (r: bool)
        requires
            self.backs_svec(*rt),
        ensures
            r == (self.0.poisoned_in(*rt) || svec_elems(rt.store.vals@, self.0.addr_of(*rt)).len()
                == 0),
    {
        match self.len(rt) {
            Ok(n) => n == 0,
            Err(_) => true,
        }
    }

    /// Constructs a vector of fresh handles on the elements.
    pub fn as_vec(&self, rt: &mut Julia) -> (r: Result<Vec<Ref>, Error>)
        requires
            self.backs_svec(*old(rt)),
        ensures
            match r {
                Ok(v) => ({
                    let elems = svec_elems(old(rt).store.vals@, self.0.addr_of(*old(rt)));
                    &&& !self.0.poisoned_in(*old(rt))
                    &&& v@.len() == elems.len()
                    &&& forall|k: int|
                        0 <= k < elems.len() ==> (#[trigger] v@[k]).cell == old(
                            rt,
                        ).cells.slots@.len() + k
                    &&& final(rt).cells.slots@.len() == old(rt).cells.slots@.len() + elems.len()
                    &&& forall|j: int|
                        0 <= j < old(rt).cells.slots@.len() ==> final(rt).cells.slots@[j] == old(
                            rt,
                        ).cells.slots@[j]
                    &&& forall|k: int|
                        0 <= k < elems.len() ==> final(rt).cells.slots@[old(
                            rt,
                        ).cells.slots@.len() + k] == (CellState {
                            addr: elems[k],
                            count: 1,
                            poisoned: false,
                        })
                    &&& *final(rt) == (Julia { cells: final(rt).cells, ..*old(rt) })
                }),
                Err(e) => self.0.poisoned_in(*old(rt)) && e == Error::PoisonError && *final(rt)
                    == *old(rt),
            },
    {
        let addr = match self.0.lock(rt) {
            Ok(a) => a,
            Err(e) => {
                return Err(e);
            },
        };
        let n = match rt.store.get(addr) {
            Some(JlData::Svec(v)) => v.len(),
            _ => {
                proof {
                    assert(false);
                }
                0
            },
        };
        let mut out: Vec<Ref> = Vec::new();
        let mut i: usize = 0;
        while i < n
            invariant
                self.backs_svec(*rt),
                !self.0.poisoned_in(*rt),
                addr == self.0.addr_of(*rt),
                n == svec_elems(rt.store.vals@, addr).len(),
                i <= n,
                out@.len() == i,
                forall|k: int|
                    0 <= k < i ==> (#[trigger] out@[k]).cell == old(rt).cells.slots@.len() + k,
                rt.cells.slots@.len() == old(rt).cells.slots@.len() + i,
                forall|j: int|
                    0 <= j < old(rt).cells.slots@.len() ==> rt.cells.slots@[j] == old(
                        rt,
                    ).cells.slots@[j],
                forall|k: int|
                    0 <= k < i ==> rt.cells.slots@[old(rt).cells.slots@.len() + k] == (CellState {
                        addr: svec_elems(rt.store.vals@, addr)[k],
                        count: 1,
                        poisoned: false,
                    }),
                *rt == (Julia { cells: rt.cells, ..*old(rt) }),
            decreases n - i,
        {
            let ea = match rt.store.get(addr) {
                Some(JlData::Svec(v)) => v[i],
                _ => {
                    proof {
                        assert(false);
                    }
                    0
                },
            };
            let h = Ref::wrap(rt, ea);
            out.push(h);
            i += 1;
        }
        Ok(out)
    }

    /// Returns the value at the specified index; an out-of-range index
    /// raises a `Bounds`-classified exception through the bridge.
    pub fn index(&self, rt: &mut Julia, idx: usize) -> (r: Result<Ref, Error>)
        requires
            self.backs_svec(*old(rt)),
        ensures
            ({
                let elems = svec_elems(old(rt).store.vals@, self.0.addr_of(*old(rt)));
                match r {
                    Ok(v) => {
                        &&& !self.0.poisoned_in(*old(rt))
                        &&& idx < elems.len()
                        &&& crate::api::datatype::minted(*old(rt), *final(rt), v, elems[idx as int])
                    },
                    Err(e) => {
                        ||| (self.0.poisoned_in(*old(rt)) && e == Error::PoisonError && *final(rt)
                            == *old(rt))
                        ||| (!self.0.poisoned_in(*old(rt)) && idx >= elems.len() && bounds_fault(
                            *old(rt),
                            *final(rt),
                            e,
                        ))
                    },
                }
            }),
    {
        let addr = match self.0.lock(rt) {
            Ok(a) => a,
            Err(e) => {
                return Err(e);
            },
        };
        let found: Option<usize> = match rt.store.get(addr) {
            Some(JlData::Svec(v)) => if idx < v.len() {
                Some(v[idx])
            } else {
                None
            },
            _ => {
                proof {
                    assert(false);
                }
                None
            },
        };
        match found {
            Some(ea) => Ok(Ref::wrap(rt, ea)),
            None => Err(raise_bounds(rt)),
        }
    }

    /// Sets the value at the specified index; an out-of-range index
    /// raises a `Bounds`-classified exception through the bridge.
    pub fn index_set(&self, rt: &mut Julia, idx: usize, x: &Ref) -> (r: Result<(), Error>)
        requires
            self.backs_svec(*old(rt)),
            x.live(*old(rt)),
        ensures
            ({
                let elems = svec_elems(old(rt).store.vals@, self.0.addr_of(*old(rt)));
                let maddr = self.0.addr_of(*old(rt));
                match r {
                    Ok(_) => {
                        &&& !self.0.poisoned_in(*old(rt)) && !x.poisoned_in(*old(rt))
                        &&& idx < elems.len()
                        &&& at(final(rt).store.vals@, maddr) matches JlData::Svec(v) && v@
                            == elems.update(idx as int, x.addr_of(*old(rt)))
                        &&& final(rt).store.vals@.len() == old(rt).store.vals@.len()
                        &&& forall|a: usize|
                            in_dom(old(rt).store.vals@, a) && a != maddr ==> at(
                                final(rt).store.vals@,
                                a,
                            ) == at(old(rt).store.vals@, a)
                        &&& *final(rt) == (Julia { store: final(rt).store, ..*old(rt) })
                    },
                    Err(e) => {
                        ||| ((self.0.poisoned_in(*old(rt)) || x.poisoned_in(*old(rt))) && e
                            == Error::PoisonError && *final(rt) == *old(rt))
                        ||| (!self.0.poisoned_in(*old(rt)) && !x.poisoned_in(*old(rt)) && idx
                            >= elems.len() && bounds_fault(*old(rt), *final(rt), e))
                    },
                }
            }),
    {
        let addr = match self.0.lock(rt) {
            Ok(a) => a,
            Err(e) => {
                return Err(e);
            },
        };
        let xa = match x.lock(rt) {
            Ok(a) => a,
            Err(e) => {
                return Err(e);
            },
        };
        let data = rt.store.swap(addr, JlData::Nothing);
        match data {
            JlData::Svec(v) => {
                if idx < v.len() {
                    let mut v = v;
                    v[idx] = xa;
                    rt.store.put(addr, JlData::Svec(v));
                    Ok(())
                } else {
                    rt.store.put(addr, JlData::Svec(v));
                    Err(raise_bounds(rt))
                }
            },
            _ => {
                proof {
                    assert(false);
                }
                rt.store.put(addr, data);
                Ok(())
            },
        }
    }

    /// Constructs an empty simple vector.
    pub fn empty(rt: &mut Julia) -> (r: Svec)
        ensures
            svec_made(*old(rt), *final(rt), r, Seq::<usize>::empty()),
    {
        let v: Vec<usize> = Vec::new();
        Svec(rt.wrap_value(JlData::Svec(v)))
    }

    /// Constructs a simple vector holding one value.
    pub fn singleton(rt: &mut Julia, e1: &Ref) -> (r: Result<Svec, Error>)
        requires
            e1.live(*old(rt)),
        ensures
            match r {
                Ok(sv) => !e1.poisoned_in(*old(rt)) && svec_made(
                    *old(rt),
                    *final(rt),
                    sv,
                    seq![e1.addr_of(*old(rt))],
                ),
                Err(e) => e1.poisoned_in(*old(rt)) && e == Error::PoisonError && *final(rt) == *old(
                    rt,
                ),
            },
    {
        let a1 = match e1.lock(rt) {
            Ok(a) => a,
            Err(e) => {
                return Err(e);
            },
        };
        let mut v: Vec<usize> = Vec::new();
        v.push(a1);
        proof {
            assert(v@ =~= seq![e1.addr_of(*rt)]);
        }
        Ok(Svec(rt.wrap_value(JlData::Svec(v))))
    }

    /// Constructs a simple vector holding two values.
    pub fn pair(rt: &mut Julia, e1: &Ref, e2: &Ref) -> (r: Result<Svec, Error>)
        requires
            e1.live(*old(rt)),
            e2.live(*old(rt)),
        ensures
            match r {
                Ok(sv) => !e1.poisoned_in(*old(rt)) && !e2.poisoned_in(*old(rt)) && svec_made(
                    *old(rt),
                    *final(rt),
                    sv,
                    seq![e1.addr_of(*old(rt)), e2.addr_of(*old(rt))],
                ),
                Err(e) => (e1.poisoned_in(*old(rt)) || e2.poisoned_in(*old(rt))) && e
                    == Error::PoisonError && *final(rt) == *old(rt),
            },
    {
        let a1 = match e1.lock(rt) {
            Ok(a) => a,
            Err(e) => {
                return Err(e);
            },
        };
        let a2 = match e2.lock(rt) {
            Ok(a) => a,
            Err(e) => {
                return Err(e);
            },
        };
        let mut v: Vec<usize> = Vec::new();
        v.push(a1);
        v.push(a2);
        proof {
            assert(v@ =~= seq![e1.addr_of(*rt), e2.addr_of(*rt)]);
        }
        Ok(Svec(rt.wrap_value(JlData::Svec(v))))
    }

    /// Constructs a simple vector from any number of values, in order.
    pub fn from_refs(rt: &mut Julia, elems: &Vec<Ref>) -> (r: Result<Svec, Error>)
        requires
            forall|i: int| 0 <= i < elems@.len() ==> (#[trigger] elems@[i]).live(*old(rt)),
        ensures
            match r {
                Ok(sv) => {
                    &&& forall|i: int|
                        0 <= i < elems@.len() ==> !(#[trigger] elems@[i]).poisoned_in(*old(rt))
                    &&& svec_made(
                        *old(rt),
                        *final(rt),
                        sv,
                        Seq::new(elems@.len(), |i: int| elems@[i].addr_of(*old(rt))),
                    )
                },
                Err(e) => {
                    &&& e == Error::PoisonError
                    &&& exists|i: int|
                        0 <= i < elems@.len() && (#[trigger] elems@[i]).poisoned_in(*old(rt))
                    &&& *final(rt) == *old(rt)
                },
            },
    {
        let mut addrs: Vec<usize> = Vec::new();
        let n = elems.len();
        let mut i: usize = 0;
        while i < n
            invariant
                n == elems@.len(),
                i <= n,
                forall|k: int| 0 <= k < n ==> (#[trigger] elems@[k]).live(*rt),
                addrs@.len() == i,
                forall|k: int|
                    0 <= k < i ==> !(#[trigger] elems@[k]).poisoned_in(*rt) && addrs@[k]
                        == elems@[k].addr_of(*rt),
            decreases n - i,
        {
            match elems[i].lock(rt) {
                Ok(a) => {
                    addrs.push(a);
                },
                Err(e) => {
                    return Err(e);
                },
            }
            i += 1;
        }
        proof {
            assert(addrs@ =~= Seq::new(elems@.len(), |k: int| elems@[k].addr_of(*rt)));
        }
        Ok(Svec(rt.wrap_value(JlData::Svec(addrs))))
    }

    /// Constructs a simple vector holding one value repeated `n` times.
    pub fn filled(rt: &mut Julia, n: usize, elem: &Ref) -> (r: Result<Svec, Error>)
        requires
            elem.live(*old(rt)),
        ensures
            match r {
                Ok(sv) => !elem.poisoned_in(*old(rt)) && svec_made(
                    *old(rt),
                    *final(rt),
                    sv,
                    Seq::new(n as nat, |i: int| elem.addr_of(*old(rt))),
                ),
                Err(e) => elem.poisoned_in(*old(rt)) && e == Error::PoisonError && *final(rt)
                    == *old(rt),
            },
    {
        let a = match elem.lock(rt) {
            Ok(a) => a,
            Err(e) => {
                return Err(e);
            },
        };
        let mut v: Vec<usize> = Vec::new();
        let mut i: usize = 0;
        while i < n
            invariant
                i <= n,
                v@.len() == i,
                forall|k: int| 0 <= k < i ==> v@[k] == a,
            decreases n - i,
        {
            v.push(a);
            i += 1;
        }
        proof {
            assert(v@ =~= Seq::new(n as nat, |i: int| elem.addr_of(*rt)));
        }
        Ok(Svec(rt.wrap_value(JlData::Svec(v))))
    }
}

/// What allocating a one-dimensional array of element type `ty` with the
/// given element addresses does.
pub open spec fn array_made(pre: Julia, post: Julia, r: Array, ty: usize, elems: Seq<usize>) -> bool {
    &&& post.store.vals@.len() == pre.store.vals@.len() + 1
    &&& forall|a: usize|
        in_dom(pre.store.vals@, a) ==> at(post.store.vals@, a) == at(pre.store.vals@, a)
    &&& r.0.cell == pre.cells.slots@.len()
    &&& post.cells.slots@ == pre.cells.slots@.push(
        CellState { addr: (pre.store.vals@.len() + 1) as usize, count: 1, poisoned: false },
    )
    &&& r.0.addr_of(post) == (pre.store.vals@.len() + 1) as usize
    &&& in_dom(post.store.vals@, r.0.addr_of(post))
    &&& at(post.store.vals@, r.0.addr_of(post)) matches JlData::Array(d) && d.ty == ty && d.elems@
        == elems
    &&& post == (Julia { store: post.store, cells: post.cells, ..pre })
}

impl Array {
    /// Whether this handle is live and really backed by an array.
    pub open spec fn backs_array(self, rt: Julia) -> bool {
        &&& self.0.live(rt)
        &&& in_dom(rt.store.vals@, self.0.addr_of(rt))
        &&& at(rt.store.vals@, self.0.addr_of(rt)) is Array
    }

    /// Returns the length of the array.
    pub fn len(&self, rt: &Julia) -> (r: Result<usize, Error>)
        requires
            self.backs_array(*rt),
        ensures
            match r {
                Ok(n) => !self.0.poisoned_in(*rt) && n == array_elems(
                    rt.store.vals@,
                    self.0.addr_of(*rt),
                ).len(),
                Err(e) => self.0.poisoned_in(*rt) && e == Error::PoisonError,
            },
    {
        let addr = match self.0.lock(rt) {
            Ok(a) => a,
            Err(e) => {
                return Err(e);
            },
        };
        match rt.store.get(addr) {
            Some(JlData::Array(d)) => Ok(d.elems.len()),
            _ => {
                proof {
                    assert(false);
                }
                Ok(0)
            },
        }
    }

    /// Returns the extent of the array along dimension `i`.  The arrays
    /// this binding allocates are one-dimensional, so dimension 0 is the
    /// length and every further dimension has extent 1.
    pub fn dim(&self, rt: &Julia, i: usize) -> (r: Result<usize, Error>)
        requires
            self.backs_array(*rt),
        ensures
            match r {
                Ok(n) => !self.0.poisoned_in(*rt) && n == (if i == 0 {
                    array_elems(rt.store.vals@, self.0.addr_of(*rt)).len()
                } else {
                    1
                }),
                Err(e) => self.0.poisoned_in(*rt) && e == Error::PoisonError,
            },
    {
        match self.len(rt) {
            Ok(n) => Ok(if i == 0 {
                n
            } else {
                1
            }),
            Err(e) => Err(e),
        }
    }

    /// Returns the extent of the array along its first dimension.
    pub fn dim0(&self, rt: &Julia) -> (r: Result<usize, Error>)
        requires
            self.backs_array(*rt),
        ensures
            match r {
                Ok(n) => !self.0.poisoned_in(*rt) && n == array_elems(
                    rt.store.vals@,
                    self.0.addr_of(*rt),
                ).len(),
                Err(e) => self.0.poisoned_in(*rt) && e == Error::PoisonError,
            },
    {
        self.dim(rt, 0)
    }

    /// Returns the number of rows.
    pub fn nrows(&self, rt: &Julia) -> (r: Result<usize, Error>)
        requires
            self.backs_array(*rt),
        ensures
            match r {
                Ok(n) => !self.0.poisoned_in(*rt) && n == array_elems(
                    rt.store.vals@,
                    self.0.addr_of(*rt),
                ).len(),
                Err(e) => self.0.poisoned_in(*rt) && e == Error::PoisonError,
            },
    {
        self.dim0(rt)
    }

    /// Returns the number of dimensions; always 1 for the arrays this
    /// binding allocates.
    pub fn ndims(&self, rt: &Julia) -> (r: Result<usize, Error>)
        requires
            self.backs_array(*rt),
        ensures
            match r {
                Ok(n) => !self.0.poisoned_in(*rt) && n == 1,
                Err(e) => self.0.poisoned_in(*rt) && e == Error::PoisonError,
            },
    {
        match self.0.lock(rt) {
            Ok(_) => Ok(1),
            Err(e) => Err(e),
        }
    }

    /// Checks if the array is empty.  A handle whose guard is poisoned
    /// reports empty rather than failing.
    pub fn is_empty(&self, rt: &Julia) -> (r: bool)
        requires
            self.backs_array(*rt),
        ensures
            r == (self.0.poisoned_in(*rt) || array_elems(rt.store.vals@, self.0.addr_of(*rt)).len()
                == 0),
    {
        match self.len(rt) {
            Ok(n) => n == 0,
            Err(_) => true,
        }
    }

    /// Constructs a vector of fresh handles on the elements.
    pub fn as_vec(&self, rt: &mut Julia) -> (r: Result<Vec<Ref>, Error>)
        requires
            self.backs_array(*old(rt)),
        ensures
            match r {
                Ok(v) => ({
                    let elems = array_elems(old(rt).store.vals@, self.0.addr_of(*old(rt)));
                    &&& !self.0.poisoned_in(*old(rt))
                    &&& v@.len() == elems.len()
                    &&& forall|k: int|
                        0 <= k < elems.len() ==> (#[trigger] v@[k]).cell == old(
                            rt,
                        ).cells.slots@.len() + k
                    &&& final(rt).cells.slots@.len() == old(rt).cells.slots@.len() + elems.len()
                    &&& forall|j: int|
                        0 <= j < old(rt).cells.slots@.len() ==> final(rt).cells.slots@[j] == old(
                            rt,
                        ).cells.slots@[j]
                    &&& forall|k: int|
                        0 <= k < elems.len() ==> final(rt).cells.slots@[old(
                            rt,
                        ).cells.slots@.len() + k] == (CellState {
                            addr: elems[k],
                            count: 1,
                            poisoned: false,
                        })
                    &&& *final(rt) == (Julia { cells: final(rt).cells, ..*old(rt) })
                }),
                Err(e) => self.0.poisoned_in(*old(rt)) && e == Error::PoisonError && *final(rt)
                    == *old(rt),
            },
    {
        let addr = match self.0.lock(rt) {
            Ok(a) => a,
            Err(e) => {
                return Err(e);
            },
        };
        let n = match rt.store.get(addr) {
            Some(JlData::Array(d)) => d.elems.len(),
            _ => {
                proof {
                    assert(false);
                }
                0
            },
        };
        let mut out: Vec<Ref> = Vec::new();
        let mut i: usize = 0;
        while i < n
            invariant
                self.backs_array(*rt),
                !self.0.poisoned_in(*rt),
                addr == self.0.addr_of(*rt),
                n == array_elems(rt.store.vals@, addr).len(),
                i <= n,
                out@.len() == i,
                forall|k: int|
                    0 <= k < i ==> (#[trigger] out@[k]).cell == old(rt).cells.slots@.len() + k,
                rt.cells.slots@.len() == old(rt).cells.slots@.len() + i,
                forall|j: int|
                    0 <= j < old(rt).cells.slots@.len() ==> rt.cells.slots@[j] == old(
                        rt,
                    ).cells.slots@[j],
                forall|k: int|
                    0 <= k < i ==> rt.cells.slots@[old(rt).cells.slots@.len() + k] == (CellState {
                        addr: array_elems(rt.store.vals@, addr)[k],
                        count: 1,
                        poisoned: false,
                    }),
                *rt == (Julia { cells: rt.cells, ..*old(rt) }),
            decreases n - i,
        {
            let ea = match rt.store.get(addr) {
                Some(JlData::Array(d)) => d.elems[i],
                _ => {
                    proof {
                        assert(false);
                    }
                    0
                },
            };
            let h = Ref::wrap(rt, ea);
            out.push(h);
            i += 1;
        }
        Ok(out)
    }

    /// Returns the value at the specified index; an out-of-range index
    /// raises a `Bounds`-classified exception through the bridge.
    pub fn index(&self, rt: &mut Julia, idx: usize) -> (r: Result<Ref, Error>)
        requires
            self.backs_array(*old(rt)),
        ensures
            ({
                let elems = array_elems(old(rt).store.vals@, self.0.addr_of(*old(rt)));
                match r {
                    Ok(v) => {
                        &&& !self.0.poisoned_in(*old(rt))
                        &&& idx < elems.len()
                        &&& crate::api::datatype::minted(*old(rt), *final(rt), v, elems[idx as int])
                    },
                    Err(e) => {
                        ||| (self.0.poisoned_in(*old(rt)) && e == Error::PoisonError && *final(rt)
                            == *old(rt))
                        ||| (!self.0.poisoned_in(*old(rt)) && idx >= elems.len() && bounds_fault(
                            *old(rt),
                            *final(rt),
                            e,
                        ))
                    },
                }
            }),
    {
        let addr = match self.0.lock(rt) {
            Ok(a) => a,
            Err(e) => {
                return Err(e);
            },
        };
        let found: Option<usize> = match rt.store.get(addr) {
            Some(JlData::Array(d)) => if idx < d.elems.len() {
                Some(d.elems[idx])
            } else {
                None
            },
            _ => {
                proof {
                    assert(false);
                }
                None
            },
        };
        match found {
            Some(ea) => Ok(Ref::wrap(rt, ea)),
            None => Err(raise_bounds(rt)),
        }
    }

    /// Sets the value at the specified index; an out-of-range index
    /// raises a `Bounds`-classified exception through the bridge.
    pub fn index_set(&self, rt: &mut Julia, idx: usize, x: &Ref) -> (r: Result<(), Error>)
        requires
            self.backs_array(*old(rt)),
            x.live(*old(rt)),
        ensures
            ({
                let elems = array_elems(old(rt).store.vals@, self.0.addr_of(*old(rt)));
                let maddr = self.0.addr_of(*old(rt));
                match r {
                    Ok(_) => {
                        &&& !self.0.poisoned_in(*old(rt)) && !x.poisoned_in(*old(rt))
                        &&& idx < elems.len()
                        &&& at(final(rt).store.vals@, maddr) matches JlData::Array(d) && d.elems@
                            == elems.update(idx as int, x.addr_of(*old(rt))) && d.ty == at(
                            old(rt).store.vals@,
                            maddr,
                        )->Array_0.ty
                        &&& final(rt).store.vals@.len() == old(rt).store.vals@.len()
                        &&& forall|a: usize|
                            in_dom(old(rt).store.vals@, a) && a != maddr ==> at(
                                final(rt).store.vals@,
                                a,
                            ) == at(old(rt).store.vals@, a)
                        &&& *final(rt) == (Julia { store: final(rt).store, ..*old(rt) })
                    },
                    Err(e) => {
                        ||| ((self.0.poisoned_in(*old(rt)) || x.poisoned_in(*old(rt))) && e
                            == Error::PoisonError && *final(rt) == *old(rt))
                        ||| (!self.0.poisoned_in(*old(rt)) && !x.poisoned_in(*old(rt)) && idx
                            >= elems.len() && bounds_fault(*old(rt), *final(rt), e))
                    },
                }
            }),
    {
        let addr = match self.0.lock(rt) {
            Ok(a) => a,
            Err(e) => {
                return Err(e);
            },
        };
        let xa = match x.lock(rt) {
            Ok(a) => a,
            Err(e) => {
                return Err(e);
            },
        };
        let data = rt.store.swap(addr, JlData::Nothing);
        match data {
            JlData::Array(d) => {
                if idx < d.elems.len() {
                    let mut d = d;
                    d.elems[idx] = xa;
                    rt.store.put(addr, JlData::Array(d));
                    Ok(())
                } else {
                    rt.store.put(addr, JlData::Array(d));
                    Err(raise_bounds(rt))
                }
            },
            _ => {
                proof {
                    assert(false);
                }
                rt.store.put(addr, data);
                Ok(())
            },
        }
    }
}

impl ByteArray {
    /// Whether this handle is live and really backed by a byte array.
    pub open spec fn backs_bytes(self, rt: Julia) -> bool {
        &&& self.0.live(rt)
        &&& in_dom(rt.store.vals@, self.0.addr_of(rt))
        &&& at(rt.store.vals@, self.0.addr_of(rt)) is Bytes
    }

    /// Returns the length of the byte array.
    pub fn len(&self, rt: &Julia) -> (r: Result<usize, Error>)
        requires
            self.backs_bytes(*rt),
        ensures
            match r {
                Ok(n) => !self.0.poisoned_in(*rt) && n == byte_elems(
                    rt.store.vals@,
                    self.0.addr_of(*rt),
                ).len(),
                Err(e) => self.0.poisoned_in(*rt) && e == Error::PoisonError,
            },
    {
        let addr = match self.0.lock(rt) {
            Ok(a) => a,
            Err(e) => {
                return Err(e);
            },
        };
        match rt.store.get(addr) {
            Some(JlData::Bytes(b)) => Ok(b.len()),
            _ => {
                proof {
                    assert(false);
                }
                Ok(0)
            },
        }
    }

    /// Checks if the byte array is empty.  A handle whose guard is
    /// poisoned reports empty rather than failing.
    pub fn is_empty(&self, rt: &Julia) -> (r: bool)
        requires
            self.backs_bytes(*rt),
        ensures
            r == (self.0.poisoned_in(*rt) || byte_elems(rt.store.vals@, self.0.addr_of(*rt)).len()
                == 0),
    {
        match self.len(rt) {
            Ok(n) => n == 0,
            Err(_) => true,
        }
    }

    /// Borrows the bytes without copying: byte arrays are contiguous and
    /// do not move under the collector's non-moving discipline.
    pub fn as_slice<'a>(&self, rt: &'a Julia) -> (r: Result<&'a [u8], Error>)
        requires
            self.backs_bytes(*rt),
        ensures
            match r {
                Ok(s) => !self.0.poisoned_in(*rt) && s@ == byte_elems(
                    rt.store.vals@,
                    self.0.addr_of(*rt),
                ),
                Err(e) => self.0.poisoned_in(*rt) && e == Error::PoisonError,
            },
    {
        let addr = match self.0.lock(rt) {
            Ok(a) => a,
            Err(e) => {
                return Err(e);
            },
        };
        match rt.store.get(addr) {
            Some(JlData::Bytes(b)) => Ok(b.as_slice()),
            _ => {
                proof {
                    assert(false);
                }
                Err(Error::PoisonError)
            },
        }
    }

    /// Constructs a host-owned copy of the bytes.
    pub fn as_vec(&self, rt: &Julia) -> (r: Result<Vec<u8>, Error>)
        requires
            self.backs_bytes(*rt),
        ensures
            match r {
                Ok(v) => !self.0.poisoned_in(*rt) && v@ == byte_elems(
                    rt.store.vals@,
                    self.0.addr_of(*rt),
                ),
                Err(e) => self.0.poisoned_in(*rt) && e == Error::PoisonError,
            },
    {
        match self.as_slice(rt) {
            Ok(s) => Ok(vstd::slice::slice_to_vec(s)),
            Err(e) => Err(e),
        }
    }

    /// Returns the byte at the specified index; an out-of-range index
    /// raises a `Bounds`-classified exception through the bridge.
    pub fn index(&self, rt: &mut Julia, idx: usize) -> (r: Result<u8, Error>)
        requires
            self.backs_bytes(*old(rt)),
        ensures
            ({
                let bytes = byte_elems(old(rt).store.vals@, self.0.addr_of(*old(rt)));
                match r {
                    Ok(b) => {
                        &&& !self.0.poisoned_in(*old(rt))
                        &&& idx < bytes.len()
                        &&& b == bytes[idx as int]
                        &&& *final(rt) == *old(rt)
                    },
                    Err(e) => {
                        ||| (self.0.poisoned_in(*old(rt)) && e == Error::PoisonError && *final(rt)
                            == *old(rt))
                        ||| (!self.0.poisoned_in(*old(rt)) && idx >= bytes.len() && bounds_fault(
                            *old(rt),
                            *final(rt),
                            e,
                        ))
                    },
                }
            }),
    {
        let addr = match self.0.lock(rt) {
            Ok(a) => a,
            Err(e) => {
                return Err(e);
            },
        };
        let found: Option<u8> = match rt.store.get(addr) {
            Some(JlData::Bytes(b)) => if idx < b.len() {
                Some(b[idx])
            } else {
                None
            },
            _ => {
                proof {
                    assert(false);
                }
                None
            },
        };
        match found {
            Some(b) => Ok(b),
            None => Err(raise_bounds(rt)),
        }
    }

    /// Sets the byte at the specified index; an out-of-range index raises
    /// a `Bounds`-classified exception through the bridge.
    pub fn index_set(&self, rt: &mut Julia, idx: usize, x: u8) -> (r: Result<(), Error>)
        requires
            self.backs_bytes(*old(rt)),
        ensures
            ({
                let bytes = byte_elems(old(rt).store.vals@, self.0.addr_of(*old(rt)));
                let maddr = self.0.addr_of(*old(rt));
                match r {
                    Ok(_) => {
                        &&& !self.0.poisoned_in(*old(rt))
                        &&& idx < bytes.len()
                        &&& at(final(rt).store.vals@, maddr) matches JlData::Bytes(b) && b@
                            == bytes.update(idx as int, x)
                        &&& final(rt).store.vals@.len() == old(rt).store.vals@.len()
                        &&& forall|a: usize|
                            in_dom(old(rt).store.vals@, a) && a != maddr ==> at(
                                final(rt).store.vals@,
                                a,
                            ) == at(old(rt).store.vals@, a)
                        &&& *final(rt) == (Julia { store: final(rt).store, ..*old(rt) })
                    },
                    Err(e) => {
                        ||| (self.0.poisoned_in(*old(rt)) && e == Error::PoisonError && *final(rt)
                            == *old(rt))
                        ||| (!self.0.poisoned_in(*old(rt)) && idx >= bytes.len() && bounds_fault(
                            *old(rt),
                            *final(rt),
                            e,
                        ))
                    },
                }
            }),
    {
        let addr = match self.0.lock(rt) {
            Ok(a) => a,
            Err(e) => {
                return Err(e);
            },
        };
        let data = rt.store.swap(addr, JlData::Nothing);
        match data {
            JlData::Bytes(b) => {
                if idx < b.len() {
                    let mut b = b;
                    b[idx] = x;
                    rt.store.put(addr, JlData::Bytes(b));
                    Ok(())
                } else {
                    rt.store.put(addr, JlData::Bytes(b));
                    Err(raise_bounds(rt))
                }
            },
            _ => {
                proof {
                    assert(false);
                }
                rt.store.put(addr, data);
                Ok(())
            },
        }
    }
}

} // verus!
