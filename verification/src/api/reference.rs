//! The handle around one foreign heap pointer.
//!
//! A `Ref` is the only owner of foreign state on the host side: a
//! reference-counted, mutually-exclusive-access wrapper around one non-null
//! address.  Clones share one cell in the context's table; the address can
//! be extracted only by the sole remaining owner; once a borrower fails
//! while holding the guard, the cell is poisoned and every later borrow
//! fails.

use vstd::prelude::*;

verus! {

use crate::api::cells::{dropped, lock_result, retained, tainted, take_result, CellState};
use crate::api::heap::{at, in_dom, typename_of, JlData};
use crate::api::Julia;
use crate::error::Error;

/// A handle on one foreign heap value: the index of its guarded cell in
/// the runtime context.
#[derive(Debug, PartialEq, Eq, Structural)]
pub struct Ref {
    pub cell: usize,
}

impl Ref {
    /// Whether this handle is backed by a live cell of the context.
    pub open spec fn live(self, rt: Julia) -> bool {
        rt.cells.live(self.cell)
    }

    /// The state of this handle's cell.
    pub open spec fn state(self, rt: Julia) -> CellState {
        rt.cells.state(self.cell)
    }

    /// The foreign address this handle guards.
    pub open spec fn addr_of(self, rt: Julia) -> usize {
        self.state(rt).addr
    }

    /// Whether this handle's guard is poisoned.
    pub open spec fn poisoned_in(self, rt: Julia) -> bool {
        self.state(rt).poisoned
    }

    /// The value this handle lets the host observe: the content of its
    /// address, unless the handle is dead, its guard is poisoned, or the
    /// model holds no value there.  Classification reads through this and
    /// degrades to "nothing observed" rather than failing.
    pub open spec fn observes(self, rt: Julia) -> Option<JlData> {
        if self.live(rt) && !self.poisoned_in(rt) && in_dom(rt.store.vals@, self.addr_of(rt)) {
            Some(at(rt.store.vals@, self.addr_of(rt)))
        } else {
            None
        }
    }

    /// Construct a new `Ref` from a raw address obtained from the foreign
    /// runtime, after validating it.  A null pointer is rejected with
    /// `NullPointer` and no handle is constructed.
    pub fn new(rt: &mut Julia, addr: usize) -> (r: Result<Ref, Error>)
        ensures
            addr == 0 ==> r == Err::<Ref, Error>(Error::NullPointer) && *final(rt) == *old(rt),
            addr != 0 ==> match r {
                Ok(h) => {
                    &&& h.cell == old(rt).cells.slots@.len()
                    &&& final(rt).cells.slots@ == old(rt).cells.slots@.push(
                        CellState { addr, count: 1, poisoned: false },
                    )
                    &&& *final(rt) == (Julia { cells: final(rt).cells, ..*old(rt) })
                },
                Err(_) => false,
            },
    {
        if addr == 0 {
            Err(Error::NullPointer)
        } else {
            let id = rt.cells.create(addr);
            Ok(Ref { cell: id })
        }
    }

    /// Wrap a well-known singleton address in a fresh handle, without the
    /// null check that `new` performs: the runtime's own globals are never
    /// null.
    pub(crate) fn wrap(rt: &mut Julia, addr: usize) -> (r: Ref)
        ensures
            r.cell == old(rt).cells.slots@.len(),
            final(rt).cells.slots@ == old(rt).cells.slots@.push(
                CellState { addr, count: 1, poisoned: false },
            ),
            *final(rt) == (Julia { cells: final(rt).cells, ..*old(rt) }),
    {
        let id = rt.cells.create(addr);
        Ref { cell: id }
    }

    /// A handle on the `nothing` singleton.  Never fails.
    pub fn nothing(rt: &mut Julia) -> (r: Ref)
        ensures
            r.cell == old(rt).cells.slots@.len(),
            final(rt).cells.slots@ == old(rt).cells.slots@.push(
                CellState { addr: old(rt).wk.nothing, count: 1, poisoned: false },
            ),
            *final(rt) == (Julia { cells: final(rt).cells, ..*old(rt) }),
    {
        let id = rt.cells.create(rt.wk.nothing);
        Ref { cell: id }
    }

    /// A further handle sharing this one's cell.  Cloning never touches the
    /// foreign heap; it only raises the shared count.
    pub fn clone_ref(&self, rt: &mut Julia) -> (r: Ref)
        requires
            self.live(*old(rt)),
        ensures
            r.cell == self.cell,
            final(rt).cells.slots@ == old(rt).cells.slots@.update(
                self.cell as int,
                retained(self.state(*old(rt))),
            ),
            *final(rt) == (Julia { cells: final(rt).cells, ..*old(rt) }),
    {
        rt.cells.retain(self.cell);
        Ref { cell: self.cell }
    }

    /// Drop this handle: one fewer owner shares the cell.
    pub fn release(self, rt: &mut Julia)
        requires
            self.live(*old(rt)),
        ensures
            final(rt).cells.slots@ == old(rt).cells.slots@.update(
                self.cell as int,
                dropped(self.state(*old(rt))),
            ),
            *final(rt) == (Julia { cells: final(rt).cells, ..*old(rt) }),
    {
        rt.cells.release(self.cell);
    }

    /// Safely borrow the guarded address.  Fails with `PoisonError` if a
    /// previous borrower failed while holding the guard.
    pub fn lock(&self, rt: &Julia) -> (r: Result<usize, Error>)
        requires
            self.live(*rt),
        ensures
            r == lock_result(self.state(*rt)),
    {
        rt.cells.lock(self.cell)
    }

    /// Take ownership of the guarded address.  Fails with `ResourceInUse`
    /// while other clones share the cell, and with `PoisonError` on a
    /// poisoned guard; the handle is spent either way.
    pub fn into_inner(self, rt: &mut Julia) -> (r: Result<usize, Error>)
        requires
            self.live(*old(rt)),
        ensures
            r == take_result(self.state(*old(rt))),
            final(rt).cells.slots@ == old(rt).cells.slots@.update(
                self.cell as int,
                dropped(self.state(*old(rt))),
            ),
            *final(rt) == (Julia { cells: final(rt).cells, ..*old(rt) }),
    {
        rt.cells.take(self.cell)
    }

    /// Record that a borrower failed while holding this handle's guard: the
    /// event that poisons the cell for every clone, for good.
    pub fn poison(&self, rt: &mut Julia)
        requires
            self.live(*old(rt)),
        ensures
            final(rt).cells.slots@ == old(rt).cells.slots@.update(
                self.cell as int,
                tainted(self.state(*old(rt))),
            ),
            *final(rt) == (Julia { cells: final(rt).cells, ..*old(rt) }),
    {
        rt.cells.poison(self.cell);
    }

    /// Checks that the guard is not poisoned.
    pub fn is_ok(&self, rt: &Julia) -> (r: bool)
        requires
            self.live(*rt),
        ensures
            r == !self.poisoned_in(*rt),
    {
        !rt.cells.is_poisoned(self.cell)
    }

    /// Applies a function to the guarded address.  Fails with `PoisonError`
    /// on a poisoned guard, without running the function.
    pub fn map<B, F: FnOnce(usize) -> B>(&self, rt: &Julia, f: F) -> (r: Result<B, Error>)
        requires
            self.live(*rt),
            forall|a: usize| #[trigger] call_requires(f, (a,)),
        ensures
            match r {
                Ok(b) => !self.poisoned_in(*rt) && call_ensures(f, (self.addr_of(*rt),), b),
                Err(e) => self.poisoned_in(*rt) && e == Error::PoisonError,
            },
    {
        match self.lock(rt) {
            Ok(addr) => Ok(f(addr)),
            Err(e) => Err(e),
        }
    }

    /// Applies a function to the guarded address, falling back to a default
    /// value on a poisoned guard.
    pub fn map_or<B, F: FnOnce(usize) -> B>(&self, rt: &Julia, f: F, optb: B) -> (r: B)
        requires
            self.live(*rt),
            forall|a: usize| #[trigger] call_requires(f, (a,)),
        ensures
            self.poisoned_in(*rt) ==> r == optb,
            !self.poisoned_in(*rt) ==> call_ensures(f, (self.addr_of(*rt),), r),
    {
        match self.lock(rt) {
            Ok(addr) => f(addr),
            Err(_) => optb,
        }
    }

    /// Applies a function to the guarded address, or a fallback function
    /// to the error a poisoned guard raises.
    pub fn map_or_else<B, F: FnOnce(usize) -> B, O: FnOnce(Error) -> B>(
        &self,
        rt: &Julia,
        f: F,
        op: O,
    ) -> (r: B)
        requires
            self.live(*rt),
            forall|a: usize| #[trigger] call_requires(f, (a,)),
            forall|e: Error| #[trigger] call_requires(op, (e,)),
        ensures
            !self.poisoned_in(*rt) ==> call_ensures(f, (self.addr_of(*rt),), r),
            self.poisoned_in(*rt) ==> call_ensures(op, (Error::PoisonError,), r),
    {
        match self.lock(rt) {
            Ok(addr) => f(addr),
            Err(e) => op(e),
        }
    }

    /// Returns the name of the dynamic type of the guarded value.  Fails
    /// only on a poisoned guard.
    pub fn typename(&self, rt: &Julia) -> (r: Result<String, Error>)
        requires
            self.live(*rt),
        ensures
            match r {
                Ok(s) => !self.poisoned_in(*rt) && s@ == typename_of(
                    rt.store.vals@,
                    self.addr_of(*rt),
                ),
                Err(e) => self.poisoned_in(*rt) && e == Error::PoisonError,
            },
    {
        match self.lock(rt) {
            Ok(addr) => Ok(rt.store.typename(addr)),
            Err(e) => Err(e),
        }
    }

    /// Checks whether the dynamic types of two guarded values are equal:
    /// two datatypes are compared by name, anything else by identity.
    pub fn types_equal(&self, other: &Ref, rt: &Julia) -> (r: Result<bool, Error>)
        requires
            self.live(*rt),
            other.live(*rt),
        ensures
            match r {
                Ok(b) => {
                    &&& !self.poisoned_in(*rt)
                    &&& !other.poisoned_in(*rt)
                    &&& b == types_equal_spec(
                        rt.store.vals@,
                        self.addr_of(*rt),
                        other.addr_of(*rt),
                    )
                },
                Err(e) => (self.poisoned_in(*rt) || other.poisoned_in(*rt)) && e
                    == Error::PoisonError,
            },
    {
        let a = match self.lock(rt) {
            Ok(a) => a,
            Err(e) => {
                return Err(e);
            },
        };
        let b = match other.lock(rt) {
            Ok(b) => b,
            Err(e) => {
                return Err(e);
            },
        };
        match (rt.store.get(a), rt.store.get(b)) {
            (Some(JlData::Dty(da)), Some(JlData::Dty(db))) => Ok(da.name == db.name),
            _ => Ok(a == b),
        }
    }

    /// The value observed through this handle, if the handle is live, its
    /// guard clean, and the model holds a value at its address.
    pub fn observe<'a>(&self, rt: &'a Julia) -> (r: Option<&'a JlData>)
        ensures
            match r {
                Some(d) => self.observes(*rt) == Some(*d),
                None => self.observes(*rt) is None,
            },
    {
        if self.cell >= rt.cells.slots.len() {
            return None;
        }
        let c = rt.cells.slots[self.cell];
        if c.count == 0 || c.poisoned {
            return None;
        }
        rt.store.get(c.addr)
    }

    /// Checks if the value is a nothing.
    pub fn is_nothing(&self, rt: &Julia) -> (r: bool)
        ensures
            r == (self.observes(*rt) matches Some(JlData::Nothing)),
    {
        matches!(self.observe(rt), Some(JlData::Nothing))
    }

    /// Checks if the value is a bool.
    pub fn is_bool(&self, rt: &Julia) -> (r: bool)
        ensures
            r == (self.observes(*rt) matches Some(JlData::Bool(_))),
    {
        matches!(self.observe(rt), Some(JlData::Bool(_)))
    }

    /// Checks if the value is an int8.
    pub fn is_int8(&self, rt: &Julia) -> (r: bool)
        ensures
            r == (self.observes(*rt) matches Some(JlData::Int8(_))),
    {
        matches!(self.observe(rt), Some(JlData::Int8(_)))
    }

    /// Checks if the value is an int16.
    pub fn is_int16(&self, rt: &Julia) -> (r: bool)
        ensures
            r == (self.observes(*rt) matches Some(JlData::Int16(_))),
    {
        matches!(self.observe(rt), Some(JlData::Int16(_)))
    }

    /// Checks if the value is an int32.
    pub fn is_int32(&self, rt: &Julia) -> (r: bool)
        ensures
            r == (self.observes(*rt) matches Some(JlData::Int32(_))),
    {
        matches!(self.observe(rt), Some(JlData::Int32(_)))
    }

    /// Checks if the value is an int64.
    pub fn is_int64(&self, rt: &Julia) -> (r: bool)
        ensures
            r == (self.observes(*rt) matches Some(JlData::Int64(_))),
    {
        matches!(self.observe(rt), Some(JlData::Int64(_)))
    }

    /// Checks if the value is a boxed machine-word signed integer.
    pub fn is_long(&self, rt: &Julia) -> (r: bool)
        ensures
            r == (self.observes(*rt) matches Some(JlData::Isize(_))),
    {
        matches!(self.observe(rt), Some(JlData::Isize(_)))
    }

    /// Checks if the value is a uint8.
    pub fn is_uint8(&self, rt: &Julia) -> (r: bool)
        ensures
            r == (self.observes(*rt) matches Some(JlData::UInt8(_))),
    {
        matches!(self.observe(rt), Some(JlData::UInt8(_)))
    }

    /// Checks if the value is a uint16.
    pub fn is_uint16(&self, rt: &Julia) -> (r: bool)
        ensures
            r == (self.observes(*rt) matches Some(JlData::UInt16(_))),
    {
        matches!(self.observe(rt), Some(JlData::UInt16(_)))
    }

    /// Checks if the value is a uint32.
    pub fn is_uint32(&self, rt: &Julia) -> (r: bool)
        ensures
            r == (self.observes(*rt) matches Some(JlData::UInt32(_))),
    {
        matches!(self.observe(rt), Some(JlData::UInt32(_)))
    }

    /// Checks if the value is a uint64.
    pub fn is_uint64(&self, rt: &Julia) -> (r: bool)
        ensures
            r == (self.observes(*rt) matches Some(JlData::UInt64(_))),
    {
        matches!(self.observe(rt), Some(JlData::UInt64(_)))
    }

    /// Checks if the value is a boxed machine-word unsigned integer.
    pub fn is_ulong(&self, rt: &Julia) -> (r: bool)
        ensures
            r == (self.observes(*rt) matches Some(JlData::Usize(_))),
    {
        matches!(self.observe(rt), Some(JlData::Usize(_)))
    }

    /// Checks if the value is a string.
    pub fn is_string(&self, rt: &Julia) -> (r: bool)
        ensures
            r == (self.observes(*rt) matches Some(JlData::Str(_))),
    {
        matches!(self.observe(rt), Some(JlData::Str(_)))
    }

    /// Checks if the value is a symbol.
    pub fn is_symbol(&self, rt: &Julia) -> (r: bool)
        ensures
            r == (self.observes(*rt) matches Some(JlData::Sym(_)) || self.observes(*rt) matches Some(
                JlData::Gensym(_),
            )),
    {
        matches!(self.observe(rt), Some(JlData::Sym(_)) | Some(JlData::Gensym(_)))
    }

    /// Checks if the value is a svec.
    pub fn is_svec(&self, rt: &Julia) -> (r: bool)
        ensures
            r == (self.observes(*rt) matches Some(JlData::Svec(_))),
    {
        matches!(self.observe(rt), Some(JlData::Svec(_)))
    }

    /// Checks if the value is a simplevector.
    pub fn is_simplevector(&self, rt: &Julia) -> (r: bool)
        ensures
            r == (self.observes(*rt) matches Some(JlData::Svec(_))),
    {
        matches!(self.observe(rt), Some(JlData::Svec(_)))
    }

    /// Checks if the value is an array.
    pub fn is_array(&self, rt: &Julia) -> (r: bool)
        ensures
            r == (self.observes(*rt) matches Some(JlData::Array(_)) || self.observes(*rt) matches Some(
                JlData::Bytes(_),
            )),
    {
        matches!(self.observe(rt), Some(JlData::Array(_)) | Some(JlData::Bytes(_)))
    }

    /// Checks if the value is a module.
    pub fn is_module(&self, rt: &Julia) -> (r: bool)
        ensures
            r == (self.observes(*rt) matches Some(JlData::Module(_))),
    {
        matches!(self.observe(rt), Some(JlData::Module(_)))
    }

    /// Checks if the value is a task.
    pub fn is_task(&self, rt: &Julia) -> (r: bool)
        ensures
            r == (self.observes(*rt) matches Some(JlData::Task(_))),
    {
        matches!(self.observe(rt), Some(JlData::Task(_)))
    }

    /// Checks if the value is an expr.
    pub fn is_expr(&self, rt: &Julia) -> (r: bool)
        ensures
            r == (self.observes(*rt) matches Some(JlData::Expr(_))),
    {
        matches!(self.observe(rt), Some(JlData::Expr(_)))
    }

    /// Checks if the value is a datatype.
    pub fn is_datatype(&self, rt: &Julia) -> (r: bool)
        ensures
            r == (self.observes(*rt) matches Some(JlData::Dty(_))),
    {
        matches!(self.observe(rt), Some(JlData::Dty(_)))
    }

    /// Checks if the value is a uniontype.
    pub fn is_uniontype(&self, rt: &Julia) -> (r: bool)
        ensures
            r == (self.observes(*rt) matches Some(JlData::UnionTy(_))),
    {
        matches!(self.observe(rt), Some(JlData::UnionTy(_)))
    }

    /// Checks if the value is a type: a datatype or a union.
    pub fn is_type(&self, rt: &Julia) -> (r: bool)
        ensures
            r == (self.observes(*rt) matches Some(JlData::Dty(_)) || self.observes(*rt) matches Some(
                JlData::UnionTy(_),
            )),
    {
        matches!(self.observe(rt), Some(JlData::Dty(_)) | Some(JlData::UnionTy(_)))
    }

    /// Checks if the value is a primitivetype.
    pub fn is_primitivetype(&self, rt: &Julia) -> (r: bool)
        ensures
            r == (self.observes(*rt) matches Some(JlData::Dty(d)) && d.is_primitive),
    {
        match self.observe(rt) {
            Some(JlData::Dty(d)) => d.is_primitive,
            _ => false,
        }
    }

    /// Checks if the value is a structtype: a concrete, non-primitive
    /// datatype.
    pub fn is_structtype(&self, rt: &Julia) -> (r: bool)
        ensures
            r == (self.observes(*rt) matches Some(JlData::Dty(d)) && !d.is_abstract
                && !d.is_primitive),
    {
        match self.observe(rt) {
            Some(JlData::Dty(d)) => !d.is_abstract && !d.is_primitive,
            _ => false,
        }
    }

    /// Checks if the value is an abstracttype.
    pub fn is_abstracttype(&self, rt: &Julia) -> (r: bool)
        ensures
            r == (self.observes(*rt) matches Some(JlData::Dty(d)) && d.is_abstract),
    {
        match self.observe(rt) {
            Some(JlData::Dty(d)) => d.is_abstract,
            _ => false,
        }
    }

    /// Checks if the value is a mutable datatype.
    pub fn is_mutable_datatype(&self, rt: &Julia) -> (r: bool)
        ensures
            r == (self.observes(*rt) matches Some(JlData::Dty(d)) && d.is_mutable),
    {
        match self.observe(rt) {
            Some(JlData::Dty(d)) => d.is_mutable,
            _ => false,
        }
    }

    /// Checks if the value is an immutable datatype.
    pub fn is_immutable_datatype(&self, rt: &Julia) -> (r: bool)
        ensures
            r == (self.observes(*rt) matches Some(JlData::Dty(d)) && !d.is_mutable),
    {
        match self.observe(rt) {
            Some(JlData::Dty(d)) => !d.is_mutable,
            _ => false,
        }
    }
}

/// The address of the registered datatype of the value at `addr`: the
/// scalar kinds and `nothing` reflect to the well-known singletons, a
/// struct instance to the datatype it was constructed from.  Kinds the
/// model registers no datatype object for reflect to nothing at all.
pub open spec fn datatype_addr_of(rt: Julia, addr: usize) -> Option<usize> {
    if !in_dom(rt.store.vals@, addr) {
        None
    } else {
        match at(rt.store.vals@, addr) {
            JlData::Nothing => Some(rt.wk.void),
            JlData::Bool(_) => Some(rt.wk.boolean),
            JlData::Char(_) => Some(rt.wk.character),
            JlData::Int8(_) => Some(rt.wk.int8),
            JlData::Int16(_) => Some(rt.wk.int16),
            JlData::Int32(_) => Some(rt.wk.int32),
            JlData::Int64(_) => Some(rt.wk.int64),
            JlData::Isize(_) => Some(rt.wk.int64),
            JlData::UInt8(_) => Some(rt.wk.uint8),
            JlData::UInt16(_) => Some(rt.wk.uint16),
            JlData::UInt32(_) => Some(rt.wk.uint32),
            JlData::UInt64(_) => Some(rt.wk.uint64),
            JlData::Usize(_) => Some(rt.wk.uint64),
            JlData::StructVal(s) => if s.ty == 0 {
                None
            } else {
                Some(s.ty)
            },
            JlData::Bits(b) => if b.ty == 0 {
                None
            } else {
                Some(b.ty)
            },
            _ => None,
        }
    }
}

/// The fields of the struct instance at `addr`.
pub open spec fn struct_fields(h: Seq<JlData>, addr: usize) -> Seq<crate::api::heap::FieldVal>
    recommends
        in_dom(h, addr),
        at(h, addr) is StructVal,
{
    at(h, addr)->StructVal_0.fields@
}

/// Whether `i` is the first field called `name` in `fs`.
pub open spec fn first_field(
    fs: Seq<crate::api::heap::FieldVal>,
    name: Seq<char>,
    i: int,
) -> bool {
    &&& 0 <= i < fs.len()
    &&& fs[i].name@ == name
    &&& forall|j: int| 0 <= j < i ==> fs[j].name@ != name
}

/// Whether the values at `a` and `b` are equal as types: datatypes by
/// name, anything else by identity.
pub open spec fn types_equal_spec(h: Seq<JlData>, a: usize, b: usize) -> bool {
    if in_dom(h, a) && in_dom(h, b) && at(h, a) is Dty && at(h, b) is Dty {
        at(h, a)->Dty_0.name@ == at(h, b)->Dty_0.name@
    } else {
        a == b
    }
}

/// Whether the type at `t` reaches the type at `target` along the
/// recorded supertype chain within `fuel` steps: equal types count, and
/// the walk stops at a type that is its own supertype (the top of the
/// chain) or at anything that is not a datatype.  The fuel bounds the
/// walk on a heap whose chains the constructors did not build.
pub open spec fn subtype_within(h: Seq<JlData>, t: usize, target: usize, fuel: nat) -> bool
    decreases fuel,
{
    if types_equal_spec(h, t, target) {
        true
    } else if fuel == 0 {
        false
    } else if in_dom(h, t) && at(h, t) is Dty {
        if at(h, t)->Dty_0.supertype == t {
            false
        } else {
            subtype_within(h, at(h, t)->Dty_0.supertype, target, (fuel - 1) as nat)
        }
    } else {
        false
    }
}

/// Whether the value at `vaddr` is an instance of the type at `taddr`:
/// an instance of the top type, of its registered datatype, and of every
/// type on that datatype's recorded supertype chain, types compared by
/// name.  The rest of the foreign runtime's subtype relation — union
/// membership, parametric covariance — stays with the foreign runtime.
pub open spec fn isa_spec(rt: Julia, vaddr: usize, taddr: usize) -> bool {
    ||| taddr == rt.wk.any
    ||| (datatype_addr_of(rt, vaddr) matches Some(da) && subtype_within(
        rt.store.vals@,
        da,
        taddr,
        rt.store.vals@.len(),
    ))
}

/// Walk the recorded supertype chain from `start`, looking for `target`.
fn subtype_walk(rt: &Julia, start: usize, target: usize) -> (r: bool)
    ensures
        r == subtype_within(rt.store.vals@, start, target, rt.store.vals@.len()),
{
    let ghost h = rt.store.vals@;
    let mut cur = start;
    let mut fuel: usize = rt.store.vals.len();
    loop
        invariant
            h == rt.store.vals@,
            fuel <= h.len(),
            subtype_within(h, start, target, h.len()) == subtype_within(
                h,
                cur,
                target,
                fuel as nat,
            ),
        decreases fuel,
    {
        let eq = match (rt.store.get(cur), rt.store.get(target)) {
            (Some(JlData::Dty(x)), Some(JlData::Dty(y))) => x.name == y.name,
            _ => cur == target,
        };
        if eq {
            return true;
        }
        if fuel == 0 {
            return false;
        }
        let nxt = match rt.store.get(cur) {
            Some(JlData::Dty(d)) => d.supertype,
            _ => {
                return false;
            },
        };
        if nxt == cur {
            return false;
        }
        cur = nxt;
        fuel = fuel - 1;
    }
}

/// Find the first field of `name`, yielding its index.
fn find_field(fs: &Vec<crate::api::heap::FieldVal>, name: &str) -> (r: Option<usize>)
    ensures
        match r {
            Some(i) => first_field(fs@, name@, i as int),
            None => forall|j: int| 0 <= j < fs@.len() ==> fs@[j].name@ != name@,
        },
{
    let n = fs.len();
    let mut i: usize = 0;
    while i < n
        invariant
            n == fs@.len(),
            i <= n,
            forall|j: int| 0 <= j < i ==> fs@[j].name@ != name@,
        decreases n - i,
    {
        if crate::api::heap::streq(fs[i].name.as_str(), name) {
            return Some(i);
        }
        i += 1;
    }
    None
}

/// Whether the object has no field the symbol names: the symbol carries
/// no textual name, the value observed at the object's address is not a
/// struct instance, or no field of the instance carries the name.
pub open spec fn field_absent(pre: Julia, obj: Ref, field: crate::api::sym::Symbol) -> bool {
    match crate::api::sym::sym_name_of(pre.store.vals@, field.0.addr_of(pre)) {
        None => true,
        Some(nm) => {
            ||| !(in_dom(pre.store.vals@, obj.addr_of(pre)) && at(
                pre.store.vals@,
                obj.addr_of(pre),
            ) is StructVal)
            ||| forall|i: int|
                !#[trigger] first_field(struct_fields(pre.store.vals@, obj.addr_of(pre)), nm, i)
        },
    }
}

/// What a successful field read yields: a fresh handle on the value the
/// name's first field holds.
pub open spec fn field_found(
    pre: Julia,
    post: Julia,
    obj: Ref,
    field: crate::api::sym::Symbol,
    v: Ref,
) -> bool {
    &&& !obj.poisoned_in(pre) && !field.0.poisoned_in(pre)
    &&& in_dom(pre.store.vals@, obj.addr_of(pre)) && at(pre.store.vals@, obj.addr_of(pre)) is StructVal
    &&& crate::api::sym::sym_name_of(pre.store.vals@, field.0.addr_of(pre)) matches Some(nm)
        && exists|i: int|
        #[trigger] first_field(struct_fields(pre.store.vals@, obj.addr_of(pre)), nm, i)
            && crate::api::datatype::minted(
            pre,
            post,
            v,
            struct_fields(pre.store.vals@, obj.addr_of(pre))[i].value,
        )
}

/// What a successful field write does: the first field of the name now
/// holds the value's address, every other field and every other heap
/// entry is untouched.
pub open spec fn field_set_done(
    pre: Julia,
    post: Julia,
    obj: Ref,
    field: crate::api::sym::Symbol,
    value: Ref,
) -> bool {
    let oaddr = obj.addr_of(pre);
    let ofs = struct_fields(pre.store.vals@, oaddr);
    let nfs = struct_fields(post.store.vals@, oaddr);
    &&& !obj.poisoned_in(pre) && !field.0.poisoned_in(pre) && !value.poisoned_in(pre)
    &&& in_dom(pre.store.vals@, oaddr) && at(pre.store.vals@, oaddr) is StructVal
    &&& at(post.store.vals@, oaddr) is StructVal
    &&& at(post.store.vals@, oaddr)->StructVal_0.ty == at(pre.store.vals@, oaddr)->StructVal_0.ty
    &&& at(post.store.vals@, oaddr)->StructVal_0.typename == at(
        pre.store.vals@,
        oaddr,
    )->StructVal_0.typename
    &&& crate::api::sym::sym_name_of(pre.store.vals@, field.0.addr_of(pre)) matches Some(nm)
        && exists|i: int|
        {
            &&& #[trigger] first_field(ofs, nm, i)
            &&& nfs.len() == ofs.len()
            &&& (forall|j: int| 0 <= j < nfs.len() && j != i ==> nfs[j] == ofs[j])
            &&& nfs[i].name@ == nm
            &&& nfs[i].value == value.addr_of(pre)
        }
    &&& post.store.vals@.len() == pre.store.vals@.len()
    &&& forall|a: usize|
        in_dom(pre.store.vals@, a) && a != oaddr ==> at(post.store.vals@, a) == at(
            pre.store.vals@,
            a,
        )
    &&& post == (Julia { store: post.store, ..pre })
}

impl Ref {
    /// Returns the type of the guarded value as a datatype handle.  Fails
    /// with `PoisonError` through a poisoned guard, and with
    /// `NullPointer` where the model registers no datatype object for the
    /// value's kind.
    pub fn datatype(&self, rt: &mut Julia) -> (r: Result<crate::api::datatype::Datatype, Error>)
        requires
            self.live(*old(rt)),
        ensures
            match r {
                Ok(dt) => {
                    &&& !self.poisoned_in(*old(rt))
                    &&& datatype_addr_of(*old(rt), self.addr_of(*old(rt))) matches Some(ta)
                        && crate::api::datatype::minted(*old(rt), *final(rt), dt.0, ta)
                },
                Err(e) => *final(rt) == *old(rt) && ((e == Error::PoisonError && self.poisoned_in(
                    *old(rt),
                )) || (e == Error::NullPointer && !self.poisoned_in(*old(rt)) && datatype_addr_of(
                    *old(rt),
                    self.addr_of(*old(rt)),
                ) is None)),
            },
    {
        let addr = match self.lock(rt) {
            Ok(a) => a,
            Err(e) => {
                return Err(e);
            },
        };
        let ta: Option<usize> = match rt.store.get(addr) {
            None => None,
            Some(d) => match d {
                JlData::Nothing => Some(rt.wk.void),
                JlData::Bool(_) => Some(rt.wk.boolean),
                JlData::Char(_) => Some(rt.wk.character),
                JlData::Int8(_) => Some(rt.wk.int8),
                JlData::Int16(_) => Some(rt.wk.int16),
                JlData::Int32(_) => Some(rt.wk.int32),
                JlData::Int64(_) => Some(rt.wk.int64),
                JlData::Isize(_) => Some(rt.wk.int64),
                JlData::UInt8(_) => Some(rt.wk.uint8),
                JlData::UInt16(_) => Some(rt.wk.uint16),
                JlData::UInt32(_) => Some(rt.wk.uint32),
                JlData::UInt64(_) => Some(rt.wk.uint64),
                JlData::Usize(_) => Some(rt.wk.uint64),
                JlData::StructVal(s) => if s.ty == 0 {
                    None
                } else {
                    Some(s.ty)
                },
                JlData::Bits(b) => if b.ty == 0 {
                    None
                } else {
                    Some(b.ty)
                },
                _ => None,
            },
        };
        match ta {
            Some(a) => Ok(crate::api::datatype::Datatype(Ref::wrap(rt, a))),
            None => Err(Error::NullPointer),
        }
    }

    /// Checks if the guarded value is an instance of the given datatype.
    pub fn isa(&self, dt: &crate::api::datatype::Datatype, rt: &Julia) -> (r: Result<bool, Error>)
        requires
            self.live(*rt),
            dt.0.live(*rt),
        ensures
            match r {
                Ok(b) => {
                    &&& !self.poisoned_in(*rt) && !dt.0.poisoned_in(*rt)
                    &&& b == isa_spec(*rt, self.addr_of(*rt), dt.0.addr_of(*rt))
                },
                Err(e) => (self.poisoned_in(*rt) || dt.0.poisoned_in(*rt)) && e
                    == Error::PoisonError,
            },
    {
        let vaddr = match self.lock(rt) {
            Ok(a) => a,
            Err(e) => {
                return Err(e);
            },
        };
        let taddr = match dt.0.lock(rt) {
            Ok(a) => a,
            Err(e) => {
                return Err(e);
            },
        };
        if taddr == rt.wk.any {
            return Ok(true);
        }
        let da: Option<usize> = match rt.store.get(vaddr) {
            None => None,
            Some(d) => match d {
                JlData::Nothing => Some(rt.wk.void),
                JlData::Bool(_) => Some(rt.wk.boolean),
                JlData::Char(_) => Some(rt.wk.character),
                JlData::Int8(_) => Some(rt.wk.int8),
                JlData::Int16(_) => Some(rt.wk.int16),
                JlData::Int32(_) => Some(rt.wk.int32),
                JlData::Int64(_) => Some(rt.wk.int64),
                JlData::Isize(_) => Some(rt.wk.int64),
                JlData::UInt8(_) => Some(rt.wk.uint8),
                JlData::UInt16(_) => Some(rt.wk.uint16),
                JlData::UInt32(_) => Some(rt.wk.uint32),
                JlData::UInt64(_) => Some(rt.wk.uint64),
                JlData::Usize(_) => Some(rt.wk.uint64),
                JlData::StructVal(s) => if s.ty == 0 {
                    None
                } else {
                    Some(s.ty)
                },
                JlData::Bits(b) => if b.ty == 0 {
                    None
                } else {
                    Some(b.ty)
                },
                _ => None,
            },
        };
        match da {
            None => Ok(false),
            Some(a) => Ok(subtype_walk(rt, a, taddr)),
        }
    }

    /// Returns the value of a field if it exists.  Fails with
    /// `InvalidSymbol` exactly when the object has no field of that name —
    /// or no fields at all — and with nothing else when the field exists.
    pub fn get(&self, rt: &mut Julia, field: &crate::api::sym::Symbol) -> (r: Result<Ref, Error>)
        requires
            self.live(*old(rt)),
            field.0.live(*old(rt)),
        ensures
            match r {
                Ok(v) => field_found(*old(rt), *final(rt), *self, *field, v),
                Err(e) => *final(rt) == *old(rt) && ((e == Error::PoisonError && (self.poisoned_in(
                    *old(rt),
                ) || field.0.poisoned_in(*old(rt)))) || (e == Error::InvalidSymbol
                    && !self.poisoned_in(*old(rt)) && !field.0.poisoned_in(*old(rt))
                    && field_absent(*old(rt), *self, *field))),
            },
    {
        let addr = match self.lock(rt) {
            Ok(a) => a,
            Err(e) => {
                return Err(e);
            },
        };
        let symaddr = match field.0.lock(rt) {
            Ok(a) => a,
            Err(e) => {
                return Err(e);
            },
        };
        let name = match rt.store.get(symaddr) {
            Some(JlData::Sym(s)) => s.clone(),
            _ => {
                return Err(Error::InvalidSymbol);
            },
        };
        let idx: Option<usize> = match rt.store.get(addr) {
            Some(JlData::StructVal(s)) => find_field(&s.fields, name.as_str()),
            _ => None,
        };
        match idx {
            Some(i) => {
                let va = match rt.store.get(addr) {
                    Some(JlData::StructVal(s)) => s.fields[i].value,
                    _ => {
                        proof {
                            assert(false);
                        }
                        0
                    },
                };
                let v = Ref::wrap(rt, va);
                proof {
                    let nm = crate::api::sym::sym_name_of(
                        old(rt).store.vals@,
                        field.0.addr_of(*old(rt)),
                    )->Some_0;
                    assert(nm == name@);
                    assert(first_field(
                        struct_fields(old(rt).store.vals@, self.addr_of(*old(rt))),
                        nm,
                        i as int,
                    ));
                    assert(crate::api::datatype::minted(
                        *old(rt),
                        *rt,
                        v,
                        struct_fields(old(rt).store.vals@, self.addr_of(*old(rt)))[i as int].value,
                    ));
                }
                Ok(v)
            },
            None => Err(Error::InvalidSymbol),
        }
    }

    /// Sets the value of a field if it exists.  Fails with
    /// `InvalidSymbol` exactly when the object has no field of that name,
    /// and with nothing else when the field exists.
    pub fn set(
        &self,
        rt: &mut Julia,
        field: &crate::api::sym::Symbol,
        value: &Ref,
    ) -> (r: Result<(), Error>)
        requires
            self.live(*old(rt)),
            field.0.live(*old(rt)),
            value.live(*old(rt)),
        ensures
            match r {
                Ok(_) => field_set_done(*old(rt), *final(rt), *self, *field, *value),
                Err(e) => *final(rt) == *old(rt) && ((e == Error::PoisonError && (self.poisoned_in(
                    *old(rt),
                ) || field.0.poisoned_in(*old(rt)) || value.poisoned_in(*old(rt)))) || (e
                    == Error::InvalidSymbol && !self.poisoned_in(*old(rt))
                    && !field.0.poisoned_in(*old(rt)) && !value.poisoned_in(*old(rt))
                    && field_absent(*old(rt), *self, *field))),
            },
    {
        let addr = match self.lock(rt) {
            Ok(a) => a,
            Err(e) => {
                return Err(e);
            },
        };
        let symaddr = match field.0.lock(rt) {
            Ok(a) => a,
            Err(e) => {
                return Err(e);
            },
        };
        let vaddr = match value.lock(rt) {
            Ok(a) => a,
            Err(e) => {
                return Err(e);
            },
        };
        let name = match rt.store.get(symaddr) {
            Some(JlData::Sym(s)) => s.clone(),
            _ => {
                return Err(Error::InvalidSymbol);
            },
        };
        let idx: Option<usize> = match rt.store.get(addr) {
            Some(JlData::StructVal(s)) => find_field(&s.fields, name.as_str()),
            _ => None,
        };
        let i = match idx {
            Some(i) => i,
            None => {
                return Err(Error::InvalidSymbol);
            },
        };
        let data = rt.store.swap(addr, JlData::Nothing);
        match data {
            JlData::StructVal(s) => {
                let mut s = s;
                let ghost ofs = s.fields@;
                s.fields[i] = crate::api::heap::FieldVal { name, value: vaddr };
                let ghost nfs = s.fields@;
                rt.store.put(addr, JlData::StructVal(s));
                proof {
                    let nm = crate::api::sym::sym_name_of(
                        old(rt).store.vals@,
                        field.0.addr_of(*old(rt)),
                    )->Some_0;
                    assert(nm == name@);
                    assert(first_field(
                        struct_fields(old(rt).store.vals@, self.addr_of(*old(rt))),
                        nm,
                        i as int,
                    ));
                    assert(struct_fields(rt.store.vals@, self.addr_of(*old(rt))) == nfs);
                    assert(forall|j: int| 0 <= j < nfs.len() && j != i as int ==> nfs[j] == ofs[j]);
                }
                Ok(())
            },
            _ => {
                proof {
                    assert(false);
                }
                rt.store.put(addr, data);
                Ok(())
            },
        }
    }

    /// Add a finalizer: a function the collector will run when the object
    /// is collected, under the collector's own scheduling.
    pub fn add_finalizer(&self, f: &Ref, rt: &mut Julia) -> (r: Result<(), Error>)
        requires
            self.live(*old(rt)),
            f.live(*old(rt)),
        ensures
            match r {
                Ok(_) => {
                    &&& !self.poisoned_in(*old(rt)) && !f.poisoned_in(*old(rt))
                    &&& final(rt).finalizers@ == old(rt).finalizers@.push(
                        (self.addr_of(*old(rt)), f.addr_of(*old(rt))),
                    )
                    &&& *final(rt) == (Julia { finalizers: final(rt).finalizers, ..*old(rt) })
                },
                Err(e) => (self.poisoned_in(*old(rt)) || f.poisoned_in(*old(rt))) && e
                    == Error::PoisonError && *final(rt) == *old(rt),
            },
    {
        let a = match self.lock(rt) {
            Ok(a) => a,
            Err(e) => {
                return Err(e);
            },
        };
        let fa = match f.lock(rt) {
            Ok(a) => a,
            Err(e) => {
                return Err(e);
            },
        };
        rt.finalizers.push((a, fa));
        Ok(())
    }

    /// Consume the handle and force the object's finalization.  The
    /// handle must be the sole remaining owner, exactly as for
    /// `into_inner`.
    pub fn finalize(self, rt: &mut Julia) -> (r: Result<(), Error>)
        requires
            self.live(*old(rt)),
        ensures
            final(rt).cells.slots@ == old(rt).cells.slots@.update(
                self.cell as int,
                dropped(self.state(*old(rt))),
            ),
            match r {
                Ok(_) => {
                    &&& take_result(self.state(*old(rt))) == Ok::<usize, Error>(
                        self.addr_of(*old(rt)),
                    )
                    &&& final(rt).finalized@ == old(rt).finalized@.push(self.addr_of(*old(rt)))
                    &&& *final(rt) == (Julia {
                        cells: final(rt).cells,
                        finalized: final(rt).finalized,
                        ..*old(rt)
                    })
                },
                Err(e) => {
                    &&& take_result(self.state(*old(rt))) == Err::<usize, Error>(e)
                    &&& *final(rt) == (Julia { cells: final(rt).cells, ..*old(rt) })
                },
            },
    {
        let ghost me = self;
        match self.into_inner(rt) {
            Ok(addr) => {
                rt.finalized.push(addr);
                Ok(())
            },
            Err(e) => Err(e),
        }
    }
}

} // verus!
