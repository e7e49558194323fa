//! Wrappers for the native type-types: datatypes, unions and the builder
//! that registers brand-new foreign types.

use vstd::prelude::*;

verus! {

use crate::api::array::{array_made, Array, Svec};
use crate::api::cells::CellState;
use crate::api::exception::Exception;
use crate::api::heap::{at, in_dom, BitsData, DtyData, FieldVal, JlData, StructData};
use crate::api::reference::Ref;
use crate::api::sym::valid_symbol_name;
use crate::api::Julia;
use crate::error::Error;

/// The kind of a variable-argument marker in a type signature.
#[derive(Debug, Clone, Copy, Hash, PartialEq, Eq, Structural)]
pub enum VarargKind {
    NoVararg,
    Int,
    Bound,
    Unbound,
}

impl VarargKind {
    /// The kind encoded by the foreign runtime's numeric code, if any.
    pub fn from_code(kind: u32) -> (r: Option<VarargKind>)
        ensures
            r == match kind {
                0u32 => Some(VarargKind::NoVararg),
                1u32 => Some(VarargKind::Int),
                2u32 => Some(VarargKind::Bound),
                3u32 => Some(VarargKind::Unbound),
                _ => None::<VarargKind>,
            },
    {
        match kind {
            0 => Some(VarargKind::NoVararg),
            1 => Some(VarargKind::Int),
            2 => Some(VarargKind::Bound),
            3 => Some(VarargKind::Unbound),
            _ => None,
        }
    }
}

/// A handle viewed as a datatype.
#[derive(Debug, PartialEq, Eq, Structural)]
pub struct Datatype(pub Ref);

/// A handle viewed as a union type.
#[derive(Debug, PartialEq, Eq, Structural)]
pub struct Union(pub Ref);

/// A handle viewed as a type constructor to be applied.
#[derive(Debug, PartialEq, Eq, Structural)]
pub struct Type(pub Ref);

/// What every well-known singleton accessor ensures: a fresh single-owner
/// handle on the given address, and nothing else of the context moved.
pub open spec fn minted(pre: Julia, post: Julia, r: Ref, addr: usize) -> bool {
    &&& r.cell == pre.cells.slots@.len()
    &&& post.cells.slots@ == pre.cells.slots@.push(CellState { addr, count: 1, poisoned: false })
    &&& post == (Julia { cells: post.cells, ..pre })
}

impl Datatype {
    /// The `Any` type.
    pub fn any(rt: &mut Julia) -> (r: Datatype)
        ensures
            minted(*old(rt), *final(rt), r.0, old(rt).wk.any),
    {
        Datatype(Ref::wrap(rt, rt.wk.any))
    }

    /// The `Number` type.
    pub fn number(rt: &mut Julia) -> (r: Datatype)
        ensures
            minted(*old(rt), *final(rt), r.0, old(rt).wk.number),
    {
        Datatype(Ref::wrap(rt, rt.wk.number))
    }

    /// The `Signed` type.
    pub fn signed(rt: &mut Julia) -> (r: Datatype)
        ensures
            minted(*old(rt), *final(rt), r.0, old(rt).wk.signed),
    {
        Datatype(Ref::wrap(rt, rt.wk.signed))
    }

    /// The `AbstractFloat` type.
    pub fn abstract_float(rt: &mut Julia) -> (r: Datatype)
        ensures
            minted(*old(rt), *final(rt), r.0, old(rt).wk.abstract_float),
    {
        Datatype(Ref::wrap(rt, rt.wk.abstract_float))
    }

    /// The `Bool` type.
    pub fn bool(rt: &mut Julia) -> (r: Datatype)
        ensures
            minted(*old(rt), *final(rt), r.0, old(rt).wk.boolean),
    {
        Datatype(Ref::wrap(rt, rt.wk.boolean))
    }

    /// The `Char` type.
    pub fn char(rt: &mut Julia) -> (r: Datatype)
        ensures
            minted(*old(rt), *final(rt), r.0, old(rt).wk.character),
    {
        Datatype(Ref::wrap(rt, rt.wk.character))
    }

    /// The `Int8` type.
    pub fn int8(rt: &mut Julia) -> (r: Datatype)
        ensures
            minted(*old(rt), *final(rt), r.0, old(rt).wk.int8),
    {
        Datatype(Ref::wrap(rt, rt.wk.int8))
    }

    /// The `UInt8` type.
    pub fn uint8(rt: &mut Julia) -> (r: Datatype)
        ensures
            minted(*old(rt), *final(rt), r.0, old(rt).wk.uint8),
    {
        Datatype(Ref::wrap(rt, rt.wk.uint8))
    }

    /// The `Int16` type.
    pub fn int16(rt: &mut Julia) -> (r: Datatype)
        ensures
            minted(*old(rt), *final(rt), r.0, old(rt).wk.int16),
    {
        Datatype(Ref::wrap(rt, rt.wk.int16))
    }

    /// The `UInt16` type.
    pub fn uint16(rt: &mut Julia) -> (r: Datatype)
        ensures
            minted(*old(rt), *final(rt), r.0, old(rt).wk.uint16),
    {
        Datatype(Ref::wrap(rt, rt.wk.uint16))
    }

    /// The `Int32` type.
    pub fn int32(rt: &mut Julia) -> (r: Datatype)
        ensures
            minted(*old(rt), *final(rt), r.0, old(rt).wk.int32),
    {
        Datatype(Ref::wrap(rt, rt.wk.int32))
    }

    /// The `UInt32` type.
    pub fn uint32(rt: &mut Julia) -> (r: Datatype)
        ensures
            minted(*old(rt), *final(rt), r.0, old(rt).wk.uint32),
    {
        Datatype(Ref::wrap(rt, rt.wk.uint32))
    }

    /// The `Int64` type.
    pub fn int64(rt: &mut Julia) -> (r: Datatype)
        ensures
            minted(*old(rt), *final(rt), r.0, old(rt).wk.int64),
    {
        Datatype(Ref::wrap(rt, rt.wk.int64))
    }

    /// The `UInt64` type.
    pub fn uint64(rt: &mut Julia) -> (r: Datatype)
        ensures
            minted(*old(rt), *final(rt), r.0, old(rt).wk.uint64),
    {
        Datatype(Ref::wrap(rt, rt.wk.uint64))
    }

    /// The `Float16` type.
    pub fn float16(rt: &mut Julia) -> (r: Datatype)
        ensures
            minted(*old(rt), *final(rt), r.0, old(rt).wk.float16),
    {
        Datatype(Ref::wrap(rt, rt.wk.float16))
    }

    /// The `Float32` type.
    pub fn float32(rt: &mut Julia) -> (r: Datatype)
        ensures
            minted(*old(rt), *final(rt), r.0, old(rt).wk.float32),
    {
        Datatype(Ref::wrap(rt, rt.wk.float32))
    }

    /// The `Float64` type.
    pub fn float64(rt: &mut Julia) -> (r: Datatype)
        ensures
            minted(*old(rt), *final(rt), r.0, old(rt).wk.float64),
    {
        Datatype(Ref::wrap(rt, rt.wk.float64))
    }

    /// The `Void` type.
    pub fn void(rt: &mut Julia) -> (r: Datatype)
        ensures
            minted(*old(rt), *final(rt), r.0, old(rt).wk.void),
    {
        Datatype(Ref::wrap(rt, rt.wk.void))
    }

    /// The `Complex` type.
    pub fn complex(rt: &mut Julia) -> (r: Datatype)
        ensures
            minted(*old(rt), *final(rt), r.0, old(rt).wk.complex),
    {
        Datatype(Ref::wrap(rt, rt.wk.complex))
    }

    /// The raw pointer type.
    pub fn void_pointer(rt: &mut Julia) -> (r: Datatype)
        ensures
            minted(*old(rt), *final(rt), r.0, old(rt).wk.void_pointer),
    {
        Datatype(Ref::wrap(rt, rt.wk.void_pointer))
    }

    /// The pointer type.
    pub fn pointer(rt: &mut Julia) -> (r: Datatype)
        ensures
            minted(*old(rt), *final(rt), r.0, old(rt).wk.pointer),
    {
        Datatype(Ref::wrap(rt, rt.wk.pointer))
    }

    /// Whether this handle is live and really backed by a datatype.
    pub open spec fn backs_dty(self, rt: Julia) -> bool {
        &&& self.0.live(rt)
        &&& in_dom(rt.store.vals@, self.0.addr_of(rt))
        &&& at(rt.store.vals@, self.0.addr_of(rt)) is Dty
    }

    /// Creates a new instance of this concrete type from positional field
    /// values.  A wrong number of values raises a `Type`-classified
    /// exception through the bridge, as the foreign constructor does.
    pub fn new_struct(&self, rt: &mut Julia, params: &Vec<Ref>) -> (r: Result<Ref, Error>)
        requires
            self.backs_dty(*old(rt)),
            forall|i: int| 0 <= i < params@.len() ==> (#[trigger] params@[i]).live(*old(rt)),
        ensures
            match r {
                Ok(v) => {
                    &&& !self.0.poisoned_in(*old(rt))
                    &&& forall|i: int|
                        0 <= i < params@.len() ==> !(#[trigger] params@[i]).poisoned_in(*old(rt))
                    &&& params@.len() == at(
                        old(rt).store.vals@,
                        self.0.addr_of(*old(rt)),
                    )->Dty_0.fnames@.len()
                    &&& struct_made(
                        *old(rt),
                        *final(rt),
                        v,
                        self.0.addr_of(*old(rt)),
                        Seq::new(params@.len(), |i: int| params@[i].addr_of(*old(rt))),
                    )
                },
                Err(e) => {
                    ||| (e == Error::PoisonError && *final(rt) == *old(rt) && (
                    self.0.poisoned_in(*old(rt)) || exists|i: int|
                        0 <= i < params@.len() && (#[trigger] params@[i]).poisoned_in(*old(rt))))
                    ||| (params@.len() != at(
                        old(rt).store.vals@,
                        self.0.addr_of(*old(rt)),
                    )->Dty_0.fnames@.len() && type_fault(*old(rt), *final(rt), e))
                },
            },
    {
        let dtaddr = match self.0.lock(rt) {
            Ok(a) => a,
            Err(e) => {
                return Err(e);
            },
        };
        let mut addrs: Vec<usize> = Vec::new();
        let n = params.len();
        let mut i: usize = 0;
        while i < n
            invariant
                n == params@.len(),
                i <= n,
                forall|k: int| 0 <= k < n ==> (#[trigger] params@[k]).live(*rt),
                addrs@.len() == i,
                forall|k: int|
                    0 <= k < i ==> !(#[trigger] params@[k]).poisoned_in(*rt) && addrs@[k]
                        == params@[k].addr_of(*rt),
            decreases n - i,
        {
            match params[i].lock(rt) {
                Ok(a) => {
                    addrs.push(a);
                },
                Err(e) => {
                    return Err(e);
                },
            }
            i += 1;
        }
        let info: Option<(String, Vec<FieldVal>)> = match rt.store.get(dtaddr) {
            Some(JlData::Dty(d)) => {
                if params.len() != d.fnames.len() {
                    None
                } else {
                    let mut fields: Vec<FieldVal> = Vec::new();
                    let m = d.fnames.len();
                    let mut k: usize = 0;
                    while k < m
                        invariant
                            m == d.fnames@.len(),
                            k <= m,
                            addrs@.len() == m,
                            fields@.len() == k,
                            forall|j: int|
                                0 <= j < k ==> (#[trigger] fields@[j]).name@ == d.fnames@[j]@
                                    && fields@[j].value == addrs@[j],
                        decreases m - k,
                    {
                        fields.push(FieldVal { name: d.fnames[k].clone(), value: addrs[k] });
                        k += 1;
                    }
                    Some((d.name.clone(), fields))
                }
            },
            _ => {
                proof {
                    assert(false);
                }
                None
            },
        };
        match info {
            Some((tn, fields)) => {
                let v = rt.wrap_value(
                    JlData::StructVal(StructData { ty: dtaddr, typename: tn, fields }),
                );
                proof {
                    assert(Seq::new(params@.len(), |i: int| params@[i].addr_of(*old(rt))) =~= addrs@);
                }
                Ok(v)
            },
            None => Err(raise_type_fault(rt)),
        }
    }

    /// Creates a new one-dimensional array of this element type, holding
    /// the given values.  What the values are instances of is the foreign
    /// runtime's affair; the model records them as given.
    pub fn new_array(&self, rt: &mut Julia, params: &Vec<Ref>) -> (r: Result<Array, Error>)
        requires
            self.0.live(*old(rt)),
            forall|i: int| 0 <= i < params@.len() ==> (#[trigger] params@[i]).live(*old(rt)),
        ensures
            match r {
                Ok(arr) => {
                    &&& !self.0.poisoned_in(*old(rt))
                    &&& forall|i: int|
                        0 <= i < params@.len() ==> !(#[trigger] params@[i]).poisoned_in(*old(rt))
                    &&& array_made(
                        *old(rt),
                        *final(rt),
                        arr,
                        self.0.addr_of(*old(rt)),
                        Seq::new(params@.len(), |i: int| params@[i].addr_of(*old(rt))),
                    )
                },
                Err(e) => {
                    &&& e == Error::PoisonError
                    &&& *final(rt) == *old(rt)
                    &&& self.0.poisoned_in(*old(rt)) || exists|i: int|
                        0 <= i < params@.len() && (#[trigger] params@[i]).poisoned_in(*old(rt))
                },
            },
    {
        let tyaddr = match self.0.lock(rt) {
            Ok(a) => a,
            Err(e) => {
                return Err(e);
            },
        };
        let mut addrs: Vec<usize> = Vec::new();
        let n = params.len();
        let mut i: usize = 0;
        while i < n
            invariant
                n == params@.len(),
                i <= n,
                forall|k: int| 0 <= k < n ==> (#[trigger] params@[k]).live(*rt),
                addrs@.len() == i,
                forall|k: int|
                    0 <= k < i ==> !(#[trigger] params@[k]).poisoned_in(*rt) && addrs@[k]
                        == params@[k].addr_of(*rt),
            decreases n - i,
        {
            match params[i].lock(rt) {
                Ok(a) => {
                    addrs.push(a);
                },
                Err(e) => {
                    return Err(e);
                },
            }
            i += 1;
        }
        proof {
            assert(Seq::new(params@.len(), |i: int| params@[i].addr_of(*rt)) =~= addrs@);
        }
        Ok(
            Array(
                rt.wrap_value(
                    JlData::Array(crate::api::heap::ArrayData { ty: tyaddr, elems: addrs }),
                ),
            ),
        )
    }

    /// Creates a new instance of this primitive type from raw bits.
    pub fn new_bits(&self, rt: &mut Julia, data: Vec<u8>) -> (r: Result<Ref, Error>)
        requires
            self.backs_dty(*old(rt)),
        ensures
            match r {
                Ok(v) => !self.0.poisoned_in(*old(rt)) && bits_made(
                    *old(rt),
                    *final(rt),
                    v,
                    self.0.addr_of(*old(rt)),
                    data@,
                ),
                Err(e) => self.0.poisoned_in(*old(rt)) && e == Error::PoisonError && *final(rt)
                    == *old(rt),
            },
    {
        let dtaddr = match self.0.lock(rt) {
            Ok(a) => a,
            Err(e) => {
                return Err(e);
            },
        };
        let tn = match rt.store.get(dtaddr) {
            Some(JlData::Dty(d)) => d.name.clone(),
            _ => {
                proof {
                    assert(false);
                }
                String::new()
            },
        };
        Ok(rt.wrap_value(JlData::Bits(BitsData { ty: dtaddr, typename: tn, data })))
    }
}

/// What constructing a struct instance does: the heap grows by one
/// instance of the datatype at `dtaddr` whose fields carry the
/// datatype's field names and the given value addresses in order,
/// wrapped in a fresh single-owner handle.
pub open spec fn struct_made(pre: Julia, post: Julia, v: Ref, dtaddr: usize, args: Seq<usize>) -> bool {
    &&& post.store.vals@.len() == pre.store.vals@.len() + 1
    &&& forall|a: usize|
        in_dom(pre.store.vals@, a) ==> at(post.store.vals@, a) == at(pre.store.vals@, a)
    &&& v.cell == pre.cells.slots@.len()
    &&& post.cells.slots@ == pre.cells.slots@.push(
        CellState { addr: (pre.store.vals@.len() + 1) as usize, count: 1, poisoned: false },
    )
    &&& at(post.store.vals@, (pre.store.vals@.len() + 1) as usize) matches JlData::StructVal(s) && {
        &&& s.ty == dtaddr
        &&& s.typename@ == at(pre.store.vals@, dtaddr)->Dty_0.name@
        &&& s.fields@.len() == args.len()
        &&& forall|i: int|
            0 <= i < args.len() ==> (#[trigger] s.fields@[i]).name@ == at(
                pre.store.vals@,
                dtaddr,
            )->Dty_0.fnames@[i]@ && s.fields@[i].value == args[i]
    }
    &&& post == (Julia { store: post.store, cells: post.cells, ..pre })
}

/// What a fabricated `TypeError` fault looks like: the heap grows by one
/// fault object wrapped in a fresh handle, carried in the error already
/// classified, with the pending slot drained.
pub open spec fn type_fault(pre: Julia, post: Julia, e: Error) -> bool {
    &&& post.store.vals@.len() == pre.store.vals@.len() + 1
    &&& forall|a: usize|
        in_dom(pre.store.vals@, a) ==> at(post.store.vals@, a) == at(pre.store.vals@, a)
    &&& post.cells.slots@ == pre.cells.slots@.push(
        CellState { addr: (pre.store.vals@.len() + 1) as usize, count: 1, poisoned: false },
    )
    &&& e == Error::UnhandledException(
        Exception::Type(Ref { cell: pre.cells.slots@.len() as usize }),
    )
    &&& post == (Julia { store: post.store, cells: post.cells, ..pre })
}

/// What a fabricated `ErrorException` fault looks like.
pub open spec fn error_fault(pre: Julia, post: Julia, e: Error) -> bool {
    &&& post.store.vals@.len() == pre.store.vals@.len() + 1
    &&& forall|a: usize|
        in_dom(pre.store.vals@, a) ==> at(post.store.vals@, a) == at(pre.store.vals@, a)
    &&& post.cells.slots@ == pre.cells.slots@.push(
        CellState { addr: (pre.store.vals@.len() + 1) as usize, count: 1, poisoned: false },
    )
    &&& e == Error::UnhandledException(
        Exception::Error(Ref { cell: pre.cells.slots@.len() as usize }),
    )
    &&& post == (Julia { store: post.store, cells: post.cells, ..pre })
}

/// Fabricate the fault a foreign type mismatch raises, drained and
/// classified.
fn raise_type_fault(rt: &mut Julia) -> (e: Error)
    ensures
        type_fault(*old(rt), *final(rt), e),
{
    let fields: Vec<FieldVal> = Vec::new();
    let ex = rt.wrap_value(
        JlData::StructVal(StructData { ty: 0, typename: String::from_str("TypeError"), fields }),
    );
    Error::UnhandledException(Exception::Type(ex))
}

/// Fabricate the fault a foreign argument error raises, drained and
/// classified.
fn raise_error_fault(rt: &mut Julia) -> (e: Error)
    ensures
        error_fault(*old(rt), *final(rt), e),
{
    let fields: Vec<FieldVal> = Vec::new();
    let ex = rt.wrap_value(
        JlData::StructVal(
            StructData { ty: 0, typename: String::from_str("ErrorException"), fields },
        ),
    );
    Error::UnhandledException(Exception::Error(ex))
}

impl Union {
    /// Create a union of types.
    pub fn union(rt: &mut Julia, ts: &Vec<Datatype>) -> (r: Result<Union, Error>)
        requires
            forall|i: int| 0 <= i < ts@.len() ==> (#[trigger] ts@[i]).0.live(*old(rt)),
        ensures
            match r {
                Ok(u) => {
                    &&& forall|i: int|
                        0 <= i < ts@.len() ==> !(#[trigger] ts@[i]).0.poisoned_in(*old(rt))
                    &&& union_made(
                        *old(rt),
                        *final(rt),
                        u,
                        Seq::new(ts@.len(), |i: int| ts@[i].0.addr_of(*old(rt))),
                    )
                },
                Err(e) => {
                    &&& e == Error::PoisonError
                    &&& *final(rt) == *old(rt)
                    &&& exists|i: int|
                        0 <= i < ts@.len() && (#[trigger] ts@[i]).0.poisoned_in(*old(rt))
                },
            },
    {
        let mut addrs: Vec<usize> = Vec::new();
        let n = ts.len();
        let mut i: usize = 0;
        while i < n
            invariant
                n == ts@.len(),
                i <= n,
                forall|k: int| 0 <= k < n ==> (#[trigger] ts@[k]).0.live(*rt),
                addrs@.len() == i,
                forall|k: int|
                    0 <= k < i ==> !(#[trigger] ts@[k]).0.poisoned_in(*rt) && addrs@[k]
                        == ts@[k].0.addr_of(*rt),
            decreases n - i,
        {
            match ts[i].0.lock(rt) {
                Ok(a) => {
                    addrs.push(a);
                },
                Err(e) => {
                    return Err(e);
                },
            }
            i += 1;
        }
        proof {
            assert(Seq::new(ts@.len(), |i: int| ts@[i].0.addr_of(*rt)) =~= addrs@);
        }
        Ok(Union(rt.wrap_value(JlData::UnionTy(addrs))))
    }
}

/// The element addresses of an optionally supplied simple vector: absent,
/// or backed by something else, it reads as empty.
pub open spec fn opt_svec_elems(h: Seq<JlData>, o: Option<usize>) -> Seq<usize> {
    match o {
        None => Seq::<usize>::empty(),
        Some(a) => if in_dom(h, a) && at(h, a) is Svec {
            at(h, a)->Svec_0@
        } else {
            Seq::<usize>::empty()
        },
    }
}

/// Whether every address names an interned symbol.
pub open spec fn all_named_syms(h: Seq<JlData>, elems: Seq<usize>) -> bool {
    forall|i: int|
        0 <= i < elems.len() ==> in_dom(h, #[trigger] elems[i]) && at(h, elems[i]) is Sym
}

/// What registering a datatype does: the heap grows by one datatype with
/// the given name, supertype, parameters, field names (given as symbol
/// addresses, stored as their names), field types and flags, wrapped in a
/// fresh single-owner handle.
pub open spec fn dty_made(
    pre: Julia,
    post: Julia,
    r: Datatype,
    name: Seq<char>,
    supertype: usize,
    params: Seq<usize>,
    fname_addrs: Seq<usize>,
    ftypes: Seq<usize>,
    is_abstract: bool,
    is_mutable: bool,
    is_primitive: bool,
    nbits: usize,
    ninitialized: bool,
) -> bool {
    &&& post.store.vals@.len() == pre.store.vals@.len() + 1
    &&& forall|a: usize|
        in_dom(pre.store.vals@, a) ==> at(post.store.vals@, a) == at(pre.store.vals@, a)
    &&& r.0.cell == pre.cells.slots@.len()
    &&& post.cells.slots@ == pre.cells.slots@.push(
        CellState { addr: (pre.store.vals@.len() + 1) as usize, count: 1, poisoned: false },
    )
    &&& at(post.store.vals@, (pre.store.vals@.len() + 1) as usize) matches JlData::Dty(d) && {
        &&& d.name@ == name
        &&& d.supertype == supertype
        &&& d.params@ == params
        &&& d.fnames@.len() == fname_addrs.len()
        &&& forall|i: int|
            0 <= i < fname_addrs.len() ==> (#[trigger] d.fnames@[i])@ == at(
                pre.store.vals@,
                fname_addrs[i],
            )->Sym_0@
        &&& d.ftypes@ == ftypes
        &&& d.is_abstract == is_abstract
        &&& d.is_mutable == is_mutable
        &&& d.is_primitive == is_primitive
        &&& d.nbits == nbits
        &&& d.ninitialized == ninitialized
    }
    &&& post == (Julia { store: post.store, cells: post.cells, ..pre })
}

/// Copy a vector of addresses.
fn copy_addrs(v: &Vec<usize>) -> (r: Vec<usize>)
    ensures
        r@ == v@,
{
    let mut out: Vec<usize> = Vec::new();
    let n = v.len();
    let mut i: usize = 0;
    while i < n
        invariant
            n == v@.len(),
            i <= n,
            out@.len() == i,
            forall|k: int| 0 <= k < i ==> out@[k] == v@[k],
        decreases n - i,
    {
        out.push(v[i]);
        i += 1;
    }
    proof {
        assert(out@ =~= v@);
    }
    out
}

/// Read the elements of an optionally supplied simple vector.
fn read_svec(rt: &Julia, o: Option<usize>) -> (r: Vec<usize>)
    ensures
        r@ == opt_svec_elems(rt.store.vals@, o),
{
    match o {
        None => Vec::new(),
        Some(a) => match rt.store.get(a) {
            Some(JlData::Svec(v)) => copy_addrs(v),
            _ => Vec::new(),
        },
    }
}

/// Type for constructing new primitive, abstract or compound types.
///
/// A builder is a transient host-side record: the fluent setters validate
/// what they can and latch the first error rather than failing, and the
/// terminal `build` step is the only point where the foreign runtime is
/// reached.
#[derive(Debug)]
pub struct TypeBuilder {
    pub name: Option<String>,
    pub supertype: usize,
    pub params: Option<usize>,
    pub fnames: Option<usize>,
    pub ftypes: Option<usize>,
    pub nbits: usize,
    pub abstrac: bool,
    pub mutable: bool,
    pub ninitialized: bool,
    pub primitive: bool,
    pub err: Option<Error>,
}

impl TypeBuilder {
    /// Construct a new default builder: no name yet, the top type as
    /// supertype, no parameters, fields or field types.
    pub fn new(rt: &Julia) -> (r: TypeBuilder)
        ensures
            r == (TypeBuilder {
                name: None,
                supertype: rt.wk.any,
                params: None,
                fnames: None,
                ftypes: None,
                nbits: 0,
                abstrac: false,
                mutable: false,
                ninitialized: false,
                primitive: false,
                err: None,
            }),
    {
        TypeBuilder {
            name: None,
            supertype: rt.wk.any,
            params: None,
            fnames: None,
            ftypes: None,
            nbits: 0,
            abstrac: false,
            mutable: false,
            ninitialized: false,
            primitive: false,
            err: None,
        }
    }

    /// Get the error if one was latched.
    pub fn err(&self) -> (r: Option<&Error>)
        ensures
            match r {
                Some(e) => self.err == Some(*e),
                None => self.err is None,
            },
    {
        self.err.as_ref()
    }

    /// Check if any error was latched.
    pub fn is_err(&self) -> (r: bool)
        ensures
            r == (self.err is Some),
    {
        matches!(self.err, Some(_))
    }

    /// Sets the name, validated against the symbol rules; an invalid name
    /// latches `InvalidSymbol`.
    pub fn name(self, name: &str) -> (r: TypeBuilder)
        ensures
            valid_symbol_name(name@) ==> (r.name matches Some(t) && t@ == name@ && r
                == (TypeBuilder { name: r.name, ..self })),
            !valid_symbol_name(name@) ==> r == (TypeBuilder {
                err: Some(Error::InvalidSymbol),
                ..self
            }),
    {
        if crate::api::sym::check_symbol_name(name) {
            TypeBuilder { name: Some(String::from_str(name)), ..self }
        } else {
            TypeBuilder { err: Some(Error::InvalidSymbol), ..self }
        }
    }

    /// Sets the supertype.  A poisoned guard latches `PoisonError`.
    pub fn supertype(self, rt: &Julia, supertype: &Datatype) -> (r: TypeBuilder)
        requires
            supertype.0.live(*rt),
        ensures
            !supertype.0.poisoned_in(*rt) ==> r == (TypeBuilder {
                supertype: supertype.0.addr_of(*rt),
                ..self
            }),
            supertype.0.poisoned_in(*rt) ==> r == (TypeBuilder {
                err: Some(Error::PoisonError),
                ..self
            }),
    {
        match supertype.0.lock(rt) {
            Ok(a) => TypeBuilder { supertype: a, ..self },
            Err(e) => TypeBuilder { err: Some(e), ..self },
        }
    }

    /// Sets the type parameters.  A poisoned guard latches `PoisonError`.
    pub fn params(self, rt: &Julia, params: &Svec) -> (r: TypeBuilder)
        requires
            params.0.live(*rt),
        ensures
            !params.0.poisoned_in(*rt) ==> r == (TypeBuilder {
                params: Some(params.0.addr_of(*rt)),
                ..self
            }),
            params.0.poisoned_in(*rt) ==> r == (TypeBuilder {
                err: Some(Error::PoisonError),
                ..self
            }),
    {
        match params.0.lock(rt) {
            Ok(a) => TypeBuilder { params: Some(a), ..self },
            Err(e) => TypeBuilder { err: Some(e), ..self },
        }
    }

    /// Sets the names of the fields.  A poisoned guard latches
    /// `PoisonError`.
    pub fn fnames(self, rt: &Julia, fnames: &Svec) -> (r: TypeBuilder)
        requires
            fnames.0.live(*rt),
        ensures
            !fnames.0.poisoned_in(*rt) ==> r == (TypeBuilder {
                fnames: Some(fnames.0.addr_of(*rt)),
                ..self
            }),
            fnames.0.poisoned_in(*rt) ==> r == (TypeBuilder {
                err: Some(Error::PoisonError),
                ..self
            }),
    {
        match fnames.0.lock(rt) {
            Ok(a) => TypeBuilder { fnames: Some(a), ..self },
            Err(e) => TypeBuilder { err: Some(e), ..self },
        }
    }

    /// Sets the types of the fields.  A poisoned guard latches
    /// `PoisonError`.
    pub fn ftypes(self, rt: &Julia, ftypes: &Svec) -> (r: TypeBuilder)
        requires
            ftypes.0.live(*rt),
        ensures
            !ftypes.0.poisoned_in(*rt) ==> r == (TypeBuilder {
                ftypes: Some(ftypes.0.addr_of(*rt)),
                ..self
            }),
            ftypes.0.poisoned_in(*rt) ==> r == (TypeBuilder {
                err: Some(Error::PoisonError),
                ..self
            }),
    {
        match ftypes.0.lock(rt) {
            Ok(a) => TypeBuilder { ftypes: Some(a), ..self },
            Err(e) => TypeBuilder { err: Some(e), ..self },
        }
    }

    /// Sets the number of bits in a primitive.  Must be a multiple of 8
    /// for `build` to succeed.
    pub fn nbits(self, nbits: usize) -> (r: TypeBuilder)
        ensures
            r == (TypeBuilder { nbits, ..self }),
    {
        TypeBuilder { nbits, ..self }
    }

    /// Sets whether the type is abstract.
    pub fn abstrac(self, abstrac: bool) -> (r: TypeBuilder)
        ensures
            r == (TypeBuilder { abstrac, ..self }),
    {
        TypeBuilder { abstrac, ..self }
    }

    /// Sets whether the struct is mutable.
    pub fn mutable(self, mutable: bool) -> (r: TypeBuilder)
        ensures
            r == (TypeBuilder { mutable, ..self }),
    {
        TypeBuilder { mutable, ..self }
    }

    /// Sets the initialized-fields flag handed to the foreign constructor.
    pub fn ninitialized(self, ninitialized: bool) -> (r: TypeBuilder)
        ensures
            r == (TypeBuilder { ninitialized, ..self }),
    {
        TypeBuilder { ninitialized, ..self }
    }

    /// Sets whether the type is a primitive.
    pub fn primitive(self, primitive: bool) -> (r: TypeBuilder)
        ensures
            r == (TypeBuilder { primitive, ..self }),
    {
        TypeBuilder { primitive, ..self }
    }

    /// Builds the type.  An error latched earlier is returned here
    /// without reaching the foreign runtime; a missing name fails with
    /// `NullPointer`; a primitive bit width that is not a positive
    /// multiple of 8, or a field name that is not a symbol, raises a
    /// classified fault through the bridge; otherwise the new datatype is
    /// registered.
    pub fn build(self, rt: &mut Julia) -> (r: Result<Datatype, Error>)
        ensures
            match r {
                Ok(dt) => ({
                    let h = old(rt).store.vals@;
                    let fna = opt_svec_elems(h, self.fnames);
                    &&& self.err is None
                    &&& self.name matches Some(n) && (if self.primitive {
                        &&& self.nbits > 0 && self.nbits % 8 == 0
                        &&& dty_made(
                            *old(rt),
                            *final(rt),
                            dt,
                            n@,
                            self.supertype,
                            opt_svec_elems(h, self.params),
                            Seq::<usize>::empty(),
                            Seq::<usize>::empty(),
                            false,
                            false,
                            true,
                            self.nbits,
                            false,
                        )
                    } else {
                        &&& all_named_syms(h, fna)
                        &&& dty_made(
                            *old(rt),
                            *final(rt),
                            dt,
                            n@,
                            self.supertype,
                            opt_svec_elems(h, self.params),
                            fna,
                            opt_svec_elems(h, self.ftypes),
                            self.abstrac,
                            self.mutable,
                            false,
                            0,
                            self.ninitialized,
                        )
                    })
                }),
                Err(e) => {
                    ||| (self.err == Some(e) && *final(rt) == *old(rt))
                    ||| (self.err is None && self.name is None && e == Error::NullPointer
                        && *final(rt) == *old(rt))
                    ||| (self.err is None && self.name is Some && self.primitive && !(self.nbits > 0
                        && self.nbits % 8 == 0) && error_fault(*old(rt), *final(rt), e))
                    ||| (self.err is None && self.name is Some && !self.primitive
                        && !all_named_syms(
                        old(rt).store.vals@,
                        opt_svec_elems(old(rt).store.vals@, self.fnames),
                    ) && type_fault(*old(rt), *final(rt), e))
                },
            },
    {
        let TypeBuilder {
            name,
            supertype,
            params,
            fnames,
            ftypes,
            nbits,
            abstrac,
            mutable,
            ninitialized,
            primitive,
            err,
        } = self;
        if let Some(e) = err {
            return Err(e);
        }
        let n = match name {
            Some(n) => n,
            None => {
                return Err(Error::NullPointer);
            },
        };
        let pelems = read_svec(rt, params);
        if primitive {
            if nbits == 0 || nbits % 8 != 0 {
                return Err(raise_error_fault(rt));
            }
            let dt = Datatype(
                rt.wrap_value(
                    JlData::Dty(
                        DtyData {
                            name: n,
                            supertype,
                            params: pelems,
                            fnames: Vec::new(),
                            ftypes: Vec::new(),
                            is_abstract: false,
                            is_mutable: false,
                            is_primitive: true,
                            nbits,
                            ninitialized: false,
                        },
                    ),
                ),
            );
            proof {
                assert(dty_made(
                    *old(rt),
                    *rt,
                    dt,
                    self.name->Some_0@,
                    self.supertype,
                    opt_svec_elems(old(rt).store.vals@, self.params),
                    Seq::<usize>::empty(),
                    Seq::<usize>::empty(),
                    false,
                    false,
                    true,
                    self.nbits,
                    false,
                ));
            }
            Ok(dt)
        } else {
            let fna = read_svec(rt, fnames);
            let mut names: Vec<String> = Vec::new();
            let m = fna.len();
            let mut k: usize = 0;
            while k < m
                invariant
                    *rt == *old(rt),
                    self.err is None,
                    self.name is Some,
                    !self.primitive,
                    fnames == self.fnames,
                    m == fna@.len(),
                    k <= m,
                    fna@ == opt_svec_elems(rt.store.vals@, fnames),
                    names@.len() == k,
                    forall|j: int|
                        0 <= j < k ==> in_dom(rt.store.vals@, #[trigger] fna@[j]) && at(
                            rt.store.vals@,
                            fna@[j],
                        ) is Sym && names@[j]@ == at(rt.store.vals@, fna@[j])->Sym_0@,
                decreases m - k,
            {
                match rt.store.get(fna[k]) {
                    Some(JlData::Sym(s)) => {
                        names.push(s.clone());
                    },
                    _ => {
                        proof {
                            let elems = opt_svec_elems(old(rt).store.vals@, fnames);
                            assert(!(in_dom(old(rt).store.vals@, elems[k as int]) && at(
                                old(rt).store.vals@,
                                elems[k as int],
                            ) is Sym));
                            assert(!all_named_syms(old(rt).store.vals@, elems));
                            assert(self.err is None);
                            assert(self.name is Some);
                            assert(!self.primitive);
                            assert(self.fnames == fnames);
                        }
                        return Err(raise_type_fault(rt));
                    },
                }
                k += 1;
            }
            let telems = read_svec(rt, ftypes);
            let dt = Datatype(
                rt.wrap_value(
                    JlData::Dty(
                        DtyData {
                            name: n,
                            supertype,
                            params: pelems,
                            fnames: names,
                            ftypes: telems,
                            is_abstract: abstrac,
                            is_mutable: mutable,
                            is_primitive: false,
                            nbits: 0,
                            ninitialized,
                        },
                    ),
                ),
            );
            proof {
                assert(all_named_syms(
                    old(rt).store.vals@,
                    opt_svec_elems(old(rt).store.vals@, self.fnames),
                ));
                assert(dty_made(
                    *old(rt),
                    *rt,
                    dt,
                    self.name->Some_0@,
                    self.supertype,
                    opt_svec_elems(old(rt).store.vals@, self.params),
                    opt_svec_elems(old(rt).store.vals@, self.fnames),
                    opt_svec_elems(old(rt).store.vals@, self.ftypes),
                    self.abstrac,
                    self.mutable,
                    false,
                    0,
                    self.ninitialized,
                ));
            }
            Ok(dt)
        }
    }
}

/// What applying a parametric type to parameters does: the heap grows by
/// one datatype that copies the applied constructor and records the
/// parameter addresses, wrapped in a fresh single-owner handle.
pub open spec fn applied_made(pre: Julia, post: Julia, t: Type, base: usize, params: Seq<usize>) -> bool {
    &&& post.store.vals@.len() == pre.store.vals@.len() + 1
    &&& forall|a: usize|
        in_dom(pre.store.vals@, a) ==> at(post.store.vals@, a) == at(pre.store.vals@, a)
    &&& t.0.cell == pre.cells.slots@.len()
    &&& post.cells.slots@ == pre.cells.slots@.push(
        CellState { addr: (pre.store.vals@.len() + 1) as usize, count: 1, poisoned: false },
    )
    &&& at(post.store.vals@, (pre.store.vals@.len() + 1) as usize) matches JlData::Dty(d) && {
        &&& d.name@ == at(pre.store.vals@, base)->Dty_0.name@
        &&& d.supertype == at(pre.store.vals@, base)->Dty_0.supertype
        &&& d.params@ == params
        &&& d.fnames@ == at(pre.store.vals@, base)->Dty_0.fnames@
        &&& d.ftypes@ == at(pre.store.vals@, base)->Dty_0.ftypes@
        &&& d.is_abstract == at(pre.store.vals@, base)->Dty_0.is_abstract
        &&& d.is_mutable == at(pre.store.vals@, base)->Dty_0.is_mutable
        &&& d.is_primitive == at(pre.store.vals@, base)->Dty_0.is_primitive
        &&& d.nbits == at(pre.store.vals@, base)->Dty_0.nbits
    }
    &&& post == (Julia { store: post.store, cells: post.cells, ..pre })
}

/// Copy a vector of names.
fn copy_names(v: &Vec<String>) -> (r: Vec<String>)
    ensures
        r@ == v@,
{
    let mut out: Vec<String> = Vec::new();
    let n = v.len();
    let mut i: usize = 0;
    while i < n
        invariant
            n == v@.len(),
            i <= n,
            out@.len() == i,
            forall|k: int| 0 <= k < i ==> out@[k] == v@[k],
        decreases n - i,
    {
        out.push(v[i].clone());
        i += 1;
    }
    proof {
        assert(out@ =~= v@);
    }
    out
}

impl Type {
    /// Whether this handle is live and really backed by a datatype that
    /// can be applied.
    pub open spec fn backs_dty(self, rt: Julia) -> bool {
        &&& self.0.live(rt)
        &&& in_dom(rt.store.vals@, self.0.addr_of(rt))
        &&& at(rt.store.vals@, self.0.addr_of(rt)) is Dty
    }

    /// Instantiate this parametric type with the given parameters.
    pub fn apply_type(&self, rt: &mut Julia, params: &Vec<Ref>) -> (r: Result<Type, Error>)
        requires
            self.backs_dty(*old(rt)),
            forall|i: int| 0 <= i < params@.len() ==> (#[trigger] params@[i]).live(*old(rt)),
        ensures
            match r {
                Ok(t) => {
                    &&& !self.0.poisoned_in(*old(rt))
                    &&& forall|i: int|
                        0 <= i < params@.len() ==> !(#[trigger] params@[i]).poisoned_in(*old(rt))
                    &&& applied_made(
                        *old(rt),
                        *final(rt),
                        t,
                        self.0.addr_of(*old(rt)),
                        Seq::new(params@.len(), |i: int| params@[i].addr_of(*old(rt))),
                    )
                },
                Err(e) => {
                    &&& e == Error::PoisonError
                    &&& *final(rt) == *old(rt)
                    &&& self.0.poisoned_in(*old(rt)) || exists|i: int|
                        0 <= i < params@.len() && (#[trigger] params@[i]).poisoned_in(*old(rt))
                },
            },
    {
        let base = match self.0.lock(rt) {
            Ok(a) => a,
            Err(e) => {
                return Err(e);
            },
        };
        let mut addrs: Vec<usize> = Vec::new();
        let n = params.len();
        let mut i: usize = 0;
        while i < n
            invariant
                n == params@.len(),
                i <= n,
                forall|k: int| 0 <= k < n ==> (#[trigger] params@[k]).live(*rt),
                addrs@.len() == i,
                forall|k: int|
                    0 <= k < i ==> !(#[trigger] params@[k]).poisoned_in(*rt) && addrs@[k]
                        == params@[k].addr_of(*rt),
            decreases n - i,
        {
            match params[i].lock(rt) {
                Ok(a) => {
                    addrs.push(a);
                },
                Err(e) => {
                    return Err(e);
                },
            }
            i += 1;
        }
        let applied: Option<DtyData> = match rt.store.get(base) {
            Some(JlData::Dty(d)) => Some(
                DtyData {
                    name: d.name.clone(),
                    supertype: d.supertype,
                    params: addrs,
                    fnames: copy_names(&d.fnames),
                    ftypes: copy_addrs(&d.ftypes),
                    is_abstract: d.is_abstract,
                    is_mutable: d.is_mutable,
                    is_primitive: d.is_primitive,
                    nbits: d.nbits,
                    ninitialized: d.ninitialized,
                },
            ),
            _ => None,
        };
        match applied {
            Some(d) => {
                proof {
                    assert(Seq::new(params@.len(), |i: int| params@[i].addr_of(*rt)) =~= d.params@);
                }
                Ok(Type(rt.wrap_value(JlData::Dty(d))))
            },
            None => {
                proof {
                    assert(false);
                }
                Err(Error::PoisonError)
            },
        }
    }

    /// Instantiate with one parameter.
    pub fn apply_type1(&self, rt: &mut Julia, p1: &Ref) -> (r: Result<Type, Error>)
        requires
            self.backs_dty(*old(rt)),
            p1.live(*old(rt)),
        ensures
            match r {
                Ok(t) => {
                    &&& !self.0.poisoned_in(*old(rt)) && !p1.poisoned_in(*old(rt))
                    &&& applied_made(
                        *old(rt),
                        *final(rt),
                        t,
                        self.0.addr_of(*old(rt)),
                        seq![p1.addr_of(*old(rt))],
                    )
                },
                Err(e) => {
                    &&& e == Error::PoisonError
                    &&& *final(rt) == *old(rt)
                    &&& self.0.poisoned_in(*old(rt)) || p1.poisoned_in(*old(rt))
                },
            },
    {
        let base = match self.0.lock(rt) {
            Ok(a) => a,
            Err(e) => {
                return Err(e);
            },
        };
        let a1 = match p1.lock(rt) {
            Ok(a) => a,
            Err(e) => {
                return Err(e);
            },
        };
        let applied: Option<DtyData> = match rt.store.get(base) {
            Some(JlData::Dty(d)) => {
                let mut addrs: Vec<usize> = Vec::new();
                addrs.push(a1);
                Some(
                    DtyData {
                        name: d.name.clone(),
                        supertype: d.supertype,
                        params: addrs,
                        fnames: copy_names(&d.fnames),
                        ftypes: copy_addrs(&d.ftypes),
                        is_abstract: d.is_abstract,
                        is_mutable: d.is_mutable,
                        is_primitive: d.is_primitive,
                        nbits: d.nbits,
                        ninitialized: d.ninitialized,
                    },
                )
            },
            _ => None,
        };
        match applied {
            Some(d) => {
                proof {
                    assert(seq![p1.addr_of(*rt)] =~= d.params@);
                }
                Ok(Type(rt.wrap_value(JlData::Dty(d))))
            },
            None => {
                proof {
                    assert(false);
                }
                Err(Error::PoisonError)
            },
        }
    }

    /// Instantiate with two parameters.
    pub fn apply_type2(&self, rt: &mut Julia, p1: &Ref, p2: &Ref) -> (r: Result<Type, Error>)
        requires
            self.backs_dty(*old(rt)),
            p1.live(*old(rt)),
            p2.live(*old(rt)),
        ensures
            match r {
                Ok(t) => {
                    &&& !self.0.poisoned_in(*old(rt)) && !p1.poisoned_in(*old(rt))
                        && !p2.poisoned_in(*old(rt))
                    &&& applied_made(
                        *old(rt),
                        *final(rt),
                        t,
                        self.0.addr_of(*old(rt)),
                        seq![p1.addr_of(*old(rt)), p2.addr_of(*old(rt))],
                    )
                },
                Err(e) => {
                    &&& e == Error::PoisonError
                    &&& *final(rt) == *old(rt)
                    &&& self.0.poisoned_in(*old(rt)) || p1.poisoned_in(*old(rt)) || p2.poisoned_in(
                        *old(rt),
                    )
                },
            },
    {
        let base = match self.0.lock(rt) {
            Ok(a) => a,
            Err(e) => {
                return Err(e);
            },
        };
        let a1 = match p1.lock(rt) {
            Ok(a) => a,
            Err(e) => {
                return Err(e);
            },
        };
        let a2 = match p2.lock(rt) {
            Ok(a) => a,
            Err(e) => {
                return Err(e);
            },
        };
        let applied: Option<DtyData> = match rt.store.get(base) {
            Some(JlData::Dty(d)) => {
                let mut addrs: Vec<usize> = Vec::new();
                addrs.push(a1);
                addrs.push(a2);
                Some(
                    DtyData {
                        name: d.name.clone(),
                        supertype: d.supertype,
                        params: addrs,
                        fnames: copy_names(&d.fnames),
                        ftypes: copy_addrs(&d.ftypes),
                        is_abstract: d.is_abstract,
                        is_mutable: d.is_mutable,
                        is_primitive: d.is_primitive,
                        nbits: d.nbits,
                        ninitialized: d.ninitialized,
                    },
                )
            },
            _ => None,
        };
        match applied {
            Some(d) => {
                proof {
                    assert(seq![p1.addr_of(*rt), p2.addr_of(*rt)] =~= d.params@);
                }
                Ok(Type(rt.wrap_value(JlData::Dty(d))))
            },
            None => {
                proof {
                    assert(false);
                }
                Err(Error::PoisonError)
            },
        }
    }
}

/// The component types of the value at `addr`: a union's list, anything
/// else as the single type it is.
pub open spec fn type_components(h: Seq<JlData>, addr: usize) -> Seq<usize> {
    if in_dom(h, addr) && at(h, addr) is UnionTy {
        at(h, addr)->UnionTy_0@
    } else {
        seq![addr]
    }
}

/// Whether some member of `ys` is equal, as a type, to `t`.
pub open spec fn has_equal_type(h: Seq<JlData>, ys: Seq<usize>, t: usize) -> bool {
    exists|j: int|
        0 <= j < ys.len() && crate::api::reference::types_equal_spec(h, t, #[trigger] ys[j])
}

/// The components of `xs` that have an equal type among `ys`, in order:
/// the componentwise intersection the runtime computes for unions of
/// concrete types.
pub open spec fn inter_components(h: Seq<JlData>, xs: Seq<usize>, ys: Seq<usize>) -> Seq<usize>
    decreases xs.len(),
{
    if xs.len() == 0 {
        Seq::<usize>::empty()
    } else {
        if has_equal_type(h, ys, xs.last()) {
            inter_components(h, xs.drop_last(), ys).push(xs.last())
        } else {
            inter_components(h, xs.drop_last(), ys)
        }
    }
}

/// The intersection is empty exactly when no component of `xs` has an
/// equal type among `ys`.
pub proof fn lemma_inter_empty(h: Seq<JlData>, xs: Seq<usize>, ys: Seq<usize>)
    ensures
        (inter_components(h, xs, ys).len() == 0) <==> (forall|i: int|
            0 <= i < xs.len() ==> !has_equal_type(h, ys, #[trigger] xs[i])),
    decreases xs.len(),
{
    if xs.len() > 0 {
        lemma_inter_empty(h, xs.drop_last(), ys);
        assert(xs.last() == xs[xs.len() - 1]);
        assert(forall|i: int| 0 <= i < xs.len() - 1 ==> xs.drop_last()[i] == #[trigger] xs[i]);
    }
}

/// Read the component types of the value at `addr`.
fn components_vec(rt: &Julia, addr: usize) -> (r: Vec<usize>)
    ensures
        r@ == type_components(rt.store.vals@, addr),
{
    match rt.store.get(addr) {
        Some(JlData::UnionTy(v)) => copy_addrs(v),
        _ => {
            let mut v: Vec<usize> = Vec::new();
            v.push(addr);
            proof {
                assert(v@ =~= seq![addr]);
            }
            v
        },
    }
}

/// Compare the values at `a` and `b` as types.
fn types_equal_at(rt: &Julia, a: usize, b: usize) -> (r: bool)
    ensures
        r == crate::api::reference::types_equal_spec(rt.store.vals@, a, b),
{
    match (rt.store.get(a), rt.store.get(b)) {
        (Some(JlData::Dty(x)), Some(JlData::Dty(y))) => x.name == y.name,
        _ => a == b,
    }
}

/// Whether some member of `ys` is equal, as a type, to `t`.
fn member_equal(rt: &Julia, ys: &Vec<usize>, t: usize) -> (r: bool)
    ensures
        r == has_equal_type(rt.store.vals@, ys@, t),
{
    let n = ys.len();
    let mut j: usize = 0;
    while j < n
        invariant
            n == ys@.len(),
            j <= n,
            forall|k: int|
                0 <= k < j ==> !crate::api::reference::types_equal_spec(
                    rt.store.vals@,
                    t,
                    #[trigger] ys@[k],
                ),
        decreases n - j,
    {
        if types_equal_at(rt, t, ys[j]) {
            return true;
        }
        j += 1;
    }
    false
}

impl Union {
    /// Get the union that is the intersection of two types: the
    /// components present, as equal types, in both.
    pub fn intersection(rt: &mut Julia, a: &Union, b: &Union) -> (r: Result<Union, Error>)
        requires
            a.0.live(*old(rt)),
            b.0.live(*old(rt)),
        ensures
            match r {
                Ok(u) => {
                    &&& !a.0.poisoned_in(*old(rt)) && !b.0.poisoned_in(*old(rt))
                    &&& union_made(
                        *old(rt),
                        *final(rt),
                        u,
                        inter_components(
                            old(rt).store.vals@,
                            type_components(old(rt).store.vals@, a.0.addr_of(*old(rt))),
                            type_components(old(rt).store.vals@, b.0.addr_of(*old(rt))),
                        ),
                    )
                },
                Err(e) => (a.0.poisoned_in(*old(rt)) || b.0.poisoned_in(*old(rt))) && e
                    == Error::PoisonError && *final(rt) == *old(rt),
            },
    {
        let aa = match a.0.lock(rt) {
            Ok(x) => x,
            Err(e) => {
                return Err(e);
            },
        };
        let ba = match b.0.lock(rt) {
            Ok(x) => x,
            Err(e) => {
                return Err(e);
            },
        };
        let xs = components_vec(rt, aa);
        let ys = components_vec(rt, ba);
        let mut out: Vec<usize> = Vec::new();
        let n = xs.len();
        let mut i: usize = 0;
        while i < n
            invariant
                *rt == *old(rt),
                n == xs@.len(),
                i <= n,
                xs@ == type_components(rt.store.vals@, aa),
                ys@ == type_components(rt.store.vals@, ba),
                out@ == inter_components(rt.store.vals@, xs@.take(i as int), ys@),
            decreases n - i,
        {
            if member_equal(rt, &ys, xs[i]) {
                out.push(xs[i]);
            }
            proof {
                assert(xs@.take(i + 1).drop_last() =~= xs@.take(i as int));
                assert(xs@.take(i + 1).last() == xs@[i as int]);
            }
            i += 1;
        }
        proof {
            assert(xs@.take(n as int) =~= xs@);
        }
        Ok(Union(rt.wrap_value(JlData::UnionTy(out))))
    }

    /// Check if the intersection of two types is empty.
    pub fn has_empty_intersection(rt: &Julia, a: &Union, b: &Union) -> (r: Result<bool, Error>)
        requires
            a.0.live(*rt),
            b.0.live(*rt),
        ensures
            match r {
                Ok(p) => {
                    &&& !a.0.poisoned_in(*rt) && !b.0.poisoned_in(*rt)
                    &&& p == (inter_components(
                        rt.store.vals@,
                        type_components(rt.store.vals@, a.0.addr_of(*rt)),
                        type_components(rt.store.vals@, b.0.addr_of(*rt)),
                    ).len() == 0)
                },
                Err(e) => (a.0.poisoned_in(*rt) || b.0.poisoned_in(*rt)) && e
                    == Error::PoisonError,
            },
    {
        let aa = match a.0.lock(rt) {
            Ok(x) => x,
            Err(e) => {
                return Err(e);
            },
        };
        let ba = match b.0.lock(rt) {
            Ok(x) => x,
            Err(e) => {
                return Err(e);
            },
        };
        let xs = components_vec(rt, aa);
        let ys = components_vec(rt, ba);
        let n = xs.len();
        let mut i: usize = 0;
        while i < n
            invariant
                n == xs@.len(),
                i <= n,
                a.0.live(*rt),
                b.0.live(*rt),
                !a.0.poisoned_in(*rt),
                !b.0.poisoned_in(*rt),
                aa == a.0.addr_of(*rt),
                ba == b.0.addr_of(*rt),
                xs@ == type_components(rt.store.vals@, aa),
                ys@ == type_components(rt.store.vals@, ba),
                forall|k: int|
                    0 <= k < i ==> !has_equal_type(rt.store.vals@, ys@, #[trigger] xs@[k]),
            decreases n - i,
        {
            if member_equal(rt, &ys, xs[i]) {
                proof {
                    lemma_inter_empty(rt.store.vals@, xs@, ys@);
                }
                return Ok(false);
            }
            i += 1;
        }
        proof {
            lemma_inter_empty(rt.store.vals@, xs@, ys@);
        }
        Ok(true)
    }
}

/// A handle viewed as a tuple type.
#[derive(Debug, PartialEq, Eq, Structural)]
pub struct Tuple(pub Ref);

/// What applying the tuple-type constructor does: the heap grows by one
/// datatype named for the tuple kind whose parameters are the given
/// component types, wrapped in a fresh single-owner handle.
pub open spec fn tuple_made(pre: Julia, post: Julia, t: Tuple, params: Seq<usize>) -> bool {
    &&& post.store.vals@.len() == pre.store.vals@.len() + 1
    &&& forall|a: usize|
        in_dom(pre.store.vals@, a) ==> at(post.store.vals@, a) == at(pre.store.vals@, a)
    &&& t.0.cell == pre.cells.slots@.len()
    &&& post.cells.slots@ == pre.cells.slots@.push(
        CellState { addr: (pre.store.vals@.len() + 1) as usize, count: 1, poisoned: false },
    )
    &&& at(post.store.vals@, (pre.store.vals@.len() + 1) as usize) matches JlData::Dty(d) && {
        &&& d.name@ == "Tuple"@
        &&& d.supertype == pre.wk.any
        &&& d.params@ == params
        &&& !d.is_abstract && !d.is_mutable && !d.is_primitive
    }
    &&& post == (Julia { store: post.store, cells: post.cells, ..pre })
}

impl Tuple {
    /// Construct the tuple type of the component types in `params`.
    pub fn apply(rt: &mut Julia, params: &Svec) -> (r: Result<Tuple, Error>)
        requires
            params.backs_svec(*old(rt)),
        ensures
            match r {
                Ok(t) => !params.0.poisoned_in(*old(rt)) && tuple_made(
                    *old(rt),
                    *final(rt),
                    t,
                    crate::api::array::svec_elems(
                        old(rt).store.vals@,
                        params.0.addr_of(*old(rt)),
                    ),
                ),
                Err(e) => params.0.poisoned_in(*old(rt)) && e == Error::PoisonError && *final(rt)
                    == *old(rt),
            },
    {
        let pa = match params.0.lock(rt) {
            Ok(x) => x,
            Err(e) => {
                return Err(e);
            },
        };
        let elems = match rt.store.get(pa) {
            Some(JlData::Svec(v)) => copy_addrs(v),
            _ => {
                proof {
                    assert(false);
                }
                Vec::new()
            },
        };
        let any = rt.wk.any;
        Ok(
            Tuple(
                rt.wrap_value(
                    JlData::Dty(
                        DtyData {
                            name: String::from_str("Tuple"),
                            supertype: any,
                            params: elems,
                            fnames: Vec::new(),
                            ftypes: Vec::new(),
                            is_abstract: false,
                            is_mutable: false,
                            is_primitive: false,
                            nbits: 0,
                            ninitialized: false,
                        },
                    ),
                ),
            ),
        )
    }
}

/// A handle viewed as a parametric type awaiting instantiation.
#[derive(Debug, PartialEq, Eq, Structural)]
pub struct UnionAll(pub Ref);

impl UnionAll {
    /// Whether this handle is live and really backed by a datatype.
    pub open spec fn backs_dty(self, rt: Julia) -> bool {
        &&& self.0.live(rt)
        &&& in_dom(rt.store.vals@, self.0.addr_of(rt))
        &&& at(rt.store.vals@, self.0.addr_of(rt)) is Dty
    }

    /// Instantiate this parametric type into a more concrete one by
    /// fixing its first parameter.  Not guaranteed to be a concrete
    /// datatype.
    pub fn instantiate(&self, rt: &mut Julia, p: &Ref) -> (r: Result<Type, Error>)
        requires
            self.backs_dty(*old(rt)),
            p.live(*old(rt)),
        ensures
            match r {
                Ok(t) => {
                    &&& !self.0.poisoned_in(*old(rt)) && !p.poisoned_in(*old(rt))
                    &&& applied_made(
                        *old(rt),
                        *final(rt),
                        t,
                        self.0.addr_of(*old(rt)),
                        seq![p.addr_of(*old(rt))],
                    )
                },
                Err(e) => {
                    &&& e == Error::PoisonError
                    &&& *final(rt) == *old(rt)
                    &&& self.0.poisoned_in(*old(rt)) || p.poisoned_in(*old(rt))
                },
            },
    {
        // Re-view the same cell as an applicable type; no new handle is
        // minted and the shared count does not move.
        let t = Type(Ref { cell: self.0.cell });
        t.apply_type1(rt, p)
    }
}

/// What building a raw-bits value does: the heap grows by one instance
/// of the primitive datatype at `dtaddr` carrying the given bytes,
/// wrapped in a fresh single-owner handle.
pub open spec fn bits_made(pre: Julia, post: Julia, v: Ref, dtaddr: usize, data: Seq<u8>) -> bool {
    &&& post.store.vals@.len() == pre.store.vals@.len() + 1
    &&& forall|a: usize|
        in_dom(pre.store.vals@, a) ==> at(post.store.vals@, a) == at(pre.store.vals@, a)
    &&& v.cell == pre.cells.slots@.len()
    &&& post.cells.slots@ == pre.cells.slots@.push(
        CellState { addr: (pre.store.vals@.len() + 1) as usize, count: 1, poisoned: false },
    )
    &&& at(post.store.vals@, (pre.store.vals@.len() + 1) as usize) matches JlData::Bits(b) && {
        &&& b.ty == dtaddr
        &&& b.typename@ == at(pre.store.vals@, dtaddr)->Dty_0.name@
        &&& b.data@ == data
    }
    &&& post == (Julia { store: post.store, cells: post.cells, ..pre })
}

/// What constructing a union does.
pub open spec fn union_made(pre: Julia, post: Julia, u: Union, components: Seq<usize>) -> bool {
    &&& post.store.vals@.len() == pre.store.vals@.len() + 1
    &&& forall|a: usize|
        in_dom(pre.store.vals@, a) ==> at(post.store.vals@, a) == at(pre.store.vals@, a)
    &&& u.0.cell == pre.cells.slots@.len()
    &&& post.cells.slots@ == pre.cells.slots@.push(
        CellState { addr: (pre.store.vals@.len() + 1) as usize, count: 1, poisoned: false },
    )
    &&& at(post.store.vals@, (pre.store.vals@.len() + 1) as usize) matches JlData::UnionTy(v) && v@
        == components
    &&& post == (Julia { store: post.store, cells: post.cells, ..pre })
}

} // verus!
