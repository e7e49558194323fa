//! Marshalling between host primitives and boxed foreign scalars.
//!
//! Boxing allocates one foreign value holding the host primitive; unboxing
//! reads it back, failing with `InvalidUnbox` when the dynamic type does
//! not match the primitive kind requested.  Byte strings travel the same
//! way.  No state is kept: these are pure conversions keyed by primitive
//! kind.

use vstd::prelude::*;

verus! {

use crate::api::cells::CellState;
use crate::api::heap::JlData;
use crate::api::reference::Ref;
use crate::api::Julia;
use crate::error::Error;

/// The handle type seen by callers that think of foreign objects as plain
/// values rather than as references.
pub type Value = Ref;

/// How a context changes when one fresh foreign value is recorded and a
/// fresh handle wrapped around it: the heap grows by `d`, the cell table
/// by a clean single-owner cell on the new address, and nothing else
/// moves.
pub open spec fn boxed(pre: Julia, post: Julia, r: Ref, d: JlData) -> bool {
    &&& post.store.vals@ == pre.store.vals@.push(d)
    &&& post.cells.slots@ == pre.cells.slots@.push(
        CellState { addr: (pre.store.vals@.len() + 1) as usize, count: 1, poisoned: false },
    )
    &&& post == (Julia { store: post.store, cells: post.cells, ..pre })
    &&& r.cell == pre.cells.slots@.len()
    &&& r.observes(post) == Some(d)
}

/// What unboxing through a handle yields: `PoisonError` through a poisoned
/// guard, otherwise the kind-specific reading `f` of the observed value,
/// and `InvalidUnbox` where the model observes no value at all.
pub open spec fn unboxing<T>(
    rt: Julia,
    v: Ref,
    f: spec_fn(JlData) -> Result<T, Error>,
) -> Result<T, Error> {
    if v.poisoned_in(rt) {
        Err(Error::PoisonError)
    } else {
        match v.observes(rt) {
            Some(d) => f(d),
            None => Err(Error::InvalidUnbox),
        }
    }
}

pub open spec fn unbox_data_bool(d: JlData) -> Result<bool, Error> {
    match d {
        JlData::Bool(x) => Ok(x),
        _ => Err(Error::InvalidUnbox),
    }
}

pub open spec fn unbox_data_char(d: JlData) -> Result<char, Error> {
    match d {
        JlData::Char(x) => Ok(x),
        _ => Err(Error::InvalidUnbox),
    }
}

pub open spec fn unbox_data_i8(d: JlData) -> Result<i8, Error> {
    match d {
        JlData::Int8(x) => Ok(x),
        _ => Err(Error::InvalidUnbox),
    }
}

pub open spec fn unbox_data_i16(d: JlData) -> Result<i16, Error> {
    match d {
        JlData::Int16(x) => Ok(x),
        _ => Err(Error::InvalidUnbox),
    }
}

pub open spec fn unbox_data_i32(d: JlData) -> Result<i32, Error> {
    match d {
        JlData::Int32(x) => Ok(x),
        _ => Err(Error::InvalidUnbox),
    }
}

pub open spec fn unbox_data_i64(d: JlData) -> Result<i64, Error> {
    match d {
        JlData::Int64(x) => Ok(x),
        _ => Err(Error::InvalidUnbox),
    }
}

pub open spec fn unbox_data_isize(d: JlData) -> Result<isize, Error> {
    match d {
        JlData::Isize(x) => Ok(x),
        _ => Err(Error::InvalidUnbox),
    }
}

pub open spec fn unbox_data_u8(d: JlData) -> Result<u8, Error> {
    match d {
        JlData::UInt8(x) => Ok(x),
        _ => Err(Error::InvalidUnbox),
    }
}

pub open spec fn unbox_data_u16(d: JlData) -> Result<u16, Error> {
    match d {
        JlData::UInt16(x) => Ok(x),
        _ => Err(Error::InvalidUnbox),
    }
}

pub open spec fn unbox_data_u32(d: JlData) -> Result<u32, Error> {
    match d {
        JlData::UInt32(x) => Ok(x),
        _ => Err(Error::InvalidUnbox),
    }
}

pub open spec fn unbox_data_u64(d: JlData) -> Result<u64, Error> {
    match d {
        JlData::UInt64(x) => Ok(x),
        _ => Err(Error::InvalidUnbox),
    }
}

pub open spec fn unbox_data_usize(d: JlData) -> Result<usize, Error> {
    match d {
        JlData::Usize(x) => Ok(x),
        _ => Err(Error::InvalidUnbox),
    }
}

pub open spec fn unbox_data_string(d: JlData) -> Result<Seq<char>, Error> {
    match d {
        JlData::Str(s) => Ok(s@),
        _ => Err(Error::InvalidUnbox),
    }
}

impl Julia {
    /// Record one fresh foreign value and wrap a fresh handle around it.
    pub fn wrap_value(&mut self, d: JlData) -> (r: Value)
        ensures
            boxed(*old(self), *final(self), r, d),
    {
        let addr = self.store.intern(d);
        let id = self.cells.create(addr);
        Ref { cell: id }
    }

    /// Box a bool.
    pub fn box_bool(&mut self, v: bool) -> (r: Value)
        ensures
            boxed(*old(self), *final(self), r, JlData::Bool(v)),
    {
        self.wrap_value(JlData::Bool(v))
    }

    /// Box a char.
    pub fn box_char(&mut self, v: char) -> (r: Value)
        ensures
            boxed(*old(self), *final(self), r, JlData::Char(v)),
    {
        self.wrap_value(JlData::Char(v))
    }

    /// Box an i8.
    pub fn box_i8(&mut self, v: i8) -> (r: Value)
        ensures
            boxed(*old(self), *final(self), r, JlData::Int8(v)),
    {
        self.wrap_value(JlData::Int8(v))
    }

    /// Box an i16.
    pub fn box_i16(&mut self, v: i16) -> (r: Value)
        ensures
            boxed(*old(self), *final(self), r, JlData::Int16(v)),
    {
        self.wrap_value(JlData::Int16(v))
    }

    /// Box an i32.
    pub fn box_i32(&mut self, v: i32) -> (r: Value)
        ensures
            boxed(*old(self), *final(self), r, JlData::Int32(v)),
    {
        self.wrap_value(JlData::Int32(v))
    }

    /// Box an i64.
    pub fn box_i64(&mut self, v: i64) -> (r: Value)
        ensures
            boxed(*old(self), *final(self), r, JlData::Int64(v)),
    {
        self.wrap_value(JlData::Int64(v))
    }

    /// Box a machine-word signed integer.
    pub fn box_isize(&mut self, v: isize) -> (r: Value)
        ensures
            boxed(*old(self), *final(self), r, JlData::Isize(v)),
    {
        self.wrap_value(JlData::Isize(v))
    }

    /// Box a u8.
    pub fn box_u8(&mut self, v: u8) -> (r: Value)
        ensures
            boxed(*old(self), *final(self), r, JlData::UInt8(v)),
    {
        self.wrap_value(JlData::UInt8(v))
    }

    /// Box a u16.
    pub fn box_u16(&mut self, v: u16) -> (r: Value)
        ensures
            boxed(*old(self), *final(self), r, JlData::UInt16(v)),
    {
        self.wrap_value(JlData::UInt16(v))
    }

    /// Box a u32.
    pub fn box_u32(&mut self, v: u32) -> (r: Value)
        ensures
            boxed(*old(self), *final(self), r, JlData::UInt32(v)),
    {
        self.wrap_value(JlData::UInt32(v))
    }

    /// Box a u64.
    pub fn box_u64(&mut self, v: u64) -> (r: Value)
        ensures
            boxed(*old(self), *final(self), r, JlData::UInt64(v)),
    {
        self.wrap_value(JlData::UInt64(v))
    }

    /// Box a machine-word unsigned integer.
    pub fn box_usize(&mut self, v: usize) -> (r: Value)
        ensures
            boxed(*old(self), *final(self), r, JlData::Usize(v)),
    {
        self.wrap_value(JlData::Usize(v))
    }

    /// Box a byte string.
    pub fn box_str(&mut self, s: &str) -> (r: Value)
        ensures
            exists|t: String|
                t@ == s@ && #[trigger] boxed(*old(self), *final(self), r, JlData::Str(t)),
    {
        self.wrap_value(JlData::Str(String::from_str(s)))
    }

    /// Unbox a bool.
    pub fn unbox_bool(&self, v: &Value) -> (r: Result<bool, Error>)
        requires
            v.live(*self),
        ensures
            r == unboxing(*self, *v, |d: JlData| unbox_data_bool(d)),
    {
        let addr = match v.lock(self) {
            Ok(a) => a,
            Err(e) => {
                return Err(e);
            },
        };
        match self.store.get(addr) {
            Some(JlData::Bool(x)) => Ok(*x),
            _ => Err(Error::InvalidUnbox),
        }
    }

    /// Unbox a char.
    pub fn unbox_char(&self, v: &Value) -> (r: Result<char, Error>)
        requires
            v.live(*self),
        ensures
            r == unboxing(*self, *v, |d: JlData| unbox_data_char(d)),
    {
        let addr = match v.lock(self) {
            Ok(a) => a,
            Err(e) => {
                return Err(e);
            },
        };
        match self.store.get(addr) {
            Some(JlData::Char(x)) => Ok(*x),
            _ => Err(Error::InvalidUnbox),
        }
    }

    /// Unbox an i8.
    pub fn unbox_i8(&self, v: &Value) -> (r: Result<i8, Error>)
        requires
            v.live(*self),
        ensures
            r == unboxing(*self, *v, |d: JlData| unbox_data_i8(d)),
    {
        let addr = match v.lock(self) {
            Ok(a) => a,
            Err(e) => {
                return Err(e);
            },
        };
        match self.store.get(addr) {
            Some(JlData::Int8(x)) => Ok(*x),
            _ => Err(Error::InvalidUnbox),
        }
    }

    /// Unbox an i16.
    pub fn unbox_i16(&self, v: &Value) -> (r: Result<i16, Error>)
        requires
            v.live(*self),
        ensures
            r == unboxing(*self, *v, |d: JlData| unbox_data_i16(d)),
    {
        let addr = match v.lock(self) {
            Ok(a) => a,
            Err(e) => {
                return Err(e);
            },
        };
        match self.store.get(addr) {
            Some(JlData::Int16(x)) => Ok(*x),
            _ => Err(Error::InvalidUnbox),
        }
    }

    /// Unbox an i32.
    pub fn unbox_i32(&self, v: &Value) -> (r: Result<i32, Error>)
        requires
            v.live(*self),
        ensures
            r == unboxing(*self, *v, |d: JlData| unbox_data_i32(d)),
    {
        let addr = match v.lock(self) {
            Ok(a) => a,
            Err(e) => {
                return Err(e);
            },
        };
        match self.store.get(addr) {
            Some(JlData::Int32(x)) => Ok(*x),
            _ => Err(Error::InvalidUnbox),
        }
    }

    /// Unbox an i64.
    pub fn unbox_i64(&self, v: &Value) -> (r: Result<i64, Error>)
        requires
            v.live(*self),
        ensures
            r == unboxing(*self, *v, |d: JlData| unbox_data_i64(d)),
    {
        let addr = match v.lock(self) {
            Ok(a) => a,
            Err(e) => {
                return Err(e);
            },
        };
        match self.store.get(addr) {
            Some(JlData::Int64(x)) => Ok(*x),
            _ => Err(Error::InvalidUnbox),
        }
    }

    /// Unbox a machine-word signed integer.
    pub fn unbox_isize(&self, v: &Value) -> (r: Result<isize, Error>)
        requires
            v.live(*self),
        ensures
            r == unboxing(*self, *v, |d: JlData| unbox_data_isize(d)),
    {
        let addr = match v.lock(self) {
            Ok(a) => a,
            Err(e) => {
                return Err(e);
            },
        };
        match self.store.get(addr) {
            Some(JlData::Isize(x)) => Ok(*x),
            _ => Err(Error::InvalidUnbox),
        }
    }

    /// Unbox a u8.
    pub fn unbox_u8(&self, v: &Value) -> (r: Result<u8, Error>)
        requires
            v.live(*self),
        ensures
            r == unboxing(*self, *v, |d: JlData| unbox_data_u8(d)),
    {
        let addr = match v.lock(self) {
            Ok(a) => a,
            Err(e) => {
                return Err(e);
            },
        };
        match self.store.get(addr) {
            Some(JlData::UInt8(x)) => Ok(*x),
            _ => Err(Error::InvalidUnbox),
        }
    }

    /// Unbox a u16.
    pub fn unbox_u16(&self, v: &Value) -> (r: Result<u16, Error>)
        requires
            v.live(*self),
        ensures
            r == unboxing(*self, *v, |d: JlData| unbox_data_u16(d)),
    {
        let addr = match v.lock(self) {
            Ok(a) => a,
            Err(e) => {
                return Err(e);
            },
        };
        match self.store.get(addr) {
            Some(JlData::UInt16(x)) => Ok(*x),
            _ => Err(Error::InvalidUnbox),
        }
    }

    /// Unbox a u32.
    pub fn unbox_u32(&self, v: &Value) -> (r: Result<u32, Error>)
        requires
            v.live(*self),
        ensures
            r == unboxing(*self, *v, |d: JlData| unbox_data_u32(d)),
    {
        let addr = match v.lock(self) {
            Ok(a) => a,
            Err(e) => {
                return Err(e);
            },
        };
        match self.store.get(addr) {
            Some(JlData::UInt32(x)) => Ok(*x),
            _ => Err(Error::InvalidUnbox),
        }
    }

    /// Unbox a u64.
    pub fn unbox_u64(&self, v: &Value) -> (r: Result<u64, Error>)
        requires
            v.live(*self),
        ensures
            r == unboxing(*self, *v, |d: JlData| unbox_data_u64(d)),
    {
        let addr = match v.lock(self) {
            Ok(a) => a,
            Err(e) => {
                return Err(e);
            },
        };
        match self.store.get(addr) {
            Some(JlData::UInt64(x)) => Ok(*x),
            _ => Err(Error::InvalidUnbox),
        }
    }

    /// Unbox a machine-word unsigned integer.
    pub fn unbox_usize(&self, v: &Value) -> (r: Result<usize, Error>)
        requires
            v.live(*self),
        ensures
            r == unboxing(*self, *v, |d: JlData| unbox_data_usize(d)),
    {
        let addr = match v.lock(self) {
            Ok(a) => a,
            Err(e) => {
                return Err(e);
            },
        };
        match self.store.get(addr) {
            Some(JlData::Usize(x)) => Ok(*x),
            _ => Err(Error::InvalidUnbox),
        }
    }

    /// Unbox a byte string.
    pub fn unbox_string(&self, v: &Value) -> (r: Result<String, Error>)
        requires
            v.live(*self),
        ensures
            match r {
                Ok(s) => unboxing(*self, *v, |d: JlData| unbox_data_string(d)) == Ok::<
                    Seq<char>,
                    Error,
                >(s@),
                Err(e) => unboxing(*self, *v, |d: JlData| unbox_data_string(d)) == Err::<
                    Seq<char>,
                    Error,
                >(e),
            },
    {
        let addr = match v.lock(self) {
            Ok(a) => a,
            Err(e) => {
                return Err(e);
            },
        };
        match self.store.get(addr) {
            Some(JlData::Str(s)) => Ok(s.clone()),
            _ => Err(Error::InvalidUnbox),
        }
    }
}

/// Round-trip marshalling: for every supported primitive kind, unboxing a
/// boxed value yields the value back, for all representable values of the
/// kind.
pub proof fn lemma_box_unbox_roundtrip()
    ensures
        forall|x: bool| unbox_data_bool(JlData::Bool(x)) == Ok::<bool, Error>(x),
        forall|x: char| unbox_data_char(JlData::Char(x)) == Ok::<char, Error>(x),
        forall|x: i8| unbox_data_i8(JlData::Int8(x)) == Ok::<i8, Error>(x),
        forall|x: i16| unbox_data_i16(JlData::Int16(x)) == Ok::<i16, Error>(x),
        forall|x: i32| unbox_data_i32(JlData::Int32(x)) == Ok::<i32, Error>(x),
        forall|x: i64| unbox_data_i64(JlData::Int64(x)) == Ok::<i64, Error>(x),
        forall|x: isize| unbox_data_isize(JlData::Isize(x)) == Ok::<isize, Error>(x),
        forall|x: u8| unbox_data_u8(JlData::UInt8(x)) == Ok::<u8, Error>(x),
        forall|x: u16| unbox_data_u16(JlData::UInt16(x)) == Ok::<u16, Error>(x),
        forall|x: u32| unbox_data_u32(JlData::UInt32(x)) == Ok::<u32, Error>(x),
        forall|x: u64| unbox_data_u64(JlData::UInt64(x)) == Ok::<u64, Error>(x),
        forall|x: usize| unbox_data_usize(JlData::Usize(x)) == Ok::<usize, Error>(x),
        forall|s: String| unbox_data_string(JlData::Str(s)) == Ok::<Seq<char>, Error>(s@),
{
}

} // verus!
