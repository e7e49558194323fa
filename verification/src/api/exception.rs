//! The exception bridge: catching, classifying and re-raising foreign
//! faults.
//!
//! Every foreign entry point that can fault leaves its fault in the
//! runtime's pending-exception slot.  The bridge drains that slot exactly
//! once, immediately, and classifies the raised object into a closed set of
//! variants by the textual name of its declared type, defaulting to
//! `Unknown`; it never fails while reporting a fault.

use vstd::prelude::*;

verus! {

use crate::api::cells::CellState;
use crate::api::datatype::Datatype;
use crate::api::heap::{at, in_dom, streq, typename_of, FieldVal, JlData, StructData};
use crate::api::reference::Ref;
use crate::api::value::Value;
use crate::api::Julia;
use crate::error::Error;

/// A foreign fault, classified by the name of its declared type.  Each
/// variant carries the handle on the underlying foreign exception object.
#[derive(Debug, PartialEq, Eq, Structural)]
pub enum Exception {
    Argument(Value),
    Bounds(Value),
    Composite(Value),
    Divide(Value),
    Domain(Value),
    EOF(Value),
    Error(Value),
    Inexact(Value),
    Init(Value),
    Interrupt(Value),
    InvalidState(Value),
    Key(Value),
    Load(Value),
    OutOfMemory(Value),
    ReadOnlyMemory(Value),
    Remote(Value),
    Method(Value),
    Overflow(Value),
    Parse(Value),
    System(Value),
    Type(Value),
    UndefRef(Value),
    UndefVar(Value),
    Unicode(Value),
    Unknown(Value),
}

/// The classification table: which variant a fault object of the named
/// type becomes.  Any name outside the closed set falls through to
/// `Unknown`.
pub open spec fn classified(typename: Seq<char>, v: Value) -> Exception {
    if typename == "ArgumentError"@ {
        Exception::Argument(v)
    } else if typename == "BoundsError"@ {
        Exception::Bounds(v)
    } else if typename == "CompositeException"@ {
        Exception::Composite(v)
    } else if typename == "DivideError"@ {
        Exception::Divide(v)
    } else if typename == "DomainError"@ {
        Exception::Domain(v)
    } else if typename == "EOFError"@ {
        Exception::EOF(v)
    } else if typename == "ErrorException"@ {
        Exception::Error(v)
    } else if typename == "InexactError"@ {
        Exception::Inexact(v)
    } else if typename == "InitError"@ {
        Exception::Init(v)
    } else if typename == "InterruptException"@ {
        Exception::Interrupt(v)
    } else if typename == "InvalidStateException"@ {
        Exception::InvalidState(v)
    } else if typename == "KeyError"@ {
        Exception::Key(v)
    } else if typename == "LoadError"@ {
        Exception::Load(v)
    } else if typename == "OutOfMemoryError"@ {
        Exception::OutOfMemory(v)
    } else if typename == "ReadOnlyMemoryError"@ {
        Exception::ReadOnlyMemory(v)
    } else if typename == "RemoteException"@ {
        Exception::Remote(v)
    } else if typename == "MethodError"@ {
        Exception::Method(v)
    } else if typename == "OverflowError"@ {
        Exception::Overflow(v)
    } else if typename == "ParseError"@ {
        Exception::Parse(v)
    } else if typename == "SystemError"@ {
        Exception::System(v)
    } else if typename == "TypeError"@ {
        Exception::Type(v)
    } else if typename == "UndefRefError"@ {
        Exception::UndefRef(v)
    } else if typename == "UndefVarError"@ {
        Exception::UndefVar(v)
    } else if typename == "UnicodeError"@ {
        Exception::Unicode(v)
    } else {
        Exception::Unknown(v)
    }
}

impl Exception {
    /// Whether a fault is sitting in the pending-exception slot.  A null
    /// slot content means no fault, as `catch` and `bridge` treat it.
    pub fn occurred(rt: &Julia) -> (r: bool)
        ensures
            r == (rt.pending is Some && rt.pending->0 != 0),
    {
        match rt.pending {
            Some(a) => a != 0,
            None => false,
        }
    }

    /// Drain the pending-exception slot and classify what it held, if
    /// anything.  The slot is empty afterwards, whatever happens; a
    /// degenerate null fault is dropped rather than classified.
    pub fn catch(rt: &mut Julia) -> (r: Option<Exception>)
        ensures
            final(rt).pending is None,
            match old(rt).pending {
                None => r is None && *final(rt) == (Julia { pending: None, ..*old(rt) }),
                Some(exaddr) => {
                    if exaddr == 0 {
                        r is None && *final(rt) == (Julia { pending: None, ..*old(rt) })
                    } else {
                        &&& r == Some(
                            classified(
                                typename_of(old(rt).store.vals@, exaddr),
                                Ref { cell: old(rt).cells.slots@.len() as usize },
                            ),
                        )
                        &&& final(rt).cells.slots@ == old(rt).cells.slots@.push(
                            CellState { addr: exaddr, count: 1, poisoned: false },
                        )
                        &&& *final(rt) == (Julia {
                            pending: None,
                            cells: final(rt).cells,
                            ..*old(rt)
                        })
                    }
                },
            },
    {
        let pending = rt.pending;
        rt.pending = None;
        match pending {
            None => None,
            Some(addr) => match Value::new(rt, addr) {
                Err(_) => None,
                Ok(v) => match Exception::with_value(v, rt) {
                    Ok(ex) => Some(ex),
                    Err(_) => {
                        proof {
                            assert(false);
                        }
                        None
                    },
                },
            },
        }
    }

    /// Classify a fault object by the name of its declared type.  Fails
    /// only if the handle's guard is poisoned; an unreadable or unknown
    /// type name falls through to `Unknown` instead of failing.
    pub fn with_value(value: Value, rt: &Julia) -> (r: Result<Exception, Error>)
        requires
            value.live(*rt),
        ensures
            match r {
                Ok(ex) => !value.poisoned_in(*rt) && ex == classified(
                    typename_of(rt.store.vals@, value.addr_of(*rt)),
                    value,
                ),
                Err(e) => value.poisoned_in(*rt) && e == Error::PoisonError,
            },
    {
        let tn = match value.typename(rt) {
            Ok(t) => t,
            Err(e) => {
                return Err(e);
            },
        };
        let s = tn.as_str();
        let ex = if streq(s, "ArgumentError") {
            Exception::Argument(value)
        } else if streq(s, "BoundsError") {
            Exception::Bounds(value)
        } else if streq(s, "CompositeException") {
            Exception::Composite(value)
        } else if streq(s, "DivideError") {
            Exception::Divide(value)
        } else if streq(s, "DomainError") {
            Exception::Domain(value)
        } else if streq(s, "EOFError") {
            Exception::EOF(value)
        } else if streq(s, "ErrorException") {
            Exception::Error(value)
        } else if streq(s, "InexactError") {
            Exception::Inexact(value)
        } else if streq(s, "InitError") {
            Exception::Init(value)
        } else if streq(s, "InterruptException") {
            Exception::Interrupt(value)
        } else if streq(s, "InvalidStateException") {
            Exception::InvalidState(value)
        } else if streq(s, "KeyError") {
            Exception::Key(value)
        } else if streq(s, "LoadError") {
            Exception::Load(value)
        } else if streq(s, "OutOfMemoryError") {
            Exception::OutOfMemory(value)
        } else if streq(s, "ReadOnlyMemoryError") {
            Exception::ReadOnlyMemory(value)
        } else if streq(s, "RemoteException") {
            Exception::Remote(value)
        } else if streq(s, "MethodError") {
            Exception::Method(value)
        } else if streq(s, "OverflowError") {
            Exception::Overflow(value)
        } else if streq(s, "ParseError") {
            Exception::Parse(value)
        } else if streq(s, "SystemError") {
            Exception::System(value)
        } else if streq(s, "TypeError") {
            Exception::Type(value)
        } else if streq(s, "UndefRefError") {
            Exception::UndefRef(value)
        } else if streq(s, "UndefVarError") {
            Exception::UndefVar(value)
        } else if streq(s, "UnicodeError") {
            Exception::Unicode(value)
        } else {
            Exception::Unknown(value)
        };
        Ok(ex)
    }

    /// The handle this exception carries, whatever the variant.
    pub open spec fn inner(self) -> Value {
        match self {
            Exception::Argument(v) => v,
            Exception::Bounds(v) => v,
            Exception::Composite(v) => v,
            Exception::Divide(v) => v,
            Exception::Domain(v) => v,
            Exception::EOF(v) => v,
            Exception::Error(v) => v,
            Exception::Inexact(v) => v,
            Exception::Init(v) => v,
            Exception::Interrupt(v) => v,
            Exception::InvalidState(v) => v,
            Exception::Key(v) => v,
            Exception::Load(v) => v,
            Exception::OutOfMemory(v) => v,
            Exception::ReadOnlyMemory(v) => v,
            Exception::Remote(v) => v,
            Exception::Method(v) => v,
            Exception::Overflow(v) => v,
            Exception::Parse(v) => v,
            Exception::System(v) => v,
            Exception::Type(v) => v,
            Exception::UndefRef(v) => v,
            Exception::UndefVar(v) => v,
            Exception::Unicode(v) => v,
            Exception::Unknown(v) => v,
        }
    }

    /// The same exception with its carried handle replaced.
    pub open spec fn with_inner(self, v: Value) -> Exception {
        match self {
            Exception::Argument(_) => Exception::Argument(v),
            Exception::Bounds(_) => Exception::Bounds(v),
            Exception::Composite(_) => Exception::Composite(v),
            Exception::Divide(_) => Exception::Divide(v),
            Exception::Domain(_) => Exception::Domain(v),
            Exception::EOF(_) => Exception::EOF(v),
            Exception::Error(_) => Exception::Error(v),
            Exception::Inexact(_) => Exception::Inexact(v),
            Exception::Init(_) => Exception::Init(v),
            Exception::Interrupt(_) => Exception::Interrupt(v),
            Exception::InvalidState(_) => Exception::InvalidState(v),
            Exception::Key(_) => Exception::Key(v),
            Exception::Load(_) => Exception::Load(v),
            Exception::OutOfMemory(_) => Exception::OutOfMemory(v),
            Exception::ReadOnlyMemory(_) => Exception::ReadOnlyMemory(v),
            Exception::Remote(_) => Exception::Remote(v),
            Exception::Method(_) => Exception::Method(v),
            Exception::Overflow(_) => Exception::Overflow(v),
            Exception::Parse(_) => Exception::Parse(v),
            Exception::System(_) => Exception::System(v),
            Exception::Type(_) => Exception::Type(v),
            Exception::UndefRef(_) => Exception::UndefRef(v),
            Exception::UndefVar(_) => Exception::UndefVar(v),
            Exception::Unicode(_) => Exception::Unicode(v),
            Exception::Unknown(_) => Exception::Unknown(v),
        }
    }

    /// Borrow the handle on the underlying foreign exception object.
    pub fn inner_ref(&self) -> (r: &Value)
        ensures
            *r == self.inner(),
    {
        match self {
            Exception::Argument(v) => v,
            Exception::Bounds(v) => v,
            Exception::Composite(v) => v,
            Exception::Divide(v) => v,
            Exception::Domain(v) => v,
            Exception::EOF(v) => v,
            Exception::Error(v) => v,
            Exception::Inexact(v) => v,
            Exception::Init(v) => v,
            Exception::Interrupt(v) => v,
            Exception::InvalidState(v) => v,
            Exception::Key(v) => v,
            Exception::Load(v) => v,
            Exception::OutOfMemory(v) => v,
            Exception::ReadOnlyMemory(v) => v,
            Exception::Remote(v) => v,
            Exception::Method(v) => v,
            Exception::Overflow(v) => v,
            Exception::Parse(v) => v,
            Exception::System(v) => v,
            Exception::Type(v) => v,
            Exception::UndefRef(v) => v,
            Exception::UndefVar(v) => v,
            Exception::Unicode(v) => v,
            Exception::Unknown(v) => v,
        }
    }

    /// Mutably borrow the handle on the underlying foreign exception
    /// object.
    pub fn inner_mut(&mut self) -> (r: &mut Value)
        ensures
            *r == old(self).inner(),
            *final(self) == old(self).with_inner(*final(r)),
    {
        match self {
            Exception::Argument(v) => v,
            Exception::Bounds(v) => v,
            Exception::Composite(v) => v,
            Exception::Divide(v) => v,
            Exception::Domain(v) => v,
            Exception::EOF(v) => v,
            Exception::Error(v) => v,
            Exception::Inexact(v) => v,
            Exception::Init(v) => v,
            Exception::Interrupt(v) => v,
            Exception::InvalidState(v) => v,
            Exception::Key(v) => v,
            Exception::Load(v) => v,
            Exception::OutOfMemory(v) => v,
            Exception::ReadOnlyMemory(v) => v,
            Exception::Remote(v) => v,
            Exception::Method(v) => v,
            Exception::Overflow(v) => v,
            Exception::Parse(v) => v,
            Exception::System(v) => v,
            Exception::Type(v) => v,
            Exception::UndefRef(v) => v,
            Exception::UndefVar(v) => v,
            Exception::Unicode(v) => v,
            Exception::Unknown(v) => v,
        }
    }

    /// Consume the exception, unwrapping the handle it carries.
    pub fn into_inner(self) -> (r: Value)
        ensures
            r == self.inner(),
    {
        match self {
            Exception::Argument(v) => v,
            Exception::Bounds(v) => v,
            Exception::Composite(v) => v,
            Exception::Divide(v) => v,
            Exception::Domain(v) => v,
            Exception::EOF(v) => v,
            Exception::Error(v) => v,
            Exception::Inexact(v) => v,
            Exception::Init(v) => v,
            Exception::Interrupt(v) => v,
            Exception::InvalidState(v) => v,
            Exception::Key(v) => v,
            Exception::Load(v) => v,
            Exception::OutOfMemory(v) => v,
            Exception::ReadOnlyMemory(v) => v,
            Exception::Remote(v) => v,
            Exception::Method(v) => v,
            Exception::Overflow(v) => v,
            Exception::Parse(v) => v,
            Exception::System(v) => v,
            Exception::Type(v) => v,
            Exception::UndefRef(v) => v,
            Exception::UndefVar(v) => v,
            Exception::Unicode(v) => v,
            Exception::Unknown(v) => v,
        }
    }
}

/// Classification is deterministic: two fault objects whose declared type
/// names are equal are classified into the same variant, whatever handles
/// carry them.
pub proof fn lemma_classification_deterministic(t1: Seq<char>, t2: Seq<char>, v1: Value, v2: Value)
    requires
        t1 == t2,
    ensures
        classified(t1, v1).with_inner(v2) == classified(t2, v2),
{
}

/// What absorbing a foreign call's return value does when the slot held no
/// fault: a null return is rejected with `NullPointer`, anything else is
/// wrapped in a fresh handle.
pub open spec fn wrapped_after_drain(
    pre: Julia,
    post: Julia,
    r: Result<Ref, Error>,
    ret: usize,
) -> bool {
    if ret == 0 {
        r == Err::<Ref, Error>(Error::NullPointer) && post == (Julia { pending: None, ..pre })
    } else {
        &&& r matches Ok(h) && h.cell == pre.cells.slots@.len()
        &&& post.cells.slots@ == pre.cells.slots@.push(
            CellState { addr: ret, count: 1, poisoned: false },
        )
        &&& post == (Julia { pending: None, cells: post.cells, ..pre })
    }
}

impl Julia {
    /// Model one foreign entry point raising: store the fault object's
    /// address in the pending-exception slot.
    pub fn raise(&mut self, ex: &Ref) -> (r: Result<(), Error>)
        requires
            ex.live(*old(self)),
        ensures
            match r {
                Ok(_) => !ex.poisoned_in(*old(self)) && *final(self) == (Julia {
                    pending: Some(ex.addr_of(*old(self))),
                    ..*old(self)
                }),
                Err(e) => ex.poisoned_in(*old(self)) && e == Error::PoisonError && *final(self)
                    == *old(self),
            },
    {
        match ex.lock(self) {
            Ok(addr) => {
                self.pending = Some(addr);
                Ok(())
            },
            Err(e) => Err(e),
        }
    }

    /// The exception bridge, run synchronously after every foreign entry
    /// point that can fault: drain the pending-exception slot exactly once;
    /// if it held a fault, classify it and surface it as
    /// `UnhandledException`, discarding the captured return value; if not,
    /// wrap the return value, rejecting null.
    pub fn bridge(&mut self, ret: usize) -> (r: Result<Ref, Error>)
        ensures
            final(self).pending is None,
            match old(self).pending {
                Some(exaddr) => {
                    if exaddr != 0 {
                        &&& r == Err::<Ref, Error>(
                            Error::UnhandledException(
                                classified(
                                    typename_of(old(self).store.vals@, exaddr),
                                    Ref { cell: old(self).cells.slots@.len() as usize },
                                ),
                            ),
                        )
                        &&& final(self).cells.slots@ == old(self).cells.slots@.push(
                            CellState { addr: exaddr, count: 1, poisoned: false },
                        )
                        &&& *final(self) == (Julia {
                            pending: None,
                            cells: final(self).cells,
                            ..*old(self)
                        })
                    } else {
                        wrapped_after_drain(*old(self), *final(self), r, ret)
                    }
                },
                None => wrapped_after_drain(*old(self), *final(self), r, ret),
            },
    {
        match Exception::catch(self) {
            Some(ex) => Err(Error::UnhandledException(ex)),
            None => Ref::new(self, ret),
        }
    }
}

/// The name of the datatype at `addr`, where a datatype sits there; the
/// top type's name otherwise.
pub open spec fn dty_name_of(h: Seq<JlData>, addr: usize) -> Seq<char> {
    if in_dom(h, addr) && at(h, addr) is Dty {
        at(h, addr)->Dty_0.name@
    } else {
        "Any"@
    }
}

/// What raising a fault of the named type does: a message string and a
/// fault object carrying it land on the heap, and the fault's address
/// lands in the pending-exception slot.
pub open spec fn raised_named(pre: Julia, post: Julia, tn: Seq<char>, msg: Seq<char>) -> bool {
    let straddr = (pre.store.vals@.len() + 1) as usize;
    let exaddr = (pre.store.vals@.len() + 2) as usize;
    &&& post.store.vals@.len() == pre.store.vals@.len() + 2
    &&& forall|a: usize|
        in_dom(pre.store.vals@, a) ==> at(post.store.vals@, a) == at(pre.store.vals@, a)
    &&& at(post.store.vals@, straddr) matches JlData::Str(t) && t@ == msg
    &&& typename_of(post.store.vals@, exaddr) == tn
    &&& at(post.store.vals@, exaddr) matches JlData::StructVal(st) && st.fields@.len() == 1
        && st.fields@[0].name@ == "msg"@ && st.fields@[0].value == straddr
    &&& post.pending == Some(exaddr)
    &&& post == (Julia { store: post.store, pending: post.pending, ..pre })
}

/// Raise a fault of the named type carrying the given message.
fn raise_named(rt: &mut Julia, tn: &str, msg: &str)
    ensures
        raised_named(*old(rt), *final(rt), tn@, msg@),
{
    let straddr = rt.store.intern(JlData::Str(String::from_str(msg)));
    let mut fields: Vec<FieldVal> = Vec::new();
    fields.push(FieldVal { name: String::from_str("msg"), value: straddr });
    let exaddr = rt.store.intern(
        JlData::StructVal(StructData { ty: 0, typename: String::from_str(tn), fields }),
    );
    rt.pending = Some(exaddr);
}

/// Raise the `ArgumentError` for a call with too few arguments.
pub fn too_few_args(rt: &mut Julia, fname: &str, min: usize)
    ensures
        raised_named(*old(rt), *final(rt), "ArgumentError"@, fname@),
{
    raise_named(rt, "ArgumentError", fname);
}

/// Raise the `ArgumentError` for a call with too many arguments.
pub fn too_many_args(rt: &mut Julia, fname: &str, max: usize)
    ensures
        raised_named(*old(rt), *final(rt), "ArgumentError"@, fname@),
{
    raise_named(rt, "ArgumentError", fname);
}

/// Raise a `TypeError` naming the function that saw the wrong type.
pub fn type_error(rt: &mut Julia, fname: &str)
    ensures
        raised_named(*old(rt), *final(rt), "TypeError"@, fname@),
{
    raise_named(rt, "TypeError", fname);
}

/// Raise an `UndefVarError` naming the unbound variable.
pub fn undefined_var_error(rt: &mut Julia, var: &str)
    ensures
        raised_named(*old(rt), *final(rt), "UndefVarError"@, var@),
{
    raise_named(rt, "UndefVarError", var);
}

/// Raise a `BoundsError`.
pub fn bounds_error(rt: &mut Julia, msg: &str)
    ensures
        raised_named(*old(rt), *final(rt), "BoundsError"@, msg@),
{
    raise_named(rt, "BoundsError", msg);
}

/// Raise an `EOFError`.
pub fn eof_error(rt: &mut Julia)
    ensures
        raised_named(*old(rt), *final(rt), "EOFError"@, ""@),
{
    raise_named(rt, "EOFError", "");
}

/// Raise an `ErrorException` carrying the given message inside the foreign
/// runtime: the fault object lands in the pending-exception slot.
pub fn error(rt: &mut Julia, msg: &str)
    ensures
        raised_named(*old(rt), *final(rt), "ErrorException"@, msg@),
{
    raise_named(rt, "ErrorException", msg);
}

/// Format-and-raise variant of `error`.
pub fn error_format(rt: &mut Julia, msg: &str)
    ensures
        raised_named(*old(rt), *final(rt), "ErrorException"@, msg@),
{
    error(rt, msg);
}

/// Raise a fault of the given datatype carrying the given message inside
/// the foreign runtime.  Fails only if the datatype handle's guard is
/// poisoned.
pub fn exception(rt: &mut Julia, ty: &Datatype, msg: &str) -> (r: Result<(), Error>)
    requires
        ty.0.live(*old(rt)),
    ensures
        match r {
            Ok(_) => ({
                let straddr = (old(rt).store.vals@.len() + 1) as usize;
                let exaddr = (old(rt).store.vals@.len() + 2) as usize;
                &&& !ty.0.poisoned_in(*old(rt))
                &&& final(rt).store.vals@.len() == old(rt).store.vals@.len() + 2
                &&& forall|a: usize|
                    in_dom(old(rt).store.vals@, a) ==> at(final(rt).store.vals@, a) == at(
                        old(rt).store.vals@,
                        a,
                    )
                &&& at(final(rt).store.vals@, straddr) matches JlData::Str(t) && t@ == msg@
                &&& typename_of(final(rt).store.vals@, exaddr) == dty_name_of(
                    old(rt).store.vals@,
                    ty.0.addr_of(*old(rt)),
                )
                &&& at(final(rt).store.vals@, exaddr) matches JlData::StructVal(st)
                    && st.fields@.len() == 1 && st.fields@[0].name@ == "msg"@
                    && st.fields@[0].value == straddr && st.ty == ty.0.addr_of(*old(rt))
                &&& final(rt).pending == Some(exaddr)
                &&& *final(rt) == (Julia {
                    store: final(rt).store,
                    pending: final(rt).pending,
                    ..*old(rt)
                })
            }),
            Err(e) => ty.0.poisoned_in(*old(rt)) && e == Error::PoisonError && *final(rt) == *old(
                rt,
            ),
        },
{
    let tyaddr = match ty.0.lock(rt) {
        Ok(a) => a,
        Err(e) => {
            return Err(e);
        },
    };
    let tn = match rt.store.get(tyaddr) {
        Some(JlData::Dty(d)) => d.name.clone(),
        _ => String::from_str("Any"),
    };
    let straddr = rt.store.intern(JlData::Str(String::from_str(msg)));
    let mut fields: Vec<FieldVal> = Vec::new();
    fields.push(FieldVal { name: String::from_str("msg"), value: straddr });
    let exaddr = rt.store.intern(
        JlData::StructVal(StructData { ty: tyaddr, typename: tn, fields }),
    );
    rt.pending = Some(exaddr);
    Ok(())
}

/// Format-and-raise variant of `exception`.
pub fn exception_format(rt: &mut Julia, ty: &Datatype, msg: &str) -> (r: Result<(), Error>)
    requires
        ty.0.live(*old(rt)),
    ensures
        match r {
            Ok(_) => ({
                let straddr = (old(rt).store.vals@.len() + 1) as usize;
                let exaddr = (old(rt).store.vals@.len() + 2) as usize;
                &&& !ty.0.poisoned_in(*old(rt))
                &&& final(rt).store.vals@.len() == old(rt).store.vals@.len() + 2
                &&& forall|a: usize|
                    in_dom(old(rt).store.vals@, a) ==> at(final(rt).store.vals@, a) == at(
                        old(rt).store.vals@,
                        a,
                    )
                &&& at(final(rt).store.vals@, straddr) matches JlData::Str(t) && t@ == msg@
                &&& typename_of(final(rt).store.vals@, exaddr) == dty_name_of(
                    old(rt).store.vals@,
                    ty.0.addr_of(*old(rt)),
                )
                &&& at(final(rt).store.vals@, exaddr) matches JlData::StructVal(st)
                    && st.fields@.len() == 1 && st.fields@[0].name@ == "msg"@
                    && st.fields@[0].value == straddr && st.ty == ty.0.addr_of(*old(rt))
                &&& final(rt).pending == Some(exaddr)
                &&& *final(rt) == (Julia {
                    store: final(rt).store,
                    pending: final(rt).pending,
                    ..*old(rt)
                })
            }),
            Err(e) => ty.0.poisoned_in(*old(rt)) && e == Error::PoisonError && *final(rt) == *old(
                rt,
            ),
        },
{
    exception(rt, ty, msg)
}

} // verus!
