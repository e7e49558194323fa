//! Wrapper for the native function object.
//!
//! Calling transfers control to the foreign runtime, which this library
//! never re-enters on its own.  The host-side half of a call — borrowing
//! the callee and every argument through their guards — is performed and
//! verified here, yielding the plain addresses the foreign ABI takes; the
//! caller performs the transfer and hands the returned word to the
//! exception bridge.

use vstd::prelude::*;

verus! {

use crate::api::reference::Ref;
use crate::api::Julia;
use crate::error::Error;

/// A handle viewed as a callable function object.
#[derive(Debug, PartialEq, Eq, Structural)]
pub struct Function(pub Ref);

/// One prepared transfer into the foreign runtime: the callee's address
/// and the argument addresses, in order, exactly as the arity-generic
/// foreign entry point takes them.
#[derive(Debug)]
pub struct Call {
    pub target: usize,
    pub args: Vec<usize>,
}

impl Function {
    /// Prepare a call with a sequence of handles.  Fails with
    /// `PoisonError` if the callee's guard or any argument's guard is
    /// poisoned.
    pub fn call(&self, rt: &Julia, args: &Vec<Ref>) -> (r: Result<Call, Error>)
        requires
            self.0.live(*rt),
            forall|i: int| 0 <= i < args@.len() ==> (#[trigger] args@[i]).live(*rt),
        ensures
            match r {
                Ok(c) => {
                    &&& !self.0.poisoned_in(*rt)
                    &&& forall|i: int| 0 <= i < args@.len() ==> !(#[trigger] args@[i]).poisoned_in(*rt)
                    &&& c.target == self.0.addr_of(*rt)
                    &&& c.args@.len() == args@.len()
                    &&& forall|i: int|
                        0 <= i < args@.len() ==> c.args@[i] == (#[trigger] args@[i]).addr_of(*rt)
                },
                Err(e) => {
                    &&& e == Error::PoisonError
                    &&& self.0.poisoned_in(*rt) || exists|i: int|
                        0 <= i < args@.len() && (#[trigger] args@[i]).poisoned_in(*rt)
                },
            },
    {
        let target = match self.0.lock(rt) {
            Ok(a) => a,
            Err(e) => {
                return Err(e);
            },
        };
        let mut addrs: Vec<usize> = Vec::new();
        let n = args.len();
        let mut i: usize = 0;
        while i < n
            invariant
                n == args@.len(),
                i <= n,
                self.0.live(*rt),
                forall|k: int| 0 <= k < n ==> (#[trigger] args@[k]).live(*rt),
                addrs@.len() == i,
                forall|k: int|
                    0 <= k < i ==> !(#[trigger] args@[k]).poisoned_in(*rt) && addrs@[k]
                        == args@[k].addr_of(*rt),
            decreases n - i,
        {
            match args[i].lock(rt) {
                Ok(a) => {
                    addrs.push(a);
                },
                Err(e) => {
                    return Err(e);
                },
            }
            i += 1;
        }
        Ok(Call { target, args: addrs })
    }

    /// Prepare a call with no arguments.
    pub fn call0(&self, rt: &Julia) -> (r: Result<Call, Error>)
        requires
            self.0.live(*rt),
        ensures
            match r {
                Ok(c) => !self.0.poisoned_in(*rt) && c.target == self.0.addr_of(*rt) && c.args@
                    == Seq::<usize>::empty(),
                Err(e) => self.0.poisoned_in(*rt) && e == Error::PoisonError,
            },
    {
        match self.0.lock(rt) {
            Ok(a) => Ok(Call { target: a, args: Vec::new() }),
            Err(e) => Err(e),
        }
    }

    /// Prepare a call with one handle.
    pub fn call1(&self, rt: &Julia, arg1: &Ref) -> (r: Result<Call, Error>)
        requires
            self.0.live(*rt),
            arg1.live(*rt),
        ensures
            match r {
                Ok(c) => {
                    &&& !self.0.poisoned_in(*rt) && !arg1.poisoned_in(*rt)
                    &&& c.target == self.0.addr_of(*rt)
                    &&& c.args@ == seq![arg1.addr_of(*rt)]
                },
                Err(e) => (self.0.poisoned_in(*rt) || arg1.poisoned_in(*rt)) && e
                    == Error::PoisonError,
            },
    {
        let target = match self.0.lock(rt) {
            Ok(a) => a,
            Err(e) => {
                return Err(e);
            },
        };
        let a1 = match arg1.lock(rt) {
            Ok(a) => a,
            Err(e) => {
                return Err(e);
            },
        };
        let mut args: Vec<usize> = Vec::new();
        args.push(a1);
        proof {
            assert(args@ =~= seq![arg1.addr_of(*rt)]);
        }
        Ok(Call { target, args })
    }

    /// Prepare a call with two handles.
    pub fn call2(&self, rt: &Julia, arg1: &Ref, arg2: &Ref) -> (r: Result<Call, Error>)
        requires
            self.0.live(*rt),
            arg1.live(*rt),
            arg2.live(*rt),
        ensures
            match r {
                Ok(c) => {
                    &&& !self.0.poisoned_in(*rt) && !arg1.poisoned_in(*rt) && !arg2.poisoned_in(
                        *rt,
                    )
                    &&& c.target == self.0.addr_of(*rt)
                    &&& c.args@ == seq![arg1.addr_of(*rt), arg2.addr_of(*rt)]
                },
                Err(e) => (self.0.poisoned_in(*rt) || arg1.poisoned_in(*rt) || arg2.poisoned_in(
                    *rt,
                )) && e == Error::PoisonError,
            },
    {
        let target = match self.0.lock(rt) {
            Ok(a) => a,
            Err(e) => {
                return Err(e);
            },
        };
        let a1 = match arg1.lock(rt) {
            Ok(a) => a,
            Err(e) => {
                return Err(e);
            },
        };
        let a2 = match arg2.lock(rt) {
            Ok(a) => a,
            Err(e) => {
                return Err(e);
            },
        };
        let mut args: Vec<usize> = Vec::new();
        args.push(a1);
        args.push(a2);
        proof {
            assert(args@ =~= seq![arg1.addr_of(*rt), arg2.addr_of(*rt)]);
        }
        Ok(Call { target, args })
    }

    /// Prepare a call with three handles.
    pub fn call3(&self, rt: &Julia, arg1: &Ref, arg2: &Ref, arg3: &Ref) -> (r: Result<Call, Error>)
        requires
            self.0.live(*rt),
            arg1.live(*rt),
            arg2.live(*rt),
            arg3.live(*rt),
        ensures
            match r {
                Ok(c) => {
                    &&& !self.0.poisoned_in(*rt) && !arg1.poisoned_in(*rt) && !arg2.poisoned_in(
                        *rt,
                    ) && !arg3.poisoned_in(*rt)
                    &&& c.target == self.0.addr_of(*rt)
                    &&& c.args@ == seq![arg1.addr_of(*rt), arg2.addr_of(*rt), arg3.addr_of(*rt)]
                },
                Err(e) => (self.0.poisoned_in(*rt) || arg1.poisoned_in(*rt) || arg2.poisoned_in(
                    *rt,
                ) || arg3.poisoned_in(*rt)) && e == Error::PoisonError,
            },
    {
        let target = match self.0.lock(rt) {
            Ok(a) => a,
            Err(e) => {
                return Err(e);
            },
        };
        let a1 = match arg1.lock(rt) {
            Ok(a) => a,
            Err(e) => {
                return Err(e);
            },
        };
        let a2 = match arg2.lock(rt) {
            Ok(a) => a,
            Err(e) => {
                return Err(e);
            },
        };
        let a3 = match arg3.lock(rt) {
            Ok(a) => a,
            Err(e) => {
                return Err(e);
            },
        };
        let mut args: Vec<usize> = Vec::new();
        args.push(a1);
        args.push(a2);
        args.push(a3);
        proof {
            assert(args@ =~= seq![arg1.addr_of(*rt), arg2.addr_of(*rt), arg3.addr_of(*rt)]);
        }
        Ok(Call { target, args })
    }
}

} // verus!
