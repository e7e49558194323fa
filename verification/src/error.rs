//! Types for error checking and debugging.

use vstd::prelude::*;

verus! {

/// A union of the errors that might occur while driving the foreign runtime:
/// marshalling failures, resource-discipline violations on handles, and
/// protocol misuse.
#[derive(Debug, PartialEq, Eq, Structural)]
pub enum Error {
    /// An exception has occurred.
    UnhandledException(crate::api::exception::Exception),
    /// Cannot unbox into a certain type.
    InvalidUnbox,
    /// Tried to call a non-function object.
    NotAFunction,
    /// An error occurred while trying to call a function.
    CallError,
    /// An error occurred while evaluating a string or expression.
    EvalError,
    /// Attempt to construct a string or foreign object with a null pointer.
    NullPointer,
    /// Invalid characters used in a symbol.
    InvalidSymbol,
    /// Attempt to initialize the runtime in a process where it is already
    /// initialized.
    JuliaInitialized,
    /// Attempt to borrow through a poisoned guard.
    PoisonError,
    /// Attempt to take ownership of a resource that is still shared.
    ResourceInUse,
}

impl Error {
    /// A short, fixed description of the error.
    pub fn description(&self) -> (r: &'static str)
        ensures
            r@.len() > 0,
    {
        let r = match self {
            Error::UnhandledException(_) => "an exception has occurred",
            Error::InvalidUnbox => "that value cannot be unboxed into that host type",
            Error::NotAFunction => "this value is not a function",
            Error::CallError => "an error occurred while calling a function",
            Error::EvalError => "an error occurred while evaluating an expression",
            Error::NullPointer => "the supplied raw pointer is a null pointer",
            Error::InvalidSymbol => "the symbol contains invalid characters",
            Error::JuliaInitialized => "the runtime was already initialized",
            Error::PoisonError => "attempt to use a poisoned guard",
            Error::ResourceInUse => "attempt to take ownership of a resource in use",
        };
        proof {
            reveal_strlit("an exception has occurred");
            reveal_strlit("that value cannot be unboxed into that host type");
            reveal_strlit("this value is not a function");
            reveal_strlit("an error occurred while calling a function");
            reveal_strlit("an error occurred while evaluating an expression");
            reveal_strlit("the supplied raw pointer is a null pointer");
            reveal_strlit("the symbol contains invalid characters");
            reveal_strlit("the runtime was already initialized");
            reveal_strlit("attempt to use a poisoned guard");
            reveal_strlit("attempt to take ownership of a resource in use");
        }
        r
    }
}

} // verus!
