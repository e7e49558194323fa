//! Safety layer between a host process and an embedded, dynamically typed
//! runtime whose values live on a foreign, garbage-collected heap.
//!
//! The crate models the host side of the binding protocol explicitly: a
//! reference-counted, poisonable handle around each foreign address, an
//! exception bridge that drains and classifies the runtime's pending-fault
//! slot after every foreign entry point, typed views over handles, and a
//! deferred-error builder for registering new foreign types.  The foreign
//! runtime itself is consumed, never reimplemented: everything it computes
//! enters the library as plain values.

pub mod api;
pub mod error;
pub mod ext;
pub mod version;
