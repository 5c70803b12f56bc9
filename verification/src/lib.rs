//! Cooperative bridge primitives that turn repeated host callbacks into
//! pollable sequences: a local channel, a one-shot channel, an abort
//! signal, a mutex, chunked stream adapters and timer handles.
//!
//! Every primitive is modelled as an explicitly owned state core.  The
//! host side (the code that runs callbacks, stores wakers and performs
//! the actual waking) drives a core by calling its transition methods;
//! each method returns the action the host must perform, such as the
//! waiter that has to be woken.  The cores never block and never panic:
//! an operation that is not ready reports `Pending` and relies on a
//! later wake.

use vstd::prelude::*;

pub mod abort;
pub mod battery;
pub mod fetch;
pub mod fs;
pub mod geo;
pub mod local;
pub mod math;
pub mod notify;
pub mod mutex;
pub mod oneshot;
pub mod read_stream;
pub mod timer;
pub mod write_stream;

verus! {

/// Outcome of polling a channel receiver or a stream adapter: the next
/// item, the permanent end of the sequence, or not ready yet.
#[derive(Debug, PartialEq, Eq)]
pub enum Polled<T> {
    /// The next value of the sequence.
    Item(T),
    /// The sequence has ended and will never produce a value again.
    Closed,
    /// No value is available yet; a waiter was stored and will be woken.
    Pending,
}

/// Conversion of ready-made message arguments into an owned string.
pub trait ArgsExt: Sized {
    /// Returns the argument as an owned string.
    fn into_str(self) -> String;
}

impl ArgsExt for String {
    fn into_str(self) -> String {
        self
    }
}

} // verus!
