//! Non-blocking results.

use vstd::prelude::*;

verus! {

/// The error of a non-blocking operation: it would block, or it failed.
#[derive(Clone, Copy, Debug, PartialEq, Eq, Structural)]
pub enum NbError<E> {
    /// A different error occurred.
    Other(E),
    /// The operation cannot complete yet.
    WouldBlock,
}

} // verus!
