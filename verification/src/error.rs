//! Errors surfaced asynchronously through the reply channel. These come from
//! the peer service or from a detected transport-correctness violation, and
//! are always terminal for the exchange they answer.

use vstd::prelude::*;

verus! {

/// Error carried inside the reply channel.
///
/// `InternalError` is also produced locally when an arriving successful
/// reply does not match the tag of the outstanding request: a
/// transport-correctness violation that must never be coerced into a
/// success.
#[derive(Clone, Copy, Debug, PartialEq, Eq, Structural)]
pub enum Error {
    ImplementationError,
    InternalError,
}

} // verus!
