//! The ways in which building a request can fail.

use vstd::prelude::*;

verus! {

/// Why no request was built. A failed construction returns one of these and
/// nothing else: there is no partly built request.
#[derive(Clone, Copy, Debug, PartialEq, Eq)]
pub enum RequestError {
    /// The instance index names no entry of the market's instance list.
    InvalidInstanceIndex,
    /// An argument does not fit the wire layout: a string of more than
    /// `u32::MAX` bytes has no length prefix.
    EncodingError,
    /// One half of an optional pair of accounts was given without the other.
    MissingOptionalAccount,
}

} // verus!
