//! The contract's failure taxonomy. Every operation either succeeds as a
//! whole or returns exactly one of these.

use vstd::prelude::*;

verus! {

/// Why an operation was refused.
#[derive(Clone, Debug, PartialEq, Eq)]
pub enum ContractError {
    /// An address did not validate, or a callback carried an unrecognized
    /// correlation token.
    Unauthorized,
    /// An operation that needs an attached fund unit received none.
    MissingFunds,
    /// The dispatch encoder could not serialize a call descriptor; `message`
    /// is the encoder's description. Raised only at the encoding boundary,
    /// never by the chaining engine itself.
    DispatchEncodingFailure { message: String },
    /// The host reported that a dispatched call failed; `message` is the
    /// host's description, propagated verbatim.
    UpstreamFailure { message: String },
}

} // verus!
