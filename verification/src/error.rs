//! The ways in which a call can fail.

use vstd::prelude::*;

verus! {

/// Why a call did not produce a result.
///
/// The library itself raises only [`ErrorKind::Serialization`], which comes
/// before anything is sent. The other two are for whoever sends the request
/// and decodes the answer.
#[derive(Clone, Copy, Debug, PartialEq, Eq, Structural)]
pub enum ErrorKind {
    /// A parameter of the call has no form in which it could be sent.
    Serialization,
    /// The transport could not complete the round trip.
    Transport,
    /// The body of the answer does not have the expected shape.
    Decode,
}

} // verus!
