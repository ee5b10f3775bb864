//! The error vocabulary of a single dispatched call.

use vstd::prelude::*;

verus! {

/// Why a call through the registry failed.
///
/// Every failure propagates synchronously to the immediate caller of
/// `handle_method`; nothing is retried inside the registry and no partial
/// output is emitted.
#[derive(Clone, Copy, Debug, PartialEq, Eq, Structural)]
pub enum CallError {
    /// Lookup found no entry for the requested method name.
    UnknownMethod,
    /// The request bytes do not conform to what the request marshaller expects.
    DecodeFailure,
    /// The handler itself failed while answering the request.
    HandlerFailure,
    /// The handler's typed response could not be serialized.
    EncodeFailure,
}

} // verus!
