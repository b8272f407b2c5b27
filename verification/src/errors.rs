//! Error taxonomy of the engine.

use vstd::prelude::*;

verus! {

/// Everything that can go wrong while a session runs.
///
/// - `ConfigurationError`: the website descriptor cannot produce a URL;
///   fatal, raised before any request is issued.
/// - `TransportError`: a network or timeout failure on a call.
/// - `AuthenticationError`: the login request was answered with a failing
///   status class, or did not go through at all.
/// - `ProtocolError`: the session could not be confirmed — the verification
///   response lacked the membership marker or failed outright.
/// - `PreconditionError`: the action was attempted outside the
///   `Authenticated` state; a programming error, no request is issued.
/// - `BusinessError`: the action was rejected for a domain reason
///   distinguishable from a transport failure.
/// - `StoreError`: propagated unchanged from the credential store.
#[derive(Clone, Copy, Debug, PartialEq, Eq, Structural)]
pub enum EngineError {
    ConfigurationError,
    TransportError,
    AuthenticationError,
    ProtocolError,
    PreconditionError,
    BusinessError,
    StoreError,
}

} // verus!
