//! Errors surfaced by the node service, and how transport-level client
//! errors map into them: the service distinguishes only "the peer is
//! unreachable" from everything else, so the taxonomy collapses accordingly.

use vstd::prelude::*;

use crate::client::ClientError;

verus! {

/// What a node-service operation can report to its caller.
#[derive(Clone, Debug)]
pub enum ServiceError {
    /// Anything unexpected, including a lookup the finger table cannot route.
    Unexpected(String),
    /// The peer the operation depended on could not be reached.
    ClientDisconnected,
}

impl From<ClientError> for ServiceError {
    /// Collapse the client taxonomy: an unreachable peer (including a client
    /// that never finished connecting) becomes `ClientDisconnected`;
    /// everything else is surfaced as `Unexpected` with the peer's message.
    fn from(err: ClientError) -> (r: ServiceError) {
        match err {
            ClientError::ConnectionFailed(_) => ServiceError::ClientDisconnected,
            ClientError::NotInitialized => ServiceError::ClientDisconnected,
            ClientError::InvalidRequest(m) => ServiceError::Unexpected(m),
            ClientError::Unexpected(m) => ServiceError::Unexpected(m),
        }
    }
}

impl vstd::std_specs::convert::FromSpecImpl<ClientError> for ServiceError {
    open spec fn obeys_from_spec() -> bool {
        true
    }

    open spec fn from_spec(err: ClientError) -> ServiceError {
        match err {
            ClientError::ConnectionFailed(_) => ServiceError::ClientDisconnected,
            ClientError::NotInitialized => ServiceError::ClientDisconnected,
            ClientError::InvalidRequest(m) => ServiceError::Unexpected(m),
            ClientError::Unexpected(m) => ServiceError::Unexpected(m),
        }
    }
}

/// Why joining a ring failed, as the startup loop distinguishes the cases.
#[derive(Clone, Copy, Debug)]
pub enum JoinRingError {
    /// The bootstrap peer could not be reached.
    ClientError,
    /// The ring answered, but the join could not complete.
    ServiceError,
}

impl From<ServiceError> for JoinRingError {
    fn from(error: ServiceError) -> (r: JoinRingError) {
        match error {
            ServiceError::Unexpected(_) => JoinRingError::ServiceError,
            ServiceError::ClientDisconnected => JoinRingError::ClientError,
        }
    }
}

impl vstd::std_specs::convert::FromSpecImpl<ServiceError> for JoinRingError {
    open spec fn obeys_from_spec() -> bool {
        true
    }

    open spec fn from_spec(error: ServiceError) -> JoinRingError {
        match error {
            ServiceError::Unexpected(_) => JoinRingError::ServiceError,
            ServiceError::ClientDisconnected => JoinRingError::ClientError,
        }
    }
}

} // verus!
