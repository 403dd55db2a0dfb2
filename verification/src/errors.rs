use vstd::prelude::*;

verus! {

/// Errors surfaced by the client core.
#[derive(Debug, Clone, Copy, PartialEq, Eq, Structural)]
pub enum RTDError {
    /// The native transport failed to accept or deliver a payload.
    /// Fatal to the receive loop; never retried.
    Transport,
    /// A payload from the transport could not be decoded. Fatal: the
    /// protocol stream is desynchronized.
    Decode,
    /// A waiter is already pending for the same correlation identifier.
    /// A caller bug (identifier reuse while still in flight).
    DuplicateRegistration,
    /// A registered waiter was not fulfilled within the caller's
    /// deadline. The caller may retry with a fresh identifier.
    Timeout,
    /// The transport rejected a submitted credential.
    AuthorizationRejected,
    /// The authorization flow reached a state this client does not
    /// drive (registration, other-device confirmation, logout and
    /// shutdown states). A named unsupported flow, not a crash.
    UnsupportedAuthState,
}

pub type RTDResult<T> = Result<T, RTDError>;

} // verus!
