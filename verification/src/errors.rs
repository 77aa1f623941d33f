//! The error taxonomy of the core: typed failures that callers use to tell
//! "retry with different input" from "unrecoverable, start over".

use vstd::prelude::*;

verus! {

/// An opaque failure reported by the persistence backend. Callers must
/// distinguish it from "not found", which every lookup reports as `None`.
#[derive(Clone, Debug, PartialEq, Eq)]
pub struct StoreError {
    pub message: String,
}

/// An opaque failure reported by a transport or protocol collaborator.
#[derive(Clone, Debug, PartialEq, Eq)]
pub struct ServiceFailure {
    pub message: String,
}

impl ServiceFailure {
    /// A copy carrying the same value.
    pub fn duplicate(&self) -> (r: ServiceFailure)
        ensures
            r == *self,
    {
        ServiceFailure { message: self.message.clone() }
    }
}

#[derive(Clone, Debug, PartialEq, Eq)]
pub enum Error {
    /// A Registered record already exists and the force flag was not set.
    AlreadyRegisteredError,
    /// The collaborator demands a human-verification challenge first.
    CaptchaRequired,
    /// The provisioning channel produced no URL, or the URL could not be
    /// delivered to the caller.
    LinkError,
    /// The provisioning channel emitted the URL but closed before emitting
    /// the new-device credentials.
    NoProvisioningMessageReceived,
    /// No Registered record is persisted in the store.
    NotYetRegisteredError,
    /// A send was attempted before ingestion established the two sockets.
    MessagePipeNotStarted,
    /// Thread resolution reached the sender fallback, but the envelope
    /// metadata carries no sender identity.
    ContentMissingUuid,
    /// A group send was requested for a master key with no cached group.
    UnknownGroup,
    /// The bounded wait for a contacts synchronization expired.
    SyncTimeout,
    /// Hard failure of the persistence backend.
    Store(StoreError),
    /// Failure of a transport or protocol collaborator.
    Service(ServiceFailure),
}

} // verus!
