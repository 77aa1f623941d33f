//! Identity types: user identifiers, group master keys, and the `Thread`
//! that names a conversation.

use vstd::prelude::*;

verus! {

/// Stable identifier of a user account (the 128 bits of its service UUID).
#[derive(Clone, Copy, Debug, PartialEq, Eq, Hash, Structural)]
pub struct UserId {
    pub id: u128,
}

impl UserId {
    /// The nil identity, used to blank the sender of a tombstoned message.
    pub fn nil() -> (r: UserId)
        ensures
            r.id == 0,
    {
        UserId { id: 0 }
    }

    /// Whether this is the nil identity.
    pub open spec fn is_nil(self) -> bool {
        self.id == 0
    }
}

/// A group's 32 bytes of master key material, held as two 128-bit halves.
/// This identifies a group; it is never the group's rotating credentials.
#[derive(Clone, Copy, Debug, PartialEq, Eq, Hash, Structural)]
pub struct GroupKey {
    pub hi: u128,
    pub lo: u128,
}

impl DeepView for UserId {
    type V = UserId;

    open spec fn deep_view(&self) -> UserId {
        *self
    }
}

impl DeepView for GroupKey {
    type V = GroupKey;

    open spec fn deep_view(&self) -> GroupKey {
        *self
    }
}

/// A thread specifies where a message was sent: either a one-to-one chat
/// with a contact, or a group chat identified by its master key.
#[derive(Clone, Copy, Debug, PartialEq, Eq, Hash, Structural)]
pub enum Thread {
    /// The message was sent inside a contact chat.
    Contact(UserId),
    /// The message was sent inside a group chat.
    Group(GroupKey),
}

impl DeepView for Thread {
    type V = Thread;

    open spec fn deep_view(&self) -> Thread {
        *self
    }
}

/// The primary key of a stored message: its thread and its server timestamp.
#[derive(Clone, Copy, Debug, PartialEq, Eq, Hash, Structural)]
pub struct MessageKey {
    pub thread: Thread,
    pub timestamp: u64,
}

} // verus!
