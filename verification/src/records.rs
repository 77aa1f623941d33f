//! Persisted records: contacts, the local group cache, and per-thread
//! metadata. Each owned type has a mathematical view over which every
//! contract speaks.

use vstd::prelude::*;

use crate::types::{Thread, UserId};
use crate::util::{copy_bytes, copy_opt_bytes, copy_opt_string};

verus! {

/// A contact: stable address, display name, optional phone number, the
/// profile key (empty until learned), flags, and an avatar reference.
#[derive(Clone, Debug)]
pub struct Contact {
    pub address: UserId,
    pub name: String,
    pub phone_number: Option<String>,
    pub profile_key: Vec<u8>,
    pub blocked: bool,
    pub archived: bool,
    pub avatar: Option<Vec<u8>>,
}

/// The mathematical value of a `Contact`.
pub struct ContactView {
    pub address: UserId,
    pub name: Seq<char>,
    pub phone_number: Option<Seq<char>>,
    pub profile_key: Seq<u8>,
    pub blocked: bool,
    pub archived: bool,
    pub avatar: Option<Seq<u8>>,
}

impl View for Contact {
    type V = ContactView;

    open spec fn view(&self) -> ContactView {
        ContactView {
            address: self.address,
            name: self.name@,
            phone_number: self.phone_number.deep_view(),
            profile_key: self.profile_key@,
            blocked: self.blocked,
            archived: self.archived,
            avatar: self.avatar.deep_view(),
        }
    }
}

impl DeepView for Contact {
    type V = ContactView;

    open spec fn deep_view(&self) -> ContactView {
        self.view()
    }
}

impl Contact {
    /// A copy carrying the same value.
    pub fn duplicate(&self) -> (r: Contact)
        ensures
            r@ == self@,
    {
        Contact {
            address: self.address,
            name: self.name.clone(),
            phone_number: copy_opt_string(&self.phone_number),
            profile_key: copy_bytes(&self.profile_key),
            blocked: self.blocked,
            archived: self.archived,
            avatar: copy_opt_bytes(&self.avatar),
        }
    }

    /// A fresh placeholder contact for an address first seen in a message:
    /// empty name, the given profile key material, nothing else known.
    pub fn placeholder(address: UserId, profile_key: Vec<u8>) -> (r: Contact)
        ensures
            r@ == (ContactView {
                address,
                name: Seq::<char>::empty(),
                phone_number: None,
                profile_key: profile_key@,
                blocked: false,
                archived: false,
                avatar: None,
            }),
    {
        Contact {
            address,
            name: String::new(),
            phone_number: None,
            profile_key,
            blocked: false,
            archived: false,
            avatar: None,
        }
    }
}

/// Access control of a group, as two numeric policies.
#[derive(Clone, Copy, Debug)]
pub struct AccessControl {
    pub attributes: u32,
    pub members: u32,
}

/// The local cache of a group's metadata, keyed elsewhere by the group's
/// master key. The revision is monotonically non-decreasing in the cache.
#[derive(Clone, Debug)]
pub struct Group {
    pub title: String,
    pub avatar: String,
    pub members: Vec<UserId>,
    pub revision: u32,
    pub description: Option<String>,
    pub access_control: Option<AccessControl>,
}

/// The mathematical value of a `Group`.
pub struct GroupView {
    pub title: Seq<char>,
    pub avatar: Seq<char>,
    pub members: Seq<UserId>,
    pub revision: u32,
    pub description: Option<Seq<char>>,
    pub access_control: Option<AccessControl>,
}

impl View for Group {
    type V = GroupView;

    open spec fn view(&self) -> GroupView {
        GroupView {
            title: self.title@,
            avatar: self.avatar@,
            members: self.members@,
            revision: self.revision,
            description: self.description.deep_view(),
            access_control: self.access_control,
        }
    }
}

impl DeepView for Group {
    type V = GroupView;

    open spec fn deep_view(&self) -> GroupView {
        self.view()
    }
}

impl Group {
    /// A copy carrying the same value.
    pub fn duplicate(&self) -> (r: Group)
        ensures
            r@ == self@,
    {
        let mut members: Vec<UserId> = Vec::new();
        let mut i: usize = 0;
        while i < self.members.len()
            invariant
                i <= self.members.len(),
                members@ == self.members@.subrange(0, i as int),
            decreases self.members.len() - i,
        {
            members.push(self.members[i]);
            proof {
                assert(members@ =~= self.members@.subrange(0, i + 1));
            }
            i = i + 1;
        }
        proof {
            assert(members@ =~= self.members@);
        }
        Group {
            title: self.title.clone(),
            avatar: self.avatar.clone(),
            members,
            revision: self.revision,
            description: copy_opt_string(&self.description),
            access_control: self.access_control,
        }
    }
}

/// The cached summary of the last message of a thread.
#[derive(Clone, Debug)]
pub struct ThreadMetadataMessageContent {
    pub sender: UserId,
    pub timestamp: u64,
    pub message: Option<String>,
}

/// The mathematical value of a `ThreadMetadataMessageContent`.
pub struct ThreadMetadataMessageContentView {
    pub sender: UserId,
    pub timestamp: u64,
    pub message: Option<Seq<char>>,
}

impl View for ThreadMetadataMessageContent {
    type V = ThreadMetadataMessageContentView;

    open spec fn view(&self) -> ThreadMetadataMessageContentView {
        ThreadMetadataMessageContentView {
            sender: self.sender,
            timestamp: self.timestamp,
            message: self.message.deep_view(),
        }
    }
}

impl ThreadMetadataMessageContent {
    /// A copy carrying the same value.
    pub fn duplicate(&self) -> (r: ThreadMetadataMessageContent)
        ensures
            r@ == self@,
    {
        ThreadMetadataMessageContent {
            sender: self.sender,
            timestamp: self.timestamp,
            message: copy_opt_string(&self.message),
        }
    }
}

/// One row of per-thread state: at most one exists per thread.
#[derive(Clone, Debug)]
pub struct ThreadMetadata {
    pub thread: Thread,
    pub last_message: Option<ThreadMetadataMessageContent>,
    pub unread_messages_count: usize,
    pub title: Option<String>,
    pub archived: bool,
    pub muted: bool,
}

/// The mathematical value of a `ThreadMetadata`.
pub struct ThreadMetadataView {
    pub thread: Thread,
    pub last_message: Option<ThreadMetadataMessageContentView>,
    pub unread_messages_count: usize,
    pub title: Option<Seq<char>>,
    pub archived: bool,
    pub muted: bool,
}

impl View for ThreadMetadata {
    type V = ThreadMetadataView;

    open spec fn view(&self) -> ThreadMetadataView {
        ThreadMetadataView {
            thread: self.thread,
            last_message: match self.last_message {
                Some(ref m) => Some(m.view()),
                None => None,
            },
            unread_messages_count: self.unread_messages_count,
            title: self.title.deep_view(),
            archived: self.archived,
            muted: self.muted,
        }
    }
}

impl DeepView for ThreadMetadata {
    type V = ThreadMetadataView;

    open spec fn deep_view(&self) -> ThreadMetadataView {
        self.view()
    }
}

impl ThreadMetadata {
    /// A copy carrying the same value.
    pub fn duplicate(&self) -> (r: ThreadMetadata)
        ensures
            r@ == self@,
    {
        ThreadMetadata {
            thread: self.thread,
            last_message: match &self.last_message {
                Some(m) => Some(m.duplicate()),
                None => None,
            },
            unread_messages_count: self.unread_messages_count,
            title: copy_opt_string(&self.title),
            archived: self.archived,
            muted: self.muted,
        }
    }
}

} // verus!
