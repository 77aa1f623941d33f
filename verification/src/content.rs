//! The decrypted unit of communication: envelope metadata plus a body that
//! is one of data message, synchronization message, receipt, typing, call,
//! or null message (the tombstone body). Each owned type has a mathematical
//! view over which every contract speaks.

use vstd::prelude::*;

use crate::types::{GroupKey, UserId};
use crate::util::{copy_opt_bytes, copy_opt_string};

verus! {

/// The end-session flag of a data message, as carried on the wire.
pub const END_SESSION_FLAG: u32 = 1;

/// A version-2 group context: the group's master key and the revision of
/// the group snapshot the sender was holding.
#[derive(Clone, Copy, Debug)]
pub struct GroupContextV2 {
    pub master_key: Option<GroupKey>,
    pub revision: Option<u32>,
}

/// A delete marker inside a data message: the sent timestamp of the message
/// it asks to erase.
#[derive(Clone, Copy, Debug)]
pub struct DeleteMarker {
    pub target_sent_timestamp: Option<u64>,
}

/// A conversation message: text, an optional group context, an optional
/// delete marker, the sender's profile key, and protocol flags.
#[derive(Clone, Debug)]
pub struct DataMessage {
    pub body: Option<String>,
    pub group_v2: Option<GroupContextV2>,
    pub delete: Option<DeleteMarker>,
    pub profile_key: Option<Vec<u8>>,
    pub flags: Option<u32>,
}

/// The mathematical value of a `DataMessage`.
pub struct DataMessageView {
    pub body: Option<Seq<char>>,
    pub group_v2: Option<GroupContextV2>,
    pub delete: Option<DeleteMarker>,
    pub profile_key: Option<Seq<u8>>,
    pub flags: Option<u32>,
}

impl View for DataMessage {
    type V = DataMessageView;

    open spec fn view(&self) -> DataMessageView {
        DataMessageView {
            body: self.body.deep_view(),
            group_v2: self.group_v2,
            delete: self.delete,
            profile_key: self.profile_key.deep_view(),
            flags: self.flags,
        }
    }
}

impl DeepView for DataMessage {
    type V = DataMessageView;

    open spec fn deep_view(&self) -> DataMessageView {
        self.view()
    }
}

impl DataMessage {
    /// A data message with every field absent.
    pub fn empty() -> (r: DataMessage)
        ensures
            r@ == (DataMessageView {
                body: None,
                group_v2: None,
                delete: None,
                profile_key: None,
                flags: None,
            }),
    {
        DataMessage { body: None, group_v2: None, delete: None, profile_key: None, flags: None }
    }

    /// A copy carrying the same value.
    pub fn duplicate(&self) -> (r: DataMessage)
        ensures
            r@ == self@,
    {
        DataMessage {
            body: copy_opt_string(&self.body),
            group_v2: self.group_v2,
            delete: self.delete,
            profile_key: copy_opt_bytes(&self.profile_key),
            flags: self.flags,
        }
    }
}

/// The sent-copy record of a synchronization message: a message this very
/// account sent from another device, described to us after the fact.
#[derive(Clone, Debug)]
pub struct SentSync {
    pub destination: Option<UserId>,
    pub message: Option<DataMessage>,
}

/// The mathematical value of a `SentSync`.
pub struct SentSyncView {
    pub destination: Option<UserId>,
    pub message: Option<DataMessageView>,
}

impl View for SentSync {
    type V = SentSyncView;

    open spec fn view(&self) -> SentSyncView {
        SentSyncView { destination: self.destination, message: self.message.deep_view() }
    }
}

impl DeepView for SentSync {
    type V = SentSyncView;

    open spec fn deep_view(&self) -> SentSyncView {
        self.view()
    }
}

impl SentSync {
    /// A copy carrying the same value.
    pub fn duplicate(&self) -> (r: SentSync)
        ensures
            r@ == self@,
    {
        let message = match &self.message {
            Some(d) => Some(d.duplicate()),
            None => None,
        };
        SentSync { destination: self.destination, message }
    }
}

/// The kind of synchronization this device requests from the primary.
#[derive(Clone, Copy, Debug, PartialEq, Eq, Structural)]
pub enum SyncRequestKind {
    Contacts,
}

/// A synchronization message between devices of one account.
#[derive(Clone, Debug)]
pub struct SyncMessage {
    pub sent: Option<SentSync>,
    /// Whether the message carries a full contact-list payload.
    pub contacts: bool,
    /// Whether the message carries a call event.
    pub call_event: bool,
    pub request: Option<SyncRequestKind>,
}

/// The mathematical value of a `SyncMessage`.
pub struct SyncMessageView {
    pub sent: Option<SentSyncView>,
    pub contacts: bool,
    pub call_event: bool,
    pub request: Option<SyncRequestKind>,
}

impl View for SyncMessage {
    type V = SyncMessageView;

    open spec fn view(&self) -> SyncMessageView {
        SyncMessageView {
            sent: self.sent.deep_view(),
            contacts: self.contacts,
            call_event: self.call_event,
            request: self.request,
        }
    }
}

impl SyncMessage {
    /// A copy carrying the same value.
    pub fn duplicate(&self) -> (r: SyncMessage)
        ensures
            r@ == self@,
    {
        let sent = match &self.sent {
            Some(s) => Some(s.duplicate()),
            None => None,
        };
        SyncMessage { sent, contacts: self.contacts, call_event: self.call_event, request: self.request }
    }
}

/// A null message: the tombstone body of a deleted message.
#[derive(Clone, Copy, Debug)]
pub struct NullMessage {
}

/// A call signalling message.
#[derive(Clone, Copy, Debug)]
pub struct CallMessage {
}

/// A delivery or read receipt; ephemeral, never persisted.
#[derive(Clone, Copy, Debug)]
pub struct ReceiptMessage {
}

/// A typing indicator; ephemeral, never persisted.
#[derive(Clone, Copy, Debug)]
pub struct TypingMessage {
}

/// The body of a content item.
#[derive(Clone, Debug)]
pub enum ContentBody {
    DataMessage(DataMessage),
    SynchronizeMessage(SyncMessage),
    CallMessage(CallMessage),
    ReceiptMessage(ReceiptMessage),
    TypingMessage(TypingMessage),
    NullMessage(NullMessage),
}

/// The mathematical value of a `ContentBody`.
pub enum ContentBodyView {
    DataMessage(DataMessageView),
    SynchronizeMessage(SyncMessageView),
    CallMessage(CallMessage),
    ReceiptMessage(ReceiptMessage),
    TypingMessage(TypingMessage),
    NullMessage(NullMessage),
}

impl View for ContentBody {
    type V = ContentBodyView;

    open spec fn view(&self) -> ContentBodyView {
        match self {
            ContentBody::DataMessage(d) => ContentBodyView::DataMessage(d.view()),
            ContentBody::SynchronizeMessage(s) => ContentBodyView::SynchronizeMessage(s.view()),
            ContentBody::CallMessage(c) => ContentBodyView::CallMessage(*c),
            ContentBody::ReceiptMessage(r) => ContentBodyView::ReceiptMessage(*r),
            ContentBody::TypingMessage(t) => ContentBodyView::TypingMessage(*t),
            ContentBody::NullMessage(n) => ContentBodyView::NullMessage(*n),
        }
    }
}

impl ContentBody {
    /// A copy carrying the same value.
    pub fn duplicate(&self) -> (r: ContentBody)
        ensures
            r@ == self@,
    {
        match self {
            ContentBody::DataMessage(d) => ContentBody::DataMessage(d.duplicate()),
            ContentBody::SynchronizeMessage(s) => ContentBody::SynchronizeMessage(s.duplicate()),
            ContentBody::CallMessage(c) => ContentBody::CallMessage(*c),
            ContentBody::ReceiptMessage(r) => ContentBody::ReceiptMessage(*r),
            ContentBody::TypingMessage(t) => ContentBody::TypingMessage(*t),
            ContentBody::NullMessage(n) => ContentBody::NullMessage(*n),
        }
    }
}

/// Envelope metadata of a content item.
#[derive(Clone, Copy, Debug)]
pub struct Metadata {
    /// The sender identity; absent when the envelope did not reveal it.
    pub sender: Option<UserId>,
    pub sender_device: u32,
    /// The server timestamp, which keys the message in its thread.
    pub timestamp: u64,
    pub needs_receipt: bool,
    pub unidentified_sender: bool,
}

/// A decrypted content item. Immutable once constructed; a delete is
/// modeled by replacing a stored item with a null-message tombstone.
#[derive(Clone, Debug)]
pub struct Content {
    pub metadata: Metadata,
    pub body: ContentBody,
}

/// The mathematical value of a `Content`.
pub struct ContentView {
    pub metadata: Metadata,
    pub body: ContentBodyView,
}

impl View for Content {
    type V = ContentView;

    open spec fn view(&self) -> ContentView {
        ContentView { metadata: self.metadata, body: self.body.view() }
    }
}

impl DeepView for Content {
    type V = ContentView;

    open spec fn deep_view(&self) -> ContentView {
        self.view()
    }
}

impl Content {
    /// A copy carrying the same value.
    pub fn duplicate(&self) -> (r: Content)
        ensures
            r@ == self@,
    {
        Content { metadata: self.metadata, body: self.body.duplicate() }
    }
}

impl ContentView {
    /// The destination of a sent-sync record, when the body carries one.
    pub open spec fn sent_destination(self) -> Option<UserId> {
        match self.body {
            ContentBodyView::SynchronizeMessage(sm) => match sm.sent {
                Some(sent) => sent.destination,
                None => None,
            },
            _ => None,
        }
    }

    /// The data message inside the body: either the direct one, or the one
    /// wrapped in a sent-sync record.
    pub open spec fn inner_data_message(self) -> Option<DataMessageView> {
        match self.body {
            ContentBodyView::DataMessage(d) => Some(d),
            ContentBodyView::SynchronizeMessage(sm) => match sm.sent {
                Some(sent) => sent.message,
                None => None,
            },
            _ => None,
        }
    }

    /// The group master key carried by the body's group-v2 context, present
    /// directly or nested inside a sent-sync record.
    pub open spec fn group_context_key(self) -> Option<GroupKey> {
        match self.inner_data_message() {
            Some(d) => match d.group_v2 {
                Some(ctx) => ctx.master_key,
                None => None,
            },
            None => None,
        }
    }

    /// The group context with both master key and revision present, which
    /// is what entitles the pipeline to consider a group-cache update.
    pub open spec fn group_context_with_revision(self) -> Option<(GroupKey, u32)> {
        match self.inner_data_message() {
            Some(d) => match d.group_v2 {
                Some(ctx) => match (ctx.master_key, ctx.revision) {
                    (Some(k), Some(rev)) => Some((k, rev)),
                    _ => None,
                },
                None => None,
            },
            None => None,
        }
    }

    /// Whether the body is a synchronization message carrying a full
    /// contact list.
    pub open spec fn is_contacts_sync(self) -> bool {
        match self.body {
            ContentBodyView::SynchronizeMessage(sm) => sm.contacts,
            _ => false,
        }
    }

    /// The delete marker's target timestamp of the inner data message.
    pub open spec fn delete_target(self) -> Option<u64> {
        match self.inner_data_message() {
            Some(d) => match d.delete {
                Some(marker) => marker.target_sent_timestamp,
                None => None,
            },
            None => None,
        }
    }
}

} // verus!
