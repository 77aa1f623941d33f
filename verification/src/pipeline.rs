//! The message ingestion pipeline: classification of decrypted content,
//! the group-cache revision guard, lazy thread-metadata creation, and the
//! body-specific persistence policy.

use vstd::prelude::*;

use crate::content::{
    Content, ContentBody, ContentBodyView, ContentView, DataMessageView, Metadata, NullMessage,
};
use crate::errors::Error;
use crate::records::{
    Group, GroupView, ThreadMetadata, ThreadMetadataView,
};
use crate::resolver::resolve_thread;
use crate::store::{Store, StoreModel};
use crate::types::{GroupKey, MessageKey, Thread, UserId};
use crate::util::{decimal_of, u128_to_string};

verus! {

/// Whether a fetched snapshot of the group must overwrite the cache: yes
/// exactly when no copy is cached or the new revision is strictly greater.
pub open spec fn spec_fetch_needed(
    groups: Map<GroupKey, GroupView>,
    key: GroupKey,
    revision: u32,
) -> bool {
    !groups.contains_key(key) || groups[key].revision < revision
}

/// The group cache after upserting a fetched snapshot: unchanged when a
/// cached copy has an equal or greater revision, replaced otherwise.
pub open spec fn spec_upsert_group(
    groups: Map<GroupKey, GroupView>,
    key: GroupKey,
    fetched: GroupView,
) -> Map<GroupKey, GroupView> {
    if groups.contains_key(key) && fetched.revision <= groups[key].revision {
        groups
    } else {
        groups.insert(key, fetched)
    }
}

/// Law: the group-cache revision is monotone. Upserting a fetched group
/// with a revision at most the cached one leaves the cache unchanged, and
/// one with a strictly greater revision (or no cached copy) replaces it.
pub proof fn lemma_group_cache_monotone(
    groups: Map<GroupKey, GroupView>,
    key: GroupKey,
    fetched: GroupView,
)
    ensures
        groups.contains_key(key) && fetched.revision <= groups[key].revision
            ==> spec_upsert_group(groups, key, fetched) == groups,
        !(groups.contains_key(key) && fetched.revision <= groups[key].revision)
            ==> spec_upsert_group(groups, key, fetched) == groups.insert(key, fetched),
{
}

/// Reports whether the group under this key must be fetched before the
/// cache may be overwritten with the given revision.
pub fn group_fetch_needed<C: Store>(store: &C, key: GroupKey, revision: u32) -> (r: Result<
    bool,
    Error,
>)
    ensures
        match r {
            Ok(b) => b == spec_fetch_needed(store.model().groups, key, revision),
            Err(e) => e is Store,
        },
{
    match store.group(key) {
        Ok(Some(cached)) => Ok(cached.revision < revision),
        Ok(None) => Ok(true),
        Err(e) => Err(Error::Store(e)),
    }
}

/// Upserts a fetched group snapshot into the cache, guarded by the
/// revision invariant: an equal or lower revision never overwrites.
pub fn upsert_group<C: Store>(store: &mut C, key: GroupKey, fetched: Group) -> (r: Result<
    (),
    Error,
>)
    ensures
        match r {
            Ok(_) => final(store).model() == (StoreModel {
                groups: spec_upsert_group(old(store).model().groups, key, fetched@),
                ..old(store).model()
            }),
            Err(e) => final(store).model() == old(store).model() && e is Store,
        },
{
    let overwrite = match store.group(key) {
        Ok(Some(cached)) => cached.revision < fetched.revision,
        Ok(None) => true,
        Err(e) => {
            return Err(Error::Store(e));
        },
    };
    if overwrite {
        match store.save_group(key, fetched) {
            Ok(_) => Ok(()),
            Err(e) => Err(Error::Store(e)),
        }
    } else {
        proof {
            assert(spec_upsert_group(old(store).model().groups, key, fetched@) =~= old(
                store,
            ).model().groups);
            assert(final(store).model() =~= (StoreModel {
                groups: spec_upsert_group(old(store).model().groups, key, fetched@),
                ..old(store).model()
            }));
        }
        Ok(())
    }
}

/// The title a thread presents: the contact's name (or its decimal
/// identifier when the contact is unknown), or the group's title (empty
/// when the group is not cached).
pub open spec fn spec_thread_title(m: StoreModel, thread: Thread) -> Seq<char> {
    match thread {
        Thread::Contact(uid) => if m.contacts.contains_key(uid) {
            m.contacts[uid].name
        } else {
            decimal_of(uid.id)
        },
        Thread::Group(key) => if m.groups.contains_key(key) {
            m.groups[key].title
        } else {
            Seq::empty()
        },
    }
}

/// Resolves the display title of a thread from the store.
pub fn thread_title<C: Store>(store: &C, thread: Thread) -> (r: Result<String, Error>)
    ensures
        match r {
            Ok(s) => s@ == spec_thread_title(store.model(), thread),
            Err(e) => e is Store,
        },
{
    match thread {
        Thread::Contact(uid) => match store.contact_by_id(uid) {
            Ok(Some(contact)) => Ok(contact.name),
            Ok(None) => Ok(u128_to_string(uid.id)),
            Err(e) => Err(Error::Store(e)),
        },
        Thread::Group(key) => match store.group(key) {
            Ok(Some(group)) => Ok(group.title),
            Ok(None) => Ok(String::new()),
            Err(e) => Err(Error::Store(e)),
        },
    }
}

/// The metadata row created the first time a message arrives for a thread
/// that has none: resolved title, zero unread, not archived, not muted.
pub open spec fn spec_new_metadata(m: StoreModel, thread: Thread) -> ThreadMetadataView {
    ThreadMetadataView {
        thread,
        last_message: None,
        unread_messages_count: 0,
        title: Some(spec_thread_title(m, thread)),
        archived: false,
        muted: false,
    }
}

/// The metadata map after lazily ensuring a row for a thread: unchanged
/// when one exists, extended by a fresh row otherwise.
pub open spec fn spec_ensure_metadata(m: StoreModel, thread: Thread) -> Map<
    Thread,
    ThreadMetadataView,
> {
    if m.metadata.contains_key(thread) {
        m.metadata
    } else {
        m.metadata.insert(thread, spec_new_metadata(m, thread))
    }
}

/// Law: metadata creation is idempotent. Once a thread has its row,
/// ensuring it again changes nothing, so two content items for the same
/// new thread create exactly one row.
pub proof fn lemma_ensure_metadata_idempotent(m: StoreModel, thread: Thread)
    ensures
        ({
            let once = StoreModel { metadata: spec_ensure_metadata(m, thread), ..m };
            spec_ensure_metadata(once, thread) == once.metadata
        }),
        spec_ensure_metadata(m, thread).dom() == m.metadata.dom().insert(thread),
{
    let once = StoreModel { metadata: spec_ensure_metadata(m, thread), ..m };
    assert(once.metadata.contains_key(thread));
    assert(spec_ensure_metadata(m, thread).dom() =~= m.metadata.dom().insert(thread));
}

/// Creates and saves the metadata row of a thread.
pub fn create_thread_metadata<C: Store>(store: &mut C, thread: Thread) -> (r: Result<
    ThreadMetadata,
    Error,
>)
    ensures
        match r {
            Ok(md) => md@ == spec_new_metadata(old(store).model(), thread) && final(store).model()
                == (StoreModel {
                metadata: old(store).model().metadata.insert(thread, md@),
                ..old(store).model()
            }),
            Err(e) => final(store).model() == old(store).model() && e is Store,
        },
{
    let title = match thread_title(store, thread) {
        Ok(t) => t,
        Err(e) => {
            return Err(e);
        },
    };
    let metadata = ThreadMetadata {
        thread,
        last_message: None,
        unread_messages_count: 0,
        title: Some(title),
        archived: false,
        muted: false,
    };
    let out = metadata.duplicate();
    match store.save_thread_metadata(metadata) {
        Ok(_) => Ok(out),
        Err(e) => Err(Error::Store(e)),
    }
}

/// Ensures a metadata row exists for a thread, creating one lazily.
pub fn ensure_thread_metadata<C: Store>(store: &mut C, thread: Thread) -> (r: Result<(), Error>)
    ensures
        match r {
            Ok(_) => final(store).model() == (StoreModel {
                metadata: spec_ensure_metadata(old(store).model(), thread),
                ..old(store).model()
            }),
            Err(e) => final(store).model() == old(store).model() && e is Store,
        },
{
    match store.thread_metadata(thread) {
        Ok(Some(_)) => {
            proof {
                assert(final(store).model() =~= (StoreModel {
                    metadata: spec_ensure_metadata(old(store).model(), thread),
                    ..old(store).model()
                }));
            }
            Ok(())
        },
        Ok(None) => match create_thread_metadata(store, thread) {
            Ok(_) => Ok(()),
            Err(e) => Err(e),
        },
        Err(e) => Err(Error::Store(e)),
    }
}

/// The tombstone that replaces a deleted message: the sender blanked to
/// the nil identity, the body a null message, keyed at the erased
/// timestamp.
pub open spec fn spec_tombstone(c: ContentView, timestamp: u64) -> ContentView {
    ContentView {
        metadata: Metadata {
            sender: Some(UserId { id: 0 }),
            timestamp,
            ..c.metadata
        },
        body: ContentBodyView::NullMessage(NullMessage {  }),
    }
}

/// Builds the tombstone of a stored message.
pub fn tombstone_of(existing: &Content, timestamp: u64) -> (r: Content)
    ensures
        r@ == spec_tombstone(existing@, timestamp),
{
    Content {
        metadata: Metadata {
            sender: Some(UserId::nil()),
            timestamp,
            ..existing.metadata
        },
        body: ContentBody::NullMessage(NullMessage {  }),
    }
}

/// The message map after persisting the inner data message of a content
/// item: a delete marker tombstones the targeted row in place (a missing
/// target is a no-op), anything else is stored as-is.
pub open spec fn spec_save_data(
    messages: Map<MessageKey, ContentView>,
    thread: Thread,
    c: ContentView,
    d: DataMessageView,
) -> Map<MessageKey, ContentView> {
    match d.delete {
        Some(marker) => match marker.target_sent_timestamp {
            Some(target) => {
                let key = MessageKey { thread, timestamp: target };
                if messages.contains_key(key) {
                    messages.insert(key, spec_tombstone(messages[key], target))
                } else {
                    messages
                }
            },
            None => messages.insert(
                MessageKey { thread, timestamp: c.metadata.timestamp },
                c,
            ),
        },
        None => messages.insert(MessageKey { thread, timestamp: c.metadata.timestamp }, c),
    }
}

/// The message map after applying the body-specific persistence policy of
/// the ingestion pipeline to one content item.
pub open spec fn spec_save_policy(
    messages: Map<MessageKey, ContentView>,
    thread: Thread,
    c: ContentView,
) -> Map<MessageKey, ContentView> {
    let key = MessageKey { thread, timestamp: c.metadata.timestamp };
    match c.body {
        ContentBodyView::NullMessage(_) => messages.insert(key, c),
        ContentBodyView::DataMessage(d) => spec_save_data(messages, thread, c, d),
        ContentBodyView::SynchronizeMessage(sm) => match sm.sent {
            Some(sent) => match sent.message {
                Some(d) => spec_save_data(messages, thread, c, d),
                None => if sm.call_event {
                    messages.insert(key, c)
                } else {
                    messages
                },
            },
            None => if sm.call_event {
                messages.insert(key, c)
            } else {
                messages
            },
        },
        ContentBodyView::CallMessage(_) => messages.insert(key, c),
        ContentBodyView::ReceiptMessage(_) => messages,
        ContentBodyView::TypingMessage(_) => messages,
    }
}

/// Persists one content item in a thread under the pipeline's policy:
/// data messages, sent-sync-wrapped data messages, call messages,
/// sync-wrapped call events and null messages are stored; a delete marker
/// tombstones its target in place; receipts, typing indicators and
/// payload-less synchronization messages are skipped.
pub fn save_message_with_thread<C: Store>(store: &mut C, message: Content, thread: Thread) -> (r:
    Result<(), Error>)
    ensures
        match r {
            Ok(_) => final(store).model() == (StoreModel {
                messages: spec_save_policy(old(store).model().messages, thread, message@),
                ..old(store).model()
            }),
            Err(e) => final(store).model() == old(store).model() && e is Store,
        },
{
    let ghost pre = store.model();
    let store_it: bool = match &message.body {
        ContentBody::NullMessage(_) => true,
        ContentBody::DataMessage(d) => {
            if let Some(marker) = d.delete {
                if let Some(target) = marker.target_sent_timestamp {
                    return delete_in_place(store, thread, target);
                }
            }
            true
        },
        ContentBody::SynchronizeMessage(sm) => {
            match &sm.sent {
                Some(sent) => match &sent.message {
                    Some(d) => {
                        if let Some(marker) = d.delete {
                            if let Some(target) = marker.target_sent_timestamp {
                                return delete_in_place(store, thread, target);
                            }
                        }
                        true
                    },
                    None => sm.call_event,
                },
                None => sm.call_event,
            }
        },
        ContentBody::CallMessage(_) => true,
        ContentBody::ReceiptMessage(_) => false,
        ContentBody::TypingMessage(_) => false,
    };
    if store_it {
        match store.save_message(thread, message) {
            Ok(_) => Ok(()),
            Err(e) => Err(Error::Store(e)),
        }
    } else {
        proof {
            assert(spec_save_policy(pre.messages, thread, message@) =~= pre.messages);
            assert(final(store).model() =~= (StoreModel {
                messages: spec_save_policy(pre.messages, thread, message@),
                ..pre
            }));
        }
        Ok(())
    }
}

/// Persists one content item under the thread its own content resolves
/// to, with the body-specific policy.
pub fn save_message<C: Store>(store: &mut C, message: Content) -> (r: Result<(), Error>)
    ensures
        match resolve_thread(message@) {
            Some(thread) => match r {
                Ok(_) => final(store).model() == (StoreModel {
                    messages: spec_save_policy(old(store).model().messages, thread, message@),
                    ..old(store).model()
                }),
                Err(e) => final(store).model() == old(store).model() && e is Store,
            },
            None => r == Err::<(), Error>(Error::ContentMissingUuid) && final(store).model()
                == old(store).model(),
        },
{
    let thread = match Thread::try_from(&message) {
        Ok(t) => t,
        Err(e) => {
            return Err(e);
        },
    };
    save_message_with_thread(store, message, thread)
}

/// Replaces the stored message of a thread at the target timestamp with
/// its tombstone; a missing target changes nothing.
fn delete_in_place<C: Store>(store: &mut C, thread: Thread, target: u64) -> (r: Result<(), Error>)
    ensures
        match r {
            Ok(_) => ({
                let key = MessageKey { thread, timestamp: target };
                final(store).model() == (StoreModel {
                    messages: if old(store).model().messages.contains_key(key) {
                        old(store).model().messages.insert(
                            key,
                            spec_tombstone(old(store).model().messages[key], target),
                        )
                    } else {
                        old(store).model().messages
                    },
                    ..old(store).model()
                })
            }),
            Err(e) => final(store).model() == old(store).model() && e is Store,
        },
{
    match store.message(thread, target) {
        Ok(Some(existing)) => {
            let tomb = tombstone_of(&existing, target);
            match store.save_message(thread, tomb) {
                Ok(_) => Ok(()),
                Err(e) => Err(Error::Store(e)),
            }
        },
        Ok(None) => {
            proof {
                assert(final(store).model() =~= old(store).model());
            }
            Ok(())
        },
        Err(e) => Err(Error::Store(e)),
    }
}

/// Law: delete semantics. Persisting a data message whose delete marker
/// targets timestamp `target` against a message map holding a row at that
/// key replaces the row's value by its tombstone — nil sender, null
/// body — and against a map without that key changes nothing; no row is
/// ever created by a delete.
pub proof fn lemma_delete_semantics(
    messages: Map<MessageKey, ContentView>,
    thread: Thread,
    c: ContentView,
    d: DataMessageView,
    target: u64,
)
    requires
        c.body matches ContentBodyView::DataMessage(dm) && dm == d,
        d.delete matches Some(marker) && marker.target_sent_timestamp == Some(target),
    ensures
        ({
            let key = MessageKey { thread, timestamp: target };
            &&& messages.contains_key(key) ==> spec_save_policy(messages, thread, c)
                == messages.insert(key, spec_tombstone(messages[key], target))
            &&& messages.contains_key(key) ==> spec_save_policy(messages, thread, c)[key].metadata.sender
                == Some(UserId { id: 0 })
            &&& messages.contains_key(key) ==> spec_save_policy(messages, thread, c)[key].body
                is NullMessage
            &&& !messages.contains_key(key) ==> spec_save_policy(messages, thread, c) == messages
        }),
{
}

/// The outcome of opening one envelope with the protocol collaborator.
pub enum DecryptOutcome {
    /// The envelope decrypted to no content (a protocol-internal message).
    Empty,
    /// Decryption failed; the envelope is skipped.
    Failed,
    /// The envelope decrypted to a content item.
    Content(Content),
}

/// What the pipeline does after one envelope.
pub enum IngestAction {
    /// Read the next envelope; nothing is emitted.
    Continue,
    /// Stop this pipeline instance without emitting.
    Stop,
    /// Emit the content item to the consumer and go on.
    Emit(Content),
    /// Emit the content item and stop this pipeline instance.
    EmitAndStop(Content),
}

/// What one ingestion step did: its action, and which of the three
/// persistence sub-steps succeeded (a failed sub-step is skipped and
/// logged by the caller; the pipeline always continues).
pub struct IngestReport {
    pub action: IngestAction,
    pub group_saved: bool,
    pub metadata_saved: bool,
    pub message_saved: bool,
}

/// The store after one ingestion step of a resolved content item: the
/// group-cache upsert, then lazy metadata creation, then the persistence
/// policy — each applied only when its sub-step succeeded.
pub open spec fn spec_ingest_effect(
    m: StoreModel,
    thread: Thread,
    c: ContentView,
    fetched: Option<GroupView>,
    group_saved: bool,
    metadata_saved: bool,
    message_saved: bool,
) -> StoreModel {
    let m1 = if group_saved {
        match (c.group_context_with_revision(), fetched) {
            (Some((key, _)), Some(g)) => StoreModel {
                groups: spec_upsert_group(m.groups, key, g),
                ..m
            },
            _ => m,
        }
    } else {
        m
    };
    let m2 = if metadata_saved {
        StoreModel { metadata: spec_ensure_metadata(m1, thread), ..m1 }
    } else {
        m1
    };
    if message_saved {
        StoreModel { messages: spec_save_policy(m2.messages, thread, c), ..m2 }
    } else {
        m2
    }
}

/// The group fetch one content item calls for, when it carries a group
/// context with both master key and revision.
pub fn group_fetch_request(content: &Content) -> (r: Option<(GroupKey, u32)>)
    ensures
        r == content@.group_context_with_revision(),
{
    match &content.body {
        ContentBody::DataMessage(d) => data_group_context(d),
        ContentBody::SynchronizeMessage(sm) => match &sm.sent {
            Some(sent) => match &sent.message {
                Some(d) => data_group_context(d),
                None => None,
            },
            None => None,
        },
        _ => None,
    }
}

/// The (master key, revision) pair of a data message's group context.
fn data_group_context(d: &crate::content::DataMessage) -> (r: Option<(GroupKey, u32)>)
    ensures
        r == (match d@.group_v2 {
            Some(ctx) => match (ctx.master_key, ctx.revision) {
                (Some(k), Some(rev)) => Some((k, rev)),
                _ => None::<(GroupKey, u32)>,
            },
            None => None::<(GroupKey, u32)>,
        }),
{
    match &d.group_v2 {
        Some(ctx) => match (ctx.master_key, ctx.revision) {
            (Some(k), Some(rev)) => Some((k, rev)),
            _ => None,
        },
        None => None,
    }
}

/// Whether the content is a synchronization message carrying a full
/// contact list.
pub fn content_is_contacts_sync(content: &Content) -> (r: bool)
    ensures
        r == content@.is_contacts_sync(),
{
    match &content.body {
        ContentBody::SynchronizeMessage(sm) => sm.contacts,
        _ => false,
    }
}

/// One step of the ingestion pipeline, from the outcome of opening one
/// envelope (and the group snapshot the caller fetched for it, if any):
/// empty or undecryptable envelopes are skipped; a contacts-sync payload
/// stops the instance, emitted only in internal-events mode; an item whose
/// thread cannot be resolved is dropped; anything else updates the group
/// cache under the revision guard, lazily creates the thread's metadata,
/// persists the item under the body policy, and is emitted regardless of
/// which persistence sub-steps succeeded.
pub fn ingest_decrypted<C: Store>(
    store: &mut C,
    internal_events: bool,
    outcome: DecryptOutcome,
    fetched_group: Option<Group>,
) -> (r: IngestReport)
    ensures
        match outcome {
            DecryptOutcome::Empty | DecryptOutcome::Failed => r.action is Continue
                && final(store).model() == old(store).model(),
            DecryptOutcome::Content(c) => {
                if c@.is_contacts_sync() {
                    &&& final(store).model() == old(store).model()
                    &&& internal_events ==> (r.action matches IngestAction::EmitAndStop(e) && e@
                        == c@)
                    &&& !internal_events ==> r.action is Stop
                } else {
                    match resolve_thread(c@) {
                        None => r.action is Continue && final(store).model() == old(store).model(),
                        Some(thread) => {
                            &&& (r.action matches IngestAction::Emit(e) && e@ == c@)
                            &&& final(store).model() == spec_ingest_effect(
                                old(store).model(),
                                thread,
                                c@,
                                match fetched_group {
                                    Some(g) => Some(g@),
                                    None => None,
                                },
                                r.group_saved,
                                r.metadata_saved,
                                r.message_saved,
                            )
                        },
                    }
                }
            },
        },
{
    let content = match outcome {
        DecryptOutcome::Empty => {
            return IngestReport {
                action: IngestAction::Continue,
                group_saved: false,
                metadata_saved: false,
                message_saved: false,
            };
        },
        DecryptOutcome::Failed => {
            return IngestReport {
                action: IngestAction::Continue,
                group_saved: false,
                metadata_saved: false,
                message_saved: false,
            };
        },
        DecryptOutcome::Content(c) => c,
    };
    if content_is_contacts_sync(&content) {
        if internal_events {
            return IngestReport {
                action: IngestAction::EmitAndStop(content),
                group_saved: false,
                metadata_saved: false,
                message_saved: false,
            };
        }
        return IngestReport {
            action: IngestAction::Stop,
            group_saved: false,
            metadata_saved: false,
            message_saved: false,
        };
    }
    let thread = match Thread::try_from(&content) {
        Ok(t) => t,
        Err(_) => {
            return IngestReport {
                action: IngestAction::Continue,
                group_saved: false,
                metadata_saved: false,
                message_saved: false,
            };
        },
    };
    let group_saved: bool = match (group_fetch_request(&content), fetched_group) {
        (Some((key, _)), Some(g)) => match upsert_group(store, key, g) {
            Ok(_) => true,
            Err(_) => false,
        },
        _ => false,
    };
    let metadata_saved: bool = match ensure_thread_metadata(store, thread) {
        Ok(_) => true,
        Err(_) => false,
    };
    let to_save = content.duplicate();
    let message_saved: bool = match save_message_with_thread(store, to_save, thread) {
        Ok(_) => true,
        Err(_) => false,
    };
    IngestReport { action: IngestAction::Emit(content), group_saved, metadata_saved, message_saved }
}

} // verus!
