//! The storage contract: the single persistence boundary of the core. Any
//! backend that satisfies these contracts can plug into the registration
//! flows and the ingestion pipeline safely.

use vstd::prelude::*;

use crate::accounts::{Registered, RegisteredView};
use crate::content::{Content, ContentView};
use crate::errors::StoreError;
use crate::records::{Contact, ContactView, Group, GroupView, ThreadMetadata, ThreadMetadataView};
use crate::types::{GroupKey, MessageKey, Thread, UserId};

verus! {

/// The mathematical state of a store: the single optional Registered
/// record, the two pre-key counters, and one map per entity kind.
#[verifier::ext_equal]
pub struct StoreModel {
    pub state: Option<RegisteredView>,
    pub pre_keys_offset_id: u32,
    pub next_signed_pre_key_id: u32,
    pub contacts: Map<UserId, ContactView>,
    pub groups: Map<GroupKey, GroupView>,
    pub messages: Map<MessageKey, ContentView>,
    pub unread: Map<Thread, Set<u64>>,
    pub metadata: Map<Thread, ThreadMetadataView>,
}

impl StoreModel {
    /// The state of a freshly cleared store.
    pub open spec fn empty() -> StoreModel {
        StoreModel {
            state: None,
            pre_keys_offset_id: 0,
            next_signed_pre_key_id: 0,
            contacts: Map::empty(),
            groups: Map::empty(),
            messages: Map::empty(),
            unread: Map::empty(),
            metadata: Map::empty(),
        }
    }

    /// The unread timestamps of a thread; empty when none are recorded.
    pub open spec fn unread_at(self, thread: Thread) -> Set<u64> {
        if self.unread.contains_key(thread) {
            self.unread[thread]
        } else {
            Set::empty()
        }
    }
}

/// Whether a timestamp lies in the optional from-this-point-onward bound.
pub open spec fn in_range(from: Option<u64>, ts: u64) -> bool {
    match from {
        Some(f) => ts >= f,
        None => true,
    }
}

/// Bulk insertion of contacts, later entries winning on equal addresses.
pub open spec fn contacts_put_all(m: Map<UserId, ContactView>, s: Seq<ContactView>) -> Map<
    UserId,
    ContactView,
>
    decreases s.len(),
{
    if s.len() == 0 {
        m
    } else {
        contacts_put_all(m, s.drop_last()).insert(s.last().address, s.last())
    }
}

/// Bulk insertion of groups, later entries winning on equal keys.
pub open spec fn groups_put_all(m: Map<GroupKey, GroupView>, s: Seq<(GroupKey, GroupView)>) -> Map<
    GroupKey,
    GroupView,
>
    decreases s.len(),
{
    if s.len() == 0 {
        m
    } else {
        groups_put_all(m, s.drop_last()).insert(s.last().0, s.last().1)
    }
}

/// The persistence boundary. Every operation either succeeds with the
/// stated change — atomic with respect to the whole store — or fails with
/// a typed storage error leaving the store unchanged. Lookups report
/// "not found" as `None`, never as an error.
pub trait Store: Sized {
    /// The mathematical state this store holds.
    spec fn model(&self) -> StoreModel;

    /// Loads the single Registered record; `None` means not yet registered.
    fn load_state(&self) -> (r: Result<Option<Registered>, StoreError>)
        ensures
            match r {
                Ok(Some(s)) => self.model().state == Some(s@),
                Ok(None) => self.model().state is None,
                Err(_) => true,
            },
    ;

    /// Saves the single Registered record, replacing any previous one.
    fn save_state(&mut self, state: &Registered) -> (r: Result<(), StoreError>)
        ensures
            match r {
                Ok(_) => final(self).model() == (StoreModel {
                    state: Some(state@),
                    ..old(self).model()
                }),
                Err(_) => final(self).model() == old(self).model(),
            },
    ;

    /// Destroys everything: registration state, keys, and cached data.
    fn clear_registration(&mut self) -> (r: Result<(), StoreError>)
        ensures
            match r {
                Ok(_) => final(self).model() == StoreModel::empty(),
                Err(_) => final(self).model() == old(self).model(),
            },
    ;

    /// The current pre-key offset counter.
    fn pre_keys_offset_id(&self) -> (r: Result<u32, StoreError>)
        ensures
            match r {
                Ok(v) => v == self.model().pre_keys_offset_id,
                Err(_) => true,
            },
    ;

    /// Persists the pre-key offset counter.
    fn set_pre_keys_offset_id(&mut self, id: u32) -> (r: Result<(), StoreError>)
        ensures
            match r {
                Ok(_) => final(self).model() == (StoreModel {
                    pre_keys_offset_id: id,
                    ..old(self).model()
                }),
                Err(_) => final(self).model() == old(self).model(),
            },
    ;

    /// The current next-signed-pre-key counter.
    fn next_signed_pre_key_id(&self) -> (r: Result<u32, StoreError>)
        ensures
            match r {
                Ok(v) => v == self.model().next_signed_pre_key_id,
                Err(_) => true,
            },
    ;

    /// Persists the next-signed-pre-key counter.
    fn set_next_signed_pre_key_id(&mut self, id: u32) -> (r: Result<(), StoreError>)
        ensures
            match r {
                Ok(_) => final(self).model() == (StoreModel {
                    next_signed_pre_key_id: id,
                    ..old(self).model()
                }),
                Err(_) => final(self).model() == old(self).model(),
            },
    ;

    /// Removes every contact.
    fn clear_contacts(&mut self) -> (r: Result<(), StoreError>)
        ensures
            match r {
                Ok(_) => final(self).model() == (StoreModel {
                    contacts: Map::empty(),
                    ..old(self).model()
                }),
                Err(_) => final(self).model() == old(self).model(),
            },
    ;

    /// Upserts one contact under its address.
    fn save_contact(&mut self, contact: Contact) -> (r: Result<(), StoreError>)
        ensures
            match r {
                Ok(_) => final(self).model() == (StoreModel {
                    contacts: old(self).model().contacts.insert(contact.address, contact@),
                    ..old(self).model()
                }),
                Err(_) => final(self).model() == old(self).model(),
            },
    ;

    /// Upserts many contacts, in order.
    fn save_contacts(&mut self, contacts: Vec<Contact>) -> (r: Result<(), StoreError>)
        ensures
            match r {
                Ok(_) => final(self).model() == (StoreModel {
                    contacts: contacts_put_all(old(self).model().contacts, contacts.deep_view()),
                    ..old(self).model()
                }),
                Err(_) => final(self).model() == old(self).model(),
            },
    ;

    /// All contacts, one per stored address.
    fn contacts(&self) -> (r: Result<Vec<Contact>, StoreError>)
        ensures
            match r {
                Ok(v) => {
                    &&& forall|i: int|
                        #![auto]
                        0 <= i < v.deep_view().len() ==> self.model().contacts.contains_key(
                            v.deep_view()[i].address,
                        ) && v.deep_view()[i] == self.model().contacts[v.deep_view()[i].address]
                    &&& forall|id: UserId|
                        #![auto]
                        self.model().contacts.contains_key(id) ==> exists|i: int|
                            0 <= i < v.deep_view().len() && v.deep_view()[i].address == id
                    &&& forall|i: int, j: int|
                        #![auto]
                        0 <= i < j < v.deep_view().len() ==> v.deep_view()[i].address
                            != v.deep_view()[j].address
                },
                Err(_) => true,
            },
    ;

    /// One contact by its address; `None` when it is not stored.
    fn contact_by_id(&self, id: UserId) -> (r: Result<Option<Contact>, StoreError>)
        ensures
            match r {
                Ok(Some(c)) => self.model().contacts.contains_key(id) && c@
                    == self.model().contacts[id],
                Ok(None) => !self.model().contacts.contains_key(id),
                Err(_) => true,
            },
    ;

    /// Removes every cached group.
    fn clear_groups(&mut self) -> (r: Result<(), StoreError>)
        ensures
            match r {
                Ok(_) => final(self).model() == (StoreModel {
                    groups: Map::empty(),
                    ..old(self).model()
                }),
                Err(_) => final(self).model() == old(self).model(),
            },
    ;

    /// Writes one group snapshot under its master key, unconditionally.
    /// The revision guard of the cache lives in the ingestion pipeline's
    /// upsert, not here.
    fn save_group(&mut self, key: GroupKey, group: Group) -> (r: Result<(), StoreError>)
        ensures
            match r {
                Ok(_) => final(self).model() == (StoreModel {
                    groups: old(self).model().groups.insert(key, group@),
                    ..old(self).model()
                }),
                Err(_) => final(self).model() == old(self).model(),
            },
    ;

    /// Writes many group snapshots, in order.
    fn save_groups(&mut self, groups: Vec<(GroupKey, Group)>) -> (r: Result<(), StoreError>)
        ensures
            match r {
                Ok(_) => final(self).model() == (StoreModel {
                    groups: groups_put_all(old(self).model().groups, groups.deep_view()),
                    ..old(self).model()
                }),
                Err(_) => final(self).model() == old(self).model(),
            },
    ;

    /// All cached groups with their master keys.
    fn groups(&self) -> (r: Result<Vec<(GroupKey, Group)>, StoreError>)
        ensures
            r matches Ok(v) ==> forall|i: int|
                #![auto]
                0 <= i < v@.len() ==> self.model().groups.contains_key(v@[i].0) && v@[i].1@
                    == self.model().groups[v@[i].0],
            r matches Ok(v) ==> v@.map_values(|p: (GroupKey, Group)| p.0).to_set()
                == self.model().groups.dom(),
            r matches Ok(v) ==> forall|i: int, j: int|
                #![auto]
                0 <= i < j < v@.len() ==> v@[i].0 != v@[j].0,
    ;

    /// One cached group by its master key; `None` when it is not cached.
    fn group(&self, key: GroupKey) -> (r: Result<Option<Group>, StoreError>)
        ensures
            match r {
                Ok(Some(g)) => self.model().groups.contains_key(key) && g@
                    == self.model().groups[key],
                Ok(None) => !self.model().groups.contains_key(key),
                Err(_) => true,
            },
    ;

    /// Saves a content item in a thread under the item's own server
    /// timestamp, which it returns; an item already stored under that
    /// (thread, timestamp) key is overwritten — ties are last-write-wins.
    fn save_message(&mut self, thread: Thread, message: Content) -> (r: Result<u64, StoreError>)
        ensures
            match r {
                Ok(ts) => ts == message@.metadata.timestamp && final(self).model() == (StoreModel {
                    messages: old(self).model().messages.insert(
                        MessageKey { thread, timestamp: message@.metadata.timestamp },
                        message@,
                    ),
                    ..old(self).model()
                }),
                Err(_) => final(self).model() == old(self).model(),
            },
    ;

    /// Deletes the message of a thread at a timestamp; reports whether one
    /// was there.
    fn delete_message(&mut self, thread: Thread, timestamp: u64) -> (r: Result<bool, StoreError>)
        ensures
            match r {
                Ok(was_there) => was_there == old(self).model().messages.contains_key(
                    MessageKey { thread, timestamp },
                ) && final(self).model() == (StoreModel {
                    messages: old(self).model().messages.remove(MessageKey { thread, timestamp }),
                    ..old(self).model()
                }),
                Err(_) => final(self).model() == old(self).model(),
            },
    ;

    /// The message of a thread at a timestamp; `None` when none is stored.
    fn message(&self, thread: Thread, timestamp: u64) -> (r: Result<Option<Content>, StoreError>)
        ensures
            match r {
                Ok(Some(c)) => self.model().messages.contains_key(MessageKey { thread, timestamp })
                    && c@ == self.model().messages[MessageKey { thread, timestamp }],
                Ok(None) => !self.model().messages.contains_key(MessageKey { thread, timestamp }),
                Err(_) => true,
            },
    ;

    /// The most recent message of a thread; `None` when the thread holds
    /// no message.
    fn latest_message(&self, thread: Thread) -> (r: Result<Option<Content>, StoreError>)
        ensures
            match r {
                Ok(Some(c)) => {
                    &&& self.model().messages.contains_key(
                        MessageKey { thread, timestamp: c@.metadata.timestamp },
                    )
                    &&& c@ == self.model().messages[MessageKey {
                        thread,
                        timestamp: c@.metadata.timestamp,
                    }]
                    &&& forall|ts: u64|
                        #![auto]
                        self.model().messages.contains_key(MessageKey { thread, timestamp: ts })
                            ==> ts <= c@.metadata.timestamp
                },
                Ok(None) => forall|ts: u64|
                    #![auto]
                    !self.model().messages.contains_key(MessageKey { thread, timestamp: ts }),
                Err(_) => true,
            },
    ;

    /// The messages of a thread, optionally bounded to timestamps from a
    /// given point onward, in ascending timestamp order.
    fn messages(&self, thread: Thread, from: Option<u64>) -> (r: Result<Vec<Content>, StoreError>)
        ensures
            match r {
                Ok(v) => {
                    &&& forall|i: int|
                        #![auto]
                        0 <= i < v.deep_view().len() ==> {
                            &&& in_range(from, v.deep_view()[i].metadata.timestamp)
                            &&& self.model().messages.contains_key(
                                MessageKey {
                                    thread,
                                    timestamp: v.deep_view()[i].metadata.timestamp,
                                },
                            )
                            &&& v.deep_view()[i] == self.model().messages[MessageKey {
                                thread,
                                timestamp: v.deep_view()[i].metadata.timestamp,
                            }]
                        }
                    &&& forall|ts: u64|
                        #![auto]
                        self.model().messages.contains_key(MessageKey { thread, timestamp: ts })
                            && in_range(from, ts) ==> exists|i: int|
                            0 <= i < v.deep_view().len() && v.deep_view()[i].metadata.timestamp
                                == ts
                    &&& forall|i: int, j: int|
                        #![auto]
                        0 <= i < j < v.deep_view().len() ==> v.deep_view()[i].metadata.timestamp
                            < v.deep_view()[j].metadata.timestamp
                },
                Err(_) => true,
            },
    ;

    /// Records a timestamp as unread in a thread.
    fn add_unread_message(&mut self, thread: Thread, timestamp: u64) -> (r: Result<
        (),
        StoreError,
    >)
        ensures
            match r {
                Ok(_) => final(self).model() == (StoreModel {
                    unread: old(self).model().unread.insert(
                        thread,
                        old(self).model().unread_at(thread).insert(timestamp),
                    ),
                    ..old(self).model()
                }),
                Err(_) => final(self).model() == old(self).model(),
            },
    ;

    /// Marks one message of a thread as read.
    fn mark_as_read(&mut self, thread: Thread, timestamp: u64) -> (r: Result<(), StoreError>)
        ensures
            match r {
                Ok(_) => final(self).model() == (StoreModel {
                    unread: old(self).model().unread.insert(
                        thread,
                        old(self).model().unread_at(thread).remove(timestamp),
                    ),
                    ..old(self).model()
                }),
                Err(_) => final(self).model() == old(self).model(),
            },
    ;

    /// Marks every message of a thread as read.
    fn mark_all_as_read(&mut self, thread: Thread) -> (r: Result<(), StoreError>)
        ensures
            match r {
                Ok(_) => final(self).model() == (StoreModel {
                    unread: old(self).model().unread.insert(thread, Set::empty()),
                    ..old(self).model()
                }),
                Err(_) => final(self).model() == old(self).model(),
            },
    ;

    /// The unread timestamps of a thread, without duplicates.
    fn unread_messages(&self, thread: Thread) -> (r: Result<Vec<u64>, StoreError>)
        ensures
            match r {
                Ok(v) => v@.no_duplicates() && v@.to_set() == self.model().unread_at(thread),
                Err(_) => true,
            },
    ;

    /// The number of unread messages of a thread.
    fn unread_messages_count(&self, thread: Thread) -> (r: Result<usize, StoreError>)
        ensures
            match r {
                Ok(n) => n == self.model().unread_at(thread).len(),
                Err(_) => true,
            },
    ;

    /// The unread timestamps of every thread that has any recorded.
    fn unread_messages_per_thread(&self) -> (r: Result<Vec<(Thread, Vec<u64>)>, StoreError>)
        ensures
            r matches Ok(v) ==> forall|i: int|
                #![auto]
                0 <= i < v@.len() ==> self.model().unread.contains_key(v@[i].0)
                    && v@[i].1@.no_duplicates() && v@[i].1@.to_set()
                    == self.model().unread[v@[i].0],
            r matches Ok(v) ==> v@.map_values(|p: (Thread, Vec<u64>)| p.0).to_set()
                == self.model().unread.dom(),
            r matches Ok(v) ==> forall|i: int, j: int|
                #![auto]
                0 <= i < j < v@.len() ==> v@[i].0 != v@[j].0,
    ;

    /// The metadata row of a thread; `None` when none exists yet.
    fn thread_metadata(&self, thread: Thread) -> (r: Result<Option<ThreadMetadata>, StoreError>)
        ensures
            match r {
                Ok(Some(m)) => self.model().metadata.contains_key(thread) && m@
                    == self.model().metadata[thread],
                Ok(None) => !self.model().metadata.contains_key(thread),
                Err(_) => true,
            },
    ;

    /// All metadata rows, one per thread.
    fn thread_metadatas(&self) -> (r: Result<Vec<ThreadMetadata>, StoreError>)
        ensures
            match r {
                Ok(v) => {
                    &&& forall|i: int|
                        #![auto]
                        0 <= i < v.deep_view().len() ==> self.model().metadata.contains_key(
                            v.deep_view()[i].thread,
                        ) && v.deep_view()[i] == self.model().metadata[v.deep_view()[i].thread]
                    &&& forall|t: Thread|
                        #![auto]
                        self.model().metadata.contains_key(t) ==> exists|i: int|
                            0 <= i < v.deep_view().len() && v.deep_view()[i].thread == t
                    &&& forall|i: int, j: int|
                        #![auto]
                        0 <= i < j < v.deep_view().len() ==> v.deep_view()[i].thread
                            != v.deep_view()[j].thread
                },
                Err(_) => true,
            },
    ;

    /// Upserts the metadata row of its thread.
    fn save_thread_metadata(&mut self, metadata: ThreadMetadata) -> (r: Result<(), StoreError>)
        ensures
            match r {
                Ok(_) => final(self).model() == (StoreModel {
                    metadata: old(self).model().metadata.insert(metadata.thread, metadata@),
                    ..old(self).model()
                }),
                Err(_) => final(self).model() == old(self).model(),
            },
    ;
}

} // verus!
