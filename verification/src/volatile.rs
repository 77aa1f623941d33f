//! An in-memory store: the reference implementation of the storage
//! contract, verified against it. Keys of every entity are pairwise
//! distinct, and messages are held in ascending timestamp order.

use vstd::prelude::*;

use crate::accounts::Registered;
use crate::alist::{
    alist_map, keys_distinct, lemma_alist_contains, lemma_alist_index, lemma_alist_insert_at,
    lemma_alist_push, lemma_alist_remove, lemma_alist_update, lemma_push_to_set,
    lemma_remove_to_set,
};
use crate::content::{Content, ContentView};
use crate::errors::StoreError;
use crate::records::{Contact, ContactView, Group, GroupView, ThreadMetadata, ThreadMetadataView};
use crate::store::{contacts_put_all, groups_put_all, in_range, Store, StoreModel};
use crate::types::{GroupKey, MessageKey, Thread, UserId};

verus! {

/// Finds the index of the contact with the given address.
fn find_contact(v: &Vec<Contact>, id: UserId) -> (r: Option<usize>)
    ensures
        match r {
            Some(i) => i < v@.len() && v@[i as int].address == id,
            None => forall|j: int| 0 <= j < v@.len() ==> (#[trigger] v@[j]).address != id,
        },
{
    let mut i: usize = 0;
    while i < v.len()
        invariant
            i <= v@.len(),
            forall|j: int| 0 <= j < i ==> (#[trigger] v@[j]).address != id,
        decreases v@.len() - i,
    {
        if v[i].address == id {
            return Some(i);
        }
        i = i + 1;
    }
    None
}

/// Finds the index of the group cached under the given master key.
fn find_group(v: &Vec<(GroupKey, Group)>, key: GroupKey) -> (r: Option<usize>)
    ensures
        match r {
            Some(i) => i < v@.len() && v@[i as int].0 == key,
            None => forall|j: int| 0 <= j < v@.len() ==> (#[trigger] v@[j]).0 != key,
        },
{
    let mut i: usize = 0;
    while i < v.len()
        invariant
            i <= v@.len(),
            forall|j: int| 0 <= j < i ==> (#[trigger] v@[j]).0 != key,
        decreases v@.len() - i,
    {
        if v[i].0 == key {
            return Some(i);
        }
        i = i + 1;
    }
    None
}

/// Finds the index of the metadata row of the given thread.
fn find_metadata(v: &Vec<ThreadMetadata>, thread: Thread) -> (r: Option<usize>)
    ensures
        match r {
            Some(i) => i < v@.len() && v@[i as int].thread == thread,
            None => forall|j: int| 0 <= j < v@.len() ==> (#[trigger] v@[j]).thread != thread,
        },
{
    let mut i: usize = 0;
    while i < v.len()
        invariant
            i <= v@.len(),
            forall|j: int| 0 <= j < i ==> (#[trigger] v@[j]).thread != thread,
        decreases v@.len() - i,
    {
        if v[i].thread == thread {
            return Some(i);
        }
        i = i + 1;
    }
    None
}


/// Finds the index of the message stored under the given key.
fn find_message(v: &Vec<(MessageKey, Content)>, key: MessageKey) -> (r: Option<usize>)
    ensures
        match r {
            Some(i) => i < v@.len() && v@[i as int].0 == key,
            None => forall|j: int| 0 <= j < v@.len() ==> (#[trigger] v@[j]).0 != key,
        },
{
    let mut i: usize = 0;
    while i < v.len()
        invariant
            i <= v@.len(),
            forall|j: int| 0 <= j < i ==> (#[trigger] v@[j]).0 != key,
        decreases v@.len() - i,
    {
        if v[i].0 == key {
            return Some(i);
        }
        i = i + 1;
    }
    None
}

/// The first position whose timestamp exceeds the given one.
fn insert_pos(v: &Vec<(MessageKey, Content)>, ts: u64) -> (r: usize)
    ensures
        r <= v@.len(),
        forall|j: int| 0 <= j < r ==> (#[trigger] v@[j]).0.timestamp <= ts,
        r < v@.len() ==> v@[r as int].0.timestamp > ts,
{
    let mut i: usize = 0;
    while i < v.len()
        invariant
            i <= v@.len(),
            forall|j: int| 0 <= j < i ==> (#[trigger] v@[j]).0.timestamp <= ts,
        decreases v@.len() - i,
    {
        if v[i].0.timestamp > ts {
            return i;
        }
        i = i + 1;
    }
    i
}

/// Finds the index of the unread row of the given thread.
fn find_unread(v: &Vec<(Thread, Vec<u64>)>, thread: Thread) -> (r: Option<usize>)
    ensures
        match r {
            Some(i) => i < v@.len() && v@[i as int].0 == thread,
            None => forall|j: int| 0 <= j < v@.len() ==> (#[trigger] v@[j]).0 != thread,
        },
{
    let mut i: usize = 0;
    while i < v.len()
        invariant
            i <= v@.len(),
            forall|j: int| 0 <= j < i ==> (#[trigger] v@[j]).0 != thread,
        decreases v@.len() - i,
    {
        if v[i].0 == thread {
            return Some(i);
        }
        i = i + 1;
    }
    None
}

/// Finds the index of a timestamp in a list.
fn index_of_u64(v: &Vec<u64>, x: u64) -> (r: Option<usize>)
    ensures
        match r {
            Some(i) => i < v@.len() && v@[i as int] == x,
            None => !v@.contains(x),
        },
{
    let mut i: usize = 0;
    while i < v.len()
        invariant
            i <= v@.len(),
            forall|j: int| 0 <= j < i ==> v@[j] != x,
        decreases v@.len() - i,
    {
        if v[i] == x {
            return Some(i);
        }
        i = i + 1;
    }
    None
}

/// A copy of a timestamp list.
fn copy_u64s(v: &Vec<u64>) -> (r: Vec<u64>)
    ensures
        r@ == v@,
{
    let mut r: Vec<u64> = Vec::new();
    let mut i: usize = 0;
    while i < v.len()
        invariant
            i <= v@.len(),
            r@ == v@.subrange(0, i as int),
        decreases v@.len() - i,
    {
        r.push(v[i]);
        proof {
            assert(r@ =~= v@.subrange(0, i + 1));
        }
        i = i + 1;
    }
    proof {
        assert(r@ =~= v@);
    }
    r
}

/// The in-memory store.
pub struct VolatileStore {
    state: Option<Registered>,
    pre_keys_offset_id: u32,
    next_signed_pre_key_id: u32,
    contacts: Vec<Contact>,
    groups: Vec<(GroupKey, Group)>,
    messages: Vec<(MessageKey, Content)>,
    unread: Vec<(Thread, Vec<u64>)>,
    metadata: Vec<ThreadMetadata>,
}

impl VolatileStore {
    /// The contacts as an association sequence of views.
    closed spec fn contacts_seq(self) -> Seq<(UserId, ContactView)> {
        self.contacts@.map_values(|c: Contact| (c.address, c@))
    }

    /// The groups as an association sequence of views.
    closed spec fn groups_seq(self) -> Seq<(GroupKey, GroupView)> {
        self.groups@.map_values(|p: (GroupKey, Group)| (p.0, p.1@))
    }

    /// The messages as an association sequence of views.
    closed spec fn messages_seq(self) -> Seq<(MessageKey, ContentView)> {
        self.messages@.map_values(|p: (MessageKey, Content)| (p.0, p.1@))
    }

    /// The unread timestamps as an association sequence of sets.
    closed spec fn unread_seq(self) -> Seq<(Thread, Set<u64>)> {
        self.unread@.map_values(|p: (Thread, Vec<u64>)| (p.0, p.1@.to_set()))
    }

    /// The metadata rows as an association sequence of views.
    closed spec fn metadata_seq(self) -> Seq<(Thread, ThreadMetadataView)> {
        self.metadata@.map_values(|m: ThreadMetadata| (m.thread, m@))
    }

    /// Well-formedness: distinct keys everywhere, duplicate-free unread
    /// lists, and messages in ascending timestamp order, each stored under
    /// its content's own timestamp.
    #[verifier::type_invariant]
    closed spec fn wf(self) -> bool {
        &&& keys_distinct(self.contacts_seq())
        &&& keys_distinct(self.groups_seq())
        &&& keys_distinct(self.messages_seq())
        &&& keys_distinct(self.unread_seq())
        &&& keys_distinct(self.metadata_seq())
        &&& forall|i: int|
            0 <= i < self.unread@.len() ==> (#[trigger] self.unread@[i]).1@.no_duplicates()
        &&& forall|i: int, j: int|
            0 <= i < j < self.messages@.len() ==> (#[trigger] self.messages@[i]).0.timestamp <= (
            #[trigger] self.messages@[j]).0.timestamp
        &&& forall|i: int|
            0 <= i < self.messages@.len() ==> (#[trigger] self.messages@[i]).1@.metadata.timestamp
                == self.messages@[i].0.timestamp
    }

    /// An empty store: the state every flow starts from.
    pub fn new() -> (r: VolatileStore)
        ensures
            r.model() == StoreModel::empty(),
    {
        let r = VolatileStore {
            state: None,
            pre_keys_offset_id: 0,
            next_signed_pre_key_id: 0,
            contacts: Vec::new(),
            groups: Vec::new(),
            messages: Vec::new(),
            unread: Vec::new(),
            metadata: Vec::new(),
        };
        proof {
            assert(r.contacts_seq() =~= Seq::<(UserId, ContactView)>::empty());
            assert(r.groups_seq() =~= Seq::<(GroupKey, GroupView)>::empty());
            assert(r.messages_seq() =~= Seq::<(MessageKey, ContentView)>::empty());
            assert(r.unread_seq() =~= Seq::<(Thread, Set<u64>)>::empty());
            assert(r.metadata_seq() =~= Seq::<(Thread, ThreadMetadataView)>::empty());
            assert(r.model() =~= StoreModel::empty());
        }
        r
    }
}

impl Store for VolatileStore {
    closed spec fn model(&self) -> StoreModel {
        StoreModel {
            state: match self.state {
                Some(ref r) => Some(r.view()),
                None => None,
            },
            pre_keys_offset_id: self.pre_keys_offset_id,
            next_signed_pre_key_id: self.next_signed_pre_key_id,
            contacts: alist_map(self.contacts_seq()),
            groups: alist_map(self.groups_seq()),
            messages: alist_map(self.messages_seq()),
            unread: alist_map(self.unread_seq()),
            metadata: alist_map(self.metadata_seq()),
        }
    }

    fn load_state(&self) -> (r: Result<Option<Registered>, StoreError>) {
        match &self.state {
            Some(s) => Ok(Some(s.duplicate())),
            None => Ok(None),
        }
    }

    fn save_state(&mut self, state: &Registered) -> (r: Result<(), StoreError>) {
        proof {
            use_type_invariant(&*self);
        }
        self.state = Some(state.duplicate());
        Ok(())
    }

    fn clear_registration(&mut self) -> (r: Result<(), StoreError>) {
        proof {
            use_type_invariant(&*self);
        }
        self.state = None;
        self.pre_keys_offset_id = 0;
        self.next_signed_pre_key_id = 0;
        self.contacts = Vec::new();
        self.groups = Vec::new();
        self.messages = Vec::new();
        self.unread = Vec::new();
        self.metadata = Vec::new();
        proof {
            assert(self.contacts_seq() =~= Seq::<(UserId, ContactView)>::empty());
            assert(self.groups_seq() =~= Seq::<(GroupKey, GroupView)>::empty());
            assert(self.messages_seq() =~= Seq::<(MessageKey, ContentView)>::empty());
            assert(self.unread_seq() =~= Seq::<(Thread, Set<u64>)>::empty());
            assert(self.metadata_seq() =~= Seq::<(Thread, ThreadMetadataView)>::empty());
            assert(self.model() =~= StoreModel::empty());
        }
        Ok(())
    }

    fn pre_keys_offset_id(&self) -> (r: Result<u32, StoreError>) {
        Ok(self.pre_keys_offset_id)
    }

    fn set_pre_keys_offset_id(&mut self, id: u32) -> (r: Result<(), StoreError>) {
        proof {
            use_type_invariant(&*self);
        }
        self.pre_keys_offset_id = id;
        Ok(())
    }

    fn next_signed_pre_key_id(&self) -> (r: Result<u32, StoreError>) {
        Ok(self.next_signed_pre_key_id)
    }

    fn set_next_signed_pre_key_id(&mut self, id: u32) -> (r: Result<(), StoreError>) {
        proof {
            use_type_invariant(&*self);
        }
        self.next_signed_pre_key_id = id;
        Ok(())
    }

    fn clear_contacts(&mut self) -> (r: Result<(), StoreError>) {
        proof {
            use_type_invariant(&*self);
        }
        self.contacts = Vec::new();
        proof {
            assert(self.contacts_seq() =~= Seq::<(UserId, ContactView)>::empty());
            assert(self.model() =~= (StoreModel { contacts: Map::empty(), ..old(self).model() }));
        }
        Ok(())
    }

    fn save_contact(&mut self, contact: Contact) -> (r: Result<(), StoreError>) {
        proof {
            use_type_invariant(&*self);
        }
        let ghost pre = *self;
        let ghost cv = contact@;
        let ghost addr = contact.address;
        let idx = find_contact(&self.contacts, contact.address);
        let mut tmp: Vec<Contact> = Vec::new();
        core::mem::swap(&mut tmp, &mut self.contacts);
        match idx {
            Some(i) => {
                tmp.set(i, contact);
                proof {
                    assert(tmp@.map_values(|c: Contact| (c.address, c@)) =~= pre.contacts_seq()
                        .update(i as int, (pre.contacts_seq()[i as int].0, cv)));
                    lemma_alist_update(pre.contacts_seq(), i as int, cv);
                }
            },
            None => {
                tmp.push(contact);
                proof {
                    assert(tmp@.map_values(|c: Contact| (c.address, c@)) =~= pre.contacts_seq()
                        .push((addr, cv)));
                    lemma_alist_push(pre.contacts_seq(), (addr, cv));
                }
            },
        }
        self.contacts = tmp;
        proof {
            assert(self.model() =~= (StoreModel {
                contacts: pre.model().contacts.insert(addr, cv),
                ..pre.model()
            }));
        }
        Ok(())
    }

    fn save_contacts(&mut self, contacts: Vec<Contact>) -> (r: Result<(), StoreError>) {
        proof {
            use_type_invariant(&*self);
        }
        let ghost pre = *self;
        let mut tmp: Vec<Contact> = Vec::new();
        core::mem::swap(&mut tmp, &mut self.contacts);
        let mut i: usize = 0;
        while i < contacts.len()
            invariant
                i <= contacts@.len(),
                keys_distinct(tmp@.map_values(|c: Contact| (c.address, c@))),
                alist_map(tmp@.map_values(|c: Contact| (c.address, c@))) == contacts_put_all(
                    alist_map(pre.contacts_seq()),
                    contacts.deep_view().take(i as int),
                ),
            decreases contacts@.len() - i,
        {
            let ghost tseq = tmp@.map_values(|c: Contact| (c.address, c@));
            let ghost s = contacts.deep_view();
            let c = contacts[i].duplicate();
            proof {
                assert(c@ == s[i as int]);
                assert(c.address == s[i as int].address);
            }
            let ghost cv = c@;
            let ghost addr = c.address;
            match find_contact(&tmp, c.address) {
                Some(k) => {
                    tmp.set(k, c);
                    proof {
                        assert(tmp@.map_values(|c: Contact| (c.address, c@)) =~= tseq.update(
                            k as int,
                            (tseq[k as int].0, cv),
                        ));
                        lemma_alist_update(tseq, k as int, cv);
                    }
                },
                None => {
                    tmp.push(c);
                    proof {
                        assert(tmp@.map_values(|c: Contact| (c.address, c@)) =~= tseq.push(
                            (addr, cv),
                        ));
                        lemma_alist_push(tseq, (addr, cv));
                    }
                },
            }
            proof {
                assert(s.take(i + 1).drop_last() =~= s.take(i as int));
                assert(s.take(i + 1).last() == s[i as int]);
            }
            i = i + 1;
        }
        self.contacts = tmp;
        proof {
            assert(contacts.deep_view().take(contacts@.len() as int) =~= contacts.deep_view());
            assert(self.model() =~= (StoreModel {
                contacts: contacts_put_all(pre.model().contacts, contacts.deep_view()),
                ..pre.model()
            }));
        }
        Ok(())
    }

    fn contacts(&self) -> (r: Result<Vec<Contact>, StoreError>) {
        proof {
            use_type_invariant(&*self);
        }
        let mut out: Vec<Contact> = Vec::new();
        let mut i: usize = 0;
        while i < self.contacts.len()
            invariant
                i <= self.contacts@.len(),
                out@.len() == i,
                forall|j: int| 0 <= j < i ==> (#[trigger] out@[j])@ == self.contacts@[j]@,
            decreases self.contacts@.len() - i,
        {
            out.push(self.contacts[i].duplicate());
            i = i + 1;
        }
        proof {
            use_type_invariant(&*self);
            assert forall|j: int| 0 <= j < out.deep_view().len() implies self.model(
            ).contacts.contains_key((#[trigger] out.deep_view()[j]).address) && out.deep_view()[j]
                == self.model().contacts[out.deep_view()[j].address] by {
                assert(out.deep_view()[j] == out@[j]@);
                assert(out@[j]@ == self.contacts@[j]@);
                assert(self.contacts_seq()[j] == (self.contacts@[j].address, self.contacts@[j]@));
                lemma_alist_index(self.contacts_seq(), j);
            }
            assert forall|id: UserId| self.model().contacts.contains_key(id) implies exists|j: int|
                0 <= j < out.deep_view().len() && (#[trigger] out.deep_view()[j]).address == id by {
                lemma_alist_contains(self.contacts_seq(), id);
                let j = choose|j: int|
                    0 <= j < self.contacts_seq().len() && (#[trigger] self.contacts_seq()[j]).0
                        == id;
                assert(out.deep_view()[j].address == id);
            }
            assert forall|a: int, b: int| 0 <= a < b < out.deep_view().len() implies (
            #[trigger] out.deep_view()[a]).address != (#[trigger] out.deep_view()[b]).address by {
                assert(self.contacts_seq()[a].0 == out.deep_view()[a].address);
                assert(self.contacts_seq()[b].0 == out.deep_view()[b].address);
            }
        }
        Ok(out)
    }

    fn contact_by_id(&self, id: UserId) -> (r: Result<Option<Contact>, StoreError>) {
        proof {
            use_type_invariant(&*self);
        }
        match find_contact(&self.contacts, id) {
            Some(i) => {
                proof {
                    assert(self.contacts_seq()[i as int].0 == id);
                    lemma_alist_index(self.contacts_seq(), i as int);
                }
                Ok(Some(self.contacts[i].duplicate()))
            },
            None => {
                proof {
                    lemma_alist_contains(self.contacts_seq(), id);
                }
                Ok(None)
            },
        }
    }

    fn clear_groups(&mut self) -> (r: Result<(), StoreError>) {
        proof {
            use_type_invariant(&*self);
        }
        self.groups = Vec::new();
        proof {
            assert(self.groups_seq() =~= Seq::<(GroupKey, GroupView)>::empty());
            assert(self.model() =~= (StoreModel { groups: Map::empty(), ..old(self).model() }));
        }
        Ok(())
    }

    fn save_group(&mut self, key: GroupKey, group: Group) -> (r: Result<(), StoreError>) {
        proof {
            use_type_invariant(&*self);
        }
        let ghost pre = *self;
        let ghost gv = group@;
        let idx = find_group(&self.groups, key);
        let mut tmp: Vec<(GroupKey, Group)> = Vec::new();
        core::mem::swap(&mut tmp, &mut self.groups);
        match idx {
            Some(i) => {
                tmp.set(i, (key, group));
                proof {
                    assert(tmp@.map_values(|p: (GroupKey, Group)| (p.0, p.1@)) =~= pre.groups_seq()
                        .update(i as int, (pre.groups_seq()[i as int].0, gv)));
                    lemma_alist_update(pre.groups_seq(), i as int, gv);
                }
            },
            None => {
                tmp.push((key, group));
                proof {
                    assert(tmp@.map_values(|p: (GroupKey, Group)| (p.0, p.1@)) =~= pre.groups_seq()
                        .push((key, gv)));
                    lemma_alist_push(pre.groups_seq(), (key, gv));
                }
            },
        }
        self.groups = tmp;
        proof {
            assert(self.model() =~= (StoreModel {
                groups: pre.model().groups.insert(key, gv),
                ..pre.model()
            }));
        }
        Ok(())
    }

    fn save_groups(&mut self, groups: Vec<(GroupKey, Group)>) -> (r: Result<(), StoreError>) {
        proof {
            use_type_invariant(&*self);
        }
        let ghost pre = *self;
        let mut tmp: Vec<(GroupKey, Group)> = Vec::new();
        core::mem::swap(&mut tmp, &mut self.groups);
        let mut i: usize = 0;
        while i < groups.len()
            invariant
                i <= groups@.len(),
                keys_distinct(tmp@.map_values(|p: (GroupKey, Group)| (p.0, p.1@))),
                alist_map(tmp@.map_values(|p: (GroupKey, Group)| (p.0, p.1@))) == groups_put_all(
                    alist_map(pre.groups_seq()),
                    groups.deep_view().take(i as int),
                ),
            decreases groups@.len() - i,
        {
            let ghost tseq = tmp@.map_values(|p: (GroupKey, Group)| (p.0, p.1@));
            let ghost s = groups.deep_view();
            let g = groups[i].1.duplicate();
            let key = groups[i].0;
            proof {
                assert(s[i as int] == groups@[i as int].deep_view());
                assert(g@ == s[i as int].1);
                assert(key == s[i as int].0);
            }
            let ghost gv = g@;
            match find_group(&tmp, key) {
                Some(k) => {
                    tmp.set(k, (key, g));
                    proof {
                        assert(tmp@.map_values(|p: (GroupKey, Group)| (p.0, p.1@)) =~= tseq.update(
                            k as int,
                            (tseq[k as int].0, gv),
                        ));
                        lemma_alist_update(tseq, k as int, gv);
                    }
                },
                None => {
                    tmp.push((key, g));
                    proof {
                        assert(tmp@.map_values(|p: (GroupKey, Group)| (p.0, p.1@)) =~= tseq.push(
                            (key, gv),
                        ));
                        lemma_alist_push(tseq, (key, gv));
                    }
                },
            }
            proof {
                assert(s.take(i + 1).drop_last() =~= s.take(i as int));
                assert(s.take(i + 1).last() == s[i as int]);
            }
            i = i + 1;
        }
        self.groups = tmp;
        proof {
            assert(groups.deep_view().take(groups@.len() as int) =~= groups.deep_view());
            assert(self.model() =~= (StoreModel {
                groups: groups_put_all(pre.model().groups, groups.deep_view()),
                ..pre.model()
            }));
        }
        Ok(())
    }

    #[verifier::spinoff_prover]
    #[verifier::rlimit(60)]
    fn groups(&self) -> (r: Result<Vec<(GroupKey, Group)>, StoreError>) {
        proof {
            use_type_invariant(&*self);
        }
        let mut out: Vec<(GroupKey, Group)> = Vec::new();
        let mut i: usize = 0;
        while i < self.groups.len()
            invariant
                i <= self.groups@.len(),
                out@.len() == i,
                forall|j: int|
                    0 <= j < i ==> (#[trigger] out@[j]).0 == self.groups@[j].0 && out@[j].1@
                        == self.groups@[j].1@,
            decreases self.groups@.len() - i,
        {
            let g = self.groups[i].1.duplicate();
            out.push((self.groups[i].0, g));
            i = i + 1;
        }
        proof {
            use_type_invariant(&*self);
            assert forall|j: int| 0 <= j < out@.len() implies self.model().groups.contains_key(
                (#[trigger] out@[j]).0,
            ) && out@[j].1@ == self.model().groups[out@[j].0] by {
                assert(self.groups_seq()[j] == (self.groups@[j].0, self.groups@[j].1@));
                lemma_alist_index(self.groups_seq(), j);
            }
            let keys = out@.map_values(|p: (GroupKey, Group)| p.0);
            assert forall|k: GroupKey| keys.to_set().contains(k) implies self.model(
            ).groups.dom().contains(k) by {
                let j = choose|j: int| 0 <= j < keys.len() && keys[j] == k;
                assert(self.groups_seq()[j].0 == k);
                lemma_alist_contains(self.groups_seq(), k);
            }
            assert forall|k: GroupKey| self.model().groups.dom().contains(k) implies keys.to_set()
                .contains(k) by {
                lemma_alist_contains(self.groups_seq(), k);
                let j = choose|j: int|
                    0 <= j < self.groups_seq().len() && (#[trigger] self.groups_seq()[j]).0 == k;
                assert(keys[j] == k);
                assert(keys.contains(k));
            }
            assert(keys.to_set() =~= self.model().groups.dom());
            assert forall|a: int, b: int| 0 <= a < b < out@.len() implies (#[trigger] out@[a]).0
                != (#[trigger] out@[b]).0 by {
                assert(self.groups_seq()[a].0 == out@[a].0);
                assert(self.groups_seq()[b].0 == out@[b].0);
            }
        }
        Ok(out)
    }

    fn group(&self, key: GroupKey) -> (r: Result<Option<Group>, StoreError>) {
        proof {
            use_type_invariant(&*self);
        }
        match find_group(&self.groups, key) {
            Some(i) => {
                proof {
                    assert(self.groups_seq()[i as int].0 == key);
                    lemma_alist_index(self.groups_seq(), i as int);
                }
                Ok(Some(self.groups[i].1.duplicate()))
            },
            None => {
                proof {
                    lemma_alist_contains(self.groups_seq(), key);
                }
                Ok(None)
            },
        }
    }

    fn save_message(&mut self, thread: Thread, message: Content) -> (r: Result<u64, StoreError>) {
        proof {
            use_type_invariant(&*self);
        }
        let ghost pre = *self;
        let ts = message.metadata.timestamp;
        let key = MessageKey { thread, timestamp: ts };
        let ghost mv = message@;
        let mut tmp: Vec<(MessageKey, Content)> = Vec::new();
        core::mem::swap(&mut tmp, &mut self.messages);
        match find_message(&tmp, key) {
            Some(i) => {
                tmp.set(i, (key, message));
                proof {
                    assert(tmp@.map_values(|p: (MessageKey, Content)| (p.0, p.1@)) =~= pre
                        .messages_seq().update(i as int, (pre.messages_seq()[i as int].0, mv)));
                    lemma_alist_update(pre.messages_seq(), i as int, mv);
                    assert forall|j: int| 0 <= j < tmp@.len() implies (#[trigger] tmp@[j]).0 == pre
                        .messages@[j].0 by {}
                }
            },
            None => {
                let p = insert_pos(&tmp, ts);
                proof {
                    pre.messages@.insert_ensures(p as int, (key, message));
                    pre.messages_seq().insert_ensures(p as int, (key, mv));
                }
                tmp.insert(p, (key, message));
                proof {
                    assert(tmp@ == pre.messages@.insert(p as int, (key, message)));
                    assert(tmp@.map_values(|p: (MessageKey, Content)| (p.0, p.1@)) =~= pre
                        .messages_seq().insert(p as int, (key, mv)));
                    assert forall|j: int| 0 <= j < pre.messages_seq().len() implies (
                    #[trigger] pre.messages_seq()[j]).0 != key by {
                        assert(pre.messages@[j].0 != key);
                    }
                    lemma_alist_insert_at(pre.messages_seq(), p as int, (key, mv));
                    assert forall|a: int, b: int| 0 <= a < b < tmp@.len() implies (
                    #[trigger] tmp@[a]).0.timestamp <= (#[trigger] tmp@[b]).0.timestamp by {
                        if a < p && b < p {
                            assert(tmp@[a] == pre.messages@[a] && tmp@[b] == pre.messages@[b]);
                        } else if a < p && b == p {
                            assert(tmp@[a] == pre.messages@[a]);
                        } else if a < p && b > p {
                            assert(tmp@[a] == pre.messages@[a] && tmp@[b] == pre.messages@[b - 1]);
                        } else if a == p && b > p {
                            assert(tmp@[b] == pre.messages@[b - 1]);
                            assert(pre.messages@[b - 1].0.timestamp > ts);
                        } else {
                            assert(tmp@[a] == pre.messages@[a - 1] && tmp@[b] == pre.messages@[b
                                - 1]);
                        }
                    }
                    assert forall|a: int, b: int| 0 <= a < b < tmp@.len() implies (
                    #[trigger] tmp@[a]).0 != (#[trigger] tmp@[b]).0 by {
                        if a < p && b < p {
                            assert(tmp@[a] == pre.messages@[a] && tmp@[b] == pre.messages@[b]);
                            assert(pre.messages_seq()[a].0 != pre.messages_seq()[b].0);
                        } else if a < p && b == p {
                            assert(tmp@[a] == pre.messages@[a]);
                            assert(pre.messages@[a].0 != key);
                        } else if a < p && b > p {
                            assert(tmp@[a] == pre.messages@[a] && tmp@[b] == pre.messages@[b - 1]);
                            assert(pre.messages_seq()[a].0 != pre.messages_seq()[b - 1].0);
                        } else if a == p && b > p {
                            assert(tmp@[b] == pre.messages@[b - 1]);
                            assert(pre.messages@[b - 1].0 != key);
                        } else {
                            assert(tmp@[a] == pre.messages@[a - 1] && tmp@[b] == pre.messages@[b
                                - 1]);
                            assert(pre.messages_seq()[a - 1].0 != pre.messages_seq()[b - 1].0);
                        }
                    }
                }
            },
        }
        self.messages = tmp;
        proof {
            assert(self.model() =~= (StoreModel {
                messages: pre.model().messages.insert(key, mv),
                ..pre.model()
            }));
        }
        Ok(ts)
    }

    fn delete_message(&mut self, thread: Thread, timestamp: u64) -> (r: Result<bool, StoreError>) {
        proof {
            use_type_invariant(&*self);
        }
        let ghost pre = *self;
        let key = MessageKey { thread, timestamp };
        let mut tmp: Vec<(MessageKey, Content)> = Vec::new();
        core::mem::swap(&mut tmp, &mut self.messages);
        let was_there: bool;
        match find_message(&tmp, key) {
            Some(i) => {
                tmp.remove(i);
                was_there = true;
                proof {
                    assert(pre.messages_seq()[i as int].0 == key);
                    lemma_alist_contains(pre.messages_seq(), key);
                    assert(tmp@ == pre.messages@.remove(i as int));
                    assert(tmp@.map_values(|p: (MessageKey, Content)| (p.0, p.1@)) =~= pre
                        .messages_seq().remove(i as int));
                    lemma_alist_remove(pre.messages_seq(), i as int);
                    assert forall|a: int, b: int| 0 <= a < b < tmp@.len() implies (
                    #[trigger] tmp@[a]).0.timestamp <= (#[trigger] tmp@[b]).0.timestamp by {
                        if b < i {
                            assert(tmp@[a] == pre.messages@[a] && tmp@[b] == pre.messages@[b]);
                        } else if a < i {
                            assert(tmp@[a] == pre.messages@[a] && tmp@[b] == pre.messages@[b + 1]);
                        } else {
                            assert(tmp@[a] == pre.messages@[a + 1] && tmp@[b] == pre.messages@[b
                                + 1]);
                        }
                    }
                }
            },
            None => {
                was_there = false;
                proof {
                    lemma_alist_contains(pre.messages_seq(), key);
                    assert(!pre.model().messages.contains_key(key));
                    assert(pre.model().messages.remove(key) =~= pre.model().messages);
                }
            },
        }
        self.messages = tmp;
        proof {
            assert(self.model() =~= (StoreModel {
                messages: pre.model().messages.remove(key),
                ..pre.model()
            }));
        }
        Ok(was_there)
    }

    fn message(&self, thread: Thread, timestamp: u64) -> (r: Result<Option<Content>, StoreError>) {
        proof {
            use_type_invariant(&*self);
        }
        let key = MessageKey { thread, timestamp };
        match find_message(&self.messages, key) {
            Some(i) => {
                proof {
                    assert(self.messages_seq()[i as int].0 == key);
                    lemma_alist_index(self.messages_seq(), i as int);
                }
                Ok(Some(self.messages[i].1.duplicate()))
            },
            None => {
                proof {
                    lemma_alist_contains(self.messages_seq(), key);
                }
                Ok(None)
            },
        }
    }

    fn latest_message(&self, thread: Thread) -> (r: Result<Option<Content>, StoreError>) {
        proof {
            use_type_invariant(&*self);
        }
        let mut best: Option<usize> = None;
        let mut i: usize = 0;
        while i < self.messages.len()
            invariant
                i <= self.messages@.len(),
                match best {
                    None => forall|j: int|
                        0 <= j < i ==> (#[trigger] self.messages@[j]).0.thread != thread,
                    Some(b) => b < i && self.messages@[b as int].0.thread == thread && forall|
                        j: int,
                    | b < j < i ==> (#[trigger] self.messages@[j]).0.thread != thread,
                },
            decreases self.messages@.len() - i,
        {
            if self.messages[i].0.thread == thread {
                best = Some(i);
            }
            i = i + 1;
        }
        match best {
            Some(b) => {
                let c = self.messages[b].1.duplicate();
                proof {
                    let bi = b as int;
                    assert(self.messages_seq()[bi].0 == self.messages@[bi].0);
                    assert forall|j: int| bi < j < self.messages_seq().len() implies (
                    #[trigger] self.messages_seq()[j]).0 != self.messages_seq()[bi].0 by {
                        assert(self.messages@[j].0.thread != thread);
                    }
                    lemma_alist_index(self.messages_seq(), bi);
                    assert(c@.metadata.timestamp == self.messages@[bi].0.timestamp);
                    assert(self.messages@[bi].0 == (MessageKey {
                        thread,
                        timestamp: c@.metadata.timestamp,
                    }));
                    assert forall|ts: u64|
                        self.model().messages.contains_key(
                            MessageKey { thread, timestamp: ts },
                        ) implies ts <= c@.metadata.timestamp by {
                        lemma_alist_contains(
                            self.messages_seq(),
                            MessageKey { thread, timestamp: ts },
                        );
                        let j = choose|j: int|
                            0 <= j < self.messages_seq().len() && (
                            #[trigger] self.messages_seq()[j]).0 == (MessageKey {
                                thread,
                                timestamp: ts,
                            });
                        assert(self.messages@[j].0.thread == thread);
                        assert(j <= bi);
                        assert(self.messages@[j].0.timestamp
                            <= self.messages@[bi].0.timestamp);
                    }
                }
                Ok(Some(c))
            },
            None => {
                proof {
                    assert forall|ts: u64|
                        !self.model().messages.contains_key(
                            MessageKey { thread, timestamp: ts },
                        ) by {
                        lemma_alist_contains(
                            self.messages_seq(),
                            MessageKey { thread, timestamp: ts },
                        );
                        assert forall|j: int| 0 <= j < self.messages_seq().len() implies (
                        #[trigger] self.messages_seq()[j]).0 != (MessageKey {
                            thread,
                            timestamp: ts,
                        }) by {
                            assert(self.messages@[j].0.thread != thread);
                        }
                    }
                }
                Ok(None)
            },
        }
    }

    #[verifier::rlimit(100)]
    #[verifier::spinoff_prover]
    fn messages(&self, thread: Thread, from: Option<u64>) -> (r: Result<Vec<Content>, StoreError>) {
        proof {
            use_type_invariant(&*self);
        }
        let mut out: Vec<Content> = Vec::new();
        let mut i: usize = 0;
        while i < self.messages.len()
            invariant
                i <= self.messages@.len(),
                keys_distinct(self.messages_seq()),
                forall|a: int, b: int|
                    0 <= a < b < self.messages@.len() ==> (
                    #[trigger] self.messages@[a]).0.timestamp <= (
                    #[trigger] self.messages@[b]).0.timestamp,
                forall|a: int|
                    0 <= a < self.messages@.len() ==> (
                    #[trigger] self.messages@[a]).1@.metadata.timestamp
                        == self.messages@[a].0.timestamp,
                forall|j: int|
                    0 <= j < i && (#[trigger] self.messages@[j]).0.thread == thread && in_range(
                        from,
                        self.messages@[j].0.timestamp,
                    ) ==> exists|a: int|
                        0 <= a < out@.len() && (#[trigger] out@[a])@ == self.messages@[j].1@,
                forall|a: int|
                    0 <= a < out@.len() ==> exists|j: int|
                        0 <= j < i && (#[trigger] out@[a])@ == self.messages@[j].1@ && (
                        self.messages@[j].0 == MessageKey {
                            thread,
                            timestamp: out@[a]@.metadata.timestamp,
                        }) && in_range(from, out@[a]@.metadata.timestamp),
                forall|a: int, b: int|
                    0 <= a < b < out@.len() ==> (#[trigger] out@[a])@.metadata.timestamp < (
                    #[trigger] out@[b])@.metadata.timestamp,
            decreases self.messages@.len() - i,
        {
            let ghost out0 = out@;
            let keep = self.messages[i].0.thread == thread && (match from {
                Some(f) => self.messages[i].0.timestamp >= f,
                None => true,
            });
            if keep {
                let c = self.messages[i].1.duplicate();
                proof {
                    let ii = i as int;
                    assert(c@.metadata.timestamp == self.messages@[ii].0.timestamp);
                    assert forall|a: int| 0 <= a < out@.len() implies (
                    #[trigger] out@[a])@.metadata.timestamp < c@.metadata.timestamp by {
                        let j = choose|j: int|
                            0 <= j < ii && (#[trigger] out@[a])@ == self.messages@[j].1@ && (
                            self.messages@[j].0 == MessageKey {
                                thread,
                                timestamp: out@[a]@.metadata.timestamp,
                            }) && in_range(from, out@[a]@.metadata.timestamp);
                        assert(self.messages@[j].0.timestamp
                            <= self.messages@[ii].0.timestamp);
                        assert(self.messages_seq()[j].0 != self.messages_seq()[ii].0);
                        assert(self.messages@[j].0.thread == thread);
                        assert(self.messages@[j].0.timestamp
                            != self.messages@[ii].0.timestamp);
                    }
                }
                out.push(c);
            }
            proof {
                let ii = i as int;
                assert forall|j: int|
                    0 <= j < ii + 1 && (#[trigger] self.messages@[j]).0.thread == thread
                        && in_range(from, self.messages@[j].0.timestamp) implies exists|a: int|
                    0 <= a < out@.len() && (#[trigger] out@[a])@ == self.messages@[j].1@ by {
                    if j == ii {
                        assert(keep);
                        assert(out@[out@.len() - 1]@ == self.messages@[ii].1@);
                    } else {
                        let a = choose|a: int|
                            0 <= a < out0.len() && (#[trigger] out0[a])@ == self.messages@[j].1@;
                        assert(out@[a]@ == self.messages@[j].1@);
                    }
                }
                assert forall|a: int| 0 <= a < out@.len() implies exists|j: int|
                    0 <= j < ii + 1 && (#[trigger] out@[a])@ == self.messages@[j].1@ && (
                    self.messages@[j].0 == MessageKey {
                        thread,
                        timestamp: out@[a]@.metadata.timestamp,
                    }) && in_range(from, out@[a]@.metadata.timestamp) by {
                    if a < out0.len() {
                        let j = choose|j: int|
                            0 <= j < ii && (#[trigger] out0[a])@ == self.messages@[j].1@ && (
                            self.messages@[j].0 == MessageKey {
                                thread,
                                timestamp: out0[a]@.metadata.timestamp,
                            }) && in_range(from, out0[a]@.metadata.timestamp);
                        assert(out@[a] == out0[a]);
                        assert(out@[a]@ == self.messages@[j].1@);
                    } else {
                        assert(keep);
                        assert(out@[a]@ == self.messages@[ii].1@);
                        assert(out@[a]@.metadata.timestamp == self.messages@[ii].0.timestamp);
                        assert(self.messages@[ii].0 == (MessageKey {
                            thread,
                            timestamp: out@[a]@.metadata.timestamp,
                        }));
                    }
                }
            }
            i = i + 1;
        }
        proof {
            assert forall|a: int| 0 <= a < out.deep_view().len() implies {
                &&& in_range(from, (#[trigger] out.deep_view()[a]).metadata.timestamp)
                &&& self.model().messages.contains_key(
                    MessageKey { thread, timestamp: out.deep_view()[a].metadata.timestamp },
                )
                &&& out.deep_view()[a] == self.model().messages[MessageKey {
                    thread,
                    timestamp: out.deep_view()[a].metadata.timestamp,
                }]
            } by {
                assert(out.deep_view()[a] == out@[a]@);
                let j = choose|j: int|
                    0 <= j < self.messages@.len() && (#[trigger] out@[a])@
                        == self.messages@[j].1@ && (self.messages@[j].0 == MessageKey {
                        thread,
                        timestamp: out@[a]@.metadata.timestamp,
                    }) && in_range(from, out@[a]@.metadata.timestamp);
                assert forall|m: int| j < m < self.messages_seq().len() implies (
                #[trigger] self.messages_seq()[m]).0 != self.messages_seq()[j].0 by {}
                lemma_alist_index(self.messages_seq(), j);
            }
            assert forall|ts: u64|
                self.model().messages.contains_key(MessageKey { thread, timestamp: ts })
                    && in_range(from, ts) implies exists|a: int|
                0 <= a < out.deep_view().len() && (#[trigger] out.deep_view()[a]).metadata.timestamp
                    == ts by {
                lemma_alist_contains(self.messages_seq(), MessageKey { thread, timestamp: ts });
                let j = choose|j: int|
                    0 <= j < self.messages_seq().len() && (#[trigger] self.messages_seq()[j]).0
                        == (MessageKey { thread, timestamp: ts });
                assert(self.messages@[j].0.thread == thread);
                assert(in_range(from, self.messages@[j].0.timestamp));
                let a = choose|a: int|
                    0 <= a < out@.len() && (#[trigger] out@[a])@ == self.messages@[j].1@;
                assert(out@[a]@.metadata.timestamp == self.messages@[j].1@.metadata.timestamp);
                assert(out.deep_view()[a] == out@[a]@);
                assert(out.deep_view()[a].metadata.timestamp == ts);
            }
            assert forall|a: int, b: int| 0 <= a < b < out.deep_view().len() implies (
            #[trigger] out.deep_view()[a]).metadata.timestamp < (
            #[trigger] out.deep_view()[b]).metadata.timestamp by {
                assert(out.deep_view()[a] == out@[a]@);
                assert(out.deep_view()[b] == out@[b]@);
            }
        }
        Ok(out)
    }

    fn add_unread_message(&mut self, thread: Thread, timestamp: u64) -> (r: Result<
        (),
        StoreError,
    >) {
        proof {
            use_type_invariant(&*self);
        }
        let ghost pre = *self;
        let mut tmp: Vec<(Thread, Vec<u64>)> = Vec::new();
        core::mem::swap(&mut tmp, &mut self.unread);
        match find_unread(&tmp, thread) {
            Some(i) => {
                proof {
                    assert(pre.unread_seq()[i as int].0 == thread);
                    lemma_alist_index(pre.unread_seq(), i as int);
                    assert(pre.model().unread_at(thread) == pre.unread@[i as int].1@.to_set());
                }
                let already = match index_of_u64(&tmp[i].1, timestamp) {
                    Some(_) => true,
                    None => false,
                };
                if already {
                    proof {
                        assert(pre.unread@[i as int].1@.to_set().contains(timestamp));
                        assert(pre.model().unread_at(thread).insert(timestamp) =~= pre.model()
                            .unread_at(thread));
                        assert(pre.model().unread.insert(thread, pre.model().unread_at(thread))
                            =~= pre.model().unread);
                    }
                } else {
                    let mut row = copy_u64s(&tmp[i].1);
                    row.push(timestamp);
                    proof {
                        lemma_push_to_set(pre.unread@[i as int].1@, timestamp);
                    }
                    tmp.set(i, (thread, row));
                    proof {
                        assert(tmp@.map_values(|p: (Thread, Vec<u64>)| (p.0, p.1@.to_set())) =~= pre
                            .unread_seq().update(
                            i as int,
                            (
                                pre.unread_seq()[i as int].0,
                                pre.model().unread_at(thread).insert(timestamp),
                            ),
                        ));
                        lemma_alist_update(
                            pre.unread_seq(),
                            i as int,
                            pre.model().unread_at(thread).insert(timestamp),
                        );
                    }
                }
            },
            None => {
                proof {
                    lemma_alist_contains(pre.unread_seq(), thread);
                    assert(!pre.model().unread.contains_key(thread));
                    assert(pre.model().unread_at(thread) =~= Set::<u64>::empty());
                }
                let row: Vec<u64> = vec![timestamp];
                proof {
                    assert(row@ =~= Seq::<u64>::empty().push(timestamp));
                    lemma_push_to_set(Seq::<u64>::empty(), timestamp);
                    assert(Seq::<u64>::empty().to_set() =~= Set::<u64>::empty());
                    assert(row@.to_set() =~= pre.model().unread_at(thread).insert(timestamp));
                    lemma_alist_push(
                        pre.unread_seq(),
                        (thread, pre.model().unread_at(thread).insert(timestamp)),
                    );
                }
                tmp.push((thread, row));
                proof {
                    assert(tmp@.map_values(|p: (Thread, Vec<u64>)| (p.0, p.1@.to_set())) =~= pre
                        .unread_seq().push(
                        (thread, pre.model().unread_at(thread).insert(timestamp)),
                    ));
                }
            },
        }
        self.unread = tmp;
        proof {
            assert(self.model() =~= (StoreModel {
                unread: pre.model().unread.insert(
                    thread,
                    pre.model().unread_at(thread).insert(timestamp),
                ),
                ..pre.model()
            }));
        }
        Ok(())
    }

    fn mark_as_read(&mut self, thread: Thread, timestamp: u64) -> (r: Result<(), StoreError>) {
        proof {
            use_type_invariant(&*self);
        }
        let ghost pre = *self;
        let mut tmp: Vec<(Thread, Vec<u64>)> = Vec::new();
        core::mem::swap(&mut tmp, &mut self.unread);
        match find_unread(&tmp, thread) {
            Some(i) => {
                proof {
                    assert(pre.unread_seq()[i as int].0 == thread);
                    lemma_alist_index(pre.unread_seq(), i as int);
                    assert(pre.model().unread_at(thread) == pre.unread@[i as int].1@.to_set());
                }
                let mut row = copy_u64s(&tmp[i].1);
                match index_of_u64(&row, timestamp) {
                    Some(k) => {
                        proof {
                            lemma_remove_to_set(pre.unread@[i as int].1@, k as int);
                        }
                        row.remove(k);
                    },
                    None => {
                        proof {
                            assert(!pre.unread@[i as int].1@.to_set().contains(timestamp));
                            assert(pre.model().unread_at(thread).remove(timestamp) =~= pre.model()
                                .unread_at(thread));
                        }
                    },
                }
                tmp.set(i, (thread, row));
                proof {
                    assert(tmp@.map_values(|p: (Thread, Vec<u64>)| (p.0, p.1@.to_set())) =~= pre
                        .unread_seq().update(
                        i as int,
                        (
                            pre.unread_seq()[i as int].0,
                            pre.model().unread_at(thread).remove(timestamp),
                        ),
                    ));
                    lemma_alist_update(
                        pre.unread_seq(),
                        i as int,
                        pre.model().unread_at(thread).remove(timestamp),
                    );
                }
            },
            None => {
                proof {
                    lemma_alist_contains(pre.unread_seq(), thread);
                    assert(!pre.model().unread.contains_key(thread));
                    assert(pre.model().unread_at(thread) =~= Set::<u64>::empty());
                    assert(pre.model().unread_at(thread).remove(timestamp) =~= Set::<u64>::empty());
                    assert(Seq::<u64>::empty().to_set() =~= Set::<u64>::empty());
                    lemma_alist_push(pre.unread_seq(), (thread, Set::<u64>::empty()));
                }
                let row: Vec<u64> = Vec::new();
                tmp.push((thread, row));
                proof {
                    assert(tmp@.map_values(|p: (Thread, Vec<u64>)| (p.0, p.1@.to_set())) =~= pre
                        .unread_seq().push((thread, Set::<u64>::empty())));
                }
            },
        }
        self.unread = tmp;
        proof {
            assert(self.model() =~= (StoreModel {
                unread: pre.model().unread.insert(
                    thread,
                    pre.model().unread_at(thread).remove(timestamp),
                ),
                ..pre.model()
            }));
        }
        Ok(())
    }

    fn mark_all_as_read(&mut self, thread: Thread) -> (r: Result<(), StoreError>) {
        proof {
            use_type_invariant(&*self);
        }
        let ghost pre = *self;
        let mut tmp: Vec<(Thread, Vec<u64>)> = Vec::new();
        core::mem::swap(&mut tmp, &mut self.unread);
        let row: Vec<u64> = Vec::new();
        proof {
            assert(Seq::<u64>::empty().to_set() =~= Set::<u64>::empty());
        }
        match find_unread(&tmp, thread) {
            Some(i) => {
                tmp.set(i, (thread, row));
                proof {
                    assert(pre.unread_seq()[i as int].0 == thread);
                    assert(tmp@.map_values(|p: (Thread, Vec<u64>)| (p.0, p.1@.to_set())) =~= pre
                        .unread_seq().update(
                        i as int,
                        (pre.unread_seq()[i as int].0, Set::<u64>::empty()),
                    ));
                    lemma_alist_update(pre.unread_seq(), i as int, Set::<u64>::empty());
                }
            },
            None => {
                tmp.push((thread, row));
                proof {
                    lemma_alist_push(pre.unread_seq(), (thread, Set::<u64>::empty()));
                    assert(tmp@.map_values(|p: (Thread, Vec<u64>)| (p.0, p.1@.to_set())) =~= pre
                        .unread_seq().push((thread, Set::<u64>::empty())));
                }
            },
        }
        self.unread = tmp;
        proof {
            assert(self.model() =~= (StoreModel {
                unread: pre.model().unread.insert(thread, Set::<u64>::empty()),
                ..pre.model()
            }));
        }
        Ok(())
    }

    fn unread_messages(&self, thread: Thread) -> (r: Result<Vec<u64>, StoreError>) {
        proof {
            use_type_invariant(&*self);
        }
        match find_unread(&self.unread, thread) {
            Some(i) => {
                proof {
                    assert(self.unread_seq()[i as int].0 == thread);
                    lemma_alist_index(self.unread_seq(), i as int);
                }
                Ok(copy_u64s(&self.unread[i].1))
            },
            None => {
                proof {
                    lemma_alist_contains(self.unread_seq(), thread);
                    assert(Seq::<u64>::empty().to_set() =~= Set::<u64>::empty());
                }
                Ok(Vec::new())
            },
        }
    }

    fn unread_messages_count(&self, thread: Thread) -> (r: Result<usize, StoreError>) {
        proof {
            use_type_invariant(&*self);
        }
        match find_unread(&self.unread, thread) {
            Some(i) => {
                proof {
                    assert(self.unread_seq()[i as int].0 == thread);
                    lemma_alist_index(self.unread_seq(), i as int);
                    self.unread@[i as int].1@.unique_seq_to_set();
                }
                Ok(self.unread[i].1.len())
            },
            None => {
                proof {
                    lemma_alist_contains(self.unread_seq(), thread);
                    assert(Set::<u64>::empty().len() == 0);
                }
                Ok(0)
            },
        }
    }

    fn unread_messages_per_thread(&self) -> (r: Result<Vec<(Thread, Vec<u64>)>, StoreError>) {
        proof {
            use_type_invariant(&*self);
        }
        let mut out: Vec<(Thread, Vec<u64>)> = Vec::new();
        let mut i: usize = 0;
        while i < self.unread.len()
            invariant
                i <= self.unread@.len(),
                out@.len() == i,
                forall|j: int|
                    0 <= j < i ==> (#[trigger] out@[j]).0 == self.unread@[j].0 && out@[j].1@
                        == self.unread@[j].1@,
            decreases self.unread@.len() - i,
        {
            let row = copy_u64s(&self.unread[i].1);
            out.push((self.unread[i].0, row));
            i = i + 1;
        }
        proof {
            use_type_invariant(&*self);
            assert forall|j: int| 0 <= j < out@.len() implies self.model().unread.contains_key(
                (#[trigger] out@[j]).0,
            ) && out@[j].1@.no_duplicates() && out@[j].1@.to_set()
                == self.model().unread[out@[j].0] by {
                assert(self.unread_seq()[j] == (self.unread@[j].0, self.unread@[j].1@.to_set()));
                lemma_alist_index(self.unread_seq(), j);
            }
            let keys = out@.map_values(|p: (Thread, Vec<u64>)| p.0);
            assert forall|t: Thread| keys.to_set().contains(t) implies self.model(
            ).unread.dom().contains(t) by {
                let j = choose|j: int| 0 <= j < keys.len() && keys[j] == t;
                assert(self.unread_seq()[j].0 == t);
                lemma_alist_contains(self.unread_seq(), t);
            }
            assert forall|t: Thread| self.model().unread.dom().contains(t) implies keys.to_set()
                .contains(t) by {
                lemma_alist_contains(self.unread_seq(), t);
                let j = choose|j: int|
                    0 <= j < self.unread_seq().len() && (#[trigger] self.unread_seq()[j]).0 == t;
                assert(keys[j] == t);
                assert(keys.contains(t));
            }
            assert(keys.to_set() =~= self.model().unread.dom());
            assert forall|a: int, b: int| 0 <= a < b < out@.len() implies (#[trigger] out@[a]).0
                != (#[trigger] out@[b]).0 by {
                assert(self.unread_seq()[a].0 == out@[a].0);
                assert(self.unread_seq()[b].0 == out@[b].0);
            }
        }
        Ok(out)
    }

    fn thread_metadata(&self, thread: Thread) -> (r: Result<Option<ThreadMetadata>, StoreError>) {
        proof {
            use_type_invariant(&*self);
        }
        match find_metadata(&self.metadata, thread) {
            Some(i) => {
                proof {
                    assert(self.metadata_seq()[i as int].0 == thread);
                    lemma_alist_index(self.metadata_seq(), i as int);
                }
                Ok(Some(self.metadata[i].duplicate()))
            },
            None => {
                proof {
                    lemma_alist_contains(self.metadata_seq(), thread);
                }
                Ok(None)
            },
        }
    }

    fn thread_metadatas(&self) -> (r: Result<Vec<ThreadMetadata>, StoreError>) {
        proof {
            use_type_invariant(&*self);
        }
        let mut out: Vec<ThreadMetadata> = Vec::new();
        let mut i: usize = 0;
        while i < self.metadata.len()
            invariant
                i <= self.metadata@.len(),
                out@.len() == i,
                forall|j: int| 0 <= j < i ==> (#[trigger] out@[j])@ == self.metadata@[j]@,
            decreases self.metadata@.len() - i,
        {
            out.push(self.metadata[i].duplicate());
            i = i + 1;
        }
        proof {
            use_type_invariant(&*self);
            assert forall|j: int| 0 <= j < out.deep_view().len() implies self.model(
            ).metadata.contains_key((#[trigger] out.deep_view()[j]).thread) && out.deep_view()[j]
                == self.model().metadata[out.deep_view()[j].thread] by {
                assert(out.deep_view()[j] == out@[j]@);
                assert(out@[j]@ == self.metadata@[j]@);
                assert(self.metadata_seq()[j] == (self.metadata@[j].thread, self.metadata@[j]@));
                lemma_alist_index(self.metadata_seq(), j);
            }
            assert forall|t: Thread| self.model().metadata.contains_key(t) implies exists|j: int|
                0 <= j < out.deep_view().len() && (#[trigger] out.deep_view()[j]).thread == t by {
                lemma_alist_contains(self.metadata_seq(), t);
                let j = choose|j: int|
                    0 <= j < self.metadata_seq().len() && (#[trigger] self.metadata_seq()[j]).0
                        == t;
                assert(out.deep_view()[j].thread == t);
            }
            assert forall|a: int, b: int| 0 <= a < b < out.deep_view().len() implies (
            #[trigger] out.deep_view()[a]).thread != (#[trigger] out.deep_view()[b]).thread by {
                assert(self.metadata_seq()[a].0 == out.deep_view()[a].thread);
                assert(self.metadata_seq()[b].0 == out.deep_view()[b].thread);
            }
        }
        Ok(out)
    }

    fn save_thread_metadata(&mut self, metadata: ThreadMetadata) -> (r: Result<(), StoreError>) {
        proof {
            use_type_invariant(&*self);
        }
        let ghost pre = *self;
        let ghost mv = metadata@;
        let ghost key = metadata.thread;
        let idx = find_metadata(&self.metadata, metadata.thread);
        let mut tmp: Vec<ThreadMetadata> = Vec::new();
        core::mem::swap(&mut tmp, &mut self.metadata);
        match idx {
            Some(i) => {
                tmp.set(i, metadata);
                proof {
                    assert(tmp@.map_values(|m: ThreadMetadata| (m.thread, m@)) =~= pre
                        .metadata_seq().update(i as int, (pre.metadata_seq()[i as int].0, mv)));
                    lemma_alist_update(pre.metadata_seq(), i as int, mv);
                }
            },
            None => {
                tmp.push(metadata);
                proof {
                    assert(tmp@.map_values(|m: ThreadMetadata| (m.thread, m@)) =~= pre
                        .metadata_seq().push((key, mv)));
                    lemma_alist_push(pre.metadata_seq(), (key, mv));
                }
            },
        }
        self.metadata = tmp;
        proof {
            assert(self.model() =~= (StoreModel {
                metadata: pre.model().metadata.insert(key, mv),
                ..pre.model()
            }));
        }
        Ok(())
    }
}

} // verus!
