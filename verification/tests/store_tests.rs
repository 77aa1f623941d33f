use presage::accounts::{Registered, SignalServers};
use presage::content::{Content, ContentBody, DataMessage, Metadata, NullMessage};
use presage::records::{Contact, Group};
use presage::store::Store;
use presage::types::{GroupKey, Thread, UserId};
use presage::volatile::VolatileStore;

fn uid(n: u128) -> UserId {
    UserId { id: n }
}

fn gkey(n: u128) -> GroupKey {
    GroupKey { hi: n, lo: 0 }
}

fn contact(n: u128, name: &str) -> Contact {
    Contact {
        address: uid(n),
        name: name.to_string(),
        phone_number: None,
        profile_key: Vec::new(),
        blocked: false,
        archived: false,
        avatar: None,
    }
}

fn group(title: &str, revision: u32) -> Group {
    Group {
        title: title.to_string(),
        avatar: String::new(),
        members: Vec::new(),
        revision,
        description: None,
        access_control: None,
    }
}

fn text_content(sender: u128, timestamp: u64, text: &str) -> Content {
    Content {
        metadata: Metadata {
            sender: Some(uid(sender)),
            sender_device: 1,
            timestamp,
            needs_receipt: false,
            unidentified_sender: false,
        },
        body: ContentBody::DataMessage(DataMessage {
            body: Some(text.to_string()),
            group_v2: None,
            delete: None,
            profile_key: None,
            flags: None,
        }),
    }
}

fn registered_record() -> Registered {
    Registered {
        signal_servers: SignalServers::Production,
        device_name: Some("laptop".to_string()),
        phone_number: "+16137827274".to_string(),
        uuid: uid(77),
        password: "secret-password-24-chars".to_string(),
        signaling_key: vec![5u8; 52],
        device_id: Some(3),
        registration_id: 1234,
        private_key: vec![1u8; 32],
        public_key: vec![2u8; 33],
        profile_key: vec![7u8; 32],
    }
}

#[test]
fn state_round_trip_preserves_every_field() {
    let mut store = VolatileStore::new();
    assert!(matches!(store.load_state(), Ok(None)));
    let record = registered_record();
    store.save_state(&record).unwrap();
    let loaded = store.load_state().unwrap().expect("record must be there");
    assert_eq!(loaded.signal_servers, record.signal_servers);
    assert_eq!(loaded.device_name, record.device_name);
    assert_eq!(loaded.phone_number, record.phone_number);
    assert_eq!(loaded.uuid, record.uuid);
    assert_eq!(loaded.password, record.password);
    assert_eq!(loaded.signaling_key, record.signaling_key);
    assert_eq!(loaded.device_id, record.device_id);
    assert_eq!(loaded.registration_id, record.registration_id);
    assert_eq!(loaded.private_key, record.private_key);
    assert_eq!(loaded.public_key, record.public_key);
    assert_eq!(loaded.profile_key, record.profile_key);
}

#[test]
fn clear_registration_empties_everything() {
    let mut store = VolatileStore::new();
    store.save_state(&registered_record()).unwrap();
    store.save_contact(contact(1, "alice")).unwrap();
    store.save_group(gkey(2), group("g", 1)).unwrap();
    store.clear_registration().unwrap();
    assert!(matches!(store.load_state(), Ok(None)));
    assert_eq!(store.contacts().unwrap().len(), 0);
    assert_eq!(store.groups().unwrap().len(), 0);
}

#[test]
fn contacts_upsert_and_lookup() {
    let mut store = VolatileStore::new();
    store.save_contact(contact(1, "alice")).unwrap();
    store.save_contact(contact(2, "bob")).unwrap();
    store.save_contact(contact(1, "alice2")).unwrap();
    assert_eq!(store.contacts().unwrap().len(), 2);
    let c = store.contact_by_id(uid(1)).unwrap().unwrap();
    assert_eq!(c.name, "alice2");
    assert!(store.contact_by_id(uid(9)).unwrap().is_none());
}

#[test]
fn save_contacts_bulk_inserts_in_order() {
    let mut store = VolatileStore::new();
    store.save_contacts(vec![contact(1, "a"), contact(2, "b"), contact(1, "c")]).unwrap();
    assert_eq!(store.contacts().unwrap().len(), 2);
    assert_eq!(store.contact_by_id(uid(1)).unwrap().unwrap().name, "c");
}

#[test]
fn groups_upsert_and_lookup() {
    let mut store = VolatileStore::new();
    store.save_group(gkey(1), group("first", 1)).unwrap();
    store.save_group(gkey(2), group("second", 2)).unwrap();
    store.save_group(gkey(1), group("renamed", 3)).unwrap();
    assert_eq!(store.groups().unwrap().len(), 2);
    assert_eq!(store.group(gkey(1)).unwrap().unwrap().title, "renamed");
    assert!(store.group(gkey(3)).unwrap().is_none());
}

#[test]
fn messages_keyed_by_thread_and_timestamp() {
    let mut store = VolatileStore::new();
    let t = Thread::Contact(uid(1));
    let ts = store.save_message(t, text_content(1, 100, "hi")).unwrap();
    assert_eq!(ts, 100);
    store.save_message(t, text_content(1, 50, "early")).unwrap();
    store.save_message(t, text_content(1, 150, "late")).unwrap();
    let got = store.message(t, 100).unwrap().unwrap();
    match got.body {
        ContentBody::DataMessage(d) => assert_eq!(d.body.unwrap(), "hi"),
        _ => panic!("expected a data message"),
    }
    assert!(store.message(t, 101).unwrap().is_none());
    let latest = store.latest_message(t).unwrap().unwrap();
    assert_eq!(latest.metadata.timestamp, 150);
}

#[test]
fn save_message_overwrites_equal_timestamp_last_write_wins() {
    let mut store = VolatileStore::new();
    let t = Thread::Contact(uid(1));
    store.save_message(t, text_content(1, 100, "first")).unwrap();
    store.save_message(t, text_content(2, 100, "second")).unwrap();
    let got = store.message(t, 100).unwrap().unwrap();
    match got.body {
        ContentBody::DataMessage(d) => assert_eq!(d.body.unwrap(), "second"),
        _ => panic!("expected a data message"),
    }
}

#[test]
fn messages_range_query_is_ascending_and_bounded() {
    let mut store = VolatileStore::new();
    let t = Thread::Contact(uid(1));
    let other = Thread::Contact(uid(2));
    store.save_message(t, text_content(1, 300, "c")).unwrap();
    store.save_message(t, text_content(1, 100, "a")).unwrap();
    store.save_message(other, text_content(2, 150, "x")).unwrap();
    store.save_message(t, text_content(1, 200, "b")).unwrap();
    let all = store.messages(t, None).unwrap();
    let stamps: Vec<u64> = all.iter().map(|c| c.metadata.timestamp).collect();
    assert_eq!(stamps, vec![100, 200, 300]);
    let from = store.messages(t, Some(150)).unwrap();
    let stamps: Vec<u64> = from.iter().map(|c| c.metadata.timestamp).collect();
    assert_eq!(stamps, vec![200, 300]);
}

#[test]
fn latest_message_of_an_empty_thread_is_none() {
    let store = VolatileStore::new();
    assert!(store.latest_message(Thread::Contact(uid(1))).unwrap().is_none());
}

#[test]
fn messages_from_bound_is_inclusive() {
    let mut store = VolatileStore::new();
    let t = Thread::Contact(uid(1));
    store.save_message(t, text_content(1, 100, "a")).unwrap();
    store.save_message(t, text_content(1, 200, "b")).unwrap();
    store.save_message(t, text_content(1, 300, "c")).unwrap();
    let from = store.messages(t, Some(200)).unwrap();
    let stamps: Vec<u64> = from.iter().map(|c| c.metadata.timestamp).collect();
    assert_eq!(stamps, vec![200, 300]);
}

#[test]
fn delete_message_reports_presence() {
    let mut store = VolatileStore::new();
    let t = Thread::Contact(uid(1));
    store.save_message(t, text_content(1, 100, "hi")).unwrap();
    assert_eq!(store.delete_message(t, 100).unwrap(), true);
    assert_eq!(store.delete_message(t, 100).unwrap(), false);
    assert!(store.message(t, 100).unwrap().is_none());
}

#[test]
fn unread_tracking_counts_and_clears() {
    let mut store = VolatileStore::new();
    let t = Thread::Contact(uid(1));
    store.add_unread_message(t, 100).unwrap();
    store.add_unread_message(t, 200).unwrap();
    store.add_unread_message(t, 100).unwrap();
    assert_eq!(store.unread_messages_count(t).unwrap(), 2);
    let mut stamps = store.unread_messages(t).unwrap();
    stamps.sort();
    assert_eq!(stamps, vec![100, 200]);
    store.mark_as_read(t, 100).unwrap();
    assert_eq!(store.unread_messages_count(t).unwrap(), 1);
    store.mark_all_as_read(t).unwrap();
    assert_eq!(store.unread_messages_count(t).unwrap(), 0);
}

#[test]
fn unread_per_thread_lists_every_thread() {
    let mut store = VolatileStore::new();
    let t1 = Thread::Contact(uid(1));
    let t2 = Thread::Group(gkey(5));
    store.add_unread_message(t1, 10).unwrap();
    store.add_unread_message(t2, 20).unwrap();
    store.add_unread_message(t2, 30).unwrap();
    let per = store.unread_messages_per_thread().unwrap();
    assert_eq!(per.len(), 2);
    for (thread, stamps) in per {
        if thread == t1 {
            assert_eq!(stamps.len(), 1);
        } else {
            assert_eq!(thread, t2);
            assert_eq!(stamps.len(), 2);
        }
    }
}

#[test]
fn pre_key_counters_persist() {
    let mut store = VolatileStore::new();
    assert_eq!(store.pre_keys_offset_id().unwrap(), 0);
    store.set_pre_keys_offset_id(12).unwrap();
    store.set_next_signed_pre_key_id(34).unwrap();
    assert_eq!(store.pre_keys_offset_id().unwrap(), 12);
    assert_eq!(store.next_signed_pre_key_id().unwrap(), 34);
}

#[test]
fn null_message_body_is_persisted() {
    let mut store = VolatileStore::new();
    let t = Thread::Contact(uid(1));
    let tomb = Content {
        metadata: Metadata {
            sender: Some(uid(0)),
            sender_device: 1,
            timestamp: 500,
            needs_receipt: false,
            unidentified_sender: false,
        },
        body: ContentBody::NullMessage(NullMessage {}),
    };
    store.save_message(t, tomb).unwrap();
    let got = store.message(t, 500).unwrap().unwrap();
    assert!(matches!(got.body, ContentBody::NullMessage(_)));
}
