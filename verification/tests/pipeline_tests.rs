use presage::content::{
    Content, ContentBody, DataMessage, DeleteMarker, GroupContextV2, Metadata, ReceiptMessage,
    SyncMessage, SentSync, TypingMessage,
};
use presage::pipeline::{
    create_thread_metadata, ensure_thread_metadata, group_fetch_needed, ingest_decrypted,
    save_message, save_message_with_thread, upsert_group, DecryptOutcome, IngestAction,
};
use presage::records::Group;
use presage::store::Store;
use presage::types::{GroupKey, Thread, UserId};
use presage::volatile::VolatileStore;

fn uid(n: u128) -> UserId {
    UserId { id: n }
}

fn gkey(n: u128) -> GroupKey {
    GroupKey { hi: n, lo: 1 }
}

fn group(title: &str, revision: u32) -> Group {
    Group {
        title: title.to_string(),
        avatar: String::new(),
        members: Vec::new(),
        revision,
        description: None,
        access_control: None,
    }
}

fn metadata(sender: u128, timestamp: u64) -> Metadata {
    Metadata {
        sender: Some(uid(sender)),
        sender_device: 1,
        timestamp,
        needs_receipt: false,
        unidentified_sender: false,
    }
}

fn text_content(sender: u128, timestamp: u64, text: &str) -> Content {
    Content {
        metadata: metadata(sender, timestamp),
        body: ContentBody::DataMessage(DataMessage {
            body: Some(text.to_string()),
            group_v2: None,
            delete: None,
            profile_key: None,
            flags: None,
        }),
    }
}

fn delete_content(sender: u128, timestamp: u64, target: u64) -> Content {
    Content {
        metadata: metadata(sender, timestamp),
        body: ContentBody::DataMessage(DataMessage {
            body: None,
            group_v2: None,
            delete: Some(DeleteMarker { target_sent_timestamp: Some(target) }),
            profile_key: None,
            flags: None,
        }),
    }
}

#[test]
fn group_cache_upsert_respects_revision_guard() {
    let mut store = VolatileStore::new();
    let key = gkey(1);
    upsert_group(&mut store, key, group("v2", 2)).unwrap();
    assert_eq!(store.group(key).unwrap().unwrap().title, "v2");
    // Equal revision must not overwrite.
    upsert_group(&mut store, key, group("stale-equal", 2)).unwrap();
    assert_eq!(store.group(key).unwrap().unwrap().title, "v2");
    // Lower revision must not overwrite.
    upsert_group(&mut store, key, group("stale-lower", 1)).unwrap();
    assert_eq!(store.group(key).unwrap().unwrap().title, "v2");
    // Strictly greater revision replaces the snapshot.
    upsert_group(&mut store, key, group("v3", 3)).unwrap();
    assert_eq!(store.group(key).unwrap().unwrap().title, "v3");
    assert_eq!(store.group(key).unwrap().unwrap().revision, 3);
}

#[test]
fn group_fetch_needed_follows_cache_state() {
    let mut store = VolatileStore::new();
    let key = gkey(4);
    assert!(group_fetch_needed(&store, key, 0).unwrap());
    store.save_group(key, group("g", 5)).unwrap();
    assert!(!group_fetch_needed(&store, key, 5).unwrap());
    assert!(!group_fetch_needed(&store, key, 4).unwrap());
    assert!(group_fetch_needed(&store, key, 6).unwrap());
}

#[test]
fn delete_tombstones_existing_message() {
    let mut store = VolatileStore::new();
    let t = Thread::Contact(uid(2));
    save_message_with_thread(&mut store, text_content(2, 1000, "to be erased"), t).unwrap();
    save_message_with_thread(&mut store, delete_content(2, 1010, 1000), t).unwrap();
    let got = store.message(t, 1000).unwrap().unwrap();
    assert_eq!(got.metadata.sender, Some(uid(0)));
    assert!(matches!(got.body, ContentBody::NullMessage(_)));
    // The delete marker itself is not stored as a row.
    assert!(store.message(t, 1010).unwrap().is_none());
}

#[test]
fn delete_against_missing_target_is_a_no_op() {
    let mut store = VolatileStore::new();
    let t = Thread::Contact(uid(2));
    save_message_with_thread(&mut store, delete_content(2, 1010, 999), t).unwrap();
    assert!(store.message(t, 999).unwrap().is_none());
    assert!(store.message(t, 1010).unwrap().is_none());
    assert_eq!(store.messages(t, None).unwrap().len(), 0);
}

#[test]
fn receipts_typing_and_bare_sync_are_skipped() {
    let mut store = VolatileStore::new();
    let t = Thread::Contact(uid(3));
    let receipt = Content {
        metadata: metadata(3, 10),
        body: ContentBody::ReceiptMessage(ReceiptMessage {}),
    };
    let typing = Content {
        metadata: metadata(3, 20),
        body: ContentBody::TypingMessage(TypingMessage {}),
    };
    let bare_sync = Content {
        metadata: metadata(3, 30),
        body: ContentBody::SynchronizeMessage(SyncMessage {
            sent: None,
            contacts: false,
            call_event: false,
            request: None,
        }),
    };
    save_message_with_thread(&mut store, receipt, t).unwrap();
    save_message_with_thread(&mut store, typing, t).unwrap();
    save_message_with_thread(&mut store, bare_sync, t).unwrap();
    assert_eq!(store.messages(t, None).unwrap().len(), 0);
}

#[test]
fn sync_wrapped_call_event_is_persisted() {
    let mut store = VolatileStore::new();
    let t = Thread::Contact(uid(3));
    let call_sync = Content {
        metadata: metadata(3, 40),
        body: ContentBody::SynchronizeMessage(SyncMessage {
            sent: None,
            contacts: false,
            call_event: true,
            request: None,
        }),
    };
    save_message_with_thread(&mut store, call_sync, t).unwrap();
    assert_eq!(store.messages(t, None).unwrap().len(), 1);
}

#[test]
fn metadata_creation_is_idempotent() {
    let mut store = VolatileStore::new();
    let t = Thread::Contact(uid(5));
    ensure_thread_metadata(&mut store, t).unwrap();
    ensure_thread_metadata(&mut store, t).unwrap();
    let rows = store.thread_metadatas().unwrap();
    assert_eq!(rows.len(), 1);
    assert_eq!(rows[0].thread, t);
    assert_eq!(rows[0].unread_messages_count, 0);
    assert!(!rows[0].archived);
    assert!(!rows[0].muted);
}

#[test]
fn created_metadata_takes_contact_name_as_title() {
    let mut store = VolatileStore::new();
    let mut contact = presage::records::Contact {
        address: uid(6),
        name: "carol".to_string(),
        phone_number: None,
        profile_key: Vec::new(),
        blocked: false,
        archived: false,
        avatar: None,
    };
    contact.name = "carol".to_string();
    store.save_contact(contact).unwrap();
    let md = create_thread_metadata(&mut store, Thread::Contact(uid(6))).unwrap();
    assert_eq!(md.title, Some("carol".to_string()));
}

#[test]
fn ingest_sequence_emits_once_and_persists_once() {
    // Scenario: an empty envelope, an undecryptable one, then a normal
    // data message. Exactly one item is emitted, one metadata row and one
    // message row are persisted.
    let mut store = VolatileStore::new();
    let r1 = ingest_decrypted(&mut store, false, DecryptOutcome::Empty, None);
    assert!(matches!(r1.action, IngestAction::Continue));
    let r2 = ingest_decrypted(&mut store, false, DecryptOutcome::Failed, None);
    assert!(matches!(r2.action, IngestAction::Continue));
    let msg = text_content(9, 777, "hello");
    let r3 = ingest_decrypted(&mut store, false, DecryptOutcome::Content(msg), None);
    let emitted = match r3.action {
        IngestAction::Emit(c) => c,
        _ => panic!("the third envelope must be emitted"),
    };
    assert_eq!(emitted.metadata.timestamp, 777);
    assert!(r3.metadata_saved);
    assert!(r3.message_saved);
    let t = Thread::Contact(uid(9));
    assert_eq!(store.thread_metadatas().unwrap().len(), 1);
    assert_eq!(store.messages(t, None).unwrap().len(), 1);
}

#[test]
fn ingest_then_delete_leaves_tombstone() {
    // Scenario: a data message at timestamp 1000, then a delete targeting
    // 1000 in the same thread; the stored row is the tombstone.
    let mut store = VolatileStore::new();
    let first = text_content(4, 1000, "original text");
    let r1 = ingest_decrypted(&mut store, false, DecryptOutcome::Content(first), None);
    assert!(matches!(r1.action, IngestAction::Emit(_)));
    let erase = delete_content(4, 1200, 1000);
    let r2 = ingest_decrypted(&mut store, false, DecryptOutcome::Content(erase), None);
    assert!(matches!(r2.action, IngestAction::Emit(_)));
    let t = Thread::Contact(uid(4));
    let got = store.message(t, 1000).unwrap().unwrap();
    assert_eq!(got.metadata.sender, Some(uid(0)));
    assert!(matches!(got.body, ContentBody::NullMessage(_)));
}

#[test]
fn contacts_sync_stops_pipeline_and_emits_only_internally() {
    let sync = |ts: u64| Content {
        metadata: metadata(1, ts),
        body: ContentBody::SynchronizeMessage(SyncMessage {
            sent: None,
            contacts: true,
            call_event: false,
            request: None,
        }),
    };
    let mut store = VolatileStore::new();
    let normal = ingest_decrypted(&mut store, false, DecryptOutcome::Content(sync(1)), None);
    assert!(matches!(normal.action, IngestAction::Stop));
    let internal = ingest_decrypted(&mut store, true, DecryptOutcome::Content(sync(2)), None);
    assert!(matches!(internal.action, IngestAction::EmitAndStop(_)));
    assert_eq!(store.thread_metadatas().unwrap().len(), 0);
}

#[test]
fn ingest_updates_group_cache_with_fetched_snapshot() {
    let mut store = VolatileStore::new();
    let key = gkey(8);
    store.save_group(key, group("old", 1)).unwrap();
    let content = Content {
        metadata: metadata(2, 50),
        body: ContentBody::DataMessage(DataMessage {
            body: Some("group msg".to_string()),
            group_v2: Some(GroupContextV2 { master_key: Some(key), revision: Some(4) }),
            delete: None,
            profile_key: None,
            flags: None,
        }),
    };
    let r = ingest_decrypted(
        &mut store,
        false,
        DecryptOutcome::Content(content),
        Some(group("fresh", 4)),
    );
    assert!(matches!(r.action, IngestAction::Emit(_)));
    assert!(r.group_saved);
    assert_eq!(store.group(key).unwrap().unwrap().title, "fresh");
    assert_eq!(store.messages(Thread::Group(key), None).unwrap().len(), 1);
}

#[test]
fn ingest_drops_item_without_sender() {
    let mut store = VolatileStore::new();
    let content = Content {
        metadata: Metadata {
            sender: None,
            sender_device: 1,
            timestamp: 60,
            needs_receipt: false,
            unidentified_sender: true,
        },
        body: ContentBody::DataMessage(DataMessage {
            body: Some("nobody".to_string()),
            group_v2: None,
            delete: None,
            profile_key: None,
            flags: None,
        }),
    };
    let r = ingest_decrypted(&mut store, false, DecryptOutcome::Content(content), None);
    assert!(matches!(r.action, IngestAction::Continue));
    assert_eq!(store.thread_metadatas().unwrap().len(), 0);
}

#[test]
fn sent_sync_copy_is_saved_under_destination_thread() {
    let mut store = VolatileStore::new();
    let content = Content {
        metadata: metadata(1, 90),
        body: ContentBody::SynchronizeMessage(SyncMessage {
            sent: Some(SentSync {
                destination: Some(uid(55)),
                message: Some(DataMessage {
                    body: Some("sent elsewhere".to_string()),
                    group_v2: None,
                    delete: None,
                    profile_key: None,
                    flags: None,
                }),
            }),
            contacts: false,
            call_event: false,
            request: None,
        }),
    };
    save_message(&mut store, content).unwrap();
    let t = Thread::Contact(uid(55));
    assert_eq!(store.messages(t, None).unwrap().len(), 1);
}
