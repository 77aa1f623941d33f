use presage::accounts::{Registered, SignalServers};
use presage::content::{Content, ContentBody, DataMessage, Metadata, SyncRequestKind, END_SESSION_FLAG};
use presage::errors::Error;
use presage::manager::{apply_contacts_sync, build_contacts_sync_request, Manager};
use presage::pipeline::DecryptOutcome;
use presage::records::{Contact, Group};
use presage::store::Store;
use presage::types::{GroupKey, Thread, UserId};
use presage::volatile::VolatileStore;

fn uid(n: u128) -> UserId {
    UserId { id: n }
}

fn gkey(n: u128) -> GroupKey {
    GroupKey { hi: n, lo: 2 }
}

fn contact(n: u128, name: &str) -> Contact {
    Contact {
        address: uid(n),
        name: name.to_string(),
        phone_number: None,
        profile_key: Vec::new(),
        blocked: false,
        archived: false,
        avatar: None,
    }
}

fn group_with_members(title: &str, members: Vec<UserId>) -> Group {
    Group {
        title: title.to_string(),
        avatar: String::new(),
        members,
        revision: 1,
        description: None,
        access_control: None,
    }
}

fn registered_record(n: u128) -> Registered {
    Registered {
        signal_servers: SignalServers::Production,
        device_name: None,
        phone_number: "+16137827274".to_string(),
        uuid: uid(n),
        password: "pw".to_string(),
        signaling_key: vec![0u8; 52],
        device_id: None,
        registration_id: 99,
        private_key: vec![1u8; 32],
        public_key: vec![2u8; 33],
        profile_key: vec![3u8; 32],
    }
}

fn manager(n: u128) -> Manager<VolatileStore> {
    let mut store = VolatileStore::new();
    store.save_state(&registered_record(n)).unwrap();
    Manager::load_registered(store).unwrap()
}

fn text_body(text: &str) -> ContentBody {
    ContentBody::DataMessage(DataMessage {
        body: Some(text.to_string()),
        group_v2: None,
        delete: None,
        profile_key: None,
        flags: None,
    })
}

fn text_content(sender: u128, timestamp: u64, text: &str) -> Content {
    Content {
        metadata: Metadata {
            sender: Some(uid(sender)),
            sender_device: 1,
            timestamp,
            needs_receipt: false,
            unidentified_sender: false,
        },
        body: text_body(text),
    }
}

#[test]
fn load_registered_requires_a_record() {
    let store = VolatileStore::new();
    let r = Manager::load_registered(store);
    assert!(matches!(r, Err(Error::NotYetRegisteredError)));
    let m = manager(11);
    assert_eq!(m.uuid(), uid(11));
    assert_eq!(m.state().registration_id(), 99);
}

#[test]
fn send_before_pipe_start_fails_with_pipe_not_started() {
    let m = manager(11);
    let r = m.compose_outgoing(text_body("hi"), 123);
    assert!(matches!(r, Err(Error::MessagePipeNotStarted)));
}

#[test]
fn compose_after_pipe_start_stamps_the_sender() {
    let mut m = manager(11);
    m.start_message_pipe();
    let c = m.compose_outgoing(text_body("hi"), 123).unwrap();
    assert_eq!(c.metadata.sender, Some(uid(11)));
    assert_eq!(c.metadata.sender_device, 1);
    assert_eq!(c.metadata.timestamp, 123);
    assert!(!c.metadata.needs_receipt);
    assert!(!c.metadata.unidentified_sender);
}

#[test]
fn persist_sent_message_stores_the_local_copy() {
    let mut m = manager(11);
    m.start_message_pipe();
    let c = m.compose_outgoing(text_body("hi bob"), 500).unwrap();
    m.persist_sent_message(uid(42), c).unwrap();
    let got = m.message(Thread::Contact(uid(42)), 500).unwrap().unwrap();
    assert_eq!(got.metadata.sender, Some(uid(11)));
}

#[test]
fn group_send_recipients_excludes_self() {
    let mut m = manager(11);
    let key = gkey(1);
    m.save_group(key, group_with_members("team", vec![uid(11), uid(12), uid(13)])).unwrap();
    let recipients = m.group_send_recipients(key).unwrap();
    assert_eq!(recipients, vec![uid(12), uid(13)]);
}

#[test]
fn group_send_to_unknown_group_fails() {
    let m = manager(11);
    let r = m.group_send_recipients(gkey(9));
    assert!(matches!(r, Err(Error::UnknownGroup)));
}

#[test]
fn session_reset_message_carries_the_end_session_flag() {
    let reset = Manager::<VolatileStore>::build_session_reset();
    assert_eq!(reset.flags, Some(END_SESSION_FLAG));
    assert!(reset.body.is_none());
}

#[test]
fn title_falls_back_to_decimal_identifier() {
    let mut m = manager(11);
    m.save_contact(contact(5, "eve")).unwrap();
    assert_eq!(m.get_title_for_thread(Thread::Contact(uid(5))).unwrap(), "eve");
    assert_eq!(m.get_title_for_thread(Thread::Contact(uid(42))).unwrap(), "42");
    assert_eq!(m.get_title_for_thread(Thread::Group(gkey(1))).unwrap(), "");
    m.save_group(gkey(1), group_with_members("team", Vec::new())).unwrap();
    assert_eq!(m.get_title_for_thread(Thread::Group(gkey(1))).unwrap(), "team");
}

#[test]
fn save_thread_creates_a_placeholder_contact_once() {
    let mut m = manager(11);
    m.save_thread(Thread::Contact(uid(21)), Some(vec![9u8; 32])).unwrap();
    let c = m.contact_by_id(uid(21)).unwrap().unwrap();
    assert_eq!(c.name, "");
    assert_eq!(c.profile_key, vec![9u8; 32]);
    // A second call leaves the stored contact alone.
    m.save_thread(Thread::Contact(uid(21)), None).unwrap();
    let again = m.contact_by_id(uid(21)).unwrap().unwrap();
    assert_eq!(again.profile_key, vec![9u8; 32]);
    // Group threads are left alone entirely.
    m.save_thread(Thread::Group(gkey(3)), None).unwrap();
}

#[test]
fn profile_update_selects_unnamed_contacts_with_full_keys() {
    let mut m = manager(11);
    let mut unnamed = contact(1, "");
    unnamed.profile_key = vec![4u8; 32];
    m.save_contact(unnamed).unwrap();
    m.save_contact(contact(2, "named")).unwrap();
    let mut short_key = contact(3, "");
    short_key.profile_key = vec![4u8; 5];
    m.save_contact(short_key).unwrap();
    let pending = m.contacts_needing_profile_update().unwrap();
    assert_eq!(pending.len(), 1);
    assert_eq!(pending[0].0, uid(1));
    assert_eq!(pending[0].1, vec![4u8; 32]);
}

#[test]
fn apply_profile_name_renames_the_contact() {
    let mut m = manager(11);
    m.save_contact(contact(1, "")).unwrap();
    let updated = m.apply_profile_name(uid(1), Some("dora".to_string())).unwrap();
    assert!(updated);
    assert_eq!(m.contact_by_id(uid(1)).unwrap().unwrap().name, "dora");
    // Unknown contacts are not touched.
    let untouched = m.apply_profile_name(uid(9), Some("x".to_string())).unwrap();
    assert!(!untouched);
}

#[test]
fn get_messages_marks_the_thread_read() {
    let t = Thread::Contact(uid(2));
    let mut store = VolatileStore::new();
    store.save_state(&registered_record(11)).unwrap();
    store.save_message(t, text_content(2, 100, "one")).unwrap();
    store.add_unread_message(t, 100).unwrap();
    let mut m = Manager::load_registered(store).unwrap();
    let msgs = m.get_messages(t, None).unwrap();
    assert_eq!(msgs.len(), 1);
    let counts = m.get_unread_sessions_count().unwrap();
    assert_eq!(counts.len(), 1);
    assert_eq!(counts[0], (t, 0));
}

#[test]
fn account_attributes_take_the_device_name() {
    let mut record = registered_record(11);
    record.device_name = Some("laptop".to_string());
    let attributes = record.account_attributes();
    assert_eq!(attributes.name, "laptop");
    assert_eq!(attributes.registration_id, 99);
    assert!(attributes.fetches_messages);
    assert!(attributes.signaling_key.is_none());
    let bare = registered_record(12);
    assert_eq!(bare.account_attributes().name, "");
}

#[test]
fn contacts_sync_request_asks_for_contacts() {
    let req = build_contacts_sync_request();
    assert_eq!(req.request, Some(SyncRequestKind::Contacts));
    assert!(req.sent.is_none());
    assert!(!req.contacts);
}

#[test]
fn contacts_sync_replaces_the_contact_list() {
    let mut store = VolatileStore::new();
    store.save_contact(contact(1, "stale")).unwrap();
    apply_contacts_sync(&mut store, vec![contact(2, "fresh"), contact(3, "brand-new")]).unwrap();
    assert!(store.contact_by_id(uid(1)).unwrap().is_none());
    assert_eq!(store.contacts().unwrap().len(), 2);
}

#[test]
fn conversations_are_sorted_by_latest_message() {
    let mut m = manager(11);
    m.save_contact(contact(1, "alice")).unwrap();
    m.save_contact(contact(2, "bob")).unwrap();
    m.save_group(gkey(1), group_with_members("team", Vec::new())).unwrap();
    m.start_message_pipe();
    let c1 = m.compose_outgoing(text_body("to alice"), 300).unwrap();
    m.persist_sent_message(uid(1), c1).unwrap();
    let c2 = m.compose_outgoing(text_body("to bob"), 700).unwrap();
    m.persist_sent_message(uid(2), c2).unwrap();
    let conversations = m.load_conversations().unwrap();
    assert_eq!(conversations.len(), 3);
    assert_eq!(conversations[0].thread, Thread::Contact(uid(2)));
    assert_eq!(conversations[0].title, Some("bob".to_string()));
    assert!(conversations[0].contact.is_some());
    assert_eq!(conversations[1].thread, Thread::Contact(uid(1)));
    assert_eq!(conversations[2].thread, Thread::Group(gkey(1)));
    assert!(conversations[2].groupv2.is_some());
    assert!(conversations[2].last_message.is_none());
}

#[test]
fn conversation_rows_carry_unread_counts() {
    let t = Thread::Contact(uid(1));
    let mut store = VolatileStore::new();
    store.save_state(&registered_record(11)).unwrap();
    store.save_contact(contact(1, "alice")).unwrap();
    store.add_unread_message(t, 5).unwrap();
    store.add_unread_message(t, 6).unwrap();
    let m = Manager::load_registered(store).unwrap();
    let conversations = m.load_conversations().unwrap();
    assert_eq!(conversations.len(), 1);
    assert_eq!(conversations[0].unread_messages_count, 2);
}

#[test]
fn ingested_message_appears_in_conversations() {
    let mut m = manager(11);
    m.save_contact(contact(7, "grace")).unwrap();
    let incoming = text_content(7, 900, "hello there");
    let report = m.ingest(false, DecryptOutcome::Content(incoming), None);
    assert!(report.message_saved);
    let conversations = m.load_conversations().unwrap();
    assert_eq!(conversations.len(), 1);
    assert_eq!(conversations[0].thread, Thread::Contact(uid(7)));
    let last = conversations[0].last_message.as_ref().unwrap();
    assert_eq!(last.metadata.timestamp, 900);
    let md = m.thread_metadata(Thread::Contact(uid(7))).unwrap().unwrap();
    assert_eq!(md.title, Some("grace".to_string()));
}
