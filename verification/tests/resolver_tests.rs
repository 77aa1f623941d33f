use presage::content::{
    Content, ContentBody, DataMessage, GroupContextV2, Metadata, SentSync, SyncMessage,
};
use presage::errors::Error;
use presage::types::{GroupKey, Thread, UserId};

fn uid(n: u128) -> UserId {
    UserId { id: n }
}

fn gkey(n: u128) -> GroupKey {
    GroupKey { hi: n, lo: n + 1 }
}

fn metadata(sender: Option<UserId>, timestamp: u64) -> Metadata {
    Metadata { sender, sender_device: 1, timestamp, needs_receipt: false, unidentified_sender: false }
}

fn plain_data(text: &str) -> DataMessage {
    DataMessage {
        body: Some(text.to_string()),
        group_v2: None,
        delete: None,
        profile_key: None,
        flags: None,
    }
}

fn group_data(key: GroupKey, revision: u32) -> DataMessage {
    DataMessage {
        body: Some("hi".to_string()),
        group_v2: Some(GroupContextV2 { master_key: Some(key), revision: Some(revision) }),
        delete: None,
        profile_key: None,
        flags: None,
    }
}

#[test]
fn resolves_sent_sync_destination_over_everything() {
    // A sent-sync record with a destination wins even over a nested group context.
    let content = Content {
        metadata: metadata(Some(uid(7)), 10),
        body: ContentBody::SynchronizeMessage(SyncMessage {
            sent: Some(SentSync { destination: Some(uid(42)), message: Some(group_data(gkey(1), 3)) }),
            contacts: false,
            call_event: false,
            request: None,
        }),
    };
    assert_eq!(Thread::try_from(&content), Ok(Thread::Contact(uid(42))));
}

#[test]
fn resolves_direct_group_context() {
    let content = Content {
        metadata: metadata(Some(uid(7)), 10),
        body: ContentBody::DataMessage(group_data(gkey(9), 2)),
    };
    assert_eq!(Thread::try_from(&content), Ok(Thread::Group(gkey(9))));
}

#[test]
fn resolves_group_context_nested_in_sent_sync() {
    let content = Content {
        metadata: metadata(Some(uid(7)), 10),
        body: ContentBody::SynchronizeMessage(SyncMessage {
            sent: Some(SentSync { destination: None, message: Some(group_data(gkey(5), 1)) }),
            contacts: false,
            call_event: false,
            request: None,
        }),
    };
    assert_eq!(Thread::try_from(&content), Ok(Thread::Group(gkey(5))));
}

#[test]
fn resolves_sender_fallback() {
    let content = Content {
        metadata: metadata(Some(uid(3)), 10),
        body: ContentBody::DataMessage(plain_data("hello")),
    };
    assert_eq!(Thread::try_from(&content), Ok(Thread::Contact(uid(3))));
}

#[test]
fn sent_sync_without_destination_or_group_falls_back_to_sender() {
    let content = Content {
        metadata: metadata(Some(uid(6)), 10),
        body: ContentBody::SynchronizeMessage(SyncMessage {
            sent: Some(SentSync { destination: None, message: Some(plain_data("copy")) }),
            contacts: false,
            call_event: false,
            request: None,
        }),
    };
    assert_eq!(Thread::try_from(&content), Ok(Thread::Contact(uid(6))));
}

#[test]
fn missing_sender_fails_resolution() {
    let content = Content {
        metadata: metadata(None, 10),
        body: ContentBody::DataMessage(plain_data("hello")),
    };
    assert_eq!(Thread::try_from(&content), Err(Error::ContentMissingUuid));
}

#[test]
fn group_context_without_master_key_falls_through_to_sender() {
    let content = Content {
        metadata: metadata(Some(uid(8)), 10),
        body: ContentBody::DataMessage(DataMessage {
            body: None,
            group_v2: Some(GroupContextV2 { master_key: None, revision: Some(4) }),
            delete: None,
            profile_key: None,
            flags: None,
        }),
    };
    assert_eq!(Thread::try_from(&content), Ok(Thread::Contact(uid(8))));
}
