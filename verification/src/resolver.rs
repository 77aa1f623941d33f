//! Thread resolution: the pure function mapping a decrypted content item to
//! the conversation it belongs to, with its explicit precedence.

use vstd::prelude::*;

use crate::content::{Content, ContentBody, ContentView};
use crate::errors::Error;
use crate::types::{GroupKey, Thread};

verus! {

/// The thread a content item belongs to, with first-match-wins precedence:
/// the destination of a sent-sync record, else the group of a group-v2
/// context (direct or nested in a sent-sync record), else the sender.
/// `None` means the sender fallback was reached but the sender is absent.
pub open spec fn resolve_thread(c: ContentView) -> Option<Thread> {
    if c.sent_destination() is Some {
        Some(Thread::Contact(c.sent_destination()->0))
    } else if c.group_context_key() is Some {
        Some(Thread::Group(c.group_context_key()->0))
    } else {
        match c.metadata.sender {
            Some(s) => Some(Thread::Contact(s)),
            None => None,
        }
    }
}

/// The group master key of the content's group-v2 context, if any.
pub fn group_key_of(content: &Content) -> (r: Option<GroupKey>)
    ensures
        r == content@.group_context_key(),
{
    let data = match &content.body {
        ContentBody::DataMessage(d) => Some(d),
        ContentBody::SynchronizeMessage(sm) => match &sm.sent {
            Some(sent) => match &sent.message {
                Some(d) => Some(d),
                None => None,
            },
            None => None,
        },
        _ => None,
    };
    match data {
        Some(d) => match &d.group_v2 {
            Some(ctx) => ctx.master_key,
            None => None,
        },
        None => None,
    }
}

impl Thread {
    /// Resolves the thread of a content item; fails with a missing-sender
    /// error exactly when resolution reaches an absent sender identity.
    pub fn try_from(content: &Content) -> (r: Result<Thread, Error>)
        ensures
            match resolve_thread(content@) {
                Some(t) => r == Ok::<Thread, Error>(t),
                None => r == Err::<Thread, Error>(Error::ContentMissingUuid),
            },
    {
        if let ContentBody::SynchronizeMessage(sm) = &content.body {
            if let Some(sent) = &sm.sent {
                if let Some(d) = sent.destination {
                    return Ok(Thread::Contact(d));
                }
            }
        }
        if let Some(k) = group_key_of(content) {
            return Ok(Thread::Group(k));
        }
        match content.metadata.sender {
            Some(s) => Ok(Thread::Contact(s)),
            None => Err(Error::ContentMissingUuid),
        }
    }
}

/// Law: for any content whose body is a sent-sync record with destination
/// `d`, resolution returns the contact thread of `d`, regardless of every
/// other field present.
pub proof fn lemma_resolve_sent_destination(c: ContentView, d: crate::types::UserId)
    requires
        c.sent_destination() == Some(d),
    ensures
        resolve_thread(c) == Some(Thread::Contact(d)),
{
}

/// Law: for any content carrying a group-v2 context with master key `k`
/// (directly or nested in a sent-sync record), with no sent-sync
/// destination taking precedence, resolution returns the group thread.
pub proof fn lemma_resolve_group_context(c: ContentView, k: GroupKey)
    requires
        c.sent_destination() is None,
        c.group_context_key() == Some(k),
    ensures
        resolve_thread(c) == Some(Thread::Group(k)),
{
}

/// Law: for content with neither a sent-sync destination nor a group
/// context, resolution returns the contact thread of the sender, and fails
/// deterministically when the sender is absent.
pub proof fn lemma_resolve_sender_fallback(c: ContentView)
    requires
        c.sent_destination() is None,
        c.group_context_key() is None,
    ensures
        resolve_thread(c) == (match c.metadata.sender {
            Some(s) => Some(Thread::Contact(s)),
            None => None::<Thread>,
        }),
{
}

} // verus!
