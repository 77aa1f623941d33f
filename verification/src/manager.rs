//! The account lifecycle state machine. Each flow is split at its
//! collaborator calls: a step that prepares state and describes the call
//! the transport must make, and a step that takes the collaborator's
//! outcome and advances (or fails) the machine, persisting what must be
//! durable and wiping the store where partial credentials would be unsafe.

use vstd::multiset::Multiset;
use vstd::prelude::*;

use crate::accounts::{
    AccountAttributes, Confirmation, DeviceCapabilities, NewDeviceCredentials, Registered,
    RegisteredView, RegistrationOptions, SignalServers, PASSWORD_LEN, PROFILE_KEY_LEN,
    REGISTRATION_ID_BOUND, SIGNALING_KEY_LEN,
};
use crate::content::{
    Content, ContentBody, ContentView, DataMessage, Metadata, SyncMessage, SyncRequestKind,
    END_SESSION_FLAG,
};
use crate::errors::{Error, ServiceFailure};
use crate::pipeline::{
    ingest_decrypted, save_message_with_thread, spec_ingest_effect, spec_save_policy, thread_title,
    spec_thread_title, DecryptOutcome, IngestAction, IngestReport,
};
use crate::random::{generate_password, generate_registration_id, is_ascii_alphanumeric_char, random_bytes};
use crate::records::{Contact, ContactView, Group, GroupView, ThreadMetadata};
use crate::resolver::resolve_thread;
use crate::store::{contacts_put_all, Store, StoreModel};
use crate::types::{GroupKey, Thread, UserId};
use crate::util::{copy_bytes, copy_opt_string};

verus! {

/// The verification-code request the transport collaborator must make for
/// a beginning registration.
pub struct VerificationCodeRequest {
    pub phone_number: String,
    pub password: String,
    pub use_voice_call: bool,
    pub captcha: Option<String>,
}

/// Begins registration: refuses when a Registered record exists and no
/// force flag is set, clears the store, generates the fresh password, and
/// describes the verification-code request to make.
pub fn begin_register<C: Store>(store: &mut C, options: RegistrationOptions) -> (r: Result<
    (Confirmation, VerificationCodeRequest),
    Error,
>)
    ensures
        match r {
            Ok(out) => {
                &&& out.0@.signal_servers == options.signal_servers
                &&& out.0@.phone_number == options.phone_number@
                &&& out.0@.password.len() == PASSWORD_LEN
                &&& forall|i: int|
                    0 <= i < out.0@.password.len() ==> is_ascii_alphanumeric_char(
                        #[trigger] out.0@.password[i],
                    )
                &&& out.1.phone_number@ == options.phone_number@
                &&& out.1.password@ == out.0@.password
                &&& out.1.use_voice_call == options.use_voice_call
                &&& out.1.captcha.deep_view() == options.captcha.deep_view()
                &&& final(store).model() == StoreModel::empty()
            },
            Err(e) => {
                &&& final(store).model() == old(store).model()
                &&& (e is AlreadyRegisteredError || e is Store)
                &&& e is AlreadyRegisteredError ==> !options.force && old(
                    store,
                ).model().state is Some
            },
        },
        !options.force && old(store).model().state is Some ==> r is Err,
{
    if !options.force {
        match store.load_state() {
            Ok(Some(_)) => {
                return Err(Error::AlreadyRegisteredError);
            },
            Ok(None) => {},
            Err(e) => {
                return Err(Error::Store(e));
            },
        }
    }
    match store.clear_registration() {
        Ok(_) => {},
        Err(e) => {
            return Err(Error::Store(e));
        },
    }
    let password = generate_password();
    let request = VerificationCodeRequest {
        phone_number: options.phone_number.clone(),
        password: password.clone(),
        use_voice_call: options.use_voice_call,
        captcha: copy_opt_string(&options.captcha),
    };
    let confirmation = Confirmation {
        signal_servers: options.signal_servers,
        phone_number: options.phone_number,
        password,
    };
    Ok((confirmation, request))
}

/// The collaborator's answer to a verification-code request.
pub enum VerificationCodeResponse {
    /// The code was sent by SMS or voice call.
    CodeSent,
    /// A human-verification challenge must be solved first; the state
    /// machine does not advance.
    CaptchaRequired,
}

/// Finishes the registration entry point with the collaborator's answer:
/// a captcha demand fails the transition, anything else yields the
/// pending-confirmation state.
pub fn complete_register(confirmation: Confirmation, response: VerificationCodeResponse) -> (r:
    Result<Confirmation, Error>)
    ensures
        match response {
            VerificationCodeResponse::CaptchaRequired => r == Err::<Confirmation, Error>(
                Error::CaptchaRequired,
            ),
            VerificationCodeResponse::CodeSent => r matches Ok(c) && c@ == confirmation@,
        },
{
    match response {
        VerificationCodeResponse::CaptchaRequired => Err(Error::CaptchaRequired),
        VerificationCodeResponse::CodeSent => Ok(confirmation),
    }
}

/// The ephemeral key material drawn when a confirmation code is exchanged.
pub struct ConfirmSession {
    pub registration_id: u32,
    pub signaling_key: Vec<u8>,
    pub profile_key: Vec<u8>,
}

/// Draws the registration id, signaling key and profile key of a pending
/// confirmation, and assembles the account attributes the collaborator
/// needs alongside the confirmation code.
pub fn begin_confirm(confirmation: &Confirmation) -> (r: (ConfirmSession, AccountAttributes))
    ensures
        r.0.registration_id < REGISTRATION_ID_BOUND,
        r.0.signaling_key@.len() == SIGNALING_KEY_LEN,
        r.0.profile_key@.len() == PROFILE_KEY_LEN,
        r.1.name@ == Seq::<char>::empty(),
        r.1.signaling_key matches Some(k) && k@ == r.0.signaling_key@,
        r.1.registration_id == r.0.registration_id,
        !r.1.voice && !r.1.video && r.1.fetches_messages && r.1.discoverable_by_phone_number,
        r.1.capabilities.gv2 && r.1.capabilities.gv1_migration,
{
    let registration_id = generate_registration_id();
    let signaling_key = random_bytes(SIGNALING_KEY_LEN);
    let profile_key = random_bytes(PROFILE_KEY_LEN);
    let attributes = AccountAttributes {
        name: String::new(),
        signaling_key: Some(copy_bytes(&signaling_key)),
        registration_id,
        voice: false,
        video: false,
        fetches_messages: true,
        discoverable_by_phone_number: true,
        capabilities: DeviceCapabilities { gv2: true, gv1_migration: true },
    };
    (ConfirmSession { registration_id, signaling_key, profile_key }, attributes)
}

/// An identity key pair, generated by the protocol collaborator; its
/// bytes are opaque to this core.
pub struct IdentityKeyPair {
    pub private_key: Vec<u8>,
    pub public_key: Vec<u8>,
}

/// Assembles and persists the Registered record once the collaborator has
/// exchanged the confirmation code for the durable account identifier.
pub fn complete_confirm<C: Store>(
    store: &mut C,
    confirmation: Confirmation,
    session: ConfirmSession,
    uuid: UserId,
    identity: IdentityKeyPair,
) -> (r: Result<Registered, Error>)
    ensures
        match r {
            Ok(reg) => {
                &&& reg@.signal_servers == confirmation@.signal_servers
                &&& reg@.device_name is None
                &&& reg@.phone_number == confirmation@.phone_number
                &&& reg@.uuid == uuid
                &&& reg@.password == confirmation@.password
                &&& reg@.signaling_key == session.signaling_key@
                &&& reg@.device_id is None
                &&& reg@.registration_id == session.registration_id
                &&& reg@.private_key == identity.private_key@
                &&& reg@.public_key == identity.public_key@
                &&& reg@.profile_key == session.profile_key@
                &&& final(store).model() == (StoreModel {
                    state: Some(reg@),
                    ..old(store).model()
                })
            },
            Err(e) => final(store).model() == old(store).model() && e is Store,
        },
{
    let record = Registered {
        signal_servers: confirmation.signal_servers,
        device_name: None,
        phone_number: confirmation.phone_number,
        uuid,
        password: confirmation.password,
        signaling_key: session.signaling_key,
        device_id: None,
        registration_id: session.registration_id,
        private_key: identity.private_key,
        public_key: identity.public_key,
        profile_key: session.profile_key,
    };
    match store.save_state(&record) {
        Ok(_) => Ok(record),
        Err(e) => Err(Error::Store(e)),
    }
}

/// The two monotonically increasing pre-key counters as the store holds
/// them, handed to the collaborator's pre-key bundle maintenance.
pub fn pre_key_counters<C: Store>(store: &C) -> (r: Result<(u32, u32), Error>)
    ensures
        match r {
            Ok(ids) => ids.0 == store.model().pre_keys_offset_id && ids.1
                == store.model().next_signed_pre_key_id,
            Err(e) => e is Store,
        },
{
    let offset = match store.pre_keys_offset_id() {
        Ok(v) => v,
        Err(e) => {
            return Err(Error::Store(e));
        },
    };
    let next_signed = match store.next_signed_pre_key_id() {
        Ok(v) => v,
        Err(e) => {
            return Err(Error::Store(e));
        },
    };
    Ok((offset, next_signed))
}

/// Persists the pre-key counters the collaborator committed.
pub fn commit_pre_key_counters<C: Store>(store: &mut C, offset: u32, next_signed: u32) -> (r:
    Result<(), Error>)
    ensures
        match r {
            Ok(_) => final(store).model() == (StoreModel {
                pre_keys_offset_id: offset,
                next_signed_pre_key_id: next_signed,
                ..old(store).model()
            }),
            Err(e) => e is Store && (final(store).model() == old(store).model() || final(store).model() == (StoreModel { pre_keys_offset_id: offset, ..old(store).model() })),
        },
{
    match store.set_pre_keys_offset_id(offset) {
        Ok(_) => {},
        Err(e) => {
            return Err(Error::Store(e));
        },
    }
    match store.set_next_signed_pre_key_id(next_signed) {
        Ok(_) => Ok(()),
        Err(e) => Err(Error::Store(e)),
    }
}

/// Concludes a confirmation with the outcome of the pre-key registration
/// that follows it: on success the counters are persisted; on failure the
/// whole store is wiped — partially initialized credentials are unsafe to
/// keep — and the failure is surfaced.
pub fn conclude_registration<C: Store>(
    store: &mut C,
    pre_keys: Result<(u32, u32), ServiceFailure>,
) -> (r: Result<(), Error>)
    ensures
        match pre_keys {
            Ok(ids) => match r {
                Ok(_) => final(store).model() == (StoreModel {
                    pre_keys_offset_id: ids.0,
                    next_signed_pre_key_id: ids.1,
                    ..old(store).model()
                }),
                // On a storage failure the store is wiped; only a failure
                // of the wipe itself can leave counters behind.
                Err(e) => e is Store && (final(store).model() == StoreModel::empty() || final(store).model() == old(store).model() || final(store).model() == (StoreModel {
                    pre_keys_offset_id: ids.0,
                    ..old(store).model()
                })),
            },
            Err(f) => match r {
                Ok(_) => false,
                Err(e) => (e == Error::Service(f) && final(store).model() == StoreModel::empty())
                    || (e is Store && final(store).model() == old(store).model()),
            },
        },
{
    match pre_keys {
        Ok((offset, next_signed)) => match commit_pre_key_counters(store, offset, next_signed) {
            Ok(_) => Ok(()),
            Err(e) => {
                let cleared = store.clear_registration();
                match cleared {
                    Ok(_) => Err(e),
                    Err(se) => Err(Error::Store(se)),
                }
            },
        },
        Err(f) => {
            match store.clear_registration() {
                Ok(_) => Err(Error::Service(f)),
                Err(se) => Err(Error::Store(se)),
            }
        },
    }
}

/// The state a linking flow holds while the provisioning channel runs.
pub struct LinkSession {
    pub signal_servers: SignalServers,
    pub device_name: String,
    pub password: String,
    pub signaling_key: Vec<u8>,
}

/// Begins linking as a secondary device: clears the store — the moment
/// the process starts, old credentials are invalid — and generates the
/// password and signaling key the provisioning channel is opened with.
pub fn begin_link<C: Store>(store: &mut C, signal_servers: SignalServers, device_name: String) -> (r:
    Result<LinkSession, Error>)
    ensures
        match r {
            Ok(s) => {
                &&& s.signal_servers == signal_servers
                &&& s.device_name@ == device_name@
                &&& s.password@.len() == PASSWORD_LEN
                &&& forall|i: int|
                    0 <= i < s.password@.len() ==> is_ascii_alphanumeric_char(
                        #[trigger] s.password@[i],
                    )
                &&& s.signaling_key@.len() == SIGNALING_KEY_LEN
                &&& final(store).model() == StoreModel::empty()
            },
            Err(e) => final(store).model() == old(store).model() && e is Store,
        },
{
    match store.clear_registration() {
        Ok(_) => {},
        Err(e) => {
            return Err(Error::Store(e));
        },
    }
    let password = generate_password();
    let signaling_key = random_bytes(SIGNALING_KEY_LEN);
    Ok(LinkSession { signal_servers, device_name, password, signaling_key })
}

/// What the provisioning channel produced, in order: first the URL to
/// show to the user, then the new-device credentials.
pub enum ProvisioningOutcome {
    /// The channel closed before emitting the URL.
    NoUrl,
    /// The URL was emitted but could not be delivered to the caller.
    UrlUndeliverable,
    /// The URL was delivered, but the channel closed without credentials.
    UrlOnly,
    /// The URL was delivered and the credentials arrived.
    Complete(NewDeviceCredentials),
}

/// Finishes linking with what the provisioning channel produced: a
/// missing or undeliverable URL is a link failure, a URL without
/// credentials means no provisioning message was received, and complete
/// credentials are assembled into the Registered record and persisted.
pub fn complete_link<C: Store>(
    store: &mut C,
    session: LinkSession,
    provisioning: ProvisioningOutcome,
) -> (r: Result<Registered, Error>)
    requires
        provisioning matches ProvisioningOutcome::Complete(c) ==> c.profile_key@.len()
            == PROFILE_KEY_LEN,
    ensures
        match provisioning {
            ProvisioningOutcome::NoUrl | ProvisioningOutcome::UrlUndeliverable => r == Err::<
                Registered,
                Error,
            >(Error::LinkError) && final(store).model() == old(store).model(),
            ProvisioningOutcome::UrlOnly => r == Err::<Registered, Error>(
                Error::NoProvisioningMessageReceived,
            ) && final(store).model() == old(store).model(),
            ProvisioningOutcome::Complete(creds) => match r {
                Ok(reg) => {
                    &&& reg@.signal_servers == session.signal_servers
                    &&& reg@.device_name == Some(session.device_name@)
                    &&& reg@.phone_number == creds@.phone_number
                    &&& reg@.uuid == creds.uuid
                    &&& reg@.password == session.password@
                    &&& reg@.signaling_key == session.signaling_key@
                    &&& reg@.device_id == Some(creds.device_id)
                    &&& reg@.registration_id == creds.registration_id
                    &&& reg@.private_key == creds@.private_key
                    &&& reg@.public_key == creds@.public_key
                    &&& reg@.profile_key == creds@.profile_key
                    &&& final(store).model() == (StoreModel {
                        state: Some(reg@),
                        ..old(store).model()
                    })
                },
                Err(e) => final(store).model() == old(store).model() && e is Store,
            },
        },
{
    let creds = match provisioning {
        ProvisioningOutcome::NoUrl => {
            return Err(Error::LinkError);
        },
        ProvisioningOutcome::UrlUndeliverable => {
            return Err(Error::LinkError);
        },
        ProvisioningOutcome::UrlOnly => {
            return Err(Error::NoProvisioningMessageReceived);
        },
        ProvisioningOutcome::Complete(c) => c,
    };
    let record = Registered {
        signal_servers: session.signal_servers,
        device_name: Some(session.device_name),
        phone_number: creds.phone_number,
        uuid: creds.uuid,
        password: session.password,
        signaling_key: session.signaling_key,
        device_id: Some(creds.device_id),
        registration_id: creds.registration_id,
        private_key: creds.private_key,
        public_key: creds.public_key,
        profile_key: creds.profile_key,
    };
    match store.save_state(&record) {
        Ok(_) => Ok(record),
        Err(e) => Err(Error::Store(e)),
    }
}

/// Concludes a linking flow with the outcomes of the three steps that
/// follow it. Failure of the pre-key registration or of the
/// account-attribute synchronization wipes the store and surfaces the
/// failure — the credentials are unusable without them. Failure of the
/// contacts synchronization is tolerated: the account stays registered.
pub fn finish_linking<C: Store>(
    store: &mut C,
    pre_keys: Result<(u32, u32), ServiceFailure>,
    attributes: Result<(), ServiceFailure>,
    contacts_sync: Result<(), ServiceFailure>,
) -> (r: Result<(), Error>)
    ensures
        r is Ok ==> pre_keys is Ok && attributes is Ok,
        pre_keys matches Ok(ids) ==> attributes is Ok ==> match r {
            Ok(_) => final(store).model() == (StoreModel {
                pre_keys_offset_id: ids.0,
                next_signed_pre_key_id: ids.1,
                ..old(store).model()
            }),
            // A storage failure while committing the counters wipes the
            // store too; only a failure of the wipe itself can leave
            // counters behind.
            Err(e) => e is Store && (final(store).model() == StoreModel::empty() || final(store).model() == old(store).model() || final(store).model() == (StoreModel {
                pre_keys_offset_id: ids.0,
                ..old(store).model()
            })),
        },
        pre_keys matches Err(f) ==> (r matches Err(e) && ((e == Error::Service(f) && final(store).model() == StoreModel::empty()) || e is Store)),
        attributes matches Err(f) ==> pre_keys is Ok ==> (r matches Err(e) && ((e
            == Error::Service(f) && final(store).model() == StoreModel::empty()) || e is Store)),
{
    let fatal: ServiceFailure = match (&pre_keys, &attributes) {
        (Err(f), _) => f.duplicate(),
        (_, Err(f)) => f.duplicate(),
        (Ok(ids), Ok(_)) => {
            match commit_pre_key_counters(store, ids.0, ids.1) {
                Ok(_) => {},
                Err(e) => {
                    // No possible recovery: the credentials are unusable
                    // without their pre-key counters.
                    match store.clear_registration() {
                        Ok(_) => {
                            return Err(e);
                        },
                        Err(se) => {
                            return Err(Error::Store(se));
                        },
                    }
                },
            }
            match contacts_sync {
                Ok(_) | Err(_) => {
                    return Ok(());
                },
            }
        },
    };
    match store.clear_registration() {
        Ok(_) => Err(Error::Service(fatal)),
        Err(se) => Err(Error::Store(se)),
    }
}

/// Loads the single persisted Registered record; fails with the
/// not-yet-registered error exactly when none is persisted.
pub fn load_registered_state<C: Store>(store: &C) -> (r: Result<Registered, Error>)
    ensures
        match r {
            Ok(reg) => store.model().state == Some(reg@),
            Err(e) => {
                &&& (e is NotYetRegisteredError || e is Store)
                &&& e is NotYetRegisteredError ==> store.model().state is None
            },
        },
        store.model().state is None ==> r is Err,
{
    match store.load_state() {
        Ok(Some(reg)) => Ok(reg),
        Ok(None) => Err(Error::NotYetRegisteredError),
        Err(e) => Err(Error::Store(e)),
    }
}

/// Law: the state record round-trips. Saving a Registered record puts
/// exactly its value in the store's model, whatever else the store holds,
/// so a load after a save returns a record equal in every field; the save
/// and load contracts carry this to the executable operations.
pub proof fn lemma_state_round_trip(m: StoreModel, reg: crate::accounts::RegisteredView)
    ensures
        (StoreModel { state: Some(reg), ..m }).state == Some(reg),
        (StoreModel { state: Some(reg), ..m }).state matches Some(loaded) && loaded == reg,
{
}

/// The synchronization message that asks the primary device to send the
/// full contact list.
pub fn build_contacts_sync_request() -> (r: SyncMessage)
    ensures
        r@.sent is None,
        !r@.contacts,
        !r@.call_event,
        r@.request == Some(SyncRequestKind::Contacts),
{
    SyncMessage { sent: None, contacts: false, call_event: false, request: Some(
        SyncRequestKind::Contacts,
    ) }
}

/// Replaces the stored contacts with a freshly synchronized list.
pub fn apply_contacts_sync<C: Store>(store: &mut C, contacts: Vec<Contact>) -> (r: Result<
    (),
    Error,
>)
    ensures
        match r {
            Ok(_) => final(store).model() == (StoreModel {
                contacts: contacts_put_all(Map::empty(), contacts.deep_view()),
                ..old(store).model()
            }),
            Err(e) => e is Store && (final(store).model() == old(store).model() || final(store).model() == (StoreModel { contacts: Map::empty(), ..old(store).model() })),
        },
{
    match store.clear_contacts() {
        Ok(_) => {},
        Err(e) => {
            return Err(Error::Store(e));
        },
    }
    match store.save_contacts(contacts) {
        Ok(_) => Ok(()),
        Err(e) => Err(Error::Store(e)),
    }
}

/// The orchestration handle of a registered account: the store, the
/// durable state, and the two long-lived socket slots that ingestion
/// installs once and every send reuses.
pub struct Manager<C> {
    config_store: C,
    state: Registered,
    identified_socket: bool,
    unidentified_socket: bool,
}

impl<C: Store> Manager<C> {
    /// The mathematical state of the underlying store.
    pub closed spec fn store_model(&self) -> StoreModel {
        self.config_store.model()
    }

    /// The durable account state this manager operates for.
    pub closed spec fn registered(&self) -> RegisteredView {
        self.state@
    }

    /// Whether the two sockets are installed, so that sends may proceed.
    pub closed spec fn pipe_started(&self) -> bool {
        self.identified_socket && self.unidentified_socket
    }

    /// Loads a previously registered account from the store.
    pub fn load_registered(config_store: C) -> (r: Result<Manager<C>, Error>)
        ensures
            match r {
                Ok(m) => {
                    &&& config_store.model().state == Some(m.registered())
                    &&& m.store_model() == config_store.model()
                    &&& !m.pipe_started()
                },
                Err(e) => {
                    &&& (e is NotYetRegisteredError || e is Store)
                    &&& e is NotYetRegisteredError ==> config_store.model().state is None
                },
            },
            config_store.model().state is None ==> r is Err,
    {
        let state = match load_registered_state(&config_store) {
            Ok(reg) => reg,
            Err(e) => {
                return Err(e);
            },
        };
        Ok(Manager { config_store, state, identified_socket: false, unidentified_socket: false })
    }

    /// Wraps a just-assembled Registered state, as the confirmation and
    /// linking flows leave it behind.
    pub fn from_registered(config_store: C, state: Registered) -> (m: Manager<C>)
        ensures
            m.registered() == state@,
            m.store_model() == config_store.model(),
            !m.pipe_started(),
    {
        Manager { config_store, state, identified_socket: false, unidentified_socket: false }
    }

    /// A handle on the registered state.
    pub fn state(&self) -> (r: &Registered)
        ensures
            r@ == self.registered(),
    {
        &self.state
    }

    /// The account identifier.
    pub fn uuid(&self) -> (r: UserId)
        ensures
            r == self.registered().uuid,
    {
        self.state.uuid
    }

    /// Records that ingestion has established the identified and
    /// unidentified sockets; sends are possible from here on.
    pub fn start_message_pipe(&mut self)
        ensures
            final(self).pipe_started(),
            final(self).store_model() == old(self).store_model(),
            final(self).registered() == old(self).registered(),
    {
        self.identified_socket = true;
        self.unidentified_socket = true;
    }

    /// Whether a send may proceed.
    pub fn sender_ready(&self) -> (r: bool)
        ensures
            r == self.pipe_started(),
    {
        self.identified_socket && self.unidentified_socket
    }

    /// Builds the local copy of an outgoing message, stamped with this
    /// account as the sender; fails when the message pipe has not been
    /// started, rather than silently blocking.
    pub fn compose_outgoing(&self, body: ContentBody, timestamp: u64) -> (r: Result<Content, Error>)
        ensures
            self.pipe_started() ==> (r matches Ok(c) && c@.metadata == (Metadata {
                sender: Some(self.registered().uuid),
                sender_device: self.registered().spec_device_id(),
                timestamp,
                needs_receipt: false,
                unidentified_sender: false,
            }) && c@.body == body@),
            !self.pipe_started() ==> r == Err::<Content, Error>(Error::MessagePipeNotStarted),
    {
        if !(self.identified_socket && self.unidentified_socket) {
            return Err(Error::MessagePipeNotStarted);
        }
        let metadata = Metadata {
            sender: Some(self.state.uuid),
            sender_device: self.state.device_id(),
            timestamp,
            needs_receipt: false,
            unidentified_sender: false,
        };
        Ok(Content { metadata, body })
    }

    /// Persists the local copy of a message sent to a contact.
    pub fn persist_sent_message(&mut self, recipient: UserId, content: Content) -> (r: Result<
        (),
        Error,
    >)
        ensures
            final(self).registered() == old(self).registered(),
            final(self).pipe_started() == old(self).pipe_started(),
            match r {
                Ok(_) => final(self).store_model() == (StoreModel {
                    messages: spec_save_policy(
                        old(self).store_model().messages,
                        Thread::Contact(recipient),
                        content@,
                    ),
                    ..old(self).store_model()
                }),
                Err(e) => e is Store && final(self).store_model() == old(self).store_model(),
            },
    {
        save_message_with_thread(&mut self.config_store, content, Thread::Contact(recipient))
    }

    /// Persists the local copy of a message sent to a group, under the
    /// thread its own content resolves to.
    pub fn persist_group_message(&mut self, content: Content) -> (r: Result<(), Error>)
        ensures
            final(self).registered() == old(self).registered(),
            final(self).pipe_started() == old(self).pipe_started(),
            match resolve_thread(content@) {
                Some(thread) => match r {
                    Ok(_) => final(self).store_model() == (StoreModel {
                        messages: spec_save_policy(
                            old(self).store_model().messages,
                            thread,
                            content@,
                        ),
                        ..old(self).store_model()
                    }),
                    Err(e) => e is Store && final(self).store_model() == old(self).store_model(),
                },
                None => r == Err::<(), Error>(Error::ContentMissingUuid) && final(self).store_model() == old(self).store_model(),
            },
    {
        let thread = match Thread::try_from(&content) {
            Ok(t) => t,
            Err(e) => {
                return Err(e);
            },
        };
        save_message_with_thread(&mut self.config_store, content, thread)
    }

    /// The data message that asks the recipient to reset the session.
    pub fn build_session_reset() -> (r: DataMessage)
        ensures
            r@.flags == Some(END_SESSION_FLAG),
            r@.body is None,
            r@.group_v2 is None,
            r@.delete is None,
            r@.profile_key is None,
    {
        DataMessage {
            body: None,
            group_v2: None,
            delete: None,
            profile_key: None,
            flags: Some(END_SESSION_FLAG),
        }
    }

    /// One step of the ingestion pipeline, run against this account's
    /// store; the decrypted outcome and any prefetched group snapshot come
    /// from the caller driving the envelope stream.
    pub fn ingest(
        &mut self,
        internal_events: bool,
        outcome: DecryptOutcome,
        fetched_group: Option<Group>,
    ) -> (r: IngestReport)
        ensures
            final(self).registered() == old(self).registered(),
            final(self).pipe_started() == old(self).pipe_started(),
            match outcome {
                DecryptOutcome::Empty | DecryptOutcome::Failed => r.action is Continue && final(self).store_model() == old(self).store_model(),
                DecryptOutcome::Content(c) => {
                    if c@.is_contacts_sync() {
                        &&& final(self).store_model() == old(self).store_model()
                        &&& internal_events ==> (r.action matches IngestAction::EmitAndStop(e)
                            && e@ == c@)
                        &&& !internal_events ==> r.action is Stop
                    } else {
                        match resolve_thread(c@) {
                            None => r.action is Continue && final(self).store_model() == old(self).store_model(),
                            Some(thread) => {
                                &&& (r.action matches IngestAction::Emit(e) && e@ == c@)
                                &&& final(self).store_model() == spec_ingest_effect(
                                    old(self).store_model(),
                                    thread,
                                    c@,
                                    match fetched_group {
                                        Some(g) => Some(g@),
                                        None => None,
                                    },
                                    r.group_saved,
                                    r.metadata_saved,
                                    r.message_saved,
                                )
                            },
                        }
                    }
                },
            },
    {
        ingest_decrypted(&mut self.config_store, internal_events, outcome, fetched_group)
    }
}

/// The recipients of a group send: the group's members in order, with
/// this account's own identity left out.
pub open spec fn spec_recipients(members: Seq<UserId>, me: UserId) -> Seq<UserId>
    decreases members.len(),
{
    if members.len() == 0 {
        Seq::empty()
    } else {
        let prefix = spec_recipients(members.drop_last(), me);
        if members.last() == me {
            prefix
        } else {
            prefix.push(members.last())
        }
    }
}

impl<C: Store> Manager<C> {
    /// The member list a group send goes to: every member of the cached
    /// group except this account; fails when the group is not cached.
    pub fn group_send_recipients(&self, master_key: GroupKey) -> (r: Result<Vec<UserId>, Error>)
        ensures
            match r {
                Ok(v) => self.store_model().groups.contains_key(master_key) && v@
                    == spec_recipients(
                    self.store_model().groups[master_key].members,
                    self.registered().uuid,
                ),
                Err(e) => {
                    &&& (e is UnknownGroup || e is Store)
                    &&& e is UnknownGroup ==> !self.store_model().groups.contains_key(master_key)
                },
            },
    {
        let group = match self.config_store.group(master_key) {
            Ok(Some(g)) => g,
            Ok(None) => {
                return Err(Error::UnknownGroup);
            },
            Err(e) => {
                return Err(Error::Store(e));
            },
        };
        let mut out: Vec<UserId> = Vec::new();
        let mut i: usize = 0;
        while i < group.members.len()
            invariant
                i <= group.members@.len(),
                out@ == spec_recipients(group.members@.take(i as int), self.state@.uuid),
            decreases group.members@.len() - i,
        {
            proof {
                assert(group.members@.take(i + 1).drop_last() =~= group.members@.take(i as int));
                assert(group.members@.take(i + 1).last() == group.members@[i as int]);
            }
            if !(group.members[i] == self.state.uuid) {
                out.push(group.members[i]);
            }
            i = i + 1;
        }
        proof {
            assert(group.members@.take(group.members@.len() as int) =~= group.members@);
        }
        Ok(out)
    }

    /// The contacts whose display name is still empty and whose learned
    /// profile key has the full 32 bytes: exactly those a profile fetch
    /// can name.
    pub fn contacts_needing_profile_update(&self) -> (r: Result<Vec<(UserId, Vec<u8>)>, Error>)
        ensures
            match r {
                Ok(v) => {
                    &&& forall|i: int|
                        #![auto]
                        0 <= i < v@.len() ==> {
                            &&& self.store_model().contacts.contains_key(v@[i].0)
                            &&& self.store_model().contacts[v@[i].0].name.len() == 0
                            &&& v@[i].1@ == self.store_model().contacts[v@[i].0].profile_key
                            &&& v@[i].1@.len() == PROFILE_KEY_LEN
                        }
                    &&& forall|id: UserId|
                        #![auto]
                        self.store_model().contacts.contains_key(id) && self.store_model(
                        ).contacts[id].name.len() == 0 && self.store_model(
                        ).contacts[id].profile_key.len() == PROFILE_KEY_LEN ==> exists|i: int|
                            0 <= i < v@.len() && v@[i].0 == id
                },
                Err(e) => e is Store,
            },
    {
        let all = match self.config_store.contacts() {
            Ok(v) => v,
            Err(e) => {
                return Err(Error::Store(e));
            },
        };
        let mut out: Vec<(UserId, Vec<u8>)> = Vec::new();
        let mut i: usize = 0;
        while i < all.len()
            invariant
                i <= all@.len(),
                forall|j: int|
                    #![auto]
                    0 <= j < all@.len() ==> self.store_model().contacts.contains_key(
                        all.deep_view()[j].address,
                    ) && all.deep_view()[j] == self.store_model().contacts[all.deep_view()[j].address],
                forall|k: int|
                    #![auto]
                    0 <= k < out@.len() ==> {
                        &&& self.store_model().contacts.contains_key(out@[k].0)
                        &&& self.store_model().contacts[out@[k].0].name.len() == 0
                        &&& out@[k].1@ == self.store_model().contacts[out@[k].0].profile_key
                        &&& out@[k].1@.len() == PROFILE_KEY_LEN
                    },
                forall|j: int|
                    #![trigger all.deep_view()[j]]
                    0 <= j < i && all.deep_view()[j].name.len() == 0
                        && all.deep_view()[j].profile_key.len() == PROFILE_KEY_LEN ==> exists|
                        k: int,
                    | 0 <= k < out@.len() && (#[trigger] out@[k]).0 == all.deep_view()[j].address,
            decreases all@.len() - i,
        {
            let ghost out0 = out@;
            let keep = all[i].name.as_str().is_empty() && all[i].profile_key.len()
                == PROFILE_KEY_LEN;
            if keep {
                proof {
                    assert(all.deep_view()[i as int] == all@[i as int]@);
                }
                out.push((all[i].address, copy_bytes(&all[i].profile_key)));
            }
            proof {
                let ii = i as int;
                assert(all.deep_view()[ii] == all@[ii]@);
                assert forall|j: int|
                    #![trigger all.deep_view()[j]]
                    0 <= j < ii + 1 && all.deep_view()[j].name.len() == 0
                        && all.deep_view()[j].profile_key.len() == PROFILE_KEY_LEN implies exists|
                    k: int,
                | 0 <= k < out@.len() && (#[trigger] out@[k]).0 == all.deep_view()[j].address by {
                    if j == ii {
                        assert(keep);
                        assert(out@[out@.len() - 1].0 == all.deep_view()[j].address);
                    } else {
                        let k = choose|k: int|
                            0 <= k < out0.len() && (#[trigger] out0[k]).0 == all.deep_view()[
                                j
                            ].address;
                        assert(out@[k].0 == all.deep_view()[j].address);
                    }
                }
            }
            i = i + 1;
        }
        proof {
            assert forall|id: UserId|
                self.store_model().contacts.contains_key(id) && self.store_model(
                ).contacts[id].name.len() == 0 && self.store_model(
                ).contacts[id].profile_key.len() == PROFILE_KEY_LEN implies exists|k: int|
                0 <= k < out@.len() && (#[trigger] out@[k]).0 == id by {
                let j = choose|j: int|
                    0 <= j < all.deep_view().len() && (#[trigger] all.deep_view()[j]).address
                        == id;
                assert(all.deep_view()[j] == self.store_model().contacts[id]);
                let k = choose|k: int|
                    0 <= k < out@.len() && (#[trigger] out@[k]).0 == all.deep_view()[j].address;
                assert(out@[k].0 == id);
            }
        }
        Ok(out)
    }

    /// Applies a fetched profile name to a contact whose name was empty:
    /// the profile's name when it has one, the empty name when the contact
    /// has a phone number, nothing otherwise. Reports whether the contact
    /// was updated.
    pub fn apply_profile_name(&mut self, id: UserId, profile_name: Option<String>) -> (r: Result<
        bool,
        Error,
    >)
        ensures
            final(self).registered() == old(self).registered(),
            final(self).pipe_started() == old(self).pipe_started(),
            match r {
                Ok(updated) => {
                    if updated {
                        &&& old(self).store_model().contacts.contains_key(id)
                        &&& final(self).store_model() == (StoreModel {
                            contacts: old(self).store_model().contacts.insert(
                                id,
                                ContactView {
                                    address: id,
                                    name: match profile_name {
                                        Some(n) => n@,
                                        None => Seq::empty(),
                                    },
                                    ..old(self).store_model().contacts[id]
                                },
                            ),
                            ..old(self).store_model()
                        })
                    } else {
                        &&& final(self).store_model() == old(self).store_model()
                        &&& (!old(self).store_model().contacts.contains_key(id) || (
                        profile_name is None && old(self).store_model().contacts[id].phone_number is None))
                    }
                },
                Err(e) => e is Store && final(self).store_model() == old(self).store_model(),
            },
    {
        let contact = match self.config_store.contact_by_id(id) {
            Ok(Some(c)) => c,
            Ok(None) => {
                return Ok(false);
            },
            Err(e) => {
                return Err(Error::Store(e));
            },
        };
        let name: String = match profile_name {
            Some(n) => n,
            None => {
                match &contact.phone_number {
                    Some(_) => String::new(),
                    None => {
                        return Ok(false);
                    },
                }
            },
        };
        let updated = Contact {
            address: id,
            name,
            phone_number: contact.phone_number,
            profile_key: contact.profile_key,
            blocked: contact.blocked,
            archived: contact.archived,
            avatar: contact.avatar,
        };
        match self.config_store.save_contact(updated) {
            Ok(_) => Ok(true),
            Err(e) => Err(Error::Store(e)),
        }
    }

    /// Makes sure the thread's other party exists as a contact: a contact
    /// thread whose address is unknown gets a placeholder contact with the
    /// given profile key material; a group thread is left alone.
    pub fn save_thread(&mut self, thread: Thread, profile_key: Option<Vec<u8>>) -> (r: Result<
        (),
        Error,
    >)
        ensures
            final(self).registered() == old(self).registered(),
            final(self).pipe_started() == old(self).pipe_started(),
            match r {
                Ok(_) => match thread {
                    Thread::Group(_) => final(self).store_model() == old(self).store_model(),
                    Thread::Contact(uid) => {
                        if old(self).store_model().contacts.contains_key(uid) {
                            final(self).store_model() == old(self).store_model()
                        } else {
                            final(self).store_model() == (StoreModel {
                                contacts: old(self).store_model().contacts.insert(
                                    uid,
                                    ContactView {
                                        address: uid,
                                        name: Seq::empty(),
                                        phone_number: None,
                                        profile_key: match profile_key {
                                            Some(k) => k@,
                                            None => Seq::empty(),
                                        },
                                        blocked: false,
                                        archived: false,
                                        avatar: None,
                                    },
                                ),
                                ..old(self).store_model()
                            })
                        }
                    },
                },
                Err(e) => e is Store && final(self).store_model() == old(self).store_model(),
            },
    {
        let uid = match thread {
            Thread::Group(_) => {
                return Ok(());
            },
            Thread::Contact(uid) => uid,
        };
        match self.config_store.contact_by_id(uid) {
            Ok(Some(_)) => Ok(()),
            Ok(None) => {
                let key: Vec<u8> = match profile_key {
                    Some(k) => k,
                    None => Vec::new(),
                };
                let placeholder = Contact::placeholder(uid, key);
                match self.config_store.save_contact(placeholder) {
                    Ok(_) => Ok(()),
                    Err(e) => Err(Error::Store(e)),
                }
            },
            Err(e) => Err(Error::Store(e)),
        }
    }
}

impl<C: Store> Manager<C> {
    /// One contact by its address.
    pub fn contact_by_id(&self, id: UserId) -> (r: Result<Option<Contact>, Error>)
        ensures
            match r {
                Ok(Some(c)) => self.store_model().contacts.contains_key(id) && c@
                    == self.store_model().contacts[id],
                Ok(None) => !self.store_model().contacts.contains_key(id),
                Err(e) => e is Store,
            },
    {
        match self.config_store.contact_by_id(id) {
            Ok(v) => Ok(v),
            Err(e) => Err(Error::Store(e)),
        }
    }

    /// All stored contacts, one per address.
    pub fn contacts(&self) -> (r: Result<Vec<Contact>, Error>)
        ensures
            match r {
                Ok(v) => {
                    &&& forall|i: int|
                        #![auto]
                        0 <= i < v.deep_view().len() ==> self.store_model().contacts.contains_key(
                            v.deep_view()[i].address,
                        ) && v.deep_view()[i] == self.store_model().contacts[v.deep_view()[
                            i
                        ].address]
                    &&& forall|id: UserId|
                        #![auto]
                        self.store_model().contacts.contains_key(id) ==> exists|i: int|
                            0 <= i < v.deep_view().len() && v.deep_view()[i].address == id
                    &&& forall|i: int, j: int|
                        #![auto]
                        0 <= i < j < v.deep_view().len() ==> v.deep_view()[i].address
                            != v.deep_view()[j].address
                },
                Err(e) => e is Store,
            },
    {
        match self.config_store.contacts() {
            Ok(v) => Ok(v),
            Err(e) => Err(Error::Store(e)),
        }
    }

    /// Upserts a contact.
    pub fn save_contact(&mut self, contact: Contact) -> (r: Result<(), Error>)
        ensures
            final(self).registered() == old(self).registered(),
            final(self).pipe_started() == old(self).pipe_started(),
            match r {
                Ok(_) => final(self).store_model() == (StoreModel {
                    contacts: old(self).store_model().contacts.insert(contact.address, contact@),
                    ..old(self).store_model()
                }),
                Err(e) => e is Store && final(self).store_model() == old(self).store_model(),
            },
    {
        match self.config_store.save_contact(contact) {
            Ok(_) => Ok(()),
            Err(e) => Err(Error::Store(e)),
        }
    }

    /// One cached group by its master key.
    pub fn group(&self, master_key: GroupKey) -> (r: Result<Option<Group>, Error>)
        ensures
            match r {
                Ok(Some(g)) => self.store_model().groups.contains_key(master_key) && g@
                    == self.store_model().groups[master_key],
                Ok(None) => !self.store_model().groups.contains_key(master_key),
                Err(e) => e is Store,
            },
    {
        match self.config_store.group(master_key) {
            Ok(v) => Ok(v),
            Err(e) => Err(Error::Store(e)),
        }
    }

    /// All cached groups with their master keys, one per key.
    pub fn groups(&self) -> (r: Result<Vec<(GroupKey, Group)>, Error>)
        ensures
            match r {
                Ok(v) => {
                    &&& forall|i: int|
                        #![auto]
                        0 <= i < v@.len() ==> self.store_model().groups.contains_key(v@[i].0)
                            && v@[i].1@ == self.store_model().groups[v@[i].0]
                    &&& v@.map_values(|p: (GroupKey, Group)| p.0).to_set()
                        == self.store_model().groups.dom()
                    &&& forall|i: int, j: int|
                        #![auto]
                        0 <= i < j < v@.len() ==> v@[i].0 != v@[j].0
                },
                Err(e) => e is Store,
            },
    {
        match self.config_store.groups() {
            Ok(v) => Ok(v),
            Err(e) => Err(Error::Store(e)),
        }
    }

    /// Writes a group snapshot under its master key.
    pub fn save_group(&mut self, master_key: GroupKey, group: Group) -> (r: Result<(), Error>)
        ensures
            final(self).registered() == old(self).registered(),
            final(self).pipe_started() == old(self).pipe_started(),
            match r {
                Ok(_) => final(self).store_model() == (StoreModel {
                    groups: old(self).store_model().groups.insert(master_key, group@),
                    ..old(self).store_model()
                }),
                Err(e) => e is Store && final(self).store_model() == old(self).store_model(),
            },
    {
        match self.config_store.save_group(master_key, group) {
            Ok(_) => Ok(()),
            Err(e) => Err(Error::Store(e)),
        }
    }

    /// One message of a thread by its server timestamp.
    pub fn message(&self, thread: Thread, timestamp: u64) -> (r: Result<Option<Content>, Error>)
        ensures
            match r {
                Ok(Some(c)) => self.store_model().messages.contains_key(
                    crate::types::MessageKey { thread, timestamp },
                ) && c@ == self.store_model().messages[crate::types::MessageKey {
                    thread,
                    timestamp,
                }],
                Ok(None) => !self.store_model().messages.contains_key(
                    crate::types::MessageKey { thread, timestamp },
                ),
                Err(e) => e is Store,
            },
    {
        match self.config_store.message(thread, timestamp) {
            Ok(v) => Ok(v),
            Err(e) => Err(Error::Store(e)),
        }
    }

    /// The messages of a thread from an optional point onward, ascending.
    pub fn messages(&self, thread: Thread, from: Option<u64>) -> (r: Result<Vec<Content>, Error>)
        ensures
            match r {
                Ok(v) => {
                    &&& forall|i: int|
                        #![auto]
                        0 <= i < v.deep_view().len() ==> {
                            &&& crate::store::in_range(
                                from,
                                v.deep_view()[i].metadata.timestamp,
                            )
                            &&& self.store_model().messages.contains_key(
                                crate::types::MessageKey {
                                    thread,
                                    timestamp: v.deep_view()[i].metadata.timestamp,
                                },
                            )
                            &&& v.deep_view()[i] == self.store_model().messages[
                                crate::types::MessageKey {
                                    thread,
                                    timestamp: v.deep_view()[i].metadata.timestamp,
                                }]
                        }
                    &&& forall|ts: u64|
                        #![auto]
                        self.store_model().messages.contains_key(
                            crate::types::MessageKey { thread, timestamp: ts },
                        ) && crate::store::in_range(from, ts) ==> exists|i: int|
                            0 <= i < v.deep_view().len() && v.deep_view()[i].metadata.timestamp
                                == ts
                    &&& forall|i: int, j: int|
                        #![auto]
                        0 <= i < j < v.deep_view().len() ==> v.deep_view()[i].metadata.timestamp
                            < v.deep_view()[j].metadata.timestamp
                },
                Err(e) => e is Store,
            },
    {
        match self.config_store.messages(thread, from) {
            Ok(v) => Ok(v),
            Err(e) => Err(Error::Store(e)),
        }
    }

    /// The messages of a thread from an optional point onward, ascending,
    /// marking the whole thread as read on the way out.
    pub fn get_messages(&mut self, thread: Thread, from: Option<u64>) -> (r: Result<
        Vec<Content>,
        Error,
    >)
        ensures
            final(self).registered() == old(self).registered(),
            final(self).pipe_started() == old(self).pipe_started(),
            match r {
                Ok(v) => {
                    &&& forall|i: int|
                        #![auto]
                        0 <= i < v.deep_view().len() ==> old(
                            self,
                        ).store_model().messages.contains_key(
                            crate::types::MessageKey {
                                thread,
                                timestamp: v.deep_view()[i].metadata.timestamp,
                            },
                        ) && v.deep_view()[i] == old(self).store_model().messages[
                        crate::types::MessageKey {
                            thread,
                            timestamp: v.deep_view()[i].metadata.timestamp,
                        }]
                    &&& forall|ts: u64|
                        #![auto]
                        old(self).store_model().messages.contains_key(
                            crate::types::MessageKey { thread, timestamp: ts },
                        ) && crate::store::in_range(from, ts) ==> exists|i: int|
                            0 <= i < v.deep_view().len() && v.deep_view()[i].metadata.timestamp
                                == ts
                    &&& forall|i: int, j: int|
                        #![auto]
                        0 <= i < j < v.deep_view().len() ==> v.deep_view()[i].metadata.timestamp
                            < v.deep_view()[j].metadata.timestamp
                    &&& final(self).store_model() == (StoreModel {
                        unread: old(self).store_model().unread.insert(thread, Set::empty()),
                        ..old(self).store_model()
                    })
                },
                Err(e) => e is Store && final(self).store_model() == old(self).store_model(),
            },
    {
        let out = match self.config_store.messages(thread, from) {
            Ok(v) => v,
            Err(e) => {
                return Err(Error::Store(e));
            },
        };
        match self.config_store.mark_all_as_read(thread) {
            Ok(_) => Ok(out),
            Err(e) => Err(Error::Store(e)),
        }
    }

    /// The unread timestamps of every thread.
    pub fn get_unread_sessions(&self) -> (r: Result<Vec<(Thread, Vec<u64>)>, Error>)
        ensures
            match r {
                Ok(v) => {
                    &&& forall|i: int|
                        #![auto]
                        0 <= i < v@.len() ==> self.store_model().unread.contains_key(v@[i].0)
                            && v@[i].1@.no_duplicates() && v@[i].1@.to_set()
                            == self.store_model().unread[v@[i].0]
                    &&& v@.map_values(|p: (Thread, Vec<u64>)| p.0).to_set()
                        == self.store_model().unread.dom()
                },
                Err(e) => e is Store,
            },
    {
        match self.config_store.unread_messages_per_thread() {
            Ok(v) => Ok(v),
            Err(e) => Err(Error::Store(e)),
        }
    }

    /// The unread counters, one pair per thread that has any recorded.
    pub fn get_unread_sessions_count(&self) -> (r: Result<Vec<(Thread, usize)>, Error>)
        ensures
            match r {
                Ok(v) => {
                    &&& forall|i: int|
                        #![auto]
                        0 <= i < v@.len() ==> self.store_model().unread.contains_key(v@[i].0)
                            && v@[i].1 == self.store_model().unread[v@[i].0].len()
                    &&& v@.map_values(|p: (Thread, usize)| p.0).to_set()
                        == self.store_model().unread.dom()
                    &&& forall|i: int, j: int|
                        #![auto]
                        0 <= i < j < v@.len() ==> v@[i].0 != v@[j].0
                },
                Err(e) => e is Store,
            },
    {
        let sessions = match self.config_store.unread_messages_per_thread() {
            Ok(v) => v,
            Err(e) => {
                return Err(Error::Store(e));
            },
        };
        let mut out: Vec<(Thread, usize)> = Vec::new();
        let mut i: usize = 0;
        while i < sessions.len()
            invariant
                i <= sessions@.len(),
                out@.len() == i,
                forall|j: int|
                    #![auto]
                    0 <= j < sessions@.len() ==> self.store_model().unread.contains_key(
                        sessions@[j].0,
                    ) && sessions@[j].1@.no_duplicates() && sessions@[j].1@.to_set()
                        == self.store_model().unread[sessions@[j].0],
                forall|k: int| #![auto] 0 <= k < i ==> out@[k].0 == sessions@[k].0,
                forall|k: int|
                    #![auto]
                    0 <= k < out@.len() ==> self.store_model().unread.contains_key(out@[k].0)
                        && out@[k].1 == self.store_model().unread[out@[k].0].len(),
            decreases sessions@.len() - i,
        {
            proof {
                sessions@[i as int].1@.unique_seq_to_set();
            }
            out.push((sessions[i].0, sessions[i].1.len()));
            i = i + 1;
        }
        proof {
            assert(out@.map_values(|p: (Thread, usize)| p.0) =~= sessions@.map_values(
                |p: (Thread, Vec<u64>)| p.0,
            ));
            assert forall|a: int, b: int| 0 <= a < b < out@.len() implies (#[trigger] out@[a]).0
                != (#[trigger] out@[b]).0 by {
                assert(out@[a].0 == sessions@[a].0);
                assert(out@[b].0 == sessions@[b].0);
            }
        }
        Ok(out)
    }

    /// Resets the unread counter of a thread.
    pub fn clear_unread_messages(&mut self, thread: Thread) -> (r: Result<(), Error>)
        ensures
            final(self).registered() == old(self).registered(),
            final(self).pipe_started() == old(self).pipe_started(),
            match r {
                Ok(_) => final(self).store_model() == (StoreModel {
                    unread: old(self).store_model().unread.insert(thread, Set::empty()),
                    ..old(self).store_model()
                }),
                Err(e) => e is Store && final(self).store_model() == old(self).store_model(),
            },
    {
        match self.config_store.mark_all_as_read(thread) {
            Ok(_) => Ok(()),
            Err(e) => Err(Error::Store(e)),
        }
    }

    /// Whether an incoming group context calls for a fetch before the
    /// cache may be overwritten with the given revision.
    pub fn group_fetch_needed(&self, master_key: GroupKey, revision: u32) -> (r: Result<
        bool,
        Error,
    >)
        ensures
            match r {
                Ok(b) => b == crate::pipeline::spec_fetch_needed(
                    self.store_model().groups,
                    master_key,
                    revision,
                ),
                Err(e) => e is Store,
            },
    {
        crate::pipeline::group_fetch_needed(&self.config_store, master_key, revision)
    }

    /// The display title of a thread.
    pub fn get_title_for_thread(&self, thread: Thread) -> (r: Result<String, Error>)
        ensures
            match r {
                Ok(s) => s@ == spec_thread_title(self.store_model(), thread),
                Err(e) => e is Store,
            },
    {
        thread_title(&self.config_store, thread)
    }

    /// The metadata row of a thread.
    pub fn thread_metadata(&self, thread: Thread) -> (r: Result<Option<ThreadMetadata>, Error>)
        ensures
            match r {
                Ok(Some(m)) => self.store_model().metadata.contains_key(thread) && m@
                    == self.store_model().metadata[thread],
                Ok(None) => !self.store_model().metadata.contains_key(thread),
                Err(e) => e is Store,
            },
    {
        match self.config_store.thread_metadata(thread) {
            Ok(v) => Ok(v),
            Err(e) => Err(Error::Store(e)),
        }
    }

    /// All metadata rows, one per thread.
    pub fn thread_metadatas(&self) -> (r: Result<Vec<ThreadMetadata>, Error>)
        ensures
            match r {
                Ok(v) => {
                    &&& forall|i: int|
                        #![auto]
                        0 <= i < v.deep_view().len() ==> self.store_model().metadata.contains_key(
                            v.deep_view()[i].thread,
                        ) && v.deep_view()[i] == self.store_model().metadata[v.deep_view()[
                            i
                        ].thread]
                    &&& forall|t: Thread|
                        #![auto]
                        self.store_model().metadata.contains_key(t) ==> exists|i: int|
                            0 <= i < v.deep_view().len() && v.deep_view()[i].thread == t
                    &&& forall|i: int, j: int|
                        #![auto]
                        0 <= i < j < v.deep_view().len() ==> v.deep_view()[i].thread
                            != v.deep_view()[j].thread
                },
                Err(e) => e is Store,
            },
    {
        match self.config_store.thread_metadatas() {
            Ok(v) => Ok(v),
            Err(e) => Err(Error::Store(e)),
        }
    }

    /// Upserts the metadata row of its thread.
    pub fn save_thread_metadata(&mut self, metadata: ThreadMetadata) -> (r: Result<(), Error>)
        ensures
            final(self).registered() == old(self).registered(),
            final(self).pipe_started() == old(self).pipe_started(),
            match r {
                Ok(_) => final(self).store_model() == (StoreModel {
                    metadata: old(self).store_model().metadata.insert(metadata.thread, metadata@),
                    ..old(self).store_model()
                }),
                Err(e) => e is Store && final(self).store_model() == old(self).store_model(),
            },
    {
        match self.config_store.save_thread_metadata(metadata) {
            Ok(_) => Ok(()),
            Err(e) => Err(Error::Store(e)),
        }
    }
}

/// One conversation row: the thread, its latest message, its unread
/// counter, the contact or group it belongs to, and its display title.
pub struct Session {
    pub thread: Thread,
    pub last_message: Option<Content>,
    pub unread_messages_count: usize,
    pub contact: Option<Contact>,
    pub groupv2: Option<Group>,
    pub title: Option<String>,
}

/// The mathematical value of a `Session`.
pub struct SessionView {
    pub thread: Thread,
    pub last_message: Option<ContentView>,
    pub unread_messages_count: usize,
    pub contact: Option<ContactView>,
    pub groupv2: Option<GroupView>,
    pub title: Option<Seq<char>>,
}

impl View for Session {
    type V = SessionView;

    open spec fn view(&self) -> SessionView {
        SessionView {
            thread: self.thread,
            last_message: match self.last_message {
                Some(ref c) => Some(c.view()),
                None => None,
            },
            unread_messages_count: self.unread_messages_count,
            contact: match self.contact {
                Some(ref c) => Some(c.view()),
                None => None,
            },
            groupv2: match self.groupv2 {
                Some(ref g) => Some(g.view()),
                None => None,
            },
            title: self.title.deep_view(),
        }
    }
}

impl DeepView for Session {
    type V = SessionView;

    open spec fn deep_view(&self) -> SessionView {
        self.view()
    }
}

/// The timestamp a conversation sorts under: its latest message's, or
/// zero when the thread holds no message.
pub open spec fn spec_session_key(s: SessionView) -> u64 {
    match s.last_message {
        Some(c) => c.metadata.timestamp,
        None => 0,
    }
}

/// Whether one conversation row faithfully summarizes its thread against
/// the store: the right contact or group, the exact unread counter, the
/// most recent message, and the resolved title.
pub open spec fn session_ok(m: StoreModel, s: SessionView) -> bool {
    &&& match s.thread {
        Thread::Contact(uid) => m.contacts.contains_key(uid) && s.contact == Some(m.contacts[uid])
            && s.groupv2 is None,
        Thread::Group(key) => m.groups.contains_key(key) && s.groupv2 == Some(m.groups[key])
            && s.contact is None,
    }
    &&& s.unread_messages_count == m.unread_at(s.thread).len()
    &&& match s.last_message {
        Some(c) => m.messages.contains_key(
            crate::types::MessageKey { thread: s.thread, timestamp: c.metadata.timestamp },
        ) && c == m.messages[crate::types::MessageKey {
            thread: s.thread,
            timestamp: c.metadata.timestamp,
        }] && forall|ts: u64|
            #![auto]
            m.messages.contains_key(crate::types::MessageKey { thread: s.thread, timestamp: ts })
                ==> ts <= c.metadata.timestamp,
        None => forall|ts: u64|
            #![auto]
            !m.messages.contains_key(
                crate::types::MessageKey { thread: s.thread, timestamp: ts },
            ),
    }
    &&& s.title == Some(spec_thread_title(m, s.thread))
}

/// The threads that have a conversation row: one per stored contact and
/// one per cached group.
pub open spec fn conversation_threads(m: StoreModel) -> Set<Thread> {
    Set::new(
        |t: Thread|
            match t {
                Thread::Contact(uid) => m.contacts.contains_key(uid),
                Thread::Group(key) => m.groups.contains_key(key),
            },
    )
}

/// The sort key of a conversation row.
fn session_key(s: &Session) -> (r: u64)
    ensures
        r == spec_session_key(s@),
{
    match &s.last_message {
        Some(c) => c.metadata.timestamp,
        None => 0,
    }
}

/// The index of a row with the greatest sort key.
fn max_session_index(v: &Vec<Session>) -> (r: usize)
    requires
        v@.len() > 0,
    ensures
        r < v@.len(),
        forall|j: int|
            0 <= j < v@.len() ==> spec_session_key((#[trigger] v@[j])@) <= spec_session_key(
                v@[r as int]@,
            ),
{
    let mut best: usize = 0;
    let mut i: usize = 1;
    while i < v.len()
        invariant
            best < i <= v@.len(),
            forall|j: int|
                0 <= j < i ==> spec_session_key((#[trigger] v@[j])@) <= spec_session_key(
                    v@[best as int]@,
                ),
        decreases v@.len() - i,
    {
        if session_key(&v[i]) > session_key(&v[best]) {
            best = i;
        }
        i = i + 1;
    }
    best
}

/// Orders conversation rows by descending sort key; the rows themselves
/// are exactly those given, as a multiset.
fn sort_sessions(rows: Vec<Session>) -> (r: Vec<Session>)
    ensures
        r@.to_multiset() == rows@.to_multiset(),
        r@.len() == rows@.len(),
        forall|a: int, b: int|
            0 <= a < b < r@.len() ==> spec_session_key((#[trigger] r@[a])@) >= spec_session_key(
                (#[trigger] r@[b])@,
            ),
{
    broadcast use vstd::seq_lib::group_to_multiset_ensures;

    let mut input = rows;
    let mut out: Vec<Session> = Vec::new();
    while input.len() > 0
        invariant
            out@.to_multiset().add(input@.to_multiset()) == rows@.to_multiset(),
            out@.len() + input@.len() == rows@.len(),
            forall|a: int, b: int|
                0 <= a < b < out@.len() ==> spec_session_key((#[trigger] out@[a])@)
                    >= spec_session_key((#[trigger] out@[b])@),
            forall|a: int, j: int|
                0 <= a < out@.len() && 0 <= j < input@.len() ==> spec_session_key(
                    (#[trigger] out@[a])@,
                ) >= spec_session_key((#[trigger] input@[j])@),
        decreases input@.len(),
    {
        let ghost input0 = input@;
        let ghost out0 = out@;
        let idx = max_session_index(&input);
        let x = input.remove(idx);
        proof {
            broadcast use vstd::multiset::group_multiset_axioms;

            input0.to_multiset_ensures();
            assert(input@ == input0.remove(idx as int));
            assert(input0.remove(idx as int).to_multiset() == input0.to_multiset().remove(
                input0[idx as int],
            ));
        }
        out.push(x);
        proof {
            broadcast use vstd::multiset::group_multiset_axioms;

            out0.to_multiset_ensures();
            input0.to_multiset_ensures();
            assert(out@ == out0.push(x));
            assert(out0.push(x).to_multiset() == out0.to_multiset().insert(x));
            assert(x == input0[idx as int]);
            assert(input0.contains(input0[idx as int]));
            assert(input0.to_multiset().count(x) > 0);
            assert(out@.to_multiset().add(input@.to_multiset()) =~= rows@.to_multiset());
            assert forall|a: int, j: int|
                0 <= a < out@.len() && 0 <= j < input@.len() implies spec_session_key(
                (#[trigger] out@[a])@,
            ) >= spec_session_key((#[trigger] input@[j])@) by {
                let j0: int = if j < idx {
                    j
                } else {
                    j + 1
                };
                assert(input@[j] == input0[j0]);
                if a < out0.len() {
                    assert(out@[a] == out0[a]);
                } else {
                    assert(out@[a] == x);
                    assert(spec_session_key(input0[j0]@) <= spec_session_key(
                        input0[idx as int]@,
                    ));
                }
            }
        }
    }
    proof {
        assert(input@.to_multiset() =~= Multiset::<Session>::empty());
        assert(out@.to_multiset() =~= rows@.to_multiset());
    }
    out
}

/// Appending a group-backed row keeps every invariant of the
/// conversation-building loop.
proof fn lemma_conversation_group_push(
    m: StoreModel,
    contacts_dv: Seq<ContactView>,
    groups_s: Seq<(GroupKey, Group)>,
    rows_b: Seq<Session>,
    s: Session,
    nc: int,
    g: int,
)
    requires
        nc == contacts_dv.len(),
        rows_b.len() == nc + g,
        0 <= g < groups_s.len(),
        forall|a: int| #![auto] 0 <= a < rows_b.len() ==> session_ok(m, rows_b[a]@),
        forall|a: int|
            #![auto]
            0 <= a < nc ==> rows_b[a]@.thread == Thread::Contact(contacts_dv[a].address),
        forall|a: int|
            #![auto]
            nc <= a < rows_b.len() ==> rows_b[a]@.thread == Thread::Group(groups_s[a - nc].0),
        session_ok(m, s@),
        s@.thread == Thread::Group(groups_s[g].0),
    ensures
        forall|a: int| #![auto] 0 <= a < rows_b.push(s).len() ==> session_ok(m, rows_b.push(s)[a]@),
        forall|a: int|
            #![auto]
            0 <= a < nc ==> rows_b.push(s)[a]@.thread == Thread::Contact(contacts_dv[a].address),
        forall|a: int|
            #![auto]
            nc <= a < rows_b.push(s).len() ==> rows_b.push(s)[a]@.thread == Thread::Group(
                groups_s[a - nc].0,
            ),
{
    let rows1 = rows_b.push(s);
    assert forall|a: int| 0 <= a < rows1.len() implies session_ok(
        m,
        (#[trigger] rows1[a])@,
    ) by {
        if a < rows_b.len() {
            assert(rows1[a] == rows_b[a]);
        } else {
            assert(rows1[a] == s);
        }
    }
    assert forall|a: int| 0 <= a < nc implies (#[trigger] rows1[a])@.thread == Thread::Contact(
        contacts_dv[a].address,
    ) by {
        assert(rows1[a] == rows_b[a]);
    }
    assert forall|a: int| nc <= a < rows1.len() implies (#[trigger] rows1[a])@.thread
        == Thread::Group(groups_s[a - nc].0) by {
        if a < rows_b.len() {
            assert(rows1[a] == rows_b[a]);
        } else {
            assert(rows1[a] == s);
            assert(a - nc == g);
        }
    }
}

impl<C: Store> Manager<C> {
    /// Builds one conversation row for a thread already known to be backed
    /// by the given contact or group.
    fn build_session(
        &self,
        thread: Thread,
        contact: Option<Contact>,
        groupv2: Option<Group>,
    ) -> (r: Result<Session, Error>)
        ensures
            match r {
                Ok(s) => {
                    &&& s@.thread == thread
                    &&& s@.contact == (match contact {
                        Some(ref c) => Some(c@),
                        None => None::<ContactView>,
                    })
                    &&& s@.groupv2 == (match groupv2 {
                        Some(ref g) => Some(g@),
                        None => None::<GroupView>,
                    })
                    &&& s@.unread_messages_count == self.store_model().unread_at(thread).len()
                    &&& s@.title == Some(spec_thread_title(self.store_model(), thread))
                    &&& match s@.last_message {
                        Some(c) => self.store_model().messages.contains_key(
                            crate::types::MessageKey { thread, timestamp: c.metadata.timestamp },
                        ) && c == self.store_model().messages[crate::types::MessageKey {
                            thread,
                            timestamp: c.metadata.timestamp,
                        }] && forall|ts: u64|
                            #![auto]
                            self.store_model().messages.contains_key(
                                crate::types::MessageKey { thread, timestamp: ts },
                            ) ==> ts <= c.metadata.timestamp,
                        None => forall|ts: u64|
                            #![auto]
                            !self.store_model().messages.contains_key(
                                crate::types::MessageKey { thread, timestamp: ts },
                            ),
                    }
                },
                Err(e) => e is Store,
            },
    {
        let unread_messages_count = match self.config_store.unread_messages_count(thread) {
            Ok(n) => n,
            Err(e) => {
                return Err(Error::Store(e));
            },
        };
        let last_message = match self.config_store.latest_message(thread) {
            Ok(m) => m,
            Err(e) => {
                return Err(Error::Store(e));
            },
        };
        let title = match thread_title(&self.config_store, thread) {
            Ok(t) => t,
            Err(e) => {
                return Err(e);
            },
        };
        Ok(Session {
            thread,
            last_message,
            unread_messages_count,
            contact,
            groupv2,
            title: Some(title),
        })
    }

    /// Every conversation, one row per stored contact and per cached
    /// group, in descending order of the latest message's timestamp.
    #[verifier::rlimit(100)]
    #[verifier::spinoff_prover]
    pub fn load_conversations(&self) -> (r: Result<Vec<Session>, Error>)
        ensures
            match r {
                Ok(v) => {
                    &&& forall|i: int|
                        #![auto]
                        0 <= i < v@.len() ==> session_ok(self.store_model(), v@[i]@)
                    &&& forall|i: int, j: int|
                        #![auto]
                        0 <= i < j < v@.len() ==> spec_session_key(v@[i]@) >= spec_session_key(
                            v@[j]@,
                        )
                    &&& forall|i: int, j: int|
                        #![auto]
                        0 <= i < j < v@.len() ==> v@[i]@.thread != v@[j]@.thread
                    &&& v@.map_values(|s: Session| s@.thread).to_set() == conversation_threads(
                        self.store_model(),
                    )
                },
                Err(e) => e is Store,
            },
    {
        broadcast use vstd::seq_lib::group_to_multiset_ensures;

        let contacts = match self.config_store.contacts() {
            Ok(v) => v,
            Err(e) => {
                return Err(Error::Store(e));
            },
        };
        let groups = match self.config_store.groups() {
            Ok(v) => v,
            Err(e) => {
                return Err(Error::Store(e));
            },
        };
        let mut rows: Vec<Session> = Vec::new();
        let mut i: usize = 0;
        while i < contacts.len()
            invariant
                i <= contacts@.len(),
                rows@.len() == i,
                forall|j: int|
                    #![auto]
                    0 <= j < contacts@.len() ==> self.store_model().contacts.contains_key(
                        contacts.deep_view()[j].address,
                    ) && contacts.deep_view()[j] == self.store_model().contacts[
                    contacts.deep_view()[j].address],
                forall|a: int|
                    #![auto]
                    0 <= a < i ==> session_ok(self.store_model(), rows@[a]@),
                forall|a: int|
                    #![auto]
                    0 <= a < i ==> rows@[a]@.thread == Thread::Contact(
                        contacts.deep_view()[a].address,
                    ),
            decreases contacts@.len() - i,
        {
            let contact = contacts[i].duplicate();
            let thread = Thread::Contact(contact.address);
            proof {
                assert(contact@ == contacts.deep_view()[i as int]);
            }
            let session = match self.build_session(thread, Some(contact), None) {
                Ok(s) => s,
                Err(e) => {
                    return Err(e);
                },
            };
            let ghost rows_b = rows@;
            rows.push(session);
            proof {
                assert(rows@ == rows_b.push(session));
                assert forall|a: int| #![auto] 0 <= a < rows@.len() implies session_ok(
                    self.store_model(),
                    rows@[a]@,
                ) && rows@[a]@.thread == Thread::Contact(contacts.deep_view()[a].address) by {
                    if a < rows_b.len() {
                        assert(rows_b.push(session)[a] == rows_b[a]);
                        assert(rows@[a] == rows_b[a]);
                    } else {
                        assert(rows_b.push(session)[a] == session);
                        assert(rows@[a] == session);
                    }
                }
            }
            i = i + 1;
        }
        let ghost nc = contacts@.len() as int;
        let mut g: usize = 0;
        while g < groups.len()
            invariant
                g <= groups@.len(),
                nc == contacts@.len(),
                nc == contacts.deep_view().len(),
                rows@.len() == nc + g,
                forall|j: int|
                    #![auto]
                    0 <= j < groups@.len() ==> self.store_model().groups.contains_key(
                        groups@[j].0,
                    ) && groups@[j].1@ == self.store_model().groups[groups@[j].0],
                forall|a: int|
                    #![auto]
                    0 <= a < rows@.len() ==> session_ok(self.store_model(), rows@[a]@),
                forall|a: int|
                    #![auto]
                    0 <= a < nc ==> rows@[a]@.thread == Thread::Contact(
                        contacts.deep_view()[a].address,
                    ),
                forall|a: int|
                    #![auto]
                    nc <= a < rows@.len() ==> rows@[a]@.thread == Thread::Group(
                        groups@[a - nc].0,
                    ),
            decreases groups@.len() - g,
        {
            let group = groups[g].1.duplicate();
            let thread = Thread::Group(groups[g].0);
            let session = match self.build_session(thread, None, Some(group)) {
                Ok(s) => s,
                Err(e) => {
                    return Err(e);
                },
            };
            let ghost rows_b = rows@;
            rows.push(session);
            proof {
                assert(contacts.deep_view().len() == contacts@.len());
                lemma_conversation_group_push(
                    self.store_model(),
                    contacts.deep_view(),
                    groups@,
                    rows_b,
                    session,
                    nc,
                    g as int,
                );
                assert(rows@ == rows_b.push(session));
            }
            g = g + 1;
        }
        proof {
            assert forall|a: int, b: int| 0 <= a < b < rows@.len() implies (
            #[trigger] rows@[a])@.thread != (#[trigger] rows@[b])@.thread by {
                if b < nc {
                    assert(contacts.deep_view()[a].address != contacts.deep_view()[b].address);
                } else if a < nc {
                } else {
                    assert(groups@[a - nc].0 != groups@[b - nc].0);
                }
            }
        }
        let ghost built = rows@;
        let out = sort_sessions(rows);
        proof {
            assert forall|a: int| 0 <= a < out@.len() implies session_ok(
                self.store_model(),
                (#[trigger] out@[a])@,
            ) && built.contains(out@[a]) by {
                assert(out@.to_multiset().count(out@[a]) > 0);
                assert(built.contains(out@[a]));
                let b = choose|b: int| 0 <= b < built.len() && built[b] == out@[a];
                assert(session_ok(self.store_model(), built[b]@));
            }
            assert(built.no_duplicates()) by {
                assert forall|x: int, y: int|
                    0 <= x < built.len() && 0 <= y < built.len() && x != y implies built[x]
                    != built[y] by {
                    if x < y {
                        assert(built[x]@.thread != built[y]@.thread);
                    } else {
                        assert(built[y]@.thread != built[x]@.thread);
                    }
                }
            }
            built.lemma_multiset_has_no_duplicates();
            out@.lemma_multiset_has_no_duplicates_conv();
            assert forall|a: int, b: int| 0 <= a < b < out@.len() implies (
            #[trigger] out@[a])@.thread != (#[trigger] out@[b])@.thread by {
                assert(out@[a] != out@[b]);
                assert(out@.to_multiset().count(out@[a]) > 0);
                assert(out@.to_multiset().count(out@[b]) > 0);
                assert(built.contains(out@[a]));
                assert(built.contains(out@[b]));
                let ia = choose|ia: int| 0 <= ia < built.len() && built[ia] == out@[a];
                let ib = choose|ib: int| 0 <= ib < built.len() && built[ib] == out@[b];
                assert(ia != ib);
                if ia < ib {
                    assert(built[ia]@.thread != built[ib]@.thread);
                } else {
                    assert(built[ib]@.thread != built[ia]@.thread);
                }
            }
            let threads = out@.map_values(|s: Session| s@.thread);
            assert forall|t: Thread| threads.to_set().contains(t) implies conversation_threads(
                self.store_model(),
            ).contains(t) by {
                let a = choose|a: int| 0 <= a < threads.len() && threads[a] == t;
                assert(session_ok(self.store_model(), out@[a]@));
            }
            assert forall|t: Thread| conversation_threads(self.store_model()).contains(
                t,
            ) implies threads.to_set().contains(t) by {
                match t {
                    Thread::Contact(uid) => {
                        let j = choose|j: int|
                            0 <= j < contacts@.len() && (
                            #[trigger] contacts.deep_view()[j]).address == uid;
                        assert(built[j]@.thread == t);
                        assert(built.contains(built[j]));
                        assert(built.to_multiset().count(built[j]) > 0);
                        assert(out@.contains(built[j]));
                        let a = choose|a: int| 0 <= a < out@.len() && out@[a] == built[j];
                        assert(threads[a] == t);
                        assert(threads.contains(t));
                    },
                    Thread::Group(key) => {
                        let j = choose|j: int|
                            0 <= j < groups@.len() && (#[trigger] groups@[j]).0 == key;
                        assert(built[nc + j]@.thread == t);
                        assert(built.contains(built[nc + j]));
                        assert(built.to_multiset().count(built[nc + j]) > 0);
                        assert(out@.contains(built[nc + j]));
                        let a = choose|a: int| 0 <= a < out@.len() && out@[a] == built[nc + j];
                        assert(threads[a] == t);
                        assert(threads.contains(t));
                    },
                }
            }
            assert(threads.to_set() =~= conversation_threads(self.store_model()));
        }
        Ok(out)
    }
}

} // verus!
