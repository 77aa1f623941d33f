use presage::accounts::{
    NewDeviceCredentials, RegistrationOptions, SignalServers, PASSWORD_LEN, PROFILE_KEY_LEN,
    REGISTRATION_ID_BOUND, SIGNALING_KEY_LEN,
};
use presage::errors::{Error, ServiceFailure};
use presage::manager::{
    begin_confirm, begin_link, begin_register, complete_confirm, complete_link, complete_register,
    conclude_registration, finish_linking, load_registered_state, IdentityKeyPair,
    ProvisioningOutcome, VerificationCodeResponse,
};
use presage::store::Store;
use presage::types::UserId;
use presage::volatile::VolatileStore;

fn uid(n: u128) -> UserId {
    UserId { id: n }
}

fn options(force: bool) -> RegistrationOptions {
    RegistrationOptions {
        signal_servers: SignalServers::Production,
        phone_number: "+16137827274".to_string(),
        use_voice_call: false,
        captcha: None,
        force,
    }
}

fn failure(text: &str) -> ServiceFailure {
    ServiceFailure { message: text.to_string() }
}

fn identity() -> IdentityKeyPair {
    IdentityKeyPair { private_key: vec![1u8; 32], public_key: vec![2u8; 33] }
}

fn register_account(store: &mut VolatileStore, n: u128) {
    let (confirmation, _request) = begin_register(store, options(false)).unwrap();
    let confirmation =
        complete_register(confirmation, VerificationCodeResponse::CodeSent).unwrap();
    let (session, _attributes) = begin_confirm(&confirmation);
    complete_confirm(store, confirmation, session, uid(n), identity()).unwrap();
}

#[test]
fn captcha_required_fails_registration_and_persists_nothing() {
    // Scenario: register, and the collaborator answers that a captcha is
    // required; the flow fails with the distinct error and no Registered
    // record is persisted.
    let mut store = VolatileStore::new();
    let (confirmation, request) = begin_register(&mut store, options(false)).unwrap();
    assert_eq!(request.password.len(), PASSWORD_LEN);
    let r = complete_register(confirmation, VerificationCodeResponse::CaptchaRequired);
    assert!(matches!(r, Err(Error::CaptchaRequired)));
    assert!(matches!(store.load_state(), Ok(None)));
}

#[test]
fn generated_password_is_alphanumeric() {
    let mut store = VolatileStore::new();
    let (_confirmation, request) = begin_register(&mut store, options(false)).unwrap();
    assert_eq!(request.password.len(), PASSWORD_LEN);
    assert!(request.password.chars().all(|c| c.is_ascii_alphanumeric()));
}

#[test]
fn register_refuses_when_already_registered_without_force() {
    let mut store = VolatileStore::new();
    register_account(&mut store, 7);
    let r = begin_register(&mut store, options(false));
    assert!(matches!(r, Err(Error::AlreadyRegisteredError)));
    // The record survives the refused attempt.
    assert!(store.load_state().unwrap().is_some());
}

#[test]
fn register_with_force_clears_the_previous_account() {
    let mut store = VolatileStore::new();
    register_account(&mut store, 7);
    let r = begin_register(&mut store, options(true));
    assert!(r.is_ok());
    assert!(matches!(store.load_state(), Ok(None)));
}

#[test]
fn confirm_assembles_and_persists_the_record() {
    let mut store = VolatileStore::new();
    let (confirmation, _request) = begin_register(&mut store, options(false)).unwrap();
    let confirmation =
        complete_register(confirmation, VerificationCodeResponse::CodeSent).unwrap();
    let (session, attributes) = begin_confirm(&confirmation);
    assert!(session.registration_id < REGISTRATION_ID_BOUND);
    assert_eq!(session.signaling_key.len(), SIGNALING_KEY_LEN);
    assert_eq!(session.profile_key.len(), PROFILE_KEY_LEN);
    assert_eq!(attributes.registration_id, session.registration_id);
    assert!(attributes.fetches_messages);
    let registration_id = session.registration_id;
    let reg = complete_confirm(&mut store, confirmation, session, uid(99), identity()).unwrap();
    assert_eq!(reg.uuid, uid(99));
    assert_eq!(reg.device_id, None);
    assert_eq!(reg.device_id(), 1);
    assert_eq!(reg.registration_id, registration_id);
    assert_eq!(reg.phone_number, "+16137827274");
    let loaded = load_registered_state(&store).unwrap();
    assert_eq!(loaded.uuid, uid(99));
}

#[test]
fn failed_pre_key_registration_wipes_the_store() {
    let mut store = VolatileStore::new();
    register_account(&mut store, 99);
    let r = conclude_registration(&mut store, Err(failure("pre-keys rejected")));
    assert!(matches!(r, Err(Error::Service(_))));
    assert!(matches!(store.load_state(), Ok(None)));
}

#[test]
fn successful_pre_key_registration_commits_counters() {
    let mut store = VolatileStore::new();
    register_account(&mut store, 99);
    conclude_registration(&mut store, Ok((120, 8))).unwrap();
    assert_eq!(store.pre_keys_offset_id().unwrap(), 120);
    assert_eq!(store.next_signed_pre_key_id().unwrap(), 8);
    assert!(store.load_state().unwrap().is_some());
}

#[test]
fn link_with_url_only_fails_with_no_provisioning_message() {
    // Scenario: the provisioning channel emits only the URL, then closes
    // without credentials; the store was cleared at the start and stays
    // empty.
    let mut store = VolatileStore::new();
    register_account(&mut store, 1);
    let session = begin_link(&mut store, SignalServers::Production, "laptop".to_string()).unwrap();
    assert!(matches!(store.load_state(), Ok(None)));
    let r = complete_link(&mut store, session, ProvisioningOutcome::UrlOnly);
    assert!(matches!(r, Err(Error::NoProvisioningMessageReceived)));
    assert!(matches!(store.load_state(), Ok(None)));
    assert_eq!(store.contacts().unwrap().len(), 0);
}

#[test]
fn link_without_url_fails_with_link_error() {
    let mut store = VolatileStore::new();
    let session = begin_link(&mut store, SignalServers::Production, "laptop".to_string()).unwrap();
    let r = complete_link(&mut store, session, ProvisioningOutcome::NoUrl);
    assert!(matches!(r, Err(Error::LinkError)));
    let mut store2 = VolatileStore::new();
    let session2 =
        begin_link(&mut store2, SignalServers::Production, "laptop".to_string()).unwrap();
    let r2 = complete_link(&mut store2, session2, ProvisioningOutcome::UrlUndeliverable);
    assert!(matches!(r2, Err(Error::LinkError)));
}

#[test]
fn link_with_credentials_persists_the_new_device() {
    let mut store = VolatileStore::new();
    let session = begin_link(&mut store, SignalServers::Staging, "laptop".to_string()).unwrap();
    let password = session.password.clone();
    let creds = NewDeviceCredentials {
        phone_number: "+14155550100".to_string(),
        device_id: 2,
        registration_id: 4242,
        uuid: uid(321),
        private_key: vec![9u8; 32],
        public_key: vec![8u8; 33],
        profile_key: vec![7u8; 32],
    };
    let reg = complete_link(&mut store, session, ProvisioningOutcome::Complete(creds)).unwrap();
    assert_eq!(reg.device_name, Some("laptop".to_string()));
    assert_eq!(reg.device_id, Some(2));
    assert_eq!(reg.device_id(), 2);
    assert_eq!(reg.uuid, uid(321));
    assert_eq!(reg.password, password);
    let loaded = load_registered_state(&store).unwrap();
    assert_eq!(loaded.registration_id, 4242);
}

#[test]
fn linking_tolerates_contacts_sync_failure() {
    let mut store = VolatileStore::new();
    register_account(&mut store, 5);
    let r = finish_linking(&mut store, Ok((10, 3)), Ok(()), Err(failure("contacts sync lost")));
    assert!(r.is_ok());
    assert!(store.load_state().unwrap().is_some());
    assert_eq!(store.pre_keys_offset_id().unwrap(), 10);
    assert_eq!(store.next_signed_pre_key_id().unwrap(), 3);
}

#[test]
fn linking_wipes_on_pre_key_or_attribute_failure() {
    let mut store = VolatileStore::new();
    register_account(&mut store, 5);
    let r = finish_linking(&mut store, Err(failure("pre-keys down")), Ok(()), Ok(()));
    assert!(matches!(r, Err(Error::Service(_))));
    assert!(matches!(store.load_state(), Ok(None)));

    let mut store2 = VolatileStore::new();
    register_account(&mut store2, 5);
    let r2 = finish_linking(&mut store2, Ok((1, 1)), Err(failure("attributes down")), Ok(()));
    assert!(matches!(r2, Err(Error::Service(_))));
    assert!(matches!(store2.load_state(), Ok(None)));
}

#[test]
fn load_registered_state_reports_not_yet_registered() {
    let store = VolatileStore::new();
    let r = load_registered_state(&store);
    assert!(matches!(r, Err(Error::NotYetRegisteredError)));
}
