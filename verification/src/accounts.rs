//! Account state: the shapes an account passes through on its way from
//! unregistered to a fully provisioned, message-capable device.

use vstd::prelude::*;

use crate::types::UserId;
use crate::util::{copy_bytes, copy_opt_string};

verus! {

/// Which deployment of the service the account talks to.
#[derive(Clone, Copy, Debug, PartialEq, Eq, Structural)]
pub enum SignalServers {
    Production,
    Staging,
}

/// Marker for the registration entry point of the state machine.
pub struct Registration;

/// Marker for the linking entry point of the state machine.
pub struct Linking;

/// The number of characters of a freshly generated account password.
pub const PASSWORD_LEN: usize = 24;

/// The number of bytes of a signaling key.
pub const SIGNALING_KEY_LEN: usize = 52;

/// The number of bytes of a profile key.
pub const PROFILE_KEY_LEN: usize = 32;

/// The device id a primary device registers under.
pub const DEFAULT_DEVICE_ID: u32 = 1;

/// Registration ids are 14-bit values.
pub const REGISTRATION_ID_BOUND: u32 = 0x4000;

/// The pending-confirmation state: the ephemeral password and the phone
/// number, held between requesting a verification code and confirming it.
pub struct Confirmation {
    pub signal_servers: SignalServers,
    pub phone_number: String,
    pub password: String,
}

/// The mathematical value of a `Confirmation`.
pub struct ConfirmationView {
    pub signal_servers: SignalServers,
    pub phone_number: Seq<char>,
    pub password: Seq<char>,
}

impl View for Confirmation {
    type V = ConfirmationView;

    open spec fn view(&self) -> ConfirmationView {
        ConfirmationView {
            signal_servers: self.signal_servers,
            phone_number: self.phone_number@,
            password: self.password@,
        }
    }
}

/// The durable account state: the only shape ever persisted. Exactly one
/// Registered record exists per store at a time.
pub struct Registered {
    pub signal_servers: SignalServers,
    pub device_name: Option<String>,
    pub phone_number: String,
    pub uuid: UserId,
    pub password: String,
    pub signaling_key: Vec<u8>,
    pub device_id: Option<u32>,
    pub registration_id: u32,
    pub private_key: Vec<u8>,
    pub public_key: Vec<u8>,
    pub profile_key: Vec<u8>,
}

/// The mathematical value of a `Registered`.
pub struct RegisteredView {
    pub signal_servers: SignalServers,
    pub device_name: Option<Seq<char>>,
    pub phone_number: Seq<char>,
    pub uuid: UserId,
    pub password: Seq<char>,
    pub signaling_key: Seq<u8>,
    pub device_id: Option<u32>,
    pub registration_id: u32,
    pub private_key: Seq<u8>,
    pub public_key: Seq<u8>,
    pub profile_key: Seq<u8>,
}

impl View for Registered {
    type V = RegisteredView;

    open spec fn view(&self) -> RegisteredView {
        RegisteredView {
            signal_servers: self.signal_servers,
            device_name: self.device_name.deep_view(),
            phone_number: self.phone_number@,
            uuid: self.uuid,
            password: self.password@,
            signaling_key: self.signaling_key@,
            device_id: self.device_id,
            registration_id: self.registration_id,
            private_key: self.private_key@,
            public_key: self.public_key@,
            profile_key: self.profile_key@,
        }
    }
}

impl RegisteredView {
    /// Well-formedness of a durable record: the generated key material has
    /// its documented lengths, and the registration id is a 14-bit value.
    pub open spec fn well_formed(self) -> bool {
        &&& self.signaling_key.len() == SIGNALING_KEY_LEN
        &&& self.profile_key.len() == PROFILE_KEY_LEN
        &&& self.registration_id < REGISTRATION_ID_BOUND
    }

    /// The device id, defaulting to the primary device id when absent.
    pub open spec fn spec_device_id(self) -> u32 {
        match self.device_id {
            Some(id) => id,
            None => DEFAULT_DEVICE_ID,
        }
    }
}

impl Registered {
    /// A copy carrying the same value.
    pub fn duplicate(&self) -> (r: Registered)
        ensures
            r@ == self@,
    {
        Registered {
            signal_servers: self.signal_servers,
            device_name: copy_opt_string(&self.device_name),
            phone_number: self.phone_number.clone(),
            uuid: self.uuid,
            password: self.password.clone(),
            signaling_key: copy_bytes(&self.signaling_key),
            device_id: self.device_id,
            registration_id: self.registration_id,
            private_key: copy_bytes(&self.private_key),
            public_key: copy_bytes(&self.public_key),
            profile_key: copy_bytes(&self.profile_key),
        }
    }

    /// The device id, defaulting to the primary device id when absent.
    pub fn device_id(&self) -> (r: u32)
        ensures
            r == self@.spec_device_id(),
    {
        match self.device_id {
            Some(id) => id,
            None => DEFAULT_DEVICE_ID,
        }
    }

    /// The registration id of the record.
    pub fn registration_id(&self) -> (r: u32)
        ensures
            r == self@.registration_id,
    {
        self.registration_id
    }

    /// The identity private key of the record.
    pub fn private_key(&self) -> (r: Vec<u8>)
        ensures
            r@ == self@.private_key,
    {
        copy_bytes(&self.private_key)
    }

    /// The identity public key of the record.
    pub fn public_key(&self) -> (r: Vec<u8>)
        ensures
            r@ == self@.public_key,
    {
        copy_bytes(&self.public_key)
    }

    /// The account attributes announced when synchronizing attributes
    /// from a registered device: the device name, the registration id,
    /// and the fixed capability flags.
    pub fn account_attributes(&self) -> (r: AccountAttributes)
        ensures
            r.name@ == (match self@.device_name {
                Some(n) => n,
                None => Seq::<char>::empty(),
            }),
            r.signaling_key is None,
            r.registration_id == self@.registration_id,
            !r.voice && !r.video && r.fetches_messages && r.discoverable_by_phone_number,
            r.capabilities.gv2 && r.capabilities.gv1_migration,
    {
        let name = match &self.device_name {
            Some(n) => n.clone(),
            None => String::new(),
        };
        AccountAttributes {
            name,
            signaling_key: None,
            registration_id: self.registration_id,
            voice: false,
            video: false,
            fetches_messages: true,
            discoverable_by_phone_number: true,
            capabilities: DeviceCapabilities { gv2: true, gv1_migration: true },
        }
    }
}

/// Options of the registration entry point.
pub struct RegistrationOptions {
    pub signal_servers: SignalServers,
    pub phone_number: String,
    pub use_voice_call: bool,
    pub captcha: Option<String>,
    pub force: bool,
}

/// Device capabilities announced with the account attributes.
#[derive(Clone, Copy, Debug)]
pub struct DeviceCapabilities {
    pub gv2: bool,
    pub gv1_migration: bool,
}

/// The account attributes handed to the collaborator when confirming a
/// code or synchronizing attributes.
pub struct AccountAttributes {
    pub name: String,
    pub signaling_key: Option<Vec<u8>>,
    pub registration_id: u32,
    pub voice: bool,
    pub video: bool,
    pub fetches_messages: bool,
    pub discoverable_by_phone_number: bool,
    pub capabilities: DeviceCapabilities,
}

/// The credentials the provisioning channel delivers to a new linked
/// device on success.
pub struct NewDeviceCredentials {
    pub phone_number: String,
    pub device_id: u32,
    pub registration_id: u32,
    pub uuid: UserId,
    pub private_key: Vec<u8>,
    pub public_key: Vec<u8>,
    pub profile_key: Vec<u8>,
}

/// The mathematical value of a `NewDeviceCredentials`.
pub struct NewDeviceCredentialsView {
    pub phone_number: Seq<char>,
    pub device_id: u32,
    pub registration_id: u32,
    pub uuid: UserId,
    pub private_key: Seq<u8>,
    pub public_key: Seq<u8>,
    pub profile_key: Seq<u8>,
}

impl View for NewDeviceCredentials {
    type V = NewDeviceCredentialsView;

    open spec fn view(&self) -> NewDeviceCredentialsView {
        NewDeviceCredentialsView {
            phone_number: self.phone_number@,
            device_id: self.device_id,
            registration_id: self.registration_id,
            uuid: self.uuid,
            private_key: self.private_key@,
            public_key: self.public_key@,
            profile_key: self.profile_key@,
        }
    }
}

} // verus!
