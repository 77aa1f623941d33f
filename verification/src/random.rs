//! Trusted wrappers around the rand crate for the key material the
//! account flows generate, and the verified derivations on top of them.

use vstd::prelude::*;

use rand::distributions::Alphanumeric;
use rand::rngs::StdRng;
use rand::Rng;
use rand::RngCore;
use rand::SeedableRng;

use crate::accounts::{PASSWORD_LEN, REGISTRATION_ID_BOUND};

verus! {

/// Whether a character is an ASCII letter or digit.
pub open spec fn is_ascii_alphanumeric_char(c: char) -> bool {
    ('a' <= c && c <= 'z') || ('A' <= c && c <= 'Z') || ('0' <= c && c <= '9')
}

/// Relies on rand's StdRng with the Alphanumeric distribution, which
/// samples uniformly from ASCII letters and digits. Draws the fresh
/// account password.
#[verifier::external_body]
pub fn generate_password() -> (r: String)
    ensures
        r@.len() == PASSWORD_LEN,
        forall|i: int| 0 <= i < r@.len() ==> is_ascii_alphanumeric_char(#[trigger] r@[i]),
{
    let rng = StdRng::from_entropy();
    rng.sample_iter(&Alphanumeric).take(PASSWORD_LEN).map(char::from).collect()
}

/// Relies on rand's StdRng fill_bytes: fills and returns a buffer of
/// exactly the requested number of bytes; nothing is promised of their
/// values.
#[verifier::external_body]
pub fn random_bytes(n: usize) -> (r: Vec<u8>)
    ensures
        r@.len() == n,
{
    let mut rng = StdRng::from_entropy();
    let mut v = vec![0u8; n];
    rng.fill_bytes(&mut v);
    v
}

/// Relies on rand's StdRng next_u32; nothing is promised of the value.
#[verifier::external_body]
pub fn random_u32() -> u32 {
    StdRng::from_entropy().next_u32()
}

/// Draws a fresh 14-bit registration id.
pub fn generate_registration_id() -> (r: u32)
    ensures
        r < REGISTRATION_ID_BOUND,
{
    random_u32() % REGISTRATION_ID_BOUND
}

} // verus!
