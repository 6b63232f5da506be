//! The system keychain: the names under which the master key is kept, and
//! the text form in which it is stored. Talking to the keychain itself is
//! the caller's part.

use vstd::prelude::*;
use vstd::string::*;
use crate::crypto::{base64_bytes, base64_decode, base64_encode, base64_text};
use crate::errors::{prefixed, Error};

verus! {

/// The service name unless another is given.
pub const SERVICE_NAME: &'static str = "SecureFox";

/// The name of the entry that holds the master key.
pub const MASTER_KEY_NAME: &'static str = "master_key";

/// The keychain service that entries are stored under.
pub struct Keychain {
    service: String,
}

impl View for Keychain {
    type V = Seq<char>;

    closed spec fn view(&self) -> Seq<char> {
        self.service@
    }
}

impl Keychain {
    /// The keychain of the service `SecureFox`.
    pub fn new() -> (r: Self)
        ensures
            r@ == SERVICE_NAME@,
    {
        Keychain { service: String::from_str(SERVICE_NAME) }
    }

    /// The keychain of the service `service`.
    pub fn with_service(service: &str) -> (r: Self)
        ensures
            r@ == service@,
    {
        Keychain { service: String::from_str(service) }
    }

    /// The service name.
    pub fn service(&self) -> (r: &str)
        ensures
            r@ == self@,
    {
        self.service.as_str()
    }

    /// The text under which the master key `key` is stored: its Base64.
    pub fn encode_master_key(&self, key: &[u8]) -> (r: String)
        ensures
            r@ == base64_text(key@),
            base64_bytes(r@) == Some(key@),
    {
        base64_encode(key)
    }

    /// The master key behind a stored text. A text that is not Base64 is a
    /// `Keychain` error.
    pub fn decode_master_key(&self, stored: &str) -> (r: Result<Vec<u8>, Error>)
        ensures
            match r {
                Ok(key) => base64_bytes(stored@) == Some(key@),
                Err(e) => base64_bytes(stored@) is None && e is Keychain,
            },
    {
        match base64_decode(stored) {
            Ok(key) => Ok(key),
            Err(message) => Err(Error::Keychain(prefixed("Invalid key format: ", &message))),
        }
    }
}

impl Default for Keychain {
    fn default() -> (r: Self)
        ensures
            r@ == SERVICE_NAME@,
    {
        Keychain::new()
    }
}

} // verus!
