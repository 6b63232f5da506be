//! The vault cryptosystem: a key derived from the master password, and
//! authenticated encryption under that key.
//!
//! The primitives themselves (Argon2id, PBKDF2-HMAC-SHA256, AES-256-GCM-SIV,
//! Base64, the operating system's random generator) are not rebuilt here. Each
//! stands behind one small trusted function whose contract names its result,
//! and the functions of this module are proved against those contracts.

use vstd::prelude::*;
use vstd::string::*;
use vstd::utf8::encode_utf8;
use crate::errors::{prefixed, Error};
use crate::text::{chars_of, concat, decimal_digits, decimal_unsigned, string_from_chars};
use aes_gcm_siv::aead::{Aead, AeadCore, KeyInit, OsRng};
use aes_gcm_siv::{Aes256GcmSiv, Nonce};
use argon2::password_hash::{PasswordHasher, SaltString};
use argon2::{Argon2, Params, Version};
use base64::engine::general_purpose::STANDARD;
use base64::Engine;
use rand::RngCore;
use zeroize::{Zeroize, Zeroizing};

verus! {

/// Size of the encryption key in bytes.
pub const KEY_SIZE: usize = 32;

/// Size of the AES-GCM-SIV nonce in bytes.
pub const NONCE_SIZE: usize = 12;

/// Size of a freshly drawn salt in bytes.
pub const SALT_SIZE: usize = 16;

/// Argon2 memory cost in KiB (19 MiB).
pub const ARGON2_MEMORY_KB: u32 = 19456;

/// Argon2 iterations.
pub const ARGON2_ITERATIONS: u32 = 2;

/// Argon2 parallelism.
pub const ARGON2_PARALLELISM: u32 = 1;

/// The most lanes Argon2 takes.
pub const ARGON2_MAX_PARALLELISM: u32 = 0x00FF_FFFF;

/// PBKDF2 iterations.
pub const PBKDF2_ITERATIONS: u32 = 100_000;

/// The longest plaintext AES-GCM-SIV takes, in bytes (2^36).
pub const MAX_PLAINTEXT_LEN: u64 = 0x10_0000_0000;

/// The longest password Argon2 takes, in bytes (2^32 - 1).
pub const ARGON2_MAX_PASSWORD_LEN: u64 = 0xFFFF_FFFF;

/// Size of the authentication tag that ends every ciphertext, in bytes.
pub const TAG_SIZE: usize = 16;

// ---------------------------------------------------------------------------
// Names for what the primitives compute
// ---------------------------------------------------------------------------

/// The standard Base64 text (with padding) of `bytes`.
pub uninterp spec fn base64_text(bytes: Seq<u8>) -> Seq<char>;

/// The bytes that the standard Base64 text `text` stands for, if it is
/// well formed.
pub uninterp spec fn base64_bytes(text: Seq<char>) -> Option<Seq<u8>>;

/// PBKDF2-HMAC-SHA256 of `password` and `salt` with `rounds` iterations, cut
/// to 32 bytes.
pub uninterp spec fn pbkdf2_sha256(password: Seq<u8>, salt: Seq<u8>, rounds: u32) -> Seq<u8>;

/// The 32-byte Argon2id (version 0x13) tag of `password`, for the salt given
/// in its text form and the three cost parameters; `None` where Argon2
/// rejects the salt, the costs or the password.
pub uninterp spec fn argon2id_tag(
    password: Seq<u8>,
    salt: Seq<char>,
    memory_kb: u32,
    iterations: u32,
    parallelism: u32,
) -> Option<Seq<u8>>;

/// The plaintext that AES-256-GCM-SIV recovers from `ciphertext` (which ends
/// in the tag) under `key` and `nonce`, with no associated data; `None`
/// where authentication fails.
pub uninterp spec fn aead_open(key: Seq<u8>, nonce: Seq<u8>, ciphertext: Seq<u8>) -> Option<
    Seq<u8>,
>;

/// The 32 bytes that an encryption key holds.
pub uninterp spec fn key_material(k: EncryptionKey) -> Seq<u8>;

// ---------------------------------------------------------------------------
// Trusted functions
// ---------------------------------------------------------------------------

/// A 32-byte encryption key. The bytes live in a `zeroize::Zeroizing`
/// buffer, which is overwritten with zeros when the key is released, on
/// every exit path.
///
/// Trusted: the buffer is an outside type whose declaration Verus does not
/// take, so the key is opaque to the verifier and its content is known only
/// through `key_material`.
#[verifier::external_body]
pub struct EncryptionKey {
    key: Zeroizing<[u8; 32]>,
}

/// Trusted: `Zeroizing::new` on a copy of `bytes`. The key holds exactly
/// those 32 bytes.
#[verifier::external_body]
fn guard_key(bytes: &[u8]) -> (k: EncryptionKey)
    requires
        bytes@.len() == 32,
    ensures
        key_material(k) == bytes@,
{
    let mut raw = [0u8; 32];
    raw.copy_from_slice(bytes);
    EncryptionKey { key: Zeroizing::new(raw) }
}

/// Trusted: the `Deref` of `Zeroizing`, which lends the guarded bytes: 32
/// of them, whatever the key.
#[verifier::external_body]
fn guarded_bytes(k: &EncryptionKey) -> (b: &[u8])
    ensures
        b@ == key_material(*k),
        b@.len() == 32,
{
    &k.key[..]
}

/// Trusted: `Zeroize::zeroize` of `Zeroizing`, which overwrites every byte
/// of the buffer with zero.
#[verifier::external_body]
fn wipe_key(k: &mut EncryptionKey)
    ensures
        key_material(*final(k)) == Seq::new(32, |i: int| 0u8),
{
    k.key.zeroize();
}

/// Trusted: `RngCore::fill_bytes` of `OsRng`, on a fresh buffer of `n`
/// bytes. Nothing is known of the bytes but their number. (The generator
/// panics when the operating system has no randomness to give.)
#[verifier::external_body]
fn random_bytes(n: usize) -> (r: Vec<u8>)
    ensures
        r@.len() == n,
{
    let mut buffer = vec![0u8; n];
    OsRng.fill_bytes(&mut buffer);
    buffer
}

/// Trusted: `AeadCore::generate_nonce` of `Aes256GcmSiv` with `OsRng`: 12
/// random bytes.
#[verifier::external_body]
pub(crate) fn random_nonce() -> (r: Vec<u8>)
    ensures
        r@.len() == 12,
{
    Aes256GcmSiv::generate_nonce(&mut OsRng).to_vec()
}

/// Trusted: `SaltString::generate` of the `password-hash` crate with
/// `OsRng`, as text: the unpadded Base64 of 16 random bytes. Such a salt is
/// one that Argon2id accepts: with the costs of this library it has a tag
/// for every password of at most 2^32 - 1 bytes.
#[verifier::external_body]
fn random_salt_text() -> (r: String)
    ensures
        accepted_by_argon2(r@),
{
    SaltString::generate(&mut OsRng).to_string()
}

/// Trusted: `Engine::encode` of base64's `STANDARD` engine. The result is
/// the Base64 text of `bytes`, and decoding that text gives `bytes` back.
#[verifier::external_body]
pub(crate) fn base64_encode(bytes: &[u8]) -> (r: String)
    ensures
        r@ == base64_text(bytes@),
        base64_bytes(r@) == Some(bytes@),
{
    STANDARD.encode(bytes)
}

/// Trusted: `Engine::decode` of base64's `STANDARD` engine. `Ok` holds the
/// decoded bytes; `Err` holds the decoder's message and comes exactly where
/// the text is not well-formed Base64.
#[verifier::external_body]
pub(crate) fn base64_decode(text: &str) -> (r: Result<Vec<u8>, String>)
    ensures
        match r {
            Ok(bytes) => base64_bytes(text@) == Some(bytes@),
            Err(_) => base64_bytes(text@) is None,
        },
{
    STANDARD.decode(text).map_err(|e| e.to_string())
}

/// Trusted: `pbkdf2::pbkdf2_hmac_array::<Sha256, 32>`, its output moved
/// into a key.
#[verifier::external_body]
fn pbkdf2_derive(password: &[u8], salt: &[u8], rounds: u32) -> (k: EncryptionKey)
    ensures
        key_material(k) == pbkdf2_sha256(password@, salt@, rounds),
{
    let raw = pbkdf2::pbkdf2_hmac_array::<sha2::Sha256, 32>(password, salt, rounds);
    EncryptionKey { key: Zeroizing::new(raw) }
}

/// Trusted: `Argon2::hash_password` for Argon2id, version 0x13, with a
/// 32-byte output, after `Params::new` and `SaltString::from_b64`. `Ok`
/// holds the 32 bytes of the tag; `Err` holds the message of the step that
/// refused. `Params::new` multiplies the lanes by eight in 32 bits, so the
/// lanes are kept within what Argon2 takes.
#[verifier::external_body]
fn argon2id_derive(
    password: &[u8],
    salt: &str,
    memory_kb: u32,
    iterations: u32,
    parallelism: u32,
) -> (r: Result<Vec<u8>, String>)
    requires
        parallelism <= ARGON2_MAX_PARALLELISM,
    ensures
        match r {
            Ok(tag) => argon2id_tag(password@, salt@, memory_kb, iterations, parallelism) == Some(
                tag@,
            ) && tag@.len() == 32,
            Err(_) => argon2id_tag(password@, salt@, memory_kb, iterations, parallelism) is None,
        },
{
    let params = Params::new(memory_kb, iterations, parallelism, Some(32))
        .map_err(|e| format!("Invalid Argon2 params: {}", e))?;
    let salt = SaltString::from_b64(salt).map_err(|e| format!("Invalid salt: {}", e))?;
    let hash = Argon2::new(argon2::Algorithm::Argon2id, Version::V0x13, params)
        .hash_password(password, &salt)
        .map_err(|e| format!("Key derivation failed: {}", e))?;
    hash.hash.map(|h| h.as_bytes().to_vec()).ok_or_else(|| format!("Key derivation failed"))
}

/// Trusted: `Aead::encrypt` of `Aes256GcmSiv` (after `KeyInit::new_from_slice`)
/// with no associated data. It refuses exactly the plaintexts longer than
/// 2^36 bytes; otherwise the ciphertext is the encrypted plaintext followed
/// by the 16-byte tag, and it opens to the plaintext under the same key and
/// nonce.
#[verifier::external_body]
fn aead_encrypt(key: &[u8], nonce: &[u8], plaintext: &[u8]) -> (r: Result<Vec<u8>, String>)
    requires
        key@.len() == 32,
        nonce@.len() == 12,
    ensures
        r is Err <==> plaintext@.len() > MAX_PLAINTEXT_LEN,
        r matches Ok(ciphertext) ==> aead_open(key@, nonce@, ciphertext@) == Some(plaintext@)
            && ciphertext@.len() == plaintext@.len() + 16,
{
    let cipher = Aes256GcmSiv::new_from_slice(key).map_err(|e| e.to_string())?;
    cipher.encrypt(Nonce::from_slice(nonce), plaintext).map_err(|e| e.to_string())
}

/// Trusted: `Aead::decrypt` of `Aes256GcmSiv` (after `KeyInit::new_from_slice`)
/// with no associated data. `Ok` holds the plaintext; `Err` comes exactly
/// where the ciphertext does not authenticate under this key and nonce.
#[verifier::external_body]
fn aead_decrypt(key: &[u8], nonce: &[u8], ciphertext: &[u8]) -> (r: Result<Vec<u8>, String>)
    requires
        key@.len() == 32,
        nonce@.len() == 12,
    ensures
        match r {
            Ok(plaintext) => aead_open(key@, nonce@, ciphertext@) == Some(plaintext@),
            Err(_) => aead_open(key@, nonce@, ciphertext@) is None,
        },
{
    let cipher = Aes256GcmSiv::new_from_slice(key).map_err(|e| e.to_string())?;
    cipher.decrypt(Nonce::from_slice(nonce), ciphertext).map_err(|e| e.to_string())
}

// ---------------------------------------------------------------------------
// Keys
// ---------------------------------------------------------------------------

impl View for EncryptionKey {
    type V = Seq<u8>;

    open spec fn view(&self) -> Seq<u8> {
        key_material(*self)
    }
}

/// What is said of a key of `len` bytes where 32 are wanted.
pub open spec fn key_size_message(len: nat) -> Seq<char> {
    "Invalid key size: expected 32, got "@ + decimal_digits(len)
}

/// What is said of a nonce of `len` bytes where 12 are wanted.
pub open spec fn nonce_size_message(len: nat) -> Seq<char> {
    "Invalid nonce size: expected 12, got "@ + decimal_digits(len)
}

fn size_message(start: &str, len: usize) -> (r: String)
    ensures
        r@ == start@ + decimal_digits(len as nat),
{
    string_from_chars(&concat(&chars_of(start), &decimal_unsigned(len as u64)))
}

impl EncryptionKey {
    /// A key made of `bytes`, which must be exactly 32. Any other number
    /// is an `Encryption` error that names the number.
    pub fn from_bytes(bytes: &[u8]) -> (r: Result<Self, Error>)
        ensures
            match r {
                Ok(k) => bytes@.len() == KEY_SIZE && k@ == bytes@,
                Err(e) => bytes@.len() != KEY_SIZE && (e matches Error::Encryption(m) && m@
                    == key_size_message(bytes@.len())),
            },
    {
        if bytes.len() != KEY_SIZE {
            return Err(
                Error::Encryption(size_message("Invalid key size: expected 32, got ", bytes.len())),
            );
        }
        Ok(guard_key(bytes))
    }

    /// The key bytes.
    pub fn as_bytes(&self) -> (b: &[u8])
        ensures
            b@ == self@,
            b@.len() == KEY_SIZE,
    {
        guarded_bytes(self)
    }

    /// Overwrites the key with zeros.
    pub fn zeroize(&mut self)
        ensures
            final(self)@ == Seq::new(32, |i: int| 0u8),
    {
        wipe_key(self);
    }
}

/// A new random encryption key.
pub fn generate_key() -> (k: EncryptionKey)
    ensures
        k@.len() == KEY_SIZE,
{
    let bytes = random_bytes(KEY_SIZE);
    guard_key(bytes.as_slice())
}

// ---------------------------------------------------------------------------
// Key derivation
// ---------------------------------------------------------------------------

/// The key derivation functions a vault can choose from.
#[derive(Debug, Clone, Copy, PartialEq, Eq, Structural)]
pub enum KdfAlgorithm {
    Argon2id,
    Pbkdf2,
}

/// Parameters for key derivation, as the envelope records them.
#[derive(Debug)]
pub struct KdfParams {
    pub algorithm: KdfAlgorithm,
    pub salt: String,
    pub memory_kb: Option<u32>,
    pub iterations: u32,
    pub parallelism: Option<u32>,
}

/// The mathematical content of `KdfParams`.
pub ghost struct KdfParamsView {
    pub algorithm: KdfAlgorithm,
    pub salt: Seq<char>,
    pub memory_kb: Option<u32>,
    pub iterations: u32,
    pub parallelism: Option<u32>,
}

impl View for KdfParams {
    type V = KdfParamsView;

    open spec fn view(&self) -> KdfParamsView {
        KdfParamsView {
            algorithm: self.algorithm,
            salt: self.salt@,
            memory_kb: self.memory_kb,
            iterations: self.iterations,
            parallelism: self.parallelism,
        }
    }
}

/// Whether `params` are PBKDF2 parameters as `KdfParams::default` makes
/// them: 100 000 iterations and a salt that is the Base64 of 16 bytes.
pub open spec fn is_fresh_pbkdf2(params: KdfParamsView) -> bool {
    &&& params.algorithm == KdfAlgorithm::Pbkdf2
    &&& params.iterations == PBKDF2_ITERATIONS
    &&& params.memory_kb is None
    &&& params.parallelism is None
    &&& base64_bytes(params.salt) matches Some(salt) && salt.len() == SALT_SIZE
}

/// Whether Argon2id, with the costs of this library, accepts `salt`: it
/// has a tag for every password that is not too long.
pub open spec fn accepted_by_argon2(salt: Seq<char>) -> bool {
    forall|password: Seq<u8>|
        password.len() <= ARGON2_MAX_PASSWORD_LEN ==> (#[trigger] argon2id_tag(
            password,
            salt,
            ARGON2_MEMORY_KB,
            ARGON2_ITERATIONS,
            ARGON2_PARALLELISM,
        )) is Some
}

/// Whether `params` are Argon2id parameters as `KdfParams::argon2` makes
/// them: 19 MiB of memory, 2 iterations, 1 lane, and a salt that Argon2id
/// accepts.
pub open spec fn is_fresh_argon2(params: KdfParamsView) -> bool {
    &&& params.algorithm == KdfAlgorithm::Argon2id
    &&& params.iterations == ARGON2_ITERATIONS
    &&& params.memory_kb == Some(ARGON2_MEMORY_KB)
    &&& params.parallelism == Some(ARGON2_PARALLELISM)
    &&& accepted_by_argon2(params.salt)
}

/// Fresh parameters give a key for every password; with Argon2id, for
/// every password of at most 2^32 - 1 bytes.
pub proof fn lemma_fresh_params_derive(password: Seq<char>, params: KdfParamsView)
    requires
        is_fresh_pbkdf2(params) || (is_fresh_argon2(params) && encode_utf8(password).len()
            <= ARGON2_MAX_PASSWORD_LEN),
    ensures
        derived_key(password, params) is Some,
{
}

impl Default for KdfParams {
    /// PBKDF2 parameters with a fresh random salt.
    fn default() -> (r: Self)
        ensures
            is_fresh_pbkdf2(r@),
    {
        let salt_bytes = random_bytes(SALT_SIZE);
        KdfParams {
            algorithm: KdfAlgorithm::Pbkdf2,
            salt: base64_encode(salt_bytes.as_slice()),
            memory_kb: None,
            iterations: PBKDF2_ITERATIONS,
            parallelism: None,
        }
    }
}

impl KdfParams {
    /// Argon2id parameters with a fresh random salt.
    pub fn argon2() -> (r: Self)
        ensures
            is_fresh_argon2(r@),
    {
        KdfParams {
            algorithm: KdfAlgorithm::Argon2id,
            salt: random_salt_text(),
            memory_kb: Some(ARGON2_MEMORY_KB),
            iterations: ARGON2_ITERATIONS,
            parallelism: Some(ARGON2_PARALLELISM),
        }
    }

    /// PBKDF2 parameters with a fresh random salt.
    pub fn pbkdf2() -> (r: Self)
        ensures
            is_fresh_pbkdf2(r@),
    {
        KdfParams::default()
    }

    /// A copy of these parameters.
    pub fn duplicate(&self) -> (r: Self)
        ensures
            r@ == self@,
    {
        KdfParams {
            algorithm: self.algorithm,
            salt: self.salt.clone(),
            memory_kb: self.memory_kb,
            iterations: self.iterations,
            parallelism: self.parallelism,
        }
    }
}

/// The key that `password` gives under `params`, or `None` where the
/// parameters or the salt are refused. The salt is always the one the
/// parameters record: the same password and parameters give the same key.
pub open spec fn derived_key(password: Seq<char>, params: KdfParamsView) -> Option<Seq<u8>> {
    match params.algorithm {
        KdfAlgorithm::Argon2id => {
            let memory_kb = match params.memory_kb {
                Some(m) => m,
                None => ARGON2_MEMORY_KB,
            };
            let parallelism = match params.parallelism {
                Some(p) => p,
                None => ARGON2_PARALLELISM,
            };
            if parallelism > ARGON2_MAX_PARALLELISM {
                None
            } else {
                argon2id_tag(
                    encode_utf8(password),
                    params.salt,
                    memory_kb,
                    params.iterations,
                    parallelism,
                )
            }
        },
        KdfAlgorithm::Pbkdf2 => match base64_bytes(params.salt) {
            Some(salt) => Some(pbkdf2_sha256(encode_utf8(password), salt, params.iterations)),
            None => None,
        },
    }
}

/// Derives the encryption key from a password.
///
/// Succeeds exactly where `derived_key` names a key, and then returns that
/// key; every refusal is an `Encryption` error.
pub fn derive_key(password: &str, params: &KdfParams) -> (r: Result<EncryptionKey, Error>)
    ensures
        match r {
            Ok(k) => derived_key(password@, params@) == Some(k@),
            Err(e) => derived_key(password@, params@) is None && e is Encryption,
        },
{
    match params.algorithm {
        KdfAlgorithm::Argon2id => {
            let memory_kb: u32 = match params.memory_kb {
                Some(m) => m,
                None => ARGON2_MEMORY_KB,
            };
            let parallelism: u32 = match params.parallelism {
                Some(p) => p,
                None => ARGON2_PARALLELISM,
            };
            if parallelism > ARGON2_MAX_PARALLELISM {
                return Err(
                    Error::Encryption(String::from_str("Invalid Argon2 params: too many threads")),
                );
            }
            match argon2id_derive(
                password.as_bytes(),
                params.salt.as_str(),
                memory_kb,
                params.iterations,
                parallelism,
            ) {
                Ok(tag) => EncryptionKey::from_bytes(tag.as_slice()),
                Err(message) => Err(Error::Encryption(message)),
            }
        },
        KdfAlgorithm::Pbkdf2 => {
            match base64_decode(params.salt.as_str()) {
                Ok(salt) => {
                    Ok(pbkdf2_derive(password.as_bytes(), salt.as_slice(), params.iterations))
                },
                Err(message) => Err(Error::Encryption(prefixed("Invalid salt: ", &message))),
            }
        },
    }
}

/// Checks that a key can be derived from `password` under `params`.
pub fn verify_password(password: &str, params: &KdfParams) -> (r: Result<bool, Error>)
    ensures
        match r {
            Ok(b) => b && derived_key(password@, params@) is Some,
            Err(e) => derived_key(password@, params@) is None && e is Encryption,
        },
{
    match derive_key(password, params) {
        Ok(_) => Ok(true),
        Err(e) => Err(e),
    }
}

// ---------------------------------------------------------------------------
// Authenticated encryption
// ---------------------------------------------------------------------------

/// Encrypted data with everything needed to decrypt it again, but the
/// password: the key derivation parameters, the nonce and the ciphertext,
/// the last two as Base64 text.
#[derive(Debug)]
pub struct EncryptedData {
    pub kdf_params: KdfParams,
    pub nonce: String,
    pub ciphertext: String,
}

/// The mathematical content of `EncryptedData`.
pub ghost struct EncryptedDataView {
    pub kdf_params: KdfParamsView,
    pub nonce: Seq<char>,
    pub ciphertext: Seq<char>,
}

impl View for EncryptedData {
    type V = EncryptedDataView;

    open spec fn view(&self) -> EncryptedDataView {
        EncryptedDataView {
            kdf_params: self.kdf_params@,
            nonce: self.nonce@,
            ciphertext: self.ciphertext@,
        }
    }
}

/// The plaintext that `encrypted` holds for the owner of `key`: the nonce
/// must be the Base64 of 12 bytes, the ciphertext must be Base64, and the
/// ciphertext must authenticate under the key and the nonce.
pub open spec fn opened(encrypted: EncryptedDataView, key: Seq<u8>) -> Option<Seq<u8>> {
    opened_parts(encrypted.nonce, encrypted.ciphertext, key)
}

/// The plaintext behind a nonce and a ciphertext, both given as Base64
/// text, for the owner of `key`.
pub open spec fn opened_parts(nonce: Seq<char>, ciphertext: Seq<char>, key: Seq<u8>) -> Option<
    Seq<u8>,
> {
    match base64_bytes(nonce) {
        Some(nonce) => if nonce.len() == NONCE_SIZE {
            match base64_bytes(ciphertext) {
                Some(ciphertext) => aead_open(key, nonce, ciphertext),
                None => None,
            }
        } else {
            None
        },
        None => None,
    }
}

/// The plaintext that `encrypted` holds for whoever knows `password`: the
/// key is derived with the parameters that `encrypted` records.
pub open spec fn opened_with_password(encrypted: EncryptedDataView, password: Seq<char>) -> Option<
    Seq<u8>,
> {
    match derived_key(password, encrypted.kdf_params) {
        Some(key) => opened(encrypted, key),
        None => None,
    }
}

/// Whether the nonce and the ciphertext, both as text, are what sealing
/// `plaintext` under `key` with the drawn `nonce` gives: the nonce's text is
/// the Base64 of the drawn nonce, and the ciphertext is the Base64 of bytes
/// that are 16 more than the plaintext and open to it.
pub open spec fn sealed(
    encrypted: EncryptedDataView,
    key: Seq<u8>,
    nonce: Seq<u8>,
    plaintext: Seq<u8>,
) -> bool {
    &&& nonce.len() == NONCE_SIZE
    &&& encrypted.nonce == base64_text(nonce)
    &&& base64_bytes(encrypted.nonce) == Some(nonce)
    &&& base64_bytes(encrypted.ciphertext) matches Some(ciphertext) && ciphertext.len()
        == plaintext.len() + TAG_SIZE && aead_open(key, nonce, ciphertext) == Some(plaintext)
}

/// Whether `e` is the error that `decrypt` answers data with that does not
/// open under a key.
///
/// A nonce or a ciphertext that is not Base64, and a nonce that is not 12
/// bytes, are `Decryption` errors. Data that is well formed but does not
/// authenticate is `InvalidPassword`: a wrong key and a forged ciphertext
/// look the same.
pub open spec fn is_decrypt_failure(encrypted: EncryptedDataView, e: Error) -> bool {
    match base64_bytes(encrypted.nonce) {
        None => e is Decryption,
        Some(nonce) => if nonce.len() != NONCE_SIZE {
            e matches Error::Decryption(m) && m@ == nonce_size_message(nonce.len())
        } else if base64_bytes(encrypted.ciphertext) is None {
            e is Decryption
        } else {
            e is InvalidPassword
        },
    }
}

/// Encrypts data with AES-256-GCM-SIV under `key` and the nonce `nonce`,
/// and records `kdf_params` beside it.
///
/// It fails, with an `Encryption` error, exactly where the nonce is not 12
/// bytes or the plaintext is longer than 2^36 bytes. The nonce of the
/// result is the Base64 of `nonce`, and the result opens to the plaintext
/// under `key`.
pub fn encrypt_with_nonce(
    plaintext: &[u8],
    key: &EncryptionKey,
    kdf_params: KdfParams,
    nonce: &[u8],
) -> (r: Result<EncryptedData, Error>)
    ensures
        r is Err <==> nonce@.len() != NONCE_SIZE || plaintext@.len() > MAX_PLAINTEXT_LEN,
        r matches Err(e) ==> e is Encryption && (nonce@.len() != NONCE_SIZE ==> (
        e matches Error::Encryption(m) && m@ == nonce_size_message(nonce@.len()))),
        r matches Ok(encrypted) ==> encrypted@.kdf_params == kdf_params@ && sealed(
            encrypted@,
            key@,
            nonce@,
            plaintext@,
        ) && opened(encrypted@, key@) == Some(plaintext@),
{
    if nonce.len() != NONCE_SIZE {
        return Err(
            Error::Encryption(size_message("Invalid nonce size: expected 12, got ", nonce.len())),
        );
    }
    match aead_encrypt(key.as_bytes(), nonce, plaintext) {
        Ok(ciphertext) => Ok(
            EncryptedData {
                kdf_params,
                nonce: base64_encode(nonce),
                ciphertext: base64_encode(ciphertext.as_slice()),
            },
        ),
        Err(message) => Err(Error::Encryption(prefixed("Encryption failed: ", &message))),
    }
}

/// Encrypts data with AES-256-GCM-SIV under `key` and a fresh random nonce.
///
/// The parameters in the result are fresh PBKDF2 parameters; they say
/// nothing of where `key` came from. Encryption is refused exactly for a
/// plaintext of more than 2^36 bytes; what it returns is sealed with the
/// nonce that was drawn, and opens to the plaintext under the same key.
pub fn encrypt(plaintext: &[u8], key: &EncryptionKey) -> (r: Result<EncryptedData, Error>)
    ensures
        r is Err <==> plaintext@.len() > MAX_PLAINTEXT_LEN,
        r matches Err(e) ==> e is Encryption,
        r matches Ok(encrypted) ==> opened(encrypted@, key@) == Some(plaintext@) && is_fresh_pbkdf2(
            encrypted@.kdf_params,
        ) && exists|nonce: Seq<u8>| sealed(encrypted@, key@, nonce, plaintext@),
{
    let nonce = random_nonce();
    let r = encrypt_with_nonce(plaintext, key, KdfParams::default(), nonce.as_slice());
    proof {
        if r is Ok {
            assert(sealed(r->Ok_0@, key@, nonce@, plaintext@));
        }
    }
    r
}

/// Encrypts data under a key derived from `password` with `kdf_params`,
/// and the nonce `nonce`.
///
/// It fails, with an `Encryption` error, exactly where no key can be
/// derived, the nonce is not 12 bytes, or the plaintext is longer than 2^36
/// bytes. What it returns records `kdf_params`, carries the Base64 of
/// `nonce`, and opens to the plaintext with the same password.
pub fn encrypt_with_password_and_nonce(
    plaintext: &[u8],
    password: &str,
    kdf_params: KdfParams,
    nonce: &[u8],
) -> (r: Result<EncryptedData, Error>)
    ensures
        r is Err <==> derived_key(password@, kdf_params@) is None || nonce@.len() != NONCE_SIZE
            || plaintext@.len() > MAX_PLAINTEXT_LEN,
        r matches Err(e) ==> e is Encryption,
        r matches Ok(encrypted) ==> encrypted@.kdf_params == kdf_params@ && sealed(
            encrypted@,
            derived_key(password@, kdf_params@)->0,
            nonce@,
            plaintext@,
        ) && opened_with_password(encrypted@, password@) == Some(plaintext@),
{
    let key = match derive_key(password, &kdf_params) {
        Ok(key) => key,
        Err(e) => {
            return Err(e);
        },
    };
    encrypt_with_nonce(plaintext, &key, kdf_params, nonce)
}

/// Whether `encrypted` is what encrypting `plaintext` under `password` with
/// some drawn nonce gives.
pub open spec fn sealed_with_password(
    encrypted: EncryptedDataView,
    password: Seq<char>,
    plaintext: Seq<u8>,
) -> bool {
    derived_key(password, encrypted.kdf_params) matches Some(key) && exists|nonce: Seq<u8>|
        sealed(encrypted, key, nonce, plaintext)
}

/// Encrypts data under a key derived from `password` with `kdf_params`.
///
/// It fails, with an `Encryption` error, exactly where no key can be derived
/// or the plaintext is longer than 2^36 bytes. What it returns records
/// `kdf_params`, is sealed with the nonce that was drawn, and opens to the
/// plaintext with the same password.
pub fn encrypt_with_password_and_kdf(plaintext: &[u8], password: &str, kdf_params: KdfParams) -> (r:
    Result<EncryptedData, Error>)
    ensures
        r is Err <==> derived_key(password@, kdf_params@) is None || plaintext@.len()
            > MAX_PLAINTEXT_LEN,
        r matches Err(e) ==> e is Encryption,
        r matches Ok(encrypted) ==> encrypted@.kdf_params == kdf_params@ && sealed_with_password(
            encrypted@,
            password@,
            plaintext@,
        ) && opened_with_password(encrypted@, password@) == Some(plaintext@),
{
    let nonce = random_nonce();
    let r = encrypt_with_password_and_nonce(plaintext, password, kdf_params, nonce.as_slice());
    proof {
        if r is Ok {
            assert(sealed(
                r->Ok_0@,
                derived_key(password@, kdf_params@)->0,
                nonce@,
                plaintext@,
            ));
        }
    }
    r
}

/// Encrypts data under a key derived from `password` with fresh PBKDF2
/// parameters.
///
/// It succeeds for every plaintext of at most 2^36 bytes, and what it
/// returns opens to the plaintext with the same password.
pub fn encrypt_with_password(plaintext: &[u8], password: &str) -> (r: Result<EncryptedData, Error>)
    ensures
        r is Err <==> plaintext@.len() > MAX_PLAINTEXT_LEN,
        r matches Err(e) ==> e is Encryption,
        r matches Ok(encrypted) ==> is_fresh_pbkdf2(encrypted@.kdf_params) && sealed_with_password(
            encrypted@,
            password@,
            plaintext@,
        ) && opened_with_password(encrypted@, password@) == Some(plaintext@),
{
    let kdf_params = KdfParams::default();
    encrypt_with_password_and_kdf(plaintext, password, kdf_params)
}

/// Decrypts data with AES-256-GCM-SIV under `key`.
///
/// It returns the plaintext exactly where `opened` names one. Data that is
/// well formed but does not authenticate under the key is answered with
/// `InvalidPassword`; a nonce or ciphertext that is not Base64, and a nonce
/// that is not 12 bytes, with a `Decryption` error.
pub fn decrypt(encrypted: &EncryptedData, key: &EncryptionKey) -> (r: Result<Vec<u8>, Error>)
    ensures
        match r {
            Ok(plaintext) => opened(encrypted@, key@) == Some(plaintext@),
            Err(e) => opened(encrypted@, key@) is None && is_decrypt_failure(encrypted@, e),
        },
{
    let nonce = match base64_decode(encrypted.nonce.as_str()) {
        Ok(nonce) => nonce,
        Err(message) => {
            return Err(Error::Decryption(prefixed("Invalid nonce: ", &message)));
        },
    };
    if nonce.len() != NONCE_SIZE {
        return Err(
            Error::Decryption(size_message("Invalid nonce size: expected 12, got ", nonce.len())),
        );
    }
    let ciphertext = match base64_decode(encrypted.ciphertext.as_str()) {
        Ok(ciphertext) => ciphertext,
        Err(message) => {
            return Err(Error::Decryption(prefixed("Invalid ciphertext: ", &message)));
        },
    };
    match aead_decrypt(key.as_bytes(), nonce.as_slice(), ciphertext.as_slice()) {
        Ok(plaintext) => Ok(plaintext),
        Err(_) => Err(Error::InvalidPassword),
    }
}

/// Decrypts data with a key derived from `password`.
///
/// It returns the plaintext exactly where `opened_with_password` names one.
/// Where no key can be derived the error is an `Encryption` error. Where
/// the data is well formed but does not authenticate under the derived
/// key, the error is `InvalidPassword`; malformed data is a `Decryption`
/// error.
pub fn decrypt_with_password(encrypted: &EncryptedData, password: &str) -> (r: Result<
    Vec<u8>,
    Error,
>)
    ensures
        match r {
            Ok(plaintext) => opened_with_password(encrypted@, password@) == Some(plaintext@),
            Err(e) => opened_with_password(encrypted@, password@) is None && (if derived_key(
                password@,
                encrypted@.kdf_params,
            ) is None {
                e is Encryption
            } else {
                is_decrypt_failure(encrypted@, e)
            }),
        },
{
    let key = match derive_key(password, &encrypted.kdf_params) {
        Ok(key) => key,
        Err(e) => {
            return Err(e);
        },
    };
    decrypt(encrypted, &key)
}

} // verus!
