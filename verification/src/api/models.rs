//! The shapes of requests and responses, and the session record.

use vstd::prelude::*;
use vstd::string::*;
use crate::clock::{new_uuid, Timestamp};
use crate::models::{
    CardData, CardDataView, CustomField, CustomFieldView, IdentityData, IdentityDataView, ItemType,
    LoginData, LoginDataView, SecureNoteData,
};

verus! {

/// The longest unlock timeout, in seconds: what still counts in
/// milliseconds in 63 bits.
pub const MAX_TIMEOUT_SECS: u64 = 9_223_372_036_854_775;

/// The body of a request to unlock.
#[derive(Debug, Clone)]
pub struct UnlockRequest {
    pub password: String,
}

/// A short account of the unlocked vault.
#[derive(Debug, Clone, Copy, PartialEq, Eq, Structural)]
pub struct VaultSummary {
    pub item_count: usize,
    pub folder_count: usize,
    pub last_sync: Option<Timestamp>,
}

/// The answer to a request to unlock.
#[derive(Debug, Clone)]
pub struct UnlockResponse {
    pub token: String,
    pub expires_at: Timestamp,
    pub vault_summary: VaultSummary,
}

/// The answer to a request for the status, and to a request to lock.
#[derive(Debug, Clone, Copy, PartialEq, Eq, Structural)]
pub struct StatusResponse {
    pub locked: bool,
    pub session_valid: bool,
    pub vault_exists: bool,
}

/// The body of a request to generate a password. What is left out takes
/// its default: 16 characters, of every kind, without look-alikes.
#[derive(Debug, Clone, Copy, PartialEq, Eq, Structural)]
pub struct GeneratePasswordRequest {
    pub length: Option<usize>,
    pub include_uppercase: Option<bool>,
    pub include_lowercase: Option<bool>,
    pub include_numbers: Option<bool>,
    pub include_symbols: Option<bool>,
    pub exclude_similar: Option<bool>,
}

/// How strong a password is: a score from 0 to 5, and its name.
#[derive(Debug, Clone)]
pub struct PasswordStrength {
    pub score: u8,
    pub label: String,
}

/// The answer to a request to generate a password.
#[derive(Debug, Clone)]
pub struct GeneratePasswordResponse {
    pub password: String,
    pub strength: PasswordStrength,
}

/// The answer to a request for a one-time password: the code and the
/// seconds it stays valid.
#[derive(Debug, Clone)]
pub struct TotpResponse {
    pub code: String,
    pub ttl: u64,
}

/// The query of a request to list items.
#[derive(Debug, Clone)]
pub struct ListItemsQuery {
    pub folder_id: Option<String>,
    pub search: Option<String>,
    pub domain: Option<String>,
}

/// The answer to a request to synchronise.
#[derive(Debug, Clone)]
pub struct SyncResponse {
    pub success: bool,
    pub message: String,
    pub items_synced: usize,
}

/// The answer to a request for the version.
#[derive(Debug, Clone)]
pub struct VersionResponse {
    pub version: String,
    pub build_time: Option<String>,
    pub git_commit: Option<String>,
}

/// The body of a request to create an item.
#[derive(Debug, Clone)]
pub struct CreateItemRequest {
    pub name: String,
    pub item_type: ItemType,
    pub folder_id: Option<String>,
    pub favorite: Option<bool>,
    pub notes: Option<String>,
    pub login: Option<LoginData>,
    pub card: Option<CardData>,
    pub identity: Option<IdentityData>,
    pub secure_note: Option<SecureNoteData>,
    pub fields: Option<Vec<CustomField>>,
    pub reprompt: Option<u8>,
}

/// The mathematical content of a `CreateItemRequest`.
pub ghost struct CreateItemRequestView {
    pub name: Seq<char>,
    pub item_type: ItemType,
    pub folder_id: Option<Seq<char>>,
    pub favorite: Option<bool>,
    pub notes: Option<Seq<char>>,
    pub login: Option<LoginDataView>,
    pub card: Option<CardDataView>,
    pub identity: Option<IdentityDataView>,
    pub secure_note: Option<SecureNoteData>,
    pub fields: Option<Seq<CustomFieldView>>,
    pub reprompt: Option<u8>,
}

impl DeepView for CreateItemRequest {
    type V = CreateItemRequestView;

    open spec fn deep_view(&self) -> CreateItemRequestView {
        CreateItemRequestView {
            name: self.name@,
            item_type: self.item_type,
            folder_id: self.folder_id.deep_view(),
            favorite: self.favorite,
            notes: self.notes.deep_view(),
            login: self.login.deep_view(),
            card: self.card.deep_view(),
            identity: self.identity.deep_view(),
            secure_note: self.secure_note,
            fields: self.fields.deep_view(),
            reprompt: self.reprompt,
        }
    }
}

/// The body of a request to update an item.
#[derive(Debug, Clone)]
pub struct UpdateItemRequest {
    pub name: String,
    pub item_type: ItemType,
    pub folder_id: Option<String>,
    pub favorite: Option<bool>,
    pub notes: Option<String>,
    pub login: Option<LoginData>,
    pub card: Option<CardData>,
    pub identity: Option<IdentityData>,
    pub secure_note: Option<SecureNoteData>,
    pub fields: Option<Vec<CustomField>>,
    pub reprompt: Option<u8>,
}

/// The mathematical content of an `UpdateItemRequest`.
pub ghost struct UpdateItemRequestView {
    pub name: Seq<char>,
    pub item_type: ItemType,
    pub folder_id: Option<Seq<char>>,
    pub favorite: Option<bool>,
    pub notes: Option<Seq<char>>,
    pub login: Option<LoginDataView>,
    pub card: Option<CardDataView>,
    pub identity: Option<IdentityDataView>,
    pub secure_note: Option<SecureNoteData>,
    pub fields: Option<Seq<CustomFieldView>>,
    pub reprompt: Option<u8>,
}

impl DeepView for UpdateItemRequest {
    type V = UpdateItemRequestView;

    open spec fn deep_view(&self) -> UpdateItemRequestView {
        UpdateItemRequestView {
            name: self.name@,
            item_type: self.item_type,
            folder_id: self.folder_id.deep_view(),
            favorite: self.favorite,
            notes: self.notes.deep_view(),
            login: self.login.deep_view(),
            card: self.card.deep_view(),
            identity: self.identity.deep_view(),
            secure_note: self.secure_note,
            fields: self.fields.deep_view(),
            reprompt: self.reprompt,
        }
    }
}

/// A session: a bearer token bound to the master password, with a sliding expiry.
#[derive(Debug, Clone)]
pub struct Session {
    /// The bearer token.
    pub id: String,
    pub created_at: Timestamp,
    pub expires_at: Timestamp,
    /// Held in memory to re-encrypt the vault on every save.
    pub master_password: String,
}

/// The mathematical content of a `Session`.
pub ghost struct SessionView {
    pub id: Seq<char>,
    pub created_at: Timestamp,
    pub expires_at: Timestamp,
    pub master_password: Seq<char>,
}

impl DeepView for Session {
    type V = SessionView;

    open spec fn deep_view(&self) -> SessionView {
        SessionView {
            id: self.id@,
            created_at: self.created_at,
            expires_at: self.expires_at,
            master_password: self.master_password@,
        }
    }
}

impl Session {
    /// A copy with the same content.
    pub fn duplicate(&self) -> (r: Self)
        ensures
            r.deep_view() == self.deep_view(),
    {
        Session {
            id: self.id.clone(),
            created_at: self.created_at,
            expires_at: self.expires_at,
            master_password: self.master_password.clone(),
        }
    }
}
/// The content of a session made at `now` for `timeout` seconds.
pub open spec fn fresh_session(
    id: Seq<char>,
    master_password: Seq<char>,
    now: Timestamp,
    timeout: u64,
) -> SessionView {
    SessionView { id, created_at: now, expires_at: now.plus(timeout), master_password }
}

impl SessionView {
    /// Whether the session has expired at `now`: `now` is strictly later
    /// than the expiry.
    pub open spec fn expired_at(self, now: Timestamp) -> bool {
        now.later_than(self.expires_at)
    }

    /// The session after an access at `now`: it expires `timeout` seconds
    /// after the access.
    pub open spec fn refreshed(self, now: Timestamp, timeout: u64) -> SessionView {
        SessionView { expires_at: now.plus(timeout), ..self }
    }
}

impl Session {
    /// A session made now, under a fresh random token, that expires after
    /// `timeout` seconds.
    pub fn new(master_password: String, timeout: u64) -> (r: Self)
        requires
            timeout <= MAX_TIMEOUT_SECS,
        ensures
            r.deep_view() == fresh_session(r.id@, master_password@, r.created_at, timeout),
    {
        Session::new_at(new_uuid(), master_password, Timestamp::now(), timeout)
    }

    /// A session made at `now`, under the token `id`, that expires after
    /// `timeout` seconds.
    pub fn new_at(id: String, master_password: String, now: Timestamp, timeout: u64) -> (r: Self)
        requires
            now.secs + timeout <= i64::MAX,
        ensures
            r.deep_view() == fresh_session(id@, master_password@, now, timeout),
    {
        Session { id, created_at: now, expires_at: now.plus_secs(timeout), master_password }
    }

    /// Whether the session has expired by now.
    pub fn is_expired(&self) -> (r: bool)
        ensures
            exists|now: Timestamp| now.is_plain() && r == self.deep_view().expired_at(now),
    {
        let now = Timestamp::now();
        let r = self.is_expired_at(now);
        assert(now.is_plain() && r == self.deep_view().expired_at(now));
        r
    }

    /// Whether the session has expired at `now`.
    pub fn is_expired_at(&self, now: Timestamp) -> (r: bool)
        ensures
            r == self.deep_view().expired_at(now),
    {
        now.is_after(&self.expires_at)
    }

    /// Moves the expiry to `timeout` seconds from now.
    pub fn refresh(&mut self, timeout: u64)
        requires
            timeout <= MAX_TIMEOUT_SECS,
        ensures
            exists|now: Timestamp|
                now.is_plain() && final(self).deep_view() == old(self).deep_view().refreshed(
                    now,
                    timeout,
                ),
    {
        let now = Timestamp::now();
        self.refresh_at(now, timeout);
        assert(now.is_plain() && final(self).deep_view() == old(self).deep_view().refreshed(
            now,
            timeout,
        ));
    }

    /// Moves the expiry to `timeout` seconds from `now`.
    pub fn refresh_at(&mut self, now: Timestamp, timeout: u64)
        requires
            now.secs + timeout <= i64::MAX,
        ensures
            final(self).deep_view() == old(self).deep_view().refreshed(now, timeout),
    {
        self.expires_at = now.plus_secs(timeout);
    }
}

} // verus!
