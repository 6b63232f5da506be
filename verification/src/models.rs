//! The vault data model. Field names and type codes follow Bitwarden's
//! unencrypted JSON export for the subset both share.
//!
//! Every record has a mathematical view (`deep_view`) in which text is a
//! sequence of characters and a list is a sequence of views; the contracts
//! of this crate speak of those views.

use vstd::prelude::*;
use vstd::string::*;
use crate::clock::{new_uuid, Timestamp};
use crate::text::{duplicate_text, same_text};

verus! {

/// The schema version written into every vault.
pub const VAULT_VERSION: &'static str = "1.0.0";

/// The type code of a login.
pub const LOGIN: u8 = 1;

/// The type code of a secure note.
pub const SECURE_NOTE: u8 = 2;

/// The type code of a card.
pub const CARD: u8 = 3;

/// The type code of an identity.
pub const IDENTITY: u8 = 4;

/// The subtype code of a generic secure note.
pub const GENERIC_NOTE: u8 = 0;

/// The kind of an item: 1 login, 2 secure note, 3 card, 4 identity.
#[derive(Debug, Clone, Copy, PartialEq, Eq, Structural)]
pub struct ItemType(pub u8);

impl ItemType {
    /// A login.
    pub fn login() -> (r: Self)
        ensures
            r == ItemType(LOGIN),
    {
        ItemType(LOGIN)
    }

    /// A secure note.
    pub fn secure_note() -> (r: Self)
        ensures
            r == ItemType(SECURE_NOTE),
    {
        ItemType(SECURE_NOTE)
    }

    /// A card.
    pub fn card() -> (r: Self)
        ensures
            r == ItemType(CARD),
    {
        ItemType(CARD)
    }

    /// An identity.
    pub fn identity() -> (r: Self)
        ensures
            r == ItemType(IDENTITY),
    {
        ItemType(IDENTITY)
    }
}

/// How a URI is matched against a page: 0 base domain, 1 host, 2 starts
/// with, 3 exact, 4 regular expression, 5 never.
#[derive(Debug, Clone, Copy, PartialEq, Eq, Structural)]
pub struct UriMatchType(pub u8);

impl UriMatchType {
    /// The base domains agree.
    pub fn base_domain() -> (r: Self)
        ensures
            r == UriMatchType(0),
    {
        UriMatchType(0)
    }

    /// The hosts agree.
    pub fn host() -> (r: Self)
        ensures
            r == UriMatchType(1),
    {
        UriMatchType(1)
    }

    /// The page's address starts with the URI.
    pub fn starts_with() -> (r: Self)
        ensures
            r == UriMatchType(2),
    {
        UriMatchType(2)
    }

    /// The addresses are the same.
    pub fn exact() -> (r: Self)
        ensures
            r == UriMatchType(3),
    {
        UriMatchType(3)
    }

    /// The URI is a regular expression that the address matches.
    pub fn regex() -> (r: Self)
        ensures
            r == UriMatchType(4),
    {
        UriMatchType(4)
    }

    /// The URI is never matched.
    pub fn never() -> (r: Self)
        ensures
            r == UriMatchType(5),
    {
        UriMatchType(5)
    }
}

/// The subtype of a secure note: 0 generic.
#[derive(Debug, Clone, Copy, PartialEq, Eq, Structural)]
pub struct SecureNoteType(pub u8);

impl SecureNoteType {
    /// A generic note.
    pub fn generic() -> (r: Self)
        ensures
            r == SecureNoteType(GENERIC_NOTE),
    {
        SecureNoteType(GENERIC_NOTE)
    }
}

impl Default for SecureNoteType {
    fn default() -> (r: Self)
        ensures
            r == SecureNoteType(GENERIC_NOTE),
    {
        SecureNoteType(GENERIC_NOTE)
    }
}

/// The kind of a custom field: 0 text, 1 hidden, 2 boolean.
#[derive(Debug, Clone, Copy, PartialEq, Eq, Structural)]
pub struct FieldType(pub u8);

impl FieldType {
    /// Plain text.
    pub fn text() -> (r: Self)
        ensures
            r == FieldType(0),
    {
        FieldType(0)
    }

    /// Text that is not shown.
    pub fn hidden() -> (r: Self)
        ensures
            r == FieldType(1),
    {
        FieldType(1)
    }

    /// A yes or a no.
    pub fn boolean() -> (r: Self)
        ensures
            r == FieldType(2),
    {
        FieldType(2)
    }
}

/// The payload of a secure note.
#[derive(Debug, Clone, Copy, PartialEq, Eq, Structural)]
pub struct SecureNoteData {
    pub type_: SecureNoteType,
}

impl DeepView for SecureNoteData {
    type V = SecureNoteData;

    open spec fn deep_view(&self) -> SecureNoteData {
        *self
    }
}

impl SecureNoteData {
    /// A copy with the same content.
    pub fn duplicate(&self) -> (r: Self)
        ensures
            r.deep_view() == self.deep_view(),
    {
        *self
    }
}

/// When and how the vault is synchronised.
#[derive(Debug, Clone, Copy, PartialEq, Eq, Structural)]
pub enum SyncMode {
    /// Synchronise only when asked.
    Manual,
    /// Pull from the remote every `interval_seconds`, and push after every
    /// change of the vault.
    Auto { interval_seconds: u64 },
}

impl SyncMode {
    /// Whether pulls are scheduled.
    pub fn is_auto_pull(&self) -> (r: bool)
        ensures
            r == (*self is Auto),
    {
        match self {
            SyncMode::Auto { .. } => true,
            SyncMode::Manual => false,
        }
    }

    /// Whether a change of the vault triggers an immediate push.
    pub fn is_push_on_change(&self) -> (r: bool)
        ensures
            r == (*self is Auto),
    {
        match self {
            SyncMode::Auto { .. } => true,
            SyncMode::Manual => false,
        }
    }

    /// The seconds between two scheduled pulls, if pulls are scheduled.
    pub fn interval_seconds(&self) -> (r: Option<u64>)
        ensures
            r == match *self {
                SyncMode::Auto { interval_seconds } => Some(interval_seconds),
                SyncMode::Manual => None::<u64>,
            },
    {
        match self {
            SyncMode::Auto { interval_seconds } => Some(*interval_seconds),
            SyncMode::Manual => None,
        }
    }
}

/// Synchronisation settings: a switch and a mode.
#[derive(Debug, Clone, Copy, PartialEq, Eq, Structural)]
pub struct SyncConfig {
    pub enabled: bool,
    pub mode: SyncMode,
}

impl DeepView for SyncConfig {
    type V = SyncConfig;

    open spec fn deep_view(&self) -> SyncConfig {
        *self
    }
}

impl SyncConfig {
    /// Synchronisation switched off.
    pub fn disabled() -> (r: Self)
        ensures
            r == (SyncConfig { enabled: false, mode: SyncMode::Manual }),
    {
        SyncConfig { enabled: false, mode: SyncMode::Manual }
    }

    /// Synchronisation on request only.
    pub fn manual() -> (r: Self)
        ensures
            r == (SyncConfig { enabled: true, mode: SyncMode::Manual }),
    {
        SyncConfig { enabled: true, mode: SyncMode::Manual }
    }

    /// Automatic synchronisation: a pull every `interval_seconds` and a push
    /// after every change.
    pub fn auto(interval_seconds: u64) -> (r: Self)
        ensures
            r == (SyncConfig { enabled: true, mode: SyncMode::Auto { interval_seconds } }),
    {
        SyncConfig { enabled: true, mode: SyncMode::Auto { interval_seconds } }
    }

    /// Scheduled pulls. The automatic mode is the only one that schedules
    /// them, so this is `auto`.
    pub fn auto_pull(interval_seconds: u64) -> (r: Self)
        ensures
            r == (SyncConfig { enabled: true, mode: SyncMode::Auto { interval_seconds } }),
    {
        SyncConfig::auto(interval_seconds)
    }

    /// Scheduled pulls and a push after every change: this is `auto`.
    pub fn full(interval_seconds: u64) -> (r: Self)
        ensures
            r == (SyncConfig { enabled: true, mode: SyncMode::Auto { interval_seconds } }),
    {
        SyncConfig::auto(interval_seconds)
    }

    /// Whether a scheduler has pulls to run under these settings.
    pub open spec fn wants_scheduled_pull(self) -> bool {
        self.enabled && self.mode is Auto
    }

    /// Whether a change of the vault is to be committed and pushed at once
    /// under these settings.
    pub open spec fn wants_push_on_change(self) -> bool {
        self.enabled && self.mode is Auto
    }
}

impl Default for SyncConfig {
    fn default() -> (r: Self)
        ensures
            r == (SyncConfig { enabled: true, mode: SyncMode::Manual }),
    {
        SyncConfig::manual()
    }
}

/// A folder for organising items.
#[derive(Debug, Clone)]
pub struct Folder {
    pub id: String,
    pub name: String,
}

/// The mathematical content of a `Folder`.
pub ghost struct FolderView {
    pub id: Seq<char>,
    pub name: Seq<char>,
}

impl DeepView for Folder {
    type V = FolderView;

    open spec fn deep_view(&self) -> FolderView {
        FolderView {
            id: self.id@,
            name: self.name@,
        }
    }
}

impl Folder {
    /// A copy with the same content.
    pub fn duplicate(&self) -> (r: Self)
        ensures
            r.deep_view() == self.deep_view(),
    {
        Folder {
            id: self.id.clone(),
            name: self.name.clone(),
        }
    }
}
/// A URI of a login, with its match policy.
#[derive(Debug, Clone)]
pub struct LoginUri {
    pub uri: String,
    pub match_type: Option<UriMatchType>,
}

/// The mathematical content of a `LoginUri`.
pub ghost struct LoginUriView {
    pub uri: Seq<char>,
    pub match_type: Option<UriMatchType>,
}

impl DeepView for LoginUri {
    type V = LoginUriView;

    open spec fn deep_view(&self) -> LoginUriView {
        LoginUriView {
            uri: self.uri@,
            match_type: self.match_type,
        }
    }
}

impl LoginUri {
    /// A copy with the same content.
    pub fn duplicate(&self) -> (r: Self)
        ensures
            r.deep_view() == self.deep_view(),
    {
        LoginUri {
            uri: self.uri.clone(),
            match_type: self.match_type,
        }
    }
}
/// A copy of a list of URIs.
pub fn duplicate_uris(list: &Vec<LoginUri>) -> (r: Vec<LoginUri>)
    ensures
        r.deep_view() == list.deep_view(),
{
    let mut r: Vec<LoginUri> = Vec::new();
    let mut i: usize = 0;
    while i < list.len()
        invariant
            i <= list.len(),
            r.len() == i,
            forall|k: int| 0 <= k < i ==> r[k].deep_view() == list[k].deep_view(),
        decreases list.len() - i,
    {
        r.push(list[i].duplicate());
        i = i + 1;
    }
    assert(r.deep_view() =~= list.deep_view());
    r
}
/// The payload of a login.
#[derive(Debug, Clone)]
pub struct LoginData {
    pub username: Option<String>,
    pub password: Option<String>,
    /// The one-time password secret: Base32 text or an `otpauth://` URI.
    pub totp: Option<String>,
    pub uris: Option<Vec<LoginUri>>,
}

/// The mathematical content of a `LoginData`.
pub ghost struct LoginDataView {
    pub username: Option<Seq<char>>,
    pub password: Option<Seq<char>>,
    pub totp: Option<Seq<char>>,
    pub uris: Option<Seq<LoginUriView>>,
}

impl DeepView for LoginData {
    type V = LoginDataView;

    open spec fn deep_view(&self) -> LoginDataView {
        LoginDataView {
            username: self.username.deep_view(),
            password: self.password.deep_view(),
            totp: self.totp.deep_view(),
            uris: self.uris.deep_view(),
        }
    }
}

impl LoginData {
    /// A copy with the same content.
    pub fn duplicate(&self) -> (r: Self)
        ensures
            r.deep_view() == self.deep_view(),
    {
        LoginData {
            username: duplicate_text(&self.username),
            password: duplicate_text(&self.password),
            totp: duplicate_text(&self.totp),
            uris: match &self.uris {
                Some(list) => Some(duplicate_uris(list)),
                None => None,
            },
        }
    }
}
impl Default for LoginData {
    fn default() -> (r: Self)
        ensures
            r.deep_view() == (LoginDataView {
                username: None,
                password: None,
                totp: None,
                uris: None,
            }),
    {
        LoginData { username: None, password: None, totp: None, uris: None }
    }
}

/// The payload of a card.
#[derive(Debug, Clone)]
pub struct CardData {
    pub cardholder_name: Option<String>,
    pub number: Option<String>,
    pub exp_month: Option<String>,
    pub exp_year: Option<String>,
    pub code: Option<String>,
    pub brand: Option<String>,
}

/// The mathematical content of a `CardData`.
pub ghost struct CardDataView {
    pub cardholder_name: Option<Seq<char>>,
    pub number: Option<Seq<char>>,
    pub exp_month: Option<Seq<char>>,
    pub exp_year: Option<Seq<char>>,
    pub code: Option<Seq<char>>,
    pub brand: Option<Seq<char>>,
}

impl DeepView for CardData {
    type V = CardDataView;

    open spec fn deep_view(&self) -> CardDataView {
        CardDataView {
            cardholder_name: self.cardholder_name.deep_view(),
            number: self.number.deep_view(),
            exp_month: self.exp_month.deep_view(),
            exp_year: self.exp_year.deep_view(),
            code: self.code.deep_view(),
            brand: self.brand.deep_view(),
        }
    }
}

impl CardData {
    /// A copy with the same content.
    pub fn duplicate(&self) -> (r: Self)
        ensures
            r.deep_view() == self.deep_view(),
    {
        CardData {
            cardholder_name: duplicate_text(&self.cardholder_name),
            number: duplicate_text(&self.number),
            exp_month: duplicate_text(&self.exp_month),
            exp_year: duplicate_text(&self.exp_year),
            code: duplicate_text(&self.code),
            brand: duplicate_text(&self.brand),
        }
    }
}
/// The payload of an identity.
#[derive(Debug, Clone)]
pub struct IdentityData {
    pub title: Option<String>,
    pub first_name: Option<String>,
    pub middle_name: Option<String>,
    pub last_name: Option<String>,
    pub email: Option<String>,
    pub phone: Option<String>,
    pub address1: Option<String>,
    pub address2: Option<String>,
    pub address3: Option<String>,
    pub city: Option<String>,
    pub state: Option<String>,
    pub postal_code: Option<String>,
    pub country: Option<String>,
}

/// The mathematical content of an `IdentityData`.
pub ghost struct IdentityDataView {
    pub title: Option<Seq<char>>,
    pub first_name: Option<Seq<char>>,
    pub middle_name: Option<Seq<char>>,
    pub last_name: Option<Seq<char>>,
    pub email: Option<Seq<char>>,
    pub phone: Option<Seq<char>>,
    pub address1: Option<Seq<char>>,
    pub address2: Option<Seq<char>>,
    pub address3: Option<Seq<char>>,
    pub city: Option<Seq<char>>,
    pub state: Option<Seq<char>>,
    pub postal_code: Option<Seq<char>>,
    pub country: Option<Seq<char>>,
}

impl DeepView for IdentityData {
    type V = IdentityDataView;

    open spec fn deep_view(&self) -> IdentityDataView {
        IdentityDataView {
            title: self.title.deep_view(),
            first_name: self.first_name.deep_view(),
            middle_name: self.middle_name.deep_view(),
            last_name: self.last_name.deep_view(),
            email: self.email.deep_view(),
            phone: self.phone.deep_view(),
            address1: self.address1.deep_view(),
            address2: self.address2.deep_view(),
            address3: self.address3.deep_view(),
            city: self.city.deep_view(),
            state: self.state.deep_view(),
            postal_code: self.postal_code.deep_view(),
            country: self.country.deep_view(),
        }
    }
}

impl IdentityData {
    /// A copy with the same content.
    pub fn duplicate(&self) -> (r: Self)
        ensures
            r.deep_view() == self.deep_view(),
    {
        IdentityData {
            title: duplicate_text(&self.title),
            first_name: duplicate_text(&self.first_name),
            middle_name: duplicate_text(&self.middle_name),
            last_name: duplicate_text(&self.last_name),
            email: duplicate_text(&self.email),
            phone: duplicate_text(&self.phone),
            address1: duplicate_text(&self.address1),
            address2: duplicate_text(&self.address2),
            address3: duplicate_text(&self.address3),
            city: duplicate_text(&self.city),
            state: duplicate_text(&self.state),
            postal_code: duplicate_text(&self.postal_code),
            country: duplicate_text(&self.country),
        }
    }
}
/// A custom field of an item.
#[derive(Debug, Clone)]
pub struct CustomField {
    pub name: String,
    pub value: String,
    pub field_type: FieldType,
}

/// The mathematical content of a `CustomField`.
pub ghost struct CustomFieldView {
    pub name: Seq<char>,
    pub value: Seq<char>,
    pub field_type: FieldType,
}

impl DeepView for CustomField {
    type V = CustomFieldView;

    open spec fn deep_view(&self) -> CustomFieldView {
        CustomFieldView {
            name: self.name@,
            value: self.value@,
            field_type: self.field_type,
        }
    }
}

impl CustomField {
    /// A copy with the same content.
    pub fn duplicate(&self) -> (r: Self)
        ensures
            r.deep_view() == self.deep_view(),
    {
        CustomField {
            name: self.name.clone(),
            value: self.value.clone(),
            field_type: self.field_type,
        }
    }
}
/// A copy of a list of custom fields.
pub fn duplicate_fields(list: &Vec<CustomField>) -> (r: Vec<CustomField>)
    ensures
        r.deep_view() == list.deep_view(),
{
    let mut r: Vec<CustomField> = Vec::new();
    let mut i: usize = 0;
    while i < list.len()
        invariant
            i <= list.len(),
            r.len() == i,
            forall|k: int| 0 <= k < i ==> r[k].deep_view() == list[k].deep_view(),
        decreases list.len() - i,
    {
        r.push(list[i].duplicate());
        i = i + 1;
    }
    assert(r.deep_view() =~= list.deep_view());
    r
}
/// An entry of the vault. The payload that belongs to its type is filled in; the others are absent.
#[derive(Debug, Clone)]
pub struct Item {
    /// A UUID in text form; it never changes.
    pub id: String,
    pub item_type: ItemType,
    pub name: String,
    pub folder_id: Option<String>,
    pub favorite: bool,
    pub notes: Option<String>,
    pub login: Option<LoginData>,
    pub card: Option<CardData>,
    pub identity: Option<IdentityData>,
    pub secure_note: Option<SecureNoteData>,
    pub fields: Option<Vec<CustomField>>,
    pub reprompt: Option<u8>,
    pub creation_date: Timestamp,
    pub revision_date: Timestamp,
}

/// The mathematical content of an `Item`.
pub ghost struct ItemView {
    pub id: Seq<char>,
    pub item_type: ItemType,
    pub name: Seq<char>,
    pub folder_id: Option<Seq<char>>,
    pub favorite: bool,
    pub notes: Option<Seq<char>>,
    pub login: Option<LoginDataView>,
    pub card: Option<CardDataView>,
    pub identity: Option<IdentityDataView>,
    pub secure_note: Option<SecureNoteData>,
    pub fields: Option<Seq<CustomFieldView>>,
    pub reprompt: Option<u8>,
    pub creation_date: Timestamp,
    pub revision_date: Timestamp,
}

impl DeepView for Item {
    type V = ItemView;

    open spec fn deep_view(&self) -> ItemView {
        ItemView {
            id: self.id@,
            item_type: self.item_type,
            name: self.name@,
            folder_id: self.folder_id.deep_view(),
            favorite: self.favorite,
            notes: self.notes.deep_view(),
            login: self.login.deep_view(),
            card: self.card.deep_view(),
            identity: self.identity.deep_view(),
            secure_note: self.secure_note,
            fields: self.fields.deep_view(),
            reprompt: self.reprompt,
            creation_date: self.creation_date,
            revision_date: self.revision_date,
        }
    }
}

impl Item {
    /// A copy with the same content.
    pub fn duplicate(&self) -> (r: Self)
        ensures
            r.deep_view() == self.deep_view(),
    {
        Item {
            id: self.id.clone(),
            item_type: self.item_type,
            name: self.name.clone(),
            folder_id: duplicate_text(&self.folder_id),
            favorite: self.favorite,
            notes: duplicate_text(&self.notes),
            login: match &self.login {
                Some(inner) => Some(inner.duplicate()),
                None => None,
            },
            card: match &self.card {
                Some(inner) => Some(inner.duplicate()),
                None => None,
            },
            identity: match &self.identity {
                Some(inner) => Some(inner.duplicate()),
                None => None,
            },
            secure_note: self.secure_note,
            fields: match &self.fields {
                Some(list) => Some(duplicate_fields(list)),
                None => None,
            },
            reprompt: self.reprompt,
            creation_date: self.creation_date,
            revision_date: self.revision_date,
        }
    }
}
/// A copy of a list of items.
pub fn duplicate_items(list: &Vec<Item>) -> (r: Vec<Item>)
    ensures
        r.deep_view() == list.deep_view(),
{
    let mut r: Vec<Item> = Vec::new();
    let mut i: usize = 0;
    while i < list.len()
        invariant
            i <= list.len(),
            r.len() == i,
            forall|k: int| 0 <= k < i ==> r[k].deep_view() == list[k].deep_view(),
        decreases list.len() - i,
    {
        r.push(list[i].duplicate());
        i = i + 1;
    }
    assert(r.deep_view() =~= list.deep_view());
    r
}
/// A copy of a list of folders.
pub fn duplicate_folders(list: &Vec<Folder>) -> (r: Vec<Folder>)
    ensures
        r.deep_view() == list.deep_view(),
{
    let mut r: Vec<Folder> = Vec::new();
    let mut i: usize = 0;
    while i < list.len()
        invariant
            i <= list.len(),
            r.len() == i,
            forall|k: int| 0 <= k < i ==> r[k].deep_view() == list[k].deep_view(),
        decreases list.len() - i,
    {
        r.push(list[i].duplicate());
        i = i + 1;
    }
    assert(r.deep_view() =~= list.deep_view());
    r
}
/// The vault: folders and items in order, the schema version, the time of the last change and the synchronisation settings.
#[derive(Debug, Clone)]
pub struct Vault {
    pub encrypted: bool,
    pub folders: Vec<Folder>,
    pub items: Vec<Item>,
    pub version: String,
    /// The time of the last change; it never goes back.
    pub sync_time: Timestamp,
    pub sync_config: Option<SyncConfig>,
}

/// The mathematical content of a `Vault`.
pub ghost struct VaultView {
    pub encrypted: bool,
    pub folders: Seq<FolderView>,
    pub items: Seq<ItemView>,
    pub version: Seq<char>,
    pub sync_time: Timestamp,
    pub sync_config: Option<SyncConfig>,
}

impl DeepView for Vault {
    type V = VaultView;

    open spec fn deep_view(&self) -> VaultView {
        VaultView {
            encrypted: self.encrypted,
            folders: self.folders.deep_view(),
            items: self.items.deep_view(),
            version: self.version@,
            sync_time: self.sync_time,
            sync_config: self.sync_config,
        }
    }
}

impl Vault {
    /// A copy with the same content.
    pub fn duplicate(&self) -> (r: Self)
        ensures
            r.deep_view() == self.deep_view(),
    {
        Vault {
            encrypted: self.encrypted,
            folders: duplicate_folders(&self.folders),
            items: duplicate_items(&self.items),
            version: self.version.clone(),
            sync_time: self.sync_time,
            sync_config: self.sync_config,
        }
    }
}
/// A new, empty folder's content.
pub open spec fn folder_named(id: Seq<char>, name: Seq<char>) -> FolderView {
    FolderView { id, name }
}

impl Folder {
    /// A folder called `name`, under a fresh random identifier.
    pub fn new(name: &str) -> (r: Self)
        ensures
            r.deep_view() == folder_named(r.id@, name@),
    {
        Folder::with_id(new_uuid(), name)
    }

    /// A folder called `name`, under the identifier `id`.
    pub fn with_id(id: String, name: &str) -> (r: Self)
        ensures
            r.deep_view() == folder_named(id@, name@),
    {
        Folder { id, name: String::from_str(name) }
    }
}

/// The content of a login item as it is created: an empty login payload,
/// nothing else, and both dates at the time of creation.
pub open spec fn blank_login(id: Seq<char>, name: Seq<char>, now: Timestamp) -> ItemView {
    ItemView {
        id,
        item_type: ItemType(LOGIN),
        name,
        folder_id: None,
        favorite: false,
        notes: None,
        login: Some(LoginDataView { username: None, password: None, totp: None, uris: None }),
        card: None,
        identity: None,
        secure_note: None,
        fields: None,
        reprompt: None,
        creation_date: now,
        revision_date: now,
    }
}

/// The content of a secure note as it is created: a generic note payload,
/// nothing else, and both dates at the time of creation.
pub open spec fn blank_secure_note(id: Seq<char>, name: Seq<char>, now: Timestamp) -> ItemView {
    ItemView {
        id,
        item_type: ItemType(SECURE_NOTE),
        name,
        folder_id: None,
        favorite: false,
        notes: None,
        login: None,
        card: None,
        identity: None,
        secure_note: Some(SecureNoteData { type_: SecureNoteType(GENERIC_NOTE) }),
        fields: None,
        reprompt: None,
        creation_date: now,
        revision_date: now,
    }
}

impl Item {
    /// A login called `name`, under a fresh random identifier, created now.
    pub fn new_login(name: &str) -> (r: Self)
        ensures
            r.deep_view() == blank_login(r.id@, name@, r.creation_date),
    {
        Item::new_login_with(new_uuid(), name, Timestamp::now())
    }

    /// A login called `name`, under the identifier `id`, created at `now`.
    pub fn new_login_with(id: String, name: &str, now: Timestamp) -> (r: Self)
        ensures
            r.deep_view() == blank_login(id@, name@, now),
    {
        Item {
            id,
            item_type: ItemType(LOGIN),
            name: String::from_str(name),
            folder_id: None,
            favorite: false,
            notes: None,
            login: Some(LoginData::default()),
            card: None,
            identity: None,
            secure_note: None,
            fields: None,
            reprompt: None,
            creation_date: now,
            revision_date: now,
        }
    }

    /// A secure note called `name`, under a fresh random identifier, created
    /// now.
    pub fn new_secure_note(name: &str) -> (r: Self)
        ensures
            r.deep_view() == blank_secure_note(r.id@, name@, r.creation_date),
    {
        Item::new_secure_note_with(new_uuid(), name, Timestamp::now())
    }

    /// A secure note called `name`, under the identifier `id`, created at
    /// `now`.
    pub fn new_secure_note_with(id: String, name: &str, now: Timestamp) -> (r: Self)
        ensures
            r.deep_view() == blank_secure_note(id@, name@, now),
    {
        Item {
            id,
            item_type: ItemType(SECURE_NOTE),
            name: String::from_str(name),
            folder_id: None,
            favorite: false,
            notes: None,
            login: None,
            card: None,
            identity: None,
            secure_note: Some(SecureNoteData { type_: SecureNoteType(GENERIC_NOTE) }),
            fields: None,
            reprompt: None,
            creation_date: now,
            revision_date: now,
        }
    }
}

// ---------------------------------------------------------------------------
// The vault as a mathematical object
// ---------------------------------------------------------------------------

/// Whether some item of `items` has the identifier `id`.
pub open spec fn has_item(items: Seq<ItemView>, id: Seq<char>) -> bool {
    exists|i: int| 0 <= i < items.len() && #[trigger] items[i].id == id
}

/// Whether `i` is the place of the first item of `items` with the
/// identifier `id`.
pub open spec fn is_first_item(items: Seq<ItemView>, id: Seq<char>, i: int) -> bool {
    &&& 0 <= i < items.len()
    &&& items[i].id == id
    &&& forall|j: int| 0 <= j < i ==> #[trigger] items[j].id != id
}

/// The place of the first item of `items` with the identifier `id`; only
/// meaningful where there is one.
pub open spec fn item_position(items: Seq<ItemView>, id: Seq<char>) -> int {
    choose|i: int| is_first_item(items, id, i)
}

/// Whether some folder of `folders` has the identifier `id`.
pub open spec fn has_folder(folders: Seq<FolderView>, id: Seq<char>) -> bool {
    exists|i: int| 0 <= i < folders.len() && #[trigger] folders[i].id == id
}

/// The vault's invariant: no two items share an identifier, and an item
/// that names a folder names one that exists.
pub open spec fn vault_wf(v: VaultView) -> bool {
    &&& forall|i: int, j: int|
        0 <= i < j < v.items.len() ==> #[trigger] v.items[i].id != #[trigger] v.items[j].id
    &&& forall|i: int|
        0 <= i < v.items.len() ==> (#[trigger] v.items[i].folder_id matches Some(f) ==> has_folder(
            v.folders,
            f,
        ))
}

/// An empty vault made at `now`.
pub open spec fn empty_vault(now: Timestamp) -> VaultView {
    VaultView {
        encrypted: false,
        folders: Seq::empty(),
        items: Seq::empty(),
        version: VAULT_VERSION@,
        sync_time: now,
        sync_config: None,
    }
}

/// The time of the last change after a change made at `now`: the clock's
/// time, unless the clock went back.
pub open spec fn touched(previous: Timestamp, now: Timestamp) -> Timestamp {
    if now.later_than(previous) {
        now
    } else {
        previous
    }
}

/// `v` with `item` added at the end, at `now`.
pub open spec fn with_item(v: VaultView, item: ItemView, now: Timestamp) -> VaultView {
    VaultView { items: v.items.push(item), sync_time: touched(v.sync_time, now), ..v }
}

/// `v` without its first item called `id`, at `now`; `v` itself where it has
/// no such item.
pub open spec fn without_item(v: VaultView, id: Seq<char>, now: Timestamp) -> VaultView {
    if has_item(v.items, id) {
        VaultView {
            items: v.items.remove(item_position(v.items, id)),
            sync_time: touched(v.sync_time, now),
            ..v
        }
    } else {
        v
    }
}

/// `v` with its first item called `id` replaced by `item`, at `now`. Where
/// `v` has no such item only the time of the last change moves.
pub open spec fn with_item_replaced(
    v: VaultView,
    id: Seq<char>,
    item: ItemView,
    now: Timestamp,
) -> VaultView {
    if has_item(v.items, id) {
        VaultView {
            items: v.items.update(item_position(v.items, id), item),
            sync_time: touched(v.sync_time, now),
            ..v
        }
    } else {
        VaultView { sync_time: touched(v.sync_time, now), ..v }
    }
}

/// The first place of `id` is unique.
pub proof fn lemma_first_item_unique(items: Seq<ItemView>, id: Seq<char>, i: int)
    requires
        is_first_item(items, id, i),
    ensures
        has_item(items, id),
        item_position(items, id) == i,
{
    let j = item_position(items, id);
    assert(is_first_item(items, id, j));
    if j < i {
        assert(items[j].id != id);
    }
    if i < j {
        assert(items[i].id != id);
    }
}

/// Adding an item under an unused identifier, in no folder or in one that
/// exists, keeps the vault's invariant.
pub proof fn lemma_add_keeps_wf(v: VaultView, item: ItemView, now: Timestamp)
    requires
        vault_wf(v),
        !has_item(v.items, item.id),
        item.folder_id matches Some(f) ==> has_folder(v.folders, f),
    ensures
        vault_wf(with_item(v, item, now)),
{
    let w = with_item(v, item, now);
    assert forall|i: int, j: int| 0 <= i < j < w.items.len() implies #[trigger] w.items[i].id
        != #[trigger] w.items[j].id by {
        if j == v.items.len() {
            assert(w.items[i] == v.items[i]);
            if w.items[i].id == item.id {
                assert(v.items[i].id == item.id);
                assert(has_item(v.items, item.id));
            }
        } else {
            assert(w.items[i] == v.items[i]);
            assert(w.items[j] == v.items[j]);
        }
    }
    assert forall|i: int| 0 <= i < w.items.len() implies (#[trigger] w.items[i].folder_id matches Some(
        f,
    ) ==> has_folder(w.folders, f)) by {
        if i < v.items.len() {
            assert(w.items[i] == v.items[i]);
        }
    }
}

/// Removing an item keeps the vault's invariant.
pub proof fn lemma_remove_keeps_wf(v: VaultView, id: Seq<char>, now: Timestamp)
    requires
        vault_wf(v),
    ensures
        vault_wf(without_item(v, id, now)),
        has_item(v.items, id) ==> without_item(v, id, now).items.len() + 1 == v.items.len(),
        !has_item(without_item(v, id, now).items, id),
{
    let w = without_item(v, id, now);
    if has_item(v.items, id) {
        let p = item_position(v.items, id);
        let k = choose|k: int| 0 <= k < v.items.len() && #[trigger] v.items[k].id == id;
        lemma_some_first(v.items, id, k);
        assert(is_first_item(v.items, id, p));
        assert forall|i: int, j: int| 0 <= i < j < w.items.len() implies #[trigger] w.items[i].id
            != #[trigger] w.items[j].id by {
            let oi = if i < p { i } else { i + 1 };
            let oj = if j < p { j } else { j + 1 };
            assert(w.items[i] == v.items[oi]);
            assert(w.items[j] == v.items[oj]);
        }
        assert forall|i: int| 0 <= i < w.items.len() implies (
        #[trigger] w.items[i].folder_id matches Some(f) ==> has_folder(w.folders, f)) by {
            let oi = if i < p { i } else { i + 1 };
            assert(w.items[i] == v.items[oi]);
        }
        assert forall|i: int| 0 <= i < w.items.len() implies #[trigger] w.items[i].id != id by {
            let oi = if i < p { i } else { i + 1 };
            assert(w.items[i] == v.items[oi]);
            if oi < p {
                assert(v.items[oi].id != id);
            } else {
                assert(v.items[p].id != v.items[oi].id);
            }
        }
    }
}

/// Putting an item in the place of the one called `id` keeps the vault's
/// invariant, where the new item is called `id` too and is in no folder or
/// in one that exists.
pub proof fn lemma_replace_keeps_wf(v: VaultView, id: Seq<char>, item: ItemView, now: Timestamp)
    requires
        vault_wf(v),
        has_item(v.items, id),
        item.id == id,
        item.folder_id matches Some(f) ==> has_folder(v.folders, f),
    ensures
        vault_wf(with_item_replaced(v, id, item, now)),
{
    let w = with_item_replaced(v, id, item, now);
    let k = choose|k: int| 0 <= k < v.items.len() && #[trigger] v.items[k].id == id;
    lemma_some_first(v.items, id, k);
    let p = item_position(v.items, id);
    assert(is_first_item(v.items, id, p));
    assert forall|i: int, j: int| 0 <= i < j < w.items.len() implies #[trigger] w.items[i].id
        != #[trigger] w.items[j].id by {
        assert(w.items[i].id == v.items[i].id);
        assert(w.items[j].id == v.items[j].id);
    }
    assert forall|i: int| 0 <= i < w.items.len() implies (#[trigger] w.items[i].folder_id matches Some(
        f,
    ) ==> has_folder(w.folders, f)) by {
        if i != p {
            assert(w.items[i] == v.items[i]);
        }
    }
}

/// Where some item is called `id`, there is a first one.
pub proof fn lemma_some_first(items: Seq<ItemView>, id: Seq<char>, k: int)
    requires
        0 <= k < items.len(),
        items[k].id == id,
    ensures
        is_first_item(items, id, item_position(items, id)),
        item_position(items, id) <= k,
    decreases k,
{
    if forall|j: int| 0 <= j < k ==> #[trigger] items[j].id != id {
        assert(is_first_item(items, id, k));
        lemma_first_item_unique(items, id, k);
    } else {
        let j = choose|j: int| 0 <= j < k && #[trigger] items[j].id == id;
        lemma_some_first(items, id, j);
    }
}

impl Vault {
    /// Whether the vault's invariant holds.
    pub open spec fn wf(&self) -> bool {
        vault_wf(self.deep_view())
    }

    /// An empty vault, made now.
    pub fn new() -> (r: Self)
        ensures
            r.deep_view() == empty_vault(r.sync_time),
            r.wf(),
    {
        Vault::new_at(Timestamp::now())
    }

    /// An empty vault, made at `now`.
    pub fn new_at(now: Timestamp) -> (r: Self)
        ensures
            r.deep_view() == empty_vault(now),
            r.wf(),
    {
        let r = Vault {
            encrypted: false,
            folders: Vec::new(),
            items: Vec::new(),
            version: String::from_str(VAULT_VERSION),
            sync_time: now,
            sync_config: None,
        };
        assert(r.deep_view().folders =~= Seq::empty());
        assert(r.deep_view().items =~= Seq::empty());
        r
    }

    /// Adds `item` at the end, now.
    pub fn add_item(&mut self, item: Item)
        ensures
            final(self).deep_view() == with_item(
                old(self).deep_view(),
                item.deep_view(),
                final(self).sync_time,
            ),
            final(self).sync_time.at_or_after(old(self).sync_time),
    {
        self.add_item_at(item, Timestamp::now());
    }

    /// Adds `item` at the end, at `now`. The time of the last change never
    /// goes back.
    pub fn add_item_at(&mut self, item: Item, now: Timestamp)
        ensures
            final(self).deep_view() == with_item(old(self).deep_view(), item.deep_view(), now),
            final(self).sync_time.at_or_after(old(self).sync_time),
    {
        self.items.push(item);
        self.sync_time = now.latest(self.sync_time);
        assert(final(self).deep_view().items =~= old(self).deep_view().items.push(
            item.deep_view(),
        ));
    }

    /// The place of the first item called `id`.
    pub fn position(&self, id: &str) -> (r: Option<usize>)
        ensures
            match r {
                Some(i) => is_first_item(self.deep_view().items, id@, i as int),
                None => !has_item(self.deep_view().items, id@),
            },
    {
        let mut i: usize = 0;
        while i < self.items.len()
            invariant
                i <= self.items.len(),
                forall|j: int| 0 <= j < i ==> #[trigger] self.deep_view().items[j].id != id@,
            decreases self.items.len() - i,
        {
            if same_text(self.items[i].id.as_str(), id) {
                return Some(i);
            }
            i = i + 1;
        }
        None
    }

    /// Whether the vault has a folder called `id`.
    pub fn has_folder(&self, id: &str) -> (r: bool)
        ensures
            r == has_folder(self.deep_view().folders, id@),
    {
        let mut i: usize = 0;
        while i < self.folders.len()
            invariant
                i <= self.folders.len(),
                forall|j: int| 0 <= j < i ==> #[trigger] self.deep_view().folders[j].id != id@,
            decreases self.folders.len() - i,
        {
            if same_text(self.folders[i].id.as_str(), id) {
                assert(self.deep_view().folders[i as int].id == id@);
                return true;
            }
            i = i + 1;
        }
        false
    }

    /// The first item called `id`.
    pub fn get_item(&self, id: &str) -> (r: Option<&Item>)
        ensures
            match r {
                Some(item) => has_item(self.deep_view().items, id@) && item.deep_view()
                    == self.deep_view().items[item_position(self.deep_view().items, id@)],
                None => !has_item(self.deep_view().items, id@),
            },
    {
        match self.position(id) {
            Some(i) => {
                proof {
                    lemma_first_item_unique(self.deep_view().items, id@, i as int);
                }
                Some(&self.items[i])
            },
            None => None,
        }
    }

    /// Takes the first item called `id` out of the vault, now.
    pub fn remove_item(&mut self, id: &str) -> (r: Option<Item>)
        ensures
            final(self).deep_view() == without_item(
                old(self).deep_view(),
                id@,
                final(self).sync_time,
            ),
            final(self).sync_time.at_or_after(old(self).sync_time),
            match r {
                Some(item) => has_item(old(self).deep_view().items, id@) && item.deep_view() == old(self).deep_view().items[item_position(old(self).deep_view().items, id@)],
                None => !has_item(old(self).deep_view().items, id@),
            },
    {
        self.remove_item_at(id, Timestamp::now())
    }

    /// Takes the first item called `id` out of the vault, at `now`. A vault
    /// without such an item is left as it is.
    pub fn remove_item_at(&mut self, id: &str, now: Timestamp) -> (r: Option<Item>)
        ensures
            final(self).deep_view() == without_item(old(self).deep_view(), id@, now),
            final(self).sync_time.at_or_after(old(self).sync_time),
            match r {
                Some(item) => has_item(old(self).deep_view().items, id@) && item.deep_view() == old(self).deep_view().items[item_position(old(self).deep_view().items, id@)],
                None => !has_item(old(self).deep_view().items, id@),
            },
    {
        match self.position(id) {
            Some(i) => {
                proof {
                    lemma_first_item_unique(self.deep_view().items, id@, i as int);
                }
                self.sync_time = now.latest(self.sync_time);
                let item = self.items.remove(i);
                assert(final(self).deep_view().items =~= old(self).deep_view().items.remove(
                    i as int,
                ));
                Some(item)
            },
            None => None,
        }
    }

    /// The first item called `id`, to be changed in place, at `now`. The
    /// time of the last change moves whether or not there is such an item;
    /// nothing else changes but the item that is handed out.
    pub fn get_item_mut_at(&mut self, id: &str, now: Timestamp) -> (r: Option<&mut Item>)
        ensures
            final(self).sync_time == touched(old(self).sync_time, now),
            final(self).folders == old(self).folders,
            final(self).version == old(self).version,
            final(self).encrypted == old(self).encrypted,
            final(self).sync_config == old(self).sync_config,
            match r {
                Some(item) => {
                    let place = item_position(old(self).deep_view().items, id@);
                    &&& has_item(old(self).deep_view().items, id@)
                    &&& *item == old(self).items@[place]
                    &&& final(self).items@ == old(self).items@.update(place, *final(item))
                },
                None => !has_item(old(self).deep_view().items, id@) && final(self).items == old(
                    self).items,
            },
    {
        self.sync_time = now.latest(self.sync_time);
        match self.position(id) {
            Some(i) => {
                proof {
                    lemma_first_item_unique(self.deep_view().items, id@, i as int);
                }
                Some(&mut self.items[i])
            },
            None => None,
        }
    }

    /// The first item called `id`, to be changed in place, now.
    pub fn get_item_mut(&mut self, id: &str) -> (r: Option<&mut Item>)
        ensures
            final(self).sync_time.at_or_after(old(self).sync_time),
            final(self).folders == old(self).folders,
            final(self).version == old(self).version,
            final(self).encrypted == old(self).encrypted,
            final(self).sync_config == old(self).sync_config,
            match r {
                Some(item) => {
                    let place = item_position(old(self).deep_view().items, id@);
                    &&& has_item(old(self).deep_view().items, id@)
                    &&& *item == old(self).items@[place]
                    &&& final(self).items@ == old(self).items@.update(place, *final(item))
                },
                None => !has_item(old(self).deep_view().items, id@) && final(self).items == old(
                    self).items,
            },
    {
        self.get_item_mut_at(id, Timestamp::now())
    }

    /// Puts `item` in the place of the first item called `id`, at `now`, and
    /// says whether there was such an item. The time of the last change
    /// moves either way.
    pub fn replace_item_at(&mut self, id: &str, item: Item, now: Timestamp) -> (r: bool)
        ensures
            final(self).deep_view() == with_item_replaced(
                old(self).deep_view(),
                id@,
                item.deep_view(),
                now,
            ),
            final(self).sync_time.at_or_after(old(self).sync_time),
            r == has_item(old(self).deep_view().items, id@),
    {
        self.sync_time = now.latest(self.sync_time);
        match self.position(id) {
            Some(i) => {
                proof {
                    lemma_first_item_unique(self.deep_view().items, id@, i as int);
                }
                self.items[i] = item;
                assert(final(self).deep_view().items =~= old(self).deep_view().items.update(
                    i as int,
                    item.deep_view(),
                ));
                true
            },
            None => {
                assert(final(self).deep_view().items =~= old(self).deep_view().items);
                false
            },
        }
    }
}

impl Default for Vault {
    fn default() -> (r: Self)
        ensures
            r.deep_view() == empty_vault(r.sync_time),
    {
        Vault::new()
    }
}

} // verus!
