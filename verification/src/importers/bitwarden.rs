//! Bitwarden's unencrypted JSON export, as values: turning an export into a
//! vault and a vault into an export. Reading and writing the JSON text is
//! the caller's part.

use vstd::prelude::*;
use vstd::string::*;
use crate::clock::{new_uuid, rfc3339_instant, rfc3339_text, Timestamp};
use crate::errors::Error;
use crate::models::{
    empty_vault, CardData, CardDataView, CustomField, CustomFieldView, FieldType, Folder,
    FolderView, IdentityData, IdentityDataView, Item, ItemType, ItemView, LoginData,
    LoginDataView, LoginUri, LoginUriView, SecureNoteData, SecureNoteType, UriMatchType, Vault,
    VaultView, GENERIC_NOTE,
};
use crate::text::duplicate_text;

verus! {

/// A folder of an export.
#[derive(Debug)]
pub struct BitwardenFolder {
    pub id: String,
    pub name: String,
}

impl DeepView for BitwardenFolder {
    type V = FolderView;

    open spec fn deep_view(&self) -> FolderView {
        FolderView {
            id: self.id@,
            name: self.name@,
        }
    }
}

/// A URI of a login of an export.
#[derive(Debug)]
pub struct BitwardenUri {
    pub uri: String,
    pub match_type: Option<u8>,
}

/// The mathematical content of a `BitwardenUri`.
pub ghost struct BitwardenUriView {
    pub uri: Seq<char>,
    pub match_type: Option<u8>,
}

impl DeepView for BitwardenUri {
    type V = BitwardenUriView;

    open spec fn deep_view(&self) -> BitwardenUriView {
        BitwardenUriView {
            uri: self.uri@,
            match_type: self.match_type,
        }
    }
}

/// The login payload of an item of an export.
#[derive(Debug)]
pub struct BitwardenLogin {
    pub username: Option<String>,
    pub password: Option<String>,
    pub totp: Option<String>,
    pub uris: Option<Vec<BitwardenUri>>,
}

/// The mathematical content of a `BitwardenLogin`.
pub ghost struct BitwardenLoginView {
    pub username: Option<Seq<char>>,
    pub password: Option<Seq<char>>,
    pub totp: Option<Seq<char>>,
    pub uris: Option<Seq<BitwardenUriView>>,
}

impl DeepView for BitwardenLogin {
    type V = BitwardenLoginView;

    open spec fn deep_view(&self) -> BitwardenLoginView {
        BitwardenLoginView {
            username: self.username.deep_view(),
            password: self.password.deep_view(),
            totp: self.totp.deep_view(),
            uris: self.uris.deep_view(),
        }
    }
}

/// The card payload of an item of an export.
#[derive(Debug)]
pub struct BitwardenCard {
    pub cardholder_name: Option<String>,
    pub number: Option<String>,
    pub exp_month: Option<String>,
    pub exp_year: Option<String>,
    pub code: Option<String>,
    pub brand: Option<String>,
}

impl DeepView for BitwardenCard {
    type V = CardDataView;

    open spec fn deep_view(&self) -> CardDataView {
        CardDataView {
            cardholder_name: self.cardholder_name.deep_view(),
            number: self.number.deep_view(),
            exp_month: self.exp_month.deep_view(),
            exp_year: self.exp_year.deep_view(),
            code: self.code.deep_view(),
            brand: self.brand.deep_view(),
        }
    }
}

/// The identity payload of an item of an export.
#[derive(Debug)]
pub struct BitwardenIdentity {
    pub title: Option<String>,
    pub first_name: Option<String>,
    pub middle_name: Option<String>,
    pub last_name: Option<String>,
    pub email: Option<String>,
    pub phone: Option<String>,
    pub address1: Option<String>,
    pub address2: Option<String>,
    pub address3: Option<String>,
    pub city: Option<String>,
    pub state: Option<String>,
    pub postal_code: Option<String>,
    pub country: Option<String>,
}

impl DeepView for BitwardenIdentity {
    type V = IdentityDataView;

    open spec fn deep_view(&self) -> IdentityDataView {
        IdentityDataView {
            title: self.title.deep_view(),
            first_name: self.first_name.deep_view(),
            middle_name: self.middle_name.deep_view(),
            last_name: self.last_name.deep_view(),
            email: self.email.deep_view(),
            phone: self.phone.deep_view(),
            address1: self.address1.deep_view(),
            address2: self.address2.deep_view(),
            address3: self.address3.deep_view(),
            city: self.city.deep_view(),
            state: self.state.deep_view(),
            postal_code: self.postal_code.deep_view(),
            country: self.country.deep_view(),
        }
    }
}

/// The secure note payload of an item of an export.
#[derive(Debug, Clone, Copy, PartialEq, Eq, Structural)]
pub struct BitwardenSecureNote {
    pub note_type: Option<u8>,
}

impl DeepView for BitwardenSecureNote {
    type V = BitwardenSecureNote;

    open spec fn deep_view(&self) -> BitwardenSecureNote {
        *self
    }
}

/// A custom field of an item of an export.
#[derive(Debug)]
pub struct BitwardenField {
    pub name: String,
    pub value: String,
    pub field_type: u8,
}

/// The mathematical content of a `BitwardenField`.
pub ghost struct BitwardenFieldView {
    pub name: Seq<char>,
    pub value: Seq<char>,
    pub field_type: u8,
}

impl DeepView for BitwardenField {
    type V = BitwardenFieldView;

    open spec fn deep_view(&self) -> BitwardenFieldView {
        BitwardenFieldView {
            name: self.name@,
            value: self.value@,
            field_type: self.field_type,
        }
    }
}

/// An item of an export. Dates are RFC 3339 text.
#[derive(Debug)]
pub struct BitwardenItem {
    pub id: Option<String>,
    pub item_type: u8,
    pub name: String,
    pub folder_id: Option<String>,
    pub favorite: Option<bool>,
    pub notes: Option<String>,
    pub login: Option<BitwardenLogin>,
    pub card: Option<BitwardenCard>,
    pub identity: Option<BitwardenIdentity>,
    pub secure_note: Option<BitwardenSecureNote>,
    pub fields: Option<Vec<BitwardenField>>,
    pub reprompt: Option<u8>,
    pub creation_date: Option<String>,
    pub revision_date: Option<String>,
}

/// The mathematical content of a `BitwardenItem`.
pub ghost struct BitwardenItemView {
    pub id: Option<Seq<char>>,
    pub item_type: u8,
    pub name: Seq<char>,
    pub folder_id: Option<Seq<char>>,
    pub favorite: Option<bool>,
    pub notes: Option<Seq<char>>,
    pub login: Option<BitwardenLoginView>,
    pub card: Option<CardDataView>,
    pub identity: Option<IdentityDataView>,
    pub secure_note: Option<BitwardenSecureNote>,
    pub fields: Option<Seq<BitwardenFieldView>>,
    pub reprompt: Option<u8>,
    pub creation_date: Option<Seq<char>>,
    pub revision_date: Option<Seq<char>>,
}

impl DeepView for BitwardenItem {
    type V = BitwardenItemView;

    open spec fn deep_view(&self) -> BitwardenItemView {
        BitwardenItemView {
            id: self.id.deep_view(),
            item_type: self.item_type,
            name: self.name@,
            folder_id: self.folder_id.deep_view(),
            favorite: self.favorite,
            notes: self.notes.deep_view(),
            login: self.login.deep_view(),
            card: self.card.deep_view(),
            identity: self.identity.deep_view(),
            secure_note: self.secure_note,
            fields: self.fields.deep_view(),
            reprompt: self.reprompt,
            creation_date: self.creation_date.deep_view(),
            revision_date: self.revision_date.deep_view(),
        }
    }
}

/// An unencrypted Bitwarden export.
#[derive(Debug)]
pub struct BitwardenExport {
    pub encrypted: Option<bool>,
    pub folders: Option<Vec<BitwardenFolder>>,
    pub items: Vec<BitwardenItem>,
}

/// The mathematical content of a `BitwardenExport`.
pub ghost struct BitwardenExportView {
    pub encrypted: Option<bool>,
    pub folders: Option<Seq<FolderView>>,
    pub items: Seq<BitwardenItemView>,
}

impl DeepView for BitwardenExport {
    type V = BitwardenExportView;

    open spec fn deep_view(&self) -> BitwardenExportView {
        BitwardenExportView {
            encrypted: self.encrypted,
            folders: self.folders.deep_view(),
            items: self.items.deep_view(),
        }
    }
}

/// The card payload of the vault for the one of an export: the same fields.
pub fn convert_card(card: &BitwardenCard) -> (r: CardData)
    ensures
        r.deep_view() == card.deep_view(),
{
    CardData {
        cardholder_name: duplicate_text(&card.cardholder_name),
        number: duplicate_text(&card.number),
        exp_month: duplicate_text(&card.exp_month),
        exp_year: duplicate_text(&card.exp_year),
        code: duplicate_text(&card.code),
        brand: duplicate_text(&card.brand),
    }
}
/// The identity payload of the vault for the one of an export: the same fields.
pub fn convert_identity(identity: &BitwardenIdentity) -> (r: IdentityData)
    ensures
        r.deep_view() == identity.deep_view(),
{
    IdentityData {
        title: duplicate_text(&identity.title),
        first_name: duplicate_text(&identity.first_name),
        middle_name: duplicate_text(&identity.middle_name),
        last_name: duplicate_text(&identity.last_name),
        email: duplicate_text(&identity.email),
        phone: duplicate_text(&identity.phone),
        address1: duplicate_text(&identity.address1),
        address2: duplicate_text(&identity.address2),
        address3: duplicate_text(&identity.address3),
        city: duplicate_text(&identity.city),
        state: duplicate_text(&identity.state),
        postal_code: duplicate_text(&identity.postal_code),
        country: duplicate_text(&identity.country),
    }
}
/// The card payload of an export for the one of the vault: the same fields.
pub fn export_card(card: &CardData) -> (r: BitwardenCard)
    ensures
        r.deep_view() == card.deep_view(),
{
    BitwardenCard {
        cardholder_name: duplicate_text(&card.cardholder_name),
        number: duplicate_text(&card.number),
        exp_month: duplicate_text(&card.exp_month),
        exp_year: duplicate_text(&card.exp_year),
        code: duplicate_text(&card.code),
        brand: duplicate_text(&card.brand),
    }
}
/// The identity payload of an export for the one of the vault: the same fields.
pub fn export_identity(identity: &IdentityData) -> (r: BitwardenIdentity)
    ensures
        r.deep_view() == identity.deep_view(),
{
    BitwardenIdentity {
        title: duplicate_text(&identity.title),
        first_name: duplicate_text(&identity.first_name),
        middle_name: duplicate_text(&identity.middle_name),
        last_name: duplicate_text(&identity.last_name),
        email: duplicate_text(&identity.email),
        phone: duplicate_text(&identity.phone),
        address1: duplicate_text(&identity.address1),
        address2: duplicate_text(&identity.address2),
        address3: duplicate_text(&identity.address3),
        city: duplicate_text(&identity.city),
        state: duplicate_text(&identity.state),
        postal_code: duplicate_text(&identity.postal_code),
        country: duplicate_text(&identity.country),
    }
}
// ---------------------------------------------------------------------------
// From an export to a vault
// ---------------------------------------------------------------------------

/// The instant of a date of an export: what its text denotes, or `now`
/// where there is no text or the text is not RFC 3339.
pub open spec fn import_date(date: Option<Seq<char>>, now: Timestamp) -> Timestamp {
    match date {
        Some(text) => match rfc3339_instant(text) {
            Some(t) => t,
            None => now,
        },
        None => now,
    }
}

/// The URI of the vault for a URI of an export.
pub open spec fn import_uri(uri: BitwardenUriView) -> LoginUriView {
    LoginUriView {
        uri: uri.uri,
        match_type: match uri.match_type {
            Some(code) => Some(UriMatchType(code)),
            None => None,
        },
    }
}

/// The login of the vault for a login of an export.
pub open spec fn import_login(login: BitwardenLoginView) -> LoginDataView {
    LoginDataView {
        username: login.username,
        password: login.password,
        totp: login.totp,
        uris: match login.uris {
            Some(uris) => Some(uris.map_values(|u: BitwardenUriView| import_uri(u))),
            None => None,
        },
    }
}

/// The secure note of the vault for one of an export: a note without a
/// subtype is generic.
pub open spec fn import_note(note: BitwardenSecureNote) -> SecureNoteData {
    SecureNoteData {
        type_: SecureNoteType(
            match note.note_type {
                Some(code) => code,
                None => GENERIC_NOTE,
            },
        ),
    }
}

/// The custom field of the vault for one of an export.
pub open spec fn import_field(field: BitwardenFieldView) -> CustomFieldView {
    CustomFieldView { name: field.name, value: field.value, field_type: FieldType(field.field_type) }
}

/// The item of the vault for an item of an export, imported at `now`.
///
/// An item without an identifier gets `fresh_id`; one that does not say
/// whether it is a favourite is none; a date that is missing or unreadable
/// is `now`.
pub open spec fn import_item(item: BitwardenItemView, now: Timestamp, fresh_id: Seq<char>) -> ItemView {
    ItemView {
        id: match item.id {
            Some(id) => id,
            None => fresh_id,
        },
        item_type: ItemType(item.item_type),
        name: item.name,
        folder_id: item.folder_id,
        favorite: match item.favorite {
            Some(favorite) => favorite,
            None => false,
        },
        notes: item.notes,
        login: match item.login {
            Some(login) => Some(import_login(login)),
            None => None,
        },
        card: item.card,
        identity: item.identity,
        secure_note: match item.secure_note {
            Some(note) => Some(import_note(note)),
            None => None,
        },
        fields: match item.fields {
            Some(fields) => Some(fields.map_values(|f: BitwardenFieldView| import_field(f))),
            None => None,
        },
        reprompt: item.reprompt,
        creation_date: import_date(item.creation_date, now),
        revision_date: import_date(item.revision_date, now),
    }
}

/// Whether `item` is what importing `source` gives, at some time and with
/// some fresh identifier.
pub open spec fn is_import_of(item: ItemView, source: BitwardenItemView) -> bool {
    item == import_item(
        source,
        if is_readable_date(source.creation_date) {
            item.revision_date
        } else {
            item.creation_date
        },
        item.id,
    )
}

/// Whether a date of an export is there and is RFC 3339 text.
pub open spec fn is_readable_date(date: Option<Seq<char>>) -> bool {
    date matches Some(text) && rfc3339_instant(text) is Some
}

/// Whether `vault` is what importing `export` gives: an empty vault made at
/// the time of the import, with the export's folders and, in their order,
/// the imports of its items.
pub open spec fn is_import(vault: VaultView, export: BitwardenExportView) -> bool {
    &&& vault.encrypted == false
    &&& vault.version == empty_vault(vault.sync_time).version
    &&& vault.sync_config is None
    &&& vault.folders == match export.folders {
        Some(folders) => folders,
        None => Seq::<FolderView>::empty(),
    }
    &&& vault.items.len() == export.items.len()
    &&& forall|i: int|
        0 <= i < vault.items.len() ==> is_import_of(#[trigger] vault.items[i], export.items[i])
}

/// Turns Bitwarden exports into vaults.
pub struct BitwardenImporter;

impl BitwardenImporter {
    /// An importer.
    pub fn new() -> (r: Self) {
        BitwardenImporter
    }

    /// The folder of the vault for a folder of an export: the same
    /// identifier and name.
    pub fn convert_folder(folder: &BitwardenFolder) -> (r: Folder)
        ensures
            r.deep_view() == folder.deep_view(),
    {
        Folder { id: folder.id.clone(), name: folder.name.clone() }
    }

    /// The URIs of the vault for those of an export.
    pub fn convert_uris(uris: &Vec<BitwardenUri>) -> (r: Vec<LoginUri>)
        ensures
            r.deep_view() == uris.deep_view().map_values(|u: BitwardenUriView| import_uri(u)),
    {
        let mut r: Vec<LoginUri> = Vec::new();
        let mut i: usize = 0;
        while i < uris.len()
            invariant
                i <= uris.len(),
                r.len() == i,
                forall|k: int| 0 <= k < i ==> r[k].deep_view() == import_uri(uris[k].deep_view()),
            decreases uris.len() - i,
        {
            let match_type = match uris[i].match_type {
                Some(code) => Some(UriMatchType(code)),
                None => None,
            };
            r.push(LoginUri { uri: uris[i].uri.clone(), match_type });
            i = i + 1;
        }
        assert(r.deep_view() =~= uris.deep_view().map_values(|u: BitwardenUriView| import_uri(u)));
        r
    }

    /// The custom fields of the vault for those of an export.
    pub fn convert_fields(fields: &Vec<BitwardenField>) -> (r: Vec<CustomField>)
        ensures
            r.deep_view() == fields.deep_view().map_values(|f: BitwardenFieldView| import_field(f)),
    {
        let mut r: Vec<CustomField> = Vec::new();
        let mut i: usize = 0;
        while i < fields.len()
            invariant
                i <= fields.len(),
                r.len() == i,
                forall|k: int|
                    0 <= k < i ==> r[k].deep_view() == import_field(fields[k].deep_view()),
            decreases fields.len() - i,
        {
            r.push(
                CustomField {
                    name: fields[i].name.clone(),
                    value: fields[i].value.clone(),
                    field_type: FieldType(fields[i].field_type),
                },
            );
            i = i + 1;
        }
        assert(r.deep_view() =~= fields.deep_view().map_values(
            |f: BitwardenFieldView| import_field(f),
        ));
        r
    }

    /// The instant of a date of an export.
    pub fn convert_date(date: &Option<String>, now: Timestamp) -> (r: Timestamp)
        ensures
            r == import_date(date.deep_view(), now),
    {
        match date {
            Some(text) => match Timestamp::parse_rfc3339(text.as_str()) {
                Some(t) => t,
                None => now,
            },
            None => now,
        }
    }

    /// The item of the vault for an item of an export, imported at `now`,
    /// with `fresh_id` for an item that has no identifier.
    pub fn convert_item_at(item: &BitwardenItem, now: Timestamp, fresh_id: String) -> (r: Item)
        ensures
            r.deep_view() == import_item(item.deep_view(), now, fresh_id@),
    {
        Item {
            id: match &item.id {
                Some(id) => id.clone(),
                None => fresh_id,
            },
            item_type: ItemType(item.item_type),
            name: item.name.clone(),
            folder_id: duplicate_text(&item.folder_id),
            favorite: match item.favorite {
                Some(favorite) => favorite,
                None => false,
            },
            notes: duplicate_text(&item.notes),
            login: match &item.login {
                Some(login) => Some(
                    LoginData {
                        username: duplicate_text(&login.username),
                        password: duplicate_text(&login.password),
                        totp: duplicate_text(&login.totp),
                        uris: match &login.uris {
                            Some(uris) => Some(BitwardenImporter::convert_uris(uris)),
                            None => None,
                        },
                    },
                ),
                None => None,
            },
            card: match &item.card {
                Some(card) => Some(convert_card(card)),
                None => None,
            },
            identity: match &item.identity {
                Some(identity) => Some(convert_identity(identity)),
                None => None,
            },
            secure_note: match item.secure_note {
                Some(note) => Some(
                    SecureNoteData {
                        type_: SecureNoteType(
                            match note.note_type {
                                Some(code) => code,
                                None => GENERIC_NOTE,
                            },
                        ),
                    },
                ),
                None => None,
            },
            fields: match &item.fields {
                Some(fields) => Some(BitwardenImporter::convert_fields(fields)),
                None => None,
            },
            reprompt: item.reprompt,
            creation_date: BitwardenImporter::convert_date(&item.creation_date, now),
            revision_date: BitwardenImporter::convert_date(&item.revision_date, now),
        }
    }

    /// The item of the vault for an item of an export, imported now. An
    /// item without an identifier gets a fresh random one. The conversion
    /// never fails.
    pub fn convert_item(item: &BitwardenItem) -> (r: Result<Item, Error>)
        ensures
            r matches Ok(converted) && is_import_of(converted.deep_view(), item.deep_view()),
    {
        let now = Timestamp::now();
        let fresh_id = match &item.id {
            Some(id) => id.clone(),
            None => new_uuid(),
        };
        let converted = BitwardenImporter::convert_item_at(item, now, fresh_id);
        Ok(converted)
    }

    /// Turns an export into a vault.
    ///
    /// An export that says it is encrypted is refused with an `Import`
    /// error; every other export is imported.
    pub fn import(&self, export: &BitwardenExport) -> (r: Result<Vault, Error>)
        ensures
            match r {
                Ok(vault) => !(export.encrypted == Some(true)) && is_import(
                    vault.deep_view(),
                    export.deep_view(),
                ),
                Err(e) => export.encrypted == Some(true) && e is Import,
            },
    {
        if let Some(true) = export.encrypted {
            return Err(
                Error::Import(
                    String::from_str(
                        "Encrypted Bitwarden exports are not supported. Please export unencrypted.",
                    ),
                ),
            );
        }
        let mut vault = Vault::new();
        assert(vault.folders.deep_view().len() == 0);
        assert(vault.items.deep_view().len() == 0);
        if let Some(folders) = &export.folders {
            let mut k: usize = 0;
            while k < folders.len()
                invariant
                    k <= folders.len(),
                    vault.folders.len() == k,
                    vault.items.len() == 0,
                    vault.encrypted == false,
                    vault.version@ == empty_vault(vault.sync_time).version,
                    vault.sync_config is None,
                    forall|j: int|
                        0 <= j < k ==> vault.folders[j].deep_view() == folders[j].deep_view(),
                decreases folders.len() - k,
            {
                vault.folders.push(BitwardenImporter::convert_folder(&folders[k]));
                k = k + 1;
            }
            assert(vault.folders.deep_view() =~= folders.deep_view());
        } else {
            assert(vault.folders.deep_view() =~= Seq::<FolderView>::empty());
        }
        let mut i: usize = 0;
        while i < export.items.len()
            invariant
                i <= export.items.len(),
                vault.items.len() == i,
                vault.encrypted == false,
                vault.version@ == empty_vault(vault.sync_time).version,
                vault.sync_config is None,
                vault.folders.deep_view() == match export.deep_view().folders {
                    Some(folders) => folders,
                    None => Seq::<FolderView>::empty(),
                },
                forall|j: int|
                    0 <= j < i ==> is_import_of(
                        vault.items[j].deep_view(),
                        export.items[j].deep_view(),
                    ),
            decreases export.items.len() - i,
        {
            match BitwardenImporter::convert_item(&export.items[i]) {
                Ok(converted) => {
                    vault.items.push(converted);
                },
                Err(e) => {
                    return Err(e);
                },
            }
            i = i + 1;
        }
        Ok(vault)
    }
}

// ---------------------------------------------------------------------------
// From a vault to an export
// ---------------------------------------------------------------------------

/// The text of a date in an export.
pub open spec fn export_date(date: Timestamp) -> Option<Seq<char>> {
    rfc3339_text(date.secs, date.nanos)
}

/// The URI of an export for a URI of the vault.
pub open spec fn export_uri(uri: LoginUriView) -> BitwardenUriView {
    BitwardenUriView {
        uri: uri.uri,
        match_type: match uri.match_type {
            Some(m) => Some(m.0),
            None => None,
        },
    }
}

/// The login of an export for a login of the vault.
pub open spec fn export_login(login: LoginDataView) -> BitwardenLoginView {
    BitwardenLoginView {
        username: login.username,
        password: login.password,
        totp: login.totp,
        uris: match login.uris {
            Some(uris) => Some(uris.map_values(|u: LoginUriView| export_uri(u))),
            None => None,
        },
    }
}

/// The secure note of an export for one of the vault.
pub open spec fn export_note(note: SecureNoteData) -> BitwardenSecureNote {
    BitwardenSecureNote { note_type: Some(note.type_.0) }
}

/// The custom field of an export for one of the vault.
pub open spec fn export_field(field: CustomFieldView) -> BitwardenFieldView {
    BitwardenFieldView { name: field.name, value: field.value, field_type: field.field_type.0 }
}

/// Whether an item can be exported: both its dates have a calendar date.
pub open spec fn is_exportable(item: ItemView) -> bool {
    export_date(item.creation_date) is Some && export_date(item.revision_date) is Some
}

/// The item of an export for an item of the vault: every payload and the
/// custom fields go across, and the dates are written as RFC 3339 text.
pub open spec fn export_item(item: ItemView) -> BitwardenItemView {
    BitwardenItemView {
        id: Some(item.id),
        item_type: item.item_type.0,
        name: item.name,
        folder_id: item.folder_id,
        favorite: Some(item.favorite),
        notes: item.notes,
        login: match item.login {
            Some(login) => Some(export_login(login)),
            None => None,
        },
        card: item.card,
        identity: item.identity,
        secure_note: match item.secure_note {
            Some(note) => Some(export_note(note)),
            None => None,
        },
        fields: match item.fields {
            Some(fields) => Some(fields.map_values(|f: CustomFieldView| export_field(f))),
            None => None,
        },
        reprompt: item.reprompt,
        creation_date: export_date(item.creation_date),
        revision_date: export_date(item.revision_date),
    }
}

/// The export of a vault: marked unencrypted, with the vault's folders and
/// the exports of its items, in their order.
pub open spec fn export_vault(vault: VaultView) -> BitwardenExportView {
    BitwardenExportView {
        encrypted: Some(false),
        folders: Some(vault.folders),
        items: vault.items.map_values(|item: ItemView| export_item(item)),
    }
}

/// Whether every item of the vault can be exported.
pub open spec fn all_exportable(vault: VaultView) -> bool {
    forall|i: int| 0 <= i < vault.items.len() ==> is_exportable(#[trigger] vault.items[i])
}

/// Turns vaults into Bitwarden exports.
pub struct BitwardenExporter;

impl BitwardenExporter {
    /// An exporter.
    pub fn new() -> (r: Self) {
        BitwardenExporter
    }

    /// The URIs of an export for those of the vault.
    pub fn export_uris(uris: &Vec<LoginUri>) -> (r: Vec<BitwardenUri>)
        ensures
            r.deep_view() == uris.deep_view().map_values(|u: LoginUriView| export_uri(u)),
    {
        let mut r: Vec<BitwardenUri> = Vec::new();
        let mut i: usize = 0;
        while i < uris.len()
            invariant
                i <= uris.len(),
                r.len() == i,
                forall|k: int| 0 <= k < i ==> r[k].deep_view() == export_uri(uris[k].deep_view()),
            decreases uris.len() - i,
        {
            let match_type = match uris[i].match_type {
                Some(m) => Some(m.0),
                None => None,
            };
            r.push(BitwardenUri { uri: uris[i].uri.clone(), match_type });
            i = i + 1;
        }
        assert(r.deep_view() =~= uris.deep_view().map_values(|u: LoginUriView| export_uri(u)));
        r
    }

    /// The custom fields of an export for those of the vault.
    pub fn export_fields(fields: &Vec<CustomField>) -> (r: Vec<BitwardenField>)
        ensures
            r.deep_view() == fields.deep_view().map_values(|f: CustomFieldView| export_field(f)),
    {
        let mut r: Vec<BitwardenField> = Vec::new();
        let mut i: usize = 0;
        while i < fields.len()
            invariant
                i <= fields.len(),
                r.len() == i,
                forall|k: int|
                    0 <= k < i ==> r[k].deep_view() == export_field(fields[k].deep_view()),
            decreases fields.len() - i,
        {
            r.push(
                BitwardenField {
                    name: fields[i].name.clone(),
                    value: fields[i].value.clone(),
                    field_type: fields[i].field_type.0,
                },
            );
            i = i + 1;
        }
        assert(r.deep_view() =~= fields.deep_view().map_values(
            |f: CustomFieldView| export_field(f),
        ));
        r
    }

    /// The item of an export for an item of the vault, or `None` where one
    /// of its dates has no calendar date.
    pub fn export_item(item: &Item) -> (r: Option<BitwardenItem>)
        ensures
            match r {
                Some(exported) => is_exportable(item.deep_view()) && exported.deep_view()
                    == export_item(item.deep_view()),
                None => !is_exportable(item.deep_view()),
            },
    {
        let creation_date = match item.creation_date.to_rfc3339() {
            Some(text) => text,
            None => {
                return None;
            },
        };
        let revision_date = match item.revision_date.to_rfc3339() {
            Some(text) => text,
            None => {
                return None;
            },
        };
        Some(
            BitwardenItem {
                id: Some(item.id.clone()),
                item_type: item.item_type.0,
                name: item.name.clone(),
                folder_id: duplicate_text(&item.folder_id),
                favorite: Some(item.favorite),
                notes: duplicate_text(&item.notes),
                login: match &item.login {
                    Some(login) => Some(
                        BitwardenLogin {
                            username: duplicate_text(&login.username),
                            password: duplicate_text(&login.password),
                            totp: duplicate_text(&login.totp),
                            uris: match &login.uris {
                                Some(uris) => Some(BitwardenExporter::export_uris(uris)),
                                None => None,
                            },
                        },
                    ),
                    None => None,
                },
                card: match &item.card {
                    Some(card) => Some(export_card(card)),
                    None => None,
                },
                identity: match &item.identity {
                    Some(identity) => Some(export_identity(identity)),
                    None => None,
                },
                secure_note: match item.secure_note {
                    Some(note) => Some(BitwardenSecureNote { note_type: Some(note.type_.0) }),
                    None => None,
                },
                fields: match &item.fields {
                    Some(fields) => Some(BitwardenExporter::export_fields(fields)),
                    None => None,
                },
                reprompt: item.reprompt,
                creation_date: Some(creation_date),
                revision_date: Some(revision_date),
            },
        )
    }

    /// Turns a vault into an export.
    ///
    /// It fails, with an `Other` error, exactly where an item has a date
    /// without a calendar date, for which there is no text.
    pub fn export(&self, vault: &Vault) -> (r: Result<BitwardenExport, Error>)
        ensures
            match r {
                Ok(export) => all_exportable(vault.deep_view()) && export.deep_view()
                    == export_vault(vault.deep_view()),
                Err(e) => !all_exportable(vault.deep_view()) && e is Other,
            },
    {
        let mut folders: Vec<BitwardenFolder> = Vec::new();
        let mut k: usize = 0;
        while k < vault.folders.len()
            invariant
                k <= vault.folders.len(),
                folders.len() == k,
                forall|j: int|
                    0 <= j < k ==> folders[j].deep_view() == vault.folders[j].deep_view(),
            decreases vault.folders.len() - k,
        {
            folders.push(
                BitwardenFolder {
                    id: vault.folders[k].id.clone(),
                    name: vault.folders[k].name.clone(),
                },
            );
            k = k + 1;
        }
        assert(folders.deep_view() =~= vault.folders.deep_view());
        let mut items: Vec<BitwardenItem> = Vec::new();
        let mut i: usize = 0;
        while i < vault.items.len()
            invariant
                i <= vault.items.len(),
                items.len() == i,
                folders.deep_view() == vault.folders.deep_view(),
                forall|j: int| 0 <= j < i ==> is_exportable(#[trigger] vault.deep_view().items[j]),
                forall|j: int|
                    0 <= j < i ==> items[j].deep_view() == export_item(vault.items[j].deep_view()),
            decreases vault.items.len() - i,
        {
            match BitwardenExporter::export_item(&vault.items[i]) {
                Some(exported) => {
                    items.push(exported);
                },
                None => {
                    assert(!is_exportable(vault.deep_view().items[i as int]));
                    return Err(
                        Error::Other(String::from_str("Failed to serialize export: date out of range")),
                    );
                },
            }
            i = i + 1;
        }
        assert(items.deep_view() =~= vault.deep_view().items.map_values(
            |item: ItemView| export_item(item),
        ));
        Ok(BitwardenExport { encrypted: Some(false), folders: Some(folders), items })
    }
}

// ---------------------------------------------------------------------------
// Round trip
// ---------------------------------------------------------------------------

/// Whether a date of an export is written the way an export writes it: it
/// is the text of the instant that it denotes.
pub open spec fn is_canonical_date(date: Option<Seq<char>>) -> bool {
    date matches Some(text) && (rfc3339_instant(text) matches Some(t) && rfc3339_text(
        t.secs,
        t.nanos,
    ) == Some(text))
}

/// Whether an item of an export lies in the subset that survives a round
/// trip: it has an identifier, says whether it is a favourite, names the
/// subtype of its secure note if it has one, and its dates are canonical.
/// Its type, its payloads and its custom fields may be any.
pub open spec fn is_round_trip_item(item: BitwardenItemView) -> bool {
    &&& item.id is Some
    &&& item.favorite is Some
    &&& item.secure_note matches Some(note) ==> note.note_type is Some
    &&& is_canonical_date(item.creation_date)
    &&& is_canonical_date(item.revision_date)
}

/// Exporting the import of custom fields gives the fields back.
pub proof fn lemma_fields_round_trip(fields: Seq<BitwardenFieldView>)
    ensures
        fields.map_values(|f: BitwardenFieldView| import_field(f)).map_values(
            |f: CustomFieldView| export_field(f),
        ) == fields,
{
    let there = fields.map_values(|f: BitwardenFieldView| import_field(f));
    let back = there.map_values(|f: CustomFieldView| export_field(f));
    assert(back =~= fields) by {
        assert forall|i: int| 0 <= i < fields.len() implies back[i] == fields[i] by {
            assert(back[i] == export_field(import_field(fields[i])));
        }
    }
}

/// Whether an export lies in the subset that survives a round trip: it is
/// marked unencrypted, lists its folders, and each of its items lies in the
/// subset.
pub open spec fn is_round_trip_export(export: BitwardenExportView) -> bool {
    &&& export.encrypted == Some(false)
    &&& export.folders is Some
    &&& forall|i: int| 0 <= i < export.items.len() ==> is_round_trip_item(#[trigger] export.items[i])
}

/// Exporting the import of a login gives the login back.
pub proof fn lemma_login_round_trip(login: BitwardenLoginView)
    ensures
        export_login(import_login(login)) == login,
{
    match login.uris {
        Some(uris) => {
            let there = uris.map_values(|u: BitwardenUriView| import_uri(u));
            let back = there.map_values(|u: LoginUriView| export_uri(u));
            assert(back =~= uris) by {
                assert forall|i: int| 0 <= i < uris.len() implies back[i] == uris[i] by {
                    assert(back[i] == export_uri(import_uri(uris[i])));
                }
            }
        },
        None => {},
    }
}

/// Import followed by export is the identity on the supported subset:
/// whatever vault the import of such an export gave, exporting that vault
/// gives the export back.
pub proof fn lemma_export_after_import(export: BitwardenExportView, vault: VaultView)
    requires
        is_round_trip_export(export),
        is_import(vault, export),
    ensures
        all_exportable(vault),
        export_vault(vault) == export,
{
    let out = export_vault(vault);
    assert forall|i: int| 0 <= i < vault.items.len() implies is_exportable(
        #[trigger] vault.items[i],
    ) && export_item(vault.items[i]) == export.items[i] by {
        let source = export.items[i];
        let item = vault.items[i];
        assert(is_round_trip_item(source));
        assert(is_import_of(item, source));
        match source.login {
            Some(login) => {
                lemma_login_round_trip(login);
            },
            None => {},
        }
        match source.fields {
            Some(fields) => {
                lemma_fields_round_trip(fields);
            },
            None => {},
        }
    }
    assert(out.items =~= export.items);
}

} // verus!
