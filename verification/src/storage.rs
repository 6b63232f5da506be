//! The storage engine: the encrypted envelope that goes to disk, and the
//! rules for backups.
//!
//! Reading and writing files is the caller's part. This module seals the
//! serialised vault into an envelope, opens an envelope again, names backup
//! files and decides which backups a rotation deletes.

use vstd::prelude::*;
use vstd::string::*;
use crate::clock::Timestamp;
use vstd::utf8::encode_utf8;
use crate::crypto::{
    base64_text, decrypt_with_password, derived_key, encrypt_with_password_and_nonce,
    is_fresh_argon2, is_fresh_pbkdf2, lemma_fresh_params_derive, opened_with_password, random_nonce, sealed, sealed_with_password, EncryptedData,
    EncryptedDataView, KdfAlgorithm, KdfParams, ARGON2_MAX_PASSWORD_LEN, MAX_PLAINTEXT_LEN,
    NONCE_SIZE,
};
use crate::errors::Error;
use crate::models::{SyncConfig, Vault};
use crate::text::{
    chars_of, concat, decimal, decimal_text, ends_with, has_prefix, has_suffix, path_exists,
    starts_with, string_from_chars,
};

verus! {

/// The name of the vault file.
pub const VAULT_FILE_NAME: &'static str = "vault.sf";

/// The ending of a backup file's name.
pub const BACKUP_SUFFIX: &'static str = ".backup";

/// The schema version written into every envelope.
pub const ENVELOPE_VERSION: &'static str = "1.0.0";

/// The envelope: what the vault file holds.
#[derive(Debug)]
pub struct EncryptedVault {
    pub version: String,
    pub encrypted_data: EncryptedData,
}

/// The mathematical content of an `EncryptedVault`.
pub ghost struct EncryptedVaultView {
    pub version: Seq<char>,
    pub encrypted_data: EncryptedDataView,
}

impl View for EncryptedVault {
    type V = EncryptedVaultView;

    open spec fn view(&self) -> EncryptedVaultView {
        EncryptedVaultView { version: self.version@, encrypted_data: self.encrypted_data@ }
    }
}

/// What was found where the vault file should be.
#[derive(Debug)]
pub enum VaultFile {
    /// There is no file.
    Missing,
    /// There is a file, but what it holds is no envelope.
    Unreadable,
    /// The envelope that the file holds.
    Envelope { envelope: EncryptedVault },
}

/// The mathematical content of a `VaultFile`.
pub ghost enum VaultFileView {
    Missing,
    Unreadable,
    Envelope { envelope: EncryptedVaultView },
}

impl View for VaultFile {
    type V = VaultFileView;

    open spec fn view(&self) -> VaultFileView {
        match self {
            VaultFile::Missing => VaultFileView::Missing,
            VaultFile::Unreadable => VaultFileView::Unreadable,
            VaultFile::Envelope { envelope } => VaultFileView::Envelope { envelope: envelope@ },
        }
    }
}

/// The serialised vault that `envelope` gives to whoever knows `password`.
pub open spec fn loaded(envelope: EncryptedVaultView, password: Seq<char>) -> Option<Seq<u8>> {
    opened_with_password(envelope.encrypted_data, password)
}

/// Whether `params` are fresh parameters of the algorithm `algorithm`.
pub open spec fn is_fresh(params: crate::crypto::KdfParamsView, algorithm: KdfAlgorithm) -> bool {
    match algorithm {
        KdfAlgorithm::Argon2id => is_fresh_argon2(params),
        KdfAlgorithm::Pbkdf2 => is_fresh_pbkdf2(params),
    }
}

/// Whether a save under `config` is followed by a commit and a push.
pub open spec fn pushes_after_save(config: Option<SyncConfig>) -> bool {
    config matches Some(c) && c.wants_push_on_change()
}

/// A file in the backup directory: its name and when it was last modified,
/// where the file system says.
#[derive(Debug, Clone)]
pub struct BackupFile {
    pub name: String,
    pub modified: Option<Timestamp>,
}

/// The mathematical content of a `BackupFile`.
pub ghost struct BackupFileView {
    pub name: Seq<char>,
    pub modified: Option<Timestamp>,
}

impl DeepView for BackupFile {
    type V = BackupFileView;

    open spec fn deep_view(&self) -> BackupFileView {
        BackupFileView { name: self.name@, modified: self.modified }
    }
}

/// The name of the backup taken at `unix_secs`.
pub open spec fn backup_name_text(unix_secs: i64) -> Seq<char> {
    VAULT_FILE_NAME@ + seq!['.'] + decimal_text(unix_secs as int) + BACKUP_SUFFIX@
}

/// Whether a file called `name` is a backup: its name begins like the vault
/// file's and ends in `.backup`.
pub open spec fn is_backup_name(name: Seq<char>) -> bool {
    has_prefix(name, VAULT_FILE_NAME@) && has_suffix(name, BACKUP_SUFFIX@)
}

/// Whether a file modified at `a` is listed before one modified at `b`:
/// files of unknown age come first, then the newer before the older.
pub open spec fn listed_before(a: Option<Timestamp>, b: Option<Timestamp>) -> bool {
    match (a, b) {
        (None, Some(_)) => true,
        (Some(x), Some(y)) => x.later_than(y),
        _ => false,
    }
}

/// `sorted` with `file` put in after every file that is not listed after
/// it.
pub open spec fn inserted(sorted: Seq<BackupFileView>, file: BackupFileView) -> Seq<BackupFileView>
    decreases sorted.len(),
{
    if sorted.len() > 0 && listed_before(file.modified, sorted.last().modified) {
        inserted(sorted.drop_last(), file).push(sorted.last())
    } else {
        sorted.push(file)
    }
}

/// The backups among `files`, newest first; files of the same age keep
/// their order.
pub open spec fn backups_newest_first(files: Seq<BackupFileView>) -> Seq<BackupFileView>
    decreases files.len(),
{
    if files.len() == 0 {
        Seq::empty()
    } else if is_backup_name(files.last().name) {
        inserted(backups_newest_first(files.drop_last()), files.last())
    } else {
        backups_newest_first(files.drop_last())
    }
}

/// The number of backups among `files`.
pub open spec fn backup_count(files: Seq<BackupFileView>) -> nat {
    files.filter(|f: BackupFileView| is_backup_name(f.name)).len()
}

/// The names of the backups that a rotation deletes: all but the first
/// `keep_count` of the backups, newest first.
pub open spec fn expired_backups(files: Seq<BackupFileView>, keep_count: usize) -> Seq<Seq<char>> {
    let sorted = backups_newest_first(files);
    if keep_count >= sorted.len() {
        Seq::empty()
    } else {
        sorted.skip(keep_count as int).map_values(|f: BackupFileView| f.name)
    }
}

/// A list is in listing order if no file is listed before one that
/// precedes it.
pub open spec fn in_listing_order(s: Seq<BackupFileView>) -> bool {
    forall|i: int, j: int|
        0 <= i < j < s.len() ==> !listed_before(#[trigger] s[j].modified, #[trigger] s[i].modified)
}

/// Putting a file into a list adds exactly that file, and keeps the
/// listing order.
pub proof fn lemma_inserted(sorted: Seq<BackupFileView>, file: BackupFileView)
    ensures
        inserted(sorted, file).len() == sorted.len() + 1,
        inserted(sorted, file).to_multiset() == sorted.to_multiset().insert(file),
        in_listing_order(sorted) ==> in_listing_order(inserted(sorted, file)),
        forall|i: int|
            0 <= i < inserted(sorted, file).len() ==> (#[trigger] inserted(sorted, file)[i] == file
                || sorted.contains(inserted(sorted, file)[i])),
    decreases sorted.len(),
{
    broadcast use vstd::seq_lib::group_to_multiset_ensures;

    let r = inserted(sorted, file);
    if sorted.len() > 0 && listed_before(file.modified, sorted.last().modified) {
        let front = sorted.drop_last();
        let last = sorted.last();
        lemma_inserted(front, file);
        let inner = inserted(front, file);
        assert(sorted =~= front.push(last));
        assert(r.to_multiset() =~= sorted.to_multiset().insert(file));
        assert forall|i: int| 0 <= i < r.len() implies (#[trigger] r[i] == file || sorted.contains(
            r[i],
        )) by {
            if i < inner.len() {
                assert(r[i] == inner[i]);
                if inner[i] != file {
                    assert(front.contains(inner[i]));
                    let k = choose|k: int| 0 <= k < front.len() && front[k] == inner[i];
                    assert(sorted[k] == inner[i]);
                }
            } else {
                assert(r[i] == last);
                assert(sorted[sorted.len() - 1] == last);
            }
        }
        if in_listing_order(sorted) {
            assert(in_listing_order(front)) by {
                assert forall|i: int, j: int| 0 <= i < j < front.len() implies !listed_before(
                    #[trigger] front[j].modified,
                    #[trigger] front[i].modified,
                ) by {
                    assert(front[i] == sorted[i]);
                    assert(front[j] == sorted[j]);
                }
            }
            assert forall|i: int, j: int| 0 <= i < j < r.len() implies !listed_before(
                #[trigger] r[j].modified,
                #[trigger] r[i].modified,
            ) by {
                if j < inner.len() {
                    assert(r[i] == inner[i] && r[j] == inner[j]);
                } else {
                    assert(r[j] == last);
                    assert(r[i] == inner[i]);
                    if inner[i] == file {
                    } else {
                        let k = choose|k: int| 0 <= k < front.len() && front[k] == inner[i];
                        assert(sorted[k] == inner[i]);
                        assert(!listed_before(
                            sorted[sorted.len() - 1].modified,
                            sorted[k].modified,
                        ));
                    }
                }
            }
        }
    } else {
        assert(r =~= sorted.push(file));
        if in_listing_order(sorted) {
            assert forall|i: int, j: int| 0 <= i < j < r.len() implies !listed_before(
                #[trigger] r[j].modified,
                #[trigger] r[i].modified,
            ) by {
                if j < sorted.len() {
                } else {
                    assert(r[j] == file);
                    assert(r[i] == sorted[i]);
                    if sorted.len() > 0 {
                        lemma_not_before_any(sorted, file, i);
                    }
                }
            }
        }
        assert forall|i: int| 0 <= i < r.len() implies (#[trigger] r[i] == file || sorted.contains(
            r[i],
        )) by {
            if i < sorted.len() {
                assert(sorted[i] == r[i]);
            }
        }
    }
}

/// A file that is not listed before the last file of an ordered list is
/// listed before none of its files.
proof fn lemma_not_before_any(sorted: Seq<BackupFileView>, file: BackupFileView, i: int)
    requires
        in_listing_order(sorted),
        sorted.len() > 0,
        !listed_before(file.modified, sorted.last().modified),
        0 <= i < sorted.len(),
    ensures
        !listed_before(file.modified, sorted[i].modified),
{
    let last = sorted.len() - 1;
    if i < last {
        assert(!listed_before(sorted[last].modified, sorted[i].modified));
    }
}

/// Whether every file of `sorted` is a backup and one of `files`.
pub open spec fn each_is_backup_of(sorted: Seq<BackupFileView>, files: Seq<BackupFileView>) -> bool {
    forall|i: int|
        0 <= i < sorted.len() ==> is_backup_name((#[trigger] sorted[i]).name) && files.contains(
            sorted[i],
        )
}

/// The sorted backups are as many as the backups among the files, they
/// are in listing order, and each is one of the files and a backup.
pub proof fn lemma_backups_newest_first(files: Seq<BackupFileView>)
    ensures
        backups_newest_first(files).len() == backup_count(files),
        backups_newest_first(files).len() <= files.len(),
        in_listing_order(backups_newest_first(files)),
        backups_newest_first(files).to_multiset() == files.filter(
            |f: BackupFileView| is_backup_name(f.name),
        ).to_multiset(),
        each_is_backup_of(backups_newest_first(files), files),
    decreases files.len(),
{
    broadcast use vstd::seq_lib::group_to_multiset_ensures;

    reveal(Seq::filter);
    let pred = |f: BackupFileView| is_backup_name(f.name);
    if files.len() == 0 {
        assert(files.filter(pred) =~= Seq::empty());
    } else {
        let front = files.drop_last();
        let last = files.last();
        lemma_backups_newest_first(front);
        let sorted = backups_newest_first(front);
        assert(files =~= front.push(last));
        if is_backup_name(last.name) {
            lemma_inserted(sorted, last);
            assert(files.filter(pred) =~= front.filter(pred).push(last));
            let r = inserted(sorted, last);
            assert forall|i: int| 0 <= i < r.len() implies is_backup_name((#[trigger] r[i]).name)
                && files.contains(r[i]) by {
                if r[i] == last {
                    assert(files[files.len() - 1] == last);
                } else {
                    assert(sorted.contains(r[i]));
                    let k = choose|k: int| 0 <= k < sorted.len() && sorted[k] == r[i];
                    assert(is_backup_name(sorted[k].name) && front.contains(sorted[k]));
                    let m = choose|m: int| 0 <= m < front.len() && front[m] == sorted[k];
                    assert(files[m] == r[i]);
                }
            }
        } else {
            assert(files.filter(pred) =~= front.filter(pred));
            assert forall|i: int| 0 <= i < sorted.len() implies files.contains(
                #[trigger] sorted[i],
            ) by {
                assert(front.contains(sorted[i]));
                let m = choose|m: int| 0 <= m < front.len() && front[m] == sorted[i];
                assert(files[m] == sorted[i]);
            }
        }
    }
}

/// A rotation that keeps `keep_count` backups leaves exactly that many, or
/// all of them where there are fewer: it deletes the rest.
pub proof fn lemma_rotation_leaves_the_minimum(files: Seq<BackupFileView>, keep_count: usize)
    ensures
        backup_count(files) - expired_backups(files, keep_count).len() == if keep_count
            <= backup_count(files) {
            keep_count as int
        } else {
            backup_count(files) as int
        },
{
    lemma_backups_newest_first(files);
}

/// Where the vault file lives.
pub struct VaultStorage {
    vault_path: String,
}

impl View for VaultStorage {
    type V = Seq<char>;

    closed spec fn view(&self) -> Seq<char> {
        self.vault_path@
    }
}

impl VaultStorage {
    /// A storage for the vault file at `path`.
    pub fn with_path(path: &str) -> (r: Self)
        ensures
            r@ == path@,
    {
        VaultStorage { vault_path: String::from_str(path) }
    }

    /// The path of the vault file.
    pub fn path(&self) -> (r: &str)
        ensures
            r@ == self@,
    {
        self.vault_path.as_str()
    }

    /// Whether the vault file exists. The answer is the file system's.
    pub fn file_exists(&self) -> (r: bool) {
        path_exists(self.vault_path.as_str())
    }

    /// Seals the serialised vault for the vault file, under fresh key
    /// derivation parameters (a new salt) and a new nonce.
    ///
    /// The algorithm is the one the vault file used so far, `previous`;
    /// a vault that is saved for the first time gets PBKDF2. The save
    /// succeeds for every plaintext of at most 2^36 bytes (with Argon2id,
    /// for a password of at most 2^32 - 1 bytes). The envelope that comes
    /// back is sealed with the nonce that was drawn, and gives the
    /// plaintext to whoever loads it with the same password.
    pub fn save(&self, plaintext: &[u8], password: &str, previous: Option<KdfAlgorithm>) -> (r:
        Result<EncryptedVault, Error>)
        ensures
            plaintext@.len() > MAX_PLAINTEXT_LEN ==> r is Err,
            plaintext@.len() <= MAX_PLAINTEXT_LEN && (previous == Some(KdfAlgorithm::Argon2id)
                ==> encode_utf8(password@).len() <= ARGON2_MAX_PASSWORD_LEN) ==> r is Ok,
            r matches Err(e) ==> e is Encryption,
            r matches Ok(envelope) ==> {
                &&& envelope@.version == ENVELOPE_VERSION@
                &&& is_fresh(
                    envelope@.encrypted_data.kdf_params,
                    match previous {
                        Some(algorithm) => algorithm,
                        None => KdfAlgorithm::Pbkdf2,
                    },
                )
                &&& sealed_with_password(envelope@.encrypted_data, password@, plaintext@)
                &&& loaded(envelope@, password@) == Some(plaintext@)
            },
    {
        let params = match previous {
            Some(KdfAlgorithm::Argon2id) => KdfParams::argon2(),
            _ => KdfParams::pbkdf2(),
        };
        proof {
            if encode_utf8(password@).len() <= ARGON2_MAX_PASSWORD_LEN || !(previous == Some(
                KdfAlgorithm::Argon2id,
            )) {
                lemma_fresh_params_derive(password@, params@);
            }
        }
        self.save_with_kdf(plaintext, password, params)
    }

    /// Seals the serialised vault for the vault file under the given key
    /// derivation parameters and a new nonce.
    ///
    /// It fails, with an `Encryption` error, exactly where no key can be
    /// derived or the plaintext is longer than 2^36 bytes.
    pub fn save_with_kdf(&self, plaintext: &[u8], password: &str, kdf_params: KdfParams) -> (r:
        Result<EncryptedVault, Error>)
        ensures
            r is Err <==> derived_key(password@, kdf_params@) is None || plaintext@.len()
                > MAX_PLAINTEXT_LEN,
            r matches Err(e) ==> e is Encryption,
            r matches Ok(envelope) ==> {
                &&& envelope@.version == ENVELOPE_VERSION@
                &&& envelope@.encrypted_data.kdf_params == kdf_params@
                &&& sealed_with_password(envelope@.encrypted_data, password@, plaintext@)
                &&& loaded(envelope@, password@) == Some(plaintext@)
            },
    {
        let nonce = random_nonce();
        let r = self.save_with_nonce(plaintext, password, kdf_params, nonce.as_slice());
        proof {
            if r is Ok {
                assert(sealed(
                    r->Ok_0@.encrypted_data,
                    derived_key(password@, kdf_params@)->0,
                    nonce@,
                    plaintext@,
                ));
            }
        }
        r
    }

    /// Seals the serialised vault for the vault file under the given key
    /// derivation parameters and the nonce `nonce`, which the caller drew.
    ///
    /// It fails, with an `Encryption` error, exactly where no key can be
    /// derived, the nonce is not 12 bytes, or the plaintext is longer than
    /// 2^36 bytes. The nonce of the envelope is the Base64 of `nonce`.
    pub fn save_with_nonce(
        &self,
        plaintext: &[u8],
        password: &str,
        kdf_params: KdfParams,
        nonce: &[u8],
    ) -> (r: Result<EncryptedVault, Error>)
        ensures
            r is Err <==> derived_key(password@, kdf_params@) is None || nonce@.len() != NONCE_SIZE
                || plaintext@.len() > MAX_PLAINTEXT_LEN,
            r matches Err(e) ==> e is Encryption,
            r matches Ok(envelope) ==> {
                &&& envelope@.version == ENVELOPE_VERSION@
                &&& envelope@.encrypted_data.kdf_params == kdf_params@
                &&& envelope@.encrypted_data.nonce == base64_text(nonce@)
                &&& sealed(
                    envelope@.encrypted_data,
                    derived_key(password@, kdf_params@)->0,
                    nonce@,
                    plaintext@,
                )
                &&& loaded(envelope@, password@) == Some(plaintext@)
            },
    {
        match encrypt_with_password_and_nonce(plaintext, password, kdf_params, nonce) {
            Ok(encrypted_data) => Ok(
                EncryptedVault { version: String::from_str(ENVELOPE_VERSION), encrypted_data },
            ),
            Err(e) => Err(e),
        }
    }

    /// Opens the envelope read from the vault file.
    ///
    /// Whatever fails (decoding, key derivation, authentication), the error
    /// is `InvalidPassword`: the caller cannot tell which step it was.
    pub fn load(&self, envelope: &EncryptedVault, password: &str) -> (r: Result<Vec<u8>, Error>)
        ensures
            match r {
                Ok(plaintext) => loaded(envelope@, password@) == Some(plaintext@),
                Err(e) => loaded(envelope@, password@) is None && e is InvalidPassword,
            },
    {
        match decrypt_with_password(&envelope.encrypted_data, password) {
            Ok(plaintext) => Ok(plaintext),
            Err(_) => Err(Error::InvalidPassword),
        }
    }

    /// Loads from what was found where the vault file should be.
    ///
    /// Without a file the vault is not found. Whatever else fails, from
    /// reading the envelope to authenticating the ciphertext, the error is
    /// `InvalidPassword`.
    pub fn load_file(&self, file: &VaultFile, password: &str) -> (r: Result<Vec<u8>, Error>)
        ensures
            match file@ {
                VaultFileView::Missing => r matches Err(Error::VaultNotFound),
                VaultFileView::Unreadable => r matches Err(Error::InvalidPassword),
                VaultFileView::Envelope { envelope } => match r {
                    Ok(plaintext) => loaded(envelope, password@) == Some(plaintext@),
                    Err(e) => loaded(envelope, password@) is None && e is InvalidPassword,
                },
            },
    {
        match file {
            VaultFile::Missing => Err(Error::VaultNotFound),
            VaultFile::Unreadable => Err(Error::InvalidPassword),
            VaultFile::Envelope { envelope } => self.load(envelope, password),
        }
    }

    /// The last step of a load: the vault that the plaintext was read as,
    /// or `InvalidPassword` where the plaintext was no vault. The caller
    /// cannot tell this failure from a wrong password either.
    pub fn accept(parsed: Option<Vault>) -> (r: Result<Vault, Error>)
        ensures
            match parsed {
                Some(vault) => r matches Ok(v) && v == vault,
                None => r matches Err(Error::InvalidPassword),
            },
    {
        match parsed {
            Some(vault) => Ok(vault),
            None => Err(Error::InvalidPassword),
        }
    }

    /// Whether a save of `vault` is followed by a commit and a push: its
    /// synchronisation is switched on and in the automatic mode.
    pub fn should_sync_after_save(vault: &Vault) -> (r: bool)
        ensures
            r == pushes_after_save(vault.sync_config),
    {
        match vault.sync_config {
            Some(config) => config.enabled && config.mode.is_push_on_change(),
            None => false,
        }
    }

    /// The file name of the backup taken at `unix_secs`:
    /// `vault.sf.<unix_secs>.backup`.
    pub fn backup_name(unix_secs: i64) -> (r: String)
        ensures
            r@ == backup_name_text(unix_secs),
            is_backup_name(r@),
    {
        let mut name = chars_of(VAULT_FILE_NAME);
        name.push('.');
        let stamped = concat(&name, &decimal(unix_secs));
        let full = concat(&stamped, &chars_of(BACKUP_SUFFIX));
        assert(full@ =~= backup_name_text(unix_secs));
        assert(full@.subrange(0, VAULT_FILE_NAME@.len() as int) =~= VAULT_FILE_NAME@);
        assert(full@.subrange(full@.len() - BACKUP_SUFFIX@.len(), full@.len() as int)
            =~= BACKUP_SUFFIX@);
        string_from_chars(&full)
    }

    /// The file name of a backup of the vault file, taken at `unix_secs`.
    /// Without a vault file there is nothing to back up: `VaultNotFound`.
    pub fn backup(&self, unix_secs: i64) -> (r: Result<String, Error>)
        ensures
            match r {
                Ok(name) => name@ == backup_name_text(unix_secs) && is_backup_name(name@),
                Err(e) => e is VaultNotFound,
            },
    {
        if !self.file_exists() {
            return Err(Error::VaultNotFound);
        }
        Ok(VaultStorage::backup_name(unix_secs))
    }

    /// Whether a file called `name` is a backup.
    pub fn is_backup(name: &str) -> (r: bool)
        ensures
            r == is_backup_name(name@),
    {
        let chars = chars_of(name);
        starts_with(&chars, &chars_of(VAULT_FILE_NAME)) && ends_with(
            &chars,
            &chars_of(BACKUP_SUFFIX),
        )
    }

    /// The names of the backups to delete so that only the `keep_count`
    /// most recent remain, given the files of the backup directory.
    pub fn rotate_backups(files: &Vec<BackupFile>, keep_count: usize) -> (r: Vec<String>)
        ensures
            r.deep_view() == expired_backups(files.deep_view(), keep_count),
            r.len() == if keep_count <= backup_count(files.deep_view()) {
                backup_count(files.deep_view()) - keep_count
            } else {
                0
            },
    {
        let mut sorted: Vec<BackupFile> = Vec::new();
        let mut i: usize = 0;
        assert(files.deep_view().take(0) =~= Seq::empty());
        while i < files.len()
            invariant
                i <= files.len(),
                sorted.deep_view() == backups_newest_first(files.deep_view().take(i as int)),
            decreases files.len() - i,
        {
            assert(files.deep_view().take(i + 1).drop_last() =~= files.deep_view().take(i as int));
            assert(files.deep_view().take(i + 1).last() == files[i as int].deep_view());
            if VaultStorage::is_backup(files[i].name.as_str()) {
                insert_backup(&mut sorted, &files[i]);
            }
            i = i + 1;
        }
        assert(files.deep_view().take(files.len() as int) =~= files.deep_view());
        proof {
            lemma_backups_newest_first(files.deep_view());
        }
        let mut names: Vec<String> = Vec::new();
        let mut k: usize = keep_count;
        while k < sorted.len()
            invariant
                keep_count <= k,
                sorted.deep_view() == backups_newest_first(files.deep_view()),
                sorted.len() == backup_count(files.deep_view()),
                keep_count <= sorted.len() ==> k <= sorted.len(),
                names.len() == if k <= sorted.len() { k - keep_count } else { 0 },
                forall|m: int|
                    0 <= m < names.len() ==> names[m]@ == sorted[keep_count + m].deep_view().name,
            decreases sorted.len() - k,
        {
            names.push(sorted[k].name.clone());
            k = k + 1;
        }
        proof {
            let expected = expired_backups(files.deep_view(), keep_count);
            assert(names.deep_view().len() == expected.len());
            assert forall|m: int| 0 <= m < names.len() implies names.deep_view()[m]
                == expected[m] by {
                assert(names.deep_view()[m] == names[m]@);
                assert(sorted.deep_view()[keep_count + m] == sorted[keep_count + m].deep_view());
            }
            assert(names.deep_view() =~= expected);
        }
        names
    }
}

/// Puts a copy of `file` into the sorted list, after every file that is not
/// listed after it.
fn insert_backup(sorted: &mut Vec<BackupFile>, file: &BackupFile)
    ensures
        final(sorted).deep_view() == inserted(old(sorted).deep_view(), file.deep_view()),
{
    let mut at: usize = sorted.len();
    assert(sorted.deep_view().take(at as int) =~= sorted.deep_view());
    while at > 0 && is_listed_before(&file.modified, &sorted[at - 1].modified)
        invariant
            at <= sorted.len(),
            *sorted == *old(sorted),
            inserted(sorted.deep_view(), file.deep_view()) == inserted(
                sorted.deep_view().take(at as int),
                file.deep_view(),
            ) + sorted.deep_view().skip(at as int),
        decreases at,
    {
        let ghost s = sorted.deep_view();
        assert(s.take(at as int).drop_last() =~= s.take(at - 1));
        assert(inserted(s.take(at - 1), file.deep_view()).push(s[at - 1]) + s.skip(at as int)
            =~= inserted(s.take(at - 1), file.deep_view()) + s.skip(at - 1));
        at = at - 1;
    }
    let ghost s = sorted.deep_view();
    assert(inserted(s.take(at as int), file.deep_view()) == s.take(at as int).push(
        file.deep_view(),
    ));
    sorted.insert(at, BackupFile { name: file.name.clone(), modified: file.modified });
    assert(final(sorted).deep_view() =~= s.take(at as int).push(file.deep_view()) + s.skip(
        at as int,
    ));
}

/// Whether a file modified at `a` is listed before one modified at `b`.
pub fn is_listed_before(a: &Option<Timestamp>, b: &Option<Timestamp>) -> (r: bool)
    ensures
        r == listed_before(*a, *b),
{
    match (a, b) {
        (None, Some(_)) => true,
        (Some(x), Some(y)) => x.is_after(y),
        _ => false,
    }
}

} // verus!
