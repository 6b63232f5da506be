use securefox::clock::Timestamp;
use securefox::crypto::{KdfAlgorithm, KdfParams};
use securefox::errors::Error;
use securefox::models::{Item, SyncConfig, Vault};
use securefox::storage::{is_listed_before, BackupFile, VaultFile, VaultStorage};

fn file(name: &str, modified: Option<i64>) -> BackupFile {
    BackupFile {
        name: name.to_string(),
        modified: modified.map(|secs| Timestamp { secs, nanos: 0 }),
    }
}

/// A stand-in for the serialised vault: the names of its items, one per line.
fn serialise(vault: &Vault) -> Vec<u8> {
    let names: Vec<&str> = vault.items.iter().map(|i| i.name.as_str()).collect();
    names.join("\n").into_bytes()
}

#[test]
fn test_save_and_load_vault() {
    let storage = VaultStorage::with_path("test.vault");

    let mut vault = Vault::new();
    vault.add_item(Item::new_login("test@example.com"));

    let password = "test_password";
    let envelope = storage.save(&serialise(&vault), password, None).unwrap();

    let loaded = storage.load(&envelope, password).unwrap();
    let names = String::from_utf8(loaded).unwrap();
    assert_eq!(names.lines().count(), 1);
    assert_eq!(names.lines().next().unwrap(), "test@example.com");
}

#[test]
fn storage_test_wrong_password_fails() {
    let storage = VaultStorage::with_path("test.vault");

    let vault = Vault::new();
    let envelope = storage.save(&serialise(&vault), "correct_password", None).unwrap();

    let result = storage.load(&envelope, "wrong_password");
    assert!(result.is_err());
}

#[test]
fn test_backup_creation() {
    let name = VaultStorage::backup_name(1_700_000_000);
    assert!(name.contains(".backup"));
    assert!(VaultStorage::is_backup(&name));
}

#[test]
fn wrong_password_is_invalid_password_and_nothing_else() {
    let storage = VaultStorage::with_path("vault.sf");
    let envelope = storage.save(b"{}", "right", None).unwrap();
    assert!(matches!(storage.load(&envelope, "wrong"), Err(Error::InvalidPassword)));
    assert!(matches!(storage.load(&envelope, ""), Err(Error::InvalidPassword)));
    assert!(matches!(storage.load(&envelope, "right "), Err(Error::InvalidPassword)));
    assert_eq!(storage.load(&envelope, "right").unwrap(), b"{}".to_vec());
}

#[test]
fn every_broken_envelope_is_invalid_password() {
    let storage = VaultStorage::with_path("vault.sf");
    let mut envelope = storage.save(b"secret", "pw", None).unwrap();
    envelope.encrypted_data.nonce = "not base64".to_string();
    assert!(matches!(storage.load(&envelope, "pw"), Err(Error::InvalidPassword)));

    let mut envelope = storage.save(b"secret", "pw", None).unwrap();
    envelope.encrypted_data.ciphertext = "AAAA".to_string();
    assert!(matches!(storage.load(&envelope, "pw"), Err(Error::InvalidPassword)));

    let mut envelope = storage.save(b"secret", "pw", None).unwrap();
    envelope.encrypted_data.kdf_params.salt = "%%%".to_string();
    assert!(matches!(storage.load(&envelope, "pw"), Err(Error::InvalidPassword)));

    let mut envelope = storage.save(b"secret", "pw", None).unwrap();
    envelope.encrypted_data.kdf_params.iterations += 1;
    assert!(matches!(storage.load(&envelope, "pw"), Err(Error::InvalidPassword)));

    let mut envelope = storage.save(b"secret", "pw", None).unwrap();
    let mut flipped = envelope.encrypted_data.ciphertext.into_bytes();
    flipped[0] = if flipped[0] == b'A' { b'B' } else { b'A' };
    envelope.encrypted_data.ciphertext = String::from_utf8(flipped).unwrap();
    assert!(matches!(storage.load(&envelope, "pw"), Err(Error::InvalidPassword)));
}

#[test]
fn envelope_carries_version_and_fresh_parameters() {
    let storage = VaultStorage::with_path("vault.sf");
    let first = storage.save(b"v", "pw", None).unwrap();
    assert_eq!(first.version, "1.0.0");
    assert_eq!(first.encrypted_data.kdf_params.algorithm, KdfAlgorithm::Pbkdf2);
    assert_eq!(first.encrypted_data.kdf_params.iterations, 100_000);
    let second = storage.save(b"v", "pw", Some(KdfAlgorithm::Pbkdf2)).unwrap();
    assert_eq!(second.encrypted_data.kdf_params.algorithm, KdfAlgorithm::Pbkdf2);
    assert_ne!(first.encrypted_data.kdf_params.salt, second.encrypted_data.kdf_params.salt);
    assert_ne!(first.encrypted_data.nonce, second.encrypted_data.nonce);
    assert_ne!(first.encrypted_data.ciphertext, second.encrypted_data.ciphertext);
}

#[test]
fn save_keeps_the_algorithm_of_the_vault() {
    let storage = VaultStorage::with_path("vault.sf");
    let password = "correct horse battery staple";
    let first = storage.save_with_kdf(b"vault", password, KdfParams::argon2()).unwrap();
    assert_eq!(first.encrypted_data.kdf_params.algorithm, KdfAlgorithm::Argon2id);
    assert_eq!(first.encrypted_data.kdf_params.memory_kb, Some(19456));
    assert_eq!(storage.load(&first, password).unwrap(), b"vault".to_vec());

    let algorithm = first.encrypted_data.kdf_params.algorithm;
    let second = storage.save(b"vault 2", password, Some(algorithm)).unwrap();
    assert_eq!(second.encrypted_data.kdf_params.algorithm, KdfAlgorithm::Argon2id);
    assert_eq!(second.encrypted_data.kdf_params.iterations, 2);
    assert_eq!(second.encrypted_data.kdf_params.parallelism, Some(1));
    assert_ne!(first.encrypted_data.kdf_params.salt, second.encrypted_data.kdf_params.salt);
    assert_eq!(storage.load(&second, password).unwrap(), b"vault 2".to_vec());
    assert!(matches!(storage.load(&second, "wrong"), Err(Error::InvalidPassword)));
}

#[test]
fn save_with_kdf_refuses_parameters_without_a_key() {
    let storage = VaultStorage::with_path("vault.sf");
    let params = KdfParams {
        algorithm: KdfAlgorithm::Pbkdf2,
        salt: "***".to_string(),
        memory_kb: None,
        iterations: 1,
        parallelism: None,
    };
    assert!(matches!(storage.save_with_kdf(b"v", "pw", params), Err(Error::Encryption(_))));
}

#[test]
fn storage_remembers_its_path() {
    let storage = VaultStorage::with_path("/home/u/.securefox/vault.sf");
    assert_eq!(storage.path(), "/home/u/.securefox/vault.sf");
    assert!(!VaultStorage::with_path("/no/such/dir/vault.sf").file_exists());
    assert!(VaultStorage::with_path("/").file_exists());
}

#[test]
fn push_after_save_only_in_auto_mode_and_switched_on() {
    let mut vault = Vault::new();
    assert!(!VaultStorage::should_sync_after_save(&vault));
    vault.sync_config = Some(SyncConfig::manual());
    assert!(!VaultStorage::should_sync_after_save(&vault));
    vault.sync_config = Some(SyncConfig::disabled());
    assert!(!VaultStorage::should_sync_after_save(&vault));
    vault.sync_config = Some(SyncConfig::auto(60));
    assert!(VaultStorage::should_sync_after_save(&vault));
    let mut off = SyncConfig::auto(60);
    off.enabled = false;
    vault.sync_config = Some(off);
    assert!(!VaultStorage::should_sync_after_save(&vault));
}

#[test]
fn backup_names() {
    assert_eq!(VaultStorage::backup_name(1_700_000_000), "vault.sf.1700000000.backup");
    assert_eq!(VaultStorage::backup_name(0), "vault.sf.0.backup");
    assert_eq!(VaultStorage::backup_name(7), "vault.sf.7.backup");
    assert_eq!(VaultStorage::backup_name(10), "vault.sf.10.backup");
    assert_eq!(VaultStorage::backup_name(-5), "vault.sf.-5.backup");
    assert_eq!(VaultStorage::backup_name(i64::MAX), "vault.sf.9223372036854775807.backup");
    assert_eq!(VaultStorage::backup_name(i64::MIN), "vault.sf.-9223372036854775808.backup");
}

#[test]
fn what_counts_as_a_backup() {
    assert!(VaultStorage::is_backup("vault.sf.1.backup"));
    assert!(VaultStorage::is_backup("vault.sf.backup"));
    assert!(VaultStorage::is_backup("vault.sfx.backup"));
    assert!(!VaultStorage::is_backup("vault.sf"));
    assert!(!VaultStorage::is_backup("vault.sf.1.backup.tmp"));
    assert!(!VaultStorage::is_backup("my-vault.sf.1.backup"));
    assert!(!VaultStorage::is_backup(".backup"));
    assert!(!VaultStorage::is_backup(""));
    assert!(!VaultStorage::is_backup("vault.s.backup"));
}

#[test]
fn rotation_keeps_the_newest() {
    let files = vec![
        file("vault.sf.1.backup", Some(100)),
        file("notes.txt", Some(999)),
        file("vault.sf.3.backup", Some(300)),
        file("vault.sf.2.backup", Some(200)),
        file("vault.sf.4.backup", Some(400)),
    ];
    assert_eq!(
        VaultStorage::rotate_backups(&files, 2),
        vec!["vault.sf.2.backup".to_string(), "vault.sf.1.backup".to_string()]
    );
    assert_eq!(VaultStorage::rotate_backups(&files, 3), vec!["vault.sf.1.backup".to_string()]);
    assert_eq!(
        VaultStorage::rotate_backups(&files, 0),
        vec![
            "vault.sf.4.backup".to_string(),
            "vault.sf.3.backup".to_string(),
            "vault.sf.2.backup".to_string(),
            "vault.sf.1.backup".to_string()
        ]
    );
}

#[test]
fn rotation_leaves_the_minimum_of_n_and_the_backups() {
    let files: Vec<BackupFile> =
        (0..5).map(|i| file(&format!("vault.sf.{}.backup", i), Some(i))).collect();
    for keep in 0..8usize {
        let deleted = VaultStorage::rotate_backups(&files, keep);
        assert_eq!(files.len() - deleted.len(), keep.min(files.len()));
    }
    assert!(VaultStorage::rotate_backups(&files, usize::MAX).is_empty());
    assert!(VaultStorage::rotate_backups(&Vec::new(), 0).is_empty());
    assert!(VaultStorage::rotate_backups(&Vec::new(), 3).is_empty());
    let others = vec![file("a.txt", Some(1)), file("b.txt", Some(2))];
    assert!(VaultStorage::rotate_backups(&others, 0).is_empty());
}

#[test]
fn rotation_lists_files_of_unknown_age_first_and_keeps_ties_in_order() {
    let files = vec![
        file("vault.sf.a.backup", Some(5)),
        file("vault.sf.b.backup", None),
        file("vault.sf.c.backup", Some(5)),
        file("vault.sf.d.backup", None),
        file("vault.sf.e.backup", Some(9)),
    ];
    assert_eq!(
        VaultStorage::rotate_backups(&files, 0),
        vec![
            "vault.sf.b.backup".to_string(),
            "vault.sf.d.backup".to_string(),
            "vault.sf.e.backup".to_string(),
            "vault.sf.a.backup".to_string(),
            "vault.sf.c.backup".to_string()
        ]
    );
    assert_eq!(
        VaultStorage::rotate_backups(&files, 3),
        vec!["vault.sf.a.backup".to_string(), "vault.sf.c.backup".to_string()]
    );
}

#[test]
fn listing_order() {
    let t = |secs, nanos| Some(Timestamp { secs, nanos });
    assert!(is_listed_before(&None, &t(1, 0)));
    assert!(!is_listed_before(&t(1, 0), &None));
    assert!(!is_listed_before(&None, &None));
    assert!(is_listed_before(&t(2, 0), &t(1, 0)));
    assert!(is_listed_before(&t(1, 1), &t(1, 0)));
    assert!(!is_listed_before(&t(1, 0), &t(1, 0)));
    assert!(!is_listed_before(&t(1, 0), &t(2, 0)));
}

#[test]
fn backup_needs_a_vault_file() {
    assert!(matches!(
        VaultStorage::with_path("/no/such/dir/vault.sf").backup(5),
        Err(Error::VaultNotFound)
    ));
    assert_eq!(VaultStorage::with_path("/").backup(5).unwrap(), "vault.sf.5.backup");
}

#[test]
fn loading_from_what_is_on_disk() {
    let storage = VaultStorage::with_path("vault.sf");
    assert!(matches!(storage.load_file(&VaultFile::Missing, "pw"), Err(Error::VaultNotFound)));
    assert!(matches!(storage.load_file(&VaultFile::Unreadable, "pw"), Err(Error::InvalidPassword)));
    let envelope = storage.save(b"vault", "pw", None).unwrap();
    let file = VaultFile::Envelope { envelope };
    assert_eq!(storage.load_file(&file, "pw").unwrap(), b"vault".to_vec());
    assert!(matches!(storage.load_file(&file, "other"), Err(Error::InvalidPassword)));
    assert!(matches!(VaultStorage::accept(None), Err(Error::InvalidPassword)));
    let mut vault = Vault::new();
    vault.add_item(Item::new_login("kept"));
    assert_eq!(VaultStorage::accept(Some(vault)).unwrap().items[0].name, "kept");
}

#[test]
fn the_envelope_carries_the_nonce_that_was_drawn() {
    let storage = VaultStorage::with_path("vault.sf");
    let zero = storage.save_with_nonce(b"vault", "pw", KdfParams::pbkdf2(), &[0u8; 12]).unwrap();
    assert_eq!(zero.encrypted_data.nonce, "AAAAAAAAAAAAAAAA");
    let ones = storage.save_with_nonce(b"vault", "pw", KdfParams::pbkdf2(), &[255u8; 12]).unwrap();
    assert_eq!(ones.encrypted_data.nonce, "////////////////");
    assert_eq!(ones.version, "1.0.0");
    assert_eq!(storage.load(&ones, "pw").unwrap(), b"vault".to_vec());
    assert!(matches!(
        storage.save_with_nonce(b"vault", "pw", KdfParams::pbkdf2(), &[0u8; 13]),
        Err(Error::Encryption(_))
    ));
    // A save draws its own nonce: never the same twice, never all zero.
    let a = storage.save(b"vault", "pw", None).unwrap();
    let b = storage.save(b"vault", "pw", None).unwrap();
    assert_ne!(a.encrypted_data.nonce, b.encrypted_data.nonce);
    assert_ne!(a.encrypted_data.nonce, "AAAAAAAAAAAAAAAA");
}

#[test]
fn a_save_with_argon2id_succeeds() {
    let storage = VaultStorage::with_path("vault.sf");
    for password in ["", "pw", "correct horse battery staple"] {
        let envelope = storage.save(b"vault", password, Some(KdfAlgorithm::Argon2id)).unwrap();
        assert_eq!(envelope.encrypted_data.kdf_params.salt.len(), 22);
        assert_eq!(storage.load(&envelope, password).unwrap(), b"vault".to_vec());
    }
}
