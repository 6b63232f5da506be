use securefox::clock::Timestamp;
use securefox::config::{ConfigManager, SyncConfigFile};
use securefox::errors::{cli_report, prefixed, ApiError, Error};
use securefox::keychain::Keychain;
use securefox::models::SyncConfig;
use securefox::sync_daemon::{DaemonStep, SyncDaemon};
use securefox::text;

fn chars(s: &str) -> Vec<char> {
    s.chars().collect()
}

#[test]
fn core_error_messages() {
    let d = || "detail".to_string();
    assert_eq!(Error::Io(d()).message(), "IO error: detail");
    assert_eq!(Error::Json(d()).message(), "JSON error: detail");
    assert_eq!(Error::Encryption(d()).message(), "Encryption error: detail");
    assert_eq!(Error::Decryption(d()).message(), "Decryption error: detail");
    assert_eq!(Error::InvalidPassword.message(), "Invalid password");
    assert_eq!(Error::VaultNotFound.message(), "Vault not found");
    assert_eq!(Error::ItemNotFound(d()).message(), "Item not found: detail");
    assert_eq!(Error::InvalidTotp.message(), "Invalid TOTP secret");
    assert_eq!(Error::Keychain(d()).message(), "Keychain error: detail");
    assert_eq!(Error::Git(d()).message(), "Git error: detail");
    assert_eq!(Error::Import(d()).message(), "Import error: detail");
    assert_eq!(Error::Other(d()).message(), "Other error: detail");
    assert_eq!(prefixed("a", &"b".to_string()), "ab");
    assert_eq!(cli_report(&Error::VaultNotFound.message()), "✗ Error: Vault not found");
}

#[test]
fn api_errors_have_status_label_and_message() {
    let cases = [
        (ApiError::Unauthorized, 401, "Unauthorized", "Unauthorized"),
        (ApiError::NotFound, 404, "Not found", "Not found"),
        (ApiError::BadRequest("x".to_string()), 400, "Bad request", "Bad request: x"),
        (ApiError::Internal("x".to_string()), 500, "Internal error", "Internal error: x"),
        (ApiError::VaultLocked, 403, "Vault is locked", "Vault locked"),
        (ApiError::InvalidPassword, 401, "Invalid password", "Invalid password"),
        (ApiError::SessionExpired, 401, "Session expired", "Session expired"),
    ];
    for (error, status, label, message) in cases {
        assert_eq!(error.status_code(), status);
        assert_eq!(error.label(), label);
        assert_eq!(error.message(), message);
        let sent = if status == 500 { label } else { message };
        assert_eq!(error.wire_message(), sent);
    }
}

#[test]
fn core_errors_become_api_errors() {
    assert!(matches!(ApiError::from_core(Error::InvalidPassword), ApiError::InvalidPassword));
    assert!(matches!(ApiError::from_core(Error::VaultNotFound), ApiError::NotFound));
    assert!(matches!(ApiError::from_core(Error::ItemNotFound("x".to_string())), ApiError::NotFound));
    match ApiError::from_core(Error::Git("no remote".to_string())) {
        ApiError::Internal(message) => assert_eq!(message, "Git error: no remote"),
        other => panic!("{:?}", other),
    }
    match ApiError::from_core(Error::InvalidTotp) {
        ApiError::Internal(message) => assert_eq!(message, "Invalid TOTP secret"),
        other => panic!("{:?}", other),
    }
    assert_eq!(ApiError::from_core(Error::Io("x".to_string())).status_code(), 500);
}

#[test]
fn config_manager_keeps_its_path_and_updates_one_field() {
    let manager = ConfigManager::with_path("/home/u/.securefox/config");
    assert_eq!(manager.path(), "/home/u/.securefox/config");
    assert!(!ConfigManager::with_path("/no/such/config").file_exists());
    assert!(ConfigManager::with_path("/").file_exists());

    let empty = SyncConfigFile::default();
    assert!(empty.remote_url.is_none() && empty.sync_config.is_none());
    let with_url = manager.update_remote_url(empty, Some("git@host:repo.git".to_string()));
    assert_eq!(with_url.remote_url.as_deref(), Some("git@host:repo.git"));
    assert!(with_url.sync_config.is_none());
    let with_sync = manager.update_sync_config(with_url, Some(SyncConfig::auto(120)));
    assert_eq!(with_sync.remote_url.as_deref(), Some("git@host:repo.git"));
    assert_eq!(with_sync.sync_config, Some(SyncConfig::auto(120)));
    let cleared = manager.update_remote_url(with_sync, None);
    assert!(cleared.remote_url.is_none());
    assert_eq!(cleared.sync_config, Some(SyncConfig::auto(120)));
    let reset = manager.update_sync_config(cleared, None);
    assert!(reset.sync_config.is_none());
}

#[test]
fn keychain_names_and_key_encoding() {
    assert_eq!(Keychain::new().service(), "SecureFox");
    assert_eq!(Keychain::default().service(), "SecureFox");
    let keychain = Keychain::with_service("SecureFox_Test");
    assert_eq!(keychain.service(), "SecureFox_Test");
    assert_eq!(keychain.encode_master_key(b"test"), "dGVzdA==");
    assert_eq!(keychain.encode_master_key(b""), "");
    let key: Vec<u8> = (0u8..16).collect();
    assert_eq!(keychain.encode_master_key(&key), "AAECAwQFBgcICQoLDA0ODw==");
    assert_eq!(keychain.decode_master_key("dGVzdA==").unwrap(), b"test".to_vec());
    assert_eq!(keychain.decode_master_key("AAECAwQFBgcICQoLDA0ODw==").unwrap(), key);
    assert!(matches!(keychain.decode_master_key("not base64"), Err(Error::Keychain(_))));
    assert!(matches!(keychain.decode_master_key("dGVzdA"), Err(Error::Keychain(_))));
    let stored = keychain.encode_master_key(b"test_master_key_12345678");
    assert_eq!(keychain.decode_master_key(&stored).unwrap(), b"test_master_key_12345678".to_vec());
}

#[test]
fn daemon_plans_by_the_configuration() {
    let mut daemon = SyncDaemon::new("/home/u/.securefox");
    assert_eq!(daemon.vault_path(), "/home/u/.securefox");
    let recheck = DaemonStep::Recheck { after_seconds: 30 };
    assert_eq!(daemon.next_step(), recheck);
    daemon.update_config(Some(SyncConfig::manual()));
    assert_eq!(daemon.next_step(), recheck);
    daemon.update_config(Some(SyncConfig::disabled()));
    assert_eq!(daemon.next_step(), recheck);
    daemon.update_config(Some(SyncConfig::auto(300)));
    assert_eq!(daemon.next_step(), DaemonStep::PullAfter { seconds: 300 });
    daemon.update_config(Some(SyncConfig::auto(1)));
    assert_eq!(daemon.next_step(), DaemonStep::PullAfter { seconds: 1 });
    daemon.update_config(Some(SyncConfig::auto(0)));
    assert_eq!(daemon.next_step(), recheck);
    let mut off = SyncConfig::auto(300);
    off.enabled = false;
    daemon.update_config(Some(off));
    assert_eq!(daemon.next_step(), recheck);
    daemon.update_config(None);
    assert_eq!(daemon.next_step(), recheck);
    assert!(SyncDaemon::should_pull(1));
    assert!(!SyncDaemon::should_pull(0));
}

#[test]
fn text_helpers() {
    assert_eq!(text::chars_of("héllo"), chars("héllo"));
    assert!(text::same_text("abc", "abc"));
    assert!(!text::same_text("abc", "abd"));
    assert!(!text::same_text("abc", "ab"));
    assert!(text::same_text("", ""));
    assert!(text::same_text("é", "é"));
    assert!(text::same_optional_text(&None, &None));
    assert!(!text::same_optional_text(&Some("a".to_string()), &None));
    assert!(text::same_optional_text(&Some("a".to_string()), &Some("a".to_string())));
    assert_eq!(text::trim(&chars("  a b \t\n")), chars("a b"));
    assert_eq!(text::trim(&chars("   ")), chars(""));
    assert_eq!(text::trim(&chars("")), chars(""));
    assert_eq!(text::trim(&chars("x")), chars("x"));
    assert_eq!(text::strip_spaces(&chars(" a\u{2003}b c ")), chars("abc"));
    assert_eq!(text::to_ascii_uppercase(&chars("aZ09é{`")), chars("AZ09é{`"));
    assert_eq!(text::upper('a'), 'A');
    assert_eq!(text::upper('z'), 'Z');
    assert_eq!(text::upper('`'), '`');
    assert_eq!(text::upper('{'), '{');
    assert!(text::starts_with(&chars("abc"), &chars("ab")));
    assert!(text::starts_with(&chars("abc"), &chars("")));
    assert!(!text::starts_with(&chars("abc"), &chars("abcd")));
    assert!(!text::starts_with(&chars("abc"), &chars("b")));
    assert!(text::ends_with(&chars("abc"), &chars("bc")));
    assert!(text::ends_with(&chars("abc"), &chars("")));
    assert!(!text::ends_with(&chars("abc"), &chars("ab")));
    assert!(text::contains(&chars("hello"), &chars("ell")));
    assert!(text::contains(&chars("hello"), &chars("")));
    assert!(text::contains(&chars(""), &chars("")));
    assert!(text::contains(&chars("hello"), &chars("hello")));
    assert!(text::contains(&chars("hello"), &chars("o")));
    assert!(!text::contains(&chars("hello"), &chars("hello!")));
    assert!(!text::contains(&chars("hello"), &chars("lol")));
    assert_eq!(text::skip_chars(&chars("Bearer x"), 7), chars("x"));
    assert_eq!(text::concat(&chars("ab"), &chars("cd")), chars("abcd"));
    assert_eq!(text::duplicate_bytes(&vec![1, 2, 3]), vec![1, 2, 3]);
    assert_eq!(text::duplicate_text(&Some("a".to_string())), Some("a".to_string()));
}

#[test]
fn white_space_is_unicode_white_space() {
    for code in 0u32..0x11_0000 {
        if let Some(c) = char::from_u32(code) {
            assert_eq!(text::is_whitespace(c), c.is_whitespace(), "{:x}", code);
        }
    }
}

#[test]
fn decimal_text_of_numbers() {
    let text_of = |n: i64| text::decimal(n).into_iter().collect::<String>();
    for n in [0, 1, 9, 10, 11, 99, 100, 12345, -1, -9, -10, -12345, i64::MAX, i64::MIN, i64::MIN + 1] {
        assert_eq!(text_of(n), n.to_string());
    }
}

#[test]
fn timestamps_compare() {
    let a = Timestamp { secs: -1, nanos: 999_999_999 };
    let b = Timestamp { secs: 0, nanos: 0 };
    assert!(b.is_after(&a));
    assert!(!a.is_after(&b));
    assert_eq!(a.latest(b), b);
}
