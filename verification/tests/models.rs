use securefox::clock::Timestamp;
use securefox::models::{
    FieldType, Folder, Item, ItemType, LoginData, SecureNoteType, SyncConfig, SyncMode,
    UriMatchType, Vault,
};

fn at(secs: i64) -> Timestamp {
    Timestamp { secs, nanos: 0 }
}

#[test]
fn test_vault_creation() {
    let vault = Vault::new();
    assert_eq!(vault.items.len(), 0);
    assert_eq!(vault.folders.len(), 0);
    assert!(!vault.encrypted);
}

#[test]
fn test_item_creation() {
    let item = Item::new_login("test@example.com");
    assert_eq!(item.item_type, ItemType::login());
    assert!(item.login.is_some());
}

#[test]
fn new_vault_has_the_schema_version_and_no_sync_config() {
    let vault = Vault::new_at(at(100));
    assert_eq!(vault.version, "1.0.0");
    assert_eq!(vault.sync_time, at(100));
    assert!(vault.sync_config.is_none());
    let by_default = Vault::default();
    assert_eq!(by_default.items.len(), 0);
}

#[test]
fn type_codes_follow_bitwarden() {
    assert_eq!(ItemType::login().0, 1);
    assert_eq!(ItemType::secure_note().0, 2);
    assert_eq!(ItemType::card().0, 3);
    assert_eq!(ItemType::identity().0, 4);
    assert_eq!(UriMatchType::base_domain().0, 0);
    assert_eq!(UriMatchType::host().0, 1);
    assert_eq!(UriMatchType::starts_with().0, 2);
    assert_eq!(UriMatchType::exact().0, 3);
    assert_eq!(UriMatchType::regex().0, 4);
    assert_eq!(UriMatchType::never().0, 5);
    assert_eq!(FieldType::text().0, 0);
    assert_eq!(FieldType::hidden().0, 1);
    assert_eq!(FieldType::boolean().0, 2);
    assert_eq!(SecureNoteType::generic().0, 0);
    assert_eq!(SecureNoteType::default(), SecureNoteType::generic());
}

#[test]
fn new_login_is_blank_and_dated_once() {
    let item = Item::new_login_with("id-1".to_string(), "GitHub", at(5));
    assert_eq!(item.id, "id-1");
    assert_eq!(item.name, "GitHub");
    assert_eq!(item.item_type, ItemType::login());
    assert!(!item.favorite);
    assert!(item.folder_id.is_none() && item.notes.is_none());
    let login = item.login.unwrap();
    assert!(login.username.is_none() && login.password.is_none());
    assert!(login.totp.is_none() && login.uris.is_none());
    assert!(item.card.is_none() && item.identity.is_none() && item.secure_note.is_none());
    assert!(item.fields.is_none() && item.reprompt.is_none());
    assert_eq!(item.creation_date, at(5));
    assert_eq!(item.revision_date, at(5));
}

#[test]
fn new_items_get_a_uuid() {
    let a = Item::new_login("a");
    let b = Item::new_secure_note("b");
    assert_eq!(a.id.len(), 36);
    assert_eq!(b.id.len(), 36);
    assert_ne!(a.id, b.id);
    assert_eq!(a.creation_date, a.revision_date);
    let folder = Folder::new("Work");
    assert_eq!(folder.id.len(), 36);
    assert_eq!(folder.name, "Work");
    assert_eq!(folder.id.chars().filter(|c| *c == '-').count(), 4);
}

#[test]
fn new_secure_note_is_generic() {
    let item = Item::new_secure_note_with("n".to_string(), "Note", at(9));
    assert_eq!(item.item_type, ItemType::secure_note());
    assert!(item.login.is_none());
    assert_eq!(item.secure_note.unwrap().type_, SecureNoteType::generic());
    assert_eq!(item.revision_date, at(9));
}

#[test]
fn add_get_remove_items() {
    let mut vault = Vault::new_at(at(1));
    vault.add_item_at(Item::new_login_with("a".to_string(), "A", at(1)), at(2));
    vault.add_item_at(Item::new_login_with("b".to_string(), "B", at(1)), at(3));
    assert_eq!(vault.items.len(), 2);
    assert_eq!(vault.sync_time, at(3));
    assert_eq!(vault.position("a"), Some(0));
    assert_eq!(vault.position("b"), Some(1));
    assert_eq!(vault.position("c"), None);
    assert_eq!(vault.get_item("b").unwrap().name, "B");
    assert!(vault.get_item("zz").is_none());

    let removed = vault.remove_item_at("a", at(4)).unwrap();
    assert_eq!(removed.name, "A");
    assert_eq!(vault.items.len(), 1);
    assert_eq!(vault.items[0].id, "b");
    assert_eq!(vault.sync_time, at(4));

    assert!(vault.remove_item_at("a", at(9)).is_none());
    assert_eq!(vault.sync_time, at(4));
    assert_eq!(vault.items.len(), 1);
}

#[test]
fn first_of_two_items_with_one_id_is_the_one_found() {
    let mut vault = Vault::new_at(at(0));
    vault.add_item_at(Item::new_login_with("x".to_string(), "first", at(0)), at(0));
    vault.add_item_at(Item::new_login_with("x".to_string(), "second", at(0)), at(0));
    assert_eq!(vault.get_item("x").unwrap().name, "first");
    let removed = vault.remove_item_at("x", at(1)).unwrap();
    assert_eq!(removed.name, "first");
    assert_eq!(vault.get_item("x").unwrap().name, "second");
}

#[test]
fn sync_time_never_goes_back() {
    let mut vault = Vault::new_at(at(100));
    vault.add_item_at(Item::new_login_with("a".to_string(), "A", at(1)), at(50));
    assert_eq!(vault.sync_time, at(100));
    vault.add_item_at(Item::new_login_with("b".to_string(), "B", at(1)), at(150));
    assert_eq!(vault.sync_time, at(150));
    vault.remove_item_at("a", at(10));
    assert_eq!(vault.sync_time, at(150));
    let later = Timestamp { secs: 150, nanos: 1 };
    assert!(vault.replace_item_at("b", Item::new_login_with("b".to_string(), "B2", at(1)), later));
    assert_eq!(vault.sync_time, later);
}

#[test]
fn replace_item_keeps_the_place() {
    let mut vault = Vault::new_at(at(0));
    vault.add_item_at(Item::new_login_with("a".to_string(), "A", at(0)), at(0));
    vault.add_item_at(Item::new_login_with("b".to_string(), "B", at(0)), at(0));
    vault.add_item_at(Item::new_login_with("c".to_string(), "C", at(0)), at(0));
    assert!(vault.replace_item_at("b", Item::new_login_with("b".to_string(), "B2", at(0)), at(1)));
    assert_eq!(vault.items[0].name, "A");
    assert_eq!(vault.items[1].name, "B2");
    assert_eq!(vault.items[2].name, "C");
    assert!(!vault.replace_item_at("z", Item::new_login_with("z".to_string(), "Z", at(0)), at(2)));
    assert_eq!(vault.items.len(), 3);
    assert_eq!(vault.sync_time, at(2));
}

#[test]
fn add_and_remove_by_the_clock() {
    let mut vault = Vault::new();
    let made = vault.sync_time;
    vault.add_item(Item::new_login("a"));
    assert_eq!(vault.items.len(), 1);
    assert!(!made.is_after(&vault.sync_time));
    let id = vault.items[0].id.clone();
    assert!(vault.remove_item(&id).is_some());
    assert!(vault.remove_item(&id).is_none());
}

#[test]
fn duplicate_is_a_deep_copy() {
    let mut item = Item::new_login_with("a".to_string(), "A", at(7));
    item.login = Some(LoginData {
        username: Some("u".to_string()),
        password: Some("p".to_string()),
        totp: None,
        uris: None,
    });
    let copy = item.duplicate();
    assert_eq!(copy.id, "a");
    assert_eq!(copy.login.unwrap().username.unwrap(), "u");
    let mut vault = Vault::new_at(at(0));
    vault.add_item_at(item, at(1));
    let twin = vault.duplicate();
    assert_eq!(twin.items.len(), 1);
    assert_eq!(twin.items[0].name, "A");
    assert_eq!(twin.sync_time, at(1));
}

#[test]
fn sync_config_constructors() {
    assert_eq!(SyncConfig::disabled(), SyncConfig { enabled: false, mode: SyncMode::Manual });
    assert_eq!(SyncConfig::manual(), SyncConfig { enabled: true, mode: SyncMode::Manual });
    assert_eq!(SyncConfig::default(), SyncConfig::manual());
    let auto = SyncConfig { enabled: true, mode: SyncMode::Auto { interval_seconds: 60 } };
    assert_eq!(SyncConfig::auto(60), auto);
    assert_eq!(SyncConfig::auto_pull(60), auto);
    assert_eq!(SyncConfig::full(60), auto);
}

#[test]
fn sync_mode_answers() {
    let manual = SyncMode::Manual;
    assert!(!manual.is_auto_pull());
    assert!(!manual.is_push_on_change());
    assert_eq!(manual.interval_seconds(), None);
    let auto = SyncMode::Auto { interval_seconds: 300 };
    assert!(auto.is_auto_pull());
    assert!(auto.is_push_on_change());
    assert_eq!(auto.interval_seconds(), Some(300));
    assert_eq!(SyncMode::Auto { interval_seconds: 0 }.interval_seconds(), Some(0));
}

#[test]
fn timestamps_order_by_seconds_then_nanoseconds() {
    let a = Timestamp { secs: 10, nanos: 5 };
    let b = Timestamp { secs: 10, nanos: 6 };
    let c = Timestamp { secs: 11, nanos: 0 };
    assert!(b.is_after(&a) && c.is_after(&b) && c.is_after(&a));
    assert!(!a.is_after(&a) && !a.is_after(&b));
    assert_eq!(a.latest(b), b);
    assert_eq!(b.latest(a), b);
    assert_eq!(a.plus_secs(30), Timestamp { secs: 40, nanos: 5 });
    assert_eq!(a.plus_secs(0), a);
    let early = Timestamp { secs: -5, nanos: 1 };
    assert_eq!(early.plus_secs(3), Timestamp { secs: -2, nanos: 1 });
    assert_eq!(early.plus_secs(5), Timestamp { secs: 0, nanos: 1 });
    assert_eq!(early.plus_secs(7), Timestamp { secs: 2, nanos: 1 });
    let lowest = Timestamp { secs: i64::MIN, nanos: 0 };
    assert_eq!(lowest.plus_secs(u64::MAX), Timestamp { secs: i64::MAX, nanos: 0 });
    assert_eq!(lowest.plus_secs(1), Timestamp { secs: i64::MIN + 1, nanos: 0 });
    let top = Timestamp { secs: i64::MAX - 1, nanos: 0 };
    assert_eq!(top.plus_secs(1).secs, i64::MAX);
}

#[test]
fn get_item_mut_changes_the_item_in_place() {
    let mut vault = Vault::new_at(at(0));
    vault.add_item_at(Item::new_login_with("a".to_string(), "A", at(0)), at(0));
    vault.add_item_at(Item::new_login_with("b".to_string(), "B", at(0)), at(0));
    match vault.get_item_mut_at("b", at(5)) {
        Some(item) => item.name = "B2".to_string(),
        None => panic!("no item"),
    }
    assert_eq!(vault.items[0].name, "A");
    assert_eq!(vault.items[1].name, "B2");
    assert_eq!(vault.sync_time, at(5));
    assert!(vault.get_item_mut_at("zz", at(6)).is_none());
    assert_eq!(vault.sync_time, at(6));
    assert_eq!(vault.items.len(), 2);
    if let Some(item) = vault.get_item_mut("a") {
        item.favorite = true;
    }
    assert!(vault.items[0].favorite);
}

#[test]
fn folders_are_found_by_id() {
    let mut vault = Vault::new_at(at(0));
    assert!(!vault.has_folder("f"));
    vault.folders.push(Folder::with_id("f".to_string(), "Work"));
    vault.folders.push(Folder::with_id("g".to_string(), "Home"));
    assert!(vault.has_folder("f"));
    assert!(vault.has_folder("g"));
    assert!(!vault.has_folder("Work"));
    assert!(!vault.has_folder(""));
}
