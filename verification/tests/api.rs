use securefox::api::auth::{auth_middleware, auth_middleware_at, bearer_token, is_public_path};
use securefox::api::handlers::{
    blank, build_item, create_item, create_item_at, delete_item, delete_item_at, duplicates,
    find_duplicate, generate_password, get_item, get_totp, get_totp_at, health_check, list_items, lock,
    password_strength, pull, push, recipe, revise_item, status, strength_label, unlock,
    update_item, update_item_at, uris_overlap, validate, vault_summary, CreateOutcome,
};
use securefox::api::models::{
    CreateItemRequest, GeneratePasswordRequest, ListItemsQuery, Session, StatusResponse,
    UpdateItemRequest,
};
use securefox::api::state::{AppState, VaultMutation};
use securefox::clock::Timestamp;
use securefox::crypto::KdfParams;
use securefox::errors::{ApiError, Error};
use securefox::models::{Item, ItemType, LoginData, LoginUri, Vault};
use securefox::storage::VaultStorage;

fn at(secs: i64) -> Timestamp {
    Timestamp { secs, nanos: 0 }
}

fn login_data(uri: &str, user: &str, password: &str) -> LoginData {
    LoginData {
        username: Some(user.to_string()),
        password: Some(password.to_string()),
        totp: None,
        uris: Some(vec![LoginUri { uri: uri.to_string(), match_type: Some(securefox::models::UriMatchType(0)) }]),
    }
}

fn login_request(name: &str, uri: &str, user: &str, password: &str) -> CreateItemRequest {
    CreateItemRequest {
        name: name.to_string(),
        item_type: ItemType::login(),
        folder_id: None,
        favorite: None,
        notes: None,
        login: Some(login_data(uri, user, password)),
        card: None,
        identity: None,
        secure_note: None,
        fields: None,
        reprompt: None,
    }
}

fn note_request(name: &str) -> CreateItemRequest {
    CreateItemRequest {
        item_type: ItemType::secure_note(),
        login: None,
        ..login_request(name, "", "", "")
    }
}

fn update_request(name: &str) -> UpdateItemRequest {
    UpdateItemRequest {
        name: name.to_string(),
        item_type: ItemType::login(),
        folder_id: None,
        favorite: Some(true),
        notes: Some("changed".to_string()),
        login: Some(login_data("https://github.com", "alice", "hunter3")),
        card: None,
        identity: None,
        secure_note: None,
        fields: None,
        reprompt: None,
    }
}

/// A state unlocked at `now` with an empty vault, under the token `t`.
fn unlocked_state(timeout: u64, now: Timestamp) -> AppState {
    let mut state = AppState::new("/vault", timeout);
    state.unlock_at(Vault::new_at(now), "pw".to_string(), now, "t".to_string());
    state
}

fn bad_request(result: Result<CreateOutcome, ApiError>) -> String {
    match result {
        Err(ApiError::BadRequest(reason)) => reason,
        other => panic!("{:?}", other),
    }
}

#[test]
fn sessions_expire_strictly_after_their_expiry() {
    let session = Session::new_at("id".to_string(), "pw".to_string(), at(100), 30);
    assert_eq!(session.id, "id");
    assert_eq!(session.master_password, "pw");
    assert_eq!(session.created_at, at(100));
    assert_eq!(session.expires_at, at(130));
    assert!(!session.is_expired_at(at(100)));
    assert!(!session.is_expired_at(at(130)));
    assert!(session.is_expired_at(Timestamp { secs: 130, nanos: 1 }));
    assert!(session.is_expired_at(at(131)));
    let mut session = session;
    session.refresh_at(at(120), 30);
    assert_eq!(session.expires_at, at(150));
    assert_eq!(session.created_at, at(100));
    assert!(!session.is_expired_at(at(131)));
    let zero = Session::new_at("z".to_string(), "pw".to_string(), at(5), 0);
    assert!(!zero.is_expired_at(at(5)));
    assert!(zero.is_expired_at(at(6)));
}

#[test]
fn sessions_by_the_clock() {
    let mut session = Session::new("pw".to_string(), 3600);
    assert_eq!(session.id.len(), 36);
    assert_eq!(session.expires_at, session.created_at.plus_secs(3600));
    assert!(!session.is_expired());
    let before = session.expires_at;
    session.refresh(7200);
    assert!(session.expires_at.is_after(&before));
    let gone = Session::new_at("x".to_string(), "pw".to_string(), at(0), 1);
    assert!(gone.is_expired());
}

#[test]
fn new_state_is_locked_and_has_no_sessions() {
    let mut state = AppState::new("/home/u/.securefox", 900);
    assert_eq!(state.vault_path(), "/home/u/.securefox");
    assert_eq!(state.unlock_timeout(), 900);
    assert!(state.is_locked());
    assert!(!state.has_sessions());
    assert!(state.get_vault().is_none());
    assert!(state.get_session_at("t", at(0)).is_none());
    assert_eq!(
        status(&state, false),
        StatusResponse { locked: true, session_valid: false, vault_exists: false }
    );
}

#[test]
fn unlock_installs_the_vault_and_opens_a_session() {
    let mut state = AppState::new("/vault", 60);
    let mut vault = Vault::new_at(at(10));
    vault.add_item_at(Item::new_login_with("a".to_string(), "A", at(10)), at(10));
    let session = state.unlock_at(vault, "pw".to_string(), at(100), "tok".to_string());
    assert_eq!(session.id, "tok");
    assert_eq!(session.master_password, "pw");
    assert_eq!(session.created_at, at(100));
    assert_eq!(session.expires_at, at(160));
    assert!(!state.is_locked());
    assert!(state.has_sessions());
    assert_eq!(state.get_vault().unwrap().items.len(), 1);
    assert_eq!(
        status(&state, true),
        StatusResponse { locked: false, session_valid: true, vault_exists: true }
    );
}

#[test]
fn unlock_answers_with_token_expiry_and_summary() {
    let mut state = AppState::new("/vault", 60);
    let mut vault = Vault::new_at(at(10));
    vault.add_item_at(Item::new_login_with("a".to_string(), "A", at(10)), at(11));
    vault.folders.push(securefox::models::Folder::with_id("f".to_string(), "F"));
    let summary = vault_summary(&vault);
    assert_eq!((summary.item_count, summary.folder_count, summary.last_sync), (1, 1, Some(at(11))));
    let response = unlock(&mut state, vault, "pw".to_string());
    assert_eq!(response.token.len(), 36);
    assert_eq!(response.vault_summary, summary);
    let session = state.get_session(&response.token).unwrap();
    assert_eq!(session.master_password, "pw");
    assert!(!session.expires_at.is_after(&response.expires_at.plus_secs(60)));
}

#[test]
fn sliding_expiry_keeps_an_active_session_alive() {
    let mut state = unlocked_state(30, at(0));
    let mut now = 0;
    for _ in 0..100 {
        now += 29;
        let session = state.get_session_at("t", at(now)).expect("still good");
        assert_eq!(session.expires_at, at(now + 30));
        assert_eq!(session.created_at, at(0));
    }
    // Exactly at the expiry the session is still good.
    let session = state.get_session_at("t", at(now + 30)).unwrap();
    assert_eq!(session.expires_at, at(now + 60));
}

#[test]
fn an_idle_session_expires_and_is_evicted() {
    let mut state = unlocked_state(30, at(0));
    assert!(state.get_session_at("t", Timestamp { secs: 30, nanos: 1 }).is_none());
    assert!(!state.has_sessions());
    // Gone for good: a later look at an earlier time does not bring it back.
    assert!(state.get_session_at("t", at(1)).is_none());
    // With its last session the vault left memory.
    assert!(state.is_locked());
}

#[test]
fn a_lookup_evicts_every_expired_session() {
    let mut state = AppState::new("/vault", 30);
    state.unlock_at(Vault::new_at(at(0)), "pw".to_string(), at(0), "old".to_string());
    state.unlock_at(Vault::new_at(at(0)), "pw".to_string(), at(20), "new".to_string());
    assert!(state.get_session_at("unknown", at(40)).is_none());
    assert!(state.has_sessions());
    assert!(!state.is_locked());
    assert!(state.get_session_at("old", at(41)).is_none());
    assert_eq!(state.get_session_at("new", at(41)).unwrap().expires_at, at(71));
}

#[test]
fn unlocking_under_a_token_again_replaces_the_session() {
    let mut state = AppState::new("/vault", 30);
    state.unlock_at(Vault::new_at(at(0)), "one".to_string(), at(0), "t".to_string());
    state.unlock_at(Vault::new_at(at(0)), "two".to_string(), at(5), "t".to_string());
    let session = state.get_session_at("t", at(6)).unwrap();
    assert_eq!(session.master_password, "two");
    assert_eq!(session.created_at, at(5));
    state.lock_at(Some("t"), at(6));
    assert!(!state.has_sessions());
}

#[test]
fn lock_with_a_token_ends_that_session_only() {
    let mut state = AppState::new("/vault", 30);
    state.unlock_at(Vault::new_at(at(0)), "pw".to_string(), at(0), "a".to_string());
    state.unlock_at(Vault::new_at(at(0)), "pw".to_string(), at(0), "b".to_string());
    state.lock_at(Some("a"), at(1));
    assert!(state.get_session_at("a", at(1)).is_none());
    assert!(state.get_session_at("b", at(1)).is_some());
    assert!(!state.is_locked());
    state.lock_at(Some("zzz"), at(1));
    assert!(state.get_session_at("b", at(1)).is_some());
}

#[test]
fn lock_without_a_token_ends_everything() {
    let mut state = AppState::new("/vault", 30);
    state.unlock_at(Vault::new_at(at(0)), "pw".to_string(), at(0), "a".to_string());
    state.unlock_at(Vault::new_at(at(0)), "pw".to_string(), at(0), "b".to_string());
    state.lock_at(None, at(1));
    assert!(state.is_locked());
    assert!(!state.has_sessions());
    assert!(state.get_session_at("a", at(1)).is_none());

    let mut state = unlocked_state(30, at(0));
    let answer = lock(&mut state);
    assert_eq!(answer, StatusResponse { locked: true, session_valid: false, vault_exists: true });
    assert!(state.is_locked() && !state.has_sessions());

    let mut state = AppState::new("/vault", 30);
    let session = state.unlock(Vault::new(), "pw".to_string());
    state.lock(Some(&session.id));
    assert!(!state.has_sessions());
    assert!(!state.is_locked());
    assert!(state.get_session(&session.id).is_none());
    state.lock(None);
    assert!(state.is_locked());
}

#[test]
fn cleanup_evicts_the_expired() {
    let mut state = AppState::new("/vault", 30);
    state.unlock_at(Vault::new_at(at(0)), "pw".to_string(), at(0), "a".to_string());
    state.unlock_at(Vault::new_at(at(0)), "pw".to_string(), at(10), "b".to_string());
    state.cleanup_expired_sessions_at(at(35));
    assert!(state.has_sessions());
    assert!(state.get_session_at("a", at(35)).is_none());
    assert!(state.get_session_at("b", at(35)).is_some());
    state.cleanup_expired_sessions_at(at(66));
    assert!(!state.has_sessions());
    assert!(state.is_locked());

    let mut state = AppState::new("/vault", 3600);
    state.unlock(Vault::new(), "pw".to_string());
    state.cleanup_expired_sessions();
    assert!(state.has_sessions());
}

#[test]
fn update_vault_checks_session_then_vault_then_mutation() {
    let item = || Item::new_login_with("a".to_string(), "A", at(0));
    let mut state = AppState::new("/vault", 30);
    assert!(matches!(
        state.update_vault_at("t", VaultMutation::AddItem { item: item() }, at(0)),
        Err(ApiError::SessionExpired)
    ));
    let mut state = unlocked_state(30, at(0));
    assert!(matches!(
        state.update_vault_at("other", VaultMutation::AddItem { item: item() }, at(1)),
        Err(ApiError::SessionExpired)
    ));
    assert!(matches!(
        state.update_vault_at("t", VaultMutation::RemoveItem { id: "a".to_string() }, at(1)),
        Err(ApiError::NotFound)
    ));
    assert!(matches!(
        state.update_vault_at(
            "t",
            VaultMutation::ReplaceItem { id: "a".to_string(), item: item() },
            at(1)
        ),
        Err(ApiError::NotFound)
    ));
    assert_eq!(state.get_vault().unwrap().items.len(), 0);
    assert_eq!(state.get_vault().unwrap().sync_time, at(0));

    let session = state.update_vault_at("t", VaultMutation::AddItem { item: item() }, at(2)).unwrap();
    assert_eq!(session.master_password, "pw");
    assert_eq!(session.expires_at, at(32));
    let vault = state.get_vault().unwrap();
    assert_eq!(vault.items.len(), 1);
    assert_eq!(vault.sync_time, at(2));

    assert!(matches!(
        state.update_vault_at("t", VaultMutation::AddItem { item: item() }, at(40)),
        Err(ApiError::SessionExpired)
    ));
}

#[test]
fn updates_apply_in_the_order_they_are_made() {
    let mut state = unlocked_state(30, at(0));
    let add = |name: &str| VaultMutation::AddItem {
        item: Item::new_login_with(name.to_string(), name, at(0)),
    };
    state.update_vault_at("t", add("a"), at(1)).unwrap();
    state.update_vault_at("t", add("b"), at(2)).unwrap();
    state.update_vault_at("t", VaultMutation::RemoveItem { id: "a".to_string() }, at(3)).unwrap();
    state.update_vault_at("t", add("c"), at(4)).unwrap();
    let replacement = Item::new_login_with("b".to_string(), "B2", at(0));
    state
        .update_vault_at("t", VaultMutation::ReplaceItem { id: "b".to_string(), item: replacement }, at(5))
        .unwrap();
    let vault = state.get_vault().unwrap();
    let names: Vec<&str> = vault.items.iter().map(|i| i.name.as_str()).collect();
    assert_eq!(names, vec!["B2", "c"]);
    assert_eq!(vault.sync_time, at(5));
    let by_clock = state.update_vault("t", add("d"));
    assert!(matches!(by_clock, Err(ApiError::SessionExpired)));
}

#[test]
fn mutations_apply_or_leave_the_vault_alone() {
    let mut vault = Vault::new_at(at(0));
    let add = VaultMutation::AddItem { item: Item::new_login_with("a".to_string(), "A", at(0)) };
    assert!(add.apply(&mut vault, at(1)).is_ok());
    assert_eq!(vault.items.len(), 1);
    let missing = VaultMutation::RemoveItem { id: "zz".to_string() };
    assert!(matches!(missing.apply(&mut vault, at(9)), Err(ApiError::NotFound)));
    assert_eq!(vault.sync_time, at(1));
    let remove = VaultMutation::RemoveItem { id: "a".to_string() };
    assert!(remove.apply(&mut vault, at(2)).is_ok());
    assert!(vault.items.is_empty());
}

#[test]
fn open_paths_pass_without_a_token() {
    assert!(is_public_path("/api/unlock"));
    assert!(is_public_path("/api/status"));
    assert!(is_public_path("/health"));
    for path in ["/api/lock", "/api/items", "/ws", "/api/unlock/", "/API/UNLOCK", "", "/", "/healthz"] {
        assert!(!is_public_path(path), "{}", path);
    }
}

#[test]
fn bearer_tokens_follow_the_prefix() {
    assert_eq!(bearer_token(Some("Bearer abc")), Some("abc".to_string()));
    assert_eq!(bearer_token(Some("Bearer ")), Some(String::new()));
    assert_eq!(bearer_token(Some("Bearer  x y")), Some(" x y".to_string()));
    assert_eq!(bearer_token(Some("bearer abc")), None);
    assert_eq!(bearer_token(Some("Bearer")), None);
    assert_eq!(bearer_token(Some("Basic abc")), None);
    assert_eq!(bearer_token(Some("")), None);
    assert_eq!(bearer_token(None), None);
}

#[test]
fn the_guard_lets_good_sessions_through() {
    let mut state = unlocked_state(30, at(0));
    assert!(matches!(auth_middleware_at(&mut state, "/health", None, at(1)), Ok(None)));
    assert!(matches!(auth_middleware_at(&mut state, "/api/unlock", Some("junk"), at(1)), Ok(None)));
    assert!(matches!(
        auth_middleware_at(&mut state, "/api/items", None, at(1)),
        Err(ApiError::Unauthorized)
    ));
    assert!(matches!(
        auth_middleware_at(&mut state, "/api/items", Some("t"), at(1)),
        Err(ApiError::Unauthorized)
    ));
    assert!(matches!(
        auth_middleware_at(&mut state, "/api/items", Some("Bearer nope"), at(1)),
        Err(ApiError::SessionExpired)
    ));
    let session = auth_middleware_at(&mut state, "/api/items", Some("Bearer t"), at(20))
        .unwrap()
        .unwrap();
    assert_eq!(session.id, "t");
    assert_eq!(session.expires_at, at(50));
    // An open path does not touch the sessions, even when they have expired.
    assert!(matches!(auth_middleware_at(&mut state, "/api/status", None, at(500)), Ok(None)));
    assert!(state.has_sessions());
    assert!(matches!(
        auth_middleware_at(&mut state, "/api/lock", Some("Bearer t"), at(51)),
        Err(ApiError::SessionExpired)
    ));
    assert!(!state.has_sessions());
    assert!(matches!(auth_middleware(&mut state, "/health", None), Ok(None)));
    assert!(matches!(auth_middleware(&mut state, "/api/items", None), Err(ApiError::Unauthorized)));
}

#[test]
fn create_item_refuses_requests_with_a_problem() {
    let mut state = unlocked_state(30, at(0));
    let try_it = |state: &mut AppState, req| bad_request(create_item_at(state, "t", req, at(1), "id".to_string()));
    assert_eq!(try_it(&mut state, login_request("", "https://x", "u", "p")), "Item name is required");
    assert_eq!(try_it(&mut state, login_request(" \t ", "https://x", "u", "p")), "Item name is required");
    assert_eq!(try_it(&mut state, note_request("")), "Item name is required");
    let no_login = CreateItemRequest { login: None, ..login_request("n", "", "", "") };
    assert_eq!(try_it(&mut state, no_login), "Login data is required for login items");
    assert_eq!(
        try_it(&mut state, login_request("n", "https://x", "  ", "p")),
        "Username is required for login items"
    );
    let mut nameless = login_request("n", "https://x", "u", "p");
    nameless.login.as_mut().unwrap().username = None;
    assert_eq!(try_it(&mut state, nameless), "Username is required for login items");
    let mut no_uris = login_request("n", "https://x", "u", "p");
    no_uris.login.as_mut().unwrap().uris = None;
    assert_eq!(try_it(&mut state, no_uris), "At least one URI is required for login items");
    let mut empty_uris = login_request("n", "https://x", "u", "p");
    empty_uris.login.as_mut().unwrap().uris = Some(Vec::new());
    assert_eq!(try_it(&mut state, empty_uris), "At least one URI is required for login items");
    assert_eq!(state.get_vault().unwrap().items.len(), 0);
    assert!(validate(&login_request("n", "https://x", "u", "p")).is_ok());
    assert!(validate(&note_request("n")).is_ok());
    assert!(blank("") && blank("  \n") && !blank(" a "));
}

#[test]
fn create_item_needs_the_vault_and_a_session() {
    let mut locked = AppState::new("/vault", 30);
    assert!(matches!(
        create_item_at(&mut locked, "t", note_request("n"), at(1), "id".to_string()),
        Err(ApiError::VaultLocked)
    ));
    let mut state = unlocked_state(30, at(0));
    assert!(matches!(
        create_item_at(&mut state, "other", note_request("n"), at(1), "id".to_string()),
        Err(ApiError::SessionExpired)
    ));
    assert!(matches!(
        create_item_at(&mut state, "t", note_request("n"), at(31), "id".to_string()),
        Err(ApiError::SessionExpired)
    ));
}

#[test]
fn duplicate_logins_are_not_created_again() {
    let mut state = unlocked_state(30, at(0));
    let first = create_item_at(&mut state, "t", login_request("A", "https://x", "u", "p"), at(1), "id-1".to_string());
    let first_item = match first.unwrap() {
        CreateOutcome::Created { item, session } => {
            assert_eq!(session.master_password, "pw");
            item
        }
        other => panic!("{:?}", other),
    };
    assert_eq!(first_item.id, "id-1");
    assert_eq!(first_item.creation_date, at(1));
    assert_eq!(first_item.revision_date, at(1));

    let again = create_item_at(&mut state, "t", login_request("Renamed", "https://x", "u", "p"), at(2), "id-2".to_string());
    match again.unwrap() {
        CreateOutcome::Existing { item } => {
            assert_eq!(item.id, "id-1");
            assert_eq!(item.name, "A");
            assert_eq!(item.revision_date, at(1));
        }
        other => panic!("{:?}", other),
    }
    let vault = state.get_vault().unwrap();
    assert_eq!(vault.items.len(), 1);
    assert_eq!(vault.sync_time, at(1));

    let other_password = create_item_at(&mut state, "t", login_request("A", "https://x", "u", "p2"), at(3), "id-3".to_string());
    assert!(matches!(other_password.unwrap(), CreateOutcome::Created { .. }));
    assert_eq!(state.get_vault().unwrap().items.len(), 2);

    let other_user = create_item_at(&mut state, "t", login_request("A", "https://x", "u2", "p"), at(4), "id-4".to_string());
    assert!(matches!(other_user.unwrap(), CreateOutcome::Created { .. }));
    let other_uri = create_item_at(&mut state, "t", login_request("A", "https://y", "u", "p"), at(5), "id-5".to_string());
    assert!(matches!(other_uri.unwrap(), CreateOutcome::Created { .. }));
    assert_eq!(state.get_vault().unwrap().items.len(), 4);

    // The first of several items that hold the credentials is the one given back.
    let twin = create_item_at(&mut state, "t", login_request("B", "https://x", "u", "p2"), at(6), "id-6".to_string());
    match twin.unwrap() {
        CreateOutcome::Existing { item } => assert_eq!(item.id, "id-3"),
        other => panic!("{:?}", other),
    }
    // A duplicate is found without a good session: nothing is written.
    let stale = create_item_at(&mut state, "gone", login_request("A", "https://x", "u", "p"), at(7), "id-7".to_string());
    assert!(matches!(stale.unwrap(), CreateOutcome::Existing { .. }));
}

#[test]
fn what_counts_as_a_duplicate() {
    let existing = build_item(login_request("A", "https://x", "u", "p"), "id".to_string(), at(0));
    assert!(duplicates(&existing, &login_request("B", "https://x", "u", "p")));
    assert!(!duplicates(&existing, &login_request("A", "https://x/", "u", "p")));
    assert!(!duplicates(&existing, &login_request("A", "https://x", "U", "p")));
    assert!(!duplicates(&existing, &login_request("A", "https://x", "u", "P")));
    assert!(!duplicates(&existing, &note_request("A")));
    let mut no_password = login_request("A", "https://x", "u", "p");
    no_password.login.as_mut().unwrap().password = None;
    assert!(!duplicates(&existing, &no_password));
    let both_without = build_item(no_password, "id".to_string(), at(0));
    let mut again = login_request("A", "https://x", "u", "p");
    again.login.as_mut().unwrap().password = None;
    assert!(duplicates(&both_without, &again));
    let mut many = login_request("A", "https://a", "u", "p");
    many.login.as_mut().unwrap().uris.as_mut().unwrap().push(LoginUri { uri: "https://x".to_string(), match_type: None });
    assert!(duplicates(&existing, &many));
    let note = build_item(note_request("A"), "id".to_string(), at(0));
    assert!(!duplicates(&note, &login_request("A", "https://x", "u", "p")));

    let uri = |s: &str| LoginUri { uri: s.to_string(), match_type: None };
    assert!(uris_overlap(&vec![uri("a"), uri("b")], &vec![uri("c"), uri("b")]));
    assert!(!uris_overlap(&vec![uri("a"), uri("b")], &vec![uri("c")]));
    assert!(!uris_overlap(&Vec::new(), &vec![uri("c")]));
    assert!(!uris_overlap(&vec![uri("c")], &Vec::new()));

    let mut vault = Vault::new_at(at(0));
    vault.add_item_at(note, at(0));
    vault.add_item_at(existing, at(0));
    assert_eq!(find_duplicate(&vault, &login_request("B", "https://x", "u", "p")), Some(1));
    assert_eq!(find_duplicate(&vault, &login_request("B", "https://x", "u", "q")), None);
}

#[test]
fn created_items_take_what_the_request_says() {
    let mut req = login_request("GitHub", "https://github.com", "alice", "hunter2");
    req.folder_id = Some("f".to_string());
    req.notes = Some("n".to_string());
    req.reprompt = Some(1);
    let item = build_item(req, "id".to_string(), Timestamp { secs: 7, nanos: 8 });
    assert_eq!(item.id, "id");
    assert_eq!(item.name, "GitHub");
    assert_eq!(item.item_type, ItemType::login());
    assert!(!item.favorite);
    assert_eq!(item.folder_id.as_deref(), Some("f"));
    assert_eq!(item.notes.as_deref(), Some("n"));
    assert_eq!(item.reprompt, Some(1));
    assert_eq!(item.creation_date, Timestamp { secs: 7, nanos: 8 });
    assert_eq!(item.revision_date, item.creation_date);
    let login = item.login.unwrap();
    assert_eq!(login.username.as_deref(), Some("alice"));
    assert_eq!(login.password.as_deref(), Some("hunter2"));
    let mut favourite = note_request("n");
    favourite.favorite = Some(true);
    assert!(build_item(favourite, "id".to_string(), at(0)).favorite);
}

#[test]
fn init_unlock_add_persist() {
    let password = "correct horse battery staple";
    let storage = VaultStorage::with_path("/vault/vault.sf");
    // Init: an empty vault, sealed with Argon2id.
    let serialise = |vault: &Vault| -> Vec<u8> {
        vault
            .items
            .iter()
            .map(|i| {
                let login = i.login.as_ref().unwrap();
                format!(
                    "{}|{}|{}|{}|{}",
                    i.id,
                    i.name,
                    login.username.as_deref().unwrap_or(""),
                    login.password.as_deref().unwrap_or(""),
                    login.uris.as_ref().map(|u| u[0].uri.as_str()).unwrap_or("")
                )
            })
            .collect::<Vec<String>>()
            .join("\n")
            .into_bytes()
    };
    let envelope = storage.save_with_kdf(&serialise(&Vault::new()), password, KdfParams::argon2()).unwrap();
    assert_eq!(storage.load(&envelope, password).unwrap(), Vec::<u8>::new());

    // Unlock and add an item.
    let mut state = AppState::new("/vault", 900);
    let response = unlock(&mut state, Vault::new(), password.to_string());
    let req = login_request("GitHub", "https://github.com", "alice", "hunter2");
    let (item, session) = match create_item(&mut state, &response.token, req).unwrap() {
        CreateOutcome::Created { item, session } => (item, session),
        other => panic!("{:?}", other),
    };
    assert_eq!(item.creation_date, item.revision_date);
    assert_eq!(session.master_password, password);

    // Persist with the session's password, keeping the vault's algorithm.
    let algorithm = envelope.encrypted_data.kdf_params.algorithm;
    let plaintext = serialise(&state.get_vault().unwrap());
    let envelope = storage.save(&plaintext, &session.master_password, Some(algorithm)).unwrap();

    // Relock, unlock again, read the item back.
    lock(&mut state);
    assert!(matches!(get_item(&state, &item.id), Err(ApiError::VaultLocked)));
    let loaded = String::from_utf8(storage.load(&envelope, password).unwrap()).unwrap();
    assert_eq!(loaded, format!("{}|GitHub|alice|hunter2|https://github.com", item.id));

    let mut vault = Vault::new();
    vault.add_item(item.duplicate());
    let response = unlock(&mut state, vault, password.to_string());
    let read = get_item(&state, &item.id).unwrap();
    assert_eq!(read.name, "GitHub");
    assert_eq!(read.login.as_ref().unwrap().username.as_deref(), Some("alice"));
    assert_eq!(read.creation_date, item.creation_date);

    // After an update the revision is later than the creation.
    let later = item.creation_date.plus_secs(1);
    let (revised, _) =
        update_item_at(&mut state, &response.token, &item.id, update_request("GitHub"), later).unwrap();
    assert_eq!(revised.creation_date, item.creation_date);
    assert!(revised.revision_date.is_after(&revised.creation_date));
    assert_eq!(get_item(&state, &item.id).unwrap().revision_date, later);
}

#[test]
fn a_wrong_password_leaves_the_vault_out_of_memory() {
    let storage = VaultStorage::with_path("/vault/vault.sf");
    let envelope = storage.save(b"populated", "right", None).unwrap();
    let state = AppState::new("/vault", 900);
    let refusal = match storage.load(&envelope, "wrong") {
        Ok(_) => panic!("opened with the wrong password"),
        Err(e) => ApiError::from_core(e),
    };
    assert!(matches!(refusal, ApiError::InvalidPassword));
    assert_eq!(refusal.status_code(), 401);
    assert_eq!(refusal.label(), "Invalid password");
    assert!(state.is_locked());
    assert!(!state.has_sessions());
    assert!(matches!(
        ApiError::from_core(Error::VaultNotFound),
        ApiError::NotFound
    ));
}

#[test]
fn get_item_finds_by_id() {
    let mut state = unlocked_state(30, at(0));
    create_item_at(&mut state, "t", note_request("n"), at(1), "id-1".to_string()).unwrap();
    assert_eq!(get_item(&state, "id-1").unwrap().name, "n");
    assert!(matches!(get_item(&state, "id-2"), Err(ApiError::NotFound)));
    assert!(matches!(get_item(&state, ""), Err(ApiError::NotFound)));
    assert!(matches!(get_item(&AppState::new("/v", 1), "id-1"), Err(ApiError::VaultLocked)));
}

#[test]
fn update_item_keeps_id_and_creation_date() {
    let mut state = unlocked_state(30, at(0));
    create_item_at(&mut state, "t", login_request("A", "https://x", "u", "p"), at(1), "id-1".to_string()).unwrap();
    let (item, session) = update_item_at(&mut state, "t", "id-1", update_request("B"), at(9)).unwrap();
    assert_eq!(session.expires_at, at(39));
    assert_eq!(item.id, "id-1");
    assert_eq!(item.name, "B");
    assert!(item.favorite);
    assert_eq!(item.notes.as_deref(), Some("changed"));
    assert_eq!(item.creation_date, at(1));
    assert_eq!(item.revision_date, at(9));
    let stored = get_item(&state, "id-1").unwrap();
    assert_eq!(stored.name, "B");
    assert_eq!(stored.login.unwrap().password.as_deref(), Some("hunter3"));
    assert_eq!(state.get_vault().unwrap().items.len(), 1);

    assert!(matches!(
        update_item_at(&mut state, "t", "zz", update_request("B"), at(10)),
        Err(ApiError::NotFound)
    ));
    assert!(matches!(
        update_item_at(&mut state, "bad", "id-1", update_request("C"), at(10)),
        Err(ApiError::SessionExpired)
    ));
    assert_eq!(get_item(&state, "id-1").unwrap().name, "B");
    let mut locked = AppState::new("/v", 1);
    assert!(matches!(
        update_item(&mut locked, "t", "id-1", update_request("B")),
        Err(ApiError::VaultLocked)
    ));
    let existing = get_item(&state, "id-1").unwrap();
    let mut plain = update_request("D");
    plain.favorite = None;
    assert!(!revise_item(&existing, plain, at(11)).favorite);
}

#[test]
fn delete_item_removes_or_says_not_found() {
    let mut state = unlocked_state(30, at(0));
    create_item_at(&mut state, "t", note_request("n"), at(1), "id-1".to_string()).unwrap();
    assert!(matches!(delete_item_at(&mut state, "t", "zz", at(2)), Err(ApiError::NotFound)));
    assert!(matches!(delete_item_at(&mut state, "x", "id-1", at(2)), Err(ApiError::SessionExpired)));
    assert!(delete_item_at(&mut state, "t", "id-1", at(2)).is_ok());
    assert!(matches!(get_item(&state, "id-1"), Err(ApiError::NotFound)));
    assert!(matches!(delete_item_at(&mut state, "t", "id-1", at(3)), Err(ApiError::NotFound)));
    assert!(matches!(delete_item(&mut state, "t", "id-1"), Err(ApiError::SessionExpired)));
}

#[test]
fn listing_searches_names_without_regard_to_case() {
    let mut state = unlocked_state(30, at(0));
    for (i, name) in ["GitHub", "GitLab", "Bank", "github mirror", "ÉCOLE"].iter().enumerate() {
        create_item_at(&mut state, "t", note_request(name), at(1), format!("id-{}", i)).unwrap();
    }
    let query = |search: Option<&str>| ListItemsQuery {
        folder_id: None,
        search: search.map(|s| s.to_string()),
        domain: None,
    };
    let names = |search: Option<&str>| -> Vec<String> {
        list_items(&state, &query(search)).unwrap().into_iter().map(|i| i.name).collect()
    };
    assert_eq!(names(None).len(), 5);
    assert_eq!(names(Some("")).len(), 5);
    assert_eq!(names(Some("git")), vec!["GitHub", "GitLab", "github mirror"]);
    assert_eq!(names(Some("HUB")), vec!["GitHub", "github mirror"]);
    assert_eq!(names(Some("école")), vec!["ÉCOLE"]);
    assert!(names(Some("nothing")).is_empty());
    assert!(matches!(list_items(&AppState::new("/v", 1), &query(None)), Err(ApiError::VaultLocked)));
}

#[test]
fn generated_passwords_follow_the_request() {
    let all = GeneratePasswordRequest {
        length: None,
        include_uppercase: None,
        include_lowercase: None,
        include_numbers: None,
        include_symbols: None,
        exclude_similar: None,
    };
    let made = recipe(&all);
    assert_eq!(made.length, 16);
    assert!(made.numbers && made.lowercase_letters && made.uppercase_letters && made.symbols);
    assert!(made.exclude_similar_characters);
    let response = generate_password(&all).unwrap();
    assert_eq!(response.password.chars().count(), 16);
    assert_eq!(response.strength.score, 5);
    assert_eq!(response.strength.label, "Very Strong");
    assert!(response.password.chars().any(|c| c.is_ascii_digit()));
    assert!(response.password.chars().any(|c| c.is_ascii_lowercase()));
    assert!(response.password.chars().any(|c| c.is_ascii_uppercase()));
    assert!(response.password.chars().any(|c| c.is_ascii_punctuation()));

    let digits = GeneratePasswordRequest {
        length: Some(8),
        include_uppercase: Some(false),
        include_lowercase: Some(false),
        include_symbols: Some(false),
        ..all
    };
    let response = generate_password(&digits).unwrap();
    assert_eq!(response.password.len(), 8);
    assert!(response.password.chars().all(|c| c.is_ascii_digit()));
    assert_eq!(response.strength.score, 3);
    assert_eq!(response.strength.label, "Good");
    assert_ne!(generate_password(&all).unwrap().password, generate_password(&all).unwrap().password);

    let four = GeneratePasswordRequest { length: Some(4), ..all };
    assert_eq!(generate_password(&four).unwrap().password.len(), 4);
    let three = GeneratePasswordRequest { length: Some(3), ..all };
    assert!(matches!(generate_password(&three), Err(ApiError::BadRequest(_))));
    let zero = GeneratePasswordRequest { length: Some(0), ..all };
    assert!(matches!(generate_password(&zero), Err(ApiError::BadRequest(_))));
    let nothing = GeneratePasswordRequest {
        include_uppercase: Some(false),
        include_lowercase: Some(false),
        include_numbers: Some(false),
        include_symbols: Some(false),
        ..all
    };
    assert!(matches!(generate_password(&nothing), Err(ApiError::BadRequest(_))));
}

#[test]
fn strength_by_length() {
    assert_eq!(password_strength(16).score, 5);
    assert_eq!(password_strength(17).label, "Very Strong");
    assert_eq!(password_strength(15).score, 3);
    assert_eq!(password_strength(0).label, "Good");
    let labels = ["Very Weak", "Weak", "Fair", "Good", "Strong", "Very Strong", "Very Weak"];
    for (score, label) in labels.iter().enumerate() {
        assert_eq!(strength_label(score as u8), *label);
    }
    assert_eq!(strength_label(255), "Very Weak");
}

#[test]
fn one_time_passwords_of_items() {
    let mut state = unlocked_state(30, at(0));
    let with_totp = |secret: Option<&str>| {
        let mut req = login_request("A", "https://x", "u", secret.unwrap_or("none"));
        req.login.as_mut().unwrap().totp = secret.map(|s| s.to_string());
        req
    };
    let mut add = |id: &str, secret: Option<&str>| {
        create_item_at(&mut state, "t", with_totp(secret), at(1), id.to_string()).unwrap();
    };
    add("rfc", Some("gezd gnbv gy3t qojq gezd gnbv gy3t qojq"));
    add("short", Some("JBSWY3DPEHPK3PXP"));
    add("uri", Some("otpauth://totp/Example:alice?secret=JBSWY3DPEHPK3PXP&issuer=Example"));
    add("none", None);
    add("bad", Some("not base32!"));
    add("padded", Some("MZXW6==="));
    create_item_at(&mut state, "t", note_request("note"), at(1), "note".to_string()).unwrap();

    let response = get_totp_at(&state, "rfc", 59).unwrap();
    assert_eq!(response.code, "287082");
    assert_eq!(response.ttl, 1);
    let response = get_totp_at(&state, "short", 59).unwrap();
    assert_eq!(response.code, "996554");
    assert_eq!(get_totp_at(&state, "short", 60).unwrap().ttl, 30);
    assert_eq!(get_totp_at(&state, "uri", 59).unwrap().code, "996554");
    assert!(matches!(get_totp_at(&state, "none", 59), Err(ApiError::BadRequest(_))));
    assert!(matches!(get_totp_at(&state, "note", 59), Err(ApiError::BadRequest(_))));
    match get_totp_at(&state, "bad", 59) {
        Err(ApiError::BadRequest(reason)) => {
            assert_eq!(reason, "Invalid TOTP secret: Invalid TOTP secret")
        }
        other => panic!("{:?}", other),
    }
    assert!(matches!(get_totp_at(&state, "padded", 59), Err(ApiError::Internal(_))));
    assert!(matches!(get_totp_at(&state, "missing", 59), Err(ApiError::NotFound)));
    assert!(matches!(get_totp_at(&AppState::new("/v", 1), "rfc", 59), Err(ApiError::VaultLocked)));
}

#[test]
fn sync_and_health_answers() {
    let pushed = push();
    assert!(pushed.success);
    assert_eq!(pushed.message, "Sync completed");
    assert_eq!(pushed.items_synced, 0);
    let pulled = pull();
    assert!(pulled.success);
    assert_eq!(pulled.message, "Pull completed");
    assert_eq!(health_check(), "ok");
}

#[test]
fn one_time_password_by_the_clock() {
    let mut state = unlocked_state(30, at(0));
    let mut req = login_request("A", "https://x", "u", "p");
    req.login.as_mut().unwrap().totp = Some("JBSWY3DPEHPK3PXP".to_string());
    create_item_at(&mut state, "t", req, at(1), "id".to_string()).unwrap();
    let response = get_totp(&state, "id").unwrap();
    assert_eq!(response.code.len(), 6);
    assert!(response.code.chars().all(|c| c.is_ascii_digit()));
    assert!(response.ttl > 0 && response.ttl <= 30);
    assert!(matches!(get_totp(&state, "zz"), Err(ApiError::NotFound)));
}

#[test]
fn the_write_pipeline_keeps_identifiers_apart() {
    let mut state = unlocked_state(30, at(0));
    create_item_at(&mut state, "t", note_request("first"), at(1), "id-1".to_string()).unwrap();
    let again = create_item_at(&mut state, "t", note_request("second"), at(2), "id-1".to_string());
    assert_eq!(bad_request(again), "Item identifier is already in use");
    let vault = state.get_vault().unwrap();
    assert_eq!(vault.items.len(), 1);
    assert_eq!(vault.items[0].name, "first");
    assert_eq!(vault.sync_time, at(1));

    let other = Item::new_login_with("id-2".to_string(), "other", at(0));
    let swap = VaultMutation::ReplaceItem { id: "id-1".to_string(), item: other };
    match state.update_vault_at("t", swap, at(3)) {
        Err(ApiError::BadRequest(reason)) => assert_eq!(reason, "Item identifier cannot change"),
        other => panic!("{:?}", other),
    }
    assert_eq!(state.get_vault().unwrap().items[0].id, "id-1");
}

#[test]
fn the_write_pipeline_refuses_folders_that_do_not_exist() {
    let mut vault = Vault::new_at(at(0));
    vault.folders.push(securefox::models::Folder::with_id("work".to_string(), "Work"));
    let mut state = AppState::new("/vault", 30);
    state.unlock_at(vault, "pw".to_string(), at(0), "t".to_string());

    let mut missing = note_request("note");
    missing.folder_id = Some("home".to_string());
    let refused = create_item_at(&mut state, "t", missing, at(1), "id-1".to_string());
    assert_eq!(bad_request(refused), "Folder does not exist");
    assert!(state.get_vault().unwrap().items.is_empty());

    let mut filed = note_request("note");
    filed.folder_id = Some("work".to_string());
    let created = create_item_at(&mut state, "t", filed, at(2), "id-1".to_string());
    assert!(matches!(created, Ok(CreateOutcome::Created { .. })));

    let mut moved = update_request("note");
    moved.folder_id = Some("home".to_string());
    match update_item_at(&mut state, "t", "id-1", moved, at(3)) {
        Err(ApiError::BadRequest(reason)) => assert_eq!(reason, "Folder does not exist"),
        other => panic!("{:?}", other.map(|_| ())),
    }
    assert_eq!(get_item(&state, "id-1").unwrap().folder_id.as_deref(), Some("work"));
    let mut kept = update_request("note");
    kept.folder_id = Some("work".to_string());
    assert!(update_item_at(&mut state, "t", "id-1", kept, at(4)).is_ok());
}

#[test]
fn unlock_answers_with_the_expiry_of_the_session() {
    let mut state = AppState::new("/vault", 600);
    let response = unlock(&mut state, Vault::new(), "pw".to_string());
    assert_eq!(response.token.len(), 36);
    let session = state.get_session_at(&response.token, response.expires_at).unwrap();
    assert_eq!(session.created_at.plus_secs(600), response.expires_at);
    assert!(response.expires_at.secs > 1_600_000_000);
}
