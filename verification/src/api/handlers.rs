//! What each endpoint decides and answers, given the state and the request.
//! Persisting a changed vault and talking to Git are left to the caller.

use vstd::prelude::*;
use vstd::string::*;
use crate::api::models::{
    fresh_session, CreateItemRequest, CreateItemRequestView, GeneratePasswordRequest,
    GeneratePasswordResponse, ListItemsQuery, PasswordStrength, Session, StatusResponse,
    SyncResponse, TotpResponse, UnlockResponse, UpdateItemRequest, UpdateItemRequestView,
    VaultSummary,
};
use crate::api::state::{
    has_session, is_refused_as, is_update_answer, keeps_vault_wf, session_for, unlocked,
    update_refusal, updated, AppState, AppStateView, VaultMutation, VaultMutationView,
};
use crate::clock::{new_uuid, Timestamp};
use crate::errors::{prefixed, ApiError};
use crate::models::{
    has_item, item_position, Item, ItemType, ItemView, LoginUri, LoginUriView, Vault, VaultView,
    LOGIN,
};
use crate::text::{
    chars_of, contains, has_infix, same_optional_text, same_text, to_lowercase, trim, trimmed,
    unicode_lowercase,
};
use crate::totp::{code_at, normalised, parse_totp_secret, remaining, TotpConfig, TotpConfigView};

verus! {

// ---------------------------------------------------------------------------
// Unlocking, locking, status
// ---------------------------------------------------------------------------

/// The account of a vault that an unlock answers with.
pub open spec fn summary_of(vault: VaultView) -> VaultSummary {
    VaultSummary {
        item_count: vault.items.len() as usize,
        folder_count: vault.folders.len() as usize,
        last_sync: Some(vault.sync_time),
    }
}

/// A short account of the vault.
pub fn vault_summary(vault: &Vault) -> (r: VaultSummary)
    ensures
        r == summary_of(vault.deep_view()),
{
    VaultSummary {
        item_count: vault.items.len(),
        folder_count: vault.folders.len(),
        last_sync: Some(vault.sync_time),
    }
}

/// Whether `r` is the answer to an unlock at `now` that left the state
/// `after`: the vault is installed, a session under the token of the answer
/// is open for the password, and the answer carries the token, the expiry
/// of that session (a full timeout from `now`) and an account of the
/// vault.
pub open spec fn is_unlock_answer(
    before: AppStateView,
    after: AppStateView,
    vault: VaultView,
    password: Seq<char>,
    now: Timestamp,
    r: UnlockResponse,
) -> bool {
    &&& r.token@.len() == 36
    &&& r.expires_at == now.plus(before.unlock_timeout)
    &&& r.vault_summary == summary_of(vault)
    &&& after == unlocked(
        before,
        vault,
        fresh_session(r.token@, password, now, before.unlock_timeout),
        now,
    )
}

/// Unlocks: installs the decrypted vault, opens a session under a fresh
/// random token, and answers with the token, its expiry and an account of
/// the vault.
pub fn unlock(state: &mut AppState, vault: Vault, password: String) -> (r: UnlockResponse)
    requires
        old(state).wf(),
    ensures
        final(state).wf(),
        exists|now: Timestamp|
            now.is_plain() && is_unlock_answer(
                old(state).deep_view(),
                final(state).deep_view(),
                vault.deep_view(),
                password@,
                now,
                r,
            ),
        final(state).deep_view().vault == Some(vault.deep_view()),
        has_session(final(state).deep_view().sessions, r.token@),
{
    let summary = vault_summary(&vault);
    let session = state.unlock(vault, password);
    let r = UnlockResponse {
        token: session.id,
        expires_at: session.expires_at,
        vault_summary: summary,
    };
    assert(session.created_at.is_plain() && is_unlock_answer(
        old(state).deep_view(),
        final(state).deep_view(),
        vault.deep_view(),
        password@,
        session.created_at,
        r,
    ));
    r
}

/// Locks: all sessions end and the vault leaves memory.
pub fn lock(state: &mut AppState) -> (r: StatusResponse)
    requires
        old(state).wf(),
    ensures
        final(state).wf(),
        final(state).deep_view().vault is None,
        final(state).deep_view().sessions.len() == 0,
        r == (StatusResponse { locked: true, session_valid: false, vault_exists: true }),
{
    state.lock_at(None, Timestamp { secs: 0, nanos: 0 });
    StatusResponse { locked: true, session_valid: false, vault_exists: true }
}

/// The status: whether the vault is out of memory, whether there is any
/// session, and whether the vault file exists (which the caller found
/// out).
pub fn status(state: &AppState, vault_exists: bool) -> (r: StatusResponse)
    ensures
        r == (StatusResponse {
            locked: state.deep_view().vault is None,
            session_valid: state.deep_view().sessions.len() > 0,
            vault_exists,
        }),
{
    StatusResponse {
        locked: state.is_locked(),
        session_valid: state.has_sessions(),
        vault_exists,
    }
}

// ---------------------------------------------------------------------------
// Listing and reading items
// ---------------------------------------------------------------------------

/// Whether an item called `name` answers a search for `search`: the name
/// in small letters holds the search in small letters.
pub open spec fn answers_search(name: Seq<char>, search: Seq<char>) -> bool {
    has_infix(unicode_lowercase(name), unicode_lowercase(search))
}

/// The items that a listing answers with: all of them, or those whose name
/// answers the search.
pub open spec fn listed(items: Seq<ItemView>, search: Option<Seq<char>>) -> Seq<ItemView> {
    match search {
        Some(search) => items.filter(|item: ItemView| answers_search(item.name, search)),
        None => items,
    }
}

/// Lists the items of the vault, in their order. A search keeps the items
/// whose name holds the searched text, whatever the case of the letters.
pub fn list_items(state: &AppState, query: &ListItemsQuery) -> (r: Result<Vec<Item>, ApiError>)
    ensures
        match r {
            Ok(items) => state.deep_view().vault matches Some(vault) && items.deep_view()
                == listed(vault.items, query.search.deep_view()),
            Err(e) => state.deep_view().vault is None && e is VaultLocked,
        },
{
    let vault = match state.get_vault() {
        Some(vault) => vault,
        None => {
            return Err(ApiError::VaultLocked);
        },
    };
    match &query.search {
        None => Ok(vault.items),
        Some(search) => {
            let wanted = chars_of(to_lowercase(search.as_str()).as_str());
            let ghost pred = |item: ItemView| answers_search(item.name, search@);
            let mut kept: Vec<Item> = Vec::new();
            let mut i: usize = 0;
            proof {
                reveal(Seq::filter);
                assert(vault.items.deep_view().take(0) =~= Seq::empty());
                assert(kept.deep_view() =~= Seq::empty());
            }
            while i < vault.items.len()
                invariant
                    i <= vault.items.len(),
                    wanted@ == unicode_lowercase(search@),
                    pred == (|item: ItemView| answers_search(item.name, search@)),
                    kept.deep_view() == vault.items.deep_view().take(i as int).filter(pred),
                decreases vault.items.len() - i,
            {
                let ghost before = kept.deep_view();
                proof {
                    reveal(Seq::filter);
                    assert(vault.items.deep_view().take(i + 1).drop_last()
                        =~= vault.items.deep_view().take(i as int));
                    assert(vault.items.deep_view().take(i + 1).last()
                        == vault.items[i as int].deep_view());
                }
                let name = chars_of(to_lowercase(vault.items[i].name.as_str()).as_str());
                if contains(&name, &wanted) {
                    let copy = vault.items[i].duplicate();
                    kept.push(copy);
                    assert(kept.deep_view() =~= before.push(copy.deep_view()));
                }
                i = i + 1;
            }
            assert(vault.items.deep_view().take(vault.items.len() as int)
                =~= vault.items.deep_view());
            Ok(kept)
        },
    }
}

/// The item called `id`: `VaultLocked` while the vault is out of memory,
/// `NotFound` where it has no such item.
pub fn get_item(state: &AppState, id: &str) -> (r: Result<Item, ApiError>)
    ensures
        match r {
            Ok(item) => state.deep_view().vault matches Some(vault) && has_item(vault.items, id@)
                && item.deep_view() == vault.items[item_position(vault.items, id@)],
            Err(e) => match state.deep_view().vault {
                Some(vault) => !has_item(vault.items, id@) && e is NotFound,
                None => e is VaultLocked,
            },
        },
{
    let vault = match state.get_vault() {
        Some(vault) => vault,
        None => {
            return Err(ApiError::VaultLocked);
        },
    };
    match vault.get_item(id) {
        Some(item) => Ok(item.duplicate()),
        None => Err(ApiError::NotFound),
    }
}

// ---------------------------------------------------------------------------
// Creating items
// ---------------------------------------------------------------------------

/// Whether a text is empty once trimmed.
pub open spec fn is_blank(text: Seq<char>) -> bool {
    trimmed(text).len() == 0
}

/// What is wrong with a request to create an item, if anything: the reason
/// that is sent back with the refusal.
///
/// An item needs a name. A login needs login data, in it a user name that
/// is not blank, and at least one URI.
pub open spec fn request_problem(req: CreateItemRequestView) -> Option<Seq<char>> {
    if is_blank(req.name) {
        Some("Item name is required"@)
    } else if req.item_type == ItemType(LOGIN) {
        match req.login {
            None => Some("Login data is required for login items"@),
            Some(login) => if login.username is None || is_blank(login.username->0) {
                Some("Username is required for login items"@)
            } else if login.uris is None || login.uris->0.len() == 0 {
                Some("At least one URI is required for login items"@)
            } else {
                None
            },
        }
    } else {
        None
    }
}

/// Whether the two lists have a URI in common.
pub open spec fn share_uri(a: Seq<LoginUriView>, b: Seq<LoginUriView>) -> bool {
    exists|i: int, j: int|
        0 <= i < a.len() && 0 <= j < b.len() && (#[trigger] a[i]).uri == (#[trigger] b[j]).uri
}

/// Whether `existing` already holds the credentials of the request: both
/// are logins with the same user name, a URI in common and the same
/// password.
pub open spec fn is_duplicate(existing: ItemView, req: CreateItemRequestView) -> bool {
    &&& req.item_type == ItemType(LOGIN)
    &&& existing.item_type == ItemType(LOGIN)
    &&& req.login is Some
    &&& existing.login is Some
    &&& existing.login->0.username == req.login->0.username
    &&& req.login->0.uris is Some
    &&& existing.login->0.uris is Some
    &&& share_uri(req.login->0.uris->0, existing.login->0.uris->0)
    &&& existing.login->0.password == req.login->0.password
}

/// Whether some item already holds the credentials of the request.
pub open spec fn has_duplicate(items: Seq<ItemView>, req: CreateItemRequestView) -> bool {
    exists|i: int| 0 <= i < items.len() && is_duplicate(#[trigger] items[i], req)
}

/// Whether `i` is the place of the first item that already holds the
/// credentials of the request.
pub open spec fn is_first_duplicate(items: Seq<ItemView>, req: CreateItemRequestView, i: int) -> bool {
    &&& 0 <= i < items.len()
    &&& is_duplicate(items[i], req)
    &&& forall|j: int| 0 <= j < i ==> !is_duplicate(#[trigger] items[j], req)
}

/// The item that a request creates, under the identifier `id` at `now`:
/// what the request says, not a favourite unless it says so, created and
/// revised at `now`.
pub open spec fn created_item(req: CreateItemRequestView, id: Seq<char>, now: Timestamp) -> ItemView {
    ItemView {
        id,
        item_type: req.item_type,
        name: req.name,
        folder_id: req.folder_id,
        favorite: match req.favorite {
            Some(favorite) => favorite,
            None => false,
        },
        notes: req.notes,
        login: req.login,
        card: req.card,
        identity: req.identity,
        secure_note: req.secure_note,
        fields: req.fields,
        reprompt: req.reprompt,
        creation_date: now,
        revision_date: now,
    }
}

/// What a request to create an item led to.
#[derive(Debug, Clone)]
pub enum CreateOutcome {
    /// The credentials were already there: this is the item that holds
    /// them. Nothing changed and nothing is to be persisted.
    Existing { item: Item },
    /// The item was added. The vault is to be re-encrypted with the
    /// session's master password and persisted.
    Created { item: Item, session: Session },
}

/// Whether a text is empty once trimmed.
pub fn blank(text: &str) -> (r: bool)
    ensures
        r == is_blank(text@),
{
    trim(&chars_of(text)).len() == 0
}

/// Checks a request to create an item.
pub fn validate(req: &CreateItemRequest) -> (r: Result<(), ApiError>)
    ensures
        match r {
            Ok(_) => request_problem(req.deep_view()) is None,
            Err(e) => e matches ApiError::BadRequest(reason) && request_problem(req.deep_view())
                == Some(reason@),
        },
{
    if blank(req.name.as_str()) {
        return Err(ApiError::BadRequest(String::from_str("Item name is required")));
    }
    if req.item_type.0 == LOGIN {
        match &req.login {
            None => {
                return Err(
                    ApiError::BadRequest(String::from_str("Login data is required for login items")),
                );
            },
            Some(login) => {
                let named = match &login.username {
                    Some(username) => !blank(username.as_str()),
                    None => false,
                };
                if !named {
                    return Err(
                        ApiError::BadRequest(
                            String::from_str("Username is required for login items"),
                        ),
                    );
                }
                let located = match &login.uris {
                    Some(uris) => uris.len() > 0,
                    None => false,
                };
                if !located {
                    assert(login.uris.deep_view() is None || login.uris.deep_view()->0.len() == 0);
                    return Err(
                        ApiError::BadRequest(
                            String::from_str("At least one URI is required for login items"),
                        ),
                    );
                }
                assert(login.uris.deep_view()->0.len() == login.uris->0.len());
            },
        }
    }
    Ok(())
}

fn holds_uri(list: &Vec<LoginUri>, uri: &str) -> (r: bool)
    ensures
        r == exists|j: int| 0 <= j < list.len() && (#[trigger] list.deep_view()[j]).uri == uri@,
{
    let mut j: usize = 0;
    while j < list.len()
        invariant
            j <= list.len(),
            forall|k: int| 0 <= k < j ==> (#[trigger] list.deep_view()[k]).uri != uri@,
        decreases list.len() - j,
    {
        if same_text(list[j].uri.as_str(), uri) {
            assert(list.deep_view()[j as int].uri == uri@);
            return true;
        }
        j = j + 1;
    }
    false
}

/// Whether the two lists have a URI in common.
pub fn uris_overlap(a: &Vec<LoginUri>, b: &Vec<LoginUri>) -> (r: bool)
    ensures
        r == share_uri(a.deep_view(), b.deep_view()),
{
    let mut i: usize = 0;
    while i < a.len()
        invariant
            i <= a.len(),
            forall|k: int, j: int|
                0 <= k < i && 0 <= j < b.len() ==> (#[trigger] a.deep_view()[k]).uri != (
                #[trigger] b.deep_view()[j]).uri,
        decreases a.len() - i,
    {
        if holds_uri(b, a[i].uri.as_str()) {
            let ghost j = choose|j: int|
                0 <= j < b.len() && (#[trigger] b.deep_view()[j]).uri == a[i as int].uri@;
            assert(a.deep_view()[i as int].uri == b.deep_view()[j].uri);
            return true;
        }
        i = i + 1;
    }
    false
}

/// Whether `existing` already holds the credentials of the request.
pub fn duplicates(existing: &Item, req: &CreateItemRequest) -> (r: bool)
    ensures
        r == is_duplicate(existing.deep_view(), req.deep_view()),
{
    if req.item_type.0 != LOGIN || existing.item_type.0 != LOGIN {
        return false;
    }
    match (&req.login, &existing.login) {
        (Some(wanted), Some(held)) => {
            if !same_optional_text(&held.username, &wanted.username) {
                return false;
            }
            let overlap = match (&wanted.uris, &held.uris) {
                (Some(a), Some(b)) => uris_overlap(a, b),
                _ => false,
            };
            if !overlap {
                return false;
            }
            same_optional_text(&held.password, &wanted.password)
        },
        _ => false,
    }
}

/// The place of the first item that already holds the credentials of the
/// request.
pub fn find_duplicate(vault: &Vault, req: &CreateItemRequest) -> (r: Option<usize>)
    ensures
        match r {
            Some(i) => is_first_duplicate(vault.deep_view().items, req.deep_view(), i as int),
            None => !has_duplicate(vault.deep_view().items, req.deep_view()),
        },
{
    let mut i: usize = 0;
    while i < vault.items.len()
        invariant
            i <= vault.items.len(),
            forall|j: int|
                0 <= j < i ==> !is_duplicate(#[trigger] vault.deep_view().items[j], req.deep_view()),
        decreases vault.items.len() - i,
    {
        if duplicates(&vault.items[i], req) {
            return Some(i);
        }
        i = i + 1;
    }
    None
}

/// The item that a request creates.
pub fn build_item(req: CreateItemRequest, id: String, now: Timestamp) -> (r: Item)
    ensures
        r.deep_view() == created_item(req.deep_view(), id@, now),
{
    Item {
        id,
        item_type: req.item_type,
        name: req.name,
        folder_id: req.folder_id,
        favorite: match req.favorite {
            Some(favorite) => favorite,
            None => false,
        },
        notes: req.notes,
        login: req.login,
        card: req.card,
        identity: req.identity,
        secure_note: req.secure_note,
        fields: req.fields,
        reprompt: req.reprompt,
        creation_date: now,
        revision_date: now,
    }
}

/// Whether `r` is the answer to a request to create an item, made at
/// `now` for the identifier `id` with `token`, that took the state from
/// `before` to `after`.
///
/// A request with a problem is refused with `BadRequest` and the reason;
/// while the vault is out of memory the answer is `VaultLocked`; neither
/// touches the state. A login whose credentials an item already holds is
/// not created again: the answer is the first such item, and nothing
/// changes. Everything else goes through the write pipeline as an added
/// item, and the answer is the item and the session, or the refusal of the
/// pipeline.
pub open spec fn is_create_answer(
    before: AppStateView,
    after: AppStateView,
    token: Seq<char>,
    req: CreateItemRequestView,
    now: Timestamp,
    id: Seq<char>,
    r: Result<CreateOutcome, ApiError>,
) -> bool {
    let added = VaultMutationView::AddItem { item: created_item(req, id, now) };
    match request_problem(req) {
        Some(reason) => after == before && (r matches Err(ApiError::BadRequest(text)) && text@
            == reason),
        None => match before.vault {
            None => after == before && (r matches Err(ApiError::VaultLocked)),
            Some(vault) => if has_duplicate(vault.items, req) {
                after == before && (r matches Ok(CreateOutcome::Existing { item }) && exists|i: int|
                    is_first_duplicate(vault.items, req, i) && item.deep_view() == vault.items[i])
            } else {
                after == updated(before, token, added, now) && (match r {
                    Ok(CreateOutcome::Created { item, session }) => update_refusal(
                        before,
                        token,
                        added,
                        now,
                    ) is None && item.deep_view() == created_item(req, id, now) && Some(
                        session.deep_view(),
                    ) == session_for(before, token, now),
                    Ok(CreateOutcome::Existing { .. }) => false,
                    Err(e) => update_refusal(before, token, added, now) matches Some(why)
                        && is_refused_as(e, why),
                })
            },
        },
    }
}

/// Creates an item at `now`, under the identifier `id`, on behalf of the
/// session `token`.
///
/// The answer is the one that `is_create_answer` describes. The vault's
/// invariant is kept: an identifier that an item already has, and a folder
/// that does not exist, are refused by the write pipeline.
pub fn create_item_at(
    state: &mut AppState,
    token: &str,
    req: CreateItemRequest,
    now: Timestamp,
    id: String,
) -> (r: Result<CreateOutcome, ApiError>)
    requires
        old(state).wf(),
        now.secs + old(state).deep_view().unlock_timeout <= i64::MAX,
    ensures
        final(state).wf(),
        is_create_answer(
            old(state).deep_view(),
            final(state).deep_view(),
            token@,
            req.deep_view(),
            now,
            id@,
            r,
        ),
        keeps_vault_wf(old(state).deep_view(), final(state).deep_view()),
{
    match validate(&req) {
        Ok(_) => {},
        Err(e) => {
            return Err(e);
        },
    }
    let vault = match state.get_vault() {
        Some(vault) => vault,
        None => {
            return Err(ApiError::VaultLocked);
        },
    };
    match find_duplicate(&vault, &req) {
        Some(i) => {
            let item = vault.items[i].duplicate();
            assert(is_first_duplicate(vault.deep_view().items, req.deep_view(), i as int));
            return Ok(CreateOutcome::Existing { item });
        },
        None => {},
    }
    let item = build_item(req, id, now);
    let copy = item.duplicate();
    match state.update_vault_at(token, VaultMutation::AddItem { item }, now) {
        Ok(session) => Ok(CreateOutcome::Created { item: copy, session }),
        Err(e) => Err(e),
    }
}

/// Creates an item now, under a fresh random identifier: what
/// `create_item_at` does at the time the clock gives, for an identifier of
/// 36 characters.
pub fn create_item(state: &mut AppState, token: &str, req: CreateItemRequest) -> (r: Result<
    CreateOutcome,
    ApiError,
>)
    requires
        old(state).wf(),
    ensures
        final(state).wf(),
        exists|now: Timestamp, id: Seq<char>|
            now.is_plain() && id.len() == 36 && is_create_answer(
                old(state).deep_view(),
                final(state).deep_view(),
                token@,
                req.deep_view(),
                now,
                id,
                r,
            ),
        keeps_vault_wf(old(state).deep_view(), final(state).deep_view()),
{
    let now = Timestamp::now();
    let id = new_uuid();
    let ghost chosen = id@;
    let r = create_item_at(state, token, req, now, id);
    assert(now.is_plain() && chosen.len() == 36 && is_create_answer(
        old(state).deep_view(),
        final(state).deep_view(),
        token@,
        req.deep_view(),
        now,
        chosen,
        r,
    ));
    r
}

// ---------------------------------------------------------------------------
// Updating and deleting items
// ---------------------------------------------------------------------------

/// The item that an update puts in the place of `existing` at `now`: what
/// the request says, under the old identifier and creation date, revised
/// at `now`.
pub open spec fn revised_item(existing: ItemView, req: UpdateItemRequestView, now: Timestamp) -> ItemView {
    ItemView {
        id: existing.id,
        item_type: req.item_type,
        name: req.name,
        folder_id: req.folder_id,
        favorite: match req.favorite {
            Some(favorite) => favorite,
            None => false,
        },
        notes: req.notes,
        login: req.login,
        card: req.card,
        identity: req.identity,
        secure_note: req.secure_note,
        fields: req.fields,
        reprompt: req.reprompt,
        creation_date: existing.creation_date,
        revision_date: now,
    }
}

/// The item that an update puts in the place of `existing`.
pub fn revise_item(existing: &Item, req: UpdateItemRequest, now: Timestamp) -> (r: Item)
    ensures
        r.deep_view() == revised_item(existing.deep_view(), req.deep_view(), now),
{
    Item {
        id: existing.id.clone(),
        item_type: req.item_type,
        name: req.name,
        folder_id: req.folder_id,
        favorite: match req.favorite {
            Some(favorite) => favorite,
            None => false,
        },
        notes: req.notes,
        login: req.login,
        card: req.card,
        identity: req.identity,
        secure_note: req.secure_note,
        fields: req.fields,
        reprompt: req.reprompt,
        creation_date: existing.creation_date,
        revision_date: now,
    }
}

/// Whether `r` is the answer to a request to update the item called `id`,
/// made at `now` with `token`, that took the state from `before` to
/// `after`.
///
/// While the vault is out of memory the answer is `VaultLocked`; where it
/// has no such item, `NotFound`; neither touches the state. Otherwise the
/// revised item goes through the write pipeline in the place of the old
/// one, and the answer is the revised item and the session, or the refusal
/// of the pipeline.
pub open spec fn is_update_item_answer(
    before: AppStateView,
    after: AppStateView,
    token: Seq<char>,
    id: Seq<char>,
    req: UpdateItemRequestView,
    now: Timestamp,
    r: Result<(Item, Session), ApiError>,
) -> bool {
    match before.vault {
        None => after == before && (r matches Err(ApiError::VaultLocked)),
        Some(vault) => if !has_item(vault.items, id) {
            after == before && (r matches Err(ApiError::NotFound))
        } else {
            let revised = revised_item(vault.items[item_position(vault.items, id)], req, now);
            let replaced = VaultMutationView::ReplaceItem { id, item: revised };
            after == updated(before, token, replaced, now) && (match r {
                Ok(pair) => update_refusal(before, token, replaced, now) is None
                    && pair.0.deep_view() == revised && Some(pair.1.deep_view()) == session_for(
                    before,
                    token,
                    now,
                ),
                Err(e) => update_refusal(before, token, replaced, now) matches Some(why)
                    && is_refused_as(e, why),
            })
        },
    }
}

/// Updates the item called `id` at `now`, on behalf of the session
/// `token`. The answer is the one that `is_update_item_answer` describes.
pub fn update_item_at(
    state: &mut AppState,
    token: &str,
    id: &str,
    req: UpdateItemRequest,
    now: Timestamp,
) -> (r: Result<(Item, Session), ApiError>)
    requires
        old(state).wf(),
        now.secs + old(state).deep_view().unlock_timeout <= i64::MAX,
    ensures
        final(state).wf(),
        is_update_item_answer(
            old(state).deep_view(),
            final(state).deep_view(),
            token@,
            id@,
            req.deep_view(),
            now,
            r,
        ),
        keeps_vault_wf(old(state).deep_view(), final(state).deep_view()),
{
    let existing = match get_item(state, id) {
        Ok(item) => item,
        Err(e) => {
            return Err(e);
        },
    };
    let item = revise_item(&existing, req, now);
    let copy = item.duplicate();
    let mutation = VaultMutation::ReplaceItem { id: String::from_str(id), item };
    match state.update_vault_at(token, mutation, now) {
        Ok(session) => Ok((copy, session)),
        Err(e) => Err(e),
    }
}

/// Updates the item called `id` now: what `update_item_at` does at the
/// time the clock gives.
pub fn update_item(state: &mut AppState, token: &str, id: &str, req: UpdateItemRequest) -> (r:
    Result<(Item, Session), ApiError>)
    requires
        old(state).wf(),
    ensures
        final(state).wf(),
        exists|now: Timestamp|
            now.is_plain() && is_update_item_answer(
                old(state).deep_view(),
                final(state).deep_view(),
                token@,
                id@,
                req.deep_view(),
                now,
                r,
            ),
        keeps_vault_wf(old(state).deep_view(), final(state).deep_view()),
{
    let now = Timestamp::now();
    let r = update_item_at(state, token, id, req, now);
    assert(now.is_plain() && is_update_item_answer(
        old(state).deep_view(),
        final(state).deep_view(),
        token@,
        id@,
        req.deep_view(),
        now,
        r,
    ));
    r
}

/// Whether `r` is the answer to a request to delete the item called `id`,
/// made at `now` with `token`, that took the state from `before` to
/// `after`: a removal through the write pipeline.
pub open spec fn is_delete_answer(
    before: AppStateView,
    after: AppStateView,
    token: Seq<char>,
    id: Seq<char>,
    now: Timestamp,
    r: Result<Session, ApiError>,
) -> bool {
    let removed = VaultMutationView::RemoveItem { id };
    after == updated(before, token, removed, now) && is_update_answer(
        before,
        token,
        removed,
        now,
        r,
    )
}

/// Deletes the item called `id` at `now`, on behalf of the session
/// `token`: a removal through the write pipeline.
pub fn delete_item_at(state: &mut AppState, token: &str, id: &str, now: Timestamp) -> (r: Result<
    Session,
    ApiError,
>)
    requires
        old(state).wf(),
        now.secs + old(state).deep_view().unlock_timeout <= i64::MAX,
    ensures
        final(state).wf(),
        is_delete_answer(old(state).deep_view(), final(state).deep_view(), token@, id@, now, r),
        keeps_vault_wf(old(state).deep_view(), final(state).deep_view()),
{
    state.update_vault_at(token, VaultMutation::RemoveItem { id: String::from_str(id) }, now)
}

/// Deletes the item called `id` now: what `delete_item_at` does at the
/// time the clock gives.
pub fn delete_item(state: &mut AppState, token: &str, id: &str) -> (r: Result<Session, ApiError>)
    requires
        old(state).wf(),
    ensures
        final(state).wf(),
        exists|now: Timestamp|
            now.is_plain() && is_delete_answer(
                old(state).deep_view(),
                final(state).deep_view(),
                token@,
                id@,
                now,
                r,
            ),
        keeps_vault_wf(old(state).deep_view(), final(state).deep_view()),
{
    let now = Timestamp::now();
    let r = delete_item_at(state, token, id, now);
    assert(now.is_plain() && is_delete_answer(
        old(state).deep_view(),
        final(state).deep_view(),
        token@,
        id@,
        now,
        r,
    ));
    r
}

// ---------------------------------------------------------------------------
// Generating passwords
// ---------------------------------------------------------------------------

/// The length of a generated password unless the request gives one.
pub const DEFAULT_PASSWORD_LENGTH: usize = 16;

/// What a password is generated from: its length and the kinds of
/// characters it must hold.
#[derive(Debug, Clone, Copy, PartialEq, Eq, Structural)]
pub struct PasswordRecipe {
    pub length: usize,
    pub numbers: bool,
    pub lowercase_letters: bool,
    pub uppercase_letters: bool,
    pub symbols: bool,
    pub exclude_similar_characters: bool,
}

/// The recipe of a request: what it says, and for what it leaves out 16
/// characters, every kind, no look-alikes.
pub open spec fn recipe_of(req: GeneratePasswordRequest) -> PasswordRecipe {
    PasswordRecipe {
        length: match req.length {
            Some(length) => length,
            None => DEFAULT_PASSWORD_LENGTH,
        },
        numbers: !(req.include_numbers == Some(false)),
        lowercase_letters: !(req.include_lowercase == Some(false)),
        uppercase_letters: !(req.include_uppercase == Some(false)),
        symbols: !(req.include_symbols == Some(false)),
        exclude_similar_characters: !(req.exclude_similar == Some(false)),
    }
}

/// The number of kinds of characters a recipe asks for.
pub open spec fn kinds(recipe: PasswordRecipe) -> int {
    (if recipe.numbers { 1int } else { 0 }) + (if recipe.lowercase_letters { 1int } else { 0 }) + (
    if recipe.uppercase_letters { 1int } else { 0 }) + (if recipe.symbols { 1int } else { 0 })
}

/// Whether a password can be made from a recipe: it asks for at least one
/// kind of characters and for at least one character of each kind.
pub open spec fn is_feasible(recipe: PasswordRecipe) -> bool {
    kinds(recipe) > 0 && recipe.length >= kinds(recipe)
}

/// The score of a password of `length` characters: 5 from 16 characters
/// on, else 3.
pub open spec fn score_of(length: nat) -> u8 {
    if length >= 16 {
        5
    } else {
        3
    }
}

/// The name of a score.
pub open spec fn label_of(score: u8) -> Seq<char> {
    if score == 5 {
        "Very Strong"@
    } else if score == 4 {
        "Strong"@
    } else if score == 3 {
        "Good"@
    } else if score == 2 {
        "Fair"@
    } else if score == 1 {
        "Weak"@
    } else {
        "Very Weak"@
    }
}

/// Trusted: `passwords::PasswordGenerator::generate_one`, in strict mode
/// and without spaces. It refuses exactly the recipes from which no
/// password can be made; a password that comes back has the length asked
/// for. The characters are random.
#[verifier::external_body]
fn outside_generate_one(recipe: PasswordRecipe) -> (r: Result<String, String>)
    ensures
        r is Ok <==> is_feasible(recipe),
        r matches Ok(password) ==> password@.len() == recipe.length,
{
    passwords::PasswordGenerator {
        length: recipe.length,
        numbers: recipe.numbers,
        lowercase_letters: recipe.lowercase_letters,
        uppercase_letters: recipe.uppercase_letters,
        symbols: recipe.symbols,
        spaces: false,
        exclude_similar_characters: recipe.exclude_similar_characters,
        strict: true,
    }.generate_one().map_err(|e| e.to_string())
}

/// The recipe of a request.
pub fn recipe(req: &GeneratePasswordRequest) -> (r: PasswordRecipe)
    ensures
        r == recipe_of(*req),
{
    PasswordRecipe {
        length: match req.length {
            Some(length) => length,
            None => DEFAULT_PASSWORD_LENGTH,
        },
        numbers: match req.include_numbers {
            Some(b) => b,
            None => true,
        },
        lowercase_letters: match req.include_lowercase {
            Some(b) => b,
            None => true,
        },
        uppercase_letters: match req.include_uppercase {
            Some(b) => b,
            None => true,
        },
        symbols: match req.include_symbols {
            Some(b) => b,
            None => true,
        },
        exclude_similar_characters: match req.exclude_similar {
            Some(b) => b,
            None => true,
        },
    }
}

/// The name of a score.
pub fn strength_label(score: u8) -> (r: &'static str)
    ensures
        r@ == label_of(score),
{
    if score == 5 {
        "Very Strong"
    } else if score == 4 {
        "Strong"
    } else if score == 3 {
        "Good"
    } else if score == 2 {
        "Fair"
    } else if score == 1 {
        "Weak"
    } else {
        "Very Weak"
    }
}

/// The strength of a password of `length` characters.
pub fn password_strength(length: usize) -> (r: PasswordStrength)
    ensures
        r.score == score_of(length as nat),
        r.label@ == label_of(score_of(length as nat)),
{
    let score: u8 = if length >= 16 {
        5
    } else {
        3
    };
    PasswordStrength { score, label: String::from_str(strength_label(score)) }
}

/// Generates a password.
///
/// A password comes back exactly where one can be made from the recipe of
/// the request; it has the length asked for and is rated by that length.
/// A recipe from which none can be made is refused with `BadRequest`.
pub fn generate_password(req: &GeneratePasswordRequest) -> (r: Result<
    GeneratePasswordResponse,
    ApiError,
>)
    ensures
        match r {
            Ok(response) => is_feasible(recipe_of(*req)) && response.password@.len() == recipe_of(
                *req,
            ).length && response.strength.score == score_of(response.password@.len())
                && response.strength.label@ == label_of(response.strength.score),
            Err(e) => !is_feasible(recipe_of(*req)) && e is BadRequest,
        },
{
    let wanted = recipe(req);
    match outside_generate_one(wanted) {
        Ok(password) => {
            let strength = password_strength(wanted.length);
            Ok(GeneratePasswordResponse { password, strength })
        },
        Err(reason) => Err(ApiError::BadRequest(reason)),
    }
}

// ---------------------------------------------------------------------------
// One-time passwords
// ---------------------------------------------------------------------------

/// The configuration that codes of an item are generated with: the usual
/// settings around the item's normalised secret.
pub open spec fn item_totp_config(secret: Seq<char>) -> TotpConfigView {
    TotpConfigView {
        secret,
        issuer: None,
        account_name: None,
        algorithm: crate::totp::Algorithm::SHA1,
        digits: crate::totp::DEFAULT_DIGITS,
        period: crate::totp::DEFAULT_PERIOD,
    }
}

/// The one-time password secret that an item carries.
pub open spec fn totp_secret_of(item: ItemView) -> Option<Seq<char>> {
    match item.login {
        Some(login) => login.totp,
        None => None,
    }
}

/// The configuration that codes of the item called `id` are generated
/// with.
///
/// `VaultLocked` while the vault is out of memory; `NotFound` where it has
/// no such item; `BadRequest` where the item carries no secret or one that
/// has no normal form.
pub fn totp_config(state: &AppState, id: &str) -> (r: Result<TotpConfig, ApiError>)
    ensures
        match state.deep_view().vault {
            None => r matches Err(ApiError::VaultLocked),
            Some(vault) => if !has_item(vault.items, id@) {
                r matches Err(ApiError::NotFound)
            } else {
                match totp_secret_of(vault.items[item_position(vault.items, id@)]) {
                    None => r matches Err(ApiError::BadRequest(_)),
                    Some(raw) => match normalised(raw) {
                        None => r matches Err(ApiError::BadRequest(_)),
                        Some(secret) => r matches Ok(config) && config.deep_view()
                            == item_totp_config(secret),
                    },
                }
            },
        },
{
    let item = match get_item(state, id) {
        Ok(item) => item,
        Err(e) => {
            return Err(e);
        },
    };
    let raw = match item.login {
        Some(login) => match login.totp {
            Some(raw) => raw,
            None => {
                return Err(ApiError::BadRequest(String::from_str("Item has no TOTP")));
            },
        },
        None => {
            return Err(ApiError::BadRequest(String::from_str("Item has no TOTP")));
        },
    };
    match parse_totp_secret(raw.as_str()) {
        Ok(secret) => Ok(TotpConfig::new(secret)),
        Err(e) => Err(ApiError::BadRequest(prefixed("Invalid TOTP secret: ", &e.message()))),
    }
}

/// The one-time password of the item called `id` at `unix_secs`, and the
/// seconds it stays valid.
///
/// `VaultLocked` while the vault is out of memory; `NotFound` where it has
/// no such item; `BadRequest` where the item carries no secret or one
/// that has no normal form; an internal error where the normal form is
/// not one that codes can be generated from.
pub fn get_totp_at(state: &AppState, id: &str, unix_secs: u64) -> (r: Result<TotpResponse, ApiError>)
    ensures
        match state.deep_view().vault {
            None => r matches Err(ApiError::VaultLocked),
            Some(vault) => if !has_item(vault.items, id@) {
                r matches Err(ApiError::NotFound)
            } else {
                match totp_secret_of(vault.items[item_position(vault.items, id@)]) {
                    None => r matches Err(ApiError::BadRequest(_)),
                    Some(raw) => match normalised(raw) {
                        None => r matches Err(ApiError::BadRequest(_)),
                        Some(secret) => match code_at(item_totp_config(secret), unix_secs) {
                            None => r matches Err(ApiError::Internal(_)),
                            Some(code) => r matches Ok(response) && response.code@ == code
                                && response.ttl == remaining(crate::totp::DEFAULT_PERIOD, unix_secs),
                        },
                    },
                }
            },
        },
{
    let config = match totp_config(state, id) {
        Ok(config) => config,
        Err(e) => {
            return Err(e);
        },
    };
    match config.generate_at(unix_secs) {
        Ok(code) => Ok(TotpResponse { code, ttl: config.ttl_at(unix_secs) }),
        Err(e) => Err(ApiError::from_core(e)),
    }
}

/// The current one-time password of the item called `id`, and the seconds
/// it stays valid, by the system clock. The refusals are those of
/// `get_totp_at`; a clock that stands before the epoch is an internal
/// error.
pub fn get_totp(state: &AppState, id: &str) -> (r: Result<TotpResponse, ApiError>)
    ensures
        match state.deep_view().vault {
            None => r matches Err(ApiError::VaultLocked),
            Some(vault) => if !has_item(vault.items, id@) {
                r matches Err(ApiError::NotFound)
            } else {
                match totp_secret_of(vault.items[item_position(vault.items, id@)]) {
                    None => r matches Err(ApiError::BadRequest(_)),
                    Some(raw) => match normalised(raw) {
                        None => r matches Err(ApiError::BadRequest(_)),
                        Some(secret) => match r {
                            Ok(response) => (exists|t: u64|
                                code_at(item_totp_config(secret), t) == Some(response.code@)) && 0
                                < response.ttl <= crate::totp::DEFAULT_PERIOD,
                            Err(e) => e is Internal,
                        },
                    },
                }
            },
        },
{
    let config = match totp_config(state, id) {
        Ok(config) => config,
        Err(e) => {
            return Err(e);
        },
    };
    match config.generate() {
        Ok(code) => Ok(TotpResponse { code, ttl: config.ttl() }),
        Err(e) => Err(ApiError::from_core(e)),
    }
}

// ---------------------------------------------------------------------------
// Synchronisation and health
// ---------------------------------------------------------------------------

/// The answer to a push that went through.
pub fn push() -> (r: SyncResponse)
    ensures
        r.success,
        r.message@ == "Sync completed"@,
        r.items_synced == 0,
{
    SyncResponse { success: true, message: String::from_str("Sync completed"), items_synced: 0 }
}

/// The answer to a pull that went through.
pub fn pull() -> (r: SyncResponse)
    ensures
        r.success,
        r.message@ == "Pull completed"@,
        r.items_synced == 0,
{
    SyncResponse { success: true, message: String::from_str("Pull completed"), items_synced: 0 }
}

/// The answer to a health check: the status `ok`.
pub fn health_check() -> (r: &'static str)
    ensures
        r@ == "ok"@,
{
    "ok"
}

} // verus!
