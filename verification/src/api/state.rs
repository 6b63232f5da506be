//! The session and vault state manager: the single owner of the decrypted
//! vault and of the sessions.
//!
//! Every operation that touches the sessions first evicts the ones that
//! have expired, so no expired session is ever left behind. Exclusive
//! access (`&mut self`) is what serialises mutations: the caller keeps the
//! state behind a lock and holds it for the length of one call.

use vstd::prelude::*;
use vstd::string::*;
use crate::api::models::{fresh_session, Session, SessionView, MAX_TIMEOUT_SECS};
use crate::clock::{new_uuid, Timestamp};
use crate::errors::ApiError;
use crate::models::{
    has_folder, has_item, lemma_add_keeps_wf, lemma_remove_keeps_wf, lemma_replace_keeps_wf,
    vault_wf, with_item, with_item_replaced, without_item, Item, ItemView, Vault, VaultView,
};
use crate::text::same_text;

verus! {

// ---------------------------------------------------------------------------
// Sessions as a mathematical object
// ---------------------------------------------------------------------------

/// Whether some session of `sessions` has the token `token`.
pub open spec fn has_session(sessions: Seq<SessionView>, token: Seq<char>) -> bool {
    exists|i: int| 0 <= i < sessions.len() && #[trigger] sessions[i].id == token
}

/// The place of a session with the token `token`; only meaningful where
/// there is one.
pub open spec fn session_place(sessions: Seq<SessionView>, token: Seq<char>) -> int {
    choose|i: int| 0 <= i < sessions.len() && #[trigger] sessions[i].id == token
}

/// Whether no two sessions share a token.
pub open spec fn distinct_tokens(sessions: Seq<SessionView>) -> bool {
    forall|i: int, j: int|
        0 <= i < j < sessions.len() ==> #[trigger] sessions[i].id != #[trigger] sessions[j].id
}

/// The sessions that have not expired at `now`.
pub open spec fn live_sessions(sessions: Seq<SessionView>, now: Timestamp) -> Seq<SessionView> {
    sessions.filter(|s: SessionView| !s.expired_at(now))
}

/// The sessions other than the one with the token `token`.
pub open spec fn without_session(sessions: Seq<SessionView>, token: Seq<char>) -> Seq<SessionView> {
    sessions.filter(|s: SessionView| s.id != token)
}

/// Whether no session of `sessions` has expired at `now`.
pub open spec fn none_expired(sessions: Seq<SessionView>, now: Timestamp) -> bool {
    forall|i: int| 0 <= i < sessions.len() ==> !(#[trigger] sessions[i]).expired_at(now)
}

/// Filtering keeps tokens distinct, keeps nothing that was not there, and
/// keeps everything that passes.
pub proof fn lemma_filtered_sessions(sessions: Seq<SessionView>, pred: spec_fn(SessionView) -> bool)
    ensures
        distinct_tokens(sessions) ==> distinct_tokens(sessions.filter(pred)),
        forall|i: int|
            0 <= i < sessions.filter(pred).len() ==> sessions.contains(
                #[trigger] sessions.filter(pred)[i],
            ) && pred(sessions.filter(pred)[i]),
        forall|a: int|
            0 <= a < sessions.len() && pred(sessions[a]) ==> sessions.filter(pred).contains(
                #[trigger] sessions[a],
            ),
    decreases sessions.len(),
{
    reveal(Seq::filter);
    let out = sessions.filter(pred);
    if sessions.len() > 0 {
        let front = sessions.drop_last();
        let last = sessions.last();
        lemma_filtered_sessions(front, pred);
        let inner = front.filter(pred);
        assert forall|i: int| 0 <= i < out.len() implies sessions.contains(#[trigger] out[i])
            && pred(out[i]) by {
            if i < inner.len() {
                assert(out[i] == inner[i]);
                assert(front.contains(inner[i]));
                let a = choose|a: int| 0 <= a < front.len() && front[a] == inner[i];
                assert(sessions[a] == out[i]);
            } else {
                assert(sessions[sessions.len() - 1] == out[i]);
            }
        }
        assert forall|a: int| 0 <= a < sessions.len() && pred(sessions[a]) implies out.contains(
            #[trigger] sessions[a],
        ) by {
            if a < front.len() {
                assert(front[a] == sessions[a]);
                assert(inner.contains(front[a]));
                let i = choose|i: int| 0 <= i < inner.len() && inner[i] == front[a];
                assert(out[i] == sessions[a]);
            } else {
                assert(out[out.len() - 1] == sessions[a]);
            }
        }
        if distinct_tokens(sessions) {
            assert(distinct_tokens(front)) by {
                assert forall|i: int, j: int| 0 <= i < j < front.len() implies #[trigger] front[i].id
                    != #[trigger] front[j].id by {
                    assert(front[i] == sessions[i] && front[j] == sessions[j]);
                }
            }
            assert forall|i: int, j: int| 0 <= i < j < out.len() implies #[trigger] out[i].id
                != #[trigger] out[j].id by {
                if j < inner.len() {
                    assert(out[i] == inner[i] && out[j] == inner[j]);
                } else {
                    assert(out[j] == last);
                    assert(out[i] == inner[i]);
                    assert(front.contains(inner[i]));
                    let a = choose|a: int| 0 <= a < front.len() && front[a] == inner[i];
                    assert(sessions[a].id != sessions[sessions.len() - 1].id);
                }
            }
        }
    }
}

/// A session is among the filtered ones exactly if it is among the
/// sessions and passes.
pub proof fn lemma_filtered_has(
    sessions: Seq<SessionView>,
    pred: spec_fn(SessionView) -> bool,
    token: Seq<char>,
)
    ensures
        has_session(sessions.filter(pred), token) <==> exists|a: int|
            0 <= a < sessions.len() && #[trigger] sessions[a].id == token && pred(sessions[a]),
{
    lemma_filtered_sessions(sessions, pred);
    let out = sessions.filter(pred);
    if has_session(out, token) {
        let i = choose|i: int| 0 <= i < out.len() && #[trigger] out[i].id == token;
        assert(sessions.contains(out[i]));
        let a = choose|a: int| 0 <= a < sessions.len() && sessions[a] == out[i];
        assert(sessions[a].id == token && pred(sessions[a]));
    }
    if exists|a: int|
        0 <= a < sessions.len() && #[trigger] sessions[a].id == token && pred(sessions[a]) {
        let a = choose|a: int|
            0 <= a < sessions.len() && #[trigger] sessions[a].id == token && pred(sessions[a]);
        assert(out.contains(sessions[a]));
        let i = choose|i: int| 0 <= i < out.len() && out[i] == sessions[a];
        assert(out[i].id == token);
    }
}

// ---------------------------------------------------------------------------
// Mutations
// ---------------------------------------------------------------------------

/// A change of the vault that goes through the write pipeline.
#[derive(Debug, Clone)]
pub enum VaultMutation {
    /// Add the item at the end.
    AddItem { item: Item },
    /// Put the item in the place of the one called `id`.
    ReplaceItem { id: String, item: Item },
    /// Take the item called `id` out.
    RemoveItem { id: String },
}

/// The mathematical content of a `VaultMutation`.
pub ghost enum VaultMutationView {
    AddItem { item: ItemView },
    ReplaceItem { id: Seq<char>, item: ItemView },
    RemoveItem { id: Seq<char> },
}

impl DeepView for VaultMutation {
    type V = VaultMutationView;

    open spec fn deep_view(&self) -> VaultMutationView {
        match self {
            VaultMutation::AddItem { item } => VaultMutationView::AddItem { item: item.deep_view() },
            VaultMutation::ReplaceItem { id, item } => VaultMutationView::ReplaceItem {
                id: id@,
                item: item.deep_view(),
            },
            VaultMutation::RemoveItem { id } => VaultMutationView::RemoveItem { id: id@ },
        }
    }
}

/// Why an update of the vault is refused.
pub ghost enum Refusal {
    /// The token is unknown or its session has expired.
    SessionExpired,
    /// The vault is out of memory.
    VaultLocked,
    /// The item that is to be replaced or removed is not there.
    NotFound,
    /// The mutation would break the vault's invariant; the reason goes
    /// back with a bad-request answer.
    Invalid { reason: Seq<char> },
}

/// Whether `e` is the error that a refusal is answered with.
pub open spec fn is_refused_as(e: ApiError, why: Refusal) -> bool {
    match why {
        Refusal::SessionExpired => e == ApiError::SessionExpired,
        Refusal::VaultLocked => e == ApiError::VaultLocked,
        Refusal::NotFound => e == ApiError::NotFound,
        Refusal::Invalid { reason } => e matches ApiError::BadRequest(m) && m@ == reason,
    }
}

/// Whether `item` names a folder that `vault` does not have.
pub open spec fn names_missing_folder(vault: VaultView, item: ItemView) -> bool {
    item.folder_id matches Some(f) && !has_folder(vault.folders, f)
}

/// What is wrong with a mutation of `vault`, if anything.
///
/// An item that is to be replaced or removed must be there. An item that
/// is added must come under an identifier that no item has yet; an item
/// that replaces another keeps its identifier; and either is in no folder
/// or in one that exists. So the vault's invariant is never broken.
pub open spec fn mutation_problem(vault: VaultView, mutation: VaultMutationView) -> Option<Refusal> {
    match mutation {
        VaultMutationView::AddItem { item } => if has_item(vault.items, item.id) {
            Some(Refusal::Invalid { reason: "Item identifier is already in use"@ })
        } else if names_missing_folder(vault, item) {
            Some(Refusal::Invalid { reason: "Folder does not exist"@ })
        } else {
            None
        },
        VaultMutationView::ReplaceItem { id, item } => if !has_item(vault.items, id) {
            Some(Refusal::NotFound)
        } else if item.id != id {
            Some(Refusal::Invalid { reason: "Item identifier cannot change"@ })
        } else if names_missing_folder(vault, item) {
            Some(Refusal::Invalid { reason: "Folder does not exist"@ })
        } else {
            None
        },
        VaultMutationView::RemoveItem { id } => if !has_item(vault.items, id) {
            Some(Refusal::NotFound)
        } else {
            None
        },
    }
}

/// Whether the mutation can be applied to `vault`: nothing is wrong with
/// it.
pub open spec fn applies(vault: VaultView, mutation: VaultMutationView) -> bool {
    mutation_problem(vault, mutation) is None
}

/// A mutation that applies keeps the vault's invariant.
pub proof fn lemma_mutation_keeps_wf(vault: VaultView, mutation: VaultMutationView, now: Timestamp)
    requires
        vault_wf(vault),
        applies(vault, mutation),
    ensures
        vault_wf(mutated(vault, mutation, now)),
{
    match mutation {
        VaultMutationView::AddItem { item } => {
            lemma_add_keeps_wf(vault, item, now);
        },
        VaultMutationView::ReplaceItem { id, item } => {
            lemma_replace_keeps_wf(vault, id, item, now);
        },
        VaultMutationView::RemoveItem { id } => {
            lemma_remove_keeps_wf(vault, id, now);
        },
    }
}

/// The vault after the mutation, applied at `now`.
pub open spec fn mutated(vault: VaultView, mutation: VaultMutationView, now: Timestamp) -> VaultView {
    match mutation {
        VaultMutationView::AddItem { item } => with_item(vault, item, now),
        VaultMutationView::ReplaceItem { id, item } => with_item_replaced(vault, id, item, now),
        VaultMutationView::RemoveItem { id } => without_item(vault, id, now),
    }
}

fn names_folder_that_is_missing(vault: &Vault, item: &Item) -> (r: bool)
    ensures
        r == names_missing_folder(vault.deep_view(), item.deep_view()),
{
    match &item.folder_id {
        Some(folder) => !vault.has_folder(folder.as_str()),
        None => false,
    }
}

impl VaultMutation {
    /// Applies the mutation to `vault` at `now`.
    ///
    /// A mutation with a problem is refused and leaves the vault as it is:
    /// with `NotFound` where the item is not there, with `BadRequest` and
    /// the reason where the vault's invariant would break. A vault whose
    /// invariant holds keeps it.
    pub fn apply(self, vault: &mut Vault, now: Timestamp) -> (r: Result<(), ApiError>)
        ensures
            match r {
                Ok(_) => applies(old(vault).deep_view(), self.deep_view()) && final(
                    vault).deep_view() == mutated(old(vault).deep_view(), self.deep_view(), now),
                Err(e) => (mutation_problem(old(vault).deep_view(), self.deep_view()) matches Some(
                    why,
                ) && is_refused_as(e, why)) && final(vault).deep_view() == old(vault).deep_view(),
            },
            vault_wf(old(vault).deep_view()) ==> vault_wf(final(vault).deep_view()),
    {
        proof {
            if vault_wf(vault.deep_view()) && applies(vault.deep_view(), self.deep_view()) {
                lemma_mutation_keeps_wf(vault.deep_view(), self.deep_view(), now);
            }
        }
        match self {
            VaultMutation::AddItem { item } => {
                if vault.position(item.id.as_str()).is_some() {
                    return Err(
                        ApiError::BadRequest(String::from_str("Item identifier is already in use")),
                    );
                }
                if names_folder_that_is_missing(vault, &item) {
                    return Err(ApiError::BadRequest(String::from_str("Folder does not exist")));
                }
                vault.add_item_at(item, now);
                Ok(())
            },
            VaultMutation::ReplaceItem { id, item } => {
                if vault.position(id.as_str()).is_none() {
                    return Err(ApiError::NotFound);
                }
                if !same_text(item.id.as_str(), id.as_str()) {
                    return Err(
                        ApiError::BadRequest(String::from_str("Item identifier cannot change")),
                    );
                }
                if names_folder_that_is_missing(vault, &item) {
                    return Err(ApiError::BadRequest(String::from_str("Folder does not exist")));
                }
                vault.replace_item_at(id.as_str(), item, now);
                Ok(())
            },
            VaultMutation::RemoveItem { id } => {
                if vault.position(id.as_str()).is_none() {
                    return Err(ApiError::NotFound);
                }
                vault.remove_item_at(id.as_str(), now);
                Ok(())
            },
        }
    }
}

// ---------------------------------------------------------------------------
// The state
// ---------------------------------------------------------------------------

/// The state of the service: where the vault lives, the decrypted vault
/// while it is unlocked, the sessions, and the unlock timeout in seconds.
pub struct AppState {
    vault_path: String,
    vault: Option<Vault>,
    sessions: Vec<Session>,
    unlock_timeout: u64,
}

/// The mathematical content of an `AppState`.
pub ghost struct AppStateView {
    pub vault_path: Seq<char>,
    pub vault: Option<VaultView>,
    pub sessions: Seq<SessionView>,
    pub unlock_timeout: u64,
}

impl DeepView for AppState {
    type V = AppStateView;

    closed spec fn deep_view(&self) -> AppStateView {
        AppStateView {
            vault_path: self.vault_path@,
            vault: self.vault.deep_view(),
            sessions: self.sessions.deep_view(),
            unlock_timeout: self.unlock_timeout,
        }
    }
}

/// The state's invariant: no two sessions share a token, and the timeout
/// is one that sessions can be made with.
pub open spec fn state_wf(s: AppStateView) -> bool {
    distinct_tokens(s.sessions) && s.unlock_timeout <= MAX_TIMEOUT_SECS
}

/// The state after the expired sessions are evicted at `now`. When no
/// session is left, the vault leaves memory.
pub open spec fn swept(s: AppStateView, now: Timestamp) -> AppStateView {
    let live = live_sessions(s.sessions, now);
    AppStateView {
        sessions: live,
        vault: if live.len() == 0 {
            None
        } else {
            s.vault
        },
        ..s
    }
}

/// The state after an access with `token` at `now`: expired sessions are
/// evicted, and the session with the token, if it is still there, now
/// expires a full timeout after `now`.
pub open spec fn accessed(s: AppStateView, token: Seq<char>, now: Timestamp) -> AppStateView {
    let t = swept(s, now);
    if has_session(t.sessions, token) {
        let i = session_place(t.sessions, token);
        AppStateView {
            sessions: t.sessions.update(i, t.sessions[i].refreshed(now, s.unlock_timeout)),
            ..t
        }
    } else {
        t
    }
}

/// The session that an access with `token` at `now` gives: the refreshed
/// session, if there is a session with that token that has not expired.
pub open spec fn session_for(s: AppStateView, token: Seq<char>, now: Timestamp) -> Option<
    SessionView,
> {
    let live = live_sessions(s.sessions, now);
    if has_session(live, token) {
        Some(live[session_place(live, token)].refreshed(now, s.unlock_timeout))
    } else {
        None
    }
}

/// The state after an unlock at `now` that installed `vault` and opened
/// `session`.
pub open spec fn unlocked(
    s: AppStateView,
    vault: VaultView,
    session: SessionView,
    now: Timestamp,
) -> AppStateView {
    AppStateView {
        vault: Some(vault),
        sessions: without_session(live_sessions(s.sessions, now), session.id).push(session),
        ..s
    }
}

/// The state after a lock at `now`: with a token, that session is gone
/// (and so are the expired ones); without, all sessions and the vault are
/// gone.
pub open spec fn locked(s: AppStateView, token: Option<Seq<char>>, now: Timestamp) -> AppStateView {
    match token {
        Some(token) => {
            let t = swept(s, now);
            AppStateView { sessions: without_session(t.sessions, token), ..t }
        },
        None => AppStateView { sessions: Seq::empty(), vault: None, ..s },
    }
}

/// The state after an update of the vault with `token` at `now`.
///
/// The access counts as one. Where the session is good, the vault is in
/// memory and the mutation applies, the vault is the mutated one;
/// otherwise nothing changes beyond the access.
pub open spec fn updated(
    s: AppStateView,
    token: Seq<char>,
    mutation: VaultMutationView,
    now: Timestamp,
) -> AppStateView {
    let t = accessed(s, token, now);
    if session_for(s, token, now) is Some && t.vault is Some && applies(t.vault->0, mutation) {
        AppStateView { vault: Some(mutated(t.vault->0, mutation, now)), ..t }
    } else {
        t
    }
}

/// Why an update of the vault with `token` at `now` is refused, if it is:
/// the session is checked first, then the vault, then the mutation.
pub open spec fn update_refusal(
    s: AppStateView,
    token: Seq<char>,
    mutation: VaultMutationView,
    now: Timestamp,
) -> Option<Refusal> {
    let t = accessed(s, token, now);
    if session_for(s, token, now) is None {
        Some(Refusal::SessionExpired)
    } else if t.vault is None {
        Some(Refusal::VaultLocked)
    } else {
        mutation_problem(t.vault->0, mutation)
    }
}

/// Whether `r` is what an update of the vault with `token` at `now`
/// answers: the refreshed session where nothing is in the way, else the
/// error of the refusal.
pub open spec fn is_update_answer(
    s: AppStateView,
    token: Seq<char>,
    mutation: VaultMutationView,
    now: Timestamp,
    r: Result<Session, ApiError>,
) -> bool {
    match r {
        Ok(session) => update_refusal(s, token, mutation, now) is None && Some(session.deep_view())
            == session_for(s, token, now),
        Err(e) => update_refusal(s, token, mutation, now) matches Some(why) && is_refused_as(
            e,
            why,
        ),
    }
}

/// Whether the vault's invariant, if it held in `before`, holds in `after`.
pub open spec fn keeps_vault_wf(before: AppStateView, after: AppStateView) -> bool {
    (before.vault matches Some(v) && vault_wf(v)) ==> (after.vault matches Some(w) ==> vault_wf(w))
}

/// Looking a session up, evicting the expired and locking keep the vault's
/// invariant: each leaves the vault as it is or takes it out of memory.
pub proof fn lemma_sessions_keep_vault_wf(
    s: AppStateView,
    token: Seq<char>,
    lock_token: Option<Seq<char>>,
    now: Timestamp,
)
    ensures
        keeps_vault_wf(s, swept(s, now)),
        keeps_vault_wf(s, accessed(s, token, now)),
        keeps_vault_wf(s, locked(s, lock_token, now)),
{
}

/// An update keeps the vault's invariant, whether it goes through or is
/// refused.
pub proof fn lemma_update_keeps_vault_wf(
    s: AppStateView,
    token: Seq<char>,
    mutation: VaultMutationView,
    now: Timestamp,
)
    ensures
        keeps_vault_wf(s, updated(s, token, mutation, now)),
{
    let t = accessed(s, token, now);
    if s.vault is Some && vault_wf(s.vault->0) && t.vault is Some && applies(t.vault->0, mutation) {
        lemma_mutation_keeps_wf(t.vault->0, mutation, now);
    }
}

/// Evicts the sessions that have expired at `now`.
fn sweep(sessions: &mut Vec<Session>, now: Timestamp)
    ensures
        final(sessions).deep_view() == live_sessions(old(sessions).deep_view(), now),
{
    let ghost all = sessions.deep_view();
    let ghost pred = |s: SessionView| !s.expired_at(now);
    let mut i: usize = 0;
    let ghost mut done: int = 0;
    proof {
        reveal(Seq::filter);
        assert(all.take(0) =~= Seq::empty());
        assert(all.skip(0) =~= all);
        assert(sessions.deep_view() =~= all.take(0).filter(pred) + all.skip(0));
    }
    while i < sessions.len()
        invariant
            0 <= done <= all.len(),
            i == all.take(done).filter(pred).len(),
            sessions.len() == i + (all.len() - done),
            sessions.deep_view() == all.take(done).filter(pred) + all.skip(done),
            pred == (|s: SessionView| !s.expired_at(now)),
        decreases sessions.len() - i,
    {
        proof {
            reveal(Seq::filter);
            assert(all.take(done + 1).drop_last() =~= all.take(done));
            assert(all.take(done + 1).last() == all[done]);
            assert(sessions.deep_view()[i as int] == all.skip(done)[0]);
            assert(sessions[i as int].deep_view() == all[done]);
        }
        let ghost before = sessions.deep_view();
        if sessions[i].is_expired_at(now) {
            sessions.remove(i);
            proof {
                assert(sessions.deep_view() =~= before.remove(i as int));
                assert(before.remove(i as int) =~= all.take(done + 1).filter(pred) + all.skip(
                    done + 1,
                ));
                done = done + 1;
            }
        } else {
            proof {
                assert(before =~= all.take(done + 1).filter(pred) + all.skip(done + 1));
                done = done + 1;
            }
            i = i + 1;
        }
    }
    proof {
        assert(all.take(done) =~= all);
        assert(all.skip(done) =~= Seq::empty());
        assert(sessions.deep_view() =~= all.filter(pred));
    }
}

/// Takes out the sessions with the token `token`.
fn drop_token(sessions: &mut Vec<Session>, token: &str)
    ensures
        final(sessions).deep_view() == without_session(old(sessions).deep_view(), token@),
{
    let ghost all = sessions.deep_view();
    let ghost pred = |s: SessionView| s.id != token@;
    let mut i: usize = 0;
    let ghost mut done: int = 0;
    proof {
        reveal(Seq::filter);
        assert(all.take(0) =~= Seq::empty());
        assert(all.skip(0) =~= all);
        assert(sessions.deep_view() =~= all.take(0).filter(pred) + all.skip(0));
    }
    while i < sessions.len()
        invariant
            0 <= done <= all.len(),
            i == all.take(done).filter(pred).len(),
            sessions.len() == i + (all.len() - done),
            sessions.deep_view() == all.take(done).filter(pred) + all.skip(done),
            pred == (|s: SessionView| s.id != token@),
        decreases sessions.len() - i,
    {
        proof {
            reveal(Seq::filter);
            assert(all.take(done + 1).drop_last() =~= all.take(done));
            assert(all.take(done + 1).last() == all[done]);
            assert(sessions.deep_view()[i as int] == all.skip(done)[0]);
            assert(sessions[i as int].deep_view() == all[done]);
        }
        let ghost before = sessions.deep_view();
        if same_text(sessions[i].id.as_str(), token) {
            sessions.remove(i);
            proof {
                assert(sessions.deep_view() =~= before.remove(i as int));
                assert(before.remove(i as int) =~= all.take(done + 1).filter(pred) + all.skip(
                    done + 1,
                ));
                done = done + 1;
            }
        } else {
            proof {
                assert(before =~= all.take(done + 1).filter(pred) + all.skip(done + 1));
                done = done + 1;
            }
            i = i + 1;
        }
    }
    proof {
        assert(all.take(done) =~= all);
        assert(all.skip(done) =~= Seq::empty());
        assert(sessions.deep_view() =~= all.filter(pred));
    }
}

/// The place of the session with the token `token`.
fn find_session(sessions: &Vec<Session>, token: &str) -> (r: Option<usize>)
    ensures
        match r {
            Some(i) => i < sessions.len() && sessions[i as int].id@ == token@,
            None => !has_session(sessions.deep_view(), token@),
        },
{
    let mut i: usize = 0;
    while i < sessions.len()
        invariant
            i <= sessions.len(),
            forall|k: int| 0 <= k < i ==> #[trigger] sessions.deep_view()[k].id != token@,
        decreases sessions.len() - i,
    {
        if same_text(sessions[i].id.as_str(), token) {
            return Some(i);
        }
        i = i + 1;
    }
    None
}

impl AppState {
    /// Whether the state's invariant holds.
    pub open spec fn wf(&self) -> bool {
        state_wf(self.deep_view())
    }

    /// A locked state without sessions, for the vault in `vault_path` and
    /// an unlock timeout of `unlock_timeout` seconds.
    pub fn new(vault_path: &str, unlock_timeout: u64) -> (r: Self)
        requires
            unlock_timeout <= MAX_TIMEOUT_SECS,
        ensures
            r.wf(),
            r.deep_view() == (AppStateView {
                vault_path: vault_path@,
                vault: None,
                sessions: Seq::empty(),
                unlock_timeout,
            }),
    {
        let r = AppState {
            vault_path: String::from_str(vault_path),
            vault: None,
            sessions: Vec::new(),
            unlock_timeout,
        };
        assert(r.sessions.deep_view() =~= Seq::empty());
        r
    }

    /// The directory of the vault.
    pub fn vault_path(&self) -> (r: &str)
        ensures
            r@ == self.deep_view().vault_path,
    {
        self.vault_path.as_str()
    }

    /// The unlock timeout in seconds.
    pub fn unlock_timeout(&self) -> (r: u64)
        ensures
            r == self.deep_view().unlock_timeout,
    {
        self.unlock_timeout
    }

    /// Whether there is any session.
    pub fn has_sessions(&self) -> (r: bool)
        ensures
            r == (self.deep_view().sessions.len() > 0),
    {
        self.sessions.len() > 0
    }

    /// Whether the vault is out of memory.
    pub fn is_locked(&self) -> (r: bool)
        ensures
            r == (self.deep_view().vault is None),
    {
        self.vault.is_none()
    }

    /// A copy of the vault, if it is in memory.
    pub fn get_vault(&self) -> (r: Option<Vault>)
        ensures
            r.deep_view() == self.deep_view().vault,
    {
        match &self.vault {
            Some(vault) => Some(vault.duplicate()),
            None => None,
        }
    }

    /// Installs the decrypted vault and opens a session for `password`, at
    /// `now` and under the token `token`. A session that had the same token
    /// is replaced.
    pub fn unlock_at(&mut self, vault: Vault, password: String, now: Timestamp, token: String) -> (r:
        Session)
        requires
            old(self).wf(),
            now.secs + old(self).deep_view().unlock_timeout <= i64::MAX,
        ensures
            final(self).wf(),
            r.deep_view() == fresh_session(
                token@,
                password@,
                now,
                old(self).deep_view().unlock_timeout,
            ),
            final(self).deep_view() == unlocked(
                old(self).deep_view(),
                vault.deep_view(),
                r.deep_view(),
                now,
            ),
            none_expired(final(self).deep_view().sessions, now),
            has_session(final(self).deep_view().sessions, token@),
    {
        let session = Session::new_at(token, password, now, self.unlock_timeout);
        let copy = session.duplicate();
        let ghost before = self.sessions.deep_view();
        sweep(&mut self.sessions, now);
        let ghost live = self.sessions.deep_view();
        drop_token(&mut self.sessions, session.id.as_str());
        let ghost rest = self.sessions.deep_view();
        self.sessions.push(session);
        self.vault = Some(vault);
        proof {
            let expired = |s: SessionView| !s.expired_at(now);
            let other = |s: SessionView| s.id != session.id@;
            lemma_filtered_sessions(before, expired);
            lemma_filtered_sessions(live, other);
            let after = self.sessions.deep_view();
            assert(after =~= rest.push(session.deep_view()));
            assert(after[after.len() - 1].id == session.id@);
            assert forall|i: int, j: int| 0 <= i < j < after.len() implies #[trigger] after[i].id
                != #[trigger] after[j].id by {
                if j < rest.len() {
                    assert(after[i] == rest[i] && after[j] == rest[j]);
                } else {
                    assert(after[i] == rest[i]);
                    assert(other(rest[i]));
                }
            }
            assert forall|i: int| 0 <= i < after.len() implies !(#[trigger] after[i]).expired_at(
                now,
            ) by {
                if i < rest.len() {
                    assert(after[i] == rest[i]);
                    assert(live.contains(rest[i]));
                    let a = choose|a: int| 0 <= a < live.len() && live[a] == rest[i];
                    assert(expired(live[a]));
                }
            }
        }
        copy
    }

    /// Installs the decrypted vault and opens a session for `password`,
    /// now and under a fresh random token.
    pub fn unlock(&mut self, vault: Vault, password: String) -> (r: Session)
        requires
            old(self).wf(),
        ensures
            final(self).wf(),
            r.deep_view() == fresh_session(
                r.id@,
                password@,
                r.created_at,
                old(self).deep_view().unlock_timeout,
            ),
            final(self).deep_view() == unlocked(
                old(self).deep_view(),
                vault.deep_view(),
                r.deep_view(),
                r.created_at,
            ),
            has_session(final(self).deep_view().sessions, r.id@),
            r.created_at.is_plain(),
            r.id@.len() == 36,
    {
        let now = Timestamp::now();
        self.unlock_at(vault, password, now, new_uuid())
    }

    /// Locks at `now`. With a token, just that session ends; without, all
    /// sessions end and the vault leaves memory.
    pub fn lock_at(&mut self, token: Option<&str>, now: Timestamp)
        requires
            old(self).wf(),
        ensures
            final(self).wf(),
            final(self).deep_view() == locked(
                old(self).deep_view(),
                match token {
                    Some(t) => Some(t@),
                    None => None,
                },
                now,
            ),
            none_expired(final(self).deep_view().sessions, now),
            token matches Some(t) ==> !has_session(final(self).deep_view().sessions, t@),
    {
        match token {
            Some(token) => {
                let ghost before = self.sessions.deep_view();
                sweep(&mut self.sessions, now);
                if self.sessions.len() == 0 {
                    self.vault = None;
                }
                let ghost live = self.sessions.deep_view();
                drop_token(&mut self.sessions, token);
                proof {
                    let expired = |s: SessionView| !s.expired_at(now);
                    let other = |s: SessionView| s.id != token@;
                    lemma_filtered_sessions(before, expired);
                    lemma_filtered_sessions(live, other);
                    lemma_filtered_has(live, other, token@);
                    let after = self.sessions.deep_view();
                    assert forall|i: int| 0 <= i < after.len() implies !(
                    #[trigger] after[i]).expired_at(now) by {
                        assert(live.contains(after[i]));
                        let a = choose|a: int| 0 <= a < live.len() && live[a] == after[i];
                        assert(expired(live[a]));
                    }
                }
            },
            None => {
                self.sessions = Vec::new();
                self.vault = None;
                assert(self.sessions.deep_view() =~= Seq::empty());
            },
        }
    }

    /// Locks now.
    pub fn lock(&mut self, token: Option<&str>)
        requires
            old(self).wf(),
        ensures
            final(self).wf(),
            exists|now: Timestamp|
                now.is_plain() && final(self).deep_view() == locked(
                    old(self).deep_view(),
                    match token {
                        Some(t) => Some(t@),
                        None => None,
                    },
                    now,
                ),
            token matches Some(t) ==> !has_session(final(self).deep_view().sessions, t@),
    {
        let now = Timestamp::now();
        self.lock_at(token, now);
        assert(now.is_plain() && final(self).deep_view() == locked(
            old(self).deep_view(),
            match token {
                Some(t) => Some(t@),
                None => None,
            },
            now,
        ));
    }

    /// Evicts the sessions that have expired at `now`; the vault leaves
    /// memory with the last of them.
    pub fn cleanup_expired_sessions_at(&mut self, now: Timestamp)
        requires
            old(self).wf(),
        ensures
            final(self).wf(),
            final(self).deep_view() == swept(old(self).deep_view(), now),
            none_expired(final(self).deep_view().sessions, now),
    {
        let ghost before = self.sessions.deep_view();
        sweep(&mut self.sessions, now);
        if self.sessions.len() == 0 {
            self.vault = None;
        }
        proof {
            lemma_filtered_sessions(before, |s: SessionView| !s.expired_at(now));
        }
    }

    /// Evicts the sessions that have expired by now.
    pub fn cleanup_expired_sessions(&mut self)
        requires
            old(self).wf(),
        ensures
            final(self).wf(),
            exists|now: Timestamp|
                now.is_plain() && final(self).deep_view() == swept(old(self).deep_view(), now),
    {
        let now = Timestamp::now();
        self.cleanup_expired_sessions_at(now);
        assert(now.is_plain() && final(self).deep_view() == swept(old(self).deep_view(), now));
    }

    /// Looks a session up at `now`.
    ///
    /// Expired sessions are evicted first. A session that is still there is
    /// given a full timeout from `now` and returned; an unknown or expired
    /// token gives `None`.
    pub fn get_session_at(&mut self, token: &str, now: Timestamp) -> (r: Option<Session>)
        requires
            old(self).wf(),
            now.secs + old(self).deep_view().unlock_timeout <= i64::MAX,
        ensures
            final(self).wf(),
            final(self).deep_view() == accessed(old(self).deep_view(), token@, now),
            r.deep_view() == session_for(old(self).deep_view(), token@, now),
            none_expired(final(self).deep_view().sessions, now),
            r is Some <==> has_session(final(self).deep_view().sessions, token@),
    {
        let ghost before = self.sessions.deep_view();
        sweep(&mut self.sessions, now);
        if self.sessions.len() == 0 {
            self.vault = None;
        }
        let ghost live = self.sessions.deep_view();
        proof {
            lemma_filtered_sessions(before, |s: SessionView| !s.expired_at(now));
        }
        match find_session(&self.sessions, token) {
            Some(i) => {
                proof {
                    let p = session_place(live, token@);
                    assert(live[i as int].id == token@);
                    assert(has_session(live, token@));
                    if p < i {
                        assert(live[p].id != live[i as int].id);
                    }
                    if i < p {
                        assert(live[i as int].id != live[p].id);
                    }
                }
                let mut session = self.sessions.remove(i);
                session.refresh_at(now, self.unlock_timeout);
                let copy = session.duplicate();
                self.sessions.insert(i, session);
                proof {
                    let after = self.sessions.deep_view();
                    let refreshed = live[i as int].refreshed(now, self.unlock_timeout);
                    assert(after =~= live.update(i as int, refreshed));
                    assert forall|a: int, b: int| 0 <= a < b < after.len() implies #[trigger] after[a].id
                        != #[trigger] after[b].id by {
                        assert(after[a].id == live[a].id && after[b].id == live[b].id);
                    }
                    assert forall|k: int| 0 <= k < after.len() implies !(
                    #[trigger] after[k]).expired_at(now) by {
                        if k != i {
                            assert(after[k] == live[k]);
                        }
                    }
                    assert(after[i as int].id == token@);
                }
                Some(copy)
            },
            None => None,
        }
    }

    /// Looks a session up now.
    pub fn get_session(&mut self, token: &str) -> (r: Option<Session>)
        requires
            old(self).wf(),
        ensures
            final(self).wf(),
            exists|now: Timestamp|
                now.is_plain() && final(self).deep_view() == accessed(
                    old(self).deep_view(),
                    token@,
                    now,
                ) && r.deep_view() == session_for(old(self).deep_view(), token@, now),
            r is Some <==> has_session(final(self).deep_view().sessions, token@),
    {
        let now = Timestamp::now();
        let r = self.get_session_at(token, now);
        assert(now.is_plain() && final(self).deep_view() == accessed(
            old(self).deep_view(),
            token@,
            now,
        ) && r.deep_view() == session_for(old(self).deep_view(), token@, now));
        r
    }

    /// Changes the vault at `now`, on behalf of the session `token`: the
    /// single write pipeline.
    ///
    /// The session must be good (`SessionExpired` otherwise), the vault in
    /// memory (`VaultLocked`), and the mutation must apply (`NotFound`). A
    /// refusal leaves the vault as it was. On success the caller gets the
    /// session, whose master password it is to re-encrypt the vault with
    /// before it persists it.
    pub fn update_vault_at(&mut self, token: &str, mutation: VaultMutation, now: Timestamp) -> (r:
        Result<Session, ApiError>)
        requires
            old(self).wf(),
            now.secs + old(self).deep_view().unlock_timeout <= i64::MAX,
        ensures
            final(self).wf(),
            final(self).deep_view() == updated(
                old(self).deep_view(),
                token@,
                mutation.deep_view(),
                now,
            ),
            is_update_answer(old(self).deep_view(), token@, mutation.deep_view(), now, r),
            keeps_vault_wf(old(self).deep_view(), final(self).deep_view()),
            none_expired(final(self).deep_view().sessions, now),
    {
        proof {
            lemma_update_keeps_vault_wf(old(self).deep_view(), token@, mutation.deep_view(), now);
        }
        let session = match self.get_session_at(token, now) {
            Some(session) => session,
            None => {
                return Err(ApiError::SessionExpired);
            },
        };
        let mut vault = match self.vault.take() {
            Some(vault) => vault,
            None => {
                return Err(ApiError::VaultLocked);
            },
        };
        let outcome = mutation.apply(&mut vault, now);
        self.vault = Some(vault);
        match outcome {
            Ok(_) => Ok(session),
            Err(e) => Err(e),
        }
    }

    /// Changes the vault now, on behalf of the session `token`: what
    /// `update_vault_at` does at the time the clock gives.
    pub fn update_vault(&mut self, token: &str, mutation: VaultMutation) -> (r: Result<
        Session,
        ApiError,
    >)
        requires
            old(self).wf(),
        ensures
            final(self).wf(),
            exists|now: Timestamp|
                now.is_plain() && final(self).deep_view() == updated(
                    old(self).deep_view(),
                    token@,
                    mutation.deep_view(),
                    now,
                ) && is_update_answer(old(self).deep_view(), token@, mutation.deep_view(), now, r),
            keeps_vault_wf(old(self).deep_view(), final(self).deep_view()),
    {
        let now = Timestamp::now();
        let r = self.update_vault_at(token, mutation, now);
        assert(now.is_plain() && final(self).deep_view() == updated(
            old(self).deep_view(),
            token@,
            mutation.deep_view(),
            now,
        ) && is_update_answer(old(self).deep_view(), token@, mutation.deep_view(), now, r));
        r
    }
}

// ---------------------------------------------------------------------------
// Laws of the sliding expiry
// ---------------------------------------------------------------------------

/// Whether the session with the token `token` was last given its timeout at
/// `at`: it is there, and it expires `timeout` seconds after `at`.
pub open spec fn last_accessed_at(s: AppStateView, token: Seq<char>, at: Timestamp) -> bool {
    has_session(s.sessions, token) && s.sessions[session_place(s.sessions, token)].expires_at
        == at.plus(s.unlock_timeout)
}

/// The state after accesses with `token` at each of `times`, in order.
pub open spec fn after_accesses(s: AppStateView, token: Seq<char>, times: Seq<Timestamp>) -> AppStateView
    decreases times.len(),
{
    if times.len() == 0 {
        s
    } else {
        accessed(after_accesses(s, token, times.drop_last()), token, times.last())
    }
}

/// Whether each access comes before the timeout of the one before it has
/// run out, the first one counted from `start`; and whether the times are
/// such that a timeout can be added to them.
pub open spec fn each_within_timeout(start: Timestamp, times: Seq<Timestamp>, timeout: u64) -> bool {
    &&& start.secs + timeout <= i64::MAX
    &&& forall|i: int| 0 <= i < times.len() ==> (#[trigger] times[i]).secs + timeout <= i64::MAX
    &&& forall|i: int|
        0 <= i < times.len() ==> !(#[trigger] times[i]).later_than(
            (if i == 0 {
                start
            } else {
                times[i - 1]
            }).plus(timeout),
        )
}

/// An access before the expiry keeps the session, gives it a full timeout
/// from the access, and keeps the state's invariant.
pub proof fn lemma_access_in_time(s: AppStateView, token: Seq<char>, now: Timestamp)
    requires
        state_wf(s),
        has_session(s.sessions, token),
        !s.sessions[session_place(s.sessions, token)].expired_at(now),
    ensures
        state_wf(accessed(s, token, now)),
        session_for(s, token, now) is Some,
        last_accessed_at(accessed(s, token, now), token, now),
        accessed(s, token, now).unlock_timeout == s.unlock_timeout,
{
    let pred = |x: SessionView| !x.expired_at(now);
    let live = live_sessions(s.sessions, now);
    lemma_filtered_sessions(s.sessions, pred);
    lemma_filtered_has(s.sessions, pred, token);
    let p = session_place(s.sessions, token);
    assert(s.sessions[p].id == token && pred(s.sessions[p]));
    assert(has_session(live, token));
    let i = session_place(live, token);
    let after = accessed(s, token, now).sessions;
    assert(after == live.update(i, live[i].refreshed(now, s.unlock_timeout)));
    assert(after[i].id == token);
    assert forall|a: int, b: int| 0 <= a < b < after.len() implies #[trigger] after[a].id
        != #[trigger] after[b].id by {
        assert(after[a].id == live[a].id && after[b].id == live[b].id);
    }
    let q = session_place(after, token);
    if q < i {
        assert(after[q].id != after[i].id);
    }
    if i < q {
        assert(after[i].id != after[q].id);
    }
}

/// An access after the expiry finds no session, and the expired session is
/// gone from the state.
pub proof fn lemma_access_too_late(s: AppStateView, token: Seq<char>, now: Timestamp)
    requires
        state_wf(s),
        has_session(s.sessions, token) ==> s.sessions[session_place(s.sessions, token)].expired_at(
            now,
        ),
    ensures
        session_for(s, token, now) is None,
        !has_session(accessed(s, token, now).sessions, token),
        none_expired(accessed(s, token, now).sessions, now),
{
    let pred = |x: SessionView| !x.expired_at(now);
    let live = live_sessions(s.sessions, now);
    lemma_filtered_sessions(s.sessions, pred);
    lemma_filtered_has(s.sessions, pred, token);
    if has_session(live, token) {
        let a = choose|a: int|
            0 <= a < s.sessions.len() && #[trigger] s.sessions[a].id == token && pred(
                s.sessions[a],
            );
        let p = session_place(s.sessions, token);
        assert(has_session(s.sessions, token));
        if a < p {
            assert(s.sessions[a].id != s.sessions[p].id);
        }
        if p < a {
            assert(s.sessions[p].id != s.sessions[a].id);
        }
        assert(false);
    }
}

/// Sliding expiry: a session that is accessed again and again, each time
/// before the timeout of the access before has run out, is still good at
/// the last access, however long ago it was opened.
pub proof fn lemma_sliding_expiry(
    s: AppStateView,
    token: Seq<char>,
    start: Timestamp,
    times: Seq<Timestamp>,
)
    requires
        state_wf(s),
        last_accessed_at(s, token, start),
        each_within_timeout(start, times, s.unlock_timeout),
    ensures
        state_wf(after_accesses(s, token, times)),
        after_accesses(s, token, times).unlock_timeout == s.unlock_timeout,
        last_accessed_at(
            after_accesses(s, token, times),
            token,
            if times.len() == 0 {
                start
            } else {
                times.last()
            },
        ),
        times.len() > 0 ==> session_for(
            after_accesses(s, token, times.drop_last()),
            token,
            times.last(),
        ) is Some,
    decreases times.len(),
{
    if times.len() > 0 {
        let front = times.drop_last();
        assert(each_within_timeout(start, front, s.unlock_timeout)) by {
            assert forall|i: int| 0 <= i < front.len() implies (#[trigger] front[i]).secs
                + s.unlock_timeout <= i64::MAX && !front[i].later_than(
                (if i == 0 {
                    start
                } else {
                    front[i - 1]
                }).plus(s.unlock_timeout),
            ) by {
                assert(front[i] == times[i]);
                if i > 0 {
                    assert(front[i - 1] == times[i - 1]);
                }
            }
        }
        lemma_sliding_expiry(s, token, start, front);
        let mid = after_accesses(s, token, front);
        let last = times.len() - 1;
        let previous = if last == 0 {
            start
        } else {
            times[last - 1]
        };
        assert(!times[last].later_than(previous.plus(s.unlock_timeout)));
        if front.len() > 0 {
            assert(front.last() == times[last - 1]);
        }
        lemma_access_in_time(mid, token, times.last());
    }
}

// ---------------------------------------------------------------------------
// Updates one after the other
// ---------------------------------------------------------------------------

/// One update of a series: the mutation, and when it is made.
pub ghost struct Update {
    pub mutation: VaultMutationView,
    pub at: Timestamp,
}

/// The times of a series of updates.
pub open spec fn update_times(updates: Seq<Update>) -> Seq<Timestamp> {
    updates.map_values(|u: Update| u.at)
}

/// The state after a series of updates with `token`, in the order in which
/// they get hold of the state.
pub open spec fn after_updates(s: AppStateView, token: Seq<char>, updates: Seq<Update>) -> AppStateView
    decreases updates.len(),
{
    if updates.len() == 0 {
        s
    } else {
        updated(
            after_updates(s, token, updates.drop_last()),
            token,
            updates.last().mutation,
            updates.last().at,
        )
    }
}

/// The vault after the mutations of a series, applied one after the other.
pub open spec fn mutated_in_order(vault: VaultView, updates: Seq<Update>) -> VaultView
    decreases updates.len(),
{
    if updates.len() == 0 {
        vault
    } else {
        mutated(
            mutated_in_order(vault, updates.drop_last()),
            updates.last().mutation,
            updates.last().at,
        )
    }
}

/// Whether each mutation of a series applies when its turn comes.
pub open spec fn each_applies(vault: VaultView, updates: Seq<Update>) -> bool
    decreases updates.len(),
{
    updates.len() == 0 || (each_applies(vault, updates.drop_last()) && applies(
        mutated_in_order(vault, updates.drop_last()),
        updates.last().mutation,
    ))
}

/// Serialised writes: updates that get hold of the state one after the
/// other, under a session that stays good, leave the vault that applying
/// their mutations in that order gives. None is lost and none is applied
/// to anything but the result of the one before.
pub proof fn lemma_updates_apply_in_order(
    s: AppStateView,
    token: Seq<char>,
    start: Timestamp,
    updates: Seq<Update>,
)
    requires
        state_wf(s),
        last_accessed_at(s, token, start),
        s.vault is Some,
        each_within_timeout(start, update_times(updates), s.unlock_timeout),
        each_applies(s.vault->0, updates),
    ensures
        after_updates(s, token, updates).vault == Some(mutated_in_order(s.vault->0, updates)),
        state_wf(after_updates(s, token, updates)),
        after_updates(s, token, updates).unlock_timeout == s.unlock_timeout,
        last_accessed_at(
            after_updates(s, token, updates),
            token,
            if updates.len() == 0 {
                start
            } else {
                updates.last().at
            },
        ),
    decreases updates.len(),
{
    if updates.len() > 0 {
        let front = updates.drop_last();
        let times = update_times(updates);
        assert(update_times(front) =~= times.drop_last());
        assert(each_within_timeout(start, update_times(front), s.unlock_timeout)) by {
            let ft = update_times(front);
            assert forall|i: int| 0 <= i < ft.len() implies (#[trigger] ft[i]).secs
                + s.unlock_timeout <= i64::MAX && !ft[i].later_than(
                (if i == 0 {
                    start
                } else {
                    ft[i - 1]
                }).plus(s.unlock_timeout),
            ) by {
                assert(ft[i] == times[i]);
                if i > 0 {
                    assert(ft[i - 1] == times[i - 1]);
                }
            }
        }
        lemma_updates_apply_in_order(s, token, start, front);
        let mid = after_updates(s, token, front);
        let last = updates.len() - 1;
        let now = updates.last().at;
        assert(times[last] == now);
        let previous = if last == 0 {
            start
        } else {
            times[last - 1]
        };
        assert(!times[last].later_than(previous.plus(s.unlock_timeout)));
        if front.len() > 0 {
            assert(front.last().at == times[last - 1]);
        }
        lemma_access_in_time(mid, token, now);
        let live = live_sessions(mid.sessions, now);
        let pred = |x: SessionView| !x.expired_at(now);
        lemma_filtered_has(mid.sessions, pred, token);
        let p = session_place(mid.sessions, token);
        assert(mid.sessions[p].id == token && pred(mid.sessions[p]));
        assert(has_session(live, token));
        assert(live.len() > 0);
        let t = accessed(mid, token, now);
        assert(t.vault == mid.vault);
        let end = after_updates(s, token, updates);
        assert(end.sessions == t.sessions);
    }
}

} // verus!
