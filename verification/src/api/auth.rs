//! The bearer-token guard in front of the endpoints.

use vstd::prelude::*;
use vstd::string::*;
use crate::api::models::Session;
use crate::api::state::{accessed, session_for, AppState, AppStateView};
use crate::clock::Timestamp;
use crate::errors::ApiError;
use crate::text::{chars_of, has_prefix, same_text, skip_chars, starts_with, string_from_chars};

verus! {

/// What a bearer token is announced with in the `Authorization` header.
pub const BEARER_PREFIX: &'static str = "Bearer ";

/// Whether requests to `path` pass without a token: unlocking, asking for
/// the status, and the health check.
pub open spec fn is_open_path(path: Seq<char>) -> bool {
    path == "/api/unlock"@ || path == "/api/status"@ || path == "/health"@
}

/// The token in an `Authorization` header: what follows `Bearer `.
pub open spec fn token_in(authorization: Option<Seq<char>>) -> Option<Seq<char>> {
    match authorization {
        Some(header) => if has_prefix(header, BEARER_PREFIX@) {
            Some(header.skip(BEARER_PREFIX@.len() as int))
        } else {
            None
        },
        None => None,
    }
}

/// Whether requests to `path` pass without a token.
pub fn is_public_path(path: &str) -> (r: bool)
    ensures
        r == is_open_path(path@),
{
    same_text(path, "/api/unlock") || same_text(path, "/api/status") || same_text(path, "/health")
}

/// The token in an `Authorization` header.
pub fn bearer_token(authorization: Option<&str>) -> (r: Option<String>)
    ensures
        r.deep_view() == token_in(header_view(authorization)),
{
    match authorization {
        Some(header) => {
            let chars = chars_of(header);
            let prefix = chars_of(BEARER_PREFIX);
            if starts_with(&chars, &prefix) {
                Some(string_from_chars(&skip_chars(&chars, prefix.len())))
            } else {
                None
            }
        },
        None => None,
    }
}

/// Whether `r` is the answer of the guard to a request for `path` that
/// carries the header `authorization`, made at `now`, that took the state
/// from `before` to `after`.
///
/// A request to an open path passes without a look at the header or the
/// sessions. Any other request must carry a bearer token (`Unauthorized`
/// otherwise) of a session that is good at `now` (`SessionExpired`
/// otherwise); the access refreshes the session, which is handed to the
/// handler.
pub open spec fn is_guard_answer(
    before: AppStateView,
    after: AppStateView,
    path: Seq<char>,
    authorization: Option<Seq<char>>,
    now: Timestamp,
    r: Result<Option<Session>, ApiError>,
) -> bool {
    if is_open_path(path) {
        (r matches Ok(None)) && after == before
    } else {
        match token_in(authorization) {
            None => (r matches Err(ApiError::Unauthorized)) && after == before,
            Some(token) => after == accessed(before, token, now) && match session_for(
                before,
                token,
                now,
            ) {
                Some(session) => (r matches Ok(Some(s)) && s.deep_view() == session),
                None => r matches Err(ApiError::SessionExpired),
            },
        }
    }
}

/// The header as the contracts see it.
pub open spec fn header_view(authorization: Option<&str>) -> Option<Seq<char>> {
    match authorization {
        Some(header) => Some(header@),
        None => None,
    }
}

/// The guard in front of the endpoints, at `now`. The answer is the one
/// that `is_guard_answer` describes.
pub fn auth_middleware_at(
    state: &mut AppState,
    path: &str,
    authorization: Option<&str>,
    now: Timestamp,
) -> (r: Result<Option<Session>, ApiError>)
    requires
        old(state).wf(),
        now.secs + old(state).deep_view().unlock_timeout <= i64::MAX,
    ensures
        final(state).wf(),
        is_guard_answer(
            old(state).deep_view(),
            final(state).deep_view(),
            path@,
            header_view(authorization),
            now,
            r,
        ),
{
    if is_public_path(path) {
        return Ok(None);
    }
    let token = match bearer_token(authorization) {
        Some(token) => token,
        None => {
            return Err(ApiError::Unauthorized);
        },
    };
    match state.get_session_at(token.as_str(), now) {
        Some(session) => Ok(Some(session)),
        None => Err(ApiError::SessionExpired),
    }
}

/// The guard in front of the endpoints, now: what `auth_middleware_at`
/// does at the time the clock gives.
pub fn auth_middleware(state: &mut AppState, path: &str, authorization: Option<&str>) -> (r: Result<
    Option<Session>,
    ApiError,
>)
    requires
        old(state).wf(),
    ensures
        final(state).wf(),
        exists|now: Timestamp|
            now.is_plain() && is_guard_answer(
                old(state).deep_view(),
                final(state).deep_view(),
                path@,
                header_view(authorization),
                now,
                r,
            ),
{
    let now = Timestamp::now();
    let r = auth_middleware_at(state, path, authorization, now);
    assert(now.is_plain() && is_guard_answer(
        old(state).deep_view(),
        final(state).deep_view(),
        path@,
        header_view(authorization),
        now,
        r,
    ));
    r
}

} // verus!
