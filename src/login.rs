//! The decisions of the login endpoints: the provider's callback, the
//! redirect that answers it, the current session and logout.
//!
//! The callback is handled in two steps around the provider calls, which the
//! HTTP layer makes without holding the state: `begin_callback` checks the
//! query and redeems the CSRF state; after the code exchange and the userinfo
//! request, `finish_callback` turns their outcome into a session.
use vstd::prelude::*;
use crate::clock::now_millis;
use crate::error::{is_auth_error, ApiError};
use crate::identity::identity_of;
use crate::json::Json;
use crate::oauth::{cookie_matches, effective_ttl, OAuthState, OAuthStateView, SessionCookie};
use crate::pending::take_outcome;
use crate::sessions::{expiry_after, new_session_id, AuthSession};

verus! {

/// The query of the provider's redirect back to this server.
pub struct CallbackQuery {
    pub code: Option<String>,
    pub state: Option<String>,
    pub error: Option<String>,
    pub error_description: Option<String>,
}

/// What the code exchange needs: the code and the attempt's PKCE verifier
/// and nonce.
#[derive(Debug, PartialEq)]
pub struct CodeExchange {
    pub code: String,
    pub verifier: String,
    pub nonce: String,
}

/// How the provider calls of a callback went.
#[derive(Debug, PartialEq)]
pub enum ProviderOutcome {
    /// The provider refused the code, or could not be reached for it.
    ExchangeRejected(String),
    /// The userinfo request failed.
    UserinfoFailed(String),
    /// The userinfo response.
    Profile(Json),
}

/// A temporary redirect that also sets a cookie.
#[derive(Debug, PartialEq)]
pub struct AuthRedirect {
    pub location: String,
    pub cookie: SessionCookie,
}

/// The text of a provider-reported error: the error code, then its
/// description or a default one.
pub open spec fn provider_error_text(error: Seq<char>, description: Option<String>) -> Seq<char> {
    error + ": "@ + match description {
        Some(d) => d@,
        None => "OAuth authorization failed"@,
    }
}

/// `before` with its sessions replaced by `sessions`.
pub open spec fn with_sessions(before: OAuthStateView, sessions: Map<Seq<char>, AuthSession>) -> OAuthStateView {
    OAuthStateView { sessions, ..before }
}

/// Checks the callback query and redeems its CSRF state at `now`. A
/// provider-reported error, a missing code or state, and an unknown or stale
/// state are `Auth` errors; only the last redeems (removes) anything.
pub fn begin_callback_at(oauth: &mut OAuthState, query: CallbackQuery, now: i64) -> (r: Result<
    CodeExchange,
    ApiError,
>)
    requires
        old(oauth).wf(),
    ensures
        final(oauth).wf(),
        match query.error {
            Some(e) => final(oauth)@ == old(oauth)@ && is_auth_error(
                r,
                provider_error_text(e@, query.error_description),
            ),
            None => match query.code {
                None => final(oauth)@ == old(oauth)@ && is_auth_error(
                    r,
                    "Missing authorization code"@,
                ),
                Some(code) => match query.state {
                    None => final(oauth)@ == old(oauth)@ && is_auth_error(
                        r,
                        "Missing state parameter"@,
                    ),
                    Some(state) => {
                        &&& final(oauth)@ == (OAuthStateView {
                            pending: old(oauth)@.pending.remove(state@),
                            ..old(oauth)@
                        })
                        &&& match take_outcome(old(oauth)@.pending, state@, now) {
                            Some(p) => r == Ok::<CodeExchange, ApiError>(
                                CodeExchange { code, verifier: p.verifier, nonce: p.nonce },
                            ),
                            None => is_auth_error(r, "Unknown or expired state parameter"@),
                        }
                    },
                },
            },
        },
{
    let CallbackQuery { code, state, error, error_description } = query;
    if let Some(e) = error {
        let description = match error_description {
            Some(d) => d,
            None => String::from_str("OAuth authorization failed"),
        };
        let text = e.concat(": ").concat(description.as_str());
        return Err(ApiError::Auth(text));
    }
    let code = match code {
        Some(c) => c,
        None => {
            return Err(ApiError::Auth(String::from_str("Missing authorization code")));
        },
    };
    let state = match state {
        Some(s) => s,
        None => {
            return Err(ApiError::Auth(String::from_str("Missing state parameter")));
        },
    };
    match oauth.take_pending_at(&state, now) {
        Some((verifier, nonce)) => Ok(CodeExchange { code, verifier, nonce }),
        None => Err(ApiError::Auth(String::from_str("Unknown or expired state parameter"))),
    }
}

/// `begin_callback_at`, at the current time.
pub fn begin_callback(oauth: &mut OAuthState, query: CallbackQuery) -> (r: Result<
    CodeExchange,
    ApiError,
>)
    requires
        old(oauth).wf(),
    ensures
        final(oauth).wf(),
        match query.error {
            Some(e) => final(oauth)@ == old(oauth)@ && is_auth_error(
                r,
                provider_error_text(e@, query.error_description),
            ),
            None => match query.code {
                None => final(oauth)@ == old(oauth)@ && is_auth_error(
                    r,
                    "Missing authorization code"@,
                ),
                Some(code) => match query.state {
                    None => final(oauth)@ == old(oauth)@ && is_auth_error(
                        r,
                        "Missing state parameter"@,
                    ),
                    Some(state) => {
                        &&& final(oauth)@ == (OAuthStateView {
                            pending: old(oauth)@.pending.remove(state@),
                            ..old(oauth)@
                        })
                        &&& exists|t: i64|
                            match #[trigger] take_outcome(old(oauth)@.pending, state@, t) {
                                Some(p) => r == Ok::<CodeExchange, ApiError>(
                                    CodeExchange { code, verifier: p.verifier, nonce: p.nonce },
                                ),
                                None => is_auth_error(r, "Unknown or expired state parameter"@),
                            }
                    },
                },
            },
        },
{
    let now = now_millis();
    begin_callback_at(oauth, query, now)
}

/// Turns the provider's answer into a session stored under `session_id` at
/// `now`, living for the session lifetime in force. A refused exchange is an
/// `Auth` error, a failed userinfo request an `Http` error, and a profile
/// without an identity an `Auth` error; none of them changes the state.
pub fn finish_callback_at(
    oauth: &mut OAuthState,
    outcome: ProviderOutcome,
    session_id: String,
    now: i64,
) -> (r: Result<String, ApiError>)
    requires
        old(oauth).wf(),
    ensures
        final(oauth).wf(),
        match outcome {
            ProviderOutcome::ExchangeRejected(e) => final(oauth)@ == old(oauth)@ && r == Err::<
                String,
                ApiError,
            >(ApiError::Auth(e)),
            ProviderOutcome::UserinfoFailed(e) => final(oauth)@ == old(oauth)@ && r == Err::<
                String,
                ApiError,
            >(ApiError::Http(e)),
            ProviderOutcome::Profile(p) => match identity_of(p) {
                None => final(oauth)@ == old(oauth)@ && is_auth_error(
                    r,
                    "Unable to determine user identity from profile"@,
                ),
                Some(who) => {
                    &&& r == Ok::<String, ApiError>(session_id)
                    &&& final(oauth)@ == with_sessions(
                        old(oauth)@,
                        old(oauth)@.sessions.insert(
                            session_id@,
                            final(oauth)@.sessions[session_id@],
                        ),
                    )
                    &&& final(oauth)@.sessions[session_id@].user@ == who
                    &&& final(oauth)@.sessions[session_id@].expires_at == expiry_after(
                        now,
                        Some(effective_ttl(old(oauth)@.session_ttl_secs) as u64),
                    )
                    &&& final(oauth)@.sessions[session_id@].raw_profile == p
                },
            },
        },
{
    match outcome {
        ProviderOutcome::ExchangeRejected(e) => Err(ApiError::Auth(e)),
        ProviderOutcome::UserinfoFailed(e) => Err(ApiError::Http(e)),
        ProviderOutcome::Profile(profile) => match OAuthState::extract_identity(&profile) {
            None => Err(
                ApiError::Auth(String::from_str("Unable to determine user identity from profile")),
            ),
            Some(user) => {
                let ttl = oauth.session_ttl_secs() as u64;
                let key = session_id.clone();
                oauth.insert_session_at(session_id, user, Some(ttl), profile, now);
                Ok(key)
            },
        },
    }
}

/// `finish_callback_at` under a fresh random session id, at the current time.
pub fn finish_callback(oauth: &mut OAuthState, outcome: ProviderOutcome) -> (r: Result<
    String,
    ApiError,
>)
    requires
        old(oauth).wf(),
    ensures
        final(oauth).wf(),
        match outcome {
            ProviderOutcome::ExchangeRejected(e) => final(oauth)@ == old(oauth)@ && r == Err::<
                String,
                ApiError,
            >(ApiError::Auth(e)),
            ProviderOutcome::UserinfoFailed(e) => final(oauth)@ == old(oauth)@ && r == Err::<
                String,
                ApiError,
            >(ApiError::Http(e)),
            ProviderOutcome::Profile(p) => match identity_of(p) {
                None => final(oauth)@ == old(oauth)@ && is_auth_error(
                    r,
                    "Unable to determine user identity from profile"@,
                ),
                Some(who) => {
                    &&& r is Ok
                    &&& final(oauth)@ == with_sessions(
                        old(oauth)@,
                        old(oauth)@.sessions.insert(
                            r->Ok_0@,
                            final(oauth)@.sessions[r->Ok_0@],
                        ),
                    )
                    &&& final(oauth)@.sessions[r->Ok_0@].user@ == who
                    &&& exists|t: i64|
                        final(oauth)@.sessions[r->Ok_0@].expires_at == #[trigger] expiry_after(
                            t,
                            Some(effective_ttl(old(oauth)@.session_ttl_secs) as u64),
                        )
                    &&& final(oauth)@.sessions[r->Ok_0@].raw_profile == p
                },
            },
        },
{
    let now = now_millis();
    let id = new_session_id();
    finish_callback_at(oauth, outcome, id, now)
}

/// The answer to a callback: on success a redirect to the success page that
/// sets the session cookie; on failure a redirect to the failure page that
/// clears it, or the error itself where no failure page is configured.
pub fn auth_redirect(oauth: &OAuthState, result: Result<String, ApiError>) -> (r: Result<
    AuthRedirect,
    ApiError,
>)
    ensures
        match result {
            Ok(id) => {
                &&& r is Ok
                &&& r->Ok_0.location@ == oauth@.success_redirect
                &&& cookie_matches(
                    oauth@,
                    r->Ok_0.cookie,
                    id@,
                    effective_ttl(oauth@.session_ttl_secs),
                )
            },
            Err(e) => match oauth@.failure_redirect {
                Some(target) => {
                    &&& r is Ok
                    &&& r->Ok_0.location@ == target
                    &&& cookie_matches(oauth@, r->Ok_0.cookie, Seq::<char>::empty(), 0)
                },
                None => r == Err::<AuthRedirect, ApiError>(e),
            },
        },
{
    match result {
        Ok(id) => {
            let cookie = oauth.build_cookie(id.as_str());
            Ok(AuthRedirect { location: String::from_str(oauth.success_redirect()), cookie })
        },
        Err(e) => match oauth.failure_redirect() {
            Some(target) => {
                let cookie = oauth.build_logout_cookie();
                Ok(AuthRedirect { location: String::from_str(target), cookie })
            },
            None => Err(e),
        },
    }
}

/// The answer to a callback. Success and an error that the provider reported
/// in the query are answered as `auth_redirect` answers them; any other
/// error (a missing code or state, an unknown or stale state, a refused
/// exchange, a failed userinfo request, a profile without an identity) is
/// returned as it is.
pub fn answer_callback(
    oauth: &OAuthState,
    provider_reported: bool,
    result: Result<String, ApiError>,
) -> (r: Result<AuthRedirect, ApiError>)
    ensures
        match result {
            Ok(id) => {
                &&& r is Ok
                &&& r->Ok_0.location@ == oauth@.success_redirect
                &&& cookie_matches(
                    oauth@,
                    r->Ok_0.cookie,
                    id@,
                    effective_ttl(oauth@.session_ttl_secs),
                )
            },
            Err(e) => if provider_reported {
                match oauth@.failure_redirect {
                    Some(target) => {
                        &&& r is Ok
                        &&& r->Ok_0.location@ == target
                        &&& cookie_matches(oauth@, r->Ok_0.cookie, Seq::<char>::empty(), 0)
                    },
                    None => r == Err::<AuthRedirect, ApiError>(e),
                }
            } else {
                r == Err::<AuthRedirect, ApiError>(e)
            },
        },
{
    match result {
        Ok(id) => auth_redirect(oauth, Ok(id)),
        Err(e) => if provider_reported {
            auth_redirect(oauth, Err(e))
        } else {
            Err(e)
        },
    }
}

/// The session that the cookie's value names, expired or not; `Unauthorized`
/// without a cookie or for an unknown session.
pub fn current_session<'a>(oauth: &'a OAuthState, cookie: Option<&String>) -> (r: Result<
    &'a AuthSession,
    ApiError,
>)
    requires
        oauth.wf(),
    ensures
        match cookie {
            Some(id) => if oauth@.sessions.contains_key(id@) {
                r is Ok && *r->Ok_0 == oauth@.sessions[id@]
            } else {
                r is Err && r->Err_0 == ApiError::Unauthorized
            },
            None => r is Err && r->Err_0 == ApiError::Unauthorized,
        },
{
    match cookie {
        Some(id) => match oauth.session_snapshot(id) {
            Some(session) => Ok(session),
            None => Err(ApiError::Unauthorized),
        },
        None => Err(ApiError::Unauthorized),
    }
}

/// Ends the session that the cookie's value names, if any, and always hands
/// back the cookie that clears the session cookie. Never fails.
pub fn logout(oauth: &mut OAuthState, cookie: Option<&String>) -> (r: SessionCookie)
    requires
        old(oauth).wf(),
    ensures
        final(oauth).wf(),
        match cookie {
            Some(id) => final(oauth)@ == with_sessions(old(oauth)@, old(oauth)@.sessions.remove(id@)),
            None => final(oauth)@ == old(oauth)@,
        },
        cookie_matches(old(oauth)@, r, Seq::<char>::empty(), 0),
{
    match cookie {
        Some(id) => {
            oauth.remove_session(id);
        },
        None => {},
    }
    oauth.build_logout_cookie()
}

} // verus!
