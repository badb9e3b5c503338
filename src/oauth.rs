//! The OAuth orchestrator's state: settings, the two stores, session cookies
//! and identity extraction.
use vstd::prelude::*;
use crate::clock::now_millis;
use crate::config::{OAuthConfig, SessionConfig};
use crate::identity::{identity_of, identity_view, text_view, OAuthUser};
use crate::json::Json;
use crate::pending::{live_pending, secrets_of, take_outcome, PendingAuth, PendingStore};
use crate::text::texts;
use crate::sessions::{
    expiry_after, live_sessions, new_session_id, resolve_outcome, AuthSession, SessionStore,
};

verus! {

/// The session lifetime, in seconds, used where the configured one is not positive.
pub const DEFAULT_SESSION_TTL_SECS: i64 = 3600;

/// The session lifetime in force: the configured one when positive, else one hour.
/// It sets both the cookie's max-age and the sessions' expiry.
pub open spec fn effective_ttl(configured: i64) -> i64 {
    if configured > 0 {
        configured
    } else {
        DEFAULT_SESSION_TTL_SECS
    }
}

/// The `SameSite` attribute of a cookie.
#[derive(Debug, PartialEq, Eq)]
pub enum SameSite {
    Strict,
    Lax,
    /// `SameSite=None`: sent on cross-site requests too.
    Unrestricted,
}

/// A `Set-Cookie` instruction, attribute by attribute.
#[derive(Debug, PartialEq)]
pub struct SessionCookie {
    pub name: String,
    pub value: String,
    pub path: String,
    pub http_only: bool,
    pub same_site: SameSite,
    pub max_age_secs: i64,
    pub domain: Option<String>,
    pub secure: bool,
}

/// The orchestrator's state as values.
pub struct OAuthStateView {
    pub scopes: Seq<Seq<char>>,
    pub pending: Map<Seq<char>, PendingAuth>,
    pub sessions: Map<Seq<char>, AuthSession>,
    pub success_redirect: Seq<char>,
    pub failure_redirect: Option<Seq<char>>,
    pub cookie_name: Seq<char>,
    pub cookie_domain: Option<Seq<char>>,
    pub cookie_secure: bool,
    pub session_ttl_secs: i64,
}

/// The scopes asked for: the configured ones, or `openid` alone when none is configured.
pub open spec fn scopes_for(configured: Seq<String>) -> Seq<Seq<char>> {
    if configured.len() == 0 {
        seq!["openid"@]
    } else {
        texts(configured)
    }
}

/// `c` is this state's session cookie carrying `value` for `max_age` seconds:
/// path `/`, HTTP-only, `SameSite=Lax`, with the configured domain and
/// `Secure` flag.
pub open spec fn cookie_matches(v: OAuthStateView, c: SessionCookie, value: Seq<char>, max_age: i64) -> bool {
    &&& c.name@ == v.cookie_name
    &&& c.value@ == value
    &&& c.path@ == "/"@
    &&& c.http_only
    &&& c.same_site == SameSite::Lax
    &&& c.max_age_secs == max_age
    &&& text_view(c.domain) == v.cookie_domain
    &&& c.secure == v.cookie_secure
}

/// The settings of the login flow and the stores of pending attempts and sessions.
pub struct OAuthState {
    scopes: Vec<String>,
    pending: PendingStore,
    sessions: SessionStore,
    success_redirect: String,
    failure_redirect: Option<String>,
    cookie_name: String,
    cookie_domain: Option<String>,
    cookie_secure: bool,
    session_ttl_secs: i64,
}

impl View for OAuthState {
    type V = OAuthStateView;

    closed spec fn view(&self) -> OAuthStateView {
        OAuthStateView {
            scopes: texts(self.scopes@),
            pending: self.pending@,
            sessions: self.sessions@,
            success_redirect: self.success_redirect@,
            failure_redirect: text_view(self.failure_redirect),
            cookie_name: self.cookie_name@,
            cookie_domain: text_view(self.cookie_domain),
            cookie_secure: self.cookie_secure,
            session_ttl_secs: self.session_ttl_secs,
        }
    }
}

fn copy_text(s: &Option<String>) -> (r: Option<String>)
    ensures
        r == *s,
{
    match s {
        Some(t) => Some(t.clone()),
        None => None,
    }
}

fn copy_texts(s: &Vec<String>) -> (r: Vec<String>)
    ensures
        r@ == s@,
{
    let mut r: Vec<String> = Vec::new();
    let mut i: usize = 0;
    while i < s.len()
        invariant
            0 <= i <= s@.len(),
            r@ == s@.subrange(0, i as int),
        decreases s@.len() - i,
    {
        r.push(s[i].clone());
        i += 1;
        assert(r@ =~= s@.subrange(0, i as int));
    }
    assert(s@.subrange(0, s@.len() as int) =~= s@);
    r
}

impl OAuthState {
    /// Both stores are well formed.
    pub closed spec fn wf(&self) -> bool {
        self.pending.wf() && self.sessions.wf()
    }

    /// A state with no pending attempt and no session, set up from the
    /// provider and cookie settings.
    pub fn new(oauth: &OAuthConfig, session: &SessionConfig) -> (r: Self)
        ensures
            r.wf(),
            r@.scopes == scopes_for(oauth.scopes@),
            r@.pending == Map::<Seq<char>, PendingAuth>::empty(),
            r@.sessions == Map::<Seq<char>, AuthSession>::empty(),
            r@.success_redirect == oauth.success_redirect@,
            r@.failure_redirect == text_view(oauth.failure_redirect),
            r@.cookie_name == session.cookie_name@,
            r@.cookie_domain == text_view(session.cookie_domain),
            r@.cookie_secure == session.cookie_secure,
            r@.session_ttl_secs == session.ttl_secs,
    {
        let scopes = if oauth.scopes.len() == 0 {
            let mut only: Vec<String> = Vec::new();
            only.push(String::from_str("openid"));
            assert(texts(only@) =~= seq!["openid"@]);
            only
        } else {
            copy_texts(&oauth.scopes)
        };
        OAuthState {
            scopes,
            pending: PendingStore::new(),
            sessions: SessionStore::new(),
            success_redirect: oauth.success_redirect.clone(),
            failure_redirect: copy_text(&oauth.failure_redirect),
            cookie_name: session.cookie_name.clone(),
            cookie_domain: copy_text(&session.cookie_domain),
            cookie_secure: session.cookie_secure,
            session_ttl_secs: session.ttl_secs,
        }
    }

    /// Where a successful login is sent.
    pub fn success_redirect(&self) -> (r: &str)
        ensures
            r@ == self@.success_redirect,
    {
        self.success_redirect.as_str()
    }

    /// Where a failed login is sent, if anywhere.
    pub fn failure_redirect(&self) -> (r: Option<&str>)
        ensures
            match r {
                Some(t) => self@.failure_redirect == Some(t@),
                None => self@.failure_redirect is None,
            },
    {
        match &self.failure_redirect {
            Some(t) => Some(t.as_str()),
            None => None,
        }
    }

    /// The name of the session cookie.
    pub fn cookie_name(&self) -> (r: &str)
        ensures
            r@ == self@.cookie_name,
    {
        self.cookie_name.as_str()
    }

    /// The scopes that an authorization request asks for.
    pub fn scopes(&self) -> (r: &Vec<String>)
        ensures
            texts(r@) == self@.scopes,
    {
        &self.scopes
    }

    /// The session lifetime in force, in seconds.
    pub fn session_ttl_secs(&self) -> (r: i64)
        ensures
            r == effective_ttl(self@.session_ttl_secs),
            r > 0,
    {
        if self.session_ttl_secs > 0 {
            self.session_ttl_secs
        } else {
            DEFAULT_SESSION_TTL_SECS
        }
    }

    fn cookie_with(&self, value: String, max_age: i64) -> (r: SessionCookie)
        ensures
            cookie_matches(self@, r, value@, max_age),
    {
        SessionCookie {
            name: self.cookie_name.clone(),
            value,
            path: String::from_str("/"),
            http_only: true,
            same_site: SameSite::Lax,
            max_age_secs: max_age,
            domain: copy_text(&self.cookie_domain),
            secure: self.cookie_secure,
        }
    }

    /// The cookie that carries `session_id`, for as long as a session lives.
    pub fn build_cookie(&self, session_id: &str) -> (r: SessionCookie)
        ensures
            cookie_matches(self@, r, session_id@, effective_ttl(self@.session_ttl_secs)),
    {
        let ttl = self.session_ttl_secs();
        self.cookie_with(String::from_str(session_id), ttl)
    }

    /// The cookie that tells the browser to drop the session cookie: empty, max-age zero.
    pub fn build_logout_cookie(&self) -> (r: SessionCookie)
        ensures
            cookie_matches(self@, r, Seq::<char>::empty(), 0),
    {
        self.cookie_with(String::new(), 0)
    }

    /// Records an attempt under `state`, started at `now`.
    pub fn store_pending_at(&mut self, state: String, verifier: String, nonce: String, now: i64)
        requires
            old(self).wf(),
        ensures
            final(self).wf(),
            final(self)@ == (OAuthStateView {
                pending: old(self)@.pending.insert(
                    state@,
                    (PendingAuth { verifier, nonce, created_at: now }),
                ),
                ..old(self)@
            }),
    {
        self.pending.store_at(state, verifier, nonce, now);
    }

    /// Records an attempt under `state`, started now.
    pub fn store_pending(&mut self, state: String, verifier: String, nonce: String)
        requires
            old(self).wf(),
        ensures
            final(self).wf(),
            final(self)@ == (OAuthStateView {
                pending: old(self)@.pending.insert(state@, final(self)@.pending[state@]),
                ..old(self)@
            }),
            final(self)@.pending[state@].verifier == verifier,
            final(self)@.pending[state@].nonce == nonce,
    {
        let now = now_millis();
        self.store_pending_at(state, verifier, nonce, now);
    }

    /// Removes the attempt under `state`; hands back its verifier and nonce
    /// unless it is absent or stale at `now`.
    pub fn take_pending_at(&mut self, state: &String, now: i64) -> (r: Option<(String, String)>)
        requires
            old(self).wf(),
        ensures
            final(self).wf(),
            final(self)@ == (OAuthStateView {
                pending: old(self)@.pending.remove(state@),
                ..old(self)@
            }),
            r == secrets_of(take_outcome(old(self)@.pending, state@, now)),
    {
        self.pending.take_at(state, now)
    }

    /// Removes the attempt under `state`; hands back its verifier and nonce
    /// unless it is absent or stale now.
    pub fn take_pending(&mut self, state: &String) -> (r: Option<(String, String)>)
        requires
            old(self).wf(),
        ensures
            final(self).wf(),
            final(self)@ == (OAuthStateView {
                pending: old(self)@.pending.remove(state@),
                ..old(self)@
            }),
            exists|t: i64| r == secrets_of(#[trigger] take_outcome(old(self)@.pending, state@, t)),
    {
        let now = now_millis();
        self.take_pending_at(state, now)
    }

    /// Stores a session for `user` under `session_id`, created at `now` and
    /// expiring `expires_in` seconds later (never, for `None`).
    pub fn insert_session_at(
        &mut self,
        session_id: String,
        user: OAuthUser,
        expires_in: Option<u64>,
        raw_profile: Json,
        now: i64,
    )
        requires
            old(self).wf(),
        ensures
            final(self).wf(),
            final(self)@ == (OAuthStateView {
                sessions: old(self)@.sessions.insert(
                    session_id@,
                    (AuthSession { user, expires_at: expiry_after(now, expires_in), raw_profile }),
                ),
                ..old(self)@
            }),
    {
        self.sessions.insert_at(session_id, user, expires_in, raw_profile, now);
    }

    /// Stores a new session for `user` under a fresh random id, expiring
    /// `expires_in` seconds from now (never, for `None`); returns the id.
    pub fn create_session(&mut self, user: OAuthUser, expires_in: Option<u64>, raw_profile: Json) -> (r:
        String)
        requires
            old(self).wf(),
        ensures
            final(self).wf(),
            exists|t: i64|
                final(self)@ == (OAuthStateView {
                    sessions: old(self)@.sessions.insert(
                        r@,
                        (AuthSession {
                            user,
                            expires_at: #[trigger] expiry_after(t, expires_in),
                            raw_profile,
                        }),
                    ),
                    ..old(self)@
                }),
    {
        let now = now_millis();
        let id = new_session_id();
        let key = id.clone();
        self.insert_session_at(id, user, expires_in, raw_profile, now);
        key
    }

    /// Deletes the session under `session_id`; an unknown id changes nothing.
    pub fn remove_session(&mut self, session_id: &String)
        requires
            old(self).wf(),
        ensures
            final(self).wf(),
            final(self)@ == (OAuthStateView {
                sessions: old(self)@.sessions.remove(session_id@),
                ..old(self)@
            }),
    {
        self.sessions.remove(session_id);
    }

    /// The session under `session_id`, whether or not it has expired.
    pub fn session_snapshot(&self, session_id: &String) -> (r: Option<&AuthSession>)
        requires
            self.wf(),
        ensures
            match r {
                Some(s) => self@.sessions.contains_key(session_id@) && *s
                    == self@.sessions[session_id@],
                None => !self@.sessions.contains_key(session_id@),
            },
    {
        self.sessions.snapshot(session_id)
    }

    /// The user id that the session cookie's value grants at `now`: none
    /// without a cookie, or for an unknown or expired session.
    pub fn session_user_id_at(&self, cookie: Option<&String>, now: i64) -> (r: Option<String>)
        requires
            self.wf(),
        ensures
            r == match cookie {
                Some(id) => resolve_outcome(self@.sessions, id@, now),
                None => None,
            },
    {
        match cookie {
            Some(id) => self.sessions.resolve_identity_at(id, now),
            None => None,
        }
    }

    /// The user id that the session cookie's value grants now.
    pub fn session_user_id(&self, cookie: Option<&String>) -> (r: Option<String>)
        requires
            self.wf(),
        ensures
            cookie is None ==> r is None,
            cookie is Some ==> exists|t: i64|
                r == #[trigger] resolve_outcome(self@.sessions, cookie->Some_0@, t),
    {
        let now = now_millis();
        self.session_user_id_at(cookie, now)
    }

    /// Drops the attempts that are stale and the sessions that are expired at
    /// `now`; returns how many of each went.
    pub fn cleanup_expired_at(&mut self, now: i64) -> (r: (usize, usize))
        requires
            old(self).wf(),
        ensures
            final(self).wf(),
            final(self)@ == (OAuthStateView {
                pending: live_pending(old(self)@.pending, now),
                sessions: live_sessions(old(self)@.sessions, now),
                ..old(self)@
            }),
            r.0 == old(self)@.pending.len() - final(self)@.pending.len(),
            r.1 == old(self)@.sessions.len() - final(self)@.sessions.len(),
    {
        let pending_removed = self.pending.sweep_at(now);
        let sessions_removed = self.sessions.sweep_at(now);
        (pending_removed, sessions_removed)
    }

    /// Drops the attempts that are stale and the sessions that are expired
    /// now; returns how many of each went.
    pub fn cleanup_expired(&mut self) -> (r: (usize, usize))
        requires
            old(self).wf(),
        ensures
            final(self).wf(),
            exists|t: i64|
                final(self)@ == (OAuthStateView {
                    pending: #[trigger] live_pending(old(self)@.pending, t),
                    sessions: live_sessions(old(self)@.sessions, t),
                    ..old(self)@
                }),
            r.0 == old(self)@.pending.len() - final(self)@.pending.len(),
            r.1 == old(self)@.sessions.len() - final(self)@.sessions.len(),
    {
        let now = now_millis();
        self.cleanup_expired_at(now)
    }

    /// The identity a provider profile names: the subject from `sub`, else
    /// `id`, else `user.id` (a string, or a number written in decimal); the
    /// e-mail from `email`; the name from `name`, else `preferred_username`,
    /// else `login`. Nothing for `null` or where no subject is found.
    pub fn extract_identity(profile: &Json) -> (r: Option<OAuthUser>)
        ensures
            identity_view(r) == identity_of(*profile),
    {
        if profile.is_null() {
            return None;
        }
        let subject = match profile.get("sub") {
            Some(v) => Some(v),
            None => match profile.get("id") {
                Some(v) => Some(v),
                None => match profile.get("user") {
                    Some(u) => u.get("id"),
                    None => None,
                },
            },
        };
        let id = match subject {
            Some(Json::String(t)) => t.clone(),
            Some(Json::Number(n)) => n.to_text(),
            _ => {
                return None;
            },
        };
        let email = match profile.get("email") {
            Some(v) => match v.as_str() {
                Some(t) => Some(t.clone()),
                None => None,
            },
            None => None,
        };
        let name_value = match profile.get("name") {
            Some(v) => Some(v),
            None => match profile.get("preferred_username") {
                Some(v) => Some(v),
                None => profile.get("login"),
            },
        };
        let name = match name_value {
            Some(v) => match v.as_str() {
                Some(t) => Some(t.clone()),
                None => None,
            },
            None => None,
        };
        Some(OAuthUser { id, name, email })
    }
}

/// Sweeping again, at the same instant or an earlier one, removes nothing:
/// both stores are left as the first sweep left them.
pub proof fn lemma_cleanup_idempotent(
    pending: Map<Seq<char>, PendingAuth>,
    sessions: Map<Seq<char>, AuthSession>,
    first: i64,
    second: i64,
)
    requires
        second <= first,
    ensures
        live_pending(live_pending(pending, first), second) == live_pending(pending, first),
        live_sessions(live_sessions(sessions, first), second) == live_sessions(sessions, first),
{
    assert(live_pending(live_pending(pending, first), second) =~= live_pending(pending, first));
    assert(live_sessions(live_sessions(sessions, first), second) =~= live_sessions(sessions, first));
}

} // verus!
