//! The session store: session id -> identity, expiry and the provider's raw
//! profile.
use vstd::prelude::*;
use crate::identity::OAuthUser;
use crate::json::Json;
use crate::keyed::{
    keep_values, keys_unique, lemma_map_of_contains, lemma_map_of_index, lemma_map_of_len,
    lemma_map_of_remove, lemma_push_unique, map_of, position_of,
};

verus! {

/// One established session.
#[derive(Debug)]
pub struct AuthSession {
    pub user: OAuthUser,
    /// Milliseconds since the Unix epoch; `None` for a session that does not expire.
    pub expires_at: Option<i64>,
    pub raw_profile: Json,
}

/// When a session created at `now` with a lifetime of `ttl_secs` seconds
/// expires; an instant past the largest timestamp is held at the largest.
pub open spec fn expiry_after(now: i64, ttl_secs: Option<u64>) -> Option<i64> {
    match ttl_secs {
        None => None,
        Some(t) => {
            let at = now + t * 1000;
            Some(if at > i64::MAX { i64::MAX } else { at as i64 })
        },
    }
}

/// A session is expired at `now` once `now` is past its expiry.
pub open spec fn is_expired(s: AuthSession, now: i64) -> bool {
    match s.expires_at {
        Some(at) => now > at,
        None => false,
    }
}

/// The sessions that are still valid at `now`.
pub open spec fn unexpired_at(now: i64) -> spec_fn(AuthSession) -> bool {
    |s: AuthSession| !is_expired(s, now)
}

/// What a sweep at `now` leaves of the store `m`.
pub open spec fn live_sessions(m: Map<Seq<char>, AuthSession>, now: i64) -> Map<
    Seq<char>,
    AuthSession,
> {
    keep_values(m, unexpired_at(now))
}

/// The user id that session `id` grants at `now`: none for an unknown or
/// expired session.
pub open spec fn resolve_outcome(m: Map<Seq<char>, AuthSession>, id: Seq<char>, now: i64) -> Option<
    String,
> {
    if m.contains_key(id) && !is_expired(m[id], now) {
        Some(m[id].user.id)
    } else {
        None
    }
}

/// Relies on `uuid::Uuid::new_v4` and its `to_string`: a fresh random session
/// id. Nothing is promised of the value. `new_v4` panics only when the
/// operating system cannot supply random bytes.
#[verifier::external_body]
pub(crate) fn new_session_id() -> (r: String) {
    uuid::Uuid::new_v4().to_string()
}

/// Established sessions keyed by session id.
pub struct SessionStore {
    entries: Vec<(String, AuthSession)>,
}

impl View for SessionStore {
    type V = Map<Seq<char>, AuthSession>;

    closed spec fn view(&self) -> Map<Seq<char>, AuthSession> {
        map_of(self.entries@)
    }
}

fn expiry_exec(now: i64, ttl_secs: Option<u64>) -> (r: Option<i64>)
    ensures
        r == expiry_after(now, ttl_secs),
{
    match ttl_secs {
        None => None,
        Some(t) => {
            let at: i128 = (now as i128) + (t as i128) * 1000;
            if at > i64::MAX as i128 {
                Some(i64::MAX)
            } else {
                Some(at as i64)
            }
        },
    }
}

impl SessionStore {
    /// The entries have distinct ids.
    pub closed spec fn wf(&self) -> bool {
        keys_unique(self.entries@)
    }

    /// A store with no session.
    pub fn new() -> (r: Self)
        ensures
            r.wf(),
            r@ == Map::<Seq<char>, AuthSession>::empty(),
    {
        SessionStore { entries: Vec::new() }
    }

    /// The number of sessions held.
    pub fn len(&self) -> (r: usize)
        requires
            self.wf(),
        ensures
            r == self@.len(),
    {
        proof {
            lemma_map_of_len(self.entries@);
        }
        self.entries.len()
    }

    /// Stores a session under `id`, created at `now`, expiring `ttl_secs`
    /// seconds later (never, for `None`); a session under the same id is replaced.
    pub fn insert_at(
        &mut self,
        id: String,
        user: OAuthUser,
        ttl_secs: Option<u64>,
        raw_profile: Json,
        now: i64,
    )
        requires
            old(self).wf(),
        ensures
            final(self).wf(),
            final(self)@ == old(self)@.insert(
                id@,
                (AuthSession { user, expires_at: expiry_after(now, ttl_secs), raw_profile }),
            ),
    {
        let ghost key = id@;
        let ghost session = AuthSession {
            user,
            expires_at: expiry_after(now, ttl_secs),
            raw_profile,
        };
        match position_of(&self.entries, &id) {
            Some(i) => {
                proof {
                    lemma_map_of_remove(self.entries@, i as int);
                }
                self.entries.remove(i);
            },
            None => {},
        }
        let expires_at = expiry_exec(now, ttl_secs);
        let pair = (id, AuthSession { user, expires_at, raw_profile });
        proof {
            lemma_push_unique(self.entries@, pair);
        }
        self.entries.push(pair);
        assert(self@ =~= old(self)@.insert(key, session));
    }

    /// Deletes the session under `id`; an unknown id changes nothing.
    pub fn remove(&mut self, id: &String)
        requires
            old(self).wf(),
        ensures
            final(self).wf(),
            final(self)@ == old(self)@.remove(id@),
    {
        match position_of(&self.entries, id) {
            Some(i) => {
                proof {
                    lemma_map_of_remove(self.entries@, i as int);
                }
                self.entries.remove(i);
            },
            None => {
                assert(self@ =~= old(self)@.remove(id@));
            },
        }
    }

    /// The session under `id`, expired or not.
    pub fn snapshot(&self, id: &String) -> (r: Option<&AuthSession>)
        requires
            self.wf(),
        ensures
            match r {
                Some(s) => self@.contains_key(id@) && *s == self@[id@],
                None => !self@.contains_key(id@),
            },
    {
        match position_of(&self.entries, id) {
            Some(i) => {
                proof {
                    lemma_map_of_index(self.entries@, i as int);
                }
                Some(&self.entries[i].1)
            },
            None => None,
        }
    }

    /// The user id of the session under `id`, unless it is unknown or expired at `now`.
    pub fn resolve_identity_at(&self, id: &String, now: i64) -> (r: Option<String>)
        requires
            self.wf(),
        ensures
            r == resolve_outcome(self@, id@, now),
    {
        match self.snapshot(id) {
            Some(session) => match session.expires_at {
                Some(at) if now > at => None,
                _ => Some(session.user.id.clone()),
            },
            None => None,
        }
    }

    /// Removes every session that is expired at `now`; returns how many went.
    pub fn sweep_at(&mut self, now: i64) -> (removed: usize)
        requires
            old(self).wf(),
        ensures
            final(self).wf(),
            final(self)@ == live_sessions(old(self)@, now),
            removed == old(self)@.len() - final(self)@.len(),
    {
        let ghost keep = unexpired_at(now);
        let ghost start = self.entries@;
        let before = self.entries.len();
        let mut i: usize = 0;
        while i < self.entries.len()
            invariant
                keep == unexpired_at(now),
                keys_unique(self.entries@),
                0 <= i <= self.entries@.len() <= before,
                before == start.len(),
                keep_values(map_of(self.entries@), keep) == keep_values(map_of(start), keep),
                forall|j: int| 0 <= j < i ==> keep((#[trigger] self.entries@[j]).1),
            decreases self.entries@.len() - i,
        {
            let expired = match self.entries[i].1.expires_at {
                Some(at) => now > at,
                None => false,
            };
            if expired {
                proof {
                    let s = self.entries@;
                    lemma_map_of_index(s, i as int);
                    lemma_map_of_remove(s, i as int);
                    s.remove_ensures(i as int);
                    assert(keep_values(map_of(s.remove(i as int)), keep) =~= keep_values(
                        map_of(s),
                        keep,
                    ));
                }
                self.entries.remove(i);
            } else {
                i += 1;
            }
        }
        proof {
            let s = self.entries@;
            assert forall|k: Seq<char>| #[trigger]
                map_of(s).contains_key(k) implies keep(map_of(s)[k]) by {
                lemma_map_of_contains(s, k);
                let j = choose|j: int| 0 <= j < s.len() && (#[trigger] s[j]).0@ == k;
                lemma_map_of_index(s, j);
            }
            assert(map_of(s) =~= keep_values(map_of(s), keep));
            lemma_map_of_len(s);
            lemma_map_of_len(start);
        }
        before - self.entries.len()
    }
}

/// A session created without a lifetime is never refused for expiry: at any
/// instant it resolves to its user's id until it is removed.
pub proof fn lemma_unlimited_session_resolves(
    m: Map<Seq<char>, AuthSession>,
    id: Seq<char>,
    user: OAuthUser,
    raw_profile: Json,
    created: i64,
    now: i64,
)
    ensures
        resolve_outcome(
            m.insert(id, (AuthSession { user, expires_at: expiry_after(created, None), raw_profile })),
            id,
            now,
        ) == Some(user.id),
{
}

/// A session created at `created` with a lifetime of `ttl_secs` seconds
/// resolves to its user's id at every instant up to `created + ttl_secs`
/// seconds, and to nothing at every instant after.
pub proof fn lemma_limited_session_window(
    m: Map<Seq<char>, AuthSession>,
    id: Seq<char>,
    user: OAuthUser,
    raw_profile: Json,
    created: i64,
    ttl_secs: u64,
    now: i64,
)
    ensures
        now <= created + ttl_secs * 1000 ==> resolve_outcome(
            m.insert(
                id,
                (AuthSession { user, expires_at: expiry_after(created, Some(ttl_secs)), raw_profile }),
            ),
            id,
            now,
        ) == Some(user.id),
        now > created + ttl_secs * 1000 ==> resolve_outcome(
            m.insert(
                id,
                (AuthSession { user, expires_at: expiry_after(created, Some(ttl_secs)), raw_profile }),
            ),
            id,
            now,
        ) is None,
{
}

/// A sweep at any instant keeps a session that has no lifetime, unchanged;
/// so such a session resolves to its user's id after any number of
/// cleanups, until it is removed.
pub proof fn lemma_unlimited_session_survives_sweep(
    m: Map<Seq<char>, AuthSession>,
    id: Seq<char>,
    now: i64,
    later: i64,
)
    requires
        m.contains_key(id),
        m[id].expires_at is None,
    ensures
        live_sessions(m, now).contains_key(id),
        live_sessions(m, now)[id] == m[id],
        live_sessions(m, now)[id].expires_at is None,
        resolve_outcome(live_sessions(m, now), id, later) == Some(m[id].user.id),
{
}

} // verus!
