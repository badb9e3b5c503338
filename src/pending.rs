//! The pending-authorization store: CSRF state -> PKCE verifier, nonce and
//! creation time, redeemable once and for ten minutes.
use vstd::prelude::*;
use crate::keyed::{
    keep_values, keys_unique, lemma_map_of_contains, lemma_map_of_index, lemma_map_of_len,
    lemma_map_of_remove, lemma_push_unique, map_of, position_of,
};

verus! {

/// How long an authorization attempt stays redeemable, in milliseconds (ten minutes).
pub const PENDING_TTL_MS: i64 = 600_000;

/// One authorization attempt in flight.
pub struct PendingAuth {
    pub verifier: String,
    pub nonce: String,
    /// Milliseconds since the Unix epoch.
    pub created_at: i64,
}

/// An attempt started at `created_at` is stale at `now` once more than ten
/// minutes have passed.
pub open spec fn is_stale(created_at: i64, now: i64) -> bool {
    now - created_at > PENDING_TTL_MS
}

/// The attempts that are still fresh at `now`.
pub open spec fn fresh_at(now: i64) -> spec_fn(PendingAuth) -> bool {
    |p: PendingAuth| !is_stale(p.created_at, now)
}

/// What a sweep at `now` leaves of the store `m`.
pub open spec fn live_pending(m: Map<Seq<char>, PendingAuth>, now: i64) -> Map<
    Seq<char>,
    PendingAuth,
> {
    keep_values(m, fresh_at(now))
}

/// The entry that taking `state` at `now` hands back: present and not stale.
pub open spec fn take_outcome(m: Map<Seq<char>, PendingAuth>, state: Seq<char>, now: i64) -> Option<
    PendingAuth,
> {
    if m.contains_key(state) && !is_stale(m[state].created_at, now) {
        Some(m[state])
    } else {
        None
    }
}

/// The verifier and nonce of an entry.
pub open spec fn secrets_of(p: Option<PendingAuth>) -> Option<(String, String)> {
    match p {
        Some(e) => Some((e.verifier, e.nonce)),
        None => None,
    }
}

/// In-flight authorization attempts keyed by their CSRF state.
pub struct PendingStore {
    entries: Vec<(String, PendingAuth)>,
}

impl View for PendingStore {
    type V = Map<Seq<char>, PendingAuth>;

    closed spec fn view(&self) -> Map<Seq<char>, PendingAuth> {
        map_of(self.entries@)
    }
}

impl PendingStore {
    /// The entries have distinct states.
    pub closed spec fn wf(&self) -> bool {
        keys_unique(self.entries@)
    }

    /// A store with no attempt.
    pub fn new() -> (r: Self)
        ensures
            r.wf(),
            r@ == Map::<Seq<char>, PendingAuth>::empty(),
    {
        PendingStore { entries: Vec::new() }
    }

    /// The number of attempts held.
    pub fn len(&self) -> (r: usize)
        requires
            self.wf(),
        ensures
            r == self@.len(),
    {
        proof {
            lemma_map_of_len(self.entries@);
        }
        self.entries.len()
    }

    /// Records an attempt under `state`, started at `now`; an earlier attempt
    /// under the same state is replaced.
    pub fn store_at(&mut self, state: String, verifier: String, nonce: String, now: i64)
        requires
            old(self).wf(),
        ensures
            final(self).wf(),
            final(self)@ == old(self)@.insert(
                state@,
                (PendingAuth { verifier, nonce, created_at: now }),
            ),
    {
        let ghost key = state@;
        let ghost entry = PendingAuth { verifier, nonce, created_at: now };
        match position_of(&self.entries, &state) {
            Some(i) => {
                proof {
                    lemma_map_of_remove(self.entries@, i as int);
                }
                self.entries.remove(i);
            },
            None => {},
        }
        assert(!self@.contains_key(key));
        let pair = (state, PendingAuth { verifier, nonce, created_at: now });
        proof {
            lemma_push_unique(self.entries@, pair);
        }
        self.entries.push(pair);
        assert(self@ =~= old(self)@.insert(key, entry));
    }

    /// Removes the attempt under `state` and hands back its verifier and
    /// nonce, unless it is absent or stale at `now`; either way nothing is
    /// left under `state`.
    pub fn take_at(&mut self, state: &String, now: i64) -> (r: Option<(String, String)>)
        requires
            old(self).wf(),
        ensures
            final(self).wf(),
            final(self)@ == old(self)@.remove(state@),
            r == secrets_of(take_outcome(old(self)@, state@, now)),
    {
        match position_of(&self.entries, state) {
            None => {
                assert(self@ =~= old(self)@.remove(state@));
                None
            },
            Some(i) => {
                proof {
                    lemma_map_of_index(self.entries@, i as int);
                    lemma_map_of_remove(self.entries@, i as int);
                }
                let (_, entry) = self.entries.remove(i);
                if (now as i128) - (entry.created_at as i128) > PENDING_TTL_MS as i128 {
                    None
                } else {
                    Some((entry.verifier, entry.nonce))
                }
            },
        }
    }

    /// Removes every attempt that is stale at `now`; returns how many went.
    pub fn sweep_at(&mut self, now: i64) -> (removed: usize)
        requires
            old(self).wf(),
        ensures
            final(self).wf(),
            final(self)@ == live_pending(old(self)@, now),
            removed == old(self)@.len() - final(self)@.len(),
    {
        let ghost keep = fresh_at(now);
        let ghost start = self.entries@;
        let before = self.entries.len();
        let mut i: usize = 0;
        while i < self.entries.len()
            invariant
                keep == fresh_at(now),
                keys_unique(self.entries@),
                0 <= i <= self.entries@.len() <= before,
                before == start.len(),
                keep_values(map_of(self.entries@), keep) == keep_values(map_of(start), keep),
                forall|j: int| 0 <= j < i ==> keep((#[trigger] self.entries@[j]).1),
            decreases self.entries@.len() - i,
        {
            let created_at = self.entries[i].1.created_at;
            if (now as i128) - (created_at as i128) > PENDING_TTL_MS as i128 {
                proof {
                    let s = self.entries@;
                    lemma_map_of_index(s, i as int);
                    lemma_map_of_remove(s, i as int);
                    s.remove_ensures(i as int);
                    assert(keep_values(map_of(s.remove(i as int)), keep) =~= keep_values(
                        map_of(s),
                        keep,
                    ));
                }
                self.entries.remove(i);
            } else {
                i += 1;
            }
        }
        proof {
            let s = self.entries@;
            assert forall|k: Seq<char>| #[trigger]
                map_of(s).contains_key(k) implies keep(map_of(s)[k]) by {
                lemma_map_of_contains(s, k);
                let j = choose|j: int| 0 <= j < s.len() && (#[trigger] s[j]).0@ == k;
                lemma_map_of_index(s, j);
            }
            assert(map_of(s) =~= keep_values(map_of(s), keep));
            lemma_map_of_len(s);
            lemma_map_of_len(start);
        }
        before - self.entries.len()
    }
}

/// A stored state is redeemed once: a take within ten minutes of the store
/// hands back its verifier and nonce, and every take after that finds nothing
/// and changes nothing.
pub proof fn lemma_state_single_use(
    m: Map<Seq<char>, PendingAuth>,
    state: Seq<char>,
    verifier: String,
    nonce: String,
    stored: i64,
    taken: i64,
    later: i64,
)
    requires
        taken - stored <= PENDING_TTL_MS,
    ensures
        take_outcome(
            m.insert(state, (PendingAuth { verifier, nonce, created_at: stored })),
            state,
            taken,
        ) == Some((PendingAuth { verifier, nonce, created_at: stored })),
        take_outcome(
            m.insert(state, (PendingAuth { verifier, nonce, created_at: stored })).remove(state),
            state,
            later,
        ) is None,
        m.insert(state, (PendingAuth { verifier, nonce, created_at: stored })).remove(
            state,
        ).remove(state) == m.insert(
            state,
            (PendingAuth { verifier, nonce, created_at: stored }),
        ).remove(state),
{
    let after = m.insert(state, (PendingAuth { verifier, nonce, created_at: stored })).remove(state);
    assert(after.remove(state) =~= after);
}

/// An attempt more than ten minutes old is refused even while it is still
/// held, before any sweep has removed it.
pub proof fn lemma_stale_state_refused(m: Map<Seq<char>, PendingAuth>, state: Seq<char>, now: i64)
    requires
        m.contains_key(state),
        is_stale(m[state].created_at, now),
    ensures
        take_outcome(m, state, now) is None,
{
}

} // verus!
