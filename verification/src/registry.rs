//! The sessions of the proxy, by their identifiers.
//!
//! The registry is shared by all requests and is never locked as a whole:
//! a request holds the one session it works on, and requests for other
//! sessions go on beside it.  What a request finds in a session therefore
//! depends on the requests before it; the contracts here say what holds
//! whatever they left.  A call into the map waits while a guard into the
//! same part of it is alive, so no function here holds a guard when it calls
//! into the map again.

use vstd::prelude::*;
use dashmap::DashMap;
use dashmap::mapref::one::RefMut;
use std::collections::hash_map::RandomState;
use crate::audit::Reason;
use crate::intervention::{
    intervention_of, leak_intervention, loop_intervention, Intervention,
};
use crate::pipeline::{
    conclude_turn, inspected_reply, leaks, relay_matches, rewrite_of, screen_prompt,
    screen_verdict, Relay, Upstream,
};
use crate::scorer::Embedding;
use crate::session::{vector_of, SessionState, SessionView};

verus! {

/// The concurrent map of `dashmap`.  Nothing is said of what it holds: it
/// is read and changed through shared references, by this request and by
/// others at once.
#[verifier::external_type_specification]
#[verifier::external_body]
#[verifier::reject_recursive_types(K)]
#[verifier::reject_recursive_types(V)]
#[verifier::reject_recursive_types(S)]
pub struct ExDashMap<K, V, S>(DashMap<K, V, S>);

/// The guard of `dashmap` that holds one entry of the map for writing.
#[verifier::external_type_specification]
#[verifier::external_body]
#[verifier::reject_recursive_types(K)]
#[verifier::reject_recursive_types(V)]
pub struct ExRefMut<'a, K, V>(RefMut<'a, K, V>);

/// Calls `DashMap::new`: a map without entries.
#[verifier::external_body]
fn empty_sessions() -> (sessions: DashMap<String, SessionState, RandomState>) {
    DashMap::new()
}

/// Calls `DashMap::entry` and `Entry::or_insert_with`: the session under
/// `id`, made new if there was none, and held for the caller alone until the
/// guard is let go.  The call waits while another guard into the same part
/// of the map is alive.
#[verifier::external_body]
fn session_or_new<'a>(sessions: &'a DashMap<String, SessionState, RandomState>, id: &str) -> (guard:
    RefMut<'a, String, SessionState>) {
    sessions.entry(id.to_owned()).or_insert_with(SessionState::new)
}

/// Calls `DashMap::get_mut`: the session under `id`, if there is one, held
/// for the caller alone until the guard is let go.  The call waits while
/// another guard into the same part of the map is alive.
#[verifier::external_body]
fn session_if_known<'a>(sessions: &'a DashMap<String, SessionState, RandomState>, id: &str) -> (guard:
    Option<RefMut<'a, String, SessionState>>) {
    sessions.get_mut(id)
}

/// Calls `RefMut::value_mut`: the session that the guard holds.
#[verifier::external_body]
fn held_session<'a, 'b>(guard: &'b mut RefMut<'a, String, SessionState>) -> (session:
    &'b mut SessionState) {
    guard.value_mut()
}

/// Calls `DashMap::get` and has the session that is found report its
/// totals while the guard holds it; `None` if there is no session under
/// `id`.  Which session is found, and in what state, depends on the
/// requests before the call.
#[verifier::external_body]
fn session_totals(sessions: &DashMap<String, SessionState, RandomState>, id: &str) -> (totals:
    Option<SessionTotals>) {
    sessions.get(id).map(|s| s.totals())
}

/// Calls `DashMap::len`: the number of sessions at the moment of the call.
#[verifier::external_body]
fn session_count(sessions: &DashMap<String, SessionState, RandomState>) -> (count: usize) {
    sessions.len()
}

/// Calls `DashMap::iter` and reads one field of each session: the numbers of
/// interventions, in the order in which the map is walked.
#[verifier::external_body]
fn intervention_counts(sessions: &DashMap<String, SessionState, RandomState>) -> (counts: Vec<u32>) {
    sessions.iter().map(|s| s.interventions()).collect()
}

/// What one session has spent and how often the proxy stepped in for it.
#[derive(Clone, Copy, Debug, PartialEq, Eq, Structural)]
pub struct SessionTotals {
    pub cumulative_cost: u128,
    pub interventions: u32,
}

/// The sum of `counts`.
pub open spec fn total_of(counts: Seq<u32>) -> nat
    decreases counts.len(),
{
    if counts.len() == 0 {
        0
    } else {
        total_of(counts.drop_last()) + counts.last() as nat
    }
}

/// The sum of `counts`, held at the largest number that can be returned.
pub fn sum_counts(counts: &Vec<u32>) -> (total: u64)
    ensures
        total == if total_of(counts@) > u64::MAX {
            u64::MAX as nat
        } else {
            total_of(counts@)
        },
{
    let mut total: u64 = 0;
    let mut i: usize = 0;
    while i < counts.len()
        invariant
            i <= counts.len(),
            total == if total_of(counts@.take(i as int)) > u64::MAX {
                u64::MAX as nat
            } else {
                total_of(counts@.take(i as int))
            },
        decreases counts.len() - i,
    {
        proof {
            assert(counts@.take(i + 1).drop_last() =~= counts@.take(i as int));
        }
        total = total.saturating_add(counts[i] as u64);
        i = i + 1;
    }
    proof {
        assert(counts@.take(counts.len() as int) =~= counts@);
    }
    total
}

/// The sessions of the proxy, by their identifiers.
pub struct SessionRegistry {
    sessions: DashMap<String, SessionState, RandomState>,
}

impl SessionRegistry {
    /// A registry without sessions.
    pub fn new() -> (registry: Self) {
        SessionRegistry { sessions: empty_sessions() }
    }

    /// Screens the latest prompt of the session `session_id`, which is made
    /// new if this is its first request.  The outcome is what
    /// [`screen_prompt`] gives for the session as the requests before this
    /// one left it.
    pub fn screen(
        &self,
        timestamp: u64,
        session_id: &str,
        embedding: Option<Embedding>,
        prompt: &str,
    ) -> (blocked: Option<Intervention>)
        ensures
            exists|before: SessionView|
                intervention_of(blocked) == #[trigger] screen_verdict(
                    before,
                    timestamp,
                    session_id@,
                    vector_of(embedding),
                    prompt@,
                ),
            blocked matches Some(intervention) ==> {
                &&& intervention@ == loop_intervention(
                    timestamp,
                    session_id@,
                    intervention.entry.reason,
                    prompt@,
                )
                &&& (intervention.entry.reason == Reason::FuzzyLoop || (embedding is Some
                    && intervention.entry.reason == Reason::SemanticLoop))
            },
    {
        let mut guard = session_or_new(&self.sessions, session_id);
        let session = held_session(&mut guard);
        screen_prompt(session, timestamp, session_id, embedding, prompt)
    }

    /// Concludes a request of the session `session_id` that was forwarded.
    /// For a session that is known, the outcome is what [`conclude_turn`]
    /// gives for it as the requests before this one left it.  For one that
    /// is not, there is nothing to settle: only the scan for leaked markers
    /// is made.
    pub fn conclude(&self, timestamp: u64, session_id: &str, upstream: &Upstream) -> (relay: Relay)
        ensures
            exists|before: SessionView| #[trigger]
                relay_matches(relay, before, timestamp, session_id@, upstream@),
            upstream is Unreachable ==> relay is ProxyFailure,
            inspected_reply(upstream@) is None && !(upstream is Unreachable) ==> relay is AsReceived,
            inspected_reply(upstream@) matches Some(reply) && reply.content is None ==> relay
                is AsReceived,
            inspected_reply(upstream@) matches Some(reply) && reply.content matches Some(content)
                && leaks(content) ==> rewrite_of(relay) == Some(
                leak_intervention(timestamp, session_id@),
            ),
    {
        match session_if_known(&self.sessions, session_id) {
            Some(mut guard) => {
                let session = held_session(&mut guard);
                conclude_turn(session, timestamp, session_id, upstream)
            },
            None => {
                let mut unknown = SessionState::new();
                conclude_turn(&mut unknown, timestamp, session_id, upstream)
            },
        }
    }

    /// What the session `session_id` has spent and how often the proxy
    /// stepped in for it, at the moment of the call; `None` for a session
    /// that is not known.
    pub fn audit_session(&self, session_id: &str) -> (totals: Option<SessionTotals>) {
        session_totals(&self.sessions, session_id)
    }

    /// Number of sessions at the moment of the call.
    pub fn active_sessions(&self) -> (count: usize) {
        session_count(&self.sessions)
    }

    /// Number of interventions over all sessions, as the sessions stand
    /// while the registry is walked.
    pub fn total_interventions(&self) -> (total: u64) {
        let counts: Vec<u32> = intervention_counts(&self.sessions);
        sum_counts(&counts)
    }
}

} // verus!
