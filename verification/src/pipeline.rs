//! The decisions of one request: the screening of its prompt before
//! anything is forwarded, and the inspection of the reply afterwards.

use vstd::prelude::*;
use crate::audit::Reason;
use crate::intervention::{
    block_for_loop, intervention_of, leak_intervention, leak_notice, loop_intervention, redact_leak,
    redacted_placeholder, throttle_intervention, throttle_turn, Intervention, InterventionView,
};
use crate::policy::{COMPLETION_TOKEN_COST, PROMPT_TOKEN_COST};
use crate::scorer::Embedding;
use crate::session::{
    after_loop_check, after_settle, loop_verdict, throttle_trips, vector_of, with_intervention,
    SessionState, SessionView,
};
use crate::text::{contains_text, has_substring, occurs_at};

verus! {

/// The token counts that a reply reports; a count that is missing is `None`.
#[derive(Clone, Copy, Debug, PartialEq, Eq, Structural)]
pub struct Usage {
    pub prompt_tokens: Option<u64>,
    pub completion_tokens: Option<u64>,
}

/// A count that may be missing, where a missing one counts as zero.
pub open spec fn count_or_zero(count: Option<u64>) -> u64 {
    match count {
        Some(n) => n,
        None => 0,
    }
}

/// The estimated cost of a turn, in cost units: each prompt token and each
/// completion token at its price; zero where the reply reports no usage.
pub open spec fn spec_cost(usage: Option<Usage>) -> u128 {
    match usage {
        Some(u) => (count_or_zero(u.prompt_tokens) * PROMPT_TOKEN_COST + count_or_zero(
            u.completion_tokens,
        ) * COMPLETION_TOKEN_COST) as u128,
        None => 0,
    }
}

/// The estimated cost of a turn, in cost units.
pub fn estimate_cost(usage: Option<Usage>) -> (cost: u128)
    ensures
        cost == spec_cost(usage),
{
    match usage {
        Some(u) => {
            let prompt: u128 = match u.prompt_tokens {
                Some(n) => n as u128,
                None => 0,
            };
            let completion: u128 = match u.completion_tokens {
                Some(n) => n as u128,
                None => 0,
            };
            prompt * PROMPT_TOKEN_COST + completion * COMPLETION_TOKEN_COST
        },
        None => 0,
    }
}

/// Whether a reply holds one of the markers of sensitive data.
pub open spec fn leaks(content: Seq<char>) -> bool {
    has_substring(content, "SYSTEM_PROMPT:"@) || has_substring(content, "API_KEY="@)
}

/// Whether a reply holds one of the markers of sensitive data.
pub fn leaks_sensitive_data(content: &str) -> (leaked: bool)
    ensures
        leaked == leaks(content@),
{
    contains_text(content, "SYSTEM_PROMPT:") || contains_text(content, "API_KEY=")
}

/// What the upstream provider answered, as far as the proxy reads it: the
/// content of the first candidate message and the reported usage, each of
/// which may be missing.
#[derive(Debug)]
pub struct UpstreamReply {
    pub content: Option<String>,
    pub usage: Option<Usage>,
}

/// A reply, as plain values.
pub struct ReplyView {
    pub content: Option<Seq<char>>,
    pub usage: Option<Usage>,
}

impl View for UpstreamReply {
    type V = ReplyView;

    open spec fn view(&self) -> ReplyView {
        ReplyView {
            content: match self.content {
                Some(c) => Some(c@),
                None => None,
            },
            usage: self.usage,
        }
    }
}

/// What screening a prompt finds, before anything is forwarded: the block
/// for a prompt that the loop check of the session catches, and nothing for
/// one that is to be forwarded.
pub open spec fn screen_verdict(
    s: SessionView,
    timestamp: u64,
    session_id: Seq<char>,
    embedding: Option<Seq<i32>>,
    prompt: Seq<char>,
) -> Option<InterventionView> {
    match loop_verdict(s, embedding, prompt) {
        Some(reason) => Some(loop_intervention(timestamp, session_id, reason, prompt)),
        None => None,
    }
}

/// Screens the latest prompt of a session before anything is forwarded.
/// A prompt that the loop check catches is blocked: the caller gets the
/// notice, the entry is to be logged, and nothing is to be sent upstream.
pub fn screen_prompt(
    session: &mut SessionState,
    timestamp: u64,
    session_id: &str,
    embedding: Option<Embedding>,
    prompt: &str,
) -> (blocked: Option<Intervention>)
    ensures
        intervention_of(blocked) == screen_verdict(
            old(session)@,
            timestamp,
            session_id@,
            vector_of(embedding),
            prompt@,
        ),
        final(session)@ == after_loop_check(old(session)@, vector_of(embedding), prompt@),
{
    match session.detect_loop(embedding, prompt.to_owned()) {
        Some(reason) => Some(block_for_loop(timestamp, session_id, reason, prompt)),
        None => None,
    }
}

/// What inspecting a reply finds.  A reply without content is passed on
/// unread.  A reply that leaks is redacted, whatever it cost.  Any other
/// reply is throttled if the throttle trips on its estimated cost.
pub open spec fn reply_verdict(
    s: SessionView,
    timestamp: u64,
    session_id: Seq<char>,
    reply: ReplyView,
) -> Option<InterventionView> {
    match reply.content {
        None => None,
        Some(content) => if leaks(content) {
            Some(leak_intervention(timestamp, session_id))
        } else if throttle_trips(s.cumulative_cost, s.last_cost, spec_cost(reply.usage)) {
            Some(throttle_intervention(timestamp, session_id, spec_cost(reply.usage)))
        } else {
            None
        },
    }
}

/// The session after a reply has been inspected.  A reply without content
/// leaves it as it was.  A leak counts as an intervention and commits no
/// cost.  Any other reply has its cost committed, throttled or not.
pub open spec fn after_reply(s: SessionView, reply: ReplyView) -> SessionView {
    match reply.content {
        None => s,
        Some(content) => if leaks(content) {
            with_intervention(s)
        } else {
            after_settle(s, spec_cost(reply.usage))
        },
    }
}

/// Inspects the reply of the upstream provider for a session: first for
/// leaked markers, then for its cost.  At most one intervention comes out.
pub fn inspect_reply(
    session: &mut SessionState,
    timestamp: u64,
    session_id: &str,
    reply: &UpstreamReply,
) -> (rewritten: Option<Intervention>)
    ensures
        intervention_of(rewritten) == reply_verdict(old(session)@, timestamp, session_id@, reply@),
        final(session)@ == after_reply(old(session)@, reply@),
{
    match &reply.content {
        None => None,
        Some(content) => {
            if leaks_sensitive_data(content.as_str()) {
                session.note_intervention();
                Some(redact_leak(timestamp, session_id))
            } else {
                let cost: u128 = estimate_cost(reply.usage);
                if session.settle_turn(cost) {
                    Some(throttle_turn(timestamp, session_id, cost))
                } else {
                    None
                }
            }
        },
    }
}

/// A reply that holds the marker "API_KEY=" is always redacted, whatever
/// the session has spent and whatever the reply cost: the caller gets the
/// redaction notice, and the entry that is logged holds the placeholder, the
/// same for every such reply, and so nothing of what the reply said.
pub proof fn lemma_leak_is_always_redacted(
    s: SessionView,
    timestamp: u64,
    session_id: Seq<char>,
    reply: ReplyView,
)
    requires
        reply.content matches Some(content) && has_substring(content, "API_KEY="@),
    ensures
        reply_verdict(s, timestamp, session_id, reply) == Some(
            leak_intervention(timestamp, session_id),
        ),
        reply_verdict(s, timestamp, session_id, reply)->0.notice == leak_notice(),
        reply_verdict(s, timestamp, session_id, reply)->0.entry.content_snippet
            == redacted_placeholder(),
        reply_verdict(s, timestamp, session_id, reply)->0.entry.reason == Reason::DataLeak,
        after_reply(s, reply).cumulative_cost == s.cumulative_cost,
        after_reply(s, reply).last_cost == s.last_cost,
{
}

/// The placeholder holds neither marker of sensitive data.
pub proof fn lemma_placeholder_leaks_nothing()
    ensures
        !leaks(redacted_placeholder()),
{
    reveal_strlit("[REDACTED SENSITIVE DATA]");
    reveal_strlit("SYSTEM_PROMPT:");
    reveal_strlit("API_KEY=");
    let text = "[REDACTED SENSITIVE DATA]"@;
    assert forall|at: int| !occurs_at(text, "SYSTEM_PROMPT:"@, at) by {
        if occurs_at(text, "SYSTEM_PROMPT:"@, at) {
            assert(text.subrange(at, at + 14)[1] == 'Y');
        }
    }
    assert forall|at: int| !occurs_at(text, "API_KEY="@, at) by {
        if occurs_at(text, "API_KEY="@, at) {
            assert(text.subrange(at, at + 8)[1] == 'P');
        }
    }
}

/// The scan for leaks goes before the throttle: a reply that leaks is
/// redacted and not throttled, and it commits no cost, whatever the
/// throttle would have said of it.
pub proof fn lemma_leak_goes_before_throttle(
    s: SessionView,
    timestamp: u64,
    session_id: Seq<char>,
    reply: ReplyView,
)
    requires
        reply.content matches Some(content) && leaks(content),
    ensures
        reply_verdict(s, timestamp, session_id, reply)->0.entry.reason == Reason::DataLeak,
        after_reply(s, reply) == with_intervention(s),
{
}

/// What came of forwarding a request to the upstream provider.
#[derive(Debug)]
pub enum Upstream {
    /// The provider could not be reached, or did not answer in time.
    Unreachable,
    /// The provider answered with this status code.
    Answered { status: u16, reply: UpstreamReply },
}

/// What the caller is sent once the request has been forwarded.
#[derive(Debug)]
pub enum Relay {
    /// A failure of the proxy itself.
    ProxyFailure,
    /// What the provider sent, status and body, as it came.
    AsReceived,
    /// What the provider sent, with the content replaced by the notice of
    /// the intervention; the entry is to be logged.
    Rewritten(Intervention),
}

/// Whether a status code reports success.
pub open spec fn is_success(status: u16) -> bool {
    200 <= status < 300
}

/// What came of forwarding a request, as plain values.
pub enum UpstreamView {
    Unreachable,
    Answered { status: u16, reply: ReplyView },
}

impl View for Upstream {
    type V = UpstreamView;

    open spec fn view(&self) -> UpstreamView {
        match *self {
            Upstream::Unreachable => UpstreamView::Unreachable,
            Upstream::Answered { status, reply } => UpstreamView::Answered { status, reply: reply@ },
        }
    }
}

/// The reply that an outcome carries for inspection: that of an answer
/// with a status of success.
pub open spec fn inspected_reply(upstream: UpstreamView) -> Option<ReplyView> {
    match upstream {
        UpstreamView::Answered { status, reply } => if is_success(status) {
            Some(reply)
        } else {
            None
        },
        UpstreamView::Unreachable => None,
    }
}

/// The intervention that a relay carries, as plain values.
pub open spec fn rewrite_of(relay: Relay) -> Option<InterventionView> {
    match relay {
        Relay::Rewritten(intervention) => Some(intervention@),
        _ => None,
    }
}

/// Whether a relay is the right one for an outcome in a session that the
/// requests before left in the state `s`.  A provider that could not be
/// reached makes a failure of the proxy.  An answer without success is
/// passed on as it came, uninspected.  An answer with success is passed on
/// as it came unless its inspection ends in an intervention.
pub open spec fn relay_matches(
    relay: Relay,
    s: SessionView,
    timestamp: u64,
    session_id: Seq<char>,
    upstream: UpstreamView,
) -> bool {
    match upstream {
        UpstreamView::Unreachable => relay is ProxyFailure,
        UpstreamView::Answered { status, reply } => if is_success(status) {
            match reply_verdict(s, timestamp, session_id, reply) {
                Some(intervention) => rewrite_of(relay) == Some(intervention),
                None => relay is AsReceived,
            }
        } else {
            relay is AsReceived
        },
    }
}

/// The session after a request has been forwarded.  Only an answer with a
/// status of success changes it.
pub open spec fn after_upstream(s: SessionView, upstream: UpstreamView) -> SessionView {
    match inspected_reply(upstream) {
        Some(reply) => after_reply(s, reply),
        None => s,
    }
}

/// Concludes a request that was forwarded: decides what the caller is sent,
/// and settles the turn in the session.
pub fn conclude_turn(
    session: &mut SessionState,
    timestamp: u64,
    session_id: &str,
    upstream: &Upstream,
) -> (relay: Relay)
    ensures
        relay_matches(relay, old(session)@, timestamp, session_id@, upstream@),
        final(session)@ == after_upstream(old(session)@, upstream@),
{
    match upstream {
        Upstream::Unreachable => Relay::ProxyFailure,
        Upstream::Answered { status, reply } => {
            if 200 <= *status && *status < 300 {
                match inspect_reply(session, timestamp, session_id, reply) {
                    Some(intervention) => Relay::Rewritten(intervention),
                    None => Relay::AsReceived,
                }
            } else {
                Relay::AsReceived
            }
        },
    }
}

/// A provider that could not be reached, or that answered without success,
/// leaves the session as it was: nothing is committed and nothing counted.
pub proof fn lemma_failure_leaves_session_unchanged(s: SessionView, upstream: UpstreamView)
    requires
        upstream is Unreachable || (upstream matches UpstreamView::Answered { status, .. }
            && !is_success(status)),
    ensures
        after_upstream(s, upstream) == s,
{
}

} // verus!
