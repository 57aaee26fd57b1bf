//! The body of an upstream answer, a JSON document, as far as the proxy
//! reads it and writes to it.

use vstd::prelude::*;
use serde_json::Value;
use crate::audit::{EntryView, InterventionLog};
use crate::intervention::{leak_entry, leak_notice, InterventionView};
use crate::pipeline::{
    is_success, leaks, relay_matches, reply_verdict, Relay, ReplyView, Upstream, UpstreamReply,
    Usage,
};
use crate::registry::SessionRegistry;
use crate::session::{fresh, SessionView};

verus! {

/// A JSON value of `serde_json`.  What it holds is reached through the two
/// names below.
#[verifier::external_type_specification]
#[verifier::external_body]
pub struct ExValue(Value);

/// The content of the first candidate message of a body: the text at
/// `body["choices"][0]["message"]["content"]`, where that place exists and
/// holds a JSON string.
pub uninterp spec fn first_content(body: Value) -> Option<Seq<char>>;

/// A token count of a body: the number under `field` of what stands under
/// "usage", where both exist and the number is a whole one that is not
/// negative and fits 64 bits.
pub uninterp spec fn usage_count(body: Value, field: Seq<char>) -> Option<u64>;

/// The view of a text that may be missing.
pub open spec fn text_view(text: Option<String>) -> Option<Seq<char>> {
    match text {
        Some(t) => Some(t@),
        None => None,
    }
}

/// Indexes the body with "choices", 0, "message" and "content" and calls
/// `Value::as_str` on what is there.  Indexing a `Value` never fails: a
/// place that does not exist reads as null, which is no string.
#[verifier::external_body]
fn content_in(body: &Value) -> (content: Option<String>)
    ensures
        text_view(content) == first_content(*body),
{
    body["choices"][0]["message"]["content"].as_str().map(|c| c.to_owned())
}

/// Calls `Value::get` with "usage" and then with `field`, and
/// `Value::as_u64` on what is there.
#[verifier::external_body]
fn tokens_in(body: &Value, field: &str) -> (count: Option<u64>)
    ensures
        count == usage_count(*body, field@),
{
    body.get("usage").and_then(|usage| usage.get(field)).and_then(|count| count.as_u64())
}

/// Assigns a JSON string to `body["choices"][0]["message"]["content"]`.
/// Writing through an index fails where the path does not exist, so the
/// place must hold a string already.  Nothing else in the body changes;
/// what stands under "usage" is another member of the outermost object.
#[verifier::external_body]
fn put_content(body: &mut Value, text: &str)
    requires
        first_content(*old(body)) is Some,
    ensures
        first_content(*final(body)) == Some(text@),
        forall|field: Seq<char>|
            usage_count(*final(body), field) == #[trigger] usage_count(*old(body), field),
{
    body["choices"][0]["message"]["content"] = Value::String(text.to_owned());
}

/// What the proxy reads of a body: the content of the first candidate
/// message and the two token counts.
pub open spec fn reply_in(body: Value) -> ReplyView {
    ReplyView {
        content: first_content(body),
        usage: Some(
            Usage {
                prompt_tokens: usage_count(body, "prompt_tokens"@),
                completion_tokens: usage_count(body, "completion_tokens"@),
            },
        ),
    }
}

/// Reads from a body what the proxy inspects.
pub fn read_reply(body: &Value) -> (reply: UpstreamReply)
    ensures
        reply@ == reply_in(*body),
{
    UpstreamReply {
        content: content_in(body),
        usage: Some(
            Usage {
                prompt_tokens: tokens_in(body, "prompt_tokens"),
                completion_tokens: tokens_in(body, "completion_tokens"),
            },
        ),
    }
}

/// What came of forwarding a request, with the body as it arrived.
pub enum Forwarded {
    /// The provider could not be reached, or did not answer in time.
    Unreachable,
    /// The provider answered with this status code and this body.
    Answered { status: u16, body: Value },
}

/// What the caller is sent once the request has been forwarded.
pub enum Outcome {
    /// A failure of the proxy itself.
    ProxyFailure,
    /// The status that the provider sent, and the body, rewritten if the
    /// proxy stepped in; `logged` is then the entry to be recorded.
    Relayed { status: u16, body: Value, logged: Option<InterventionLog> },
}

/// The view of an entry that may be missing.
pub open spec fn entry_view(entry: Option<InterventionLog>) -> Option<EntryView> {
    match entry {
        Some(e) => Some(e@),
        None => None,
    }
}

/// Whether an outcome is the right one for what came of forwarding, in a
/// session that the requests before left in the state `s`.  A provider that
/// could not be reached makes a failure of the proxy.  An answer is relayed
/// under its own status.  Where its inspection ends in an intervention, the
/// content of the first candidate is the notice, the token counts are as
/// they were, and the entry is handed out; else the body is as it came and
/// nothing is handed out.
pub open spec fn outcome_matches(
    outcome: Outcome,
    s: SessionView,
    timestamp: u64,
    session_id: Seq<char>,
    forwarded: Forwarded,
) -> bool {
    match forwarded {
        Forwarded::Unreachable => outcome is ProxyFailure,
        Forwarded::Answered { status, body } => {
            &&& outcome matches Outcome::Relayed { status: relayed_status, body: relayed, logged }
            &&& relayed_status == status
            &&& match verdict_on(s, timestamp, session_id, status, body) {
                Some(intervention) => {
                    &&& entry_view(logged) == Some(intervention.entry)
                    &&& first_content(relayed) == Some(intervention.notice)
                    &&& forall|field: Seq<char>|
                        usage_count(relayed, field) == #[trigger] usage_count(body, field)
                },
                None => logged is None && relayed == body,
            }
        },
    }
}

/// What the inspection of an answer finds: nothing where the status does
/// not report success, and else what the reply in the body calls for.
pub open spec fn verdict_on(
    s: SessionView,
    timestamp: u64,
    session_id: Seq<char>,
    status: u16,
    body: Value,
) -> Option<InterventionView> {
    if is_success(status) {
        reply_verdict(s, timestamp, session_id, reply_in(body))
    } else {
        None
    }
}

/// Whether what came of forwarding is an answer with a status of success
/// whose first candidate holds a marker of sensitive data.
pub open spec fn carries_leak(forwarded: Forwarded) -> bool {
    match forwarded {
        Forwarded::Answered { status, body } => is_success(status) && match first_content(body) {
            Some(content) => leaks(content),
            None => false,
        },
        Forwarded::Unreachable => false,
    }
}

/// Concludes a request of the session `session_id` that was forwarded:
/// reads the answer, lets the registry settle the turn, and rewrites the
/// body where the proxy steps in.  What the session had spent decides on
/// the throttle alone: an answer that leaks is rewritten to the redaction
/// notice in any case, and logged with the placeholder.
pub fn relay_forwarded(
    registry: &SessionRegistry,
    timestamp: u64,
    session_id: &str,
    forwarded: Forwarded,
) -> (outcome: Outcome)
    ensures
        exists|before: SessionView| #[trigger]
            outcome_matches(outcome, before, timestamp, session_id@, forwarded),
        forwarded is Unreachable <==> outcome is ProxyFailure,
        carries_leak(forwarded) ==> {
            &&& outcome matches Outcome::Relayed { body: relayed, logged, .. }
            &&& first_content(relayed) == Some(leak_notice())
            &&& entry_view(logged) == Some(leak_entry(timestamp, session_id@))
        },
{
    match forwarded {
        Forwarded::Unreachable => {
            proof {
                assert(outcome_matches(
                    Outcome::ProxyFailure,
                    fresh(),
                    timestamp,
                    session_id@,
                    forwarded,
                ));
            }
            Outcome::ProxyFailure
        },
        Forwarded::Answered { status, body } => {
            let mut relayed = body;
            let upstream = Upstream::Answered { status, reply: read_reply(&relayed) };
            let relay = registry.conclude(timestamp, session_id, &upstream);
            let ghost before = choose|before: SessionView|
                relay_matches(relay, before, timestamp, session_id@, upstream@);
            let outcome = match relay {
                Relay::Rewritten(intervention) => {
                    put_content(&mut relayed, intervention.notice.as_str());
                    Outcome::Relayed { status, body: relayed, logged: Some(intervention.entry) }
                },
                _ => Outcome::Relayed { status, body: relayed, logged: None },
            };
            proof {
                assert(outcome_matches(outcome, before, timestamp, session_id@, forwarded));
            }
            outcome
        },
    }
}

} // verus!
