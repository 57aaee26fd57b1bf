//! The three interventions: what the caller is sent in place of the real
//! reply, and what is logged.

use vstd::prelude::*;
use vstd::string::StringExecFns;
use crate::audit::{EntryView, InterventionLog, Reason};
use crate::text::{decimal, decimal_text, opening, opening_of, padded, padded_text};

verus! {

/// Number of characters of a blocked prompt that are logged.
pub const SNIPPET_CHARS: usize = 50;

/// What is logged of a blocked prompt: its first [`SNIPPET_CHARS`]
/// characters, followed by three dots.
pub open spec fn spec_snippet(prompt: Seq<char>) -> Seq<char> {
    opening(prompt, SNIPPET_CHARS as nat) + "..."@
}

/// What is logged of a blocked prompt; never more than [`SNIPPET_CHARS`]
/// characters and three dots.
pub fn snippet_of(prompt: &str) -> (snippet: String)
    ensures
        snippet@ == spec_snippet(prompt@),
        snippet@.len() <= SNIPPET_CHARS + 3,
{
    let mut snippet: String = opening_of(prompt, SNIPPET_CHARS);
    snippet.append("...");
    proof {
        reveal_strlit("...");
    }
    snippet
}

/// What stands in a log entry in place of a reply that leaked.
pub open spec fn redacted_placeholder() -> Seq<char> {
    "[REDACTED SENSITIVE DATA]"@
}

/// A cost in ten-thousandths of a dollar, rounded to the nearest, halves
/// up.  A ten-thousandth of a dollar is ten thousand cost units.
pub open spec fn ten_thousandths(cost: u128) -> nat {
    ((cost + 5_000) / 10_000) as nat
}

/// What is logged of a throttled turn: its cost in dollars, to four
/// decimal places.
pub open spec fn spec_cost_label(cost: u128) -> Seq<char> {
    "Cost: $"@ + decimal(ten_thousandths(cost) / 10_000) + "."@ + padded(
        ten_thousandths(cost) % 10_000,
        4,
    )
}

/// What is logged of a throttled turn.
pub fn cost_label(cost: u128) -> (label: String)
    ensures
        label@ == spec_cost_label(cost),
{
    let floor: u128 = cost / 10_000;
    let rounded: u128 = if cost % 10_000 >= 5_000 {
        floor + 1
    } else {
        floor
    };
    let mut label: String = String::from_str("Cost: $");
    let dollars: String = decimal_text(rounded / 10_000);
    label.append(dollars.as_str());
    label.append(".");
    let fraction: String = padded_text(rounded % 10_000, 4);
    label.append(fraction.as_str());
    label
}

/// The reply that stands in for a blocked request.
pub open spec fn spec_blocked_notice(reason: Reason) -> Seq<char> {
    "🚨 SENTINEL: Bloqueado. Motivo: "@ + reason.spec_label()
}

/// The reply that stands in for one that leaked.
pub open spec fn leak_notice() -> Seq<char> {
    "🛡️ SENTINEL: Bloqueado por filtración de datos."@
}

/// The reply that stands in for one that was throttled.
pub open spec fn throttle_notice() -> Seq<char> {
    "🛑 SENTINEL: Gasto excesivo detectado."@
}

/// The reply that stands in for a blocked request.
pub fn blocked_notice(reason: Reason) -> (notice: String)
    ensures
        notice@ == spec_blocked_notice(reason),
{
    let mut notice: String = String::from_str("🚨 SENTINEL: Bloqueado. Motivo: ");
    let label: String = reason.label();
    notice.append(label.as_str());
    notice
}

/// The entry that is logged when a prompt is blocked as part of a loop.
pub open spec fn loop_entry(
    timestamp: u64,
    session_id: Seq<char>,
    reason: Reason,
    prompt: Seq<char>,
) -> EntryView {
    EntryView {
        timestamp,
        session_id,
        reason,
        content_snippet: spec_snippet(prompt),
        savings_cents: reason.spec_savings_cents(),
    }
}

/// The entry that is logged when a reply leaked.  It holds a placeholder,
/// never a part of the reply.
pub open spec fn leak_entry(timestamp: u64, session_id: Seq<char>) -> EntryView {
    EntryView {
        timestamp,
        session_id,
        reason: Reason::DataLeak,
        content_snippet: redacted_placeholder(),
        savings_cents: Reason::DataLeak.spec_savings_cents(),
    }
}

/// The entry that is logged when a turn is throttled.
pub open spec fn throttle_entry(timestamp: u64, session_id: Seq<char>, cost: u128) -> EntryView {
    EntryView {
        timestamp,
        session_id,
        reason: Reason::CostSpike,
        content_snippet: spec_cost_label(cost),
        savings_cents: Reason::CostSpike.spec_savings_cents(),
    }
}

/// An intervention: what the caller is sent in place of the real reply, and
/// what is logged.
#[derive(Debug)]
pub struct Intervention {
    pub notice: String,
    pub entry: InterventionLog,
}

/// An intervention, as plain values.
pub struct InterventionView {
    pub notice: Seq<char>,
    pub entry: EntryView,
}

impl View for Intervention {
    type V = InterventionView;

    open spec fn view(&self) -> InterventionView {
        InterventionView { notice: self.notice@, entry: self.entry@ }
    }
}

/// The view of an intervention that may be missing.
pub open spec fn intervention_of(outcome: Option<Intervention>) -> Option<InterventionView> {
    match outcome {
        Some(i) => Some(i@),
        None => None,
    }
}

/// The intervention for a prompt that was found to be part of a loop.
pub open spec fn loop_intervention(
    timestamp: u64,
    session_id: Seq<char>,
    reason: Reason,
    prompt: Seq<char>,
) -> InterventionView {
    InterventionView {
        notice: spec_blocked_notice(reason),
        entry: loop_entry(timestamp, session_id, reason, prompt),
    }
}

/// The intervention for a reply that leaked.
pub open spec fn leak_intervention(timestamp: u64, session_id: Seq<char>) -> InterventionView {
    InterventionView { notice: leak_notice(), entry: leak_entry(timestamp, session_id) }
}

/// The intervention for a turn that is throttled.
pub open spec fn throttle_intervention(timestamp: u64, session_id: Seq<char>, cost: u128)
    -> InterventionView {
    InterventionView {
        notice: throttle_notice(),
        entry: throttle_entry(timestamp, session_id, cost),
    }
}

/// Builds the intervention for a prompt that was found to be part of a loop.
pub fn block_for_loop(timestamp: u64, session_id: &str, reason: Reason, prompt: &str) -> (blocked:
    Intervention)
    ensures
        blocked@ == loop_intervention(timestamp, session_id@, reason, prompt@),
{
    Intervention {
        notice: blocked_notice(reason),
        entry: InterventionLog {
            timestamp,
            session_id: session_id.to_owned(),
            reason,
            content_snippet: snippet_of(prompt),
            savings_cents: reason.savings_cents(),
        },
    }
}

/// Builds the intervention for a reply that leaked.
pub fn redact_leak(timestamp: u64, session_id: &str) -> (redacted: Intervention)
    ensures
        redacted@ == leak_intervention(timestamp, session_id@),
{
    Intervention {
        notice: String::from_str("🛡️ SENTINEL: Bloqueado por filtración de datos."),
        entry: InterventionLog {
            timestamp,
            session_id: session_id.to_owned(),
            reason: Reason::DataLeak,
            content_snippet: String::from_str("[REDACTED SENSITIVE DATA]"),
            savings_cents: Reason::DataLeak.savings_cents(),
        },
    }
}

/// Builds the intervention for a turn that is throttled.
pub fn throttle_turn(timestamp: u64, session_id: &str, cost: u128) -> (throttled: Intervention)
    ensures
        throttled@ == throttle_intervention(timestamp, session_id@, cost),
{
    Intervention {
        notice: String::from_str("🛑 SENTINEL: Gasto excesivo detectado."),
        entry: InterventionLog {
            timestamp,
            session_id: session_id.to_owned(),
            reason: Reason::CostSpike,
            content_snippet: cost_label(cost),
            savings_cents: Reason::CostSpike.savings_cents(),
        },
    }
}

} // verus!
