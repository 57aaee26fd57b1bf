//! The audit log: the latest interventions, oldest first.

use vstd::prelude::*;
use vstd::string::StringExecFns;
use std::collections::VecDeque;
use crate::window::{latest, lemma_window_keeps_latest, slide, slide_all};

verus! {

/// Number of entries that the audit log keeps.
pub const AUDIT_CAPACITY: usize = 50;

/// Why the proxy stepped in.
#[derive(Clone, Copy, Debug, PartialEq, Eq, Structural)]
pub enum Reason {
    /// The latest embeddings of the session are near-identical.
    SemanticLoop,
    /// The latest prompts of the session share most of their words.
    FuzzyLoop,
    /// The reply held a marker of sensitive data.
    DataLeak,
    /// The session has spent too much, or the cost of a turn jumped.
    CostSpike,
}

impl Reason {
    /// The label under which the reason is logged and shown.
    pub open spec fn spec_label(self) -> Seq<char> {
        match self {
            Reason::SemanticLoop => "Semantic Loop Detected (Vector Similarity)"@,
            Reason::FuzzyLoop => "Fuzzy Overlap Detected (String Repetition)"@,
            Reason::DataLeak => "Sensitive Data Leak (EchoLeak)"@,
            Reason::CostSpike => "Economic Throttling (Cost Spike)"@,
        }
    }

    /// The saving that one intervention for this reason is estimated at, in
    /// cents.
    pub open spec fn spec_savings_cents(self) -> u64 {
        match self {
            Reason::SemanticLoop => 50,
            Reason::FuzzyLoop => 50,
            Reason::DataLeak => 10,
            Reason::CostSpike => 100,
        }
    }

    /// The label under which the reason is logged and shown.
    pub fn label(&self) -> (text: String)
        ensures
            text@ == self.spec_label(),
    {
        match self {
            Reason::SemanticLoop => String::from_str("Semantic Loop Detected (Vector Similarity)"),
            Reason::FuzzyLoop => String::from_str("Fuzzy Overlap Detected (String Repetition)"),
            Reason::DataLeak => String::from_str("Sensitive Data Leak (EchoLeak)"),
            Reason::CostSpike => String::from_str("Economic Throttling (Cost Spike)"),
        }
    }

    /// The saving that one intervention for this reason is estimated at, in
    /// cents.
    pub fn savings_cents(&self) -> (cents: u64)
        ensures
            cents == self.spec_savings_cents(),
            cents > 0,
    {
        match self {
            Reason::SemanticLoop => 50,
            Reason::FuzzyLoop => 50,
            Reason::DataLeak => 10,
            Reason::CostSpike => 100,
        }
    }
}

/// One intervention, as it is logged.
#[derive(Debug)]
pub struct InterventionLog {
    /// Seconds since the Unix epoch at which the proxy stepped in.
    pub timestamp: u64,
    /// The session that the intervention was for.
    pub session_id: String,
    /// Why the proxy stepped in.
    pub reason: Reason,
    /// A short extract of what was blocked, or a placeholder for it.
    pub content_snippet: String,
    /// The estimated saving, in cents.
    pub savings_cents: u64,
}

/// An entry of the log, as plain values.
pub struct EntryView {
    pub timestamp: u64,
    pub session_id: Seq<char>,
    pub reason: Reason,
    pub content_snippet: Seq<char>,
    pub savings_cents: u64,
}

impl View for InterventionLog {
    type V = EntryView;

    open spec fn view(&self) -> EntryView {
        EntryView {
            timestamp: self.timestamp,
            session_id: self.session_id@,
            reason: self.reason,
            content_snippet: self.content_snippet@,
            savings_cents: self.savings_cents,
        }
    }
}

impl Clone for InterventionLog {
    fn clone(&self) -> (copy: Self)
        ensures
            copy == *self,
    {
        InterventionLog {
            timestamp: self.timestamp,
            session_id: self.session_id.clone(),
            reason: self.reason,
            content_snippet: self.content_snippet.clone(),
            savings_cents: self.savings_cents,
        }
    }
}

/// The latest [`AUDIT_CAPACITY`] interventions, oldest first.
pub struct AuditLog {
    entries: VecDeque<InterventionLog>,
}

impl AuditLog {
    #[verifier::type_invariant]
    spec fn within_capacity(self) -> bool {
        self.entries@.len() <= AUDIT_CAPACITY
    }

    /// The entries of the log, oldest first.
    pub closed spec fn view(&self) -> Seq<InterventionLog> {
        self.entries@
    }

    /// An empty log.
    pub fn new() -> (log: Self)
        ensures
            log@ == Seq::<InterventionLog>::empty(),
    {
        AuditLog { entries: VecDeque::new() }
    }

    /// Number of entries in the log, never more than [`AUDIT_CAPACITY`].
    pub fn len(&self) -> (n: usize)
        ensures
            n == self@.len(),
            n <= AUDIT_CAPACITY,
    {
        proof {
            use_type_invariant(self);
        }
        self.entries.len()
    }

    /// Appends `entry`; where the log is full its oldest entry leaves.
    pub fn append(&mut self, entry: InterventionLog)
        ensures
            final(self)@ == slide(old(self)@, entry, AUDIT_CAPACITY as nat),
            final(self)@.len() <= AUDIT_CAPACITY,
            final(self)@.last() == entry,
    {
        proof {
            use_type_invariant(&*self);
        }
        let mut entries: VecDeque<InterventionLog> = VecDeque::new();
        std::mem::swap(&mut entries, &mut self.entries);
        entries.push_back(entry);
        if entries.len() > AUDIT_CAPACITY {
            let _ = entries.pop_front();
        }
        self.entries = entries;
    }

    /// The entry at position `index`, counted from the oldest.
    pub fn get(&self, index: usize) -> (entry: Option<&InterventionLog>)
        ensures
            index < self@.len() ==> entry == Some(&self@[index as int]),
            index >= self@.len() ==> entry is None,
    {
        if index < self.entries.len() {
            Some(&self.entries[index])
        } else {
            None
        }
    }

    /// A copy of the entries, oldest first.
    pub fn snapshot(&self) -> (entries: Vec<InterventionLog>)
        ensures
            entries@ == self@,
    {
        let mut entries: Vec<InterventionLog> = Vec::new();
        let mut i: usize = 0;
        while i < self.entries.len()
            invariant
                i <= self.entries@.len(),
                entries@ == self.entries@.take(i as int),
            decreases self.entries@.len() - i,
        {
            entries.push(self.entries[i].clone());
            i = i + 1;
        }
        entries
    }
}

/// The entries of a log after each of `entries` has been appended in turn.
pub open spec fn appended_all(log: Seq<InterventionLog>, entries: Seq<InterventionLog>) -> Seq<
    InterventionLog,
> {
    slide_all(log, entries, AUDIT_CAPACITY as nat)
}

/// However many entries are appended, the log never holds more than
/// [`AUDIT_CAPACITY`] of them, and it holds the latest ones in their order.
pub proof fn lemma_log_keeps_latest(log: Seq<InterventionLog>, entries: Seq<InterventionLog>)
    requires
        log.len() <= AUDIT_CAPACITY,
    ensures
        appended_all(log, entries).len() <= AUDIT_CAPACITY,
        appended_all(log, entries) == latest(log + entries, AUDIT_CAPACITY as nat),
{
    lemma_window_keeps_latest(log, entries, AUDIT_CAPACITY as nat);
}

/// After fifty-one appends to an empty log, the log holds the second to the
/// fifty-first entry: the fifty-first stands last, and the first is held at
/// no position, so it is gone unless a later entry equals it.
pub proof fn lemma_fifty_first_append_evicts_first(entries: Seq<InterventionLog>)
    requires
        entries.len() == AUDIT_CAPACITY + 1,
    ensures
        appended_all(Seq::empty(), entries) == entries.subrange(1, AUDIT_CAPACITY + 1),
        appended_all(Seq::empty(), entries).len() == AUDIT_CAPACITY,
        appended_all(Seq::empty(), entries).last() == entries[AUDIT_CAPACITY as int],
        (forall|i: int| 1 <= i <= AUDIT_CAPACITY ==> #[trigger] entries[i] != entries[0]) ==> !appended_all(
            Seq::empty(),
            entries,
        ).contains(entries[0]),
{
    lemma_window_keeps_latest(Seq::<InterventionLog>::empty(), entries, AUDIT_CAPACITY as nat);
}

} // verus!
