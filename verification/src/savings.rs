//! The money saved by interventions, counted in cents and shared by all
//! requests.
//!
//! The count is read and raised through shared references, by this request
//! and by others at once, so no contract here speaks of where it stands.

use vstd::prelude::*;
use std::sync::atomic::AtomicU64;
use std::sync::atomic::Ordering;
use crate::audit::{AuditLog, InterventionLog, AUDIT_CAPACITY};
use crate::window::slide;

verus! {

/// Number of cents in one dollar.
pub const CENTS_PER_DOLLAR: u64 = 100;

/// A count of cents that many requests raise at once, without a lock.
pub struct SavingsCounter {
    cents: AtomicU64,
}

impl SavingsCounter {
    /// A counter that stands at zero.
    pub fn new() -> (counter: Self) {
        SavingsCounter { cents: AtomicU64::new(0) }
    }

    /// Raises the count by `cents`.  Other requests may raise it at the same
    /// moment, so nothing is said here of where it stands afterwards.
    pub fn add(&self, cents: u64) {
        let _ = self.cents.fetch_add(cents, Ordering::Relaxed);
    }

    /// Where the count stands at the moment of the call.
    pub fn total_cents(&self) -> (total: u64) {
        self.cents.load(Ordering::Relaxed)
    }
}

/// Splits a count of cents into whole dollars and the cents left over.
pub fn dollars_and_cents(total_cents: u64) -> (parts: (u64, u64))
    ensures
        parts.0 * CENTS_PER_DOLLAR + parts.1 == total_cents,
        parts.1 < CENTS_PER_DOLLAR,
{
    (total_cents / CENTS_PER_DOLLAR, total_cents % CENTS_PER_DOLLAR)
}

/// Records an intervention: the entry goes to the log, and the counter is
/// raised once by what the entry is estimated to save.
pub fn record_intervention(savings: &SavingsCounter, log: &mut AuditLog, entry: InterventionLog)
    ensures
        final(log)@ == slide(old(log)@, entry, AUDIT_CAPACITY as nat),
        final(log)@.len() <= AUDIT_CAPACITY,
        final(log)@.last() == entry,
{
    if entry.savings_cents > 0 {
        savings.add(entry.savings_cents);
    }
    log.append(entry);
}

} // verus!
