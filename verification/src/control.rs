//! Read-only queries on the state of the proxy, and the dispatch of
//! control-plane calls by the name of their method.

use vstd::prelude::*;
use vstd::string::StringExecFns;
use crate::registry::{SessionRegistry, SessionTotals};
use crate::savings::SavingsCounter;
use crate::text::same_text;

verus! {

/// How the proxy is doing.
#[derive(Clone, Copy, Debug, PartialEq, Eq, Structural)]
pub enum Health {
    Healthy,
}

impl Health {
    /// The word under which the state is reported.
    pub fn label(&self) -> (text: String)
        ensures
            text@ == "Healthy"@,
    {
        String::from_str("Healthy")
    }
}

/// The figures of the proxy at one moment.
#[derive(Clone, Copy, Debug, PartialEq, Eq, Structural)]
pub struct Stats {
    /// Number of sessions.
    pub active_sessions: usize,
    /// Estimated savings of all interventions, in cents.
    pub total_saved_cents: u64,
    /// Number of interventions over all sessions.
    pub interventions: u64,
    /// How the proxy is doing.
    pub status: Health,
}

/// The figures of the proxy, each read at its own moment.
pub fn stats(registry: &SessionRegistry, savings: &SavingsCounter) -> (figures: Stats)
    ensures
        figures.status == Health::Healthy,
{
    Stats {
        active_sessions: registry.active_sessions(),
        total_saved_cents: savings.total_cents(),
        interventions: registry.total_interventions(),
        status: Health::Healthy,
    }
}

/// A method of the control plane.
#[derive(Clone, Copy, Debug, PartialEq, Eq, Structural)]
pub enum Method {
    /// The figures of the proxy.
    Stats,
    /// The totals of one session.
    AuditSession,
    /// Any name that stands for no method.
    Unknown,
}

/// The method that a name stands for.
pub open spec fn spec_method(name: Seq<char>) -> Method {
    if name == "get_sentinel_stats"@ {
        Method::Stats
    } else if name == "audit_session"@ {
        Method::AuditSession
    } else {
        Method::Unknown
    }
}

/// The method that a name stands for.
pub fn parse_method(name: &str) -> (method: Method)
    ensures
        method == spec_method(name@),
{
    if same_text(name, "get_sentinel_stats") {
        Method::Stats
    } else if same_text(name, "audit_session") {
        Method::AuditSession
    } else {
        Method::Unknown
    }
}

/// The session that an audit is about: the one that the call names, and
/// "default" where it names none.
pub open spec fn audited_session(session_id: Option<&str>) -> Seq<char> {
    match session_id {
        Some(id) => id@,
        None => "default"@,
    }
}

/// The answer to a control-plane call.
#[derive(Debug)]
pub enum ControlReply {
    /// The figures of the proxy.
    Stats { active_sessions: usize, total_saved_cents: u64, status: Health },
    /// The totals of the session that was asked for.
    Session { session_id: String, totals: SessionTotals },
    /// The session that was asked for is not known.
    SessionNotFound,
    /// The name of the method stands for none.
    MethodNotFound,
}

/// Answers a control-plane call.  A name that stands for no method and a
/// session that is not known are answered as such; neither is a failure.
pub fn dispatch(
    registry: &SessionRegistry,
    savings: &SavingsCounter,
    method: &str,
    session_id: Option<&str>,
) -> (reply: ControlReply)
    ensures
        match spec_method(method@) {
            Method::Stats => reply is Stats,
            Method::AuditSession => reply is SessionNotFound || (reply matches ControlReply::Session {
                session_id: id,
                ..
            } && id@ == audited_session(session_id)),
            Method::Unknown => reply is MethodNotFound,
        },
{
    match parse_method(method) {
        Method::Stats => ControlReply::Stats {
            active_sessions: registry.active_sessions(),
            total_saved_cents: savings.total_cents(),
            status: Health::Healthy,
        },
        Method::AuditSession => {
            let id: &str = match session_id {
                Some(id) => id,
                None => "default",
            };
            match registry.audit_session(id) {
                Some(totals) => ControlReply::Session { session_id: id.to_owned(), totals },
                None => ControlReply::SessionNotFound,
            }
        },
        Method::Unknown => ControlReply::MethodNotFound,
    }
}

} // verus!
