use sentinel::audit::{AuditLog, Reason};
use sentinel::control::{dispatch, parse_method, stats, ControlReply, Health, Method};
use sentinel::pipeline::{Relay, Upstream, UpstreamReply, Usage};
use sentinel::registry::{sum_counts, SessionRegistry, SessionTotals};
use sentinel::savings::{record_intervention, SavingsCounter};
use sentinel::scorer::Embedding;

fn answered(content: &str, prompt_tokens: u64, completion_tokens: u64) -> Upstream {
    Upstream::Answered {
        status: 200,
        reply: UpstreamReply {
            content: Some(content.to_string()),
            usage: Some(Usage {
                prompt_tokens: Some(prompt_tokens),
                completion_tokens: Some(completion_tokens),
            }),
        },
    }
}

#[test]
fn sessions_are_created_on_first_use() {
    let registry = SessionRegistry::new();
    assert_eq!(registry.active_sessions(), 0);
    assert_eq!(registry.audit_session("alice"), None);
    assert!(registry.screen(1, "alice", None, "hello").is_none());
    assert_eq!(registry.active_sessions(), 1);
    assert_eq!(
        registry.audit_session("alice"),
        Some(SessionTotals { cumulative_cost: 0, interventions: 0 })
    );
    assert!(registry.screen(2, "bob", None, "hello").is_none());
    assert!(registry.screen(3, "alice", None, "something else entirely").is_none());
    assert_eq!(registry.active_sessions(), 2);
}

#[test]
fn sessions_do_not_share_their_windows() {
    let registry = SessionRegistry::new();
    assert!(registry.screen(1, "alice", None, "repeat after me").is_none());
    assert!(registry.screen(2, "bob", None, "repeat after me").is_none());
    assert!(registry.screen(3, "alice", None, "repeat after me").is_none());
    assert!(registry.screen(4, "bob", None, "repeat after me").is_none());
    let blocked = registry.screen(5, "alice", None, "repeat after me").unwrap();
    assert_eq!(blocked.entry.session_id, "alice");
    assert_eq!(blocked.entry.reason, Reason::FuzzyLoop);
    assert_eq!(registry.audit_session("alice").unwrap().interventions, 1);
    assert_eq!(registry.audit_session("bob").unwrap().interventions, 0);
}

#[test]
fn three_near_identical_requests_block_the_third_and_save_once() {
    let registry = SessionRegistry::new();
    let savings = SavingsCounter::new();
    let mut log = AuditLog::new();
    let prompts = [
        "please summarise this document for me",
        "Please summarise this document for me",
        "please summarise this document for me now",
    ];
    let mut forwarded = 0;
    let mut totals = vec![savings.total_cents()];
    for (turn, prompt) in prompts.iter().enumerate() {
        match registry.screen(100 + turn as u64, "alice", None, prompt) {
            Some(blocked) => {
                assert_eq!(turn, 2);
                assert_eq!(blocked.entry.reason, Reason::FuzzyLoop);
                record_intervention(&savings, &mut log, blocked.entry);
            }
            None => {
                forwarded += 1;
                let relay = registry.conclude(100 + turn as u64, "alice", &answered("ok", 10, 10));
                assert!(matches!(relay, Relay::AsReceived));
            }
        }
        totals.push(savings.total_cents());
    }
    assert_eq!(forwarded, 2);
    assert_eq!(totals, vec![0, 0, 0, 50]);
    let rises = totals.windows(2).filter(|w| w[1] > w[0]).count();
    assert_eq!(rises, 1);
    assert_eq!(log.len(), 1);
    assert_eq!(log.get(0).unwrap().session_id, "alice");
    assert_eq!(log.get(0).unwrap().timestamp, 102);
    // nothing was spent on the blocked turn
    assert_eq!(registry.audit_session("alice").unwrap().cumulative_cost, 2 * (10 * 15 + 10 * 60));
}

#[test]
fn three_near_identical_embeddings_block_the_third() {
    let registry = SessionRegistry::new();
    let e = || Some(Embedding(vec![600_000, 800_000]));
    assert!(registry.screen(1, "s", e(), "one").is_none());
    assert!(registry.screen(2, "s", e(), "two entirely different words").is_none());
    let blocked = registry.screen(3, "s", e(), "three is again unlike the others").unwrap();
    assert_eq!(blocked.entry.reason, Reason::SemanticLoop);
    assert_eq!(blocked.entry.content_snippet, "three is again unlike the others...");
}

#[test]
fn leaked_reply_is_always_rewritten() {
    let registry = SessionRegistry::new();
    // a session that is not known yet
    match registry.conclude(7, "ghost", &answered("API_KEY=abc", 1, 1)) {
        Relay::Rewritten(i) => {
            assert_eq!(i.entry.content_snippet, "[REDACTED SENSITIVE DATA]");
            assert_eq!(i.entry.session_id, "ghost");
        }
        _ => panic!("a leak passed"),
    }
    assert_eq!(registry.active_sessions(), 0);
    // a session that is known
    assert!(registry.screen(1, "alice", None, "hello").is_none());
    match registry.conclude(8, "alice", &answered("the API_KEY=abc is here", 1, 1)) {
        Relay::Rewritten(i) => {
            assert_eq!(i.entry.content_snippet, "[REDACTED SENSITIVE DATA]");
            assert_eq!(i.entry.reason, Reason::DataLeak);
            assert_eq!(i.entry.timestamp, 8);
        }
        _ => panic!("a leak passed"),
    }
    assert_eq!(
        registry.audit_session("alice"),
        Some(SessionTotals { cumulative_cost: 0, interventions: 1 })
    );
}

#[test]
fn conclude_commits_cost_and_throttles_spikes() {
    let registry = SessionRegistry::new();
    assert!(registry.screen(1, "alice", None, "hello").is_none());
    assert!(matches!(registry.conclude(1, "alice", &answered("ok", 0, 16_667)), Relay::AsReceived));
    match registry.conclude(2, "alice", &answered("ok", 1_000_000, 0)) {
        Relay::Rewritten(i) => assert_eq!(i.entry.reason, Reason::CostSpike),
        _ => panic!("a spike passed"),
    }
    assert_eq!(
        registry.audit_session("alice"),
        Some(SessionTotals { cumulative_cost: 16_667 * 60 + 15_000_000, interventions: 1 })
    );
}

#[test]
fn failures_leave_the_session_alone() {
    let registry = SessionRegistry::new();
    assert!(registry.screen(1, "alice", None, "hello").is_none());
    assert!(matches!(registry.conclude(2, "alice", &Upstream::Unreachable), Relay::ProxyFailure));
    let refused = Upstream::Answered {
        status: 429,
        reply: UpstreamReply { content: Some("API_KEY=x".to_string()), usage: None },
    };
    assert!(matches!(registry.conclude(3, "alice", &refused), Relay::AsReceived));
    assert_eq!(
        registry.audit_session("alice"),
        Some(SessionTotals { cumulative_cost: 0, interventions: 0 })
    );
}

#[test]
fn interventions_are_summed_over_sessions() {
    let registry = SessionRegistry::new();
    assert_eq!(registry.total_interventions(), 0);
    for id in ["a", "b", "c"] {
        for turn in 0..4 {
            let _ = registry.screen(turn, id, None, "again and again");
        }
    }
    // each session was blocked on its third and on its fourth turn
    assert_eq!(registry.total_interventions(), 6);
}

#[test]
fn sum_counts_saturates() {
    assert_eq!(sum_counts(&vec![]), 0);
    assert_eq!(sum_counts(&vec![1, 2, 3]), 6);
    assert_eq!(sum_counts(&vec![u32::MAX, u32::MAX]), 2 * (u32::MAX as u64));
}

#[test]
fn registry_is_used_through_a_shared_reference() {
    let registry = std::sync::Arc::new(SessionRegistry::new());
    let other = registry.clone();
    assert!(registry.screen(1, "alice", None, "hello").is_none());
    assert!(other.screen(2, "bob", None, "hello").is_none());
    assert_eq!(registry.active_sessions(), 2);
    assert_eq!(other.active_sessions(), 2);
}

#[test]
fn method_names() {
    assert_eq!(parse_method("get_sentinel_stats"), Method::Stats);
    assert_eq!(parse_method("audit_session"), Method::AuditSession);
    assert_eq!(parse_method("audit_sessions"), Method::Unknown);
    assert_eq!(parse_method(""), Method::Unknown);
    assert_eq!(Health::Healthy.label(), "Healthy");
}

#[test]
fn dispatch_answers_every_call() {
    let registry = SessionRegistry::new();
    let savings = SavingsCounter::new();
    savings.add(150);
    assert!(registry.screen(1, "alice", None, "hello").is_none());
    assert!(registry.screen(1, "default", None, "hello").is_none());

    match dispatch(&registry, &savings, "get_sentinel_stats", None) {
        ControlReply::Stats { active_sessions, total_saved_cents, status } => {
            assert_eq!(active_sessions, 2);
            assert_eq!(total_saved_cents, 150);
            assert_eq!(status, Health::Healthy);
        }
        _ => panic!("no stats"),
    }
    match dispatch(&registry, &savings, "audit_session", Some("alice")) {
        ControlReply::Session { session_id, totals } => {
            assert_eq!(session_id, "alice");
            assert_eq!(totals, SessionTotals { cumulative_cost: 0, interventions: 0 });
        }
        _ => panic!("no session"),
    }
    match dispatch(&registry, &savings, "audit_session", None) {
        ControlReply::Session { session_id, .. } => assert_eq!(session_id, "default"),
        _ => panic!("no session"),
    }
    assert!(matches!(
        dispatch(&registry, &savings, "audit_session", Some("nobody")),
        ControlReply::SessionNotFound
    ));
    assert!(matches!(
        dispatch(&registry, &savings, "drop_tables", Some("alice")),
        ControlReply::MethodNotFound
    ));
}

#[test]
fn stats_report_all_figures() {
    let registry = SessionRegistry::new();
    let savings = SavingsCounter::new();
    for turn in 0..3 {
        if let Some(blocked) = registry.screen(turn, "alice", None, "same old prompt") {
            savings.add(blocked.entry.savings_cents);
        }
    }
    let figures = stats(&registry, &savings);
    assert_eq!(figures.active_sessions, 1);
    assert_eq!(figures.total_saved_cents, 50);
    assert_eq!(figures.interventions, 1);
    assert_eq!(figures.status, Health::Healthy);
}
