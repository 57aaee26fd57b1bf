use sentinel::audit::Reason;
use sentinel::policy::{COST_CEILING, WINDOW};
use sentinel::scorer::Embedding;
use sentinel::session::SessionState;

fn unit(axis: usize) -> Embedding {
    let mut v = vec![0; 8];
    v[axis] = 1_000_000;
    Embedding(v)
}

fn dollars(x: f64) -> u128 {
    (x * 100_000_000.0).round() as u128
}

#[test]
fn new_session_is_empty() {
    let s = SessionState::new();
    assert_eq!(s.history_len(), 0);
    assert_eq!(s.text_len(), 0);
    assert_eq!(s.cumulative_cost(), 0);
    assert_eq!(s.last_cost(), 0);
    assert_eq!(s.interventions(), 0);
}

#[test]
fn embedding_window_never_exceeds_five() {
    let mut s = SessionState::new();
    for i in 0..40 {
        s.check_loop(unit(i % 8), 200_000, 3);
        assert!(s.history_len() <= WINDOW);
        assert_eq!(s.history_len(), std::cmp::min(i + 1, 5));
    }
}

#[test]
fn sixth_push_evicts_the_oldest() {
    let mut s = SessionState::new();
    for axis in 0..6 {
        s.check_loop(unit(axis), 200_000, 3);
    }
    let kept: Vec<Vec<i32>> = s.history().iter().map(|e| e.0.clone()).collect();
    assert_eq!(kept.len(), 5);
    assert!(!kept.contains(&unit(0).0));
    for axis in 1..6 {
        assert_eq!(kept[axis - 1], unit(axis).0);
    }
}

#[test]
fn text_window_never_exceeds_five() {
    let mut s = SessionState::new();
    for i in 0..12 {
        s.check_basic_loop(format!("prompt number {}", i), 800_000, 3);
        assert!(s.text_len() <= WINDOW);
    }
    let kept: Vec<String> = s.history_text().clone();
    assert_eq!(kept.len(), 5);
    assert_eq!(kept[0], "prompt number 7");
    assert_eq!(kept[4], "prompt number 11");
}

#[test]
fn semantic_loop_on_third_of_three_near_identical() {
    let mut s = SessionState::new();
    assert_eq!(s.check_loop(Embedding(vec![1_000_000, 0]), 200_000, 3), false);
    assert_eq!(s.check_loop(Embedding(vec![999_000, 44_000]), 200_000, 3), false);
    assert_eq!(s.check_loop(Embedding(vec![998_000, 63_000]), 200_000, 3), true);
}

#[test]
fn semantic_loop_needs_every_adjacent_pair() {
    // first and second are far apart, second and third identical
    let mut s = SessionState::new();
    assert_eq!(s.check_loop(unit(0), 200_000, 3), false);
    assert_eq!(s.check_loop(unit(1), 200_000, 3), false);
    assert_eq!(s.check_loop(unit(1), 200_000, 3), false);
    // now the last three are: unit(1), unit(1), unit(1)
    assert_eq!(s.check_loop(unit(1), 200_000, 3), true);
    // a distant one at the end breaks it
    assert_eq!(s.check_loop(unit(2), 200_000, 3), false);
    // one distant pair in the middle of the last three
    assert_eq!(s.check_loop(unit(2), 200_000, 3), false);
    assert_eq!(s.check_loop(unit(2), 200_000, 3), true);
}

#[test]
fn semantic_bound_is_inclusive() {
    // similarity exactly 0.8 with threshold 0.2
    let mut s = SessionState::new();
    assert_eq!(s.check_loop(Embedding(vec![1_000_000]), 200_000, 2), false);
    assert_eq!(s.check_loop(Embedding(vec![800_000]), 200_000, 2), true);
    let mut t = SessionState::new();
    assert_eq!(t.check_loop(Embedding(vec![1_000_000]), 200_000, 2), false);
    assert_eq!(t.check_loop(Embedding(vec![799_999]), 200_000, 2), false);
}

#[test]
fn embeddings_of_unequal_length_are_not_similar() {
    let mut s = SessionState::new();
    assert_eq!(s.check_loop(Embedding(vec![1_000_000, 0]), 200_000, 2), false);
    assert_eq!(s.check_loop(Embedding(vec![1_000_000]), 200_000, 2), false);
}

#[test]
fn turns_of_one_or_none_need_no_pair() {
    let mut s = SessionState::new();
    assert_eq!(s.check_loop(unit(0), 200_000, 1), true);
    assert_eq!(s.check_loop(unit(1), 200_000, 0), true);
}

#[test]
fn more_turns_than_the_window_never_loop() {
    let mut s = SessionState::new();
    for _ in 0..10 {
        assert_eq!(s.check_loop(unit(0), 200_000, 6), false);
    }
    assert_eq!(s.check_loop(unit(0), 200_000, 5), true);
}

#[test]
fn fuzzy_loop_on_third_of_three_similar_prompts() {
    let mut s = SessionState::new();
    assert_eq!(s.check_basic_loop("please fix the bug".to_string(), 800_000, 3), false);
    assert_eq!(s.check_basic_loop("Please fix the bug now".to_string(), 800_000, 3), false);
    assert_eq!(s.check_basic_loop("fix the bug please".to_string(), 800_000, 3), true);
}

#[test]
fn fuzzy_loop_needs_every_adjacent_pair() {
    let mut s = SessionState::new();
    assert_eq!(s.check_basic_loop("alpha beta gamma".to_string(), 800_000, 3), false);
    assert_eq!(s.check_basic_loop("one two three four five six".to_string(), 800_000, 3), false);
    assert_eq!(s.check_basic_loop("one two three four five six".to_string(), 800_000, 3), false);
    assert_eq!(s.check_basic_loop("one two three four five six".to_string(), 800_000, 3), true);
}

#[test]
fn throttle_trips_over_the_ceiling_whatever_the_turn_costs() {
    let mut s = SessionState::new();
    s.commit_cost(COST_CEILING);
    assert_eq!(s.check_economic_throttle(0), false);
    s.commit_cost(1);
    assert_eq!(s.cumulative_cost(), COST_CEILING + 1);
    assert_eq!(s.check_economic_throttle(0), true);
    assert_eq!(s.check_economic_throttle(1), true);
    assert_eq!(s.check_economic_throttle(u128::MAX), true);
}

#[test]
fn throttle_trips_on_a_spike_above_the_floor() {
    let mut s = SessionState::new();
    s.commit_cost(dollars(0.01));
    assert_eq!(s.check_economic_throttle(dollars(0.15)), true);
    assert_eq!(s.check_economic_throttle(dollars(0.04)), false);
}

#[test]
fn throttle_spike_edges() {
    let mut s = SessionState::new();
    // nothing spent on the turn before: no spike, however dear the turn
    assert_eq!(s.check_economic_throttle(dollars(5.0)), false);
    s.commit_cost(dollars(0.03));
    // exactly five times the last cost is no spike
    assert_eq!(s.check_economic_throttle(dollars(0.15)), false);
    assert_eq!(s.check_economic_throttle(dollars(0.15) + 1), true);
    let mut t = SessionState::new();
    t.commit_cost(dollars(0.001));
    // more than five times, but at the floor and not above it
    assert_eq!(t.check_economic_throttle(dollars(0.10)), false);
    assert_eq!(t.check_economic_throttle(dollars(0.10) + 1), true);
    let mut u = SessionState::new();
    u.commit_cost(u128::MAX / 4);
    assert_eq!(u.last_cost(), u128::MAX / 4);
}

#[test]
fn check_does_not_commit() {
    let mut s = SessionState::new();
    s.commit_cost(dollars(0.01));
    let _ = s.check_economic_throttle(dollars(0.15));
    assert_eq!(s.cumulative_cost(), dollars(0.01));
    assert_eq!(s.last_cost(), dollars(0.01));
}

#[test]
fn commit_adds_up_and_keeps_the_last_cost() {
    let mut s = SessionState::new();
    s.commit_cost(7);
    s.commit_cost(5);
    assert_eq!(s.cumulative_cost(), 12);
    assert_eq!(s.last_cost(), 5);
    s.commit_cost(u128::MAX);
    assert_eq!(s.cumulative_cost(), u128::MAX);
    s.commit_cost(3);
    assert_eq!(s.cumulative_cost(), u128::MAX);
    assert_eq!(s.last_cost(), 3);
}

#[test]
fn settle_judges_by_the_state_before_and_always_commits() {
    let mut s = SessionState::new();
    assert_eq!(s.settle_turn(dollars(0.01)), false);
    assert_eq!(s.settle_turn(dollars(0.15)), true);
    assert_eq!(s.cumulative_cost(), dollars(0.16));
    assert_eq!(s.last_cost(), dollars(0.15));
    assert_eq!(s.interventions(), 1);
    assert_eq!(s.settle_turn(dollars(10.0)), true);
    assert_eq!(s.interventions(), 2);
    // over the ceiling now: even a free turn is throttled
    assert_eq!(s.settle_turn(0), true);
    assert_eq!(s.interventions(), 3);
}

#[test]
fn detect_loop_tries_semantic_first() {
    let mut s = SessionState::new();
    assert_eq!(s.detect_loop(Some(unit(0)), "same words here".to_string()), None);
    assert_eq!(s.detect_loop(Some(unit(0)), "same words here".to_string()), None);
    assert_eq!(
        s.detect_loop(Some(unit(0)), "same words here".to_string()),
        Some(Reason::SemanticLoop)
    );
    // the prompt of the blocked turn did not enter the window of prompts
    assert_eq!(s.history_len(), 3);
    assert_eq!(s.text_len(), 2);
    assert_eq!(s.interventions(), 1);
}

#[test]
fn detect_loop_falls_back_to_fuzzy_without_embedding() {
    let mut s = SessionState::new();
    assert_eq!(s.detect_loop(None, "tell me a joke".to_string()), None);
    assert_eq!(s.detect_loop(None, "tell me a joke".to_string()), None);
    assert_eq!(s.detect_loop(None, "Tell me a JOKE".to_string()), Some(Reason::FuzzyLoop));
    assert_eq!(s.history_len(), 0);
    assert_eq!(s.text_len(), 3);
    assert_eq!(s.interventions(), 1);
}

#[test]
fn detect_loop_fuzzy_after_semantic_did_not_fire() {
    let mut s = SessionState::new();
    assert_eq!(s.detect_loop(Some(unit(0)), "tell me a joke".to_string()), None);
    assert_eq!(s.detect_loop(Some(unit(1)), "tell me a joke".to_string()), None);
    assert_eq!(s.detect_loop(Some(unit(2)), "tell me a joke".to_string()), Some(Reason::FuzzyLoop));
}

#[test]
fn totals_report_cost_and_interventions() {
    let mut s = SessionState::new();
    assert_eq!(s.totals().cumulative_cost, 0);
    assert_eq!(s.totals().interventions, 0);
    assert_eq!(s.settle_turn(dollars(0.01)), false);
    assert_eq!(s.settle_turn(dollars(0.15)), true);
    assert_eq!(s.totals().cumulative_cost, dollars(0.16));
    assert_eq!(s.totals().interventions, 1);
}
