//! The constants of the intervention policy.

use vstd::prelude::*;

verus! {

/// Number of turns that each rolling window of a session keeps.
pub const WINDOW: usize = 5;

/// Number of consecutive near-identical turns that make a loop.
pub const LOOP_TURNS: usize = 3;

/// How far below one the similarity of two consecutive embeddings may fall
/// within a semantic loop, in millionths (0.20).
pub const SEMANTIC_THRESHOLD: i32 = 200_000;

/// How far below one the word overlap of two consecutive prompts may fall
/// within a fuzzy loop, in millionths (0.80).
pub const FUZZY_THRESHOLD: i32 = 800_000;

/// Cumulative cost of a session above which every turn is throttled, in
/// cost units (ten dollars).
pub const COST_CEILING: u128 = 1_000_000_000;

/// A turn is a spike only if it costs more than this many times the turn
/// before it.
pub const SPIKE_FACTOR: u128 = 5;

/// A turn is a spike only if it costs more than this, in cost units (ten
/// cents).
pub const SPIKE_FLOOR: u128 = 10_000_000;

/// Price of one prompt token, in cost units.
pub const PROMPT_TOKEN_COST: u128 = 15;

/// Price of one completion token, in cost units.
pub const COMPLETION_TOKEN_COST: u128 = 60;

} // verus!
