//! The state of one conversation: its two rolling windows, what it has
//! spent, and how often the proxy has stepped in.

use vstd::prelude::*;
use crate::audit::Reason;
use crate::detector::{ends_in_fuzzy_run, ends_in_semantic_run, fuzzy_run, semantic_run, vectors_of};
use crate::policy::{
    COST_CEILING, FUZZY_THRESHOLD, LOOP_TURNS, SEMANTIC_THRESHOLD, SPIKE_FACTOR, SPIKE_FLOOR,
    WINDOW,
};
use crate::registry::SessionTotals;
use crate::scorer::{text_similarity, texts_of, vector_similarity, Embedding};
use crate::units::SCALE;
use crate::window::{latest, lemma_window_keeps_latest, push_bounded, slide, slide_all};

verus! {

/// What a session holds, as plain values.
pub struct SessionView {
    /// The latest embeddings, oldest first.
    pub history: Seq<Seq<i32>>,
    /// The latest prompts, oldest first.
    pub texts: Seq<Seq<char>>,
    /// What all turns so far have cost, in cost units.
    pub cumulative_cost: u128,
    /// What the latest completed turn has cost, in cost units.
    pub last_cost: u128,
    /// How often the proxy has stepped in for this session.
    pub interventions: u32,
}

/// The state of one conversation.
#[derive(Debug)]
pub struct SessionState {
    history: Vec<Embedding>,
    history_text: Vec<String>,
    cumulative_cost: u128,
    last_cost: u128,
    interventions: u32,
}

/// What an audit reports of a session.
pub open spec fn spec_totals(s: SessionView) -> SessionTotals {
    SessionTotals { cumulative_cost: s.cumulative_cost, interventions: s.interventions }
}

/// A session that has seen nothing and spent nothing.
pub open spec fn fresh() -> SessionView {
    SessionView {
        history: Seq::empty(),
        texts: Seq::empty(),
        cumulative_cost: 0,
        last_cost: 0,
        interventions: 0,
    }
}

/// The vector of an embedding that may be missing.
pub open spec fn vector_of(embedding: Option<Embedding>) -> Option<Seq<i32>> {
    match embedding {
        Some(e) => Some(e@),
        None => None,
    }
}

/// The sum of two costs, held at the largest cost that can be counted.
pub open spec fn capped_sum(a: u128, b: u128) -> u128 {
    if a + b > u128::MAX {
        u128::MAX
    } else {
        (a + b) as u128
    }
}

/// A count raised by one, held at the largest count that can be kept.
pub open spec fn bumped(count: u32) -> u32 {
    if count == u32::MAX {
        count
    } else {
        (count + 1) as u32
    }
}

/// Whether the throttle trips for a turn that costs `current`, in a session
/// that has spent `cumulative` before it and `last` on the turn before: the
/// session is over the ceiling, or the turn is a spike.
pub open spec fn throttle_trips(cumulative: u128, last: u128, current: u128) -> bool {
    ||| cumulative > COST_CEILING
    ||| (last > 0 && current > last * SPIKE_FACTOR && current > SPIKE_FLOOR)
}

/// The session after an embedding has arrived.
pub open spec fn with_embedding(s: SessionView, embedding: Seq<i32>) -> SessionView {
    SessionView { history: slide(s.history, embedding, WINDOW as nat), ..s }
}

/// The session after a prompt has arrived.
pub open spec fn with_text(s: SessionView, text: Seq<char>) -> SessionView {
    SessionView { texts: slide(s.texts, text, WINDOW as nat), ..s }
}

/// The session after one more intervention.
pub open spec fn with_intervention(s: SessionView) -> SessionView {
    SessionView { interventions: bumped(s.interventions), ..s }
}

/// The session after a turn that cost `cost` has been committed.
pub open spec fn with_cost(s: SessionView, cost: u128) -> SessionView {
    SessionView { cumulative_cost: capped_sum(s.cumulative_cost, cost), last_cost: cost, ..s }
}

/// Whether the semantic detector fires on a turn: there is an embedding, and
/// with it the window of embeddings ends in a semantic loop.
pub open spec fn semantic_fires(s: SessionView, embedding: Option<Seq<i32>>) -> bool {
    embedding matches Some(e) && semantic_run(
        with_embedding(s, e).history,
        SEMANTIC_THRESHOLD,
        LOOP_TURNS,
    )
}

/// Whether the fuzzy detector fires on a turn: with the prompt the window of
/// prompts ends in a fuzzy loop.
pub open spec fn fuzzy_fires(s: SessionView, text: Seq<char>) -> bool {
    fuzzy_run(with_text(s, text).texts, FUZZY_THRESHOLD, LOOP_TURNS)
}

/// What the loop check of one turn finds.  The semantic detector goes first;
/// the fuzzy one is asked only if the semantic one did not fire.
pub open spec fn loop_verdict(s: SessionView, embedding: Option<Seq<i32>>, text: Seq<char>)
    -> Option<Reason> {
    if semantic_fires(s, embedding) {
        Some(Reason::SemanticLoop)
    } else if fuzzy_fires(s, text) {
        Some(Reason::FuzzyLoop)
    } else {
        None
    }
}

/// The session after the loop check of one turn.  An embedding that is there
/// enters its window.  The prompt enters its window only if the semantic
/// detector did not fire.  A loop counts as one intervention.
pub open spec fn after_loop_check(s: SessionView, embedding: Option<Seq<i32>>, text: Seq<char>)
    -> SessionView {
    let seen = match embedding {
        Some(e) => with_embedding(s, e),
        None => s,
    };
    if semantic_fires(s, embedding) {
        with_intervention(seen)
    } else if fuzzy_fires(s, text) {
        with_intervention(with_text(seen, text))
    } else {
        with_text(seen, text)
    }
}

/// The session after a turn has been settled: its cost is committed, and a
/// tripped throttle counts as one intervention.
pub open spec fn after_settle(s: SessionView, cost: u128) -> SessionView {
    if throttle_trips(s.cumulative_cost, s.last_cost, cost) {
        with_intervention(with_cost(s, cost))
    } else {
        with_cost(s, cost)
    }
}

impl SessionState {
    #[verifier::type_invariant]
    spec fn windows_bounded(self) -> bool {
        &&& self.history@.len() <= WINDOW
        &&& self.history_text@.len() <= WINDOW
    }

    /// The session as plain values.
    pub closed spec fn view(&self) -> SessionView {
        SessionView {
            history: vectors_of(self.history@),
            texts: texts_of(self.history_text@),
            cumulative_cost: self.cumulative_cost,
            last_cost: self.last_cost,
            interventions: self.interventions,
        }
    }

    /// A session that has seen nothing and spent nothing.
    pub fn new() -> (session: Self)
        ensures
            session@ == fresh(),
    {
        let session = SessionState {
            history: Vec::new(),
            history_text: Vec::new(),
            cumulative_cost: 0,
            last_cost: 0,
            interventions: 0,
        };
        proof {
            assert(session@.history =~= Seq::<Seq<i32>>::empty());
            assert(session@.texts =~= Seq::<Seq<char>>::empty());
        }
        session
    }

    /// What all turns so far have cost, in cost units.
    pub fn cumulative_cost(&self) -> (cost: u128)
        ensures
            cost == self@.cumulative_cost,
    {
        self.cumulative_cost
    }

    /// What the latest completed turn has cost, in cost units.
    pub fn last_cost(&self) -> (cost: u128)
        ensures
            cost == self@.last_cost,
    {
        self.last_cost
    }

    /// How often the proxy has stepped in for this session.
    pub fn interventions(&self) -> (count: u32)
        ensures
            count == self@.interventions,
    {
        self.interventions
    }

    /// What an audit reports of this session: what it has spent, and how
    /// often the proxy has stepped in for it.
    pub fn totals(&self) -> (totals: SessionTotals)
        ensures
            totals == spec_totals(self@),
    {
        SessionTotals { cumulative_cost: self.cumulative_cost, interventions: self.interventions }
    }

    /// Number of embeddings in the window, never more than [`WINDOW`].
    pub fn history_len(&self) -> (n: usize)
        ensures
            n == self@.history.len(),
            n <= WINDOW,
    {
        proof {
            use_type_invariant(self);
        }
        self.history.len()
    }

    /// Number of prompts in the window, never more than [`WINDOW`].
    pub fn text_len(&self) -> (n: usize)
        ensures
            n == self@.texts.len(),
            n <= WINDOW,
    {
        proof {
            use_type_invariant(self);
        }
        self.history_text.len()
    }

    /// The embeddings in the window, oldest first.
    pub fn history(&self) -> (history: &Vec<Embedding>)
        ensures
            vectors_of(history@) == self@.history,
    {
        &self.history
    }

    /// The prompts in the window, oldest first.
    pub fn history_text(&self) -> (texts: &Vec<String>)
        ensures
            texts_of(texts@) == self@.texts,
    {
        &self.history_text
    }

    /// Takes in the embedding of a turn and says whether the last `turns`
    /// embeddings are a semantic loop: whether there are that many, and the
    /// similarity of every two neighbours among them is at least one minus
    /// `threshold`.
    pub fn check_loop(&mut self, embedding: Embedding, threshold: i32, turns: usize) -> (looped:
        bool)
        ensures
            final(self)@ == with_embedding(old(self)@, embedding@),
            final(self)@.history.len() <= WINDOW,
            looped == semantic_run(final(self)@.history, threshold, turns),
    {
        proof {
            use_type_invariant(&*self);
            assert(vectors_of(slide(self.history@, embedding, WINDOW as nat)) == slide(
                vectors_of(self.history@),
                embedding@,
                WINDOW as nat,
            ));
        }
        let mut history: Vec<Embedding> = Vec::new();
        std::mem::swap(&mut history, &mut self.history);
        push_bounded(&mut history, embedding, WINDOW);
        let looped: bool = ends_in_semantic_run(&history, threshold, turns);
        self.history = history;
        looped
    }

    /// Takes in the prompt of a turn and says whether the last `turns`
    /// prompts are a fuzzy loop: whether there are that many, and the word
    /// overlap of every two neighbours among them is at least one minus
    /// `threshold`.
    pub fn check_basic_loop(&mut self, text: String, threshold: i32, turns: usize) -> (looped:
        bool)
        ensures
            final(self)@ == with_text(old(self)@, text@),
            final(self)@.texts.len() <= WINDOW,
            looped == fuzzy_run(final(self)@.texts, threshold, turns),
    {
        proof {
            use_type_invariant(&*self);
            assert(texts_of(slide(self.history_text@, text, WINDOW as nat)) == slide(
                texts_of(self.history_text@),
                text@,
                WINDOW as nat,
            ));
        }
        let mut texts: Vec<String> = Vec::new();
        std::mem::swap(&mut texts, &mut self.history_text);
        push_bounded(&mut texts, text, WINDOW);
        let looped: bool = ends_in_fuzzy_run(&texts, threshold, turns);
        self.history_text = texts;
        looped
    }

    /// Whether a turn that costs `current_cost` is to be throttled, judged
    /// by what the session had spent before the turn.  Nothing is committed.
    pub fn check_economic_throttle(&self, current_cost: u128) -> (throttled: bool)
        ensures
            throttled == throttle_trips(self@.cumulative_cost, self@.last_cost, current_cost),
    {
        if self.cumulative_cost > COST_CEILING {
            return true;
        }
        if self.last_cost > 0 && self.last_cost <= u128::MAX / SPIKE_FACTOR {
            current_cost > self.last_cost * SPIKE_FACTOR && current_cost > SPIKE_FLOOR
        } else {
            false
        }
    }

    /// Commits the cost of a completed turn.
    pub fn commit_cost(&mut self, cost: u128)
        ensures
            final(self)@ == with_cost(old(self)@, cost),
            final(self)@.cumulative_cost >= old(self)@.cumulative_cost,
    {
        proof {
            use_type_invariant(&*self);
        }
        self.cumulative_cost = self.cumulative_cost.saturating_add(cost);
        self.last_cost = cost;
    }

    /// Counts one more intervention for this session.
    pub fn note_intervention(&mut self)
        ensures
            final(self)@ == with_intervention(old(self)@),
    {
        proof {
            use_type_invariant(&*self);
        }
        if self.interventions < u32::MAX {
            self.interventions = self.interventions + 1;
        }
    }

    /// The loop check of one turn, before anything is forwarded: the
    /// semantic detector on the embedding, if there is one, and else, or if
    /// it did not fire, the fuzzy detector on the prompt.
    pub fn detect_loop(&mut self, embedding: Option<Embedding>, text: String) -> (verdict: Option<
        Reason,
    >)
        ensures
            verdict == loop_verdict(old(self)@, vector_of(embedding), text@),
            final(self)@ == after_loop_check(old(self)@, vector_of(embedding), text@),
    {
        let semantic: bool = match embedding {
            Some(e) => self.check_loop(e, SEMANTIC_THRESHOLD, LOOP_TURNS),
            None => false,
        };
        if semantic {
            self.note_intervention();
            return Some(Reason::SemanticLoop);
        }
        if self.check_basic_loop(text, FUZZY_THRESHOLD, LOOP_TURNS) {
            self.note_intervention();
            return Some(Reason::FuzzyLoop);
        }
        None
    }

    /// Settles a completed turn: says whether it is to be throttled, judged
    /// by what the session had spent before it, and then commits its cost
    /// whatever the answer.
    pub fn settle_turn(&mut self, cost: u128) -> (throttled: bool)
        ensures
            throttled == throttle_trips(old(self)@.cumulative_cost, old(self)@.last_cost, cost),
            final(self)@ == after_settle(old(self)@, cost),
            final(self)@.cumulative_cost >= old(self)@.cumulative_cost,
    {
        let throttled: bool = self.check_economic_throttle(cost);
        self.commit_cost(cost);
        if throttled {
            self.note_intervention();
        }
        throttled
    }
}

/// The session after each of `embeddings` has arrived in turn.
pub open spec fn with_embeddings(s: SessionView, embeddings: Seq<Seq<i32>>) -> SessionView
    decreases embeddings.len(),
{
    if embeddings.len() == 0 {
        s
    } else {
        with_embedding(with_embeddings(s, embeddings.drop_last()), embeddings.last())
    }
}

/// However many embeddings arrive in a session, its window never holds more
/// than [`WINDOW`] of them, and it holds the latest ones in their order.
pub proof fn lemma_embedding_window_bounded(s: SessionView, embeddings: Seq<Seq<i32>>)
    requires
        s.history.len() <= WINDOW,
    ensures
        with_embeddings(s, embeddings).history.len() <= WINDOW,
        with_embeddings(s, embeddings).history == latest(s.history + embeddings, WINDOW as nat),
    decreases embeddings.len(),
{
    lemma_embeddings_slide(s, embeddings);
    lemma_window_keeps_latest(s.history, embeddings, WINDOW as nat);
}

proof fn lemma_embeddings_slide(s: SessionView, embeddings: Seq<Seq<i32>>)
    ensures
        with_embeddings(s, embeddings).history == slide_all(s.history, embeddings, WINDOW as nat),
    decreases embeddings.len(),
{
    if embeddings.len() > 0 {
        lemma_embeddings_slide(s, embeddings.drop_last());
    }
}

/// After the sixth embedding has arrived in a new session, the first is no
/// longer in the window, and the other five are, in their order.
pub proof fn lemma_sixth_embedding_evicts_first(embeddings: Seq<Seq<i32>>)
    requires
        embeddings.len() == WINDOW + 1,
    ensures
        with_embeddings(fresh(), embeddings).history == embeddings.subrange(1, WINDOW + 1),
{
    lemma_embedding_window_bounded(fresh(), embeddings);
}

/// Three embeddings in a row, each as similar to the one before it as the
/// threshold asks, make a loop of three turns in a new session: on the third
/// and not before, since the first two find too little history.
pub proof fn lemma_third_close_vector_loops(
    first: Seq<i32>,
    second: Seq<i32>,
    third: Seq<i32>,
    threshold: i32,
)
    requires
        vector_similarity(first, second) >= SCALE - threshold,
        vector_similarity(second, third) >= SCALE - threshold,
    ensures
        !semantic_run(with_embedding(fresh(), first).history, threshold, 3),
        !semantic_run(
            with_embedding(with_embedding(fresh(), first), second).history,
            threshold,
            3,
        ),
        semantic_run(
            with_embedding(with_embedding(with_embedding(fresh(), first), second), third).history,
            threshold,
            3,
        ),
{
}

/// Three prompts in a row without embeddings, each sharing with the one
/// before it as many of its words as the fuzzy threshold asks, are screened
/// alike in a new session: the first two pass, and the third is caught as a
/// fuzzy loop and counted as the session's first intervention.
pub proof fn lemma_third_repeated_prompt_is_caught(
    first: Seq<char>,
    second: Seq<char>,
    third: Seq<char>,
)
    requires
        text_similarity(first, second) >= SCALE - FUZZY_THRESHOLD,
        text_similarity(second, third) >= SCALE - FUZZY_THRESHOLD,
    ensures
        loop_verdict(fresh(), None, first) is None,
        loop_verdict(after_loop_check(fresh(), None, first), None, second) is None,
        loop_verdict(
            after_loop_check(after_loop_check(fresh(), None, first), None, second),
            None,
            third,
        ) == Some(Reason::FuzzyLoop),
        after_loop_check(
            after_loop_check(after_loop_check(fresh(), None, first), None, second),
            None,
            third,
        ).interventions == 1,
{
}

/// Once a session has spent more than the ceiling, the throttle trips on
/// every turn, whatever the turn and the one before it cost.
pub proof fn lemma_over_ceiling_always_trips(cumulative: u128, last: u128, current: u128)
    requires
        cumulative > COST_CEILING,
    ensures
        throttle_trips(cumulative, last, current),
{
}

/// What a session has spent never goes down: not when a turn is settled,
/// and not when a prompt is screened.
pub proof fn lemma_cumulative_cost_only_grows(
    s: SessionView,
    cost: u128,
    embedding: Option<Seq<i32>>,
    text: Seq<char>,
)
    ensures
        with_cost(s, cost).cumulative_cost >= s.cumulative_cost,
        after_settle(s, cost).cumulative_cost >= s.cumulative_cost,
        after_loop_check(s, embedding, text).cumulative_cost == s.cumulative_cost,
{
}

} // verus!
