//! Runs of near-identical turns at the end of a window.

use vstd::prelude::*;
use crate::scorer::{
    dot_product, text_similarity, texts_of, vector_similarity, word_overlap_similarity, Embedding,
};
use crate::units::SCALE;

verus! {

/// The vectors that `embeddings` hold, one for each.
pub open spec fn vectors_of(embeddings: Seq<Embedding>) -> Seq<Seq<i32>> {
    Seq::new(embeddings.len(), |i: int| embeddings[i]@)
}

/// Whether the vectors at positions `i` and `i + 1` are as similar as the
/// threshold asks: their similarity is at least one minus the threshold.
pub open spec fn vectors_close(history: Seq<Seq<i32>>, i: int, threshold: i32) -> bool {
    vector_similarity(history[i], history[i + 1]) >= SCALE - threshold
}

/// Whether the texts at positions `i` and `i + 1` are as similar as the
/// threshold asks: their word overlap is at least one minus the threshold.
pub open spec fn texts_close(history: Seq<Seq<char>>, i: int, threshold: i32) -> bool {
    text_similarity(history[i], history[i + 1]) >= SCALE - threshold
}

/// Whether the window ends in a semantic loop: it holds at least `turns`
/// vectors, and every two neighbours among the last `turns` are close.
pub open spec fn semantic_run(history: Seq<Seq<i32>>, threshold: i32, turns: usize) -> bool {
    &&& turns <= history.len()
    &&& forall|i: int|
        history.len() - turns <= i < history.len() - 1 ==> #[trigger] vectors_close(
            history,
            i,
            threshold,
        )
}

/// Whether the window ends in a fuzzy loop: it holds at least `turns` texts,
/// and every two neighbours among the last `turns` are close.
pub open spec fn fuzzy_run(history: Seq<Seq<char>>, threshold: i32, turns: usize) -> bool {
    &&& turns <= history.len()
    &&& forall|i: int|
        history.len() - turns <= i < history.len() - 1 ==> #[trigger] texts_close(
            history,
            i,
            threshold,
        )
}

/// Whether `history` ends in a semantic loop of `turns` turns.
pub fn ends_in_semantic_run(history: &Vec<Embedding>, threshold: i32, turns: usize) -> (looped:
    bool)
    ensures
        looped == semantic_run(vectors_of(history@), threshold, turns),
{
    let n: usize = history.len();
    if n < turns {
        return false;
    }
    if turns < 2 {
        return true;
    }
    let bound: i128 = 1_000_000 - (threshold as i128);
    let mut i: usize = n - turns;
    while i < n - 1
        invariant
            n == history.len(),
            2 <= turns <= n,
            n - turns <= i <= n - 1,
            bound == SCALE - threshold,
            forall|j: int|
                n - turns <= j < i ==> #[trigger] vectors_close(vectors_of(history@), j, threshold),
        decreases n - i,
    {
        let similarity: i128 = dot_product(history[i].0.as_slice(), history[i + 1].0.as_slice());
        if similarity < bound {
            proof {
                assert(!vectors_close(vectors_of(history@), i as int, threshold));
            }
            return false;
        }
        i = i + 1;
    }
    true
}

/// Whether `history` ends in a fuzzy loop of `turns` turns.
pub fn ends_in_fuzzy_run(history: &Vec<String>, threshold: i32, turns: usize) -> (looped: bool)
    ensures
        looped == fuzzy_run(texts_of(history@), threshold, turns),
{
    let n: usize = history.len();
    if n < turns {
        return false;
    }
    if turns < 2 {
        return true;
    }
    let bound: i64 = 1_000_000 - (threshold as i64);
    let mut i: usize = n - turns;
    while i < n - 1
        invariant
            n == history.len(),
            2 <= turns <= n,
            n - turns <= i <= n - 1,
            bound == SCALE - threshold,
            forall|j: int|
                n - turns <= j < i ==> #[trigger] texts_close(texts_of(history@), j, threshold),
        decreases n - i,
    {
        let similarity: i64 = word_overlap_similarity(
            history[i].as_str(),
            history[i + 1].as_str(),
        );
        if similarity < bound {
            proof {
                assert(!texts_close(texts_of(history@), i as int, threshold));
            }
            return false;
        }
        i = i + 1;
    }
    true
}

/// A run needs every pair: where any two neighbours among the last `turns`
/// vectors fall below the bound, the window does not end in a semantic loop,
/// however close the others are.
pub proof fn lemma_one_distant_pair_breaks_run(
    history: Seq<Seq<i32>>,
    threshold: i32,
    turns: usize,
    i: int,
)
    requires
        history.len() - turns <= i < history.len() - 1,
        vector_similarity(history[i], history[i + 1]) < SCALE - threshold,
    ensures
        !semantic_run(history, threshold, turns),
{
    assert(!vectors_close(history, i, threshold));
}

/// The same for texts: one distant pair among the last `turns` breaks the
/// fuzzy loop.
pub proof fn lemma_one_distant_pair_breaks_fuzzy_run(
    history: Seq<Seq<char>>,
    threshold: i32,
    turns: usize,
    i: int,
)
    requires
        history.len() - turns <= i < history.len() - 1,
        text_similarity(history[i], history[i + 1]) < SCALE - threshold,
    ensures
        !fuzzy_run(history, threshold, turns),
{
    assert(!texts_close(history, i, threshold));
}

/// With too little history there is no loop.
pub proof fn lemma_short_history_is_no_run(history: Seq<Seq<i32>>, threshold: i32, turns: usize)
    requires
        history.len() < turns,
    ensures
        !semantic_run(history, threshold, turns),
{
}

} // verus!
