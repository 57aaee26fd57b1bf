//! Similarity of two embeddings and of two texts.

use vstd::prelude::*;
use crate::detector::{ends_in_semantic_run, semantic_run, vectors_of};
use crate::policy::WINDOW;
use crate::units::SCALE;
use crate::window::{push_bounded, slide};

verus! {

/// A semantic vector, one component per dimension, each in millionths.
#[derive(Debug)]
pub struct Embedding(pub Vec<i32>);

impl View for Embedding {
    type V = Seq<i32>;

    open spec fn view(&self) -> Seq<i32> {
        self.0@
    }
}

impl Clone for Embedding {
    fn clone(&self) -> (copy: Self)
        ensures
            copy@ == self@,
    {
        Embedding(self.0.clone())
    }
}

/// Sum of the products of the components at equal positions, over the
/// positions that both sequences have.  Two factors in millionths give a
/// product in millionths of millionths.
pub open spec fn raw_dot(a: Seq<i32>, b: Seq<i32>) -> int
    decreases a.len(),
{
    if a.len() == 0 || b.len() == 0 {
        0
    } else {
        raw_dot(a.drop_last(), b.drop_last()) + a.last() * b.last()
    }
}

/// Dot product of two vectors of equal length, in millionths and rounded
/// down; zero where the lengths differ.
pub open spec fn vector_similarity(a: Seq<i32>, b: Seq<i32>) -> int {
    if a.len() == b.len() {
        raw_dot(a, b) / (SCALE as int)
    } else {
        0
    }
}

proof fn lemma_raw_dot_step(a: Seq<i32>, b: Seq<i32>, i: int)
    requires
        0 <= i < a.len(),
        a.len() == b.len(),
    ensures
        raw_dot(a.take(i + 1), b.take(i + 1)) == raw_dot(a.take(i), b.take(i)) + a[i] * b[i],
{
    assert(a.take(i + 1).drop_last() =~= a.take(i));
    assert(b.take(i + 1).drop_last() =~= b.take(i));
}

proof fn lemma_product_bound(x: i32, y: i32)
    ensures
        -0x4000_0000_0000_0000 <= x * y <= 0x4000_0000_0000_0000,
{
    assert(-0x4000_0000_0000_0000 <= x * y <= 0x4000_0000_0000_0000) by (nonlinear_arith)
        requires
            -0x8000_0000 <= x <= 0x7fff_ffff,
            -0x8000_0000 <= y <= 0x7fff_ffff,
    ;
}

/// Rounds a count of millionths of millionths down to millionths.
fn to_millionths(raw: i128) -> (q: i128)
    ensures
        q == raw as int / (SCALE as int),
{
    let q: i128 = raw / 1_000_000;
    let r: i128 = raw % 1_000_000;
    if r < 0 {
        q - 1
    } else {
        q
    }
}

/// Dot product of `a` and `b`, in millionths; zero where the lengths differ.
pub fn dot_product(a: &[i32], b: &[i32]) -> (similarity: i128)
    ensures
        similarity == vector_similarity(a@, b@),
{
    let n: usize = a.len();
    if n != b.len() {
        return 0;
    }
    let mut sum: i128 = 0;
    let mut i: usize = 0;
    while i < n
        invariant
            n == a.len(),
            n == b.len(),
            i <= n,
            sum == raw_dot(a@.take(i as int), b@.take(i as int)),
            -(i * 0x4000_0000_0000_0000) <= sum <= i * 0x4000_0000_0000_0000,
        decreases n - i,
    {
        proof {
            lemma_raw_dot_step(a@, b@, i as int);
            lemma_product_bound(a[i as int], b[i as int]);
        }
        let x: i128 = a[i] as i128;
        let y: i128 = b[i] as i128;
        sum = sum + x * y;
        i = i + 1;
    }
    proof {
        assert(a@.take(n as int) =~= a@);
        assert(b@.take(n as int) =~= b@);
    }
    to_millionths(sum)
}

/// Cosine similarity of two vectors of unit length, which is their dot
/// product: in millionths, and zero where the lengths differ.  The vectors
/// are taken as they come; nothing is normalised here.
pub fn cosine_similarity(a: &[i32], b: &[i32]) -> (similarity: i128)
    ensures
        similarity == vector_similarity(a@, b@),
{
    dot_product(a, b)
}

/// The words of a text as `str::split_whitespace` finds them, in their order.
pub uninterp spec fn whitespace_split(text: Seq<char>) -> Seq<Seq<char>>;

/// The lower-case form of a text as `str::to_lowercase` gives it.
pub uninterp spec fn lowercased(text: Seq<char>) -> Seq<char>;

/// The texts that `words` hold, one for each.
pub open spec fn texts_of(words: Seq<String>) -> Seq<Seq<char>> {
    Seq::new(words.len(), |i: int| words[i]@)
}

/// The distinct texts among `words`.
pub open spec fn token_set(words: Seq<String>) -> Set<Seq<char>> {
    texts_of(words).to_set()
}

/// The words of `text` in lower case, in their order.
pub open spec fn word_list(text: Seq<char>) -> Seq<Seq<char>> {
    whitespace_split(text).map_values(|w: Seq<char>| lowercased(w))
}

/// The distinct lower-case words of `text`.
pub open spec fn word_set(text: Seq<char>) -> Set<Seq<char>> {
    word_list(text).to_set()
}

/// Jaccard index of two finite sets in millionths, rounded down: the size of
/// the intersection over the size of the union, and zero where either set is
/// empty.
pub open spec fn jaccard(a: Set<Seq<char>>, b: Set<Seq<char>>) -> int {
    if a.len() == 0 || b.len() == 0 {
        0
    } else {
        (a.intersect(b).len() * SCALE) / (a.union(b).len() as int)
    }
}

/// Word overlap of two texts, in millionths.
pub open spec fn text_similarity(s1: Seq<char>, s2: Seq<char>) -> int {
    jaccard(word_set(s1), word_set(s2))
}

/// Calls `str::split_whitespace` and collects the words it yields, each as
/// an owned string.  The words are those that the standard library finds;
/// nothing more is claimed of them.
#[verifier::external_body]
fn split_words(text: &str) -> (words: Vec<String>)
    ensures
        texts_of(words@) == whitespace_split(text@),
{
    text.split_whitespace().map(|w| w.to_string()).collect()
}

/// Calls `str::to_lowercase`.  The result is the standard library's
/// lower-case form of the argument; nothing more is claimed of it.
#[verifier::external_body]
fn lowercase(text: &str) -> (lower: String)
    ensures
        lower@ == lowercased(text@),
{
    text.to_lowercase()
}

/// The words of `text`, split at white space and put in lower case.
pub fn lowercase_words(text: &str) -> (words: Vec<String>)
    ensures
        texts_of(words@) == word_list(text@),
{
    let raw: Vec<String> = split_words(text);
    let mut words: Vec<String> = Vec::new();
    let mut i: usize = 0;
    while i < raw.len()
        invariant
            i <= raw.len(),
            words.len() == i,
            texts_of(raw@) == whitespace_split(text@),
            forall|j: int| 0 <= j < i ==> (#[trigger] words[j])@ == lowercased(raw[j]@),
        decreases raw.len() - i,
    {
        words.push(lowercase(raw[i].as_str()));
        i = i + 1;
    }
    words
}

/// Whether one of the first `upto` of `words` reads as `word` does.
fn occurs_among(words: &Vec<String>, upto: usize, word: &String) -> (found: bool)
    requires
        upto <= words.len(),
    ensures
        found == texts_of(words@.take(upto as int)).contains(word@),
{
    let mut j: usize = 0;
    while j < upto
        invariant
            j <= upto,
            upto <= words.len(),
            forall|k: int| 0 <= k < j ==> (#[trigger] words[k])@ != word@,
        decreases upto - j,
    {
        if words[j] == *word {
            proof {
                assert(texts_of(words@.take(upto as int))[j as int] == word@);
            }
            return true;
        }
        j = j + 1;
    }
    false
}

proof fn lemma_token_set_step(words: Seq<String>, i: int)
    requires
        0 <= i < words.len(),
    ensures
        token_set(words.take(i)).finite(),
        token_set(words.take(i + 1)) == token_set(words.take(i)).insert(words[i]@),
        token_set(words.take(i)).contains(words[i]@) <==> texts_of(words.take(i)).contains(
            words[i]@,
        ),
{
    broadcast use vstd::seq_lib::seq_to_set_is_finite;

    let before = texts_of(words.take(i));
    let after = texts_of(words.take(i + 1));
    assert(after =~= before.push(words[i]@));
    before.lemma_push_to_set_commute(words[i]@);
}

/// Number of distinct texts among `words`.
fn count_distinct(words: &Vec<String>) -> (count: usize)
    ensures
        count == token_set(words@).len(),
{
    let mut count: usize = 0;
    let mut i: usize = 0;
    proof {
        assert(token_set(words@.take(0)) =~= Set::<Seq<char>>::empty());
    }
    while i < words.len()
        invariant
            i <= words.len(),
            count <= i,
            count == token_set(words@.take(i as int)).len(),
        decreases words.len() - i,
    {
        proof {
            lemma_token_set_step(words@, i as int);
        }
        if !occurs_among(words, i, &words[i]) {
            count = count + 1;
        }
        i = i + 1;
    }
    proof {
        assert(words@.take(words.len() as int) =~= words@);
    }
    count
}

/// Number of distinct texts that occur both among `a` and among `b`.
fn count_shared(a: &Vec<String>, b: &Vec<String>) -> (count: usize)
    ensures
        count == token_set(a@).intersect(token_set(b@)).len(),
{
    let mut count: usize = 0;
    let mut i: usize = 0;
    proof {
        assert(token_set(a@.take(0)).intersect(token_set(b@)) =~= Set::<Seq<char>>::empty());
    }
    while i < a.len()
        invariant
            i <= a.len(),
            count <= i,
            count == token_set(a@.take(i as int)).intersect(token_set(b@)).len(),
        decreases a.len() - i,
    {
        let fresh: bool = !occurs_among(a, i, &a[i]);
        let other: bool = occurs_among(b, b.len(), &a[i]);
        proof {
            broadcast use vstd::seq_lib::seq_to_set_is_finite;

            lemma_token_set_step(a@, i as int);
            assert(b@.take(b.len() as int) =~= b@);
            let word = a[i as int]@;
            let seen = token_set(a@.take(i as int));
            let grown = token_set(a@.take(i + 1));
            let theirs = token_set(b@);
            let common = seen.intersect(theirs);
            vstd::set_lib::lemma_len_intersect(seen, theirs);
            if fresh && other {
                assert(grown.intersect(theirs) =~= common.insert(word));
            } else {
                assert(grown.intersect(theirs) =~= common);
            }
        }
        if fresh && other {
            count = count + 1;
        }
        i = i + 1;
    }
    proof {
        assert(a@.take(a.len() as int) =~= a@);
    }
    count
}

/// Jaccard index of the two sets of words, in millionths: the number of
/// distinct words that both lists hold over the number of distinct words
/// that either holds, and zero where either list is empty.
pub fn token_overlap(a: &Vec<String>, b: &Vec<String>) -> (similarity: i64)
    ensures
        similarity == jaccard(token_set(a@), token_set(b@)),
        0 <= similarity <= SCALE,
{
    let mine: usize = count_distinct(a);
    let theirs: usize = count_distinct(b);
    if mine == 0 || theirs == 0 {
        return 0;
    }
    let shared: usize = count_shared(a, b);
    proof {
        broadcast use vstd::seq_lib::seq_to_set_is_finite;

        vstd::set_lib::lemma_set_intersect_union_lens(token_set(a@), token_set(b@));
        vstd::set_lib::lemma_len_intersect(token_set(a@), token_set(b@));
        vstd::set_lib::lemma_len_intersect(token_set(b@), token_set(a@));
        assert(token_set(b@).intersect(token_set(a@)) =~= token_set(a@).intersect(token_set(b@)));
    }
    let either: i128 = mine as i128 + theirs as i128 - shared as i128;
    let scaled: i128 = shared as i128 * 1_000_000;
    let ratio: i128 = scaled / either;
    proof {
        assert(0 <= scaled / either <= 1_000_000) by (nonlinear_arith)
            requires
                0 <= shared <= either,
                either > 0,
                scaled == shared * 1_000_000,
        ;
    }
    ratio as i64
}

/// Word overlap of two texts, in millionths: both are split at white space,
/// each word is put in lower case, and the Jaccard index of the two sets of
/// words is returned; zero where either text has no word.
pub fn word_overlap_similarity(s1: &str, s2: &str) -> (similarity: i64)
    ensures
        similarity == text_similarity(s1@, s2@),
        0 <= similarity <= SCALE,
{
    let w1: Vec<String> = lowercase_words(s1);
    let w2: Vec<String> = lowercase_words(s2);
    token_overlap(&w1, &w2)
}

/// What a scorer holds, as plain values.
pub struct ScorerView {
    /// The latest embeddings, oldest first.
    pub history: Seq<Seq<i32>>,
    /// How far below one the similarity of two neighbours may fall within a
    /// loop, in millionths.
    pub threshold: i32,
    /// Number of consecutive near-identical turns that make a loop.
    pub consecutive_turns: usize,
}

/// A semantic loop detector with its own window and a fixed setting.
#[derive(Debug)]
pub struct Scorer {
    history: Vec<Embedding>,
    threshold: i32,
    consecutive_turns: usize,
}

impl Scorer {
    #[verifier::type_invariant]
    spec fn window_bounded(self) -> bool {
        self.history@.len() <= WINDOW
    }

    /// The scorer as plain values.
    pub closed spec fn view(&self) -> ScorerView {
        ScorerView {
            history: vectors_of(self.history@),
            threshold: self.threshold,
            consecutive_turns: self.consecutive_turns,
        }
    }

    /// A scorer that has seen nothing.
    pub fn new(threshold: i32, consecutive_turns: usize) -> (scorer: Self)
        ensures
            scorer@ == (ScorerView { history: Seq::empty(), threshold, consecutive_turns }),
    {
        let scorer = Scorer { history: Vec::new(), threshold, consecutive_turns };
        proof {
            assert(scorer@.history =~= Seq::<Seq<i32>>::empty());
        }
        scorer
    }

    /// How far below one the similarity of two neighbours may fall within a
    /// loop, in millionths.
    pub fn threshold(&self) -> (threshold: i32)
        ensures
            threshold == self@.threshold,
    {
        self.threshold
    }

    /// Number of consecutive near-identical turns that make a loop.
    pub fn consecutive_turns(&self) -> (turns: usize)
        ensures
            turns == self@.consecutive_turns,
    {
        self.consecutive_turns
    }

    /// The embeddings in the window, oldest first; never more than
    /// [`WINDOW`].
    pub fn history(&self) -> (history: &Vec<Embedding>)
        ensures
            vectors_of(history@) == self@.history,
            history@.len() <= WINDOW,
    {
        proof {
            use_type_invariant(self);
        }
        &self.history
    }

    /// Takes in the embedding of a turn and says whether the window now ends
    /// in a semantic loop under the scorer's setting.
    pub fn add_and_check(&mut self, embedding: Embedding) -> (looped: bool)
        ensures
            final(self)@ == (ScorerView {
                history: slide(old(self)@.history, embedding@, WINDOW as nat),
                ..old(self)@
            }),
            final(self)@.history.len() <= WINDOW,
            looped == semantic_run(
                final(self)@.history,
                old(self)@.threshold,
                old(self)@.consecutive_turns,
            ),
    {
        proof {
            use_type_invariant(&*self);
            assert(vectors_of(slide(self.history@, embedding, WINDOW as nat)) =~= slide(
                vectors_of(self.history@),
                embedding@,
                WINDOW as nat,
            ));
        }
        let mut history: Vec<Embedding> = Vec::new();
        std::mem::swap(&mut history, &mut self.history);
        push_bounded(&mut history, embedding, WINDOW);
        let looped: bool = ends_in_semantic_run(&history, self.threshold, self.consecutive_turns);
        self.history = history;
        looped
    }
}

} // verus!
