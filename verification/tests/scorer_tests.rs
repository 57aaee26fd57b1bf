use sentinel::scorer::{
    cosine_similarity, dot_product, lowercase_words, token_overlap, word_overlap_similarity,
    Embedding, Scorer,
};

fn millionths(x: f64) -> i32 {
    (x * 1_000_000.0).round() as i32
}

fn vector(xs: &[f64]) -> Vec<i32> {
    xs.iter().map(|x| millionths(*x)).collect()
}

fn as_number(similarity: i128) -> f64 {
    similarity as f64 / 1_000_000.0
}

fn words(items: &[&str]) -> Vec<String> {
    items.iter().map(|w| w.to_string()).collect()
}

#[test]
fn test_similarity_identical() {
    let v1 = vector(&[1.0, 0.0, 0.0]);
    let v2 = vector(&[1.0, 0.0, 0.0]);
    assert!((as_number(cosine_similarity(&v1, &v2)) - 1.0).abs() < 0.0001);
}

#[test]
fn test_similarity_orthogonal() {
    let v1 = vector(&[1.0, 0.0, 0.0]);
    let v2 = vector(&[0.0, 1.0, 0.0]);
    assert!((as_number(cosine_similarity(&v1, &v2)) - 0.0).abs() < 0.0001);
}

#[test]
fn test_loop_detection() {
    let mut scorer = Scorer::new(millionths(0.02), 3);
    let v1 = Embedding(vector(&[1.0, 0.0]));
    let v2 = Embedding(vector(&[0.99, 0.01]));
    let v3 = Embedding(vector(&[0.985, 0.015]));

    assert_eq!(scorer.add_and_check(v1), false);
    assert_eq!(scorer.add_and_check(v2), false);
    // The vectors are taken as they come, and the last two are not of unit
    // length: their dot product is 0.99 * 0.985 + 0.01 * 0.015 = 0.9753,
    // which is under the bound of 0.98.
    assert_eq!(scorer.add_and_check(v3), false);
}

#[test]
fn loop_detected_on_third_near_identical_vector() {
    let mut scorer = Scorer::new(millionths(0.02), 3);
    assert_eq!(scorer.add_and_check(Embedding(vector(&[1.0, 0.0]))), false);
    assert_eq!(scorer.add_and_check(Embedding(vector(&[0.9999, 0.01]))), false);
    assert_eq!(scorer.add_and_check(Embedding(vector(&[0.9998, 0.02]))), true);
}

#[test]
fn dot_product_exact_values() {
    assert_eq!(dot_product(&[1_000_000, 0], &[990_000, 10_000]), 990_000);
    assert_eq!(dot_product(&[990_000, 10_000], &[985_000, 15_000]), 975_300);
    assert_eq!(dot_product(&[500_000, 500_000], &[500_000, 500_000]), 500_000);
    assert_eq!(dot_product(&[2_000_000], &[3_000_000]), 6_000_000);
    assert_eq!(dot_product(&[], &[]), 0);
}

#[test]
fn dot_product_rounds_down() {
    // 0.000001 * 0.000001 is a millionth of a millionth.
    assert_eq!(dot_product(&[1], &[1]), 0);
    assert_eq!(dot_product(&[1], &[-1]), -1);
    assert_eq!(dot_product(&[-1_000_000], &[1_000_000]), -1_000_000);
    assert_eq!(dot_product(&[1_500], &[1_000]), 1);
    assert_eq!(dot_product(&[-1_500], &[1_000]), -2);
}

#[test]
fn dot_product_of_unequal_lengths_is_zero() {
    assert_eq!(dot_product(&[1_000_000, 0, 0], &[1_000_000, 0]), 0);
    assert_eq!(cosine_similarity(&[1_000_000], &[]), 0);
}

#[test]
fn dot_product_of_extreme_components() {
    let a = vec![i32::MIN; 4];
    let b = vec![i32::MIN; 4];
    let each: i128 = (i32::MIN as i128) * (i32::MIN as i128);
    assert_eq!(dot_product(&a, &b), (4 * each) / 1_000_000);
    let c = vec![i32::MAX; 4];
    assert_eq!(dot_product(&a, &c), (4 * (i32::MIN as i128) * (i32::MAX as i128)).div_euclid(1_000_000));
}

#[test]
fn word_overlap_of_identical_texts_is_one() {
    assert_eq!(word_overlap_similarity("the cat sat", "the cat sat"), 1_000_000);
}

#[test]
fn word_overlap_of_disjoint_texts_is_zero() {
    assert_eq!(word_overlap_similarity("a b", "c d"), 0);
}

#[test]
fn word_overlap_exact_values() {
    // {the, cat} and {the, dog}: one shared word of three.
    assert_eq!(word_overlap_similarity("the cat", "the dog"), 333_333);
    // {a, b, c} and {b, c, d}: two of four.
    assert_eq!(word_overlap_similarity("a b c", "b c d"), 500_000);
    // {a} and {a, b, c}: one of three.
    assert_eq!(word_overlap_similarity("a", "c b a"), 333_333);
}

#[test]
fn word_overlap_ignores_case_repeats_and_spacing() {
    assert_eq!(word_overlap_similarity("The CAT sat", "the cat SAT"), 1_000_000);
    assert_eq!(word_overlap_similarity("a a a b", "b a"), 1_000_000);
    assert_eq!(word_overlap_similarity("  a\t b\n", "a b"), 1_000_000);
}

#[test]
fn word_overlap_with_an_empty_text_is_zero() {
    assert_eq!(word_overlap_similarity("", "a b"), 0);
    assert_eq!(word_overlap_similarity("a b", "   "), 0);
    assert_eq!(word_overlap_similarity("", ""), 0);
}

#[test]
fn lowercase_words_splits_and_lowers() {
    assert_eq!(lowercase_words("Hello  WORLD\tÄpfel"), words(&["hello", "world", "äpfel"]));
    assert_eq!(lowercase_words(" \n "), Vec::<String>::new());
}

#[test]
fn token_overlap_counts_distinct_words() {
    assert_eq!(token_overlap(&words(&["a", "b", "a"]), &words(&["b", "c"])), 333_333);
    assert_eq!(token_overlap(&words(&[]), &words(&["b", "c"])), 0);
    assert_eq!(token_overlap(&words(&["x"]), &words(&["x", "x"])), 1_000_000);
    // Words are compared as they stand: case matters here.
    assert_eq!(token_overlap(&words(&["A"]), &words(&["a"])), 0);
}

#[test]
fn scorer_keeps_its_setting_and_the_latest_five() {
    let mut scorer = Scorer::new(20_000, 3);
    assert_eq!(scorer.threshold(), 20_000);
    assert_eq!(scorer.consecutive_turns(), 3);
    assert!(scorer.history().is_empty());
    for n in 0..7 {
        scorer.add_and_check(Embedding(vec![n, 0]));
    }
    let kept: Vec<i32> = scorer.history().iter().map(|e| e.0[0]).collect();
    assert_eq!(kept, vec![2, 3, 4, 5, 6]);
    assert_eq!(scorer.threshold(), 20_000);
    assert_eq!(scorer.consecutive_turns(), 3);
}

fn jaccard_by_sets(s1: &str, s2: &str) -> i64 {
    let w1: std::collections::HashSet<String> =
        s1.split_whitespace().map(|s| s.to_lowercase()).collect();
    let w2: std::collections::HashSet<String> =
        s2.split_whitespace().map(|s| s.to_lowercase()).collect();
    if w1.is_empty() || w2.is_empty() {
        return 0;
    }
    let shared = w1.intersection(&w2).count() as i64;
    let either = w1.union(&w2).count() as i64;
    shared * 1_000_000 / either
}

#[test]
fn word_overlap_agrees_with_a_count_over_hash_sets() {
    let texts = [
        "",
        " ",
        "a",
        "A a",
        "the cat sat on the mat",
        "The Cat sat on THE mat again",
        "how do I exit vim",
        "How do I exit Vim ? please",
        "uno dos tres",
        "UNO  dos\t\ttres\ncuatro",
        "ÄPFEL äpfel Straße STRASSE",
        "x y z x y z x y z",
        "one\u{00a0}two\u{2003}three",
        "tab\tseparated\twords one two three",
    ];
    for a in texts {
        for b in texts {
            assert_eq!(word_overlap_similarity(a, b), jaccard_by_sets(a, b), "{:?} / {:?}", a, b);
        }
    }
}

#[test]
fn dot_product_agrees_with_floating_point() {
    let mut seed: u64 = 0x2545_f491_4f6c_dd1d;
    let mut next = move || {
        seed ^= seed << 13;
        seed ^= seed >> 7;
        seed ^= seed << 17;
        ((seed % 2_000_001) as i64 - 1_000_000) as i32
    };
    for len in [0usize, 1, 2, 3, 16, 257, 1536] {
        let a: Vec<i32> = (0..len).map(|_| next()).collect();
        let b: Vec<i32> = (0..len).map(|_| next()).collect();
        let exact: f64 = a
            .iter()
            .zip(b.iter())
            .map(|(x, y)| (*x as f64 / 1_000_000.0) * (*y as f64 / 1_000_000.0))
            .sum();
        let got = as_number(dot_product(&a, &b));
        assert!((got - exact).abs() < 0.000_01, "{} against {}", got, exact);
    }
}
