use barrk::SelectError;
use barrk::pick_different;

fn fixed_candidates() -> Vec<String> {
    vec!["Bark".to_string(), "Woof".to_string(), "arf".to_string()]
}

#[test]
fn pick_avoids_current_with_two_values() {
    let candidates = vec!["a".to_string(), "b".to_string()];
    for _ in 0..100 {
        let out = pick_different(&"a".to_string(), &candidates).unwrap();
        assert_eq!(out, "b");
    }
}

#[test]
fn pick_returns_a_candidate() {
    let candidates = fixed_candidates();
    for _ in 0..100 {
        let out = pick_different(&"Dog".to_string(), &candidates).unwrap();
        assert!(candidates.contains(&out));
    }
}

#[test]
fn pick_degenerate_all_equal_returns_current() {
    let candidates = vec!["x".to_string(), "x".to_string(), "x".to_string()];
    let out = pick_different(&"x".to_string(), &candidates).unwrap();
    assert_eq!(out, "x");
}

#[test]
fn pick_empty_candidates_is_error() {
    let candidates: Vec<String> = Vec::new();
    let out = pick_different(&"Dog".to_string(), &candidates);
    assert_eq!(out, Err(SelectError::EmptyCandidates));
}

#[test]
fn pick_weighs_duplicate_strings_by_speaker() {
    // A string held by two speakers must still be drawable: with current "a"
    // and candidates {"a", "b", "b"}, only "b" can come out.
    let candidates = vec!["a".to_string(), "b".to_string(), "b".to_string()];
    for _ in 0..100 {
        let out = pick_different(&"a".to_string(), &candidates).unwrap();
        assert_eq!(out, "b");
    }
}

#[test]
fn chained_picks_never_repeat() {
    let candidates = fixed_candidates();
    let mut current = "Dog".to_string();
    for _ in 0..10_000 {
        let next = pick_different(&current, &candidates).unwrap();
        assert_ne!(next, current);
        current = next;
    }
}
