use cmdfix::fuzzy::fuzzy_find_path;
use cmdfix::fuzzy::select_corrections;
use cmdfix::types::CorrectedCommand;
use cmdfix::FuzzyMatcher;

fn strings(items: &[&str]) -> Vec<String> {
    items.iter().map(|s| s.to_string()).collect()
}

#[test]
fn test_fuzzy_matcher_creation() {
    let _matcher = FuzzyMatcher::new();
}

#[test]
fn test_fuzzy_exact_match() {
    let matcher = FuzzyMatcher::new();
    let candidates = strings(&["python", "pip", "pypy"]);

    let result = matcher.find_best_match("python", &candidates);
    assert!(result.is_some());
    assert_eq!(result.unwrap().0, "python");
}

#[test]
fn test_fuzzy_partial_match() {
    let matcher = FuzzyMatcher::new();
    let candidates = strings(&["python", "puthon", "pypy"]);

    // "puthon" should match "python" with fuzzy matching
    let result = matcher.find_best_match("python", &candidates);
    assert!(result.is_some());
}

#[test]
fn test_fuzzy_no_match() {
    let matcher = FuzzyMatcher::new();
    let candidates = strings(&["python", "ruby", "go"]);

    let result = matcher.find_best_match("xyz", &candidates);
    // The matcher may or may not find anything, but it must not panic.
    let _ = result;
}

#[test]
fn test_fuzzy_find_path() {
    let candidates = strings(&["src/main.rs", "src/lib.rs", "Cargo.toml"]);
    let result = fuzzy_find_path("main", &candidates);
    assert!(result.is_some());
}

#[test]
fn test_select_corrections_sorting() {
    let corrections = vec![
        CorrectedCommand::new("cmd3", 300),
        CorrectedCommand::new("cmd1", 100),
        CorrectedCommand::new("cmd2", 200),
    ];

    let sorted = select_corrections(corrections, None);
    assert_eq!(sorted[0].priority, 100);
    assert_eq!(sorted[1].priority, 200);
    assert_eq!(sorted[2].priority, 300);
}

#[test]
fn test_select_corrections_with_limit() {
    let corrections = vec![
        CorrectedCommand::new("cmd1", 100),
        CorrectedCommand::new("cmd2", 200),
        CorrectedCommand::new("cmd3", 300),
    ];

    let limited = select_corrections(corrections, Some(2));
    assert_eq!(limited.len(), 2);
}

#[test]
fn test_find_all_matches_sorted_descending() {
    let matcher = FuzzyMatcher::new();
    let candidates = strings(&["git status", "git stash", "ls"]);
    let matches = matcher.find_all_matches("git status", &candidates, 0);
    assert!(!matches.is_empty());
    for pair in matches.windows(2) {
        assert!(pair[0].1 >= pair[1].1);
    }
    assert_eq!(matches[0].0, "git status");
}

#[test]
fn test_filter_by_fuzzy_match_drops_poor_candidates() {
    let matcher = FuzzyMatcher::new();
    let candidates = strings(&["git status", "unrelated"]);
    let strong = matcher
        .find_best_match("git status", &candidates)
        .expect("an exact candidate must align");
    let kept = cmdfix::fuzzy::filter_by_fuzzy_match("git status", &candidates, strong.1);
    assert_eq!(kept, vec!["git status".to_string()]);
}
