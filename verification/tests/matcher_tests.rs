use cmd_launcher::matcher::{
    find_best, matching_candidates, pick_best, score_all, select_matching,
};
use fuzzy_matcher::skim::SkimMatcherV2;
use fuzzy_matcher::FuzzyMatcher;

fn strings(items: &[&str]) -> Vec<String> {
    items.iter().map(|s| s.to_string()).collect()
}

#[test]
fn pick_best_takes_first_of_the_highest() {
    assert_eq!(pick_best(&vec![Some(5), Some(9), Some(9), None]), Some(1));
    assert_eq!(pick_best(&vec![None, Some(1)]), Some(1));
    assert_eq!(pick_best(&vec![Some(7), Some(3)]), Some(0));
}

#[test]
fn pick_best_never_takes_a_score_of_zero_or_less() {
    assert_eq!(pick_best(&vec![Some(0), None]), None);
    assert_eq!(pick_best(&vec![Some(-3)]), None);
    assert_eq!(pick_best(&vec![Some(0), Some(0), Some(0)]), None);
    assert_eq!(pick_best(&vec![]), None);
    assert_eq!(pick_best(&vec![Some(-3), Some(0), Some(2)]), Some(2));
}

#[test]
fn score_all_gives_the_matcher_scores_in_order() {
    let candidates = strings(&["abc", "axbycz", "", "abcdefaghi"]);
    let matcher = SkimMatcherV2::default();
    for query in ["abx", "abc", "a", "", "AB"] {
        let expected: Vec<Option<i64>> =
            candidates.iter().map(|c| matcher.fuzzy_match(c, query)).collect();
        assert_eq!(score_all(&candidates, query), expected, "query {:?}", query);
    }
}

#[test]
fn score_all_knows_matches_from_misses() {
    let scores = score_all(&strings(&["abc", "axbycz", ""]), "abx");
    assert_eq!(scores, vec![None, None, None]);
    let scores = score_all(&strings(&["axbycz", "xyz", ""]), "abc");
    assert!(scores[0].is_some());
    assert_eq!(scores[1], None);
    assert_eq!(scores[2], None);
}

#[test]
fn empty_query_scores_zero_and_selects_nothing() {
    let candidates = strings(&["ls", "git status"]);
    assert_eq!(score_all(&candidates, ""), vec![Some(0), Some(0)]);
    assert_eq!(find_best(&candidates, ""), None);
}

#[test]
fn find_best_selects_the_only_match() {
    let candidates = strings(&["zzz", "ls -la", "make"]);
    assert_eq!(find_best(&candidates, "ls"), Some("ls -la".to_string()));
}

#[test]
fn find_best_selects_nothing_where_nothing_matches() {
    let candidates = strings(&["zzz", "make"]);
    assert_eq!(find_best(&candidates, "ls"), None);
    assert_eq!(find_best(&Vec::new(), "ls"), None);
}

#[test]
fn find_best_agrees_with_a_scan_for_the_first_highest_score() {
    let candidates =
        strings(&["git stash", "git status", "cargo test", "gst", "ls -la", "git status"]);
    let matcher = SkimMatcherV2::default();
    for query in ["gst", "git", "st", "t", "ls", "zz", "GIT", ""] {
        let mut best = 0;
        let mut expected: Option<String> = None;
        for c in candidates.iter() {
            if let Some(score) = matcher.fuzzy_match(c, query) {
                if score > best {
                    best = score;
                    expected = Some(c.clone());
                }
            }
        }
        assert_eq!(find_best(&candidates, query), expected, "query {:?}", query);
    }
}

#[test]
fn find_best_gives_the_same_answer_every_time() {
    let candidates = strings(&["git stash", "git status", "gst"]);
    let first = find_best(&candidates, "gst");
    for _ in 0..5 {
        assert_eq!(find_best(&candidates, "gst"), first);
    }
    assert!(first.is_some());
}

#[test]
fn selected_candidate_has_a_positive_score() {
    let candidates = strings(&["git stash", "cargo test", "ls"]);
    let matcher = SkimMatcherV2::default();
    for query in ["g", "ct", "ls", "s"] {
        if let Some(best) = find_best(&candidates, query) {
            assert!(matcher.fuzzy_match(&best, query).unwrap() > 0);
        }
    }
}

#[test]
fn select_matching_keeps_candidates_with_any_score() {
    let candidates = strings(&["a", "b", "c", "d"]);
    let scores = vec![Some(0), None, Some(-2), Some(10)];
    assert_eq!(select_matching(&candidates, &scores), strings(&["a", "c", "d"]));
}

#[test]
fn matching_candidates_lists_matches_in_order() {
    let candidates = strings(&["make", "ls -la", "zzz", "tail -f log"]);
    assert_eq!(matching_candidates(&candidates, "l"), strings(&["ls -la", "tail -f log"]));
    assert_eq!(matching_candidates(&candidates, ""), candidates);
    assert!(matching_candidates(&candidates, "qq").is_empty());
}
