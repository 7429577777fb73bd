//! Fuzzy selection of one candidate for a query.

use vstd::prelude::*;

verus! {

/// The score that the skim matcher, as `SkimMatcherV2::default()` makes it, gives a
/// candidate for a query; `None` where the query's characters do not occur in the
/// candidate in order.
pub uninterp spec fn skim_score(choice: Seq<char>, pattern: Seq<char>) -> Option<i64>;

/// `FuzzyMatcher::fuzzy_match` on a fresh `SkimMatcherV2::default()`. Believed of it:
/// the score depends on the two texts alone, and an empty pattern scores zero on every
/// candidate. The matcher sums at most a few dozen points for each character of the
/// pattern in 32 bits, so that a sum leaves that range only for a pattern of tens of
/// millions of characters.
#[verifier::external_body]
pub(crate) fn fuzzy_score(choice: &str, pattern: &str) -> (r: Option<i64>)
    ensures
        r == skim_score(choice@, pattern@),
        pattern@.len() == 0 ==> r == Some(0i64),
{
    let matcher = fuzzy_matcher::skim::SkimMatcherV2::default();
    fuzzy_matcher::FuzzyMatcher::fuzzy_match(&matcher, choice, pattern)
}

/// What a score counts for in the selection. A candidate that does not match counts as
/// zero, which is where the selection starts.
pub open spec fn rank(score: Option<i64>) -> int {
    match score {
        Some(s) => s as int,
        None => 0,
    }
}

/// Candidate `i` is the one selected: its score is above zero, no score is higher, and
/// every candidate before it scores lower.
pub open spec fn is_winner(scores: Seq<Option<i64>>, i: int) -> bool {
    &&& 0 <= i < scores.len()
    &&& rank(scores[i]) > 0
    &&& forall|j: int| 0 <= j < scores.len() ==> rank(#[trigger] scores[j]) <= rank(scores[i])
    &&& forall|j: int| 0 <= j < i ==> rank(#[trigger] scores[j]) < rank(scores[i])
}

/// The index of the selected candidate, if one is selected.
pub open spec fn winner(scores: Seq<Option<i64>>) -> Option<int> {
    if exists|i: int| is_winner(scores, i) {
        Some(choose|i: int| is_winner(scores, i))
    } else {
        None
    }
}

/// The scores of the candidates for a query, in the candidates' order.
pub open spec fn scores_of(candidates: Seq<Seq<char>>, query: Seq<char>) -> Seq<Option<i64>> {
    Seq::new(candidates.len(), |i: int| skim_score(candidates[i], query))
}

/// The candidate selected for a query.
pub open spec fn best_match(candidates: Seq<Seq<char>>, query: Seq<char>) -> Option<Seq<char>> {
    match winner(scores_of(candidates, query)) {
        Some(i) => Some(candidates[i]),
        None => None,
    }
}

/// At most one candidate is selected.
pub proof fn lemma_winner_unique(scores: Seq<Option<i64>>, i: int, j: int)
    requires
        is_winner(scores, i),
        is_winner(scores, j),
    ensures
        i == j,
{
    if i < j {
        assert(rank(scores[i]) < rank(scores[j]));
        assert(rank(scores[j]) <= rank(scores[i]));
    } else if j < i {
        assert(rank(scores[j]) < rank(scores[i]));
        assert(rank(scores[i]) <= rank(scores[j]));
    }
}

/// Where no score is above zero, nothing is selected.
pub proof fn lemma_no_positive_no_winner(scores: Seq<Option<i64>>)
    requires
        forall|j: int| 0 <= j < scores.len() ==> rank(#[trigger] scores[j]) <= 0,
    ensures
        winner(scores) is None,
{
}

/// A candidate that is selected has a score above zero.
pub proof fn lemma_winner_scores_above_zero(scores: Seq<Option<i64>>)
    ensures
        match winner(scores) {
            Some(i) => 0 <= i < scores.len() && scores[i] is Some && scores[i].unwrap() > 0,
            None => true,
        },
{
}

/// The selection among given scores: the first of the highest, if it is above zero.
pub fn pick_best(scores: &Vec<Option<i64>>) -> (r: Option<usize>)
    ensures
        match r {
            Some(i) => winner(scores@) == Some(i as int),
            None => winner(scores@) is None,
        },
        r is None <==> forall|j: int| 0 <= j < scores.len() ==> rank(#[trigger] scores[j]) <= 0,
{
    let mut best_score: i64 = 0;
    let mut best: Option<usize> = None;
    let mut k: usize = 0;
    while k < scores.len()
        invariant
            k <= scores.len(),
            best_score >= 0,
            forall|j: int| 0 <= j < k ==> rank(#[trigger] scores[j]) <= best_score,
            match best {
                Some(i) => {
                    &&& i < k
                    &&& rank(scores[i as int]) == best_score
                    &&& best_score > 0
                    &&& forall|j: int| 0 <= j < i ==> rank(#[trigger] scores[j]) < best_score
                },
                None => best_score == 0,
            },
        decreases scores.len() - k,
    {
        if let Some(score) = scores[k] {
            if score > best_score {
                best_score = score;
                best = Some(k);
            }
        }
        k = k + 1;
    }
    proof {
        match best {
            Some(i) => {
                assert(is_winner(scores@, i as int));
                lemma_winner_unique(scores@, i as int, winner(scores@).unwrap());
            },
            None => {
                lemma_no_positive_no_winner(scores@);
            },
        }
    }
    best
}

/// The score of every candidate for a query.
pub fn score_all(candidates: &Vec<String>, query: &str) -> (scores: Vec<Option<i64>>)
    ensures
        scores@ == scores_of(candidates.deep_view(), query@),
        query@.len() == 0 ==> forall|j: int|
            0 <= j < scores.len() ==> #[trigger] scores[j] == Some(0i64),
{
    let mut scores: Vec<Option<i64>> = Vec::new();
    let mut k: usize = 0;
    while k < candidates.len()
        invariant
            k <= candidates.len(),
            scores.len() == k,
            forall|j: int|
                0 <= j < k ==> #[trigger] scores[j] == skim_score(candidates[j]@, query@),
            query@.len() == 0 ==> forall|j: int| 0 <= j < k ==> #[trigger] scores[j] == Some(0i64),
        decreases candidates.len() - k,
    {
        let score = fuzzy_score(candidates[k].as_str(), query);
        scores.push(score);
        k = k + 1;
    }
    assert(scores@ =~= scores_of(candidates.deep_view(), query@));
    scores
}

/// The candidate selected for a query: the first of those with the highest score, and
/// none where no score is above zero. An empty query selects none.
pub fn find_best(candidates: &Vec<String>, query: &str) -> (r: Option<String>)
    ensures
        r.deep_view() == best_match(candidates.deep_view(), query@),
        query@.len() == 0 ==> r is None,
        r is Some ==> exists|i: int|
            0 <= i < candidates.len() && candidates[i]@ == r.unwrap()@ && rank(
                skim_score(#[trigger] candidates[i]@, query@),
            ) > 0,
{
    let scores = score_all(candidates, query);
    match pick_best(&scores) {
        Some(i) => {
            let chosen: String = candidates[i].clone();
            assert(candidates.deep_view()[i as int] == candidates[i as int]@);
            Some(chosen)
        },
        None => None,
    }
}

/// The candidates that have a score, whatever it is, in the candidates' order.
pub open spec fn matching(candidates: Seq<Seq<char>>, scores: Seq<Option<i64>>) -> Seq<Seq<char>>
    recommends
        candidates.len() == scores.len(),
    decreases candidates.len(),
{
    if candidates.len() == 0 || scores.len() == 0 {
        Seq::empty()
    } else {
        let before = matching(candidates.drop_last(), scores.drop_last());
        if scores.last() is Some {
            before.push(candidates.last())
        } else {
            before
        }
    }
}

/// The candidates that have a score among given scores, one for each candidate.
pub fn select_matching(candidates: &Vec<String>, scores: &Vec<Option<i64>>) -> (out: Vec<String>)
    requires
        candidates.len() == scores.len(),
    ensures
        out.deep_view() == matching(candidates.deep_view(), scores@),
{
    let ghost all = candidates.deep_view();
    let mut out: Vec<String> = Vec::new();
    let mut k: usize = 0;
    assert(all.take(0) =~= Seq::<Seq<char>>::empty());
    assert(out.deep_view() =~= Seq::<Seq<char>>::empty());
    while k < candidates.len()
        invariant
            k <= candidates.len(),
            candidates.len() == scores.len(),
            all == candidates.deep_view(),
            out.deep_view() == matching(all.take(k as int), scores@.take(k as int)),
        decreases candidates.len() - k,
    {
        let ghost before = out.deep_view();
        proof {
            assert(all.take(k + 1).drop_last() =~= all.take(k as int));
            assert(scores@.take(k + 1).drop_last() =~= scores@.take(k as int));
            assert(all.take(k + 1).last() == candidates[k as int]@);
            assert(scores@.take(k + 1).last() == scores[k as int]);
        }
        if scores[k].is_some() {
            let entry: String = candidates[k].clone();
            out.push(entry);
            assert(out.deep_view() =~= before.push(entry@));
        }
        k = k + 1;
    }
    proof {
        assert(all.take(k as int) =~= all);
        assert(scores@.take(k as int) =~= scores@);
    }
    out
}

/// The candidates that match a query at all, in the candidates' order.
pub fn matching_candidates(candidates: &Vec<String>, query: &str) -> (out: Vec<String>)
    ensures
        out.deep_view() == matching(
            candidates.deep_view(),
            scores_of(candidates.deep_view(), query@),
        ),
{
    let scores = score_all(candidates, query);
    select_matching(candidates, &scores)
}

} // verus!
