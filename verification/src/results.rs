//! Search results, and the order in which they are handed out.
//!
//! Whatever the store replies, the results that leave the library score
//! above the threshold, run from the highest score down and are no more than
//! the limit. Rows of equal score keep the order in which the store gave
//! them, and the store is asked to give them in the order of their
//! identifiers: so the same records always come out in the same order.

use vstd::prelude::*;
use crate::score::Score;

verus! {

/// One search result: the identifier of a stored record and its score.
#[derive(Clone, Debug)]
pub struct SearchMatch {
    pub id: String,
    pub similarity_score: Score,
}

impl SearchMatch {
    /// A copy of this result.
    pub fn duplicate(&self) -> (copy: SearchMatch)
        ensures
            copy == *self,
    {
        SearchMatch { id: self.id.clone(), similarity_score: self.similarity_score }
    }
}

/// Row `i` exists and scores above the threshold.
pub open spec fn eligible(rows: Seq<SearchMatch>, threshold: Score, i: int) -> bool {
    0 <= i < rows.len() && rows[i].similarity_score.above(threshold)
}

/// The rank of the score of row `i`.
pub open spec fn rank_at(rows: Seq<SearchMatch>, i: int) -> int {
    rows[i].similarity_score.rank()
}

/// Row `i` is handed out before row `j`: it scores higher, or the same and
/// the store gave it first.
pub open spec fn outranks(rows: Seq<SearchMatch>, i: int, j: int) -> bool {
    rank_at(rows, i) > rank_at(rows, j) || (rank_at(rows, i) == rank_at(rows, j) && i < j)
}

/// `picks` lists, in the order of handing out, the rows that are handed out:
/// only eligible rows, each before the rows it outranks, at most `limit` of
/// them, and a row is left out only when `limit` rows outrank it.
pub open spec fn is_ranking(
    rows: Seq<SearchMatch>,
    threshold: Score,
    limit: nat,
    picks: Seq<int>,
) -> bool {
    &&& picks.len() <= limit
    &&& forall|k: int| 0 <= k < picks.len() ==> eligible(rows, threshold, #[trigger] picks[k])
    &&& forall|k: int, l: int|
        0 <= k < l < picks.len() ==> outranks(rows, #[trigger] picks[k], #[trigger] picks[l])
    &&& forall|i: int| #[trigger]
        eligible(rows, threshold, i) && !picks.contains(i) ==> picks.len() == limit
            && passed_over(rows, picks, i)
}

/// Every picked row outranks row `i`.
pub open spec fn passed_over(rows: Seq<SearchMatch>, picks: Seq<int>, i: int) -> bool {
    forall|k: int| 0 <= k < picks.len() ==> outranks(rows, #[trigger] picks[k], i)
}

/// `out` holds the picked rows, in the order of the picks.
pub open spec fn selects(rows: Seq<SearchMatch>, picks: Seq<int>, out: Seq<SearchMatch>) -> bool {
    &&& out.len() == picks.len()
    &&& forall|k: int| 0 <= k < out.len() ==> #[trigger] out[k] == rows[picks[k]]
}

/// `out` is what is handed out of `rows`: the picks of their one ranking. So
/// there are no more results than the limit or than rows, each scores above
/// the threshold, and the scores never rise from one result to the next.
pub open spec fn is_ranked(
    rows: Seq<SearchMatch>,
    threshold: Score,
    limit: nat,
    out: Seq<SearchMatch>,
) -> bool {
    &&& exists|picks: Seq<int>|
        is_ranking(rows, threshold, limit, picks) && selects(rows, picks, out)
    &&& out.len() <= limit
    &&& out.len() <= rows.len()
    &&& forall|k: int| 0 <= k < out.len() ==> (#[trigger] out[k]).similarity_score.above(threshold)
    &&& forall|k: int, l: int|
        0 <= k < l < out.len() ==> (#[trigger] out[k]).similarity_score.rank() >= (
        #[trigger] out[l]).similarity_score.rank()
}

/// The eligible row that is not yet taken and outranks every other such row,
/// if there is one.
fn best_remaining(rows: &Vec<SearchMatch>, threshold: Score, taken: &Vec<bool>) -> (best: Option<
    usize,
>)
    requires
        taken@.len() == rows@.len(),
    ensures
        match best {
            Some(b) => {
                &&& eligible(rows@, threshold, b as int)
                &&& !taken@[b as int]
                &&& forall|j: int|
                    #[trigger] eligible(rows@, threshold, j) && !taken@[j] && j != b ==> outranks(
                        rows@,
                        b as int,
                        j,
                    )
            },
            None => forall|j: int| #[trigger] eligible(rows@, threshold, j) ==> taken@[j],
        },
{
    let mut best: Option<usize> = None;
    let mut i: usize = 0;
    while i < rows.len()
        invariant
            i <= rows@.len(),
            taken@.len() == rows@.len(),
            match best {
                Some(b) => {
                    &&& b < i
                    &&& eligible(rows@, threshold, b as int)
                    &&& !taken@[b as int]
                    &&& forall|j: int|
                        #[trigger] eligible(rows@, threshold, j) && j < i && !taken@[j] && j != b
                            ==> outranks(rows@, b as int, j)
                },
                None => forall|j: int|
                    #[trigger] eligible(rows@, threshold, j) && j < i ==> taken@[j],
            },
        decreases rows@.len() - i,
    {
        if !taken[i] && rows[i].similarity_score.exceeds(&threshold) {
            match best {
                None => {
                    best = Some(i);
                },
                Some(b) => {
                    if rows[i].similarity_score.exceeds(&rows[b].similarity_score) {
                        best = Some(i);
                    }
                },
            }
        }
        i += 1;
    }
    best
}

/// `picks` is where a ranking starts: only eligible rows, each before the
/// rows it outranks, and every picked row outranks every eligible row that
/// is not picked.
spec fn is_ranking_start(rows: Seq<SearchMatch>, threshold: Score, picks: Seq<int>) -> bool {
    &&& forall|k: int| 0 <= k < picks.len() ==> eligible(rows, threshold, #[trigger] picks[k])
    &&& forall|k: int, l: int|
        0 <= k < l < picks.len() ==> outranks(rows, #[trigger] picks[k], #[trigger] picks[l])
    &&& forall|i: int| #[trigger]
        eligible(rows, threshold, i) && !picks.contains(i) ==> passed_over(rows, picks, i)
}

/// The start of a ranking goes on with the eligible row that outranks every
/// other eligible row not yet picked.
proof fn ranking_goes_on(rows: Seq<SearchMatch>, threshold: Score, picks: Seq<int>, next: int)
    requires
        is_ranking_start(rows, threshold, picks),
        eligible(rows, threshold, next),
        !picks.contains(next),
        forall|j: int|
            #[trigger] eligible(rows, threshold, j) && !picks.contains(j) && j != next ==> outranks(
                rows,
                next,
                j,
            ),
    ensures
        is_ranking_start(rows, threshold, picks.push(next)),
        forall|j: int| picks.push(next).contains(j) <==> picks.contains(j) || j == next,
{
    let longer = picks.push(next);
    assert(longer[picks.len() as int] == next);
    assert forall|j: int| longer.contains(j) <==> picks.contains(j) || j == next by {
        if picks.contains(j) {
            let at = choose|at: int| 0 <= at < picks.len() && picks[at] == j;
            assert(longer[at] == j);
        }
        if longer.contains(j) && j != next {
            let at = choose|at: int| 0 <= at < longer.len() && longer[at] == j;
            assert(picks[at] == j);
        }
    }
    assert forall|k: int| 0 <= k < longer.len() implies eligible(
        rows,
        threshold,
        #[trigger] longer[k],
    ) by {
        if k < picks.len() {
            assert(longer[k] == picks[k]);
        }
    }
    assert(passed_over(rows, picks, next));
    assert forall|k: int, l: int| 0 <= k < l < longer.len() implies outranks(
        rows,
        #[trigger] longer[k],
        #[trigger] longer[l],
    ) by {
        assert(longer[k] == picks[k]);
        if l < picks.len() {
            assert(longer[l] == picks[l]);
        }
    }
    assert forall|i: int| #[trigger]
        eligible(rows, threshold, i) && !longer.contains(i) implies passed_over(
        rows,
        longer,
        i,
    ) by {
        assert(passed_over(rows, picks, i));
        assert forall|k: int| 0 <= k < longer.len() implies outranks(
            rows,
            #[trigger] longer[k],
            i,
        ) by {
            if k < picks.len() {
                assert(longer[k] == picks[k]);
            }
        }
    }
}

/// Picks from the store's rows the results to hand out: those that score
/// above `threshold`, from the highest score down, rows of equal score in
/// the store's order, and no more than `limit`.
pub fn rank_matches(rows: &Vec<SearchMatch>, threshold: Score, limit: u32) -> (out: Vec<
    SearchMatch,
>)
    ensures
        is_ranked(rows@, threshold, limit as nat, out@),
{
    let n: usize = rows.len();
    let mut taken: Vec<bool> = Vec::new();
    while taken.len() < n
        invariant
            taken@.len() <= n,
            forall|j: int| 0 <= j < taken@.len() ==> !taken@[j],
        decreases n - taken@.len(),
    {
        taken.push(false);
    }
    let mut out: Vec<SearchMatch> = Vec::new();
    let ghost mut picks: Seq<int> = Seq::empty();
    let mut done: bool = false;
    while !done && out.len() < limit as usize
        invariant
            n == rows@.len(),
            taken@.len() == n,
            out@.len() <= limit,
            selects(rows@, picks, out@),
            is_ranking_start(rows@, threshold, picks),
            forall|j: int| 0 <= j < n ==> (#[trigger] taken@[j] <==> picks.contains(j)),
            done ==> forall|i: int| #[trigger] eligible(rows@, threshold, i) ==> picks.contains(i),
        decreases (limit as int - out@.len()) + (if done { 0int } else { 1int }),
    {
        match best_remaining(rows, threshold, &taken) {
            None => {
                done = true;
            },
            Some(best) => {
                proof {
                    ranking_goes_on(rows@, threshold, picks, best as int);
                    picks = picks.push(best as int);
                }
                out.push(rows[best].duplicate());
                taken.set(best, true);
            },
        }
    }
    proof {
        assert(is_ranking(rows@, threshold, limit as nat, picks));
        ranking_fits(rows@, threshold, limit as nat, picks);
        ranking_descends(rows@, threshold, limit as nat, picks);
        assert forall|k: int, l: int| 0 <= k < l < out@.len() implies (
        #[trigger] out@[k]).similarity_score.rank() >= (
        #[trigger] out@[l]).similarity_score.rank() by {
            assert(outranks(rows@, picks[k], picks[l]));
        }
        assert forall|k: int| 0 <= k < out@.len() implies (
        #[trigger] out@[k]).similarity_score.above(threshold) by {
            assert(eligible(rows@, threshold, picks[k]));
        }
    }
    out
}

/// No row is picked twice.
pub proof fn ranking_has_no_repeats(
    rows: Seq<SearchMatch>,
    threshold: Score,
    limit: nat,
    picks: Seq<int>,
)
    requires
        is_ranking(rows, threshold, limit, picks),
    ensures
        picks.no_duplicates(),
{
    assert forall|k: int, l: int|
        0 <= k < picks.len() && 0 <= l < picks.len() && k != l implies picks[k] != picks[l] by {
        if k < l {
            assert(outranks(rows, picks[k], picks[l]));
        } else {
            assert(outranks(rows, picks[l], picks[k]));
        }
    }
}

/// No more rows are handed out than the store gave.
pub proof fn ranking_fits(rows: Seq<SearchMatch>, threshold: Score, limit: nat, picks: Seq<int>)
    requires
        is_ranking(rows, threshold, limit, picks),
    ensures
        picks.len() <= rows.len(),
        picks.len() <= limit,
{
    ranking_has_no_repeats(rows, threshold, limit, picks);
    picks.unique_seq_to_set();
    let range = vstd::set_lib::set_int_range(0, rows.len() as int);
    vstd::set_lib::lemma_int_range(0, rows.len() as int);
    assert forall|i: int| picks.to_set().contains(i) implies range.contains(i) by {
        let w = choose|w: int| 0 <= w < picks.len() && picks[w] == i;
        assert(eligible(rows, threshold, picks[w]));
    }
    vstd::set_lib::lemma_len_subset(picks.to_set(), range);
}

/// The scores of the rows handed out never rise, and they fall from one row
/// to the next wherever the two scores differ.
pub proof fn ranking_descends(
    rows: Seq<SearchMatch>,
    threshold: Score,
    limit: nat,
    picks: Seq<int>,
)
    requires
        is_ranking(rows, threshold, limit, picks),
    ensures
        forall|k: int, l: int|
            0 <= k < l < picks.len() ==> rank_at(rows, #[trigger] picks[k]) >= rank_at(
                rows,
                #[trigger] picks[l],
            ),
        forall|k: int, l: int|
            0 <= k < l < picks.len() && rank_at(rows, #[trigger] picks[k]) != rank_at(
                rows,
                #[trigger] picks[l],
            ) ==> rows[picks[k]].similarity_score.above(rows[picks[l]].similarity_score),
{
    assert forall|k: int, l: int| 0 <= k < l < picks.len() implies rank_at(
        rows,
        #[trigger] picks[k],
    ) >= rank_at(rows, #[trigger] picks[l]) by {
        assert(outranks(rows, picks[k], picks[l]));
    }
    assert forall|k: int, l: int|
        0 <= k < l < picks.len() && rank_at(rows, #[trigger] picks[k]) != rank_at(
            rows,
            #[trigger] picks[l],
        ) implies rows[picks[k]].similarity_score.above(rows[picks[l]].similarity_score) by {
        assert(outranks(rows, picks[k], picks[l]));
        assert(eligible(rows, threshold, picks[k]));
        assert(eligible(rows, threshold, picks[l]));
    }
}

/// Rows, threshold and limit decide the picks: two rankings of the same rows
/// agree on their first `upto` picks.
proof fn rankings_agree_upto(
    rows: Seq<SearchMatch>,
    threshold: Score,
    limit: nat,
    a: Seq<int>,
    b: Seq<int>,
    upto: nat,
)
    requires
        is_ranking(rows, threshold, limit, a),
        is_ranking(rows, threshold, limit, b),
        upto <= a.len(),
    ensures
        upto <= b.len(),
        forall|m: int| 0 <= m < upto ==> a[m] == b[m],
    decreases upto,
{
    if upto > 0 {
        let p = (upto - 1) as int;
        rankings_agree_upto(rows, threshold, limit, a, b, (upto - 1) as nat);
        ranking_has_no_repeats(rows, threshold, limit, a);
        ranking_has_no_repeats(rows, threshold, limit, b);
        let i = a[p];
        assert(eligible(rows, threshold, a[p]));
        if b.len() == p {
            assert(!b.contains(i)) by {
                if b.contains(i) {
                    let q = choose|q: int| 0 <= q < b.len() && b[q] == i;
                    assert(a[q] == b[q]);
                }
            }
            assert(false);
        }
        let j = b[p];
        assert(eligible(rows, threshold, b[p]));
        if j != i {
            assert(outranks(rows, j, i)) by {
                if b.contains(i) {
                    let q = choose|q: int| 0 <= q < b.len() && b[q] == i;
                    if q < p {
                        assert(a[q] == b[q]);
                    }
                    assert(outranks(rows, b[p], b[q]));
                } else {
                    assert(passed_over(rows, b, i));
                    assert(outranks(rows, b[p], i));
                }
            }
            assert(outranks(rows, i, j)) by {
                if a.contains(j) {
                    let q = choose|q: int| 0 <= q < a.len() && a[q] == j;
                    if q < p {
                        assert(a[q] == b[q]);
                    }
                    assert(outranks(rows, a[p], a[q]));
                } else {
                    assert(passed_over(rows, a, j));
                    assert(outranks(rows, a[p], j));
                }
            }
            assert(false);
        }
    }
}

/// Rows, threshold and limit decide which rows are handed out and in what
/// order: there is one ranking and no other.
pub proof fn ranking_is_unique(
    rows: Seq<SearchMatch>,
    threshold: Score,
    limit: nat,
    a: Seq<int>,
    b: Seq<int>,
)
    requires
        is_ranking(rows, threshold, limit, a),
        is_ranking(rows, threshold, limit, b),
    ensures
        a == b,
{
    rankings_agree_upto(rows, threshold, limit, a, b, a.len());
    rankings_agree_upto(rows, threshold, limit, b, a, b.len());
    assert(a =~= b);
}

/// What is handed out is decided too: two results for the same rows,
/// threshold and limit are equal.
pub proof fn ranked_result_is_unique(
    rows: Seq<SearchMatch>,
    threshold: Score,
    limit: nat,
    a: Seq<int>,
    b: Seq<int>,
    first: Seq<SearchMatch>,
    second: Seq<SearchMatch>,
)
    requires
        is_ranking(rows, threshold, limit, a),
        selects(rows, a, first),
        is_ranking(rows, threshold, limit, b),
        selects(rows, b, second),
    ensures
        first == second,
{
    ranking_is_unique(rows, threshold, limit, a, b);
    assert(first =~= second);
}

/// Where every eligible row fits under the limit, every eligible row is
/// handed out.
pub proof fn ranking_keeps_all_that_fit(
    rows: Seq<SearchMatch>,
    threshold: Score,
    limit: nat,
    picks: Seq<int>,
    i: int,
)
    requires
        is_ranking(rows, threshold, limit, picks),
        picks.len() < limit,
        eligible(rows, threshold, i),
    ensures
        picks.contains(i),
{
}

/// With no two eligible rows of the same score, the scores handed out fall
/// strictly from each row to the next.
pub proof fn ranking_is_strict_without_ties(
    rows: Seq<SearchMatch>,
    threshold: Score,
    limit: nat,
    picks: Seq<int>,
)
    requires
        is_ranking(rows, threshold, limit, picks),
        forall|i: int, j: int|
            eligible(rows, threshold, i) && eligible(rows, threshold, j) && i != j ==> rank_at(
                rows,
                i,
            ) != rank_at(rows, j),
    ensures
        forall|k: int, l: int|
            0 <= k < l < picks.len() ==> rows[#[trigger] picks[k]].similarity_score.above(
                rows[#[trigger] picks[l]].similarity_score,
            ),
{
    ranking_has_no_repeats(rows, threshold, limit, picks);
    ranking_descends(rows, threshold, limit, picks);
    assert forall|k: int, l: int| 0 <= k < l < picks.len() implies rows[
        #[trigger] picks[k]
    ].similarity_score.above(rows[#[trigger] picks[l]].similarity_score) by {
        assert(eligible(rows, threshold, picks[k]));
        assert(eligible(rows, threshold, picks[l]));
        assert(picks[k] != picks[l]);
    }
}

/// Nothing is handed out of an empty reply.
pub proof fn ranking_of_nothing_is_empty(threshold: Score, limit: nat, picks: Seq<int>)
    requires
        is_ranking(Seq::<SearchMatch>::empty(), threshold, limit, picks),
    ensures
        picks.len() == 0,
{
    if picks.len() > 0 {
        assert(eligible(Seq::<SearchMatch>::empty(), threshold, picks[0]));
    }
}

/// With room for at least one result, the row that no eligible row outranks
/// is handed out first.
pub proof fn best_row_comes_first(
    rows: Seq<SearchMatch>,
    threshold: Score,
    limit: nat,
    picks: Seq<int>,
    best: int,
)
    requires
        is_ranking(rows, threshold, limit, picks),
        limit > 0,
        eligible(rows, threshold, best),
        forall|j: int| #[trigger] eligible(rows, threshold, j) ==> !outranks(rows, j, best),
    ensures
        picks.len() > 0,
        picks[0] == best,
{
    if picks.contains(best) {
        let at = choose|at: int| 0 <= at < picks.len() && picks[at] == best;
        if at > 0 {
            assert(eligible(rows, threshold, picks[0]));
            assert(outranks(rows, picks[0], picks[at]));
        }
    } else {
        assert(passed_over(rows, picks, best));
        assert(eligible(rows, threshold, picks[0]));
        assert(outranks(rows, picks[0], best));
    }
}

/// A reply that fits is handed out whole: where every row scores above the
/// threshold and there are no more rows than the limit, every row is picked,
/// and nothing else.
pub proof fn ranking_keeps_whole_reply(
    rows: Seq<SearchMatch>,
    threshold: Score,
    limit: nat,
    picks: Seq<int>,
)
    requires
        is_ranking(rows, threshold, limit, picks),
        rows.len() <= limit,
        forall|i: int| 0 <= i < rows.len() ==> eligible(rows, threshold, i),
    ensures
        picks.len() == rows.len(),
        forall|i: int| 0 <= i < rows.len() ==> picks.contains(i),
{
    ranking_has_no_repeats(rows, threshold, limit, picks);
    ranking_fits(rows, threshold, limit, picks);
    picks.unique_seq_to_set();
    let range = vstd::set_lib::set_int_range(0, rows.len() as int);
    vstd::set_lib::lemma_int_range(0, rows.len() as int);
    assert forall|i: int| picks.to_set().contains(i) implies range.contains(i) by {
        let at = choose|at: int| 0 <= at < picks.len() && picks[at] == i;
        assert(eligible(rows, threshold, picks[at]));
    }
    if picks.len() == rows.len() {
        vstd::set_lib::lemma_subset_equality(picks.to_set(), range);
        assert forall|i: int| 0 <= i < rows.len() implies picks.contains(i) by {
            assert(range.contains(i));
        }
    } else {
        assert forall|i: int| 0 <= i < rows.len() implies picks.contains(i) by {
            assert(eligible(rows, threshold, i));
        }
        assert forall|i: int| range.contains(i) implies picks.to_set().contains(i) by {
            assert(picks.contains(i));
        }
        vstd::set_lib::lemma_len_subset(range, picks.to_set());
    }
}

} // verus!
