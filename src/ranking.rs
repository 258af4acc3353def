use vstd::prelude::*;
use crate::enrichment::{EnrichedOffer, EnrichedScores};

verus! {

/// The score dimension that recommended offers can be ranked by.
#[derive(Clone, Copy, Debug, PartialEq, Eq, Structural)]
pub enum SortKey {
    Safety,
    Economy,
    QualityOfLife,
    Culture,
}

impl SortKey {
    /// The dimension a requested sort name stands for; none for any other name.
    pub open spec fn named(s: Seq<char>) -> Option<SortKey> {
        if s == "safety"@ {
            Some(SortKey::Safety)
        } else if s == "economy"@ {
            Some(SortKey::Economy)
        } else if s == "quality_of_life"@ {
            Some(SortKey::QualityOfLife)
        } else if s == "culture"@ {
            Some(SortKey::Culture)
        } else {
            None
        }
    }

    pub fn parse(s: &str) -> (r: Option<SortKey>)
        ensures
            r == SortKey::named(s@),
    {
        let t: String = s.to_owned();
        if t == "safety".to_owned() {
            Some(SortKey::Safety)
        } else if t == "economy".to_owned() {
            Some(SortKey::Economy)
        } else if t == "quality_of_life".to_owned() {
            Some(SortKey::QualityOfLife)
        } else if t == "culture".to_owned() {
            Some(SortKey::Culture)
        } else {
            None
        }
    }

    pub open spec fn score_of(self, s: EnrichedScores) -> i32 {
        match self {
            SortKey::Safety => s.safety,
            SortKey::Economy => s.economy,
            SortKey::QualityOfLife => s.quality_of_life,
            SortKey::Culture => s.culture,
        }
    }

    pub fn score(self, s: &EnrichedScores) -> (r: i32)
        ensures
            r == self.score_of(*s),
    {
        match self {
            SortKey::Safety => s.safety,
            SortKey::Economy => s.economy,
            SortKey::QualityOfLife => s.quality_of_life,
            SortKey::Culture => s.culture,
        }
    }
}

/// Scores on dimension `k` never rise along `s`.
pub open spec fn descending(s: Seq<EnrichedOffer>, k: SortKey) -> bool {
    forall|i: int, j: int|
        0 <= i < j < s.len() ==> k.score_of(#[trigger] s[i].scores) >= k.score_of(
            #[trigger] s[j].scores,
        )
}

pub open spec fn scoring(k: SortKey, v: i32) -> spec_fn(EnrichedOffer) -> bool {
    |e: EnrichedOffer| k.score_of(e.scores) == v
}

/// `r` is `s` sorted by dimension `k`, highest first, and offers with equal
/// scores keep their order in `s`.
pub open spec fn stably_sorted(r: Seq<EnrichedOffer>, s: Seq<EnrichedOffer>, k: SortKey) -> bool {
    &&& descending(r, k)
    &&& forall|v: i32| r.filter(#[trigger] scoring(k, v)) == s.filter(scoring(k, v))
}

proof fn lemma_insert_in_place(r: Seq<EnrichedOffer>, p: int, x: EnrichedOffer, k: SortKey)
    requires
        descending(r, k),
        0 <= p <= r.len(),
        forall|q: int| 0 <= q < p ==> k.score_of(#[trigger] r[q].scores) > k.score_of(x.scores),
        forall|q: int| p <= q < r.len() ==> k.score_of(#[trigger] r[q].scores) <= k.score_of(x.scores),
    ensures
        descending(r.insert(p, x), k),
        forall|v: i32|
            r.insert(p, x).filter(#[trigger] scoring(k, v)) == (if k.score_of(x.scores) == v {
                seq![x]
            } else {
                Seq::empty()
            }) + r.filter(scoring(k, v)),
{
    let head = r.take(p);
    let tail = r.skip(p);
    assert(r.insert(p, x) =~= head + (seq![x] + tail));
    assert(r =~= head + tail);
    assert forall|v: i32|
        r.insert(p, x).filter(#[trigger] scoring(k, v)) == (if k.score_of(x.scores) == v {
            seq![x]
        } else {
            Seq::empty()
        }) + r.filter(scoring(k, v)) by {
        let f = scoring(k, v);
        Seq::filter_distributes_over_add(head, seq![x] + tail, f);
        Seq::filter_distributes_over_add(head, tail, f);
        tail.lemma_filter_prepend(x, f);
        if k.score_of(x.scores) == v {
            assert forall|q: int| 0 <= q < head.len() implies !f(#[trigger] head[q]) by {
                assert(k.score_of(r[q].scores) > k.score_of(x.scores));
            }
            assert(head.all(|e: EnrichedOffer| !f(e)));
            head.lemma_all_neg_filter_empty(f);
            assert(head.filter(f) =~= Seq::empty());
            assert(head.filter(f) + tail.filter(f) =~= tail.filter(f));
            assert(head.filter(f) + (seq![x] + tail.filter(f)) =~= seq![x] + tail.filter(f));
        } else {
            assert(Seq::<EnrichedOffer>::empty() + tail.filter(f) =~= tail.filter(f));
        }
    }
    let r2 = r.insert(p, x);
    assert forall|i: int, j: int| 0 <= i < j < r2.len() implies k.score_of(
        #[trigger] r2[i].scores,
    ) >= k.score_of(#[trigger] r2[j].scores) by {
        if j < p {
            assert(r2[i] == r[i] && r2[j] == r[j]);
        } else if j == p {
            assert(r2[i] == r[i]);
        } else if i < p {
            assert(r2[i] == r[i] && r2[j] == r[j - 1]);
        } else if i == p {
            assert(r2[j] == r[j - 1]);
        } else {
            assert(r2[i] == r[i - 1] && r2[j] == r[j - 1]);
        }
    }
}

/// Sorts by dimension `k`, highest first; a stable sort.
pub fn sort_by_score(pool: &mut Vec<EnrichedOffer>, k: SortKey)
    ensures
        stably_sorted(final(pool)@, old(pool)@, k),
{
    let ghost orig = pool@;
    let mut r: Vec<EnrichedOffer> = Vec::new();
    assert(orig.skip(orig.len() as int) =~= Seq::empty());
    while pool.len() > 0
        invariant
            pool@ == orig.take(pool.len() as int),
            pool.len() <= orig.len(),
            descending(r@, k),
            forall|v: i32|
                r@.filter(#[trigger] scoring(k, v)) == orig.skip(pool.len() as int).filter(
                    scoring(k, v),
                ),
        decreases pool.len(),
    {
        let ghost m = pool.len() as int;
        let x = match pool.pop() {
            Some(e) => e,
            None => {
                return ;
            },
        };
        assert(x == orig[m - 1]);
        assert(orig.skip(m - 1) =~= seq![x] + orig.skip(m));
        assert(pool@ =~= orig.take(m - 1));
        let kx = k.score(&x.scores);
        let mut p: usize = 0;
        while p < r.len() && k.score(&r[p].scores) > kx
            invariant
                p <= r.len(),
                forall|q: int| 0 <= q < p ==> k.score_of(#[trigger] r@[q].scores) > kx,
            decreases r.len() - p,
        {
            p += 1;
        }
        proof {
            assert forall|q: int| p <= q < r.len() implies k.score_of(#[trigger] r@[q].scores)
                <= kx by {
                if q > p {
                    assert(k.score_of(r@[p as int].scores) >= k.score_of(r@[q].scores));
                }
            }
            lemma_insert_in_place(r@, p as int, x, k);
            assert forall|v: i32|
                orig.skip(m - 1).filter(#[trigger] scoring(k, v)) == (if kx == v {
                    seq![x]
                } else {
                    Seq::empty()
                }) + orig.skip(m).filter(scoring(k, v)) by {
                orig.skip(m).lemma_filter_prepend(x, scoring(k, v));
            }
        }
        r.insert(p, x);
    }
    assert(orig.skip(0) =~= orig);
    *pool = r;
}

proof fn lemma_filter_of_head(r: Seq<EnrichedOffer>, k: SortKey, v: i32)
    requires
        r.len() > 0,
    ensures
        r.filter(scoring(k, v)) == (if k.score_of(r[0].scores) == v {
            seq![r[0]]
        } else {
            Seq::empty()
        }) + r.drop_first().filter(scoring(k, v)),
{
    assert(r =~= seq![r[0]] + r.drop_first());
    r.drop_first().lemma_filter_prepend(r[0], scoring(k, v));
}

/// Some offer of `r` scores `v` on `k` exactly where the offers of `r`
/// scoring `v` are not none.
proof fn lemma_scoring_present(r: Seq<EnrichedOffer>, k: SortKey, i: int)
    requires
        0 <= i < r.len(),
    ensures
        r.filter(scoring(k, k.score_of(r[i].scores))).len() > 0,
{
    let f = scoring(k, k.score_of(r[i].scores));
    r.lemma_filter_contains(f, i);
}

/// A stable sort has one outcome: two sequences sorted by dimension `k`,
/// highest first, whose offers of each score come in the same order are
/// the same sequence.
pub proof fn law_stable_sort_is_unique(r1: Seq<EnrichedOffer>, r2: Seq<EnrichedOffer>, k: SortKey)
    requires
        descending(r1, k),
        descending(r2, k),
        forall|v: i32| r1.filter(#[trigger] scoring(k, v)) == r2.filter(scoring(k, v)),
    ensures
        r1 == r2,
    decreases r1.len(),
{
    if r1.len() == 0 {
        if r2.len() > 0 {
            lemma_scoring_present(r2, k, 0);
            r1.lemma_filter_len(scoring(k, k.score_of(r2[0].scores)));
        }
        assert(r1 =~= r2);
    } else {
        lemma_scoring_present(r1, k, 0);
        let m1 = k.score_of(r1[0].scores);
        assert(r2.filter(scoring(k, m1)).len() > 0);
        r2.lemma_filter_len(scoring(k, m1));
        let m2 = k.score_of(r2[0].scores);
        lemma_scoring_present(r2, k, 0);
        // each head holds the highest score of its sequence
        assert(r1.filter(scoring(k, m2)).len() > 0);
        let x1 = r1.filter(scoring(k, m2))[0];
        r1.lemma_filter_pred(scoring(k, m2), 0);
        r1.filter(scoring(k, m2)).lemma_index_contains(0);
        r1.lemma_filter_contains_rev(scoring(k, m2), x1);
        let j1 = choose|j: int| 0 <= j < r1.len() && r1[j] == x1;
        assert(m1 >= m2) by {
            if j1 > 0 {
                assert(k.score_of(r1[0].scores) >= k.score_of(r1[j1].scores));
            }
        }
        let x2 = r2.filter(scoring(k, m1))[0];
        r2.lemma_filter_pred(scoring(k, m1), 0);
        r2.filter(scoring(k, m1)).lemma_index_contains(0);
        r2.lemma_filter_contains_rev(scoring(k, m1), x2);
        let j2 = choose|j: int| 0 <= j < r2.len() && r2[j] == x2;
        assert(m2 >= m1) by {
            if j2 > 0 {
                assert(k.score_of(r2[0].scores) >= k.score_of(r2[j2].scores));
            }
        }
        lemma_filter_of_head(r1, k, m1);
        lemma_filter_of_head(r2, k, m1);
        assert(r1[0] == r1.filter(scoring(k, m1))[0]);
        assert(r2[0] == r2.filter(scoring(k, m1))[0]);
        let t1 = r1.drop_first();
        let t2 = r2.drop_first();
        assert forall|v: i32| t1.filter(#[trigger] scoring(k, v)) == t2.filter(scoring(k, v)) by {
            lemma_filter_of_head(r1, k, v);
            lemma_filter_of_head(r2, k, v);
            let h: Seq<EnrichedOffer> = if m1 == v {
                seq![r1[0]]
            } else {
                Seq::empty()
            };
            assert((h + t1.filter(scoring(k, v))).skip(h.len() as int) =~= t1.filter(scoring(k, v)));
            assert((h + t2.filter(scoring(k, v))).skip(h.len() as int) =~= t2.filter(scoring(k, v)));
        }
        law_stable_sort_is_unique(t1, t2, k);
        assert(r1.filter(scoring(k, m1)) == r2.filter(scoring(k, m1)));
        assert(r1[0] == r2[0]);
        assert(r1 =~= seq![r1[0]] + t1);
        assert(r2 =~= seq![r2[0]] + t2);
    }
}

} // verus!
