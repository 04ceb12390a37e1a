//! The ranking engine: scores every detector against one snapshot of the
//! evidence, keeps those that reach a threshold, and orders them, most
//! confident first.

use crate::detector::{
    detector_cmp, lemma_detector_cmp_order, lemma_detector_cmp_transitive,
    lemma_own_evidence_scores_max, lemma_score_bounds, lemma_specific_max_score, Detector,
};
use crate::environment::{ComputeEnvironmentIter, ENVIRONMENT_COUNT};
use crate::specificity::name_set;
use crate::environment::ComputeEnvironment;
use crate::smbios::Smbios;
use crate::specificity::Specificity;
use std::cmp::Ordering;
use vstd::prelude::*;

verus! {

/// `a`, scoring `sa`, goes before `b`, scoring `sb`: its score is higher, or
/// the scores are equal and `a` is strictly more specific.
pub open spec fn outranks(a: Detector, sa: int, b: Detector, sb: int) -> bool {
    sa > sb || (sa == sb && detector_cmp(a, b) == Some(Ordering::Greater))
}

/// The score of the detector at index `i`.
pub open spec fn score_at(detectors: Seq<Detector>, smbios: Smbios, present: Seq<&str>, i: int) -> int {
    detectors[i].score(smbios, present) as int
}

/// `order` is a valid ranking of `detectors`: it lists, once each, the
/// indices of the detectors that score at least `threshold`, and none of
/// them is outranked by one listed after it.
pub open spec fn is_ranking(
    detectors: Seq<Detector>,
    smbios: Smbios,
    present: Seq<&str>,
    threshold: int,
    order: Seq<usize>,
) -> bool {
    &&& order.no_duplicates()
    &&& forall|k: int|
        0 <= k < order.len() ==> #[trigger] order[k] < detectors.len() && score_at(
            detectors,
            smbios,
            present,
            order[k] as int,
        ) >= threshold
    &&& forall|i: int|
        0 <= i < detectors.len() && score_at(detectors, smbios, present, i) >= threshold
            ==> order.contains(i as usize)
    &&& forall|p: int, q: int|
        0 <= p < q < order.len() ==> !outranks(
            detectors[#[trigger] order[q] as int],
            score_at(detectors, smbios, present, order[q] as int),
            detectors[#[trigger] order[p] as int],
            score_at(detectors, smbios, present, order[p] as int),
        )
}

/// Nothing outranks itself.
pub proof fn lemma_outranks_irreflexive(a: Detector, s: int)
    ensures
        !outranks(a, s, a, s),
{
    lemma_detector_cmp_order(a, a);
}

/// Outranking is transitive.
pub proof fn lemma_outranks_transitive(a: Detector, sa: int, b: Detector, sb: int, c: Detector, sc: int)
    requires
        outranks(a, sa, b, sb),
        outranks(b, sb, c, sc),
    ensures
        outranks(a, sa, c, sc),
{
    if sa == sb && sb == sc {
        lemma_detector_cmp_transitive(a, b, c);
    }
}

/// The detector at index `i` outranks the one at index `j`, by the scores given.
pub open spec fn beats(detectors: Seq<Detector>, scores: Seq<u16>, i: int, j: int) -> bool {
    outranks(detectors[i], scores[i] as int, detectors[j], scores[j] as int)
}

/// The pending index at position `k` is outranked by no pending index.
pub open spec fn is_top(detectors: Seq<Detector>, scores: Seq<u16>, pending: Seq<usize>, k: int) -> bool {
    &&& 0 <= k < pending.len()
    &&& forall|j: int|
        0 <= j < pending.len() ==> !beats(detectors, scores, #[trigger] pending[j] as int, pending[k] as int)
}

/// Among the pending indices, one is outranked by none.
proof fn lemma_top_exists(detectors: Seq<Detector>, scores: Seq<u16>, pending: Seq<usize>)
    requires
        pending.len() > 0,
        forall|k: int| 0 <= k < pending.len() ==> #[trigger] pending[k] < detectors.len(),
        scores.len() == detectors.len(),
    ensures
        exists|k: int| is_top(detectors, scores, pending, k),
    decreases pending.len(),
{
    let last = pending.len() - 1;
    let x = pending[last] as int;
    if pending.len() == 1 {
        lemma_outranks_irreflexive(detectors[x], scores[x] as int);
        assert(forall|j: int| 0 <= j < pending.len() ==> #[trigger] pending[j] == pending[0]);
        assert(is_top(detectors, scores, pending, 0));
    } else {
        let init = pending.drop_last();
        lemma_top_exists(detectors, scores, init);
        let m = choose|k: int| is_top(detectors, scores, init, k);
        let y = init[m] as int;
        lemma_outranks_irreflexive(detectors[x], scores[x] as int);
        if !beats(detectors, scores, x, y) {
            assert forall|j: int| 0 <= j < pending.len() implies !beats(
                detectors,
                scores,
                #[trigger] pending[j] as int,
                pending[m] as int,
            ) by {
                if j < last {
                    assert(pending[j] == init[j]);
                }
            }
            assert(is_top(detectors, scores, pending, m));
        } else {
            assert forall|j: int| 0 <= j < pending.len() implies !beats(
                detectors,
                scores,
                #[trigger] pending[j] as int,
                pending[last] as int,
            ) by {
                if j < last {
                    assert(pending[j] == init[j]);
                    let z = pending[j] as int;
                    if beats(detectors, scores, z, x) {
                        lemma_outranks_transitive(
                            detectors[z],
                            scores[z] as int,
                            detectors[x],
                            scores[x] as int,
                            detectors[y],
                            scores[y] as int,
                        );
                    }
                }
            }
            assert(is_top(detectors, scores, pending, last));
        }
    }
}

/// Whether the detector at index `a` goes before the one at index `b`.
fn ranks_before(detectors: &Vec<Detector>, scores: &Vec<u16>, a: usize, b: usize) -> (r: bool)
    requires
        a < detectors@.len(),
        b < detectors@.len(),
        scores@.len() == detectors@.len(),
    ensures
        r == beats(detectors@, scores@, a as int, b as int),
{
    if scores[a] != scores[b] {
        scores[a] > scores[b]
    } else {
        match detectors[a].specificity_cmp(&detectors[b]) {
            Some(Ordering::Greater) => true,
            _ => false,
        }
    }
}

/// The first pending index that no pending index outranks.
fn pick_top(detectors: &Vec<Detector>, scores: &Vec<u16>, pending: &Vec<usize>) -> (k: usize)
    requires
        pending@.len() > 0,
        forall|k: int| 0 <= k < pending@.len() ==> #[trigger] pending@[k] < detectors@.len(),
        scores@.len() == detectors@.len(),
    ensures
        is_top(detectors@, scores@, pending@, k as int),
{
    let mut k: usize = 0;
    while k < pending.len()
        invariant
            k <= pending@.len(),
            forall|i: int| 0 <= i < pending@.len() ==> #[trigger] pending@[i] < detectors@.len(),
            scores@.len() == detectors@.len(),
            forall|c: int|
                0 <= c < k ==> exists|j: int|
                    0 <= j < pending@.len() && beats(
                        detectors@,
                        scores@,
                        pending@[j] as int,
                        #[trigger] pending@[c] as int,
                    ),
        decreases pending@.len() - k,
    {
        let mut beaten = false;
        let mut j: usize = 0;
        while j < pending.len()
            invariant
                j <= pending@.len(),
                k < pending@.len(),
                forall|i: int| 0 <= i < pending@.len() ==> #[trigger] pending@[i] < detectors@.len(),
                scores@.len() == detectors@.len(),
                !beaten ==> forall|i: int|
                    0 <= i < j ==> !beats(
                        detectors@,
                        scores@,
                        #[trigger] pending@[i] as int,
                        pending@[k as int] as int,
                    ),
                beaten ==> exists|i: int|
                    0 <= i < pending@.len() && beats(
                        detectors@,
                        scores@,
                        pending@[i] as int,
                        pending@[k as int] as int,
                    ),
            decreases pending@.len() - j,
        {
            if ranks_before(detectors, scores, pending[j], pending[k]) {
                beaten = true;
            }
            j += 1;
        }
        if !beaten {
            return k;
        }
        k += 1;
    }
    proof {
        lemma_top_exists(detectors@, scores@, pending@);
    }
    0
}

/// Orders the detectors that score at least `threshold` against the snapshot
/// and the environment variables present: by descending score, and among
/// equal scores a strictly more specific detector first. Where neither of two
/// detectors outranks the other, the earlier in `detectors` that nothing left
/// outranks comes first, so equal inputs give equal orders.
///
/// Returns indices into `detectors`.
pub fn ranking_order(
    detectors: &Vec<Detector>,
    smbios: &Smbios,
    env_vars: &[&str],
    threshold: u16,
) -> (order: Vec<usize>)
    ensures
        is_ranking(detectors@, *smbios, env_vars@, threshold as int, order@),
{
    let ghost ds = detectors@;
    let ghost present = env_vars@;
    let mut scores: Vec<u16> = Vec::new();
    let mut pending: Vec<usize> = Vec::new();
    let mut i: usize = 0;
    while i < detectors.len()
        invariant
            ds == detectors@,
            present == env_vars@,
            i <= ds.len(),
            scores@.len() == i,
            forall|j: int| 0 <= j < i ==> #[trigger] scores@[j] as int == score_at(ds, *smbios, present, j),
            forall|a: int, b: int| 0 <= a < b < pending@.len() ==> pending@[a] < pending@[b],
            forall|k: int|
                0 <= k < pending@.len() ==> #[trigger] pending@[k] < i && score_at(
                    ds,
                    *smbios,
                    present,
                    pending@[k] as int,
                ) >= threshold,
            forall|j: int|
                0 <= j < i && score_at(ds, *smbios, present, j) >= threshold ==> pending@.contains(
                    j as usize,
                ),
        decreases ds.len() - i,
    {
        let s = detectors[i].detect(smbios, env_vars);
        scores.push(s);
        let ghost old_pending = pending@;
        if s >= threshold {
            pending.push(i);
            assert(pending@[pending@.len() - 1] == i);
        }
        proof {
            assert forall|j: int|
                0 <= j <= i && score_at(ds, *smbios, present, j) >= threshold implies pending@.contains(
                j as usize,
            ) by {
                if j < i {
                    let a = choose|a: int| 0 <= a < old_pending.len() && old_pending[a] == j as usize;
                    assert(pending@[a] == j as usize);
                } else {
                    assert(pending@[pending@.len() - 1] == i);
                }
            }
        }
        i += 1;
    }
    let mut order: Vec<usize> = Vec::new();
    while pending.len() > 0
        invariant
            ds == detectors@,
            present == env_vars@,
            scores@.len() == ds.len(),
            forall|j: int| 0 <= j < ds.len() ==> #[trigger] scores@[j] as int == score_at(ds, *smbios, present, j),
            pending@.no_duplicates(),
            order@.no_duplicates(),
            forall|a: int, b: int|
                0 <= a < pending@.len() && 0 <= b < order@.len() ==> pending@[a] != order@[b],
            forall|k: int|
                0 <= k < pending@.len() ==> #[trigger] pending@[k] < ds.len() && score_at(
                    ds,
                    *smbios,
                    present,
                    pending@[k] as int,
                ) >= threshold,
            forall|k: int|
                0 <= k < order@.len() ==> #[trigger] order@[k] < ds.len() && score_at(
                    ds,
                    *smbios,
                    present,
                    order@[k] as int,
                ) >= threshold,
            forall|j: int|
                0 <= j < ds.len() && score_at(ds, *smbios, present, j) >= threshold
                    ==> pending@.contains(j as usize) || order@.contains(j as usize),
            forall|p: int, q: int|
                0 <= p < q < order@.len() ==> !beats(
                    ds,
                    scores@,
                    #[trigger] order@[q] as int,
                    #[trigger] order@[p] as int,
                ),
            forall|p: int, a: int|
                0 <= p < order@.len() && 0 <= a < pending@.len() ==> !beats(
                    ds,
                    scores@,
                    #[trigger] pending@[a] as int,
                    #[trigger] order@[p] as int,
                ),
        decreases pending@.len(),
    {
        let k = pick_top(detectors, &scores, &pending);
        let ghost old_pending = pending@;
        let ghost old_order = order@;
        let chosen = pending.remove(k);
        order.push(chosen);
        proof {
            assert forall|a: int| 0 <= a < pending@.len() implies #[trigger] pending@[a]
                == old_pending[if a < k { a } else { a + 1 }] by {}
            assert forall|p: int| 0 <= p < old_order.len() implies #[trigger] order@[p]
                == old_order[p] by {}
            assert(order@[old_order.len() as int] == chosen);
            assert forall|j: int|
                0 <= j < ds.len() && score_at(ds, *smbios, present, j) >= threshold implies pending@.contains(
                j as usize,
            ) || order@.contains(j as usize) by {
                if old_pending.contains(j as usize) {
                    let a = choose|a: int| 0 <= a < old_pending.len() && old_pending[a] == j as usize;
                    if a < k {
                        assert(pending@[a] == j as usize);
                    } else if a > k {
                        assert(pending@[a - 1] == j as usize);
                    } else {
                        assert(order@[old_order.len() as int] == j as usize);
                    }
                } else {
                    let b = choose|b: int| 0 <= b < old_order.len() && old_order[b] == j as usize;
                    assert(order@[b] == j as usize);
                }
            }
            assert forall|p: int, q: int|
                0 <= p < q < order@.len() implies !beats(
                ds,
                scores@,
                #[trigger] order@[q] as int,
                #[trigger] order@[p] as int,
            ) by {
                if q == old_order.len() {
                    assert(old_pending[k as int] == chosen);
                }
            }
        }
    }
    proof {
        assert forall|j: int|
            0 <= j < ds.len() && score_at(ds, *smbios, present, j) >= threshold implies order@.contains(
            j as usize,
        ) by {
            assert(!pending@.contains(j as usize));
        }
    }
    order
}

/// The environment and score of each detector that `order` lists.
pub open spec fn ranked_pairs(
    detectors: Seq<Detector>,
    smbios: Smbios,
    present: Seq<&str>,
    order: Seq<usize>,
) -> Seq<(ComputeEnvironment, u16)> {
    order.map_values(
        |i: usize|
            (detectors[i as int].environment, score_at(detectors, smbios, present, i as int) as u16),
    )
}

/// The environment of each detector that `order` lists.
pub open spec fn ranked_environments(detectors: Seq<Detector>, order: Seq<usize>) -> Seq<
    ComputeEnvironment,
> {
    order.map_values(|i: usize| detectors[i as int].environment)
}

/// Ranks the detectors against one snapshot of the evidence: the
/// environment and score of each detector scoring at least `threshold`, most
/// confident first, as [`ranking_order`] orders them.
pub fn rank(detectors: &Vec<Detector>, smbios: &Smbios, env_vars: &[&str], threshold: u16) -> (r:
    Vec<(ComputeEnvironment, u16)>)
    ensures
        exists|order: Seq<usize>|
            is_ranking(detectors@, *smbios, env_vars@, threshold as int, order) && r@
                == ranked_pairs(detectors@, *smbios, env_vars@, order),
{
    let order = ranking_order(detectors, smbios, env_vars, threshold);
    let ghost target = ranked_pairs(detectors@, *smbios, env_vars@, order@);
    let mut r: Vec<(ComputeEnvironment, u16)> = Vec::new();
    let mut k: usize = 0;
    while k < order.len()
        invariant
            k <= order@.len(),
            is_ranking(detectors@, *smbios, env_vars@, threshold as int, order@),
            target == ranked_pairs(detectors@, *smbios, env_vars@, order@),
            r@ == target.subrange(0, k as int),
        decreases order@.len() - k,
    {
        let i = order[k];
        let score = detectors[i].detect(smbios, env_vars);
        r.push((detectors[i].environment, score));
        assert(r@ =~= target.subrange(0, k + 1));
        k += 1;
    }
    assert(r@ =~= target);
    r
}

/// Detects the compute environments whose detectors score at least
/// `threshold` against the SMBIOS snapshot and the environment variables
/// present, most confident first (see [`ranking_order`]).
pub fn detect_inner(detectors: Vec<Detector>, smbios: Smbios, env_vars: &[&str], threshold: u16) -> (r:
    Vec<ComputeEnvironment>)
    ensures
        exists|order: Seq<usize>|
            is_ranking(detectors@, smbios, env_vars@, threshold as int, order) && r@
                == ranked_environments(detectors@, order),
{
    let order = ranking_order(&detectors, &smbios, env_vars, threshold);
    let ghost target = ranked_environments(detectors@, order@);
    let mut r: Vec<ComputeEnvironment> = Vec::new();
    let mut k: usize = 0;
    while k < order.len()
        invariant
            k <= order@.len(),
            is_ranking(detectors@, smbios, env_vars@, threshold as int, order@),
            target == ranked_environments(detectors@, order@),
            r@ == target.subrange(0, k as int),
        decreases order@.len() - k,
    {
        r.push(detectors[order[k]].environment);
        assert(r@ =~= target.subrange(0, k + 1));
        k += 1;
    }
    assert(r@ =~= target);
    r
}

/// The most confident of the detected compute environments, if any: the
/// first that [`detect_inner`] gives.
pub fn detect_one_inner(
    detectors: Vec<Detector>,
    smbios: Smbios,
    env_vars: &[&str],
    threshold: u16,
) -> (r: Option<ComputeEnvironment>)
    ensures
        exists|order: Seq<usize>|
            is_ranking(detectors@, smbios, env_vars@, threshold as int, order) && r == (if order.len()
                == 0 {
                None
            } else {
                Some(detectors@[order[0] as int].environment)
            }),
{
    let ranked = detect_inner(detectors, smbios, env_vars, threshold);
    if ranked.len() == 0 {
        None
    } else {
        Some(ranked[0])
    }
}

/// The detector of every compute environment, in catalog order.
pub fn catalog() -> (r: Vec<Detector>)
    ensures
        r@.len() == ENVIRONMENT_COUNT,
        forall|i: int|
            0 <= i < r@.len() ==> (#[trigger] r@[i]).environment.index() == i && r@[i].smbios
                == r@[i].environment.pattern() && r@[i].env_vars@ == r@[i].environment.required_vars(),
{
    let mut it = ComputeEnvironment::iter();
    let mut r: Vec<Detector> = Vec::new();
    loop
        invariant
            it.position() <= ENVIRONMENT_COUNT,
            r@.len() == it.position(),
            forall|i: int|
                0 <= i < r@.len() ==> (#[trigger] r@[i]).environment.index() == i && r@[i].smbios
                    == r@[i].environment.pattern() && r@[i].env_vars@
                    == r@[i].environment.required_vars(),
        ensures
            r@.len() == ENVIRONMENT_COUNT,
            forall|i: int|
                0 <= i < r@.len() ==> (#[trigger] r@[i]).environment.index() == i && r@[i].smbios
                    == r@[i].environment.pattern() && r@[i].env_vars@
                    == r@[i].environment.required_vars(),
        decreases ENVIRONMENT_COUNT - it.position(),
    {
        match it.next() {
            Some(e) => r.push(e.detector()),
            None => break,
        }
    }
    r
}

/// The environment variables of all the detectors, each detector's list in
/// turn.
pub open spec fn all_env_vars(detectors: Seq<Detector>) -> Seq<&'static str>
    decreases detectors.len(),
{
    if detectors.len() == 0 {
        Seq::empty()
    } else {
        all_env_vars(detectors.drop_last()) + detectors.last().env_vars@
    }
}

/// The environment variables that any of the detectors asks for: each
/// detector's list in turn.
pub fn watched_env_vars(detectors: &Vec<Detector>) -> (r: Vec<&'static str>)
    ensures
        r@ == all_env_vars(detectors@),
{
    let mut r: Vec<&'static str> = Vec::new();
    let mut i: usize = 0;
    while i < detectors.len()
        invariant
            i <= detectors@.len(),
            r@ == all_env_vars(detectors@.take(i as int)),
        decreases detectors@.len() - i,
    {
        let vars = detectors[i].env_vars;
        let ghost before = r@;
        let mut k: usize = 0;
        while k < vars.len()
            invariant
                k <= vars@.len(),
                r@ == before + vars@.take(k as int),
            decreases vars@.len() - k,
        {
            r.push(vars[k]);
            assert(r@ =~= before + vars@.take(k + 1));
            k += 1;
        }
        assert(vars@.take(k as int) =~= vars@);
        assert(detectors@.take(i + 1).drop_last() =~= detectors@.take(i as int));
        i += 1;
    }
    assert(detectors@.take(i as int) =~= detectors@);
    r
}

/// With full evidence for one detector (a snapshot of its own normalized
/// pattern, all of its variables present), every valid ranking at threshold
/// zero puts it before each detector it is strictly more specific than.
pub proof fn lemma_full_evidence_ranks_above(
    detectors: Seq<Detector>,
    smbios: Smbios,
    present: Seq<&str>,
    order: Seq<usize>,
    p: usize,
    q: usize,
)
    requires
        0 <= p < detectors.len(),
        0 <= q < detectors.len(),
        detectors[p as int].smbios.is_normalized(),
        smbios.observes(detectors[p as int].smbios),
        name_set(detectors[p as int].env_vars@).subset_of(name_set(present)),
        detector_cmp(detectors[p as int], detectors[q as int]) == Some(Ordering::Greater),
        is_ranking(detectors, smbios, present, 0, order),
    ensures
        exists|a: int, b: int| 0 <= a < b < order.len() && order[a] == p && order[b] == q,
{
    let dp = detectors[p as int];
    let dq = detectors[q as int];
    lemma_detector_cmp_order(dp, dq);
    lemma_own_evidence_scores_max(dp, smbios, present);
    lemma_score_bounds(dq, smbios, present);
    lemma_specific_max_score(dp, dq);
    assert(score_at(detectors, smbios, present, p as int) >= 0);
    assert(score_at(detectors, smbios, present, q as int) >= 0);
    assert(order.contains(p));
    assert(order.contains(q));
    let a = choose|a: int| 0 <= a < order.len() && order[a] == p;
    let b = choose|b: int| 0 <= b < order.len() && order[b] == q;
    assert(outranks(dp, score_at(detectors, smbios, present, p as int), dq, score_at(detectors, smbios, present, q as int)));
    if b < a {
        assert(!outranks(
            detectors[order[a] as int],
            score_at(detectors, smbios, present, order[a] as int),
            detectors[order[b] as int],
            score_at(detectors, smbios, present, order[b] as int),
        ));
    }
    assert(a != b);
    assert(0 <= a < b < order.len() && order[a] == p && order[b] == q);
}

} // verus!
