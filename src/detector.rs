//! A detector: the evidence that one platform is recognised by, and the score
//! that observed evidence earns against it.

use crate::environment::ComputeEnvironment;
use crate::smbios::{
    field_matches, lemma_share_bound, lemma_share_monotonic, pattern_cmp, share, Smbios, SmbiosPattern,
};
use crate::text::{lower_of, occurs_in};
use crate::specificity::{
    at_least, flipped, is_listed, lemma_merge_greater, lemma_set_cmp_order, lemma_set_cmp_transitive,
    lemma_value_cmp_order, lemma_value_cmp_transitive, merge, name_set, opt_view, set_cmp, value_cmp,
    OrderingExt, Specificity,
};
use crate::{MAX_INDIVIDUAL_WEIGHTING, MAX_TOTAL_WEIGHTING};
use std::cmp::Ordering;
use vstd::prelude::*;

verus! {

/// How many of the `required` names are in `present`, counting each entry
/// of `required`.
pub open spec fn count_present(required: Seq<&str>, present: Set<Seq<char>>) -> nat
    decreases required.len(),
{
    if required.len() == 0 {
        0
    } else {
        count_present(required.drop_last(), present) + if present.contains(required.last()@) {
            1nat
        } else {
            0nat
        }
    }
}

/// At most every required name is present.
pub proof fn lemma_count_bound(required: Seq<&str>, present: Set<Seq<char>>)
    ensures
        count_present(required, present) <= required.len(),
    decreases required.len(),
{
    if required.len() > 0 {
        lemma_count_bound(required.drop_last(), present);
    }
}

/// Fewer names present never count more.
proof fn lemma_count_monotonic(required: Seq<&str>, fewer: Set<Seq<char>>, more: Set<Seq<char>>)
    requires
        fewer.subset_of(more),
    ensures
        count_present(required, fewer) <= count_present(required, more),
    decreases required.len(),
{
    if required.len() > 0 {
        lemma_count_monotonic(required.drop_last(), fewer, more);
    }
}

/// When every required name is present, each one counts.
proof fn lemma_count_all(required: Seq<&str>, present: Set<Seq<char>>)
    requires
        name_set(required).subset_of(present),
    ensures
        count_present(required, present) == required.len(),
    decreases required.len(),
{
    if required.len() > 0 {
        let init = required.drop_last();
        assert(name_set(required).contains(required.last()@)) by {
            assert(required[required.len() - 1]@ == required.last()@);
        }
        assert forall|n: Seq<char>| name_set(init).contains(n) implies present.contains(n) by {
            let i = choose|i: int| 0 <= i < init.len() && init[i]@ == n;
            assert(required[i]@ == n);
            assert(name_set(required).contains(n));
        }
        lemma_count_all(init, present);
    }
}

/// When no name is present, none counts.
proof fn lemma_count_none(required: Seq<&str>)
    ensures
        count_present(required, Set::empty()) == 0,
    decreases required.len(),
{
    if required.len() > 0 {
        lemma_count_none(required.drop_last());
    }
}

/// The evidence for one platform.
#[derive(Debug, Clone, Copy)]
pub struct Detector {
    pub environment: ComputeEnvironment,
    pub smbios: SmbiosPattern,
    pub env_vars: &'static [&'static str],
}

impl Detector {
    /// The environment-variable sub-score against the names present.
    pub open spec fn env_score(self, present: Seq<&str>) -> nat {
        share(count_present(self.env_vars@, name_set(present)), self.env_vars@.len())
    }

    /// The highest score this detector gives: the full weighting for each
    /// kind of evidence it asks for, half of it for each kind it does not.
    pub open spec fn max_score(self) -> nat {
        share(self.smbios.total(), self.smbios.total()) + share(
            self.env_vars@.len(),
            self.env_vars@.len(),
        )
    }

    /// The score of a snapshot and the names present against this detector.
    pub open spec fn score(self, smbios: Smbios, present: Seq<&str>) -> nat {
        self.smbios.hardware_score(smbios) + self.env_score(present)
    }

    /// A detector for `environment`.
    pub fn new(
        environment: ComputeEnvironment,
        smbios: SmbiosPattern,
        env_vars: &'static [&'static str],
    ) -> (r: Detector)
        ensures
            r.environment == environment,
            r.smbios == smbios,
            r.env_vars == env_vars,
    {
        Detector { environment, smbios, env_vars }
    }

    /// Returns a score from 0 to `MAX_TOTAL_WEIGHTING` for how well the SMBIOS
    /// snapshot and the environment variables present (`env_vars`) match
    /// this detector.
    ///
    /// Each kind of evidence earns up to `MAX_INDIVIDUAL_WEIGHTING`, in
    /// proportion to the constraints it meets, or half of that when the
    /// detector sets no constraint of that kind.
    pub fn detect(&self, smbios: &Smbios, env_vars: &[&str]) -> (r: u16)
        ensures
            r == self.score(*smbios, env_vars@),
            r <= MAX_TOTAL_WEIGHTING,
    {
        let smbios_detect = self.smbios.detect(smbios);
        let ghost present = name_set(env_vars@);
        let ghost required = self.env_vars@;
        let env_vars_detect: u16 = if self.env_vars.len() == 0 {
            // Half credit: no variable to ask for is neither evidence for nor against.
            MAX_INDIVIDUAL_WEIGHTING / 2
        } else {
            let mut count: usize = 0;
            let mut i: usize = 0;
            while i < self.env_vars.len()
                invariant
                    0 <= i <= required.len(),
                    required == self.env_vars@,
                    present == name_set(env_vars@),
                    count == count_present(required.take(i as int), present),
                    count <= i,
                decreases required.len() - i,
            {
                assert(required.take(i + 1).drop_last() =~= required.take(i as int));
                if is_listed(env_vars, self.env_vars[i]) {
                    count += 1;
                }
                i += 1;
            }
            assert(required.take(i as int) =~= required);
            let len = self.env_vars.len();
            proof {
                lemma_share_bound(count as nat, len as nat);
            }
            ((count as u128) * (MAX_INDIVIDUAL_WEIGHTING as u128) / (len as u128)) as u16
        };
        smbios_detect + env_vars_detect
    }
}

/// Specificity of two detectors: their patterns and their variable sets,
/// merged.
pub open spec fn detector_cmp(a: Detector, b: Detector) -> Option<Ordering> {
    merge(pattern_cmp(a.smbios, b.smbios), set_cmp(name_set(a.env_vars@), name_set(b.env_vars@)))
}

impl Specificity for Detector {
    open spec fn spec_specificity_cmp(&self, other: &Self) -> Option<Ordering> {
        detector_cmp(*self, *other)
    }

    fn specificity_cmp(&self, other: &Self) -> (r: Option<Ordering>) {
        self.smbios.specificity_cmp(&other.smbios).merge_specificity(
            self.env_vars.specificity_cmp(other.env_vars),
        )
    }
}

/// Specificity of detectors is reflexive, and swapping the sides flips the
/// outcome: `Greater` one way is `Less` the other way.
pub proof fn lemma_detector_cmp_order(a: Detector, b: Detector)
    ensures
        detector_cmp(a, a) == Some(Ordering::Equal),
        detector_cmp(b, a) == flipped(detector_cmp(a, b)),
        detector_cmp(a, b) == Some(Ordering::Greater) ==> detector_cmp(b, a) == Some(Ordering::Less),
{
    lemma_value_cmp_order(opt_view(a.smbios.bios_vendor), opt_view(b.smbios.bios_vendor));
    lemma_value_cmp_order(opt_view(a.smbios.product_name), opt_view(b.smbios.product_name));
    lemma_value_cmp_order(opt_view(a.smbios.sys_vendor), opt_view(b.smbios.sys_vendor));
    lemma_set_cmp_order(name_set(a.env_vars@), name_set(b.env_vars@));
    let bv = value_cmp(opt_view(a.smbios.bios_vendor), opt_view(b.smbios.bios_vendor));
    let pn = value_cmp(opt_view(a.smbios.product_name), opt_view(b.smbios.product_name));
    let sv = value_cmp(opt_view(a.smbios.sys_vendor), opt_view(b.smbios.sys_vendor));
    let ev = set_cmp(name_set(a.env_vars@), name_set(b.env_vars@));
    lemma_merge_greater(bv, pn);
    lemma_merge_greater(merge(bv, pn), sv);
    lemma_merge_greater(pattern_cmp(a.smbios, b.smbios), ev);
}

/// Being strictly more specific is transitive.
pub proof fn lemma_detector_cmp_transitive(a: Detector, b: Detector, c: Detector)
    requires
        detector_cmp(a, b) == Some(Ordering::Greater),
        detector_cmp(b, c) == Some(Ordering::Greater),
    ensures
        detector_cmp(a, c) == Some(Ordering::Greater),
{
    let pa = a.smbios;
    let pb = b.smbios;
    let pc = c.smbios;
    let ab = seq![
        value_cmp(opt_view(pa.bios_vendor), opt_view(pb.bios_vendor)),
        value_cmp(opt_view(pa.product_name), opt_view(pb.product_name)),
        value_cmp(opt_view(pa.sys_vendor), opt_view(pb.sys_vendor)),
        set_cmp(name_set(a.env_vars@), name_set(b.env_vars@)),
    ];
    let bc = seq![
        value_cmp(opt_view(pb.bios_vendor), opt_view(pc.bios_vendor)),
        value_cmp(opt_view(pb.product_name), opt_view(pc.product_name)),
        value_cmp(opt_view(pb.sys_vendor), opt_view(pc.sys_vendor)),
        set_cmp(name_set(b.env_vars@), name_set(c.env_vars@)),
    ];
    let ac = seq![
        value_cmp(opt_view(pa.bios_vendor), opt_view(pc.bios_vendor)),
        value_cmp(opt_view(pa.product_name), opt_view(pc.product_name)),
        value_cmp(opt_view(pa.sys_vendor), opt_view(pc.sys_vendor)),
        set_cmp(name_set(a.env_vars@), name_set(c.env_vars@)),
    ];
    assert(detector_cmp(a, b) == merge(merge(merge(ab[0], ab[1]), ab[2]), ab[3]));
    assert(detector_cmp(b, c) == merge(merge(merge(bc[0], bc[1]), bc[2]), bc[3]));
    assert(detector_cmp(a, c) == merge(merge(merge(ac[0], ac[1]), ac[2]), ac[3]));
    lemma_merge_four_greater(ab);
    lemma_merge_four_greater(bc);
    if at_least(ab[0]) && at_least(bc[0]) {
        lemma_value_cmp_transitive(
            opt_view(pa.bios_vendor),
            opt_view(pb.bios_vendor),
            opt_view(pc.bios_vendor),
        );
    }
    if at_least(ab[1]) && at_least(bc[1]) {
        lemma_value_cmp_transitive(
            opt_view(pa.product_name),
            opt_view(pb.product_name),
            opt_view(pc.product_name),
        );
    }
    if at_least(ab[2]) && at_least(bc[2]) {
        lemma_value_cmp_transitive(
            opt_view(pa.sys_vendor),
            opt_view(pb.sys_vendor),
            opt_view(pc.sys_vendor),
        );
    }
    if at_least(ab[3]) && at_least(bc[3]) {
        lemma_set_cmp_transitive(
            name_set(a.env_vars@),
            name_set(b.env_vars@),
            name_set(c.env_vars@),
        );
    }
    lemma_merge_four_greater(ac);
}

/// Four outcomes merged left to right say `Greater` exactly when each is at
/// least `Equal` and one is `Greater`.
proof fn lemma_merge_four_greater(v: Seq<Option<Ordering>>)
    requires
        v.len() == 4,
    ensures
        (merge(merge(merge(v[0], v[1]), v[2]), v[3]) == Some(Ordering::Greater)) <==> (
        (forall|i: int| 0 <= i < 4 ==> at_least(#[trigger] v[i])) && exists|i: int|
            0 <= i < 4 && #[trigger] v[i] == Some(Ordering::Greater)),
{
    lemma_merge_greater(v[0], v[1]);
    lemma_merge_greater(merge(v[0], v[1]), v[2]);
    lemma_merge_greater(merge(merge(v[0], v[1]), v[2]), v[3]);
    if merge(merge(merge(v[0], v[1]), v[2]), v[3]) == Some(Ordering::Greater) {
        assert forall|i: int| 0 <= i < 4 implies at_least(#[trigger] v[i]) by {
            if i == 0 {
            } else if i == 1 {
            } else if i == 2 {
            } else {
            }
        }
        if v[0] == Some(Ordering::Greater) {
        } else if v[1] == Some(Ordering::Greater) {
        } else if v[2] == Some(Ordering::Greater) {
        } else {
            assert(v[3] == Some(Ordering::Greater));
        }
    }
    if (forall|i: int| 0 <= i < 4 ==> at_least(#[trigger] v[i])) && exists|i: int|
        0 <= i < 4 && #[trigger] v[i] == Some(Ordering::Greater) {
        assert(at_least(v[0]) && at_least(v[1]) && at_least(v[2]) && at_least(v[3]));
    }
}

/// Every score lies within the detector's maximum, which is at most
/// `MAX_TOTAL_WEIGHTING`.
pub proof fn lemma_score_bounds(d: Detector, smbios: Smbios, present: Seq<&str>)
    ensures
        d.score(smbios, present) <= d.max_score(),
        d.max_score() <= MAX_TOTAL_WEIGHTING,
{
    lemma_share_bound(d.smbios.matched(smbios), d.smbios.total());
    lemma_count_bound(d.env_vars@, name_set(present));
    lemma_share_bound(count_present(d.env_vars@, name_set(present)), d.env_vars@.len());
    lemma_share_bound(d.smbios.total(), d.smbios.total());
    lemma_share_bound(d.env_vars@.len(), d.env_vars@.len());
}

/// With no hardware value observed and no variable present, a detector
/// scores half credit for each kind of evidence it asks nothing of, and
/// nothing for each kind it does ask for: `MAX_INDIVIDUAL_WEIGHTING` exactly
/// when it asks for neither.
pub proof fn lemma_no_evidence_score(d: Detector, smbios: Smbios, present: Seq<&str>)
    requires
        smbios.bios_vendor is None,
        smbios.product_name is None,
        smbios.sys_vendor is None,
        present.len() == 0,
    ensures
        d.score(smbios, present) == (if d.smbios.total() == 0 {
            MAX_INDIVIDUAL_WEIGHTING / 2
        } else {
            0
        }) + (if d.env_vars@.len() == 0 {
            MAX_INDIVIDUAL_WEIGHTING / 2
        } else {
            0
        }),
        d.score(smbios, present) == MAX_INDIVIDUAL_WEIGHTING <==> (d.smbios.total() == 0
            && d.env_vars@.len() == 0),
{
    assert(name_set(present) =~= Set::empty());
    lemma_count_none(d.env_vars@);
    assert(d.smbios.matched(smbios) == 0);
}

/// More present variables never lower the score, and fewer never raise it.
pub proof fn lemma_score_monotonic_env(
    d: Detector,
    smbios: Smbios,
    fewer: Seq<&str>,
    more: Seq<&str>,
)
    requires
        name_set(fewer).subset_of(name_set(more)),
    ensures
        d.score(smbios, fewer) <= d.score(smbios, more),
{
    lemma_count_monotonic(d.env_vars@, name_set(fewer), name_set(more));
    lemma_share_monotonic(
        count_present(d.env_vars@, name_set(fewer)),
        count_present(d.env_vars@, name_set(more)),
        d.env_vars@.len(),
    );
}

/// A snapshot that matches every pattern field another snapshot matches
/// scores at least as high.
pub proof fn lemma_score_monotonic_hardware(
    d: Detector,
    fewer: Smbios,
    more: Smbios,
    present: Seq<&str>,
)
    requires
        field_matches(d.smbios.bios_vendor, fewer.bios_vendor) ==> field_matches(
            d.smbios.bios_vendor,
            more.bios_vendor,
        ),
        field_matches(d.smbios.product_name, fewer.product_name) ==> field_matches(
            d.smbios.product_name,
            more.product_name,
        ),
        field_matches(d.smbios.sys_vendor, fewer.sys_vendor) ==> field_matches(
            d.smbios.sys_vendor,
            more.sys_vendor,
        ),
    ensures
        d.score(fewer, present) <= d.score(more, present),
{
    lemma_share_monotonic(d.smbios.matched(fewer), d.smbios.matched(more), d.smbios.total());
}

/// A normalized string occurs in its own lower-cased form.
proof fn lemma_occurs_in_itself(v: Seq<char>)
    requires
        lower_of(v) == v,
    ensures
        occurs_in(v, lower_of(v)),
{
    assert(lower_of(v).subrange(0, 0 + v.len() as int) =~= v);
}

/// A snapshot built from a detector's own (normalized) pattern, with all of
/// its variables present, gives that detector its maximum score.
pub proof fn lemma_own_evidence_scores_max(d: Detector, smbios: Smbios, present: Seq<&str>)
    requires
        d.smbios.is_normalized(),
        smbios.observes(d.smbios),
        name_set(d.env_vars@).subset_of(name_set(present)),
    ensures
        d.score(smbios, present) == d.max_score(),
{
    if let Some(v) = d.smbios.bios_vendor {
        lemma_occurs_in_itself(v@);
    }
    if let Some(v) = d.smbios.product_name {
        lemma_occurs_in_itself(v@);
    }
    if let Some(v) = d.smbios.sys_vendor {
        lemma_occurs_in_itself(v@);
    }
    assert(d.smbios.matched(smbios) == d.smbios.total());
    lemma_count_all(d.env_vars@, name_set(present));
}

/// A detector at least as specific as another has at least its maximum score.
pub proof fn lemma_specific_max_score(p: Detector, q: Detector)
    requires
        at_least(detector_cmp(p, q)),
    ensures
        q.max_score() <= p.max_score(),
{
    let bv = value_cmp(opt_view(p.smbios.bios_vendor), opt_view(q.smbios.bios_vendor));
    let pn = value_cmp(opt_view(p.smbios.product_name), opt_view(q.smbios.product_name));
    let sv = value_cmp(opt_view(p.smbios.sys_vendor), opt_view(q.smbios.sys_vendor));
    let ev = set_cmp(name_set(p.env_vars@), name_set(q.env_vars@));
    lemma_merge_greater(bv, pn);
    lemma_merge_greater(merge(bv, pn), sv);
    lemma_merge_greater(pattern_cmp(p.smbios, q.smbios), ev);
    assert(q.smbios.total() <= p.smbios.total());
    if q.env_vars@.len() > 0 {
        assert(name_set(q.env_vars@).contains(q.env_vars@[0]@));
        assert(name_set(p.env_vars@).contains(q.env_vars@[0]@));
    }
    lemma_share_bound(q.smbios.total(), q.smbios.total());
    lemma_share_bound(p.smbios.total(), p.smbios.total());
    lemma_share_bound(q.env_vars@.len(), q.env_vars@.len());
    lemma_share_bound(p.env_vars@.len(), p.env_vars@.len());
}

} // verus!
