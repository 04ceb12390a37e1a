//! Specificity: a partial order over matching criteria, with an explicit
//! `None` outcome for criteria that cannot be ranked against each other.

use std::cmp::Ordering;
use crate::text::same_text;
use vstd::prelude::*;

verus! {

/// Combines two independent specificity outcomes.
///
/// `Equal` is the identity, agreeing outcomes are kept, opposite outcomes
/// conflict, and `None` (incomparable) absorbs everything.
pub open spec fn merge(a: Option<Ordering>, b: Option<Ordering>) -> Option<Ordering> {
    match (a, b) {
        (Some(Ordering::Equal), _) => b,
        (_, Some(Ordering::Equal)) => a,
        (Some(x), Some(y)) => if x == y { a } else { None },
        _ => None,
    }
}

/// The specificity of one set of matching criteria against another:
/// `Greater` when `self` imposes everything `other` does and more, `Less` in
/// the converse case, `Equal` when they impose the same, `None` when neither
/// refines the other.
pub trait Specificity {
    spec fn spec_specificity_cmp(&self, other: &Self) -> Option<Ordering>;

    fn specificity_cmp(&self, other: &Self) -> (r: Option<Ordering>)
        ensures
            r == self.spec_specificity_cmp(other),
    ;
}

/// The characters of an optional string.
pub open spec fn opt_view(a: Option<&str>) -> Option<Seq<char>> {
    match a {
        Some(s) => Some(s@),
        None => None,
    }
}

/// Specificity of two optional values: a value is more specific than none,
/// equal values are equal, and distinct values exclude each other.
pub open spec fn value_cmp(a: Option<Seq<char>>, b: Option<Seq<char>>) -> Option<Ordering> {
    match (a, b) {
        (Some(x), Some(y)) => if x == y { Some(Ordering::Equal) } else { None },
        (Some(_), None) => Some(Ordering::Greater),
        (None, Some(_)) => Some(Ordering::Less),
        (None, None) => Some(Ordering::Equal),
    }
}

/// Specificity of two sets, by inclusion.
pub open spec fn set_cmp(a: Set<Seq<char>>, b: Set<Seq<char>>) -> Option<Ordering> {
    if a.subset_of(b) && b.subset_of(a) {
        Some(Ordering::Equal)
    } else if a.subset_of(b) {
        Some(Ordering::Less)
    } else if b.subset_of(a) {
        Some(Ordering::Greater)
    } else {
        None
    }
}

/// `name` is one of `names`.
pub open spec fn lists(names: Seq<&str>, name: Seq<char>) -> bool {
    exists|i: int| 0 <= i < names.len() && names[i]@ == name
}

/// The set of names in a list.
pub open spec fn name_set(names: Seq<&str>) -> Set<Seq<char>> {
    Set::new(|n: Seq<char>| lists(names, n))
}

impl Specificity for Option<&'static str> {
    open spec fn spec_specificity_cmp(&self, other: &Self) -> Option<Ordering> {
        value_cmp(opt_view(*self), opt_view(*other))
    }

    fn specificity_cmp(&self, other: &Self) -> (r: Option<Ordering>) {
        match (self, other) {
            (Some(left), Some(right)) => {
                if same_text(left, right) {
                    Some(Ordering::Equal)
                } else {
                    None
                }
            },
            (Some(_), None) => Some(Ordering::Greater),
            (None, Some(_)) => Some(Ordering::Less),
            (None, None) => Some(Ordering::Equal),
        }
    }
}

/// Whether `name` is one of `names`.
pub fn is_listed(names: &[&str], name: &str) -> (r: bool)
    ensures
        r == lists(names@, name@),
{
    let mut i: usize = 0;
    while i < names.len()
        invariant
            0 <= i <= names@.len(),
            forall|j: int| 0 <= j < i ==> names@[j]@ != name@,
        decreases names@.len() - i,
    {
        if same_text(names[i], name) {
            return true;
        }
        i += 1;
    }
    false
}

/// Whether every name of `a` is one of `b`.
fn all_listed(a: &[&str], b: &[&str]) -> (r: bool)
    ensures
        r == name_set(a@).subset_of(name_set(b@)),
{
    let mut i: usize = 0;
    while i < a.len()
        invariant
            0 <= i <= a@.len(),
            forall|j: int| 0 <= j < i ==> lists(b@, #[trigger] a@[j]@),
        decreases a@.len() - i,
    {
        if !is_listed(b, a[i]) {
            assert(name_set(a@).contains(a@[i as int]@));
            return false;
        }
        i += 1;
    }
    assert forall|n: Seq<char>| name_set(a@).contains(n) implies name_set(b@).contains(n) by {
        let j = choose|j: int| 0 <= j < a@.len() && a@[j]@ == n;
        assert(lists(b@, a@[j]@));
    }
    true
}

impl Specificity for [&'static str] {
    open spec fn spec_specificity_cmp(&self, other: &Self) -> Option<Ordering> {
        set_cmp(name_set(self@), name_set(other@))
    }

    fn specificity_cmp(&self, other: &Self) -> (r: Option<Ordering>) {
        let self_subset = all_listed(self, other);
        let other_subset = all_listed(other, self);
        match (self_subset, other_subset) {
            (true, true) => Some(Ordering::Equal),
            (true, false) => Some(Ordering::Less),
            (false, true) => Some(Ordering::Greater),
            (false, false) => None,
        }
    }
}

/// Merging of specificity outcomes.
pub trait OrderingExt: Sized {
    spec fn spec_merge_specificity(self, other: Self) -> Self;

    fn merge_specificity(self, other: Self) -> (r: Self)
        ensures
            r == self.spec_merge_specificity(other),
    ;
}

impl OrderingExt for Option<Ordering> {
    open spec fn spec_merge_specificity(self, other: Self) -> Self {
        merge(self, other)
    }

    fn merge_specificity(self, other: Self) -> (r: Self) {
        match (self, other) {
            (Some(Ordering::Greater), Some(Ordering::Greater | Ordering::Equal)) => Some(
                Ordering::Greater,
            ),
            (Some(Ordering::Greater), Some(Ordering::Less)) => None,
            (Some(Ordering::Equal), Some(Ordering::Greater)) => Some(Ordering::Greater),
            (Some(Ordering::Equal), Some(Ordering::Equal)) => Some(Ordering::Equal),
            (Some(Ordering::Equal), Some(Ordering::Less)) => Some(Ordering::Less),
            (Some(Ordering::Less), Some(Ordering::Equal | Ordering::Less)) => Some(Ordering::Less),
            (Some(Ordering::Less), Some(Ordering::Greater)) => None,
            (_, None) | (None, _) => None,
        }
    }
}

/// A outcome that the left-hand side is at least as specific as the right.
pub open spec fn at_least(o: Option<Ordering>) -> bool {
    o == Some(Ordering::Greater) || o == Some(Ordering::Equal)
}

/// The outcome with the two sides swapped.
pub open spec fn flipped(o: Option<Ordering>) -> Option<Ordering> {
    match o {
        Some(Ordering::Greater) => Some(Ordering::Less),
        Some(Ordering::Less) => Some(Ordering::Greater),
        _ => o,
    }
}

/// Merging is associative.
pub proof fn lemma_merge_associative(a: Option<Ordering>, b: Option<Ordering>, c: Option<Ordering>)
    ensures
        merge(merge(a, b), c) == merge(a, merge(b, c)),
{
}

/// `Equal` is the identity of merging, on either side.
pub proof fn lemma_merge_identity(a: Option<Ordering>)
    ensures
        merge(Some(Ordering::Equal), a) == a,
        merge(a, Some(Ordering::Equal)) == a,
{
}

/// An incomparable outcome on either side makes the merge incomparable.
pub proof fn lemma_merge_absorbing(a: Option<Ordering>)
    ensures
        merge(None, a) is None,
        merge(a, None) is None,
{
}

/// A merge says `Greater` exactly when both outcomes are at least `Equal`
/// and one is `Greater`; it is at least `Equal` exactly when both are.
pub proof fn lemma_merge_greater(a: Option<Ordering>, b: Option<Ordering>)
    ensures
        (merge(a, b) == Some(Ordering::Greater)) <==> (at_least(a) && at_least(b) && (a == Some(
            Ordering::Greater,
        ) || b == Some(Ordering::Greater))),
        at_least(merge(a, b)) <==> (at_least(a) && at_least(b)),
        merge(flipped(a), flipped(b)) == flipped(merge(a, b)),
{
}

/// Comparing a value with itself gives `Equal`, and swapping the sides flips
/// the outcome.
pub proof fn lemma_value_cmp_order(a: Option<Seq<char>>, b: Option<Seq<char>>)
    ensures
        value_cmp(a, a) == Some(Ordering::Equal),
        value_cmp(b, a) == flipped(value_cmp(a, b)),
{
}

/// Specificity of values is transitive, and strict when one step is.
pub proof fn lemma_value_cmp_transitive(
    a: Option<Seq<char>>,
    b: Option<Seq<char>>,
    c: Option<Seq<char>>,
)
    requires
        at_least(value_cmp(a, b)),
        at_least(value_cmp(b, c)),
    ensures
        at_least(value_cmp(a, c)),
        value_cmp(a, b) == Some(Ordering::Greater) || value_cmp(b, c) == Some(Ordering::Greater)
            ==> value_cmp(a, c) == Some(Ordering::Greater),
{
}

/// Comparing a set with itself gives `Equal`, and swapping the sides flips
/// the outcome.
pub proof fn lemma_set_cmp_order(a: Set<Seq<char>>, b: Set<Seq<char>>)
    ensures
        set_cmp(a, a) == Some(Ordering::Equal),
        set_cmp(b, a) == flipped(set_cmp(a, b)),
{
}

/// Specificity of sets is transitive, and strict when one step is.
pub proof fn lemma_set_cmp_transitive(a: Set<Seq<char>>, b: Set<Seq<char>>, c: Set<Seq<char>>)
    requires
        at_least(set_cmp(a, b)),
        at_least(set_cmp(b, c)),
    ensures
        at_least(set_cmp(a, c)),
        set_cmp(a, b) == Some(Ordering::Greater) || set_cmp(b, c) == Some(Ordering::Greater)
            ==> set_cmp(a, c) == Some(Ordering::Greater),
{
    assert(c.subset_of(a));
    if set_cmp(a, b) == Some(Ordering::Greater) || set_cmp(b, c) == Some(Ordering::Greater) {
        if a.subset_of(c) {
            assert(a.subset_of(b));
            assert(b.subset_of(c));
        }
    }
}

} // verus!
