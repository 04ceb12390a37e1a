//! Hardware identity: the SMBIOS strings observed on the host, and the
//! patterns that platforms are recognised by.

use crate::specificity::{merge, opt_view, value_cmp, OrderingExt, Specificity};
use crate::text::{contains_text, lower_of, occurs_in, to_lowercase, trim_of, trim_text};
use crate::MAX_INDIVIDUAL_WEIGHTING;
use std::cmp::Ordering;
use vstd::prelude::*;
use vstd::string::StringExecFns;

verus! {

/// A pattern that asks for one vendor in both the BIOS and the system vendor.
pub open spec fn vendor_pattern(vendor: &'static str) -> SmbiosPattern {
    SmbiosPattern { bios_vendor: Some(vendor), product_name: None, sys_vendor: Some(vendor) }
}

/// The pattern that asks for the system vendor alone.
pub open spec fn sys_vendor_pattern(vendor: &'static str) -> SmbiosPattern {
    SmbiosPattern { bios_vendor: None, product_name: None, sys_vendor: Some(vendor) }
}

/// The pattern that sets no field.
pub open spec fn empty_pattern() -> SmbiosPattern {
    SmbiosPattern { bios_vendor: None, product_name: None, sys_vendor: None }
}

/// Amazon hardware.
pub fn aws() -> (r: SmbiosPattern)
    ensures
        r == vendor_pattern("amazon"),
{
    SmbiosPattern::new().with_bios_vendor("amazon").with_sys_vendor("amazon")
}

/// Microsoft hardware.
pub fn azure() -> (r: SmbiosPattern)
    ensures
        r == vendor_pattern("microsoft"),
{
    SmbiosPattern::new().with_bios_vendor("microsoft").with_sys_vendor("microsoft")
}

/// No hardware constraint.
pub fn empty() -> (r: SmbiosPattern)
    ensures
        r == empty_pattern(),
{
    SmbiosPattern::new()
}

/// Google hardware.
pub fn gcp() -> (r: SmbiosPattern)
    ensures
        r == vendor_pattern("google"),
{
    SmbiosPattern::new().with_bios_vendor("google").with_sys_vendor("google")
}

/// QEMU virtual hardware.
pub fn qemu() -> (r: SmbiosPattern)
    ensures
        r == sys_vendor_pattern("qemu"),
{
    SmbiosPattern::new().with_sys_vendor("qemu")
}

/// Data obtained from SMBIOS: each field is absent when it could not be read.
#[derive(Debug, Clone)]
pub struct Smbios {
    pub bios_vendor: Option<String>,
    pub product_name: Option<String>,
    pub sys_vendor: Option<String>,
}

/// The characters of an optional owned string.
pub open spec fn owned_view(o: Option<String>) -> Option<Seq<char>> {
    match o {
        Some(s) => Some(s@),
        None => None,
    }
}

/// A pattern field constrains the observed value: it is set.
pub open spec fn field_total(p: Option<&str>) -> nat {
    if p is Some { 1 } else { 0 }
}

/// A pattern field matches the observed value: both are present and the
/// pattern occurs in the lower-cased observed value.
pub open spec fn field_matches(p: Option<&str>, o: Option<String>) -> bool {
    match (p, o) {
        (Some(p), Some(o)) => occurs_in(p@, lower_of(o@)),
        _ => false,
    }
}

/// A pattern field never matches a value that was not observed: absence is
/// no evidence.
pub proof fn lemma_absent_never_matches(p: Option<&str>)
    ensures
        !field_matches(p, None),
{
}

/// One for a field that matches, zero otherwise.
pub open spec fn field_found(p: Option<&str>, o: Option<String>) -> nat {
    if field_matches(p, o) { 1 } else { 0 }
}

/// The share of `MAX_INDIVIDUAL_WEIGHTING` that `part` out of `whole` earns;
/// half of it when nothing is asked (`whole == 0`).
pub open spec fn share(part: nat, whole: nat) -> nat {
    if whole == 0 {
        (MAX_INDIVIDUAL_WEIGHTING / 2) as nat
    } else {
        part * (MAX_INDIVIDUAL_WEIGHTING as nat) / whole
    }
}

/// What normalising a raw SMBIOS value gives: absent when empty, else its
/// characters without surrounding whitespace, lower-cased.
pub open spec fn normalized(raw: Seq<char>) -> Option<Seq<char>> {
    if raw.len() == 0 {
        None
    } else {
        Some(lower_of(trim_of(raw)))
    }
}

/// A share is at most the full share of the whole, which is the full
/// weighting, or half of it when nothing is asked.
pub proof fn lemma_share_bound(part: nat, whole: nat)
    requires
        part <= whole,
    ensures
        share(part, whole) <= share(whole, whole),
        share(part, whole) <= MAX_INDIVIDUAL_WEIGHTING,
        whole > 0 ==> share(whole, whole) == MAX_INDIVIDUAL_WEIGHTING,
{
    if whole > 0 {
        assert(part * 16384 / whole <= 16384) by (nonlinear_arith)
            requires
                part <= whole,
                whole > 0,
        ;
        assert(whole * 16384 / whole == 16384) by (nonlinear_arith)
            requires
                whole > 0,
        ;
    }
}

/// A larger part of the same whole earns no smaller share.
pub proof fn lemma_share_monotonic(a: nat, b: nat, whole: nat)
    requires
        a <= b,
    ensures
        share(a, whole) <= share(b, whole),
{
    if whole > 0 {
        assert(a * 16384 / whole <= b * 16384 / whole) by (nonlinear_arith)
            requires
                a <= b,
                whole > 0,
        ;
    }
}

impl Smbios {
    /// The snapshot observes exactly the strings that `pattern` sets, and
    /// nothing where it sets none.
    pub open spec fn observes(self, pattern: SmbiosPattern) -> bool {
        &&& owned_view(self.bios_vendor) == opt_view(pattern.bios_vendor)
        &&& owned_view(self.product_name) == opt_view(pattern.product_name)
        &&& owned_view(self.sys_vendor) == opt_view(pattern.sys_vendor)
    }

    /// A snapshot with all three values absent.
    pub fn absent() -> (r: Smbios)
        ensures
            r.bios_vendor is None,
            r.product_name is None,
            r.sys_vendor is None,
    {
        Smbios { bios_vendor: None, product_name: None, sys_vendor: None }
    }

    /// A snapshot of the three given values.
    pub fn new(
        bios_vendor: Option<String>,
        product_name: Option<String>,
        sys_vendor: Option<String>,
    ) -> (r: Smbios)
        ensures
            r.bios_vendor == bios_vendor,
            r.product_name == product_name,
            r.sys_vendor == sys_vendor,
    {
        Smbios { bios_vendor, product_name, sys_vendor }
    }

    /// Normalises a value read from SMBIOS: an empty value is absent, any
    /// other is trimmed of surrounding whitespace and lower-cased.
    pub fn normalize(raw: &str) -> (r: Option<String>)
        ensures
            owned_view(r) == normalized(raw@),
    {
        if raw.is_empty() {
            None
        } else {
            let trimmed = trim_text(raw);
            Some(to_lowercase(trimmed))
        }
    }

    /// A snapshot that observes exactly the strings of a pattern.
    pub fn from_pattern(pattern: &SmbiosPattern) -> (r: Smbios)
        ensures
            r.observes(*pattern),
    {
        Smbios {
            bios_vendor: owned(pattern.bios_vendor),
            product_name: owned(pattern.product_name),
            sys_vendor: owned(pattern.sys_vendor),
        }
    }
}

impl Default for Smbios {
    fn default() -> (r: Smbios)
        ensures
            r.bios_vendor is None,
            r.product_name is None,
            r.sys_vendor is None,
    {
        Smbios::absent()
    }
}

fn owned(s: Option<&str>) -> (r: Option<String>)
    ensures
        owned_view(r) == opt_view(s),
{
    match s {
        Some(s) => Some(String::from_str(s)),
        None => None,
    }
}

impl From<SmbiosPattern> for Smbios {
    fn from(value: SmbiosPattern) -> (r: Smbios) {
        Smbios::from_pattern(&value)
    }
}

// What the conversion gives is stated by `Smbios::from_pattern`, over the
// characters of the strings: an owned string is not a spec value.
impl vstd::std_specs::convert::FromSpecImpl<SmbiosPattern> for Smbios {
    open spec fn obeys_from_spec() -> bool {
        false
    }

    open spec fn from_spec(v: SmbiosPattern) -> Smbios {
        Smbios { bios_vendor: None, product_name: None, sys_vendor: None }
    }
}

/// A partially specified hardware identity: each set field is a lower-case
/// string that must occur in the corresponding observed value.
#[derive(Debug, Clone, Copy)]
pub struct SmbiosPattern {
    pub bios_vendor: Option<&'static str>,
    pub product_name: Option<&'static str>,
    pub sys_vendor: Option<&'static str>,
}

/// Whether a pattern field matches the observed value.
fn field_detect(pattern: Option<&str>, observed: &Option<String>) -> (r: bool)
    ensures
        r == field_matches(pattern, *observed),
{
    match (pattern, observed) {
        (Some(p), Some(o)) => {
            let lower = to_lowercase(o.as_str());
            contains_text(lower.as_str(), p)
        },
        _ => false,
    }
}

impl SmbiosPattern {
    /// Number of fields that the pattern sets.
    pub open spec fn total(self) -> nat {
        field_total(self.bios_vendor) + field_total(self.product_name) + field_total(
            self.sys_vendor,
        )
    }

    /// Number of set fields that match the snapshot.
    pub open spec fn matched(self, s: Smbios) -> nat {
        field_found(self.bios_vendor, s.bios_vendor) + field_found(
            self.product_name,
            s.product_name,
        ) + field_found(self.sys_vendor, s.sys_vendor)
    }

    /// The hardware sub-score of a snapshot against this pattern.
    pub open spec fn hardware_score(self, s: Smbios) -> nat {
        share(self.matched(s), self.total())
    }

    /// Every set field is unchanged by lower-casing, as the observed values
    /// it is matched against are lower-cased.
    pub open spec fn is_normalized(self) -> bool {
        &&& (self.bios_vendor matches Some(v) ==> lower_of(v@) == v@)
        &&& (self.product_name matches Some(v) ==> lower_of(v@) == v@)
        &&& (self.sys_vendor matches Some(v) ==> lower_of(v@) == v@)
    }

    /// Returns a score from 0 to `MAX_INDIVIDUAL_WEIGHTING` for how well the
    /// snapshot matches this pattern.
    pub fn detect(&self, smbios: &Smbios) -> (r: u16)
        ensures
            r == self.hardware_score(*smbios),
            r <= MAX_INDIVIDUAL_WEIGHTING,
    {
        let mut total: u16 = 0;
        let mut found: u16 = 0;
        if self.bios_vendor.is_some() {
            total += 1;
            if field_detect(self.bios_vendor, &smbios.bios_vendor) {
                found += 1;
            }
        }
        if self.product_name.is_some() {
            total += 1;
            if field_detect(self.product_name, &smbios.product_name) {
                found += 1;
            }
        }
        if self.sys_vendor.is_some() {
            total += 1;
            if field_detect(self.sys_vendor, &smbios.sys_vendor) {
                found += 1;
            }
        }
        assert(total == self.total() && found == self.matched(*smbios));
        if total == 0 {
            // Half credit: no hardware constraint is neither evidence for nor against.
            MAX_INDIVIDUAL_WEIGHTING / 2
        } else {
            proof {
                lemma_share_bound(found as nat, total as nat);
                assert((found as int) * 16384 <= 3 * 16384) by (nonlinear_arith)
                    requires
                        found <= 3,
                ;
            }
            found * MAX_INDIVIDUAL_WEIGHTING / total
        }
    }

    /// The pattern that sets no field.
    pub fn new() -> (r: SmbiosPattern)
        ensures
            r.bios_vendor is None,
            r.product_name is None,
            r.sys_vendor is None,
    {
        SmbiosPattern { bios_vendor: None, product_name: None, sys_vendor: None }
    }

    /// This pattern with the BIOS vendor set.
    pub fn with_bios_vendor(self, bios_vendor: &'static str) -> (r: SmbiosPattern)
        ensures
            r.bios_vendor == Some(bios_vendor),
            r.product_name == self.product_name,
            r.sys_vendor == self.sys_vendor,
    {
        SmbiosPattern { bios_vendor: Some(bios_vendor), ..self }
    }

    /// This pattern with the product name set.
    pub fn with_product_name(self, product_name: &'static str) -> (r: SmbiosPattern)
        ensures
            r.bios_vendor == self.bios_vendor,
            r.product_name == Some(product_name),
            r.sys_vendor == self.sys_vendor,
    {
        SmbiosPattern { product_name: Some(product_name), ..self }
    }

    /// This pattern with the system vendor set.
    pub fn with_sys_vendor(self, sys_vendor: &'static str) -> (r: SmbiosPattern)
        ensures
            r.bios_vendor == self.bios_vendor,
            r.product_name == self.product_name,
            r.sys_vendor == Some(sys_vendor),
    {
        SmbiosPattern { sys_vendor: Some(sys_vendor), ..self }
    }
}

impl Default for SmbiosPattern {
    fn default() -> (r: SmbiosPattern)
        ensures
            r.bios_vendor is None,
            r.product_name is None,
            r.sys_vendor is None,
    {
        SmbiosPattern::new()
    }
}

/// Specificity of two patterns, field by field.
pub open spec fn pattern_cmp(a: SmbiosPattern, b: SmbiosPattern) -> Option<Ordering> {
    merge(
        merge(
            value_cmp(opt_view(a.bios_vendor), opt_view(b.bios_vendor)),
            value_cmp(opt_view(a.product_name), opt_view(b.product_name)),
        ),
        value_cmp(opt_view(a.sys_vendor), opt_view(b.sys_vendor)),
    )
}

impl Specificity for SmbiosPattern {
    open spec fn spec_specificity_cmp(&self, other: &Self) -> Option<Ordering> {
        pattern_cmp(*self, *other)
    }

    fn specificity_cmp(&self, other: &Self) -> (r: Option<Ordering>) {
        let bios_vendor = self.bios_vendor.specificity_cmp(&other.bios_vendor);
        let product_name = self.product_name.specificity_cmp(&other.product_name);
        let sys_vendor = self.sys_vendor.specificity_cmp(&other.sys_vendor);
        bios_vendor.merge_specificity(product_name).merge_specificity(sys_vendor)
    }
}

} // verus!
