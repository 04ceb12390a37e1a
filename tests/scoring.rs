use apollo_environment_detector::smbios;
use apollo_environment_detector::{
    ComputeEnvironment, Detector, Smbios, SmbiosPattern, MAX_INDIVIDUAL_WEIGHTING,
    MAX_TOTAL_WEIGHTING,
};

fn testing_pattern() -> SmbiosPattern {
    SmbiosPattern::new()
        .with_bios_vendor("test_bios_vendor")
        .with_product_name("test_product_name")
        .with_sys_vendor("test_sys_vendor")
}

fn detector_detect(smbios_pattern: SmbiosPattern, env_vars: &[&str]) -> u16 {
    let smbios = Smbios::from(smbios_pattern);
    Detector::new(ComputeEnvironment::AwsEc2, smbios_pattern, &["TESTING_ENV"]).detect(&smbios, env_vars)
}

#[test]
fn detector_detect_match_smbios_env() {
    assert_eq!(MAX_TOTAL_WEIGHTING, detector_detect(testing_pattern(), &["TESTING_ENV"]));
}

#[test]
fn detector_detect_match_smbios() {
    assert_eq!(MAX_INDIVIDUAL_WEIGHTING, detector_detect(testing_pattern(), &[]));
}

#[test]
fn detector_detect_match_env() {
    assert_eq!(
        MAX_INDIVIDUAL_WEIGHTING + (MAX_INDIVIDUAL_WEIGHTING / 2),
        detector_detect(SmbiosPattern::new(), &["TESTING_ENV"])
    );
}

fn pattern_detect(bios_vendor: &'static str, product_name: &'static str, sys_vendor: &'static str) -> u16 {
    let smbios = Smbios::from(
        SmbiosPattern::new()
            .with_bios_vendor(bios_vendor)
            .with_product_name(product_name)
            .with_sys_vendor(sys_vendor),
    );
    testing_pattern().detect(&smbios)
}

#[test]
fn smbiospattern_detect_cases() {
    assert_eq!(0, pattern_detect("", "", ""));
    assert_eq!(5461, pattern_detect("test_bios_vendor", "", ""));
    assert_eq!(5461, pattern_detect("", "test_product_name", ""));
    assert_eq!(5461, pattern_detect("", "", "test_sys_vendor"));
    assert_eq!(10922, pattern_detect("test_bios_vendor", "test_product_name", ""));
    assert_eq!(10922, pattern_detect("test_bios_vendor", "", "test_sys_vendor"));
    assert_eq!(10922, pattern_detect("", "test_product_name", "test_sys_vendor"));
    assert_eq!(16384, pattern_detect("test_bios_vendor", "test_product_name", "test_sys_vendor"));
}

#[test]
fn smbiospattern_detect_empty() {
    let smbios_pattern = SmbiosPattern::new();
    let smbios = Smbios::from(smbios_pattern);
    let detected = SmbiosPattern::new().detect(&smbios);
    assert_eq!(MAX_INDIVIDUAL_WEIGHTING / 2, detected);
}

#[test]
fn observed_value_is_matched_case_insensitively() {
    let smbios = Smbios::new(Some("Amazon EC2".to_string()), None, Some("AMAZON".to_string()));
    assert_eq!(MAX_INDIVIDUAL_WEIGHTING, smbios::aws().detect(&smbios));
    let other = Smbios::new(Some("Google".to_string()), None, Some("Amazon".to_string()));
    assert_eq!(MAX_INDIVIDUAL_WEIGHTING / 2, smbios::aws().detect(&other));
}

#[test]
fn no_evidence_scores_individual_maximum_only_without_constraints() {
    let smbios = Smbios::absent();
    let unconstrained = Detector::new(ComputeEnvironment::AwsEc2, SmbiosPattern::new(), &[]);
    assert_eq!(MAX_INDIVIDUAL_WEIGHTING, unconstrained.detect(&smbios, &[]));
    let hardware_only = Detector::new(ComputeEnvironment::AwsEc2, smbios::aws(), &[]);
    assert_eq!(MAX_INDIVIDUAL_WEIGHTING / 2, hardware_only.detect(&smbios, &[]));
    let env_only = Detector::new(ComputeEnvironment::AwsEc2, SmbiosPattern::new(), &["A", "B"]);
    assert_eq!(MAX_INDIVIDUAL_WEIGHTING / 2, env_only.detect(&smbios, &[]));
    let both = Detector::new(ComputeEnvironment::AwsEc2, smbios::aws(), &["A"]);
    assert_eq!(0, both.detect(&smbios, &[]));
}

#[test]
fn env_sub_score_is_proportional() {
    let smbios = Smbios::absent();
    let d = Detector::new(ComputeEnvironment::AwsEc2, SmbiosPattern::new(), &["A", "B", "C"]);
    let half = MAX_INDIVIDUAL_WEIGHTING / 2;
    assert_eq!(half, d.detect(&smbios, &[]));
    assert_eq!(half + 5461, d.detect(&smbios, &["A"]));
    assert_eq!(half + 10922, d.detect(&smbios, &["A", "C", "Z"]));
    assert_eq!(half + MAX_INDIVIDUAL_WEIGHTING, d.detect(&smbios, &["C", "B", "A"]));
}

#[test]
fn more_evidence_never_lowers_the_score() {
    let d = ComputeEnvironment::AwsLambda.detector();
    let smbios = Smbios::absent();
    let mut present: Vec<&str> = Vec::new();
    let mut last = d.detect(&smbios, &present);
    for name in d.env_vars {
        present.push(*name);
        let now = d.detect(&smbios, &present);
        assert!(now >= last);
        last = now;
    }
    let mut hardware = Smbios::absent();
    let before = ComputeEnvironment::AwsEc2.detector().detect(&hardware, &[]);
    hardware.bios_vendor = Some("amazon".to_string());
    let after = ComputeEnvironment::AwsEc2.detector().detect(&hardware, &[]);
    assert!(after > before);
}

#[test]
fn own_pattern_gives_maximum_score() {
    for environment in apollo_environment_detector::catalog().iter().map(|d| d.environment) {
        let d = environment.detector();
        let smbios = Smbios::from_pattern(&d.smbios);
        let unconstrained = d.smbios.bios_vendor.is_none()
            && d.smbios.product_name.is_none()
            && d.smbios.sys_vendor.is_none();
        let expected_hw = if unconstrained { MAX_INDIVIDUAL_WEIGHTING / 2 } else { MAX_INDIVIDUAL_WEIGHTING };
        let expected_env = if d.env_vars.is_empty() { MAX_INDIVIDUAL_WEIGHTING / 2 } else { MAX_INDIVIDUAL_WEIGHTING };
        assert_eq!(expected_hw + expected_env, d.detect(&smbios, d.env_vars));
    }
}

#[test]
fn absent_value_never_matches() {
    let pattern = SmbiosPattern::new().with_sys_vendor("qemu");
    let smbios = Smbios::new(Some("qemu".to_string()), Some("qemu".to_string()), None);
    assert_eq!(0, pattern.detect(&smbios));
}

#[test]
fn normalize_trims_and_lowercases() {
    assert_eq!(None, Smbios::normalize(""));
    assert_eq!(Some("amazon ec2".to_string()), Smbios::normalize("  Amazon EC2\n"));
    assert_eq!(Some("qemu".to_string()), Smbios::normalize("QEMU"));
}
