use apollo_environment_detector::{
    catalog, detect_inner, detect_one_inner, rank, watched_env_vars, ComputeEnvironment, Detector,
    Smbios, MAX_TOTAL_WEIGHTING,
};

const ALL: [ComputeEnvironment; 20] = [
    ComputeEnvironment::AwsEc2,
    ComputeEnvironment::AwsEcs,
    ComputeEnvironment::AwsLambda,
    ComputeEnvironment::AwsKubernetes,
    ComputeEnvironment::AwsNomad,
    ComputeEnvironment::AzureContainerApps,
    ComputeEnvironment::AzureContainerAppsJob,
    ComputeEnvironment::AzureContainerInstance,
    ComputeEnvironment::AzureKubernetes,
    ComputeEnvironment::AzureVM,
    ComputeEnvironment::AzureNomad,
    ComputeEnvironment::GcpCloudRunGen1,
    ComputeEnvironment::GcpCloudRunGen2,
    ComputeEnvironment::GcpCloudRunJob,
    ComputeEnvironment::GcpComputeEngine,
    ComputeEnvironment::GcpKubernetes,
    ComputeEnvironment::GcpNomad,
    ComputeEnvironment::Kubernetes,
    ComputeEnvironment::Nomad,
    ComputeEnvironment::Qemu,
];

fn detectors() -> Vec<Detector> {
    catalog()
}

#[test]
fn test_complete() {
    for environment in ALL {
        let smbios: Smbios = environment.detector().smbios.into();
        let env_vars: Vec<&str> = environment.detector().env_vars.to_vec();

        let result = detect_inner(detectors(), smbios, &env_vars, u16::MIN);

        assert_eq!(result.first(), Some(&environment));
    }
}

fn tolerant_of_missing_vars(environment: ComputeEnvironment) -> bool {
    // Accepted risk: the variables specific to Azure Container Apps are few
    // next to the Kubernetes ones they share.
    environment != ComputeEnvironment::AzureContainerApps
        && environment != ComputeEnvironment::AzureContainerAppsJob
}

#[test]
fn test_missing_1_env_var() {
    for environment in ALL.into_iter().filter(|e| tolerant_of_missing_vars(*e)) {
        let smbios: Smbios = environment.detector().smbios.into();
        let env_vars = environment.detector().env_vars.to_vec();

        for i in 0..(env_vars.len()) {
            let mut env_vars = env_vars.clone();
            let removed = env_vars.remove(i);

            let result = detect_inner(detectors(), smbios.clone(), &env_vars, u16::MIN);

            assert_eq!(result.first(), Some(&environment), "mismatch with {removed} removed");
        }
    }
}

#[test]
fn test_missing_2_env_var() {
    for environment in ALL.into_iter().filter(|e| tolerant_of_missing_vars(*e)) {
        let smbios: Smbios = environment.detector().smbios.into();
        let env_vars = environment.detector().env_vars.to_vec();

        for i in 0..(env_vars.len()) {
            for j in 0..(env_vars.len() - 1) {
                let mut env_vars = env_vars.clone();
                let removed_1 = env_vars.remove(i);
                let removed_2 = env_vars.remove(j);

                let result = detect_inner(detectors(), smbios.clone(), &env_vars, u16::MIN);

                assert_eq!(
                    result.first(),
                    Some(&environment),
                    "mismatch with {removed_1} and {removed_2} removed"
                );
            }
        }
    }
}

#[test]
fn full_evidence_ranks_above_less_specific() {
    let kubernetes_on_aws = ComputeEnvironment::AwsKubernetes.detector();
    let smbios = Smbios::from_pattern(&kubernetes_on_aws.smbios);
    let result = detect_inner(detectors(), smbios, kubernetes_on_aws.env_vars, 0);
    let position = |e: ComputeEnvironment| result.iter().position(|r| *r == e).unwrap();
    assert_eq!(position(ComputeEnvironment::AwsKubernetes), 0);
    assert!(position(ComputeEnvironment::AwsKubernetes) < position(ComputeEnvironment::Kubernetes));
    assert!(position(ComputeEnvironment::AwsKubernetes) < position(ComputeEnvironment::AwsEc2));
    assert_eq!(result.len(), ALL.len());
}

#[test]
fn ranking_is_sorted_by_score() {
    let env_vars = ["KUBERNETES_PORT", "K_SERVICE", "NOMAD_DC"];
    let smbios = Smbios::new(Some("google".to_string()), None, None);
    let ranked = rank(&detectors(), &smbios, &env_vars, 0);
    assert_eq!(ranked.len(), ALL.len());
    for pair in ranked.windows(2) {
        assert!(pair[0].1 >= pair[1].1);
    }
    for (environment, score) in &ranked {
        assert_eq!(*score, environment.detector().detect(&smbios, &env_vars));
    }
}

#[test]
fn threshold_filters_and_can_empty_the_result() {
    let smbios = Smbios::absent();
    let everything = detect_inner(detectors(), smbios.clone(), &[], 0);
    assert_eq!(everything.len(), ALL.len());
    let nothing = detect_inner(detectors(), smbios.clone(), &[], MAX_TOTAL_WEIGHTING);
    assert!(nothing.is_empty());
    assert_eq!(detect_one_inner(detectors(), smbios.clone(), &[], MAX_TOTAL_WEIGHTING), None);
    let ranked = rank(&detectors(), &smbios, &[], 1);
    assert!(ranked.iter().all(|(_, score)| *score >= 1));
}

#[test]
fn detect_one_is_the_best_guess() {
    let qemu = ComputeEnvironment::Qemu.detector();
    let smbios = Smbios::from_pattern(&qemu.smbios);
    assert_eq!(detect_one_inner(detectors(), smbios, &[], 0), Some(ComputeEnvironment::Qemu));
}

#[test]
fn equal_inputs_give_equal_rankings() {
    let env_vars = ["KUBERNETES_PORT"];
    let first = detect_inner(detectors(), Smbios::absent(), &env_vars, 0);
    let second = detect_inner(detectors(), Smbios::absent(), &env_vars, 0);
    assert_eq!(first, second);
}

#[test]
fn catalog_follows_declaration_order() {
    let all = catalog();
    assert_eq!(all.len(), ALL.len());
    for (detector, environment) in all.iter().zip(ALL) {
        assert_eq!(detector.environment, environment);
    }
}

#[test]
fn watched_env_vars_lists_every_detector_variable() {
    let all = catalog();
    let watched = watched_env_vars(&all);
    let total: usize = all.iter().map(|d| d.env_vars.len()).sum();
    assert_eq!(watched.len(), total);
    assert!(watched.contains(&"KUBERNETES_SERVICE_HOST"));
    assert!(watched.contains(&"AWS_LAMBDA_RUNTIME_API"));
    assert!(watched.contains(&"NOMAD_ALLOC_DIR"));
}
