use apollo_environment_detector::{CloudProvider, ComputeEnvironment};

#[test]
fn environment_names_and_codes() {
    assert_eq!(ComputeEnvironment::AwsEc2.as_str(), "AWS EC2");
    assert_eq!(ComputeEnvironment::GcpCloudRunGen2.as_str(), "Google Cloud Run (Gen2)");
    assert_eq!(ComputeEnvironment::Qemu.to_string(), "QEMU");
    assert_eq!(ComputeEnvironment::AwsKubernetes.platform_code(), "aws_eks");
    assert_eq!(ComputeEnvironment::AzureContainerAppsJob.platform_code(), "azure_container_apps");
    assert_eq!(ComputeEnvironment::GcpNomad.platform_code(), "nomad");
    assert_eq!(ComputeEnvironment::AzureContainerInstance.platform_code(), "azure_container_instances");
}

#[test]
fn environment_cloud_providers() {
    assert_eq!(ComputeEnvironment::AwsLambda.cloud_provider(), Some(CloudProvider::Aws));
    assert_eq!(ComputeEnvironment::AzureVM.cloud_provider(), Some(CloudProvider::Azure));
    assert_eq!(ComputeEnvironment::GcpKubernetes.cloud_provider(), Some(CloudProvider::GoogleCloud));
    assert_eq!(ComputeEnvironment::Kubernetes.cloud_provider(), None);
    assert_eq!(ComputeEnvironment::Qemu.cloud_provider(), None);
}

#[test]
fn cloud_provider_names_and_codes() {
    assert_eq!(CloudProvider::Aws.as_str(), "AWS");
    assert_eq!(CloudProvider::Azure.as_str(), "Azure");
    assert_eq!(CloudProvider::GoogleCloud.as_str(), "Google Cloud");
    assert_eq!(CloudProvider::GoogleCloud.to_string(), "Google Cloud");
    assert_eq!(CloudProvider::Aws.code(), "aws");
    assert_eq!(CloudProvider::Azure.code(), "azure");
    assert_eq!(CloudProvider::GoogleCloud.code(), "gcp");
}

#[test]
fn iterator_walks_the_catalog_once() {
    let mut it = ComputeEnvironment::iter();
    assert_eq!(it.get(0), Some(ComputeEnvironment::AwsEc2));
    assert_eq!(it.get(19), Some(ComputeEnvironment::Qemu));
    assert_eq!(it.get(20), None);
    let mut seen = Vec::new();
    while let Some(e) = it.next() {
        seen.push(e);
    }
    assert_eq!(seen.len(), 20);
    assert_eq!(seen[3], ComputeEnvironment::AwsKubernetes);
    assert_eq!(it.next(), None);
}

#[test]
fn detectors_carry_their_environment() {
    let d = ComputeEnvironment::AwsNomad.detector();
    assert_eq!(d.environment, ComputeEnvironment::AwsNomad);
    assert_eq!(d.smbios.bios_vendor, Some("amazon"));
    assert_eq!(d.smbios.sys_vendor, Some("amazon"));
    assert_eq!(d.env_vars.len(), 18);
    let q = ComputeEnvironment::Qemu.detector();
    assert_eq!(q.smbios.sys_vendor, Some("qemu"));
    assert!(q.env_vars.is_empty());
}
