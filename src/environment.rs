//! The closed catalog of compute environments that can be detected, and the
//! cloud providers they belong to.

use crate::detector::Detector;
use crate::env_vars;
use crate::smbios::{self, empty_pattern, sys_vendor_pattern, vendor_pattern, SmbiosPattern};
use vstd::prelude::*;
use vstd::string::StringExecFns;

verus! {

/// Number of compute environments in the catalog.
pub const ENVIRONMENT_COUNT: usize = 20;

/// Supported compute environments that can be detected by this crate.
#[derive(Clone, Copy, Debug, PartialEq, Eq, Hash, Structural)]
pub enum ComputeEnvironment {
    /// Amazon Elastic Compute Cloud (EC2)
    AwsEc2,
    /// Amazon Elastic Container Service (ECS)
    AwsEcs,
    /// AWS Lambda
    AwsLambda,
    /// Kubernetes on AWS
    AwsKubernetes,
    /// Nomad on AWS
    AwsNomad,
    /// Azure Containers Apps
    AzureContainerApps,
    /// Azure Container Apps Job
    AzureContainerAppsJob,
    /// Azure Container Instance
    AzureContainerInstance,
    /// Kubernetes on Azure
    AzureKubernetes,
    /// Azure VM
    AzureVM,
    /// Nomad on Azure
    AzureNomad,
    /// Google Cloud Run (Gen1)
    GcpCloudRunGen1,
    /// Google Cloud Run (Gen2)
    GcpCloudRunGen2,
    /// Google Cloud Run (Job)
    GcpCloudRunJob,
    /// Google Compute Engine
    GcpComputeEngine,
    /// Kubernetes on Google Cloud
    GcpKubernetes,
    /// Nomad on Google Cloud
    GcpNomad,
    /// Kubernetes
    Kubernetes,
    /// Nomad
    Nomad,
    /// QEMU
    Qemu,
}

impl ComputeEnvironment {
    /// Position of this environment in the catalog's declaration order.
    pub open spec fn index(self) -> nat {
        match self {
            ComputeEnvironment::AwsEc2 => 0,
            ComputeEnvironment::AwsEcs => 1,
            ComputeEnvironment::AwsLambda => 2,
            ComputeEnvironment::AwsKubernetes => 3,
            ComputeEnvironment::AwsNomad => 4,
            ComputeEnvironment::AzureContainerApps => 5,
            ComputeEnvironment::AzureContainerAppsJob => 6,
            ComputeEnvironment::AzureContainerInstance => 7,
            ComputeEnvironment::AzureKubernetes => 8,
            ComputeEnvironment::AzureVM => 9,
            ComputeEnvironment::AzureNomad => 10,
            ComputeEnvironment::GcpCloudRunGen1 => 11,
            ComputeEnvironment::GcpCloudRunGen2 => 12,
            ComputeEnvironment::GcpCloudRunJob => 13,
            ComputeEnvironment::GcpComputeEngine => 14,
            ComputeEnvironment::GcpKubernetes => 15,
            ComputeEnvironment::GcpNomad => 16,
            ComputeEnvironment::Kubernetes => 17,
            ComputeEnvironment::Nomad => 18,
            ComputeEnvironment::Qemu => 19,
        }
    }

    /// The hardware pattern this environment is recognised by.
    pub open spec fn pattern(self) -> SmbiosPattern {
        match self {
            ComputeEnvironment::AwsEc2 => vendor_pattern("amazon"),
            ComputeEnvironment::AwsEcs => empty_pattern(),
            ComputeEnvironment::AwsLambda => empty_pattern(),
            ComputeEnvironment::AwsKubernetes => vendor_pattern("amazon"),
            ComputeEnvironment::AwsNomad => vendor_pattern("amazon"),
            ComputeEnvironment::AzureContainerApps => vendor_pattern("microsoft"),
            ComputeEnvironment::AzureContainerAppsJob => vendor_pattern("microsoft"),
            ComputeEnvironment::AzureContainerInstance => empty_pattern(),
            ComputeEnvironment::AzureKubernetes => vendor_pattern("microsoft"),
            ComputeEnvironment::AzureVM => vendor_pattern("microsoft"),
            ComputeEnvironment::AzureNomad => vendor_pattern("microsoft"),
            ComputeEnvironment::GcpCloudRunGen1 => empty_pattern(),
            ComputeEnvironment::GcpCloudRunGen2 => vendor_pattern("google"),
            ComputeEnvironment::GcpCloudRunJob => vendor_pattern("google"),
            ComputeEnvironment::GcpComputeEngine => vendor_pattern("google"),
            ComputeEnvironment::GcpKubernetes => vendor_pattern("google"),
            ComputeEnvironment::GcpNomad => vendor_pattern("google"),
            ComputeEnvironment::Kubernetes => empty_pattern(),
            ComputeEnvironment::Nomad => empty_pattern(),
            ComputeEnvironment::Qemu => sys_vendor_pattern("qemu"),
        }
    }

    /// The environment variables this environment is recognised by.
    pub open spec fn required_vars(self) -> Seq<&'static str> {
        match self {
            ComputeEnvironment::AwsEc2 => env_vars::EMPTY@,
            ComputeEnvironment::AwsEcs => env_vars::AWS_ECS@,
            ComputeEnvironment::AwsLambda => env_vars::AWS_LAMBDA@,
            ComputeEnvironment::AwsKubernetes => env_vars::KUBERNETES@,
            ComputeEnvironment::AwsNomad => env_vars::NOMAD@,
            ComputeEnvironment::AzureContainerApps => env_vars::AZURE_CONTAINER_APPS@,
            ComputeEnvironment::AzureContainerAppsJob => env_vars::AZURE_CONTAINER_APPS_JOB@,
            ComputeEnvironment::AzureContainerInstance => env_vars::AZURE_CONTAINER_INSTANCE@,
            ComputeEnvironment::AzureKubernetes => env_vars::KUBERNETES@,
            ComputeEnvironment::AzureVM => env_vars::EMPTY@,
            ComputeEnvironment::AzureNomad => env_vars::NOMAD@,
            ComputeEnvironment::GcpCloudRunGen1 => env_vars::GCP_CLOUD_RUN_SERVICE@,
            ComputeEnvironment::GcpCloudRunGen2 => env_vars::GCP_CLOUD_RUN_SERVICE@,
            ComputeEnvironment::GcpCloudRunJob => env_vars::GCP_CLOUD_RUN_JOB@,
            ComputeEnvironment::GcpComputeEngine => env_vars::EMPTY@,
            ComputeEnvironment::GcpKubernetes => env_vars::KUBERNETES@,
            ComputeEnvironment::GcpNomad => env_vars::NOMAD@,
            ComputeEnvironment::Kubernetes => env_vars::KUBERNETES@,
            ComputeEnvironment::Nomad => env_vars::NOMAD@,
            ComputeEnvironment::Qemu => env_vars::EMPTY@,
        }
    }

    /// Human-readable name.
    pub open spec fn name(self) -> Seq<char> {
        match self {
            ComputeEnvironment::AwsEc2 => "AWS EC2"@,
            ComputeEnvironment::AwsEcs => "AWS ECS"@,
            ComputeEnvironment::AwsLambda => "AWS Lambda"@,
            ComputeEnvironment::AwsKubernetes => "Kubernetes on AWS"@,
            ComputeEnvironment::AwsNomad => "Nomad on AWS"@,
            ComputeEnvironment::AzureContainerApps => "Azure Container Apps"@,
            ComputeEnvironment::AzureContainerAppsJob => "Azure Container Apps Job"@,
            ComputeEnvironment::AzureContainerInstance => "Azure Container Instance"@,
            ComputeEnvironment::AzureKubernetes => "Kubernetes on Azure"@,
            ComputeEnvironment::AzureVM => "Azure VM"@,
            ComputeEnvironment::AzureNomad => "Nomad on Azure"@,
            ComputeEnvironment::GcpCloudRunGen1 => "Google Cloud Run (Gen1)"@,
            ComputeEnvironment::GcpCloudRunGen2 => "Google Cloud Run (Gen2)"@,
            ComputeEnvironment::GcpCloudRunJob => "Google Cloud Run (Job)"@,
            ComputeEnvironment::GcpComputeEngine => "Google Compute Engine"@,
            ComputeEnvironment::GcpKubernetes => "Kubernetes on Google Cloud"@,
            ComputeEnvironment::GcpNomad => "Nomad on Google Cloud"@,
            ComputeEnvironment::Kubernetes => "Kubernetes"@,
            ComputeEnvironment::Nomad => "Nomad"@,
            ComputeEnvironment::Qemu => "QEMU"@,
        }
    }

    /// Platform code, after the `cloud.platform` attribute of the
    /// OpenTelemetry semantic conventions where one exists.
    pub open spec fn code(self) -> Seq<char> {
        match self {
            ComputeEnvironment::AwsEc2 => "aws_ec2"@,
            ComputeEnvironment::AwsEcs => "aws_ecs"@,
            ComputeEnvironment::AwsLambda => "aws_lambda"@,
            ComputeEnvironment::AwsKubernetes => "aws_eks"@,
            ComputeEnvironment::AwsNomad => "nomad"@,
            ComputeEnvironment::AzureContainerApps => "azure_container_apps"@,
            ComputeEnvironment::AzureContainerAppsJob => "azure_container_apps"@,
            ComputeEnvironment::AzureContainerInstance => "azure_container_instances"@,
            ComputeEnvironment::AzureKubernetes => "azure_aks"@,
            ComputeEnvironment::AzureVM => "azure_vm"@,
            ComputeEnvironment::AzureNomad => "nomad"@,
            ComputeEnvironment::GcpCloudRunGen1 => "gcp_cloud_run"@,
            ComputeEnvironment::GcpCloudRunGen2 => "gcp_cloud_run"@,
            ComputeEnvironment::GcpCloudRunJob => "gcp_cloud_run"@,
            ComputeEnvironment::GcpComputeEngine => "gcp_compute_engine"@,
            ComputeEnvironment::GcpKubernetes => "gcp_kubernetes_engine"@,
            ComputeEnvironment::GcpNomad => "nomad"@,
            ComputeEnvironment::Kubernetes => "kubernetes"@,
            ComputeEnvironment::Nomad => "nomad"@,
            ComputeEnvironment::Qemu => "qemu"@,
        }
    }

    /// The cloud provider the environment runs on, if any.
    pub open spec fn provider(self) -> Option<CloudProvider> {
        match self {
            ComputeEnvironment::AwsEc2 => Some(CloudProvider::Aws),
            ComputeEnvironment::AwsEcs => Some(CloudProvider::Aws),
            ComputeEnvironment::AwsLambda => Some(CloudProvider::Aws),
            ComputeEnvironment::AwsKubernetes => Some(CloudProvider::Aws),
            ComputeEnvironment::AwsNomad => Some(CloudProvider::Aws),
            ComputeEnvironment::AzureContainerApps => Some(CloudProvider::Azure),
            ComputeEnvironment::AzureContainerAppsJob => Some(CloudProvider::Azure),
            ComputeEnvironment::AzureContainerInstance => Some(CloudProvider::Azure),
            ComputeEnvironment::AzureKubernetes => Some(CloudProvider::Azure),
            ComputeEnvironment::AzureVM => Some(CloudProvider::Azure),
            ComputeEnvironment::AzureNomad => Some(CloudProvider::Azure),
            ComputeEnvironment::GcpCloudRunGen1 => Some(CloudProvider::GoogleCloud),
            ComputeEnvironment::GcpCloudRunGen2 => Some(CloudProvider::GoogleCloud),
            ComputeEnvironment::GcpCloudRunJob => Some(CloudProvider::GoogleCloud),
            ComputeEnvironment::GcpComputeEngine => Some(CloudProvider::GoogleCloud),
            ComputeEnvironment::GcpKubernetes => Some(CloudProvider::GoogleCloud),
            ComputeEnvironment::GcpNomad => Some(CloudProvider::GoogleCloud),
            ComputeEnvironment::Kubernetes => None,
            ComputeEnvironment::Nomad => None,
            ComputeEnvironment::Qemu => None,
        }
    }

    /// A cursor over the catalog, at its first environment.
    pub fn iter() -> (r: ComputeEnvironmentIter)
        ensures
            r.position() == 0,
    {
        ComputeEnvironmentIter { idx: 0 }
    }

    /// The detector of this environment: its hardware pattern and required
    /// environment variables.
    pub fn detector(&self) -> (r: Detector)
        ensures
            r.environment == *self,
            r.smbios == self.pattern(),
            r.env_vars@ == self.required_vars(),
    {
        match self {
            Self::AwsEc2 => Detector::new(*self, smbios::aws(), &env_vars::EMPTY),
            Self::AwsEcs => Detector::new(*self, smbios::empty(), &env_vars::AWS_ECS),
            Self::AwsLambda => Detector::new(*self, smbios::empty(), &env_vars::AWS_LAMBDA),
            Self::AwsKubernetes => Detector::new(*self, smbios::aws(), &env_vars::KUBERNETES),
            Self::AwsNomad => Detector::new(*self, smbios::aws(), &env_vars::NOMAD),
            Self::AzureContainerApps => Detector::new(*self, smbios::azure(), &env_vars::AZURE_CONTAINER_APPS),
            Self::AzureContainerAppsJob => Detector::new(*self, smbios::azure(), &env_vars::AZURE_CONTAINER_APPS_JOB),
            Self::AzureContainerInstance => Detector::new(*self, smbios::empty(), &env_vars::AZURE_CONTAINER_INSTANCE),
            Self::AzureKubernetes => Detector::new(*self, smbios::azure(), &env_vars::KUBERNETES),
            Self::AzureVM => Detector::new(*self, smbios::azure(), &env_vars::EMPTY),
            Self::AzureNomad => Detector::new(*self, smbios::azure(), &env_vars::NOMAD),
            Self::GcpCloudRunGen1 => Detector::new(*self, smbios::empty(), &env_vars::GCP_CLOUD_RUN_SERVICE),
            Self::GcpCloudRunGen2 => Detector::new(*self, smbios::gcp(), &env_vars::GCP_CLOUD_RUN_SERVICE),
            Self::GcpCloudRunJob => Detector::new(*self, smbios::gcp(), &env_vars::GCP_CLOUD_RUN_JOB),
            Self::GcpComputeEngine => Detector::new(*self, smbios::gcp(), &env_vars::EMPTY),
            Self::GcpKubernetes => Detector::new(*self, smbios::gcp(), &env_vars::KUBERNETES),
            Self::GcpNomad => Detector::new(*self, smbios::gcp(), &env_vars::NOMAD),
            Self::Kubernetes => Detector::new(*self, smbios::empty(), &env_vars::KUBERNETES),
            Self::Nomad => Detector::new(*self, smbios::empty(), &env_vars::NOMAD),
            Self::Qemu => Detector::new(*self, smbios::qemu(), &env_vars::EMPTY),
        }
    }

    /// Static string representation of the environment.
    pub fn as_str(&self) -> (r: &'static str)
        ensures
            r@ == self.name(),
    {
        match self {
            Self::AwsEc2 => "AWS EC2",
            Self::AwsEcs => "AWS ECS",
            Self::AwsLambda => "AWS Lambda",
            Self::AwsKubernetes => "Kubernetes on AWS",
            Self::AwsNomad => "Nomad on AWS",
            Self::AzureContainerApps => "Azure Container Apps",
            Self::AzureContainerAppsJob => "Azure Container Apps Job",
            Self::AzureContainerInstance => "Azure Container Instance",
            Self::AzureKubernetes => "Kubernetes on Azure",
            Self::AzureVM => "Azure VM",
            Self::AzureNomad => "Nomad on Azure",
            Self::GcpCloudRunGen1 => "Google Cloud Run (Gen1)",
            Self::GcpCloudRunGen2 => "Google Cloud Run (Gen2)",
            Self::GcpCloudRunJob => "Google Cloud Run (Job)",
            Self::GcpComputeEngine => "Google Compute Engine",
            Self::GcpKubernetes => "Kubernetes on Google Cloud",
            Self::GcpNomad => "Nomad on Google Cloud",
            Self::Kubernetes => "Kubernetes",
            Self::Nomad => "Nomad",
            Self::Qemu => "QEMU",
        }
    }

    /// Compute platform code.
    ///
    /// This corresponds to the `cloud.platform` attribute in OpenTelemetry
    /// semantic conventions where possible; Kubernetes on a cloud provider is
    /// taken to be its managed service. It may also be one of `kubernetes`,
    /// `nomad` or `qemu`.
    pub fn platform_code(&self) -> (r: &'static str)
        ensures
            r@ == self.code(),
    {
        match self {
            Self::AwsEc2 => "aws_ec2",
            Self::AwsEcs => "aws_ecs",
            Self::AwsLambda => "aws_lambda",
            Self::AwsKubernetes => "aws_eks",
            Self::AwsNomad => "nomad",
            Self::AzureContainerApps => "azure_container_apps",
            Self::AzureContainerAppsJob => "azure_container_apps",
            Self::AzureContainerInstance => "azure_container_instances",
            Self::AzureKubernetes => "azure_aks",
            Self::AzureVM => "azure_vm",
            Self::AzureNomad => "nomad",
            Self::GcpCloudRunGen1 => "gcp_cloud_run",
            Self::GcpCloudRunGen2 => "gcp_cloud_run",
            Self::GcpCloudRunJob => "gcp_cloud_run",
            Self::GcpComputeEngine => "gcp_compute_engine",
            Self::GcpKubernetes => "gcp_kubernetes_engine",
            Self::GcpNomad => "nomad",
            Self::Kubernetes => "kubernetes",
            Self::Nomad => "nomad",
            Self::Qemu => "qemu",
        }
    }

    /// The [`CloudProvider`] of this compute environment.
    pub fn cloud_provider(&self) -> (r: Option<CloudProvider>)
        ensures
            r == self.provider(),
    {
        match self {
            Self::AwsEc2
            | Self::AwsEcs
            | Self::AwsLambda
            | Self::AwsKubernetes
            | Self::AwsNomad => Some(CloudProvider::Aws),
            Self::AzureContainerApps
            | Self::AzureContainerAppsJob
            | Self::AzureContainerInstance
            | Self::AzureKubernetes
            | Self::AzureVM
            | Self::AzureNomad => Some(CloudProvider::Azure),
            Self::GcpCloudRunGen1
            | Self::GcpCloudRunGen2
            | Self::GcpCloudRunJob
            | Self::GcpComputeEngine
            | Self::GcpKubernetes
            | Self::GcpNomad => Some(CloudProvider::GoogleCloud),
            Self::Kubernetes | Self::Nomad | Self::Qemu => None,
        }
    }

    /// The same as [`ComputeEnvironment::as_str`], as an owned string.
    pub fn to_string(&self) -> (r: String)
        ensures
            r@ == self.name(),
    {
        String::from_str(self.as_str())
    }
}

/// A cursor over the catalog of compute environments, in declaration order.
pub struct ComputeEnvironmentIter {
    idx: usize,
}

impl ComputeEnvironmentIter {
    /// How many environments the cursor has passed.
    pub closed spec fn position(&self) -> nat {
        self.idx as nat
    }

    /// The environment at position `idx` of the catalog, if there is one.
    pub fn get(&self, idx: usize) -> (r: Option<ComputeEnvironment>)
        ensures
            r is Some <==> idx < ENVIRONMENT_COUNT,
            r matches Some(e) ==> e.index() == idx,
    {
        match idx {
            0usize => Some(ComputeEnvironment::AwsEc2),
            1usize => Some(ComputeEnvironment::AwsEcs),
            2usize => Some(ComputeEnvironment::AwsLambda),
            3usize => Some(ComputeEnvironment::AwsKubernetes),
            4usize => Some(ComputeEnvironment::AwsNomad),
            5usize => Some(ComputeEnvironment::AzureContainerApps),
            6usize => Some(ComputeEnvironment::AzureContainerAppsJob),
            7usize => Some(ComputeEnvironment::AzureContainerInstance),
            8usize => Some(ComputeEnvironment::AzureKubernetes),
            9usize => Some(ComputeEnvironment::AzureVM),
            10usize => Some(ComputeEnvironment::AzureNomad),
            11usize => Some(ComputeEnvironment::GcpCloudRunGen1),
            12usize => Some(ComputeEnvironment::GcpCloudRunGen2),
            13usize => Some(ComputeEnvironment::GcpCloudRunJob),
            14usize => Some(ComputeEnvironment::GcpComputeEngine),
            15usize => Some(ComputeEnvironment::GcpKubernetes),
            16usize => Some(ComputeEnvironment::GcpNomad),
            17usize => Some(ComputeEnvironment::Kubernetes),
            18usize => Some(ComputeEnvironment::Nomad),
            19usize => Some(ComputeEnvironment::Qemu),
            _ => None,
        }
    }

    /// The environment at the cursor, moving the cursor past it; `None` once
    /// the catalog is exhausted.
    pub fn next(&mut self) -> (r: Option<ComputeEnvironment>)
        ensures
            old(self).position() < ENVIRONMENT_COUNT ==> {
                &&& r matches Some(e) && e.index() == old(self).position()
                &&& final(self).position() == old(self).position() + 1
            },
            old(self).position() >= ENVIRONMENT_COUNT ==> {
                &&& r is None
                &&& final(self).position() == old(self).position()
            },
    {
        let ret = self.get(self.idx);
        if ret.is_some() {
            self.idx += 1;
        }
        ret
    }
}

/// Supported cloud providers that can be detected by this crate.
#[derive(Clone, Copy, Debug, PartialEq, Eq, Hash, Structural)]
pub enum CloudProvider {
    /// Amazon Web Services
    Aws,
    /// Microsoft Azure
    Azure,
    /// Google Cloud Platform
    GoogleCloud,
}

impl CloudProvider {
    /// Human-readable name.
    pub open spec fn name(self) -> Seq<char> {
        match self {
            CloudProvider::Aws => "AWS"@,
            CloudProvider::Azure => "Azure"@,
            CloudProvider::GoogleCloud => "Google Cloud"@,
        }
    }

    /// Provider code, after the `cloud.provider` attribute of the
    /// OpenTelemetry semantic conventions.
    pub open spec fn spec_code(self) -> Seq<char> {
        match self {
            CloudProvider::Aws => "aws"@,
            CloudProvider::Azure => "azure"@,
            CloudProvider::GoogleCloud => "gcp"@,
        }
    }

    /// Static string representation of the [`CloudProvider`].
    pub fn as_str(&self) -> (r: &'static str)
        ensures
            r@ == self.name(),
    {
        match self {
            Self::Aws => "AWS",
            Self::Azure => "Azure",
            Self::GoogleCloud => "Google Cloud",
        }
    }

    /// Cloud provider code.
    ///
    /// This corresponds to the `cloud.provider` attribute in OpenTelemetry
    /// semantic conventions.
    pub fn code(&self) -> (r: &'static str)
        ensures
            r@ == self.spec_code(),
    {
        match self {
            Self::Aws => "aws",
            Self::Azure => "azure",
            Self::GoogleCloud => "gcp",
        }
    }

    /// The same as [`CloudProvider::as_str`], as an owned string.
    pub fn to_string(&self) -> (r: String)
        ensures
            r@ == self.name(),
    {
        String::from_str(self.as_str())
    }
}

} // verus!
