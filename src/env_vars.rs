//! The environment variables that platforms are recognised by. Only their
//! presence is ever looked at, never their values.

use vstd::prelude::*;

verus! {

/// Amazon Elastic Container Service.
pub const AWS_ECS: [&'static str; 4] = [
    "AWS_EXECUTION_ENV",
    "ECS_AGENT_URI",
    "ECS_CONTAINER_METADATA_URI",
    "ECS_CONTAINER_METADATA_URI_V4",
];

/// AWS Lambda.
pub const AWS_LAMBDA: [&'static str; 20] = [
    "_AWS_XRAY_DAEMON_ADDRESS",
    "_AWS_XRAY_DAEMON_PORT",
    "_HANDLER",
    "AWS_ACCESS_KEY_ID",
    "AWS_DEFAULT_REGION",
    "AWS_EXECUTION_ENV",
    "AWS_LAMBDA_FUNCTION_MEMORY_SIZE",
    "AWS_LAMBDA_FUNCTION_NAME",
    "AWS_LAMBDA_FUNCTION_VERSION",
    "AWS_LAMBDA_INITIALIZATION_TYPE",
    "AWS_LAMBDA_LOG_GROUP_NAME",
    "AWS_LAMBDA_LOG_STREAM_NAME",
    "AWS_LAMBDA_RUNTIME_API",
    "AWS_REGION",
    "AWS_SECRET_ACCESS_KEY",
    "AWS_SESSION_TOKEN",
    "AWS_XRAY_CONTEXT_MISSING",
    "AWS_XRAY_DAEMON_ADDRESS",
    "LAMBDA_RUNTIME_DIR",
    "LAMBDA_TASK_ROOT",
];

/// Azure Container Apps.
pub const AZURE_CONTAINER_APPS: [&'static str; 14] = [
    "CONTAINER_APP_ENV_DNS_SUFFIX",
    "CONTAINER_APP_HOSTNAME",
    "CONTAINER_APP_NAME",
    "CONTAINER_APP_PORT",
    "CONTAINER_APP_REPLICA_NAME",
    "CONTAINER_APP_REVISION",
    "KUBERNETES_PORT",
    "KUBERNETES_PORT_443_TCP",
    "KUBERNETES_PORT_443_TCP_ADDR",
    "KUBERNETES_PORT_443_TCP_PORT",
    "KUBERNETES_PORT_443_TCP_PROTO",
    "KUBERNETES_SERVICE_HOST",
    "KUBERNETES_SERVICE_PORT",
    "KUBERNETES_SERVICE_PORT_HTTPS",
];

/// Azure Container Apps jobs.
pub const AZURE_CONTAINER_APPS_JOB: [&'static str; 11] = [
    "CONTAINER_APP_JOB_EXECUTION_NAME",
    "CONTAINER_APP_JOB_NAME",
    "CONTAINER_APP_REPLICA_NAME",
    "KUBERNETES_PORT",
    "KUBERNETES_PORT_443_TCP",
    "KUBERNETES_PORT_443_TCP_ADDR",
    "KUBERNETES_PORT_443_TCP_PORT",
    "KUBERNETES_PORT_443_TCP_PROTO",
    "KUBERNETES_SERVICE_HOST",
    "KUBERNETES_SERVICE_PORT",
    "KUBERNETES_SERVICE_PORT_HTTPS",
];

/// Azure Container Instances, as run on Service Fabric.
pub const AZURE_CONTAINER_INSTANCE: [&'static str; 7] = [
    "Fabric_ApplicationName",
    "Fabric_CodePackageName",
    "Fabric_Id",
    "Fabric_NetworkingMode",
    "Fabric_NodeIPOrFQDN",
    "Fabric_ServiceDnsName",
    "Fabric_ServiceName",
];

/// Google Cloud Run services.
pub const GCP_CLOUD_RUN_SERVICE: [&'static str; 5] = [
    "K_REVISION",
    "K_SERVICE",
    "PORT",
    "K_CONFIGURATION",
    "CLOUD_RUN_TIMEOUT_SECONDS",
];

/// Google Cloud Run jobs.
pub const GCP_CLOUD_RUN_JOB: [&'static str; 5] = [
    "CLOUD_RUN_EXECUTION",
    "CLOUD_RUN_JOB",
    "CLOUD_RUN_TASK_ATTEMPT",
    "CLOUD_RUN_TASK_COUNT",
    "CLOUD_RUN_TASK_INDEX",
];

/// No variable.
pub const EMPTY: [&'static str; 0] = [];

/// Kubernetes pods.
pub const KUBERNETES: [&'static str; 8] = [
    "KUBERNETES_PORT",
    "KUBERNETES_PORT_443_TCP",
    "KUBERNETES_PORT_443_TCP_ADDR",
    "KUBERNETES_PORT_443_TCP_PORT",
    "KUBERNETES_PORT_443_TCP_PROTO",
    "KUBERNETES_SERVICE_HOST",
    "KUBERNETES_SERVICE_PORT",
    "KUBERNETES_SERVICE_PORT_HTTPS",
];

/// HashiCorp Nomad allocations.
pub const NOMAD: [&'static str; 18] = [
    "NOMAD_ALLOC_DIR",
    "NOMAD_ALLOC_ID",
    "NOMAD_ALLOC_INDEX",
    "NOMAD_ALLOC_NAME",
    "NOMAD_CPU_CORES",
    "NOMAD_CPU_LIMIT",
    "NOMAD_DC",
    "NOMAD_GROUP_NAME",
    "NOMAD_JOB_ID",
    "NOMAD_JOB_NAME",
    "NOMAD_MEMORY_LIMIT",
    "NOMAD_NAMESPACE",
    "NOMAD_PARENT_CGROUP",
    "NOMAD_REGION",
    "NOMAD_SECRETS_DIR",
    "NOMAD_SHORT_ALLOC_ID",
    "NOMAD_TASK_DIR",
    "NOMAD_TASK_NAME",
];

} // verus!
