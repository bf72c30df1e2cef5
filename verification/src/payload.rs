//! The event that a deployment pipeline hands to a function it invokes as one of its actions.

use vstd::prelude::*;

verus! {

/// The whole event: one job.
#[derive(Debug, Clone, PartialEq, Eq)]
pub struct PipelineLambdaPayload {
    pub job: Job,
}

/// The job that the pipeline wants done.
#[derive(Debug, Clone, PartialEq, Eq)]
pub struct Job {
    pub id: String,
    pub account_id: String,
    pub data: JobData,
}

/// What the job works on and with.
#[derive(Debug, Clone, PartialEq, Eq)]
pub struct JobData {
    pub action_configuration: ActionConfiguration,
    pub input_artifacts: Vec<Artifact>,
    pub output_artifacts: Vec<Artifact>,
    pub artifact_credentials: ArtifactCredentials,
    pub encryption_key: EncryptionKey,
}

/// How the action is set up in the pipeline.
#[derive(Debug, Clone, PartialEq, Eq)]
pub struct ActionConfiguration {
    pub configuration: Configuration,
}

/// The function that is invoked, and the parameters its author gave it.
#[derive(Debug, Clone, PartialEq, Eq)]
pub struct Configuration {
    pub function_name: String,
    pub user_parameters: String,
}

/// Something a stage of the pipeline has produced, or is to produce.
#[derive(Debug, Clone, PartialEq, Eq)]
pub struct Artifact {
    pub name: String,
    pub revision: Option<String>,
    pub location: ArtifactLocation,
}

/// Where an artifact is kept.
#[derive(Debug, Clone, PartialEq, Eq)]
pub struct ArtifactLocation {
    pub location_type: String,
    pub s3_location: Option<S3Location>,
}

/// An object in a bucket.
#[derive(Debug, Clone, PartialEq, Eq)]
pub struct S3Location {
    pub bucket_name: String,
    pub object_key: String,
}

/// Temporary credentials for reading and writing the artifacts.
#[derive(Debug, Clone, PartialEq, Eq)]
pub struct ArtifactCredentials {
    pub access_key_id: String,
    pub secret_access_key: String,
    pub session_token: String,
    pub expiration_time: i64,
}

/// The key the artifacts are encrypted with.
#[derive(Debug, Clone, PartialEq, Eq)]
pub struct EncryptionKey {
    pub id: String,
    pub key_type: String,
}

} // verus!
