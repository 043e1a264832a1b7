//! The pipeline's error kinds.

use vstd::prelude::*;

verus! {

/// Why a candidate was refused. Every stage of the pipeline fails closed with
/// exactly one of these.
#[derive(Clone, Copy, Debug, PartialEq, Eq, Structural)]
pub enum PipelineError {
    InvalidCredential,
    AuthenticationUnavailable,
    Unauthorized,
    ConsentDenied,
    RateLimited,
    ClassificationUnavailable,
    InvalidClassification,
    UnsafeDeepLink,
    MiddlewareContract,
    TelemetryUnavailable,
    SyncMerge,
}

/// The human-readable description of each error kind.
pub open spec fn pipeline_error_text(e: PipelineError) -> Seq<char> {
    match e {
        PipelineError::InvalidCredential => "credential is invalid"@,
        PipelineError::AuthenticationUnavailable => "shared auth could not verify the invocation"@,
        PipelineError::Unauthorized => "shared auth claims do not satisfy the lambda policy"@,
        PipelineError::ConsentDenied => "connector consent is absent, expired, revoked, or inconsistent"@,
        PipelineError::RateLimited => "rate-limit authority could not grant the operation"@,
        PipelineError::ClassificationUnavailable => "usefulness classification failed closed"@,
        PipelineError::InvalidClassification => "classifier output does not match the source candidate"@,
        PipelineError::UnsafeDeepLink => "the proposed social action is not a safe item-specific deep link"@,
        PipelineError::MiddlewareContract => "middleware contract is incomplete"@,
        PipelineError::TelemetryUnavailable => "telemetry sink could not record the bounded outcome"@,
        PipelineError::SyncMerge => "preference merge failed"@,
    }
}

impl PipelineError {
    /// The description of this error, as shown to operators.
    pub fn message(&self) -> (text: &'static str)
        ensures
            text@ == pipeline_error_text(*self),
    {
        match self {
            PipelineError::InvalidCredential => "credential is invalid",
            PipelineError::AuthenticationUnavailable => "shared auth could not verify the invocation",
            PipelineError::Unauthorized => "shared auth claims do not satisfy the lambda policy",
            PipelineError::ConsentDenied => "connector consent is absent, expired, revoked, or inconsistent",
            PipelineError::RateLimited => "rate-limit authority could not grant the operation",
            PipelineError::ClassificationUnavailable => "usefulness classification failed closed",
            PipelineError::InvalidClassification => "classifier output does not match the source candidate",
            PipelineError::UnsafeDeepLink => "the proposed social action is not a safe item-specific deep link",
            PipelineError::MiddlewareContract => "middleware contract is incomplete",
            PipelineError::TelemetryUnavailable => "telemetry sink could not record the bounded outcome",
            PipelineError::SyncMerge => "preference merge failed",
        }
    }
}

} // verus!
