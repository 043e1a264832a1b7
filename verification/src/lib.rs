//! Consent-scoped ingestion and briefing assembly for Happy Wakey.
//!
//! Cloud entry points adapt an authenticated invocation into these types. The
//! core never scrapes providers and never emits raw private content: it
//! checks the shared-auth claims, the connector consent, the rate-limit
//! grant, the classifier's output and the deep-link policy, fails closed on
//! every refusal, and only then prepares a tenant-scoped outcome.
//!
//! The HTTP adapter's framing, routing and response writing live here too.

pub mod bearer;
pub mod checks;
pub mod clock;
pub mod error;
pub mod json;
pub mod model;
pub mod outcome;
pub mod pipeline;
pub mod preferences;
pub mod request;
pub mod response;
pub mod text;

pub use bearer::{SecretBearer, MAX_BEARER_BYTES};
pub use checks::{
    consent_decision, deep_link_check_needed, middleware_contract_holds, safe_scope, support_reason,
    validate_classification, validate_consent, validate_grant, validate_invocation,
};
pub use clock::UtcInstant;
pub use error::PipelineError;
pub use json::json_string;
pub use model::{
    AccountKind, AuthenticatedInvocation, BriefingCard, BriefingCardKind, BriefingCardPriority,
    ChatAudience, ChatHandoff, ClassifiedCandidate, ConnectorConsent, ConnectorKind, ConsentState,
    IngestDisposition, IngestOutcome, IngestRequest, PipelinePolicy, PipelinePorts, RateLimitGrant,
    SafeDeepLink, SenderClass, SourceItemCandidate, TelemetryEvent, UsefulnessDecision,
    UsefulnessDisposition, UsefulnessReason,
};
pub use outcome::{assemble_outcome, publish_subject};
pub use pipeline::{CandidateRun, PipelineAction, PipelineEvent, RunStage};
pub use preferences::decode_merged_preferences;
pub use request::{
    parse_head, scan_head, HttpRequest, ReadProgress, RequestError, RequestHead, RequestReader,
    MAX_HEADER_BYTES, MAX_REQUEST_BYTES,
};
pub use response::{http_response, invoke_envelope, route_request};
