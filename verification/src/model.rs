//! The records exchanged with connectors, the classifier and the briefing
//! surface, held as plain values.

use vstd::prelude::*;

use crate::bearer::SecretBearer;
use crate::clock::UtcInstant;

verus! {

/// The kind of account that an authenticated invocation belongs to.
#[derive(Clone, Copy, Debug, PartialEq, Eq, Structural)]
pub enum AccountKind {
    Individual,
    OrganizationMember,
}

/// The provider a connector reads from.
#[derive(Clone, Copy, Debug, PartialEq, Eq, Structural)]
pub enum ConnectorKind {
    Linkedin,
    Gmail,
    Slack,
}

/// The lifecycle state of a connector consent.
#[derive(Clone, Copy, Debug, PartialEq, Eq, Structural)]
pub enum ConsentState {
    Granted,
    Revoked,
    Expired,
}

/// How the sender of a source item is classed.
#[derive(Clone, Copy, Debug, PartialEq, Eq, Structural)]
pub enum SenderClass {
    Vip,
    Known,
    Unknown,
}

/// The classifier's verdict on a candidate.
#[derive(Clone, Copy, Debug, PartialEq, Eq, Structural)]
pub enum UsefulnessDisposition {
    Useful,
    NotUseful,
    NeedsReview,
}

/// A reason the classifier gives for its verdict.
#[derive(Clone, Copy, Debug, PartialEq, Eq, Structural)]
pub enum UsefulnessReason {
    DirectReplyRequested,
    DueSoon,
    SecurityRisk,
    CustomerEscalation,
}

/// The kind of a briefing card.
#[derive(Clone, Copy, Debug, PartialEq, Eq, Structural)]
pub enum BriefingCardKind {
    UsefulMessage,
}

/// The priority of a briefing card.
#[derive(Clone, Copy, Debug, PartialEq, Eq, Structural)]
pub enum BriefingCardPriority {
    High,
    Normal,
    Low,
}

/// Who a chat handoff is addressed to.
#[derive(Clone, Copy, Debug, PartialEq, Eq, Structural)]
pub enum ChatAudience {
    CustomerSupport,
}

/// The identity that the shared-auth authority derived from a bearer.
#[derive(Clone, Debug, PartialEq, Eq)]
pub struct AuthenticatedInvocation {
    pub request_id: String,
    pub trace_id: String,
    pub tenant_id: String,
    pub subject_id: String,
    pub account_kind: AccountKind,
    pub issuer: String,
    pub audience: String,
    pub expires_at_unix: i64,
}

/// A user's consent for one connector.
#[derive(Clone, Debug, PartialEq, Eq)]
pub struct ConnectorConsent {
    pub consent_id: String,
    pub connector: ConnectorKind,
    pub state: ConsentState,
    pub scopes: Vec<String>,
    pub granted_at: Option<String>,
    /// RFC 3339 expiry; `None` means the consent does not expire.
    pub expires_at: Option<String>,
    pub source_account_ref: String,
}

/// Opaque metadata of one source item offered for classification.
#[derive(Clone, Debug, PartialEq, Eq)]
pub struct SourceItemCandidate {
    pub source_item_ref: String,
    pub connector: ConnectorKind,
    pub sender_class: SenderClass,
    pub received_at: String,
    pub thread_ref: String,
    pub encrypted_content_ref: String,
    pub content_sha256: String,
    pub has_direct_reply_request: bool,
    pub due_at: Option<String>,
}

/// The classifier's decision about one candidate. The score is carried as
/// the bit pattern of its `f64` value; the pipeline never reads it.
#[derive(Clone, Debug, PartialEq, Eq)]
pub struct UsefulnessDecision {
    pub decision_id: String,
    pub source_item_ref: String,
    pub disposition: UsefulnessDisposition,
    pub score_bits: u64,
    pub reasons: Vec<UsefulnessReason>,
    pub model_ref: String,
    pub policy_version: String,
    pub evaluated_at: String,
    pub content_sha256: String,
}

/// An item-specific link back into the provider.
#[derive(Clone, Debug, PartialEq, Eq)]
pub struct SafeDeepLink {
    pub link_id: String,
    pub connector: ConnectorKind,
    pub target_url: String,
    pub decision_id: String,
    pub source_item_ref: String,
    pub expires_at: String,
    pub requires_reauthentication: bool,
    pub feed_fallback_allowed: bool,
}

/// A redacted card shown in the briefing.
#[derive(Clone, Debug, PartialEq, Eq)]
pub struct BriefingCard {
    pub card_id: String,
    pub kind: BriefingCardKind,
    pub priority: BriefingCardPriority,
    pub title: String,
    pub summary: String,
    pub source_label: String,
    pub observed_at: String,
    pub action_by: Option<String>,
    pub deep_link: Option<SafeDeepLink>,
    pub usefulness: Option<UsefulnessDecision>,
    pub uncertainty_notice: Option<String>,
}

/// One ingestion request: the bearer, the consent it relies on, and the
/// candidate item.
#[derive(Clone, Debug)]
pub struct IngestRequest {
    pub bearer: SecretBearer,
    pub consent: ConnectorConsent,
    pub candidate: SourceItemCandidate,
}

/// What the classifier returned: its decision and, for useful items, a card.
#[derive(Clone, Debug, PartialEq, Eq)]
pub struct ClassifiedCandidate {
    pub decision: UsefulnessDecision,
    pub card: Option<BriefingCard>,
}

/// What became of a candidate.
#[derive(Clone, Copy, Debug, PartialEq, Eq, Structural)]
pub enum IngestDisposition {
    Published,
    Suppressed,
    NeedsReview,
}

/// An opaque escalation to customer support: it names the card, never the
/// source message.
#[derive(Clone, Debug, PartialEq, Eq)]
pub struct ChatHandoff {
    pub tenant_id: String,
    pub audience: ChatAudience,
    pub card_id: String,
    pub reason: String,
}

/// The result of processing one candidate.
#[derive(Clone, Debug, PartialEq, Eq)]
pub struct IngestOutcome {
    pub disposition: IngestDisposition,
    pub decision_id: String,
    pub publish_subject: Option<String>,
    pub card: Option<BriefingCard>,
    pub chat_handoff: Option<ChatHandoff>,
}

/// The rate-limit authority's answer.
#[derive(Clone, Debug, PartialEq, Eq)]
pub struct RateLimitGrant {
    pub allowed: bool,
    pub policy_version: String,
}

/// The allowlisted telemetry record: bounded metadata, no message or token.
#[derive(Clone, Debug, PartialEq, Eq)]
pub struct TelemetryEvent {
    pub event_name: &'static str,
    pub request_id: String,
    pub trace_id: String,
    pub account_kind: AccountKind,
    pub disposition: IngestDisposition,
}

/// The deployment's expectations of an invocation, and the current time.
#[derive(Clone, Copy, Debug)]
pub struct PipelinePolicy<'a> {
    pub expected_issuer: &'a str,
    pub expected_audience: &'a str,
    pub now: UtcInstant,
}

/// The service adapters a pipeline run talks to.
pub struct PipelinePorts<'a, A, R, C, T> {
    pub auth: &'a A,
    pub rate_limit: &'a R,
    pub classifier: &'a C,
    pub telemetry: &'a T,
}

} // verus!
