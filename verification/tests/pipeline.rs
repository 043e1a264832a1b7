use happy_wakey_lambdas::{
    AccountKind, AuthenticatedInvocation, BriefingCard, BriefingCardKind, BriefingCardPriority,
    CandidateRun, ChatAudience, ClassifiedCandidate, ConnectorConsent, ConnectorKind, ConsentState,
    IngestDisposition, IngestOutcome, IngestRequest, PipelineAction, PipelineError, PipelineEvent,
    PipelinePolicy, RateLimitGrant, SafeDeepLink, SecretBearer, SenderClass, SourceItemCandidate,
    TelemetryEvent, UsefulnessDecision, UsefulnessDisposition, UsefulnessReason, UtcInstant,
};
use time::format_description::well_known::Rfc3339;
use time::OffsetDateTime;

const REQUIRED: [&str; 8] = [
    "request-context",
    "trace-context",
    "payload-limit",
    "rate-limit",
    "auth",
    "sync-observer",
    "tls-policy",
    "idempotency",
];

fn now() -> UtcInstant {
    let t = OffsetDateTime::parse("2026-09-05T12:00:00Z", &Rfc3339).expect("time");
    UtcInstant { unix_seconds: t.unix_timestamp(), nanosecond: t.nanosecond() }
}

fn request() -> IngestRequest {
    IngestRequest {
        bearer: SecretBearer::new("opaque-token".into()).expect("bearer"),
        consent: ConnectorConsent {
            consent_id: "consent-1".into(),
            connector: ConnectorKind::Linkedin,
            state: ConsentState::Granted,
            scopes: vec!["messages.read".into()],
            granted_at: Some("2026-09-01T00:00:00Z".into()),
            expires_at: Some("2026-09-06T00:00:00Z".into()),
            source_account_ref: "account-1".into(),
        },
        candidate: SourceItemCandidate {
            source_item_ref: "source-1".into(),
            connector: ConnectorKind::Linkedin,
            sender_class: SenderClass::Vip,
            received_at: "2026-09-05T11:00:00Z".into(),
            thread_ref: "thread-1".into(),
            encrypted_content_ref: "vault/item-1".into(),
            content_sha256: "a".repeat(64),
            has_direct_reply_request: true,
            due_at: Some("2026-09-05T15:00:00Z".into()),
        },
    }
}

fn policy() -> PipelinePolicy<'static> {
    PipelinePolicy {
        expected_issuer: "https://auth.hawky.pro",
        expected_audience: "hawky-api",
        now: now(),
    }
}

fn verified(bearer: &str) -> AuthenticatedInvocation {
    assert_eq!(bearer, "opaque-token");
    AuthenticatedInvocation {
        request_id: "request-1".into(),
        trace_id: "0123456789abcdef0123456789abcdef".into(),
        tenant_id: "tenant-1".into(),
        subject_id: "subject-1".into(),
        account_kind: AccountKind::OrganizationMember,
        issuer: "https://auth.hawky.pro".into(),
        audience: "hawky-api".into(),
        expires_at_unix: now().unix_seconds + 60,
    }
}

fn classify(
    candidate: &SourceItemCandidate,
    disposition: UsefulnessDisposition,
    reasons: Vec<UsefulnessReason>,
) -> ClassifiedCandidate {
    let decision = UsefulnessDecision {
        decision_id: "decision-1".into(),
        source_item_ref: candidate.source_item_ref.clone(),
        disposition,
        score_bits: 0.96f64.to_bits(),
        reasons,
        model_ref: "classifier-1".into(),
        policy_version: "usefulness-v1".into(),
        evaluated_at: "2026-09-05T11:01:00Z".into(),
        content_sha256: candidate.content_sha256.clone(),
    };
    let card = if disposition == UsefulnessDisposition::Useful {
        Some(BriefingCard {
            card_id: "card-1".into(),
            kind: BriefingCardKind::UsefulMessage,
            priority: BriefingCardPriority::High,
            title: "Customer response needed".into(),
            summary: "A redacted, actionable summary".into(),
            source_label: "LinkedIn message".into(),
            observed_at: "2026-09-05T11:00:00Z".into(),
            action_by: candidate.due_at.clone(),
            deep_link: Some(SafeDeepLink {
                link_id: "link-1".into(),
                connector: ConnectorKind::Linkedin,
                target_url: "https://www.linkedin.com/messaging/thread/example".into(),
                decision_id: decision.decision_id.clone(),
                source_item_ref: candidate.source_item_ref.clone(),
                expires_at: "2026-09-05T14:00:00Z".into(),
                requires_reauthentication: true,
                feed_fallback_allowed: false,
            }),
            usefulness: Some(decision.clone()),
            uncertainty_notice: None,
        })
    } else {
        None
    };
    ClassifiedCandidate { decision, card }
}

/// How the stand-in services answer.
struct Services {
    capabilities: Vec<String>,
    identity: bool,
    grant: Option<RateLimitGrant>,
    disposition: UsefulnessDisposition,
    reasons: Vec<UsefulnessReason>,
    link_safe: bool,
    telemetry_ok: bool,
}

impl Services {
    fn healthy() -> Self {
        Services {
            capabilities: REQUIRED.iter().map(|c| c.to_string()).collect(),
            identity: true,
            grant: Some(RateLimitGrant { allowed: true, policy_version: "rate-v1".into() }),
            disposition: UsefulnessDisposition::Useful,
            reasons: vec![UsefulnessReason::CustomerEscalation],
            link_safe: true,
            telemetry_ok: true,
        }
    }
}

/// Drive one run against the stand-in services, as an adapter does.
fn drive(
    request: &IngestRequest,
    policy: PipelinePolicy<'_>,
    services: &Services,
    telemetry: &mut Vec<TelemetryEvent>,
) -> Result<IngestOutcome, PipelineError> {
    let mut run = CandidateRun::new(request, policy);
    loop {
        let event = match run.next_action() {
            PipelineAction::ReportCapabilities => {
                PipelineEvent::CapabilitiesReported(services.capabilities.clone())
            }
            PipelineAction::VerifyBearer(bearer) => {
                PipelineEvent::IdentityVerified(services.identity.then(|| verified(bearer)))
            }
            PipelineAction::CheckRateLimit(_) => PipelineEvent::GrantReceived(services.grant.clone()),
            PipelineAction::Classify(_, candidate) => PipelineEvent::Classified(Some(classify(
                candidate,
                services.disposition,
                services.reasons.clone(),
            ))),
            PipelineAction::ReviewDeepLink(card, at) => {
                assert!(card.deep_link.is_some());
                assert_eq!(at, now());
                PipelineEvent::DeepLinkReviewed(services.link_safe)
            }
            PipelineAction::RecordTelemetry(event) => {
                if services.telemetry_ok {
                    telemetry.push(event.clone());
                }
                PipelineEvent::TelemetryRecorded(services.telemetry_ok)
            }
            PipelineAction::Done(_) => break,
        };
        run = run.advance(event);
    }
    run.into_result().expect("finished")
}

#[test]
fn publishes_useful_item_and_prepares_bounded_chat_handoff() {
    let mut telemetry = Vec::new();
    let outcome =
        drive(&request(), policy(), &Services::healthy(), &mut telemetry).expect("published");
    assert_eq!(outcome.disposition, IngestDisposition::Published);
    assert_eq!(
        outcome.publish_subject.as_deref(),
        Some("happywakey.briefing.tenant-1.candidate")
    );
    assert_eq!(outcome.chat_handoff.expect("handoff").reason, "customer_escalation");
    assert_eq!(telemetry.len(), 1);
}

#[test]
fn rate_limit_and_revoked_consent_fail_closed() {
    let denied = Services {
        grant: Some(RateLimitGrant { allowed: false, policy_version: "rate-v1".into() }),
        ..Services::healthy()
    };
    assert_eq!(
        drive(&request(), policy(), &denied, &mut Vec::new()),
        Err(PipelineError::RateLimited)
    );
    let mut revoked = request();
    revoked.consent.state = ConsentState::Revoked;
    assert_eq!(
        drive(&revoked, policy(), &Services::healthy(), &mut Vec::new()),
        Err(PipelineError::ConsentDenied)
    );
}

#[test]
fn successful_run_publishes_only_tenant_scoped_metadata() {
    let mut telemetry = Vec::new();
    let outcome = drive(&request(), policy(), &Services::healthy(), &mut telemetry).unwrap();
    assert_eq!(outcome.decision_id, "decision-1");
    let card = outcome.card.expect("card");
    let handoff = outcome.chat_handoff.expect("handoff");
    assert_eq!(handoff.card_id, card.card_id);
    assert_eq!(handoff.tenant_id, "tenant-1");
    assert_eq!(handoff.audience, ChatAudience::CustomerSupport);
    let event = &telemetry[0];
    assert_eq!(event.event_name, "happy_wakey_candidate_processed");
    assert_eq!(event.request_id, "request-1");
    assert_eq!(event.trace_id, "0123456789abcdef0123456789abcdef");
    assert_eq!(event.account_kind, AccountKind::OrganizationMember);
    assert_eq!(event.disposition, IngestDisposition::Published);
}

#[test]
fn security_risk_outranks_customer_escalation() {
    let services = Services {
        reasons: vec![UsefulnessReason::CustomerEscalation, UsefulnessReason::SecurityRisk],
        ..Services::healthy()
    };
    let outcome = drive(&request(), policy(), &services, &mut Vec::new()).unwrap();
    assert_eq!(outcome.chat_handoff.unwrap().reason, "security_risk");
}

#[test]
fn useful_item_without_support_reason_has_no_handoff() {
    let services = Services { reasons: vec![UsefulnessReason::DueSoon], ..Services::healthy() };
    let outcome = drive(&request(), policy(), &services, &mut Vec::new()).unwrap();
    assert!(outcome.card.is_some());
    assert!(outcome.chat_handoff.is_none());
}

#[test]
fn suppressed_and_review_items_carry_no_card() {
    for (verdict, expected) in [
        (UsefulnessDisposition::NotUseful, IngestDisposition::Suppressed),
        (UsefulnessDisposition::NeedsReview, IngestDisposition::NeedsReview),
    ] {
        let services = Services {
            disposition: verdict,
            reasons: vec![UsefulnessReason::SecurityRisk],
            ..Services::healthy()
        };
        let mut telemetry = Vec::new();
        let outcome = drive(&request(), policy(), &services, &mut telemetry).unwrap();
        assert_eq!(outcome.disposition, expected);
        assert!(outcome.card.is_none());
        assert!(outcome.publish_subject.is_none());
        assert!(outcome.chat_handoff.is_none());
        assert_eq!(telemetry[0].disposition, expected);
    }
}

#[test]
fn every_service_failure_fails_closed() {
    let incomplete = Services {
        capabilities: REQUIRED[..7].iter().map(|c| c.to_string()).collect(),
        ..Services::healthy()
    };
    assert_eq!(
        drive(&request(), policy(), &incomplete, &mut Vec::new()),
        Err(PipelineError::MiddlewareContract)
    );
    let unverified = Services { identity: false, ..Services::healthy() };
    assert_eq!(
        drive(&request(), policy(), &unverified, &mut Vec::new()),
        Err(PipelineError::AuthenticationUnavailable)
    );
    let undecided = Services { grant: None, ..Services::healthy() };
    assert_eq!(
        drive(&request(), policy(), &undecided, &mut Vec::new()),
        Err(PipelineError::RateLimited)
    );
    let unversioned = Services {
        grant: Some(RateLimitGrant { allowed: true, policy_version: String::new() }),
        ..Services::healthy()
    };
    assert_eq!(
        drive(&request(), policy(), &unversioned, &mut Vec::new()),
        Err(PipelineError::RateLimited)
    );
    let unsafe_link = Services { link_safe: false, ..Services::healthy() };
    assert_eq!(
        drive(&request(), policy(), &unsafe_link, &mut Vec::new()),
        Err(PipelineError::UnsafeDeepLink)
    );
    let mut telemetry = Vec::new();
    let lost = Services { telemetry_ok: false, ..Services::healthy() };
    assert_eq!(
        drive(&request(), policy(), &lost, &mut telemetry),
        Err(PipelineError::TelemetryUnavailable)
    );
    assert!(telemetry.is_empty());
}

#[test]
fn unavailable_classifier_fails_closed() {
    let request = request();
    let mut run = CandidateRun::new(&request, policy());
    run = run.advance(PipelineEvent::CapabilitiesReported(
        REQUIRED.iter().map(|c| c.to_string()).collect(),
    ));
    let bearer = match run.next_action() {
        PipelineAction::VerifyBearer(b) => b.to_string(),
        _ => panic!("expected bearer verification"),
    };
    run = run.advance(PipelineEvent::IdentityVerified(Some(verified(&bearer))));
    run = run.advance(PipelineEvent::GrantReceived(Some(RateLimitGrant {
        allowed: true,
        policy_version: "rate-v1".into(),
    })));
    assert!(matches!(run.next_action(), PipelineAction::Classify(..)));
    run = run.advance(PipelineEvent::Classified(None));
    assert!(run.is_finished());
    assert_eq!(run.into_result(), Some(Err(PipelineError::ClassificationUnavailable)));
}

#[test]
fn classifier_output_for_another_item_is_rejected() {
    let request = request();
    let mut run = CandidateRun::new(&request, policy());
    run = run.advance(PipelineEvent::CapabilitiesReported(
        REQUIRED.iter().map(|c| c.to_string()).collect(),
    ));
    run = run.advance(PipelineEvent::IdentityVerified(Some(verified("opaque-token"))));
    run = run.advance(PipelineEvent::GrantReceived(Some(RateLimitGrant {
        allowed: true,
        policy_version: "rate-v1".into(),
    })));
    let mut other = request.candidate.clone();
    other.source_item_ref = "source-2".into();
    let classified = classify(&other, UsefulnessDisposition::Useful, vec![]);
    run = run.advance(PipelineEvent::Classified(Some(classified)));
    assert_eq!(run.into_result(), Some(Err(PipelineError::InvalidClassification)));
}

#[test]
fn claims_outside_the_policy_are_unauthorized() {
    let request = request();
    let mut run = CandidateRun::new(&request, policy());
    run = run.advance(PipelineEvent::CapabilitiesReported(
        REQUIRED.iter().map(|c| c.to_string()).collect(),
    ));
    let mut expired = verified("opaque-token");
    expired.expires_at_unix = now().unix_seconds;
    run = run.advance(PipelineEvent::IdentityVerified(Some(expired)));
    assert_eq!(run.into_result(), Some(Err(PipelineError::Unauthorized)));
}

#[test]
fn answers_out_of_turn_leave_the_run_unchanged() {
    let request = request();
    let mut run = CandidateRun::new(&request, policy());
    run = run.advance(PipelineEvent::TelemetryRecorded(true));
    assert!(matches!(run.next_action(), PipelineAction::ReportCapabilities));
    run = run.advance(PipelineEvent::CapabilitiesReported(
        REQUIRED.iter().map(|c| c.to_string()).collect(),
    ));
    run = run.advance(PipelineEvent::DeepLinkReviewed(true));
    assert!(matches!(run.next_action(), PipelineAction::VerifyBearer("opaque-token")));
    run = run.advance(PipelineEvent::IdentityVerified(None));
    run = run.advance(PipelineEvent::IdentityVerified(Some(verified("opaque-token"))));
    assert_eq!(run.into_result(), Some(Err(PipelineError::AuthenticationUnavailable)));
}
