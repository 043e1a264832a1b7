//! One candidate's way through the pipeline, as a state machine.
//!
//! The services the pipeline consults (the middleware, the shared-auth
//! authority, the rate-limit authority, the classifier, the deep-link policy
//! and the telemetry sink) are reached by the caller. A run says which one to
//! consult next (`next_action`) and takes its answer (`advance`). Every
//! refusal or missing answer ends the run with an error: the run fails closed.

use vstd::prelude::*;

use crate::checks::{
    classification_consistent, consent_admissible, deep_link_check_needed, grant_admissible,
    invocation_admissible, middleware_contract_holds, middleware_contract_met,
    needs_deep_link_check, scope_is_safe, texts_view, validate_classification, validate_consent,
    validate_grant, validate_invocation,
};
use crate::clock::UtcInstant;
use crate::error::PipelineError;
use crate::model::{
    AuthenticatedInvocation, BriefingCard, ChatAudience, ClassifiedCandidate, IngestDisposition,
    IngestOutcome, IngestRequest, PipelinePolicy, RateLimitGrant, SourceItemCandidate,
    TelemetryEvent,
};
use crate::outcome::{
    assemble_outcome, outcome_assembled, publish_subject_for, telemetry_recorded_for,
};
use crate::text::utf8_len;

verus! {

/// Where a run stands.
pub enum RunStage {
    /// Waiting for the middleware's capability list.
    AwaitingCapabilities,
    /// Waiting for the shared-auth authority to verify the bearer.
    AwaitingIdentity,
    /// Waiting for the rate-limit authority.
    AwaitingGrant { invocation: AuthenticatedInvocation },
    /// Waiting for the classifier.
    AwaitingClassification { invocation: AuthenticatedInvocation },
    /// Waiting for the deep-link policy's verdict on the card.
    AwaitingDeepLink { invocation: AuthenticatedInvocation, classified: ClassifiedCandidate },
    /// Waiting for the telemetry sink to accept the record.
    AwaitingTelemetry { outcome: IngestOutcome, event: TelemetryEvent },
    /// The run is over.
    Finished { result: Result<IngestOutcome, PipelineError> },
}

/// An answer from one of the services.
pub enum PipelineEvent {
    /// The capabilities that the linked middleware reports.
    CapabilitiesReported(Vec<String>),
    /// The verified identity, or `None` when the authority could not verify.
    IdentityVerified(Option<AuthenticatedInvocation>),
    /// The rate-limit grant, or `None` when the authority could not decide.
    GrantReceived(Option<RateLimitGrant>),
    /// The classification, or `None` when classification was unavailable.
    Classified(Option<ClassifiedCandidate>),
    /// Whether the deep-link policy authorized the card's link.
    DeepLinkReviewed(bool),
    /// Whether the telemetry sink durably accepted the record.
    TelemetryRecorded(bool),
}

/// What the caller has to do next.
pub enum PipelineAction<'r> {
    /// Report the middleware's capabilities.
    ReportCapabilities,
    /// Verify this bearer with the shared-auth authority.
    VerifyBearer(&'r str),
    /// Ask the rate-limit authority for a grant for this invocation.
    CheckRateLimit(&'r AuthenticatedInvocation),
    /// Classify the candidate for this invocation.
    Classify(&'r AuthenticatedInvocation, &'r SourceItemCandidate),
    /// Ask the deep-link policy whether this card's link is safe at this time.
    ReviewDeepLink(&'r BriefingCard, UtcInstant),
    /// Record this event with the telemetry sink.
    RecordTelemetry(&'r TelemetryEvent),
    /// Nothing: the run is over with this result.
    Done(&'r Result<IngestOutcome, PipelineError>),
}

/// What the services have answered so far in a run.
pub struct RunEvidence {
    pub middleware_ok: bool,
    pub invocation: Option<AuthenticatedInvocation>,
    pub grant: Option<RateLimitGrant>,
    pub classified: Option<ClassifiedCandidate>,
    pub deep_link_authorized: bool,
    pub telemetry_recorded: bool,
}

/// Processing of one request under one policy.
pub struct CandidateRun<'a> {
    request: &'a IngestRequest,
    policy: PipelinePolicy<'a>,
    stage: RunStage,
    evidence: Ghost<RunEvidence>,
}

/// The identity was verified and admitted, and the consent holds.
pub open spec fn identity_admitted(
    evidence: RunEvidence,
    request: IngestRequest,
    policy: PipelinePolicy,
) -> bool {
    &&& evidence.middleware_ok
    &&& evidence.invocation matches Some(invocation) && invocation_admissible(
        invocation,
        policy.expected_issuer@,
        policy.expected_audience@,
        policy.now,
    )
    &&& consent_admissible(request.consent, request.candidate, policy.now)
}

/// Every gate before the telemetry record was passed.
pub open spec fn gates_passed(
    evidence: RunEvidence,
    request: IngestRequest,
    policy: PipelinePolicy,
) -> bool {
    &&& identity_admitted(evidence, request, policy)
    &&& evidence.grant matches Some(grant) && grant_admissible(grant)
    &&& evidence.classified matches Some(classified) && classification_consistent(
        classified,
        request.candidate,
    ) && (needs_deep_link_check(classified) ==> evidence.deep_link_authorized)
}

/// What the evidence says the outcome must be.
pub open spec fn outcome_follows(evidence: RunEvidence, outcome: IngestOutcome) -> bool {
    outcome_assembled(outcome, evidence.invocation.unwrap(), evidence.classified.unwrap())
}

/// How a stage follows from the answers collected.
pub open spec fn stage_consistent(
    stage: RunStage,
    evidence: RunEvidence,
    request: IngestRequest,
    policy: PipelinePolicy,
) -> bool {
    match stage {
        RunStage::AwaitingCapabilities => true,
        RunStage::AwaitingIdentity => evidence.middleware_ok,
        RunStage::AwaitingGrant { invocation } => {
            &&& identity_admitted(evidence, request, policy)
            &&& evidence.invocation == Some(invocation)
        },
        RunStage::AwaitingClassification { invocation } => {
            &&& identity_admitted(evidence, request, policy)
            &&& evidence.invocation == Some(invocation)
            &&& evidence.grant matches Some(grant) && grant_admissible(grant)
        },
        RunStage::AwaitingDeepLink { invocation, classified } => {
            &&& identity_admitted(evidence, request, policy)
            &&& evidence.invocation == Some(invocation)
            &&& evidence.grant matches Some(grant) && grant_admissible(grant)
            &&& evidence.classified == Some(classified)
            &&& classification_consistent(classified, request.candidate)
            &&& needs_deep_link_check(classified)
        },
        RunStage::AwaitingTelemetry { outcome, event } => {
            &&& gates_passed(evidence, request, policy)
            &&& outcome_follows(evidence, outcome)
            &&& telemetry_recorded_for(event, evidence.invocation.unwrap(), outcome.disposition)
        },
        RunStage::Finished { result } => match result {
            Ok(outcome) => {
                &&& gates_passed(evidence, request, policy)
                &&& outcome_follows(evidence, outcome)
                &&& evidence.telemetry_recorded
            },
            Err(_) => true,
        },
    }
}

/// How one answer moves a run on. An answer that is not the one the run is
/// waiting for leaves the run as it was.
pub open spec fn advanced(
    stage: RunStage,
    evidence: RunEvidence,
    event: PipelineEvent,
    next_stage: RunStage,
    next_evidence: RunEvidence,
    request: IngestRequest,
    policy: PipelinePolicy,
) -> bool {
    match (stage, event) {
        (RunStage::AwaitingCapabilities, PipelineEvent::CapabilitiesReported(capabilities)) => {
            if middleware_contract_met(texts_view(capabilities@)) {
                &&& next_stage is AwaitingIdentity
                &&& next_evidence == (RunEvidence { middleware_ok: true, ..evidence })
            } else {
                &&& next_stage == (RunStage::Finished {
                    result: Err(PipelineError::MiddlewareContract),
                })
                &&& next_evidence == evidence
            }
        },
        (RunStage::AwaitingIdentity, PipelineEvent::IdentityVerified(answer)) => match answer {
            None => {
                &&& next_stage == (RunStage::Finished {
                    result: Err(PipelineError::AuthenticationUnavailable),
                })
                &&& next_evidence == evidence
            },
            Some(invocation) => {
                &&& next_evidence == (RunEvidence { invocation: Some(invocation), ..evidence })
                &&& if !invocation_admissible(
                    invocation,
                    policy.expected_issuer@,
                    policy.expected_audience@,
                    policy.now,
                ) {
                    next_stage == (RunStage::Finished { result: Err(PipelineError::Unauthorized) })
                } else if !consent_admissible(request.consent, request.candidate, policy.now) {
                    next_stage == (RunStage::Finished { result: Err(PipelineError::ConsentDenied) })
                } else {
                    next_stage == (RunStage::AwaitingGrant { invocation })
                }
            },
        },
        (RunStage::AwaitingGrant { invocation }, PipelineEvent::GrantReceived(answer)) => match answer {
            None => {
                &&& next_stage == (RunStage::Finished { result: Err(PipelineError::RateLimited) })
                &&& next_evidence == evidence
            },
            Some(grant) => {
                &&& next_evidence == (RunEvidence { grant: Some(grant), ..evidence })
                &&& if grant_admissible(grant) {
                    next_stage == (RunStage::AwaitingClassification { invocation })
                } else {
                    next_stage == (RunStage::Finished { result: Err(PipelineError::RateLimited) })
                }
            },
        },
        (
            RunStage::AwaitingClassification { invocation },
            PipelineEvent::Classified(answer),
        ) => match answer {
            None => {
                &&& next_stage == (RunStage::Finished {
                    result: Err(PipelineError::ClassificationUnavailable),
                })
                &&& next_evidence == evidence
            },
            Some(classified) => {
                &&& next_evidence == (RunEvidence { classified: Some(classified), ..evidence })
                &&& if !classification_consistent(classified, request.candidate) {
                    next_stage == (RunStage::Finished {
                        result: Err(PipelineError::InvalidClassification),
                    })
                } else if needs_deep_link_check(classified) {
                    next_stage == (RunStage::AwaitingDeepLink { invocation, classified })
                } else {
                    next_stage matches RunStage::AwaitingTelemetry { outcome, event }
                        && outcome_assembled(outcome, invocation, classified)
                        && telemetry_recorded_for(event, invocation, outcome.disposition)
                }
            },
        },
        (
            RunStage::AwaitingDeepLink { invocation, classified },
            PipelineEvent::DeepLinkReviewed(authorized),
        ) => {
            if authorized {
                &&& next_evidence == (RunEvidence { deep_link_authorized: true, ..evidence })
                &&& next_stage matches RunStage::AwaitingTelemetry { outcome, event }
                    && outcome_assembled(outcome, invocation, classified)
                    && telemetry_recorded_for(event, invocation, outcome.disposition)
            } else {
                &&& next_evidence == evidence
                &&& next_stage == (RunStage::Finished { result: Err(PipelineError::UnsafeDeepLink) })
            }
        },
        (
            RunStage::AwaitingTelemetry { outcome, event },
            PipelineEvent::TelemetryRecorded(accepted),
        ) => {
            if accepted {
                &&& next_evidence == (RunEvidence { telemetry_recorded: true, ..evidence })
                &&& next_stage == (RunStage::Finished { result: Ok(outcome) })
            } else {
                &&& next_evidence == evidence
                &&& next_stage == (RunStage::Finished {
                    result: Err(PipelineError::TelemetryUnavailable),
                })
            }
        },
        _ => next_stage == stage && next_evidence == evidence,
    }
}

impl<'a> CandidateRun<'a> {
    /// The request being processed.
    pub closed spec fn request(self) -> IngestRequest {
        *self.request
    }

    /// The policy the request is held to.
    pub closed spec fn policy(self) -> PipelinePolicy<'a> {
        self.policy
    }

    /// Where the run stands.
    pub closed spec fn stage(self) -> RunStage {
        self.stage
    }

    /// The answers collected so far.
    pub closed spec fn evidence(self) -> RunEvidence {
        self.evidence@
    }

    /// The run's internal consistency.
    pub open spec fn wf(self) -> bool {
        stage_consistent(self.stage(), self.evidence(), self.request(), self.policy())
    }

    /// Start processing `request` under `policy`.
    pub fn new(request: &'a IngestRequest, policy: PipelinePolicy<'a>) -> (run: Self)
        ensures
            run.wf(),
            run.request() == *request,
            run.policy() == policy,
            run.stage() is AwaitingCapabilities,
            !run.evidence().middleware_ok,
            run.evidence().invocation is None,
            run.evidence().grant is None,
            run.evidence().classified is None,
            !run.evidence().deep_link_authorized,
            !run.evidence().telemetry_recorded,
    {
        CandidateRun {
            request,
            policy,
            stage: RunStage::AwaitingCapabilities,
            evidence: Ghost(
                RunEvidence {
                    middleware_ok: false,
                    invocation: None,
                    grant: None,
                    classified: None,
                    deep_link_authorized: false,
                    telemetry_recorded: false,
                },
            ),
        }
    }

    /// Whether the run is over.
    pub fn is_finished(&self) -> (r: bool)
        ensures
            r == self.stage() is Finished,
    {
        match &self.stage {
            RunStage::Finished { .. } => true,
            _ => false,
        }
    }

    /// What the caller has to do next, with what it needs for it.
    pub fn next_action(&self) -> (action: PipelineAction<'_>)
        requires
            self.wf(),
        ensures
            match self.stage() {
                RunStage::AwaitingCapabilities => action is ReportCapabilities,
                RunStage::AwaitingIdentity => action matches PipelineAction::VerifyBearer(b)
                    && b@ == self.request().bearer@,
                RunStage::AwaitingGrant { invocation } => action matches PipelineAction::CheckRateLimit(
                    i,
                ) && *i == invocation,
                RunStage::AwaitingClassification { invocation } => action matches PipelineAction::Classify(
                    i,
                    c,
                ) && *i == invocation && *c == self.request().candidate,
                RunStage::AwaitingDeepLink { invocation, classified } => action matches PipelineAction::ReviewDeepLink(
                    card,
                    now,
                ) && Some(*card) == classified.card && now == self.policy().now,
                RunStage::AwaitingTelemetry { outcome, event } => action matches PipelineAction::RecordTelemetry(
                    e,
                ) && *e == event,
                RunStage::Finished { result } => action matches PipelineAction::Done(r) && *r
                    == result,
            },
    {
        match &self.stage {
            RunStage::AwaitingCapabilities => PipelineAction::ReportCapabilities,
            RunStage::AwaitingIdentity => PipelineAction::VerifyBearer(
                self.request.bearer.expose_for_verification(),
            ),
            RunStage::AwaitingGrant { invocation } => PipelineAction::CheckRateLimit(invocation),
            RunStage::AwaitingClassification { invocation } => PipelineAction::Classify(
                invocation,
                &self.request.candidate,
            ),
            RunStage::AwaitingDeepLink { invocation: _, classified } => {
                let card = classified.card.as_ref().unwrap();
                PipelineAction::ReviewDeepLink(card, self.policy.now)
            },
            RunStage::AwaitingTelemetry { outcome: _, event } => PipelineAction::RecordTelemetry(
                event,
            ),
            RunStage::Finished { result } => PipelineAction::Done(result),
        }
    }

    /// Take the answer of the service the run is waiting for.
    pub fn advance(self, event: PipelineEvent) -> (next: Self)
        requires
            self.wf(),
        ensures
            next.wf(),
            next.request() == self.request(),
            next.policy() == self.policy(),
            advanced(
                self.stage(),
                self.evidence(),
                event,
                next.stage(),
                next.evidence(),
                self.request(),
                self.policy(),
            ),
    {
        let CandidateRun { request, policy, stage, evidence } = self;
        let ghost ev = evidence@;
        match stage {
            RunStage::AwaitingCapabilities => match event {
                PipelineEvent::CapabilitiesReported(capabilities) => {
                    match middleware_contract_holds(capabilities.as_slice()) {
                        Ok(()) => CandidateRun {
                            request,
                            policy,
                            stage: RunStage::AwaitingIdentity,
                            evidence: Ghost(RunEvidence { middleware_ok: true, ..ev }),
                        },
                        Err(e) => CandidateRun {
                            request,
                            policy,
                            stage: RunStage::Finished { result: Err(e) },
                            evidence,
                        },
                    }
                },
                _ => CandidateRun { request, policy, stage: RunStage::AwaitingCapabilities, evidence },
            },
            RunStage::AwaitingIdentity => match event {
                PipelineEvent::IdentityVerified(None) => CandidateRun {
                    request,
                    policy,
                    stage: RunStage::Finished {
                        result: Err(PipelineError::AuthenticationUnavailable),
                    },
                    evidence,
                },
                PipelineEvent::IdentityVerified(Some(invocation)) => {
                    let ghost next_ev = RunEvidence { invocation: Some(invocation), ..ev };
                    let checked = match validate_invocation(
                        &invocation,
                        policy.expected_issuer,
                        policy.expected_audience,
                        policy.now,
                    ) {
                        Ok(()) => validate_consent(&request.consent, &request.candidate, policy.now),
                        Err(e) => Err(e),
                    };
                    let stage = match checked {
                        Ok(()) => RunStage::AwaitingGrant { invocation },
                        Err(e) => RunStage::Finished { result: Err(e) },
                    };
                    CandidateRun { request, policy, stage, evidence: Ghost(next_ev) }
                },
                _ => CandidateRun { request, policy, stage: RunStage::AwaitingIdentity, evidence },
            },
            RunStage::AwaitingGrant { invocation } => match event {
                PipelineEvent::GrantReceived(None) => CandidateRun {
                    request,
                    policy,
                    stage: RunStage::Finished { result: Err(PipelineError::RateLimited) },
                    evidence,
                },
                PipelineEvent::GrantReceived(Some(grant)) => {
                    let ghost next_ev = RunEvidence { grant: Some(grant), ..ev };
                    let stage = match validate_grant(&grant) {
                        Ok(()) => RunStage::AwaitingClassification { invocation },
                        Err(e) => RunStage::Finished { result: Err(e) },
                    };
                    CandidateRun { request, policy, stage, evidence: Ghost(next_ev) }
                },
                _ => CandidateRun {
                    request,
                    policy,
                    stage: RunStage::AwaitingGrant { invocation },
                    evidence,
                },
            },
            RunStage::AwaitingClassification { invocation } => match event {
                PipelineEvent::Classified(None) => CandidateRun {
                    request,
                    policy,
                    stage: RunStage::Finished {
                        result: Err(PipelineError::ClassificationUnavailable),
                    },
                    evidence,
                },
                PipelineEvent::Classified(Some(classified)) => {
                    let ghost next_ev = RunEvidence { classified: Some(classified), ..ev };
                    let needs_link = deep_link_check_needed(&classified);
                    let stage = match validate_classification(
                        &classified,
                        &request.candidate,
                        true,
                    ) {
                        Err(e) => RunStage::Finished { result: Err(e) },
                        Ok(()) => {
                            if needs_link {
                                RunStage::AwaitingDeepLink { invocation, classified }
                            } else {
                                let (outcome, event) = assemble_outcome(&invocation, classified);
                                RunStage::AwaitingTelemetry { outcome, event }
                            }
                        },
                    };
                    CandidateRun { request, policy, stage, evidence: Ghost(next_ev) }
                },
                _ => CandidateRun {
                    request,
                    policy,
                    stage: RunStage::AwaitingClassification { invocation },
                    evidence,
                },
            },
            RunStage::AwaitingDeepLink { invocation, classified } => match event {
                PipelineEvent::DeepLinkReviewed(authorized) => {
                    match validate_classification(&classified, &request.candidate, authorized) {
                        Ok(()) => {
                            let (outcome, event) = assemble_outcome(&invocation, classified);
                            CandidateRun {
                                request,
                                policy,
                                stage: RunStage::AwaitingTelemetry { outcome, event },
                                evidence: Ghost(RunEvidence { deep_link_authorized: true, ..ev }),
                            }
                        },
                        Err(e) => CandidateRun {
                            request,
                            policy,
                            stage: RunStage::Finished { result: Err(e) },
                            evidence,
                        },
                    }
                },
                _ => CandidateRun {
                    request,
                    policy,
                    stage: RunStage::AwaitingDeepLink { invocation, classified },
                    evidence,
                },
            },
            RunStage::AwaitingTelemetry { outcome, event: record } => match event {
                PipelineEvent::TelemetryRecorded(accepted) => {
                    if accepted {
                        CandidateRun {
                            request,
                            policy,
                            stage: RunStage::Finished { result: Ok(outcome) },
                            evidence: Ghost(RunEvidence { telemetry_recorded: true, ..ev }),
                        }
                    } else {
                        CandidateRun {
                            request,
                            policy,
                            stage: RunStage::Finished {
                                result: Err(PipelineError::TelemetryUnavailable),
                            },
                            evidence,
                        }
                    }
                },
                _ => CandidateRun {
                    request,
                    policy,
                    stage: RunStage::AwaitingTelemetry { outcome, event: record },
                    evidence,
                },
            },
            RunStage::Finished { result } => CandidateRun {
                request,
                policy,
                stage: RunStage::Finished { result },
                evidence,
            },
        }
    }

    /// The run's result, once it is over.
    pub fn into_result(self) -> (r: Option<Result<IngestOutcome, PipelineError>>)
        ensures
            match self.stage() {
                RunStage::Finished { result } => r == Some(result),
                _ => r is None,
            },
    {
        match self.stage {
            RunStage::Finished { result } => Some(result),
            _ => None,
        }
    }
}

} // verus!

verus! {

/// Fail closed: a run that ends in success has passed every gate. The
/// middleware met its contract; the authority verified an identity whose
/// claims satisfy the policy; the consent was live and covered the candidate;
/// the rate-limit authority granted the operation under a named policy; the
/// classifier's output matched the candidate; a proposed deep link was
/// authorized; the telemetry record was accepted; and the outcome is the one
/// assembled from that identity and classification.
pub proof fn successful_run_passed_every_gate(run: CandidateRun)
    requires
        run.wf(),
        run.stage() matches RunStage::Finished { result: Ok(_) },
    ensures
        run.evidence().middleware_ok,
        run.evidence().telemetry_recorded,
        run.evidence().invocation matches Some(invocation) && invocation_admissible(
            invocation,
            run.policy().expected_issuer@,
            run.policy().expected_audience@,
            run.policy().now,
        ),
        consent_admissible(run.request().consent, run.request().candidate, run.policy().now),
        run.evidence().grant matches Some(grant) && grant_admissible(grant),
        run.evidence().classified matches Some(classified) && classification_consistent(
            classified,
            run.request().candidate,
        ) && (needs_deep_link_check(classified) ==> run.evidence().deep_link_authorized),
        run.stage() matches RunStage::Finished { result: Ok(outcome) } && outcome_assembled(
            outcome,
            run.evidence().invocation.unwrap(),
            run.evidence().classified.unwrap(),
        ),
{
}

/// Only bounded, tenant-scoped data leaves a successful run: a card, a
/// publish subject or a chat handoff appears only for a published candidate;
/// the subject is `happywakey.briefing.<tenant>.candidate` for the verified
/// tenant, which is a safe scope identifier; a handoff is addressed to
/// customer support, names that tenant and the published card, and gives
/// one of the two fixed support reasons.
pub proof fn successful_outcome_is_tenant_scoped(run: CandidateRun)
    requires
        run.wf(),
        run.stage() matches RunStage::Finished { result: Ok(_) },
    ensures
        ({
            let outcome = run.stage()->Finished_result.unwrap();
            let tenant = run.evidence().invocation.unwrap().tenant_id@;
            &&& scope_is_safe(tenant)
            &&& outcome.disposition != IngestDisposition::Published ==> {
                &&& outcome.card is None
                &&& outcome.publish_subject is None
                &&& outcome.chat_handoff is None
            }
            &&& outcome.disposition == IngestDisposition::Published ==> {
                &&& outcome.card == run.evidence().classified.unwrap().card
                &&& outcome.card is Some
                &&& outcome.publish_subject matches Some(s) && s@ == publish_subject_for(tenant)
            }
            &&& outcome.chat_handoff matches Some(handoff) ==> {
                &&& handoff.audience == ChatAudience::CustomerSupport
                &&& handoff.tenant_id@ == tenant
                &&& handoff.card_id@ == outcome.card.unwrap().card_id@
                &&& (handoff.reason@ == "security_risk"@ || handoff.reason@
                    == "customer_escalation"@)
            }
        }),
{
}

} // verus!

verus! {

/// Only bounded metadata goes to telemetry: the record a run asks to be
/// written names the processed-candidate event and carries the verified
/// invocation's request id, its 32-byte trace id, its account kind and the
/// candidate's disposition, nothing else.
pub proof fn telemetry_record_is_bounded(run: CandidateRun)
    requires
        run.wf(),
        run.stage() is AwaitingTelemetry,
    ensures
        ({
            let invocation = run.evidence().invocation.unwrap();
            let event = run.stage()->AwaitingTelemetry_event;
            &&& telemetry_recorded_for(
                event,
                invocation,
                run.stage()->AwaitingTelemetry_outcome.disposition,
            )
            &&& invocation.request_id@.len() > 0
            &&& utf8_len(invocation.trace_id@) == 32
        }),
{
}

/// A finished run is final: no later answer changes its result.
pub proof fn finished_run_is_final(
    run: CandidateRun,
    event: PipelineEvent,
    next_stage: RunStage,
    next_evidence: RunEvidence,
)
    requires
        run.stage() is Finished,
        advanced(
            run.stage(),
            run.evidence(),
            event,
            next_stage,
            next_evidence,
            run.request(),
            run.policy(),
        ),
    ensures
        next_stage == run.stage(),
        next_evidence == run.evidence(),
{
}

} // verus!
