//! Turning an accepted classification into a publishable outcome and its
//! telemetry record.

use vstd::prelude::*;

use crate::checks::{support_reason, support_reason_text};
use crate::model::{
    AuthenticatedInvocation, BriefingCard, ChatAudience, ChatHandoff, ClassifiedCandidate,
    IngestDisposition, IngestOutcome, TelemetryEvent, UsefulnessDisposition,
};
use crate::text::push_text;

verus! {

/// How a classifier verdict maps onto what happens to the candidate.
pub open spec fn disposition_for(d: UsefulnessDisposition) -> IngestDisposition {
    match d {
        UsefulnessDisposition::Useful => IngestDisposition::Published,
        UsefulnessDisposition::NotUseful => IngestDisposition::Suppressed,
        UsefulnessDisposition::NeedsReview => IngestDisposition::NeedsReview,
    }
}

/// The tenant-scoped subject that a published candidate goes to.
pub open spec fn publish_subject_for(tenant: Seq<char>) -> Seq<char> {
    "happywakey.briefing."@ + tenant + ".candidate"@
}

/// The name under which processed candidates are recorded.
pub open spec fn processed_event_name() -> Seq<char> {
    "happy_wakey_candidate_processed"@
}

/// `outcome` is what the pipeline makes of `classified` for `invocation`:
/// the verdict decides the disposition; only a published candidate keeps its
/// card and gets a subject under the caller's tenant; a published card is
/// handed to customer support exactly when the decision gives a support
/// reason, and the handoff names only the tenant, the card and that reason.
pub open spec fn outcome_assembled(
    outcome: IngestOutcome,
    invocation: AuthenticatedInvocation,
    classified: ClassifiedCandidate,
) -> bool {
    let disposition = disposition_for(classified.decision.disposition);
    let reason = support_reason_text(classified.decision.reasons@);
    &&& outcome.disposition == disposition
    &&& outcome.decision_id@ == classified.decision.decision_id@
    &&& outcome.card == (if disposition == IngestDisposition::Published {
        classified.card
    } else {
        None::<BriefingCard>
    })
    &&& (outcome.publish_subject is Some <==> outcome.card is Some)
    &&& (outcome.publish_subject matches Some(subject) ==> subject@ == publish_subject_for(
        invocation.tenant_id@,
    ))
    &&& (outcome.chat_handoff is Some <==> (outcome.card is Some && reason is Some))
    &&& (outcome.chat_handoff matches Some(handoff) ==> {
        &&& handoff.tenant_id@ == invocation.tenant_id@
        &&& handoff.audience == ChatAudience::CustomerSupport
        &&& handoff.card_id@ == outcome.card.unwrap().card_id@
        &&& reason == Some(handoff.reason@)
    })
}

/// `event` records, for `invocation`, that a candidate ended as `disposition`.
pub open spec fn telemetry_recorded_for(
    event: TelemetryEvent,
    invocation: AuthenticatedInvocation,
    disposition: IngestDisposition,
) -> bool {
    &&& event.event_name@ == processed_event_name()
    &&& event.request_id@ == invocation.request_id@
    &&& event.trace_id@ == invocation.trace_id@
    &&& event.account_kind == invocation.account_kind
    &&& event.disposition == disposition
}

fn map_disposition(d: UsefulnessDisposition) -> (r: IngestDisposition)
    ensures
        r == disposition_for(d),
{
    match d {
        UsefulnessDisposition::Useful => IngestDisposition::Published,
        UsefulnessDisposition::NotUseful => IngestDisposition::Suppressed,
        UsefulnessDisposition::NeedsReview => IngestDisposition::NeedsReview,
    }
}

/// The subject a published card for `tenant` is sent to.
pub fn publish_subject(tenant: &str) -> (subject: String)
    ensures
        subject@ == publish_subject_for(tenant@),
{
    let mut subject = "happywakey.briefing.".to_owned();
    push_text(&mut subject, tenant);
    push_text(&mut subject, ".candidate");
    subject
}

/// Assemble the outcome of an accepted classification, and the telemetry
/// record that reports it.
pub fn assemble_outcome(
    invocation: &AuthenticatedInvocation,
    classified: ClassifiedCandidate,
) -> (r: (IngestOutcome, TelemetryEvent))
    ensures
        outcome_assembled(r.0, *invocation, classified),
        telemetry_recorded_for(r.1, *invocation, r.0.disposition),
{
    let ghost given = classified;
    let disposition = map_disposition(classified.decision.disposition);
    let reason = support_reason(&classified.decision);
    let ClassifiedCandidate { decision, card } = classified;
    let card = if disposition == IngestDisposition::Published {
        card
    } else {
        None
    };
    let publish = match &card {
        Some(_) => Some(publish_subject(invocation.tenant_id.as_str())),
        None => None,
    };
    let chat_handoff = match &card {
        Some(c) => match reason {
            Some(text) => Some(
                ChatHandoff {
                    tenant_id: invocation.tenant_id.clone(),
                    audience: ChatAudience::CustomerSupport,
                    card_id: c.card_id.clone(),
                    reason: text.to_owned(),
                },
            ),
            None => None,
        },
        None => None,
    };
    let outcome = IngestOutcome {
        disposition,
        decision_id: decision.decision_id,
        publish_subject: publish,
        card,
        chat_handoff,
    };
    let event = TelemetryEvent {
        event_name: "happy_wakey_candidate_processed",
        request_id: invocation.request_id.clone(),
        trace_id: invocation.trace_id.clone(),
        account_kind: invocation.account_kind,
        disposition,
    };
    assert(outcome_assembled(outcome, *invocation, given));
    (outcome, event)
}

} // verus!
