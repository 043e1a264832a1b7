//! The fail-closed checks of the ingestion pipeline: middleware contract,
//! identity claims, consent, rate-limit grant and classifier output.

use vstd::prelude::*;
use vstd::utf8::encode_utf8;

use crate::clock::{is_after, parse_rfc3339, rfc3339_instant, UtcInstant};
use crate::error::PipelineError;
use crate::model::{
    AuthenticatedInvocation, ClassifiedCandidate, ConnectorConsent, ConsentState,
    RateLimitGrant, SourceItemCandidate, UsefulnessDecision, UsefulnessDisposition,
    UsefulnessReason,
};
use crate::text::{byte_len, same_text, utf8_len};

verus! {

// ---------------------------------------------------------------------------
// Middleware contract
// ---------------------------------------------------------------------------

/// The production boundaries that the linked middleware must provide.
pub open spec fn required_capabilities() -> Seq<Seq<char>> {
    seq![
        "request-context"@,
        "trace-context"@,
        "payload-limit"@,
        "rate-limit"@,
        "auth"@,
        "sync-observer"@,
        "tls-policy"@,
        "idempotency"@,
    ]
}

/// Every required capability occurs among `offered`.
pub open spec fn middleware_contract_met(offered: Seq<Seq<char>>) -> bool {
    forall|i: int| 0 <= i < required_capabilities().len() ==> #[trigger] offered.contains(
        required_capabilities()[i],
    )
}

/// The views of a list of texts.
pub open spec fn texts_view(texts: Seq<String>) -> Seq<Seq<char>> {
    texts.map_values(|t: String| t@)
}

/// The views of a list of text literals.
pub open spec fn literals_view(texts: Seq<&str>) -> Seq<Seq<char>> {
    texts.map_values(|t: &str| t@)
}

fn required_capability_list() -> (v: Vec<&'static str>)
    ensures
        literals_view(v@) == required_capabilities(),
{
    let v: Vec<&'static str> = vec![
        "request-context",
        "trace-context",
        "payload-limit",
        "rate-limit",
        "auth",
        "sync-observer",
        "tls-policy",
        "idempotency",
    ];
    assert(literals_view(v@) =~= required_capabilities());
    v
}

/// Whether `wanted` occurs among `offered`.
fn offers(offered: &[String], wanted: &str) -> (r: bool)
    ensures
        r == texts_view(offered@).contains(wanted@),
{
    let n = offered.len();
    for j in 0..n
        invariant
            n == offered@.len(),
            forall|k: int| 0 <= k < j ==> offered@[k]@ != wanted@,
    {
        if same_text(offered[j].as_str(), wanted) {
            assert(texts_view(offered@)[j as int] == wanted@);
            return true;
        }
    }
    proof {
        if texts_view(offered@).contains(wanted@) {
            let k = choose|k: int| 0 <= k < texts_view(offered@).len() && texts_view(offered@)[k] == wanted@;
            assert(offered@[k]@ == wanted@);
        }
    }
    false
}

/// Check the capabilities that the linked middleware reports against the
/// production boundaries the pipeline relies on.
pub fn middleware_contract_holds(capabilities: &[String]) -> (r: Result<(), PipelineError>)
    ensures
        r is Ok <==> middleware_contract_met(texts_view(capabilities@)),
        r matches Err(e) ==> e == PipelineError::MiddlewareContract,
{
    let required = required_capability_list();
    let n = required.len();
    for i in 0..n
        invariant
            n == required@.len(),
            literals_view(required@) == required_capabilities(),
            forall|k: int| 0 <= k < i ==> #[trigger] texts_view(capabilities@).contains(
                required_capabilities()[k],
            ),
    {
        assert(literals_view(required@)[i as int] == required[i as int]@);
        if !offers(capabilities, required[i]) {
            return Err(PipelineError::MiddlewareContract);
        }
    }
    Ok(())
}

// ---------------------------------------------------------------------------
// Identity
// ---------------------------------------------------------------------------

/// Bytes allowed in a tenant or subject scope.
pub open spec fn is_scope_byte(b: u8) -> bool {
    ||| (48 <= b && b <= 57)
    ||| (65 <= b && b <= 90)
    ||| (97 <= b && b <= 122)
    ||| b == 45
    ||| b == 95
}

/// A scope identifier: 1 to 128 bytes of ASCII letters, digits, `-` and `_`.
pub open spec fn scope_is_safe(s: Seq<char>) -> bool {
    let bytes = encode_utf8(s);
    &&& 0 < bytes.len() <= 128
    &&& forall|i: int| 0 <= i < bytes.len() ==> is_scope_byte(#[trigger] bytes[i])
}

/// Whether `value` is a safe scope identifier.
pub fn safe_scope(value: &str) -> (r: bool)
    ensures
        r == scope_is_safe(value@),
{
    let bytes = value.as_bytes();
    let n = bytes.len();
    if n == 0 || n > 128 {
        return false;
    }
    for i in 0..n
        invariant
            n == bytes@.len(),
            bytes@ == encode_utf8(value@),
            forall|k: int| 0 <= k < i ==> is_scope_byte(#[trigger] bytes@[k]),
    {
        let b = bytes[i];
        if !((48 <= b && b <= 57) || (65 <= b && b <= 90) || (97 <= b && b <= 122) || b == 45 || b
            == 95) {
            return false;
        }
    }
    true
}

/// The claims of `invocation` satisfy the lambda policy: a request id, a
/// 32-byte trace id, safe tenant and subject scopes, the expected issuer and
/// audience, and an expiry strictly after `now` (in whole seconds).
pub open spec fn invocation_admissible(
    invocation: AuthenticatedInvocation,
    expected_issuer: Seq<char>,
    expected_audience: Seq<char>,
    now: UtcInstant,
) -> bool {
    &&& invocation.request_id@.len() > 0
    &&& utf8_len(invocation.trace_id@) == 32
    &&& scope_is_safe(invocation.tenant_id@)
    &&& scope_is_safe(invocation.subject_id@)
    &&& invocation.issuer@ == expected_issuer
    &&& invocation.audience@ == expected_audience
    &&& invocation.expires_at_unix > now.unix_seconds
}

/// Hold the shared-auth claims to the lambda policy.
pub fn validate_invocation(
    invocation: &AuthenticatedInvocation,
    expected_issuer: &str,
    expected_audience: &str,
    now: UtcInstant,
) -> (r: Result<(), PipelineError>)
    ensures
        r is Ok <==> invocation_admissible(*invocation, expected_issuer@, expected_audience@, now),
        r matches Err(e) ==> e == PipelineError::Unauthorized,
{
    if invocation.request_id.as_str().is_empty() || byte_len(invocation.trace_id.as_str()) != 32
        || !safe_scope(invocation.tenant_id.as_str()) || !safe_scope(
        invocation.subject_id.as_str(),
    ) || !same_text(invocation.issuer.as_str(), expected_issuer) || !same_text(
        invocation.audience.as_str(),
        expected_audience,
    ) || invocation.expires_at_unix <= now.unix_seconds {
        return Err(PipelineError::Unauthorized);
    }
    Ok(())
}

// ---------------------------------------------------------------------------
// Consent
// ---------------------------------------------------------------------------

/// A consent expiry is acceptable: absent, or an RFC 3339 instant strictly
/// after `now`.
pub open spec fn expiry_acceptable(expires_at: Option<String>, now: UtcInstant) -> bool {
    match expires_at {
        None => true,
        Some(text) => match rfc3339_instant(text@) {
            Some(p) => is_after(UtcInstant { unix_seconds: p.0, nanosecond: p.1 }, now),
            None => false,
        },
    }
}

/// The consent is live and covers the candidate: granted, for the same
/// connector, with at least one scope, and not expired.
pub open spec fn consent_admissible(
    consent: ConnectorConsent,
    candidate: SourceItemCandidate,
    now: UtcInstant,
) -> bool {
    &&& consent.state == ConsentState::Granted
    &&& consent.connector == candidate.connector
    &&& consent.scopes@.len() > 0
    &&& expiry_acceptable(consent.expires_at, now)
}

/// The consent decision, given what the RFC 3339 parser read from the
/// consent's expiry (`parsed`, read only where the consent has an expiry):
/// refused unless granted, for the candidate's connector, with a scope, and
/// either without expiry or expiring strictly after `now`.
pub fn consent_decision(
    consent: &ConnectorConsent,
    candidate: &SourceItemCandidate,
    now: UtcInstant,
    parsed: Option<UtcInstant>,
) -> (r: Result<(), PipelineError>)
    ensures
        r is Ok <==> {
            &&& consent.state == ConsentState::Granted
            &&& consent.connector == candidate.connector
            &&& consent.scopes@.len() > 0
            &&& consent.expires_at is Some ==> (parsed matches Some(t) && is_after(t, now))
        },
        r matches Err(e) ==> e == PipelineError::ConsentDenied,
{
    let valid_expiry = match &consent.expires_at {
        None => true,
        Some(_) => match parsed {
            Some(expires) => expires.is_after(&now),
            None => false,
        },
    };
    if consent.state != ConsentState::Granted || consent.connector != candidate.connector
        || consent.scopes.len() == 0 || !valid_expiry {
        return Err(PipelineError::ConsentDenied);
    }
    Ok(())
}

/// Hold the connector consent to the candidate it is used for.
pub fn validate_consent(
    consent: &ConnectorConsent,
    candidate: &SourceItemCandidate,
    now: UtcInstant,
) -> (r: Result<(), PipelineError>)
    ensures
        r is Ok <==> consent_admissible(*consent, *candidate, now),
        r matches Err(e) ==> e == PipelineError::ConsentDenied,
{
    let parsed = match &consent.expires_at {
        None => None,
        Some(text) => parse_rfc3339(text.as_str()),
    };
    consent_decision(consent, candidate, now, parsed)
}

// ---------------------------------------------------------------------------
// Rate limit
// ---------------------------------------------------------------------------

/// The authority explicitly allowed the operation under a named policy.
pub open spec fn grant_admissible(grant: RateLimitGrant) -> bool {
    grant.allowed && grant.policy_version@.len() > 0
}

/// Accept only an explicit grant with a policy version.
pub fn validate_grant(grant: &RateLimitGrant) -> (r: Result<(), PipelineError>)
    ensures
        r is Ok <==> grant_admissible(*grant),
        r matches Err(e) ==> e == PipelineError::RateLimited,
{
    if !grant.allowed || grant.policy_version.as_str().is_empty() {
        return Err(PipelineError::RateLimited);
    }
    Ok(())
}

// ---------------------------------------------------------------------------
// Classification
// ---------------------------------------------------------------------------

/// The decision is about this candidate: same source item, same content hash.
pub open spec fn decision_matches_candidate(
    classified: ClassifiedCandidate,
    candidate: SourceItemCandidate,
) -> bool {
    &&& classified.decision.source_item_ref@ == candidate.source_item_ref@
    &&& classified.decision.content_sha256@ == candidate.content_sha256@
}

/// Useful items come with a card; other verdicts come without one.
pub open spec fn card_fits_disposition(classified: ClassifiedCandidate) -> bool {
    match classified.decision.disposition {
        UsefulnessDisposition::Useful => classified.card is Some,
        _ => classified.card is None,
    }
}

/// The classifier output is consistent with the candidate.
pub open spec fn classification_consistent(
    classified: ClassifiedCandidate,
    candidate: SourceItemCandidate,
) -> bool {
    decision_matches_candidate(classified, candidate) && card_fits_disposition(classified)
}

/// A useful card proposes a deep link, which must be authorized.
pub open spec fn needs_deep_link_check(classified: ClassifiedCandidate) -> bool {
    &&& classified.decision.disposition == UsefulnessDisposition::Useful
    &&& classified.card matches Some(card) && card.deep_link is Some
}

/// Whether the deep-link policy has to be consulted for this output.
pub fn deep_link_check_needed(classified: &ClassifiedCandidate) -> (r: bool)
    ensures
        r == needs_deep_link_check(*classified),
{
    match classified.decision.disposition {
        UsefulnessDisposition::Useful => match &classified.card {
            Some(card) => card.deep_link.is_some(),
            None => false,
        },
        _ => false,
    }
}

/// Hold the classifier output to the candidate. `deep_link_authorized` is the
/// deep-link policy's verdict on the card; it is read only where
/// `needs_deep_link_check` holds.
pub fn validate_classification(
    classified: &ClassifiedCandidate,
    candidate: &SourceItemCandidate,
    deep_link_authorized: bool,
) -> (r: Result<(), PipelineError>)
    ensures
        r is Ok <==> classification_consistent(*classified, *candidate) && (needs_deep_link_check(
            *classified,
        ) ==> deep_link_authorized),
        r == Err::<(), PipelineError>(PipelineError::InvalidClassification) <==> !classification_consistent(
            *classified,
            *candidate,
        ),
        r == Err::<(), PipelineError>(PipelineError::UnsafeDeepLink) <==> classification_consistent(
            *classified,
            *candidate,
        ) && needs_deep_link_check(*classified) && !deep_link_authorized,
{
    if !same_text(classified.decision.source_item_ref.as_str(), candidate.source_item_ref.as_str())
        || !same_text(
        classified.decision.content_sha256.as_str(),
        candidate.content_sha256.as_str(),
    ) {
        return Err(PipelineError::InvalidClassification);
    }
    match classified.decision.disposition {
        UsefulnessDisposition::Useful => {
            match &classified.card {
                None => {
                    return Err(PipelineError::InvalidClassification);
                },
                Some(card) => {
                    if card.deep_link.is_some() && !deep_link_authorized {
                        return Err(PipelineError::UnsafeDeepLink);
                    }
                },
            }
        },
        _ => {
            if classified.card.is_some() {
                return Err(PipelineError::InvalidClassification);
            }
        },
    }
    Ok(())
}

// ---------------------------------------------------------------------------
// Escalation
// ---------------------------------------------------------------------------

/// The support reason for a decision: a security risk outranks a customer
/// escalation; other decisions are not escalated.
pub open spec fn support_reason_text(reasons: Seq<UsefulnessReason>) -> Option<Seq<char>> {
    if reasons.contains(UsefulnessReason::SecurityRisk) {
        Some("security_risk"@)
    } else if reasons.contains(UsefulnessReason::CustomerEscalation) {
        Some("customer_escalation"@)
    } else {
        None
    }
}

fn has_reason(reasons: &Vec<UsefulnessReason>, wanted: UsefulnessReason) -> (r: bool)
    ensures
        r == reasons@.contains(wanted),
{
    let n = reasons.len();
    for i in 0..n
        invariant
            n == reasons@.len(),
            forall|k: int| 0 <= k < i ==> reasons@[k] != wanted,
    {
        if reasons[i] == wanted {
            assert(reasons@[i as int] == wanted);
            return true;
        }
    }
    false
}

/// Why a decision is handed to customer support, if it is.
pub fn support_reason(decision: &UsefulnessDecision) -> (r: Option<&'static str>)
    ensures
        r is Some <==> support_reason_text(decision.reasons@) is Some,
        r matches Some(text) ==> support_reason_text(decision.reasons@) == Some(text@),
{
    if has_reason(&decision.reasons, UsefulnessReason::SecurityRisk) {
        Some("security_risk")
    } else if has_reason(&decision.reasons, UsefulnessReason::CustomerEscalation) {
        Some("customer_escalation")
    } else {
        None
    }
}


/// A scope is safe exactly when its UTF-8 form has 1 to 128 bytes and every
/// byte, the first included, is an ASCII digit, an ASCII letter, `-` or `_`.
pub proof fn safe_scope_is_bytewise(s: Seq<char>)
    ensures
        scope_is_safe(s) <==> {
            let b = encode_utf8(s);
            &&& 1 <= b.len() <= 128
            &&& forall|i: int| 0 <= i < b.len() ==> {
                ||| ('0' as u8 <= #[trigger] b[i] && b[i] <= '9' as u8)
                ||| ('A' as u8 <= b[i] && b[i] <= 'Z' as u8)
                ||| ('a' as u8 <= b[i] && b[i] <= 'z' as u8)
                ||| b[i] == '-' as u8
                ||| b[i] == '_' as u8
            }
        },
{
}

/// Every identifier of 1 to 128 ASCII letters, digits, `-` and `_`, in any
/// order (a UUID, a number such as `1042`, `tenant-1`), is a safe scope.
pub proof fn ascii_identifiers_are_safe_scopes(s: Seq<char>)
    requires
        0 < s.len() <= 128,
        forall|i: int| 0 <= i < s.len() ==> {
            ||| ('0' <= #[trigger] s[i] && s[i] <= '9')
            ||| ('A' <= s[i] && s[i] <= 'Z')
            ||| ('a' <= s[i] && s[i] <= 'z')
            ||| s[i] == '-'
            ||| s[i] == '_'
        },
    ensures
        scope_is_safe(s),
{
    assert(vstd::utf8::is_ascii_chars(s));
    vstd::utf8::is_ascii_chars_encode_utf8(s);
    let b = encode_utf8(s);
    assert forall|i: int| 0 <= i < b.len() implies is_scope_byte(#[trigger] b[i]) by {
        assert(s[i] as u8 == b[i]);
    }
}

/// The support reason depends only on which reasons occur, not on their
/// order or how often they occur.
pub proof fn support_reason_ignores_order(a: Seq<UsefulnessReason>, b: Seq<UsefulnessReason>)
    requires
        forall|r: UsefulnessReason| a.contains(r) <==> b.contains(r),
    ensures
        support_reason_text(a) == support_reason_text(b),
{
}

/// A security risk anywhere among the reasons is escalated as
/// `security_risk`; otherwise a customer escalation anywhere is escalated as
/// `customer_escalation`; otherwise nothing is escalated.
pub proof fn support_reason_by_presence(reasons: Seq<UsefulnessReason>, i: int)
    requires
        0 <= i < reasons.len(),
    ensures
        reasons[i] == UsefulnessReason::SecurityRisk ==> support_reason_text(reasons) == Some(
            "security_risk"@,
        ),
        reasons[i] == UsefulnessReason::CustomerEscalation && !reasons.contains(
            UsefulnessReason::SecurityRisk,
        ) ==> support_reason_text(reasons) == Some("customer_escalation"@),
        !reasons.contains(UsefulnessReason::SecurityRisk) && !reasons.contains(
            UsefulnessReason::CustomerEscalation,
        ) ==> support_reason_text(reasons) is None,
{
    assert(reasons.contains(reasons[i]));
}

} // verus!
