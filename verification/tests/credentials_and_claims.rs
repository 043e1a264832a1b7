use happy_wakey_lambdas::{
    consent_decision, middleware_contract_holds, safe_scope, support_reason, validate_consent,
    validate_grant, validate_invocation, AccountKind, AuthenticatedInvocation, ConnectorConsent,
    ConnectorKind, ConsentState, PipelineError, RateLimitGrant, SecretBearer, SenderClass,
    SourceItemCandidate, UsefulnessDecision, UsefulnessDisposition, UsefulnessReason, UtcInstant,
};

fn now() -> UtcInstant {
    // 2026-09-05T12:00:00Z
    UtcInstant { unix_seconds: 1_788_609_600, nanosecond: 0 }
}

fn invocation() -> AuthenticatedInvocation {
    AuthenticatedInvocation {
        request_id: "request-1".into(),
        trace_id: "0123456789abcdef0123456789abcdef".into(),
        tenant_id: "tenant-1".into(),
        subject_id: "subject_1".into(),
        account_kind: AccountKind::OrganizationMember,
        issuer: "https://auth.hawky.pro".into(),
        audience: "hawky-api".into(),
        expires_at_unix: now().unix_seconds + 1,
    }
}

fn consent(expires_at: Option<&str>) -> ConnectorConsent {
    ConnectorConsent {
        consent_id: "consent-1".into(),
        connector: ConnectorKind::Linkedin,
        state: ConsentState::Granted,
        scopes: vec!["messages.read".into()],
        granted_at: None,
        expires_at: expires_at.map(|s| s.to_string()),
        source_account_ref: "account-1".into(),
    }
}

fn candidate() -> SourceItemCandidate {
    SourceItemCandidate {
        source_item_ref: "source-1".into(),
        connector: ConnectorKind::Linkedin,
        sender_class: SenderClass::Known,
        received_at: "2026-09-05T11:00:00Z".into(),
        thread_ref: "thread-1".into(),
        encrypted_content_ref: "vault/item-1".into(),
        content_sha256: "b".repeat(64),
        has_direct_reply_request: false,
        due_at: None,
    }
}

#[test]
fn bearer_accepts_printable_tokens_and_exposes_them_unchanged() {
    let bearer = SecretBearer::new("opaque-token".into()).expect("bearer");
    assert_eq!(bearer.expose_for_verification(), "opaque-token");
    let longest = "x".repeat(16 * 1024);
    assert_eq!(SecretBearer::new(longest.clone()).unwrap().expose_for_verification(), longest);
    assert!(SecretBearer::new("ünïcode-tøken".into()).is_ok());
}

#[test]
fn bearer_refuses_empty_oversized_spaced_and_control_values() {
    for bad in [
        String::new(),
        "x".repeat(16 * 1024 + 1),
        "é".repeat(8 * 1024 + 1),
        "two words".into(),
        "tab\there".into(),
        "ideographic\u{3000}space".into(),
        "nul\u{0}".into(),
        "c1\u{85}".into(),
        "del\u{7f}".into(),
    ] {
        assert_eq!(SecretBearer::new(bad).err(), Some(PipelineError::InvalidCredential));
    }
}

#[test]
fn scopes_are_short_ascii_identifiers() {
    assert!(safe_scope("tenant-1"));
    assert!(safe_scope("A_b-9"));
    assert!(safe_scope(&"a".repeat(128)));
    assert!(!safe_scope(""));
    assert!(!safe_scope(&"a".repeat(129)));
    assert!(!safe_scope("tenant.1"));
    assert!(!safe_scope("tenant 1"));
    assert!(!safe_scope("ténant"));
}

#[test]
fn invocation_claims_are_held_to_the_policy() {
    let issuer = "https://auth.hawky.pro";
    let audience = "hawky-api";
    assert_eq!(validate_invocation(&invocation(), issuer, audience, now()), Ok(()));
    let cases: Vec<Box<dyn Fn(&mut AuthenticatedInvocation)>> = vec![
        Box::new(|i| i.request_id.clear()),
        Box::new(|i| i.trace_id.push('0')),
        Box::new(|i| i.tenant_id = "tenant/1".into()),
        Box::new(|i| i.subject_id.clear()),
        Box::new(|i| i.issuer = "https://evil.example".into()),
        Box::new(|i| i.audience = "other-api".into()),
        Box::new(|i| i.expires_at_unix = now().unix_seconds),
    ];
    for change in cases {
        let mut claims = invocation();
        change(&mut claims);
        assert_eq!(
            validate_invocation(&claims, issuer, audience, now()),
            Err(PipelineError::Unauthorized)
        );
    }
}

#[test]
fn consent_must_be_live_and_cover_the_connector() {
    assert_eq!(validate_consent(&consent(None), &candidate(), now()), Ok(()));
    assert_eq!(
        validate_consent(&consent(Some("2026-09-05T12:00:00.5Z")), &candidate(), now()),
        Ok(())
    );
    assert_eq!(
        validate_consent(&consent(Some("2026-09-05T13:00:01+01:00")), &candidate(), now()),
        Ok(())
    );
    for expiry in ["2026-09-05T12:00:00Z", "2026-09-05T13:00:00+01:00", "2026-09-04T00:00:00Z", "tomorrow"] {
        assert_eq!(
            validate_consent(&consent(Some(expiry)), &candidate(), now()),
            Err(PipelineError::ConsentDenied),
            "{expiry}"
        );
    }
    let mut revoked = consent(None);
    revoked.state = ConsentState::Revoked;
    assert_eq!(validate_consent(&revoked, &candidate(), now()), Err(PipelineError::ConsentDenied));
    let mut other = consent(None);
    other.connector = ConnectorKind::Gmail;
    assert_eq!(validate_consent(&other, &candidate(), now()), Err(PipelineError::ConsentDenied));
    let mut unscoped = consent(None);
    unscoped.scopes.clear();
    assert_eq!(validate_consent(&unscoped, &candidate(), now()), Err(PipelineError::ConsentDenied));
}

#[test]
fn consent_decision_reads_the_parsed_expiry() {
    let later = UtcInstant { unix_seconds: now().unix_seconds, nanosecond: 1 };
    assert_eq!(consent_decision(&consent(Some("x")), &candidate(), now(), Some(later)), Ok(()));
    assert_eq!(
        consent_decision(&consent(Some("x")), &candidate(), now(), Some(now())),
        Err(PipelineError::ConsentDenied)
    );
    assert_eq!(
        consent_decision(&consent(Some("x")), &candidate(), now(), None),
        Err(PipelineError::ConsentDenied)
    );
    assert_eq!(consent_decision(&consent(None), &candidate(), now(), None), Ok(()));
}

#[test]
fn grants_must_be_explicit_and_versioned() {
    assert_eq!(validate_grant(&RateLimitGrant { allowed: true, policy_version: "v1".into() }), Ok(()));
    assert_eq!(
        validate_grant(&RateLimitGrant { allowed: false, policy_version: "v1".into() }),
        Err(PipelineError::RateLimited)
    );
    assert_eq!(
        validate_grant(&RateLimitGrant { allowed: true, policy_version: String::new() }),
        Err(PipelineError::RateLimited)
    );
}

#[test]
fn middleware_contract_contains_required_production_boundaries() {
    let required = [
        "request-context",
        "trace-context",
        "payload-limit",
        "rate-limit",
        "auth",
        "sync-observer",
        "tls-policy",
        "idempotency",
    ];
    let mut offered: Vec<String> = required.iter().rev().map(|c| c.to_string()).collect();
    offered.push("extra".into());
    middleware_contract_holds(&offered).expect("contract");
    for missing in 0..required.len() {
        let partial: Vec<String> = required
            .iter()
            .enumerate()
            .filter(|(i, _)| *i != missing)
            .map(|(_, c)| c.to_string())
            .collect();
        assert_eq!(middleware_contract_holds(&partial), Err(PipelineError::MiddlewareContract));
    }
}

#[test]
fn support_reasons_rank_security_first() {
    let decision = |reasons: Vec<UsefulnessReason>| UsefulnessDecision {
        decision_id: "d".into(),
        source_item_ref: "s".into(),
        disposition: UsefulnessDisposition::Useful,
        score_bits: 0,
        reasons,
        model_ref: "m".into(),
        policy_version: "p".into(),
        evaluated_at: "e".into(),
        content_sha256: "c".into(),
    };
    assert_eq!(support_reason(&decision(vec![])), None);
    assert_eq!(support_reason(&decision(vec![UsefulnessReason::DueSoon])), None);
    assert_eq!(
        support_reason(&decision(vec![UsefulnessReason::CustomerEscalation])),
        Some("customer_escalation")
    );
    assert_eq!(
        support_reason(&decision(vec![
            UsefulnessReason::CustomerEscalation,
            UsefulnessReason::SecurityRisk
        ])),
        Some("security_risk")
    );
}

#[test]
fn error_messages_describe_each_refusal() {
    assert_eq!(PipelineError::InvalidCredential.message(), "credential is invalid");
    assert_eq!(
        PipelineError::ConsentDenied.message(),
        "connector consent is absent, expired, revoked, or inconsistent"
    );
    assert_eq!(PipelineError::SyncMerge.message(), "preference merge failed");
}
