use idp_core::audit::AuditRecord;
use idp_core::code_flow::FlowStep;
use idp_core::login::LoginDraw;
use idp_core::mfa_login::{
    user_has_confirmed_totp, MfaLoginCommand, MfaLoginOutcome, MfaLoginService, MfaProgress, MfaStep,
    PendingStep, TotpStep,
};
use idp_core::model::{
    id_hash, AuthSession, AuthenticationMethod, AuthenticatorType, CodeChallengeMethod,
    DefaultPolicyEffect, DomainError, LockoutPolicy, PolicyDecision, PolicyEvaluation,
    RequestContext, ResponseMode, SsoDraw, SsoGrant, TenantContext, TenantId, TotpSecret,
    UnmetMethod, User, UserStatus, Uuid,
};
use idp_core::time::{Span, Timestamp};

const SESSION_ID: &str = "auth-session-id";
const CSRF_SECRET: [u8; 32] = *b"unit-test-csrf-0123456789abcdef!";
const TEST_KEY: [u8; 32] = *b"unit-test-key-0123456789abcdef!!";

fn token_of(session_id: &str) -> String {
    format!("token of {session_id}")
}

fn now() -> Timestamp {
    Timestamp::from_unix(1_783_857_600).unwrap()
}

struct World {
    user: User,
    rate_left: usize,
    max_failed_attempts: i32,
    totp_code: &'static str,
    totp_blocked: bool,
    recovery_codes: Vec<&'static str>,
    email_codes: Vec<&'static str>,
    evaluation: fn() -> PolicyEvaluation,
    totp_lookups: usize,
    sso: Vec<SsoGrant>,
    audits: Vec<AuditRecord>,
}

fn allow() -> PolicyEvaluation {
    PolicyEvaluation { decision: PolicyDecision::Allow, unmet: None }
}

fn world(rate_left: usize, max_failed_attempts: i32) -> World {
    World {
        user: User {
            id: Uuid { value: 7 },
            sub: Uuid { value: 8 },
            tenant_id: TenantId { value: 1 },
            email: "user@example.com".to_string(),
            email_verified: true,
            preferred_username: Some("user".to_string()),
            name: None,
            language: None,
            password_hash: "hash".to_string(),
            status: UserStatus::Active,
            must_change_password: false,
            failed_login_count: 0,
            locked_until: None,
        },
        rate_left,
        max_failed_attempts,
        totp_code: "123456",
        totp_blocked: false,
        recovery_codes: vec![],
        email_codes: vec![],
        evaluation: allow,
        totp_lookups: 0,
        sso: vec![],
        audits: vec![],
    }
}

fn session(user: Uuid, pending: bool) -> AuthSession {
    AuthSession {
        id_hash: id_hash(SESSION_ID),
        tenant_id: TenantId { value: 1 },
        client_id: "client-a".to_string(),
        redirect_uri: "https://rp.example.com/cb".to_string(),
        response_mode: ResponseMode::Query,
        scope: vec!["openid".to_string()],
        state: "state-1".to_string(),
        nonce: "nonce-1".to_string(),
        acr_values: None,
        login_hint: None,
        ui_locales: None,
        code_challenge: "challenge".to_string(),
        code_challenge_method: CodeChallengeMethod::S256,
        prompt: None,
        max_age: None,
        handle_hash: None,
        handle_expires_at: None,
        authenticated_user_id: Some(user),
        auth_time: None,
        password_verified_at: if pending { Some(now()) } else { None },
        sso_sid: None,
        expires_at: now().plus(Span::seconds(600)),
        created_at: now(),
        updated_at: now(),
    }
}

fn service(max_failed_attempts: i32) -> MfaLoginService {
    MfaLoginService::new(
        Span::seconds(3600),
        Span::seconds(28800),
        LockoutPolicy { max_failed_attempts, lock_duration_secs: 900 },
        TEST_KEY,
        CSRF_SECRET,
        DefaultPolicyEffect::Allow,
    )
}

impl World {
    fn reasons(&self) -> Vec<String> {
        self.audits.iter().filter_map(|a| a.reason.as_ref().map(|r| r.text())).collect()
    }

    fn verify(&mut self, code: &str) -> MfaLoginOutcome {
        let service = service(self.max_failed_attempts);
        let tenant =
            TenantContext { tenant_id: TenantId { value: 1 } };
        let cmd = MfaLoginCommand {
            auth_session_id: Some(SESSION_ID.to_string()),
            totp_code: code.to_string(),
            csrf_token: token_of(SESSION_ID),
        };
        let ctx = RequestContext {
            correlation_id: "test-correlation".to_string(),
            ip_address: Some("203.0.113.10".to_string()),
            user_agent: None,
        };
        let draw = LoginDraw {
            now: now(),
            sso: SsoDraw { sso_session_id: "sso".to_string(), sid: "sid".to_string() },
            rotated_id: "rotated".to_string(),
        };
        let mut p = MfaProgress::default();
        loop {
            match service.verify(&tenant, &cmd, &ctx, &draw, &p) {
                MfaStep::FindSession { id_hash: hash, .. } => {
                    assert_eq!(hash, id_hash(SESSION_ID));
                    p.session = Some(Ok(Some(session(self.user.id, true))));
                }
                MfaStep::DeleteExpired { .. } => p.expired_deleted = true,
                MfaStep::DeriveCsrf { auth_session_id, key } => {
                    assert_eq!(key, CSRF_SECRET);
                    p.csrf_token = Some(token_of(&auth_session_id));
                }
                MfaStep::CheckRate { .. } => {
                    p.rate_allowed = Some(self.rate_left > 0);
                    self.rate_left = self.rate_left.saturating_sub(1);
                }
                MfaStep::FindUser { user_id } => {
                    assert_eq!(user_id, self.user.id);
                    p.user = Some(Ok(Some(self.user.clone())));
                }
                MfaStep::FindTotpBlocked { .. } => p.totp_blocked = Some(Ok(self.totp_blocked)),
                MfaStep::FindTotp { .. } => {
                    self.totp_lookups += 1;
                    p.totp = Some(Ok(Some(TotpSecret {
                        secret_encrypted: "secret".to_string(),
                        confirmed_at: Some(now()),
                    })));
                }
                MfaStep::VerifyTotp { secret_encrypted, key_encryption_key, code } => {
                    assert_eq!(key_encryption_key, TEST_KEY);
                    assert_eq!(secret_encrypted, "secret");
                    p.totp_matches = Some(Ok(code == self.totp_code));
                }
                MfaStep::ReadClock => p.code_clock = Some(now().plus(Span::seconds(2))),
                MfaStep::ConsumeCode { user_id, kind, code, now: at } => {
                    assert_eq!(user_id, self.user.id);
                    assert_eq!(at, now().plus(Span::seconds(2)));
                    let codes = if kind == AuthenticatorType::RecoveryCode {
                        &mut self.recovery_codes
                    } else {
                        &mut self.email_codes
                    };
                    let before = codes.len();
                    codes.retain(|c| *c != code);
                    let used = Some(Ok(codes.len() < before));
                    if kind == AuthenticatorType::RecoveryCode {
                        p.recovery_consumed = used;
                    } else {
                        p.email_consumed = used;
                    }
                }
                MfaStep::RecordFailure { lockout, now, .. } => {
                    self.user.failed_login_count += 1;
                    let locks = self.user.failed_login_count >= lockout.max_failed_attempts;
                    if locks {
                        self.user.locked_until =
                            Some(now.plus(Span::seconds(lockout.lock_duration_secs)));
                    }
                    p.failure_locked = Some(Ok(locks));
                }
                MfaStep::EvaluatePolicies(q) => {
                    assert_eq!(q.methods[0], AuthenticationMethod::Password);
                    assert!(!q.user_verified);
                    p.policy = Some(Ok((self.evaluation)()));
                }
                MfaStep::ResetFailures { .. } => {
                    self.user.failed_login_count = 0;
                    self.user.locked_until = None;
                    p.failures_reset = Some(Ok(()));
                }
                MfaStep::SetAuthenticated { new_id_hash, .. } => {
                    assert_eq!(new_id_hash, id_hash("rotated"));
                    p.authenticated = Some(Ok(()));
                }
                MfaStep::CreateSso(grant) => {
                    self.sso.push(grant);
                    p.sso_created = Some(Ok(()));
                }
                MfaStep::Flow(FlowStep::IssueCode(_)) => p.flow.code = Some(Ok("c".to_string())),
                MfaStep::Flow(FlowStep::DeleteSession { id_hash: hash }) => {
                    assert_eq!(hash, id_hash("rotated"));
                    p.flow.deleted = true;
                }
                MfaStep::Flow(FlowStep::RedirectCode { redirect_uri, code, state }) => {
                    p.flow.redirect = Some(format!("{redirect_uri}?code={code}&state={state}"));
                }
                MfaStep::Flow(_) => panic!("not expected"),
                MfaStep::Audit(a) => {
                    self.audits.push(a);
                    p.audits += 1;
                }
                MfaStep::Done(outcome) => return outcome,
            }
        }
    }
}

#[test]
fn rate_limited_before_totp_is_checked() {
    let mut h = world(1, 10);
    assert!(matches!(h.verify("000000"), MfaLoginOutcome::InvalidCode));
    assert_eq!(h.totp_lookups, 1);

    assert!(matches!(h.verify("000000"), MfaLoginOutcome::RateLimited));
    assert_eq!(h.totp_lookups, 1);
    assert_eq!(h.user.failed_login_count, 1);
    assert!(h.reasons().contains(&"ip_rate_limited".to_string()));
}

#[test]
fn invalid_code_increments_failed_count_and_locks_at_threshold() {
    let mut h = world(100, 3);
    assert!(matches!(h.verify("000000"), MfaLoginOutcome::InvalidCode));
    assert_eq!(h.user.failed_login_count, 1);
    assert!(h.user.locked_until.is_none());

    assert!(matches!(h.verify("000000"), MfaLoginOutcome::InvalidCode));
    assert_eq!(h.user.failed_login_count, 2);
    assert!(h.user.locked_until.is_none());

    assert!(matches!(h.verify("000000"), MfaLoginOutcome::Locked));
    assert_eq!(h.user.failed_login_count, 3);
    assert_eq!(h.user.locked_until, Some(now().plus(Span::seconds(900))));

    let reasons = h.reasons();
    assert_eq!(reasons.iter().filter(|r| *r == "invalid_totp").count(), 3);
    assert!(reasons.contains(&"too_many_failures".to_string()));
}

#[test]
fn locked_account_is_rejected_before_totp_is_checked() {
    let mut h = world(100, 10);
    h.user.locked_until = Some(now().plus(Span::seconds(60)));
    assert!(matches!(h.verify("123456"), MfaLoginOutcome::Locked));
    assert_eq!(h.totp_lookups, 0);
    assert!(h.reasons().contains(&"account_locked".to_string()));
}

#[test]
fn successful_verification_resets_failed_count() {
    let mut h = world(100, 10);
    h.user.failed_login_count = 2;
    assert!(matches!(h.verify("123456"), MfaLoginOutcome::Success { .. }));
    assert_eq!(h.user.failed_login_count, 0);
    assert!(h.user.locked_until.is_none());
    assert_eq!(h.sso.len(), 1);
    assert_eq!(h.sso[0].user_id, h.user.id);
    assert_eq!(
        h.sso[0].methods,
        vec![AuthenticationMethod::Password, AuthenticationMethod::Totp]
    );
}

#[test]
fn single_use_codes_serve_once_and_are_audited() {
    let mut h = world(100, 10);
    h.recovery_codes = vec!["aaaa-bbbb"];
    h.email_codes = vec!["777777"];
    assert!(matches!(h.verify("aaaa-bbbb"), MfaLoginOutcome::Success { .. }));
    assert_eq!(h.reasons()[0], "type=recovery_code");
    assert_eq!(h.audits.len(), 3);
    assert!(matches!(h.verify("aaaa-bbbb"), MfaLoginOutcome::InvalidCode));
    assert!(matches!(h.verify("777777"), MfaLoginOutcome::Success { .. }));
    assert_eq!(h.sso[1].methods[1], AuthenticationMethod::EmailOtp);
    assert!(h.reasons().contains(&"type=email_otp".to_string()));
}

#[test]
fn a_suspended_totp_is_not_accepted() {
    let mut h = world(100, 10);
    h.totp_blocked = true;
    assert!(matches!(h.verify("123456"), MfaLoginOutcome::InvalidCode));
}

fn deny() -> PolicyEvaluation {
    PolicyEvaluation { decision: PolicyDecision::Deny { policy_code: "p".to_string() }, unmet: None }
}

fn unmet() -> PolicyEvaluation {
    PolicyEvaluation {
        decision: PolicyDecision::RequireSpecificMethod { policy_code: "p".to_string() },
        unmet: Some(UnmetMethod { policy_code: "p".to_string(), required: "webauthn".to_string() }),
    }
}

#[test]
fn policies_are_evaluated_on_the_methods_used() {
    let mut h = world(100, 10);
    h.user.failed_login_count = 2;
    h.evaluation = deny;
    assert!(matches!(h.verify("123456"), MfaLoginOutcome::PolicyDenied));
    assert_eq!(h.reasons(), vec!["policy_denied".to_string()]);
    assert_eq!(h.user.failed_login_count, 2);

    let mut h = world(100, 10);
    h.evaluation = unmet;
    assert!(matches!(h.verify("123456"), MfaLoginOutcome::PolicyDenied));
    assert_eq!(h.reasons(), vec!["method_required".to_string()]);
    assert!(h.sso.is_empty());
}

#[test]
fn an_inactive_user_is_an_internal_error() {
    let mut h = world(100, 10);
    h.user.status = UserStatus::Disabled;
    let MfaLoginOutcome::Internal(m) = h.verify("123456") else {
        panic!("expected Internal");
    };
    assert_eq!(m, "user not active");
}

#[test]
fn who_waits_for_a_second_factor() {
    let svc = service(10);
    let user = Uuid { value: 7 };
    let tenant =
        TenantContext { tenant_id: TenantId { value: 1 } };
    let late = now().plus(Span::seconds(600));
    for (found, at, waits, pending) in [
        (Ok(Some(session(user, true))), now(), Some(user), true),
        (Ok(Some(session(user, false))), now(), None, false),
        (Ok(Some(session(user, true))), late, None, true),
        (Ok(None), now(), None, false),
        (Err("down".to_string()), now(), None, false),
    ] {
        let found = Some(found);
        let PendingStep::Done(who) = svc.pending_mfa_user(&tenant, SESSION_ID, at, &found) else {
            panic!("the session is known");
        };
        assert_eq!(who, waits);
        let PendingStep::Done(is) = svc.has_mfa_pending(&tenant, SESSION_ID, &found) else {
            panic!("the session is known");
        };
        assert_eq!(is, pending);
    }
    let PendingStep::FindSession { tenant_id, id_hash: hash } =
        svc.pending_mfa_user(&tenant, SESSION_ID, now(), &None)
    else {
        panic!("the session is not known");
    };
    assert_eq!((tenant_id, hash), (TenantId { value: 1 }, id_hash(SESSION_ID)));
    let PendingStep::FindSession { tenant_id, id_hash: hash } =
        svc.has_mfa_pending(&tenant, SESSION_ID, &None)
    else {
        panic!("the session is not known");
    };
    assert_eq!((tenant_id, hash), (TenantId { value: 1 }, id_hash(SESSION_ID)));
}

#[test]
fn who_has_set_up_time_based_codes() {
    let user = Uuid { value: 7 };
    let secret = |confirmed_at| TotpSecret { secret_encrypted: String::new(), confirmed_at };
    assert!(matches!(
        user_has_confirmed_totp(user, &None),
        TotpStep::FindTotp { user_id } if user_id == user
    ));
    assert!(matches!(user_has_confirmed_totp(user, &Some(Ok(None))), TotpStep::Done(Ok(false))));
    assert!(matches!(
        user_has_confirmed_totp(user, &Some(Ok(Some(secret(None))))),
        TotpStep::Done(Ok(false))
    ));
    assert!(matches!(
        user_has_confirmed_totp(user, &Some(Ok(Some(secret(Some(now())))))),
        TotpStep::Done(Ok(true))
    ));
    assert!(matches!(
        user_has_confirmed_totp(user, &Some(Err(DomainError::Repository("down".to_string())))),
        TotpStep::Done(Err(DomainError::Repository(m))) if m == "down"
    ));
}

#[test]
fn a_session_without_a_password_waits_for_nothing() {
    let svc = service(10);
    let tenant =
        TenantContext { tenant_id: TenantId { value: 1 } };
    let ctx =
        RequestContext { correlation_id: String::new(), ip_address: None, user_agent: None };
    let draw = LoginDraw {
        now: now(),
        sso: SsoDraw { sso_session_id: String::new(), sid: String::new() },
        rotated_id: String::new(),
    };
    let mut cmd = MfaLoginCommand {
        auth_session_id: Some(SESSION_ID.to_string()),
        totp_code: "1".to_string(),
        csrf_token: String::new(),
    };
    let p = MfaProgress {
        session: Some(Ok(Some(session(Uuid { value: 7 }, false)))),
        ..Default::default()
    };
    assert!(matches!(
        svc.verify(&tenant, &cmd, &ctx, &draw, &p),
        MfaStep::Done(MfaLoginOutcome::SessionExpired)
    ));
    let p = MfaProgress {
        session: Some(Ok(Some(session(Uuid { value: 7 }, true)))),
        csrf_token: Some(token_of(SESSION_ID)),
        ..Default::default()
    };
    assert!(matches!(
        svc.verify(&tenant, &cmd, &ctx, &draw, &p),
        MfaStep::Done(MfaLoginOutcome::CsrfMismatch)
    ));
    cmd.auth_session_id = None;
    assert!(matches!(
        svc.verify(&tenant, &cmd, &ctx, &draw, &p),
        MfaStep::Done(MfaLoginOutcome::SessionExpired)
    ));
}
