use idp_core::audit::AuditRecord;
use idp_core::code_flow::FlowStep;
use idp_core::login::{
    LoginCommand, LoginDraw, LoginOutcome, LoginProgress, LoginService, LoginStep,
};
use idp_core::model::{
    id_hash, AuthSession, ClientConsent, CodeChallengeMethod, DefaultPolicyEffect, LockoutPolicy,
    PolicyDecision, PolicyEvaluation, RequestContext, ResponseMode, SsoDraw, SsoSession,
    TenantContext, TenantId, TotpSecret, UnmetMethod, User, UserStatus, Uuid,
};
use idp_core::time::{Span, Timestamp};

const SESSION_ID: &str = "auth-session-id";
const CSRF_KEY: [u8; 32] = *b"unit-test-csrf-0123456789abcdef!";

fn token_of(session_id: &str) -> String {
    format!("token of {session_id}")
}

fn at(seconds: i64) -> Timestamp {
    Timestamp::from_unix(seconds).unwrap()
}

fn now() -> Timestamp {
    at(1_783_857_600)
}

/// What the store holds and what a caller sends.
struct World {
    user: Option<User>,
    session_hash: Option<String>,
    session_expires_at: Timestamp,
    scope: Vec<String>,
    consent: Option<Vec<String>>,
    totp_confirmed: bool,
    rate_allowed: bool,
    decision: fn() -> PolicyEvaluation,
    password: String,
    csrf: String,
    cookie: Option<String>,
    ip: Option<String>,
    sso: Vec<SsoSession>,
    audits: Vec<AuditRecord>,
    calls: Vec<&'static str>,
}

fn allow() -> PolicyEvaluation {
    PolicyEvaluation { decision: PolicyDecision::Allow, unmet: None }
}

fn deny() -> PolicyEvaluation {
    PolicyEvaluation {
        decision: PolicyDecision::Deny { policy_code: "p1".to_string() },
        unmet: None,
    }
}

fn require_mfa() -> PolicyEvaluation {
    PolicyEvaluation {
        decision: PolicyDecision::RequireMfa { policy_code: "p2".to_string() },
        unmet: None,
    }
}

fn require_passkey() -> PolicyEvaluation {
    PolicyEvaluation {
        decision: PolicyDecision::RequireSpecificMethod { policy_code: "p3".to_string() },
        unmet: Some(UnmetMethod {
            policy_code: "p3".to_string(),
            required: "webauthn".to_string(),
        }),
    }
}

fn world(has_totp: bool, initial_failures: i32) -> World {
    World {
        user: Some(User {
            id: Uuid { value: 7 },
            sub: Uuid { value: 8 },
            tenant_id: TenantId { value: 1 },
            email: "user@example.com".to_string(),
            email_verified: true,
            preferred_username: Some("user".to_string()),
            name: None,
            language: Some("ja".to_string()),
            password_hash: "hash:correct-password".to_string(),
            status: UserStatus::Active,
            must_change_password: false,
            failed_login_count: initial_failures,
            locked_until: None,
        }),
        session_hash: Some(id_hash(SESSION_ID)),
        session_expires_at: now().plus(Span::seconds(600)),
        scope: vec!["openid".to_string()],
        consent: None,
        totp_confirmed: has_totp,
        rate_allowed: true,
        decision: allow,
        password: "correct-password".to_string(),
        csrf: token_of(SESSION_ID),
        cookie: Some(SESSION_ID.to_string()),
        ip: Some("203.0.113.10".to_string()),
        sso: vec![],
        audits: vec![],
        calls: vec![],
    }
}

impl World {
    fn service(&self) -> LoginService {
        LoginService::new(
            Span::seconds(3600),
            Span::seconds(28800),
            LockoutPolicy { max_failed_attempts: 10, lock_duration_secs: 900 },
            DefaultPolicyEffect::Allow,
            CSRF_KEY,
        )
    }

    fn session(&self) -> Option<AuthSession> {
        self.session_hash.as_ref().map(|hash| AuthSession {
            id_hash: hash.clone(),
            tenant_id: TenantId { value: 1 },
            client_id: "client-a".to_string(),
            redirect_uri: "https://rp.example.com/cb".to_string(),
            response_mode: ResponseMode::Query,
            scope: self.scope.clone(),
            state: "state-1".to_string(),
            nonce: "nonce-1".to_string(),
            acr_values: None,
            login_hint: None,
            ui_locales: None,
            code_challenge: "challenge".to_string(),
            code_challenge_method: CodeChallengeMethod::S256,
            prompt: None,
            max_age: None,
            handle_hash: None,
            handle_expires_at: None,
            authenticated_user_id: None,
            auth_time: None,
            password_verified_at: None,
            sso_sid: None,
            expires_at: self.session_expires_at,
            created_at: now(),
            updated_at: now(),
        })
    }

    fn reasons(&self) -> Vec<String> {
        self.audits.iter().filter_map(|a| a.reason.as_ref().map(|r| r.text())).collect()
    }

    fn login(&mut self) -> LoginOutcome {
        let service = self.service();
        let tenant =
            TenantContext { tenant_id: TenantId { value: 1 } };
        let cmd = LoginCommand {
            auth_session_id: self.cookie.clone(),
            username: "user".to_string(),
            password: self.password.clone(),
            csrf_token: self.csrf.clone(),
        };
        let ctx = RequestContext {
            correlation_id: "test-correlation".to_string(),
            ip_address: self.ip.clone(),
            user_agent: None,
        };
        let draw = LoginDraw {
            now: now(),
            sso: SsoDraw { sso_session_id: "sso-cookie".to_string(), sid: "sid-1".to_string() },
            rotated_id: "rotated".to_string(),
        };
        let mut p = LoginProgress::default();
        loop {
            match service.login(&tenant, &cmd, &ctx, &draw, &p) {
                LoginStep::FindSession { tenant_id, id_hash } => {
                    self.calls.push("find_session");
                    let found = self
                        .session()
                        .filter(|s| s.tenant_id == tenant_id && s.id_hash == id_hash);
                    p.session = Some(Ok(found));
                }
                LoginStep::DeleteExpired { id_hash } => {
                    assert_eq!(self.session_hash.as_ref(), Some(&id_hash));
                    self.session_hash = None;
                    p.expired_deleted = true;
                }
                LoginStep::DeriveCsrf { auth_session_id, key } => {
                    assert_eq!(key, CSRF_KEY);
                    p.csrf_token = Some(token_of(&auth_session_id));
                }
                LoginStep::CheckRate { .. } => {
                    self.calls.push("check_rate");
                    p.rate_allowed = Some(self.rate_allowed);
                }
                LoginStep::FindUser { username, .. } => {
                    self.calls.push("find_user");
                    assert_eq!(username, "user");
                    p.user = Some(Ok(self.user.clone()));
                }
                LoginStep::VerifyPassword { password, password_hash } => {
                    self.calls.push("verify_password");
                    p.password = Some(Ok(password_hash == format!("hash:{password}")));
                }
                LoginStep::ReadClock => p.failure_clock = Some(now()),
                LoginStep::RecordFailure { lockout, now, .. } => {
                    let user = self.user.as_mut().unwrap();
                    user.failed_login_count += 1;
                    let locks = user.failed_login_count >= lockout.max_failed_attempts;
                    if locks {
                        user.locked_until =
                            Some(now.plus(Span::seconds(lockout.lock_duration_secs)));
                    }
                    p.failure_locked = Some(Ok(locks));
                }
                LoginStep::EvaluatePolicies(q) => {
                    self.calls.push("evaluate_policies");
                    assert_eq!(q.client_id.as_deref(), Some("client-a"));
                    p.policy = Some(Ok((self.decision)()));
                }
                LoginStep::FindTotp { .. } => {
                    let secret = TotpSecret {
                        secret_encrypted: "secret".to_string(),
                        confirmed_at: if self.totp_confirmed { Some(now()) } else { None },
                    };
                    p.totp = Some(Ok(Some(secret)));
                }
                LoginStep::MarkPasswordVerified { id_hash, new_id_hash, .. } => {
                    assert_eq!(self.session_hash.as_ref(), Some(&id_hash));
                    self.session_hash = Some(new_id_hash);
                    p.password_marked = Some(Ok(()));
                }
                LoginStep::ResetFailures { .. } => {
                    let user = self.user.as_mut().unwrap();
                    user.failed_login_count = 0;
                    user.locked_until = None;
                    p.failures_reset = Some(Ok(()));
                }
                LoginStep::CreateSso(grant) => {
                    self.sso.push(SsoSession::establish(grant));
                    p.sso_created = Some(Ok(()));
                }
                LoginStep::SetAuthenticated { id_hash, new_id_hash, sid, .. } => {
                    assert_eq!(self.session_hash.as_ref(), Some(&id_hash));
                    assert_eq!(sid, "sid-1");
                    self.session_hash = Some(new_id_hash);
                    p.authenticated = Some(Ok(()));
                }
                LoginStep::Flow(FlowStep::FindConsent { .. }) => {
                    p.flow.consent =
                        Some(Ok(self.consent.clone().map(|scope| ClientConsent { scope })));
                }
                LoginStep::Flow(FlowStep::IssueCode(c)) => {
                    assert_eq!(c.nonce, "nonce-1");
                    assert_eq!(c.sid.as_deref(), Some("sid-1"));
                    p.flow.code = Some(Ok("code-1".to_string()));
                }
                LoginStep::Flow(FlowStep::DeleteSession { id_hash }) => {
                    if self.session_hash.as_ref() == Some(&id_hash) {
                        self.session_hash = None;
                    }
                    p.flow.deleted = true;
                }
                LoginStep::Flow(FlowStep::RedirectCode { redirect_uri, code, state }) => {
                    p.flow.redirect = Some(format!("{redirect_uri}?code={code}&state={state}"));
                }
                LoginStep::Flow(_) => panic!("not a call"),
                LoginStep::Audit(a) => {
                    self.audits.push(a);
                    p.audits += 1;
                }
                LoginStep::Done(outcome) => return outcome,
            }
        }
    }
}

#[test]
fn session_identifiers_are_kept_as_sha_256() {
    assert_eq!(id_hash("abc"), "ba7816bf8f01cfea414140de5dae2223b00361a396177a9cb410ff61f20015ad");
}

#[test]
fn mfa_pending_login_keeps_the_failure_counter() {
    let mut h = world(true, 4);
    assert!(matches!(h.login(), LoginOutcome::MfaRequired { .. }));
    assert_eq!(h.user.unwrap().failed_login_count, 4);
}

#[test]
fn mfa_pending_login_rotates_the_auth_session_id() {
    let mut h = world(true, 0);
    let LoginOutcome::MfaRequired { auth_session_id } = h.login() else {
        panic!("expected MfaRequired");
    };
    assert_ne!(auth_session_id, SESSION_ID);
    assert_eq!(h.session_hash, Some(id_hash(&auth_session_id)));
    assert_ne!(h.session_hash, Some(auth_session_id));
    assert!(h.sso.is_empty());
}

#[test]
fn completed_login_deletes_the_session_through_the_rotated_id() {
    let mut h = world(false, 0);
    assert!(matches!(h.login(), LoginOutcome::Success { .. }));
    assert!(h.session_hash.is_none());
}

#[test]
fn completed_single_factor_login_resets_the_failure_counter() {
    let mut h = world(false, 4);
    assert!(matches!(h.login(), LoginOutcome::Success { .. }));
    assert_eq!(h.user.unwrap().failed_login_count, 0);
}

#[test]
fn a_completed_login_reports_where_to_go() {
    let mut h = world(false, 0);
    let LoginOutcome::Success { location, sso_session_id, user_language } = h.login() else {
        panic!("expected Success");
    };
    assert_eq!(location, "https://rp.example.com/cb?code=code-1&state=state-1");
    assert_eq!(sso_session_id, "sso-cookie");
    assert_eq!(user_language.as_deref(), Some("ja"));
    assert_eq!(h.sso.len(), 1);
    assert_eq!(h.sso[0].session_hash, id_hash("sso-cookie"));
    assert_eq!(h.sso[0].idle_expires_at, at(1_783_861_200));
    assert_eq!(h.sso[0].absolute_expires_at, at(1_783_886_400));
    assert_eq!(h.audits.len(), 2);
}

#[test]
fn scopes_beyond_openid_need_consent() {
    let mut h = world(false, 0);
    h.scope = vec!["openid".to_string(), "email".to_string()];
    let LoginOutcome::ConsentRequired { auth_session_id, .. } = h.login() else {
        panic!("expected ConsentRequired");
    };
    assert_eq!(auth_session_id, "rotated");
    assert_eq!(h.session_hash, Some(id_hash("rotated")));

    let mut h = world(false, 0);
    h.scope = vec!["openid".to_string(), "email".to_string()];
    h.consent = Some(vec!["profile".to_string()]);
    assert!(matches!(h.login(), LoginOutcome::ConsentRequired { .. }));

    let mut h = world(false, 0);
    h.scope = vec!["openid".to_string(), "email".to_string()];
    h.consent = Some(vec!["profile".to_string(), "email".to_string()]);
    assert!(matches!(h.login(), LoginOutcome::Success { .. }));
}

#[test]
fn a_session_must_be_there_and_live() {
    let mut h = world(false, 0);
    h.cookie = None;
    assert!(matches!(h.login(), LoginOutcome::SessionExpired));
    assert!(h.calls.is_empty());

    let mut h = world(false, 0);
    h.cookie = Some(String::new());
    assert!(matches!(h.login(), LoginOutcome::SessionExpired));

    let mut h = world(false, 0);
    h.session_hash = None;
    assert!(matches!(h.login(), LoginOutcome::SessionExpired));

    let mut h = world(false, 0);
    h.session_expires_at = now();
    assert!(matches!(h.login(), LoginOutcome::SessionExpired));
    assert!(h.session_hash.is_none());
    assert!(h.audits.is_empty());
}

#[test]
fn a_foreign_csrf_token_is_refused_before_the_limiter() {
    let mut h = world(false, 0);
    h.csrf = token_of("another-session");
    assert!(matches!(h.login(), LoginOutcome::CsrfMismatch));
    assert_eq!(h.reasons(), vec!["csrf_mismatch".to_string()]);
    assert_eq!(h.calls, vec!["find_session"]);
}

#[test]
fn the_limiter_stands_before_the_account() {
    let mut h = world(false, 0);
    h.rate_allowed = false;
    assert!(matches!(h.login(), LoginOutcome::RateLimited));
    assert_eq!(h.reasons(), vec!["ip_rate_limited".to_string()]);
    assert_eq!(h.calls, vec!["find_session", "check_rate"]);

    // Without an address there is nothing to limit by.
    let mut h = world(false, 0);
    h.rate_allowed = false;
    h.ip = None;
    assert!(matches!(h.login(), LoginOutcome::Success { .. }));
}

#[test]
fn unknown_inactive_and_wrong_look_alike() {
    let mut h = world(false, 0);
    h.user = None;
    assert!(matches!(h.login(), LoginOutcome::InvalidCredentials));
    assert_eq!(h.reasons(), vec!["unknown_user".to_string()]);

    let mut h = world(false, 0);
    h.user.as_mut().unwrap().status = UserStatus::Disabled;
    assert!(matches!(h.login(), LoginOutcome::InvalidCredentials));
    assert_eq!(h.reasons(), vec!["account_not_active".to_string()]);

    let mut h = world(false, 0);
    h.password = "wrong".to_string();
    assert!(matches!(h.login(), LoginOutcome::InvalidCredentials));
    assert_eq!(h.reasons(), vec!["invalid_password".to_string()]);
    assert_eq!(h.user.unwrap().failed_login_count, 1);
}

#[test]
fn the_last_failure_locks_and_a_lock_refuses() {
    let mut h = world(false, 9);
    h.password = "wrong".to_string();
    assert!(matches!(h.login(), LoginOutcome::Locked));
    assert_eq!(
        h.reasons(),
        vec!["invalid_password".to_string(), "too_many_failures".to_string()]
    );
    h.password = "correct-password".to_string();
    assert!(matches!(h.login(), LoginOutcome::Locked));
    assert_eq!(h.reasons().last().unwrap(), "account_locked");

    // A lock that has ended does not refuse.
    let mut h = world(false, 10);
    h.user.as_mut().unwrap().locked_until = Some(now());
    assert!(matches!(h.login(), LoginOutcome::Success { .. }));
    assert!(h.user.unwrap().locked_until.is_none());
}

#[test]
fn policies_and_gates_behind_the_password() {
    let mut h = world(false, 0);
    h.user.as_mut().unwrap().email_verified = false;
    assert!(matches!(h.login(), LoginOutcome::EmailVerificationRequired));
    assert_eq!(h.reasons(), vec!["email_not_verified".to_string()]);
    assert!(!h.calls.contains(&"evaluate_policies"));

    let mut h = world(true, 0);
    h.decision = deny;
    assert!(matches!(h.login(), LoginOutcome::PolicyDenied));
    assert_eq!(h.reasons(), vec!["policy=p1".to_string()]);

    let mut h = world(false, 0);
    h.decision = require_mfa;
    assert!(matches!(h.login(), LoginOutcome::MfaEnrollmentRequired));
    assert_eq!(h.reasons(), vec!["policy=p2 reason=mfa_not_enrolled".to_string()]);

    let mut h = world(true, 0);
    h.decision = require_mfa;
    assert!(matches!(h.login(), LoginOutcome::MfaRequired { .. }));

    let mut h = world(false, 0);
    h.decision = require_passkey;
    assert!(matches!(h.login(), LoginOutcome::PolicyDenied));
    assert_eq!(
        h.reasons(),
        vec!["policy=p3 reason=method_required required=webauthn".to_string()]
    );

    let mut h = world(true, 3);
    h.user.as_mut().unwrap().must_change_password = true;
    let LoginOutcome::PasswordChangeRequired { auth_session_id } = h.login() else {
        panic!("expected PasswordChangeRequired");
    };
    assert_eq!(h.session_hash, Some(id_hash(&auth_session_id)));
    assert_eq!(h.user.unwrap().failed_login_count, 3);
}

#[test]
fn a_failing_store_is_an_internal_error() {
    let h = world(false, 0);
    let tenant =
        TenantContext { tenant_id: TenantId { value: 1 } };
    let cmd = LoginCommand {
        auth_session_id: Some(SESSION_ID.to_string()),
        username: "user".to_string(),
        password: "x".to_string(),
        csrf_token: String::new(),
    };
    let ctx = RequestContext {
        correlation_id: String::new(),
        ip_address: None,
        user_agent: None,
    };
    let draw = LoginDraw {
        now: now(),
        sso: SsoDraw { sso_session_id: String::new(), sid: String::new() },
        rotated_id: String::new(),
    };
    let p = LoginProgress { session: Some(Err("db down".to_string())), ..Default::default() };
    let LoginStep::Done(LoginOutcome::Internal(m)) =
        h.service().login(&tenant, &cmd, &ctx, &draw, &p)
    else {
        panic!("expected Internal");
    };
    assert_eq!(m, "db down");
}
