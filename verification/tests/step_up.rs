use idp_core::audit::AuditRecord;
use idp_core::crypto::sha256_hex;
use idp_core::model::{
    AuthenticationMethod, RequestContext, SsoGrant, SsoSession, TenantContext, TenantId, TotpSecret,
    User, UserStatus, Uuid,
};
use idp_core::passkey_assertion::{PasskeyAssertionError, PasskeyFlow, VerifiedPasskeyUser};
use idp_core::step_up::{
    AuthenticationStrength, SensitiveOperation, StepUpCall, StepUpCheckOutcome, StepUpDecision,
    StepUpEvaluation, StepUpPasskeyVerifyCommand, StepUpProgress, StepUpService, StepUpStep,
    StepUpVerifyCommand, StepUpVerifyOutcome,
};
use idp_core::time::{Span, Timestamp};

const COOKIE: &str = "sso-cookie";
const CHANGE_PASSWORD: &str = "change_password";
const MANAGE_AUTHENTICATORS: &str = "manage_authenticators";
const USER: Uuid = Uuid { value: 1 };

fn now() -> Timestamp {
    Timestamp::from_unix(1_785_585_600).unwrap()
}

fn operation(name: &str) -> SensitiveOperation {
    SensitiveOperation { name: name.to_string() }
}

fn strength_of(methods: &[AuthenticationMethod]) -> AuthenticationStrength {
    if methods.contains(&AuthenticationMethod::WebAuthn) || methods.len() > 1 {
        AuthenticationStrength::MultiFactor
    } else {
        AuthenticationStrength::SingleFactor
    }
}

/// One signed-on user, and what is known of their authenticators.
struct World {
    auth_time: Timestamp,
    idle_expires_at: Timestamp,
    step_up_at: Option<Timestamp>,
    strength: AuthenticationStrength,
    has_totp: bool,
    usable_passkey: bool,
    passkey_owner: Option<Uuid>,
    user_status: UserStatus,
    rate_allowed: bool,
    step_ups: Vec<Vec<AuthenticationMethod>>,
    audits: Vec<AuditRecord>,
}

fn world(methods: &[AuthenticationMethod], age_hours: i64, has_totp: bool) -> World {
    World {
        auth_time: now().plus(Span::seconds(-age_hours * 3600)),
        idle_expires_at: now().plus(Span::seconds(3600)),
        step_up_at: None,
        strength: strength_of(methods),
        has_totp,
        usable_passkey: false,
        passkey_owner: Some(USER),
        user_status: UserStatus::Active,
        rate_allowed: true,
        step_ups: vec![],
        audits: vec![],
    }
}

fn tenant() -> TenantContext {
    TenantContext { tenant_id: TenantId { value: 9 } }
}

fn request() -> RequestContext {
    RequestContext {
        correlation_id: "c".to_string(),
        ip_address: Some("203.0.113.9".to_string()),
        user_agent: None,
    }
}

impl World {
    fn session(&self) -> SsoSession {
        let mut s = SsoSession::establish(SsoGrant {
            session_hash: sha256_hex(COOKIE),
            user_id: USER,
            now: self.auth_time,
            idle_ttl: Span::seconds(3600),
            absolute_ttl: Span::seconds(8 * 3600),
            methods: vec![AuthenticationMethod::Password],
            user_agent: None,
            ip_address: None,
        });
        s.idle_expires_at = self.idle_expires_at;
        s.absolute_expires_at = now().plus(Span::seconds(8 * 3600));
        s.step_up_at = self.step_up_at;
        s
    }

    fn required(&self, op: &str, has_second_factor: bool) -> AuthenticationStrength {
        if op == MANAGE_AUTHENTICATORS && has_second_factor {
            AuthenticationStrength::MultiFactor
        } else {
            AuthenticationStrength::SingleFactor
        }
    }

    fn perform(&mut self, call: StepUpCall, p: &mut StepUpProgress) {
        match call {
            StepUpCall::CheckRate { ip_address, .. } => {
                assert_eq!(ip_address, "203.0.113.9");
                p.rate_allowed = Some(self.rate_allowed);
            }
            StepUpCall::FindSession { session_hash } => {
                p.session = Some(Ok((session_hash == sha256_hex(COOKIE)).then_some(self.session())));
            }
            StepUpCall::FindUser { user_id } => {
                p.user = Some(Ok(Some(User {
                    id: user_id,
                    sub: Uuid { value: 3 },
                    tenant_id: TenantId { value: 9 },
                    email: "u@example.com".to_string(),
                    email_verified: true,
                    preferred_username: Some("u".to_string()),
                    name: None,
                    language: None,
                    password_hash: "hash:correct".to_string(),
                    status: self.user_status,
                    must_change_password: false,
                    failed_login_count: 0,
                    locked_until: None,
                })));
            }
            StepUpCall::VerifyPassword { password, password_hash } => {
                p.password = Some(Ok(password_hash == format!("hash:{password}")));
            }
            StepUpCall::FindTotp { .. } => p.totp = Some(Ok(self.totp())),
            StepUpCall::FindTotpAgain { .. } => p.totp_again = Some(Ok(self.totp())),
            StepUpCall::VerifyTotp { key_encryption_key, code, .. } => {
                assert_eq!(key_encryption_key, [0x5a; 32]);
                p.totp_matches = Some(Ok(code == "123456"));
            }
            StepUpCall::RequiredStrength { operation, max_age_secs, has_second_factor } => {
                assert_eq!(max_age_secs, 300);
                p.strength = Some(self.required(&operation, has_second_factor));
            }
            StepUpCall::Evaluate {
                session,
                step_up_at,
                operation,
                max_age_secs,
                has_second_factor,
                now,
            } => {
                assert_eq!((session.user_id, step_up_at), (USER, self.step_up_at));
                assert_eq!(session.methods, vec![AuthenticationMethod::Password]);
                let required_strength = self.required(&operation, has_second_factor);
                let proved_at = self.step_up_at.unwrap_or(self.auth_time);
                let stale = now.since(proved_at).nanos > Span::seconds(max_age_secs as i64).nanos;
                let decision = if required_strength == AuthenticationStrength::MultiFactor
                    && self.strength != AuthenticationStrength::MultiFactor
                {
                    StepUpDecision::SecondFactorRequired
                } else if stale {
                    StepUpDecision::ReauthenticationRequired
                } else {
                    StepUpDecision::Satisfied
                };
                p.evaluation = Some(StepUpEvaluation { decision, required_strength });
            }
            StepUpCall::FindUsablePasskey { .. } => {
                p.passkey_available = Some(Ok(self.usable_passkey));
            }
            StepUpCall::VerifyAssertion { flow, .. } => {
                assert!(flow == PasskeyFlow::StepUp);
                p.assertion = Some(match self.passkey_owner {
                    Some(user_id) => {
                        Ok(VerifiedPasskeyUser { user_id, auth_session_id_hash: None })
                    }
                    None => Err(PasskeyAssertionError::InvalidCredential),
                });
            }
            StepUpCall::RecordStepUp { methods, now, .. } => {
                self.step_up_at = Some(now);
                if strength_of(&methods) == AuthenticationStrength::MultiFactor {
                    self.strength = AuthenticationStrength::MultiFactor;
                }
                self.step_ups.push(methods);
                p.recorded = Some(Ok(()));
            }
            StepUpCall::Audit(a) => {
                self.audits.push(a);
                p.audits += 1;
            }
        }
    }

    fn totp(&self) -> Option<TotpSecret> {
        self.has_totp.then_some(TotpSecret {
            secret_encrypted: "secret".to_string(),
            confirmed_at: Some(now()),
        })
    }

    fn check(&mut self, op: &str) -> StepUpCheckOutcome {
        let mut p = StepUpProgress::default();
        loop {
            match StepUpService::new([0x5a; 32], 300).check(COOKIE, &operation(op), now(), &p) {
                StepUpStep::Call(call) => self.perform(call, &mut p),
                StepUpStep::Done(o) => return o,
            }
        }
    }

    fn verify(&mut self, op: &str, password: &str, code: Option<&str>) -> StepUpVerifyOutcome {
        let cmd = StepUpVerifyCommand {
            sso_session_id: COOKIE.to_string(),
            operation: operation(op),
            password: password.to_string(),
            totp_code: code.map(|c| c.to_string()),
        };
        let mut p = StepUpProgress::default();
        loop {
            match StepUpService::new([0x5a; 32], 300).verify(&tenant(), &cmd, &request(), now(), &p) {
                StepUpStep::Call(call) => self.perform(call, &mut p),
                StepUpStep::Done(o) => return o,
            }
        }
    }

    fn verify_with_passkey(&mut self) -> StepUpVerifyOutcome {
        let cmd = StepUpPasskeyVerifyCommand {
            sso_session_id: COOKIE.to_string(),
            operation: operation(MANAGE_AUTHENTICATORS),
            challenge_id: Uuid { value: 9 },
            credential: "{}".to_string(),
        };
        let mut p = StepUpProgress::default();
        loop {
            match StepUpService::new([0x5a; 32], 300).verify_with_passkey(&tenant(), &cmd, &request(), now(), &p)
            {
                StepUpStep::Call(call) => self.perform(call, &mut p),
                StepUpStep::Done(o) => return o,
            }
        }
    }
}

const PASSWORD: [AuthenticationMethod; 1] = [AuthenticationMethod::Password];

#[test]
fn a_fresh_session_satisfies_a_password_level_operation() {
    let mut w = world(&PASSWORD, 0, false);
    assert!(matches!(w.check(CHANGE_PASSWORD), StepUpCheckOutcome::Satisfied));
}

#[test]
fn managing_authenticators_needs_the_second_factor() {
    let mut w = world(&PASSWORD, 0, true);
    let StepUpCheckOutcome::ChallengeRequired { second_factor_required, .. } =
        w.check(MANAGE_AUTHENTICATORS)
    else {
        panic!("expected a challenge");
    };
    assert!(second_factor_required);
}

#[test]
fn managing_authenticators_without_an_enrolled_one_stays_single_factor() {
    let mut w = world(&PASSWORD, 0, false);
    assert!(matches!(w.check(MANAGE_AUTHENTICATORS), StepUpCheckOutcome::Satisfied));
}

#[test]
fn a_stale_session_is_refreshed_by_a_password_step_up() {
    let mut w = world(&PASSWORD, 4, false);
    assert!(matches!(
        w.check(CHANGE_PASSWORD),
        StepUpCheckOutcome::ChallengeRequired { second_factor_required: false, .. }
    ));
    assert!(matches!(w.verify(CHANGE_PASSWORD, "correct", None), StepUpVerifyOutcome::Confirmed));
    assert_eq!(w.step_ups, vec![vec![AuthenticationMethod::Password]]);
    assert!(matches!(w.check(CHANGE_PASSWORD), StepUpCheckOutcome::Satisfied));
}

#[test]
fn a_wrong_password_does_not_refresh_the_session() {
    let mut w = world(&PASSWORD, 4, false);
    assert!(matches!(
        w.verify(CHANGE_PASSWORD, "wrong", None),
        StepUpVerifyOutcome::InvalidCredentials
    ));
    assert!(w.step_ups.is_empty());
}

#[test]
fn a_multi_factor_operation_rejects_a_password_only_step_up() {
    let mut w = world(&PASSWORD, 0, true);
    assert!(matches!(
        w.verify(MANAGE_AUTHENTICATORS, "correct", None),
        StepUpVerifyOutcome::SecondFactorRequired
    ));
    assert!(w.step_ups.is_empty());
    assert!(matches!(
        w.verify(MANAGE_AUTHENTICATORS, "correct", Some("000000")),
        StepUpVerifyOutcome::InvalidCredentials
    ));
    assert!(matches!(
        w.verify(MANAGE_AUTHENTICATORS, "correct", Some("123456")),
        StepUpVerifyOutcome::Confirmed
    ));
    assert_eq!(
        w.step_ups,
        vec![vec![AuthenticationMethod::Password, AuthenticationMethod::Totp]]
    );
}

#[test]
fn an_expired_session_cannot_step_up() {
    let mut w = world(&PASSWORD, 4, false);
    w.idle_expires_at = now().plus(Span::seconds(-60));
    assert!(matches!(w.check(CHANGE_PASSWORD), StepUpCheckOutcome::SessionExpired));
    assert!(matches!(
        w.verify(CHANGE_PASSWORD, "correct", None),
        StepUpVerifyOutcome::SessionExpired
    ));
}

#[test]
fn a_passkey_satisfies_a_step_up_that_demands_two_factors() {
    let mut w = world(&PASSWORD, 4, true);
    w.usable_passkey = true;
    let StepUpCheckOutcome::ChallengeRequired { second_factor_required, passkey_available } =
        w.check(MANAGE_AUTHENTICATORS)
    else {
        panic!("expected a challenge");
    };
    assert!(second_factor_required);
    assert!(passkey_available);
    assert!(matches!(w.verify_with_passkey(), StepUpVerifyOutcome::Confirmed));
    assert_eq!(w.step_ups, vec![vec![AuthenticationMethod::WebAuthn]]);
    assert!(matches!(w.check(MANAGE_AUTHENTICATORS), StepUpCheckOutcome::Satisfied));
}

#[test]
fn a_passkey_belonging_to_someone_else_does_not_verify_this_session() {
    let mut w = world(&PASSWORD, 4, false);
    w.passkey_owner = Some(Uuid { value: 999 });
    assert!(matches!(w.verify_with_passkey(), StepUpVerifyOutcome::InvalidCredentials));
    assert!(w.step_ups.is_empty());
    assert_eq!(
        w.audits[0].reason.as_ref().unwrap().text(),
        "operation=manage_authenticators reason=other_user_passkey"
    );
}

#[test]
fn a_rejected_assertion_does_not_record_a_step_up() {
    let mut w = world(&PASSWORD, 4, false);
    w.passkey_owner = None;
    assert!(matches!(w.verify_with_passkey(), StepUpVerifyOutcome::InvalidCredentials));
    assert!(w.step_ups.is_empty());
}

#[test]
fn a_suspended_passkey_does_not_offer_the_passkey_route() {
    let mut w = world(&PASSWORD, 4, false);
    w.usable_passkey = false;
    let StepUpCheckOutcome::ChallengeRequired { passkey_available, .. } = w.check(CHANGE_PASSWORD)
    else {
        panic!("expected a challenge");
    };
    assert!(!passkey_available);
}

#[test]
fn a_disabled_user_or_a_flood_of_requests_steps_up_no_more() {
    let mut w = world(&PASSWORD, 4, false);
    w.user_status = UserStatus::Disabled;
    assert!(matches!(w.check(CHANGE_PASSWORD), StepUpCheckOutcome::SessionExpired));
    assert!(matches!(
        w.verify(CHANGE_PASSWORD, "correct", None),
        StepUpVerifyOutcome::SessionExpired
    ));
    assert!(matches!(w.verify_with_passkey(), StepUpVerifyOutcome::SessionExpired));
    w.rate_allowed = false;
    assert!(matches!(
        w.verify(CHANGE_PASSWORD, "correct", None),
        StepUpVerifyOutcome::RateLimited
    ));
    assert!(matches!(w.verify_with_passkey(), StepUpVerifyOutcome::RateLimited));
}
