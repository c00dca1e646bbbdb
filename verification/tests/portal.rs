use idp_core::audit::AuditRecord;
use idp_core::model::{
    RequestContext, SsoGrant, TenantContext, TenantId, TotpSecret, User, UserStatus, Uuid,
};
use idp_core::portal_login::{
    sign_ticket, ticket_signature, verify_ticket, PortalCall, PortalChangePasswordCommand,
    PortalChangePasswordOutcome, PortalDraw, PortalLoginCommand, PortalLoginOutcome,
    PortalLoginService, PortalMfaCommand, PortalMfaOutcome, PortalProgress, PortalStep,
    MFA_TICKET_TTL_SECS,
};
use idp_core::time::{Span, Timestamp};

const SECRET: [u8; 32] = [7u8; 32];

fn tenant() -> Uuid {
    Uuid { value: 1 }
}

fn user_id() -> Uuid {
    Uuid { value: 2 }
}

#[test]
fn ticket_round_trips_within_ttl() {
    let exp = 1_000 + MFA_TICKET_TTL_SECS;
    let ticket = sign_ticket(&SECRET, tenant(), user_id(), exp);
    assert_eq!(verify_ticket(&SECRET, tenant(), &ticket, 1_000), Some(user_id()));
    assert_eq!(verify_ticket(&SECRET, tenant(), &ticket, exp), Some(user_id()));
}

#[test]
fn ticket_rejected_after_expiry() {
    let ticket = sign_ticket(&SECRET, tenant(), user_id(), 1_000);
    assert_eq!(verify_ticket(&SECRET, tenant(), &ticket, 1_001), None);
}

#[test]
fn ticket_rejected_for_other_tenant() {
    let ticket = sign_ticket(&SECRET, tenant(), user_id(), 5_000);
    assert_eq!(verify_ticket(&SECRET, Uuid { value: 99 }, &ticket, 1_000), None);
}

#[test]
fn ticket_rejected_with_tampered_signature() {
    let mut ticket = sign_ticket(&SECRET, tenant(), user_id(), 5_000);
    let last = ticket.pop().unwrap();
    ticket.push(if last == 'a' { 'b' } else { 'a' });
    assert_eq!(verify_ticket(&SECRET, tenant(), &ticket, 1_000), None);
}

#[test]
fn ticket_rejected_with_wrong_secret() {
    let ticket = sign_ticket(&SECRET, tenant(), user_id(), 5_000);
    assert_eq!(verify_ticket(&[9u8; 32], tenant(), &ticket, 1_000), None);
}

#[test]
fn a_ticket_names_tenant_user_expiry_and_signature() {
    let t = "00000000-0000-0000-0000-000000000001";
    let u = "00000000-0000-0000-0000-000000000002";
    let sig = ticket_signature(&SECRET, t, u, 5_000);
    assert_eq!(sig, "b701889944d74cc2f83621dac54cd39b9050e76bfc65b9bd51e93435450f5183");
    assert_eq!(sign_ticket(&SECRET, tenant(), user_id(), 5_000), format!("{t}.{u}.5000.{sig}"));
}

#[test]
fn malformed_tickets_admit_no_one() {
    let good = sign_ticket(&SECRET, tenant(), user_id(), 5_000);
    let parts: Vec<&str> = good.split('.').collect();
    for bad in [
        String::new(),
        parts[..3].join("."),
        format!("{good}.x"),
        format!("{}.{}.five.{}", parts[0], parts[1], parts[3]),
        format!("{}.{}.6000.{}", parts[0], parts[1], parts[3]),
        format!("{}.{}.5000.zz", parts[0], parts[1]),
        format!("{}.{}.5000.{}", parts[0], parts[0], parts[3]),
        format!("{good}0"),
    ] {
        assert_eq!(verify_ticket(&SECRET, tenant(), &bad, 1_000), None, "{bad}");
    }
    // An expiry with a plus sign reads as the same number, and upper case digits as the same bytes.
    let other = format!(
        "{}.{}.+5000.{}",
        parts[0],
        parts[1],
        parts[3].to_uppercase()
    );
    assert_eq!(verify_ticket(&SECRET, tenant(), &other, 1_000), Some(user_id()));
    // The signature holds, and yet its user is no identifier.
    let sig = ticket_signature(&SECRET, parts[0], "nobody", 5_000);
    let named = format!("{}.nobody.5000.{sig}", parts[0]);
    assert_eq!(verify_ticket(&SECRET, tenant(), &named, 1_000), None);
}

// ---------------------------------------------------------------------------
// Signing in

fn now() -> Timestamp {
    Timestamp::from_unix(1_700_000_000).unwrap()
}

struct Portal {
    user: Option<User>,
    totp: bool,
    rate_allowed: bool,
    sso: Vec<SsoGrant>,
    audits: Vec<AuditRecord>,
}

fn portal() -> Portal {
    Portal {
        user: Some(User {
            id: user_id(),
            sub: Uuid { value: 8 },
            tenant_id: TenantId { value: 1 },
            email: "user@example.com".to_string(),
            email_verified: true,
            preferred_username: Some("user".to_string()),
            name: None,
            language: Some("ja".to_string()),
            password_hash: "hash:old-password".to_string(),
            status: UserStatus::Active,
            must_change_password: false,
            failed_login_count: 0,
            locked_until: None,
        }),
        totp: false,
        rate_allowed: true,
        sso: vec![],
        audits: vec![],
    }
}

fn service() -> PortalLoginService {
    PortalLoginService::new([0x5a; 32], SECRET, Span::seconds(3600), Span::seconds(28800))
}

fn context() -> TenantContext {
    TenantContext { tenant_id: TenantId { value: 1 } }
}

fn request() -> RequestContext {
    RequestContext {
        correlation_id: "c".to_string(),
        ip_address: Some("203.0.113.10".to_string()),
        user_agent: Some("agent".to_string()),
    }
}

fn draw() -> PortalDraw {
    PortalDraw { now: now(), sso_session_id: "drawn-session".to_string() }
}

impl Portal {
    fn reasons(&self) -> Vec<String> {
        self.audits.iter().filter_map(|a| a.reason.as_ref().map(|r| r.text())).collect()
    }

    fn perform(&mut self, call: PortalCall, p: &mut PortalProgress) {
        match call {
            PortalCall::CheckRate { ip_address, .. } => {
                assert_eq!(ip_address, "203.0.113.10");
                p.rate_allowed = Some(self.rate_allowed);
            }
            PortalCall::FindUser { username, .. } => {
                p.user = Some(Ok(self.user.clone().filter(|_| username == "user")));
            }
            PortalCall::FindUserById { user_id } => {
                p.user = Some(Ok(self.user.clone().filter(|u| u.id == user_id)));
            }
            PortalCall::VerifyPassword { password, password_hash } => {
                p.password = Some(Ok(password_hash == format!("hash:{password}")));
            }
            PortalCall::ReadClock => p.failure_clock = Some(now()),
            PortalCall::UpdateLoginState { failed_login_count, locked_until, .. } => {
                let user = self.user.as_mut().unwrap();
                user.failed_login_count = failed_login_count;
                user.locked_until = locked_until;
                if failed_login_count == 0 {
                    p.failures_reset = Some(Ok(()));
                } else {
                    p.failure_saved = Some(Ok(()));
                }
            }
            PortalCall::HashPassword { password } => {
                p.new_hash = Some(Ok(format!("hash:{password}")));
            }
            PortalCall::UpdatePassword { password_hash, .. } => {
                let user = self.user.as_mut().unwrap();
                user.password_hash = password_hash;
                user.must_change_password = false;
                p.password_updated = Some(Ok(()));
            }
            PortalCall::FindTotp { .. } => {
                p.totp = Some(Ok(self.totp.then_some(TotpSecret {
                    secret_encrypted: "secret".to_string(),
                    confirmed_at: Some(now()),
                })));
            }
            PortalCall::VerifyTotp { key_encryption_key, code, .. } => {
                assert_eq!(key_encryption_key, [0x5a; 32]);
                p.totp_matches = Some(Ok(code == "123456"));
            }
            PortalCall::CreateSso(grant) => {
                self.sso.push(grant);
                p.sso_created = Some(Ok(()));
            }
            PortalCall::Audit(a) => {
                self.audits.push(a);
                p.audits += 1;
            }
        }
    }

    fn login(&mut self, username: &str, password: &str) -> PortalLoginOutcome {
        let cmd = PortalLoginCommand {
            username: username.to_string(),
            password: password.to_string(),
        };
        let mut p = PortalProgress::default();
        loop {
            match service().login(&context(), &cmd, &request(), &draw(), &p) {
                PortalStep::Call(call) => self.perform(call, &mut p),
                PortalStep::Done(outcome) => return outcome,
            }
        }
    }

    fn change(&mut self, current: &str, new: &str) -> PortalChangePasswordOutcome {
        let cmd = PortalChangePasswordCommand {
            username: "user".to_string(),
            current_password: current.to_string(),
            new_password: new.to_string(),
        };
        let mut p = PortalProgress::default();
        loop {
            match service().change_password(&context(), &cmd, &request(), &draw(), &p) {
                PortalStep::Call(call) => self.perform(call, &mut p),
                PortalStep::Done(outcome) => return outcome,
            }
        }
    }

    fn verify(&mut self, ticket: &str, code: &str) -> PortalMfaOutcome {
        let cmd = PortalMfaCommand { mfa_ticket: ticket.to_string(), totp_code: code.to_string() };
        let mut p = PortalProgress::default();
        loop {
            match service().verify_mfa(&context(), &cmd, &request(), &draw(), &p) {
                PortalStep::Call(call) => self.perform(call, &mut p),
                PortalStep::Done(outcome) => return outcome,
            }
        }
    }
}

#[test]
fn the_portal_signs_on_with_a_password() {
    let mut w = portal();
    w.user.as_mut().unwrap().failed_login_count = 3;
    let PortalLoginOutcome::Success { sso_session_id, user_language } =
        w.login("user", "old-password")
    else {
        panic!("must sign on");
    };
    assert_eq!(sso_session_id, "drawn-session");
    assert_eq!(user_language, Some("ja".to_string()));
    assert_eq!(w.user.as_ref().unwrap().failed_login_count, 0);
    assert_eq!(
        w.sso[0].session_hash,
        "28000a35dd58172baae478def93fbedf8e8e5b9f55537afdda50279a791de840"
    );
    assert_eq!(w.sso[0].user_agent, Some("agent".to_string()));
    assert_eq!(w.audits.len(), 2);
}

#[test]
fn the_portal_never_skips_the_second_factor() {
    let mut w = portal();
    w.totp = true;
    let PortalLoginOutcome::MfaRequired { mfa_ticket } = w.login("user", "old-password") else {
        panic!("must ask for the code");
    };
    assert!(w.sso.is_empty());
    assert!(matches!(w.verify(&mfa_ticket, "000000"), PortalMfaOutcome::InvalidCode));
    assert_eq!(w.reasons(), vec!["invalid_totp".to_string()]);
    assert!(matches!(w.verify("forged", "123456"), PortalMfaOutcome::TicketExpired));
    assert!(w.sso.is_empty());
    assert!(matches!(w.verify(&mfa_ticket, "123456"), PortalMfaOutcome::Success { .. }));
    assert_eq!(w.sso.len(), 1);
    w.totp = false;
    assert!(matches!(w.verify(&mfa_ticket, "123456"), PortalMfaOutcome::TicketExpired));
    w.totp = true;
    w.user.as_mut().unwrap().status = UserStatus::Disabled;
    assert!(matches!(w.verify(&mfa_ticket, "123456"), PortalMfaOutcome::TicketExpired));
    w.rate_allowed = false;
    assert!(matches!(w.verify(&mfa_ticket, "123456"), PortalMfaOutcome::RateLimited));
}

#[test]
fn a_portal_login_that_owes_its_code_keeps_the_counter() {
    let mut w = portal();
    w.totp = true;
    w.user.as_mut().unwrap().failed_login_count = 4;
    let PortalLoginOutcome::MfaRequired { mfa_ticket } = w.login("user", "old-password") else {
        panic!("must ask for the code");
    };
    assert_eq!(w.user.as_ref().unwrap().failed_login_count, 4);
    assert!(w.sso.is_empty());
    assert!(matches!(w.verify(&mfa_ticket, "000000"), PortalMfaOutcome::InvalidCode));
    assert_eq!(w.user.as_ref().unwrap().failed_login_count, 4);
    assert!(matches!(w.verify(&mfa_ticket, "123456"), PortalMfaOutcome::Success { .. }));
    assert_eq!(w.user.as_ref().unwrap().failed_login_count, 0);

    for unconfirmed in [true, false] {
        let mut w = portal();
        let user = w.user.as_mut().unwrap();
        user.failed_login_count = 4;
        user.email_verified = !unconfirmed;
        user.must_change_password = !unconfirmed;
        w.login("user", "old-password");
        assert_eq!(w.user.as_ref().unwrap().failed_login_count, 4);
    }

    let mut w = portal();
    w.totp = true;
    w.user.as_mut().unwrap().failed_login_count = 4;
    w.user.as_mut().unwrap().must_change_password = true;
    assert!(matches!(
        w.change("old-password", "new-password"),
        PortalChangePasswordOutcome::MfaRequired { .. }
    ));
    assert_eq!(w.user.as_ref().unwrap().failed_login_count, 4);
}

#[test]
fn a_full_counter_does_not_stop_a_right_password() {
    let mut w = portal();
    w.user.as_mut().unwrap().failed_login_count = i32::MAX;
    assert!(matches!(w.login("user", "old-password"), PortalLoginOutcome::Success { .. }));
    assert_eq!(w.user.as_ref().unwrap().failed_login_count, 0);
}

#[test]
fn an_issued_ticket_lasts_five_minutes() {
    let svc = service();
    let t = TenantId { value: 1 };
    let ticket = svc.issue_ticket(t, user_id(), now());
    assert_eq!(svc.verify_ticket(t, &ticket, now().plus(Span::seconds(300))), Some(user_id()));
    assert_eq!(svc.verify_ticket(t, &ticket, now().plus(Span::seconds(301))), None);
}

#[test]
fn the_tenth_failure_locks_the_account() {
    let mut w = portal();
    w.user.as_mut().unwrap().failed_login_count = 8;
    assert!(matches!(w.login("user", "wrong"), PortalLoginOutcome::InvalidCredentials));
    assert!(w.user.as_ref().unwrap().locked_until.is_none());
    assert!(matches!(w.login("user", "wrong"), PortalLoginOutcome::Locked));
    assert_eq!(
        w.user.as_ref().unwrap().locked_until,
        Some(now().plus(Span::seconds(15 * 60)))
    );
    assert!(matches!(w.login("user", "old-password"), PortalLoginOutcome::Locked));
    assert_eq!(
        w.reasons(),
        ["invalid_password", "invalid_password", "too_many_failures", "account_locked"]
    );
}

#[test]
fn every_refusal_of_the_portal() {
    let mut w = portal();
    w.rate_allowed = false;
    assert!(matches!(w.login("user", "old-password"), PortalLoginOutcome::RateLimited));
    w.rate_allowed = true;
    assert!(matches!(w.login("ghost", "x"), PortalLoginOutcome::InvalidCredentials));
    w.user.as_mut().unwrap().status = UserStatus::Disabled;
    assert!(matches!(w.login("user", "old-password"), PortalLoginOutcome::InvalidCredentials));
    w.user.as_mut().unwrap().status = UserStatus::Active;
    w.user.as_mut().unwrap().email_verified = false;
    assert!(matches!(
        w.login("user", "old-password"),
        PortalLoginOutcome::EmailVerificationRequired
    ));
    w.user.as_mut().unwrap().email_verified = true;
    w.user.as_mut().unwrap().must_change_password = true;
    assert!(matches!(
        w.login("user", "old-password"),
        PortalLoginOutcome::PasswordChangeRequired { username } if username == "user"
    ));
    assert_eq!(
        w.reasons(),
        ["ip_rate_limited", "unknown_user", "account_not_active", "email_not_verified"]
    );
    assert!(w.sso.is_empty());
}

#[test]
fn a_forced_change_ends_in_a_sign_on() {
    let mut w = portal();
    assert!(matches!(
        w.change("old-password", "new-password"),
        PortalChangePasswordOutcome::InvalidCredentials
    ));
    w.user.as_mut().unwrap().must_change_password = true;
    assert!(matches!(
        w.change("wrong", "new-password"),
        PortalChangePasswordOutcome::InvalidCredentials
    ));
    assert_eq!(w.user.as_ref().unwrap().failed_login_count, 1);
    assert!(matches!(
        w.change("old-password", "short"),
        PortalChangePasswordOutcome::WeakPassword
    ));
    assert!(matches!(
        w.change("old-password", "new-password"),
        PortalChangePasswordOutcome::Success { .. }
    ));
    assert_eq!(w.user.as_ref().unwrap().password_hash, "hash:new-password");
    assert_eq!(w.user.as_ref().unwrap().failed_login_count, 0);
    assert_eq!(w.sso.len(), 1);

    let mut w = portal();
    w.user.as_mut().unwrap().must_change_password = true;
    w.totp = true;
    assert!(matches!(
        w.change("old-password", "new-password"),
        PortalChangePasswordOutcome::MfaRequired { .. }
    ));
    assert!(w.sso.is_empty());
    let mut w = portal();
    w.user.as_mut().unwrap().must_change_password = true;
    w.user.as_mut().unwrap().email_verified = false;
    assert!(matches!(
        w.change("old-password", "new-password"),
        PortalChangePasswordOutcome::EmailVerificationRequired
    ));
    w.user.as_mut().unwrap().locked_until = Some(now().plus(Span::seconds(1)));
    assert!(matches!(
        w.change("old-password", "new-password"),
        PortalChangePasswordOutcome::Locked
    ));
}
