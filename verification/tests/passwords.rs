use idp_core::audit::{AuditEventType, AuditRecord};
use idp_core::crypto::sha256_hex;
use idp_core::mail::{OutgoingEmail, SmtpServerConfig};
use idp_core::model::{RequestContext, TenantContext, TenantId, User, UserStatus, Uuid};
use idp_core::password_policy::{
    NoPasswordHistory, PasswordPolicy, PasswordPolicyService, PasswordRejection, PolicyProgress,
    PolicyStep, RecordStep,
};
use idp_core::password_reset::{
    PasswordResetService, PasswordResetToken, RequestProgress, RequestResetOutcome, RequestStep,
    ResetDraw, ResetPasswordOutcome, ResetProgress, ResetStep,
};
use idp_core::password_strength::validate_password_strength;
use idp_core::time::{Span, Timestamp};

// ---------------------------------------------------------------------------
// The policy

fn home() -> TenantId {
    TenantId { value: 0x0190_0000_0000_7000_8000_0000_0000_0001 }
}

/// The tenants' policies, and the hashes that were retired.
struct Policies {
    global: PasswordPolicy,
    own: Vec<(TenantId, PasswordPolicy)>,
    history: Vec<(Uuid, String)>,
    breached: bool,
}

fn build(global: PasswordPolicy, breached: bool) -> Policies {
    Policies { global, own: vec![], history: vec![], breached }
}

fn plain() -> PasswordPolicy {
    PasswordPolicy { min_length: 8, reject_breached: false, history_count: 0 }
}

fn remembering(history_count: u32) -> PasswordPolicy {
    PasswordPolicy { history_count, ..plain() }
}

impl Policies {
    fn policy(&self, tenant: TenantId) -> PasswordPolicy {
        self.own.iter().find(|(t, _)| *t == tenant).map(|(_, p)| *p).unwrap_or(self.global)
    }

    fn push(&mut self, user: Uuid, hash: &str, retain: u32) {
        self.history.push((user, hash.to_string()));
        let mut excess = self
            .history
            .iter()
            .filter(|(u, _)| *u == user)
            .count()
            .saturating_sub(retain as usize);
        self.history.retain(|(u, _)| {
            if *u == user && excess > 0 {
                excess -= 1;
                return false;
            }
            true
        });
    }

    fn recent(&self, user: Uuid, limit: u32) -> Vec<String> {
        self.history
            .iter()
            .rev()
            .filter(|(u, _)| *u == user)
            .map(|(_, h)| h.clone())
            .take(limit as usize)
            .collect()
    }

    fn answer(&self, step: PolicyStep, p: &mut PolicyProgress) -> Option<Result<(), PasswordRejection>> {
        let matches = |password: &str, hash: &str| hash == format!("hashed:{password}");
        match step {
            PolicyStep::LoadPolicy { tenant_id } => p.policy = Some(Ok(self.policy(tenant_id))),
            PolicyStep::CheckBreached { .. } => p.breached = Some(Ok(self.breached)),
            PolicyStep::VerifyCurrent { password, hash } => {
                p.is_current = Some(Ok(matches(&password, &hash)));
            }
            PolicyStep::RecentHashes { user_id, limit } => {
                p.recent = Some(Ok(self.recent(user_id, limit)));
            }
            PolicyStep::VerifyRetired { password, hash } => {
                p.is_retired.push(Ok(matches(&password, &hash)));
            }
            PolicyStep::Done(r) => return Some(r.unwrap()),
        }
        None
    }

    fn validate(
        &self,
        tenant: TenantId,
        user: Option<Uuid>,
        current: Option<&str>,
        password: &str,
    ) -> Result<(), PasswordRejection> {
        let svc = PasswordPolicyService::new();
        let current = current.map(|c| c.to_string());
        let mut p = PolicyProgress::default();
        loop {
            let step = svc.validate(tenant, user, &current, &password.to_string(), &p);
            if let Some(r) = self.answer(step, &mut p) {
                return r;
            }
        }
    }

    fn validate_input(&self, tenant: TenantId, password: &str) -> Result<(), PasswordRejection> {
        let svc = PasswordPolicyService::new();
        let mut p = PolicyProgress::default();
        loop {
            let step = svc.validate_input(tenant, &password.to_string(), &p);
            if let Some(r) = self.answer(step, &mut p) {
                return r;
            }
        }
    }

    fn record_change(&mut self, tenant: TenantId, user: Uuid, retired: &str) {
        let svc = PasswordPolicyService::new();
        let mut known = None;
        let mut pushed = false;
        loop {
            match svc.record_change(tenant, user, &retired.to_string(), now(), &known, pushed) {
                RecordStep::LoadPolicy { tenant_id } => known = Some(Ok(self.policy(tenant_id))),
                RecordStep::PushHistory { user_id, retired_hash, now: at, retain } => {
                    assert_eq!(at, now());
                    self.push(user_id, &retired_hash, retain);
                    pushed = true;
                }
                RecordStep::Done => return,
            }
        }
    }
}

fn strength(r: Result<(), PasswordRejection>) -> bool {
    matches!(r, Err(PasswordRejection::Strength(_)))
}

#[test]
fn rejects_a_password_that_is_too_short() {
    let w = build(plain(), false);
    assert!(strength(w.validate(home(), None, None, "short")));
}

#[test]
fn rejects_a_breached_password_only_when_the_policy_asks_for_it() {
    let w = build(plain(), true);
    assert!(w.validate(home(), None, None, "correct horse battery").is_ok());
    let w = build(PasswordPolicy { reject_breached: true, ..plain() }, true);
    assert!(matches!(
        w.validate(home(), None, None, "correct horse battery"),
        Err(PasswordRejection::Breached)
    ));
}

#[test]
fn rejects_the_current_password_when_history_is_enabled() {
    let w = build(remembering(1), false);
    let current = Some("hashed:currentpassword");
    assert!(matches!(
        w.validate(home(), None, current, "currentpassword"),
        Err(PasswordRejection::Reused)
    ));
    assert!(w.validate(home(), None, current, "anotherpassword").is_ok());
}

#[test]
fn history_count_one_does_not_look_at_retired_hashes() {
    let mut w = build(remembering(1), false);
    let user = Uuid { value: 21 };
    w.push(user, "hashed:oldpassword", 4);
    assert!(w.validate(home(), Some(user), Some("hashed:current"), "oldpassword").is_ok());
}

#[test]
fn rejects_a_retired_password_within_the_configured_depth() {
    let mut w = build(remembering(3), false);
    let user = Uuid { value: 21 };
    w.push(user, "hashed:retired1", 2);
    w.push(user, "hashed:retired2", 2);
    assert!(matches!(
        w.validate(home(), Some(user), Some("hashed:current"), "retired1"),
        Err(PasswordRejection::Reused)
    ));
    assert!(w.validate(home(), Some(user), Some("hashed:current"), "neverused").is_ok());
}

#[test]
fn another_users_history_does_not_block_a_password() {
    let mut w = build(remembering(3), false);
    w.push(Uuid { value: 21 }, "hashed:sharedpassword", 2);
    assert!(w
        .validate(home(), Some(Uuid { value: 22 }), Some("hashed:current"), "sharedpassword")
        .is_ok());
}

#[test]
fn record_change_prunes_to_the_configured_depth() {
    let mut w = build(remembering(3), false);
    let user = Uuid { value: 21 };
    for old in ["p1", "p2", "p3", "p4"] {
        w.record_change(home(), user, &format!("hashed:{old}"));
    }
    assert_eq!(w.recent(user, 10), vec!["hashed:p4".to_string(), "hashed:p3".to_string()]);
}

#[test]
fn each_tenant_is_judged_by_its_own_policy() {
    let strict = TenantId { value: 0x0190_0000_0000_7000_8000_0000_0000_00a1 };
    let lenient = TenantId { value: 0x0190_0000_0000_7000_8000_0000_0000_00a2 };
    let follower = TenantId { value: 0x0190_0000_0000_7000_8000_0000_0000_00a3 };
    let mut w = build(PasswordPolicy { min_length: 10, ..plain() }, false);
    w.own.push((strict, PasswordPolicy { min_length: 16, ..plain() }));
    w.own.push((lenient, PasswordPolicy { min_length: 6, ..plain() }));
    let password = "abcdefghijkl";
    assert!(strength(w.validate_input(strict, password)));
    assert!(w.validate_input(lenient, password).is_ok());
    assert!(w.validate_input(follower, password).is_ok());
    let short = "abcdefgh";
    assert!(w.validate_input(lenient, short).is_ok());
    assert!(strength(w.validate_input(follower, short)));
}

#[test]
fn history_depth_follows_the_users_home_tenant() {
    let keeps = TenantId { value: 0x0190_0000_0000_7000_8000_0000_0000_00b1 };
    let none = TenantId { value: 0x0190_0000_0000_7000_8000_0000_0000_00b2 };
    let mut w = build(plain(), false);
    w.own.push((keeps, remembering(3)));
    w.own.push((none, remembering(0)));
    let current = Some("hashed:currentpassword");
    assert!(matches!(
        w.validate(keeps, None, current, "currentpassword"),
        Err(PasswordRejection::Reused)
    ));
    assert!(w.validate(none, None, current, "currentpassword").is_ok());
}

#[test]
fn how_deep_a_policy_looks_back() {
    assert!(!remembering(0).checks_history());
    assert!(remembering(1).checks_history());
    assert_eq!(remembering(0).retired_hashes_to_check(), 0);
    assert_eq!(remembering(1).retired_hashes_to_check(), 0);
    assert_eq!(remembering(3).retired_hashes_to_check(), 2);
    assert_eq!(remembering(3).retained_history_len(), 2);
    assert!(NoPasswordHistory.push(Uuid { value: 1 }, "h", now(), 3).is_ok());
    assert_eq!(NoPasswordHistory.recent(Uuid { value: 1 }, 3), Ok(vec![]));
}

#[test]
fn lengths_are_counted_in_characters() {
    assert!(plain().validate_length("あいうえおかきく").is_ok());
    assert!(plain().validate_length("あいうえおかき").is_err());
    assert!(validate_password_strength("12345678").is_ok());
    assert!(validate_password_strength("1234567").is_err());
}

#[test]
fn the_checks_of_a_policy_may_be_split() {
    let svc = PasswordPolicyService::new();
    let p = PolicyProgress { policy: Some(Ok(remembering(2))), ..Default::default() };
    let password = "x".to_string();
    // The reuse check alone does not mind a short password.
    assert!(matches!(
        svc.validate_reuse(home(), None, &Some("h".to_string()), &password, &p),
        PolicyStep::VerifyCurrent { hash, .. } if hash == "h"
    ));
    assert!(matches!(
        svc.validate_reuse(home(), Some(Uuid { value: 1 }), &None, &password, &p),
        PolicyStep::RecentHashes { limit: 1, .. }
    ));
    // Where no history is kept, none is asked for.
    let p = PolicyProgress { policy: Some(Ok(plain())), ..Default::default() };
    assert!(matches!(
        PasswordPolicyService::without_history().validate(
            home(),
            Some(Uuid { value: 1 }),
            &Some("h".to_string()),
            &"long enough".to_string(),
            &p
        ),
        PolicyStep::Done(Ok(Ok(())))
    ));
    let p = PolicyProgress { policy: Some(Err("down".to_string())), ..Default::default() };
    assert!(matches!(
        svc.validate(home(), None, &None, &password, &p),
        PolicyStep::Done(Err(m)) if m == "down"
    ));
}

// ---------------------------------------------------------------------------
// Resetting

fn now() -> Timestamp {
    Timestamp::from_unix(1_767_225_600).unwrap()
}

fn request() -> RequestContext {
    RequestContext {
        correlation_id: "c".to_string(),
        ip_address: Some("203.0.113.5".to_string()),
        user_agent: None,
    }
}

fn at(tenant: u128) -> TenantContext {
    TenantContext { tenant_id: TenantId { value: tenant } }
}

struct Accounts {
    smtp: bool,
    rate_left: usize,
    users: Vec<User>,
    tokens: Vec<PasswordResetToken>,
    mails: Vec<OutgoingEmail>,
    ended: Vec<(&'static str, Uuid)>,
    audits: Vec<AuditRecord>,
    drawn: usize,
}

fn harness(smtp: bool, rate_left: usize) -> Accounts {
    Accounts {
        smtp,
        rate_left,
        users: vec![],
        tokens: vec![],
        mails: vec![],
        ended: vec![],
        audits: vec![],
        drawn: 0,
    }
}

fn test_user(id: u128, tenant: u128, email: &str) -> User {
    User {
        id: Uuid { value: id },
        sub: Uuid { value: id + 100 },
        tenant_id: TenantId { value: tenant },
        email: email.to_string(),
        email_verified: true,
        preferred_username: None,
        name: None,
        language: None,
        password_hash: "hash:old-password".to_string(),
        status: UserStatus::Active,
        must_change_password: false,
        failed_login_count: 0,
        locked_until: None,
    }
}

fn reset_service() -> PasswordResetService {
    PasswordResetService::new(Span::seconds(3600), "https://idp.example.com".to_string())
}

impl Accounts {
    fn request_reset(&mut self, tenant: u128, email: &str) -> RequestResetOutcome {
        self.drawn += 1;
        let draw =
            ResetDraw { asked_at: now(), now: now(), token: format!("drawn-token-{}", self.drawn) };
        let mut p = RequestProgress::default();
        loop {
            match reset_service().request_reset(&at(tenant), email, &request(), &draw, &p) {
                RequestStep::CheckRate { key, .. } => {
                    assert_eq!(key, "203.0.113.5");
                    p.rate_allowed = Some(self.rate_left > 0);
                    self.rate_left = self.rate_left.saturating_sub(1);
                }
                RequestStep::FindSmtpServer => {
                    p.server = Some(Ok(self.smtp.then_some(SmtpServerConfig {
                        host: "smtp.example.com".to_string(),
                        port: Some(587),
                        username: "u".to_string(),
                        password: "p".to_string(),
                        from_address: "noreply@example.com".to_string(),
                        use_tls: true,
                    })));
                }
                RequestStep::FindUser { tenant_id, email } => {
                    p.user = Some(Ok(self
                        .users
                        .iter()
                        .find(|u| u.tenant_id == tenant_id && u.email == email)
                        .cloned()));
                }
                RequestStep::VoidFormerTokens { user_id, now } => {
                    for t in self.tokens.iter_mut() {
                        if t.user_id == user_id && t.used_at.is_none() {
                            t.used_at = Some(now);
                        }
                    }
                    p.former_voided = Some(Ok(()));
                }
                RequestStep::StoreToken(t) => {
                    self.tokens.push(t);
                    p.token_stored = Some(Ok(()));
                }
                RequestStep::Audit(a) => {
                    self.audits.push(a);
                    p.audits += 1;
                }
                RequestStep::Send { mail, .. } => {
                    self.mails.push(mail);
                    p.sent = true;
                }
                RequestStep::Done(o) => return o,
            }
        }
    }

    fn reset_password(&mut self, tenant: u128, token: &str, new: &str) -> ResetPasswordOutcome {
        let mut p = ResetProgress::default();
        loop {
            match reset_service().reset_password(&at(tenant), token, &new.to_string(), now(), &p) {
                ResetStep::ConsumeToken { token_hash, now } => {
                    let row = self.tokens.iter_mut().find(|t| {
                        t.token_hash == token_hash && t.used_at.is_none() && now.before(t.expires_at)
                    });
                    p.consumed = Some(Ok(row.map(|t| {
                        t.used_at = Some(now);
                        t.user_id
                    })));
                }
                ResetStep::FindUser { user_id } => {
                    p.user = Some(Ok(self.users.iter().find(|u| u.id == user_id).cloned()));
                }
                ResetStep::HashPassword { password } => {
                    p.new_hash = Some(Ok(format!("hash:{password}")));
                }
                ResetStep::UpdatePassword { user_id, password_hash } => {
                    self.users.iter_mut().find(|u| u.id == user_id).unwrap().password_hash =
                        password_hash;
                    p.password_updated = Some(Ok(()));
                }
                ResetStep::EndSsoSessions { user_id } => {
                    self.ended.push(("sso", user_id));
                    p.sso_ended = true;
                }
                ResetStep::RevokeRefreshTokens { user_id, .. } => {
                    self.ended.push(("refresh", user_id));
                    p.refresh_revoked = true;
                }
                ResetStep::RevokeCodes { user_id, .. } => {
                    self.ended.push(("codes", user_id));
                    p.codes_revoked = true;
                }
                ResetStep::Audit(a) => {
                    self.audits.push(a);
                    p.audits += 1;
                }
                ResetStep::Done(o) => return o,
            }
        }
    }
}

fn token_from_mail(mail: &OutgoingEmail) -> String {
    let body = &mail.body_text;
    let start = body.find("token=").unwrap() + "token=".len();
    body[start..].split_whitespace().next().unwrap().to_string()
}

#[test]
fn request_is_indistinguishable_for_unknown_accounts() {
    let mut h = harness(true, 100);
    h.users.push(test_user(5, 1, "known@example.com"));
    assert_eq!(h.request_reset(1, "known@example.com"), RequestResetOutcome::Accepted);
    assert_eq!(h.request_reset(1, "unknown@example.com"), RequestResetOutcome::Accepted);
    assert_eq!(h.mails.len(), 1);
    assert_eq!(h.mails[0].to, "known@example.com");
    assert!(h.mails[0].body_text.contains(
        "https://idp.example.com/00000000-0000-0000-0000-000000000001/password-reset?token="
    ));
    let token = token_from_mail(&h.mails[0]);
    assert_eq!(h.tokens.len(), 1);
    assert_eq!(h.tokens[0].token_hash, sha256_hex(&token));
    assert_ne!(h.tokens[0].token_hash, token);
    assert!(h.mails[0].body_text.ends_with("Expires at: 2026-01-01T01:00:00+00:00\n"));
}

#[test]
fn request_is_unavailable_without_smtp_and_rate_limited() {
    let mut h = harness(false, 100);
    assert_eq!(h.request_reset(1, "a@example.com"), RequestResetOutcome::Unavailable);
    let mut h = harness(true, 1);
    h.request_reset(1, "a@example.com");
    assert_eq!(h.request_reset(1, "a@example.com"), RequestResetOutcome::RateLimited);
}

#[test]
fn reset_updates_password_revokes_sessions_and_is_single_use() {
    let mut h = harness(true, 100);
    h.users.push(test_user(5, 1, "u@example.com"));
    h.request_reset(1, "u@example.com");
    let token = token_from_mail(&h.mails[0]);
    assert!(matches!(
        h.reset_password(1, &token, "new-password-123"),
        ResetPasswordOutcome::Completed
    ));
    assert_eq!(h.users[0].password_hash, "hash:new-password-123");
    let user = Uuid { value: 5 };
    assert_eq!(h.ended, vec![("sso", user), ("refresh", user), ("codes", user)]);
    assert!(h.audits.iter().any(|e| e.event == AuditEventType::PasswordResetRequested));
    assert!(h.audits.iter().any(|e| e.event == AuditEventType::PasswordResetCompleted));
    assert!(h
        .audits
        .iter()
        .all(|e| e.reason.as_ref().map(|r| !r.text().contains(&token)).unwrap_or(true)));
    assert!(matches!(
        h.reset_password(1, &token, "another-password-1"),
        ResetPasswordOutcome::InvalidOrExpired
    ));
}

#[test]
fn reset_rejects_other_tenant_and_weak_password_keeps_token() {
    let mut h = harness(true, 100);
    h.users.push(test_user(5, 1, "u@example.com"));
    h.request_reset(1, "u@example.com");
    let token = token_from_mail(&h.mails[0]);
    assert!(matches!(
        h.reset_password(1, &token, "short"),
        ResetPasswordOutcome::WeakPassword
    ));
    assert!(h.tokens[0].used_at.is_none());
    assert!(matches!(
        h.reset_password(2, &token, "new-password-123"),
        ResetPasswordOutcome::InvalidOrExpired
    ));
    assert_eq!(h.users[0].password_hash, "hash:old-password");
}

#[test]
fn new_request_invalidates_previous_token() {
    let mut h = harness(true, 100);
    h.users.push(test_user(5, 1, "u@example.com"));
    h.request_reset(1, "u@example.com");
    let first = token_from_mail(&h.mails[0]);
    h.request_reset(1, "u@example.com");
    let second = token_from_mail(&h.mails[1]);
    assert!(matches!(
        h.reset_password(1, &first, "new-password-123"),
        ResetPasswordOutcome::InvalidOrExpired
    ));
    assert!(matches!(
        h.reset_password(1, &second, "new-password-123"),
        ResetPasswordOutcome::Completed
    ));
}

#[test]
fn an_inactive_account_gets_no_mail() {
    let mut h = harness(true, 100);
    h.users.push(test_user(5, 1, "u@example.com"));
    h.users[0].status = UserStatus::Disabled;
    assert_eq!(h.request_reset(1, " u@example.com "), RequestResetOutcome::Accepted);
    assert!(h.mails.is_empty());
    assert!(matches!(
        h.reset_password(1, "", "new-password-123"),
        ResetPasswordOutcome::InvalidOrExpired
    ));
}
