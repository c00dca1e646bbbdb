//! The second factor of a sign-in.
//!
//! The password was shown before; the authorization session says so. The limiter and the account's
//! lock stand in front of every code that is tried, and a wrong code counts like a wrong password.
//! The failure counter is reset here, once the second factor and the policies are met.
use crate::audit::{AuditEventType, AuditReason, AuditRecord, AuditResult};
use crate::code_flow::{
    finish_flow, flow_rule, CodeDelivery, FlowProgress, FlowStep, FlowSubject,
};
use crate::crypto::{sha256_hex, sha256_hex_of};
use crate::login::{
    asks_policies, failure_audit, failure_entry, grants_sso, login_audit, login_entry, LoginDraw,
};
use crate::model::{
    both, id_hash, id_hash_of, non_empty, present, AuthSession, AuthenticationMethod,
    AuthenticatorType, DefaultPolicyEffect, DomainError, LockoutPolicy, PolicyDecision, PolicyEvaluation,
    PolicyQuery, Reply, RequestContext, SsoGrant, Stored, TenantContext, TenantId, TotpSecret, User,
    UserStatus, Uuid,
};
use crate::text::same;
use crate::time::{Span, Timestamp};
use vstd::prelude::*;

verus! {

pub enum MfaLoginOutcome {
    /// Authenticated, with consent: the code goes to the client.
    Success { location: String, sso_session_id: String, user_language: Option<String> },
    /// Authenticated; the user is asked for consent.
    ConsentRequired { auth_session_id: String, sso_session_id: String },
    /// There is no session that waits for a second factor.
    SessionExpired,
    CsrfMismatch,
    InvalidCode,
    RateLimited,
    Locked,
    PolicyDenied,
    Internal(String),
}

pub struct MfaLoginCommand {
    pub auth_session_id: Option<String>,
    pub totp_code: String,
    pub csrf_token: String,
}

/// What is known of a request so far.
#[derive(Default)]
pub struct MfaProgress {
    pub session: Reply<Option<AuthSession>>,
    /// Whether the removal of an expired session was carried out.
    pub expired_deleted: bool,
    /// The token that belongs to the session.
    pub csrf_token: Option<String>,
    pub rate_allowed: Option<bool>,
    pub user: Reply<Option<User>>,
    /// Whether the registry has suspended the user's time-based codes.
    pub totp_blocked: Reply<bool>,
    pub totp: Reply<Option<TotpSecret>>,
    /// Whether the code is the time-based one.
    pub totp_matches: Reply<bool>,
    /// The time at which the single-use codes are tried.
    pub code_clock: Option<Timestamp>,
    /// Whether the code was used up as a recovery code.
    pub recovery_consumed: Reply<bool>,
    /// Whether the code was used up as one sent by mail.
    pub email_consumed: Reply<bool>,
    /// Whether the failure that was recorded has locked the account.
    pub failure_locked: Reply<bool>,
    pub policy: Reply<PolicyEvaluation>,
    pub failures_reset: Reply<()>,
    pub authenticated: Reply<()>,
    pub sso_created: Reply<()>,
    pub flow: FlowProgress,
    /// How many audit entries were written.
    pub audits: usize,
}

/// What comes next: a call to make, or the outcome.
pub enum MfaStep {
    FindSession { tenant_id: TenantId, id_hash: String },
    DeleteExpired { id_hash: String },
    /// Derives the token that belongs to the session.
    DeriveCsrf { auth_session_id: String, key: [u8; 32] },
    CheckRate { ip_address: String, now: Timestamp },
    FindUser { user_id: Uuid },
    FindTotpBlocked { user_id: Uuid },
    FindTotp { user_id: Uuid },
    /// Decrypts the secret and compares the code with those of the moment.
    VerifyTotp { secret_encrypted: String, key_encryption_key: [u8; 32], code: String },
    /// Reads the time at which the single-use codes are tried.
    ReadClock,
    /// Uses up a single-use code of this kind, if the user has it and it is good at `now`.
    ConsumeCode { user_id: Uuid, kind: AuthenticatorType, code: String, now: Timestamp },
    RecordFailure { user_id: Uuid, lockout: LockoutPolicy, now: Timestamp },
    EvaluatePolicies(PolicyQuery),
    ResetFailures { user_id: Uuid },
    SetAuthenticated {
        id_hash: String,
        new_id_hash: String,
        user_id: Uuid,
        now: Timestamp,
        sid: String,
    },
    CreateSso(SsoGrant),
    Flow(FlowStep),
    Audit(AuditRecord),
    Done(MfaLoginOutcome),
}

/// How far the second factor is.
pub enum SecondFactor {
    /// Something is to be done first.
    Pending(MfaStep),
    /// The code was right, as this method.
    Passed(AuthenticationMethod),
    /// The code was wrong.
    NoMatch,
    Failed(String),
}

pub struct MfaLoginService {
    pub sso_idle_ttl: Span,
    pub sso_absolute_ttl: Span,
    pub lockout: LockoutPolicy,
    /// The key under which the secrets of time-based codes are stored.
    pub key_encryption_key: [u8; 32],
    pub csrf_secret: [u8; 32],
    pub policy_default_effect: DefaultPolicyEffect,
}

/// Whether a user has set up time-based codes.
pub open spec fn has_confirmed(secret: Option<TotpSecret>) -> bool {
    secret matches Some(s) && s.confirmed_at is Some
}

pub fn is_confirmed_secret(secret: &Option<TotpSecret>) -> (r: bool)
    ensures
        r == has_confirmed(*secret),
{
    match secret {
        Some(s) => s.is_confirmed(),
        None => false,
    }
}

/// How far the question is whether a user has set up time-based codes.
pub enum TotpStep {
    FindTotp { user_id: Uuid },
    Done(Result<bool, DomainError>),
}

/// Whether a user has set up time-based codes. An error of the store is handed on.
pub fn user_has_confirmed_totp(user_id: Uuid, found: &Stored<Option<TotpSecret>>) -> (r: TotpStep)
    ensures
        confirmed_totp_rule(user_id, *found, r),
{
    match found {
        None => TotpStep::FindTotp { user_id },
        Some(Err(e)) => TotpStep::Done(Err(e.clone())),
        Some(Ok(secret)) => TotpStep::Done(Ok(is_confirmed_secret(secret))),
    }
}

/// How far a question about an authorization session is.
pub enum PendingStep<T> {
    FindSession { tenant_id: TenantId, id_hash: String },
    Done(T),
}

/// Whose second factor a session waits for.
pub open spec fn pending_user_rule(
    tenant: TenantContext,
    auth_session_id: Seq<char>,
    now: Timestamp,
    session: Reply<Option<AuthSession>>,
    r: PendingStep<Option<Uuid>>,
) -> bool {
    match session {
        None => r matches PendingStep::FindSession { tenant_id, id_hash } && tenant_id
            == tenant.tenant_id && id_hash@ == id_hash_of(auth_session_id),
        Some(Ok(Some(s))) => r == PendingStep::Done(
            if s.expired_at(now) || s.password_verified_at is None {
                None
            } else {
                s.authenticated_user_id
            },
        ),
        Some(_) => r == PendingStep::Done(None::<Uuid>),
    }
}

/// Whether a session is one in which a password was shown.
pub open spec fn mfa_pending_rule(
    tenant: TenantContext,
    auth_session_id: Seq<char>,
    session: Reply<Option<AuthSession>>,
    r: PendingStep<bool>,
) -> bool {
    match session {
        None => r matches PendingStep::FindSession { tenant_id, id_hash } && tenant_id
            == tenant.tenant_id && id_hash@ == id_hash_of(auth_session_id),
        Some(Ok(Some(s))) => r == PendingStep::Done(
            s.password_verified_at is Some && s.authenticated_user_id is Some,
        ),
        Some(_) => r == PendingStep::Done(false),
    }
}

/// How far the question is whether a user has set up time-based codes, of whom `found` is known.
pub open spec fn confirmed_totp_rule(
    user_id: Uuid,
    found: Stored<Option<TotpSecret>>,
    r: TotpStep,
) -> bool {
    match found {
        None => r == (TotpStep::FindTotp { user_id }),
        Some(Err(e)) => r == TotpStep::Done(Err(e)),
        Some(Ok(secret)) => r == TotpStep::Done(Ok(has_confirmed(secret))),
    }
}

/// The audit entry for a single-use code that was used up.
pub open spec fn code_used_entry(
    tenant_id: TenantId,
    user_id: Uuid,
    kind: AuthenticatorType,
) -> AuditRecord {
    AuditRecord {
        event: AuditEventType::RecoveryCodeUsed,
        result: AuditResult::Success,
        tenant_id: Some(tenant_id),
        user_id: Some(user_id),
        client_id: None,
        reason: Some(AuditReason::Authenticator(kind)),
    }
}

/// The code as a single-use code: a recovery code first, then one sent by mail.
pub open spec fn single_use_factor(
    tenant_id: TenantId,
    user_id: Uuid,
    code: String,
    p: MfaProgress,
) -> SecondFactor {
    match (p.code_clock, p.recovery_consumed) {
        (None, _) => SecondFactor::Pending(MfaStep::ReadClock),
        (Some(now), None) => SecondFactor::Pending(
            MfaStep::ConsumeCode { user_id, kind: AuthenticatorType::RecoveryCode, code, now },
        ),
        (Some(_), Some(Err(e))) => SecondFactor::Failed(e),
        (Some(_), Some(Ok(true))) => if p.audits == 0 {
            SecondFactor::Pending(
                MfaStep::Audit(code_used_entry(tenant_id, user_id, AuthenticatorType::RecoveryCode)),
            )
        } else {
            SecondFactor::Passed(AuthenticationMethod::RecoveryCode)
        },
        (Some(now), Some(Ok(false))) => match p.email_consumed {
            None => SecondFactor::Pending(
                MfaStep::ConsumeCode { user_id, kind: AuthenticatorType::EmailOtp, code, now },
            ),
            Some(Err(e)) => SecondFactor::Failed(e),
            Some(Ok(true)) => if p.audits == 0 {
                SecondFactor::Pending(
                    MfaStep::Audit(code_used_entry(tenant_id, user_id, AuthenticatorType::EmailOtp)),
                )
            } else {
                SecondFactor::Passed(AuthenticationMethod::EmailOtp)
            },
            Some(Ok(false)) => SecondFactor::NoMatch,
        },
    }
}

/// The code is tried as a time-based one where the user has set that up and the registry has not
/// suspended it, and as a single-use code otherwise.
pub open spec fn second_factor(
    key_encryption_key: [u8; 32],
    tenant_id: TenantId,
    user_id: Uuid,
    code: String,
    p: MfaProgress,
) -> SecondFactor {
    match p.totp_blocked {
        None => SecondFactor::Pending(MfaStep::FindTotpBlocked { user_id }),
        Some(Err(e)) => SecondFactor::Failed(e),
        Some(Ok(blocked)) => match p.totp {
            None => SecondFactor::Pending(MfaStep::FindTotp { user_id }),
            Some(Err(e)) => SecondFactor::Failed(e),
            Some(Ok(secret)) => if has_confirmed(secret) && !blocked {
                match p.totp_matches {
                    None => SecondFactor::Pending(
                        MfaStep::VerifyTotp {
                            secret_encrypted: secret->0.secret_encrypted,
                            key_encryption_key,
                            code,
                        },
                    ),
                    Some(Err(e)) => SecondFactor::Failed(e),
                    Some(Ok(true)) => SecondFactor::Passed(AuthenticationMethod::Totp),
                    Some(Ok(false)) => single_use_factor(tenant_id, user_id, code, p),
                }
            } else {
                single_use_factor(tenant_id, user_id, code, p)
            },
        },
    }
}

/// How many audit entries the second factor itself has written.
pub open spec fn factor_audits(method: AuthenticationMethod) -> int {
    if method == AuthenticationMethod::Totp {
        0
    } else {
        1
    }
}

fn count_factor_audits(method: AuthenticationMethod) -> (r: usize)
    ensures
        r == factor_audits(method),
{
    if method == AuthenticationMethod::Totp {
        0
    } else {
        1
    }
}

fn code_used_audit(tenant_id: TenantId, user_id: Uuid, kind: AuthenticatorType) -> (r: AuditRecord)
    ensures
        r == code_used_entry(tenant_id, user_id, kind),
{
    AuditRecord {
        event: AuditEventType::RecoveryCodeUsed,
        result: AuditResult::Success,
        tenant_id: Some(tenant_id),
        user_id: Some(user_id),
        client_id: None,
        reason: Some(AuditReason::Authenticator(kind)),
    }
}

impl MfaLoginService {
    pub fn new(
        sso_idle_ttl: Span,
        sso_absolute_ttl: Span,
        lockout: LockoutPolicy,
        key_encryption_key: [u8; 32],
        csrf_secret: [u8; 32],
        policy_default_effect: DefaultPolicyEffect,
    ) -> (r: Self)
        ensures
            r.sso_idle_ttl == sso_idle_ttl,
            r.sso_absolute_ttl == sso_absolute_ttl,
            r.lockout == lockout,
            r.key_encryption_key == key_encryption_key,
            r.csrf_secret == csrf_secret,
            r.policy_default_effect == policy_default_effect,
    {
        MfaLoginService {
            sso_idle_ttl,
            sso_absolute_ttl,
            lockout,
            key_encryption_key,
            csrf_secret,
            policy_default_effect,
        }
    }

    /// The code is wrong: the failure is counted and audited; a lock that comes of it is audited
    /// too.
    pub open spec fn totp_failure_rule(
        self,
        tenant: TenantContext,
        draw: LoginDraw,
        p: MfaProgress,
        session: AuthSession,
        user: User,
        r: MfaStep,
    ) -> bool {
        match p.failure_locked {
            None => r == (MfaStep::RecordFailure {
                user_id: user.id,
                lockout: self.lockout,
                now: draw.now,
            }),
            Some(Err(e)) => r == MfaStep::Done(MfaLoginOutcome::Internal(e)),
            Some(Ok(locked)) => if p.audits == 0 {
                r == MfaStep::Audit(
                    failure_entry(
                        tenant.tenant_id,
                        Some(user.id),
                        session.client_id,
                        AuditReason::InvalidTotp,
                    ),
                )
            } else if !locked {
                r == MfaStep::Done(MfaLoginOutcome::InvalidCode)
            } else if p.audits == 1 {
                r == MfaStep::Audit(
                    login_entry(
                        AuditEventType::LoginLocked,
                        AuditResult::Failure,
                        tenant.tenant_id,
                        Some(user.id),
                        session.client_id,
                        Some(AuditReason::TooManyFailures),
                    ),
                )
            } else {
                r == MfaStep::Done(MfaLoginOutcome::Locked)
            },
        }
    }

    /// The end of an authenticated request.
    pub open spec fn end_rule(
        self,
        tenant: TenantContext,
        draw: LoginDraw,
        p: MfaProgress,
        session: AuthSession,
        user_id: Uuid,
        user: User,
        r: MfaStep,
    ) -> bool {
        let s = FlowSubject {
            tenant_id: tenant.tenant_id,
            user_id,
            now: draw.now,
            rotated_id: draw.rotated_id,
            sid: draw.sso.sid,
            delivery: CodeDelivery::Redirect,
        };
        exists|f: FlowStep| #[trigger]
            flow_rule(session, s, p.flow, f) && match f {
                FlowStep::ConsentRequired => r == MfaStep::Done(
                    MfaLoginOutcome::ConsentRequired {
                        auth_session_id: draw.rotated_id,
                        sso_session_id: draw.sso.sso_session_id,
                    },
                ),
                FlowStep::Failed(e) => r == MfaStep::Done(MfaLoginOutcome::Internal(e)),
                FlowStep::Complete { location, form_post } => r == MfaStep::Done(
                    MfaLoginOutcome::Success {
                        location,
                        sso_session_id: draw.sso.sso_session_id,
                        user_language: user.language,
                    },
                ),
                _ => r == MfaStep::Flow(f),
            }
    }

    /// The policies are met: the counter is reset where anything is on record, the session moves on
    /// under a new identifier, and the sign-on is created and audited.
    pub open spec fn sign_on_rule(
        self,
        tenant: TenantContext,
        ctx: RequestContext,
        draw: LoginDraw,
        p: MfaProgress,
        session: AuthSession,
        user_id: Uuid,
        user: User,
        method: AuthenticationMethod,
        r: MfaStep,
    ) -> bool {
        let audits = p.audits - factor_audits(method);
        if user.has_failures() && p.failures_reset is None {
            r == (MfaStep::ResetFailures { user_id: user.id })
        } else if user.has_failures() && p.failures_reset->0 is Err {
            r == MfaStep::Done(MfaLoginOutcome::Internal(p.failures_reset->0->Err_0))
        } else {
            match p.authenticated {
                None => r matches MfaStep::SetAuthenticated {
                    id_hash,
                    new_id_hash,
                    user_id: uid,
                    now,
                    sid,
                } && id_hash == session.id_hash && new_id_hash@ == id_hash_of(draw.rotated_id@)
                    && uid == user_id && now == draw.now && sid == draw.sso.sid,
                Some(Err(e)) => r == MfaStep::Done(MfaLoginOutcome::Internal(e)),
                Some(Ok(_)) => match p.sso_created {
                    None => r matches MfaStep::CreateSso(g) && grants_sso(
                        g,
                        self.sso_idle_ttl,
                        self.sso_absolute_ttl,
                        user_id,
                        draw.now,
                        draw.sso.sso_session_id@,
                        seq![AuthenticationMethod::Password, method],
                        ctx,
                    ),
                    Some(Err(e)) => r == MfaStep::Done(MfaLoginOutcome::Internal(e)),
                    Some(Ok(_)) => if audits <= 0 {
                        r == MfaStep::Audit(
                            login_entry(
                                AuditEventType::SsoSessionCreated,
                                AuditResult::Success,
                                tenant.tenant_id,
                                Some(user_id),
                                session.client_id,
                                None,
                            ),
                        )
                    } else if audits == 1 {
                        r == MfaStep::Audit(
                            login_entry(
                                AuditEventType::LoginSucceeded,
                                AuditResult::Success,
                                tenant.tenant_id,
                                Some(user_id),
                                session.client_id,
                                None,
                            ),
                        )
                    } else {
                        self.end_rule(tenant, draw, p, session, user_id, user, r)
                    },
                },
            }
        }
    }

    /// Both factors are shown: the policies are evaluated on the methods that were used.
    pub open spec fn policy_rule(
        self,
        tenant: TenantContext,
        ctx: RequestContext,
        draw: LoginDraw,
        p: MfaProgress,
        session: AuthSession,
        user_id: Uuid,
        user: User,
        method: AuthenticationMethod,
        r: MfaStep,
    ) -> bool {
        let refused = |reason: AuditReason|
            if p.audits <= factor_audits(method) {
                r == MfaStep::Audit(
                    failure_entry(tenant.tenant_id, Some(user_id), session.client_id, reason),
                )
            } else {
                r == MfaStep::Done(MfaLoginOutcome::PolicyDenied)
            };
        match p.policy {
            None => r matches MfaStep::EvaluatePolicies(q) && asks_policies(
                q,
                tenant.tenant_id,
                session,
                user_id,
                ctx,
                draw.now,
                self.policy_default_effect,
                seq![AuthenticationMethod::Password, method],
                false,
            ),
            Some(Err(e)) => r == MfaStep::Done(MfaLoginOutcome::Internal(e)),
            Some(Ok(eval)) => if eval.decision is Deny {
                refused(AuditReason::PolicyDenied)
            } else if eval.unmet is Some {
                refused(AuditReason::MethodRequired)
            } else {
                self.sign_on_rule(tenant, ctx, draw, p, session, user_id, user, method, r)
            },
        }
    }

    /// The session waits for a second factor and the limiter lets pass: the account and the code.
    pub open spec fn factor_rule(
        self,
        tenant: TenantContext,
        cmd: MfaLoginCommand,
        ctx: RequestContext,
        draw: LoginDraw,
        p: MfaProgress,
        session: AuthSession,
        user_id: Uuid,
        r: MfaStep,
    ) -> bool {
        match p.user {
            None => r == (MfaStep::FindUser { user_id }),
            Some(Err(e)) => r == MfaStep::Done(MfaLoginOutcome::Internal(e)),
            Some(Ok(None)) => r == MfaStep::Done(MfaLoginOutcome::SessionExpired),
            Some(Ok(Some(user))) => if user.locked_at(draw.now) {
                if p.audits == 0 {
                    r == MfaStep::Audit(
                        login_entry(
                            AuditEventType::LoginLocked,
                            AuditResult::Failure,
                            tenant.tenant_id,
                            Some(user.id),
                            session.client_id,
                            Some(AuditReason::AccountLocked),
                        ),
                    )
                } else {
                    r == MfaStep::Done(MfaLoginOutcome::Locked)
                }
            } else if !user.active() {
                r matches MfaStep::Done(MfaLoginOutcome::Internal(e)) && e@ == "user not active"@
            } else {
                match second_factor(
                    self.key_encryption_key,
                    tenant.tenant_id,
                    user_id,
                    cmd.totp_code,
                    p,
                ) {
                    SecondFactor::Pending(step) => r == step,
                    SecondFactor::Failed(e) => r == MfaStep::Done(MfaLoginOutcome::Internal(e)),
                    SecondFactor::NoMatch => self.totp_failure_rule(
                        tenant,
                        draw,
                        p,
                        session,
                        user,
                        r,
                    ),
                    SecondFactor::Passed(method) => self.policy_rule(
                        tenant,
                        ctx,
                        draw,
                        p,
                        session,
                        user_id,
                        user,
                        method,
                        r,
                    ),
                }
            },
        }
    }

    /// What comes next in the second step of a sign-in of which `p` is known.
    pub open spec fn verify_rule(
        self,
        tenant: TenantContext,
        cmd: MfaLoginCommand,
        ctx: RequestContext,
        draw: LoginDraw,
        p: MfaProgress,
        r: MfaStep,
    ) -> bool {
        match present(cmd.auth_session_id) {
            None => r == MfaStep::Done(MfaLoginOutcome::SessionExpired),
            Some(session_id) => match p.session {
                None => r matches MfaStep::FindSession { tenant_id, id_hash } && tenant_id
                    == tenant.tenant_id && id_hash@ == id_hash_of(session_id),
                Some(Err(e)) => r == MfaStep::Done(MfaLoginOutcome::Internal(e)),
                Some(Ok(None)) => r == MfaStep::Done(MfaLoginOutcome::SessionExpired),
                Some(Ok(Some(session))) => if session.expired_at(draw.now) {
                    if p.expired_deleted {
                        r == MfaStep::Done(MfaLoginOutcome::SessionExpired)
                    } else {
                        r == (MfaStep::DeleteExpired { id_hash: session.id_hash })
                    }
                } else if session.authenticated_user_id is None || session.password_verified_at is None {
                    r == MfaStep::Done(MfaLoginOutcome::SessionExpired)
                } else if p.csrf_token is None {
                    r matches MfaStep::DeriveCsrf { auth_session_id, key } && auth_session_id@
                        == session_id && key == self.csrf_secret
                } else if p.csrf_token->0@ != cmd.csrf_token@ {
                    r == MfaStep::Done(MfaLoginOutcome::CsrfMismatch)
                } else if ctx.ip_address is Some && p.rate_allowed is None {
                    r == (MfaStep::CheckRate { ip_address: ctx.ip_address->0, now: draw.now })
                } else if ctx.ip_address is Some && !p.rate_allowed->0 {
                    if p.audits == 0 {
                        r == MfaStep::Audit(
                            failure_entry(
                                tenant.tenant_id,
                                None,
                                session.client_id,
                                AuditReason::IpRateLimited,
                            ),
                        )
                    } else {
                        r == MfaStep::Done(MfaLoginOutcome::RateLimited)
                    }
                } else {
                    self.factor_rule(
                        tenant,
                        cmd,
                        ctx,
                        draw,
                        p,
                        session,
                        session.authenticated_user_id->0,
                        r,
                    )
                },
            },
        }
    }

    fn try_single_use(
        &self,
        tenant_id: TenantId,
        user_id: Uuid,
        code: &String,
        p: &MfaProgress,
    ) -> (r: SecondFactor)
        ensures
            r == single_use_factor(tenant_id, user_id, *code, *p),
    {
        let now: Timestamp = match p.code_clock {
            None => return SecondFactor::Pending(MfaStep::ReadClock),
            Some(now) => now,
        };
        match &p.recovery_consumed {
            None => return SecondFactor::Pending(
                MfaStep::ConsumeCode {
                    user_id,
                    kind: AuthenticatorType::RecoveryCode,
                    code: code.clone(),
                    now,
                },
            ),
            Some(Err(e)) => return SecondFactor::Failed(e.clone()),
            Some(Ok(consumed)) => if *consumed {
                if p.audits == 0 {
                    return SecondFactor::Pending(
                        MfaStep::Audit(
                            code_used_audit(tenant_id, user_id, AuthenticatorType::RecoveryCode),
                        ),
                    );
                }
                return SecondFactor::Passed(AuthenticationMethod::RecoveryCode);
            },
        }
        match &p.email_consumed {
            None => SecondFactor::Pending(
                MfaStep::ConsumeCode {
                    user_id,
                    kind: AuthenticatorType::EmailOtp,
                    code: code.clone(),
                    now,
                },
            ),
            Some(Err(e)) => SecondFactor::Failed(e.clone()),
            Some(Ok(consumed)) => if *consumed {
                if p.audits == 0 {
                    SecondFactor::Pending(
                        MfaStep::Audit(
                            code_used_audit(tenant_id, user_id, AuthenticatorType::EmailOtp),
                        ),
                    )
                } else {
                    SecondFactor::Passed(AuthenticationMethod::EmailOtp)
                }
            } else {
                SecondFactor::NoMatch
            },
        }
    }

    /// Decides how far the second factor is.
    pub fn verify_second_factor(
        &self,
        tenant_id: TenantId,
        user_id: Uuid,
        code: &String,
        p: &MfaProgress,
    ) -> (r: SecondFactor)
        ensures
            r == second_factor(self.key_encryption_key, tenant_id, user_id, *code, *p),
    {
        let blocked: bool = match &p.totp_blocked {
            None => return SecondFactor::Pending(MfaStep::FindTotpBlocked { user_id }),
            Some(Err(e)) => return SecondFactor::Failed(e.clone()),
            Some(Ok(blocked)) => *blocked,
        };
        match &p.totp {
            None => return SecondFactor::Pending(MfaStep::FindTotp { user_id }),
            Some(Err(e)) => return SecondFactor::Failed(e.clone()),
            Some(Ok(Some(secret))) => if secret.is_confirmed() && !blocked {
                match &p.totp_matches {
                    None => return SecondFactor::Pending(
                        MfaStep::VerifyTotp {
                            secret_encrypted: secret.secret_encrypted.clone(),
                            key_encryption_key: self.key_encryption_key,
                            code: code.clone(),
                        },
                    ),
                    Some(Err(e)) => return SecondFactor::Failed(e.clone()),
                    Some(Ok(matches)) => if *matches {
                        return SecondFactor::Passed(AuthenticationMethod::Totp);
                    },
                }
            },
            Some(Ok(None)) => {},
        }
        self.try_single_use(tenant_id, user_id, code, p)
    }

    /// What comes next after a wrong code.
    pub fn handle_totp_failure(
        &self,
        tenant: &TenantContext,
        draw: &LoginDraw,
        p: &MfaProgress,
        session: &AuthSession,
        user: &User,
    ) -> (r: MfaStep)
        ensures
            self.totp_failure_rule(*tenant, *draw, *p, *session, *user, r),
    {
        let locked: bool = match &p.failure_locked {
            None => return MfaStep::RecordFailure {
                user_id: user.id,
                lockout: self.lockout,
                now: draw.now,
            },
            Some(Err(e)) => return MfaStep::Done(MfaLoginOutcome::Internal(e.clone())),
            Some(Ok(locked)) => *locked,
        };
        if p.audits == 0 {
            return MfaStep::Audit(
                failure_audit(
                    tenant.tenant_id,
                    Some(user.id),
                    &session.client_id,
                    AuditReason::InvalidTotp,
                ),
            );
        }
        if !locked {
            return MfaStep::Done(MfaLoginOutcome::InvalidCode);
        }
        if p.audits == 1 {
            return MfaStep::Audit(
                login_audit(
                    AuditEventType::LoginLocked,
                    AuditResult::Failure,
                    tenant.tenant_id,
                    Some(user.id),
                    &session.client_id,
                    Some(AuditReason::TooManyFailures),
                ),
            );
        }
        MfaStep::Done(MfaLoginOutcome::Locked)
    }

    fn end(
        &self,
        tenant: &TenantContext,
        draw: &LoginDraw,
        p: &MfaProgress,
        session: &AuthSession,
        user_id: Uuid,
        user: &User,
    ) -> (r: MfaStep)
        ensures
            self.end_rule(*tenant, *draw, *p, *session, user_id, *user, r),
    {
        let s = FlowSubject {
            tenant_id: tenant.tenant_id,
            user_id,
            now: draw.now,
            rotated_id: draw.rotated_id.clone(),
            sid: draw.sso.sid.clone(),
            delivery: CodeDelivery::Redirect,
        };
        let f: FlowStep = finish_flow(session, &s, &p.flow);
        let ghost step = f;
        proof {
            assert(flow_rule(*session, s, p.flow, step));
        }
        match f {
            FlowStep::ConsentRequired => MfaStep::Done(
                MfaLoginOutcome::ConsentRequired {
                    auth_session_id: draw.rotated_id.clone(),
                    sso_session_id: draw.sso.sso_session_id.clone(),
                },
            ),
            FlowStep::Failed(e) => MfaStep::Done(MfaLoginOutcome::Internal(e)),
            FlowStep::Complete { location, form_post } => MfaStep::Done(
                MfaLoginOutcome::Success {
                    location,
                    sso_session_id: draw.sso.sso_session_id.clone(),
                    user_language: user.language.clone(),
                },
            ),
            other => MfaStep::Flow(other),
        }
    }

    fn sign_on(
        &self,
        tenant: &TenantContext,
        ctx: &RequestContext,
        draw: &LoginDraw,
        p: &MfaProgress,
        session: &AuthSession,
        user_id: Uuid,
        user: &User,
        method: AuthenticationMethod,
    ) -> (r: MfaStep)
        ensures
            self.sign_on_rule(*tenant, *ctx, *draw, *p, *session, user_id, *user, method, r),
    {
        if user.has_failures_on_record() {
            match &p.failures_reset {
                None => return MfaStep::ResetFailures { user_id: user.id },
                Some(Err(e)) => return MfaStep::Done(MfaLoginOutcome::Internal(e.clone())),
                Some(Ok(_)) => {},
            }
        }
        match &p.authenticated {
            None => return MfaStep::SetAuthenticated {
                id_hash: session.id_hash.clone(),
                new_id_hash: id_hash(draw.rotated_id.as_str()),
                user_id,
                now: draw.now,
                sid: draw.sso.sid.clone(),
            },
            Some(Err(e)) => return MfaStep::Done(MfaLoginOutcome::Internal(e.clone())),
            Some(Ok(_)) => {},
        }
        match &p.sso_created {
            None => return MfaStep::CreateSso(
                SsoGrant {
                    session_hash: sha256_hex(draw.sso.sso_session_id.as_str()),
                    user_id,
                    now: draw.now,
                    idle_ttl: self.sso_idle_ttl,
                    absolute_ttl: self.sso_absolute_ttl,
                    methods: both(AuthenticationMethod::Password, method),
                    user_agent: ctx.user_agent.clone(),
                    ip_address: ctx.ip_address.clone(),
                },
            ),
            Some(Err(e)) => return MfaStep::Done(MfaLoginOutcome::Internal(e.clone())),
            Some(Ok(_)) => {},
        }
        let base: usize = count_factor_audits(method);
        if p.audits <= base {
            return MfaStep::Audit(
                login_audit(
                    AuditEventType::SsoSessionCreated,
                    AuditResult::Success,
                    tenant.tenant_id,
                    Some(user_id),
                    &session.client_id,
                    None,
                ),
            );
        }
        if p.audits == base + 1 {
            return MfaStep::Audit(
                login_audit(
                    AuditEventType::LoginSucceeded,
                    AuditResult::Success,
                    tenant.tenant_id,
                    Some(user_id),
                    &session.client_id,
                    None,
                ),
            );
        }
        self.end(tenant, draw, p, session, user_id, user)
    }

    fn check_policies(
        &self,
        tenant: &TenantContext,
        ctx: &RequestContext,
        draw: &LoginDraw,
        p: &MfaProgress,
        session: &AuthSession,
        user_id: Uuid,
        user: &User,
        method: AuthenticationMethod,
    ) -> (r: MfaStep)
        ensures
            self.policy_rule(*tenant, *ctx, *draw, *p, *session, user_id, *user, method, r),
    {
        let eval: &PolicyEvaluation = match &p.policy {
            None => return MfaStep::EvaluatePolicies(
                PolicyQuery {
                    tenant_id: tenant.tenant_id,
                    client_id: Some(session.client_id.clone()),
                    user_id,
                    ip_address: ctx.ip_address.clone(),
                    now: draw.now,
                    acr_values: session.acr_values.clone(),
                    default_effect: self.policy_default_effect,
                    methods: both(AuthenticationMethod::Password, method),
                    user_verified: false,
                },
            ),
            Some(Err(e)) => return MfaStep::Done(MfaLoginOutcome::Internal(e.clone())),
            Some(Ok(eval)) => eval,
        };
        let base: usize = count_factor_audits(method);
        if let PolicyDecision::Deny { policy_code: _ } = &eval.decision {
            if p.audits <= base {
                return MfaStep::Audit(
                    failure_audit(
                        tenant.tenant_id,
                        Some(user_id),
                        &session.client_id,
                        AuditReason::PolicyDenied,
                    ),
                );
            }
            return MfaStep::Done(MfaLoginOutcome::PolicyDenied);
        }
        if eval.unmet.is_some() {
            if p.audits <= base {
                return MfaStep::Audit(
                    failure_audit(
                        tenant.tenant_id,
                        Some(user_id),
                        &session.client_id,
                        AuditReason::MethodRequired,
                    ),
                );
            }
            return MfaStep::Done(MfaLoginOutcome::PolicyDenied);
        }
        self.sign_on(tenant, ctx, draw, p, session, user_id, user, method)
    }

    fn check_factor(
        &self,
        tenant: &TenantContext,
        cmd: &MfaLoginCommand,
        ctx: &RequestContext,
        draw: &LoginDraw,
        p: &MfaProgress,
        session: &AuthSession,
        user_id: Uuid,
    ) -> (r: MfaStep)
        ensures
            self.factor_rule(*tenant, *cmd, *ctx, *draw, *p, *session, user_id, r),
    {
        let user: &User = match &p.user {
            None => return MfaStep::FindUser { user_id },
            Some(Err(e)) => return MfaStep::Done(MfaLoginOutcome::Internal(e.clone())),
            Some(Ok(None)) => return MfaStep::Done(MfaLoginOutcome::SessionExpired),
            Some(Ok(Some(user))) => user,
        };
        if user.is_locked_at(draw.now) {
            if p.audits == 0 {
                return MfaStep::Audit(
                    login_audit(
                        AuditEventType::LoginLocked,
                        AuditResult::Failure,
                        tenant.tenant_id,
                        Some(user.id),
                        &session.client_id,
                        Some(AuditReason::AccountLocked),
                    ),
                );
            }
            return MfaStep::Done(MfaLoginOutcome::Locked);
        }
        if !user.is_active() {
            return MfaStep::Done(MfaLoginOutcome::Internal("user not active".to_owned()));
        }
        match self.verify_second_factor(tenant.tenant_id, user_id, &cmd.totp_code, p) {
            SecondFactor::Pending(step) => step,
            SecondFactor::Failed(e) => MfaStep::Done(MfaLoginOutcome::Internal(e)),
            SecondFactor::NoMatch => self.handle_totp_failure(tenant, draw, p, session, user),
            SecondFactor::Passed(method) => self.check_policies(
                tenant,
                ctx,
                draw,
                p,
                session,
                user_id,
                user,
                method,
            ),
        }
    }

    /// Decides what comes next in the second step of a sign-in of which `p` is known.
    pub fn verify(
        &self,
        tenant: &TenantContext,
        cmd: &MfaLoginCommand,
        ctx: &RequestContext,
        draw: &LoginDraw,
        p: &MfaProgress,
    ) -> (r: MfaStep)
        ensures
            self.verify_rule(*tenant, *cmd, *ctx, *draw, *p, r),
    {
        let session_id: &String = match non_empty(&cmd.auth_session_id) {
            None => return MfaStep::Done(MfaLoginOutcome::SessionExpired),
            Some(session_id) => session_id,
        };
        let session: &AuthSession = match &p.session {
            None => return MfaStep::FindSession {
                tenant_id: tenant.tenant_id,
                id_hash: id_hash(session_id.as_str()),
            },
            Some(Err(e)) => return MfaStep::Done(MfaLoginOutcome::Internal(e.clone())),
            Some(Ok(None)) => return MfaStep::Done(MfaLoginOutcome::SessionExpired),
            Some(Ok(Some(session))) => session,
        };
        if session.is_expired_at(draw.now) {
            if p.expired_deleted {
                return MfaStep::Done(MfaLoginOutcome::SessionExpired);
            }
            return MfaStep::DeleteExpired { id_hash: session.id_hash.clone() };
        }
        let user_id: Uuid = match session.authenticated_user_id {
            None => return MfaStep::Done(MfaLoginOutcome::SessionExpired),
            Some(user_id) => user_id,
        };
        if session.password_verified_at.is_none() {
            return MfaStep::Done(MfaLoginOutcome::SessionExpired);
        }
        let expected: &String = match &p.csrf_token {
            None => return MfaStep::DeriveCsrf {
                auth_session_id: session_id.clone(),
                key: self.csrf_secret,
            },
            Some(expected) => expected,
        };
        if !same(expected.as_str(), cmd.csrf_token.as_str()) {
            return MfaStep::Done(MfaLoginOutcome::CsrfMismatch);
        }
        if let Some(ip) = &ctx.ip_address {
            match p.rate_allowed {
                None => return MfaStep::CheckRate { ip_address: ip.clone(), now: draw.now },
                Some(allowed) => if !allowed {
                    if p.audits == 0 {
                        return MfaStep::Audit(
                            failure_audit(
                                tenant.tenant_id,
                                None,
                                &session.client_id,
                                AuditReason::IpRateLimited,
                            ),
                        );
                    }
                    return MfaStep::Done(MfaLoginOutcome::RateLimited);
                },
            }
        }
        self.check_factor(tenant, cmd, ctx, draw, p, session, user_id)
    }

    /// The user whose second factor a session waits for: none where there is no session or it
    /// cannot be read, where it has expired, or where no password was shown in it.
    pub fn pending_mfa_user(
        &self,
        tenant: &TenantContext,
        auth_session_id: &str,
        now: Timestamp,
        session: &Reply<Option<AuthSession>>,
    ) -> (r: PendingStep<Option<Uuid>>)
        ensures
            pending_user_rule(*tenant, auth_session_id@, now, *session, r),
    {
        match session {
            None => PendingStep::FindSession {
                tenant_id: tenant.tenant_id,
                id_hash: id_hash(auth_session_id),
            },
            Some(Ok(Some(s))) => if s.is_expired_at(now) || s.password_verified_at.is_none() {
                PendingStep::Done(None)
            } else {
                PendingStep::Done(s.authenticated_user_id)
            },
            Some(_) => PendingStep::Done(None),
        }
    }

    /// Whether a session is one in which a password was shown, and by whom is on record. It is not
    /// where the session cannot be read.
    pub fn has_mfa_pending(
        &self,
        tenant: &TenantContext,
        auth_session_id: &str,
        session: &Reply<Option<AuthSession>>,
    ) -> (r: PendingStep<bool>)
        ensures
            mfa_pending_rule(*tenant, auth_session_id@, *session, r),
    {
        match session {
            None => PendingStep::FindSession {
                tenant_id: tenant.tenant_id,
                id_hash: id_hash(auth_session_id),
            },
            Some(Ok(Some(s))) => PendingStep::Done(
                s.password_verified_at.is_some() && s.authenticated_user_id.is_some(),
            ),
            Some(_) => PendingStep::Done(false),
        }
    }
}

/// The session waits for a second factor, carries its own token, the limiter lets pass, and the
/// account is active and not locked.
pub open spec fn may_try_a_code(
    svc: MfaLoginService,
    cmd: MfaLoginCommand,
    ctx: RequestContext,
    draw: LoginDraw,
    p: MfaProgress,
) -> bool {
    &&& present(cmd.auth_session_id) is Some
    &&& p.csrf_token matches Some(expected) && expected@ == cmd.csrf_token@
    &&& p.session matches Some(Ok(Some(session))) && !session.expired_at(draw.now)
        && session.authenticated_user_id is Some && session.password_verified_at is Some
    &&& (ctx.ip_address is Some ==> p.rate_allowed matches Some(true))
    &&& p.user matches Some(Ok(Some(user))) && user.active() && !user.locked_at(draw.now)
}

/// The limiter and the account's lock stand in front of every code that is tried.
pub proof fn codes_are_tried_behind_the_guards(
    svc: MfaLoginService,
    tenant: TenantContext,
    cmd: MfaLoginCommand,
    ctx: RequestContext,
    draw: LoginDraw,
    p: MfaProgress,
    r: MfaStep,
)
    requires
        svc.verify_rule(tenant, cmd, ctx, draw, p, r),
        r is FindTotpBlocked || r is FindTotp || r is VerifyTotp || r is ReadClock
            || r is ConsumeCode || r is RecordFailure,
    ensures
        may_try_a_code(svc, cmd, ctx, draw, p),
{
}

/// A sign-on is created, a code is issued, the counter is reset and success is reported only where
/// the guards let a code be tried, one was right, and the policies accept the methods that were
/// used.
pub proof fn mfa_sign_on_needs_both_factors(
    svc: MfaLoginService,
    tenant: TenantContext,
    cmd: MfaLoginCommand,
    ctx: RequestContext,
    draw: LoginDraw,
    p: MfaProgress,
    r: MfaStep,
)
    requires
        svc.verify_rule(tenant, cmd, ctx, draw, p, r),
        r is CreateSso || r is SetAuthenticated || r is Flow || r is ResetFailures || (
        r matches MfaStep::Done(o) && (o is Success || o is ConsentRequired)),
    ensures
        may_try_a_code(svc, cmd, ctx, draw, p),
        second_factor(
            svc.key_encryption_key,
            tenant.tenant_id,
            p.session->0->Ok_0->0.authenticated_user_id->0,
            cmd.totp_code,
            p,
        ) is Passed,
        p.policy matches Some(Ok(eval)) && !(eval.decision is Deny) && eval.unmet is None,
{
}

/// Codes of a suspended authenticator are not even compared.
pub proof fn a_suspended_authenticator_is_not_tried(
    svc: MfaLoginService,
    tenant: TenantContext,
    cmd: MfaLoginCommand,
    ctx: RequestContext,
    draw: LoginDraw,
    p: MfaProgress,
    r: MfaStep,
)
    requires
        svc.verify_rule(tenant, cmd, ctx, draw, p, r),
        p.totp_blocked matches Some(Ok(true)),
    ensures
        !(r is VerifyTotp),
{
}

/// A single-use code is used up only where the code is not the time-based one.
pub proof fn single_use_codes_come_last(
    svc: MfaLoginService,
    tenant: TenantContext,
    cmd: MfaLoginCommand,
    ctx: RequestContext,
    draw: LoginDraw,
    p: MfaProgress,
    r: MfaStep,
)
    requires
        svc.verify_rule(tenant, cmd, ctx, draw, p, r),
        r is ConsumeCode,
        p.totp matches Some(Ok(secret)) && has_confirmed(secret),
        p.totp_blocked matches Some(Ok(false)),
    ensures
        p.totp_matches matches Some(Ok(false)),
{
}

/// A wrong code is answered as such only after the failure was counted, and the account counts as
/// locked where that failure locked it.
pub proof fn wrong_codes_are_counted(
    svc: MfaLoginService,
    tenant: TenantContext,
    cmd: MfaLoginCommand,
    ctx: RequestContext,
    draw: LoginDraw,
    p: MfaProgress,
    r: MfaStep,
)
    requires
        svc.verify_rule(tenant, cmd, ctx, draw, p, r),
    ensures
        r matches MfaStep::Done(MfaLoginOutcome::InvalidCode) ==> p.failure_locked matches Some(Ok(false)),
        (r matches MfaStep::Done(MfaLoginOutcome::Locked)) && (p.user matches Some(Ok(Some(user)))
            && !user.locked_at(draw.now)) ==> p.failure_locked matches Some(Ok(true)),
{
}

/// Wherever a code was right, the session goes on under the identifier drawn for this request.
pub proof fn mfa_session_identifier_is_rotated(
    svc: MfaLoginService,
    tenant: TenantContext,
    cmd: MfaLoginCommand,
    ctx: RequestContext,
    draw: LoginDraw,
    p: MfaProgress,
    r: MfaStep,
)
    requires
        svc.verify_rule(tenant, cmd, ctx, draw, p, r),
    ensures
        r matches MfaStep::SetAuthenticated { new_id_hash, .. } ==> new_id_hash@ == id_hash_of(
            draw.rotated_id@,
        ),
        r matches MfaStep::Flow(FlowStep::DeleteSession { id_hash }) ==> id_hash@ == id_hash_of(
            draw.rotated_id@,
        ),
        r matches MfaStep::Done(MfaLoginOutcome::ConsentRequired { auth_session_id, .. })
            ==> auth_session_id == draw.rotated_id,
{
}

/// Nothing is asked for that is known already: every call that comes next fills a gap.
pub proof fn nothing_is_asked_twice(
    svc: MfaLoginService,
    tenant: TenantContext,
    cmd: MfaLoginCommand,
    ctx: RequestContext,
    draw: LoginDraw,
    p: MfaProgress,
    r: MfaStep,
)
    requires
        svc.verify_rule(tenant, cmd, ctx, draw, p, r),
    ensures
        p.lacks_answer_to(r),
{
}

impl MfaProgress {
    /// Where a call stands in the order of calls; the outcome stands last.
    pub open spec fn place(self, step: MfaStep) -> int {
        match step {
            MfaStep::FindSession { .. } => 0,
            MfaStep::DeleteExpired { .. } => 1,
            MfaStep::DeriveCsrf { .. } => 1,
            MfaStep::CheckRate { .. } => 2,
            MfaStep::FindUser { .. } => 3,
            MfaStep::FindTotpBlocked { .. } => 4,
            MfaStep::FindTotp { .. } => 5,
            MfaStep::VerifyTotp { .. } => 6,
            MfaStep::ReadClock => 7,
            MfaStep::ConsumeCode { kind, .. } => if kind == AuthenticatorType::RecoveryCode {
                8
            } else {
                9
            },
            MfaStep::RecordFailure { .. } => 10,
            MfaStep::EvaluatePolicies(_) => 11,
            MfaStep::ResetFailures { .. } => 12,
            MfaStep::SetAuthenticated { .. } => 13,
            MfaStep::CreateSso(_) => 14,
            MfaStep::Audit(a) => if a.event == AuditEventType::RecoveryCodeUsed {
                10
            } else {
                15 + self.audits
            },
            MfaStep::Flow(s) => 18 + s.place(),
            MfaStep::Done(_) => 22,
        }
    }

    /// The call `step` asks for something that is not known yet.
    pub open spec fn lacks_answer_to(self, step: MfaStep) -> bool {
        match step {
            MfaStep::FindSession { .. } => self.session is None,
            MfaStep::DeleteExpired { .. } => !self.expired_deleted,
            MfaStep::DeriveCsrf { .. } => self.csrf_token is None,
            MfaStep::CheckRate { .. } => self.rate_allowed is None,
            MfaStep::FindUser { .. } => self.user is None,
            MfaStep::FindTotpBlocked { .. } => self.totp_blocked is None,
            MfaStep::FindTotp { .. } => self.totp is None,
            MfaStep::VerifyTotp { .. } => self.totp_matches is None,
            MfaStep::ReadClock => self.code_clock is None,
            MfaStep::ConsumeCode { kind, .. } => if kind == AuthenticatorType::RecoveryCode {
                self.recovery_consumed is None
            } else {
                self.email_consumed is None
            },
            MfaStep::RecordFailure { .. } => self.failure_locked is None,
            MfaStep::EvaluatePolicies(_) => self.policy is None,
            MfaStep::ResetFailures { .. } => self.failures_reset is None,
            MfaStep::SetAuthenticated { .. } => self.authenticated is None,
            MfaStep::CreateSso(_) => self.sso_created is None,
            MfaStep::Flow(s) => self.flow.lacks_answer_to(s),
            MfaStep::Audit(_) => self.audits < 3,
            MfaStep::Done(_) => true,
        }
    }

    /// `after` is this with the answer to the call `step`.
    pub open spec fn answered(self, step: MfaStep, after: MfaProgress) -> bool {
        match step {
            MfaStep::FindSession { .. } => after.session is Some && after == (MfaProgress {
                session: after.session,
                ..self
            }),
            MfaStep::DeleteExpired { .. } => after == (MfaProgress { expired_deleted: true, ..self }),
            MfaStep::DeriveCsrf { .. } => after.csrf_token is Some && after == (MfaProgress {
                csrf_token: after.csrf_token,
                ..self
            }),
            MfaStep::CheckRate { .. } => after.rate_allowed is Some && after == (MfaProgress {
                rate_allowed: after.rate_allowed,
                ..self
            }),
            MfaStep::FindUser { .. } => after.user is Some && after == (MfaProgress {
                user: after.user,
                ..self
            }),
            MfaStep::FindTotpBlocked { .. } => after.totp_blocked is Some && after == (MfaProgress {
                totp_blocked: after.totp_blocked,
                ..self
            }),
            MfaStep::FindTotp { .. } => after.totp is Some && after == (MfaProgress {
                totp: after.totp,
                ..self
            }),
            MfaStep::VerifyTotp { .. } => after.totp_matches is Some && after == (MfaProgress {
                totp_matches: after.totp_matches,
                ..self
            }),
            MfaStep::ReadClock => after.code_clock is Some && after == (MfaProgress {
                code_clock: after.code_clock,
                ..self
            }),
            MfaStep::ConsumeCode { kind, .. } => if kind == AuthenticatorType::RecoveryCode {
                after.recovery_consumed is Some && after == (MfaProgress {
                    recovery_consumed: after.recovery_consumed,
                    ..self
                })
            } else {
                after.email_consumed is Some && after == (MfaProgress {
                    email_consumed: after.email_consumed,
                    ..self
                })
            },
            MfaStep::RecordFailure { .. } => after.failure_locked is Some && after == (MfaProgress {
                failure_locked: after.failure_locked,
                ..self
            }),
            MfaStep::EvaluatePolicies(_) => after.policy is Some && after == (MfaProgress {
                policy: after.policy,
                ..self
            }),
            MfaStep::ResetFailures { .. } => after.failures_reset is Some && after == (MfaProgress {
                failures_reset: after.failures_reset,
                ..self
            }),
            MfaStep::SetAuthenticated { .. } => after.authenticated is Some && after == (MfaProgress {
                authenticated: after.authenticated,
                ..self
            }),
            MfaStep::CreateSso(_) => after.sso_created is Some && after == (MfaProgress {
                sso_created: after.sso_created,
                ..self
            }),
            MfaStep::Flow(s) => self.flow.answered(s, after.flow) && after == (MfaProgress {
                flow: after.flow,
                ..self
            }),
            MfaStep::Audit(_) => after.audits == self.audits + 1 && after == (MfaProgress {
                audits: after.audits,
                ..self
            }),
            MfaStep::Done(_) => false,
        }
    }
}

/// The calls keep one order: whatever comes after the answer to a call stands behind it. So no call
/// is made twice, and every request comes to its outcome.
#[verifier::rlimit(80)]
#[verifier::spinoff_prover]
pub proof fn second_step_calls_keep_their_order(
    svc: MfaLoginService,
    tenant: TenantContext,
    cmd: MfaLoginCommand,
    ctx: RequestContext,
    draw: LoginDraw,
    p: MfaProgress,
    r: MfaStep,
    after: MfaProgress,
    next: MfaStep,
)
    requires
        svc.verify_rule(tenant, cmd, ctx, draw, p, r),
        p.answered(r, after),
        svc.verify_rule(tenant, cmd, ctx, draw, after, next),
    ensures
        p.place(r) < after.place(next) <= 22,
{
}

/// The second method of a sign-in, by what the answers say of the code: time-based where it was
/// compared as such and matched, else the single-use code that was used up.
pub open spec fn shown_as(p: MfaProgress, method: AuthenticationMethod) -> bool {
    match method {
        AuthenticationMethod::Totp => p.totp_matches == Some(Ok::<bool, String>(true)) && p.totp_blocked
            == Some(Ok::<bool, String>(false)) && (p.totp matches Some(Ok(Some(secret)))
            && secret.confirmed_at is Some),
        AuthenticationMethod::RecoveryCode => p.recovery_consumed == Some(Ok::<bool, String>(true)),
        AuthenticationMethod::EmailOtp => p.email_consumed == Some(Ok::<bool, String>(true))
            && p.recovery_consumed == Some(Ok::<bool, String>(false)),
        _ => false,
    }
}

/// The policies judge a sign-in by what the sign-on will record of it: the password and the factor
/// that was shown, in this order, without an authenticator that verified anybody.
pub proof fn the_policies_judge_both_factors(
    svc: MfaLoginService,
    tenant: TenantContext,
    cmd: MfaLoginCommand,
    ctx: RequestContext,
    draw: LoginDraw,
    asking: MfaProgress,
    q: PolicyQuery,
    creating: MfaProgress,
    g: SsoGrant,
)
    requires
        call_ensures(
            MfaLoginService::verify,
            (&svc, &tenant, &cmd, &ctx, &draw, &asking),
            MfaStep::EvaluatePolicies(q),
        ),
        call_ensures(
            MfaLoginService::verify,
            (&svc, &tenant, &cmd, &ctx, &draw, &creating),
            MfaStep::CreateSso(g),
        ),
        creating.session == asking.session,
        creating.totp_blocked == asking.totp_blocked,
        creating.totp == asking.totp,
        creating.totp_matches == asking.totp_matches,
        creating.recovery_consumed == asking.recovery_consumed,
        creating.email_consumed == asking.email_consumed,
    ensures
        q.methods@ == g.methods@,
        q.methods@.len() == 2,
        q.methods@[0] == AuthenticationMethod::Password,
        shown_as(asking, q.methods@[1]),
        !q.user_verified,
        q.user_id == g.user_id,
        q.now == g.now,
        q.ip_address == g.ip_address,
{
}

/// The sign-on of a second factor is that of the user whose password was shown in the session, and
/// its cookie is the one that the answer carries.
pub proof fn both_factors_sign_on_their_user(
    svc: MfaLoginService,
    tenant: TenantContext,
    cmd: MfaLoginCommand,
    ctx: RequestContext,
    draw: LoginDraw,
    p: MfaProgress,
    g: SsoGrant,
    end: MfaProgress,
    outcome: MfaLoginOutcome,
)
    requires
        call_ensures(
            MfaLoginService::verify,
            (&svc, &tenant, &cmd, &ctx, &draw, &p),
            MfaStep::CreateSso(g),
        ),
        call_ensures(
            MfaLoginService::verify,
            (&svc, &tenant, &cmd, &ctx, &draw, &end),
            MfaStep::Done(outcome),
        ),
    ensures
        p.session matches Some(Ok(Some(session))) && session.authenticated_user_id == Some(
            g.user_id,
        ) && session.password_verified_at is Some,
        g.now == draw.now,
        g.idle_ttl == svc.sso_idle_ttl,
        g.absolute_ttl == svc.sso_absolute_ttl,
        g.methods@.len() == 2 && g.methods@[0] == AuthenticationMethod::Password && shown_as(
            p,
            g.methods@[1],
        ),
        g.user_agent == ctx.user_agent,
        g.ip_address == ctx.ip_address,
        outcome matches MfaLoginOutcome::Success { sso_session_id, .. } ==> g.session_hash@
            == sha256_hex_of(sso_session_id@),
        outcome matches MfaLoginOutcome::ConsentRequired { sso_session_id, .. } ==> g.session_hash@
            == sha256_hex_of(sso_session_id@),
{
}

/// Every call of the second step is about the session that came with it, the user of that session
/// and the code that was sent.
pub proof fn mfa_calls_are_about_the_session(
    svc: MfaLoginService,
    tenant: TenantContext,
    cmd: MfaLoginCommand,
    ctx: RequestContext,
    draw: LoginDraw,
    p: MfaProgress,
    r: MfaStep,
)
    requires
        call_ensures(MfaLoginService::verify, (&svc, &tenant, &cmd, &ctx, &draw, &p), r),
    ensures
        match r {
            MfaStep::FindSession { tenant_id, id_hash } => tenant_id == tenant.tenant_id && (
            cmd.auth_session_id matches Some(id) && id_hash@ == id_hash_of(id@)),
            MfaStep::DeleteExpired { id_hash } => p.session matches Some(Ok(Some(session)))
                && id_hash == session.id_hash && session.expires_at.nanos <= draw.now.nanos,
            MfaStep::DeriveCsrf { auth_session_id, key } => key == svc.csrf_secret && (
            cmd.auth_session_id matches Some(id) && auth_session_id@ == id@),
            MfaStep::CheckRate { ip_address, now } => ctx.ip_address == Some(ip_address) && now
                == draw.now,
            MfaStep::FindUser { user_id } => p.session matches Some(Ok(Some(session)))
                && session.authenticated_user_id == Some(user_id),
            MfaStep::FindTotpBlocked { user_id } => p.session matches Some(Ok(Some(session)))
                && session.authenticated_user_id == Some(user_id),
            MfaStep::FindTotp { user_id } => p.session matches Some(Ok(Some(session)))
                && session.authenticated_user_id == Some(user_id),
            MfaStep::VerifyTotp { secret_encrypted, key_encryption_key, code } => code
                == cmd.totp_code && key_encryption_key == svc.key_encryption_key && (
            p.totp matches Some(Ok(Some(secret))) && secret_encrypted == secret.secret_encrypted
                && secret.confirmed_at is Some),
            MfaStep::ConsumeCode { user_id, kind, code, now } => code == cmd.totp_code
                && p.code_clock == Some(now) && (p.session matches Some(Ok(Some(session)))
                && session.authenticated_user_id == Some(user_id)) && (kind
                == AuthenticatorType::RecoveryCode || (kind == AuthenticatorType::EmailOtp
                && p.recovery_consumed == Some(Ok::<bool, String>(false)))),
            MfaStep::RecordFailure { user_id, lockout, now } => lockout == svc.lockout && now
                == draw.now && (p.user matches Some(Ok(Some(user))) && user_id == user.id)
                && p.email_consumed == Some(Ok::<bool, String>(false)),
            MfaStep::EvaluatePolicies(q) => q.tenant_id == tenant.tenant_id && q.now == draw.now
                && q.ip_address == ctx.ip_address && q.default_effect == svc.policy_default_effect
                && !q.user_verified && q.methods@.len() == 2 && q.methods@[0]
                == AuthenticationMethod::Password && shown_as(p, q.methods@[1]) && (
            p.session matches Some(Ok(Some(session))) && session.authenticated_user_id == Some(
                q.user_id,
            ) && q.client_id == Some(session.client_id) && q.acr_values == session.acr_values),
            MfaStep::ResetFailures { user_id } => p.user matches Some(Ok(Some(user))) && user_id
                == user.id,
            MfaStep::SetAuthenticated { id_hash, new_id_hash, user_id, now, sid } => (
            p.session matches Some(Ok(Some(session))) && id_hash == session.id_hash
                && session.authenticated_user_id == Some(user_id)) && new_id_hash@ == id_hash_of(
                draw.rotated_id@,
            ) && now == draw.now && sid == draw.sso.sid,
            MfaStep::Flow(f) => p.session matches Some(Ok(Some(session))) && match f {
                FlowStep::FindConsent { tenant_id, user_id, client_id } => tenant_id
                    == tenant.tenant_id && session.authenticated_user_id == Some(user_id)
                    && client_id == session.client_id,
                FlowStep::IssueCode(c) => c.tenant_id == tenant.tenant_id
                    && session.authenticated_user_id == Some(c.user_id) && c.client_id
                    == session.client_id && c.redirect_uri == session.redirect_uri && c.scope@
                    == session.scope@ && c.nonce == session.nonce && c.code_challenge
                    == session.code_challenge && c.code_challenge_method
                    == session.code_challenge_method && c.auth_time == draw.now && c.sid == Some(
                    draw.sso.sid,
                ),
                FlowStep::DeleteSession { id_hash } => id_hash@ == id_hash_of(draw.rotated_id@),
                FlowStep::RedirectCode { redirect_uri, code, state } => redirect_uri
                    == session.redirect_uri && state == session.state && p.flow.code == Some(
                    Ok::<String, String>(code),
                ),
                _ => false,
            },
            _ => true,
        },
{
}

/// Every way the second step ends has its cause in the request or in what was found.
pub proof fn mfa_outcomes_have_their_causes(
    svc: MfaLoginService,
    tenant: TenantContext,
    cmd: MfaLoginCommand,
    ctx: RequestContext,
    draw: LoginDraw,
    p: MfaProgress,
    outcome: MfaLoginOutcome,
)
    requires
        call_ensures(
            MfaLoginService::verify,
            (&svc, &tenant, &cmd, &ctx, &draw, &p),
            MfaStep::Done(outcome),
        ),
    ensures
        match outcome {
            MfaLoginOutcome::SessionExpired => cmd.auth_session_id is None
                || cmd.auth_session_id->0@.len() == 0 || (p.session matches Some(Ok(found)) && (
            found matches Some(session) ==> session.expires_at.nanos <= draw.now.nanos
                || session.authenticated_user_id is None || session.password_verified_at is None
                || p.user == Some(Ok::<Option<User>, String>(None)))),
            MfaLoginOutcome::CsrfMismatch => p.csrf_token matches Some(expected) && expected@
                != cmd.csrf_token@,
            MfaLoginOutcome::RateLimited => ctx.ip_address is Some && p.rate_allowed == Some(false),
            MfaLoginOutcome::Locked => p.user matches Some(Ok(Some(user))) && ((
            user.locked_until matches Some(until) && draw.now.nanos < until.nanos)
                || p.failure_locked == Some(Ok::<bool, String>(true))),
            MfaLoginOutcome::InvalidCode => p.recovery_consumed == Some(Ok::<bool, String>(false))
                && p.email_consumed == Some(Ok::<bool, String>(false)) && p.failure_locked == Some(
                Ok::<bool, String>(false),
            ) && !shown_as(p, AuthenticationMethod::Totp),
            MfaLoginOutcome::PolicyDenied => p.policy matches Some(Ok(eval)) && (
            eval.decision is Deny || eval.unmet is Some),
            MfaLoginOutcome::Success { location, sso_session_id, user_language } =>
            p.flow.redirect == Some(location) && sso_session_id == draw.sso.sso_session_id && (
            p.user matches Some(Ok(Some(user))) && user_language == user.language),
            MfaLoginOutcome::ConsentRequired { auth_session_id, sso_session_id } => auth_session_id
                == draw.rotated_id && sso_session_id == draw.sso.sso_session_id && p.flow.consent is Some,
            MfaLoginOutcome::Internal(e) => p.session == Some(
                Err::<Option<AuthSession>, String>(e),
            ) || p.user == Some(Err::<Option<User>, String>(e)) || (p.user matches Some(
                Ok(Some(user)),
            ) && user.status != UserStatus::Active) || p.totp_blocked == Some(
                Err::<bool, String>(e),
            ) || p.totp == Some(Err::<Option<TotpSecret>, String>(e)) || p.totp_matches == Some(
                Err::<bool, String>(e),
            ) || p.recovery_consumed == Some(Err::<bool, String>(e)) || p.email_consumed == Some(
                Err::<bool, String>(e),
            ) || p.failure_locked == Some(Err::<bool, String>(e)) || p.policy == Some(
                Err::<PolicyEvaluation, String>(e),
            ) || p.failures_reset == Some(Err::<(), String>(e)) || p.authenticated == Some(
                Err::<(), String>(e),
            ) || p.sso_created == Some(Err::<(), String>(e)) || p.flow.code == Some(
                Err::<String, String>(e),
            ) || p.flow.consent == Some(
                Err::<Option<crate::model::ClientConsent>, String>(e),
            ),
        },
{
}

/// Every entry of the second step in the audit trail stands in the tenant, names the user of the
/// session, and tells what happened: which code was used up, what was refused and why, and that the
/// sign-on was created.
pub proof fn mfa_audits_tell_what_happened(
    svc: MfaLoginService,
    tenant: TenantContext,
    cmd: MfaLoginCommand,
    ctx: RequestContext,
    draw: LoginDraw,
    p: MfaProgress,
    a: AuditRecord,
)
    requires
        call_ensures(
            MfaLoginService::verify,
            (&svc, &tenant, &cmd, &ctx, &draw, &p),
            MfaStep::Audit(a),
        ),
    ensures
        a.tenant_id == Some(tenant.tenant_id),
        p.session matches Some(Ok(Some(session))) && (a.event == AuditEventType::RecoveryCodeUsed
            || a.client_id == Some(session.client_id)) && (a.user_id is None <==> a.reason == Some(
            AuditReason::IpRateLimited,
        )),
        match a.event {
            AuditEventType::RecoveryCodeUsed => a.result == AuditResult::Success && a.client_id is None
                && ((a.reason == Some(AuditReason::Authenticator(AuthenticatorType::RecoveryCode))
                && p.recovery_consumed == Some(Ok::<bool, String>(true))) || (a.reason == Some(
                AuditReason::Authenticator(AuthenticatorType::EmailOtp),
            ) && p.email_consumed == Some(Ok::<bool, String>(true)))),
            AuditEventType::SsoSessionCreated => a.result == AuditResult::Success && a.reason is None
                && (p.sso_created matches Some(Ok(_))),
            AuditEventType::LoginSucceeded => a.result == AuditResult::Success && a.reason is None
                && (p.sso_created matches Some(Ok(_))),
            AuditEventType::LoginLocked => a.result == AuditResult::Failure && (a.reason == Some(
                AuditReason::AccountLocked,
            ) || (a.reason == Some(AuditReason::TooManyFailures) && p.failure_locked == Some(
                Ok::<bool, String>(true),
            ))),
            AuditEventType::LoginFailed => a.result == AuditResult::Failure && match a.reason {
                Some(AuditReason::IpRateLimited) => p.rate_allowed == Some(false),
                Some(AuditReason::InvalidTotp) => p.email_consumed == Some(Ok::<bool, String>(false)),
                Some(AuditReason::PolicyDenied) => p.policy matches Some(Ok(eval))
                    && eval.decision is Deny,
                Some(AuditReason::MethodRequired) => p.policy matches Some(Ok(eval))
                    && eval.unmet is Some,
                _ => false,
            },
            _ => false,
        },
{
}

/// A right time-based code of an account in order, with every call answered in its favour, signs the
/// user on and sends them where the code goes.
pub proof fn a_second_factor_in_order_succeeds(
    svc: MfaLoginService,
    tenant: TenantContext,
    cmd: MfaLoginCommand,
    ctx: RequestContext,
    draw: LoginDraw,
    p: MfaProgress,
    session: AuthSession,
    user: User,
    location: String,
    r: MfaStep,
)
    requires
        call_ensures(MfaLoginService::verify, (&svc, &tenant, &cmd, &ctx, &draw, &p), r),
        cmd.auth_session_id matches Some(id) && id@.len() > 0,
        p.session == Some(Ok::<Option<AuthSession>, String>(Some(session))),
        draw.now.nanos < session.expires_at.nanos,
        session.authenticated_user_id is Some,
        session.password_verified_at is Some,
        p.csrf_token matches Some(expected) && expected@ == cmd.csrf_token@,
        ctx.ip_address is None || p.rate_allowed == Some(true),
        p.user == Some(Ok::<Option<User>, String>(Some(user))),
        user.locked_until is None,
        user.status == UserStatus::Active,
        p.totp_blocked == Some(Ok::<bool, String>(false)),
        p.totp matches Some(Ok(Some(secret))) && secret.confirmed_at is Some,
        p.totp_matches == Some(Ok::<bool, String>(true)),
        p.policy matches Some(Ok(eval)) && !(eval.decision is Deny) && eval.unmet is None,
        p.failures_reset == Some(Ok::<(), String>(())),
        p.authenticated == Some(Ok::<(), String>(())),
        p.sso_created == Some(Ok::<(), String>(())),
        p.audits == 2,
        session.scope@.len() == 0,
        p.flow.code matches Some(Ok(_)),
        p.flow.deleted,
        p.flow.redirect == Some(location),
    ensures
        r matches MfaStep::Done(
            MfaLoginOutcome::Success { location: to, sso_session_id, user_language },
        ) && to == location && sso_session_id == draw.sso.sso_session_id && user_language
            == user.language,
{
    assert(crate::text::views(session.scope@) =~= Seq::<Seq<char>>::empty());
    assert(crate::code_flow::needing_consent(Seq::<Seq<char>>::empty()).len() == 0) by {
        reveal(Seq::filter);
    }
}

/// A session waits for somebody's second factor exactly where a password was shown in it and it has
/// not expired; then a second factor is pending in it; and both questions look for the same session.
pub proof fn a_pending_user_has_shown_a_password(
    tenant: TenantContext,
    auth_session_id: Seq<char>,
    now: Timestamp,
    session: Reply<Option<AuthSession>>,
    whose: PendingStep<Option<Uuid>>,
    pending: PendingStep<bool>,
)
    requires
        pending_user_rule(tenant, auth_session_id, now, session, whose),
        mfa_pending_rule(tenant, auth_session_id, session, pending),
    ensures
        whose matches PendingStep::Done(Some(id)) ==> pending == PendingStep::Done(true) && (
        session matches Some(Ok(Some(s))) && s.authenticated_user_id == Some(id)
            && s.password_verified_at is Some && now.nanos < s.expires_at.nanos),
        pending == PendingStep::Done(true) && whose == PendingStep::Done(None::<Uuid>) ==> (
        session matches Some(Ok(Some(s))) && s.expires_at.nanos <= now.nanos),
        pending == PendingStep::Done(false) ==> whose == PendingStep::Done(None::<Uuid>),
        whose matches PendingStep::FindSession { tenant_id, id_hash } ==> tenant_id
            == tenant.tenant_id && id_hash@ == id_hash_of(auth_session_id) && (
        pending matches PendingStep::FindSession { tenant_id: t, id_hash: h } && t == tenant_id
            && h@ == id_hash@),
{
}

/// Time-based codes are set up exactly where the user's secret was confirmed; and it is that user's
/// secret that is looked for.
pub proof fn codes_are_set_up_once_confirmed(
    user_id: Uuid,
    found: Stored<Option<TotpSecret>>,
    r: TotpStep,
)
    requires
        confirmed_totp_rule(user_id, found, r),
    ensures
        r matches TotpStep::FindTotp { user_id: asked } ==> asked == user_id && found is None,
        r matches TotpStep::Done(Ok(true)) ==> (found matches Some(Ok(Some(secret)))
            && secret.confirmed_at is Some),
        r matches TotpStep::Done(Ok(false)) ==> (found matches Some(Ok(secret)) && (
        secret matches Some(s) ==> s.confirmed_at is None)),
        r matches TotpStep::Done(Err(e)) ==> found == Some(Err::<Option<TotpSecret>, DomainError>(e)),
{
}

/// A service keeps each of its keys and spans for what it was given for.
pub proof fn a_second_factor_service_is_made_of_what_it_is_given(
    sso_idle_ttl: Span,
    sso_absolute_ttl: Span,
    lockout: LockoutPolicy,
    key_encryption_key: [u8; 32],
    csrf_secret: [u8; 32],
    policy_default_effect: DefaultPolicyEffect,
    svc: MfaLoginService,
)
    requires
        call_ensures(
            MfaLoginService::new,
            (sso_idle_ttl, sso_absolute_ttl, lockout, key_encryption_key, csrf_secret, policy_default_effect),
            svc,
        ),
    ensures
        svc.sso_idle_ttl == sso_idle_ttl,
        svc.sso_absolute_ttl == sso_absolute_ttl,
        svc.lockout == lockout,
        svc.key_encryption_key == key_encryption_key,
        svc.csrf_secret == csrf_secret,
        svc.policy_default_effect == policy_default_effect,
{
}

/// No way out of the second step is left without a trace: a session that has expired is removed before
/// it is reported, refusals are on record, and success is reported only once the sign-on, the change of
/// the session and every entry are there, and nothing is left of former failures.
pub proof fn a_second_step_leaves_its_traces(
    svc: MfaLoginService,
    tenant: TenantContext,
    cmd: MfaLoginCommand,
    ctx: RequestContext,
    draw: LoginDraw,
    p: MfaProgress,
    r: MfaStep,
)
    requires
        call_ensures(MfaLoginService::verify, (&svc, &tenant, &cmd, &ctx, &draw, &p), r),
    ensures
        r == MfaStep::Done(MfaLoginOutcome::SessionExpired) && (cmd.auth_session_id matches Some(id)
            && id@.len() > 0) && (p.session matches Some(Ok(Some(session)))
            && session.expires_at.nanos <= draw.now.nanos) ==> p.expired_deleted,
        r == MfaStep::Done(MfaLoginOutcome::RateLimited) || r == MfaStep::Done(
            MfaLoginOutcome::InvalidCode,
        ) || r == MfaStep::Done(MfaLoginOutcome::Locked) || r == MfaStep::Done(
            MfaLoginOutcome::PolicyDenied,
        ) ==> p.audits > 0,
        r == MfaStep::Done(MfaLoginOutcome::Locked) && (p.user matches Some(Ok(Some(user)))
            && user.locked_until is None) ==> p.audits >= 2,
        (r matches MfaStep::Done(o) && (o is Success || o is ConsentRequired)) ==> p.audits >= 2 && (
        p.sso_created matches Some(Ok(_))) && (p.authenticated matches Some(Ok(_))) && (
        p.totp_matches != Some(Ok::<bool, String>(true)) ==> p.audits >= 3),
        (r matches MfaStep::Done(MfaLoginOutcome::Success { .. })) ==> p.flow.deleted && (
        p.flow.code matches Some(Ok(_))),
        r is SetAuthenticated || r is CreateSso || r is Flow || (r matches MfaStep::Done(o) && (
        o is Success || o is ConsentRequired)) ==> (p.user matches Some(Ok(Some(user))) && (
        user.failed_login_count > 0 || user.locked_until is Some ==> (
        p.failures_reset matches Some(Ok(_))))),
        r is ResetFailures ==> (p.user matches Some(Ok(Some(user))) && (user.failed_login_count > 0
            || user.locked_until is Some)) && (p.policy matches Some(Ok(eval)) && !(
        eval.decision is Deny) && eval.unmet is None),
{
}

} // verus!
