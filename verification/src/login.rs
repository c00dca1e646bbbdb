//! Signing in with a password.
//!
//! A request passes, in this order: the authorization session, its CSRF token, the limiter, the
//! account's state, the password, the tenant's policies. Only then is a sign-on created. The
//! failure counter is reset only where authentication is complete; while a second factor or a new
//! password is outstanding it stays as it is.
use crate::audit::{AuditEventType, AuditReason, AuditRecord, AuditResult};
use crate::code_flow::{
    finish_flow, flow_rule, CodeDelivery, FlowProgress, FlowStep, FlowSubject,
};
use crate::crypto::{sha256_hex, sha256_hex_of};
use crate::mfa_login::{has_confirmed, is_confirmed_secret};
use crate::model::{
    id_hash, id_hash_of, non_empty, only, present, AuthSession, AuthenticationMethod, DefaultPolicyEffect,
    LockoutPolicy, PolicyDecision, PolicyEvaluation, PolicyQuery, Reply, RequestContext, SsoDraw,
    SsoGrant, TenantContext, TenantId, TotpSecret, User, Uuid,
};
use crate::text::same;
use crate::time::{Span, Timestamp};
use vstd::prelude::*;

verus! {

pub struct LoginCommand {
    /// The value of the authorization session's cookie.
    pub auth_session_id: Option<String>,
    pub username: String,
    pub password: String,
    pub csrf_token: String,
}

pub enum LoginOutcome {
    /// Authenticated, with consent: the code goes to the client.
    Success { location: String, sso_session_id: String, user_language: Option<String> },
    /// Authenticated; the user is asked for consent.
    ConsentRequired { auth_session_id: String, sso_session_id: String },
    /// The password is right; a second factor is outstanding.
    MfaRequired { auth_session_id: String },
    /// The password is right; it has to be changed first.
    PasswordChangeRequired { auth_session_id: String },
    /// The password is right; the address has not been confirmed.
    EmailVerificationRequired,
    /// A policy refuses.
    PolicyDenied,
    /// A policy asks for a second factor that the user does not have.
    MfaEnrollmentRequired,
    SessionExpired,
    CsrfMismatch,
    RateLimited,
    /// Unknown user, wrong password or inactive account alike.
    InvalidCredentials,
    Locked,
    Internal(String),
}

/// What was drawn for one request: the time, and identifiers in case they are needed.
pub struct LoginDraw {
    pub now: Timestamp,
    pub sso: SsoDraw,
    /// The authorization session's next identifier.
    pub rotated_id: String,
}

/// What is known of a request so far.
#[derive(Default)]
pub struct LoginProgress {
    pub session: Reply<Option<AuthSession>>,
    /// Whether the removal of an expired session was carried out.
    pub expired_deleted: bool,
    /// The token that belongs to the session.
    pub csrf_token: Option<String>,
    /// Whether the limiter lets the address pass.
    pub rate_allowed: Option<bool>,
    pub user: Reply<Option<User>>,
    /// Whether the password is right.
    pub password: Reply<bool>,
    /// The time at which a wrong password was found.
    pub failure_clock: Option<Timestamp>,
    /// Whether the failure that was recorded has locked the account.
    pub failure_locked: Reply<bool>,
    pub policy: Reply<PolicyEvaluation>,
    pub totp: Reply<Option<TotpSecret>>,
    pub password_marked: Reply<()>,
    pub failures_reset: Reply<()>,
    pub sso_created: Reply<()>,
    pub authenticated: Reply<()>,
    pub flow: FlowProgress,
    /// How many audit entries were written.
    pub audits: usize,
}

/// What comes next: a call to make, or the outcome.
pub enum LoginStep {
    FindSession { tenant_id: TenantId, id_hash: String },
    DeleteExpired { id_hash: String },
    /// Derives the token that belongs to the session.
    DeriveCsrf { auth_session_id: String, key: [u8; 32] },
    CheckRate { ip_address: String, now: Timestamp },
    FindUser { tenant_id: TenantId, username: String },
    VerifyPassword { password: String, password_hash: String },
    ReadClock,
    /// Counts the failure, and locks the account where the policy says so, in one go.
    RecordFailure { user_id: Uuid, lockout: LockoutPolicy, now: Timestamp },
    EvaluatePolicies(PolicyQuery),
    FindTotp { user_id: Uuid },
    MarkPasswordVerified { id_hash: String, new_id_hash: String, user_id: Uuid, now: Timestamp },
    ResetFailures { user_id: Uuid },
    CreateSso(SsoGrant),
    SetAuthenticated {
        id_hash: String,
        new_id_hash: String,
        user_id: Uuid,
        now: Timestamp,
        sid: String,
    },
    Flow(FlowStep),
    Audit(AuditRecord),
    Done(LoginOutcome),
}

pub struct LoginService {
    pub sso_idle_ttl: Span,
    pub sso_absolute_ttl: Span,
    pub lockout: LockoutPolicy,
    pub policy_default_effect: DefaultPolicyEffect,
    pub csrf_secret: [u8; 32],
}

/// An audit entry of a sign-in.
pub open spec fn login_entry(
    event: AuditEventType,
    result: AuditResult,
    tenant_id: TenantId,
    user_id: Option<Uuid>,
    client_id: String,
    reason: Option<AuditReason>,
) -> AuditRecord {
    AuditRecord { event, result, tenant_id: Some(tenant_id), user_id, client_id: Some(client_id), reason }
}

/// A failure's audit entry.
pub open spec fn failure_entry(
    tenant_id: TenantId,
    user_id: Option<Uuid>,
    client_id: String,
    reason: AuditReason,
) -> AuditRecord {
    login_entry(
        AuditEventType::LoginFailed,
        AuditResult::Failure,
        tenant_id,
        user_id,
        client_id,
        Some(reason),
    )
}

/// The audit entry is written, then the outcome is given.
pub open spec fn closes(
    audits: usize,
    entry: AuditRecord,
    outcome: LoginOutcome,
    r: LoginStep,
) -> bool {
    if audits == 0 {
        r == LoginStep::Audit(entry)
    } else {
        r == LoginStep::Done(outcome)
    }
}

fn close(audits: usize, entry: AuditRecord, outcome: LoginOutcome) -> (r: LoginStep)
    ensures
        closes(audits, entry, outcome, r),
{
    if audits == 0 {
        LoginStep::Audit(entry)
    } else {
        LoginStep::Done(outcome)
    }
}

/// Makes an audit entry of a sign-in.
pub fn login_audit(
    event: AuditEventType,
    result: AuditResult,
    tenant_id: TenantId,
    user_id: Option<Uuid>,
    client_id: &String,
    reason: Option<AuditReason>,
) -> (r: AuditRecord)
    ensures
        r == login_entry(event, result, tenant_id, user_id, *client_id, reason),
{
    AuditRecord {
        event,
        result,
        tenant_id: Some(tenant_id),
        user_id,
        client_id: Some(client_id.clone()),
        reason,
    }
}

/// Makes a failure's audit entry.
pub fn failure_audit(
    tenant_id: TenantId,
    user_id: Option<Uuid>,
    client_id: &String,
    reason: AuditReason,
) -> (r: AuditRecord)
    ensures
        r == failure_entry(tenant_id, user_id, *client_id, reason),
{
    login_audit(
        AuditEventType::LoginFailed,
        AuditResult::Failure,
        tenant_id,
        user_id,
        client_id,
        Some(reason),
    )
}

/// The sign-on that a request leads to.
pub open spec fn grants_sso(
    g: SsoGrant,
    idle_ttl: Span,
    absolute_ttl: Span,
    user_id: Uuid,
    now: Timestamp,
    sso_session_id: Seq<char>,
    methods: Seq<AuthenticationMethod>,
    ctx: RequestContext,
) -> bool {
    &&& g.session_hash@ == sha256_hex_of(sso_session_id)
    &&& g.user_id == user_id
    &&& g.now == now
    &&& g.idle_ttl == idle_ttl
    &&& g.absolute_ttl == absolute_ttl
    &&& g.methods@ == methods
    &&& g.user_agent == ctx.user_agent
    &&& g.ip_address == ctx.ip_address
}

/// What the policies are asked.
pub open spec fn asks_policies(
    q: PolicyQuery,
    tenant_id: TenantId,
    session: AuthSession,
    user_id: Uuid,
    ctx: RequestContext,
    now: Timestamp,
    default_effect: DefaultPolicyEffect,
    methods: Seq<AuthenticationMethod>,
    user_verified: bool,
) -> bool {
    &&& q.tenant_id == tenant_id
    &&& q.client_id == Some(session.client_id)
    &&& q.user_id == user_id
    &&& q.ip_address == ctx.ip_address
    &&& q.now == now
    &&& q.acr_values == session.acr_values
    &&& q.default_effect == default_effect
    &&& q.methods@ == methods
    &&& q.user_verified == user_verified
}

impl LoginService {
    pub fn new(
        sso_idle_ttl: Span,
        sso_absolute_ttl: Span,
        lockout: LockoutPolicy,
        policy_default_effect: DefaultPolicyEffect,
        csrf_secret: [u8; 32],
    ) -> (r: Self)
        ensures
            r.sso_idle_ttl == sso_idle_ttl,
            r.sso_absolute_ttl == sso_absolute_ttl,
            r.lockout == lockout,
            r.policy_default_effect == policy_default_effect,
            r.csrf_secret == csrf_secret,
    {
        LoginService { sso_idle_ttl, sso_absolute_ttl, lockout, policy_default_effect, csrf_secret }
    }

    /// Authentication is complete: the counter is reset where anything is on record, the sign-on is
    /// created and audited, the authorization session moves on under a new identifier, and the
    /// request is brought to its end.
    pub open spec fn sign_on_rule(
        self,
        tenant: TenantContext,
        ctx: RequestContext,
        draw: LoginDraw,
        p: LoginProgress,
        session: AuthSession,
        user: User,
        r: LoginStep,
    ) -> bool {
        if user.has_failures() && p.failures_reset is None {
            r == (LoginStep::ResetFailures { user_id: user.id })
        } else if user.has_failures() && p.failures_reset->0 is Err {
            r == LoginStep::Done(LoginOutcome::Internal(p.failures_reset->0->Err_0))
        } else {
            match p.sso_created {
                None => r matches LoginStep::CreateSso(g) && grants_sso(
                    g,
                    self.sso_idle_ttl,
                    self.sso_absolute_ttl,
                    user.id,
                    draw.now,
                    draw.sso.sso_session_id@,
                    seq![AuthenticationMethod::Password],
                    ctx,
                ),
                Some(Err(e)) => r == LoginStep::Done(LoginOutcome::Internal(e)),
                Some(Ok(_)) => if p.audits == 0 {
                    r == LoginStep::Audit(
                        login_entry(
                            AuditEventType::SsoSessionCreated,
                            AuditResult::Success,
                            tenant.tenant_id,
                            Some(user.id),
                            session.client_id,
                            None,
                        ),
                    )
                } else if p.audits == 1 {
                    r == LoginStep::Audit(
                        login_entry(
                            AuditEventType::LoginSucceeded,
                            AuditResult::Success,
                            tenant.tenant_id,
                            Some(user.id),
                            session.client_id,
                            None,
                        ),
                    )
                } else {
                    match p.authenticated {
                        None => r matches LoginStep::SetAuthenticated {
                            id_hash,
                            new_id_hash,
                            user_id,
                            now,
                            sid,
                        } && id_hash == session.id_hash && new_id_hash@ == id_hash_of(
                            draw.rotated_id@,
                        ) && user_id == user.id && now == draw.now && sid == draw.sso.sid,
                        Some(Err(e)) => r == LoginStep::Done(LoginOutcome::Internal(e)),
                        Some(Ok(_)) => self.end_rule(tenant, draw, p, session, user, r),
                    }
                },
            }
        }
    }

    /// The end of an authenticated request.
    pub open spec fn end_rule(
        self,
        tenant: TenantContext,
        draw: LoginDraw,
        p: LoginProgress,
        session: AuthSession,
        user: User,
        r: LoginStep,
    ) -> bool {
        let s = FlowSubject {
            tenant_id: tenant.tenant_id,
            user_id: user.id,
            now: draw.now,
            rotated_id: draw.rotated_id,
            sid: draw.sso.sid,
            delivery: CodeDelivery::Redirect,
        };
        exists|f: FlowStep| #[trigger]
            flow_rule(session, s, p.flow, f) && match f {
                FlowStep::ConsentRequired => r == LoginStep::Done(
                    LoginOutcome::ConsentRequired {
                        auth_session_id: draw.rotated_id,
                        sso_session_id: draw.sso.sso_session_id,
                    },
                ),
                FlowStep::Failed(e) => r == LoginStep::Done(LoginOutcome::Internal(e)),
                FlowStep::Complete { location, form_post } => r == LoginStep::Done(
                    LoginOutcome::Success {
                        location,
                        sso_session_id: draw.sso.sso_session_id,
                        user_language: user.language,
                    },
                ),
                _ => r == LoginStep::Flow(f),
            }
    }

    /// The password is right: the address must be confirmed; the policies may refuse; a forced
    /// change of the password and then a second factor come before anything else; and the password
    /// alone must meet the policies.
    pub open spec fn policy_rule(
        self,
        tenant: TenantContext,
        ctx: RequestContext,
        draw: LoginDraw,
        p: LoginProgress,
        session: AuthSession,
        user: User,
        r: LoginStep,
    ) -> bool {
        if !user.email_verified {
            closes(
                p.audits,
                failure_entry(
                    tenant.tenant_id,
                    Some(user.id),
                    session.client_id,
                    AuditReason::EmailNotVerified,
                ),
                LoginOutcome::EmailVerificationRequired,
                r,
            )
        } else {
            match p.policy {
                None => r matches LoginStep::EvaluatePolicies(q) && asks_policies(
                    q,
                    tenant.tenant_id,
                    session,
                    user.id,
                    ctx,
                    draw.now,
                    self.policy_default_effect,
                    seq![AuthenticationMethod::Password],
                    false,
                ),
                Some(Err(e)) => r == LoginStep::Done(LoginOutcome::Internal(e)),
                Some(Ok(eval)) => match eval.decision {
                    PolicyDecision::Deny { policy_code } => closes(
                        p.audits,
                        login_entry(
                            AuditEventType::LoginPolicyDenied,
                            AuditResult::Failure,
                            tenant.tenant_id,
                            Some(user.id),
                            session.client_id,
                            Some(AuditReason::Policy { code: policy_code }),
                        ),
                        LoginOutcome::PolicyDenied,
                        r,
                    ),
                    _ => self.factor_rule(tenant, ctx, draw, p, session, user, eval, r),
                },
            }
        }
    }

    /// The policies do not refuse outright: what is outstanding beside the password.
    pub open spec fn factor_rule(
        self,
        tenant: TenantContext,
        ctx: RequestContext,
        draw: LoginDraw,
        p: LoginProgress,
        session: AuthSession,
        user: User,
        eval: PolicyEvaluation,
        r: LoginStep,
    ) -> bool {
        if user.must_change_password {
            self.pending_rule(
                draw,
                p,
                session,
                user,
                LoginOutcome::PasswordChangeRequired { auth_session_id: draw.rotated_id },
                r,
            )
        } else {
            match p.totp {
                None => r == (LoginStep::FindTotp { user_id: user.id }),
                Some(Err(e)) => r == LoginStep::Done(LoginOutcome::Internal(e)),
                Some(Ok(secret)) => if has_confirmed(secret) {
                    self.pending_rule(
                        draw,
                        p,
                        session,
                        user,
                        LoginOutcome::MfaRequired { auth_session_id: draw.rotated_id },
                        r,
                    )
                } else if eval.decision is RequireMfa {
                    closes(
                        p.audits,
                        login_entry(
                            AuditEventType::LoginPolicyDenied,
                            AuditResult::Failure,
                            tenant.tenant_id,
                            Some(user.id),
                            session.client_id,
                            Some(
                                AuditReason::PolicyMfaNotEnrolled {
                                    code: eval.decision->RequireMfa_policy_code,
                                },
                            ),
                        ),
                        LoginOutcome::MfaEnrollmentRequired,
                        r,
                    )
                } else if eval.unmet is Some {
                    closes(
                        p.audits,
                        login_entry(
                            AuditEventType::LoginPolicyDenied,
                            AuditResult::Failure,
                            tenant.tenant_id,
                            Some(user.id),
                            session.client_id,
                            Some(
                                AuditReason::PolicyMethod {
                                    code: eval.unmet->0.policy_code,
                                    required: eval.unmet->0.required,
                                },
                            ),
                        ),
                        LoginOutcome::PolicyDenied,
                        r,
                    )
                } else {
                    self.sign_on_rule(tenant, ctx, draw, p, session, user, r)
                },
            }
        }
    }

    /// The password is recorded as verified under a new identifier, then the outcome is given.
    pub open spec fn pending_rule(
        self,
        draw: LoginDraw,
        p: LoginProgress,
        session: AuthSession,
        user: User,
        outcome: LoginOutcome,
        r: LoginStep,
    ) -> bool {
        match p.password_marked {
            None => r matches LoginStep::MarkPasswordVerified { id_hash, new_id_hash, user_id, now }
                && id_hash == session.id_hash && new_id_hash@ == id_hash_of(draw.rotated_id@)
                && user_id == user.id && now == draw.now,
            Some(Err(e)) => r == LoginStep::Done(LoginOutcome::Internal(e)),
            Some(Ok(_)) => r == LoginStep::Done(outcome),
        }
    }

    /// The password is wrong: the failure is counted and audited; a lock that comes of it is
    /// audited too.
    pub open spec fn password_failure_rule(
        self,
        tenant: TenantContext,
        p: LoginProgress,
        session: AuthSession,
        user: User,
        r: LoginStep,
    ) -> bool {
        match p.failure_locked {
            None => r == match p.failure_clock {
                None => LoginStep::ReadClock,
                Some(now) => LoginStep::RecordFailure {
                    user_id: user.id,
                    lockout: self.lockout,
                    now,
                },
            },
            Some(Err(e)) => r == LoginStep::Done(LoginOutcome::Internal(e)),
            Some(Ok(locked)) => if p.audits == 0 {
                r == LoginStep::Audit(
                    failure_entry(
                        tenant.tenant_id,
                        Some(user.id),
                        session.client_id,
                        AuditReason::InvalidPassword,
                    ),
                )
            } else if !locked {
                r == LoginStep::Done(LoginOutcome::InvalidCredentials)
            } else if p.audits == 1 {
                r == LoginStep::Audit(
                    login_entry(
                        AuditEventType::LoginLocked,
                        AuditResult::Failure,
                        tenant.tenant_id,
                        Some(user.id),
                        session.client_id,
                        Some(AuditReason::TooManyFailures),
                    ),
                )
            } else {
                r == LoginStep::Done(LoginOutcome::Locked)
            },
        }
    }

    /// The session, its token and the limiter are in order: the account and the password.
    pub open spec fn credential_rule(
        self,
        tenant: TenantContext,
        cmd: LoginCommand,
        ctx: RequestContext,
        draw: LoginDraw,
        p: LoginProgress,
        session: AuthSession,
        r: LoginStep,
    ) -> bool {
        match p.user {
            None => r == (LoginStep::FindUser {
                tenant_id: tenant.tenant_id,
                username: cmd.username,
            }),
            Some(Err(e)) => r == LoginStep::Done(LoginOutcome::Internal(e)),
            Some(Ok(None)) => closes(
                p.audits,
                failure_entry(tenant.tenant_id, None, session.client_id, AuditReason::UnknownUser),
                LoginOutcome::InvalidCredentials,
                r,
            ),
            Some(Ok(Some(user))) => if user.locked_at(draw.now) {
                closes(
                    p.audits,
                    login_entry(
                        AuditEventType::LoginLocked,
                        AuditResult::Failure,
                        tenant.tenant_id,
                        Some(user.id),
                        session.client_id,
                        Some(AuditReason::AccountLocked),
                    ),
                    LoginOutcome::Locked,
                    r,
                )
            } else if !user.active() {
                closes(
                    p.audits,
                    failure_entry(
                        tenant.tenant_id,
                        Some(user.id),
                        session.client_id,
                        AuditReason::AccountNotActive,
                    ),
                    LoginOutcome::InvalidCredentials,
                    r,
                )
            } else {
                match p.password {
                    None => r == (LoginStep::VerifyPassword {
                        password: cmd.password,
                        password_hash: user.password_hash,
                    }),
                    Some(Err(e)) => r == LoginStep::Done(LoginOutcome::Internal(e)),
                    Some(Ok(false)) => self.password_failure_rule(tenant, p, session, user, r),
                    Some(Ok(true)) => self.policy_rule(tenant, ctx, draw, p, session, user, r),
                }
            },
        }
    }

    /// What comes next in a sign-in of which `p` is known.
    pub open spec fn login_rule(
        self,
        tenant: TenantContext,
        cmd: LoginCommand,
        ctx: RequestContext,
        draw: LoginDraw,
        p: LoginProgress,
        r: LoginStep,
    ) -> bool {
        match present(cmd.auth_session_id) {
            None => r == LoginStep::Done(LoginOutcome::SessionExpired),
            Some(session_id) => match p.session {
                None => r matches LoginStep::FindSession { tenant_id, id_hash } && tenant_id
                    == tenant.tenant_id && id_hash@ == id_hash_of(session_id),
                Some(Err(e)) => r == LoginStep::Done(LoginOutcome::Internal(e)),
                Some(Ok(None)) => r == LoginStep::Done(LoginOutcome::SessionExpired),
                Some(Ok(Some(session))) => if session.expired_at(draw.now) {
                    if p.expired_deleted {
                        r == LoginStep::Done(LoginOutcome::SessionExpired)
                    } else {
                        r == (LoginStep::DeleteExpired { id_hash: session.id_hash })
                    }
                } else if p.csrf_token is None {
                    r matches LoginStep::DeriveCsrf { auth_session_id, key } && auth_session_id@
                        == session_id && key == self.csrf_secret
                } else if p.csrf_token->0@ != cmd.csrf_token@ {
                    closes(
                        p.audits,
                        failure_entry(
                            tenant.tenant_id,
                            None,
                            session.client_id,
                            AuditReason::CsrfMismatch,
                        ),
                        LoginOutcome::CsrfMismatch,
                        r,
                    )
                } else if ctx.ip_address is Some && p.rate_allowed is None {
                    r == (LoginStep::CheckRate { ip_address: ctx.ip_address->0, now: draw.now })
                } else if ctx.ip_address is Some && !p.rate_allowed->0 {
                    closes(
                        p.audits,
                        failure_entry(
                            tenant.tenant_id,
                            None,
                            session.client_id,
                            AuditReason::IpRateLimited,
                        ),
                        LoginOutcome::RateLimited,
                        r,
                    )
                } else {
                    self.credential_rule(tenant, cmd, ctx, draw, p, session, r)
                },
            },
        }
    }

    fn end(
        &self,
        tenant: &TenantContext,
        draw: &LoginDraw,
        p: &LoginProgress,
        session: &AuthSession,
        user: &User,
    ) -> (r: LoginStep)
        ensures
            self.end_rule(*tenant, *draw, *p, *session, *user, r),
    {
        let s = FlowSubject {
            tenant_id: tenant.tenant_id,
            user_id: user.id,
            now: draw.now,
            rotated_id: draw.rotated_id.clone(),
            sid: draw.sso.sid.clone(),
            delivery: CodeDelivery::Redirect,
        };
        let f: FlowStep = finish_flow(session, &s, &p.flow);
        let ghost step = f;
        proof {
            assert(flow_rule(*session, s, p.flow, step));
        }
        match f {
            FlowStep::ConsentRequired => LoginStep::Done(
                LoginOutcome::ConsentRequired {
                    auth_session_id: draw.rotated_id.clone(),
                    sso_session_id: draw.sso.sso_session_id.clone(),
                },
            ),
            FlowStep::Failed(e) => LoginStep::Done(LoginOutcome::Internal(e)),
            FlowStep::Complete { location, form_post } => LoginStep::Done(
                LoginOutcome::Success {
                    location,
                    sso_session_id: draw.sso.sso_session_id.clone(),
                    user_language: user.language.clone(),
                },
            ),
            other => LoginStep::Flow(other),
        }
    }

    fn sign_on(
        &self,
        tenant: &TenantContext,
        ctx: &RequestContext,
        draw: &LoginDraw,
        p: &LoginProgress,
        session: &AuthSession,
        user: &User,
    ) -> (r: LoginStep)
        ensures
            self.sign_on_rule(*tenant, *ctx, *draw, *p, *session, *user, r),
    {
        if user.has_failures_on_record() {
            match &p.failures_reset {
                None => return LoginStep::ResetFailures { user_id: user.id },
                Some(Err(e)) => return LoginStep::Done(LoginOutcome::Internal(e.clone())),
                Some(Ok(_)) => {},
            }
        }
        match &p.sso_created {
            None => LoginStep::CreateSso(
                SsoGrant {
                    session_hash: sha256_hex(draw.sso.sso_session_id.as_str()),
                    user_id: user.id,
                    now: draw.now,
                    idle_ttl: self.sso_idle_ttl,
                    absolute_ttl: self.sso_absolute_ttl,
                    methods: only(AuthenticationMethod::Password),
                    user_agent: ctx.user_agent.clone(),
                    ip_address: ctx.ip_address.clone(),
                },
            ),
            Some(Err(e)) => LoginStep::Done(LoginOutcome::Internal(e.clone())),
            Some(Ok(_)) => {
                if p.audits == 0 {
                    return LoginStep::Audit(
                        login_audit(
                            AuditEventType::SsoSessionCreated,
                            AuditResult::Success,
                            tenant.tenant_id,
                            Some(user.id),
                            &session.client_id,
                            None,
                        ),
                    );
                }
                if p.audits == 1 {
                    return LoginStep::Audit(
                        login_audit(
                            AuditEventType::LoginSucceeded,
                            AuditResult::Success,
                            tenant.tenant_id,
                            Some(user.id),
                            &session.client_id,
                            None,
                        ),
                    );
                }
                match &p.authenticated {
                    None => LoginStep::SetAuthenticated {
                        id_hash: session.id_hash.clone(),
                        new_id_hash: id_hash(draw.rotated_id.as_str()),
                        user_id: user.id,
                        now: draw.now,
                        sid: draw.sso.sid.clone(),
                    },
                    Some(Err(e)) => LoginStep::Done(LoginOutcome::Internal(e.clone())),
                    Some(Ok(_)) => self.end(tenant, draw, p, session, user),
                }
            },
        }
    }

    fn pending(
        &self,
        draw: &LoginDraw,
        p: &LoginProgress,
        session: &AuthSession,
        user: &User,
        outcome: LoginOutcome,
    ) -> (r: LoginStep)
        ensures
            self.pending_rule(*draw, *p, *session, *user, outcome, r),
    {
        match &p.password_marked {
            None => LoginStep::MarkPasswordVerified {
                id_hash: session.id_hash.clone(),
                new_id_hash: id_hash(draw.rotated_id.as_str()),
                user_id: user.id,
                now: draw.now,
            },
            Some(Err(e)) => LoginStep::Done(LoginOutcome::Internal(e.clone())),
            Some(Ok(_)) => LoginStep::Done(outcome),
        }
    }

    fn check_factors(
        &self,
        tenant: &TenantContext,
        ctx: &RequestContext,
        draw: &LoginDraw,
        p: &LoginProgress,
        session: &AuthSession,
        user: &User,
        eval: &PolicyEvaluation,
    ) -> (r: LoginStep)
        ensures
            self.factor_rule(*tenant, *ctx, *draw, *p, *session, *user, *eval, r),
    {
        if user.must_change_password {
            let outcome = LoginOutcome::PasswordChangeRequired {
                auth_session_id: draw.rotated_id.clone(),
            };
            return self.pending(draw, p, session, user, outcome);
        }
        let secret: &Option<TotpSecret> = match &p.totp {
            None => return LoginStep::FindTotp { user_id: user.id },
            Some(Err(e)) => return LoginStep::Done(LoginOutcome::Internal(e.clone())),
            Some(Ok(secret)) => secret,
        };
        if is_confirmed_secret(secret) {
            let outcome = LoginOutcome::MfaRequired { auth_session_id: draw.rotated_id.clone() };
            return self.pending(draw, p, session, user, outcome);
        }
        if let PolicyDecision::RequireMfa { policy_code } = &eval.decision {
            return close(
                p.audits,
                login_audit(
                    AuditEventType::LoginPolicyDenied,
                    AuditResult::Failure,
                    tenant.tenant_id,
                    Some(user.id),
                    &session.client_id,
                    Some(AuditReason::PolicyMfaNotEnrolled { code: policy_code.clone() }),
                ),
                LoginOutcome::MfaEnrollmentRequired,
            );
        }
        if let Some(unmet) = &eval.unmet {
            return close(
                p.audits,
                login_audit(
                    AuditEventType::LoginPolicyDenied,
                    AuditResult::Failure,
                    tenant.tenant_id,
                    Some(user.id),
                    &session.client_id,
                    Some(
                        AuditReason::PolicyMethod {
                            code: unmet.policy_code.clone(),
                            required: unmet.required.clone(),
                        },
                    ),
                ),
                LoginOutcome::PolicyDenied,
            );
        }
        self.sign_on(tenant, ctx, draw, p, session, user)
    }

    fn check_policies(
        &self,
        tenant: &TenantContext,
        ctx: &RequestContext,
        draw: &LoginDraw,
        p: &LoginProgress,
        session: &AuthSession,
        user: &User,
    ) -> (r: LoginStep)
        ensures
            self.policy_rule(*tenant, *ctx, *draw, *p, *session, *user, r),
    {
        if !user.email_verified {
            return close(
                p.audits,
                failure_audit(
                    tenant.tenant_id,
                    Some(user.id),
                    &session.client_id,
                    AuditReason::EmailNotVerified,
                ),
                LoginOutcome::EmailVerificationRequired,
            );
        }
        match &p.policy {
            None => LoginStep::EvaluatePolicies(
                PolicyQuery {
                    tenant_id: tenant.tenant_id,
                    client_id: Some(session.client_id.clone()),
                    user_id: user.id,
                    ip_address: ctx.ip_address.clone(),
                    now: draw.now,
                    acr_values: session.acr_values.clone(),
                    default_effect: self.policy_default_effect,
                    methods: only(AuthenticationMethod::Password),
                    user_verified: false,
                },
            ),
            Some(Err(e)) => LoginStep::Done(LoginOutcome::Internal(e.clone())),
            Some(Ok(eval)) => match &eval.decision {
                PolicyDecision::Deny { policy_code } => close(
                    p.audits,
                    login_audit(
                        AuditEventType::LoginPolicyDenied,
                        AuditResult::Failure,
                        tenant.tenant_id,
                        Some(user.id),
                        &session.client_id,
                        Some(AuditReason::Policy { code: policy_code.clone() }),
                    ),
                    LoginOutcome::PolicyDenied,
                ),
                _ => self.check_factors(tenant, ctx, draw, p, session, user, eval),
            },
        }
    }

    /// What comes next after a wrong password.
    pub fn handle_password_failure(
        &self,
        tenant: &TenantContext,
        p: &LoginProgress,
        session: &AuthSession,
        user: &User,
    ) -> (r: LoginStep)
        ensures
            self.password_failure_rule(*tenant, *p, *session, *user, r),
    {
        match &p.failure_locked {
            None => match p.failure_clock {
                None => LoginStep::ReadClock,
                Some(now) => LoginStep::RecordFailure {
                    user_id: user.id,
                    lockout: self.lockout,
                    now,
                },
            },
            Some(Err(e)) => LoginStep::Done(LoginOutcome::Internal(e.clone())),
            Some(Ok(locked)) => {
                if p.audits == 0 {
                    return LoginStep::Audit(
                        failure_audit(
                            tenant.tenant_id,
                            Some(user.id),
                            &session.client_id,
                            AuditReason::InvalidPassword,
                        ),
                    );
                }
                if !*locked {
                    return LoginStep::Done(LoginOutcome::InvalidCredentials);
                }
                if p.audits == 1 {
                    return LoginStep::Audit(
                        login_audit(
                            AuditEventType::LoginLocked,
                            AuditResult::Failure,
                            tenant.tenant_id,
                            Some(user.id),
                            &session.client_id,
                            Some(AuditReason::TooManyFailures),
                        ),
                    );
                }
                LoginStep::Done(LoginOutcome::Locked)
            },
        }
    }

    fn check_credentials(
        &self,
        tenant: &TenantContext,
        cmd: &LoginCommand,
        ctx: &RequestContext,
        draw: &LoginDraw,
        p: &LoginProgress,
        session: &AuthSession,
    ) -> (r: LoginStep)
        ensures
            self.credential_rule(*tenant, *cmd, *ctx, *draw, *p, *session, r),
    {
        let user: &User = match &p.user {
            None => return LoginStep::FindUser {
                tenant_id: tenant.tenant_id,
                username: cmd.username.clone(),
            },
            Some(Err(e)) => return LoginStep::Done(LoginOutcome::Internal(e.clone())),
            Some(Ok(None)) => return close(
                p.audits,
                failure_audit(tenant.tenant_id, None, &session.client_id, AuditReason::UnknownUser),
                LoginOutcome::InvalidCredentials,
            ),
            Some(Ok(Some(user))) => user,
        };
        if user.is_locked_at(draw.now) {
            return close(
                p.audits,
                login_audit(
                    AuditEventType::LoginLocked,
                    AuditResult::Failure,
                    tenant.tenant_id,
                    Some(user.id),
                    &session.client_id,
                    Some(AuditReason::AccountLocked),
                ),
                LoginOutcome::Locked,
            );
        }
        if !user.is_active() {
            return close(
                p.audits,
                failure_audit(
                    tenant.tenant_id,
                    Some(user.id),
                    &session.client_id,
                    AuditReason::AccountNotActive,
                ),
                LoginOutcome::InvalidCredentials,
            );
        }
        match &p.password {
            None => LoginStep::VerifyPassword {
                password: cmd.password.clone(),
                password_hash: user.password_hash.clone(),
            },
            Some(Err(e)) => LoginStep::Done(LoginOutcome::Internal(e.clone())),
            Some(Ok(verified)) => if *verified {
                self.check_policies(tenant, ctx, draw, p, session, user)
            } else {
                self.handle_password_failure(tenant, p, session, user)
            },
        }
    }

    /// Decides what comes next in a sign-in of which `p` is known.
    pub fn login(
        &self,
        tenant: &TenantContext,
        cmd: &LoginCommand,
        ctx: &RequestContext,
        draw: &LoginDraw,
        p: &LoginProgress,
    ) -> (r: LoginStep)
        ensures
            self.login_rule(*tenant, *cmd, *ctx, *draw, *p, r),
    {
        let session_id: &String = match non_empty(&cmd.auth_session_id) {
            None => return LoginStep::Done(LoginOutcome::SessionExpired),
            Some(session_id) => session_id,
        };
        let session: &AuthSession = match &p.session {
            None => return LoginStep::FindSession {
                tenant_id: tenant.tenant_id,
                id_hash: id_hash(session_id.as_str()),
            },
            Some(Err(e)) => return LoginStep::Done(LoginOutcome::Internal(e.clone())),
            Some(Ok(None)) => return LoginStep::Done(LoginOutcome::SessionExpired),
            Some(Ok(Some(session))) => session,
        };
        if session.is_expired_at(draw.now) {
            if p.expired_deleted {
                return LoginStep::Done(LoginOutcome::SessionExpired);
            }
            return LoginStep::DeleteExpired { id_hash: session.id_hash.clone() };
        }
        let expected: &String = match &p.csrf_token {
            None => return LoginStep::DeriveCsrf {
                auth_session_id: session_id.clone(),
                key: self.csrf_secret,
            },
            Some(expected) => expected,
        };
        if !same(expected.as_str(), cmd.csrf_token.as_str()) {
            return close(
                p.audits,
                failure_audit(tenant.tenant_id, None, &session.client_id, AuditReason::CsrfMismatch),
                LoginOutcome::CsrfMismatch,
            );
        }
        if let Some(ip) = &ctx.ip_address {
            match p.rate_allowed {
                None => return LoginStep::CheckRate { ip_address: ip.clone(), now: draw.now },
                Some(allowed) => if !allowed {
                    return close(
                        p.audits,
                        failure_audit(
                            tenant.tenant_id,
                            None,
                            &session.client_id,
                            AuditReason::IpRateLimited,
                        ),
                        LoginOutcome::RateLimited,
                    );
                },
            }
        }
        self.check_credentials(tenant, cmd, ctx, draw, p, session)
    }
}

/// Everything up to the password has been shown: a live session with its own token, a limiter that
/// lets pass, and an active, unlocked account whose password is right.
pub open spec fn password_shown(
    svc: LoginService,
    cmd: LoginCommand,
    ctx: RequestContext,
    draw: LoginDraw,
    p: LoginProgress,
) -> bool {
    &&& present(cmd.auth_session_id) is Some
    &&& p.csrf_token matches Some(expected) && expected@ == cmd.csrf_token@
    &&& p.session matches Some(Ok(Some(session))) && !session.expired_at(draw.now)
    &&& (ctx.ip_address is Some ==> p.rate_allowed matches Some(true))
    &&& p.user matches Some(Ok(Some(user))) && user.active() && !user.locked_at(draw.now)
    &&& p.password matches Some(Ok(true))
}

/// The password alone is enough: the address is confirmed, no policy refuses or asks for more, the
/// password need not be changed, and no second factor is set up.
pub open spec fn password_suffices(p: LoginProgress) -> bool {
    &&& p.user matches Some(Ok(Some(user))) && user.email_verified && !user.must_change_password
    &&& p.policy matches Some(Ok(eval)) && !(eval.decision is Deny) && !(eval.decision is RequireMfa)
        && eval.unmet is None
    &&& p.totp matches Some(Ok(secret)) && !has_confirmed(secret)
}

/// A sign-on is created, the session is marked as authenticated, a code is issued and success is
/// reported only where the password was shown and suffices; so a user on whom a policy imposes a
/// second factor never gets through with one.
pub proof fn sign_on_needs_every_proof(
    svc: LoginService,
    tenant: TenantContext,
    cmd: LoginCommand,
    ctx: RequestContext,
    draw: LoginDraw,
    p: LoginProgress,
    r: LoginStep,
)
    requires
        svc.login_rule(tenant, cmd, ctx, draw, p, r),
        r is CreateSso || r is SetAuthenticated || r is Flow || r is ResetFailures || (
        r matches LoginStep::Done(o) && (o is Success || o is ConsentRequired)),
    ensures
        password_shown(svc, cmd, ctx, draw, p),
        password_suffices(p),
{
}

/// While a second factor or a new password is outstanding, the failure counter is not reset and no
/// sign-on is created.
pub proof fn pending_login_keeps_the_counter(
    svc: LoginService,
    tenant: TenantContext,
    cmd: LoginCommand,
    ctx: RequestContext,
    draw: LoginDraw,
    p: LoginProgress,
    r: LoginStep,
)
    requires
        svc.login_rule(tenant, cmd, ctx, draw, p, r),
        (p.totp matches Some(Ok(secret)) && has_confirmed(secret)) || (p.user matches Some(
            Ok(Some(user)),
        ) && user.must_change_password),
    ensures
        !(r is ResetFailures),
        !(r is CreateSso),
        !(r is SetAuthenticated),
{
}

/// Before the sign-on is created, whatever failures are on record have been reset.
pub proof fn completed_login_resets_the_counter(
    svc: LoginService,
    tenant: TenantContext,
    cmd: LoginCommand,
    ctx: RequestContext,
    draw: LoginDraw,
    p: LoginProgress,
    r: LoginStep,
)
    requires
        svc.login_rule(tenant, cmd, ctx, draw, p, r),
        r is CreateSso || (r matches LoginStep::Done(o) && (o is Success || o is ConsentRequired)),
    ensures
        p.user matches Some(Ok(Some(user))) && (user.has_failures() ==> p.failures_reset matches Some(
            Ok(_),
        )),
{
}

/// Wherever the password has been shown, the session goes on under the identifier drawn for this
/// request, and never under the one that it had before.
pub proof fn session_identifier_is_rotated(
    svc: LoginService,
    tenant: TenantContext,
    cmd: LoginCommand,
    ctx: RequestContext,
    draw: LoginDraw,
    p: LoginProgress,
    r: LoginStep,
)
    requires
        svc.login_rule(tenant, cmd, ctx, draw, p, r),
    ensures
        r matches LoginStep::MarkPasswordVerified { new_id_hash, .. } ==> new_id_hash@ == id_hash_of(
            draw.rotated_id@,
        ),
        r matches LoginStep::SetAuthenticated { new_id_hash, .. } ==> new_id_hash@ == id_hash_of(
            draw.rotated_id@,
        ),
        r matches LoginStep::Flow(FlowStep::DeleteSession { id_hash }) ==> id_hash@ == id_hash_of(
            draw.rotated_id@,
        ),
        r matches LoginStep::Done(LoginOutcome::MfaRequired { auth_session_id }) ==> auth_session_id
            == draw.rotated_id,
        r matches LoginStep::Done(
            LoginOutcome::PasswordChangeRequired { auth_session_id },
        ) ==> auth_session_id == draw.rotated_id,
        r matches LoginStep::Done(LoginOutcome::ConsentRequired { auth_session_id, .. })
            ==> auth_session_id == draw.rotated_id,
{
}

/// The policies, the state of the address and the second factor are looked at, and an answer that
/// betrays them is given, only where the password has been shown.
pub proof fn policies_stay_hidden(
    svc: LoginService,
    tenant: TenantContext,
    cmd: LoginCommand,
    ctx: RequestContext,
    draw: LoginDraw,
    p: LoginProgress,
    r: LoginStep,
)
    requires
        svc.login_rule(tenant, cmd, ctx, draw, p, r),
        r is EvaluatePolicies || r is FindTotp || r is MarkPasswordVerified || (
        r matches LoginStep::Done(o) && (o is PolicyDenied || o is MfaEnrollmentRequired
            || o is EmailVerificationRequired || o is MfaRequired || o is PasswordChangeRequired)),
    ensures
        password_shown(svc, cmd, ctx, draw, p),
{
}

/// An unknown user, an account that is not active and a wrong password that does not lock the
/// account are answered alike.
pub proof fn refused_credentials_look_alike(
    svc: LoginService,
    tenant: TenantContext,
    cmd: LoginCommand,
    ctx: RequestContext,
    draw: LoginDraw,
    p: LoginProgress,
    r: LoginStep,
    outcome: LoginOutcome,
)
    requires
        svc.login_rule(tenant, cmd, ctx, draw, p, r),
        r == LoginStep::Done(outcome),
        present(cmd.auth_session_id) is Some,
        p.csrf_token matches Some(expected) && expected@ == cmd.csrf_token@,
        p.session matches Some(Ok(Some(session))) && !session.expired_at(draw.now),
        ctx.ip_address is Some ==> p.rate_allowed matches Some(true),
        p.user matches Some(Ok(found)) && match found {
            None => true,
            Some(user) => !user.locked_at(draw.now) && (!user.active() || (p.password matches Some(Ok(
                false,
            )) && p.failure_locked matches Some(Ok(false)))),
        },
    ensures
        outcome == LoginOutcome::InvalidCredentials,
{
}

/// Nothing is asked for that is known already: every call that comes next fills a gap.
pub proof fn nothing_is_asked_twice(
    svc: LoginService,
    tenant: TenantContext,
    cmd: LoginCommand,
    ctx: RequestContext,
    draw: LoginDraw,
    p: LoginProgress,
    r: LoginStep,
)
    requires
        svc.login_rule(tenant, cmd, ctx, draw, p, r),
    ensures
        p.lacks_answer_to(r),
{
}

impl LoginProgress {
    /// Where a call stands in the order of calls; the outcome stands last.
    pub open spec fn place(self, step: LoginStep) -> int {
        match step {
            LoginStep::FindSession { .. } => 0,
            LoginStep::DeleteExpired { .. } => 1,
            LoginStep::DeriveCsrf { .. } => 1,
            LoginStep::CheckRate { .. } => 2,
            LoginStep::FindUser { .. } => 3,
            LoginStep::VerifyPassword { .. } => 4,
            LoginStep::ReadClock => 5,
            LoginStep::RecordFailure { .. } => 6,
            LoginStep::EvaluatePolicies(_) => 6,
            LoginStep::FindTotp { .. } => 7,
            LoginStep::MarkPasswordVerified { .. } => 8,
            LoginStep::ResetFailures { .. } => 9,
            LoginStep::CreateSso(_) => 10,
            LoginStep::Audit(_) => 11 + self.audits,
            LoginStep::SetAuthenticated { .. } => 13,
            LoginStep::Flow(s) => 14 + s.place(),
            LoginStep::Done(_) => 18,
        }
    }

    /// The call `step` asks for something that is not known yet.
    pub open spec fn lacks_answer_to(self, step: LoginStep) -> bool {
        match step {
            LoginStep::FindSession { .. } => self.session is None,
            LoginStep::DeleteExpired { .. } => !self.expired_deleted,
            LoginStep::DeriveCsrf { .. } => self.csrf_token is None,
            LoginStep::CheckRate { .. } => self.rate_allowed is None,
            LoginStep::FindUser { .. } => self.user is None,
            LoginStep::VerifyPassword { .. } => self.password is None,
            LoginStep::ReadClock => self.failure_clock is None,
            LoginStep::RecordFailure { .. } => self.failure_locked is None,
            LoginStep::EvaluatePolicies(_) => self.policy is None,
            LoginStep::FindTotp { .. } => self.totp is None,
            LoginStep::MarkPasswordVerified { .. } => self.password_marked is None,
            LoginStep::ResetFailures { .. } => self.failures_reset is None,
            LoginStep::CreateSso(_) => self.sso_created is None,
            LoginStep::SetAuthenticated { .. } => self.authenticated is None,
            LoginStep::Flow(s) => self.flow.lacks_answer_to(s),
            LoginStep::Audit(_) => self.audits < 2,
            LoginStep::Done(_) => true,
        }
    }

    /// `after` is this with the answer to the call `step`.
    pub open spec fn answered(self, step: LoginStep, after: LoginProgress) -> bool {
        match step {
            LoginStep::FindSession { .. } => after.session is Some && after == (LoginProgress {
                session: after.session,
                ..self
            }),
            LoginStep::DeleteExpired { .. } => after == (LoginProgress { expired_deleted: true, ..self }),
            LoginStep::DeriveCsrf { .. } => after.csrf_token is Some && after == (LoginProgress {
                csrf_token: after.csrf_token,
                ..self
            }),
            LoginStep::CheckRate { .. } => after.rate_allowed is Some && after == (LoginProgress {
                rate_allowed: after.rate_allowed,
                ..self
            }),
            LoginStep::FindUser { .. } => after.user is Some && after == (LoginProgress {
                user: after.user,
                ..self
            }),
            LoginStep::VerifyPassword { .. } => after.password is Some && after == (LoginProgress {
                password: after.password,
                ..self
            }),
            LoginStep::ReadClock => after.failure_clock is Some && after == (LoginProgress {
                failure_clock: after.failure_clock,
                ..self
            }),
            LoginStep::RecordFailure { .. } => after.failure_locked is Some && after == (LoginProgress {
                failure_locked: after.failure_locked,
                ..self
            }),
            LoginStep::EvaluatePolicies(_) => after.policy is Some && after == (LoginProgress {
                policy: after.policy,
                ..self
            }),
            LoginStep::FindTotp { .. } => after.totp is Some && after == (LoginProgress {
                totp: after.totp,
                ..self
            }),
            LoginStep::MarkPasswordVerified { .. } => after.password_marked is Some && after == (LoginProgress {
                password_marked: after.password_marked,
                ..self
            }),
            LoginStep::ResetFailures { .. } => after.failures_reset is Some && after == (LoginProgress {
                failures_reset: after.failures_reset,
                ..self
            }),
            LoginStep::CreateSso(_) => after.sso_created is Some && after == (LoginProgress {
                sso_created: after.sso_created,
                ..self
            }),
            LoginStep::SetAuthenticated { .. } => after.authenticated is Some && after == (LoginProgress {
                authenticated: after.authenticated,
                ..self
            }),
            LoginStep::Flow(s) => self.flow.answered(s, after.flow) && after == (LoginProgress {
                flow: after.flow,
                ..self
            }),
            LoginStep::Audit(_) => after.audits == self.audits + 1 && after == (LoginProgress {
                audits: after.audits,
                ..self
            }),
            LoginStep::Done(_) => false,
        }
    }
}

/// The calls keep one order: whatever comes after the answer to a call stands behind it. So no call
/// is made twice, and every request comes to its outcome.
pub proof fn login_calls_keep_their_order(
    svc: LoginService,
    tenant: TenantContext,
    cmd: LoginCommand,
    ctx: RequestContext,
    draw: LoginDraw,
    p: LoginProgress,
    r: LoginStep,
    after: LoginProgress,
    next: LoginStep,
)
    requires
        svc.login_rule(tenant, cmd, ctx, draw, p, r),
        p.answered(r, after),
        svc.login_rule(tenant, cmd, ctx, draw, after, next),
    ensures
        p.place(r) < after.place(next) <= 18,
{
}

/// The policies judge a sign-in by what the sign-on will record of it: for one user, whatever the
/// policies are asked and whatever sign-on is created name the same methods, time and address. The
/// methods are the password alone, and no authenticator has verified anybody.
pub proof fn the_policies_judge_what_is_recorded(
    svc: LoginService,
    tenant: TenantContext,
    cmd: LoginCommand,
    ctx: RequestContext,
    draw: LoginDraw,
    asking: LoginProgress,
    q: PolicyQuery,
    creating: LoginProgress,
    g: SsoGrant,
)
    requires
        call_ensures(
            LoginService::login,
            (&svc, &tenant, &cmd, &ctx, &draw, &asking),
            LoginStep::EvaluatePolicies(q),
        ),
        call_ensures(
            LoginService::login,
            (&svc, &tenant, &cmd, &ctx, &draw, &creating),
            LoginStep::CreateSso(g),
        ),
        creating.user == asking.user,
    ensures
        q.methods@ == g.methods@,
        q.methods@ == seq![AuthenticationMethod::Password],
        !q.user_verified,
        q.user_id == g.user_id,
        q.now == g.now,
        q.ip_address == g.ip_address,
{
}

/// Whatever the policies are asked in a sign-in by password, they are asked about the password
/// alone, for the user who has shown it, at the client of the request, in its tenant, now.
pub proof fn the_policies_are_asked_about_the_password(
    svc: LoginService,
    tenant: TenantContext,
    cmd: LoginCommand,
    ctx: RequestContext,
    draw: LoginDraw,
    p: LoginProgress,
    q: PolicyQuery,
)
    requires
        call_ensures(
            LoginService::login,
            (&svc, &tenant, &cmd, &ctx, &draw, &p),
            LoginStep::EvaluatePolicies(q),
        ),
    ensures
        q.methods@ == seq![AuthenticationMethod::Password],
        !q.user_verified,
        p.user matches Some(Ok(Some(user))) && q.user_id == user.id,
        p.session matches Some(Ok(Some(session))) && q.client_id == Some(session.client_id)
            && q.acr_values == session.acr_values,
        q.tenant_id == tenant.tenant_id,
        q.ip_address == ctx.ip_address,
        q.now == draw.now,
        q.default_effect == svc.policy_default_effect,
{
}

/// The sign-on that a password creates is that of the user who has shown it, begins now, lasts as
/// long as the service says, is kept under the hash of the cookie that the answer carries, and
/// records the password and where the request came from.
pub proof fn a_password_signs_on_its_user(
    svc: LoginService,
    tenant: TenantContext,
    cmd: LoginCommand,
    ctx: RequestContext,
    draw: LoginDraw,
    p: LoginProgress,
    g: SsoGrant,
    end: LoginProgress,
    outcome: LoginOutcome,
)
    requires
        call_ensures(
            LoginService::login,
            (&svc, &tenant, &cmd, &ctx, &draw, &p),
            LoginStep::CreateSso(g),
        ),
        call_ensures(
            LoginService::login,
            (&svc, &tenant, &cmd, &ctx, &draw, &end),
            LoginStep::Done(outcome),
        ),
    ensures
        p.user matches Some(Ok(Some(user))) && g.user_id == user.id,
        g.now == draw.now,
        g.idle_ttl == svc.sso_idle_ttl,
        g.absolute_ttl == svc.sso_absolute_ttl,
        g.methods@ == seq![AuthenticationMethod::Password],
        g.user_agent == ctx.user_agent,
        g.ip_address == ctx.ip_address,
        outcome matches LoginOutcome::Success { sso_session_id, .. } ==> g.session_hash@
            == sha256_hex_of(sso_session_id@),
        outcome matches LoginOutcome::ConsentRequired { sso_session_id, .. } ==> g.session_hash@
            == sha256_hex_of(sso_session_id@),
{
}

/// Every call of a sign-in is about the request: its session, its token, its address, the name and
/// the password that were sent, and the user who was found under that name.
pub proof fn login_calls_are_about_the_request(
    svc: LoginService,
    tenant: TenantContext,
    cmd: LoginCommand,
    ctx: RequestContext,
    draw: LoginDraw,
    p: LoginProgress,
    r: LoginStep,
)
    requires
        call_ensures(LoginService::login, (&svc, &tenant, &cmd, &ctx, &draw, &p), r),
    ensures
        match r {
            LoginStep::FindSession { tenant_id, id_hash } => tenant_id == tenant.tenant_id && (
            cmd.auth_session_id matches Some(id) && id_hash@ == id_hash_of(id@)),
            LoginStep::DeleteExpired { id_hash } => p.session matches Some(Ok(Some(session)))
                && id_hash == session.id_hash && session.expires_at.nanos <= draw.now.nanos,
            LoginStep::DeriveCsrf { auth_session_id, key } => key == svc.csrf_secret && (
            cmd.auth_session_id matches Some(id) && auth_session_id@ == id@),
            LoginStep::CheckRate { ip_address, now } => ctx.ip_address == Some(ip_address) && now
                == draw.now,
            LoginStep::FindUser { tenant_id, username } => tenant_id == tenant.tenant_id && username
                == cmd.username,
            LoginStep::VerifyPassword { password, password_hash } => password == cmd.password && (
            p.user matches Some(Ok(Some(user))) && password_hash == user.password_hash),
            LoginStep::RecordFailure { user_id, lockout, now } => lockout == svc.lockout
                && p.failure_clock == Some(now) && p.password == Some(Ok::<bool, String>(false)) && (
            p.user matches Some(Ok(Some(user))) && user_id == user.id),
            LoginStep::FindTotp { user_id } => p.user matches Some(Ok(Some(user))) && user_id
                == user.id,
            LoginStep::ResetFailures { user_id } => p.user matches Some(Ok(Some(user))) && user_id
                == user.id,
            LoginStep::MarkPasswordVerified { id_hash, new_id_hash, user_id, now } => (
            p.session matches Some(Ok(Some(session))) && id_hash == session.id_hash) && new_id_hash@
                == id_hash_of(draw.rotated_id@) && (p.user matches Some(Ok(Some(user))) && user_id
                == user.id) && now == draw.now,
            LoginStep::SetAuthenticated { id_hash, new_id_hash, user_id, now, sid } => (
            p.session matches Some(Ok(Some(session))) && id_hash == session.id_hash) && new_id_hash@
                == id_hash_of(draw.rotated_id@) && (p.user matches Some(Ok(Some(user))) && user_id
                == user.id) && now == draw.now && sid == draw.sso.sid,
            _ => true,
        },
{
}

/// The code of a sign-in is bound to the session that was found, the user who was found, and the
/// sign-on that was drawn; and it goes to the address of that session, by a redirect.
pub proof fn a_login_code_is_that_of_the_request(
    svc: LoginService,
    tenant: TenantContext,
    cmd: LoginCommand,
    ctx: RequestContext,
    draw: LoginDraw,
    p: LoginProgress,
    f: FlowStep,
)
    requires
        call_ensures(
            LoginService::login,
            (&svc, &tenant, &cmd, &ctx, &draw, &p),
            LoginStep::Flow(f),
        ),
    ensures
        p.session matches Some(Ok(Some(session))) && (p.user matches Some(Ok(Some(user)))
            && match f {
            FlowStep::FindConsent { tenant_id, user_id, client_id } => tenant_id == tenant.tenant_id
                && user_id == user.id && client_id == session.client_id,
            FlowStep::IssueCode(c) => c.tenant_id == tenant.tenant_id && c.user_id == user.id
                && c.client_id == session.client_id && c.redirect_uri == session.redirect_uri
                && c.scope@ == session.scope@ && c.nonce == session.nonce && c.code_challenge
                == session.code_challenge && c.code_challenge_method
                == session.code_challenge_method && c.auth_time == draw.now && c.sid == Some(
                draw.sso.sid,
            ),
            FlowStep::DeleteSession { id_hash } => id_hash@ == id_hash_of(draw.rotated_id@),
            FlowStep::RedirectCode { redirect_uri, code, state } => redirect_uri
                == session.redirect_uri && state == session.state && p.flow.code == Some(
                Ok::<String, String>(code),
            ),
            FlowStep::DispatchCode { .. } => false,
            _ => false,
        }),
{
}

/// Every refusal has its cause in the request or in what was found, and every cause of an internal
/// error is an answer that failed.
pub proof fn login_refusals_have_their_causes(
    svc: LoginService,
    tenant: TenantContext,
    cmd: LoginCommand,
    ctx: RequestContext,
    draw: LoginDraw,
    p: LoginProgress,
    outcome: LoginOutcome,
)
    requires
        call_ensures(
            LoginService::login,
            (&svc, &tenant, &cmd, &ctx, &draw, &p),
            LoginStep::Done(outcome),
        ),
    ensures
        match outcome {
            LoginOutcome::SessionExpired => cmd.auth_session_id is None || cmd.auth_session_id->0@.len()
                == 0 || (p.session matches Some(Ok(found)) && (found matches Some(session)
                ==> session.expires_at.nanos <= draw.now.nanos)),
            LoginOutcome::CsrfMismatch => p.csrf_token matches Some(expected) && expected@
                != cmd.csrf_token@,
            LoginOutcome::RateLimited => ctx.ip_address is Some && p.rate_allowed == Some(false),
            LoginOutcome::Locked => p.user matches Some(Ok(Some(user))) && ((
            user.locked_until matches Some(until) && draw.now.nanos < until.nanos) || (p.password
                == Some(Ok::<bool, String>(false)) && p.failure_locked == Some(
                Ok::<bool, String>(true),
            ))),
            LoginOutcome::InvalidCredentials => p.user matches Some(Ok(found)) && (
            found matches Some(user) ==> user.status != crate::model::UserStatus::Active
                || p.password == Some(Ok::<bool, String>(false))),
            LoginOutcome::EmailVerificationRequired => p.user matches Some(Ok(Some(user)))
                && !user.email_verified,
            LoginOutcome::PasswordChangeRequired { .. } => p.user matches Some(Ok(Some(user)))
                && user.must_change_password,
            LoginOutcome::MfaRequired { .. } => p.totp matches Some(Ok(Some(secret)))
                && secret.confirmed_at is Some,
            LoginOutcome::MfaEnrollmentRequired => (p.policy matches Some(Ok(eval))
                && eval.decision is RequireMfa) && (p.totp matches Some(Ok(secret)) && (
            secret matches Some(s) ==> s.confirmed_at is None)),
            LoginOutcome::PolicyDenied => p.policy matches Some(Ok(eval)) && (eval.decision is Deny
                || eval.unmet is Some),
            LoginOutcome::Internal(e) => p.session == Some(
                Err::<Option<AuthSession>, String>(e),
            ) || p.user == Some(Err::<Option<User>, String>(e)) || p.password == Some(
                Err::<bool, String>(e),
            ) || p.failure_locked == Some(Err::<bool, String>(e)) || p.policy == Some(
                Err::<PolicyEvaluation, String>(e),
            ) || p.totp == Some(Err::<Option<TotpSecret>, String>(e)) || p.password_marked == Some(
                Err::<(), String>(e),
            ) || p.failures_reset == Some(Err::<(), String>(e)) || p.sso_created == Some(
                Err::<(), String>(e),
            ) || p.authenticated == Some(Err::<(), String>(e)) || p.flow.code == Some(
                Err::<String, String>(e),
            ) || p.flow.consent == Some(
                Err::<Option<crate::model::ClientConsent>, String>(e),
            ),
            LoginOutcome::Success { location, user_language, .. } => p.flow.redirect == Some(location)
                && (p.user matches Some(Ok(Some(user))) && user_language == user.language),
            LoginOutcome::ConsentRequired { auth_session_id, sso_session_id } => auth_session_id
                == draw.rotated_id && sso_session_id == draw.sso.sso_session_id && p.flow.consent is Some,
        },
{
}

/// Each cause of a refusal ends the sign-in in its refusal, at most after an entry in the audit
/// trail: nothing further is asked for.
pub proof fn a_refused_login_goes_no_further(
    svc: LoginService,
    tenant: TenantContext,
    cmd: LoginCommand,
    ctx: RequestContext,
    draw: LoginDraw,
    p: LoginProgress,
    session: AuthSession,
    r: LoginStep,
)
    requires
        call_ensures(LoginService::login, (&svc, &tenant, &cmd, &ctx, &draw, &p), r),
        cmd.auth_session_id matches Some(id) && id@.len() > 0,
        p.session == Some(Ok::<Option<AuthSession>, String>(Some(session))),
        draw.now.nanos < session.expires_at.nanos,
        p.csrf_token is Some,
    ensures
        p.csrf_token->0@ != cmd.csrf_token@ ==> r is Audit || r == LoginStep::Done(
            LoginOutcome::CsrfMismatch,
        ),
        p.csrf_token->0@ == cmd.csrf_token@ && ctx.ip_address is Some && p.rate_allowed == Some(false)
            ==> r is Audit || r == LoginStep::Done(LoginOutcome::RateLimited),
        p.csrf_token->0@ == cmd.csrf_token@ && (ctx.ip_address is None || p.rate_allowed == Some(true))
            && (p.user matches Some(Ok(Some(user))) && (user.locked_until matches Some(until)
            && draw.now.nanos < until.nanos)) ==> r is Audit || r == LoginStep::Done(
            LoginOutcome::Locked,
        ),
        p.csrf_token->0@ == cmd.csrf_token@ && (ctx.ip_address is None || p.rate_allowed == Some(true))
            && p.user == Some(Ok::<Option<User>, String>(None)) ==> r is Audit || r
            == LoginStep::Done(LoginOutcome::InvalidCredentials),
{
}

/// Every entry of a sign-in in the audit trail stands in the tenant, names the client of the request
/// and the user as far as one was found, is a success only where the sign-on was created, and gives
/// the cause that there was.
pub proof fn login_audits_tell_what_happened(
    svc: LoginService,
    tenant: TenantContext,
    cmd: LoginCommand,
    ctx: RequestContext,
    draw: LoginDraw,
    p: LoginProgress,
    a: AuditRecord,
)
    requires
        call_ensures(
            LoginService::login,
            (&svc, &tenant, &cmd, &ctx, &draw, &p),
            LoginStep::Audit(a),
        ),
    ensures
        a.tenant_id == Some(tenant.tenant_id),
        p.session matches Some(Ok(Some(session))) && a.client_id == Some(session.client_id),
        a.user_id matches Some(id) ==> (p.user matches Some(Ok(Some(user))) && id == user.id),
        a.result == AuditResult::Success <==> a.event == AuditEventType::SsoSessionCreated || a.event
            == AuditEventType::LoginSucceeded,
        a.result == AuditResult::Success ==> a.user_id is Some && a.reason is None && p.password
            == Some(Ok::<bool, String>(true)) && (p.sso_created matches Some(Ok(_))),
        a.result == AuditResult::Failure ==> match a.reason {
            Some(AuditReason::CsrfMismatch) => a.event == AuditEventType::LoginFailed
                && p.csrf_token->0@ != cmd.csrf_token@,
            Some(AuditReason::IpRateLimited) => a.event == AuditEventType::LoginFailed
                && p.rate_allowed == Some(false),
            Some(AuditReason::UnknownUser) => a.event == AuditEventType::LoginFailed && p.user
                == Some(Ok::<Option<User>, String>(None)),
            Some(AuditReason::AccountLocked) => a.event == AuditEventType::LoginLocked
                && a.user_id is Some && (p.user->0->Ok_0->0.locked_until matches Some(until)
                && draw.now.nanos < until.nanos),
            Some(AuditReason::AccountNotActive) => a.event == AuditEventType::LoginFailed
                && a.user_id is Some && p.user->0->Ok_0->0.status
                != crate::model::UserStatus::Active,
            Some(AuditReason::InvalidPassword) => a.event == AuditEventType::LoginFailed
                && a.user_id is Some && p.password == Some(Ok::<bool, String>(false)),
            Some(AuditReason::TooManyFailures) => a.event == AuditEventType::LoginLocked
                && a.user_id is Some && p.failure_locked == Some(Ok::<bool, String>(true)),
            Some(AuditReason::EmailNotVerified) => a.event == AuditEventType::LoginFailed
                && a.user_id is Some && !p.user->0->Ok_0->0.email_verified,
            Some(AuditReason::Policy { code }) => a.event == AuditEventType::LoginPolicyDenied
                && a.user_id is Some && (
            p.policy->0->Ok_0.decision matches PolicyDecision::Deny { policy_code } && code
                == policy_code),
            Some(AuditReason::PolicyMfaNotEnrolled { code }) => a.event
                == AuditEventType::LoginPolicyDenied && a.user_id is Some && (
            p.policy->0->Ok_0.decision matches PolicyDecision::RequireMfa { policy_code } && code
                == policy_code),
            Some(AuditReason::PolicyMethod { code, required }) => a.event
                == AuditEventType::LoginPolicyDenied && a.user_id is Some && (
            p.policy->0->Ok_0.unmet matches Some(unmet) && code == unmet.policy_code && required
                == unmet.required),
            _ => false,
        },
{
}

/// Whoever shows a right password that suffices gets in: with every call answered in their favour,
/// the sign-in succeeds, and the user is sent where the code goes.
pub proof fn a_login_in_order_succeeds(
    svc: LoginService,
    tenant: TenantContext,
    cmd: LoginCommand,
    ctx: RequestContext,
    draw: LoginDraw,
    p: LoginProgress,
    session: AuthSession,
    user: User,
    location: String,
    r: LoginStep,
)
    requires
        call_ensures(LoginService::login, (&svc, &tenant, &cmd, &ctx, &draw, &p), r),
        cmd.auth_session_id matches Some(id) && id@.len() > 0,
        p.session == Some(Ok::<Option<AuthSession>, String>(Some(session))),
        draw.now.nanos < session.expires_at.nanos,
        p.csrf_token matches Some(expected) && expected@ == cmd.csrf_token@,
        ctx.ip_address is None || p.rate_allowed == Some(true),
        p.user == Some(Ok::<Option<User>, String>(Some(user))),
        user.locked_until is None,
        user.status == crate::model::UserStatus::Active,
        user.email_verified,
        !user.must_change_password,
        p.password == Some(Ok::<bool, String>(true)),
        p.policy matches Some(Ok(eval)) && eval.decision is Allow && eval.unmet is None,
        p.totp == Some(Ok::<Option<TotpSecret>, String>(None)),
        p.failures_reset == Some(Ok::<(), String>(())),
        p.sso_created == Some(Ok::<(), String>(())),
        p.audits == 2,
        p.authenticated == Some(Ok::<(), String>(())),
        session.scope@.len() == 0,
        p.flow.code matches Some(Ok(_)),
        p.flow.deleted,
        p.flow.redirect == Some(location),
    ensures
        r matches LoginStep::Done(
            LoginOutcome::Success { location: to, sso_session_id, user_language },
        ) && to == location && sso_session_id == draw.sso.sso_session_id && user_language
            == user.language,
{
    assert(crate::text::views(session.scope@) =~= Seq::<Seq<char>>::empty());
    assert(crate::code_flow::needing_consent(Seq::<Seq<char>>::empty()).len() == 0) by {
        reveal(Seq::filter);
    }
}

/// A service keeps each of its keys and spans for what it was given for.
pub proof fn a_login_service_is_made_of_what_it_is_given(
    sso_idle_ttl: Span,
    sso_absolute_ttl: Span,
    lockout: LockoutPolicy,
    policy_default_effect: DefaultPolicyEffect,
    csrf_secret: [u8; 32],
    svc: LoginService,
)
    requires
        call_ensures(
            LoginService::new,
            (sso_idle_ttl, sso_absolute_ttl, lockout, policy_default_effect, csrf_secret),
            svc,
        ),
    ensures
        svc.sso_idle_ttl == sso_idle_ttl,
        svc.sso_absolute_ttl == sso_absolute_ttl,
        svc.lockout == lockout,
        svc.policy_default_effect == policy_default_effect,
        svc.csrf_secret == csrf_secret,
{
}

/// No way out of a sign-in is left without a trace: a session that has expired is removed before it is
/// reported, every refusal is on record, and success is reported only once the sign-on, the change of
/// the session and both entries are there.
pub proof fn a_login_leaves_its_traces(
    svc: LoginService,
    tenant: TenantContext,
    cmd: LoginCommand,
    ctx: RequestContext,
    draw: LoginDraw,
    p: LoginProgress,
    outcome: LoginOutcome,
)
    requires
        call_ensures(
            LoginService::login,
            (&svc, &tenant, &cmd, &ctx, &draw, &p),
            LoginStep::Done(outcome),
        ),
    ensures
        outcome is SessionExpired && (cmd.auth_session_id matches Some(id) && id@.len() > 0) && (
        p.session matches Some(Ok(Some(_)))) ==> p.expired_deleted,
        outcome is CsrfMismatch || outcome is RateLimited || outcome is InvalidCredentials
            || outcome is Locked || outcome is EmailVerificationRequired || outcome is PolicyDenied
            || outcome is MfaEnrollmentRequired ==> p.audits > 0,
        outcome is MfaRequired || outcome is PasswordChangeRequired ==> (
        p.password_marked matches Some(Ok(_))),
        outcome is Success || outcome is ConsentRequired ==> p.audits >= 2 && (
        p.sso_created matches Some(Ok(_))) && (p.authenticated matches Some(Ok(_))),
        outcome is Success ==> p.flow.deleted && (p.flow.code matches Some(Ok(_))),
        p.password == Some(Ok::<bool, String>(false)) && (outcome is InvalidCredentials) ==> (
        p.failure_locked matches Some(Ok(_))) || !(p.user matches Some(Ok(Some(user))) && user.status
            == crate::model::UserStatus::Active),
{
}

} // verus!
