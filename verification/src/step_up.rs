//! Confirming one's identity before a sensitive operation.
//!
//! A password is always asked for, and a code with it where the operation demands two factors; or a
//! passkey, which serves as two. Whoever confirms must be the user of the sign-on.
use crate::audit::{AuditEventType, AuditReason, AuditRecord, AuditResult, StepUpFault};
use crate::crypto::{sha256_hex, sha256_hex_of};
use crate::mfa_login::{has_confirmed, is_confirmed_secret};
use crate::model::{
    both, non_empty, only, present, AuthenticationMethod, Reply, RequestContext, SsoSession,
    TenantContext, TenantId, TotpSecret, User, UserStatus, Uuid,
};
use crate::passkey_assertion::{
    step_up_begin_rule, BeginProgress, BeginStep, PasskeyAssertionError, PasskeyAssertionService,
    PasskeyChallenge, PasskeyFlow, VerifiedPasskeyUser, CHALLENGE_TTL_SECS,
};
use crate::time::{Span, Timestamp};
use vstd::prelude::*;

verus! {

/// An operation before which an identity is confirmed, by the name it is recorded under.
pub struct SensitiveOperation {
    pub name: String,
}

#[derive(Clone, Copy, Debug, PartialEq, Eq, Structural)]
pub enum AuthenticationStrength {
    SingleFactor,
    MultiFactor,
}

#[derive(Clone, Copy, Debug, PartialEq, Eq, Structural)]
pub enum StepUpDecision {
    Satisfied,
    ReauthenticationRequired,
    SecondFactorRequired,
}

/// What the sign-on is worth to an operation.
#[derive(Clone, Copy, Debug, PartialEq, Eq, Structural)]
pub struct StepUpEvaluation {
    pub decision: StepUpDecision,
    pub required_strength: AuthenticationStrength,
}

pub enum StepUpCheckOutcome {
    Satisfied,
    ChallengeRequired { second_factor_required: bool, passkey_available: bool },
    SessionExpired,
    Internal(String),
}

pub struct StepUpVerifyCommand {
    pub sso_session_id: String,
    pub operation: SensitiveOperation,
    pub password: String,
    pub totp_code: Option<String>,
}

pub struct StepUpPasskeyVerifyCommand {
    pub sso_session_id: String,
    pub operation: SensitiveOperation,
    pub challenge_id: Uuid,
    /// The browser's answer, as JSON.
    pub credential: String,
}

pub enum StepUpVerifyOutcome {
    /// The identity is confirmed, and that is on record.
    Confirmed,
    InvalidCredentials,
    SecondFactorRequired,
    RateLimited,
    SessionExpired,
    Internal(String),
}

/// What is known so far.
#[derive(Default)]
pub struct StepUpProgress {
    pub rate_allowed: Option<bool>,
    pub session: Reply<Option<SsoSession>>,
    pub user: Reply<Option<User>>,
    pub password: Reply<bool>,
    pub totp: Reply<Option<TotpSecret>>,
    /// What the operation demands of a user with, or without, a second factor.
    pub strength: Option<AuthenticationStrength>,
    pub evaluation: Option<StepUpEvaluation>,
    pub passkey_available: Reply<bool>,
    /// The secret as it is when the code is compared.
    pub totp_again: Reply<Option<TotpSecret>>,
    pub totp_matches: Reply<bool>,
    pub assertion: Option<Result<VerifiedPasskeyUser, PasskeyAssertionError>>,
    pub recorded: Reply<()>,
    /// How many audit entries were written.
    pub audits: usize,
}

/// A call to make.
pub enum StepUpCall {
    CheckRate { ip_address: String, now: Timestamp },
    FindSession { session_hash: String },
    FindUser { user_id: Uuid },
    VerifyPassword { password: String, password_hash: String },
    FindTotp { user_id: Uuid },
    FindTotpAgain { user_id: Uuid },
    VerifyTotp { secret_encrypted: String, key_encryption_key: [u8; 32], code: String },
    RequiredStrength { operation: String, max_age_secs: u64, has_second_factor: bool },
    Evaluate {
        session: SsoSession,
        step_up_at: Option<Timestamp>,
        operation: String,
        max_age_secs: u64,
        has_second_factor: bool,
        now: Timestamp,
    },
    FindUsablePasskey { user_id: Uuid },
    VerifyAssertion { tenant_id: TenantId, challenge_id: Uuid, answer: String, flow: PasskeyFlow },
    RecordStepUp { session_hash: String, methods: Vec<AuthenticationMethod>, now: Timestamp },
    Audit(AuditRecord),
}

/// What comes next: a call to make, or the outcome.
pub enum StepUpStep<O> {
    Call(StepUpCall),
    Done(O),
}

pub struct StepUpService {
    /// The key under which the secrets of time-based codes are stored.
    pub key_encryption_key: [u8; 32],
    /// How long a confirmation lasts, in seconds.
    pub max_age_secs: u64,
}

/// The audit entry for a confirmation that failed.
pub open spec fn refusal_entry(
    tenant_id: TenantId,
    operation: String,
    user_id: Uuid,
    fault: StepUpFault,
) -> AuditRecord {
    AuditRecord {
        event: AuditEventType::StepUpFailed,
        result: AuditResult::Failure,
        tenant_id: Some(tenant_id),
        user_id: Some(user_id),
        client_id: None,
        reason: Some(AuditReason::OperationRefused { operation, fault }),
    }
}

/// The audit entry for a confirmation.
pub open spec fn success_entry(
    tenant_id: TenantId,
    user_id: Uuid,
    reason: AuditReason,
) -> AuditRecord {
    AuditRecord {
        event: AuditEventType::StepUpSucceeded,
        result: AuditResult::Success,
        tenant_id: Some(tenant_id),
        user_id: Some(user_id),
        client_id: None,
        reason: Some(reason),
    }
}

/// A failure is audited, then the credentials are refused.
pub open spec fn refused(
    audits: usize,
    tenant_id: TenantId,
    operation: String,
    user_id: Uuid,
    fault: StepUpFault,
) -> StepUpStep<StepUpVerifyOutcome> {
    if audits == 0 {
        StepUpStep::Call(StepUpCall::Audit(refusal_entry(tenant_id, operation, user_id, fault)))
    } else {
        StepUpStep::Done(StepUpVerifyOutcome::InvalidCredentials)
    }
}

fn refuse(
    audits: usize,
    tenant_id: TenantId,
    operation: &String,
    user_id: Uuid,
    fault: StepUpFault,
) -> (r: StepUpStep<StepUpVerifyOutcome>)
    ensures
        r == refused(audits, tenant_id, *operation, user_id, fault),
{
    if audits == 0 {
        StepUpStep::Call(
            StepUpCall::Audit(
                AuditRecord {
                    event: AuditEventType::StepUpFailed,
                    result: AuditResult::Failure,
                    tenant_id: Some(tenant_id),
                    user_id: Some(user_id),
                    client_id: None,
                    reason: Some(
                        AuditReason::OperationRefused { operation: operation.clone(), fault },
                    ),
                },
            ),
        )
    } else {
        StepUpStep::Done(StepUpVerifyOutcome::InvalidCredentials)
    }
}

/// The confirmation is recorded with the sign-on and audited.
pub open spec fn record_rule(
    tenant_id: TenantId,
    sso_session_id: Seq<char>,
    user_id: Uuid,
    methods: Seq<AuthenticationMethod>,
    reason: AuditReason,
    now: Timestamp,
    p: StepUpProgress,
    r: StepUpStep<StepUpVerifyOutcome>,
) -> bool {
    match p.recorded {
        None => r matches StepUpStep::Call(
            StepUpCall::RecordStepUp { session_hash, methods: m, now: at },
        ) && session_hash@ == sha256_hex_of(sso_session_id) && m@ == methods && at == now,
        Some(Err(e)) => r == StepUpStep::Done(StepUpVerifyOutcome::Internal(e)),
        Some(Ok(_)) => if p.audits == 0 {
            r == StepUpStep::<StepUpVerifyOutcome>::Call(
                StepUpCall::Audit(success_entry(tenant_id, user_id, reason)),
            )
        } else {
            r == StepUpStep::Done(StepUpVerifyOutcome::Confirmed)
        },
    }
}

fn record(
    tenant_id: TenantId,
    sso_session_id: &str,
    user_id: Uuid,
    methods: Vec<AuthenticationMethod>,
    reason: AuditReason,
    now: Timestamp,
    p: &StepUpProgress,
) -> (r: StepUpStep<StepUpVerifyOutcome>)
    ensures
        record_rule(tenant_id, sso_session_id@, user_id, methods@, reason, now, *p, r),
{
    match &p.recorded {
        None => StepUpStep::Call(
            StepUpCall::RecordStepUp { session_hash: sha256_hex(sso_session_id), methods, now },
        ),
        Some(Err(e)) => StepUpStep::Done(StepUpVerifyOutcome::Internal(e.clone())),
        Some(Ok(_)) => if p.audits == 0 {
            StepUpStep::Call(
                StepUpCall::Audit(
                    AuditRecord {
                        event: AuditEventType::StepUpSucceeded,
                        result: AuditResult::Success,
                        tenant_id: Some(tenant_id),
                        user_id: Some(user_id),
                        client_id: None,
                        reason: Some(reason),
                    },
                ),
            )
        } else {
            StepUpStep::Done(StepUpVerifyOutcome::Confirmed)
        },
    }
}

impl StepUpService {
    pub fn new(key_encryption_key: [u8; 32], max_age_secs: u64) -> (r: Self)
        ensures
            r.key_encryption_key == key_encryption_key,
            r.max_age_secs == max_age_secs,
    {
        StepUpService { key_encryption_key, max_age_secs }
    }

    /// What comes next in asking whether an operation may go ahead. The registry of passkeys is
    /// looked at only where a confirmation is needed.
    pub open spec fn check_rule(
        self,
        sso_session_id: Seq<char>,
        operation: SensitiveOperation,
        now: Timestamp,
        p: StepUpProgress,
        r: StepUpStep<StepUpCheckOutcome>,
    ) -> bool {
        match p.session {
            None => r matches StepUpStep::Call(StepUpCall::FindSession { session_hash })
                && session_hash@ == sha256_hex_of(sso_session_id),
            Some(Err(e)) => r == StepUpStep::Done(StepUpCheckOutcome::Internal(e)),
            Some(Ok(found)) => if !(found matches Some(s) && s.valid_at(now)) {
                r == StepUpStep::Done(StepUpCheckOutcome::SessionExpired)
            } else {
                match p.user {
                    None => r == StepUpStep::<StepUpCheckOutcome>::Call(
                        StepUpCall::FindUser { user_id: found->0.user_id },
                    ),
                    Some(Err(e)) => r == StepUpStep::Done(StepUpCheckOutcome::Internal(e)),
                    Some(Ok(user)) => if !(user matches Some(u) && u.active()) {
                        r == StepUpStep::Done(StepUpCheckOutcome::SessionExpired)
                    } else {
                        match p.totp {
                            None => r == StepUpStep::<StepUpCheckOutcome>::Call(
                                StepUpCall::FindTotp { user_id: found->0.user_id },
                            ),
                            Some(Err(e)) => r == StepUpStep::Done(StepUpCheckOutcome::Internal(e)),
                            Some(Ok(secret)) => match p.evaluation {
                                None => r matches StepUpStep::Call(
                                    StepUpCall::Evaluate {
                                        session,
                                        step_up_at,
                                        operation: name,
                                        max_age_secs,
                                        has_second_factor,
                                        now: at,
                                    },
                                ) && session.same_as(found->0) && step_up_at
                                    == found->0.step_up_at && name == operation.name && max_age_secs == self.max_age_secs
                                    && has_second_factor == has_confirmed(secret) && at == now,
                                Some(v) => if v.decision == StepUpDecision::Satisfied {
                                    r == StepUpStep::Done(StepUpCheckOutcome::Satisfied)
                                } else {
                                    match p.passkey_available {
                                        None => r == StepUpStep::<StepUpCheckOutcome>::Call(
                                            StepUpCall::FindUsablePasskey {
                                                user_id: found->0.user_id,
                                            },
                                        ),
                                        Some(Err(e)) => r == StepUpStep::Done(
                                            StepUpCheckOutcome::Internal(e),
                                        ),
                                        Some(Ok(available)) => r == StepUpStep::Done(
                                            StepUpCheckOutcome::ChallengeRequired {
                                                second_factor_required: v.decision
                                                    == StepUpDecision::SecondFactorRequired
                                                    || v.required_strength
                                                    == AuthenticationStrength::MultiFactor,
                                                passkey_available: available,
                                            },
                                        ),
                                    }
                                },
                            },
                        }
                    },
                }
            },
        }
    }

    /// Decides what comes next in asking whether an operation may go ahead.
    pub fn check(
        &self,
        sso_session_id: &str,
        operation: &SensitiveOperation,
        now: Timestamp,
        p: &StepUpProgress,
    ) -> (r: StepUpStep<StepUpCheckOutcome>)
        ensures
            self.check_rule(sso_session_id@, *operation, now, *p, r),
    {
        let session: &SsoSession = match &p.session {
            None => return StepUpStep::Call(
                StepUpCall::FindSession { session_hash: sha256_hex(sso_session_id) },
            ),
            Some(Err(e)) => return StepUpStep::Done(StepUpCheckOutcome::Internal(e.clone())),
            Some(Ok(None)) => return StepUpStep::Done(StepUpCheckOutcome::SessionExpired),
            Some(Ok(Some(s))) => s,
        };
        if !session.is_valid_at(now) {
            return StepUpStep::Done(StepUpCheckOutcome::SessionExpired);
        }
        match &p.user {
            None => return StepUpStep::Call(StepUpCall::FindUser { user_id: session.user_id }),
            Some(Err(e)) => return StepUpStep::Done(StepUpCheckOutcome::Internal(e.clone())),
            Some(Ok(None)) => return StepUpStep::Done(StepUpCheckOutcome::SessionExpired),
            Some(Ok(Some(u))) => if !u.is_active() {
                return StepUpStep::Done(StepUpCheckOutcome::SessionExpired);
            },
        }
        let secret: &Option<TotpSecret> = match &p.totp {
            None => return StepUpStep::Call(StepUpCall::FindTotp { user_id: session.user_id }),
            Some(Err(e)) => return StepUpStep::Done(StepUpCheckOutcome::Internal(e.clone())),
            Some(Ok(secret)) => secret,
        };
        let evaluation: StepUpEvaluation = match p.evaluation {
            None => return StepUpStep::Call(
                StepUpCall::Evaluate {
                    session: session.clone(),
                    step_up_at: session.step_up_at,
                    operation: operation.name.clone(),
                    max_age_secs: self.max_age_secs,
                    has_second_factor: is_confirmed_secret(secret),
                    now,
                },
            ),
            Some(v) => v,
        };
        if evaluation.decision == StepUpDecision::Satisfied {
            return StepUpStep::Done(StepUpCheckOutcome::Satisfied);
        }
        match &p.passkey_available {
            None => StepUpStep::Call(StepUpCall::FindUsablePasskey { user_id: session.user_id }),
            Some(Err(e)) => StepUpStep::Done(StepUpCheckOutcome::Internal(e.clone())),
            Some(Ok(available)) => StepUpStep::Done(
                StepUpCheckOutcome::ChallengeRequired {
                    second_factor_required: evaluation.decision
                        == StepUpDecision::SecondFactorRequired || evaluation.required_strength
                        == AuthenticationStrength::MultiFactor,
                    passkey_available: *available,
                },
            ),
        }
    }

    /// The password is right: a code with it, where the operation demands two factors.
    pub open spec fn factor_rule(
        self,
        tenant: TenantContext,
        cmd: StepUpVerifyCommand,
        now: Timestamp,
        p: StepUpProgress,
        user: User,
        r: StepUpStep<StepUpVerifyOutcome>,
    ) -> bool {
        match p.totp {
            None => r == StepUpStep::<StepUpVerifyOutcome>::Call(
                StepUpCall::FindTotp { user_id: user.id },
            ),
            Some(Err(e)) => r == StepUpStep::Done(StepUpVerifyOutcome::Internal(e)),
            Some(Ok(secret)) => match p.strength {
                None => r == StepUpStep::<StepUpVerifyOutcome>::Call(
                    StepUpCall::RequiredStrength {
                        operation: cmd.operation.name,
                        max_age_secs: self.max_age_secs,
                        has_second_factor: has_confirmed(secret),
                    },
                ),
                Some(AuthenticationStrength::SingleFactor) => record_rule(
                    tenant.tenant_id,
                    cmd.sso_session_id@,
                    user.id,
                    seq![AuthenticationMethod::Password],
                    AuditReason::Operation { operation: cmd.operation.name },
                    now,
                    p,
                    r,
                ),
                Some(AuthenticationStrength::MultiFactor) => if present(cmd.totp_code) is None {
                    r == StepUpStep::Done(StepUpVerifyOutcome::SecondFactorRequired)
                } else {
                    match p.totp_again {
                        None => r == StepUpStep::<StepUpVerifyOutcome>::Call(
                            StepUpCall::FindTotpAgain { user_id: user.id },
                        ),
                        Some(Err(e)) => r == StepUpStep::Done(StepUpVerifyOutcome::Internal(e)),
                        Some(Ok(current)) => if !has_confirmed(current) {
                            r == StepUpStep::Done(StepUpVerifyOutcome::SecondFactorRequired)
                        } else {
                            match p.totp_matches {
                                None => r == StepUpStep::<StepUpVerifyOutcome>::Call(
                                    StepUpCall::VerifyTotp {
                                        secret_encrypted: current->0.secret_encrypted,
                                        key_encryption_key: self.key_encryption_key,
                                        code: cmd.totp_code->0,
                                    },
                                ),
                                Some(Err(e)) => r == StepUpStep::Done(
                                    StepUpVerifyOutcome::Internal(e),
                                ),
                                Some(Ok(false)) => r == refused(
                                    p.audits,
                                    tenant.tenant_id,
                                    cmd.operation.name,
                                    user.id,
                                    StepUpFault::InvalidTotp,
                                ),
                                Some(Ok(true)) => record_rule(
                                    tenant.tenant_id,
                                    cmd.sso_session_id@,
                                    user.id,
                                    seq![AuthenticationMethod::Password, AuthenticationMethod::Totp],
                                    AuditReason::Operation { operation: cmd.operation.name },
                                    now,
                                    p,
                                    r,
                                ),
                            }
                        },
                    }
                },
            },
        }
    }

    /// What comes next in a confirmation with a password.
    pub open spec fn verify_rule(
        self,
        tenant: TenantContext,
        cmd: StepUpVerifyCommand,
        ctx: RequestContext,
        now: Timestamp,
        p: StepUpProgress,
        r: StepUpStep<StepUpVerifyOutcome>,
    ) -> bool {
        if ctx.ip_address is Some && p.rate_allowed is None {
            r == StepUpStep::<StepUpVerifyOutcome>::Call(
                StepUpCall::CheckRate { ip_address: ctx.ip_address->0, now },
            )
        } else if ctx.ip_address is Some && !p.rate_allowed->0 {
            r == StepUpStep::Done(StepUpVerifyOutcome::RateLimited)
        } else {
            match p.session {
                None => r matches StepUpStep::Call(StepUpCall::FindSession { session_hash })
                    && session_hash@ == sha256_hex_of(cmd.sso_session_id@),
                Some(Err(e)) => r == StepUpStep::Done(StepUpVerifyOutcome::Internal(e)),
                Some(Ok(found)) => if !(found matches Some(s) && s.valid_at(now)) {
                    r == StepUpStep::Done(StepUpVerifyOutcome::SessionExpired)
                } else {
                    match p.user {
                        None => r == StepUpStep::<StepUpVerifyOutcome>::Call(
                            StepUpCall::FindUser { user_id: found->0.user_id },
                        ),
                        Some(Err(e)) => r == StepUpStep::Done(StepUpVerifyOutcome::Internal(e)),
                        Some(Ok(user)) => if !(user matches Some(u) && u.active() && !u.locked_at(
                            now,
                        )) {
                            r == StepUpStep::Done(StepUpVerifyOutcome::SessionExpired)
                        } else {
                            match p.password {
                                None => r == StepUpStep::<StepUpVerifyOutcome>::Call(
                                    StepUpCall::VerifyPassword {
                                        password: cmd.password,
                                        password_hash: user->0.password_hash,
                                    },
                                ),
                                Some(Err(e)) => r == StepUpStep::Done(
                                    StepUpVerifyOutcome::Internal(e),
                                ),
                                Some(Ok(false)) => r == refused(
                                    p.audits,
                                    tenant.tenant_id,
                                    cmd.operation.name,
                                    user->0.id,
                                    StepUpFault::InvalidPassword,
                                ),
                                Some(Ok(true)) => self.factor_rule(
                                    tenant,
                                    cmd,
                                    now,
                                    p,
                                    user->0,
                                    r,
                                ),
                            }
                        },
                    }
                },
            }
        }
    }

    fn check_factor(
        &self,
        tenant: &TenantContext,
        cmd: &StepUpVerifyCommand,
        now: Timestamp,
        p: &StepUpProgress,
        user: &User,
    ) -> (r: StepUpStep<StepUpVerifyOutcome>)
        ensures
            self.factor_rule(*tenant, *cmd, now, *p, *user, r),
    {
        let secret: &Option<TotpSecret> = match &p.totp {
            None => return StepUpStep::Call(StepUpCall::FindTotp { user_id: user.id }),
            Some(Err(e)) => return StepUpStep::Done(StepUpVerifyOutcome::Internal(e.clone())),
            Some(Ok(secret)) => secret,
        };
        let done = AuditReason::Operation { operation: cmd.operation.name.clone() };
        match p.strength {
            None => return StepUpStep::Call(
                StepUpCall::RequiredStrength {
                    operation: cmd.operation.name.clone(),
                    max_age_secs: self.max_age_secs,
                    has_second_factor: is_confirmed_secret(secret),
                },
            ),
            Some(AuthenticationStrength::SingleFactor) => {
                return record(
                    tenant.tenant_id,
                    cmd.sso_session_id.as_str(),
                    user.id,
                    only(AuthenticationMethod::Password),
                    done,
                    now,
                    p,
                );
            },
            Some(AuthenticationStrength::MultiFactor) => {},
        }
        let code: &String = match non_empty(&cmd.totp_code) {
            None => return StepUpStep::Done(StepUpVerifyOutcome::SecondFactorRequired),
            Some(code) => code,
        };
        let current: &TotpSecret = match &p.totp_again {
            None => return StepUpStep::Call(StepUpCall::FindTotpAgain { user_id: user.id }),
            Some(Err(e)) => return StepUpStep::Done(StepUpVerifyOutcome::Internal(e.clone())),
            Some(Ok(None)) => return StepUpStep::Done(StepUpVerifyOutcome::SecondFactorRequired),
            Some(Ok(Some(current))) => current,
        };
        if !current.is_confirmed() {
            return StepUpStep::Done(StepUpVerifyOutcome::SecondFactorRequired);
        }
        match &p.totp_matches {
            None => StepUpStep::Call(
                StepUpCall::VerifyTotp {
                    secret_encrypted: current.secret_encrypted.clone(),
                    key_encryption_key: self.key_encryption_key,
                    code: code.clone(),
                },
            ),
            Some(Err(e)) => StepUpStep::Done(StepUpVerifyOutcome::Internal(e.clone())),
            Some(Ok(matches)) => if *matches {
                record(
                    tenant.tenant_id,
                    cmd.sso_session_id.as_str(),
                    user.id,
                    both(AuthenticationMethod::Password, AuthenticationMethod::Totp),
                    done,
                    now,
                    p,
                )
            } else {
                refuse(
                    p.audits,
                    tenant.tenant_id,
                    &cmd.operation.name,
                    user.id,
                    StepUpFault::InvalidTotp,
                )
            },
        }
    }

    /// Decides what comes next in a confirmation with a password.
    pub fn verify(
        &self,
        tenant: &TenantContext,
        cmd: &StepUpVerifyCommand,
        ctx: &RequestContext,
        now: Timestamp,
        p: &StepUpProgress,
    ) -> (r: StepUpStep<StepUpVerifyOutcome>)
        ensures
            self.verify_rule(*tenant, *cmd, *ctx, now, *p, r),
    {
        if let Some(ip) = &ctx.ip_address {
            match p.rate_allowed {
                None => return StepUpStep::Call(
                    StepUpCall::CheckRate { ip_address: ip.clone(), now },
                ),
                Some(allowed) => if !allowed {
                    return StepUpStep::Done(StepUpVerifyOutcome::RateLimited);
                },
            }
        }
        let session: &SsoSession = match &p.session {
            None => return StepUpStep::Call(
                StepUpCall::FindSession { session_hash: sha256_hex(cmd.sso_session_id.as_str()) },
            ),
            Some(Err(e)) => return StepUpStep::Done(StepUpVerifyOutcome::Internal(e.clone())),
            Some(Ok(None)) => return StepUpStep::Done(StepUpVerifyOutcome::SessionExpired),
            Some(Ok(Some(s))) => s,
        };
        if !session.is_valid_at(now) {
            return StepUpStep::Done(StepUpVerifyOutcome::SessionExpired);
        }
        let user: &User = match &p.user {
            None => return StepUpStep::Call(StepUpCall::FindUser { user_id: session.user_id }),
            Some(Err(e)) => return StepUpStep::Done(StepUpVerifyOutcome::Internal(e.clone())),
            Some(Ok(None)) => return StepUpStep::Done(StepUpVerifyOutcome::SessionExpired),
            Some(Ok(Some(u))) => u,
        };
        if !user.is_active() || user.is_locked_at(now) {
            return StepUpStep::Done(StepUpVerifyOutcome::SessionExpired);
        }
        match &p.password {
            None => StepUpStep::Call(
                StepUpCall::VerifyPassword {
                    password: cmd.password.clone(),
                    password_hash: user.password_hash.clone(),
                },
            ),
            Some(Err(e)) => StepUpStep::Done(StepUpVerifyOutcome::Internal(e.clone())),
            Some(Ok(right)) => if *right {
                self.check_factor(tenant, cmd, now, p, user)
            } else {
                refuse(
                    p.audits,
                    tenant.tenant_id,
                    &cmd.operation.name,
                    user.id,
                    StepUpFault::InvalidPassword,
                )
            },
        }
    }

    /// Begins a confirmation with a passkey.
    pub fn begin_passkey(&self, challenge_id: Uuid, now: Timestamp, p: &BeginProgress) -> (r:
        BeginStep)
        requires
            now.can_add(Span::of_seconds(CHALLENGE_TTL_SECS as int)),
        ensures
            step_up_begin_rule(challenge_id, now, *p, r),
    {
        PasskeyAssertionService::new().begin_step_up(challenge_id, now, p)
    }

    /// What comes next in a confirmation with a passkey. The account's lock does not matter here; it
    /// guards passwords.
    pub open spec fn verify_with_passkey_rule(
        self,
        tenant: TenantContext,
        cmd: StepUpPasskeyVerifyCommand,
        ctx: RequestContext,
        now: Timestamp,
        p: StepUpProgress,
        r: StepUpStep<StepUpVerifyOutcome>,
    ) -> bool {
        if ctx.ip_address is Some && p.rate_allowed is None {
            r == StepUpStep::<StepUpVerifyOutcome>::Call(
                StepUpCall::CheckRate { ip_address: ctx.ip_address->0, now },
            )
        } else if ctx.ip_address is Some && !p.rate_allowed->0 {
            r == StepUpStep::Done(StepUpVerifyOutcome::RateLimited)
        } else {
            match p.session {
                None => r matches StepUpStep::Call(StepUpCall::FindSession { session_hash })
                    && session_hash@ == sha256_hex_of(cmd.sso_session_id@),
                Some(Err(e)) => r == StepUpStep::Done(StepUpVerifyOutcome::Internal(e)),
                Some(Ok(found)) => if !(found matches Some(s) && s.valid_at(now)) {
                    r == StepUpStep::Done(StepUpVerifyOutcome::SessionExpired)
                } else {
                    match p.user {
                        None => r == StepUpStep::<StepUpVerifyOutcome>::Call(
                            StepUpCall::FindUser { user_id: found->0.user_id },
                        ),
                        Some(Err(e)) => r == StepUpStep::Done(StepUpVerifyOutcome::Internal(e)),
                        Some(Ok(user)) => if !(user matches Some(u) && u.active()) {
                            r == StepUpStep::Done(StepUpVerifyOutcome::SessionExpired)
                        } else {
                            match p.assertion {
                                None => r == StepUpStep::<StepUpVerifyOutcome>::Call(
                                    StepUpCall::VerifyAssertion {
                                        tenant_id: tenant.tenant_id,
                                        challenge_id: cmd.challenge_id,
                                        answer: cmd.credential,
                                        flow: PasskeyFlow::StepUp,
                                    },
                                ),
                                Some(Err(PasskeyAssertionError::Internal(e))) => r
                                    == StepUpStep::Done(StepUpVerifyOutcome::Internal(e)),
                                Some(Err(_)) => r == refused(
                                    p.audits,
                                    tenant.tenant_id,
                                    cmd.operation.name,
                                    user->0.id,
                                    StepUpFault::InvalidPasskey,
                                ),
                                Some(Ok(verified)) => if verified.user_id != user->0.id {
                                    r == refused(
                                        p.audits,
                                        tenant.tenant_id,
                                        cmd.operation.name,
                                        user->0.id,
                                        StepUpFault::OtherUserPasskey,
                                    )
                                } else {
                                    record_rule(
                                        tenant.tenant_id,
                                        cmd.sso_session_id@,
                                        user->0.id,
                                        seq![AuthenticationMethod::WebAuthn],
                                        AuditReason::OperationByPasskey {
                                            operation: cmd.operation.name,
                                        },
                                        now,
                                        p,
                                        r,
                                    )
                                },
                            }
                        },
                    }
                },
            }
        }
    }

    /// Decides what comes next in a confirmation with a passkey.
    pub fn verify_with_passkey(
        &self,
        tenant: &TenantContext,
        cmd: &StepUpPasskeyVerifyCommand,
        ctx: &RequestContext,
        now: Timestamp,
        p: &StepUpProgress,
    ) -> (r: StepUpStep<StepUpVerifyOutcome>)
        ensures
            self.verify_with_passkey_rule(*tenant, *cmd, *ctx, now, *p, r),
    {
        if let Some(ip) = &ctx.ip_address {
            match p.rate_allowed {
                None => return StepUpStep::Call(
                    StepUpCall::CheckRate { ip_address: ip.clone(), now },
                ),
                Some(allowed) => if !allowed {
                    return StepUpStep::Done(StepUpVerifyOutcome::RateLimited);
                },
            }
        }
        let session: &SsoSession = match &p.session {
            None => return StepUpStep::Call(
                StepUpCall::FindSession { session_hash: sha256_hex(cmd.sso_session_id.as_str()) },
            ),
            Some(Err(e)) => return StepUpStep::Done(StepUpVerifyOutcome::Internal(e.clone())),
            Some(Ok(None)) => return StepUpStep::Done(StepUpVerifyOutcome::SessionExpired),
            Some(Ok(Some(s))) => s,
        };
        if !session.is_valid_at(now) {
            return StepUpStep::Done(StepUpVerifyOutcome::SessionExpired);
        }
        let user: &User = match &p.user {
            None => return StepUpStep::Call(StepUpCall::FindUser { user_id: session.user_id }),
            Some(Err(e)) => return StepUpStep::Done(StepUpVerifyOutcome::Internal(e.clone())),
            Some(Ok(None)) => return StepUpStep::Done(StepUpVerifyOutcome::SessionExpired),
            Some(Ok(Some(u))) => u,
        };
        if !user.is_active() {
            return StepUpStep::Done(StepUpVerifyOutcome::SessionExpired);
        }
        let verified: &VerifiedPasskeyUser = match &p.assertion {
            None => return StepUpStep::Call(
                StepUpCall::VerifyAssertion {
                    tenant_id: tenant.tenant_id,
                    challenge_id: cmd.challenge_id,
                    answer: cmd.credential.clone(),
                    flow: PasskeyFlow::StepUp,
                },
            ),
            Some(Err(PasskeyAssertionError::Internal(e))) => {
                return StepUpStep::Done(StepUpVerifyOutcome::Internal(e.clone()));
            },
            Some(Err(_)) => return refuse(
                p.audits,
                tenant.tenant_id,
                &cmd.operation.name,
                user.id,
                StepUpFault::InvalidPasskey,
            ),
            Some(Ok(verified)) => verified,
        };
        if verified.user_id != user.id {
            return refuse(
                p.audits,
                tenant.tenant_id,
                &cmd.operation.name,
                user.id,
                StepUpFault::OtherUserPasskey,
            );
        }
        record(
            tenant.tenant_id,
            cmd.sso_session_id.as_str(),
            user.id,
            only(AuthenticationMethod::WebAuthn),
            AuditReason::OperationByPasskey { operation: cmd.operation.name.clone() },
            now,
            p,
        )
    }
}

/// A confirmation with a password is recorded only within a valid sign-on of an active, unlocked
/// user whose password is right, and with a right code wherever two factors are demanded.
pub proof fn step_up_needs_what_the_operation_demands(
    svc: StepUpService,
    tenant: TenantContext,
    cmd: StepUpVerifyCommand,
    ctx: RequestContext,
    now: Timestamp,
    p: StepUpProgress,
    r: StepUpStep<StepUpVerifyOutcome>,
)
    requires
        svc.verify_rule(tenant, cmd, ctx, now, p, r),
        (r matches StepUpStep::Call(StepUpCall::RecordStepUp { .. })) || (
        r matches StepUpStep::Done(StepUpVerifyOutcome::Confirmed)),
    ensures
        p.session matches Some(Ok(Some(s))) && s.valid_at(now),
        p.user matches Some(Ok(Some(u))) && u.active() && !u.locked_at(now),
        p.password matches Some(Ok(true)),
        p.strength matches Some(AuthenticationStrength::MultiFactor) ==> p.totp_matches matches Some(
            Ok(true),
        ),
{
}

/// A confirmation with a passkey is recorded only where the passkey is the sign-on's own user's.
pub proof fn step_up_takes_the_users_own_passkey(
    svc: StepUpService,
    tenant: TenantContext,
    cmd: StepUpPasskeyVerifyCommand,
    ctx: RequestContext,
    now: Timestamp,
    p: StepUpProgress,
    r: StepUpStep<StepUpVerifyOutcome>,
)
    requires
        svc.verify_with_passkey_rule(tenant, cmd, ctx, now, p, r),
        (r matches StepUpStep::Call(StepUpCall::RecordStepUp { .. })) || (
        r matches StepUpStep::Done(StepUpVerifyOutcome::Confirmed)),
    ensures
        p.session matches Some(Ok(Some(s))) && s.valid_at(now),
        p.user matches Some(Ok(Some(u))) && u.active() && (p.assertion matches Some(Ok(verified))
            && verified.user_id == u.id),
{
}

impl StepUpProgress {
    /// The call `call` asks for something that is not known yet.
    pub open spec fn lacks_answer_to(self, call: StepUpCall) -> bool {
        match call {
            StepUpCall::CheckRate { .. } => self.rate_allowed is None,
            StepUpCall::FindSession { .. } => self.session is None,
            StepUpCall::FindUser { .. } => self.user is None,
            StepUpCall::VerifyPassword { .. } => self.password is None,
            StepUpCall::FindTotp { .. } => self.totp is None,
            StepUpCall::FindTotpAgain { .. } => self.totp_again is None,
            StepUpCall::VerifyTotp { .. } => self.totp_matches is None,
            StepUpCall::RequiredStrength { .. } => self.strength is None,
            StepUpCall::Evaluate { .. } => self.evaluation is None,
            StepUpCall::FindUsablePasskey { .. } => self.passkey_available is None,
            StepUpCall::VerifyAssertion { .. } => self.assertion is None,
            StepUpCall::RecordStepUp { .. } => self.recorded is None,
            StepUpCall::Audit(_) => self.audits < 1,
        }
    }
}

/// Nothing is asked for that is known already: every call that comes next fills a gap.
pub proof fn a_check_asks_nothing_twice(
    svc: StepUpService,
    sso_session_id: Seq<char>,
    operation: SensitiveOperation,
    now: Timestamp,
    p: StepUpProgress,
    r: StepUpStep<StepUpCheckOutcome>,
)
    requires
        svc.check_rule(sso_session_id, operation, now, p, r),
    ensures
        r matches StepUpStep::Call(c) ==> p.lacks_answer_to(c),
{
}

/// Nothing is asked for that is known already: every call that comes next fills a gap.
pub proof fn a_confirmation_asks_nothing_twice(
    svc: StepUpService,
    tenant: TenantContext,
    cmd: StepUpVerifyCommand,
    ctx: RequestContext,
    now: Timestamp,
    p: StepUpProgress,
    r: StepUpStep<StepUpVerifyOutcome>,
)
    requires
        svc.verify_rule(tenant, cmd, ctx, now, p, r),
    ensures
        r matches StepUpStep::Call(c) ==> p.lacks_answer_to(c),
{
}

/// Nothing is asked for that is known already: every call that comes next fills a gap.
pub proof fn a_passkey_confirmation_asks_nothing_twice(
    svc: StepUpService,
    tenant: TenantContext,
    cmd: StepUpPasskeyVerifyCommand,
    ctx: RequestContext,
    now: Timestamp,
    p: StepUpProgress,
    r: StepUpStep<StepUpVerifyOutcome>,
)
    requires
        svc.verify_with_passkey_rule(tenant, cmd, ctx, now, p, r),
    ensures
        r matches StepUpStep::Call(c) ==> p.lacks_answer_to(c),
{
}

/// The sign-on was found and neither of its spans has ended.
pub open spec fn signed_on(p: StepUpProgress, now: Timestamp) -> bool {
    p.session matches Some(Ok(Some(s))) && now.nanos < s.idle_expires_at.nanos && now.nanos
        < s.absolute_expires_at.nanos
}

/// Every call in a confirmation with a password is about the sign-on at hand, its user, and the
/// password and the code that were sent; what is recorded is the methods that were shown, with the
/// sign-on that the request came with.
pub proof fn a_confirmation_is_about_its_sign_on(
    svc: StepUpService,
    tenant: TenantContext,
    cmd: StepUpVerifyCommand,
    ctx: RequestContext,
    now: Timestamp,
    p: StepUpProgress,
    call: StepUpCall,
)
    requires
        call_ensures(
            StepUpService::verify,
            (&svc, &tenant, &cmd, &ctx, now, &p),
            StepUpStep::Call(call),
        ),
    ensures
        match call {
            StepUpCall::CheckRate { ip_address, now: at } => ctx.ip_address == Some(ip_address) && at
                == now,
            StepUpCall::FindSession { session_hash } => session_hash@ == sha256_hex_of(
                cmd.sso_session_id@,
            ),
            StepUpCall::FindUser { user_id } => signed_on(p, now) && (p.session matches Some(
                Ok(Some(s)),
            ) && user_id == s.user_id),
            StepUpCall::VerifyPassword { password, password_hash } => password == cmd.password && (
            p.user matches Some(Ok(Some(user))) && password_hash == user.password_hash) && signed_on(
                p,
                now,
            ),
            StepUpCall::FindTotp { user_id } => p.user matches Some(Ok(Some(user))) && user_id
                == user.id,
            StepUpCall::FindTotpAgain { user_id } => p.user matches Some(Ok(Some(user))) && user_id
                == user.id,
            StepUpCall::VerifyTotp { secret_encrypted, key_encryption_key, code } => cmd.totp_code
                == Some(code) && code@.len() > 0 && key_encryption_key == svc.key_encryption_key && (
            p.totp_again matches Some(Ok(Some(secret))) && secret.confirmed_at is Some
                && secret_encrypted == secret.secret_encrypted),
            StepUpCall::RequiredStrength { operation, max_age_secs, has_second_factor } => operation
                == cmd.operation.name && max_age_secs == svc.max_age_secs && (
            p.totp matches Some(Ok(secret)) && (has_second_factor <==> (secret matches Some(s)
                && s.confirmed_at is Some))),
            StepUpCall::RecordStepUp { session_hash, methods, now: at } => session_hash@
                == sha256_hex_of(cmd.sso_session_id@) && at == now && signed_on(p, now)
                && p.password == Some(Ok::<bool, String>(true)) && methods@.len() >= 1 && methods@[0]
                == AuthenticationMethod::Password && (methods@.len() == 1 <==> p.strength == Some(
                AuthenticationStrength::SingleFactor,
            )) && (methods@.len() > 1 ==> methods@ == seq![
                AuthenticationMethod::Password,
                AuthenticationMethod::Totp,
            ] && p.totp_matches == Some(Ok::<bool, String>(true)) && p.strength == Some(
                AuthenticationStrength::MultiFactor,
            )),
            StepUpCall::Audit(a) => a.tenant_id == Some(tenant.tenant_id) && a.client_id is None && (
            p.user matches Some(Ok(Some(user))) && a.user_id == Some(user.id)) && match a.result {
                AuditResult::Success => a.event == AuditEventType::StepUpSucceeded && a.reason
                    == Some(AuditReason::Operation { operation: cmd.operation.name }) && (
                p.recorded matches Some(Ok(_))),
                AuditResult::Failure => a.event == AuditEventType::StepUpFailed && ((a.reason
                    == Some(
                    AuditReason::OperationRefused {
                        operation: cmd.operation.name,
                        fault: StepUpFault::InvalidPassword,
                    },
                ) && p.password == Some(Ok::<bool, String>(false))) || (a.reason == Some(
                    AuditReason::OperationRefused {
                        operation: cmd.operation.name,
                        fault: StepUpFault::InvalidTotp,
                    },
                ) && p.totp_matches == Some(Ok::<bool, String>(false)) && p.password == Some(
                    Ok::<bool, String>(true),
                ))),
            },
            _ => false,
        },
{
}

/// Every way a confirmation with a password ends has its cause.
pub proof fn a_confirmation_ends_with_cause(
    svc: StepUpService,
    tenant: TenantContext,
    cmd: StepUpVerifyCommand,
    ctx: RequestContext,
    now: Timestamp,
    p: StepUpProgress,
    outcome: StepUpVerifyOutcome,
)
    requires
        call_ensures(
            StepUpService::verify,
            (&svc, &tenant, &cmd, &ctx, now, &p),
            StepUpStep::Done(outcome),
        ),
    ensures
        match outcome {
            StepUpVerifyOutcome::Confirmed => (p.recorded matches Some(Ok(_))) && p.audits > 0
                && p.password == Some(Ok::<bool, String>(true)) && signed_on(p, now),
            StepUpVerifyOutcome::InvalidCredentials => p.audits > 0 && (p.password == Some(
                Ok::<bool, String>(false),
            ) || p.totp_matches == Some(Ok::<bool, String>(false))),
            StepUpVerifyOutcome::SecondFactorRequired => p.strength == Some(
                AuthenticationStrength::MultiFactor,
            ) && (cmd.totp_code is None || cmd.totp_code->0@.len() == 0 || (
            p.totp_again matches Some(Ok(secret)) && (secret matches Some(s)
                ==> s.confirmed_at is None))),
            StepUpVerifyOutcome::RateLimited => ctx.ip_address is Some && p.rate_allowed == Some(
                false,
            ),
            StepUpVerifyOutcome::SessionExpired => !signed_on(p, now) || (p.user matches Some(
                Ok(found),
            ) && (found matches Some(u) ==> u.status != UserStatus::Active || (
            u.locked_until matches Some(until) && now.nanos < until.nanos))),
            StepUpVerifyOutcome::Internal(e) => p.session == Some(
                Err::<Option<SsoSession>, String>(e),
            ) || p.user == Some(Err::<Option<User>, String>(e)) || p.password == Some(
                Err::<bool, String>(e),
            ) || p.totp == Some(Err::<Option<TotpSecret>, String>(e)) || p.totp_again == Some(
                Err::<Option<TotpSecret>, String>(e),
            ) || p.totp_matches == Some(Err::<bool, String>(e)) || p.recorded == Some(
                Err::<(), String>(e),
            ),
        },
{
}

/// Every call in a confirmation with a passkey is about the sign-on at hand and its user, and takes
/// only a challenge that was issued for a confirmation; what is recorded is the passkey.
pub proof fn a_passkey_confirmation_is_about_its_sign_on(
    svc: StepUpService,
    tenant: TenantContext,
    cmd: StepUpPasskeyVerifyCommand,
    ctx: RequestContext,
    now: Timestamp,
    p: StepUpProgress,
    r: StepUpStep<StepUpVerifyOutcome>,
)
    requires
        call_ensures(StepUpService::verify_with_passkey, (&svc, &tenant, &cmd, &ctx, now, &p), r),
    ensures
        match r {
            StepUpStep::Call(StepUpCall::CheckRate { ip_address, now: at }) => ctx.ip_address
                == Some(ip_address) && at == now,
            StepUpStep::Call(StepUpCall::FindSession { session_hash }) => session_hash@
                == sha256_hex_of(cmd.sso_session_id@),
            StepUpStep::Call(StepUpCall::FindUser { user_id }) => signed_on(p, now) && (
            p.session matches Some(Ok(Some(s))) && user_id == s.user_id),
            StepUpStep::Call(
                StepUpCall::VerifyAssertion { tenant_id, challenge_id, answer, flow },
            ) => tenant_id == tenant.tenant_id && challenge_id == cmd.challenge_id && answer
                == cmd.credential && flow == PasskeyFlow::StepUp && signed_on(p, now),
            StepUpStep::Call(StepUpCall::RecordStepUp { session_hash, methods, now: at }) =>
            session_hash@ == sha256_hex_of(cmd.sso_session_id@) && at == now && methods@
                == seq![AuthenticationMethod::WebAuthn] && signed_on(p, now) && (
            p.assertion matches Some(Ok(verified)) && (p.user matches Some(Ok(Some(user)))
                && verified.user_id == user.id)),
            StepUpStep::Call(StepUpCall::Audit(a)) => a.tenant_id == Some(tenant.tenant_id)
                && a.client_id is None && (p.user matches Some(Ok(Some(user))) && a.user_id == Some(
                user.id,
            ) && match a.result {
                AuditResult::Success => a.event == AuditEventType::StepUpSucceeded && a.reason
                    == Some(AuditReason::OperationByPasskey { operation: cmd.operation.name }) && (
                p.recorded matches Some(Ok(_))),
                AuditResult::Failure => a.event == AuditEventType::StepUpFailed && ((a.reason
                    == Some(
                    AuditReason::OperationRefused {
                        operation: cmd.operation.name,
                        fault: StepUpFault::InvalidPasskey,
                    },
                ) && (p.assertion matches Some(Err(_)))) || (a.reason == Some(
                    AuditReason::OperationRefused {
                        operation: cmd.operation.name,
                        fault: StepUpFault::OtherUserPasskey,
                    },
                ) && (p.assertion matches Some(Ok(verified)) && verified.user_id != user.id))),
            }),
            StepUpStep::Call(_) => false,
            StepUpStep::Done(StepUpVerifyOutcome::Confirmed) => (p.recorded matches Some(Ok(_)))
                && p.audits > 0 && signed_on(p, now) && (p.assertion matches Some(Ok(verified)) && (
            p.user matches Some(Ok(Some(user))) && verified.user_id == user.id)),
            StepUpStep::Done(StepUpVerifyOutcome::InvalidCredentials) => p.audits > 0 && (
            p.assertion matches Some(found) && (found matches Ok(verified) ==> (
            p.user matches Some(Ok(Some(user))) && verified.user_id != user.id))),
            StepUpStep::Done(StepUpVerifyOutcome::SecondFactorRequired) => false,
            StepUpStep::Done(StepUpVerifyOutcome::RateLimited) => ctx.ip_address is Some
                && p.rate_allowed == Some(false),
            StepUpStep::Done(StepUpVerifyOutcome::SessionExpired) => !signed_on(p, now) || (
            p.user matches Some(Ok(found)) && (found matches Some(u) ==> u.status
                != UserStatus::Active)),
            StepUpStep::Done(StepUpVerifyOutcome::Internal(e)) => p.session == Some(
                Err::<Option<SsoSession>, String>(e),
            ) || p.user == Some(Err::<Option<User>, String>(e)) || p.assertion == Some(
                Err::<VerifiedPasskeyUser, PasskeyAssertionError>(
                    PasskeyAssertionError::Internal(e),
                ),
            ) || p.recorded == Some(Err::<(), String>(e)),
        },
{
}

/// Whether an operation may go ahead is asked of the sign-on at hand and its user: the judgement is
/// made on what the sign-on records, on whether the user has a second factor, and as of now; and the
/// answer is that of the judgement.
pub proof fn an_operation_is_judged_by_its_sign_on(
    svc: StepUpService,
    sso_session_id: Seq<char>,
    operation: SensitiveOperation,
    now: Timestamp,
    p: StepUpProgress,
    r: StepUpStep<StepUpCheckOutcome>,
)
    requires
        svc.check_rule(sso_session_id, operation, now, p, r),
    ensures
        match r {
            StepUpStep::Call(StepUpCall::FindSession { session_hash }) => session_hash@
                == sha256_hex_of(sso_session_id),
            StepUpStep::Call(StepUpCall::FindUser { user_id }) => signed_on(p, now) && (
            p.session matches Some(Ok(Some(s))) && user_id == s.user_id),
            StepUpStep::Call(StepUpCall::FindTotp { user_id }) => p.session matches Some(
                Ok(Some(s)),
            ) && user_id == s.user_id,
            StepUpStep::Call(StepUpCall::FindUsablePasskey { user_id }) => (
            p.session matches Some(Ok(Some(s))) && user_id == s.user_id) && (
            p.evaluation matches Some(v) && v.decision != StepUpDecision::Satisfied),
            StepUpStep::Call(
                StepUpCall::Evaluate {
                    session,
                    step_up_at,
                    operation: name,
                    max_age_secs,
                    has_second_factor,
                    now: at,
                },
            ) => (p.session matches Some(Ok(Some(s))) && session.session_hash@ == s.session_hash@
                && session.user_id == s.user_id && session.auth_time == s.auth_time
                && session.methods@ == s.methods@ && session.step_up_at == s.step_up_at && step_up_at
                == s.step_up_at) && name == operation.name && max_age_secs == svc.max_age_secs && (
            p.totp matches Some(Ok(secret)) && (has_second_factor <==> (secret matches Some(t)
                && t.confirmed_at is Some))) && at == now,
            StepUpStep::Call(_) => false,
            StepUpStep::Done(StepUpCheckOutcome::Satisfied) => signed_on(p, now) && (
            p.evaluation matches Some(v) && v.decision == StepUpDecision::Satisfied),
            StepUpStep::Done(
                StepUpCheckOutcome::ChallengeRequired { second_factor_required, passkey_available },
            ) => signed_on(p, now) && p.passkey_available == Some(
                Ok::<bool, String>(passkey_available),
            ) && (p.evaluation matches Some(v) && v.decision != StepUpDecision::Satisfied && (
            !second_factor_required ==> v.decision == StepUpDecision::ReauthenticationRequired
                && v.required_strength == AuthenticationStrength::SingleFactor) && (
            second_factor_required ==> v.decision == StepUpDecision::SecondFactorRequired
                || v.required_strength == AuthenticationStrength::MultiFactor)),
            StepUpStep::Done(StepUpCheckOutcome::SessionExpired) => !signed_on(p, now) || (
            p.user matches Some(Ok(found)) && (found matches Some(u) ==> u.status
                != UserStatus::Active)),
            StepUpStep::Done(StepUpCheckOutcome::Internal(e)) => p.session == Some(
                Err::<Option<SsoSession>, String>(e),
            ) || p.user == Some(Err::<Option<User>, String>(e)) || p.totp == Some(
                Err::<Option<TotpSecret>, String>(e),
            ) || p.passkey_available == Some(Err::<bool, String>(e)),
        },
{
}

/// A confirmation with a passkey takes the challenge that was begun for it here.
pub proof fn a_begun_confirmation_is_completed_here(
    svc: StepUpService,
    challenge_id: Uuid,
    begun: Timestamp,
    b: BeginProgress,
    stored: PasskeyChallenge,
    tenant: TenantContext,
    cmd: StepUpPasskeyVerifyCommand,
    ctx: RequestContext,
    now: Timestamp,
    p: StepUpProgress,
    tenant_id: TenantId,
    id: Uuid,
    answer: String,
    flow: PasskeyFlow,
)
    requires
        call_ensures(
            StepUpService::begin_passkey,
            (&svc, challenge_id, begun, &b),
            BeginStep::StoreChallenge(stored),
        ),
        cmd.challenge_id == challenge_id,
        call_ensures(
            StepUpService::verify_with_passkey,
            (&svc, &tenant, &cmd, &ctx, now, &p),
            StepUpStep::Call(
                StepUpCall::VerifyAssertion { tenant_id, challenge_id: id, answer, flow },
            ),
        ),
    ensures
        flow.takes(stored),
        id == stored.id,
{
}

} // verus!
