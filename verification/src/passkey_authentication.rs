//! Signing in with a passkey within an authorization request.
use crate::audit::{AuditEventType, AuditReason, AuditRecord, AuditResult};
use crate::code_flow::{
    finish_flow, flow_rule, CodeDelivery, FlowProgress, FlowStep, FlowSubject,
};
use crate::crypto::{sha256_hex, sha256_hex_of};
use crate::login::{asks_policies, grants_sso, login_audit, login_entry, LoginDraw};
use crate::model::{
    id_hash, id_hash_of, only, AuthSession, AuthenticationMethod, DefaultPolicyEffect,
    PolicyDecision, PolicyEvaluation, PolicyQuery, Reply, RequestContext, SsoGrant, TenantContext,
    TenantId, Uuid,
};
use crate::passkey_assertion::{
    sign_in_begin_rule, BeginProgress, BeginStep, PasskeyAssertionError, PasskeyAssertionService,
    PasskeyChallenge, PasskeyFlow, VerifiedPasskeyUser, CHALLENGE_TTL_SECS,
};
use crate::time::{Span, Timestamp};
use vstd::prelude::*;

verus! {

pub enum PasskeyAuthOutcome {
    /// Authenticated, with consent: the code goes to the client.
    Success {
        location: String,
        form_post: Option<Vec<(String, String)>>,
        sso_session_id: String,
    },
    /// Authenticated; the user is asked for consent.
    ConsentRequired { auth_session_id: String, sso_session_id: String },
    ChallengeNotFound,
    SessionExpired,
    InvalidCredential,
    PolicyDenied,
    Internal(String),
}

/// What a failed ceremony means to the request; a challenge of another flow is one to start over
/// from, like an expired one.
pub open spec fn outcome_of(e: PasskeyAssertionError) -> PasskeyAuthOutcome {
    match e {
        PasskeyAssertionError::ChallengeNotFound => PasskeyAuthOutcome::ChallengeNotFound,
        PasskeyAssertionError::WrongFlow => PasskeyAuthOutcome::ChallengeNotFound,
        PasskeyAssertionError::InvalidCredential => PasskeyAuthOutcome::InvalidCredential,
        PasskeyAssertionError::Internal(m) => PasskeyAuthOutcome::Internal(m),
    }
}

impl vstd::std_specs::convert::FromSpecImpl<PasskeyAssertionError> for PasskeyAuthOutcome {
    open spec fn obeys_from_spec() -> bool {
        true
    }

    open spec fn from_spec(e: PasskeyAssertionError) -> PasskeyAuthOutcome {
        outcome_of(e)
    }
}

impl From<PasskeyAssertionError> for PasskeyAuthOutcome {
    fn from(e: PasskeyAssertionError) -> (r: PasskeyAuthOutcome) {
        match e {
            PasskeyAssertionError::ChallengeNotFound | PasskeyAssertionError::WrongFlow => {
                PasskeyAuthOutcome::ChallengeNotFound
            },
            PasskeyAssertionError::InvalidCredential => PasskeyAuthOutcome::InvalidCredential,
            PasskeyAssertionError::Internal(m) => PasskeyAuthOutcome::Internal(m),
        }
    }
}

/// What is known of a request so far.
#[derive(Default)]
pub struct PasskeyAuthProgress {
    /// What came of the ceremony.
    pub assertion: Option<Result<VerifiedPasskeyUser, PasskeyAssertionError>>,
    pub session: Reply<Option<AuthSession>>,
    /// Whether the removal of an expired session was carried out.
    pub expired_deleted: bool,
    pub policy: Reply<PolicyEvaluation>,
    pub authenticated: Reply<()>,
    pub sso_created: Reply<()>,
    pub flow: FlowProgress,
    /// How many audit entries were written.
    pub audits: usize,
}

/// What comes next: a call to make, or the outcome.
pub enum PasskeyAuthStep {
    /// The ceremony is to be brought to its end.
    VerifyAssertion { tenant_id: TenantId, challenge_id: Uuid, answer: String, flow: PasskeyFlow },
    FindSession { tenant_id: TenantId, id_hash: String },
    DeleteExpired { id_hash: String },
    EvaluatePolicies(PolicyQuery),
    SetAuthenticated {
        id_hash: String,
        new_id_hash: String,
        user_id: Uuid,
        now: Timestamp,
        sid: String,
    },
    CreateSso(SsoGrant),
    Flow(FlowStep),
    Audit(AuditRecord),
    Done(PasskeyAuthOutcome),
}

pub struct PasskeyAuthenticationService {
    pub sso_idle_ttl: Span,
    pub sso_absolute_ttl: Span,
    pub policy_default_effect: DefaultPolicyEffect,
}

fn clone_error(e: &PasskeyAssertionError) -> (r: PasskeyAssertionError)
    ensures
        r == *e,
{
    match e {
        PasskeyAssertionError::ChallengeNotFound => PasskeyAssertionError::ChallengeNotFound,
        PasskeyAssertionError::WrongFlow => PasskeyAssertionError::WrongFlow,
        PasskeyAssertionError::InvalidCredential => PasskeyAssertionError::InvalidCredential,
        PasskeyAssertionError::Internal(m) => PasskeyAssertionError::Internal(m.clone()),
    }
}

impl PasskeyAuthenticationService {
    pub fn new(
        sso_idle_ttl: Span,
        sso_absolute_ttl: Span,
        policy_default_effect: DefaultPolicyEffect,
    ) -> (r: Self)
        ensures
            r.sso_idle_ttl == sso_idle_ttl,
            r.sso_absolute_ttl == sso_absolute_ttl,
            r.policy_default_effect == policy_default_effect,
    {
        PasskeyAuthenticationService { sso_idle_ttl, sso_absolute_ttl, policy_default_effect }
    }

    /// Begins to sign in, bound to the authorization request.
    pub fn begin(
        &self,
        auth_session_id: &Option<String>,
        challenge_id: Uuid,
        now: Timestamp,
        p: &BeginProgress,
    ) -> (r: BeginStep)
        requires
            now.can_add(Span::of_seconds(CHALLENGE_TTL_SECS as int)),
        ensures
            sign_in_begin_rule(*auth_session_id, challenge_id, now, *p, r),
    {
        PasskeyAssertionService::new().begin(auth_session_id, challenge_id, now, p)
    }

    /// The end of an authenticated request.
    pub open spec fn end_rule(
        self,
        tenant: TenantContext,
        draw: LoginDraw,
        p: PasskeyAuthProgress,
        session: AuthSession,
        user_id: Uuid,
        r: PasskeyAuthStep,
    ) -> bool {
        let s = FlowSubject {
            tenant_id: tenant.tenant_id,
            user_id,
            now: draw.now,
            rotated_id: draw.rotated_id,
            sid: draw.sso.sid,
            delivery: CodeDelivery::AsRequested,
        };
        exists|f: FlowStep| #[trigger]
            flow_rule(session, s, p.flow, f) && match f {
                FlowStep::ConsentRequired => r == PasskeyAuthStep::Done(
                    PasskeyAuthOutcome::ConsentRequired {
                        auth_session_id: draw.rotated_id,
                        sso_session_id: draw.sso.sso_session_id,
                    },
                ),
                FlowStep::Failed(e) => r == PasskeyAuthStep::Done(PasskeyAuthOutcome::Internal(e)),
                FlowStep::Complete { location, form_post } => r == PasskeyAuthStep::Done(
                    PasskeyAuthOutcome::Success {
                        location,
                        form_post,
                        sso_session_id: draw.sso.sso_session_id,
                    },
                ),
                _ => r == PasskeyAuthStep::Flow(f),
            }
    }

    /// The policies are met: the session moves on under a new identifier, and the sign-on is
    /// created and audited.
    pub open spec fn sign_on_rule(
        self,
        tenant: TenantContext,
        ctx: RequestContext,
        draw: LoginDraw,
        p: PasskeyAuthProgress,
        session: AuthSession,
        user_id: Uuid,
        r: PasskeyAuthStep,
    ) -> bool {
        match p.authenticated {
            None => r matches PasskeyAuthStep::SetAuthenticated {
                id_hash,
                new_id_hash,
                user_id: uid,
                now,
                sid,
            } && id_hash == session.id_hash && new_id_hash@ == id_hash_of(draw.rotated_id@) && uid
                == user_id && now == draw.now && sid == draw.sso.sid,
            Some(Err(e)) => r == PasskeyAuthStep::Done(PasskeyAuthOutcome::Internal(e)),
            Some(Ok(_)) => match p.sso_created {
                None => r matches PasskeyAuthStep::CreateSso(g) && grants_sso(
                    g,
                    self.sso_idle_ttl,
                    self.sso_absolute_ttl,
                    user_id,
                    draw.now,
                    draw.sso.sso_session_id@,
                    seq![AuthenticationMethod::WebAuthn],
                    ctx,
                ),
                Some(Err(e)) => r == PasskeyAuthStep::Done(PasskeyAuthOutcome::Internal(e)),
                Some(Ok(_)) => if p.audits == 0 {
                    r == PasskeyAuthStep::Audit(
                        login_entry(
                            AuditEventType::SsoSessionCreated,
                            AuditResult::Success,
                            tenant.tenant_id,
                            Some(user_id),
                            session.client_id,
                            None,
                        ),
                    )
                } else if p.audits == 1 {
                    r == PasskeyAuthStep::Audit(
                        login_entry(
                            AuditEventType::LoginSucceeded,
                            AuditResult::Success,
                            tenant.tenant_id,
                            Some(user_id),
                            session.client_id,
                            None,
                        ),
                    )
                } else {
                    self.end_rule(tenant, draw, p, session, user_id, r)
                },
            },
        }
    }

    /// The ceremony is over and the request is live: the policies are evaluated on a passkey whose
    /// user was verified.
    pub open spec fn policy_rule(
        self,
        tenant: TenantContext,
        ctx: RequestContext,
        draw: LoginDraw,
        p: PasskeyAuthProgress,
        session: AuthSession,
        user_id: Uuid,
        r: PasskeyAuthStep,
    ) -> bool {
        let refused = |reason: AuditReason|
            if p.audits == 0 {
                r == PasskeyAuthStep::Audit(
                    login_entry(
                        AuditEventType::LoginPolicyDenied,
                        AuditResult::Failure,
                        tenant.tenant_id,
                        Some(user_id),
                        session.client_id,
                        Some(reason),
                    ),
                )
            } else {
                r == PasskeyAuthStep::Done(PasskeyAuthOutcome::PolicyDenied)
            };
        match p.policy {
            None => r matches PasskeyAuthStep::EvaluatePolicies(q) && asks_policies(
                q,
                tenant.tenant_id,
                session,
                user_id,
                ctx,
                draw.now,
                self.policy_default_effect,
                seq![AuthenticationMethod::WebAuthn],
                true,
            ),
            Some(Err(e)) => r == PasskeyAuthStep::Done(PasskeyAuthOutcome::Internal(e)),
            Some(Ok(eval)) => if eval.decision is Deny {
                refused(AuditReason::Policy { code: eval.decision->Deny_policy_code })
            } else if eval.unmet is Some {
                refused(
                    AuditReason::PolicyMethod {
                        code: eval.unmet->0.policy_code,
                        required: eval.unmet->0.required,
                    },
                )
            } else {
                self.sign_on_rule(tenant, ctx, draw, p, session, user_id, r)
            },
        }
    }

    /// What comes next in a sign-in of which `p` is known.
    pub open spec fn complete_rule(
        self,
        tenant: TenantContext,
        challenge_id: Uuid,
        answer: String,
        ctx: RequestContext,
        draw: LoginDraw,
        p: PasskeyAuthProgress,
        r: PasskeyAuthStep,
    ) -> bool {
        match p.assertion {
            None => r == (PasskeyAuthStep::VerifyAssertion {
                tenant_id: tenant.tenant_id,
                challenge_id,
                answer,
                flow: PasskeyFlow::Oidc,
            }),
            Some(Err(e)) => r == PasskeyAuthStep::Done(outcome_of(e)),
            Some(Ok(verified)) => match verified.auth_session_id_hash {
                None => r matches PasskeyAuthStep::Done(PasskeyAuthOutcome::Internal(e)) && e@
                    == "no auth_session_id in challenge"@,
                Some(hash) => match p.session {
                    None => r == (PasskeyAuthStep::FindSession {
                        tenant_id: tenant.tenant_id,
                        id_hash: hash,
                    }),
                    Some(Err(e)) => r == PasskeyAuthStep::Done(PasskeyAuthOutcome::Internal(e)),
                    Some(Ok(None)) => r == PasskeyAuthStep::Done(PasskeyAuthOutcome::SessionExpired),
                    Some(Ok(Some(session))) => if session.expired_at(draw.now) {
                        if p.expired_deleted {
                            r == PasskeyAuthStep::Done(PasskeyAuthOutcome::SessionExpired)
                        } else {
                            r == (PasskeyAuthStep::DeleteExpired { id_hash: session.id_hash })
                        }
                    } else {
                        self.policy_rule(tenant, ctx, draw, p, session, verified.user_id, r)
                    },
                },
            },
        }
    }

    fn end(
        &self,
        tenant: &TenantContext,
        draw: &LoginDraw,
        p: &PasskeyAuthProgress,
        session: &AuthSession,
        user_id: Uuid,
    ) -> (r: PasskeyAuthStep)
        ensures
            self.end_rule(*tenant, *draw, *p, *session, user_id, r),
    {
        let s = FlowSubject {
            tenant_id: tenant.tenant_id,
            user_id,
            now: draw.now,
            rotated_id: draw.rotated_id.clone(),
            sid: draw.sso.sid.clone(),
            delivery: CodeDelivery::AsRequested,
        };
        let f: FlowStep = finish_flow(session, &s, &p.flow);
        let ghost step = f;
        proof {
            assert(flow_rule(*session, s, p.flow, step));
        }
        match f {
            FlowStep::ConsentRequired => PasskeyAuthStep::Done(
                PasskeyAuthOutcome::ConsentRequired {
                    auth_session_id: draw.rotated_id.clone(),
                    sso_session_id: draw.sso.sso_session_id.clone(),
                },
            ),
            FlowStep::Failed(e) => PasskeyAuthStep::Done(PasskeyAuthOutcome::Internal(e)),
            FlowStep::Complete { location, form_post } => PasskeyAuthStep::Done(
                PasskeyAuthOutcome::Success {
                    location,
                    form_post,
                    sso_session_id: draw.sso.sso_session_id.clone(),
                },
            ),
            other => PasskeyAuthStep::Flow(other),
        }
    }

    fn sign_on(
        &self,
        tenant: &TenantContext,
        ctx: &RequestContext,
        draw: &LoginDraw,
        p: &PasskeyAuthProgress,
        session: &AuthSession,
        user_id: Uuid,
    ) -> (r: PasskeyAuthStep)
        ensures
            self.sign_on_rule(*tenant, *ctx, *draw, *p, *session, user_id, r),
    {
        match &p.authenticated {
            None => return PasskeyAuthStep::SetAuthenticated {
                id_hash: session.id_hash.clone(),
                new_id_hash: id_hash(draw.rotated_id.as_str()),
                user_id,
                now: draw.now,
                sid: draw.sso.sid.clone(),
            },
            Some(Err(e)) => return PasskeyAuthStep::Done(PasskeyAuthOutcome::Internal(e.clone())),
            Some(Ok(_)) => {},
        }
        match &p.sso_created {
            None => return PasskeyAuthStep::CreateSso(
                SsoGrant {
                    session_hash: sha256_hex(draw.sso.sso_session_id.as_str()),
                    user_id,
                    now: draw.now,
                    idle_ttl: self.sso_idle_ttl,
                    absolute_ttl: self.sso_absolute_ttl,
                    methods: only(AuthenticationMethod::WebAuthn),
                    user_agent: ctx.user_agent.clone(),
                    ip_address: ctx.ip_address.clone(),
                },
            ),
            Some(Err(e)) => return PasskeyAuthStep::Done(PasskeyAuthOutcome::Internal(e.clone())),
            Some(Ok(_)) => {},
        }
        if p.audits == 0 {
            return PasskeyAuthStep::Audit(
                login_audit(
                    AuditEventType::SsoSessionCreated,
                    AuditResult::Success,
                    tenant.tenant_id,
                    Some(user_id),
                    &session.client_id,
                    None,
                ),
            );
        }
        if p.audits == 1 {
            return PasskeyAuthStep::Audit(
                login_audit(
                    AuditEventType::LoginSucceeded,
                    AuditResult::Success,
                    tenant.tenant_id,
                    Some(user_id),
                    &session.client_id,
                    None,
                ),
            );
        }
        self.end(tenant, draw, p, session, user_id)
    }

    fn refuse(
        &self,
        tenant: &TenantContext,
        p: &PasskeyAuthProgress,
        session: &AuthSession,
        user_id: Uuid,
        reason: AuditReason,
    ) -> (r: PasskeyAuthStep)
        ensures
            r == if p.audits == 0 {
                PasskeyAuthStep::Audit(
                    login_entry(
                        AuditEventType::LoginPolicyDenied,
                        AuditResult::Failure,
                        tenant.tenant_id,
                        Some(user_id),
                        session.client_id,
                        Some(reason),
                    ),
                )
            } else {
                PasskeyAuthStep::Done(PasskeyAuthOutcome::PolicyDenied)
            },
    {
        if p.audits == 0 {
            PasskeyAuthStep::Audit(
                login_audit(
                    AuditEventType::LoginPolicyDenied,
                    AuditResult::Failure,
                    tenant.tenant_id,
                    Some(user_id),
                    &session.client_id,
                    Some(reason),
                ),
            )
        } else {
            PasskeyAuthStep::Done(PasskeyAuthOutcome::PolicyDenied)
        }
    }

    fn check_policies(
        &self,
        tenant: &TenantContext,
        ctx: &RequestContext,
        draw: &LoginDraw,
        p: &PasskeyAuthProgress,
        session: &AuthSession,
        user_id: Uuid,
    ) -> (r: PasskeyAuthStep)
        ensures
            self.policy_rule(*tenant, *ctx, *draw, *p, *session, user_id, r),
    {
        let eval: &PolicyEvaluation = match &p.policy {
            None => return PasskeyAuthStep::EvaluatePolicies(
                PolicyQuery {
                    tenant_id: tenant.tenant_id,
                    client_id: Some(session.client_id.clone()),
                    user_id,
                    ip_address: ctx.ip_address.clone(),
                    now: draw.now,
                    acr_values: session.acr_values.clone(),
                    default_effect: self.policy_default_effect,
                    methods: only(AuthenticationMethod::WebAuthn),
                    user_verified: true,
                },
            ),
            Some(Err(e)) => return PasskeyAuthStep::Done(PasskeyAuthOutcome::Internal(e.clone())),
            Some(Ok(eval)) => eval,
        };
        if let PolicyDecision::Deny { policy_code } = &eval.decision {
            let reason = AuditReason::Policy { code: policy_code.clone() };
            return self.refuse(tenant, p, session, user_id, reason);
        }
        if let Some(unmet) = &eval.unmet {
            let reason = AuditReason::PolicyMethod {
                code: unmet.policy_code.clone(),
                required: unmet.required.clone(),
            };
            return self.refuse(tenant, p, session, user_id, reason);
        }
        self.sign_on(tenant, ctx, draw, p, session, user_id)
    }

    /// Decides what comes next in a sign-in of which `p` is known.
    pub fn complete(
        &self,
        tenant: &TenantContext,
        challenge_id: Uuid,
        answer: &String,
        ctx: &RequestContext,
        draw: &LoginDraw,
        p: &PasskeyAuthProgress,
    ) -> (r: PasskeyAuthStep)
        ensures
            self.complete_rule(*tenant, challenge_id, *answer, *ctx, *draw, *p, r),
    {
        let verified: &VerifiedPasskeyUser = match &p.assertion {
            None => return PasskeyAuthStep::VerifyAssertion {
                tenant_id: tenant.tenant_id,
                challenge_id,
                answer: answer.clone(),
                flow: PasskeyFlow::Oidc,
            },
            Some(Err(e)) => {
                return PasskeyAuthStep::Done(PasskeyAuthOutcome::from(clone_error(e)));
            },
            Some(Ok(verified)) => verified,
        };
        let hash: &String = match &verified.auth_session_id_hash {
            None => return PasskeyAuthStep::Done(
                PasskeyAuthOutcome::Internal("no auth_session_id in challenge".to_owned()),
            ),
            Some(hash) => hash,
        };
        let session: &AuthSession = match &p.session {
            None => return PasskeyAuthStep::FindSession {
                tenant_id: tenant.tenant_id,
                id_hash: hash.clone(),
            },
            Some(Err(e)) => return PasskeyAuthStep::Done(PasskeyAuthOutcome::Internal(e.clone())),
            Some(Ok(None)) => return PasskeyAuthStep::Done(PasskeyAuthOutcome::SessionExpired),
            Some(Ok(Some(session))) => session,
        };
        if session.is_expired_at(draw.now) {
            if p.expired_deleted {
                return PasskeyAuthStep::Done(PasskeyAuthOutcome::SessionExpired);
            }
            return PasskeyAuthStep::DeleteExpired { id_hash: session.id_hash.clone() };
        }
        self.check_policies(tenant, ctx, draw, p, session, verified.user_id)
    }
}

/// A sign-on is created, a code is issued and success is reported only for the owner of a passkey
/// whose ceremony was completed, within the live request that its challenge was bound to, and with
/// the policies' consent.
pub proof fn passkey_sign_on_needs_every_proof(
    svc: PasskeyAuthenticationService,
    tenant: TenantContext,
    challenge_id: Uuid,
    answer: String,
    ctx: RequestContext,
    draw: LoginDraw,
    p: PasskeyAuthProgress,
    r: PasskeyAuthStep,
)
    requires
        svc.complete_rule(tenant, challenge_id, answer, ctx, draw, p, r),
        r is CreateSso || r is SetAuthenticated || r is Flow || (r matches PasskeyAuthStep::Done(o)
            && (o is Success || o is ConsentRequired)),
    ensures
        p.assertion matches Some(Ok(verified)) && verified.auth_session_id_hash is Some,
        p.session matches Some(Ok(Some(session))) && !session.expired_at(draw.now),
        p.policy matches Some(Ok(eval)) && !(eval.decision is Deny) && eval.unmet is None,
{
}

/// The request goes on under the identifier drawn for this sign-in.
pub proof fn passkey_session_identifier_is_rotated(
    svc: PasskeyAuthenticationService,
    tenant: TenantContext,
    challenge_id: Uuid,
    answer: String,
    ctx: RequestContext,
    draw: LoginDraw,
    p: PasskeyAuthProgress,
    r: PasskeyAuthStep,
)
    requires
        svc.complete_rule(tenant, challenge_id, answer, ctx, draw, p, r),
    ensures
        r matches PasskeyAuthStep::SetAuthenticated { new_id_hash, .. } ==> new_id_hash@
            == id_hash_of(draw.rotated_id@),
        r matches PasskeyAuthStep::Flow(FlowStep::DeleteSession { id_hash }) ==> id_hash@
            == id_hash_of(draw.rotated_id@),
        r matches PasskeyAuthStep::Done(PasskeyAuthOutcome::ConsentRequired { auth_session_id, .. })
            ==> auth_session_id == draw.rotated_id,
{
}

/// Nothing is asked for that is known already: every call that comes next fills a gap.
pub proof fn nothing_is_asked_twice(
    svc: PasskeyAuthenticationService,
    tenant: TenantContext,
    challenge_id: Uuid,
    answer: String,
    ctx: RequestContext,
    draw: LoginDraw,
    p: PasskeyAuthProgress,
    r: PasskeyAuthStep,
)
    requires
        svc.complete_rule(tenant, challenge_id, answer, ctx, draw, p, r),
    ensures
        p.lacks_answer_to(r),
{
}

impl PasskeyAuthProgress {
    /// Where a call stands in the order of calls; the outcome stands last.
    pub open spec fn place(self, step: PasskeyAuthStep) -> int {
        match step {
            PasskeyAuthStep::VerifyAssertion { .. } => 0,
            PasskeyAuthStep::FindSession { .. } => 1,
            PasskeyAuthStep::DeleteExpired { .. } => 2,
            PasskeyAuthStep::EvaluatePolicies(_) => 3,
            PasskeyAuthStep::SetAuthenticated { .. } => 4,
            PasskeyAuthStep::CreateSso(_) => 5,
            PasskeyAuthStep::Audit(_) => 6 + self.audits,
            PasskeyAuthStep::Flow(s) => 8 + s.place(),
            PasskeyAuthStep::Done(_) => 12,
        }
    }

    /// The call `step` asks for something that is not known yet.
    pub open spec fn lacks_answer_to(self, step: PasskeyAuthStep) -> bool {
        match step {
            PasskeyAuthStep::VerifyAssertion { .. } => self.assertion is None,
            PasskeyAuthStep::FindSession { .. } => self.session is None,
            PasskeyAuthStep::DeleteExpired { .. } => !self.expired_deleted,
            PasskeyAuthStep::EvaluatePolicies(_) => self.policy is None,
            PasskeyAuthStep::SetAuthenticated { .. } => self.authenticated is None,
            PasskeyAuthStep::CreateSso(_) => self.sso_created is None,
            PasskeyAuthStep::Flow(s) => self.flow.lacks_answer_to(s),
            PasskeyAuthStep::Audit(_) => self.audits < 2,
            PasskeyAuthStep::Done(_) => true,
        }
    }

    /// `after` is this with the answer to the call `step`.
    pub open spec fn answered(self, step: PasskeyAuthStep, after: PasskeyAuthProgress) -> bool {
        match step {
            PasskeyAuthStep::VerifyAssertion { .. } => after.assertion is Some && after == (PasskeyAuthProgress {
                assertion: after.assertion,
                ..self
            }),
            PasskeyAuthStep::FindSession { .. } => after.session is Some && after == (PasskeyAuthProgress {
                session: after.session,
                ..self
            }),
            PasskeyAuthStep::DeleteExpired { .. } => after == (PasskeyAuthProgress { expired_deleted: true, ..self }),
            PasskeyAuthStep::EvaluatePolicies(_) => after.policy is Some && after == (PasskeyAuthProgress {
                policy: after.policy,
                ..self
            }),
            PasskeyAuthStep::SetAuthenticated { .. } => after.authenticated is Some && after == (PasskeyAuthProgress {
                authenticated: after.authenticated,
                ..self
            }),
            PasskeyAuthStep::CreateSso(_) => after.sso_created is Some && after == (PasskeyAuthProgress {
                sso_created: after.sso_created,
                ..self
            }),
            PasskeyAuthStep::Flow(s) => self.flow.answered(s, after.flow) && after == (PasskeyAuthProgress {
                flow: after.flow,
                ..self
            }),
            PasskeyAuthStep::Audit(_) => after.audits == self.audits + 1 && after == (PasskeyAuthProgress {
                audits: after.audits,
                ..self
            }),
            PasskeyAuthStep::Done(_) => false,
        }
    }
}

/// The calls keep one order: whatever comes after the answer to a call stands behind it. So no call
/// is made twice, and every request comes to its outcome.
pub proof fn passkey_calls_keep_their_order(
    svc: PasskeyAuthenticationService,
    tenant: TenantContext,
    challenge_id: Uuid,
    answer: String,
    ctx: RequestContext,
    draw: LoginDraw,
    p: PasskeyAuthProgress,
    r: PasskeyAuthStep,
    after: PasskeyAuthProgress,
    next: PasskeyAuthStep,
)
    requires
        svc.complete_rule(tenant, challenge_id, answer, ctx, draw, p, r),
        p.answered(r, after),
        svc.complete_rule(tenant, challenge_id, answer, ctx, draw, after, next),
    ensures
        p.place(r) < after.place(next) <= 12,
{
}

/// The policies judge a sign-in by what the sign-on will record of it: the passkey alone, with which
/// its user was verified.
pub proof fn the_policies_judge_the_passkey(
    svc: PasskeyAuthenticationService,
    tenant: TenantContext,
    challenge_id: Uuid,
    answer: String,
    ctx: RequestContext,
    draw: LoginDraw,
    asking: PasskeyAuthProgress,
    q: PolicyQuery,
    creating: PasskeyAuthProgress,
    g: SsoGrant,
)
    requires
        call_ensures(
            PasskeyAuthenticationService::complete,
            (&svc, &tenant, challenge_id, &answer, &ctx, &draw, &asking),
            PasskeyAuthStep::EvaluatePolicies(q),
        ),
        call_ensures(
            PasskeyAuthenticationService::complete,
            (&svc, &tenant, challenge_id, &answer, &ctx, &draw, &creating),
            PasskeyAuthStep::CreateSso(g),
        ),
        creating.assertion == asking.assertion,
    ensures
        q.methods@ == g.methods@,
        q.methods@ == seq![AuthenticationMethod::WebAuthn],
        q.user_verified,
        q.user_id == g.user_id,
        q.now == g.now,
        q.ip_address == g.ip_address,
{
}

/// The sign-on of a passkey is that of its owner, and its cookie is the one that the answer carries.
pub proof fn a_passkey_signs_on_its_owner(
    svc: PasskeyAuthenticationService,
    tenant: TenantContext,
    challenge_id: Uuid,
    answer: String,
    ctx: RequestContext,
    draw: LoginDraw,
    p: PasskeyAuthProgress,
    g: SsoGrant,
    end: PasskeyAuthProgress,
    outcome: PasskeyAuthOutcome,
)
    requires
        call_ensures(
            PasskeyAuthenticationService::complete,
            (&svc, &tenant, challenge_id, &answer, &ctx, &draw, &p),
            PasskeyAuthStep::CreateSso(g),
        ),
        call_ensures(
            PasskeyAuthenticationService::complete,
            (&svc, &tenant, challenge_id, &answer, &ctx, &draw, &end),
            PasskeyAuthStep::Done(outcome),
        ),
    ensures
        p.assertion matches Some(Ok(verified)) && g.user_id == verified.user_id,
        g.now == draw.now,
        g.idle_ttl == svc.sso_idle_ttl,
        g.absolute_ttl == svc.sso_absolute_ttl,
        g.methods@ == seq![AuthenticationMethod::WebAuthn],
        g.user_agent == ctx.user_agent,
        g.ip_address == ctx.ip_address,
        outcome matches PasskeyAuthOutcome::Success { sso_session_id, .. } ==> g.session_hash@
            == sha256_hex_of(sso_session_id@),
        outcome matches PasskeyAuthOutcome::ConsentRequired { sso_session_id, .. }
            ==> g.session_hash@ == sha256_hex_of(sso_session_id@),
{
}

/// Every call of a sign-in with a passkey is about the challenge that was answered, the authorization
/// request that it was bound to, and the owner of the passkey.
pub proof fn passkey_calls_are_about_the_request(
    svc: PasskeyAuthenticationService,
    tenant: TenantContext,
    challenge_id: Uuid,
    answer: String,
    ctx: RequestContext,
    draw: LoginDraw,
    p: PasskeyAuthProgress,
    r: PasskeyAuthStep,
)
    requires
        call_ensures(
            PasskeyAuthenticationService::complete,
            (&svc, &tenant, challenge_id, &answer, &ctx, &draw, &p),
            r,
        ),
    ensures
        match r {
            PasskeyAuthStep::VerifyAssertion { tenant_id, challenge_id: id, answer: given, flow } =>
            tenant_id == tenant.tenant_id && id == challenge_id && given == answer && flow
                == PasskeyFlow::Oidc,
            PasskeyAuthStep::FindSession { tenant_id, id_hash } => tenant_id == tenant.tenant_id && (
            p.assertion matches Some(Ok(verified)) && verified.auth_session_id_hash == Some(
                id_hash,
            )),
            PasskeyAuthStep::DeleteExpired { id_hash } => p.session matches Some(Ok(Some(session)))
                && id_hash == session.id_hash && session.expires_at.nanos <= draw.now.nanos,
            PasskeyAuthStep::EvaluatePolicies(q) => q.tenant_id == tenant.tenant_id && q.now
                == draw.now && q.ip_address == ctx.ip_address && q.default_effect
                == svc.policy_default_effect && q.user_verified && q.methods@
                == seq![AuthenticationMethod::WebAuthn] && (p.assertion matches Some(Ok(verified))
                && q.user_id == verified.user_id) && (p.session matches Some(Ok(Some(session)))
                && q.client_id == Some(session.client_id) && q.acr_values == session.acr_values),
            PasskeyAuthStep::SetAuthenticated { id_hash, new_id_hash, user_id, now, sid } => (
            p.session matches Some(Ok(Some(session))) && id_hash == session.id_hash) && (
            p.assertion matches Some(Ok(verified)) && user_id == verified.user_id) && new_id_hash@
                == id_hash_of(draw.rotated_id@) && now == draw.now && sid == draw.sso.sid,
            PasskeyAuthStep::Flow(f) => p.session matches Some(Ok(Some(session))) && (
            p.assertion matches Some(Ok(verified)) && match f {
                FlowStep::FindConsent { tenant_id, user_id, client_id } => tenant_id
                    == tenant.tenant_id && user_id == verified.user_id && client_id
                    == session.client_id,
                FlowStep::IssueCode(c) => c.tenant_id == tenant.tenant_id && c.user_id
                    == verified.user_id && c.client_id == session.client_id && c.redirect_uri
                    == session.redirect_uri && c.scope@ == session.scope@ && c.nonce
                    == session.nonce && c.code_challenge == session.code_challenge
                    && c.code_challenge_method == session.code_challenge_method && c.auth_time
                    == draw.now && c.sid == Some(draw.sso.sid),
                FlowStep::DeleteSession { id_hash } => id_hash@ == id_hash_of(draw.rotated_id@),
                FlowStep::DispatchCode { session: q, code } => p.flow.code == Some(
                    Ok::<String, String>(code),
                ) && q.redirect_uri == session.redirect_uri && q.state == session.state
                    && q.response_mode == session.response_mode && q.client_id
                    == session.client_id,
                _ => false,
            }),
            _ => true,
        },
{
}

/// Every way a sign-in with a passkey ends has its cause in the ceremony or in what was found.
pub proof fn passkey_outcomes_have_their_causes(
    svc: PasskeyAuthenticationService,
    tenant: TenantContext,
    challenge_id: Uuid,
    answer: String,
    ctx: RequestContext,
    draw: LoginDraw,
    p: PasskeyAuthProgress,
    outcome: PasskeyAuthOutcome,
)
    requires
        call_ensures(
            PasskeyAuthenticationService::complete,
            (&svc, &tenant, challenge_id, &answer, &ctx, &draw, &p),
            PasskeyAuthStep::Done(outcome),
        ),
    ensures
        match outcome {
            PasskeyAuthOutcome::ChallengeNotFound => p.assertion == Some(
                Err::<VerifiedPasskeyUser, PasskeyAssertionError>(
                    PasskeyAssertionError::ChallengeNotFound,
                ),
            ) || p.assertion == Some(
                Err::<VerifiedPasskeyUser, PasskeyAssertionError>(PasskeyAssertionError::WrongFlow),
            ),
            PasskeyAuthOutcome::InvalidCredential => p.assertion == Some(
                Err::<VerifiedPasskeyUser, PasskeyAssertionError>(
                    PasskeyAssertionError::InvalidCredential,
                ),
            ),
            PasskeyAuthOutcome::SessionExpired => p.session matches Some(Ok(found)) && (
            found matches Some(session) ==> session.expires_at.nanos <= draw.now.nanos
                && p.expired_deleted),
            PasskeyAuthOutcome::PolicyDenied => p.policy matches Some(Ok(eval)) && (
            eval.decision is Deny || eval.unmet is Some) && p.audits > 0,
            PasskeyAuthOutcome::Success { location, form_post, sso_session_id } => sso_session_id
                == draw.sso.sso_session_id && (p.flow.code matches Some(Ok(_))) && p.flow.deleted
                && p.audits >= 2 && (p.flow.dispatch matches Some(d) && location == d.location && (
            form_post is Some <==> d.form_post is Some) && (form_post matches Some(fields) ==> fields@
                == d.form_post->0@)),
            PasskeyAuthOutcome::ConsentRequired { auth_session_id, sso_session_id } =>
            auth_session_id == draw.rotated_id && sso_session_id == draw.sso.sso_session_id
                && p.flow.consent is Some,
            PasskeyAuthOutcome::Internal(e) => p.assertion == Some(
                Err::<VerifiedPasskeyUser, PasskeyAssertionError>(
                    PasskeyAssertionError::Internal(e),
                ),
            ) || (p.assertion matches Some(Ok(verified)) && verified.auth_session_id_hash is None)
                || p.session == Some(Err::<Option<AuthSession>, String>(e)) || p.policy == Some(
                Err::<PolicyEvaluation, String>(e),
            ) || p.authenticated == Some(Err::<(), String>(e)) || p.sso_created == Some(
                Err::<(), String>(e),
            ) || p.flow.code == Some(Err::<String, String>(e)) || p.flow.consent == Some(
                Err::<Option<crate::model::ClientConsent>, String>(e),
            ),
        },
{
}

/// Every entry of a sign-in with a passkey in the audit trail names the tenant, the client of the
/// request and the owner of the passkey, and tells what happened.
pub proof fn passkey_audits_tell_what_happened(
    svc: PasskeyAuthenticationService,
    tenant: TenantContext,
    challenge_id: Uuid,
    answer: String,
    ctx: RequestContext,
    draw: LoginDraw,
    p: PasskeyAuthProgress,
    a: AuditRecord,
)
    requires
        call_ensures(
            PasskeyAuthenticationService::complete,
            (&svc, &tenant, challenge_id, &answer, &ctx, &draw, &p),
            PasskeyAuthStep::Audit(a),
        ),
    ensures
        a.tenant_id == Some(tenant.tenant_id),
        p.assertion matches Some(Ok(verified)) && a.user_id == Some(verified.user_id),
        p.session matches Some(Ok(Some(session))) && a.client_id == Some(session.client_id),
        match a.result {
            AuditResult::Success => a.reason is None && (p.sso_created matches Some(Ok(_))) && ((
            a.event == AuditEventType::SsoSessionCreated && p.audits == 0) || (a.event
                == AuditEventType::LoginSucceeded && p.audits == 1)),
            AuditResult::Failure => a.event == AuditEventType::LoginPolicyDenied && (
            p.policy matches Some(Ok(eval)) && match a.reason {
                Some(AuditReason::Policy { code }) =>
                    eval.decision matches PolicyDecision::Deny { policy_code } && code
                        == policy_code,
                Some(AuditReason::PolicyMethod { code, required }) => eval.unmet matches Some(unmet)
                    && code == unmet.policy_code && required == unmet.required,
                _ => false,
            }),
        },
{
}

/// A passkey whose ceremony was completed within a live request, with every call answered in its
/// favour, signs its owner on, and the answer is what the dispatch of the code has made.
pub proof fn a_passkey_in_order_succeeds(
    svc: PasskeyAuthenticationService,
    tenant: TenantContext,
    challenge_id: Uuid,
    answer: String,
    ctx: RequestContext,
    draw: LoginDraw,
    p: PasskeyAuthProgress,
    session: AuthSession,
    r: PasskeyAuthStep,
)
    requires
        call_ensures(
            PasskeyAuthenticationService::complete,
            (&svc, &tenant, challenge_id, &answer, &ctx, &draw, &p),
            r,
        ),
        p.assertion matches Some(Ok(verified)) && verified.auth_session_id_hash is Some,
        p.session == Some(Ok::<Option<AuthSession>, String>(Some(session))),
        draw.now.nanos < session.expires_at.nanos,
        p.policy matches Some(Ok(eval)) && !(eval.decision is Deny) && eval.unmet is None,
        p.authenticated == Some(Ok::<(), String>(())),
        p.sso_created == Some(Ok::<(), String>(())),
        p.audits == 2,
        session.scope@.len() == 0,
        p.flow.code matches Some(Ok(_)),
        p.flow.deleted,
        p.flow.dispatch is Some,
    ensures
        r matches PasskeyAuthStep::Done(PasskeyAuthOutcome::Success { sso_session_id, .. })
            && sso_session_id == draw.sso.sso_session_id,
{
    assert(crate::text::views(session.scope@) =~= Seq::<Seq<char>>::empty());
    assert(crate::code_flow::needing_consent(Seq::<Seq<char>>::empty()).len() == 0) by {
        reveal(Seq::filter);
    }
}

/// A service keeps each of its spans for what it was given for.
pub proof fn a_passkey_service_is_made_of_what_it_is_given(
    sso_idle_ttl: Span,
    sso_absolute_ttl: Span,
    policy_default_effect: DefaultPolicyEffect,
    svc: PasskeyAuthenticationService,
)
    requires
        call_ensures(
            PasskeyAuthenticationService::new,
            (sso_idle_ttl, sso_absolute_ttl, policy_default_effect),
            svc,
        ),
    ensures
        svc.sso_idle_ttl == sso_idle_ttl,
        svc.sso_absolute_ttl == sso_absolute_ttl,
        svc.policy_default_effect == policy_default_effect,
{
}

/// A challenge issued here is the one that is taken here: begun within an authorization request, it is
/// bound to that request, and the ceremony is brought to its end as one that is bound to a request.
pub proof fn a_begun_sign_in_is_completed_here(
    svc: PasskeyAuthenticationService,
    auth_session_id: String,
    challenge_id: Uuid,
    begun: Timestamp,
    b: BeginProgress,
    stored: PasskeyChallenge,
    tenant: TenantContext,
    answer: String,
    ctx: RequestContext,
    draw: LoginDraw,
    p: PasskeyAuthProgress,
    tenant_id: TenantId,
    id: Uuid,
    given: String,
    flow: PasskeyFlow,
)
    requires
        call_ensures(
            PasskeyAuthenticationService::begin,
            (&svc, &Some(auth_session_id), challenge_id, begun, &b),
            BeginStep::StoreChallenge(stored),
        ),
        call_ensures(
            PasskeyAuthenticationService::complete,
            (&svc, &tenant, challenge_id, &answer, &ctx, &draw, &p),
            PasskeyAuthStep::VerifyAssertion { tenant_id, challenge_id: id, answer: given, flow },
        ),
    ensures
        flow.takes(stored),
        id == stored.id,
        stored.auth_session_id_hash matches Some(h) && h@ == id_hash_of(auth_session_id@),
{
}

} // verus!
