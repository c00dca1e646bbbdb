//! Passkey ceremonies: a challenge is issued, and the answer to it says whose passkey it is.
//!
//! Three flows share the ceremony. A challenge serves the flow that it was issued for and no
//! other, and serves once.
use crate::audit::{AuditEventType, AuditReason, AuditRecord, AuditResult};
use crate::model::{
    id_hash, id_hash_of, AuthenticatorType, Reply, TenantId, User, UserStatus, Uuid,
};
use crate::text::{join2, opt_view};
use crate::time::{Span, Timestamp};
use crate::webauthn::{
    answered_credential, answered_credential_of, assertion_state_fault, assertion_state_fault_of,
    passkey_fault, passkey_fault_of, updated_passkey, updated_passkey_of, PasskeyUpdate,
};
use vstd::prelude::*;

verus! {

/// How long a challenge can be answered, in seconds.
pub const CHALLENGE_TTL_SECS: i64 = 300;

#[derive(Clone, Copy, Debug, PartialEq, Eq, Structural)]
pub enum PasskeyChallengeType {
    Authenticate,
    Register,
    StepUp,
}

/// The flow that a passkey is used in.
#[derive(Clone, Copy, Debug, PartialEq, Eq, Structural)]
pub enum PasskeyFlow {
    /// Signing in within an authorization request, to which the challenge is bound.
    Oidc,
    /// Signing in outside of one.
    Direct,
    /// Confirming one's identity within a sign-on that is there already.
    StepUp,
}

pub enum PasskeyAssertionError {
    /// Unknown, expired or used up.
    ChallengeNotFound,
    /// Issued for another flow.
    WrongFlow,
    /// Unknown, refused, suspended, of an inactive account or of no member, alike.
    InvalidCredential,
    Internal(String),
}

/// Whose passkey it is.
pub struct VerifiedPasskeyUser {
    pub user_id: Uuid,
    /// The authorization request that the challenge was bound to.
    pub auth_session_id_hash: Option<String>,
}

pub struct PasskeyChallenge {
    pub id: Uuid,
    pub user_id: Option<Uuid>,
    pub challenge_type: PasskeyChallengeType,
    pub state_json: String,
    pub auth_session_id_hash: Option<String>,
    pub expires_at: Timestamp,
    pub created_at: Timestamp,
}

/// A registered passkey.
pub struct WebAuthnCredential {
    pub id: Uuid,
    pub user_id: Uuid,
    pub credential_id: String,
    pub passkey_json: String,
    pub name: String,
    pub created_at: Timestamp,
    pub last_used_at: Option<Timestamp>,
}

/// What the ceremony's check has answered.
pub enum CeremonyReply {
    Rejected,
    /// The answer is right; what the check has found out, as JSON.
    Accepted { result_json: Result<String, String> },
}

/// A ceremony that has begun.
pub struct BegunCeremony {
    /// Its state, as JSON, or why it cannot be written.
    pub state_json: Result<String, String>,
    /// The options for the browser, as JSON, or why they cannot be written.
    pub options_json: Result<String, String>,
}

/// What is known of a beginning so far.
#[derive(Default)]
pub struct BeginProgress {
    pub ceremony: Reply<BegunCeremony>,
    pub stored: Reply<()>,
}

pub enum BeginStep {
    StartCeremony,
    StoreChallenge(PasskeyChallenge),
    /// The challenge's identifier and the options for the browser.
    Done(Result<(Uuid, String), String>),
}

/// What is known of an answer so far.
#[derive(Default)]
pub struct AssertionProgress {
    pub challenge: Reply<Option<PasskeyChallenge>>,
    /// Whether the removal of an expired challenge was carried out.
    pub expired_deleted: bool,
    /// The removal of the challenge before it is used.
    pub consumed: Reply<()>,
    pub credential: Reply<Option<WebAuthnCredential>>,
    /// Whether the registry has suspended this passkey.
    pub blocked: Reply<bool>,
    pub ceremony: Option<CeremonyReply>,
    pub passkey_saved: Reply<()>,
    pub user: Reply<Option<User>>,
    pub member: Reply<bool>,
    pub audits: usize,
}

/// What comes next: a call to make, or the result.
pub enum AssertionStep {
    FindChallenge { id: Uuid },
    DeleteExpired { id: Uuid },
    ConsumeChallenge { id: Uuid },
    FindCredential { credential_id: String },
    FindBlocked { user_id: Uuid, kind: AuthenticatorType, authenticator_id: Uuid },
    CheckCeremony { answer: String, state_json: String, passkey_json: String },
    SavePasskey { id: Uuid, passkey_json: String, now: Timestamp },
    FindUser { user_id: Uuid },
    FindMembership { tenant_id: TenantId, user_id: Uuid },
    Audit(AuditRecord),
    Done(Result<VerifiedPasskeyUser, PasskeyAssertionError>),
}

pub struct PasskeyAssertionService {}

impl PasskeyFlow {
    pub open spec fn challenge_type_of(self) -> PasskeyChallengeType {
        match self {
            PasskeyFlow::Oidc => PasskeyChallengeType::Authenticate,
            PasskeyFlow::Direct => PasskeyChallengeType::Authenticate,
            PasskeyFlow::StepUp => PasskeyChallengeType::StepUp,
        }
    }

    /// The kind of challenge that the flow issues and takes.
    pub fn challenge_type(self) -> (r: PasskeyChallengeType)
        ensures
            r == self.challenge_type_of(),
    {
        match self {
            PasskeyFlow::Oidc | PasskeyFlow::Direct => PasskeyChallengeType::Authenticate,
            PasskeyFlow::StepUp => PasskeyChallengeType::StepUp,
        }
    }

    /// Whether a challenge was issued for this flow.
    pub open spec fn takes(self, c: PasskeyChallenge) -> bool {
        c.challenge_type == self.challenge_type_of() && match self {
            PasskeyFlow::Oidc => c.auth_session_id_hash is Some,
            PasskeyFlow::Direct => c.auth_session_id_hash is None,
            PasskeyFlow::StepUp => c.auth_session_id_hash is None,
        }
    }

    fn accepts(self, c: &PasskeyChallenge) -> (r: bool)
        ensures
            r == self.takes(*c),
    {
        c.challenge_type == self.challenge_type() && match self {
            PasskeyFlow::Oidc => c.auth_session_id_hash.is_some(),
            PasskeyFlow::Direct | PasskeyFlow::StepUp => c.auth_session_id_hash.is_none(),
        }
    }
}

/// The challenge that a flow issues: bound to the authorization request where there is one, and
/// open for five minutes.
pub open spec fn is_challenge_for(
    c: PasskeyChallenge,
    flow: PasskeyFlow,
    auth_session_id: Option<String>,
    id: Uuid,
    now: Timestamp,
    state_json: String,
) -> bool {
    &&& c.id == id
    &&& c.user_id is None
    &&& c.challenge_type == flow.challenge_type_of()
    &&& c.state_json == state_json
    &&& opt_view(c.auth_session_id_hash) == match auth_session_id {
        Some(s) => Some(id_hash_of(s@)),
        None => None,
    }
    &&& c.expires_at == now.later(Span::of_seconds(CHALLENGE_TTL_SECS as int))
    &&& c.created_at == now
}

/// What comes next in a beginning of which `p` is known.
pub open spec fn begin_rule(
    flow: PasskeyFlow,
    auth_session_id: Option<String>,
    challenge_id: Uuid,
    now: Timestamp,
    p: BeginProgress,
    r: BeginStep,
) -> bool {
    match p.ceremony {
        None => r == BeginStep::StartCeremony,
        Some(Err(e)) => r matches BeginStep::Done(Err(m)) && m@ == "begin_authentication failed: "@
            + e@,
        Some(Ok(begun)) => match begun.state_json {
            Err(e) => r matches BeginStep::Done(Err(m)) && m@ == "serialize state: "@ + e@,
            Ok(state_json) => match p.stored {
                None => r matches BeginStep::StoreChallenge(c) && is_challenge_for(
                    c,
                    flow,
                    auth_session_id,
                    challenge_id,
                    now,
                    state_json,
                ),
                Some(Err(e)) => r == BeginStep::Done(Err(e)),
                Some(Ok(_)) => match begun.options_json {
                    Err(e) => r matches BeginStep::Done(Err(m)) && m@ == "serialize options: "@
                        + e@,
                    Ok(options_json) => r == BeginStep::Done(Ok((challenge_id, options_json))),
                },
            },
        },
    }
}

/// What comes next in beginning to sign in; within an authorization request, bound to it.
pub open spec fn sign_in_begin_rule(
    auth_session_id: Option<String>,
    challenge_id: Uuid,
    now: Timestamp,
    p: BeginProgress,
    r: BeginStep,
) -> bool {
    begin_rule(PasskeyFlow::Direct, auth_session_id, challenge_id, now, p, r)
}

/// What comes next in beginning to confirm one's identity.
pub open spec fn step_up_begin_rule(
    challenge_id: Uuid,
    now: Timestamp,
    p: BeginProgress,
    r: BeginStep,
) -> bool {
    begin_rule(PasskeyFlow::StepUp, None, challenge_id, now, p, r)
}

/// The account must be active and belong to the tenant.
pub open spec fn member_rule(
    tenant_id: TenantId,
    user_id: Uuid,
    user: Reply<Option<User>>,
    member: Reply<bool>,
    verified: VerifiedPasskeyUser,
    r: AssertionStep,
) -> bool {
    match user {
        None => r == (AssertionStep::FindUser { user_id }),
        Some(Err(e)) => r == AssertionStep::Done(Err(PasskeyAssertionError::Internal(e))),
        Some(Ok(found)) => if !(found matches Some(u) && u.active()) {
            r == AssertionStep::Done(Err(PasskeyAssertionError::InvalidCredential))
        } else {
            match member {
                None => r == (AssertionStep::FindMembership { tenant_id, user_id }),
                Some(Err(e)) => r == AssertionStep::Done(Err(PasskeyAssertionError::Internal(e))),
                Some(Ok(false)) => r == AssertionStep::Done(
                    Err(PasskeyAssertionError::InvalidCredential),
                ),
                Some(Ok(true)) => r == AssertionStep::Done(Ok(verified)),
            }
        },
    }
}

/// The answer is right: the passkey is saved as the answer has left it, where that has changed it,
/// and the owner must be an active member.
pub open spec fn update_rule(
    tenant_id: TenantId,
    result: Seq<char>,
    now: Timestamp,
    challenge: PasskeyChallenge,
    credential: WebAuthnCredential,
    p: AssertionProgress,
    r: AssertionStep,
) -> bool {
    let verified = VerifiedPasskeyUser {
        user_id: credential.user_id,
        auth_session_id_hash: challenge.auth_session_id_hash,
    };
    let member = member_rule(tenant_id, credential.user_id, p.user, p.member, verified, r);
    match updated_passkey_of(credential.passkey_json@, result) {
        Err(fault) => r matches AssertionStep::Done(Err(PasskeyAssertionError::Internal(e))) && e@
            == fault,
        Ok((changed, written)) => if changed != Some(true) {
            member
        } else {
            match written {
                Err(fault) => r matches AssertionStep::Done(
                    Err(PasskeyAssertionError::Internal(e)),
                ) && e@ == fault,
                Ok(json) => match p.passkey_saved {
                    None => r matches AssertionStep::SavePasskey { id, passkey_json, now: at } && id
                        == credential.id && passkey_json@ == json && at == now,
                    Some(Err(e)) => r == AssertionStep::Done(
                        Err(PasskeyAssertionError::Internal(e)),
                    ),
                    Some(Ok(_)) => member,
                },
            }
        },
    }
}

/// The passkey is known: it must be readable and not suspended, the answer must be right, what the
/// answer has changed is saved, and the owner must be an active member.
pub open spec fn credential_rule(
    tenant_id: TenantId,
    answer: String,
    now: Timestamp,
    challenge: PasskeyChallenge,
    credential: WebAuthnCredential,
    p: AssertionProgress,
    r: AssertionStep,
) -> bool {
    match passkey_fault_of(credential.passkey_json@) {
        Some(fault) => r matches AssertionStep::Done(Err(PasskeyAssertionError::Internal(e))) && e@
            == fault,
        None => match p.blocked {
            None => r == (AssertionStep::FindBlocked {
                user_id: credential.user_id,
                kind: AuthenticatorType::WebAuthn,
                authenticator_id: credential.id,
            }),
            Some(Err(e)) => r == AssertionStep::Done(Err(PasskeyAssertionError::Internal(e))),
            Some(Ok(true)) => r == AssertionStep::Done(
                Err(PasskeyAssertionError::InvalidCredential),
            ),
            Some(Ok(false)) => match p.ceremony {
                None => r == (AssertionStep::CheckCeremony {
                    answer,
                    state_json: challenge.state_json,
                    passkey_json: credential.passkey_json,
                }),
                Some(CeremonyReply::Rejected) => if p.audits == 0 {
                    r == AssertionStep::Audit(
                        AuditRecord {
                            event: AuditEventType::LoginFailed,
                            result: AuditResult::Failure,
                            tenant_id: Some(tenant_id),
                            user_id: Some(credential.user_id),
                            client_id: None,
                            reason: Some(AuditReason::InvalidPasskey),
                        },
                    )
                } else {
                    r == AssertionStep::Done(Err(PasskeyAssertionError::InvalidCredential))
                },
                Some(CeremonyReply::Accepted { result_json }) => match result_json {
                    Err(e) => r == AssertionStep::Done(Err(PasskeyAssertionError::Internal(e))),
                    Ok(result) => update_rule(
                        tenant_id,
                        result@,
                        now,
                        challenge,
                        credential,
                        p,
                        r,
                    ),
                },
            },
        },
    }
}

/// What comes next for an answer of which `p` is known.
pub open spec fn assertion_rule(
    tenant_id: TenantId,
    challenge_id: Uuid,
    answer: String,
    flow: PasskeyFlow,
    now: Timestamp,
    p: AssertionProgress,
    r: AssertionStep,
) -> bool {
    match p.challenge {
        None => r == (AssertionStep::FindChallenge { id: challenge_id }),
        Some(Err(e)) => r == AssertionStep::Done(Err(PasskeyAssertionError::Internal(e))),
        Some(Ok(None)) => r == AssertionStep::Done(Err(PasskeyAssertionError::ChallengeNotFound)),
        Some(Ok(Some(c))) => if c.expires_at.nanos <= now.nanos {
            if p.expired_deleted {
                r == AssertionStep::Done(Err(PasskeyAssertionError::ChallengeNotFound))
            } else {
                r == (AssertionStep::DeleteExpired { id: challenge_id })
            }
        } else {
            match p.consumed {
                None => r == (AssertionStep::ConsumeChallenge { id: challenge_id }),
                Some(Err(e)) => r == AssertionStep::Done(Err(PasskeyAssertionError::Internal(e))),
                Some(Ok(_)) => if !flow.takes(c) {
                    r == AssertionStep::Done(Err(PasskeyAssertionError::WrongFlow))
                } else if assertion_state_fault_of(c.state_json@) is Some {
                    r matches AssertionStep::Done(Err(PasskeyAssertionError::Internal(e))) && e@
                        == assertion_state_fault_of(c.state_json@)->0
                } else {
                    match answered_credential_of(answer@) {
                        None => r == AssertionStep::Done(
                            Err(PasskeyAssertionError::InvalidCredential),
                        ),
                        Some(id) => match p.credential {
                            None => r matches AssertionStep::FindCredential { credential_id }
                                && credential_id@ == id,
                            Some(Err(e)) => r == AssertionStep::Done(
                                Err(PasskeyAssertionError::Internal(e)),
                            ),
                            Some(Ok(None)) => r == AssertionStep::Done(
                                Err(PasskeyAssertionError::InvalidCredential),
                            ),
                            Some(Ok(Some(credential))) => credential_rule(
                                tenant_id,
                                answer,
                                now,
                                c,
                                credential,
                                p,
                                r,
                            ),
                        },
                    }
                },
            }
        },
    }
}

fn internal(e: &String) -> (r: AssertionStep)
    ensures
        r == AssertionStep::Done(Err(PasskeyAssertionError::Internal(*e))),
{
    AssertionStep::Done(Err(PasskeyAssertionError::Internal(e.clone())))
}

fn refuse() -> (r: AssertionStep)
    ensures
        r == AssertionStep::Done(Err(PasskeyAssertionError::InvalidCredential)),
{
    AssertionStep::Done(Err(PasskeyAssertionError::InvalidCredential))
}

/// Decides what comes next for the owner of a passkey whose answer was right.
pub fn ensure_active_member(
    tenant_id: TenantId,
    user_id: Uuid,
    user: &Reply<Option<User>>,
    member: &Reply<bool>,
    verified: VerifiedPasskeyUser,
) -> (r: AssertionStep)
    ensures
        member_rule(tenant_id, user_id, *user, *member, verified, r),
{
    match user {
        None => return AssertionStep::FindUser { user_id },
        Some(Err(e)) => return internal(e),
        Some(Ok(None)) => return refuse(),
        Some(Ok(Some(u))) => if !u.is_active() {
            return refuse();
        },
    }
    match member {
        None => AssertionStep::FindMembership { tenant_id, user_id },
        Some(Err(e)) => internal(e),
        Some(Ok(is_member)) => if *is_member {
            AssertionStep::Done(Ok(verified))
        } else {
            refuse()
        },
    }
}

impl PasskeyAssertionService {
    pub fn new() -> (r: Self)
        ensures
            r == (PasskeyAssertionService {  }),
    {
        PasskeyAssertionService {  }
    }

    /// Begins to sign in; within an authorization request, bound to it.
    pub fn begin(
        &self,
        auth_session_id: &Option<String>,
        challenge_id: Uuid,
        now: Timestamp,
        p: &BeginProgress,
    ) -> (r: BeginStep)
        requires
            now.can_add(Span::of_seconds(CHALLENGE_TTL_SECS as int)),
        ensures
            sign_in_begin_rule(*auth_session_id, challenge_id, now, *p, r),
    {
        self.begin_for(PasskeyFlow::Direct, auth_session_id, challenge_id, now, p)
    }

    /// Begins to confirm one's identity.
    pub fn begin_step_up(&self, challenge_id: Uuid, now: Timestamp, p: &BeginProgress) -> (r:
        BeginStep)
        requires
            now.can_add(Span::of_seconds(CHALLENGE_TTL_SECS as int)),
        ensures
            step_up_begin_rule(challenge_id, now, *p, r),
    {
        self.begin_for(PasskeyFlow::StepUp, &None, challenge_id, now, p)
    }

    /// Decides what comes next in issuing a challenge for a flow.
    pub fn begin_for(
        &self,
        flow: PasskeyFlow,
        auth_session_id: &Option<String>,
        challenge_id: Uuid,
        now: Timestamp,
        p: &BeginProgress,
    ) -> (r: BeginStep)
        requires
            now.can_add(Span::of_seconds(CHALLENGE_TTL_SECS as int)),
        ensures
            begin_rule(flow, *auth_session_id, challenge_id, now, *p, r),
    {
        let begun: &BegunCeremony = match &p.ceremony {
            None => return BeginStep::StartCeremony,
            Some(Err(e)) => return BeginStep::Done(
                Err(join2("begin_authentication failed: ", e.as_str())),
            ),
            Some(Ok(begun)) => begun,
        };
        let state_json: &String = match &begun.state_json {
            Err(e) => return BeginStep::Done(Err(join2("serialize state: ", e.as_str()))),
            Ok(state_json) => state_json,
        };
        match &p.stored {
            None => {
                let bound: Option<String> = match auth_session_id {
                    Some(s) => Some(id_hash(s.as_str())),
                    None => None,
                };
                BeginStep::StoreChallenge(
                    PasskeyChallenge {
                        id: challenge_id,
                        user_id: None,
                        challenge_type: flow.challenge_type(),
                        state_json: state_json.clone(),
                        auth_session_id_hash: bound,
                        expires_at: now.plus(Span::seconds(CHALLENGE_TTL_SECS)),
                        created_at: now,
                    },
                )
            },
            Some(Err(e)) => BeginStep::Done(Err(e.clone())),
            Some(Ok(_)) => match &begun.options_json {
                Err(e) => BeginStep::Done(Err(join2("serialize options: ", e.as_str()))),
                Ok(options_json) => BeginStep::Done(Ok((challenge_id, options_json.clone()))),
            },
        }
    }

    fn check_credential(
        &self,
        tenant_id: TenantId,
        answer: &String,
        now: Timestamp,
        challenge: &PasskeyChallenge,
        credential: &WebAuthnCredential,
        p: &AssertionProgress,
    ) -> (r: AssertionStep)
        ensures
            credential_rule(tenant_id, *answer, now, *challenge, *credential, *p, r),
    {
        if let Some(fault) = passkey_fault(credential.passkey_json.as_str()) {
            return AssertionStep::Done(Err(PasskeyAssertionError::Internal(fault)));
        }
        match &p.blocked {
            None => return AssertionStep::FindBlocked {
                user_id: credential.user_id,
                kind: AuthenticatorType::WebAuthn,
                authenticator_id: credential.id,
            },
            Some(Err(e)) => return internal(e),
            Some(Ok(blocked)) => if *blocked {
                return refuse();
            },
        }
        match &p.ceremony {
            None => AssertionStep::CheckCeremony {
                answer: answer.clone(),
                state_json: challenge.state_json.clone(),
                passkey_json: credential.passkey_json.clone(),
            },
            Some(CeremonyReply::Rejected) => {
                if p.audits == 0 {
                    return AssertionStep::Audit(
                        AuditRecord {
                            event: AuditEventType::LoginFailed,
                            result: AuditResult::Failure,
                            tenant_id: Some(tenant_id),
                            user_id: Some(credential.user_id),
                            client_id: None,
                            reason: Some(AuditReason::InvalidPasskey),
                        },
                    );
                }
                refuse()
            },
            Some(CeremonyReply::Accepted { result_json }) => match result_json {
                Err(e) => internal(e),
                Ok(result) => self.update(tenant_id, result, now, challenge, credential, p),
            },
        }
    }

    fn update(
        &self,
        tenant_id: TenantId,
        result: &String,
        now: Timestamp,
        challenge: &PasskeyChallenge,
        credential: &WebAuthnCredential,
        p: &AssertionProgress,
    ) -> (r: AssertionStep)
        ensures
            update_rule(tenant_id, result@, now, *challenge, *credential, *p, r),
    {
        let update: PasskeyUpdate = match updated_passkey(
            credential.passkey_json.as_str(),
            result.as_str(),
        ) {
            Err(fault) => return AssertionStep::Done(Err(PasskeyAssertionError::Internal(fault))),
            Ok(update) => update,
        };
        let changed: bool = match update.changed {
            Some(changed) => changed,
            None => false,
        };
        if changed {
            match update.passkey_json {
                Err(fault) => return AssertionStep::Done(
                    Err(PasskeyAssertionError::Internal(fault)),
                ),
                Ok(passkey_json) => match &p.passkey_saved {
                    None => return AssertionStep::SavePasskey {
                        id: credential.id,
                        passkey_json,
                        now,
                    },
                    Some(Err(e)) => return internal(e),
                    Some(Ok(_)) => {},
                },
            }
        }
        let verified = VerifiedPasskeyUser {
            user_id: credential.user_id,
            auth_session_id_hash: challenge.auth_session_id_hash.clone(),
        };
        ensure_active_member(tenant_id, credential.user_id, &p.user, &p.member, verified)
    }

    /// Decides what comes next for an answer of which `p` is known.
    pub fn verify(
        &self,
        tenant_id: TenantId,
        challenge_id: Uuid,
        answer: &String,
        flow: PasskeyFlow,
        now: Timestamp,
        p: &AssertionProgress,
    ) -> (r: AssertionStep)
        ensures
            assertion_rule(tenant_id, challenge_id, *answer, flow, now, *p, r),
    {
        let challenge: &PasskeyChallenge = match &p.challenge {
            None => return AssertionStep::FindChallenge { id: challenge_id },
            Some(Err(e)) => return internal(e),
            Some(Ok(None)) => return AssertionStep::Done(
                Err(PasskeyAssertionError::ChallengeNotFound),
            ),
            Some(Ok(Some(c))) => c,
        };
        if challenge.expires_at.at_or_before(now) {
            if p.expired_deleted {
                return AssertionStep::Done(Err(PasskeyAssertionError::ChallengeNotFound));
            }
            return AssertionStep::DeleteExpired { id: challenge_id };
        }
        match &p.consumed {
            None => return AssertionStep::ConsumeChallenge { id: challenge_id },
            Some(Err(e)) => return internal(e),
            Some(Ok(_)) => {},
        }
        if !flow.accepts(challenge) {
            return AssertionStep::Done(Err(PasskeyAssertionError::WrongFlow));
        }
        if let Some(fault) = assertion_state_fault(challenge.state_json.as_str()) {
            return AssertionStep::Done(Err(PasskeyAssertionError::Internal(fault)));
        }
        let credential_id: String = match answered_credential(answer.as_str()) {
            None => return refuse(),
            Some(id) => id,
        };
        match &p.credential {
            None => AssertionStep::FindCredential { credential_id },
            Some(Err(e)) => internal(e),
            Some(Ok(None)) => refuse(),
            Some(Ok(Some(credential))) => self.check_credential(
                tenant_id,
                answer,
                now,
                challenge,
                credential,
                p,
            ),
        }
    }
}

/// A passkey is accepted only where a challenge that is open and meant for this flow was used up,
/// the passkey is not suspended, the answer was right, and the owner is an active member of the
/// tenant; and it is the owner of the passkey who is reported.
pub proof fn assertion_needs_every_proof(
    tenant_id: TenantId,
    challenge_id: Uuid,
    answer: String,
    flow: PasskeyFlow,
    now: Timestamp,
    p: AssertionProgress,
    verified: VerifiedPasskeyUser,
)
    requires
        assertion_rule(
            tenant_id,
            challenge_id,
            answer,
            flow,
            now,
            p,
            AssertionStep::Done(Ok(verified)),
        ),
    ensures
        p.challenge matches Some(Ok(Some(c))) && now.nanos < c.expires_at.nanos && flow.takes(c)
            && verified.auth_session_id_hash == c.auth_session_id_hash,
        p.consumed matches Some(Ok(_)),
        p.credential matches Some(Ok(Some(credential))) && verified.user_id == credential.user_id,
        p.blocked matches Some(Ok(false)),
        p.ceremony matches Some(CeremonyReply::Accepted { .. }),
        p.user matches Some(Ok(Some(u))) && u.active(),
        p.member matches Some(Ok(true)),
{
}

/// Where an answer has moved a passkey on, such as its signature counter, the passkey is saved as it
/// is then, and accepted only after that.
pub proof fn a_changed_passkey_is_saved(
    tenant_id: TenantId,
    challenge_id: Uuid,
    answer: String,
    flow: PasskeyFlow,
    now: Timestamp,
    p: AssertionProgress,
    r: AssertionStep,
    credential: WebAuthnCredential,
    result: String,
    written: Result<Seq<char>, Seq<char>>,
)
    requires
        assertion_rule(tenant_id, challenge_id, answer, flow, now, p, r),
        p.credential == Some(Ok::<Option<WebAuthnCredential>, String>(Some(credential))),
        p.ceremony == Some(CeremonyReply::Accepted { result_json: Ok(result) }),
        updated_passkey_of(credential.passkey_json@, result@) == Ok::<
            (Option<bool>, Result<Seq<char>, Seq<char>>),
            Seq<char>,
        >((Some(true), written)),
    ensures
        r matches AssertionStep::SavePasskey { id, passkey_json, now: at } ==> id == credential.id
            && written == Ok::<Seq<char>, Seq<char>>(passkey_json@) && at == now,
        r matches AssertionStep::Done(Ok(_)) ==> written is Ok && (p.passkey_saved matches Some(Ok(_))),
{
}

/// A challenge is used up before anything is made of the answer, whatever comes of it.
pub proof fn a_challenge_serves_once(
    tenant_id: TenantId,
    challenge_id: Uuid,
    answer: String,
    flow: PasskeyFlow,
    now: Timestamp,
    p: AssertionProgress,
    r: AssertionStep,
)
    requires
        assertion_rule(tenant_id, challenge_id, answer, flow, now, p, r),
        !(r is FindChallenge),
        !(r is DeleteExpired),
        !(r is ConsumeChallenge),
    ensures
        (p.consumed matches Some(Ok(_))) || (r matches AssertionStep::Done(Err(e)) && (
        e is ChallengeNotFound || e is Internal)),
{
}

/// No challenge serves two flows.
pub proof fn a_challenge_serves_one_flow(c: PasskeyChallenge, f: PasskeyFlow, g: PasskeyFlow)
    requires
        f.takes(c),
        g.takes(c),
    ensures
        f == g,
{
}

/// A challenge issued within an authorization request serves that flow; one issued without serves
/// to sign in directly; and one issued to confirm an identity serves nothing else.
pub proof fn an_issued_challenge_serves_its_flow(
    c: PasskeyChallenge,
    flow: PasskeyFlow,
    auth_session_id: Option<String>,
    id: Uuid,
    now: Timestamp,
    state_json: String,
)
    requires
        is_challenge_for(c, flow, auth_session_id, id, now, state_json),
        flow == PasskeyFlow::StepUp ==> auth_session_id is None,
    ensures
        flow == PasskeyFlow::StepUp ==> PasskeyFlow::StepUp.takes(c),
        flow != PasskeyFlow::StepUp && auth_session_id is Some ==> PasskeyFlow::Oidc.takes(c),
        flow != PasskeyFlow::StepUp && auth_session_id is None ==> PasskeyFlow::Direct.takes(c),
{
}

impl AssertionProgress {
    /// The call `step` asks for something that is not known yet.
    pub open spec fn lacks_answer_to(self, step: AssertionStep) -> bool {
        match step {
            AssertionStep::FindChallenge { .. } => self.challenge is None,
            AssertionStep::DeleteExpired { .. } => !self.expired_deleted,
            AssertionStep::ConsumeChallenge { .. } => self.consumed is None,
            AssertionStep::FindCredential { .. } => self.credential is None,
            AssertionStep::FindBlocked { .. } => self.blocked is None,
            AssertionStep::CheckCeremony { .. } => self.ceremony is None,
            AssertionStep::SavePasskey { .. } => self.passkey_saved is None,
            AssertionStep::FindUser { .. } => self.user is None,
            AssertionStep::FindMembership { .. } => self.member is None,
            AssertionStep::Audit(_) => self.audits < 1,
            AssertionStep::Done(_) => true,
        }
    }
}

/// Nothing is asked for that is known already: every call that comes next fills a gap.
pub proof fn nothing_is_asked_twice(
    tenant_id: TenantId,
    challenge_id: Uuid,
    answer: String,
    flow: PasskeyFlow,
    now: Timestamp,
    p: AssertionProgress,
    r: AssertionStep,
)
    requires
        assertion_rule(tenant_id, challenge_id, answer, flow, now, p, r),
    ensures
        p.lacks_answer_to(r),
{
}

/// A challenge to sign in can be answered for five minutes, knows nobody yet, keeps the state of the
/// ceremony that has begun, and is bound to the authorization request exactly where there is one; and
/// the browser gets the identifier under which it was stored.
pub proof fn a_challenge_is_issued_as_begun(
    auth_session_id: Option<String>,
    challenge_id: Uuid,
    now: Timestamp,
    p: BeginProgress,
    r: BeginStep,
)
    requires
        sign_in_begin_rule(auth_session_id, challenge_id, now, p, r),
    ensures
        match r {
            BeginStep::StartCeremony => p.ceremony is None,
            BeginStep::StoreChallenge(c) => c.id == challenge_id && c.user_id is None
                && c.challenge_type == PasskeyChallengeType::Authenticate && c.created_at == now && (
            now.wf() ==> c.expires_at.nanos == now.nanos + 300_000_000_000) && (
            p.ceremony matches Some(Ok(begun)) && begun.state_json == Ok::<String, String>(
                c.state_json,
            )) && (auth_session_id matches Some(id) ==> (c.auth_session_id_hash matches Some(h) && h@
                == id_hash_of(id@))) && (auth_session_id is None ==> c.auth_session_id_hash is None),
            BeginStep::Done(Ok((id, options))) => id == challenge_id && (p.stored matches Some(
                Ok(_),
            )) && (p.ceremony matches Some(Ok(begun)) && begun.options_json == Ok::<String, String>(
                options,
            )),
            BeginStep::Done(Err(_)) => (p.ceremony matches Some(Err(_))) || (p.stored matches Some(
                Err(_),
            )) || (p.ceremony matches Some(Ok(begun)) && (begun.state_json is Err
                || begun.options_json is Err)),
        },
{
}

/// A challenge to confirm an identity can be answered for five minutes, serves for nothing else, and
/// is bound to no authorization request; and the browser gets the identifier under which it was
/// stored.
pub proof fn a_confirmation_is_begun_for_itself(
    challenge_id: Uuid,
    now: Timestamp,
    p: BeginProgress,
    r: BeginStep,
)
    requires
        step_up_begin_rule(challenge_id, now, p, r),
    ensures
        r matches BeginStep::StoreChallenge(c) ==> c.id == challenge_id && c.challenge_type
            == PasskeyChallengeType::StepUp && c.auth_session_id_hash is None && c.created_at == now
            && (now.wf() ==> c.expires_at.nanos == now.nanos + 300_000_000_000) && (
        p.ceremony matches Some(Ok(begun)) && begun.state_json == Ok::<String, String>(c.state_json)),
        r matches BeginStep::StoreChallenge(c) ==> PasskeyFlow::StepUp.takes(c)
            && !PasskeyFlow::Direct.takes(c) && !PasskeyFlow::Oidc.takes(c),
        r matches BeginStep::Done(Ok((id, options))) ==> id == challenge_id && (
        p.ceremony matches Some(Ok(begun)) && begun.options_json == Ok::<String, String>(options)),
{
}

/// Every call for an answer is about the challenge that it answers, the passkey that it names, and
/// the owner of that passkey.
pub proof fn assertion_calls_are_about_the_answer(
    tenant_id: TenantId,
    challenge_id: Uuid,
    answer: String,
    flow: PasskeyFlow,
    now: Timestamp,
    p: AssertionProgress,
    r: AssertionStep,
)
    requires
        assertion_rule(tenant_id, challenge_id, answer, flow, now, p, r),
    ensures
        match r {
            AssertionStep::FindChallenge { id } => id == challenge_id,
            AssertionStep::DeleteExpired { id } => id == challenge_id && (p.challenge matches Some(
                Ok(Some(c)),
            ) && c.expires_at.nanos <= now.nanos),
            AssertionStep::ConsumeChallenge { id } => id == challenge_id && (p.challenge matches Some(
                Ok(Some(c)),
            ) && now.nanos < c.expires_at.nanos),
            AssertionStep::FindCredential { credential_id } => answered_credential_of(answer@)
                == Some(credential_id@),
            AssertionStep::FindBlocked { user_id, kind, authenticator_id } => kind
                == AuthenticatorType::WebAuthn && (p.credential matches Some(Ok(Some(credential)))
                && user_id == credential.user_id && authenticator_id == credential.id),
            AssertionStep::CheckCeremony { answer: given, state_json, passkey_json } => given
                == answer && (p.challenge matches Some(Ok(Some(c))) && state_json == c.state_json)
                && (p.credential matches Some(Ok(Some(credential))) && passkey_json
                == credential.passkey_json),
            AssertionStep::SavePasskey { id, passkey_json, now: at } => at == now && (
            p.credential matches Some(Ok(Some(credential))) && id == credential.id && (
            p.ceremony matches Some(CeremonyReply::Accepted { result_json: Ok(result) })
                && updated_passkey_of(credential.passkey_json@, result@) == Ok::<
                (Option<bool>, Result<Seq<char>, Seq<char>>),
                Seq<char>,
            >((Some(true), Ok(passkey_json@))))),
            AssertionStep::FindUser { user_id } => p.credential matches Some(Ok(Some(credential)))
                && user_id == credential.user_id,
            AssertionStep::FindMembership { tenant_id: t, user_id } => t == tenant_id && (
            p.credential matches Some(Ok(Some(credential))) && user_id == credential.user_id),
            AssertionStep::Audit(a) => a.event == AuditEventType::LoginFailed && a.result
                == AuditResult::Failure && a.tenant_id == Some(tenant_id) && a.client_id is None
                && a.reason == Some(AuditReason::InvalidPasskey) && (p.credential matches Some(
                Ok(Some(credential)),
            ) && a.user_id == Some(credential.user_id)) && (
            p.ceremony matches Some(CeremonyReply::Rejected)),
            AssertionStep::Done(Ok(verified)) => (p.credential matches Some(Ok(Some(credential)))
                && verified.user_id == credential.user_id) && (p.challenge matches Some(Ok(Some(c)))
                && verified.auth_session_id_hash == c.auth_session_id_hash),
            AssertionStep::Done(Err(PasskeyAssertionError::ChallengeNotFound)) =>
            p.challenge matches Some(Ok(found)) && (found matches Some(c) ==> c.expires_at.nanos
                <= now.nanos),
            AssertionStep::Done(Err(PasskeyAssertionError::WrongFlow)) => p.challenge matches Some(
                Ok(Some(c)),
            ) && ((c.challenge_type == PasskeyChallengeType::StepUp) != (flow
                == PasskeyFlow::StepUp) || c.challenge_type == PasskeyChallengeType::Register || (
            c.auth_session_id_hash is Some) != (flow == PasskeyFlow::Oidc)),
            AssertionStep::Done(Err(PasskeyAssertionError::InvalidCredential)) =>
            answered_credential_of(answer@) is None || (p.credential matches Some(Ok(None))) || (
            p.blocked == Some(Ok::<bool, String>(true))) || (
            p.ceremony matches Some(CeremonyReply::Rejected)) || (p.user matches Some(Ok(found)) && (
            found matches Some(u) ==> u.status != UserStatus::Active)) || p.member == Some(
                Ok::<bool, String>(false),
            ),
            _ => true,
        },
{
}

/// A challenge that was issued within an authorization request is taken for it, and the request that
/// comes out of the ceremony is the one that went into it.
pub proof fn an_answer_leads_back_to_its_request(
    auth_session_id: String,
    challenge_id: Uuid,
    begun: Timestamp,
    beginning: BeginProgress,
    c: PasskeyChallenge,
    tenant_id: TenantId,
    answer: String,
    now: Timestamp,
    p: AssertionProgress,
    r: AssertionStep,
)
    requires
        sign_in_begin_rule(
            Some(auth_session_id),
            challenge_id,
            begun,
            beginning,
            BeginStep::StoreChallenge(c),
        ),
        begun.wf(),
        now.nanos < begun.nanos + 300_000_000_000,
        p.challenge == Some(Ok::<Option<PasskeyChallenge>, String>(Some(c))),
        assertion_rule(tenant_id, challenge_id, answer, PasskeyFlow::Oidc, now, p, r),
    ensures
        r matches AssertionStep::Done(Ok(verified)) ==> (verified.auth_session_id_hash matches Some(h)
            && h@ == id_hash_of(auth_session_id@)),
        !(r matches AssertionStep::Done(Err(PasskeyAssertionError::WrongFlow))),
        !(r matches AssertionStep::Done(Err(PasskeyAssertionError::ChallengeNotFound))),
{
}

/// What is begun to sign in serves to sign in, and what is begun to confirm an identity serves for that
/// alone.
pub proof fn what_is_begun_serves_its_purpose(
    svc: PasskeyAssertionService,
    auth_session_id: Option<String>,
    challenge_id: Uuid,
    now: Timestamp,
    p: BeginProgress,
    to_sign_in: PasskeyChallenge,
    to_confirm: PasskeyChallenge,
)
    requires
        call_ensures(
            PasskeyAssertionService::begin,
            (&svc, &auth_session_id, challenge_id, now, &p),
            BeginStep::StoreChallenge(to_sign_in),
        ),
        call_ensures(
            PasskeyAssertionService::begin_step_up,
            (&svc, challenge_id, now, &p),
            BeginStep::StoreChallenge(to_confirm),
        ),
    ensures
        to_sign_in.challenge_type == PasskeyChallengeType::Authenticate,
        to_confirm.challenge_type == PasskeyChallengeType::StepUp,
        auth_session_id is Some <==> PasskeyFlow::Oidc.takes(to_sign_in),
        auth_session_id is None <==> PasskeyFlow::Direct.takes(to_sign_in),
        !PasskeyFlow::StepUp.takes(to_sign_in),
        PasskeyFlow::StepUp.takes(to_confirm),
        to_confirm.auth_session_id_hash is None,
{
}

} // verus!
