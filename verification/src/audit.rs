//! What the use cases write to the audit trail.
use crate::model::{AdminActor, AuthenticatorType, TenantId, Uuid};
use vstd::prelude::*;

verus! {

#[derive(Clone, Copy, Debug, PartialEq, Eq, Structural)]
pub enum AuditEventType {
    ClientAuthenticationFailed,
    ClientResourceGranted,
    ClientResourceRevoked,
    LoginFailed,
    LoginLocked,
    LoginPolicyDenied,
    LoginSucceeded,
    PasswordChanged,
    PasswordResetCompleted,
    PasswordResetRequested,
    RecoveryCodeUsed,
    RefreshTokenUsed,
    ResourceDeleted,
    ResourceRegistered,
    ResourceUpdated,
    SamlResponseIssued,
    ServiceRestartRequested,
    SsoSessionCreated,
    SsoSessionExpired,
    SsoSessionResumed,
    SsoSessionTerminated,
    StepUpFailed,
    StepUpSucceeded,
    SystemSettingsUpdated,
    TenantCreated,
    TenantDeleted,
    TenantDomainAdded,
    TenantDomainRemoved,
    TenantMemberNoteUpdated,
    TenantUpdated,
    UserCreated,
    UserLoginIdentifierAdded,
    UserLoginIdentifierRemoved,
    UserLoginIdentifierUpdated,
    UserPermissionGranted,
    UserPermissionRevoked,
}

#[derive(Clone, Copy, Debug, PartialEq, Eq, Structural)]
pub enum AuditResult {
    Success,
    Failure,
}

/// Why an event came about, or what it was about.
pub enum AuditReason {
    CsrfMismatch,
    IpRateLimited,
    UnknownUser,
    AccountLocked,
    AccountNotActive,
    InvalidPassword,
    TooManyFailures,
    EmailNotVerified,
    InvalidTotp,
    PolicyDenied,
    MethodRequired,
    InvalidPasskey,
    IdleOrAbsoluteTimeout,
    IdTokenHintSubjectMismatch,
    RpInitiatedLogout,
    Revocation,
    /// A policy refused.
    Policy { code: String },
    /// A policy asked for a second factor that the user does not have.
    PolicyMfaNotEnrolled { code: String },
    /// A policy asked for a method that was not used.
    PolicyMethod { code: String, required: String },
    /// A single-use code of this kind was used up.
    Authenticator(AuthenticatorType),
    /// An identity was confirmed for this operation.
    Operation { operation: String },
    /// An identity was confirmed for this operation with a passkey.
    OperationByPasskey { operation: String },
    /// An identity was not confirmed for this operation.
    OperationRefused { operation: String, fault: StepUpFault },
    /// Words of the use case's own.
    Words(String),
}

/// Why an identity was not confirmed.
#[derive(Clone, Copy, Debug, PartialEq, Eq, Structural)]
pub enum StepUpFault {
    InvalidPassword,
    InvalidTotp,
    InvalidPasskey,
    OtherUserPasskey,
}

impl StepUpFault {
    pub open spec fn code_of(self) -> Seq<char> {
        match self {
            StepUpFault::InvalidPassword => "invalid_password"@,
            StepUpFault::InvalidTotp => "invalid_totp"@,
            StepUpFault::InvalidPasskey => "invalid_passkey"@,
            StepUpFault::OtherUserPasskey => "other_user_passkey"@,
        }
    }

    pub fn code(&self) -> (r: String)
        ensures
            r@ == self.code_of(),
    {
        match self {
            StepUpFault::InvalidPassword => "invalid_password".to_owned(),
            StepUpFault::InvalidTotp => "invalid_totp".to_owned(),
            StepUpFault::InvalidPasskey => "invalid_passkey".to_owned(),
            StepUpFault::OtherUserPasskey => "other_user_passkey".to_owned(),
        }
    }
}

/// One entry of the audit trail; the request's origin is added where it is written.
pub struct AuditRecord {
    pub event: AuditEventType,
    pub result: AuditResult,
    pub tenant_id: Option<TenantId>,
    pub user_id: Option<Uuid>,
    pub client_id: Option<String>,
    pub reason: Option<AuditReason>,
}

/// The audit entry of an administrator's change, in these words.
pub open spec fn admin_entry(
    a: AuditRecord,
    event: AuditEventType,
    tenant_id: TenantId,
    actor: AdminActor,
    words: Seq<char>,
) -> bool {
    &&& a.event == event
    &&& a.result == AuditResult::Success
    &&& a.tenant_id == Some(tenant_id)
    &&& a.user_id == actor.user_id_of()
    &&& a.client_id == actor.client_id_of()
    &&& a.reason matches Some(AuditReason::Words(w)) && w@ == words
}

/// Makes the audit entry of an administrator's change.
pub fn admin_audit(
    event: AuditEventType,
    tenant_id: TenantId,
    actor: &AdminActor,
    words: String,
) -> (r: AuditRecord)
    ensures
        admin_entry(r, event, tenant_id, *actor, words@),
{
    AuditRecord {
        event,
        result: AuditResult::Success,
        tenant_id: Some(tenant_id),
        user_id: actor.user_id(),
        client_id: actor.client_id(),
        reason: Some(AuditReason::Words(words)),
    }
}

impl AuditReason {
    /// The entry's wording.
    pub open spec fn text_of(self) -> Seq<char> {
        match self {
            AuditReason::CsrfMismatch => "csrf_mismatch"@,
            AuditReason::IpRateLimited => "ip_rate_limited"@,
            AuditReason::UnknownUser => "unknown_user"@,
            AuditReason::AccountLocked => "account_locked"@,
            AuditReason::AccountNotActive => "account_not_active"@,
            AuditReason::InvalidPassword => "invalid_password"@,
            AuditReason::TooManyFailures => "too_many_failures"@,
            AuditReason::EmailNotVerified => "email_not_verified"@,
            AuditReason::InvalidTotp => "invalid_totp"@,
            AuditReason::PolicyDenied => "policy_denied"@,
            AuditReason::MethodRequired => "method_required"@,
            AuditReason::InvalidPasskey => "invalid_passkey"@,
            AuditReason::IdleOrAbsoluteTimeout => "idle or absolute timeout"@,
            AuditReason::IdTokenHintSubjectMismatch => "id_token_hint_subject_mismatch"@,
            AuditReason::RpInitiatedLogout => "rp_initiated_logout"@,
            AuditReason::Revocation => "revocation"@,
            AuditReason::Policy { code } => "policy="@ + code@,
            AuditReason::PolicyMfaNotEnrolled { code } => "policy="@ + code@
                + " reason=mfa_not_enrolled"@,
            AuditReason::PolicyMethod { code, required } => "policy="@ + code@
                + " reason=method_required required="@ + required@,
            AuditReason::Authenticator(kind) => "type="@ + kind.code_of(),
            AuditReason::Operation { operation } => "operation="@ + operation@,
            AuditReason::OperationByPasskey { operation } => "operation="@ + operation@
                + " method=webauthn"@,
            AuditReason::OperationRefused { operation, fault } => "operation="@ + operation@
                + " reason="@ + fault.code_of(),
            AuditReason::Words(words) => words@,
        }
    }

    pub fn text(&self) -> (r: String)
        ensures
            r@ == self.text_of(),
    {
        match self {
            AuditReason::CsrfMismatch => "csrf_mismatch".to_owned(),
            AuditReason::IpRateLimited => "ip_rate_limited".to_owned(),
            AuditReason::UnknownUser => "unknown_user".to_owned(),
            AuditReason::AccountLocked => "account_locked".to_owned(),
            AuditReason::AccountNotActive => "account_not_active".to_owned(),
            AuditReason::InvalidPassword => "invalid_password".to_owned(),
            AuditReason::TooManyFailures => "too_many_failures".to_owned(),
            AuditReason::EmailNotVerified => "email_not_verified".to_owned(),
            AuditReason::InvalidTotp => "invalid_totp".to_owned(),
            AuditReason::PolicyDenied => "policy_denied".to_owned(),
            AuditReason::MethodRequired => "method_required".to_owned(),
            AuditReason::InvalidPasskey => "invalid_passkey".to_owned(),
            AuditReason::IdleOrAbsoluteTimeout => "idle or absolute timeout".to_owned(),
            AuditReason::IdTokenHintSubjectMismatch => "id_token_hint_subject_mismatch".to_owned(),
            AuditReason::RpInitiatedLogout => "rp_initiated_logout".to_owned(),
            AuditReason::Revocation => "revocation".to_owned(),
            AuditReason::Policy { code } => {
                let mut out: String = "policy=".to_owned();
                out.append(code.as_str());
                out
            },
            AuditReason::PolicyMfaNotEnrolled { code } => {
                let mut out: String = "policy=".to_owned();
                out.append(code.as_str());
                out.append(" reason=mfa_not_enrolled");
                out
            },
            AuditReason::PolicyMethod { code, required } => {
                let mut out: String = "policy=".to_owned();
                out.append(code.as_str());
                out.append(" reason=method_required required=");
                out.append(required.as_str());
                out
            },
            AuditReason::Authenticator(kind) => {
                let mut out: String = "type=".to_owned();
                let code: String = kind.code();
                out.append(code.as_str());
                out
            },
            AuditReason::Operation { operation } => {
                let mut out: String = "operation=".to_owned();
                out.append(operation.as_str());
                out
            },
            AuditReason::OperationByPasskey { operation } => {
                let mut out: String = "operation=".to_owned();
                out.append(operation.as_str());
                out.append(" method=webauthn");
                out
            },
            AuditReason::OperationRefused { operation, fault } => {
                let mut out: String = "operation=".to_owned();
                out.append(operation.as_str());
                out.append(" reason=");
                let code: String = fault.code();
                out.append(code.as_str());
                out
            },
            AuditReason::Words(words) => words.clone(),
        }
    }
}

/// No two faults are recorded under one name.
pub proof fn faults_are_told_apart(a: StepUpFault, b: StepUpFault)
    ensures
        a.code_of() == b.code_of() ==> a == b,
{
    reveal_strlit("invalid_password");
    reveal_strlit("invalid_totp");
    reveal_strlit("invalid_passkey");
    reveal_strlit("other_user_passkey");
    assert("invalid_password"@.len() == 16 && "invalid_totp"@.len() == 12 && "invalid_passkey"@.len()
        == 15 && "other_user_passkey"@.len() == 18);
}

/// A reason that needs no more words.
pub open spec fn is_plain(r: AuditReason) -> bool {
    r is CsrfMismatch || r is IpRateLimited || r is UnknownUser || r is AccountLocked
        || r is AccountNotActive || r is InvalidPassword || r is TooManyFailures
        || r is EmailNotVerified || r is InvalidTotp || r is PolicyDenied || r is MethodRequired
        || r is InvalidPasskey || r is IdleOrAbsoluteTimeout || r is IdTokenHintSubjectMismatch
        || r is RpInitiatedLogout || r is Revocation
}

/// No two such reasons are recorded in the same words.
pub proof fn plain_reasons_are_told_apart(a: AuditReason, b: AuditReason)
    requires
        is_plain(a),
        is_plain(b),
    ensures
        a.text_of() == b.text_of() ==> a == b,
{
    reveal_strlit("csrf_mismatch");
    reveal_strlit("ip_rate_limited");
    reveal_strlit("unknown_user");
    reveal_strlit("account_locked");
    reveal_strlit("account_not_active");
    reveal_strlit("invalid_password");
    reveal_strlit("too_many_failures");
    reveal_strlit("email_not_verified");
    reveal_strlit("invalid_totp");
    reveal_strlit("policy_denied");
    reveal_strlit("method_required");
    reveal_strlit("invalid_passkey");
    reveal_strlit("idle or absolute timeout");
    reveal_strlit("id_token_hint_subject_mismatch");
    reveal_strlit("rp_initiated_logout");
    reveal_strlit("revocation");
    assert("csrf_mismatch"@.len() == 13);
    assert("ip_rate_limited"@.len() == 15);
    assert("unknown_user"@.len() == 12);
    assert("account_locked"@.len() == 14);
    assert("account_not_active"@.len() == 18);
    assert("invalid_password"@.len() == 16);
    assert("too_many_failures"@.len() == 17);
    assert("email_not_verified"@.len() == 18);
    assert("invalid_totp"@.len() == 12);
    assert("policy_denied"@.len() == 13);
    assert("method_required"@.len() == 15);
    assert("invalid_passkey"@.len() == 15);
    assert("idle or absolute timeout"@.len() == 24);
    assert("id_token_hint_subject_mismatch"@.len() == 30);
    assert("rp_initiated_logout"@.len() == 19);
    assert("revocation"@.len() == 10);
    assert("csrf_mismatch"@[0] != "policy_denied"@[0]);
    assert("unknown_user"@[0] != "invalid_totp"@[0]);
    assert("account_not_active"@[0] != "email_not_verified"@[0]);
    assert("ip_rate_limited"@[1] != "invalid_passkey"@[1]);
    assert("method_required"@[0] != "invalid_passkey"@[0]);
    assert("method_required"@[0] != "ip_rate_limited"@[0]);
}

/// The entry of an administrator's change names who has acted: the user where a user has, the client
/// where a client has, and never both; it stands in the tenant and tells of a success in the words given.
pub proof fn an_administrators_entry_names_them(
    a: AuditRecord,
    event: AuditEventType,
    tenant_id: TenantId,
    actor: AdminActor,
    words: Seq<char>,
)
    requires
        admin_entry(a, event, tenant_id, actor, words),
    ensures
        a.event == event,
        a.result == AuditResult::Success,
        a.tenant_id == Some(tenant_id),
        actor matches AdminActor::User(id) ==> a.user_id == Some(id) && a.client_id is None,
        actor matches AdminActor::Client { client_id, .. } ==> a.user_id is None && a.client_id == Some(
            client_id,
        ),
        a.reason matches Some(reason) && reason.text_of() == words,
{
}

/// An entry on a policy begins with the policy's code, and one on an operation with its name; a refusal
/// ends with its fault, and a requirement with what is required.
pub proof fn an_entry_names_what_it_is_about(
    code: String,
    required: String,
    operation: String,
    fault: StepUpFault,
    kind: AuthenticatorType,
)
    ensures
        ("policy="@ + code@).is_prefix_of(AuditReason::Policy { code }.text_of()),
        ("policy="@ + code@).is_prefix_of(AuditReason::PolicyMfaNotEnrolled { code }.text_of()),
        ("policy="@ + code@).is_prefix_of(AuditReason::PolicyMethod { code, required }.text_of()),
        required@.is_suffix_of(AuditReason::PolicyMethod { code, required }.text_of()),
        ("operation="@ + operation@).is_prefix_of(AuditReason::Operation { operation }.text_of()),
        ("operation="@ + operation@).is_prefix_of(
            AuditReason::OperationByPasskey { operation }.text_of(),
        ),
        ("operation="@ + operation@).is_prefix_of(
            AuditReason::OperationRefused { operation, fault }.text_of(),
        ),
        fault.code_of().is_suffix_of(AuditReason::OperationRefused { operation, fault }.text_of()),
        kind.code_of().is_suffix_of(AuditReason::Authenticator(kind).text_of()),
{
    let policy = "policy="@ + code@;
    let named = "operation="@ + operation@;
    let plain = AuditReason::Policy { code }.text_of();
    let missing = AuditReason::PolicyMfaNotEnrolled { code }.text_of();
    let method = AuditReason::PolicyMethod { code, required }.text_of();
    let done = AuditReason::Operation { operation }.text_of();
    let by_passkey = AuditReason::OperationByPasskey { operation }.text_of();
    let refused = AuditReason::OperationRefused { operation, fault }.text_of();
    let used = AuditReason::Authenticator(kind).text_of();
    assert(plain.subrange(0, policy.len() as int) =~= policy);
    assert(missing.subrange(0, policy.len() as int) =~= policy);
    assert(method.subrange(0, policy.len() as int) =~= policy);
    assert(method.subrange(method.len() - required@.len(), method.len() as int) =~= required@);
    assert(done.subrange(0, named.len() as int) =~= named);
    assert(by_passkey.subrange(0, named.len() as int) =~= named);
    assert(refused.subrange(0, named.len() as int) =~= named);
    assert(refused.subrange(refused.len() - fault.code_of().len(), refused.len() as int)
        =~= fault.code_of());
    assert(used.subrange(used.len() - kind.code_of().len(), used.len() as int) =~= kind.code_of());
}

} // verus!
