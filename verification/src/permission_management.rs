//! What users are allowed to do in a tenant.
use crate::audit::{AuditEventType, AuditReason, AuditRecord, AuditResult};
use crate::crypto::{uuid_text, uuid_text_of};
use crate::model::{DomainError, Stored, TenantContext, TenantId, User, Uuid};
use crate::text::{find_char, first_at, join2, lemma_suffix, same, trim, trimmed};
use crate::time::Timestamp;
use vstd::prelude::*;

verus! {

/// The permission that only its holders hand on.
pub const SYSTEM_ADMIN: &'static str = "idp.system.admin";

pub enum PermissionManagementError {
    Validation(String),
    NotFound,
    Forbidden(String),
    Internal(String),
}

impl PermissionManagementError {
    pub open spec fn text_of(self) -> Seq<char> {
        match self {
            PermissionManagementError::Validation(m) => "validation error: "@ + m@,
            PermissionManagementError::NotFound => "not found"@,
            PermissionManagementError::Forbidden(m) => "forbidden: "@ + m@,
            PermissionManagementError::Internal(m) => "internal error: "@ + m@,
        }
    }

    /// The error in words.
    pub fn text(&self) -> (r: String)
        ensures
            r@ == self.text_of(),
    {
        match self {
            PermissionManagementError::Validation(m) => join2("validation error: ", m.as_str()),
            PermissionManagementError::NotFound => "not found".to_owned(),
            PermissionManagementError::Forbidden(m) => join2("forbidden: ", m.as_str()),
            PermissionManagementError::Internal(m) => join2("internal error: ", m.as_str()),
        }
    }
}

/// Whether a permission is given or taken.
#[derive(Clone, Copy, Debug, PartialEq, Eq, Structural)]
pub enum PermissionChange {
    Grant,
    Revoke,
}

/// What is known so far.
#[derive(Default)]
pub struct PermissionProgress {
    /// The code, where it can be one.
    pub code: Option<Result<String, String>>,
    pub user: Stored<Option<User>>,
    pub member: Stored<bool>,
    /// Whether the acting user is a system administrator.
    pub actor_is_admin: Stored<bool>,
    pub changed: Stored<()>,
    pub audits: usize,
    /// The user and the membership as they are after the change.
    pub user_after: Stored<Option<User>>,
    pub member_after: Stored<bool>,
}

/// What comes next: a call to make, or the result.
pub enum PermissionStep {
    ParseCode { code: String },
    FindUser { user_id: Uuid },
    FindMembership { tenant_id: TenantId, user_id: Uuid },
    CheckSystemAdmin { tenant_id: TenantId, user_id: Uuid },
    Grant { tenant_id: TenantId, user_id: Uuid, code: String, now: Timestamp },
    Revoke { tenant_id: TenantId, user_id: Uuid, code: String },
    Audit(AuditRecord),
    FindUserAgain { user_id: Uuid },
    FindMembershipAgain { tenant_id: TenantId, user_id: Uuid },
    ListCodes { tenant_id: TenantId, user_id: Uuid },
    Done(Result<Vec<String>, PermissionManagementError>),
}

/// What comes next in listing the codes that can be given.
pub enum CodesStep {
    ListAvailable,
    Done(Result<Vec<String>, PermissionManagementError>),
}

/// What comes next in getting at a user.
pub enum GetUserStep {
    FindUser { user_id: Uuid },
    Done(Result<User, PermissionManagementError>),
}

/// What comes next in looking a user up.
pub enum FindUserStep {
    FindByEmail { tenant_id: TenantId, email: String },
    FindByUsername { tenant_id: TenantId, username: String },
    Done(Result<Option<User>, PermissionManagementError>),
}

/// What comes next in making sure of a user's membership.
pub enum MemberCheck {
    FindUser,
    FindMembership,
    Failed(PermissionManagementError),
    Member,
}

pub struct PermissionManagementService {}

pub open spec fn is_internal(e: PermissionManagementError, cause: DomainError) -> bool {
    e matches PermissionManagementError::Internal(m) && m@ == cause.message_of()
}

fn internal(e: &DomainError) -> (r: PermissionManagementError)
    ensures
        is_internal(r, *e),
{
    PermissionManagementError::Internal(e.message())
}

/// A value that the store does not know is the caller's mistake; every other failure is internal.
pub open spec fn is_mapped(e: PermissionManagementError, cause: DomainError) -> bool {
    match cause {
        DomainError::InvalidValue(m) => e == PermissionManagementError::Validation(m),
        _ => is_internal(e, cause),
    }
}

/// Turns a failure of the store into an error.
pub fn map_repo_error(e: &DomainError) -> (r: PermissionManagementError)
    ensures
        is_mapped(r, *e),
{
    match e {
        DomainError::InvalidValue(m) => PermissionManagementError::Validation(m.clone()),
        _ => internal(e),
    }
}

/// The wording of the audit entry: the code and the user's identifier.
pub open spec fn reason_words(code: Seq<char>, target: Uuid) -> Seq<char> {
    "permission="@ + code + " target="@ + uuid_text_of(target.value)
}

/// Words the audit entry.
pub fn audit_reason(code: &str, target: Uuid) -> (r: String)
    ensures
        r@ == reason_words(code@, target),
{
    let mut out: String = join2("permission=", code);
    out.append(" target=");
    let id: String = uuid_text(target.value);
    out.append(id.as_str());
    out
}

/// A user must be there and be an active member of the tenant.
pub open spec fn member_rule(
    user: Stored<Option<User>>,
    member: Stored<bool>,
    r: MemberCheck,
) -> bool {
    match user {
        None => r == MemberCheck::FindUser,
        Some(Err(e)) => r matches MemberCheck::Failed(x) && is_internal(x, e),
        Some(Ok(None)) => r == MemberCheck::Failed(PermissionManagementError::NotFound),
        Some(Ok(Some(_))) => match member {
            None => r == MemberCheck::FindMembership,
            Some(Err(e)) => r matches MemberCheck::Failed(x) && is_internal(x, e),
            Some(Ok(false)) => r == MemberCheck::Failed(PermissionManagementError::NotFound),
            Some(Ok(true)) => r == MemberCheck::Member,
        },
    }
}

/// The permissions that a member of the tenant holds in it.
pub open spec fn list_rule(
    tenant_id: TenantId,
    target: Uuid,
    user: Stored<Option<User>>,
    member: Stored<bool>,
    again: bool,
    codes: Stored<Vec<String>>,
    r: PermissionStep,
) -> bool {
    exists|c: MemberCheck| #[trigger]
        member_rule(user, member, c) && match c {
            MemberCheck::FindUser => r == if again {
                PermissionStep::FindUserAgain { user_id: target }
            } else {
                PermissionStep::FindUser { user_id: target }
            },
            MemberCheck::FindMembership => r == if again {
                PermissionStep::FindMembershipAgain { tenant_id, user_id: target }
            } else {
                PermissionStep::FindMembership { tenant_id, user_id: target }
            },
            MemberCheck::Failed(e) => r == PermissionStep::Done(Err(e)),
            MemberCheck::Member => match codes {
                None => r == (PermissionStep::ListCodes { tenant_id, user_id: target }),
                Some(Err(e)) => r matches PermissionStep::Done(Err(x)) && is_internal(x, e),
                Some(Ok(v)) => r == PermissionStep::Done(Ok(v)),
            },
        }
}

/// The change is made, audited, and answered with what the user holds then.
pub open spec fn apply_rule(
    tenant_id: TenantId,
    target: Uuid,
    code: String,
    change: PermissionChange,
    actor: Uuid,
    now: Timestamp,
    p: PermissionProgress,
    codes: Stored<Vec<String>>,
    r: PermissionStep,
) -> bool {
    match p.changed {
        None => r == match change {
            PermissionChange::Grant => PermissionStep::Grant {
                tenant_id,
                user_id: target,
                code,
                now,
            },
            PermissionChange::Revoke => PermissionStep::Revoke { tenant_id, user_id: target, code },
        },
        Some(Err(e)) => r matches PermissionStep::Done(Err(x)) && is_mapped(x, e),
        Some(Ok(_)) => if p.audits == 0 {
            r matches PermissionStep::Audit(a) && a.event == match change {
                PermissionChange::Grant => AuditEventType::UserPermissionGranted,
                PermissionChange::Revoke => AuditEventType::UserPermissionRevoked,
            } && a.result == AuditResult::Success && a.tenant_id == Some(tenant_id) && a.user_id
                == Some(actor) && a.client_id is None && (a.reason matches Some(
                AuditReason::Words(w),
            ) && w@ == reason_words(code@, target))
        } else {
            list_rule(tenant_id, target, p.user_after, p.member_after, true, codes, r)
        },
    }
}

/// What comes next in a change: the code must be one, its user a member, and the permission of
/// system administrators is changed by none but them.
pub open spec fn change_rule(
    tenant_id: TenantId,
    target: Uuid,
    code: Seq<char>,
    change: PermissionChange,
    actor: Uuid,
    now: Timestamp,
    p: PermissionProgress,
    codes: Stored<Vec<String>>,
    r: PermissionStep,
) -> bool {
    match p.code {
        None => r matches PermissionStep::ParseCode { code: c } && c@ == code,
        Some(Err(e)) => r == PermissionStep::Done(Err(PermissionManagementError::Validation(e))),
        Some(Ok(parsed)) => exists|c: MemberCheck| #[trigger]
            member_rule(p.user, p.member, c) && match c {
                MemberCheck::FindUser => r == (PermissionStep::FindUser { user_id: target }),
                MemberCheck::FindMembership => r == (PermissionStep::FindMembership {
                    tenant_id,
                    user_id: target,
                }),
                MemberCheck::Failed(e) => r == PermissionStep::Done(Err(e)),
                MemberCheck::Member => if parsed@ != SYSTEM_ADMIN@ {
                    apply_rule(tenant_id, target, parsed, change, actor, now, p, codes, r)
                } else {
                    match p.actor_is_admin {
                        None => r == (PermissionStep::CheckSystemAdmin {
                            tenant_id,
                            user_id: actor,
                        }),
                        Some(Err(e)) => r matches PermissionStep::Done(Err(x)) && is_internal(x, e),
                        Some(Ok(false)) => r matches PermissionStep::Done(
                            Err(PermissionManagementError::Forbidden(m)),
                        ) && m@
                            == "only idp.system.admin holders may grant or revoke idp.system.admin"@,
                        Some(Ok(true)) => apply_rule(
                            tenant_id,
                            target,
                            parsed,
                            change,
                            actor,
                            now,
                            p,
                            codes,
                            r,
                        ),
                    }
                },
            },
    }
}

/// What comes next in giving a permission.
pub open spec fn grant_rule(
    tenant_id: TenantId,
    target: Uuid,
    code: Seq<char>,
    actor: Uuid,
    now: Timestamp,
    p: PermissionProgress,
    codes: Stored<Vec<String>>,
    r: PermissionStep,
) -> bool {
    change_rule(tenant_id, target, code, PermissionChange::Grant, actor, now, p, codes, r)
}

/// What comes next in taking a permission.
pub open spec fn revoke_rule(
    tenant_id: TenantId,
    target: Uuid,
    code: Seq<char>,
    actor: Uuid,
    now: Timestamp,
    p: PermissionProgress,
    codes: Stored<Vec<String>>,
    r: PermissionStep,
) -> bool {
    change_rule(tenant_id, target, code, PermissionChange::Revoke, actor, now, p, codes, r)
}

/// What comes next in listing the codes that can be given.
pub open spec fn codes_rule(listed: Stored<Vec<String>>, r: CodesStep) -> bool {
    match listed {
        None => r == CodesStep::ListAvailable,
        Some(Ok(v)) => r == CodesStep::Done(Ok(v)),
        Some(Err(e)) => r matches CodesStep::Done(Err(x)) && is_internal(x, e),
    }
}

/// What comes next in getting at a user of a tenant.
pub open spec fn get_user_rule(
    tenant_id: TenantId,
    target: Uuid,
    found: Stored<Option<User>>,
    r: GetUserStep,
) -> bool {
    match found {
        None => r == (GetUserStep::FindUser { user_id: target }),
        Some(Err(e)) => r matches GetUserStep::Done(Err(x)) && is_internal(x, e),
        Some(Ok(u)) => if u matches Some(u) && u.tenant_id == tenant_id {
            r == GetUserStep::Done(Ok(u->0))
        } else {
            r == GetUserStep::Done(Err(PermissionManagementError::NotFound))
        },
    }
}

/// What comes next in looking a user of a tenant up.
pub open spec fn find_user_rule(
    tenant: TenantId,
    identifier: Seq<char>,
    found: Stored<Option<User>>,
    r: FindUserStep,
) -> bool {
    if trimmed(identifier).len() == 0 {
        r == FindUserStep::Done(Ok(None))
    } else {
        match found {
            None => if first_at(trimmed(identifier), '@', 0) is Some {
                r matches FindUserStep::FindByEmail { tenant_id, email } && tenant_id == tenant
                    && email@ == trimmed(identifier)
            } else {
                r matches FindUserStep::FindByUsername { tenant_id, username } && tenant_id
                    == tenant && username@ == trimmed(identifier)
            },
            Some(Err(e)) => r matches FindUserStep::Done(Err(x)) && is_internal(x, e),
            Some(Ok(u)) => r == FindUserStep::Done(Ok(u)),
        }
    }
}

impl PermissionManagementService {
    pub fn new() -> (r: Self)
        ensures
            r == (PermissionManagementService {  }),
    {
        PermissionManagementService {  }
    }

    /// Decides what comes next in listing the codes that can be given.
    pub fn available_codes(&self, listed: Stored<Vec<String>>) -> (r: CodesStep)
        ensures
            codes_rule(listed, r),
    {
        match listed {
            None => CodesStep::ListAvailable,
            Some(Ok(v)) => CodesStep::Done(Ok(v)),
            Some(Err(e)) => CodesStep::Done(Err(internal(&e))),
        }
    }

    /// Decides what comes next in getting at a user, who must belong to the tenant at hand.
    pub fn get_user(&self, tenant: &TenantContext, target: Uuid, found: Stored<Option<User>>) -> (r:
        GetUserStep)
        ensures
            get_user_rule(tenant.tenant_id, target, found, r),
    {
        match found {
            None => GetUserStep::FindUser { user_id: target },
            Some(Err(e)) => GetUserStep::Done(Err(internal(&e))),
            Some(Ok(Some(u))) => if u.tenant_id == tenant.tenant_id {
                GetUserStep::Done(Ok(u))
            } else {
                GetUserStep::Done(Err(PermissionManagementError::NotFound))
            },
            Some(Ok(None)) => GetUserStep::Done(Err(PermissionManagementError::NotFound)),
        }
    }

    /// Decides what comes next in looking a user up: a text with an `@` is an address, any other a
    /// name, and nothing means nobody.
    pub fn find_user_by_identifier(
        &self,
        tenant: &TenantContext,
        identifier: &str,
        found: Stored<Option<User>>,
    ) -> (r: FindUserStep)
        ensures
            find_user_rule(tenant.tenant_id, identifier@, found, r),
    {
        let text: String = trim(identifier);
        if text.as_str().is_empty() {
            return FindUserStep::Done(Ok(None));
        }
        match found {
            None => if find_char(text.as_str(), '@', 0).is_some() {
                FindUserStep::FindByEmail { tenant_id: tenant.tenant_id, email: text }
            } else {
                FindUserStep::FindByUsername { tenant_id: tenant.tenant_id, username: text }
            },
            Some(Err(e)) => FindUserStep::Done(Err(internal(&e))),
            Some(Ok(u)) => FindUserStep::Done(Ok(u)),
        }
    }

    /// Decides what comes next in making sure of a user's membership.
    pub fn ensure_user_in_tenant(&self, user: &Stored<Option<User>>, member: &Stored<bool>) -> (r:
        MemberCheck)
        ensures
            member_rule(*user, *member, r),
    {
        match user {
            None => return MemberCheck::FindUser,
            Some(Err(e)) => return MemberCheck::Failed(internal(e)),
            Some(Ok(None)) => return MemberCheck::Failed(PermissionManagementError::NotFound),
            Some(Ok(Some(_))) => {},
        }
        match member {
            None => MemberCheck::FindMembership,
            Some(Err(e)) => MemberCheck::Failed(internal(e)),
            Some(Ok(active)) => if *active {
                MemberCheck::Member
            } else {
                MemberCheck::Failed(PermissionManagementError::NotFound)
            },
        }
    }

    fn list_codes(
        &self,
        tenant_id: TenantId,
        target: Uuid,
        user: &Stored<Option<User>>,
        member: &Stored<bool>,
        again: bool,
        codes: Stored<Vec<String>>,
    ) -> (r: PermissionStep)
        ensures
            list_rule(tenant_id, target, *user, *member, again, codes, r),
    {
        let c: MemberCheck = self.ensure_user_in_tenant(user, member);
        proof {
            assert(member_rule(*user, *member, c));
        }
        match c {
            MemberCheck::FindUser => if again {
                PermissionStep::FindUserAgain { user_id: target }
            } else {
                PermissionStep::FindUser { user_id: target }
            },
            MemberCheck::FindMembership => if again {
                PermissionStep::FindMembershipAgain { tenant_id, user_id: target }
            } else {
                PermissionStep::FindMembership { tenant_id, user_id: target }
            },
            MemberCheck::Failed(e) => PermissionStep::Done(Err(e)),
            MemberCheck::Member => match codes {
                None => PermissionStep::ListCodes { tenant_id, user_id: target },
                Some(Err(e)) => PermissionStep::Done(Err(internal(&e))),
                Some(Ok(v)) => PermissionStep::Done(Ok(v)),
            },
        }
    }

    /// Decides what comes next in listing what a member holds.
    pub fn list(
        &self,
        tenant: &TenantContext,
        target: Uuid,
        p: &PermissionProgress,
        codes: Stored<Vec<String>>,
    ) -> (r: PermissionStep)
        ensures
            list_rule(tenant.tenant_id, target, p.user, p.member, false, codes, r),
    {
        self.list_codes(tenant.tenant_id, target, &p.user, &p.member, false, codes)
    }

    fn apply(
        &self,
        tenant_id: TenantId,
        target: Uuid,
        code: &String,
        change: PermissionChange,
        actor: Uuid,
        now: Timestamp,
        p: &PermissionProgress,
        codes: Stored<Vec<String>>,
    ) -> (r: PermissionStep)
        ensures
            apply_rule(tenant_id, target, *code, change, actor, now, *p, codes, r),
    {
        match &p.changed {
            None => return match change {
                PermissionChange::Grant => PermissionStep::Grant {
                    tenant_id,
                    user_id: target,
                    code: code.clone(),
                    now,
                },
                PermissionChange::Revoke => PermissionStep::Revoke {
                    tenant_id,
                    user_id: target,
                    code: code.clone(),
                },
            },
            Some(Err(e)) => return PermissionStep::Done(Err(map_repo_error(e))),
            Some(Ok(_)) => {},
        }
        if p.audits == 0 {
            let event: AuditEventType = match change {
                PermissionChange::Grant => AuditEventType::UserPermissionGranted,
                PermissionChange::Revoke => AuditEventType::UserPermissionRevoked,
            };
            return PermissionStep::Audit(
                AuditRecord {
                    event,
                    result: AuditResult::Success,
                    tenant_id: Some(tenant_id),
                    user_id: Some(actor),
                    client_id: None,
                    reason: Some(AuditReason::Words(audit_reason(code.as_str(), target))),
                },
            );
        }
        self.list_codes(tenant_id, target, &p.user_after, &p.member_after, true, codes)
    }

    fn change(
        &self,
        tenant_id: TenantId,
        target: Uuid,
        code: &str,
        change: PermissionChange,
        actor: Uuid,
        now: Timestamp,
        p: &PermissionProgress,
        codes: Stored<Vec<String>>,
    ) -> (r: PermissionStep)
        ensures
            change_rule(tenant_id, target, code@, change, actor, now, *p, codes, r),
    {
        let parsed: &String = match &p.code {
            None => return PermissionStep::ParseCode { code: code.to_owned() },
            Some(Err(e)) => return PermissionStep::Done(
                Err(PermissionManagementError::Validation(e.clone())),
            ),
            Some(Ok(parsed)) => parsed,
        };
        let c: MemberCheck = self.ensure_user_in_tenant(&p.user, &p.member);
        proof {
            assert(member_rule(p.user, p.member, c));
        }
        match c {
            MemberCheck::FindUser => return PermissionStep::FindUser { user_id: target },
            MemberCheck::FindMembership => {
                return PermissionStep::FindMembership { tenant_id, user_id: target };
            },
            MemberCheck::Failed(e) => return PermissionStep::Done(Err(e)),
            MemberCheck::Member => {},
        }
        if same(parsed.as_str(), SYSTEM_ADMIN) {
            match &p.actor_is_admin {
                None => return PermissionStep::CheckSystemAdmin { tenant_id, user_id: actor },
                Some(Err(e)) => return PermissionStep::Done(Err(internal(e))),
                Some(Ok(is_admin)) => if !*is_admin {
                    return PermissionStep::Done(
                        Err(
                            PermissionManagementError::Forbidden(
                                "only idp.system.admin holders may grant or revoke idp.system.admin".to_owned(),
                            ),
                        ),
                    );
                },
            }
        }
        self.apply(tenant_id, target, parsed, change, actor, now, p, codes)
    }

    /// Decides what comes next in giving a permission.
    pub fn grant(
        &self,
        tenant: &TenantContext,
        target: Uuid,
        code: &str,
        actor: Uuid,
        now: Timestamp,
        p: &PermissionProgress,
        codes: Stored<Vec<String>>,
    ) -> (r: PermissionStep)
        ensures
            grant_rule(tenant.tenant_id, target, code@, actor, now, *p, codes, r),
    {
        self.change(tenant.tenant_id, target, code, PermissionChange::Grant, actor, now, p, codes)
    }

    /// Decides what comes next in taking a permission.
    pub fn revoke(
        &self,
        tenant: &TenantContext,
        target: Uuid,
        code: &str,
        actor: Uuid,
        now: Timestamp,
        p: &PermissionProgress,
        codes: Stored<Vec<String>>,
    ) -> (r: PermissionStep)
        ensures
            revoke_rule(tenant.tenant_id, target, code@, actor, now, *p, codes, r),
    {
        self.change(tenant.tenant_id, target, code, PermissionChange::Revoke, actor, now, p, codes)
    }
}

/// A permission is given or taken only for an active member, and that of system administrators only
/// by one of them.
pub proof fn system_administration_is_handed_on_by_its_holders(
    tenant_id: TenantId,
    target: Uuid,
    code: Seq<char>,
    change: PermissionChange,
    actor: Uuid,
    now: Timestamp,
    p: PermissionProgress,
    codes: Stored<Vec<String>>,
    r: PermissionStep,
)
    requires
        change_rule(tenant_id, target, code, change, actor, now, p, codes, r),
        r is Grant || r is Revoke,
    ensures
        p.user matches Some(Ok(Some(_))),
        p.member matches Some(Ok(true)),
        p.code matches Some(Ok(parsed)) && (parsed@ == SYSTEM_ADMIN@ ==> (
        p.actor_is_admin matches Some(Ok(true)))),
{
}

impl PermissionProgress {
    /// The call `step` asks for something that is not known yet.
    pub open spec fn lacks_answer_to(self, step: PermissionStep) -> bool {
        match step {
            PermissionStep::ParseCode { .. } => self.code is None,
            PermissionStep::FindUser { .. } => self.user is None,
            PermissionStep::FindMembership { .. } => self.member is None,
            PermissionStep::CheckSystemAdmin { .. } => self.actor_is_admin is None,
            PermissionStep::Grant { .. } => self.changed is None,
            PermissionStep::Revoke { .. } => self.changed is None,
            PermissionStep::Audit(_) => self.audits < 1,
            PermissionStep::FindUserAgain { .. } => self.user_after is None,
            PermissionStep::FindMembershipAgain { .. } => self.member_after is None,
            PermissionStep::ListCodes { .. } => true,
            PermissionStep::Done(_) => true,
        }
    }
}

/// Nothing is asked for that is known already: every call that comes next fills a gap.
pub proof fn nothing_is_asked_twice(
    tenant_id: TenantId,
    target: Uuid,
    code: Seq<char>,
    change: PermissionChange,
    actor: Uuid,
    now: Timestamp,
    p: PermissionProgress,
    codes: Stored<Vec<String>>,
    r: PermissionStep,
)
    requires
        change_rule(tenant_id, target, code, change, actor, now, p, codes, r),
    ensures
        p.lacks_answer_to(r),
        r is ListCodes ==> codes is None,
{
}

/// A permission is given to, or taken from, the member who was named, in the tenant, under the code
/// that the given text was read as; giving only gives, taking only takes; the entry names who has
/// acted; and the answer is what that member holds then.
pub proof fn a_permission_goes_to_the_member_named(
    tenant_id: TenantId,
    target: Uuid,
    code: Seq<char>,
    actor: Uuid,
    now: Timestamp,
    p: PermissionProgress,
    codes: Stored<Vec<String>>,
    grant: bool,
    r: PermissionStep,
)
    requires
        grant ==> grant_rule(tenant_id, target, code, actor, now, p, codes, r),
        !grant ==> revoke_rule(tenant_id, target, code, actor, now, p, codes, r),
    ensures
        match r {
            PermissionStep::ParseCode { code: c } => c@ == code,
            PermissionStep::FindUser { user_id } => user_id == target,
            PermissionStep::FindMembership { tenant_id: t, user_id } => t == tenant_id && user_id
                == target,
            PermissionStep::CheckSystemAdmin { tenant_id: t, user_id } => t == tenant_id && user_id
                == actor && (p.code matches Some(Ok(c)) && c@ == "idp.system.admin"@),
            PermissionStep::Grant { tenant_id: t, user_id, code: c, now: at } => grant && t
                == tenant_id && user_id == target && p.code == Some(Ok::<String, String>(c)) && at
                == now && p.member == Some(Ok::<bool, DomainError>(true)) && (c@
                == "idp.system.admin"@ ==> p.actor_is_admin == Some(Ok::<bool, DomainError>(true))),
            PermissionStep::Revoke { tenant_id: t, user_id, code: c } => !grant && t == tenant_id
                && user_id == target && p.code == Some(Ok::<String, String>(c)) && p.member == Some(
                Ok::<bool, DomainError>(true),
            ) && (c@ == "idp.system.admin"@ ==> p.actor_is_admin == Some(
                Ok::<bool, DomainError>(true),
            )),
            PermissionStep::Audit(a) => (grant <==> a.event == AuditEventType::UserPermissionGranted)
                && (!grant <==> a.event == AuditEventType::UserPermissionRevoked) && a.result
                == AuditResult::Success && a.tenant_id == Some(tenant_id) && a.user_id == Some(actor)
                && a.client_id is None && (p.changed matches Some(Ok(_))) && (p.code matches Some(
                Ok(c),
            ) && (a.reason matches Some(AuditReason::Words(w)) && w@ == "permission="@ + c@
                + " target="@ + uuid_text_of(target.value))),
            PermissionStep::FindUserAgain { user_id } => user_id == target && p.audits > 0,
            PermissionStep::FindMembershipAgain { tenant_id: t, user_id } => t == tenant_id && user_id
                == target && p.audits > 0,
            PermissionStep::ListCodes { tenant_id: t, user_id } => t == tenant_id && user_id == target
                && p.audits > 0,
            PermissionStep::Done(Ok(v)) => codes == Some(Ok::<Vec<String>, DomainError>(v)) && (
            p.changed matches Some(Ok(_))) && p.audits > 0,
            PermissionStep::Done(Err(PermissionManagementError::Forbidden(_))) => p.actor_is_admin
                == Some(Ok::<bool, DomainError>(false)) && (p.code matches Some(Ok(c)) && c@
                == "idp.system.admin"@),
            PermissionStep::Done(Err(PermissionManagementError::NotFound)) => p.user == Some(
                Ok::<Option<User>, DomainError>(None),
            ) || p.member == Some(Ok::<bool, DomainError>(false)) || p.user_after == Some(
                Ok::<Option<User>, DomainError>(None),
            ) || p.member_after == Some(Ok::<bool, DomainError>(false)),
            PermissionStep::Done(Err(PermissionManagementError::Validation(m))) => p.code == Some(
                Err::<String, String>(m),
            ) || p.changed == Some(Err::<(), DomainError>(DomainError::InvalidValue(m))),
            PermissionStep::Done(Err(PermissionManagementError::Internal(_))) => (
            p.user matches Some(Err(_))) || (p.member matches Some(Err(_))) || (
            p.actor_is_admin matches Some(Err(_))) || (p.changed matches Some(Err(_))) || (
            p.user_after matches Some(Err(_))) || (p.member_after matches Some(Err(_))) || (
            codes matches Some(Err(_))),
        },
{
}

/// What is listed is what the store has of the member who was named, in the tenant.
pub proof fn a_list_is_of_the_member_named(
    tenant_id: TenantId,
    target: Uuid,
    user: Stored<Option<User>>,
    member: Stored<bool>,
    codes: Stored<Vec<String>>,
    r: PermissionStep,
)
    requires
        list_rule(tenant_id, target, user, member, false, codes, r),
    ensures
        match r {
            PermissionStep::FindUser { user_id } => user_id == target,
            PermissionStep::FindMembership { tenant_id: t, user_id } => t == tenant_id && user_id
                == target,
            PermissionStep::ListCodes { tenant_id: t, user_id } => t == tenant_id && user_id == target
                && member == Some(Ok::<bool, DomainError>(true)),
            PermissionStep::Done(Ok(v)) => codes == Some(Ok::<Vec<String>, DomainError>(v)) && member
                == Some(Ok::<bool, DomainError>(true)),
            PermissionStep::Done(Err(PermissionManagementError::NotFound)) => user == Some(
                Ok::<Option<User>, DomainError>(None),
            ) || member == Some(Ok::<bool, DomainError>(false)),
            PermissionStep::Done(Err(PermissionManagementError::Internal(_))) => (
            user matches Some(Err(_))) || (member matches Some(Err(_))) || (codes matches Some(
                Err(_),
            )),
            _ => false,
        },
{
}

/// Users are found in the tenant at hand only: one is looked up by the identifier that was given, and
/// shown only where the tenant is theirs; by text, an address is told from a name by its `@`.
pub proof fn users_are_found_in_their_tenant(
    tenant: TenantId,
    target: Uuid,
    identifier: Seq<char>,
    found: Stored<Option<User>>,
    got: GetUserStep,
    looked_up: FindUserStep,
    listed: Stored<Vec<String>>,
    available: CodesStep,
)
    requires
        get_user_rule(tenant, target, found, got),
        find_user_rule(tenant, identifier, found, looked_up),
        codes_rule(listed, available),
    ensures
        got matches GetUserStep::FindUser { user_id } ==> user_id == target,
        got matches GetUserStep::Done(Ok(user)) ==> user.tenant_id == tenant && found == Some(
            Ok::<Option<User>, DomainError>(Some(user)),
        ),
        got matches GetUserStep::Done(Err(PermissionManagementError::NotFound)) ==> (
        found matches Some(Ok(u)) && (u matches Some(user) ==> user.tenant_id != tenant)),
        looked_up matches FindUserStep::FindByEmail { tenant_id, email } ==> tenant_id == tenant
            && email@ == trimmed(identifier) && email@.contains('@'),
        looked_up matches FindUserStep::FindByUsername { tenant_id, username } ==> tenant_id == tenant
            && username@ == trimmed(identifier) && !username@.contains('@') && username@.len() > 0,
        looked_up matches FindUserStep::Done(Ok(u)) ==> trimmed(identifier).len() == 0 && u is None
            || found == Some(Ok::<Option<User>, DomainError>(u)),
        available matches CodesStep::Done(Ok(v)) ==> listed == Some(
            Ok::<Vec<String>, DomainError>(v),
        ),
        (available matches CodesStep::Done(Err(_))) ==> (listed matches Some(Err(_))),
{
    let t = trimmed(identifier);
    crate::text::first_at_is_first(t, '@', 0);
    if let Some(i) = first_at(t, '@', 0) {
        assert(t[i] == '@');
        assert(t.contains('@'));
    }
}

/// Giving gives and taking takes: whatever is given or taken, the other never comes of it.
pub proof fn giving_gives_and_taking_takes(
    svc: PermissionManagementService,
    tenant: TenantContext,
    target: Uuid,
    code: &str,
    actor: Uuid,
    now: Timestamp,
    p: PermissionProgress,
    codes: Stored<Vec<String>>,
    given: PermissionStep,
    taken: PermissionStep,
)
    requires
        call_ensures(
            PermissionManagementService::grant,
            (&svc, &tenant, target, code, actor, now, &p, codes),
            given,
        ),
        call_ensures(
            PermissionManagementService::revoke,
            (&svc, &tenant, target, code, actor, now, &p, codes),
            taken,
        ),
    ensures
        !(given is Revoke),
        !(taken is Grant),
        given matches PermissionStep::Grant { tenant_id, user_id, .. } ==> tenant_id
            == tenant.tenant_id && user_id == target,
        taken matches PermissionStep::Revoke { tenant_id, user_id, .. } ==> tenant_id
            == tenant.tenant_id && user_id == target,
        given is Grant <==> taken is Revoke,
{
}

/// The words of an error end with what it is about.
pub proof fn an_error_says_what_it_is_about(m: String)
    ensures
        m@.is_suffix_of(PermissionManagementError::Validation(m).text_of()),
        m@.is_suffix_of(PermissionManagementError::Forbidden(m).text_of()),
        m@.is_suffix_of(PermissionManagementError::Internal(m).text_of()),
{
    lemma_suffix("validation error: "@, m@);
    lemma_suffix("forbidden: "@, m@);
    lemma_suffix("internal error: "@, m@);
}

} // verus!
