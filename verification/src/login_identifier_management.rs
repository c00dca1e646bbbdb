//! The names under which a user signs in.
use crate::audit::{AuditEventType, AuditReason, AuditRecord, AuditResult};
use crate::login_user_resolution::LoginIdentifierMatch;
use crate::model::{DomainError, MessageKey, Stored, TenantContext, TenantId, User, Uuid};
use crate::text::{join2, lemma_suffix, trim, trimmed};
use crate::time::Timestamp;
use vstd::prelude::*;

verus! {

#[derive(Clone, Copy, Debug, PartialEq, Eq, Structural)]
pub enum LoginIdentifierType {
    Username,
    Email,
    PhoneNumber,
    EmployeeNumber,
}

impl LoginIdentifierType {
    pub open spec fn code_of(self) -> Seq<char> {
        match self {
            LoginIdentifierType::Username => "username"@,
            LoginIdentifierType::Email => "email"@,
            LoginIdentifierType::PhoneNumber => "phone_number"@,
            LoginIdentifierType::EmployeeNumber => "employee_number"@,
        }
    }

    /// The name under which the kind is recorded.
    pub fn as_str(&self) -> (r: &'static str)
        ensures
            r@ == self.code_of(),
    {
        match self {
            LoginIdentifierType::Username => "username",
            LoginIdentifierType::Email => "email",
            LoginIdentifierType::PhoneNumber => "phone_number",
            LoginIdentifierType::EmployeeNumber => "employee_number",
        }
    }
}

pub struct AddLoginIdentifierCommand {
    pub identifier_type: LoginIdentifierType,
    pub value: String,
    pub is_active: bool,
}

/// A name in the register.
pub struct UserLoginIdentifier {
    pub id: Uuid,
    pub tenant_id: TenantId,
    pub user_id: Uuid,
    pub identifier_type: LoginIdentifierType,
    pub display_value: String,
    pub normalized_value: String,
    pub is_active: bool,
    pub is_primary: bool,
    pub created_at: Timestamp,
    pub updated_at: Timestamp,
}

impl Clone for UserLoginIdentifier {
    fn clone(&self) -> (r: UserLoginIdentifier)
        ensures
            r == *self,
    {
        UserLoginIdentifier {
            id: self.id,
            tenant_id: self.tenant_id,
            user_id: self.user_id,
            identifier_type: self.identifier_type,
            display_value: self.display_value.clone(),
            normalized_value: self.normalized_value.clone(),
            is_active: self.is_active,
            is_primary: self.is_primary,
            created_at: self.created_at,
            updated_at: self.updated_at,
        }
    }
}

/// A name as it is listed.
pub struct LoginIdentifierEntry {
    pub id: Option<Uuid>,
    pub identifier_type: LoginIdentifierType,
    pub display_value: String,
    pub normalized_value: String,
    pub is_active: bool,
    pub is_primary: bool,
    pub created_at: Timestamp,
    pub updated_at: Timestamp,
}

/// The entry for a name.
pub open spec fn entry_of(v: UserLoginIdentifier) -> LoginIdentifierEntry {
    LoginIdentifierEntry {
        id: Some(v.id),
        identifier_type: v.identifier_type,
        display_value: v.display_value,
        normalized_value: v.normalized_value,
        is_active: v.is_active,
        is_primary: v.is_primary,
        created_at: v.created_at,
        updated_at: v.updated_at,
    }
}

impl vstd::std_specs::convert::FromSpecImpl<UserLoginIdentifier> for LoginIdentifierEntry {
    open spec fn obeys_from_spec() -> bool {
        true
    }

    open spec fn from_spec(v: UserLoginIdentifier) -> LoginIdentifierEntry {
        entry_of(v)
    }
}

impl From<UserLoginIdentifier> for LoginIdentifierEntry {
    fn from(v: UserLoginIdentifier) -> (r: LoginIdentifierEntry) {
        LoginIdentifierEntry {
            id: Some(v.id),
            identifier_type: v.identifier_type,
            display_value: v.display_value,
            normalized_value: v.normalized_value,
            is_active: v.is_active,
            is_primary: v.is_primary,
            created_at: v.created_at,
            updated_at: v.updated_at,
        }
    }
}

pub enum LoginIdentifierManagementError {
    NotFound,
    Validation(MessageKey),
    Conflict(MessageKey),
    Internal(String),
}

impl LoginIdentifierManagementError {
    pub open spec fn text_of(self) -> Seq<char> {
        match self {
            LoginIdentifierManagementError::NotFound => "not found"@,
            LoginIdentifierManagementError::Validation(k) => "validation error: "@ + k.key@,
            LoginIdentifierManagementError::Conflict(k) => "conflict: "@ + k.key@,
            LoginIdentifierManagementError::Internal(m) => "internal error: "@ + m@,
        }
    }

    /// The error in words.
    pub fn text(&self) -> (r: String)
        ensures
            r@ == self.text_of(),
    {
        match self {
            LoginIdentifierManagementError::NotFound => "not found".to_owned(),
            LoginIdentifierManagementError::Validation(k) => join2("validation error: ", k.key.as_str()),
            LoginIdentifierManagementError::Conflict(k) => join2("conflict: ", k.key.as_str()),
            LoginIdentifierManagementError::Internal(m) => join2("internal error: ", m.as_str()),
        }
    }
}

/// What is known so far.
#[derive(Default)]
pub struct IdentifierProgress {
    pub user: Stored<Option<User>>,
    /// The value as it is compared, where it can be one of its kind.
    pub normalized: Option<Result<String, MessageKey>>,
    /// Whom the value means as it is.
    pub meaning: Stored<LoginIdentifierMatch>,
    /// The user with this address.
    pub by_email: Stored<Option<User>>,
    pub created: Stored<()>,
    /// The name that is to change.
    pub identifier: Stored<Option<UserLoginIdentifier>>,
    /// Whether the change found its row.
    pub changed: Stored<bool>,
    pub audits: usize,
    /// The time after the change.
    pub after: Option<Timestamp>,
}

/// A call to make.
pub enum IdentifierCall {
    FindUser { user_id: Uuid },
    ListIdentifiers { user_id: Uuid },
    Normalize { identifier_type: LoginIdentifierType, raw: String },
    FindMeaning { tenant_id: TenantId, input: String },
    FindByEmail { tenant_id: TenantId, email: String },
    Create(UserLoginIdentifier),
    FindIdentifier { id: Uuid },
    SetActive { id: Uuid, user_id: Uuid, is_active: bool },
    Delete { id: Uuid, user_id: Uuid },
    Audit(AuditRecord),
    ReadClock,
}

/// What comes next: a call to make, or the result.
pub enum IdentifierStep<T> {
    Call(IdentifierCall),
    Done(Result<T, LoginIdentifierManagementError>),
}

pub struct LoginIdentifierManagementService {}

pub open spec fn is_internal(e: LoginIdentifierManagementError, cause: DomainError) -> bool {
    e matches LoginIdentifierManagementError::Internal(m) && m@ == cause.message_of()
}

pub open spec fn is_conflict(e: LoginIdentifierManagementError) -> bool {
    e matches LoginIdentifierManagementError::Conflict(k) && k.key@
        == "api-login-identifier-conflict"@
}

/// A failure of the store is an internal error.
pub fn internal(e: &DomainError) -> (r: LoginIdentifierManagementError)
    ensures
        is_internal(r, *e),
{
    LoginIdentifierManagementError::Internal(e.message())
}

fn conflict() -> (r: LoginIdentifierManagementError)
    ensures
        is_conflict(r),
{
    LoginIdentifierManagementError::Conflict(MessageKey::new("api-login-identifier-conflict"))
}

/// The user must belong to the tenant at hand: nothing where they do.
pub open spec fn home_rule<T>(
    tenant_id: TenantId,
    target: Uuid,
    user: Stored<Option<User>>,
    r: Option<IdentifierStep<T>>,
) -> bool {
    match user {
        None => r == Some(IdentifierStep::<T>::Call(IdentifierCall::FindUser { user_id: target })),
        Some(Err(e)) => r matches Some(IdentifierStep::Done(Err(x))) && is_internal(x, e),
        Some(Ok(u)) => if u matches Some(u) && u.tenant_id == tenant_id {
            r is None
        } else {
            r == Some(IdentifierStep::<T>::Done(Err(LoginIdentifierManagementError::NotFound)))
        },
    }
}

/// The name must be the user's own: nothing where it is.
pub open spec fn owned_rule<T>(
    user_id: Uuid,
    identifier_id: Uuid,
    found: Stored<Option<UserLoginIdentifier>>,
    r: Option<IdentifierStep<T>>,
) -> bool {
    match found {
        None => r == Some(
            IdentifierStep::<T>::Call(IdentifierCall::FindIdentifier { id: identifier_id }),
        ),
        Some(Err(e)) => r matches Some(IdentifierStep::Done(Err(x))) && is_internal(x, e),
        Some(Ok(i)) => if i matches Some(i) && i.user_id == user_id {
            r is None
        } else {
            r == Some(IdentifierStep::<T>::Done(Err(LoginIdentifierManagementError::NotFound)))
        },
    }
}

/// The value must mean nobody yet, the user among them; and an address must not be another user's:
/// nothing where that holds.
pub open spec fn available_rule<T>(
    tenant_id: TenantId,
    user_id: Uuid,
    identifier_type: LoginIdentifierType,
    raw: Seq<char>,
    p: IdentifierProgress,
    r: Option<IdentifierStep<T>>,
) -> bool {
    match p.meaning {
        None => r matches Some(
            IdentifierStep::Call(IdentifierCall::FindMeaning { tenant_id: t, input }),
        ) && t == tenant_id && input@ == raw,
        Some(Err(e)) => r matches Some(IdentifierStep::Done(Err(x))) && is_internal(x, e),
        Some(Ok(m)) => if !m.nobody() {
            r matches Some(IdentifierStep::Done(Err(x))) && is_conflict(x)
        } else if identifier_type != LoginIdentifierType::Email {
            r is None
        } else {
            match p.by_email {
                None => r matches Some(
                    IdentifierStep::Call(IdentifierCall::FindByEmail { tenant_id: t, email }),
                ) && t == tenant_id && email@ == raw,
                Some(Err(e)) => r matches Some(IdentifierStep::Done(Err(x))) && is_internal(x, e),
                Some(Ok(found)) => if found matches Some(u) && u.id != user_id {
                    r matches Some(IdentifierStep::Done(Err(x))) && is_conflict(x)
                } else {
                    r is None
                },
            }
        },
    }
}

/// A name as it is added: never the primary one.
pub open spec fn is_new_identifier(
    v: UserLoginIdentifier,
    tenant_id: TenantId,
    user_id: Uuid,
    cmd: AddLoginIdentifierCommand,
    normalized: String,
    id: Uuid,
    now: Timestamp,
) -> bool {
    &&& v.id == id
    &&& v.tenant_id == tenant_id
    &&& v.user_id == user_id
    &&& v.identifier_type == cmd.identifier_type
    &&& v.display_value@ == trimmed(cmd.value@)
    &&& v.normalized_value == normalized
    &&& v.is_active == cmd.is_active
    &&& !v.is_primary
    &&& v.created_at == now
    &&& v.updated_at == now
}

/// The audit entry of a change: its kind, and never the value.
pub open spec fn identifier_entry(
    a: AuditRecord,
    event: AuditEventType,
    tenant_id: TenantId,
    actor: Uuid,
    words: Seq<char>,
) -> bool {
    &&& a.event == event
    &&& a.result == AuditResult::Success
    &&& a.tenant_id == Some(tenant_id)
    &&& a.user_id == Some(actor)
    &&& a.client_id is None
    &&& a.reason matches Some(AuditReason::Words(w)) && w@ == words
}

fn audit<T>(event: AuditEventType, tenant_id: TenantId, actor: Uuid, words: String) -> (r:
    IdentifierStep<T>)
    ensures
        r matches IdentifierStep::Call(IdentifierCall::Audit(a)) && identifier_entry(
            a,
            event,
            tenant_id,
            actor,
            words@,
        ),
{
    IdentifierStep::Call(
        IdentifierCall::Audit(
            AuditRecord {
                event,
                result: AuditResult::Success,
                tenant_id: Some(tenant_id),
                user_id: Some(actor),
                client_id: None,
                reason: Some(AuditReason::Words(words)),
            },
        ),
    )
}

/// The entries with the primary ones first, each group in its order.
pub open spec fn listed(stored: Seq<UserLoginIdentifier>) -> Seq<LoginIdentifierEntry> {
    group(stored, true) + group(stored, false)
}

/// The entries that are, or are not, primary.
pub open spec fn group(stored: Seq<UserLoginIdentifier>, primary: bool) -> Seq<LoginIdentifierEntry>
    decreases stored.len(),
{
    if stored.len() == 0 {
        Seq::empty()
    } else {
        let rest = group(stored.drop_last(), primary);
        if stored.last().is_primary == primary {
            rest.push(entry_of(stored.last()))
        } else {
            rest
        }
    }
}

fn collect_group(
    stored: &Vec<UserLoginIdentifier>,
    primary: bool,
    out: &mut Vec<LoginIdentifierEntry>,
)
    ensures
        final(out)@ == old(out)@ + group(stored@, primary),
{
    let ghost before = out@;
    let mut i: usize = 0;
    proof {
        assert(stored@.subrange(0, 0) =~= Seq::<UserLoginIdentifier>::empty());
        assert(out@ =~= before + group(stored@.subrange(0, 0), primary));
    }
    while i < stored.len()
        invariant
            i <= stored.len(),
            out@ == before + group(stored@.subrange(0, i as int), primary),
        decreases stored.len() - i,
    {
        proof {
            let upto = stored@.subrange(0, i + 1);
            assert(upto.drop_last() =~= stored@.subrange(0, i as int));
            assert(upto.last() == stored@[i as int]);
        }
        if stored[i].is_primary == primary {
            let ghost so_far = out@;
            out.push(LoginIdentifierEntry::from(stored[i].clone()));
            proof {
                assert(out@ =~= so_far.push(entry_of(stored@[i as int])));
                assert(out@ =~= before + group(stored@.subrange(0, i + 1), primary));
            }
        }
        i = i + 1;
    }
    proof {
        assert(stored@.subrange(0, stored.len() as int) =~= stored@);
    }
}

impl LoginIdentifierManagementService {
    pub fn new() -> (r: Self)
        ensures
            r == (LoginIdentifierManagementService {  }),
    {
        LoginIdentifierManagementService {  }
    }

    /// Decides what comes next in making sure that a user belongs to the tenant at hand.
    pub fn find_home_user<T>(
        &self,
        tenant: &TenantContext,
        target: Uuid,
        user: &Stored<Option<User>>,
    ) -> (r: Option<IdentifierStep<T>>)
        ensures
            home_rule(tenant.tenant_id, target, *user, r),
    {
        match user {
            None => Some(IdentifierStep::Call(IdentifierCall::FindUser { user_id: target })),
            Some(Err(e)) => Some(IdentifierStep::Done(Err(internal(e)))),
            Some(Ok(Some(u))) => if u.tenant_id == tenant.tenant_id {
                None
            } else {
                Some(IdentifierStep::Done(Err(LoginIdentifierManagementError::NotFound)))
            },
            Some(Ok(None)) => Some(
                IdentifierStep::Done(Err(LoginIdentifierManagementError::NotFound)),
            ),
        }
    }

    /// Decides what comes next in making sure that a name is the user's own.
    pub fn find_owned<T>(
        &self,
        user_id: Uuid,
        identifier_id: Uuid,
        found: &Stored<Option<UserLoginIdentifier>>,
    ) -> (r: Option<IdentifierStep<T>>)
        ensures
            owned_rule(user_id, identifier_id, *found, r),
    {
        match found {
            None => Some(
                IdentifierStep::Call(IdentifierCall::FindIdentifier { id: identifier_id }),
            ),
            Some(Err(e)) => Some(IdentifierStep::Done(Err(internal(e)))),
            Some(Ok(Some(i))) => if i.user_id == user_id {
                None
            } else {
                Some(IdentifierStep::Done(Err(LoginIdentifierManagementError::NotFound)))
            },
            Some(Ok(None)) => Some(
                IdentifierStep::Done(Err(LoginIdentifierManagementError::NotFound)),
            ),
        }
    }

    /// Decides what comes next in making sure that a value is free.
    pub fn ensure_available<T>(
        &self,
        tenant_id: TenantId,
        user_id: Uuid,
        identifier_type: LoginIdentifierType,
        raw: &str,
        p: &IdentifierProgress,
    ) -> (r: Option<IdentifierStep<T>>)
        ensures
            available_rule(tenant_id, user_id, identifier_type, raw@, *p, r),
    {
        match &p.meaning {
            None => return Some(
                IdentifierStep::Call(
                    IdentifierCall::FindMeaning { tenant_id, input: raw.to_owned() },
                ),
            ),
            Some(Err(e)) => return Some(IdentifierStep::Done(Err(internal(e)))),
            Some(Ok(m)) => if m.is_taken() {
                return Some(IdentifierStep::Done(Err(conflict())));
            },
        }
        if identifier_type != LoginIdentifierType::Email {
            return None;
        }
        match &p.by_email {
            None => Some(
                IdentifierStep::Call(
                    IdentifierCall::FindByEmail { tenant_id, email: raw.to_owned() },
                ),
            ),
            Some(Err(e)) => Some(IdentifierStep::Done(Err(internal(e)))),
            Some(Ok(Some(u))) => if u.id != user_id {
                Some(IdentifierStep::Done(Err(conflict())))
            } else {
                None
            },
            Some(Ok(None)) => None,
        }
    }

    /// What comes next in listing a user's names.
    pub open spec fn list_rule(
        tenant_id: TenantId,
        target: Uuid,
        user: Stored<Option<User>>,
        stored: Stored<Vec<UserLoginIdentifier>>,
        r: IdentifierStep<Vec<LoginIdentifierEntry>>,
    ) -> bool {
        exists|h: Option<IdentifierStep<Vec<LoginIdentifierEntry>>>| #[trigger]
            home_rule(tenant_id, target, user, h) && match h {
                Some(step) => r == step,
                None => match stored {
                    None => r == IdentifierStep::<Vec<LoginIdentifierEntry>>::Call(
                        IdentifierCall::ListIdentifiers { user_id: user->0->Ok_0->0.id },
                    ),
                    Some(Err(e)) => r matches IdentifierStep::Done(Err(x)) && is_internal(x, e),
                    Some(Ok(v)) => r matches IdentifierStep::Done(Ok(entries)) && entries@ == listed(
                        v@,
                    ),
                },
            }
    }

    /// Decides what comes next in listing a user's names, the primary one first.
    pub fn list(
        &self,
        tenant: &TenantContext,
        target: Uuid,
        user: &Stored<Option<User>>,
        stored: &Stored<Vec<UserLoginIdentifier>>,
    ) -> (r: IdentifierStep<Vec<LoginIdentifierEntry>>)
        ensures
            Self::list_rule(tenant.tenant_id, target, *user, *stored, r),
    {
        let h: Option<IdentifierStep<Vec<LoginIdentifierEntry>>> = self.find_home_user(
            tenant,
            target,
            user,
        );
        proof {
            assert(home_rule(tenant.tenant_id, target, *user, h));
        }
        if let Some(step) = h {
            return step;
        }
        let user_id: Uuid = match user {
            Some(Ok(Some(u))) => u.id,
            _ => return IdentifierStep::Done(Err(LoginIdentifierManagementError::NotFound)),
        };
        match stored {
            None => IdentifierStep::Call(IdentifierCall::ListIdentifiers { user_id }),
            Some(Err(e)) => IdentifierStep::Done(Err(internal(e))),
            Some(Ok(v)) => {
                let mut entries: Vec<LoginIdentifierEntry> = Vec::new();
                collect_group(v, true, &mut entries);
                collect_group(v, false, &mut entries);
                proof {
                    assert(entries@ =~= listed(v@));
                }
                IdentifierStep::Done(Ok(entries))
            },
        }
    }

    /// What comes next in adding a name.
    pub open spec fn add_rule(
        tenant_id: TenantId,
        target: Uuid,
        cmd: AddLoginIdentifierCommand,
        actor: Uuid,
        id: Uuid,
        now: Timestamp,
        p: IdentifierProgress,
        r: IdentifierStep<UserLoginIdentifier>,
    ) -> bool {
        exists|h: Option<IdentifierStep<UserLoginIdentifier>>| #[trigger]
            home_rule(tenant_id, target, p.user, h) && match h {
                Some(step) => r == step,
                None => {
                    let user_id = p.user->0->Ok_0->0.id;
                    match p.normalized {
                        None => r matches IdentifierStep::Call(
                            IdentifierCall::Normalize { identifier_type, raw },
                        ) && identifier_type == cmd.identifier_type && raw@ == trimmed(cmd.value@),
                        Some(Err(k)) => r == IdentifierStep::<UserLoginIdentifier>::Done(
                            Err(LoginIdentifierManagementError::Validation(k)),
                        ),
                        Some(Ok(normalized)) => exists|a: Option<
                            IdentifierStep<UserLoginIdentifier>,
                        >| #[trigger]
                            available_rule(
                                tenant_id,
                                user_id,
                                cmd.identifier_type,
                                trimmed(cmd.value@),
                                p,
                                a,
                            ) && match a {
                                Some(step) => r == step,
                                None => Self::store_rule(
                                    tenant_id,
                                    user_id,
                                    cmd,
                                    normalized,
                                    actor,
                                    id,
                                    now,
                                    p,
                                    r,
                                ),
                            },
                    }
                },
            }
    }

    /// A free name is stored and audited.
    pub open spec fn store_rule(
        tenant_id: TenantId,
        user_id: Uuid,
        cmd: AddLoginIdentifierCommand,
        normalized: String,
        actor: Uuid,
        id: Uuid,
        now: Timestamp,
        p: IdentifierProgress,
        r: IdentifierStep<UserLoginIdentifier>,
    ) -> bool {
        match p.created {
            None => r matches IdentifierStep::Call(IdentifierCall::Create(v)) && is_new_identifier(
                v,
                tenant_id,
                user_id,
                cmd,
                normalized,
                id,
                now,
            ),
            Some(Err(DomainError::Conflict(_))) => r matches IdentifierStep::Done(Err(x))
                && is_conflict(x),
            Some(Err(e)) => r matches IdentifierStep::Done(Err(x)) && is_internal(x, e),
            Some(Ok(_)) => if p.audits == 0 {
                r matches IdentifierStep::Call(IdentifierCall::Audit(a)) && identifier_entry(
                    a,
                    AuditEventType::UserLoginIdentifierAdded,
                    tenant_id,
                    actor,
                    "type="@ + cmd.identifier_type.code_of(),
                )
            } else {
                r matches IdentifierStep::Done(Ok(v)) && is_new_identifier(
                    v,
                    tenant_id,
                    user_id,
                    cmd,
                    normalized,
                    id,
                    now,
                )
            },
        }
    }

    fn store(
        &self,
        tenant_id: TenantId,
        user_id: Uuid,
        cmd: &AddLoginIdentifierCommand,
        normalized: &String,
        actor: Uuid,
        id: Uuid,
        now: Timestamp,
        p: &IdentifierProgress,
    ) -> (r: IdentifierStep<UserLoginIdentifier>)
        ensures
            Self::store_rule(tenant_id, user_id, *cmd, *normalized, actor, id, now, *p, r),
    {
        let identifier = UserLoginIdentifier {
            id,
            tenant_id,
            user_id,
            identifier_type: cmd.identifier_type,
            display_value: trim(cmd.value.as_str()),
            normalized_value: normalized.clone(),
            is_active: cmd.is_active,
            is_primary: false,
            created_at: now,
            updated_at: now,
        };
        match &p.created {
            None => return IdentifierStep::Call(IdentifierCall::Create(identifier)),
            Some(Err(DomainError::Conflict(_))) => return IdentifierStep::Done(Err(conflict())),
            Some(Err(e)) => return IdentifierStep::Done(Err(internal(e))),
            Some(Ok(_)) => {},
        }
        if p.audits == 0 {
            return audit(
                AuditEventType::UserLoginIdentifierAdded,
                tenant_id,
                actor,
                join2("type=", cmd.identifier_type.as_str()),
            );
        }
        IdentifierStep::Done(Ok(identifier))
    }

    /// Decides what comes next in adding a name.
    pub fn add(
        &self,
        tenant: &TenantContext,
        target: Uuid,
        cmd: &AddLoginIdentifierCommand,
        actor: Uuid,
        id: Uuid,
        now: Timestamp,
        p: &IdentifierProgress,
    ) -> (r: IdentifierStep<UserLoginIdentifier>)
        ensures
            Self::add_rule(tenant.tenant_id, target, *cmd, actor, id, now, *p, r),
    {
        let h: Option<IdentifierStep<UserLoginIdentifier>> = self.find_home_user(
            tenant,
            target,
            &p.user,
        );
        proof {
            assert(home_rule(tenant.tenant_id, target, p.user, h));
        }
        if let Some(step) = h {
            return step;
        }
        let user_id: Uuid = match &p.user {
            Some(Ok(Some(u))) => u.id,
            _ => return IdentifierStep::Done(Err(LoginIdentifierManagementError::NotFound)),
        };
        let raw: String = trim(cmd.value.as_str());
        let normalized: &String = match &p.normalized {
            None => return IdentifierStep::Call(
                IdentifierCall::Normalize { identifier_type: cmd.identifier_type, raw },
            ),
            Some(Err(k)) => return IdentifierStep::Done(
                Err(LoginIdentifierManagementError::Validation(k.clone())),
            ),
            Some(Ok(normalized)) => normalized,
        };
        let a: Option<IdentifierStep<UserLoginIdentifier>> = self.ensure_available(
            tenant.tenant_id,
            user_id,
            cmd.identifier_type,
            raw.as_str(),
            p,
        );
        proof {
            assert(available_rule(
                tenant.tenant_id,
                user_id,
                cmd.identifier_type,
                trimmed(cmd.value@),
                *p,
                a,
            ));
        }
        match a {
            Some(step) => step,
            None => self.store(tenant.tenant_id, user_id, cmd, normalized, actor, id, now, p),
        }
    }

    /// A name as it is once it was turned on or off.
    pub open spec fn with_active(
        v: UserLoginIdentifier,
        is_active: bool,
        at: Timestamp,
    ) -> UserLoginIdentifier {
        UserLoginIdentifier { is_active, updated_at: at, ..v }
    }

    /// What comes next in turning a name on or off. The row stays, so that nobody else can take the
    /// value.
    pub open spec fn set_active_rule(
        tenant_id: TenantId,
        target: Uuid,
        identifier_id: Uuid,
        is_active: bool,
        actor: Uuid,
        p: IdentifierProgress,
        r: IdentifierStep<UserLoginIdentifier>,
    ) -> bool {
        exists|h: Option<IdentifierStep<UserLoginIdentifier>>| #[trigger]
            home_rule(tenant_id, target, p.user, h) && match h {
                Some(step) => r == step,
                None => {
                    let user_id = p.user->0->Ok_0->0.id;
                    exists|o: Option<IdentifierStep<UserLoginIdentifier>>| #[trigger]
                        owned_rule(user_id, identifier_id, p.identifier, o) && match o {
                            Some(step) => r == step,
                            None => {
                                let v = p.identifier->0->Ok_0->0;
                                match p.changed {
                                    None => r == IdentifierStep::<UserLoginIdentifier>::Call(
                                        IdentifierCall::SetActive { id: v.id, user_id, is_active },
                                    ),
                                    Some(Err(e)) => r matches IdentifierStep::Done(Err(x))
                                        && is_internal(x, e),
                                    Some(Ok(false)) => r == IdentifierStep::<
                                        UserLoginIdentifier,
                                    >::Done(Err(LoginIdentifierManagementError::NotFound)),
                                    Some(Ok(true)) => if p.audits == 0 {
                                        r matches IdentifierStep::Call(IdentifierCall::Audit(a))
                                            && identifier_entry(
                                            a,
                                            AuditEventType::UserLoginIdentifierUpdated,
                                            tenant_id,
                                            actor,
                                            "type="@ + v.identifier_type.code_of() + " active="@
                                                + if is_active {
                                                "true"@
                                            } else {
                                                "false"@
                                            },
                                        )
                                    } else {
                                        match p.after {
                                            None => r == IdentifierStep::<
                                                UserLoginIdentifier,
                                            >::Call(IdentifierCall::ReadClock),
                                            Some(at) => r == IdentifierStep::Done(
                                                Ok(Self::with_active(v, is_active, at)),
                                            ),
                                        }
                                    },
                                }
                            },
                        }
                },
            }
    }

    /// Decides what comes next in turning a name on or off.
    pub fn set_active(
        &self,
        tenant: &TenantContext,
        target: Uuid,
        identifier_id: Uuid,
        is_active: bool,
        actor: Uuid,
        p: &IdentifierProgress,
    ) -> (r: IdentifierStep<UserLoginIdentifier>)
        ensures
            Self::set_active_rule(
                tenant.tenant_id,
                target,
                identifier_id,
                is_active,
                actor,
                *p,
                r,
            ),
    {
        let h: Option<IdentifierStep<UserLoginIdentifier>> = self.find_home_user(
            tenant,
            target,
            &p.user,
        );
        proof {
            assert(home_rule(tenant.tenant_id, target, p.user, h));
        }
        if let Some(step) = h {
            return step;
        }
        let user_id: Uuid = match &p.user {
            Some(Ok(Some(u))) => u.id,
            _ => return IdentifierStep::Done(Err(LoginIdentifierManagementError::NotFound)),
        };
        let o: Option<IdentifierStep<UserLoginIdentifier>> = self.find_owned(
            user_id,
            identifier_id,
            &p.identifier,
        );
        proof {
            assert(owned_rule(user_id, identifier_id, p.identifier, o));
        }
        if let Some(step) = o {
            return step;
        }
        let mut identifier: UserLoginIdentifier = match &p.identifier {
            Some(Ok(Some(i))) => i.clone(),
            _ => return IdentifierStep::Done(Err(LoginIdentifierManagementError::NotFound)),
        };
        match &p.changed {
            None => return IdentifierStep::Call(
                IdentifierCall::SetActive { id: identifier.id, user_id, is_active },
            ),
            Some(Err(e)) => return IdentifierStep::Done(Err(internal(e))),
            Some(Ok(changed)) => if !*changed {
                return IdentifierStep::Done(Err(LoginIdentifierManagementError::NotFound));
            },
        }
        if p.audits == 0 {
            let mut words: String = join2("type=", identifier.identifier_type.as_str());
            words.append(" active=");
            if is_active {
                words.append("true");
            } else {
                words.append("false");
            }
            return audit(
                AuditEventType::UserLoginIdentifierUpdated,
                tenant.tenant_id,
                actor,
                words,
            );
        }
        match p.after {
            None => IdentifierStep::Call(IdentifierCall::ReadClock),
            Some(at) => {
                identifier.is_active = is_active;
                identifier.updated_at = at;
                IdentifierStep::Done(Ok(identifier))
            },
        }
    }

    /// What comes next in removing a name.
    pub open spec fn remove_rule(
        tenant_id: TenantId,
        target: Uuid,
        identifier_id: Uuid,
        actor: Uuid,
        p: IdentifierProgress,
        r: IdentifierStep<()>,
    ) -> bool {
        exists|h: Option<IdentifierStep<()>>| #[trigger]
            home_rule(tenant_id, target, p.user, h) && match h {
                Some(step) => r == step,
                None => {
                    let user_id = p.user->0->Ok_0->0.id;
                    exists|o: Option<IdentifierStep<()>>| #[trigger]
                        owned_rule(user_id, identifier_id, p.identifier, o) && match o {
                            Some(step) => r == step,
                            None => {
                                let v = p.identifier->0->Ok_0->0;
                                match p.changed {
                                    None => r == IdentifierStep::<()>::Call(
                                        IdentifierCall::Delete { id: v.id, user_id },
                                    ),
                                    Some(Err(e)) => r matches IdentifierStep::Done(Err(x))
                                        && is_internal(x, e),
                                    Some(Ok(false)) => r == IdentifierStep::<()>::Done(
                                        Err(LoginIdentifierManagementError::NotFound),
                                    ),
                                    Some(Ok(true)) => if p.audits == 0 {
                                        r matches IdentifierStep::Call(IdentifierCall::Audit(a))
                                            && identifier_entry(
                                            a,
                                            AuditEventType::UserLoginIdentifierRemoved,
                                            tenant_id,
                                            actor,
                                            "type="@ + v.identifier_type.code_of(),
                                        )
                                    } else {
                                        r == IdentifierStep::<()>::Done(Ok(()))
                                    },
                                }
                            },
                        }
                },
            }
    }

    /// Decides what comes next in removing a name.
    pub fn remove(
        &self,
        tenant: &TenantContext,
        target: Uuid,
        identifier_id: Uuid,
        actor: Uuid,
        p: &IdentifierProgress,
    ) -> (r: IdentifierStep<()>)
        ensures
            Self::remove_rule(tenant.tenant_id, target, identifier_id, actor, *p, r),
    {
        let h: Option<IdentifierStep<()>> = self.find_home_user(tenant, target, &p.user);
        proof {
            assert(home_rule(tenant.tenant_id, target, p.user, h));
        }
        if let Some(step) = h {
            return step;
        }
        let user_id: Uuid = match &p.user {
            Some(Ok(Some(u))) => u.id,
            _ => return IdentifierStep::Done(Err(LoginIdentifierManagementError::NotFound)),
        };
        let o: Option<IdentifierStep<()>> = self.find_owned(user_id, identifier_id, &p.identifier);
        proof {
            assert(owned_rule(user_id, identifier_id, p.identifier, o));
        }
        if let Some(step) = o {
            return step;
        }
        let identifier: &UserLoginIdentifier = match &p.identifier {
            Some(Ok(Some(i))) => i,
            _ => return IdentifierStep::Done(Err(LoginIdentifierManagementError::NotFound)),
        };
        match &p.changed {
            None => return IdentifierStep::Call(
                IdentifierCall::Delete { id: identifier.id, user_id },
            ),
            Some(Err(e)) => return IdentifierStep::Done(Err(internal(e))),
            Some(Ok(changed)) => if !*changed {
                return IdentifierStep::Done(Err(LoginIdentifierManagementError::NotFound));
            },
        }
        if p.audits == 0 {
            return audit(
                AuditEventType::UserLoginIdentifierRemoved,
                tenant.tenant_id,
                actor,
                join2("type=", identifier.identifier_type.as_str()),
            );
        }
        IdentifierStep::Done(Ok(()))
    }
}

/// A name is stored only where its value means nobody yet, not even the user themself, and where an
/// address is not another user's.
pub proof fn a_stored_name_was_free(
    tenant_id: TenantId,
    target: Uuid,
    cmd: AddLoginIdentifierCommand,
    actor: Uuid,
    id: Uuid,
    now: Timestamp,
    p: IdentifierProgress,
    v: UserLoginIdentifier,
)
    requires
        LoginIdentifierManagementService::add_rule(
            tenant_id,
            target,
            cmd,
            actor,
            id,
            now,
            p,
            IdentifierStep::Call(IdentifierCall::Create(v)),
        ),
    ensures
        p.user matches Some(Ok(Some(u))) && u.tenant_id == tenant_id && v.user_id == u.id,
        p.meaning matches Some(Ok(m)) && m.nobody(),
        cmd.identifier_type == LoginIdentifierType::Email ==> (p.by_email matches Some(Ok(found))
            && (found matches Some(u) ==> u.id == v.user_id)),
        !v.is_primary,
{
}

/// The list holds every name once, and no primary one behind another.
pub proof fn primary_names_come_first(stored: Seq<UserLoginIdentifier>)
    ensures
        listed(stored).len() == stored.len(),
        forall|i: int, j: int|
            0 <= i < j < listed(stored).len() && (#[trigger] listed(stored)[j]).is_primary ==> (
            #[trigger] listed(stored)[i]).is_primary,
{
    lemma_group(stored, true);
    lemma_group(stored, false);
    lemma_group_len(stored);
    let a = group(stored, true);
    let b = group(stored, false);
    assert forall|i: int, j: int|
        0 <= i < j < listed(stored).len() && (#[trigger] listed(stored)[j]).is_primary implies (
    #[trigger] listed(stored)[i]).is_primary by {
        if j >= a.len() {
            assert(listed(stored)[j] == b[j - a.len()]);
        }
        assert(listed(stored)[i] == a[i]);
    }
}

proof fn lemma_group(stored: Seq<UserLoginIdentifier>, primary: bool)
    ensures
        forall|i: int|
            0 <= i < group(stored, primary).len() ==> (#[trigger] group(
                stored,
                primary,
            )[i]).is_primary == primary,
    decreases stored.len(),
{
    if stored.len() > 0 {
        lemma_group(stored.drop_last(), primary);
    }
}

proof fn lemma_group_len(stored: Seq<UserLoginIdentifier>)
    ensures
        group(stored, true).len() + group(stored, false).len() == stored.len(),
    decreases stored.len(),
{
    if stored.len() > 0 {
        lemma_group_len(stored.drop_last());
    }
}

impl IdentifierProgress {
    /// The call `call` asks for something that is not known yet.
    pub open spec fn lacks_answer_to(self, call: IdentifierCall) -> bool {
        match call {
            IdentifierCall::FindUser { .. } => self.user is None,
            IdentifierCall::ListIdentifiers { .. } => false,
            IdentifierCall::Normalize { .. } => self.normalized is None,
            IdentifierCall::FindMeaning { .. } => self.meaning is None,
            IdentifierCall::FindByEmail { .. } => self.by_email is None,
            IdentifierCall::Create(_) => self.created is None,
            IdentifierCall::FindIdentifier { .. } => self.identifier is None,
            IdentifierCall::SetActive { .. } => self.changed is None,
            IdentifierCall::Delete { .. } => self.changed is None,
            IdentifierCall::Audit(_) => self.audits < 1,
            IdentifierCall::ReadClock => self.after is None,
        }
    }
}

/// Nothing is asked for that is known already: every call that comes next fills a gap.
pub proof fn adding_asks_nothing_twice(
    tenant_id: TenantId,
    target: Uuid,
    cmd: AddLoginIdentifierCommand,
    actor: Uuid,
    id: Uuid,
    now: Timestamp,
    p: IdentifierProgress,
    r: IdentifierStep<UserLoginIdentifier>,
)
    requires
        LoginIdentifierManagementService::add_rule(tenant_id, target, cmd, actor, id, now, p, r),
    ensures
        r matches IdentifierStep::Call(c) ==> p.lacks_answer_to(c),
{
}

/// Nothing is asked for that is known already: every call that comes next fills a gap.
pub proof fn switching_asks_nothing_twice(
    tenant_id: TenantId,
    target: Uuid,
    identifier_id: Uuid,
    is_active: bool,
    actor: Uuid,
    p: IdentifierProgress,
    r: IdentifierStep<UserLoginIdentifier>,
)
    requires
        LoginIdentifierManagementService::set_active_rule(tenant_id, target, identifier_id, is_active, actor, p, r),
    ensures
        r matches IdentifierStep::Call(c) ==> p.lacks_answer_to(c),
{
}

/// Nothing is asked for that is known already: every call that comes next fills a gap.
pub proof fn removing_asks_nothing_twice(
    tenant_id: TenantId,
    target: Uuid,
    identifier_id: Uuid,
    actor: Uuid,
    p: IdentifierProgress,
    r: IdentifierStep<()>,
)
    requires
        LoginIdentifierManagementService::remove_rule(tenant_id, target, identifier_id, actor, p, r),
    ensures
        r matches IdentifierStep::Call(c) ==> p.lacks_answer_to(c),
{
}

/// The entry stands in the tenant, names who has acted and never a client, and tells of a success.
pub open spec fn tells_of(a: AuditRecord, tenant_id: TenantId, actor: Uuid) -> bool {
    a.result == AuditResult::Success && a.tenant_id == Some(tenant_id) && a.user_id == Some(actor)
        && a.client_id is None
}

/// A name is added as it was given: for the user who was named and found in the tenant, of the kind and
/// with the value that were given, without the space round it, never as the primary one; what must mean
/// nobody yet is that very value; and what is reported is what was stored.
pub proof fn a_name_is_added_as_given(
    tenant_id: TenantId,
    target: Uuid,
    cmd: AddLoginIdentifierCommand,
    actor: Uuid,
    id: Uuid,
    now: Timestamp,
    p: IdentifierProgress,
    r: IdentifierStep<UserLoginIdentifier>,
)
    requires
        LoginIdentifierManagementService::add_rule(tenant_id, target, cmd, actor, id, now, p, r),
    ensures
        match r {
            IdentifierStep::Call(IdentifierCall::FindUser { user_id }) => user_id == target,
            IdentifierStep::Call(IdentifierCall::Normalize { identifier_type, raw }) =>
            identifier_type == cmd.identifier_type && raw@ == trimmed(cmd.value@),
            IdentifierStep::Call(IdentifierCall::FindMeaning { tenant_id: t, input }) => t == tenant_id
                && input@ == trimmed(cmd.value@),
            IdentifierStep::Call(IdentifierCall::FindByEmail { tenant_id: t, email }) => t == tenant_id
                && email@ == trimmed(cmd.value@) && cmd.identifier_type
                == LoginIdentifierType::Email,
            IdentifierStep::Call(IdentifierCall::Create(v)) => (p.user matches Some(Ok(Some(user)))
                && v.user_id == user.id && user.tenant_id == tenant_id) && v.id == id && v.tenant_id
                == tenant_id && v.identifier_type == cmd.identifier_type && v.display_value@
                == trimmed(cmd.value@) && p.normalized == Some(
                Ok::<String, MessageKey>(v.normalized_value),
            ) && v.is_active == cmd.is_active && !v.is_primary && v.created_at == now && v.updated_at
                == now,
            IdentifierStep::Call(IdentifierCall::Audit(a)) => a.event
                == AuditEventType::UserLoginIdentifierAdded && tells_of(a, tenant_id, actor) && (
            p.created matches Some(Ok(_))) && (a.reason matches Some(AuditReason::Words(w)) && w@
                == "type="@ + cmd.identifier_type.code_of()),
            IdentifierStep::Call(_) => false,
            IdentifierStep::Done(Ok(v)) => (p.user matches Some(Ok(Some(user))) && v.user_id
                == user.id) && v.id == id && v.tenant_id == tenant_id && v.identifier_type
                == cmd.identifier_type && v.display_value@ == trimmed(cmd.value@) && p.normalized
                == Some(Ok::<String, MessageKey>(v.normalized_value)) && v.is_active
                == cmd.is_active && !v.is_primary && v.created_at == now && v.updated_at == now && (
            p.created matches Some(Ok(_))) && p.audits > 0,
            IdentifierStep::Done(Err(LoginIdentifierManagementError::NotFound)) =>
            p.user matches Some(Ok(found)) && (found matches Some(user) ==> user.tenant_id
                != tenant_id),
            IdentifierStep::Done(Err(LoginIdentifierManagementError::Validation(k))) => p.normalized
                == Some(Err::<String, MessageKey>(k)),
            IdentifierStep::Done(Err(LoginIdentifierManagementError::Conflict(_))) => (
            p.meaning matches Some(Ok(m)) && !m.nobody()) || (p.by_email matches Some(Ok(Some(u)))
                && (p.user matches Some(Ok(Some(user))) && u.id != user.id)) || (
            p.created matches Some(Err(DomainError::Conflict(_)))),
            IdentifierStep::Done(Err(LoginIdentifierManagementError::Internal(_))) => (
            p.user matches Some(Err(_))) || (p.meaning matches Some(Err(_))) || (
            p.by_email matches Some(Err(_))) || (p.created matches Some(Err(_))),
        },
{
}

/// The name that is turned on or off is the one that was named, and the user's own; it changes in that
/// alone, and in when it was last changed.
pub proof fn a_name_is_turned_on_or_off(
    tenant_id: TenantId,
    target: Uuid,
    identifier_id: Uuid,
    is_active: bool,
    actor: Uuid,
    p: IdentifierProgress,
    r: IdentifierStep<UserLoginIdentifier>,
)
    requires
        LoginIdentifierManagementService::set_active_rule(
            tenant_id,
            target,
            identifier_id,
            is_active,
            actor,
            p,
            r,
        ),
    ensures
        match r {
            IdentifierStep::Call(IdentifierCall::FindUser { user_id }) => user_id == target,
            IdentifierStep::Call(IdentifierCall::FindIdentifier { id }) => id == identifier_id,
            IdentifierStep::Call(IdentifierCall::SetActive { id, user_id, is_active: on }) => on
                == is_active && (p.user matches Some(Ok(Some(user))) && user_id == user.id
                && user.tenant_id == tenant_id) && (p.identifier matches Some(Ok(Some(v))) && id
                == v.id && v.user_id == user_id),
            IdentifierStep::Call(IdentifierCall::Audit(a)) => a.event
                == AuditEventType::UserLoginIdentifierUpdated && tells_of(a, tenant_id, actor)
                && p.changed == Some(Ok::<bool, DomainError>(true)) && (p.identifier matches Some(
                Ok(Some(v)),
            ) && (a.reason matches Some(AuditReason::Words(w)) && w@ == "type="@
                + v.identifier_type.code_of() + " active="@ + (if is_active {
                "true"@
            } else {
                "false"@
            }))),
            IdentifierStep::Call(IdentifierCall::ReadClock) => p.audits > 0,
            IdentifierStep::Call(_) => false,
            IdentifierStep::Done(Ok(v)) => v.is_active == is_active && p.after == Some(v.updated_at)
                && (p.identifier matches Some(Ok(Some(was))) && v.id == was.id && v.tenant_id
                == was.tenant_id && v.user_id == was.user_id && v.identifier_type
                == was.identifier_type && v.display_value == was.display_value && v.normalized_value
                == was.normalized_value && v.is_primary == was.is_primary && v.created_at
                == was.created_at) && p.changed == Some(Ok::<bool, DomainError>(true)),
            IdentifierStep::Done(Err(LoginIdentifierManagementError::NotFound)) => (
            p.user matches Some(Ok(found)) && (found matches Some(user) ==> user.tenant_id
                != tenant_id)) || (p.identifier matches Some(Ok(found)) && (found matches Some(v) ==> (
            p.user matches Some(Ok(Some(user))) && v.user_id != user.id))) || p.changed == Some(
                Ok::<bool, DomainError>(false),
            ),
            IdentifierStep::Done(Err(LoginIdentifierManagementError::Internal(_))) => (
            p.user matches Some(Err(_))) || (p.identifier matches Some(Err(_))) || (
            p.changed matches Some(Err(_))),
            IdentifierStep::Done(Err(_)) => false,
        },
{
}

/// The name that is removed is the one that was named, and the user's own.
pub proof fn the_named_name_is_removed(
    tenant_id: TenantId,
    target: Uuid,
    identifier_id: Uuid,
    actor: Uuid,
    p: IdentifierProgress,
    r: IdentifierStep<()>,
)
    requires
        LoginIdentifierManagementService::remove_rule(
            tenant_id,
            target,
            identifier_id,
            actor,
            p,
            r,
        ),
    ensures
        match r {
            IdentifierStep::Call(IdentifierCall::FindUser { user_id }) => user_id == target,
            IdentifierStep::Call(IdentifierCall::FindIdentifier { id }) => id == identifier_id,
            IdentifierStep::Call(IdentifierCall::Delete { id, user_id }) => (p.user matches Some(
                Ok(Some(user)),
            ) && user_id == user.id && user.tenant_id == tenant_id) && (p.identifier matches Some(
                Ok(Some(v)),
            ) && id == v.id && v.user_id == user_id),
            IdentifierStep::Call(IdentifierCall::Audit(a)) => a.event
                == AuditEventType::UserLoginIdentifierRemoved && tells_of(a, tenant_id, actor)
                && p.changed == Some(Ok::<bool, DomainError>(true)) && (p.identifier matches Some(
                Ok(Some(v)),
            ) && (a.reason matches Some(AuditReason::Words(w)) && w@ == "type="@
                + v.identifier_type.code_of())),
            IdentifierStep::Call(_) => false,
            IdentifierStep::Done(Ok(_)) => p.changed == Some(Ok::<bool, DomainError>(true))
                && p.audits > 0,
            IdentifierStep::Done(Err(LoginIdentifierManagementError::NotFound)) => (
            p.user matches Some(Ok(found)) && (found matches Some(user) ==> user.tenant_id
                != tenant_id)) || (p.identifier matches Some(Ok(found)) && (found matches Some(v) ==> (
            p.user matches Some(Ok(Some(user))) && v.user_id != user.id))) || p.changed == Some(
                Ok::<bool, DomainError>(false),
            ),
            IdentifierStep::Done(Err(LoginIdentifierManagementError::Internal(_))) => (
            p.user matches Some(Err(_))) || (p.identifier matches Some(Err(_))) || (
            p.changed matches Some(Err(_))),
            IdentifierStep::Done(Err(_)) => false,
        },
{
}

proof fn lemma_group_holds(
    stored: Seq<UserLoginIdentifier>,
    primary: bool,
    e: LoginIdentifierEntry,
)
    ensures
        group(stored, primary).contains(e) <==> exists|i: int|
            0 <= i < stored.len() && (#[trigger] stored[i]).is_primary == primary && entry_of(
                stored[i],
            ) == e,
    decreases stored.len(),
{
    if stored.len() > 0 {
        let before = stored.drop_last();
        lemma_group_holds(before, primary, e);
        let rest = group(before, primary);
        let all = group(stored, primary);
        if rest.contains(e) {
            let k = choose|k: int| 0 <= k < rest.len() && rest[k] == e;
            assert(all[k] == e);
            let i = choose|i: int|
                0 <= i < before.len() && (#[trigger] before[i]).is_primary == primary && entry_of(
                    before[i],
                ) == e;
            assert(stored[i] == before[i]);
        }
        if all.contains(e) && !rest.contains(e) {
            let k = choose|k: int| 0 <= k < all.len() && all[k] == e;
            if k < rest.len() {
                assert(rest[k] == e);
            }
            assert(stored[stored.len() - 1].is_primary == primary);
        }
        if exists|i: int|
            0 <= i < stored.len() && (#[trigger] stored[i]).is_primary == primary && entry_of(
                stored[i],
            ) == e {
            let i = choose|i: int|
                0 <= i < stored.len() && (#[trigger] stored[i]).is_primary == primary && entry_of(
                    stored[i],
                ) == e;
            if i < before.len() {
                assert(before[i] == stored[i]);
            } else {
                assert(all[rest.len() as int] == e);
            }
        }
    } else {
        assert(!group(stored, primary).contains(e));
    }
}

/// What is listed of a user is what the store has of the user who was named, in the tenant: each name
/// as itself, and nothing else.
pub proof fn a_list_shows_the_users_names(
    tenant_id: TenantId,
    target: Uuid,
    user: Stored<Option<User>>,
    stored: Stored<Vec<UserLoginIdentifier>>,
    r: IdentifierStep<Vec<LoginIdentifierEntry>>,
    e: LoginIdentifierEntry,
)
    requires
        LoginIdentifierManagementService::list_rule(tenant_id, target, user, stored, r),
    ensures
        r matches IdentifierStep::Call(c) ==> c == (IdentifierCall::FindUser { user_id: target })
            || (c matches IdentifierCall::ListIdentifiers { user_id } && (user matches Some(
            Ok(Some(u)),
        ) && user_id == u.id && u.tenant_id == tenant_id)),
        r matches IdentifierStep::Done(Ok(entries)) ==> (stored matches Some(Ok(v)) && (
        entries@.contains(e) <==> exists|i: int|
            0 <= i < v@.len() && e.id == Some((#[trigger] v@[i]).id) && e.identifier_type
                == v@[i].identifier_type && e.display_value == v@[i].display_value
                && e.normalized_value == v@[i].normalized_value && e.is_active == v@[i].is_active
                && e.is_primary == v@[i].is_primary && e.created_at == v@[i].created_at
                && e.updated_at == v@[i].updated_at)),
        r matches IdentifierStep::Done(Err(LoginIdentifierManagementError::NotFound)) ==> (
        user matches Some(Ok(found)) && (found matches Some(u) ==> u.tenant_id != tenant_id)),
{
    if let Some(Ok(v)) = stored {
        lemma_group_holds(v@, true, e);
        lemma_group_holds(v@, false, e);
        let front = group(v@, true);
        let back = group(v@, false);
        let all = listed(v@);
        if front.contains(e) {
            let k = choose|k: int| 0 <= k < front.len() && front[k] == e;
            assert(all[k] == e);
        }
        if back.contains(e) {
            let k = choose|k: int| 0 <= k < back.len() && back[k] == e;
            assert(all[front.len() + k] == e);
        }
        if all.contains(e) {
            let k = choose|k: int| 0 <= k < all.len() && all[k] == e;
            if k < front.len() {
                assert(front[k] == e);
            } else {
                assert(back[k - front.len()] == e);
            }
        }
    }
}

/// The words of an error end with what it is about.
pub proof fn an_error_says_what_it_is_about(m: String, k: MessageKey)
    ensures
        k.key@.is_suffix_of(LoginIdentifierManagementError::Validation(k).text_of()),
        k.key@.is_suffix_of(LoginIdentifierManagementError::Conflict(k).text_of()),
        m@.is_suffix_of(LoginIdentifierManagementError::Internal(m).text_of()),
{
    lemma_suffix("validation error: "@, k.key@);
    lemma_suffix("conflict: "@, k.key@);
    lemma_suffix("internal error: "@, m@);
}

} // verus!
