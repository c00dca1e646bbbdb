//! Tenants: creating, changing and removing them, and the domains that lead to them.
//!
//! An administrator reaches the children of the tenant at hand and no other tenant; another
//! tenant's child is answered like one that does not exist.
use crate::audit::{
    admin_audit, admin_entry, AuditEventType, AuditReason, AuditRecord, AuditResult,
};
use crate::crypto::{uuid_text, uuid_text_of};
use crate::member_directory::{clamp_limit, clamp_offset, clamped, offset_of};
use crate::model::{
    AdminActor, DomainError, MessageKey, Stored, TenantContext, TenantId, Uuid,
};
use crate::text::{join2, lemma_suffix, trim, trimmed};
use crate::time::Timestamp;
use vstd::prelude::*;

verus! {

/// What the creator of a tenant is allowed to do in it.
pub const TENANT_ADMIN_PERMISSION: &'static str = "idp.tenant.admin";

/// How many tenants a page holds unless asked otherwise.
pub const DEFAULT_PAGE_LIMIT: i64 = 50;

/// How many tenants a page holds at most.
pub const MAX_PAGE_LIMIT: i64 = 200;

#[derive(Clone, Copy, Debug, PartialEq, Eq, Structural)]
pub enum TenantStatus {
    Active,
    Disabled,
}

pub struct Tenant {
    pub id: TenantId,
    pub parent_tenant_id: Option<TenantId>,
    pub name: String,
    pub accent_color: Option<String>,
    pub status: TenantStatus,
    pub self_registration_enabled: bool,
    pub created_at: Timestamp,
    pub updated_at: Timestamp,
}

impl Clone for Tenant {
    fn clone(&self) -> (r: Tenant)
        ensures
            r == *self,
    {
        Tenant {
            id: self.id,
            parent_tenant_id: self.parent_tenant_id,
            name: self.name.clone(),
            accent_color: self.accent_color.clone(),
            status: self.status,
            self_registration_enabled: self.self_registration_enabled,
            created_at: self.created_at,
            updated_at: self.updated_at,
        }
    }
}

impl Tenant {
    pub open spec fn active(self) -> bool {
        self.status == TenantStatus::Active
    }

    pub fn is_active(&self) -> (r: bool)
        ensures
            r == self.active(),
    {
        self.status == TenantStatus::Active
    }

    /// Whether nothing stands above it.
    pub fn is_root(&self) -> (r: bool)
        ensures
            r == (self.parent_tenant_id is None),
    {
        self.parent_tenant_id.is_none()
    }
}

/// A domain that leads to a tenant.
pub struct TenantDomain {
    pub id: Uuid,
    pub tenant_id: TenantId,
    pub domain: String,
    pub created_at: Timestamp,
    pub updated_at: Timestamp,
}

impl Clone for TenantDomain {
    fn clone(&self) -> (r: TenantDomain)
        ensures
            r == *self,
    {
        TenantDomain {
            id: self.id,
            tenant_id: self.tenant_id,
            domain: self.domain.clone(),
            created_at: self.created_at,
            updated_at: self.updated_at,
        }
    }
}

pub struct CreateTenantCommand {
    pub name: String,
}

/// What is to change; nothing stays where none is given.
pub struct UpdateTenantCommand {
    pub name: Option<String>,
    pub status: Option<TenantStatus>,
}

/// What is to change of a tenant's own settings. A color that is not given stays, an empty one is
/// taken off.
pub struct UpdateSettingsCommand {
    pub name: String,
    pub accent_color: Option<String>,
    pub self_registration_enabled: Option<bool>,
}

pub enum TenantManagementError {
    Validation(MessageKey),
    NotFound,
    Forbidden(MessageKey),
    Conflict(MessageKey),
    Internal(String),
}

impl TenantManagementError {
    pub open spec fn text_of(self) -> Seq<char> {
        match self {
            TenantManagementError::Validation(k) => "validation error: "@ + k.key@,
            TenantManagementError::NotFound => "not found"@,
            TenantManagementError::Forbidden(k) => "forbidden: "@ + k.key@,
            TenantManagementError::Conflict(k) => "conflict: "@ + k.key@,
            TenantManagementError::Internal(m) => "internal error: "@ + m@,
        }
    }

    /// The error in words.
    pub fn text(&self) -> (r: String)
        ensures
            r@ == self.text_of(),
    {
        match self {
            TenantManagementError::Validation(k) => join2("validation error: ", k.key.as_str()),
            TenantManagementError::NotFound => "not found".to_owned(),
            TenantManagementError::Forbidden(k) => join2("forbidden: ", k.key.as_str()),
            TenantManagementError::Conflict(k) => join2("conflict: ", k.key.as_str()),
            TenantManagementError::Internal(m) => join2("internal error: ", m.as_str()),
        }
    }
}

/// One page, with the limit and the offset that were applied.
pub struct TenantPage {
    pub items: Vec<Tenant>,
    pub total: i64,
    pub limit: i64,
    pub offset: i64,
}

/// What is known so far.
#[derive(Default)]
pub struct TenantProgress {
    pub found: Stored<Option<Tenant>>,
    pub provisioned: Stored<()>,
    pub accent: Option<Result<Option<String>, MessageKey>>,
    pub updated: Stored<()>,
    pub children: Stored<Vec<Tenant>>,
    pub deleted: Stored<()>,
    pub domain: Option<Result<String, MessageKey>>,
    pub domain_created: Stored<()>,
    pub domains: Stored<Vec<TenantDomain>>,
    pub domain_deleted: Stored<bool>,
    /// How many audit entries were written.
    pub audits: usize,
}

/// A call to make.
pub enum TenantCall {
    FindTenant { id: TenantId },
    /// Stores the tenant, its first guest, and what the guest may do in it, all or nothing.
    Provision { tenant: Tenant, guest: Uuid, permission: String, now: Timestamp },
    ParseAccent { raw: String },
    UpdateTenant(Tenant),
    ListChildren { parent: TenantId },
    ListChildrenPage { parent: TenantId, limit: i64, offset: i64 },
    DeleteTenant { id: TenantId },
    ValidateDomain { raw: String },
    CreateDomain(TenantDomain),
    ListDomains { tenant_id: TenantId },
    DeleteDomain { tenant_id: TenantId, domain_id: Uuid },
    Audit(AuditRecord),
}

/// What comes next: a call to make, or the result.
pub enum TenantStep<T> {
    Call(TenantCall),
    Done(Result<T, TenantManagementError>),
}

pub struct TenantManagementService {}

pub open spec fn is_validation(e: TenantManagementError, key: Seq<char>) -> bool {
    e matches TenantManagementError::Validation(k) && k.key@ == key
}

pub open spec fn is_forbidden(e: TenantManagementError, key: Seq<char>) -> bool {
    e matches TenantManagementError::Forbidden(k) && k.key@ == key
}

pub open spec fn is_conflict(e: TenantManagementError, key: Seq<char>) -> bool {
    e matches TenantManagementError::Conflict(k) && k.key@ == key
}

pub open spec fn is_internal(e: TenantManagementError, cause: DomainError) -> bool {
    e matches TenantManagementError::Internal(m) && m@ == cause.message_of()
}

fn internal(e: &DomainError) -> (r: TenantManagementError)
    ensures
        is_internal(r, *e),
{
    TenantManagementError::Internal(e.message())
}

/// A conflict of the store under its own key; every other failure is internal.
pub open spec fn is_conflict_or_internal(
    e: TenantManagementError,
    cause: DomainError,
    key: Seq<char>,
) -> bool {
    if cause is Conflict {
        is_conflict(e, key)
    } else {
        is_internal(e, cause)
    }
}

fn conflict_or_internal(e: &DomainError, key: &str) -> (r: TenantManagementError)
    ensures
        is_conflict_or_internal(r, *e, key@),
{
    match e {
        DomainError::Conflict(_) => TenantManagementError::Conflict(MessageKey::new(key)),
        _ => internal(e),
    }
}

/// Trims a name; nothing may not be left of it.
pub fn validate_name(name: &str) -> (r: Result<String, TenantManagementError>)
    ensures
        match r {
            Ok(n) => n@ == trimmed(name@) && n@.len() > 0,
            Err(e) => trimmed(name@).len() == 0 && is_validation(e, "api-tenant-name-empty"@),
        },
{
    let name: String = trim(name);
    if name.as_str().is_empty() {
        Err(TenantManagementError::Validation(MessageKey::new("api-tenant-name-empty")))
    } else {
        Ok(name)
    }
}

/// The tenant that is asked for must be a child of the one at hand: nothing where it is.
pub open spec fn child_rule<T>(
    requesting: TenantId,
    child_id: TenantId,
    found: Stored<Option<Tenant>>,
    r: Option<TenantStep<T>>,
) -> bool {
    match found {
        None => r == Some(TenantStep::<T>::Call(TenantCall::FindTenant { id: child_id })),
        Some(Err(e)) => r matches Some(TenantStep::Done(Err(x))) && is_internal(x, e),
        Some(Ok(t)) => if t matches Some(t) && t.parent_tenant_id == Some(requesting) {
            r is None
        } else {
            r == Some(TenantStep::<T>::Done(Err(TenantManagementError::NotFound)))
        },
    }
}

/// The tenant that is asked for must be the one at hand or a child of it: nothing where it is.
pub open spec fn self_or_child_rule<T>(
    requesting: TenantId,
    target_id: TenantId,
    found: Stored<Option<Tenant>>,
    r: Option<TenantStep<T>>,
) -> bool {
    if target_id != requesting {
        child_rule(requesting, target_id, found, r)
    } else {
        match found {
            None => r == Some(TenantStep::<T>::Call(TenantCall::FindTenant { id: target_id })),
            Some(Err(e)) => r matches Some(TenantStep::Done(Err(x))) && is_internal(x, e),
            Some(Ok(Some(_))) => r is None,
            Some(Ok(None)) => r == Some(TenantStep::<T>::Done(Err(TenantManagementError::NotFound))),
        }
    }
}

/// The tenant that was found.
pub open spec fn tenant_at(p: TenantProgress) -> Tenant {
    p.found->0->Ok_0->0
}

/// The change is audited, then the result is given.
pub open spec fn audited_rule<T>(
    event: AuditEventType,
    tenant_id: TenantId,
    actor: AdminActor,
    words: Seq<char>,
    audits: usize,
    result: spec_fn(T) -> bool,
    r: TenantStep<T>,
) -> bool {
    if audits == 0 {
        r matches TenantStep::Call(TenantCall::Audit(a)) && admin_entry(
            a,
            event,
            tenant_id,
            actor,
            words,
        )
    } else {
        r matches TenantStep::Done(Ok(v)) && result(v)
    }
}

/// `tenant=` and the identifier.
pub open spec fn tenant_words(id: TenantId) -> Seq<char> {
    "tenant="@ + uuid_text_of(id.value)
}

fn tenant_text(id: TenantId) -> (r: String)
    ensures
        r@ == tenant_words(id),
{
    let text: String = uuid_text(id.value);
    join2("tenant=", text.as_str())
}

/// What comes next in listing the children of a tenant.
pub open spec fn list_children_rule(
    requesting: TenantId,
    listed: Stored<Vec<Tenant>>,
    r: TenantStep<Vec<Tenant>>,
) -> bool {
    match listed {
        None => r == TenantStep::<Vec<Tenant>>::Call(
            TenantCall::ListChildren { parent: requesting },
        ),
        Some(Ok(v)) => r == TenantStep::Done(Ok(v)),
        Some(Err(e)) => r matches TenantStep::Done(Err(x)) && is_internal(x, e),
    }
}

/// What comes next in listing one page of the children of a tenant.
pub open spec fn children_page_rule(
    requesting: TenantId,
    limit: Option<i64>,
    offset: Option<i64>,
    listed: Stored<(Vec<Tenant>, i64)>,
    r: TenantStep<TenantPage>,
) -> bool {
    match listed {
        None => r == TenantStep::<TenantPage>::Call(
            TenantCall::ListChildrenPage {
                parent: requesting,
                limit: clamped(limit),
                offset: offset_of(offset),
            },
        ),
        Some(Ok((items, total))) => r matches TenantStep::Done(Ok(page)) && page.items
            == items && page.total == total && page.limit == clamped(limit) && page.offset
            == offset_of(offset),
        Some(Err(e)) => r matches TenantStep::Done(Err(x)) && is_internal(x, e),
    }
}

/// What comes next in showing a child.
pub open spec fn get_child_rule(
    requesting: TenantId,
    child_id: TenantId,
    p: TenantProgress,
    r: TenantStep<Tenant>,
) -> bool {
    exists|c: Option<TenantStep<Tenant>>| #[trigger]
        child_rule(requesting, child_id, p.found, c) && match c {
            Some(step) => r == step,
            None => r == TenantStep::<Tenant>::Done(Ok(tenant_at(p))),
        }
}

/// What comes next in showing the tenant at hand.
pub open spec fn get_current_rule(
    current: TenantId,
    p: TenantProgress,
    r: TenantStep<Tenant>,
) -> bool {
    match p.found {
        None => r == TenantStep::<Tenant>::Call(
            TenantCall::FindTenant { id: current },
        ),
        Some(Err(e)) => r matches TenantStep::Done(Err(x)) && is_internal(x, e),
        Some(Ok(None)) => r == TenantStep::<Tenant>::Done(
            Err(TenantManagementError::NotFound),
        ),
        Some(Ok(Some(t))) => r == TenantStep::<Tenant>::Done(Ok(t)),
    }
}

/// What comes next in listing the domains of the tenant at hand or a child of it.
pub open spec fn list_domains_rule(
    requesting: TenantId,
    target_id: TenantId,
    found: Stored<Option<Tenant>>,
    listed: Stored<Vec<TenantDomain>>,
    r: TenantStep<Vec<TenantDomain>>,
) -> bool {
    exists|c: Option<TenantStep<Vec<TenantDomain>>>| #[trigger]
        self_or_child_rule(requesting, target_id, found, c) && match c {
            Some(step) => r == step,
            None => match listed {
                None => r == TenantStep::<Vec<TenantDomain>>::Call(
                    TenantCall::ListDomains { tenant_id: found->0->Ok_0->0.id },
                ),
                Some(Err(e)) => r matches TenantStep::Done(Err(x)) && is_internal(x, e),
                Some(Ok(v)) => r == TenantStep::Done(Ok(v)),
            },
        }
}

impl TenantManagementService {
    pub fn new() -> (r: Self)
        ensures
            r == (TenantManagementService {  }),
    {
        TenantManagementService {  }
    }

    /// A new tenant: a child of the one at hand, active, and closed to self-registration.
    pub open spec fn is_new_tenant(
        t: Tenant,
        requesting: TenantId,
        name: Seq<char>,
        id: TenantId,
        now: Timestamp,
    ) -> bool {
        &&& t.id == id
        &&& t.parent_tenant_id == Some(requesting)
        &&& t.name@ == trimmed(name)
        &&& t.accent_color is None
        &&& t.status == TenantStatus::Active
        &&& !t.self_registration_enabled
        &&& t.created_at == now
        &&& t.updated_at == now
    }

    /// What comes next in creating a tenant: its creator, who must be a user, becomes its first
    /// administrator.
    pub open spec fn create_rule(
        requesting: TenantId,
        cmd: CreateTenantCommand,
        actor: AdminActor,
        id: TenantId,
        now: Timestamp,
        p: TenantProgress,
        r: TenantStep<Tenant>,
    ) -> bool {
        if trimmed(cmd.name@).len() == 0 {
            r matches TenantStep::Done(Err(e)) && is_validation(e, "api-tenant-name-empty"@)
        } else {
            match actor.user_id_of() {
                None => r matches TenantStep::Done(Err(e)) && is_forbidden(
                    e,
                    "api-tenant-create-requires-user-actor"@,
                ),
                Some(creator) => match p.provisioned {
                    None => r matches TenantStep::Call(
                        TenantCall::Provision { tenant, guest, permission, now: at },
                    ) && Self::is_new_tenant(tenant, requesting, cmd.name@, id, now) && guest
                        == creator && permission@ == TENANT_ADMIN_PERMISSION@ && at == now,
                    Some(Err(e)) => r matches TenantStep::Done(Err(x)) && is_conflict_or_internal(
                        x,
                        e,
                        "api-tenant-create-conflict"@,
                    ),
                    Some(Ok(_)) => audited_rule(
                        AuditEventType::TenantCreated,
                        id,
                        actor,
                        tenant_words(id) + " bootstrap_admin="@ + uuid_text_of(creator.value),
                        p.audits,
                        |t: Tenant| Self::is_new_tenant(t, requesting, cmd.name@, id, now),
                        r,
                    ),
                },
            }
        }
    }

    /// Decides what comes next in creating a tenant.
    pub fn create_tenant(
        &self,
        requesting: &TenantContext,
        cmd: &CreateTenantCommand,
        actor: &AdminActor,
        id: TenantId,
        now: Timestamp,
        p: &TenantProgress,
    ) -> (r: TenantStep<Tenant>)
        ensures
            Self::create_rule(requesting.tenant_id, *cmd, *actor, id, now, *p, r),
    {
        let name: String = match validate_name(cmd.name.as_str()) {
            Ok(name) => name,
            Err(e) => return TenantStep::Done(Err(e)),
        };
        let creator: Uuid = match actor.user_id() {
            None => return TenantStep::Done(
                Err(
                    TenantManagementError::Forbidden(
                        MessageKey::new("api-tenant-create-requires-user-actor"),
                    ),
                ),
            ),
            Some(creator) => creator,
        };
        let tenant = Tenant {
            id,
            parent_tenant_id: Some(requesting.tenant_id),
            name,
            accent_color: None,
            status: TenantStatus::Active,
            self_registration_enabled: false,
            created_at: now,
            updated_at: now,
        };
        match &p.provisioned {
            None => return TenantStep::Call(
                TenantCall::Provision {
                    tenant,
                    guest: creator,
                    permission: TENANT_ADMIN_PERMISSION.to_owned(),
                    now,
                },
            ),
            Some(Err(e)) => return TenantStep::Done(
                Err(conflict_or_internal(e, "api-tenant-create-conflict")),
            ),
            Some(Ok(_)) => {},
        }
        if p.audits == 0 {
            let mut words: String = tenant_text(id);
            words.append(" bootstrap_admin=");
            let who: String = uuid_text(creator.value);
            words.append(who.as_str());
            return TenantStep::Call(
                TenantCall::Audit(admin_audit(AuditEventType::TenantCreated, id, actor, words)),
            );
        }
        TenantStep::Done(Ok(tenant))
    }

    /// Decides what comes next in listing the children of the tenant at hand.
    pub fn list_children(&self, requesting: &TenantContext, listed: Stored<Vec<Tenant>>) -> (r:
        TenantStep<Vec<Tenant>>)
        ensures
            list_children_rule(requesting.tenant_id, listed, r),
    {
        match listed {
            None => TenantStep::Call(TenantCall::ListChildren { parent: requesting.tenant_id }),
            Some(Ok(v)) => TenantStep::Done(Ok(v)),
            Some(Err(e)) => TenantStep::Done(Err(internal(&e))),
        }
    }

    /// The limit and the offset that are applied to a page.
    pub fn page_request(&self, limit: Option<i64>, offset: Option<i64>) -> (r: (i64, i64))
        ensures
            r.0 == clamped(limit),
            r.1 == offset_of(offset),
            1 <= r.0 <= MAX_PAGE_LIMIT,
            r.1 >= 0,
    {
        (clamp_limit(limit), clamp_offset(offset))
    }

    /// Decides what comes next in listing one page of the children; what was applied goes with it.
    pub fn list_children_page(
        &self,
        requesting: &TenantContext,
        limit: Option<i64>,
        offset: Option<i64>,
        listed: Stored<(Vec<Tenant>, i64)>,
    ) -> (r: TenantStep<TenantPage>)
        ensures
            children_page_rule(requesting.tenant_id, limit, offset, listed, r),
    {
        let (limit, offset) = self.page_request(limit, offset);
        match listed {
            None => TenantStep::Call(
                TenantCall::ListChildrenPage { parent: requesting.tenant_id, limit, offset },
            ),
            Some(Ok((items, total))) => TenantStep::Done(
                Ok(TenantPage { items, total, limit, offset }),
            ),
            Some(Err(e)) => TenantStep::Done(Err(internal(&e))),
        }
    }

    /// Decides what comes next in getting at a child.
    pub fn load_child<T>(
        &self,
        requesting: &TenantContext,
        child_id: TenantId,
        found: &Stored<Option<Tenant>>,
    ) -> (r: Option<TenantStep<T>>)
        ensures
            child_rule(requesting.tenant_id, child_id, *found, r),
    {
        match found {
            None => Some(TenantStep::Call(TenantCall::FindTenant { id: child_id })),
            Some(Err(e)) => Some(TenantStep::Done(Err(internal(e)))),
            Some(Ok(Some(t))) => {
                let own: bool = match t.parent_tenant_id {
                    Some(parent) => parent == requesting.tenant_id,
                    None => false,
                };
                if own {
                    None
                } else {
                    Some(TenantStep::Done(Err(TenantManagementError::NotFound)))
                }
            },
            Some(Ok(None)) => Some(TenantStep::Done(Err(TenantManagementError::NotFound))),
        }
    }

    /// Decides what comes next in getting at the tenant at hand or a child of it.
    pub fn load_self_or_child<T>(
        &self,
        requesting: &TenantContext,
        target_id: TenantId,
        found: &Stored<Option<Tenant>>,
    ) -> (r: Option<TenantStep<T>>)
        ensures
            self_or_child_rule(requesting.tenant_id, target_id, *found, r),
    {
        if target_id != requesting.tenant_id {
            return self.load_child(requesting, target_id, found);
        }
        match found {
            None => Some(TenantStep::Call(TenantCall::FindTenant { id: target_id })),
            Some(Err(e)) => Some(TenantStep::Done(Err(internal(e)))),
            Some(Ok(Some(_))) => None,
            Some(Ok(None)) => Some(TenantStep::Done(Err(TenantManagementError::NotFound))),
        }
    }

    /// Decides what comes next in showing a child.
    pub fn get_child(
        &self,
        requesting: &TenantContext,
        child_id: TenantId,
        p: &TenantProgress,
    ) -> (r: TenantStep<Tenant>)
        ensures
            get_child_rule(requesting.tenant_id, child_id, *p, r),
    {
        let c: Option<TenantStep<Tenant>> = self.load_child(requesting, child_id, &p.found);
        proof {
            assert(child_rule(requesting.tenant_id, child_id, p.found, c));
        }
        match (c, &p.found) {
            (Some(step), _) => step,
            (None, Some(Ok(Some(t)))) => TenantStep::Done(Ok(t.clone())),
            (None, _) => TenantStep::Done(Err(TenantManagementError::NotFound)),
        }
    }

    /// What a child is after an update.
    pub open spec fn is_updated(t: Tenant, before: Tenant, cmd: UpdateTenantCommand) -> bool {
        &&& t.id == before.id
        &&& t.parent_tenant_id == before.parent_tenant_id
        &&& t.name@ == match cmd.name {
            Some(n) => trimmed(n@),
            None => before.name@,
        }
        &&& t.accent_color == before.accent_color
        &&& t.status == match cmd.status {
            Some(s) => s,
            None => before.status,
        }
        &&& t.self_registration_enabled == before.self_registration_enabled
        &&& t.created_at == before.created_at
        &&& t.updated_at == before.updated_at
    }

    /// What comes next in updating a child.
    pub open spec fn update_rule(
        requesting: TenantId,
        child_id: TenantId,
        cmd: UpdateTenantCommand,
        actor: AdminActor,
        p: TenantProgress,
        r: TenantStep<Tenant>,
    ) -> bool {
        exists|c: Option<TenantStep<Tenant>>| #[trigger]
            child_rule(requesting, child_id, p.found, c) && match c {
                Some(step) => r == step,
                None => if cmd.name is Some && trimmed(cmd.name->0@).len() == 0 {
                    r matches TenantStep::Done(Err(e)) && is_validation(e, "api-tenant-name-empty"@)
                } else {
                    match p.updated {
                        None => r matches TenantStep::Call(TenantCall::UpdateTenant(t))
                            && Self::is_updated(t, tenant_at(p), cmd),
                        Some(Err(e)) => r matches TenantStep::Done(Err(x)) && is_internal(x, e),
                        Some(Ok(_)) => audited_rule(
                            AuditEventType::TenantUpdated,
                            tenant_at(p).id,
                            actor,
                            tenant_words(tenant_at(p).id),
                            p.audits,
                            |t: Tenant| Self::is_updated(t, tenant_at(p), cmd),
                            r,
                        ),
                    }
                },
            }
    }

    /// Decides what comes next in updating a child.
    pub fn update_tenant(
        &self,
        requesting: &TenantContext,
        child_id: TenantId,
        cmd: &UpdateTenantCommand,
        actor: &AdminActor,
        p: &TenantProgress,
    ) -> (r: TenantStep<Tenant>)
        ensures
            Self::update_rule(requesting.tenant_id, child_id, *cmd, *actor, *p, r),
    {
        let c: Option<TenantStep<Tenant>> = self.load_child(requesting, child_id, &p.found);
        proof {
            assert(child_rule(requesting.tenant_id, child_id, p.found, c));
        }
        if let Some(step) = c {
            return step;
        }
        let mut tenant: Tenant = match &p.found {
            Some(Ok(Some(t))) => t.clone(),
            _ => return TenantStep::Done(Err(TenantManagementError::NotFound)),
        };
        if let Some(name) = &cmd.name {
            match validate_name(name.as_str()) {
                Ok(name) => tenant.name = name,
                Err(e) => return TenantStep::Done(Err(e)),
            }
        }
        if let Some(status) = cmd.status {
            tenant.status = status;
        }
        match &p.updated {
            None => return TenantStep::Call(TenantCall::UpdateTenant(tenant)),
            Some(Err(e)) => return TenantStep::Done(Err(internal(e))),
            Some(Ok(_)) => {},
        }
        if p.audits == 0 {
            return TenantStep::Call(
                TenantCall::Audit(
                    admin_audit(
                        AuditEventType::TenantUpdated,
                        tenant.id,
                        actor,
                        tenant_text(tenant.id),
                    ),
                ),
            );
        }
        TenantStep::Done(Ok(tenant))
    }

    /// Decides what comes next in showing the tenant at hand.
    pub fn get_current(&self, current: &TenantContext, p: &TenantProgress) -> (r: TenantStep<Tenant>)
        ensures
            get_current_rule(current.tenant_id, *p, r),
    {
        match &p.found {
            None => TenantStep::Call(TenantCall::FindTenant { id: current.tenant_id }),
            Some(Err(e)) => TenantStep::Done(Err(internal(e))),
            Some(Ok(None)) => TenantStep::Done(Err(TenantManagementError::NotFound)),
            Some(Ok(Some(t))) => TenantStep::Done(Ok(t.clone())),
        }
    }

    /// What a tenant is after its own settings were updated.
    pub open spec fn has_settings(
        t: Tenant,
        before: Tenant,
        cmd: UpdateSettingsCommand,
        accent: Option<String>,
    ) -> bool {
        &&& t.id == before.id
        &&& t.parent_tenant_id == before.parent_tenant_id
        &&& t.name@ == trimmed(cmd.name@)
        &&& t.accent_color == match cmd.accent_color {
            Some(_) => accent,
            None => before.accent_color,
        }
        &&& t.status == before.status
        &&& t.self_registration_enabled == match cmd.self_registration_enabled {
            Some(enabled) => enabled,
            None => before.self_registration_enabled,
        }
        &&& t.created_at == before.created_at
        &&& t.updated_at == before.updated_at
    }

    /// What comes next in updating a tenant's own settings.
    pub open spec fn settings_rule(
        current: TenantId,
        cmd: UpdateSettingsCommand,
        actor: AdminActor,
        p: TenantProgress,
        r: TenantStep<Tenant>,
    ) -> bool {
        match p.found {
            None => r == TenantStep::<Tenant>::Call(TenantCall::FindTenant { id: current }),
            Some(Err(e)) => r matches TenantStep::Done(Err(x)) && is_internal(x, e),
            Some(Ok(None)) => r == TenantStep::<Tenant>::Done(Err(TenantManagementError::NotFound)),
            Some(Ok(Some(before))) => if trimmed(cmd.name@).len() == 0 {
                r matches TenantStep::Done(Err(e)) && is_validation(e, "api-tenant-name-empty"@)
            } else if cmd.accent_color is Some && p.accent is None {
                r == TenantStep::<Tenant>::Call(TenantCall::ParseAccent { raw: cmd.accent_color->0 })
            } else if cmd.accent_color is Some && p.accent->0 is Err {
                r == TenantStep::<Tenant>::Done(
                    Err(TenantManagementError::Validation(p.accent->0->Err_0)),
                )
            } else {
                match p.updated {
                    None => r matches TenantStep::Call(TenantCall::UpdateTenant(t))
                        && Self::has_settings(t, before, cmd, p.accent->0->Ok_0),
                    Some(Err(e)) => r matches TenantStep::Done(Err(x)) && is_internal(x, e),
                    Some(Ok(_)) => audited_rule(
                        AuditEventType::TenantUpdated,
                        before.id,
                        actor,
                        tenant_words(before.id) + " (self settings)"@,
                        p.audits,
                        |t: Tenant| Self::has_settings(t, before, cmd, p.accent->0->Ok_0),
                        r,
                    ),
                }
            },
        }
    }

    /// Decides what comes next in updating a tenant's own settings.
    pub fn update_current_settings(
        &self,
        current: &TenantContext,
        cmd: &UpdateSettingsCommand,
        actor: &AdminActor,
        p: &TenantProgress,
    ) -> (r: TenantStep<Tenant>)
        ensures
            Self::settings_rule(current.tenant_id, *cmd, *actor, *p, r),
    {
        let mut tenant: Tenant = match &p.found {
            None => return TenantStep::Call(TenantCall::FindTenant { id: current.tenant_id }),
            Some(Err(e)) => return TenantStep::Done(Err(internal(e))),
            Some(Ok(None)) => return TenantStep::Done(Err(TenantManagementError::NotFound)),
            Some(Ok(Some(t))) => t.clone(),
        };
        match validate_name(cmd.name.as_str()) {
            Ok(name) => tenant.name = name,
            Err(e) => return TenantStep::Done(Err(e)),
        }
        if let Some(raw) = &cmd.accent_color {
            match &p.accent {
                None => return TenantStep::Call(TenantCall::ParseAccent { raw: raw.clone() }),
                Some(Err(k)) => return TenantStep::Done(
                    Err(TenantManagementError::Validation(k.clone())),
                ),
                Some(Ok(color)) => tenant.accent_color = color.clone(),
            }
        }
        if let Some(enabled) = cmd.self_registration_enabled {
            tenant.self_registration_enabled = enabled;
        }
        match &p.updated {
            None => return TenantStep::Call(TenantCall::UpdateTenant(tenant)),
            Some(Err(e)) => return TenantStep::Done(Err(internal(e))),
            Some(Ok(_)) => {},
        }
        if p.audits == 0 {
            let mut words: String = tenant_text(tenant.id);
            words.append(" (self settings)");
            return TenantStep::Call(
                TenantCall::Audit(
                    admin_audit(AuditEventType::TenantUpdated, tenant.id, actor, words),
                ),
            );
        }
        TenantStep::Done(Ok(tenant))
    }

    /// What comes next in removing a child: it may not be the root, and may have no children.
    pub open spec fn delete_rule(
        requesting: TenantId,
        child_id: TenantId,
        actor: AdminActor,
        p: TenantProgress,
        r: TenantStep<()>,
    ) -> bool {
        exists|c: Option<TenantStep<()>>| #[trigger]
            child_rule(requesting, child_id, p.found, c) && match c {
                Some(step) => r == step,
                None => if tenant_at(p).parent_tenant_id is None {
                    r matches TenantStep::Done(Err(e)) && is_forbidden(
                        e,
                        "api-tenant-root-cannot-delete"@,
                    )
                } else {
                    match p.children {
                        None => r == TenantStep::<()>::Call(
                            TenantCall::ListChildren { parent: tenant_at(p).id },
                        ),
                        Some(Err(e)) => r matches TenantStep::Done(Err(x)) && is_internal(x, e),
                        Some(Ok(children)) => if children@.len() > 0 {
                            r matches TenantStep::Done(Err(e)) && is_conflict(
                                e,
                                "api-tenant-has-children"@,
                            )
                        } else {
                            match p.deleted {
                                None => r == TenantStep::<()>::Call(
                                    TenantCall::DeleteTenant { id: tenant_at(p).id },
                                ),
                                Some(Err(e)) => r matches TenantStep::Done(Err(x))
                                    && is_conflict_or_internal(x, e, "api-tenant-has-dependents"@),
                                Some(Ok(_)) => audited_rule(
                                    AuditEventType::TenantDeleted,
                                    tenant_at(p).id,
                                    actor,
                                    tenant_words(tenant_at(p).id),
                                    p.audits,
                                    |u: ()| true,
                                    r,
                                ),
                            }
                        },
                    }
                },
            }
    }

    /// Decides what comes next in removing a child.
    pub fn delete_tenant(
        &self,
        requesting: &TenantContext,
        child_id: TenantId,
        actor: &AdminActor,
        p: &TenantProgress,
    ) -> (r: TenantStep<()>)
        ensures
            Self::delete_rule(requesting.tenant_id, child_id, *actor, *p, r),
    {
        let c: Option<TenantStep<()>> = self.load_child(requesting, child_id, &p.found);
        proof {
            assert(child_rule(requesting.tenant_id, child_id, p.found, c));
        }
        if let Some(step) = c {
            return step;
        }
        let tenant: &Tenant = match &p.found {
            Some(Ok(Some(t))) => t,
            _ => return TenantStep::Done(Err(TenantManagementError::NotFound)),
        };
        if tenant.is_root() {
            return TenantStep::Done(
                Err(
                    TenantManagementError::Forbidden(
                        MessageKey::new("api-tenant-root-cannot-delete"),
                    ),
                ),
            );
        }
        match &p.children {
            None => return TenantStep::Call(TenantCall::ListChildren { parent: tenant.id }),
            Some(Err(e)) => return TenantStep::Done(Err(internal(e))),
            Some(Ok(children)) => if children.len() > 0 {
                return TenantStep::Done(
                    Err(TenantManagementError::Conflict(MessageKey::new("api-tenant-has-children"))),
                );
            },
        }
        match &p.deleted {
            None => return TenantStep::Call(TenantCall::DeleteTenant { id: tenant.id }),
            Some(Err(e)) => return TenantStep::Done(
                Err(conflict_or_internal(e, "api-tenant-has-dependents")),
            ),
            Some(Ok(_)) => {},
        }
        if p.audits == 0 {
            return TenantStep::Call(
                TenantCall::Audit(
                    admin_audit(
                        AuditEventType::TenantDeleted,
                        tenant.id,
                        actor,
                        tenant_text(tenant.id),
                    ),
                ),
            );
        }
        TenantStep::Done(Ok(()))
    }

    /// Decides what comes next in listing the domains of the tenant at hand or a child of it.
    pub fn list_domains(
        &self,
        requesting: &TenantContext,
        target_id: TenantId,
        found: &Stored<Option<Tenant>>,
        listed: Stored<Vec<TenantDomain>>,
    ) -> (r: TenantStep<Vec<TenantDomain>>)
        ensures
            list_domains_rule(requesting.tenant_id, target_id, *found, listed, r),
    {
        let c: Option<TenantStep<Vec<TenantDomain>>> = self.load_self_or_child(
            requesting,
            target_id,
            found,
        );
        proof {
            assert(self_or_child_rule(requesting.tenant_id, target_id, *found, c));
        }
        if let Some(step) = c {
            return step;
        }
        let tenant_id: TenantId = match found {
            Some(Ok(Some(t))) => t.id,
            _ => return TenantStep::Done(Err(TenantManagementError::NotFound)),
        };
        match listed {
            None => TenantStep::Call(TenantCall::ListDomains { tenant_id }),
            Some(Err(e)) => TenantStep::Done(Err(internal(&e))),
            Some(Ok(v)) => TenantStep::Done(Ok(v)),
        }
    }

    /// A domain as it is assigned.
    pub open spec fn is_new_domain(
        d: TenantDomain,
        tenant_id: TenantId,
        domain: String,
        id: Uuid,
        now: Timestamp,
    ) -> bool {
        d == (TenantDomain { id, tenant_id, domain, created_at: now, updated_at: now })
    }

    /// What comes next in assigning a domain. It is answered that the domain is taken, but not by
    /// whom.
    pub open spec fn add_domain_rule(
        requesting: TenantId,
        target_id: TenantId,
        raw_domain: Seq<char>,
        actor: AdminActor,
        id: Uuid,
        now: Timestamp,
        p: TenantProgress,
        r: TenantStep<TenantDomain>,
    ) -> bool {
        exists|c: Option<TenantStep<TenantDomain>>| #[trigger]
            self_or_child_rule(requesting, target_id, p.found, c) && match c {
                Some(step) => r == step,
                None => match p.domain {
                    None => r matches TenantStep::Call(TenantCall::ValidateDomain { raw }) && raw@
                        == raw_domain,
                    Some(Err(k)) => r == TenantStep::<TenantDomain>::Done(
                        Err(TenantManagementError::Validation(k)),
                    ),
                    Some(Ok(domain)) => match p.domain_created {
                        None => r matches TenantStep::Call(TenantCall::CreateDomain(d))
                            && Self::is_new_domain(d, tenant_at(p).id, domain, id, now),
                        Some(Err(e)) => r matches TenantStep::Done(Err(x))
                            && is_conflict_or_internal(x, e, "api-tenant-domain-conflict"@),
                        Some(Ok(_)) => audited_rule(
                            AuditEventType::TenantDomainAdded,
                            tenant_at(p).id,
                            actor,
                            "domain="@ + domain@,
                            p.audits,
                            |d: TenantDomain|
                                Self::is_new_domain(d, tenant_at(p).id, domain, id, now),
                            r,
                        ),
                    },
                },
            }
    }

    /// Decides what comes next in assigning a domain.
    pub fn add_domain(
        &self,
        requesting: &TenantContext,
        target_id: TenantId,
        raw_domain: &str,
        actor: &AdminActor,
        id: Uuid,
        now: Timestamp,
        p: &TenantProgress,
    ) -> (r: TenantStep<TenantDomain>)
        ensures
            Self::add_domain_rule(
                requesting.tenant_id,
                target_id,
                raw_domain@,
                *actor,
                id,
                now,
                *p,
                r,
            ),
    {
        let c: Option<TenantStep<TenantDomain>> = self.load_self_or_child(
            requesting,
            target_id,
            &p.found,
        );
        proof {
            assert(self_or_child_rule(requesting.tenant_id, target_id, p.found, c));
        }
        if let Some(step) = c {
            return step;
        }
        let tenant_id: TenantId = match &p.found {
            Some(Ok(Some(t))) => t.id,
            _ => return TenantStep::Done(Err(TenantManagementError::NotFound)),
        };
        let domain: &String = match &p.domain {
            None => return TenantStep::Call(
                TenantCall::ValidateDomain { raw: raw_domain.to_owned() },
            ),
            Some(Err(k)) => return TenantStep::Done(
                Err(TenantManagementError::Validation(k.clone())),
            ),
            Some(Ok(domain)) => domain,
        };
        let record = TenantDomain {
            id,
            tenant_id,
            domain: domain.clone(),
            created_at: now,
            updated_at: now,
        };
        match &p.domain_created {
            None => return TenantStep::Call(TenantCall::CreateDomain(record)),
            Some(Err(e)) => return TenantStep::Done(
                Err(conflict_or_internal(e, "api-tenant-domain-conflict")),
            ),
            Some(Ok(_)) => {},
        }
        if p.audits == 0 {
            return TenantStep::Call(
                TenantCall::Audit(
                    admin_audit(
                        AuditEventType::TenantDomainAdded,
                        tenant_id,
                        actor,
                        join2("domain=", domain.as_str()),
                    ),
                ),
            );
        }
        TenantStep::Done(Ok(record))
    }

    /// The first domain of this identifier.
    pub open spec fn domain_at(domains: Seq<TenantDomain>, id: Uuid, n: nat) -> Option<int>
        decreases n,
    {
        if n == 0 || n > domains.len() {
            None
        } else {
            match Self::domain_at(domains, id, (n - 1) as nat) {
                Some(i) => Some(i),
                None => if domains[n - 1].id == id {
                    Some(n - 1)
                } else {
                    None
                },
            }
        }
    }

    fn find_domain(&self, domains: &Vec<TenantDomain>, id: Uuid) -> (r: Option<usize>)
        ensures
            match r {
                Some(i) => Self::domain_at(domains@, id, domains@.len()) == Some(i as int) && i
                    < domains@.len(),
                None => Self::domain_at(domains@, id, domains@.len()) is None,
            },
    {
        let mut found: Option<usize> = None;
        let mut i: usize = 0;
        while i < domains.len()
            invariant
                i <= domains.len(),
                match found {
                    Some(f) => Self::domain_at(domains@, id, i as nat) == Some(f as int) && f < i,
                    None => Self::domain_at(domains@, id, i as nat) is None,
                },
            decreases domains.len() - i,
        {
            if found.is_none() && domains[i].id == id {
                found = Some(i);
            }
            i = i + 1;
        }
        found
    }

    /// What comes next in taking a domain away: what it was is looked up before it is gone.
    pub open spec fn remove_domain_rule(
        requesting: TenantId,
        target_id: TenantId,
        domain_id: Uuid,
        actor: AdminActor,
        p: TenantProgress,
        r: TenantStep<()>,
    ) -> bool {
        exists|c: Option<TenantStep<()>>| #[trigger]
            self_or_child_rule(requesting, target_id, p.found, c) && match c {
                Some(step) => r == step,
                None => match p.domains {
                    None => r == TenantStep::<()>::Call(
                        TenantCall::ListDomains { tenant_id: tenant_at(p).id },
                    ),
                    Some(Err(e)) => r matches TenantStep::Done(Err(x)) && is_internal(x, e),
                    Some(Ok(domains)) => match Self::domain_at(domains@, domain_id, domains@.len()) {
                        None => r == TenantStep::<()>::Done(Err(TenantManagementError::NotFound)),
                        Some(i) => match p.domain_deleted {
                            None => r == TenantStep::<()>::Call(
                                TenantCall::DeleteDomain { tenant_id: tenant_at(p).id, domain_id },
                            ),
                            Some(Err(e)) => r matches TenantStep::Done(Err(x)) && is_internal(x, e),
                            Some(Ok(false)) => r == TenantStep::<()>::Done(
                                Err(TenantManagementError::NotFound),
                            ),
                            Some(Ok(true)) => audited_rule(
                                AuditEventType::TenantDomainRemoved,
                                tenant_at(p).id,
                                actor,
                                "domain="@ + domains@[i].domain@,
                                p.audits,
                                |u: ()| true,
                                r,
                            ),
                        },
                    },
                },
            }
    }

    /// Decides what comes next in taking a domain away.
    pub fn remove_domain(
        &self,
        requesting: &TenantContext,
        target_id: TenantId,
        domain_id: Uuid,
        actor: &AdminActor,
        p: &TenantProgress,
    ) -> (r: TenantStep<()>)
        ensures
            Self::remove_domain_rule(requesting.tenant_id, target_id, domain_id, *actor, *p, r),
    {
        let c: Option<TenantStep<()>> = self.load_self_or_child(requesting, target_id, &p.found);
        proof {
            assert(self_or_child_rule(requesting.tenant_id, target_id, p.found, c));
        }
        if let Some(step) = c {
            return step;
        }
        let tenant_id: TenantId = match &p.found {
            Some(Ok(Some(t))) => t.id,
            _ => return TenantStep::Done(Err(TenantManagementError::NotFound)),
        };
        let domains: &Vec<TenantDomain> = match &p.domains {
            None => return TenantStep::Call(TenantCall::ListDomains { tenant_id }),
            Some(Err(e)) => return TenantStep::Done(Err(internal(e))),
            Some(Ok(domains)) => domains,
        };
        let i: usize = match self.find_domain(domains, domain_id) {
            None => return TenantStep::Done(Err(TenantManagementError::NotFound)),
            Some(i) => i,
        };
        match &p.domain_deleted {
            None => return TenantStep::Call(TenantCall::DeleteDomain { tenant_id, domain_id }),
            Some(Err(e)) => return TenantStep::Done(Err(internal(e))),
            Some(Ok(deleted)) => if !*deleted {
                return TenantStep::Done(Err(TenantManagementError::NotFound));
            },
        }
        if p.audits == 0 {
            return TenantStep::Call(
                TenantCall::Audit(
                    admin_audit(
                        AuditEventType::TenantDomainRemoved,
                        tenant_id,
                        actor,
                        join2("domain=", domains[i].domain.as_str()),
                    ),
                ),
            );
        }
        TenantStep::Done(Ok(()))
    }
}

/// A tenant is changed or removed only by the administration of the tenant directly above it.
pub proof fn changes_stay_with_direct_children(
    requesting: TenantId,
    child_id: TenantId,
    cmd: UpdateTenantCommand,
    actor: AdminActor,
    p: TenantProgress,
    updated: TenantStep<Tenant>,
    deleted: TenantStep<()>,
)
    requires
        TenantManagementService::update_rule(requesting, child_id, cmd, actor, p, updated),
        TenantManagementService::delete_rule(requesting, child_id, actor, p, deleted),
    ensures
        (updated matches TenantStep::Call(TenantCall::UpdateTenant(_))) ==> (p.found matches Some(
            Ok(Some(t)),
        ) && t.parent_tenant_id == Some(requesting)),
        (deleted matches TenantStep::Call(TenantCall::DeleteTenant { .. })) ==> (p.found matches Some(
            Ok(Some(t)),
        ) && t.parent_tenant_id == Some(requesting)),
{
}

/// A tenant with children is not removed.
pub proof fn a_tenant_with_children_stays(
    requesting: TenantId,
    child_id: TenantId,
    actor: AdminActor,
    p: TenantProgress,
    r: TenantStep<()>,
)
    requires
        TenantManagementService::delete_rule(requesting, child_id, actor, p, r),
        p.children matches Some(Ok(c)) && c@.len() > 0,
    ensures
        !(r matches TenantStep::Call(TenantCall::DeleteTenant { .. })),
        !(r matches TenantStep::Done(Ok(_))),
{
}

/// A tenant that could not be stored is not audited as created, and not returned.
pub proof fn a_failed_creation_leaves_no_trace(
    requesting: TenantId,
    cmd: CreateTenantCommand,
    actor: AdminActor,
    id: TenantId,
    now: Timestamp,
    p: TenantProgress,
    r: TenantStep<Tenant>,
)
    requires
        TenantManagementService::create_rule(requesting, cmd, actor, id, now, p, r),
        !(p.provisioned matches Some(Ok(_))),
    ensures
        !(r matches TenantStep::Call(TenantCall::Audit(_))),
        !(r matches TenantStep::Done(Ok(_))),
{
}

/// A page size that was asked for is applied within its bounds.
pub proof fn page_sizes_are_bounded(limit: Option<i64>)
    ensures
        1 <= clamped(limit) <= MAX_PAGE_LIMIT,
        limit is None ==> clamped(limit) == DEFAULT_PAGE_LIMIT,
        limit matches Some(l) ==> (1 <= l <= MAX_PAGE_LIMIT ==> clamped(limit) == l),
{
}

impl TenantProgress {
    /// The call `call` asks for something that is not known yet.
    pub open spec fn lacks_answer_to(self, call: TenantCall) -> bool {
        match call {
            TenantCall::FindTenant { .. } => self.found is None,
            TenantCall::Provision { .. } => self.provisioned is None,
            TenantCall::ParseAccent { .. } => self.accent is None,
            TenantCall::UpdateTenant(_) => self.updated is None,
            TenantCall::ListChildren { .. } => self.children is None,
            TenantCall::ListChildrenPage { .. } => true,
            TenantCall::DeleteTenant { .. } => self.deleted is None,
            TenantCall::ValidateDomain { .. } => self.domain is None,
            TenantCall::CreateDomain(_) => self.domain_created is None,
            TenantCall::ListDomains { .. } => self.domains is None,
            TenantCall::DeleteDomain { .. } => self.domain_deleted is None,
            TenantCall::Audit(_) => self.audits < 1,
        }
    }
}

/// Nothing is asked for that is known already: every call that comes next fills a gap.
pub proof fn a_creation_asks_nothing_twice(
    requesting: TenantId,
    cmd: CreateTenantCommand,
    actor: AdminActor,
    id: TenantId,
    now: Timestamp,
    p: TenantProgress,
    r: TenantStep<Tenant>,
)
    requires
        TenantManagementService::create_rule(requesting, cmd, actor, id, now, p, r),
    ensures
        r matches TenantStep::Call(c) ==> p.lacks_answer_to(c),
{
}

/// Nothing is asked for that is known already: every call that comes next fills a gap.
pub proof fn an_update_asks_nothing_twice(
    requesting: TenantId,
    child_id: TenantId,
    cmd: UpdateTenantCommand,
    actor: AdminActor,
    p: TenantProgress,
    r: TenantStep<Tenant>,
)
    requires
        TenantManagementService::update_rule(requesting, child_id, cmd, actor, p, r),
    ensures
        r matches TenantStep::Call(c) ==> p.lacks_answer_to(c),
{
}

/// Nothing is asked for that is known already: every call that comes next fills a gap.
pub proof fn own_settings_ask_nothing_twice(
    current: TenantId,
    cmd: UpdateSettingsCommand,
    actor: AdminActor,
    p: TenantProgress,
    r: TenantStep<Tenant>,
)
    requires
        TenantManagementService::settings_rule(current, cmd, actor, p, r),
    ensures
        r matches TenantStep::Call(c) ==> p.lacks_answer_to(c),
{
}

/// Nothing is asked for that is known already: every call that comes next fills a gap.
pub proof fn a_deletion_asks_nothing_twice(
    requesting: TenantId,
    child_id: TenantId,
    actor: AdminActor,
    p: TenantProgress,
    r: TenantStep<()>,
)
    requires
        TenantManagementService::delete_rule(requesting, child_id, actor, p, r),
    ensures
        r matches TenantStep::Call(c) ==> p.lacks_answer_to(c),
{
}

/// Nothing is asked for that is known already: every call that comes next fills a gap.
pub proof fn adding_a_domain_asks_nothing_twice(
    requesting: TenantId,
    target_id: TenantId,
    raw_domain: Seq<char>,
    actor: AdminActor,
    id: Uuid,
    now: Timestamp,
    p: TenantProgress,
    r: TenantStep<TenantDomain>,
)
    requires
        TenantManagementService::add_domain_rule(requesting, target_id, raw_domain, actor, id, now, p, r),
    ensures
        r matches TenantStep::Call(c) ==> p.lacks_answer_to(c),
{
}

/// Nothing is asked for that is known already: every call that comes next fills a gap.
pub proof fn removing_a_domain_asks_nothing_twice(
    requesting: TenantId,
    target_id: TenantId,
    domain_id: Uuid,
    actor: AdminActor,
    p: TenantProgress,
    r: TenantStep<()>,
)
    requires
        TenantManagementService::remove_domain_rule(requesting, target_id, domain_id, actor, p, r),
    ensures
        r matches TenantStep::Call(c) ==> p.lacks_answer_to(c),
{
}

/// The entry stands in the tenant, names the user or the client that has acted, and tells of a
/// success.
pub open spec fn tells_of(a: AuditRecord, tenant_id: TenantId, actor: AdminActor) -> bool {
    &&& a.result == AuditResult::Success
    &&& a.tenant_id == Some(tenant_id)
    &&& (actor matches AdminActor::User(id) ==> a.user_id == Some(id) && a.client_id is None)
    &&& (actor matches AdminActor::Client { client_id, .. } ==> a.user_id is None && a.client_id
        == Some(client_id))
}

/// A tenant is created as it was asked for: under the tenant at hand, with the name that was given
/// without the space round it, active and closed to self-registration, and with the user who has asked
/// as its administrator; what is reported is what was stored.
pub proof fn a_tenant_is_created_as_asked(
    requesting: TenantId,
    cmd: CreateTenantCommand,
    actor: AdminActor,
    id: TenantId,
    now: Timestamp,
    p: TenantProgress,
    r: TenantStep<Tenant>,
)
    requires
        TenantManagementService::create_rule(requesting, cmd, actor, id, now, p, r),
    ensures
        match r {
            TenantStep::Call(TenantCall::Provision { tenant, guest, permission, now: at }) => tenant.id
                == id && tenant.parent_tenant_id == Some(requesting) && tenant.name@ == trimmed(
                cmd.name@,
            ) && tenant.name@.len() > 0 && tenant.accent_color is None && tenant.status
                == TenantStatus::Active && !tenant.self_registration_enabled && tenant.created_at
                == now && tenant.updated_at == now && actor == AdminActor::User(guest)
                && permission@ == "idp.tenant.admin"@ && at == now,
            TenantStep::Call(TenantCall::Audit(a)) => a.event == AuditEventType::TenantCreated
                && tells_of(a, id, actor) && (p.provisioned matches Some(Ok(_))) && (
            actor matches AdminActor::User(creator) && (a.reason matches Some(AuditReason::Words(w))
                && w@ == "tenant="@ + uuid_text_of(id.value) + " bootstrap_admin="@ + uuid_text_of(
                creator.value,
            ))),
            TenantStep::Call(_) => false,
            TenantStep::Done(Ok(tenant)) => tenant.id == id && tenant.parent_tenant_id == Some(
                requesting,
            ) && tenant.name@ == trimmed(cmd.name@) && tenant.accent_color is None && tenant.status
                == TenantStatus::Active && !tenant.self_registration_enabled && tenant.created_at
                == now && tenant.updated_at == now && (p.provisioned matches Some(Ok(_)))
                && p.audits > 0,
            TenantStep::Done(Err(TenantManagementError::Validation(_))) => trimmed(cmd.name@).len()
                == 0,
            TenantStep::Done(Err(TenantManagementError::Forbidden(_))) => actor is Client,
            TenantStep::Done(Err(TenantManagementError::Conflict(_))) => p.provisioned matches Some(
                Err(DomainError::Conflict(_)),
            ),
            TenantStep::Done(Err(TenantManagementError::Internal(_))) => p.provisioned matches Some(
                Err(_),
            ),
            TenantStep::Done(Err(TenantManagementError::NotFound)) => false,
        },
{
}

/// An update changes the child that was named, and in it no more than what was given: its name, without
/// the space round it, and its status.
pub proof fn an_update_changes_what_was_given(
    requesting: TenantId,
    child_id: TenantId,
    cmd: UpdateTenantCommand,
    actor: AdminActor,
    p: TenantProgress,
    r: TenantStep<Tenant>,
)
    requires
        TenantManagementService::update_rule(requesting, child_id, cmd, actor, p, r),
    ensures
        match r {
            TenantStep::Call(TenantCall::FindTenant { id }) => id == child_id,
            TenantStep::Call(TenantCall::UpdateTenant(t)) => p.found matches Some(Ok(Some(before)))
                && before.parent_tenant_id == Some(requesting) && t.id == before.id
                && t.parent_tenant_id == before.parent_tenant_id && t.accent_color
                == before.accent_color && t.self_registration_enabled
                == before.self_registration_enabled && t.created_at == before.created_at
                && t.updated_at == before.updated_at && (cmd.name is None ==> t.name@
                == before.name@) && (cmd.name matches Some(n) ==> t.name@ == trimmed(n@)
                && t.name@.len() > 0) && (cmd.status is None ==> t.status == before.status) && (
            cmd.status matches Some(s) ==> t.status == s),
            TenantStep::Call(TenantCall::Audit(a)) => a.event == AuditEventType::TenantUpdated && (
            p.found matches Some(Ok(Some(before))) && tells_of(a, before.id, actor)) && (
            p.updated matches Some(Ok(_))),
            TenantStep::Call(_) => false,
            TenantStep::Done(Ok(t)) => (p.found matches Some(Ok(Some(before))) && t.id == before.id
                && t.parent_tenant_id == before.parent_tenant_id && t.accent_color
                == before.accent_color && t.self_registration_enabled
                == before.self_registration_enabled && (cmd.name is None ==> t.name@
                == before.name@) && (cmd.name matches Some(n) ==> t.name@ == trimmed(n@)) && (
            cmd.status is None ==> t.status == before.status) && (cmd.status matches Some(s)
                ==> t.status == s)) && (p.updated matches Some(Ok(_))) && p.audits > 0,
            TenantStep::Done(Err(TenantManagementError::NotFound)) => p.found matches Some(Ok(found))
                && (found matches Some(t) ==> t.parent_tenant_id != Some(requesting)),
            TenantStep::Done(Err(TenantManagementError::Validation(_))) => cmd.name matches Some(n)
                && trimmed(n@).len() == 0,
            TenantStep::Done(Err(TenantManagementError::Internal(_))) => (p.found matches Some(
                Err(_),
            )) || (p.updated matches Some(Err(_))),
            TenantStep::Done(Err(_)) => false,
        },
{
}

/// A tenant's own settings change in that tenant alone, and in no more than what was given: its name,
/// its color, and whether users may register themselves; never its place or its status.
pub proof fn own_settings_change_what_was_given(
    current: TenantId,
    cmd: UpdateSettingsCommand,
    actor: AdminActor,
    p: TenantProgress,
    r: TenantStep<Tenant>,
)
    requires
        TenantManagementService::settings_rule(current, cmd, actor, p, r),
    ensures
        match r {
            TenantStep::Call(TenantCall::FindTenant { id }) => id == current,
            TenantStep::Call(TenantCall::ParseAccent { raw }) => cmd.accent_color == Some(raw),
            TenantStep::Call(TenantCall::UpdateTenant(t)) => p.found matches Some(Ok(Some(before)))
                && t.id == before.id && t.parent_tenant_id == before.parent_tenant_id && t.status
                == before.status && t.created_at == before.created_at && t.updated_at
                == before.updated_at && t.name@ == trimmed(cmd.name@) && t.name@.len() > 0 && (
            cmd.accent_color is None ==> t.accent_color == before.accent_color) && (
            cmd.accent_color is Some ==> p.accent == Some(
                Ok::<Option<String>, MessageKey>(t.accent_color),
            )) && (cmd.self_registration_enabled is None ==> t.self_registration_enabled
                == before.self_registration_enabled) && (
            cmd.self_registration_enabled matches Some(on) ==> t.self_registration_enabled == on),
            TenantStep::Call(TenantCall::Audit(a)) => a.event == AuditEventType::TenantUpdated && (
            p.found matches Some(Ok(Some(before))) && tells_of(a, before.id, actor)) && (
            p.updated matches Some(Ok(_))),
            TenantStep::Call(_) => false,
            TenantStep::Done(Ok(t)) => (p.found matches Some(Ok(Some(before))) && t.id == before.id
                && t.parent_tenant_id == before.parent_tenant_id && t.status == before.status
                && t.name@ == trimmed(cmd.name@) && (cmd.accent_color is None ==> t.accent_color
                == before.accent_color) && (cmd.accent_color is Some ==> p.accent == Some(
                Ok::<Option<String>, MessageKey>(t.accent_color),
            )) && (cmd.self_registration_enabled is None ==> t.self_registration_enabled
                == before.self_registration_enabled) && (
            cmd.self_registration_enabled matches Some(on) ==> t.self_registration_enabled == on))
                && (p.updated matches Some(Ok(_))) && p.audits > 0,
            TenantStep::Done(Err(TenantManagementError::NotFound)) => p.found == Some(
                Ok::<Option<Tenant>, DomainError>(None),
            ),
            TenantStep::Done(Err(TenantManagementError::Validation(k))) => trimmed(cmd.name@).len()
                == 0 || p.accent == Some(Err::<Option<String>, MessageKey>(k)),
            TenantStep::Done(Err(TenantManagementError::Internal(_))) => (p.found matches Some(
                Err(_),
            )) || (p.updated matches Some(Err(_))),
            TenantStep::Done(Err(_)) => false,
        },
{
}

/// The tenant that is removed is the child that was named and found, once it is known to have no
/// children of its own.
pub proof fn the_named_child_is_removed(
    requesting: TenantId,
    child_id: TenantId,
    actor: AdminActor,
    p: TenantProgress,
    r: TenantStep<()>,
)
    requires
        TenantManagementService::delete_rule(requesting, child_id, actor, p, r),
    ensures
        match r {
            TenantStep::Call(TenantCall::FindTenant { id }) => id == child_id,
            TenantStep::Call(TenantCall::ListChildren { parent }) => p.found matches Some(
                Ok(Some(t)),
            ) && parent == t.id && t.parent_tenant_id == Some(requesting),
            TenantStep::Call(TenantCall::DeleteTenant { id }) => (p.found matches Some(Ok(Some(t)))
                && id == t.id && t.parent_tenant_id == Some(requesting)) && (p.children matches Some(
                Ok(children),
            ) && children@.len() == 0),
            TenantStep::Call(TenantCall::Audit(a)) => a.event == AuditEventType::TenantDeleted && (
            p.found matches Some(Ok(Some(t))) && tells_of(a, t.id, actor) && (
            a.reason matches Some(AuditReason::Words(w)) && w@ == "tenant="@ + uuid_text_of(
                t.id.value,
            ))) && (p.deleted matches Some(Ok(_))),
            TenantStep::Call(_) => false,
            TenantStep::Done(Ok(_)) => (p.deleted matches Some(Ok(_))) && p.audits > 0,
            TenantStep::Done(Err(TenantManagementError::NotFound)) => p.found matches Some(Ok(found))
                && (found matches Some(t) ==> t.parent_tenant_id != Some(requesting)),
            TenantStep::Done(Err(TenantManagementError::Conflict(_))) => (p.children matches Some(
                Ok(children),
            ) && children@.len() > 0) || (p.deleted matches Some(Err(DomainError::Conflict(_)))),
            TenantStep::Done(Err(TenantManagementError::Internal(_))) => (p.found matches Some(
                Err(_),
            )) || (p.children matches Some(Err(_))) || (p.deleted matches Some(Err(_))),
            TenantStep::Done(Err(_)) => false,
        },
{
}

/// A domain is assigned to the tenant that was named, as it was read from what was given; it is the
/// tenant at hand or a child of it; and what is reported is what was stored.
pub proof fn a_domain_is_assigned_as_given(
    requesting: TenantId,
    target_id: TenantId,
    raw_domain: Seq<char>,
    actor: AdminActor,
    id: Uuid,
    now: Timestamp,
    p: TenantProgress,
    r: TenantStep<TenantDomain>,
)
    requires
        TenantManagementService::add_domain_rule(
            requesting,
            target_id,
            raw_domain,
            actor,
            id,
            now,
            p,
            r,
        ),
    ensures
        match r {
            TenantStep::Call(TenantCall::FindTenant { id: asked }) => asked == target_id,
            TenantStep::Call(TenantCall::ValidateDomain { raw }) => raw@ == raw_domain,
            TenantStep::Call(TenantCall::CreateDomain(d)) => (p.found matches Some(Ok(Some(t)))
                && d.tenant_id == t.id && (target_id == requesting || t.parent_tenant_id == Some(
                requesting,
            ))) && d.id == id && p.domain == Some(Ok::<String, MessageKey>(d.domain))
                && d.created_at == now && d.updated_at == now,
            TenantStep::Call(TenantCall::Audit(a)) => a.event == AuditEventType::TenantDomainAdded
                && (p.found matches Some(Ok(Some(t))) && tells_of(a, t.id, actor)) && (
            p.domain matches Some(Ok(domain)) && (a.reason matches Some(AuditReason::Words(w)) && w@
                == "domain="@ + domain@)) && (p.domain_created matches Some(Ok(_))),
            TenantStep::Call(_) => false,
            TenantStep::Done(Ok(d)) => (p.found matches Some(Ok(Some(t))) && d.tenant_id == t.id)
                && d.id == id && p.domain == Some(Ok::<String, MessageKey>(d.domain)) && (
            p.domain_created matches Some(Ok(_))) && p.audits > 0,
            TenantStep::Done(Err(TenantManagementError::NotFound)) => p.found matches Some(Ok(found))
                && (found matches Some(t) ==> target_id != requesting && t.parent_tenant_id != Some(
                requesting,
            )),
            TenantStep::Done(Err(TenantManagementError::Validation(k))) => p.domain == Some(
                Err::<String, MessageKey>(k),
            ),
            TenantStep::Done(Err(TenantManagementError::Conflict(_))) => p.domain_created matches Some(
                Err(DomainError::Conflict(_)),
            ),
            TenantStep::Done(Err(TenantManagementError::Internal(_))) => (p.found matches Some(
                Err(_),
            )) || (p.domain_created matches Some(Err(_))),
            TenantStep::Done(Err(_)) => false,
        },
{
}

proof fn lemma_domain_at(domains: Seq<TenantDomain>, id: Uuid, n: nat)
    requires
        n <= domains.len(),
    ensures
        match TenantManagementService::domain_at(domains, id, n) {
            Some(i) => 0 <= i < n && domains[i].id == id,
            None => forall|i: int| 0 <= i < n ==> (#[trigger] domains[i]).id != id,
        },
    decreases n,
{
    if n > 0 {
        lemma_domain_at(domains, id, (n - 1) as nat);
    }
}

/// The domain that is taken away is the one that was named, of the tenant that was named, and the entry
/// tells which it was.
pub proof fn the_named_domain_is_removed(
    requesting: TenantId,
    target_id: TenantId,
    domain_id: Uuid,
    actor: AdminActor,
    p: TenantProgress,
    r: TenantStep<()>,
)
    requires
        TenantManagementService::remove_domain_rule(requesting, target_id, domain_id, actor, p, r),
    ensures
        match r {
            TenantStep::Call(TenantCall::FindTenant { id: asked }) => asked == target_id,
            TenantStep::Call(TenantCall::ListDomains { tenant_id }) => p.found matches Some(
                Ok(Some(t)),
            ) && tenant_id == t.id && (target_id == requesting || t.parent_tenant_id == Some(
                requesting,
            )),
            TenantStep::Call(TenantCall::DeleteDomain { tenant_id, domain_id: gone }) => gone
                == domain_id && (p.found matches Some(Ok(Some(t))) && tenant_id == t.id) && (
            p.domains matches Some(Ok(domains)) && exists|i: int|
                0 <= i < domains@.len() && (#[trigger] domains@[i]).id == domain_id),
            TenantStep::Call(TenantCall::Audit(a)) => a.event == AuditEventType::TenantDomainRemoved
                && (p.found matches Some(Ok(Some(t))) && tells_of(a, t.id, actor)) && (
            p.domains matches Some(Ok(domains)) && exists|i: int|
                0 <= i < domains@.len() && (#[trigger] domains@[i]).id == domain_id && (
                a.reason matches Some(AuditReason::Words(w)) && w@ == "domain="@
                    + domains@[i].domain@)) && p.domain_deleted == Some(Ok::<bool, DomainError>(true)),
            TenantStep::Call(_) => false,
            TenantStep::Done(Ok(_)) => p.domain_deleted == Some(Ok::<bool, DomainError>(true))
                && p.audits > 0,
            TenantStep::Done(Err(TenantManagementError::NotFound)) => (p.found matches Some(Ok(found))
                && (found matches Some(t) ==> target_id != requesting && t.parent_tenant_id != Some(
                requesting,
            ))) || (p.domains matches Some(Ok(domains)) && forall|i: int|
                0 <= i < domains@.len() ==> (#[trigger] domains@[i]).id != domain_id)
                || p.domain_deleted == Some(Ok::<bool, DomainError>(false)),
            TenantStep::Done(Err(TenantManagementError::Internal(_))) => (p.found matches Some(
                Err(_),
            )) || (p.domains matches Some(Err(_))) || (p.domain_deleted matches Some(Err(_))),
            TenantStep::Done(Err(_)) => false,
        },
{
    if let Some(Ok(domains)) = p.domains {
        lemma_domain_at(domains@, domain_id, domains@.len());
    }
}

/// What is shown and listed is that of the tenant at hand: itself, its children, and the domains of
/// either; a page tells the bounds that were asked of the store.
pub proof fn a_tenant_sees_itself_and_its_children(
    requesting: TenantId,
    other: TenantId,
    p: TenantProgress,
    children: Stored<Vec<Tenant>>,
    listing: TenantStep<Vec<Tenant>>,
    child: TenantStep<Tenant>,
    itself: TenantStep<Tenant>,
    domains: Stored<Vec<TenantDomain>>,
    shown: TenantStep<Vec<TenantDomain>>,
)
    requires
        list_children_rule(requesting, children, listing),
        get_child_rule(requesting, other, p, child),
        get_current_rule(requesting, p, itself),
        list_domains_rule(requesting, other, p.found, domains, shown),
    ensures
        listing matches TenantStep::Call(c) ==> c == (TenantCall::ListChildren { parent: requesting }),
        listing matches TenantStep::Done(Ok(v)) ==> children == Some(
            Ok::<Vec<Tenant>, DomainError>(v),
        ),
        child matches TenantStep::Call(c) ==> c == (TenantCall::FindTenant { id: other }),
        child matches TenantStep::Done(Ok(t)) ==> t.parent_tenant_id == Some(requesting) && p.found
            == Some(Ok::<Option<Tenant>, DomainError>(Some(t))),
        itself matches TenantStep::Call(c) ==> c == (TenantCall::FindTenant { id: requesting }),
        itself matches TenantStep::Done(Ok(t)) ==> p.found == Some(
            Ok::<Option<Tenant>, DomainError>(Some(t)),
        ),
        shown matches TenantStep::Call(TenantCall::FindTenant { id }) ==> id == other,
        shown matches TenantStep::Call(TenantCall::ListDomains { tenant_id }) ==> (
        p.found matches Some(Ok(Some(t))) && tenant_id == t.id && (other == requesting
            || t.parent_tenant_id == Some(requesting))),
        shown matches TenantStep::Done(Ok(v)) ==> domains == Some(
            Ok::<Vec<TenantDomain>, DomainError>(v),
        ),
{
}

/// A page of children is that of the tenant at hand, and tells the bounds that were asked of the store.
pub proof fn a_page_tells_its_bounds(
    requesting: TenantId,
    limit: Option<i64>,
    offset: Option<i64>,
    items: Vec<Tenant>,
    total: i64,
    asked: TenantCall,
    page: TenantPage,
)
    requires
        children_page_rule(requesting, limit, offset, None, TenantStep::Call(asked)),
        children_page_rule(
            requesting,
            limit,
            offset,
            Some(Ok((items, total))),
            TenantStep::Done(Ok(page)),
        ),
    ensures
        asked == (TenantCall::ListChildrenPage {
            parent: requesting,
            limit: page.limit,
            offset: page.offset,
        }),
        page.items == items,
        page.total == total,
        1 <= page.limit <= 200,
        page.offset >= 0,
        limit matches Some(l) ==> (1 <= l <= 200 ==> page.limit == l),
        offset matches Some(o) ==> (o >= 0 ==> page.offset == o),
{
}

/// The words of an error end with what it is about.
pub proof fn an_error_says_what_it_is_about(m: String, k: MessageKey)
    ensures
        k.key@.is_suffix_of(TenantManagementError::Validation(k).text_of()),
        k.key@.is_suffix_of(TenantManagementError::Forbidden(k).text_of()),
        k.key@.is_suffix_of(TenantManagementError::Conflict(k).text_of()),
        m@.is_suffix_of(TenantManagementError::Internal(m).text_of()),
{
    lemma_suffix("validation error: "@, k.key@);
    lemma_suffix("forbidden: "@, k.key@);
    lemma_suffix("conflict: "@, k.key@);
    lemma_suffix("internal error: "@, m@);
}

} // verus!
