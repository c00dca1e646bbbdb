//! The resources that tokens are issued for, and which clients may ask for them.
use crate::audit::{AuditEventType, AuditReason, AuditRecord, AuditResult};
use crate::model::{
    AdminActor, Client, DomainError, MessageKey, Stored, TenantContext, TenantId, Uuid,
};
use crate::text::{join2, same, trim, trimmed};
use crate::time::Timestamp;
use vstd::prelude::*;

verus! {

#[derive(Clone, Copy, Debug, PartialEq, Eq, Structural)]
pub enum ResourceStatus {
    Active,
    Disabled,
}

impl ResourceStatus {
    pub open spec fn code_of(self) -> Seq<char> {
        match self {
            ResourceStatus::Active => "ACTIVE"@,
            ResourceStatus::Disabled => "DISABLED"@,
        }
    }

    pub fn as_str(&self) -> (r: &'static str)
        ensures
            r@ == self.code_of(),
    {
        match self {
            ResourceStatus::Active => "ACTIVE",
            ResourceStatus::Disabled => "DISABLED",
        }
    }
}

pub struct ProtectedResource {
    pub id: Uuid,
    pub tenant_id: TenantId,
    pub resource_uri: String,
    pub display_name: String,
    pub status: ResourceStatus,
    pub created_at: Timestamp,
    pub updated_at: Timestamp,
}

impl Clone for ProtectedResource {
    fn clone(&self) -> (r: ProtectedResource)
        ensures
            r == *self,
    {
        ProtectedResource {
            id: self.id,
            tenant_id: self.tenant_id,
            resource_uri: self.resource_uri.clone(),
            display_name: self.display_name.clone(),
            status: self.status,
            created_at: self.created_at,
            updated_at: self.updated_at,
        }
    }
}

pub enum ResourceManagementError {
    NotFound,
    Invalid(MessageKey),
    Conflict(MessageKey),
    Internal(String),
}

/// What is known so far.
#[derive(Default)]
pub struct ResourceProgress {
    pub uri: Option<Result<String, MessageKey>>,
    pub display_name: Option<Result<String, MessageKey>>,
    /// The tenant's issuer.
    pub issuer: Option<String>,
    pub created: Stored<()>,
    pub resource: Stored<Option<ProtectedResource>>,
    pub client: Stored<Option<Client>>,
    /// Whether a change found its row.
    pub changed: Stored<bool>,
    /// A change of what a client may ask for.
    pub permitted: Stored<()>,
    pub audits: usize,
    /// The resource, or the client, as it is after the change.
    pub resource_after: Stored<Option<ProtectedResource>>,
    pub client_after: Stored<Option<Client>>,
}

/// A call to make.
pub enum ResourceCall {
    ValidateUri { raw: String },
    ValidateDisplayName { raw: String },
    /// Composes the issuer of the tenant.
    ComposeIssuer { base_issuer: String, tenant_id: TenantId },
    Create(ProtectedResource),
    FindById { tenant_id: TenantId, id: Uuid },
    FindByUri { tenant_id: TenantId, uri: String },
    FindClient { tenant_id: TenantId, client_id: String },
    SetStatus { tenant_id: TenantId, id: Uuid, status: ResourceStatus, now: Timestamp },
    Delete { tenant_id: TenantId, id: Uuid },
    Grant { client: Uuid, resource: Uuid, now: Timestamp },
    Revoke { client: Uuid, resource: Uuid },
    Audit(AuditRecord),
    FindByIdAgain { tenant_id: TenantId, id: Uuid },
    FindClientAgain { tenant_id: TenantId, client_id: String },
    ListForClient { client: Uuid },
    ListForTenant { tenant_id: TenantId },
}

/// What comes next: a call to make, or the result.
pub enum ResourceStep<T> {
    Call(ResourceCall),
    Done(Result<T, ResourceManagementError>),
}

pub struct ResourceManagementService {
    /// The issuer of the provider, of which those of its tenants are made.
    pub base_issuer: String,
}

pub open spec fn is_internal(e: ResourceManagementError, cause: DomainError) -> bool {
    e matches ResourceManagementError::Internal(m) && m@ == cause.message_of()
}

pub open spec fn is_mapped(e: ResourceManagementError, cause: DomainError) -> bool {
    match cause {
        DomainError::Conflict(_) => e matches ResourceManagementError::Conflict(k) && k.key@
            == "api-resource-uri-conflict"@,
        DomainError::InvalidValue(_) => e matches ResourceManagementError::Invalid(k) && k.key@
            == "api-resource-uri-invalid"@,
        DomainError::NotFound(_) => e == ResourceManagementError::NotFound,
        DomainError::Repository(_) => is_internal(e, cause),
    }
}

/// Turns a failure of the store into an error.
pub fn map_repo_error(e: &DomainError) -> (r: ResourceManagementError)
    ensures
        is_mapped(r, *e),
{
    match e {
        DomainError::Conflict(_) => ResourceManagementError::Conflict(
            MessageKey::new("api-resource-uri-conflict"),
        ),
        DomainError::InvalidValue(_) => ResourceManagementError::Invalid(
            MessageKey::new("api-resource-uri-invalid"),
        ),
        DomainError::NotFound(_) => ResourceManagementError::NotFound,
        DomainError::Repository(_) => ResourceManagementError::Internal(e.message()),
    }
}

fn internal(e: &DomainError) -> (r: ResourceManagementError)
    ensures
        is_internal(r, *e),
{
    ResourceManagementError::Internal(e.message())
}

/// The wording of an audit entry: the resource, and the client where one has acted.
pub open spec fn reason_words(resource_uri: Seq<char>, actor: AdminActor) -> Seq<char> {
    match actor.audit_note_of() {
        Some(note) => "resource="@ + resource_uri + " "@ + note,
        None => "resource="@ + resource_uri,
    }
}

/// Words an audit entry.
pub fn audit_reason(resource_uri: &str, actor: &AdminActor) -> (r: String)
    ensures
        r@ == reason_words(resource_uri@, *actor),
{
    let mut out: String = join2("resource=", resource_uri);
    if let Some(note) = actor.audit_note() {
        out.append(" ");
        out.append(note.as_str());
    }
    out
}

/// The audit entry of a change; its client is the one that is changed.
pub open spec fn resource_entry(
    a: AuditRecord,
    event: AuditEventType,
    tenant_id: TenantId,
    actor: AdminActor,
    client_id: Option<String>,
    words: Seq<char>,
) -> bool {
    &&& a.event == event
    &&& a.result == AuditResult::Success
    &&& a.tenant_id == Some(tenant_id)
    &&& a.user_id == actor.user_id_of()
    &&& a.client_id == client_id
    &&& a.reason matches Some(AuditReason::Words(w)) && w@ == words
}

fn audit<T>(
    event: AuditEventType,
    tenant_id: TenantId,
    actor: &AdminActor,
    client_id: Option<String>,
    words: String,
) -> (r: ResourceStep<T>)
    ensures
        r matches ResourceStep::Call(ResourceCall::Audit(a)) && resource_entry(
            a,
            event,
            tenant_id,
            *actor,
            client_id,
            words@,
        ),
{
    ResourceStep::Call(
        ResourceCall::Audit(
            AuditRecord {
                event,
                result: AuditResult::Success,
                tenant_id: Some(tenant_id),
                user_id: actor.user_id(),
                client_id,
                reason: Some(AuditReason::Words(words)),
            },
        ),
    )
}

/// The addresses of the provider itself: its issuer, its user information and its management
/// interface.
pub open spec fn reserved(issuer: Seq<char>, uri: Seq<char>) -> bool {
    uri == issuer || uri == issuer + "/userinfo"@ || uri == issuer + "/admin"@
}

/// What was found must be there: nothing where it is.
pub open spec fn found_rule<T, V>(
    found: Stored<Option<V>>,
    call: ResourceCall,
    r: Option<ResourceStep<T>>,
) -> bool {
    match found {
        None => r == Some(ResourceStep::<T>::Call(call)),
        Some(Err(e)) => r matches Some(ResourceStep::Done(Err(x))) && is_internal(x, e),
        Some(Ok(None)) => r == Some(ResourceStep::<T>::Done(Err(ResourceManagementError::NotFound))),
        Some(Ok(Some(_))) => r is None,
    }
}

fn require_found<T, V>(found: &Stored<Option<V>>, call: ResourceCall) -> (r: Option<ResourceStep<T>>)
    ensures
        found_rule(*found, call, r),
{
    match found {
        None => Some(ResourceStep::Call(call)),
        Some(Err(e)) => Some(ResourceStep::Done(Err(internal(e)))),
        Some(Ok(None)) => Some(ResourceStep::Done(Err(ResourceManagementError::NotFound))),
        Some(Ok(Some(_))) => None,
    }
}

/// The client must be there and not be deleted: nothing where it is.
pub open spec fn client_rule<T>(
    tenant_id: TenantId,
    client_id: Seq<char>,
    found: Stored<Option<Client>>,
    again: bool,
    r: Option<ResourceStep<T>>,
) -> bool {
    match found {
        None => match r {
            Some(ResourceStep::Call(ResourceCall::FindClient { tenant_id: t, client_id: c })) => !again
                && t == tenant_id && c@ == client_id,
            Some(ResourceStep::Call(ResourceCall::FindClientAgain { tenant_id: t, client_id: c })) =>
            again && t == tenant_id && c@ == client_id,
            _ => false,
        },
        Some(Err(e)) => r matches Some(ResourceStep::Done(Err(x))) && is_internal(x, e),
        Some(Ok(c)) => if c matches Some(c) && !c.deleted {
            r is None
        } else {
            r == Some(ResourceStep::<T>::Done(Err(ResourceManagementError::NotFound)))
        },
    }
}

/// What a client may ask for.
pub open spec fn list_rule(
    tenant_id: TenantId,
    client_id: Seq<char>,
    client: Stored<Option<Client>>,
    again: bool,
    listed: Stored<Vec<ProtectedResource>>,
    r: ResourceStep<Vec<ProtectedResource>>,
) -> bool {
    exists|c: Option<ResourceStep<Vec<ProtectedResource>>>| #[trigger]
        client_rule(tenant_id, client_id, client, again, c) && match c {
            Some(step) => r == step,
            None => match listed {
                None => r == ResourceStep::<Vec<ProtectedResource>>::Call(
                    ResourceCall::ListForClient { client: client->0->Ok_0->0.id },
                ),
                Some(Err(e)) => r matches ResourceStep::Done(Err(x)) && is_mapped(x, e),
                Some(Ok(v)) => r == ResourceStep::Done(Ok(v)),
            },
        }
}

/// The change of what a client may ask for, a grant where a time is given, is made, audited, and
/// answered with the list.
pub open spec fn permit_rule(
    tenant_id: TenantId,
    client_id: Seq<char>,
    granted_at: Option<Timestamp>,
    actor: AdminActor,
    p: ResourceProgress,
    listed: Stored<Vec<ProtectedResource>>,
    r: ResourceStep<Vec<ProtectedResource>>,
) -> bool {
    let client = p.client->0->Ok_0->0;
    let resource = p.resource->0->Ok_0->0;
    match p.permitted {
        None => r == ResourceStep::<Vec<ProtectedResource>>::Call(
            match granted_at {
                Some(now) => ResourceCall::Grant { client: client.id, resource: resource.id, now },
                None => ResourceCall::Revoke { client: client.id, resource: resource.id },
            },
        ),
        Some(Err(e)) => r matches ResourceStep::Done(Err(x)) && is_mapped(x, e),
        Some(Ok(_)) => if p.audits == 0 {
            r matches ResourceStep::Call(ResourceCall::Audit(a)) && resource_entry(
                a,
                if granted_at is Some {
                    AuditEventType::ClientResourceGranted
                } else {
                    AuditEventType::ClientResourceRevoked
                },
                tenant_id,
                actor,
                Some(client.client_id),
                reason_words(resource.resource_uri@, actor),
            )
        } else {
            list_rule(tenant_id, client_id, p.client_after, true, listed, r)
        },
    }
}

impl ResourceManagementService {
    pub fn new(base_issuer: String) -> (r: Self)
        ensures
            r.base_issuer == base_issuer,
    {
        ResourceManagementService { base_issuer }
    }

    /// What comes next in listing the tenant's resources.
    pub open spec fn list_all_rule(
        tenant_id: TenantId,
        listed: Stored<Vec<ProtectedResource>>,
        r: ResourceStep<Vec<ProtectedResource>>,
    ) -> bool {
        match listed {
            None => r == ResourceStep::<Vec<ProtectedResource>>::Call(
                ResourceCall::ListForTenant { tenant_id },
            ),
            Some(Ok(v)) => r == ResourceStep::Done(Ok(v)),
            Some(Err(e)) => r matches ResourceStep::Done(Err(x)) && is_mapped(x, e),
        }
    }

    /// Decides what comes next in listing the tenant's resources.
    pub fn list(&self, tenant: &TenantContext, listed: Stored<Vec<ProtectedResource>>) -> (r:
        ResourceStep<Vec<ProtectedResource>>)
        ensures
            Self::list_all_rule(tenant.tenant_id, listed, r),
    {
        match listed {
            None => ResourceStep::Call(
                ResourceCall::ListForTenant { tenant_id: tenant.tenant_id },
            ),
            Some(Ok(v)) => ResourceStep::Done(Ok(v)),
            Some(Err(e)) => ResourceStep::Done(Err(map_repo_error(&e))),
        }
    }

    /// The addresses of the provider itself, under the tenant's issuer, are not registered as
    /// resources.
    pub fn ensure_not_reserved(&self, issuer: &str, resource_uri: &str) -> (r: Result<
        (),
        ResourceManagementError,
    >)
        ensures
            r is Ok <==> !reserved(issuer@, resource_uri@),
            r matches Err(e) ==> (e matches ResourceManagementError::Invalid(k) && k.key@
                == "api-resource-uri-reserved"@),
    {
        let userinfo: String = join2(issuer, "/userinfo");
        let admin: String = join2(issuer, "/admin");
        if same(userinfo.as_str(), resource_uri) || same(admin.as_str(), resource_uri) || same(
            issuer,
            resource_uri,
        ) {
            Err(ResourceManagementError::Invalid(MessageKey::new("api-resource-uri-reserved")))
        } else {
            Ok(())
        }
    }

    /// What comes next in registering a resource.
    pub open spec fn register_rule(
        self,
        tenant: TenantContext,
        raw_uri: Seq<char>,
        raw_display_name: Seq<char>,
        actor: AdminActor,
        id: Uuid,
        now: Timestamp,
        p: ResourceProgress,
        r: ResourceStep<ProtectedResource>,
    ) -> bool {
        match p.uri {
            None => r matches ResourceStep::Call(ResourceCall::ValidateUri { raw }) && raw@
                == raw_uri,
            Some(Err(k)) => r == ResourceStep::<ProtectedResource>::Done(
                Err(ResourceManagementError::Invalid(k)),
            ),
            Some(Ok(uri)) => match p.display_name {
                None => r matches ResourceStep::Call(ResourceCall::ValidateDisplayName { raw })
                    && raw@ == raw_display_name,
                Some(Err(k)) => r == ResourceStep::<ProtectedResource>::Done(
                    Err(ResourceManagementError::Invalid(k)),
                ),
                Some(Ok(_)) if p.issuer is None => r == ResourceStep::<ProtectedResource>::Call(
                    ResourceCall::ComposeIssuer {
                        base_issuer: self.base_issuer,
                        tenant_id: tenant.tenant_id,
                    },
                ),
                Some(Ok(name)) => {
                    let resource = ProtectedResource {
                        id,
                        tenant_id: tenant.tenant_id,
                        resource_uri: uri,
                        display_name: name,
                        status: ResourceStatus::Active,
                        created_at: now,
                        updated_at: now,
                    };
                    if reserved(p.issuer->0@, uri@) {
                        r matches ResourceStep::Done(Err(ResourceManagementError::Invalid(k)))
                            && k.key@ == "api-resource-uri-reserved"@
                    } else {
                        match p.created {
                            None => r == ResourceStep::<ProtectedResource>::Call(
                                ResourceCall::Create(resource),
                            ),
                            Some(Err(e)) => r matches ResourceStep::Done(Err(x)) && is_mapped(x, e),
                            Some(Ok(_)) => if p.audits == 0 {
                                r matches ResourceStep::Call(ResourceCall::Audit(a))
                                    && resource_entry(
                                    a,
                                    AuditEventType::ResourceRegistered,
                                    tenant.tenant_id,
                                    actor,
                                    None,
                                    reason_words(uri@, actor),
                                )
                            } else {
                                r == ResourceStep::Done(Ok(resource))
                            },
                        }
                    }
                },
            },
        }
    }

    /// Decides what comes next in registering a resource.
    pub fn register(
        &self,
        tenant: &TenantContext,
        raw_uri: &str,
        raw_display_name: &str,
        actor: &AdminActor,
        id: Uuid,
        now: Timestamp,
        p: &ResourceProgress,
    ) -> (r: ResourceStep<ProtectedResource>)
        ensures
            self.register_rule(*tenant, raw_uri@, raw_display_name@, *actor, id, now, *p, r),
    {
        let uri: &String = match &p.uri {
            None => return ResourceStep::Call(
                ResourceCall::ValidateUri { raw: raw_uri.to_owned() },
            ),
            Some(Err(k)) => return ResourceStep::Done(
                Err(ResourceManagementError::Invalid(k.clone())),
            ),
            Some(Ok(uri)) => uri,
        };
        let name: &String = match &p.display_name {
            None => return ResourceStep::Call(
                ResourceCall::ValidateDisplayName { raw: raw_display_name.to_owned() },
            ),
            Some(Err(k)) => return ResourceStep::Done(
                Err(ResourceManagementError::Invalid(k.clone())),
            ),
            Some(Ok(name)) => name,
        };
        let issuer: &String = match &p.issuer {
            None => return ResourceStep::Call(
                ResourceCall::ComposeIssuer {
                    base_issuer: self.base_issuer.clone(),
                    tenant_id: tenant.tenant_id,
                },
            ),
            Some(issuer) => issuer,
        };
        if let Err(e) = self.ensure_not_reserved(issuer.as_str(), uri.as_str()) {
            return ResourceStep::Done(Err(e));
        }
        let resource = ProtectedResource {
            id,
            tenant_id: tenant.tenant_id,
            resource_uri: uri.clone(),
            display_name: name.clone(),
            status: ResourceStatus::Active,
            created_at: now,
            updated_at: now,
        };
        match &p.created {
            None => return ResourceStep::Call(ResourceCall::Create(resource)),
            Some(Err(e)) => return ResourceStep::Done(Err(map_repo_error(e))),
            Some(Ok(_)) => {},
        }
        if p.audits == 0 {
            return audit(
                AuditEventType::ResourceRegistered,
                tenant.tenant_id,
                actor,
                None,
                audit_reason(uri.as_str(), actor),
            );
        }
        ResourceStep::Done(Ok(resource))
    }

    /// What comes next in changing a resource's status, answered with the resource as it is then.
    pub open spec fn set_status_rule(
        tenant_id: TenantId,
        id: Uuid,
        status: ResourceStatus,
        actor: AdminActor,
        now: Timestamp,
        p: ResourceProgress,
        r: ResourceStep<ProtectedResource>,
    ) -> bool {
        exists|f: Option<ResourceStep<ProtectedResource>>| #[trigger]
            found_rule(p.resource, ResourceCall::FindById { tenant_id, id }, f) && match f {
                Some(step) => r == step,
                None => match p.changed {
                    None => r == ResourceStep::<ProtectedResource>::Call(
                        ResourceCall::SetStatus { tenant_id, id, status, now },
                    ),
                    Some(Err(e)) => r matches ResourceStep::Done(Err(x)) && is_mapped(x, e),
                    Some(Ok(false)) => r == ResourceStep::<ProtectedResource>::Done(
                        Err(ResourceManagementError::NotFound),
                    ),
                    Some(Ok(true)) => if p.audits == 0 {
                        r matches ResourceStep::Call(ResourceCall::Audit(a)) && resource_entry(
                            a,
                            AuditEventType::ResourceUpdated,
                            tenant_id,
                            actor,
                            None,
                            reason_words(p.resource->0->Ok_0->0.resource_uri@, actor) + " status="@
                                + status.code_of(),
                        )
                    } else {
                        exists|g: Option<ResourceStep<ProtectedResource>>| #[trigger]
                            found_rule(
                                p.resource_after,
                                ResourceCall::FindByIdAgain { tenant_id, id },
                                g,
                            ) && match g {
                                Some(step) => r == step,
                                None => r == ResourceStep::Done(Ok(p.resource_after->0->Ok_0->0)),
                            }
                    },
                },
            }
    }

    /// Decides what comes next in changing a resource's status.
    pub fn set_status(
        &self,
        tenant: &TenantContext,
        id: Uuid,
        status: ResourceStatus,
        actor: &AdminActor,
        now: Timestamp,
        p: &ResourceProgress,
    ) -> (r: ResourceStep<ProtectedResource>)
        ensures
            Self::set_status_rule(tenant.tenant_id, id, status, *actor, now, *p, r),
    {
        let tenant_id: TenantId = tenant.tenant_id;
        let f: Option<ResourceStep<ProtectedResource>> = require_found(
            &p.resource,
            ResourceCall::FindById { tenant_id, id },
        );
        proof {
            assert(found_rule(p.resource, ResourceCall::FindById { tenant_id, id }, f));
        }
        if let Some(step) = f {
            return step;
        }
        let resource: &ProtectedResource = match &p.resource {
            Some(Ok(Some(resource))) => resource,
            _ => return ResourceStep::Done(Err(ResourceManagementError::NotFound)),
        };
        match &p.changed {
            None => return ResourceStep::Call(
                ResourceCall::SetStatus { tenant_id, id, status, now },
            ),
            Some(Err(e)) => return ResourceStep::Done(Err(map_repo_error(e))),
            Some(Ok(changed)) => if !*changed {
                return ResourceStep::Done(Err(ResourceManagementError::NotFound));
            },
        }
        if p.audits == 0 {
            let mut words: String = audit_reason(resource.resource_uri.as_str(), actor);
            words.append(" status=");
            words.append(status.as_str());
            return audit(AuditEventType::ResourceUpdated, tenant_id, actor, None, words);
        }
        let g: Option<ResourceStep<ProtectedResource>> = require_found(
            &p.resource_after,
            ResourceCall::FindByIdAgain { tenant_id, id },
        );
        proof {
            assert(found_rule(p.resource_after, ResourceCall::FindByIdAgain { tenant_id, id }, g));
        }
        match (g, &p.resource_after) {
            (Some(step), _) => step,
            (None, Some(Ok(Some(after)))) => ResourceStep::Done(Ok(after.clone())),
            (None, _) => ResourceStep::Done(Err(ResourceManagementError::NotFound)),
        }
    }

    /// What comes next in deleting a resource.
    pub open spec fn delete_rule(
        tenant_id: TenantId,
        id: Uuid,
        actor: AdminActor,
        p: ResourceProgress,
        r: ResourceStep<()>,
    ) -> bool {
        exists|f: Option<ResourceStep<()>>| #[trigger]
            found_rule(p.resource, ResourceCall::FindById { tenant_id, id }, f) && match f {
                Some(step) => r == step,
                None => match p.changed {
                    None => r == ResourceStep::<()>::Call(ResourceCall::Delete { tenant_id, id }),
                    Some(Err(e)) => r matches ResourceStep::Done(Err(x)) && is_mapped(x, e),
                    Some(Ok(false)) => r == ResourceStep::<()>::Done(
                        Err(ResourceManagementError::NotFound),
                    ),
                    Some(Ok(true)) => if p.audits == 0 {
                        r matches ResourceStep::Call(ResourceCall::Audit(a)) && resource_entry(
                            a,
                            AuditEventType::ResourceDeleted,
                            tenant_id,
                            actor,
                            None,
                            reason_words(p.resource->0->Ok_0->0.resource_uri@, actor),
                        )
                    } else {
                        r == ResourceStep::<()>::Done(Ok(()))
                    },
                },
            }
    }

    /// Decides what comes next in deleting a resource.
    pub fn delete(
        &self,
        tenant: &TenantContext,
        id: Uuid,
        actor: &AdminActor,
        p: &ResourceProgress,
    ) -> (r: ResourceStep<()>)
        ensures
            Self::delete_rule(tenant.tenant_id, id, *actor, *p, r),
    {
        let tenant_id: TenantId = tenant.tenant_id;
        let f: Option<ResourceStep<()>> = require_found(
            &p.resource,
            ResourceCall::FindById { tenant_id, id },
        );
        proof {
            assert(found_rule(p.resource, ResourceCall::FindById { tenant_id, id }, f));
        }
        if let Some(step) = f {
            return step;
        }
        let resource: &ProtectedResource = match &p.resource {
            Some(Ok(Some(resource))) => resource,
            _ => return ResourceStep::Done(Err(ResourceManagementError::NotFound)),
        };
        match &p.changed {
            None => return ResourceStep::Call(ResourceCall::Delete { tenant_id, id }),
            Some(Err(e)) => return ResourceStep::Done(Err(map_repo_error(e))),
            Some(Ok(changed)) => if !*changed {
                return ResourceStep::Done(Err(ResourceManagementError::NotFound));
            },
        }
        if p.audits == 0 {
            return audit(
                AuditEventType::ResourceDeleted,
                tenant_id,
                actor,
                None,
                audit_reason(resource.resource_uri.as_str(), actor),
            );
        }
        ResourceStep::Done(Ok(()))
    }

    fn load_client<T>(
        &self,
        tenant_id: TenantId,
        client_id: &str,
        found: &Stored<Option<Client>>,
        again: bool,
    ) -> (r: Option<ResourceStep<T>>)
        ensures
            client_rule(tenant_id, client_id@, *found, again, r),
    {
        match found {
            None => if again {
                Some(
                    ResourceStep::Call(
                        ResourceCall::FindClientAgain { tenant_id, client_id: client_id.to_owned() },
                    ),
                )
            } else {
                Some(
                    ResourceStep::Call(
                        ResourceCall::FindClient { tenant_id, client_id: client_id.to_owned() },
                    ),
                )
            },
            Some(Err(e)) => Some(ResourceStep::Done(Err(internal(e)))),
            Some(Ok(Some(c))) => if c.deleted {
                Some(ResourceStep::Done(Err(ResourceManagementError::NotFound)))
            } else {
                None
            },
            Some(Ok(None)) => Some(ResourceStep::Done(Err(ResourceManagementError::NotFound))),
        }
    }

    fn list_permitted(
        &self,
        tenant_id: TenantId,
        client_id: &str,
        client: &Stored<Option<Client>>,
        again: bool,
        listed: Stored<Vec<ProtectedResource>>,
    ) -> (r: ResourceStep<Vec<ProtectedResource>>)
        ensures
            list_rule(tenant_id, client_id@, *client, again, listed, r),
    {
        let c: Option<ResourceStep<Vec<ProtectedResource>>> = self.load_client(
            tenant_id,
            client_id,
            client,
            again,
        );
        proof {
            assert(client_rule(tenant_id, client_id@, *client, again, c));
        }
        if let Some(step) = c {
            return step;
        }
        let id: Uuid = match client {
            Some(Ok(Some(c))) => c.id,
            _ => return ResourceStep::Done(Err(ResourceManagementError::NotFound)),
        };
        match listed {
            None => ResourceStep::Call(ResourceCall::ListForClient { client: id }),
            Some(Err(e)) => ResourceStep::Done(Err(map_repo_error(&e))),
            Some(Ok(v)) => ResourceStep::Done(Ok(v)),
        }
    }

    /// Decides what comes next in listing what a client may ask for.
    pub fn list_for_client(
        &self,
        tenant: &TenantContext,
        client_id: &str,
        p: &ResourceProgress,
        listed: Stored<Vec<ProtectedResource>>,
    ) -> (r: ResourceStep<Vec<ProtectedResource>>)
        ensures
            list_rule(tenant.tenant_id, client_id@, p.client, false, listed, r),
    {
        self.list_permitted(tenant.tenant_id, client_id, &p.client, false, listed)
    }

    fn permit(
        &self,
        tenant_id: TenantId,
        client_id: &str,
        granted_at: Option<Timestamp>,
        actor: &AdminActor,
        p: &ResourceProgress,
        listed: Stored<Vec<ProtectedResource>>,
    ) -> (r: ResourceStep<Vec<ProtectedResource>>)
        requires
            p.client matches Some(Ok(Some(_))),
            p.resource matches Some(Ok(Some(_))),
        ensures
            permit_rule(tenant_id, client_id@, granted_at, *actor, *p, listed, r),
    {
        let (client, resource) = match (&p.client, &p.resource) {
            (Some(Ok(Some(client))), Some(Ok(Some(resource)))) => (client, resource),
            _ => return ResourceStep::Done(Err(ResourceManagementError::NotFound)),
        };
        match &p.permitted {
            None => return ResourceStep::Call(
                match granted_at {
                    Some(now) => ResourceCall::Grant {
                        client: client.id,
                        resource: resource.id,
                        now,
                    },
                    None => ResourceCall::Revoke { client: client.id, resource: resource.id },
                },
            ),
            Some(Err(e)) => return ResourceStep::Done(Err(map_repo_error(e))),
            Some(Ok(_)) => {},
        }
        if p.audits == 0 {
            let event: AuditEventType = if granted_at.is_some() {
                AuditEventType::ClientResourceGranted
            } else {
                AuditEventType::ClientResourceRevoked
            };
            return audit(
                event,
                tenant_id,
                actor,
                Some(client.client_id.clone()),
                audit_reason(resource.resource_uri.as_str(), actor),
            );
        }
        self.list_permitted(tenant_id, client_id, &p.client_after, true, listed)
    }

    /// What comes next in letting a client ask for a resource, by the resource's address.
    pub open spec fn grant_rule(
        tenant_id: TenantId,
        client_id: Seq<char>,
        raw_uri: Seq<char>,
        actor: AdminActor,
        now: Timestamp,
        p: ResourceProgress,
        listed: Stored<Vec<ProtectedResource>>,
        r: ResourceStep<Vec<ProtectedResource>>,
    ) -> bool {
        exists|c: Option<ResourceStep<Vec<ProtectedResource>>>| #[trigger]
            client_rule(tenant_id, client_id, p.client, false, c) && match c {
                Some(step) => r == step,
                None => match p.resource {
                    None => r matches ResourceStep::Call(
                        ResourceCall::FindByUri { tenant_id: t, uri },
                    ) && t == tenant_id && uri@ == trimmed(raw_uri),
                    Some(Err(e)) => r matches ResourceStep::Done(Err(x)) && is_internal(x, e),
                    Some(Ok(None)) => r == ResourceStep::<Vec<ProtectedResource>>::Done(
                        Err(ResourceManagementError::NotFound),
                    ),
                    Some(Ok(Some(_))) => permit_rule(
                        tenant_id,
                        client_id,
                        Some(now),
                        actor,
                        p,
                        listed,
                        r,
                    ),
                },
            }
    }

    /// Decides what comes next in letting a client ask for a resource.
    pub fn grant(
        &self,
        tenant: &TenantContext,
        client_id: &str,
        raw_uri: &str,
        actor: &AdminActor,
        now: Timestamp,
        p: &ResourceProgress,
        listed: Stored<Vec<ProtectedResource>>,
    ) -> (r: ResourceStep<Vec<ProtectedResource>>)
        ensures
            Self::grant_rule(tenant.tenant_id, client_id@, raw_uri@, *actor, now, *p, listed, r),
    {
        let c: Option<ResourceStep<Vec<ProtectedResource>>> = self.load_client(
            tenant.tenant_id,
            client_id,
            &p.client,
            false,
        );
        proof {
            assert(client_rule(tenant.tenant_id, client_id@, p.client, false, c));
        }
        if let Some(step) = c {
            return step;
        }
        match &p.resource {
            None => return ResourceStep::Call(
                ResourceCall::FindByUri { tenant_id: tenant.tenant_id, uri: trim(raw_uri) },
            ),
            Some(Err(e)) => return ResourceStep::Done(Err(internal(e))),
            Some(Ok(None)) => return ResourceStep::Done(Err(ResourceManagementError::NotFound)),
            Some(Ok(Some(_))) => {},
        }
        self.permit(tenant.tenant_id, client_id, Some(now), actor, p, listed)
    }

    /// What comes next in no longer letting a client ask for a resource, by the resource's
    /// identifier.
    pub open spec fn revoke_rule(
        tenant_id: TenantId,
        client_id: Seq<char>,
        resource_id: Uuid,
        actor: AdminActor,
        p: ResourceProgress,
        listed: Stored<Vec<ProtectedResource>>,
        r: ResourceStep<Vec<ProtectedResource>>,
    ) -> bool {
        exists|c: Option<ResourceStep<Vec<ProtectedResource>>>| #[trigger]
            client_rule(tenant_id, client_id, p.client, false, c) && match c {
                Some(step) => r == step,
                None => exists|f: Option<ResourceStep<Vec<ProtectedResource>>>| #[trigger]
                    found_rule(
                        p.resource,
                        ResourceCall::FindById { tenant_id, id: resource_id },
                        f,
                    ) && match f {
                        Some(step) => r == step,
                        None => permit_rule(tenant_id, client_id, None, actor, p, listed, r),
                    },
            }
    }

    /// Decides what comes next in no longer letting a client ask for a resource.
    pub fn revoke(
        &self,
        tenant: &TenantContext,
        client_id: &str,
        resource_id: Uuid,
        actor: &AdminActor,
        p: &ResourceProgress,
        listed: Stored<Vec<ProtectedResource>>,
    ) -> (r: ResourceStep<Vec<ProtectedResource>>)
        ensures
            Self::revoke_rule(tenant.tenant_id, client_id@, resource_id, *actor, *p, listed, r),
    {
        let c: Option<ResourceStep<Vec<ProtectedResource>>> = self.load_client(
            tenant.tenant_id,
            client_id,
            &p.client,
            false,
        );
        proof {
            assert(client_rule(tenant.tenant_id, client_id@, p.client, false, c));
        }
        if let Some(step) = c {
            return step;
        }
        let call = ResourceCall::FindById { tenant_id: tenant.tenant_id, id: resource_id };
        let f: Option<ResourceStep<Vec<ProtectedResource>>> = require_found(&p.resource, call);
        proof {
            assert(found_rule(
                p.resource,
                ResourceCall::FindById { tenant_id: tenant.tenant_id, id: resource_id },
                f,
            ));
        }
        if let Some(step) = f {
            return step;
        }
        self.permit(tenant.tenant_id, client_id, None, actor, p, listed)
    }
}

/// None of the provider's own addresses is ever stored as a resource.
pub proof fn own_addresses_are_never_registered(
    svc: ResourceManagementService,
    tenant: TenantContext,
    raw_uri: Seq<char>,
    raw_display_name: Seq<char>,
    actor: AdminActor,
    id: Uuid,
    now: Timestamp,
    p: ResourceProgress,
    stored: ProtectedResource,
)
    requires
        svc.register_rule(
            tenant,
            raw_uri,
            raw_display_name,
            actor,
            id,
            now,
            p,
            ResourceStep::Call(ResourceCall::Create(stored)),
        ),
    ensures
        p.issuer matches Some(issuer) && stored.resource_uri@ != issuer@ && stored.resource_uri@
            != issuer@ + "/userinfo"@ && stored.resource_uri@ != issuer@ + "/admin"@,
        stored.tenant_id == tenant.tenant_id,
{
}

/// A deleted client is never let ask for anything.
pub proof fn deleted_clients_get_nothing(
    tenant_id: TenantId,
    client_id: Seq<char>,
    raw_uri: Seq<char>,
    actor: AdminActor,
    now: Timestamp,
    p: ResourceProgress,
    listed: Stored<Vec<ProtectedResource>>,
    r: ResourceStep<Vec<ProtectedResource>>,
)
    requires
        ResourceManagementService::grant_rule(
            tenant_id,
            client_id,
            raw_uri,
            actor,
            now,
            p,
            listed,
            r,
        ),
        r matches ResourceStep::Call(ResourceCall::Grant { .. }),
    ensures
        p.client matches Some(Ok(Some(c))) && !c.deleted,
{
}

impl ResourceProgress {
    /// The call `call` asks for something that is not known yet.
    pub open spec fn lacks_answer_to(self, call: ResourceCall) -> bool {
        match call {
            ResourceCall::ValidateUri { .. } => self.uri is None,
            ResourceCall::ValidateDisplayName { .. } => self.display_name is None,
            ResourceCall::ComposeIssuer { .. } => self.issuer is None,
            ResourceCall::Create(_) => self.created is None,
            ResourceCall::FindById { .. } => self.resource is None,
            ResourceCall::FindByUri { .. } => self.resource is None,
            ResourceCall::FindClient { .. } => self.client is None,
            ResourceCall::SetStatus { .. } => self.changed is None,
            ResourceCall::Delete { .. } => self.changed is None,
            ResourceCall::Grant { .. } => self.permitted is None,
            ResourceCall::Revoke { .. } => self.permitted is None,
            ResourceCall::Audit(_) => self.audits < 1,
            ResourceCall::FindByIdAgain { .. } => self.resource_after is None,
            ResourceCall::FindClientAgain { .. } => self.client_after is None,
            ResourceCall::ListForClient { .. } => true,
            ResourceCall::ListForTenant { .. } => true,
        }
    }
}

/// Nothing is asked for that is known already: every call that comes next fills a gap.
pub proof fn registering_asks_nothing_twice(
    svc: ResourceManagementService,
    tenant: TenantContext,
    raw_uri: Seq<char>,
    raw_display_name: Seq<char>,
    actor: AdminActor,
    id: Uuid,
    now: Timestamp,
    p: ResourceProgress,
    r: ResourceStep<ProtectedResource>,
)
    requires
        svc.register_rule(tenant, raw_uri, raw_display_name, actor, id, now, p, r),
    ensures
        r matches ResourceStep::Call(c) ==> p.lacks_answer_to(c),
{
}

/// Nothing is asked for that is known already: every call that comes next fills a gap.
pub proof fn switching_asks_nothing_twice(
    tenant_id: TenantId,
    id: Uuid,
    status: ResourceStatus,
    actor: AdminActor,
    now: Timestamp,
    p: ResourceProgress,
    r: ResourceStep<ProtectedResource>,
)
    requires
        ResourceManagementService::set_status_rule(tenant_id, id, status, actor, now, p, r),
    ensures
        r matches ResourceStep::Call(c) ==> p.lacks_answer_to(c),
{
}

/// Nothing is asked for that is known already: every call that comes next fills a gap.
pub proof fn deleting_asks_nothing_twice(
    tenant_id: TenantId,
    id: Uuid,
    actor: AdminActor,
    p: ResourceProgress,
    r: ResourceStep<()>,
)
    requires
        ResourceManagementService::delete_rule(tenant_id, id, actor, p, r),
    ensures
        r matches ResourceStep::Call(c) ==> p.lacks_answer_to(c),
{
}

/// Nothing is asked for that is known already: every call that comes next fills a gap.
pub proof fn granting_asks_nothing_twice(
    tenant_id: TenantId,
    client_id: Seq<char>,
    raw_uri: Seq<char>,
    actor: AdminActor,
    now: Timestamp,
    p: ResourceProgress,
    listed: Stored<Vec<ProtectedResource>>,
    r: ResourceStep<Vec<ProtectedResource>>,
)
    requires
        ResourceManagementService::grant_rule(tenant_id, client_id, raw_uri, actor, now, p, listed, r),
    ensures
        r matches ResourceStep::Call(c) ==> p.lacks_answer_to(c),
        r matches ResourceStep::Call(c) ==> (c is ListForClient ==> listed is None),
{
}

/// Nothing is asked for that is known already: every call that comes next fills a gap.
pub proof fn revoking_asks_nothing_twice(
    tenant_id: TenantId,
    client_id: Seq<char>,
    resource_id: Uuid,
    actor: AdminActor,
    p: ResourceProgress,
    listed: Stored<Vec<ProtectedResource>>,
    r: ResourceStep<Vec<ProtectedResource>>,
)
    requires
        ResourceManagementService::revoke_rule(tenant_id, client_id, resource_id, actor, p, listed, r),
    ensures
        r matches ResourceStep::Call(c) ==> p.lacks_answer_to(c),
        r matches ResourceStep::Call(c) ==> (c is ListForClient ==> listed is None),
{
}

/// The entry stands in the tenant, names the user where a user has acted, tells of a success, and
/// begins with the address of the resource.
pub open spec fn tells_of(
    a: AuditRecord,
    tenant_id: TenantId,
    actor: AdminActor,
    resource_uri: Seq<char>,
) -> bool {
    &&& a.result == AuditResult::Success
    &&& a.tenant_id == Some(tenant_id)
    &&& (actor matches AdminActor::User(id) ==> a.user_id == Some(id))
    &&& (actor is Client ==> a.user_id is None)
    &&& a.reason matches Some(AuditReason::Words(w)) && ("resource="@ + resource_uri).is_prefix_of(w@)
}

proof fn lemma_words_begin(resource_uri: Seq<char>, actor: AdminActor, more: Seq<char>)
    ensures
        ("resource="@ + resource_uri).is_prefix_of(reason_words(resource_uri, actor)),
        ("resource="@ + resource_uri).is_prefix_of(reason_words(resource_uri, actor) + more),
{
    let head = "resource="@ + resource_uri;
    let whole = reason_words(resource_uri, actor);
    assert(whole.subrange(0, head.len() as int) =~= head);
    assert((whole + more).subrange(0, head.len() as int) =~= head);
}

/// A resource is registered as it was asked for: under the address and the name that the checks have
/// made of what was given, in the tenant, active, as of now; never under an address of the provider
/// itself; and what is reported is what was stored.
pub proof fn a_resource_is_registered_as_asked(
    svc: ResourceManagementService,
    tenant: TenantContext,
    raw_uri: Seq<char>,
    raw_display_name: Seq<char>,
    actor: AdminActor,
    id: Uuid,
    now: Timestamp,
    p: ResourceProgress,
    r: ResourceStep<ProtectedResource>,
)
    requires
        svc.register_rule(tenant, raw_uri, raw_display_name, actor, id, now, p, r),
    ensures
        match r {
            ResourceStep::Call(ResourceCall::ValidateUri { raw }) => raw@ == raw_uri,
            ResourceStep::Call(ResourceCall::ValidateDisplayName { raw }) => raw@
                == raw_display_name,
            ResourceStep::Call(ResourceCall::ComposeIssuer { base_issuer, tenant_id }) => base_issuer
                == svc.base_issuer && tenant_id == tenant.tenant_id,
            ResourceStep::Call(ResourceCall::Create(made)) => made.id == id && made.tenant_id
                == tenant.tenant_id && p.uri == Some(Ok::<String, MessageKey>(made.resource_uri))
                && p.display_name == Some(Ok::<String, MessageKey>(made.display_name)) && made.status
                == ResourceStatus::Active && made.created_at == now && made.updated_at == now && (
            p.issuer matches Some(issuer) && made.resource_uri@ != issuer@ && made.resource_uri@
                != issuer@ + "/userinfo"@ && made.resource_uri@ != issuer@ + "/admin"@),
            ResourceStep::Call(ResourceCall::Audit(a)) => a.event
                == AuditEventType::ResourceRegistered && a.client_id is None && (p.uri matches Some(
                Ok(uri),
            ) && tells_of(a, tenant.tenant_id, actor, uri@)) && (p.created matches Some(Ok(_))),
            ResourceStep::Call(_) => false,
            ResourceStep::Done(Ok(made)) => made.id == id && made.tenant_id == tenant.tenant_id
                && p.uri == Some(Ok::<String, MessageKey>(made.resource_uri)) && p.display_name
                == Some(Ok::<String, MessageKey>(made.display_name)) && made.status
                == ResourceStatus::Active && made.created_at == now && made.updated_at == now && (
            p.created matches Some(Ok(_))) && p.audits > 0,
            ResourceStep::Done(Err(ResourceManagementError::Invalid(k))) => p.uri == Some(
                Err::<String, MessageKey>(k),
            ) || p.display_name == Some(Err::<String, MessageKey>(k)) || (p.uri matches Some(
                Ok(uri),
            ) && p.issuer is Some && reserved(p.issuer->0@, uri@)) || (
            p.created matches Some(Err(DomainError::InvalidValue(_)))),
            ResourceStep::Done(Err(ResourceManagementError::Conflict(_))) => p.created matches Some(
                Err(DomainError::Conflict(_)),
            ),
            ResourceStep::Done(Err(ResourceManagementError::NotFound)) => p.created matches Some(
                Err(DomainError::NotFound(_)),
            ),
            ResourceStep::Done(Err(ResourceManagementError::Internal(_))) => p.created matches Some(
                Err(DomainError::Repository(_)),
            ),
        },
{
    if let Some(Ok(uri)) = p.uri {
        lemma_words_begin(uri@, actor, Seq::empty());
    }
}

/// The resource whose status changes is the one that was named, in the tenant, and it gets the status
/// that was asked for; what is reported is the resource as it was read again.
pub proof fn the_named_resource_changes(
    tenant_id: TenantId,
    id: Uuid,
    status: ResourceStatus,
    actor: AdminActor,
    now: Timestamp,
    p: ResourceProgress,
    r: ResourceStep<ProtectedResource>,
)
    requires
        ResourceManagementService::set_status_rule(tenant_id, id, status, actor, now, p, r),
    ensures
        match r {
            ResourceStep::Call(ResourceCall::FindById { tenant_id: t, id: i }) => t == tenant_id && i
                == id,
            ResourceStep::Call(ResourceCall::SetStatus { tenant_id: t, id: i, status: s, now: at }) =>
            t == tenant_id && i == id && s == status && at == now && (p.resource matches Some(
                Ok(Some(_)),
            )),
            ResourceStep::Call(ResourceCall::Audit(a)) => a.event == AuditEventType::ResourceUpdated
                && a.client_id is None && (p.resource matches Some(Ok(Some(found))) && tells_of(
                a,
                tenant_id,
                actor,
                found.resource_uri@,
            )) && p.changed == Some(Ok::<bool, DomainError>(true)),
            ResourceStep::Call(ResourceCall::FindByIdAgain { tenant_id: t, id: i }) => t == tenant_id
                && i == id && p.audits > 0,
            ResourceStep::Call(_) => false,
            ResourceStep::Done(Ok(now_so)) => p.resource_after == Some(
                Ok::<Option<ProtectedResource>, DomainError>(Some(now_so)),
            ) && p.changed == Some(Ok::<bool, DomainError>(true)) && p.audits > 0,
            ResourceStep::Done(Err(ResourceManagementError::NotFound)) => p.resource == Some(
                Ok::<Option<ProtectedResource>, DomainError>(None),
            ) || p.changed == Some(Ok::<bool, DomainError>(false)) || (p.changed matches Some(
                Err(DomainError::NotFound(_)),
            )) || p.resource_after == Some(Ok::<Option<ProtectedResource>, DomainError>(None)),
            ResourceStep::Done(Err(_)) => (p.resource matches Some(Err(_))) || (
            p.changed matches Some(Err(_))) || (p.resource_after matches Some(Err(_))),
        },
{
    if let Some(Ok(Some(found))) = p.resource {
        lemma_words_begin(found.resource_uri@, actor, " status="@ + status.code_of());
        assert(reason_words(found.resource_uri@, actor) + " status="@ + status.code_of()
            =~= reason_words(found.resource_uri@, actor) + (" status="@ + status.code_of()));
    }
}

/// The resource that is deleted is the one that was named and found, in the tenant.
pub proof fn the_named_resource_is_deleted(
    tenant_id: TenantId,
    id: Uuid,
    actor: AdminActor,
    p: ResourceProgress,
    r: ResourceStep<()>,
)
    requires
        ResourceManagementService::delete_rule(tenant_id, id, actor, p, r),
    ensures
        match r {
            ResourceStep::Call(ResourceCall::FindById { tenant_id: t, id: i }) => t == tenant_id && i
                == id,
            ResourceStep::Call(ResourceCall::Delete { tenant_id: t, id: i }) => t == tenant_id && i
                == id && (p.resource matches Some(Ok(Some(_)))),
            ResourceStep::Call(ResourceCall::Audit(a)) => a.event == AuditEventType::ResourceDeleted
                && a.client_id is None && (p.resource matches Some(Ok(Some(found))) && tells_of(
                a,
                tenant_id,
                actor,
                found.resource_uri@,
            )) && p.changed == Some(Ok::<bool, DomainError>(true)),
            ResourceStep::Call(_) => false,
            ResourceStep::Done(Ok(_)) => p.changed == Some(Ok::<bool, DomainError>(true)) && p.audits
                > 0,
            ResourceStep::Done(Err(ResourceManagementError::NotFound)) => p.resource == Some(
                Ok::<Option<ProtectedResource>, DomainError>(None),
            ) || p.changed == Some(Ok::<bool, DomainError>(false)) || (p.changed matches Some(
                Err(DomainError::NotFound(_)),
            )),
            ResourceStep::Done(Err(_)) => (p.resource matches Some(Err(_))) || (
            p.changed matches Some(Err(_))),
        },
{
    if let Some(Ok(Some(found))) = p.resource {
        lemma_words_begin(found.resource_uri@, actor, Seq::empty());
    }
}

/// A client is let ask for the resource at the address that was given, and is refused the one that was
/// named again; either is done to the client of this tenant that was named, and answered with what that
/// client may ask for then.
pub proof fn a_grant_is_between_the_two_named(
    tenant_id: TenantId,
    client_id: Seq<char>,
    raw_uri: Seq<char>,
    resource_id: Uuid,
    actor: AdminActor,
    now: Timestamp,
    p: ResourceProgress,
    listed: Stored<Vec<ProtectedResource>>,
    grant: bool,
    r: ResourceStep<Vec<ProtectedResource>>,
)
    requires
        grant ==> ResourceManagementService::grant_rule(
            tenant_id,
            client_id,
            raw_uri,
            actor,
            now,
            p,
            listed,
            r,
        ),
        !grant ==> ResourceManagementService::revoke_rule(
            tenant_id,
            client_id,
            resource_id,
            actor,
            p,
            listed,
            r,
        ),
    ensures
        match r {
            ResourceStep::Call(ResourceCall::FindClient { tenant_id: t, client_id: c }) => t
                == tenant_id && c@ == client_id,
            ResourceStep::Call(ResourceCall::FindClientAgain { tenant_id: t, client_id: c }) => t
                == tenant_id && c@ == client_id && p.audits > 0,
            ResourceStep::Call(ResourceCall::FindByUri { tenant_id: t, uri }) => grant && t
                == tenant_id && uri@ == trimmed(raw_uri),
            ResourceStep::Call(ResourceCall::FindById { tenant_id: t, id }) => !grant && t == tenant_id
                && id == resource_id,
            ResourceStep::Call(ResourceCall::Grant { client, resource, now: at }) => grant && at == now
                && (p.client matches Some(Ok(Some(c))) && client == c.id && !c.deleted) && (
            p.resource matches Some(Ok(Some(found))) && resource == found.id),
            ResourceStep::Call(ResourceCall::Revoke { client, resource }) => !grant && (
            p.client matches Some(Ok(Some(c))) && client == c.id && !c.deleted) && (
            p.resource matches Some(Ok(Some(found))) && resource == found.id),
            ResourceStep::Call(ResourceCall::Audit(a)) => (p.permitted matches Some(Ok(_))) && (grant
                <==> a.event == AuditEventType::ClientResourceGranted) && (!grant <==> a.event
                == AuditEventType::ClientResourceRevoked) && (p.client matches Some(Ok(Some(c)))
                && a.client_id == Some(c.client_id)) && (p.resource matches Some(Ok(Some(found)))
                && tells_of(a, tenant_id, actor, found.resource_uri@)),
            ResourceStep::Call(ResourceCall::ListForClient { client }) => p.client_after matches Some(
                Ok(Some(c)),
            ) && client == c.id && !c.deleted && (p.permitted matches Some(Ok(_))),
            ResourceStep::Call(_) => false,
            ResourceStep::Done(Ok(v)) => listed == Some(
                Ok::<Vec<ProtectedResource>, DomainError>(v),
            ) && (p.permitted matches Some(Ok(_))) && p.audits > 0,
            ResourceStep::Done(Err(ResourceManagementError::NotFound)) => (p.client matches Some(
                Ok(found),
            ) && (found matches Some(c) ==> c.deleted)) || (p.client_after matches Some(Ok(found)) && (
            found matches Some(c) ==> c.deleted)) || p.resource == Some(
                Ok::<Option<ProtectedResource>, DomainError>(None),
            ) || (p.permitted matches Some(Err(DomainError::NotFound(_)))) || (listed matches Some(
                Err(DomainError::NotFound(_)),
            )),
            ResourceStep::Done(Err(_)) => (p.client matches Some(Err(_))) || (p.resource matches Some(
                Err(_),
            )) || (p.permitted matches Some(Err(_))) || (p.client_after matches Some(Err(_))) || (
            listed matches Some(Err(_))),
        },
{
    if let Some(Ok(Some(found))) = p.resource {
        lemma_words_begin(found.resource_uri@, actor, Seq::empty());
    }
}

/// What is listed of a client, or of a tenant, is what the store has under the one that was named.
pub proof fn lists_are_of_those_named(
    tenant_id: TenantId,
    client_id: Seq<char>,
    client: Stored<Option<Client>>,
    listed: Stored<Vec<ProtectedResource>>,
    r: ResourceStep<Vec<ProtectedResource>>,
    all: ResourceStep<Vec<ProtectedResource>>,
)
    requires
        list_rule(tenant_id, client_id, client, false, listed, r),
        ResourceManagementService::list_all_rule(tenant_id, listed, all),
    ensures
        r matches ResourceStep::Call(ResourceCall::FindClient { tenant_id: t, client_id: c }) ==> t
            == tenant_id && c@ == client_id,
        r matches ResourceStep::Call(ResourceCall::ListForClient { client: id }) ==> (
        client matches Some(Ok(Some(c))) && id == c.id && !c.deleted),
        r matches ResourceStep::Done(Ok(v)) ==> listed == Some(
            Ok::<Vec<ProtectedResource>, DomainError>(v),
        ) && (client matches Some(Ok(Some(c))) && !c.deleted),
        all matches ResourceStep::Call(c) ==> c == (ResourceCall::ListForTenant { tenant_id }),
        all matches ResourceStep::Done(Ok(v)) ==> listed == Some(
            Ok::<Vec<ProtectedResource>, DomainError>(v),
        ),
        (all matches ResourceStep::Done(Err(_))) ==> (listed matches Some(Err(_))),
{
}

/// Letting a client ask for a resource only grants, and no longer letting it only revokes; and what a
/// client may ask for is listed of that client.
pub proof fn granting_grants_and_revoking_revokes(
    svc: ResourceManagementService,
    tenant: TenantContext,
    client_id: &str,
    uri: &str,
    resource_id: Uuid,
    actor: AdminActor,
    now: Timestamp,
    p: ResourceProgress,
    listed: Stored<Vec<ProtectedResource>>,
    granted: ResourceStep<Vec<ProtectedResource>>,
    revoked: ResourceStep<Vec<ProtectedResource>>,
    shown: ResourceStep<Vec<ProtectedResource>>,
)
    requires
        call_ensures(
            ResourceManagementService::grant,
            (&svc, &tenant, client_id, uri, &actor, now, &p, listed),
            granted,
        ),
        call_ensures(
            ResourceManagementService::revoke,
            (&svc, &tenant, client_id, resource_id, &actor, &p, listed),
            revoked,
        ),
        call_ensures(
            ResourceManagementService::list_for_client,
            (&svc, &tenant, client_id, &p, listed),
            shown,
        ),
    ensures
        !(granted matches ResourceStep::Call(ResourceCall::Revoke { .. })),
        !(revoked matches ResourceStep::Call(ResourceCall::Grant { .. })),
        granted matches ResourceStep::Call(ResourceCall::Grant { client, resource, .. }) ==> revoked
            == ResourceStep::<Vec<ProtectedResource>>::Call(
            ResourceCall::Revoke { client, resource },
        ),
        shown matches ResourceStep::Call(ResourceCall::FindClient { tenant_id, client_id: c })
            ==> tenant_id == tenant.tenant_id && c@ == client_id@,
        shown matches ResourceStep::Call(ResourceCall::ListForClient { client }) ==> (
        p.client matches Some(Ok(Some(c))) && client == c.id),
        !(shown matches ResourceStep::Call(ResourceCall::Grant { .. })) && !(
        shown matches ResourceStep::Call(ResourceCall::Revoke { .. })),
{
}

} // verus!
