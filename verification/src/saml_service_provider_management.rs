//! The SAML service providers that a tenant signs its users on to.
use crate::model::{DomainError, Stored, TenantId, Uuid};
use crate::saml_sso::SamlServiceProvider;
use crate::time::Timestamp;
use vstd::prelude::*;

verus! {

pub struct RegisterSamlServiceProviderCommand {
    pub tenant_id: TenantId,
    pub display_name: String,
    pub entity_id: String,
    pub acs_url: String,
    pub name_id_format: String,
    pub x509_certificate: Option<String>,
    pub enabled: bool,
}

pub struct UpdateSamlServiceProviderCommand {
    pub tenant_id: TenantId,
    pub id: Uuid,
    pub display_name: String,
    pub entity_id: String,
    pub acs_url: String,
    pub name_id_format: String,
    pub x509_certificate: Option<String>,
    pub enabled: bool,
}

/// The values of a provider that can change.
pub struct SamlServiceProviderChanges {
    pub display_name: String,
    pub entity_id: String,
    pub acs_url: String,
    pub name_id_format: String,
    pub x509_certificate: Option<String>,
    pub enabled: bool,
}

pub enum SamlServiceProviderManagementError {
    Validation(String),
    Conflict(String),
    NotFound,
    Internal(String),
}

impl Clone for SamlServiceProvider {
    fn clone(&self) -> (r: SamlServiceProvider)
        ensures
            r == *self,
    {
        SamlServiceProvider {
            id: self.id,
            tenant_id: self.tenant_id,
            display_name: self.display_name.clone(),
            entity_id: self.entity_id.clone(),
            acs_url: self.acs_url.clone(),
            name_id_format: self.name_id_format.clone(),
            x509_certificate: self.x509_certificate.clone(),
            enabled: self.enabled,
        }
    }
}

/// What is known so far.
#[derive(Default)]
pub struct ServiceProviderProgress {
    /// The provider before an update.
    pub found: Stored<Option<SamlServiceProvider>>,
    /// The provider that the values make, where they can.
    pub built: Option<Result<SamlServiceProvider, String>>,
    pub saved: Stored<()>,
}

pub enum ServiceProviderStep {
    FindProvider { tenant_id: TenantId, id: Uuid },
    /// Checks the values and makes a provider of them.
    Build { id: Uuid, tenant_id: TenantId, values: SamlServiceProviderChanges, now: Timestamp },
    /// Checks the values and changes the provider to them.
    Apply { provider: SamlServiceProvider, values: SamlServiceProviderChanges, now: Timestamp },
    Create { provider: SamlServiceProvider, now: Timestamp },
    Update { provider: SamlServiceProvider, now: Timestamp },
    Done(Result<SamlServiceProvider, SamlServiceProviderManagementError>),
}

pub enum ServiceProviderListStep {
    ListForTenant { tenant_id: TenantId },
    Done(Result<Vec<SamlServiceProvider>, SamlServiceProviderManagementError>),
}

pub enum ServiceProviderDeleteStep {
    Delete { tenant_id: TenantId, id: Uuid },
    Done(Result<(), SamlServiceProviderManagementError>),
}

pub struct SamlServiceProviderManagementService {}

/// A conflict and a bad value keep their words; every other failure is internal.
pub open spec fn is_mapped(e: SamlServiceProviderManagementError, cause: DomainError) -> bool {
    match cause {
        DomainError::Conflict(m) => e == SamlServiceProviderManagementError::Conflict(m),
        DomainError::InvalidValue(m) => e == SamlServiceProviderManagementError::Validation(m),
        _ => is_internal(e, cause),
    }
}

pub open spec fn is_internal(e: SamlServiceProviderManagementError, cause: DomainError) -> bool {
    e matches SamlServiceProviderManagementError::Internal(m) && m@ == cause.message_of()
}

fn map_error(e: &DomainError) -> (r: SamlServiceProviderManagementError)
    ensures
        is_mapped(r, *e),
{
    match e {
        DomainError::Conflict(m) => SamlServiceProviderManagementError::Conflict(m.clone()),
        DomainError::InvalidValue(m) => SamlServiceProviderManagementError::Validation(m.clone()),
        _ => SamlServiceProviderManagementError::Internal(e.message()),
    }
}

/// The values of a registration.
pub open spec fn registered_values(cmd: RegisterSamlServiceProviderCommand) -> SamlServiceProviderChanges {
    SamlServiceProviderChanges {
        display_name: cmd.display_name,
        entity_id: cmd.entity_id,
        acs_url: cmd.acs_url,
        name_id_format: cmd.name_id_format,
        x509_certificate: cmd.x509_certificate,
        enabled: cmd.enabled,
    }
}

/// The values of an update.
pub open spec fn updated_values(cmd: UpdateSamlServiceProviderCommand) -> SamlServiceProviderChanges {
    SamlServiceProviderChanges {
        display_name: cmd.display_name,
        entity_id: cmd.entity_id,
        acs_url: cmd.acs_url,
        name_id_format: cmd.name_id_format,
        x509_certificate: cmd.x509_certificate,
        enabled: cmd.enabled,
    }
}

/// What comes next in registering a provider.
pub open spec fn register_rule(
    cmd: RegisterSamlServiceProviderCommand,
    id: Uuid,
    now: Timestamp,
    p: ServiceProviderProgress,
    r: ServiceProviderStep,
) -> bool {
    match p.built {
        None => r == (ServiceProviderStep::Build {
            id,
            tenant_id: cmd.tenant_id,
            values: registered_values(cmd),
            now,
        }),
        Some(Err(e)) => r == ServiceProviderStep::Done(
            Err(SamlServiceProviderManagementError::Validation(e)),
        ),
        Some(Ok(provider)) => match p.saved {
            None => r == (ServiceProviderStep::Create { provider, now }),
            Some(Err(e)) => r matches ServiceProviderStep::Done(Err(x)) && is_mapped(x, e),
            Some(Ok(_)) => r == ServiceProviderStep::Done(Ok(provider)),
        },
    }
}

/// What comes next in listing the providers of a tenant.
pub open spec fn list_rule(
    tenant_id: TenantId,
    listed: Stored<Vec<SamlServiceProvider>>,
    r: ServiceProviderListStep,
) -> bool {
    match listed {
        None => r == (ServiceProviderListStep::ListForTenant { tenant_id }),
        Some(Ok(v)) => r == ServiceProviderListStep::Done(Ok(v)),
        Some(Err(e)) => r matches ServiceProviderListStep::Done(Err(x)) && is_internal(x, e),
    }
}

/// What comes next in updating a provider of the tenant.
pub open spec fn update_rule(
    cmd: UpdateSamlServiceProviderCommand,
    now: Timestamp,
    p: ServiceProviderProgress,
    r: ServiceProviderStep,
) -> bool {
    match p.found {
        None => r == (ServiceProviderStep::FindProvider {
            tenant_id: cmd.tenant_id,
            id: cmd.id,
        }),
        Some(Err(e)) => r matches ServiceProviderStep::Done(Err(x)) && is_internal(x, e),
        Some(Ok(None)) => r == ServiceProviderStep::Done(
            Err(SamlServiceProviderManagementError::NotFound),
        ),
        Some(Ok(Some(before))) => match p.built {
            None => r == (ServiceProviderStep::Apply {
                provider: before,
                values: updated_values(cmd),
                now,
            }),
            Some(Err(e)) => r == ServiceProviderStep::Done(
                Err(SamlServiceProviderManagementError::Validation(e)),
            ),
            Some(Ok(provider)) => match p.saved {
                None => r == (ServiceProviderStep::Update { provider, now }),
                Some(Err(e)) => r matches ServiceProviderStep::Done(Err(x)) && is_mapped(
                    x,
                    e,
                ),
                Some(Ok(_)) => r == ServiceProviderStep::Done(Ok(provider)),
            },
        },
    }
}

/// What comes next in removing a provider of the tenant.
pub open spec fn delete_rule(
    tenant_id: TenantId,
    id: Uuid,
    deleted: Stored<bool>,
    r: ServiceProviderDeleteStep,
) -> bool {
    match deleted {
        None => r == (ServiceProviderDeleteStep::Delete { tenant_id, id }),
        Some(Ok(true)) => r == ServiceProviderDeleteStep::Done(Ok(())),
        Some(Ok(false)) => r == ServiceProviderDeleteStep::Done(
            Err(SamlServiceProviderManagementError::NotFound),
        ),
        Some(Err(e)) => r matches ServiceProviderDeleteStep::Done(Err(x)) && is_internal(
            x,
            e,
        ),
    }
}

impl SamlServiceProviderManagementService {
    pub fn new() -> (r: Self)
        ensures
            r == (SamlServiceProviderManagementService {  }),
    {
        SamlServiceProviderManagementService {  }
    }

    /// Decides what comes next in registering a provider.
    pub fn register(
        &self,
        cmd: &RegisterSamlServiceProviderCommand,
        id: Uuid,
        now: Timestamp,
        p: &ServiceProviderProgress,
    ) -> (r: ServiceProviderStep)
        ensures
            register_rule(*cmd, id, now, *p, r),
    {
        let provider: &SamlServiceProvider = match &p.built {
            None => return ServiceProviderStep::Build {
                id,
                tenant_id: cmd.tenant_id,
                values: SamlServiceProviderChanges {
                    display_name: cmd.display_name.clone(),
                    entity_id: cmd.entity_id.clone(),
                    acs_url: cmd.acs_url.clone(),
                    name_id_format: cmd.name_id_format.clone(),
                    x509_certificate: cmd.x509_certificate.clone(),
                    enabled: cmd.enabled,
                },
                now,
            },
            Some(Err(e)) => return ServiceProviderStep::Done(
                Err(SamlServiceProviderManagementError::Validation(e.clone())),
            ),
            Some(Ok(provider)) => provider,
        };
        match &p.saved {
            None => ServiceProviderStep::Create { provider: provider.clone(), now },
            Some(Err(e)) => ServiceProviderStep::Done(Err(map_error(e))),
            Some(Ok(_)) => ServiceProviderStep::Done(Ok(provider.clone())),
        }
    }

    /// Decides what comes next in listing the providers of a tenant.
    pub fn list(&self, tenant_id: TenantId, listed: Stored<Vec<SamlServiceProvider>>) -> (r:
        ServiceProviderListStep)
        ensures
            list_rule(tenant_id, listed, r),
    {
        match listed {
            None => ServiceProviderListStep::ListForTenant { tenant_id },
            Some(Ok(v)) => ServiceProviderListStep::Done(Ok(v)),
            Some(Err(e)) => ServiceProviderListStep::Done(
                Err(SamlServiceProviderManagementError::Internal(e.message())),
            ),
        }
    }

    /// Decides what comes next in updating a provider of the tenant.
    pub fn update(
        &self,
        cmd: &UpdateSamlServiceProviderCommand,
        now: Timestamp,
        p: &ServiceProviderProgress,
    ) -> (r: ServiceProviderStep)
        ensures
            update_rule(*cmd, now, *p, r),
    {
        let before: &SamlServiceProvider = match &p.found {
            None => return ServiceProviderStep::FindProvider {
                tenant_id: cmd.tenant_id,
                id: cmd.id,
            },
            Some(Err(e)) => return ServiceProviderStep::Done(
                Err(SamlServiceProviderManagementError::Internal(e.message())),
            ),
            Some(Ok(None)) => return ServiceProviderStep::Done(
                Err(SamlServiceProviderManagementError::NotFound),
            ),
            Some(Ok(Some(before))) => before,
        };
        let provider: &SamlServiceProvider = match &p.built {
            None => return ServiceProviderStep::Apply {
                provider: before.clone(),
                values: SamlServiceProviderChanges {
                    display_name: cmd.display_name.clone(),
                    entity_id: cmd.entity_id.clone(),
                    acs_url: cmd.acs_url.clone(),
                    name_id_format: cmd.name_id_format.clone(),
                    x509_certificate: cmd.x509_certificate.clone(),
                    enabled: cmd.enabled,
                },
                now,
            },
            Some(Err(e)) => return ServiceProviderStep::Done(
                Err(SamlServiceProviderManagementError::Validation(e.clone())),
            ),
            Some(Ok(provider)) => provider,
        };
        match &p.saved {
            None => ServiceProviderStep::Update { provider: provider.clone(), now },
            Some(Err(e)) => ServiceProviderStep::Done(Err(map_error(e))),
            Some(Ok(_)) => ServiceProviderStep::Done(Ok(provider.clone())),
        }
    }

    /// Decides what comes next in removing a provider of the tenant: there must have been one.
    pub fn delete(&self, tenant_id: TenantId, id: Uuid, deleted: &Stored<bool>) -> (r:
        ServiceProviderDeleteStep)
        ensures
            delete_rule(tenant_id, id, *deleted, r),
    {
        match deleted {
            None => ServiceProviderDeleteStep::Delete { tenant_id, id },
            Some(Ok(found)) => if *found {
                ServiceProviderDeleteStep::Done(Ok(()))
            } else {
                ServiceProviderDeleteStep::Done(Err(SamlServiceProviderManagementError::NotFound))
            },
            Some(Err(e)) => ServiceProviderDeleteStep::Done(
                Err(SamlServiceProviderManagementError::Internal(e.message())),
            ),
        }
    }
}

/// A provider is made of the very values that were given, in the tenant that was given; what is stored
/// is what was made of them, and what is reported is what was stored.
pub proof fn a_service_provider_is_registered_as_given(
    cmd: RegisterSamlServiceProviderCommand,
    id: Uuid,
    now: Timestamp,
    p: ServiceProviderProgress,
    r: ServiceProviderStep,
)
    requires
        register_rule(cmd, id, now, p, r),
    ensures
        match r {
            ServiceProviderStep::Build { id: i, tenant_id, values, now: at } => i == id && at == now
                && tenant_id == cmd.tenant_id && values.display_name == cmd.display_name
                && values.entity_id == cmd.entity_id && values.acs_url == cmd.acs_url
                && values.name_id_format == cmd.name_id_format && values.x509_certificate
                == cmd.x509_certificate && values.enabled == cmd.enabled,
            ServiceProviderStep::Create { provider, now: at } => at == now && p.built == Some(
                Ok::<SamlServiceProvider, String>(provider),
            ),
            ServiceProviderStep::Done(Ok(provider)) => p.built == Some(
                Ok::<SamlServiceProvider, String>(provider),
            ) && (p.saved matches Some(Ok(_))),
            ServiceProviderStep::Done(Err(SamlServiceProviderManagementError::Validation(m))) => p.built
                == Some(Err::<SamlServiceProvider, String>(m)) || p.saved == Some(
                Err::<(), DomainError>(DomainError::InvalidValue(m)),
            ),
            ServiceProviderStep::Done(Err(SamlServiceProviderManagementError::Conflict(m))) => p.saved
                == Some(Err::<(), DomainError>(DomainError::Conflict(m))),
            ServiceProviderStep::Done(Err(SamlServiceProviderManagementError::Internal(_))) =>
            p.saved matches Some(Err(_)),
            _ => false,
        },
{
}

/// An update changes the provider that was named, in its tenant, to the very values that were given;
/// one that is not there is not updated.
pub proof fn the_named_service_provider_is_updated(
    cmd: UpdateSamlServiceProviderCommand,
    now: Timestamp,
    p: ServiceProviderProgress,
    r: ServiceProviderStep,
)
    requires
        update_rule(cmd, now, p, r),
    ensures
        match r {
            ServiceProviderStep::FindProvider { tenant_id, id } => tenant_id == cmd.tenant_id && id
                == cmd.id,
            ServiceProviderStep::Apply { provider, values, now: at } => at == now && p.found == Some(
                Ok::<Option<SamlServiceProvider>, DomainError>(Some(provider)),
            ) && values.display_name == cmd.display_name && values.entity_id == cmd.entity_id
                && values.acs_url == cmd.acs_url && values.name_id_format == cmd.name_id_format
                && values.x509_certificate == cmd.x509_certificate && values.enabled == cmd.enabled,
            ServiceProviderStep::Update { provider, now: at } => at == now && p.built == Some(
                Ok::<SamlServiceProvider, String>(provider),
            ) && (p.found matches Some(Ok(Some(_)))),
            ServiceProviderStep::Done(Ok(provider)) => p.built == Some(
                Ok::<SamlServiceProvider, String>(provider),
            ) && (p.saved matches Some(Ok(_))),
            ServiceProviderStep::Done(Err(SamlServiceProviderManagementError::NotFound)) => p.found
                == Some(Ok::<Option<SamlServiceProvider>, DomainError>(None)),
            ServiceProviderStep::Done(Err(SamlServiceProviderManagementError::Validation(m))) => p.built
                == Some(Err::<SamlServiceProvider, String>(m)) || p.saved == Some(
                Err::<(), DomainError>(DomainError::InvalidValue(m)),
            ),
            ServiceProviderStep::Done(Err(SamlServiceProviderManagementError::Conflict(m))) => p.saved
                == Some(Err::<(), DomainError>(DomainError::Conflict(m))),
            ServiceProviderStep::Done(Err(SamlServiceProviderManagementError::Internal(_))) => (
            p.found matches Some(Err(_))) || (p.saved matches Some(Err(_))),
            _ => false,
        },
{
}

/// What is listed is what the store has of the tenant that was named; what is removed is the provider
/// that was named, in its tenant, and success means that there was one.
pub proof fn service_providers_stay_in_their_tenant(
    tenant_id: TenantId,
    id: Uuid,
    listed: Stored<Vec<SamlServiceProvider>>,
    listing: ServiceProviderListStep,
    deleted: Stored<bool>,
    deleting: ServiceProviderDeleteStep,
)
    requires
        list_rule(tenant_id, listed, listing),
        delete_rule(tenant_id, id, deleted, deleting),
    ensures
        listing matches ServiceProviderListStep::ListForTenant { tenant_id: t } ==> t == tenant_id
            && listed is None,
        listing matches ServiceProviderListStep::Done(Ok(v)) ==> listed == Some(
            Ok::<Vec<SamlServiceProvider>, DomainError>(v),
        ),
        listing matches ServiceProviderListStep::Done(Err(e)) ==> (listed matches Some(Err(_)))
            && e is Internal,
        deleting matches ServiceProviderDeleteStep::Delete { tenant_id: t, id: i } ==> t == tenant_id
            && i == id && deleted is None,
        deleting matches ServiceProviderDeleteStep::Done(Ok(_)) ==> deleted == Some(
            Ok::<bool, DomainError>(true),
        ),
        deleting matches ServiceProviderDeleteStep::Done(Err(e)) ==> (e is NotFound <==> deleted
            == Some(Ok::<bool, DomainError>(false))) && (e is Internal <==> (deleted matches Some(
            Err(_),
        ))),
{
}

} // verus!
