//! The SAML identity providers that a tenant accepts.
use crate::model::{DomainError, Stored, TenantId, Uuid};
use crate::time::Timestamp;
use vstd::prelude::*;

verus! {

pub struct RegisterSamlProviderCommand {
    pub tenant_id: TenantId,
    pub display_name: String,
    pub entity_id: String,
    pub sso_url: String,
    pub x509_certificate: String,
    pub enabled: bool,
}

impl Clone for RegisterSamlProviderCommand {
    fn clone(&self) -> (r: RegisterSamlProviderCommand)
        ensures
            r == *self,
    {
        RegisterSamlProviderCommand {
            tenant_id: self.tenant_id,
            display_name: self.display_name.clone(),
            entity_id: self.entity_id.clone(),
            sso_url: self.sso_url.clone(),
            x509_certificate: self.x509_certificate.clone(),
            enabled: self.enabled,
        }
    }
}

pub struct SamlIdentityProvider {
    pub id: Uuid,
    pub tenant_id: TenantId,
    pub display_name: String,
    pub entity_id: String,
    pub sso_url: String,
    pub x509_certificate: String,
    pub enabled: bool,
}

impl Clone for SamlIdentityProvider {
    fn clone(&self) -> (r: SamlIdentityProvider)
        ensures
            r == *self,
    {
        SamlIdentityProvider {
            id: self.id,
            tenant_id: self.tenant_id,
            display_name: self.display_name.clone(),
            entity_id: self.entity_id.clone(),
            sso_url: self.sso_url.clone(),
            x509_certificate: self.x509_certificate.clone(),
            enabled: self.enabled,
        }
    }
}

pub enum SamlProviderManagementError {
    Validation(String),
    Conflict(String),
    Internal(String),
}

pub enum SamlProviderStep {
    /// Checks the values and makes a provider of them.
    Build { id: Uuid, values: RegisterSamlProviderCommand, now: Timestamp },
    Create { provider: SamlIdentityProvider, now: Timestamp },
    Done(Result<SamlIdentityProvider, SamlProviderManagementError>),
}

pub enum SamlProviderListStep {
    ListForTenant { tenant_id: TenantId },
    Done(Result<Vec<SamlIdentityProvider>, SamlProviderManagementError>),
}

pub struct SamlProviderManagementService {}

/// A conflict and a bad value keep their words; every other failure is internal.
pub open spec fn is_mapped(e: SamlProviderManagementError, cause: DomainError) -> bool {
    match cause {
        DomainError::Conflict(m) => e == SamlProviderManagementError::Conflict(m),
        DomainError::InvalidValue(m) => e == SamlProviderManagementError::Validation(m),
        _ => e matches SamlProviderManagementError::Internal(m) && m@ == cause.message_of(),
    }
}

fn map_error(e: &DomainError) -> (r: SamlProviderManagementError)
    ensures
        is_mapped(r, *e),
{
    match e {
        DomainError::Conflict(m) => SamlProviderManagementError::Conflict(m.clone()),
        DomainError::InvalidValue(m) => SamlProviderManagementError::Validation(m.clone()),
        _ => SamlProviderManagementError::Internal(e.message()),
    }
}

/// What comes next in registering a provider.
pub open spec fn register_rule(
    cmd: RegisterSamlProviderCommand,
    id: Uuid,
    now: Timestamp,
    built: Option<Result<SamlIdentityProvider, String>>,
    created: Stored<()>,
    r: SamlProviderStep,
) -> bool {
    match built {
        None => r == (SamlProviderStep::Build { id, values: cmd, now }),
        Some(Err(e)) => r == SamlProviderStep::Done(
            Err(SamlProviderManagementError::Validation(e)),
        ),
        Some(Ok(provider)) => match created {
            None => r == (SamlProviderStep::Create { provider, now }),
            Some(Err(e)) => r matches SamlProviderStep::Done(Err(x)) && is_mapped(x, e),
            Some(Ok(_)) => r == SamlProviderStep::Done(Ok(provider)),
        },
    }
}

/// What comes next in listing the providers of a tenant.
pub open spec fn list_rule(
    tenant_id: TenantId,
    listed: Stored<Vec<SamlIdentityProvider>>,
    r: SamlProviderListStep,
) -> bool {
    match listed {
        None => r == (SamlProviderListStep::ListForTenant { tenant_id }),
        Some(Ok(v)) => r == SamlProviderListStep::Done(Ok(v)),
        Some(Err(e)) => r matches SamlProviderListStep::Done(
            Err(SamlProviderManagementError::Internal(m)),
        ) && m@ == e.message_of(),
    }
}

impl SamlProviderManagementService {
    pub fn new() -> (r: Self)
        ensures
            r == (SamlProviderManagementService {  }),
    {
        SamlProviderManagementService {  }
    }

    /// Decides what comes next in registering a provider.
    pub fn register(
        &self,
        cmd: &RegisterSamlProviderCommand,
        id: Uuid,
        now: Timestamp,
        built: &Option<Result<SamlIdentityProvider, String>>,
        created: &Stored<()>,
    ) -> (r: SamlProviderStep)
        ensures
            register_rule(*cmd, id, now, *built, *created, r),
    {
        let provider: &SamlIdentityProvider = match built {
            None => return SamlProviderStep::Build { id, values: cmd.clone(), now },
            Some(Err(e)) => return SamlProviderStep::Done(
                Err(SamlProviderManagementError::Validation(e.clone())),
            ),
            Some(Ok(provider)) => provider,
        };
        match created {
            None => SamlProviderStep::Create { provider: provider.clone(), now },
            Some(Err(e)) => SamlProviderStep::Done(Err(map_error(e))),
            Some(Ok(_)) => SamlProviderStep::Done(Ok(provider.clone())),
        }
    }

    /// Decides what comes next in listing the providers of a tenant.
    pub fn list(&self, tenant_id: TenantId, listed: Stored<Vec<SamlIdentityProvider>>) -> (r:
        SamlProviderListStep)
        ensures
            list_rule(tenant_id, listed, r),
    {
        match listed {
            None => SamlProviderListStep::ListForTenant { tenant_id },
            Some(Ok(v)) => SamlProviderListStep::Done(Ok(v)),
            Some(Err(e)) => SamlProviderListStep::Done(
                Err(SamlProviderManagementError::Internal(e.message())),
            ),
        }
    }
}

/// A provider is made of the very values that were given; what is stored is what was made of them, and
/// what is reported is what was stored.
pub proof fn a_provider_is_registered_as_given(
    cmd: RegisterSamlProviderCommand,
    id: Uuid,
    now: Timestamp,
    built: Option<Result<SamlIdentityProvider, String>>,
    created: Stored<()>,
    r: SamlProviderStep,
)
    requires
        register_rule(cmd, id, now, built, created, r),
    ensures
        match r {
            SamlProviderStep::Build { id: i, values, now: at } => i == id && at == now
                && values.tenant_id == cmd.tenant_id && values.display_name == cmd.display_name
                && values.entity_id == cmd.entity_id && values.sso_url == cmd.sso_url
                && values.x509_certificate == cmd.x509_certificate && values.enabled == cmd.enabled,
            SamlProviderStep::Create { provider, now: at } => at == now && built == Some(
                Ok::<SamlIdentityProvider, String>(provider),
            ),
            SamlProviderStep::Done(Ok(provider)) => built == Some(
                Ok::<SamlIdentityProvider, String>(provider),
            ) && (created matches Some(Ok(_))),
            SamlProviderStep::Done(Err(SamlProviderManagementError::Validation(m))) => built == Some(
                Err::<SamlIdentityProvider, String>(m),
            ) || created == Some(Err::<(), DomainError>(DomainError::InvalidValue(m))),
            SamlProviderStep::Done(Err(SamlProviderManagementError::Conflict(m))) => created == Some(
                Err::<(), DomainError>(DomainError::Conflict(m)),
            ),
            SamlProviderStep::Done(Err(SamlProviderManagementError::Internal(_))) => (
            created matches Some(Err(DomainError::Repository(_)))) || (created matches Some(
                Err(DomainError::NotFound(_)),
            )),
        },
{
}

/// What is listed is what the store has of the tenant that was named.
pub proof fn providers_are_listed_by_tenant(
    tenant_id: TenantId,
    listed: Stored<Vec<SamlIdentityProvider>>,
    r: SamlProviderListStep,
)
    requires
        list_rule(tenant_id, listed, r),
    ensures
        r matches SamlProviderListStep::ListForTenant { tenant_id: t } ==> t == tenant_id && listed is None,
        r matches SamlProviderListStep::Done(Ok(v)) ==> listed == Some(
            Ok::<Vec<SamlIdentityProvider>, DomainError>(v),
        ),
        r matches SamlProviderListStep::Done(Err(e)) ==> (listed matches Some(Err(_))) && e is Internal,
{
}

} // verus!
