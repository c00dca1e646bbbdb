//! Which tenant a request is made to.
//!
//! Tenants are kept in a cache with their state; whether one may be used is decided on what comes
//! out of it. A tenant that is not there is not kept.
use crate::model::{DomainError, Stored, TenantId};
use crate::tenant_management::{Tenant, TenantStatus};
use vstd::prelude::*;

verus! {

/// What is known so far.
#[derive(Default)]
pub struct TenantLookup {
    /// What the cache holds.
    pub cached: Option<Option<Tenant>>,
    pub found: Stored<Option<Tenant>>,
    /// Whether the tenant was put in the cache.
    pub kept: bool,
}

pub enum TenantResolutionStep {
    LookInCache { tenant_id: TenantId },
    FindTenant { tenant_id: TenantId },
    Keep { tenant_id: TenantId, tenant: Tenant },
    /// Takes the tenant out of the cache.
    Forget { tenant_id: TenantId },
    Done(Result<Option<Tenant>, DomainError>),
}

pub struct TenantResolutionService {}

/// A tenant as far as it may be used.
pub open spec fn usable(t: Tenant) -> Option<Tenant> {
    if t.active() {
        Some(t)
    } else {
        None
    }
}

/// What comes next in finding a tenant.
pub open spec fn lookup(tenant_id: TenantId, p: TenantLookup) -> TenantResolutionStep {
    match p.cached {
        None => TenantResolutionStep::LookInCache { tenant_id },
        Some(Some(t)) => TenantResolutionStep::Done(Ok(usable(t))),
        Some(None) => match p.found {
            None => TenantResolutionStep::FindTenant { tenant_id },
            Some(Err(e)) => TenantResolutionStep::Done(Err(e)),
            Some(Ok(None)) => TenantResolutionStep::Done(Ok(None)),
            Some(Ok(Some(t))) => if p.kept {
                TenantResolutionStep::Done(Ok(usable(t)))
            } else {
                TenantResolutionStep::Keep { tenant_id, tenant: t }
            },
        },
    }
}

fn usable_tenant(t: &Tenant) -> (r: Option<Tenant>)
    ensures
        r == usable(*t),
{
    if t.is_active() {
        Some(t.clone())
    } else {
        None
    }
}

impl TenantResolutionService {
    pub fn new() -> (r: Self)
        ensures
            r == (TenantResolutionService {  }),
    {
        TenantResolutionService {  }
    }

    /// Decides what comes next in finding a tenant.
    pub fn resolve(&self, tenant_id: TenantId, p: &TenantLookup) -> (r: TenantResolutionStep)
        ensures
            r == lookup(tenant_id, *p),
    {
        match &p.cached {
            None => return TenantResolutionStep::LookInCache { tenant_id },
            Some(Some(t)) => return TenantResolutionStep::Done(Ok(usable_tenant(t))),
            Some(None) => {},
        }
        match &p.found {
            None => TenantResolutionStep::FindTenant { tenant_id },
            Some(Err(e)) => TenantResolutionStep::Done(Err(e.clone())),
            Some(Ok(None)) => TenantResolutionStep::Done(Ok(None)),
            Some(Ok(Some(t))) => if p.kept {
                TenantResolutionStep::Done(Ok(usable_tenant(t)))
            } else {
                TenantResolutionStep::Keep { tenant_id, tenant: t.clone() }
            },
        }
    }

    /// What makes the cache forget a tenant that has changed.
    pub fn invalidate(&self, tenant_id: TenantId) -> (r: TenantResolutionStep)
        ensures
            r == (TenantResolutionStep::Forget { tenant_id }),
    {
        TenantResolutionStep::Forget { tenant_id }
    }
}

/// Only an active tenant is ever handed out, and only one that is there is kept.
pub proof fn only_active_tenants_are_used(tenant_id: TenantId, p: TenantLookup)
    ensures
        lookup(tenant_id, p) matches TenantResolutionStep::Done(Ok(Some(t))) ==> t.active(),
        lookup(tenant_id, p) matches TenantResolutionStep::Keep { tenant, .. } ==> p.found == Some(
            Ok::<Option<Tenant>, DomainError>(Some(tenant)),
        ),
{
}

/// What the cache holds answers without the store.
pub proof fn a_kept_tenant_is_not_looked_up(tenant_id: TenantId, p: TenantLookup)
    requires
        p.cached matches Some(Some(_)),
    ensures
        lookup(tenant_id, p) is Done,
{
}

/// The tenant that is found is the one that was asked for: the cache, the store and the cache again are
/// asked under the same identifier; what is kept is what the store has; and what is handed out is what
/// was found, as it is, where it is active, and nothing otherwise.
pub proof fn the_tenant_asked_for_is_found(tenant_id: TenantId, p: TenantLookup)
    ensures
        match lookup(tenant_id, p) {
            TenantResolutionStep::LookInCache { tenant_id: t } => t == tenant_id && p.cached is None,
            TenantResolutionStep::FindTenant { tenant_id: t } => t == tenant_id && p.cached == Some(
                None::<Tenant>,
            ),
            TenantResolutionStep::Keep { tenant_id: t, tenant } => t == tenant_id && p.found == Some(
                Ok::<Option<Tenant>, DomainError>(Some(tenant)),
            ),
            TenantResolutionStep::Forget { .. } => false,
            TenantResolutionStep::Done(Ok(Some(tenant))) => (p.cached == Some(Some(tenant))
                || p.found == Some(Ok::<Option<Tenant>, DomainError>(Some(tenant))))
                && tenant.status == TenantStatus::Active,
            TenantResolutionStep::Done(Ok(None)) => (p.cached matches Some(Some(t)) && t.status
                != TenantStatus::Active) || (p.found matches Some(Ok(found)) && (
            found matches Some(t) ==> t.status != TenantStatus::Active)),
            TenantResolutionStep::Done(Err(e)) => p.found == Some(
                Err::<Option<Tenant>, DomainError>(e),
            ),
        },
{
}

/// An active tenant is handed out, whether it is in the cache or was put there.
pub proof fn an_active_tenant_is_handed_out(tenant_id: TenantId, p: TenantLookup, tenant: Tenant)
    requires
        tenant.status == TenantStatus::Active,
        p.cached == Some(Some(tenant)) || (p.cached == Some(None::<Tenant>) && p.kept && p.found
            == Some(Ok::<Option<Tenant>, DomainError>(Some(tenant)))),
    ensures
        lookup(tenant_id, p) == TenantResolutionStep::Done(Ok(Some(tenant))),
{
}

/// What is forgotten is the tenant that has changed.
pub proof fn the_changed_tenant_is_forgotten(
    svc: TenantResolutionService,
    tenant_id: TenantId,
    r: TenantResolutionStep,
)
    requires
        call_ensures(TenantResolutionService::invalidate, (&svc, tenant_id), r),
    ensures
        r matches TenantResolutionStep::Forget { tenant_id: t } && t == tenant_id,
{
}

} // verus!
