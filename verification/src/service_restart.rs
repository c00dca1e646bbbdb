//! Restarting the service at an administrator's request.
use crate::audit::{
    admin_audit, admin_entry, AuditEventType, AuditReason, AuditRecord, AuditResult,
};
use crate::model::{AdminActor, TenantContext, TenantId};
use vstd::prelude::*;

verus! {

/// How many milliseconds pass between the answer and the stop, so that the answer gets out.
pub const SHUTDOWN_GRACE_MILLIS: u64 = 500;

pub enum RestartStep {
    Audit(AuditRecord),
    /// Stops the service once this many milliseconds have passed, without waiting for it.
    ScheduleRestart { after_millis: u64 },
    Done,
}

pub struct ServiceRestartService {}

/// What comes next in restarting a service.
pub open spec fn restart_rule(
    tenant_id: TenantId,
    actor: AdminActor,
    service: Seq<char>,
    audits: usize,
    scheduled: bool,
    r: RestartStep,
) -> bool {
    if audits == 0 {
        r matches RestartStep::Audit(a) && admin_entry(
            a,
            AuditEventType::ServiceRestartRequested,
            tenant_id,
            actor,
            service,
        )
    } else if !scheduled {
        r == (RestartStep::ScheduleRestart { after_millis: SHUTDOWN_GRACE_MILLIS })
    } else {
        r == RestartStep::Done
    }
}

impl ServiceRestartService {
    pub fn new() -> (r: Self)
        ensures
            r == (ServiceRestartService {  }),
    {
        ServiceRestartService {  }
    }

    /// Decides what comes next: the request is on record before anything stops.
    pub fn request(
        &self,
        tenant: &TenantContext,
        actor: &AdminActor,
        service: &str,
        audits: usize,
        scheduled: bool,
    ) -> (r: RestartStep)
        ensures
            restart_rule(tenant.tenant_id, *actor, service@, audits, scheduled, r),
    {
        if audits == 0 {
            RestartStep::Audit(
                admin_audit(
                    AuditEventType::ServiceRestartRequested,
                    tenant.tenant_id,
                    actor,
                    service.to_owned(),
                ),
            )
        } else if !scheduled {
            RestartStep::ScheduleRestart { after_millis: SHUTDOWN_GRACE_MILLIS }
        } else {
            RestartStep::Done
        }
    }
}

/// Nothing stops before the request is on record: the entry names the service, the tenant and who has
/// asked, and only then is the stop scheduled, after half a second.
pub proof fn a_restart_is_on_record_first(
    tenant_id: TenantId,
    actor: AdminActor,
    service: Seq<char>,
    audits: usize,
    scheduled: bool,
    r: RestartStep,
)
    requires
        restart_rule(tenant_id, actor, service, audits, scheduled, r),
    ensures
        match r {
            RestartStep::Audit(a) => audits == 0 && a.event
                == AuditEventType::ServiceRestartRequested && a.result == AuditResult::Success
                && a.tenant_id == Some(tenant_id) && (actor matches AdminActor::User(id) ==> a.user_id
                == Some(id) && a.client_id is None) && (
            actor matches AdminActor::Client { client_id, .. } ==> a.user_id is None && a.client_id
                == Some(client_id)) && (a.reason matches Some(AuditReason::Words(w)) && w@ == service),
            RestartStep::ScheduleRestart { after_millis } => audits > 0 && !scheduled && after_millis
                == 500,
            RestartStep::Done => audits > 0 && scheduled,
        },
{
}

} // verus!
