//! Telling clients that all of a user's sign-ons have ended.
use crate::crypto::{uuid_text, uuid_text_of};
use crate::logout::{
    backchannel_of, collect_backchannel, told_are_those_who_asked, BackchannelTarget,
};
use crate::model::{Client, Reply, TenantId, Uuid};
use vstd::prelude::*;

verus! {

pub enum AnnounceStep {
    ListClients { tenant_id: TenantId },
    /// Queues one notice for each client. They name no single sign-on: all of them have ended.
    Enqueue {
        tenant_id: TenantId,
        subject: String,
        sid: Option<String>,
        notifications: Vec<BackchannelTarget>,
    },
    Done,
}

pub struct StopAnnouncementService {}

/// What comes next in telling the clients.
pub open spec fn announce_rule(
    tenant_id: TenantId,
    subject: Uuid,
    clients: Reply<Vec<Client>>,
    enqueued: bool,
    r: AnnounceStep,
) -> bool {
    match clients {
        None => r == (AnnounceStep::ListClients { tenant_id }),
        Some(Err(_)) => r == AnnounceStep::Done,
        Some(Ok(cs)) => if backchannel_of(cs@).len() == 0 || enqueued {
            r == AnnounceStep::Done
        } else {
            r matches AnnounceStep::Enqueue { tenant_id: t, subject: s, sid, notifications }
                && t == tenant_id && s@ == uuid_text_of(subject.value) && sid is None
                && notifications@ == backchannel_of(cs@)
        },
    }
}

impl StopAnnouncementService {
    pub fn new() -> (r: Self)
        ensures
            r == (StopAnnouncementService {  }),
    {
        StopAnnouncementService {  }
    }

    /// Decides what comes next: every client that can be told is, and a failure is left at that.
    pub fn announce_all_sessions_ended(
        &self,
        tenant_id: TenantId,
        subject: Uuid,
        clients: &Reply<Vec<Client>>,
        enqueued: bool,
    ) -> (r: AnnounceStep)
        ensures
            announce_rule(tenant_id, subject, *clients, enqueued, r),
    {
        let clients: &Vec<Client> = match clients {
            None => return AnnounceStep::ListClients { tenant_id },
            Some(Err(_)) => return AnnounceStep::Done,
            Some(Ok(clients)) => clients,
        };
        let notifications: Vec<BackchannelTarget> = collect_backchannel(clients);
        if notifications.len() == 0 || enqueued {
            return AnnounceStep::Done;
        }
        AnnounceStep::Enqueue {
            tenant_id,
            subject: uuid_text(subject.value),
            sid: None,
            notifications,
        }
    }
}

/// Exactly the clients that have registered an address for it are told, in the tenant at hand, and of
/// the user at hand; no sign-on is named, since all of them have ended.
pub proof fn every_client_that_can_be_told_is(
    tenant_id: TenantId,
    subject: Uuid,
    clients: Reply<Vec<Client>>,
    enqueued: bool,
    r: AnnounceStep,
    target: BackchannelTarget,
)
    requires
        announce_rule(tenant_id, subject, clients, enqueued, r),
    ensures
        r matches AnnounceStep::ListClients { tenant_id: t } ==> t == tenant_id && clients is None,
        r matches AnnounceStep::Enqueue { tenant_id: t, subject: s, sid, notifications } ==> t
            == tenant_id && s@ == uuid_text_of(subject.value) && sid is None && (
        clients matches Some(Ok(cs)) && (notifications@.contains(target) <==> exists|i: int|
            0 <= i < cs@.len() && (#[trigger] cs@[i]).client_id == target.client_id
                && cs@[i].backchannel_logout_uri == Some(target.backchannel_logout_uri))),
        r is Done && !enqueued ==> (clients matches Some(listed) && (listed matches Ok(cs) ==> !exists|
            i: int,
        |
            0 <= i < cs@.len() && (#[trigger] cs@[i]).client_id == target.client_id
                && cs@[i].backchannel_logout_uri == Some(target.backchannel_logout_uri))),
{
    if let Some(Ok(cs)) = clients {
        told_are_those_who_asked(cs@, target);
    }
}

} // verus!
