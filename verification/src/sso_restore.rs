//! Going on with a sign-on.
use crate::audit::{AuditEventType, AuditReason, AuditRecord, AuditResult};
use crate::crypto::{hex_text, sha256_hex, sha256_hex_of, sha256_of};
use crate::model::{Reply, SsoSession, TenantContext, TenantId, User, Uuid};
use crate::time::{Span, Timestamp};
use vstd::prelude::*;

verus! {

/// A sign-on that goes on.
pub struct RestoredSso {
    pub user_id: Uuid,
    /// When its user was authenticated.
    pub auth_time: Timestamp,
    pub session_hash: String,
}

/// What is known so far.
#[derive(Default)]
pub struct RestoreProgress {
    pub session: Reply<Option<SsoSession>>,
    /// The time once the sign-on is known.
    pub now: Option<Timestamp>,
    pub expired_deleted: Reply<()>,
    pub user: Reply<Option<User>>,
    pub member: Reply<bool>,
    pub extended: Reply<()>,
    pub audits: usize,
}

/// What comes next: a call to make, or the result.
pub enum RestoreStep {
    FindSession { session_hash: String },
    ReadClock,
    DeleteExpired { session_hash: String },
    FindUser { user_id: Uuid },
    FindMembership { tenant_id: TenantId, user_id: Uuid },
    ExtendIdle { session_hash: String, until: Timestamp },
    Audit(AuditRecord),
    Done(Result<Option<RestoredSso>, String>),
}

pub struct SsoRestorer {
    pub sso_idle_ttl: Span,
}

pub open spec fn sso_entry(
    event: AuditEventType,
    result: AuditResult,
    tenant_id: TenantId,
    user_id: Uuid,
    reason: Option<AuditReason>,
) -> AuditRecord {
    AuditRecord {
        event,
        result,
        tenant_id: Some(tenant_id),
        user_id: Some(user_id),
        client_id: None,
        reason,
    }
}

impl SsoRestorer {
    pub fn new(sso_idle_ttl: Span) -> (r: Self)
        ensures
            r.sso_idle_ttl == sso_idle_ttl,
    {
        SsoRestorer { sso_idle_ttl }
    }

    /// The sign-on is valid: its user must be active, not locked, and a member of the tenant; then
    /// its idle span begins anew, and its absolute end stays.
    pub open spec fn valid_rule(
        self,
        tenant: TenantContext,
        session_id: Seq<char>,
        session: SsoSession,
        now: Timestamp,
        p: RestoreProgress,
        r: RestoreStep,
    ) -> bool {
        match p.user {
            None => r == (RestoreStep::FindUser { user_id: session.user_id }),
            Some(Err(e)) => r == RestoreStep::Done(Err(e)),
            Some(Ok(found)) => if !(found matches Some(u) && u.active() && !u.locked_at(now)) {
                r == RestoreStep::Done(Ok(None))
            } else {
                match p.member {
                    None => r == (RestoreStep::FindMembership {
                        tenant_id: tenant.tenant_id,
                        user_id: session.user_id,
                    }),
                    Some(Err(e)) => r == RestoreStep::Done(Err(e)),
                    Some(Ok(false)) => r == RestoreStep::Done(Ok(None)),
                    Some(Ok(true)) => match p.extended {
                        None => r matches RestoreStep::ExtendIdle { session_hash, until }
                            && session_hash@ == sha256_hex_of(session_id) && until == now.later(
                            self.sso_idle_ttl,
                        ),
                        Some(Err(e)) => r == RestoreStep::Done(Err(e)),
                        Some(Ok(_)) => if p.audits == 0 {
                            r == RestoreStep::Audit(
                                sso_entry(
                                    AuditEventType::SsoSessionResumed,
                                    AuditResult::Success,
                                    tenant.tenant_id,
                                    session.user_id,
                                    None,
                                ),
                            )
                        } else {
                            r matches RestoreStep::Done(Ok(Some(restored))) && restored.user_id
                                == session.user_id && restored.auth_time == session.auth_time
                                && restored.session_hash@ == sha256_hex_of(session_id)
                        },
                    },
                }
            },
        }
    }

    /// What comes next in going on with a sign-on of which `p` is known.
    pub open spec fn try_resume_rule(
        self,
        tenant: TenantContext,
        session_id: Seq<char>,
        p: RestoreProgress,
        r: RestoreStep,
    ) -> bool {
        match p.session {
            None => r matches RestoreStep::FindSession { session_hash } && session_hash@
                == sha256_hex_of(session_id),
            Some(Err(e)) => r == RestoreStep::Done(Err(e)),
            Some(Ok(None)) => r == RestoreStep::Done(Ok(None)),
            Some(Ok(Some(session))) => match p.now {
                None => r == RestoreStep::ReadClock,
                Some(now) => if !session.valid_at(now) {
                    match p.expired_deleted {
                        None => r matches RestoreStep::DeleteExpired { session_hash }
                            && session_hash@ == sha256_hex_of(session_id),
                        Some(Err(e)) => r == RestoreStep::Done(Err(e)),
                        Some(Ok(_)) => if p.audits == 0 {
                            r == RestoreStep::Audit(
                                sso_entry(
                                    AuditEventType::SsoSessionExpired,
                                    AuditResult::Failure,
                                    tenant.tenant_id,
                                    session.user_id,
                                    Some(AuditReason::IdleOrAbsoluteTimeout),
                                ),
                            )
                        } else {
                            r == RestoreStep::Done(Ok(None))
                        },
                    }
                } else {
                    self.valid_rule(tenant, session_id, session, now, p, r)
                },
            },
        }
    }

    fn go_on(
        &self,
        tenant: &TenantContext,
        session_id: &str,
        session: &SsoSession,
        now: Timestamp,
        p: &RestoreProgress,
    ) -> (r: RestoreStep)
        requires
            now.can_add(self.sso_idle_ttl),
        ensures
            self.valid_rule(*tenant, session_id@, *session, now, *p, r),
    {
        match &p.user {
            None => return RestoreStep::FindUser { user_id: session.user_id },
            Some(Err(e)) => return RestoreStep::Done(Err(e.clone())),
            Some(Ok(None)) => return RestoreStep::Done(Ok(None)),
            Some(Ok(Some(u))) => if !u.is_active() || u.is_locked_at(now) {
                return RestoreStep::Done(Ok(None));
            },
        }
        match &p.member {
            None => return RestoreStep::FindMembership {
                tenant_id: tenant.tenant_id,
                user_id: session.user_id,
            },
            Some(Err(e)) => return RestoreStep::Done(Err(e.clone())),
            Some(Ok(member)) => if !*member {
                return RestoreStep::Done(Ok(None));
            },
        }
        match &p.extended {
            None => return RestoreStep::ExtendIdle {
                session_hash: sha256_hex(session_id),
                until: now.plus(self.sso_idle_ttl),
            },
            Some(Err(e)) => return RestoreStep::Done(Err(e.clone())),
            Some(Ok(_)) => {},
        }
        if p.audits == 0 {
            return RestoreStep::Audit(
                AuditRecord {
                    event: AuditEventType::SsoSessionResumed,
                    result: AuditResult::Success,
                    tenant_id: Some(tenant.tenant_id),
                    user_id: Some(session.user_id),
                    client_id: None,
                    reason: None,
                },
            );
        }
        RestoreStep::Done(
            Ok(
                Some(
                    RestoredSso {
                        user_id: session.user_id,
                        auth_time: session.auth_time,
                        session_hash: sha256_hex(session_id),
                    },
                ),
            ),
        )
    }

    /// Decides what comes next in going on with a sign-on of which `p` is known.
    pub fn try_resume(&self, tenant: &TenantContext, session_id: &str, p: &RestoreProgress) -> (r:
        RestoreStep)
        requires
            p.now matches Some(now) ==> now.can_add(self.sso_idle_ttl),
        ensures
            self.try_resume_rule(*tenant, session_id@, *p, r),
    {
        let session: &SsoSession = match &p.session {
            None => return RestoreStep::FindSession { session_hash: sha256_hex(session_id) },
            Some(Err(e)) => return RestoreStep::Done(Err(e.clone())),
            Some(Ok(None)) => return RestoreStep::Done(Ok(None)),
            Some(Ok(Some(s))) => s,
        };
        let now: Timestamp = match p.now {
            None => return RestoreStep::ReadClock,
            Some(now) => now,
        };
        if session.is_valid_at(now) {
            return self.go_on(tenant, session_id, session, now, p);
        }
        match &p.expired_deleted {
            None => RestoreStep::DeleteExpired { session_hash: sha256_hex(session_id) },
            Some(Err(e)) => RestoreStep::Done(Err(e.clone())),
            Some(Ok(_)) => if p.audits == 0 {
                RestoreStep::Audit(
                    AuditRecord {
                        event: AuditEventType::SsoSessionExpired,
                        result: AuditResult::Failure,
                        tenant_id: Some(tenant.tenant_id),
                        user_id: Some(session.user_id),
                        client_id: None,
                        reason: Some(AuditReason::IdleOrAbsoluteTimeout),
                    },
                )
            } else {
                RestoreStep::Done(Ok(None))
            },
        }
    }
}

/// A sign-on goes on only where it is valid, its user is active and not locked, and belongs to the
/// tenant; the time of authentication stays what it was.
pub proof fn restoring_needs_a_valid_member(
    svc: SsoRestorer,
    tenant: TenantContext,
    session_id: Seq<char>,
    p: RestoreProgress,
    restored: RestoredSso,
)
    requires
        svc.try_resume_rule(tenant, session_id, p, RestoreStep::Done(Ok(Some(restored)))),
    ensures
        p.session matches Some(Ok(Some(s))) && (p.now matches Some(now) && s.valid_at(now)) && restored.user_id
            == s.user_id && restored.auth_time == s.auth_time,
        p.user matches Some(Ok(Some(u))) && u.active(),
        p.member matches Some(Ok(true)),
{
}

impl RestoreProgress {
    /// The call `step` asks for something that is not known yet.
    pub open spec fn lacks_answer_to(self, step: RestoreStep) -> bool {
        match step {
            RestoreStep::FindSession { .. } => self.session is None,
            RestoreStep::ReadClock => self.now is None,
            RestoreStep::DeleteExpired { .. } => self.expired_deleted is None,
            RestoreStep::FindUser { .. } => self.user is None,
            RestoreStep::FindMembership { .. } => self.member is None,
            RestoreStep::ExtendIdle { .. } => self.extended is None,
            RestoreStep::Audit(_) => self.audits < 1,
            RestoreStep::Done(_) => true,
        }
    }
}

/// Nothing is asked for that is known already: every call that comes next fills a gap.
pub proof fn nothing_is_asked_twice(
    svc: SsoRestorer,
    tenant: TenantContext,
    session_id: Seq<char>,
    p: RestoreProgress,
    r: RestoreStep,
)
    requires
        svc.try_resume_rule(tenant, session_id, p, r),
    ensures
        p.lacks_answer_to(r),
{
}

/// Every call in going on with a sign-on is about the cookie that came with the request and the user
/// of the sign-on that was found under it: what is looked up, what is removed once it has ended, and
/// what is extended are kept under the same hash.
pub proof fn restoring_is_about_the_cookie(
    svc: SsoRestorer,
    tenant: TenantContext,
    session_id: Seq<char>,
    p: RestoreProgress,
    r: RestoreStep,
)
    requires
        svc.try_resume_rule(tenant, session_id, p, r),
    ensures
        match r {
            RestoreStep::FindSession { session_hash } => session_hash@ == hex_text(
                sha256_of(vstd::utf8::encode_utf8(session_id)),
            ),
            RestoreStep::ReadClock => p.session matches Some(Ok(Some(_))),
            RestoreStep::DeleteExpired { session_hash } => session_hash@ == hex_text(
                sha256_of(vstd::utf8::encode_utf8(session_id)),
            ) && (p.session matches Some(Ok(Some(s))) && (p.now matches Some(now)
                && (s.idle_expires_at.nanos <= now.nanos || s.absolute_expires_at.nanos
                <= now.nanos))),
            RestoreStep::FindUser { user_id } => p.session matches Some(Ok(Some(s))) && user_id
                == s.user_id,
            RestoreStep::FindMembership { tenant_id, user_id } => tenant_id == tenant.tenant_id && (
            p.session matches Some(Ok(Some(s))) && user_id == s.user_id),
            RestoreStep::ExtendIdle { session_hash, until } => session_hash@ == hex_text(
                sha256_of(vstd::utf8::encode_utf8(session_id)),
            ) && (p.now matches Some(now) && (now.wf() && svc.sso_idle_ttl.wf() ==> until.nanos
                == now.nanos + svc.sso_idle_ttl.nanos)) && p.member == Some(
                Ok::<bool, String>(true),
            ),
            RestoreStep::Audit(a) => a.tenant_id == Some(tenant.tenant_id) && a.client_id is None && (
            p.session matches Some(Ok(Some(s))) && a.user_id == Some(s.user_id)) && match a.result {
                AuditResult::Success => a.event == AuditEventType::SsoSessionResumed
                    && a.reason is None && (p.extended matches Some(Ok(_))),
                AuditResult::Failure => a.event == AuditEventType::SsoSessionExpired && a.reason
                    == Some(AuditReason::IdleOrAbsoluteTimeout) && (
                p.expired_deleted matches Some(Ok(_))),
            },
            RestoreStep::Done(Ok(Some(restored))) => (p.session matches Some(Ok(Some(s)))
                && restored.user_id == s.user_id && restored.auth_time == s.auth_time)
                && restored.session_hash@ == hex_text(
                sha256_of(vstd::utf8::encode_utf8(session_id)),
            ) && (p.extended matches Some(Ok(_))),
            RestoreStep::Done(Ok(None)) => p.session matches Some(Ok(found)) && (
            found matches Some(s) ==> (p.now matches Some(now) && (s.idle_expires_at.nanos
                <= now.nanos || s.absolute_expires_at.nanos <= now.nanos || p.member == Some(
                Ok::<bool, String>(false),
            ) || (p.user matches Some(Ok(owner)) && (owner matches Some(u) ==> u.status
                != crate::model::UserStatus::Active || (u.locked_until matches Some(until)
                && now.nanos < until.nanos)))))),
            RestoreStep::Done(Err(e)) => p.session == Some(Err::<Option<SsoSession>, String>(e))
                || p.expired_deleted == Some(Err::<(), String>(e)) || p.user == Some(
                Err::<Option<User>, String>(e),
            ) || p.member == Some(Err::<bool, String>(e)) || p.extended == Some(
                Err::<(), String>(e),
            ),
        },
{
}

/// A valid sign-on of an active member, with every call answered, goes on.
pub proof fn a_valid_sign_on_goes_on(
    svc: SsoRestorer,
    tenant: TenantContext,
    session_id: Seq<char>,
    p: RestoreProgress,
    s: SsoSession,
    now: Timestamp,
    user: User,
    r: RestoreStep,
)
    requires
        svc.try_resume_rule(tenant, session_id, p, r),
        p.session == Some(Ok::<Option<SsoSession>, String>(Some(s))),
        p.now == Some(now),
        now.nanos < s.idle_expires_at.nanos,
        now.nanos < s.absolute_expires_at.nanos,
        p.user == Some(Ok::<Option<User>, String>(Some(user))),
        user.status == crate::model::UserStatus::Active,
        user.locked_until is None,
        p.member == Some(Ok::<bool, String>(true)),
        p.extended == Some(Ok::<(), String>(())),
        p.audits > 0,
    ensures
        r matches RestoreStep::Done(Ok(Some(restored))) && restored.user_id == s.user_id
            && restored.auth_time == s.auth_time,
{
}

} // verus!
