//! An administrator's note on a member.
use crate::audit::{
    admin_audit, admin_entry, AuditEventType, AuditReason, AuditRecord, AuditResult,
};
use crate::crypto::{uuid_text, uuid_text_of};
use crate::member_directory::TenantMemberFilter;
use crate::model::{AdminActor, MessageKey, Reply, TenantContext, TenantId, Uuid};
use crate::text::join2;
use crate::time::Timestamp;
use vstd::prelude::*;

verus! {

pub enum MemberNoteError {
    /// No member of this tenant.
    NotFound,
    Invalid(MessageKey),
    Internal(String),
}

/// What is known so far.
#[derive(Default)]
pub struct NoteProgress {
    /// The note as it is kept: nothing where nothing is left of it.
    pub text: Option<Result<Option<String>, MessageKey>>,
    /// How many members the search has found.
    pub members: Reply<usize>,
    pub written: Reply<()>,
    pub audits: usize,
}

pub enum NoteStep {
    Normalize { raw: String },
    FindMember(TenantMemberFilter),
    Save {
        tenant_id: TenantId,
        user_id: Uuid,
        text: String,
        author: Option<Uuid>,
        now: Timestamp,
    },
    Clear { tenant_id: TenantId, user_id: Uuid },
    Audit(AuditRecord),
    Done(Result<(), MemberNoteError>),
}

pub struct MemberNoteService {}

/// Only a member of this tenant has a note here.
pub open spec fn member_rule(
    tenant_id: TenantId,
    user_id: Uuid,
    members: Reply<usize>,
    r: Option<NoteStep>,
) -> bool {
    match members {
        None => r matches Some(NoteStep::FindMember(f)) && f == (TenantMemberFilter {
            tenant_id,
            user_id: Some(user_id),
            search: None,
            limit: 1,
            offset: 0,
        }),
        Some(Err(e)) => r == Some(NoteStep::Done(Err(MemberNoteError::Internal(e)))),
        Some(Ok(n)) => if n == 0 {
            r == Some(NoteStep::Done(Err(MemberNoteError::NotFound)))
        } else {
            r is None
        },
    }
}

/// What comes next in writing a note: a note of which nothing is left is removed.
pub open spec fn write_rule(
    tenant_id: TenantId,
    user_id: Uuid,
    raw: Seq<char>,
    actor: AdminActor,
    now: Timestamp,
    p: NoteProgress,
    r: NoteStep,
) -> bool {
    match p.text {
        None => r matches NoteStep::Normalize { raw: t } && t@ == raw,
        Some(Err(k)) => r == NoteStep::Done(Err(MemberNoteError::Invalid(k))),
        Some(Ok(text)) => exists|m: Option<NoteStep>| #[trigger]
            member_rule(tenant_id, user_id, p.members, m) && match m {
                Some(step) => r == step,
                None => match p.written {
                    None => r == match text {
                        Some(t) => NoteStep::Save {
                            tenant_id,
                            user_id,
                            text: t,
                            author: actor.user_id_of(),
                            now,
                        },
                        None => NoteStep::Clear { tenant_id, user_id },
                    },
                    Some(Err(e)) => r == NoteStep::Done(Err(MemberNoteError::Internal(e))),
                    Some(Ok(_)) => if p.audits == 0 {
                        r matches NoteStep::Audit(a) && admin_entry(
                            a,
                            AuditEventType::TenantMemberNoteUpdated,
                            tenant_id,
                            actor,
                            note_words(user_id, text is None),
                        )
                    } else {
                        r == NoteStep::Done(Ok(()))
                    },
                },
            },
    }
}

/// The words of the audit entry: the member, without the note itself.
pub open spec fn note_words(user_id: Uuid, cleared: bool) -> Seq<char> {
    if cleared {
        "member="@ + uuid_text_of(user_id.value) + " cleared"@
    } else {
        "member="@ + uuid_text_of(user_id.value)
    }
}

impl MemberNoteService {
    pub fn new() -> (r: Self)
        ensures
            r == (MemberNoteService {  }),
    {
        MemberNoteService {  }
    }

    /// Decides what comes next in making sure that a user is a member; nothing where they are.
    pub fn require_member(&self, tenant: &TenantContext, user_id: Uuid, members: &Reply<usize>) -> (r:
        Option<NoteStep>)
        ensures
            member_rule(tenant.tenant_id, user_id, *members, r),
    {
        match members {
            None => Some(
                NoteStep::FindMember(
                    TenantMemberFilter {
                        tenant_id: tenant.tenant_id,
                        user_id: Some(user_id),
                        search: None,
                        limit: 1,
                        offset: 0,
                    },
                ),
            ),
            Some(Err(e)) => Some(NoteStep::Done(Err(MemberNoteError::Internal(e.clone())))),
            Some(Ok(n)) => if *n == 0 {
                Some(NoteStep::Done(Err(MemberNoteError::NotFound)))
            } else {
                None
            },
        }
    }

    /// Decides what comes next in writing a note.
    pub fn write(
        &self,
        tenant: &TenantContext,
        user_id: Uuid,
        raw: &str,
        actor: &AdminActor,
        now: Timestamp,
        p: &NoteProgress,
    ) -> (r: NoteStep)
        ensures
            write_rule(tenant.tenant_id, user_id, raw@, *actor, now, *p, r),
    {
        let text: &Option<String> = match &p.text {
            None => return NoteStep::Normalize { raw: raw.to_owned() },
            Some(Err(k)) => return NoteStep::Done(Err(MemberNoteError::Invalid(k.clone()))),
            Some(Ok(text)) => text,
        };
        let member: Option<NoteStep> = self.require_member(tenant, user_id, &p.members);
        proof {
            assert(member_rule(tenant.tenant_id, user_id, p.members, member));
        }
        if let Some(step) = member {
            return step;
        }
        match &p.written {
            None => return match text {
                Some(t) => NoteStep::Save {
                    tenant_id: tenant.tenant_id,
                    user_id,
                    text: t.clone(),
                    author: actor.user_id(),
                    now,
                },
                None => NoteStep::Clear { tenant_id: tenant.tenant_id, user_id },
            },
            Some(Err(e)) => return NoteStep::Done(Err(MemberNoteError::Internal(e.clone()))),
            Some(Ok(_)) => {},
        }
        if p.audits > 0 {
            return NoteStep::Done(Ok(()));
        }
        let id: String = uuid_text(user_id.value);
        let mut words: String = join2("member=", id.as_str());
        if text.is_none() {
            words.append(" cleared");
        }
        NoteStep::Audit(
            admin_audit(AuditEventType::TenantMemberNoteUpdated, tenant.tenant_id, actor, words),
        )
    }
}

/// A note is written, or removed, only for a member of the tenant.
pub proof fn notes_are_kept_on_members(
    tenant_id: TenantId,
    user_id: Uuid,
    raw: Seq<char>,
    actor: AdminActor,
    now: Timestamp,
    p: NoteProgress,
    r: NoteStep,
)
    requires
        write_rule(tenant_id, user_id, raw, actor, now, p, r),
        r is Save || r is Clear,
    ensures
        p.members matches Some(Ok(n)) && n > 0,
{
}

impl NoteProgress {
    /// The call `step` asks for something that is not known yet.
    pub open spec fn lacks_answer_to(self, step: NoteStep) -> bool {
        match step {
            NoteStep::Normalize { .. } => self.text is None,
            NoteStep::FindMember(_) => self.members is None,
            NoteStep::Save { .. } => self.written is None,
            NoteStep::Clear { .. } => self.written is None,
            NoteStep::Audit(_) => self.audits < 1,
            NoteStep::Done(_) => true,
        }
    }
}

/// Nothing is asked for that is known already: every call that comes next fills a gap.
pub proof fn nothing_is_asked_twice(
    tenant_id: TenantId,
    user_id: Uuid,
    raw: Seq<char>,
    actor: AdminActor,
    now: Timestamp,
    p: NoteProgress,
    r: NoteStep,
)
    requires
        write_rule(tenant_id, user_id, raw, actor, now, p, r),
    ensures
        p.lacks_answer_to(r),
{
}

/// A note is about the member who was named, in the tenant at hand: it is made of the text that was
/// given, kept as it was made of it, signed by the user who has written it, and removed exactly where
/// nothing is left of it; the entry names the member and who has acted, and not the note.
pub proof fn a_note_is_about_the_member_named(
    tenant_id: TenantId,
    user_id: Uuid,
    raw: Seq<char>,
    actor: AdminActor,
    now: Timestamp,
    p: NoteProgress,
    r: NoteStep,
)
    requires
        write_rule(tenant_id, user_id, raw, actor, now, p, r),
    ensures
        match r {
            NoteStep::Normalize { raw: asked } => asked@ == raw,
            NoteStep::FindMember(f) => f.tenant_id == tenant_id && f.user_id == Some(user_id)
                && f.search is None && f.limit == 1 && f.offset == 0,
            NoteStep::Save { tenant_id: t, user_id: u, text, author, now: at } => t == tenant_id && u
                == user_id && p.text == Some(Ok::<Option<String>, MessageKey>(Some(text))) && (
            actor matches AdminActor::User(id) ==> author == Some(id)) && (actor is Client
                ==> author is None) && at == now && (p.members matches Some(Ok(n)) && n > 0),
            NoteStep::Clear { tenant_id: t, user_id: u } => t == tenant_id && u == user_id && p.text
                == Some(Ok::<Option<String>, MessageKey>(None)) && (p.members matches Some(Ok(n)) && n
                > 0),
            NoteStep::Audit(a) => a.event == AuditEventType::TenantMemberNoteUpdated && a.result
                == AuditResult::Success && a.tenant_id == Some(tenant_id) && (
            actor matches AdminActor::User(id) ==> a.user_id == Some(id) && a.client_id is None) && (
            actor matches AdminActor::Client { client_id, .. } ==> a.user_id is None && a.client_id
                == Some(client_id)) && (p.written matches Some(Ok(_))) && (a.reason matches Some(
                AuditReason::Words(w),
            ) && (p.text == Some(Ok::<Option<String>, MessageKey>(None)) ==> w@ == "member="@
                + uuid_text_of(user_id.value) + " cleared"@) && (p.text != Some(
                Ok::<Option<String>, MessageKey>(None),
            ) ==> w@ == "member="@ + uuid_text_of(user_id.value))),
            NoteStep::Done(Ok(_)) => (p.written matches Some(Ok(_))) && p.audits > 0,
            NoteStep::Done(Err(MemberNoteError::NotFound)) => p.members == Some(
                Ok::<usize, String>(0),
            ),
            NoteStep::Done(Err(MemberNoteError::Invalid(k))) => p.text == Some(
                Err::<Option<String>, MessageKey>(k),
            ),
            NoteStep::Done(Err(MemberNoteError::Internal(e))) => p.members == Some(
                Err::<usize, String>(e),
            ) || p.written == Some(Err::<(), String>(e)),
        },
{
}

} // verus!
