//! Whom the text in a login form means.
//!
//! First the users who belong to the tenant itself; then, where the text is `local@domain` and the
//! domain is some tenant's, the members who belong to that tenant; then the tenant's guests. A stage
//! passes on only where it finds nobody: a text that means several people is not passed on.
use crate::model::{DomainError, Stored, TenantId, User};
use vstd::prelude::*;

verus! {

#[derive(Clone, Copy, Debug, PartialEq, Eq, Structural)]
pub enum UnresolvedReason {
    NotFound,
    Ambiguous,
}

pub enum LoginIdentifierMatch {
    Resolved(User),
    Unresolved(UnresolvedReason),
}

impl Clone for LoginIdentifierMatch {
    fn clone(&self) -> (r: LoginIdentifierMatch)
        ensures
            r == *self,
    {
        match self {
            LoginIdentifierMatch::Resolved(u) => LoginIdentifierMatch::Resolved(u.clone()),
            LoginIdentifierMatch::Unresolved(reason) => LoginIdentifierMatch::Unresolved(*reason),
        }
    }
}

impl LoginIdentifierMatch {
    /// Nobody was found.
    pub open spec fn nobody(self) -> bool {
        self == LoginIdentifierMatch::Unresolved(UnresolvedReason::NotFound)
    }

    /// Whether the text means anybody already, one person or several.
    pub fn is_taken(&self) -> (r: bool)
        ensures
            r == !self.nobody(),
    {
        match self {
            LoginIdentifierMatch::Resolved(_) => true,
            LoginIdentifierMatch::Unresolved(reason) => *reason == UnresolvedReason::Ambiguous,
        }
    }
}

/// A text of the form `local@domain`, taken apart.
pub struct QualifiedIdentifier {
    pub local_part: String,
    pub domain: String,
}

/// What is known so far.
#[derive(Default)]
pub struct ResolutionProgress {
    pub in_tenant: Stored<LoginIdentifierMatch>,
    /// The text taken apart, where it has the form.
    pub split: Option<Option<QualifiedIdentifier>>,
    /// The tenant that the domain belongs to.
    pub home: Stored<Option<TenantId>>,
    /// What the whole text means in that tenant.
    pub by_input: Stored<LoginIdentifierMatch>,
    /// What the local part means in that tenant.
    pub by_local: Stored<LoginIdentifierMatch>,
    pub guest: Stored<LoginIdentifierMatch>,
}

pub enum ResolutionStep {
    FindInTenant { tenant_id: TenantId, input: String },
    SplitQualified { input: String },
    FindTenantByDomain { domain: String },
    /// Among the tenant's members who belong to the home tenant.
    FindMember { tenant_id: TenantId, home_tenant_id: TenantId, input: String },
    FindGuest { tenant_id: TenantId, input: String },
    Done(Result<LoginIdentifierMatch, DomainError>),
}

/// Whether the next stage is asked: only where nobody was found.
pub fn should_continue(m: &LoginIdentifierMatch) -> (r: bool)
    ensures
        r == m.nobody(),
{
    match m {
        LoginIdentifierMatch::Unresolved(reason) => *reason == UnresolvedReason::NotFound,
        LoginIdentifierMatch::Resolved(_) => false,
    }
}

/// What the domain says; none where it leads nowhere.
pub open spec fn by_domain(tenant_id: TenantId, input: String, p: ResolutionProgress) -> Option<
    ResolutionStep,
> {
    match p.split {
        None => Some(ResolutionStep::SplitQualified { input }),
        Some(None) => None,
        Some(Some(q)) => match p.home {
            None => Some(ResolutionStep::FindTenantByDomain { domain: q.domain }),
            Some(Err(e)) => Some(ResolutionStep::Done(Err(e))),
            Some(Ok(None)) => None,
            Some(Ok(Some(home))) => if home != tenant_id && p.by_input is None {
                Some(ResolutionStep::FindMember { tenant_id, home_tenant_id: home, input })
            } else if home != tenant_id && p.by_input->0 is Err {
                Some(ResolutionStep::Done(Err(p.by_input->0->Err_0)))
            } else if home != tenant_id && !p.by_input->0->Ok_0.nobody() {
                Some(ResolutionStep::Done(Ok(p.by_input->0->Ok_0)))
            } else {
                match p.by_local {
                    None => Some(
                        ResolutionStep::FindMember {
                            tenant_id,
                            home_tenant_id: home,
                            input: q.local_part,
                        },
                    ),
                    Some(Err(e)) => Some(ResolutionStep::Done(Err(e))),
                    Some(Ok(m)) => if m.nobody() {
                        None
                    } else {
                        Some(ResolutionStep::Done(Ok(m)))
                    },
                }
            },
        },
    }
}

/// What comes next in finding out whom a text means.
pub open spec fn resolution(tenant_id: TenantId, input: String, p: ResolutionProgress) -> ResolutionStep {
    match p.in_tenant {
        None => ResolutionStep::FindInTenant { tenant_id, input },
        Some(Err(e)) => ResolutionStep::Done(Err(e)),
        Some(Ok(m)) => if !m.nobody() {
            ResolutionStep::Done(Ok(m))
        } else {
            match by_domain(tenant_id, input, p) {
                Some(step) => step,
                None => match p.guest {
                    None => ResolutionStep::FindGuest { tenant_id, input },
                    Some(r) => ResolutionStep::Done(r),
                },
            }
        },
    }
}

fn answer(r: &Result<LoginIdentifierMatch, DomainError>) -> (s: ResolutionStep)
    ensures
        s == ResolutionStep::Done(*r),
{
    match r {
        Ok(m) => ResolutionStep::Done(Ok(m.clone())),
        Err(e) => ResolutionStep::Done(Err(e.clone())),
    }
}

/// Decides what the domain says.
pub fn resolve_by_domain(tenant_id: TenantId, input: &String, p: &ResolutionProgress) -> (r: Option<
    ResolutionStep,
>)
    ensures
        r == by_domain(tenant_id, *input, *p),
{
    let q: &QualifiedIdentifier = match &p.split {
        None => return Some(ResolutionStep::SplitQualified { input: input.clone() }),
        Some(None) => return None,
        Some(Some(q)) => q,
    };
    let home: TenantId = match &p.home {
        None => return Some(ResolutionStep::FindTenantByDomain { domain: q.domain.clone() }),
        Some(Err(e)) => return Some(ResolutionStep::Done(Err(e.clone()))),
        Some(Ok(None)) => return None,
        Some(Ok(Some(home))) => *home,
    };
    if home != tenant_id {
        match &p.by_input {
            None => return Some(
                ResolutionStep::FindMember {
                    tenant_id,
                    home_tenant_id: home,
                    input: input.clone(),
                },
            ),
            Some(Err(e)) => return Some(ResolutionStep::Done(Err(e.clone()))),
            Some(Ok(m)) => if !should_continue(m) {
                return Some(ResolutionStep::Done(Ok(m.clone())));
            },
        }
    }
    match &p.by_local {
        None => Some(
            ResolutionStep::FindMember {
                tenant_id,
                home_tenant_id: home,
                input: q.local_part.clone(),
            },
        ),
        Some(Err(e)) => Some(ResolutionStep::Done(Err(e.clone()))),
        Some(Ok(m)) => if should_continue(m) {
            None
        } else {
            Some(ResolutionStep::Done(Ok(m.clone())))
        },
    }
}

/// Decides what comes next in finding out whom a text means.
pub fn resolve_login_user(tenant_id: TenantId, input: &String, p: &ResolutionProgress) -> (r:
    ResolutionStep)
    ensures
        r == resolution(tenant_id, *input, *p),
{
    match &p.in_tenant {
        None => return ResolutionStep::FindInTenant { tenant_id, input: input.clone() },
        Some(Err(e)) => return ResolutionStep::Done(Err(e.clone())),
        Some(Ok(m)) => if !should_continue(m) {
            return ResolutionStep::Done(Ok(m.clone()));
        },
    }
    if let Some(step) = resolve_by_domain(tenant_id, input, p) {
        return step;
    }
    match &p.guest {
        None => ResolutionStep::FindGuest { tenant_id, input: input.clone() },
        Some(r) => answer(r),
    }
}

/// Guests are asked for only where nobody who belongs to the tenant is meant and the domain leads
/// nowhere; so a guest never takes a name from a user of the tenant, and a text that means several
/// is not passed on to the guests.
pub proof fn guests_come_last(tenant_id: TenantId, input: String, p: ResolutionProgress)
    requires
        resolution(tenant_id, input, p) is FindGuest,
    ensures
        p.in_tenant matches Some(Ok(m)) && m.nobody(),
        by_domain(tenant_id, input, p) is None,
{
}

/// A text that means several people, at whatever stage, is answered as such.
pub proof fn an_ambiguous_text_stops_there(tenant_id: TenantId, input: String, p: ResolutionProgress)
    ensures
        p.in_tenant == Some(
            Ok::<LoginIdentifierMatch, DomainError>(
                LoginIdentifierMatch::Unresolved(UnresolvedReason::Ambiguous),
            ),
        ) ==> resolution(tenant_id, input, p) == ResolutionStep::Done(
            Ok(LoginIdentifierMatch::Unresolved(UnresolvedReason::Ambiguous)),
        ),
        (p.in_tenant matches Some(Ok(m)) && m.nobody()) && (p.split matches Some(Some(_))) && (
        p.home matches Some(Ok(Some(h))) && h != tenant_id) && p.by_input == Some(
            Ok::<LoginIdentifierMatch, DomainError>(
                LoginIdentifierMatch::Unresolved(UnresolvedReason::Ambiguous),
            ),
        ) ==> resolution(tenant_id, input, p) == ResolutionStep::Done(
            Ok(LoginIdentifierMatch::Unresolved(UnresolvedReason::Ambiguous)),
        ),
{
}

/// Where the domain is the tenant's own, only the local part is looked up; elsewhere the whole text
/// comes first, so that it wins over the local part.
pub proof fn the_whole_text_wins(tenant_id: TenantId, input: String, p: ResolutionProgress)
    requires
        p.in_tenant matches Some(Ok(m)) && m.nobody(),
        p.split matches Some(Some(_)),
        p.home matches Some(Ok(Some(_))),
        p.by_local is None,
    ensures
        (p.home->0->Ok_0->0 == tenant_id) ==> resolution(tenant_id, input, p)
            == (ResolutionStep::FindMember {
            tenant_id,
            home_tenant_id: tenant_id,
            input: p.split->0->0.local_part,
        }),
        (p.home->0->Ok_0->0 != tenant_id && p.by_input is None) ==> resolution(tenant_id, input, p)
            == (ResolutionStep::FindMember {
            tenant_id,
            home_tenant_id: p.home->0->Ok_0->0,
            input,
        }),
        (p.home->0->Ok_0->0 != tenant_id && (p.by_input matches Some(Ok(m)) && !m.nobody()))
            ==> resolution(tenant_id, input, p) == ResolutionStep::Done(p.by_input->0),
{
}

/// A text without a domain never leads to the domains.
pub proof fn a_bare_text_asks_for_no_domain(tenant_id: TenantId, input: String, p: ResolutionProgress)
    requires
        p.split matches Some(None),
    ensures
        !(resolution(tenant_id, input, p) is FindTenantByDomain),
        !(resolution(tenant_id, input, p) is FindMember),
{
}

/// Whom a text means is asked about that text, in the tenant at hand: whole among its own users and
/// among its guests; whole or by its local part among its members of the tenant that its domain belongs
/// to; and the answer is that of one of these questions.
pub proof fn the_text_given_is_resolved(tenant_id: TenantId, input: String, p: ResolutionProgress)
    ensures
        match resolution(tenant_id, input, p) {
            ResolutionStep::FindInTenant { tenant_id: t, input: asked } => t == tenant_id && asked
                == input,
            ResolutionStep::SplitQualified { input: asked } => asked == input,
            ResolutionStep::FindTenantByDomain { domain } => p.split matches Some(Some(q)) && domain
                == q.domain,
            ResolutionStep::FindMember { tenant_id: t, home_tenant_id, input: asked } => t == tenant_id
                && p.home == Some(Ok::<Option<TenantId>, DomainError>(Some(home_tenant_id))) && (
            p.split matches Some(Some(q)) && ((asked == input && home_tenant_id != tenant_id
                && p.by_input is None) || (asked == q.local_part && p.by_local is None))),
            ResolutionStep::FindGuest { tenant_id: t, input: asked } => t == tenant_id && asked
                == input,
            ResolutionStep::Done(answer) => p.in_tenant == Some(answer) || p.by_input == Some(answer)
                || p.by_local == Some(answer) || p.guest == Some(answer) || (answer matches Err(e)
                && p.home == Some(Err::<Option<TenantId>, DomainError>(e))),
        },
{
}

/// A user of the tenant is found whatever else is known; one who was found nowhere is nobody.
pub proof fn a_user_of_the_tenant_is_found(
    tenant_id: TenantId,
    input: String,
    p: ResolutionProgress,
    user: User,
)
    ensures
        p.in_tenant == Some(
            Ok::<LoginIdentifierMatch, DomainError>(LoginIdentifierMatch::Resolved(user)),
        ) ==> resolution(tenant_id, input, p) == ResolutionStep::Done(
            Ok(LoginIdentifierMatch::Resolved(user)),
        ),
        resolution(tenant_id, input, p) == ResolutionStep::Done(
            Ok(LoginIdentifierMatch::Unresolved(UnresolvedReason::NotFound)),
        ) ==> p.in_tenant == Some(
            Ok::<LoginIdentifierMatch, DomainError>(
                LoginIdentifierMatch::Unresolved(UnresolvedReason::NotFound),
            ),
        ) && p.guest is Some,
{
}

} // verus!
