//! Looking through a tenant's members.
use crate::model::{DomainError, TenantContext, TenantId, Uuid};
use crate::text::{opt_view, trim_to_option, trimmed, trimmed_or_none};
use vstd::prelude::*;

verus! {

/// How many members a page holds unless asked otherwise.
pub const DEFAULT_LIMIT: i64 = 50;

/// How many members a page holds at most.
pub const MAX_LIMIT: i64 = 200;

pub struct MemberSearchParams {
    pub search: Option<String>,
    pub limit: Option<i64>,
    pub offset: Option<i64>,
}

pub struct TenantMember {
    pub user_id: Uuid,
}

pub struct TenantMemberPage {
    pub members: Vec<TenantMember>,
    pub total: i64,
}

/// What is looked for.
pub struct TenantMemberFilter {
    pub tenant_id: TenantId,
    pub user_id: Option<Uuid>,
    pub search: Option<String>,
    pub limit: i64,
    pub offset: i64,
}

/// A page, with the limit and the offset that were applied.
pub struct MemberSearchResult {
    pub page: TenantMemberPage,
    pub limit: i64,
    pub offset: i64,
}

pub enum MemberSearchStep {
    Search(TenantMemberFilter),
    Done(Result<MemberSearchResult, DomainError>),
}

pub struct MemberDirectoryService {}

/// A page size between one and the greatest; the usual one where none or no positive one is given.
pub open spec fn clamped(limit: Option<i64>) -> i64 {
    match limit {
        Some(l) => if l <= 0 {
            DEFAULT_LIMIT
        } else if l < MAX_LIMIT {
            l
        } else {
            MAX_LIMIT
        },
        None => DEFAULT_LIMIT,
    }
}

/// An offset of at least nothing.
pub open spec fn offset_of(offset: Option<i64>) -> i64 {
    match offset {
        Some(o) => if o > 0 {
            o
        } else {
            0
        },
        None => 0,
    }
}

/// Brings a page size into its bounds.
pub fn clamp_limit(limit: Option<i64>) -> (r: i64)
    ensures
        r == clamped(limit),
        1 <= r <= MAX_LIMIT,
{
    match limit {
        Some(l) => if l <= 0 {
            DEFAULT_LIMIT
        } else if l < MAX_LIMIT {
            l
        } else {
            MAX_LIMIT
        },
        None => DEFAULT_LIMIT,
    }
}

/// Brings an offset into its bounds.
pub fn clamp_offset(offset: Option<i64>) -> (r: i64)
    ensures
        r == offset_of(offset),
        r >= 0,
{
    match offset {
        Some(o) => if o > 0 {
            o
        } else {
            0
        },
        None => 0,
    }
}

/// Trims a search text; an empty one looks for everything.
pub fn normalize(value: Option<String>) -> (r: Option<String>)
    ensures
        opt_view(r) == trimmed_or_none(opt_view(value)),
{
    trim_to_option(&value)
}

/// What comes next in looking through the members of a tenant.
pub open spec fn search_rule(
    tenant_id: TenantId,
    params: MemberSearchParams,
    found: Option<Result<TenantMemberPage, DomainError>>,
    r: MemberSearchStep,
) -> bool {
    match found {
        None => r matches MemberSearchStep::Search(f) && f.tenant_id == tenant_id
            && f.user_id is None && opt_view(f.search) == trimmed_or_none(
            opt_view(params.search),
        ) && f.limit == clamped(params.limit) && f.offset == offset_of(params.offset),
        Some(Err(e)) => r == MemberSearchStep::Done(Err(e)),
        Some(Ok(page)) => r == MemberSearchStep::Done(
            Ok(
                MemberSearchResult {
                    page,
                    limit: clamped(params.limit),
                    offset: offset_of(params.offset),
                },
            ),
        ),
    }
}

impl MemberDirectoryService {
    pub fn new() -> (r: Self)
        ensures
            r == (MemberDirectoryService {  }),
    {
        MemberDirectoryService {  }
    }

    /// Decides what comes next in looking through the members: always those of the tenant at hand.
    pub fn search(
        &self,
        tenant: &TenantContext,
        params: &MemberSearchParams,
        found: Option<Result<TenantMemberPage, DomainError>>,
    ) -> (r: MemberSearchStep)
        ensures
            search_rule(tenant.tenant_id, *params, found, r),
    {
        let limit: i64 = clamp_limit(params.limit);
        let offset: i64 = clamp_offset(params.offset);
        match found {
            None => MemberSearchStep::Search(
                TenantMemberFilter {
                    tenant_id: tenant.tenant_id,
                    user_id: None,
                    search: normalize(params.search.clone()),
                    limit,
                    offset,
                },
            ),
            Some(Err(e)) => MemberSearchStep::Done(Err(e)),
            Some(Ok(page)) => MemberSearchStep::Done(Ok(MemberSearchResult { page, limit, offset })),
        }
    }
}

/// A page has at least one member's room and at most two hundred; a size that was asked for within
/// these bounds is kept, and a larger size never makes a smaller page. An offset that can be is kept.
pub proof fn a_page_keeps_its_bounds(limit: Option<i64>, larger: Option<i64>, offset: Option<i64>)
    requires
        limit matches Some(a) ==> a > 0 && (larger matches Some(b) && a <= b),
    ensures
        1 <= clamped(limit) <= 200,
        limit matches Some(l) ==> (l <= 200 ==> clamped(limit) == l) && (l > 200 ==> clamped(limit)
            == 200),
        limit is None ==> clamped(limit) == 50,
        limit is Some ==> clamped(limit) <= clamped(larger),
        offset_of(offset) >= 0,
        offset matches Some(o) ==> (o >= 0 ==> offset_of(offset) == o) && (o < 0 ==> offset_of(offset)
            == 0),
        offset is None ==> offset_of(offset) == 0,
{
}

/// A size that is no size counts as none.
pub proof fn no_size_is_the_usual_size(limit: i64)
    requires
        limit <= 0,
    ensures
        clamped(Some(limit)) == clamped(None),
{
}

/// The members that are looked for are those of the tenant at hand, whoever they are, by the text that
/// was given without the space round it; and the page is reported as it was found, with the size and
/// the offset that were asked of the store.
pub proof fn a_search_stays_in_its_tenant(
    tenant_id: TenantId,
    params: MemberSearchParams,
    f: TenantMemberFilter,
    page: TenantMemberPage,
    shown: MemberSearchResult,
)
    requires
        search_rule(tenant_id, params, None, MemberSearchStep::Search(f)),
        search_rule(tenant_id, params, Some(Ok(page)), MemberSearchStep::Done(Ok(shown))),
    ensures
        f.tenant_id == tenant_id,
        f.user_id is None,
        f.search matches Some(text) ==> params.search is Some && text@ == trimmed(params.search->0@)
            && text@.len() > 0,
        f.search is None ==> params.search is None || trimmed(params.search->0@).len() == 0,
        shown.page == page,
        shown.limit == f.limit,
        shown.offset == f.offset,
        params.limit matches Some(l) ==> (1 <= l <= 200 ==> f.limit == l),
        params.offset matches Some(o) ==> (o >= 0 ==> f.offset == o),
{
}

} // verus!
