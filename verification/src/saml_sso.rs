//! Signing on to a SAML service provider at its request.
//!
//! A request is handed to the pages by a handle that serves once; an assertion goes only to the
//! address that the provider has registered; and each request yields at most one assertion.
use crate::audit::{AuditEventType, AuditReason, AuditRecord, AuditResult};
use crate::crypto::{
    base64_encode, base64_of, sha256_hex, sha256_hex_of, uuid_text, uuid_text_of,
};
use crate::key_service::ActiveSigningKey;
use crate::model::{non_empty, present, Reply, TenantContext, TenantId, User, Uuid};
use crate::sso_restore::RestoredSso;
use crate::text::{contains_part, has_part, join2, opt_view, same};
use crate::time::{Span, Timestamp};
use vstd::prelude::*;

verus! {

/// For how many seconds a handle serves.
pub const HANDLE_TTL_SECS: i64 = 60;

/// For how many seconds an assertion is valid.
pub const ASSERTION_TTL_SECS: i64 = 300;

/// How many bytes a request's identifier may have.
pub const MAX_REQUEST_ID_LEN: usize = 1024;

/// How many bytes a relay state may have.
pub const MAX_RELAY_STATE_LEN: usize = 1024;

/// How a request came in.
#[derive(Clone, Copy, Debug, PartialEq, Eq, Structural)]
pub enum SamlSsoBinding {
    Redirect,
    Post,
}

pub struct SamlBeginCommand {
    pub binding: SamlSsoBinding,
    pub saml_request: String,
    pub relay_state: Option<String>,
}

pub enum SamlBeginOutcome {
    HandoffToWeb { handle: String },
    BadRequest { reason: String },
    Internal(String),
}

pub struct SamlResumeCommand {
    pub handle: Option<String>,
    pub saml_request_id: Option<String>,
    pub sso_session_id: Option<String>,
}

pub enum SamlResumeOutcome {
    Completed { acs_url: String, saml_response: String, relay_state: Option<String> },
    LoginRequired { saml_request_id: String },
    Expired,
    Internal(String),
}

/// What a request says.
pub struct AuthnRequest {
    pub issuer: String,
    pub acs_url: Option<String>,
    pub request_id: Option<String>,
}

pub struct SamlServiceProvider {
    pub id: Uuid,
    pub tenant_id: TenantId,
    pub display_name: String,
    pub entity_id: String,
    pub acs_url: String,
    pub name_id_format: String,
    pub x509_certificate: Option<String>,
    pub enabled: bool,
}

/// A request under way.
pub struct SamlSsoRequest {
    pub id: String,
    pub tenant_id: TenantId,
    pub service_provider_id: Uuid,
    pub sp_entity_id: String,
    pub acs_url: String,
    pub request_id: Option<String>,
    pub relay_state: Option<String>,
    pub handle_hash: Option<String>,
    pub handle_expires_at: Option<Timestamp>,
    pub expires_at: Timestamp,
    pub created_at: Timestamp,
}

/// What an assertion says.
pub struct SamlResponseInput {
    pub response_id: String,
    pub assertion_id: String,
    pub issued_at: Timestamp,
    pub idp_entity_id: String,
    pub sp_entity_id: String,
    pub acs_url: String,
    pub in_response_to: Option<String>,
    pub name_id: String,
    pub name_id_format: String,
    pub authn_instant: Timestamp,
    pub session_index: String,
    pub not_on_or_after: Timestamp,
    pub email: Option<String>,
}

/// What was drawn for a request.
pub struct SamlBeginDraw {
    pub now: Timestamp,
    pub handle: String,
    pub request_row: String,
}

/// What was drawn for an assertion.
pub struct SamlResponseDraw {
    pub now: Timestamp,
    pub response_id: String,
    pub assertion_id: String,
}

#[derive(Default)]
pub struct SamlBeginProgress {
    pub parsed: Reply<AuthnRequest>,
    pub provider: Reply<Option<SamlServiceProvider>>,
    pub stored: Reply<()>,
    pub audits: usize,
}

pub enum SamlBeginStep {
    ParseRequest { binding: SamlSsoBinding, saml_request: String },
    FindProvider { tenant_id: TenantId, entity_id: String },
    StoreRequest(SamlSsoRequest),
    Audit(AuditRecord),
    Done(SamlBeginOutcome),
}

#[derive(Default)]
pub struct SamlResumeProgress {
    pub by_handle: Reply<Option<SamlSsoRequest>>,
    pub handle_consumed: Reply<bool>,
    pub by_id: Reply<Option<SamlSsoRequest>>,
    /// What came of going on with the sign-on.
    pub restored: Reply<Option<RestoredSso>>,
    pub provider: Reply<Option<SamlServiceProvider>>,
    /// Whether the removal of a request without a provider was carried out.
    pub orphan_deleted: bool,
    /// Whether the request was removed, or another was first.
    pub claimed: Reply<bool>,
    pub user: Reply<Option<User>>,
    pub key: Reply<ActiveSigningKey>,
    /// The tenant's issuer.
    pub issuer: Option<String>,
    /// The signed document.
    pub document: Reply<String>,
    pub audits: usize,
}

pub enum SamlResumeStep {
    FindByHandle { tenant_id: TenantId, handle_hash: String },
    ConsumeHandle { request_id: String, handle_hash: String },
    FindById { tenant_id: TenantId, request_id: String },
    RestoreSso { tenant_id: TenantId, sso_session_id: String },
    FindProvider { tenant_id: TenantId, id: Uuid },
    DeleteOrphan { request_id: String },
    ClaimRequest { request_id: String },
    FindUser { user_id: Uuid },
    FindSigningKey,
    /// Composes the issuer of the tenant.
    ComposeIssuer { base_issuer: String, tenant_id: TenantId },
    /// Builds the document and signs it with a key.
    BuildResponse { input: SamlResponseInput, algorithm: String, private_pem: String },
    Audit(AuditRecord),
    Done(SamlResumeOutcome),
}

/// What comes next in making an assertion.
pub enum IssueStep {
    Call(SamlResumeStep),
    Failed(String),
    Issued(String),
}

/// Which request is resumed, as far as it is known.
pub enum RequestStep {
    Call(SamlResumeStep),
    /// The request that the handle leads to.
    ByHandle,
    /// The request of the given identifier.
    ById,
}

pub struct SamlSsoService {
    /// The issuer of the provider, of which those of its tenants are made.
    pub base_issuer: String,
    pub request_ttl: Span,
}

impl SamlSsoRequest {
    pub open spec fn expired_at(self, now: Timestamp) -> bool {
        self.expires_at.nanos <= now.nanos
    }

    pub open spec fn handle_valid_at(self, now: Timestamp) -> bool {
        self.handle_expires_at matches Some(t) && now.nanos < t.nanos
    }

    pub fn is_expired_at(&self, now: Timestamp) -> (r: bool)
        ensures
            r == self.expired_at(now),
    {
        self.expires_at.at_or_before(now)
    }

    pub fn handle_is_valid_at(&self, now: Timestamp) -> (r: bool)
        ensures
            r == self.handle_valid_at(now),
    {
        match self.handle_expires_at {
            Some(t) => now.before(t),
            None => false,
        }
    }
}

/// A text of more than `max` bytes.
pub open spec fn longer_than(text: Option<Seq<char>>, max: int) -> bool {
    text matches Some(t) && vstd::utf8::encode_utf8(t).len() > max
}

fn exceeds(text: &str, max: usize) -> (r: bool)
    ensures
        r == (vstd::utf8::encode_utf8(text@).len() > max),
{
    text.as_bytes().len() > max
}

/// A refusal is audited, then answered with the same reason.
pub open spec fn reject_rule(
    tenant_id: TenantId,
    sp_entity_id: Option<String>,
    reason: Seq<char>,
    audits: usize,
    r: SamlBeginStep,
) -> bool {
    if audits == 0 {
        r matches SamlBeginStep::Audit(a) && a.event == AuditEventType::SamlResponseIssued
            && a.result == AuditResult::Failure && a.tenant_id == Some(tenant_id) && a.user_id is None
            && a.client_id == sp_entity_id && (a.reason matches Some(AuditReason::Words(w)) && w@
            == reason)
    } else {
        r matches SamlBeginStep::Done(SamlBeginOutcome::BadRequest { reason: m }) && m@ == reason
    }
}

/// What a request is stored as: bound to the provider's registered address, with a handle of which
/// only the hash is kept.
pub open spec fn stores_request(
    q: SamlSsoRequest,
    tenant_id: TenantId,
    parsed: AuthnRequest,
    provider: SamlServiceProvider,
    relay_state: Option<String>,
    draw: SamlBeginDraw,
    request_ttl: Span,
) -> bool {
    &&& q.id == draw.request_row
    &&& q.tenant_id == tenant_id
    &&& q.service_provider_id == provider.id
    &&& q.sp_entity_id == provider.entity_id
    &&& q.acs_url == provider.acs_url
    &&& q.request_id == parsed.request_id
    &&& opt_view(q.relay_state) == present(relay_state)
    &&& opt_view(q.handle_hash) == Some(sha256_hex_of(draw.handle@))
    &&& q.handle_expires_at == Some(draw.now.later(Span::of_seconds(HANDLE_TTL_SECS as int)))
    &&& q.expires_at == draw.now.later(request_ttl)
    &&& q.created_at == draw.now
}

impl SamlSsoService {
    pub fn new(base_issuer: String, request_ttl: Span) -> (r: Self)
        ensures
            r.base_issuer == base_issuer,
            r.request_ttl == request_ttl,
    {
        SamlSsoService { base_issuer, request_ttl }
    }

    /// What comes next for a request that came in.
    pub open spec fn begin_rule(
        self,
        tenant: TenantContext,
        cmd: SamlBeginCommand,
        draw: SamlBeginDraw,
        p: SamlBeginProgress,
        r: SamlBeginStep,
    ) -> bool {
        let tenant_id = tenant.tenant_id;
        match p.parsed {
            None => r == (SamlBeginStep::ParseRequest {
                binding: cmd.binding,
                saml_request: cmd.saml_request,
            }),
            Some(Err(e)) => reject_rule(tenant_id, None, e@, p.audits, r),
            Some(Ok(parsed)) => match p.provider {
                None => r == (SamlBeginStep::FindProvider { tenant_id, entity_id: parsed.issuer }),
                Some(Err(e)) => r == SamlBeginStep::Done(SamlBeginOutcome::Internal(e)),
                Some(Ok(None)) => reject_rule(
                    tenant_id,
                    Some(parsed.issuer),
                    "unknown SAML service provider"@,
                    p.audits,
                    r,
                ),
                Some(Ok(Some(provider))) => if !provider.enabled {
                    reject_rule(
                        tenant_id,
                        Some(parsed.issuer),
                        "SAML service provider is disabled"@,
                        p.audits,
                        r,
                    )
                } else if parsed.acs_url is Some && parsed.acs_url->0@ != provider.acs_url@ {
                    reject_rule(
                        tenant_id,
                        Some(parsed.issuer),
                        "AssertionConsumerServiceURL does not match the registered ACS URL"@,
                        p.audits,
                        r,
                    )
                } else if longer_than(opt_view(parsed.request_id), MAX_REQUEST_ID_LEN as int) {
                    reject_rule(
                        tenant_id,
                        Some(parsed.issuer),
                        "AuthnRequest ID is too long"@,
                        p.audits,
                        r,
                    )
                } else if longer_than(present(cmd.relay_state), MAX_RELAY_STATE_LEN as int) {
                    reject_rule(
                        tenant_id,
                        Some(parsed.issuer),
                        "RelayState is too long"@,
                        p.audits,
                        r,
                    )
                } else {
                    match p.stored {
                        None => r matches SamlBeginStep::StoreRequest(q) && stores_request(
                            q,
                            tenant_id,
                            parsed,
                            provider,
                            cmd.relay_state,
                            draw,
                            self.request_ttl,
                        ),
                        Some(Err(e)) => r == SamlBeginStep::Done(SamlBeginOutcome::Internal(e)),
                        Some(Ok(_)) => r == SamlBeginStep::Done(
                            SamlBeginOutcome::HandoffToWeb { handle: draw.handle },
                        ),
                    }
                },
            },
        }
    }

    /// Decides what comes next in refusing a request.
    pub fn reject(
        &self,
        tenant: &TenantContext,
        sp_entity_id: Option<String>,
        reason: &str,
        audits: usize,
    ) -> (r: SamlBeginStep)
        ensures
            reject_rule(tenant.tenant_id, sp_entity_id, reason@, audits, r),
    {
        if audits == 0 {
            SamlBeginStep::Audit(
                AuditRecord {
                    event: AuditEventType::SamlResponseIssued,
                    result: AuditResult::Failure,
                    tenant_id: Some(tenant.tenant_id),
                    user_id: None,
                    client_id: sp_entity_id,
                    reason: Some(AuditReason::Words(reason.to_owned())),
                },
            )
        } else {
            SamlBeginStep::Done(SamlBeginOutcome::BadRequest { reason: reason.to_owned() })
        }
    }

    /// Decides what comes next for a request that came in.
    pub fn begin(
        &self,
        tenant: &TenantContext,
        cmd: &SamlBeginCommand,
        draw: &SamlBeginDraw,
        p: &SamlBeginProgress,
    ) -> (r: SamlBeginStep)
        requires
            draw.now.can_add(Span::of_seconds(HANDLE_TTL_SECS as int)),
            draw.now.can_add(self.request_ttl),
        ensures
            self.begin_rule(*tenant, *cmd, *draw, *p, r),
    {
        let parsed: &AuthnRequest = match &p.parsed {
            None => return SamlBeginStep::ParseRequest {
                binding: cmd.binding,
                saml_request: cmd.saml_request.clone(),
            },
            Some(Err(e)) => return self.reject(tenant, None, e.as_str(), p.audits),
            Some(Ok(parsed)) => parsed,
        };
        let provider: &SamlServiceProvider = match &p.provider {
            None => return SamlBeginStep::FindProvider {
                tenant_id: tenant.tenant_id,
                entity_id: parsed.issuer.clone(),
            },
            Some(Err(e)) => return SamlBeginStep::Done(SamlBeginOutcome::Internal(e.clone())),
            Some(Ok(None)) => return self.reject(
                tenant,
                Some(parsed.issuer.clone()),
                "unknown SAML service provider",
                p.audits,
            ),
            Some(Ok(Some(provider))) => provider,
        };
        if !provider.enabled {
            return self.reject(
                tenant,
                Some(parsed.issuer.clone()),
                "SAML service provider is disabled",
                p.audits,
            );
        }
        if let Some(acs_url) = &parsed.acs_url {
            if !same(acs_url.as_str(), provider.acs_url.as_str()) {
                return self.reject(
                    tenant,
                    Some(parsed.issuer.clone()),
                    "AssertionConsumerServiceURL does not match the registered ACS URL",
                    p.audits,
                );
            }
        }
        if let Some(id) = &parsed.request_id {
            if exceeds(id.as_str(), MAX_REQUEST_ID_LEN) {
                return self.reject(
                    tenant,
                    Some(parsed.issuer.clone()),
                    "AuthnRequest ID is too long",
                    p.audits,
                );
            }
        }
        let relay_state: Option<String> = match non_empty(&cmd.relay_state) {
            Some(s) => {
                if exceeds(s.as_str(), MAX_RELAY_STATE_LEN) {
                    return self.reject(
                        tenant,
                        Some(parsed.issuer.clone()),
                        "RelayState is too long",
                        p.audits,
                    );
                }
                Some(s.clone())
            },
            None => None,
        };
        match &p.stored {
            None => SamlBeginStep::StoreRequest(
                SamlSsoRequest {
                    id: draw.request_row.clone(),
                    tenant_id: tenant.tenant_id,
                    service_provider_id: provider.id,
                    sp_entity_id: provider.entity_id.clone(),
                    acs_url: provider.acs_url.clone(),
                    request_id: parsed.request_id.clone(),
                    relay_state,
                    handle_hash: Some(sha256_hex(draw.handle.as_str())),
                    handle_expires_at: Some(draw.now.plus(Span::seconds(HANDLE_TTL_SECS))),
                    expires_at: draw.now.plus(self.request_ttl),
                    created_at: draw.now,
                },
            ),
            Some(Err(e)) => SamlBeginStep::Done(SamlBeginOutcome::Internal(e.clone())),
            Some(Ok(_)) => SamlBeginStep::Done(
                SamlBeginOutcome::HandoffToWeb { handle: draw.handle.clone() },
            ),
        }
    }

    /// Which request is resumed: a handle leads to a live request whose handle is valid, and is used
    /// up; without a handle, the given identifier leads to a live request.
    pub open spec fn request_rule(
        tenant_id: TenantId,
        cmd: SamlResumeCommand,
        now: Timestamp,
        p: SamlResumeProgress,
        r: RequestStep,
    ) -> bool {
        let expired = RequestStep::Call(SamlResumeStep::Done(SamlResumeOutcome::Expired));
        match present(cmd.handle) {
            Some(handle) => match p.by_handle {
                None => r matches RequestStep::Call(
                    SamlResumeStep::FindByHandle { tenant_id: t, handle_hash },
                ) && t == tenant_id && handle_hash@ == sha256_hex_of(handle),
                Some(Err(e)) => r == RequestStep::Call(
                    SamlResumeStep::Done(SamlResumeOutcome::Internal(e)),
                ),
                Some(Ok(None)) => r == expired,
                Some(Ok(Some(q))) => if !q.handle_valid_at(now) || q.expired_at(now) {
                    r == expired
                } else {
                    match p.handle_consumed {
                        None => r matches RequestStep::Call(
                            SamlResumeStep::ConsumeHandle { request_id, handle_hash },
                        ) && request_id == q.id && handle_hash@ == sha256_hex_of(handle),
                        Some(Err(e)) => r == RequestStep::Call(
                            SamlResumeStep::Done(SamlResumeOutcome::Internal(e)),
                        ),
                        Some(Ok(false)) => r == expired,
                        Some(Ok(true)) => r == RequestStep::ByHandle,
                    }
                },
            },
            None => match present(cmd.saml_request_id) {
                None => r == expired,
                Some(_) => match p.by_id {
                    None => r == RequestStep::Call(
                        SamlResumeStep::FindById { tenant_id, request_id: cmd.saml_request_id->0 },
                    ),
                    Some(Err(e)) => r == RequestStep::Call(
                        SamlResumeStep::Done(SamlResumeOutcome::Internal(e)),
                    ),
                    Some(Ok(found)) => if !(found matches Some(q) && !q.expired_at(now)) {
                        r == expired
                    } else {
                        r == RequestStep::ById
                    },
                },
            },
        }
    }

    fn find_request(
        &self,
        tenant_id: TenantId,
        cmd: &SamlResumeCommand,
        now: Timestamp,
        p: &SamlResumeProgress,
    ) -> (r: RequestStep)
        ensures
            Self::request_rule(tenant_id, *cmd, now, *p, r),
            r is ByHandle ==> p.by_handle matches Some(Ok(Some(_))),
            r is ById ==> p.by_id matches Some(Ok(Some(_))),
    {
        if let Some(handle) = non_empty(&cmd.handle) {
            let q: &SamlSsoRequest = match &p.by_handle {
                None => return RequestStep::Call(
                    SamlResumeStep::FindByHandle {
                        tenant_id,
                        handle_hash: sha256_hex(handle.as_str()),
                    },
                ),
                Some(Err(e)) => return RequestStep::Call(
                    SamlResumeStep::Done(SamlResumeOutcome::Internal(e.clone())),
                ),
                Some(Ok(None)) => return RequestStep::Call(
                    SamlResumeStep::Done(SamlResumeOutcome::Expired),
                ),
                Some(Ok(Some(q))) => q,
            };
            if !q.handle_is_valid_at(now) || q.is_expired_at(now) {
                return RequestStep::Call(SamlResumeStep::Done(SamlResumeOutcome::Expired));
            }
            return match &p.handle_consumed {
                None => RequestStep::Call(
                    SamlResumeStep::ConsumeHandle {
                        request_id: q.id.clone(),
                        handle_hash: sha256_hex(handle.as_str()),
                    },
                ),
                Some(Err(e)) => RequestStep::Call(
                    SamlResumeStep::Done(SamlResumeOutcome::Internal(e.clone())),
                ),
                Some(Ok(consumed)) => if *consumed {
                    RequestStep::ByHandle
                } else {
                    RequestStep::Call(SamlResumeStep::Done(SamlResumeOutcome::Expired))
                },
            };
        }
        let id: &String = match non_empty(&cmd.saml_request_id) {
            None => return RequestStep::Call(SamlResumeStep::Done(SamlResumeOutcome::Expired)),
            Some(id) => id,
        };
        match &p.by_id {
            None => RequestStep::Call(SamlResumeStep::FindById { tenant_id, request_id: id.clone() }),
            Some(Err(e)) => RequestStep::Call(
                SamlResumeStep::Done(SamlResumeOutcome::Internal(e.clone())),
            ),
            Some(Ok(None)) => RequestStep::Call(SamlResumeStep::Done(SamlResumeOutcome::Expired)),
            Some(Ok(Some(q))) => if q.is_expired_at(now) {
                RequestStep::Call(SamlResumeStep::Done(SamlResumeOutcome::Expired))
            } else {
                RequestStep::ById
            },
        }
    }

    /// By what name the user is known to the provider.
    pub open spec fn name_id_of(provider: SamlServiceProvider, user: User) -> Seq<char> {
        if has_part(provider.name_id_format@, "emailAddress"@) {
            user.email@
        } else {
            uuid_text_of(user.sub.value)
        }
    }

    /// What the assertion says: of the user, for the provider, to the address of the request, about
    /// the sign-on, and for five minutes.
    pub open spec fn is_input(
        i: SamlResponseInput,
        issuer: String,
        request: SamlSsoRequest,
        provider: SamlServiceProvider,
        user: User,
        restored: RestoredSso,
        draw: SamlResponseDraw,
    ) -> bool {
        &&& i.response_id == draw.response_id
        &&& i.assertion_id == draw.assertion_id
        &&& i.issued_at == draw.now
        &&& i.idp_entity_id == issuer
        &&& i.sp_entity_id == request.sp_entity_id
        &&& i.acs_url == request.acs_url
        &&& i.in_response_to == request.request_id
        &&& i.name_id@ == Self::name_id_of(provider, user)
        &&& i.name_id_format == provider.name_id_format
        &&& i.authn_instant == restored.auth_time
        &&& i.session_index@ == "_"@ + restored.session_hash@
        &&& i.not_on_or_after == draw.now.later(Span::of_seconds(ASSERTION_TTL_SECS as int))
        &&& i.email == Some(user.email)
    }

    /// What comes next in making an assertion.
    pub open spec fn issue_rule(
        self,
        tenant: TenantContext,
        request: SamlSsoRequest,
        provider: SamlServiceProvider,
        restored: RestoredSso,
        draw: SamlResponseDraw,
        p: SamlResumeProgress,
        r: IssueStep,
    ) -> bool {
        match p.user {
            None => r == IssueStep::Call(SamlResumeStep::FindUser { user_id: restored.user_id }),
            Some(Err(e)) => r == IssueStep::Failed(e),
            Some(Ok(None)) => r matches IssueStep::Failed(m) && m@ == "SSO user not found"@,
            Some(Ok(Some(user))) => match p.key {
                None => r == IssueStep::Call(SamlResumeStep::FindSigningKey),
                Some(Err(e)) => r matches IssueStep::Failed(m) && m@ == "no active signing key: "@
                    + e@,
                Some(Ok(_)) if p.issuer is None => r == IssueStep::Call(
                    SamlResumeStep::ComposeIssuer {
                        base_issuer: self.base_issuer,
                        tenant_id: tenant.tenant_id,
                    },
                ),
                Some(Ok(key)) => match p.document {
                    None => r matches IssueStep::Call(
                        SamlResumeStep::BuildResponse { input, algorithm, private_pem },
                    ) && Self::is_input(input, p.issuer->0, request, provider, user, restored, draw)
                        && algorithm == key.algorithm && private_pem == key.private_pem,
                    Some(Err(e)) => r == IssueStep::Failed(e),
                    Some(Ok(xml)) => if p.audits == 0 {
                        r == IssueStep::Call(
                            SamlResumeStep::Audit(
                                AuditRecord {
                                    event: AuditEventType::SamlResponseIssued,
                                    result: AuditResult::Success,
                                    tenant_id: Some(tenant.tenant_id),
                                    user_id: Some(user.id),
                                    client_id: Some(request.sp_entity_id),
                                    reason: None,
                                },
                            ),
                        )
                    } else {
                        r matches IssueStep::Issued(encoded) && encoded@ == base64_of(
                            vstd::utf8::encode_utf8(xml@),
                        )
                    },
                },
            },
        }
    }

    /// Decides what comes next in making an assertion.
    pub fn issue_response(
        &self,
        tenant: &TenantContext,
        request: &SamlSsoRequest,
        provider: &SamlServiceProvider,
        restored: &RestoredSso,
        draw: &SamlResponseDraw,
        p: &SamlResumeProgress,
    ) -> (r: IssueStep)
        requires
            draw.now.can_add(Span::of_seconds(ASSERTION_TTL_SECS as int)),
        ensures
            self.issue_rule(*tenant, *request, *provider, *restored, *draw, *p, r),
    {
        let user: &User = match &p.user {
            None => return IssueStep::Call(SamlResumeStep::FindUser { user_id: restored.user_id }),
            Some(Err(e)) => return IssueStep::Failed(e.clone()),
            Some(Ok(None)) => return IssueStep::Failed("SSO user not found".to_owned()),
            Some(Ok(Some(user))) => user,
        };
        let key: &ActiveSigningKey = match &p.key {
            None => return IssueStep::Call(SamlResumeStep::FindSigningKey),
            Some(Err(e)) => return IssueStep::Failed(join2("no active signing key: ", e.as_str())),
            Some(Ok(key)) => key,
        };
        let issuer: &String = match &p.issuer {
            None => return IssueStep::Call(
                SamlResumeStep::ComposeIssuer {
                    base_issuer: self.base_issuer.clone(),
                    tenant_id: tenant.tenant_id,
                },
            ),
            Some(issuer) => issuer,
        };
        match &p.document {
            None => {
                let name_id: String = if contains_part(
                    provider.name_id_format.as_str(),
                    "emailAddress",
                ) {
                    user.email.clone()
                } else {
                    uuid_text(user.sub.value)
                };
                IssueStep::Call(
                    SamlResumeStep::BuildResponse {
                        input: SamlResponseInput {
                            response_id: draw.response_id.clone(),
                            assertion_id: draw.assertion_id.clone(),
                            issued_at: draw.now,
                            idp_entity_id: issuer.clone(),
                            sp_entity_id: request.sp_entity_id.clone(),
                            acs_url: request.acs_url.clone(),
                            in_response_to: request.request_id.clone(),
                            name_id,
                            name_id_format: provider.name_id_format.clone(),
                            authn_instant: restored.auth_time,
                            session_index: join2("_", restored.session_hash.as_str()),
                            not_on_or_after: draw.now.plus(Span::seconds(ASSERTION_TTL_SECS)),
                            email: Some(user.email.clone()),
                        },
                        algorithm: key.algorithm.clone(),
                        private_pem: key.private_pem.clone(),
                    },
                )
            },
            Some(Err(e)) => IssueStep::Failed(e.clone()),
            Some(Ok(xml)) => if p.audits == 0 {
                IssueStep::Call(
                    SamlResumeStep::Audit(
                        AuditRecord {
                            event: AuditEventType::SamlResponseIssued,
                            result: AuditResult::Success,
                            tenant_id: Some(tenant.tenant_id),
                            user_id: Some(user.id),
                            client_id: Some(request.sp_entity_id.clone()),
                            reason: None,
                        },
                    ),
                )
            } else {
                IssueStep::Issued(base64_encode(xml.as_str().as_bytes()))
            },
        }
    }

    /// The request and the sign-on are known: the provider must still be there and enabled; the
    /// request is claimed, and only then is the assertion made.
    pub open spec fn complete_rule(
        self,
        tenant: TenantContext,
        request: SamlSsoRequest,
        restored: RestoredSso,
        draw: SamlResponseDraw,
        p: SamlResumeProgress,
        r: SamlResumeStep,
    ) -> bool {
        match p.provider {
            None => r == (SamlResumeStep::FindProvider {
                tenant_id: tenant.tenant_id,
                id: request.service_provider_id,
            }),
            Some(Err(e)) => r == SamlResumeStep::Done(SamlResumeOutcome::Internal(e)),
            Some(Ok(found)) => if !(found matches Some(s) && s.enabled) {
                if p.orphan_deleted {
                    r == SamlResumeStep::Done(SamlResumeOutcome::Expired)
                } else {
                    r == (SamlResumeStep::DeleteOrphan { request_id: request.id })
                }
            } else {
                match p.claimed {
                    None => r == (SamlResumeStep::ClaimRequest { request_id: request.id }),
                    Some(Err(e)) => r == SamlResumeStep::Done(SamlResumeOutcome::Internal(e)),
                    Some(Ok(false)) => r == SamlResumeStep::Done(SamlResumeOutcome::Expired),
                    Some(Ok(true)) => exists|i: IssueStep| #[trigger]
                        self.issue_rule(tenant, request, found->0, restored, draw, p, i) && match i {
                            IssueStep::Call(step) => r == step,
                            IssueStep::Failed(e) => r == SamlResumeStep::Done(
                                SamlResumeOutcome::Internal(e),
                            ),
                            IssueStep::Issued(encoded) => r == SamlResumeStep::Done(
                                SamlResumeOutcome::Completed {
                                    acs_url: request.acs_url,
                                    saml_response: encoded,
                                    relay_state: request.relay_state,
                                },
                            ),
                        },
                }
            },
        }
    }

    /// A request is resumed: without a sign-on that goes on, the user has to log in. A failure to go
    /// on with it counts as none.
    pub open spec fn session_rule(
        self,
        tenant: TenantContext,
        cmd: SamlResumeCommand,
        request: SamlSsoRequest,
        draw: SamlResponseDraw,
        p: SamlResumeProgress,
        r: SamlResumeStep,
    ) -> bool {
        let login = SamlResumeStep::Done(
            SamlResumeOutcome::LoginRequired { saml_request_id: request.id },
        );
        match present(cmd.sso_session_id) {
            None => r == login,
            Some(_) => match p.restored {
                None => r == (SamlResumeStep::RestoreSso {
                    tenant_id: tenant.tenant_id,
                    sso_session_id: cmd.sso_session_id->0,
                }),
                Some(Ok(Some(restored))) => self.complete_rule(
                    tenant,
                    request,
                    restored,
                    draw,
                    p,
                    r,
                ),
                _ => r == login,
            },
        }
    }

    /// What comes next in resuming a request.
    pub open spec fn resume_rule(
        self,
        tenant: TenantContext,
        cmd: SamlResumeCommand,
        now: Timestamp,
        draw: SamlResponseDraw,
        p: SamlResumeProgress,
        r: SamlResumeStep,
    ) -> bool {
        exists|q: RequestStep| #[trigger]
            Self::request_rule(tenant.tenant_id, cmd, now, p, q) && match q {
                RequestStep::Call(step) => r == step,
                RequestStep::ByHandle => self.session_rule(
                    tenant,
                    cmd,
                    p.by_handle->0->Ok_0->0,
                    draw,
                    p,
                    r,
                ),
                RequestStep::ById => self.session_rule(
                    tenant,
                    cmd,
                    p.by_id->0->Ok_0->0,
                    draw,
                    p,
                    r,
                ),
            }
    }

    fn complete(
        &self,
        tenant: &TenantContext,
        request: &SamlSsoRequest,
        restored: &RestoredSso,
        draw: &SamlResponseDraw,
        p: &SamlResumeProgress,
    ) -> (r: SamlResumeStep)
        requires
            draw.now.can_add(Span::of_seconds(ASSERTION_TTL_SECS as int)),
        ensures
            self.complete_rule(*tenant, *request, *restored, *draw, *p, r),
    {
        let provider: Option<&SamlServiceProvider> = match &p.provider {
            None => return SamlResumeStep::FindProvider {
                tenant_id: tenant.tenant_id,
                id: request.service_provider_id,
            },
            Some(Err(e)) => return SamlResumeStep::Done(SamlResumeOutcome::Internal(e.clone())),
            Some(Ok(Some(s))) => if s.enabled {
                Some(s)
            } else {
                None
            },
            Some(Ok(None)) => None,
        };
        let provider: &SamlServiceProvider = match provider {
            Some(s) => s,
            None => {
                if p.orphan_deleted {
                    return SamlResumeStep::Done(SamlResumeOutcome::Expired);
                }
                return SamlResumeStep::DeleteOrphan { request_id: request.id.clone() };
            },
        };
        match &p.claimed {
            None => return SamlResumeStep::ClaimRequest { request_id: request.id.clone() },
            Some(Err(e)) => return SamlResumeStep::Done(SamlResumeOutcome::Internal(e.clone())),
            Some(Ok(claimed)) => if !*claimed {
                return SamlResumeStep::Done(SamlResumeOutcome::Expired);
            },
        }
        let i: IssueStep = self.issue_response(tenant, request, provider, restored, draw, p);
        let ghost step = i;
        proof {
            assert(self.issue_rule(*tenant, *request, *provider, *restored, *draw, *p, step));
        }
        match i {
            IssueStep::Call(step) => step,
            IssueStep::Failed(e) => SamlResumeStep::Done(SamlResumeOutcome::Internal(e)),
            IssueStep::Issued(encoded) => SamlResumeStep::Done(
                SamlResumeOutcome::Completed {
                    acs_url: request.acs_url.clone(),
                    saml_response: encoded,
                    relay_state: request.relay_state.clone(),
                },
            ),
        }
    }

    fn with_session(
        &self,
        tenant: &TenantContext,
        cmd: &SamlResumeCommand,
        request: &SamlSsoRequest,
        draw: &SamlResponseDraw,
        p: &SamlResumeProgress,
    ) -> (r: SamlResumeStep)
        requires
            draw.now.can_add(Span::of_seconds(ASSERTION_TTL_SECS as int)),
        ensures
            self.session_rule(*tenant, *cmd, *request, *draw, *p, r),
    {
        if let Some(session_id) = non_empty(&cmd.sso_session_id) {
            match &p.restored {
                None => return SamlResumeStep::RestoreSso {
                    tenant_id: tenant.tenant_id,
                    sso_session_id: session_id.clone(),
                },
                Some(Ok(Some(restored))) => {
                    return self.complete(tenant, request, restored, draw, p);
                },
                _ => {},
            }
        }
        SamlResumeStep::Done(
            SamlResumeOutcome::LoginRequired { saml_request_id: request.id.clone() },
        )
    }

    /// Decides what comes next in resuming a request.
    pub fn resume(
        &self,
        tenant: &TenantContext,
        cmd: &SamlResumeCommand,
        now: Timestamp,
        draw: &SamlResponseDraw,
        p: &SamlResumeProgress,
    ) -> (r: SamlResumeStep)
        requires
            draw.now.can_add(Span::of_seconds(ASSERTION_TTL_SECS as int)),
        ensures
            self.resume_rule(*tenant, *cmd, now, *draw, *p, r),
    {
        let q: RequestStep = self.find_request(tenant.tenant_id, cmd, now, p);
        let ghost found = q;
        proof {
            assert(Self::request_rule(tenant.tenant_id, *cmd, now, *p, found));
        }
        match q {
            RequestStep::Call(step) => step,
            RequestStep::ByHandle => match &p.by_handle {
                Some(Ok(Some(request))) => self.with_session(tenant, cmd, request, draw, p),
                _ => SamlResumeStep::Done(SamlResumeOutcome::Expired),
            },
            RequestStep::ById => match &p.by_id {
                Some(Ok(Some(request))) => self.with_session(tenant, cmd, request, draw, p),
                _ => SamlResumeStep::Done(SamlResumeOutcome::Expired),
            },
        }
    }
}

/// A request is taken on only from an enabled provider of the tenant, and only for the address that
/// the provider has registered.
pub proof fn assertions_go_to_registered_addresses(
    svc: SamlSsoService,
    tenant: TenantContext,
    cmd: SamlBeginCommand,
    draw: SamlBeginDraw,
    p: SamlBeginProgress,
    stored: SamlSsoRequest,
)
    requires
        svc.begin_rule(tenant, cmd, draw, p, SamlBeginStep::StoreRequest(stored)),
    ensures
        p.provider matches Some(Ok(Some(provider))) && provider.enabled && stored.acs_url
            == provider.acs_url && (p.parsed matches Some(Ok(parsed)) && (parsed.acs_url matches Some(
            u,
        ) ==> u@ == provider.acs_url@)),
{
}

/// An assertion is made, and handed over, only after its request was claimed, within a sign-on that
/// goes on, and for a provider that is enabled at that time.
pub proof fn one_assertion_for_a_request(
    svc: SamlSsoService,
    tenant: TenantContext,
    cmd: SamlResumeCommand,
    now: Timestamp,
    draw: SamlResponseDraw,
    p: SamlResumeProgress,
    r: SamlResumeStep,
)
    requires
        svc.resume_rule(tenant, cmd, now, draw, p, r),
        r is BuildResponse || (r matches SamlResumeStep::Done(SamlResumeOutcome::Completed { .. })),
    ensures
        p.claimed matches Some(Ok(true)),
        p.restored matches Some(Ok(Some(_))),
        p.provider matches Some(Ok(Some(provider))) && provider.enabled,
{
}

/// A handle serves once: nothing is done for it before it was used up.
pub proof fn a_handle_serves_once(
    svc: SamlSsoService,
    tenant: TenantContext,
    cmd: SamlResumeCommand,
    now: Timestamp,
    draw: SamlResponseDraw,
    p: SamlResumeProgress,
    r: SamlResumeStep,
)
    requires
        svc.resume_rule(tenant, cmd, now, draw, p, r),
        present(cmd.handle) is Some,
        r is RestoreSso || r is ClaimRequest || r is BuildResponse || (r matches SamlResumeStep::Done(
            o,
        ) && (o is LoginRequired || o is Completed)),
    ensures
        p.handle_consumed matches Some(Ok(true)),
        p.by_handle matches Some(Ok(Some(q))) && q.handle_valid_at(now) && !q.expired_at(now),
{
}

impl SamlBeginProgress {
    /// The call `step` asks for something that is not known yet.
    pub open spec fn lacks_answer_to(self, step: SamlBeginStep) -> bool {
        match step {
            SamlBeginStep::ParseRequest { .. } => self.parsed is None,
            SamlBeginStep::FindProvider { .. } => self.provider is None,
            SamlBeginStep::StoreRequest(_) => self.stored is None,
            SamlBeginStep::Audit(_) => self.audits < 1,
            SamlBeginStep::Done(_) => true,
        }
    }
}

/// Nothing is asked for that is known already: every call that comes next fills a gap.
pub proof fn a_beginning_asks_nothing_twice(
    svc: SamlSsoService,
    tenant: TenantContext,
    cmd: SamlBeginCommand,
    draw: SamlBeginDraw,
    p: SamlBeginProgress,
    r: SamlBeginStep,
)
    requires
        svc.begin_rule(tenant, cmd, draw, p, r),
    ensures
        p.lacks_answer_to(r),
{
}

impl SamlResumeProgress {
    /// The call `step` asks for something that is not known yet.
    pub open spec fn lacks_answer_to(self, step: SamlResumeStep) -> bool {
        match step {
            SamlResumeStep::FindByHandle { .. } => self.by_handle is None,
            SamlResumeStep::ConsumeHandle { .. } => self.handle_consumed is None,
            SamlResumeStep::FindById { .. } => self.by_id is None,
            SamlResumeStep::RestoreSso { .. } => self.restored is None,
            SamlResumeStep::FindProvider { .. } => self.provider is None,
            SamlResumeStep::DeleteOrphan { .. } => !self.orphan_deleted,
            SamlResumeStep::ClaimRequest { .. } => self.claimed is None,
            SamlResumeStep::FindUser { .. } => self.user is None,
            SamlResumeStep::FindSigningKey => self.key is None,
            SamlResumeStep::ComposeIssuer { .. } => self.issuer is None,
            SamlResumeStep::BuildResponse { .. } => self.document is None,
            SamlResumeStep::Audit(_) => self.audits < 1,
            SamlResumeStep::Done(_) => true,
        }
    }
}

/// Nothing is asked for that is known already: every call that comes next fills a gap.
pub proof fn a_resumption_asks_nothing_twice(
    svc: SamlSsoService,
    tenant: TenantContext,
    cmd: SamlResumeCommand,
    now: Timestamp,
    draw: SamlResponseDraw,
    p: SamlResumeProgress,
    r: SamlResumeStep,
)
    requires
        svc.resume_rule(tenant, cmd, now, draw, p, r),
    ensures
        p.lacks_answer_to(r),
{
}

/// Every assertion that is built is the one that was asked for when its request was taken on: it is
/// issued by the tenant's composed issuer, meant for the provider that the request was stored for,
/// to the address that this provider had registered, and in answer to the request's identifier.
pub proof fn an_assertion_answers_its_request(
    svc: SamlSsoService,
    tenant: TenantContext,
    begun: SamlBeginCommand,
    begun_with: SamlBeginDraw,
    beginning: SamlBeginProgress,
    stored: SamlSsoRequest,
    cmd: SamlResumeCommand,
    now: Timestamp,
    draw: SamlResponseDraw,
    p: SamlResumeProgress,
    input: SamlResponseInput,
    algorithm: String,
    private_pem: String,
)
    requires
        call_ensures(
            SamlSsoService::begin,
            (&svc, &tenant, &begun, &begun_with, &beginning),
            SamlBeginStep::StoreRequest(stored),
        ),
        (cmd.handle matches Some(h) && h@.len() > 0 && p.by_handle == Some(
            Ok::<Option<SamlSsoRequest>, String>(Some(stored)),
        )) || ((cmd.handle is None || cmd.handle->0@.len() == 0) && p.by_id == Some(
            Ok::<Option<SamlSsoRequest>, String>(Some(stored)),
        )),
        call_ensures(
            SamlSsoService::resume,
            (&svc, &tenant, &cmd, now, &draw, &p),
            SamlResumeStep::BuildResponse { input, algorithm, private_pem },
        ),
    ensures
        p.issuer == Some(input.idp_entity_id),
        beginning.provider matches Some(Ok(Some(provider))) && input.sp_entity_id
            == provider.entity_id && input.acs_url == provider.acs_url,
        beginning.parsed matches Some(Ok(parsed)) && input.in_response_to == parsed.request_id,
{
}

/// Whatever request it answers, an assertion names the composed issuer, the entity, the address and
/// the identifier of the request that was found, the user of the sign-on that goes on, when that user
/// was authenticated, and an end five minutes after its issue; and it is signed with the active key.
pub proof fn an_assertion_tells_of_the_sign_on(
    svc: SamlSsoService,
    tenant: TenantContext,
    cmd: SamlResumeCommand,
    now: Timestamp,
    draw: SamlResponseDraw,
    p: SamlResumeProgress,
    input: SamlResponseInput,
    algorithm: String,
    private_pem: String,
)
    requires
        call_ensures(
            SamlSsoService::resume,
            (&svc, &tenant, &cmd, now, &draw, &p),
            SamlResumeStep::BuildResponse { input, algorithm, private_pem },
        ),
    ensures
        p.issuer == Some(input.idp_entity_id),
        cmd.handle matches Some(h) && h@.len() > 0 ==> (p.by_handle matches Some(Ok(Some(q)))
            && input.sp_entity_id == q.sp_entity_id && input.acs_url == q.acs_url
            && input.in_response_to == q.request_id),
        cmd.handle is None || cmd.handle->0@.len() == 0 ==> (p.by_id matches Some(Ok(Some(q)))
            && input.sp_entity_id == q.sp_entity_id && input.acs_url == q.acs_url
            && input.in_response_to == q.request_id),
        p.user matches Some(Ok(Some(user))) && input.email == Some(user.email) && (input.name_id@
            == user.email@ || input.name_id@ == uuid_text_of(user.sub.value)),
        p.provider matches Some(Ok(Some(provider))) && input.name_id_format
            == provider.name_id_format && (has_part(provider.name_id_format@, "emailAddress"@) ==> (
        p.user matches Some(Ok(Some(user))) && input.name_id@ == user.email@)) && (!has_part(
            provider.name_id_format@,
            "emailAddress"@,
        ) ==> (p.user matches Some(Ok(Some(user))) && input.name_id@ == uuid_text_of(
            user.sub.value,
        ))),
        p.restored matches Some(Ok(Some(restored))) && input.authn_instant == restored.auth_time
            && input.session_index@ == seq!['_'] + restored.session_hash@,
        input.response_id == draw.response_id,
        input.assertion_id == draw.assertion_id,
        input.issued_at == draw.now,
        draw.now.wf() ==> input.not_on_or_after.nanos
            == draw.now.nanos + 300_000_000_000,
        p.key matches Some(Ok(key)) && algorithm == key.algorithm && private_pem
            == key.private_pem,
{
    reveal_strlit("_");
    assert("_"@ =~= seq!['_']);
}

/// What is handed over is the signed document, in base64, at the address and with the relay state of
/// the request that was taken on.
pub proof fn a_response_is_handed_to_its_provider(
    svc: SamlSsoService,
    tenant: TenantContext,
    begun: SamlBeginCommand,
    begun_with: SamlBeginDraw,
    beginning: SamlBeginProgress,
    stored: SamlSsoRequest,
    cmd: SamlResumeCommand,
    now: Timestamp,
    draw: SamlResponseDraw,
    p: SamlResumeProgress,
    to: String,
    response: String,
    relay: Option<String>,
)
    requires
        call_ensures(
            SamlSsoService::begin,
            (&svc, &tenant, &begun, &begun_with, &beginning),
            SamlBeginStep::StoreRequest(stored),
        ),
        (cmd.handle matches Some(h) && h@.len() > 0 && p.by_handle == Some(
            Ok::<Option<SamlSsoRequest>, String>(Some(stored)),
        )) || ((cmd.handle is None || cmd.handle->0@.len() == 0) && p.by_id == Some(
            Ok::<Option<SamlSsoRequest>, String>(Some(stored)),
        )),
        call_ensures(
            SamlSsoService::resume,
            (&svc, &tenant, &cmd, now, &draw, &p),
            SamlResumeStep::Done(
                SamlResumeOutcome::Completed {
                    acs_url: to,
                    saml_response: response,
                    relay_state: relay,
                },
            ),
        ),
    ensures
        beginning.provider matches Some(Ok(Some(provider))) && to == provider.acs_url,
        relay matches Some(state) ==> begun.relay_state is Some && state@ == begun.relay_state->0@,
        relay is None ==> begun.relay_state is None || begun.relay_state->0@.len() == 0,
        p.document matches Some(Ok(xml)) && response@ == base64_of(
            vstd::utf8::encode_utf8(xml@),
        ),
        p.audits > 0,
{
}

/// A handle leads back to the request it was given out for: the browser gets the handle that was
/// drawn, what is stored of it is its hash, and that hash is what is looked for, and used up, when
/// the handle comes back.
pub proof fn a_handle_leads_to_its_request(
    svc: SamlSsoService,
    tenant: TenantContext,
    begun: SamlBeginCommand,
    begun_with: SamlBeginDraw,
    storing: SamlBeginProgress,
    stored: SamlSsoRequest,
    ended: SamlBeginProgress,
    handle: String,
    cmd: SamlResumeCommand,
    now: Timestamp,
    draw: SamlResponseDraw,
    p: SamlResumeProgress,
    r: SamlResumeStep,
)
    requires
        call_ensures(
            SamlSsoService::begin,
            (&svc, &tenant, &begun, &begun_with, &storing),
            SamlBeginStep::StoreRequest(stored),
        ),
        call_ensures(
            SamlSsoService::begin,
            (&svc, &tenant, &begun, &begun_with, &ended),
            SamlBeginStep::Done(SamlBeginOutcome::HandoffToWeb { handle }),
        ),
        cmd.handle == Some(handle),
        handle@.len() > 0,
        call_ensures(SamlSsoService::resume, (&svc, &tenant, &cmd, now, &draw, &p), r),
    ensures
        r matches SamlResumeStep::FindByHandle { tenant_id, handle_hash } ==> tenant_id
            == stored.tenant_id && stored.handle_hash is Some && handle_hash@
            == stored.handle_hash->0@,
        r matches SamlResumeStep::ConsumeHandle { request_id, handle_hash } ==> (
        p.by_handle matches Some(Ok(Some(q))) && request_id == q.id) && stored.handle_hash is Some
            && handle_hash@ == stored.handle_hash->0@,
        stored.handle_hash is Some && stored.handle_hash->0@ == sha256_hex_of(handle@),
        ended.stored matches Some(Ok(_)),
{
}

/// What is stored of a request is the tenant's, of the provider that was found, as of now; its
/// handle is good for a minute, and the request for as long as the service says.
pub proof fn a_request_is_stored_as_it_came(
    svc: SamlSsoService,
    tenant: TenantContext,
    cmd: SamlBeginCommand,
    draw: SamlBeginDraw,
    p: SamlBeginProgress,
    r: SamlBeginStep,
)
    requires
        call_ensures(SamlSsoService::begin, (&svc, &tenant, &cmd, &draw, &p), r),
    ensures
        match r {
            SamlBeginStep::ParseRequest { binding, saml_request } => binding == cmd.binding
                && saml_request == cmd.saml_request,
            SamlBeginStep::FindProvider { tenant_id, entity_id } => tenant_id == tenant.tenant_id
                && (p.parsed matches Some(Ok(parsed)) && entity_id == parsed.issuer),
            SamlBeginStep::StoreRequest(q) => (q.request_id matches Some(said)
                ==> vstd::utf8::encode_utf8(said@).len() <= 1024) && (q.relay_state matches Some(state)
                ==> vstd::utf8::encode_utf8(state@).len() <= 1024) && q.id == draw.request_row && q.tenant_id
                == tenant.tenant_id && q.created_at == draw.now && (p.provider matches Some(
                Ok(Some(provider)),
            ) && q.service_provider_id == provider.id && q.sp_entity_id == provider.entity_id
                && q.acs_url == provider.acs_url && provider.enabled) && (
            draw.now.wf() && svc.request_ttl.wf() ==> q.expires_at.nanos == draw.now.nanos
                + svc.request_ttl.nanos) && (draw.now.wf() ==> (
            q.handle_expires_at matches Some(at) && at.nanos == draw.now.nanos + 60_000_000_000)),
            SamlBeginStep::Audit(a) => a.event == AuditEventType::SamlResponseIssued && a.result
                == AuditResult::Failure && a.tenant_id == Some(tenant.tenant_id) && a.user_id is None
                && (a.client_id matches Some(id) ==> (p.parsed matches Some(Ok(parsed)) && id
                == parsed.issuer)) && (a.client_id is None ==> (p.parsed matches Some(Err(_)))),
            SamlBeginStep::Done(SamlBeginOutcome::Internal(e)) => p.provider == Some(
                Err::<Option<SamlServiceProvider>, String>(e),
            ) || p.stored == Some(Err::<(), String>(e)),
            SamlBeginStep::Done(SamlBeginOutcome::HandoffToWeb { handle }) => handle == draw.handle
                && (p.stored matches Some(Ok(_))),
            SamlBeginStep::Done(SamlBeginOutcome::BadRequest { reason }) => p.audits > 0 && (
            p.parsed matches Some(parsed) && match parsed {
                Err(e) => reason@ == e@,
                Ok(said) => p.provider matches Some(Ok(found)) && match found {
                    None => true,
                    Some(provider) => !provider.enabled || (said.acs_url is Some
                        && said.acs_url->0@ != provider.acs_url@) || (said.request_id is Some
                        && vstd::utf8::encode_utf8(said.request_id->0@).len() > 1024) || (
                    cmd.relay_state is Some && vstd::utf8::encode_utf8(cmd.relay_state->0@).len()
                        > 1024),
                },
            }),
        },
{
}

/// Every call of a resumption is about the request that was found, its provider and the sign-on; and
/// each way it ends has its cause.
pub proof fn a_resumption_is_about_its_request(
    svc: SamlSsoService,
    tenant: TenantContext,
    cmd: SamlResumeCommand,
    now: Timestamp,
    draw: SamlResponseDraw,
    p: SamlResumeProgress,
    q: SamlSsoRequest,
    r: SamlResumeStep,
)
    requires
        call_ensures(SamlSsoService::resume, (&svc, &tenant, &cmd, now, &draw, &p), r),
        (cmd.handle matches Some(h) && h@.len() > 0 && p.by_handle == Some(
            Ok::<Option<SamlSsoRequest>, String>(Some(q)),
        )) || ((cmd.handle is None || cmd.handle->0@.len() == 0) && p.by_id == Some(
            Ok::<Option<SamlSsoRequest>, String>(Some(q)),
        )),
    ensures
        match r {
            SamlResumeStep::FindByHandle { .. } => false,
            SamlResumeStep::FindById { .. } => false,
            SamlResumeStep::ConsumeHandle { request_id, .. } => request_id == q.id && (
            q.handle_expires_at matches Some(end) && now.nanos < end.nanos) && now.nanos
                < q.expires_at.nanos,
            SamlResumeStep::RestoreSso { tenant_id, sso_session_id } => tenant_id
                == tenant.tenant_id && cmd.sso_session_id == Some(sso_session_id),
            SamlResumeStep::FindProvider { tenant_id, id } => tenant_id == tenant.tenant_id && id
                == q.service_provider_id,
            SamlResumeStep::DeleteOrphan { request_id } => request_id == q.id && (
            p.provider matches Some(Ok(found)) && (found matches Some(s) ==> !s.enabled)),
            SamlResumeStep::ClaimRequest { request_id } => request_id == q.id,
            SamlResumeStep::FindUser { user_id } => p.restored matches Some(Ok(Some(restored)))
                && user_id == restored.user_id,
            SamlResumeStep::ComposeIssuer { base_issuer, tenant_id } => base_issuer
                == svc.base_issuer && tenant_id == tenant.tenant_id,
            SamlResumeStep::Audit(a) => a.event == AuditEventType::SamlResponseIssued && a.result
                == AuditResult::Success && a.tenant_id == Some(tenant.tenant_id) && a.client_id
                == Some(q.sp_entity_id) && a.reason is None && (p.user matches Some(Ok(Some(user)))
                && a.user_id == Some(user.id)) && (p.document matches Some(Ok(_))),
            SamlResumeStep::Done(SamlResumeOutcome::LoginRequired { saml_request_id }) =>
            saml_request_id == q.id && (cmd.sso_session_id is None
                || cmd.sso_session_id->0@.len() == 0 || (p.restored matches Some(restored) && !(
            restored matches Ok(Some(_))))),
            SamlResumeStep::Done(SamlResumeOutcome::Expired) => q.expires_at.nanos <= now.nanos || (
            cmd.handle is Some && (q.handle_expires_at is None || q.handle_expires_at->0.nanos
                <= now.nanos || p.handle_consumed == Some(Ok::<bool, String>(false)))) || (
            p.provider matches Some(Ok(found)) && (found matches Some(s) ==> !s.enabled)
                && p.orphan_deleted) || p.claimed == Some(Ok::<bool, String>(false)) || (
            cmd.saml_request_id is None || cmd.saml_request_id->0@.len() == 0),
            _ => true,
        },
        q.expires_at.nanos <= now.nanos ==> r == SamlResumeStep::Done(SamlResumeOutcome::Expired),
{
}

} // verus!
