//! Signing out at a client's request.
//!
//! A hint that names another user than the one who is signed on ends nothing. Where the hint does
//! not hold, nobody is sent anywhere.
use crate::audit::{AuditEventType, AuditReason, AuditRecord, AuditResult};
use crate::crypto::{
    es256_holds, hex_text, jwt_header, jwt_header_of, jwt_signature_holds, jwt_verify,
    percent_encode, percent_text, rs256_holds, sha256_hex, sha256_hex_of, sha256_of, token_payload,
    token_payload_of, uuid_text, uuid_text_of, JwtHeader,
};
use crate::key_service::{SigningAlgorithm, SigningKey};
use crate::model::{
    non_empty, present, Client, Reply, SsoSession, TenantContext, TenantId, User, Uuid,
};
use crate::text::{find_char, first_at, first_at_is_first, opt_view, same, views};
use crate::time::Timestamp;
use vstd::prelude::*;

verus! {

/// A client that is told that a sign-on has ended.
pub struct BackchannelTarget {
    pub client_id: String,
    pub backchannel_logout_uri: String,
}

/// What a hint that holds says.
pub struct VerifiedIdTokenHint {
    /// Whom the client wants to sign out.
    pub subject: String,
    /// The client that the token was issued to.
    pub client_id: String,
}

/// What is read of a hint's payload.
pub struct IdTokenHintClaims {
    pub iss: String,
    pub sub: String,
    pub aud: String,
}

pub enum IdTokenHintOutcome {
    Absent,
    Verified(VerifiedIdTokenHint),
    Invalid,
}

pub enum LogoutOutcome {
    Completed(LogoutResult),
    /// The hint names another user: nothing was done, and the cookie must stay.
    SubjectMismatch,
}

pub struct LogoutResult {
    pub user_sub: Option<String>,
    pub user_id: Option<Uuid>,
    pub sid: Option<String>,
    pub backchannel_targets: Vec<BackchannelTarget>,
    pub frontchannel_uris: Vec<String>,
    pub post_logout_redirect_uri: Option<String>,
}

/// What a client asks for.
pub struct LogoutCommand {
    pub sso_session_id: Option<String>,
    pub client_id_hint: Option<String>,
    pub id_token_hint: Option<String>,
    pub post_logout_redirect_uri: Option<String>,
}

/// A sign-on with the `sid` that its tokens carry.
pub struct FoundSession {
    pub session: SsoSession,
    pub sid: String,
}

/// What is known of a request so far.
#[derive(Default)]
pub struct LogoutProgress {
    pub hint_key: Reply<Option<SigningKey>>,
    /// The claims of the hint, where its payload can be read as such.
    pub hint_claims: Option<Option<IdTokenHintClaims>>,
    /// The tenant's issuer.
    pub issuer: Option<String>,
    pub session: Reply<Option<FoundSession>>,
    pub user: Reply<Option<User>>,
    /// Whether each of these was tried; a failure does not matter.
    pub session_deleted: bool,
    pub codes_revoked: bool,
    pub clients: Reply<Vec<Client>>,
    pub audits: usize,
}

/// What comes next: a call to make, or the outcome.
pub enum LogoutStep {
    FindKey { kid: String },
    /// Reads the payload as claims, each once and of its type.
    ReadClaims { payload: Vec<u8> },
    /// Composes the issuer of the tenant.
    ComposeIssuer { base_issuer: String, tenant_id: TenantId },
    FindSession { session_hash: String },
    FindUser { user_id: Uuid },
    DeleteSession { session_hash: String },
    RevokeCodes { user_id: Uuid, now: Timestamp },
    ListClients { tenant_id: TenantId },
    Audit(AuditRecord),
    Done(LogoutOutcome),
}

/// What comes next in checking a hint.
pub enum HintStep {
    FindKey { kid: String },
    /// Reads the payload as claims, each once and of its type.
    ReadClaims { payload: Vec<u8> },
    /// Composes the issuer of the tenant.
    ComposeIssuer { base_issuer: String, tenant_id: TenantId },
    Done(IdTokenHintOutcome),
}

pub struct LogoutService {
    /// The issuer of the provider, of which those of its tenants are made.
    pub base_issuer: String,
}

/// Whether the claims of a token that holds make a hint: issued by this tenant, with a subject and
/// an audience.
pub open spec fn claims_rule(
    svc: LogoutService,
    tenant: TenantContext,
    token: Seq<char>,
    p: LogoutProgress,
    r: HintStep,
) -> bool {
    match token_payload_of(token) {
        None => r == HintStep::Done(IdTokenHintOutcome::Invalid),
        Some(payload) => match p.hint_claims {
            None => r matches HintStep::ReadClaims { payload: bytes } && bytes@ == payload,
            Some(None) => r == HintStep::Done(IdTokenHintOutcome::Invalid),
            Some(Some(c)) => match p.issuer {
                None => r == (HintStep::ComposeIssuer {
                    base_issuer: svc.base_issuer,
                    tenant_id: tenant.tenant_id,
                }),
                Some(issuer) => if c.iss@ != issuer@ || c.sub@.len() == 0 || c.aud@.len() == 0 {
                    r == HintStep::Done(IdTokenHintOutcome::Invalid)
                } else {
                    r == HintStep::Done(
                        IdTokenHintOutcome::Verified(
                            VerifiedIdTokenHint { subject: c.sub, client_id: c.aud },
                        ),
                    )
                },
            },
        },
    }
}

/// What comes next in checking a hint: its header must be that of an ID token and name a key of
/// ours, under which the signature must hold; its time does not matter.
pub open spec fn hint_rule(
    svc: LogoutService,
    tenant: TenantContext,
    hint: Option<String>,
    p: LogoutProgress,
    r: HintStep,
) -> bool {
    match present(hint) {
        None => r == HintStep::Done(IdTokenHintOutcome::Absent),
        Some(token) => match jwt_header_of(token) {
            None => r == HintStep::Done(IdTokenHintOutcome::Invalid),
            Some((typ, kid)) => if typ != Some("JWT"@) || kid is None {
                r == HintStep::Done(IdTokenHintOutcome::Invalid)
            } else {
                match p.hint_key {
                    None => r matches HintStep::FindKey { kid: k } && k@ == kid->0,
                    Some(Ok(Some(k))) => match SigningAlgorithm::named(k.algorithm@) {
                        None => r == HintStep::Done(IdTokenHintOutcome::Invalid),
                        Some(algorithm) => if jwt_signature_holds(
                            token,
                            algorithm == SigningAlgorithm::Es256,
                            k.public_key@,
                        ) {
                            claims_rule(svc, tenant, token, p, r)
                        } else {
                            r == HintStep::Done(IdTokenHintOutcome::Invalid)
                        },
                    },
                    _ => r == HintStep::Done(IdTokenHintOutcome::Invalid),
                }
            },
        },
    }
}

/// The clients that are told in the background.
pub open spec fn backchannel_of(clients: Seq<Client>) -> Seq<BackchannelTarget>
    decreases clients.len(),
{
    if clients.len() == 0 {
        Seq::empty()
    } else {
        let rest = backchannel_of(clients.drop_last());
        match clients.last().backchannel_logout_uri {
            Some(uri) => rest.push(
                BackchannelTarget {
                    client_id: clients.last().client_id,
                    backchannel_logout_uri: uri,
                },
            ),
            None => rest,
        }
    }
}

/// A client's address with the issuer in its query.
pub open spec fn with_issuer(uri: Seq<char>, issuer: Seq<char>) -> Seq<char> {
    uri + if first_at(uri, '?', 0) is Some {
        "&"@
    } else {
        "?"@
    } + "iss="@ + percent_text(vstd::utf8::encode_utf8(issuer))
}

/// The addresses that the browser visits.
pub open spec fn frontchannel_of(clients: Seq<Client>, issuer: Seq<char>) -> Seq<Seq<char>>
    decreases clients.len(),
{
    if clients.len() == 0 {
        Seq::empty()
    } else {
        let rest = frontchannel_of(clients.drop_last(), issuer);
        match clients.last().frontchannel_logout_uri {
            Some(uri) => rest.push(with_issuer(uri@, issuer)),
            None => rest,
        }
    }
}

/// Whether a client may send its users to `uri`.
pub open spec fn allows(c: Client, uri: Seq<char>) -> bool {
    views(c.post_logout_redirect_uris@).contains(uri)
}

/// Whether the first client of this identifier may send its users to `uri`.
pub open spec fn named_client_allows(clients: Seq<Client>, client_id: Seq<char>, uri: Seq<char>) -> bool {
    exists|i: int|
        0 <= i < clients.len() && (#[trigger] clients[i]).client_id@ == client_id && allows(
            clients[i],
            uri,
        ) && (forall|j: int| 0 <= j < i ==> (#[trigger] clients[j]).client_id@ != client_id)
}

/// Whether any client may send its users to `uri`.
pub open spec fn any_client_allows(clients: Seq<Client>, uri: Seq<char>) -> bool {
    exists|i: int| 0 <= i < clients.len() && allows(#[trigger] clients[i], uri)
}

/// Where the user is sent: nowhere for a hint that does not hold or that contradicts the client
/// identifier that was given; else to an address of the client at hand, and of any client only where
/// none is named.
pub open spec fn redirect_of(
    clients: Seq<Client>,
    hint: IdTokenHintOutcome,
    client_id_hint: Option<String>,
    uri: Option<String>,
) -> Option<Seq<char>> {
    match present(uri) {
        None => None,
        Some(u) => {
            let audience: Option<Seq<char>> = match hint {
                IdTokenHintOutcome::Verified(v) => Some(v.client_id@),
                _ => None,
            };
            let param = present(client_id_hint);
            let allowed = if hint is Invalid {
                false
            } else if param is Some && audience is Some && param != audience {
                false
            } else if param is Some {
                named_client_allows(clients, param->0, u)
            } else if audience is Some {
                named_client_allows(clients, audience->0, u)
            } else {
                any_client_allows(clients, u)
            };
            if allowed {
                Some(u)
            } else {
                None
            }
        },
    }
}

/// The answer to a request that went through.
pub open spec fn is_result(
    res: LogoutResult,
    issuer: Seq<char>,
    cmd: LogoutCommand,
    hint: IdTokenHintOutcome,
    clients: Seq<Client>,
    user_id: Option<Uuid>,
    user_sub: Option<Seq<char>>,
    sid: Option<String>,
) -> bool {
    &&& opt_view(res.user_sub) == user_sub
    &&& res.user_id == user_id
    &&& res.sid == sid
    &&& res.backchannel_targets@ == backchannel_of(clients)
    &&& views(res.frontchannel_uris@) == frontchannel_of(clients, issuer)
    &&& opt_view(res.post_logout_redirect_uri) == redirect_of(
        clients,
        hint,
        cmd.client_id_hint,
        cmd.post_logout_redirect_uri,
    )
}

/// The clients are looked up, and the answer is put together; where they cannot be, there are none.
pub open spec fn answer_rule(
    svc: LogoutService,
    tenant: TenantContext,
    cmd: LogoutCommand,
    hint: IdTokenHintOutcome,
    p: LogoutProgress,
    user_id: Option<Uuid>,
    user_sub: Option<Seq<char>>,
    sid: Option<String>,
    r: LogoutStep,
) -> bool {
    match (p.clients, p.issuer) {
        (None, _) => r == (LogoutStep::ListClients { tenant_id: tenant.tenant_id }),
        (Some(_), None) => r == (LogoutStep::ComposeIssuer {
            base_issuer: svc.base_issuer,
            tenant_id: tenant.tenant_id,
        }),
        (Some(listed), Some(issuer)) => r matches LogoutStep::Done(LogoutOutcome::Completed(res))
            && is_result(
            res,
            issuer@,
            cmd,
            hint,
            match listed {
                Ok(clients) => clients@,
                Err(_) => Seq::empty(),
            },
            user_id,
            user_sub,
            sid,
        ),
    }
}

/// The subject of the user who is signed on, where it is known.
pub open spec fn subject_of(user: Result<Option<User>, String>) -> Option<Seq<char>> {
    match user {
        Ok(Some(u)) => Some(uuid_text_of(u.sub.value)),
        _ => None,
    }
}

/// The sign-on is known: a hint must name its user; then it is removed, its user's codes are
/// revoked, and the end is audited.
pub open spec fn end_rule(
    svc: LogoutService,
    tenant: TenantContext,
    cmd: LogoutCommand,
    session_id: Seq<char>,
    hint: IdTokenHintOutcome,
    now: Timestamp,
    found: FoundSession,
    p: LogoutProgress,
    r: LogoutStep,
) -> bool {
    match p.user {
        None => r == (LogoutStep::FindUser { user_id: found.session.user_id }),
        Some(user) => if (hint matches IdTokenHintOutcome::Verified(v) && subject_of(user) != Some(
            v.subject@,
        )) {
            if p.audits == 0 {
                r == LogoutStep::Audit(
                    AuditRecord {
                        event: AuditEventType::SsoSessionTerminated,
                        result: AuditResult::Failure,
                        tenant_id: Some(tenant.tenant_id),
                        user_id: Some(found.session.user_id),
                        client_id: Some(hint->Verified_0.client_id),
                        reason: Some(AuditReason::IdTokenHintSubjectMismatch),
                    },
                )
            } else {
                r == LogoutStep::Done(LogoutOutcome::SubjectMismatch)
            }
        } else if !p.session_deleted {
            r matches LogoutStep::DeleteSession { session_hash } && session_hash@ == sha256_hex_of(
                session_id,
            )
        } else if !p.codes_revoked {
            r == (LogoutStep::RevokeCodes { user_id: found.session.user_id, now })
        } else if p.audits == 0 {
            r == LogoutStep::Audit(
                AuditRecord {
                    event: AuditEventType::SsoSessionTerminated,
                    result: AuditResult::Success,
                    tenant_id: Some(tenant.tenant_id),
                    user_id: Some(found.session.user_id),
                    client_id: None,
                    reason: Some(AuditReason::RpInitiatedLogout),
                },
            )
        } else {
            answer_rule(
                svc,
                tenant,
                cmd,
                hint,
                p,
                Some(found.session.user_id),
                subject_of(user),
                Some(found.sid),
                r,
            )
        },
    }
}

/// What comes next once the hint was looked at.
pub open spec fn hinted_rule(
    svc: LogoutService,
    tenant: TenantContext,
    cmd: LogoutCommand,
    now: Timestamp,
    h: HintStep,
    p: LogoutProgress,
    r: LogoutStep,
) -> bool {
    match h {
        HintStep::FindKey { kid } => r == (LogoutStep::FindKey { kid }),
        HintStep::ReadClaims { payload } => r == (LogoutStep::ReadClaims { payload }),
        HintStep::ComposeIssuer { base_issuer, tenant_id } => r == (LogoutStep::ComposeIssuer {
            base_issuer,
            tenant_id,
        }),
        HintStep::Done(hint) => match present(cmd.sso_session_id) {
            None => answer_rule(svc, tenant, cmd, hint, p, None, None, None, r),
            Some(session_id) => match p.session {
                None => r matches LogoutStep::FindSession { session_hash } && session_hash@
                    == sha256_hex_of(session_id),
                Some(Ok(Some(found))) => end_rule(
                    svc,
                    tenant,
                    cmd,
                    session_id,
                    hint,
                    now,
                    found,
                    p,
                    r,
                ),
                _ => answer_rule(svc, tenant, cmd, hint, p, None, None, None, r),
            },
        },
    }
}

/// What comes next in a request of which `p` is known.
pub open spec fn logout_rule(
    svc: LogoutService,
    tenant: TenantContext,
    cmd: LogoutCommand,
    now: Timestamp,
    p: LogoutProgress,
    r: LogoutStep,
) -> bool {
    exists|h: HintStep| #[trigger]
        hint_rule(svc, tenant, cmd.id_token_hint, p, h) && hinted_rule(
            svc,
            tenant,
            cmd,
            now,
            h,
            p,
            r,
        )
}

/// Collects the clients that are told in the background.
pub fn collect_backchannel(clients: &Vec<Client>) -> (r: Vec<BackchannelTarget>)
    ensures
        r@ == backchannel_of(clients@),
{
    let mut out: Vec<BackchannelTarget> = Vec::new();
    let mut i: usize = 0;
    proof {
        assert(clients@.subrange(0, 0) =~= Seq::<Client>::empty());
    }
    while i < clients.len()
        invariant
            i <= clients.len(),
            out@ == backchannel_of(clients@.subrange(0, i as int)),
        decreases clients.len() - i,
    {
        proof {
            let upto = clients@.subrange(0, i + 1);
            assert(upto.drop_last() =~= clients@.subrange(0, i as int));
            assert(upto.last() == clients@[i as int]);
        }
        if let Some(uri) = &clients[i].backchannel_logout_uri {
            out.push(
                BackchannelTarget {
                    client_id: clients[i].client_id.clone(),
                    backchannel_logout_uri: uri.clone(),
                },
            );
        }
        i = i + 1;
    }
    proof {
        assert(clients@.subrange(0, clients.len() as int) =~= clients@);
    }
    out
}

fn collect_frontchannel(clients: &Vec<Client>, issuer: &str) -> (r: Vec<String>)
    ensures
        views(r@) == frontchannel_of(clients@, issuer@),
{
    let encoded: String = percent_encode(issuer);
    let mut out: Vec<String> = Vec::new();
    let mut i: usize = 0;
    proof {
        assert(clients@.subrange(0, 0) =~= Seq::<Client>::empty());
        assert(views(out@) =~= Seq::<Seq<char>>::empty());
    }
    while i < clients.len()
        invariant
            i <= clients.len(),
            encoded@ == percent_text(vstd::utf8::encode_utf8(issuer@)),
            views(out@) == frontchannel_of(clients@.subrange(0, i as int), issuer@),
        decreases clients.len() - i,
    {
        proof {
            let upto = clients@.subrange(0, i + 1);
            assert(upto.drop_last() =~= clients@.subrange(0, i as int));
            assert(upto.last() == clients@[i as int]);
        }
        let ghost before = views(out@);
        if let Some(uri) = &clients[i].frontchannel_logout_uri {
            let mut address: String = uri.clone();
            if find_char(uri.as_str(), '?', 0).is_some() {
                address.append("&");
            } else {
                address.append("?");
            }
            address.append("iss=");
            address.append(encoded.as_str());
            let ghost text = address@;
            out.push(address);
            proof {
                assert(text == with_issuer(uri@, issuer@));
                assert(views(out@) =~= before.push(text));
            }
        }
        i = i + 1;
    }
    proof {
        assert(clients@.subrange(0, clients.len() as int) =~= clients@);
    }
    out
}

fn client_allows(clients: &Vec<Client>, client_id: &str, uri: &str) -> (r: bool)
    ensures
        r == named_client_allows(clients@, client_id@, uri@),
{
    let mut i: usize = 0;
    while i < clients.len()
        invariant
            i <= clients.len(),
            forall|j: int| 0 <= j < i ==> (#[trigger] clients@[j]).client_id@ != client_id@,
        decreases clients.len() - i,
    {
        if same(clients[i].client_id.as_str(), client_id) {
            let found: bool = clients[i].allows_post_logout_redirect_uri(uri);
            proof {
                if named_client_allows(clients@, client_id@, uri@) {
                    let k = choose|k: int|
                        0 <= k < clients@.len() && (#[trigger] clients@[k]).client_id@ == client_id@
                            && allows(clients@[k], uri@) && (forall|j: int|
                            0 <= j < k ==> (#[trigger] clients@[j]).client_id@ != client_id@);
                    assert(clients@[i as int].client_id@ == client_id@);
                    assert(k == i);
                }
            }
            return found;
        }
        i = i + 1;
    }
    false
}

fn some_client_allows(clients: &Vec<Client>, uri: &str) -> (r: bool)
    ensures
        r == any_client_allows(clients@, uri@),
{
    let mut i: usize = 0;
    while i < clients.len()
        invariant
            i <= clients.len(),
            forall|j: int| 0 <= j < i ==> !allows(#[trigger] clients@[j], uri@),
        decreases clients.len() - i,
    {
        if clients[i].allows_post_logout_redirect_uri(uri) {
            proof {
                assert(allows(clients@[i as int], uri@));
            }
            return true;
        }
        i = i + 1;
    }
    false
}

fn find_redirect(
    clients: &Vec<Client>,
    hint: &IdTokenHintOutcome,
    client_id_hint: &Option<String>,
    uri: &Option<String>,
) -> (r: Option<String>)
    ensures
        opt_view(r) == redirect_of(clients@, *hint, *client_id_hint, *uri),
{
    let uri: &String = match non_empty(uri) {
        None => return None,
        Some(uri) => uri,
    };
    let audience: Option<&String> = match hint {
        IdTokenHintOutcome::Invalid => return None,
        IdTokenHintOutcome::Verified(v) => Some(&v.client_id),
        IdTokenHintOutcome::Absent => None,
    };
    let allowed: bool = match (non_empty(client_id_hint), audience) {
        (Some(param), Some(aud)) => same(param.as_str(), aud.as_str()) && client_allows(
            clients,
            param.as_str(),
            uri.as_str(),
        ),
        (Some(param), None) => client_allows(clients, param.as_str(), uri.as_str()),
        (None, Some(aud)) => client_allows(clients, aud.as_str(), uri.as_str()),
        (None, None) => some_client_allows(clients, uri.as_str()),
    };
    if allowed {
        Some(uri.clone())
    } else {
        None
    }
}

impl LogoutService {
    pub fn new(base_issuer: String) -> (r: Self)
        ensures
            r.base_issuer == base_issuer,
    {
        LogoutService { base_issuer }
    }

    /// Decides what comes next in checking a hint.
    pub fn verify_id_token_hint(
        &self,
        tenant: &TenantContext,
        id_token_hint: &Option<String>,
        p: &LogoutProgress,
    ) -> (r: HintStep)
        ensures
            hint_rule(*self, *tenant, *id_token_hint, *p, r),
    {
        let token: &String = match non_empty(id_token_hint) {
            None => return HintStep::Done(IdTokenHintOutcome::Absent),
            Some(token) => token,
        };
        let header: JwtHeader = match jwt_header(token.as_str()) {
            None => return HintStep::Done(IdTokenHintOutcome::Invalid),
            Some(header) => header,
        };
        let id_token: bool = match &header.typ {
            Some(typ) => same(typ.as_str(), "JWT"),
            None => false,
        };
        if !id_token {
            return HintStep::Done(IdTokenHintOutcome::Invalid);
        }
        let kid: String = match header.kid {
            None => return HintStep::Done(IdTokenHintOutcome::Invalid),
            Some(kid) => kid,
        };
        let key: &SigningKey = match &p.hint_key {
            None => return HintStep::FindKey { kid },
            Some(Ok(Some(key))) => key,
            _ => return HintStep::Done(IdTokenHintOutcome::Invalid),
        };
        let elliptic: bool = match SigningAlgorithm::parse(key.algorithm.as_str()) {
            None => return HintStep::Done(IdTokenHintOutcome::Invalid),
            Some(algorithm) => algorithm == SigningAlgorithm::Es256,
        };
        if !jwt_verify(token.as_str(), elliptic, key.public_key.as_str()) {
            return HintStep::Done(IdTokenHintOutcome::Invalid);
        }
        let payload: Vec<u8> = match token_payload(token.as_str()) {
            None => return HintStep::Done(IdTokenHintOutcome::Invalid),
            Some(payload) => payload,
        };
        let claims: &IdTokenHintClaims = match &p.hint_claims {
            None => return HintStep::ReadClaims { payload },
            Some(None) => return HintStep::Done(IdTokenHintOutcome::Invalid),
            Some(Some(claims)) => claims,
        };
        let issuer: &String = match &p.issuer {
            None => return HintStep::ComposeIssuer {
                base_issuer: self.base_issuer.clone(),
                tenant_id: tenant.tenant_id,
            },
            Some(issuer) => issuer,
        };
        if !same(claims.iss.as_str(), issuer.as_str()) || claims.sub.as_str().is_empty()
            || claims.aud.as_str().is_empty() {
            return HintStep::Done(IdTokenHintOutcome::Invalid);
        }
        HintStep::Done(
            IdTokenHintOutcome::Verified(
                VerifiedIdTokenHint { subject: claims.sub.clone(), client_id: claims.aud.clone() },
            ),
        )
    }

    fn answer(
        &self,
        tenant: &TenantContext,
        cmd: &LogoutCommand,
        hint: &IdTokenHintOutcome,
        p: &LogoutProgress,
        user_id: Option<Uuid>,
        user_sub: Option<String>,
        sid: Option<String>,
    ) -> (r: LogoutStep)
        ensures
            answer_rule(*self, *tenant, *cmd, *hint, *p, user_id, opt_view(user_sub), sid, r),
    {
        let none: Vec<Client> = Vec::new();
        let clients: &Vec<Client> = match &p.clients {
            None => return LogoutStep::ListClients { tenant_id: tenant.tenant_id },
            Some(Ok(clients)) => clients,
            Some(Err(_)) => &none,
        };
        let issuer: &String = match &p.issuer {
            None => return LogoutStep::ComposeIssuer {
                base_issuer: self.base_issuer.clone(),
                tenant_id: tenant.tenant_id,
            },
            Some(issuer) => issuer,
        };
        proof {
            assert(none@ =~= Seq::<Client>::empty());
        }
        LogoutStep::Done(
            LogoutOutcome::Completed(
                LogoutResult {
                    user_sub,
                    user_id,
                    sid,
                    backchannel_targets: collect_backchannel(clients),
                    frontchannel_uris: collect_frontchannel(clients, issuer.as_str()),
                    post_logout_redirect_uri: find_redirect(
                        clients,
                        hint,
                        &cmd.client_id_hint,
                        &cmd.post_logout_redirect_uri,
                    ),
                },
            ),
        )
    }

    fn end(
        &self,
        tenant: &TenantContext,
        cmd: &LogoutCommand,
        session_id: &str,
        hint: &IdTokenHintOutcome,
        now: Timestamp,
        found: &FoundSession,
        p: &LogoutProgress,
    ) -> (r: LogoutStep)
        ensures
            end_rule(*self, *tenant, *cmd, session_id@, *hint, now, *found, *p, r),
    {
        let user_id: Uuid = found.session.user_id;
        let sub: Option<String> = match &p.user {
            None => return LogoutStep::FindUser { user_id },
            Some(Ok(Some(u))) => Some(uuid_text(u.sub.value)),
            _ => None,
        };
        if let IdTokenHintOutcome::Verified(v) = hint {
            let matches: bool = match &sub {
                Some(s) => same(s.as_str(), v.subject.as_str()),
                None => false,
            };
            if !matches {
                if p.audits == 0 {
                    return LogoutStep::Audit(
                        AuditRecord {
                            event: AuditEventType::SsoSessionTerminated,
                            result: AuditResult::Failure,
                            tenant_id: Some(tenant.tenant_id),
                            user_id: Some(user_id),
                            client_id: Some(v.client_id.clone()),
                            reason: Some(AuditReason::IdTokenHintSubjectMismatch),
                        },
                    );
                }
                return LogoutStep::Done(LogoutOutcome::SubjectMismatch);
            }
        }
        if !p.session_deleted {
            return LogoutStep::DeleteSession { session_hash: sha256_hex(session_id) };
        }
        if !p.codes_revoked {
            return LogoutStep::RevokeCodes { user_id, now };
        }
        if p.audits == 0 {
            return LogoutStep::Audit(
                AuditRecord {
                    event: AuditEventType::SsoSessionTerminated,
                    result: AuditResult::Success,
                    tenant_id: Some(tenant.tenant_id),
                    user_id: Some(user_id),
                    client_id: None,
                    reason: Some(AuditReason::RpInitiatedLogout),
                },
            );
        }
        self.answer(tenant, cmd, hint, p, Some(user_id), sub, Some(found.sid.clone()))
    }

    /// Decides what comes next in a request of which `p` is known.
    pub fn logout(
        &self,
        tenant: &TenantContext,
        cmd: &LogoutCommand,
        now: Timestamp,
        p: &LogoutProgress,
    ) -> (r: LogoutStep)
        ensures
            logout_rule(*self, *tenant, *cmd, now, *p, r),
    {
        let h: HintStep = self.verify_id_token_hint(tenant, &cmd.id_token_hint, p);
        proof {
            assert(hint_rule(*self, *tenant, cmd.id_token_hint, *p, h));
        }
        let hint: IdTokenHintOutcome = match h {
            HintStep::FindKey { kid } => return LogoutStep::FindKey { kid },
            HintStep::ReadClaims { payload } => return LogoutStep::ReadClaims { payload },
            HintStep::ComposeIssuer { base_issuer, tenant_id } => {
                return LogoutStep::ComposeIssuer { base_issuer, tenant_id };
            },
            HintStep::Done(hint) => hint,
        };
        let session_id: &String = match non_empty(&cmd.sso_session_id) {
            None => return self.answer(tenant, cmd, &hint, p, None, None, None),
            Some(session_id) => session_id,
        };
        match &p.session {
            None => LogoutStep::FindSession { session_hash: sha256_hex(session_id.as_str()) },
            Some(Ok(Some(found))) => self.end(
                tenant,
                cmd,
                session_id.as_str(),
                &hint,
                now,
                found,
                p,
            ),
            _ => self.answer(tenant, cmd, &hint, p, None, None, None),
        }
    }
}

/// A sign-on is removed, and codes are revoked, only where no hint was given, where the hint does
/// not hold, or where it names the very user who is signed on.
pub proof fn a_hint_for_another_user_ends_nothing(
    svc: LogoutService,
    tenant: TenantContext,
    cmd: LogoutCommand,
    now: Timestamp,
    p: LogoutProgress,
    r: LogoutStep,
)
    requires
        logout_rule(svc, tenant, cmd, now, p, r),
        r is DeleteSession || r is RevokeCodes,
    ensures
        exists|hint: IdTokenHintOutcome| #[trigger]
            hint_rule(svc, tenant, cmd.id_token_hint, p, HintStep::Done(hint)) && (
            hint matches IdTokenHintOutcome::Verified(v) ==> (p.user matches Some(user)
                && subject_of(user) == Some(v.subject@))),
{
    let h = choose|h: HintStep| #[trigger]
        hint_rule(svc, tenant, cmd.id_token_hint, p, h) && hinted_rule(
            svc,
            tenant,
            cmd,
            now,
            h,
            p,
            r,
        );
    assert(h matches HintStep::Done(_));
    assert(hint_rule(svc, tenant, cmd.id_token_hint, p, HintStep::Done(h->Done_0)));
}

/// A session identifier that names no stored session is answered as none at all: nothing is ended
/// or audited, and every client and the registered address are in the answer.
pub proof fn a_stale_session_is_answered_as_none(
    svc: LogoutService,
    tenant: TenantContext,
    cmd: LogoutCommand,
    now: Timestamp,
    p: LogoutProgress,
    r: LogoutStep,
)
    requires
        logout_rule(svc, tenant, cmd, now, p, r),
        p.session matches Some(s) && !(s matches Ok(Some(_))),
    ensures
        logout_rule(svc, tenant, (LogoutCommand { sso_session_id: None, ..cmd }), now, p, r),
        r is FindKey || r is ReadClaims || r is ComposeIssuer || r is ListClients || (
        r matches LogoutStep::Done(LogoutOutcome::Completed(res)) && res.user_id is None
            && res.user_sub is None && res.sid is None && (p.clients matches Some(Ok(clients))
            ==> res.backchannel_targets@ == backchannel_of(clients@) && (
        p.issuer matches Some(issuer) && views(res.frontchannel_uris@) == frontchannel_of(
            clients@,
            issuer@,
        )))),
{
    let none = LogoutCommand { sso_session_id: None, ..cmd };
    let h = choose|h: HintStep| #[trigger]
        hint_rule(svc, tenant, cmd.id_token_hint, p, h) && hinted_rule(
            svc,
            tenant,
            cmd,
            now,
            h,
            p,
            r,
        );
    assert(hint_rule(svc, tenant, none.id_token_hint, p, h));
    assert(hinted_rule(svc, tenant, none, now, h, p, r));
}

/// The user is sent only to the address that was asked for, and only where a client of the tenant
/// has registered it.
pub proof fn redirects_are_registered(
    clients: Seq<Client>,
    hint: IdTokenHintOutcome,
    client_id_hint: Option<String>,
    uri: Option<String>,
)
    requires
        redirect_of(clients, hint, client_id_hint, uri) is Some,
    ensures
        redirect_of(clients, hint, client_id_hint, uri) == present(uri),
        any_client_allows(clients, present(uri)->0),
{
    let u = present(uri)->0;
    let audience: Option<Seq<char>> = match hint {
        IdTokenHintOutcome::Verified(v) => Some(v.client_id@),
        _ => None,
    };
    let named: Option<Seq<char>> = if present(client_id_hint) is Some {
        present(client_id_hint)
    } else {
        audience
    };
    if named is Some {
        let i = choose|i: int|
            0 <= i < clients.len() && (#[trigger] clients[i]).client_id@ == named->0 && allows(
                clients[i],
                u,
            ) && (forall|j: int| 0 <= j < i ==> (#[trigger] clients[j]).client_id@ != named->0);
        assert(allows(clients[i], u));
    }
}

/// A hint that does not hold, or one that contradicts the given client identifier, sends nobody
/// anywhere.
pub proof fn a_doubtful_hint_redirects_nowhere(
    clients: Seq<Client>,
    hint: IdTokenHintOutcome,
    client_id_hint: Option<String>,
    uri: Option<String>,
)
    requires
        hint is Invalid || (hint matches IdTokenHintOutcome::Verified(v) && (present(client_id_hint) matches Some(
            param,
        ) && param != v.client_id@)),
    ensures
        redirect_of(clients, hint, client_id_hint, uri) is None,
{
}

impl LogoutProgress {
    /// The call `step` asks for something that is not known yet.
    pub open spec fn lacks_answer_to(self, step: LogoutStep) -> bool {
        match step {
            LogoutStep::FindKey { .. } => self.hint_key is None,
            LogoutStep::ReadClaims { .. } => self.hint_claims is None,
            LogoutStep::ComposeIssuer { .. } => self.issuer is None,
            LogoutStep::FindSession { .. } => self.session is None,
            LogoutStep::FindUser { .. } => self.user is None,
            LogoutStep::DeleteSession { .. } => !self.session_deleted,
            LogoutStep::RevokeCodes { .. } => !self.codes_revoked,
            LogoutStep::ListClients { .. } => self.clients is None,
            LogoutStep::Audit(_) => self.audits < 1,
            LogoutStep::Done(_) => true,
        }
    }
}

/// Nothing is asked for that is known already: every call that comes next fills a gap.
pub proof fn nothing_is_asked_twice(
    svc: LogoutService,
    tenant: TenantContext,
    cmd: LogoutCommand,
    now: Timestamp,
    p: LogoutProgress,
    r: LogoutStep,
)
    requires
        logout_rule(svc, tenant, cmd, now, p, r),
    ensures
        p.lacks_answer_to(r),
{
}

/// The sign-on that is removed is the one that was looked up: whatever one command looks for and
/// whatever it removes are kept under the same hash, that of the cookie that came with it.
pub proof fn the_session_looked_up_is_removed(
    svc: LogoutService,
    tenant: TenantContext,
    cmd: LogoutCommand,
    now: Timestamp,
    looking: LogoutProgress,
    looked_up: String,
    later: Timestamp,
    removing: LogoutProgress,
    removed: String,
)
    requires
        call_ensures(
            LogoutService::logout,
            (&svc, &tenant, &cmd, now, &looking),
            LogoutStep::FindSession { session_hash: looked_up },
        ),
        call_ensures(
            LogoutService::logout,
            (&svc, &tenant, &cmd, later, &removing),
            LogoutStep::DeleteSession { session_hash: removed },
        ),
    ensures
        removed@ == looked_up@,
        cmd.sso_session_id matches Some(id) && id@.len() > 0 && removed@ == hex_text(
            sha256_of(vstd::utf8::encode_utf8(id@)),
        ),
{
}

/// A request is answered with a user only once the removal of that user's sign-on was asked for, the
/// user's codes were revoked and the end was audited; and then it names the user and the sign-on
/// that were found.
pub proof fn a_reported_logout_has_happened(
    svc: LogoutService,
    tenant: TenantContext,
    cmd: LogoutCommand,
    now: Timestamp,
    p: LogoutProgress,
    res: LogoutResult,
)
    requires
        call_ensures(
            LogoutService::logout,
            (&svc, &tenant, &cmd, now, &p),
            LogoutStep::Done(LogoutOutcome::Completed(res)),
        ),
    ensures
        res.user_id is Some || res.user_sub is Some || res.sid is Some ==> p.session_deleted
            && p.codes_revoked && p.audits > 0 && (p.session matches Some(Ok(Some(found)))
            && res.user_id == Some(found.session.user_id) && res.sid == Some(found.sid)),
        res.user_sub matches Some(sub) ==> (p.user matches Some(Ok(Some(user))) && sub@
            == uuid_text_of(user.sub.value)),
        (cmd.sso_session_id matches Some(id) && id@.len() > 0) && (
        p.session matches Some(Ok(Some(_)))) ==> res.user_id is Some && res.sid is Some,
{
}

/// Every call of a request is about the sign-on that it came with, the user of that sign-on, and the
/// tenant.
pub proof fn logout_calls_are_about_the_session(
    svc: LogoutService,
    tenant: TenantContext,
    cmd: LogoutCommand,
    now: Timestamp,
    p: LogoutProgress,
    r: LogoutStep,
)
    requires
        call_ensures(LogoutService::logout, (&svc, &tenant, &cmd, now, &p), r),
    ensures
        match r {
            LogoutStep::FindKey { kid } => cmd.id_token_hint matches Some(token) && (jwt_header_of(
                token@,
            ) matches Some((_, Some(named))) && kid@ == named),
            LogoutStep::ReadClaims { payload } => cmd.id_token_hint matches Some(token)
                && token_payload_of(token@) == Some(payload@) && (p.hint_key matches Some(
                Ok(Some(_)),
            )),
            LogoutStep::ComposeIssuer { base_issuer, tenant_id } => base_issuer == svc.base_issuer
                && tenant_id == tenant.tenant_id,
            LogoutStep::FindSession { session_hash } => cmd.sso_session_id matches Some(id)
                && session_hash@ == sha256_hex_of(id@),
            LogoutStep::FindUser { user_id } => p.session matches Some(Ok(Some(found))) && user_id
                == found.session.user_id,
            LogoutStep::DeleteSession { session_hash } => (p.session matches Some(Ok(Some(_)))) && (
            cmd.sso_session_id matches Some(id) && session_hash@ == sha256_hex_of(id@)),
            LogoutStep::RevokeCodes { user_id, now: at } => at == now && p.session_deleted && (
            p.session matches Some(Ok(Some(found))) && user_id == found.session.user_id),
            LogoutStep::ListClients { tenant_id } => tenant_id == tenant.tenant_id,
            LogoutStep::Audit(a) => a.event == AuditEventType::SsoSessionTerminated && a.tenant_id
                == Some(tenant.tenant_id) && (p.session matches Some(Ok(Some(found))) && a.user_id
                == Some(found.session.user_id)) && match a.result {
                AuditResult::Success => p.session_deleted && p.codes_revoked && a.reason == Some(
                    AuditReason::RpInitiatedLogout,
                ),
                AuditResult::Failure => a.client_id is Some && a.reason == Some(
                    AuditReason::IdTokenHintSubjectMismatch,
                ),
            },
            LogoutStep::Done(_) => true,
        },
{
}

/// What is read of a hint is what its claims say, and a hint holds only for this tenant's issuer, for
/// somebody, and for some client.
pub proof fn a_hint_says_what_its_claims_say(
    svc: LogoutService,
    tenant: TenantContext,
    hint: Option<String>,
    p: LogoutProgress,
    v: VerifiedIdTokenHint,
)
    requires
        hint_rule(svc, tenant, hint, p, HintStep::Done(IdTokenHintOutcome::Verified(v))),
    ensures
        p.hint_claims matches Some(Some(c)) && v.subject == c.sub && v.client_id == c.aud
            && p.issuer is Some && c.iss@ == p.issuer->0@ && c.sub@.len() > 0 && c.aud@.len() > 0,
        p.hint_key matches Some(Ok(Some(key))) && (hint matches Some(token) && ((key.algorithm@
            == "ES256"@ && es256_holds(token@, key.public_key@)) || (key.algorithm@ == "RS256"@
            && rs256_holds(token@, key.public_key@)))),
{
}

/// A hint whose header, key and signature are in order, and whose claims are those of this tenant,
/// holds.
pub proof fn a_good_hint_holds(
    svc: LogoutService,
    tenant: TenantContext,
    token: String,
    p: LogoutProgress,
    key: SigningKey,
    c: IdTokenHintClaims,
    issuer: String,
    kid: Seq<char>,
    r: HintStep,
)
    requires
        hint_rule(svc, tenant, Some(token), p, r),
        token@.len() > 0,
        jwt_header_of(token@) == Some((Some("JWT"@), Some(kid))),
        p.hint_key == Some(Ok::<Option<SigningKey>, String>(Some(key))),
        (key.algorithm@ == "ES256"@ && es256_holds(token@, key.public_key@)) || (key.algorithm@
            == "RS256"@ && rs256_holds(token@, key.public_key@)),
        token_payload_of(token@) is Some,
        p.hint_claims == Some(Some(c)),
        p.issuer == Some(issuer),
        c.iss@ == issuer@,
        c.sub@.len() > 0,
        c.aud@.len() > 0,
    ensures
        r matches HintStep::Done(IdTokenHintOutcome::Verified(v)) && v.subject == c.sub
            && v.client_id == c.aud,
{
    reveal_strlit("ES256");
    reveal_strlit("RS256");
    assert("ES256"@[0] != "RS256"@[0]);
}

/// A client is told of a logout in the background exactly where it has registered an address for it,
/// and at that address.
pub proof fn told_are_those_who_asked(clients: Seq<Client>, target: BackchannelTarget)
    ensures
        backchannel_of(clients).contains(target) <==> exists|i: int|
            0 <= i < clients.len() && (#[trigger] clients[i]).client_id == target.client_id
                && clients[i].backchannel_logout_uri == Some(target.backchannel_logout_uri),
    decreases clients.len(),
{
    if clients.len() > 0 {
        let before = clients.drop_last();
        told_are_those_who_asked(before, target);
        let rest = backchannel_of(before);
        let all = backchannel_of(clients);
        if rest.contains(target) {
            let k = choose|k: int| 0 <= k < rest.len() && rest[k] == target;
            assert(all[k] == target);
            let i = choose|i: int|
                0 <= i < before.len() && (#[trigger] before[i]).client_id == target.client_id
                    && before[i].backchannel_logout_uri == Some(target.backchannel_logout_uri);
            assert(clients[i] == before[i]);
        }
        if all.contains(target) && !rest.contains(target) {
            let k = choose|k: int| 0 <= k < all.len() && all[k] == target;
            if k < rest.len() {
                assert(rest[k] == target);
            }
            assert(clients[clients.len() - 1].client_id == target.client_id);
        }
        if exists|i: int|
            0 <= i < clients.len() && (#[trigger] clients[i]).client_id == target.client_id
                && clients[i].backchannel_logout_uri == Some(target.backchannel_logout_uri) {
            let i = choose|i: int|
                0 <= i < clients.len() && (#[trigger] clients[i]).client_id == target.client_id
                    && clients[i].backchannel_logout_uri == Some(target.backchannel_logout_uri);
            if i < before.len() {
                assert(before[i] == clients[i]);
            } else {
                assert(all[rest.len() as int] == target);
            }
        }
    } else {
        assert(!backchannel_of(clients).contains(target));
    }
}

/// The browser visits an address exactly where a client has registered it, with the issuer appended
/// to its query, whether it has one already or not.
pub proof fn visited_are_those_who_asked(clients: Seq<Client>, issuer: Seq<char>, address: Seq<char>)
    ensures
        frontchannel_of(clients, issuer).contains(address) <==> exists|i: int|
            0 <= i < clients.len() && ((
            #[trigger] clients[i]).frontchannel_logout_uri matches Some(uri) && (if uri@.contains(
                '?',
            ) {
                address == uri@ + "&iss="@ + percent_text(vstd::utf8::encode_utf8(issuer))
            } else {
                address == uri@ + "?iss="@ + percent_text(vstd::utf8::encode_utf8(issuer))
            })),
    decreases clients.len(),
{
    let value = percent_text(vstd::utf8::encode_utf8(issuer));
    assert forall|uri: Seq<char>| #[trigger]
        with_issuer(uri, issuer) == if uri.contains('?') {
            uri + "&iss="@ + value
        } else {
            uri + "?iss="@ + value
        } by {
        reveal_strlit("&");
        reveal_strlit("?");
        reveal_strlit("iss=");
        reveal_strlit("&iss=");
        reveal_strlit("?iss=");
        first_at_is_first(uri, '?', 0);
        assert(uri + "&"@ + "iss="@ + value =~= uri + "&iss="@ + value);
        assert(uri + "?"@ + "iss="@ + value =~= uri + "?iss="@ + value);
    }
    if clients.len() > 0 {
        let before = clients.drop_last();
        visited_are_those_who_asked(before, issuer, address);
        let rest = frontchannel_of(before, issuer);
        let all = frontchannel_of(clients, issuer);
        if rest.contains(address) {
            let k = choose|k: int| 0 <= k < rest.len() && rest[k] == address;
            assert(all[k] == address);
            let i = choose|i: int|
                0 <= i < before.len() && ((
                #[trigger] before[i]).frontchannel_logout_uri matches Some(uri) && address
                    == with_issuer(uri@, issuer));
            assert(clients[i] == before[i]);
        }
        if all.contains(address) && !rest.contains(address) {
            let k = choose|k: int| 0 <= k < all.len() && all[k] == address;
            if k < rest.len() {
                assert(rest[k] == address);
            }
            assert(clients[clients.len() - 1].frontchannel_logout_uri is Some);
        }
        if exists|i: int|
            0 <= i < clients.len() && ((
            #[trigger] clients[i]).frontchannel_logout_uri matches Some(uri) && address
                == with_issuer(uri@, issuer)) {
            let i = choose|i: int|
                0 <= i < clients.len() && ((
                #[trigger] clients[i]).frontchannel_logout_uri matches Some(uri) && address
                    == with_issuer(uri@, issuer));
            if i < before.len() {
                assert(before[i] == clients[i]);
            } else {
                assert(all[rest.len() as int] == address);
            }
        }
    } else {
        assert(!frontchannel_of(clients, issuer).contains(address));
    }
}

/// A user is sent where they asked to be where the one client of the name that counts has registered the
/// address: the name that was given, which must be that of the hint where there is one, or else the
/// hint's; and where no name counts, where any client has.
pub proof fn a_registered_address_is_used(
    clients: Seq<Client>,
    hint: IdTokenHintOutcome,
    client_id_hint: Option<String>,
    uri: String,
    k: int,
)
    requires
        uri@.len() > 0,
        !(hint is Invalid),
        0 <= k < clients.len(),
        exists|j: int|
            0 <= j < clients[k].post_logout_redirect_uris@.len()
                && #[trigger] clients[k].post_logout_redirect_uris@[j]@ == uri@,
        forall|j: int|
            0 <= j < clients.len() && j != k ==> (#[trigger] clients[j]).client_id@
                != clients[k].client_id@,
        client_id_hint matches Some(given) ==> given@.len() > 0 && given@ == clients[k].client_id@,
        hint matches IdTokenHintOutcome::Verified(v) ==> v.client_id@ == clients[k].client_id@,
    ensures
        redirect_of(clients, hint, client_id_hint, Some(uri)) == Some(uri@),
{
    let list = clients[k].post_logout_redirect_uris@;
    let j = choose|j: int| 0 <= j < list.len() && #[trigger] list[j]@ == uri@;
    assert(views(list)[j] == uri@);
    assert(allows(clients[k], uri@));
    assert(clients[k].client_id@ == clients[k].client_id@);
    assert(named_client_allows(clients, clients[k].client_id@, uri@));
    assert(any_client_allows(clients, uri@));
}

} // verus!
