//! Revoking tokens.
//!
//! The kind that the caller names is tried first, and the other kind where it is not found.
use crate::audit::{AuditEventType, AuditReason, AuditRecord, AuditResult};
use crate::crypto::{
    hex_text, json_integer, json_integer_at, json_string, json_string_at, sha256_hex, sha256_hex_of,
    sha256_of, token_payload, token_payload_of,
};
use crate::model::{Client, Reply, TenantContext, TenantId, Uuid};
use crate::text::same;
use crate::time::Timestamp;
use vstd::prelude::*;

verus! {

#[derive(Clone, Copy, Debug, PartialEq, Eq, Structural)]
pub enum OAuthErrorCode {
    InvalidRequest,
    InvalidClient,
    ServerError,
}

pub struct RevocationError {
    pub code: OAuthErrorCode,
    pub description: String,
}

impl RevocationError {
    pub fn new(code: OAuthErrorCode, description: &str) -> (r: Self)
        ensures
            r.code == code,
            r.description@ == description@,
    {
        RevocationError { code, description: description.to_owned() }
    }
}

#[derive(Clone, Copy, Debug, PartialEq, Eq, Structural)]
pub enum ClientIdFault {
    /// Two identifiers were given, and they differ.
    Mismatch,
    Missing,
}

/// The credentials that a client has presented, as far as they can be read without knowing it.
pub struct PresentedClientCredentials {
    /// Whether they were presented in one way only.
    pub single_method: bool,
    pub client_id: Result<String, ClientIdFault>,
    /// The secret in the `Authorization` header.
    pub basic_secret: Option<String>,
    /// The secret in the form.
    pub post_secret: Option<String>,
}

impl Clone for PresentedClientCredentials {
    fn clone(&self) -> (r: PresentedClientCredentials)
        ensures
            r == *self,
    {
        PresentedClientCredentials {
            single_method: self.single_method,
            client_id: match &self.client_id {
                Ok(id) => Ok(id.clone()),
                Err(fault) => Err(*fault),
            },
            basic_secret: self.basic_secret.clone(),
            post_secret: self.post_secret.clone(),
        }
    }
}

/// What came of checking a client's credentials.
pub enum ClientAuthReply {
    NotRequired,
    Authenticated,
    Failed,
    Internal(String),
}

/// A token that is no longer accepted.
pub struct RevokedAccessToken {
    pub jti: String,
    pub revoked_at: Timestamp,
    pub expires_at: Timestamp,
}

/// What is known of a request so far.
#[derive(Default)]
pub struct RevocationProgress {
    pub client: Reply<Option<Client>>,
    pub authentication: Option<ClientAuthReply>,
    /// How many refresh tokens were revoked.
    pub refresh: Reply<u64>,
    pub access: Reply<()>,
    pub audits: usize,
}

pub enum RevocationStep {
    FindClient { tenant_id: TenantId, client_id: String },
    /// Holds the credentials against those of the client, in the way that it is registered for.
    Authenticate {
        tenant_id: TenantId,
        client: Uuid,
        client_id: String,
        credentials: PresentedClientCredentials,
    },
    RevokeRefresh { token_hash: String, now: Timestamp },
    RevokeAccess(RevokedAccessToken),
    Audit(AuditRecord),
    Done(Result<(), RevocationError>),
}

/// What came of trying one kind of token.
pub enum Attempt {
    Pending(RevocationStep),
    Revoked,
    NotFound,
}

/// What comes next in knowing the client.
pub enum ClientStep {
    Pending(RevocationStep),
    Known,
}

pub struct RevocationService {}

pub open spec fn is_error(r: RevocationStep, code: OAuthErrorCode, description: Seq<char>) -> bool {
    r matches RevocationStep::Done(Err(e)) && e.code == code && e.description@ == description
}

/// What comes next in knowing the client: one way of presenting credentials, an identifier, a
/// registered and active client, and credentials that hold where any are asked for.
pub open spec fn client_rule(
    tenant: TenantContext,
    credentials: PresentedClientCredentials,
    p: RevocationProgress,
    r: ClientStep,
) -> bool {
    if !credentials.single_method {
        r matches ClientStep::Pending(s) && is_error(
            s,
            OAuthErrorCode::InvalidRequest,
            "client credentials must be presented with a single authentication method"@,
        )
    } else {
        match credentials.client_id {
            Err(fault) => r matches ClientStep::Pending(s) && is_error(
                s,
                if fault == ClientIdFault::Mismatch {
                    OAuthErrorCode::InvalidRequest
                } else {
                    OAuthErrorCode::InvalidClient
                },
                "client_id is required"@,
            ),
            Ok(client_id) => match p.client {
                None => r == ClientStep::Pending(
                    RevocationStep::FindClient { tenant_id: tenant.tenant_id, client_id },
                ),
                Some(Err(e)) => r matches ClientStep::Pending(s) && is_error(
                    s,
                    OAuthErrorCode::ServerError,
                    e@,
                ),
                Some(Ok(None)) => r matches ClientStep::Pending(s) && is_error(
                    s,
                    OAuthErrorCode::InvalidClient,
                    "unknown client"@,
                ),
                Some(Ok(Some(client))) => if !client.active {
                    r matches ClientStep::Pending(s) && is_error(
                        s,
                        OAuthErrorCode::InvalidClient,
                        "client is disabled"@,
                    )
                } else {
                    match p.authentication {
                        None => r == ClientStep::Pending(
                            RevocationStep::Authenticate {
                                tenant_id: tenant.tenant_id,
                                client: client.id,
                                client_id: client.client_id,
                                credentials,
                            },
                        ),
                        Some(ClientAuthReply::Failed) => if p.audits == 0 {
                            r == ClientStep::Pending(
                                RevocationStep::Audit(
                                    AuditRecord {
                                        event: AuditEventType::ClientAuthenticationFailed,
                                        result: AuditResult::Failure,
                                        tenant_id: Some(tenant.tenant_id),
                                        user_id: None,
                                        client_id: Some(client.client_id),
                                        reason: Some(AuditReason::Revocation),
                                    },
                                ),
                            )
                        } else {
                            r matches ClientStep::Pending(s) && is_error(
                                s,
                                OAuthErrorCode::InvalidClient,
                                "client authentication failed"@,
                            )
                        },
                        Some(ClientAuthReply::Internal(_)) => r matches ClientStep::Pending(s)
                            && is_error(s, OAuthErrorCode::ServerError, "internal server error"@),
                        Some(_) => r == ClientStep::Known,
                    }
                },
            },
        }
    }
}

/// Trying a token as a refresh token: it is found where any was revoked.
pub open spec fn refresh_rule(
    token: Seq<char>,
    now: Timestamp,
    p: RevocationProgress,
    r: Attempt,
) -> bool {
    match p.refresh {
        None => r matches Attempt::Pending(RevocationStep::RevokeRefresh { token_hash, now: at })
            && token_hash@ == sha256_hex_of(token) && at == now,
        Some(Ok(n)) => if n > 0 {
            r == Attempt::Revoked
        } else {
            r == Attempt::NotFound
        },
        Some(Err(_)) => r == Attempt::NotFound,
    }
}

/// The identifier of an access token, where the text is one: it has a payload with a `jti`.
pub open spec fn token_id(token: Seq<char>) -> Option<Seq<char>> {
    match token_payload_of(token) {
        Some(payload) => match json_string_at(payload, "jti"@) {
            Some(jti) => if jti.len() > 0 {
                Some(jti)
            } else {
                None
            },
            None => None,
        },
        None => None,
    }
}

/// Until when an access token would be accepted: what it says, or now where it says nothing that
/// the calendar knows.
pub open spec fn token_end(token: Seq<char>, now: Timestamp) -> Timestamp {
    let exp: int = match json_integer_at(token_payload_of(token)->0, "exp"@) {
        Some(e) => e as int,
        None => 0,
    };
    match Timestamp::at_unix(exp) {
        Some(t) => t,
        None => now,
    }
}

/// Trying a token as an access token: its identifier goes on the list of those no longer accepted.
pub open spec fn access_rule(
    token: Seq<char>,
    now: Timestamp,
    p: RevocationProgress,
    r: Attempt,
) -> bool {
    match token_id(token) {
        None => r == Attempt::NotFound,
        Some(jti) => match p.access {
            None => r matches Attempt::Pending(RevocationStep::RevokeAccess(t)) && t.jti@ == jti
                && t.revoked_at == now && t.expires_at == token_end(token, now),
            Some(Ok(_)) => r == Attempt::Revoked,
            Some(Err(_)) => r == Attempt::NotFound,
        },
    }
}

/// The revocation is audited, and the answer is success whether or not anything was found.
pub open spec fn closing(tenant: TenantContext, client: Client, p: RevocationProgress) -> RevocationStep {
    if p.audits == 0 {
        RevocationStep::Audit(
            AuditRecord {
                event: AuditEventType::RefreshTokenUsed,
                result: AuditResult::Success,
                tenant_id: Some(tenant.tenant_id),
                user_id: None,
                client_id: Some(client.client_id),
                reason: Some(AuditReason::Revocation),
            },
        )
    } else {
        RevocationStep::Done(Ok(()))
    }
}

/// The client is known: the kind that was named is tried, then the other.
pub open spec fn token_rule(
    tenant: TenantContext,
    token: Seq<char>,
    token_type_hint: Option<String>,
    client: Client,
    now: Timestamp,
    p: RevocationProgress,
    r: RevocationStep,
) -> bool {
    if token_type_hint matches Some(h) && h@ == "access_token"@ {
        exists|first: Attempt| #[trigger]
            access_rule(token, now, p, first) && match first {
                Attempt::Pending(s) => r == s,
                Attempt::Revoked => r == closing(tenant, client, p),
                Attempt::NotFound => exists|second: Attempt| #[trigger]
                    refresh_rule(token, now, p, second) && match second {
                        Attempt::Pending(s) => r == s,
                        _ => r == closing(tenant, client, p),
                    },
            }
    } else {
        exists|first: Attempt| #[trigger]
            refresh_rule(token, now, p, first) && match first {
                Attempt::Pending(s) => r == s,
                Attempt::Revoked => r == closing(tenant, client, p),
                Attempt::NotFound => exists|second: Attempt| #[trigger]
                    access_rule(token, now, p, second) && match second {
                        Attempt::Pending(s) => r == s,
                        _ => r == closing(tenant, client, p),
                    },
            }
    }
}

/// What comes next in a request of which `p` is known.
pub open spec fn revoke_rule(
    tenant: TenantContext,
    token: Seq<char>,
    token_type_hint: Option<String>,
    credentials: PresentedClientCredentials,
    now: Timestamp,
    p: RevocationProgress,
    r: RevocationStep,
) -> bool {
    if token.len() == 0 {
        r == RevocationStep::Done(Ok(()))
    } else {
        exists|c: ClientStep| #[trigger]
            client_rule(tenant, credentials, p, c) && match c {
                ClientStep::Pending(s) => r == s,
                ClientStep::Known => token_rule(
                    tenant,
                    token,
                    token_type_hint,
                    p.client->0->Ok_0->0,
                    now,
                    p,
                    r,
                ),
            }
    }
}

fn refuse(code: OAuthErrorCode, description: &str) -> (r: ClientStep)
    ensures
        r matches ClientStep::Pending(s) && is_error(s, code, description@),
{
    ClientStep::Pending(RevocationStep::Done(Err(RevocationError::new(code, description))))
}

impl RevocationService {
    pub fn new() -> (r: Self)
        ensures
            r == (RevocationService {  }),
    {
        RevocationService {  }
    }

    /// Decides what comes next in knowing the client.
    pub fn load_client(
        &self,
        tenant: &TenantContext,
        credentials: &PresentedClientCredentials,
        p: &RevocationProgress,
    ) -> (r: ClientStep)
        ensures
            client_rule(*tenant, *credentials, *p, r),
    {
        if !credentials.single_method {
            return refuse(
                OAuthErrorCode::InvalidRequest,
                "client credentials must be presented with a single authentication method",
            );
        }
        let client_id: &String = match &credentials.client_id {
            Err(fault) => {
                let code: OAuthErrorCode = match fault {
                    ClientIdFault::Mismatch => OAuthErrorCode::InvalidRequest,
                    ClientIdFault::Missing => OAuthErrorCode::InvalidClient,
                };
                return refuse(code, "client_id is required");
            },
            Ok(client_id) => client_id,
        };
        let client: &Client = match &p.client {
            None => return ClientStep::Pending(
                RevocationStep::FindClient {
                    tenant_id: tenant.tenant_id,
                    client_id: client_id.clone(),
                },
            ),
            Some(Err(e)) => return refuse(OAuthErrorCode::ServerError, e.as_str()),
            Some(Ok(None)) => return refuse(OAuthErrorCode::InvalidClient, "unknown client"),
            Some(Ok(Some(client))) => client,
        };
        if !client.is_active() {
            return refuse(OAuthErrorCode::InvalidClient, "client is disabled");
        }
        match &p.authentication {
            None => ClientStep::Pending(
                RevocationStep::Authenticate {
                    tenant_id: tenant.tenant_id,
                    client: client.id,
                    client_id: client.client_id.clone(),
                    credentials: credentials.clone(),
                },
            ),
            Some(ClientAuthReply::Failed) => if p.audits == 0 {
                ClientStep::Pending(
                    RevocationStep::Audit(
                        AuditRecord {
                            event: AuditEventType::ClientAuthenticationFailed,
                            result: AuditResult::Failure,
                            tenant_id: Some(tenant.tenant_id),
                            user_id: None,
                            client_id: Some(client.client_id.clone()),
                            reason: Some(AuditReason::Revocation),
                        },
                    ),
                )
            } else {
                refuse(OAuthErrorCode::InvalidClient, "client authentication failed")
            },
            Some(ClientAuthReply::Internal(_)) => refuse(
                OAuthErrorCode::ServerError,
                "internal server error",
            ),
            Some(_) => ClientStep::Known,
        }
    }

    /// Tries a token as a refresh token.
    pub fn try_revoke_refresh_token(&self, token: &str, now: Timestamp, p: &RevocationProgress) -> (r:
        Attempt)
        ensures
            refresh_rule(token@, now, *p, r),
    {
        match &p.refresh {
            None => Attempt::Pending(
                RevocationStep::RevokeRefresh { token_hash: sha256_hex(token), now },
            ),
            Some(Ok(revoked)) => if *revoked > 0 {
                Attempt::Revoked
            } else {
                Attempt::NotFound
            },
            Some(Err(_)) => Attempt::NotFound,
        }
    }

    /// Tries a token as an access token.
    pub fn try_revoke_access_token(&self, token: &str, now: Timestamp, p: &RevocationProgress) -> (r:
        Attempt)
        ensures
            access_rule(token@, now, *p, r),
    {
        let payload: Vec<u8> = match token_payload(token) {
            None => return Attempt::NotFound,
            Some(payload) => payload,
        };
        let jti: String = match json_string(payload.as_slice(), "jti") {
            None => return Attempt::NotFound,
            Some(jti) => jti,
        };
        if jti.as_str().is_empty() {
            return Attempt::NotFound;
        }
        let exp: i64 = match json_integer(payload.as_slice(), "exp") {
            Some(exp) => exp,
            None => 0,
        };
        let expires_at: Timestamp = match Timestamp::from_unix(exp) {
            Some(at) => at,
            None => now,
        };
        match &p.access {
            None => Attempt::Pending(
                RevocationStep::RevokeAccess(
                    RevokedAccessToken { jti, revoked_at: now, expires_at },
                ),
            ),
            Some(Ok(_)) => Attempt::Revoked,
            Some(Err(_)) => Attempt::NotFound,
        }
    }

    fn close(&self, tenant: &TenantContext, client: &Client, p: &RevocationProgress) -> (r:
        RevocationStep)
        ensures
            r == closing(*tenant, *client, *p),
    {
        if p.audits == 0 {
            RevocationStep::Audit(
                AuditRecord {
                    event: AuditEventType::RefreshTokenUsed,
                    result: AuditResult::Success,
                    tenant_id: Some(tenant.tenant_id),
                    user_id: None,
                    client_id: Some(client.client_id.clone()),
                    reason: Some(AuditReason::Revocation),
                },
            )
        } else {
            RevocationStep::Done(Ok(()))
        }
    }

    fn revoke_token(
        &self,
        tenant: &TenantContext,
        token: &str,
        token_type_hint: &Option<String>,
        client: &Client,
        now: Timestamp,
        p: &RevocationProgress,
    ) -> (r: RevocationStep)
        ensures
            token_rule(*tenant, token@, *token_type_hint, *client, now, *p, r),
    {
        let access_first: bool = match token_type_hint {
            Some(h) => same(h.as_str(), "access_token"),
            None => false,
        };
        let first: Attempt = if access_first {
            self.try_revoke_access_token(token, now, p)
        } else {
            self.try_revoke_refresh_token(token, now, p)
        };
        proof {
            if access_first {
                assert(access_rule(token@, now, *p, first));
            } else {
                assert(refresh_rule(token@, now, *p, first));
            }
        }
        match first {
            Attempt::Pending(s) => return s,
            Attempt::Revoked => return self.close(tenant, client, p),
            Attempt::NotFound => {},
        }
        let second: Attempt = if access_first {
            self.try_revoke_refresh_token(token, now, p)
        } else {
            self.try_revoke_access_token(token, now, p)
        };
        proof {
            if access_first {
                assert(refresh_rule(token@, now, *p, second));
            } else {
                assert(access_rule(token@, now, *p, second));
            }
        }
        match second {
            Attempt::Pending(s) => s,
            _ => self.close(tenant, client, p),
        }
    }

    /// Decides what comes next in a request of which `p` is known.
    pub fn revoke(
        &self,
        tenant: &TenantContext,
        token: &str,
        token_type_hint: &Option<String>,
        credentials: &PresentedClientCredentials,
        now: Timestamp,
        p: &RevocationProgress,
    ) -> (r: RevocationStep)
        ensures
            revoke_rule(*tenant, token@, *token_type_hint, *credentials, now, *p, r),
    {
        if token.is_empty() {
            return RevocationStep::Done(Ok(()));
        }
        let c: ClientStep = self.load_client(tenant, credentials, p);
        proof {
            assert(client_rule(*tenant, *credentials, *p, c));
        }
        if let ClientStep::Pending(s) = c {
            return s;
        }
        match &p.client {
            Some(Ok(Some(client))) => self.revoke_token(
                tenant,
                token,
                token_type_hint,
                client,
                now,
                p,
            ),
            _ => RevocationStep::Done(Ok(())),
        }
    }
}

/// Where the client is known, a token of either kind is found whatever kind was named: success is
/// reported only after one kind was revoked, or both were tried without being found.
pub proof fn either_kind_is_tried(
    tenant: TenantContext,
    token: Seq<char>,
    token_type_hint: Option<String>,
    client: Client,
    now: Timestamp,
    p: RevocationProgress,
)
    requires
        token_rule(
            tenant,
            token,
            token_type_hint,
            client,
            now,
            p,
            RevocationStep::Done(Ok(())),
        ),
    ensures
        (p.refresh matches Some(Ok(n)) && n > 0) || (token_id(token) is Some && p.access matches Some(
            Ok(_),
        )) || (p.refresh is Some && (token_id(token) is None || p.access is Some)),
{
}

/// Nothing is revoked for a client that is unknown, inactive, or whose credentials do not hold.
pub proof fn revoking_needs_a_known_client(
    tenant: TenantContext,
    token: Seq<char>,
    token_type_hint: Option<String>,
    credentials: PresentedClientCredentials,
    now: Timestamp,
    p: RevocationProgress,
    r: RevocationStep,
)
    requires
        revoke_rule(tenant, token, token_type_hint, credentials, now, p, r),
        r is RevokeRefresh || r is RevokeAccess,
    ensures
        credentials.single_method,
        credentials.client_id is Ok,
        p.client matches Some(Ok(Some(client))) && client.active,
        (p.authentication matches Some(ClientAuthReply::NotRequired)) || (
        p.authentication matches Some(ClientAuthReply::Authenticated)),
{
}

impl RevocationProgress {
    /// The call `step` asks for something that is not known yet.
    pub open spec fn lacks_answer_to(self, step: RevocationStep) -> bool {
        match step {
            RevocationStep::FindClient { .. } => self.client is None,
            RevocationStep::Authenticate { .. } => self.authentication is None,
            RevocationStep::RevokeRefresh { .. } => self.refresh is None,
            RevocationStep::RevokeAccess(_) => self.access is None,
            RevocationStep::Audit(_) => self.audits < 1,
            RevocationStep::Done(_) => true,
        }
    }
}

/// Nothing is asked for that is known already: every call that comes next fills a gap.
pub proof fn nothing_is_asked_twice(
    tenant: TenantContext,
    token: Seq<char>,
    token_type_hint: Option<String>,
    credentials: PresentedClientCredentials,
    now: Timestamp,
    p: RevocationProgress,
    r: RevocationStep,
)
    requires
        revoke_rule(tenant, token, token_type_hint, credentials, now, p, r),
    ensures
        p.lacks_answer_to(r),
{
}

/// What is revoked is the token that was sent: as a refresh token under the hash of its text, as an
/// access token under the identifier that it carries, as of now; and the client that is looked up,
/// checked and audited is the one that has presented itself.
pub proof fn revoking_is_about_the_token_sent(
    tenant: TenantContext,
    token: Seq<char>,
    token_type_hint: Option<String>,
    credentials: PresentedClientCredentials,
    now: Timestamp,
    p: RevocationProgress,
    r: RevocationStep,
)
    requires
        revoke_rule(tenant, token, token_type_hint, credentials, now, p, r),
    ensures
        match r {
            RevocationStep::FindClient { tenant_id, client_id } => tenant_id == tenant.tenant_id
                && credentials.client_id == Ok::<String, ClientIdFault>(client_id)
                && credentials.single_method,
            RevocationStep::Authenticate { tenant_id, client, client_id, credentials: presented } =>
            tenant_id == tenant.tenant_id && presented == credentials && (p.client matches Some(
                Ok(Some(c)),
            ) && client == c.id && client_id == c.client_id && c.active),
            RevocationStep::RevokeRefresh { token_hash, now: at } => token_hash@ == hex_text(
                sha256_of(vstd::utf8::encode_utf8(token)),
            ) && at == now,
            RevocationStep::RevokeAccess(t) => t.revoked_at == now && t.jti@.len() > 0 && (
            token_payload_of(token) matches Some(payload) && json_string_at(payload, "jti"@) == Some(
                t.jti@,
            ) && (json_integer_at(payload, "exp"@) matches Some(exp) ==> (Timestamp::at_unix(
                exp as int,
            ) matches Some(end) ==> t.expires_at == end) && (Timestamp::at_unix(exp as int) is None
                ==> t.expires_at == now))),
            RevocationStep::Audit(a) => a.tenant_id == Some(tenant.tenant_id) && a.user_id is None
                && a.reason == Some(AuditReason::Revocation) && (p.client matches Some(Ok(Some(c)))
                && a.client_id == Some(c.client_id)) && match a.result {
                AuditResult::Failure => a.event == AuditEventType::ClientAuthenticationFailed && (
                p.authentication matches Some(ClientAuthReply::Failed)),
                AuditResult::Success => a.event == AuditEventType::RefreshTokenUsed && (
                p.authentication matches Some(auth) && (auth is Authenticated
                    || auth is NotRequired)),
            },
            RevocationStep::Done(Ok(_)) => token.len() == 0 || p.audits > 0,
            RevocationStep::Done(Err(e)) => match e.code {
                OAuthErrorCode::InvalidRequest => !credentials.single_method
                    || credentials.client_id == Err::<String, ClientIdFault>(
                    ClientIdFault::Mismatch,
                ),
                OAuthErrorCode::InvalidClient => credentials.client_id == Err::<
                    String,
                    ClientIdFault,
                >(ClientIdFault::Missing) || (p.client matches Some(Ok(found)) && (
                found matches Some(c) ==> !c.active || ((
                p.authentication matches Some(ClientAuthReply::Failed)) && p.audits > 0))),
                OAuthErrorCode::ServerError => (p.client matches Some(Err(_))) || (
                p.authentication matches Some(ClientAuthReply::Internal(_))),
            },
        },
{
}

/// The kind that is named is tried first: the other is tried only once the named one was not found.
pub proof fn the_named_kind_comes_first(
    tenant: TenantContext,
    token: Seq<char>,
    token_type_hint: Option<String>,
    credentials: PresentedClientCredentials,
    now: Timestamp,
    p: RevocationProgress,
    r: RevocationStep,
)
    requires
        revoke_rule(tenant, token, token_type_hint, credentials, now, p, r),
    ensures
        r is RevokeRefresh && (token_type_hint matches Some(h) && h@ == "access_token"@) ==> token_id(
            token,
        ) is None || (p.access matches Some(Err(_))),
        r is RevokeAccess && !(token_type_hint matches Some(h) && h@ == "access_token"@) ==> (
        p.refresh matches Some(tried) && (tried matches Ok(n) ==> n == 0)),
{
}

/// A client whose credentials hold, or that needs none, gets its token tried: it is not turned away.
pub proof fn a_known_client_is_served(
    tenant: TenantContext,
    token: Seq<char>,
    token_type_hint: Option<String>,
    credentials: PresentedClientCredentials,
    now: Timestamp,
    p: RevocationProgress,
    client: Client,
    r: RevocationStep,
)
    requires
        revoke_rule(tenant, token, token_type_hint, credentials, now, p, r),
        credentials.single_method,
        credentials.client_id is Ok,
        p.client == Some(Ok::<Option<Client>, String>(Some(client))),
        client.active,
        p.authentication matches Some(auth) && (auth is Authenticated || auth is NotRequired),
    ensures
        !(r matches RevocationStep::Done(Err(_))),
        token.len() > 0 && p.refresh is None && !(token_type_hint matches Some(h) && h@
            == "access_token"@) ==> r is RevokeRefresh,
        token.len() > 0 && p.access is None && token_id(token) is Some && (
        token_type_hint matches Some(h) && h@ == "access_token"@) ==> r is RevokeAccess,
{
}

} // verus!
