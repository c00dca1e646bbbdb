//! Access tokens for the management interface.
//!
//! What a token allows stands in the token. Whether its subject may still be used is asked anew for
//! every request.
use crate::crypto::{
    es256_holds, jwt_header, jwt_header_of, jwt_signature_holds, jwt_verify, key_readable,
    public_key_readable, rs256_holds, token_payload, token_payload_of, uuid_of_text, uuid_parse,
    uuid_text, uuid_text_of, JwtHeader,
};
use crate::key_service::{ActiveSigningKey, SigningAlgorithm, SigningKey};
use crate::model::{
    non_empty, present, AdminActor, Client, Reply, TenantContext, TenantId, User, UserStatus, Uuid,
};
use crate::text::{
    all_words, join2, join_spaced, opt_view, same, spaced, spaced_words_read_back, split_words, views,
    words,
};
use crate::time::{Span, Timestamp, NANOS_PER_SECOND};
use vstd::prelude::*;

verus! {

/// How a token says that its subject is a client.
pub const SUBJECT_TYPE_CLIENT: &'static str = "client";

pub enum ManagementAccess {
    Granted(AuthorizedPrincipal),
    /// There is no valid token.
    Unauthenticated,
    /// The token does not allow it.
    Forbidden,
}

pub struct AuthorizedPrincipal {
    pub actor: AdminActor,
    pub name: Option<String>,
    pub preferred_username: Option<String>,
}

pub struct IssuedManagementToken {
    pub access_token: String,
    pub expires_in: u64,
    pub permission_codes: Vec<String>,
    pub name: Option<String>,
    pub preferred_username: Option<String>,
}

pub enum ManagementTokenError {
    Unauthenticated,
    Internal(String),
}

pub struct AccessTokenClaims {
    pub iss: String,
    pub sub: String,
    pub aud: String,
    pub client_id: String,
    pub scope: String,
    pub exp: i64,
    pub iat: i64,
    pub jti: String,
    pub sub_type: Option<String>,
    pub perms: Option<String>,
}

impl Clone for AccessTokenClaims {
    fn clone(&self) -> (r: AccessTokenClaims)
        ensures
            r == *self,
    {
        AccessTokenClaims {
            iss: self.iss.clone(),
            sub: self.sub.clone(),
            aud: self.aud.clone(),
            client_id: self.client_id.clone(),
            scope: self.scope.clone(),
            exp: self.exp,
            iat: self.iat,
            jti: self.jti.clone(),
            sub_type: self.sub_type.clone(),
            perms: self.perms.clone(),
        }
    }
}

/// What a sign-on is worth to the management interface.
pub struct SessionGrant {
    pub user_id: Uuid,
    pub permission_codes: Vec<String>,
    pub name: Option<String>,
    pub preferred_username: Option<String>,
}

/// Why a token does not hold.
#[derive(Clone, Copy, Debug, PartialEq, Eq, Structural)]
pub enum TokenFault {
    Malformed,
    WrongType,
    NoKid,
    KeyLookupFailed,
    UnknownKey,
    UnusableKey,
    BadSignature,
    WrongIssuer,
    WrongAudience,
    Expired,
    Revoked,
    RevocationLookupFailed,
}

/// What is known of issuing a token so far.
#[derive(Default)]
pub struct IssueProgress {
    pub grant: Option<Option<SessionGrant>>,
    /// The tenant's issuer.
    pub issuer: Option<String>,
    pub key: Reply<ActiveSigningKey>,
    pub signed: Reply<String>,
}

pub enum IssueStep {
    ResolveGrant { tenant_id: TenantId, sso_session_id: Option<String> },
    /// Composes the issuer of the tenant.
    ComposeIssuer { base_issuer: String, tenant_id: TenantId },
    FindSigningKey,
    /// Signs the claims with a key, for a token of this type.
    Sign {
        private_pem: String,
        kid: String,
        token_type: String,
        algorithm: String,
        claims: AccessTokenClaims,
    },
    Done(Result<IssuedManagementToken, ManagementTokenError>),
}

/// What is known of a token so far.
#[derive(Default)]
pub struct AuthorizeProgress {
    pub key: Reply<Option<SigningKey>>,
    /// The claims, where the payload can be read as those of an access token.
    pub claims: Option<Option<AccessTokenClaims>>,
    /// The tenant's issuer.
    pub issuer: Option<String>,
    pub revoked: Reply<bool>,
    pub client: Reply<Option<Client>>,
    pub user: Reply<Option<User>>,
    /// Whether the held permissions satisfy the required one.
    pub satisfied: Option<bool>,
}

pub enum AuthorizeStep {
    FindKey { kid: String },
    /// Reads the payload as the claims of an access token, each once and of its type.
    ReadClaims { payload: Vec<u8> },
    /// Composes the issuer of the tenant.
    ComposeIssuer { base_issuer: String, tenant_id: TenantId },
    CheckRevoked { jti: String },
    FindClient { tenant_id: TenantId, client_id: String },
    FindUser { user_id: Uuid },
    CheckPermission { held: Vec<String>, required: String },
    Done(ManagementAccess),
}

/// What comes next in checking a token.
pub enum VerifyStep {
    FindKey { kid: String },
    ReadClaims { payload: Vec<u8> },
    /// Composes the issuer of the tenant.
    ComposeIssuer { base_issuer: String, tenant_id: TenantId },
    CheckRevoked { jti: String },
    Refused(TokenFault),
    Holds(AccessTokenClaims),
}

/// What comes next in resolving a token's subject.
pub enum PrincipalStep {
    FindClient { tenant_id: TenantId, client_id: String },
    FindUser { user_id: Uuid },
    Unusable,
    Usable(AuthorizedPrincipal),
}

pub struct ManagementTokenService {
    /// The issuer of the provider, of which those of its tenants are made.
    pub base_issuer: String,
    pub ttl_secs: u64,
    pub clock_skew: Span,
}

impl TokenFault {
    pub open spec fn text_of(self) -> Seq<char> {
        match self {
            TokenFault::Malformed => "malformed token"@,
            TokenFault::WrongType => "token typ must be `at+jwt`"@,
            TokenFault::NoKid => "token has no kid"@,
            TokenFault::KeyLookupFailed => "signing key lookup failed"@,
            TokenFault::UnknownKey => "unknown signing key"@,
            TokenFault::UnusableKey => "unusable public key"@,
            TokenFault::BadSignature => "signature verification failed"@,
            TokenFault::WrongIssuer => "issuer mismatch"@,
            TokenFault::WrongAudience => "audience mismatch"@,
            TokenFault::Expired => "token expired"@,
            TokenFault::Revoked => "token has been revoked"@,
            TokenFault::RevocationLookupFailed => "revocation lookup failed"@,
        }
    }

    /// The fault in words.
    pub fn text(&self) -> (r: &'static str)
        ensures
            r@ == self.text_of(),
    {
        match self {
            TokenFault::Malformed => "malformed token",
            TokenFault::WrongType => "token typ must be `at+jwt`",
            TokenFault::NoKid => "token has no kid",
            TokenFault::KeyLookupFailed => "signing key lookup failed",
            TokenFault::UnknownKey => "unknown signing key",
            TokenFault::UnusableKey => "unusable public key",
            TokenFault::BadSignature => "signature verification failed",
            TokenFault::WrongIssuer => "issuer mismatch",
            TokenFault::WrongAudience => "audience mismatch",
            TokenFault::Expired => "token expired",
            TokenFault::Revoked => "token has been revoked",
            TokenFault::RevocationLookupFailed => "revocation lookup failed",
        }
    }
}

/// The audience of the management interface of an issuer.
pub open spec fn management_audience_of(issuer: Seq<char>) -> Seq<char> {
    issuer + "/admin"@
}

/// The audience of the management interface of an issuer.
pub fn management_audience(issuer: &str) -> (r: String)
    ensures
        r@ == management_audience_of(issuer@),
{
    join2(issuer, "/admin")
}

impl AccessTokenClaims {
    pub open spec fn is_client(self) -> bool {
        opt_view(self.sub_type) == Some(SUBJECT_TYPE_CLIENT@)
    }

    /// Whether the token's subject is a client.
    pub fn subject_is_client(&self) -> (r: bool)
        ensures
            r == self.is_client(),
    {
        match &self.sub_type {
            Some(t) => same(t.as_str(), SUBJECT_TYPE_CLIENT),
            None => false,
        }
    }
}

impl ManagementTokenService {
    pub fn new(base_issuer: String, ttl_secs: u64, clock_skew: Span) -> (r: Self)
        ensures
            r.base_issuer == base_issuer,
            r.ttl_secs == ttl_secs,
            r.clock_skew == clock_skew,
    {
        ManagementTokenService { base_issuer, ttl_secs, clock_skew }
    }

    /// The whole seconds of the clock skew, rounded toward zero.
    pub open spec fn skew_seconds_of(self) -> int {
        if self.clock_skew.nanos >= 0 {
            self.clock_skew.nanos as int / NANOS_PER_SECOND as int
        } else {
            -((-self.clock_skew.nanos) as int / NANOS_PER_SECOND as int)
        }
    }

    /// The claims of a token that is issued: for the management interface of the tenant, with the
    /// permissions in it, and with its end.
    pub open spec fn are_claims(
        self,
        c: AccessTokenClaims,
        issuer: Seq<char>,
        subject: Seq<char>,
        client_id: Option<String>,
        permission_codes: Seq<String>,
        now: Timestamp,
        jti: String,
    ) -> bool {
        &&& c.iss@ == issuer
        &&& c.sub@ == subject
        &&& c.aud@ == management_audience_of(issuer)
        &&& c.client_id@ == match client_id {
            Some(id) => id@,
            None => Seq::empty(),
        }
        &&& c.scope@.len() == 0
        &&& c.iat == now.unix_seconds()
        &&& c.exp == now.unix_seconds() + self.ttl_secs
        &&& c.jti == jti
        &&& opt_view(c.sub_type) == match client_id {
            Some(_) => Some(SUBJECT_TYPE_CLIENT@),
            None => None,
        }
        &&& opt_view(c.perms) == Some(spaced(views(permission_codes)))
    }

    /// Puts together the claims of a token.
    pub fn sign(
        &self,
        issuer: &String,
        subject: &str,
        client_id: &Option<String>,
        permission_codes: &Vec<String>,
        now: Timestamp,
        jti: &String,
    ) -> (r: AccessTokenClaims)
        requires
            now.wf(),
            now.unix_seconds() + self.ttl_secs <= i64::MAX,
        ensures
            self.are_claims(r, issuer@, subject@, *client_id, permission_codes@, now, *jti),
    {
        let iat: i64 = now.timestamp();
        let exp: i64 = (iat as i128 + self.ttl_secs as i128) as i64;
        let (id, sub_type) = match client_id {
            Some(id) => (id.clone(), Some(SUBJECT_TYPE_CLIENT.to_owned())),
            None => (String::new(), None),
        };
        AccessTokenClaims {
            iss: issuer.clone(),
            sub: subject.to_owned(),
            aud: management_audience(issuer.as_str()),
            client_id: id,
            scope: String::new(),
            exp,
            iat,
            jti: jti.clone(),
            sub_type,
            perms: Some(join_spaced(permission_codes)),
        }
    }

    /// What comes next in exchanging a sign-on for a token. A user without any permission gets a
    /// token too; it allows nothing.
    pub open spec fn issue_rule(
        self,
        tenant: TenantContext,
        sso_session_id: Option<String>,
        now: Timestamp,
        jti: String,
        p: IssueProgress,
        r: IssueStep,
    ) -> bool {
        match p.grant {
            None => r == (IssueStep::ResolveGrant { tenant_id: tenant.tenant_id, sso_session_id }),
            Some(None) => r == IssueStep::Done(Err(ManagementTokenError::Unauthenticated)),
            Some(Some(grant)) => match p.issuer {
                None => r == (IssueStep::ComposeIssuer {
                    base_issuer: self.base_issuer,
                    tenant_id: tenant.tenant_id,
                }),
                Some(issuer) => self.signing_rule(grant, issuer@, now, jti, p, r),
            },
        }
    }

    /// What comes next once the sign-on and the issuer are known.
    pub open spec fn signing_rule(
        self,
        grant: SessionGrant,
        issuer: Seq<char>,
        now: Timestamp,
        jti: String,
        p: IssueProgress,
        r: IssueStep,
    ) -> bool {
        match p.key {
            None => r == IssueStep::FindSigningKey,
            Some(Err(e)) => r == IssueStep::Done(Err(ManagementTokenError::Internal(e))),
            Some(Ok(key)) => match p.signed {
                None => r matches IssueStep::Sign {
                    private_pem,
                    kid,
                    token_type,
                    algorithm,
                    claims,
                } && private_pem == key.private_pem && kid == key.kid && token_type@ == "at+jwt"@
                    && algorithm == key.algorithm && self.are_claims(
                    claims,
                    issuer,
                    uuid_text_of(grant.user_id.value),
                    None,
                    grant.permission_codes@,
                    now,
                    jti,
                ) && uuid_of_text(claims.sub@) == Some(grant.user_id.value),
                Some(Err(e)) => r == IssueStep::Done(Err(ManagementTokenError::Internal(e))),
                Some(Ok(token)) => r matches IssueStep::Done(Ok(issued)) && issued.access_token
                    == token && issued.expires_in == self.ttl_secs && issued.permission_codes@
                    == grant.permission_codes@ && issued.name == grant.name
                    && issued.preferred_username == grant.preferred_username,
            },
        }
    }

    /// Decides what comes next in exchanging a sign-on for a token.
    pub fn issue_for_session(
        &self,
        tenant: &TenantContext,
        sso_session_id: &Option<String>,
        now: Timestamp,
        jti: &String,
        p: &IssueProgress,
    ) -> (r: IssueStep)
        requires
            now.wf(),
            now.unix_seconds() + self.ttl_secs <= i64::MAX,
        ensures
            self.issue_rule(*tenant, *sso_session_id, now, *jti, *p, r),
    {
        let grant: &SessionGrant = match &p.grant {
            None => return IssueStep::ResolveGrant {
                tenant_id: tenant.tenant_id,
                sso_session_id: sso_session_id.clone(),
            },
            Some(None) => return IssueStep::Done(Err(ManagementTokenError::Unauthenticated)),
            Some(Some(grant)) => grant,
        };
        let issuer: &String = match &p.issuer {
            None => return IssueStep::ComposeIssuer {
                base_issuer: self.base_issuer.clone(),
                tenant_id: tenant.tenant_id,
            },
            Some(issuer) => issuer,
        };
        let key: &ActiveSigningKey = match &p.key {
            None => return IssueStep::FindSigningKey,
            Some(Err(e)) => return IssueStep::Done(Err(ManagementTokenError::Internal(e.clone()))),
            Some(Ok(key)) => key,
        };
        match &p.signed {
            None => {
                let subject: String = uuid_text(grant.user_id.value);
                let claims: AccessTokenClaims = self.sign(
                    issuer,
                    subject.as_str(),
                    &None,
                    &grant.permission_codes,
                    now,
                    jti,
                );
                IssueStep::Sign {
                    private_pem: key.private_pem.clone(),
                    kid: key.kid.clone(),
                    token_type: "at+jwt".to_owned(),
                    algorithm: key.algorithm.clone(),
                    claims,
                }
            },
            Some(Err(e)) => IssueStep::Done(Err(ManagementTokenError::Internal(e.clone()))),
            Some(Ok(token)) => IssueStep::Done(
                Ok(
                    IssuedManagementToken {
                        access_token: token.clone(),
                        expires_in: self.ttl_secs,
                        permission_codes: grant.permission_codes.clone(),
                        name: grant.name.clone(),
                        preferred_username: grant.preferred_username.clone(),
                    },
                ),
            ),
        }
    }

    /// The signature holds: the claims must be the tenant's, meant for the management interface, not
    /// expired and not revoked.
    pub open spec fn claims_rule(
        self,
        tenant: TenantContext,
        now: Timestamp,
        p: AuthorizeProgress,
        c: AccessTokenClaims,
        r: VerifyStep,
    ) -> bool {
        match p.issuer {
            None => r == (VerifyStep::ComposeIssuer {
                base_issuer: self.base_issuer,
                tenant_id: tenant.tenant_id,
            }),
            Some(issuer) => if c.iss@ != issuer@ {
                r == VerifyStep::Refused(TokenFault::WrongIssuer)
            } else if c.aud@ != management_audience_of(issuer@) {
                r == VerifyStep::Refused(TokenFault::WrongAudience)
            } else if c.exp + self.skew_seconds_of() <= now.unix_seconds() {
                r == VerifyStep::Refused(TokenFault::Expired)
            } else if c.jti@.len() == 0 {
                r == VerifyStep::Holds(c)
            } else {
                match p.revoked {
                    None => r == (VerifyStep::CheckRevoked { jti: c.jti }),
                    Some(Err(_)) => r == VerifyStep::Refused(TokenFault::RevocationLookupFailed),
                    Some(Ok(true)) => r == VerifyStep::Refused(TokenFault::Revoked),
                    Some(Ok(false)) => r == VerifyStep::Holds(c),
                }
            },
        }
    }

    /// The key and its algorithm are known: the signature must hold under it, and the payload must be
    /// readable as claims.
    pub open spec fn signed_rule(
        self,
        tenant: TenantContext,
        token: Seq<char>,
        now: Timestamp,
        elliptic: bool,
        public_key: Seq<char>,
        p: AuthorizeProgress,
        r: VerifyStep,
    ) -> bool {
        if !public_key_readable(elliptic, public_key) {
            r == VerifyStep::Refused(TokenFault::UnusableKey)
        } else if !jwt_signature_holds(token, elliptic, public_key) {
            r == VerifyStep::Refused(TokenFault::BadSignature)
        } else {
            match token_payload_of(token) {
                None => r == VerifyStep::Refused(TokenFault::BadSignature),
                Some(payload) => match p.claims {
                    None => r matches VerifyStep::ReadClaims { payload: bytes } && bytes@
                        == payload,
                    Some(None) => r == VerifyStep::Refused(TokenFault::BadSignature),
                    Some(Some(c)) => self.claims_rule(tenant, now, p, c, r),
                },
            }
        }
    }

    /// What comes next in checking a token.
    pub open spec fn verify_rule(
        self,
        tenant: TenantContext,
        token: Seq<char>,
        now: Timestamp,
        p: AuthorizeProgress,
        r: VerifyStep,
    ) -> bool {
        match jwt_header_of(token) {
            None => r == VerifyStep::Refused(TokenFault::Malformed),
            Some((typ, kid)) => if typ != Some("at+jwt"@) {
                r == VerifyStep::Refused(TokenFault::WrongType)
            } else if kid is None {
                r == VerifyStep::Refused(TokenFault::NoKid)
            } else {
                match p.key {
                    None => r matches VerifyStep::FindKey { kid: k } && k@ == kid->0,
                    Some(Err(_)) => r == VerifyStep::Refused(TokenFault::KeyLookupFailed),
                    Some(Ok(None)) => r == VerifyStep::Refused(TokenFault::UnknownKey),
                    Some(Ok(Some(k))) => match SigningAlgorithm::named(k.algorithm@) {
                        None => r == VerifyStep::Refused(TokenFault::UnusableKey),
                        Some(algorithm) => self.signed_rule(
                            tenant,
                            token,
                            now,
                            algorithm == SigningAlgorithm::Es256,
                            k.public_key@,
                            p,
                            r,
                        ),
                    },
                }
            },
        }
    }

    fn skew_seconds(&self) -> (r: i128)
        requires
            self.clock_skew.wf(),
        ensures
            r == self.skew_seconds_of(),
            -10000000000000000 <= r <= 10000000000000000,
    {
        if self.clock_skew.nanos >= 0 {
            self.clock_skew.nanos / NANOS_PER_SECOND
        } else {
            -((-self.clock_skew.nanos) / NANOS_PER_SECOND)
        }
    }

    fn check_claims(
        &self,
        tenant: &TenantContext,
        now: Timestamp,
        p: &AuthorizeProgress,
        claims: AccessTokenClaims,
    ) -> (r: VerifyStep)
        requires
            now.wf(),
            self.clock_skew.wf(),
        ensures
            self.claims_rule(*tenant, now, *p, claims, r),
    {
        let issuer: &String = match &p.issuer {
            None => return VerifyStep::ComposeIssuer {
                base_issuer: self.base_issuer.clone(),
                tenant_id: tenant.tenant_id,
            },
            Some(issuer) => issuer,
        };
        if !same(claims.iss.as_str(), issuer.as_str()) {
            return VerifyStep::Refused(TokenFault::WrongIssuer);
        }
        let audience: String = management_audience(issuer.as_str());
        if !same(claims.aud.as_str(), audience.as_str()) {
            return VerifyStep::Refused(TokenFault::WrongAudience);
        }
        if claims.exp as i128 + self.skew_seconds() <= now.timestamp() as i128 {
            return VerifyStep::Refused(TokenFault::Expired);
        }
        if claims.jti.as_str().is_empty() {
            return VerifyStep::Holds(claims);
        }
        match &p.revoked {
            None => VerifyStep::CheckRevoked { jti: claims.jti },
            Some(Err(_)) => VerifyStep::Refused(TokenFault::RevocationLookupFailed),
            Some(Ok(is_revoked)) => if *is_revoked {
                VerifyStep::Refused(TokenFault::Revoked)
            } else {
                VerifyStep::Holds(claims)
            },
        }
    }

    /// Decides what comes next in checking a token.
    pub fn verify(
        &self,
        tenant: &TenantContext,
        token: &str,
        now: Timestamp,
        p: &AuthorizeProgress,
    ) -> (r: VerifyStep)
        requires
            now.wf(),
            self.clock_skew.wf(),
        ensures
            self.verify_rule(*tenant, token@, now, *p, r),
    {
        let header: JwtHeader = match jwt_header(token) {
            None => return VerifyStep::Refused(TokenFault::Malformed),
            Some(header) => header,
        };
        let access_token: bool = match &header.typ {
            Some(typ) => same(typ.as_str(), "at+jwt"),
            None => false,
        };
        if !access_token {
            return VerifyStep::Refused(TokenFault::WrongType);
        }
        let kid: String = match header.kid {
            None => return VerifyStep::Refused(TokenFault::NoKid),
            Some(kid) => kid,
        };
        let key: &SigningKey = match &p.key {
            None => return VerifyStep::FindKey { kid },
            Some(Err(_)) => return VerifyStep::Refused(TokenFault::KeyLookupFailed),
            Some(Ok(None)) => return VerifyStep::Refused(TokenFault::UnknownKey),
            Some(Ok(Some(key))) => key,
        };
        let elliptic: bool = match SigningAlgorithm::parse(key.algorithm.as_str()) {
            None => return VerifyStep::Refused(TokenFault::UnusableKey),
            Some(algorithm) => algorithm == SigningAlgorithm::Es256,
        };
        if !key_readable(elliptic, key.public_key.as_str()) {
            return VerifyStep::Refused(TokenFault::UnusableKey);
        }
        if !jwt_verify(token, elliptic, key.public_key.as_str()) {
            return VerifyStep::Refused(TokenFault::BadSignature);
        }
        let payload: Vec<u8> = match token_payload(token) {
            None => return VerifyStep::Refused(TokenFault::BadSignature),
            Some(payload) => payload,
        };
        match &p.claims {
            None => VerifyStep::ReadClaims { payload },
            Some(None) => VerifyStep::Refused(TokenFault::BadSignature),
            Some(Some(claims)) => self.check_claims(tenant, now, p, claims.clone()),
        }
    }

    /// Who a token's subject is, and whether it may still be used.
    pub open spec fn principal_rule(
        tenant_id: TenantId,
        c: AccessTokenClaims,
        client: Reply<Option<Client>>,
        user: Reply<Option<User>>,
        r: PrincipalStep,
    ) -> bool {
        if c.is_client() {
            match client {
                None => r == (PrincipalStep::FindClient { tenant_id, client_id: c.sub }),
                Some(Ok(Some(found))) => if found.active {
                    r == PrincipalStep::Usable(
                        AuthorizedPrincipal {
                            actor: AdminActor::Client {
                                id: found.id,
                                client_id: found.client_id,
                            },
                            name: Some(found.app_name),
                            preferred_username: None,
                        },
                    )
                } else {
                    r == PrincipalStep::Unusable
                },
                _ => r == PrincipalStep::Unusable,
            }
        } else {
            match uuid_of_text(c.sub@) {
                None => r == PrincipalStep::Unusable,
                Some(id) => match user {
                    None => r == (PrincipalStep::FindUser { user_id: Uuid { value: id } }),
                    Some(Ok(Some(found))) => if found.active() {
                        r == PrincipalStep::Usable(
                            AuthorizedPrincipal {
                                actor: AdminActor::User(found.id),
                                name: found.name,
                                preferred_username: found.preferred_username,
                            },
                        )
                    } else {
                        r == PrincipalStep::Unusable
                    },
                    _ => r == PrincipalStep::Unusable,
                },
            }
        }
    }

    /// Decides who a token's subject is.
    pub fn resolve_principal(
        &self,
        tenant_id: TenantId,
        claims: &AccessTokenClaims,
        client: &Reply<Option<Client>>,
        user: &Reply<Option<User>>,
    ) -> (r: PrincipalStep)
        ensures
            Self::principal_rule(tenant_id, *claims, *client, *user, r),
    {
        if claims.subject_is_client() {
            return match client {
                None => PrincipalStep::FindClient { tenant_id, client_id: claims.sub.clone() },
                Some(Ok(Some(found))) => if found.is_active() {
                    PrincipalStep::Usable(
                        AuthorizedPrincipal {
                            actor: AdminActor::Client {
                                id: found.id,
                                client_id: found.client_id.clone(),
                            },
                            name: Some(found.app_name.clone()),
                            preferred_username: None,
                        },
                    )
                } else {
                    PrincipalStep::Unusable
                },
                _ => PrincipalStep::Unusable,
            };
        }
        let id: u128 = match uuid_parse(claims.sub.as_str()) {
            None => return PrincipalStep::Unusable,
            Some(id) => id,
        };
        match user {
            None => PrincipalStep::FindUser { user_id: Uuid { value: id } },
            Some(Ok(Some(found))) => if found.is_active() {
                PrincipalStep::Usable(
                    AuthorizedPrincipal {
                        actor: AdminActor::User(found.id),
                        name: found.name.clone(),
                        preferred_username: found.preferred_username.clone(),
                    },
                )
            } else {
                PrincipalStep::Unusable
            },
            _ => PrincipalStep::Unusable,
        }
    }

    /// The permissions that a token holds.
    pub open spec fn held_by(c: AccessTokenClaims) -> Seq<Seq<char>> {
        match c.perms {
            Some(p) => words(p@),
            None => Seq::empty(),
        }
    }

    /// The token holds: its subject must be usable, and its permissions must satisfy the required
    /// one.
    pub open spec fn permission_rule(
        tenant_id: TenantId,
        required: String,
        c: AccessTokenClaims,
        p: AuthorizeProgress,
        r: AuthorizeStep,
    ) -> bool {
        exists|s: PrincipalStep| #[trigger]
            Self::principal_rule(tenant_id, c, p.client, p.user, s) && match s {
                PrincipalStep::FindClient { tenant_id: t, client_id } => r
                    == (AuthorizeStep::FindClient { tenant_id: t, client_id }),
                PrincipalStep::FindUser { user_id } => r == (AuthorizeStep::FindUser { user_id }),
                PrincipalStep::Unusable => r == AuthorizeStep::Done(
                    ManagementAccess::Unauthenticated,
                ),
                PrincipalStep::Usable(principal) => match p.satisfied {
                    None => r matches AuthorizeStep::CheckPermission { held, required: needed }
                        && views(held@) == Self::held_by(c) && needed == required,
                    Some(true) => r == AuthorizeStep::Done(ManagementAccess::Granted(principal)),
                    Some(false) => r == AuthorizeStep::Done(ManagementAccess::Forbidden),
                },
            }
    }

    /// What comes next once the token was looked at.
    pub open spec fn verified_rule(
        tenant_id: TenantId,
        required: String,
        p: AuthorizeProgress,
        v: VerifyStep,
        r: AuthorizeStep,
    ) -> bool {
        match v {
            VerifyStep::FindKey { kid } => r == (AuthorizeStep::FindKey { kid }),
            VerifyStep::ReadClaims { payload } => r == (AuthorizeStep::ReadClaims { payload }),
            VerifyStep::ComposeIssuer { base_issuer, tenant_id } => r
                == (AuthorizeStep::ComposeIssuer { base_issuer, tenant_id }),
            VerifyStep::CheckRevoked { jti } => r == (AuthorizeStep::CheckRevoked { jti }),
            VerifyStep::Refused(_) => r == AuthorizeStep::Done(ManagementAccess::Unauthenticated),
            VerifyStep::Holds(c) => Self::permission_rule(tenant_id, required, c, p, r),
        }
    }

    /// What comes next in asking whether a token allows an operation.
    pub open spec fn authorize_rule(
        self,
        tenant: TenantContext,
        bearer_token: Option<String>,
        required: String,
        now: Timestamp,
        p: AuthorizeProgress,
        r: AuthorizeStep,
    ) -> bool {
        if present(bearer_token) is None {
            r == AuthorizeStep::Done(ManagementAccess::Unauthenticated)
        } else {
            exists|v: VerifyStep| #[trigger]
                self.verify_rule(tenant, present(bearer_token)->0, now, p, v)
                    && Self::verified_rule(tenant.tenant_id, required, p, v, r)
        }
    }

    fn check_permission(
        &self,
        tenant_id: TenantId,
        required: &String,
        claims: &AccessTokenClaims,
        p: &AuthorizeProgress,
    ) -> (r: AuthorizeStep)
        ensures
            Self::permission_rule(tenant_id, *required, *claims, *p, r),
    {
        let s: PrincipalStep = self.resolve_principal(tenant_id, claims, &p.client, &p.user);
        proof {
            assert(Self::principal_rule(tenant_id, *claims, p.client, p.user, s));
        }
        let principal: AuthorizedPrincipal = match s {
            PrincipalStep::FindClient { tenant_id: t, client_id } => {
                return AuthorizeStep::FindClient { tenant_id: t, client_id };
            },
            PrincipalStep::FindUser { user_id } => return AuthorizeStep::FindUser { user_id },
            PrincipalStep::Unusable => {
                return AuthorizeStep::Done(ManagementAccess::Unauthenticated);
            },
            PrincipalStep::Usable(principal) => principal,
        };
        match p.satisfied {
            None => {
                let held: Vec<String> = match &claims.perms {
                    Some(perms) => split_words(perms.as_str()),
                    None => {
                        let none: Vec<String> = Vec::new();
                        proof {
                            assert(views(none@) =~= Seq::<Seq<char>>::empty());
                        }
                        none
                    },
                };
                AuthorizeStep::CheckPermission { held, required: required.clone() }
            },
            Some(satisfied) => if satisfied {
                AuthorizeStep::Done(ManagementAccess::Granted(principal))
            } else {
                AuthorizeStep::Done(ManagementAccess::Forbidden)
            },
        }
    }

    /// Decides what comes next in asking whether a token allows an operation.
    pub fn authorize(
        &self,
        tenant: &TenantContext,
        bearer_token: &Option<String>,
        required_permission: &String,
        now: Timestamp,
        p: &AuthorizeProgress,
    ) -> (r: AuthorizeStep)
        requires
            now.wf(),
            self.clock_skew.wf(),
        ensures
            self.authorize_rule(*tenant, *bearer_token, *required_permission, now, *p, r),
    {
        let token: &String = match non_empty(bearer_token) {
            None => return AuthorizeStep::Done(ManagementAccess::Unauthenticated),
            Some(token) => token,
        };
        let v: VerifyStep = self.verify(tenant, token.as_str(), now, p);
        let ghost step = v;
        let r: AuthorizeStep = match v {
            VerifyStep::FindKey { kid } => AuthorizeStep::FindKey { kid },
            VerifyStep::ReadClaims { payload } => AuthorizeStep::ReadClaims { payload },
            VerifyStep::ComposeIssuer { base_issuer, tenant_id } => {
                AuthorizeStep::ComposeIssuer { base_issuer, tenant_id }
            },
            VerifyStep::CheckRevoked { jti } => AuthorizeStep::CheckRevoked { jti },
            VerifyStep::Refused(_) => AuthorizeStep::Done(ManagementAccess::Unauthenticated),
            VerifyStep::Holds(claims) => self.check_permission(
                tenant.tenant_id,
                required_permission,
                &claims,
                p,
            ),
        };
        proof {
            assert(Self::verified_rule(tenant.tenant_id, *required_permission, *p, step, r));
            assert(self.verify_rule(*tenant, present(*bearer_token)->0, now, *p, step));
        }
        r
    }
}

/// An operation is allowed only on a token of the right type whose signature holds, that was issued
/// by this tenant for its management interface, has not expired and was not revoked, whose subject
/// may still be used, and whose permissions satisfy the required one.
pub proof fn access_needs_a_token_that_holds(
    svc: ManagementTokenService,
    tenant: TenantContext,
    bearer_token: Option<String>,
    required: String,
    now: Timestamp,
    p: AuthorizeProgress,
    principal: AuthorizedPrincipal,
)
    requires
        svc.authorize_rule(
            tenant,
            bearer_token,
            required,
            now,
            p,
            AuthorizeStep::Done(ManagementAccess::Granted(principal)),
        ),
    ensures
        present(bearer_token) matches Some(token) && (jwt_header_of(token) matches Some(h) && h.0
            == Some("at+jwt"@)) && (p.key matches Some(Ok(Some(k))) && (
        SigningAlgorithm::named(k.algorithm@) matches Some(a) && jwt_signature_holds(
            token,
            a == SigningAlgorithm::Es256,
            k.public_key@,
        ))) && token_payload_of(token) is Some,
        p.issuer matches Some(issuer) && (p.claims matches Some(Some(c)) && c.iss@ == issuer@
            && c.aud@ == management_audience_of(issuer@) && c.exp + svc.skew_seconds_of()
            > now.unix_seconds() && (c.jti@.len() > 0 ==> p.revoked matches Some(Ok(false)))),
        p.satisfied matches Some(true),
        (p.client matches Some(Ok(Some(c))) && c.active) || (p.user matches Some(Ok(Some(u)))
            && u.active()),
{
}

/// A token that carries the claims it was issued with, under a key of either algorithm, is taken
/// as long as it has neither expired nor been revoked and its user may be used: the operation is
/// then allowed or forbidden by the permissions of the sign-on it was issued for, and a user without
/// the permission is not taken for one who is not signed on.
pub proof fn an_issued_token_is_taken(
    svc: ManagementTokenService,
    tenant: TenantContext,
    sso_session_id: Option<String>,
    issued_at: Timestamp,
    jti: String,
    issue: IssueProgress,
    signed: IssueStep,
    bearer_token: Option<String>,
    kid: Seq<char>,
    key: SigningKey,
    algorithm: SigningAlgorithm,
    user: User,
    required: String,
    now: Timestamp,
    p: AuthorizeProgress,
    r: AuthorizeStep,
)
    requires
        svc.issue_rule(tenant, sso_session_id, issued_at, jti, issue, signed),
        signed is Sign,
        present(bearer_token) is Some,
        jwt_header_of(present(bearer_token)->0) == Some((Some(signed->token_type@), Some(kid))),
        token_payload_of(present(bearer_token)->0) is Some,
        p.claims == Some(Some(signed->claims)),
        p.issuer == issue.issuer,
        p.key == Some(Ok::<Option<SigningKey>, String>(Some(key))),
        SigningAlgorithm::named(key.algorithm@) == Some(algorithm),
        public_key_readable(algorithm == SigningAlgorithm::Es256, key.public_key@),
        jwt_signature_holds(
            present(bearer_token)->0,
            algorithm == SigningAlgorithm::Es256,
            key.public_key@,
        ),
        now.unix_seconds() < issued_at.unix_seconds() + svc.ttl_secs + svc.skew_seconds_of(),
        p.revoked matches Some(Ok(false)),
        p.user == Some(Ok::<Option<User>, String>(Some(user))),
        user.active(),
        svc.authorize_rule(tenant, bearer_token, required, now, p, r),
    ensures
        match p.satisfied {
            None => r matches AuthorizeStep::CheckPermission { held, required: needed } && needed
                == required && (all_words(views(issue.grant->0->0.permission_codes@)) ==> views(
                held@,
            ) == views(issue.grant->0->0.permission_codes@)),
            Some(true) => r matches AuthorizeStep::Done(ManagementAccess::Granted(principal))
                && principal.actor == AdminActor::User(user.id),
            Some(false) => r == AuthorizeStep::Done(ManagementAccess::Forbidden),
        },
{
    let token = present(bearer_token)->0;
    let codes = views(issue.grant->0->0.permission_codes@);
    if all_words(codes) {
        spaced_words_read_back(codes);
    }
    let v = choose|v: VerifyStep| #[trigger]
        svc.verify_rule(tenant, token, now, p, v) && ManagementTokenService::verified_rule(
            tenant.tenant_id,
            required,
            p,
            v,
            r,
        );
    let c = signed->claims;
    assert(v == VerifyStep::Holds(c));
    assert(opt_view(c.sub_type) is None);
    assert(!c.is_client());
    assert(ManagementTokenService::held_by(c) == words(spaced(codes)));
}

impl IssueProgress {
    /// The call `step` asks for something that is not known yet.
    pub open spec fn lacks_answer_to(self, step: IssueStep) -> bool {
        match step {
            IssueStep::ResolveGrant { .. } => self.grant is None,
            IssueStep::ComposeIssuer { .. } => self.issuer is None,
            IssueStep::FindSigningKey => self.key is None,
            IssueStep::Sign { .. } => self.signed is None,
            IssueStep::Done(_) => true,
        }
    }
}

/// Nothing is asked for that is known already: every call that comes next fills a gap.
pub proof fn issuing_asks_nothing_twice(
    svc: ManagementTokenService,
    tenant: TenantContext,
    sso_session_id: Option<String>,
    now: Timestamp,
    jti: String,
    p: IssueProgress,
    r: IssueStep,
)
    requires
        svc.issue_rule(tenant, sso_session_id, now, jti, p, r),
    ensures
        p.lacks_answer_to(r),
{
}

impl AuthorizeProgress {
    /// The call `step` asks for something that is not known yet.
    pub open spec fn lacks_answer_to(self, step: AuthorizeStep) -> bool {
        match step {
            AuthorizeStep::FindKey { .. } => self.key is None,
            AuthorizeStep::ReadClaims { .. } => self.claims is None,
            AuthorizeStep::ComposeIssuer { .. } => self.issuer is None,
            AuthorizeStep::CheckRevoked { .. } => self.revoked is None,
            AuthorizeStep::FindClient { .. } => self.client is None,
            AuthorizeStep::FindUser { .. } => self.user is None,
            AuthorizeStep::CheckPermission { .. } => self.satisfied is None,
            AuthorizeStep::Done(_) => true,
        }
    }
}

/// Nothing is asked for that is known already: every call that comes next fills a gap.
pub proof fn authorizing_asks_nothing_twice(
    svc: ManagementTokenService,
    tenant: TenantContext,
    bearer_token: Option<String>,
    required: String,
    now: Timestamp,
    p: AuthorizeProgress,
    r: AuthorizeStep,
)
    requires
        svc.authorize_rule(tenant, bearer_token, required, now, p, r),
    ensures
        p.lacks_answer_to(r),
{
}

/// The token that is signed speaks of the sign-on that was exchanged: it is issued by the tenant's
/// composed issuer for that issuer's management interface, names the user of the sign-on, no client
/// and no scope, lasts as long as the service says, and carries the permissions that were resolved;
/// and what is reported beside it says the same.
pub proof fn an_issued_token_speaks_of_its_sign_on(
    svc: ManagementTokenService,
    tenant: TenantContext,
    sso_session_id: Option<String>,
    now: Timestamp,
    jti: String,
    p: IssueProgress,
    r: IssueStep,
)
    requires
        call_ensures(
            ManagementTokenService::issue_for_session,
            (&svc, &tenant, &sso_session_id, now, &jti, &p),
            r,
        ),
    ensures
        match r {
            IssueStep::ResolveGrant { tenant_id, sso_session_id: asked } => tenant_id
                == tenant.tenant_id && asked == sso_session_id,
            IssueStep::ComposeIssuer { base_issuer, tenant_id } => base_issuer == svc.base_issuer
                && tenant_id == tenant.tenant_id,
            IssueStep::FindSigningKey => p.grant matches Some(Some(_)),
            IssueStep::Sign { private_pem, kid, token_type, algorithm, claims } => (
            p.key matches Some(Ok(key)) && private_pem == key.private_pem && kid == key.kid
                && algorithm == key.algorithm) && token_type@ == "at+jwt"@ && (p.issuer matches Some(
                issuer,
            ) && claims.iss@ == issuer@ && claims.aud@ == issuer@ + "/admin"@) && (
            p.grant matches Some(Some(grant)) && uuid_of_text(claims.sub@) == Some(
                grant.user_id.value,
            ) && (claims.perms matches Some(perms) && perms@ == spaced(
                views(grant.permission_codes@),
            ))) && claims.client_id@.len() == 0 && claims.scope@.len() == 0 && claims.sub_type is None
                && claims.jti == jti && claims.exp == claims.iat + svc.ttl_secs && claims.iat
                == now.nanos as int / 1_000_000_000,
            IssueStep::Done(Ok(issued)) => p.signed == Some(
                Ok::<String, String>(issued.access_token),
            ) && issued.expires_in == svc.ttl_secs && (p.grant matches Some(Some(grant))
                && issued.permission_codes@ == grant.permission_codes@ && issued.name == grant.name
                && issued.preferred_username == grant.preferred_username),
            IssueStep::Done(Err(ManagementTokenError::Unauthenticated)) => p.grant matches Some(
                None,
            ),
            IssueStep::Done(Err(ManagementTokenError::Internal(e))) => p.key == Some(
                Err::<ActiveSigningKey, String>(e),
            ) || p.signed == Some(Err::<String, String>(e)),
        },
{
}

/// A token that was issued is taken back, for its user, as long as it lasts: its claims hold for the
/// issuer they were made for until their end has passed by the clock's skew, and lead to the user whom
/// they were made for.
pub proof fn an_issued_token_is_accepted_until_its_end(
    svc: ManagementTokenService,
    tenant: TenantContext,
    sso_session_id: Option<String>,
    issued_at: Timestamp,
    jti: String,
    issuing: IssueProgress,
    private_pem: String,
    kid: String,
    token_type: String,
    algorithm: String,
    claims: AccessTokenClaims,
    now: Timestamp,
    p: AuthorizeProgress,
    v: VerifyStep,
    who: PrincipalStep,
)
    requires
        call_ensures(
            ManagementTokenService::issue_for_session,
            (&svc, &tenant, &sso_session_id, issued_at, &jti, &issuing),
            IssueStep::Sign { private_pem, kid, token_type, algorithm, claims },
        ),
        p.issuer == issuing.issuer,
        p.revoked == Some(Ok::<bool, String>(false)),
        svc.claims_rule(tenant, now, p, claims, v),
        ManagementTokenService::principal_rule(tenant.tenant_id, claims, p.client, p.user, who),
    ensures
        v == VerifyStep::Holds(claims) || v == VerifyStep::Refused(TokenFault::Expired),
        v == VerifyStep::Refused(TokenFault::Expired) ==> claims.exp + svc.skew_seconds_of()
            <= now.unix_seconds(),
        now.unix_seconds() < issued_at.unix_seconds() + svc.ttl_secs && svc.clock_skew.nanos >= 0
            ==> v == VerifyStep::Holds(claims),
        issuing.grant matches Some(Some(grant)) && (who matches PrincipalStep::FindUser { user_id }
            ==> user_id == grant.user_id) && !(who is FindClient) && (p.user is None
            ==> who is FindUser),
        who matches PrincipalStep::Usable(principal) ==> (p.user matches Some(Ok(Some(user)))
            && principal.actor == AdminActor::User(user.id)),
{
    if svc.clock_skew.nanos >= 0 {
        assert(svc.skew_seconds_of() >= 0) by (nonlinear_arith)
            requires
                svc.clock_skew.nanos >= 0,
                svc.skew_seconds_of() == svc.clock_skew.nanos as int / 1_000_000_000,
        ;
    }
}

/// Every call in asking whether a token allows an operation is about that token, the key it names, the
/// identifier it carries, its subject, and the permission that is required.
pub proof fn access_is_asked_about_the_token(
    svc: ManagementTokenService,
    tenant: TenantContext,
    bearer_token: Option<String>,
    required: String,
    now: Timestamp,
    p: AuthorizeProgress,
    r: AuthorizeStep,
)
    requires
        call_ensures(
            ManagementTokenService::authorize,
            (&svc, &tenant, &bearer_token, &required, now, &p),
            r,
        ),
    ensures
        match r {
            AuthorizeStep::FindKey { kid } => bearer_token matches Some(token) && (jwt_header_of(
                token@,
            ) matches Some((Some(typ), Some(named))) && typ == "at+jwt"@ && kid@ == named),
            AuthorizeStep::ReadClaims { payload } => bearer_token matches Some(token)
                && token_payload_of(token@) == Some(payload@) && (p.key matches Some(Ok(Some(k)))
                && (es256_holds(token@, k.public_key@) || rs256_holds(token@, k.public_key@))),
            AuthorizeStep::ComposeIssuer { base_issuer, tenant_id } => base_issuer
                == svc.base_issuer && tenant_id == tenant.tenant_id,
            AuthorizeStep::CheckRevoked { jti } => p.claims matches Some(Some(c)) && jti == c.jti,
            AuthorizeStep::FindClient { tenant_id, client_id } => tenant_id == tenant.tenant_id && (
            p.claims matches Some(Some(c)) && client_id == c.sub && (c.sub_type matches Some(t) && t@
                == "client"@)),
            AuthorizeStep::FindUser { user_id } => p.claims matches Some(Some(c)) && uuid_of_text(
                c.sub@,
            ) == Some(user_id.value) && !(c.sub_type matches Some(t) && t@ == "client"@),
            AuthorizeStep::CheckPermission { held, required: needed } => needed == required && (
            p.claims matches Some(Some(c)) && (c.perms matches Some(perms) ==> views(held@) == words(
                perms@,
            )) && (c.perms is None ==> held@.len() == 0)),
            AuthorizeStep::Done(ManagementAccess::Granted(principal)) => p.satisfied == Some(true)
                && match principal.actor {
                AdminActor::User(id) => p.user matches Some(Ok(Some(user))) && id == user.id
                    && user.status == UserStatus::Active && principal.name == user.name
                    && principal.preferred_username == user.preferred_username && (
                p.claims matches Some(Some(c)) && uuid_of_text(c.sub@) is Some),
                AdminActor::Client { id, client_id } => p.client matches Some(Ok(Some(client))) && id
                    == client.id && client_id == client.client_id && client.active && principal.name
                    == Some(client.app_name) && principal.preferred_username is None && (
                p.claims matches Some(Some(c)) && (c.sub_type matches Some(t) && t@ == "client"@)),
            },
            AuthorizeStep::Done(ManagementAccess::Forbidden) => p.satisfied == Some(false),
            AuthorizeStep::Done(ManagementAccess::Unauthenticated) => true,
        },
        p.satisfied == Some(true) ==> r != AuthorizeStep::Done(ManagementAccess::Forbidden),
{
    if let AuthorizeStep::CheckPermission { held, .. } = r {
        if let Some(Some(c)) = p.claims {
            if c.perms is None {
                assert(views(held@).len() == held@.len());
            }
        }
    }
}

/// A token that is in order, of a user who may still be used, with permissions that suffice, is let
/// in as that user.
pub proof fn a_token_in_order_is_let_in(
    svc: ManagementTokenService,
    tenant: TenantContext,
    token: String,
    required: String,
    now: Timestamp,
    p: AuthorizeProgress,
    key: SigningKey,
    c: AccessTokenClaims,
    issuer: String,
    user: User,
    kid: Seq<char>,
    r: AuthorizeStep,
)
    requires
        call_ensures(
            ManagementTokenService::authorize,
            (&svc, &tenant, &Some(token), &required, now, &p),
            r,
        ),
        token@.len() > 0,
        jwt_header_of(token@) == Some((Some("at+jwt"@), Some(kid))),
        p.key == Some(Ok::<Option<SigningKey>, String>(Some(key))),
        key.algorithm@ == "RS256"@,
        public_key_readable(false, key.public_key@),
        rs256_holds(token@, key.public_key@),
        token_payload_of(token@) is Some,
        p.claims == Some(Some(c)),
        p.issuer == Some(issuer),
        c.iss@ == issuer@,
        c.aud@ == issuer@ + "/admin"@,
        now.unix_seconds() < c.exp + svc.skew_seconds_of(),
        p.revoked == Some(Ok::<bool, String>(false)),
        c.sub_type is None,
        uuid_of_text(c.sub@) is Some,
        p.user == Some(Ok::<Option<User>, String>(Some(user))),
        user.status == UserStatus::Active,
        p.satisfied == Some(true),
    ensures
        r matches AuthorizeStep::Done(ManagementAccess::Granted(principal)) && principal.actor
            == AdminActor::User(user.id),
{
    reveal_strlit("ES256");
    reveal_strlit("RS256");
    assert("ES256"@[0] != "RS256"@[0]);
}

/// A service keeps its issuer, its span and its skew as they were given.
pub proof fn a_token_service_is_made_of_what_it_is_given(
    base_issuer: String,
    ttl_secs: u64,
    clock_skew: Span,
    svc: ManagementTokenService,
)
    requires
        call_ensures(ManagementTokenService::new, (base_issuer, ttl_secs, clock_skew), svc),
    ensures
        svc.base_issuer == base_issuer,
        svc.ttl_secs == ttl_secs,
        svc.clock_skew == clock_skew,
{
}

/// The skew that the clock is granted is the one that was given, in whole seconds.
pub proof fn the_skew_is_granted_in_seconds(svc: ManagementTokenService)
    requires
        svc.clock_skew.nanos >= 0,
    ensures
        svc.skew_seconds_of() * 1_000_000_000 <= svc.clock_skew.nanos,
        svc.clock_skew.nanos < (svc.skew_seconds_of() + 1) * 1_000_000_000,
{
    vstd::arithmetic::div_mod::lemma_fundamental_div_mod(
        svc.clock_skew.nanos as int,
        NANOS_PER_SECOND as int,
    );
}

/// A token is refused for its age exactly where its end, with the skew, has come.
pub proof fn a_token_ages(
    svc: ManagementTokenService,
    tenant: TenantContext,
    now: Timestamp,
    p: AuthorizeProgress,
    c: AccessTokenClaims,
    v: VerifyStep,
)
    requires
        svc.claims_rule(tenant, now, p, c, v),
        p.issuer matches Some(issuer) && c.iss@ == issuer@ && c.aud@ == issuer@ + "/admin"@,
    ensures
        v == VerifyStep::Refused(TokenFault::Expired) <==> c.exp + svc.skew_seconds_of()
            <= now.unix_seconds(),
        v == VerifyStep::Refused(TokenFault::Revoked) ==> p.revoked == Some(Ok::<bool, String>(true)),
        v matches VerifyStep::CheckRevoked { jti } ==> jti == c.jti && jti@.len() > 0,
        v matches VerifyStep::Holds(held) ==> held == c && (c.jti@.len() > 0 ==> p.revoked == Some(
            Ok::<bool, String>(false),
        )),
{
}

} // verus!
