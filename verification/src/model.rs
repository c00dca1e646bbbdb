//! The records that the use cases read and write.
use crate::crypto::{hex_bytes, hex_reads_back, sha256_hex, sha256_of};
use crate::text::{contains_text, views};
use crate::time::{Span, Timestamp};
use vstd::prelude::*;

verus! {

/// A universally unique identifier.
#[derive(Clone, Copy, Debug, PartialEq, Eq, Structural)]
pub struct Uuid {
    pub value: u128,
}

/// A tenant's identifier.
#[derive(Clone, Copy, Debug, PartialEq, Eq, Structural)]
pub struct TenantId {
    pub value: u128,
}

/// What the store has answered: nothing yet, a value, or its error.
pub type Stored<T> = Option<Result<T, DomainError>>;

/// What an asked-for call has answered: nothing yet, a value, or the text of its error.
pub type Reply<T> = Option<Result<T, String>>;

/// The tenant that a request is made to.
pub struct TenantContext {
    pub tenant_id: TenantId,
}

/// Where a request comes from.
pub struct RequestContext {
    pub correlation_id: String,
    pub ip_address: Option<String>,
    pub user_agent: Option<String>,
}

/// A failure of the store or of a domain rule.
pub enum DomainError {
    /// Something of the same identity is there already.
    Conflict(String),
    /// A value breaks a rule of its type.
    InvalidValue(String),
    /// What was named is not there.
    NotFound(String),
    /// The store failed.
    Repository(String),
}

impl DomainError {
    /// What went wrong, in words.
    pub open spec fn message_of(self) -> Seq<char> {
        match self {
            DomainError::Conflict(m) => m@,
            DomainError::InvalidValue(m) => m@,
            DomainError::NotFound(m) => m@,
            DomainError::Repository(m) => m@,
        }
    }

    pub fn message(&self) -> (r: String)
        ensures
            r@ == self.message_of(),
    {
        match self {
            DomainError::Conflict(m) => m.clone(),
            DomainError::InvalidValue(m) => m.clone(),
            DomainError::NotFound(m) => m.clone(),
            DomainError::Repository(m) => m.clone(),
        }
    }
}

/// A text that the presentation layer looks up in its catalogue.
pub struct MessageKey {
    pub key: String,
}

impl Clone for MessageKey {
    fn clone(&self) -> (r: MessageKey)
        ensures
            r == *self,
    {
        MessageKey { key: self.key.clone() }
    }
}

impl Clone for DomainError {
    fn clone(&self) -> (r: DomainError)
        ensures
            r == *self,
    {
        match self {
            DomainError::Conflict(m) => DomainError::Conflict(m.clone()),
            DomainError::InvalidValue(m) => DomainError::InvalidValue(m.clone()),
            DomainError::NotFound(m) => DomainError::NotFound(m.clone()),
            DomainError::Repository(m) => DomainError::Repository(m.clone()),
        }
    }
}

impl MessageKey {
    pub fn new(key: &str) -> (r: MessageKey)
        ensures
            r.key@ == key@,
    {
        MessageKey { key: key.to_owned() }
    }
}

/// Who carries out an administrative operation.
#[derive(Debug)]
pub enum AdminActor {
    User(Uuid),
    Client { id: Uuid, client_id: String },
}

impl AdminActor {
    /// The acting user, where a user acts.
    pub open spec fn user_id_of(self) -> Option<Uuid> {
        match self {
            AdminActor::User(id) => Some(id),
            AdminActor::Client { .. } => None,
        }
    }

    pub fn user_id(&self) -> (r: Option<Uuid>)
        ensures
            r == self.user_id_of(),
    {
        match self {
            AdminActor::User(id) => Some(*id),
            AdminActor::Client { .. } => None,
        }
    }
}

impl AdminActor {
    /// The acting client's identifier, where a client acts.
    pub open spec fn client_id_of(self) -> Option<String> {
        match self {
            AdminActor::User(_) => None,
            AdminActor::Client { id, client_id } => Some(client_id),
        }
    }

    pub fn client_id(&self) -> (r: Option<String>)
        ensures
            r == self.client_id_of(),
    {
        match self {
            AdminActor::User(_) => None,
            AdminActor::Client { id, client_id } => Some(client_id.clone()),
        }
    }
}

impl AdminActor {
    /// What an audit entry says of an acting client beside its other columns.
    pub open spec fn audit_note_of(self) -> Option<Seq<char>> {
        match self {
            AdminActor::User(_) => None,
            AdminActor::Client { id, client_id } => Some("client="@ + client_id@),
        }
    }

    pub fn audit_note(&self) -> (r: Option<String>)
        ensures
            crate::text::opt_view(r) == self.audit_note_of(),
    {
        match self {
            AdminActor::User(_) => None,
            AdminActor::Client { id, client_id } => Some(
                crate::text::join2("client=", client_id.as_str()),
            ),
        }
    }
}

impl Clone for AdminActor {
    fn clone(&self) -> (r: AdminActor)
        ensures
            r == *self,
    {
        match self {
            AdminActor::User(id) => AdminActor::User(*id),
            AdminActor::Client { id, client_id } => AdminActor::Client {
                id: *id,
                client_id: client_id.clone(),
            },
        }
    }
}

#[derive(Clone, Copy, Debug, PartialEq, Eq, Structural)]
pub enum UserStatus {
    Active,
    Disabled,
}

/// A user account.
pub struct User {
    pub id: Uuid,
    pub sub: Uuid,
    pub tenant_id: TenantId,
    pub email: String,
    pub email_verified: bool,
    pub preferred_username: Option<String>,
    pub name: Option<String>,
    pub language: Option<String>,
    pub password_hash: String,
    pub status: UserStatus,
    pub must_change_password: bool,
    pub failed_login_count: i32,
    pub locked_until: Option<Timestamp>,
}

impl Clone for User {
    fn clone(&self) -> (r: User)
        ensures
            r == *self,
    {
        User {
            id: self.id,
            sub: self.sub,
            tenant_id: self.tenant_id,
            email: self.email.clone(),
            email_verified: self.email_verified,
            preferred_username: self.preferred_username.clone(),
            name: self.name.clone(),
            language: self.language.clone(),
            password_hash: self.password_hash.clone(),
            status: self.status,
            must_change_password: self.must_change_password,
            failed_login_count: self.failed_login_count,
            locked_until: self.locked_until,
        }
    }
}

impl User {
    pub open spec fn active(self) -> bool {
        self.status == UserStatus::Active
    }

    /// Locked until a point that lies ahead.
    pub open spec fn locked_at(self, now: Timestamp) -> bool {
        self.locked_until matches Some(until) && now.nanos < until.nanos
    }

    /// Whether failures or a lock are on record.
    pub open spec fn has_failures(self) -> bool {
        self.failed_login_count > 0 || self.locked_until is Some
    }

    pub fn is_active(&self) -> (r: bool)
        ensures
            r == self.active(),
    {
        self.status == UserStatus::Active
    }

    pub fn is_locked_at(&self, now: Timestamp) -> (r: bool)
        ensures
            r == self.locked_at(now),
    {
        match self.locked_until {
            Some(until) => now.before(until),
            None => false,
        }
    }

    pub fn has_failures_on_record(&self) -> (r: bool)
        ensures
            r == self.has_failures(),
    {
        self.failed_login_count > 0 || self.locked_until.is_some()
    }
}

/// How a user has proved who they are.
#[derive(Clone, Copy, Debug, PartialEq, Eq, Structural)]
pub enum AuthenticationMethod {
    Password,
    Totp,
    RecoveryCode,
    EmailOtp,
    WebAuthn,
}

/// One method alone.
pub fn only(method: AuthenticationMethod) -> (r: Vec<AuthenticationMethod>)
    ensures
        r@ == seq![method],
{
    let mut out: Vec<AuthenticationMethod> = Vec::new();
    out.push(method);
    assert(out@ =~= seq![method]);
    out
}

/// Two methods, in this order.
pub fn both(
    first: AuthenticationMethod,
    second: AuthenticationMethod,
) -> (r: Vec<AuthenticationMethod>)
    ensures
        r@ == seq![first, second],
{
    let mut out: Vec<AuthenticationMethod> = Vec::new();
    out.push(first);
    out.push(second);
    assert(out@ =~= seq![first, second]);
    out
}

/// The kinds of authenticators in the registry.
#[derive(Clone, Copy, Debug, PartialEq, Eq, Structural)]
pub enum AuthenticatorType {
    Totp,
    RecoveryCode,
    EmailOtp,
    WebAuthn,
}

impl AuthenticatorType {
    pub open spec fn code_of(self) -> Seq<char> {
        match self {
            AuthenticatorType::Totp => "totp"@,
            AuthenticatorType::RecoveryCode => "recovery_code"@,
            AuthenticatorType::EmailOtp => "email_otp"@,
            AuthenticatorType::WebAuthn => "webauthn"@,
        }
    }

    /// The name under which the kind is recorded.
    pub fn code(&self) -> (r: String)
        ensures
            r@ == self.code_of(),
    {
        match self {
            AuthenticatorType::Totp => "totp".to_owned(),
            AuthenticatorType::RecoveryCode => "recovery_code".to_owned(),
            AuthenticatorType::EmailOtp => "email_otp".to_owned(),
            AuthenticatorType::WebAuthn => "webauthn".to_owned(),
        }
    }
}

/// After how many failures an account is locked, and for how long.
#[derive(Clone, Copy, Debug, PartialEq, Eq, Structural)]
pub struct LockoutPolicy {
    pub max_failed_attempts: i32,
    pub lock_duration_secs: i64,
}

/// What an authentication policy decides where none applies.
#[derive(Clone, Copy, Debug, PartialEq, Eq, Structural)]
pub enum DefaultPolicyEffect {
    Allow,
    Deny,
}

/// What the tenant's authentication policies decide.
pub enum PolicyDecision {
    Allow,
    Deny { policy_code: String },
    RequireMfa { policy_code: String },
    RequireSpecificMethod { policy_code: String },
}

/// A method that a policy asks for and that was not used.
pub struct UnmetMethod {
    pub policy_code: String,
    /// The requirement in words.
    pub required: String,
}

/// What the policies are evaluated on.
pub struct PolicyQuery {
    pub tenant_id: TenantId,
    pub client_id: Option<String>,
    pub user_id: Uuid,
    pub ip_address: Option<String>,
    pub now: Timestamp,
    pub acr_values: Option<String>,
    pub default_effect: DefaultPolicyEffect,
    /// The methods that will have been used if nothing else is asked for.
    pub methods: Vec<AuthenticationMethod>,
    /// Whether the authenticator has verified its user.
    pub user_verified: bool,
}

/// The policies' decision, and the method requirement that the methods in use leave unmet.
pub struct PolicyEvaluation {
    pub decision: PolicyDecision,
    pub unmet: Option<UnmetMethod>,
}

#[derive(Clone, Copy, Debug, PartialEq, Eq, Structural)]
pub enum CodeChallengeMethod {
    S256,
}

/// How a client wants the code handed over.
#[derive(Clone, Copy, Debug, PartialEq, Eq, Structural)]
pub enum ResponseMode {
    Query,
    FormPost,
}

/// An authorization request that waits for its user.
pub struct AuthSession {
    pub id_hash: String,
    pub tenant_id: TenantId,
    pub client_id: String,
    pub redirect_uri: String,
    pub response_mode: ResponseMode,
    pub scope: Vec<String>,
    pub state: String,
    pub nonce: String,
    pub acr_values: Option<String>,
    pub login_hint: Option<String>,
    pub ui_locales: Option<String>,
    pub code_challenge: String,
    pub code_challenge_method: CodeChallengeMethod,
    pub prompt: Option<String>,
    pub max_age: Option<i64>,
    pub handle_hash: Option<String>,
    pub handle_expires_at: Option<Timestamp>,
    pub authenticated_user_id: Option<Uuid>,
    pub auth_time: Option<Timestamp>,
    pub password_verified_at: Option<Timestamp>,
    pub sso_sid: Option<String>,
    pub expires_at: Timestamp,
    pub created_at: Timestamp,
    pub updated_at: Timestamp,
}

impl Clone for AuthSession {
    fn clone(&self) -> (r: AuthSession)
        ensures
            r.same_as(*self),
    {
        AuthSession {
            id_hash: self.id_hash.clone(),
            tenant_id: self.tenant_id,
            client_id: self.client_id.clone(),
            redirect_uri: self.redirect_uri.clone(),
            response_mode: self.response_mode,
            scope: self.scope.clone(),
            state: self.state.clone(),
            nonce: self.nonce.clone(),
            acr_values: self.acr_values.clone(),
            login_hint: self.login_hint.clone(),
            ui_locales: self.ui_locales.clone(),
            code_challenge: self.code_challenge.clone(),
            code_challenge_method: self.code_challenge_method,
            prompt: self.prompt.clone(),
            max_age: self.max_age,
            handle_hash: self.handle_hash.clone(),
            handle_expires_at: self.handle_expires_at,
            authenticated_user_id: self.authenticated_user_id,
            auth_time: self.auth_time,
            password_verified_at: self.password_verified_at,
            sso_sid: self.sso_sid.clone(),
            expires_at: self.expires_at,
            created_at: self.created_at,
            updated_at: self.updated_at,
        }
    }
}

impl AuthSession {
    /// Every field is the same.
    pub open spec fn same_as(self, other: AuthSession) -> bool {
        self.scope@ == other.scope@ && self == (AuthSession { scope: self.scope, ..other })
    }

    pub open spec fn expired_at(self, now: Timestamp) -> bool {
        self.expires_at.nanos <= now.nanos
    }

    pub fn is_expired_at(&self, now: Timestamp) -> (r: bool)
        ensures
            r == self.expired_at(now),
    {
        self.expires_at.at_or_before(now)
    }
}

/// Under what the store keeps an authorization session: the hash of its identifier.
pub open spec fn id_hash_of(session_id: Seq<char>) -> Seq<char> {
    crate::crypto::sha256_hex_of(session_id)
}

/// The hash under which an authorization session is kept.
pub fn id_hash(session_id: &str) -> (r: String)
    ensures
        r@ == id_hash_of(session_id@),
{
    sha256_hex(session_id)
}

/// A sign-on that several clients share.
pub struct SsoSession {
    pub session_hash: String,
    pub user_id: Uuid,
    pub auth_time: Timestamp,
    pub idle_expires_at: Timestamp,
    pub absolute_expires_at: Timestamp,
    pub methods: Vec<AuthenticationMethod>,
    pub user_agent: Option<String>,
    pub ip_address: Option<String>,
    /// When the user was last confirmed.
    pub step_up_at: Option<Timestamp>,
    pub created_at: Timestamp,
    pub updated_at: Timestamp,
}

impl Clone for SsoSession {
    fn clone(&self) -> (r: SsoSession)
        ensures
            r.same_as(*self),
    {
        SsoSession {
            session_hash: self.session_hash.clone(),
            user_id: self.user_id,
            auth_time: self.auth_time,
            idle_expires_at: self.idle_expires_at,
            absolute_expires_at: self.absolute_expires_at,
            methods: self.methods.clone(),
            user_agent: self.user_agent.clone(),
            ip_address: self.ip_address.clone(),
            step_up_at: self.step_up_at,
            created_at: self.created_at,
            updated_at: self.updated_at,
        }
    }
}

/// What a new sign-on is made from.
pub struct SsoGrant {
    pub session_hash: String,
    pub user_id: Uuid,
    pub now: Timestamp,
    pub idle_ttl: Span,
    pub absolute_ttl: Span,
    pub methods: Vec<AuthenticationMethod>,
    pub user_agent: Option<String>,
    pub ip_address: Option<String>,
}

impl SsoSession {
    /// Every field is the same.
    pub open spec fn same_as(self, other: SsoSession) -> bool {
        self.methods@ == other.methods@ && self == (SsoSession { methods: self.methods, ..other })
    }

    /// Neither idle for too long nor too old.
    pub open spec fn valid_at(self, now: Timestamp) -> bool {
        now.nanos < self.idle_expires_at.nanos && now.nanos < self.absolute_expires_at.nanos
    }

    pub fn is_valid_at(&self, now: Timestamp) -> (r: bool)
        ensures
            r == self.valid_at(now),
    {
        now.before(self.idle_expires_at) && now.before(self.absolute_expires_at)
    }

    /// Whether this is the sign-on that a grant makes.
    pub open spec fn established_from(self, grant: SsoGrant) -> bool {
        &&& self.session_hash == grant.session_hash
        &&& self.user_id == grant.user_id
        &&& self.auth_time == grant.now
        &&& self.idle_expires_at == grant.now.later(grant.idle_ttl)
        &&& self.absolute_expires_at == grant.now.later(grant.absolute_ttl)
        &&& self.methods == grant.methods
        &&& self.user_agent == grant.user_agent
        &&& self.ip_address == grant.ip_address
        &&& self.step_up_at is None
        &&& self.created_at == grant.now
        &&& self.updated_at == grant.now
    }

    /// The sign-on that begins now, ends after either of its two spans, and has not been confirmed.
    pub fn establish(grant: SsoGrant) -> (r: SsoSession)
        requires
            grant.now.can_add(grant.idle_ttl),
            grant.now.can_add(grant.absolute_ttl),
        ensures
            r.established_from(grant),
    {
        SsoSession {
            session_hash: grant.session_hash,
            user_id: grant.user_id,
            auth_time: grant.now,
            idle_expires_at: grant.now.plus(grant.idle_ttl),
            absolute_expires_at: grant.now.plus(grant.absolute_ttl),
            methods: grant.methods,
            user_agent: grant.user_agent,
            ip_address: grant.ip_address,
            step_up_at: None,
            created_at: grant.now,
            updated_at: grant.now,
        }
    }
}

/// The identifiers that were drawn for a sign-on that may come about.
pub struct SsoDraw {
    /// The value of the cookie.
    pub sso_session_id: String,
    /// The `sid` that tokens of this sign-on carry.
    pub sid: String,
}

/// A user's secret for time-based codes.
pub struct TotpSecret {
    pub secret_encrypted: String,
    /// When the user showed that they have it.
    pub confirmed_at: Option<Timestamp>,
}

impl TotpSecret {
    pub fn is_confirmed(&self) -> (r: bool)
        ensures
            r == (self.confirmed_at is Some),
    {
        self.confirmed_at.is_some()
    }
}

/// What a user has agreed to hand to a client.
pub struct ClientConsent {
    pub scope: Vec<String>,
}

impl ClientConsent {
    /// Whether every one of `scopes` was agreed to.
    pub open spec fn covers_all(self, scopes: Seq<Seq<char>>) -> bool {
        forall|i: int| 0 <= i < scopes.len() ==> views(self.scope@).contains(#[trigger] scopes[i])
    }

    pub fn covers(&self, scopes: &Vec<String>) -> (r: bool)
        ensures
            r == self.covers_all(views(scopes@)),
    {
        let mut i: usize = 0;
        while i < scopes.len()
            invariant
                i <= scopes.len(),
                forall|j: int|
                    0 <= j < i ==> views(self.scope@).contains(#[trigger] views(scopes@)[j]),
            decreases scopes.len() - i,
        {
            let found: bool = contains_text(&self.scope, scopes[i].as_str());
            proof {
                assert(views(scopes@)[i as int] == scopes@[i as int]@);
            }
            if !found {
                return false;
            }
            i = i + 1;
        }
        true
    }
}

/// A registered client.
pub struct Client {
    pub id: Uuid,
    pub client_id: String,
    pub app_name: String,
    pub active: bool,
    pub deleted: bool,
    pub backchannel_logout_uri: Option<String>,
    pub frontchannel_logout_uri: Option<String>,
    pub post_logout_redirect_uris: Vec<String>,
}

impl Client {
    pub fn is_active(&self) -> (r: bool)
        ensures
            r == self.active,
    {
        self.active
    }

    /// Whether a user may be sent to `uri` after signing out.
    pub fn allows_post_logout_redirect_uri(&self, uri: &str) -> (r: bool)
        ensures
            r == views(self.post_logout_redirect_uris@).contains(uri@),
    {
        contains_text(&self.post_logout_redirect_uris, uri)
    }
}

/// The value of a cookie, as far as there is one.
pub open spec fn present(value: Option<String>) -> Option<Seq<char>> {
    match value {
        Some(v) => if v@.len() == 0 { None } else { Some(v@) },
        None => None,
    }
}

/// The value of a cookie; an empty one counts as none.
pub fn non_empty(value: &Option<String>) -> (r: Option<&String>)
    ensures
        match r {
            Some(v) => present(*value) == Some(v@) && *value == Some(*v),
            None => present(*value) is None,
        },
{
    match value {
        Some(v) => if v.as_str().is_empty() {
            None
        } else {
            Some(v)
        },
        None => None,
    }
}

/// A cookie counts exactly where it holds anything, and then as it is.
pub proof fn an_empty_cookie_is_none(value: Option<String>)
    ensures
        value matches Some(v) ==> (v@.len() > 0 ==> present(value) == Some(v@)) && (v@.len() == 0
            ==> present(value) is None),
        value is None ==> present(value) is None,
{
}

/// What is kept of a session's identifier is its SHA-256, and all of it: two identifiers are kept under
/// the same text only where their hashes are the same.
pub proof fn a_session_is_kept_under_its_hash(a: Seq<char>, b: Seq<char>)
    ensures
        hex_bytes(id_hash_of(a)) == Some(sha256_of(vstd::utf8::encode_utf8(a))),
        id_hash_of(a) == id_hash_of(b) ==> sha256_of(vstd::utf8::encode_utf8(a)) == sha256_of(
            vstd::utf8::encode_utf8(b),
        ),
{
    hex_reads_back(sha256_of(vstd::utf8::encode_utf8(a)));
    hex_reads_back(sha256_of(vstd::utf8::encode_utf8(b)));
}

/// A lock holds at every point before its end and at none from then on; without one nothing is locked.
pub proof fn a_lock_ends(user: User, now: Timestamp, earlier: Timestamp)
    requires
        earlier.nanos <= now.nanos,
    ensures
        user.locked_at(now) ==> user.locked_at(earlier),
        user.locked_until is None ==> !user.locked_at(now),
        user.locked_until matches Some(until) ==> !user.locked_at(until) && (now.nanos < until.nanos
            ==> user.locked_at(now)),
        user.locked_at(now) ==> user.has_failures(),
        !user.has_failures() <==> user.failed_login_count <= 0 && user.locked_until is None,
{
}

/// An authorization request is live at every point before its end and at none from then on.
pub proof fn a_request_expires_at_its_end(session: AuthSession, now: Timestamp, earlier: Timestamp)
    requires
        earlier.nanos <= now.nanos,
    ensures
        session.expired_at(earlier) ==> session.expired_at(now),
        session.expired_at(session.expires_at),
        now.nanos < session.expires_at.nanos ==> !session.expired_at(now),
{
}

/// A new sign-on is that of its grant: of its user, under its hash, with its methods and its origin, as
/// of its time, unconfirmed; and it is valid from then until the earlier of its two ends, and no longer.
pub proof fn a_sign_on_is_that_of_its_grant(s: SsoSession, grant: SsoGrant, at: Timestamp)
    requires
        s.established_from(grant),
        grant.now.wf(),
        grant.idle_ttl.wf(),
        grant.absolute_ttl.wf(),
    ensures
        s.user_id == grant.user_id,
        s.session_hash == grant.session_hash,
        s.methods@ == grant.methods@,
        s.user_agent == grant.user_agent,
        s.ip_address == grant.ip_address,
        s.auth_time == grant.now,
        s.created_at == grant.now,
        s.updated_at == grant.now,
        s.step_up_at is None,
        s.valid_at(at) <==> at.nanos < grant.now.nanos + grant.idle_ttl.nanos && at.nanos
            < grant.now.nanos + grant.absolute_ttl.nanos,
        grant.idle_ttl.nanos > 0 && grant.absolute_ttl.nanos > 0 ==> s.valid_at(grant.now),
{
}

/// A copy of an authorization request is the same in every field.
pub proof fn a_copied_request_is_the_same(a: AuthSession, b: AuthSession)
    requires
        a.same_as(b),
    ensures
        a.id_hash == b.id_hash,
        a.tenant_id == b.tenant_id,
        a.client_id == b.client_id,
        a.redirect_uri == b.redirect_uri,
        a.response_mode == b.response_mode,
        a.scope@ == b.scope@,
        a.state == b.state,
        a.nonce == b.nonce,
        a.acr_values == b.acr_values,
        a.login_hint == b.login_hint,
        a.ui_locales == b.ui_locales,
        a.code_challenge == b.code_challenge,
        a.code_challenge_method == b.code_challenge_method,
        a.prompt == b.prompt,
        a.max_age == b.max_age,
        a.handle_hash == b.handle_hash,
        a.handle_expires_at == b.handle_expires_at,
        a.authenticated_user_id == b.authenticated_user_id,
        a.auth_time == b.auth_time,
        a.password_verified_at == b.password_verified_at,
        a.sso_sid == b.sso_sid,
        a.expires_at == b.expires_at,
        a.created_at == b.created_at,
        a.updated_at == b.updated_at,
{
}

/// A copy of a sign-on is the same in every field.
pub proof fn a_copied_sign_on_is_the_same(a: SsoSession, b: SsoSession)
    requires
        a.same_as(b),
    ensures
        a.session_hash == b.session_hash,
        a.user_id == b.user_id,
        a.auth_time == b.auth_time,
        a.idle_expires_at == b.idle_expires_at,
        a.absolute_expires_at == b.absolute_expires_at,
        a.methods@ == b.methods@,
        a.user_agent == b.user_agent,
        a.ip_address == b.ip_address,
        a.step_up_at == b.step_up_at,
        a.created_at == b.created_at,
        a.updated_at == b.updated_at,
{
}

/// Whoever acts is a user or a client and never both: exactly one of the two is named, and a note is
/// made of a client alone.
pub proof fn one_actor_acts(actor: AdminActor)
    ensures
        actor.user_id_of() is Some <==> actor.client_id_of() is None,
        actor.audit_note_of() is Some <==> actor.client_id_of() is Some,
        actor matches AdminActor::User(id) ==> actor.user_id_of() == Some(id),
        actor matches AdminActor::Client { client_id, .. } ==> actor.client_id_of() == Some(client_id)
            && (actor.audit_note_of() matches Some(note) && note == "client="@ + client_id@),
{
}

/// A consent covers what it names and nothing else, and so whatever is part of what it covers.
pub proof fn a_consent_covers_what_it_names(
    consent: ClientConsent,
    scopes: Seq<Seq<char>>,
    fewer: Seq<Seq<char>>,
)
    requires
        forall|i: int| 0 <= i < fewer.len() ==> scopes.contains(#[trigger] fewer[i]),
    ensures
        consent.covers_all(views(consent.scope@)),
        consent.covers_all(Seq::empty()),
        consent.covers_all(scopes) ==> consent.covers_all(fewer),
        forall|i: int|
            0 <= i < scopes.len() && !views(consent.scope@).contains(#[trigger] scopes[i])
                ==> !consent.covers_all(scopes),
{
    assert forall|i: int| 0 <= i < views(consent.scope@).len() implies views(
        consent.scope@,
    ).contains(#[trigger] views(consent.scope@)[i]) by {}
    if consent.covers_all(scopes) {
        assert forall|i: int| 0 <= i < fewer.len() implies views(consent.scope@).contains(
            #[trigger] fewer[i],
        ) by {
            let k = choose|k: int| 0 <= k < scopes.len() && scopes[k] == fewer[i];
            assert(views(consent.scope@).contains(scopes[k]));
        }
    }
}

/// No two kinds of authenticators are recorded under one name.
pub proof fn authenticators_are_told_apart(a: AuthenticatorType, b: AuthenticatorType)
    ensures
        a.code_of() == b.code_of() ==> a == b,
{
    reveal_strlit("totp");
    reveal_strlit("recovery_code");
    reveal_strlit("email_otp");
    reveal_strlit("webauthn");
    assert("totp"@.len() == 4 && "recovery_code"@.len() == 13 && "email_otp"@.len() == 9
        && "webauthn"@.len() == 8);
}

} // verus!
