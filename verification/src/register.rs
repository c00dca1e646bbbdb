//! Self-registration.
use crate::model::{DomainError, TenantContext, TenantId, User, UserStatus, Uuid};
use crate::password_strength::{strong_enough, validate_password_strength};
use crate::text::{
    find_char, first_at_is_first, lemma_suffix, opt_view, trim, trim_to_option, trimmed,
    trimmed_or_none,
};
use crate::time::Timestamp;
use vstd::prelude::*;

verus! {

pub struct RegisterCommand {
    pub email: String,
    pub preferred_username: Option<String>,
    pub password: String,
    pub name: Option<String>,
}

pub struct RegisteredUser {
    pub sub: Uuid,
    pub status: UserStatus,
}

pub enum RegisterError {
    Validation(String),
    /// The tenant does not allow it.
    Forbidden(String),
    RateLimited,
    Conflict(String),
    Internal(String),
}

impl RegisterError {
    pub open spec fn text_of(self) -> Seq<char> {
        match self {
            RegisterError::Validation(m) => "validation error: "@ + m@,
            RegisterError::Forbidden(m) => "forbidden: "@ + m@,
            RegisterError::RateLimited => "too many registration attempts"@,
            RegisterError::Conflict(m) => "conflict: "@ + m@,
            RegisterError::Internal(m) => "internal error: "@ + m@,
        }
    }

    /// The error in words.
    pub fn text(&self) -> (r: String)
        ensures
            r@ == self.text_of(),
    {
        let (prefix, m) = match self {
            RegisterError::RateLimited => return "too many registration attempts".to_owned(),
            RegisterError::Validation(m) => ("validation error: ", m),
            RegisterError::Forbidden(m) => ("forbidden: ", m),
            RegisterError::Conflict(m) => ("conflict: ", m),
            RegisterError::Internal(m) => ("internal error: ", m),
        };
        let mut out: String = prefix.to_owned();
        out.append(m.as_str());
        out
    }
}

/// What was drawn for one request.
pub struct RegisterDraw {
    pub now: Timestamp,
    pub user_id: Uuid,
    pub sub: Uuid,
}

/// What is known of a request so far.
#[derive(Default)]
pub struct RegisterProgress {
    pub rate_allowed: Option<bool>,
    /// Whether the tenant, where there is one, allows self-registration.
    pub tenant_allows: Option<Result<Option<bool>, DomainError>>,
    pub email_taken: Option<Result<bool, DomainError>>,
    pub username_taken: Option<Result<bool, DomainError>>,
    pub password_hash: Option<Result<String, DomainError>>,
    pub created: Option<Result<(), DomainError>>,
    pub home_created: Option<Result<(), DomainError>>,
}

/// What comes next: a call to make, or the result.
pub enum RegisterStep {
    CheckRate { key: String, now: Timestamp },
    FindTenant { tenant_id: TenantId },
    FindEmail { tenant_id: TenantId, email: String },
    FindUsername { tenant_id: TenantId, username: String },
    HashPassword { password: String },
    CreateUser { user: User, now: Timestamp },
    /// Makes the user a member of the tenant they belong to.
    CreateHomeMembership { tenant_id: TenantId, user_id: Uuid, now: Timestamp },
    Done(Result<RegisteredUser, RegisterError>),
}

pub struct RegisterService {}

/// One `@` with something on either side of it.
pub open spec fn is_email(s: Seq<char>) -> bool {
    exists|i: int|
        0 < i < s.len() - 1 && s[i] == '@' && (forall|j: int|
            0 <= j < s.len() && j != i ==> #[trigger] s[j] != '@')
}

/// Checks the form of an address.
pub fn validate_email(email: &str) -> (r: Result<(), RegisterError>)
    ensures
        r is Ok <==> is_email(email@),
        r matches Err(e) ==> (e matches RegisterError::Validation(m) && m@
            == "invalid email format"@),
{
    let n: usize = email.unicode_len();
    proof {
        first_at_is_first(email@, '@', 0);
    }
    let ok: bool = match find_char(email, '@', 0) {
        None => {
            proof {
                assert(!is_email(email@));
            }
            false
        },
        Some(i) => {
            proof {
                first_at_is_first(email@, '@', i + 1);
            }
            match find_char(email, '@', i + 1) {
                Some(j) => {
                    proof {
                        assert(email@[i as int] == '@' && email@[j as int] == '@');
                        assert(!is_email(email@));
                    }
                    false
                },
                None => {
                    proof {
                        assert forall|k: int|
                            0 <= k < email@.len() && k != i implies #[trigger] email@[k] != '@' by {}
                        if is_email(email@) {
                            let w = choose|w: int|
                                0 < w < email@.len() - 1 && email@[w] == '@' && (forall|j: int|
                                    0 <= j < email@.len() && j != w ==> #[trigger] email@[j] != '@');
                            assert(email@[i as int] == '@');
                            assert(w == i);
                        }
                    }
                    i > 0 && i + 1 < n
                },
            }
        },
    };
    if ok {
        Ok(())
    } else {
        Err(RegisterError::Validation("invalid email format".to_owned()))
    }
}

/// Checks the strength of a password.
pub fn validate_password(password: &str) -> (r: Result<(), RegisterError>)
    ensures
        r is Ok <==> strong_enough(password@),
        r matches Err(e) ==> (e matches RegisterError::Validation(m) && m@
            == "password must be at least 8 characters"@),
{
    match validate_password_strength(password) {
        Ok(()) => Ok(()),
        Err(m) => Err(RegisterError::Validation(m)),
    }
}

/// Trims an optional value; an empty one counts as none.
pub fn normalize_optional(value: Option<String>) -> (r: Option<String>)
    ensures
        opt_view(r) == trimmed_or_none(opt_view(value)),
{
    trim_to_option(&value)
}

/// A failure of the store is an internal error.
pub open spec fn internal_of(e: DomainError, r: RegisterError) -> bool {
    r matches RegisterError::Internal(m) && m@ == e.message_of()
}

fn internal(e: &DomainError) -> (r: RegisterError)
    ensures
        internal_of(*e, r),
{
    RegisterError::Internal(e.message())
}

/// The account that comes of a registration: active, its address not confirmed, nothing on record.
pub open spec fn is_new_user(
    u: User,
    tenant_id: TenantId,
    cmd: RegisterCommand,
    draw: RegisterDraw,
    hash: String,
) -> bool {
    &&& u.id == draw.user_id
    &&& u.sub == draw.sub
    &&& u.tenant_id == tenant_id
    &&& u.email@ == trimmed(cmd.email@)
    &&& !u.email_verified
    &&& opt_view(u.preferred_username) == trimmed_or_none(opt_view(cmd.preferred_username))
    &&& opt_view(u.name) == trimmed_or_none(opt_view(cmd.name))
    &&& u.language is None
    &&& u.password_hash == hash
    &&& u.status == UserStatus::Active
    &&& !u.must_change_password
    &&& u.failed_login_count == 0
    &&& u.locked_until is None
}

/// The account is created, then its membership of the tenant.
pub open spec fn create_rule(
    tenant_id: TenantId,
    cmd: RegisterCommand,
    draw: RegisterDraw,
    p: RegisterProgress,
    r: RegisterStep,
) -> bool {
    match p.password_hash {
        None => r == (RegisterStep::HashPassword { password: cmd.password }),
        Some(Err(e)) => r matches RegisterStep::Done(Err(x)) && internal_of(e, x),
        Some(Ok(hash)) => match p.created {
            None => r matches RegisterStep::CreateUser { user, now } && now == draw.now
                && is_new_user(user, tenant_id, cmd, draw, hash),
            Some(Err(DomainError::Conflict(m))) => r == RegisterStep::Done(
                Err(RegisterError::Conflict(m)),
            ),
            Some(Err(e)) => r matches RegisterStep::Done(Err(x)) && internal_of(e, x),
            Some(Ok(_)) => match p.home_created {
                None => r == (RegisterStep::CreateHomeMembership {
                    tenant_id,
                    user_id: draw.user_id,
                    now: draw.now,
                }),
                Some(Err(e)) => r matches RegisterStep::Done(Err(x)) && internal_of(e, x),
                Some(Ok(_)) => r == RegisterStep::Done(
                    Ok(RegisteredUser { sub: draw.sub, status: UserStatus::Active }),
                ),
            },
        },
    }
}

/// The values are in order: neither the address nor the name may be taken.
pub open spec fn unique_rule(
    tenant_id: TenantId,
    cmd: RegisterCommand,
    draw: RegisterDraw,
    p: RegisterProgress,
    r: RegisterStep,
) -> bool {
    match p.email_taken {
        None => r matches RegisterStep::FindEmail { tenant_id: t, email } && t == tenant_id
            && email@ == trimmed(cmd.email@),
        Some(Err(e)) => r matches RegisterStep::Done(Err(x)) && internal_of(e, x),
        Some(Ok(true)) => r matches RegisterStep::Done(Err(RegisterError::Conflict(m))) && m@
            == "email already registered"@,
        Some(Ok(false)) => match trimmed_or_none(opt_view(cmd.preferred_username)) {
            None => create_rule(tenant_id, cmd, draw, p, r),
            Some(name) => match p.username_taken {
                None => r matches RegisterStep::FindUsername { tenant_id: t, username } && t
                    == tenant_id && username@ == name,
                Some(Err(e)) => r matches RegisterStep::Done(Err(x)) && internal_of(e, x),
                Some(Ok(true)) => r matches RegisterStep::Done(Err(RegisterError::Conflict(m)))
                    && m@ == "preferred_username already taken"@,
                Some(Ok(false)) => create_rule(tenant_id, cmd, draw, p, r),
            },
        },
    }
}

/// What comes next in a registration of which `p` is known: the limiter, under the address or a
/// bucket for those without one; the tenant's setting, off unless it says otherwise; the values;
/// that they are not taken; the account and its membership.
pub open spec fn register_rule(
    tenant: TenantContext,
    cmd: RegisterCommand,
    ip_address: Option<String>,
    asked_at: Timestamp,
    draw: RegisterDraw,
    p: RegisterProgress,
    r: RegisterStep,
) -> bool {
    match p.rate_allowed {
        None => r matches RegisterStep::CheckRate { key, now } && now == asked_at && key@
            == match ip_address {
            Some(ip) => ip@,
            None => "unknown"@,
        },
        Some(false) => r == RegisterStep::Done(Err(RegisterError::RateLimited)),
        Some(true) => match p.tenant_allows {
            None => r == (RegisterStep::FindTenant { tenant_id: tenant.tenant_id }),
            Some(Err(e)) => r matches RegisterStep::Done(Err(x)) && internal_of(e, x),
            Some(Ok(allows)) => if !(allows matches Some(true)) {
                r matches RegisterStep::Done(Err(RegisterError::Forbidden(m))) && m@
                    == "self-registration is disabled for this tenant"@
            } else if !is_email(trimmed(cmd.email@)) {
                r matches RegisterStep::Done(Err(RegisterError::Validation(m))) && m@
                    == "invalid email format"@
            } else if !strong_enough(cmd.password@) {
                r matches RegisterStep::Done(Err(RegisterError::Validation(m))) && m@
                    == "password must be at least 8 characters"@
            } else {
                unique_rule(tenant.tenant_id, cmd, draw, p, r)
            },
        },
    }
}

impl RegisterService {
    pub fn new() -> (r: Self)
        ensures
            r == (RegisterService {  }),
    {
        RegisterService {  }
    }

    fn create(
        &self,
        tenant_id: TenantId,
        cmd: &RegisterCommand,
        draw: &RegisterDraw,
        p: &RegisterProgress,
    ) -> (r: RegisterStep)
        ensures
            create_rule(tenant_id, *cmd, *draw, *p, r),
    {
        let hash: &String = match &p.password_hash {
            None => return RegisterStep::HashPassword { password: cmd.password.clone() },
            Some(Err(e)) => return RegisterStep::Done(Err(internal(e))),
            Some(Ok(hash)) => hash,
        };
        match &p.created {
            None => return RegisterStep::CreateUser {
                user: User {
                    id: draw.user_id,
                    sub: draw.sub,
                    tenant_id,
                    email: trim(cmd.email.as_str()),
                    email_verified: false,
                    preferred_username: normalize_optional(cmd.preferred_username.clone()),
                    name: normalize_optional(cmd.name.clone()),
                    language: None,
                    password_hash: hash.clone(),
                    status: UserStatus::Active,
                    must_change_password: false,
                    failed_login_count: 0,
                    locked_until: None,
                },
                now: draw.now,
            },
            Some(Err(DomainError::Conflict(m))) => {
                return RegisterStep::Done(Err(RegisterError::Conflict(m.clone())));
            },
            Some(Err(e)) => return RegisterStep::Done(Err(internal(e))),
            Some(Ok(_)) => {},
        }
        match &p.home_created {
            None => RegisterStep::CreateHomeMembership {
                tenant_id,
                user_id: draw.user_id,
                now: draw.now,
            },
            Some(Err(e)) => RegisterStep::Done(Err(internal(e))),
            Some(Ok(_)) => RegisterStep::Done(
                Ok(RegisteredUser { sub: draw.sub, status: UserStatus::Active }),
            ),
        }
    }

    fn check_unique(
        &self,
        tenant_id: TenantId,
        cmd: &RegisterCommand,
        draw: &RegisterDraw,
        p: &RegisterProgress,
    ) -> (r: RegisterStep)
        ensures
            unique_rule(tenant_id, *cmd, *draw, *p, r),
    {
        match &p.email_taken {
            None => return RegisterStep::FindEmail { tenant_id, email: trim(cmd.email.as_str()) },
            Some(Err(e)) => return RegisterStep::Done(Err(internal(e))),
            Some(Ok(taken)) => if *taken {
                return RegisterStep::Done(
                    Err(RegisterError::Conflict("email already registered".to_owned())),
                );
            },
        }
        if let Some(username) = normalize_optional(cmd.preferred_username.clone()) {
            match &p.username_taken {
                None => return RegisterStep::FindUsername { tenant_id, username },
                Some(Err(e)) => return RegisterStep::Done(Err(internal(e))),
                Some(Ok(taken)) => if *taken {
                    return RegisterStep::Done(
                        Err(RegisterError::Conflict("preferred_username already taken".to_owned())),
                    );
                },
            }
        }
        self.create(tenant_id, cmd, draw, p)
    }

    /// Decides what comes next in a registration of which `p` is known.
    pub fn register(
        &self,
        tenant: &TenantContext,
        cmd: &RegisterCommand,
        ip_address: &Option<String>,
        asked_at: Timestamp,
        draw: &RegisterDraw,
        p: &RegisterProgress,
    ) -> (r: RegisterStep)
        ensures
            register_rule(*tenant, *cmd, *ip_address, asked_at, *draw, *p, r),
    {
        match p.rate_allowed {
            None => {
                let key: String = match ip_address {
                    Some(ip) => ip.clone(),
                    None => "unknown".to_owned(),
                };
                return RegisterStep::CheckRate { key, now: asked_at };
            },
            Some(allowed) => if !allowed {
                return RegisterStep::Done(Err(RegisterError::RateLimited));
            },
        }
        let allows: bool = match &p.tenant_allows {
            None => return RegisterStep::FindTenant { tenant_id: tenant.tenant_id },
            Some(Err(e)) => return RegisterStep::Done(Err(internal(e))),
            Some(Ok(Some(enabled))) => *enabled,
            Some(Ok(None)) => false,
        };
        if !allows {
            return RegisterStep::Done(
                Err(
                    RegisterError::Forbidden(
                        "self-registration is disabled for this tenant".to_owned(),
                    ),
                ),
            );
        }
        let email: String = trim(cmd.email.as_str());
        if let Err(e) = validate_email(email.as_str()) {
            return RegisterStep::Done(Err(e));
        }
        if let Err(e) = validate_password(cmd.password.as_str()) {
            return RegisterStep::Done(Err(e));
        }
        self.check_unique(tenant.tenant_id, cmd, draw, p)
    }
}

/// An account comes about only in a tenant that says it allows self-registration, under the
/// limiter, and with a well-formed, free address and a strong password.
pub proof fn an_account_needs_the_tenants_leave(
    tenant: TenantContext,
    cmd: RegisterCommand,
    ip_address: Option<String>,
    asked_at: Timestamp,
    draw: RegisterDraw,
    p: RegisterProgress,
    r: RegisterStep,
)
    requires
        register_rule(tenant, cmd, ip_address, asked_at, draw, p, r),
        r is CreateUser || r is CreateHomeMembership || (r matches RegisterStep::Done(Ok(_))),
    ensures
        p.rate_allowed matches Some(true),
        p.tenant_allows matches Some(Ok(Some(true))),
        is_email(trimmed(cmd.email@)),
        strong_enough(cmd.password@),
        p.email_taken matches Some(Ok(false)),
{
}

impl RegisterProgress {
    /// The call `step` asks for something that is not known yet.
    pub open spec fn lacks_answer_to(self, step: RegisterStep) -> bool {
        match step {
            RegisterStep::CheckRate { .. } => self.rate_allowed is None,
            RegisterStep::FindTenant { .. } => self.tenant_allows is None,
            RegisterStep::FindEmail { .. } => self.email_taken is None,
            RegisterStep::FindUsername { .. } => self.username_taken is None,
            RegisterStep::HashPassword { .. } => self.password_hash is None,
            RegisterStep::CreateUser { .. } => self.created is None,
            RegisterStep::CreateHomeMembership { .. } => self.home_created is None,
            RegisterStep::Done(_) => true,
        }
    }
}

/// Nothing is asked for that is known already: every call that comes next fills a gap.
pub proof fn nothing_is_asked_twice(
    tenant: TenantContext,
    cmd: RegisterCommand,
    ip_address: Option<String>,
    asked_at: Timestamp,
    draw: RegisterDraw,
    p: RegisterProgress,
    r: RegisterStep,
)
    requires
        register_rule(tenant, cmd, ip_address, asked_at, draw, p, r),
    ensures
        p.lacks_answer_to(r),
{
}

/// The account that is created is the one that was asked for: under the address and the name given,
/// without the space round them, in the tenant at hand, with the hash that the given password has
/// yielded; active, with nothing confirmed or on record.
pub proof fn an_account_is_what_was_asked_for(
    svc: RegisterService,
    tenant: TenantContext,
    cmd: RegisterCommand,
    ip_address: Option<String>,
    asked_at: Timestamp,
    draw: RegisterDraw,
    p: RegisterProgress,
    user: User,
    now: Timestamp,
)
    requires
        call_ensures(
            RegisterService::register,
            (&svc, &tenant, &cmd, &ip_address, asked_at, &draw, &p),
            RegisterStep::CreateUser { user, now },
        ),
    ensures
        now == draw.now,
        user.id == draw.user_id,
        user.sub == draw.sub,
        user.tenant_id == tenant.tenant_id,
        user.email@ == trimmed(cmd.email@),
        !user.email_verified,
        user.preferred_username matches Some(name) ==> cmd.preferred_username is Some && name@
            == trimmed(cmd.preferred_username->0@) && name@.len() > 0,
        user.preferred_username is None ==> cmd.preferred_username is None || trimmed(
            cmd.preferred_username->0@,
        ).len() == 0,
        user.name matches Some(name) ==> cmd.name is Some && name@ == trimmed(cmd.name->0@)
            && name@.len() > 0,
        user.name is None ==> cmd.name is None || trimmed(cmd.name->0@).len() == 0,
        user.language is None,
        p.password_hash == Some(Ok::<String, DomainError>(user.password_hash)),
        user.status == UserStatus::Active,
        !user.must_change_password,
        user.failed_login_count == 0,
        user.locked_until is None,
{
}

/// What is looked up is what is then stored: the address and the name that must be free are those of
/// the account that is created, in its tenant.
pub proof fn what_is_free_is_what_is_taken(
    svc: RegisterService,
    tenant: TenantContext,
    cmd: RegisterCommand,
    ip_address: Option<String>,
    asked_at: Timestamp,
    draw: RegisterDraw,
    p: RegisterProgress,
    user: User,
    now: Timestamp,
    earlier: RegisterProgress,
    r: RegisterStep,
)
    requires
        call_ensures(
            RegisterService::register,
            (&svc, &tenant, &cmd, &ip_address, asked_at, &draw, &p),
            RegisterStep::CreateUser { user, now },
        ),
        call_ensures(
            RegisterService::register,
            (&svc, &tenant, &cmd, &ip_address, asked_at, &draw, &earlier),
            r,
        ),
    ensures
        r matches RegisterStep::FindEmail { tenant_id, email } ==> tenant_id == user.tenant_id
            && email@ == user.email@,
        r matches RegisterStep::FindUsername { tenant_id, username } ==> tenant_id == user.tenant_id
            && user.preferred_username is Some && username@ == user.preferred_username->0@,
        r matches RegisterStep::CreateHomeMembership { tenant_id, user_id, now: at } ==> tenant_id
            == user.tenant_id && user_id == user.id && at == now,
        r matches RegisterStep::Done(Ok(registered)) ==> registered.sub == user.sub
            && registered.status == user.status,
        r matches RegisterStep::HashPassword { password } ==> password == cmd.password,
        r matches RegisterStep::FindTenant { tenant_id } ==> tenant_id == user.tenant_id,
        user.preferred_username is Some ==> p.username_taken == Some(Ok::<bool, DomainError>(false)),
        p.email_taken == Some(Ok::<bool, DomainError>(false)),
{
}

/// Every refusal of a registration has its cause.
pub proof fn registration_refusals_have_their_causes(
    svc: RegisterService,
    tenant: TenantContext,
    cmd: RegisterCommand,
    ip_address: Option<String>,
    asked_at: Timestamp,
    draw: RegisterDraw,
    p: RegisterProgress,
    r: RegisterStep,
)
    requires
        call_ensures(
            RegisterService::register,
            (&svc, &tenant, &cmd, &ip_address, asked_at, &draw, &p),
            r,
        ),
    ensures
        match r {
            RegisterStep::CheckRate { key, now } => now == asked_at && (ip_address matches Some(ip)
                ==> key@ == ip@) && (ip_address is None ==> key@ == "unknown"@),
            RegisterStep::Done(Err(RegisterError::RateLimited)) => p.rate_allowed == Some(false),
            RegisterStep::Done(Err(RegisterError::Forbidden(_))) => p.tenant_allows matches Some(
                Ok(allows),
            ) && allows != Some(true),
            RegisterStep::Done(Err(RegisterError::Validation(_))) => cmd.password@.len() < 8
                || !is_email(trimmed(cmd.email@)),
            RegisterStep::Done(Err(RegisterError::Conflict(_))) => p.email_taken == Some(
                Ok::<bool, DomainError>(true),
            ) || p.username_taken == Some(Ok::<bool, DomainError>(true)) || (
            p.created matches Some(Err(DomainError::Conflict(_)))),
            RegisterStep::Done(Err(RegisterError::Internal(_))) => (p.tenant_allows matches Some(
                Err(_),
            )) || (p.email_taken matches Some(Err(_))) || (p.username_taken matches Some(Err(_)))
                || (p.password_hash matches Some(Err(_))) || (p.created matches Some(Err(_))) || (
            p.home_created matches Some(Err(_))),
            RegisterStep::Done(Ok(_)) => (p.created matches Some(Ok(_))) && (
            p.home_created matches Some(Ok(_))),
            _ => p.rate_allowed == Some(true),
        },
{
}

/// An address in order holds an `@`, not at either end, and no second one.
pub proof fn an_address_has_one_at(s: Seq<char>, i: int, j: int)
    requires
        is_email(s),
        0 <= i < s.len(),
        0 <= j < s.len(),
        s[i] == '@',
        s[j] == '@',
    ensures
        i == j,
        0 < i < s.len() - 1,
{
}

/// Whatever has one `@` with something on either side of it is an address.
pub proof fn one_at_makes_an_address(local: Seq<char>, domain: Seq<char>)
    requires
        local.len() > 0,
        domain.len() > 0,
        !local.contains('@'),
        !domain.contains('@'),
    ensures
        is_email(local + seq!['@'] + domain),
{
    let s = local + seq!['@'] + domain;
    let i = local.len() as int;
    assert(s[i] == '@');
    assert forall|j: int| 0 <= j < s.len() && j != i implies #[trigger] s[j] != '@' by {
        if j < i {
            assert(s[j] == local[j]);
        } else {
            assert(s[j] == domain[j - i - 1]);
        }
    }
}

/// The words of an error end with what it is about.
pub proof fn an_error_says_what_it_is_about(m: String)
    ensures
        m@.is_suffix_of(RegisterError::Validation(m).text_of()),
        m@.is_suffix_of(RegisterError::Forbidden(m).text_of()),
        m@.is_suffix_of(RegisterError::Conflict(m).text_of()),
        m@.is_suffix_of(RegisterError::Internal(m).text_of()),
{
    lemma_suffix("validation error: "@, m@);
    lemma_suffix("forbidden: "@, m@);
    lemma_suffix("conflict: "@, m@);
    lemma_suffix("internal error: "@, m@);
}

} // verus!
