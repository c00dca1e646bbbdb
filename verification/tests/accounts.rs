use idp_core::login_user_resolution::{
    resolve_login_user, should_continue, LoginIdentifierMatch, QualifiedIdentifier,
    ResolutionProgress, ResolutionStep, UnresolvedReason,
};
use idp_core::member_directory::{
    clamp_limit, normalize, MemberDirectoryService, MemberSearchParams, MemberSearchStep,
    TenantMemberFilter, TenantMemberPage, DEFAULT_LIMIT, MAX_LIMIT,
};
use idp_core::model::{DomainError, TenantContext, TenantId, User, UserStatus, Uuid};
use idp_core::register::{
    normalize_optional, validate_email, validate_password, RegisterCommand, RegisterDraw,
    RegisterError, RegisterProgress, RegisterService, RegisterStep, RegisteredUser,
};
use idp_core::tenant_management::{Tenant, TenantStatus};
use idp_core::tenant_resolution::{TenantLookup, TenantResolutionService, TenantResolutionStep};
use idp_core::text::trim;
use idp_core::time::Timestamp;

fn now() -> Timestamp {
    Timestamp::from_unix(1_700_000_000).unwrap()
}

fn context() -> TenantContext {
    TenantContext { tenant_id: TenantId { value: 1 } }
}

fn user(id: u128, tenant: TenantId) -> User {
    User {
        id: Uuid { value: id },
        sub: Uuid { value: id + 1000 },
        tenant_id: tenant,
        email: "user@example.com".to_string(),
        email_verified: true,
        preferred_username: Some("member".to_string()),
        name: None,
        language: None,
        password_hash: "hash".to_string(),
        status: UserStatus::Active,
        must_change_password: false,
        failed_login_count: 0,
        locked_until: None,
    }
}

// ---------------------------------------------------------------------------
// Registration

#[test]
fn rejects_invalid_email_and_short_password() {
    assert!(validate_email("not-an-email").is_err());
    assert!(validate_email("a@b").is_ok());
    assert!(validate_password("short").is_err());
    assert!(validate_password("longenough").is_ok());
}

#[test]
fn addresses_have_one_at_sign_between_two_parts() {
    for bad in ["", "@", "a@", "@b", "a@@b", "a@b@c"] {
        let Err(RegisterError::Validation(m)) = validate_email(bad) else {
            panic!("accepted {bad}");
        };
        assert_eq!(m, "invalid email format");
    }
    assert!(validate_email("日@本").is_ok());
    assert!(validate_password("1234567").is_err());
    assert!(validate_password("12345678").is_ok());
}

#[test]
fn normalizes_empty_optional_to_none() {
    assert_eq!(normalize_optional(Some("  ".to_string())), None);
    assert_eq!(normalize_optional(Some("  bob ".to_string())), Some("bob".to_string()));
    assert_eq!(normalize_optional(None), None);
}

#[test]
fn trimming_knows_unicode_spaces() {
    assert_eq!(normalize_optional(Some("\u{3000}\u{a0}a b\t\n\u{2028}".to_string())), Some("a b".to_string()));
    assert_eq!(normalize_optional(Some("\u{200b}".to_string())), Some("\u{200b}".to_string()));
}

struct Registry {
    enabled: Option<bool>,
    rate_left: usize,
    users: Vec<User>,
    homes: usize,
}

fn cmd() -> RegisterCommand {
    RegisterCommand {
        email: " new@example.com ".to_string(),
        preferred_username: Some(" newbie ".to_string()),
        password: "longenough".to_string(),
        name: Some("  ".to_string()),
    }
}

impl Registry {
    fn register(&mut self, cmd: RegisterCommand) -> Result<RegisteredUser, RegisterError> {
        let svc = RegisterService::new();
        let draw =
            RegisterDraw { now: now(), user_id: Uuid { value: 5 }, sub: Uuid { value: 6 } };
        let mut p = RegisterProgress::default();
        loop {
            match svc.register(
                &context(),
                &cmd,
                &Some("203.0.113.1".to_string()),
                now(),
                &draw,
                &p,
            ) {
                RegisterStep::CheckRate { key, .. } => {
                    assert_eq!(key, "203.0.113.1");
                    p.rate_allowed = Some(self.rate_left > 0);
                    self.rate_left = self.rate_left.saturating_sub(1);
                }
                RegisterStep::FindTenant { .. } => p.tenant_allows = Some(Ok(self.enabled)),
                RegisterStep::FindEmail { email, .. } => {
                    p.email_taken = Some(Ok(self.users.iter().any(|u| u.email == email)));
                }
                RegisterStep::FindUsername { username, .. } => {
                    p.username_taken = Some(Ok(self
                        .users
                        .iter()
                        .any(|u| u.preferred_username.as_deref() == Some(username.as_str()))));
                }
                RegisterStep::HashPassword { password } => {
                    p.password_hash = Some(Ok(format!("hashed:{password}")));
                }
                RegisterStep::CreateUser { user, .. } => {
                    self.users.push(user);
                    p.created = Some(Ok(()));
                }
                RegisterStep::CreateHomeMembership { .. } => {
                    self.homes += 1;
                    p.home_created = Some(Ok(()));
                }
                RegisterStep::Done(r) => return r,
            }
        }
    }
}

fn registry(enabled: Option<bool>, rate_left: usize) -> Registry {
    Registry { enabled, rate_left, users: vec![], homes: 0 }
}

#[test]
fn register_is_forbidden_when_self_registration_disabled() {
    let mut r = registry(Some(false), 100);
    assert!(matches!(r.register(cmd()), Err(RegisterError::Forbidden(_))));
    assert!(r.users.is_empty());
    let mut r = registry(None, 100);
    assert!(matches!(r.register(cmd()), Err(RegisterError::Forbidden(_))));
}

#[test]
fn register_succeeds_when_enabled() {
    let mut r = registry(Some(true), 100);
    let registered = r.register(cmd()).ok().expect("registered");
    assert_eq!(registered.status, UserStatus::Active);
    assert_eq!(registered.sub, Uuid { value: 6 });
    assert_eq!(r.users.len(), 1);
    assert_eq!(r.users[0].email, "new@example.com");
    assert_eq!(r.users[0].preferred_username.as_deref(), Some("newbie"));
    assert_eq!(r.users[0].name, None);
    assert!(!r.users[0].email_verified);
    assert_eq!(r.homes, 1);
}

#[test]
fn register_is_rate_limited_per_ip() {
    let mut r = registry(Some(true), 1);
    assert!(r.register(cmd()).is_ok());
    assert!(matches!(r.register(cmd()), Err(RegisterError::RateLimited)));
}

#[test]
fn taken_values_are_conflicts() {
    let mut r = registry(Some(true), 100);
    assert!(r.register(cmd()).is_ok());
    let Err(e) = r.register(cmd()) else { panic!("accepted twice") };
    assert_eq!(e.text(), "conflict: email already registered");
    let mut other = cmd();
    other.email = "other@example.com".to_string();
    let Err(e) = r.register(other) else { panic!("accepted a taken name") };
    assert_eq!(e.text(), "conflict: preferred_username already taken");
    let mut weak = cmd();
    weak.email = "weak@example.com".to_string();
    weak.password = "short".to_string();
    let Err(e) = r.register(weak) else { panic!("accepted a weak password") };
    assert_eq!(e.text(), "validation error: password must be at least 8 characters");
}

#[test]
fn a_conflict_of_the_store_keeps_its_words() {
    let svc = RegisterService::new();
    let draw = RegisterDraw { now: now(), user_id: Uuid { value: 5 }, sub: Uuid { value: 6 } };
    let mut p = RegisterProgress {
        rate_allowed: Some(true),
        tenant_allows: Some(Ok(Some(true))),
        email_taken: Some(Ok(false)),
        username_taken: Some(Ok(false)),
        password_hash: Some(Ok("h".to_string())),
        created: Some(Err(DomainError::Conflict("duplicate".to_string()))),
        home_created: None,
    };
    let RegisterStep::Done(Err(RegisterError::Conflict(m))) =
        svc.register(&context(), &cmd(), &None, now(), &draw, &p)
    else {
        panic!("expected Conflict");
    };
    assert_eq!(m, "duplicate");
    p.created = Some(Err(DomainError::Repository("db down".to_string())));
    let RegisterStep::Done(Err(e)) = svc.register(&context(), &cmd(), &None, now(), &draw, &p)
    else {
        panic!("expected an error");
    };
    assert_eq!(e.text(), "internal error: db down");
    let RegisterStep::CheckRate { key, .. } =
        svc.register(&context(), &cmd(), &None, now(), &draw, &RegisterProgress::default())
    else {
        panic!("expected CheckRate");
    };
    assert_eq!(key, "unknown");
}

// ---------------------------------------------------------------------------
// Members

#[test]
fn clamps_limit_to_bounds_and_defaults() {
    assert_eq!(clamp_limit(None), DEFAULT_LIMIT);
    assert_eq!(clamp_limit(Some(0)), DEFAULT_LIMIT);
    assert_eq!(clamp_limit(Some(-5)), DEFAULT_LIMIT);
    assert_eq!(clamp_limit(Some(10)), 10);
    assert_eq!(clamp_limit(Some(MAX_LIMIT + 100)), MAX_LIMIT);
    assert_eq!((DEFAULT_LIMIT, MAX_LIMIT), (50, 200));
}

fn captured(params: &MemberSearchParams) -> TenantMemberFilter {
    match MemberDirectoryService::new().search(&context(), params, None) {
        MemberSearchStep::Search(f) => f,
        MemberSearchStep::Done(_) => panic!("nothing was asked for"),
    }
}

#[test]
fn blank_search_means_no_filter_and_negative_offset_is_clamped() {
    let filter = captured(&MemberSearchParams {
        search: Some("   ".to_string()),
        limit: None,
        offset: Some(-10),
    });
    assert_eq!(filter.search, None);
    assert_eq!(filter.offset, 0);
    assert_eq!(filter.limit, DEFAULT_LIMIT);
    assert_eq!(normalize(Some(" x ".to_string())), Some("x".to_string()));
}

#[test]
fn search_term_is_trimmed_and_tenant_is_fixed_to_the_request_tenant() {
    let params = MemberSearchParams {
        search: Some("  Alice  ".to_string()),
        limit: Some(5),
        offset: Some(100),
    };
    let filter = captured(&params);
    assert_eq!(filter.search.as_deref(), Some("Alice"));
    assert_eq!(filter.limit, 5);
    assert_eq!(filter.offset, 100);
    assert_eq!(filter.tenant_id, context().tenant_id);

    let page = TenantMemberPage { members: vec![], total: 3 };
    let MemberSearchStep::Done(Ok(result)) =
        MemberDirectoryService::new().search(&context(), &params, Some(Ok(page)))
    else {
        panic!("expected a page");
    };
    assert_eq!((result.limit, result.offset, result.page.total), (5, 100, 3));
}

// ---------------------------------------------------------------------------
// Tenants in requests

struct Tenants {
    row: Option<Tenant>,
    cache: Option<Tenant>,
    find_calls: usize,
}

fn tenant(status: TenantStatus) -> Tenant {
    Tenant {
        id: TenantId { value: 9 },
        parent_tenant_id: None,
        name: "t".to_string(),
        accent_color: None,
        status,
        self_registration_enabled: false,
        created_at: now(),
        updated_at: now(),
    }
}

impl Tenants {
    fn resolve(&mut self) -> Option<TenantId> {
        let svc = TenantResolutionService::new();
        let id = TenantId { value: 9 };
        let mut p = TenantLookup::default();
        loop {
            match svc.resolve(id, &p) {
                TenantResolutionStep::LookInCache { .. } => p.cached = Some(self.cache.clone()),
                TenantResolutionStep::FindTenant { .. } => {
                    self.find_calls += 1;
                    p.found = Some(Ok(self.row.clone()));
                }
                TenantResolutionStep::Keep { tenant, .. } => {
                    self.cache = Some(tenant);
                    p.kept = true;
                }
                TenantResolutionStep::Forget { .. } => panic!("nothing has changed"),
                TenantResolutionStep::Done(r) => return r.ok().unwrap().map(|t| t.id),
            }
        }
    }

    fn invalidate(&mut self) {
        let step = TenantResolutionService::new().invalidate(TenantId { value: 9 });
        assert!(matches!(
            step,
            TenantResolutionStep::Forget { tenant_id } if tenant_id == TenantId { value: 9 }
        ));
        self.cache = None;
    }
}

#[test]
fn resolves_active_tenant_and_caches() {
    let mut t = Tenants { row: Some(tenant(TenantStatus::Active)), cache: None, find_calls: 0 };
    assert_eq!(t.resolve(), Some(TenantId { value: 9 }));
    assert_eq!(t.resolve(), Some(TenantId { value: 9 }));
    assert_eq!(t.find_calls, 1);
}

#[test]
fn disabled_tenant_is_not_resolvable() {
    let mut t = Tenants { row: Some(tenant(TenantStatus::Disabled)), cache: None, find_calls: 0 };
    assert!(t.resolve().is_none());
}

#[test]
fn unknown_tenant_is_not_resolvable_and_not_cached() {
    let mut t = Tenants { row: None, cache: None, find_calls: 0 };
    assert!(t.resolve().is_none());
    assert!(t.resolve().is_none());
    assert_eq!(t.find_calls, 2);
}

#[test]
fn invalidate_forces_reload() {
    let mut t = Tenants { row: Some(tenant(TenantStatus::Active)), cache: None, find_calls: 0 };
    assert!(t.resolve().is_some());
    t.row = Some(tenant(TenantStatus::Disabled));
    assert!(t.resolve().is_some());
    t.invalidate();
    assert!(t.resolve().is_none());
}

// ---------------------------------------------------------------------------
// Whom a login form means

struct Users {
    home: Result<LoginIdentifierMatch, DomainError>,
    guest: LoginIdentifierMatch,
    by_home_tenant: Vec<(&'static str, LoginIdentifierMatch)>,
    domains: Vec<(&'static str, TenantId)>,
    guest_calls: usize,
    domain_calls: usize,
    member_lookups: Vec<String>,
}

fn nobody() -> LoginIdentifierMatch {
    LoginIdentifierMatch::Unresolved(UnresolvedReason::NotFound)
}

fn ambiguous() -> LoginIdentifierMatch {
    LoginIdentifierMatch::Unresolved(UnresolvedReason::Ambiguous)
}

fn users() -> Users {
    Users {
        home: Ok(nobody()),
        guest: nobody(),
        by_home_tenant: vec![],
        domains: vec![],
        guest_calls: 0,
        domain_calls: 0,
        member_lookups: vec![],
    }
}

const HOST: TenantId = TenantId { value: 1 };
const HOME: TenantId = TenantId { value: 2 };

impl Users {
    fn resolve(&mut self, input: &str) -> Result<LoginIdentifierMatch, DomainError> {
        let mut p = ResolutionProgress::default();
        loop {
            match resolve_login_user(HOST, &input.to_string(), &p) {
                ResolutionStep::FindInTenant { .. } => p.in_tenant = Some(self.home.clone()),
                ResolutionStep::SplitQualified { input } => {
                    p.split = Some(input.split_once('@').map(|(l, d)| QualifiedIdentifier {
                        local_part: l.to_string(),
                        domain: d.to_string(),
                    }));
                }
                ResolutionStep::FindTenantByDomain { domain } => {
                    self.domain_calls += 1;
                    p.home = Some(Ok(self
                        .domains
                        .iter()
                        .find(|(d, _)| *d == domain)
                        .map(|(_, t)| *t)));
                }
                ResolutionStep::FindMember { input: candidate, .. } => {
                    self.member_lookups.push(candidate.clone());
                    let found = self
                        .by_home_tenant
                        .iter()
                        .find(|(i, _)| *i == candidate)
                        .map(|(_, m)| m.clone())
                        .unwrap_or(nobody());
                    if candidate == input {
                        p.by_input = Some(Ok(found));
                    } else {
                        p.by_local = Some(Ok(found));
                    }
                }
                ResolutionStep::FindGuest { .. } => {
                    self.guest_calls += 1;
                    p.guest = Some(Ok(self.guest.clone()));
                }
                ResolutionStep::Done(r) => return r,
            }
        }
    }
}

fn resolved_id(r: Result<LoginIdentifierMatch, DomainError>) -> Option<Uuid> {
    match r {
        Ok(LoginIdentifierMatch::Resolved(u)) => Some(u.id),
        _ => None,
    }
}

fn is_ambiguous(r: &Result<LoginIdentifierMatch, DomainError>) -> bool {
    matches!(r, Ok(LoginIdentifierMatch::Unresolved(UnresolvedReason::Ambiguous)))
}

#[test]
fn resolves_home_member_without_consulting_guests() {
    let mut repo = users();
    repo.home = Ok(LoginIdentifierMatch::Resolved(user(10, HOST)));
    repo.guest = LoginIdentifierMatch::Resolved(user(11, HOME));
    assert_eq!(resolved_id(repo.resolve("member")), Some(Uuid { value: 10 }));
    assert_eq!(repo.guest_calls, 0);
}

#[test]
fn falls_back_to_active_guest_of_the_requested_tenant() {
    let mut repo = users();
    repo.guest = LoginIdentifierMatch::Resolved(user(11, HOME));
    assert_eq!(resolved_id(repo.resolve("member")), Some(Uuid { value: 11 }));
    assert_eq!(repo.guest_calls, 1);
}

#[test]
fn ambiguous_home_identifier_does_not_fall_through_to_guests() {
    let mut repo = users();
    repo.home = Ok(ambiguous());
    repo.guest = LoginIdentifierMatch::Resolved(user(11, HOME));
    assert!(is_ambiguous(&repo.resolve("member")));
    assert_eq!(repo.guest_calls, 0);
}

#[test]
fn ambiguous_guest_identifier_is_reported_as_ambiguous() {
    let mut repo = users();
    repo.guest = ambiguous();
    assert!(is_ambiguous(&repo.resolve("member")));
}

#[test]
fn returns_not_found_when_neither_resolves() {
    let mut repo = users();
    let r = repo.resolve("member");
    assert!(matches!(r, Ok(LoginIdentifierMatch::Unresolved(UnresolvedReason::NotFound))));
    assert!(should_continue(&nobody()));
    assert!(!should_continue(&ambiguous()));
    assert!(!should_continue(&LoginIdentifierMatch::Resolved(user(1, HOST))));
    assert!(ambiguous().is_taken());
    assert!(!nobody().is_taken());
}

#[test]
fn a_domain_qualified_identifier_resolves_without_scanning_guests() {
    let mut repo = users();
    repo.guest = LoginIdentifierMatch::Resolved(user(11, HOME));
    repo.by_home_tenant = vec![("alice", LoginIdentifierMatch::Resolved(user(12, HOME)))];
    repo.domains = vec![("corp.example", HOME)];
    assert_eq!(resolved_id(repo.resolve("alice@corp.example")), Some(Uuid { value: 12 }));
    assert_eq!(repo.guest_calls, 0);
}

#[test]
fn the_full_input_wins_over_the_local_part() {
    let mut repo = users();
    repo.by_home_tenant = vec![
        ("alice@corp.example", LoginIdentifierMatch::Resolved(user(12, HOME))),
        ("alice", LoginIdentifierMatch::Resolved(user(13, HOME))),
    ];
    repo.domains = vec![("corp.example", HOME)];
    assert_eq!(resolved_id(repo.resolve("alice@corp.example")), Some(Uuid { value: 12 }));
    assert_eq!(repo.member_lookups, vec!["alice@corp.example".to_string()]);
}

#[test]
fn falls_back_to_the_local_part_as_a_upn() {
    let mut repo = users();
    repo.by_home_tenant = vec![("alice", LoginIdentifierMatch::Resolved(user(12, HOME)))];
    repo.domains = vec![("corp.example", HOME)];
    assert_eq!(resolved_id(repo.resolve("alice@corp.example")), Some(Uuid { value: 12 }));
    assert_eq!(
        repo.member_lookups,
        vec!["alice@corp.example".to_string(), "alice".to_string()]
    );
}

#[test]
fn an_unassigned_domain_falls_through_to_the_guest_scan() {
    let mut repo = users();
    repo.guest = LoginIdentifierMatch::Resolved(user(11, HOME));
    repo.by_home_tenant = vec![("alice", LoginIdentifierMatch::Resolved(user(12, HOME)))];
    repo.domains = vec![("corp.example", HOST)];
    assert_eq!(resolved_id(repo.resolve("alice@other.example")), Some(Uuid { value: 11 }));
    assert_eq!(repo.guest_calls, 1);
    assert!(repo.member_lookups.is_empty());
}

#[test]
fn a_bare_identifier_never_consults_the_domain_registry() {
    let mut repo = users();
    let r = repo.resolve("alice");
    assert!(matches!(r, Ok(LoginIdentifierMatch::Unresolved(UnresolvedReason::NotFound))));
    assert_eq!(repo.domain_calls, 0);
}

#[test]
fn an_ambiguous_result_in_the_resolved_home_tenant_stops_the_chain() {
    let mut repo = users();
    repo.guest = LoginIdentifierMatch::Resolved(user(11, HOME));
    repo.by_home_tenant = vec![("alice@corp.example", ambiguous())];
    repo.domains = vec![("corp.example", HOME)];
    assert!(is_ambiguous(&repo.resolve("alice@corp.example")));
    assert_eq!(repo.guest_calls, 0);
}

#[test]
fn the_requested_tenants_registry_still_wins() {
    let mut repo = users();
    repo.home = Ok(LoginIdentifierMatch::Resolved(user(10, HOST)));
    repo.by_home_tenant = vec![("alice", LoginIdentifierMatch::Resolved(user(12, HOME)))];
    repo.domains = vec![("corp.example", HOST)];
    assert_eq!(resolved_id(repo.resolve("alice@corp.example")), Some(Uuid { value: 10 }));
    assert!(repo.member_lookups.is_empty());
}

#[test]
fn the_requesting_tenants_own_domain_only_looks_up_the_local_part() {
    let mut repo = users();
    repo.by_home_tenant = vec![("alice", LoginIdentifierMatch::Resolved(user(12, HOST)))];
    repo.domains = vec![("corp.example", HOST)];
    assert_eq!(resolved_id(repo.resolve("alice@corp.example")), Some(Uuid { value: 12 }));
    assert_eq!(repo.member_lookups, vec!["alice".to_string()]);
    assert_eq!(repo.guest_calls, 0);
}

#[test]
fn propagates_repository_errors_without_falling_back() {
    let mut repo = users();
    repo.home = Err(DomainError::Repository("db down".to_string()));
    assert!(matches!(repo.resolve("member"), Err(DomainError::Repository(_))));
    assert_eq!(repo.guest_calls, 0);
}

#[test]
fn trimming_twice_is_trimming_once() {
    for text in ["", " \t ", "name", " a name\u{3000}", "\u{2003}x y \n"] {
        let once = trim(text);
        assert_eq!(once, text.trim());
        assert_eq!(trim(&once), once);
    }
}
