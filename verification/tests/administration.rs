use idp_core::audit::{AuditEventType, AuditRecord};
use idp_core::login_identifier_management::{
    AddLoginIdentifierCommand, IdentifierCall, IdentifierProgress, IdentifierStep,
    LoginIdentifierEntry, LoginIdentifierManagementError, LoginIdentifierManagementService,
    LoginIdentifierType, UserLoginIdentifier,
};
use idp_core::login_user_resolution::{LoginIdentifierMatch, UnresolvedReason};
use idp_core::member_note::{MemberNoteError, MemberNoteService, NoteProgress, NoteStep};
use idp_core::model::{
    AdminActor, Client, DomainError, MessageKey, TenantContext, TenantId, User, UserStatus, Uuid,
};
use idp_core::permission_management::{
    CodesStep, FindUserStep, GetUserStep, PermissionManagementError, PermissionManagementService, PermissionProgress,
    PermissionStep,
};
use idp_core::resource_management::{
    ProtectedResource, ResourceCall, ResourceManagementError, ResourceManagementService,
    ResourceProgress, ResourceStatus, ResourceStep,
};
use idp_core::saml_provider_management::{
    RegisterSamlProviderCommand, SamlIdentityProvider, SamlProviderListStep,
    SamlProviderManagementError, SamlProviderManagementService, SamlProviderStep,
};
use idp_core::saml_service_provider_management::{
    RegisterSamlServiceProviderCommand, SamlServiceProviderManagementError,
    SamlServiceProviderManagementService, ServiceProviderDeleteStep, ServiceProviderListStep,
    ServiceProviderProgress, ServiceProviderStep, UpdateSamlServiceProviderCommand,
};
use idp_core::saml_sso::SamlServiceProvider;
use idp_core::service_restart::{RestartStep, ServiceRestartService};
use idp_core::stop_announcement::{AnnounceStep, StopAnnouncementService};
use idp_core::tenant_management::{
    CreateTenantCommand, Tenant, TenantCall, TenantDomain, TenantManagementError,
    TenantManagementService, TenantProgress, TenantStatus, TenantStep, UpdateSettingsCommand,
    UpdateTenantCommand,
};
use idp_core::time::{Span, Timestamp};

fn now() -> Timestamp {
    Timestamp::from_unix(1_784_246_400).unwrap()
}

fn at(tenant: u128) -> TenantContext {
    TenantContext {
        tenant_id: TenantId { value: tenant },
    }
}

fn user(id: u128, username: &str, email: &str) -> User {
    User {
        id: Uuid { value: id },
        sub: Uuid { value: id + 100 },
        tenant_id: TenantId { value: 1 },
        email: email.to_string(),
        email_verified: true,
        preferred_username: Some(username.to_string()),
        name: None,
        language: None,
        password_hash: "hash".to_string(),
        status: UserStatus::Active,
        must_change_password: false,
        failed_login_count: 0,
        locked_until: None,
    }
}

// ---------------------------------------------------------------------------
// Permissions

const TARGET: Uuid = Uuid { value: 20 };
const ACTOR: Uuid = Uuid { value: 9 };

struct Permissions {
    user: Option<User>,
    members: Vec<(TenantId, Uuid)>,
    granted: Vec<(TenantId, Uuid, String)>,
    reject_unknown: bool,
    events: Vec<AuditRecord>,
}

fn permissions() -> Permissions {
    Permissions {
        user: Some(user(20, "target", "target@example.com")),
        members: vec![(TenantId { value: 1 }, TARGET)],
        granted: vec![],
        reject_unknown: false,
        events: vec![],
    }
}

impl Permissions {
    fn find(&self, user_id: Uuid) -> Option<User> {
        self.user.clone().filter(|u| u.id == user_id)
    }

    fn codes(&self, tenant_id: TenantId, user_id: Uuid) -> Vec<String> {
        self.granted
            .iter()
            .filter(|(t, u, _)| *t == tenant_id && *u == user_id)
            .map(|(_, _, c)| c.clone())
            .collect()
    }

    fn drive(
        &mut self,
        run: impl Fn(&PermissionProgress, Option<Result<Vec<String>, DomainError>>) -> PermissionStep,
    ) -> Result<Vec<String>, PermissionManagementError> {
        let mut p = PermissionProgress::default();
        let mut codes: Option<Vec<String>> = None;
        loop {
            match run(&p, codes.clone().map(Ok)) {
                PermissionStep::ParseCode { code } => {
                    let code = code.trim().to_string();
                    p.code = Some(if code.is_empty() {
                        Err("permission code is empty".to_string())
                    } else {
                        Ok(code)
                    });
                }
                PermissionStep::FindUser { user_id } => p.user = Some(Ok(self.find(user_id))),
                PermissionStep::FindUserAgain { user_id } => {
                    p.user_after = Some(Ok(self.find(user_id)));
                }
                PermissionStep::FindMembership { tenant_id, user_id } => {
                    p.member = Some(Ok(self.members.contains(&(tenant_id, user_id))));
                }
                PermissionStep::FindMembershipAgain { tenant_id, user_id } => {
                    p.member_after = Some(Ok(self.members.contains(&(tenant_id, user_id))));
                }
                PermissionStep::CheckSystemAdmin { tenant_id, user_id } => {
                    p.actor_is_admin = Some(Ok(self
                        .codes(tenant_id, user_id)
                        .contains(&"idp.system.admin".to_string())));
                }
                PermissionStep::Grant { tenant_id, user_id, code, .. } => {
                    p.changed = Some(if self.reject_unknown {
                        Err(DomainError::InvalidValue("unknown permission".to_string()))
                    } else {
                        self.granted.push((tenant_id, user_id, code));
                        Ok(())
                    });
                }
                PermissionStep::Revoke { tenant_id, user_id, code } => {
                    self.granted.retain(|g| *g != (tenant_id, user_id, code.clone()));
                    p.changed = Some(Ok(()));
                }
                PermissionStep::Audit(a) => {
                    self.events.push(a);
                    p.audits += 1;
                }
                PermissionStep::ListCodes { tenant_id, user_id } => {
                    codes = Some(self.codes(tenant_id, user_id));
                }
                PermissionStep::Done(r) => return r,
            }
        }
    }

    fn grant(&mut self, target: Uuid, code: &str) -> Result<Vec<String>, PermissionManagementError> {
        self.drive(|p, codes| {
            PermissionManagementService::new().grant(&at(1), target, code, ACTOR, now(), p, codes)
        })
    }

    fn revoke(&mut self, target: Uuid, code: &str) -> Result<Vec<String>, PermissionManagementError> {
        self.drive(|p, codes| {
            PermissionManagementService::new().revoke(&at(1), target, code, ACTOR, now(), p, codes)
        })
    }

    fn list(&mut self, target: Uuid) -> Result<Vec<String>, PermissionManagementError> {
        self.drive(|p, codes| PermissionManagementService::new().list(&at(1), target, p, codes))
    }

    fn find_user_by_identifier(&self, tenant: u128, identifier: &str) -> Option<Uuid> {
        let svc = PermissionManagementService::new();
        let mut found = None;
        loop {
            match svc.find_user_by_identifier(&at(tenant), identifier, found) {
                FindUserStep::FindByEmail { tenant_id, email } => {
                    found = Some(Ok(self
                        .user
                        .clone()
                        .filter(|u| u.tenant_id == tenant_id && u.email == email)));
                }
                FindUserStep::FindByUsername { tenant_id, username } => {
                    found = Some(Ok(self.user.clone().filter(|u| {
                        u.tenant_id == tenant_id && u.preferred_username == Some(username.clone())
                    })));
                }
                FindUserStep::Done(Ok(u)) => return u.map(|u| u.id),
                FindUserStep::Done(Err(_)) => panic!("must succeed"),
            }
        }
    }
}

#[test]
fn grant_persists_and_audits() {
    let mut w = permissions();
    let codes = w.grant(TARGET, "idp.tenant.admin").ok().unwrap();
    assert_eq!(codes, vec!["idp.tenant.admin".to_string()]);
    assert_eq!(w.events.len(), 1);
    assert_eq!(w.events[0].event, AuditEventType::UserPermissionGranted);
    assert_eq!(w.events[0].user_id, Some(ACTOR));
    assert_eq!(w.events[0].tenant_id, Some(TenantId { value: 1 }));
    assert!(w.events[0].reason.as_ref().unwrap().text().contains("idp.tenant.admin"));
}

#[test]
fn revoke_removes_and_audits() {
    let mut w = permissions();
    w.granted.push((TenantId { value: 1 }, TARGET, "idp.tenant.admin".to_string()));
    let codes = w.revoke(TARGET, "idp.tenant.admin").ok().unwrap();
    assert!(codes.is_empty());
    assert_eq!(w.events.len(), 1);
    assert_eq!(w.events[0].event, AuditEventType::UserPermissionRevoked);
}

#[test]
fn grant_rejects_empty_code() {
    let mut w = permissions();
    assert!(matches!(w.grant(TARGET, "  "), Err(PermissionManagementError::Validation(_))));
}

#[test]
fn grant_unknown_code_is_validation_error() {
    let mut w = permissions();
    w.reject_unknown = true;
    assert!(matches!(
        w.grant(TARGET, "idp.unknown"),
        Err(PermissionManagementError::Validation(_))
    ));
    assert!(w.events.is_empty());
}

#[test]
fn find_user_by_identifier_resolves_email_and_username() {
    let w = permissions();
    assert_eq!(w.find_user_by_identifier(1, "target@example.com"), Some(TARGET));
    assert_eq!(w.find_user_by_identifier(1, "  target  "), Some(TARGET));
    assert!(w.find_user_by_identifier(1, "nobody@example.com").is_none());
    assert!(w.find_user_by_identifier(1, "   ").is_none());
    assert!(w.find_user_by_identifier(2, "target@example.com").is_none());
}

#[test]
fn available_codes_come_from_master() {
    let svc = PermissionManagementService::new();
    assert!(matches!(svc.available_codes(None), CodesStep::ListAvailable));
    let CodesStep::Done(codes) =
        svc.available_codes(Some(Ok(vec!["idp.tenant.admin".to_string()])))
    else {
        panic!("they are listed");
    };
    assert_eq!(codes.ok(), Some(vec!["idp.tenant.admin".to_string()]));
    assert!(matches!(
        svc.available_codes(Some(Err(DomainError::Repository("down".to_string())))),
        CodesStep::Done(Err(PermissionManagementError::Internal(m))) if m == "down"
    ));
}

#[test]
fn get_user_returns_not_found_when_absent() {
    let svc = PermissionManagementService::new();
    assert!(matches!(
        svc.get_user(&at(1), TARGET, None),
        GetUserStep::FindUser { user_id } if user_id == TARGET
    ));
    assert!(matches!(
        svc.get_user(&at(1), TARGET, Some(Ok(None))),
        GetUserStep::Done(Err(PermissionManagementError::NotFound))
    ));
    let found = Some(Ok(Some(user(20, "t", "t@example.com"))));
    assert!(matches!(
        svc.get_user(&at(1), TARGET, found),
        GetUserStep::Done(Ok(u)) if u.id == TARGET
    ));
    assert!(matches!(
        svc.get_user(&at(2), TARGET, Some(Ok(Some(user(20, "t", "t@example.com"))))),
        GetUserStep::Done(Err(PermissionManagementError::NotFound))
    ));
    assert!(matches!(
        svc.get_user(&at(1), TARGET, Some(Err(DomainError::Repository("down".to_string())))),
        GetUserStep::Done(Err(PermissionManagementError::Internal(m))) if m == "down"
    ));
}

#[test]
fn missing_target_user_is_not_found() {
    let mut w = permissions();
    w.user = None;
    assert!(matches!(
        w.grant(Uuid { value: 30 }, "idp.tenant.admin"),
        Err(PermissionManagementError::NotFound)
    ));
    assert!(matches!(w.list(Uuid { value: 30 }), Err(PermissionManagementError::NotFound)));
}

#[test]
fn system_admin_grant_requires_system_admin_actor() {
    let mut w = permissions();
    assert!(matches!(
        w.grant(TARGET, "idp.system.admin"),
        Err(PermissionManagementError::Forbidden(_))
    ));
    assert!(w.events.is_empty());
    w.granted.push((TenantId { value: 1 }, ACTOR, "idp.system.admin".to_string()));
    let codes = w.grant(TARGET, "idp.system.admin").ok().unwrap();
    assert_eq!(codes, vec!["idp.system.admin".to_string()]);
}

#[test]
fn grant_rejects_non_active_member() {
    let mut w = permissions();
    w.members.clear();
    assert!(matches!(
        w.grant(TARGET, "idp.tenant.admin"),
        Err(PermissionManagementError::NotFound)
    ));
    assert!(w.granted.is_empty());
    assert!(w.events.is_empty());
    assert!(matches!(w.list(TARGET), Err(PermissionManagementError::NotFound)));
    assert!(matches!(
        w.revoke(TARGET, "idp.tenant.admin"),
        Err(PermissionManagementError::NotFound)
    ));
}

#[test]
fn grant_rejects_user_from_other_tenant_without_membership() {
    let mut w = permissions();
    w.user.as_mut().unwrap().tenant_id =
        TenantId { value: 0x0197_0000_0000_7000_8000_0000_0000_00FF };
    w.members.clear();
    assert!(matches!(
        w.grant(TARGET, "idp.tenant.admin"),
        Err(PermissionManagementError::NotFound)
    ));
}

#[test]
fn grant_succeeds_for_active_guest_from_other_tenant() {
    let mut w = permissions();
    w.user.as_mut().unwrap().tenant_id =
        TenantId { value: 0x0197_0000_0000_7000_8000_0000_0000_00FF };
    let codes = w.grant(TARGET, "idp.tenant.admin").ok().unwrap();
    assert_eq!(codes, vec!["idp.tenant.admin".to_string()]);
    assert_eq!(
        w.granted,
        vec![(TenantId { value: 1 }, TARGET, "idp.tenant.admin".to_string())]
    );
}

// ---------------------------------------------------------------------------
// Tenants

struct Tenants {
    fail_provision: bool,
    rows: Vec<Tenant>,
    memberships: Vec<(TenantId, Uuid)>,
    granted: Vec<(TenantId, Uuid, String)>,
    domains: Vec<TenantDomain>,
    events: Vec<AuditRecord>,
    next: u128,
}

fn tenants() -> Tenants {
    Tenants {
        fail_provision: false,
        rows: vec![],
        memberships: vec![],
        granted: vec![],
        domains: vec![],
        events: vec![],
        next: 0x100,
    }
}

const ROOT: u128 = 0xAAAA;

fn actor() -> AdminActor {
    AdminActor::User(ACTOR)
}

impl Tenants {
    fn perform(&mut self, call: TenantCall, p: &mut TenantProgress) {
        match call {
            TenantCall::FindTenant { id } => {
                p.found = Some(Ok(self.rows.iter().find(|t| t.id == id).cloned()));
            }
            TenantCall::Provision { tenant, guest, permission, .. } => {
                if self.fail_provision {
                    p.provisioned = Some(Err(DomainError::Repository("down".to_string())));
                } else {
                    self.memberships.push((tenant.id, guest));
                    self.granted.push((tenant.id, guest, permission));
                    self.rows.push(tenant);
                    p.provisioned = Some(Ok(()));
                }
            }
            TenantCall::ParseAccent { raw } => {
                p.accent = Some(if raw == "#112233" {
                    Ok(Some(raw))
                } else if raw.is_empty() {
                    Ok(None)
                } else {
                    Err(MessageKey::new("api-accent"))
                });
            }
            TenantCall::UpdateTenant(t) => {
                for row in self.rows.iter_mut() {
                    if row.id == t.id {
                        *row = t.clone();
                    }
                }
                p.updated = Some(Ok(()));
            }
            TenantCall::ListChildren { parent } => {
                p.children = Some(Ok(self
                    .rows
                    .iter()
                    .filter(|t| t.parent_tenant_id == Some(parent))
                    .cloned()
                    .collect()));
            }
            TenantCall::DeleteTenant { id } => {
                self.rows.retain(|t| t.id != id);
                p.deleted = Some(Ok(()));
            }
            TenantCall::ValidateDomain { raw } => {
                p.domain = Some(if raw.contains('.') {
                    Ok(raw.to_lowercase())
                } else {
                    Err(MessageKey::new("api-domain"))
                });
            }
            TenantCall::CreateDomain(d) => {
                p.domain_created = Some(if self.domains.iter().any(|x| x.domain == d.domain) {
                    Err(DomainError::Conflict("taken".to_string()))
                } else {
                    self.domains.push(d);
                    Ok(())
                });
            }
            TenantCall::ListChildrenPage { .. } => panic!("no page is asked for"),
            TenantCall::ListDomains { tenant_id } => {
                p.domains = Some(Ok(self
                    .domains
                    .iter()
                    .filter(|d| d.tenant_id == tenant_id)
                    .cloned()
                    .collect()));
            }
            TenantCall::DeleteDomain { domain_id, .. } => {
                let before = self.domains.len();
                self.domains.retain(|d| d.id != domain_id);
                p.domain_deleted = Some(Ok(self.domains.len() < before));
            }
            TenantCall::Audit(a) => {
                self.events.push(a);
                p.audits += 1;
            }
        }
    }

    fn drive<T>(
        &mut self,
        run: impl Fn(&TenantManagementService, &TenantProgress) -> TenantStep<T>,
    ) -> Result<T, TenantManagementError> {
        let mut p = TenantProgress::default();
        loop {
            match run(&TenantManagementService::new(), &p) {
                TenantStep::Call(call) => self.perform(call, &mut p),
                TenantStep::Done(r) => return r,
            }
        }
    }

    fn create(&mut self, parent: u128, name: &str) -> Result<Tenant, TenantManagementError> {
        self.next += 1;
        let id = TenantId { value: self.next };
        let cmd = CreateTenantCommand { name: name.to_string() };
        self.drive(|s, p| s.create_tenant(&at(parent), &cmd, &actor(), id, now(), p))
    }
}

#[test]
fn create_tenant_adds_creator_as_bootstrap_guest_admin() {
    let mut h = tenants();
    let tenant = h.create(ROOT, "  Acme  ").ok().unwrap();
    assert_eq!(tenant.name, "Acme");
    assert_eq!(tenant.parent_tenant_id, Some(TenantId { value: ROOT }));
    assert_eq!(h.granted, vec![(tenant.id, ACTOR, "idp.tenant.admin".to_string())]);
    assert_eq!(h.memberships, vec![(tenant.id, ACTOR)]);
    assert!(h.events.iter().any(|e| e.event == AuditEventType::TenantCreated));
    assert!(h.events.iter().all(|e| e.event != AuditEventType::UserCreated));
}

#[test]
fn provision_failure_leaves_no_tenant_and_no_success_audit() {
    let mut h = tenants();
    h.fail_provision = true;
    assert!(matches!(h.create(ROOT, "Acme"), Err(TenantManagementError::Internal(_))));
    assert!(h.rows.is_empty());
    assert!(h.memberships.is_empty());
    assert!(h.granted.is_empty());
    assert!(h.events.is_empty());
}

#[test]
fn create_tenant_rejects_empty_name() {
    let mut h = tenants();
    assert!(matches!(h.create(ROOT, "   "), Err(TenantManagementError::Validation(_))));
}

#[test]
fn get_update_delete_scope_to_direct_children() {
    let mut h = tenants();
    let child = h.create(ROOT, "Child").ok().unwrap().id;
    assert!(matches!(
        h.drive(|s, p| s.get_child(&at(0xBBBB), child, p)),
        Err(TenantManagementError::NotFound)
    ));
    let got = h.drive(|s, p| s.get_child(&at(ROOT), child, p));
    assert_eq!(got.ok().map(|t| t.id), Some(child));
    let cmd = UpdateTenantCommand {
        name: Some("Renamed".to_string()),
        status: Some(TenantStatus::Disabled),
    };
    let updated =
        h.drive(|s, p| s.update_tenant(&at(ROOT), child, &cmd, &actor(), p)).ok().unwrap();
    assert_eq!(updated.name, "Renamed");
    assert_eq!(updated.status, TenantStatus::Disabled);
    assert!(h.drive(|s, p| s.delete_tenant(&at(ROOT), child, &actor(), p)).is_ok());
    assert!(h.rows.iter().all(|t| t.id != child));
}

#[test]
fn delete_rejects_tenant_with_children() {
    let mut h = tenants();
    let parent = h.create(ROOT, "Parent").ok().unwrap().id;
    h.create(parent.value, "Grandchild").ok().unwrap();
    assert!(matches!(
        h.drive(|s, p| s.delete_tenant(&at(ROOT), parent, &actor(), p)),
        Err(TenantManagementError::Conflict(_))
    ));
}

#[test]
fn only_users_create_tenants() {
    let client = AdminActor::Client { id: Uuid { value: 4 }, client_id: "c".to_string() };
    let cmd = CreateTenantCommand { name: "Acme".to_string() };
    let step = TenantManagementService::new().create_tenant(
        &at(ROOT),
        &cmd,
        &client,
        TenantId { value: 5 },
        now(),
        &TenantProgress::default(),
    );
    assert!(matches!(
        step,
        TenantStep::Done(Err(TenantManagementError::Forbidden(k)))
            if k.key == "api-tenant-create-requires-user-actor"
    ));
}

#[test]
fn a_tenant_changes_its_own_settings() {
    let mut h = tenants();
    let own = h.create(ROOT, "Own").ok().unwrap().id;
    let mut cmd = UpdateSettingsCommand {
        name: " Mine ".to_string(),
        accent_color: Some("#112233".to_string()),
        self_registration_enabled: Some(true),
    };
    let t = h
        .drive(|s, p| s.update_current_settings(&at(own.value), &cmd, &actor(), p))
        .ok()
        .unwrap();
    assert_eq!(t.name, "Mine");
    assert_eq!(t.accent_color, Some("#112233".to_string()));
    assert!(t.self_registration_enabled);
    assert_eq!(
        h.events.last().unwrap().reason.as_ref().unwrap().text(),
        "tenant=00000000-0000-0000-0000-000000000101 (self settings)"
    );
    cmd.accent_color = Some("blue".to_string());
    assert!(matches!(
        h.drive(|s, p| s.update_current_settings(&at(own.value), &cmd, &actor(), p)),
        Err(TenantManagementError::Validation(_))
    ));
    assert!(h.drive(|s, p| s.get_current(&at(own.value), p)).is_ok());
    assert!(matches!(
        h.drive(|s, p| s.get_current(&at(77), p)),
        Err(TenantManagementError::NotFound)
    ));
}

#[test]
fn pages_have_bounds() {
    let svc = TenantManagementService::new();
    assert_eq!(svc.page_request(None, None), (50, 0));
    assert_eq!(svc.page_request(Some(0), Some(-4)), (50, 0));
    assert_eq!(svc.page_request(Some(1000), Some(7)), (200, 7));
    assert!(matches!(
        svc.list_children_page(&at(3), Some(1000), Some(-2), None),
        TenantStep::Call(TenantCall::ListChildrenPage { parent, limit: 200, offset: 0 })
            if parent.value == 3
    ));
    let TenantStep::Done(Ok(page)) =
        svc.list_children_page(&at(3), Some(5), Some(2), Some(Ok((vec![], 11))))
    else {
        panic!("it is listed");
    };
    assert_eq!((page.total, page.limit, page.offset), (11, 5, 2));
    assert!(matches!(
        svc.list_children(&at(3), None),
        TenantStep::Call(TenantCall::ListChildren { parent }) if parent.value == 3
    ));
    assert!(matches!(svc.list_children(&at(3), Some(Ok(vec![]))), TenantStep::Done(Ok(_))));
    assert!(matches!(
        svc.list_children(&at(3), Some(Err(DomainError::Repository("down".to_string())))),
        TenantStep::Done(Err(TenantManagementError::Internal(m))) if m == "down"
    ));
}

#[test]
fn domains_belong_to_a_tenant_or_its_child() {
    let mut h = tenants();
    let child = h.create(ROOT, "Child").ok().unwrap().id;
    let id = Uuid { value: 300 };
    let add = |h: &mut Tenants, from: u128, raw: &str| {
        h.drive(|s, p| s.add_domain(&at(from), child, raw, &actor(), id, now(), p))
    };
    assert_eq!(add(&mut h, ROOT, "Example.COM").ok().map(|d| d.domain), Some("example.com".to_string()));
    assert!(matches!(
        add(&mut h, child.value, "example.com"),
        Err(TenantManagementError::Conflict(k)) if k.key == "api-tenant-domain-conflict"
    ));
    assert!(matches!(add(&mut h, ROOT, "nodot"), Err(TenantManagementError::Validation(_))));
    assert!(matches!(add(&mut h, 0xBBBB, "a.b"), Err(TenantManagementError::NotFound)));
    let listed = h.domains.clone();
    let found = Some(Ok(h.rows.iter().find(|t| t.id == child).cloned()));
    let step = TenantManagementService::new().list_domains(&at(ROOT), child, &found, Some(Ok(listed)));
    assert!(matches!(step, TenantStep::Done(Ok(v)) if v.len() == 1));
    assert!(h.drive(|s, p| s.remove_domain(&at(ROOT), child, id, &actor(), p)).is_ok());
    assert!(matches!(
        h.drive(|s, p| s.remove_domain(&at(ROOT), child, id, &actor(), p)),
        Err(TenantManagementError::NotFound)
    ));
}

// ---------------------------------------------------------------------------
// Names to sign in with

struct Names {
    users: Vec<User>,
    rows: Vec<UserLoginIdentifier>,
    events: Vec<AuditRecord>,
    next: u128,
}

fn names(users: Vec<User>) -> Names {
    Names { users, rows: vec![], events: vec![], next: 200 }
}

fn normalize(kind: LoginIdentifierType, raw: &str) -> String {
    match kind {
        LoginIdentifierType::PhoneNumber => raw.chars().filter(|c| c.is_ascii_digit()).collect(),
        _ => raw.to_lowercase(),
    }
}

impl Names {
    fn meaning(&self, tenant_id: TenantId, input: &str) -> LoginIdentifierMatch {
        let text = input.to_lowercase();
        let by_name = self.users.iter().find(|u| {
            u.tenant_id == tenant_id && u.preferred_username.as_ref() == Some(&text)
        });
        let by_row = self
            .rows
            .iter()
            .find(|r| r.is_active && r.normalized_value == text)
            .and_then(|r| self.users.iter().find(|u| u.id == r.user_id));
        match by_name.or(by_row) {
            Some(u) => LoginIdentifierMatch::Resolved(u.clone()),
            None => LoginIdentifierMatch::Unresolved(UnresolvedReason::NotFound),
        }
    }

    fn perform(&mut self, call: IdentifierCall, p: &mut IdentifierProgress) {
        match call {
            IdentifierCall::FindUser { user_id } => {
                p.user = Some(Ok(self.users.iter().find(|u| u.id == user_id).cloned()));
            }
            IdentifierCall::ListIdentifiers { .. } => panic!("not expected"),
            IdentifierCall::Normalize { identifier_type, raw } => {
                p.normalized = Some(if raw.is_empty() {
                    Err(MessageKey::new("api-identifier-empty"))
                } else {
                    Ok(normalize(identifier_type, &raw))
                });
            }
            IdentifierCall::FindMeaning { tenant_id, input } => {
                p.meaning = Some(Ok(self.meaning(tenant_id, &input)));
            }
            IdentifierCall::FindByEmail { tenant_id, email } => {
                p.by_email = Some(Ok(self
                    .users
                    .iter()
                    .find(|u| u.tenant_id == tenant_id && u.email.eq_ignore_ascii_case(&email))
                    .cloned()));
            }
            IdentifierCall::Create(row) => {
                self.rows.push(row);
                p.created = Some(Ok(()));
            }
            IdentifierCall::FindIdentifier { id } => {
                p.identifier = Some(Ok(self.rows.iter().find(|r| r.id == id).cloned()));
            }
            IdentifierCall::SetActive { id, is_active, .. } => {
                let mut changed = false;
                for r in self.rows.iter_mut().filter(|r| r.id == id) {
                    r.is_active = is_active;
                    changed = true;
                }
                p.changed = Some(Ok(changed));
            }
            IdentifierCall::Delete { id, .. } => {
                let before = self.rows.len();
                self.rows.retain(|r| r.id != id);
                p.changed = Some(Ok(self.rows.len() < before));
            }
            IdentifierCall::Audit(a) => {
                self.events.push(a);
                p.audits += 1;
            }
            IdentifierCall::ReadClock => p.after = Some(now().plus(Span::seconds(5))),
        }
    }

    fn drive<T>(
        &mut self,
        run: impl Fn(&LoginIdentifierManagementService, &IdentifierProgress) -> IdentifierStep<T>,
    ) -> Result<T, LoginIdentifierManagementError> {
        let mut p = IdentifierProgress::default();
        loop {
            match run(&LoginIdentifierManagementService::new(), &p) {
                IdentifierStep::Call(call) => self.perform(call, &mut p),
                IdentifierStep::Done(r) => return r,
            }
        }
    }

    fn add(
        &mut self,
        kind: LoginIdentifierType,
        value: &str,
    ) -> Result<UserLoginIdentifier, LoginIdentifierManagementError> {
        self.next += 1;
        let id = Uuid { value: self.next };
        let cmd = AddLoginIdentifierCommand {
            identifier_type: kind,
            value: value.to_string(),
            is_active: true,
        };
        self.drive(|s, p| s.add(&at(1), Uuid { value: 2 }, &cmd, ACTOR, id, now(), p))
    }

    fn list(
        &self,
        target: u128,
    ) -> Result<Vec<LoginIdentifierEntry>, LoginIdentifierManagementError> {
        let svc = LoginIdentifierManagementService::new();
        let mut user = None;
        let mut stored = None;
        loop {
            match svc.list(&at(1), Uuid { value: target }, &user, &stored) {
                IdentifierStep::Call(IdentifierCall::FindUser { user_id }) => {
                    user = Some(Ok(self.users.iter().find(|u| u.id == user_id).cloned()));
                }
                IdentifierStep::Call(IdentifierCall::ListIdentifiers { user_id }) => {
                    stored = Some(Ok(self
                        .rows
                        .iter()
                        .filter(|r| r.user_id == user_id)
                        .cloned()
                        .collect()));
                }
                IdentifierStep::Call(_) => panic!("not expected"),
                IdentifierStep::Done(r) => return r,
            }
        }
    }
}

fn alice_and_bob() -> Names {
    names(vec![user(2, "alice", "alice@example.com"), user(3, "bob", "bob@example.com")])
}

#[test]
fn adds_a_phone_identifier_and_normalizes_it() {
    let mut w = names(vec![user(2, "alice", "alice@example.com")]);
    let added = w.add(LoginIdentifierType::PhoneNumber, "090-1234-5678").ok().unwrap();
    assert_eq!(added.display_value, "090-1234-5678");
    assert_eq!(added.normalized_value, "09012345678");
}

#[test]
fn rejects_a_value_that_resolves_to_another_user() {
    let mut w = alice_and_bob();
    assert!(matches!(
        w.add(LoginIdentifierType::Username, "BOB"),
        Err(LoginIdentifierManagementError::Conflict(_))
    ));
}

#[test]
fn rejects_another_users_email_even_though_email_is_not_a_login_route() {
    let mut w = alice_and_bob();
    assert!(matches!(
        w.add(LoginIdentifierType::Email, "Bob@Example.com"),
        Err(LoginIdentifierManagementError::Conflict(_))
    ));
    assert!(w.add(LoginIdentifierType::Email, "Alice@Example.com").is_ok());
}

#[test]
fn deactivating_keeps_the_row_so_nobody_else_can_claim_it() {
    let mut w = names(vec![user(2, "alice", "alice@example.com")]);
    let added = w.add(LoginIdentifierType::EmployeeNumber, "E-1001").ok().unwrap();
    let updated = w
        .drive(|s, p| s.set_active(&at(1), Uuid { value: 2 }, added.id, false, ACTOR, p))
        .ok()
        .unwrap();
    assert!(!updated.is_active);
    assert_eq!(updated.updated_at, now().plus(Span::seconds(5)));
    assert_eq!(w.rows.len(), 1);
    assert_eq!(
        w.events.last().unwrap().reason.as_ref().unwrap().text(),
        "type=employee_number active=false"
    );
}

#[test]
fn rejects_a_value_that_already_resolves_to_the_user_themselves() {
    let mut w = names(vec![user(2, "alice", "alice@example.com")]);
    assert!(matches!(
        w.add(LoginIdentifierType::Username, "Alice"),
        Err(LoginIdentifierManagementError::Conflict(_))
    ));
}

#[test]
fn the_list_shows_registry_rows_with_the_primary_first() {
    let mut w = names(vec![user(2, "alice", "alice@example.com")]);
    w.add(LoginIdentifierType::EmployeeNumber, "E-1001").ok().unwrap();
    w.rows.push(UserLoginIdentifier {
        id: Uuid { value: 100 },
        tenant_id: TenantId { value: 1 },
        user_id: Uuid { value: 2 },
        identifier_type: LoginIdentifierType::Username,
        display_value: "alice".to_string(),
        normalized_value: "alice".to_string(),
        is_active: true,
        is_primary: true,
        created_at: now(),
        updated_at: now(),
    });
    let entries = w.list(2).ok().unwrap();
    assert_eq!(entries.len(), 2);
    assert!(entries[0].is_primary);
    assert_eq!(entries[0].normalized_value, "alice");
    assert!(entries[0].id.is_some());
    assert!(!entries[1].is_primary);
    assert!(entries[1].id.is_some());
}

#[test]
fn does_not_touch_users_from_another_tenant() {
    let mut outsider = user(3, "carol", "carol@example.com");
    outsider.tenant_id = TenantId { value: 2 };
    let w = names(vec![outsider]);
    assert!(matches!(w.list(3), Err(LoginIdentifierManagementError::NotFound)));
}

#[test]
fn names_are_removed_by_their_owner_alone() {
    let mut w = alice_and_bob();
    let added = w.add(LoginIdentifierType::EmployeeNumber, "E-1001").ok().unwrap();
    assert!(matches!(
        w.drive(|s, p| s.remove(&at(1), Uuid { value: 3 }, added.id, ACTOR, p)),
        Err(LoginIdentifierManagementError::NotFound)
    ));
    assert!(w.drive(|s, p| s.remove(&at(1), Uuid { value: 2 }, added.id, ACTOR, p)).is_ok());
    assert!(w.rows.is_empty());
    assert!(matches!(
        w.add(LoginIdentifierType::PhoneNumber, "  "),
        Err(LoginIdentifierManagementError::Validation(_))
    ));
    assert_eq!(LoginIdentifierManagementError::NotFound.text(), "not found");
}

// ---------------------------------------------------------------------------
// Protected resources

struct Resources {
    rows: Vec<ProtectedResource>,
    client_deleted: bool,
    permitted: Vec<(Uuid, Uuid)>,
    events: Vec<AuditRecord>,
}

fn resources() -> Resources {
    Resources { rows: vec![], client_deleted: false, permitted: vec![], events: vec![] }
}

const RESOURCE: Uuid = Uuid { value: 60 };
const CLIENT: Uuid = Uuid { value: 61 };

impl Resources {
    fn client(&self, client_id: &str) -> Option<Client> {
        (client_id == "app").then_some(Client {
            id: CLIENT,
            client_id: "app".to_string(),
            app_name: "App".to_string(),
            active: true,
            deleted: self.client_deleted,
            backchannel_logout_uri: None,
            frontchannel_logout_uri: None,
            post_logout_redirect_uris: vec![],
        })
    }

    fn drive<T>(
        &mut self,
        run: impl Fn(
            &ResourceManagementService,
            &ResourceProgress,
            Option<Result<Vec<ProtectedResource>, DomainError>>,
        ) -> ResourceStep<T>,
    ) -> Result<T, ResourceManagementError> {
        let mut p = ResourceProgress::default();
        let mut listed: Option<Vec<ProtectedResource>> = None;
        loop {
            let call = match run(&registry(), &p, listed.clone().map(Ok)) {
                ResourceStep::Call(call) => call,
                ResourceStep::Done(r) => return r,
            };
            match call {
                ResourceCall::ValidateUri { raw } => {
                    p.uri = Some(if raw.starts_with("https://") {
                        Ok(raw)
                    } else {
                        Err(MessageKey::new("api-uri"))
                    });
                }
                ResourceCall::ValidateDisplayName { raw } => p.display_name = Some(Ok(raw)),
                ResourceCall::ComposeIssuer { base_issuer, tenant_id } => {
                    assert_eq!(base_issuer, "https://idp.example.com");
                    p.issuer = Some(format!("{base_issuer}/{}", tenant_id.value));
                }
                ResourceCall::Create(r) => {
                    p.created = Some(if self.rows.iter().any(|x| x.resource_uri == r.resource_uri) {
                        Err(DomainError::Conflict("taken".to_string()))
                    } else {
                        self.rows.push(r);
                        Ok(())
                    });
                }
                ResourceCall::FindById { id, .. } => {
                    p.resource = Some(Ok(self.rows.iter().find(|r| r.id == id).cloned()));
                }
                ResourceCall::FindByIdAgain { id, .. } => {
                    p.resource_after = Some(Ok(self.rows.iter().find(|r| r.id == id).cloned()));
                }
                ResourceCall::FindByUri { uri, .. } => {
                    p.resource =
                        Some(Ok(self.rows.iter().find(|r| r.resource_uri == uri).cloned()));
                }
                ResourceCall::FindClient { client_id, .. } => {
                    p.client = Some(Ok(self.client(&client_id)));
                }
                ResourceCall::FindClientAgain { client_id, .. } => {
                    p.client_after = Some(Ok(self.client(&client_id)));
                }
                ResourceCall::SetStatus { id, status, now: at, .. } => {
                    assert_eq!(at, now());
                    for r in self.rows.iter_mut().filter(|r| r.id == id) {
                        r.status = status;
                    }
                    p.changed = Some(Ok(true));
                }
                ResourceCall::Delete { id, .. } => {
                    self.rows.retain(|r| r.id != id);
                    p.changed = Some(Ok(true));
                }
                ResourceCall::Grant { client, resource, now: at } => {
                    assert_eq!(at, now());
                    self.permitted.push((client, resource));
                    p.permitted = Some(Ok(()));
                }
                ResourceCall::Revoke { client, resource } => {
                    self.permitted.retain(|x| *x != (client, resource));
                    p.permitted = Some(Ok(()));
                }
                ResourceCall::Audit(a) => {
                    self.events.push(a);
                    p.audits += 1;
                }
                ResourceCall::ListForTenant { tenant_id } => {
                    assert_eq!(tenant_id.value, 1);
                    listed = Some(self.rows.clone());
                }
                ResourceCall::ListForClient { client } => {
                    listed = Some(
                        self.rows
                            .iter()
                            .filter(|r| self.permitted.contains(&(client, r.id)))
                            .cloned()
                            .collect(),
                    );
                }
            }
        }
    }

    fn register(&mut self, uri: &str) -> Result<ProtectedResource, ResourceManagementError> {
        self.drive(|s, p, _| s.register(&at(1), uri, "Api", &actor(), RESOURCE, now(), p))
    }
}

fn registry() -> ResourceManagementService {
    ResourceManagementService::new("https://idp.example.com".to_string())
}

#[test]
fn a_resource_is_registered_and_switched_off() {
    let mut w = resources();
    let r = w.register("https://api.example.com").ok().unwrap();
    assert_eq!((r.id, r.status), (RESOURCE, ResourceStatus::Active));
    assert_eq!(
        w.events[0].reason.as_ref().unwrap().text(),
        "resource=https://api.example.com"
    );
    assert!(matches!(
        w.register("https://api.example.com"),
        Err(ResourceManagementError::Conflict(k)) if k.key == "api-resource-uri-conflict"
    ));
    assert!(matches!(w.register("ftp://x"), Err(ResourceManagementError::Invalid(_))));
    let r = w
        .drive(|s, p, _| {
            s.set_status(&at(1), RESOURCE, ResourceStatus::Disabled, &actor(), now(), p)
        })
        .ok()
        .unwrap();
    assert_eq!(r.status, ResourceStatus::Disabled);
    assert!(w.drive(|s, p, _| s.delete(&at(1), RESOURCE, &actor(), p)).is_ok());
    assert!(matches!(
        w.drive(|s, p, _| s.delete(&at(1), RESOURCE, &actor(), p)),
        Err(ResourceManagementError::NotFound)
    ));
}

#[test]
fn own_addresses_are_reserved() {
    let mut w = resources();
    for uri in [
        "https://idp.example.com/1",
        "https://idp.example.com/1/userinfo",
        "https://idp.example.com/1/admin",
    ] {
        assert!(matches!(
            w.register(uri),
            Err(ResourceManagementError::Invalid(k)) if k.key == "api-resource-uri-reserved"
        ));
    }
    assert!(w.register("https://idp.example.com/1/").is_ok());
}

#[test]
fn a_client_is_given_resources_and_loses_them() {
    let mut w = resources();
    w.register("https://api.example.com").ok().unwrap();
    let grant = |w: &mut Resources, client: &str| {
        w.drive(|s, p, listed| {
            s.grant(&at(1), client, " https://api.example.com ", &actor(), now(), p, listed)
        })
    };
    assert_eq!(grant(&mut w, "app").ok().map(|v| v.len()), Some(1));
    assert_eq!(w.permitted, vec![(CLIENT, RESOURCE)]);
    assert!(matches!(grant(&mut w, "other"), Err(ResourceManagementError::NotFound)));
    let listed = w.drive(|s, p, listed| s.list_for_client(&at(1), "app", p, listed));
    assert_eq!(listed.ok().map(|v| v.len()), Some(1));
    w.client_deleted = true;
    assert!(matches!(grant(&mut w, "app"), Err(ResourceManagementError::NotFound)));
    w.client_deleted = false;
    let left =
        w.drive(|s, p, listed| s.revoke(&at(1), "app", RESOURCE, &actor(), p, listed));
    assert_eq!(left.ok().map(|v| v.len()), Some(0));
    let all = w.drive(|s, _, listed| s.list(&at(1), listed));
    assert_eq!(all.ok().map(|v| v.len()), Some(1));
    assert!(matches!(
        registry()
            .list(&at(1), Some(Err(DomainError::Repository("down".to_string())))),
        ResourceStep::Done(Err(ResourceManagementError::Internal(m))) if m == "down"
    ));
}

// ---------------------------------------------------------------------------
// Notes, restarts, announcements

fn note(raw: &str, members: usize, log: &mut Vec<String>) -> Result<(), MemberNoteError> {
    let svc = MemberNoteService::new();
    let mut p = NoteProgress::default();
    loop {
        match svc.write(&at(1), TARGET, raw, &actor(), now(), &p) {
            NoteStep::Normalize { raw } => {
                p.text = Some(match raw.trim() {
                    "" => Ok(None),
                    t if t.len() > 20 => Err(MessageKey::new("api-note-too-long")),
                    t => Ok(Some(t.to_string())),
                });
            }
            NoteStep::FindMember(filter) => {
                assert_eq!(filter.user_id, Some(TARGET));
                assert_eq!(filter.limit, 1);
                p.members = Some(Ok(members));
            }
            NoteStep::Save { text, author, now: at, .. } => {
                assert_eq!(at, now());
                assert_eq!(author, Some(ACTOR));
                log.push(text);
                p.written = Some(Ok(()));
            }
            NoteStep::Clear { .. } => {
                log.push("-".to_string());
                p.written = Some(Ok(()));
            }
            NoteStep::Audit(a) => {
                log.push(a.reason.unwrap().text());
                p.audits += 1;
            }
            NoteStep::Done(r) => return r,
        }
    }
}

#[test]
fn notes_are_kept_on_members_and_their_text_is_not_audited() {
    let mut log = vec![];
    assert!(note(" hello ", 1, &mut log).is_ok());
    assert!(note("  ", 1, &mut log).is_ok());
    let who = "member=00000000-0000-0000-0000-000000000014";
    assert_eq!(log, ["hello", who, "-", &format!("{who} cleared")]);
    assert!(matches!(note("x", 0, &mut log), Err(MemberNoteError::NotFound)));
    assert!(matches!(
        note("a text that is far too long", 1, &mut log),
        Err(MemberNoteError::Invalid(_))
    ));
    assert_eq!(log.len(), 4);
}

#[test]
fn a_restart_is_on_record_before_it_happens() {
    let svc = ServiceRestartService::new();
    let RestartStep::Audit(a) = svc.request(&at(1), &actor(), "api", 0, false) else {
        panic!("must be recorded first");
    };
    assert_eq!(a.event, AuditEventType::ServiceRestartRequested);
    assert_eq!(a.reason.unwrap().text(), "api");
    assert!(matches!(
        svc.request(&at(1), &actor(), "api", 1, false),
        RestartStep::ScheduleRestart { after_millis: 500 }
    ));
    assert!(matches!(svc.request(&at(1), &actor(), "api", 1, true), RestartStep::Done));
}

fn told(client_id: &str, uri: Option<&str>, active: bool) -> Client {
    Client {
        id: Uuid { value: 1 },
        client_id: client_id.to_string(),
        app_name: client_id.to_string(),
        active,
        deleted: false,
        backchannel_logout_uri: uri.map(|u| u.to_string()),
        frontchannel_logout_uri: None,
        post_logout_redirect_uris: vec![],
    }
}

#[test]
fn every_client_that_can_be_told_is_told() {
    let svc = StopAnnouncementService::new();
    let t = TenantId { value: 1 };
    let subject = Uuid { value: 255 };
    assert!(matches!(
        svc.announce_all_sessions_ended(t, subject, &None, false),
        AnnounceStep::ListClients { .. }
    ));
    let clients = Some(Ok(vec![told("a", Some("https://a/out"), true), told("b", None, true)]));
    let AnnounceStep::Enqueue { subject: s, sid, notifications, .. } =
        svc.announce_all_sessions_ended(t, subject, &clients, false)
    else {
        panic!("must tell");
    };
    assert_eq!(s, "00000000-0000-0000-0000-0000000000ff");
    assert_eq!(sid, None);
    assert_eq!(notifications.len(), 1);
    assert!(matches!(
        svc.announce_all_sessions_ended(t, subject, &clients, true),
        AnnounceStep::Done
    ));
    assert!(matches!(
        svc.announce_all_sessions_ended(t, subject, &Some(Err("down".to_string())), false),
        AnnounceStep::Done
    ));
    assert!(matches!(
        svc.announce_all_sessions_ended(t, subject, &Some(Ok(vec![told("b", None, true)])), false),
        AnnounceStep::Done
    ));
}

// ---------------------------------------------------------------------------
// Partners of SAML

fn service_provider(name: &str) -> SamlServiceProvider {
    SamlServiceProvider {
        id: Uuid { value: 80 },
        tenant_id: TenantId { value: 1 },
        display_name: name.to_string(),
        entity_id: "urn:sp".to_string(),
        acs_url: "https://sp/acs".to_string(),
        name_id_format: "email".to_string(),
        x509_certificate: None,
        enabled: true,
    }
}

#[test]
fn service_providers_are_built_then_stored() {
    let svc = SamlServiceProviderManagementService::new();
    let cmd = RegisterSamlServiceProviderCommand {
        tenant_id: TenantId { value: 1 },
        display_name: "SP".to_string(),
        entity_id: "urn:sp".to_string(),
        acs_url: "https://sp/acs".to_string(),
        name_id_format: "email".to_string(),
        x509_certificate: None,
        enabled: true,
    };
    let id = Uuid { value: 80 };
    let mut p = ServiceProviderProgress::default();
    let ServiceProviderStep::Build { values, .. } = svc.register(&cmd, id, now(), &p) else {
        panic!("must build");
    };
    assert_eq!(values.acs_url, "https://sp/acs");
    p.built = Some(Err("bad url".to_string()));
    assert!(matches!(
        svc.register(&cmd, id, now(), &p),
        ServiceProviderStep::Done(Err(SamlServiceProviderManagementError::Validation(m)))
            if m == "bad url"
    ));
    p.built = Some(Ok(service_provider("SP")));
    assert!(matches!(svc.register(&cmd, id, now(), &p), ServiceProviderStep::Create { now: at, .. } if at == now()));
    p.saved = Some(Err(DomainError::Conflict("taken".to_string())));
    assert!(matches!(
        svc.register(&cmd, id, now(), &p),
        ServiceProviderStep::Done(Err(SamlServiceProviderManagementError::Conflict(_)))
    ));
    p.saved = Some(Ok(()));
    assert!(matches!(svc.register(&cmd, id, now(), &p), ServiceProviderStep::Done(Ok(_))));
    let own = TenantId { value: 1 };
    assert!(matches!(
        svc.delete(own, id, &None),
        ServiceProviderDeleteStep::Delete { tenant_id, id: which } if tenant_id == own && which == id
    ));
    assert!(matches!(svc.delete(own, id, &Some(Ok(true))), ServiceProviderDeleteStep::Done(Ok(()))));
    assert!(matches!(
        svc.delete(own, id, &Some(Ok(false))),
        ServiceProviderDeleteStep::Done(Err(SamlServiceProviderManagementError::NotFound))
    ));
    assert!(matches!(
        svc.delete(own, id, &Some(Err(DomainError::Repository("down".to_string())))),
        ServiceProviderDeleteStep::Done(Err(SamlServiceProviderManagementError::Internal(m)))
            if m == "down"
    ));
    assert!(matches!(
        svc.list(own, None),
        ServiceProviderListStep::ListForTenant { tenant_id } if tenant_id == own
    ));
    assert!(matches!(svc.list(own, Some(Ok(vec![]))), ServiceProviderListStep::Done(Ok(_))));
}

#[test]
fn a_service_provider_is_changed_where_it_is_found() {
    let svc = SamlServiceProviderManagementService::new();
    let cmd = UpdateSamlServiceProviderCommand {
        tenant_id: TenantId { value: 1 },
        id: Uuid { value: 80 },
        display_name: "New".to_string(),
        entity_id: "urn:sp".to_string(),
        acs_url: "https://sp/acs".to_string(),
        name_id_format: "email".to_string(),
        x509_certificate: None,
        enabled: false,
    };
    let mut p = ServiceProviderProgress::default();
    assert!(matches!(svc.update(&cmd, now(), &p), ServiceProviderStep::FindProvider { .. }));
    p.found = Some(Ok(None));
    assert!(matches!(
        svc.update(&cmd, now(), &p),
        ServiceProviderStep::Done(Err(SamlServiceProviderManagementError::NotFound))
    ));
    p.found = Some(Ok(Some(service_provider("Old"))));
    let ServiceProviderStep::Apply { provider, values, .. } = svc.update(&cmd, now(), &p) else {
        panic!("must apply");
    };
    assert_eq!((provider.display_name.as_str(), values.display_name.as_str()), ("Old", "New"));
    p.built = Some(Ok(service_provider("New")));
    assert!(matches!(svc.update(&cmd, now(), &p), ServiceProviderStep::Update { now: at, .. } if at == now()));
}

#[test]
fn identity_providers_are_built_then_stored() {
    let svc = SamlProviderManagementService::new();
    let cmd = RegisterSamlProviderCommand {
        tenant_id: TenantId { value: 1 },
        display_name: "IdP".to_string(),
        entity_id: "urn:idp".to_string(),
        sso_url: "https://idp/sso".to_string(),
        x509_certificate: "cert".to_string(),
        enabled: true,
    };
    let id = Uuid { value: 81 };
    assert!(matches!(
        svc.register(&cmd, id, now(), &None, &None),
        SamlProviderStep::Build { values, .. } if values.sso_url == "https://idp/sso"
    ));
    let built = Some(Ok(SamlIdentityProvider {
        id,
        tenant_id: TenantId { value: 1 },
        display_name: "IdP".to_string(),
        entity_id: "urn:idp".to_string(),
        sso_url: "https://idp/sso".to_string(),
        x509_certificate: "cert".to_string(),
        enabled: true,
    }));
    assert!(matches!(
        svc.register(&cmd, id, now(), &built, &None),
        SamlProviderStep::Create { now: at, .. } if at == now()
    ));
    assert!(matches!(
        svc.register(&cmd, id, now(), &built, &Some(Err(DomainError::Conflict("c".to_string())))),
        SamlProviderStep::Done(Err(SamlProviderManagementError::Conflict(_)))
    ));
    assert!(matches!(
        svc.register(&cmd, id, now(), &Some(Err("bad".to_string())), &None),
        SamlProviderStep::Done(Err(SamlProviderManagementError::Validation(_)))
    ));
    let own = TenantId { value: 1 };
    assert!(matches!(
        svc.list(own, None),
        SamlProviderListStep::ListForTenant { tenant_id } if tenant_id == own
    ));
    assert!(matches!(svc.list(own, Some(Ok(vec![]))), SamlProviderListStep::Done(Ok(_))));
    assert!(matches!(
        svc.list(own, Some(Err(DomainError::Repository("down".to_string())))),
        SamlProviderListStep::Done(Err(SamlProviderManagementError::Internal(_)))
    ));
}
