use idp_core::audit::AuditRecord;
use idp_core::mail::SmtpServerConfig;
use idp_core::model::{AdminActor, DomainError, TenantContext, TenantId, Uuid};
use idp_core::system_settings::{
    defines_own_route, smtp_view_from, OverridesStep, RouteProgress, RouteStep, RuntimeProgress, RuntimeStep, Setting,
    SettingDefinition, SettingWrite, SmsGatewayConfig, SmsSettingsView, SmsStep, SmtpSettingsView,
    SystemSettingsService, TenantSmtpView, UpdateProgress, UpdateSmsCommand, UpdateSmtpCommand,
    UpdateStep, ViewStep, SMTP_PASSWORD,
};

fn shown<V>(step: ViewStep<V>) -> V {
    match step {
        ViewStep::Done(Ok(view)) => view,
        _ => panic!("must be shown"),
    }
}

fn overrides(rows: Vec<Setting>, definition: fn(&str) -> Option<SettingDefinition>) -> Vec<Setting> {
    let mut stored = None;
    let mut definitions = vec![];
    loop {
        match svc().runtime_overrides(&stored, &definitions) {
            OverridesStep::LoadAll => {
                stored = Some(Ok(rows
                    .iter()
                    .map(|r| Setting { key: r.key.clone(), value: r.value.clone() })
                    .collect()))
            }
            OverridesStep::FindDefinition { key } => definitions.push(definition(&key)),
            OverridesStep::Done(r) => return r.ok().expect("rows"),
        }
    }
}

fn encrypt(text: &str) -> String {
    format!("sealed:{}", text.chars().rev().collect::<String>())
}

fn decrypt(stored: &str) -> Vec<u8> {
    stored["sealed:".len()..].chars().rev().collect::<String>().into_bytes()
}

struct Row {
    tenant: Option<TenantId>,
    key: String,
    value: String,
    is_secret: bool,
}

struct Fixture {
    rows: Vec<Row>,
    audits: Vec<AuditRecord>,
}

fn at(tenant: TenantId) -> TenantContext {
    TenantContext { tenant_id: tenant }
}

fn tenant() -> TenantId {
    TenantId { value: 0xA1 }
}

fn actor() -> AdminActor {
    AdminActor::User(Uuid { value: 9 })
}

fn svc() -> SystemSettingsService {
    SystemSettingsService::new([0x5a; 32])
}

fn fixture() -> Fixture {
    let mut f = Fixture { rows: vec![], audits: vec![] };
    f.update_smtp(UpdateSmtpCommand {
        host: "smtp.whole.example".to_string(),
        port: Some(587),
        username: "whole".to_string(),
        password: Some("whole-secret".to_string()),
        from_address: "noreply@whole.example".to_string(),
        use_tls: true,
    });
    f
}

fn command(host: &str, password: Option<&str>) -> UpdateSmtpCommand {
    UpdateSmtpCommand {
        host: host.to_string(),
        port: Some(25),
        username: "tenant".to_string(),
        password: password.map(|p| p.to_string()),
        from_address: "noreply@tenant.example".to_string(),
        use_tls: false,
    }
}

impl Fixture {
    fn of(&self, tenant: Option<TenantId>) -> Vec<Setting> {
        self.rows
            .iter()
            .filter(|r| r.tenant == tenant)
            .map(|r| Setting { key: r.key.clone(), value: r.value.clone() })
            .collect()
    }

    fn write(&mut self, tenant: Option<TenantId>, write: SettingWrite) {
        self.rows.retain(|r| r.tenant != tenant || r.key != write.key);
        if let Some(value) = write.value {
            self.rows.push(Row { tenant, key: write.key, value, is_secret: write.is_secret });
        }
    }

    fn perform<V>(&mut self, step: UpdateStep<V>, p: &mut UpdateProgress) -> Option<V> {
        match step {
            UpdateStep::LoadBefore { of } => p.before = Some(Ok(self.of(Some(of)))),
            UpdateStep::Write { tenant_id, write } => {
                self.write(tenant_id, write);
                p.writes.push(Ok(()));
            }
            UpdateStep::Encrypt { secret, key_encryption_key } => {
                assert_eq!(key_encryption_key, [0x5a; 32]);
                p.encrypted = Some(Ok(encrypt(&secret)));
            }
            UpdateStep::Audit(a) => {
                self.audits.push(a);
                p.audits += 1;
            }
            UpdateStep::Reload { tenant_id } => p.after = Some(Ok(self.of(tenant_id))),
            UpdateStep::Done(Ok(v)) => return Some(v),
            UpdateStep::Done(Err(_)) => panic!("must succeed"),
        }
        None
    }

    fn update_smtp(&mut self, cmd: UpdateSmtpCommand) -> SmtpSettingsView {
        let mut p = UpdateProgress::default();
        loop {
            let step = svc().update_smtp(&at(tenant()), &cmd, &actor(), &p);
            if let Some(v) = self.perform(step, &mut p) {
                return v;
            }
        }
    }

    fn update_tenant_smtp(&mut self, t: TenantId, cmd: UpdateSmtpCommand) -> TenantSmtpView {
        let mut p = UpdateProgress::default();
        loop {
            let step = svc().update_tenant_smtp(&at(t), &cmd, &actor(), &p);
            if let Some(v) = self.perform(step, &mut p) {
                return v;
            }
        }
    }

    fn clear_tenant_smtp(&mut self, t: TenantId) -> TenantSmtpView {
        let mut p = UpdateProgress::default();
        loop {
            let step = svc().clear_tenant_smtp(&at(t), &actor(), &p);
            if let Some(v) = self.perform(step, &mut p) {
                return v;
            }
        }
    }

    fn update_sms(&mut self, cmd: UpdateSmsCommand) -> SmsSettingsView {
        let mut p = UpdateProgress::default();
        loop {
            let step = svc().update_sms(&at(tenant()), &cmd, &actor(), &p);
            if let Some(v) = self.perform(step, &mut p) {
                return v;
            }
        }
    }

    fn smtp_server_for(&self, t: TenantId) -> Option<SmtpServerConfig> {
        let mut p = RouteProgress::default();
        loop {
            match svc().smtp_server_for(t, &p) {
                RouteStep::LoadTenant { tenant_id } => {
                    p.tenant_rows = Some(Ok(self.of(Some(tenant_id))));
                }
                RouteStep::LoadAll => p.rows = Some(Ok(self.of(None))),
                RouteStep::Decrypt { stored, key_encryption_key } => {
                    assert_eq!(key_encryption_key, [0x5a; 32]);
                    p.decrypted = Some(Ok(decrypt(&stored)));
                }
                RouteStep::Done(Ok(r)) => return r,
                RouteStep::Done(Err(_)) => panic!("must succeed"),
            }
        }
    }

    fn sms_gateway(&self) -> Option<SmsGatewayConfig> {
        let rows = Some(Ok(self.of(None)));
        let mut decrypted = None;
        loop {
            match svc().sms_gateway(&rows, &decrypted) {
                SmsStep::LoadAll => panic!("already loaded"),
                SmsStep::Decrypt { stored, key_encryption_key } => {
                    assert_eq!(key_encryption_key, [0x5a; 32]);
                    decrypted = Some(Ok(decrypt(&stored)));
                }
                SmsStep::Done(Ok(r)) => return r,
                SmsStep::Done(Err(_)) => panic!("must succeed"),
            }
        }
    }
}

#[test]
fn a_tenant_without_its_own_route_sends_through_the_whole_idp_route() {
    let f = fixture();
    let server = f.smtp_server_for(tenant()).unwrap();
    assert_eq!(server.host, "smtp.whole.example");
    assert_eq!(server.password, "whole-secret");
    assert_eq!(server.port, Some(587));
    assert!(server.use_tls);
    assert!(shown(svc().get_tenant_smtp(tenant(), &Some(Ok(f.of(Some(tenant())))))).inherited);
}

#[test]
fn a_tenant_route_is_used_as_a_whole() {
    let mut f = fixture();
    f.update_tenant_smtp(tenant(), command("smtp.tenant.example", Some("tenant-secret")));
    let server = f.smtp_server_for(tenant()).unwrap();
    assert_eq!(server.host, "smtp.tenant.example");
    assert_eq!(server.password, "tenant-secret");
    assert_eq!(server.from_address, "noreply@tenant.example");
    assert_eq!(server.port, Some(25));
    assert!(!server.use_tls);
}

#[test]
fn the_whole_idp_password_never_goes_to_a_tenant_server() {
    let mut f = fixture();
    f.update_tenant_smtp(tenant(), command("smtp.attacker.example", None));
    let server = f.smtp_server_for(tenant()).unwrap();
    assert_eq!(server.host, "smtp.attacker.example");
    assert_eq!(server.password, "");
    assert_eq!(server.username, "tenant");
}

#[test]
fn an_incomplete_tenant_route_does_not_fall_back_to_the_whole_idp() {
    let mut f = fixture();
    f.update_tenant_smtp(tenant(), command("", Some("tenant-secret")));
    assert!(f.smtp_server_for(tenant()).is_none());
}

#[test]
fn one_tenant_route_does_not_leak_into_another_tenant() {
    let mut f = fixture();
    f.update_tenant_smtp(tenant(), command("smtp.a.example", Some("a-secret")));
    let server = f.smtp_server_for(TenantId { value: 0xB2 }).unwrap();
    assert_eq!(server.host, "smtp.whole.example");
}

#[test]
fn the_tenant_password_is_stored_encrypted_and_never_shown() {
    let mut f = fixture();
    let view =
        f.update_tenant_smtp(tenant(), command("smtp.tenant.example", Some("tenant-secret")));
    assert!(view.settings.password_set);
    assert!(!view.inherited);
    let stored = f
        .rows
        .iter()
        .find(|r| r.tenant == Some(tenant()) && r.key == SMTP_PASSWORD)
        .unwrap();
    assert!(stored.is_secret);
    assert_ne!(stored.value, "tenant-secret");
}

#[test]
fn saving_an_empty_form_returns_the_tenant_to_the_whole_idp_route() {
    let mut f = fixture();
    f.update_tenant_smtp(tenant(), command("smtp.tenant.example", Some("tenant-secret")));
    let empty = UpdateSmtpCommand {
        host: String::new(),
        port: None,
        username: String::new(),
        password: Some(String::new()),
        from_address: String::new(),
        use_tls: false,
    };
    let view = f.update_tenant_smtp(tenant(), empty);
    assert!(view.inherited);
    assert!(f.of(Some(tenant())).is_empty());
    assert_eq!(f.smtp_server_for(tenant()).unwrap().host, "smtp.whole.example");
}

#[test]
fn clearing_returns_the_tenant_to_the_whole_idp_route() {
    let mut f = fixture();
    f.update_tenant_smtp(tenant(), command("smtp.tenant.example", Some("tenant-secret")));
    let view = f.clear_tenant_smtp(tenant());
    assert!(view.inherited);
    assert_eq!(f.smtp_server_for(tenant()).unwrap().host, "smtp.whole.example");
    let last = f.audits.last().unwrap();
    assert_eq!(last.reason.as_ref().unwrap().text(), "smtp cleared");
    assert_eq!(last.user_id, Some(Uuid { value: 9 }));
}

#[test]
fn a_password_that_is_not_sent_stays_as_it_is() {
    let mut f = fixture();
    f.update_tenant_smtp(tenant(), command("smtp.tenant.example", Some("tenant-secret")));
    let mut quiet = command("", None);
    quiet.username = String::new();
    quiet.from_address = " ".to_string();
    // The stored password alone keeps the tenant's own route.
    assert!(!f.update_tenant_smtp(tenant(), quiet).inherited);
    f.update_tenant_smtp(tenant(), command(" smtp.tenant.example ", None));
    let server = f.smtp_server_for(tenant()).unwrap();
    assert_eq!((server.host.as_str(), server.password.as_str()), ("smtp.tenant.example", "tenant-secret"));
    let view = f.update_tenant_smtp(tenant(), command("smtp.tenant.example", Some("")));
    assert!(!view.settings.password_set);
}

#[test]
fn the_providers_own_route_is_shown_without_its_password() {
    let mut f = fixture();
    let view = shown(svc().get_smtp(&Some(Ok(f.of(None)))));
    assert_eq!(view.host, "smtp.whole.example");
    assert_eq!(view.port, Some(587));
    assert!(view.password_set && view.use_tls);
    let mut cmd = command("h", Some(""));
    cmd.port = None;
    let view = f.update_smtp(cmd);
    assert!(!view.password_set);
    assert_eq!(view.port, None);
    assert_eq!(f.audits.last().unwrap().reason.as_ref().unwrap().text(), "smtp");
}

#[test]
fn ports_and_flags_are_read_strictly() {
    let row = |key: &str, value: &str| Setting { key: key.to_string(), value: value.to_string() };
    let view = smtp_view_from(&vec![row("smtp.port", "65536"), row("smtp.use_tls", "TRUE")]);
    assert_eq!(view.port, None);
    assert!(!view.use_tls);
    let view = smtp_view_from(&vec![row("smtp.port", "+65535"), row("smtp.use_tls", "true")]);
    assert_eq!(view.port, Some(65535));
    assert!(view.use_tls);
    assert!(!defines_own_route(&vec![row("smtp.host", "")]));
    assert!(defines_own_route(&vec![row("smtp.host", "h")]));
}

#[test]
fn a_password_that_is_no_text_is_an_error() {
    let rows = vec![
        Setting { key: "smtp.host".to_string(), value: "h".to_string() },
        Setting { key: "smtp.from_address".to_string(), value: "f".to_string() },
        Setting { key: "smtp.password".to_string(), value: "sealed".to_string() },
    ];
    assert!(matches!(
        svc().smtp_server_from(&rows, &None),
        RouteStep::Decrypt { stored, .. } if stored == "sealed"
    ));
    assert!(matches!(
        svc().smtp_server_from(&rows, &Some(Ok(vec![0xff]))),
        RouteStep::Done(Err(DomainError::Repository(m))) if m == "smtp password is not UTF-8"
    ));
    assert!(matches!(
        svc().smtp_server_from(&rows, &Some(Err("bad key".to_string()))),
        RouteStep::Done(Err(DomainError::Repository(m))) if m == "smtp password decrypt: bad key"
    ));
}

#[test]
fn text_messages_have_one_gateway() {
    let mut f = fixture();
    assert!(f.sms_gateway().is_none());
    let view = f.update_sms(UpdateSmsCommand {
        gateway_url: " https://sms.example ".to_string(),
        auth_header: "Authorization".to_string(),
        auth_token: Some("token".to_string()),
        sender_id: " IDP".to_string(),
    });
    assert!(view.auth_token_set);
    assert_eq!(view.gateway_url, "https://sms.example");
    let gateway = f.sms_gateway().unwrap();
    assert_eq!(gateway.auth_token, "token");
    assert_eq!(gateway.sender_id, "IDP");
    assert_eq!(shown(svc().get_sms(&Some(Ok(f.of(None))))).auth_header, "Authorization");
}

const PLAIN: SettingDefinition = SettingDefinition { db_managed: true, secret: false };

fn update_runtime(
    definition: Option<SettingDefinition>,
    value: Option<&str>,
    valid: Result<(), String>,
    bootable: Result<(), String>,
    written: &mut Vec<Option<String>>,
) -> Result<(), DomainError> {
    let key = "PASSWORD_MIN_LENGTH".to_string();
    let value = value.map(|v| v.to_string());
    let mut p = RuntimeProgress::default();
    loop {
        match svc().update_runtime_setting(&at(tenant()), &key, &value, &actor(), &p) {
            RuntimeStep::FindDefinition { key } => {
                assert_eq!(key, "PASSWORD_MIN_LENGTH");
                p.definition = Some(definition);
            }
            RuntimeStep::Validate { value, .. } => {
                assert_eq!(value, "12");
                p.valid = Some(valid.clone());
            }
            RuntimeStep::CheckBootable { .. } => p.bootable = Some(bootable.clone()),
            RuntimeStep::Write(w) => {
                written.push(w.value);
                p.written = Some(Ok(()));
            }
            RuntimeStep::Audit(a) => {
                assert!(a.reason.unwrap().text().contains("PASSWORD_MIN_LENGTH"));
                p.audits += 1;
            }
            RuntimeStep::Done(r) => return r,
        }
    }
}

#[test]
fn runtime_settings_are_checked_before_they_are_stored() {
    let mut w = vec![];
    assert!(update_runtime(Some(PLAIN), Some(" 12 "), Ok(()), Ok(()), &mut w).is_ok());
    assert!(update_runtime(Some(PLAIN), None, Ok(()), Ok(()), &mut w).is_ok());
    assert_eq!(w, vec![Some("12".to_string()), Some(String::new())]);
    assert!(matches!(
        update_runtime(None, Some("12"), Ok(()), Ok(()), &mut w),
        Err(DomainError::InvalidValue(m)) if m == "unknown runtime setting key: PASSWORD_MIN_LENGTH"
    ));
    let secret = SettingDefinition { secret: true, ..PLAIN };
    assert!(matches!(
        update_runtime(Some(secret), Some("12"), Ok(()), Ok(()), &mut w),
        Err(DomainError::InvalidValue(m)) if m == "setting PASSWORD_MIN_LENGTH is not DB-managed"
    ));
    assert!(matches!(
        update_runtime(Some(PLAIN), Some("12"), Err("no".to_string()), Ok(()), &mut w),
        Err(DomainError::InvalidValue(m)) if m == "no"
    ));
    assert!(matches!(
        update_runtime(Some(PLAIN), Some("12"), Ok(()), Err("stuck".to_string()), &mut w),
        Err(DomainError::Conflict(m)) if m == "stuck"
    ));
    assert_eq!(w.len(), 2);
}

#[test]
fn overrides_are_the_known_public_values() {
    let row = |key: &str, value: &str| Setting { key: key.to_string(), value: value.to_string() };
    let rows = vec![row("a", "1"), row("b", ""), row("c", "3"), row("d", "4")];
    let out = overrides(rows, |key| match key {
        "a" | "b" => Some(PLAIN),
        "c" => Some(SettingDefinition { secret: true, ..PLAIN }),
        _ => None,
    });
    assert_eq!(out.len(), 1);
    assert_eq!((out[0].key.as_str(), out[0].value.as_str()), ("a", "1"));
    // Of several rows of a key the last counts, also where it is empty.
    let rows = vec![row("a", "1"), row("b", "2"), row("a", "3"), row("b", "")];
    let out = overrides(rows, |_| Some(PLAIN));
    assert_eq!(out.len(), 1);
    assert_eq!((out[0].key.as_str(), out[0].value.as_str()), ("a", "3"));
}

#[test]
fn what_is_shown_is_read_first() {
    assert!(matches!(svc().get_smtp(&None), ViewStep::LoadAll));
    assert!(matches!(svc().get_sms(&None), ViewStep::LoadAll));
    assert!(matches!(
        svc().get_tenant_smtp(tenant(), &None),
        ViewStep::LoadTenant { tenant_id } if tenant_id == tenant()
    ));
    let down = Some(Err(DomainError::Repository("down".to_string())));
    assert!(matches!(
        svc().get_tenant_smtp(tenant(), &down),
        ViewStep::Done(Err(DomainError::Repository(m))) if m == "down"
    ));
    assert!(matches!(svc().get_smtp(&down), ViewStep::Done(Err(_))));
    assert!(matches!(svc().get_sms(&down), ViewStep::Done(Err(_))));
    assert!(matches!(svc().runtime_overrides(&down, &vec![]), OverridesStep::Done(Err(_))));
}
