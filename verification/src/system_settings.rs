//! Settings of the whole provider and of its tenants: mail, text messages, and runtime values.
//!
//! A tenant's mail route is a block. Either the tenant has a route of its own, and then every part
//! of it is the tenant's, or it has none, and then every part is the provider's: no part of one is
//! ever filled in from the other, so that the provider's password never reaches a tenant's server.
use crate::audit::{
    admin_audit, admin_entry, AuditEventType, AuditReason, AuditRecord, AuditResult,
};
use crate::crypto::utf8_text;
use crate::mail::SmtpServerConfig;
use crate::model::{AdminActor, DomainError, Reply, Stored, TenantContext, TenantId};
use crate::text::{
    int_within, join2, nat_text, nat_text_reads_back, parse_u16, same, trim, trimmed, u16_value,
    u64_text,
};
use vstd::prelude::*;

verus! {

pub const SMTP_HOST: &'static str = "smtp.host";

pub const SMTP_PORT: &'static str = "smtp.port";

pub const SMTP_USERNAME: &'static str = "smtp.username";

pub const SMTP_PASSWORD: &'static str = "smtp.password";

pub const SMTP_FROM_ADDRESS: &'static str = "smtp.from_address";

pub const SMTP_USE_TLS: &'static str = "smtp.use_tls";

pub const SMS_GATEWAY_URL: &'static str = "sms.gateway_url";

pub const SMS_AUTH_HEADER: &'static str = "sms.auth_header";

pub const SMS_AUTH_TOKEN: &'static str = "sms.auth_token";

pub const SMS_SENDER_ID: &'static str = "sms.sender_id";

/// One stored setting.
pub struct Setting {
    pub key: String,
    pub value: String,
}

pub struct SmtpSettingsView {
    pub host: String,
    pub port: Option<u16>,
    pub username: String,
    pub password_set: bool,
    pub from_address: String,
    pub use_tls: bool,
}

/// A tenant's mail route as it is shown.
pub struct TenantSmtpView {
    pub settings: SmtpSettingsView,
    /// Whether the tenant sends through the provider's route.
    pub inherited: bool,
}

pub struct UpdateSmtpCommand {
    pub host: String,
    pub port: Option<u16>,
    pub username: String,
    /// None keeps the password, an empty one removes it.
    pub password: Option<String>,
    pub from_address: String,
    pub use_tls: bool,
}

pub struct SmsSettingsView {
    pub gateway_url: String,
    pub auth_header: String,
    pub auth_token_set: bool,
    pub sender_id: String,
}

pub struct UpdateSmsCommand {
    pub gateway_url: String,
    pub auth_header: String,
    /// None keeps the token, an empty one removes it.
    pub auth_token: Option<String>,
    pub sender_id: String,
}

pub struct SmsGatewayConfig {
    pub endpoint_url: String,
    pub auth_header: String,
    pub auth_token: String,
    pub sender_id: String,
}

/// What is known of a runtime setting: who manages it, and whether it is a secret.
#[derive(Clone, Copy, Debug, PartialEq, Eq, Structural)]
pub struct SettingDefinition {
    pub db_managed: bool,
    pub secret: bool,
}

/// One write to the store; without a value, a removal.
pub struct SettingWrite {
    pub key: String,
    pub value: Option<String>,
    pub is_secret: bool,
}

/// What is known of a mail route so far.
#[derive(Default)]
pub struct RouteProgress {
    pub tenant_rows: Stored<Vec<Setting>>,
    pub rows: Stored<Vec<Setting>>,
    pub decrypted: Reply<Vec<u8>>,
}

pub enum RouteStep {
    LoadTenant { tenant_id: TenantId },
    LoadAll,
    Decrypt { stored: String, key_encryption_key: [u8; 32] },
    Done(Result<Option<SmtpServerConfig>, DomainError>),
}

/// What comes next in showing what is set.
pub enum ViewStep<V> {
    LoadTenant { tenant_id: TenantId },
    LoadAll,
    Done(Result<V, DomainError>),
}

/// What comes next in showing the overridden runtime settings.
pub enum OverridesStep {
    LoadAll,
    FindDefinition { key: String },
    Done(Result<Vec<Setting>, DomainError>),
}

pub enum SmsStep {
    LoadAll,
    Decrypt { stored: String, key_encryption_key: [u8; 32] },
    Done(Result<Option<SmsGatewayConfig>, DomainError>),
}

/// What is known of an update so far.
#[derive(Default)]
pub struct UpdateProgress {
    /// The tenant's rows before the update.
    pub before: Stored<Vec<Setting>>,
    /// What came of each write, in their order.
    pub writes: Vec<Result<(), DomainError>>,
    pub encrypted: Reply<String>,
    pub audits: usize,
    /// The rows after the update.
    pub after: Stored<Vec<Setting>>,
}

pub enum UpdateStep<V> {
    LoadBefore { of: TenantId },
    /// A write to the tenant's rows, or to the provider's where there is no tenant.
    Write { tenant_id: Option<TenantId>, write: SettingWrite },
    Encrypt { secret: String, key_encryption_key: [u8; 32] },
    Audit(AuditRecord),
    /// Reads the tenant's rows again, or the provider's.
    Reload { tenant_id: Option<TenantId> },
    Done(Result<V, DomainError>),
}

/// What is known of a runtime setting's update so far.
#[derive(Default)]
pub struct RuntimeProgress {
    pub definition: Option<Option<SettingDefinition>>,
    pub valid: Reply<()>,
    pub bootable: Reply<()>,
    pub written: Stored<()>,
    pub audits: usize,
}

pub enum RuntimeStep {
    FindDefinition { key: String },
    Validate { key: String, value: String },
    CheckBootable { key: String, value: String },
    Write(SettingWrite),
    Audit(AuditRecord),
    Done(Result<(), DomainError>),
}

pub struct SystemSettingsService {
    /// The key under which secrets are stored.
    pub key_encryption_key: [u8; 32],
}

// ---------------------------------------------------------------------------
// Rows

/// The value under a key: that of the last row with it.
pub open spec fn value_of(rows: Seq<Setting>, key: Seq<char>) -> Option<Seq<char>>
    decreases rows.len(),
{
    if rows.len() == 0 {
        None
    } else if rows.last().key@ == key {
        Some(rows.last().value@)
    } else {
        value_of(rows.drop_last(), key)
    }
}

/// The value under a key, empty where there is none.
pub open spec fn text_at(rows: Seq<Setting>, key: Seq<char>) -> Seq<char> {
    match value_of(rows, key) {
        Some(v) => v,
        None => Seq::empty(),
    }
}

fn find(rows: &Vec<Setting>, key: &str) -> (r: Option<String>)
    ensures
        crate::text::opt_view(r) == value_of(rows@, key@),
{
    let mut i: usize = rows.len();
    proof {
        assert(rows@.subrange(0, rows@.len() as int) =~= rows@);
    }
    while i > 0
        invariant
            i <= rows.len(),
            value_of(rows@, key@) == value_of(rows@.subrange(0, i as int), key@),
        decreases i,
    {
        proof {
            let upto = rows@.subrange(0, i as int);
            assert(upto.last() == rows@[i - 1]);
            assert(upto.drop_last() =~= rows@.subrange(0, i - 1));
        }
        if same(rows[i - 1].key.as_str(), key) {
            return Some(rows[i - 1].value.clone());
        }
        i = i - 1;
    }
    None
}

fn find_text(rows: &Vec<Setting>, key: &str) -> (r: String)
    ensures
        r@ == text_at(rows@, key@),
{
    match find(rows, key) {
        Some(v) => v,
        None => {
            let empty: String = String::new();
            empty
        },
    }
}

fn is_set(rows: &Vec<Setting>, key: &str) -> (r: bool)
    ensures
        r == (text_at(rows@, key@).len() > 0),
{
    let v: String = find_text(rows, key);
    !v.as_str().is_empty()
}

/// The keys that make up a mail route.
pub open spec fn is_smtp_key(key: Seq<char>) -> bool {
    key == SMTP_HOST@ || key == SMTP_PORT@ || key == SMTP_USERNAME@ || key == SMTP_PASSWORD@ || key
        == SMTP_FROM_ADDRESS@ || key == SMTP_USE_TLS@
}

/// The rows of a tenant's route that hold anything.
pub open spec fn route_rows(rows: Seq<Setting>) -> Seq<Setting>
    decreases rows.len(),
{
    if rows.len() == 0 {
        Seq::empty()
    } else {
        let rest = route_rows(rows.drop_last());
        if is_smtp_key(rows.last().key@) && rows.last().value@.len() > 0 {
            rest.push(rows.last())
        } else {
            rest
        }
    }
}

/// Whether a tenant has a route of its own: any of its defining parts, to which port and encryption
/// do not belong.
pub open spec fn own_route(rows: Seq<Setting>) -> bool {
    text_at(rows, SMTP_HOST@).len() > 0 || text_at(rows, SMTP_USERNAME@).len() > 0 || text_at(
        rows,
        SMTP_PASSWORD@,
    ).len() > 0 || text_at(rows, SMTP_FROM_ADDRESS@).len() > 0
}

/// Whether rows define a route of their own.
pub fn defines_own_route(rows: &Vec<Setting>) -> (r: bool)
    ensures
        r == own_route(rows@),
{
    is_set(rows, SMTP_HOST) || is_set(rows, SMTP_USERNAME) || is_set(rows, SMTP_PASSWORD) || is_set(
        rows,
        SMTP_FROM_ADDRESS,
    )
}

/// The port that rows hold.
pub open spec fn port_at(rows: Seq<Setting>) -> Option<u16> {
    match value_of(rows, SMTP_PORT@) {
        Some(v) => u16_value(v),
        None => None,
    }
}

fn find_port(rows: &Vec<Setting>) -> (r: Option<u16>)
    ensures
        r == port_at(rows@),
{
    match find(rows, SMTP_PORT) {
        Some(v) => parse_u16(v.as_str()),
        None => None,
    }
}

fn find_flag(rows: &Vec<Setting>, key: &str) -> (r: bool)
    ensures
        r == (value_of(rows@, key@) == Some("true"@)),
{
    match find(rows, key) {
        Some(v) => same(v.as_str(), "true"),
        None => false,
    }
}

/// What is shown of a mail route: all but the password, of which only whether there is one.
pub open spec fn shows_smtp(v: SmtpSettingsView, rows: Seq<Setting>) -> bool {
    &&& v.host@ == text_at(rows, SMTP_HOST@)
    &&& v.port == port_at(rows)
    &&& v.username@ == text_at(rows, SMTP_USERNAME@)
    &&& v.password_set == (text_at(rows, SMTP_PASSWORD@).len() > 0)
    &&& v.from_address@ == text_at(rows, SMTP_FROM_ADDRESS@)
    &&& v.use_tls == (value_of(rows, SMTP_USE_TLS@) == Some("true"@))
}

/// Nothing at all.
pub open spec fn shows_nothing(v: SmtpSettingsView) -> bool {
    v.host@.len() == 0 && v.port is None && v.username@.len() == 0 && !v.password_set
        && v.from_address@.len() == 0 && !v.use_tls
}

/// Makes what is shown of a mail route.
pub fn smtp_view_from(rows: &Vec<Setting>) -> (r: SmtpSettingsView)
    ensures
        shows_smtp(r, rows@),
{
    SmtpSettingsView {
        host: find_text(rows, SMTP_HOST),
        port: find_port(rows),
        username: find_text(rows, SMTP_USERNAME),
        password_set: is_set(rows, SMTP_PASSWORD),
        from_address: find_text(rows, SMTP_FROM_ADDRESS),
        use_tls: find_flag(rows, SMTP_USE_TLS),
    }
}

/// What is shown of a tenant's route.
pub open spec fn shows_tenant_smtp(v: TenantSmtpView, rows: Seq<Setting>) -> bool {
    let route = route_rows(rows);
    if own_route(route) {
        !v.inherited && shows_smtp(v.settings, route)
    } else {
        v.inherited && shows_nothing(v.settings)
    }
}

pub open spec fn shows_sms(v: SmsSettingsView, rows: Seq<Setting>) -> bool {
    &&& v.gateway_url@ == text_at(rows, SMS_GATEWAY_URL@)
    &&& v.auth_header@ == text_at(rows, SMS_AUTH_HEADER@)
    &&& v.auth_token_set == (text_at(rows, SMS_AUTH_TOKEN@).len() > 0)
    &&& v.sender_id@ == text_at(rows, SMS_SENDER_ID@)
}

fn repository(prefix: &str, e: &String) -> (r: DomainError)
    ensures
        r matches DomainError::Repository(m) && m@ == prefix@ + e@,
{
    DomainError::Repository(join2(prefix, e.as_str()))
}

// ---------------------------------------------------------------------------
// Writes

/// A write as it is planned.
pub ghost struct Planned {
    pub key: Seq<char>,
    pub value: Option<Seq<char>>,
    pub is_secret: bool,
}

pub open spec fn planned(w: SettingWrite) -> Planned {
    Planned { key: w.key@, value: crate::text::opt_view(w.value), is_secret: w.is_secret }
}

pub open spec fn sets(key: Seq<char>, value: Seq<char>) -> Planned {
    Planned { key, value: Some(value), is_secret: false }
}

pub open spec fn removes(key: Seq<char>) -> Planned {
    Planned { key, value: None, is_secret: false }
}

pub open spec fn sets_secret(key: Seq<char>, value: Seq<char>) -> Planned {
    Planned { key, value: Some(value), is_secret: true }
}

/// The writes are made in their order, and the first that fails ends it: none where all are made.
pub open spec fn write_rule<V>(
    tenant_id: Option<TenantId>,
    plan: Seq<Planned>,
    writes: Seq<Result<(), DomainError>>,
    i: int,
    r: Option<UpdateStep<V>>,
) -> bool
    decreases plan.len() - i,
{
    if i < 0 || i >= plan.len() {
        r is None
    } else if i >= writes.len() {
        r matches Some(UpdateStep::Write { tenant_id: t, write }) && t == tenant_id && planned(write)
            == plan[i]
    } else {
        match writes[i] {
            Err(e) => r == Some(UpdateStep::<V>::Done(Err(e))),
            Ok(_) => write_rule(tenant_id, plan, writes, i + 1, r),
        }
    }
}

fn put(key: &str, value: String) -> (r: SettingWrite)
    ensures
        planned(r) == sets(key@, value@),
{
    SettingWrite { key: key.to_owned(), value: Some(value), is_secret: false }
}

fn remove(key: &str) -> (r: SettingWrite)
    ensures
        planned(r) == removes(key@),
{
    SettingWrite { key: key.to_owned(), value: None, is_secret: false }
}

fn put_secret(key: &str, value: String) -> (r: SettingWrite)
    ensures
        planned(r) == sets_secret(key@, value@),
{
    SettingWrite { key: key.to_owned(), value: Some(value), is_secret: true }
}

pub open spec fn plan_of(plan: Seq<SettingWrite>) -> Seq<Planned> {
    plan.map_values(|w: SettingWrite| planned(w))
}

fn next_write<V>(
    tenant_id: Option<TenantId>,
    plan: &Vec<SettingWrite>,
    writes: &Vec<Result<(), DomainError>>,
) -> (r: Option<UpdateStep<V>>)
    ensures
        write_rule(tenant_id, plan_of(plan@), writes@, 0, r),
{
    let ghost view = plan_of(plan@);
    let mut i: usize = 0;
    while i < plan.len()
        invariant
            i <= plan.len(),
            view == plan_of(plan@),
            forall|s: Option<UpdateStep<V>>| #[trigger]
                write_rule(tenant_id, view, writes@, i as int, s) ==> write_rule(
                    tenant_id,
                    view,
                    writes@,
                    0,
                    s,
                ),
        decreases plan.len() - i,
    {
        let ghost at = i as int;
        proof {
            assert(view[at] == planned(plan@[at]));
        }
        if i >= writes.len() {
            let write = SettingWrite {
                key: plan[i].key.clone(),
                value: plan[i].value.clone(),
                is_secret: plan[i].is_secret,
            };
            let step: Option<UpdateStep<V>> = Some(UpdateStep::Write { tenant_id, write });
            assert(write_rule(tenant_id, view, writes@, at, step));
            return step;
        }
        if let Err(e) = &writes[i] {
            let step: Option<UpdateStep<V>> = Some(UpdateStep::Done(Err(e.clone())));
            assert(write_rule(tenant_id, view, writes@, at, step));
            return step;
        }
        proof {
            assert forall|s: Option<UpdateStep<V>>| #[trigger]
                write_rule(tenant_id, view, writes@, at + 1, s) implies write_rule(
                tenant_id,
                view,
                writes@,
                0,
                s,
            ) by {
                assert(write_rule(tenant_id, view, writes@, at, s));
            }
        }
        i = i + 1;
    }
    let step: Option<UpdateStep<V>> = None;
    assert(write_rule(tenant_id, view, writes@, i as int, step));
    step
}

/// A port as it is stored.
pub open spec fn port_text(port: Option<u16>) -> Seq<char> {
    match port {
        Some(p) => nat_text(p as nat),
        None => Seq::empty(),
    }
}

fn port_string(port: Option<u16>) -> (r: String)
    ensures
        r@ == port_text(port),
{
    match port {
        Some(p) => u64_text(p as u64),
        None => String::new(),
    }
}

/// A flag as it is stored.
pub open spec fn flag_text(flag: bool) -> Seq<char> {
    if flag {
        "true"@
    } else {
        "false"@
    }
}

fn flag_string(flag: bool) -> (r: String)
    ensures
        r@ == flag_text(flag),
{
    if flag {
        "true".to_owned()
    } else {
        "false".to_owned()
    }
}

/// What comes next in showing a tenant's route.
pub open spec fn tenant_view_rule(
    tenant_id: TenantId,
    rows: Stored<Vec<Setting>>,
    r: ViewStep<TenantSmtpView>,
) -> bool {
    match rows {
        None => r == (ViewStep::<TenantSmtpView>::LoadTenant { tenant_id }),
        Some(Err(e)) => r == ViewStep::<TenantSmtpView>::Done(Err(e)),
        Some(Ok(rows)) => r matches ViewStep::Done(Ok(v)) && shows_tenant_smtp(v, rows@),
    }
}

/// What comes next in showing the provider's route.
pub open spec fn smtp_view_rule(rows: Stored<Vec<Setting>>, r: ViewStep<SmtpSettingsView>) -> bool {
    match rows {
        None => r == ViewStep::<SmtpSettingsView>::LoadAll,
        Some(Err(e)) => r == ViewStep::<SmtpSettingsView>::Done(Err(e)),
        Some(Ok(rows)) => r matches ViewStep::Done(Ok(v)) && shows_smtp(v, rows@),
    }
}

/// What comes next in showing the text message gateway.
pub open spec fn sms_view_rule(rows: Stored<Vec<Setting>>, r: ViewStep<SmsSettingsView>) -> bool {
    match rows {
        None => r == ViewStep::<SmsSettingsView>::LoadAll,
        Some(Err(e)) => r == ViewStep::<SmsSettingsView>::Done(Err(e)),
        Some(Ok(rows)) => r matches ViewStep::Done(Ok(v)) && shows_sms(v, rows@),
    }
}

/// What comes next in an update of the provider's route.
pub open spec fn update_smtp_rule(
    svc: SystemSettingsService,
    tenant_id: TenantId,
    cmd: UpdateSmtpCommand,
    actor: AdminActor,
    p: UpdateProgress,
    r: UpdateStep<SmtpSettingsView>,
) -> bool {
    svc.global_rule(
        SystemSettingsService::smtp_plan(cmd),
        SMTP_PASSWORD@,
        cmd.password,
        "smtp password encrypt: "@,
        tenant_id,
        actor,
        "smtp"@,
        |v: SmtpSettingsView, rows: Seq<Setting>| shows_smtp(v, rows),
        p,
        r,
    )
}

/// What comes next in an update of the text message gateway.
pub open spec fn update_sms_rule(
    svc: SystemSettingsService,
    tenant_id: TenantId,
    cmd: UpdateSmsCommand,
    actor: AdminActor,
    p: UpdateProgress,
    r: UpdateStep<SmsSettingsView>,
) -> bool {
    svc.global_rule(
        SystemSettingsService::sms_plan(cmd),
        SMS_AUTH_TOKEN@,
        cmd.auth_token,
        "sms token encrypt: "@,
        tenant_id,
        actor,
        "sms"@,
        |v: SmsSettingsView, rows: Seq<Setting>| shows_sms(v, rows),
        p,
        r,
    )
}

/// What comes of the rows of the text message gateway.
pub open spec fn gateway_rule(
    svc: SystemSettingsService,
    rows: Stored<Vec<Setting>>,
    decrypted: Reply<Vec<u8>>,
    r: SmsStep,
) -> bool {
    match rows {
        None => r == SmsStep::LoadAll,
        Some(Err(e)) => r == SmsStep::Done(Err(e)),
        Some(Ok(rs)) => if trimmed(text_at(rs@, SMS_GATEWAY_URL@)).len() == 0 {
            r == SmsStep::Done(Ok(None))
        } else if text_at(rs@, SMS_AUTH_TOKEN@).len() == 0 {
            r matches SmsStep::Done(Ok(Some(c))) && SystemSettingsService::is_gateway(c, rs@)
                && c.auth_token@.len() == 0
        } else {
            match decrypted {
                None => r matches SmsStep::Decrypt { stored, key_encryption_key } && stored@
                    == text_at(rs@, SMS_AUTH_TOKEN@) && key_encryption_key
                    == svc.key_encryption_key,
                Some(Err(e)) => r matches SmsStep::Done(Err(DomainError::Repository(m)))
                    && m@ == "sms token decrypt: "@ + e@,
                Some(Ok(bytes)) => match r {
                    SmsStep::Done(Ok(Some(c))) => SystemSettingsService::is_gateway(c, rs@)
                        && vstd::utf8::encode_utf8(c.auth_token@) == bytes@,
                    SmsStep::Done(Err(DomainError::Repository(m))) => !vstd::utf8::valid_utf8(
                        bytes@,
                    ) && m@ == "sms token is not UTF-8"@,
                    _ => false,
                },
            }
        },
    }
}

/// What comes next in showing the rows that override a runtime setting.
pub open spec fn overrides_rule(
    rows: Stored<Vec<Setting>>,
    definitions: Seq<Option<SettingDefinition>>,
    r: OverridesStep,
) -> bool {
    match rows {
        None => r == OverridesStep::LoadAll,
        Some(Err(e)) => r == OverridesStep::Done(Err(e)),
        Some(Ok(rows)) => if definitions.len() < rows@.len() {
            r == (OverridesStep::FindDefinition { key: rows@[definitions.len() as int].key })
        } else {
            r matches OverridesStep::Done(Ok(out)) && out@ == SystemSettingsService::overrides(
                rows@,
                definitions,
            )
        },
    }
}

impl SystemSettingsService {
    pub fn new(key_encryption_key: [u8; 32]) -> (r: Self)
        ensures
            r.key_encryption_key == key_encryption_key,
    {
        SystemSettingsService { key_encryption_key }
    }

    /// The rows of a tenant's route that hold anything.
    pub fn tenant_smtp_map(&self, rows: &Vec<Setting>) -> (r: Vec<Setting>)
        ensures
            r@ == route_rows(rows@),
    {
        let mut out: Vec<Setting> = Vec::new();
        let mut i: usize = 0;
        proof {
            assert(rows@.subrange(0, 0) =~= Seq::<Setting>::empty());
        }
        while i < rows.len()
            invariant
                i <= rows.len(),
                out@ == route_rows(rows@.subrange(0, i as int)),
            decreases rows.len() - i,
        {
            proof {
                let upto = rows@.subrange(0, i + 1);
                assert(upto.drop_last() =~= rows@.subrange(0, i as int));
                assert(upto.last() == rows@[i as int]);
            }
            let key: &str = rows[i].key.as_str();
            let known: bool = same(key, SMTP_HOST) || same(key, SMTP_PORT) || same(
                key,
                SMTP_USERNAME,
            ) || same(key, SMTP_PASSWORD) || same(key, SMTP_FROM_ADDRESS) || same(key, SMTP_USE_TLS);
            if known && !rows[i].value.as_str().is_empty() {
                out.push(Setting { key: rows[i].key.clone(), value: rows[i].value.clone() });
            }
            i = i + 1;
        }
        proof {
            assert(rows@.subrange(0, rows.len() as int) =~= rows@);
        }
        out
    }

    /// What comes of a route's rows: no server without a host and a sender; else its password, where
    /// there is one, is decrypted first.
    pub open spec fn server_rule(
        self,
        rows: Seq<Setting>,
        decrypted: Reply<Vec<u8>>,
        r: RouteStep,
    ) -> bool {
        if text_at(rows, SMTP_HOST@).len() == 0 || text_at(rows, SMTP_FROM_ADDRESS@).len() == 0 {
            r == RouteStep::Done(Ok(None))
        } else if text_at(rows, SMTP_PASSWORD@).len() == 0 {
            r matches RouteStep::Done(Ok(Some(c))) && Self::is_server(c, rows) && c.password@.len()
                == 0
        } else {
            match decrypted {
                None => r matches RouteStep::Decrypt { stored, key_encryption_key } && stored@
                    == text_at(rows, SMTP_PASSWORD@) && key_encryption_key
                    == self.key_encryption_key,
                Some(Err(e)) => r matches RouteStep::Done(Err(DomainError::Repository(m))) && m@
                    == "smtp password decrypt: "@ + e@,
                Some(Ok(bytes)) => match r {
                    RouteStep::Done(Ok(Some(c))) => Self::is_server(c, rows)
                        && vstd::utf8::encode_utf8(c.password@) == bytes@,
                    RouteStep::Done(Err(DomainError::Repository(m))) => !vstd::utf8::valid_utf8(
                        bytes@,
                    ) && m@ == "smtp password is not UTF-8"@,
                    _ => false,
                },
            }
        }
    }

    /// Every part of the server but its password is that of the rows.
    pub open spec fn is_server(c: SmtpServerConfig, rows: Seq<Setting>) -> bool {
        &&& c.host@ == text_at(rows, SMTP_HOST@)
        &&& c.port == port_at(rows)
        &&& c.username@ == text_at(rows, SMTP_USERNAME@)
        &&& c.from_address@ == text_at(rows, SMTP_FROM_ADDRESS@)
        &&& c.use_tls == (value_of(rows, SMTP_USE_TLS@) == Some("true"@))
    }

    /// Decides what comes of a route's rows.
    pub fn smtp_server_from(&self, rows: &Vec<Setting>, decrypted: &Reply<Vec<u8>>) -> (r: RouteStep)
        ensures
            self.server_rule(rows@, *decrypted, r),
    {
        let host: String = find_text(rows, SMTP_HOST);
        let from_address: String = find_text(rows, SMTP_FROM_ADDRESS);
        if host.as_str().is_empty() || from_address.as_str().is_empty() {
            return RouteStep::Done(Ok(None));
        }
        let stored: String = find_text(rows, SMTP_PASSWORD);
        let password: String = if stored.as_str().is_empty() {
            String::new()
        } else {
            match decrypted {
                None => return RouteStep::Decrypt {
                    stored,
                    key_encryption_key: self.key_encryption_key,
                },
                Some(Err(e)) => return RouteStep::Done(
                    Err(repository("smtp password decrypt: ", e)),
                ),
                Some(Ok(bytes)) => {
                    let copy: Vec<u8> = bytes.clone();
                    assert(copy@ =~= bytes@);
                    match utf8_text(copy) {
                        Ok(text) => text,
                        Err(_) => return RouteStep::Done(
                            Err(DomainError::Repository("smtp password is not UTF-8".to_owned())),
                        ),
                    }
                },
            }
        };
        RouteStep::Done(
            Ok(
                Some(
                    SmtpServerConfig {
                        host,
                        port: find_port(rows),
                        username: find_text(rows, SMTP_USERNAME),
                        password,
                        from_address,
                        use_tls: find_flag(rows, SMTP_USE_TLS),
                    },
                ),
            ),
        )
    }

    /// What comes next in finding the server that a tenant's mail goes through.
    pub open spec fn smtp_server_for_rule(
        self,
        tenant_id: TenantId,
        p: RouteProgress,
        r: RouteStep,
    ) -> bool {
        match p.tenant_rows {
            None => r == (RouteStep::LoadTenant { tenant_id }),
            Some(Err(e)) => r == RouteStep::Done(Err(e)),
            Some(Ok(tenant_rows)) => if own_route(route_rows(tenant_rows@)) {
                self.server_rule(route_rows(tenant_rows@), p.decrypted, r)
            } else {
                match p.rows {
                    None => r == RouteStep::LoadAll,
                    Some(Err(e)) => r == RouteStep::Done(Err(e)),
                    Some(Ok(rows)) => self.server_rule(rows@, p.decrypted, r),
                }
            },
        }
    }

    /// Decides what comes next in finding the server that a tenant's mail goes through.
    pub fn smtp_server_for(&self, tenant_id: TenantId, p: &RouteProgress) -> (r: RouteStep)
        ensures
            self.smtp_server_for_rule(tenant_id, *p, r),
    {
        let route: Vec<Setting> = match &p.tenant_rows {
            None => return RouteStep::LoadTenant { tenant_id },
            Some(Err(e)) => return RouteStep::Done(Err(e.clone())),
            Some(Ok(tenant_rows)) => self.tenant_smtp_map(tenant_rows),
        };
        if defines_own_route(&route) {
            return self.smtp_server_from(&route, &p.decrypted);
        }
        match &p.rows {
            None => RouteStep::LoadAll,
            Some(Err(e)) => RouteStep::Done(Err(e.clone())),
            Some(Ok(rows)) => self.smtp_server_from(rows, &p.decrypted),
        }
    }

    /// Decides what comes next in showing a tenant's route.
    pub fn get_tenant_smtp(&self, tenant_id: TenantId, rows: &Stored<Vec<Setting>>) -> (r: ViewStep<
        TenantSmtpView,
    >)
        ensures
            tenant_view_rule(tenant_id, *rows, r),
    {
        match rows {
            None => ViewStep::LoadTenant { tenant_id },
            Some(Err(e)) => ViewStep::Done(Err(e.clone())),
            Some(Ok(rows)) => ViewStep::Done(Ok(self.show_tenant_smtp(rows))),
        }
    }

    fn show_tenant_smtp(&self, rows: &Vec<Setting>) -> (r: TenantSmtpView)
        ensures
            shows_tenant_smtp(r, rows@),
    {
        let route: Vec<Setting> = self.tenant_smtp_map(rows);
        if defines_own_route(&route) {
            TenantSmtpView { settings: smtp_view_from(&route), inherited: false }
        } else {
            TenantSmtpView {
                settings: SmtpSettingsView {
                    host: String::new(),
                    port: None,
                    username: String::new(),
                    password_set: false,
                    from_address: String::new(),
                    use_tls: false,
                },
                inherited: true,
            }
        }
    }

    /// The change is audited, the rows are read again, and what is shown of them is the answer.
    pub open spec fn tenant_end_rule(
        tenant_id: TenantId,
        actor: AdminActor,
        words: Seq<char>,
        p: UpdateProgress,
        r: UpdateStep<TenantSmtpView>,
    ) -> bool {
        if p.audits == 0 {
            r matches UpdateStep::Audit(a) && admin_entry(
                a,
                AuditEventType::TenantUpdated,
                tenant_id,
                actor,
                words,
            )
        } else {
            match p.after {
                None => r == (UpdateStep::<TenantSmtpView>::Reload { tenant_id: Some(tenant_id) }),
                Some(Err(e)) => r == UpdateStep::<TenantSmtpView>::Done(Err(e)),
                Some(Ok(rows)) => r matches UpdateStep::Done(Ok(v)) && shows_tenant_smtp(v, rows@),
            }
        }
    }

    fn tenant_end(
        &self,
        tenant_id: TenantId,
        actor: &AdminActor,
        words: &str,
        p: &UpdateProgress,
    ) -> (r: UpdateStep<TenantSmtpView>)
        ensures
            Self::tenant_end_rule(tenant_id, *actor, words@, *p, r),
    {
        if p.audits == 0 {
            return UpdateStep::Audit(
                admin_audit(AuditEventType::TenantUpdated, tenant_id, actor, words.to_owned()),
            );
        }
        match &p.after {
            None => UpdateStep::Reload { tenant_id: Some(tenant_id) },
            Some(Err(e)) => UpdateStep::Done(Err(e.clone())),
            Some(Ok(rows)) => UpdateStep::Done(Ok(self.show_tenant_smtp(rows))),
        }
    }

    /// What removes a tenant's route: every part of it.
    pub open spec fn clear_plan() -> Seq<Planned> {
        seq![
            removes(SMTP_HOST@),
            removes(SMTP_PORT@),
            removes(SMTP_USERNAME@),
            removes(SMTP_PASSWORD@),
            removes(SMTP_FROM_ADDRESS@),
            removes(SMTP_USE_TLS@),
        ]
    }

    /// What comes next in removing a tenant's route.
    pub open spec fn clear_rule(
        tenant_id: TenantId,
        actor: AdminActor,
        p: UpdateProgress,
        r: UpdateStep<TenantSmtpView>,
    ) -> bool {
        exists|w: Option<UpdateStep<TenantSmtpView>>| #[trigger]
            write_rule(Some(tenant_id), Self::clear_plan(), p.writes@, 0, w) && match w {
                Some(step) => r == step,
                None => Self::tenant_end_rule(tenant_id, actor, "smtp cleared"@, p, r),
            }
    }

    /// Decides what comes next in removing a tenant's route.
    pub fn clear_tenant_smtp(
        &self,
        tenant: &TenantContext,
        actor: &AdminActor,
        p: &UpdateProgress,
    ) -> (r: UpdateStep<TenantSmtpView>)
        ensures
            Self::clear_rule(tenant.tenant_id, *actor, *p, r),
    {
        let mut plan: Vec<SettingWrite> = Vec::new();
        plan.push(remove(SMTP_HOST));
        plan.push(remove(SMTP_PORT));
        plan.push(remove(SMTP_USERNAME));
        plan.push(remove(SMTP_PASSWORD));
        plan.push(remove(SMTP_FROM_ADDRESS));
        plan.push(remove(SMTP_USE_TLS));
        proof {
            assert(plan_of(plan@) =~= Self::clear_plan());
        }
        let w: Option<UpdateStep<TenantSmtpView>> = next_write(
            Some(tenant.tenant_id),
            &plan,
            &p.writes,
        );
        proof {
            assert(write_rule(Some(tenant.tenant_id), Self::clear_plan(), p.writes@, 0, w));
        }
        match w {
            Some(step) => step,
            None => self.tenant_end(tenant.tenant_id, actor, "smtp cleared", p),
        }
    }

    /// What an update writes of a tenant's route beside its password.
    pub open spec fn tenant_plan(cmd: UpdateSmtpCommand) -> Seq<Planned> {
        seq![
            sets(SMTP_HOST@, trimmed(cmd.host@)),
            sets(SMTP_PORT@, port_text(cmd.port)),
            sets(SMTP_USERNAME@, trimmed(cmd.username@)),
            sets(SMTP_FROM_ADDRESS@, trimmed(cmd.from_address@)),
            sets(SMTP_USE_TLS@, flag_text(cmd.use_tls)),
        ]
    }

    /// All that an update writes of a tenant's route, as far as the password is encrypted.
    pub open spec fn tenant_whole(cmd: UpdateSmtpCommand, encrypted: Reply<String>) -> Seq<Planned> {
        let plain = Self::tenant_plan(cmd);
        if cmd.password is None {
            plain
        } else if cmd.password->0@.len() == 0 {
            plain.push(removes(SMTP_PASSWORD@))
        } else if encrypted is Some && encrypted->0 is Ok {
            plain.push(sets_secret(SMTP_PASSWORD@, encrypted->0->Ok_0@))
        } else {
            plain
        }
    }

    /// Whether a tenant has a route after an update, given whether it keeps a password.
    pub open spec fn leaves_route(cmd: UpdateSmtpCommand, keeps_password: bool) -> bool {
        keeps_password || trimmed(cmd.host@).len() > 0 || trimmed(cmd.username@).len() > 0
            || trimmed(cmd.from_address@).len() > 0
    }

    /// The plain parts are written, then the password: removed where it is empty, encrypted where it
    /// is not, and left where none is given.
    pub open spec fn set_rule(
        self,
        tenant_id: TenantId,
        cmd: UpdateSmtpCommand,
        actor: AdminActor,
        p: UpdateProgress,
        r: UpdateStep<TenantSmtpView>,
    ) -> bool {
        exists|w: Option<UpdateStep<TenantSmtpView>>| #[trigger]
            write_rule(Some(tenant_id), Self::tenant_whole(cmd, p.encrypted), p.writes@, 0, w) && match w {
                Some(step) => r == step,
                None => if cmd.password is Some && cmd.password->0@.len() > 0 && p.encrypted is None {
                    r == (UpdateStep::<TenantSmtpView>::Encrypt {
                        secret: cmd.password->0,
                        key_encryption_key: self.key_encryption_key,
                    })
                } else if cmd.password is Some && cmd.password->0@.len() > 0 && p.encrypted->0 is Err {
                    r matches UpdateStep::Done(Err(DomainError::Repository(m))) && m@
                        == "smtp password encrypt: "@ + p.encrypted->0->Err_0@
                } else {
                    Self::tenant_end_rule(tenant_id, actor, "smtp set"@, p, r)
                },
            }
    }

    /// What comes next in an update of a tenant's route: where it would leave no route, the route is
    /// removed.
    pub open spec fn update_tenant_rule(
        self,
        tenant_id: TenantId,
        cmd: UpdateSmtpCommand,
        actor: AdminActor,
        p: UpdateProgress,
        r: UpdateStep<TenantSmtpView>,
    ) -> bool {
        match cmd.password {
            None => match p.before {
                None => r == (UpdateStep::<TenantSmtpView>::LoadBefore { of: tenant_id }),
                Some(Err(e)) => r == UpdateStep::<TenantSmtpView>::Done(Err(e)),
                Some(Ok(rows)) => if Self::leaves_route(
                    cmd,
                    value_of(route_rows(rows@), SMTP_PASSWORD@) is Some,
                ) {
                    self.set_rule(tenant_id, cmd, actor, p, r)
                } else {
                    Self::clear_rule(tenant_id, actor, p, r)
                },
            },
            Some(password) => if Self::leaves_route(cmd, password@.len() > 0) {
                self.set_rule(tenant_id, cmd, actor, p, r)
            } else {
                Self::clear_rule(tenant_id, actor, p, r)
            },
        }
    }

    fn set_tenant_smtp(
        &self,
        tenant_id: TenantId,
        cmd: &UpdateSmtpCommand,
        actor: &AdminActor,
        p: &UpdateProgress,
    ) -> (r: UpdateStep<TenantSmtpView>)
        ensures
            self.set_rule(tenant_id, *cmd, *actor, *p, r),
    {
        let mut plan: Vec<SettingWrite> = Vec::new();
        plan.push(put(SMTP_HOST, trim(cmd.host.as_str())));
        plan.push(put(SMTP_PORT, port_string(cmd.port)));
        plan.push(put(SMTP_USERNAME, trim(cmd.username.as_str())));
        plan.push(put(SMTP_FROM_ADDRESS, trim(cmd.from_address.as_str())));
        plan.push(put(SMTP_USE_TLS, flag_string(cmd.use_tls)));
        proof {
            assert(plan_of(plan@) =~= Self::tenant_plan(*cmd));
        }
        let ghost plain = Self::tenant_plan(*cmd);
        let mut needs_secret: bool = false;
        if let Some(password) = &cmd.password {
            if password.as_str().is_empty() {
                plan.push(remove(SMTP_PASSWORD));
                proof {
                    assert(plan_of(plan@) =~= plain.push(removes(SMTP_PASSWORD@)));
                }
            } else {
                needs_secret = true;
                if let Some(Ok(stored)) = &p.encrypted {
                    plan.push(put_secret(SMTP_PASSWORD, stored.clone()));
                    proof {
                        assert(plan_of(plan@) =~= plain.push(sets_secret(SMTP_PASSWORD@, stored@)));
                    }
                }
            }
        }
        let w: Option<UpdateStep<TenantSmtpView>> = next_write(Some(tenant_id), &plan, &p.writes);
        proof {
            assert(plan_of(plan@) == Self::tenant_whole(*cmd, p.encrypted));
            assert(write_rule(
                Some(tenant_id),
                Self::tenant_whole(*cmd, p.encrypted),
                p.writes@,
                0,
                w,
            ));
        }
        if let Some(step) = w {
            return step;
        }
        if needs_secret {
            match &p.encrypted {
                None => {
                    let secret: String = match &cmd.password {
                        Some(password) => password.clone(),
                        None => String::new(),
                    };
                    return UpdateStep::Encrypt {
                        secret,
                        key_encryption_key: self.key_encryption_key,
                    };
                },
                Some(Err(e)) => return UpdateStep::Done(
                    Err(repository("smtp password encrypt: ", e)),
                ),
                Some(Ok(_)) => {},
            }
        }
        self.tenant_end(tenant_id, actor, "smtp set", p)
    }

    /// Decides what comes next in an update of a tenant's route.
    pub fn update_tenant_smtp(
        &self,
        tenant: &TenantContext,
        cmd: &UpdateSmtpCommand,
        actor: &AdminActor,
        p: &UpdateProgress,
    ) -> (r: UpdateStep<TenantSmtpView>)
        ensures
            self.update_tenant_rule(tenant.tenant_id, *cmd, *actor, *p, r),
    {
        let keeps_password: bool = match &cmd.password {
            Some(password) => !password.as_str().is_empty(),
            None => match &p.before {
                None => return UpdateStep::LoadBefore { of: tenant.tenant_id },
                Some(Err(e)) => return UpdateStep::Done(Err(e.clone())),
                Some(Ok(rows)) => {
                    let route: Vec<Setting> = self.tenant_smtp_map(rows);
                    find(&route, SMTP_PASSWORD).is_some()
                },
            },
        };
        let host: String = trim(cmd.host.as_str());
        let username: String = trim(cmd.username.as_str());
        let from_address: String = trim(cmd.from_address.as_str());
        let defines_route: bool = keeps_password || !host.as_str().is_empty()
            || !username.as_str().is_empty() || !from_address.as_str().is_empty();
        if defines_route {
            self.set_tenant_smtp(tenant.tenant_id, cmd, actor, p)
        } else {
            self.clear_tenant_smtp(tenant, actor, p)
        }
    }

    /// Decides what comes next in showing the provider's route.
    pub fn get_smtp(&self, rows: &Stored<Vec<Setting>>) -> (r: ViewStep<SmtpSettingsView>)
        ensures
            smtp_view_rule(*rows, r),
    {
        match rows {
            None => ViewStep::LoadAll,
            Some(Err(e)) => ViewStep::Done(Err(e.clone())),
            Some(Ok(rows)) => ViewStep::Done(Ok(smtp_view_from(rows))),
        }
    }

    /// What an update writes of the provider's route beside its password.
    pub open spec fn smtp_plan(cmd: UpdateSmtpCommand) -> Seq<Planned> {
        seq![
            sets(SMTP_HOST@, cmd.host@),
            sets(SMTP_PORT@, port_text(cmd.port)),
            sets(SMTP_USERNAME@, cmd.username@),
            sets(SMTP_FROM_ADDRESS@, cmd.from_address@),
            sets(SMTP_USE_TLS@, flag_text(cmd.use_tls)),
        ]
    }

    /// All that an update of the provider's settings writes, as far as the secret is encrypted.
    pub open spec fn global_whole(
        plain: Seq<Planned>,
        secret_key: Seq<char>,
        secret: Option<String>,
        encrypted: Reply<String>,
    ) -> Seq<Planned> {
        if secret is None {
            plain
        } else if secret->0@.len() == 0 {
            plain.push(sets_secret(secret_key, Seq::empty()))
        } else if encrypted is Some && encrypted->0 is Ok {
            plain.push(sets_secret(secret_key, encrypted->0->Ok_0@))
        } else {
            plain
        }
    }

    /// The plain values are written, then the secret, where one is given: as nothing where it is
    /// empty, encrypted where it is not. Then the change is audited and the rows are read again.
    pub open spec fn global_rule<V>(
        self,
        plain: Seq<Planned>,
        secret_key: Seq<char>,
        secret: Option<String>,
        fault: Seq<char>,
        tenant_id: TenantId,
        actor: AdminActor,
        words: Seq<char>,
        shows: spec_fn(V, Seq<Setting>) -> bool,
        p: UpdateProgress,
        r: UpdateStep<V>,
    ) -> bool {
        let needs = secret is Some && secret->0@.len() > 0;
        exists|w: Option<UpdateStep<V>>| #[trigger]
            write_rule(
                None,
                Self::global_whole(plain, secret_key, secret, p.encrypted),
                p.writes@,
                0,
                w,
            ) && match w {
                Some(step) => r == step,
                None => if needs && p.encrypted is None {
                    r == (UpdateStep::<V>::Encrypt {
                        secret: secret->0,
                        key_encryption_key: self.key_encryption_key,
                    })
                } else if needs && p.encrypted->0 is Err {
                    r matches UpdateStep::Done(Err(DomainError::Repository(m))) && m@ == fault
                        + p.encrypted->0->Err_0@
                } else if p.audits == 0 {
                    r matches UpdateStep::Audit(a) && admin_entry(
                        a,
                        AuditEventType::SystemSettingsUpdated,
                        tenant_id,
                        actor,
                        words,
                    )
                } else {
                    match p.after {
                        None => r == (UpdateStep::<V>::Reload { tenant_id: None }),
                        Some(Err(e)) => r == UpdateStep::<V>::Done(Err(e)),
                        Some(Ok(rows)) => r matches UpdateStep::Done(Ok(v)) && shows(v, rows@),
                    }
                },
            }
    }

    fn before_audit<V>(
        &self,
        plain: Vec<SettingWrite>,
        secret_key: &str,
        secret: &Option<String>,
        fault: &str,
        p: &UpdateProgress,
    ) -> (r: Option<UpdateStep<V>>)
        ensures
            forall|
                tenant_id: TenantId,
                actor: AdminActor,
                words: Seq<char>,
                shows: spec_fn(V, Seq<Setting>) -> bool,
                s: UpdateStep<V>,
            |
                (match r {
                    Some(step) => s == step,
                    None => if p.audits == 0 {
                        s matches UpdateStep::Audit(a) && admin_entry(
                            a,
                            AuditEventType::SystemSettingsUpdated,
                            tenant_id,
                            actor,
                            words,
                        )
                    } else {
                        match p.after {
                            None => s == (UpdateStep::<V>::Reload { tenant_id: None }),
                            Some(Err(e)) => s == UpdateStep::<V>::Done(Err(e)),
                            Some(Ok(rows)) => s matches UpdateStep::Done(Ok(v)) && shows(v, rows@),
                        }
                    },
                }) ==> #[trigger] self.global_rule(
                    plan_of(plain@),
                    secret_key@,
                    *secret,
                    fault@,
                    tenant_id,
                    actor,
                    words,
                    shows,
                    *p,
                    s,
                ),
    {
        let ghost base = plan_of(plain@);
        let mut plan: Vec<SettingWrite> = plain;
        let mut needs_secret: bool = false;
        if let Some(value) = secret {
            if value.as_str().is_empty() {
                let empty: String = String::new();
                plan.push(put_secret(secret_key, empty));
                proof {
                    assert(plan_of(plan@) =~= base.push(sets_secret(secret_key@, Seq::empty())));
                }
            } else {
                needs_secret = true;
                if let Some(Ok(stored)) = &p.encrypted {
                    plan.push(put_secret(secret_key, stored.clone()));
                    proof {
                        assert(plan_of(plan@) =~= base.push(sets_secret(secret_key@, stored@)));
                    }
                }
            }
        }
        let w: Option<UpdateStep<V>> = next_write(None, &plan, &p.writes);
        proof {
            assert(plan_of(plan@) == Self::global_whole(base, secret_key@, *secret, p.encrypted));
            assert(write_rule(
                None,
                Self::global_whole(base, secret_key@, *secret, p.encrypted),
                p.writes@,
                0,
                w,
            ));
        }
        if w.is_some() {
            return w;
        }
        if needs_secret {
            match &p.encrypted {
                None => {
                    let value: String = match secret {
                        Some(value) => value.clone(),
                        None => String::new(),
                    };
                    return Some(
                        UpdateStep::Encrypt {
                            secret: value,
                            key_encryption_key: self.key_encryption_key,
                        },
                    );
                },
                Some(Err(e)) => return Some(UpdateStep::Done(Err(repository(fault, e)))),
                Some(Ok(_)) => {},
            }
        }
        None
    }

    /// Decides what comes next in an update of the provider's route.
    pub fn update_smtp(
        &self,
        tenant: &TenantContext,
        cmd: &UpdateSmtpCommand,
        actor: &AdminActor,
        p: &UpdateProgress,
    ) -> (r: UpdateStep<SmtpSettingsView>)
        ensures
            update_smtp_rule(*self, tenant.tenant_id, *cmd, *actor, *p, r),
    {
        let mut plan: Vec<SettingWrite> = Vec::new();
        plan.push(put(SMTP_HOST, cmd.host.clone()));
        plan.push(put(SMTP_PORT, port_string(cmd.port)));
        plan.push(put(SMTP_USERNAME, cmd.username.clone()));
        plan.push(put(SMTP_FROM_ADDRESS, cmd.from_address.clone()));
        plan.push(put(SMTP_USE_TLS, flag_string(cmd.use_tls)));
        proof {
            assert(plan_of(plan@) =~= Self::smtp_plan(*cmd));
        }
        let first: Option<UpdateStep<SmtpSettingsView>> = self.before_audit(
            plan,
            SMTP_PASSWORD,
            &cmd.password,
            "smtp password encrypt: ",
            p,
        );
        if let Some(step) = first {
            return step;
        }
        if p.audits == 0 {
            return UpdateStep::Audit(
                admin_audit(
                    AuditEventType::SystemSettingsUpdated,
                    tenant.tenant_id,
                    actor,
                    "smtp".to_owned(),
                ),
            );
        }
        match &p.after {
            None => UpdateStep::Reload { tenant_id: None },
            Some(Err(e)) => UpdateStep::Done(Err(e.clone())),
            Some(Ok(rows)) => UpdateStep::Done(Ok(smtp_view_from(rows))),
        }
    }

    /// Decides what comes of the rows of the text message gateway: none without an address; else its
    /// token, where there is one, is decrypted first.
    pub fn sms_gateway(&self, rows: &Stored<Vec<Setting>>, decrypted: &Reply<Vec<u8>>) -> (r: SmsStep)
        ensures
            gateway_rule(*self, *rows, *decrypted, r),
    {
        let rows: &Vec<Setting> = match rows {
            None => return SmsStep::LoadAll,
            Some(Err(e)) => return SmsStep::Done(Err(e.clone())),
            Some(Ok(rows)) => rows,
        };
        let endpoint_url: String = find_text(rows, SMS_GATEWAY_URL);
        let address: String = trim(endpoint_url.as_str());
        if address.as_str().is_empty() {
            return SmsStep::Done(Ok(None));
        }
        let stored: String = find_text(rows, SMS_AUTH_TOKEN);
        let auth_token: String = if stored.as_str().is_empty() {
            String::new()
        } else {
            match decrypted {
                None => return SmsStep::Decrypt {
                    stored,
                    key_encryption_key: self.key_encryption_key,
                },
                Some(Err(e)) => return SmsStep::Done(Err(repository("sms token decrypt: ", e))),
                Some(Ok(bytes)) => {
                    let copy: Vec<u8> = bytes.clone();
                    assert(copy@ =~= bytes@);
                    match utf8_text(copy) {
                        Ok(text) => text,
                        Err(_) => return SmsStep::Done(
                            Err(DomainError::Repository("sms token is not UTF-8".to_owned())),
                        ),
                    }
                },
            }
        };
        SmsStep::Done(
            Ok(
                Some(
                    SmsGatewayConfig {
                        endpoint_url,
                        auth_header: find_text(rows, SMS_AUTH_HEADER),
                        auth_token,
                        sender_id: find_text(rows, SMS_SENDER_ID),
                    },
                ),
            ),
        )
    }

    /// Every part of the gateway but its token is that of the rows.
    pub open spec fn is_gateway(c: SmsGatewayConfig, rows: Seq<Setting>) -> bool {
        &&& c.endpoint_url@ == text_at(rows, SMS_GATEWAY_URL@)
        &&& c.auth_header@ == text_at(rows, SMS_AUTH_HEADER@)
        &&& c.sender_id@ == text_at(rows, SMS_SENDER_ID@)
    }

    /// Decides what comes next in showing the text message gateway.
    pub fn get_sms(&self, rows: &Stored<Vec<Setting>>) -> (r: ViewStep<SmsSettingsView>)
        ensures
            sms_view_rule(*rows, r),
    {
        match rows {
            None => ViewStep::LoadAll,
            Some(Err(e)) => ViewStep::Done(Err(e.clone())),
            Some(Ok(rows)) => ViewStep::Done(Ok(self.show_sms(rows))),
        }
    }

    fn show_sms(&self, rows: &Vec<Setting>) -> (r: SmsSettingsView)
        ensures
            shows_sms(r, rows@),
    {
        SmsSettingsView {
            gateway_url: find_text(rows, SMS_GATEWAY_URL),
            auth_header: find_text(rows, SMS_AUTH_HEADER),
            auth_token_set: is_set(rows, SMS_AUTH_TOKEN),
            sender_id: find_text(rows, SMS_SENDER_ID),
        }
    }

    /// What an update writes of the gateway beside its token.
    pub open spec fn sms_plan(cmd: UpdateSmsCommand) -> Seq<Planned> {
        seq![
            sets(SMS_GATEWAY_URL@, trimmed(cmd.gateway_url@)),
            sets(SMS_AUTH_HEADER@, trimmed(cmd.auth_header@)),
            sets(SMS_SENDER_ID@, trimmed(cmd.sender_id@)),
        ]
    }

    /// Decides what comes next in an update of the gateway.
    pub fn update_sms(
        &self,
        tenant: &TenantContext,
        cmd: &UpdateSmsCommand,
        actor: &AdminActor,
        p: &UpdateProgress,
    ) -> (r: UpdateStep<SmsSettingsView>)
        ensures
            update_sms_rule(*self, tenant.tenant_id, *cmd, *actor, *p, r),
    {
        let mut plan: Vec<SettingWrite> = Vec::new();
        plan.push(put(SMS_GATEWAY_URL, trim(cmd.gateway_url.as_str())));
        plan.push(put(SMS_AUTH_HEADER, trim(cmd.auth_header.as_str())));
        plan.push(put(SMS_SENDER_ID, trim(cmd.sender_id.as_str())));
        proof {
            assert(plan_of(plan@) =~= Self::sms_plan(*cmd));
        }
        let first: Option<UpdateStep<SmsSettingsView>> = self.before_audit(
            plan,
            SMS_AUTH_TOKEN,
            &cmd.auth_token,
            "sms token encrypt: ",
            p,
        );
        if let Some(step) = first {
            return step;
        }
        if p.audits == 0 {
            return UpdateStep::Audit(
                admin_audit(
                    AuditEventType::SystemSettingsUpdated,
                    tenant.tenant_id,
                    actor,
                    "sms".to_owned(),
                ),
            );
        }
        match &p.after {
            None => UpdateStep::Reload { tenant_id: None },
            Some(Err(e)) => UpdateStep::Done(Err(e.clone())),
            Some(Ok(rows)) => UpdateStep::Done(Ok(self.show_sms(rows))),
        }
    }

    /// Whether no later row has the key of the `i`-th.
    pub open spec fn last_of_key(rows: Seq<Setting>, i: int) -> bool {
        forall|j: int| i < j < rows.len() ==> (#[trigger] rows[j]).key@ != rows[i].key@
    }

    /// Whether the `i`-th row overrides a runtime setting: it is the last of its key, holds anything,
    /// and the setting is known and no secret.
    pub open spec fn overrides_at(
        rows: Seq<Setting>,
        definitions: Seq<Option<SettingDefinition>>,
        i: int,
    ) -> bool {
        Self::last_of_key(rows, i) && rows[i].value@.len() > 0 && (definitions[i] matches Some(d)
            && !d.secret)
    }

    /// Those of the first `n` rows that override a runtime setting.
    pub open spec fn overrides_among(
        rows: Seq<Setting>,
        definitions: Seq<Option<SettingDefinition>>,
        n: nat,
    ) -> Seq<Setting>
        decreases n,
    {
        if n == 0 {
            Seq::empty()
        } else {
            let rest = Self::overrides_among(rows, definitions, (n - 1) as nat);
            if Self::overrides_at(rows, definitions, n - 1) {
                rest.push(rows[n - 1])
            } else {
                rest
            }
        }
    }

    /// The rows that override a runtime setting.
    pub open spec fn overrides(
        rows: Seq<Setting>,
        definitions: Seq<Option<SettingDefinition>>,
    ) -> Seq<Setting> {
        Self::overrides_among(rows, definitions, rows.len())
    }

    fn is_last_of_key(&self, rows: &Vec<Setting>, i: usize) -> (r: bool)
        requires
            i < rows@.len(),
        ensures
            r == Self::last_of_key(rows@, i as int),
    {
        let n: usize = rows.len();
        let mut j: usize = i + 1;
        while j < n
            invariant
                n == rows@.len(),
                i < j <= n,
                forall|k: int| i < k < j ==> (#[trigger] rows@[k]).key@ != rows@[i as int].key@,
            decreases n - j,
        {
            if same(rows[j].key.as_str(), rows[i].key.as_str()) {
                assert(rows@[j as int].key@ == rows@[i as int].key@);
                return false;
            }
            j = j + 1;
        }
        true
    }

    /// Decides what comes next in showing the rows that override a runtime setting; `definitions`
    /// says, row by row, what is known of its key.
    pub fn runtime_overrides(
        &self,
        rows: &Stored<Vec<Setting>>,
        definitions: &Vec<Option<SettingDefinition>>,
    ) -> (r: OverridesStep)
        ensures
            overrides_rule(*rows, definitions@, r),
    {
        let rows: &Vec<Setting> = match rows {
            None => return OverridesStep::LoadAll,
            Some(Err(e)) => return OverridesStep::Done(Err(e.clone())),
            Some(Ok(rows)) => rows,
        };
        if definitions.len() < rows.len() {
            return OverridesStep::FindDefinition { key: rows[definitions.len()].key.clone() };
        }
        OverridesStep::Done(Ok(self.collect_overrides(rows, definitions)))
    }

    fn collect_overrides(
        &self,
        rows: &Vec<Setting>,
        definitions: &Vec<Option<SettingDefinition>>,
    ) -> (r: Vec<Setting>)
        requires
            rows@.len() <= definitions@.len(),
        ensures
            r@ == Self::overrides(rows@, definitions@),
    {
        let mut out: Vec<Setting> = Vec::new();
        let mut i: usize = 0;
        while i < rows.len()
            invariant
                i <= rows.len(),
                rows@.len() <= definitions@.len(),
                out@ == Self::overrides_among(rows@, definitions@, i as nat),
            decreases rows.len() - i,
        {
            let public: bool = match &definitions[i] {
                Some(d) => !d.secret,
                None => false,
            };
            if public && !rows[i].value.as_str().is_empty() && self.is_last_of_key(rows, i) {
                out.push(Setting { key: rows[i].key.clone(), value: rows[i].value.clone() });
            }
            i = i + 1;
        }
        out
    }

    /// The value that is stored for a runtime setting: trimmed, and empty to end the override.
    pub open spec fn runtime_value(value: Option<String>) -> Seq<char> {
        match value {
            Some(v) => trimmed(v@),
            None => Seq::empty(),
        }
    }

    /// A value that passed its checks is written and audited, without the value itself.
    pub open spec fn runtime_write_rule(
        tenant_id: TenantId,
        key: String,
        value: Option<String>,
        actor: AdminActor,
        p: RuntimeProgress,
        r: RuntimeStep,
    ) -> bool {
        match p.written {
            None => r matches RuntimeStep::Write(w) && planned(w) == sets(
                key@,
                Self::runtime_value(value),
            ),
            Some(Err(e)) => r == RuntimeStep::Done(Err(e)),
            Some(Ok(_)) => if p.audits == 0 {
                r matches RuntimeStep::Audit(a) && admin_entry(
                    a,
                    AuditEventType::SystemSettingsUpdated,
                    tenant_id,
                    actor,
                    "runtime "@ + key@ + if Self::runtime_value(value).len() == 0 {
                        " cleared"@
                    } else {
                        " set"@
                    },
                )
            } else {
                r == RuntimeStep::Done(Ok(()))
            },
        }
    }

    /// What comes next in an update of a runtime setting: the key must be known, kept in the store
    /// and no secret; a value must be valid and one that the provider can start with.
    pub open spec fn runtime_rule(
        tenant_id: TenantId,
        key: String,
        value: Option<String>,
        actor: AdminActor,
        p: RuntimeProgress,
        r: RuntimeStep,
    ) -> bool {
        match p.definition {
            None => r == (RuntimeStep::FindDefinition { key }),
            Some(None) => r matches RuntimeStep::Done(Err(DomainError::InvalidValue(m))) && m@
                == "unknown runtime setting key: "@ + key@,
            Some(Some(d)) => if !d.db_managed || d.secret {
                r matches RuntimeStep::Done(Err(DomainError::InvalidValue(m))) && m@ == "setting "@
                    + key@ + " is not DB-managed"@
            } else if Self::runtime_value(value).len() == 0 {
                Self::runtime_write_rule(tenant_id, key, value, actor, p, r)
            } else {
                match p.valid {
                    None => r matches RuntimeStep::Validate { key: k, value: v } && k == key && v@
                        == Self::runtime_value(value),
                    Some(Err(e)) => r == RuntimeStep::Done(Err(DomainError::InvalidValue(e))),
                    Some(Ok(_)) => match p.bootable {
                        None => r matches RuntimeStep::CheckBootable { key: k, value: v } && k == key
                            && v@ == Self::runtime_value(value),
                        Some(Err(e)) => r == RuntimeStep::Done(Err(DomainError::Conflict(e))),
                        Some(Ok(_)) => Self::runtime_write_rule(tenant_id, key, value, actor, p, r),
                    },
                }
            },
        }
    }

    fn write_runtime(
        &self,
        tenant_id: TenantId,
        key: &String,
        value: String,
        actor: &AdminActor,
        p: &RuntimeProgress,
    ) -> (r: RuntimeStep)
        ensures
            forall|given: Option<String>|
                Self::runtime_value(given) == value@ ==> #[trigger] Self::runtime_write_rule(
                    tenant_id,
                    *key,
                    given,
                    *actor,
                    *p,
                    r,
                ),
    {
        match &p.written {
            None => RuntimeStep::Write(put(key.as_str(), value)),
            Some(Err(e)) => RuntimeStep::Done(Err(e.clone())),
            Some(Ok(_)) => if p.audits == 0 {
                let mut words: String = join2("runtime ", key.as_str());
                if value.as_str().is_empty() {
                    words.append(" cleared");
                } else {
                    words.append(" set");
                }
                RuntimeStep::Audit(
                    admin_audit(AuditEventType::SystemSettingsUpdated, tenant_id, actor, words),
                )
            } else {
                RuntimeStep::Done(Ok(()))
            },
        }
    }

    /// Decides what comes next in an update of a runtime setting.
    pub fn update_runtime_setting(
        &self,
        tenant: &TenantContext,
        key: &String,
        value: &Option<String>,
        actor: &AdminActor,
        p: &RuntimeProgress,
    ) -> (r: RuntimeStep)
        ensures
            Self::runtime_rule(tenant.tenant_id, *key, *value, *actor, *p, r),
    {
        let definition: SettingDefinition = match p.definition {
            None => return RuntimeStep::FindDefinition { key: key.clone() },
            Some(None) => return RuntimeStep::Done(
                Err(
                    DomainError::InvalidValue(
                        join2("unknown runtime setting key: ", key.as_str()),
                    ),
                ),
            ),
            Some(Some(d)) => d,
        };
        if !definition.db_managed || definition.secret {
            let mut m: String = join2("setting ", key.as_str());
            m.append(" is not DB-managed");
            return RuntimeStep::Done(Err(DomainError::InvalidValue(m)));
        }
        let text: String = match value {
            Some(v) => trim(v.as_str()),
            None => String::new(),
        };
        if !text.as_str().is_empty() {
            match &p.valid {
                None => return RuntimeStep::Validate { key: key.clone(), value: text },
                Some(Err(e)) => return RuntimeStep::Done(
                    Err(DomainError::InvalidValue(e.clone())),
                ),
                Some(Ok(_)) => {},
            }
            match &p.bootable {
                None => return RuntimeStep::CheckBootable { key: key.clone(), value: text },
                Some(Err(e)) => return RuntimeStep::Done(Err(DomainError::Conflict(e.clone()))),
                Some(Ok(_)) => {},
            }
        }
        self.write_runtime(tenant.tenant_id, key, text, actor, p)
    }
}

/// Where a tenant has a route of its own, whatever the provider's rows hold makes no difference to
/// what comes next; in particular the password that is decrypted is the tenant's.
pub proof fn the_providers_route_never_mixes_in(
    svc: SystemSettingsService,
    tenant_id: TenantId,
    p: RouteProgress,
    other: RouteProgress,
    r: RouteStep,
)
    requires
        svc.smtp_server_for_rule(tenant_id, p, r),
        p.tenant_rows matches Some(Ok(rows)) && own_route(route_rows(rows@)),
        other.tenant_rows == p.tenant_rows,
        other.decrypted == p.decrypted,
    ensures
        svc.smtp_server_for_rule(tenant_id, other, r),
        !(r is LoadAll),
        r matches RouteStep::Decrypt { stored, .. } ==> stored@ == text_at(
            route_rows(p.tenant_rows->0->Ok_0@),
            SMTP_PASSWORD@,
        ),
        r matches RouteStep::Done(Ok(Some(c))) ==> c.host@ == text_at(
            route_rows(p.tenant_rows->0->Ok_0@),
            SMTP_HOST@,
        ),
{
}

/// A tenant without a password of its own sends none to its server.
pub proof fn a_tenant_server_gets_no_foreign_password(
    svc: SystemSettingsService,
    tenant_id: TenantId,
    p: RouteProgress,
    c: SmtpServerConfig,
)
    requires
        svc.smtp_server_for_rule(tenant_id, p, RouteStep::Done(Ok(Some(c)))),
        p.tenant_rows matches Some(Ok(rows)) && own_route(route_rows(rows@)) && text_at(
            route_rows(rows@),
            SMTP_PASSWORD@,
        ).len() == 0,
    ensures
        c.password@.len() == 0,
{
}

/// An incomplete route of a tenant's own does not fall back to the provider's: there is no server.
pub proof fn an_incomplete_route_does_not_fall_back(
    svc: SystemSettingsService,
    tenant_id: TenantId,
    p: RouteProgress,
    r: RouteStep,
)
    requires
        svc.smtp_server_for_rule(tenant_id, p, r),
        p.tenant_rows matches Some(Ok(rows)) && own_route(route_rows(rows@)) && (text_at(
            route_rows(rows@),
            SMTP_HOST@,
        ).len() == 0 || text_at(route_rows(rows@), SMTP_FROM_ADDRESS@).len() == 0),
    ensures
        r == RouteStep::Done(Ok(None)),
{
}

/// A tenant without a route sends through the provider's, whole.
pub proof fn without_a_route_the_providers_serves(
    svc: SystemSettingsService,
    tenant_id: TenantId,
    p: RouteProgress,
    c: SmtpServerConfig,
)
    requires
        svc.smtp_server_for_rule(tenant_id, p, RouteStep::Done(Ok(Some(c)))),
        p.tenant_rows matches Some(Ok(rows)) && !own_route(route_rows(rows@)),
    ensures
        p.rows matches Some(Ok(rows)) && SystemSettingsService::is_server(c, rows@),
{
}

/// Removing a tenant's route, or saving a form that leaves none, ends with a tenant that is shown as
/// sending through the provider's route, if the store holds none of the removed rows any more.
pub proof fn a_removed_route_is_inherited(rows: Seq<Setting>, v: TenantSmtpView)
    requires
        shows_tenant_smtp(v, rows),
        forall|i: int| 0 <= i < rows.len() ==> !is_smtp_key((#[trigger] rows[i]).key@),
    ensures
        v.inherited,
{
    lemma_no_route(rows);
}

proof fn lemma_no_route(rows: Seq<Setting>)
    requires
        forall|i: int| 0 <= i < rows.len() ==> !is_smtp_key((#[trigger] rows[i]).key@),
    ensures
        route_rows(rows) == Seq::<Setting>::empty(),
    decreases rows.len(),
{
    if rows.len() > 0 {
        assert forall|i: int| 0 <= i < rows.drop_last().len() implies !is_smtp_key(
            (#[trigger] rows.drop_last()[i]).key@,
        ) by {
            assert(rows.drop_last()[i] == rows[i]);
        }
        lemma_no_route(rows.drop_last());
        assert(rows.last() == rows[rows.len() - 1]);
    }
}

impl RuntimeProgress {
    /// The call `step` asks for something that is not known yet.
    pub open spec fn lacks_answer_to(self, step: RuntimeStep) -> bool {
        match step {
            RuntimeStep::FindDefinition { .. } => self.definition is None,
            RuntimeStep::Validate { .. } => self.valid is None,
            RuntimeStep::CheckBootable { .. } => self.bootable is None,
            RuntimeStep::Write(_) => self.written is None,
            RuntimeStep::Audit(_) => self.audits < 1,
            RuntimeStep::Done(_) => true,
        }
    }
}

/// Nothing is asked for that is known already: every call that comes next fills a gap.
pub proof fn a_runtime_change_asks_nothing_twice(
    tenant_id: TenantId,
    key: String,
    value: Option<String>,
    actor: AdminActor,
    p: RuntimeProgress,
    r: RuntimeStep,
)
    requires
        SystemSettingsService::runtime_rule(tenant_id, key, value, actor, p, r),
    ensures
        p.lacks_answer_to(r),
{
}

proof fn lemma_overrides_are_rows(
    rows: Seq<Setting>,
    definitions: Seq<Option<SettingDefinition>>,
    n: nat,
    i: int,
) -> (k: int)
    requires
        n <= rows.len(),
        0 <= i < SystemSettingsService::overrides_among(rows, definitions, n).len(),
    ensures
        0 <= k < n,
        rows[k] == SystemSettingsService::overrides_among(rows, definitions, n)[i],
        SystemSettingsService::overrides_at(rows, definitions, k),
    decreases n,
{
    let rest = SystemSettingsService::overrides_among(rows, definitions, (n - 1) as nat);
    if i < rest.len() {
        lemma_overrides_are_rows(rows, definitions, (n - 1) as nat, i)
    } else {
        n - 1
    }
}

proof fn lemma_overrides_differ(
    rows: Seq<Setting>,
    definitions: Seq<Option<SettingDefinition>>,
    n: nat,
    i: int,
    j: int,
)
    requires
        n <= rows.len(),
        0 <= i < j < SystemSettingsService::overrides_among(rows, definitions, n).len(),
    ensures
        SystemSettingsService::overrides_among(rows, definitions, n)[i].key@
            != SystemSettingsService::overrides_among(rows, definitions, n)[j].key@,
    decreases n,
{
    let rest = SystemSettingsService::overrides_among(rows, definitions, (n - 1) as nat);
    if j < rest.len() {
        lemma_overrides_differ(rows, definitions, (n - 1) as nat, i, j);
    } else {
        let k = lemma_overrides_are_rows(rows, definitions, (n - 1) as nat, i);
        assert(rows[n - 1].key@ != rows[k].key@);
    }
}

proof fn lemma_last_is_the_value(rows: Seq<Setting>, k: int)
    requires
        0 <= k < rows.len(),
        SystemSettingsService::last_of_key(rows, k),
    ensures
        value_of(rows, rows[k].key@) == Some(rows[k].value@),
    decreases rows.len(),
{
    if k < rows.len() - 1 {
        let rest = rows.drop_last();
        assert(rows[rows.len() - 1].key@ != rows[k].key@);
        assert forall|j: int| k < j < rest.len() implies (#[trigger] rest[j]).key@ != rest[k].key@ by {
            assert(rest[j] == rows[j]);
        }
        lemma_last_is_the_value(rest, k);
    }
}

/// Of several rows of a key the last counts: no key overrides twice, an override has the value that
/// is under its key, and a value that was cleared by a later row does not come back.
pub proof fn an_override_is_the_last_of_its_key(
    rows: Seq<Setting>,
    definitions: Seq<Option<SettingDefinition>>,
)
    ensures
        ({
            let out = SystemSettingsService::overrides(rows, definitions);
            &&& forall|i: int, j: int|
                0 <= i < j < out.len() ==> (#[trigger] out[i]).key@ != (#[trigger] out[j]).key@
            &&& forall|i: int|
                0 <= i < out.len() ==> value_of(rows, (#[trigger] out[i]).key@) == Some(
                    out[i].value@,
                ) && out[i].value@.len() > 0
        }),
{
    let out = SystemSettingsService::overrides(rows, definitions);
    assert forall|i: int, j: int| 0 <= i < j < out.len() implies (#[trigger] out[i]).key@ != (
    #[trigger] out[j]).key@ by {
        lemma_overrides_differ(rows, definitions, rows.len(), i, j);
    }
    assert forall|i: int| 0 <= i < out.len() implies value_of(rows, (#[trigger] out[i]).key@) == Some(
        out[i].value@,
    ) && out[i].value@.len() > 0 by {
        let k = lemma_overrides_are_rows(rows, definitions, rows.len(), i);
        lemma_last_is_the_value(rows, k);
    }
}

proof fn lemma_next_write<V>(
    tenant_id: Option<TenantId>,
    plan: Seq<Planned>,
    writes: Seq<Result<(), DomainError>>,
    i: int,
    r: UpdateStep<V>,
)
    requires
        i >= 0,
        write_rule(tenant_id, plan, writes, i, Some(r)),
    ensures
        r is Done || (r is Write && writes.len() < plan.len()),
    decreases plan.len() - i,
{
    if i < plan.len() && i < writes.len() && writes[i] is Ok {
        lemma_next_write(tenant_id, plan, writes, i + 1, r);
    }
}

impl UpdateProgress {
    /// The call `step` asks for something that is not known yet; `plan` is what there is to write.
    pub open spec fn lacks_answer_to<V>(self, step: UpdateStep<V>, plan: nat) -> bool {
        match step {
            UpdateStep::LoadBefore { .. } => self.before is None,
            UpdateStep::Write { .. } => self.writes@.len() < plan,
            UpdateStep::Encrypt { .. } => self.encrypted is None,
            UpdateStep::Audit(_) => self.audits < 1,
            UpdateStep::Reload { .. } => self.after is None,
            UpdateStep::Done(_) => true,
        }
    }
}

proof fn lemma_clear(tenant_id: TenantId, actor: AdminActor, p: UpdateProgress, r: UpdateStep<TenantSmtpView>)
    requires
        SystemSettingsService::clear_rule(tenant_id, actor, p, r),
    ensures
        p.lacks_answer_to(r, 6),
{
    let plan = SystemSettingsService::clear_plan();
    let w = choose|w: Option<UpdateStep<TenantSmtpView>>| #[trigger]
        write_rule(Some(tenant_id), plan, p.writes@, 0, w) && match w {
            Some(step) => r == step,
            None => SystemSettingsService::tenant_end_rule(
                tenant_id,
                actor,
                "smtp cleared"@,
                p,
                r,
            ),
        };
    if let Some(step) = w {
        lemma_next_write(Some(tenant_id), plan, p.writes@, 0, step);
    }
}

proof fn lemma_set(
    svc: SystemSettingsService,
    tenant_id: TenantId,
    cmd: UpdateSmtpCommand,
    actor: AdminActor,
    p: UpdateProgress,
    r: UpdateStep<TenantSmtpView>,
)
    requires
        svc.set_rule(tenant_id, cmd, actor, p, r),
    ensures
        p.lacks_answer_to(r, 6),
{
    let plan = SystemSettingsService::tenant_whole(cmd, p.encrypted);
    assert forall|w: Option<UpdateStep<TenantSmtpView>>| #[trigger]
        write_rule(Some(tenant_id), plan, p.writes@, 0, w) && w is Some implies w->0 is Done || (
    w->0 is Write && p.writes@.len() < plan.len()) by {
        lemma_next_write(Some(tenant_id), plan, p.writes@, 0, w->0);
    }
}

/// An update of a tenant's route asks for nothing that is known already, and writes each part once.
pub proof fn a_route_update_asks_nothing_twice(
    svc: SystemSettingsService,
    tenant_id: TenantId,
    cmd: UpdateSmtpCommand,
    actor: AdminActor,
    p: UpdateProgress,
    r: UpdateStep<TenantSmtpView>,
)
    requires
        svc.update_tenant_rule(tenant_id, cmd, actor, p, r),
    ensures
        p.lacks_answer_to(r, 6),
{
    if svc.set_rule(tenant_id, cmd, actor, p, r) {
        lemma_set(svc, tenant_id, cmd, actor, p, r);
    }
    if SystemSettingsService::clear_rule(tenant_id, actor, p, r) {
        lemma_clear(tenant_id, actor, p, r);
    }
}

/// An update of the provider's own settings asks for nothing that is known already, and writes each
/// value once.
pub proof fn an_update_asks_nothing_twice<V>(
    svc: SystemSettingsService,
    plain: Seq<Planned>,
    secret_key: Seq<char>,
    secret: Option<String>,
    fault: Seq<char>,
    tenant_id: TenantId,
    actor: AdminActor,
    words: Seq<char>,
    shows: spec_fn(V, Seq<Setting>) -> bool,
    p: UpdateProgress,
    r: UpdateStep<V>,
)
    requires
        svc.global_rule(
            plain,
            secret_key,
            secret,
            fault,
            tenant_id,
            actor,
            words,
            shows,
            p,
            r,
        ),
    ensures
        p.lacks_answer_to(r, plain.len() + 1),
{
    let plan = SystemSettingsService::global_whole(plain, secret_key, secret, p.encrypted);
    assert forall|w: Option<UpdateStep<V>>| #[trigger]
        write_rule(None, plan, p.writes@, 0, w) && w is Some implies w->0 is Done || (w->0 is Write
        && p.writes@.len() < plan.len()) by {
        lemma_next_write(None, plan, p.writes@, 0, w->0);
    }
}

proof fn lemma_the_write<V>(
    tenant_id: Option<TenantId>,
    plan: Seq<Planned>,
    writes: Seq<Result<(), DomainError>>,
    i: int,
    r: Option<UpdateStep<V>>,
)
    requires
        0 <= i <= writes.len(),
        write_rule(tenant_id, plan, writes, i, r),
    ensures
        match r {
            None => i >= plan.len() || writes.len() >= plan.len(),
            Some(UpdateStep::Write { tenant_id: t, write }) => t == tenant_id && i <= writes.len()
                && writes.len() < plan.len() && planned(write) == plan[writes.len() as int],
            Some(UpdateStep::Done(Err(e))) => exists|k: int|
                0 <= k < writes.len() && #[trigger] writes[k] == Err::<(), DomainError>(e),
            Some(_) => false,
        },
    decreases plan.len() - i,
{
    if i < plan.len() && i < writes.len() {
        match writes[i] {
            Ok(_) => {
                lemma_the_write(tenant_id, plan, writes, i + 1, r);
            },
            Err(e) => {
                assert(writes[i] == Err::<(), DomainError>(e));
            },
        }
    }
}

proof fn lemma_keys_differ()
    ensures
        "smtp.host"@ != "smtp.port"@,
        "smtp.host"@.len() == 9,
        "smtp.port"@.len() == 9,
        "smtp.username"@ != "smtp.password"@,
        "smtp.username"@.len() == 13,
        "smtp.password"@.len() == 13,
        "smtp.from_address"@.len() == 17,
        "smtp.use_tls"@.len() == 12,
        "sms.gateway_url"@.len() == 15,
        "sms.auth_header"@.len() == 15,
        "sms.gateway_url"@ != "sms.auth_header"@,
        "sms.auth_token"@.len() == 14,
        "sms.sender_id"@.len() == 13,
        "true"@ != "false"@,
{
    reveal_strlit("smtp.host");
    reveal_strlit("smtp.port");
    reveal_strlit("smtp.username");
    reveal_strlit("smtp.password");
    reveal_strlit("smtp.from_address");
    reveal_strlit("smtp.use_tls");
    reveal_strlit("sms.gateway_url");
    reveal_strlit("sms.auth_header");
    reveal_strlit("sms.auth_token");
    reveal_strlit("sms.sender_id");
    reveal_strlit("true");
    reveal_strlit("false");
    assert("smtp.host"@[5] != "smtp.port"@[5]);
    assert("smtp.username"@[5] != "smtp.password"@[5]);
    assert("sms.gateway_url"@[4] != "sms.auth_header"@[4]);
    assert("true"@[0] != "false"@[0]);
}

proof fn lemma_port_reads_back(port: Option<u16>)
    ensures
        u16_value(port_text(port)) == port,
        port is Some <==> port_text(port).len() > 0,
{
    if let Some(n) = port {
        let t = port_text(port);
        nat_text_reads_back(n as nat);
        assert(t[0] >= '0' && t[0] <= '9');
        assert(int_within(t, 0, u16::MAX as int) == Some(n as int));
    }
}

/// A write of the provider's mail route: each part under its key with the value that was given, and the
/// password alone as a secret, never as it was given unless it was given empty.
pub open spec fn writes_smtp(w: SettingWrite, cmd: UpdateSmtpCommand, encrypted: Reply<String>) -> bool {
    &&& w.key@ == "smtp.host"@ ==> (w.value matches Some(v) && v@ == cmd.host@) && !w.is_secret
    &&& w.key@ == "smtp.port"@ ==> (w.value matches Some(v) && u16_value(v@) == cmd.port)
        && !w.is_secret
    &&& w.key@ == "smtp.username"@ ==> (w.value matches Some(v) && v@ == cmd.username@)
        && !w.is_secret
    &&& w.key@ == "smtp.from_address"@ ==> (w.value matches Some(v) && v@ == cmd.from_address@)
        && !w.is_secret
    &&& w.key@ == "smtp.use_tls"@ ==> (w.value matches Some(v) && (cmd.use_tls <==> v@ == "true"@))
        && !w.is_secret
    &&& w.key@ == "smtp.password"@ ==> w.is_secret && (w.value matches Some(v) && (
    cmd.password matches Some(given) && (given@.len() == 0 ==> v@.len() == 0) && (given@.len() > 0
        ==> (encrypted matches Some(Ok(e)) && v@ == e@))))
    &&& w.key@ == "smtp.host"@ || w.key@ == "smtp.port"@ || w.key@ == "smtp.username"@ || w.key@
        == "smtp.from_address"@ || w.key@ == "smtp.use_tls"@ || w.key@ == "smtp.password"@
}

/// An update of the provider's mail route writes what was given, to the provider's rows, and all of it
/// before the change is audited; a password is encrypted under the service's key first; and what is
/// shown is what was read again.
pub proof fn the_route_is_written_as_given(
    svc: SystemSettingsService,
    tenant_id: TenantId,
    cmd: UpdateSmtpCommand,
    actor: AdminActor,
    p: UpdateProgress,
    r: UpdateStep<SmtpSettingsView>,
)
    requires
        update_smtp_rule(svc, tenant_id, cmd, actor, p, r),
    ensures
        match r {
            UpdateStep::Write { tenant_id: t, write } => t is None && writes_smtp(
                write,
                cmd,
                p.encrypted,
            ),
            UpdateStep::Encrypt { secret, key_encryption_key } => cmd.password == Some(secret)
                && key_encryption_key == svc.key_encryption_key && p.writes@.len() >= 5,
            UpdateStep::Audit(a) => a.event == AuditEventType::SystemSettingsUpdated && a.result
                == AuditResult::Success && a.tenant_id == Some(tenant_id) && (
            actor matches AdminActor::User(id) ==> a.user_id == Some(id) && a.client_id is None) && (
            actor matches AdminActor::Client { client_id, .. } ==> a.user_id is None && a.client_id
                == Some(client_id)) && (a.reason matches Some(AuditReason::Words(w)) && w@
                == "smtp"@) && p.writes@.len() >= 5 && (cmd.password is Some ==> p.writes@.len() >= 6),
            UpdateStep::Reload { tenant_id: t } => t is None && p.audits > 0,
            UpdateStep::LoadBefore { .. } => false,
            UpdateStep::Done(Ok(v)) => p.audits > 0 && (p.after matches Some(Ok(rows)) && v.host@
                == text_at(rows@, "smtp.host"@) && v.username@ == text_at(rows@, "smtp.username"@)
                && v.from_address@ == text_at(rows@, "smtp.from_address"@) && (v.password_set <==> text_at(
                rows@,
                "smtp.password"@,
            ).len() > 0)),
            UpdateStep::Done(Err(_)) => (p.after matches Some(Err(_))) || (p.encrypted matches Some(
                Err(_),
            )) || exists|k: int| 0 <= k < p.writes@.len() && (#[trigger] p.writes@[k]) is Err,
        },
{
    lemma_keys_differ();
    lemma_port_reads_back(cmd.port);
    let whole = SystemSettingsService::global_whole(
        SystemSettingsService::smtp_plan(cmd),
        SMTP_PASSWORD@,
        cmd.password,
        p.encrypted,
    );
    assert forall|w: Option<UpdateStep<SmtpSettingsView>>| #[trigger]
        write_rule(None, whole, p.writes@, 0, w) implies match w {
        None => p.writes@.len() >= whole.len(),
        Some(UpdateStep::Write { tenant_id: t, write }) => t is None && p.writes@.len() < whole.len()
            && planned(write) == whole[p.writes@.len() as int],
        Some(UpdateStep::Done(Err(e))) => exists|k: int|
            0 <= k < p.writes@.len() && #[trigger] p.writes@[k] == Err::<(), DomainError>(e),
        Some(_) => false,
    } by {
        lemma_the_write(None, whole, p.writes@, 0, w);
    }
}

/// What was saved of the provider's mail route is what is shown and what mail goes through: where the
/// rows hold what an update has written, the view and the server say what was given.
pub proof fn a_saved_route_reads_back(
    svc: SystemSettingsService,
    cmd: UpdateSmtpCommand,
    rows: Seq<Setting>,
    v: SmtpSettingsView,
    decrypted: Reply<Vec<u8>>,
    server: SmtpServerConfig,
)
    requires
        forall|i: int|
            0 <= i < SystemSettingsService::smtp_plan(cmd).len() ==> value_of(
                rows,
                (#[trigger] SystemSettingsService::smtp_plan(cmd)[i]).key,
            ) == SystemSettingsService::smtp_plan(cmd)[i].value,
        shows_smtp(v, rows),
        svc.server_rule(rows, decrypted, RouteStep::Done(Ok(Some(server)))),
    ensures
        v.host@ == cmd.host@ && server.host@ == cmd.host@,
        v.port == cmd.port && server.port == cmd.port,
        v.username@ == cmd.username@ && server.username@ == cmd.username@,
        v.from_address@ == cmd.from_address@ && server.from_address@ == cmd.from_address@,
        v.use_tls == cmd.use_tls && server.use_tls == cmd.use_tls,
        v.password_set ==> (decrypted matches Some(Ok(bytes)) && vstd::utf8::encode_utf8(
            server.password@,
        ) == bytes@),
        !v.password_set ==> server.password@.len() == 0,
{
    lemma_keys_differ();
    lemma_port_reads_back(cmd.port);
    let plan = SystemSettingsService::smtp_plan(cmd);
    assert(plan[0] == sets(SMTP_HOST@, cmd.host@));
    assert(plan[1] == sets(SMTP_PORT@, port_text(cmd.port)));
    assert(plan[2] == sets(SMTP_USERNAME@, cmd.username@));
    assert(plan[3] == sets(SMTP_FROM_ADDRESS@, cmd.from_address@));
    assert(plan[4] == sets(SMTP_USE_TLS@, flag_text(cmd.use_tls)));
}

/// A write of a tenant's mail route: each part under its key with the value that was given, without the
/// space round it, and the password alone as a secret, never as it was given; or, where nothing is left
/// of the route, the removal of a part of it.
pub open spec fn writes_tenant_smtp(
    w: SettingWrite,
    cmd: UpdateSmtpCommand,
    encrypted: Reply<String>,
) -> bool {
    &&& w.value is Some ==> {
        &&& w.key@ == "smtp.host"@ ==> w.value->0@ == trimmed(cmd.host@) && !w.is_secret
        &&& w.key@ == "smtp.port"@ ==> u16_value(w.value->0@) == cmd.port && !w.is_secret
        &&& w.key@ == "smtp.username"@ ==> w.value->0@ == trimmed(cmd.username@) && !w.is_secret
        &&& w.key@ == "smtp.from_address"@ ==> w.value->0@ == trimmed(cmd.from_address@)
            && !w.is_secret
        &&& w.key@ == "smtp.use_tls"@ ==> (cmd.use_tls <==> w.value->0@ == "true"@) && !w.is_secret
        &&& w.key@ == "smtp.password"@ ==> w.is_secret && (encrypted matches Some(Ok(e))
            && w.value->0@ == e@) && (cmd.password matches Some(given) && given@.len() > 0)
    }
    &&& w.value is None ==> (w.key@ == "smtp.password"@ && (cmd.password matches Some(given)
        && given@.len() == 0)) || (trimmed(cmd.host@).len() == 0 && trimmed(cmd.username@).len() == 0
        && trimmed(cmd.from_address@).len() == 0)
    &&& w.key@ == "smtp.host"@ || w.key@ == "smtp.port"@ || w.key@ == "smtp.username"@ || w.key@
        == "smtp.from_address"@ || w.key@ == "smtp.use_tls"@ || w.key@ == "smtp.password"@
}

proof fn lemma_whole_writes<V>(
    tenant_id: Option<TenantId>,
    plan: Seq<Planned>,
    writes: Seq<Result<(), DomainError>>,
)
    ensures
        forall|w: Option<UpdateStep<V>>| #[trigger]
            write_rule(tenant_id, plan, writes, 0, w) ==> match w {
                None => writes.len() >= plan.len(),
                Some(UpdateStep::Write { tenant_id: t, write }) => t == tenant_id && writes.len()
                    < plan.len() && planned(write) == plan[writes.len() as int],
                Some(UpdateStep::Done(Err(e))) => exists|k: int|
                    0 <= k < writes.len() && #[trigger] writes[k] == Err::<(), DomainError>(e),
                Some(_) => false,
            },
{
    assert forall|w: Option<UpdateStep<V>>| #[trigger]
        write_rule(tenant_id, plan, writes, 0, w) implies match w {
        None => writes.len() >= plan.len(),
        Some(UpdateStep::Write { tenant_id: t, write }) => t == tenant_id && writes.len() < plan.len()
            && planned(write) == plan[writes.len() as int],
        Some(UpdateStep::Done(Err(e))) => exists|k: int|
            0 <= k < writes.len() && #[trigger] writes[k] == Err::<(), DomainError>(e),
        Some(_) => false,
    } by {
        lemma_the_write(tenant_id, plan, writes, 0, w);
    }
}

/// An update of a tenant's mail route writes what was given, to the rows of that tenant and of no other,
/// and all of it before the change is audited; a password is encrypted under the service's key first;
/// and what is shown is what was read again of that tenant.
pub proof fn a_tenants_route_is_written_as_given(
    svc: SystemSettingsService,
    tenant_id: TenantId,
    cmd: UpdateSmtpCommand,
    actor: AdminActor,
    p: UpdateProgress,
    r: UpdateStep<TenantSmtpView>,
)
    requires
        svc.update_tenant_rule(tenant_id, cmd, actor, p, r),
    ensures
        match r {
            UpdateStep::LoadBefore { of } => of == tenant_id && cmd.password is None,
            UpdateStep::Write { tenant_id: t, write } => t == Some(tenant_id) && writes_tenant_smtp(
                write,
                cmd,
                p.encrypted,
            ),
            UpdateStep::Encrypt { secret, key_encryption_key } => cmd.password == Some(secret)
                && secret@.len() > 0 && key_encryption_key == svc.key_encryption_key
                && p.writes@.len() >= 5,
            UpdateStep::Audit(a) => a.event == AuditEventType::TenantUpdated && a.result
                == AuditResult::Success && a.tenant_id == Some(tenant_id) && (
            actor matches AdminActor::User(id) ==> a.user_id == Some(id) && a.client_id is None) && (
            actor matches AdminActor::Client { client_id, .. } ==> a.user_id is None && a.client_id
                == Some(client_id)) && (a.reason matches Some(AuditReason::Words(w)) && (w@
                == "smtp set"@ || w@ == "smtp cleared"@)) && p.writes@.len() >= 5 && (
            cmd.password is Some ==> p.writes@.len() >= 6),
            UpdateStep::Reload { tenant_id: t } => t == Some(tenant_id) && p.audits > 0,
            UpdateStep::Done(Ok(v)) => p.audits > 0 && (p.after matches Some(Ok(rows)) && (
            own_route(route_rows(rows@)) ==> !v.inherited && v.settings.host@ == text_at(
                route_rows(rows@),
                "smtp.host"@,
            )) && (!own_route(route_rows(rows@)) ==> v.inherited && v.settings.host@.len() == 0
                && !v.settings.password_set)),
            UpdateStep::Done(Err(_)) => (p.before matches Some(Err(_))) || (p.after matches Some(
                Err(_),
            )) || (p.encrypted matches Some(Err(_))) || exists|k: int|
                0 <= k < p.writes@.len() && (#[trigger] p.writes@[k]) is Err,
        },
{
    lemma_keys_differ();
    lemma_port_reads_back(cmd.port);
    lemma_whole_writes::<TenantSmtpView>(
        Some(tenant_id),
        SystemSettingsService::tenant_whole(cmd, p.encrypted),
        p.writes@,
    );
    lemma_whole_writes::<TenantSmtpView>(
        Some(tenant_id),
        SystemSettingsService::clear_plan(),
        p.writes@,
    );
}

/// Removing a tenant's route removes every part of it, from the rows of that tenant and of no other.
pub proof fn every_part_of_a_route_is_removed(
    tenant_id: TenantId,
    actor: AdminActor,
    p: UpdateProgress,
    r: UpdateStep<TenantSmtpView>,
)
    requires
        SystemSettingsService::clear_rule(tenant_id, actor, p, r),
    ensures
        r matches UpdateStep::Write { tenant_id: t, write } ==> t == Some(tenant_id)
            && write.value is None && is_smtp_key(write.key@),
        forall|key: Seq<char>| #[trigger]
            is_smtp_key(key) ==> exists|i: int|
                0 <= i < 6 && (#[trigger] SystemSettingsService::clear_plan()[i]).key == key
                    && SystemSettingsService::clear_plan()[i].value is None,
        r matches UpdateStep::Audit(a) ==> p.writes@.len() >= 6 && a.tenant_id == Some(tenant_id) && (
        a.reason matches Some(AuditReason::Words(w)) && w@ == "smtp cleared"@),
        r matches UpdateStep::Reload { tenant_id: t } ==> t == Some(tenant_id),
        !(r is Encrypt) && !(r is LoadBefore),
{
    lemma_whole_writes::<TenantSmtpView>(
        Some(tenant_id),
        SystemSettingsService::clear_plan(),
        p.writes@,
    );
    let plan = SystemSettingsService::clear_plan();
    assert(plan[0].key == SMTP_HOST@);
    assert(plan[1].key == SMTP_PORT@);
    assert(plan[2].key == SMTP_USERNAME@);
    assert(plan[3].key == SMTP_PASSWORD@);
    assert(plan[4].key == SMTP_FROM_ADDRESS@);
    assert(plan[5].key == SMTP_USE_TLS@);
}

/// A write of the gateway: each part under its key with the value that was given, without the space
/// round it, and the token alone as a secret, never as it was given unless it was given empty.
pub open spec fn writes_sms(w: SettingWrite, cmd: UpdateSmsCommand, encrypted: Reply<String>) -> bool {
    &&& w.key@ == "sms.gateway_url"@ ==> (w.value matches Some(v) && v@ == trimmed(cmd.gateway_url@))
        && !w.is_secret
    &&& w.key@ == "sms.auth_header"@ ==> (w.value matches Some(v) && v@ == trimmed(cmd.auth_header@))
        && !w.is_secret
    &&& w.key@ == "sms.sender_id"@ ==> (w.value matches Some(v) && v@ == trimmed(cmd.sender_id@))
        && !w.is_secret
    &&& w.key@ == "sms.auth_token"@ ==> w.is_secret && (w.value matches Some(v) && (
    cmd.auth_token matches Some(given) && (given@.len() == 0 ==> v@.len() == 0) && (given@.len() > 0
        ==> (encrypted matches Some(Ok(e)) && v@ == e@))))
    &&& w.key@ == "sms.gateway_url"@ || w.key@ == "sms.auth_header"@ || w.key@ == "sms.sender_id"@
        || w.key@ == "sms.auth_token"@
}

/// An update of the text message gateway writes what was given, to the provider's rows, and all of it
/// before the change is audited; a token is encrypted under the service's key first.
pub proof fn the_gateway_is_written_as_given(
    svc: SystemSettingsService,
    tenant_id: TenantId,
    cmd: UpdateSmsCommand,
    actor: AdminActor,
    p: UpdateProgress,
    r: UpdateStep<SmsSettingsView>,
)
    requires
        update_sms_rule(svc, tenant_id, cmd, actor, p, r),
    ensures
        match r {
            UpdateStep::Write { tenant_id: t, write } => t is None && writes_sms(
                write,
                cmd,
                p.encrypted,
            ),
            UpdateStep::Encrypt { secret, key_encryption_key } => cmd.auth_token == Some(secret)
                && key_encryption_key == svc.key_encryption_key && p.writes@.len() >= 3,
            UpdateStep::Audit(a) => a.event == AuditEventType::SystemSettingsUpdated && a.result
                == AuditResult::Success && a.tenant_id == Some(tenant_id) && (
            actor matches AdminActor::User(id) ==> a.user_id == Some(id) && a.client_id is None) && (
            actor matches AdminActor::Client { client_id, .. } ==> a.user_id is None && a.client_id
                == Some(client_id)) && (a.reason matches Some(AuditReason::Words(w)) && w@ == "sms"@)
                && p.writes@.len() >= 3 && (cmd.auth_token is Some ==> p.writes@.len() >= 4),
            UpdateStep::Reload { tenant_id: t } => t is None && p.audits > 0,
            UpdateStep::LoadBefore { .. } => false,
            UpdateStep::Done(Ok(v)) => p.audits > 0 && (p.after matches Some(Ok(rows))
                && v.gateway_url@ == text_at(rows@, "sms.gateway_url"@) && v.auth_header@ == text_at(
                rows@,
                "sms.auth_header"@,
            ) && v.sender_id@ == text_at(rows@, "sms.sender_id"@) && (v.auth_token_set <==> text_at(
                rows@,
                "sms.auth_token"@,
            ).len() > 0)),
            UpdateStep::Done(Err(_)) => (p.after matches Some(Err(_))) || (p.encrypted matches Some(
                Err(_),
            )) || exists|k: int| 0 <= k < p.writes@.len() && (#[trigger] p.writes@[k]) is Err,
        },
{
    lemma_keys_differ();
    lemma_whole_writes::<SmsSettingsView>(
        None,
        SystemSettingsService::global_whole(
            SystemSettingsService::sms_plan(cmd),
            SMS_AUTH_TOKEN@,
            cmd.auth_token,
            p.encrypted,
        ),
        p.writes@,
    );
}

/// What was saved of the gateway is what is shown and what messages go through: where the rows hold what
/// an update has written, the view and the gateway say what was given; and there is a gateway exactly
/// where an address was given.
pub proof fn a_saved_gateway_reads_back(
    svc: SystemSettingsService,
    cmd: UpdateSmsCommand,
    rows: Vec<Setting>,
    shown: ViewStep<SmsSettingsView>,
    decrypted: Reply<Vec<u8>>,
    r: SmsStep,
)
    requires
        forall|i: int|
            0 <= i < SystemSettingsService::sms_plan(cmd).len() ==> value_of(
                rows@,
                (#[trigger] SystemSettingsService::sms_plan(cmd)[i]).key,
            ) == SystemSettingsService::sms_plan(cmd)[i].value,
        sms_view_rule(Some(Ok(rows)), shown),
        gateway_rule(svc, Some(Ok(rows)), decrypted, r),
    ensures
        shown matches ViewStep::Done(Ok(v)) && v.gateway_url@ == trimmed(cmd.gateway_url@)
            && v.auth_header@ == trimmed(cmd.auth_header@) && v.sender_id@ == trimmed(cmd.sender_id@)
            && (r matches SmsStep::Done(Ok(Some(c))) ==> c.endpoint_url@ == v.gateway_url@
            && c.auth_header@ == v.auth_header@ && c.sender_id@ == v.sender_id@ && (!v.auth_token_set
            ==> c.auth_token@.len() == 0) && (v.auth_token_set ==> (decrypted matches Some(Ok(bytes))
            && vstd::utf8::encode_utf8(c.auth_token@) == bytes@))) && (
        r matches SmsStep::Decrypt { stored, key_encryption_key } ==> v.auth_token_set && stored@
            == text_at(rows@, "sms.auth_token"@) && key_encryption_key == svc.key_encryption_key),
        r == SmsStep::Done(Ok(None)) <==> trimmed(cmd.gateway_url@).len() == 0,
{
    let plan = SystemSettingsService::sms_plan(cmd);
    assert(plan[0] == sets(SMS_GATEWAY_URL@, trimmed(cmd.gateway_url@)));
    assert(plan[1] == sets(SMS_AUTH_HEADER@, trimmed(cmd.auth_header@)));
    assert(plan[2] == sets(SMS_SENDER_ID@, trimmed(cmd.sender_id@)));
    crate::text::a_trimmed_text_stays(cmd.gateway_url@);
}

/// The server that a tenant's mail goes through is put together from the rows of the route that counts,
/// and the password from the stored one alone, under the service's key.
pub proof fn a_server_is_that_of_its_route(
    svc: SystemSettingsService,
    tenant_id: TenantId,
    p: RouteProgress,
    r: RouteStep,
)
    requires
        svc.smtp_server_for_rule(tenant_id, p, r),
    ensures
        match r {
            RouteStep::LoadTenant { tenant_id: t } => t == tenant_id && p.tenant_rows is None,
            RouteStep::LoadAll => p.tenant_rows matches Some(Ok(rows)) && !own_route(
                route_rows(rows@),
            ),
            RouteStep::Decrypt { stored, key_encryption_key } => key_encryption_key
                == svc.key_encryption_key && stored@.len() > 0 && (p.tenant_rows matches Some(Ok(own))
                && (own_route(route_rows(own@)) ==> stored@ == text_at(
                route_rows(own@),
                "smtp.password"@,
            )) && (!own_route(route_rows(own@)) ==> (p.rows matches Some(Ok(rows)) && stored@
                == text_at(rows@, "smtp.password"@)))),
            RouteStep::Done(Ok(Some(c))) => c.host@.len() > 0 && c.from_address@.len() > 0 && (
            p.tenant_rows matches Some(Ok(own)) && (own_route(route_rows(own@)) ==> c.host@ == text_at(
                route_rows(own@),
                "smtp.host"@,
            ) && c.username@ == text_at(route_rows(own@), "smtp.username"@) && c.from_address@
                == text_at(route_rows(own@), "smtp.from_address"@)) && (!own_route(route_rows(own@))
                ==> (p.rows matches Some(Ok(rows)) && c.host@ == text_at(rows@, "smtp.host"@)
                && c.username@ == text_at(rows@, "smtp.username"@) && c.from_address@ == text_at(
                rows@,
                "smtp.from_address"@,
            )))),
            RouteStep::Done(Ok(None)) => p.tenant_rows matches Some(Ok(own)) && (own_route(
                route_rows(own@),
            ) ==> text_at(route_rows(own@), "smtp.host"@).len() == 0 || text_at(
                route_rows(own@),
                "smtp.from_address"@,
            ).len() == 0) && (!own_route(route_rows(own@)) ==> (p.rows matches Some(Ok(rows)) && (
            text_at(rows@, "smtp.host"@).len() == 0 || text_at(rows@, "smtp.from_address"@).len()
                == 0))),
            RouteStep::Done(Err(_)) => (p.tenant_rows matches Some(Err(_))) || (p.rows matches Some(
                Err(_),
            )) || (p.decrypted matches Some(Err(_))) || (p.decrypted matches Some(Ok(bytes))
                && !vstd::utf8::valid_utf8(bytes@)),
        },
{
}

/// A view is made of the rows that were read: those of the tenant that was named, or the provider's.
pub proof fn a_view_is_of_what_was_read(
    tenant_id: TenantId,
    rows: Stored<Vec<Setting>>,
    of_tenant: ViewStep<TenantSmtpView>,
    of_provider: ViewStep<SmtpSettingsView>,
    of_gateway: ViewStep<SmsSettingsView>,
)
    requires
        tenant_view_rule(tenant_id, rows, of_tenant),
        smtp_view_rule(rows, of_provider),
        sms_view_rule(rows, of_gateway),
    ensures
        of_tenant matches ViewStep::LoadTenant { tenant_id: t } ==> t == tenant_id,
        !(of_tenant is LoadAll) && !(of_provider is LoadTenant) && !(of_gateway is LoadTenant),
        of_provider matches ViewStep::Done(Ok(v)) ==> (rows matches Some(Ok(rs)) && v.host@ == text_at(
            rs@,
            "smtp.host"@,
        ) && v.username@ == text_at(rs@, "smtp.username"@) && v.from_address@ == text_at(
            rs@,
            "smtp.from_address"@,
        ) && (v.use_tls <==> value_of(rs@, "smtp.use_tls"@) == Some("true"@)) && (v.password_set
            <==> text_at(rs@, "smtp.password"@).len() > 0)),
        of_tenant matches ViewStep::Done(Ok(v)) ==> (rows matches Some(Ok(rs)) && (v.inherited
            <==> !own_route(route_rows(rs@))) && (!v.inherited ==> v.settings.host@ == text_at(
            route_rows(rs@),
            "smtp.host"@,
        ) && v.settings.username@ == text_at(route_rows(rs@), "smtp.username"@)
            && v.settings.from_address@ == text_at(route_rows(rs@), "smtp.from_address"@)) && (
        v.inherited ==> v.settings.host@.len() == 0 && v.settings.username@.len() == 0
            && v.settings.from_address@.len() == 0 && !v.settings.password_set)),
        of_gateway matches ViewStep::Done(Ok(v)) ==> (rows matches Some(Ok(rs)) && v.gateway_url@
            == text_at(rs@, "sms.gateway_url"@) && v.auth_header@ == text_at(rs@, "sms.auth_header"@)
            && v.sender_id@ == text_at(rs@, "sms.sender_id"@) && (v.auth_token_set <==> text_at(
            rs@,
            "sms.auth_token"@,
        ).len() > 0)),
{
}

/// A runtime setting is changed under the key that was named and to the value that was given, without
/// the space round it; what is checked is what is written; only a known, stored setting that is no
/// secret is; and the entry names the key and not the value.
pub proof fn a_runtime_setting_is_written_as_checked(
    tenant_id: TenantId,
    key: String,
    value: Option<String>,
    actor: AdminActor,
    p: RuntimeProgress,
    r: RuntimeStep,
)
    requires
        SystemSettingsService::runtime_rule(tenant_id, key, value, actor, p, r),
    ensures
        match r {
            RuntimeStep::FindDefinition { key: k } => k == key,
            RuntimeStep::Validate { key: k, value: v } => k == key && (value matches Some(given) && v@
                == trimmed(given@)) && v@.len() > 0,
            RuntimeStep::CheckBootable { key: k, value: v } => k == key && (value matches Some(given)
                && v@ == trimmed(given@)) && (p.valid matches Some(Ok(_))),
            RuntimeStep::Write(w) => w.key@ == key@ && !w.is_secret && (w.value matches Some(v) && (
            value matches Some(given) ==> v@ == trimmed(given@)) && (value is None ==> v@.len() == 0)
                && (v@.len() > 0 ==> (p.valid matches Some(Ok(_))) && (p.bootable matches Some(Ok(_)))))
                && (p.definition matches Some(Some(d)) && d.db_managed && !d.secret),
            RuntimeStep::Audit(a) => a.event == AuditEventType::SystemSettingsUpdated && a.result
                == AuditResult::Success && a.tenant_id == Some(tenant_id) && (
            actor matches AdminActor::User(id) ==> a.user_id == Some(id) && a.client_id is None) && (
            actor matches AdminActor::Client { client_id, .. } ==> a.user_id is None && a.client_id
                == Some(client_id)) && (a.reason matches Some(AuditReason::Words(w)) && (w@
                == "runtime "@ + key@ + " set"@ || w@ == "runtime "@ + key@ + " cleared"@)) && (
            p.written matches Some(Ok(_))),
            RuntimeStep::Done(Ok(_)) => (p.written matches Some(Ok(_))) && p.audits > 0,
            RuntimeStep::Done(Err(DomainError::InvalidValue(m))) => p.definition == Some(
                None::<SettingDefinition>,
            ) || (p.definition matches Some(Some(d)) && (!d.db_managed || d.secret)) || p.valid
                == Some(Err::<(), String>(m)) || p.written == Some(
                Err::<(), DomainError>(DomainError::InvalidValue(m)),
            ),
            RuntimeStep::Done(Err(DomainError::Conflict(m))) => p.bootable == Some(
                Err::<(), String>(m),
            ) || p.written == Some(Err::<(), DomainError>(DomainError::Conflict(m))),
            RuntimeStep::Done(Err(e)) => p.written == Some(Err::<(), DomainError>(e)),
        },
{
}

/// Row by row it is asked what is known of a key, and no secret is ever shown: what is shown are rows
/// that the store has, with a value, of settings that are known to be none.
pub proof fn no_secret_is_shown(
    rows: Stored<Vec<Setting>>,
    definitions: Seq<Option<SettingDefinition>>,
    r: OverridesStep,
)
    requires
        overrides_rule(rows, definitions, r),
    ensures
        r matches OverridesStep::FindDefinition { key } ==> (rows matches Some(Ok(rs))
            && definitions.len() < rs@.len() && key == rs@[definitions.len() as int].key),
        r matches OverridesStep::Done(Ok(out)) ==> (rows matches Some(Ok(rs)) && forall|k: int|
            0 <= k < out@.len() ==> (#[trigger] out@[k]).value@.len() > 0 && exists|i: int|
                0 <= i < rs@.len() && rs@[i] == out@[k] && (#[trigger] definitions[i] matches Some(d)
                    && !d.secret)),
        r matches OverridesStep::Done(Err(e)) ==> rows == Some(
            Err::<Vec<Setting>, DomainError>(e),
        ),
{
    if let Some(Ok(rs)) = rows {
        if let OverridesStep::Done(Ok(out)) = r {
            assert forall|k: int| 0 <= k < out@.len() implies (#[trigger] out@[k]).value@.len() > 0
                && exists|i: int|
                0 <= i < rs@.len() && rs@[i] == out@[k] && (#[trigger] definitions[i] matches Some(d)
                    && !d.secret) by {
                lemma_an_override(rs@, definitions, rs@.len(), k);
            }
        }
    }
}

proof fn lemma_an_override(
    rows: Seq<Setting>,
    definitions: Seq<Option<SettingDefinition>>,
    n: nat,
    k: int,
)
    requires
        n <= rows.len(),
        0 <= k < SystemSettingsService::overrides_among(rows, definitions, n).len(),
    ensures
        SystemSettingsService::overrides_among(rows, definitions, n)[k].value@.len() > 0,
        exists|i: int|
            0 <= i < rows.len() && rows[i] == SystemSettingsService::overrides_among(
                rows,
                definitions,
                n,
            )[k] && (#[trigger] definitions[i] matches Some(d) && !d.secret),
    decreases n,
{
    if n > 0 {
        let rest = SystemSettingsService::overrides_among(rows, definitions, (n - 1) as nat);
        if k < rest.len() {
            lemma_an_override(rows, definitions, (n - 1) as nat, k);
        } else {
            assert(definitions[n - 1] is Some);
        }
    }
}

} // verus!
