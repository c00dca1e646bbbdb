use base64::Engine;
use idp_core::audit::AuditRecord;
use idp_core::crypto::sha256_hex;
use idp_core::key_service::ActiveSigningKey;
use idp_core::model::{TenantContext, TenantId, User, UserStatus, Uuid};
use idp_core::saml_sso::{
    AuthnRequest, SamlBeginCommand, SamlBeginDraw, SamlBeginOutcome, SamlBeginProgress,
    SamlBeginStep, SamlResponseDraw, SamlResponseInput, SamlResumeCommand, SamlResumeOutcome,
    SamlResumeProgress, SamlResumeStep, SamlServiceProvider, SamlSsoBinding, SamlSsoRequest,
    SamlSsoService,
};
use idp_core::sso_restore::RestoredSso;
use idp_core::time::{Span, Timestamp};

fn now() -> Timestamp {
    Timestamp::from_unix(1_700_000_000).unwrap()
}

fn tenant() -> TenantContext {
    TenantContext { tenant_id: TenantId { value: 1 } }
}

fn svc() -> SamlSsoService {
    SamlSsoService::new("https://idp".to_string(), Span::seconds(600))
}

fn provider(format: &str, enabled: bool) -> SamlServiceProvider {
    SamlServiceProvider {
        id: Uuid { value: 80 },
        tenant_id: TenantId { value: 1 },
        display_name: "SP".to_string(),
        entity_id: "urn:sp".to_string(),
        acs_url: "https://sp/acs".to_string(),
        name_id_format: format.to_string(),
        x509_certificate: None,
        enabled,
    }
}

fn begin(
    parsed: Result<AuthnRequest, String>,
    found: Option<SamlServiceProvider>,
    relay_state: Option<String>,
    audits: &mut Vec<AuditRecord>,
) -> (SamlBeginOutcome, Option<SamlSsoRequest>) {
    let cmd = SamlBeginCommand {
        binding: SamlSsoBinding::Redirect,
        saml_request: "deflated".to_string(),
        relay_state,
    };
    let draw = SamlBeginDraw {
        now: now(),
        handle: "handle".to_string(),
        request_row: "row".to_string(),
    };
    let mut parsed = Some(parsed);
    let mut found = Some(found);
    let mut stored = None;
    let mut p = SamlBeginProgress::default();
    loop {
        match svc().begin(&tenant(), &cmd, &draw, &p) {
            SamlBeginStep::ParseRequest { saml_request, .. } => {
                assert_eq!(saml_request, "deflated");
                p.parsed = parsed.take();
            }
            SamlBeginStep::FindProvider { entity_id, .. } => {
                assert_eq!(entity_id, "urn:sp");
                p.provider = Some(Ok(found.take().unwrap()));
            }
            SamlBeginStep::StoreRequest(r) => {
                stored = Some(r);
                p.stored = Some(Ok(()));
            }
            SamlBeginStep::Audit(a) => {
                audits.push(a);
                p.audits += 1;
            }
            SamlBeginStep::Done(o) => return (o, stored),
        }
    }
}

fn asked(acs_url: Option<&str>, id: &str) -> Result<AuthnRequest, String> {
    Ok(AuthnRequest {
        issuer: "urn:sp".to_string(),
        acs_url: acs_url.map(|u| u.to_string()),
        request_id: Some(id.to_string()),
    })
}

#[test]
fn a_request_is_kept_under_the_hash_of_its_handle() {
    let mut audits = vec![];
    let (outcome, stored) = begin(
        asked(Some("https://sp/acs"), "_1"),
        Some(provider("f", true)),
        Some("back".to_string()),
        &mut audits,
    );
    assert!(matches!(outcome, SamlBeginOutcome::HandoffToWeb { handle } if handle == "handle"));
    let stored = stored.unwrap();
    assert_eq!(stored.id, "row");
    assert_eq!(stored.acs_url, "https://sp/acs");
    assert_eq!(stored.handle_hash, Some(sha256_hex("handle")));
    assert_eq!(stored.handle_expires_at, Some(now().plus(Span::seconds(60))));
    assert_eq!(stored.expires_at, now().plus(Span::seconds(600)));
    assert_eq!(stored.request_id, Some("_1".to_string()));
    assert_eq!(stored.relay_state, Some("back".to_string()));
    assert!(audits.is_empty());
}

#[test]
fn every_refusal_of_a_request() {
    let long = "x".repeat(1025);
    let wide = "あ".repeat(342);
    for (parsed, found, relay, expected) in [
        (Err("no xml".to_string()), None, None, "no xml"),
        (asked(None, "_1"), None, None, "unknown SAML service provider"),
        (asked(None, "_1"), Some(provider("f", false)), None, "SAML service provider is disabled"),
        (
            asked(Some("https://evil/acs"), "_1"),
            Some(provider("f", true)),
            None,
            "AssertionConsumerServiceURL does not match the registered ACS URL",
        ),
        (asked(None, &long), Some(provider("f", true)), None, "AuthnRequest ID is too long"),
        (asked(None, "_1"), Some(provider("f", true)), Some(wide), "RelayState is too long"),
    ] {
        let mut audits = vec![];
        let (outcome, stored) = begin(parsed, found, relay, &mut audits);
        let SamlBeginOutcome::BadRequest { reason } = outcome else {
            panic!("must be refused");
        };
        assert_eq!(reason, expected);
        assert!(stored.is_none());
        assert_eq!(audits.len(), 1);
    }
    let mut audits = vec![];
    let exact = Some("x".repeat(1024));
    let (outcome, _) =
        begin(asked(None, &"y".repeat(1024)), Some(provider("f", true)), exact, &mut audits);
    assert!(matches!(outcome, SamlBeginOutcome::HandoffToWeb { .. }));
}

struct Waiting {
    request: Option<SamlSsoRequest>,
    signed_on: bool,
    format: &'static str,
    enabled: bool,
    consumed: bool,
    claimed: bool,
    built: Option<SamlResponseInput>,
    deleted: bool,
    audits: Vec<AuditRecord>,
}

fn waiting() -> Waiting {
    let mut audits = vec![];
    let (_, request) = begin(
        asked(None, "_1"),
        Some(provider("f", true)),
        Some("back".to_string()),
        &mut audits,
    );
    Waiting {
        request,
        signed_on: true,
        format: "urn:oasis:names:tc:SAML:2.0:nameid-format:persistent",
        enabled: true,
        consumed: true,
        claimed: true,
        built: None,
        deleted: false,
        audits,
    }
}

impl Waiting {
    fn resume(&mut self, handle: Option<&str>, id: Option<&str>, at: Timestamp) -> SamlResumeOutcome {
        let cmd = SamlResumeCommand {
            handle: handle.map(|h| h.to_string()),
            saml_request_id: id.map(|i| i.to_string()),
            sso_session_id: Some("cookie".to_string()),
        };
        let draw = SamlResponseDraw {
            now: at,
            response_id: "_r".to_string(),
            assertion_id: "_a".to_string(),
        };
        let mut p = SamlResumeProgress::default();
        loop {
            match svc().resume(&tenant(), &cmd, at, &draw, &p) {
                SamlResumeStep::FindByHandle { handle_hash, .. } => {
                    p.by_handle = Some(Ok(self
                        .request
                        .take()
                        .filter(|r| r.handle_hash == Some(handle_hash))));
                }
                SamlResumeStep::ConsumeHandle { request_id, .. } => {
                    assert_eq!(request_id, "row");
                    p.handle_consumed = Some(Ok(self.consumed));
                }
                SamlResumeStep::FindById { request_id, .. } => {
                    p.by_id = Some(Ok(self.request.take().filter(|r| r.id == request_id)));
                }
                SamlResumeStep::RestoreSso { tenant_id, sso_session_id } => {
                    assert_eq!(tenant_id, tenant().tenant_id);
                    assert_eq!(sso_session_id, "cookie");
                    p.restored = Some(Ok(self.signed_on.then_some(RestoredSso {
                        user_id: Uuid { value: 7 },
                        auth_time: now(),
                        session_hash: "hash".to_string(),
                    })));
                }
                SamlResumeStep::FindProvider { .. } => {
                    p.provider = Some(Ok(Some(provider(self.format, self.enabled))));
                }
                SamlResumeStep::DeleteOrphan { .. } => {
                    self.deleted = true;
                    p.orphan_deleted = true;
                }
                SamlResumeStep::ClaimRequest { .. } => p.claimed = Some(Ok(self.claimed)),
                SamlResumeStep::FindUser { user_id } => {
                    p.user = Some(Ok(Some(User {
                        id: user_id,
                        sub: Uuid { value: 8 },
                        tenant_id: TenantId { value: 1 },
                        email: "u@example.com".to_string(),
                        email_verified: true,
                        preferred_username: None,
                        name: None,
                        language: None,
                        password_hash: String::new(),
                        status: UserStatus::Active,
                        must_change_password: false,
                        failed_login_count: 0,
                        locked_until: None,
                    })));
                }
                SamlResumeStep::FindSigningKey => {
                    p.key = Some(Ok(ActiveSigningKey {
                        kid: "k".to_string(),
                        algorithm: "RS256".to_string(),
                        private_pem: "pem".to_string(),
                    }));
                }
                SamlResumeStep::ComposeIssuer { base_issuer, tenant_id } => {
                    assert_eq!(base_issuer, "https://idp");
                    p.issuer = Some(format!("{base_issuer}/{}", tenant_id.value));
                }
                SamlResumeStep::BuildResponse { input, algorithm, private_pem } => {
                    assert_eq!((algorithm.as_str(), private_pem.as_str()), ("RS256", "pem"));
                    self.built = Some(input);
                    p.document = Some(Ok("<Response/>\u{e9}".to_string()));
                }
                SamlResumeStep::Audit(a) => {
                    self.audits.push(a);
                    p.audits += 1;
                }
                SamlResumeStep::Done(o) => return o,
            }
        }
    }
}

#[test]
fn a_signed_on_user_is_sent_back_with_an_assertion() {
    let mut w = waiting();
    let SamlResumeOutcome::Completed { acs_url, saml_response, relay_state } =
        w.resume(Some("handle"), None, now())
    else {
        panic!("must complete");
    };
    assert_eq!(acs_url, "https://sp/acs");
    assert_eq!(relay_state, Some("back".to_string()));
    assert_eq!(
        base64::engine::general_purpose::STANDARD.decode(saml_response).unwrap(),
        "<Response/>\u{e9}".as_bytes()
    );
    let built = w.built.unwrap();
    assert_eq!(built.name_id, "00000000-0000-0000-0000-000000000008");
    assert_eq!(built.session_index, "_hash");
    assert_eq!(built.in_response_to, Some("_1".to_string()));
    assert_eq!(built.not_on_or_after, now().plus(Span::seconds(300)));
    assert_eq!(built.email, Some("u@example.com".to_string()));
    assert_eq!(w.audits.len(), 1);

    let mut w = waiting();
    w.format = "urn:oasis:names:tc:SAML:1.1:nameid-format:emailAddress";
    assert!(matches!(
        w.resume(None, Some("row"), now()),
        SamlResumeOutcome::Completed { .. }
    ));
    assert_eq!(w.built.unwrap().name_id, "u@example.com");
}

#[test]
fn handles_and_requests_serve_once_and_not_for_long() {
    let mut w = waiting();
    w.consumed = false;
    assert!(matches!(w.resume(Some("handle"), None, now()), SamlResumeOutcome::Expired));
    let late = now().plus(Span::seconds(60));
    assert!(matches!(waiting().resume(Some("handle"), None, late), SamlResumeOutcome::Expired));
    assert!(matches!(waiting().resume(Some("other"), None, now()), SamlResumeOutcome::Expired));
    assert!(matches!(waiting().resume(None, None, now()), SamlResumeOutcome::Expired));
    let end = now().plus(Span::seconds(600));
    assert!(matches!(waiting().resume(None, Some("row"), end), SamlResumeOutcome::Expired));
    let mut w = waiting();
    w.claimed = false;
    assert!(matches!(w.resume(None, Some("row"), now()), SamlResumeOutcome::Expired));
    assert!(w.built.is_none());
}

#[test]
fn a_user_who_is_not_signed_on_signs_in_first() {
    let mut w = waiting();
    w.signed_on = false;
    assert!(matches!(
        w.resume(Some("handle"), None, now()),
        SamlResumeOutcome::LoginRequired { saml_request_id } if saml_request_id == "row"
    ));
    let mut w = waiting();
    w.enabled = false;
    assert!(matches!(w.resume(Some("handle"), None, now()), SamlResumeOutcome::Expired));
    assert!(w.deleted);
}
