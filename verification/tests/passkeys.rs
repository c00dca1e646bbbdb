use idp_core::audit::AuditRecord;
use idp_core::code_flow::{scopes_needing_consent, CodeDispatch, FlowStep};
use idp_core::crypto::sha256_hex;
use idp_core::login::LoginDraw;
use idp_core::model::{
    id_hash, AuthSession, AuthenticationMethod, ClientConsent, CodeChallengeMethod,
    DefaultPolicyEffect, DomainError, PolicyDecision, PolicyEvaluation, RequestContext,
    ResponseMode, SsoDraw, SsoGrant, SsoSession, TenantContext, TenantId, User, UserStatus, Uuid,
};
use idp_core::passkey_assertion::{
    ensure_active_member, AssertionProgress, AssertionStep, BeginProgress, BeginStep, BegunCeremony,
    CeremonyReply, PasskeyAssertionError, PasskeyAssertionService, PasskeyChallenge,
    PasskeyChallengeType, PasskeyFlow, VerifiedPasskeyUser, WebAuthnCredential,
};
use idp_core::passkey_authentication::{
    PasskeyAuthOutcome, PasskeyAuthProgress, PasskeyAuthStep, PasskeyAuthenticationService,
};
use idp_core::passkey_registration::{
    BeginProgress as RegisterBegin, BeginStep as RegisterStep, BegunRegistration, CompleteProgress,
    CompleteStep, ManageStep, NewPasskey, PasskeyRegistrationError, PasskeyRegistrationService,
};
use idp_core::sso_restore::{RestoreProgress, RestoreStep, RestoredSso, SsoRestorer};
use idp_core::step_up::StepUpService;
use idp_core::time::{Span, Timestamp};

fn now() -> Timestamp {
    Timestamp::from_unix(1_784_246_400).unwrap()
}

fn minutes(n: i64) -> Timestamp {
    now().plus(Span::seconds(n * 60))
}

fn tenant_id() -> TenantId {
    TenantId { value: 1 }
}

fn tenant() -> TenantContext {
    TenantContext { tenant_id: tenant_id() }
}

const USER: Uuid = Uuid { value: 7 };
const CHALLENGE: Uuid = Uuid { value: 70 };
const SESSION_ID: &str = "waiting-session";

fn active_user() -> User {
    User {
        id: USER,
        sub: Uuid { value: 8 },
        tenant_id: tenant_id(),
        email: "u@example.com".to_string(),
        email_verified: true,
        preferred_username: None,
        name: None,
        language: None,
        password_hash: "x".to_string(),
        status: UserStatus::Active,
        must_change_password: false,
        failed_login_count: 0,
        locked_until: None,
    }
}

// ---------------------------------------------------------------------------
// Documents of ceremonies

fn relying_party() -> webauthn_rs::Webauthn {
    let origin = webauthn_rs::prelude::Url::parse("https://idp.example.com").unwrap();
    webauthn_rs::WebauthnBuilder::new("idp.example.com", &origin).unwrap().build().unwrap()
}

fn assertion_state() -> String {
    let (_, state) = relying_party().start_discoverable_authentication().unwrap();
    serde_json::to_string(&state).unwrap()
}

fn registration_state() -> String {
    let (_, state) = relying_party()
        .start_passkey_registration(webauthn_rs::prelude::Uuid::from_u128(7), "u", "u", None)
        .unwrap();
    serde_json::to_string(&state).unwrap()
}

const ANSWER: &str = r#"{"id":"AQIDBA","rawId":"AQIDBA","type":"public-key","response":{"authenticatorData":"AAAA","clientDataJSON":"AAAA","signature":"AAAA","userHandle":null}}"#;

const REGISTRATION_ANSWER: &str = r#"{"id":"AQIDBA","rawId":"AQIDBA","type":"public-key","response":{"attestationObject":"AAAA","clientDataJSON":"AAAA"}}"#;

const PASSKEY: &str = r#"{"cred":{"cred_id":"AQIDBA","cred":{"type_":"ES256","key":{"EC_EC2":{"curve":"SECP256R1","x":"AQID","y":"BAUG"}}},"counter":0,"transports":null,"user_verified":true,"backup_eligible":false,"backup_state":false,"registration_policy":"required","extensions":{},"attestation":{"data":"None","metadata":"None"},"attestation_format":"none"}}"#;

/// What comes of an answer to a ceremony that was accepted, with the authenticator's counter.
fn result(cred_id: &str, counter: u32) -> String {
    format!(
        r#"{{"cred_id":"{cred_id}","needs_update":false,"user_verified":true,"backup_state":false,"backup_eligible":false,"counter":{counter},"extensions":{{}}}}"#
    )
}

fn counter(passkey: &str) -> Option<u64> {
    let passkey: serde_json::Value = serde_json::from_str(passkey).unwrap();
    passkey["cred"]["counter"].as_u64()
}

fn credential() -> WebAuthnCredential {
    WebAuthnCredential {
        id: Uuid { value: 33 },
        user_id: USER,
        credential_id: "AQIDBA".to_string(),
        passkey_json: PASSKEY.to_string(),
        name: "laptop".to_string(),
        created_at: now(),
        last_used_at: None,
    }
}

// ---------------------------------------------------------------------------
// Assertions

fn challenge(auth_session: Option<&str>, expires_at: Timestamp) -> PasskeyChallenge {
    PasskeyChallenge {
        id: CHALLENGE,
        user_id: None,
        challenge_type: PasskeyChallengeType::Authenticate,
        state_json: assertion_state(),
        auth_session_id_hash: auth_session.map(|s| s.to_string()),
        expires_at,
        created_at: now(),
    }
}

struct Store {
    challenge: Option<PasskeyChallenge>,
    credential: Option<WebAuthnCredential>,
    blocked: bool,
    accepted: bool,
    result: Result<String, String>,
    user: Option<User>,
    member: bool,
    deleted: Vec<Uuid>,
    saved: Vec<String>,
    audits: Vec<AuditRecord>,
}

fn store(challenge: PasskeyChallenge) -> Store {
    Store {
        challenge: Some(challenge),
        credential: Some(credential()),
        blocked: false,
        accepted: true,
        result: Ok(result("AQIDBA", 0)),
        user: Some(active_user()),
        member: true,
        deleted: vec![],
        saved: vec![],
        audits: vec![],
    }
}

impl Store {
    fn verify(
        &mut self,
        answer: &str,
        flow: PasskeyFlow,
    ) -> Result<VerifiedPasskeyUser, PasskeyAssertionError> {
        let mut p = AssertionProgress::default();
        loop {
            let svc = PasskeyAssertionService::new();
            match svc.verify(tenant_id(), CHALLENGE, &answer.to_string(), flow, now(), &p) {
                AssertionStep::FindChallenge { id } => {
                    p.challenge = Some(Ok(self.challenge.take().filter(|c| c.id == id)));
                }
                AssertionStep::DeleteExpired { id } => {
                    self.deleted.push(id);
                    p.expired_deleted = true;
                }
                AssertionStep::ConsumeChallenge { id } => {
                    self.deleted.push(id);
                    p.consumed = Some(Ok(()));
                }
                AssertionStep::FindCredential { credential_id } => {
                    p.credential = Some(Ok(self
                        .credential
                        .take()
                        .filter(|c| c.credential_id == credential_id)));
                }
                AssertionStep::FindBlocked { authenticator_id, .. } => {
                    assert_eq!(authenticator_id, Uuid { value: 33 });
                    p.blocked = Some(Ok(self.blocked));
                }
                AssertionStep::CheckCeremony { passkey_json, .. } => {
                    assert_eq!(passkey_json, PASSKEY);
                    p.ceremony = Some(if self.accepted {
                        CeremonyReply::Accepted { result_json: self.result.clone() }
                    } else {
                        CeremonyReply::Rejected
                    });
                }
                AssertionStep::SavePasskey { id, passkey_json, now: at } => {
                    assert_eq!((id, at), (Uuid { value: 33 }, now()));
                    self.saved.push(passkey_json);
                    p.passkey_saved = Some(Ok(()));
                }
                AssertionStep::FindUser { .. } => p.user = Some(Ok(self.user.clone())),
                AssertionStep::FindMembership { tenant_id: t, .. } => {
                    assert_eq!(t, tenant_id());
                    p.member = Some(Ok(self.member));
                }
                AssertionStep::Audit(a) => {
                    self.audits.push(a);
                    p.audits += 1;
                }
                AssertionStep::Done(r) => return r,
            }
        }
    }
}

#[test]
fn an_authorization_flow_challenge_is_not_accepted_by_a_direct_login() {
    let mut w = store(challenge(Some("auth-session-hash"), minutes(5)));
    assert!(matches!(
        w.verify("null", PasskeyFlow::Direct),
        Err(PasskeyAssertionError::WrongFlow)
    ));
    assert_eq!(w.deleted, [CHALLENGE]);
}

#[test]
fn a_direct_login_challenge_is_not_accepted_by_the_authorization_flow() {
    let mut w = store(challenge(None, minutes(5)));
    assert!(matches!(w.verify("null", PasskeyFlow::Oidc), Err(PasskeyAssertionError::WrongFlow)));
}

#[test]
fn an_expired_challenge_is_rejected_before_the_flow_check() {
    let mut w = store(challenge(None, now().plus(Span::seconds(-1))));
    assert!(matches!(
        w.verify("null", PasskeyFlow::Direct),
        Err(PasskeyAssertionError::ChallengeNotFound)
    ));
    assert_eq!(w.deleted, [CHALLENGE]);
}

fn ensure(
    user: Option<User>,
    member: Option<Result<bool, String>>,
) -> Result<VerifiedPasskeyUser, PasskeyAssertionError> {
    let verified = VerifiedPasskeyUser { user_id: USER, auth_session_id_hash: None };
    match ensure_active_member(tenant_id(), USER, &Some(Ok(user)), &member, verified) {
        AssertionStep::Done(r) => r,
        _ => panic!("asked for more"),
    }
}

#[test]
fn active_member_is_authorized() {
    assert!(ensure(Some(active_user()), Some(Ok(true))).is_ok());
}

#[test]
fn non_member_is_rejected_as_invalid_credential() {
    assert!(matches!(
        ensure(Some(active_user()), Some(Ok(false))),
        Err(PasskeyAssertionError::InvalidCredential)
    ));
}

#[test]
fn inactive_user_is_rejected_without_touching_membership() {
    let mut user = active_user();
    user.status = UserStatus::Disabled;
    assert!(matches!(ensure(Some(user), None), Err(PasskeyAssertionError::InvalidCredential)));
}

#[test]
fn unknown_user_is_rejected() {
    assert!(matches!(
        ensure(None, Some(Ok(true))),
        Err(PasskeyAssertionError::InvalidCredential)
    ));
}

#[test]
fn membership_repository_error_maps_to_internal() {
    assert!(matches!(
        ensure(Some(active_user()), Some(Err("db down".to_string()))),
        Err(PasskeyAssertionError::Internal(m)) if m == "db down"
    ));
}

#[test]
fn an_assertion_that_holds_names_its_user() {
    let mut w = store(challenge(Some("session-hash"), minutes(5)));
    w.result = Ok(result("AQIDBA", 6));
    let Ok(verified) = w.verify(ANSWER, PasskeyFlow::Oidc) else {
        panic!("must hold");
    };
    assert_eq!(verified.user_id, USER);
    assert_eq!(verified.auth_session_id_hash, Some("session-hash".to_string()));
    assert_eq!(w.saved.len(), 1);
    assert_eq!(counter(&w.saved[0]), Some(6));
    assert_eq!(w.deleted, [CHALLENGE]);
    // The challenge is gone with its first use.
    assert!(matches!(
        w.verify(ANSWER, PasskeyFlow::Oidc),
        Err(PasskeyAssertionError::ChallengeNotFound)
    ));
}

#[test]
fn a_passkey_is_saved_only_where_the_answer_has_changed_it() {
    let mut w = store(challenge(None, minutes(5)));
    assert!(w.verify(ANSWER, PasskeyFlow::Direct).is_ok());
    assert!(w.saved.is_empty());
    // The answer of another passkey leaves this one as it is.
    let mut w = store(challenge(None, minutes(5)));
    w.result = Ok(result("BBBB", 6));
    assert!(w.verify(ANSWER, PasskeyFlow::Direct).is_ok());
    assert!(w.saved.is_empty());
    // What cannot be read is reported.
    for unreadable in [Err("no result".to_string()), Ok("{".to_string())] {
        let mut w = store(challenge(None, minutes(5)));
        w.result = unreadable;
        assert!(matches!(
            w.verify(ANSWER, PasskeyFlow::Direct),
            Err(PasskeyAssertionError::Internal(_))
        ));
        assert!(w.saved.is_empty());
    }
}

fn invalid(w: &mut Store, answer: &str) -> bool {
    matches!(
        w.verify(answer, PasskeyFlow::Direct),
        Err(PasskeyAssertionError::InvalidCredential)
    )
}

#[test]
fn assertions_are_refused_one_and_all_alike() {
    let mut w = store(challenge(None, minutes(5)));
    assert!(invalid(&mut w, "null"));
    let mut w = store(challenge(None, minutes(5)));
    assert!(invalid(&mut w, &ANSWER.replace("\"id\":\"AQIDBA\"", "\"id\":\"BBBB\"")));
    let mut w = store(challenge(None, minutes(5)));
    w.blocked = true;
    assert!(invalid(&mut w, ANSWER));
    let mut w = store(challenge(None, minutes(5)));
    w.accepted = false;
    assert!(invalid(&mut w, ANSWER));
    assert_eq!(w.audits[0].reason.as_ref().unwrap().text(), "invalid_passkey");
    let mut w = store(challenge(None, minutes(5)));
    w.member = false;
    assert!(invalid(&mut w, ANSWER));
}

#[test]
fn unreadable_records_are_internal_errors() {
    let mut w = store(challenge(None, minutes(5)));
    w.challenge.as_mut().unwrap().state_json = "{".to_string();
    let Err(PasskeyAssertionError::Internal(m)) = w.verify(ANSWER, PasskeyFlow::Direct) else {
        panic!("no state");
    };
    let fault = serde_json::from_str::<webauthn_rs::prelude::DiscoverableAuthentication>("{");
    assert_eq!(m, fault.err().unwrap().to_string());
    let mut w = store(challenge(None, minutes(5)));
    w.credential.as_mut().unwrap().passkey_json = "{}".to_string();
    assert!(matches!(
        w.verify(ANSWER, PasskeyFlow::Direct),
        Err(PasskeyAssertionError::Internal(_))
    ));
}

fn begin(auth_session_id: Option<&str>, step_up: bool) -> (PasskeyChallenge, Uuid, String) {
    let svc = PasskeyAssertionService::new();
    let session = auth_session_id.map(|s| s.to_string());
    let mut p = BeginProgress::default();
    let mut stored = None;
    loop {
        let step = if step_up {
            StepUpService::new([0x5a; 32], 300).begin_passkey(CHALLENGE, now(), &p)
        } else {
            svc.begin(&session, CHALLENGE, now(), &p)
        };
        match step {
            BeginStep::StartCeremony => {
                p.ceremony = Some(Ok(BegunCeremony {
                    state_json: Ok(assertion_state()),
                    options_json: Ok("options".to_string()),
                }));
            }
            BeginStep::StoreChallenge(c) => {
                stored = Some(c);
                p.stored = Some(Ok(()));
            }
            BeginStep::Done(r) => {
                let (id, options) = r.unwrap();
                return (stored.unwrap(), id, options);
            }
        }
    }
}

#[test]
fn a_challenge_serves_the_flow_that_it_was_issued_for() {
    let (c, id, options) = begin(Some(SESSION_ID), false);
    assert_eq!((id, options.as_str()), (CHALLENGE, "options"));
    assert_eq!(c.auth_session_id_hash, Some(id_hash(SESSION_ID)));
    assert_eq!(c.expires_at, minutes(5));
    assert!(store(c).verify(ANSWER, PasskeyFlow::Oidc).is_ok());
    let (c, _, _) = begin(None, false);
    assert!(store(c).verify(ANSWER, PasskeyFlow::Direct).is_ok());
    let (c, _, _) = begin(None, true);
    assert_eq!(c.challenge_type, PasskeyChallengeType::StepUp);
    assert!(store(c).verify(ANSWER, PasskeyFlow::StepUp).is_ok());
    for flow in [PasskeyFlow::Direct, PasskeyFlow::Oidc] {
        let (c, _, _) = begin(None, true);
        assert!(matches!(store(c).verify(ANSWER, flow), Err(PasskeyAssertionError::WrongFlow)));
    }
    let (c, _, _) = begin(None, false);
    assert!(matches!(
        store(c).verify(ANSWER, PasskeyFlow::StepUp),
        Err(PasskeyAssertionError::WrongFlow)
    ));
}

#[test]
fn a_ceremony_that_cannot_be_written_down_is_refused_in_its_turn() {
    let svc = PasskeyAssertionService::new();
    let ceremony = |state_json, options_json| {
        Some(Ok(BegunCeremony { state_json, options_json }))
    };
    let mut p = BeginProgress::default();
    p.ceremony = ceremony(Err("bad state".to_string()), Ok("options".to_string()));
    assert!(matches!(
        svc.begin(&None, CHALLENGE, now(), &p),
        BeginStep::Done(Err(m)) if m == "serialize state: bad state"
    ));
    // The options are written down after the challenge was stored.
    p.ceremony = ceremony(Ok(assertion_state()), Err("bad options".to_string()));
    assert!(matches!(svc.begin(&None, CHALLENGE, now(), &p), BeginStep::StoreChallenge(_)));
    p.stored = Some(Ok(()));
    assert!(matches!(
        svc.begin(&None, CHALLENGE, now(), &p),
        BeginStep::Done(Err(m)) if m == "serialize options: bad options"
    ));
}

// ---------------------------------------------------------------------------
// Signing in with a passkey

fn session(scope: &[&str], expires_at: Timestamp) -> AuthSession {
    AuthSession {
        id_hash: id_hash(SESSION_ID),
        tenant_id: tenant_id(),
        client_id: "client-a".to_string(),
        redirect_uri: "https://rp.example.com/cb".to_string(),
        response_mode: ResponseMode::Query,
        scope: scope.iter().map(|s| s.to_string()).collect(),
        state: "state-1".to_string(),
        nonce: "nonce-1".to_string(),
        acr_values: None,
        login_hint: None,
        ui_locales: None,
        code_challenge: "challenge".to_string(),
        code_challenge_method: CodeChallengeMethod::S256,
        prompt: None,
        max_age: None,
        handle_hash: None,
        handle_expires_at: None,
        authenticated_user_id: None,
        auth_time: None,
        password_verified_at: None,
        sso_sid: None,
        expires_at,
        created_at: now(),
        updated_at: now(),
    }
}

fn complete(
    assertion: Result<VerifiedPasskeyUser, PasskeyAssertionError>,
    waiting: Option<AuthSession>,
    decision: PolicyDecision,
    sso: &mut Vec<SsoGrant>,
    audits: &mut Vec<AuditRecord>,
) -> PasskeyAuthOutcome {
    let svc = PasskeyAuthenticationService::new(
        Span::seconds(3600),
        Span::seconds(28800),
        DefaultPolicyEffect::Allow,
    );
    let request =
        RequestContext { correlation_id: "c".to_string(), ip_address: None, user_agent: None };
    let draw = LoginDraw {
        now: now(),
        sso: SsoDraw { sso_session_id: "sso".to_string(), sid: "sid".to_string() },
        rotated_id: "rotated".to_string(),
    };
    let mut assertion = Some(assertion);
    let mut waiting = Some(waiting);
    let mut decision = Some(decision);
    let mut p = PasskeyAuthProgress::default();
    loop {
        match svc.complete(&tenant(), CHALLENGE, &ANSWER.to_string(), &request, &draw, &p) {
            PasskeyAuthStep::VerifyAssertion { flow, .. } => {
                assert_eq!(flow, PasskeyFlow::Oidc);
                p.assertion = assertion.take();
            }
            PasskeyAuthStep::FindSession { id_hash: hash, .. } => {
                assert_eq!(hash, id_hash(SESSION_ID));
                p.session = Some(Ok(waiting.take().unwrap()));
            }
            PasskeyAuthStep::DeleteExpired { .. } => p.expired_deleted = true,
            PasskeyAuthStep::EvaluatePolicies(q) => {
                assert_eq!(q.methods, vec![AuthenticationMethod::WebAuthn]);
                assert!(q.user_verified);
                p.policy = Some(Ok(PolicyEvaluation {
                    decision: decision.take().unwrap(),
                    unmet: None,
                }));
            }
            PasskeyAuthStep::SetAuthenticated { id_hash: old, new_id_hash, user_id, .. } => {
                assert_eq!(old, id_hash(SESSION_ID));
                assert_eq!(new_id_hash, id_hash("rotated"));
                assert_eq!(user_id, USER);
                p.authenticated = Some(Ok(()));
            }
            PasskeyAuthStep::CreateSso(grant) => {
                sso.push(grant);
                p.sso_created = Some(Ok(()));
            }
            PasskeyAuthStep::Flow(FlowStep::FindConsent { .. }) => {
                p.flow.consent =
                    Some(Ok(Some(ClientConsent { scope: vec!["profile".to_string()] })));
            }
            PasskeyAuthStep::Flow(FlowStep::IssueCode(_)) => {
                p.flow.code = Some(Ok("code".to_string()));
            }
            PasskeyAuthStep::Flow(FlowStep::DeleteSession { .. }) => p.flow.deleted = true,
            PasskeyAuthStep::Flow(FlowStep::DispatchCode { session, code }) => {
                assert_eq!(session.nonce, "nonce-1");
                p.flow.dispatch = Some(match session.response_mode {
                    ResponseMode::Query => CodeDispatch {
                        location: format!(
                            "{}?code={code}&state={}",
                            session.redirect_uri, session.state
                        ),
                        form_post: None,
                    },
                    ResponseMode::FormPost => CodeDispatch {
                        location: session.redirect_uri,
                        form_post: Some(vec![
                            ("code".to_string(), code),
                            ("state".to_string(), session.state),
                        ]),
                    },
                });
            }
            PasskeyAuthStep::Flow(_) => panic!("not expected"),
            PasskeyAuthStep::Audit(a) => {
                audits.push(a);
                p.audits += 1;
            }
            PasskeyAuthStep::Done(o) => return o,
        }
    }
}

fn verified() -> Result<VerifiedPasskeyUser, PasskeyAssertionError> {
    Ok(VerifiedPasskeyUser {
        user_id: USER,
        auth_session_id_hash: Some(id_hash(SESSION_ID)),
    })
}

#[test]
fn a_passkey_signs_on_and_continues_the_request() {
    let (mut sso, mut audits) = (vec![], vec![]);
    let waiting = Some(session(&["openid", "profile"], minutes(10)));
    let PasskeyAuthOutcome::Success { location, form_post, sso_session_id } =
        complete(verified(), waiting, PolicyDecision::Allow, &mut sso, &mut audits)
    else {
        panic!("must sign on");
    };
    assert_eq!(form_post, None);
    assert_eq!(location, "https://rp.example.com/cb?code=code&state=state-1");
    assert_eq!(sso_session_id, "sso");
    assert_eq!(sso[0].session_hash, sha256_hex("sso"));
    assert_eq!(sso[0].methods, vec![AuthenticationMethod::WebAuthn]);
    assert_eq!(audits.len(), 2);

    let waiting = Some(session(&["openid", "email"], minutes(10)));
    let PasskeyAuthOutcome::ConsentRequired { auth_session_id, .. } =
        complete(verified(), waiting, PolicyDecision::Allow, &mut sso, &mut audits)
    else {
        panic!("must ask");
    };
    assert_eq!(auth_session_id, "rotated");
}

#[test]
fn a_code_is_posted_where_the_request_asks_for_a_form() {
    let (mut sso, mut audits) = (vec![], vec![]);
    let mut waiting = session(&["openid", "profile"], minutes(10));
    waiting.response_mode = ResponseMode::FormPost;
    let PasskeyAuthOutcome::Success { location, form_post, .. } =
        complete(verified(), Some(waiting), PolicyDecision::Allow, &mut sso, &mut audits)
    else {
        panic!("must sign on");
    };
    assert_eq!(location, "https://rp.example.com/cb");
    assert_eq!(
        form_post,
        Some(vec![
            ("code".to_string(), "code".to_string()),
            ("state".to_string(), "state-1".to_string()),
        ])
    );
}

#[test]
fn every_other_end_of_a_passkey_sign_in() {
    let (mut sso, mut audits) = (vec![], vec![]);
    let mut run = |assertion, waiting, decision| {
        complete(assertion, waiting, decision, &mut sso, &mut audits)
    };
    assert!(matches!(
        run(Err(PasskeyAssertionError::ChallengeNotFound), None, PolicyDecision::Allow),
        PasskeyAuthOutcome::ChallengeNotFound
    ));
    assert!(matches!(
        run(Err(PasskeyAssertionError::WrongFlow), None, PolicyDecision::Allow),
        PasskeyAuthOutcome::ChallengeNotFound
    ));
    assert!(matches!(
        run(Err(PasskeyAssertionError::InvalidCredential), None, PolicyDecision::Allow),
        PasskeyAuthOutcome::InvalidCredential
    ));
    assert!(matches!(
        run(verified(), None, PolicyDecision::Allow),
        PasskeyAuthOutcome::SessionExpired
    ));
    assert!(matches!(
        run(verified(), Some(session(&["openid"], now())), PolicyDecision::Allow),
        PasskeyAuthOutcome::SessionExpired
    ));
    assert!(matches!(
        run(
            verified(),
            Some(session(&["openid"], minutes(1))),
            PolicyDecision::Deny { policy_code: "p".to_string() }
        ),
        PasskeyAuthOutcome::PolicyDenied
    ));
    let unbound = Ok(VerifiedPasskeyUser { user_id: USER, auth_session_id_hash: None });
    assert!(matches!(
        run(unbound, None, PolicyDecision::Allow),
        PasskeyAuthOutcome::Internal(m) if m == "no auth_session_id in challenge"
    ));
    assert!(sso.is_empty());
}

#[test]
fn openid_is_no_scope_to_agree_to() {
    let scope = vec!["openid".to_string(), "email".to_string(), "openid".to_string()];
    assert_eq!(scopes_needing_consent(&scope), vec!["email".to_string()]);
}

// ---------------------------------------------------------------------------
// Registering a passkey

fn sso_session(user_id: Uuid) -> SsoSession {
    SsoSession::establish(SsoGrant {
        session_hash: sha256_hex("cookie"),
        user_id,
        now: now(),
        idle_ttl: Span::seconds(60),
        absolute_ttl: Span::seconds(600),
        methods: vec![],
        user_agent: None,
        ip_address: None,
    })
}

#[test]
fn a_registration_starts_with_the_readable_passkeys_excluded() {
    let svc = PasskeyRegistrationService::new();
    let mut unreadable = credential();
    unreadable.passkey_json = "{}".to_string();
    let mut listed = Some(vec![unreadable, credential()]);
    let mut p = RegisterBegin::default();
    let mut stored = None;
    let (id, options) = loop {
        match svc.begin("cookie", "user", CHALLENGE, now(), &p) {
            RegisterStep::FindSession { session_hash } => {
                assert_eq!(session_hash, sha256_hex("cookie"));
                p.session = Some(Ok(Some(sso_session(USER))));
            }
            RegisterStep::ListCredentials { user_id } => {
                assert_eq!(user_id, USER);
                p.existing = Some(Ok(listed.take().unwrap()));
            }
            RegisterStep::StartCeremony { user_name, excluded, .. } => {
                assert_eq!(user_name, "user");
                assert_eq!(excluded, vec![PASSKEY.to_string()]);
                p.ceremony = Some(Ok(BegunRegistration {
                    state_json: Ok("state".to_string()),
                    options_json: Ok("options".to_string()),
                }));
            }
            RegisterStep::StoreChallenge(c) => {
                stored = Some(c);
                p.stored = Some(Ok(()));
            }
            RegisterStep::Done(Ok(r)) => break r,
            RegisterStep::Done(Err(_)) => panic!("must begin"),
        }
    };
    assert_eq!((id, options.as_str()), (CHALLENGE, "options"));
    let stored = stored.unwrap();
    assert_eq!(stored.user_id, Some(USER));
    assert_eq!(stored.challenge_type, PasskeyChallengeType::Register);
    assert_eq!(stored.expires_at, minutes(5));
}

#[test]
fn a_registration_that_cannot_be_written_down_is_refused_in_its_turn() {
    let svc = PasskeyRegistrationService::new();
    let mut p = RegisterBegin {
        session: Some(Ok(Some(sso_session(USER)))),
        existing: Some(Ok(vec![])),
        ..Default::default()
    };
    let ceremony = |state_json, options_json| {
        Some(Ok(BegunRegistration { state_json, options_json }))
    };
    p.ceremony = ceremony(Err("bad state".to_string()), Ok("options".to_string()));
    assert!(matches!(
        svc.begin("cookie", "user", CHALLENGE, now(), &p),
        RegisterStep::Done(Err(PasskeyRegistrationError::Internal(m))) if m == "bad state"
    ));
    p.ceremony = ceremony(Ok("state".to_string()), Err("bad options".to_string()));
    assert!(matches!(
        svc.begin("cookie", "user", CHALLENGE, now(), &p),
        RegisterStep::StoreChallenge(_)
    ));
    p.stored = Some(Ok(()));
    assert!(matches!(
        svc.begin("cookie", "user", CHALLENGE, now(), &p),
        RegisterStep::Done(Err(PasskeyRegistrationError::Internal(m))) if m == "bad options"
    ));

    // A passkey that cannot be written down leaves the challenge in place.
    let p = CompleteProgress {
        session: Some(Ok(Some(sso_session(USER)))),
        challenge: Some(Ok(Some(PasskeyChallenge {
            id: CHALLENGE,
            user_id: Some(USER),
            challenge_type: PasskeyChallengeType::Register,
            state_json: registration_state(),
            auth_session_id_hash: None,
            expires_at: minutes(1),
            created_at: now(),
        }))),
        ceremony: Some(Ok(NewPasskey {
            credential_id: vec![1],
            passkey_json: Err("bad passkey".to_string()),
        })),
        ..Default::default()
    };
    let answer = REGISTRATION_ANSWER.to_string();
    assert!(matches!(
        svc.complete("cookie", CHALLENGE, Uuid { value: 44 }, "key", &answer, now(), &p),
        CompleteStep::Done(Err(PasskeyRegistrationError::Internal(m))) if m == "bad passkey"
    ));
}

fn register(
    owner: Option<Uuid>,
    answer: &str,
    state: &str,
    created: Result<(), DomainError>,
    kept: &mut Vec<WebAuthnCredential>,
) -> Result<Uuid, PasskeyRegistrationError> {
    let svc = PasskeyRegistrationService::new();
    let mut created = Some(created);
    let mut p = CompleteProgress::default();
    loop {
        match svc.complete(
            "cookie",
            CHALLENGE,
            Uuid { value: 44 },
            "  my key ",
            &answer.to_string(),
            now(),
            &p,
        ) {
            CompleteStep::FindSession { .. } => p.session = Some(Ok(Some(sso_session(USER)))),
            CompleteStep::FindChallenge { id } => {
                p.challenge = Some(Ok(Some(PasskeyChallenge {
                    id,
                    user_id: owner,
                    challenge_type: PasskeyChallengeType::Register,
                    state_json: state.to_string(),
                    auth_session_id_hash: None,
                    expires_at: minutes(1),
                    created_at: now(),
                })));
            }
            CompleteStep::DeleteRejected { .. } => p.rejected_deleted = true,
            CompleteStep::CheckCeremony { .. } => {
                p.ceremony = Some(Ok(NewPasskey {
                    credential_id: vec![0xfb, 0xff, 0x00],
                    passkey_json: Ok(PASSKEY.to_string()),
                }));
            }
            CompleteStep::ConsumeChallenge { .. } => p.consumed = true,
            CompleteStep::CreateCredential(c) => {
                kept.push(c);
                p.created = created.take();
            }
            CompleteStep::Done(r) => return r,
        }
    }
}

#[test]
fn a_registered_passkey_is_kept_under_its_owner() {
    let state = registration_state();
    let mut kept = vec![];
    let id = register(Some(USER), REGISTRATION_ANSWER, &state, Ok(()), &mut kept);
    assert_eq!(id.ok(), Some(Uuid { value: 44 }));
    assert_eq!(kept[0].user_id, USER);
    assert_eq!(kept[0].credential_id, "-_8A");
    assert_eq!(kept[0].name, "my key");
}

#[test]
fn every_refusal_of_a_registration() {
    let state = registration_state();
    let mut kept = vec![];
    for owner in [None, Some(Uuid { value: 9 })] {
        let r = register(owner, REGISTRATION_ANSWER, &state, Ok(()), &mut kept);
        assert!(matches!(r, Err(PasskeyRegistrationError::ChallengeNotFound)));
    }
    let r = register(Some(USER), REGISTRATION_ANSWER, "{", Ok(()), &mut kept);
    assert!(matches!(r, Err(PasskeyRegistrationError::Internal(_))));
    let Err(PasskeyRegistrationError::InvalidCredential(m)) =
        register(Some(USER), "{}", &state, Ok(()), &mut kept)
    else {
        panic!("no credential");
    };
    assert_eq!(m, "missing field `id`");
    assert!(kept.is_empty());
    let taken = Err(DomainError::Conflict("taken".to_string()));
    let r = register(Some(USER), REGISTRATION_ANSWER, &state, taken, &mut kept);
    assert!(matches!(r, Err(PasskeyRegistrationError::DuplicateCredential)));
    let down = Err(DomainError::Repository("down".to_string()));
    let r = register(Some(USER), REGISTRATION_ANSWER, &state, down, &mut kept);
    assert_eq!(r.err().unwrap().text(), "internal error: down");
}

#[test]
fn passkeys_are_listed_and_deleted_by_their_owner() {
    let svc = PasskeyRegistrationService::new();
    let session = Some(Ok(Some(sso_session(USER))));
    assert!(matches!(
        svc.list("cookie", now(), &session, &None),
        ManageStep::ListCredentials { user_id } if user_id == USER
    ));
    let ManageStep::Listed(Ok(infos)) =
        svc.list("cookie", now(), &session, &Some(Ok(vec![credential()])))
    else {
        panic!("must list");
    };
    assert_eq!((infos[0].id, infos[0].name.as_str()), (Uuid { value: 33 }, "laptop"));
    let ManageStep::DeleteCredential { id, user_id } =
        svc.delete("cookie", Uuid { value: 33 }, now(), &session, &None)
    else {
        panic!("must delete");
    };
    assert_eq!((id, user_id), (Uuid { value: 33 }, USER));
    assert!(matches!(
        svc.delete("cookie", id, minutes(1), &session, &None),
        ManageStep::Deleted(Err(PasskeyRegistrationError::SessionExpired))
    ));
    assert!(matches!(
        svc.delete("cookie", id, now(), &Some(Ok(None)), &None),
        ManageStep::Deleted(Err(PasskeyRegistrationError::SessionExpired))
    ));
}

// ---------------------------------------------------------------------------
// Resuming a sign-on

fn resume(
    session: Option<SsoSession>,
    clock: Timestamp,
    user: Option<User>,
    member: bool,
    log: &mut Vec<String>,
) -> Option<RestoredSso> {
    let svc = SsoRestorer::new(Span::seconds(3600));
    let mut session = Some(session);
    let mut p = RestoreProgress::default();
    loop {
        match svc.try_resume(&tenant(), "cookie", &p) {
            RestoreStep::FindSession { session_hash } => {
                assert_eq!(session_hash, sha256_hex("cookie"));
                p.session = Some(Ok(session.take().unwrap()));
            }
            RestoreStep::ReadClock => p.now = Some(clock),
            RestoreStep::DeleteExpired { .. } => {
                log.push("deleted".to_string());
                p.expired_deleted = Some(Ok(()));
            }
            RestoreStep::FindUser { .. } => p.user = Some(Ok(user.clone())),
            RestoreStep::FindMembership { .. } => p.member = Some(Ok(member)),
            RestoreStep::ExtendIdle { until, .. } => {
                log.push(format!("until {}", until.timestamp()));
                p.extended = Some(Ok(()));
            }
            RestoreStep::Audit(a) => {
                log.push(format!("{:?}", a.event));
                p.audits += 1;
            }
            RestoreStep::Done(r) => return r.unwrap(),
        }
    }
}

#[test]
fn a_sign_on_is_resumed_for_active_members_alone() {
    let mut log = vec![];
    let restored = resume(Some(sso_session(USER)), now(), Some(active_user()), true, &mut log);
    let restored = restored.unwrap();
    assert_eq!(restored.user_id, USER);
    assert_eq!(restored.auth_time, now());
    assert_eq!(restored.session_hash, sha256_hex("cookie"));
    assert_eq!(log[0], format!("until {}", now().timestamp() + 3600));
    assert_eq!(log[1], "SsoSessionResumed");
    let mut disabled = active_user();
    disabled.status = UserStatus::Disabled;
    assert!(resume(Some(sso_session(USER)), now(), Some(disabled), true, &mut log).is_none());
    assert!(resume(Some(sso_session(USER)), now(), None, true, &mut log).is_none());
    assert!(resume(Some(sso_session(USER)), now(), Some(active_user()), false, &mut log).is_none());
    assert!(resume(None, now(), None, true, &mut log).is_none());
    assert_eq!(log.len(), 2);
    assert!(resume(Some(sso_session(USER)), minutes(1), None, true, &mut log).is_none());
    assert_eq!(log[2..], ["deleted", "SsoSessionExpired"]);
}
