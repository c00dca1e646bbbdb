use idp_core::key_service::{
    current_signer_at, BootstrapProgress, BootstrapStep, GenerateStep, JwksStep, KeyDraw,
    KeyManagementError, KeyOrder, KeyPair, KeyService, KeyStep, KeysStep, KidStep, MaterialProgress,
    MaterialStep, RotationProgress, RotationStep, SignerStep, SigningAlgorithm, SigningKey,
    SigningKeyStatus, StoreStep,
};
use idp_core::model::DomainError;
use idp_core::time::{Span, Timestamp};

const LEAD_DAYS: u32 = 30;
const PUBLISH_LEAD_HOURS: u32 = 24;

fn parse(text: &str) -> Timestamp {
    let t = chrono::DateTime::parse_from_rfc3339(text).unwrap();
    Timestamp::from_unix(t.timestamp()).unwrap()
}

fn hours(n: i64) -> Span {
    Span::seconds(n * 3600)
}

fn existing(kid: &str, status: SigningKeyStatus, not_before: &str, not_after: &str) -> SigningKey {
    SigningKey {
        kid: kid.to_string(),
        algorithm: "ES256".to_string(),
        public_key: "public".to_string(),
        private_key_encrypted: "encrypted".to_string(),
        status,
        not_before: parse(not_before),
        not_after: parse(not_after),
        created_at: parse(not_before),
        updated_at: parse(not_before),
    }
}

struct Repo {
    now: Timestamp,
    keys: Vec<SigningKey>,
}

impl Repo {
    fn with(now: &str, keys: Vec<SigningKey>) -> Repo {
        Repo { now: parse(now), keys }
    }

    fn get(&self, kid: &str) -> &SigningKey {
        self.keys.iter().find(|k| k.kid == kid).unwrap()
    }

    fn other_than(&self, kid: &str) -> &SigningKey {
        self.keys.iter().find(|k| k.kid != kid).unwrap()
    }

    fn advance(&mut self, by: Span) {
        self.now = self.now.plus(by);
    }

    fn set_status(&mut self, kid: &str, status: SigningKeyStatus) {
        for k in self.keys.iter_mut() {
            if k.kid == kid {
                k.status = status;
            }
        }
    }

    fn make(&self, order: KeyOrder) -> Result<SigningKey, String> {
        let mut p = MaterialProgress::default();
        loop {
            match KeyService::new([0x5a; 32]).new_key_material(order, &p) {
                MaterialStep::GeneratePair { algorithm } => {
                    assert_eq!(algorithm, order.algorithm);
                    p.pair = Some(Ok(KeyPair {
                        private_pem: "new private".to_string(),
                        public_pem: "new public".to_string(),
                    }));
                }
                MaterialStep::Draw { token_bytes } => {
                    assert_eq!(token_bytes, 6);
                    p.draw = Some(KeyDraw { now: self.now, token: format!("t{}", self.keys.len()) });
                }
                MaterialStep::Encrypt { plaintext, key_encryption_key } => {
                    assert_eq!(plaintext, "new private");
                    assert_eq!(key_encryption_key, [0x5a; 32]);
                    p.encrypted = Some(Ok("new encrypted".to_string()));
                }
                MaterialStep::Done(r) => return r,
            }
        }
    }

    fn store(&mut self, order: KeyOrder) -> Result<SigningKey, String> {
        let made = self.make(order);
        let mut stored = None;
        loop {
            match KeyService::new([0x5a; 32]).generate_key_internal(&made, &stored) {
                StoreStep::Insert(key) => {
                    self.keys.push(key);
                    stored = Some(Ok(()));
                }
                StoreStep::Done(r) => return r,
            }
        }
    }

    fn rotate(&mut self, lead_days: u32, publish_lead_hours: u32) -> Result<(), String> {
        let mut p = RotationProgress::default();
        loop {
            match KeyService::new([0x5a; 32]).rotate_if_needed(self.now, lead_days, publish_lead_hours, &p) {
                RotationStep::ListKeys => p.keys = Some(Ok(self.keys.clone())),
                RotationStep::Retire { kid } => {
                    self.set_status(&kid, SigningKeyStatus::Retired);
                    p.retired.push(Ok(()));
                }
                RotationStep::Generate(order) => {
                    p.generated = Some(self.store(order).map(|_| ()));
                }
                RotationStep::Done(r) => return r,
            }
        }
    }

    fn retire(&mut self, kid: &str) -> Result<(), KeyManagementError> {
        let kid = kid.to_string();
        let mut keys = None;
        let mut updated = None;
        loop {
            match KeyService::new([0x5a; 32]).retire_key(&kid, self.now, &keys, &updated) {
                KeyStep::ListKeys => keys = Some(Ok(self.keys.clone())),
                KeyStep::UpdateStatus { kid, status } => {
                    self.set_status(&kid, status);
                    updated = Some(Ok(()));
                }
                KeyStep::Done(r) => return r,
                _ => panic!("not expected"),
            }
        }
    }

    fn generate(&mut self, algorithm: SigningAlgorithm, lead: Span) -> SigningKey {
        let svc = KeyService::new([0x5a; 32]);
        let mut keys = None;
        let mut generated = None;
        loop {
            match svc.generate_key(algorithm, lead, self.now, &keys, &generated) {
                GenerateStep::ListKeys => keys = Some(Ok(self.keys.clone())),
                GenerateStep::Generate(order) => generated = Some(self.store(order)),
                GenerateStep::Done(r) => return r.ok().expect("a key"),
            }
        }
    }

    fn bootstrap(&mut self) {
        let mut p = BootstrapProgress::default();
        loop {
            match KeyService::new([0x5a; 32]).ensure_active_key(self.now, &p) {
                BootstrapStep::ListKeys => p.keys = Some(Ok(self.keys.clone())),
                BootstrapStep::MakeKey(order) => p.made = Some(self.make(order)),
                BootstrapStep::InsertIfNoActive(key) => {
                    self.keys.push(key);
                    p.inserted = Some(Ok(true));
                }
                BootstrapStep::Done(r) => return r.unwrap(),
            }
        }
    }
}

fn near_expiry() -> Repo {
    Repo::with(
        "2026-08-27T00:00:00Z",
        vec![existing(
            "old",
            SigningKeyStatus::Active,
            "2025-09-01T00:00:00Z",
            "2026-09-06T00:00:00Z",
        )],
    )
}

fn signer(repo: &Repo) -> Option<String> {
    current_signer_at(&repo.keys, repo.now).map(|i| repo.keys[i].kid.clone())
}

#[test]
fn a_key_near_expiry_gets_a_successor_that_is_published_but_not_signing() {
    let mut repo = near_expiry();
    repo.rotate(LEAD_DAYS, PUBLISH_LEAD_HOURS).unwrap();
    assert_eq!(repo.keys.len(), 2);
    let successor = repo.other_than("old");
    assert!(successor.is_pending_at(repo.now));
    assert_eq!(successor.not_before, repo.now.plus(hours(24)));
    assert_eq!(signer(&repo), Some("old".to_string()));
    assert_eq!(repo.get("old").status, SigningKeyStatus::Active);
    assert_eq!(successor.algorithm, "ES256");
    assert_eq!(successor.kid, "20260827-es-t1");
    assert_eq!(successor.not_after, successor.not_before.plus(hours(365 * 24)));
}

#[test]
fn a_waiting_successor_is_not_generated_again() {
    let mut repo = near_expiry();
    repo.rotate(LEAD_DAYS, PUBLISH_LEAD_HOURS).unwrap();
    repo.advance(hours(1));
    repo.rotate(LEAD_DAYS, PUBLISH_LEAD_HOURS).unwrap();
    assert_eq!(repo.keys.len(), 2);
}

#[test]
fn the_old_key_is_retired_only_after_the_successor_takes_over() {
    let mut repo = near_expiry();
    repo.rotate(LEAD_DAYS, PUBLISH_LEAD_HOURS).unwrap();
    repo.advance(hours(25));
    let successor = repo.other_than("old").kid.clone();
    assert_eq!(signer(&repo), Some(successor.clone()));
    repo.rotate(LEAD_DAYS, PUBLISH_LEAD_HOURS).unwrap();
    assert_eq!(repo.get("old").status, SigningKeyStatus::Retired);
    assert_eq!(repo.get(&successor).status, SigningKeyStatus::Active);
    assert!(repo.now.before(repo.get("old").not_after));
}

#[test]
fn an_active_key_overtaken_by_a_newer_one_is_retired() {
    let mut repo = Repo::with(
        "2026-08-27T00:00:00Z",
        vec![
            existing(
                "older",
                SigningKeyStatus::Active,
                "2026-01-01T00:00:00Z",
                "2027-01-01T00:00:00Z",
            ),
            existing(
                "newer",
                SigningKeyStatus::Active,
                "2026-08-26T00:00:00Z",
                "2027-08-26T00:00:00Z",
            ),
        ],
    );
    repo.rotate(LEAD_DAYS, PUBLISH_LEAD_HOURS).unwrap();
    assert_eq!(repo.get("older").status, SigningKeyStatus::Retired);
    assert_eq!(repo.get("newer").status, SigningKeyStatus::Active);
    assert_eq!(repo.keys.len(), 2);
}

#[test]
fn the_publish_lead_never_pushes_the_handover_past_the_current_key_expiry() {
    let mut repo = near_expiry();
    repo.rotate(LEAD_DAYS, 1_000).unwrap();
    assert_eq!(repo.other_than("old").not_before, parse("2026-09-06T00:00:00Z"));
}

fn all_retired() -> Repo {
    Repo::with(
        "2026-08-27T00:00:00Z",
        vec![existing(
            "retired",
            SigningKeyStatus::Retired,
            "2026-01-01T00:00:00Z",
            "2027-01-01T00:00:00Z",
        )],
    )
}

#[test]
fn bootstrapping_after_the_last_key_was_retired_keeps_the_algorithm() {
    let mut repo = all_retired();
    repo.rotate(LEAD_DAYS, PUBLISH_LEAD_HOURS).unwrap();
    let fresh = repo.other_than("retired");
    assert_eq!(fresh.algorithm, "ES256");
    assert!(fresh.is_usable_for_signing_at(repo.now));

    let mut repo = all_retired();
    repo.bootstrap();
    assert_eq!(repo.other_than("retired").algorithm, "ES256");
    repo.bootstrap();
    assert_eq!(repo.keys.len(), 2);
}

#[test]
fn the_very_first_key_is_an_rsa_key() {
    let mut repo = Repo::with("2026-08-27T00:00:00Z", vec![]);
    repo.bootstrap();
    assert_eq!(repo.keys[0].algorithm, "RS256");
    assert_eq!(repo.keys[0].kid, "20260827-rs-t0");
    assert_eq!(repo.keys[0].public_key, "new public");
    assert_eq!(repo.keys[0].private_key_encrypted, "new encrypted");
}

fn validation(r: Result<(), KeyManagementError>) -> String {
    let Err(KeyManagementError::Validation(m)) = r else {
        panic!("must be refused");
    };
    m.key
}

#[test]
fn the_last_key_that_can_sign_cannot_be_retired() {
    let mut repo = Repo::with(
        "2026-08-27T00:00:00Z",
        vec![existing(
            "only",
            SigningKeyStatus::Active,
            "2026-01-01T00:00:00Z",
            "2027-01-01T00:00:00Z",
        )],
    );
    assert_eq!(validation(repo.retire("only")), "api-signing-key-retire-last-active");
    assert_eq!(repo.get("only").status, SigningKeyStatus::Active);
}

#[test]
fn a_successor_that_is_only_published_does_not_unlock_retiring_the_current_key() {
    let mut repo = Repo::with(
        "2026-08-27T00:00:00Z",
        vec![
            existing(
                "current",
                SigningKeyStatus::Active,
                "2026-01-01T00:00:00Z",
                "2027-01-01T00:00:00Z",
            ),
            existing(
                "successor",
                SigningKeyStatus::Active,
                "2026-08-28T00:00:00Z",
                "2027-08-28T00:00:00Z",
            ),
        ],
    );
    assert_eq!(validation(repo.retire("current")), "api-signing-key-retire-last-active");
}

#[test]
fn a_superseded_key_can_be_retired_by_hand() {
    let mut repo = Repo::with(
        "2026-08-27T00:00:00Z",
        vec![
            existing(
                "old",
                SigningKeyStatus::Active,
                "2026-01-01T00:00:00Z",
                "2027-01-01T00:00:00Z",
            ),
            existing(
                "new",
                SigningKeyStatus::Active,
                "2026-08-26T00:00:00Z",
                "2027-08-26T00:00:00Z",
            ),
        ],
    );
    assert!(repo.retire("old").is_ok());
    assert_eq!(repo.get("old").status, SigningKeyStatus::Retired);
    assert_eq!(validation(repo.retire("old")), "api-signing-key-retire-failed");
    let Err(KeyManagementError::NotFound(kid)) = repo.retire("other") else {
        panic!("no such key");
    };
    assert_eq!(kid, "other");
}

#[test]
fn a_hand_generated_key_never_starts_signing_after_the_current_key_expires() {
    let expiry = "2026-08-27T02:00:00Z";
    let mut repo = Repo::with(
        "2026-08-27T00:00:00Z",
        vec![existing("current", SigningKeyStatus::Active, "2025-09-01T00:00:00Z", expiry)],
    );
    let key = repo.generate(SigningAlgorithm::Es256, hours(24));
    assert_eq!(key.not_before, parse(expiry));
}

#[test]
fn a_hand_generated_key_skips_the_grace_when_nothing_can_sign() {
    let mut repo = all_retired();
    let key = repo.generate(SigningAlgorithm::Es256, hours(24));
    assert!(key.is_usable_for_signing_at(repo.now));
}

#[test]
fn an_unknown_algorithm_stops_the_rotation() {
    let mut repo = near_expiry();
    repo.keys[0].algorithm = "HS256".to_string();
    let refused = repo.rotate(LEAD_DAYS, PUBLISH_LEAD_HOURS).unwrap_err();
    assert!(refused.starts_with("unknown algorithm on active key: "));
    assert_eq!(SigningAlgorithm::parse("RS256"), Some(SigningAlgorithm::Rs256));
    assert_eq!(SigningAlgorithm::parse("rs256"), None);
}

#[test]
fn the_signing_key_is_handed_out_decrypted() {
    let svc = KeyService::new([0x5a; 32]);
    let key = near_expiry().keys[0].clone();
    assert!(matches!(svc.active_signing_key(&None, &None), SignerStep::FindActive));
    let active = Some(Ok(Some(key.clone())));
    let SignerStep::Decrypt { private_key_encrypted, key_encryption_key } =
        svc.active_signing_key(&active, &None)
    else {
        panic!("must decrypt");
    };
    assert_eq!(private_key_encrypted, "encrypted");
    assert_eq!(key_encryption_key, [0x5a; 32]);
    let SignerStep::Done(Ok(signing)) =
        svc.active_signing_key(&active, &Some(Ok("PEM \u{e9}".as_bytes().to_vec())))
    else {
        panic!("must be handed out");
    };
    assert_eq!((signing.kid.as_str(), signing.private_pem.as_str()), ("old", "PEM \u{e9}"));
    let SignerStep::Done(Err(m)) = svc.active_signing_key(&active, &Some(Ok(vec![b'a', 0xff])))
    else {
        panic!("no text");
    };
    assert_eq!(
        m,
        format!(
            "decrypted private key is not valid UTF-8: {}",
            String::from_utf8(vec![b'a', 0xff]).unwrap_err()
        )
    );
    let SignerStep::Done(Err(m)) = svc.active_signing_key(&Some(Ok(None)), &None) else {
        panic!("no key");
    };
    assert_eq!(m, "no active signing key");
    assert!(matches!(svc.signing_kid(&None), KidStep::FindActive));
    assert!(matches!(
        svc.signing_kid(&Some(Ok(Some(key)))),
        KidStep::Done(Ok(Some(kid))) if kid == "old"
    ));
    assert!(matches!(svc.signing_kid(&Some(Ok(None))), KidStep::Done(Ok(None))));
    assert!(matches!(
        svc.signing_kid(&Some(Err("down".to_string()))),
        KidStep::Done(Err(m)) if m == "find active key: down"
    ));
}

#[test]
fn every_published_key_is_shown() {
    let svc = KeyService::new([0x5a; 32]);
    let keys = vec![near_expiry().keys[0].clone(), all_retired().keys[0].clone()];
    assert!(matches!(svc.jwks(&None, &vec![]), JwksStep::ListPublished));
    let published = Some(Ok(keys.clone()));
    let mut converted = vec![];
    let mut asked = vec![];
    let shown = loop {
        match svc.jwks(&published, &converted) {
            JwksStep::ListPublished => panic!("they are listed"),
            JwksStep::Convert(source) => {
                assert_eq!(source.algorithm, "ES256");
                assert_eq!(source.public_key, "public");
                converted.push(Ok(format!("{{\"kid\":\"{}\"}}", source.kid)));
                asked.push(source.kid);
            }
            JwksStep::Done(r) => break r.unwrap(),
        }
    };
    assert_eq!(asked, vec!["old".to_string(), "retired".to_string()]);
    assert_eq!(shown, vec!["{\"kid\":\"old\"}".to_string(), "{\"kid\":\"retired\"}".to_string()]);
    assert!(matches!(
        svc.jwks(&Some(Err("down".to_string())), &vec![]),
        JwksStep::Done(Err(m)) if m == "list published keys: down"
    ));
    assert!(matches!(svc.list_keys(None), KeysStep::ListKeys));
    assert!(matches!(svc.list_keys(Some(Ok(keys))), KeysStep::Done(Ok(k)) if k.len() == 2));
    assert!(matches!(
        svc.list_keys(Some(Err("down".to_string()))),
        KeysStep::Done(Err(KeyManagementError::Internal(m))) if m == "down"
    ));
}

#[test]
fn a_key_that_cannot_be_published_stops_the_rest() {
    let svc = KeyService::new([0x5a; 32]);
    let published = Some(Ok(vec![near_expiry().keys[0].clone(), all_retired().keys[0].clone()]));
    assert!(matches!(
        svc.jwks(&published, &vec![Err("unreadable".to_string())]),
        JwksStep::Done(Err(m)) if m == "unreadable"
    ));
    assert!(matches!(
        svc.jwks(&published, &vec![Ok("{}".to_string()), Err("second".to_string())]),
        JwksStep::Done(Err(m)) if m == "second"
    ));
}

#[test]
fn a_key_that_cannot_be_made_or_stored_is_reported() {
    let svc = KeyService::new([0x5a; 32]);
    let repo = near_expiry();
    let order = KeyOrder {
        algorithm: SigningAlgorithm::Es256,
        publish_lead: hours(0),
        key_encryption_key: [0x5a; 32],
    };
    let mut p = MaterialProgress { pair: Some(Err("no primes".to_string())), ..Default::default() };
    assert!(matches!(svc.new_key_material(order, &p), MaterialStep::Done(Err(m)) if m == "no primes"));
    p.pair = Some(Ok(KeyPair { private_pem: "p".to_string(), public_pem: "q".to_string() }));
    p.draw = Some(KeyDraw { now: repo.now, token: "t".to_string() });
    p.encrypted = Some(Err("no cipher".to_string()));
    assert!(matches!(svc.new_key_material(order, &p), MaterialStep::Done(Err(m)) if m == "no cipher"));

    let key = repo.make(order).unwrap();
    assert!(matches!(
        svc.generate_key_internal(&Err("no primes".to_string()), &None),
        StoreStep::Done(Err(m)) if m == "no primes"
    ));
    assert!(matches!(
        svc.generate_key_internal(&Ok(key.clone()), &Some(Err("full".to_string()))),
        StoreStep::Done(Err(m)) if m == "insert signing key: full"
    ));
    assert!(matches!(
        svc.generate_key(SigningAlgorithm::Es256, hours(0), repo.now, &None, &Some(Err("x".to_string()))),
        GenerateStep::Done(Err(KeyManagementError::Internal(m))) if m == "x"
    ));
    assert!(matches!(
        svc.generate_key(
            SigningAlgorithm::Es256,
            hours(1),
            repo.now,
            &Some(Err("down".to_string())),
            &None
        ),
        GenerateStep::Done(Err(KeyManagementError::Internal(m))) if m == "list signing keys: down"
    ));

    let mut p = BootstrapProgress { keys: Some(Ok(vec![])), ..Default::default() };
    p.made = Some(Err("no primes".to_string()));
    assert!(matches!(
        svc.ensure_active_key(repo.now, &p),
        BootstrapStep::Done(Err(m)) if m == "no primes"
    ));
    p.made = Some(Ok(key));
    p.inserted = Some(Err("full".to_string()));
    assert!(matches!(
        svc.ensure_active_key(repo.now, &p),
        BootstrapStep::Done(Err(m)) if m == "bootstrap signing key: full"
    ));
}

#[test]
fn only_retired_keys_are_deleted() {
    let svc = KeyService::new([0x5a; 32]);
    let kid = "retired".to_string();
    assert!(matches!(svc.delete_key(&kid, &None, &None), KeyStep::FindKey { kid } if kid == "retired"));
    let found = Some(Ok(Some(all_retired().keys[0].clone())));
    assert!(matches!(svc.delete_key(&kid, &found, &None), KeyStep::Delete { .. }));
    assert!(matches!(svc.delete_key(&kid, &found, &Some(Ok(()))), KeyStep::Done(Ok(()))));
    let active = Some(Ok(Some(near_expiry().keys[0].clone())));
    assert!(matches!(
        svc.delete_key(&kid, &active, &None),
        KeyStep::Done(Err(KeyManagementError::Validation(_)))
    ));
    assert!(matches!(
        svc.delete_key(&kid, &Some(Ok(None)), &None),
        KeyStep::Done(Err(KeyManagementError::NotFound(_)))
    ));
    let gone = Some(Err(DomainError::NotFound("gone".to_string())));
    let listed = Some(Ok(vec![near_expiry().keys[0].clone(), {
        let mut k = near_expiry().keys[0].clone();
        k.kid = "second".to_string();
        k
    }]));
    assert!(matches!(
        svc.retire_key(&"old".to_string(), near_expiry().now, &listed, &gone),
        KeyStep::Done(Err(KeyManagementError::NotFound(_)))
    ));
}

#[test]
fn key_errors_speak() {
    assert_eq!(KeyManagementError::NotFound("k".to_string()).text(), "not found: k");
    assert_eq!(KeyManagementError::Internal("x".to_string()).text(), "internal error: x");
}
