//! The keys that tokens are signed with: making, handing over, retiring and publishing them.
//!
//! A key is published before it signs, so that those who verify can learn it. It takes over at its
//! `not_before`, by itself; what it has overtaken is retired afterwards. At no time is the last key
//! that can sign taken away.
use crate::crypto::{utf8_fault_of, utf8_text};
use crate::model::{DomainError, MessageKey, Reply};
use crate::text::{join2, lemma_suffix, same};
use crate::time::{date_stamp_of, min_span, Span, Timestamp};
use vstd::prelude::*;

verus! {

/// For how many days a key signs.
pub const KEY_VALIDITY_DAYS: i64 = 365;

#[derive(Clone, Copy, Debug, PartialEq, Eq, Structural)]
pub enum SigningAlgorithm {
    Rs256,
    Es256,
}

#[derive(Clone, Copy, Debug, PartialEq, Eq, Structural)]
pub enum SigningKeyStatus {
    Active,
    Retired,
}

pub struct SigningKey {
    pub kid: String,
    pub algorithm: String,
    pub public_key: String,
    pub private_key_encrypted: String,
    pub status: SigningKeyStatus,
    /// From when the key signs.
    pub not_before: Timestamp,
    /// Until when it does.
    pub not_after: Timestamp,
    pub created_at: Timestamp,
    pub updated_at: Timestamp,
}

impl Clone for SigningKey {
    fn clone(&self) -> (r: SigningKey)
        ensures
            r == *self,
    {
        SigningKey {
            kid: self.kid.clone(),
            algorithm: self.algorithm.clone(),
            public_key: self.public_key.clone(),
            private_key_encrypted: self.private_key_encrypted.clone(),
            status: self.status,
            not_before: self.not_before,
            not_after: self.not_after,
            created_at: self.created_at,
            updated_at: self.updated_at,
        }
    }
}

/// A key to sign with.
pub struct ActiveSigningKey {
    pub kid: String,
    pub algorithm: String,
    pub private_pem: String,
}

pub enum KeyManagementError {
    NotFound(String),
    Validation(MessageKey),
    Internal(String),
}

impl KeyManagementError {
    pub open spec fn text_of(self) -> Seq<char> {
        match self {
            KeyManagementError::NotFound(m) => "not found: "@ + m@,
            KeyManagementError::Validation(k) => "validation error: "@ + k.key@,
            KeyManagementError::Internal(m) => "internal error: "@ + m@,
        }
    }

    /// The error in words.
    pub fn text(&self) -> (r: String)
        ensures
            r@ == self.text_of(),
    {
        match self {
            KeyManagementError::NotFound(m) => join2("not found: ", m.as_str()),
            KeyManagementError::Validation(k) => join2("validation error: ", k.key.as_str()),
            KeyManagementError::Internal(m) => join2("internal error: ", m.as_str()),
        }
    }
}

/// A pair of keys, in PEM.
pub struct KeyPair {
    pub private_pem: String,
    pub public_pem: String,
}

/// When a key is made, and the random characters for its name.
pub struct KeyDraw {
    pub now: Timestamp,
    pub token: String,
}

/// What is known of a new key so far.
#[derive(Default)]
pub struct MaterialProgress {
    pub pair: Reply<KeyPair>,
    pub draw: Option<KeyDraw>,
    /// The private half, encrypted.
    pub encrypted: Reply<String>,
}

pub enum MaterialStep {
    GeneratePair { algorithm: SigningAlgorithm },
    /// Reads the clock and draws a token of so many random bytes.
    Draw { token_bytes: usize },
    Encrypt { plaintext: String, key_encryption_key: [u8; 32] },
    Done(Result<SigningKey, String>),
}

/// What comes next in storing a new key.
pub enum StoreStep {
    Insert(SigningKey),
    Done(Result<SigningKey, String>),
}

/// What comes next in publishing the keys. A published key is the text of a JSON object.
pub enum JwksStep {
    ListPublished,
    Convert(JwkSource),
    Done(Result<Vec<String>, String>),
}

/// What comes next in naming the key that signs.
pub enum KidStep {
    FindActive,
    Done(Result<Option<String>, String>),
}

/// What comes next in listing the keys.
pub enum KeysStep {
    ListKeys,
    Done(Result<Vec<SigningKey>, KeyManagementError>),
}

/// What goes into a published key.
pub struct JwkSource {
    pub kid: String,
    pub algorithm: String,
    pub public_key: String,
}

/// The key pair to make: its algorithm, after what time it signs, and under which key its private
/// half is encrypted.
#[derive(Clone, Copy)]
pub struct KeyOrder {
    pub algorithm: SigningAlgorithm,
    pub publish_lead: Span,
    pub key_encryption_key: [u8; 32],
}

/// What is known of a rotation so far.
#[derive(Default)]
pub struct RotationProgress {
    pub keys: Reply<Vec<SigningKey>>,
    /// What came of retiring each overtaken key, in their order.
    pub retired: Vec<Result<(), String>>,
    pub generated: Reply<()>,
}

pub enum RotationStep {
    ListKeys,
    Retire { kid: String },
    /// Makes a key and stores it.
    Generate(KeyOrder),
    Done(Result<(), String>),
}

/// What is known of making the first key so far.
#[derive(Default)]
pub struct BootstrapProgress {
    pub keys: Reply<Vec<SigningKey>>,
    pub made: Reply<SigningKey>,
    /// Whether the key was stored, or another instance was first.
    pub inserted: Reply<bool>,
}

pub enum BootstrapStep {
    ListKeys,
    MakeKey(KeyOrder),
    /// Stores the key unless one can sign by then.
    InsertIfNoActive(SigningKey),
    Done(Result<(), String>),
}

/// What comes next in making a key by hand.
pub enum GenerateStep {
    ListKeys,
    /// Makes a key and stores it.
    Generate(KeyOrder),
    Done(Result<SigningKey, KeyManagementError>),
}

/// What comes next in managing a key.
pub enum KeyStep {
    ListKeys,
    FindKey { kid: String },
    UpdateStatus { kid: String, status: SigningKeyStatus },
    Delete { kid: String },
    Done(Result<(), KeyManagementError>),
}

/// What comes next in getting at the key to sign with.
pub enum SignerStep {
    FindActive,
    Decrypt { private_key_encrypted: String, key_encryption_key: [u8; 32] },
    Done(Result<ActiveSigningKey, String>),
}

pub struct KeyService {
    /// The key under which private keys are stored.
    pub key_encryption_key: [u8; 32],
}

impl SigningAlgorithm {
    pub open spec fn name_of(self) -> Seq<char> {
        match self {
            SigningAlgorithm::Rs256 => "RS256"@,
            SigningAlgorithm::Es256 => "ES256"@,
        }
    }

    /// The name in lower case without its size.
    pub open spec fn tag_of(self) -> Seq<char> {
        match self {
            SigningAlgorithm::Rs256 => "rs"@,
            SigningAlgorithm::Es256 => "es"@,
        }
    }

    pub open spec fn named(name: Seq<char>) -> Option<SigningAlgorithm> {
        if name == "RS256"@ {
            Some(SigningAlgorithm::Rs256)
        } else if name == "ES256"@ {
            Some(SigningAlgorithm::Es256)
        } else {
            None
        }
    }

    pub fn as_str(&self) -> (r: &'static str)
        ensures
            r@ == self.name_of(),
    {
        match self {
            SigningAlgorithm::Rs256 => "RS256",
            SigningAlgorithm::Es256 => "ES256",
        }
    }

    fn tag(&self) -> (r: &'static str)
        ensures
            r@ == self.tag_of(),
    {
        match self {
            SigningAlgorithm::Rs256 => "rs",
            SigningAlgorithm::Es256 => "es",
        }
    }

    /// The algorithm of this name.
    pub fn parse(name: &str) -> (r: Option<SigningAlgorithm>)
        ensures
            r == SigningAlgorithm::named(name@),
    {
        if same(name, "RS256") {
            Some(SigningAlgorithm::Rs256)
        } else if same(name, "ES256") {
            Some(SigningAlgorithm::Es256)
        } else {
            None
        }
    }
}

impl SigningKey {
    /// Active, and within its time.
    pub open spec fn signs_at(self, now: Timestamp) -> bool {
        self.status == SigningKeyStatus::Active && self.not_before.nanos <= now.nanos < self.not_after.nanos
    }

    /// Active, and its time still to come.
    pub open spec fn pending_at(self, now: Timestamp) -> bool {
        self.status == SigningKeyStatus::Active && now.nanos < self.not_before.nanos
    }

    pub fn is_usable_for_signing_at(&self, now: Timestamp) -> (r: bool)
        ensures
            r == self.signs_at(now),
    {
        self.status == SigningKeyStatus::Active && self.not_before.at_or_before(now) && now.before(
            self.not_after,
        )
    }

    pub fn is_pending_at(&self, now: Timestamp) -> (r: bool)
        ensures
            r == self.pending_at(now),
    {
        self.status == SigningKeyStatus::Active && now.before(self.not_before)
    }
}

/// Some key can sign.
pub open spec fn some_key_signs(keys: Seq<SigningKey>, now: Timestamp) -> bool {
    exists|i: int| 0 <= i < keys.len() && #[trigger] keys[i].signs_at(now)
}

/// The `i`-th key signs now: it can, and none that can has begun later. Of several keys that have
/// begun last at once any may be the one.
pub open spec fn is_signer(keys: Seq<SigningKey>, now: Timestamp, i: int) -> bool {
    &&& 0 <= i < keys.len()
    &&& keys[i].signs_at(now)
    &&& forall|j: int|
        0 <= j < keys.len() && #[trigger] keys[j].signs_at(now) ==> keys[j].not_before.nanos
            <= keys[i].not_before.nanos
}

/// There is a signer exactly where some key can sign.
pub proof fn some_key_is_the_signer(keys: Seq<SigningKey>, now: Timestamp)
    ensures
        some_key_signs(keys, now) <==> exists|i: int| #[trigger] is_signer(keys, now, i),
    decreases keys.len(),
{
    if some_key_signs(keys, now) {
        let rest = keys.drop_last();
        let last = keys.len() - 1;
        some_key_is_the_signer(rest, now);
        assert forall|j: int| 0 <= j < rest.len() implies #[trigger] keys[j] == rest[j] by {}
        if some_key_signs(rest, now) {
            let i = choose|i: int| #[trigger] is_signer(rest, now, i);
            if keys[last].signs_at(now) && keys[i].not_before.nanos < keys[last].not_before.nanos {
                assert(is_signer(keys, now, last));
            } else {
                assert(is_signer(keys, now, i));
            }
        } else {
            assert(forall|j: int| 0 <= j < rest.len() ==> !(#[trigger] rest[j].signs_at(now)));
            assert(is_signer(keys, now, last));
        }
    }
}

/// Finds the key that signs now.
pub fn current_signer_at(keys: &Vec<SigningKey>, now: Timestamp) -> (r: Option<usize>)
    ensures
        match r {
            Some(i) => is_signer(keys@, now, i as int),
            None => !some_key_signs(keys@, now),
        },
{
    let mut best: Option<usize> = None;
    let mut i: usize = 0;
    while i < keys.len()
        invariant
            i <= keys.len(),
            match best {
                Some(b) => b < i && keys@[b as int].signs_at(now) && (forall|j: int|
                    0 <= j < i && #[trigger] keys@[j].signs_at(now) ==> keys@[j].not_before.nanos
                        <= keys@[b as int].not_before.nanos),
                None => forall|j: int| 0 <= j < i ==> !#[trigger] keys@[j].signs_at(now),
            },
        decreases keys.len() - i,
    {
        if keys[i].is_usable_for_signing_at(now) {
            let later: bool = match best {
                None => true,
                Some(b) => keys[b].not_before.before(keys[i].not_before),
            };
            if later {
                best = Some(i);
            }
        }
        i = i + 1;
    }
    best
}

/// The algorithm to go on with where nothing can sign: that of the first key in the list, and RS256
/// where there is none or its algorithm is not known.
pub open spec fn inherited_algorithm(keys: Seq<SigningKey>) -> SigningAlgorithm {
    if keys.len() > 0 && SigningAlgorithm::named(keys[0].algorithm@) is Some {
        SigningAlgorithm::named(keys[0].algorithm@)->0
    } else {
        SigningAlgorithm::Rs256
    }
}

fn inherit_algorithm(keys: &Vec<SigningKey>) -> (r: SigningAlgorithm)
    ensures
        r == inherited_algorithm(keys@),
{
    if keys.len() > 0 {
        match SigningAlgorithm::parse(keys[0].algorithm.as_str()) {
            Some(a) => a,
            None => SigningAlgorithm::Rs256,
        }
    } else {
        SigningAlgorithm::Rs256
    }
}

/// Whether a key was overtaken by the one that signs: active, begun, and another.
pub open spec fn overtaken(key: SigningKey, signer: SigningKey, now: Timestamp) -> bool {
    key.status == SigningKeyStatus::Active && key.kid@ != signer.kid@ && key.not_before.nanos
        <= now.nanos
}

/// The names of the keys that were overtaken, in their order.
pub open spec fn overtaken_kids(
    keys: Seq<SigningKey>,
    signer: SigningKey,
    now: Timestamp,
) -> Seq<String>
    decreases keys.len(),
{
    if keys.len() == 0 {
        Seq::empty()
    } else {
        let rest = overtaken_kids(keys.drop_last(), signer, now);
        if overtaken(keys.last(), signer, now) {
            rest.push(keys.last().kid)
        } else {
            rest
        }
    }
}

/// Some key is published and waits for its time.
pub open spec fn successor_waits(keys: Seq<SigningKey>, now: Timestamp) -> bool {
    exists|i: int| 0 <= i < keys.len() && #[trigger] keys[i].pending_at(now)
}

/// Days as a span.
pub open spec fn days(n: int) -> Span {
    Span::of_seconds(n * 86400)
}

/// Hours as a span.
pub open spec fn hours(n: int) -> Span {
    Span::of_seconds(n * 3600)
}

/// When a successor takes over: after the lead, and no later than the end of the key that signs.
pub open spec fn takes_over_at(
    signer: SigningKey,
    now: Timestamp,
    publish_lead_hours: u32,
) -> Timestamp {
    if now.nanos + hours(publish_lead_hours as int).nanos <= signer.not_after.nanos {
        now.later(hours(publish_lead_hours as int))
    } else {
        signer.not_after
    }
}

/// The successor that is due, if any: none while one waits, nor while the key that signs has more
/// than `lead_days` days left.
pub open spec fn successor_due(
    keys: Seq<SigningKey>,
    signer: SigningKey,
    now: Timestamp,
    lead_days: u32,
    publish_lead_hours: u32,
) -> Option<Span> {
    if successor_waits(keys, now) || signer.not_after.nanos - now.nanos > days(
        lead_days as int,
    ).nanos {
        None
    } else {
        Some(
            Span {
                nanos: (takes_over_at(signer, now, publish_lead_hours).nanos - now.nanos) as i128,
            },
        )
    }
}

/// The key made of an order: it signs after the lead, and for a year from then.
pub open spec fn is_new_key(
    key: SigningKey,
    order: KeyOrder,
    draw: KeyDraw,
    public_pem: String,
    private_key_encrypted: String,
) -> bool {
    let lead = if order.publish_lead.nanos > 0 { order.publish_lead } else { Span { nanos: 0 } };
    &&& key.kid@ == date_stamp_of(draw.now.unix_seconds() as i64) + "-"@ + order.algorithm.tag_of()
        + "-"@ + draw.token@
    &&& key.algorithm@ == order.algorithm.name_of()
    &&& key.public_key == public_pem
    &&& key.private_key_encrypted == private_key_encrypted
    &&& key.status == SigningKeyStatus::Active
    &&& key.not_before == draw.now.later(lead)
    &&& key.not_after == key.not_before.later(days(KEY_VALIDITY_DAYS as int))
    &&& key.created_at == draw.now
    &&& key.updated_at == draw.now
}

/// The time that a new key needs is within the calendar.
pub open spec fn key_fits(order: KeyOrder, now: Timestamp) -> bool {
    let lead = if order.publish_lead.nanos > 0 { order.publish_lead } else { Span { nanos: 0 } };
    now.wf() && now.can_add(lead) && now.later(lead).can_add(days(KEY_VALIDITY_DAYS as int))
}

fn prefixed(prefix: &str, e: &String) -> (r: String)
    ensures
        r@ == prefix@ + e@,
{
    join2(prefix, e.as_str())
}

/// What comes of retiring the overtaken keys, from the `i`-th on.
pub open spec fn retire_rule(
    kids: Seq<String>,
    retired: Seq<Result<(), String>>,
    i: int,
    r: Option<RotationStep>,
) -> bool
    decreases kids.len() - i,
{
    if i < 0 || i >= kids.len() {
        r is None
    } else if i >= retired.len() {
        r == Some(RotationStep::Retire { kid: kids[i] })
    } else {
        match retired[i] {
            Err(e) => r matches Some(RotationStep::Done(Err(m))) && m@ == "retire superseded key "@
                + kids[i]@ + ": "@ + e@,
            Ok(_) => retire_rule(kids, retired, i + 1, r),
        }
    }
}

/// A key is ordered, and what comes of it is passed on.
pub open spec fn generate(order: KeyOrder, generated: Reply<()>) -> RotationStep {
    match generated {
        None => RotationStep::Generate(order),
        Some(Err(e)) => RotationStep::Done(Err(e)),
        Some(Ok(_)) => RotationStep::Done(Ok(())),
    }
}

fn order_key(order: KeyOrder, generated: &Reply<()>) -> (r: RotationStep)
    ensures
        r == generate(order, *generated),
{
    match generated {
        None => RotationStep::Generate(order),
        Some(Err(e)) => RotationStep::Done(Err(e.clone())),
        Some(Ok(_)) => RotationStep::Done(Ok(())),
    }
}

/// The keys are known and one signs: those that it has overtaken are retired; then a successor is
/// ordered where it is due. How an unknown algorithm is described is not laid down.
pub open spec fn handover_rule(
    key_encryption_key: [u8; 32],
    keys: Seq<SigningKey>,
    signer: SigningKey,
    now: Timestamp,
    lead_days: u32,
    publish_lead_hours: u32,
    p: RotationProgress,
    r: RotationStep,
) -> bool {
    exists|s: Option<RotationStep>| #[trigger]
        retire_rule(overtaken_kids(keys, signer, now), p.retired@, 0, s) && match s {
            Some(step) => r == step,
            None => match successor_due(keys, signer, now, lead_days, publish_lead_hours) {
                None => r == RotationStep::Done(Ok(())),
                Some(lead) => match SigningAlgorithm::named(signer.algorithm@) {
                    None => r matches RotationStep::Done(Err(m))
                        && "unknown algorithm on active key: "@.is_prefix_of(m@),
                    Some(algorithm) => r == generate(
                        KeyOrder { algorithm, publish_lead: lead, key_encryption_key },
                        p.generated,
                    ),
                },
            },
        }
}

/// What comes next in a rotation of which `p` is known.
pub open spec fn rotate_rule(
    key_encryption_key: [u8; 32],
    now: Timestamp,
    lead_days: u32,
    publish_lead_hours: u32,
    p: RotationProgress,
    r: RotationStep,
) -> bool {
    match p.keys {
        None => r == RotationStep::ListKeys,
        Some(Err(e)) => r matches RotationStep::Done(Err(m)) && m@ == "list signing keys: "@ + e@,
        Some(Ok(keys)) => if some_key_signs(keys@, now) {
            exists|i: int| #[trigger]
                is_signer(keys@, now, i) && handover_rule(
                    key_encryption_key,
                    keys@,
                    keys@[i],
                    now,
                    lead_days,
                    publish_lead_hours,
                    p,
                    r,
                )
        } else {
            r == generate(
                KeyOrder {
                    algorithm: inherited_algorithm(keys@),
                    publish_lead: Span { nanos: 0 },
                    key_encryption_key,
                },
                p.generated,
            )
        },
    }
}

/// The conversion of the `i`-th key has failed, and none before it.
pub open spec fn fails_first(converted: Seq<Result<String, String>>, i: int) -> bool {
    0 <= i < converted.len() && converted[i] is Err && forall|j: int|
        0 <= j < i ==> (#[trigger] converted[j]) is Ok
}

/// What comes next in publishing the keys.
pub open spec fn jwks_rule(
    published: Reply<Vec<SigningKey>>,
    converted: Seq<Result<String, String>>,
    r: JwksStep,
) -> bool {
    match published {
        None => r == JwksStep::ListPublished,
        Some(Err(e)) => r matches JwksStep::Done(Err(m)) && m@ == "list published keys: "@ + e@,
        Some(Ok(keys)) => match r {
            JwksStep::ListPublished => false,
            // The next key, where all before it were converted.
            JwksStep::Convert(source) => converted.len() < keys@.len() && (forall|j: int|
                0 <= j < converted.len() ==> (#[trigger] converted[j]) is Ok) && source == (JwkSource {
                kid: keys@[converted.len() as int].kid,
                algorithm: keys@[converted.len() as int].algorithm,
                public_key: keys@[converted.len() as int].public_key,
            }),
            JwksStep::Done(Err(e)) => exists|i: int| #[trigger]
                fails_first(converted, i) && i < keys@.len() && converted[i] == Err::<
                    String,
                    String,
                >(e),
            JwksStep::Done(Ok(out)) => out@.len() == keys@.len() && converted.len() >= keys@.len()
                && (forall|j: int|
                0 <= j < keys@.len() ==> #[trigger] converted[j] == Ok::<String, String>(out@[j])),
        },
    }
}

/// The keys' times are within the calendar.
pub open spec fn keys_fit(keys: Reply<Vec<SigningKey>>) -> bool {
    keys matches Some(Ok(ks)) ==> forall|i: int|
        0 <= i < ks@.len() ==> (#[trigger] ks@[i]).not_after.wf() && ks@[i].not_before.wf()
}

impl KeyService {
    pub fn new(key_encryption_key: [u8; 32]) -> (r: Self)
        ensures
            r.key_encryption_key == key_encryption_key,
    {
        KeyService { key_encryption_key }
    }

    /// What comes next in making sure that some key can sign.
    pub open spec fn bootstrap_rule(
        self,
        now: Timestamp,
        p: BootstrapProgress,
        r: BootstrapStep,
    ) -> bool {
        match p.keys {
            None => r == BootstrapStep::ListKeys,
            Some(Err(e)) => r matches BootstrapStep::Done(Err(m)) && m@ == "list signing keys: "@
                + e@,
            Some(Ok(keys)) => if some_key_signs(keys@, now) {
                r == BootstrapStep::Done(Ok(()))
            } else {
                match p.made {
                    None => r == BootstrapStep::MakeKey(
                        KeyOrder {
                            algorithm: inherited_algorithm(keys@),
                            publish_lead: Span { nanos: 0 },
                            key_encryption_key: self.key_encryption_key,
                        },
                    ),
                    Some(Err(e)) => r == BootstrapStep::Done(Err(e)),
                    Some(Ok(key)) => match p.inserted {
                        None => r == BootstrapStep::InsertIfNoActive(key),
                        Some(Err(e)) => r matches BootstrapStep::Done(Err(m)) && m@
                            == "bootstrap signing key: "@ + e@,
                        Some(Ok(_)) => r == BootstrapStep::Done(Ok(())),
                    },
                }
            },
        }
    }

    /// Decides what comes next in making sure that some key can sign.
    pub fn ensure_active_key(&self, now: Timestamp, p: &BootstrapProgress) -> (r: BootstrapStep)
        ensures
            self.bootstrap_rule(now, *p, r),
    {
        let keys: &Vec<SigningKey> = match &p.keys {
            None => return BootstrapStep::ListKeys,
            Some(Err(e)) => return BootstrapStep::Done(Err(prefixed("list signing keys: ", e))),
            Some(Ok(keys)) => keys,
        };
        if current_signer_at(keys, now).is_some() {
            return BootstrapStep::Done(Ok(()));
        }
        let key: &SigningKey = match &p.made {
            None => return BootstrapStep::MakeKey(
                KeyOrder {
                    algorithm: inherit_algorithm(keys),
                    publish_lead: Span { nanos: 0 },
                    key_encryption_key: self.key_encryption_key,
                },
            ),
            Some(Err(e)) => return BootstrapStep::Done(Err(e.clone())),
            Some(Ok(key)) => key,
        };
        match &p.inserted {
            None => BootstrapStep::InsertIfNoActive(key.clone()),
            Some(Err(e)) => BootstrapStep::Done(Err(prefixed("bootstrap signing key: ", e))),
            Some(Ok(_)) => BootstrapStep::Done(Ok(())),
        }
    }

    /// What comes next in getting at the key to sign with.
    pub open spec fn signer_rule(
        self,
        active: Reply<Option<SigningKey>>,
        decrypted: Reply<Vec<u8>>,
        r: SignerStep,
    ) -> bool {
        match active {
            None => r == SignerStep::FindActive,
            Some(Err(e)) => r matches SignerStep::Done(Err(m)) && m@ == "find active key: "@ + e@,
            Some(Ok(None)) => r matches SignerStep::Done(Err(m)) && m@ == "no active signing key"@,
            Some(Ok(Some(key))) => match decrypted {
                None => r == (SignerStep::Decrypt {
                    private_key_encrypted: key.private_key_encrypted,
                    key_encryption_key: self.key_encryption_key,
                }),
                Some(Err(e)) => r == SignerStep::Done(Err(e)),
                Some(Ok(bytes)) => match r {
                    SignerStep::Done(Ok(k)) => k.kid == key.kid && k.algorithm == key.algorithm
                        && vstd::utf8::encode_utf8(k.private_pem@) == bytes@,
                    SignerStep::Done(Err(m)) => !vstd::utf8::valid_utf8(bytes@) && m@
                        == "decrypted private key is not valid UTF-8: "@ + utf8_fault_of(bytes@),
                    _ => false,
                },
            },
        }
    }

    /// What comes next in naming the key that signs.
    pub open spec fn kid_rule(active: Reply<Option<SigningKey>>, r: KidStep) -> bool {
        match active {
            None => r == KidStep::FindActive,
            Some(Ok(Some(key))) => r == KidStep::Done(Ok(Some(key.kid))),
            Some(Ok(None)) => r == KidStep::Done(Ok(None)),
            Some(Err(e)) => r matches KidStep::Done(Err(m)) && m@ == "find active key: "@ + e@,
        }
    }

    /// What comes next in storing a key that was made.
    pub open spec fn store_rule(
        made: Result<SigningKey, String>,
        stored: Reply<()>,
        r: StoreStep,
    ) -> bool {
        match made {
            Err(e) => r == StoreStep::Done(Err(e)),
            Ok(key) => match stored {
                None => r == StoreStep::Insert(key),
                Some(Err(e)) => r matches StoreStep::Done(Err(m)) && m@ == "insert signing key: "@
                    + e@,
                Some(Ok(_)) => r == StoreStep::Done(Ok(key)),
            },
        }
    }

    /// What comes next in deleting a key.
    pub open spec fn delete_key_rule(
        kid: String,
        found: Reply<Option<SigningKey>>,
        deleted: Reply<()>,
        r: KeyStep,
    ) -> bool {
        match found {
            None => r == (KeyStep::FindKey { kid }),
            Some(Err(e)) => r == KeyStep::Done(Err(KeyManagementError::Internal(e))),
            Some(Ok(None)) => r == KeyStep::Done(Err(KeyManagementError::NotFound(kid))),
            Some(Ok(Some(key))) => if key.status == SigningKeyStatus::Active {
                r matches KeyStep::Done(Err(KeyManagementError::Validation(k))) && k.key@
                    == "api-signing-key-delete-failed"@
            } else {
                match deleted {
                    None => r == (KeyStep::Delete { kid }),
                    Some(Ok(_)) => r == KeyStep::Done(Ok(())),
                    Some(Err(e)) => r == KeyStep::Done(Err(KeyManagementError::Internal(e))),
                }
            },
        }
    }

    /// Decides what comes next in getting at the key to sign with.
    pub fn active_signing_key(
        &self,
        active: &Reply<Option<SigningKey>>,
        decrypted: &Reply<Vec<u8>>,
    ) -> (r: SignerStep)
        ensures
            self.signer_rule(*active, *decrypted, r),
    {
        let key: &SigningKey = match active {
            None => return SignerStep::FindActive,
            Some(Err(e)) => return SignerStep::Done(Err(prefixed("find active key: ", e))),
            Some(Ok(None)) => return SignerStep::Done(Err("no active signing key".to_owned())),
            Some(Ok(Some(key))) => key,
        };
        match decrypted {
            None => SignerStep::Decrypt {
                private_key_encrypted: key.private_key_encrypted.clone(),
                key_encryption_key: self.key_encryption_key,
            },
            Some(Err(e)) => SignerStep::Done(Err(e.clone())),
            Some(Ok(bytes)) => {
                let copy: Vec<u8> = bytes.clone();
                assert(copy@ =~= bytes@);
                match utf8_text(copy) {
                    Ok(private_pem) => SignerStep::Done(
                        Ok(
                            ActiveSigningKey {
                                kid: key.kid.clone(),
                                algorithm: key.algorithm.clone(),
                                private_pem,
                            },
                        ),
                    ),
                    Err(e) => SignerStep::Done(
                        Err(prefixed("decrypted private key is not valid UTF-8: ", &e)),
                    ),
                }
            },
        }
    }

    /// Decides what comes next in naming the key that signs; its private half is not decrypted.
    pub fn signing_kid(&self, active: &Reply<Option<SigningKey>>) -> (r: KidStep)
        ensures
            Self::kid_rule(*active, r),
    {
        match active {
            None => KidStep::FindActive,
            Some(Ok(Some(key))) => KidStep::Done(Ok(Some(key.kid.clone()))),
            Some(Ok(None)) => KidStep::Done(Ok(None)),
            Some(Err(e)) => KidStep::Done(Err(prefixed("find active key: ", e))),
        }
    }

    /// Decides what comes next in publishing the keys, of which the first have been `converted`:
    /// each is converted in its turn, and the first that cannot be ends it.
    pub fn jwks(
        &self,
        published: &Reply<Vec<SigningKey>>,
        converted: &Vec<Result<String, String>>,
    ) -> (r: JwksStep)
        ensures
            jwks_rule(*published, converted@, r),
    {
        let keys: &Vec<SigningKey> = match published {
            None => return JwksStep::ListPublished,
            Some(Err(e)) => return JwksStep::Done(Err(prefixed("list published keys: ", e))),
            Some(Ok(keys)) => keys,
        };
        let mut out: Vec<String> = Vec::new();
        let mut i: usize = 0;
        while i < keys.len()
            invariant
                i <= keys.len(),
                i <= converted.len(),
                out.len() == i,
                *published matches Some(Ok(ks)) && ks@ == keys@,
                forall|j: int| 0 <= j < i ==> #[trigger] converted@[j] == Ok::<String, String>(out@[j]),
            decreases keys.len() - i,
        {
            if i >= converted.len() {
                return JwksStep::Convert(
                    JwkSource {
                        kid: keys[i].kid.clone(),
                        algorithm: keys[i].algorithm.clone(),
                        public_key: keys[i].public_key.clone(),
                    },
                );
            }
            match &converted[i] {
                Ok(jwk) => out.push(jwk.clone()),
                Err(e) => {
                    assert(fails_first(converted@, i as int));
                    return JwksStep::Done(Err(e.clone()));
                },
            }
            i = i + 1;
        }
        JwksStep::Done(Ok(out))
    }

    fn overtaken_by(&self, keys: &Vec<SigningKey>, signer: &SigningKey, now: Timestamp) -> (r: Vec<
        String,
    >)
        ensures
            r@ == overtaken_kids(keys@, *signer, now),
    {
        let mut out: Vec<String> = Vec::new();
        let mut i: usize = 0;
        proof {
            assert(keys@.subrange(0, 0) =~= Seq::<SigningKey>::empty());
        }
        while i < keys.len()
            invariant
                i <= keys.len(),
                out@ == overtaken_kids(keys@.subrange(0, i as int), *signer, now),
            decreases keys.len() - i,
        {
            let key: &SigningKey = &keys[i];
            proof {
                let upto = keys@.subrange(0, i + 1);
                assert(upto.drop_last() =~= keys@.subrange(0, i as int));
                assert(upto.last() == *key);
            }
            if key.status == SigningKeyStatus::Active && !same(key.kid.as_str(), signer.kid.as_str())
                && key.not_before.at_or_before(now) {
                out.push(key.kid.clone());
            }
            i = i + 1;
        }
        proof {
            assert(keys@.subrange(0, keys.len() as int) =~= keys@);
        }
        out
    }

    fn a_successor_waits(&self, keys: &Vec<SigningKey>, now: Timestamp) -> (r: bool)
        ensures
            r == successor_waits(keys@, now),
    {
        let mut i: usize = 0;
        while i < keys.len()
            invariant
                i <= keys.len(),
                forall|j: int| 0 <= j < i ==> !#[trigger] keys@[j].pending_at(now),
            decreases keys.len() - i,
        {
            if keys[i].is_pending_at(now) {
                return true;
            }
            i = i + 1;
        }
        false
    }

    fn retire_next(&self, kids: &Vec<String>, retired: &Vec<Result<(), String>>) -> (r: Option<
        RotationStep,
    >)
        ensures
            retire_rule(kids@, retired@, 0, r),
    {
        let mut i: usize = 0;
        while i < kids.len()
            invariant
                i <= kids.len(),
                forall|s: Option<RotationStep>| #[trigger]
                    retire_rule(kids@, retired@, i as int, s) ==> retire_rule(
                        kids@,
                        retired@,
                        0,
                        s,
                    ),
            decreases kids.len() - i,
        {
            let ghost at = i as int;
            if i >= retired.len() {
                let step = Some(RotationStep::Retire { kid: kids[i].clone() });
                assert(retire_rule(kids@, retired@, at, step));
                return step;
            }
            if let Err(e) = &retired[i] {
                let mut m: String = "retire superseded key ".to_owned();
                m.append(kids[i].as_str());
                m.append(": ");
                m.append(e.as_str());
                let step = Some(RotationStep::Done(Err(m)));
                assert(retire_rule(kids@, retired@, at, step));
                return step;
            }
            proof {
                assert forall|s: Option<RotationStep>| #[trigger]
                    retire_rule(kids@, retired@, at + 1, s) implies retire_rule(
                    kids@,
                    retired@,
                    0,
                    s,
                ) by {
                    assert(retire_rule(kids@, retired@, at, s));
                }
            }
            i = i + 1;
        }
        let step: Option<RotationStep> = None;
        assert(retire_rule(kids@, retired@, i as int, step));
        step
    }

    /// Decides what comes next in a rotation of which `p` is known.
    pub fn rotate_if_needed(
        &self,
        now: Timestamp,
        lead_days: u32,
        publish_lead_hours: u32,
        p: &RotationProgress,
    ) -> (r: RotationStep)
        requires
            now.wf(),
            now.can_add(hours(publish_lead_hours as int)),
            keys_fit(p.keys),
        ensures
            rotate_rule(self.key_encryption_key, now, lead_days, publish_lead_hours, *p, r),
    {
        let keys: &Vec<SigningKey> = match &p.keys {
            None => return RotationStep::ListKeys,
            Some(Err(e)) => return RotationStep::Done(Err(prefixed("list signing keys: ", e))),
            Some(Ok(keys)) => keys,
        };
        let found: Option<usize> = current_signer_at(keys, now);
        let signer: &SigningKey = match found {
            None => {
                let order = KeyOrder {
                    algorithm: inherit_algorithm(keys),
                    publish_lead: Span { nanos: 0 },
                    key_encryption_key: self.key_encryption_key,
                };
                return order_key(order, &p.generated);
            },
            Some(i) => {
                assert(keys@[i as int].signs_at(now));
                &keys[i]
            },
        };
        let kids: Vec<String> = self.overtaken_by(keys, signer, now);
        let retiring: Option<RotationStep> = self.retire_next(&kids, &p.retired);
        proof {
            assert(retire_rule(
                overtaken_kids(keys@, *signer, now),
                p.retired@,
                0,
                retiring,
            ));
        }
        if let Some(step) = retiring {
            return step;
        }
        if self.a_successor_waits(keys, now) {
            return RotationStep::Done(Ok(()));
        }
        let remaining: Span = signer.not_after.since(now);
        if remaining.nanos > Span::seconds(lead_days as i64 * 86400).nanos {
            return RotationStep::Done(Ok(()));
        }
        let wished: Timestamp = now.plus(Span::seconds(publish_lead_hours as i64 * 3600));
        let signs_from: Timestamp = if wished.at_or_before(signer.not_after) {
            wished
        } else {
            signer.not_after
        };
        match SigningAlgorithm::parse(signer.algorithm.as_str()) {
            None => RotationStep::Done(
                Err(prefixed("unknown algorithm on active key: ", &signer.algorithm)),
            ),
            Some(algorithm) => order_key(
                KeyOrder {
                    algorithm,
                    publish_lead: signs_from.since(now),
                    key_encryption_key: self.key_encryption_key,
                },
                &p.generated,
            ),
        }
    }

    /// Decides what comes next in listing every key.
    pub fn list_keys(&self, listed: Reply<Vec<SigningKey>>) -> (r: KeysStep)
        ensures
            r == match listed {
                None => KeysStep::ListKeys,
                Some(Ok(keys)) => KeysStep::Done(Ok(keys)),
                Some(Err(e)) => KeysStep::Done(Err(KeyManagementError::Internal(e))),
            },
    {
        match listed {
            None => KeysStep::ListKeys,
            Some(Ok(keys)) => KeysStep::Done(Ok(keys)),
            Some(Err(e)) => KeysStep::Done(Err(KeyManagementError::Internal(e))),
        }
    }

    /// The lead that leaves no gap: none where nothing signs or none was asked for, and none beyond
    /// the end of the key that signs.
    pub open spec fn capped(
        publish_lead: Span,
        keys: Seq<SigningKey>,
        now: Timestamp,
        lead: Span,
    ) -> bool {
        if publish_lead.nanos <= 0 || !some_key_signs(keys, now) {
            lead == (Span { nanos: 0 })
        } else {
            exists|i: int| #[trigger]
                is_signer(keys, now, i) && lead.nanos == if publish_lead.nanos
                    <= keys[i].not_after.nanos - now.nanos {
                    publish_lead.nanos as int
                } else {
                    keys[i].not_after.nanos - now.nanos
                }
        }
    }

    /// What comes next in finding the lead that leaves no gap; the lead, once it is known.
    pub fn capped_publish_lead(
        &self,
        publish_lead: Span,
        now: Timestamp,
        keys: &Reply<Vec<SigningKey>>,
    ) -> (r: Result<Span, GenerateStep>)
        requires
            now.wf(),
            keys_fit(*keys),
        ensures
            if publish_lead.nanos <= 0 {
                r == Ok::<Span, GenerateStep>(Span { nanos: 0 })
            } else {
                match *keys {
                    None => r == Err::<Span, GenerateStep>(GenerateStep::ListKeys),
                    Some(Err(e)) => r matches Err(
                        GenerateStep::Done(Err(KeyManagementError::Internal(m))),
                    ) && m@ == "list signing keys: "@ + e@,
                    Some(Ok(ks)) => r matches Ok(lead) && Self::capped(publish_lead, ks@, now, lead),
                }
            },
    {
        if publish_lead.nanos <= 0 {
            return Ok(Span { nanos: 0 });
        }
        let keys: &Vec<SigningKey> = match keys {
            None => return Err(GenerateStep::ListKeys),
            Some(Err(e)) => return Err(
                GenerateStep::Done(
                    Err(KeyManagementError::Internal(prefixed("list signing keys: ", e))),
                ),
            ),
            Some(Ok(keys)) => keys,
        };
        match current_signer_at(keys, now) {
            None => Ok(Span { nanos: 0 }),
            Some(i) => {
                let lead: Span = min_span(publish_lead, keys[i].not_after.since(now));
                assert(is_signer(keys@, now, i as int));
                Ok(lead)
            },
        }
    }

    /// What comes next in making a key by hand: its lead leaves no gap, and what comes of it is
    /// passed on.
    pub open spec fn generate_key_rule(
        self,
        algorithm: SigningAlgorithm,
        publish_lead: Span,
        now: Timestamp,
        keys: Reply<Vec<SigningKey>>,
        generated: Reply<SigningKey>,
        r: GenerateStep,
    ) -> bool {
        match keys {
            None if publish_lead.nanos > 0 => r == GenerateStep::ListKeys,
            Some(Err(e)) if publish_lead.nanos > 0 => r matches GenerateStep::Done(
                Err(KeyManagementError::Internal(m)),
            ) && m@ == "list signing keys: "@ + e@,
            _ => match generated {
                None => r matches GenerateStep::Generate(order) && order.algorithm == algorithm
                    && order.key_encryption_key == self.key_encryption_key && (
                if publish_lead.nanos <= 0 {
                    order.publish_lead == (Span { nanos: 0 })
                } else {
                    Self::capped(publish_lead, keys->0->Ok_0@, now, order.publish_lead)
                }),
                Some(Ok(key)) => r == GenerateStep::Done(Ok(key)),
                Some(Err(e)) => r == GenerateStep::Done(Err(KeyManagementError::Internal(e))),
            },
        }
    }

    /// Decides what comes next in making a key by hand.
    pub fn generate_key(
        &self,
        algorithm: SigningAlgorithm,
        publish_lead: Span,
        now: Timestamp,
        keys: &Reply<Vec<SigningKey>>,
        generated: &Reply<SigningKey>,
    ) -> (r: GenerateStep)
        requires
            now.wf(),
            keys_fit(*keys),
        ensures
            self.generate_key_rule(algorithm, publish_lead, now, *keys, *generated, r),
    {
        let lead: Span = match self.capped_publish_lead(publish_lead, now, keys) {
            Ok(lead) => lead,
            Err(step) => return step,
        };
        match generated {
            None => GenerateStep::Generate(
                KeyOrder {
                    algorithm,
                    publish_lead: lead,
                    key_encryption_key: self.key_encryption_key,
                },
            ),
            Some(Ok(key)) => GenerateStep::Done(Ok(key.clone())),
            Some(Err(e)) => GenerateStep::Done(Err(KeyManagementError::Internal(e.clone()))),
        }
    }

    /// Decides what comes next in storing a key that was made; the key itself comes of it.
    pub fn generate_key_internal(&self, made: &Result<SigningKey, String>, stored: &Reply<()>) -> (r:
        StoreStep)
        ensures
            Self::store_rule(*made, *stored, r),
    {
        let key: &SigningKey = match made {
            Err(e) => return StoreStep::Done(Err(e.clone())),
            Ok(key) => key,
        };
        match stored {
            None => StoreStep::Insert(key.clone()),
            Some(Err(e)) => StoreStep::Done(Err(prefixed("insert signing key: ", e))),
            Some(Ok(_)) => StoreStep::Done(Ok(key.clone())),
        }
    }

    /// What comes next in making a key: a pair, the time and a token for its name, and the private
    /// half under encryption.
    pub open spec fn material_rule(order: KeyOrder, p: MaterialProgress, r: MaterialStep) -> bool {
        match p.pair {
            None => r == (MaterialStep::GeneratePair { algorithm: order.algorithm }),
            Some(Err(e)) => r == MaterialStep::Done(Err(e)),
            Some(Ok(pair)) => match p.draw {
                None => r == (MaterialStep::Draw { token_bytes: 6 }),
                Some(draw) => match p.encrypted {
                    None => r == (MaterialStep::Encrypt {
                        plaintext: pair.private_pem,
                        key_encryption_key: order.key_encryption_key,
                    }),
                    Some(Err(e)) => r == MaterialStep::Done(Err(e)),
                    Some(Ok(encrypted)) => r matches MaterialStep::Done(Ok(key)) && is_new_key(
                        key,
                        order,
                        draw,
                        pair.public_pem,
                        encrypted,
                    ),
                },
            },
        }
    }

    /// Decides what comes next in making the key that was ordered.
    pub fn new_key_material(&self, order: KeyOrder, p: &MaterialProgress) -> (r: MaterialStep)
        requires
            p.draw matches Some(draw) ==> key_fits(order, draw.now),
        ensures
            Self::material_rule(order, *p, r),
    {
        let pair: &KeyPair = match &p.pair {
            None => return MaterialStep::GeneratePair { algorithm: order.algorithm },
            Some(Err(e)) => return MaterialStep::Done(Err(e.clone())),
            Some(Ok(pair)) => pair,
        };
        let draw: &KeyDraw = match &p.draw {
            None => return MaterialStep::Draw { token_bytes: 6 },
            Some(draw) => draw,
        };
        let private_key_encrypted: String = match &p.encrypted {
            None => return MaterialStep::Encrypt {
                plaintext: pair.private_pem.clone(),
                key_encryption_key: order.key_encryption_key,
            },
            Some(Err(e)) => return MaterialStep::Done(Err(e.clone())),
            Some(Ok(encrypted)) => encrypted.clone(),
        };
        let zero = Span { nanos: 0 };
        let lead: Span = if order.publish_lead.nanos > 0 { order.publish_lead } else { zero };
        let not_before: Timestamp = draw.now.plus(lead);
        let not_after: Timestamp = not_before.plus(Span::seconds(KEY_VALIDITY_DAYS * 86400));
        let mut kid: String = draw.now.date_stamp();
        kid.append("-");
        kid.append(order.algorithm.tag());
        kid.append("-");
        kid.append(draw.token.as_str());
        MaterialStep::Done(
            Ok(
                SigningKey {
                    kid,
                    algorithm: order.algorithm.as_str().to_owned(),
                    public_key: pair.public_pem.clone(),
                    private_key_encrypted,
                    status: SigningKeyStatus::Active,
                    not_before,
                    not_after,
                    created_at: draw.now,
                    updated_at: draw.now,
                },
            ),
        )
    }

    /// The key of this name, in the list.
    pub open spec fn position(keys: Seq<SigningKey>, kid: Seq<char>, n: nat) -> Option<int>
        decreases n,
    {
        if n == 0 || n > keys.len() {
            None
        } else {
            match Self::position(keys, kid, (n - 1) as nat) {
                Some(i) => Some(i),
                None => if keys[n - 1].kid@ == kid {
                    Some(n - 1)
                } else {
                    None
                },
            }
        }
    }

    /// Whether another key than `kid` can sign.
    pub open spec fn another_signs(keys: Seq<SigningKey>, kid: Seq<char>, now: Timestamp) -> bool {
        exists|i: int| 0 <= i < keys.len() && keys[i].kid@ != kid && #[trigger] keys[i].signs_at(now)
    }

    /// What comes next in retiring a key: it must be there, not be retired, and leave another that
    /// can sign.
    pub open spec fn retire_key_rule(
        kid: String,
        now: Timestamp,
        keys: Reply<Vec<SigningKey>>,
        updated: Option<Result<(), DomainError>>,
        r: KeyStep,
    ) -> bool {
        match keys {
            None => r == KeyStep::ListKeys,
            Some(Err(e)) => r == KeyStep::Done(Err(KeyManagementError::Internal(e))),
            Some(Ok(ks)) => match Self::position(ks@, kid@, ks@.len()) {
                None => r == KeyStep::Done(Err(KeyManagementError::NotFound(kid))),
                Some(i) => if ks@[i].status == SigningKeyStatus::Retired {
                    r matches KeyStep::Done(Err(KeyManagementError::Validation(k))) && k.key@
                        == "api-signing-key-retire-failed"@
                } else if !Self::another_signs(ks@, kid@, now) {
                    r matches KeyStep::Done(Err(KeyManagementError::Validation(k))) && k.key@
                        == "api-signing-key-retire-last-active"@
                } else {
                    match updated {
                        None => r == (KeyStep::UpdateStatus {
                            kid,
                            status: SigningKeyStatus::Retired,
                        }),
                        Some(Ok(_)) => r == KeyStep::Done(Ok(())),
                        Some(Err(DomainError::NotFound(_))) => r == KeyStep::Done(
                            Err(KeyManagementError::NotFound(kid)),
                        ),
                        Some(Err(e)) => r matches KeyStep::Done(Err(KeyManagementError::Internal(m)))
                            && m@ == e.message_of(),
                    }
                },
            },
        }
    }

    fn find_position(&self, keys: &Vec<SigningKey>, kid: &str) -> (r: Option<usize>)
        ensures
            match r {
                Some(i) => Self::position(keys@, kid@, keys@.len()) == Some(i as int) && i
                    < keys@.len(),
                None => Self::position(keys@, kid@, keys@.len()) is None,
            },
    {
        let mut found: Option<usize> = None;
        let mut i: usize = 0;
        while i < keys.len()
            invariant
                i <= keys.len(),
                match found {
                    Some(f) => Self::position(keys@, kid@, i as nat) == Some(f as int) && f < i,
                    None => Self::position(keys@, kid@, i as nat) is None,
                },
            decreases keys.len() - i,
        {
            if found.is_none() && same(keys[i].kid.as_str(), kid) {
                found = Some(i);
            }
            i = i + 1;
        }
        found
    }

    fn another_can_sign(&self, keys: &Vec<SigningKey>, kid: &str, now: Timestamp) -> (r: bool)
        ensures
            r == Self::another_signs(keys@, kid@, now),
    {
        let mut i: usize = 0;
        while i < keys.len()
            invariant
                i <= keys.len(),
                forall|j: int|
                    0 <= j < i ==> !(keys@[j].kid@ != kid@ && #[trigger] keys@[j].signs_at(now)),
            decreases keys.len() - i,
        {
            if !same(keys[i].kid.as_str(), kid) && keys[i].is_usable_for_signing_at(now) {
                return true;
            }
            i = i + 1;
        }
        false
    }

    /// Decides what comes next in retiring a key.
    pub fn retire_key(
        &self,
        kid: &String,
        now: Timestamp,
        keys: &Reply<Vec<SigningKey>>,
        updated: &Option<Result<(), DomainError>>,
    ) -> (r: KeyStep)
        ensures
            Self::retire_key_rule(*kid, now, *keys, *updated, r),
    {
        let keys: &Vec<SigningKey> = match keys {
            None => return KeyStep::ListKeys,
            Some(Err(e)) => return KeyStep::Done(Err(KeyManagementError::Internal(e.clone()))),
            Some(Ok(keys)) => keys,
        };
        let i: usize = match self.find_position(keys, kid.as_str()) {
            None => return KeyStep::Done(Err(KeyManagementError::NotFound(kid.clone()))),
            Some(i) => i,
        };
        if keys[i].status == SigningKeyStatus::Retired {
            return KeyStep::Done(
                Err(KeyManagementError::Validation(MessageKey::new("api-signing-key-retire-failed"))),
            );
        }
        if !self.another_can_sign(keys, kid.as_str(), now) {
            return KeyStep::Done(
                Err(
                    KeyManagementError::Validation(
                        MessageKey::new("api-signing-key-retire-last-active"),
                    ),
                ),
            );
        }
        match updated {
            None => KeyStep::UpdateStatus { kid: kid.clone(), status: SigningKeyStatus::Retired },
            Some(Ok(_)) => KeyStep::Done(Ok(())),
            Some(Err(DomainError::NotFound(_))) => KeyStep::Done(
                Err(KeyManagementError::NotFound(kid.clone())),
            ),
            Some(Err(e)) => KeyStep::Done(Err(KeyManagementError::Internal(e.message()))),
        }
    }

    /// Decides what comes next in deleting a key: it must be there and not be active.
    pub fn delete_key(
        &self,
        kid: &String,
        found: &Reply<Option<SigningKey>>,
        deleted: &Reply<()>,
    ) -> (r: KeyStep)
        ensures
            Self::delete_key_rule(*kid, *found, *deleted, r),
    {
        let key: &SigningKey = match found {
            None => return KeyStep::FindKey { kid: kid.clone() },
            Some(Err(e)) => return KeyStep::Done(Err(KeyManagementError::Internal(e.clone()))),
            Some(Ok(None)) => return KeyStep::Done(Err(KeyManagementError::NotFound(kid.clone()))),
            Some(Ok(Some(key))) => key,
        };
        if key.status == SigningKeyStatus::Active {
            return KeyStep::Done(
                Err(KeyManagementError::Validation(MessageKey::new("api-signing-key-delete-failed"))),
            );
        }
        match deleted {
            None => KeyStep::Delete { kid: kid.clone() },
            Some(Ok(_)) => KeyStep::Done(Ok(())),
            Some(Err(e)) => KeyStep::Done(Err(KeyManagementError::Internal(e.clone()))),
        }
    }
}

/// The last key that can sign is never retired by hand: where one is, another can sign.
pub proof fn the_last_signer_stays(
    kid: String,
    now: Timestamp,
    keys: Reply<Vec<SigningKey>>,
    updated: Option<Result<(), DomainError>>,
    r: KeyStep,
)
    requires
        KeyService::retire_key_rule(kid, now, keys, updated, r),
        r is UpdateStatus || (r matches KeyStep::Done(Ok(_))),
    ensures
        keys matches Some(Ok(ks)) && KeyService::another_signs(ks@, kid@, now),
{
}

proof fn lemma_overtaken_kids(keys: Seq<SigningKey>, signer: SigningKey, now: Timestamp, k: int)
    requires
        0 <= k < overtaken_kids(keys, signer, now).len(),
    ensures
        exists|i: int|
            0 <= i < keys.len() && overtaken_kids(keys, signer, now)[k] == (#[trigger] keys[i]).kid
                && overtaken(keys[i], signer, now),
    decreases keys.len(),
{
    let rest = overtaken_kids(keys.drop_last(), signer, now);
    if k < rest.len() {
        lemma_overtaken_kids(keys.drop_last(), signer, now, k);
        let i = choose|i: int|
            0 <= i < keys.drop_last().len() && rest[k] == (#[trigger] keys.drop_last()[i]).kid
                && overtaken(keys.drop_last()[i], signer, now);
        assert(keys[i] == keys.drop_last()[i]);
    } else {
        assert(keys[keys.len() - 1] == keys.last());
    }
}

proof fn lemma_retire_names(
    kids: Seq<String>,
    retired: Seq<Result<(), String>>,
    i: int,
    kid: String,
)
    requires
        0 <= i,
        retire_rule(kids, retired, i, Some(RotationStep::Retire { kid })),
    ensures
        exists|k: int| 0 <= k < kids.len() && #[trigger] kids[k] == kid,
    decreases kids.len() - i,
{
    if i < kids.len() {
        if i >= retired.len() {
            assert(kids[i] == kid);
        } else if retired[i] is Ok {
            lemma_retire_names(kids, retired, i + 1, kid);
        }
    }
}

proof fn lemma_retire_orders_nothing(
    kids: Seq<String>,
    retired: Seq<Result<(), String>>,
    i: int,
    r: Option<RotationStep>,
)
    requires
        0 <= i,
        retire_rule(kids, retired, i, r),
    ensures
        !(r matches Some(RotationStep::Generate(_))),
        !(r matches Some(RotationStep::ListKeys)),
    decreases kids.len() - i,
{
    if i < kids.len() && i < retired.len() && retired[i] is Ok {
        lemma_retire_orders_nothing(kids, retired, i + 1, r);
    }
}

/// A rotation never retires the key that signs, nor one whose time is still to come.
pub proof fn a_rotation_retires_only_what_was_overtaken(
    key_encryption_key: [u8; 32],
    now: Timestamp,
    lead_days: u32,
    publish_lead_hours: u32,
    p: RotationProgress,
    kid: String,
)
    requires
        rotate_rule(
            key_encryption_key,
            now,
            lead_days,
            publish_lead_hours,
            p,
            RotationStep::Retire { kid },
        ),
    ensures
        p.keys matches Some(Ok(keys)) && (exists|s: int| #[trigger]
            is_signer(keys@, now, s) && keys@[s].kid@ != kid@) && (exists|i: int|
            0 <= i < keys@.len() && (#[trigger] keys@[i]).kid == kid && !keys@[i].pending_at(now)),
{
    let r = RotationStep::Retire { kid };
    let keys = p.keys->0->Ok_0;
    let s = choose|s: int| #[trigger]
        is_signer(keys@, now, s) && handover_rule(
            key_encryption_key,
            keys@,
            keys@[s],
            now,
            lead_days,
            publish_lead_hours,
            p,
            r,
        );
    let kids = overtaken_kids(keys@, keys@[s], now);
    assert(retire_rule(kids, p.retired@, 0, Some(r)));
    lemma_retire_names(kids, p.retired@, 0, kid);
    let k = choose|k: int| 0 <= k < kids.len() && #[trigger] kids[k] == kid;
    lemma_overtaken_kids(keys@, keys@[s], now, k);
}

/// A successor is ordered only where none waits and the key that signs nears its end; it takes over
/// before that end.
pub proof fn a_successor_takes_over_in_time(
    key_encryption_key: [u8; 32],
    now: Timestamp,
    lead_days: u32,
    publish_lead_hours: u32,
    p: RotationProgress,
    order: KeyOrder,
)
    requires
        now.wf(),
        now.can_add(hours(publish_lead_hours as int)),
        keys_fit(p.keys),
        rotate_rule(
            key_encryption_key,
            now,
            lead_days,
            publish_lead_hours,
            p,
            RotationStep::Generate(order),
        ),
    ensures
        p.keys matches Some(Ok(keys)) && if some_key_signs(keys@, now) {
            !successor_waits(keys@, now) && 0 <= order.publish_lead.nanos && exists|s: int| #[trigger]
                is_signer(keys@, now, s) && now.nanos + order.publish_lead.nanos
                    <= keys@[s].not_after.nanos && Some(order.algorithm) == SigningAlgorithm::named(
                    keys@[s].algorithm@,
                )
        } else {
            order.publish_lead.nanos == 0 && order.algorithm == inherited_algorithm(keys@)
        },
{
    let r = RotationStep::Generate(order);
    let keys = p.keys->0->Ok_0;
    if some_key_signs(keys@, now) {
        let s = choose|s: int| #[trigger]
            is_signer(keys@, now, s) && handover_rule(
                key_encryption_key,
                keys@,
                keys@[s],
                now,
                lead_days,
                publish_lead_hours,
                p,
                r,
            );
        let kids = overtaken_kids(keys@, keys@[s], now);
        assert forall|st: Option<RotationStep>| #[trigger]
            retire_rule(kids, p.retired@, 0, st) implies !(st matches Some(
            RotationStep::Generate(_),
        )) by {
            lemma_retire_orders_nothing(kids, p.retired@, 0, st);
        }
        assert(keys@[s].not_after.wf());
    }
}

/// From now until the end of an ordered key, the key that signs or the new one can sign: the
/// handover leaves no gap.
pub proof fn a_handover_leaves_no_gap(
    signer: SigningKey,
    successor: SigningKey,
    order: KeyOrder,
    draw: KeyDraw,
    public_pem: String,
    private_key_encrypted: String,
    t: Timestamp,
)
    requires
        key_fits(order, draw.now),
        is_new_key(successor, order, draw, public_pem, private_key_encrypted),
        signer.signs_at(draw.now),
        draw.now.nanos + order.publish_lead.nanos <= signer.not_after.nanos,
        draw.now.nanos <= t.nanos < successor.not_after.nanos,
    ensures
        signer.signs_at(t) || successor.signs_at(t),
{
}

/// A key made by hand never starts to sign after the current one has ended, and starts at once
/// where nothing signs.
pub proof fn a_lead_by_hand_leaves_no_gap(
    publish_lead: Span,
    keys: Seq<SigningKey>,
    now: Timestamp,
    lead: Span,
)
    requires
        now.wf(),
        forall|i: int| 0 <= i < keys.len() ==> (#[trigger] keys[i]).not_after.wf(),
        KeyService::capped(publish_lead, keys, now, lead),
    ensures
        lead.nanos >= 0,
        if some_key_signs(keys, now) {
            exists|i: int| #[trigger]
                is_signer(keys, now, i) && now.nanos + lead.nanos <= keys[i].not_after.nanos
        } else {
            lead.nanos == 0
        },
{
    some_key_is_the_signer(keys, now);
    if some_key_signs(keys, now) && publish_lead.nanos <= 0 {
        let i = choose|i: int| #[trigger] is_signer(keys, now, i);
        assert(keys[i].signs_at(now));
    }
}

proof fn lemma_next_retirement(
    kids: Seq<String>,
    retired: Seq<Result<(), String>>,
    i: int,
    r: RotationStep,
)
    requires
        i >= 0,
        retire_rule(kids, retired, i, Some(r)),
    ensures
        r is Done || (r is Retire && retired.len() < kids.len()),
    decreases kids.len() - i,
{
    if i < kids.len() && i < retired.len() && retired[i] is Ok {
        lemma_next_retirement(kids, retired, i + 1, r);
    }
}

/// A rotation asks for nothing that is known already: the keys are listed once, each overtaken key
/// is retired once, and one key is ordered at most.
pub proof fn a_rotation_asks_nothing_twice(
    key_encryption_key: [u8; 32],
    now: Timestamp,
    lead_days: u32,
    publish_lead_hours: u32,
    p: RotationProgress,
    r: RotationStep,
)
    requires
        rotate_rule(key_encryption_key, now, lead_days, publish_lead_hours, p, r),
    ensures
        match r {
            RotationStep::ListKeys => p.keys is None,
            RotationStep::Retire { .. } => p.keys matches Some(Ok(keys)) && exists|i: int| #[trigger]
                is_signer(keys@, now, i) && p.retired@.len() < overtaken_kids(
                    keys@,
                    keys@[i],
                    now,
                ).len(),
            RotationStep::Generate(_) => p.generated is None,
            RotationStep::Done(_) => true,
        },
{
    if let Some(Ok(keys)) = p.keys {
        if some_key_signs(keys@, now) {
            let i = choose|i: int| #[trigger]
                is_signer(keys@, now, i) && handover_rule(
                    key_encryption_key,
                    keys@,
                    keys@[i],
                    now,
                    lead_days,
                    publish_lead_hours,
                    p,
                    r,
                );
            let kids = overtaken_kids(keys@, keys@[i], now);
            if r is Retire {
                assert(retire_rule(kids, p.retired@, 0, Some(r)));
                lemma_next_retirement(kids, p.retired@, 0, r);
            }
            assert forall|s: Option<RotationStep>| #[trigger]
                retire_rule(kids, p.retired@, 0, s) implies !(s matches Some(
                RotationStep::Generate(_),
            )) && !(s matches Some(RotationStep::ListKeys)) by {
                lemma_retire_orders_nothing(kids, p.retired@, 0, s);
            }
        }
    }
}

/// A key that was made is good at once where it was ordered without a lead, and for a year: it is
/// named by its day and what was drawn, has the algorithm of the order, the public half of the pair
/// that was generated, and the private half only under encryption.
pub proof fn a_key_is_made_as_ordered(order: KeyOrder, p: MaterialProgress, r: MaterialStep)
    requires
        KeyService::material_rule(order, p, r),
    ensures
        match r {
            MaterialStep::GeneratePair { algorithm } => algorithm == order.algorithm,
            MaterialStep::Draw { token_bytes } => token_bytes == 6,
            MaterialStep::Encrypt { plaintext, key_encryption_key } => key_encryption_key
                == order.key_encryption_key && (p.pair matches Some(Ok(pair)) && plaintext
                == pair.private_pem),
            MaterialStep::Done(Ok(key)) => key.status == SigningKeyStatus::Active && (
            order.algorithm == SigningAlgorithm::Rs256 <==> key.algorithm@ == "RS256"@) && (
            order.algorithm == SigningAlgorithm::Es256 <==> key.algorithm@ == "ES256"@) && (
            p.pair matches Some(Ok(pair)) && key.public_key == pair.public_pem) && p.encrypted
                == Some(Ok::<String, String>(key.private_key_encrypted)) && (p.draw matches Some(
                draw,
            ) && key.created_at == draw.now && key.updated_at == draw.now && (key_fits(
                order,
                draw.now,
            ) ==> key.not_after.nanos == key.not_before.nanos + 365 * 86_400_000_000_000 && (
            order.publish_lead.nanos <= 0 ==> key.not_before.nanos == draw.now.nanos) && (
            order.publish_lead.nanos > 0 ==> key.not_before.nanos == draw.now.nanos
                + order.publish_lead.nanos))),
            MaterialStep::Done(Err(e)) => p.pair == Some(Err::<KeyPair, String>(e)) || p.encrypted
                == Some(Err::<String, String>(e)),
        },
{
    reveal_strlit("RS256");
    reveal_strlit("ES256");
    assert("RS256"@[0] != "ES256"@[0]);
}

/// A key made without a lead can sign from the moment it was made.
pub proof fn a_key_without_lead_signs_at_once(order: KeyOrder, p: MaterialProgress, key: SigningKey)
    requires
        KeyService::material_rule(order, p, MaterialStep::Done(Ok(key))),
        order.publish_lead.nanos <= 0,
        p.draw matches Some(draw) && key_fits(order, draw.now),
    ensures
        key.signs_at(p.draw->0.now),
        !key.pending_at(p.draw->0.now),
{
}

/// An algorithm is found again by its name, and no name stands for two.
pub proof fn an_algorithm_is_found_by_its_name(a: SigningAlgorithm, b: SigningAlgorithm)
    ensures
        SigningAlgorithm::named(a.name_of()) == Some(a),
        a.name_of() == b.name_of() ==> a == b,
        a.tag_of() == b.tag_of() ==> a == b,
        a.name_of().len() == 5,
{
    reveal_strlit("RS256");
    reveal_strlit("ES256");
    reveal_strlit("rs");
    reveal_strlit("es");
    assert("RS256"@[0] != "ES256"@[0]);
    assert("rs"@[0] != "es"@[0]);
}

/// Keys sign from their beginning until their end, and wait before it: no key does both, and one that
/// is not active does neither.
pub proof fn a_key_signs_in_its_time(key: SigningKey, now: Timestamp)
    ensures
        key.signs_at(now) ==> key.status == SigningKeyStatus::Active && key.not_before.nanos
            <= now.nanos && now.nanos < key.not_after.nanos,
        key.pending_at(now) ==> key.status == SigningKeyStatus::Active && now.nanos
            < key.not_before.nanos,
        !(key.signs_at(now) && key.pending_at(now)),
        key.status == SigningKeyStatus::Active && now.nanos < key.not_after.nanos ==> key.signs_at(
            now,
        ) || key.pending_at(now),
        key.status == SigningKeyStatus::Active && key.not_before.nanos < key.not_after.nanos
            ==> key.signs_at(key.not_before) && !key.signs_at(key.not_after),
{
}

/// The first key is made only where nothing can sign, signs at once, is stored as it was made, and is
/// encrypted under the service's key; where something signs, nothing is made.
pub proof fn the_first_key_is_made_where_none_signs(
    svc: KeyService,
    now: Timestamp,
    p: BootstrapProgress,
    r: BootstrapStep,
)
    requires
        svc.bootstrap_rule(now, p, r),
    ensures
        match r {
            BootstrapStep::ListKeys => p.keys is None,
            BootstrapStep::MakeKey(order) => (p.keys matches Some(Ok(keys)) && (forall|i: int|
                0 <= i < keys@.len() ==> !(#[trigger] keys@[i]).signs_at(now)) && (keys@.len() == 0
                ==> order.algorithm == SigningAlgorithm::Rs256) && (keys@.len() > 0
                && keys@[0].algorithm@ == order.algorithm.name_of() || order.algorithm
                == SigningAlgorithm::Rs256)) && order.publish_lead.nanos == 0
                && order.key_encryption_key == svc.key_encryption_key,
            BootstrapStep::InsertIfNoActive(key) => p.made == Some(Ok::<SigningKey, String>(key)) && (
            p.keys matches Some(Ok(keys)) && forall|i: int|
                0 <= i < keys@.len() ==> !(#[trigger] keys@[i]).signs_at(now)),
            BootstrapStep::Done(Ok(_)) => (p.inserted matches Some(Ok(_))) || (p.keys matches Some(
                Ok(keys),
            ) && exists|i: int| 0 <= i < keys@.len() && (#[trigger] keys@[i]).signs_at(now)),
            BootstrapStep::Done(Err(_)) => (p.keys matches Some(Err(_))) || (p.made matches Some(
                Err(_),
            )) || (p.inserted matches Some(Err(_))),
        },
{
}

/// The key to sign with is the active one that was found: under its own name and algorithm, with the
/// private half that its encrypted text has yielded; and the name that is told beforehand is the same.
pub proof fn the_active_key_signs(
    svc: KeyService,
    active: Reply<Option<SigningKey>>,
    decrypted: Reply<Vec<u8>>,
    r: SignerStep,
    named: KidStep,
)
    requires
        svc.signer_rule(active, decrypted, r),
        KeyService::kid_rule(active, named),
    ensures
        match r {
            SignerStep::FindActive => active is None && named == KidStep::FindActive,
            SignerStep::Decrypt { private_key_encrypted, key_encryption_key } => key_encryption_key
                == svc.key_encryption_key && (active matches Some(Ok(Some(key)))
                && private_key_encrypted == key.private_key_encrypted),
            SignerStep::Done(Ok(k)) => (active matches Some(Ok(Some(key))) && k.kid == key.kid
                && k.algorithm == key.algorithm) && (decrypted matches Some(Ok(bytes))
                && vstd::utf8::encode_utf8(k.private_pem@) == bytes@) && named == KidStep::Done(
                Ok(Some(k.kid)),
            ),
            SignerStep::Done(Err(_)) => (active matches Some(found) && !(found matches Ok(Some(_))))
                || (decrypted matches Some(Err(_))) || (decrypted matches Some(Ok(bytes))
                && !vstd::utf8::valid_utf8(bytes@)),
        },
        named == KidStep::Done(Ok(None)) ==> (active matches Some(Ok(None))),
        (named matches KidStep::Done(Err(_))) ==> (active matches Some(Err(_))),
{
}

/// A key that was made is stored as it is, and reported as it was stored.
pub proof fn a_made_key_is_stored(made: Result<SigningKey, String>, stored: Reply<()>, r: StoreStep)
    requires
        KeyService::store_rule(made, stored, r),
    ensures
        r matches StoreStep::Insert(key) ==> made == Ok::<SigningKey, String>(key),
        r matches StoreStep::Done(Ok(key)) ==> made == Ok::<SigningKey, String>(key) && (
        stored matches Some(Ok(_))),
        r matches StoreStep::Done(Err(_)) ==> made is Err || (stored matches Some(Err(_))),
{
}

/// A key by hand has the algorithm that was asked for, is encrypted under the service's key, and is
/// reported as it was made; its lead is never longer than was asked for, and never negative.
pub proof fn a_key_by_hand_is_made_as_asked(
    svc: KeyService,
    algorithm: SigningAlgorithm,
    publish_lead: Span,
    now: Timestamp,
    keys: Reply<Vec<SigningKey>>,
    generated: Reply<SigningKey>,
    r: GenerateStep,
)
    requires
        svc.generate_key_rule(algorithm, publish_lead, now, keys, generated, r),
    ensures
        r matches GenerateStep::Generate(order) ==> order.algorithm == algorithm
            && order.key_encryption_key == svc.key_encryption_key && 0 <= order.publish_lead.nanos && (
        publish_lead.nanos > 0 ==> order.publish_lead.nanos <= publish_lead.nanos) && (
        publish_lead.nanos <= 0 ==> order.publish_lead.nanos == 0),
        r matches GenerateStep::Done(Ok(key)) ==> generated == Some(Ok::<SigningKey, String>(key)),
        (r matches GenerateStep::Done(Err(_))) ==> (keys matches Some(Err(_))) || (
        generated matches Some(Err(_))),
        r is ListKeys ==> keys is None && publish_lead.nanos > 0,
{
}

proof fn lemma_position(keys: Seq<SigningKey>, kid: Seq<char>, n: nat)
    requires
        n <= keys.len(),
    ensures
        match KeyService::position(keys, kid, n) {
            Some(i) => 0 <= i < n && keys[i].kid@ == kid,
            None => forall|i: int| 0 <= i < n ==> (#[trigger] keys[i]).kid@ != kid,
        },
    decreases n,
{
    if n > 0 {
        lemma_position(keys, kid, (n - 1) as nat);
    }
}

/// A key is retired by hand only under the name that was given, only where there is one of that name
/// that is not retired yet, and it is retired, nothing else, that becomes of it.
pub proof fn the_named_key_is_retired(
    kid: String,
    now: Timestamp,
    keys: Reply<Vec<SigningKey>>,
    updated: Option<Result<(), DomainError>>,
    r: KeyStep,
)
    requires
        KeyService::retire_key_rule(kid, now, keys, updated, r),
    ensures
        match r {
            KeyStep::ListKeys => keys is None,
            KeyStep::UpdateStatus { kid: named, status } => named == kid && status
                == SigningKeyStatus::Retired && (keys matches Some(Ok(ks)) && (exists|i: int|
                0 <= i < ks@.len() && (#[trigger] ks@[i]).kid@ == kid@ && ks@[i].status
                    != SigningKeyStatus::Retired) && (exists|j: int|
                0 <= j < ks@.len() && (#[trigger] ks@[j]).signs_at(now) && ks@[j].kid@ != kid@)),
            KeyStep::Done(Ok(_)) => updated matches Some(Ok(_)),
            KeyStep::Done(Err(KeyManagementError::NotFound(named))) => named == kid && ((
            keys matches Some(Ok(ks)) && forall|i: int|
                0 <= i < ks@.len() ==> (#[trigger] ks@[i]).kid@ != kid@) || (
            updated matches Some(Err(DomainError::NotFound(_))))),
            KeyStep::Done(Err(KeyManagementError::Validation(_))) => keys matches Some(Ok(ks)) && ((
            exists|i: int|
                0 <= i < ks@.len() && (#[trigger] ks@[i]).kid@ == kid@ && ks@[i].status
                    == SigningKeyStatus::Retired) || (forall|j: int|
                0 <= j < ks@.len() && (#[trigger] ks@[j]).signs_at(now) ==> ks@[j].kid@ == kid@)),
            KeyStep::Done(Err(KeyManagementError::Internal(_))) => (keys matches Some(Err(_))) || (
            updated matches Some(Err(_))),
            _ => false,
        },
{
    if let Some(Ok(ks)) = keys {
        lemma_position(ks@, kid@, ks@.len());
    }
}

/// The key that is deleted is the one that was named and looked up, and never an active one.
pub proof fn the_named_key_is_deleted(
    kid: String,
    found: Reply<Option<SigningKey>>,
    deleted: Reply<()>,
    r: KeyStep,
)
    requires
        KeyService::delete_key_rule(kid, found, deleted, r),
    ensures
        match r {
            KeyStep::FindKey { kid: asked } => asked == kid && found is None,
            KeyStep::Delete { kid: gone } => gone == kid && (found matches Some(Ok(Some(key)))
                && key.status != SigningKeyStatus::Active),
            KeyStep::Done(Ok(_)) => deleted matches Some(Ok(_)),
            KeyStep::Done(Err(KeyManagementError::NotFound(asked))) => asked == kid && (
            found matches Some(Ok(None))),
            KeyStep::Done(Err(KeyManagementError::Validation(_))) => found matches Some(
                Ok(Some(key)),
            ) && key.status == SigningKeyStatus::Active,
            KeyStep::Done(Err(KeyManagementError::Internal(e))) => found == Some(
                Err::<Option<SigningKey>, String>(e),
            ) || deleted == Some(Err::<(), String>(e)),
            _ => false,
        },
{
}

/// Every published key goes out as itself: the key that is converted next is the one whose turn it is,
/// with its own name, algorithm and public half; and what is published is all of them, in their order.
pub proof fn published_keys_are_their_own(
    published: Reply<Vec<SigningKey>>,
    converted: Seq<Result<String, String>>,
    r: JwksStep,
)
    requires
        jwks_rule(published, converted, r),
    ensures
        r matches JwksStep::Convert(source) ==> (published matches Some(Ok(keys)) && converted.len()
            < keys@.len() && ({
            let key = keys@[converted.len() as int];
            source.kid == key.kid && source.algorithm == key.algorithm && source.public_key
                == key.public_key
        })),
        r matches JwksStep::Done(Ok(out)) ==> (published matches Some(Ok(keys)) && out@.len()
            == keys@.len() && forall|j: int|
            0 <= j < keys@.len() ==> #[trigger] converted[j] == Ok::<String, String>(out@[j])),
        (r matches JwksStep::Done(Err(_))) ==> (published matches Some(Err(_))) || exists|i: int|
            0 <= i < converted.len() && (#[trigger] converted[i]) is Err,
{
    if let Some(Ok(keys)) = published {
        if let JwksStep::Done(Err(e)) = r {
            let i = choose|i: int| #[trigger]
                fails_first(converted, i) && i < keys@.len() && converted[i] == Err::<
                    String,
                    String,
                >(e);
            assert(converted[i] is Err);
        }
    }
}

/// A successor has the algorithm of the key that it takes over from, and where nothing signs the new
/// key signs at once; either is encrypted under the key at hand.
pub proof fn a_successor_keeps_the_algorithm(
    key_encryption_key: [u8; 32],
    now: Timestamp,
    lead_days: u32,
    publish_lead_hours: u32,
    p: RotationProgress,
    order: KeyOrder,
)
    requires
        rotate_rule(
            key_encryption_key,
            now,
            lead_days,
            publish_lead_hours,
            p,
            RotationStep::Generate(order),
        ),
    ensures
        order.key_encryption_key == key_encryption_key,
        p.keys matches Some(Ok(keys)) && (some_key_signs(keys@, now) ==> exists|i: int|
            0 <= i < keys@.len() && (#[trigger] keys@[i]).signs_at(now) && keys@[i].algorithm@
                == order.algorithm.name_of()) && (!some_key_signs(keys@, now)
            ==> order.publish_lead.nanos == 0),
{
    if let Some(Ok(keys)) = p.keys {
        if some_key_signs(keys@, now) {
            let i = choose|i: int| #[trigger]
                is_signer(keys@, now, i) && handover_rule(
                    key_encryption_key,
                    keys@,
                    keys@[i],
                    now,
                    lead_days,
                    publish_lead_hours,
                    p,
                    RotationStep::Generate(order),
                );
            let s = choose|s: Option<RotationStep>| #[trigger]
                retire_rule(overtaken_kids(keys@, keys@[i], now), p.retired@, 0, s) && match s {
                    Some(step) => RotationStep::Generate(order) == step,
                    None => match successor_due(
                        keys@,
                        keys@[i],
                        now,
                        lead_days,
                        publish_lead_hours,
                    ) {
                        None => false,
                        Some(lead) => match SigningAlgorithm::named(keys@[i].algorithm@) {
                            None => false,
                            Some(algorithm) => RotationStep::Generate(order) == generate(
                                KeyOrder { algorithm, publish_lead: lead, key_encryption_key },
                                p.generated,
                            ),
                        },
                    },
                };
            lemma_retire_orders_nothing(
                overtaken_kids(keys@, keys@[i], now),
                p.retired@,
                0,
                s,
            );
            assert(keys@[i].signs_at(now));
        }
    }
}

/// Where nothing can sign, the new key has the algorithm of the first key in the list as far as that is
/// known, and RS256 otherwise, whether it is made at the start or in a rotation.
pub proof fn the_algorithm_is_inherited(
    svc: KeyService,
    now: Timestamp,
    first: BootstrapProgress,
    at_the_start: KeyOrder,
    lead_days: u32,
    publish_lead_hours: u32,
    p: RotationProgress,
    in_a_rotation: KeyOrder,
    keys: Vec<SigningKey>,
    algorithm: SigningAlgorithm,
)
    requires
        svc.bootstrap_rule(now, first, BootstrapStep::MakeKey(at_the_start)),
        rotate_rule(
            svc.key_encryption_key,
            now,
            lead_days,
            publish_lead_hours,
            p,
            RotationStep::Generate(in_a_rotation),
        ),
        first.keys == Some(Ok::<Vec<SigningKey>, String>(keys)),
        p.keys == first.keys,
    ensures
        at_the_start.algorithm == in_a_rotation.algorithm,
        keys@.len() == 0 ==> at_the_start.algorithm == SigningAlgorithm::Rs256,
        keys@.len() > 0 && keys@[0].algorithm@ == algorithm.name_of() ==> at_the_start.algorithm
            == algorithm,
        keys@.len() > 0 && keys@[0].algorithm@ != "RS256"@ && keys@[0].algorithm@ != "ES256"@
            ==> at_the_start.algorithm == SigningAlgorithm::Rs256,
{
    an_algorithm_is_found_by_its_name(algorithm, algorithm);
}

/// A successor is ordered for the lead that was asked for, in hours, cut to what the key that signs has
/// left, and only once that is no more than the days that were asked for, with none waiting.
pub proof fn a_successor_is_ordered_in_its_time(
    key_encryption_key: [u8; 32],
    now: Timestamp,
    lead_days: u32,
    publish_lead_hours: u32,
    p: RotationProgress,
    order: KeyOrder,
    keys: Vec<SigningKey>,
)
    requires
        rotate_rule(
            key_encryption_key,
            now,
            lead_days,
            publish_lead_hours,
            p,
            RotationStep::Generate(order),
        ),
        p.keys == Some(Ok::<Vec<SigningKey>, String>(keys)),
        some_key_signs(keys@, now),
        now.wf(),
        keys_fit(p.keys),
    ensures
        exists|i: int|
            0 <= i < keys@.len() && (#[trigger] keys@[i]).signs_at(now) && keys@[i].not_after.nanos
                - now.nanos <= lead_days * 86_400_000_000_000 && order.publish_lead.nanos
                <= keys@[i].not_after.nanos - now.nanos && order.publish_lead.nanos <= publish_lead_hours
                * 3_600_000_000_000 && (
            order.publish_lead.nanos == publish_lead_hours * 3_600_000_000_000
                || order.publish_lead.nanos == keys@[i].not_after.nanos - now.nanos),
        forall|j: int| 0 <= j < keys@.len() ==> !(#[trigger] keys@[j]).pending_at(now),
{
    let i = choose|i: int| #[trigger]
        is_signer(keys@, now, i) && handover_rule(
            key_encryption_key,
            keys@,
            keys@[i],
            now,
            lead_days,
            publish_lead_hours,
            p,
            RotationStep::Generate(order),
        );
    let kids = overtaken_kids(keys@, keys@[i], now);
    assert forall|s: Option<RotationStep>| #[trigger]
        retire_rule(kids, p.retired@, 0, s) implies !(s matches Some(RotationStep::Generate(_))) by {
        lemma_retire_orders_nothing(kids, p.retired@, 0, s);
    }
    assert(keys@[i].signs_at(now));
    assert(hours(publish_lead_hours as int).nanos == publish_lead_hours * 3_600_000_000_000);
    assert(days(lead_days as int).nanos == lead_days * 86_400_000_000_000);
}

/// What is listed of the keys is what the store has, all of it.
pub proof fn every_key_is_listed(svc: KeyService, listed: Reply<Vec<SigningKey>>, r: KeysStep)
    requires
        call_ensures(KeyService::list_keys, (&svc, listed), r),
    ensures
        r matches KeysStep::Done(Ok(keys)) ==> listed == Some(Ok::<Vec<SigningKey>, String>(keys)),
        r matches KeysStep::Done(Err(e)) ==> (listed matches Some(Err(m)) && e
            == KeyManagementError::Internal(m)),
        r is ListKeys ==> listed is None,
{
}

/// The lead of a key by hand is no longer than was asked for, and is cut only to the end of a key that
/// signs; where nothing signs there is none.
pub proof fn a_lead_is_cut_to_the_signers_end(
    svc: KeyService,
    publish_lead: Span,
    now: Timestamp,
    keys: Vec<SigningKey>,
    lead: Span,
)
    requires
        call_ensures(
            KeyService::capped_publish_lead,
            (&svc, publish_lead, now, &Some(Ok::<Vec<SigningKey>, String>(keys))),
            Ok(lead),
        ),
    ensures
        0 <= lead.nanos,
        publish_lead.nanos > 0 ==> lead.nanos <= publish_lead.nanos,
        publish_lead.nanos <= 0 ==> lead.nanos == 0,
        lead.nanos != publish_lead.nanos && lead.nanos != 0 ==> exists|i: int|
            0 <= i < keys@.len() && (#[trigger] keys@[i]).signs_at(now) && keys@[i].not_after.nanos
                == now.nanos + lead.nanos,
        !some_key_signs(keys@, now) ==> lead.nanos == 0,
{
    if publish_lead.nanos > 0 && some_key_signs(keys@, now) {
        let i = choose|i: int| #[trigger]
            is_signer(keys@, now, i) && lead.nanos == if publish_lead.nanos
                <= keys@[i].not_after.nanos - now.nanos {
                publish_lead.nanos as int
            } else {
                keys@[i].not_after.nanos - now.nanos
            };
        assert(keys@[i].signs_at(now));
    }
}

proof fn lemma_overtaken_is_named(keys: Seq<SigningKey>, signer: SigningKey, now: Timestamp, j: int)
    requires
        0 <= j < keys.len(),
        keys[j].status == SigningKeyStatus::Active,
        keys[j].not_before.nanos <= now.nanos,
        keys[j].kid@ != signer.kid@,
    ensures
        overtaken_kids(keys, signer, now).contains(keys[j].kid),
    decreases keys.len(),
{
    let before = keys.drop_last();
    let rest = overtaken_kids(before, signer, now);
    let all = overtaken_kids(keys, signer, now);
    if j < before.len() {
        assert(before[j] == keys[j]);
        lemma_overtaken_is_named(before, signer, now, j);
        let k = choose|k: int| 0 <= k < rest.len() && rest[k] == keys[j].kid;
        assert(all[k] == keys[j].kid);
    } else {
        assert(all[rest.len() as int] == keys[j].kid);
    }
}

/// A rotation that has retired nothing ends, or orders a key, only where nothing was overtaken: beside
/// the key that signs no active key has begun.
pub proof fn every_overtaken_key_is_retired(
    key_encryption_key: [u8; 32],
    now: Timestamp,
    lead_days: u32,
    publish_lead_hours: u32,
    p: RotationProgress,
    r: RotationStep,
    keys: Vec<SigningKey>,
)
    requires
        rotate_rule(key_encryption_key, now, lead_days, publish_lead_hours, p, r),
        p.keys == Some(Ok::<Vec<SigningKey>, String>(keys)),
        some_key_signs(keys@, now),
        p.retired@.len() == 0,
        r is Generate || r is Done,
    ensures
        exists|i: int|
            0 <= i < keys@.len() && (#[trigger] keys@[i]).signs_at(now) && forall|j: int|
                0 <= j < keys@.len() && (#[trigger] keys@[j]).status == SigningKeyStatus::Active
                    && keys@[j].not_before.nanos <= now.nanos ==> keys@[j].kid@ == keys@[i].kid@,
{
    let i = choose|i: int| #[trigger]
        is_signer(keys@, now, i) && handover_rule(
            key_encryption_key,
            keys@,
            keys@[i],
            now,
            lead_days,
            publish_lead_hours,
            p,
            r,
        );
    let kids = overtaken_kids(keys@, keys@[i], now);
    assert(keys@[i].signs_at(now));
    assert forall|j: int|
        0 <= j < keys@.len() && (#[trigger] keys@[j]).status == SigningKeyStatus::Active
            && keys@[j].not_before.nanos <= now.nanos implies keys@[j].kid@ == keys@[i].kid@ by {
        if keys@[j].kid@ != keys@[i].kid@ {
            lemma_overtaken_is_named(keys@, keys@[i], now, j);
            assert(kids.len() > 0);
        }
    }
}

/// The words of an error end with what it is about.
pub proof fn an_error_says_what_it_is_about(m: String, k: MessageKey)
    ensures
        m@.is_suffix_of(KeyManagementError::NotFound(m).text_of()),
        k.key@.is_suffix_of(KeyManagementError::Validation(k).text_of()),
        m@.is_suffix_of(KeyManagementError::Internal(m).text_of()),
{
    lemma_suffix("not found: "@, m@);
    lemma_suffix("validation error: "@, k.key@);
    lemma_suffix("internal error: "@, m@);
}

} // verus!
