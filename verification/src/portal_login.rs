//! Signing in to the account pages, outside of any authorization request.
//!
//! A user with a second factor gets a signed ticket in place of a sign-on, and trades it in
//! together with a code.
use crate::audit::{AuditEventType, AuditReason, AuditRecord, AuditResult};
use crate::crypto::{
    hex_bytes, hex_decode, hex_encode, hex_reads_back, hex_text, hex_value, hmac_sha256,
    hmac_sha256_of, hmac_sha256_verify, sha256_hex, sha256_hex_of, uuid_nibble, uuid_of_text,
    uuid_parse, uuid_text, uuid_text_has_no_dot, uuid_text_of, hex_char,
};
use crate::mfa_login::{has_confirmed, is_confirmed_secret};
use crate::model::{
    Reply, RequestContext, SsoGrant, TenantContext, TenantId, TotpSecret, User, UserStatus, Uuid,
};
use crate::password_strength::{strong_enough, validate_password_strength};
use crate::text::{
    find_char, first_at, first_at_is_first, i64_text, int_text, int_text_reads_back, int_within,
    parse_i64, part, same,
};
use crate::time::{Span, Timestamp};
use vstd::prelude::*;

verus! {

/// After how many failures in a row an account is locked.
pub const MAX_FAILED_LOGINS: i32 = 10;

/// For how many minutes an account is locked.
pub const LOCK_DURATION_MINUTES: i64 = 15;

/// For how many seconds a ticket can be traded in.
pub const MFA_TICKET_TTL_SECS: i64 = 300;

pub struct PortalLoginCommand {
    pub username: String,
    pub password: String,
}

pub struct PortalMfaCommand {
    pub mfa_ticket: String,
    pub totp_code: String,
}

pub struct PortalChangePasswordCommand {
    pub username: String,
    pub current_password: String,
    pub new_password: String,
}

pub enum PortalLoginOutcome {
    Success { sso_session_id: String, user_language: Option<String> },
    /// The password is right; a code is outstanding.
    MfaRequired { mfa_ticket: String },
    EmailVerificationRequired,
    PasswordChangeRequired { username: String },
    RateLimited,
    /// Unknown user, wrong password or inactive account alike.
    InvalidCredentials,
    Locked,
    Internal(String),
}

pub enum PortalChangePasswordOutcome {
    Success { sso_session_id: String, user_language: Option<String> },
    /// The password was changed; a code is outstanding.
    MfaRequired { mfa_ticket: String },
    EmailVerificationRequired,
    RateLimited,
    InvalidCredentials,
    Locked,
    WeakPassword,
    Internal(String),
}

pub enum PortalMfaOutcome {
    Success { sso_session_id: String, user_language: Option<String> },
    InvalidCode,
    TicketExpired,
    RateLimited,
    Internal(String),
}

/// What was drawn for one request.
pub struct PortalDraw {
    pub now: Timestamp,
    pub sso_session_id: String,
}

/// What is known of a request so far.
#[derive(Default)]
pub struct PortalProgress {
    pub rate_allowed: Option<bool>,
    pub user: Reply<Option<User>>,
    pub password: Reply<bool>,
    /// The time at which a wrong password was found.
    pub failure_clock: Option<Timestamp>,
    pub failure_saved: Reply<()>,
    pub failures_reset: Reply<()>,
    pub new_hash: Reply<String>,
    pub password_updated: Reply<()>,
    pub totp: Reply<Option<TotpSecret>>,
    pub totp_matches: Reply<bool>,
    pub sso_created: Reply<()>,
    /// How many audit entries were written.
    pub audits: usize,
}

/// A call to make.
pub enum PortalCall {
    CheckRate { ip_address: String, now: Timestamp },
    FindUser { tenant_id: TenantId, username: String },
    FindUserById { user_id: Uuid },
    VerifyPassword { password: String, password_hash: String },
    ReadClock,
    UpdateLoginState {
        user_id: Uuid,
        failed_login_count: i32,
        locked_until: Option<Timestamp>,
    },
    HashPassword { password: String },
    UpdatePassword { user_id: Uuid, password_hash: String },
    FindTotp { user_id: Uuid },
    /// Decrypts the secret and compares the code with those of the moment.
    VerifyTotp { secret_encrypted: String, key_encryption_key: [u8; 32], code: String },
    CreateSso(SsoGrant),
    Audit(AuditRecord),
}

/// What comes next: a call to make, or the outcome.
pub enum PortalStep<O> {
    Call(PortalCall),
    Done(O),
}

/// What comes next after a wrong password.
pub enum FailureStep {
    Call(PortalCall),
    Failed(String),
    Counted,
    Locked,
}

/// What comes next in creating a sign-on.
pub enum SsoStep {
    Call(PortalCall),
    Failed(String),
    Issued,
}

pub struct PortalLoginService {
    /// The key under which the secrets of time-based codes are stored.
    pub key_encryption_key: [u8; 32],
    /// The key that tickets are signed with.
    pub ticket_secret: [u8; 32],
    pub sso_idle_ttl: Span,
    pub sso_absolute_ttl: Span,
}

// ---------------------------------------------------------------------------
// Tickets

/// What a ticket's signature is computed over.
pub open spec fn ticket_message(tenant: Seq<char>, user: Seq<char>, exp: int) -> Seq<char> {
    "portal-mfa:"@ + tenant + ":"@ + user + ":"@ + int_text(exp)
}

/// A ticket's signature.
pub open spec fn ticket_tag(
    secret: Seq<u8>,
    tenant: Seq<char>,
    user: Seq<char>,
    exp: int,
) -> Seq<u8> {
    hmac_sha256_of(secret, vstd::utf8::encode_utf8(ticket_message(tenant, user, exp)))
}

/// A ticket: tenant, user, expiry and signature with dots between them.
pub open spec fn ticket_text(secret: Seq<u8>, tenant: Uuid, user: Uuid, exp: int) -> Seq<char> {
    let t = uuid_text_of(tenant.value);
    let u = uuid_text_of(user.value);
    t + (seq!['.'] + (u + (seq!['.'] + (int_text(exp) + (seq!['.'] + hex_text(
        ticket_tag(secret, t, u, exp),
    ))))))
}

/// What stands before the first dot, and what behind it.
pub open spec fn cut(s: Seq<char>) -> Option<(Seq<char>, Seq<char>)> {
    match first_at(s, '.', 0) {
        Some(i) => Some((s.subrange(0, i), s.subrange(i + 1, s.len() as int))),
        None => None,
    }
}

/// Whom a ticket admits: its tenant must be the one at hand, its expiry must not have passed, and
/// its signature must be the one for its tenant, user and expiry.
pub open spec fn ticket_admits(
    secret: Seq<u8>,
    tenant: Uuid,
    ticket: Seq<char>,
    now: int,
) -> Option<u128> {
    match cut(ticket) {
        None => None,
        Some((t, rest)) => match cut(rest) {
            None => None,
            Some((u, rest)) => match cut(rest) {
                None => None,
                Some((e, sig)) => if t != uuid_text_of(tenant.value) {
                    None
                } else {
                    match int_within(e, i64::MIN as int, i64::MAX as int) {
                        None => None,
                        Some(exp) => if now > exp {
                            None
                        } else if hex_bytes(sig) == Some(ticket_tag(secret, t, u, exp)) {
                            uuid_of_text(u)
                        } else {
                            None
                        },
                    }
                },
            },
        },
    }
}

proof fn lemma_cut(head: Seq<char>, tail: Seq<char>)
    requires
        forall|i: int| 0 <= i < head.len() ==> head[i] != '.',
    ensures
        cut(head + (seq!['.'] + tail)) == Some((head, tail)),
{
    let s = head + (seq!['.'] + tail);
    first_at_is_first(s, '.', 0);
    assert(s[head.len() as int] == '.');
    assert forall|i: int| 0 <= i < head.len() implies s[i] != '.' by {
        assert(s[i] == head[i]);
    }
    let i = first_at(s, '.', 0)->0;
    assert(i == head.len());
    assert(s.subrange(0, i) =~= head);
    assert(s.subrange(i + 1, s.len() as int) =~= tail);
}

/// A ticket that was signed comes apart into what it was made of.
proof fn lemma_ticket_parts(secret: Seq<u8>, tenant: Uuid, user: Uuid, exp: int)
    ensures
        ({
            let t = uuid_text_of(tenant.value);
            let u = uuid_text_of(user.value);
            let sig = hex_text(ticket_tag(secret, t, u, exp));
            let e = int_text(exp);
            &&& cut(ticket_text(secret, tenant, user, exp)) == Some(
                (t, u + (seq!['.'] + (e + (seq!['.'] + sig)))),
            )
            &&& cut(u + (seq!['.'] + (e + (seq!['.'] + sig)))) == Some((u, e + (seq!['.'] + sig)))
            &&& cut(e + (seq!['.'] + sig)) == Some((e, sig))
        }),
{
    let t = uuid_text_of(tenant.value);
    let u = uuid_text_of(user.value);
    let sig = hex_text(ticket_tag(secret, t, u, exp));
    let e = int_text(exp);
    uuid_text_has_no_dot(tenant.value);
    uuid_text_has_no_dot(user.value);
    int_text_reads_back(exp);
    lemma_cut(e, sig);
    lemma_cut(u, e + (seq!['.'] + sig));
    lemma_cut(t, u + (seq!['.'] + (e + (seq!['.'] + sig))));
}

/// A signed ticket admits no one once its expiry has passed.
pub proof fn an_expired_ticket_admits_no_one(
    secret: Seq<u8>,
    checked_with: Seq<u8>,
    tenant: Uuid,
    user: Uuid,
    exp: i64,
    now: int,
)
    requires
        now > exp,
    ensures
        ticket_admits(checked_with, tenant, ticket_text(secret, tenant, user, exp as int), now) is None,
{
    lemma_ticket_parts(secret, tenant, user, exp as int);
    int_text_reads_back(exp as int);
}

proof fn lemma_hex_char_injective(a: int, b: int)
    requires
        0 <= a < 16,
        0 <= b < 16,
        hex_char(a) == hex_char(b),
    ensures
        a == b,
{
    assert(hex_value(hex_char(a)) == Some(a));
    assert(hex_value(hex_char(b)) == Some(b));
}

proof fn lemma_high_digits(a: u128, b: u128, k: nat)
    requires
        k <= 32,
        forall|i: int| 0 <= i < 32 ==> #[trigger] uuid_nibble(a, i) == uuid_nibble(b, i),
    ensures
        a as int / vstd::arithmetic::power::pow(16, k) == b as int
            / vstd::arithmetic::power::pow(16, k),
    decreases 32 - k,
{
    let x = a as int;
    let y = b as int;
    let w = vstd::arithmetic::power::pow(16, k);
    vstd::arithmetic::power::lemma_pow_positive(16, k);
    if k == 32 {
        assert(w == 0x1_0000_0000_0000_0000_0000_0000_0000_0000) by {
            vstd::arithmetic::power2::lemma2_to64();
            vstd::arithmetic::power2::lemma2_to64_rest();
            vstd::arithmetic::power2::lemma_pow2(4);
            vstd::arithmetic::power2::lemma_pow2(64);
            vstd::arithmetic::power::lemma_pow_multiplies(2, 4, 32);
            vstd::arithmetic::power::lemma_pow_adds(2, 64, 64);
        }
        assert(x < 0x1_0000_0000_0000_0000_0000_0000_0000_0000);
        assert(y < 0x1_0000_0000_0000_0000_0000_0000_0000_0000);
        vstd::arithmetic::div_mod::lemma_basic_div(x, w);
        vstd::arithmetic::div_mod::lemma_basic_div(y, w);
    } else {
        lemma_high_digits(a, b, k + 1);
        assert(vstd::arithmetic::power::pow(16, k + 1) == 16 * w) by {
            vstd::arithmetic::power::lemma_pow_adds(16, 1, k);
            vstd::arithmetic::power::lemma_pow1(16);
        }
        vstd::arithmetic::div_mod::lemma_div_denominator(x, w, 16);
        vstd::arithmetic::div_mod::lemma_div_denominator(y, w, 16);
        assert(w * 16 == 16 * w) by (nonlinear_arith);
        assert(uuid_nibble(a, 31 - k) == uuid_nibble(b, 31 - k));
        vstd::arithmetic::div_mod::lemma_fundamental_div_mod(x / w, 16);
        vstd::arithmetic::div_mod::lemma_fundamental_div_mod(y / w, 16);
    }
}

/// Two UUIDs that are written alike are the same.
pub proof fn uuid_text_tells_apart(a: u128, b: u128)
    requires
        uuid_text_of(a) == uuid_text_of(b),
    ensures
        a == b,
{
    assert forall|i: int| 0 <= i < 32 implies #[trigger] uuid_nibble(a, i) == uuid_nibble(b, i) by {
        let k: int = if i < 8 { i } else if i < 12 { i + 1 } else if i < 16 { i + 2 } else if i < 20 {
            i + 3
        } else {
            i + 4
        };
        assert(uuid_text_of(a)[k] == hex_char(uuid_nibble(a, i)));
        assert(uuid_text_of(b)[k] == hex_char(uuid_nibble(b, i)));
        lemma_hex_char_injective(uuid_nibble(a, i), uuid_nibble(b, i));
    }
    lemma_high_digits(a, b, 0);
    vstd::arithmetic::power::lemma_pow0(16);
}

/// A signed ticket admits no one to another tenant.
pub proof fn a_ticket_serves_its_tenant_alone(
    secret: Seq<u8>,
    checked_with: Seq<u8>,
    tenant: Uuid,
    other: Uuid,
    user: Uuid,
    exp: i64,
    now: int,
)
    requires
        tenant != other,
    ensures
        ticket_admits(checked_with, other, ticket_text(secret, tenant, user, exp as int), now) is None,
{
    lemma_ticket_parts(secret, tenant, user, exp as int);
    if uuid_text_of(tenant.value) == uuid_text_of(other.value) {
        uuid_text_tells_apart(tenant.value, other.value);
    }
}

/// A signed ticket admits no one under a key whose code for its contents is another.
pub proof fn a_ticket_needs_its_key(
    secret: Seq<u8>,
    checked_with: Seq<u8>,
    tenant: Uuid,
    user: Uuid,
    exp: i64,
    now: int,
)
    requires
        ticket_tag(secret, uuid_text_of(tenant.value), uuid_text_of(user.value), exp as int)
            != ticket_tag(
            checked_with,
            uuid_text_of(tenant.value),
            uuid_text_of(user.value),
            exp as int,
        ),
    ensures
        ticket_admits(checked_with, tenant, ticket_text(secret, tenant, user, exp as int), now) is None,
{
    lemma_ticket_parts(secret, tenant, user, exp as int);
    int_text_reads_back(exp as int);
    hex_reads_back(
        ticket_tag(secret, uuid_text_of(tenant.value), uuid_text_of(user.value), exp as int),
    );
}

/// Whoever a ticket admits is the user that it names, under the signature of exactly what it says.
pub proof fn a_ticket_needs_its_signature(secret: Seq<u8>, tenant: Uuid, ticket: Seq<char>, now: int)
    requires
        ticket_admits(secret, tenant, ticket, now) is Some,
    ensures
        exists|u: Seq<char>, exp: int, sig: Seq<char>| #[trigger]
            hex_bytes(sig) == Some(
                #[trigger] ticket_tag(secret, uuid_text_of(tenant.value), u, exp),
            ) && now <= exp && ticket_admits(secret, tenant, ticket, now) == uuid_of_text(u),
{
    let (t, rest) = cut(ticket)->0;
    let (u, rest2) = cut(rest)->0;
    let (e, sig) = cut(rest2)->0;
    let exp = int_within(e, i64::MIN as int, i64::MAX as int)->0;
    assert(hex_bytes(sig) == Some(ticket_tag(secret, t, u, exp)));
}

fn ticket_message_text(tenant: &str, user: &str, exp: i64) -> (r: String)
    ensures
        r@ == ticket_message(tenant@, user@, exp as int),
{
    let mut out: String = "portal-mfa:".to_owned();
    out.append(tenant);
    out.append(":");
    out.append(user);
    out.append(":");
    let digits: String = i64_text(exp);
    out.append(digits.as_str());
    out
}

/// Computes a ticket's signature, in hexadecimal.
pub fn ticket_signature(secret: &[u8; 32], tenant: &str, user: &str, exp: i64) -> (r: String)
    ensures
        r@ == hex_text(ticket_tag(secret@, tenant@, user@, exp as int)),
{
    let message: String = ticket_message_text(tenant, user, exp);
    let tag: Vec<u8> = hmac_sha256(secret.as_slice(), message.as_str().as_bytes());
    hex_encode(tag.as_slice())
}

/// Signs a ticket; it admits its user to its tenant as long as its expiry has not passed.
pub fn sign_ticket(secret: &[u8; 32], tenant: Uuid, user: Uuid, exp: i64) -> (r: String)
    ensures
        r@ == ticket_text(secret@, tenant, user, exp as int),
        forall|now: int|
            now <= exp ==> #[trigger] ticket_admits(secret@, tenant, r@, now) == Some(user.value),
{
    let t: String = uuid_text(tenant.value);
    let u: String = uuid_text(user.value);
    let sig: String = ticket_signature(secret, t.as_str(), u.as_str(), exp);
    let e: String = i64_text(exp);
    let mut out: String = t.clone();
    out.append(".");
    out.append(u.as_str());
    out.append(".");
    out.append(e.as_str());
    out.append(".");
    out.append(sig.as_str());
    proof {
        reveal_strlit(".");
        assert("."@ =~= seq!['.']);
        assert(out@ =~= ticket_text(secret@, tenant, user, exp as int));
        lemma_ticket_parts(secret@, tenant, user, exp as int);
        int_text_reads_back(exp as int);
        hex_reads_back(ticket_tag(secret@, t@, u@, exp as int));
    }
    out
}

fn cut_at_dot(s: &str) -> (r: Option<(String, String)>)
    ensures
        match r {
            Some((a, b)) => cut(s@) == Some((a@, b@)),
            None => cut(s@) is None,
        },
{
    match find_char(s, '.', 0) {
        None => None,
        Some(i) => {
            let n: usize = s.unicode_len();
            Some((part(s, 0, i), part(s, i + 1, n)))
        },
    }
}

/// Whom a ticket admits at the time `now_ts`.
pub fn verify_ticket(secret: &[u8; 32], tenant: Uuid, ticket: &str, now_ts: i64) -> (r: Option<Uuid>)
    ensures
        match r {
            Some(user) => ticket_admits(secret@, tenant, ticket@, now_ts as int) == Some(user.value),
            None => ticket_admits(secret@, tenant, ticket@, now_ts as int) is None,
        },
{
    let (tenant_str, rest) = match cut_at_dot(ticket) {
        None => return None,
        Some(pair) => pair,
    };
    let (user_str, rest) = match cut_at_dot(rest.as_str()) {
        None => return None,
        Some(pair) => pair,
    };
    let (exp_str, sig) = match cut_at_dot(rest.as_str()) {
        None => return None,
        Some(pair) => pair,
    };
    let expected: String = uuid_text(tenant.value);
    if !same(tenant_str.as_str(), expected.as_str()) {
        return None;
    }
    let exp: i64 = match parse_i64(exp_str.as_str()) {
        None => return None,
        Some(exp) => exp,
    };
    if now_ts > exp {
        return None;
    }
    let sig_bytes: Vec<u8> = match hex_decode(sig.as_str()) {
        None => return None,
        Some(bytes) => bytes,
    };
    let message: String = ticket_message_text(tenant_str.as_str(), user_str.as_str(), exp);
    if !hmac_sha256_verify(secret.as_slice(), message.as_str().as_bytes(), sig_bytes.as_slice()) {
        return None;
    }
    match uuid_parse(user_str.as_str()) {
        Some(value) => Some(Uuid { value }),
        None => None,
    }
}

// ---------------------------------------------------------------------------
// Shared parts

/// An audit entry of the account pages.
pub open spec fn portal_entry(
    event: AuditEventType,
    result: AuditResult,
    tenant_id: TenantId,
    user_id: Option<Uuid>,
    reason: Option<AuditReason>,
) -> AuditRecord {
    AuditRecord { event, result, tenant_id: Some(tenant_id), user_id, client_id: None, reason }
}

pub open spec fn portal_failure(
    tenant_id: TenantId,
    user_id: Option<Uuid>,
    reason: AuditReason,
) -> AuditRecord {
    portal_entry(
        AuditEventType::LoginFailed,
        AuditResult::Failure,
        tenant_id,
        user_id,
        Some(reason),
    )
}

fn entry(
    event: AuditEventType,
    result: AuditResult,
    tenant_id: TenantId,
    user_id: Option<Uuid>,
    reason: Option<AuditReason>,
) -> (r: AuditRecord)
    ensures
        r == portal_entry(event, result, tenant_id, user_id, reason),
{
    AuditRecord { event, result, tenant_id: Some(tenant_id), user_id, client_id: None, reason }
}

/// The entry is written, then the outcome is given.
pub open spec fn audited<O>(
    audits: usize,
    entry: AuditRecord,
    outcome: O,
) -> PortalStep<O> {
    if audits == 0 {
        PortalStep::Call(PortalCall::Audit(entry))
    } else {
        PortalStep::Done(outcome)
    }
}

fn audit_then<O>(audits: usize, entry: AuditRecord, outcome: O) -> (r: PortalStep<O>)
    ensures
        r == audited(audits, entry, outcome),
{
    if audits == 0 {
        PortalStep::Call(PortalCall::Audit(entry))
    } else {
        PortalStep::Done(outcome)
    }
}

/// Until when one more failure at the time `at` locks an account: not at all below the limit.
pub open spec fn lock_after_failure(user: User, at: Timestamp) -> Option<Timestamp> {
    if user.failed_login_count + 1 >= MAX_FAILED_LOGINS {
        Some(at.later(Span::of_seconds(LOCK_DURATION_MINUTES * 60)))
    } else {
        None
    }
}

/// A failure, where there is one, can be counted, and a lock can be dated.
pub open spec fn failure_fits(p: PortalProgress) -> bool {
    &&& (p.password matches Some(Ok(false)) ==> (p.user matches Some(Ok(Some(u)))
        ==> u.failed_login_count < i32::MAX))
    &&& (p.failure_clock matches Some(at) ==> at.can_add(
        Span::of_seconds(LOCK_DURATION_MINUTES * 60),
    ))
}

/// A wrong password: the failure is counted, with a lock at the limit, and audited; so is the lock.
pub open spec fn password_failure(
    tenant_id: TenantId,
    user: User,
    p: PortalProgress,
) -> FailureStep {
    match p.failure_clock {
        None => FailureStep::Call(PortalCall::ReadClock),
        Some(at) => match p.failure_saved {
            None => FailureStep::Call(
                PortalCall::UpdateLoginState {
                    user_id: user.id,
                    failed_login_count: (user.failed_login_count + 1) as i32,
                    locked_until: lock_after_failure(user, at),
                },
            ),
            Some(Err(e)) => FailureStep::Failed(e),
            Some(Ok(_)) => if p.audits == 0 {
                FailureStep::Call(
                    PortalCall::Audit(
                        portal_failure(tenant_id, Some(user.id), AuditReason::InvalidPassword),
                    ),
                )
            } else if lock_after_failure(user, at) is None {
                FailureStep::Counted
            } else if p.audits == 1 {
                FailureStep::Call(
                    PortalCall::Audit(
                        portal_entry(
                            AuditEventType::LoginLocked,
                            AuditResult::Failure,
                            tenant_id,
                            Some(user.id),
                            Some(AuditReason::TooManyFailures),
                        ),
                    ),
                )
            } else {
                FailureStep::Locked
            },
        },
    }
}

impl PortalLoginService {
    pub fn new(
        key_encryption_key: [u8; 32],
        ticket_secret: [u8; 32],
        sso_idle_ttl: Span,
        sso_absolute_ttl: Span,
    ) -> (r: Self)
        ensures
            r.key_encryption_key == key_encryption_key,
            r.ticket_secret == ticket_secret,
            r.sso_idle_ttl == sso_idle_ttl,
            r.sso_absolute_ttl == sso_absolute_ttl,
    {
        PortalLoginService { key_encryption_key, ticket_secret, sso_idle_ttl, sso_absolute_ttl }
    }

    /// The sign-on is created, then it and the sign-in are audited; `base` entries were written
    /// before.
    pub open spec fn sso_rule(
        self,
        tenant_id: TenantId,
        user: User,
        ctx: RequestContext,
        draw: PortalDraw,
        p: PortalProgress,
        base: int,
        r: SsoStep,
    ) -> bool {
        match p.sso_created {
            None => r matches SsoStep::Call(PortalCall::CreateSso(g)) && g.session_hash@
                == sha256_hex_of(draw.sso_session_id@) && g.user_id == user.id && g.now == draw.now
                && g.idle_ttl == self.sso_idle_ttl && g.absolute_ttl == self.sso_absolute_ttl
                && g.methods@.len() == 0 && g.user_agent == ctx.user_agent && g.ip_address
                == ctx.ip_address,
            Some(Err(e)) => r == SsoStep::Failed(e),
            Some(Ok(_)) => if p.audits <= base {
                r == SsoStep::Call(
                    PortalCall::Audit(
                        portal_entry(
                            AuditEventType::SsoSessionCreated,
                            AuditResult::Success,
                            tenant_id,
                            Some(user.id),
                            None,
                        ),
                    ),
                )
            } else if p.audits == base + 1 {
                r == SsoStep::Call(
                    PortalCall::Audit(
                        portal_entry(
                            AuditEventType::LoginSucceeded,
                            AuditResult::Success,
                            tenant_id,
                            Some(user.id),
                            None,
                        ),
                    ),
                )
            } else {
                r == SsoStep::Issued
            },
        }
    }

    /// Decides what comes next in creating a sign-on.
    pub fn issue_sso(
        &self,
        tenant_id: TenantId,
        user: &User,
        ctx: &RequestContext,
        draw: &PortalDraw,
        p: &PortalProgress,
        base: usize,
    ) -> (r: SsoStep)
        requires
            base <= 1,
        ensures
            self.sso_rule(tenant_id, *user, *ctx, *draw, *p, base as int, r),
    {
        match &p.sso_created {
            None => return SsoStep::Call(
                PortalCall::CreateSso(
                    SsoGrant {
                        session_hash: sha256_hex(draw.sso_session_id.as_str()),
                        user_id: user.id,
                        now: draw.now,
                        idle_ttl: self.sso_idle_ttl,
                        absolute_ttl: self.sso_absolute_ttl,
                        methods: Vec::new(),
                        user_agent: ctx.user_agent.clone(),
                        ip_address: ctx.ip_address.clone(),
                    },
                ),
            ),
            Some(Err(e)) => return SsoStep::Failed(e.clone()),
            Some(Ok(_)) => {},
        }
        if p.audits <= base {
            SsoStep::Call(
                PortalCall::Audit(
                    entry(
                        AuditEventType::SsoSessionCreated,
                        AuditResult::Success,
                        tenant_id,
                        Some(user.id),
                        None,
                    ),
                ),
            )
        } else if p.audits == base + 1 {
            SsoStep::Call(
                PortalCall::Audit(
                    entry(
                        AuditEventType::LoginSucceeded,
                        AuditResult::Success,
                        tenant_id,
                        Some(user.id),
                        None,
                    ),
                ),
            )
        } else {
            SsoStep::Issued
        }
    }

    /// Authentication is complete: the counter is reset where anything is on record, and the sign-on
    /// is created.
    pub open spec fn completion_rule(
        self,
        tenant_id: TenantId,
        user: User,
        ctx: RequestContext,
        draw: PortalDraw,
        p: PortalProgress,
        base: int,
        r: SsoStep,
    ) -> bool {
        if user.has_failures() && p.failures_reset is None {
            r == SsoStep::Call(
                PortalCall::UpdateLoginState {
                    user_id: user.id,
                    failed_login_count: 0,
                    locked_until: None,
                },
            )
        } else if user.has_failures() && p.failures_reset->0 is Err {
            r == SsoStep::Failed(p.failures_reset->0->Err_0)
        } else {
            self.sso_rule(tenant_id, user, ctx, draw, p, base, r)
        }
    }

    fn complete(
        &self,
        tenant_id: TenantId,
        user: &User,
        ctx: &RequestContext,
        draw: &PortalDraw,
        p: &PortalProgress,
        base: usize,
    ) -> (r: SsoStep)
        requires
            base <= 1,
        ensures
            self.completion_rule(tenant_id, *user, *ctx, *draw, *p, base as int, r),
    {
        if user.has_failures_on_record() {
            match &p.failures_reset {
                None => return SsoStep::Call(
                    PortalCall::UpdateLoginState {
                        user_id: user.id,
                        failed_login_count: 0,
                        locked_until: None,
                    },
                ),
                Some(Err(e)) => return SsoStep::Failed(e.clone()),
                Some(Ok(_)) => {},
            }
        }
        self.issue_sso(tenant_id, user, ctx, draw, p, base)
    }

    /// Issues a ticket for a user whose code is outstanding.
    pub fn issue_ticket(&self, tenant_id: TenantId, user_id: Uuid, now: Timestamp) -> (r: String)
        requires
            now.wf(),
        ensures
            r@ == ticket_text(
                self.ticket_secret@,
                Uuid { value: tenant_id.value },
                user_id,
                now.unix_seconds() + MFA_TICKET_TTL_SECS,
            ),
            forall|at: Timestamp|
                at.unix_seconds() <= now.unix_seconds() + MFA_TICKET_TTL_SECS
                    ==> #[trigger] self.admits(tenant_id, r@, at) == Some(user_id.value),
    {
        let exp: i64 = now.timestamp() + MFA_TICKET_TTL_SECS;
        sign_ticket(&self.ticket_secret, Uuid { value: tenant_id.value }, user_id, exp)
    }

    /// Whom a ticket admits to a tenant now.
    pub fn verify_ticket(&self, tenant_id: TenantId, ticket: &str, now: Timestamp) -> (r: Option<
        Uuid,
    >)
        requires
            now.wf(),
        ensures
            match r {
                Some(user) => self.admits(tenant_id, ticket@, now) == Some(user.value),
                None => self.admits(tenant_id, ticket@, now) is None,
            },
    {
        self::verify_ticket(
            &self.ticket_secret,
            Uuid { value: tenant_id.value },
            ticket,
            now.timestamp(),
        )
    }

    /// Whom a ticket admits to a tenant now.
    pub open spec fn admits(self, tenant_id: TenantId, ticket: Seq<char>, now: Timestamp) -> Option<
        u128,
    > {
        ticket_admits(
            self.ticket_secret@,
            Uuid { value: tenant_id.value },
            ticket,
            now.unix_seconds(),
        )
    }

    /// Decides what comes next after a wrong password.
    pub fn handle_password_failure(
        &self,
        tenant_id: TenantId,
        user: &User,
        p: &PortalProgress,
    ) -> (r: FailureStep)
        requires
            user.failed_login_count < i32::MAX,
            p.failure_clock matches Some(at) ==> at.can_add(
                Span::of_seconds(LOCK_DURATION_MINUTES * 60),
            ),
        ensures
            r == password_failure(tenant_id, *user, *p),
    {
        let at: Timestamp = match p.failure_clock {
            None => return FailureStep::Call(PortalCall::ReadClock),
            Some(at) => at,
        };
        let failed: i32 = user.failed_login_count + 1;
        let locked_until: Option<Timestamp> = if failed >= MAX_FAILED_LOGINS {
            Some(at.plus(Span::seconds(LOCK_DURATION_MINUTES * 60)))
        } else {
            None
        };
        match &p.failure_saved {
            None => return FailureStep::Call(
                PortalCall::UpdateLoginState {
                    user_id: user.id,
                    failed_login_count: failed,
                    locked_until,
                },
            ),
            Some(Err(e)) => return FailureStep::Failed(e.clone()),
            Some(Ok(_)) => {},
        }
        if p.audits == 0 {
            return FailureStep::Call(
                PortalCall::Audit(
                    entry(
                        AuditEventType::LoginFailed,
                        AuditResult::Failure,
                        tenant_id,
                        Some(user.id),
                        Some(AuditReason::InvalidPassword),
                    ),
                ),
            );
        }
        if locked_until.is_none() {
            return FailureStep::Counted;
        }
        if p.audits == 1 {
            return FailureStep::Call(
                PortalCall::Audit(
                    entry(
                        AuditEventType::LoginLocked,
                        AuditResult::Failure,
                        tenant_id,
                        Some(user.id),
                        Some(AuditReason::TooManyFailures),
                    ),
                ),
            );
        }
        FailureStep::Locked
    }

    // -----------------------------------------------------------------------
    // Signing in

    /// The password is right: the address, a forced change of the password, and a second factor come
    /// before the sign-on. While any of them is outstanding the counter stays as it is.
    pub open spec fn signed_in_rule(
        self,
        tenant_id: TenantId,
        cmd: PortalLoginCommand,
        ctx: RequestContext,
        draw: PortalDraw,
        p: PortalProgress,
        user: User,
        r: PortalStep<PortalLoginOutcome>,
    ) -> bool {
        if !user.email_verified {
            r == audited(
                p.audits,
                portal_failure(tenant_id, Some(user.id), AuditReason::EmailNotVerified),
                PortalLoginOutcome::EmailVerificationRequired,
            )
        } else if user.must_change_password {
            r == PortalStep::Done(
                PortalLoginOutcome::PasswordChangeRequired { username: cmd.username },
            )
        } else {
            match p.totp {
                None => r == PortalStep::<PortalLoginOutcome>::Call(
                    PortalCall::FindTotp { user_id: user.id },
                ),
                Some(Err(e)) => r == PortalStep::Done(PortalLoginOutcome::Internal(e)),
                Some(Ok(secret)) => if has_confirmed(secret) {
                    r matches PortalStep::Done(PortalLoginOutcome::MfaRequired { mfa_ticket })
                        && mfa_ticket@ == ticket_text(
                        self.ticket_secret@,
                        Uuid { value: tenant_id.value },
                        user.id,
                        draw.now.unix_seconds() + MFA_TICKET_TTL_SECS,
                    ) && (forall|at: Timestamp|
                        at.unix_seconds() <= draw.now.unix_seconds() + MFA_TICKET_TTL_SECS
                            ==> #[trigger] self.admits(tenant_id, mfa_ticket@, at) == Some(
                            user.id.value,
                        ))
                } else {
                    exists|s: SsoStep| #[trigger]
                        self.completion_rule(tenant_id, user, ctx, draw, p, 0, s) && match s {
                            SsoStep::Call(c) => r == PortalStep::<PortalLoginOutcome>::Call(c),
                            SsoStep::Failed(e) => r == PortalStep::Done(
                                PortalLoginOutcome::Internal(e),
                            ),
                            SsoStep::Issued => r == PortalStep::Done(
                                PortalLoginOutcome::Success {
                                    sso_session_id: draw.sso_session_id,
                                    user_language: user.language,
                                },
                            ),
                        }
                },
            }
        }
    }

    /// What comes next in a sign-in of which `p` is known.
    pub open spec fn login_rule(
        self,
        tenant: TenantContext,
        cmd: PortalLoginCommand,
        ctx: RequestContext,
        draw: PortalDraw,
        p: PortalProgress,
        r: PortalStep<PortalLoginOutcome>,
    ) -> bool {
        let tenant_id = tenant.tenant_id;
        if ctx.ip_address is Some && p.rate_allowed is None {
            r == PortalStep::<PortalLoginOutcome>::Call(
                PortalCall::CheckRate { ip_address: ctx.ip_address->0, now: draw.now },
            )
        } else if ctx.ip_address is Some && !p.rate_allowed->0 {
            r == audited(
                p.audits,
                portal_failure(tenant_id, None, AuditReason::IpRateLimited),
                PortalLoginOutcome::RateLimited,
            )
        } else {
            match p.user {
                None => r == PortalStep::<PortalLoginOutcome>::Call(
                    PortalCall::FindUser { tenant_id, username: cmd.username },
                ),
                Some(Err(e)) => r == PortalStep::Done(PortalLoginOutcome::Internal(e)),
                Some(Ok(None)) => r == audited(
                    p.audits,
                    portal_failure(tenant_id, None, AuditReason::UnknownUser),
                    PortalLoginOutcome::InvalidCredentials,
                ),
                Some(Ok(Some(user))) => if user.locked_at(draw.now) {
                    r == audited(
                        p.audits,
                        portal_entry(
                            AuditEventType::LoginLocked,
                            AuditResult::Failure,
                            tenant_id,
                            Some(user.id),
                            Some(AuditReason::AccountLocked),
                        ),
                        PortalLoginOutcome::Locked,
                    )
                } else if !user.active() {
                    r == audited(
                        p.audits,
                        portal_failure(tenant_id, Some(user.id), AuditReason::AccountNotActive),
                        PortalLoginOutcome::InvalidCredentials,
                    )
                } else {
                    match p.password {
                        None => r == PortalStep::<PortalLoginOutcome>::Call(
                            PortalCall::VerifyPassword {
                                password: cmd.password,
                                password_hash: user.password_hash,
                            },
                        ),
                        Some(Err(e)) => r == PortalStep::Done(PortalLoginOutcome::Internal(e)),
                        Some(Ok(false)) => r == match password_failure(tenant_id, user, p) {
                            FailureStep::Call(c) => PortalStep::Call(c),
                            FailureStep::Failed(e) => PortalStep::Done(
                                PortalLoginOutcome::Internal(e),
                            ),
                            FailureStep::Counted => PortalStep::Done(
                                PortalLoginOutcome::InvalidCredentials,
                            ),
                            FailureStep::Locked => PortalStep::Done(PortalLoginOutcome::Locked),
                        },
                        Some(Ok(true)) => self.signed_in_rule(
                            tenant_id,
                            cmd,
                            ctx,
                            draw,
                            p,
                            user,
                            r,
                        ),
                    }
                },
            }
        }
    }

    fn signed_in(
        &self,
        tenant_id: TenantId,
        cmd: &PortalLoginCommand,
        ctx: &RequestContext,
        draw: &PortalDraw,
        p: &PortalProgress,
        user: &User,
    ) -> (r: PortalStep<PortalLoginOutcome>)
        requires
            draw.now.wf(),
        ensures
            self.signed_in_rule(tenant_id, *cmd, *ctx, *draw, *p, *user, r),
    {
        if !user.email_verified {
            return audit_then(
                p.audits,
                entry(
                    AuditEventType::LoginFailed,
                    AuditResult::Failure,
                    tenant_id,
                    Some(user.id),
                    Some(AuditReason::EmailNotVerified),
                ),
                PortalLoginOutcome::EmailVerificationRequired,
            );
        }
        if user.must_change_password {
            return PortalStep::Done(
                PortalLoginOutcome::PasswordChangeRequired { username: cmd.username.clone() },
            );
        }
        let secret: &Option<TotpSecret> = match &p.totp {
            None => return PortalStep::Call(PortalCall::FindTotp { user_id: user.id }),
            Some(Err(e)) => return PortalStep::Done(PortalLoginOutcome::Internal(e.clone())),
            Some(Ok(secret)) => secret,
        };
        if is_confirmed_secret(secret) {
            let mfa_ticket: String = self.issue_ticket(tenant_id, user.id, draw.now);
            return PortalStep::Done(PortalLoginOutcome::MfaRequired { mfa_ticket });
        }
        let s: SsoStep = self.complete(tenant_id, user, ctx, draw, p, 0);
        proof {
            assert(self.completion_rule(tenant_id, *user, *ctx, *draw, *p, 0, s));
        }
        match s {
            SsoStep::Call(c) => PortalStep::Call(c),
            SsoStep::Failed(e) => PortalStep::Done(PortalLoginOutcome::Internal(e)),
            SsoStep::Issued => PortalStep::Done(
                PortalLoginOutcome::Success {
                    sso_session_id: draw.sso_session_id.clone(),
                    user_language: user.language.clone(),
                },
            ),
        }
    }

    /// Decides what comes next in a sign-in of which `p` is known.
    pub fn login(
        &self,
        tenant: &TenantContext,
        cmd: &PortalLoginCommand,
        ctx: &RequestContext,
        draw: &PortalDraw,
        p: &PortalProgress,
    ) -> (r: PortalStep<PortalLoginOutcome>)
        requires
            draw.now.wf(),
            failure_fits(*p),
        ensures
            self.login_rule(*tenant, *cmd, *ctx, *draw, *p, r),
    {
        let tenant_id: TenantId = tenant.tenant_id;
        if let Some(ip) = &ctx.ip_address {
            match p.rate_allowed {
                None => return PortalStep::Call(
                    PortalCall::CheckRate { ip_address: ip.clone(), now: draw.now },
                ),
                Some(allowed) => if !allowed {
                    return audit_then(
                        p.audits,
                        entry(
                            AuditEventType::LoginFailed,
                            AuditResult::Failure,
                            tenant_id,
                            None,
                            Some(AuditReason::IpRateLimited),
                        ),
                        PortalLoginOutcome::RateLimited,
                    );
                },
            }
        }
        let user: &User = match &p.user {
            None => return PortalStep::Call(
                PortalCall::FindUser { tenant_id, username: cmd.username.clone() },
            ),
            Some(Err(e)) => return PortalStep::Done(PortalLoginOutcome::Internal(e.clone())),
            Some(Ok(None)) => return audit_then(
                p.audits,
                entry(
                    AuditEventType::LoginFailed,
                    AuditResult::Failure,
                    tenant_id,
                    None,
                    Some(AuditReason::UnknownUser),
                ),
                PortalLoginOutcome::InvalidCredentials,
            ),
            Some(Ok(Some(user))) => user,
        };
        if user.is_locked_at(draw.now) {
            return audit_then(
                p.audits,
                entry(
                    AuditEventType::LoginLocked,
                    AuditResult::Failure,
                    tenant_id,
                    Some(user.id),
                    Some(AuditReason::AccountLocked),
                ),
                PortalLoginOutcome::Locked,
            );
        }
        if !user.is_active() {
            return audit_then(
                p.audits,
                entry(
                    AuditEventType::LoginFailed,
                    AuditResult::Failure,
                    tenant_id,
                    Some(user.id),
                    Some(AuditReason::AccountNotActive),
                ),
                PortalLoginOutcome::InvalidCredentials,
            );
        }
        match &p.password {
            None => PortalStep::Call(
                PortalCall::VerifyPassword {
                    password: cmd.password.clone(),
                    password_hash: user.password_hash.clone(),
                },
            ),
            Some(Err(e)) => PortalStep::Done(PortalLoginOutcome::Internal(e.clone())),
            Some(Ok(verified)) => {
                if *verified {
                    return self.signed_in(tenant_id, cmd, ctx, draw, p, user);
                }
                match self.handle_password_failure(tenant_id, user, p) {
                    FailureStep::Call(c) => PortalStep::Call(c),
                    FailureStep::Failed(e) => PortalStep::Done(PortalLoginOutcome::Internal(e)),
                    FailureStep::Counted => PortalStep::Done(PortalLoginOutcome::InvalidCredentials),
                    FailureStep::Locked => PortalStep::Done(PortalLoginOutcome::Locked),
                }
            },
        }
    }

    // -----------------------------------------------------------------------
    // Changing a password that has to be changed

    /// The password was changed: a second factor comes before the sign-on, and while it is
    /// outstanding the counter stays as it is.
    pub open spec fn changed_rule(
        self,
        tenant_id: TenantId,
        ctx: RequestContext,
        draw: PortalDraw,
        p: PortalProgress,
        user: User,
        r: PortalStep<PortalChangePasswordOutcome>,
    ) -> bool {
        if p.audits == 0 {
            r == PortalStep::<PortalChangePasswordOutcome>::Call(
                PortalCall::Audit(
                    portal_entry(
                        AuditEventType::PasswordChanged,
                        AuditResult::Success,
                        tenant_id,
                        Some(user.id),
                        None,
                    ),
                ),
            )
        } else {
            match p.totp {
                None => r == PortalStep::<PortalChangePasswordOutcome>::Call(
                    PortalCall::FindTotp { user_id: user.id },
                ),
                Some(Err(e)) => r == PortalStep::Done(PortalChangePasswordOutcome::Internal(e)),
                Some(Ok(secret)) => if has_confirmed(secret) {
                    r matches PortalStep::Done(
                        PortalChangePasswordOutcome::MfaRequired { mfa_ticket },
                    ) && mfa_ticket@ == ticket_text(
                        self.ticket_secret@,
                        Uuid { value: tenant_id.value },
                        user.id,
                        draw.now.unix_seconds() + MFA_TICKET_TTL_SECS,
                    ) && (forall|at: Timestamp|
                        at.unix_seconds() <= draw.now.unix_seconds() + MFA_TICKET_TTL_SECS
                            ==> #[trigger] self.admits(tenant_id, mfa_ticket@, at) == Some(
                            user.id.value,
                        ))
                } else {
                    exists|s: SsoStep| #[trigger]
                        self.completion_rule(tenant_id, user, ctx, draw, p, 1, s) && match s {
                            SsoStep::Call(c) => r == PortalStep::<
                                PortalChangePasswordOutcome,
                            >::Call(c),
                            SsoStep::Failed(e) => r == PortalStep::Done(
                                PortalChangePasswordOutcome::Internal(e),
                            ),
                            SsoStep::Issued => r == PortalStep::Done(
                                PortalChangePasswordOutcome::Success {
                                    sso_session_id: draw.sso_session_id,
                                    user_language: user.language,
                                },
                            ),
                        }
                },
            }
        }
    }

    /// What comes next in a change of password of which `p` is known. The new password is looked at
    /// only once the current one is known to be right.
    pub open spec fn change_password_rule(
        self,
        tenant: TenantContext,
        cmd: PortalChangePasswordCommand,
        ctx: RequestContext,
        draw: PortalDraw,
        p: PortalProgress,
        r: PortalStep<PortalChangePasswordOutcome>,
    ) -> bool {
        let tenant_id = tenant.tenant_id;
        if ctx.ip_address is Some && p.rate_allowed is None {
            r == PortalStep::<PortalChangePasswordOutcome>::Call(
                PortalCall::CheckRate { ip_address: ctx.ip_address->0, now: draw.now },
            )
        } else if ctx.ip_address is Some && !p.rate_allowed->0 {
            r == audited(
                p.audits,
                portal_failure(tenant_id, None, AuditReason::IpRateLimited),
                PortalChangePasswordOutcome::RateLimited,
            )
        } else {
            match p.user {
                None => r == PortalStep::<PortalChangePasswordOutcome>::Call(
                    PortalCall::FindUser { tenant_id, username: cmd.username },
                ),
                Some(Err(e)) => r == PortalStep::Done(PortalChangePasswordOutcome::Internal(e)),
                Some(Ok(None)) => r == PortalStep::Done(
                    PortalChangePasswordOutcome::InvalidCredentials,
                ),
                Some(Ok(Some(user))) => if user.locked_at(draw.now) {
                    r == PortalStep::Done(PortalChangePasswordOutcome::Locked)
                } else if !user.active() || !user.must_change_password {
                    r == PortalStep::Done(PortalChangePasswordOutcome::InvalidCredentials)
                } else {
                    match p.password {
                        None => r == PortalStep::<PortalChangePasswordOutcome>::Call(
                            PortalCall::VerifyPassword {
                                password: cmd.current_password,
                                password_hash: user.password_hash,
                            },
                        ),
                        Some(Err(e)) => r == PortalStep::Done(
                            PortalChangePasswordOutcome::Internal(e),
                        ),
                        Some(Ok(false)) => r == match password_failure(tenant_id, user, p) {
                            FailureStep::Call(c) => PortalStep::Call(c),
                            FailureStep::Failed(e) => PortalStep::Done(
                                PortalChangePasswordOutcome::Internal(e),
                            ),
                            FailureStep::Counted => PortalStep::Done(
                                PortalChangePasswordOutcome::InvalidCredentials,
                            ),
                            FailureStep::Locked => PortalStep::Done(
                                PortalChangePasswordOutcome::Locked,
                            ),
                        },
                        Some(Ok(true)) => if !user.email_verified {
                            r == audited(
                                p.audits,
                                portal_failure(
                                    tenant_id,
                                    Some(user.id),
                                    AuditReason::EmailNotVerified,
                                ),
                                PortalChangePasswordOutcome::EmailVerificationRequired,
                            )
                        } else if !strong_enough(cmd.new_password@) {
                            r == PortalStep::Done(PortalChangePasswordOutcome::WeakPassword)
                        } else {
                            match p.new_hash {
                                None => r == PortalStep::<PortalChangePasswordOutcome>::Call(
                                    PortalCall::HashPassword { password: cmd.new_password },
                                ),
                                Some(Err(e)) => r == PortalStep::Done(
                                    PortalChangePasswordOutcome::Internal(e),
                                ),
                                Some(Ok(hash)) => match p.password_updated {
                                    None => r == PortalStep::<PortalChangePasswordOutcome>::Call(
                                        PortalCall::UpdatePassword {
                                            user_id: user.id,
                                            password_hash: hash,
                                        },
                                    ),
                                    Some(Err(e)) => r == PortalStep::Done(
                                        PortalChangePasswordOutcome::Internal(e),
                                    ),
                                    Some(Ok(_)) => self.changed_rule(
                                        tenant_id,
                                        ctx,
                                        draw,
                                        p,
                                        user,
                                        r,
                                    ),
                                },
                            }
                        },
                    }
                },
            }
        }
    }

    fn changed(
        &self,
        tenant_id: TenantId,
        ctx: &RequestContext,
        draw: &PortalDraw,
        p: &PortalProgress,
        user: &User,
    ) -> (r: PortalStep<PortalChangePasswordOutcome>)
        requires
            draw.now.wf(),
        ensures
            self.changed_rule(tenant_id, *ctx, *draw, *p, *user, r),
    {
        if p.audits == 0 {
            return PortalStep::Call(
                PortalCall::Audit(
                    entry(
                        AuditEventType::PasswordChanged,
                        AuditResult::Success,
                        tenant_id,
                        Some(user.id),
                        None,
                    ),
                ),
            );
        }
        let secret: &Option<TotpSecret> = match &p.totp {
            None => return PortalStep::Call(PortalCall::FindTotp { user_id: user.id }),
            Some(Err(e)) => return PortalStep::Done(
                PortalChangePasswordOutcome::Internal(e.clone()),
            ),
            Some(Ok(secret)) => secret,
        };
        if is_confirmed_secret(secret) {
            let mfa_ticket: String = self.issue_ticket(tenant_id, user.id, draw.now);
            return PortalStep::Done(PortalChangePasswordOutcome::MfaRequired { mfa_ticket });
        }
        let s: SsoStep = self.complete(tenant_id, user, ctx, draw, p, 1);
        proof {
            assert(self.completion_rule(tenant_id, *user, *ctx, *draw, *p, 1, s));
        }
        match s {
            SsoStep::Call(c) => PortalStep::Call(c),
            SsoStep::Failed(e) => PortalStep::Done(PortalChangePasswordOutcome::Internal(e)),
            SsoStep::Issued => PortalStep::Done(
                PortalChangePasswordOutcome::Success {
                    sso_session_id: draw.sso_session_id.clone(),
                    user_language: user.language.clone(),
                },
            ),
        }
    }

    /// Decides what comes next in a change of password of which `p` is known.
    pub fn change_password(
        &self,
        tenant: &TenantContext,
        cmd: &PortalChangePasswordCommand,
        ctx: &RequestContext,
        draw: &PortalDraw,
        p: &PortalProgress,
    ) -> (r: PortalStep<PortalChangePasswordOutcome>)
        requires
            draw.now.wf(),
            failure_fits(*p),
        ensures
            self.change_password_rule(*tenant, *cmd, *ctx, *draw, *p, r),
    {
        let tenant_id: TenantId = tenant.tenant_id;
        if let Some(ip) = &ctx.ip_address {
            match p.rate_allowed {
                None => return PortalStep::Call(
                    PortalCall::CheckRate { ip_address: ip.clone(), now: draw.now },
                ),
                Some(allowed) => if !allowed {
                    return audit_then(
                        p.audits,
                        entry(
                            AuditEventType::LoginFailed,
                            AuditResult::Failure,
                            tenant_id,
                            None,
                            Some(AuditReason::IpRateLimited),
                        ),
                        PortalChangePasswordOutcome::RateLimited,
                    );
                },
            }
        }
        let user: &User = match &p.user {
            None => return PortalStep::Call(
                PortalCall::FindUser { tenant_id, username: cmd.username.clone() },
            ),
            Some(Err(e)) => return PortalStep::Done(
                PortalChangePasswordOutcome::Internal(e.clone()),
            ),
            Some(Ok(None)) => return PortalStep::Done(
                PortalChangePasswordOutcome::InvalidCredentials,
            ),
            Some(Ok(Some(user))) => user,
        };
        if user.is_locked_at(draw.now) {
            return PortalStep::Done(PortalChangePasswordOutcome::Locked);
        }
        if !user.is_active() || !user.must_change_password {
            return PortalStep::Done(PortalChangePasswordOutcome::InvalidCredentials);
        }
        let verified: bool = match &p.password {
            None => return PortalStep::Call(
                PortalCall::VerifyPassword {
                    password: cmd.current_password.clone(),
                    password_hash: user.password_hash.clone(),
                },
            ),
            Some(Err(e)) => return PortalStep::Done(
                PortalChangePasswordOutcome::Internal(e.clone()),
            ),
            Some(Ok(verified)) => *verified,
        };
        if !verified {
            return match self.handle_password_failure(tenant_id, user, p) {
                FailureStep::Call(c) => PortalStep::Call(c),
                FailureStep::Failed(e) => PortalStep::Done(PortalChangePasswordOutcome::Internal(e)),
                FailureStep::Counted => PortalStep::Done(
                    PortalChangePasswordOutcome::InvalidCredentials,
                ),
                FailureStep::Locked => PortalStep::Done(PortalChangePasswordOutcome::Locked),
            };
        }
        if !user.email_verified {
            return audit_then(
                p.audits,
                entry(
                    AuditEventType::LoginFailed,
                    AuditResult::Failure,
                    tenant_id,
                    Some(user.id),
                    Some(AuditReason::EmailNotVerified),
                ),
                PortalChangePasswordOutcome::EmailVerificationRequired,
            );
        }
        if validate_password_strength(cmd.new_password.as_str()).is_err() {
            return PortalStep::Done(PortalChangePasswordOutcome::WeakPassword);
        }
        let hash: &String = match &p.new_hash {
            None => return PortalStep::Call(
                PortalCall::HashPassword { password: cmd.new_password.clone() },
            ),
            Some(Err(e)) => return PortalStep::Done(
                PortalChangePasswordOutcome::Internal(e.clone()),
            ),
            Some(Ok(hash)) => hash,
        };
        match &p.password_updated {
            None => PortalStep::Call(
                PortalCall::UpdatePassword { user_id: user.id, password_hash: hash.clone() },
            ),
            Some(Err(e)) => PortalStep::Done(PortalChangePasswordOutcome::Internal(e.clone())),
            Some(Ok(_)) => self.changed(tenant_id, ctx, draw, p, user),
        }
    }

    // -----------------------------------------------------------------------
    // Trading in a ticket

    /// What comes next for a ticket and a code of which `p` is known.
    pub open spec fn verify_mfa_rule(
        self,
        tenant: TenantContext,
        cmd: PortalMfaCommand,
        ctx: RequestContext,
        draw: PortalDraw,
        p: PortalProgress,
        r: PortalStep<PortalMfaOutcome>,
    ) -> bool {
        let tenant_id = tenant.tenant_id;
        if ctx.ip_address is Some && p.rate_allowed is None {
            r == PortalStep::<PortalMfaOutcome>::Call(
                PortalCall::CheckRate { ip_address: ctx.ip_address->0, now: draw.now },
            )
        } else if ctx.ip_address is Some && !p.rate_allowed->0 {
            r == PortalStep::Done(PortalMfaOutcome::RateLimited)
        } else {
            match self.admits(tenant_id, cmd.mfa_ticket@, draw.now) {
                None => r == PortalStep::Done(PortalMfaOutcome::TicketExpired),
                Some(admitted) => match p.user {
                    None => r == PortalStep::<PortalMfaOutcome>::Call(
                        PortalCall::FindUserById { user_id: Uuid { value: admitted } },
                    ),
                    Some(Err(e)) => r == PortalStep::Done(PortalMfaOutcome::Internal(e)),
                    Some(Ok(None)) => r == PortalStep::Done(PortalMfaOutcome::TicketExpired),
                    Some(Ok(Some(user))) => if user.locked_at(draw.now) || !user.active() {
                        r == PortalStep::Done(PortalMfaOutcome::TicketExpired)
                    } else {
                        match p.totp {
                            None => r == PortalStep::<PortalMfaOutcome>::Call(
                                PortalCall::FindTotp { user_id: Uuid { value: admitted } },
                            ),
                            Some(Err(e)) => r == PortalStep::Done(PortalMfaOutcome::Internal(e)),
                            Some(Ok(secret)) => if !has_confirmed(secret) {
                                r == PortalStep::Done(PortalMfaOutcome::TicketExpired)
                            } else {
                                match p.totp_matches {
                                    None => r == PortalStep::<PortalMfaOutcome>::Call(
                                        PortalCall::VerifyTotp {
                                            secret_encrypted: secret->0.secret_encrypted,
                                            key_encryption_key: self.key_encryption_key,
                                            code: cmd.totp_code,
                                        },
                                    ),
                                    Some(Err(e)) => r == PortalStep::Done(
                                        PortalMfaOutcome::Internal(e),
                                    ),
                                    Some(Ok(false)) => r == audited(
                                        p.audits,
                                        portal_failure(
                                            tenant_id,
                                            Some(Uuid { value: admitted }),
                                            AuditReason::InvalidTotp,
                                        ),
                                        PortalMfaOutcome::InvalidCode,
                                    ),
                                    Some(Ok(true)) => exists|s: SsoStep| #[trigger]
                                        self.completion_rule(tenant_id, user, ctx, draw, p, 0, s)
                                            && match s {
                                            SsoStep::Call(c) => r == PortalStep::<
                                                PortalMfaOutcome,
                                            >::Call(c),
                                            SsoStep::Failed(e) => r == PortalStep::Done(
                                                PortalMfaOutcome::Internal(e),
                                            ),
                                            SsoStep::Issued => r == PortalStep::Done(
                                                PortalMfaOutcome::Success {
                                                    sso_session_id: draw.sso_session_id,
                                                    user_language: user.language,
                                                },
                                            ),
                                        },
                                }
                            },
                        }
                    },
                },
            }
        }
    }

    /// Decides what comes next for a ticket and a code of which `p` is known.
    pub fn verify_mfa(
        &self,
        tenant: &TenantContext,
        cmd: &PortalMfaCommand,
        ctx: &RequestContext,
        draw: &PortalDraw,
        p: &PortalProgress,
    ) -> (r: PortalStep<PortalMfaOutcome>)
        requires
            draw.now.wf(),
        ensures
            self.verify_mfa_rule(*tenant, *cmd, *ctx, *draw, *p, r),
    {
        let tenant_id: TenantId = tenant.tenant_id;
        if let Some(ip) = &ctx.ip_address {
            match p.rate_allowed {
                None => return PortalStep::Call(
                    PortalCall::CheckRate { ip_address: ip.clone(), now: draw.now },
                ),
                Some(allowed) => if !allowed {
                    return PortalStep::Done(PortalMfaOutcome::RateLimited);
                },
            }
        }
        let user_id: Uuid = match self.verify_ticket(tenant_id, cmd.mfa_ticket.as_str(), draw.now) {
            None => return PortalStep::Done(PortalMfaOutcome::TicketExpired),
            Some(user_id) => user_id,
        };
        let user: &User = match &p.user {
            None => return PortalStep::Call(PortalCall::FindUserById { user_id }),
            Some(Err(e)) => return PortalStep::Done(PortalMfaOutcome::Internal(e.clone())),
            Some(Ok(None)) => return PortalStep::Done(PortalMfaOutcome::TicketExpired),
            Some(Ok(Some(user))) => user,
        };
        if user.is_locked_at(draw.now) || !user.is_active() {
            return PortalStep::Done(PortalMfaOutcome::TicketExpired);
        }
        let secret: &TotpSecret = match &p.totp {
            None => return PortalStep::Call(PortalCall::FindTotp { user_id }),
            Some(Err(e)) => return PortalStep::Done(PortalMfaOutcome::Internal(e.clone())),
            Some(Ok(None)) => return PortalStep::Done(PortalMfaOutcome::TicketExpired),
            Some(Ok(Some(secret))) => {
                if !secret.is_confirmed() {
                    return PortalStep::Done(PortalMfaOutcome::TicketExpired);
                }
                secret
            },
        };
        match &p.totp_matches {
            None => return PortalStep::Call(
                PortalCall::VerifyTotp {
                    secret_encrypted: secret.secret_encrypted.clone(),
                    key_encryption_key: self.key_encryption_key,
                    code: cmd.totp_code.clone(),
                },
            ),
            Some(Err(e)) => return PortalStep::Done(PortalMfaOutcome::Internal(e.clone())),
            Some(Ok(valid)) => if !*valid {
                return audit_then(
                    p.audits,
                    entry(
                        AuditEventType::LoginFailed,
                        AuditResult::Failure,
                        tenant_id,
                        Some(user_id),
                        Some(AuditReason::InvalidTotp),
                    ),
                    PortalMfaOutcome::InvalidCode,
                );
            },
        }
        let s: SsoStep = self.complete(tenant_id, user, ctx, draw, p, 0);
        proof {
            assert(self.completion_rule(tenant_id, *user, *ctx, *draw, *p, 0, s));
        }
        match s {
            SsoStep::Call(c) => PortalStep::Call(c),
            SsoStep::Failed(e) => PortalStep::Done(PortalMfaOutcome::Internal(e)),
            SsoStep::Issued => PortalStep::Done(
                PortalMfaOutcome::Success {
                    sso_session_id: draw.sso_session_id.clone(),
                    user_language: user.language.clone(),
                },
            ),
        }
    }
}

/// A user with a second factor gets no sign-on for a password alone, neither by signing in nor by
/// changing the password.
pub proof fn portal_keeps_the_second_factor(
    svc: PortalLoginService,
    tenant: TenantContext,
    cmd: PortalLoginCommand,
    change: PortalChangePasswordCommand,
    ctx: RequestContext,
    draw: PortalDraw,
    p: PortalProgress,
    r: PortalStep<PortalLoginOutcome>,
    changed: PortalStep<PortalChangePasswordOutcome>,
)
    requires
        svc.login_rule(tenant, cmd, ctx, draw, p, r),
        svc.change_password_rule(tenant, change, ctx, draw, p, changed),
        p.totp matches Some(Ok(secret)) && has_confirmed(secret),
    ensures
        !(r matches PortalStep::Call(PortalCall::CreateSso(_))),
        !(r matches PortalStep::Done(PortalLoginOutcome::Success { .. })),
        !(changed matches PortalStep::Call(PortalCall::CreateSso(_))),
        !(changed matches PortalStep::Done(PortalChangePasswordOutcome::Success { .. })),
{
}

/// A login that still owes its second factor, a new password or a confirmed address keeps the
/// counter: after a right password it is written only where no second factor is confirmed, and
/// then it is set to nothing.
pub proof fn a_pending_sign_in_keeps_the_counter(
    svc: PortalLoginService,
    tenant: TenantContext,
    cmd: PortalLoginCommand,
    change: PortalChangePasswordCommand,
    ctx: RequestContext,
    draw: PortalDraw,
    p: PortalProgress,
    r: PortalStep<PortalLoginOutcome>,
    changed: PortalStep<PortalChangePasswordOutcome>,
)
    requires
        svc.login_rule(tenant, cmd, ctx, draw, p, r),
        svc.change_password_rule(tenant, change, ctx, draw, p, changed),
        p.password matches Some(Ok(true)),
    ensures
        r matches PortalStep::Call(
            PortalCall::UpdateLoginState { failed_login_count, locked_until, .. },
        ) ==> failed_login_count == 0 && locked_until is None && (p.totp matches Some(Ok(secret))
            && !has_confirmed(secret)) && (p.user matches Some(Ok(Some(u))) && u.email_verified
            && !u.must_change_password),
        changed matches PortalStep::Call(
            PortalCall::UpdateLoginState { failed_login_count, locked_until, .. },
        ) ==> failed_login_count == 0 && locked_until is None && (p.totp matches Some(Ok(secret))
            && !has_confirmed(secret)) && (p.password_updated matches Some(Ok(_))),
{
}

/// Every sign-on comes with an empty counter: it is created only where nothing was on record, or
/// after the record was cleared.
pub proof fn a_portal_sign_on_resets_the_counter(
    svc: PortalLoginService,
    tenant: TenantContext,
    cmd: PortalLoginCommand,
    change: PortalChangePasswordCommand,
    code: PortalMfaCommand,
    ctx: RequestContext,
    draw: PortalDraw,
    p: PortalProgress,
    r: PortalStep<PortalLoginOutcome>,
    changed: PortalStep<PortalChangePasswordOutcome>,
    verified: PortalStep<PortalMfaOutcome>,
)
    requires
        svc.login_rule(tenant, cmd, ctx, draw, p, r),
        svc.change_password_rule(tenant, change, ctx, draw, p, changed),
        svc.verify_mfa_rule(tenant, code, ctx, draw, p, verified),
        (r matches PortalStep::Call(PortalCall::CreateSso(_))) || (changed matches PortalStep::Call(
            PortalCall::CreateSso(_),
        )) || (verified matches PortalStep::Call(PortalCall::CreateSso(_))),
    ensures
        p.user matches Some(Ok(Some(u))) && (u.has_failures() ==> (p.failures_reset matches Some(
            Ok(_),
        ))),
{
}

/// A ticket and a right code clear the record before the sign-on; a wrong code does not.
pub proof fn a_ticket_resets_the_counter_for_a_right_code(
    svc: PortalLoginService,
    tenant: TenantContext,
    cmd: PortalMfaCommand,
    ctx: RequestContext,
    draw: PortalDraw,
    p: PortalProgress,
    r: PortalStep<PortalMfaOutcome>,
)
    requires
        svc.verify_mfa_rule(tenant, cmd, ctx, draw, p, r),
        r matches PortalStep::Call(PortalCall::UpdateLoginState { .. }),
    ensures
        p.totp_matches matches Some(Ok(true)),
        r matches PortalStep::Call(
            PortalCall::UpdateLoginState { failed_login_count, locked_until, .. },
        ) && failed_login_count == 0 && locked_until is None,
{
}

/// A sign-on for a ticket needs one that admits its user, an active and unlocked account, and a
/// right code.
pub proof fn ticket_sign_on_needs_the_code(
    svc: PortalLoginService,
    tenant: TenantContext,
    cmd: PortalMfaCommand,
    ctx: RequestContext,
    draw: PortalDraw,
    p: PortalProgress,
    r: PortalStep<PortalMfaOutcome>,
)
    requires
        svc.verify_mfa_rule(tenant, cmd, ctx, draw, p, r),
        (r matches PortalStep::Call(PortalCall::CreateSso(_))) || (r matches PortalStep::Done(
            PortalMfaOutcome::Success { .. },
        )),
    ensures
        svc.admits(tenant.tenant_id, cmd.mfa_ticket@, draw.now) is Some,
        p.user matches Some(Ok(Some(user))) && user.active() && !user.locked_at(draw.now),
        p.totp_matches matches Some(Ok(true)),
{
}

/// The tenth failure in a row locks the account for a quarter of an hour, and none before it does.
pub proof fn the_tenth_failure_locks(user: User, at: Timestamp)
    ensures
        user.failed_login_count >= 9 ==> lock_after_failure(user, at) == Some(
            at.later(Span::of_seconds(900)),
        ),
        user.failed_login_count < 9 ==> lock_after_failure(user, at) is None,
{
}

/// The new password is looked at, and written, only where the current one was shown for an account
/// that has to change it, is active, is not locked, and whose address is confirmed.
pub proof fn a_forced_change_needs_the_current_password(
    svc: PortalLoginService,
    tenant: TenantContext,
    cmd: PortalChangePasswordCommand,
    ctx: RequestContext,
    draw: PortalDraw,
    p: PortalProgress,
    r: PortalStep<PortalChangePasswordOutcome>,
)
    requires
        svc.change_password_rule(tenant, cmd, ctx, draw, p, r),
        (r matches PortalStep::Call(PortalCall::HashPassword { .. })) || (
        r matches PortalStep::Call(PortalCall::UpdatePassword { .. })) || (r matches PortalStep::Done(
            PortalChangePasswordOutcome::WeakPassword,
        )),
    ensures
        p.user matches Some(Ok(Some(user))) && user.active() && !user.locked_at(draw.now)
            && user.must_change_password && user.email_verified,
        p.password matches Some(Ok(true)),
        r matches PortalStep::Call(PortalCall::UpdatePassword { .. }) ==> strong_enough(
            cmd.new_password@,
        ),
{
}

impl PortalProgress {
    /// The call `call` asks for something that is not known yet.
    pub open spec fn lacks_answer_to(self, call: PortalCall) -> bool {
        match call {
            PortalCall::CheckRate { .. } => self.rate_allowed is None,
            PortalCall::FindUser { .. } => self.user is None,
            PortalCall::FindUserById { .. } => self.user is None,
            PortalCall::VerifyPassword { .. } => self.password is None,
            PortalCall::ReadClock => self.failure_clock is None,
            PortalCall::UpdateLoginState { .. } => self.failure_saved is None || self.failures_reset is None,
            PortalCall::HashPassword { .. } => self.new_hash is None,
            PortalCall::UpdatePassword { .. } => self.password_updated is None,
            PortalCall::FindTotp { .. } => self.totp is None,
            PortalCall::VerifyTotp { .. } => self.totp_matches is None,
            PortalCall::CreateSso(_) => self.sso_created is None,
            PortalCall::Audit(_) => self.audits < 3,
        }
    }
}

/// Nothing is asked for that is known already: every call that comes next fills a gap.
pub proof fn login_asks_nothing_twice(
    svc: PortalLoginService,
    tenant: TenantContext,
    cmd: PortalLoginCommand,
    ctx: RequestContext,
    draw: PortalDraw,
    p: PortalProgress,
    r: PortalStep<PortalLoginOutcome>,
)
    requires
        svc.login_rule(tenant, cmd, ctx, draw, p, r),
    ensures
        r matches PortalStep::Call(c) ==> p.lacks_answer_to(c),
{
}

/// Nothing is asked for that is known already: every call that comes next fills a gap.
pub proof fn a_forced_change_asks_nothing_twice(
    svc: PortalLoginService,
    tenant: TenantContext,
    cmd: PortalChangePasswordCommand,
    ctx: RequestContext,
    draw: PortalDraw,
    p: PortalProgress,
    r: PortalStep<PortalChangePasswordOutcome>,
)
    requires
        svc.change_password_rule(tenant, cmd, ctx, draw, p, r),
    ensures
        r matches PortalStep::Call(c) ==> p.lacks_answer_to(c),
{
}

/// Nothing is asked for that is known already: every call that comes next fills a gap.
pub proof fn a_ticket_sign_on_asks_nothing_twice(
    svc: PortalLoginService,
    tenant: TenantContext,
    cmd: PortalMfaCommand,
    ctx: RequestContext,
    draw: PortalDraw,
    p: PortalProgress,
    r: PortalStep<PortalMfaOutcome>,
)
    requires
        svc.verify_mfa_rule(tenant, cmd, ctx, draw, p, r),
    ensures
        r matches PortalStep::Call(c) ==> p.lacks_answer_to(c),
{
}

/// A sign-on of the account pages belongs to its user, begins now, lasts as long as the service says,
/// is kept under the hash of the cookie that was drawn, and records where the request came from.
pub open spec fn signs_on(
    svc: PortalLoginService,
    user_id: Uuid,
    ctx: RequestContext,
    draw: PortalDraw,
    g: SsoGrant,
) -> bool {
    &&& g.session_hash@ == sha256_hex_of(draw.sso_session_id@)
    &&& g.user_id == user_id
    &&& g.now == draw.now
    &&& g.idle_ttl == svc.sso_idle_ttl
    &&& g.absolute_ttl == svc.sso_absolute_ttl
    &&& g.methods@.len() == 0
    &&& g.user_agent == ctx.user_agent
    &&& g.ip_address == ctx.ip_address
}

/// A change of the counter is either one more failure, with a lock of a quarter of an hour from the
/// tenth on, or, where anything is on record, the end of all failures.
pub open spec fn counts(
    user: User,
    p: PortalProgress,
    user_id: Uuid,
    failed_login_count: i32,
    locked_until: Option<Timestamp>,
) -> bool {
    &&& user_id == user.id
    &&& p.password == Some(Ok::<bool, String>(false)) && user.failed_login_count < i32::MAX ==> (
    p.failure_clock matches Some(at) && failed_login_count == user.failed_login_count + 1 && (
    failed_login_count < 10 ==> locked_until is None) && (failed_login_count >= 10 && at.wf() ==> (
    locked_until matches Some(until) && until.nanos == at.nanos + 900_000_000_000)))
    &&& p.password != Some(Ok::<bool, String>(false)) ==> failed_login_count == 0
        && locked_until is None
}

/// Every call of a sign-in is about the name and the password that were sent and the user found under
/// that name.
pub proof fn portal_calls_are_about_the_request(
    svc: PortalLoginService,
    tenant: TenantContext,
    cmd: PortalLoginCommand,
    ctx: RequestContext,
    draw: PortalDraw,
    p: PortalProgress,
    call: PortalCall,
)
    requires
        call_ensures(
            PortalLoginService::login,
            (&svc, &tenant, &cmd, &ctx, &draw, &p),
            PortalStep::Call(call),
        ),
    ensures
        match call {
            PortalCall::CheckRate { ip_address, now } => ctx.ip_address == Some(ip_address) && now
                == draw.now,
            PortalCall::FindUser { tenant_id, username } => tenant_id == tenant.tenant_id && username
                == cmd.username,
            PortalCall::VerifyPassword { password, password_hash } => password == cmd.password && (
            p.user matches Some(Ok(Some(user))) && password_hash == user.password_hash),
            PortalCall::ReadClock => p.password == Some(Ok::<bool, String>(false)),
            PortalCall::UpdateLoginState { user_id, failed_login_count, locked_until } =>
            p.user matches Some(Ok(Some(user))) && counts(
                user,
                p,
                user_id,
                failed_login_count,
                locked_until,
            ) && p.password is Some,
            PortalCall::FindTotp { user_id } => p.user matches Some(Ok(Some(user))) && user_id
                == user.id && p.password == Some(Ok::<bool, String>(true)),
            PortalCall::CreateSso(g) => p.user matches Some(Ok(Some(user))) && signs_on(
                svc,
                user.id,
                ctx,
                draw,
                g,
            ) && p.password == Some(Ok::<bool, String>(true)),
            PortalCall::Audit(a) => a.tenant_id == Some(tenant.tenant_id) && a.client_id is None && (
            a.user_id matches Some(id) ==> (p.user matches Some(Ok(Some(user))) && id == user.id))
                && match a.result {
                AuditResult::Success => a.user_id is Some && a.reason is None && (
                p.sso_created matches Some(Ok(_))) && ((a.event == AuditEventType::SsoSessionCreated
                    && p.audits == 0) || (a.event == AuditEventType::LoginSucceeded && p.audits
                    == 1)),
                AuditResult::Failure => match a.reason {
                    Some(AuditReason::IpRateLimited) => a.event == AuditEventType::LoginFailed
                        && a.user_id is None && p.rate_allowed == Some(false),
                    Some(AuditReason::UnknownUser) => a.event == AuditEventType::LoginFailed
                        && a.user_id is None && p.user == Some(Ok::<Option<User>, String>(None)),
                    Some(AuditReason::AccountLocked) => a.event == AuditEventType::LoginLocked
                        && a.user_id is Some && (p.user->0->Ok_0->0.locked_until matches Some(until)
                        && draw.now.nanos < until.nanos),
                    Some(AuditReason::AccountNotActive) => a.event == AuditEventType::LoginFailed
                        && a.user_id is Some && p.user->0->Ok_0->0.status != UserStatus::Active,
                    Some(AuditReason::InvalidPassword) => a.event == AuditEventType::LoginFailed
                        && a.user_id is Some && p.password == Some(Ok::<bool, String>(false)),
                    Some(AuditReason::TooManyFailures) => a.event == AuditEventType::LoginLocked
                        && a.user_id is Some && p.password == Some(Ok::<bool, String>(false))
                        && p.user->0->Ok_0->0.failed_login_count >= 9,
                    Some(AuditReason::EmailNotVerified) => a.event == AuditEventType::LoginFailed
                        && a.user_id is Some && !p.user->0->Ok_0->0.email_verified,
                    _ => false,
                },
            },
            _ => false,
        },
{
}

/// Every way a sign-in ends has its cause.
pub proof fn portal_outcomes_have_their_causes(
    svc: PortalLoginService,
    tenant: TenantContext,
    cmd: PortalLoginCommand,
    ctx: RequestContext,
    draw: PortalDraw,
    p: PortalProgress,
    outcome: PortalLoginOutcome,
)
    requires
        call_ensures(
            PortalLoginService::login,
            (&svc, &tenant, &cmd, &ctx, &draw, &p),
            PortalStep::Done(outcome),
        ),
    ensures
        match outcome {
            PortalLoginOutcome::Success { sso_session_id, user_language } => sso_session_id
                == draw.sso_session_id && (p.user matches Some(Ok(Some(user))) && user_language
                == user.language) && (p.sso_created matches Some(Ok(_))) && p.audits >= 2,
            PortalLoginOutcome::MfaRequired { mfa_ticket } => (p.totp matches Some(Ok(Some(secret)))
                && secret.confirmed_at is Some) && p.password == Some(Ok::<bool, String>(true)),
            PortalLoginOutcome::EmailVerificationRequired => p.user matches Some(Ok(Some(user)))
                && !user.email_verified && p.password == Some(Ok::<bool, String>(true)),
            PortalLoginOutcome::PasswordChangeRequired { username } => username == cmd.username && (
            p.user matches Some(Ok(Some(user))) && user.must_change_password) && p.password == Some(
                Ok::<bool, String>(true),
            ),
            PortalLoginOutcome::RateLimited => ctx.ip_address is Some && p.rate_allowed == Some(
                false,
            ),
            PortalLoginOutcome::InvalidCredentials => p.user matches Some(Ok(found)) && (
            found matches Some(user) ==> user.status != UserStatus::Active || (p.password == Some(
                Ok::<bool, String>(false),
            ) && user.failed_login_count < 9)),
            PortalLoginOutcome::Locked => p.user matches Some(Ok(Some(user))) && ((
            user.locked_until matches Some(until) && draw.now.nanos < until.nanos) || (p.password
                == Some(Ok::<bool, String>(false)) && user.failed_login_count >= 9)),
            PortalLoginOutcome::Internal(e) => p.user == Some(Err::<Option<User>, String>(e))
                || p.password == Some(Err::<bool, String>(e)) || p.failure_saved == Some(
                Err::<(), String>(e),
            ) || p.failures_reset == Some(Err::<(), String>(e)) || p.totp == Some(
                Err::<Option<TotpSecret>, String>(e),
            ) || p.sso_created == Some(Err::<(), String>(e)),
        },
{
}

/// A ticket handed out for an outstanding code admits, for five minutes and in its tenant, the very
/// user whose password was right.
pub proof fn a_handed_ticket_admits_its_user(
    svc: PortalLoginService,
    tenant: TenantContext,
    cmd: PortalLoginCommand,
    ctx: RequestContext,
    draw: PortalDraw,
    p: PortalProgress,
    ticket: String,
    trade: PortalMfaCommand,
    later_ctx: RequestContext,
    later: PortalDraw,
    q: PortalProgress,
    r: PortalStep<PortalMfaOutcome>,
)
    requires
        call_ensures(
            PortalLoginService::login,
            (&svc, &tenant, &cmd, &ctx, &draw, &p),
            PortalStep::Done(PortalLoginOutcome::MfaRequired { mfa_ticket: ticket }),
        ),
        trade.mfa_ticket@ == ticket@,
        later.now.unix_seconds() <= draw.now.unix_seconds() + 300,
        call_ensures(
            PortalLoginService::verify_mfa,
            (&svc, &tenant, &trade, &later_ctx, &later, &q),
            r,
        ),
        later_ctx.ip_address is None || q.rate_allowed == Some(true),
        q.user is None,
    ensures
        p.user matches Some(Ok(Some(user))) && r == PortalStep::<PortalMfaOutcome>::Call(
            PortalCall::FindUserById { user_id: user.id },
        ),
{
}

/// A ticket handed out after a change of password admits, for five minutes and in its tenant, the very
/// user whose password was changed.
pub proof fn a_ticket_after_a_change_admits_its_user(
    svc: PortalLoginService,
    tenant: TenantContext,
    cmd: PortalChangePasswordCommand,
    ctx: RequestContext,
    draw: PortalDraw,
    p: PortalProgress,
    ticket: String,
    trade: PortalMfaCommand,
    later_ctx: RequestContext,
    later: PortalDraw,
    q: PortalProgress,
    r: PortalStep<PortalMfaOutcome>,
)
    requires
        call_ensures(
            PortalLoginService::change_password,
            (&svc, &tenant, &cmd, &ctx, &draw, &p),
            PortalStep::Done(PortalChangePasswordOutcome::MfaRequired { mfa_ticket: ticket }),
        ),
        trade.mfa_ticket@ == ticket@,
        later.now.unix_seconds() <= draw.now.unix_seconds() + 300,
        call_ensures(
            PortalLoginService::verify_mfa,
            (&svc, &tenant, &trade, &later_ctx, &later, &q),
            r,
        ),
        later_ctx.ip_address is None || q.rate_allowed == Some(true),
        q.user is None,
    ensures
        p.user matches Some(Ok(Some(user))) && r == PortalStep::<PortalMfaOutcome>::Call(
            PortalCall::FindUserById { user_id: user.id },
        ),
        p.password_updated matches Some(Ok(_)),
{
}

/// Every call of a change of password is about the name and the passwords that were sent and the user
/// found under that name: the current password is held against that user's hash, and what is stored is
/// what the new password has yielded.
pub proof fn a_change_is_about_its_user(
    svc: PortalLoginService,
    tenant: TenantContext,
    cmd: PortalChangePasswordCommand,
    ctx: RequestContext,
    draw: PortalDraw,
    p: PortalProgress,
    r: PortalStep<PortalChangePasswordOutcome>,
)
    requires
        call_ensures(
            PortalLoginService::change_password,
            (&svc, &tenant, &cmd, &ctx, &draw, &p),
            r,
        ),
    ensures
        match r {
            PortalStep::Call(PortalCall::CheckRate { ip_address, now }) => ctx.ip_address == Some(
                ip_address,
            ) && now == draw.now,
            PortalStep::Call(PortalCall::FindUser { tenant_id, username }) => tenant_id
                == tenant.tenant_id && username == cmd.username,
            PortalStep::Call(PortalCall::VerifyPassword { password, password_hash }) => password
                == cmd.current_password && (p.user matches Some(Ok(Some(user))) && password_hash
                == user.password_hash && user.must_change_password),
            PortalStep::Call(PortalCall::ReadClock) => p.password == Some(Ok::<bool, String>(false)),
            PortalStep::Call(
                PortalCall::UpdateLoginState { user_id, failed_login_count, locked_until },
            ) => p.user matches Some(Ok(Some(user))) && counts(
                user,
                p,
                user_id,
                failed_login_count,
                locked_until,
            ) && p.password is Some,
            PortalStep::Call(PortalCall::HashPassword { password }) => password == cmd.new_password
                && cmd.new_password@.len() >= 8 && p.password == Some(Ok::<bool, String>(true)),
            PortalStep::Call(PortalCall::UpdatePassword { user_id, password_hash }) => p.new_hash
                == Some(Ok::<String, String>(password_hash)) && (p.user matches Some(Ok(Some(user)))
                && user_id == user.id) && p.password == Some(Ok::<bool, String>(true)),
            PortalStep::Call(PortalCall::FindTotp { user_id }) => (p.user matches Some(
                Ok(Some(user)),
            ) && user_id == user.id) && (p.password_updated matches Some(Ok(_))),
            PortalStep::Call(PortalCall::CreateSso(g)) => p.user matches Some(Ok(Some(user)))
                && signs_on(svc, user.id, ctx, draw, g) && (p.password_updated matches Some(Ok(_))),
            PortalStep::Call(PortalCall::Audit(a)) => a.tenant_id == Some(tenant.tenant_id)
                && a.client_id is None && (a.user_id matches Some(id) ==> (p.user matches Some(
                Ok(Some(user)),
            ) && id == user.id)) && match a.result {
                AuditResult::Success => a.user_id is Some && a.reason is None && (
                p.password_updated matches Some(Ok(_))) && ((a.event
                    == AuditEventType::PasswordChanged && p.audits == 0) || ((
                p.sso_created matches Some(Ok(_))) && ((a.event == AuditEventType::SsoSessionCreated
                    && p.audits == 1) || (a.event == AuditEventType::LoginSucceeded && p.audits
                    == 2)))),
                AuditResult::Failure => match a.reason {
                    Some(AuditReason::IpRateLimited) => a.event == AuditEventType::LoginFailed
                        && a.user_id is None && p.rate_allowed == Some(false),
                    Some(AuditReason::InvalidPassword) => a.event == AuditEventType::LoginFailed
                        && a.user_id is Some && p.password == Some(Ok::<bool, String>(false)),
                    Some(AuditReason::TooManyFailures) => a.event == AuditEventType::LoginLocked
                        && a.user_id is Some && p.password == Some(Ok::<bool, String>(false))
                        && p.user->0->Ok_0->0.failed_login_count >= 9,
                    Some(AuditReason::EmailNotVerified) => a.event == AuditEventType::LoginFailed
                        && a.user_id is Some && !p.user->0->Ok_0->0.email_verified,
                    _ => false,
                },
            },
            PortalStep::Call(_) => false,
            PortalStep::Done(
                PortalChangePasswordOutcome::Success { sso_session_id, user_language },
            ) => sso_session_id == draw.sso_session_id && (p.user matches Some(Ok(Some(user)))
                && user_language == user.language) && (p.sso_created matches Some(Ok(_))) && (
            p.password_updated matches Some(Ok(_))) && p.audits >= 3,
            PortalStep::Done(PortalChangePasswordOutcome::MfaRequired { .. }) => (
            p.totp matches Some(Ok(Some(secret))) && secret.confirmed_at is Some) && (
            p.password_updated matches Some(Ok(_))),
            PortalStep::Done(PortalChangePasswordOutcome::EmailVerificationRequired) =>
            p.user matches Some(Ok(Some(user))) && !user.email_verified,
            PortalStep::Done(PortalChangePasswordOutcome::RateLimited) => ctx.ip_address is Some
                && p.rate_allowed == Some(false),
            PortalStep::Done(PortalChangePasswordOutcome::InvalidCredentials) =>
            p.user matches Some(Ok(found)) && (found matches Some(user) ==> user.status
                != UserStatus::Active || !user.must_change_password || p.password == Some(
                Ok::<bool, String>(false),
            )),
            PortalStep::Done(PortalChangePasswordOutcome::Locked) => p.user matches Some(
                Ok(Some(user)),
            ) && ((user.locked_until matches Some(until) && draw.now.nanos < until.nanos) || (
            p.password == Some(Ok::<bool, String>(false)) && user.failed_login_count >= 9)),
            PortalStep::Done(PortalChangePasswordOutcome::WeakPassword) => cmd.new_password@.len() < 8
                && p.password == Some(Ok::<bool, String>(true)),
            PortalStep::Done(PortalChangePasswordOutcome::Internal(e)) => p.user == Some(
                Err::<Option<User>, String>(e),
            ) || p.password == Some(Err::<bool, String>(e)) || p.failure_saved == Some(
                Err::<(), String>(e),
            ) || p.new_hash == Some(Err::<String, String>(e)) || p.password_updated == Some(
                Err::<(), String>(e),
            ) || p.failures_reset == Some(Err::<(), String>(e)) || p.totp == Some(
                Err::<Option<TotpSecret>, String>(e),
            ) || p.sso_created == Some(Err::<(), String>(e)),
        },
{
}

/// Every call for a ticket and a code is about the user whom the ticket admits and the code that was
/// sent; and each way it ends has its cause.
pub proof fn a_ticket_is_traded_for_its_user(
    svc: PortalLoginService,
    tenant: TenantContext,
    cmd: PortalMfaCommand,
    ctx: RequestContext,
    draw: PortalDraw,
    p: PortalProgress,
    r: PortalStep<PortalMfaOutcome>,
)
    requires
        call_ensures(PortalLoginService::verify_mfa, (&svc, &tenant, &cmd, &ctx, &draw, &p), r),
        p.password is None,
    ensures
        match r {
            PortalStep::Call(PortalCall::CheckRate { ip_address, now }) => ctx.ip_address == Some(
                ip_address,
            ) && now == draw.now,
            PortalStep::Call(PortalCall::FindUserById { user_id }) => svc.admits(
                tenant.tenant_id,
                cmd.mfa_ticket@,
                draw.now,
            ) == Some(user_id.value),
            PortalStep::Call(PortalCall::FindTotp { user_id }) => svc.admits(
                tenant.tenant_id,
                cmd.mfa_ticket@,
                draw.now,
            ) == Some(user_id.value),
            PortalStep::Call(
                PortalCall::VerifyTotp { secret_encrypted, key_encryption_key, code },
            ) => code == cmd.totp_code && key_encryption_key == svc.key_encryption_key && (
            p.totp matches Some(Ok(Some(secret))) && secret.confirmed_at is Some && secret_encrypted
                == secret.secret_encrypted),
            PortalStep::Call(
                PortalCall::UpdateLoginState { user_id, failed_login_count, locked_until },
            ) => p.user matches Some(Ok(Some(user))) && counts(
                user,
                p,
                user_id,
                failed_login_count,
                locked_until,
            ) && p.totp_matches == Some(Ok::<bool, String>(true)),
            PortalStep::Call(PortalCall::CreateSso(g)) => p.user matches Some(Ok(Some(user)))
                && signs_on(svc, user.id, ctx, draw, g) && p.totp_matches == Some(
                Ok::<bool, String>(true),
            ),
            PortalStep::Call(PortalCall::Audit(a)) => a.tenant_id == Some(tenant.tenant_id)
                && a.client_id is None && match a.result {
                AuditResult::Success => a.reason is None && (p.user matches Some(Ok(Some(user)))
                    && a.user_id == Some(user.id)) && (p.sso_created matches Some(Ok(_))) && ((
                a.event == AuditEventType::SsoSessionCreated && p.audits == 0) || (a.event
                    == AuditEventType::LoginSucceeded && p.audits == 1)),
                AuditResult::Failure => a.event == AuditEventType::LoginFailed && a.reason == Some(
                    AuditReason::InvalidTotp,
                ) && p.totp_matches == Some(Ok::<bool, String>(false)) && (a.user_id matches Some(id)
                    && svc.admits(tenant.tenant_id, cmd.mfa_ticket@, draw.now) == Some(id.value)),
            },
            PortalStep::Call(_) => false,
            PortalStep::Done(PortalMfaOutcome::Success { sso_session_id, user_language }) =>
            sso_session_id == draw.sso_session_id && (p.user matches Some(Ok(Some(user)))
                && user_language == user.language) && (p.sso_created matches Some(Ok(_)))
                && p.audits >= 2,
            PortalStep::Done(PortalMfaOutcome::InvalidCode) => p.totp_matches == Some(
                Ok::<bool, String>(false),
            ) && p.audits > 0,
            PortalStep::Done(PortalMfaOutcome::TicketExpired) => svc.admits(
                tenant.tenant_id,
                cmd.mfa_ticket@,
                draw.now,
            ) is None || (p.user matches Some(Ok(found)) && (found matches Some(user) ==> user.status
                != UserStatus::Active || (user.locked_until matches Some(until) && draw.now.nanos
                < until.nanos) || (p.totp matches Some(Ok(secret)) && (secret matches Some(s)
                ==> s.confirmed_at is None)))),
            PortalStep::Done(PortalMfaOutcome::RateLimited) => ctx.ip_address is Some
                && p.rate_allowed == Some(false),
            PortalStep::Done(PortalMfaOutcome::Internal(e)) => p.user == Some(
                Err::<Option<User>, String>(e),
            ) || p.totp == Some(Err::<Option<TotpSecret>, String>(e)) || p.totp_matches == Some(
                Err::<bool, String>(e),
            ) || p.failures_reset == Some(Err::<(), String>(e)) || p.sso_created == Some(
                Err::<(), String>(e),
            ),
        },
{
}

/// A right password of an account in order, with every call answered in its favour, signs its user on.
pub proof fn a_portal_login_in_order_succeeds(
    svc: PortalLoginService,
    tenant: TenantContext,
    cmd: PortalLoginCommand,
    ctx: RequestContext,
    draw: PortalDraw,
    p: PortalProgress,
    user: User,
    r: PortalStep<PortalLoginOutcome>,
)
    requires
        call_ensures(PortalLoginService::login, (&svc, &tenant, &cmd, &ctx, &draw, &p), r),
        ctx.ip_address is None || p.rate_allowed == Some(true),
        p.user == Some(Ok::<Option<User>, String>(Some(user))),
        user.locked_until is None,
        user.status == UserStatus::Active,
        user.email_verified,
        !user.must_change_password,
        p.password == Some(Ok::<bool, String>(true)),
        p.totp == Some(Ok::<Option<TotpSecret>, String>(None)),
        p.failures_reset == Some(Ok::<(), String>(())),
        p.sso_created == Some(Ok::<(), String>(())),
        p.audits == 2,
    ensures
        r matches PortalStep::Done(
            PortalLoginOutcome::Success { sso_session_id, user_language },
        ) && sso_session_id == draw.sso_session_id && user_language == user.language,
{
}

/// A service keeps each of its keys and spans for what it was given for.
pub proof fn a_portal_service_is_made_of_what_it_is_given(
    key_encryption_key: [u8; 32],
    ticket_secret: [u8; 32],
    sso_idle_ttl: Span,
    sso_absolute_ttl: Span,
    svc: PortalLoginService,
)
    requires
        call_ensures(
            PortalLoginService::new,
            (key_encryption_key, ticket_secret, sso_idle_ttl, sso_absolute_ttl),
            svc,
        ),
    ensures
        svc.key_encryption_key == key_encryption_key,
        svc.ticket_secret == ticket_secret,
        svc.sso_idle_ttl == sso_idle_ttl,
        svc.sso_absolute_ttl == sso_absolute_ttl,
{
}

/// A ticket handed out for an outstanding code is good for five minutes and no longer.
pub proof fn a_handed_ticket_runs_out(
    svc: PortalLoginService,
    tenant: TenantContext,
    cmd: PortalLoginCommand,
    ctx: RequestContext,
    draw: PortalDraw,
    p: PortalProgress,
    ticket: String,
    trade: PortalMfaCommand,
    later_ctx: RequestContext,
    later: PortalDraw,
    q: PortalProgress,
    r: PortalStep<PortalMfaOutcome>,
)
    requires
        call_ensures(
            PortalLoginService::login,
            (&svc, &tenant, &cmd, &ctx, &draw, &p),
            PortalStep::Done(PortalLoginOutcome::MfaRequired { mfa_ticket: ticket }),
        ),
        trade.mfa_ticket@ == ticket@,
        draw.now.wf(),
        later.now.unix_seconds() > draw.now.unix_seconds() + 300,
        call_ensures(
            PortalLoginService::verify_mfa,
            (&svc, &tenant, &trade, &later_ctx, &later, &q),
            r,
        ),
        later_ctx.ip_address is None || q.rate_allowed == Some(true),
    ensures
        r == PortalStep::Done(PortalMfaOutcome::TicketExpired),
{
    let user = p.user->0->Ok_0->0;
    let exp: int = draw.now.unix_seconds() + MFA_TICKET_TTL_SECS;
    vstd::arithmetic::div_mod::lemma_fundamental_div_mod(draw.now.nanos as int, 1_000_000_000);
    assert(i64::MIN <= exp <= i64::MAX);
    an_expired_ticket_admits_no_one(
        svc.ticket_secret@,
        svc.ticket_secret@,
        Uuid { value: tenant.tenant_id.value },
        user.id,
        exp as i64,
        later.now.unix_seconds(),
    );
}

} // verus!
