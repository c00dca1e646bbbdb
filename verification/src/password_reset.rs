//! Resetting a forgotten password by mail.
//!
//! A request is answered alike whether or not there is an account. A token is kept as its hash,
//! serves once, and every request makes the former ones void. A reset ends every sign-on and
//! voids every token of the user.
use crate::audit::{AuditEventType, AuditRecord, AuditResult};
use crate::crypto::{sha256_hex, sha256_hex_of, uuid_text, uuid_text_of};
use crate::mail::{OutgoingEmail, SmtpServerConfig};
use crate::model::{Reply, RequestContext, TenantContext, TenantId, User, UserStatus, Uuid};
use crate::password_strength::{strong_enough, validate_password_strength};
use crate::text::{part, trim, trimmed};
use crate::time::{Span, Timestamp};
use vstd::prelude::*;

verus! {

/// How many random bytes a token is made of.
pub const RESET_TOKEN_BYTES: usize = 32;

#[derive(Clone, Copy, Debug, PartialEq, Eq, Structural)]
pub enum RequestResetOutcome {
    /// Accepted: if there is an account, a mail is under way.
    Accepted,
    /// No mail can be sent at all.
    Unavailable,
    RateLimited,
}

pub enum ResetPasswordOutcome {
    /// The password was replaced.
    Completed,
    InvalidOrExpired,
    WeakPassword,
    Internal(String),
}

pub struct PasswordResetToken {
    pub token_hash: String,
    pub user_id: Uuid,
    pub expires_at: Timestamp,
    pub used_at: Option<Timestamp>,
    pub created_at: Timestamp,
}

/// What was drawn for a request.
pub struct ResetDraw {
    /// When the request came in.
    pub asked_at: Timestamp,
    /// When the token is made.
    pub now: Timestamp,
    pub token: String,
}

/// What is known of a request so far.
#[derive(Default)]
pub struct RequestProgress {
    pub rate_allowed: Option<bool>,
    pub server: Reply<Option<SmtpServerConfig>>,
    pub user: Reply<Option<User>>,
    pub former_voided: Reply<()>,
    pub token_stored: Reply<()>,
    pub audits: usize,
    /// Whether sending was tried; its failure does not matter.
    pub sent: bool,
}

pub enum RequestStep {
    CheckRate { key: String, now: Timestamp },
    FindSmtpServer,
    FindUser { tenant_id: TenantId, email: String },
    VoidFormerTokens { user_id: Uuid, now: Timestamp },
    StoreToken(PasswordResetToken),
    Audit(AuditRecord),
    Send { server: SmtpServerConfig, mail: OutgoingEmail },
    Done(RequestResetOutcome),
}

/// What is known of a reset so far.
#[derive(Default)]
pub struct ResetProgress {
    /// The owner of the token that was used up.
    pub consumed: Reply<Option<Uuid>>,
    pub user: Reply<Option<User>>,
    pub new_hash: Reply<String>,
    pub password_updated: Reply<()>,
    /// Whether each of these was tried; a failure does not matter.
    pub sso_ended: bool,
    pub refresh_revoked: bool,
    pub codes_revoked: bool,
    pub audits: usize,
}

pub enum ResetStep {
    ConsumeToken { token_hash: String, now: Timestamp },
    FindUser { user_id: Uuid },
    HashPassword { password: String },
    UpdatePassword { user_id: Uuid, password_hash: String },
    EndSsoSessions { user_id: Uuid },
    RevokeRefreshTokens { user_id: Uuid, now: Timestamp },
    RevokeCodes { user_id: Uuid, now: Timestamp },
    Audit(AuditRecord),
    Done(ResetPasswordOutcome),
}

pub struct PasswordResetService {
    pub reset_ttl: Span,
    /// Where the pages are, without a slash at the end.
    pub console_base_url: String,
}

/// `s` without slashes at its end.
pub open spec fn without_slashes(s: Seq<char>) -> Seq<char>
    decreases s.len(),
{
    if s.len() > 0 && s.last() == '/' {
        without_slashes(s.drop_last())
    } else {
        s
    }
}

fn trim_slashes(s: &str) -> (r: String)
    ensures
        r@ == without_slashes(s@),
{
    let n: usize = s.unicode_len();
    let mut end: usize = n;
    proof {
        assert(s@.subrange(0, n as int) =~= s@);
    }
    while end > 0 && s.get_char(end - 1) == '/'
        invariant
            n == s@.len(),
            end <= n,
            without_slashes(s@) == without_slashes(s@.subrange(0, end as int)),
        decreases end,
    {
        proof {
            let rest = s@.subrange(0, end as int);
            assert(rest.drop_last() =~= s@.subrange(0, end - 1));
        }
        end = end - 1;
    }
    part(s, 0, end)
}

/// The subject of the mail.
pub open spec fn mail_subject() -> Seq<char> {
    "パスワード再設定のご案内 / Password reset"@
}

/// The text of the mail: what to do with the link, and until when.
pub open spec fn mail_body(url: Seq<char>, expires_at: Seq<char>) -> Seq<char> {
    "パスワード再設定の要求を受け付けました。\n次のリンクを開いて新しいパスワードを設定してください。\n心当たりがない場合は、このメールを破棄してください。\n\nA password reset was requested for your account.\nOpen the link below to set a new password.\nIf you did not request this, you can safely ignore this email.\n\n"@
        + url + "\n\n有効期限 / Expires at: "@ + expires_at + "\n"@
}

impl PasswordResetService {
    pub fn new(reset_ttl: Span, console_base_url: String) -> (r: Self)
        ensures
            r.reset_ttl == reset_ttl,
            r.console_base_url@ == without_slashes(console_base_url@),
    {
        PasswordResetService {
            reset_ttl,
            console_base_url: trim_slashes(console_base_url.as_str()),
        }
    }

    /// The link that a mail carries.
    pub open spec fn reset_url_of(self, tenant_id: TenantId, token: Seq<char>) -> Seq<char> {
        self.console_base_url@ + "/"@ + uuid_text_of(tenant_id.value) + "/password-reset?token="@
            + token
    }

    fn reset_url(&self, tenant_id: TenantId, token: &str) -> (r: String)
        ensures
            r@ == self.reset_url_of(tenant_id, token@),
    {
        let mut out: String = self.console_base_url.clone();
        out.append("/");
        let id: String = uuid_text(tenant_id.value);
        out.append(id.as_str());
        out.append("/password-reset?token=");
        out.append(token);
        out
    }

    /// The token that is stored: the hash of what was drawn, for the user, with its end.
    pub open spec fn stores_token(
        self,
        t: PasswordResetToken,
        user: User,
        draw: ResetDraw,
    ) -> bool {
        &&& t.token_hash@ == sha256_hex_of(draw.token@)
        &&& t.user_id == user.id
        &&& t.expires_at == draw.now.later(self.reset_ttl)
        &&& t.used_at is None
        &&& t.created_at == draw.now
    }

    /// There is an account: former tokens are voided, a new one is stored, the request is audited
    /// and the mail is sent. Whatever fails, the answer is the same.
    pub open spec fn mail_rule(
        self,
        tenant: TenantContext,
        draw: ResetDraw,
        p: RequestProgress,
        server: SmtpServerConfig,
        user: User,
        r: RequestStep,
    ) -> bool {
        match p.former_voided {
            None => r == (RequestStep::VoidFormerTokens { user_id: user.id, now: draw.now }),
            Some(Err(_)) => r == RequestStep::Done(RequestResetOutcome::Accepted),
            Some(Ok(_)) => match p.token_stored {
                None => r matches RequestStep::StoreToken(t) && self.stores_token(t, user, draw),
                Some(Err(_)) => r == RequestStep::Done(RequestResetOutcome::Accepted),
                Some(Ok(_)) => if p.audits == 0 {
                    r == RequestStep::Audit(
                        AuditRecord {
                            event: AuditEventType::PasswordResetRequested,
                            result: AuditResult::Success,
                            tenant_id: Some(user.tenant_id),
                            user_id: Some(user.id),
                            client_id: None,
                            reason: None,
                        },
                    )
                } else if !p.sent {
                    r matches RequestStep::Send { server: s, mail } && s == server && mail.to
                        == user.email && mail.subject@ == mail_subject() && mail.body_text@
                        == mail_body(
                        self.reset_url_of(tenant.tenant_id, draw.token@),
                        draw.now.later(self.reset_ttl).rfc3339_text_of(),
                    )
                } else {
                    r == RequestStep::Done(RequestResetOutcome::Accepted)
                },
            },
        }
    }

    /// What comes next in a request of which `p` is known.
    pub open spec fn request_reset_rule(
        self,
        tenant: TenantContext,
        email: Seq<char>,
        ctx: RequestContext,
        draw: ResetDraw,
        p: RequestProgress,
        r: RequestStep,
    ) -> bool {
        match p.rate_allowed {
            None => r matches RequestStep::CheckRate { key, now } && now == draw.asked_at && key@
                == match ctx.ip_address {
                Some(ip) => ip@,
                None => "unknown"@,
            },
            Some(false) => r == RequestStep::Done(RequestResetOutcome::RateLimited),
            Some(true) => match p.server {
                None => r == RequestStep::FindSmtpServer,
                Some(Err(_)) => r == RequestStep::Done(RequestResetOutcome::Unavailable),
                Some(Ok(None)) => r == RequestStep::Done(RequestResetOutcome::Unavailable),
                Some(Ok(Some(server))) => match p.user {
                    None => r matches RequestStep::FindUser { tenant_id, email: e } && tenant_id
                        == tenant.tenant_id && e@ == trimmed(email),
                    Some(Err(_)) => r == RequestStep::Done(RequestResetOutcome::Accepted),
                    Some(Ok(found)) => if !(found matches Some(u) && u.active()) {
                        r == RequestStep::Done(RequestResetOutcome::Accepted)
                    } else {
                        self.mail_rule(tenant, draw, p, server, found->0, r)
                    },
                },
            },
        }
    }

    fn mail(
        &self,
        tenant: &TenantContext,
        draw: &ResetDraw,
        p: &RequestProgress,
        server: &SmtpServerConfig,
        user: &User,
    ) -> (r: RequestStep)
        requires
            draw.now.can_add(self.reset_ttl),
        ensures
            self.mail_rule(*tenant, *draw, *p, *server, *user, r),
    {
        match &p.former_voided {
            None => return RequestStep::VoidFormerTokens { user_id: user.id, now: draw.now },
            Some(Err(_)) => return RequestStep::Done(RequestResetOutcome::Accepted),
            Some(Ok(_)) => {},
        }
        let expires_at: Timestamp = draw.now.plus(self.reset_ttl);
        match &p.token_stored {
            None => return RequestStep::StoreToken(
                PasswordResetToken {
                    token_hash: sha256_hex(draw.token.as_str()),
                    user_id: user.id,
                    expires_at,
                    used_at: None,
                    created_at: draw.now,
                },
            ),
            Some(Err(_)) => return RequestStep::Done(RequestResetOutcome::Accepted),
            Some(Ok(_)) => {},
        }
        if p.audits == 0 {
            return RequestStep::Audit(
                AuditRecord {
                    event: AuditEventType::PasswordResetRequested,
                    result: AuditResult::Success,
                    tenant_id: Some(user.tenant_id),
                    user_id: Some(user.id),
                    client_id: None,
                    reason: None,
                },
            );
        }
        if p.sent {
            return RequestStep::Done(RequestResetOutcome::Accepted);
        }
        let url: String = self.reset_url(tenant.tenant_id, draw.token.as_str());
        let ends: String = expires_at.to_rfc3339();
        let mut body: String =
            "パスワード再設定の要求を受け付けました。\n次のリンクを開いて新しいパスワードを設定してください。\n心当たりがない場合は、このメールを破棄してください。\n\nA password reset was requested for your account.\nOpen the link below to set a new password.\nIf you did not request this, you can safely ignore this email.\n\n".to_owned();
        body.append(url.as_str());
        body.append("\n\n有効期限 / Expires at: ");
        body.append(ends.as_str());
        body.append("\n");
        RequestStep::Send {
            server: server.clone(),
            mail: OutgoingEmail {
                to: user.email.clone(),
                subject: "パスワード再設定のご案内 / Password reset".to_owned(),
                body_text: body,
            },
        }
    }

    /// Decides what comes next in a request of which `p` is known.
    pub fn request_reset(
        &self,
        tenant: &TenantContext,
        email: &str,
        ctx: &RequestContext,
        draw: &ResetDraw,
        p: &RequestProgress,
    ) -> (r: RequestStep)
        requires
            draw.now.can_add(self.reset_ttl),
        ensures
            self.request_reset_rule(*tenant, email@, *ctx, *draw, *p, r),
    {
        match p.rate_allowed {
            None => {
                let key: String = match &ctx.ip_address {
                    Some(ip) => ip.clone(),
                    None => "unknown".to_owned(),
                };
                return RequestStep::CheckRate { key, now: draw.asked_at };
            },
            Some(allowed) => if !allowed {
                return RequestStep::Done(RequestResetOutcome::RateLimited);
            },
        }
        let server: &SmtpServerConfig = match &p.server {
            None => return RequestStep::FindSmtpServer,
            Some(Err(_)) => return RequestStep::Done(RequestResetOutcome::Unavailable),
            Some(Ok(None)) => return RequestStep::Done(RequestResetOutcome::Unavailable),
            Some(Ok(Some(server))) => server,
        };
        let user: &User = match &p.user {
            None => return RequestStep::FindUser { tenant_id: tenant.tenant_id, email: trim(email) },
            Some(Err(_)) => return RequestStep::Done(RequestResetOutcome::Accepted),
            Some(Ok(None)) => return RequestStep::Done(RequestResetOutcome::Accepted),
            Some(Ok(Some(user))) => user,
        };
        if !user.is_active() {
            return RequestStep::Done(RequestResetOutcome::Accepted);
        }
        self.mail(tenant, draw, p, server, user)
    }

    /// What comes next in a reset of which `p` is known: a weak password does not use the token up;
    /// the token's owner must be an active user of this tenant; then the password is replaced, and
    /// everything that was granted before is taken back.
    pub open spec fn reset_password_rule(
        self,
        tenant: TenantContext,
        token: Seq<char>,
        new_password: String,
        now: Timestamp,
        p: ResetProgress,
        r: ResetStep,
    ) -> bool {
        if token.len() == 0 {
            r == ResetStep::Done(ResetPasswordOutcome::InvalidOrExpired)
        } else if !strong_enough(new_password@) {
            r == ResetStep::Done(ResetPasswordOutcome::WeakPassword)
        } else {
            match p.consumed {
                None => r matches ResetStep::ConsumeToken { token_hash, now: at } && token_hash@
                    == sha256_hex_of(token) && at == now,
                Some(Err(e)) => r == ResetStep::Done(ResetPasswordOutcome::Internal(e)),
                Some(Ok(None)) => r == ResetStep::Done(ResetPasswordOutcome::InvalidOrExpired),
                Some(Ok(Some(owner))) => match p.user {
                    None => r == (ResetStep::FindUser { user_id: owner }),
                    Some(Err(e)) => r == ResetStep::Done(ResetPasswordOutcome::Internal(e)),
                    Some(Ok(found)) => if !(found matches Some(u) && u.active() && u.tenant_id
                        == tenant.tenant_id) {
                        r == ResetStep::Done(ResetPasswordOutcome::InvalidOrExpired)
                    } else {
                        match p.new_hash {
                            None => r == (ResetStep::HashPassword { password: new_password }),
                            Some(Err(e)) => r == ResetStep::Done(ResetPasswordOutcome::Internal(e)),
                            Some(Ok(hash)) => match p.password_updated {
                                None => r == (ResetStep::UpdatePassword {
                                    user_id: found->0.id,
                                    password_hash: hash,
                                }),
                                Some(Err(e)) => r == ResetStep::Done(
                                    ResetPasswordOutcome::Internal(e),
                                ),
                                Some(Ok(_)) => if !p.sso_ended {
                                    r == (ResetStep::EndSsoSessions { user_id: found->0.id })
                                } else if !p.refresh_revoked {
                                    r == (ResetStep::RevokeRefreshTokens {
                                        user_id: found->0.id,
                                        now,
                                    })
                                } else if !p.codes_revoked {
                                    r == (ResetStep::RevokeCodes { user_id: found->0.id, now })
                                } else if p.audits == 0 {
                                    r == ResetStep::Audit(
                                        AuditRecord {
                                            event: AuditEventType::PasswordResetCompleted,
                                            result: AuditResult::Success,
                                            tenant_id: Some(found->0.tenant_id),
                                            user_id: Some(found->0.id),
                                            client_id: None,
                                            reason: None,
                                        },
                                    )
                                } else {
                                    r == ResetStep::Done(ResetPasswordOutcome::Completed)
                                },
                            },
                        }
                    },
                },
            }
        }
    }

    /// Decides what comes next in a reset of which `p` is known.
    pub fn reset_password(
        &self,
        tenant: &TenantContext,
        token: &str,
        new_password: &String,
        now: Timestamp,
        p: &ResetProgress,
    ) -> (r: ResetStep)
        ensures
            self.reset_password_rule(*tenant, token@, *new_password, now, *p, r),
    {
        if token.is_empty() {
            return ResetStep::Done(ResetPasswordOutcome::InvalidOrExpired);
        }
        if validate_password_strength(new_password.as_str()).is_err() {
            return ResetStep::Done(ResetPasswordOutcome::WeakPassword);
        }
        let owner: Uuid = match &p.consumed {
            None => return ResetStep::ConsumeToken { token_hash: sha256_hex(token), now },
            Some(Err(e)) => return ResetStep::Done(ResetPasswordOutcome::Internal(e.clone())),
            Some(Ok(None)) => return ResetStep::Done(ResetPasswordOutcome::InvalidOrExpired),
            Some(Ok(Some(owner))) => *owner,
        };
        let user: &User = match &p.user {
            None => return ResetStep::FindUser { user_id: owner },
            Some(Err(e)) => return ResetStep::Done(ResetPasswordOutcome::Internal(e.clone())),
            Some(Ok(None)) => return ResetStep::Done(ResetPasswordOutcome::InvalidOrExpired),
            Some(Ok(Some(user))) => user,
        };
        if !user.is_active() || user.tenant_id != tenant.tenant_id {
            return ResetStep::Done(ResetPasswordOutcome::InvalidOrExpired);
        }
        let hash: &String = match &p.new_hash {
            None => return ResetStep::HashPassword { password: new_password.clone() },
            Some(Err(e)) => return ResetStep::Done(ResetPasswordOutcome::Internal(e.clone())),
            Some(Ok(hash)) => hash,
        };
        match &p.password_updated {
            None => return ResetStep::UpdatePassword {
                user_id: user.id,
                password_hash: hash.clone(),
            },
            Some(Err(e)) => return ResetStep::Done(ResetPasswordOutcome::Internal(e.clone())),
            Some(Ok(_)) => {},
        }
        if !p.sso_ended {
            return ResetStep::EndSsoSessions { user_id: user.id };
        }
        if !p.refresh_revoked {
            return ResetStep::RevokeRefreshTokens { user_id: user.id, now };
        }
        if !p.codes_revoked {
            return ResetStep::RevokeCodes { user_id: user.id, now };
        }
        if p.audits == 0 {
            return ResetStep::Audit(
                AuditRecord {
                    event: AuditEventType::PasswordResetCompleted,
                    result: AuditResult::Success,
                    tenant_id: Some(user.tenant_id),
                    user_id: Some(user.id),
                    client_id: None,
                    reason: None,
                },
            );
        }
        ResetStep::Done(ResetPasswordOutcome::Completed)
    }
}

/// Where mail can be sent and the limiter lets pass, a request is answered alike, whatever is known
/// of the account: that there is none, that it is not active, or that anything failed.
pub proof fn a_request_betrays_no_account(
    svc: PasswordResetService,
    tenant: TenantContext,
    email: Seq<char>,
    ctx: RequestContext,
    draw: ResetDraw,
    p: RequestProgress,
    outcome: RequestResetOutcome,
)
    requires
        svc.request_reset_rule(tenant, email, ctx, draw, p, RequestStep::Done(outcome)),
        p.rate_allowed matches Some(true),
        p.server matches Some(Ok(Some(_))),
    ensures
        outcome == RequestResetOutcome::Accepted,
{
}

/// A new token is stored, and mailed, only once every former one of the user is void.
pub proof fn a_new_token_voids_the_former_ones(
    svc: PasswordResetService,
    tenant: TenantContext,
    email: Seq<char>,
    ctx: RequestContext,
    draw: ResetDraw,
    p: RequestProgress,
    r: RequestStep,
)
    requires
        svc.request_reset_rule(tenant, email, ctx, draw, p, r),
        r is StoreToken || r is Send,
    ensures
        p.former_voided matches Some(Ok(_)),
        p.user matches Some(Ok(Some(u))) && u.active(),
{
}

/// A weak password does not use the token up.
pub proof fn a_weak_password_keeps_the_token(
    svc: PasswordResetService,
    tenant: TenantContext,
    token: Seq<char>,
    new_password: String,
    now: Timestamp,
    p: ResetProgress,
    r: ResetStep,
)
    requires
        svc.reset_password_rule(tenant, token, new_password, now, p, r),
        !strong_enough(new_password@),
    ensures
        r is Done,
{
}

/// A password is replaced only for the owner of a token that was used up, who must be an active
/// user of this tenant; and the reset is complete only after every sign-on, refresh token and code
/// of that user was taken back.
pub proof fn a_reset_takes_everything_back(
    svc: PasswordResetService,
    tenant: TenantContext,
    token: Seq<char>,
    new_password: String,
    now: Timestamp,
    p: ResetProgress,
    r: ResetStep,
)
    requires
        svc.reset_password_rule(tenant, token, new_password, now, p, r),
    ensures
        r is UpdatePassword ==> (p.consumed matches Some(Ok(Some(_)))) && (p.user matches Some(
            Ok(Some(u)),
        ) && u.active() && u.tenant_id == tenant.tenant_id) && strong_enough(new_password@),
        r matches ResetStep::Done(ResetPasswordOutcome::Completed) ==> p.password_updated matches Some(
            Ok(_),
        ),
        r matches ResetStep::Done(ResetPasswordOutcome::Completed) ==> p.sso_ended
            && p.refresh_revoked && p.codes_revoked,
{
}

impl RequestProgress {
    /// The call `step` asks for something that is not known yet.
    pub open spec fn lacks_answer_to(self, step: RequestStep) -> bool {
        match step {
            RequestStep::CheckRate { .. } => self.rate_allowed is None,
            RequestStep::FindSmtpServer => self.server is None,
            RequestStep::FindUser { .. } => self.user is None,
            RequestStep::VoidFormerTokens { .. } => self.former_voided is None,
            RequestStep::StoreToken(_) => self.token_stored is None,
            RequestStep::Audit(_) => self.audits < 1,
            RequestStep::Send { .. } => !self.sent,
            RequestStep::Done(_) => true,
        }
    }
}

/// Nothing is asked for that is known already: every call that comes next fills a gap.
pub proof fn a_request_asks_nothing_twice(
    svc: PasswordResetService,
    tenant: TenantContext,
    email: Seq<char>,
    ctx: RequestContext,
    draw: ResetDraw,
    p: RequestProgress,
    r: RequestStep,
)
    requires
        svc.request_reset_rule(tenant, email, ctx, draw, p, r),
    ensures
        p.lacks_answer_to(r),
{
}

impl ResetProgress {
    /// The call `step` asks for something that is not known yet.
    pub open spec fn lacks_answer_to(self, step: ResetStep) -> bool {
        match step {
            ResetStep::ConsumeToken { .. } => self.consumed is None,
            ResetStep::FindUser { .. } => self.user is None,
            ResetStep::HashPassword { .. } => self.new_hash is None,
            ResetStep::UpdatePassword { .. } => self.password_updated is None,
            ResetStep::EndSsoSessions { .. } => !self.sso_ended,
            ResetStep::RevokeRefreshTokens { .. } => !self.refresh_revoked,
            ResetStep::RevokeCodes { .. } => !self.codes_revoked,
            ResetStep::Audit(_) => self.audits < 1,
            ResetStep::Done(_) => true,
        }
    }
}

/// Nothing is asked for that is known already: every call that comes next fills a gap.
pub proof fn a_reset_asks_nothing_twice(
    svc: PasswordResetService,
    tenant: TenantContext,
    token: Seq<char>,
    new_password: String,
    now: Timestamp,
    p: ResetProgress,
    r: ResetStep,
)
    requires
        svc.reset_password_rule(tenant, token, new_password, now, p, r),
    ensures
        p.lacks_answer_to(r),
{
}

/// The link in the mail leads to the token that was stored: what a reset with the mailed token uses up
/// is what the request has stored, for the user the mail went to.
pub proof fn the_mailed_token_is_the_stored_one(
    svc: PasswordResetService,
    tenant: TenantContext,
    email: Seq<char>,
    ctx: RequestContext,
    draw: ResetDraw,
    storing: RequestProgress,
    t: PasswordResetToken,
    sending: RequestProgress,
    server: SmtpServerConfig,
    mail: OutgoingEmail,
    new_password: String,
    now: Timestamp,
    reset: ResetProgress,
    token_hash: String,
    at: Timestamp,
)
    requires
        svc.request_reset_rule(tenant, email, ctx, draw, storing, RequestStep::StoreToken(t)),
        svc.request_reset_rule(
            tenant,
            email,
            ctx,
            draw,
            sending,
            RequestStep::Send { server, mail },
        ),
        sending.user == storing.user,
        svc.reset_password_rule(
            tenant,
            draw.token@,
            new_password,
            now,
            reset,
            ResetStep::ConsumeToken { token_hash, now: at },
        ),
    ensures
        token_hash@ == t.token_hash@,
        at == now,
        storing.user matches Some(Ok(Some(user))) && t.user_id == user.id && mail.to == user.email,
        sending.server == Some(Ok::<Option<SmtpServerConfig>, String>(Some(server))),
        exists|before: Seq<char>, after: Seq<char>|
            mail.body_text@ == #[trigger] (before + (svc.console_base_url@ + "/"@ + uuid_text_of(
                tenant.tenant_id.value,
            ) + "/password-reset?token="@ + draw.token@) + after),
{
    let url = svc.console_base_url@ + "/"@ + uuid_text_of(tenant.tenant_id.value)
        + "/password-reset?token="@ + draw.token@;
    let until = draw.now.later(svc.reset_ttl).rfc3339_text_of();
    let before = "パスワード再設定の要求を受け付けました。\n次のリンクを開いて新しいパスワードを設定してください。\n心当たりがない場合は、このメールを破棄してください。\n\nA password reset was requested for your account.\nOpen the link below to set a new password.\nIf you did not request this, you can safely ignore this email.\n\n"@;
    let after = "\n\n有効期限 / Expires at: "@ + until + "\n"@;
    assert(mail.body_text@ =~= before + url + after);
}

/// Every call of a request for a reset is about the address that was given and the account found under
/// it; the token is good, unused, from now for as long as the service says.
pub proof fn a_request_is_about_its_account(
    svc: PasswordResetService,
    tenant: TenantContext,
    email: Seq<char>,
    ctx: RequestContext,
    draw: ResetDraw,
    p: RequestProgress,
    r: RequestStep,
)
    requires
        svc.request_reset_rule(tenant, email, ctx, draw, p, r),
    ensures
        match r {
            RequestStep::CheckRate { key, now } => now == draw.asked_at && (
            ctx.ip_address matches Some(ip) ==> key@ == ip@) && (ctx.ip_address is None ==> key@
                == "unknown"@),
            RequestStep::FindSmtpServer => p.rate_allowed == Some(true),
            RequestStep::FindUser { tenant_id, email: asked } => tenant_id == tenant.tenant_id
                && asked@ == trimmed(email),
            RequestStep::VoidFormerTokens { user_id, now } => now == draw.now && (
            p.user matches Some(Ok(Some(user))) && user_id == user.id && user.status
                == UserStatus::Active),
            RequestStep::StoreToken(t) => (p.user matches Some(Ok(Some(user))) && t.user_id == user.id
                && user.status == UserStatus::Active) && t.used_at is None && t.created_at
                == draw.now && (draw.now.wf() && svc.reset_ttl.wf() ==> t.expires_at.nanos
                == draw.now.nanos + svc.reset_ttl.nanos) && t.token_hash@ == sha256_hex_of(
                draw.token@,
            ),
            RequestStep::Audit(a) => a.event == AuditEventType::PasswordResetRequested && a.result
                == AuditResult::Success && a.client_id is None && a.reason is None && (
            p.user matches Some(Ok(Some(user))) && a.user_id == Some(user.id) && a.tenant_id == Some(
                user.tenant_id,
            )) && (p.token_stored matches Some(Ok(_))),
            RequestStep::Send { server, mail } => p.server == Some(
                Ok::<Option<SmtpServerConfig>, String>(Some(server)),
            ) && (p.user matches Some(Ok(Some(user))) && mail.to == user.email) && p.audits > 0 && (
            p.token_stored matches Some(Ok(_))),
            RequestStep::Done(RequestResetOutcome::RateLimited) => p.rate_allowed == Some(false),
            RequestStep::Done(RequestResetOutcome::Unavailable) => p.server matches Some(server) && !(
            server matches Ok(Some(_))),
            RequestStep::Done(RequestResetOutcome::Accepted) => p.rate_allowed == Some(true) && (
            p.server matches Some(Ok(Some(_)))),
        },
{
}

/// Every call of a reset is about the token that was sent, its owner and the new password; and each way
/// it ends has its cause.
pub proof fn a_reset_is_about_the_tokens_owner(
    svc: PasswordResetService,
    tenant: TenantContext,
    token: Seq<char>,
    new_password: String,
    now: Timestamp,
    p: ResetProgress,
    r: ResetStep,
)
    requires
        svc.reset_password_rule(tenant, token, new_password, now, p, r),
    ensures
        match r {
            ResetStep::ConsumeToken { token_hash, now: at } => token_hash@ == sha256_hex_of(token)
                && at == now && token.len() > 0 && new_password@.len() >= 8,
            ResetStep::FindUser { user_id } => p.consumed == Some(
                Ok::<Option<Uuid>, String>(Some(user_id)),
            ),
            ResetStep::HashPassword { password } => password == new_password && (
            p.user matches Some(Ok(Some(user))) && user.tenant_id == tenant.tenant_id && user.status
                == UserStatus::Active),
            ResetStep::UpdatePassword { user_id, password_hash } => (p.user matches Some(
                Ok(Some(user)),
            ) && user_id == user.id && user.tenant_id == tenant.tenant_id) && p.new_hash == Some(
                Ok::<String, String>(password_hash),
            ),
            ResetStep::EndSsoSessions { user_id } => (p.user matches Some(Ok(Some(user))) && user_id
                == user.id) && (p.password_updated matches Some(Ok(_))),
            ResetStep::RevokeRefreshTokens { user_id, now: at } => at == now && (
            p.user matches Some(Ok(Some(user))) && user_id == user.id) && (
            p.password_updated matches Some(Ok(_))),
            ResetStep::RevokeCodes { user_id, now: at } => at == now && (p.user matches Some(
                Ok(Some(user)),
            ) && user_id == user.id) && (p.password_updated matches Some(Ok(_))),
            ResetStep::Audit(a) => a.event == AuditEventType::PasswordResetCompleted && a.result
                == AuditResult::Success && a.client_id is None && a.reason is None && (
            p.user matches Some(Ok(Some(user))) && a.user_id == Some(user.id) && a.tenant_id == Some(
                tenant.tenant_id,
            )) && p.sso_ended && p.refresh_revoked && p.codes_revoked,
            ResetStep::Done(ResetPasswordOutcome::Completed) => (p.password_updated matches Some(
                Ok(_),
            )) && p.sso_ended && p.refresh_revoked && p.codes_revoked && p.audits > 0,
            ResetStep::Done(ResetPasswordOutcome::InvalidOrExpired) => token.len() == 0
                || p.consumed == Some(Ok::<Option<Uuid>, String>(None)) || (p.user matches Some(
                Ok(found),
            ) && (found matches Some(u) ==> u.status != UserStatus::Active || u.tenant_id
                != tenant.tenant_id)),
            ResetStep::Done(ResetPasswordOutcome::WeakPassword) => new_password@.len() < 8,
            ResetStep::Done(ResetPasswordOutcome::Internal(e)) => p.consumed == Some(
                Err::<Option<Uuid>, String>(e),
            ) || p.user == Some(Err::<Option<User>, String>(e)) || p.new_hash == Some(
                Err::<String, String>(e),
            ) || p.password_updated == Some(Err::<(), String>(e)),
        },
{
}

/// Slashes are cut off at the end of the base address and nowhere else.
pub proof fn only_slashes_are_cut_off(s: Seq<char>)
    ensures
        without_slashes(s).len() <= s.len(),
        s.subrange(0, without_slashes(s).len() as int) == without_slashes(s),
        forall|i: int| without_slashes(s).len() <= i < s.len() ==> s[i] == '/',
        without_slashes(s).len() > 0 ==> without_slashes(s).last() != '/',
    decreases s.len(),
{
    if s.len() > 0 && s.last() == '/' {
        only_slashes_are_cut_off(s.drop_last());
        let kept = without_slashes(s.drop_last());
        assert(s.subrange(0, kept.len() as int) =~= s.drop_last().subrange(0, kept.len() as int));
        assert forall|i: int| kept.len() <= i < s.len() implies s[i] == '/' by {
            if i < s.len() - 1 {
                assert(s.drop_last()[i] == '/');
            }
        }
    } else {
        assert(s.subrange(0, s.len() as int) =~= s);
    }
}

} // verus!
