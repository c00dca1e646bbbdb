//! The end of an authorization request whose user has been authenticated: consent, the
//! authorization code, and the removal of the request.
use crate::model::{
    id_hash, id_hash_of, AuthSession, ClientConsent, CodeChallengeMethod, Reply, TenantId, Uuid,
};
use crate::text::{same, views};
use crate::time::Timestamp;
use vstd::prelude::*;

verus! {

/// What an authorization code is bound to.
pub struct IssueCodeCommand {
    pub tenant_id: TenantId,
    pub user_id: Uuid,
    pub client_id: String,
    pub redirect_uri: String,
    pub scope: Vec<String>,
    pub nonce: String,
    pub auth_time: Timestamp,
    pub sid: Option<String>,
    pub code_challenge: String,
    pub code_challenge_method: CodeChallengeMethod,
}

/// How a code is handed over: by a redirect always, or in the mode that the request asks for.
#[derive(Clone, Copy, Debug, PartialEq, Eq, Structural)]
pub enum CodeDelivery {
    Redirect,
    AsRequested,
}

/// How the code reaches the client: a redirect, or a form to post.
pub struct CodeDispatch {
    pub location: String,
    pub form_post: Option<Vec<(String, String)>>,
}

/// What is known at the end of the request so far.
#[derive(Default)]
pub struct FlowProgress {
    /// The consent on record.
    pub consent: Reply<Option<ClientConsent>>,
    /// The code that was issued.
    pub code: Reply<String>,
    /// Whether the removal of the request was carried out; its failure does not matter.
    pub deleted: bool,
    /// The client's address with the code in its query.
    pub redirect: Option<String>,
    /// How the code is to be handed over in the mode that the request asks for.
    pub dispatch: Option<CodeDispatch>,
}

/// What comes next.
pub enum FlowStep {
    FindConsent { tenant_id: TenantId, user_id: Uuid, client_id: String },
    IssueCode(IssueCodeCommand),
    DeleteSession { id_hash: String },
    /// Puts the code and the state into the query of the client's address.
    RedirectCode { redirect_uri: String, code: String, state: String },
    /// Hands the code over in the mode that the request asks for.
    DispatchCode { session: AuthSession, code: String },
    /// The user has to be asked.
    ConsentRequired,
    Failed(String),
    Complete { location: String, form_post: Option<Vec<(String, String)>> },
}

/// The authenticated request that is brought to its end.
pub struct FlowSubject {
    pub tenant_id: TenantId,
    pub user_id: Uuid,
    pub now: Timestamp,
    /// The request's new identifier.
    pub rotated_id: String,
    /// The `sid` of the sign-on.
    pub sid: String,
    pub delivery: CodeDelivery,
}

/// The scopes that need the user's consent: all but `openid`.
pub open spec fn needing_consent(scope: Seq<Seq<char>>) -> Seq<Seq<char>> {
    scope.filter(|s: Seq<char>| s != "openid"@)
}

/// The fields of a form; nothing where there is no form.
pub open spec fn form_view(form: Option<Vec<(String, String)>>) -> Option<Seq<(String, String)>> {
    match form {
        Some(v) => Some(v@),
        None => None,
    }
}

/// Whether the request has the consent it needs, given what is on record.
pub open spec fn consented(session: AuthSession, on_record: Option<ClientConsent>) -> bool {
    let needed = needing_consent(views(session.scope@));
    needed.len() == 0 || (on_record matches Some(c) && c.covers_all(needed))
}

/// The code is bound to the request, the user, the sign-on and the time of authentication.
pub open spec fn code_is_bound(
    c: IssueCodeCommand,
    session: AuthSession,
    s: FlowSubject,
) -> bool {
    &&& c.tenant_id == s.tenant_id
    &&& c.user_id == s.user_id
    &&& c.client_id == session.client_id
    &&& c.redirect_uri == session.redirect_uri
    &&& c.scope@ == session.scope@
    &&& c.nonce == session.nonce
    &&& c.auth_time == s.now
    &&& c.sid == Some(s.sid)
    &&& c.code_challenge == session.code_challenge
    &&& c.code_challenge_method == session.code_challenge_method
}

/// What comes next once consent is not the question any more.
pub open spec fn consented_rule(
    session: AuthSession,
    s: FlowSubject,
    p: FlowProgress,
    r: FlowStep,
) -> bool {
    match p.code {
        None => r matches FlowStep::IssueCode(c) && code_is_bound(c, session, s),
        Some(Err(e)) => r == FlowStep::Failed(e),
        Some(Ok(code)) => if !p.deleted {
            r matches FlowStep::DeleteSession { id_hash } && id_hash@ == id_hash_of(s.rotated_id@)
        } else {
            delivery_rule(session, s.delivery, code, p, r)
        },
    }
}

/// What comes next once the code is there: a redirect that carries it and the request's state, or
/// whatever the mode of the request makes of the request and the code.
pub open spec fn delivery_rule(
    session: AuthSession,
    delivery: CodeDelivery,
    code: String,
    p: FlowProgress,
    r: FlowStep,
) -> bool {
    match delivery {
        CodeDelivery::Redirect => match p.redirect {
            None => r == (FlowStep::RedirectCode {
                redirect_uri: session.redirect_uri,
                code,
                state: session.state,
            }),
            Some(location) => r == (FlowStep::Complete { location, form_post: None }),
        },
        CodeDelivery::AsRequested => match p.dispatch {
            None => r matches FlowStep::DispatchCode { session: request, code: c }
                && request.same_as(session) && c == code,
            Some(d) => r matches FlowStep::Complete { location, form_post } && location
                == d.location && form_view(form_post) == form_view(d.form_post),
        },
    }
}

/// What comes next for an authenticated request: the consent on record is looked up where any is
/// needed; without it the user is asked; with it the code is issued, the request is removed under
/// its new identifier, and the code is handed over.
pub open spec fn flow_rule(
    session: AuthSession,
    s: FlowSubject,
    p: FlowProgress,
    r: FlowStep,
) -> bool {
    if needing_consent(views(session.scope@)).len() == 0 {
        consented_rule(session, s, p, r)
    } else {
        match p.consent {
            None => r == (FlowStep::FindConsent {
                tenant_id: s.tenant_id,
                user_id: s.user_id,
                client_id: session.client_id,
            }),
            Some(Err(e)) => r == FlowStep::Failed(e),
            Some(Ok(on_record)) => if consented(session, on_record) {
                consented_rule(session, s, p, r)
            } else {
                r == FlowStep::ConsentRequired
            },
        }
    }
}

/// The scopes that need the user's consent.
pub fn scopes_needing_consent(scope: &Vec<String>) -> (r: Vec<String>)
    ensures
        views(r@) == needing_consent(views(scope@)),
{
    let mut out: Vec<String> = Vec::new();
    let mut i: usize = 0;
    proof {
        assert(views(scope@).subrange(0, 0) =~= Seq::<Seq<char>>::empty());
        assert(needing_consent(Seq::<Seq<char>>::empty()) =~= Seq::<Seq<char>>::empty()) by {
            reveal(Seq::filter);
        }
        assert(views(out@) =~= Seq::<Seq<char>>::empty());
    }
    while i < scope.len()
        invariant
            i <= scope.len(),
            views(out@) == needing_consent(views(scope@).subrange(0, i as int)),
        decreases scope.len() - i,
    {
        let ghost before = views(out@);
        proof {
            let upto = views(scope@).subrange(0, i + 1);
            assert(upto.drop_last() =~= views(scope@).subrange(0, i as int));
            assert(upto.last() == scope@[i as int]@);
            assert(needing_consent(upto) == {
                let head = needing_consent(upto.drop_last());
                if upto.last() != "openid"@ {
                    head.push(upto.last())
                } else {
                    head
                }
            }) by {
                reveal(Seq::filter);
            }
        }
        if !same(scope[i].as_str(), "openid") {
            out.push(scope[i].clone());
            proof {
                assert(views(out@) =~= before.push(scope@[i as int]@));
            }
        }
        i = i + 1;
    }
    proof {
        assert(views(scope@).subrange(0, scope.len() as int) =~= views(scope@));
    }
    out
}

fn clone_form(form: &Option<Vec<(String, String)>>) -> (r: Option<Vec<(String, String)>>)
    ensures
        form_view(r) == form_view(*form),
{
    match form {
        None => None,
        Some(fields) => {
            let mut out: Vec<(String, String)> = Vec::new();
            let mut i: usize = 0;
            while i < fields.len()
                invariant
                    i <= fields.len(),
                    out@ =~= fields@.subrange(0, i as int),
                decreases fields.len() - i,
            {
                out.push((fields[i].0.clone(), fields[i].1.clone()));
                i = i + 1;
            }
            Some(out)
        },
    }
}

fn finish_consented(session: &AuthSession, s: &FlowSubject, p: &FlowProgress) -> (r: FlowStep)
    ensures
        consented_rule(*session, *s, *p, r),
{
    match &p.code {
        None => FlowStep::IssueCode(
            IssueCodeCommand {
                tenant_id: s.tenant_id,
                user_id: s.user_id,
                client_id: session.client_id.clone(),
                redirect_uri: session.redirect_uri.clone(),
                scope: session.scope.clone(),
                nonce: session.nonce.clone(),
                auth_time: s.now,
                sid: Some(s.sid.clone()),
                code_challenge: session.code_challenge.clone(),
                code_challenge_method: session.code_challenge_method,
            },
        ),
        Some(Err(e)) => FlowStep::Failed(e.clone()),
        Some(Ok(code)) => if !p.deleted {
            FlowStep::DeleteSession { id_hash: id_hash(s.rotated_id.as_str()) }
        } else {
            deliver(session, s.delivery, code, p)
        },
    }
}

fn deliver(session: &AuthSession, delivery: CodeDelivery, code: &String, p: &FlowProgress) -> (r:
    FlowStep)
    ensures
        delivery_rule(*session, delivery, *code, *p, r),
{
    match delivery {
        CodeDelivery::Redirect => match &p.redirect {
            None => FlowStep::RedirectCode {
                redirect_uri: session.redirect_uri.clone(),
                code: code.clone(),
                state: session.state.clone(),
            },
            Some(location) => FlowStep::Complete { location: location.clone(), form_post: None },
        },
        CodeDelivery::AsRequested => match &p.dispatch {
            None => FlowStep::DispatchCode { session: session.clone(), code: code.clone() },
            Some(d) => FlowStep::Complete {
                location: d.location.clone(),
                form_post: clone_form(&d.form_post),
            },
        },
    }
}

/// Decides what comes next for an authenticated request.
pub fn finish_flow(session: &AuthSession, s: &FlowSubject, p: &FlowProgress) -> (r: FlowStep)
    ensures
        flow_rule(*session, *s, *p, r),
{
    let needed: Vec<String> = scopes_needing_consent(&session.scope);
    proof {
        assert(views(needed@).len() == needed@.len());
    }
    if needed.len() == 0 {
        return finish_consented(session, s, p);
    }
    match &p.consent {
        None => FlowStep::FindConsent {
            tenant_id: s.tenant_id,
            user_id: s.user_id,
            client_id: session.client_id.clone(),
        },
        Some(Err(e)) => FlowStep::Failed(e.clone()),
        Some(Ok(None)) => FlowStep::ConsentRequired,
        Some(Ok(Some(consent))) => if consent.covers(&needed) {
            finish_consented(session, s, p)
        } else {
            FlowStep::ConsentRequired
        },
    }
}

/// A code is issued only for a request that needs no consent, or whose every scope but `openid`
/// the consent on record covers.
pub proof fn code_needs_consent(
    session: AuthSession,
    s: FlowSubject,
    p: FlowProgress,
    r: FlowStep,
)
    requires
        flow_rule(session, s, p, r),
        r is IssueCode || r is DeleteSession || r is RedirectCode || r is DispatchCode
            || r is Complete,
    ensures
        needing_consent(views(session.scope@)).len() == 0 || (p.consent matches Some(Ok(on_record))
            && consented(session, on_record)),
{
}

impl FlowProgress {
    /// `after` is this with the answer to the call `step`.
    pub open spec fn answered(self, step: FlowStep, after: FlowProgress) -> bool {
        match step {
            FlowStep::FindConsent { .. } => after.consent is Some && after == (FlowProgress {
                consent: after.consent,
                ..self
            }),
            FlowStep::IssueCode(_) => after.code is Some && after == (FlowProgress {
                code: after.code,
                ..self
            }),
            FlowStep::DeleteSession { .. } => after == (FlowProgress { deleted: true, ..self }),
            FlowStep::RedirectCode { .. } => after.redirect is Some && after == (FlowProgress {
                redirect: after.redirect,
                ..self
            }),
            FlowStep::DispatchCode { .. } => after.dispatch is Some && after == (FlowProgress {
                dispatch: after.dispatch,
                ..self
            }),
            _ => false,
        }
    }

    /// The call `step` asks for something that is not known yet.
    pub open spec fn lacks_answer_to(self, step: FlowStep) -> bool {
        match step {
            FlowStep::FindConsent { .. } => self.consent is None,
            FlowStep::IssueCode(_) => self.code is None,
            FlowStep::DeleteSession { .. } => !self.deleted,
            FlowStep::RedirectCode { .. } => self.redirect is None,
            FlowStep::DispatchCode { .. } => self.dispatch is None,
            _ => false,
        }
    }
}

impl FlowStep {
    /// Where a call stands in the order of calls.
    pub open spec fn place(self) -> int {
        match self {
            FlowStep::FindConsent { .. } => 0,
            FlowStep::IssueCode(_) => 1,
            FlowStep::DeleteSession { .. } => 2,
            FlowStep::RedirectCode { .. } => 3,
            FlowStep::DispatchCode { .. } => 3,
            _ => 4,
        }
    }
}

/// Where the redirect is always used, no form ever comes of it; and a form that the mode of the
/// request calls for reaches the end as it is.
pub proof fn a_form_is_handed_on(
    session: AuthSession,
    s: FlowSubject,
    p: FlowProgress,
    location: String,
    form_post: Option<Vec<(String, String)>>,
)
    requires
        flow_rule(session, s, p, FlowStep::Complete { location, form_post }),
    ensures
        match s.delivery {
            CodeDelivery::Redirect => p.redirect == Some(location) && form_post is None,
            CodeDelivery::AsRequested => p.dispatch matches Some(d) && location == d.location
                && form_view(form_post) == form_view(d.form_post),
        },
{
}

/// The scope `openid` alone never needs consent.
pub proof fn openid_is_implied(scope: Seq<Seq<char>>)
    requires
        forall|i: int| 0 <= i < scope.len() ==> scope[i] == "openid"@,
    ensures
        needing_consent(scope).len() == 0,
    decreases scope.len(),
{
    reveal(Seq::filter);
    if scope.len() > 0 {
        openid_is_implied(scope.drop_last());
    }
}

/// Every code that is issued, by whatever sign-in, is the one that the request asked for: it is
/// bound to the client, the address, the scopes, the nonce and the challenge of the authorization
/// session that is ended, and to the user, the tenant, the time and the sign-on of this request.
pub proof fn a_code_is_bound_to_its_request(
    session: AuthSession,
    s: FlowSubject,
    p: FlowProgress,
    c: IssueCodeCommand,
)
    requires
        flow_rule(session, s, p, FlowStep::IssueCode(c)),
    ensures
        c.client_id == session.client_id,
        c.redirect_uri == session.redirect_uri,
        c.scope@ == session.scope@,
        c.nonce == session.nonce,
        c.code_challenge == session.code_challenge,
        c.code_challenge_method == session.code_challenge_method,
        c.tenant_id == s.tenant_id,
        c.user_id == s.user_id,
        c.auth_time == s.now,
        c.sid == Some(s.sid),
{
}

/// The code goes where the code was asked for: what is handed over is the very code that was
/// issued, to the address and with the state of the authorization session, or with that session as
/// it is; and only once the session is gone under its new identifier.
pub proof fn a_code_goes_to_its_request(
    session: AuthSession,
    s: FlowSubject,
    p: FlowProgress,
    r: FlowStep,
)
    requires
        flow_rule(session, s, p, r),
    ensures
        r matches FlowStep::RedirectCode { redirect_uri, code, state } ==> redirect_uri
            == session.redirect_uri && state == session.state && p.code == Some(
            Ok::<String, String>(code),
        ) && p.deleted && s.delivery == CodeDelivery::Redirect,
        r matches FlowStep::DispatchCode { session: q, code } ==> p.code == Some(
            Ok::<String, String>(code),
        ) && p.deleted && s.delivery == CodeDelivery::AsRequested && q.id_hash == session.id_hash
            && q.client_id == session.client_id && q.redirect_uri == session.redirect_uri
            && q.code_challenge == session.code_challenge && q.response_mode
            == session.response_mode && q.scope@ == session.scope@ && q.state
            == session.state && q.nonce == session.nonce && q.tenant_id == session.tenant_id,
        r matches FlowStep::DeleteSession { id_hash } ==> id_hash@ == id_hash_of(s.rotated_id@)
            && p.code matches Some(Ok(_)),
        r matches FlowStep::Complete { location, form_post } ==> (p.code matches Some(Ok(_)) && p.deleted
            && match s.delivery {
            CodeDelivery::Redirect => p.redirect == Some(location) && form_post is None,
            CodeDelivery::AsRequested => p.dispatch matches Some(d) && location == d.location && (
            form_post is Some <==> d.form_post is Some) && (form_post matches Some(fields) ==> fields@
                == d.form_post->0@),
        }),
        r matches FlowStep::Failed(e) ==> p.code == Some(Err::<String, String>(e)) || p.consent
            == Some(Err::<Option<ClientConsent>, String>(e)),
        r matches FlowStep::FindConsent { tenant_id, user_id, client_id } ==> tenant_id
            == s.tenant_id && user_id == s.user_id && client_id == session.client_id,
{
}

/// The consent on record names this scope.
pub open spec fn agreed_to(on_record: Option<ClientConsent>, scope: Seq<char>) -> bool {
    on_record matches Some(c) && exists|j: int| 0 <= j < c.scope@.len() && #[trigger] c.scope@[j]@ == scope
}

proof fn lemma_needed_is_asked(scope: Seq<Seq<char>>, t: Seq<char>)
    requires
        needing_consent(scope).contains(t),
    ensures
        scope.contains(t),
    decreases scope.len(),
{
    reveal(Seq::filter);
    if scope.len() > 0 {
        let rest = scope.drop_last();
        if needing_consent(rest).contains(t) {
            lemma_needed_is_asked(rest, t);
            let k = choose|k: int| 0 <= k < rest.len() && rest[k] == t;
            assert(scope[k] == t);
        } else {
            let i = choose|i: int|
                0 <= i < needing_consent(scope).len() && needing_consent(scope)[i] == t;
            if i < needing_consent(rest).len() {
                assert(needing_consent(rest)[i] == t);
            }
            assert(scope[scope.len() - 1] == t);
        }
    }
}

/// A code is issued, and a request is ended with one, only where the user has agreed to each of its
/// scopes but `openid`; and the user is asked only where some scope of the request is not agreed to.
pub proof fn every_scope_is_agreed_to(
    session: AuthSession,
    s: FlowSubject,
    p: FlowProgress,
    r: FlowStep,
)
    requires
        flow_rule(session, s, p, r),
    ensures
        r is IssueCode || r is DeleteSession || r is RedirectCode || r is DispatchCode
            || r is Complete ==> forall|k: int|
            0 <= k < session.scope@.len() && (#[trigger] session.scope@[k])@ != "openid"@ ==> (
            p.consent matches Some(Ok(on_record)) && agreed_to(on_record, session.scope@[k]@)),
        r is ConsentRequired ==> (p.consent matches Some(Ok(on_record)) && exists|k: int|
            0 <= k < session.scope@.len() && (#[trigger] session.scope@[k])@ != "openid"@
                && !agreed_to(on_record, session.scope@[k]@)),
        r is FindConsent ==> exists|k: int|
            0 <= k < session.scope@.len() && (#[trigger] session.scope@[k])@ != "openid"@,
{
    broadcast use vstd::seq_lib::group_filter_ensures;

    let all = views(session.scope@);
    let needed = needing_consent(all);
    assert forall|k: int|
        0 <= k < all.len() && (#[trigger] session.scope@[k])@
            != "openid"@ implies needed.contains(session.scope@[k]@) by {
        assert(all[k] == session.scope@[k]@);
    }
    assert forall|i: int| 0 <= i < needed.len() && #[trigger] needed[i] == needed[i] implies exists|k: int|
        0 <= k < session.scope@.len() && (#[trigger] session.scope@[k])@ == needed[i] && needed[i]
            != "openid"@ by {
        assert(needed.contains(needed[i]));
        lemma_needed_is_asked(all, needed[i]);
        let k = choose|k: int| 0 <= k < all.len() && all[k] == needed[i];
        assert(session.scope@[k]@ == needed[i]);
    }
    if needed.len() > 0 {
        let k0 = choose|k: int|
            0 <= k < session.scope@.len() && (#[trigger] session.scope@[k])@ == needed[0] && needed[0]
                != "openid"@;
    }
    match p.consent {
        Some(Ok(Some(c))) => {
            let held = views(c.scope@);
            assert forall|t: Seq<char>| #[trigger] held.contains(t) <==> agreed_to(Some(c), t) by {
                if held.contains(t) {
                    let j = choose|j: int| 0 <= j < held.len() && held[j] == t;
                    assert(c.scope@[j]@ == t);
                }
                if agreed_to(Some(c), t) {
                    let j = choose|j: int| 0 <= j < c.scope@.len() && #[trigger] c.scope@[j]@ == t;
                    assert(held[j] == t);
                }
            }
            if c.covers_all(needed) {
                assert forall|k: int|
                    0 <= k < session.scope@.len() && (#[trigger] session.scope@[k])@
                        != "openid"@ implies agreed_to(Some(c), session.scope@[k]@) by {
                    let t = session.scope@[k]@;
                    let i = choose|i: int| 0 <= i < needed.len() && needed[i] == t;
                    assert(held.contains(needed[i]));
                }
            } else {
                let i = choose|i: int|
                    0 <= i < needed.len() && !held.contains(#[trigger] needed[i]);
                let k = choose|k: int|
                    0 <= k < session.scope@.len() && (#[trigger] session.scope@[k])@ == needed[i]
                        && needed[i] != "openid"@;
                assert(!agreed_to(Some(c), session.scope@[k]@));
            }
        },
        _ => {},
    }
}

} // verus!
