//! Registering, listing and removing passkeys, within a sign-on.
use crate::crypto::{base64url_encode, base64url_of, sha256_hex, sha256_hex_of};
use crate::model::{DomainError, SsoSession, Stored, Uuid};
use crate::passkey_assertion::{
    PasskeyChallenge, PasskeyChallengeType, WebAuthnCredential, CHALLENGE_TTL_SECS,
};
use crate::text::{lemma_suffix, trim, trimmed, views};
use crate::time::{Span, Timestamp};
use crate::webauthn::{
    passkey_fault, passkey_fault_of, registration_answer_fault, registration_answer_fault_of,
    registration_state_fault, registration_state_fault_of,
};
use vstd::prelude::*;

verus! {

pub enum PasskeyRegistrationError {
    SessionExpired,
    ChallengeNotFound,
    InvalidCredential(String),
    DuplicateCredential,
    NotFound,
    Internal(String),
}

impl PasskeyRegistrationError {
    pub open spec fn text_of(self) -> Seq<char> {
        match self {
            PasskeyRegistrationError::SessionExpired => "sso session expired or not found"@,
            PasskeyRegistrationError::ChallengeNotFound => "challenge not found or expired"@,
            PasskeyRegistrationError::InvalidCredential(m) => "invalid credential response: "@ + m@,
            PasskeyRegistrationError::DuplicateCredential => "duplicate credential id"@,
            PasskeyRegistrationError::NotFound => "credential not found"@,
            PasskeyRegistrationError::Internal(m) => "internal error: "@ + m@,
        }
    }

    /// The error in words.
    pub fn text(&self) -> (r: String)
        ensures
            r@ == self.text_of(),
    {
        match self {
            PasskeyRegistrationError::SessionExpired => "sso session expired or not found".to_owned(),
            PasskeyRegistrationError::ChallengeNotFound => "challenge not found or expired".to_owned(),
            PasskeyRegistrationError::InvalidCredential(m) => {
                let mut out: String = "invalid credential response: ".to_owned();
                out.append(m.as_str());
                out
            },
            PasskeyRegistrationError::DuplicateCredential => "duplicate credential id".to_owned(),
            PasskeyRegistrationError::NotFound => "credential not found".to_owned(),
            PasskeyRegistrationError::Internal(m) => {
                let mut out: String = "internal error: ".to_owned();
                out.append(m.as_str());
                out
            },
        }
    }
}

/// What is shown of a registered passkey.
pub struct CredentialInfo {
    pub id: Uuid,
    pub name: String,
    pub created_at: Timestamp,
    pub last_used_at: Option<Timestamp>,
}

/// A registration ceremony that has begun.
pub struct BegunRegistration {
    /// Its state, as JSON, or why it cannot be written.
    pub state_json: Result<String, String>,
    /// The options for the browser, as JSON, or why they cannot be written.
    pub options_json: Result<String, String>,
}

/// The passkey that a registration ceremony has made.
pub struct NewPasskey {
    pub credential_id: Vec<u8>,
    /// The passkey, as JSON, or why it cannot be written.
    pub passkey_json: Result<String, String>,
}

/// Who is signed in, as far as it is known.
pub enum SessionUser {
    /// The sign-on is to be looked up.
    Find { session_hash: String },
    Failed(PasskeyRegistrationError),
    Known(Uuid),
}

/// What is known of a beginning so far.
#[derive(Default)]
pub struct BeginProgress {
    pub session: Stored<Option<SsoSession>>,
    pub existing: Stored<Vec<WebAuthnCredential>>,
    pub ceremony: Option<Result<BegunRegistration, String>>,
    pub stored: Stored<()>,
}

pub enum BeginStep {
    FindSession { session_hash: String },
    ListCredentials { user_id: Uuid },
    /// Starts a ceremony in which these passkeys are ruled out.
    StartCeremony { user_id: Uuid, user_name: String, excluded: Vec<String> },
    StoreChallenge(PasskeyChallenge),
    Done(Result<(Uuid, String), PasskeyRegistrationError>),
}

/// What is known of a completion so far.
#[derive(Default)]
pub struct CompleteProgress {
    pub session: Stored<Option<SsoSession>>,
    pub challenge: Stored<Option<PasskeyChallenge>>,
    /// Whether the removal of a challenge that cannot be used was carried out.
    pub rejected_deleted: bool,
    pub ceremony: Option<Result<NewPasskey, String>>,
    /// Whether the removal of the used challenge was carried out.
    pub consumed: bool,
    pub created: Stored<()>,
}

pub enum CompleteStep {
    FindSession { session_hash: String },
    FindChallenge { id: Uuid },
    DeleteRejected { id: Uuid },
    CheckCeremony { answer: String, state_json: String },
    ConsumeChallenge { id: Uuid },
    CreateCredential(WebAuthnCredential),
    Done(Result<Uuid, PasskeyRegistrationError>),
}

/// What comes next in removing or listing passkeys.
pub enum ManageStep {
    FindSession { session_hash: String },
    DeleteCredential { id: Uuid, user_id: Uuid },
    ListCredentials { user_id: Uuid },
    Deleted(Result<(), PasskeyRegistrationError>),
    Listed(Result<Vec<CredentialInfo>, PasskeyRegistrationError>),
}

pub struct PasskeyRegistrationService {}

impl vstd::std_specs::convert::FromSpecImpl<DomainError> for PasskeyRegistrationError {
    open spec fn obeys_from_spec() -> bool {
        true
    }

    open spec fn from_spec(e: DomainError) -> PasskeyRegistrationError {
        internal_of(e)
    }
}

impl From<DomainError> for PasskeyRegistrationError {
    fn from(e: DomainError) -> (r: PasskeyRegistrationError) {
        match e {
            DomainError::Conflict(m) => PasskeyRegistrationError::Internal(m),
            DomainError::InvalidValue(m) => PasskeyRegistrationError::Internal(m),
            DomainError::NotFound(m) => PasskeyRegistrationError::Internal(m),
            DomainError::Repository(m) => PasskeyRegistrationError::Internal(m),
        }
    }
}

/// A failure of the store is an internal error.
pub open spec fn internal_of(e: DomainError) -> PasskeyRegistrationError {
    match e {
        DomainError::Conflict(m) => PasskeyRegistrationError::Internal(m),
        DomainError::InvalidValue(m) => PasskeyRegistrationError::Internal(m),
        DomainError::NotFound(m) => PasskeyRegistrationError::Internal(m),
        DomainError::Repository(m) => PasskeyRegistrationError::Internal(m),
    }
}

fn internal(e: &DomainError) -> (r: PasskeyRegistrationError)
    ensures
        r == internal_of(*e),
{
    PasskeyRegistrationError::from(e.clone())
}

/// Who is signed in: the user of a sign-on that neither of its two spans has ended.
pub open spec fn session_user_rule(
    sso_session_id: Seq<char>,
    session: Stored<Option<SsoSession>>,
    now: Timestamp,
    r: SessionUser,
) -> bool {
    match session {
        None => r matches SessionUser::Find { session_hash } && session_hash@ == sha256_hex_of(
            sso_session_id,
        ),
        Some(Err(e)) => r == SessionUser::Failed(internal_of(e)),
        Some(Ok(None)) => r == SessionUser::Failed(PasskeyRegistrationError::SessionExpired),
        Some(Ok(Some(s))) => if s.valid_at(now) {
            r == SessionUser::Known(s.user_id)
        } else {
            r == SessionUser::Failed(PasskeyRegistrationError::SessionExpired)
        },
    }
}

/// The passkeys, among those stored, that can be read.
pub open spec fn readable(existing: Seq<WebAuthnCredential>) -> Seq<Seq<char>> {
    existing.map_values(|c: WebAuthnCredential| c.passkey_json@).filter(
        |json: Seq<char>| passkey_fault_of(json) is None,
    )
}

/// The challenge of a registration: the user's own, and open for five minutes.
pub open spec fn is_registration_challenge(
    c: PasskeyChallenge,
    user_id: Uuid,
    id: Uuid,
    now: Timestamp,
    state_json: String,
) -> bool {
    &&& c.id == id
    &&& c.user_id == Some(user_id)
    &&& c.challenge_type == PasskeyChallengeType::Register
    &&& c.state_json == state_json
    &&& c.auth_session_id_hash is None
    &&& c.expires_at == now.later(Span::of_seconds(CHALLENGE_TTL_SECS as int))
    &&& c.created_at == now
}

/// What comes next in a beginning of which `p` is known.
pub open spec fn begin_rule(
    sso_session_id: Seq<char>,
    user_name: Seq<char>,
    challenge_id: Uuid,
    now: Timestamp,
    p: BeginProgress,
    r: BeginStep,
) -> bool {
    exists|u: SessionUser| #[trigger]
        session_user_rule(sso_session_id, p.session, now, u) && match u {
            SessionUser::Find { session_hash } => r == (BeginStep::FindSession { session_hash }),
            SessionUser::Failed(e) => r == BeginStep::Done(Err(e)),
            SessionUser::Known(user_id) => match p.existing {
                None => r == (BeginStep::ListCredentials { user_id }),
                Some(Err(e)) => r == BeginStep::Done(Err(internal_of(e))),
                Some(Ok(existing)) => match p.ceremony {
                    None => r matches BeginStep::StartCeremony {
                        user_id: uid,
                        user_name: name,
                        excluded,
                    } && uid == user_id && name@ == user_name && views(excluded@) == readable(
                        existing@,
                    ),
                    Some(Err(e)) => r == BeginStep::Done(
                        Err(PasskeyRegistrationError::InvalidCredential(e)),
                    ),
                    Some(Ok(begun)) => match begun.state_json {
                        Err(e) => r == BeginStep::Done(Err(PasskeyRegistrationError::Internal(e))),
                        Ok(state_json) => match p.stored {
                            None => r matches BeginStep::StoreChallenge(c)
                                && is_registration_challenge(
                                c,
                                user_id,
                                challenge_id,
                                now,
                                state_json,
                            ),
                            Some(Err(e)) => r == BeginStep::Done(Err(internal_of(e))),
                            Some(Ok(_)) => match begun.options_json {
                                Err(e) => r == BeginStep::Done(
                                    Err(PasskeyRegistrationError::Internal(e)),
                                ),
                                Ok(options_json) => r == BeginStep::Done(
                                    Ok((challenge_id, options_json)),
                                ),
                            },
                        },
                    },
                },
            },
        }
}

/// The passkey that is stored: the user's own, under its identifier in base64url, with its name
/// trimmed.
pub open spec fn is_new_credential(
    c: WebAuthnCredential,
    user_id: Uuid,
    id: Uuid,
    name: Seq<char>,
    now: Timestamp,
    credential_id: Seq<u8>,
    passkey_json: String,
) -> bool {
    &&& c.id == id
    &&& c.user_id == user_id
    &&& c.credential_id@ == base64url_of(credential_id)
    &&& c.passkey_json == passkey_json
    &&& c.name@ == trimmed(name)
    &&& c.created_at == now
    &&& c.last_used_at is None
}

/// The user and their challenge are known: the documents must be readable and the ceremony must
/// succeed; the challenge is removed, then the passkey is stored.
pub open spec fn store_rule(
    user_id: Uuid,
    challenge_id: Uuid,
    credential_row: Uuid,
    name: Seq<char>,
    answer: String,
    now: Timestamp,
    challenge: PasskeyChallenge,
    p: CompleteProgress,
    r: CompleteStep,
) -> bool {
    if registration_state_fault_of(challenge.state_json@) is Some {
        r matches CompleteStep::Done(Err(PasskeyRegistrationError::Internal(e))) && e@
            == registration_state_fault_of(challenge.state_json@)->0
    } else if registration_answer_fault_of(answer@) is Some {
        r matches CompleteStep::Done(Err(PasskeyRegistrationError::InvalidCredential(e))) && e@
            == registration_answer_fault_of(answer@)->0
    } else {
        match p.ceremony {
            None => r == (CompleteStep::CheckCeremony { answer, state_json: challenge.state_json }),
            Some(Err(e)) => r == CompleteStep::Done(
                Err(PasskeyRegistrationError::InvalidCredential(e)),
            ),
            Some(Ok(made)) => match made.passkey_json {
                Err(e) => r == CompleteStep::Done(Err(PasskeyRegistrationError::Internal(e))),
                Ok(passkey_json) => if !p.consumed {
                    r == (CompleteStep::ConsumeChallenge { id: challenge_id })
                } else {
                    match p.created {
                        None => r matches CompleteStep::CreateCredential(c) && is_new_credential(
                            c,
                            user_id,
                            credential_row,
                            name,
                            now,
                            made.credential_id@,
                            passkey_json,
                        ),
                        Some(Err(DomainError::Conflict(_))) => r == CompleteStep::Done(
                            Err(PasskeyRegistrationError::DuplicateCredential),
                        ),
                        Some(Err(e)) => r == CompleteStep::Done(Err(internal_of(e))),
                        Some(Ok(_)) => r == CompleteStep::Done(Ok(credential_row)),
                    }
                },
            },
        }
    }
}

/// What comes next in a completion of which `p` is known.
pub open spec fn complete_rule(
    sso_session_id: Seq<char>,
    challenge_id: Uuid,
    credential_row: Uuid,
    name: Seq<char>,
    answer: String,
    now: Timestamp,
    p: CompleteProgress,
    r: CompleteStep,
) -> bool {
    exists|u: SessionUser| #[trigger]
        session_user_rule(sso_session_id, p.session, now, u) && match u {
            SessionUser::Find { session_hash } => r == (CompleteStep::FindSession { session_hash }),
            SessionUser::Failed(e) => r == CompleteStep::Done(Err(e)),
            SessionUser::Known(user_id) => match p.challenge {
                None => r == (CompleteStep::FindChallenge { id: challenge_id }),
                Some(Err(e)) => r == CompleteStep::Done(Err(internal_of(e))),
                Some(Ok(None)) => r == CompleteStep::Done(
                    Err(PasskeyRegistrationError::ChallengeNotFound),
                ),
                Some(Ok(Some(c))) => if c.expires_at.nanos <= now.nanos || c.user_id != Some(
                    user_id,
                ) {
                    if p.rejected_deleted {
                        r == CompleteStep::Done(Err(PasskeyRegistrationError::ChallengeNotFound))
                    } else {
                        r == (CompleteStep::DeleteRejected { id: challenge_id })
                    }
                } else {
                    store_rule(
                        user_id,
                        challenge_id,
                        credential_row,
                        name,
                        answer,
                        now,
                        c,
                        p,
                        r,
                    )
                },
            },
        }
}

/// What is shown of the stored passkeys: each one's identifier, name and times, in their order.
pub open spec fn shows(infos: Seq<CredentialInfo>, stored: Seq<WebAuthnCredential>) -> bool {
    &&& infos.len() == stored.len()
    &&& forall|i: int|
        0 <= i < stored.len() ==> #[trigger] infos[i] == (CredentialInfo {
            id: stored[i].id,
            name: stored[i].name,
            created_at: stored[i].created_at,
            last_used_at: stored[i].last_used_at,
        })
}

/// What comes next in removing a passkey: only the signed-in user's own.
pub open spec fn delete_rule(
    sso_session_id: Seq<char>,
    credential_id: Uuid,
    now: Timestamp,
    session: Stored<Option<SsoSession>>,
    deleted: Stored<()>,
    r: ManageStep,
) -> bool {
    exists|u: SessionUser| #[trigger]
        session_user_rule(sso_session_id, session, now, u) && match u {
            SessionUser::Find { session_hash } => r == (ManageStep::FindSession { session_hash }),
            SessionUser::Failed(e) => r == ManageStep::Deleted(Err(e)),
            SessionUser::Known(user_id) => match deleted {
                None => r == (ManageStep::DeleteCredential { id: credential_id, user_id }),
                Some(Err(e)) => r == ManageStep::Deleted(Err(internal_of(e))),
                Some(Ok(_)) => r == ManageStep::Deleted(Ok(())),
            },
        }
}

/// What comes next in listing the signed-in user's passkeys.
pub open spec fn list_rule(
    sso_session_id: Seq<char>,
    now: Timestamp,
    session: Stored<Option<SsoSession>>,
    listed: Stored<Vec<WebAuthnCredential>>,
    r: ManageStep,
) -> bool {
    exists|u: SessionUser| #[trigger]
        session_user_rule(sso_session_id, session, now, u) && match u {
            SessionUser::Find { session_hash } => r == (ManageStep::FindSession { session_hash }),
            SessionUser::Failed(e) => r == ManageStep::Listed(Err(e)),
            SessionUser::Known(user_id) => match listed {
                None => r == (ManageStep::ListCredentials { user_id }),
                Some(Err(e)) => r == ManageStep::Listed(Err(internal_of(e))),
                Some(Ok(stored)) => r matches ManageStep::Listed(Ok(infos)) && shows(
                    infos@,
                    stored@,
                ),
            },
        }
}

impl PasskeyRegistrationService {
    pub fn new() -> (r: Self)
        ensures
            r == (PasskeyRegistrationService {  }),
    {
        PasskeyRegistrationService {  }
    }

    /// Decides who is signed in.
    pub fn resolve_user(
        &self,
        sso_session_id: &str,
        session: &Stored<Option<SsoSession>>,
        now: Timestamp,
    ) -> (r: SessionUser)
        ensures
            session_user_rule(sso_session_id@, *session, now, r),
    {
        match session {
            None => SessionUser::Find { session_hash: sha256_hex(sso_session_id) },
            Some(Err(e)) => SessionUser::Failed(internal(e)),
            Some(Ok(None)) => SessionUser::Failed(PasskeyRegistrationError::SessionExpired),
            Some(Ok(Some(s))) => if s.is_valid_at(now) {
                SessionUser::Known(s.user_id)
            } else {
                SessionUser::Failed(PasskeyRegistrationError::SessionExpired)
            },
        }
    }

    fn readable_passkeys(&self, existing: &Vec<WebAuthnCredential>) -> (r: Vec<String>)
        ensures
            views(r@) == readable(existing@),
    {
        let mut out: Vec<String> = Vec::new();
        let mut i: usize = 0;
        let ghost all = existing@.map_values(|c: WebAuthnCredential| c.passkey_json@);
        let ghost keep = |json: Seq<char>| passkey_fault_of(json) is None;
        proof {
            reveal(Seq::filter);
            assert(all.subrange(0, 0) =~= Seq::<Seq<char>>::empty());
            assert(views(out@) =~= Seq::<Seq<char>>::empty());
            assert(Seq::<Seq<char>>::empty().filter(keep) =~= Seq::<Seq<char>>::empty());
        }
        while i < existing.len()
            invariant
                i <= existing.len(),
                all == existing@.map_values(|c: WebAuthnCredential| c.passkey_json@),
                keep == (|json: Seq<char>| passkey_fault_of(json) is None),
                views(out@) == all.subrange(0, i as int).filter(keep),
            decreases existing.len() - i,
        {
            let ghost before = views(out@);
            let json: &String = &existing[i].passkey_json;
            proof {
                let upto = all.subrange(0, i + 1);
                assert(upto.drop_last() =~= all.subrange(0, i as int));
                assert(upto.last() == json@);
                assert(upto.filter(keep) == {
                    let head = upto.drop_last().filter(keep);
                    if keep(upto.last()) {
                        head.push(upto.last())
                    } else {
                        head
                    }
                }) by {
                    reveal(Seq::filter);
                }
            }
            if passkey_fault(json.as_str()).is_none() {
                out.push(json.clone());
                proof {
                    assert(views(out@) =~= before.push(json@));
                }
            }
            i = i + 1;
        }
        proof {
            assert(all.subrange(0, existing.len() as int) =~= all);
        }
        out
    }

    /// Decides what comes next in beginning to register a passkey.
    pub fn begin(
        &self,
        sso_session_id: &str,
        user_name: &str,
        challenge_id: Uuid,
        now: Timestamp,
        p: &BeginProgress,
    ) -> (r: BeginStep)
        requires
            now.can_add(Span::of_seconds(CHALLENGE_TTL_SECS as int)),
        ensures
            begin_rule(sso_session_id@, user_name@, challenge_id, now, *p, r),
    {
        let who: SessionUser = self.resolve_user(sso_session_id, &p.session, now);
        proof {
            assert(session_user_rule(sso_session_id@, p.session, now, who));
        }
        let user_id: Uuid = match who {
            SessionUser::Find { session_hash } => return BeginStep::FindSession { session_hash },
            SessionUser::Failed(e) => return BeginStep::Done(Err(e)),
            SessionUser::Known(user_id) => user_id,
        };
        let existing: &Vec<WebAuthnCredential> = match &p.existing {
            None => return BeginStep::ListCredentials { user_id },
            Some(Err(e)) => return BeginStep::Done(Err(internal(e))),
            Some(Ok(existing)) => existing,
        };
        let begun: &BegunRegistration = match &p.ceremony {
            None => return BeginStep::StartCeremony {
                user_id,
                user_name: user_name.to_owned(),
                excluded: self.readable_passkeys(existing),
            },
            Some(Err(e)) => return BeginStep::Done(
                Err(PasskeyRegistrationError::InvalidCredential(e.clone())),
            ),
            Some(Ok(begun)) => begun,
        };
        let state_json: &String = match &begun.state_json {
            Err(e) => return BeginStep::Done(
                Err(PasskeyRegistrationError::Internal(e.clone())),
            ),
            Ok(state_json) => state_json,
        };
        match &p.stored {
            None => BeginStep::StoreChallenge(
                PasskeyChallenge {
                    id: challenge_id,
                    user_id: Some(user_id),
                    challenge_type: PasskeyChallengeType::Register,
                    state_json: state_json.clone(),
                    auth_session_id_hash: None,
                    expires_at: now.plus(Span::seconds(CHALLENGE_TTL_SECS)),
                    created_at: now,
                },
            ),
            Some(Err(e)) => BeginStep::Done(Err(internal(e))),
            Some(Ok(_)) => match &begun.options_json {
                Err(e) => BeginStep::Done(Err(PasskeyRegistrationError::Internal(e.clone()))),
                Ok(options_json) => BeginStep::Done(Ok((challenge_id, options_json.clone()))),
            },
        }
    }

    fn store(
        &self,
        user_id: Uuid,
        challenge_id: Uuid,
        credential_row: Uuid,
        name: &str,
        answer: &String,
        now: Timestamp,
        challenge: &PasskeyChallenge,
        p: &CompleteProgress,
    ) -> (r: CompleteStep)
        ensures
            store_rule(
                user_id,
                challenge_id,
                credential_row,
                name@,
                *answer,
                now,
                *challenge,
                *p,
                r,
            ),
    {
        if let Some(fault) = registration_state_fault(challenge.state_json.as_str()) {
            return CompleteStep::Done(Err(PasskeyRegistrationError::Internal(fault)));
        }
        if let Some(fault) = registration_answer_fault(answer.as_str()) {
            return CompleteStep::Done(Err(PasskeyRegistrationError::InvalidCredential(fault)));
        }
        let made: &NewPasskey = match &p.ceremony {
            None => return CompleteStep::CheckCeremony {
                answer: answer.clone(),
                state_json: challenge.state_json.clone(),
            },
            Some(Err(e)) => return CompleteStep::Done(
                Err(PasskeyRegistrationError::InvalidCredential(e.clone())),
            ),
            Some(Ok(made)) => made,
        };
        let passkey_json: &String = match &made.passkey_json {
            Err(e) => return CompleteStep::Done(
                Err(PasskeyRegistrationError::Internal(e.clone())),
            ),
            Ok(passkey_json) => passkey_json,
        };
        if !p.consumed {
            return CompleteStep::ConsumeChallenge { id: challenge_id };
        }
        match &p.created {
            None => CompleteStep::CreateCredential(
                WebAuthnCredential {
                    id: credential_row,
                    user_id,
                    credential_id: base64url_encode(made.credential_id.as_slice()),
                    passkey_json: passkey_json.clone(),
                    name: trim(name),
                    created_at: now,
                    last_used_at: None,
                },
            ),
            Some(Err(DomainError::Conflict(_))) => CompleteStep::Done(
                Err(PasskeyRegistrationError::DuplicateCredential),
            ),
            Some(Err(e)) => CompleteStep::Done(Err(internal(e))),
            Some(Ok(_)) => CompleteStep::Done(Ok(credential_row)),
        }
    }

    /// Decides what comes next in completing the registration of a passkey.
    pub fn complete(
        &self,
        sso_session_id: &str,
        challenge_id: Uuid,
        credential_row: Uuid,
        name: &str,
        answer: &String,
        now: Timestamp,
        p: &CompleteProgress,
    ) -> (r: CompleteStep)
        ensures
            complete_rule(
                sso_session_id@,
                challenge_id,
                credential_row,
                name@,
                *answer,
                now,
                *p,
                r,
            ),
    {
        let who: SessionUser = self.resolve_user(sso_session_id, &p.session, now);
        proof {
            assert(session_user_rule(sso_session_id@, p.session, now, who));
        }
        let user_id: Uuid = match who {
            SessionUser::Find { session_hash } => return CompleteStep::FindSession { session_hash },
            SessionUser::Failed(e) => return CompleteStep::Done(Err(e)),
            SessionUser::Known(user_id) => user_id,
        };
        let challenge: &PasskeyChallenge = match &p.challenge {
            None => return CompleteStep::FindChallenge { id: challenge_id },
            Some(Err(e)) => return CompleteStep::Done(Err(internal(e))),
            Some(Ok(None)) => return CompleteStep::Done(
                Err(PasskeyRegistrationError::ChallengeNotFound),
            ),
            Some(Ok(Some(c))) => c,
        };
        let own: bool = match challenge.user_id {
            Some(owner) => owner == user_id,
            None => false,
        };
        if challenge.expires_at.at_or_before(now) || !own {
            if p.rejected_deleted {
                return CompleteStep::Done(Err(PasskeyRegistrationError::ChallengeNotFound));
            }
            return CompleteStep::DeleteRejected { id: challenge_id };
        }
        self.store(user_id, challenge_id, credential_row, name, answer, now, challenge, p)
    }

    /// Decides what comes next in removing a passkey: only the signed-in user's own.
    pub fn delete(
        &self,
        sso_session_id: &str,
        credential_id: Uuid,
        now: Timestamp,
        session: &Stored<Option<SsoSession>>,
        deleted: &Stored<()>,
    ) -> (r: ManageStep)
        ensures
            delete_rule(sso_session_id@, credential_id, now, *session, *deleted, r),
    {
        let who: SessionUser = self.resolve_user(sso_session_id, session, now);
        proof {
            assert(session_user_rule(sso_session_id@, *session, now, who));
        }
        match who {
            SessionUser::Find { session_hash } => ManageStep::FindSession { session_hash },
            SessionUser::Failed(e) => ManageStep::Deleted(Err(e)),
            SessionUser::Known(user_id) => match deleted {
                None => ManageStep::DeleteCredential { id: credential_id, user_id },
                Some(Err(e)) => ManageStep::Deleted(Err(internal(e))),
                Some(Ok(_)) => ManageStep::Deleted(Ok(())),
            },
        }
    }

    fn infos(&self, stored: &Vec<WebAuthnCredential>) -> (r: Vec<CredentialInfo>)
        ensures
            shows(r@, stored@),
    {
        let mut out: Vec<CredentialInfo> = Vec::new();
        let mut i: usize = 0;
        while i < stored.len()
            invariant
                i <= stored.len(),
                out.len() == i,
                forall|j: int|
                    0 <= j < i ==> #[trigger] out@[j] == (CredentialInfo {
                        id: stored@[j].id,
                        name: stored@[j].name,
                        created_at: stored@[j].created_at,
                        last_used_at: stored@[j].last_used_at,
                    }),
            decreases stored.len() - i,
        {
            out.push(
                CredentialInfo {
                    id: stored[i].id,
                    name: stored[i].name.clone(),
                    created_at: stored[i].created_at,
                    last_used_at: stored[i].last_used_at,
                },
            );
            i = i + 1;
        }
        out
    }

    /// Decides what comes next in listing the signed-in user's passkeys.
    pub fn list(
        &self,
        sso_session_id: &str,
        now: Timestamp,
        session: &Stored<Option<SsoSession>>,
        listed: &Stored<Vec<WebAuthnCredential>>,
    ) -> (r: ManageStep)
        ensures
            list_rule(sso_session_id@, now, *session, *listed, r),
    {
        let who: SessionUser = self.resolve_user(sso_session_id, session, now);
        proof {
            assert(session_user_rule(sso_session_id@, *session, now, who));
        }
        match who {
            SessionUser::Find { session_hash } => ManageStep::FindSession { session_hash },
            SessionUser::Failed(e) => ManageStep::Listed(Err(e)),
            SessionUser::Known(user_id) => match listed {
                None => ManageStep::ListCredentials { user_id },
                Some(Err(e)) => ManageStep::Listed(Err(internal(e))),
                Some(Ok(stored)) => ManageStep::Listed(Ok(self.infos(stored))),
            },
        }
    }
}

/// A passkey is stored only for the user of a valid sign-on who holds an open challenge of their
/// own, after the ceremony and with the challenge gone.
pub proof fn registration_needs_the_owners_challenge(
    sso_session_id: Seq<char>,
    challenge_id: Uuid,
    credential_row: Uuid,
    name: Seq<char>,
    answer: String,
    now: Timestamp,
    p: CompleteProgress,
    stored: WebAuthnCredential,
)
    requires
        complete_rule(
            sso_session_id,
            challenge_id,
            credential_row,
            name,
            answer,
            now,
            p,
            CompleteStep::CreateCredential(stored),
        ),
    ensures
        p.session matches Some(Ok(Some(s))) && s.valid_at(now) && stored.user_id == s.user_id,
        p.challenge matches Some(Ok(Some(c))) && now.nanos < c.expires_at.nanos && c.user_id == Some(
            stored.user_id,
        ),
        p.ceremony matches Some(Ok(_)),
        p.consumed,
{
}

impl CompleteProgress {
    /// The call `step` asks for something that is not known yet.
    pub open spec fn lacks_answer_to(self, step: CompleteStep) -> bool {
        match step {
            CompleteStep::FindSession { .. } => self.session is None,
            CompleteStep::FindChallenge { .. } => self.challenge is None,
            CompleteStep::DeleteRejected { .. } => !self.rejected_deleted,
            CompleteStep::CheckCeremony { .. } => self.ceremony is None,
            CompleteStep::ConsumeChallenge { .. } => !self.consumed,
            CompleteStep::CreateCredential(_) => self.created is None,
            CompleteStep::Done(_) => true,
        }
    }
}

/// Nothing is asked for that is known already: every call that comes next fills a gap.
pub proof fn nothing_is_asked_twice(
    sso_session_id: Seq<char>,
    challenge_id: Uuid,
    credential_row: Uuid,
    name: Seq<char>,
    answer: String,
    now: Timestamp,
    p: CompleteProgress,
    r: CompleteStep,
)
    requires
        complete_rule(sso_session_id, challenge_id, credential_row, name, answer, now, p, r),
    ensures
        p.lacks_answer_to(r),
{
}

/// The sign-on was found and neither of its spans has ended.
pub open spec fn signed_on(session: Stored<Option<SsoSession>>, now: Timestamp, user_id: Uuid) -> bool {
    session matches Some(Ok(Some(s))) && s.user_id == user_id && now.nanos < s.idle_expires_at.nanos
        && now.nanos < s.absolute_expires_at.nanos
}

/// Every call in beginning to register is about the signed-on user, and the challenge that is stored
/// is theirs, for a registration, and open for five minutes.
pub proof fn a_registration_is_begun_for_its_user(
    sso_session_id: Seq<char>,
    user_name: Seq<char>,
    challenge_id: Uuid,
    now: Timestamp,
    p: BeginProgress,
    r: BeginStep,
)
    requires
        begin_rule(sso_session_id, user_name, challenge_id, now, p, r),
    ensures
        match r {
            BeginStep::FindSession { session_hash } => session_hash@ == sha256_hex_of(
                sso_session_id,
            ),
            BeginStep::ListCredentials { user_id } => signed_on(p.session, now, user_id),
            BeginStep::StartCeremony { user_id, user_name: name, excluded } => signed_on(
                p.session,
                now,
                user_id,
            ) && name@ == user_name && p.existing is Some,
            BeginStep::StoreChallenge(c) => c.id == challenge_id && (c.user_id matches Some(user_id)
                && signed_on(p.session, now, user_id)) && c.challenge_type
                == PasskeyChallengeType::Register && c.auth_session_id_hash is None && c.created_at
                == now && (now.wf() ==> c.expires_at.nanos == now.nanos + 300_000_000_000) && (
            p.ceremony matches Some(Ok(begun)) && begun.state_json == Ok::<String, String>(
                c.state_json,
            )),
            BeginStep::Done(Ok((id, options))) => id == challenge_id && (p.stored matches Some(
                Ok(_),
            )) && (p.ceremony matches Some(Ok(begun)) && begun.options_json == Ok::<String, String>(
                options,
            )),
            BeginStep::Done(Err(e)) => e is SessionExpired ==> (p.session matches Some(Ok(found)) && (
            found matches Some(s) ==> s.idle_expires_at.nanos <= now.nanos
                || s.absolute_expires_at.nanos <= now.nanos)),
        },
{
}

/// A passkey that the user has is ruled out of a new registration exactly where it can be read.
pub proof fn known_passkeys_are_ruled_out(existing: Seq<WebAuthnCredential>, json: Seq<char>)
    ensures
        readable(existing).contains(json) <==> passkey_fault_of(json) is None && exists|i: int|
            0 <= i < existing.len() && (#[trigger] existing[i]).passkey_json@ == json,
    decreases existing.len(),
{
    reveal(Seq::filter);
    let keep = |json: Seq<char>| passkey_fault_of(json) is None;
    let all = existing.map_values(|c: WebAuthnCredential| c.passkey_json@);
    if existing.len() == 0 {
        assert(all =~= Seq::<Seq<char>>::empty());
    } else {
        let before = existing.drop_last();
        assert(all.drop_last() =~= before.map_values(|c: WebAuthnCredential| c.passkey_json@));
        known_passkeys_are_ruled_out(before, json);
        let rest = readable(before);
        let whole = readable(existing);
        let last = existing.last().passkey_json@;
        assert(whole == if passkey_fault_of(last) is None {
            rest.push(last)
        } else {
            rest
        });
        if rest.contains(json) {
            let k = choose|k: int| 0 <= k < rest.len() && rest[k] == json;
            assert(whole[k] == json);
            let i = choose|i: int|
                0 <= i < before.len() && (#[trigger] before[i]).passkey_json@ == json;
            assert(existing[i] == before[i]);
        }
        if whole.contains(json) && !rest.contains(json) {
            let k = choose|k: int| 0 <= k < whole.len() && whole[k] == json;
            if k < rest.len() {
                assert(rest[k] == json);
            }
            assert(existing[existing.len() - 1].passkey_json@ == json);
        }
        if passkey_fault_of(json) is None && exists|i: int|
            0 <= i < existing.len() && (#[trigger] existing[i]).passkey_json@ == json {
            let i = choose|i: int|
                0 <= i < existing.len() && (#[trigger] existing[i]).passkey_json@ == json;
            if i < before.len() {
                assert(before[i] == existing[i]);
            } else {
                assert(whole[rest.len() as int] == json);
            }
        }
    }
}

/// Every call in completing a registration is about the challenge that was answered and the signed-on
/// user; the passkey that is stored is theirs, under the name they gave it, and the one the ceremony
/// has made.
pub proof fn a_registration_is_completed_for_its_user(
    sso_session_id: Seq<char>,
    challenge_id: Uuid,
    credential_row: Uuid,
    name: Seq<char>,
    answer: String,
    now: Timestamp,
    p: CompleteProgress,
    r: CompleteStep,
)
    requires
        complete_rule(sso_session_id, challenge_id, credential_row, name, answer, now, p, r),
    ensures
        match r {
            CompleteStep::FindSession { session_hash } => session_hash@ == sha256_hex_of(
                sso_session_id,
            ),
            CompleteStep::FindChallenge { id } => id == challenge_id,
            CompleteStep::DeleteRejected { id } => id == challenge_id && (p.challenge matches Some(
                Ok(Some(c)),
            ) && (c.expires_at.nanos <= now.nanos || !(c.user_id matches Some(owner) && signed_on(
                p.session,
                now,
                owner,
            )))),
            CompleteStep::CheckCeremony { answer: given, state_json } => given == answer && (
            p.challenge matches Some(Ok(Some(c))) && state_json == c.state_json && now.nanos
                < c.expires_at.nanos && (c.user_id matches Some(owner) && signed_on(
                p.session,
                now,
                owner,
            ))),
            CompleteStep::ConsumeChallenge { id } => id == challenge_id,
            CompleteStep::CreateCredential(c) => c.id == credential_row && signed_on(
                p.session,
                now,
                c.user_id,
            ) && c.name@ == trimmed(name) && c.created_at == now && c.last_used_at is None
                && p.consumed && (p.ceremony matches Some(Ok(made)) && c.credential_id@
                == base64url_of(made.credential_id@) && made.passkey_json == Ok::<String, String>(
                c.passkey_json,
            )),
            CompleteStep::Done(Ok(id)) => id == credential_row && (p.created matches Some(Ok(_))),
            CompleteStep::Done(Err(PasskeyRegistrationError::SessionExpired)) =>
            p.session matches Some(Ok(found)) && (found matches Some(s) ==> s.idle_expires_at.nanos
                <= now.nanos || s.absolute_expires_at.nanos <= now.nanos),
            CompleteStep::Done(Err(PasskeyRegistrationError::ChallengeNotFound)) =>
            p.challenge matches Some(Ok(found)) && (found matches Some(c) ==> c.expires_at.nanos
                <= now.nanos || !(c.user_id matches Some(owner) && signed_on(
                p.session,
                now,
                owner,
            ))),
            CompleteStep::Done(Err(PasskeyRegistrationError::DuplicateCredential)) =>
            p.created matches Some(Err(DomainError::Conflict(_))),
            CompleteStep::Done(Err(PasskeyRegistrationError::InvalidCredential(_))) =>
            registration_answer_fault_of(answer@) is Some || (p.ceremony matches Some(Err(_))),
            CompleteStep::Done(Err(PasskeyRegistrationError::NotFound)) => false,
            CompleteStep::Done(Err(PasskeyRegistrationError::Internal(_))) => true,
        },
{
}

/// Users remove and see their own passkeys only: whatever is removed or listed is that of the user who
/// is signed on with the cookie at hand, and what is removed is what was named.
pub proof fn passkeys_are_managed_by_their_owner(
    sso_session_id: Seq<char>,
    credential_id: Uuid,
    now: Timestamp,
    session: Stored<Option<SsoSession>>,
    deleted: Stored<()>,
    listed: Stored<Vec<WebAuthnCredential>>,
    removing: ManageStep,
    listing: ManageStep,
)
    requires
        delete_rule(sso_session_id, credential_id, now, session, deleted, removing),
        list_rule(sso_session_id, now, session, listed, listing),
    ensures
        removing matches ManageStep::FindSession { session_hash } ==> session_hash@ == sha256_hex_of(
            sso_session_id,
        ),
        listing matches ManageStep::FindSession { session_hash } ==> session_hash@ == sha256_hex_of(
            sso_session_id,
        ),
        removing matches ManageStep::DeleteCredential { id, user_id } ==> id == credential_id
            && signed_on(session, now, user_id),
        listing matches ManageStep::ListCredentials { user_id } ==> signed_on(session, now, user_id),
        removing matches ManageStep::Deleted(Ok(_)) ==> (deleted matches Some(Ok(_))) && (
        session matches Some(Ok(Some(s))) && signed_on(session, now, s.user_id)),
        listing matches ManageStep::Listed(Ok(infos)) ==> (session matches Some(Ok(Some(s)))
            && signed_on(session, now, s.user_id)) && (listed matches Some(Ok(stored)) && infos@.len()
            == stored@.len() && forall|i: int|
            0 <= i < stored@.len() ==> (#[trigger] infos@[i]).id == stored@[i].id && infos@[i].name
                == stored@[i].name && infos@[i].created_at == stored@[i].created_at
                && infos@[i].last_used_at == stored@[i].last_used_at),
        !(removing is ListCredentials) && !(removing is Listed) && !(listing is DeleteCredential)
            && !(listing is Deleted),
        (removing matches ManageStep::Deleted(Err(PasskeyRegistrationError::SessionExpired))) ==> (
        session matches Some(Ok(found)) && (found matches Some(s) ==> s.idle_expires_at.nanos
            <= now.nanos || s.absolute_expires_at.nanos <= now.nanos)),
{
}

/// The words of an error end with what it is about.
pub proof fn an_error_says_what_it_is_about(m: String)
    ensures
        m@.is_suffix_of(PasskeyRegistrationError::InvalidCredential(m).text_of()),
        m@.is_suffix_of(PasskeyRegistrationError::Internal(m).text_of()),
{
    lemma_suffix("invalid credential response: "@, m@);
    lemma_suffix("internal error: "@, m@);
}

} // verus!
