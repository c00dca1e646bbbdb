//! Reading the documents of WebAuthn ceremonies.
//!
//! A ceremony's state, a browser's answer and a stored passkey are JSON documents that only the
//! `webauthn-rs` crate understands. The library asks it whether they can be read, and what an answer
//! makes of a passkey.
use crate::text::opt_view;
use vstd::prelude::*;

verus! {

/// What is wrong with the state of a sign-in ceremony; nothing where it can be read.
pub uninterp spec fn assertion_state_fault_of(state: Seq<char>) -> Option<Seq<char>>;

/// The credential that a browser's answer to a sign-in ceremony names, where it can be read.
pub uninterp spec fn answered_credential_of(answer: Seq<char>) -> Option<Seq<char>>;

/// What is wrong with a stored passkey; nothing where it can be read.
pub uninterp spec fn passkey_fault_of(passkey: Seq<char>) -> Option<Seq<char>>;

/// What is wrong with the state of a registration ceremony; nothing where it can be read.
pub uninterp spec fn registration_state_fault_of(state: Seq<char>) -> Option<Seq<char>>;

/// What is wrong with a browser's answer to a registration ceremony; nothing where it can be read.
pub uninterp spec fn registration_answer_fault_of(answer: Seq<char>) -> Option<Seq<char>>;

/// What an accepted answer makes of a stored passkey, as both are written in JSON: whether it has
/// changed, and how it is written now; or why one of them cannot be read.
pub uninterp spec fn updated_passkey_of(
    passkey: Seq<char>,
    result: Seq<char>,
) -> Result<(Option<bool>, Result<Seq<char>, Seq<char>>), Seq<char>>;

/// Trusted: `serde_json::from_str` reads a `webauthn_rs` `DiscoverableAuthentication`, or says what
/// is wrong; either depends on the text alone.
#[verifier::external_body]
pub(crate) fn assertion_state_fault(state: &str) -> (r: Option<String>)
    ensures
        opt_view(r) == assertion_state_fault_of(state@),
{
    serde_json::from_str::<webauthn_rs::prelude::DiscoverableAuthentication>(state)
        .err()
        .map(|e| e.to_string())
}

/// Trusted: `serde_json::from_str` reads a JSON value and `serde_json::from_value` a `webauthn_rs`
/// `PublicKeyCredential` out of it, whose field `id` is taken over; or one of them refuses.
#[verifier::external_body]
pub(crate) fn answered_credential(answer: &str) -> (r: Option<String>)
    ensures
        opt_view(r) == answered_credential_of(answer@),
{
    serde_json::from_str::<serde_json::Value>(answer)
        .and_then(serde_json::from_value::<webauthn_rs::prelude::PublicKeyCredential>)
        .ok()
        .map(|c| c.id)
}

/// Trusted: `serde_json::from_str` reads a `webauthn_rs` `Passkey`, or says what is wrong; either
/// depends on the text alone.
#[verifier::external_body]
pub(crate) fn passkey_fault(passkey: &str) -> (r: Option<String>)
    ensures
        opt_view(r) == passkey_fault_of(passkey@),
{
    serde_json::from_str::<webauthn_rs::prelude::Passkey>(passkey).err().map(|e| e.to_string())
}

/// What an accepted answer makes of a passkey.
pub struct PasskeyUpdate {
    /// Whether the answer has changed the passkey; none where it belongs to another one.
    pub changed: Option<bool>,
    /// The passkey as it is now, or why it cannot be written.
    pub passkey_json: Result<String, String>,
}

/// A text or a fault, as values.
pub open spec fn result_view(r: Result<String, String>) -> Result<Seq<char>, Seq<char>> {
    match r {
        Ok(text) => Ok(text@),
        Err(e) => Err(e@),
    }
}

/// Trusted: `serde_json::from_str` reads a `webauthn_rs` `Passkey` and an `AuthenticationResult`, or
/// says what is wrong; `Passkey::update_credential` brings the one up to date with the other and says
/// whether that has changed it; `serde_json::to_string` writes it down. All of it depends on the two
/// texts alone.
#[verifier::external_body]
pub(crate) fn updated_passkey(passkey: &str, result: &str) -> (r: Result<PasskeyUpdate, String>)
    ensures
        match r {
            Ok(u) => updated_passkey_of(passkey@, result@) == Ok::<
                (Option<bool>, Result<Seq<char>, Seq<char>>),
                Seq<char>,
            >((u.changed, result_view(u.passkey_json))),
            Err(e) => updated_passkey_of(passkey@, result@) == Err::<
                (Option<bool>, Result<Seq<char>, Seq<char>>),
                Seq<char>,
            >(e@),
        },
{
    let mut passkey = serde_json::from_str::<webauthn_rs::prelude::Passkey>(passkey)
        .map_err(|e| e.to_string())?;
    let result = serde_json::from_str::<webauthn_rs::prelude::AuthenticationResult>(result)
        .map_err(|e| e.to_string())?;
    let changed = passkey.update_credential(&result);
    let passkey_json = serde_json::to_string(&passkey).map_err(|e| e.to_string());
    Ok(PasskeyUpdate { changed, passkey_json })
}

/// Trusted: `serde_json::from_str` reads a `webauthn_rs` `PasskeyRegistration`, or says what is
/// wrong; either depends on the text alone.
#[verifier::external_body]
pub(crate) fn registration_state_fault(state: &str) -> (r: Option<String>)
    ensures
        opt_view(r) == registration_state_fault_of(state@),
{
    serde_json::from_str::<webauthn_rs::prelude::PasskeyRegistration>(state)
        .err()
        .map(|e| e.to_string())
}

/// Trusted: `serde_json::from_str` reads a JSON value and `serde_json::from_value` a `webauthn_rs`
/// `RegisterPublicKeyCredential` out of it, or one of them says what is wrong; either depends on the
/// text alone.
#[verifier::external_body]
pub(crate) fn registration_answer_fault(answer: &str) -> (r: Option<String>)
    ensures
        opt_view(r) == registration_answer_fault_of(answer@),
{
    serde_json::from_str::<serde_json::Value>(answer)
        .and_then(serde_json::from_value::<webauthn_rs::prelude::RegisterPublicKeyCredential>)
        .err()
        .map(|e| e.to_string())
}

} // verus!
