//! The least that is asked of any password.
use vstd::prelude::*;

verus! {

/// The least number of characters.
pub const MIN_PASSWORD_LENGTH: usize = 8;

/// Whether a password is long enough.
pub open spec fn strong_enough(password: Seq<char>) -> bool {
    password.len() >= MIN_PASSWORD_LENGTH
}

/// Checks the length of a password.
pub fn validate_password_strength(password: &str) -> (r: Result<(), String>)
    ensures
        r is Ok <==> strong_enough(password@),
        r matches Err(m) ==> m@ == "password must be at least 8 characters"@,
{
    if password.unicode_len() >= MIN_PASSWORD_LENGTH {
        Ok(())
    } else {
        Err("password must be at least 8 characters".to_owned())
    }
}

} // verus!
