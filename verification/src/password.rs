//! Password hashes: Argon2 with a random salt, kept as a PHC string.

use argon2::password_hash::rand_core::OsRng;
use argon2::password_hash::{PasswordHash, SaltString};
use argon2::{Argon2, PasswordHasher, PasswordVerifier};
use vstd::prelude::*;

use crate::auth::AuthError;
use crate::phc::{check_lanes, lanes_fit};

verus! {

/// The longest password, in bytes, that Argon2 takes.
pub const MAX_PASSWORD_BYTES: usize = 0xFFFFFFFF;

/// Whether Argon2 takes a password of this length.
pub open spec fn fits_argon2(password: Seq<char>) -> bool {
    vstd::utf8::encode_utf8(password).len() <= MAX_PASSWORD_BYTES
}

/// The error type of the password hashing crate.
#[verifier::external_type_specification]
#[verifier::external_body]
pub struct ExPasswordHashError(argon2::password_hash::Error);

/// The PHC string that Argon2, with its default parameters, makes of a password
/// and a salt; nothing where it refuses one of them.
pub uninterp spec fn argon2_hash(password: Seq<char>, salt: Seq<char>) -> Option<Seq<char>>;

/// Whether a text has the form of a PHC string.
pub uninterp spec fn is_phc_string(text: Seq<char>) -> bool;

/// Whether Argon2 finds that a password belongs to a PHC string.
pub uninterp spec fn argon2_accepts(password: Seq<char>, phc: Seq<char>) -> bool;

/// A character of the Base64 alphabet.
pub open spec fn is_base64_char(c: char) -> bool {
    'A' <= c <= 'Z' || 'a' <= c <= 'z' || '0' <= c <= '9' || c == '+' || c == '/'
}

/// Sixteen bytes in Base64 without padding: 22 characters, the last of which
/// carries two bits.
pub open spec fn is_salt(text: Seq<char>) -> bool {
    &&& text.len() == 22
    &&& forall|i: int| 0 <= i < 22 ==> is_base64_char(#[trigger] text[i])
    &&& text[21] == 'A' || text[21] == 'Q' || text[21] == 'g' || text[21] == 'w'
}

/// Draws a salt with `SaltString::generate` from the random source of the
/// operating system.
///
/// Claimed of every draw: it is sixteen bytes in Base64. Which sixteen is chance.
#[verifier::external_body]
pub(crate) fn random_salt() -> (salt: String)
    ensures
        is_salt(salt@),
{
    SaltString::generate(&mut OsRng).as_str().to_string()
}

/// Hashes a password with `Argon2::default().hash_password`.
///
/// Claimed: the outcome depends on the password and the salt alone; a password
/// of more than `MAX_PASSWORD_BYTES` bytes is always refused, and any other
/// never is with a salt as `random_salt` draws it; and the text that comes out has the form of a PHC string
/// to which Argon2 finds that the password belongs, with a single lane.
#[verifier::external_body]
fn argon2_hash_password(password: &str, salt: &str) -> (res: Result<
    String,
    argon2::password_hash::Error,
>)
    ensures
        argon2_hash(password@, salt@) == (match res {
            Ok(phc) => Some(phc@),
            Err(_) => None,
        }),
        !fits_argon2(password@) ==> res is Err,
        is_salt(salt@) && fits_argon2(password@) ==> res is Ok,
        res matches Ok(phc) ==> is_phc_string(phc@) && lanes_fit(phc@) && argon2_accepts(
            password@,
            phc@,
        ),
{
    let salt = SaltString::from_b64(salt)?;
    let hash = Argon2::default().hash_password(password.as_bytes(), &salt)?;
    Ok(hash.to_string())
}

/// Reads a PHC string with `PasswordHash::new`, and keeps only whether it
/// could.
///
/// Claimed: whether it could depends on the text alone.
#[verifier::external_body]
fn phc_parse(text: &str) -> (res: Result<(), argon2::password_hash::Error>)
    ensures
        res is Ok == is_phc_string(text@),
{
    PasswordHash::new(text)?;
    Ok(())
}

/// Holds a password against a PHC string with
/// `Argon2::default().verify_password`.
///
/// Claimed: whether it succeeds depends on the two texts alone. The number of
/// lanes is multiplied by eight in 32 bits before it is looked at, which
/// overflows from `0x20000000` on, so longer numbers are kept out. How much
/// memory the call takes is written in the PHC string; that there is enough of
/// it is left unsaid.
#[verifier::external_body]
fn argon2_verify(password: &str, phc: &str) -> (res: Result<(), argon2::password_hash::Error>)
    requires
        is_phc_string(phc@),
        lanes_fit(phc@),
    ensures
        res is Ok == argon2_accepts(password@, phc@),
{
    let parsed = PasswordHash::new(phc)?;
    Argon2::default().verify_password(password.as_bytes(), &parsed)
}

/// What comes of hashing `password` with `salt`.
pub open spec fn hash_outcome(password: Seq<char>, salt: Seq<char>) -> Result<
    Seq<char>,
    AuthError,
> {
    match argon2_hash(password, salt) {
        Some(phc) => Ok(phc),
        None => Err(AuthError::HashError),
    }
}

/// Whether `hash` was made of `password` with some salt as `random_salt` draws
/// it.
pub open spec fn is_hash_of(password: Seq<char>, hash: Seq<char>) -> bool {
    &&& is_phc_string(hash)
    &&& belongs_to(password, hash)
    &&& exists|salt: Seq<char>| is_salt(salt) && #[trigger] argon2_hash(password, salt) == Some(hash)
}

/// Whether `password` belongs to a PHC string; none belongs to one with more
/// lanes than Argon2 takes.
pub open spec fn belongs_to(password: Seq<char>, phc: Seq<char>) -> bool {
    lanes_fit(phc) && argon2_accepts(password, phc)
}

/// What holding `password` against the stored text `hash` leads to, where
/// `readable` says whether the text has the form of a PHC string and `accepted`
/// whether the password belongs to it.
pub open spec fn check_outcome(readable: bool, accepted: bool) -> Result<(), AuthError> {
    if !readable {
        Err(AuthError::HashError)
    } else if !accepted {
        Err(AuthError::InvalidCredentials)
    } else {
        Ok(())
    }
}

/// Hashes a password with a given salt.
pub fn hash_with_salt(password: &str, salt: &str) -> (res: Result<String, AuthError>)
    ensures
        hash_outcome(password@, salt@) == (match res {
            Ok(hash) => Ok::<Seq<char>, AuthError>(hash@),
            Err(e) => Err(e),
        }),
        is_salt(salt@) ==> (res is Ok <==> fits_argon2(password@)),
        is_salt(salt@) ==> (res matches Ok(hash) ==> is_hash_of(password@, hash@)),
{
    match argon2_hash_password(password, salt) {
        Ok(hash) => Ok(hash),
        Err(_) => Err(AuthError::HashError),
    }
}

/// What a check of a password leads to, once it is known whether the stored
/// text is readable and whether the password belongs to it.
pub fn conclude_check(readable: bool, accepted: bool) -> (res: Result<(), AuthError>)
    ensures
        res == check_outcome(readable, accepted),
{
    if !readable {
        Err(AuthError::HashError)
    } else if !accepted {
        Err(AuthError::InvalidCredentials)
    } else {
        Ok(())
    }
}

/// Holds a password against a stored hash.
pub fn check_password(hash: &str, password: &str) -> (res: Result<(), AuthError>)
    ensures
        res == check_outcome(is_phc_string(hash@), belongs_to(password@, hash@)),
{
    if phc_parse(hash).is_err() {
        return conclude_check(false, false);
    }
    if !check_lanes(hash) {
        return conclude_check(true, false);
    }
    let accepted = argon2_verify(password, hash).is_ok();
    conclude_check(true, accepted)
}

/// A password passes the check against every hash that was made of it.
pub proof fn own_password_is_accepted(password: Seq<char>, hash: Seq<char>)
    requires
        is_hash_of(password, hash),
    ensures
        check_outcome(is_phc_string(hash), belongs_to(password, hash)) == Ok::<(), AuthError>(
            (),
        ),
{
}

} // verus!
