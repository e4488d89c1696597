//! Password hashing with Argon2id into self-describing PHC strings.
use argon2::password_hash::rand_core::OsRng;
use argon2::password_hash::{PasswordHash, PasswordHasher, PasswordVerifier, SaltString};
use argon2::Argon2;
use vstd::prelude::*;

verus! {

/// Text that must not be shown: it has no `Debug` and no `Clone`, and its
/// content is reached only through `expose_secret`.
pub struct SecretText {
    text: String,
}

impl View for SecretText {
    type V = Seq<char>;

    closed spec fn view(&self) -> Seq<char> {
        self.text@
    }
}

impl SecretText {
    pub fn new(text: String) -> (r: SecretText)
        ensures
            r@ == text@,
    {
        SecretText { text }
    }

    /// The one way to read the secret.
    pub fn expose_secret(&self) -> (r: &str)
        ensures
            r@ == self@,
    {
        self.text.as_str()
    }
}

/// Errors of the `password-hash` crate.
#[verifier::external_type_specification]
#[verifier::external_body]
pub struct ExHashError(argon2::password_hash::Error);

/// Hashing could not be carried out.
#[derive(Clone, Copy, Debug, PartialEq, Eq, Structural)]
pub struct HashError;

/// A stored hash that cannot be parsed or used: a data integrity problem, not
/// a wrong password.
#[derive(Clone, Copy, Debug, PartialEq, Eq, Structural)]
pub struct MalformedHash;

/// `$argon2id$v=19$`: how a PHC string of Argon2id, version 19, begins.
pub open spec fn argon2id_prefix() -> Seq<char> {
    seq!['$', 'a', 'r', 'g', 'o', 'n', '2', 'i', 'd', '$', 'v', '=', '1', '9', '$']
}

pub open spec fn is_argon2id_phc(s: Seq<char>) -> bool {
    s.len() > argon2id_prefix().len() && s.subrange(0, argon2id_prefix().len() as int)
        == argon2id_prefix()
}

/// Passwords of at most this many characters are at most `u32::MAX` bytes
/// long, which is all that Argon2 asks of a password.
pub open spec fn password_fits(p: Seq<char>) -> bool {
    p.len() <= 0x3FFF_FFFF
}

/// Whether Argon2 (`Argon2::default().verify_password`) finds that `phc`, a
/// PHC string, is a hash of the password `password`.
pub uninterp spec fn argon2id_verifies(password: Seq<char>, phc: Seq<char>) -> bool;

/// Whether `phc` parses as a PHC string whose algorithm, version, parameters
/// and salt Argon2 accepts, so that checking a password that fits against it
/// ends in a match or a mismatch, never in an error.
pub uninterp spec fn phc_usable(phc: Seq<char>) -> bool;

/// What checking `password` against the stored string `phc` yields.
pub open spec fn verification(password: Seq<char>, phc: Seq<char>) -> Result<bool, MalformedHash> {
    if phc_usable(phc) {
        Ok(argon2id_verifies(password, phc))
    } else {
        Err(MalformedHash)
    }
}

/// Relies on `PasswordHasher::hash_password` of `Argon2::default()` (Argon2id,
/// version 19, default parameters) with a fresh salt from
/// `SaltString::generate(&mut OsRng)`. With those parameters it fails only on
/// a password over `u32::MAX` bytes. The hash is written out by
/// `PasswordHash`'s `Display`, which begins with `$argon2id$v=19$` and then the
/// parameters, the salt and the digest; that string parses back, and Argon2
/// recomputes the same digest from it and the same password.
#[verifier::external_body]
fn argon2_hash(password: &str) -> (r: Result<String, argon2::password_hash::Error>)
    ensures
        r matches Ok(h) ==> is_argon2id_phc(h@),
        r matches Ok(h) ==> phc_usable(h@) && argon2id_verifies(password@, h@),
        password_fits(password@) ==> r is Ok,
{
    Argon2::default().hash_password(password.as_bytes(), &SaltString::generate(&mut OsRng)).map(
        |h| h.to_string(),
    )
}

/// Relies on `PasswordHash::new`, which parses the stored string, and then on
/// `PasswordVerifier::verify_password` of `Argon2::default()`: `Ok(())` on a
/// match, `Error::Password` on a mismatch, another error when the string does
/// not parse or names what Argon2 cannot use.
#[verifier::external_body]
fn argon2_verify(password: &str, hash: &str) -> (r: Result<bool, argon2::password_hash::Error>)
    ensures
        r matches Ok(b) ==> b == argon2id_verifies(password@, hash@),
        password_fits(password@) ==> (r is Ok <==> phc_usable(hash@)),
{
    let parsed = PasswordHash::new(hash)?;
    match Argon2::default().verify_password(password.as_bytes(), &parsed) {
        Ok(()) => Ok(true),
        Err(argon2::password_hash::Error::Password) => Ok(false),
        Err(e) => Err(e),
    }
}

/// Hashes a password with Argon2id and a fresh random salt. The result is a
/// PHC string that holds the algorithm, its parameters, the salt and the
/// digest, so that the password can be checked later.
pub fn hash_password(password: SecretText) -> (r: Result<SecretText, HashError>)
    ensures
        password_fits(password@) ==> r is Ok,
        r matches Ok(h) ==> verification(password@, h@) == Ok::<bool, MalformedHash>(true),
        r matches Ok(h) ==> is_argon2id_phc(h@),
        r matches Ok(h) ==> !is_argon2id_phc(password@) ==> h@ != password@,
{
    match argon2_hash(password.expose_secret()) {
        Ok(h) => Ok(SecretText::new(h)),
        Err(_) => Err(HashError),
    }
}

/// Checks a password against a stored PHC string: `Ok(false)` when it does
/// not match, `MalformedHash` when the string cannot be parsed or used.
pub fn verify_password(password: &SecretText, hash: &str) -> (r: Result<bool, MalformedHash>)
    ensures
        password_fits(password@) ==> r == verification(password@, hash@),
        r matches Ok(b) ==> b == argon2id_verifies(password@, hash@),
{
    match argon2_verify(password.expose_secret(), hash) {
        Ok(matched) => Ok(matched),
        Err(_) => Err(MalformedHash),
    }
}

} // verus!
