//! The decisions of the registration endpoint: from the fields of a body to
//! the record to store, and from the outcome to the response status.
use uuid::Uuid;
use vstd::prelude::*;

use crate::crypto::{
    hash_password, is_argon2id_phc, password_fits, verification, HashError, MalformedHash, SecretText,
};
use crate::domain::data::ExtractError;
use crate::domain::sanitize::{email_outcome, username_outcome, InvalidInput, Sanitize};
use crate::domain::user::{extract_registration, RegisterFields};

verus! {

/// uuid's 128-bit identifier.
#[verifier::external_type_specification]
#[verifier::external_body]
pub struct ExUuid(Uuid);

/// Relies on `Uuid::now_v7`: a version 7 identifier from the clock and random
/// bits; nothing is promised of its value.
pub assume_specification[ Uuid::now_v7 ]() -> Uuid;

/// Why the store refused a record.
#[derive(Clone, Copy, Debug, PartialEq, Eq, Structural)]
pub enum StoreError {
    /// A record with the same unique key (the e-mail address) exists.
    UniqueViolation,
    ConnectionFailure,
    Other,
}

/// Why a registration did not complete.
#[derive(Clone, Copy, Debug, PartialEq, Eq, Structural)]
pub enum RegistrationError {
    MalformedBody,
    InvalidInput(InvalidInput),
    Hash(HashError),
    Store(StoreError),
}

/// A record ready for the store: sanitized text and a hashed password.
pub struct UserRecord {
    pub id: Uuid,
    pub name: String,
    pub email: String,
    pub password_hash: SecretText,
}

/// Builds the record that a registration body asks for: the body is
/// extracted (parsed fields, then sanitized), the password is hashed, and a
/// time-ordered identifier is drawn. `None` stands for a body that is not a
/// JSON object of strings.
pub fn registration_record(body: Option<RegisterFields>) -> (r: Result<
    UserRecord,
    RegistrationError,
>)
    ensures
        body is None || !body->0.is_complete() ==> r == Err::<UserRecord, RegistrationError>(
            RegistrationError::MalformedBody,
        ),
        body matches Some(f) ==> f.is_complete() ==> {
            &&& !f.user().is_acceptable() ==> r == Err::<UserRecord, RegistrationError>(
                RegistrationError::InvalidInput(InvalidInput { field: f.user().rejected_field() }),
            )
            &&& f.user().is_acceptable() ==> (r is Ok || r == Err::<UserRecord, RegistrationError>(
                RegistrationError::Hash(HashError),
            ))
            &&& f.user().is_acceptable() && password_fits(f.password->0@) ==> r is Ok
            &&& r matches Ok(rec) ==> {
                &&& rec.name@ == username_outcome(f.name->0@)->0
                &&& rec.email@ == email_outcome(f.email->0@)->0
                &&& is_argon2id_phc(rec.password_hash@)
                &&& verification(f.password->0@, rec.password_hash@) == Ok::<bool, MalformedHash>(
                    true,
                )
            }
        },
{
    let payload = match extract_registration(body) {
        Ok(d) => d.data,
        Err(ExtractError::MalformedBody) => return Err(RegistrationError::MalformedBody),
        Err(ExtractError::InvalidInput(e)) => return Err(RegistrationError::InvalidInput(e)),
    };
    let password_hash = match hash_password(payload.password) {
        Ok(h) => h,
        Err(e) => return Err(RegistrationError::Hash(e)),
    };
    Ok(UserRecord { id: Uuid::now_v7(), name: payload.name, email: payload.email, password_hash })
}

/// The HTTP status of a registration's outcome.
pub open spec fn status_of(outcome: Result<(), RegistrationError>) -> u16 {
    match outcome {
        Ok(()) => 200,
        Err(RegistrationError::MalformedBody) => 400,
        Err(RegistrationError::InvalidInput(_)) => 400,
        Err(RegistrationError::Store(StoreError::UniqueViolation)) => 409,
        Err(_) => 500,
    }
}

/// The HTTP status to answer a registration with: 200 on success, 400 for a
/// malformed or invalid body, 409 when the address is taken, and 500 for a
/// failure of hashing or of the store.
pub fn response_status(outcome: &Result<(), RegistrationError>) -> (r: u16)
    ensures
        r == status_of(*outcome),
{
    match outcome {
        Ok(()) => 200,
        Err(RegistrationError::MalformedBody) => 400,
        Err(RegistrationError::InvalidInput(_)) => 400,
        Err(RegistrationError::Store(StoreError::UniqueViolation)) => 409,
        Err(_) => 500,
    }
}

} // verus!
