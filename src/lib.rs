//! Secure input pipeline for user registration: a text sanitization policy,
//! a sanitize-before-yield request extractor, password hashing, and the
//! decisions of the registration endpoint.
pub mod crypto;
pub mod domain;
pub mod registration;

pub use crypto::{hash_password, verify_password, HashError, MalformedHash, SecretText};
pub use domain::{
    contains_sql_escape_chars, extract_registration, is_empty_or_whitespace, is_too_long,
    is_valid_text_input, sanitize_email, sanitize_username, Data, ExtractError, Field,
    InvalidInput, RegisterFields, RegisterUser, Sanitize, UpdateUser,
};
pub use registration::{
    registration_record, response_status, RegistrationError, StoreError, UserRecord,
};
