//! The payloads that clients send and the policy that their text meets.
pub mod data;
pub mod policy;
pub mod sanitize;
pub mod user;

pub use data::{Data, ExtractError};
pub use sanitize::{
    contains_sql_escape_chars, is_empty_or_whitespace, is_too_long, is_valid_text_input,
    sanitize_email, sanitize_username, Field, InvalidInput, Sanitize,
};
pub use user::{extract_registration, RegisterFields, RegisterUser, UpdateUser};
