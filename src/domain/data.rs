//! The one way by which a request body becomes a typed payload: it is
//! deserialized, then sanitized, and only then handed out.
use vstd::prelude::*;

use super::sanitize::{InvalidInput, Sanitize};

verus! {

/// Why a request body did not yield a payload.
#[derive(Clone, Copy, Debug, PartialEq, Eq, Structural)]
pub enum ExtractError {
    /// The body does not parse against the payload's schema.
    MalformedBody,
    /// The body parses, but a text field breaks the text policy.
    InvalidInput(InvalidInput),
}

/// A payload that has passed sanitization.
pub struct Data<T: Sanitize> {
    pub data: T,
}

impl<T: Sanitize> Data<T> {
    /// Sanitizes a deserialized payload; `None` stands for a body that did
    /// not parse against the schema.
    pub fn extract(parsed: Option<T>) -> (r: Result<Data<T>, ExtractError>)
        ensures
            parsed is None ==> r == Err::<Data<T>, ExtractError>(ExtractError::MalformedBody),
            parsed matches Some(v) ==> {
                &&& r is Ok <==> v.is_acceptable()
                &&& r matches Ok(d) ==> v.is_sanitized_form(&d.data)
                &&& r matches Err(e) ==> e == ExtractError::InvalidInput(
                    InvalidInput { field: v.rejected_field() },
                )
            },
    {
        match parsed {
            None => Err(ExtractError::MalformedBody),
            Some(v) => {
                let mut data = v;
                match data.sanitize() {
                    Ok(()) => Ok(Data { data }),
                    Err(e) => Err(ExtractError::InvalidInput(e)),
                }
            },
        }
    }
}

} // verus!
