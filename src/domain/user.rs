//! The payloads that clients send about users.
use crate::crypto::SecretText;
use vstd::prelude::*;

use super::data::{Data, ExtractError};
use super::sanitize::{
    email_outcome, sanitize_email, sanitize_username, username_outcome, Field, InvalidInput,
    Sanitize,
};

verus! {

/// A registration request.
pub struct RegisterUser {
    pub name: String,
    pub email: String,
    pub password: SecretText,
}

/// The fields of a registration body as they were found in it.
pub struct RegisterFields {
    pub name: Option<String>,
    pub email: Option<String>,
    pub password: Option<SecretText>,
}

impl RegisterFields {
    pub open spec fn is_complete(&self) -> bool {
        self.name is Some && self.email is Some && self.password is Some
    }

    /// The request that complete fields make.
    pub open spec fn user(&self) -> RegisterUser {
        RegisterUser { name: self.name->0, email: self.email->0, password: self.password->0 }
    }
}

impl RegisterUser {
    /// A registration request from the fields of a body, if none is missing.
    pub fn from_fields(fields: RegisterFields) -> (r: Option<RegisterUser>)
        ensures
            r is Some <==> fields.is_complete(),
            r matches Some(u) ==> u.name == fields.name->0 && u.email == fields.email->0
                && u.password == fields.password->0,
    {
        match (fields.name, fields.email, fields.password) {
            (Some(name), Some(email), Some(password)) => Some(RegisterUser { name, email, password }),
            _ => None,
        }
    }
}

impl Sanitize for RegisterUser {
    open spec fn is_acceptable(&self) -> bool {
        username_outcome(self.name@) is Some && email_outcome(self.email@) is Some
    }

    open spec fn rejected_field(&self) -> Field {
        if username_outcome(self.name@) is None {
            Field::Name
        } else {
            Field::Email
        }
    }

    open spec fn is_sanitized_form(&self, out: &Self) -> bool {
        &&& out.name@ == username_outcome(self.name@)->0
        &&& out.email@ == email_outcome(self.email@)->0
        &&& out.password == self.password
    }

    fn sanitize(&mut self) -> (r: Result<(), InvalidInput>) {
        let name = match sanitize_username(self.name.clone()) {
            Ok(name) => name,
            Err(e) => return Err(e),
        };
        let email = match sanitize_email(self.email.clone()) {
            Ok(email) => email,
            Err(e) => return Err(e),
        };
        self.name = name;
        self.email = email;
        Ok(())
    }
}

/// A request to change some of a user's fields; absent fields stay as they are.
pub struct UpdateUser {
    pub name: Option<String>,
    pub email: Option<String>,
    pub password: Option<SecretText>,
}

impl Sanitize for UpdateUser {
    open spec fn is_acceptable(&self) -> bool {
        &&& self.name matches Some(n) ==> username_outcome(n@) is Some
        &&& self.email matches Some(e) ==> email_outcome(e@) is Some
    }

    open spec fn rejected_field(&self) -> Field {
        if self.name matches Some(n) && username_outcome(n@) is None {
            Field::Name
        } else {
            Field::Email
        }
    }

    open spec fn is_sanitized_form(&self, out: &Self) -> bool {
        &&& match self.name {
            Some(n) => out.name matches Some(m) && m@ == username_outcome(n@)->0,
            None => out.name is None,
        }
        &&& match self.email {
            Some(e) => out.email matches Some(m) && m@ == email_outcome(e@)->0,
            None => out.email is None,
        }
        &&& out.password == self.password
    }

    fn sanitize(&mut self) -> (r: Result<(), InvalidInput>) {
        let name = match &self.name {
            Some(n) => match sanitize_username(n.clone()) {
                Ok(m) => Some(m),
                Err(e) => return Err(e),
            },
            None => None,
        };
        let email = match &self.email {
            Some(e) => match sanitize_email(e.clone()) {
                Ok(m) => Some(m),
                Err(err) => return Err(err),
            },
            None => None,
        };
        self.name = name;
        self.email = email;
        Ok(())
    }
}

/// Turns the fields found in a registration body into a sanitized request.
/// `None` stands for a body that is not a JSON object of strings; a body
/// without one of the three fields is malformed too.
pub fn extract_registration(body: Option<RegisterFields>) -> (r: Result<
    Data<RegisterUser>,
    ExtractError,
>)
    ensures
        body is None || !body->0.is_complete() ==> r == Err::<Data<RegisterUser>, ExtractError>(
            ExtractError::MalformedBody,
        ),
        body matches Some(f) ==> f.is_complete() ==> {
            &&& r is Ok <==> f.user().is_acceptable()
            &&& r matches Ok(d) ==> f.user().is_sanitized_form(&d.data)
            &&& r matches Err(e) ==> e == ExtractError::InvalidInput(
                InvalidInput { field: f.user().rejected_field() },
            )
        },
{
    match body {
        None => Err(ExtractError::MalformedBody),
        Some(fields) => Data::extract(RegisterUser::from_fields(fields)),
    }
}

} // verus!
