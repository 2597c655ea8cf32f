pub mod api;
pub mod auth;
pub mod config;
pub mod crypto;
pub mod hash_failure;
pub mod helpers;
pub mod messages;
pub mod repository;
pub mod services;
pub mod settings;
pub mod text;
pub mod types;
pub mod unicode;

use crate::auth::AuthError;
use crate::hash_failure::hash_failure_text;
use crate::helpers::error::DatabaseErrorKind;
use vstd::prelude::*;

verus! {

/// The message that each kind of authentication failure is reported with.
pub open spec fn auth_error_message(err: AuthError, msg: Seq<char>) -> bool {
    match err {
        AuthError::IncorrectPassword => msg == "The password given does not match our records"@,
        AuthError::NoNameSet => msg == "No name given. You need to set NAME enviroment variable "@,
        AuthError::NoEmailSet => msg == "No email given. You need to set the EMAIL environment variable."@,
        AuthError::NoPasswordSet => msg
            == "No password given. You need to set the PASSWORD environment variable."@,
        AuthError::EnvironmentError(rep) => msg == rep@[0],
        AuthError::Argon2Error(f) => msg == hash_failure_text(f),
        AuthError::DatabaseError(e) => msg == e.report@[0],
    }
}

/// The message that reports an authentication failure.
pub fn convert_auth_error(err: AuthError) -> (r: String)
    ensures
        auth_error_message(err, r@),
{
    match err {
        AuthError::IncorrectPassword => String::from_str("The password given does not match our records"),
        AuthError::NoNameSet => String::from_str("No name given. You need to set NAME enviroment variable "),
        AuthError::NoEmailSet => String::from_str(
            "No email given. You need to set the EMAIL environment variable.",
        ),
        AuthError::NoPasswordSet => String::from_str(
            "No password given. You need to set the PASSWORD environment variable.",
        ),
        AuthError::EnvironmentError(rep) => String::from_str(rep.message()),
        AuthError::Argon2Error(f) => f.message(),
        AuthError::DatabaseError(e) => String::from_str(e.report.message()),
    }
}

/// The answer to a request for the current user, given what finding the
/// user gave: the user, or a message saying why there is none.
pub fn current_user(found: Result<Option<auth::User>, AuthError>) -> (r: Result<auth::User, String>)
    ensures
        match found {
            Ok(Some(u)) => r == Ok::<auth::User, String>(u),
            Ok(None) => r matches Err(m) && m@ == "No user found with the given username"@,
            Err(e) => r matches Err(m) && auth_error_message(e, m@),
        },
{
    match found {
        Ok(Some(user)) => Ok(user),
        Ok(None) => Err(String::from_str("No user found with the given username")),
        Err(e) => Err(convert_auth_error(e)),
    }
}

/// The answer to a registration, given what registering the user gave: a
/// violated unique constraint means the user exists already.
pub fn register_user(registered: Result<auth::User, AuthError>) -> (r: Result<(), String>)
    ensures
        match registered {
            Ok(_) => r is Ok,
            Err(AuthError::DatabaseError(e)) => if e.kind == DatabaseErrorKind::UniqueViolation {
                r matches Err(m) && m@ == "A user with that name already exists"@
            } else {
                r matches Err(m) && m@ == e.report@[0]
            },
            Err(e) => r matches Err(m) && auth_error_message(e, m@),
        },
{
    match registered {
        Ok(_) => Ok(()),
        Err(AuthError::DatabaseError(e)) => {
            if e.kind == DatabaseErrorKind::UniqueViolation {
                Err(String::from_str("A user with that name already exists"))
            } else {
                Err(convert_auth_error(AuthError::DatabaseError(e)))
            }
        },
        Err(e) => Err(convert_auth_error(e)),
    }
}

} // verus!
