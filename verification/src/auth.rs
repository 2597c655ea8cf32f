//! Finding and registering users by e-mail address and password.
use crate::crypto::{
    argon2_max_password_bytes, argon2_phc, argon2_verdict, generate_os_salt, hash_password,
    is_generated_salt, parse_phc, phc_well_formed, verify_password_hash, VerifyFailure,
};
use crate::hash_failure::{hash_failure_of, HashFailure};
use crate::helpers::error::{DatabaseError, DatabaseErrorKind, Report};
use crate::types::password::is_argon2id_phc;
use vstd::prelude::*;
use vstd::utf8::encode_utf8;

verus! {

/// Why finding or registering a user failed.
#[derive(Debug)]
pub enum AuthError {
    IncorrectPassword,
    NoEmailSet,
    NoNameSet,
    NoPasswordSet,
    /// Reading the environment failed.
    EnvironmentError(Report),
    /// The password hashing library failed.
    Argon2Error(HashFailure),
    /// The database failed.
    DatabaseError(DatabaseError),
}

/// A plain-value picture of an `AuthError`.
#[derive(PartialEq, Eq)]
pub enum AuthErrorKind {
    IncorrectPassword,
    NoEmailSet,
    NoNameSet,
    NoPasswordSet,
    EnvironmentError,
    Argon2Error,
    DatabaseError(DatabaseErrorKind),
}

impl AuthError {
    /// The variant of the error, with the database failure's kind.
    pub open spec fn kind(&self) -> AuthErrorKind {
        match self {
            AuthError::IncorrectPassword => AuthErrorKind::IncorrectPassword,
            AuthError::NoEmailSet => AuthErrorKind::NoEmailSet,
            AuthError::NoNameSet => AuthErrorKind::NoNameSet,
            AuthError::NoPasswordSet => AuthErrorKind::NoPasswordSet,
            AuthError::EnvironmentError(_) => AuthErrorKind::EnvironmentError,
            AuthError::Argon2Error(_) => AuthErrorKind::Argon2Error,
            AuthError::DatabaseError(e) => AuthErrorKind::DatabaseError(e.kind),
        }
    }
}

/// A registered user.
#[derive(Debug, PartialEq, Eq)]
pub struct User {
    pub id: i32,
    pub email: String,
}

/// A registered user with the PHC string of their password hash.
#[derive(Debug)]
pub struct UserWithPassword {
    pub user: User,
    pub password: String,
}

/// Why reading an environment variable failed.
#[derive(Debug)]
pub enum EnvVarError {
    /// The variable is not set.
    NotPresent,
    /// Any other failure, with its report.
    Other(Report),
}

/// Turns a failure to read a variable into the given error when the variable
/// is not set, and into an environment error otherwise.
pub fn if_not_present<T>(res: Result<T, EnvVarError>, on_not_present: AuthError) -> (r: Result<T, AuthError>)
    ensures
        match res {
            Ok(v) => r == Ok::<T, AuthError>(v),
            Err(EnvVarError::NotPresent) => r == Err::<T, AuthError>(on_not_present),
            Err(EnvVarError::Other(rep)) => r == Err::<T, AuthError>(AuthError::EnvironmentError(rep)),
        },
{
    match res {
        Ok(v) => Ok(v),
        Err(EnvVarError::NotPresent) => Err(on_not_present),
        Err(EnvVarError::Other(rep)) => Err(AuthError::EnvironmentError(rep)),
    }
}

/// The e-mail address read from the environment: a missing variable is
/// `NoEmailSet`.
pub fn get_email(var: Result<String, EnvVarError>) -> (r: Result<String, AuthError>)
    ensures
        match var {
            Ok(v) => r == Ok::<String, AuthError>(v),
            Err(EnvVarError::NotPresent) => r == Err::<String, AuthError>(AuthError::NoEmailSet),
            Err(EnvVarError::Other(rep)) => r == Err::<String, AuthError>(AuthError::EnvironmentError(rep)),
        },
{
    if_not_present(var, AuthError::NoEmailSet)
}

/// The password read from the environment: a missing variable is
/// `NoPasswordSet`.
pub fn get_password(var: Result<String, EnvVarError>) -> (r: Result<String, AuthError>)
    ensures
        match var {
            Ok(v) => r == Ok::<String, AuthError>(v),
            Err(EnvVarError::NotPresent) => r == Err::<String, AuthError>(AuthError::NoPasswordSet),
            Err(EnvVarError::Other(rep)) => r == Err::<String, AuthError>(AuthError::EnvironmentError(rep)),
        },
{
    if_not_present(var, AuthError::NoPasswordSet)
}

/// What looking a user up by e-mail address and checking the password
/// decides, given the stored user and hash (if any) and the password. A
/// stored hash that does not parse, or an error of the verifier, is an
/// `Argon2Error`; a password that does not match is `IncorrectPassword`.
pub open spec fn find_user_spec(stored: Option<(User, Seq<char>)>, password: Seq<char>) -> Result<
    Option<User>,
    AuthErrorKind,
> {
    match stored {
        None => Ok(None),
        Some((user, hash)) => if !phc_well_formed(hash) {
            Err(AuthErrorKind::Argon2Error)
        } else {
            match argon2_verdict(password, hash) {
                Some(true) => Ok(Some(user)),
                Some(false) => Err(AuthErrorKind::IncorrectPassword),
                None => Err(AuthErrorKind::Argon2Error),
            }
        },
    }
}

/// The kind-level view of a result.
pub open spec fn result_kind<T>(r: Result<T, AuthError>) -> Result<T, AuthErrorKind> {
    match r {
        Ok(v) => Ok(v),
        Err(e) => Err(e.kind()),
    }
}

/// Finds the user that the lookup by e-mail address gave, if the password
/// matches their stored hash.
pub fn find_user(record: Result<Option<UserWithPassword>, DatabaseError>, password: &str) -> (r: Result<
    Option<User>,
    AuthError,
>)
    ensures
        match record {
            Err(e) => r == Err::<Option<User>, AuthError>(AuthError::DatabaseError(e)),
            Ok(found) => result_kind(r) == find_user_spec(
                match found {
                    Some(u) => Some((u.user, u.password@)),
                    None => None,
                },
                password@,
            ),
        },
{
    let user_and_password = match record {
        Ok(found) => found,
        Err(e) => {
            return Err(AuthError::DatabaseError(e));
        },
    };
    if let Some(user_and_password) = user_and_password {
        if let Err((e, _)) = parse_phc(user_and_password.password.as_str()) {
            return Err(AuthError::Argon2Error(hash_failure_of(&e)));
        }
        match verify_password_hash(password, user_and_password.password.as_str()) {
            Ok(()) => Ok(Some(user_and_password.user)),
            Err(VerifyFailure::Mismatch) => Err(AuthError::IncorrectPassword),
            Err(VerifyFailure::Other(e)) => Err(AuthError::Argon2Error(hash_failure_of(&e))),
        }
    } else {
        Ok(None)
    }
}

/// A user whose stored hash was made from the password is found by it.
pub proof fn lemma_registered_user_is_found(user: User, hash: Seq<char>, password: Seq<char>)
    requires
        phc_well_formed(hash),
        argon2_verdict(password, hash) == Some(true),
    ensures
        find_user_spec(Some((user, hash)), password) == Ok::<Option<User>, AuthErrorKind>(Some(user)),
{
}

/// The hash to store for a new user's password, made with the given salt.
pub fn registration_hash_with_salt(password: &str, salt: &str) -> (r: Result<String, AuthError>)
    ensures
        match r {
            Ok(h) => argon2_phc(password@, salt@) == Some(h@),
            Err(e) => argon2_phc(password@, salt@) is None && e.kind() == AuthErrorKind::Argon2Error,
        },
        r matches Ok(h) ==> forall|u: User| #[trigger]
            find_user_spec(Some((u, h@)), password@) == Ok::<Option<User>, AuthErrorKind>(Some(u)),
        r matches Ok(h) ==> is_argon2id_phc(h@),
        is_generated_salt(salt@) && encode_utf8(password@).len() <= argon2_max_password_bytes()
            ==> r is Ok,
{
    match hash_password(password, salt) {
        Ok(hash) => Ok(hash),
        Err(e) => Err(AuthError::Argon2Error(hash_failure_of(&e))),
    }
}

/// The hash to store for a new user's password, made with a fresh random
/// salt. It is made for every password that Argon2 takes, and the password
/// finds the user again by it.
pub fn registration_hash(password: &str) -> (r: Result<String, AuthError>)
    ensures
        exists|salt: Seq<char>|
            is_generated_salt(salt) && match r {
                Ok(h) => argon2_phc(password@, salt) == Some(h@),
                Err(e) => #[trigger] argon2_phc(password@, salt) is None && e.kind()
                    == AuthErrorKind::Argon2Error,
            },
        r matches Ok(h) ==> forall|u: User| #[trigger]
            find_user_spec(Some((u, h@)), password@) == Ok::<Option<User>, AuthErrorKind>(Some(u)),
        r matches Ok(h) ==> is_argon2id_phc(h@),
        encode_utf8(password@).len() <= argon2_max_password_bytes() ==> r is Ok,
{
    let salt = generate_os_salt();
    registration_hash_with_salt(password, salt.as_str())
}

} // verus!
