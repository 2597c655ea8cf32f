use crate::api::login::credentials_outcome;
use crate::crypto::{
    argon2_max_password_bytes, argon2_phc, argon2_verdict, generate_os_salt, hash_password,
    is_generated_salt, parse_phc, phc_well_formed,
};
use crate::helpers::error::{AuthError, AuthErrorKind};
use crate::types::models::user::User;
use crate::types::password::is_argon2id_phc;
use crate::types::response::IdentityErrorView;
use vstd::prelude::*;
use vstd::utf8::encode_utf8;

verus! {

/// The row to insert for a new user, its password hashed with the given
/// salt: the id, name and e-mail address are kept, the plain password is
/// replaced by the PHC string of its hash.
pub fn hashed_user_row_with_salt(user: &User, salt: &str) -> (r: Result<User, AuthError>)
    ensures
        match r {
            Ok(row) => {
                &&& row.id == user.id
                &&& row.name@ == user.name@
                &&& row.email@ == user.email@
                &&& argon2_phc(user.hashed_password@, salt@) == Some(row.hashed_password@)
            },
            Err(e) => e.kind() == AuthErrorKind::Argon2Error && argon2_phc(user.hashed_password@, salt@)
                is None,
        },
        r matches Ok(row) ==> is_argon2id_phc(row.hashed_password@) && argon2_verdict(
            user.hashed_password@,
            row.hashed_password@,
        ) == Some(true),
        r matches Ok(row) ==> forall|id: u128, task: Seq<char>| #[trigger]
            credentials_outcome(user.hashed_password@, Ok((Some(id), row.hashed_password@)), task)
                == Ok::<u128, IdentityErrorView>(id),
        is_generated_salt(salt@) && encode_utf8(user.hashed_password@).len()
            <= argon2_max_password_bytes() ==> r is Ok,
{
    let password_hash_str = match hash_password(user.hashed_password.as_str(), salt) {
        Ok(h) => h,
        Err(e) => {
            return Err(AuthError::Argon2Error(e));
        },
    };
    if let Err((err, _)) = parse_phc(password_hash_str.as_str()) {
        return Err(AuthError::Argon2Error(err));
    }
    Ok(User {
        id: user.id,
        name: user.name.clone(),
        email: user.email.clone(),
        hashed_password: password_hash_str,
    })
}

/// The row to insert for a new user, its password hashed with a fresh
/// random salt. It is made for every password that Argon2 takes, and the
/// user's password verifies against the stored hash.
pub fn hashed_user_row(user: &User) -> (r: Result<User, AuthError>)
    ensures
        exists|salt: Seq<char>|
            is_generated_salt(salt) && match r {
                Ok(row) => #[trigger] argon2_phc(user.hashed_password@, salt) == Some(row.hashed_password@),
                Err(e) => argon2_phc(user.hashed_password@, salt) is None,
            },
        r matches Ok(row) ==> {
            &&& row.id == user.id
            &&& row.name@ == user.name@
            &&& row.email@ == user.email@
            &&& is_argon2id_phc(row.hashed_password@)
            &&& argon2_verdict(user.hashed_password@, row.hashed_password@) == Some(true)
        },
        r matches Err(e) ==> e.kind() == AuthErrorKind::Argon2Error,
        encode_utf8(user.hashed_password@).len() <= argon2_max_password_bytes() ==> r is Ok,
        r matches Ok(row) ==> forall|id: u128, task: Seq<char>| #[trigger]
            credentials_outcome(user.hashed_password@, Ok((Some(id), row.hashed_password@)), task)
                == Ok::<u128, IdentityErrorView>(id),
{
    let salt = generate_os_salt();
    hashed_user_row_with_salt(user, salt.as_str())
}

} // verus!
