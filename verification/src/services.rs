//! The service layer between the handlers and the repository.
use crate::helpers::error::{AuthError, Report};
use crate::types::models::user::User;
use vstd::prelude::*;

verus! {

/// The outcome of signing a user up, given what storing the user gave: the
/// sign-up is reported as done whatever the store answered.
pub fn signup(created: Result<(), AuthError>) -> (r: Result<(), Report>)
    ensures
        r is Ok,
{
    let _ = created;
    Ok(())
}

/// The users to list, given what fetching them gave: a failure is reported
/// as `Failed to fetch users`.
pub fn get_all_users(fetched: Result<Vec<User>, AuthError>) -> (r: Result<Vec<User>, Report>)
    ensures
        match fetched {
            Ok(users) => r matches Ok(v) && v == users,
            Err(_) => r matches Err(e) && e@ == seq!["Failed to fetch users"@],
        },
{
    match fetched {
        Ok(users) => Ok(users),
        Err(_) => Err(Report::msg("Failed to fetch users")),
    }
}

} // verus!
