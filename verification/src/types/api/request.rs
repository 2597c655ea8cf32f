use crate::crypto::{is_random_uuid, new_user_id};
use crate::types::models::user::User;
use crate::types::response::IdentityError;
use vstd::prelude::*;

verus! {

/// What a sign-up form carries.
#[derive(Debug)]
pub struct CreateUser {
    pub name: String,
    pub email: String,
    pub password: String,
}

impl User {
    /// The user that a sign-up form describes, with the given id. The
    /// password is carried as given; it is hashed when the user is stored.
    pub fn from_request(value: CreateUser, id: u128) -> (r: User)
        ensures
            r.id == id,
            r.email@ == value.email@,
            r.name@ == value.name@,
            r.hashed_password@ == value.password@,
    {
        User { email: value.email, name: value.name, hashed_password: value.password, id }
    }

    /// The user that a sign-up form describes, with a fresh random id: a
    /// version 4 UUID. It never fails.
    pub fn try_from(value: CreateUser) -> (r: Result<User, IdentityError>)
        ensures
            r matches Ok(u) && u.email@ == value.email@ && u.name@ == value.name@
                && u.hashed_password@ == value.password@ && is_random_uuid(u.id),
    {
        let id: u128 = new_user_id();
        Ok(User::from_request(value, id))
    }
}

} // verus!
