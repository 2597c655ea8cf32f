use vstd::prelude::*;

verus! {

/// A user as the `users` table stores it.
#[derive(Debug)]
pub struct User {
    pub id: u128,
    pub email: String,
    pub name: String,
    pub hashed_password: String,
}

/// A user row of the older layout, with an integer id.
#[derive(Debug)]
pub struct Userr {
    pub id: i32,
    pub name: String,
    pub email: String,
    pub password: String,
}

} // verus!
