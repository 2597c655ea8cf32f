use vstd::prelude::*;

verus! {

/// The request to list every registered user.
#[derive(Debug)]
pub struct FetchAllUsers;

} // verus!
