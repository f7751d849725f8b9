//! The message that asks the database executor to create a user.
use vstd::prelude::*;

use crate::database::models::users::NewUser;

verus! {

/// Asks for a user with the given name to be created.
pub struct CreateUser {
    pub name: String,
}

impl CreateUser {
    /// The user that the message creates: the given name, active.
    pub fn new_user(self) -> (res: NewUser)
        ensures
            res.name@ == self.name@,
            res.active,
    {
        NewUser { name: self.name, active: true }
    }
}

} // verus!
