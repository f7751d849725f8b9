//! The message that asks the database executor to create a party.
use vstd::prelude::*;

use crate::database::models::parties::NewParty;

verus! {

/// Asks for a party with the given title to be created.
pub struct CreateParty {
    pub title: String,
}

impl CreateParty {
    /// The party that the message creates: the given title.
    pub fn new_party(self) -> (res: NewParty)
        ensures
            res.title@ == self.title@,
    {
        NewParty { title: self.title }
    }
}

} // verus!
