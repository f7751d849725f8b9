//! The connection type of the party listing.
use vstd::prelude::*;

use crate::database::models::parties::Party;
use crate::database::models_init::PageInfo;

verus! {

/// A page of parties as a GraphQL listing returns it.
pub struct PartyConnection {
    pub edges: Vec<Party>,
    pub page_info: PageInfo,
    pub cursor: Option<String>,
}

} // verus!
