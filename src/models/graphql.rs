use crate::models::groups::Group;
use vstd::prelude::*;

verus! {

/// The body of a group-issues query response.
pub struct GraphQLResponse {
    pub data: Data,
}

pub struct Data {
    pub group: Group,
}

} // verus!
