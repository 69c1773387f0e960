use crate::models::projects::Projects;
use vstd::prelude::*;

verus! {

/// A group with the projects of it and of its subgroups.
pub struct Group {
    pub projects: Projects,
}

} // verus!
