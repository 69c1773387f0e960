use crate::models::issues::Issues;
use vstd::prelude::*;

verus! {

pub struct Projects {
    pub nodes: Vec<Project>,
}

/// A project: its canonical URL and its open issues of the current iteration.
pub struct Project {
    pub web_url: String,
    pub issues: Issues,
}

} // verus!
