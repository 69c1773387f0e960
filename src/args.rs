//! The run's configuration as given on the command line.

use vstd::prelude::*;

verus! {

/// Host, credentials, group and optional assignee allow-list.
pub struct Args {
    pub host: String,
    pub token: String,
    pub group_name: Option<String>,
    pub assignees: Vec<String>,
}

impl Args {
    /// The allow-list: none when no assignee was given.
    pub fn assignees_filter(self) -> (r: Option<Vec<String>>)
        ensures
            self.assignees@.len() == 0 ==> r is None,
            self.assignees@.len() > 0 ==> r == Some(self.assignees),
    {
        if self.assignees.len() == 0 {
            None
        } else {
            Some(self.assignees)
        }
    }
}

} // verus!
