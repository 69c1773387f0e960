use vstd::prelude::*;

verus! {

pub struct Issues {
    pub nodes: Vec<Issue>,
}

/// An open issue with what the planner reads of it. The three flags and the project
/// URL are derived once the issue is taken out of its project.
pub struct Issue {
    pub iid: String,
    pub weight: Option<u32>,
    pub labels: Labels,
    pub assignees: Assignees,
    pub project_url: Option<String>,
    pub has_low_priority_label: bool,
    pub has_review_or_test_label: bool,
    pub has_release_or_customer_label: bool,
}

pub struct Labels {
    pub nodes: Vec<LabelNode>,
}

pub struct LabelNode {
    pub title: String,
}

pub struct Assignees {
    pub nodes: Vec<AssigneeNode>,
}

pub struct AssigneeNode {
    pub username: String,
}

/// The label titles, in order.
pub open spec fn titles(labels: Labels) -> Seq<Seq<char>> {
    labels.nodes@.map_values(|n: LabelNode| n.title@)
}

/// The assignee names, in order.
pub open spec fn usernames(assignees: Seq<AssigneeNode>) -> Seq<Seq<char>> {
    assignees.map_values(|a: AssigneeNode| a.username@)
}

/// The weight, 0 when absent.
pub open spec fn weight_or_zero(weight: Option<u32>) -> u32 {
    match weight {
        Some(w) => w,
        None => 0,
    }
}

impl Issue {
    /// The weight, 0 when absent.
    pub fn weight_value(&self) -> (r: u32)
        ensures
            r == weight_or_zero(self.weight),
    {
        match self.weight {
            Some(w) => w,
            None => 0,
        }
    }
}

} // verus!
