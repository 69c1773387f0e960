//! The label classifier: three independent facts derived from an issue's labels.

use crate::models::issues::{titles, LabelNode, Labels};
use crate::text::{text_eq, text_starts_with};
use vstd::prelude::*;

verus! {

pub open spec fn is_low_priority_title(t: Seq<char>) -> bool {
    t == "priority::Minor"@ || t == "priority::Trivial"@
}

pub open spec fn is_exempt_title(t: Seq<char>) -> bool {
    "release::"@.is_prefix_of(t) || "customer::"@.is_prefix_of(t)
}

pub open spec fn is_review_title(t: Seq<char>) -> bool {
    t == "status::to-review"@ || t == "status::to-test"@
}

/// Some label is `priority::Minor` or `priority::Trivial`.
pub open spec fn low_priority_spec(ts: Seq<Seq<char>>) -> bool {
    exists|i: int| 0 <= i < ts.len() && is_low_priority_title(#[trigger] ts[i])
}

/// Some label starts with `release::` or `customer::`.
pub open spec fn exempt_spec(ts: Seq<Seq<char>>) -> bool {
    exists|i: int| 0 <= i < ts.len() && is_exempt_title(#[trigger] ts[i])
}

/// Some label is `status::to-review` or `status::to-test`.
pub open spec fn needs_review_spec(ts: Seq<Seq<char>>) -> bool {
    exists|i: int| 0 <= i < ts.len() && is_review_title(#[trigger] ts[i])
}

fn title_is_low_priority(t: &String) -> (r: bool)
    ensures
        r == is_low_priority_title(t@),
{
    text_eq(t.as_str(), "priority::Minor") || text_eq(t.as_str(), "priority::Trivial")
}

fn title_is_exempt(t: &String) -> (r: bool)
    ensures
        r == is_exempt_title(t@),
{
    text_starts_with(t.as_str(), "release::") || text_starts_with(t.as_str(), "customer::")
}

fn title_is_review(t: &String) -> (r: bool)
    ensures
        r == is_review_title(t@),
{
    text_eq(t.as_str(), "status::to-review") || text_eq(t.as_str(), "status::to-test")
}

/// Whether the issue is a migration candidate by priority.
pub fn is_low_priority(labels: &Labels) -> (r: bool)
    ensures
        r == low_priority_spec(titles(*labels)),
{
    let nodes: &Vec<LabelNode> = &labels.nodes;
    let mut i: usize = 0;
    while i < nodes.len()
        invariant
            i <= nodes@.len(),
            titles(*labels) == nodes@.map_values(|n: LabelNode| n.title@),
            forall|j: int| 0 <= j < i ==> !is_low_priority_title(#[trigger] titles(*labels)[j]),
        decreases nodes@.len() - i,
    {
        if title_is_low_priority(&nodes[i].title) {
            assert(is_low_priority_title(titles(*labels)[i as int]));
            return true;
        }
        i = i + 1;
    }
    false
}

/// Whether the issue carries a release or customer label and so never moves.
pub fn is_exempt(labels: &Labels) -> (r: bool)
    ensures
        r == exempt_spec(titles(*labels)),
{
    let nodes: &Vec<LabelNode> = &labels.nodes;
    let mut i: usize = 0;
    while i < nodes.len()
        invariant
            i <= nodes@.len(),
            titles(*labels) == nodes@.map_values(|n: LabelNode| n.title@),
            forall|j: int| 0 <= j < i ==> !is_exempt_title(#[trigger] titles(*labels)[j]),
        decreases nodes@.len() - i,
    {
        if title_is_exempt(&nodes[i].title) {
            assert(is_exempt_title(titles(*labels)[i as int]));
            return true;
        }
        i = i + 1;
    }
    false
}

/// Whether the issue waits for review or test.
pub fn needs_review(labels: &Labels) -> (r: bool)
    ensures
        r == needs_review_spec(titles(*labels)),
{
    let nodes: &Vec<LabelNode> = &labels.nodes;
    let mut i: usize = 0;
    while i < nodes.len()
        invariant
            i <= nodes@.len(),
            titles(*labels) == nodes@.map_values(|n: LabelNode| n.title@),
            forall|j: int| 0 <= j < i ==> !is_review_title(#[trigger] titles(*labels)[j]),
        decreases nodes@.len() - i,
    {
        if title_is_review(&nodes[i].title) {
            assert(is_review_title(titles(*labels)[i as int]));
            return true;
        }
        i = i + 1;
    }
    false
}

} // verus!
