//! The batched update request that moves every planned issue at once, and the
//! reading of its per-item outcomes.

use crate::logic::{moves_view, MoveView};
use crate::text::{decimal, push_decimal};
use vstd::prelude::*;

verus! {

/// The request field that moves one issue, under the alias `m<idx>`.
pub open spec fn mutation_field(idx: nat, m: MoveView, iteration_id: nat) -> Seq<char> {
    "m"@ + decimal(idx) + ": issueSetIteration(input: {projectPath: \""@ + m.0 + "\", iid: \""@ + m.1
        + "\", iterationId: \"gid://gitlab/Iteration/"@ + decimal(iteration_id) + "\"}) { errors issue { iid } } "@
}

/// The fields of every move, aliased by position.
pub open spec fn mutation_fields(moves: Seq<MoveView>, iteration_id: nat) -> Seq<char>
    decreases moves.len(),
{
    if moves.len() == 0 {
        Seq::empty()
    } else {
        mutation_fields(moves.drop_last(), iteration_id) + mutation_field(
            (moves.len() - 1) as nat,
            moves.last(),
            iteration_id,
        )
    }
}

/// The whole request text.
pub open spec fn batch_mutation(moves: Seq<MoveView>, iteration_id: nat) -> Seq<char> {
    "mutation BatchMoveIssues {"@ + mutation_fields(moves, iteration_id) + "}"@
}

/// The request that moves every `(namespace, iid)` of `to_move` into the iteration
/// `iteration_id`.
pub fn build_batch_mutation(to_move: &Vec<(String, String)>, iteration_id: u64) -> (r: String)
    ensures
        r@ == batch_mutation(moves_view(to_move@), iteration_id as nat),
{
    let ghost mv = moves_view(to_move@);
    let mut out = String::from_str("mutation BatchMoveIssues {");
    let ghost head = out@;
    let mut i: usize = 0;
    while i < to_move.len()
        invariant
            i <= to_move@.len(),
            mv == moves_view(to_move@),
            out@ == head + mutation_fields(mv.subrange(0, i as int), iteration_id as nat),
        decreases to_move@.len() - i,
    {
        let ghost before = out@;
        assert(i as int <= u64::MAX);
        out.append("m");
        push_decimal(&mut out, i as u64);
        out.append(": issueSetIteration(input: {projectPath: \"");
        out.append(to_move[i].0.as_str());
        out.append("\", iid: \"");
        out.append(to_move[i].1.as_str());
        out.append("\", iterationId: \"gid://gitlab/Iteration/");
        push_decimal(&mut out, iteration_id);
        out.append("\"}) { errors issue { iid } } ");
        proof {
            assert(mv.subrange(0, i + 1).drop_last() =~= mv.subrange(0, i as int));
            assert(mv.subrange(0, i + 1).last() == mv[i as int]);
            assert(out@ =~= before + mutation_field(i as nat, mv[i as int], iteration_id as nat));
        }
        i = i + 1;
    }
    assert(mv.subrange(0, i as int) =~= mv);
    out.append("}");
    out
}

/// What the backend answered for one aliased item of the batch.
pub struct MoveOutcome {
    /// The alias of the item, `m<idx>`.
    pub alias: String,
    /// The iid of the issue it moved, when the answer carries one.
    pub moved_iid: Option<String>,
    /// The errors reported for the item.
    pub errors: Vec<String>,
}

/// The iids that the answer reports as moved, in order.
pub open spec fn moved_spec(outcomes: Seq<MoveOutcome>) -> Seq<Seq<char>>
    decreases outcomes.len(),
{
    if outcomes.len() == 0 {
        Seq::empty()
    } else {
        let rest = moved_spec(outcomes.drop_last());
        match outcomes.last().moved_iid {
            Some(iid) => rest.push(iid@),
            None => rest,
        }
    }
}

/// Whether an item failed: it reports errors or no moved issue.
pub open spec fn failed(o: MoveOutcome) -> bool {
    o.moved_iid is None || o.errors@.len() > 0
}

/// The aliases of the failed items, in order.
pub open spec fn failed_spec(outcomes: Seq<MoveOutcome>) -> Seq<Seq<char>>
    decreases outcomes.len(),
{
    if outcomes.len() == 0 {
        Seq::empty()
    } else {
        let rest = failed_spec(outcomes.drop_last());
        if failed(outcomes.last()) { rest.push(outcomes.last().alias@) } else { rest }
    }
}

/// The iids of the moved issues.
pub fn moved_ids(outcomes: &Vec<MoveOutcome>) -> (r: Vec<String>)
    ensures
        crate::logic::strings_view(r@) == moved_spec(outcomes@),
{
    let mut out: Vec<String> = Vec::new();
    let mut i: usize = 0;
    while i < outcomes.len()
        invariant
            i <= outcomes@.len(),
            crate::logic::strings_view(out@) == moved_spec(outcomes@.subrange(0, i as int)),
        decreases outcomes@.len() - i,
    {
        assert(outcomes@.subrange(0, i + 1).drop_last() =~= outcomes@.subrange(0, i as int));
        let ghost before = out@;
        match &outcomes[i].moved_iid {
            Some(iid) => {
                out.push(iid.clone());
                assert(crate::logic::strings_view(out@) =~= crate::logic::strings_view(before).push(iid@));
            },
            None => {},
        }
        i = i + 1;
    }
    assert(outcomes@.subrange(0, i as int) =~= outcomes@);
    out
}

/// The aliases of the items that failed to move, to be reported one by one.
pub fn failed_moves(outcomes: &Vec<MoveOutcome>) -> (r: Vec<String>)
    ensures
        crate::logic::strings_view(r@) == failed_spec(outcomes@),
{
    let mut out: Vec<String> = Vec::new();
    let mut i: usize = 0;
    while i < outcomes.len()
        invariant
            i <= outcomes@.len(),
            crate::logic::strings_view(out@) == failed_spec(outcomes@.subrange(0, i as int)),
        decreases outcomes@.len() - i,
    {
        assert(outcomes@.subrange(0, i + 1).drop_last() =~= outcomes@.subrange(0, i as int));
        let o = &outcomes[i];
        if o.moved_iid.is_none() || o.errors.len() > 0 {
            let ghost before = out@;
            out.push(o.alias.clone());
            assert(crate::logic::strings_view(out@) =~= crate::logic::strings_view(before).push(o.alias@));
        }
        i = i + 1;
    }
    assert(outcomes@.subrange(0, i as int) =~= outcomes@);
    out
}

} // verus!
