//! What holds of the engine for every ledger, issue and allow-list.

use crate::ledger::{ledger_sub, sat_sub};
use crate::logic::{
    accumulate, add_all, allowed, deciding_signal, entry_of, evaluate_all, evaluate_one, reasons, sub_all, Ledgers,
    MoveView,
};
use crate::models::issues::{usernames, Issue};
use vstd::prelude::*;

verus! {

/// An exempt issue never moves: whatever the ledger holds, evaluating it leaves the
/// ledger and the move list as they were, and no assignee yields a signal for it.
pub proof fn lemma_exempt_never_moves(
    m: Ledgers,
    moves: Seq<MoveView>,
    issue: Issue,
    filter: Option<Seq<Seq<char>>>,
    host: Seq<char>,
)
    requires
        issue.has_release_or_customer_label,
    ensures
        forall|review: bool, e: Option<(u32, u32)>| #[trigger] reasons(true, review, e) == (false, false),
        deciding_signal(m, issue, usernames(issue.assignees.nodes@), filter) is None,
        evaluate_one(m, moves, issue, filter, host) == Some((m, moves)),
{
    lemma_exempt_no_signal(m, issue, usernames(issue.assignees.nodes@), filter);
}

proof fn lemma_exempt_no_signal(m: Ledgers, issue: Issue, names: Seq<Seq<char>>, filter: Option<Seq<Seq<char>>>)
    requires
        issue.has_release_or_customer_label,
    ensures
        deciding_signal(m, issue, names, filter) is None,
    decreases names.len(),
{
    if names.len() > 0 {
        lemma_exempt_no_signal(m, issue, names.drop_first(), filter);
    }
}

/// The excluding-reviewed signal starts exactly at 15: never at 14, always at 15 for a
/// non-exempt issue that needs no review.
pub proof fn lemma_threshold_boundary(total: u32)
    ensures
        forall|exempt: bool, review: bool| !(#[trigger] reasons(exempt, review, Some((14u32, total)))).0,
        reasons(false, false, Some((15u32, total))).0,
{
}

/// Retracting more than an accumulator holds leaves it at exactly 0.
pub proof fn lemma_subtract_saturates(m: Ledgers, k: Seq<char>, weight: u32, excluding: bool)
    requires
        m.contains_key(k),
    ensures
        ledger_sub(m, k, weight, excluding).contains_key(k),
        weight > m[k].1 ==> ledger_sub(m, k, weight, excluding)[k].1 == 0,
        excluding && weight > m[k].0 ==> ledger_sub(m, k, weight, excluding)[k].0 == 0,
        forall|a: u32, b: u32| b > a ==> #[trigger] sat_sub(a, b) == 0,
{
}

proof fn lemma_add_all_skips(m: Ledgers, names: Seq<Seq<char>>, filter: Option<Seq<Seq<char>>>, w: u32, e: bool, x: Seq<char>)
    requires
        !allowed(filter, x),
    ensures
        entry_of(add_all(m, names, filter, w, e), x) == entry_of(m, x),
    decreases names.len(),
{
    if names.len() > 0 {
        lemma_add_all_skips(m, names.drop_last(), filter, w, e, x);
    }
}

proof fn lemma_sub_all_skips(m: Ledgers, names: Seq<Seq<char>>, filter: Option<Seq<Seq<char>>>, w: u32, e: bool, x: Seq<char>)
    requires
        !allowed(filter, x),
    ensures
        entry_of(sub_all(m, names, filter, w, e), x) == entry_of(m, x),
    decreases names.len(),
{
    if names.len() > 0 {
        lemma_sub_all_skips(m, names.drop_last(), filter, w, e, x);
    }
}

proof fn lemma_accumulate_skips(m: Ledgers, issues: Seq<Issue>, filter: Option<Seq<Seq<char>>>, x: Seq<char>)
    requires
        !allowed(filter, x),
    ensures
        entry_of(accumulate(m, issues, filter), x) == entry_of(m, x),
    decreases issues.len(),
{
    if issues.len() > 0 {
        let i = issues.last();
        lemma_accumulate_skips(m, issues.drop_last(), filter, x);
        lemma_add_all_skips(
            accumulate(m, issues.drop_last(), filter),
            usernames(i.assignees.nodes@),
            filter,
            crate::models::issues::weight_or_zero(i.weight),
            !i.has_review_or_test_label,
            x,
        );
    }
}

proof fn lemma_evaluate_skips(
    m: Ledgers,
    moves: Seq<MoveView>,
    issues: Seq<Issue>,
    filter: Option<Seq<Seq<char>>>,
    host: Seq<char>,
    x: Seq<char>,
)
    requires
        !allowed(filter, x),
        evaluate_all(m, moves, issues, filter, host) is Some,
    ensures
        entry_of(evaluate_all(m, moves, issues, filter, host)->Some_0.0, x) == entry_of(m, x),
    decreases issues.len(),
{
    if issues.len() > 0 {
        let i = issues.last();
        lemma_evaluate_skips(m, moves, issues.drop_last(), filter, host, x);
        let st = evaluate_all(m, moves, issues.drop_last(), filter, host)->Some_0;
        match deciding_signal(st.0, i, usernames(i.assignees.nodes@), filter) {
            Some(excluding) => {
                lemma_sub_all_skips(
                    st.0,
                    usernames(i.assignees.nodes@),
                    filter,
                    crate::models::issues::weight_or_zero(i.weight),
                    excluding,
                    x,
                );
            },
            None => {},
        }
    }
}

/// A developer left out by the allow-list is never counted: neither pass changes
/// their ledger entry, whichever issues they are assigned to.
pub proof fn lemma_filtered_out_never_counted(
    m: Ledgers,
    moves: Seq<MoveView>,
    issues: Seq<Issue>,
    filter: Option<Seq<Seq<char>>>,
    host: Seq<char>,
    x: Seq<char>,
)
    requires
        !allowed(filter, x),
    ensures
        entry_of(accumulate(m, issues, filter), x) == entry_of(m, x),
        evaluate_all(accumulate(m, issues, filter), moves, issues, filter, host) matches Some(st)
            ==> entry_of(st.0, x) == entry_of(m, x),
{
    lemma_accumulate_skips(m, issues, filter, x);
    if evaluate_all(accumulate(m, issues, filter), moves, issues, filter, host) is Some {
        lemma_evaluate_skips(accumulate(m, issues, filter), moves, issues, filter, host, x);
    }
}

/// A developer left out by the allow-list is never evaluated: the decision on an issue
/// is the same for any two ledgers that agree on the allowed developers, so the
/// left-out ones neither qualify nor block it.
pub proof fn lemma_filtered_out_never_evaluated(
    m1: Ledgers,
    m2: Ledgers,
    issue: Issue,
    names: Seq<Seq<char>>,
    filter: Option<Seq<Seq<char>>>,
)
    requires
        forall|k: Seq<char>| allowed(filter, k) ==> #[trigger] entry_of(m1, k) == entry_of(m2, k),
    ensures
        deciding_signal(m1, issue, names, filter) == deciding_signal(m2, issue, names, filter),
    decreases names.len(),
{
    if names.len() > 0 {
        lemma_filtered_out_never_evaluated(m1, m2, issue, names.drop_first(), filter);
        if allowed(filter, names[0]) {
            assert(entry_of(m1, names[0]) == entry_of(m2, names[0]));
        }
    }
}

} // verus!
