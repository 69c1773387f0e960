//! The rebalancing engine: accumulation pass, evaluation pass and the move list.

use crate::iteration::Iteration;
use crate::labels::{exempt_spec, is_exempt, is_low_priority, low_priority_spec, needs_review, needs_review_spec};
use crate::ledger::{ledger_add, ledger_sub, Ledger};
use crate::models::graphql::GraphQLResponse;
use crate::models::issues::{titles, usernames, weight_or_zero, AssigneeNode, Issue};
use crate::models::projects::Project;
use crate::mutation::{batch_mutation, build_batch_mutation};
use crate::text::{text_starts_with, trim_end_len, trim_end_spec, trim_start_len, trim_start_spec};
use vstd::prelude::*;

verus! {

/// An assignee whose excluding-reviewed points reach this qualifies a low-priority issue.
pub const COUNT_SP_WITHOUT_LABELS: u32 = 15;

/// An assignee whose total points reach this qualifies a low-priority issue.
pub const COUNT_SP_ALL_ISSUES: u32 = 25;

pub type Ledgers = Map<Seq<char>, (u32, u32)>;

/// A move as characters: (project namespace, issue iid).
pub type MoveView = (Seq<char>, Seq<char>);

/// Why a planned move cannot be addressed.
#[derive(Clone, Copy, Debug, PartialEq, Eq, Structural)]
pub enum PlanError {
    /// The issue carries no project URL.
    MissingProjectUrl,
    /// The project URL does not lie under the configured host.
    ProjectOutsideHost,
}

/// Strings as characters.
pub open spec fn strings_view(v: Seq<String>) -> Seq<Seq<char>> {
    v.map_values(|s: String| s@)
}

/// The allow-list as characters.
pub open spec fn filter_view(f: Option<Vec<String>>) -> Option<Seq<Seq<char>>> {
    match f {
        Some(v) => Some(strings_view(v@)),
        None => None,
    }
}

/// Whether a developer takes part: every one without an allow-list, else the listed ones.
pub open spec fn allowed(filter: Option<Seq<Seq<char>>>, name: Seq<char>) -> bool {
    match filter {
        Some(f) => f.contains(name),
        None => true,
    }
}

pub open spec fn moves_view(v: Seq<(String, String)>) -> Seq<MoveView> {
    v.map_values(|p: (String, String)| (p.0@, p.1@))
}

/// The two eligibility signals `(by_excluding_reviewed, by_total)` of one assignee.
pub open spec fn reasons(exempt: bool, review: bool, entry: Option<(u32, u32)>) -> (bool, bool) {
    if exempt {
        (false, false)
    } else {
        match entry {
            Some(v) => (!review && v.0 >= COUNT_SP_WITHOUT_LABELS, v.1 >= COUNT_SP_ALL_ISSUES),
            None => (false, false),
        }
    }
}

pub open spec fn entry_of(m: Ledgers, k: Seq<char>) -> Option<(u32, u32)> {
    if m.contains_key(k) { Some(m[k]) } else { None }
}

/// `add` of `weight` for each allowed name, in order.
pub open spec fn add_all(m: Ledgers, names: Seq<Seq<char>>, filter: Option<Seq<Seq<char>>>, weight: u32, excluding: bool) -> Ledgers
    decreases names.len(),
{
    if names.len() == 0 {
        m
    } else {
        let m1 = add_all(m, names.drop_last(), filter, weight, excluding);
        if allowed(filter, names.last()) { ledger_add(m1, names.last(), weight, excluding) } else { m1 }
    }
}

/// `subtract` of `weight` for each allowed name, in order.
pub open spec fn sub_all(m: Ledgers, names: Seq<Seq<char>>, filter: Option<Seq<Seq<char>>>, weight: u32, excluding: bool) -> Ledgers
    decreases names.len(),
{
    if names.len() == 0 {
        m
    } else {
        let m1 = sub_all(m, names.drop_last(), filter, weight, excluding);
        if allowed(filter, names.last()) { ledger_sub(m1, names.last(), weight, excluding) } else { m1 }
    }
}

/// The accumulation pass over `issues`.
pub open spec fn accumulate(m: Ledgers, issues: Seq<Issue>, filter: Option<Seq<Seq<char>>>) -> Ledgers
    decreases issues.len(),
{
    if issues.len() == 0 {
        m
    } else {
        let i = issues.last();
        add_all(
            accumulate(m, issues.drop_last(), filter),
            usernames(i.assignees.nodes@),
            filter,
            weight_or_zero(i.weight),
            !i.has_review_or_test_label,
        )
    }
}

/// The first allowed assignee among `names` that qualifies the issue decides: its
/// `by_excluding_reviewed` signal, or `None` when none qualifies.
pub open spec fn deciding_signal(m: Ledgers, issue: Issue, names: Seq<Seq<char>>, filter: Option<Seq<Seq<char>>>) -> Option<bool>
    decreases names.len(),
{
    if names.len() == 0 {
        None
    } else {
        let rs = reasons(issue.has_release_or_customer_label, issue.has_review_or_test_label, entry_of(m, names[0]));
        if allowed(filter, names[0]) && issue.has_low_priority_label && (rs.0 || rs.1) {
            Some(rs.0)
        } else {
            deciding_signal(m, issue, names.drop_first(), filter)
        }
    }
}

/// The namespace path of a project URL under `host`: both lose their trailing slashes,
/// the host is stripped off the front, and then the leading slashes.
pub open spec fn namespace_spec(host: Seq<char>, url: Seq<char>) -> Option<Seq<char>> {
    let h = trim_end_spec(host, '/');
    let u = trim_end_spec(url, '/');
    if h.is_prefix_of(u) { Some(trim_start_spec(u.subrange(h.len() as int, u.len() as int), '/')) } else { None }
}

/// The evaluation of one issue: `None` when it must move and cannot be addressed.
pub open spec fn evaluate_one(m: Ledgers, moves: Seq<MoveView>, issue: Issue, filter: Option<Seq<Seq<char>>>, host: Seq<char>) -> Option<(Ledgers, Seq<MoveView>)> {
    let names = usernames(issue.assignees.nodes@);
    match deciding_signal(m, issue, names, filter) {
        None => Some((m, moves)),
        Some(excluding) => match issue.project_url {
            None => None,
            Some(u) => match namespace_spec(host, u@) {
                None => None,
                Some(ns) => Some((
                    sub_all(m, names, filter, weight_or_zero(issue.weight), excluding),
                    moves.push((ns, issue.iid@)),
                )),
            },
        },
    }
}

/// The evaluation pass over `issues`, in order; `None` once one move cannot be addressed.
pub open spec fn evaluate_all(m: Ledgers, moves: Seq<MoveView>, issues: Seq<Issue>, filter: Option<Seq<Seq<char>>>, host: Seq<char>) -> Option<(Ledgers, Seq<MoveView>)>
    decreases issues.len(),
{
    if issues.len() == 0 {
        Some((m, moves))
    } else {
        match evaluate_all(m, moves, issues.drop_last(), filter, host) {
            None => None,
            Some(st) => evaluate_one(st.0, st.1, issues.last(), filter, host),
        }
    }
}

/// Once a prefix of the issues cannot be evaluated, neither can the whole list.
proof fn lemma_evaluate_none_extends(m: Ledgers, moves: Seq<MoveView>, issues: Seq<Issue>, k: int, filter: Option<Seq<Seq<char>>>, host: Seq<char>)
    requires
        0 <= k <= issues.len(),
        evaluate_all(m, moves, issues.subrange(0, k), filter, host) is None,
    ensures
        evaluate_all(m, moves, issues, filter, host) is None,
    decreases issues.len() - k,
{
    if k < issues.len() {
        assert(issues.subrange(0, k + 1).drop_last() =~= issues.subrange(0, k));
        lemma_evaluate_none_extends(m, moves, issues, k + 1, filter, host);
    } else {
        assert(issues.subrange(0, k) =~= issues);
    }
}

/// An issue with its flags derived from its labels and its project URL set.
pub open spec fn classified(i: Issue, url: String) -> Issue {
    Issue {
        project_url: Some(url),
        has_low_priority_label: low_priority_spec(titles(i.labels)),
        has_review_or_test_label: needs_review_spec(titles(i.labels)),
        has_release_or_customer_label: exempt_spec(titles(i.labels)),
        ..i
    }
}

/// The issues of the projects, project by project, each classified.
pub open spec fn flat_issues(projects: Seq<Project>) -> Seq<Issue>
    decreases projects.len(),
{
    if projects.len() == 0 {
        Seq::empty()
    } else {
        let p = projects.last();
        flat_issues(projects.drop_last()) + p.issues.nodes@.map_values(|i: Issue| classified(i, p.web_url))
    }
}

/// Derives the flags of `issue` from its labels and records its project URL.
pub fn classify_issue(issue: Issue, project_url: String) -> (r: Issue)
    ensures
        r == classified(issue, project_url),
{
    let low = is_low_priority(&issue.labels);
    let review = needs_review(&issue.labels);
    let exempt = is_exempt(&issue.labels);
    Issue {
        project_url: Some(project_url),
        has_low_priority_label: low,
        has_review_or_test_label: review,
        has_release_or_customer_label: exempt,
        ..issue
    }
}

/// The state of one run: configuration, the ledger and the move list.
pub struct BotState {
    pub host: String,
    pub group_name: String,
    pub current_iteration: Iteration,
    pub next_iteration: Iteration,
    pub assignees_filter: Option<Vec<String>>,
    pub developer_points: Ledger,
    pub to_move: Vec<(String, String)>,
}

impl BotState {
    /// The flat list of the response's issues, project by project, each classified
    /// and annotated with the URL of its project.
    pub fn get_group_issues(response: GraphQLResponse) -> (r: Vec<Issue>)
        ensures
            r@ == flat_issues(response.data.group.projects.nodes@),
    {
        let ghost all = response.data.group.projects.nodes@;
        let mut projects = response.data.group.projects.nodes;
        let mut out: Vec<Issue> = Vec::new();
        let ghost k: int = 0;
        while projects.len() > 0
            invariant
                0 <= k <= all.len(),
                projects@ == all.subrange(k, all.len() as int),
                out@ == flat_issues(all.subrange(0, k)),
            decreases projects@.len(),
        {
            let project = projects.remove(0);
            let ghost before = out@;
            let ghost nodes = project.issues.nodes@;
            let url = project.web_url;
            let mut issues = project.issues.nodes;
            let ghost j: int = 0;
            while issues.len() > 0
                invariant
                    0 <= j <= nodes.len(),
                    issues@ == nodes.subrange(j, nodes.len() as int),
                    out@ == before + nodes.subrange(0, j).map_values(|i: Issue| classified(i, url)),
                decreases issues@.len(),
            {
                let issue = issues.remove(0);
                let c = classify_issue(issue, url.clone());
                out.push(c);
                proof {
                    assert(nodes.subrange(0, j + 1) =~= nodes.subrange(0, j).push(nodes[j]));
                    assert(nodes.subrange(0, j + 1).map_values(|i: Issue| classified(i, url))
                        =~= nodes.subrange(0, j).map_values(|i: Issue| classified(i, url)).push(classified(nodes[j], url)));
                    j = j + 1;
                }
            }
            proof {
                assert(nodes.subrange(0, j) =~= nodes);
                assert(all.subrange(0, k + 1).drop_last() =~= all.subrange(0, k));
                k = k + 1;
            }
        }
        assert(all.subrange(0, k) =~= all);
        out
    }

    /// A run with an empty ledger and no moves yet.
    pub fn new(
        host: String,
        group_name: String,
        current_iteration: Iteration,
        next_iteration: Iteration,
        assignees_filter: Option<Vec<String>>,
    ) -> (r: BotState)
        ensures
            r.host == host,
            r.group_name == group_name,
            r.current_iteration == current_iteration,
            r.next_iteration == next_iteration,
            r.assignees_filter == assignees_filter,
            r.developer_points@ == Map::<Seq<char>, (u32, u32)>::empty(),
            r.to_move@.len() == 0,
    {
        BotState {
            host,
            group_name,
            current_iteration,
            next_iteration,
            assignees_filter,
            developer_points: Ledger::new(),
            to_move: Vec::new(),
        }
    }

    pub open spec fn filter(&self) -> Option<Seq<Seq<char>>> {
        filter_view(self.assignees_filter)
    }

    /// Whether `username` is left out by the allow-list.
    pub fn check_assignees_flag(&self, username: &String) -> (r: bool)
        ensures
            r == !allowed(self.filter(), username@),
    {
        match &self.assignees_filter {
            None => false,
            Some(filter) => {
                let ghost fv = strings_view(filter@);
                let mut i: usize = 0;
                while i < filter.len()
                    invariant
                        i <= filter@.len(),
                        fv == strings_view(filter@),
                        self.assignees_filter == Some(*filter),
                        forall|j: int| 0 <= j < i ==> #[trigger] fv[j] != username@,
                    decreases filter@.len() - i,
                {
                    if filter[i] == *username {
                        assert(fv[i as int] == username@);
                        assert(fv.contains(username@));
                        return false;
                    }
                    i = i + 1;
                }
                assert(!fv.contains(username@));
                true
            },
        }
    }

    /// The namespace path of a project URL under the configured host.
    pub fn get_project_namespace(&self, project_url: &String) -> (r: Result<String, PlanError>)
        ensures
            match namespace_spec(self.host@, project_url@) {
                Some(ns) => r is Ok && r->Ok_0@ == ns,
                None => r == Err::<String, PlanError>(PlanError::ProjectOutsideHost),
            },
    {
        let h = self.host.as_str();
        let u = project_url.as_str();
        let hl = trim_end_len(h, '/');
        let ul = trim_end_len(u, '/');
        let hs = h.substring_char(0, hl);
        let us = u.substring_char(0, ul);
        if !text_starts_with(us, hs) {
            return Err(PlanError::ProjectOutsideHost);
        }
        let rest = us.substring_char(hl, ul);
        let k = trim_start_len(rest, '/');
        let path = rest.substring_char(k, rest.unicode_len());
        Ok(String::from_str(path))
    }

    /// The eligibility signals of `username` for `issue` against the current ledger.
    pub fn move_reasons(&self, issue: &Issue, username: String) -> (r: (bool, bool))
        ensures
            r == reasons(
                issue.has_release_or_customer_label,
                issue.has_review_or_test_label,
                entry_of(self.developer_points@, username@),
            ),
    {
        if issue.has_release_or_customer_label {
            return (false, false);
        }
        match self.developer_points.snapshot(&username) {
            Some(entry) => {
                let by_without = !issue.has_review_or_test_label && entry.0 >= COUNT_SP_WITHOUT_LABELS;
                let by_all = entry.1 >= COUNT_SP_ALL_ISSUES;
                (by_without, by_all)
            },
            None => (false, false),
        }
    }

    /// Adds `weight` to every allowed assignee's ledger entry, creating it first.
    pub fn add_weight_for_assignees(&mut self, assignees: &[AssigneeNode], without_review_to_test_labels: bool, weight: u32)
        ensures
            final(self).developer_points@ == add_all(
                old(self).developer_points@,
                usernames(assignees@),
                old(self).filter(),
                weight,
                without_review_to_test_labels,
            ),
            final(self).to_move == old(self).to_move,
            final(self).assignees_filter == old(self).assignees_filter,
            final(self).host == old(self).host,
    {
        let ghost names = usernames(assignees@);
        let mut i: usize = 0;
        while i < assignees.len()
            invariant
                i <= assignees@.len(),
                names == usernames(assignees@),
                self.developer_points@ == add_all(
                    old(self).developer_points@,
                    names.subrange(0, i as int),
                    old(self).filter(),
                    weight,
                    without_review_to_test_labels,
                ),
                self.to_move == old(self).to_move,
                self.assignees_filter == old(self).assignees_filter,
                self.host == old(self).host,
            decreases assignees@.len() - i,
        {
            let username = &assignees[i].username;
            assert(names.subrange(0, i + 1).drop_last() =~= names.subrange(0, i as int));
            if !self.check_assignees_flag(username) {
                self.developer_points.add(username, weight, without_review_to_test_labels);
            }
            i = i + 1;
        }
        assert(names.subrange(0, i as int) =~= names);
    }

    /// Retracts `weight` from every allowed assignee's ledger entry: from the total, and
    /// from the excluding-reviewed points when `by_without_labels` is set.
    pub fn sub_weight_for_assignees(&mut self, assignees: &[AssigneeNode], by_without_labels: bool, weight: u32)
        ensures
            final(self).developer_points@ == sub_all(
                old(self).developer_points@,
                usernames(assignees@),
                old(self).filter(),
                weight,
                by_without_labels,
            ),
            final(self).to_move == old(self).to_move,
            final(self).assignees_filter == old(self).assignees_filter,
            final(self).host == old(self).host,
    {
        let ghost names = usernames(assignees@);
        let mut i: usize = 0;
        while i < assignees.len()
            invariant
                i <= assignees@.len(),
                names == usernames(assignees@),
                self.developer_points@ == sub_all(
                    old(self).developer_points@,
                    names.subrange(0, i as int),
                    old(self).filter(),
                    weight,
                    by_without_labels,
                ),
                self.to_move == old(self).to_move,
                self.assignees_filter == old(self).assignees_filter,
                self.host == old(self).host,
            decreases assignees@.len() - i,
        {
            let username = &assignees[i].username;
            assert(names.subrange(0, i + 1).drop_last() =~= names.subrange(0, i as int));
            if !self.check_assignees_flag(username) {
                self.developer_points.subtract(username, weight, by_without_labels);
            }
            i = i + 1;
        }
        assert(names.subrange(0, i as int) =~= names);
    }

    /// The `by_excluding_reviewed` signal of the first allowed assignee that qualifies
    /// `issue` for a move, or `None` when none does.
    pub fn deciding_assignee(&self, issue: &Issue) -> (r: Option<bool>)
        ensures
            r == deciding_signal(self.developer_points@, *issue, usernames(issue.assignees.nodes@), self.filter()),
    {
        let assignees = &issue.assignees.nodes;
        let ghost names = usernames(assignees@);
        let ghost n = names.len() as int;
        let mut i: usize = 0;
        assert(names.subrange(0, n) =~= names);
        while i < assignees.len()
            invariant
                i <= assignees@.len(),
                n == assignees@.len(),
                names == usernames(assignees@),
                names == usernames(issue.assignees.nodes@),
                deciding_signal(self.developer_points@, *issue, names, self.filter())
                    == deciding_signal(self.developer_points@, *issue, names.subrange(i as int, n), self.filter()),
            decreases assignees@.len() - i,
        {
            let username = &assignees[i].username;
            assert(names.subrange(i as int, n).drop_first() =~= names.subrange(i + 1, n));
            assert(names.subrange(i as int, n)[0] == username@);
            if !self.check_assignees_flag(username) {
                let (by_without, by_all) = self.move_reasons(issue, username.clone());
                if issue.has_low_priority_label && (by_without || by_all) {
                    assert(allowed(self.filter(), names.subrange(i as int, n)[0]));
                    assert(deciding_signal(self.developer_points@, *issue, names.subrange(i as int, n), self.filter())
                        == Some(by_without));
                    return Some(by_without);
                }
            }
            i = i + 1;
        }
        None
    }

    /// Evaluates one issue against the current ledger; when it moves, appends
    /// `(namespace, iid)` to the move list and retracts its weight from every allowed
    /// assignee, from the excluding-reviewed points as the deciding assignee's signal says.
    pub fn add_to_move_issues(&mut self, issue: &Issue) -> (r: Result<(), PlanError>)
        ensures
            match evaluate_one(old(self).developer_points@, moves_view(old(self).to_move@), *issue, old(self).filter(), old(self).host@) {
                Some(st) => r is Ok && final(self).developer_points@ == st.0 && moves_view(final(self).to_move@) == st.1,
                None => r is Err && final(self).developer_points@ == old(self).developer_points@
                    && final(self).to_move == old(self).to_move,
            },
            final(self).assignees_filter == old(self).assignees_filter,
            final(self).host == old(self).host,
    {
        let weight = issue.weight_value();
        match self.deciding_assignee(issue) {
            None => Ok(()),
            Some(by_without) => {
                let url = match &issue.project_url {
                    None => {
                        return Err(PlanError::MissingProjectUrl);
                    },
                    Some(u) => u,
                };
                let namespace = match self.get_project_namespace(url) {
                    Err(e) => {
                        return Err(e);
                    },
                    Ok(ns) => ns,
                };
                let ghost before = self.to_move@;
                let item = (namespace, issue.iid.clone());
                self.to_move.push(item);
                assert(moves_view(self.to_move@) =~= moves_view(before).push((item.0@, item.1@)));
                self.sub_weight_for_assignees(issue.assignees.nodes.as_slice(), by_without, weight);
                Ok(())
            },
        }
    }

    /// The two passes over `issues`: first every allowed assignee's points are
    /// accumulated over all issues, then each issue in turn is evaluated against the
    /// ledger as it stands, moves retracting their weight. Stops at the first move that
    /// cannot be addressed.
    pub fn run(&mut self, issues: &Vec<Issue>) -> (r: Result<(), PlanError>)
        ensures
            match evaluate_all(
                accumulate(old(self).developer_points@, issues@, old(self).filter()),
                moves_view(old(self).to_move@),
                issues@,
                old(self).filter(),
                old(self).host@,
            ) {
                Some(st) => r is Ok && final(self).developer_points@ == st.0 && moves_view(final(self).to_move@) == st.1,
                None => r is Err,
            },
            final(self).assignees_filter == old(self).assignees_filter,
            final(self).host == old(self).host,
    {
        let ghost filter = self.filter();
        let mut i: usize = 0;
        while i < issues.len()
            invariant
                i <= issues@.len(),
                filter == self.filter(),
                self.developer_points@ == accumulate(old(self).developer_points@, issues@.subrange(0, i as int), filter),
                self.to_move == old(self).to_move,
                self.assignees_filter == old(self).assignees_filter,
                self.host == old(self).host,
            decreases issues@.len() - i,
        {
            let issue = &issues[i];
            assert(issues@.subrange(0, i + 1).drop_last() =~= issues@.subrange(0, i as int));
            self.add_weight_for_assignees(issue.assignees.nodes.as_slice(), !issue.has_review_or_test_label, issue.weight_value());
            i = i + 1;
        }
        assert(issues@.subrange(0, i as int) =~= issues@);
        let ghost m1 = self.developer_points@;
        let ghost mv0 = moves_view(self.to_move@);
        let ghost host = self.host@;
        let mut j: usize = 0;
        while j < issues.len()
            invariant
                j <= issues@.len(),
                filter == self.filter(),
                host == self.host@,
                m1 == accumulate(old(self).developer_points@, issues@, filter),
                mv0 == moves_view(old(self).to_move@),
                filter == old(self).filter(),
                self.assignees_filter == old(self).assignees_filter,
                self.host == old(self).host,
                evaluate_all(m1, mv0, issues@.subrange(0, j as int), filter, host)
                    == Some((self.developer_points@, moves_view(self.to_move@))),
            decreases issues@.len() - j,
        {
            let issue = &issues[j];
            assert(issues@.subrange(0, j + 1).drop_last() =~= issues@.subrange(0, j as int));
            let step = self.add_to_move_issues(issue);
            if step.is_err() {
                proof {
                    lemma_evaluate_none_extends(m1, mv0, issues@, j + 1, filter, host);
                }
                return step;
            }
            j = j + 1;
        }
        assert(issues@.subrange(0, j as int) =~= issues@);
        Ok(())
    }

    /// The request that moves every planned issue into the next iteration, or `None`
    /// when nothing is to move.
    pub fn batch_move_issues(&self, to_move: &Vec<(String, String)>) -> (r: Option<String>)
        ensures
            to_move@.len() == 0 ==> r is None,
            to_move@.len() > 0 ==> r is Some && r->Some_0@ == batch_mutation(
                moves_view(to_move@),
                self.next_iteration.id as nat,
            ),
    {
        if to_move.len() == 0 {
            return None;
        }
        Some(build_batch_mutation(to_move, self.next_iteration.id))
    }
}

} // verus!
