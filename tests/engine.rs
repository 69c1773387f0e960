use iteration_bot::args::Args;
use iteration_bot::iteration::{get_iterations, update_issue_iteration, CalendarDate, Iteration, IterationError};
use iteration_bot::labels::{is_exempt, is_low_priority, needs_review};
use iteration_bot::ledger::Ledger;
use iteration_bot::logic::{BotState, PlanError};
use iteration_bot::models::graphql::{Data, GraphQLResponse};
use iteration_bot::models::groups::Group;
use iteration_bot::models::issues::{AssigneeNode, Assignees, Issue, Issues, LabelNode, Labels};
use iteration_bot::models::projects::{Project, Projects};
use iteration_bot::mutation::{failed_moves, moved_ids, MoveOutcome};

fn labels(ts: &[&str]) -> Labels {
    Labels { nodes: ts.iter().map(|t| LabelNode { title: t.to_string() }).collect() }
}

fn assignees(ns: &[&str]) -> Assignees {
    Assignees { nodes: ns.iter().map(|n| AssigneeNode { username: n.to_string() }).collect() }
}

fn raw_issue(iid: &str, weight: Option<u32>, ls: &[&str], who: &[&str]) -> Issue {
    Issue {
        iid: iid.to_string(),
        weight,
        labels: labels(ls),
        assignees: assignees(who),
        project_url: None,
        has_low_priority_label: false,
        has_review_or_test_label: false,
        has_release_or_customer_label: false,
    }
}

fn issue(iid: &str, weight: u32, ls: &[&str], who: &[&str]) -> Issue {
    let mut i = raw_issue(iid, Some(weight), ls, who);
    let l = labels(ls);
    i.has_low_priority_label = is_low_priority(&l);
    i.has_review_or_test_label = needs_review(&l);
    i.has_release_or_customer_label = is_exempt(&l);
    i.project_url = Some("https://gitlab.example.com/grp/proj".to_string());
    i
}

fn date() -> CalendarDate {
    CalendarDate { year: 2024, month: 5, day: 1 }
}

fn iteration(id: u64) -> Iteration {
    Iteration { id, start_date: date(), due_date: date() }
}

fn state(filter: Option<Vec<&str>>) -> BotState {
    BotState::new(
        "https://gitlab.example.com".to_string(),
        "grp".to_string(),
        iteration(1),
        iteration(2),
        filter.map(|f| f.iter().map(|s| s.to_string()).collect()),
    )
}

fn points(s: &BotState, who: &str) -> Option<(u32, u32)> {
    s.developer_points.snapshot(&who.to_string())
}

#[test]
fn classifier_low_priority() {
    assert!(is_low_priority(&labels(&["priority::Minor"])));
    assert!(is_low_priority(&labels(&["x", "priority::Trivial"])));
    assert!(!is_low_priority(&labels(&["priority::Major"])));
    assert!(!is_low_priority(&labels(&["priority::Minor2"])));
    assert!(!is_low_priority(&labels(&[])));
}

#[test]
fn classifier_exempt_prefixes() {
    assert!(is_exempt(&labels(&["release::1.2"])));
    assert!(is_exempt(&labels(&["customer::acme"])));
    assert!(is_exempt(&labels(&["customer::"])));
    assert!(!is_exempt(&labels(&["xrelease::1"])));
    assert!(!is_exempt(&labels(&["customer:acme"])));
    assert!(!is_exempt(&labels(&[])));
}

#[test]
fn classifier_needs_review() {
    assert!(needs_review(&labels(&["status::to-review"])));
    assert!(needs_review(&labels(&["a", "status::to-test"])));
    assert!(!needs_review(&labels(&["status::done"])));
    assert!(!needs_review(&labels(&[])));
}

#[test]
fn ledger_add_and_snapshot() {
    let mut l = Ledger::new();
    let a = "alice".to_string();
    assert_eq!(l.snapshot(&a), None);
    l.ensure(&a);
    assert_eq!(l.snapshot(&a), Some((0, 0)));
    l.ensure(&a);
    assert_eq!(l.snapshot(&a), Some((0, 0)));
    l.add(&a, 5, true);
    l.add(&a, 3, false);
    assert_eq!(l.snapshot(&a), Some((5, 8)));
    l.subtract(&a, 2, false);
    assert_eq!(l.snapshot(&a), Some((5, 6)));
    l.subtract(&a, 1, true);
    assert_eq!(l.snapshot(&a), Some((4, 5)));
}

#[test]
fn ledger_subtract_saturates() {
    let mut l = Ledger::new();
    let a = "alice".to_string();
    l.add(&a, 3, true);
    l.subtract(&a, 10, true);
    assert_eq!(l.snapshot(&a), Some((0, 0)));
    l.add(&a, 4, true);
    l.subtract(&a, 9, false);
    assert_eq!(l.snapshot(&a), Some((4, 0)));
}

#[test]
fn ledger_add_saturates() {
    let mut l = Ledger::new();
    let a = "alice".to_string();
    l.add(&a, u32::MAX, true);
    l.add(&a, 7, true);
    assert_eq!(l.snapshot(&a), Some((u32::MAX, u32::MAX)));
}

#[test]
fn ledger_subtract_absent_stays_absent() {
    let mut l = Ledger::new();
    let a = "ghost".to_string();
    l.subtract(&a, 3, true);
    assert_eq!(l.snapshot(&a), None);
}

#[test]
fn ledger_entries_lists_each_once() {
    let mut l = Ledger::new();
    l.add(&"a".to_string(), 1, true);
    l.add(&"b".to_string(), 2, false);
    l.add(&"a".to_string(), 1, true);
    let mut e = l.entries();
    e.sort();
    assert_eq!(e, vec![("a".to_string(), (2, 2)), ("b".to_string(), (0, 2))]);
}

#[test]
fn threshold_boundary_excluding_reviewed() {
    let mut s = state(None);
    let i = issue("1", 0, &["priority::Minor"], &["dev"]);
    s.developer_points.add(&"dev".to_string(), 14, true);
    assert_eq!(s.move_reasons(&i, "dev".to_string()), (false, false));
    s.developer_points.add(&"dev".to_string(), 1, true);
    assert_eq!(s.move_reasons(&i, "dev".to_string()), (true, false));
}

#[test]
fn review_blocks_excluding_signal_only() {
    let mut s = state(None);
    let i = issue("1", 0, &["priority::Minor", "status::to-test"], &["dev"]);
    s.developer_points.add(&"dev".to_string(), 30, true);
    assert_eq!(s.move_reasons(&i, "dev".to_string()), (false, true));
}

#[test]
fn exempt_issue_has_no_signal() {
    let mut s = state(None);
    let i = issue("1", 0, &["priority::Minor", "release::2"], &["dev"]);
    s.developer_points.add(&"dev".to_string(), 1000, true);
    assert_eq!(s.move_reasons(&i, "dev".to_string()), (false, false));
    assert_eq!(s.deciding_assignee(&i), None);
}

#[test]
fn unknown_developer_has_no_signal() {
    let s = state(None);
    let i = issue("1", 0, &["priority::Minor"], &["dev"]);
    assert_eq!(s.move_reasons(&i, "dev".to_string()), (false, false));
}

#[test]
fn two_pass_order_sensitivity() {
    let mut s = state(None);
    let first = issue("1", 10, &[], &["dev"]);
    let second = issue("2", 20, &["priority::Minor"], &["dev"]);
    s.add_weight_for_assignees(&first.assignees.nodes, true, 10);
    s.add_weight_for_assignees(&second.assignees.nodes, true, 20);
    assert_eq!(points(&s, "dev"), Some((30, 30)));
    assert_eq!(s.move_reasons(&second, "dev".to_string()), (true, true));

    let mut t = state(None);
    t.run(&vec![issue("1", 10, &[], &["dev"]), issue("2", 20, &["priority::Minor"], &["dev"])]).unwrap();
    assert_eq!(points(&t, "dev"), Some((10, 10)));
    assert_eq!(t.to_move, vec![("grp/proj".to_string(), "2".to_string())]);
}

#[test]
fn filter_exclusion() {
    let mut s = state(Some(vec!["bob"]));
    assert!(s.check_assignees_flag(&"alice".to_string()));
    assert!(!s.check_assignees_flag(&"bob".to_string()));
    let issues = vec![issue("1", 30, &["priority::Minor"], &["alice", "bob"])];
    s.run(&issues).unwrap();
    assert_eq!(points(&s, "alice"), None);
    assert_eq!(points(&s, "bob"), Some((0, 0)));
    assert_eq!(s.to_move.len(), 1);
}

#[test]
fn filtered_out_assignee_does_not_qualify() {
    let mut s = state(Some(vec!["bob"]));
    let issues = vec![
        issue("1", 40, &[], &["alice"]),
        issue("2", 5, &["priority::Minor"], &["alice", "bob"]),
    ];
    s.run(&issues).unwrap();
    assert_eq!(points(&s, "alice"), None);
    assert_eq!(points(&s, "bob"), Some((5, 5)));
    assert!(s.to_move.is_empty());
}

#[test]
fn no_filter_allows_everyone() {
    let s = state(None);
    assert!(!s.check_assignees_flag(&"anyone".to_string()));
}

#[test]
fn scenario_a_single_issue_moves() {
    let mut s = state(None);
    let i = issue("7", 16, &["priority::Minor"], &["dev"]);
    s.add_weight_for_assignees(&i.assignees.nodes, !i.has_review_or_test_label, 16);
    assert_eq!(points(&s, "dev"), Some((16, 16)));
    assert_eq!(s.move_reasons(&i, "dev".to_string()), (true, false));

    let mut t = state(None);
    t.run(&vec![issue("7", 16, &["priority::Minor"], &["dev"])]).unwrap();
    assert_eq!(t.to_move, vec![("grp/proj".to_string(), "7".to_string())]);
    assert_eq!(points(&t, "dev"), Some((0, 0)));
    let request = t.batch_move_issues(&t.to_move).unwrap();
    assert_eq!(request.matches("issueSetIteration").count(), 1);
}

#[test]
fn scenario_b_exempt_issue_stays() {
    let mut s = state(None);
    s.run(&vec![issue("9", 100, &["customer::acme", "priority::Trivial"], &["dev"])]).unwrap();
    assert!(s.to_move.is_empty());
    assert_eq!(points(&s, "dev"), Some((100, 100)));
    assert_eq!(s.batch_move_issues(&s.to_move), None);
}

#[test]
fn scenario_c_too_few_iterations() {
    assert_eq!(get_iterations(vec![iteration(5)]), Err(IterationError::TooFewIterations { found: 1 }));
    assert_eq!(get_iterations(vec![]), Err(IterationError::TooFewIterations { found: 0 }));
}

#[test]
fn iterations_current_and_next() {
    let r = get_iterations(vec![iteration(5), iteration(6), iteration(7)]).unwrap();
    assert_eq!(r[0].id, 5);
    assert_eq!(r[1].id, 6);
}

#[test]
fn retraction_uses_deciding_signal() {
    // The total decides (excluding-reviewed stays below 15), so only the total shrinks.
    let mut s = state(None);
    let issues = vec![
        issue("1", 20, &["status::to-review"], &["dev"]),
        issue("2", 6, &["priority::Minor"], &["dev"]),
    ];
    s.run(&issues).unwrap();
    assert_eq!(s.to_move, vec![("grp/proj".to_string(), "2".to_string())]);
    assert_eq!(points(&s, "dev"), Some((6, 20)));
}

#[test]
fn first_qualifying_assignee_decides() {
    let mut s = state(None);
    let issues = vec![
        issue("1", 30, &["status::to-review"], &["b"]),
        issue("2", 20, &[], &["c"]),
        issue("3", 1, &["priority::Minor"], &["a", "b", "c"]),
    ];
    s.run(&issues).unwrap();
    assert_eq!(s.to_move, vec![("grp/proj".to_string(), "3".to_string())]);
    // b decides on the total alone, so no one loses excluding-reviewed points.
    assert_eq!(points(&s, "a"), Some((1, 0)));
    assert_eq!(points(&s, "b"), Some((1, 30)));
    assert_eq!(points(&s, "c"), Some((21, 20)));
}

#[test]
fn retraction_lowers_later_decisions() {
    let mut s = state(None);
    let issues = vec![
        issue("1", 10, &["priority::Minor"], &["dev"]),
        issue("2", 10, &["priority::Minor"], &["dev"]),
    ];
    s.run(&issues).unwrap();
    assert_eq!(s.to_move, vec![("grp/proj".to_string(), "1".to_string())]);
    assert_eq!(points(&s, "dev"), Some((10, 10)));
}

#[test]
fn project_namespace_strips_host() {
    let s = state(None);
    assert_eq!(s.get_project_namespace(&"https://gitlab.example.com/grp/sub/proj/".to_string()), Ok("grp/sub/proj".to_string()));
    assert_eq!(s.get_project_namespace(&"https://gitlab.example.com//grp".to_string()), Ok("grp".to_string()));
    let t = BotState::new("https://gitlab.example.com/".to_string(), "g".to_string(), iteration(1), iteration(2), None);
    assert_eq!(t.get_project_namespace(&"https://gitlab.example.com/a/b".to_string()), Ok("a/b".to_string()));
}

#[test]
fn project_namespace_outside_host() {
    let s = state(None);
    assert_eq!(s.get_project_namespace(&"https://other.example.com/grp".to_string()), Err(PlanError::ProjectOutsideHost));
}

#[test]
fn run_fails_on_foreign_project() {
    let mut s = state(None);
    let mut i = issue("1", 16, &["priority::Minor"], &["dev"]);
    i.project_url = Some("https://elsewhere.org/x".to_string());
    assert_eq!(s.run(&vec![i]), Err(PlanError::ProjectOutsideHost));
    assert!(s.to_move.is_empty());
}

#[test]
fn run_fails_without_project_url() {
    let mut s = state(None);
    let mut i = issue("1", 16, &["priority::Minor"], &["dev"]);
    i.project_url = None;
    assert_eq!(s.run(&vec![i]), Err(PlanError::MissingProjectUrl));
}

#[test]
fn missing_weight_counts_zero() {
    let mut s = state(None);
    let mut i = issue("1", 0, &[], &["dev"]);
    i.weight = None;
    assert_eq!(i.weight_value(), 0);
    s.run(&vec![i]).unwrap();
    assert_eq!(points(&s, "dev"), Some((0, 0)));
}

#[test]
fn flatten_classifies_and_annotates() {
    let response = GraphQLResponse {
        data: Data {
            group: Group {
                projects: Projects {
                    nodes: vec![
                        Project {
                            web_url: "https://h/a".to_string(),
                            issues: Issues {
                                nodes: vec![
                                    raw_issue("1", Some(3), &["priority::Minor", "status::to-review"], &["x"]),
                                    raw_issue("2", None, &["customer::z"], &[]),
                                ],
                            },
                        },
                        Project { web_url: "https://h/b".to_string(), issues: Issues { nodes: vec![] } },
                        Project {
                            web_url: "https://h/c".to_string(),
                            issues: Issues { nodes: vec![raw_issue("3", Some(1), &[], &["y"])] },
                        },
                    ],
                },
            },
        },
    };
    let flat = BotState::get_group_issues(response);
    assert_eq!(flat.len(), 3);
    assert_eq!(flat[0].iid, "1");
    assert_eq!(flat[0].project_url.as_deref(), Some("https://h/a"));
    assert!(flat[0].has_low_priority_label && flat[0].has_review_or_test_label && !flat[0].has_release_or_customer_label);
    assert_eq!(flat[1].iid, "2");
    assert!(!flat[1].has_low_priority_label && flat[1].has_release_or_customer_label);
    assert_eq!(flat[2].iid, "3");
    assert_eq!(flat[2].project_url.as_deref(), Some("https://h/c"));
    assert_eq!(flat[2].assignees.nodes[0].username, "y");
}

#[test]
fn batch_mutation_text() {
    let s = state(None);
    let moves = vec![("grp/proj".to_string(), "7".to_string()), ("grp/other".to_string(), "12".to_string())];
    let m = BotState::new("h".to_string(), "g".to_string(), iteration(1), iteration(4021), None);
    assert_eq!(
        m.batch_move_issues(&moves).unwrap(),
        "mutation BatchMoveIssues {\
m0: issueSetIteration(input: {projectPath: \"grp/proj\", iid: \"7\", iterationId: \"gid://gitlab/Iteration/4021\"}) { errors issue { iid } } \
m1: issueSetIteration(input: {projectPath: \"grp/other\", iid: \"12\", iterationId: \"gid://gitlab/Iteration/4021\"}) { errors issue { iid } } }"
    );
    assert_eq!(s.batch_move_issues(&vec![]), None);
}

#[test]
fn batch_mutation_aliases_past_nine() {
    let m = state(None);
    let moves: Vec<(String, String)> = (0..11).map(|k| ("p".to_string(), k.to_string())).collect();
    let text = m.batch_move_issues(&moves).unwrap();
    assert!(text.contains("m10: issueSetIteration(input: {projectPath: \"p\", iid: \"10\", iterationId: \"gid://gitlab/Iteration/2\"})"));
    assert!(text.starts_with("mutation BatchMoveIssues {m0: "));
    assert!(text.ends_with("} }"));
}

#[test]
fn outcomes_split_into_moved_and_failed() {
    let outcomes = vec![
        MoveOutcome { alias: "m0".to_string(), moved_iid: Some("7".to_string()), errors: vec![] },
        MoveOutcome { alias: "m1".to_string(), moved_iid: None, errors: vec!["not found".to_string()] },
        MoveOutcome { alias: "m2".to_string(), moved_iid: Some("9".to_string()), errors: vec!["warn".to_string()] },
    ];
    assert_eq!(moved_ids(&outcomes), vec!["7".to_string(), "9".to_string()]);
    assert_eq!(failed_moves(&outcomes), vec!["m1".to_string(), "m2".to_string()]);
    assert!(moved_ids(&vec![]).is_empty());
}

#[test]
fn single_update_is_a_no_op() {
    assert_eq!(update_issue_iteration("grp/proj", 3, "https://h/grp/proj/-/issues/3", 9), Ok(()));
}

#[test]
fn args_filter_from_assignees() {
    let a = Args { host: "h".to_string(), token: "t".to_string(), group_name: Some("g".to_string()), assignees: vec![] };
    assert_eq!(a.assignees_filter(), None);
    let b = Args { host: "h".to_string(), token: "t".to_string(), group_name: None, assignees: vec!["x".to_string()] };
    assert_eq!(b.assignees_filter(), Some(vec!["x".to_string()]));
}
