use cherry_bot::fork::{
    find_fork, is_forked_decision, ForkSync, ForkSyncAction, ForkSyncState, RepoInfo,
    ScriptedPages, WaitStep, run_wait, MAX_POLLS, POLL_INTERVAL_SECS, WAIT_CEILING_SECS,
};
use cherry_bot::naming::qualify;
use cherry_bot::page::{list_all, ListError, Page};

fn repo(name: &str, full_name: Option<&str>, fork: Option<bool>) -> RepoInfo {
    RepoInfo {
        name: name.to_string(),
        full_name: full_name.map(|s| s.to_string()),
        fork,
    }
}

fn page_of(names: &[&str], has_next: bool) -> Page<RepoInfo> {
    Page {
        items: names
            .iter()
            .map(|n| repo(n, Some(n), Some(false)))
            .collect(),
        has_next,
    }
}

#[test]
fn list_all_drains_pages_in_order_and_stops() {
    let sp = ScriptedPages {
        pages: vec![
            page_of(&["a", "b"], true),
            page_of(&["c"], true),
            page_of(&["d"], false),
        ],
        fail_at: None,
    };
    let all = list_all(&sp).unwrap();
    let names: Vec<&str> = all.iter().map(|r| r.name.as_str()).collect();
    assert_eq!(names, vec!["a", "b", "c", "d"]);
}

#[test]
fn list_all_returns_only_the_failure() {
    let sp = ScriptedPages {
        pages: vec![
            page_of(&["a", "b"], true),
            page_of(&["c"], true),
            page_of(&["d"], false),
        ],
        fail_at: Some(1),
    };
    assert_eq!(list_all(&sp).unwrap_err(), ListError);
}

#[test]
fn list_all_of_a_single_final_page_fetches_once() {
    let sp = ScriptedPages {
        pages: vec![page_of(&["only"], false)],
        fail_at: None,
    };
    let all = list_all(&sp).unwrap();
    assert_eq!(all.len(), 1);
    assert_eq!(all[0].name, "only");
}

#[test]
fn find_fork_needs_flag_and_name() {
    let repos = vec![
        repo("widgets", Some("bob/widgets"), Some(false)),
        repo("widgets", Some("bob/widgets"), Some(true)),
        repo("other", Some("bob/other"), Some(true)),
    ];
    let found = find_fork(&repos, &"bob/widgets".to_string());
    assert_eq!(found, Some(1));
    assert_eq!(find_fork(&repos, &"bob/gone".to_string()), None);
    assert_eq!(find_fork(&vec![], &"bob/widgets".to_string()), None);
}

#[test]
fn fork_check_needs_both_matches() {
    let repos = vec![repo("widgets", Some("bob/widgets"), Some(true))];
    let fork_full = qualify("bob", "widgets");
    let source_full = qualify("acme", "widgets");
    assert!(is_forked_decision(
        &repos,
        &fork_full,
        &Some("acme/widgets".to_string()),
        &source_full
    ));
    assert!(!is_forked_decision(
        &repos,
        &fork_full,
        &Some("someone/widgets".to_string()),
        &source_full
    ));
    assert!(!is_forked_decision(&repos, &fork_full, &None, &source_full));
    assert!(!is_forked_decision(
        &vec![],
        &fork_full,
        &Some("acme/widgets".to_string()),
        &source_full
    ));
}

#[test]
fn wait_budget_covers_the_ceiling_plus_one_interval() {
    assert_eq!(POLL_INTERVAL_SECS, 15);
    assert_eq!(WAIT_CEILING_SECS, 360);
    assert_eq!(MAX_POLLS, 25);
}

#[test]
fn polling_stops_at_the_first_confirming_tick() {
    let mut reports = vec![false; MAX_POLLS as usize];
    reports[2] = true;
    assert_eq!(run_wait(&reports), (WaitStep::Ready, 3));

    let mut reports = vec![false; MAX_POLLS as usize];
    reports[0] = true;
    assert_eq!(run_wait(&reports), (WaitStep::Ready, 1));
}

#[test]
fn polling_times_out_after_the_full_budget() {
    let reports = vec![false; MAX_POLLS as usize];
    assert_eq!(run_wait(&reports), (WaitStep::TimedOut, MAX_POLLS as usize));
}

#[test]
fn fork_sync_skips_creation_when_the_fork_exists() {
    let mut fs = ForkSync::new();
    assert_eq!(fs.begin(), ForkSyncAction::CheckExistence);
    assert_eq!(fs.on_existence(true), ForkSyncAction::Done);
    assert_eq!(fs.state, ForkSyncState::Exists);
}

#[test]
fn fork_sync_creates_then_waits() {
    let mut fs = ForkSync::new();
    fs.begin();
    assert_eq!(fs.on_existence(false), ForkSyncAction::CreateFork);
    assert_eq!(fs.on_created(), ForkSyncAction::Poll);
    assert_eq!(fs.on_poll(false), ForkSyncAction::Poll);
    assert_eq!(fs.on_poll(true), ForkSyncAction::Done);
    assert_eq!(fs.state, ForkSyncState::Exists);
}

#[test]
fn fork_sync_times_out_at_the_budget() {
    let mut fs = ForkSync::new();
    fs.begin();
    fs.on_existence(false);
    fs.on_created();
    let mut last = ForkSyncAction::Poll;
    for _ in 0..MAX_POLLS {
        last = fs.on_poll(false);
    }
    assert_eq!(last, ForkSyncAction::Fail);
    assert_eq!(fs.state, ForkSyncState::TimedOut);
}
