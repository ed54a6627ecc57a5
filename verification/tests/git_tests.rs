use cherry_bot::censor::{IdentityCensor, SecretCensor};
use cherry_bot::exec_cmd::{ExecutorError, ScriptStep, ScriptedExecutor};
use cherry_bot::git::{Git, GitError, GitOp, NoUserGetter, StaticUserGetter};
use cherry_bot::naming::local_branch_name;

fn plain_git(script: Vec<ScriptStep>) -> Git<IdentityCensor, ScriptedExecutor, StaticUserGetter> {
    let ex = ScriptedExecutor::new(script);
    let getter = StaticUserGetter {
        name: "Bot".to_string(),
        email: "bot@example.com".to_string(),
    };
    Git::new("widgets".to_string(), IdentityCensor, ex, getter)
}

#[test]
fn cherry_pick_scenario_am_failure_issues_abort() {
    let script = vec![
        ScriptStep::Succeed,
        ScriptStep::Succeed,
        ScriptStep::Succeed,
        ScriptStep::FailExit,
    ];
    let mut git = plain_git(script);
    git.clone(&"https://github.com/acme/widgets.git".to_string())
        .unwrap();
    git.checkout(&"release-1.2".to_string()).unwrap();
    let branch = local_branch_name(42, "release-1.2");
    assert_eq!(branch, "cherry-pick-42-to-release-1.2");
    git.checkout_new_branch(&branch).unwrap();
    let err = git.am(&"/tmp/patch-42".to_string()).unwrap_err();
    match err {
        GitError::Command { op, cause } => {
            assert_eq!(op, GitOp::Am);
            assert!(matches!(cause, ExecutorError::OutputError(_)));
        }
        other => panic!("unexpected error: {:?}", other),
    }
    let log = &git.executor().log;
    assert_eq!(log.len(), 5);
    assert_eq!(
        log[0],
        vec!["clone", "https://github.com/acme/widgets.git", "widgets"]
    );
    assert_eq!(log[1], vec!["checkout", "release-1.2"]);
    assert_eq!(log[2], vec!["checkout", "-b", "cherry-pick-42-to-release-1.2"]);
    assert_eq!(log[3], vec!["am", "--3way", "/tmp/patch-42"]);
    assert_eq!(log[4], vec!["am", "--abort"]);
}

#[test]
fn am_spawn_failure_does_not_abort() {
    let mut git = plain_git(vec![ScriptStep::FailSpawn]);
    let err = git.am(&"/tmp/patch-1".to_string()).unwrap_err();
    match err {
        GitError::Command { op, cause } => {
            assert_eq!(op, GitOp::Am);
            assert!(matches!(cause, ExecutorError::SpawnError(_)));
        }
        other => panic!("unexpected error: {:?}", other),
    }
    let log = &git.executor().log;
    assert_eq!(log.len(), 1);
    assert_eq!(log[0], vec!["am", "--3way", "/tmp/patch-1"]);
}

#[test]
fn am_success_runs_exactly_one_command() {
    let mut git = plain_git(vec![ScriptStep::Succeed]);
    git.am(&"/tmp/patch-2".to_string()).unwrap();
    assert_eq!(git.executor().log.len(), 1);
}

#[test]
fn push_with_force_places_token_after_subcommand() {
    let mut git = plain_git(vec![ScriptStep::Succeed]);
    git.push(&"origin".to_string(), &"main".to_string(), true)
        .unwrap();
    assert_eq!(git.executor().log[0], vec!["push", "--force", "origin", "main"]);
}

#[test]
fn push_without_force_has_no_force_token() {
    let mut git = plain_git(vec![ScriptStep::Succeed]);
    git.push(&"origin".to_string(), &"main".to_string(), false)
        .unwrap();
    let sent = &git.executor().log[0];
    assert_eq!(*sent, vec!["push", "origin", "main"]);
    assert!(!sent.contains(&"--force".to_string()));
}

#[test]
fn every_argument_passes_through_the_censor_once() {
    let ex = ScriptedExecutor::new(vec![]);
    let censor = SecretCensor::new("s3cret".to_string(), "<redacted>".to_string());
    let mut git = Git::new("d".to_string(), censor, ex, NoUserGetter);
    git.push(&"origin".to_string(), &"s3cret".to_string(), false)
        .unwrap();
    assert_eq!(git.executor().log[0], vec!["push", "origin", "<redacted>"]);
}

#[test]
fn commit_stages_then_commits_with_author() {
    let mut git = plain_git(vec![ScriptStep::Succeed, ScriptStep::Succeed]);
    git.commit(&"title".to_string(), &"body".to_string()).unwrap();
    let log = &git.executor().log;
    assert_eq!(log.len(), 2);
    assert_eq!(log[0], vec!["add", "--all"]);
    assert_eq!(
        log[1],
        vec![
            "commit",
            "--message",
            "title",
            "--message",
            "body",
            "--author",
            "Bot <bot@example.com>"
        ]
    );
}

#[test]
fn commit_as_uses_the_given_author() {
    let mut git = plain_git(vec![ScriptStep::Succeed, ScriptStep::Succeed]);
    git.commit_as(
        &"t".to_string(),
        &"b".to_string(),
        &"Someone <someone@example.com>".to_string(),
    )
    .unwrap();
    let log = &git.executor().log;
    assert_eq!(
        log[1],
        vec!["commit", "--message", "t", "--message", "b", "--author", "Someone <someone@example.com>"]
    );
}

#[test]
fn commit_without_identity_runs_nothing() {
    let ex = ScriptedExecutor::new(vec![]);
    let mut git = Git::new("d".to_string(), IdentityCensor, ex, NoUserGetter);
    let err = git
        .commit(&"title".to_string(), &"body".to_string())
        .unwrap_err();
    assert_eq!(err, GitError::Identity);
    assert_eq!(git.executor().log.len(), 0);
}

#[test]
fn commit_stops_after_failed_staging() {
    let mut git = plain_git(vec![ScriptStep::FailExit]);
    let err = git
        .commit(&"title".to_string(), &"body".to_string())
        .unwrap_err();
    assert!(matches!(err, GitError::Command { op: GitOp::Commit, .. }));
    assert_eq!(git.executor().log.len(), 1);
}

#[test]
fn branch_exists_reflects_exit_code() {
    let mut git = plain_git(vec![ScriptStep::Succeed]);
    assert!(git.branch_exists(&"main".to_string()));
    assert_eq!(
        git.executor().log[0],
        vec!["ls-remote", "--exit-code", "--heads", "origin", "main"]
    );

    let mut git = plain_git(vec![ScriptStep::FailExit]);
    assert!(!git.branch_exists(&"gone".to_string()));
}

#[test]
fn config_prepends_the_subcommand() {
    let mut git = plain_git(vec![ScriptStep::Succeed]);
    let conf = vec!["user.name".to_string(), "bot".to_string()];
    git.config(&conf).unwrap();
    assert_eq!(git.executor().log[0], vec!["config", "user.name", "bot"]);
}

#[test]
fn checkout_failure_carries_context_and_cause() {
    let mut git = plain_git(vec![ScriptStep::FailExit]);
    let err = git.checkout(&"nope".to_string()).unwrap_err();
    match err {
        GitError::Command { op, cause } => {
            assert_eq!(op, GitOp::Checkout);
            assert!(matches!(cause, ExecutorError::OutputError(o) if !o.success));
        }
        other => panic!("unexpected error: {:?}", other),
    }
}

#[test]
fn directory_returns_the_configured_path() {
    let git = plain_git(vec![]);
    assert_eq!(git.directory(), "widgets");
}
