use cherry_bot::exec_cmd::{
    CmdOutput, ExecutorError, Executor, GitCommandExecutor, RawExecutor, ScriptStep,
    ScriptedExecutor, TrackedExecutor,
};
use cherry_bot::page::{ListingDrain, Page};

struct FlakyRunner {
    calls: usize,
}

impl RawExecutor for FlakyRunner {
    fn execute(&mut self, _args: &Vec<String>) -> Result<CmdOutput, ExecutorError> {
        self.calls += 1;
        if self.calls == 1 {
            // a "success" whose exit status is failure
            Ok(CmdOutput { success: false, stdout: vec![], stderr: vec![] })
        } else {
            Err(ExecutorError::SpawnError("no such program".to_string()))
        }
    }
}

#[test]
fn history_executor_normalizes_inconsistent_answers() {
    let mut ex = TrackedExecutor::new(FlakyRunner { calls: 0 });
    let args = vec!["status".to_string()];
    let first = ex.execute(&args);
    assert!(matches!(first, Err(ExecutorError::OutputError(o)) if !o.success));
    let second = ex.execute(&args);
    assert!(matches!(second, Err(ExecutorError::SpawnError(_))));
}

#[test]
fn scripted_executor_records_and_replays() {
    let mut ex = ScriptedExecutor::new(vec![ScriptStep::FailExit]);
    let first = ex.execute(&vec!["a".to_string()]);
    assert!(matches!(first, Err(ExecutorError::OutputError(_))));
    let second = ex.execute(&vec!["b".to_string()]);
    assert!(matches!(second, Ok(o) if o.success));
    assert_eq!(ex.log, vec![vec!["a".to_string()], vec!["b".to_string()]]);
    assert_eq!(ex.cursor, 1);
}

#[test]
fn git_program_name_is_git() {
    assert_eq!(GitCommandExecutor::new().program_name(), "git");
}

#[test]
fn listing_drain_accumulates_until_the_final_page() {
    let mut drain: ListingDrain<u32> = ListingDrain::new();
    assert_eq!(drain.next_page(), Some(0));
    drain.on_page(Page { items: vec![1, 2], has_next: true });
    assert_eq!(drain.next_page(), Some(1));
    drain.on_page(Page { items: vec![3], has_next: false });
    assert_eq!(drain.next_page(), None);
    assert_eq!(drain.items, vec![1, 2, 3]);
}
