//! The command-invocation layer: what it means to run the version-control
//! tool once, and how the two failure kinds are told apart.
//!
//! The [`Executor`] trait is the substitution point: a production
//! implementation spawns a real process (outside this crate), while
//! [`ScriptedExecutor`] replays a preset outcome for each call and records
//! every argument list it receives.  Contracts throughout the crate speak of
//! an executor's `calls()` and `outcomes()` histories.

use vstd::prelude::*;

verus! {

/// What a finished command left behind: its captured streams and whether
/// its exit status was success.
#[derive(Clone, Debug, PartialEq, Eq)]
pub struct CmdOutput {
    pub success: bool,
    pub stdout: Vec<u8>,
    pub stderr: Vec<u8>,
}

/// The two distinguishable failure kinds of one command invocation: the
/// process could not be started at all, or it ran and exited with a
/// non-zero status.  Callers react differently to the two (the patch-apply
/// path aborts only after a real attempt ran).
#[derive(Clone, Debug, PartialEq, Eq)]
pub enum ExecutorError {
    /// The process never started; carries a diagnostic message.
    SpawnError(String),
    /// The process ran and failed; carries its captured output.
    OutputError(CmdOutput),
}

/// Copies a vector of strings element by element.
fn clone_strings(v: &Vec<String>) -> (r: Vec<String>)
    ensures
        r@ == v@,
{
    let mut r: Vec<String> = Vec::new();
    let mut i: usize = 0;
    while i < v.len()
        invariant
            i <= v.len(),
            r@ == v@.subrange(0, i as int),
        decreases v.len() - i,
    {
        r.push(v[i].clone());
        i += 1;
        proof {
            assert(r@ =~= v@.subrange(0, i as int));
        }
    }
    proof {
        assert(v@.subrange(0, v@.len() as int) =~= v@);
    }
    r
}

/// Runs the version-control tool once per call.  `calls()` is the history
/// of argument lists an executor has received and `outcomes()` the history
/// of results it handed back; every call appends to both.  A returned
/// output is a success exactly when the command's exit status was success.
pub trait Executor: Sized {
    spec fn calls(&self) -> Seq<Seq<Seq<char>>>;

    spec fn outcomes(&self) -> Seq<Result<CmdOutput, ExecutorError>>;

    fn execute(&mut self, args: &Vec<String>) -> (r: Result<CmdOutput, ExecutorError>)
        ensures
            final(self).calls() == old(self).calls().push(args.deep_view()),
            final(self).outcomes() == old(self).outcomes().push(r),
            r matches Ok(o) ==> o.success,
            r matches Err(ExecutorError::OutputError(o)) ==> !o.success,
    ;
}

/// A bare command runner, implemented outside this crate by the
/// production process spawner.  Nothing is assumed of it; the
/// [`TrackedExecutor`] adapter normalizes its answers and carries the
/// histories that contracts speak of.
pub trait RawExecutor: Sized {
    fn execute(&mut self, args: &Vec<String>) -> Result<CmdOutput, ExecutorError>;
}

/// Adapts a bare runner to the [`Executor`] contract: it keeps the call
/// and outcome histories and normalizes an inconsistent answer (a
/// success whose exit status is failure, or the reverse) into the
/// failure kind its payload shows.
pub struct TrackedExecutor<E: RawExecutor> {
    pub raw: E,
    pub past_calls: Ghost<Seq<Seq<Seq<char>>>>,
    pub past_outcomes: Ghost<Seq<Result<CmdOutput, ExecutorError>>>,
}

impl<E: RawExecutor> TrackedExecutor<E> {
    pub fn new(raw: E) -> (r: Self)
        ensures
            r.calls() == Seq::<Seq<Seq<char>>>::empty(),
            r.outcomes() == Seq::<Result<CmdOutput, ExecutorError>>::empty(),
    {
        TrackedExecutor { raw, past_calls: Ghost(Seq::empty()), past_outcomes: Ghost(Seq::empty()) }
    }
}

impl<E: RawExecutor> Executor for TrackedExecutor<E> {
    open spec fn calls(&self) -> Seq<Seq<Seq<char>>> {
        self.past_calls@
    }

    open spec fn outcomes(&self) -> Seq<Result<CmdOutput, ExecutorError>> {
        self.past_outcomes@
    }

    fn execute(&mut self, args: &Vec<String>) -> (r: Result<CmdOutput, ExecutorError>) {
        let first = self.raw.execute(args);
        let r = match first {
            Ok(o) => {
                if o.success {
                    Ok(o)
                } else {
                    Err(ExecutorError::OutputError(o))
                }
            },
            Err(ExecutorError::OutputError(o)) => {
                if o.success {
                    Err(
                        ExecutorError::OutputError(
                            CmdOutput { success: false, stdout: o.stdout, stderr: o.stderr },
                        ),
                    )
                } else {
                    Err(ExecutorError::OutputError(o))
                }
            },
            Err(ExecutorError::SpawnError(m)) => Err(ExecutorError::SpawnError(m)),
        };
        self.past_calls = Ghost(self.past_calls@.push(args.deep_view()));
        self.past_outcomes = Ghost(self.past_outcomes@.push(r));
        r
    }
}

/// The production configuration of the command layer: the name of the
/// version-control program to spawn.  The spawning itself is I/O and lives
/// outside this crate; an adapter there reads the program name from here.
pub struct GitCommandExecutor {
    git: String,
}

impl GitCommandExecutor {
    /// The program name this executor spawns.
    pub closed spec fn program(&self) -> Seq<char> {
        self.git@
    }

    pub fn new() -> (r: Self)
        ensures
            r.program() == "git"@,
    {
        GitCommandExecutor { git: "git".to_owned() }
    }

    pub fn program_name(&self) -> (r: &String)
        ensures
            r@ == self.program(),
    {
        &self.git
    }
}

/// One preset outcome for a [`ScriptedExecutor`] call.
#[derive(Clone, Copy, Debug, PartialEq, Eq)]
pub enum ScriptStep {
    /// The command runs and exits successfully.
    Succeed,
    /// The command runs and exits with a non-zero status.
    FailExit,
    /// The command cannot be spawned at all.
    FailSpawn,
}

/// An executor for tests and simulations: it answers the `n`-th call with
/// the `n`-th scripted step (success once the script is exhausted) and
/// keeps every received argument list in `log`.
pub struct ScriptedExecutor {
    /// Every argument list received, in order.
    pub log: Vec<Vec<String>>,
    /// The preset outcomes, consumed front to back.
    pub script: Vec<ScriptStep>,
    /// How many script entries have been consumed.
    pub cursor: usize,
    /// The results handed back so far, in order.
    pub history: Ghost<Seq<Result<CmdOutput, ExecutorError>>>,
}

impl ScriptedExecutor {
    pub fn new(script: Vec<ScriptStep>) -> (r: Self)
        ensures
            r.calls() == Seq::<Seq<Seq<char>>>::empty(),
            r.outcomes() == Seq::<Result<CmdOutput, ExecutorError>>::empty(),
            r.script@ == script@,
            r.cursor == 0,
    {
        let r = ScriptedExecutor { log: Vec::new(), script, cursor: 0, history: Ghost(Seq::empty()) };
        proof {
            assert(r.log.deep_view() =~~= Seq::<Seq<Seq<char>>>::empty());
        }
        r
    }
}

impl Executor for ScriptedExecutor {
    open spec fn calls(&self) -> Seq<Seq<Seq<char>>> {
        self.log.deep_view()
    }

    open spec fn outcomes(&self) -> Seq<Result<CmdOutput, ExecutorError>> {
        self.history@
    }

    fn execute(&mut self, args: &Vec<String>) -> (r: Result<CmdOutput, ExecutorError>) {
        let ghost pre = self.log.deep_view();
        let received = clone_strings(args);
        proof {
            assert(received.deep_view() =~~= args.deep_view());
        }
        self.log.push(received);
        let step = if self.cursor < self.script.len() {
            let s = self.script[self.cursor];
            self.cursor = self.cursor + 1;
            s
        } else {
            ScriptStep::Succeed
        };
        let r = match step {
            ScriptStep::Succeed => Ok(
                CmdOutput { success: true, stdout: Vec::new(), stderr: Vec::new() },
            ),
            ScriptStep::FailExit => Err(
                ExecutorError::OutputError(CmdOutput { success: false, stdout: Vec::new(), stderr: Vec::new() }),
            ),
            ScriptStep::FailSpawn => Err(ExecutorError::SpawnError("scripted spawn failure".to_owned())),
        };
        self.history = Ghost(self.history@.push(r));
        proof {
            assert(self.log.deep_view() =~~= pre.push(args.deep_view()));
        }
        r
    }
}

} // verus!
