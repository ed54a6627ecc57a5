//! The git facade: one operation per git primitive, each built from a
//! fixed argument template plus caller-supplied values, all funneled
//! through the censoring wrapper.  Every contract pins down exactly which
//! argument lists reach the executor and how the returned error relates to
//! the command's outcome.

use vstd::prelude::*;
use crate::censor::{Censor, CensoringExecutor};
use crate::exec_cmd::{CmdOutput, ExecutorError, Executor};

verus! {

/// The name/email pair attributed to a commit's author field.
#[derive(Clone, Debug)]
pub struct GitUserInfo {
    pub name: String,
    pub email: String,
}

/// Resolves the committer identity on demand, each time a commit is made.
/// Absence is a recoverable "not found" condition, so the result is an
/// `Option`; nothing is promised about where the identity comes from.
pub trait GitUserGetter: Sized {
    fn get(&self) -> Option<GitUserInfo>;
}

/// An identity provider with a fixed answer.
pub struct StaticUserGetter {
    pub name: String,
    pub email: String,
}

impl GitUserGetter for StaticUserGetter {
    fn get(&self) -> (r: Option<GitUserInfo>)
        ensures
            r matches Some(info) && info.name == self.name && info.email == self.email,
    {
        Some(GitUserInfo { name: self.name.clone(), email: self.email.clone() })
    }
}

/// An identity provider that never finds an identity.
pub struct NoUserGetter;

impl GitUserGetter for NoUserGetter {
    fn get(&self) -> (r: Option<GitUserInfo>)
        ensures
            r is None,
    {
        None
    }
}

/// Which facade operation a failure belongs to: the operation-specific
/// context that wraps a low-level cause.
#[derive(Clone, Copy, Debug, PartialEq, Eq)]
pub enum GitOp {
    CloneRepo,
    Commit,
    Push,
    Am,
    Checkout,
    CheckoutNewBranch,
    BranchExists,
    Config,
}

/// A facade failure: a command failed under a named operation, or no
/// committer identity could be resolved at commit time.
#[derive(Clone, Debug, PartialEq, Eq)]
pub enum GitError {
    Command { op: GitOp, cause: ExecutorError },
    Identity,
}

// The argument templates, one per git primitive.  Values are passed as
// discrete tokens, never interpolated into a shell line.

pub open spec fn clone_cmd(from: Seq<char>, dir: Seq<char>) -> Seq<Seq<char>> {
    seq!["clone"@, from, dir]
}

pub open spec fn checkout_cmd(commitlike: Seq<char>) -> Seq<Seq<char>> {
    seq!["checkout"@, commitlike]
}

pub open spec fn new_branch_cmd(branch: Seq<char>) -> Seq<Seq<char>> {
    seq!["checkout"@, "-b"@, branch]
}

pub open spec fn add_all_cmd() -> Seq<Seq<char>> {
    seq!["add"@, "--all"@]
}

pub open spec fn commit_cmd(title: Seq<char>, body: Seq<char>, author: Seq<char>) -> Seq<
    Seq<char>,
> {
    seq!["commit"@, "--message"@, title, "--message"@, body, "--author"@, author]
}

pub open spec fn push_cmd(remote: Seq<char>, branch: Seq<char>, force: bool) -> Seq<Seq<char>> {
    if force {
        seq!["push"@, "--force"@, remote, branch]
    } else {
        seq!["push"@, remote, branch]
    }
}

pub open spec fn am_cmd(path: Seq<char>) -> Seq<Seq<char>> {
    seq!["am"@, "--3way"@, path]
}

pub open spec fn am_abort_cmd() -> Seq<Seq<char>> {
    seq!["am"@, "--abort"@]
}

pub open spec fn branch_exists_cmd(branch: Seq<char>) -> Seq<Seq<char>> {
    seq!["ls-remote"@, "--exit-code"@, "--heads"@, "origin"@, branch]
}

pub open spec fn config_cmd(rest: Seq<Seq<char>>) -> Seq<Seq<char>> {
    seq!["config"@].add(rest)
}

/// The author field as git receives it: `name <email>`.
pub open spec fn author_line(name: Seq<char>, email: Seq<char>) -> Seq<char> {
    name + " <"@ + email + ">"@
}

/// The force token stands immediately after the subcommand token exactly
/// when the force flag is set; without the flag the template holds no such
/// token (granted neither the remote nor the branch is itself that token).
pub proof fn lemma_push_force_token(remote: Seq<char>, branch: Seq<char>)
    ensures
        push_cmd(remote, branch, true) == seq!["push"@, "--force"@, remote, branch],
        push_cmd(remote, branch, true)[1] == "--force"@,
        push_cmd(remote, branch, false) == seq!["push"@, remote, branch],
        remote != "--force"@ && branch != "--force"@ ==> !push_cmd(
            remote,
            branch,
            false,
        ).contains("--force"@),
{
    reveal_strlit("push");
    reveal_strlit("--force");
    if remote != "--force"@ && branch != "--force"@ {
        let a = push_cmd(remote, branch, false);
        assert(a[0] != "--force"@) by {
            assert("push"@.len() != "--force"@.len());
        }
        assert(forall|i: int| 0 <= i < a.len() ==> a[i] != "--force"@);
    }
}

/// How a facade operation's result mirrors the underlying command's
/// outcome: success passes through, a failure is wrapped with the
/// operation as context, preserving the original cause.
pub open spec fn op_result(
    op: GitOp,
    outcome: Result<CmdOutput, ExecutorError>,
    r: Result<(), GitError>,
) -> bool {
    match outcome {
        Ok(_) => r is Ok,
        Err(e) => r == Err::<(), GitError>(GitError::Command { op, cause: e }),
    }
}

/// One working-directory clone: a filesystem path, a committer-identity
/// provider, and a censoring executor.  Every operation goes through
/// `CensoringExecutor::exec`, so there is no path on which an argument
/// reaches the executor uncensored.
pub struct Git<C: Censor, E: Executor, G: GitUserGetter> {
    dir: String,
    cexec: CensoringExecutor<C, E>,
    info: G,
}

impl<C: Censor, E: Executor, G: GitUserGetter> Git<C, E, G> {
    /// The working directory this handle owns.
    pub closed spec fn spec_dir(&self) -> Seq<char> {
        self.dir@
    }

    /// The configured censor.
    pub closed spec fn spec_censor(&self) -> C {
        self.cexec.censor
    }

    /// The inner executor, behind the censoring wrapper.
    pub closed spec fn spec_inner(&self) -> E {
        self.cexec.inner
    }

    /// The configured identity provider.
    pub closed spec fn spec_info(&self) -> G {
        self.info
    }

    /// The argument lists the inner executor has received, censored.
    pub open spec fn calls(&self) -> Seq<Seq<Seq<char>>> {
        self.spec_inner().calls()
    }

    /// The results the inner executor has handed back.
    pub open spec fn outcomes(&self) -> Seq<Result<CmdOutput, ExecutorError>> {
        self.spec_inner().outcomes()
    }

    /// An argument template as the inner executor receives it: every
    /// element mapped through the censor exactly once.
    pub open spec fn censored(&self, args: Seq<Seq<char>>) -> Seq<Seq<char>> {
        args.map_values(|a: Seq<char>| self.spec_censor().censor_spec(a))
    }

    /// An operation changes histories, never the handle's configuration.
    pub open spec fn same_config(pre: Self, post: Self) -> bool {
        &&& post.spec_dir() == pre.spec_dir()
        &&& post.spec_censor() == pre.spec_censor()
        &&& post.spec_info() == pre.spec_info()
    }

    /// Exactly one more command ran, with the given (uncensored) template.
    pub open spec fn ran_one(pre: Self, post: Self, raw: Seq<Seq<char>>) -> bool {
        &&& post.calls() == pre.calls().push(pre.censored(raw))
        &&& post.outcomes().len() == pre.outcomes().len() + 1
        &&& post.outcomes() == pre.outcomes().push(post.outcomes().last())
    }

    pub fn new(dir: String, censor: C, executor: E, info: G) -> (r: Self)
        ensures
            r.spec_dir() == dir@,
            r.spec_censor() == censor,
            r.spec_inner() == executor,
            r.spec_info() == info,
    {
        Git { dir, cexec: CensoringExecutor::new(censor, executor), info }
    }

    /// Exposes the directory in which the repository has been cloned.
    pub fn directory(&self) -> (r: &String)
        ensures
            r@ == self.spec_dir(),
    {
        &self.dir
    }

    /// Exposes the inner executor, so a substituted implementation can be
    /// inspected after a run.
    pub fn executor(&self) -> (r: &E)
        ensures
            *r == self.spec_inner(),
    {
        &self.cexec.inner
    }

    /// Bridges the handle-level and wrapper-level views of censoring.
    proof fn lemma_censored_is_censor_all(&self, raw: Seq<Seq<char>>)
        ensures
            self.censored(raw) == self.cexec.censor_all(raw),
    {
        assert(self.censored(raw) =~~= self.cexec.censor_all(raw));
    }

    /// Runs one command and wraps a failure with the given operation.
    fn run(&mut self, op: GitOp, args: &Vec<String>) -> (r: Result<(), GitError>)
        ensures
            Self::same_config(*old(self), *final(self)),
            Self::ran_one(*old(self), *final(self), args.deep_view()),
            op_result(op, final(self).outcomes().last(), r),
    {
        proof {
            old(self).lemma_censored_is_censor_all(args.deep_view());
        }
        let res = self.cexec.exec(args);
        match res {
            Ok(_) => Ok(()),
            Err(e) => Err(GitError::Command { op, cause: e }),
        }
    }

    /// Clones the repository from `from` into the handle's directory.
    pub fn clone(&mut self, from: &String) -> (r: Result<(), GitError>)
        ensures
            Self::same_config(*old(self), *final(self)),
            Self::ran_one(*old(self), *final(self), clone_cmd(from@, old(self).spec_dir())),
            op_result(GitOp::CloneRepo, final(self).outcomes().last(), r),
    {
        let mut args: Vec<String> = Vec::new();
        args.push("clone".to_owned());
        args.push(from.clone());
        args.push(self.dir.clone());
        proof {
            assert(args.deep_view() =~~= clone_cmd(from@, self.spec_dir()));
        }
        self.run(GitOp::CloneRepo, &args)
    }

    /// Switches to an existing ref.
    pub fn checkout(&mut self, commitlike: &String) -> (r: Result<(), GitError>)
        ensures
            Self::same_config(*old(self), *final(self)),
            Self::ran_one(*old(self), *final(self), checkout_cmd(commitlike@)),
            op_result(GitOp::Checkout, final(self).outcomes().last(), r),
    {
        let mut args: Vec<String> = Vec::new();
        args.push("checkout".to_owned());
        args.push(commitlike.clone());
        proof {
            assert(args.deep_view() =~~= checkout_cmd(commitlike@));
        }
        self.run(GitOp::Checkout, &args)
    }

    /// Creates a new branch and checks it out.
    pub fn checkout_new_branch(&mut self, branch: &String) -> (r: Result<(), GitError>)
        ensures
            Self::same_config(*old(self), *final(self)),
            Self::ran_one(*old(self), *final(self), new_branch_cmd(branch@)),
            op_result(GitOp::CheckoutNewBranch, final(self).outcomes().last(), r),
    {
        let mut args: Vec<String> = Vec::new();
        args.push("checkout".to_owned());
        args.push("-b".to_owned());
        args.push(branch.clone());
        proof {
            assert(args.deep_view() =~~= new_branch_cmd(branch@));
        }
        self.run(GitOp::CheckoutNewBranch, &args)
    }

    /// Pushes `branch` to `remote`; the force flag adds the force token
    /// immediately after the subcommand token.
    pub fn push(&mut self, remote: &String, branch: &String, force: bool) -> (r: Result<
        (),
        GitError,
    >)
        ensures
            Self::same_config(*old(self), *final(self)),
            Self::ran_one(*old(self), *final(self), push_cmd(remote@, branch@, force)),
            op_result(GitOp::Push, final(self).outcomes().last(), r),
    {
        let mut args: Vec<String> = Vec::new();
        args.push("push".to_owned());
        if force {
            args.push("--force".to_owned());
        }
        args.push(remote.clone());
        args.push(branch.clone());
        proof {
            assert(args.deep_view() =~~= push_cmd(remote@, branch@, force));
        }
        self.run(GitOp::Push, &args)
    }

    /// Stages all changes and commits them with the given, already
    /// resolved author.  The staging command runs first; only if it
    /// succeeds does the commit command run, carrying the title, the
    /// body and the author as discrete tokens.
    pub fn commit_as(&mut self, title: &String, body: &String, author: &String) -> (r: Result<
        (),
        GitError,
    >)
        ensures
            Self::same_config(*old(self), *final(self)),
            Self::commit_ran(*old(self), *final(self), title@, body@, author@, r),
    {
        let mut args1: Vec<String> = Vec::new();
        args1.push("add".to_owned());
        args1.push("--all".to_owned());
        proof {
            assert(args1.deep_view() =~~= add_all_cmd());
        }
        let r1 = self.run(GitOp::Commit, &args1);
        match r1 {
            Err(e) => Err(e),
            Ok(_) => {
                let mut args2: Vec<String> = Vec::new();
                args2.push("commit".to_owned());
                args2.push("--message".to_owned());
                args2.push(title.clone());
                args2.push("--message".to_owned());
                args2.push(body.clone());
                args2.push("--author".to_owned());
                args2.push(author.clone());
                proof {
                    assert(args2.deep_view() =~~= commit_cmd(title@, body@, author@));
                }
                self.run(GitOp::Commit, &args2)
            },
        }
    }

    /// Stages all changes, resolves the committer identity, and commits
    /// with the title, the body and the resolved author.  Fails with
    /// [`GitError::Identity`], running nothing, when no identity can be
    /// resolved; a failure of the staging command skips the commit command.
    pub fn commit(&mut self, title: &String, body: &String) -> (r: Result<(), GitError>)
        ensures
            Self::same_config(*old(self), *final(self)),
            Self::commit_outcome(*old(self), *final(self), title@, body@, r),
    {
        let user = self.info.get();
        let info = match user {
            None => {
                return Err(GitError::Identity);
            },
            Some(info) => info,
        };
        let mut author = info.name.clone();
        author.append(" <");
        author.append(info.email.as_str());
        author.append(">");
        let r = self.commit_as(title, body, &author);
        proof {
            assert(author@ == author_line(info.name@, info.email@));
            assert(Self::commit_ran(
                *old(self),
                *self,
                title@,
                body@,
                author_line(info.name@, info.email@),
                r,
            ));
        }
        r
    }

    /// What `commit` did when an identity was resolved: the staging
    /// command ran first; only if it succeeded did the commit command run,
    /// carrying the title, the body and the author line.
    pub open spec fn commit_ran(
        pre: Self,
        post: Self,
        title: Seq<char>,
        body: Seq<char>,
        author: Seq<char>,
        r: Result<(), GitError>,
    ) -> bool {
        let m = pre.outcomes().len() as int;
        &&& post.outcomes().len() > m
        &&& match post.outcomes()[m] {
            Err(e) => {
                &&& post.calls() == pre.calls().push(pre.censored(add_all_cmd()))
                &&& post.outcomes() == pre.outcomes().push(post.outcomes()[m])
                &&& r == Err::<(), GitError>(GitError::Command { op: GitOp::Commit, cause: e })
            },
            Ok(_) => {
                &&& post.calls() == pre.calls().push(pre.censored(add_all_cmd())).push(
                    pre.censored(commit_cmd(title, body, author)),
                )
                &&& post.outcomes() == pre.outcomes().push(post.outcomes()[m]).push(
                    post.outcomes()[m + 1],
                )
                &&& op_result(GitOp::Commit, post.outcomes()[m + 1], r)
            },
        }
    }

    /// What `commit` guarantees overall: either no identity was found and
    /// nothing ran, or the staging/commit pair ran for some resolved
    /// name/email pair.
    pub open spec fn commit_outcome(
        pre: Self,
        post: Self,
        title: Seq<char>,
        body: Seq<char>,
        r: Result<(), GitError>,
    ) -> bool {
        ||| {
            &&& r == Err::<(), GitError>(GitError::Identity)
            &&& post.calls() == pre.calls()
            &&& post.outcomes() == pre.outcomes()
        }
        ||| exists|name: Seq<char>, email: Seq<char>|
            Self::commit_ran(pre, post, title, body, author_line(name, email), r)
    }

    /// Applies the patch at `path` onto the current branch by a three-way
    /// merge.  On a command failure (the patch ran and could not be
    /// applied) exactly one abort attempt follows, and the propagated
    /// error still carries the original cause whatever the abort did.  On
    /// a spawn failure no abort is attempted.
    pub fn am(&mut self, path: &String) -> (r: Result<(), GitError>)
        ensures
            Self::same_config(*old(self), *final(self)),
            Self::am_outcome(*old(self), *final(self), path@, r),
    {
        let mut args: Vec<String> = Vec::new();
        args.push("am".to_owned());
        args.push("--3way".to_owned());
        args.push(path.clone());
        proof {
            assert(args.deep_view() =~~= am_cmd(path@));
            old(self).lemma_censored_is_censor_all(args.deep_view());
        }
        let res = self.cexec.exec(&args);
        match res {
            Ok(_) => Ok(()),
            Err(e) => {
                match &e {
                    ExecutorError::OutputError(_) => {
                        let mut abort_args: Vec<String> = Vec::new();
                        abort_args.push("am".to_owned());
                        abort_args.push("--abort".to_owned());
                        proof {
                            assert(abort_args.deep_view() =~~= am_abort_cmd());
                            self.lemma_censored_is_censor_all(abort_args.deep_view());
                            assert(old(self).censored(am_abort_cmd()) =~~= self.censored(
                                am_abort_cmd(),
                            ));
                        }
                        // best effort: the abort's own outcome is ignored
                        let _ = self.cexec.exec(&abort_args);
                    },
                    ExecutorError::SpawnError(_) => {
                    },
                }
                Err(GitError::Command { op: GitOp::Am, cause: e })
            },
        }
    }

    /// What `am` did, by the kind of the first outcome: success or spawn
    /// failure leave exactly one command in the history; a command failure
    /// leaves the apply and then exactly one abort attempt, and the
    /// returned error carries the apply's own cause.
    pub open spec fn am_outcome(
        pre: Self,
        post: Self,
        path: Seq<char>,
        r: Result<(), GitError>,
    ) -> bool {
        let m = pre.outcomes().len() as int;
        &&& post.outcomes().len() > m
        &&& match post.outcomes()[m] {
            Ok(_) => {
                &&& post.calls() == pre.calls().push(pre.censored(am_cmd(path)))
                &&& post.outcomes() == pre.outcomes().push(post.outcomes()[m])
                &&& r is Ok
            },
            Err(ExecutorError::SpawnError(msg)) => {
                &&& post.calls() == pre.calls().push(pre.censored(am_cmd(path)))
                &&& post.outcomes() == pre.outcomes().push(post.outcomes()[m])
                &&& r == Err::<(), GitError>(
                    GitError::Command { op: GitOp::Am, cause: ExecutorError::SpawnError(msg) },
                )
            },
            Err(ExecutorError::OutputError(o)) => {
                &&& post.calls() == pre.calls().push(pre.censored(am_cmd(path))).push(
                    pre.censored(am_abort_cmd()),
                )
                &&& post.outcomes() == pre.outcomes().push(post.outcomes()[m]).push(
                    post.outcomes()[m + 1],
                )
                &&& r == Err::<(), GitError>(
                    GitError::Command { op: GitOp::Am, cause: ExecutorError::OutputError(o) },
                )
            },
        }
    }

    /// Probes the remote heads list for `branch`; any failure counts as
    /// "does not exist" and is not propagated.
    pub fn branch_exists(&mut self, branch: &String) -> (r: bool)
        ensures
            Self::same_config(*old(self), *final(self)),
            Self::ran_one(*old(self), *final(self), branch_exists_cmd(branch@)),
            r == (final(self).outcomes().last() matches Ok(_)),
    {
        let mut args: Vec<String> = Vec::new();
        args.push("ls-remote".to_owned());
        args.push("--exit-code".to_owned());
        args.push("--heads".to_owned());
        args.push("origin".to_owned());
        args.push(branch.clone());
        proof {
            assert(args.deep_view() =~~= branch_exists_cmd(branch@));
            old(self).lemma_censored_is_censor_all(args.deep_view());
        }
        let res = self.cexec.exec(&args);
        res.is_ok()
    }

    /// Runs git-config with the given sub-arguments.
    pub fn config(&mut self, conf: &Vec<String>) -> (r: Result<(), GitError>)
        ensures
            Self::same_config(*old(self), *final(self)),
            Self::ran_one(*old(self), *final(self), config_cmd(conf.deep_view())),
            op_result(GitOp::Config, final(self).outcomes().last(), r),
    {
        let mut args: Vec<String> = Vec::new();
        args.push("config".to_owned());
        let mut i: usize = 0;
        while i < conf.len()
            invariant
                i <= conf.len(),
                args@.len() == i + 1,
                args@[0]@ == "config"@,
                forall|k: int| 0 <= k < i ==> args@[k + 1]@ == conf@[k]@,
            decreases conf.len() - i,
        {
            args.push(conf[i].clone());
            i += 1;
        }
        proof {
            assert forall|k: int| 0 <= k < args@.len() implies #[trigger] args.deep_view()[k]
                == config_cmd(conf.deep_view())[k] by {
                assert(args.deep_view()[k] == args@[k].deep_view());
                if k > 0 {
                    assert(conf.deep_view()[k - 1] == conf@[k - 1].deep_view());
                }
            }
            assert(args.deep_view() =~= config_cmd(conf.deep_view()));
        }
        self.run(GitOp::Config, &args)
    }
}

} // verus!
