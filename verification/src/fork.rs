//! The fork-synchronization protocol: deciding whether an account already
//! holds a fork of a source repository, and the bounded polling that waits
//! for a freshly requested fork to appear on the remote side.
//!
//! Remote calls themselves happen outside this crate; every decision here
//! is a function of the plain values those calls produced.

use vstd::prelude::*;
use crate::page::{ListError, Page, Pageable};
use crate::text::str_eq;

verus! {

/// What the fork check reads of one listed repository: its short name,
/// its qualified name, and whether the remote flags it as a fork.
#[derive(Debug)]
pub struct RepoInfo {
    pub name: String,
    pub full_name: Option<String>,
    pub fork: Option<bool>,
}

impl RepoInfo {
    /// A field-for-field copy.
    pub fn duplicate(&self) -> (r: Self)
        ensures
            r == *self,
    {
        let full_name = match &self.full_name {
            Some(s) => Some(s.clone()),
            None => None,
        };
        RepoInfo { name: self.name.clone(), full_name, fork: self.fork }
    }
}

/// A listed repository counts as the fork candidate when its fork flag is
/// set and its qualified name is exactly `fork_full`.
pub open spec fn fork_entry_matches(entry: RepoInfo, fork_full: Seq<char>) -> bool {
    &&& entry.fork == Some(true)
    &&& (entry.full_name matches Some(n) && n@ == fork_full)
}

/// The first listed repository that is the fork candidate, if any.
pub fn find_fork(repos: &Vec<RepoInfo>, fork_full_name: &String) -> (r: Option<usize>)
    ensures
        r matches Some(i) ==> i < repos@.len() && fork_entry_matches(
            repos@[i as int],
            fork_full_name@,
        ) && forall|j: int|
            0 <= j < i ==> !fork_entry_matches(repos@[j], fork_full_name@),
        r is None ==> forall|j: int|
            0 <= j < repos@.len() ==> !fork_entry_matches(repos@[j], fork_full_name@),
{
    let mut i: usize = 0;
    while i < repos.len()
        invariant
            i <= repos@.len(),
            forall|j: int| 0 <= j < i ==> !fork_entry_matches(repos@[j], fork_full_name@),
        decreases repos@.len() - i,
    {
        let entry = &repos[i];
        let fork_set = match entry.fork {
            Some(true) => true,
            _ => false,
        };
        if fork_set {
            let name_match = match &entry.full_name {
                Some(n) => str_eq(n.as_str(), fork_full_name.as_str()),
                None => false,
            };
            if name_match {
                return Some(i);
            }
        }
        i += 1;
    }
    None
}

/// The fork-existence fact: true exactly when the listing holds a fork
/// candidate and the candidate's recorded parent is the source's
/// qualified name.
pub open spec fn fork_decision(
    repos: Seq<RepoInfo>,
    fork_full: Seq<char>,
    parent_full: Option<Seq<char>>,
    source_full: Seq<char>,
) -> bool {
    &&& exists|i: int| 0 <= i < repos.len() && fork_entry_matches(repos[i], fork_full)
    &&& parent_full == Some(source_full)
}

/// The parent's qualified name, as the remote reported it for the found
/// candidate.
pub open spec fn parent_view(parent_full_name: Option<String>) -> Option<Seq<char>> {
    match parent_full_name {
        Some(s) => Some(s@),
        None => None,
    }
}

/// Combines the two halves of the existence check: a candidate was found
/// in the listing, and its recorded parent matches the source.
pub fn is_forked_decision(
    repos: &Vec<RepoInfo>,
    fork_full_name: &String,
    parent_full_name: &Option<String>,
    source_full_name: &String,
) -> (r: bool)
    ensures
        r == fork_decision(
            repos@,
            fork_full_name@,
            parent_view(*parent_full_name),
            source_full_name@,
        ),
{
    let found = find_fork(repos, fork_full_name);
    match found {
        None => false,
        Some(i) => {
            proof {
                assert(fork_entry_matches(repos@[i as int], fork_full_name@));
            }
            match parent_full_name {
                Some(parent) => str_eq(parent.as_str(), source_full_name.as_str()),
                None => false,
            }
        },
    }
}

/// The existence check answers true only when both the name match and the
/// parent match hold; it answers false when either is absent, including
/// when zero repositories were listed at all.
pub proof fn lemma_fork_check_requires_both(
    repos: Seq<RepoInfo>,
    fork_full: Seq<char>,
    parent_full: Option<Seq<char>>,
    source_full: Seq<char>,
)
    ensures
        fork_decision(repos, fork_full, parent_full, source_full) ==> exists|i: int|
            0 <= i < repos.len() && fork_entry_matches(repos[i], fork_full),
        fork_decision(repos, fork_full, parent_full, source_full) ==> parent_full == Some(
            source_full,
        ),
        repos.len() == 0 ==> !fork_decision(repos, fork_full, parent_full, source_full),
        parent_full is None ==> !fork_decision(repos, fork_full, parent_full, source_full),
{
}

/// A scripted paged listing of repositories, for simulations: page `n`
/// holds `pages[n]` (an empty final page past the end), and the fetch of
/// page `fail_at`, if set, fails.
pub struct ScriptedPages {
    pub pages: Vec<Page<RepoInfo>>,
    pub fail_at: Option<usize>,
}

impl Pageable for ScriptedPages {
    type Item = RepoInfo;

    type Error = ListError;

    open spec fn page_fails(&self, n: int) -> bool {
        self.fail_at matches Some(k) && n == k as int
    }

    open spec fn page_error(&self, n: int) -> ListError {
        ListError
    }

    open spec fn page_items(&self, n: int) -> Seq<RepoInfo> {
        if 0 <= n < self.pages@.len() {
            self.pages@[n].items@
        } else {
            Seq::empty()
        }
    }

    open spec fn page_has_next(&self, n: int) -> bool {
        if 0 <= n < self.pages@.len() {
            self.pages@[n].has_next
        } else {
            false
        }
    }

    fn list_by_page(&self, page: u32) -> (r: Result<Page<RepoInfo>, ListError>) {
        let fails = match self.fail_at {
            Some(k) => k == page as usize,
            None => false,
        };
        if fails {
            return Err(ListError);
        }
        if (page as usize) < self.pages.len() {
            let pg = &self.pages[page as usize];
            let mut items: Vec<RepoInfo> = Vec::new();
            let mut i: usize = 0;
            while i < pg.items.len()
                invariant
                    i <= pg.items@.len(),
                    items@ == pg.items@.subrange(0, i as int),
                decreases pg.items@.len() - i,
            {
                items.push(pg.items[i].duplicate());
                i += 1;
                proof {
                    assert(items@ =~= pg.items@.subrange(0, i as int));
                }
            }
            proof {
                assert(items@ =~= pg.items@);
            }
            Ok(Page { items, has_next: pg.has_next })
        } else {
            Ok(Page { items: Vec::new(), has_next: false })
        }
    }
}

/// Seconds between two polls of the remote while waiting for a fork.
pub const POLL_INTERVAL_SECS: u64 = 15;

/// The ceiling on the whole wait, in seconds.
pub const WAIT_CEILING_SECS: u64 = 360;

/// How many polls fit before the wait times out: one at each interval
/// boundary from the start of the wait up to and including the ceiling.
pub const MAX_POLLS: u64 = WAIT_CEILING_SECS / POLL_INTERVAL_SECS + 1;

/// What one poll tick decides.
#[derive(Clone, Copy, Debug, PartialEq, Eq)]
pub enum WaitStep {
    /// The repository reports fork status true: the wait is over.
    Ready,
    /// Not ready yet; poll again after the interval.
    Continue,
    /// The budget is exhausted: the wait failed.
    TimedOut,
}

/// The bounded wait for a requested fork to appear: polls at a fixed
/// interval, for at most [`MAX_POLLS`] polls.
pub struct ForkWaiter {
    pub polls: u64,
}

impl ForkWaiter {
    pub fn new() -> (r: Self)
        ensures
            r.polls == 0,
    {
        ForkWaiter { polls: 0 }
    }

    /// One tick: ready the first time the repository reports fork status
    /// true; a poll failure counts as "not yet ready", never as a hard
    /// error; past the budget the wait times out.
    pub fn poll(&mut self, fork_confirmed: bool) -> (r: WaitStep)
        requires
            old(self).polls < MAX_POLLS,
        ensures
            final(self).polls == old(self).polls + 1,
            fork_confirmed ==> r == WaitStep::Ready,
            !fork_confirmed && old(self).polls + 1 < MAX_POLLS ==> r == WaitStep::Continue,
            !fork_confirmed && old(self).polls + 1 == MAX_POLLS ==> r == WaitStep::TimedOut,
    {
        self.polls = self.polls + 1;
        if fork_confirmed {
            WaitStep::Ready
        } else if self.polls < MAX_POLLS {
            WaitStep::Continue
        } else {
            WaitStep::TimedOut
        }
    }
}

/// Runs a whole waiting phase against a simulated clock: `reports[t]`
/// says whether the repository reported fork status true at tick `t`.
/// The wait stops successfully at the first tick whose report is true,
/// having made exactly that many polls; with no true report it times out
/// after exactly [`MAX_POLLS`] polls — no later than the ceiling plus one
/// interval.
pub fn run_wait(reports: &Vec<bool>) -> (r: (WaitStep, usize))
    requires
        reports@.len() >= MAX_POLLS,
    ensures
        r.0 == WaitStep::Ready || r.0 == WaitStep::TimedOut,
        r.0 == WaitStep::Ready ==> 1 <= r.1 <= MAX_POLLS && reports@[r.1 - 1] && forall|t: int|
            0 <= t < r.1 - 1 ==> !reports@[t],
        r.0 == WaitStep::TimedOut ==> r.1 == MAX_POLLS && forall|t: int|
            0 <= t < MAX_POLLS ==> !reports@[t],
{
    let mut w = ForkWaiter::new();
    let mut i: usize = 0;
    loop
        invariant
            reports@.len() >= MAX_POLLS,
            w.polls == i,
            i < MAX_POLLS,
            forall|t: int| 0 <= t < i ==> !reports@[t],
        decreases MAX_POLLS - i,
    {
        let step = w.poll(reports[i]);
        i += 1;
        match step {
            WaitStep::Continue => {
            },
            WaitStep::Ready => {
                return (step, i);
            },
            WaitStep::TimedOut => {
                return (step, i);
            },
        }
    }
}

/// The states of the fork synchronizer.
#[derive(Clone, Copy, Debug, PartialEq, Eq)]
pub enum ForkSyncState {
    Unchecked,
    Checking,
    Creating,
    Waiting,
    Exists,
    TimedOut,
}

/// What the caller must do next after feeding the synchronizer an event.
#[derive(Clone, Copy, Debug, PartialEq, Eq)]
pub enum ForkSyncAction {
    /// Run the existence check (listing plus parent lookup).
    CheckExistence,
    /// Issue a fork-creation request against the remote.
    CreateFork,
    /// Poll the remote once, after the poll interval.
    Poll,
    /// The fork exists; proceed.
    Done,
    /// The wait timed out; surface a timeout error.
    Fail,
}

/// The fork synchronizer: an idempotent existence check before any
/// creation request, then a bounded wait for the fork to appear.  The
/// caller performs each returned action and feeds the outcome back.
pub struct ForkSync {
    pub state: ForkSyncState,
    pub waiter: ForkWaiter,
}

impl ForkSync {
    pub fn new() -> (r: Self)
        ensures
            r.state == ForkSyncState::Unchecked,
            r.waiter.polls == 0,
    {
        ForkSync { state: ForkSyncState::Unchecked, waiter: ForkWaiter::new() }
    }

    /// Starts the protocol: the first step is always the existence check,
    /// never a creation request.
    pub fn begin(&mut self) -> (a: ForkSyncAction)
        requires
            old(self).state == ForkSyncState::Unchecked,
        ensures
            final(self).state == ForkSyncState::Checking,
            final(self).waiter == old(self).waiter,
            a == ForkSyncAction::CheckExistence,
    {
        self.state = ForkSyncState::Checking;
        ForkSyncAction::CheckExistence
    }

    /// Feeds back the existence check: a fork that already exists ends
    /// the protocol without any creation request (idempotence); otherwise
    /// a creation request is issued.
    pub fn on_existence(&mut self, found: bool) -> (a: ForkSyncAction)
        requires
            old(self).state == ForkSyncState::Checking,
        ensures
            found ==> final(self).state == ForkSyncState::Exists && a == ForkSyncAction::Done,
            !found ==> final(self).state == ForkSyncState::Creating && a
                == ForkSyncAction::CreateFork,
            final(self).waiter == old(self).waiter,
    {
        if found {
            self.state = ForkSyncState::Exists;
            ForkSyncAction::Done
        } else {
            self.state = ForkSyncState::Creating;
            ForkSyncAction::CreateFork
        }
    }

    /// Feeds back a successful creation request: the wait begins with a
    /// fresh poll budget.
    pub fn on_created(&mut self) -> (a: ForkSyncAction)
        requires
            old(self).state == ForkSyncState::Creating,
        ensures
            final(self).state == ForkSyncState::Waiting,
            final(self).waiter.polls == 0,
            a == ForkSyncAction::Poll,
    {
        self.state = ForkSyncState::Waiting;
        self.waiter = ForkWaiter::new();
        ForkSyncAction::Poll
    }

    /// Feeds back one poll: the wait ends the first time the repository
    /// reports fork status true, times out once the budget is exhausted,
    /// and otherwise continues.  A failed poll is fed back as `false`.
    pub fn on_poll(&mut self, fork_confirmed: bool) -> (a: ForkSyncAction)
        requires
            old(self).state == ForkSyncState::Waiting,
            old(self).waiter.polls < MAX_POLLS,
        ensures
            final(self).waiter.polls == old(self).waiter.polls + 1,
            fork_confirmed ==> final(self).state == ForkSyncState::Exists && a
                == ForkSyncAction::Done,
            !fork_confirmed && old(self).waiter.polls + 1 < MAX_POLLS ==> final(self).state
                == ForkSyncState::Waiting && a == ForkSyncAction::Poll,
            !fork_confirmed && old(self).waiter.polls + 1 == MAX_POLLS ==> final(self).state
                == ForkSyncState::TimedOut && a == ForkSyncAction::Fail,
    {
        let step = self.waiter.poll(fork_confirmed);
        match step {
            WaitStep::Ready => {
                self.state = ForkSyncState::Exists;
                ForkSyncAction::Done
            },
            WaitStep::Continue => {
                ForkSyncAction::Poll
            },
            WaitStep::TimedOut => {
                self.state = ForkSyncState::TimedOut;
                ForkSyncAction::Fail
            },
        }
    }
}

} // verus!
