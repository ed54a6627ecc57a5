//! A verified core for a repository-automation bot that cherry-picks merged
//! pull requests onto other branches.
//!
//! The library covers the pieces whose behaviour is worth pinning down
//! exactly: the command-invocation layer with its credential censoring, the
//! git facade that builds every argument list, the paginated listing
//! protocol, the fork-synchronization state machine, and the small parsers
//! for bot commands and action inputs.  Process spawning, network calls and
//! environment access live outside this crate; they reach the verified code
//! only as plain values.

pub mod api;
pub mod censor;
pub mod exec_cmd;
pub mod fork;
pub mod git;
pub mod inputs;
pub mod logit;
pub mod naming;
pub mod page;
pub mod text;
pub mod util;
