//! Credential censoring: every argument is mapped through a censor before
//! it reaches the executor, so no secret can leak into a spawned command
//! line, a log, or an error payload.

use vstd::prelude::*;
use crate::exec_cmd::{CmdOutput, ExecutorError, Executor};

verus! {

/// A pure redaction rule on one argument.  `censor_spec` is the rule
/// itself; `censor` computes it.
pub trait Censor: Sized {
    spec fn censor_spec(&self, s: Seq<char>) -> Seq<char>;

    fn censor(&self, arg: &String) -> (r: String)
        ensures
            r@ == self.censor_spec(arg@),
    ;
}

/// The default rule when nothing needs redaction: every argument passes
/// through unchanged.
pub struct IdentityCensor;

impl Censor for IdentityCensor {
    open spec fn censor_spec(&self, s: Seq<char>) -> Seq<char> {
        s
    }

    fn censor(&self, arg: &String) -> (r: String) {
        arg.clone()
    }
}

/// Replaces any argument equal to a configured secret with a mask.
pub struct SecretCensor {
    pub secret: String,
    pub mask: String,
}

impl SecretCensor {
    pub fn new(secret: String, mask: String) -> (r: Self)
        ensures
            r.secret@ == secret@,
            r.mask@ == mask@,
    {
        SecretCensor { secret, mask }
    }
}

impl Censor for SecretCensor {
    open spec fn censor_spec(&self, s: Seq<char>) -> Seq<char> {
        if s == self.secret@ {
            self.mask@
        } else {
            s
        }
    }

    fn censor(&self, arg: &String) -> (r: String) {
        if crate::text::str_eq(arg.as_str(), self.secret.as_str()) {
            self.mask.clone()
        } else {
            arg.clone()
        }
    }
}

/// Wraps an inner executor so that each element of every argument list is
/// transformed by the censor exactly once before delegation.  There is no
/// other path from the facade to the executor.
pub struct CensoringExecutor<C: Censor, E: Executor> {
    pub censor: C,
    pub inner: E,
}

impl<C: Censor, E: Executor> CensoringExecutor<C, E> {
    /// An argument list as the inner executor will receive it.
    pub open spec fn censor_all(&self, args: Seq<Seq<char>>) -> Seq<Seq<char>> {
        args.map_values(|a: Seq<char>| self.censor.censor_spec(a))
    }

    pub fn new(censor: C, inner: E) -> (r: Self)
        ensures
            r.censor == censor,
            r.inner == inner,
    {
        CensoringExecutor { censor, inner }
    }

    /// Censors each argument once, then delegates: the inner executor
    /// receives exactly the censored list, never the raw one.
    pub fn exec(&mut self, args: &Vec<String>) -> (r: Result<CmdOutput, ExecutorError>)
        ensures
            final(self).censor == old(self).censor,
            final(self).inner.calls() == old(self).inner.calls().push(
                old(self).censor_all(args.deep_view()),
            ),
            final(self).inner.outcomes() == old(self).inner.outcomes().push(r),
            r matches Ok(o) ==> o.success,
            r matches Err(ExecutorError::OutputError(o)) ==> !o.success,
    {
        let mut censored: Vec<String> = Vec::new();
        let mut i: usize = 0;
        while i < args.len()
            invariant
                i <= args.len(),
                self.censor == old(self).censor,
                self.inner == old(self).inner,
                censored@.len() == i,
                forall|k: int| 0 <= k < i ==> censored@[k]@ == old(self).censor.censor_spec(
                    args@[k]@,
                ),
            decreases args.len() - i,
        {
            let c = self.censor.censor(&args[i]);
            censored.push(c);
            i += 1;
        }
        proof {
            let f = |a: Seq<char>| old(self).censor.censor_spec(a);
            let target = old(self).censor_all(args.deep_view());
            assert(target == args.deep_view().map_values(f));
            assert forall|k: int| 0 <= k < args@.len() implies #[trigger] censored.deep_view()[k]
                == target[k] by {
                assert(censored.deep_view()[k] == censored@[k].deep_view());
                assert(args.deep_view()[k] == args@[k].deep_view());
                assert(target[k] == f(args.deep_view()[k]));
            }
            assert(censored.deep_view() =~= target);
        }
        self.inner.execute(&censored)
    }
}

} // verus!
