//! The derived names the workflow uses: qualified repository names,
//! normalized branch names, patch filenames, local branch names and
//! titles for the cherry-picked change.

use vstd::prelude::*;
use crate::text::{dec_str, u64_to_string};

verus! {

/// A repository's qualified name: `owner/repo`.
pub open spec fn qualified(owner: Seq<char>, repo: Seq<char>) -> Seq<char> {
    owner + "/"@ + repo
}

pub fn qualify(owner: &str, repo: &str) -> (r: String)
    ensures
        r@ == qualified(owner@, repo@),
{
    let mut r = owner.to_owned();
    r.append("/");
    r.append(repo);
    r
}

/// `s` with every path separator replaced by a dash, so the result can
/// stand in a filename.
pub open spec fn normalized(s: Seq<char>) -> Seq<char> {
    s.map_values(|c: char| if c == '/' { '-' } else { c })
}

pub fn normalize(input: &str) -> (r: String)
    ensures
        r@ == normalized(input@),
{
    let n = input.unicode_len();
    let mut out = String::new();
    let mut i: usize = 0;
    proof {
        assert(out@ =~= normalized(input@.subrange(0, 0)));
    }
    while i < n
        invariant
            n == input@.len(),
            i <= n,
            out@ == normalized(input@.subrange(0, i as int)),
        decreases n - i,
    {
        let c = input.get_char(i);
        if c == '/' {
            out.append("-");
            proof {
                reveal_strlit("-");
            }
        } else {
            let piece = input.substring_char(i, i + 1);
            out.append(piece);
        }
        i += 1;
        proof {
            assert(out@ =~= normalized(input@.subrange(0, i as int)));
        }
    }
    proof {
        assert(input@.subrange(0, n as int) =~= input@);
    }
    out
}

/// The filename under which a downloaded patch is stored:
/// `owner-repo-number-branch`, with the branch normalized.
pub open spec fn patch_filename_spec(
    owner: Seq<char>,
    repo: Seq<char>,
    pull_number: int,
    target_branch: Seq<char>,
) -> Seq<char> {
    owner + "-"@ + repo + "-"@ + dec_str(pull_number) + "-"@ + normalized(target_branch)
}

pub fn patch_filename(owner: &str, repo: &str, pull_number: u64, target_branch: &str) -> (r:
    String)
    ensures
        r@ == patch_filename_spec(owner@, repo@, pull_number as int, target_branch@),
{
    let mut r = owner.to_owned();
    r.append("-");
    r.append(repo);
    r.append("-");
    let num = u64_to_string(pull_number);
    r.append(num.as_str());
    r.append("-");
    let branch = normalize(target_branch);
    r.append(branch.as_str());
    r
}

/// The name of the local branch a pick is prepared on:
/// `cherry-pick-<number>-to-<target>`.
pub open spec fn local_branch_spec(pull_number: int, target_branch: Seq<char>) -> Seq<char> {
    "cherry-pick-"@ + dec_str(pull_number) + "-to-"@ + target_branch
}

pub fn local_branch_name(pull_number: u64, target_branch: &str) -> (r: String)
    ensures
        r@ == local_branch_spec(pull_number as int, target_branch@),
{
    let mut r = "cherry-pick-".to_owned();
    let num = u64_to_string(pull_number);
    r.append(num.as_str());
    r.append("-to-");
    r.append(target_branch);
    r
}

/// The title of the change a pick produces: `cherry-pick #<number> to
/// <target>`.
pub open spec fn pick_title_spec(pull_number: int, target_branch: Seq<char>) -> Seq<char> {
    "cherry-pick #"@ + dec_str(pull_number) + " to "@ + target_branch
}

pub fn pick_title(pull_number: u64, target_branch: &str) -> (r: String)
    ensures
        r@ == pick_title_spec(pull_number as int, target_branch@),
{
    let mut r = "cherry-pick #".to_owned();
    let num = u64_to_string(pull_number);
    r.append(num.as_str());
    r.append(" to ");
    r.append(target_branch);
    r
}

} // verus!
