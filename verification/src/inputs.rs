//! Action inputs and the bot's configuration: the values the hosting
//! workflow hands in as plain strings, parsed into a typed configuration.
//! Reading the environment happens outside this crate; these functions
//! take the raw values and pin down exactly what each one becomes.

use vstd::prelude::*;
use crate::text::{split_lines, split_nl, str_eq};

verus! {

/// A required input was not supplied; carries the message shown to the
/// user.
#[derive(Debug)]
pub struct StringError(pub String);

impl StringError {
    /// The message this error carries.
    pub fn message(&self) -> (r: &String)
        ensures
            r == self.0,
    {
        &self.0
    }
}

/// Accepts the raw value of the input `name`, or fails with the message
/// naming the missing input.
pub fn get_input_required(name: &str, value: Option<String>) -> (r: Result<String, StringError>)
    ensures
        value matches Some(v) ==> (r matches Ok(o) && o == v),
        value is None ==> (r matches Err(e) && e.0@ == "Input required and not supplied: "@
            + name@),
{
    match value {
        Some(v) => Ok(v),
        None => {
            let mut msg = "Input required and not supplied: ".to_owned();
            msg.append(name);
            Err(StringError(msg))
        },
    }
}

/// `l` without one trailing carriage return, if it has one.
pub open spec fn strip_cr(l: Seq<char>) -> Seq<char> {
    if l.len() > 0 && l[l.len() - 1] == '\r' {
        l.subrange(0, l.len() - 1)
    } else {
        l
    }
}

/// A multiline input value as its list of lines: split at newlines, with
/// a carriage return removed only where it stood directly before a
/// newline, and no trailing empty line for a value that ends in a
/// newline (or is empty).  A final segment that no newline terminated
/// keeps its characters as they are, so a lone trailing carriage return
/// survives.
pub open spec fn lines_of(s: Seq<char>) -> Seq<Seq<char>> {
    let raw = split_nl(s);
    if raw.len() > 0 && raw.last().len() == 0 {
        raw.subrange(0, raw.len() - 1).map_values(|l: Seq<char>| strip_cr(l))
    } else if raw.len() > 0 {
        raw.subrange(0, raw.len() - 1).map_values(|l: Seq<char>| strip_cr(l)).push(raw.last())
    } else {
        raw
    }
}

fn strip_cr_str(l: &String) -> (r: String)
    ensures
        r@ == strip_cr(l@),
{
    let n = l.as_str().unicode_len();
    if n > 0 && l.as_str().get_char(n - 1) == '\r' {
        l.as_str().substring_char(0, n - 1).to_owned()
    } else {
        l.clone()
    }
}

/// The lines of a multiline input's raw value; an absent input has no
/// lines.
pub fn get_multiline_input(value: Option<&str>) -> (r: Vec<String>)
    ensures
        value matches Some(s) ==> r.deep_view() == lines_of(s@),
        value is None ==> r@.len() == 0,
{
    let s = match value {
        None => {
            return Vec::new();
        },
        Some(s) => s,
    };
    let mut lines = split_lines(s);
    let ghost raw = split_nl(s@);
    proof {
        assert(raw.len() >= 1);
    }
    let last = lines.len() - 1;
    let ends_terminated = lines[last].as_str().is_empty();
    proof {
        assert(lines@[last as int]@ == raw.last());
        assert(ends_terminated == (raw.last().len() == 0));
    }
    if ends_terminated {
        let ghost pre = lines.deep_view();
        let _ = lines.pop();
        proof {
            assert(lines.deep_view() =~~= pre.subrange(0, pre.len() - 1));
        }
    }
    let ghost cut = lines.deep_view();
    let mut out: Vec<String> = Vec::new();
    let mut i: usize = 0;
    while i < lines.len()
        invariant
            i <= lines@.len(),
            cut == lines.deep_view(),
            out@.len() == i,
            forall|k: int|
                0 <= k < i ==> out@[k]@ == (if !ends_terminated && k == cut.len() - 1 {
                    cut[k]
                } else {
                    strip_cr(cut[k])
                }),
        decreases lines@.len() - i,
    {
        let keep_whole = !ends_terminated && i == lines.len() - 1;
        let item = if keep_whole {
            lines[i].clone()
        } else {
            strip_cr_str(&lines[i])
        };
        proof {
            assert(lines@[i as int]@ == cut[i as int]);
        }
        out.push(item);
        i += 1;
    }
    proof {
        let target = lines_of(s@);
        let front = raw.subrange(0, raw.len() - 1).map_values(|l: Seq<char>| strip_cr(l));
        if ends_terminated {
            assert(cut =~~= raw.subrange(0, raw.len() - 1));
            assert(target == front);
        } else {
            assert(cut =~~= raw);
            assert(target == front.push(raw.last()));
        }
        assert(out.deep_view().len() == target.len());
        assert forall|k: int| 0 <= k < out@.len() implies #[trigger] out.deep_view()[k]
            == target[k] by {
            assert(out.deep_view()[k] == out@[k]@);
            if ends_terminated {
                assert(target[k] == strip_cr(raw.subrange(0, raw.len() - 1)[k]));
                assert(raw.subrange(0, raw.len() - 1)[k] == cut[k]);
            } else {
                if k < cut.len() - 1 {
                    assert(target[k] == front[k]);
                    assert(front[k] == strip_cr(raw.subrange(0, raw.len() - 1)[k]));
                    assert(raw.subrange(0, raw.len() - 1)[k] == cut[k]);
                } else {
                    assert(target[k] == raw.last());
                    assert(cut[k] == raw.last());
                }
            }
        }
        assert(out.deep_view() =~= target);
    }
    out
}

/// How a boolean input's raw value parses: exactly the two canonical
/// words, anything else being no value at all.
pub fn parse_bool(s: &str) -> (r: Option<bool>)
    ensures
        s@ == "true"@ ==> r == Some(true),
        s@ == "false"@ ==> r == Some(false),
        s@ != "true"@ && s@ != "false"@ ==> r is None,
{
    proof {
        reveal_strlit("true");
        reveal_strlit("false");
        assert("true"@.len() == 4);
        assert("false"@.len() == 5);
        assert("true"@ != "false"@);
    }
    if str_eq(s, "true") {
        Some(true)
    } else if str_eq(s, "false") {
        Some(false)
    } else {
        None
    }
}

/// A boolean input is set exactly when its raw value is the word `true`;
/// a missing or unparsable value falls back to `false`.
pub open spec fn flag_set(v: Option<String>) -> bool {
    v matches Some(s) && s@ == "true"@
}

/// The raw values of the action's named inputs, as the workflow supplied
/// them (`None` where an input was not set).
#[derive(Debug)]
pub struct ActionInputs {
    pub allow_all: Option<String>,
    pub create_issue_on_conflict: Option<String>,
    pub label_prefix: Option<String>,
    pub picked_label_prefix: Option<String>,
    pub exclude_labels: Option<String>,
    pub copy_issue_numbers_from_squashed_commit: Option<String>,
}

/// The bot's configuration, built once at process start and passed to
/// every component that needs it.
#[derive(Debug)]
pub struct Config {
    /// Whether everyone is allowed to cherry-pick.
    pub allow_all: bool,
    /// Whether to create an issue when a pick conflicts.
    pub create_issue_on_conflict: bool,
    /// The label prefix that requests a pick.
    pub label_prefix: String,
    /// The label prefix recorded once a pick happened.
    pub picked_label_prefix: String,
    /// Labels never copied from the original change.
    pub exclude_labels: Vec<String>,
    /// Whether to copy issue numbers from the squashed commit message.
    pub copy_issue_numbers_from_squashed_commit: bool,
}

fn bool_input(value: &Option<String>) -> (r: bool)
    ensures
        r == flag_set(*value),
{
    match value {
        Some(s) => {
            match parse_bool(s.as_str()) {
                Some(b) => b,
                None => false,
            }
        },
        None => false,
    }
}

impl Config {
    /// Builds the configuration from the raw inputs: booleans are set
    /// only by the word `true`, the two label prefixes fall back to
    /// their defaults, and the exclusion list is the lines of its input.
    pub fn from_actions(inputs: ActionInputs) -> (r: Config)
        ensures
            r.allow_all == flag_set(inputs.allow_all),
            r.create_issue_on_conflict == flag_set(inputs.create_issue_on_conflict),
            inputs.label_prefix matches Some(s) ==> r.label_prefix == s,
            inputs.label_prefix is None ==> r.label_prefix@ == "needs-cherry-pick/"@,
            inputs.picked_label_prefix matches Some(s) ==> r.picked_label_prefix == s,
            inputs.picked_label_prefix is None ==> r.picked_label_prefix@ == "cherry-picked/"@,
            inputs.exclude_labels matches Some(s) ==> r.exclude_labels.deep_view() == lines_of(
                s@,
            ),
            inputs.exclude_labels is None ==> r.exclude_labels@.len() == 0,
            r.copy_issue_numbers_from_squashed_commit == flag_set(
                inputs.copy_issue_numbers_from_squashed_commit,
            ),
    {
        let allow_all = bool_input(&inputs.allow_all);
        let create_issue_on_conflict = bool_input(&inputs.create_issue_on_conflict);
        let copy_issue_numbers_from_squashed_commit = bool_input(
            &inputs.copy_issue_numbers_from_squashed_commit,
        );
        let label_prefix = match inputs.label_prefix {
            Some(s) => s,
            None => "needs-cherry-pick/".to_owned(),
        };
        let picked_label_prefix = match inputs.picked_label_prefix {
            Some(s) => s,
            None => "cherry-picked/".to_owned(),
        };
        let exclude_labels = match &inputs.exclude_labels {
            Some(s) => get_multiline_input(Some(s.as_str())),
            None => get_multiline_input(None),
        };
        Config {
            allow_all,
            create_issue_on_conflict,
            label_prefix,
            picked_label_prefix,
            exclude_labels,
            copy_issue_numbers_from_squashed_commit,
        }
    }
}

} // verus!
