//! The bot-command grammar on pull-request comments: extracting the
//! cherry-pick targets a comment asks for, recognising the invite
//! command, and matching a request label against a configured prefix.

use vstd::prelude::*;
use crate::text::{
    has_prefix, is_space, is_space_char, is_word, is_word_char, split_lines, split_nl,
    starts_with, strip_prefix_str, trim_str, trimmed,
};

verus! {

/// What stands after the command word on one line, for either spelling
/// of the command.
pub open spec fn line_cp_rest(l: Seq<char>) -> Option<Seq<char>> {
    if has_prefix(l, "/cherrypick"@) {
        Some(l.subrange("/cherrypick"@.len() as int, l.len() as int))
    } else if has_prefix(l, "/cherry-pick"@) {
        Some(l.subrange("/cherry-pick"@.len() as int, l.len() as int))
    } else {
        None
    }
}

/// The value one line contributes: the line starts with the command
/// word, at least one whitespace character follows it along with at
/// least one further character, and the remainder is trimmed.
pub open spec fn line_capture(l: Seq<char>) -> Option<Seq<char>> {
    match line_cp_rest(l) {
        Some(rest) => if rest.len() >= 2 && is_space(rest[0]) {
            Some(trimmed(rest))
        } else {
            None
        },
        None => None,
    }
}

/// The captured values of all lines, in order, duplicates included.
pub open spec fn captures(lines: Seq<Seq<char>>) -> Seq<Seq<char>>
    decreases lines.len(),
{
    if lines.len() == 0 {
        Seq::empty()
    } else {
        let front = captures(lines.drop_last());
        match line_capture(lines.last()) {
            Some(c) => front.push(c),
            None => front,
        }
    }
}

/// Keeps the first occurrence of each value, in order.
pub open spec fn dedup(s: Seq<Seq<char>>) -> Seq<Seq<char>>
    decreases s.len(),
{
    if s.len() == 0 {
        Seq::empty()
    } else {
        let front = dedup(s.drop_last());
        if s.drop_last().contains(s.last()) {
            front
        } else {
            front.push(s.last())
        }
    }
}

/// Dropping duplicates changes no membership.
proof fn lemma_dedup_contains(s: Seq<Seq<char>>, x: Seq<char>)
    ensures
        dedup(s).contains(x) <==> s.contains(x),
    decreases s.len(),
{
    if s.len() > 0 {
        lemma_dedup_contains(s.drop_last(), x);
        assert(s.contains(x) <==> (s.drop_last().contains(x) || s.last() == x)) by {
            if s.contains(x) {
                let i = choose|i: int| 0 <= i < s.len() && s[i] == x;
                if i < s.len() - 1 {
                    assert(s.drop_last()[i] == x);
                    assert(s.drop_last().contains(x));
                }
            }
            if s.drop_last().contains(x) {
                let i = choose|i: int| 0 <= i < s.drop_last().len() && s.drop_last()[i] == x;
                assert(s[i] == x);
                assert(s.contains(x));
            }
            if s.last() == x {
                assert(s[s.len() - 1] == x);
                assert(s.contains(x));
            }
        }
        let front = dedup(s.drop_last());
        if !s.drop_last().contains(s.last()) {
            assert(dedup(s) == front.push(s.last()));
            assert(front.push(s.last()).contains(x) <==> (front.contains(x) || s.last() == x))
                by {
                if front.contains(x) {
                    let i = choose|i: int| 0 <= i < front.len() && front[i] == x;
                    assert(front.push(s.last())[i] == x);
                    assert(front.push(s.last()).contains(x));
                }
                if s.last() == x {
                    assert(front.push(s.last())[front.len() as int] == x);
                    assert(front.push(s.last()).contains(x));
                }
                if front.push(s.last()).contains(x) {
                    let i = choose|i: int|
                        0 <= i < front.push(s.last()).len() && front.push(s.last())[i] == x;
                    if i < front.len() {
                        assert(front[i] == x);
                        assert(front.contains(x));
                    }
                }
            }
        }
    }
}

fn contains_string(v: &Vec<String>, x: &String) -> (r: bool)
    ensures
        r == v.deep_view().contains(x@),
{
    let mut j: usize = 0;
    while j < v.len()
        invariant
            j <= v@.len(),
            forall|k: int| 0 <= k < j ==> v@[k]@ != x@,
        decreases v@.len() - j,
    {
        if crate::text::str_eq(v[j].as_str(), x.as_str()) {
            proof {
                assert(v.deep_view()[j as int] == v@[j as int]@);
                assert(v.deep_view().contains(x@));
            }
            return true;
        }
        j += 1;
    }
    proof {
        if v.deep_view().contains(x@) {
            let k = choose|k: int| 0 <= k < v.deep_view().len() && v.deep_view()[k] == x@;
            assert(v@[k]@ == x@);
        }
    }
    false
}

fn capture_line(l: &String) -> (r: Option<String>)
    ensures
        line_capture(l@) matches Some(c) ==> (r matches Some(s) && s@ == c),
        line_capture(l@) is None ==> r is None,
{
    let first = strip_prefix_str(l.as_str(), "/cherrypick");
    let rest = match first {
        Some(x) => Some(x),
        None => strip_prefix_str(l.as_str(), "/cherry-pick"),
    };
    match rest {
        None => None,
        Some(rest_s) => {
            let n = rest_s.as_str().unicode_len();
            if n >= 2 && is_space_char(rest_s.as_str().get_char(0)) {
                Some(trim_str(rest_s.as_str()))
            } else {
                None
            }
        },
    }
}

/// Every target a comment asks to cherry-pick to: each line that carries
/// the command word followed by whitespace contributes its trimmed
/// remainder, and only a value's first occurrence is kept.
pub fn match_cherry_pick_command(text: &str) -> (r: Vec<String>)
    ensures
        r.deep_view() == dedup(captures(split_nl(text@))),
{
    let lines = split_lines(text);
    let ghost lv = lines.deep_view();
    let mut out: Vec<String> = Vec::new();
    let mut i: usize = 0;
    proof {
        assert(lv.subrange(0, 0) =~~= Seq::<Seq<char>>::empty());
        assert(out.deep_view() =~~= dedup(captures(lv.subrange(0, 0))));
    }
    while i < lines.len()
        invariant
            i <= lines@.len(),
            lv == lines.deep_view(),
            lv == split_nl(text@),
            out.deep_view() == dedup(captures(lv.subrange(0, i as int))),
        decreases lines@.len() - i,
    {
        let ghost pre = captures(lv.subrange(0, i as int));
        proof {
            assert(lv.subrange(0, i + 1).drop_last() =~~= lv.subrange(0, i as int));
            assert(lv.subrange(0, i + 1).last() == lv[i as int]);
            assert(lines@[i as int]@ == lv[i as int]);
        }
        let cap = capture_line(&lines[i]);
        match cap {
            Some(c) => {
                proof {
                    assert(line_capture(lv[i as int]) matches Some(v) && c@ == v);
                    assert(captures(lv.subrange(0, i + 1)) == pre.push(c@));
                    assert(pre.push(c@).drop_last() =~~= pre);
                    lemma_dedup_contains(pre, c@);
                }
                let dup = contains_string(&out, &c);
                proof {
                    assert(dup == out.deep_view().contains(c@));
                }
                if !dup {
                    out.push(c);
                    proof {
                        assert(out.deep_view() =~~= dedup(pre).push(c@));
                    }
                } else {
                    proof {
                        assert(pre.contains(c@));
                    }
                }
            },
            None => {
                proof {
                    assert(captures(lv.subrange(0, i + 1)) == pre);
                }
            },
        }
        i += 1;
    }
    proof {
        assert(lv.subrange(0, lv.len() as int) =~~= lv);
    }
    out
}

/// The label value a request label carries once the configured prefix is
/// taken off it, trimmed; an empty prefix matches nothing at all.
pub fn match_label(label_prefix: &str, text: &str) -> (r: Option<String>)
    ensures
        label_prefix@.len() == 0 ==> r is None,
        label_prefix@.len() > 0 && has_prefix(text@, label_prefix@) ==> (r matches Some(s) && s@
            == trimmed(text@.subrange(label_prefix@.len() as int, text@.len() as int))),
        label_prefix@.len() > 0 && !has_prefix(text@, label_prefix@) ==> r is None,
{
    if label_prefix.unicode_len() == 0 {
        return None;
    }
    match strip_prefix_str(text, label_prefix) {
        Some(rest) => Some(trim_str(rest.as_str())),
        None => None,
    }
}

/// A change already picked to `target_branch` carries a label that is
/// exactly the picked prefix followed by the branch name.
pub open spec fn picked_label(label: Seq<char>, picked_prefix: Seq<char>, target: Seq<char>) -> bool {
    label == picked_prefix + target
}

/// The labels record a pick to the target: some label is exactly the
/// picked prefix followed by the branch name; a change with no label
/// collection at all records nothing.
pub open spec fn spec_is_picked(
    labels: Option<Vec<String>>,
    picked_prefix: Seq<char>,
    target: Seq<char>,
) -> bool {
    match labels {
        Some(v) => exists|i: int|
            #![trigger v@[i]]
            0 <= i < v@.len() && picked_label(v@[i]@, picked_prefix, target),
        None => false,
    }
}

/// Whether the change's labels record a pick to `target_branch`.
pub fn is_picked(labels: &Option<Vec<String>>, picked_label_prefix: &str, target_branch: &str) -> (r:
    bool)
    ensures
        r == spec_is_picked(*labels, picked_label_prefix@, target_branch@),
{
    let v = match labels {
        None => {
            return false;
        },
        Some(v) => v,
    };
    proof {
        assert((*labels) matches Some(vv) && vv == *v);
    }
    let mut expected = picked_label_prefix.to_owned();
    expected.append(target_branch);
    let mut i: usize = 0;
    while i < v.len()
        invariant
            i <= v@.len(),
            (*labels) is Some,
            *v == (*labels).get_Some_0(),
            expected@ == picked_label_prefix@ + target_branch@,
            forall|j: int| 0 <= j < i ==> !picked_label(v@[j]@, picked_label_prefix@, target_branch@),
        decreases v@.len() - i,
    {
        if crate::text::str_eq(v[i].as_str(), expected.as_str()) {
            proof {
                let vv = (*labels).get_Some_0();
                assert(vv == *v);
                assert((i as int) < vv@.len() && picked_label(
                    vv@[i as int]@,
                    picked_label_prefix@,
                    target_branch@,
                ));
                assert(spec_is_picked(*labels, picked_label_prefix@, target_branch@));
            }
            return true;
        }
        i += 1;
    }
    false
}

/// The invite command with one spelling of the command word: the line
/// starts with it and the next character, if any, does not glue onto it.
/// Gluing is judged by the ASCII word class ([`is_word`]), so a
/// non-ASCII character directly after the command word counts as a
/// boundary.
pub open spec fn invite_with(l: Seq<char>, p: Seq<char>) -> bool {
    has_prefix(l, p) && (l.len() == p.len() || !is_word(l[p.len() as int]))
}

/// One line carries the invite command.
pub open spec fn line_invite(l: Seq<char>) -> bool {
    invite_with(l, "/cherrypick-invite"@) || invite_with(l, "/cherry-pick-invite"@)
}

/// Some line of the comment carries the invite command.
pub open spec fn any_invite(lines: Seq<Seq<char>>) -> bool {
    exists|i: int| 0 <= i < lines.len() && line_invite(lines[i])
}

fn invite_with_check(l: &String, p: &str) -> (r: bool)
    ensures
        r == invite_with(l@, p@),
{
    if starts_with(l.as_str(), p) {
        let n = l.as_str().unicode_len();
        let plen = p.unicode_len();
        if n == plen {
            true
        } else {
            !is_word_char(l.as_str().get_char(plen))
        }
    } else {
        false
    }
}

/// Whether the comment invites a user to cherry-pick: some line starts
/// with the invite command at a word boundary, where only ASCII
/// letters, digits and the underscore count as word characters.
pub fn is_cherry_pick_invite_command(text: &str) -> (r: bool)
    ensures
        r == any_invite(split_nl(text@)),
{
    let lines = split_lines(text);
    let ghost lv = lines.deep_view();
    let mut i: usize = 0;
    while i < lines.len()
        invariant
            i <= lines@.len(),
            lv == lines.deep_view(),
            lv == split_nl(text@),
            forall|j: int| 0 <= j < i ==> !line_invite(lv[j]),
        decreases lines@.len() - i,
    {
        proof {
            assert(lines@[i as int]@ == lv[i as int]);
        }
        let hit = if invite_with_check(&lines[i], "/cherrypick-invite") {
            true
        } else {
            invite_with_check(&lines[i], "/cherry-pick-invite")
        };
        if hit {
            proof {
                assert(line_invite(lv[i as int]));
            }
            return true;
        }
        i += 1;
    }
    false
}

} // verus!
