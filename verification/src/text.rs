//! Character-level string utilities: the building blocks for command
//! parsing, argument construction and name normalization.

use vstd::prelude::*;

verus! {

/// The code points of the Unicode `White_Space` set.  This is what counts
/// as a separator between a bot command and its argument, and what trimming
/// removes at either end of a captured value.
pub open spec fn is_space(c: char) -> bool {
    ||| c as u32 == 0x20
    ||| (0x09 <= c as u32 && c as u32 <= 0x0D)
    ||| c as u32 == 0x85
    ||| c as u32 == 0xA0
    ||| c as u32 == 0x1680
    ||| (0x2000 <= c as u32 && c as u32 <= 0x200A)
    ||| c as u32 == 0x2028
    ||| c as u32 == 0x2029
    ||| c as u32 == 0x202F
    ||| c as u32 == 0x205F
    ||| c as u32 == 0x3000
}

pub fn is_space_char(c: char) -> (b: bool)
    ensures
        b == is_space(c),
{
    let u = c as u32;
    u == 0x20 || (0x09 <= u && u <= 0x0D) || u == 0x85 || u == 0xA0 || u == 0x1680
        || (0x2000 <= u && u <= 0x200A) || u == 0x2028 || u == 0x2029 || u == 0x202F
        || u == 0x205F || u == 0x3000
}

/// A word character for the invite command's boundary check: an ASCII
/// letter, digit or underscore.  This is deliberately the ASCII word
/// class only; a character outside it — a space, punctuation, or any
/// non-ASCII character — counts as a boundary after the command word.
pub open spec fn is_word(c: char) -> bool {
    ||| (0x30 <= c as u32 && c as u32 <= 0x39)
    ||| (0x41 <= c as u32 && c as u32 <= 0x5A)
    ||| (0x61 <= c as u32 && c as u32 <= 0x7A)
    ||| c as u32 == 0x5F
}

pub fn is_word_char(c: char) -> (b: bool)
    ensures
        b == is_word(c),
{
    let u = c as u32;
    (0x30 <= u && u <= 0x39) || (0x41 <= u && u <= 0x5A) || (0x61 <= u && u <= 0x7A) || u == 0x5F
}

pub fn str_eq(a: &str, b: &str) -> (r: bool)
    ensures
        r == (a@ == b@),
{
    let alen = a.unicode_len();
    let blen = b.unicode_len();
    if alen != blen {
        return false;
    }
    let mut i: usize = 0;
    while i < alen
        invariant
            alen == a@.len(),
            blen == b@.len(),
            alen == blen,
            i <= alen,
            forall|j: int| 0 <= j < i ==> a@[j] == b@[j],
        decreases alen - i,
    {
        if a.get_char(i) != b.get_char(i) {
            return false;
        }
        i += 1;
    }
    proof {
        assert(a@ =~= b@);
    }
    true
}

/// `p` stands at the start of `s`.
pub open spec fn has_prefix(s: Seq<char>, p: Seq<char>) -> bool {
    p.len() <= s.len() && s.subrange(0, p.len() as int) == p
}

pub fn starts_with(s: &str, p: &str) -> (r: bool)
    ensures
        r == has_prefix(s@, p@),
{
    let plen = p.unicode_len();
    let slen = s.unicode_len();
    if slen < plen {
        return false;
    }
    let mut i: usize = 0;
    while i < plen
        invariant
            plen == p@.len(),
            slen == s@.len(),
            plen <= slen,
            i <= plen,
            forall|j: int| 0 <= j < i ==> s@[j] == p@[j],
        decreases plen - i,
    {
        if s.get_char(i) != p.get_char(i) {
            proof {
                assert(s@.subrange(0, p@.len() as int)[i as int] == s@[i as int]);
            }
            return false;
        }
        i += 1;
    }
    proof {
        assert(s@.subrange(0, p@.len() as int) =~= p@);
    }
    true
}

/// What is left of `s` once a prefix `p` is taken off, or `None` when `p`
/// does not stand at the start of `s`.
pub fn strip_prefix_str(s: &str, p: &str) -> (r: Option<String>)
    ensures
        has_prefix(s@, p@) ==> (r matches Some(rest) && rest@ == s@.subrange(
            p@.len() as int,
            s@.len() as int,
        )),
        !has_prefix(s@, p@) ==> r is None,
{
    if starts_with(s, p) {
        let rest = s.substring_char(p.unicode_len(), s.unicode_len());
        Some(rest.to_owned())
    } else {
        None
    }
}

pub open spec fn trim_front(s: Seq<char>) -> Seq<char>
    decreases s.len(),
{
    if s.len() > 0 && is_space(s[0]) {
        trim_front(s.subrange(1, s.len() as int))
    } else {
        s
    }
}

pub open spec fn trim_back(s: Seq<char>) -> Seq<char>
    decreases s.len(),
{
    if s.len() > 0 && is_space(s[s.len() - 1]) {
        trim_back(s.subrange(0, s.len() - 1))
    } else {
        s
    }
}

/// `s` with leading and trailing whitespace removed.
pub open spec fn trimmed(s: Seq<char>) -> Seq<char> {
    trim_back(trim_front(s))
}

proof fn lemma_trim_front_range(s: Seq<char>, i: int)
    requires
        0 <= i <= s.len(),
        forall|j: int| 0 <= j < i ==> is_space(s[j]),
        i < s.len() ==> !is_space(s[i]),
    ensures
        trim_front(s) == s.subrange(i, s.len() as int),
    decreases i,
{
    if i == 0 {
        assert(s.subrange(0, s.len() as int) =~= s);
    } else {
        let t = s.subrange(1, s.len() as int);
        lemma_trim_front_range(t, i - 1);
        assert(t.subrange(i - 1, t.len() as int) =~= s.subrange(i, s.len() as int));
    }
}

proof fn lemma_trim_back_range(s: Seq<char>, k: int)
    requires
        0 <= k <= s.len(),
        forall|j: int| k <= j < s.len() ==> is_space(s[j]),
        k > 0 ==> !is_space(s[k - 1]),
    ensures
        trim_back(s) == s.subrange(0, k),
    decreases s.len() - k,
{
    if k == s.len() {
        assert(s.subrange(0, s.len() as int) =~= s);
    } else {
        let t = s.subrange(0, s.len() - 1);
        lemma_trim_back_range(t, k);
        assert(t.subrange(0, k) =~= s.subrange(0, k));
    }
}

/// `s` with whitespace trimmed from both ends, as a fresh `String`.
pub fn trim_str(s: &str) -> (r: String)
    ensures
        r@ == trimmed(s@),
{
    let n = s.unicode_len();
    let mut i: usize = 0;
    while i < n && is_space_char(s.get_char(i))
        invariant
            n == s@.len(),
            i <= n,
            forall|j: int| 0 <= j < i ==> is_space(s@[j]),
        decreases n - i,
    {
        i += 1;
    }
    if i == n {
        proof {
            lemma_trim_front_range(s@, n as int);
            assert(trim_front(s@) =~= Seq::<char>::empty());
            assert(trimmed(s@) =~= Seq::<char>::empty());
        }
        return String::new();
    }
    let mut j: usize = n;
    while j > i + 1 && is_space_char(s.get_char(j - 1))
        invariant
            n == s@.len(),
            i < j <= n,
            !is_space(s@[i as int]),
            forall|k: int| j <= k < n ==> is_space(s@[k]),
        decreases j,
    {
        j -= 1;
    }
    let piece = s.substring_char(i, j);
    proof {
        lemma_trim_front_range(s@, i as int);
        let mid = s@.subrange(i as int, n as int);
        if is_space(s@[j - 1]) {
            // only possible when j == i + 1 and the loop stopped on the bound;
            // but s@[i] is not a space, so this cannot happen
            assert(!is_space(s@[i as int]));
            assert(j == i + 1);
            assert(false);
        }
        lemma_trim_back_range(mid, j - i);
        assert(mid.subrange(0, j - i) =~= s@.subrange(i as int, j as int));
    }
    piece.to_owned()
}

/// The segments of `s` between newline characters, in order; there is
/// always at least one segment, and a trailing newline yields a trailing
/// empty segment.
pub open spec fn split_nl(s: Seq<char>) -> Seq<Seq<char>>
    decreases s.len(),
{
    if s.len() == 0 {
        seq![Seq::<char>::empty()]
    } else if s[0] == '\n' {
        seq![Seq::<char>::empty()].add(split_nl(s.subrange(1, s.len() as int)))
    } else {
        let rest = split_nl(s.subrange(1, s.len() as int));
        seq![seq![s[0]].add(rest[0])].add(rest.subrange(1, rest.len() as int))
    }
}

proof fn lemma_split_nl_no_nl(s: Seq<char>)
    requires
        forall|j: int| 0 <= j < s.len() ==> s[j] != '\n',
    ensures
        split_nl(s) == seq![s],
    decreases s.len(),
{
    if s.len() == 0 {
        assert(split_nl(s) =~~= seq![s]);
    } else {
        let t = s.subrange(1, s.len() as int);
        lemma_split_nl_no_nl(t);
        assert(seq![s[0]].add(t) =~= s);
        assert(split_nl(s) =~~= seq![s]);
    }
}

proof fn lemma_split_nl_at(s: Seq<char>, i: int)
    requires
        0 <= i < s.len(),
        s[i] == '\n',
        forall|j: int| 0 <= j < i ==> s[j] != '\n',
    ensures
        split_nl(s) == seq![s.subrange(0, i)].add(split_nl(s.subrange(i + 1, s.len() as int))),
    decreases i,
{
    if i == 0 {
        assert(s.subrange(0, 0) =~= Seq::<char>::empty());
        assert(split_nl(s) =~~= seq![s.subrange(0, 0)].add(
            split_nl(s.subrange(1, s.len() as int)),
        ));
    } else {
        let t = s.subrange(1, s.len() as int);
        lemma_split_nl_at(t, i - 1);
        let rest = split_nl(t);
        let tail = split_nl(t.subrange(i, t.len() as int));
        assert(rest =~~= seq![t.subrange(0, i - 1)].add(tail));
        assert(rest.subrange(1, rest.len() as int) =~~= tail);
        assert(t.subrange(i, t.len() as int) =~= s.subrange(i + 1, s.len() as int));
        assert(seq![s[0]].add(t.subrange(0, i - 1)) =~= s.subrange(0, i));
        assert(split_nl(s) =~~= seq![s.subrange(0, i)].add(
            split_nl(s.subrange(i + 1, s.len() as int)),
        ));
    }
}

/// Splits `s` at newline characters; the result always holds at least one
/// element.
pub fn split_lines(s: &str) -> (r: Vec<String>)
    ensures
        r.deep_view() == split_nl(s@),
{
    let n = s.unicode_len();
    let mut out: Vec<String> = Vec::new();
    let mut start: usize = 0;
    let mut i: usize = 0;
    proof {
        assert(s@.subrange(0, n as int) =~= s@);
        assert(out.deep_view() =~~= Seq::<Seq<char>>::empty());
    }
    while i < n
        invariant
            n == s@.len(),
            start <= i <= n,
            forall|j: int| start <= j < i ==> s@[j] != '\n',
            split_nl(s@) =~~= out.deep_view().add(split_nl(s@.subrange(start as int, n as int))),
        decreases n - i,
    {
        if s.get_char(i) == '\n' {
            let ghost old_out = out.deep_view();
            let piece = s.substring_char(start, i);
            out.push(piece.to_owned());
            proof {
                let rem = s@.subrange(start as int, n as int);
                lemma_split_nl_at(rem, i - start);
                assert(rem.subrange(0, i - start) =~= s@.subrange(start as int, i as int));
                assert(rem.subrange(i - start + 1, rem.len() as int) =~= s@.subrange(
                    i + 1,
                    n as int,
                ));
                assert(out.deep_view() =~~= old_out.push(s@.subrange(start as int, i as int)));
            }
            start = i + 1;
        }
        i += 1;
    }
    let ghost old_out = out.deep_view();
    let piece = s.substring_char(start, n);
    out.push(piece.to_owned());
    proof {
        let rem = s@.subrange(start as int, n as int);
        lemma_split_nl_no_nl(rem);
        assert(out.deep_view() =~~= old_out.push(rem));
        assert(out.deep_view() =~~= split_nl(s@));
    }
    out
}

/// The decimal digit `d` as a character; meaningful for `0 <= d <= 9`.
pub open spec fn digit_char(d: int) -> char {
    if d == 0 {
        '0'
    } else if d == 1 {
        '1'
    } else if d == 2 {
        '2'
    } else if d == 3 {
        '3'
    } else if d == 4 {
        '4'
    } else if d == 5 {
        '5'
    } else if d == 6 {
        '6'
    } else if d == 7 {
        '7'
    } else if d == 8 {
        '8'
    } else {
        '9'
    }
}

/// The decimal notation of `n`, most significant digit first, with no
/// leading zeros (a single `'0'` for zero).
pub open spec fn dec_str(n: int) -> Seq<char>
    decreases n,
{
    if n < 10 {
        seq![digit_char(n)]
    } else {
        dec_str(n / 10).push(digit_char(n % 10))
    }
}

fn digit_str(d: u64) -> (r: &'static str)
    requires
        d < 10,
    ensures
        r@ == seq![digit_char(d as int)],
{
    let r: &'static str = if d == 0 {
        "0"
    } else if d == 1 {
        "1"
    } else if d == 2 {
        "2"
    } else if d == 3 {
        "3"
    } else if d == 4 {
        "4"
    } else if d == 5 {
        "5"
    } else if d == 6 {
        "6"
    } else if d == 7 {
        "7"
    } else if d == 8 {
        "8"
    } else {
        "9"
    };
    proof {
        reveal_strlit("0");
        reveal_strlit("1");
        reveal_strlit("2");
        reveal_strlit("3");
        reveal_strlit("4");
        reveal_strlit("5");
        reveal_strlit("6");
        reveal_strlit("7");
        reveal_strlit("8");
        reveal_strlit("9");
        assert(r@ =~= seq![digit_char(d as int)]);
    }
    r
}

/// Writes `n` in decimal.
pub fn u64_to_string(n: u64) -> (r: String)
    ensures
        r@ == dec_str(n as int),
    decreases n,
{
    if n < 10 {
        digit_str(n).to_owned()
    } else {
        let head = u64_to_string(n / 10);
        let r = head.concat(digit_str(n % 10));
        proof {
            assert(r@ =~= dec_str(n as int));
        }
        r
    }
}

} // verus!
