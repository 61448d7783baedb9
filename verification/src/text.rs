//! Verified text helpers used by the output parsers.
//!
//! The audio tools print plain ASCII tables; these helpers give the parsers
//! a small, fully specified vocabulary: character search, prefix and
//! substring tests, trimming, line splitting and per-character replacement.

use vstd::prelude::*;
use vstd::string::*;

verus! {

/// ASCII whitespace as it occurs in the tools' tabular output.
pub open spec fn is_space_char(c: char) -> bool {
    c == ' ' || c == '\t' || c == '\r' || c == '\n'
}

pub fn is_space(c: char) -> (r: bool)
    ensures
        r == is_space_char(c),
{
    c == ' ' || c == '\t' || c == '\r' || c == '\n'
}

/// The views of a vector of strings.
pub open spec fn views_of(v: Seq<String>) -> Seq<Seq<char>> {
    v.map_values(|x: String| x@)
}

/// `p` is a prefix of `s`.
pub open spec fn starts_with_seq(s: Seq<char>, p: Seq<char>) -> bool {
    p.len() <= s.len() && s.subrange(0, p.len() as int) == p
}

pub fn str_starts_with(s: &str, p: &str) -> (r: bool)
    ensures
        r == starts_with_seq(s@, p@),
{
    let n = p.unicode_len();
    if n > s.unicode_len() {
        return false;
    }
    let mut i: usize = 0;
    while i < n
        invariant
            0 <= i <= n,
            n == p@.len(),
            n <= s@.len(),
            forall|j: int| 0 <= j < i ==> s@[j] == p@[j],
        decreases n - i,
    {
        if s.get_char(i) != p.get_char(i) {
            assert(s@.subrange(0, n as int)[i as int] != p@[i as int]);
            return false;
        }
        i += 1;
    }
    proof {
        assert(s@.subrange(0, n as int) =~= p@);
    }
    true
}

pub fn str_eq(s: &str, t: &str) -> (r: bool)
    ensures
        r == (s@ == t@),
{
    let n = s.unicode_len();
    if n != t.unicode_len() {
        return false;
    }
    let mut i: usize = 0;
    while i < n
        invariant
            0 <= i <= n,
            n == s@.len(),
            n == t@.len(),
            forall|j: int| 0 <= j < i ==> s@[j] == t@[j],
        decreases n - i,
    {
        if s.get_char(i) != t.get_char(i) {
            return false;
        }
        i += 1;
    }
    proof {
        assert(s@ =~= t@);
    }
    true
}

/// Index of the first occurrence of `c` in `s`, or `s.len()` if absent.
pub open spec fn find_char_spec(s: Seq<char>, c: char) -> int
    decreases s.len(),
{
    if s.len() == 0 {
        0
    } else if s[0] == c {
        0
    } else {
        1 + find_char_spec(s.subrange(1, s.len() as int), c)
    }
}

pub proof fn lemma_find_char(s: Seq<char>, c: char)
    ensures
        0 <= find_char_spec(s, c) <= s.len(),
        forall|j: int| 0 <= j < find_char_spec(s, c) ==> s[j] != c,
        find_char_spec(s, c) < s.len() ==> s[find_char_spec(s, c)] == c,
    decreases s.len(),
{
    if s.len() != 0 && s[0] != c {
        let t = s.subrange(1, s.len() as int);
        lemma_find_char(t, c);
        assert forall|j: int| 0 <= j < find_char_spec(s, c) implies s[j] != c by {
            if j > 0 {
                assert(s[j] == t[j - 1]);
            }
        }
    }
}

pub proof fn lemma_find_char_at(s: Seq<char>, c: char, i: int)
    requires
        0 <= i <= s.len(),
        forall|j: int| 0 <= j < i ==> s[j] != c,
        i < s.len() ==> s[i] == c,
    ensures
        find_char_spec(s, c) == i,
    decreases s.len(),
{
    if s.len() != 0 {
        if i == 0 {
        } else {
            let t = s.subrange(1, s.len() as int);
            assert(forall|j: int| 0 <= j < i - 1 ==> t[j] == s[j + 1] && s[j + 1] != c);
            lemma_find_char_at(t, c, i - 1);
        }
    }
}

pub fn find_char(s: &str, c: char) -> (i: usize)
    ensures
        i as int == find_char_spec(s@, c),
{
    let n = s.unicode_len();
    let mut i: usize = 0;
    while i < n
        invariant
            0 <= i <= n,
            n == s@.len(),
            forall|j: int| 0 <= j < i ==> s@[j] != c,
        decreases n - i,
    {
        if s.get_char(i) == c {
            proof {
                lemma_find_char_at(s@, c, i as int);
            }
            return i;
        }
        i += 1;
    }
    proof {
        lemma_find_char_at(s@, c, n as int);
    }
    n
}

/// `sub` occurs somewhere in `s`.
pub open spec fn contains_seq(s: Seq<char>, sub: Seq<char>) -> bool {
    exists|i: int| 0 <= i && i + sub.len() <= s.len() && #[trigger] s.subrange(
        i,
        i + sub.len() as int,
    ) == sub
}

fn match_at(s: &str, sub: &str, at: usize) -> (r: bool)
    requires
        at + sub@.len() <= s@.len(),
    ensures
        r == (s@.subrange(at as int, at as int + sub@.len() as int) == sub@),
{
    let n = s.unicode_len();
    let m = sub.unicode_len();
    let mut i: usize = 0;
    while i < m
        invariant
            0 <= i <= m,
            m == sub@.len(),
            n == s@.len(),
            at + m <= n,
            forall|j: int| 0 <= j < i ==> s@[at + j] == sub@[j],
        decreases m - i,
    {
        if s.get_char(at + i) != sub.get_char(i) {
            assert(s@.subrange(at as int, at as int + m as int)[i as int] != sub@[i as int]);
            return false;
        }
        i += 1;
    }
    proof {
        assert(s@.subrange(at as int, at as int + m as int) =~= sub@);
    }
    true
}

pub fn str_contains(s: &str, sub: &str) -> (r: bool)
    ensures
        r == contains_seq(s@, sub@),
{
    let n = s.unicode_len();
    let m = sub.unicode_len();
    if m > n {
        return false;
    }
    if m == 0 {
        proof {
            assert(s@.subrange(0, 0 + sub@.len() as int) =~= sub@);
        }
        return true;
    }
    let mut i: usize = 0;
    while i <= n - m
        invariant
            0 <= i,
            1 <= m <= n,
            i <= n - m + 1,
            m == sub@.len(),
            n == s@.len(),
            forall|k: int| 0 <= k < i ==> #[trigger] s@.subrange(k, k + m as int) != sub@,
        decreases n - i,
    {
        if match_at(s, sub, i) {
            assert(contains_seq(s@, sub@));
            return true;
        }
        i += 1;
    }
    false
}

/// `s` with leading ASCII whitespace removed.
pub open spec fn trim_start_spec(s: Seq<char>) -> Seq<char>
    decreases s.len(),
{
    if s.len() == 0 {
        s
    } else if is_space_char(s[0]) {
        trim_start_spec(s.subrange(1, s.len() as int))
    } else {
        s
    }
}

/// `s` with trailing ASCII whitespace removed.
pub open spec fn trim_end_spec(s: Seq<char>) -> Seq<char>
    decreases s.len(),
{
    if s.len() == 0 {
        s
    } else if is_space_char(s[s.len() - 1]) {
        trim_end_spec(s.subrange(0, s.len() - 1))
    } else {
        s
    }
}

/// `s` with leading and trailing ASCII whitespace removed.
pub open spec fn trim_spec(s: Seq<char>) -> Seq<char> {
    trim_end_spec(trim_start_spec(s))
}

pub fn str_trim_start<'a>(s: &'a str) -> (r: &'a str)
    ensures
        r@ == trim_start_spec(s@),
    decreases s@.len(),
{
    let n = s.unicode_len();
    if n == 0 {
        s
    } else if is_space(s.get_char(0)) {
        str_trim_start(s.substring_char(1, n))
    } else {
        s
    }
}

pub fn str_trim_end<'a>(s: &'a str) -> (r: &'a str)
    ensures
        r@ == trim_end_spec(s@),
    decreases s@.len(),
{
    let n = s.unicode_len();
    if n == 0 {
        s
    } else if is_space(s.get_char(n - 1)) {
        str_trim_end(s.substring_char(0, n - 1))
    } else {
        s
    }
}

pub fn str_trim<'a>(s: &'a str) -> (r: &'a str)
    ensures
        r@ == trim_spec(s@),
{
    str_trim_end(str_trim_start(s))
}

/// The lines of `s`, split on `'\n'`; a trailing newline yields no extra
/// empty line.
pub open spec fn lines_spec(s: Seq<char>) -> Seq<Seq<char>>
    decreases s.len(),
{
    if s.len() == 0 {
        seq![]
    } else {
        let i = find_char_spec(s, '\n');
        proof {
            lemma_find_char(s, '\n');
        }
        if i == s.len() {
            seq![s]
        } else {
            seq![s.subrange(0, i)] + lines_spec(s.subrange(i + 1, s.len() as int))
        }
    }
}

fn push_lines(s: &str, acc: &mut Vec<String>)
    ensures
        views_of(final(acc)@) == views_of(old(acc)@) + lines_spec(s@),
    decreases s@.len(),
{
    let n = s.unicode_len();
    if n == 0 {
        proof {
            assert(views_of(acc@) =~= views_of(acc@) + lines_spec(s@));
        }
        return;
    }
    proof {
        lemma_find_char(s@, '\n');
    }
    let i = find_char(s, '\n');
    let head = s.substring_char(0, i);
    let ghost pre = acc@;
    acc.push(String::from_str(head));
    proof {
        assert(views_of(acc@) =~= views_of(pre) + seq![head@]);
    }
    if i == n {
        proof {
            assert(head@ =~= s@);
            assert(views_of(acc@) =~= views_of(pre) + lines_spec(s@));
        }
    } else {
        let rest = s.substring_char(i + 1, n);
        push_lines(rest, acc);
        proof {
            assert(views_of(acc@) =~= views_of(pre) + lines_spec(s@));
        }
    }
}

pub fn split_lines(s: &str) -> (v: Vec<String>)
    ensures
        views_of(v@) == lines_spec(s@),
{
    let mut v: Vec<String> = Vec::new();
    proof {
        assert(views_of(v@) =~= Seq::<Seq<char>>::empty());
    }
    push_lines(s, &mut v);
    proof {
        assert(views_of(v@) =~= lines_spec(s@));
    }
    v
}

/// Everything before the first `':'` (the whole string if there is none).
pub open spec fn before_colon_spec(s: Seq<char>) -> Seq<char> {
    s.subrange(0, find_char_spec(s, ':'))
}

pub fn before_colon<'a>(s: &'a str) -> (r: &'a str)
    ensures
        r@ == before_colon_spec(s@),
{
    proof {
        lemma_find_char(s@, ':');
    }
    let i = find_char(s, ':');
    s.substring_char(0, i)
}

/// The tail of `s` after prefix `p`, when `p` is indeed a prefix.
pub fn strip_prefix_str<'a>(s: &'a str, p: &str) -> (r: Option<&'a str>)
    ensures
        match r {
            Some(t) => starts_with_seq(s@, p@) && t@ == s@.subrange(
                p@.len() as int,
                s@.len() as int,
            ),
            None => !starts_with_seq(s@, p@),
        },
{
    if str_starts_with(s, p) {
        Some(s.substring_char(p.unicode_len(), s.unicode_len()))
    } else {
        None
    }
}

/// `s` with every occurrence of `from` replaced by `to`.
pub open spec fn map_char_spec(s: Seq<char>, from: char, to: char) -> Seq<char> {
    Seq::new(
        s.len(),
        |i: int|
            if s[i] == from {
                to
            } else {
                s[i]
            },
    )
}

/// Per-character replacement; `to_str` must be the one-character string
/// whose only character is `to`.
pub fn replace_char(s: &str, from: char, to: char, to_str: &str) -> (r: String)
    requires
        to_str@ == seq![to],
    ensures
        r@ == map_char_spec(s@, from, to),
{
    let n = s.unicode_len();
    let mut out = String::new();
    let mut i: usize = 0;
    while i < n
        invariant
            0 <= i <= n,
            n == s@.len(),
            to_str@ == seq![to],
            out@ == map_char_spec(s@, from, to).subrange(0, i as int),
        decreases n - i,
    {
        if s.get_char(i) == from {
            out.append(to_str);
        } else {
            out.append(s.substring_char(i, i + 1));
        }
        proof {
            assert(out@ =~= map_char_spec(s@, from, to).subrange(0, i + 1));
        }
        i += 1;
    }
    proof {
        assert(map_char_spec(s@, from, to).subrange(0, n as int) =~= map_char_spec(s@, from, to));
    }
    out
}

/// Element-wise clone of a vector of strings, preserving the values.
pub fn clone_string_vec(v: &Vec<String>) -> (r: Vec<String>)
    ensures
        r@ == v@,
{
    let mut r: Vec<String> = Vec::new();
    let n = v.len();
    let mut i: usize = 0;
    while i < n
        invariant
            0 <= i <= n,
            n == v@.len(),
            r@ == v@.subrange(0, i as int),
        decreases n - i,
    {
        r.push(v[i].clone());
        proof {
            assert(r@ =~= v@.subrange(0, i + 1));
        }
        i += 1;
    }
    proof {
        assert(v@.subrange(0, n as int) =~= v@);
    }
    r
}

} // verus!
