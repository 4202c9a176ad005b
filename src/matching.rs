use vstd::prelude::*;
use crate::config::SearchMode;

verus! {

/// Whether `p` occurs in `s` as a run of consecutive characters.
pub open spec fn occurs_in(p: Seq<char>, s: Seq<char>) -> bool {
    exists|i: int| 0 <= i && i + p.len() <= s.len() && #[trigger] s.subrange(i, i + p.len()) == p
}

/// The index of the last `.` in `s`, or -1 where there is none.
pub open spec fn last_dot(s: Seq<char>) -> int
    decreases s.len(),
{
    if s.len() == 0 {
        -1
    } else if s.last() == '.' {
        s.len() - 1
    } else {
        last_dot(s.drop_last())
    }
}

/// The stem of a file name: the part before its last `.`; the whole name
/// where it has no `.`, where its only `.` is the first character, and for
/// `..`.
pub open spec fn stem_of(name: Seq<char>) -> Seq<char> {
    if name == ".."@ || last_dot(name) <= 0 {
        name
    } else {
        name.subrange(0, last_dot(name))
    }
}

/// Whether an entry with this name is found by a search for `pattern`: the
/// whole name equals it, the stem equals it, or the name contains it.
pub open spec fn name_matches(mode: SearchMode, name: Seq<char>, pattern: Seq<char>) -> bool {
    match mode {
        SearchMode::Exact => name == pattern,
        SearchMode::Stem => stem_of(name) == pattern,
        SearchMode::Contains => occurs_in(pattern, name),
    }
}

/// The stem of a file name.
pub fn file_stem(name: &str) -> (r: String)
    ensures
        r@ == stem_of(name@),
{
    let n = name.unicode_len();
    let mut i: usize = n;
    proof {
        assert(name@.take(n as int) == name@);
    }
    while i > 0 && name.get_char(i - 1) != '.'
        invariant
            i <= n,
            n == name@.len(),
            last_dot(name@) == last_dot(name@.take(i as int)),
        decreases i,
    {
        proof {
            assert(name@.take(i as int).drop_last() == name@.take(i - 1));
        }
        i = i - 1;
    }
    proof {
        if i > 0 {
            assert(name@.take(i as int).last() == '.');
        }
    }
    if same_text(name, "..") || i <= 1 {
        String::from_str(name)
    } else {
        String::from_str(name.substring_char(0, i - 1))
    }
}

/// Whether `p` occurs in `s` starting at character `at`.
fn occurs_at(p: &str, s: &str, at: usize) -> (r: bool)
    requires
        at + p@.len() <= s@.len(),
        s@.len() <= usize::MAX,
    ensures
        r == (s@.subrange(at as int, at + p@.len()) == p@),
{
    let m = p.unicode_len();
    let mut j: usize = 0;
    while j < m
        invariant
            m == p@.len(),
            at + m <= s@.len(),
            s@.len() <= usize::MAX,
            j <= m,
            s@.subrange(at as int, at + j) == p@.subrange(0, j as int),
        decreases m - j,
    {
        if s.get_char(at + j) != p.get_char(j) {
            assert(s@.subrange(at as int, at + m)[j as int] != p@[j as int]);
            return false;
        }
        j = j + 1;
        assert(s@.subrange(at as int, at + j) =~= p@.subrange(0, j as int));
    }
    assert(p@.subrange(0, m as int) =~= p@);
    true
}

/// Whether the two texts are equal, character by character.
pub fn same_text(a: &str, b: &str) -> (r: bool)
    ensures
        r == (a@ == b@),
{
    let n = a.unicode_len();
    if n != b.unicode_len() {
        return false;
    }
    let r = occurs_at(b, a, 0);
    assert(a@.subrange(0, n as int) =~= a@);
    r
}

/// Whether `p` occurs in `s`.
pub fn text_contains(s: &str, p: &str) -> (r: bool)
    ensures
        r == occurs_in(p@, s@),
{
    let n = s.unicode_len();
    let m = p.unicode_len();
    if m > n {
        return false;
    }
    let mut i: usize = 0;
    while i <= n - m
        invariant
            n == s@.len(),
            m == p@.len(),
            m <= n,
            i <= n - m + 1,
            forall|k: int| 0 <= k < i ==> #[trigger] s@.subrange(k, k + m) != p@,
        decreases n - m + 1 - i,
    {
        if occurs_at(p, s, i) {
            return true;
        }
        if i == n - m {
            return false;
        }
        i = i + 1;
    }
    false
}

/// Whether an entry with this name is found by a search for `pattern` in
/// the given mode.
pub fn matches_name(mode: SearchMode, name: &str, pattern: &str) -> (r: bool)
    ensures
        r == name_matches(mode, name@, pattern@),
{
    match mode {
        SearchMode::Exact => same_text(name, pattern),
        SearchMode::Stem => {
            let stem = file_stem(name);
            same_text(stem.as_str(), pattern)
        },
        SearchMode::Contains => text_contains(name, pattern),
    }
}

} // verus!
