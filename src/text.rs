use vstd::prelude::*;
use vstd::string::StrSliceExecFns;

verus! {

/// `p` is a prefix of `k`.
pub open spec fn starts_with(k: Seq<char>, p: Seq<char>) -> bool {
    p.len() <= k.len() && k.subrange(0, p.len() as int) == p
}

/// Whether two strings hold the same characters.
pub(crate) fn str_eq(a: &str, b: &str) -> (r: bool)
    ensures
        r == (a@ == b@),
{
    let n = a.unicode_len();
    if n != b.unicode_len() {
        return false;
    }
    let mut i: usize = 0;
    while i < n
        invariant
            n == a@.len() == b@.len(),
            i <= n,
            forall|j: int| 0 <= j < i ==> a@[j] == b@[j],
        decreases n - i,
    {
        if a.get_char(i) != b.get_char(i) {
            return false;
        }
        i = i + 1;
    }
    assert(a@ =~= b@);
    true
}

/// Whether `k` starts with `p`.
pub(crate) fn has_prefix(k: &str, p: &str) -> (r: bool)
    ensures
        r == starts_with(k@, p@),
{
    let n = p.unicode_len();
    if n > k.unicode_len() {
        return false;
    }
    let mut i: usize = 0;
    while i < n
        invariant
            n == p@.len() <= k@.len(),
            i <= n,
            forall|j: int| 0 <= j < i ==> k@[j] == p@[j],
        decreases n - i,
    {
        if k.get_char(i) != p.get_char(i) {
            assert(k@.subrange(0, n as int)[i as int] != p@[i as int]);
            return false;
        }
        i = i + 1;
    }
    assert(k@.subrange(0, n as int) =~= p@);
    true
}

/// `d` occurs in `s` at index `i`.
pub open spec fn occurs_at(s: Seq<char>, d: Seq<char>, i: int) -> bool {
    0 <= i && i + d.len() <= s.len() && s.subrange(i, i + d.len()) == d
}

/// The first index from `from` on at which `d` occurs in `s`, or -1.
pub open spec fn first_occurrence(s: Seq<char>, d: Seq<char>, from: int) -> int
    decreases s.len() + 1 - from,
{
    if from < 0 || from + d.len() > s.len() {
        -1
    } else if occurs_at(s, d, from) {
        from
    } else {
        first_occurrence(s, d, from + 1)
    }
}

fn occurs_at_exec(s: &str, d: &str, i: usize) -> (r: bool)
    requires
        i + d@.len() <= s@.len(),
    ensures
        r == occurs_at(s@, d@, i as int),
{
    let n = s.unicode_len();
    let m = d.unicode_len();
    let mut j: usize = 0;
    while j < m
        invariant
            n == s@.len(),
            m == d@.len(),
            i + m <= s@.len(),
            j <= m,
            forall|x: int| 0 <= x < j ==> s@[i + x] == d@[x],
        decreases m - j,
    {
        if s.get_char(i + j) != d.get_char(j) {
            assert(s@.subrange(i as int, i + m)[j as int] != d@[j as int]);
            return false;
        }
        j = j + 1;
    }
    assert(s@.subrange(i as int, i + m) =~= d@);
    true
}

/// The first index from `from` on at which `d` occurs in `s`.
pub(crate) fn find_from(s: &str, d: &str, from: usize) -> (r: Option<usize>)
    ensures
        match r {
            Some(i) => first_occurrence(s@, d@, from as int) == i as int,
            None => first_occurrence(s@, d@, from as int) < 0,
        },
{
    let n = s.unicode_len();
    let m = d.unicode_len();
    if from > n {
        return None;
    }
    if m == 0 {
        assert(s@.subrange(from as int, from as int) =~= d@);
        return Some(from);
    }
    let mut i: usize = from;
    while m <= n - i
        invariant
            n == s@.len(),
            m == d@.len(),
            m > 0,
            from <= i <= n,
            first_occurrence(s@, d@, from as int) == first_occurrence(s@, d@, i as int),
        decreases n - i,
    {
        if occurs_at_exec(s, d, i) {
            return Some(i);
        }
        i = i + 1;
    }
    None
}

} // verus!
