use vstd::prelude::*;
use vstd::string::StrSliceExecFns;

use crate::error::Error;

verus! {

/// An ASCII decimal digit.
pub open spec fn is_digit(c: char) -> bool {
    '0' <= c && c <= '9'
}

pub open spec fn digit_value(c: char) -> nat {
    (c as int - '0' as int) as nat
}

/// The number that a string of decimal digits denotes, most significant first.
pub open spec fn decimal_value(d: Seq<char>) -> nat
    decreases d.len(),
{
    if d.len() == 0 {
        0
    } else {
        decimal_value(d.drop_last()) * 10 + digit_value(d.last())
    }
}

/// The digits of a number token, after an optional leading `+`.
pub open spec fn unsigned_digits(t: Seq<char>) -> Seq<char> {
    if t.len() > 0 && t[0] == '+' {
        t.drop_first()
    } else {
        t
    }
}

/// A token that reads as a `u64`: an optional `+`, then one or more digits
/// whose value fits in 64 bits.
pub open spec fn is_u64_text(t: Seq<char>) -> bool {
    let d = unsigned_digits(t);
    &&& d.len() > 0
    &&& forall|i: int| 0 <= i < d.len() ==> is_digit(#[trigger] d[i])
    &&& decimal_value(d) <= u64::MAX
}

pub open spec fn u64_text_value(t: Seq<char>) -> nat {
    decimal_value(unsigned_digits(t))
}

/// `s` holds exactly one `-`, at index `i`.
pub open spec fn single_dash_at(s: Seq<char>, i: int) -> bool {
    &&& 0 <= i < s.len()
    &&& s[i] == '-'
    &&& forall|j: int| 0 <= j < s.len() && j != i ==> #[trigger] s[j] != '-'
}

pub open spec fn has_single_dash(s: Seq<char>) -> bool {
    exists|i: int| single_dash_at(s, i)
}

pub open spec fn dash_index(s: Seq<char>) -> int {
    choose|i: int| single_dash_at(s, i)
}

/// The inclusive range `start..=end`, if it lies within an object of `size` bytes.
pub open spec fn bounded(start: int, end: int, size: u64) -> Result<(u64, u64), Error> {
    if start > end || end >= size {
        Err(Error::InvalidRange)
    } else {
        Ok((start as u64, end as u64))
    }
}

/// The inclusive byte range that the spec `s` selects from an object of `size` bytes.
///
/// `A-B` is taken as given and must lie inside the object; `A-` runs to the end;
/// `-B` is the last `B` bytes, or the whole object where `B` exceeds it; `` and
/// `-` are the whole object.
pub open spec fn range_spec(s: Seq<char>, size: u64) -> Result<(u64, u64), Error> {
    if s.len() == 0 {
        bounded(0, size - 1, size)
    } else if !has_single_dash(s) {
        Err(Error::InvalidRangeFormat)
    } else {
        let i = dash_index(s);
        let a = s.subrange(0, i);
        let b = s.subrange(i + 1, s.len() as int);
        if (a.len() > 0 && !is_u64_text(a)) || (b.len() > 0 && !is_u64_text(b)) {
            Err(Error::InvalidRangeNumber)
        } else if a.len() > 0 && b.len() > 0 {
            bounded(u64_text_value(a) as int, u64_text_value(b) as int, size)
        } else if a.len() > 0 {
            bounded(u64_text_value(a) as int, size - 1, size)
        } else if b.len() > 0 {
            if u64_text_value(b) > size {
                bounded(0, size - 1, size)
            } else {
                bounded(size - u64_text_value(b), size - 1, size)
            }
        } else {
            bounded(0, size - 1, size)
        }
    }
}

proof fn lemma_decimal_prefix_le(d: Seq<char>, k: int)
    requires
        0 <= k <= d.len(),
    ensures
        decimal_value(d.subrange(0, k)) <= decimal_value(d),
    decreases d.len(),
{
    if k == d.len() {
        assert(d.subrange(0, k) =~= d);
    } else {
        lemma_decimal_prefix_le(d.drop_last(), k);
        assert(d.drop_last().subrange(0, k) =~= d.subrange(0, k));
    }
}

/// Reads the characters `from..to` of `s` as a `u64`, as `u64::from_str` does.
fn parse_u64_token(s: &str, from: usize, to: usize) -> (r: Option<u64>)
    requires
        from <= to <= s@.len(),
    ensures
        r is Some <==> is_u64_text(s@.subrange(from as int, to as int)),
        r is Some ==> r->0 == u64_text_value(s@.subrange(from as int, to as int)),
{
    let ghost t = s@.subrange(from as int, to as int);
    let mut i: usize = from;
    if i < to && s.get_char(i) == '+' {
        i = i + 1;
    }
    let start: usize = i;
    let ghost d = s@.subrange(start as int, to as int);
    assert(unsigned_digits(t) =~= d);
    if start == to {
        return None;
    }
    let mut v: u64 = 0;
    while i < to
        invariant
            from <= start <= i <= to <= s@.len(),
            d == s@.subrange(start as int, to as int),
            d == unsigned_digits(t),
            t == s@.subrange(from as int, to as int),
            forall|j: int| start <= j < i ==> is_digit(#[trigger] s@[j]),
            v == decimal_value(s@.subrange(start as int, i as int)),
        decreases to - i,
    {
        let c = s.get_char(i);
        assert(s@.subrange(start as int, i as int + 1).drop_last() =~= s@.subrange(
            start as int,
            i as int,
        ));
        if c < '0' || c > '9' {
            assert(d[i - start] == c);
            assert(!is_digit(d[i - start]));
            return None;
        }
        let dg: u64 = (c as u32 - '0' as u32) as u64;
        assert(decimal_value(s@.subrange(start as int, i as int + 1)) == v * 10 + dg);
        match v.checked_mul(10) {
            None => {
                proof {
                    lemma_decimal_prefix_le(d, i - start + 1);
                    assert(d.subrange(0, i - start + 1) =~= s@.subrange(start as int, i as int + 1));
                }
                return None;
            },
            Some(m) => match m.checked_add(dg) {
                None => {
                    proof {
                        lemma_decimal_prefix_le(d, i - start + 1);
                        assert(d.subrange(0, i - start + 1) =~= s@.subrange(
                            start as int,
                            i as int + 1,
                        ));
                    }
                    return None;
                },
                Some(n) => {
                    v = n;
                },
            },
        }
        i = i + 1;
    }
    assert(s@.subrange(start as int, i as int) =~= d);
    Some(v)
}

/// Where `s` holds exactly one `-`, its index.
fn find_single_dash(s: &str) -> (r: Option<usize>)
    ensures
        r is Some <==> has_single_dash(s@),
        r is Some ==> single_dash_at(s@, r->0 as int),
{
    let n = s.unicode_len();
    let mut i: usize = 0;
    let mut p: usize = n;
    while i < n && p == n
        invariant
            i <= n == s@.len(),
            p == n || (p < i && s@[p as int] == '-'),
            forall|j: int| 0 <= j < i && (p == n || j < p) ==> #[trigger] s@[j] != '-',
        decreases n - i,
    {
        if s.get_char(i) == '-' {
            p = i;
        }
        i = i + 1;
    }
    if p == n {
        assert forall|k: int| !single_dash_at(s@, k) by {
            if 0 <= k < s@.len() {
                assert(s@[k] != '-');
            }
        }
        return None;
    }
    i = p + 1;
    while i < n
        invariant
            p < i <= n == s@.len(),
            s@[p as int] == '-',
            forall|j: int| 0 <= j < p ==> #[trigger] s@[j] != '-',
            forall|j: int| p < j < i ==> #[trigger] s@[j] != '-',
        decreases n - i,
    {
        if s.get_char(i) == '-' {
            assert forall|k: int| !single_dash_at(s@, k) by {
                if single_dash_at(s@, k) {
                    assert(s@[i as int] != '-' || k == i);
                    assert(s@[p as int] != '-' || k == p);
                }
            }
            return None;
        }
        i = i + 1;
    }
    assert(single_dash_at(s@, p as int));
    Some(p)
}

/// Parses a textual byte range against an object of `size` bytes into the
/// inclusive bounds `(start, end)`.
pub fn parse_range(range: String, size: u64) -> (r: Result<(u64, u64), Error>)
    ensures
        r == range_spec(range@, size),
        r is Ok ==> r->Ok_0.0 <= r->Ok_0.1 < size,
{
    let s = range.as_str();
    let n = s.unicode_len();
    if n == 0 {
        if size == 0 {
            return Err(Error::InvalidRange);
        }
        return Ok((0, size - 1));
    }
    let p = match find_single_dash(s) {
        None => {
            return Err(Error::InvalidRangeFormat);
        },
        Some(p) => p,
    };
    let ghost a = s@.subrange(0, p as int);
    let ghost b = s@.subrange(p + 1, n as int);
    assert(dash_index(s@) == p) by {
        let q = dash_index(s@);
        assert(single_dash_at(s@, q));
        if q != p {
            assert(s@[q] != '-');
        }
    }
    let first = if p > 0 {
        match parse_u64_token(s, 0, p) {
            None => {
                return Err(Error::InvalidRangeNumber);
            },
            Some(v) => Some(v),
        }
    } else {
        None
    };
    let last = if p + 1 < n {
        match parse_u64_token(s, p + 1, n) {
            None => {
                return Err(Error::InvalidRangeNumber);
            },
            Some(v) => Some(v),
        }
    } else {
        None
    };
    if size == 0 {
        return Err(Error::InvalidRange);
    }
    let (start, end): (u64, u64) = match (first, last) {
        (Some(a), Some(b)) => (a, b),
        (Some(a), None) => (a, size - 1),
        (None, Some(b)) => {
            if b > size {
                (0, size - 1)
            } else {
                (size - b, size - 1)
            }
        },
        (None, None) => (0, size - 1),
    };
    if start > end || end >= size {
        return Err(Error::InvalidRange);
    }
    Ok((start, end))
}

} // verus!
