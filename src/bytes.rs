use vstd::prelude::*;

verus! {

/// Whether two byte strings are equal.
pub(crate) fn bytes_eq(a: &Vec<u8>, b: &Vec<u8>) -> (r: bool)
    ensures
        r == (a@ == b@),
{
    if a.len() != b.len() {
        return false;
    }
    let mut i: usize = 0;
    while i < a.len()
        invariant
            a@.len() == b@.len(),
            i <= a@.len(),
            forall|j: int| 0 <= j < i ==> a@[j] == b@[j],
        decreases a@.len() - i,
    {
        if a[i] != b[i] {
            return false;
        }
        i = i + 1;
    }
    assert(a@ =~= b@);
    true
}

/// A copy of the first `n` bytes of `data`, or of all of them where it is shorter.
pub(crate) fn prefix_of(data: &Vec<u8>, n: usize) -> (r: Vec<u8>)
    ensures
        r@ == data@.subrange(0, if data@.len() < n { data@.len() as int } else { n as int }),
{
    let end: usize = if data.len() < n {
        data.len()
    } else {
        n
    };
    let mut out: Vec<u8> = Vec::new();
    let mut i: usize = 0;
    while i < end
        invariant
            end <= data@.len(),
            i <= end,
            out@ == data@.subrange(0, i as int),
        decreases end - i,
    {
        out.push(data[i]);
        i = i + 1;
    }
    out
}

/// A copy of `data`.
pub(crate) fn copy_bytes(data: &Vec<u8>) -> (r: Vec<u8>)
    ensures
        r@ == data@,
{
    let r = prefix_of(data, data.len());
    assert(data@.subrange(0, data@.len() as int) =~= data@);
    r
}

/// A copy of the bytes `start..=end` of `buf`.
pub(crate) fn copy_range(buf: &Vec<u8>, start: usize, end: usize) -> (r: Vec<u8>)
    requires
        start <= end < buf@.len(),
    ensures
        r@ == buf@.subrange(start as int, end + 1),
{
    let mut out: Vec<u8> = Vec::new();
    let n = buf.len();
    let mut i: usize = start;
    while i <= end
        invariant
            start <= i <= end + 1,
            end < n == buf@.len(),
            out@ == buf@.subrange(start as int, i as int),
        decreases end + 1 - i,
    {
        out.push(buf[i]);
        i = i + 1;
    }
    out
}

} // verus!
