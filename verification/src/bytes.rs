//! Small helpers on byte buffers.

use vstd::prelude::*;

verus! {

/// Whether two buffers hold the same bytes.
pub(crate) fn bytes_eq(a: &[u8], b: &[u8]) -> (r: bool)
    ensures
        r == (a@ == b@),
{
    if a.len() != b.len() {
        return false;
    }
    let mut i: usize = 0;
    while i < a.len()
        invariant
            i <= a@.len(),
            a@.len() == b@.len(),
            forall|j: int| 0 <= j < i ==> a@[j] == b@[j],
        decreases a@.len() - i,
    {
        if a[i] != b[i] {
            return false;
        }
        i += 1;
    }
    assert(a@ =~= b@);
    true
}

/// The first `N` bytes of a buffer, as an array.
pub(crate) fn prefix<const N: usize>(bytes: &[u8]) -> (head: [u8; N])
    requires
        bytes@.len() >= N,
    ensures
        head@ == bytes@.subrange(0, N as int),
{
    let mut head: [u8; N] = vstd::array::array_fill_for_copy_types(0u8);
    let mut i: usize = 0;
    while i < N
        invariant
            i <= N,
            bytes@.len() >= N,
            head@.len() == N,
            forall|j: int| 0 <= j < i ==> head@[j] == bytes@[j],
        decreases N - i,
    {
        head[i] = bytes[i];
        i += 1;
    }
    assert(head@ =~= bytes@.subrange(0, N as int));
    head
}

/// The bytes of `bytes` from index `from` on, as a fresh vector.
pub(crate) fn tail(bytes: &[u8], from: usize) -> (rest: Vec<u8>)
    requires
        from <= bytes@.len(),
    ensures
        rest@ == bytes@.subrange(from as int, bytes@.len() as int),
{
    let mut rest: Vec<u8> = Vec::new();
    let mut i: usize = from;
    while i < bytes.len()
        invariant
            from <= i <= bytes@.len(),
            rest@ == bytes@.subrange(from as int, i as int),
        decreases bytes@.len() - i,
    {
        rest.push(bytes[i]);
        assert(rest@ =~= bytes@.subrange(from as int, i + 1));
        i += 1;
    }
    rest
}

/// A vector holding the bytes of `first` followed by those of `second`.
pub(crate) fn concat(first: &[u8], second: &[u8]) -> (joined: Vec<u8>)
    ensures
        joined@ == first@ + second@,
{
    let mut joined: Vec<u8> = Vec::new();
    let mut i: usize = 0;
    while i < first.len()
        invariant
            i <= first@.len(),
            joined@ == first@.subrange(0, i as int),
        decreases first@.len() - i,
    {
        joined.push(first[i]);
        assert(joined@ =~= first@.subrange(0, i + 1));
        i += 1;
    }
    assert(joined@ =~= first@);
    let mut j: usize = 0;
    while j < second.len()
        invariant
            j <= second@.len(),
            joined@ == first@ + second@.subrange(0, j as int),
        decreases second@.len() - j,
    {
        joined.push(second[j]);
        assert(joined@ =~= first@ + second@.subrange(0, j + 1));
        j += 1;
    }
    assert(joined@ =~= first@ + second@);
    joined
}

} // verus!
