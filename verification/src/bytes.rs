//! Small operations on byte strings.

use vstd::prelude::*;

verus! {

/// Whether `pattern` stands in `data` at `offset`.
pub open spec fn occurs_at(data: Seq<u8>, offset: int, pattern: Seq<u8>) -> bool {
    0 <= offset && offset + pattern.len() <= data.len() && data.subrange(
        offset,
        offset + pattern.len(),
    ) == pattern
}

/// A copy of the bytes from `from` up to, not including, `to`.
pub fn slice_bytes(data: &Vec<u8>, from: usize, to: usize) -> (out: Vec<u8>)
    requires
        from <= to <= data@.len(),
    ensures
        out@ == data@.subrange(from as int, to as int),
{
    let mut out: Vec<u8> = Vec::new();
    let mut i: usize = from;
    while i < to
        invariant
            from <= i <= to <= data@.len(),
            out@ == data@.subrange(from as int, i as int),
        decreases to - i,
    {
        out.push(data[i]);
        i += 1;
        assert(out@ =~= data@.subrange(from as int, i as int));
    }
    out
}

/// A copy of `data`.
pub fn copy_bytes(data: &Vec<u8>) -> (out: Vec<u8>)
    ensures
        out@ == data@,
{
    let out = slice_bytes(data, 0, data.len());
    assert(data@.subrange(0, data@.len() as int) =~= data@);
    out
}

/// Appends `tail` to `head`.
pub fn append_bytes(head: &mut Vec<u8>, tail: &Vec<u8>)
    ensures
        final(head)@ == old(head)@ + tail@,
{
    let mut i: usize = 0;
    while i < tail.len()
        invariant
            i <= tail@.len(),
            head@ == old(head)@ + tail@.subrange(0, i as int),
        decreases tail@.len() - i,
    {
        head.push(tail[i]);
        i += 1;
        assert(head@ =~= old(head)@ + tail@.subrange(0, i as int));
    }
    assert(tail@.subrange(0, tail@.len() as int) =~= tail@);
}

/// Whether `pattern` stands in `data` at `offset`.
pub fn matches_at(data: &Vec<u8>, offset: usize, pattern: &Vec<u8>) -> (found: bool)
    ensures
        found == occurs_at(data@, offset as int, pattern@),
{
    if offset > data.len() || pattern.len() > data.len() - offset {
        return false;
    }
    let mut i: usize = 0;
    while i < pattern.len()
        invariant
            i <= pattern@.len(),
            offset + pattern@.len() <= data@.len() <= usize::MAX,
            forall|k: int| 0 <= k < i ==> data@[offset + k] == pattern@[k],
        decreases pattern@.len() - i,
    {
        if data[offset + i] != pattern[i] {
            let ghost k = i as int;
            assert(data@.subrange(offset as int, offset + pattern@.len())[k] == data@[offset + k]);
            return false;
        }
        i += 1;
    }
    assert(data@.subrange(offset as int, offset + pattern@.len()) =~= pattern@);
    true
}

/// Whether two byte strings are equal.
pub fn same_bytes(a: &Vec<u8>, b: &Vec<u8>) -> (same: bool)
    ensures
        same == (a@ == b@),
{
    if a.len() != b.len() {
        return false;
    }
    let found = matches_at(a, 0, b);
    assert(a@.subrange(0, a@.len() as int) =~= a@);
    found
}

} // verus!
