//! Copying a run of bytes from one buffer into another.

use vstd::prelude::*;

verus! {

/// `dest` with the `count` bytes starting at `dest_start` replaced by the
/// `count` bytes of `source` starting at `source_start`.
pub open spec fn overlay(
    dest: Seq<u8>,
    dest_start: int,
    source: Seq<u8>,
    source_start: int,
    count: int,
) -> Seq<u8> {
    Seq::new(
        dest.len(),
        |i: int|
            if dest_start <= i < dest_start + count {
                source[source_start + (i - dest_start)]
            } else {
                dest[i]
            },
    )
}

/// Copies `count` bytes from `source[source_start..]` to `dest[dest_start..]`
/// and leaves the rest of `dest` as it was.
pub fn copy_bytes(
    dest: &mut [u8],
    dest_start: usize,
    source: &[u8],
    source_start: usize,
    count: usize,
)
    requires
        dest_start + count <= old(dest)@.len(),
        source_start + count <= source@.len(),
    ensures
        final(dest)@ == overlay(
            old(dest)@,
            dest_start as int,
            source@,
            source_start as int,
            count as int,
        ),
{
    let dest_len = dest.len();
    let source_len = source.len();
    let mut i: usize = 0;
    while i < count
        invariant
            i <= count,
            dest_len == dest@.len(),
            source_len == source@.len(),
            dest_start + count <= dest_len,
            source_start + count <= source_len,
            dest@ == overlay(old(dest)@, dest_start as int, source@, source_start as int, i as int),
        decreases count - i,
    {
        dest[dest_start + i] = source[source_start + i];
        i += 1;
    }
}

} // verus!
