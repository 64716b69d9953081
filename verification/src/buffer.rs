//! The bounded byte area that receives an encoding.

use vstd::prelude::*;

verus! {

/// The number of bytes that the encoded buffer holds.
pub const CAPACITY: usize = 1024;

/// How many bytes of an encoding of `len` bytes reach the buffer: all of
/// them, or the first `CAPACITY` when there are more.
pub open spec fn copied_len(len: nat) -> nat {
    if len <= CAPACITY {
        len
    } else {
        CAPACITY as nat
    }
}

/// The buffer after `src` was laid over `before`: the bytes of `src` from the
/// start, as far as both reach, and behind them the bytes that `before` held.
pub open spec fn overlay(before: Seq<u8>, src: Seq<u8>) -> Seq<u8> {
    Seq::new(
        before.len(),
        |i: int|
            if i < src.len() {
                src[i]
            } else {
                before[i]
            },
    )
}

/// Copies `src` to the start of `dst` and returns the number of bytes copied.
/// An encoding longer than the buffer is cut to `CAPACITY` bytes without an
/// error. Bytes of `dst` behind the copied ones stay as they were: only the
/// returned length says what is valid.
pub fn copy_prefix(dst: &mut [u8; CAPACITY], src: &[u8]) -> (len: usize)
    ensures
        len == copied_len(src@.len()),
        final(dst)@ == overlay(old(dst)@, src@),
{
    let ghost before = dst@;
    let len: usize = if src.len() < CAPACITY {
        src.len()
    } else {
        CAPACITY
    };
    let mut i: usize = 0;
    while i < len
        invariant
            i <= len,
            len <= CAPACITY,
            len <= src@.len(),
            before.len() == CAPACITY,
            dst@.len() == CAPACITY,
            forall|j: int| 0 <= j < i ==> dst@[j] == src@[j],
            forall|j: int| i <= j < CAPACITY ==> dst@[j] == before[j],
        decreases len - i,
    {
        dst[i] = src[i];
        i += 1;
    }
    assert(dst@ =~= overlay(before, src@));
    len
}

} // verus!
