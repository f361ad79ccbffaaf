//! The buffer-exchange interface of the host boundary: the host obtains a
//! buffer, writes one resource description into it, and hands it back for
//! evaluation. With ordinary ownership in place of raw memory, a buffer is a
//! `Vec<u8>`: `allocate` reserves it and transfers ownership to the caller,
//! and `deallocate` takes ownership back and releases it exactly once.

use vstd::prelude::*;

verus! {

/// Reserves a buffer of `size` bytes, zero-filled, and transfers its
/// ownership to the caller, who must later release it.
pub fn allocate(size: usize) -> (buf: Vec<u8>)
    ensures
        buf@.len() == size,
        forall|i: int| 0 <= i < buf@.len() ==> buf@[i] == 0,
{
    let mut buf: Vec<u8> = Vec::new();
    while buf.len() < size
        invariant
            buf@.len() <= size,
            forall|i: int| 0 <= i < buf@.len() ==> buf@[i] == 0,
        decreases size - buf@.len(),
    {
        buf.push(0);
    }
    buf
}

/// Releases a buffer obtained from [`allocate`]. Taking the buffer by value
/// consumes it, so a released buffer cannot be released twice nor used after
/// release.
pub fn deallocate(buf: Vec<u8>) {
    let _ = buf;
}

} // verus!
