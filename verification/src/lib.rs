//! Verified core of a handheld-console emulator: the address bus with its
//! banked work RAM, the two DMA transfer engines, the interrupt aggregation
//! and speed switching, the keypad, and the per-frame mirror snapshot.

pub mod device;
pub mod gbmode;
pub mod gpu;
pub mod keypad;
pub mod mbc;
pub mod mirror;
pub mod mmu;
pub mod serial;
pub mod sound;
pub mod timer;

use vstd::prelude::*;

verus! {

/// Errors are reported as static strings, as the surrounding emulator does.
pub type StrResult<T> = Result<T, &'static str>;

/// A zero-filled byte buffer of the given length.
pub(crate) fn zero_vec(n: usize) -> (r: Vec<u8>)
    ensures
        r@.len() == n,
        forall|i: int| 0 <= i < n ==> r@[i] == 0,
{
    let mut v: Vec<u8> = Vec::new();
    let mut i: usize = 0;
    while i < n
        invariant
            i <= n,
            v@.len() == i,
            forall|j: int| 0 <= j < i ==> v@[j] == 0,
        decreases n - i,
    {
        v.push(0);
        i += 1;
    }
    v
}

} // verus!
