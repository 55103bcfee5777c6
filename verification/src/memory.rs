//! A flat 64 KiB memory array seeded from a ROM image: a stub for the
//! address space, with no mapping logic yet.

use vstd::prelude::*;

verus! {

/// A flat 64 KiB memory array.
pub struct Memory {
    /// The whole address space as one array.
    pub data: [u8; 0x10000],
}

impl Memory {
    /// Builds the memory with the ROM image copied to the bottom and every
    /// byte above it zero. The image must fit in the address space.
    pub fn new(rom: &[u8]) -> (m: Memory)
        requires
            rom@.len() <= 0x10000,
        ensures
            forall|i: int| 0 <= i < rom@.len() ==> m.data@[i] == rom@[i],
            forall|i: int| rom@.len() <= i < 0x10000 ==> m.data@[i] == 0,
    {
        let mut data: [u8; 0x10000] = [0u8; 0x10000];
        let n = rom.len();
        let mut i: usize = 0;
        while i < n
            invariant
                i <= n,
                n == rom@.len() <= 0x10000,
                forall|j: int| 0 <= j < i ==> data@[j] == rom@[j],
                forall|j: int| i <= j < 0x10000 ==> data@[j] == 0,
            decreases n - i,
        {
            data[i] = rom[i];
            i = i + 1;
        }
        Memory { data }
    }
}

} // verus!
