//! A Game Boy (DMG) emulation core: cartridge mappers, the memory bus with its
//! timer and OAM DMA, the picture-processing unit and the SM83 CPU.
use vstd::prelude::*;

pub mod joypad;
pub mod mbc;
pub mod gpu;
pub mod memory;
pub mod cpu;
pub mod system;

verus! {

/// A vector of `n` zero bytes.
pub(crate) fn zeroed(n: usize) -> (r: Vec<u8>)
    ensures
        r@ == Seq::new(n as nat, |i: int| 0u8),
{
    let mut v: Vec<u8> = Vec::new();
    let mut i: usize = 0;
    while i < n
        invariant
            i <= n,
            v@ == Seq::new(i as nat, |k: int| 0u8),
        decreases n - i,
    {
        v.push(0);
        i = i + 1;
    }
    v
}

} // verus!
