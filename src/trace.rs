//! Fault diagnostics: the register snapshot of a trap frame and the checks
//! that keep the frame-pointer walk inside the stack.
use vstd::prelude::*;

verus! {

/// Lowest address the frame-pointer walk may read.
pub const STACK_WALK_LOW: u32 = 0x1000_0000;

/// Highest address the frame-pointer walk may read.
pub const STACK_WALK_HIGH: u32 = 0x1002_0000;

/// A frame pointer must be 16-byte aligned.
pub fn is_addr_aligned(address: u32) -> (r: bool)
    ensures
        r == (address % 16 == 0),
{
    let low = address & 0xfu32;
    assert(low == address % 16) by (bit_vector)
        requires
            low == address & 0xfu32,
    ;
    low == 0
}

/// A frame pointer must lie in the stack region the walk may read.
pub fn is_addr_valid(address: u32) -> (r: bool)
    ensures
        r == (STACK_WALK_LOW <= address <= STACK_WALK_HIGH),
{
    STACK_WALK_LOW <= address && address <= STACK_WALK_HIGH
}

/// The registers saved when a trap is taken.
#[derive(Clone, Copy, Debug)]
pub struct TrapFrame {
    /// Return address.
    pub ra: usize,
    /// Temporary registers.
    pub t0: usize,
    pub t1: usize,
    pub t2: usize,
    pub t3: usize,
    pub t4: usize,
    pub t5: usize,
    pub t6: usize,
    /// Argument registers.
    pub a0: usize,
    pub a1: usize,
    pub a2: usize,
    pub a3: usize,
    pub a4: usize,
    pub a5: usize,
    pub a6: usize,
    pub a7: usize,
    /// Saved registers.
    pub s0: usize,
    pub s1: usize,
    pub s2: usize,
    pub s3: usize,
    pub s4: usize,
    pub s5: usize,
    pub s6: usize,
    pub s7: usize,
    pub s8: usize,
    pub s9: usize,
    pub s10: usize,
    pub s11: usize,
    /// Global pointer.
    pub gp: usize,
    /// Thread pointer.
    pub tp: usize,
    /// Stack pointer.
    pub sp: usize,
    /// Program counter.
    pub pc: usize,
    /// Machine status register.
    pub mstatus: usize,
    /// Machine cause register.
    pub mcause: usize,
    /// Machine trap value register.
    pub mtval: usize,
}

} // verus!
