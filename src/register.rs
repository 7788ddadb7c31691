//! Memory-mapped 32-bit registers, described by their addresses. Register
//! access itself is volatile I/O and happens outside this crate; here a
//! register is an address, and a driver operation is the sequence of writes
//! it performs.
use vstd::prelude::*;

verus! {

/// A 32-bit register at a fixed address.
#[derive(Clone, Copy, Debug, PartialEq, Eq, Structural)]
pub struct Register {
    pub addr: u32,
}

/// A write of `value` to the register at `addr`.
#[derive(Clone, Copy, Debug, PartialEq, Eq, Structural)]
pub struct RegisterWrite {
    pub addr: u32,
    pub value: u32,
}

/// A register at `addr`; address 0 is never a register.
pub fn create_register(addr: u32) -> (r: Register)
    requires
        addr != 0,
    ensures
        r.addr == addr,
{
    Register { addr: addr }
}

impl Register {
    /// The register `offset` bytes after this one.
    pub fn offset(&self, offset: u32) -> (r: Register)
        requires
            self.addr + offset <= u32::MAX,
        ensures
            r.addr == self.addr + offset,
    {
        Register { addr: self.addr + offset }
    }

    /// The write of `data` to this register.
    pub fn write_of(&self, data: u32) -> (r: RegisterWrite)
        ensures
            r == (RegisterWrite { addr: self.addr, value: data }),
    {
        RegisterWrite { addr: self.addr, value: data }
    }
}

/// Bytes per data-cache line.
pub const CACHE_BYTES_PER_LINE: usize = 32;

/// The line addresses to flush for the range of `size` bytes at
/// `start_addr`: one per whole cache line, from the start, when the range
/// lies inside main memory `[mem_start, mem_end)`, and none otherwise.
pub open spec fn cache_lines(start_addr: int, size: int, mem_start: int, mem_end: int) -> Seq<
    usize,
> {
    if mem_start <= start_addr < mem_end && start_addr + size < mem_end {
        Seq::new(
            (size / CACHE_BYTES_PER_LINE as int) as nat,
            |i: int| (start_addr + i * CACHE_BYTES_PER_LINE) as usize,
        )
    } else {
        Seq::empty()
    }
}

/// The data-cache lines that a flush of `size` bytes at `start_addr` must
/// touch, with main memory at `[mem_start, mem_end)`.
pub fn data_cache_lines(start_addr: usize, size: usize, mem_start: usize, mem_end: usize) -> (r:
    Vec<usize>)
    ensures
        r@ == cache_lines(start_addr as int, size as int, mem_start as int, mem_end as int),
{
    let mut r: Vec<usize> = Vec::new();
    if start_addr >= mem_start && start_addr < mem_end && size < mem_end - start_addr {
        let count = size / CACHE_BYTES_PER_LINE;
        let mut i: usize = 0;
        while i < count
            invariant
                i <= count,
                count == size / CACHE_BYTES_PER_LINE,
                start_addr + size < mem_end,
                r@.len() == i,
                forall|j: int|
                    0 <= j < i ==> #[trigger] r@[j] == (start_addr + j * CACHE_BYTES_PER_LINE) as usize,
            decreases count - i,
        {
            assert(i * CACHE_BYTES_PER_LINE <= size) by (nonlinear_arith)
                requires
                    i < count,
                    count == size / CACHE_BYTES_PER_LINE,
            ;
            r.push(start_addr + i * CACHE_BYTES_PER_LINE);
            i = i + 1;
        }
        assert(r@ =~= cache_lines(start_addr as int, size as int, mem_start as int, mem_end as int));
    }
    r
}

} // verus!
