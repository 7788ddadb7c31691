//! The timer peripherals: the countdown timer block and the CPU timer whose
//! deadline comparator drives the alarm queue. Both expose a 64-bit uptime
//! counter as two latched 32-bit halves.
use crate::register::{Register, RegisterWrite};
use vstd::prelude::*;

verus! {

/// The tick count that a latched pair of halves stands for.
pub open spec fn ticks_of(msb: u32, lsb: u32) -> int {
    msb as int * 0x1_0000_0000 + lsb as int
}

/// Composes the 64-bit uptime from its latched upper and lower halves.
pub fn uptime_from_halves(msb: u32, lsb: u32) -> (r: u64)
    ensures
        r == ticks_of(msb, lsb),
{
    assert((msb as u64) * 0x1_0000_0000u64 <= 0xffff_ffff_0000_0000u64) by (nonlinear_arith)
        requires
            msb <= 0xffff_ffffu32,
    ;
    (msb as u64) * 0x1_0000_0000u64 + (lsb as u64)
}

/// The clock orders as its latched halves do, upper half first: a counter
/// that never runs backwards gives a clock that never runs backwards.
pub proof fn lemma_ticks_monotonic(msb1: u32, lsb1: u32, msb2: u32, lsb2: u32)
    requires
        msb1 < msb2 || (msb1 == msb2 && lsb1 <= lsb2),
    ensures
        ticks_of(msb1, lsb1) <= ticks_of(msb2, lsb2),
{
    if msb1 < msb2 {
        assert(msb1 as int * 0x1_0000_0000 + 0x1_0000_0000 <= msb2 as int * 0x1_0000_0000)
            by (nonlinear_arith)
            requires
                msb1 < msb2,
        ;
    }
}

/// Relies on `embassy_time_driver::TICK_HZ`: the tick rate of the time base
/// that the build selected, which is at least 1 in every selection.
#[verifier::external_body]
fn tick_hz() -> (r: u64)
    ensures
        r >= 1,
{
    embassy_time_driver::TICK_HZ
}

/// `ticks` scaled by `hz` and divided by a million, when the product fits.
pub open spec fn micros_of(ticks: int, hz: int) -> Option<u64> {
    if ticks * hz <= u64::MAX {
        Some(((ticks * hz) / 1_000_000) as u64)
    } else {
        None
    }
}

/// Scales `ticks` by the tick rate `hz` and divides by a million; `None`
/// when the product overflows.
pub fn ticks_to_micros(ticks: u64, hz: u64) -> (r: Option<u64>)
    ensures
        r == micros_of(ticks as int, hz as int),
{
    match ticks.checked_mul(hz) {
        Some(p) => Some(p / 1_000_000),
        None => None,
    }
}

/// The registers of the countdown timer block.
#[derive(Clone, Copy, Debug)]
pub struct TimerRegisters {
    /// Load value when the timer is (re-)enabled; the one-shot duration.
    pub load: Register,
    /// Reload value when the timer reaches zero; the period.
    pub reload: Register,
    /// Enable flag; 1 starts the timer, 0 stops it.
    pub en: Register,
    /// A write latches the current countdown into `value`.
    pub update_value: Register,
    /// Latched countdown value.
    pub value: Register,
    /// Raw level of the zero event.
    pub ev_status: Register,
    /// Pending zero events; write a bit to clear it.
    pub ev_pending: Register,
    /// Enabled zero events.
    pub ev_enable: Register,
    /// A write of 1 latches the uptime into the two halves below.
    pub uptime_latch: Register,
    /// Upper half of the latched uptime.
    pub uptime_cycles1: Register,
    /// Lower half of the latched uptime.
    pub uptime_cycles0: Register,
}

/// The countdown timer block.
#[derive(Clone, Copy, Debug)]
pub struct Timer {
    pub registers: TimerRegisters,
    pub initialized: bool,
}

/// The register layout of a timer block at `base`.
pub open spec fn timer_layout(r: TimerRegisters, base: int) -> bool {
    &&& r.load.addr == base
    &&& r.reload.addr == base + 0x04
    &&& r.en.addr == base + 0x08
    &&& r.update_value.addr == base + 0x0c
    &&& r.value.addr == base + 0x10
    &&& r.ev_status.addr == base + 0x14
    &&& r.ev_pending.addr == base + 0x18
    &&& r.ev_enable.addr == base + 0x1c
    &&& r.uptime_latch.addr == base + 0x20
    &&& r.uptime_cycles1.addr == base + 0x24
    &&& r.uptime_cycles0.addr == base + 0x28
}

impl Timer {
    /// The timer block at `base_addr`; it counts as initialized when the
    /// address is not 0.
    pub fn create_timer(base_addr: u32) -> (r: Timer)
        requires
            base_addr <= u32::MAX - 0x28,
        ensures
            timer_layout(r.registers, base_addr as int),
            r.initialized == (base_addr != 0),
    {
        let base = Register { addr: base_addr };
        Timer {
            initialized: base_addr != 0,
            registers: TimerRegisters {
                load: base.offset(0x00),
                reload: base.offset(0x04),
                en: base.offset(0x08),
                update_value: base.offset(0x0c),
                value: base.offset(0x10),
                ev_status: base.offset(0x14),
                ev_pending: base.offset(0x18),
                ev_enable: base.offset(0x1c),
                uptime_latch: base.offset(0x20),
                uptime_cycles1: base.offset(0x24),
                uptime_cycles0: base.offset(0x28),
            },
        }
    }

    /// Zero events are not used: the scheduling alarm runs on the CPU timer,
    /// so enabling the interrupt of this block does nothing.
    pub fn enable_irq(&self) {
    }

    /// The countdown is left running; stopping does nothing.
    pub fn stop(&self) {
    }

    /// The writes that start a one-shot countdown of `timeout` cycles:
    /// disable, clear the reload, load the timeout, enable, latch the value.
    pub fn start(&self, timeout: u32) -> (r: Vec<RegisterWrite>)
        ensures
            r@ == seq![
                RegisterWrite { addr: self.registers.en.addr, value: 0 },
                RegisterWrite { addr: self.registers.reload.addr, value: 0 },
                RegisterWrite { addr: self.registers.load.addr, value: timeout },
                RegisterWrite { addr: self.registers.en.addr, value: 1 },
                RegisterWrite { addr: self.registers.update_value.addr, value: 1 },
            ],
    {
        let mut r: Vec<RegisterWrite> = Vec::new();
        r.push(self.registers.en.write_of(0));
        r.push(self.registers.reload.write_of(0));
        r.push(self.registers.load.write_of(timeout));
        r.push(self.registers.en.write_of(1));
        r.push(self.registers.update_value.write_of(1));
        assert(r@ =~= seq![
            RegisterWrite { addr: self.registers.en.addr, value: 0 },
            RegisterWrite { addr: self.registers.reload.addr, value: 0 },
            RegisterWrite { addr: self.registers.load.addr, value: timeout },
            RegisterWrite { addr: self.registers.en.addr, value: 1 },
            RegisterWrite { addr: self.registers.update_value.addr, value: 1 },
        ]);
        r
    }

    /// The uptime in cycles, from the halves read from `uptime_cycles1` and
    /// `uptime_cycles0` after a write of 1 to `uptime_latch`.
    pub fn uptime_clk(&self, msb: u32, lsb: u32) -> (r: u64)
        ensures
            r == ticks_of(msb, lsb),
    {
        uptime_from_halves(msb, lsb)
    }

    /// The uptime from the latched halves, scaled by the tick rate of the
    /// time base; `None` when that overflows.
    pub fn uptime_micros(&self, msb: u32, lsb: u32) -> (r: Option<u64>)
        ensures
            exists|hz: u64| hz >= 1 && r == micros_of(ticks_of(msb, lsb), hz as int),
    {
        let hz = tick_hz();
        ticks_to_micros(self.uptime_clk(msb, lsb), hz)
    }
}

/// The CPU timer: a latched 64-bit time and a 64-bit deadline comparator.
#[derive(Clone, Copy, Debug)]
pub struct VexRiscvTimer {
    pub latch: Register,
    pub time_lsb: Register,
    pub time_msb: Register,
    pub compare_lsb: Register,
    pub compare_msb: Register,
}

impl VexRiscvTimer {
    /// The CPU timer with its registers at the given addresses.
    pub fn create(
        latch: u32,
        time_lsb: u32,
        time_msb: u32,
        compare_lsb: u32,
        compare_msb: u32,
    ) -> (r: VexRiscvTimer)
        ensures
            r.latch.addr == latch,
            r.time_lsb.addr == time_lsb,
            r.time_msb.addr == time_msb,
            r.compare_lsb.addr == compare_lsb,
            r.compare_msb.addr == compare_msb,
    {
        VexRiscvTimer {
            latch: Register { addr: latch },
            time_lsb: Register { addr: time_lsb },
            time_msb: Register { addr: time_msb },
            compare_lsb: Register { addr: compare_lsb },
            compare_msb: Register { addr: compare_msb },
        }
    }

    /// The writes that arm the comparator for `end`: its lower half, its
    /// upper half, then the latch.
    pub fn set(&self, end: u64) -> (r: Vec<RegisterWrite>)
        ensures
            r@.len() == 3,
            r@[0].addr == self.compare_lsb.addr,
            r@[1].addr == self.compare_msb.addr,
            r@[2] == (RegisterWrite { addr: self.latch.addr, value: 1 }),
            ticks_of(r@[1].value, r@[0].value) == end,
    {
        let lsb = (end & 0xffff_ffffu64) as u32;
        let msb = (end >> 32u64) as u32;
        assert(msb as int * 0x1_0000_0000 + lsb as int == end) by (bit_vector)
            requires
                lsb == (end & 0xffff_ffffu64) as u32,
                msb == (end >> 32u64) as u32,
        ;
        let mut r: Vec<RegisterWrite> = Vec::new();
        r.push(self.compare_lsb.write_of(lsb));
        r.push(self.compare_msb.write_of(msb));
        r.push(self.latch.write_of(1));
        r
    }

    /// The writes that disarm the comparator: both halves at their maximum.
    pub fn stop(&self) -> (r: Vec<RegisterWrite>)
        ensures
            r@ == seq![
                RegisterWrite { addr: self.compare_lsb.addr, value: u32::MAX },
                RegisterWrite { addr: self.compare_msb.addr, value: u32::MAX },
            ],
    {
        let mut r: Vec<RegisterWrite> = Vec::new();
        r.push(self.compare_lsb.write_of(u32::MAX));
        r.push(self.compare_msb.write_of(u32::MAX));
        assert(r@ =~= seq![
            RegisterWrite { addr: self.compare_lsb.addr, value: u32::MAX },
            RegisterWrite { addr: self.compare_msb.addr, value: u32::MAX },
        ]);
        r
    }

    /// The time in cycles, from the halves read from `time_msb` and
    /// `time_lsb` after a write of 1 to `latch`.
    pub fn uptime_clk(&self, msb: u32, lsb: u32) -> (r: u64)
        ensures
            r == ticks_of(msb, lsb),
    {
        uptime_from_halves(msb, lsb)
    }

    /// The time from the latched halves, scaled by the tick rate of the time
    /// base; `None` when that overflows.
    pub fn uptime_micros(&self, msb: u32, lsb: u32) -> (r: Option<u64>)
        ensures
            exists|hz: u64| hz >= 1 && r == micros_of(ticks_of(msb, lsb), hz as int),
    {
        let hz = tick_hz();
        ticks_to_micros(self.uptime_clk(msb, lsb), hz)
    }
}

} // verus!
