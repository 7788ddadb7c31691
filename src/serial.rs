//! The UART: its register block, the decisions of its receive interrupt, and
//! the line prefixes of the serial logger.
use crate::register::{Register, RegisterWrite};
use vstd::prelude::*;

verus! {

/// Event bit of a completed transmission.
pub const SERIAL_EVENT_TX: u32 = 0x1;

/// Event bit of a received byte.
pub const SERIAL_EVENT_RX: u32 = 0x2;

/// The registers of a UART.
#[derive(Clone, Copy, Debug)]
pub struct UartRegisters {
    /// Received byte on read, byte to send on write.
    pub rxtx: Register,
    /// Transmit FIFO full.
    pub txfull: Register,
    /// Receive FIFO empty.
    pub rxempty: Register,
    /// Raw level of the receive event.
    pub ev_status: Register,
    /// Pending events; write a bit to clear it.
    pub ev_pending: Register,
    /// Enabled events.
    pub ev_enable: Register,
    /// Transmit FIFO empty.
    pub txempty: Register,
    /// Receive FIFO full.
    pub rxfull: Register,
}

impl UartRegisters {
    /// The register block of the UART at `base_addr`.
    pub fn new(base_addr: u32) -> (r: UartRegisters)
        requires
            base_addr <= u32::MAX - 0x1c,
        ensures
            r.rxtx.addr == base_addr,
            r.txfull.addr == base_addr + 0x04,
            r.rxempty.addr == base_addr + 0x08,
            r.ev_status.addr == base_addr + 0x0c,
            r.ev_pending.addr == base_addr + 0x10,
            r.ev_enable.addr == base_addr + 0x14,
            r.txempty.addr == base_addr + 0x18,
            r.rxfull.addr == base_addr + 0x1c,
    {
        let base = Register { addr: base_addr };
        UartRegisters {
            rxtx: base.offset(0x00),
            txfull: base.offset(0x04),
            rxempty: base.offset(0x08),
            ev_status: base.offset(0x0c),
            ev_pending: base.offset(0x10),
            ev_enable: base.offset(0x14),
            txempty: base.offset(0x18),
            rxfull: base.offset(0x1c),
        }
    }

    /// The writes that reset the UART's events at boot: acknowledge both
    /// events, then disable them.
    pub fn clean_boot(&self) -> (r: Vec<RegisterWrite>)
        ensures
            r@ == seq![
                RegisterWrite { addr: self.ev_pending.addr, value: SERIAL_EVENT_RX },
                RegisterWrite { addr: self.ev_pending.addr, value: SERIAL_EVENT_TX },
                RegisterWrite { addr: self.ev_enable.addr, value: 0 },
            ],
    {
        let mut r: Vec<RegisterWrite> = Vec::new();
        r.push(self.ev_pending.write_of(SERIAL_EVENT_RX));
        r.push(self.ev_pending.write_of(SERIAL_EVENT_TX));
        r.push(self.ev_enable.write_of(0));
        assert(r@ =~= seq![
            RegisterWrite { addr: self.ev_pending.addr, value: SERIAL_EVENT_RX },
            RegisterWrite { addr: self.ev_pending.addr, value: SERIAL_EVENT_TX },
            RegisterWrite { addr: self.ev_enable.addr, value: 0 },
        ]);
        r
    }
}

/// Whether the receive interrupt takes a byte: a receive event is pending
/// (`pending` read from `ev_pending`) and the receive FIFO is not empty
/// (`rxempty` read as 0).
pub fn rx_byte_ready(pending: u32, rxempty: u32) -> (r: bool)
    ensures
        r == (pending & SERIAL_EVENT_RX != 0 && rxempty == 0),
{
    pending & SERIAL_EVENT_RX != 0 && rxempty == 0
}

/// The received byte in a word read from `rxtx`: its low eight bits.
pub fn rx_byte(word: u32) -> (r: u8)
    ensures
        r == word % 256,
{
    let low = word & 0xffu32;
    assert(low == word % 256 && low < 256) by (bit_vector)
        requires
            low == word & 0xffu32,
    ;
    low as u8
}

/// Severity of a log record, most severe first.
#[derive(Clone, Copy, Debug, PartialEq, Eq, Structural)]
pub enum LogLevel {
    Error,
    Warn,
    Info,
    Debug,
    Trace,
}

/// The most verbose level let through; `Off` lets nothing through.
#[derive(Clone, Copy, Debug, PartialEq, Eq, Structural)]
pub enum LogLevelFilter {
    Off,
    Error,
    Warn,
    Info,
    Debug,
    Trace,
}

/// The verbosity of a level, from 1 (`Error`) to 5 (`Trace`).
pub open spec fn level_rank(l: LogLevel) -> int {
    match l {
        LogLevel::Error => 1,
        LogLevel::Warn => 2,
        LogLevel::Info => 3,
        LogLevel::Debug => 4,
        LogLevel::Trace => 5,
    }
}

/// The verbosity a filter lets through, from 0 (`Off`) to 5 (`Trace`).
pub open spec fn filter_rank(f: LogLevelFilter) -> int {
    match f {
        LogLevelFilter::Off => 0,
        LogLevelFilter::Error => 1,
        LogLevelFilter::Warn => 2,
        LogLevelFilter::Info => 3,
        LogLevelFilter::Debug => 4,
        LogLevelFilter::Trace => 5,
    }
}

/// The logger that writes records to the supervisor UART.
#[derive(Clone, Copy, Debug)]
pub struct SerialLogger {}

impl SerialLogger {
    /// Whether a record of `level` is written under the filter `max_level`.
    pub fn enabled(&self, level: LogLevel, max_level: LogLevelFilter) -> (r: bool)
        ensures
            r == (level_rank(level) <= filter_rank(max_level)),
    {
        let rank: u8 = match level {
            LogLevel::Error => 1,
            LogLevel::Warn => 2,
            LogLevel::Info => 3,
            LogLevel::Debug => 4,
            LogLevel::Trace => 5,
        };
        let max: u8 = match max_level {
            LogLevelFilter::Off => 0,
            LogLevelFilter::Error => 1,
            LogLevelFilter::Warn => 2,
            LogLevelFilter::Info => 3,
            LogLevelFilter::Debug => 4,
            LogLevelFilter::Trace => 5,
        };
        rank <= max
    }

    /// The colour code and label that start a record of `level`.
    pub fn prefix(&self, level: LogLevel) -> (r: &'static str)
        ensures
            r@ == match level {
                LogLevel::Error => "\u{1b}[31m LOG:  Error  : "@,
                LogLevel::Warn => "\u{1b}[33m LOG:  Warn   : "@,
                LogLevel::Info => "\u{1b}[0m LOG:  Info   : "@,
                LogLevel::Debug => "\u{1b}[35m LOG:  Debug  : "@,
                LogLevel::Trace => "\u{1b}[32m LOG:  Trace  : "@,
            },
    {
        match level {
            LogLevel::Error => "\u{1b}[31m LOG:  Error  : ",
            LogLevel::Warn => "\u{1b}[33m LOG:  Warn   : ",
            LogLevel::Info => "\u{1b}[0m LOG:  Info   : ",
            LogLevel::Debug => "\u{1b}[35m LOG:  Debug  : ",
            LogLevel::Trace => "\u{1b}[32m LOG:  Trace  : ",
        }
    }

    /// The text that ends a record: reset the colour, end the line.
    pub fn suffix(&self) -> (r: &'static str)
        ensures
            r@ == "\u{1b}[0m\n"@,
    {
        "\u{1b}[0m\n"
    }
}

} // verus!
