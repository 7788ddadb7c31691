use embassy_litex::register::{create_register, data_cache_lines, RegisterWrite};
use embassy_litex::serial::{
    rx_byte, rx_byte_ready, LogLevel, LogLevelFilter, SerialLogger, UartRegisters,
    SERIAL_EVENT_RX, SERIAL_EVENT_TX,
};
use embassy_litex::timer::{ticks_to_micros, uptime_from_halves, Timer, VexRiscvTimer};
use embassy_litex::trace::{is_addr_aligned, is_addr_valid, TrapFrame};

#[test]
fn register_keeps_its_address() {
    let r = create_register(0xf000_2000);
    assert_eq!(r.addr, 0xf000_2000);
    assert_eq!(r.offset(0x10).addr, 0xf000_2010);
    assert_eq!(r.write_of(9), RegisterWrite { addr: 0xf000_2000, value: 9 });
}

#[test]
fn timer_block_layout() {
    let t = Timer::create_timer(0xf000_3000);
    assert!(t.initialized);
    assert_eq!(t.registers.load.addr, 0xf000_3000);
    assert_eq!(t.registers.en.addr, 0xf000_3008);
    assert_eq!(t.registers.uptime_latch.addr, 0xf000_3020);
    assert_eq!(t.registers.uptime_cycles0.addr, 0xf000_3028);
    assert!(!Timer::create_timer(0).initialized);
    t.enable_irq();
    t.stop();
}

#[test]
fn timer_start_writes() {
    let t = Timer::create_timer(0x100);
    assert_eq!(
        t.start(4242),
        vec![
            RegisterWrite { addr: 0x108, value: 0 },
            RegisterWrite { addr: 0x104, value: 0 },
            RegisterWrite { addr: 0x100, value: 4242 },
            RegisterWrite { addr: 0x108, value: 1 },
            RegisterWrite { addr: 0x10c, value: 1 },
        ]
    );
}

#[test]
fn uptime_composed_from_halves() {
    assert_eq!(uptime_from_halves(0, 0), 0);
    assert_eq!(uptime_from_halves(1, 2), 0x1_0000_0002);
    assert_eq!(uptime_from_halves(u32::MAX, u32::MAX), u64::MAX);
    let t = Timer::create_timer(0x100);
    assert_eq!(t.uptime_clk(0x12, 0x34), 0x12_0000_0034);
    assert!(uptime_from_halves(3, u32::MAX) < uptime_from_halves(4, 0));
}

#[test]
fn cpu_timer_comparator_writes() {
    let v = VexRiscvTimer::create(0x10, 0x14, 0x18, 0x1c, 0x20);
    assert_eq!(
        v.set(0x1234_5678_9abc_def0),
        vec![
            RegisterWrite { addr: 0x1c, value: 0x9abc_def0 },
            RegisterWrite { addr: 0x20, value: 0x1234_5678 },
            RegisterWrite { addr: 0x10, value: 1 },
        ]
    );
    assert_eq!(
        v.stop(),
        vec![
            RegisterWrite { addr: 0x1c, value: u32::MAX },
            RegisterWrite { addr: 0x20, value: u32::MAX },
        ]
    );
    assert_eq!(v.uptime_clk(2, 5), 0x2_0000_0005);
}

#[test]
fn cache_flush_lines() {
    let mem = (0x4000_0000usize, 0x4080_0000usize);
    assert_eq!(
        data_cache_lines(0x4000_0100, 100, mem.0, mem.1),
        vec![0x4000_0100, 0x4000_0120, 0x4000_0140]
    );
    assert!(data_cache_lines(0x4000_0100, 31, mem.0, mem.1).is_empty());
    assert!(data_cache_lines(0x3fff_ff00, 64, mem.0, mem.1).is_empty());
    assert!(data_cache_lines(0x407f_ffe0, 32, mem.0, mem.1).is_empty());
    assert!(data_cache_lines(0x4000_0000, usize::MAX, mem.0, mem.1).is_empty());
}

#[test]
fn uart_layout_and_boot_writes() {
    let u = UartRegisters::new(0xf000_1000);
    assert_eq!(u.rxtx.addr, 0xf000_1000);
    assert_eq!(u.ev_pending.addr, 0xf000_1010);
    assert_eq!(u.rxfull.addr, 0xf000_101c);
    assert_eq!(
        u.clean_boot(),
        vec![
            RegisterWrite { addr: 0xf000_1010, value: SERIAL_EVENT_RX },
            RegisterWrite { addr: 0xf000_1010, value: SERIAL_EVENT_TX },
            RegisterWrite { addr: 0xf000_1014, value: 0 },
        ]
    );
}

#[test]
fn uart_receive_decision() {
    assert!(rx_byte_ready(SERIAL_EVENT_RX, 0));
    assert!(rx_byte_ready(SERIAL_EVENT_RX | SERIAL_EVENT_TX, 0));
    assert!(!rx_byte_ready(SERIAL_EVENT_TX, 0));
    assert!(!rx_byte_ready(SERIAL_EVENT_RX, 1));
    assert_eq!(rx_byte(0x1241), 0x41);
}

#[test]
fn logger_filter_and_prefixes() {
    let l = SerialLogger {};
    assert!(l.enabled(LogLevel::Error, LogLevelFilter::Error));
    assert!(!l.enabled(LogLevel::Warn, LogLevelFilter::Error));
    assert!(l.enabled(LogLevel::Trace, LogLevelFilter::Trace));
    assert!(!l.enabled(LogLevel::Error, LogLevelFilter::Off));
    assert_eq!(l.prefix(LogLevel::Error), "\u{1b}[31m LOG:  Error  : ");
    assert_eq!(l.prefix(LogLevel::Info), "\u{1b}[0m LOG:  Info   : ");
    assert_eq!(l.suffix(), "\u{1b}[0m\n");
}

#[test]
fn stack_walk_address_checks() {
    assert!(is_addr_aligned(0x1000_0010));
    assert!(!is_addr_aligned(0x1000_0018));
    assert!(is_addr_valid(0x1000_0000));
    assert!(is_addr_valid(0x1002_0000));
    assert!(!is_addr_valid(0x0fff_fff0));
    assert!(!is_addr_valid(0x1002_0010));
    let mut f = TrapFrame {
        ra: 0, t0: 0, t1: 0, t2: 0, t3: 0, t4: 0, t5: 0, t6: 0, a0: 0, a1: 0, a2: 0, a3: 0,
        a4: 0, a5: 0, a6: 0, a7: 0, s0: 0, s1: 0, s2: 0, s3: 0, s4: 0, s5: 0, s6: 0, s7: 0,
        s8: 0, s9: 0, s10: 0, s11: 0, gp: 0, tp: 0, sp: 0, pc: 0, mstatus: 0, mcause: 0,
        mtval: 0,
    };
    f.pc = 0x1000_0040;
    assert_eq!(f.pc, 0x1000_0040);
}

#[test]
fn ticks_scaled_to_micros() {
    assert_eq!(ticks_to_micros(3_000_000, 1_000_000), Some(3_000_000));
    assert_eq!(ticks_to_micros(2_000_000, 32_768), Some(65_536));
    assert_eq!(ticks_to_micros(999_999, 1), Some(0));
    assert_eq!(ticks_to_micros(u64::MAX, 2), None);
    let t = Timer::create_timer(0x100);
    assert_eq!(t.uptime_micros(0, 1234), Some(1234));
    let v = VexRiscvTimer::create(0x10, 0x14, 0x18, 0x1c, 0x20);
    assert_eq!(v.uptime_micros(1, 0), Some(0x1_0000_0000));
}
