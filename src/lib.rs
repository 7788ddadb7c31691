//! Verified core of a multi-priority interrupt-driven async runtime for a
//! RISC-V LiteX SoC: the software-interrupt protocol that drives the executor
//! slots, the external interrupt table and the timer alarm queue.

pub mod soft_irq;
pub mod time_driver;
pub mod interrupt;
pub mod executor;
pub mod register;
pub mod timer;
pub mod trace;
pub mod serial;
pub mod entry;
