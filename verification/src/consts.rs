//! Numbers of the x86 platform.

use vstd::prelude::*;

verus! {

/// The interrupt vector that the first line of the interrupt controller is mapped to.
pub const IRQ0: u8 = 32;

/// The interrupt line of the interval timer.
pub const TIMER_IRQ: u8 = 0;

/// The interrupt line of the first serial port.
pub const COM1_IRQ: u8 = 4;

/// The most bytes that an x86 instruction has.
pub const X86_MAX_INST_LEN: usize = 15;

/// The port on which QEMU takes debug output, one character per write.
pub const QEMU_DEBUG_PORT: u16 = 0x402;

/// The data port of channel 0 of the i8253 interval timer.
pub const PIT_CHANNEL0_PORT: u16 = 0x40;

} // verus!
