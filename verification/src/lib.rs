//! Execution core of an 8-bit microcontroller emulator: a bounded
//! memory/IO bus, a stack-pointer-driven hardware stack, a program
//! loader, and a cycle-accurate clock scheduler.

pub mod arch;
pub mod clock;
pub mod cpu;
pub mod peripherals;
pub mod time;

use vstd::prelude::*;

verus! {

/// Instruction-memory words of the reference chip configuration.
const ROM_SIZE_WORDS: usize = 2048;

/// Data-memory bytes of the reference chip configuration.
const RAM_SIZE_BYTES: usize = 128;

/// I/O-memory bytes of the reference chip configuration.
const IO_SIZE_BYTES: usize = 64;

/// A CPU in the reference chip configuration: 2048 instruction words,
/// 128 bytes of data memory, 64 bytes of I/O memory, and the pdk14
/// instruction set.
pub fn default_cpu() -> (r: cpu::CPU)
    ensures
        r.wf(),
        r.regs_mapped(),
        r.rom@ =~= Seq::new(2048, |i: int| 0u16),
        r.ram@ =~= Seq::new(128, |i: int| 0u8),
        r.io@ =~= Seq::new(64, |i: int| 0u8),
        r.sp() == 0,
        r.spec_flags() == 0,
        r.freq_pause_nanos == 1000,
        r.freq_hz == 1_000_000,
        r.pc == 0,
        r.arch.instruction_set == arch::InstructionSet::Pdk14,
{
    cpu::CPU::new(ROM_SIZE_WORDS, RAM_SIZE_BYTES, IO_SIZE_BYTES, arch::pdk14())
}

} // verus!
