//! The peripheral bus: the address-range dispatcher that the memory/IO
//! bus invokes for I/O-space accesses. Device emulation is not modelled
//! yet, so the stub echoes the backing storage byte; it is the seam
//! where timers, UART or ADC behaviour would plug in.

use vstd::prelude::*;

use crate::cpu::CPU;

verus! {

/// Read one byte of I/O space on behalf of the bus.
///
/// Assumes that `addr` is within range of the I/O address space; the
/// bus has already validated it.
pub fn read(cpu: &CPU, addr: u8) -> (r: u8)
    requires
        (addr as int) < cpu.io@.len(),
    ensures
        r == cpu.io@[addr as int],
{
    cpu.io[addr as usize]
}

/// Write one byte of I/O space on behalf of the bus.
///
/// Assumes that `addr` is within range of the I/O address space; the
/// bus has already validated it.
pub fn write(cpu: &mut CPU, addr: u8, data: u8)
    requires
        (addr as int) < old(cpu).io@.len(),
    ensures
        final(cpu).io@ == old(cpu).io@.update(addr as int, data),
        final(cpu).rom@ == old(cpu).rom@,
        final(cpu).ram@ == old(cpu).ram@,
        old(cpu).core_regs_eq(*final(cpu)),
{
    cpu.io.set(addr as usize, data);
}

} // verus!
