use pdk_emu::arch::pdk14;
use pdk_emu::cpu::{CPUError, RAMOperation, CPU};
use pdk_emu::default_cpu;

#[test]
fn ram_test() {
    let mut cpu = default_cpu();

    assert_eq!(cpu.ram_get(0).unwrap(), 0x00);
    cpu.ram_write(0, 0xAB).unwrap();
    assert_eq!(cpu.ram_get(0).unwrap(), 0xAB);
}

#[test]
fn stack_test8() {
    let mut cpu = default_cpu();

    cpu.stack_push8(0xAB).unwrap();
    cpu.stack_push8(0xCD).unwrap();
    cpu.stack_push8(0xEF).unwrap();

    assert_eq!(cpu.stack_pop8().unwrap(), 0xEF);
    assert_eq!(cpu.stack_pop8().unwrap(), 0xCD);
    assert_eq!(cpu.stack_pop8().unwrap(), 0xAB);

    assert_eq!(cpu.stack_pointer(), 0);
}

#[test]
fn stack_test16() {
    let mut cpu = default_cpu();

    cpu.stack_push16(0xABCD).unwrap();
    cpu.stack_push16(0x1234).unwrap();
    cpu.stack_push16(0x56EF).unwrap();

    assert_eq!(cpu.stack_pop16().unwrap(), 0x56EF);
    assert_eq!(cpu.stack_pop16().unwrap(), 0x1234);
    assert_eq!(cpu.stack_pop16().unwrap(), 0xABCD);

    assert_eq!(cpu.stack_pointer(), 0);
}

#[test]
fn stack_test_multibit() {
    let mut cpu = default_cpu();

    cpu.stack_push16(0xABCD).unwrap();
    cpu.stack_push8(0x12).unwrap();
    cpu.stack_push16(0x789A).unwrap();
    cpu.stack_push16(0x34AC).unwrap();
    cpu.stack_push8(0xF3).unwrap();

    assert_eq!(cpu.stack_pop8().unwrap(), 0xF3);
    assert_eq!(cpu.stack_pop16().unwrap(), 0x34AC);
    assert_eq!(cpu.stack_pop16().unwrap(), 0x789A);
    assert_eq!(cpu.stack_pop8().unwrap(), 0x12);
    assert_eq!(cpu.stack_pop16().unwrap(), 0xABCD);

    assert_eq!(cpu.stack_pointer(), 0);
}

#[test]
fn ram_access_out_of_range_is_fatal() {
    let mut cpu = default_cpu();

    // Data memory of the reference configuration holds 128 bytes.
    assert_eq!(
        cpu.ram_get(128),
        Err(CPUError::IllegalRAMAccess { addr: 128, ram_operation: RAMOperation::Read })
    );
    assert_eq!(
        cpu.ram_write(200, 0x42),
        Err(CPUError::IllegalRAMAccess { addr: 200, ram_operation: RAMOperation::Write })
    );
    // The failed write left memory untouched.
    assert_eq!(cpu.ram_get(127).unwrap(), 0x00);
}

#[test]
fn io_access_out_of_range_is_fatal() {
    let mut cpu = default_cpu();

    // I/O memory of the reference configuration holds 64 bytes.
    assert_eq!(cpu.io_get(64), Err(CPUError::IllegalIOAccess { addr: 64 }));
    assert_eq!(cpu.io_write(255, 0x01), Err(CPUError::IllegalIOAccess { addr: 255 }));
}

#[test]
fn io_write_then_read_echoes() {
    let mut cpu = default_cpu();

    cpu.io_write(5, 0x5A).unwrap();
    assert_eq!(cpu.io_get(5).unwrap(), 0x5A);
}

#[test]
fn flags_live_at_io_offset_zero() {
    let mut cpu = default_cpu();

    assert_eq!(cpu.flags(), 0x00);
    cpu.flags_set(0xA5);
    assert_eq!(cpu.flags(), 0xA5);
    assert_eq!(cpu.io_get(0).unwrap(), 0xA5);
}

#[test]
fn stack_pointer_moves_live_at_io_offset_two() {
    let mut cpu = default_cpu();

    assert_eq!(cpu.stack_pointer(), 0);
    // The increment returns the slot to write at: the old pointer.
    assert_eq!(cpu.stack_pointer_inc(3), 0);
    assert_eq!(cpu.stack_pointer(), 3);
    assert_eq!(cpu.io_get(2).unwrap(), 3);
    // The decrement returns the slot to read at: the new pointer.
    assert_eq!(cpu.stack_pointer_dec(2), 1);
    assert_eq!(cpu.stack_pointer(), 1);
}

#[test]
fn push_beyond_data_memory_is_fatal_without_partial_write() {
    let mut cpu = CPU::new(16, 4, 3, pdk14());

    cpu.stack_push8(0x11).unwrap();
    cpu.stack_push8(0x22).unwrap();
    cpu.stack_push8(0x33).unwrap();

    // The next slot index would reach the data-memory length.
    assert_eq!(
        cpu.stack_push8(0x44),
        Err(CPUError::InvalidStackPointer { invalid_stack_pointer: 4 })
    );
    assert_eq!(cpu.stack_pointer(), 3);
    assert_eq!(cpu.ram_get(3).unwrap(), 0x00);

    assert_eq!(
        cpu.stack_push16(0x5566),
        Err(CPUError::InvalidStackPointer { invalid_stack_pointer: 5 })
    );
    assert_eq!(cpu.stack_pointer(), 3);
    assert_eq!(cpu.ram_get(3).unwrap(), 0x00);
}

#[test]
fn pop_below_zero_is_fatal() {
    let mut cpu = default_cpu();

    assert_eq!(
        cpu.stack_pop8(),
        Err(CPUError::InvalidStackPointer { invalid_stack_pointer: -1 })
    );
    assert_eq!(
        cpu.stack_pop16(),
        Err(CPUError::InvalidStackPointer { invalid_stack_pointer: -2 })
    );

    cpu.stack_push8(0x77).unwrap();
    assert_eq!(
        cpu.stack_pop16(),
        Err(CPUError::InvalidStackPointer { invalid_stack_pointer: -1 })
    );
    assert_eq!(cpu.stack_pointer(), 1);
}

#[test]
fn push16_stores_little_endian() {
    let mut cpu = default_cpu();

    cpu.stack_push16(0xABCD).unwrap();
    assert_eq!(cpu.ram_get(0).unwrap(), 0xCD);
    assert_eq!(cpu.ram_get(1).unwrap(), 0xAB);
    assert_eq!(cpu.stack_pop16().unwrap(), 0xABCD);
    assert_eq!(cpu.stack_pointer(), 0);
}

#[test]
fn peripheral_bus_echoes_storage() {
    let mut cpu = default_cpu();

    pdk_emu::peripherals::write(&mut cpu, 7, 0xC3);
    assert_eq!(pdk_emu::peripherals::read(&cpu, 7), 0xC3);
    assert_eq!(cpu.io_get(7).unwrap(), 0xC3);
}
