use pdk_emu::cpu::{CPUError, ProgramError, CPU};
use pdk_emu::{arch, default_cpu};

#[test]
fn rom_read_out_of_range_is_fatal() {
    let mut cpu = CPU::new(2, 16, 16, arch::pdk14());

    cpu.load_program(&[0x34, 0x12]).unwrap();
    assert_eq!(cpu.rom_get(0).unwrap(), 0x1234);
    assert_eq!(cpu.rom_get(1).unwrap(), 0x0000);
    assert_eq!(cpu.rom_get(2), Err(CPUError::IllegalROMAccess { addr: 2 }));
}

#[test]
fn load_packs_words_low_byte_first() {
    let mut cpu = default_cpu();

    cpu.load_program(&[0x34, 0x12, 0x78, 0x56]).unwrap();
    assert_eq!(cpu.rom[0], 0x1234);
    assert_eq!(cpu.rom[1], 0x5678);
    assert_eq!(cpu.rom[2], 0x0000);
    assert_eq!(cpu.rom.len(), 2048);
}

#[test]
fn load_zero_fills_before_packing() {
    let mut cpu = default_cpu();

    cpu.load_program(&[0xFF, 0xFF, 0xFF, 0xFF, 0xFF, 0xFF]).unwrap();
    assert_eq!(cpu.rom[0], 0xFFFF);
    assert_eq!(cpu.rom[2], 0xFFFF);

    // A shorter program must not leave stale words behind.
    cpu.load_program(&[0x01, 0x00]).unwrap();
    assert_eq!(cpu.rom[0], 0x0001);
    assert_eq!(cpu.rom[1], 0x0000);
    assert_eq!(cpu.rom[2], 0x0000);
}

#[test]
fn oversized_program_is_recoverable_and_leaves_rom_untouched() {
    let mut cpu = CPU::new(2, 16, 16, arch::pdk14());

    cpu.load_program(&[0x0A, 0x0B, 0x0C, 0x0D]).unwrap();
    assert_eq!(cpu.rom[0], 0x0B0A);
    assert_eq!(cpu.rom[1], 0x0D0C);

    // Two instruction words can pack at most four bytes.
    let result = cpu.load_program(&[0x01, 0x02, 0x03, 0x04, 0x05]);
    assert_eq!(result, Err(ProgramError::ProgramTooLarge { program_len_bytes: 5 }));
    assert_eq!(cpu.rom[0], 0x0B0A);
    assert_eq!(cpu.rom[1], 0x0D0C);
}

#[test]
fn empty_program_clears_rom() {
    let mut cpu = default_cpu();

    cpu.load_program(&[0x22, 0x11]).unwrap();
    cpu.load_program(&[]).unwrap();
    assert_eq!(cpu.rom[0], 0x0000);
}
