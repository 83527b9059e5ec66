//! The CPU state and the memory/IO bus: three fixed-size address spaces
//! with bounds-checked access, the CPU-intrinsic registers mapped into
//! I/O space, the hardware stack, and the program loader.
//!
//! An address-space violation during emulated execution has no
//! well-defined hardware behaviour, so every such access reports a
//! [`CPUError`] fault value; the host decides whether to turn it into a
//! process abort. Program loading is the one operation whose failure is
//! recoverable and is reported as a [`ProgramError`].

use vstd::prelude::*;

use crate::arch::PDKArch;
use crate::clock::cycle_budget_nanos;
use crate::peripherals;

verus! {

/// I/O offset of the status-flags byte, owned by the CPU core itself.
pub const FLAGS_IO_OFFSET: usize = 0;

/// I/O offset of the stack-pointer byte, owned by the CPU core itself.
pub const STACK_POINTER_IO_OFFSET: usize = 2;

/// The full state of one emulated CPU.
///
/// All state is owned and mutated by a single dispatch thread; the
/// flags and stack-pointer bytes are ordinary memory with a documented
/// single-writer convention, not hardware-volatile storage.
pub struct CPU {
    /// Instruction memory, one 16-bit word per instruction.
    pub rom: Vec<u16>,
    /// Data memory; its low region doubles as the hardware stack.
    pub ram: Vec<u8>,
    /// I/O memory; offsets 0 and 2 are reserved for the CPU-intrinsic
    /// status flags and stack pointer.
    pub io: Vec<u8>,
    /// Per-cycle time budget in nanoseconds, derived from `freq_hz`.
    pub freq_pause_nanos: u128,
    /// Configured clock frequency in Hz.
    pub freq_hz: u64,
    /// Monotonically increasing cycle counter.
    pub cpu_cycle: u64,
    /// Program counter: a word index into instruction memory.
    pub pc: u32,
    /// Accumulator register.
    pub a: u16,
    /// Timer T16 register.
    pub t16: u16,
    /// Whether global interrupts are enabled.
    pub global_interrupts_enabled: bool,
    /// Whether the CPU is currently servicing an interrupt.
    pub interrupts_active: bool,
    /// Architecture descriptor, fixed for the object's lifetime.
    pub arch: PDKArch,
}

/// Whether a faulting data-memory access was a read or a write.
#[derive(Clone, Copy, Debug, PartialEq, Eq, Structural)]
pub enum RAMOperation {
    Read,
    Write,
}

/// A fatal hardware-level fault raised during emulated execution.
///
/// Each variant identifies the faulting address, opcode or stack
/// pointer; none of them is recoverable inside the emulation model.
#[allow(inconsistent_fields)]
#[derive(Clone, Copy, Debug, PartialEq, Eq, Structural)]
pub enum CPUError {
    IllegalROMAccess { addr: u16 },
    IllegalRAMAccess { addr: u8, ram_operation: RAMOperation },
    IllegalIOAccess { addr: u8 },
    /// An indirect pointer resolving outside addressable memory.
    IndirectPointer { addr: u16 },
    IllegalOpcode { addr: u16, opcode: u16 },
    /// The stack pointer would leave data memory (negative or too large).
    InvalidStackPointer { invalid_stack_pointer: i16 },
}

/// A recoverable failure of the program-load operation.
#[derive(Clone, Copy, Debug, PartialEq, Eq, Structural)]
pub enum ProgramError {
    /// The program holds more bytes than instruction memory can pack.
    ProgramTooLarge { program_len_bytes: usize },
}

/// The 16-bit instruction word packed from two bytes, low byte first.
pub open spec fn word_from_bytes(lo: u8, hi: u8) -> u16 {
    ((hi as u16) << 8) | (lo as u16)
}

/// The low byte of a 16-bit value.
pub open spec fn word_low_byte(w: u16) -> u8 {
    (w & 0xFF) as u8
}

/// The high byte of a 16-bit value.
pub open spec fn word_high_byte(w: u16) -> u8 {
    ((w >> 8) & 0xFF) as u8
}

/// A one-byte push is allowed: the stack pointer after the push stays
/// strictly below the data-memory length.
pub open spec fn spec_push8_ok(ram: Seq<u8>, sp: u8) -> bool {
    sp + 1 < ram.len()
}

/// Data memory after one byte is pushed at the next free slot.
pub open spec fn spec_push8_ram(ram: Seq<u8>, sp: u8, v: u8) -> Seq<u8> {
    ram.update(sp as int, v)
}

/// A one-byte pop is allowed: the stack pointer would not go negative.
pub open spec fn spec_pop8_ok(sp: u8) -> bool {
    sp >= 1
}

/// The byte a one-byte pop returns: the top of the stack.
pub open spec fn spec_pop8_val(ram: Seq<u8>, sp: u8) -> u8 {
    ram[sp as int - 1]
}

/// A two-byte push is allowed: the stack pointer after the push stays
/// strictly below the data-memory length (one check covers both bytes).
pub open spec fn spec_push16_ok(ram: Seq<u8>, sp: u8) -> bool {
    sp + 2 < ram.len()
}

/// Data memory after a 16-bit value is pushed, little-endian: the low
/// byte at the lower offset.
pub open spec fn spec_push16_ram(ram: Seq<u8>, sp: u8, v: u16) -> Seq<u8> {
    ram.update(sp as int, word_low_byte(v)).update(sp as int + 1, word_high_byte(v))
}

/// A two-byte pop is allowed: the stack pointer would not go negative.
pub open spec fn spec_pop16_ok(sp: u8) -> bool {
    sp >= 2
}

/// The value a two-byte pop returns, read back little-endian.
pub open spec fn spec_pop16_val(ram: Seq<u8>, sp: u8) -> u16 {
    word_from_bytes(ram[sp as int - 2], ram[sp as int - 1])
}

/// Packing a 16-bit value into its two bytes and packing those bytes
/// back into a word, low byte first, gives the value back exactly.
pub proof fn lemma_word_bytes_roundtrip(v: u16)
    ensures
        word_from_bytes(word_low_byte(v), word_high_byte(v)) == v,
{
    assert(((((v >> 8) & 0xFF) as u8 as u16) << 8) | ((v & 0xFF) as u8 as u16) == v)
        by (bit_vector);
}

/// Writing a byte at a valid data-memory address and then reading the
/// same address returns the written byte.
pub proof fn lemma_ram_write_then_read(ram: Seq<u8>, addr: u8, data: u8)
    requires
        (addr as int) < ram.len(),
    ensures
        ram.update(addr as int, data)[addr as int] == data,
{
}

/// The hardware stack is strict LIFO: pushing bytes `a`, `b`, `c` in
/// that order (each push allowed) and then popping three times yields
/// `c`, `b`, `a`, and the stack pointer returns to its pre-push value.
pub proof fn lemma_stack_lifo(ram0: Seq<u8>, sp0: u8, a: u8, b: u8, c: u8)
    requires
        ram0.len() <= 256,
        sp0 + 3 < ram0.len(),
    ensures
        ({
            let ram1 = spec_push8_ram(ram0, sp0, a);
            let sp1 = (sp0 + 1) as u8;
            let ram2 = spec_push8_ram(ram1, sp1, b);
            let sp2 = (sp0 + 2) as u8;
            let ram3 = spec_push8_ram(ram2, sp2, c);
            let sp3 = (sp0 + 3) as u8;
            &&& spec_push8_ok(ram0, sp0)
            &&& spec_push8_ok(ram1, sp1)
            &&& spec_push8_ok(ram2, sp2)
            &&& spec_pop8_ok(sp3) && spec_pop8_val(ram3, sp3) == c
            &&& spec_pop8_ok(sp2) && spec_pop8_val(ram3, sp2) == b
            &&& spec_pop8_ok(sp1) && spec_pop8_val(ram3, sp1) == a
            &&& (sp1 - 1) as u8 == sp0
        }),
{
}

/// A 16-bit push stores the value little-endian — the low byte at the
/// lower offset — and a 16-bit pop returns the pushed value exactly,
/// with the stack pointer back at its pre-push value.
pub proof fn lemma_stack_roundtrip16(ram0: Seq<u8>, sp0: u8, v: u16)
    requires
        ram0.len() <= 256,
        sp0 + 2 < ram0.len(),
    ensures
        ({
            let ram1 = spec_push16_ram(ram0, sp0, v);
            let sp1 = (sp0 + 2) as u8;
            &&& spec_push16_ok(ram0, sp0)
            &&& ram1[sp0 as int] == word_low_byte(v)
            &&& ram1[sp0 as int + 1] == word_high_byte(v)
            &&& spec_pop16_ok(sp1)
            &&& spec_pop16_val(ram1, sp1) == v
            &&& (sp1 - 2) as u8 == sp0
        }),
{
    lemma_word_bytes_roundtrip(v);
}

impl CPU {
    /// The size invariant fixed at construction: data memory and I/O
    /// memory never exceed 256 bytes, so every byte is addressable by
    /// the 8-bit address and stack-pointer registers.
    pub open spec fn wf(self) -> bool {
        self.ram@.len() <= 256 && self.io@.len() <= 256
    }

    /// The I/O space is large enough to map the CPU-intrinsic registers
    /// (status flags at offset 0, stack pointer at offset 2).
    pub open spec fn regs_mapped(self) -> bool {
        self.io@.len() > STACK_POINTER_IO_OFFSET
    }

    /// The stack pointer: the byte at I/O offset 2, the index of the
    /// next free stack slot in data memory.
    pub open spec fn sp(self) -> u8 {
        self.io@[STACK_POINTER_IO_OFFSET as int]
    }

    /// The status-flags byte at I/O offset 0.
    pub open spec fn spec_flags(self) -> u8 {
        self.io@[FLAGS_IO_OFFSET as int]
    }

    /// The non-memory state (clock parameters, cycle counter, working
    /// registers, interrupt flags, architecture) of the two CPU values
    /// is the same. Bus and stack operations touch only memory, so
    /// their contracts promise this of the state they leave behind.
    pub open spec fn core_regs_eq(self, o: CPU) -> bool {
        &&& self.freq_pause_nanos == o.freq_pause_nanos
        &&& self.freq_hz == o.freq_hz
        &&& self.cpu_cycle == o.cpu_cycle
        &&& self.pc == o.pc
        &&& self.a == o.a
        &&& self.t16 == o.t16
        &&& self.global_interrupts_enabled == o.global_interrupts_enabled
        &&& self.interrupts_active == o.interrupts_active
        &&& self.arch == o.arch
    }

    /// Build a CPU with zeroed memory regions of the given sizes, the
    /// given architecture bound for the object's lifetime, and the
    /// clock preset to 1 MHz (a 1000 ns cycle budget).
    pub fn new(
        rom_size_words: usize,
        ram_size_bytes: usize,
        io_size_bytes: usize,
        arch: PDKArch,
    ) -> (r: CPU)
        requires
            ram_size_bytes <= 256,
            io_size_bytes <= 256,
        ensures
            r.wf(),
            r.rom@ =~= Seq::new(rom_size_words as nat, |i: int| 0u16),
            r.ram@ =~= Seq::new(ram_size_bytes as nat, |i: int| 0u8),
            r.io@ =~= Seq::new(io_size_bytes as nat, |i: int| 0u8),
            r.freq_pause_nanos == 1000,
            r.freq_hz == 1_000_000,
            r.cpu_cycle == 0,
            r.pc == 0,
            r.a == 0,
            r.t16 == 0,
            !r.global_interrupts_enabled,
            !r.interrupts_active,
            r.arch == arch,
    {
        CPU {
            rom: zero_vec_u16(rom_size_words),
            ram: zero_vec_u8(ram_size_bytes),
            io: zero_vec_u8(io_size_bytes),
            freq_pause_nanos: 1_000,  // 1 MHz
            freq_hz: 1_000_000,
            cpu_cycle: 0,
            pc: 0,
            a: 0,
            t16: 0,
            global_interrupts_enabled: false,
            interrupts_active: false,
            arch,
        }
    }

    /// Install a program image into instruction memory.
    ///
    /// Each instruction word is packed from two consecutive image
    /// bytes, low byte first. An image longer than twice the
    /// instruction word count is rejected with a recoverable error and
    /// leaves the CPU untouched — the one failure a caller is expected
    /// to handle, since it happens before the chip "runs". Otherwise
    /// instruction memory is zeroed first (a defensive reset) and then
    /// repacked deterministically from the image. An image that fits
    /// must pack whole words: an odd trailing byte could not form one.
    pub fn load_program(&mut self, program: &[u8]) -> (r: Result<(), ProgramError>)
        requires
            program@.len() <= 2 * old(self).rom@.len() ==> program@.len() % 2 == 0,
        ensures
            match r {
                Ok(()) => {
                    &&& program@.len() <= 2 * old(self).rom@.len()
                    &&& final(self).rom@.len() == old(self).rom@.len()
                    &&& forall|i: int|
                        0 <= i < program@.len() / 2 ==> final(self).rom@[i] == word_from_bytes(
                            program@[2 * i],
                            program@[2 * i + 1],
                        )
                    &&& forall|i: int|
                        program@.len() / 2 <= i < final(self).rom@.len() ==> final(self).rom@[i]
                            == 0
                    &&& final(self).ram@ == old(self).ram@
                    &&& final(self).io@ == old(self).io@
                    &&& old(self).core_regs_eq(*final(self))
                },
                Err(e) => {
                    &&& program@.len() > 2 * old(self).rom@.len()
                    &&& e == (ProgramError::ProgramTooLarge {
                        program_len_bytes: program@.len() as usize,
                    })
                    &&& *final(self) == *old(self)
                },
            },
    {
        // Compare in 128 bits so doubling the word count cannot wrap.
        if program.len() as u128 > 2 * (self.rom.len() as u128) {
            return Err(ProgramError::ProgramTooLarge { program_len_bytes: program.len() });
        }

        // Clear ROM just in case
        let rom_len: usize = self.rom.len();
        let mut i: usize = 0;
        while i < rom_len
            invariant
                i <= rom_len,
                self.rom@.len() == rom_len,
                forall|j: int| 0 <= j < i ==> self.rom@[j] == 0u16,
                self.ram@ == old(self).ram@,
                self.io@ == old(self).io@,
                old(self).core_regs_eq(*self),
            decreases rom_len - i,
        {
            self.rom.set(i, 0);
            i = i + 1;
        }

        let word_count: usize = program.len() / 2;
        let mut i: usize = 0;
        while i < word_count
            invariant
                i <= word_count,
                word_count == program@.len() / 2,
                program@.len() <= usize::MAX,
                program@.len() % 2 == 0,
                program@.len() <= 2 * rom_len,
                self.rom@.len() == rom_len,
                forall|j: int|
                    0 <= j < i ==> self.rom@[j] == word_from_bytes(
                        program@[2 * j],
                        program@[2 * j + 1],
                    ),
                forall|j: int| i <= j < rom_len ==> self.rom@[j] == 0u16,
                self.ram@ == old(self).ram@,
                self.io@ == old(self).io@,
                old(self).core_regs_eq(*self),
            decreases word_count - i,
        {
            let lo: u8 = program[2 * i];
            let hi: u8 = program[2 * i + 1];
            let word: u16 = ((hi as u16) << 8) | (lo as u16);
            self.rom.set(i, word);
            i = i + 1;
        }

        Ok(())
    }

    /// Configure the clock frequency.
    ///
    /// The per-cycle budget becomes one billion nanoseconds per second
    /// divided by `hz`, rounded to the nearest whole nanosecond.
    pub fn set_clock_speed(&mut self, hz: u64)
        requires
            hz >= 1,
        ensures
            final(self).freq_pause_nanos == cycle_budget_nanos(hz),
            final(self).freq_hz == hz,
            final(self).rom@ == old(self).rom@,
            final(self).ram@ == old(self).ram@,
            final(self).io@ == old(self).io@,
            final(self).cpu_cycle == old(self).cpu_cycle,
            final(self).pc == old(self).pc,
            final(self).a == old(self).a,
            final(self).t16 == old(self).t16,
            final(self).global_interrupts_enabled == old(self).global_interrupts_enabled,
            final(self).interrupts_active == old(self).interrupts_active,
            final(self).arch == old(self).arch,
    {
        let h: u128 = hz as u128;
        let nano_sleep: u128 = (2_000_000_000u128 + h) / (2 * h);
        self.freq_pause_nanos = nano_sleep;
        self.freq_hz = hz;
    }

    /// Read one instruction word from instruction memory, for a
    /// dispatch handler's fetch.
    ///
    /// A read at a word index beyond the instruction-memory length is
    /// a fatal fault, like any other address-space violation.
    pub fn rom_get(&self, addr: u16) -> (r: Result<u16, CPUError>)
        ensures
            match r {
                Ok(v) => (addr as int) < self.rom@.len() && v == self.rom@[addr as int],
                Err(e) => (addr as int) >= self.rom@.len() && e == (CPUError::IllegalROMAccess {
                    addr,
                }),
            },
    {
        let addr_usize: usize = addr as usize;
        if addr_usize >= self.rom.len() {
            return Err(CPUError::IllegalROMAccess { addr });
        }
        Ok(self.rom[addr_usize])
    }

    /// Read one byte of I/O memory through the peripheral bus.
    ///
    /// An access at an offset beyond the configured I/O-memory length
    /// is a fatal fault, never a silent wrap or a default value.
    pub fn io_get(&self, addr: u8) -> (r: Result<u8, CPUError>)
        ensures
            match r {
                Ok(v) => (addr as int) < self.io@.len() && v == self.io@[addr as int],
                Err(e) => (addr as int) >= self.io@.len() && e == (CPUError::IllegalIOAccess {
                    addr,
                }),
            },
    {
        if addr as usize >= self.io.len() {
            return Err(CPUError::IllegalIOAccess { addr });
        }
        Ok(peripherals::read(self, addr))
    }

    /// Write one byte of I/O memory through the peripheral bus.
    ///
    /// An access at an offset beyond the configured I/O-memory length
    /// is a fatal fault and leaves the CPU untouched.
    pub fn io_write(&mut self, addr: u8, data: u8) -> (r: Result<(), CPUError>)
        ensures
            match r {
                Ok(()) => {
                    &&& (addr as int) < old(self).io@.len()
                    &&& final(self).io@ == old(self).io@.update(addr as int, data)
                    &&& final(self).rom@ == old(self).rom@
                    &&& final(self).ram@ == old(self).ram@
                    &&& old(self).core_regs_eq(*final(self))
                },
                Err(e) => {
                    &&& (addr as int) >= old(self).io@.len()
                    &&& e == (CPUError::IllegalIOAccess { addr })
                    &&& *final(self) == *old(self)
                },
            },
    {
        if addr as usize >= self.io.len() {
            return Err(CPUError::IllegalIOAccess { addr });
        }
        peripherals::write(self, addr, data);
        Ok(())
    }

    /// Read one byte of data memory.
    ///
    /// An access at an address beyond the data-memory length is a
    /// fatal fault tagged as a read.
    pub fn ram_get(&self, addr: u8) -> (r: Result<u8, CPUError>)
        ensures
            match r {
                Ok(v) => (addr as int) < self.ram@.len() && v == self.ram@[addr as int],
                Err(e) => (addr as int) >= self.ram@.len() && e == (CPUError::IllegalRAMAccess {
                    addr,
                    ram_operation: RAMOperation::Read,
                }),
            },
    {
        let addr_usize: usize = addr as usize;
        if addr_usize >= self.ram.len() {
            return Err(CPUError::IllegalRAMAccess { addr, ram_operation: RAMOperation::Read });
        }
        Ok(self.ram[addr_usize])
    }

    /// Write one byte of data memory.
    ///
    /// An access at an address beyond the data-memory length is a
    /// fatal fault tagged as a write, and leaves the CPU untouched.
    pub fn ram_write(&mut self, addr: u8, data: u8) -> (r: Result<(), CPUError>)
        ensures
            match r {
                Ok(()) => {
                    &&& (addr as int) < old(self).ram@.len()
                    &&& final(self).ram@ == old(self).ram@.update(addr as int, data)
                    &&& final(self).rom@ == old(self).rom@
                    &&& final(self).io@ == old(self).io@
                    &&& old(self).core_regs_eq(*final(self))
                },
                Err(e) => {
                    &&& (addr as int) >= old(self).ram@.len()
                    &&& e == (CPUError::IllegalRAMAccess {
                        addr,
                        ram_operation: RAMOperation::Write,
                    })
                    &&& *final(self) == *old(self)
                },
            },
    {
        let addr_usize: usize = addr as usize;
        if addr_usize >= self.ram.len() {
            return Err(CPUError::IllegalRAMAccess { addr, ram_operation: RAMOperation::Write });
        }
        self.ram.set(addr_usize, data);
        Ok(())
    }

    /// Read the status-flags byte, a CPU-intrinsic register at I/O
    /// offset 0; direct access that bypasses the peripheral bus.
    #[inline]
    pub fn flags(&self) -> (r: u8)
        requires
            self.regs_mapped(),
        ensures
            r == self.spec_flags(),
    {
        self.io[FLAGS_IO_OFFSET]
    }

    /// Write the status-flags byte, a CPU-intrinsic register at I/O
    /// offset 0; direct access that bypasses the peripheral bus.
    #[inline]
    pub fn flags_set(&mut self, data: u8)
        requires
            old(self).regs_mapped(),
        ensures
            final(self).io@ == old(self).io@.update(FLAGS_IO_OFFSET as int, data),
            final(self).spec_flags() == data,
            final(self).rom@ == old(self).rom@,
            final(self).ram@ == old(self).ram@,
            old(self).core_regs_eq(*final(self)),
    {
        self.io.set(FLAGS_IO_OFFSET, data);
    }

    /// Read the stack pointer, a CPU-intrinsic register at I/O offset
    /// 2; direct access that bypasses the peripheral bus.
    #[inline]
    pub fn stack_pointer(&self) -> (r: u8)
        requires
            self.regs_mapped(),
        ensures
            r == self.sp(),
    {
        self.io[STACK_POINTER_IO_OFFSET]
    }

    /// Move the stack pointer up by `inc` slots and return the offset
    /// to write the new stack item at (the pointer before the move).
    #[inline]
    pub fn stack_pointer_inc(&mut self, inc: u8) -> (r: u8)
        requires
            old(self).regs_mapped(),
            old(self).sp() + inc <= 255,
        ensures
            r == old(self).sp(),
            final(self).io@ == old(self).io@.update(
                STACK_POINTER_IO_OFFSET as int,
                (old(self).sp() + inc) as u8,
            ),
            final(self).sp() == (old(self).sp() + inc) as u8,
            final(self).rom@ == old(self).rom@,
            final(self).ram@ == old(self).ram@,
            old(self).core_regs_eq(*final(self)),
    {
        let stack_pointer: u8 = self.stack_pointer();
        self.stack_pointer_set(inc + stack_pointer);
        stack_pointer
    }

    /// Move the stack pointer down by `dec` slots and return the offset
    /// to read the popped stack item at (the pointer after the move).
    #[inline]
    pub fn stack_pointer_dec(&mut self, dec: u8) -> (r: u8)
        requires
            old(self).regs_mapped(),
            dec <= old(self).sp(),
        ensures
            r == (old(self).sp() - dec) as u8,
            final(self).io@ == old(self).io@.update(
                STACK_POINTER_IO_OFFSET as int,
                (old(self).sp() - dec) as u8,
            ),
            final(self).sp() == (old(self).sp() - dec) as u8,
            final(self).rom@ == old(self).rom@,
            final(self).ram@ == old(self).ram@,
            old(self).core_regs_eq(*final(self)),
    {
        let new_stack_pointer: u8 = self.stack_pointer() - dec;
        self.stack_pointer_set(new_stack_pointer);
        new_stack_pointer
    }

    #[inline]
    fn stack_pointer_set(&mut self, new_stack_pointer: u8)
        requires
            old(self).regs_mapped(),
        ensures
            final(self).io@ == old(self).io@.update(
                STACK_POINTER_IO_OFFSET as int,
                new_stack_pointer,
            ),
            final(self).sp() == new_stack_pointer,
            final(self).rom@ == old(self).rom@,
            final(self).ram@ == old(self).ram@,
            old(self).core_regs_eq(*final(self)),
    {
        self.io.set(STACK_POINTER_IO_OFFSET, new_stack_pointer);
    }

    /// The unchecked fast path of data-memory reads, for call sites
    /// that have already performed an equivalent bounds check.
    #[inline]
    fn ram_get_unchecked(&self, addr: u8) -> (r: u8)
        requires
            (addr as int) < self.ram@.len(),
        ensures
            r == self.ram@[addr as int],
    {
        self.ram[addr as usize]
    }

    /// The unchecked fast path of data-memory writes, for call sites
    /// that have already performed an equivalent bounds check.
    #[inline]
    fn ram_write_unchecked(&mut self, addr: u8, data: u8)
        requires
            (addr as int) < old(self).ram@.len(),
        ensures
            final(self).ram@ == old(self).ram@.update(addr as int, data),
            final(self).rom@ == old(self).rom@,
            final(self).io@ == old(self).io@,
            old(self).core_regs_eq(*final(self)),
    {
        self.ram.set(addr as usize, data);
    }

    /// Push one byte onto the hardware stack.
    ///
    /// A push whose resulting stack pointer would reach or exceed the
    /// data-memory length is a fatal invalid-stack-pointer fault, and
    /// no partial write occurs. Otherwise the byte lands at the old
    /// next-free slot and the stack pointer commits one slot higher.
    #[inline]
    pub fn stack_push8(&mut self, data: u8) -> (r: Result<(), CPUError>)
        requires
            old(self).wf(),
            old(self).regs_mapped(),
        ensures
            match r {
                Ok(()) => {
                    &&& spec_push8_ok(old(self).ram@, old(self).sp())
                    &&& final(self).ram@ == spec_push8_ram(old(self).ram@, old(self).sp(), data)
                    &&& final(self).io@ == old(self).io@.update(
                        STACK_POINTER_IO_OFFSET as int,
                        (old(self).sp() + 1) as u8,
                    )
                    &&& final(self).sp() == (old(self).sp() + 1) as u8
                    &&& final(self).rom@ == old(self).rom@
                    &&& old(self).core_regs_eq(*final(self))
                },
                Err(e) => {
                    &&& !spec_push8_ok(old(self).ram@, old(self).sp())
                    &&& e == (CPUError::InvalidStackPointer {
                        invalid_stack_pointer: (old(self).sp() + 1) as i16,
                    })
                    &&& *final(self) == *old(self)
                },
            },
    {
        let new_stack_pointer: u16 = self.stack_pointer() as u16 + 1;

        if new_stack_pointer as usize >= self.ram.len() {
            return Err(CPUError::InvalidStackPointer {
                invalid_stack_pointer: new_stack_pointer as i16,
            });
        }

        let new_stack_pointer: u8 = new_stack_pointer as u8;
        self.ram_write_unchecked(new_stack_pointer - 1, data);
        self.stack_pointer_set(new_stack_pointer);
        Ok(())
    }

    /// Pop one byte off the hardware stack.
    ///
    /// A pop whose stack pointer would go negative is a fatal
    /// invalid-stack-pointer fault; otherwise the stack pointer
    /// commits one slot lower and the byte there is returned.
    #[inline]
    pub fn stack_pop8(&mut self) -> (r: Result<u8, CPUError>)
        requires
            old(self).wf(),
            old(self).regs_mapped(),
            spec_pop8_ok(old(self).sp()) ==> old(self).sp() <= old(self).ram@.len(),
        ensures
            match r {
                Ok(v) => {
                    &&& spec_pop8_ok(old(self).sp())
                    &&& v == spec_pop8_val(old(self).ram@, old(self).sp())
                    &&& final(self).io@ == old(self).io@.update(
                        STACK_POINTER_IO_OFFSET as int,
                        (old(self).sp() - 1) as u8,
                    )
                    &&& final(self).sp() == (old(self).sp() - 1) as u8
                    &&& final(self).ram@ == old(self).ram@
                    &&& final(self).rom@ == old(self).rom@
                    &&& old(self).core_regs_eq(*final(self))
                },
                Err(e) => {
                    &&& !spec_pop8_ok(old(self).sp())
                    &&& e == (CPUError::InvalidStackPointer { invalid_stack_pointer: -1i16 })
                    &&& *final(self) == *old(self)
                },
            },
    {
        let stack_pointer: u8 = self.stack_pointer();
        if stack_pointer == 0 {
            return Err(CPUError::InvalidStackPointer { invalid_stack_pointer: -1i16 });
        }

        let new_stack_pointer: u8 = stack_pointer - 1;
        self.stack_pointer_set(new_stack_pointer);
        Ok(self.ram_get_unchecked(new_stack_pointer))
    }

    /// Push a 16-bit value onto the hardware stack, little-endian: the
    /// low byte at the lower offset.
    ///
    /// One bounds check covers both bytes; on a fault no partial write
    /// occurs.
    #[inline]
    pub fn stack_push16(&mut self, data: u16) -> (r: Result<(), CPUError>)
        requires
            old(self).wf(),
            old(self).regs_mapped(),
        ensures
            match r {
                Ok(()) => {
                    &&& spec_push16_ok(old(self).ram@, old(self).sp())
                    &&& final(self).ram@ == spec_push16_ram(old(self).ram@, old(self).sp(), data)
                    &&& final(self).io@ == old(self).io@.update(
                        STACK_POINTER_IO_OFFSET as int,
                        (old(self).sp() + 2) as u8,
                    )
                    &&& final(self).sp() == (old(self).sp() + 2) as u8
                    &&& final(self).rom@ == old(self).rom@
                    &&& old(self).core_regs_eq(*final(self))
                },
                Err(e) => {
                    &&& !spec_push16_ok(old(self).ram@, old(self).sp())
                    &&& e == (CPUError::InvalidStackPointer {
                        invalid_stack_pointer: (old(self).sp() + 2) as i16,
                    })
                    &&& *final(self) == *old(self)
                },
            },
    {
        let new_stack_pointer: u16 = self.stack_pointer() as u16 + 2;

        if new_stack_pointer as usize >= self.ram.len() {
            return Err(CPUError::InvalidStackPointer {
                invalid_stack_pointer: new_stack_pointer as i16,
            });
        }

        assert(data & 0xFF < 256) by (bit_vector);
        assert((data >> 8) & 0xFF < 256) by (bit_vector);

        let new_stack_pointer: u8 = new_stack_pointer as u8;
        self.ram_write_unchecked(new_stack_pointer - 2, (data & 0xFF) as u8);
        self.ram_write_unchecked(new_stack_pointer - 1, ((data >> 8) & 0xFF) as u8);
        self.stack_pointer_set(new_stack_pointer);
        Ok(())
    }

    /// Pop a 16-bit value off the hardware stack, reading it back
    /// little-endian.
    ///
    /// A pop whose stack pointer would go negative is a fatal
    /// invalid-stack-pointer fault; one check covers both bytes.
    #[inline]
    pub fn stack_pop16(&mut self) -> (r: Result<u16, CPUError>)
        requires
            old(self).wf(),
            old(self).regs_mapped(),
            spec_pop16_ok(old(self).sp()) ==> old(self).sp() <= old(self).ram@.len(),
        ensures
            match r {
                Ok(v) => {
                    &&& spec_pop16_ok(old(self).sp())
                    &&& v == spec_pop16_val(old(self).ram@, old(self).sp())
                    &&& final(self).io@ == old(self).io@.update(
                        STACK_POINTER_IO_OFFSET as int,
                        (old(self).sp() - 2) as u8,
                    )
                    &&& final(self).sp() == (old(self).sp() - 2) as u8
                    &&& final(self).ram@ == old(self).ram@
                    &&& final(self).rom@ == old(self).rom@
                    &&& old(self).core_regs_eq(*final(self))
                },
                Err(e) => {
                    &&& !spec_pop16_ok(old(self).sp())
                    &&& e == (CPUError::InvalidStackPointer {
                        invalid_stack_pointer: (old(self).sp() - 2) as i16,
                    })
                    &&& *final(self) == *old(self)
                },
            },
    {
        let stack_pointer: u8 = self.stack_pointer();
        if stack_pointer < 2 {
            return Err(CPUError::InvalidStackPointer {
                invalid_stack_pointer: stack_pointer as i16 - 2,
            });
        }

        let new_stack_pointer: u8 = stack_pointer - 2;
        self.stack_pointer_set(new_stack_pointer);
        let hi: u8 = self.ram_get_unchecked(new_stack_pointer + 1);
        let lo: u8 = self.ram_get_unchecked(new_stack_pointer);
        Ok(((hi as u16) << 8) | (lo as u16))
    }
}

fn zero_vec_u8(len: usize) -> (r: Vec<u8>)
    ensures
        r@ =~= Seq::new(len as nat, |i: int| 0u8),
{
    let mut v: Vec<u8> = Vec::new();
    let mut i: usize = 0;
    while i < len
        invariant
            i <= len,
            v@ =~= Seq::new(i as nat, |j: int| 0u8),
        decreases len - i,
    {
        v.push(0);
        i = i + 1;
    }
    v
}

fn zero_vec_u16(len: usize) -> (r: Vec<u16>)
    ensures
        r@ =~= Seq::new(len as nat, |i: int| 0u16),
{
    let mut v: Vec<u16> = Vec::new();
    let mut i: usize = 0;
    while i < len
        invariant
            i <= len,
            v@ =~= Seq::new(i as nat, |j: int| 0u16),
        decreases len - i,
    {
        v.push(0);
        i = i + 1;
    }
    v
}

} // verus!
