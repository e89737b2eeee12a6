//! The processor: register file, memory bus, cycle counter and interrupt
//! state, with the operations that instructions are made of.
//!
//! [`CpuState`] is the model of the processor that contracts speak of. The
//! cycle counter stands beside it, in [`Cpu::spec_cycles`]: every bus
//! transaction takes four T-cycles and leaves the state as it is, but for the
//! byte written.

use vstd::prelude::*;
use crate::help_traits::{
    lemma_split_join, spec_high, spec_low, spec_word, word, AccesBigEndianBytesU16,
};
use crate::memory::{
    bus_store, bus_valid, bus_write, bus_zero, is_writable, lemma_read_after_write,
    lemma_write_frame, lemma_write_keeps_valid, Memory, ADDRESS_SPACE,
    INTERRUPT_ENABLE_REGISTER_START, INTERRUPT_FLAG_PORT,
};
use self::cyclic::{add_cycles, Cyclic};
use self::registers::{Flags, LongRegister, Register, Registers, SetFlags};

pub mod cyclic;
pub mod registers;
pub mod snapshot;
pub mod step;

verus! {

/// What the processor is doing between two instructions.
#[derive(Debug, Clone, Copy, PartialEq, Eq, Structural)]
pub enum Mode {
    /// Fetching and executing instructions.
    Running,
    /// Stopped by HALT until an enabled interrupt is requested.
    Halted,
    /// Stopped for good by an opcode that is no instruction.
    Locked,
}

/// The sources of interrupts, each with its bit in the interrupt-flag port.
#[derive(Debug, Clone, Copy, PartialEq, Eq, Structural)]
pub enum Interrupt {
    VBlank,
    LcdStat,
    Timer,
    Serial,
    Joypad,
}

impl Interrupt {
    /// The bit of the interrupt-flag port that requests the interrupt.
    pub open spec fn spec_mask(self) -> u8 {
        match self {
            Interrupt::VBlank => 0x01,
            Interrupt::LcdStat => 0x02,
            Interrupt::Timer => 0x04,
            Interrupt::Serial => 0x08,
            Interrupt::Joypad => 0x10,
        }
    }

    pub fn mask(self) -> (mask: u8)
        ensures
            mask == self.spec_mask(),
    {
        match self {
            Interrupt::VBlank => 0x01,
            Interrupt::LcdStat => 0x02,
            Interrupt::Timer => 0x04,
            Interrupt::Serial => 0x08,
            Interrupt::Joypad => 0x10,
        }
    }
}

/// The model of the processor: the register file, the byte that the bus
/// returns at each address, and the interrupt state.
pub struct CpuState {
    pub regs: Registers,
    pub bus: Seq<u8>,
    /// The interrupt master enable.
    pub ime: bool,
    /// Set by EI: interrupts are enabled once the next instruction is done.
    pub ei_pending: bool,
    pub mode: Mode,
}

impl CpuState {
    /// The processor as it is made: registers and memory zero, interrupts
    /// disabled, running.
    pub open spec fn spec_zero() -> CpuState {
        CpuState {
            regs: Registers::spec_zero(),
            bus: bus_zero(),
            ime: false,
            ei_pending: false,
            mode: Mode::Running,
        }
    }

    /// The state is one that a processor can be in: its bus is valid.
    pub open spec fn valid(self) -> bool {
        bus_valid(self.bus)
    }

    pub open spec fn pc(self) -> u16 {
        self.regs.pc
    }

    pub open spec fn sp(self) -> u16 {
        self.regs.sp
    }

    pub open spec fn hl(self) -> u16 {
        self.regs.spec_get_long(LongRegister::HL)
    }

    pub open spec fn flags(self) -> SetFlags {
        self.regs.flags
    }

    /// The byte that a read at `addr` returns.
    pub open spec fn read(self, addr: u16) -> u8 {
        self.bus[addr as int]
    }

    /// The word whose low byte is read at `addr` and whose high byte is
    /// read at the next address.
    pub open spec fn read_long(self, addr: u16) -> u16 {
        spec_word(self.read(addr.wrapping_add(1)), self.read(addr))
    }

    /// The state after a write of `value` at `addr`.
    pub open spec fn write(self, addr: u16, value: u8) -> CpuState {
        CpuState { bus: bus_write(self.bus, addr, value), ..self }
    }

    /// The state after the cartridge stores `value` at `addr`.
    pub open spec fn load(self, addr: u16, value: u8) -> CpuState {
        CpuState { bus: bus_store(self.bus, addr, value), ..self }
    }

    /// The state after a write of the low byte of `value` at `addr` and then
    /// of its high byte at the next address.
    pub open spec fn write_long(self, addr: u16, value: u16) -> CpuState {
        self.write(addr, spec_low(value)).write(addr.wrapping_add(1), spec_high(value))
    }

    pub open spec fn with_regs(self, regs: Registers) -> CpuState {
        CpuState { regs, ..self }
    }

    pub open spec fn set_reg(self, reg: Register, value: u8) -> CpuState {
        self.with_regs(self.regs.spec_set(reg, value))
    }

    pub open spec fn set_long(self, reg: LongRegister, value: u16) -> CpuState {
        self.with_regs(self.regs.spec_set_long(reg, value))
    }

    pub open spec fn set_flags(self, flags: SetFlags) -> CpuState {
        self.with_regs(self.regs.spec_set_flags(flags))
    }

    pub open spec fn set_pc(self, pc: u16) -> CpuState {
        self.with_regs(Registers { pc, ..self.regs })
    }

    pub open spec fn set_sp(self, sp: u16) -> CpuState {
        self.with_regs(Registers { sp, ..self.regs })
    }

    /// The state with PC moved forward by `delta`, modulo 2^16.
    pub open spec fn advance_pc(self, delta: u16) -> CpuState {
        self.set_pc(self.pc().wrapping_add(delta))
    }

    /// The state with PC moved by the signed `delta`, modulo 2^16.
    pub open spec fn move_pc(self, delta: i16) -> CpuState {
        self.set_pc(self.pc().wrapping_add_signed(delta))
    }

    /// The state after `value` is pushed: the high byte is written at SP-1,
    /// the low byte at SP-2, and SP goes down by two.
    pub open spec fn push(self, value: u16) -> CpuState {
        let sp = self.sp();
        self.write(sp.wrapping_sub(1), spec_high(value)).write(
            sp.wrapping_sub(2),
            spec_low(value),
        ).set_sp(sp.wrapping_sub(2))
    }

    /// The word on top of the stack: low byte at SP, high byte at SP+1.
    pub open spec fn stack_top(self) -> u16 {
        self.read_long(self.sp())
    }

    /// The state after a word is popped: SP goes up by two.
    pub open spec fn pop(self) -> CpuState {
        self.set_sp(self.sp().wrapping_add(2))
    }

    pub open spec fn set_ime(self, ime: bool) -> CpuState {
        CpuState { ime, ..self }
    }

    pub open spec fn set_ei_pending(self, ei_pending: bool) -> CpuState {
        CpuState { ei_pending, ..self }
    }

    pub open spec fn set_mode(self, mode: Mode) -> CpuState {
        CpuState { mode, ..self }
    }

    /// Whether an interrupt is both requested and enabled: a bit set in the
    /// interrupt-flag port and in the interrupt-enable register.
    pub open spec fn interrupt_pending(self) -> bool {
        self.read(INTERRUPT_ENABLE_REGISTER_START) & self.read(INTERRUPT_FLAG_PORT) != 0
    }

    /// The state after an interrupt is requested: its bit is set in the
    /// interrupt-flag port.
    pub open spec fn request_interrupt(self, kind: Interrupt) -> CpuState {
        self.write(INTERRUPT_FLAG_PORT, self.read(INTERRUPT_FLAG_PORT) | kind.spec_mask())
    }
}

impl CpuState {
    /// A word that was pushed is on top of the stack, low byte at the new
    /// SP and high byte above it, where the two bytes below the old SP are
    /// bytes that the bus stores; a pop then puts SP back.
    #[verifier::rlimit(40)]
    pub proof fn lemma_push_then_top(self, value: u16)
        requires
            self.valid(),
            is_writable(self.sp().wrapping_sub(1)),
            is_writable(self.sp().wrapping_sub(2)),
        ensures
            self.push(value).valid(),
            self.push(value).sp() == self.sp().wrapping_sub(2),
            self.push(value).read(self.sp().wrapping_sub(2)) == spec_low(value),
            self.push(value).read(self.sp().wrapping_sub(1)) == spec_high(value),
            self.push(value).stack_top() == value,
            self.push(value).pop().sp() == self.sp(),
    {
        let high_at = self.sp().wrapping_sub(1);
        let low_at = self.sp().wrapping_sub(2);
        let first = bus_write(self.bus, high_at, spec_high(value));
        let second = bus_write(first, low_at, spec_low(value));
        lemma_write_keeps_valid(self.bus, high_at, spec_high(value));
        lemma_write_keeps_valid(first, low_at, spec_low(value));
        lemma_read_after_write(self.bus, high_at, spec_high(value));
        lemma_read_after_write(first, low_at, spec_low(value));
        lemma_write_frame(first, low_at, spec_low(value), high_at);
        lemma_split_join(value);
        assert(self.push(value).bus == second);
        assert(low_at.wrapping_add(1) == high_at);
    }
}

#[derive(Debug)]
pub struct Cpu {
    registers: Registers,
    memory: Memory,
    cyclic: Cyclic,
    ime: bool,
    ei_pending: bool,
    mode: Mode,
}

impl View for Cpu {
    type V = CpuState;

    closed spec fn view(&self) -> CpuState {
        CpuState {
            regs: self.registers,
            bus: self.memory@,
            ime: self.ime,
            ei_pending: self.ei_pending,
            mode: self.mode,
        }
    }
}

impl Cpu {
    /// The T-cycles counted so far.
    pub closed spec fn spec_cycles(&self) -> u64 {
        self.cyclic@
    }

    /// The state of every processor is valid.
    pub proof fn lemma_valid(&self)
        ensures
            self@.valid(),
    {
        self.memory.lemma_valid();
    }

    /// The T-cycles counted so far.
    pub fn cycles(&self) -> (count: u64)
        ensures
            count == self.spec_cycles(),
    {
        self.cyclic.count()
    }

    pub fn mode(&self) -> (mode: Mode)
        ensures
            mode == self@.mode,
    {
        self.mode
    }

    /// Whether interrupts are enabled.
    pub fn interrupts_enabled(&self) -> (ime: bool)
        ensures
            ime == self@.ime,
    {
        self.ime
    }

    /// Whether EI was executed and has not taken effect yet.
    pub fn interrupts_pending_enable(&self) -> (pending: bool)
        ensures
            pending == self@.ei_pending,
    {
        self.ei_pending
    }

    /// Reads the byte at `addr` without a bus transaction, as a debugger or
    /// a peripheral does.
    pub fn peek(&self, addr: u16) -> (byte: u8)
        ensures
            byte == self@.read(addr),
    {
        self.memory.get(addr)
    }

    /// Stores `value` at `addr` as the cartridge does when it maps its
    /// contents: in ROM too. It takes no cycle.
    pub fn load(&mut self, addr: u16, value: u8)
        ensures
            final(self)@ == old(self)@.load(addr, value),
            final(self).spec_cycles() == old(self).spec_cycles(),
    {
        self.memory.load(addr, value);
    }

    /// The bus of [`Cpu::opcode_filled`]: every opcode of the unprefixed
    /// page at its own value as address, every opcode of the prefixed page
    /// behind its prefix from 0x0100 on, and STOP at 0x0300.
    pub open spec fn spec_opcode_filled_bus() -> Seq<u8> {
        Self::spec_opcode_filled_upto(0x100).update(0x300, 0x10)
    }

    /// The bus of [`Cpu::opcode_filled`] when the first `count` opcodes of
    /// each page are in place.
    pub open spec fn spec_opcode_filled_upto(count: int) -> Seq<u8> {
        Seq::new(
            ADDRESS_SPACE as nat,
            |addr: int|
                if addr < count {
                    addr as u8
                } else if 0x100 <= addr < 0x100 + 2 * count {
                    if (addr - 0x100) % 2 == 0 {
                        0xCBu8
                    } else {
                        ((addr - 0x100) / 2) as u8
                    }
                } else {
                    bus_zero()[addr]
                },
        )
    }

    /// A processor whose memory holds every instruction once: good for
    /// looking at what the decoder makes of each opcode.
    #[verifier::rlimit(40)]
    pub fn opcode_filled() -> (cpu: Cpu)
        ensures
            cpu@ == (CpuState { bus: Self::spec_opcode_filled_bus(), ..CpuState::spec_zero() }),
            cpu.spec_cycles() == 0,
    {
        let mut cpu = Cpu::default();
        assert(cpu@.bus =~= Self::spec_opcode_filled_upto(0));
        let mut i: u16 = 0;
        while i <= 0xFF
            invariant
                i <= 0x100,
                cpu@ == (CpuState {
                    bus: Self::spec_opcode_filled_upto(i as int),
                    ..CpuState::spec_zero()
                }),
                cpu.spec_cycles() == 0,
            decreases 0x100 - i,
        {
            let opcode = i as u8;
            let prefixed_addr = i * 2 + 0x0100;
            cpu.load(i, opcode);
            cpu.load(prefixed_addr, 0xCB);
            cpu.load(prefixed_addr + 1, opcode);
            assert(cpu@.bus =~= Self::spec_opcode_filled_upto(i + 1));
            i += 1;
        }
        let stop_addr: u16 = 0x0300;
        cpu.load(stop_addr, 0x10);
        cpu.load(stop_addr + 1, 0x00);
        assert(cpu@.bus =~= Self::spec_opcode_filled_bus());
        cpu
    }

    /// Cycles: 4
    pub fn current_byte(&mut self) -> (byte: u8)
        ensures
            byte == old(self)@.read(old(self)@.pc()),
            final(self)@ == old(self)@,
            final(self).spec_cycles() == add_cycles(old(self).spec_cycles(), 4),
    {
        let addr = self.get_pc();
        self.get_memory(addr)
    }

    /// Reads the byte at PC and moves PC past it.
    ///
    /// Cycles: 4
    pub fn advance(&mut self) -> (byte: u8)
        ensures
            byte == old(self)@.read(old(self)@.pc()),
            final(self)@ == old(self)@.advance_pc(1),
            final(self).spec_cycles() == add_cycles(old(self).spec_cycles(), 4),
    {
        let byte = self.current_byte();
        self.advance_by(1);
        byte
    }

    pub fn get_reg(&self, reg: Register) -> (byte: u8)
        ensures
            byte == self@.regs.spec_get(reg),
            reg == Register::F ==> byte & 0x0F == 0,
    {
        self.registers.get(reg)
    }

    /// A mutable reference to the byte that holds `reg`, which is not F.
    pub fn get_reg_mut(&mut self, reg: Register) -> (r: &mut u8)
        requires
            reg != Register::F,
        ensures
            *r == old(self)@.regs.spec_get(reg),
            final(self)@ == old(self)@.set_reg(reg, *final(r)),
            final(self).spec_cycles() == old(self).spec_cycles(),
    {
        self.registers.get_mut(reg)
    }

    pub fn put_reg(&mut self, reg: Register, value: u8)
        ensures
            final(self)@ == old(self)@.set_reg(reg, value),
            final(self).spec_cycles() == old(self).spec_cycles(),
    {
        self.registers.set(reg, value);
    }

    pub fn get_long_reg(&self, reg: LongRegister) -> (value: u16)
        ensures
            value == self@.regs.spec_get_long(reg),
            reg == LongRegister::AF ==> value & 0x000F == 0,
    {
        self.registers.get_long(reg)
    }

    /// A mutable reference to the word that holds `reg`, which is SP or PC.
    pub fn get_long_reg_mut(&mut self, reg: LongRegister) -> (r: &mut u16)
        requires
            reg == LongRegister::SP || reg == LongRegister::PC,
        ensures
            *r == old(self)@.regs.spec_get_long(reg),
            final(self)@ == old(self)@.set_long(reg, *final(r)),
            final(self).spec_cycles() == old(self).spec_cycles(),
    {
        self.registers.get_long_mut(reg)
    }

    pub fn put_long_reg(&mut self, reg: LongRegister, value: u16)
        ensures
            final(self)@ == old(self)@.set_long(reg, value),
            final(self).spec_cycles() == old(self).spec_cycles(),
    {
        self.registers.set_long(reg, value);
    }

    /// Cycles: 4
    pub fn get_at_hl(&mut self) -> (byte: u8)
        ensures
            byte == old(self)@.read(old(self)@.hl()),
            final(self)@ == old(self)@,
            final(self).spec_cycles() == add_cycles(old(self).spec_cycles(), 4),
    {
        let hl = self.get_long_reg(LongRegister::HL);
        self.get_memory(hl)
    }

    /// Cycles: 4
    pub fn put_at_hl(&mut self, value: u8)
        ensures
            final(self)@ == old(self)@.write(old(self)@.hl(), value),
            final(self).spec_cycles() == add_cycles(old(self).spec_cycles(), 4),
    {
        let hl = self.get_long_reg(LongRegister::HL);
        self.put_memory(hl, value);
    }

    pub fn get_reg_a(&self) -> (byte: u8)
        ensures
            byte == self@.regs.a,
    {
        self.get_reg(Register::A)
    }

    pub fn put_reg_a(&mut self, value: u8)
        ensures
            final(self)@ == old(self)@.set_reg(Register::A, value),
            final(self).spec_cycles() == old(self).spec_cycles(),
    {
        self.put_reg(Register::A, value);
    }

    /// Reads the byte `delta` addresses after PC, modulo 2^16.
    ///
    /// Cycles: 4
    pub fn get_relative(&mut self, delta: u16) -> (byte: u8)
        ensures
            byte == old(self)@.read(old(self)@.pc().wrapping_add(delta)),
            final(self)@ == old(self)@,
            final(self).spec_cycles() == add_cycles(old(self).spec_cycles(), 4),
    {
        let pc = self.get_pc();
        self.get_memory(pc.wrapping_add(delta))
    }

    pub fn advance_by(&mut self, delta: u16)
        ensures
            final(self)@ == old(self)@.advance_pc(delta),
            final(self).spec_cycles() == old(self).spec_cycles(),
    {
        let pc = self.get_pc_mut();
        *pc = pc.wrapping_add(delta);
    }

    /// Moves PC by a signed distance. In two's complement this is the
    /// addition of the same bits, the carry dropped.
    pub fn move_by(&mut self, delta: i16)
        ensures
            final(self)@ == old(self)@.move_pc(delta),
            final(self).spec_cycles() == old(self).spec_cycles(),
    {
        let pc = self.get_pc();
        self.set_pc(pc.wrapping_add_signed(delta));
    }

    pub fn get_pc_mut(&mut self) -> (pc: &mut u16)
        ensures
            *pc == old(self)@.pc(),
            final(self)@ == old(self)@.set_pc(*final(pc)),
            final(self).spec_cycles() == old(self).spec_cycles(),
    {
        self.registers.get_long_mut(LongRegister::PC)
    }

    pub fn set_pc(&mut self, value: u16)
        ensures
            final(self)@ == old(self)@.set_pc(value),
            final(self).spec_cycles() == old(self).spec_cycles(),
    {
        *self.get_pc_mut() = value;
    }

    pub fn get_pc(&self) -> (pc: u16)
        ensures
            pc == self@.pc(),
    {
        self.registers.get_long(LongRegister::PC)
    }

    /// Cycles: 4
    pub fn get_memory(&mut self, addr: u16) -> (byte: u8)
        ensures
            byte == old(self)@.read(addr),
            final(self)@ == old(self)@,
            final(self).spec_cycles() == add_cycles(old(self).spec_cycles(), 4),
    {
        // memory read is 1 cycle
        self.cycle();
        self.memory.get(addr)
    }

    /// Cycles: 4
    pub fn put_memory(&mut self, addr: u16, value: u8)
        ensures
            final(self)@ == old(self)@.write(addr, value),
            final(self).spec_cycles() == add_cycles(old(self).spec_cycles(), 4),
    {
        // memory write is 1 cycle
        self.cycle();
        self.memory.put(addr, value);
    }

    pub fn get_flags(&self) -> (flags: SetFlags)
        ensures
            flags == self@.flags(),
    {
        self.registers.get_flags()
    }

    pub fn set_flags(&mut self, flags: SetFlags)
        ensures
            final(self)@ == old(self)@.set_flags(flags),
            final(self).spec_cycles() == old(self).spec_cycles(),
    {
        self.registers.set_flags(flags);
    }

    pub fn get_flag(&self, flag: Flags) -> (value: bool)
        ensures
            value == self@.flags().spec_get(flag),
    {
        self.registers.get_flag(flag)
    }

    pub fn set_flag(&mut self, flag: Flags)
        ensures
            final(self)@ == old(self)@.set_flags(old(self)@.flags().spec_with(flag, true)),
            final(self).spec_cycles() == old(self).spec_cycles(),
    {
        self.registers.set_flag(flag);
    }

    pub fn reset_flag(&mut self, flag: Flags)
        ensures
            final(self)@ == old(self)@.set_flags(old(self)@.flags().spec_with(flag, false)),
            final(self).spec_cycles() == old(self).spec_cycles(),
    {
        self.registers.reset_flag(flag);
    }

    pub fn set_flag_to(&mut self, flag: Flags, value: bool)
        ensures
            final(self)@ == old(self)@.set_flags(old(self)@.flags().spec_with(flag, value)),
            final(self).spec_cycles() == old(self).spec_cycles(),
    {
        self.registers.set_flag_to(flag, value);
    }

    /// Reads a word, low byte first.
    ///
    /// Cycles: 8
    pub fn get_long_at(&mut self, addr: u16) -> (value: u16)
        ensures
            value == old(self)@.read_long(addr),
            final(self)@ == old(self)@,
            final(self).spec_cycles() == add_cycles(old(self).spec_cycles(), 8),
    {
        let lsb = self.get_memory(addr);
        let msb = self.get_memory(addr.wrapping_add(1));
        word(msb, lsb)
    }

    /// Writes a word, low byte first.
    ///
    /// Cycles: 8
    pub fn put_long_at(&mut self, addr: u16, value: u16)
        ensures
            final(self)@ == old(self)@.write_long(addr, value),
            final(self).spec_cycles() == add_cycles(old(self).spec_cycles(), 8),
    {
        let msb = value.get_high();
        let lsb = value.get_low();
        self.put_memory(addr, lsb);
        self.put_memory(addr.wrapping_add(1), msb);
    }

    /// Reads the word that follows the byte at PC.
    ///
    /// Cycles: 8
    pub fn get_next_long(&mut self) -> (value: u16)
        ensures
            value == old(self)@.read_long(old(self)@.pc().wrapping_add(1)),
            final(self)@ == old(self)@,
            final(self).spec_cycles() == add_cycles(old(self).spec_cycles(), 8),
    {
        let pc = self.get_pc();
        self.get_long_at(pc.wrapping_add(1))
    }

    /// Reads the word at PC, low byte first, and moves PC past it.
    ///
    /// Cycles: 8
    pub fn advance_long(&mut self) -> (value: u16)
        ensures
            value == old(self)@.read_long(old(self)@.pc()),
            final(self)@ == old(self)@.advance_pc(2),
            final(self).spec_cycles() == add_cycles(old(self).spec_cycles(), 8),
    {
        let lsb = self.advance();
        let msb = self.advance();
        word(msb, lsb)
    }

    /// Pushes a word: SP goes down by one and the high byte is written,
    /// then again for the low byte.
    ///
    /// Cycles: 8
    pub fn push_stack(&mut self, value: u16)
        ensures
            final(self)@ == old(self)@.push(value),
            final(self).spec_cycles() == add_cycles(old(self).spec_cycles(), 8),
    {
        let sp = self.get_long_reg(LongRegister::SP);
        self.put_memory(sp.wrapping_sub(1), value.get_high());
        self.put_memory(sp.wrapping_sub(2), value.get_low());
        self.put_long_reg(LongRegister::SP, sp.wrapping_sub(2));
    }

    /// Pops a word: the low byte is read at SP, the high byte above it, and
    /// SP goes up by two.
    ///
    /// Cycles: 8
    pub fn pop_stack(&mut self) -> (value: u16)
        ensures
            value == old(self)@.stack_top(),
            final(self)@ == old(self)@.pop(),
            final(self).spec_cycles() == add_cycles(old(self).spec_cycles(), 8),
    {
        let sp = self.get_long_reg(LongRegister::SP);
        let value = self.get_long_at(sp);
        self.put_long_reg(LongRegister::SP, sp.wrapping_add(2));
        value
    }

    /// Lets four T-cycles pass without a bus transaction.
    ///
    /// Cycles: 4
    pub fn cycle(&mut self)
        ensures
            final(self)@ == old(self)@,
            final(self).spec_cycles() == add_cycles(old(self).spec_cycles(), 4),
    {
        self.cyclic.cycle()
    }

    /// Enables interrupts at once, as RETI does.
    pub fn enable_interrupts(&mut self)
        ensures
            final(self)@ == old(self)@.set_ime(true).set_ei_pending(false),
            final(self).spec_cycles() == old(self).spec_cycles(),
    {
        self.ime = true;
        self.ei_pending = false;
    }

    /// Enables interrupts once the next instruction is done, as EI does.
    pub fn enable_interrupts_delayed(&mut self)
        ensures
            final(self)@ == old(self)@.set_ei_pending(true),
            final(self).spec_cycles() == old(self).spec_cycles(),
    {
        self.ei_pending = true;
    }

    /// Disables interrupts at once, as DI does; an EI that has not taken
    /// effect yet is dropped.
    pub fn disable_interrupts(&mut self)
        ensures
            final(self)@ == old(self)@.set_ime(false).set_ei_pending(false),
            final(self).spec_cycles() == old(self).spec_cycles(),
    {
        self.ime = false;
        self.ei_pending = false;
    }

    /// Puts the cycle counter at `count`.
    pub fn set_cycles(&mut self, count: u64)
        ensures
            final(self)@ == old(self)@,
            final(self).spec_cycles() == count,
    {
        self.cyclic.set(count);
    }

    /// Changes what the processor does between instructions.
    pub fn set_mode(&mut self, mode: Mode)
        ensures
            final(self)@ == old(self)@.set_mode(mode),
            final(self).spec_cycles() == old(self).spec_cycles(),
    {
        self.mode = mode;
    }

    /// Whether an interrupt is both requested and enabled.
    pub fn interrupt_pending(&self) -> (pending: bool)
        ensures
            pending == self@.interrupt_pending(),
    {
        let enabled = self.memory.get(INTERRUPT_ENABLE_REGISTER_START);
        let requested = self.memory.get(INTERRUPT_FLAG_PORT);
        enabled & requested != 0
    }

    /// Requests an interrupt: sets its bit in the interrupt-flag port.
    pub fn request_interrupt(&mut self, kind: Interrupt)
        ensures
            final(self)@ == old(self)@.request_interrupt(kind),
            final(self).spec_cycles() == old(self).spec_cycles(),
    {
        let requested = self.memory.get(INTERRUPT_FLAG_PORT);
        self.memory.put(INTERRUPT_FLAG_PORT, requested | kind.mask());
    }
}

impl Default for Cpu {
    fn default() -> (cpu: Cpu)
        ensures
            cpu@ == CpuState::spec_zero(),
            cpu.spec_cycles() == 0,
    {
        Cpu {
            registers: Registers::default(),
            memory: Memory::default(),
            cyclic: Cyclic::default(),
            ime: false,
            ei_pending: false,
            mode: Mode::Running,
        }
    }
}

} // verus!
