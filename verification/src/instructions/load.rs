//! Loads of bytes and words between registers and memory, and the stack.

use vstd::prelude::*;
use crate::cpu::cyclic::add_cycles;
use crate::cpu::registers::{LongRegister, Register, Registers, SetFlags};
use crate::cpu::{Cpu, CpuState};
use crate::help_traits::{
    lemma_join_split, lemma_split_join, spec_high, spec_low, spec_word, word,
};
use crate::memory::is_writable;
use super::{
    pair_or_af, pair_or_sp, signed, spec_pair_or_af, spec_pair_or_sp, spec_signed, spec_unsigned,
    unsigned, FetchRegister,
};

verus! {

#[derive(Debug, Clone, Copy, PartialEq, Eq)]
pub enum LoadInstruction {
    // 8-bits loads
    /// LD r, n: Load register (immediate)
    ///
    /// Load to the 8-bit register r, the immediate data n.
    ///
    /// Cycles: 8
    LoadImmediate(Register, u8),
    /// LD r, r': Load register (register)
    ///
    /// Load to the 8-bit register r, data from the 8-bit register r'.
    ///
    /// Cycles: 4
    LoadRegister(Register, Register),
    /// LD r, (HL)
    ///
    /// Load to the 8-bit register r, data at address (HL).
    ///
    /// Cycles: 8
    LoadFromHLAddr(Register),
    /// LD (HL), r
    ///
    /// Load to the absolute address specified by the 16-bit register HL, data from the 8-bit register r.
    ///
    /// Cycles: 8
    LoadIntoHLAddr(Register),
    /// LD (HL), n
    ///
    /// Load to the absolute address specified by the 16-bit register HL, the immediate data n.
    ///
    /// Cycles: 12
    LoadIntoHLAddrn(u8),
    /// LD A, (lr)
    ///
    /// Load to the 8-bit register A, data at address (lr).
    ///
    /// Cycles: 8
    LoadIntoAFromAddr(LongRegister),
    /// LD A, (nn)
    ///
    /// Load to the 8-bit register A, data at address (nn).
    ///
    /// Cycles: 16
    LoadIntoAFromAddrnn(u16),
    /// LD (lr), A
    ///
    /// Load to the absolute address specified by the 16-bit register lr, data from the 8-bit register A.
    ///
    /// Cycles: 8
    LoadIntoAddrFromA(LongRegister),
    /// LD (nn), A
    ///
    /// Load to the absolute address specified by nn, data from the 8-bit register A.
    ///
    /// Cycles: 16
    LoadIntoAddrnnFromA(u16),
    /// LD A, (C)
    ///
    /// Load to the 8-bit A register, data from the address specified by the 8-bit C register
    ///
    /// The full 16-bit absolute address is obtained by setting the most significant byte to 0xFF
    /// and the least significant byte to the value of C, so the possible range is 0xFF00-0xFFFF.
    ///
    /// Cycles: 8
    LoadFromAddrCIntoA,
    /// LD (C), A
    ///
    /// Load to the address specified by the 8-bit C register, data from the 8-bit A register
    ///
    /// The full 16-bit absolute address is obtained by setting the most significant byte to 0xFF
    /// and the least significant byte to the value of C, so the possible range is 0xFF00-0xFFFF.
    ///
    /// Cycles: 8
    LoadIntoAddrCFromA,
    /// LDD A, (HL)
    ///
    /// Load to the 8-bit A register, data from the absolute address specified by the 16-bit register HL.
    /// The value of HL is decremented after the memory read.
    ///
    /// Cycles: 8
    LoadFromAddrHLIntoADec,
    /// LDD (HL), A
    ///
    /// Load to the absolute address specified by the 16-bit register HL, data from the 8-bit A register.
    /// The value of HL is decremented after the memory write.
    ///
    /// Cycles: 8
    LoadFromAIntoAddrHLDec,
    /// LDI A, (HL)
    ///
    /// Load to the 8-bit A register, data from the absolute address specified by the 16-bit register HL.
    /// The value of HL is incremented after the memory read.
    ///
    /// Cycles: 8
    LoadFromAddrHLIntoAInc,
    /// LDI (HL), A
    ///
    /// Load to the absolute address specified by the 16-bit register HL, data from the 8-bit A register.
    /// The value of HL is incremented after the memory write.
    ///
    /// Cycles: 8
    LoadFromAIntoAddrHLInc,
    /// LDH (n), A
    ///
    /// Load to the address specified by the 8-bit immediate data n, data from the 8-bit A register.
    ///
    /// The full 16-bit absolute address is obtained by setting the most significant byte to 0xFF
    /// and the least significant byte to the value of n, so the possible range is 0xFF00-0xFFFF.
    ///
    /// Cycles: 12
    LoadFromAIntoAddrn(u8),
    /// LDH A, (n)
    ///
    /// Load to the 8-bit A register, data from the address specified by the 8-bit immediate data n.
    ///
    /// The full 16-bit absolute address is obtained by setting the most significant byte to 0xFF
    /// and the least significant byte to the value of n, so the possible range is 0xFF00-0xFFFF.
    ///
    /// Cycles: 12
    LoadFromAddrnIntoA(u8),
    // 16-bits loads
    /// LD rr, nn
    ///
    /// Load to the 16-bit register rr, the immediate 16-bit data nn.
    ///
    /// Cycles: 12
    LoadImmediateLong(LongRegister, u16),
    /// LD SP, HL
    ///
    /// Load to the 16-bit SP register, data from the 16-bit HL register
    ///
    /// Cycles: 8
    LoadFromHLIntoSP,
    /// LDHL SP, n
    ///
    /// Load to the 16-bit HL register, the address specified by the 16-bit register SP + n
    ///
    /// Flags:
    /// Z - Reset.
    /// N - Reset.
    /// H - Set or reset according to operation.
    /// C - Set or reset according to operation.
    ///
    /// Cycles: 12
    LoadFromSPPlusnIntoHL(i8),
    /// LD (nn), SP
    ///
    /// Load to the absolute address specified by the 16-bit operand nn, data from the 16-bit SP register.
    ///
    /// Cycles: 20
    LoadSPIntoAddrnn(u16),
    /// PUSH rr
    ///
    /// Decrement Stack Pointer (SP) twice.
    ///
    /// Push to the stack memory, data from the 16-bit register rr.
    ///
    /// Cycles: 16
    Push(LongRegister),
    /// POP rr
    ///
    /// Pops to the 16-bit register rr, data from the stack memory.
    ///
    /// Increment Stack Pointer (SP) twice.
    ///
    /// This instruction does not do calculations that affect flags, but POP AF completely replaces the F register value,
    /// so all flags are changed based on the 8-bit data that is read from memory.
    ///
    /// Cycles: 12
    Pop(LongRegister),
}

impl LoadInstruction {
    /// The address `addr` moved by the signed `delta`, with the flags that
    /// come of it: H and C are the carries out of bit 3 and out of bit 7 of
    /// the sum of the low byte of `addr` and the byte that holds `delta`,
    /// both taken as unsigned; Z and N are reset.
    pub open spec fn spec_add_delta_to_addr(addr: u16, delta: i8) -> (u16, SetFlags) {
        let byte = spec_unsigned(delta);
        (
            addr.wrapping_add_signed(delta as i16),
            SetFlags {
                zero: false,
                substract: false,
                half_carry: (addr & 0x000F) + (byte & 0x0F) > 0x0F,
                carry: (addr & 0x00FF) + byte > 0xFF,
            },
        )
    }

    /// The address in the last page of memory that the byte `low` names.
    pub open spec fn spec_high_page(low: u8) -> u16 {
        spec_word(0xFF, low)
    }

    /// The state after the instruction is executed, PC being past it.
    pub open spec fn spec_execute(self, s: CpuState) -> CpuState {
        let a = s.regs.a;
        let hl = s.hl();
        match self {
            LoadInstruction::LoadImmediate(reg, n) => s.set_reg(reg, n),
            LoadInstruction::LoadRegister(r1, r2) => s.set_reg(r1, s.regs.spec_get(r2)),
            LoadInstruction::LoadFromHLAddr(reg) => s.set_reg(reg, s.read(hl)),
            LoadInstruction::LoadIntoHLAddr(reg) => s.write(hl, s.regs.spec_get(reg)),
            LoadInstruction::LoadIntoHLAddrn(n) => s.write(hl, n),
            LoadInstruction::LoadIntoAFromAddr(lr) => s.set_reg(
                Register::A,
                s.read(s.regs.spec_get_long(lr)),
            ),
            LoadInstruction::LoadIntoAFromAddrnn(addr) => s.set_reg(Register::A, s.read(addr)),
            LoadInstruction::LoadIntoAddrFromA(lr) => s.write(s.regs.spec_get_long(lr), a),
            LoadInstruction::LoadIntoAddrnnFromA(addr) => s.write(addr, a),
            LoadInstruction::LoadFromAddrCIntoA => s.set_reg(
                Register::A,
                s.read(Self::spec_high_page(s.regs.c)),
            ),
            LoadInstruction::LoadIntoAddrCFromA => s.write(Self::spec_high_page(s.regs.c), a),
            LoadInstruction::LoadFromAddrHLIntoADec => s.set_reg(Register::A, s.read(hl)).set_long(
                LongRegister::HL,
                hl.wrapping_sub(1),
            ),
            LoadInstruction::LoadFromAIntoAddrHLDec => s.write(hl, a).set_long(
                LongRegister::HL,
                hl.wrapping_sub(1),
            ),
            LoadInstruction::LoadFromAddrHLIntoAInc => s.set_reg(Register::A, s.read(hl)).set_long(
                LongRegister::HL,
                hl.wrapping_add(1),
            ),
            LoadInstruction::LoadFromAIntoAddrHLInc => s.write(hl, a).set_long(
                LongRegister::HL,
                hl.wrapping_add(1),
            ),
            LoadInstruction::LoadFromAIntoAddrn(n) => s.write(Self::spec_high_page(n), a),
            LoadInstruction::LoadFromAddrnIntoA(n) => s.set_reg(
                Register::A,
                s.read(Self::spec_high_page(n)),
            ),
            LoadInstruction::LoadImmediateLong(reg, value) => s.set_long(reg, value),
            LoadInstruction::LoadFromHLIntoSP => s.set_long(LongRegister::SP, hl),
            LoadInstruction::LoadFromSPPlusnIntoHL(delta) => {
                let result = Self::spec_add_delta_to_addr(s.sp(), delta);
                s.set_flags(result.1).set_long(LongRegister::HL, result.0)
            },
            LoadInstruction::LoadSPIntoAddrnn(addr) => s.write_long(addr, s.sp()),
            LoadInstruction::Push(reg) => s.push(s.regs.spec_get_long(reg)),
            LoadInstruction::Pop(reg) => s.pop().set_long(reg, s.stack_top()),
        }
    }

    /// The bytes that the instruction takes in memory.
    pub open spec fn spec_length(self) -> int {
        match self {
            LoadInstruction::LoadImmediate(_, _)
            | LoadInstruction::LoadIntoHLAddrn(_)
            | LoadInstruction::LoadFromAIntoAddrn(_)
            | LoadInstruction::LoadFromAddrnIntoA(_)
            | LoadInstruction::LoadFromSPPlusnIntoHL(_) => 2,
            LoadInstruction::LoadIntoAFromAddrnn(_)
            | LoadInstruction::LoadIntoAddrnnFromA(_)
            | LoadInstruction::LoadImmediateLong(_, _)
            | LoadInstruction::LoadSPIntoAddrnn(_) => 3,
            _ => 1,
        }
    }

    /// The T-cycles that the instruction takes, fetch included.
    pub open spec fn spec_cycles(self) -> int {
        match self {
            LoadInstruction::LoadImmediate(_, _) => 8,
            LoadInstruction::LoadRegister(_, _) => 4,
            LoadInstruction::LoadFromHLAddr(_) => 8,
            LoadInstruction::LoadIntoHLAddr(_) => 8,
            LoadInstruction::LoadIntoHLAddrn(_) => 12,
            LoadInstruction::LoadIntoAFromAddr(_) => 8,
            LoadInstruction::LoadIntoAFromAddrnn(_) => 16,
            LoadInstruction::LoadIntoAddrFromA(_) => 8,
            LoadInstruction::LoadIntoAddrnnFromA(_) => 16,
            LoadInstruction::LoadFromAddrCIntoA => 8,
            LoadInstruction::LoadIntoAddrCFromA => 8,
            LoadInstruction::LoadFromAddrHLIntoADec => 8,
            LoadInstruction::LoadFromAIntoAddrHLDec => 8,
            LoadInstruction::LoadFromAddrHLIntoAInc => 8,
            LoadInstruction::LoadFromAIntoAddrHLInc => 8,
            LoadInstruction::LoadFromAIntoAddrn(_) => 12,
            LoadInstruction::LoadFromAddrnIntoA(_) => 12,
            LoadInstruction::LoadImmediateLong(_, _) => 12,
            LoadInstruction::LoadFromHLIntoSP => 8,
            LoadInstruction::LoadFromSPPlusnIntoHL(_) => 12,
            LoadInstruction::LoadSPIntoAddrnn(_) => 20,
            LoadInstruction::Push(_) => 16,
            LoadInstruction::Pop(_) => 12,
        }
    }

    /// LD between two operands that the register fields name, for opcodes
    /// 0x40 to 0x7F: bits 5 to 3 name the destination, bits 2 to 0 the
    /// source. 0x76, with (HL) for both, is no load.
    pub open spec fn spec_fetch_load_r1_r2(opcode: u8) -> Option<Self> {
        match (FetchRegister::spec_from(opcode / 8), FetchRegister::spec_from(opcode)) {
            (FetchRegister::AddrHL, FetchRegister::AddrHL) => None,
            (FetchRegister::AddrHL, FetchRegister::Register(r)) => Some(
                LoadInstruction::LoadIntoHLAddr(r),
            ),
            (FetchRegister::Register(r), FetchRegister::AddrHL) => Some(
                LoadInstruction::LoadFromHLAddr(r),
            ),
            (FetchRegister::Register(r1), FetchRegister::Register(r2)) => Some(
                LoadInstruction::LoadRegister(r1, r2),
            ),
        }
    }

    /// LD of the immediate `n` to the operand that bits 5 to 3 name.
    pub open spec fn spec_fetch_load_immediate(opcode: u8, n: u8) -> Self {
        match FetchRegister::spec_from(opcode / 8) {
            FetchRegister::AddrHL => LoadInstruction::LoadIntoHLAddrn(n),
            FetchRegister::Register(r) => LoadInstruction::LoadImmediate(r, n),
        }
    }

    /// LD of the immediate `nn` to the word register that bits 5 and 4
    /// name, SP among them.
    pub open spec fn spec_fetch_load_immediate_long(opcode: u8, nn: u16) -> Self {
        LoadInstruction::LoadImmediateLong(spec_pair_or_sp(opcode / 16), nn)
    }

    /// The pair that bits 5 and 4 name, AF among them.
    pub open spec fn spec_fetch_long_register(opcode: u8) -> LongRegister {
        spec_pair_or_af(opcode / 16)
    }

    /// The number of bytes that follow `opcode` as its operand, where the
    /// opcode is one of this family.
    pub open spec fn spec_operand_bytes(opcode: u8) -> u16 {
        if opcode == 0x08 || opcode == 0xEA || opcode == 0xFA || (opcode < 0x40 && opcode % 16
            == 1) {
            2
        } else if opcode == 0xE0 || opcode == 0xF0 || opcode == 0xF8 || (opcode < 0x40 && opcode
            % 8 == 6) {
            1
        } else {
            0
        }
    }

    /// The instruction of this family that `opcode` stands for, `n` being
    /// the byte that follows it and `nn` the word that follows it; `None`
    /// where the opcode belongs to another family or to none.
    pub open spec fn spec_decode(opcode: u8, n: u8, nn: u16) -> Option<Self> {
        if opcode == 0x08 {
            Some(LoadInstruction::LoadSPIntoAddrnn(nn))
        } else if opcode == 0x22 {
            Some(LoadInstruction::LoadFromAIntoAddrHLInc)
        } else if opcode == 0x2A {
            Some(LoadInstruction::LoadFromAddrHLIntoAInc)
        } else if opcode == 0x32 {
            Some(LoadInstruction::LoadFromAIntoAddrHLDec)
        } else if opcode == 0x3A {
            Some(LoadInstruction::LoadFromAddrHLIntoADec)
        } else if 0x40 <= opcode <= 0x7F {
            Self::spec_fetch_load_r1_r2(opcode)
        } else if opcode == 0xE0 {
            Some(LoadInstruction::LoadFromAIntoAddrn(n))
        } else if opcode == 0xE2 {
            Some(LoadInstruction::LoadIntoAddrCFromA)
        } else if opcode == 0xEA {
            Some(LoadInstruction::LoadIntoAddrnnFromA(nn))
        } else if opcode == 0xF0 {
            Some(LoadInstruction::LoadFromAddrnIntoA(n))
        } else if opcode == 0xF2 {
            Some(LoadInstruction::LoadFromAddrCIntoA)
        } else if opcode == 0xF9 {
            Some(LoadInstruction::LoadFromHLIntoSP)
        } else if opcode == 0xF8 {
            Some(LoadInstruction::LoadFromSPPlusnIntoHL(spec_signed(n)))
        } else if opcode == 0xFA {
            Some(LoadInstruction::LoadIntoAFromAddrnn(nn))
        } else if opcode < 0x40 && opcode % 16 == 0x0A {
            Some(LoadInstruction::LoadIntoAFromAddr(Self::spec_fetch_long_register(opcode)))
        } else if opcode < 0x40 && opcode % 16 == 0x02 {
            Some(LoadInstruction::LoadIntoAddrFromA(Self::spec_fetch_long_register(opcode)))
        } else if opcode < 0x40 && opcode % 8 == 6 {
            Some(Self::spec_fetch_load_immediate(opcode, n))
        } else if opcode < 0x40 && opcode % 16 == 1 {
            Some(Self::spec_fetch_load_immediate_long(opcode, nn))
        } else if opcode >= 0xC0 && opcode % 16 == 5 {
            Some(LoadInstruction::Push(Self::spec_fetch_long_register(opcode)))
        } else if opcode >= 0xC0 && opcode % 16 == 1 {
            Some(LoadInstruction::Pop(Self::spec_fetch_long_register(opcode)))
        } else {
            None
        }
    }

    fn fetch_load_r1_r2(opcode: u8) -> (r: Option<Self>)
        ensures
            r == Self::spec_fetch_load_r1_r2(opcode),
    {
        match (FetchRegister::from(opcode / 8), FetchRegister::from(opcode)) {
            // 0x76, this is HALT instruction
            (FetchRegister::AddrHL, FetchRegister::AddrHL) => None,
            (FetchRegister::AddrHL, FetchRegister::Register(r)) => Some(
                LoadInstruction::LoadIntoHLAddr(r),
            ),
            (FetchRegister::Register(r), FetchRegister::AddrHL) => Some(
                LoadInstruction::LoadFromHLAddr(r),
            ),
            (FetchRegister::Register(r1), FetchRegister::Register(r2)) => Some(
                LoadInstruction::LoadRegister(r1, r2),
            ),
        }
    }

    fn fetch_load_immediate(opcode: u8, n: u8) -> (r: Self)
        ensures
            r == Self::spec_fetch_load_immediate(opcode, n),
    {
        match FetchRegister::from(opcode / 8) {
            FetchRegister::AddrHL => LoadInstruction::LoadIntoHLAddrn(n),
            FetchRegister::Register(r) => LoadInstruction::LoadImmediate(r, n),
        }
    }

    fn fetch_load_immediate_long(opcode: u8, nn: u16) -> (r: Self)
        ensures
            r == Self::spec_fetch_load_immediate_long(opcode, nn),
    {
        LoadInstruction::LoadImmediateLong(pair_or_sp(opcode / 16), nn)
    }

    fn fetch_long_register(opcode: u8) -> (r: LongRegister)
        ensures
            r == Self::spec_fetch_long_register(opcode),
    {
        pair_or_af(opcode / 16)
    }

    pub fn add_delta_to_addr(addr: u16, delta: i8) -> (r: (u16, SetFlags))
        ensures
            r == Self::spec_add_delta_to_addr(addr, delta),
    {
        let byte = unsigned(delta);
        let half_carry = ((addr & 0x000F) as u32) + ((byte & 0x0F) as u32) > 0x0F;
        let carry = ((addr & 0x00FF) as u32) + (byte as u32) > 0xFF;
        let flags = SetFlags { zero: false, substract: false, half_carry, carry };
        (addr.wrapping_add_signed(delta as i16), flags)
    }

    /// Decodes `opcode`, which was read at PC-1, and reads its operand, if
    /// it has one, at PC.
    #[verifier::rlimit(40)]
    pub fn fetch(cpu: &mut Cpu, opcode: u8) -> (r: Option<Self>)
        ensures
            r == Self::spec_decode(
                opcode,
                old(cpu)@.read(old(cpu)@.pc()),
                old(cpu)@.read_long(old(cpu)@.pc()),
            ),
            r is Some ==> final(cpu)@ == old(cpu)@.advance_pc(Self::spec_operand_bytes(opcode)),
            r is Some ==> final(cpu).spec_cycles() == add_cycles(
                old(cpu).spec_cycles(),
                4 * Self::spec_operand_bytes(opcode),
            ),
            r is None ==> final(cpu)@ == old(cpu)@,
            r is None ==> final(cpu).spec_cycles() == old(cpu).spec_cycles(),
            r matches Some(instruction) ==> instruction.spec_length() == 1
                + Self::spec_operand_bytes(opcode),
    {
        if opcode == 0x08 {
            Some(LoadInstruction::LoadSPIntoAddrnn(cpu.advance_long()))
        } else if opcode == 0x22 {
            Some(LoadInstruction::LoadFromAIntoAddrHLInc)
        } else if opcode == 0x2A {
            Some(LoadInstruction::LoadFromAddrHLIntoAInc)
        } else if opcode == 0x32 {
            Some(LoadInstruction::LoadFromAIntoAddrHLDec)
        } else if opcode == 0x3A {
            Some(LoadInstruction::LoadFromAddrHLIntoADec)
        } else if 0x40 <= opcode && opcode <= 0x7F {
            Self::fetch_load_r1_r2(opcode)
        } else if opcode == 0xE0 {
            Some(LoadInstruction::LoadFromAIntoAddrn(cpu.advance()))
        } else if opcode == 0xE2 {
            Some(LoadInstruction::LoadIntoAddrCFromA)
        } else if opcode == 0xEA {
            Some(LoadInstruction::LoadIntoAddrnnFromA(cpu.advance_long()))
        } else if opcode == 0xF0 {
            Some(LoadInstruction::LoadFromAddrnIntoA(cpu.advance()))
        } else if opcode == 0xF2 {
            Some(LoadInstruction::LoadFromAddrCIntoA)
        } else if opcode == 0xF9 {
            Some(LoadInstruction::LoadFromHLIntoSP)
        } else if opcode == 0xF8 {
            let byte = cpu.advance();
            Some(LoadInstruction::LoadFromSPPlusnIntoHL(signed(byte)))
        } else if opcode == 0xFA {
            Some(LoadInstruction::LoadIntoAFromAddrnn(cpu.advance_long()))
        } else if opcode < 0x40 && opcode % 16 == 0x0A {
            Some(LoadInstruction::LoadIntoAFromAddr(Self::fetch_long_register(opcode)))
        } else if opcode < 0x40 && opcode % 16 == 0x02 {
            Some(LoadInstruction::LoadIntoAddrFromA(Self::fetch_long_register(opcode)))
        } else if opcode < 0x40 && opcode % 8 == 6 {
            let n = cpu.advance();
            Some(Self::fetch_load_immediate(opcode, n))
        } else if opcode < 0x40 && opcode % 16 == 1 {
            let nn = cpu.advance_long();
            Some(Self::fetch_load_immediate_long(opcode, nn))
        } else if opcode >= 0xC0 && opcode % 16 == 5 {
            Some(LoadInstruction::Push(Self::fetch_long_register(opcode)))
        } else if opcode >= 0xC0 && opcode % 16 == 1 {
            Some(LoadInstruction::Pop(Self::fetch_long_register(opcode)))
        } else {
            None
        }
    }

    /// Executes the instruction, which was fetched: PC is past it, and the
    /// cycles of the fetch are counted.
    #[verifier::rlimit(40)]
    pub fn execute(self, cpu: &mut Cpu)
        ensures
            final(cpu)@ == self.spec_execute(old(cpu)@),
            final(cpu).spec_cycles() == add_cycles(
                old(cpu).spec_cycles(),
                self.spec_cycles() - 4 * self.spec_length(),
            ),
    {
        match self {
            LoadInstruction::LoadImmediate(reg, n) => {
                cpu.put_reg(reg, n);
            },
            LoadInstruction::LoadRegister(r1, r2) => {
                let value = cpu.get_reg(r2);
                cpu.put_reg(r1, value);
            },
            LoadInstruction::LoadFromHLAddr(reg) => {
                let value = cpu.get_at_hl();
                cpu.put_reg(reg, value);
            },
            LoadInstruction::LoadIntoHLAddr(reg) => {
                let value = cpu.get_reg(reg);
                cpu.put_at_hl(value);
            },
            LoadInstruction::LoadIntoHLAddrn(n) => {
                cpu.put_at_hl(n);
            },
            LoadInstruction::LoadIntoAFromAddr(lr) => {
                let addr = cpu.get_long_reg(lr);
                let value = cpu.get_memory(addr);
                cpu.put_reg(Register::A, value);
            },
            LoadInstruction::LoadIntoAFromAddrnn(addr) => {
                let value = cpu.get_memory(addr);
                cpu.put_reg(Register::A, value);
            },
            LoadInstruction::LoadIntoAddrFromA(lr) => {
                let addr = cpu.get_long_reg(lr);
                let value = cpu.get_reg_a();
                cpu.put_memory(addr, value);
            },
            LoadInstruction::LoadIntoAddrnnFromA(addr) => {
                let value = cpu.get_reg_a();
                cpu.put_memory(addr, value);
            },
            LoadInstruction::LoadFromAddrCIntoA => {
                let c_reg = cpu.get_reg(Register::C);
                let addr = word(0xFF, c_reg);
                let value = cpu.get_memory(addr);
                cpu.put_reg_a(value);
            },
            LoadInstruction::LoadIntoAddrCFromA => {
                let c_reg = cpu.get_reg(Register::C);
                let addr = word(0xFF, c_reg);
                let value = cpu.get_reg_a();
                cpu.put_memory(addr, value);
            },
            LoadInstruction::LoadFromAddrHLIntoADec => {
                let addr = cpu.get_long_reg(LongRegister::HL);
                let value = cpu.get_memory(addr);
                cpu.put_reg_a(value);
                cpu.put_long_reg(LongRegister::HL, addr.wrapping_sub(1));
            },
            LoadInstruction::LoadFromAIntoAddrHLDec => {
                let addr = cpu.get_long_reg(LongRegister::HL);
                let value = cpu.get_reg_a();
                cpu.put_memory(addr, value);
                cpu.put_long_reg(LongRegister::HL, addr.wrapping_sub(1));
            },
            LoadInstruction::LoadFromAddrHLIntoAInc => {
                let addr = cpu.get_long_reg(LongRegister::HL);
                let value = cpu.get_memory(addr);
                cpu.put_reg_a(value);
                cpu.put_long_reg(LongRegister::HL, addr.wrapping_add(1));
            },
            LoadInstruction::LoadFromAIntoAddrHLInc => {
                let addr = cpu.get_long_reg(LongRegister::HL);
                let value = cpu.get_reg_a();
                cpu.put_memory(addr, value);
                cpu.put_long_reg(LongRegister::HL, addr.wrapping_add(1));
            },
            LoadInstruction::LoadFromAIntoAddrn(n) => {
                let addr = word(0xFF, n);
                let value = cpu.get_reg_a();
                cpu.put_memory(addr, value);
            },
            LoadInstruction::LoadFromAddrnIntoA(n) => {
                let addr = word(0xFF, n);
                let value = cpu.get_memory(addr);
                cpu.put_reg_a(value);
            },
            LoadInstruction::LoadImmediateLong(reg, value) => {
                cpu.put_long_reg(reg, value);
            },
            LoadInstruction::LoadFromHLIntoSP => {
                // 2 machine cycle but only one W/R, so need to explicitly cycle
                cpu.cycle();
                let value = cpu.get_long_reg(LongRegister::HL);
                cpu.put_long_reg(LongRegister::SP, value);
            },
            LoadInstruction::LoadFromSPPlusnIntoHL(delta) => {
                // 3 machine cycle but only two W/R, so need to explicitly cycle
                cpu.cycle();
                let sp = cpu.get_long_reg(LongRegister::SP);
                let (value, flags) = Self::add_delta_to_addr(sp, delta);
                cpu.set_flags(flags);
                cpu.put_long_reg(LongRegister::HL, value);
            },
            LoadInstruction::LoadSPIntoAddrnn(addr) => {
                let value = cpu.get_long_reg(LongRegister::SP);
                cpu.put_long_at(addr, value);
            },
            LoadInstruction::Push(long_reg) => {
                // 4 machine cycle but only 3 W/R, so need to explicitly cycle
                cpu.cycle();
                let value = cpu.get_long_reg(long_reg);
                cpu.push_stack(value);
            },
            LoadInstruction::Pop(long_reg) => {
                let value = cpu.pop_stack();
                cpu.put_long_reg(long_reg, value);
            },
        }
    }

    /// PUSH of a word register and then POP of the same restore the
    /// register, whatever became of the registers in between, as long as
    /// SP was left where the push put it and the two bytes below the old
    /// SP are bytes that the bus stores. SP is then back where it was.
    #[verifier::rlimit(40)]
    pub proof fn lemma_push_pop(s: CpuState, reg: LongRegister, between: Registers)
        requires
            s.valid(),
            is_writable(s.sp().wrapping_sub(1)),
            is_writable(s.sp().wrapping_sub(2)),
            between.sp == s.sp().wrapping_sub(2),
        ensures
            ({
                let pushed = LoadInstruction::Push(reg).spec_execute(s);
                let popped = LoadInstruction::Pop(reg).spec_execute(pushed.with_regs(between));
                &&& pushed.sp() == s.sp().wrapping_sub(2)
                &&& pushed.read(pushed.sp()) == spec_low(s.regs.spec_get_long(reg))
                &&& pushed.read(pushed.sp().wrapping_add(1)) == spec_high(
                    s.regs.spec_get_long(reg),
                )
                &&& popped.regs.spec_get_long(reg) == s.regs.spec_get_long(reg)
                &&& reg == LongRegister::AF ==> popped.flags() == s.flags()
                &&& reg != LongRegister::SP ==> popped.sp() == s.sp()
                &&& popped.bus == pushed.bus
            }),
    {
        let value = s.regs.spec_get_long(reg);
        s.lemma_push_then_top(value);
        s.regs.flags.lemma_byte_round_trip();
        lemma_join_split(s.regs.a, s.regs.flags.spec_byte());
        lemma_split_join(value);
        let pushed = LoadInstruction::Push(reg).spec_execute(s);
        assert(pushed == s.push(value));
        let later = pushed.with_regs(between);
        assert(later.stack_top() == value);
        let popped = LoadInstruction::Pop(reg).spec_execute(later);
        assert(popped == later.pop().set_long(reg, value));
    }
}

} // verus!
