//! Tests, sets and resets of single bits.

use vstd::prelude::*;
use crate::cpu::cyclic::add_cycles;
use crate::cpu::registers::{Flags, Register, SetFlags};
use crate::cpu::{Cpu, CpuState};
use super::FetchRegister;

verus! {

/// One of the eight bits of a byte, `First` being bit 0.
#[derive(Debug, Clone, Copy, PartialEq, Eq)]
pub enum TargetBit {
    First,
    Second,
    Third,
    Fourth,
    Fifth,
    Sixth,
    Seventh,
    Eighth,
}

impl TargetBit {
    /// The bit that a bit field names: bit `bit` modulo 8.
    pub open spec fn spec_from(bit: u8) -> TargetBit {
        let bit = bit % 8;
        if bit == 0 {
            TargetBit::First
        } else if bit == 1 {
            TargetBit::Second
        } else if bit == 2 {
            TargetBit::Third
        } else if bit == 3 {
            TargetBit::Fourth
        } else if bit == 4 {
            TargetBit::Fifth
        } else if bit == 5 {
            TargetBit::Sixth
        } else if bit == 6 {
            TargetBit::Seventh
        } else {
            TargetBit::Eighth
        }
    }

    /// The number of the bit, from 0 to 7.
    pub open spec fn spec_index(self) -> u8 {
        match self {
            TargetBit::First => 0,
            TargetBit::Second => 1,
            TargetBit::Third => 2,
            TargetBit::Fourth => 3,
            TargetBit::Fifth => 4,
            TargetBit::Sixth => 5,
            TargetBit::Seventh => 6,
            TargetBit::Eighth => 7,
        }
    }

    /// The byte in which the bit alone is set.
    pub open spec fn spec_mask(self) -> u8 {
        1u8 << self.spec_index()
    }

    pub fn get_mask(self) -> (mask: u8)
        ensures
            mask == self.spec_mask(),
    {
        match self {
            TargetBit::First => 1 << 0,
            TargetBit::Second => 1 << 1,
            TargetBit::Third => 1 << 2,
            TargetBit::Fourth => 1 << 3,
            TargetBit::Fifth => 1 << 4,
            TargetBit::Sixth => 1 << 5,
            TargetBit::Seventh => 1 << 6,
            TargetBit::Eighth => 1 << 7,
        }
    }

    /// A bit that was set tests as set, one that was reset tests as reset,
    /// and neither set nor reset touches another bit.
    pub proof fn lemma_set_reset(self, other: TargetBit, byte: u8)
        ensures
            (byte | self.spec_mask()) & self.spec_mask() != 0,
            (byte & !self.spec_mask()) & self.spec_mask() == 0,
            other != self ==> (byte | self.spec_mask()) & other.spec_mask() == byte
                & other.spec_mask(),
            other != self ==> (byte & !self.spec_mask()) & other.spec_mask() == byte
                & other.spec_mask(),
    {
        let i = self.spec_index();
        let j = other.spec_index();
        assert(i < 8 && j < 8 ==> {
            &&& (byte | (1u8 << i)) & (1u8 << i) != 0
            &&& (byte & !(1u8 << i)) & (1u8 << i) == 0
            &&& (i != j ==> (byte | (1u8 << i)) & (1u8 << j) == byte & (1u8 << j))
            &&& (i != j ==> (byte & !(1u8 << i)) & (1u8 << j) == byte & (1u8 << j))
        }) by (bit_vector);
    }
}

impl From<u8> for TargetBit {
    fn from(bit: u8) -> (r: TargetBit) {
        match bit % 8 {
            0 => TargetBit::First,
            1 => TargetBit::Second,
            2 => TargetBit::Third,
            3 => TargetBit::Fourth,
            4 => TargetBit::Fifth,
            5 => TargetBit::Sixth,
            6 => TargetBit::Seventh,
            _ => TargetBit::Eighth,
        }
    }
}

impl vstd::std_specs::convert::FromSpecImpl<u8> for TargetBit {
    open spec fn obeys_from_spec() -> bool {
        true
    }

    open spec fn from_spec(bit: u8) -> TargetBit {
        TargetBit::spec_from(bit)
    }
}

#[derive(Debug, Clone, Copy, PartialEq, Eq)]
pub enum BitInstruction {
    /// BIT b, r
    ///
    /// Test bit b in register r.
    ///
    /// Cycles: 8
    BitRegister(Register, TargetBit),
    /// BIT b, (HL)
    ///
    /// Test bit b at the absolute address HL.
    ///
    /// Cycles: 12
    BitAddrHL(TargetBit),
    /// SET b, r
    ///
    /// Set bit b in register r.
    ///
    /// Cycles: 8
    SetRegister(Register, TargetBit),
    /// SET b, (HL)
    ///
    /// Set bit b at the absolute address HL.
    ///
    /// Cycles: 16
    SetAddrHL(TargetBit),
    /// RES b, r
    ///
    /// Reset bit b in register r.
    ///
    /// Cycles: 8
    ResRegister(Register, TargetBit),
    /// RES b, (HL)
    ///
    /// Reset bit b at the absolute address HL.
    ///
    /// Cycles: 16
    ResAddrHL(TargetBit),
}

impl BitInstruction {
    /// The flags after a test of `target_bit` in `byte`: Z is set when the
    /// bit is zero, N is reset, H is set, and C stays as `carry`.
    pub open spec fn spec_test_bit(byte: u8, target_bit: TargetBit, carry: bool) -> SetFlags {
        SetFlags {
            zero: byte & target_bit.spec_mask() == 0,
            substract: false,
            half_carry: true,
            carry,
        }
    }

    /// The state after the instruction is executed, PC being past it. SET
    /// and RES change no flag.
    pub open spec fn spec_execute(self, s: CpuState) -> CpuState {
        let at_hl = s.read(s.hl());
        let carry = s.flags().carry;
        match self {
            BitInstruction::BitRegister(reg, bit) => s.set_flags(
                Self::spec_test_bit(s.regs.spec_get(reg), bit, carry),
            ),
            BitInstruction::BitAddrHL(bit) => s.set_flags(Self::spec_test_bit(at_hl, bit, carry)),
            BitInstruction::SetRegister(reg, bit) => s.set_reg(
                reg,
                s.regs.spec_get(reg) | bit.spec_mask(),
            ),
            BitInstruction::SetAddrHL(bit) => s.write(s.hl(), at_hl | bit.spec_mask()),
            BitInstruction::ResRegister(reg, bit) => s.set_reg(
                reg,
                s.regs.spec_get(reg) & !bit.spec_mask(),
            ),
            BitInstruction::ResAddrHL(bit) => s.write(s.hl(), at_hl & !bit.spec_mask()),
        }
    }

    /// The bytes that the instruction takes in memory, the prefix counted.
    pub open spec fn spec_length(self) -> int {
        2
    }

    /// The T-cycles that the instruction takes, fetch included.
    pub open spec fn spec_cycles(self) -> int {
        match self {
            BitInstruction::BitRegister(_, _)
            | BitInstruction::SetRegister(_, _)
            | BitInstruction::ResRegister(_, _) => 8,
            BitInstruction::BitAddrHL(_) => 12,
            BitInstruction::SetAddrHL(_) | BitInstruction::ResAddrHL(_) => 16,
        }
    }

    /// The instruction of this family on the prefixed page: `opcode_id` is
    /// the opcode with its low three bits cleared, `reg` the operand that
    /// those bits name. The two high bits choose BIT, RES or SET, bits 5 to
    /// 3 the bit.
    pub open spec fn spec_decode_prefixed(opcode_id: u8, reg: FetchRegister) -> Option<Self> {
        let bit = TargetBit::spec_from(opcode_id / 8);
        if opcode_id / 64 == 1 {
            Some(
                match reg {
                    FetchRegister::Register(r) => BitInstruction::BitRegister(r, bit),
                    FetchRegister::AddrHL => BitInstruction::BitAddrHL(bit),
                },
            )
        } else if opcode_id / 64 == 2 {
            Some(
                match reg {
                    FetchRegister::Register(r) => BitInstruction::ResRegister(r, bit),
                    FetchRegister::AddrHL => BitInstruction::ResAddrHL(bit),
                },
            )
        } else if opcode_id / 64 == 3 {
            Some(
                match reg {
                    FetchRegister::Register(r) => BitInstruction::SetRegister(r, bit),
                    FetchRegister::AddrHL => BitInstruction::SetAddrHL(bit),
                },
            )
        } else {
            None
        }
    }

    pub fn fetch_prefixed(_cpu: &Cpu, opcode_id: u8, reg: FetchRegister) -> (r: Option<Self>)
        ensures
            r == Self::spec_decode_prefixed(opcode_id, reg),
            r matches Some(instruction) ==> instruction.spec_length() == 2,
    {
        let bit = TargetBit::from(opcode_id / 8);
        match opcode_id / 64 {
            1 => Some(
                match reg {
                    FetchRegister::Register(r) => BitInstruction::BitRegister(r, bit),
                    FetchRegister::AddrHL => BitInstruction::BitAddrHL(bit),
                },
            ),
            2 => Some(
                match reg {
                    FetchRegister::Register(r) => BitInstruction::ResRegister(r, bit),
                    FetchRegister::AddrHL => BitInstruction::ResAddrHL(bit),
                },
            ),
            3 => Some(
                match reg {
                    FetchRegister::Register(r) => BitInstruction::SetRegister(r, bit),
                    FetchRegister::AddrHL => BitInstruction::SetAddrHL(bit),
                },
            ),
            _ => None,
        }
    }

    pub fn test_bit(byte: u8, target_bit: TargetBit, carry: bool) -> (flags: SetFlags)
        ensures
            flags == Self::spec_test_bit(byte, target_bit, carry),
    {
        let mask = target_bit.get_mask();
        let zero = byte & mask == 0;
        SetFlags { zero, substract: false, half_carry: true, carry }
    }

    /// Executes the instruction, which was fetched: PC is past it, and the
    /// cycles of the fetch are counted.
    #[verifier::rlimit(40)]
    pub fn execute(self, cpu: &mut Cpu)
        ensures
            final(cpu)@ == self.spec_execute(old(cpu)@),
            final(cpu).spec_cycles() == add_cycles(
                old(cpu).spec_cycles(),
                self.spec_cycles() - 4 * self.spec_length(),
            ),
    {
        // the two fetches are the two cycles of an instruction on a register;
        // on the byte at HL the read and the write are the other cycles
        match self {
            BitInstruction::BitRegister(reg, bit) => {
                let value = cpu.get_reg(reg);
                let carry = cpu.get_flag(Flags::Carry);
                let flags = Self::test_bit(value, bit, carry);
                cpu.set_flags(flags);
            },
            BitInstruction::BitAddrHL(bit) => {
                let value = cpu.get_at_hl();
                let carry = cpu.get_flag(Flags::Carry);
                let flags = Self::test_bit(value, bit, carry);
                cpu.set_flags(flags);
            },
            BitInstruction::SetRegister(reg, bit) => {
                let value = cpu.get_reg(reg);
                let mask = bit.get_mask();
                cpu.put_reg(reg, value | mask);
            },
            BitInstruction::SetAddrHL(bit) => {
                let mut value = cpu.get_at_hl();
                let mask = bit.get_mask();
                value |= mask;
                cpu.put_at_hl(value);
            },
            BitInstruction::ResRegister(reg, bit) => {
                let value = cpu.get_reg(reg);
                let mask = bit.get_mask();
                cpu.put_reg(reg, value & !mask);
            },
            BitInstruction::ResAddrHL(bit) => {
                let mut value = cpu.get_at_hl();
                let mask = bit.get_mask();
                value &= !mask;
                cpu.put_at_hl(value);
            },
        }
    }
}

} // verus!
