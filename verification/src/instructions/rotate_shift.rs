//! Rotations and shifts of a byte by one bit.

use vstd::prelude::*;
use crate::cpu::cyclic::add_cycles;
use crate::cpu::registers::{Flags, Register, SetFlags};
use crate::cpu::{Cpu, CpuState};
use super::FetchRegister;

verus! {

#[derive(Debug, Clone, Copy, PartialEq, Eq)]
pub enum RotateShiftInstruction {
    /// RLCA
    ///
    /// Rotate A left. Old bit 7 to Carry flag.
    ///
    /// Cycles: 4
    RotateLeftCarryA,
    /// RLA
    ///
    /// Rotate A left through Carry flag.
    ///
    /// Cycles: 4
    RotateLeftA,
    /// RRCA
    ///
    /// Rotate A right. Old bit 0 to Carry flag.
    ///
    /// Cycles: 4
    RotateRightCarryA,
    /// RRA
    ///
    /// Rotate A right through Carry flag.
    ///
    /// Cycles: 4
    RotateRightA,
    /// RLC r
    ///
    /// Rotate r left. Old bit 7 to Carry flag.
    ///
    /// Cycles: 8
    RotateLeftCarryRegister(Register),
    /// RLC (HL)
    ///
    /// Rotate the value at the absolute address HL left. Old bit 7 to Carry flag.
    ///
    /// Cycles: 16
    RotateLeftCarryAddrHL,
    /// RL r
    ///
    /// Rotate r left through Carry flag.
    ///
    /// Cycles: 8
    RotateLeftRegister(Register),
    /// RL (HL)
    ///
    /// Rotate the value at the absolute address HL left through Carry flag.
    ///
    /// Cycles: 16
    RotateLeftAddrHL,
    /// RRC r
    ///
    /// Rotate r right. Old bit 0 to Carry flag.
    ///
    /// Cycles: 8
    RotateRightCarryRegister(Register),
    /// RRC (HL)
    ///
    /// Rotate the value at the absolute address HL right. Old bit 0 to Carry flag.
    ///
    /// Cycles: 16
    RotateRightCarryAddrHL,
    /// RR r
    ///
    /// Rotate r right through Carry flag.
    ///
    /// Cycles: 8
    RotateRightRegister(Register),
    /// RR (HL)
    ///
    /// Rotate the value at the absolute address HL right through Carry flag.
    ///
    /// Cycles: 16
    RotateRightAddrHL,
    /// SLA r
    ///
    /// Shift r left into Carry. LSB of r set to 0.
    ///
    /// Cycles: 8
    ShiftLeftRegister(Register),
    /// SLA (HL)
    ///
    /// Shift the value at the absolute address HL left into Carry. LSB set to 0.
    ///
    /// Cycles: 16
    ShiftLeftAddrHL,
    /// SRA r
    ///
    /// Shift r right into Carry. MSB doesn't change.
    ///
    /// Cycles: 8
    ShiftRightRegisterSigned(Register),
    /// SRA (HL)
    ///
    /// Shift the value at the absolute address HL right into Carry. MSB doesn't change.
    ///
    /// Cycles: 16
    ShiftRightAddrHLSigned,
    /// SRL r
    ///
    /// Shift r right into Carry. MSB set to zero.
    ///
    /// Cycles: 8
    ShiftRightRegister(Register),
    /// SRL (HL)
    ///
    /// Shift the value at the absolute address HL right into Carry. MSB set to zero.
    ///
    /// Cycles: 16
    ShiftRightAddrHL,
}

/// Where a rotation or shift takes its byte and puts the result.
pub enum RotateShiftTarget {
    /// Register A, by one of the four one-byte opcodes, which reset Z.
    Accumulator,
    Register(Register),
    AddrHL,
}

impl RotateShiftInstruction {
    /// The flags after a rotation or shift gave `value` and moved `carry`
    /// out: Z on zero, N and H reset.
    pub open spec fn spec_flags(value: u8, carry: bool) -> SetFlags {
        SetFlags { zero: value == 0, substract: false, half_carry: false, carry }
    }

    /// Rotation of the eight bits of `n` by one: the bit that leaves at one
    /// end enters at the other, and is copied to C.
    pub open spec fn spec_rotate_carry(n: u8, left: bool) -> (u8, SetFlags) {
        if left {
            let value = (n << 1) | (n >> 7);
            (value, Self::spec_flags(value, n & 0x80 != 0))
        } else {
            let value = (n >> 1) | (n << 7);
            (value, Self::spec_flags(value, n & 0x01 != 0))
        }
    }

    /// Rotation of nine bits by one, `old_carry` being the ninth: the old
    /// carry enters at one end, and the bit that leaves at the other is the
    /// new C.
    pub open spec fn spec_rotate(n: u8, old_carry: bool, left: bool) -> (u8, SetFlags) {
        if left {
            let value = (n << 1) | (if old_carry { 0x01u8 } else { 0u8 });
            (value, Self::spec_flags(value, n & 0x80 != 0))
        } else {
            let value = (n >> 1) | (if old_carry { 0x80u8 } else { 0u8 });
            (value, Self::spec_flags(value, n & 0x01 != 0))
        }
    }

    /// Shift of `n` by one bit: the bit that leaves is the new C. To the
    /// left, bit 0 becomes zero. To the right, bit 7 stays as it was where
    /// the shift is `signed`, and becomes zero where it is not.
    pub open spec fn spec_shift(n: u8, signed: bool, left: bool) -> (u8, SetFlags) {
        if left {
            let value = n << 1;
            (value, Self::spec_flags(value, n & 0x80 != 0))
        } else if signed {
            let value = (n >> 1) | (n & 0x80);
            (value, Self::spec_flags(value, n & 0x01 != 0))
        } else {
            let value = n >> 1;
            (value, Self::spec_flags(value, n & 0x01 != 0))
        }
    }

    /// Where the instruction takes its byte and puts the result.
    pub open spec fn spec_target(self) -> RotateShiftTarget {
        match self {
            RotateShiftInstruction::RotateLeftCarryA
            | RotateShiftInstruction::RotateLeftA
            | RotateShiftInstruction::RotateRightCarryA
            | RotateShiftInstruction::RotateRightA => RotateShiftTarget::Accumulator,
            RotateShiftInstruction::RotateLeftCarryRegister(reg)
            | RotateShiftInstruction::RotateLeftRegister(reg)
            | RotateShiftInstruction::RotateRightCarryRegister(reg)
            | RotateShiftInstruction::RotateRightRegister(reg)
            | RotateShiftInstruction::ShiftLeftRegister(reg)
            | RotateShiftInstruction::ShiftRightRegisterSigned(reg)
            | RotateShiftInstruction::ShiftRightRegister(reg) => RotateShiftTarget::Register(reg),
            RotateShiftInstruction::RotateLeftCarryAddrHL
            | RotateShiftInstruction::RotateLeftAddrHL
            | RotateShiftInstruction::RotateRightCarryAddrHL
            | RotateShiftInstruction::RotateRightAddrHL
            | RotateShiftInstruction::ShiftLeftAddrHL
            | RotateShiftInstruction::ShiftRightAddrHLSigned
            | RotateShiftInstruction::ShiftRightAddrHL => RotateShiftTarget::AddrHL,
        }
    }

    /// The byte and the flags that the instruction makes of the byte `n`
    /// when C is `carry`. The one-byte opcodes on A reset Z.
    pub open spec fn spec_result(self, n: u8, carry: bool) -> (u8, SetFlags) {
        match self {
            RotateShiftInstruction::RotateLeftCarryA => (
                Self::spec_rotate_carry(n, true).0,
                SetFlags { zero: false, ..Self::spec_rotate_carry(n, true).1 },
            ),
            RotateShiftInstruction::RotateLeftA => (
                Self::spec_rotate(n, carry, true).0,
                SetFlags { zero: false, ..Self::spec_rotate(n, carry, true).1 },
            ),
            RotateShiftInstruction::RotateRightCarryA => (
                Self::spec_rotate_carry(n, false).0,
                SetFlags { zero: false, ..Self::spec_rotate_carry(n, false).1 },
            ),
            RotateShiftInstruction::RotateRightA => (
                Self::spec_rotate(n, carry, false).0,
                SetFlags { zero: false, ..Self::spec_rotate(n, carry, false).1 },
            ),
            RotateShiftInstruction::RotateLeftCarryRegister(_)
            | RotateShiftInstruction::RotateLeftCarryAddrHL => Self::spec_rotate_carry(n, true),
            RotateShiftInstruction::RotateLeftRegister(_)
            | RotateShiftInstruction::RotateLeftAddrHL => Self::spec_rotate(n, carry, true),
            RotateShiftInstruction::RotateRightCarryRegister(_)
            | RotateShiftInstruction::RotateRightCarryAddrHL => Self::spec_rotate_carry(n, false),
            RotateShiftInstruction::RotateRightRegister(_)
            | RotateShiftInstruction::RotateRightAddrHL => Self::spec_rotate(n, carry, false),
            RotateShiftInstruction::ShiftLeftRegister(_)
            | RotateShiftInstruction::ShiftLeftAddrHL => Self::spec_shift(n, false, true),
            RotateShiftInstruction::ShiftRightRegisterSigned(_)
            | RotateShiftInstruction::ShiftRightAddrHLSigned => Self::spec_shift(n, true, false),
            RotateShiftInstruction::ShiftRightRegister(_)
            | RotateShiftInstruction::ShiftRightAddrHL => Self::spec_shift(n, false, false),
        }
    }

    /// The byte that the instruction works on.
    pub open spec fn spec_operand(self, s: CpuState) -> u8 {
        match self.spec_target() {
            RotateShiftTarget::Accumulator => s.regs.a,
            RotateShiftTarget::Register(reg) => s.regs.spec_get(reg),
            RotateShiftTarget::AddrHL => s.read(s.hl()),
        }
    }

    /// The state after the instruction is executed, PC being past it: the
    /// result is put where the byte was taken, then the flags are set.
    pub open spec fn spec_execute(self, s: CpuState) -> CpuState {
        let result = self.spec_result(self.spec_operand(s), s.flags().carry);
        match self.spec_target() {
            RotateShiftTarget::Accumulator => s.set_reg(Register::A, result.0).set_flags(result.1),
            RotateShiftTarget::Register(reg) => s.set_reg(reg, result.0).set_flags(result.1),
            RotateShiftTarget::AddrHL => s.write(s.hl(), result.0).set_flags(result.1),
        }
    }

    /// The bytes that the instruction takes in memory, the prefix counted.
    pub open spec fn spec_length(self) -> int {
        match self.spec_target() {
            RotateShiftTarget::Accumulator => 1,
            _ => 2,
        }
    }

    /// The T-cycles that the instruction takes, fetch included.
    pub open spec fn spec_cycles(self) -> int {
        match self.spec_target() {
            RotateShiftTarget::Accumulator => 4,
            RotateShiftTarget::Register(_) => 8,
            RotateShiftTarget::AddrHL => 16,
        }
    }

    /// The instruction of this family on the prefixed page: `opcode_id` is
    /// the opcode with its low three bits cleared, `reg` the operand that
    /// those bits name.
    pub open spec fn spec_decode_prefixed(opcode_id: u8, reg: FetchRegister) -> Option<Self> {
        if opcode_id == 0x00 {
            Some(
                match reg {
                    FetchRegister::Register(r) => RotateShiftInstruction::RotateLeftCarryRegister(r),
                    FetchRegister::AddrHL => RotateShiftInstruction::RotateLeftCarryAddrHL,
                },
            )
        } else if opcode_id == 0x10 {
            Some(
                match reg {
                    FetchRegister::Register(r) => RotateShiftInstruction::RotateLeftRegister(r),
                    FetchRegister::AddrHL => RotateShiftInstruction::RotateLeftAddrHL,
                },
            )
        } else if opcode_id == 0x08 {
            Some(
                match reg {
                    FetchRegister::Register(r) => RotateShiftInstruction::RotateRightCarryRegister(
                        r,
                    ),
                    FetchRegister::AddrHL => RotateShiftInstruction::RotateRightCarryAddrHL,
                },
            )
        } else if opcode_id == 0x18 {
            Some(
                match reg {
                    FetchRegister::Register(r) => RotateShiftInstruction::RotateRightRegister(r),
                    FetchRegister::AddrHL => RotateShiftInstruction::RotateRightAddrHL,
                },
            )
        } else if opcode_id == 0x20 {
            Some(
                match reg {
                    FetchRegister::Register(r) => RotateShiftInstruction::ShiftLeftRegister(r),
                    FetchRegister::AddrHL => RotateShiftInstruction::ShiftLeftAddrHL,
                },
            )
        } else if opcode_id == 0x28 {
            Some(
                match reg {
                    FetchRegister::Register(r) => RotateShiftInstruction::ShiftRightRegisterSigned(
                        r,
                    ),
                    FetchRegister::AddrHL => RotateShiftInstruction::ShiftRightAddrHLSigned,
                },
            )
        } else if opcode_id == 0x38 {
            Some(
                match reg {
                    FetchRegister::Register(r) => RotateShiftInstruction::ShiftRightRegister(r),
                    FetchRegister::AddrHL => RotateShiftInstruction::ShiftRightAddrHL,
                },
            )
        } else {
            None
        }
    }

    /// The instruction of this family that the unprefixed `opcode` stands
    /// for.
    pub open spec fn spec_decode(opcode: u8) -> Option<Self> {
        if opcode == 0x07 {
            Some(RotateShiftInstruction::RotateLeftCarryA)
        } else if opcode == 0x17 {
            Some(RotateShiftInstruction::RotateLeftA)
        } else if opcode == 0x0F {
            Some(RotateShiftInstruction::RotateRightCarryA)
        } else if opcode == 0x1F {
            Some(RotateShiftInstruction::RotateRightA)
        } else {
            None
        }
    }

    pub fn fetch_prefixed(_cpu: &Cpu, opcode_id: u8, reg: FetchRegister) -> (r: Option<Self>)
        ensures
            r == Self::spec_decode_prefixed(opcode_id, reg),
            r matches Some(instruction) ==> instruction.spec_length() == 2,
    {
        match opcode_id {
            // Rotate left
            0x00 => Some(
                match reg {
                    FetchRegister::Register(r) => RotateShiftInstruction::RotateLeftCarryRegister(r),
                    FetchRegister::AddrHL => RotateShiftInstruction::RotateLeftCarryAddrHL,
                },
            ),
            0x10 => Some(
                match reg {
                    FetchRegister::Register(r) => RotateShiftInstruction::RotateLeftRegister(r),
                    FetchRegister::AddrHL => RotateShiftInstruction::RotateLeftAddrHL,
                },
            ),
            // Rotate right
            0x08 => Some(
                match reg {
                    FetchRegister::Register(r) => RotateShiftInstruction::RotateRightCarryRegister(
                        r,
                    ),
                    FetchRegister::AddrHL => RotateShiftInstruction::RotateRightCarryAddrHL,
                },
            ),
            0x18 => Some(
                match reg {
                    FetchRegister::Register(r) => RotateShiftInstruction::RotateRightRegister(r),
                    FetchRegister::AddrHL => RotateShiftInstruction::RotateRightAddrHL,
                },
            ),
            // Shift left
            0x20 => Some(
                match reg {
                    FetchRegister::Register(r) => RotateShiftInstruction::ShiftLeftRegister(r),
                    FetchRegister::AddrHL => RotateShiftInstruction::ShiftLeftAddrHL,
                },
            ),
            // Shift right with MSB unchanged
            0x28 => Some(
                match reg {
                    FetchRegister::Register(r) => RotateShiftInstruction::ShiftRightRegisterSigned(
                        r,
                    ),
                    FetchRegister::AddrHL => RotateShiftInstruction::ShiftRightAddrHLSigned,
                },
            ),
            // Shift right with MSB = 0
            0x38 => Some(
                match reg {
                    FetchRegister::Register(r) => RotateShiftInstruction::ShiftRightRegister(r),
                    FetchRegister::AddrHL => RotateShiftInstruction::ShiftRightAddrHL,
                },
            ),
            _ => None,
        }
    }

    pub fn fetch(_cpu: &Cpu, opcode: u8) -> (r: Option<Self>)
        ensures
            r == Self::spec_decode(opcode),
            r matches Some(instruction) ==> instruction.spec_length() == 1,
    {
        match opcode {
            0x07 => Some(RotateShiftInstruction::RotateLeftCarryA),
            0x17 => Some(RotateShiftInstruction::RotateLeftA),
            0x0F => Some(RotateShiftInstruction::RotateRightCarryA),
            0x1F => Some(RotateShiftInstruction::RotateRightA),
            _ => None,
        }
    }

    fn target(self) -> (target: RotateShiftTarget)
        ensures
            target == self.spec_target(),
    {
        match self {
            RotateShiftInstruction::RotateLeftCarryA
            | RotateShiftInstruction::RotateLeftA
            | RotateShiftInstruction::RotateRightCarryA
            | RotateShiftInstruction::RotateRightA => RotateShiftTarget::Accumulator,
            RotateShiftInstruction::RotateLeftCarryRegister(reg)
            | RotateShiftInstruction::RotateLeftRegister(reg)
            | RotateShiftInstruction::RotateRightCarryRegister(reg)
            | RotateShiftInstruction::RotateRightRegister(reg)
            | RotateShiftInstruction::ShiftLeftRegister(reg)
            | RotateShiftInstruction::ShiftRightRegisterSigned(reg)
            | RotateShiftInstruction::ShiftRightRegister(reg) => RotateShiftTarget::Register(reg),
            RotateShiftInstruction::RotateLeftCarryAddrHL
            | RotateShiftInstruction::RotateLeftAddrHL
            | RotateShiftInstruction::RotateRightCarryAddrHL
            | RotateShiftInstruction::RotateRightAddrHL
            | RotateShiftInstruction::ShiftLeftAddrHL
            | RotateShiftInstruction::ShiftRightAddrHLSigned
            | RotateShiftInstruction::ShiftRightAddrHL => RotateShiftTarget::AddrHL,
        }
    }

    fn result(self, n: u8, carry: bool) -> (r: (u8, SetFlags))
        ensures
            r == self.spec_result(n, carry),
    {
        match self {
            RotateShiftInstruction::RotateLeftCarryA => {
                let (value, flags) = Self::rotate_carry(n, true);
                (value, SetFlags { zero: false, ..flags })
            },
            RotateShiftInstruction::RotateLeftA => {
                let (value, flags) = Self::rotate(n, carry, true);
                (value, SetFlags { zero: false, ..flags })
            },
            RotateShiftInstruction::RotateRightCarryA => {
                let (value, flags) = Self::rotate_carry(n, false);
                (value, SetFlags { zero: false, ..flags })
            },
            RotateShiftInstruction::RotateRightA => {
                let (value, flags) = Self::rotate(n, carry, false);
                (value, SetFlags { zero: false, ..flags })
            },
            RotateShiftInstruction::RotateLeftCarryRegister(_)
            | RotateShiftInstruction::RotateLeftCarryAddrHL => Self::rotate_carry(n, true),
            RotateShiftInstruction::RotateLeftRegister(_)
            | RotateShiftInstruction::RotateLeftAddrHL => Self::rotate(n, carry, true),
            RotateShiftInstruction::RotateRightCarryRegister(_)
            | RotateShiftInstruction::RotateRightCarryAddrHL => Self::rotate_carry(n, false),
            RotateShiftInstruction::RotateRightRegister(_)
            | RotateShiftInstruction::RotateRightAddrHL => Self::rotate(n, carry, false),
            RotateShiftInstruction::ShiftLeftRegister(_)
            | RotateShiftInstruction::ShiftLeftAddrHL => Self::shift(n, false, true),
            RotateShiftInstruction::ShiftRightRegisterSigned(_)
            | RotateShiftInstruction::ShiftRightAddrHLSigned => Self::shift(n, true, false),
            RotateShiftInstruction::ShiftRightRegister(_)
            | RotateShiftInstruction::ShiftRightAddrHL => Self::shift(n, false, false),
        }
    }

    /// Executes the instruction, which was fetched: PC is past it, and the
    /// cycles of the fetch are counted.
    #[verifier::rlimit(40)]
    pub fn execute(self, cpu: &mut Cpu)
        ensures
            final(cpu)@ == self.spec_execute(old(cpu)@),
            final(cpu).spec_cycles() == add_cycles(
                old(cpu).spec_cycles(),
                self.spec_cycles() - 4 * self.spec_length(),
            ),
    {
        // all opcodes are either not prefixed and just operate on A and take 4 cycles
        // or are prefixed and take 8 / 16 cycles
        // so no cycle adjust needed
        let carry = cpu.get_flag(Flags::Carry);
        match self.target() {
            RotateShiftTarget::Accumulator => {
                let value = cpu.get_reg_a();
                let (value, flags) = self.result(value, carry);
                cpu.put_reg_a(value);
                cpu.set_flags(flags);
            },
            RotateShiftTarget::Register(reg) => {
                let value = cpu.get_reg(reg);
                let (value, flags) = self.result(value, carry);
                cpu.put_reg(reg, value);
                cpu.set_flags(flags);
            },
            RotateShiftTarget::AddrHL => {
                let value = cpu.get_at_hl();
                let (value, flags) = self.result(value, carry);
                cpu.put_at_hl(value);
                cpu.set_flags(flags);
            },
        }
    }

    // RotateCarry means 8 bits rotation, the bits are rotated and one is copied to carry
    // Rotate means 9 bits rotation: shift, set empty bit to carry, then set carry to popped bit
    pub fn rotate_carry(n: u8, left: bool) -> (r: (u8, SetFlags))
        ensures
            r == Self::spec_rotate_carry(n, left),
    {
        let (value, carry) = if left {
            ((n << 1) | (n >> 7), n & 0x80 != 0)
        } else {
            ((n >> 1) | (n << 7), n & 0x01 != 0)
        };
        let flags = SetFlags { zero: value == 0, carry, ..SetFlags::default() };
        (value, flags)
    }

    pub fn rotate(n: u8, old_carry: bool, left: bool) -> (r: (u8, SetFlags))
        ensures
            r == Self::spec_rotate(n, old_carry, left),
    {
        let (carry_bit, carry): (u8, bool) = match (old_carry, left) {
            (true, true) => (0x01, n & 0x80 != 0),
            (true, false) => (0x80, n & 0x01 != 0),
            (false, true) => (0, n & 0x80 != 0),
            (false, false) => (0, n & 0x01 != 0),
        };
        let shifted = if left {
            n << 1
        } else {
            n >> 1
        };
        let value = shifted | carry_bit;
        let flags = SetFlags { zero: value == 0, carry, ..SetFlags::default() };
        (value, flags)
    }

    pub fn shift(n: u8, signed: bool, left: bool) -> (r: (u8, SetFlags))
        ensures
            r == Self::spec_shift(n, signed, left),
    {
        let carry = if left {
            n & 0x80 != 0
        } else {
            n & 0x01 != 0
        };
        let value = match (signed, left) {
            (true, false) => (n >> 1) | (n & 0x80),
            (false, false) => n >> 1,
            (_, true) => n << 1,
        };
        let flags = SetFlags { zero: value == 0, carry, ..SetFlags::default() };
        (value, flags)
    }

    /// A rotation of the eight bits to one side and then to the other gives
    /// the byte back.
    pub proof fn lemma_rotate_carry_round_trip(n: u8)
        ensures
            Self::spec_rotate_carry(Self::spec_rotate_carry(n, true).0, false).0 == n,
            Self::spec_rotate_carry(Self::spec_rotate_carry(n, false).0, true).0 == n,
    {
        assert({
            let l = (n << 1) | (n >> 7);
            let r = (n >> 1) | (n << 7);
            ((l >> 1) | (l << 7)) == n && ((r << 1) | (r >> 7)) == n
        }) by (bit_vector);
    }

    /// A rotation through carry to one side and then to the other, the
    /// carry of the first being handed to the second, gives the byte and
    /// the carry back.
    pub proof fn lemma_rotate_round_trip(n: u8, carry: bool)
        ensures
            ({
                let there = Self::spec_rotate(n, carry, true);
                let back = Self::spec_rotate(there.0, there.1.carry, false);
                back.0 == n && back.1.carry == carry
            }),
            ({
                let there = Self::spec_rotate(n, carry, false);
                let back = Self::spec_rotate(there.0, there.1.carry, true);
                back.0 == n && back.1.carry == carry
            }),
    {
        assert({
            let l = (n << 1) | (if carry { 0x01u8 } else { 0u8 });
            let lc = n & 0x80 != 0;
            let r = (n >> 1) | (if carry { 0x80u8 } else { 0u8 });
            let rc = n & 0x01 != 0;
            &&& ((l >> 1) | (if lc { 0x80u8 } else { 0u8 })) == n
            &&& (l & 0x01 != 0) == carry
            &&& ((r << 1) | (if rc { 0x01u8 } else { 0u8 })) == n
            &&& (r & 0x80 != 0) == carry
        }) by (bit_vector);
    }
}

} // verus!
