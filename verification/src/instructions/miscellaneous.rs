//! SWAP, the adjustments of A and of the carry, and the control of the
//! processor itself.

use vstd::prelude::*;
use crate::cpu::cyclic::add_cycles;
use crate::cpu::registers::{Register, SetFlags};
use crate::cpu::{Cpu, CpuState, Mode};
use super::FetchRegister;

verus! {

#[derive(Debug, Clone, Copy, PartialEq, Eq)]
pub enum MiscInstruction {
    /// SWAP r
    ///
    /// Swap upper & lower nibles of r.
    ///
    /// Cycles: 8
    SwapRegister(Register),
    /// SWAP (HL)
    ///
    /// Swap upper & lower nibles of the value at the absolute adress HL.
    ///
    /// Cycles: 16
    SwapAddrHL,
    /// DAA
    ///
    /// Decimal adjust register A.
    ///
    /// This instruction adjusts register A so that the correct
    /// representation of Binary Coded Decimal (BCD) is obtained.
    ///
    /// Cycles: 4
    DecimalAdjustA,
    /// CPL
    ///
    /// Complement A register. (Flip all bits.)
    ///
    /// Cycles: 4
    ComplementA,
    /// CCF
    ///
    /// Complement carry flag.
    /// If C flag is set, then reset it.
    /// If C flag is reset, then set it
    ///
    /// Cycles: 4
    ComplementCarry,
    /// SCF
    ///
    /// Set Carry flag.
    ///
    /// Cycles: 4
    SetCarry,
    /// NOP
    ///
    /// No operation.
    ///
    /// Cycles: 4
    Nop,
    /// HALT
    ///
    /// Power down CPU until an interrupt occurs.
    /// Use this when ever possible to reduce energy consumption.
    ///
    /// Cycles: 4
    Halt,
    /// STOP
    ///
    /// Halt CPU & LCD display until button pressed. Here it does nothing.
    ///
    /// Cycles: 4
    Stop,
    /// DI
    ///
    /// This instruction disables interrupts at once.
    ///
    /// Cycles: 4
    DisableInterrupt,
    /// EI
    ///
    /// This instruction enables interrupts but not immediately.
    /// Interrupts are enabled after the instruction after EI is executed.
    ///
    /// Cycles: 4
    EnableInterrupt,
}

impl MiscInstruction {
    /// The byte with its nibbles exchanged.
    pub open spec fn spec_swap(value: u8) -> u8 {
        (value << 4) | (value >> 4)
    }

    /// The flags after SWAP gave `value`: Z on zero, the others reset.
    pub open spec fn spec_swap_flags(value: u8) -> SetFlags {
        SetFlags { zero: value == 0, substract: false, half_carry: false, carry: false }
    }

    /// A and the flags after the decimal adjustment of `a`, which an
    /// addition or a subtraction of two binary-coded decimals left with the
    /// flags `flags`.
    ///
    /// After an addition (N reset), 0x60 is added where C is set or `a` is
    /// above 0x99, and C is then set; 0x06 is added where H is set or the
    /// low nibble is above 9. After a subtraction (N set), 0x60 is
    /// subtracted where C is set and 0x06 where H is set, and C stays. Z is
    /// set on a zero result, H is reset, N stays.
    pub open spec fn spec_decimal_adjust(a: u8, flags: SetFlags) -> (u8, SetFlags) {
        if !flags.substract {
            let carry = flags.carry || a > 0x99;
            let high = if carry {
                a.wrapping_add(0x60)
            } else {
                a
            };
            let value = if flags.half_carry || (high & 0x0F) > 9 {
                high.wrapping_add(0x06)
            } else {
                high
            };
            (value, SetFlags { zero: value == 0, substract: false, half_carry: false, carry })
        } else {
            let high = if flags.carry {
                a.wrapping_sub(0x60)
            } else {
                a
            };
            let value = if flags.half_carry {
                high.wrapping_sub(0x06)
            } else {
                high
            };
            (
                value,
                SetFlags { zero: value == 0, substract: true, half_carry: false, carry: flags.carry },
            )
        }
    }

    /// The state after the instruction is executed, PC being past it.
    ///
    /// HALT stops the processor unless an interrupt is requested and
    /// enabled already; the next byte is not read twice in that case. STOP
    /// does nothing.
    pub open spec fn spec_execute(self, s: CpuState) -> CpuState {
        let flags = s.flags();
        match self {
            MiscInstruction::SwapRegister(reg) => {
                let value = Self::spec_swap(s.regs.spec_get(reg));
                s.set_reg(reg, value).set_flags(Self::spec_swap_flags(value))
            },
            MiscInstruction::SwapAddrHL => {
                let value = Self::spec_swap(s.read(s.hl()));
                s.write(s.hl(), value).set_flags(Self::spec_swap_flags(value))
            },
            MiscInstruction::DecimalAdjustA => {
                let result = Self::spec_decimal_adjust(s.regs.a, flags);
                s.set_reg(Register::A, result.0).set_flags(result.1)
            },
            MiscInstruction::ComplementA => s.set_reg(Register::A, !s.regs.a).set_flags(
                SetFlags { substract: true, half_carry: true, ..flags },
            ),
            MiscInstruction::ComplementCarry => s.set_flags(
                SetFlags { substract: false, half_carry: false, carry: !flags.carry, ..flags },
            ),
            MiscInstruction::SetCarry => s.set_flags(
                SetFlags { substract: false, half_carry: false, carry: true, ..flags },
            ),
            MiscInstruction::Nop => s,
            MiscInstruction::Halt => if s.interrupt_pending() {
                s
            } else {
                s.set_mode(Mode::Halted)
            },
            MiscInstruction::Stop => s,
            MiscInstruction::DisableInterrupt => s.set_ime(false).set_ei_pending(false),
            MiscInstruction::EnableInterrupt => s.set_ei_pending(true),
        }
    }

    /// The bytes that the instruction takes in memory, the prefix counted.
    pub open spec fn spec_length(self) -> int {
        match self {
            MiscInstruction::SwapRegister(_)
            | MiscInstruction::SwapAddrHL
            | MiscInstruction::Stop => 2,
            _ => 1,
        }
    }

    /// The bytes of the instruction that are read on the bus when it is
    /// fetched: all of them, but for the second byte of STOP.
    pub open spec fn spec_fetched_bytes(self) -> int {
        match self {
            MiscInstruction::SwapRegister(_) | MiscInstruction::SwapAddrHL => 2,
            _ => 1,
        }
    }

    /// The T-cycles that the instruction takes, fetch included.
    pub open spec fn spec_cycles(self) -> int {
        match self {
            MiscInstruction::SwapRegister(_) => 8,
            MiscInstruction::SwapAddrHL => 16,
            _ => 4,
        }
    }

    /// The instruction of this family on the prefixed page: `opcode_id` is
    /// the opcode with its low three bits cleared, `reg` the operand that
    /// those bits name.
    pub open spec fn spec_decode_prefixed(opcode_id: u8, reg: FetchRegister) -> Option<Self> {
        if opcode_id == 0x30 {
            Some(
                match reg {
                    FetchRegister::Register(r) => MiscInstruction::SwapRegister(r),
                    FetchRegister::AddrHL => MiscInstruction::SwapAddrHL,
                },
            )
        } else {
            None
        }
    }

    /// The instruction of this family that the unprefixed `opcode` stands
    /// for, `n` being the byte that follows it. 0x10 is STOP where a zero
    /// byte follows; where another does, the two bytes are no instruction.
    pub open spec fn spec_decode(opcode: u8, n: u8) -> Option<Self> {
        if opcode == 0x27 {
            Some(MiscInstruction::DecimalAdjustA)
        } else if opcode == 0x2F {
            Some(MiscInstruction::ComplementA)
        } else if opcode == 0x3F {
            Some(MiscInstruction::ComplementCarry)
        } else if opcode == 0x37 {
            Some(MiscInstruction::SetCarry)
        } else if opcode == 0x00 {
            Some(MiscInstruction::Nop)
        } else if opcode == 0x76 {
            Some(MiscInstruction::Halt)
        } else if opcode == 0x10 && n == 0x00 {
            Some(MiscInstruction::Stop)
        } else if opcode == 0xF3 {
            Some(MiscInstruction::DisableInterrupt)
        } else if opcode == 0xFB {
            Some(MiscInstruction::EnableInterrupt)
        } else {
            None
        }
    }

    pub fn fetch_prefixed(_cpu: &Cpu, opcode_id: u8, reg: FetchRegister) -> (r: Option<Self>)
        ensures
            r == Self::spec_decode_prefixed(opcode_id, reg),
            r matches Some(instruction) ==> instruction.spec_length() == 2
                && instruction.spec_fetched_bytes() == 2,
    {
        if opcode_id == 0x30 {
            Some(
                match reg {
                    FetchRegister::Register(r) => MiscInstruction::SwapRegister(r),
                    FetchRegister::AddrHL => MiscInstruction::SwapAddrHL,
                },
            )
        } else {
            None
        }
    }

    /// Decodes `opcode`, which was read at PC-1.
    ///
    /// Opcode 0x10 takes the byte at PC with it, whatever that byte holds:
    /// PC moves past it. The byte is looked at without a bus transaction,
    /// so that no cycle passes here, neither for STOP nor where a byte
    /// other than zero follows 0x10 and the two are no instruction.
    pub fn fetch(cpu: &mut Cpu, opcode: u8) -> (r: Option<Self>)
        ensures
            r == Self::spec_decode(opcode, old(cpu)@.read(old(cpu)@.pc())),
            final(cpu)@ == old(cpu)@.advance_pc(
                if opcode == 0x10 {
                    1u16
                } else {
                    0u16
                },
            ),
            final(cpu).spec_cycles() == old(cpu).spec_cycles(),
            r matches Some(instruction) ==> instruction.spec_fetched_bytes() == 1,
    {
        match opcode {
            0x27 => Some(MiscInstruction::DecimalAdjustA),
            0x2F => Some(MiscInstruction::ComplementA),
            0x3F => Some(MiscInstruction::ComplementCarry),
            0x37 => Some(MiscInstruction::SetCarry),
            0x00 => Some(MiscInstruction::Nop),
            0x76 => Some(MiscInstruction::Halt),
            0x10 => {
                let second = cpu.peek(cpu.get_pc());
                cpu.advance_by(1);
                if second == 0x00 {
                    Some(MiscInstruction::Stop)
                } else {
                    None
                }
            },
            0xF3 => Some(MiscInstruction::DisableInterrupt),
            0xFB => Some(MiscInstruction::EnableInterrupt),
            _ => None,
        }
    }

    pub fn swap(value: u8) -> (r: u8)
        ensures
            r == Self::spec_swap(value),
    {
        (value << 4) | (value >> 4)
    }

    pub fn decimal_adjust(a: u8, flags: SetFlags) -> (r: (u8, SetFlags))
        ensures
            r == Self::spec_decimal_adjust(a, flags),
    {
        let mut value = a;
        let mut carry = flags.carry;
        if !flags.substract {
            if carry || a > 0x99 {
                value = value.wrapping_add(0x60);
                carry = true;
            }
            if flags.half_carry || (value & 0x0F) > 9 {
                value = value.wrapping_add(0x06);
            }
        } else {
            if carry {
                value = value.wrapping_sub(0x60);
            }
            if flags.half_carry {
                value = value.wrapping_sub(0x06);
            }
        }
        (value, SetFlags { zero: value == 0, substract: flags.substract, half_carry: false, carry })
    }

    /// Executes the instruction, which was fetched: PC is past it, and the
    /// cycles of the fetch are counted.
    #[verifier::rlimit(40)]
    pub fn execute(self, cpu: &mut Cpu)
        ensures
            final(cpu)@ == self.spec_execute(old(cpu)@),
            final(cpu).spec_cycles() == add_cycles(
                old(cpu).spec_cycles(),
                self.spec_cycles() - 4 * self.spec_fetched_bytes(),
            ),
    {
        let flags = cpu.get_flags();
        match self {
            MiscInstruction::SwapRegister(reg) => {
                let value = cpu.get_reg(reg);
                let value = Self::swap(value);
                cpu.put_reg(reg, value);
                cpu.set_flags(SetFlags { zero: value == 0, ..SetFlags::default() });
            },
            MiscInstruction::SwapAddrHL => {
                let value = cpu.get_at_hl();
                let value = Self::swap(value);
                cpu.put_at_hl(value);
                cpu.set_flags(SetFlags { zero: value == 0, ..SetFlags::default() });
            },
            MiscInstruction::DecimalAdjustA => {
                let (value, flags) = Self::decimal_adjust(cpu.get_reg_a(), flags);
                cpu.put_reg_a(value);
                cpu.set_flags(flags);
            },
            MiscInstruction::ComplementA => {
                let value = cpu.get_reg_a();
                cpu.put_reg_a(!value);
                cpu.set_flags(SetFlags { substract: true, half_carry: true, ..flags });
            },
            MiscInstruction::ComplementCarry => {
                cpu.set_flags(
                    SetFlags { substract: false, half_carry: false, carry: !flags.carry, ..flags },
                );
            },
            MiscInstruction::SetCarry => {
                cpu.set_flags(
                    SetFlags { substract: false, half_carry: false, carry: true, ..flags },
                );
            },
            MiscInstruction::Nop => {
                // litteraly do nothing
            },
            MiscInstruction::Halt => {
                if !cpu.interrupt_pending() {
                    cpu.set_mode(Mode::Halted);
                }
            },
            MiscInstruction::Stop => {
                // nothing here can end a stop, so none begins
            },
            MiscInstruction::DisableInterrupt => {
                cpu.disable_interrupts();
            },
            MiscInstruction::EnableInterrupt => {
                cpu.enable_interrupts_delayed();
            },
        }
    }

    /// Two exchanges of the nibbles give the byte back.
    pub proof fn lemma_swap_twice(value: u8)
        ensures
            Self::spec_swap(Self::spec_swap(value)) == value,
    {
        assert({
            let once = (value << 4) | (value >> 4);
            ((once << 4) | (once >> 4)) == value
        }) by (bit_vector);
    }
}

} // verus!
