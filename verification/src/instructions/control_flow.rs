//! Jumps, calls and returns.

use vstd::prelude::*;
use crate::cpu::cyclic::{add_cycles, lemma_add_cycles};
use crate::cpu::registers::{LongRegister, SetFlags};
use crate::cpu::{Cpu, CpuState};
use super::{signed, spec_signed};

verus! {

#[derive(Debug, Clone, Copy, PartialEq, Eq)]
pub enum ControlFlowCondition {
    NotZero,
    Zero,
    NoCarry,
    Carry,
}

impl ControlFlowCondition {
    /// The condition that a condition field names: NZ, Z, NC for 0 to 2, C
    /// for every other value.
    pub open spec fn spec_from(cc: u8) -> ControlFlowCondition {
        if cc == 0 {
            ControlFlowCondition::NotZero
        } else if cc == 1 {
            ControlFlowCondition::Zero
        } else if cc == 2 {
            ControlFlowCondition::NoCarry
        } else {
            ControlFlowCondition::Carry
        }
    }

    /// Whether the condition holds of `flags`.
    pub open spec fn spec_check_condition(self, flags: SetFlags) -> bool {
        match self {
            ControlFlowCondition::NotZero => !flags.zero,
            ControlFlowCondition::Zero => flags.zero,
            ControlFlowCondition::NoCarry => !flags.carry,
            ControlFlowCondition::Carry => flags.carry,
        }
    }

    pub fn check_condition(self, flags: SetFlags) -> (holds: bool)
        ensures
            holds == self.spec_check_condition(flags),
    {
        match self {
            ControlFlowCondition::NotZero => !flags.zero,
            ControlFlowCondition::Zero => flags.zero,
            ControlFlowCondition::NoCarry => !flags.carry,
            ControlFlowCondition::Carry => flags.carry,
        }
    }
}

impl From<u8> for ControlFlowCondition {
    fn from(cc: u8) -> (r: ControlFlowCondition) {
        match cc {
            0 => ControlFlowCondition::NotZero,
            1 => ControlFlowCondition::Zero,
            2 => ControlFlowCondition::NoCarry,
            _ => ControlFlowCondition::Carry,
        }
    }
}

impl vstd::std_specs::convert::FromSpecImpl<u8> for ControlFlowCondition {
    open spec fn obeys_from_spec() -> bool {
        true
    }

    open spec fn from_spec(cc: u8) -> ControlFlowCondition {
        ControlFlowCondition::spec_from(cc)
    }
}

#[derive(Debug, Clone, Copy, PartialEq, Eq)]
pub enum ControlFlowInstruction {
    // Jumps
    /// JP nn
    ///
    /// Jump to address nn
    ///
    /// Cycles: 16
    JumpImmediate(u16),
    /// JP cc, nn
    ///
    /// If the condition is true, jump to the specified address nn.
    ///
    /// Cycles: 16/12
    JumpImmediateCondition(ControlFlowCondition, u16),
    /// JP (HL)
    ///
    /// Jump to the absolute address HL.
    ///
    /// Cycles: 4
    JumpAddrHL,
    /// JR n
    ///
    /// Add n to the current address and jump to it.
    ///
    /// Cycles: 12
    JumpImmediateRelative(i8),
    /// JR cc, n
    ///
    /// If the condition is true, add n to the current address and jump to it.
    ///
    /// Cycles: 12/8
    JumpRelativeCondition(ControlFlowCondition, i8),
    // Calls
    /// CALL nn
    ///
    /// Push address of next instruction onto stack and then jump to the specified address nn.
    ///
    /// Cycles: 24
    CallImmediate(u16),
    /// CALL cc, nn
    ///
    /// If the condition is true, call the specified address nn.
    ///
    /// Cycles: 24/12
    CallImmediateCondition(ControlFlowCondition, u16),
    // Restarts
    /// RST n
    ///
    /// Push present address onto stack. Jump to address $0000 + n.
    ///
    /// Cycles: 16
    Reset(u8),
    // Returns
    /// RET
    ///
    /// Pop two bytes from stack & jump to that address.
    ///
    /// Cycles: 16
    Return,
    /// RET cc
    ///
    /// If the condition is true, return.
    ///
    /// Cycles: 20/8
    ReturnCondition(ControlFlowCondition),
    /// RETI
    ///
    /// Return and enable interrupts.
    ///
    /// Cycles: 16
    ReturnEnableInterrupt,
}

impl ControlFlowInstruction {
    /// The condition on which the instruction branches, if it has one.
    pub open spec fn spec_condition(self) -> Option<ControlFlowCondition> {
        match self {
            ControlFlowInstruction::JumpImmediateCondition(cc, _)
            | ControlFlowInstruction::JumpRelativeCondition(cc, _)
            | ControlFlowInstruction::CallImmediateCondition(cc, _)
            | ControlFlowInstruction::ReturnCondition(cc) => Some(cc),
            _ => None,
        }
    }

    /// Whether the instruction branches when the flags are `flags`: always
    /// where it has no condition.
    pub open spec fn spec_taken(self, flags: SetFlags) -> bool {
        match self.spec_condition() {
            Some(cc) => cc.spec_check_condition(flags),
            None => true,
        }
    }

    /// The state after the instruction branched, PC having been past it.
    /// A call pushes that PC; a return pops the new one.
    pub open spec fn spec_branch(self, s: CpuState) -> CpuState {
        match self {
            ControlFlowInstruction::JumpImmediate(addr)
            | ControlFlowInstruction::JumpImmediateCondition(_, addr) => s.set_pc(addr),
            ControlFlowInstruction::JumpAddrHL => s.set_pc(s.hl()),
            ControlFlowInstruction::JumpImmediateRelative(delta)
            | ControlFlowInstruction::JumpRelativeCondition(_, delta) => s.move_pc(delta as i16),
            ControlFlowInstruction::CallImmediate(addr)
            | ControlFlowInstruction::CallImmediateCondition(_, addr) => s.push(s.pc()).set_pc(
                addr,
            ),
            ControlFlowInstruction::Reset(addr) => s.push(s.pc()).set_pc(addr as u16),
            ControlFlowInstruction::Return
            | ControlFlowInstruction::ReturnCondition(_) => s.pop().set_pc(s.stack_top()),
            ControlFlowInstruction::ReturnEnableInterrupt => s.pop().set_pc(
                s.stack_top(),
            ).set_ime(true).set_ei_pending(false),
        }
    }

    /// The state after the instruction is executed, PC being past it: it
    /// branches where its condition holds of the flags, and does nothing
    /// where it does not.
    pub open spec fn spec_execute(self, s: CpuState) -> CpuState {
        if self.spec_taken(s.flags()) {
            self.spec_branch(s)
        } else {
            s
        }
    }

    /// The bytes that the instruction takes in memory.
    pub open spec fn spec_length(self) -> int {
        match self {
            ControlFlowInstruction::JumpImmediate(_)
            | ControlFlowInstruction::JumpImmediateCondition(_, _)
            | ControlFlowInstruction::CallImmediate(_)
            | ControlFlowInstruction::CallImmediateCondition(_, _) => 3,
            ControlFlowInstruction::JumpImmediateRelative(_)
            | ControlFlowInstruction::JumpRelativeCondition(_, _) => 2,
            _ => 1,
        }
    }

    /// The T-cycles that the instruction takes, fetch included, by whether
    /// it branches.
    pub open spec fn spec_cycles(self, taken: bool) -> int {
        match self {
            ControlFlowInstruction::JumpImmediate(_) => 16,
            ControlFlowInstruction::JumpImmediateCondition(_, _) => if taken {
                16
            } else {
                12
            },
            ControlFlowInstruction::JumpAddrHL => 4,
            ControlFlowInstruction::JumpImmediateRelative(_) => 12,
            ControlFlowInstruction::JumpRelativeCondition(_, _) => if taken {
                12
            } else {
                8
            },
            ControlFlowInstruction::CallImmediate(_) => 24,
            ControlFlowInstruction::CallImmediateCondition(_, _) => if taken {
                24
            } else {
                12
            },
            ControlFlowInstruction::Reset(_) => 16,
            ControlFlowInstruction::Return => 16,
            ControlFlowInstruction::ReturnCondition(_) => if taken {
                20
            } else {
                8
            },
            ControlFlowInstruction::ReturnEnableInterrupt => 16,
        }
    }

    /// The number of bytes that follow `opcode` as its operand, where the
    /// opcode is one of this family.
    pub open spec fn spec_operand_bytes(opcode: u8) -> u16 {
        if opcode == 0xC3 || opcode == 0xCD || (0xC0 <= opcode < 0xE0 && (opcode % 8 == 2
            || opcode % 8 == 4)) {
            2
        } else if opcode == 0x18 || (0x20 <= opcode < 0x40 && opcode % 8 == 0) {
            1
        } else {
            0
        }
    }

    /// The instruction of this family that `opcode` stands for, `n` being
    /// the byte that follows it and `nn` the word that follows it; `None`
    /// where the opcode belongs to another family or to none. Bits 4 and 3
    /// name the condition of a conditional branch, bits 5 to 3 the target
    /// of RST.
    pub open spec fn spec_decode(opcode: u8, n: u8, nn: u16) -> Option<Self> {
        let cc = ControlFlowCondition::spec_from((opcode / 8) % 4);
        if opcode == 0xC3 {
            Some(ControlFlowInstruction::JumpImmediate(nn))
        } else if 0xC0 <= opcode < 0xE0 && opcode % 8 == 2 {
            Some(ControlFlowInstruction::JumpImmediateCondition(cc, nn))
        } else if opcode == 0xE9 {
            Some(ControlFlowInstruction::JumpAddrHL)
        } else if opcode == 0x18 {
            Some(ControlFlowInstruction::JumpImmediateRelative(spec_signed(n)))
        } else if 0x20 <= opcode < 0x40 && opcode % 8 == 0 {
            Some(ControlFlowInstruction::JumpRelativeCondition(cc, spec_signed(n)))
        } else if opcode == 0xCD {
            Some(ControlFlowInstruction::CallImmediate(nn))
        } else if 0xC0 <= opcode < 0xE0 && opcode % 8 == 4 {
            Some(ControlFlowInstruction::CallImmediateCondition(cc, nn))
        } else if opcode >= 0xC0 && opcode % 8 == 7 {
            Some(ControlFlowInstruction::Reset((opcode - 0xC7) as u8))
        } else if opcode == 0xC9 {
            Some(ControlFlowInstruction::Return)
        } else if 0xC0 <= opcode < 0xE0 && opcode % 8 == 0 {
            Some(ControlFlowInstruction::ReturnCondition(cc))
        } else if opcode == 0xD9 {
            Some(ControlFlowInstruction::ReturnEnableInterrupt)
        } else {
            None
        }
    }

    /// Decodes `opcode`, which was read at PC-1, and reads its operand, if
    /// it has one, at PC.
    #[verifier::rlimit(40)]
    pub fn fetch(cpu: &mut Cpu, opcode: u8) -> (r: Option<Self>)
        ensures
            r == Self::spec_decode(
                opcode,
                old(cpu)@.read(old(cpu)@.pc()),
                old(cpu)@.read_long(old(cpu)@.pc()),
            ),
            final(cpu)@ == old(cpu)@.advance_pc(Self::spec_operand_bytes(opcode)),
            final(cpu).spec_cycles() == add_cycles(
                old(cpu).spec_cycles(),
                4 * Self::spec_operand_bytes(opcode),
            ),
            r matches Some(instruction) ==> instruction.spec_length() == 1
                + Self::spec_operand_bytes(opcode),
    {
        let cc = ControlFlowCondition::from((opcode / 8) % 4);
        if opcode == 0xC3 {
            Some(ControlFlowInstruction::JumpImmediate(cpu.advance_long()))
        } else if 0xC0 <= opcode && opcode < 0xE0 && opcode % 8 == 2 {
            Some(ControlFlowInstruction::JumpImmediateCondition(cc, cpu.advance_long()))
        } else if opcode == 0xE9 {
            Some(ControlFlowInstruction::JumpAddrHL)
        } else if opcode == 0x18 {
            Some(ControlFlowInstruction::JumpImmediateRelative(signed(cpu.advance())))
        } else if 0x20 <= opcode && opcode < 0x40 && opcode % 8 == 0 {
            Some(ControlFlowInstruction::JumpRelativeCondition(cc, signed(cpu.advance())))
        } else if opcode == 0xCD {
            Some(ControlFlowInstruction::CallImmediate(cpu.advance_long()))
        } else if 0xC0 <= opcode && opcode < 0xE0 && opcode % 8 == 4 {
            Some(ControlFlowInstruction::CallImmediateCondition(cc, cpu.advance_long()))
        } else if opcode >= 0xC0 && opcode % 8 == 7 {
            Some(ControlFlowInstruction::Reset(opcode - 0xC7))
        } else if opcode == 0xC9 {
            Some(ControlFlowInstruction::Return)
        } else if 0xC0 <= opcode && opcode < 0xE0 && opcode % 8 == 0 {
            Some(ControlFlowInstruction::ReturnCondition(cc))
        } else if opcode == 0xD9 {
            Some(ControlFlowInstruction::ReturnEnableInterrupt)
        } else {
            None
        }
    }

    /// How many other instructions the execution of this one goes through.
    pub open spec fn spec_rank(self) -> nat {
        match self {
            ControlFlowInstruction::JumpImmediate(_)
            | ControlFlowInstruction::JumpAddrHL
            | ControlFlowInstruction::JumpImmediateRelative(_)
            | ControlFlowInstruction::CallImmediate(_) => 0,
            ControlFlowInstruction::JumpImmediateCondition(_, _)
            | ControlFlowInstruction::JumpRelativeCondition(_, _)
            | ControlFlowInstruction::CallImmediateCondition(_, _)
            | ControlFlowInstruction::Reset(_)
            | ControlFlowInstruction::Return => 1,
            ControlFlowInstruction::ReturnCondition(_)
            | ControlFlowInstruction::ReturnEnableInterrupt => 2,
        }
    }

    /// Executes `this`, which has no condition of its own, where `cc` holds
    /// of the flags, and says whether it did.
    fn exec_cc(this: Self, cc: ControlFlowCondition, cpu: &mut Cpu) -> (jump: bool)
        requires
            this.spec_condition() is None,
        ensures
            jump == cc.spec_check_condition(old(cpu)@.flags()),
            final(cpu)@ == (if jump {
                this.spec_branch(old(cpu)@)
            } else {
                old(cpu)@
            }),
            final(cpu).spec_cycles() == (if jump {
                add_cycles(old(cpu).spec_cycles(), this.spec_cycles(true) - 4 * this.spec_length())
            } else {
                old(cpu).spec_cycles()
            }),
        decreases this.spec_rank(), 1nat,
    {
        let flags = cpu.get_flags();
        let jump = cc.check_condition(flags);
        if jump {
            this.execute(cpu);
        }
        jump
    }

    /// Executes the instruction, which was fetched: PC is past it, and the
    /// cycles of the fetch are counted. The condition is checked on the
    /// flags as they are before any cycle passes.
    #[verifier::rlimit(40)]
    pub fn execute(self, cpu: &mut Cpu)
        ensures
            final(cpu)@ == self.spec_execute(old(cpu)@),
            final(cpu).spec_cycles() == add_cycles(
                old(cpu).spec_cycles(),
                self.spec_cycles(self.spec_taken(old(cpu)@.flags())) - 4 * self.spec_length(),
            ),
        decreases self.spec_rank(), 0nat,
    {
        proof {
            lemma_add_cycles(old(cpu).spec_cycles(), 4, 12);
        }
        match self {
            ControlFlowInstruction::JumpImmediate(addr) => {
                cpu.set_pc(addr);
                cpu.cycle();  // 3 cycle fetch, but 4 cycle instruction
            },
            ControlFlowInstruction::JumpImmediateCondition(cc, addr) => {
                Self::exec_cc(ControlFlowInstruction::JumpImmediate(addr), cc, cpu);
            },
            ControlFlowInstruction::JumpAddrHL => {
                let addr = cpu.get_long_reg(LongRegister::HL);
                cpu.set_pc(addr);
            },
            ControlFlowInstruction::JumpImmediateRelative(delta) => {
                cpu.move_by(delta as i16);
                cpu.cycle();
            },
            ControlFlowInstruction::JumpRelativeCondition(cc, delta) => {
                Self::exec_cc(ControlFlowInstruction::JumpImmediateRelative(delta), cc, cpu);
            },
            ControlFlowInstruction::CallImmediate(addr) => {
                // 3 width instruction + 2 Write, need one more cycle.
                cpu.cycle();
                let pc = cpu.get_pc();
                cpu.push_stack(pc);
                cpu.set_pc(addr);
            },
            ControlFlowInstruction::CallImmediateCondition(cc, addr) => {
                Self::exec_cc(ControlFlowInstruction::CallImmediate(addr), cc, cpu);
            },
            ControlFlowInstruction::Reset(addr) => {
                // turn this instruction into a call
                // 2 less cycle happen during fetch
                // so cycle count is good
                ControlFlowInstruction::CallImmediate(addr as u16).execute(cpu);
            },
            ControlFlowInstruction::Return => {
                let addr = cpu.pop_stack();
                ControlFlowInstruction::JumpImmediate(addr).execute(cpu);
            },
            ControlFlowInstruction::ReturnCondition(cc) => {
                // the check of the condition takes a cycle of its own,
                // whether it holds or not
                let flags = cpu.get_flags();
                cpu.cycle();
                if cc.check_condition(flags) {
                    ControlFlowInstruction::Return.execute(cpu);
                }
            },
            ControlFlowInstruction::ReturnEnableInterrupt => {
                ControlFlowInstruction::Return.execute(cpu);
                cpu.enable_interrupts();
            },
        }
    }
}

} // verus!
