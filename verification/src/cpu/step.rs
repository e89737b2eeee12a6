//! One step of the processor: the fetch and the execution of one
//! instruction, or four idle cycles where it is halted or locked.

use vstd::prelude::*;
use crate::instructions::Instruction;
use super::cyclic::{add_cycles, lemma_add_cycles};
use super::{Cpu, CpuState, Mode};

verus! {

impl CpuState {
    /// Whether the processor lets a step pass without an instruction: it is
    /// locked, or halted with no interrupt both requested and enabled.
    pub open spec fn spec_idle(self) -> bool {
        self.mode == Mode::Locked || (self.mode == Mode::Halted && !self.interrupt_pending())
    }

    /// The state after an instruction is done when `was_pending` says that
    /// an EI was waiting before it: if that EI still waits, it takes effect.
    pub open spec fn spec_finish_enable(self, was_pending: bool) -> CpuState {
        if was_pending && self.ei_pending {
            self.set_ime(true).set_ei_pending(false)
        } else {
            self
        }
    }

    /// The state after one step.
    ///
    /// An idle processor stays as it is. Else it runs: the instruction at
    /// PC is executed with PC past it, and an EI that waited before it
    /// takes effect after it. A byte that starts no instruction locks the
    /// processor with PC at that byte; so does 0x10 before a byte other
    /// than zero.
    pub open spec fn spec_step(self) -> CpuState {
        if self.spec_idle() {
            self
        } else {
            let awake = self.set_mode(Mode::Running);
            match Instruction::spec_fetch(awake) {
                Some(instruction) => instruction.spec_execute(
                    awake.advance_pc(instruction.spec_length() as u16),
                ).spec_finish_enable(self.ei_pending),
                None => awake.set_mode(Mode::Locked),
            }
        }
    }

    /// The T-cycles that one step takes: those of the instruction at PC, by
    /// whether it branches; four where the processor is idle or the byte at
    /// PC starts no instruction.
    pub open spec fn spec_step_cycles(self) -> int {
        if self.spec_idle() {
            4
        } else {
            match Instruction::spec_fetch(self.set_mode(Mode::Running)) {
                Some(instruction) => instruction.spec_cycles(instruction.spec_taken(self.flags())),
                None => 4,
            }
        }
    }
}

impl Cpu {
    /// Executes exactly one instruction and returns the T-cycles that it
    /// took. The counter goes up by as many, and starts again from zero
    /// where its 64 bits are used up.
    #[verifier::rlimit(40)]
    pub fn step(&mut self) -> (elapsed: u64)
        ensures
            final(self)@ == old(self)@.spec_step(),
            elapsed == old(self)@.spec_step_cycles(),
            final(self).spec_cycles() == add_cycles(old(self).spec_cycles(), elapsed as int),
            old(self).spec_cycles() + elapsed <= u64::MAX ==> final(self).spec_cycles() == old(
                self,
            ).spec_cycles() + elapsed,
    {
        let before = self.cycles();
        let idle = match self.mode() {
            Mode::Locked => true,
            Mode::Halted => !self.interrupt_pending(),
            Mode::Running => false,
        };
        if idle {
            self.cycle();
        } else {
            self.set_mode(Mode::Running);
            let was_pending = self.interrupts_pending_enable();
            let pc = self.get_pc();
            let ghost awake = self@;
            match Instruction::fetch(self) {
                Some(instruction) => {
                    instruction.execute(self);
                    if was_pending && self.interrupts_pending_enable() {
                        self.enable_interrupts();
                    }
                    proof {
                        let taken = instruction.spec_taken(awake.flags());
                        instruction.lemma_cycles_cover_fetch(taken);
                        lemma_add_cycles(
                            before,
                            4 * instruction.spec_fetched_bytes(),
                            instruction.spec_cycles(taken) - 4 * instruction.spec_fetched_bytes(),
                        );
                    }
                },
                None => {
                    self.set_pc(pc);
                    self.set_mode(Mode::Locked);
                },
            }
        }
        self.cycles().wrapping_sub(before)
    }
}

} // verus!
