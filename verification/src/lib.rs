//! Core of an emulator for the Sharp LR35902: register file, memory bus,
//! cycle counter, instruction decoder and executor.
//!
//! Every executable function carries a contract over a mathematical model of
//! the machine: [`cpu::CpuState`] for the processor and a sequence of 65536
//! bytes for what the bus returns at each address.

pub mod help_traits;
pub mod cpu;
pub mod memory;
pub mod instructions;
