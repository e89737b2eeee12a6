//! Snapshots: the state of the processor as a sequence of bytes, and back.
//!
//! A snapshot holds, in this order: the registers A, F, B, C, D, E, H, L,
//! then SP and PC, low byte first; the interrupt master enable and the
//! waiting EI, one byte each; work RAM; high RAM; sprite attributes; the
//! interrupt-enable register; the I/O ports; video RAM; the cartridge's
//! RAM; and the cycle counter in eight bytes, the lowest first. ROM is the
//! cartridge's and is not part of it.

use vstd::prelude::*;
use crate::help_traits::{spec_high, spec_low, spec_word, word, AccesBigEndianBytesU16};
use crate::memory::ADDRESS_SPACE;
use super::registers::{LongRegister, Register, Registers, SetFlags};
use super::{Cpu, CpuState, Mode};

verus! {

/// Where the interrupt master enable stands in a snapshot.
pub const IME_AT: usize = 12;

/// Where the waiting EI stands in a snapshot.
pub const EI_PENDING_AT: usize = 13;

/// Where work RAM starts in a snapshot.
pub const WORK_RAM_AT: usize = 14;

/// Where high RAM starts in a snapshot.
pub const HIGH_RAM_AT: usize = 8206;

/// Where the sprite attributes start in a snapshot.
pub const OAM_AT: usize = 8333;

/// Where the interrupt-enable register stands in a snapshot.
pub const INTERRUPT_ENABLE_AT: usize = 8493;

/// Where the I/O ports start in a snapshot.
pub const IO_PORTS_AT: usize = 8494;

/// Where video RAM starts in a snapshot.
pub const VRAM_AT: usize = 8622;

/// Where the cartridge's RAM starts in a snapshot.
pub const EXTERNAL_RAM_AT: usize = 16814;

/// Where the cycle counter starts in a snapshot.
pub const CYCLES_AT: usize = 25006;

/// The length of a snapshot.
pub const SNAPSHOT_LEN: usize = 25014;

/// Why a sequence of bytes is no snapshot.
#[derive(Debug, Clone, Copy, PartialEq, Eq, Structural)]
pub enum SnapshotError {
    /// It has not the length of a snapshot.
    Length,
    /// The low nibble of its byte for F is not zero.
    FlagRegister,
    /// Its byte for the interrupt master enable or for the waiting EI is
    /// neither 0 nor 1.
    InterruptState,
}

/// The byte of a snapshot that stands for a truth value.
pub open spec fn spec_bool_byte(value: bool) -> u8 {
    if value {
        1
    } else {
        0
    }
}

/// Byte `index` of a 64-bit count, byte 0 being the lowest.
pub open spec fn spec_count_byte(count: u64, index: int) -> u8 {
    if index == 0 {
        (count % 0x100) as u8
    } else if index == 1 {
        (count / 0x100 % 0x100) as u8
    } else if index == 2 {
        (count / 0x1_0000 % 0x100) as u8
    } else if index == 3 {
        (count / 0x100_0000 % 0x100) as u8
    } else if index == 4 {
        (count / 0x1_0000_0000 % 0x100) as u8
    } else if index == 5 {
        (count / 0x100_0000_0000 % 0x100) as u8
    } else if index == 6 {
        (count / 0x1_0000_0000_0000 % 0x100) as u8
    } else {
        (count / 0x100_0000_0000_0000 % 0x100) as u8
    }
}

/// The 64-bit count whose eight bytes stand in `state` from `at` on, the
/// lowest first.
pub open spec fn spec_count_at(state: Seq<u8>, at: int) -> u64 {
    (state[at] + state[at + 1] * 0x100 + state[at + 2] * 0x1_0000 + state[at + 3] * 0x100_0000
        + state[at + 4] * 0x1_0000_0000 + state[at + 5] * 0x100_0000_0000 + state[at + 6]
        * 0x1_0000_0000_0000 + state[at + 7] * 0x100_0000_0000_0000) as u64
}

/// Byte `index` of the twelve bytes that hold the registers.
pub open spec fn spec_register_byte(regs: Registers, index: int) -> u8 {
    if index == 0 {
        regs.a
    } else if index == 1 {
        regs.flags.spec_byte()
    } else if index == 2 {
        regs.b
    } else if index == 3 {
        regs.c
    } else if index == 4 {
        regs.d
    } else if index == 5 {
        regs.e
    } else if index == 6 {
        regs.h
    } else if index == 7 {
        regs.l
    } else if index == 8 {
        spec_low(regs.sp)
    } else if index == 9 {
        spec_high(regs.sp)
    } else if index == 10 {
        spec_low(regs.pc)
    } else {
        spec_high(regs.pc)
    }
}

/// The registers that the first twelve bytes of `state` hold.
pub open spec fn spec_registers_of(state: Seq<u8>) -> Registers {
    Registers {
        a: state[0],
        flags: SetFlags::spec_from_byte(state[1]),
        b: state[2],
        c: state[3],
        d: state[4],
        e: state[5],
        h: state[6],
        l: state[7],
        sp: spec_word(state[9], state[8]),
        pc: spec_word(state[11], state[10]),
    }
}

/// The address whose byte stands at `index` of a snapshot, for an index in
/// one of the parts that hold memory.
pub open spec fn spec_address_of(index: int) -> int {
    if index < HIGH_RAM_AT {
        0xC000 + (index - WORK_RAM_AT)
    } else if index < OAM_AT {
        0xFF80 + (index - HIGH_RAM_AT)
    } else if index < INTERRUPT_ENABLE_AT {
        0xFE00 + (index - OAM_AT)
    } else if index < IO_PORTS_AT {
        0xFFFF
    } else if index < VRAM_AT {
        0xFF00 + (index - IO_PORTS_AT)
    } else if index < EXTERNAL_RAM_AT {
        0x8000 + (index - VRAM_AT)
    } else {
        0xA000 + (index - EXTERNAL_RAM_AT)
    }
}

/// Where the byte at `addr` stands in a snapshot, if it does: ROM and the
/// prohibited region do not, and echo RAM stands there as the work RAM
/// that it mirrors.
pub open spec fn spec_index_of(addr: int) -> Option<int> {
    if addr < 0x8000 {
        None
    } else if addr < 0xA000 {
        Some(VRAM_AT + (addr - 0x8000))
    } else if addr < 0xC000 {
        Some(EXTERNAL_RAM_AT + (addr - 0xA000))
    } else if addr < 0xE000 {
        Some(WORK_RAM_AT + (addr - 0xC000))
    } else if addr < 0xFE00 {
        Some(WORK_RAM_AT + (addr - 0xE000))
    } else if addr < 0xFEA0 {
        Some(OAM_AT + (addr - 0xFE00))
    } else if addr < 0xFF00 {
        None
    } else if addr < 0xFF80 {
        Some(IO_PORTS_AT + (addr - 0xFF00))
    } else if addr < 0xFFFF {
        Some(HIGH_RAM_AT + (addr - 0xFF80))
    } else {
        Some(INTERRUPT_ENABLE_AT as int)
    }
}

/// Byte `index` of the snapshot of the state `s` with `cycles` on the
/// counter.
pub open spec fn spec_snapshot_byte(s: CpuState, cycles: u64, index: int) -> u8 {
    if index < IME_AT {
        spec_register_byte(s.regs, index)
    } else if index == IME_AT {
        spec_bool_byte(s.ime)
    } else if index == EI_PENDING_AT {
        spec_bool_byte(s.ei_pending)
    } else if index < CYCLES_AT {
        s.bus[spec_address_of(index)]
    } else {
        spec_count_byte(cycles, index - CYCLES_AT)
    }
}

/// The snapshot of the state `s` with `cycles` on the counter.
pub open spec fn spec_snapshot(s: CpuState, cycles: u64) -> Seq<u8> {
    Seq::new(SNAPSHOT_LEN as nat, |index: int| spec_snapshot_byte(s, cycles, index))
}

/// Whether `state` is a snapshot, and if not, why.
pub open spec fn spec_check(state: Seq<u8>) -> Result<(), SnapshotError> {
    if state.len() != SNAPSHOT_LEN {
        Err(SnapshotError::Length)
    } else if state[1] & 0x0F != 0 {
        Err(SnapshotError::FlagRegister)
    } else if state[IME_AT as int] > 1 || state[EI_PENDING_AT as int] > 1 {
        Err(SnapshotError::InterruptState)
    } else {
        Ok(())
    }
}

/// The bus of `bus` with the memory of the snapshot `state` in place of
/// its own. ROM stays, and the prohibited region reads 0xFF.
pub open spec fn spec_restore_bus(bus: Seq<u8>, state: Seq<u8>) -> Seq<u8> {
    Seq::new(
        ADDRESS_SPACE as nat,
        |addr: int|
            match spec_index_of(addr) {
                Some(index) => state[index],
                None => if addr < 0x8000 {
                    bus[addr]
                } else {
                    0xFFu8
                },
            },
    )
}

/// The state that the snapshot `state` holds, restored over `s`: all of it
/// is the snapshot's, but ROM, which stays as it is in `s`. The processor
/// runs.
pub open spec fn spec_restore(s: CpuState, state: Seq<u8>) -> CpuState {
    CpuState {
        regs: spec_registers_of(state),
        bus: spec_restore_bus(s.bus, state),
        ime: state[IME_AT as int] == 1,
        ei_pending: state[EI_PENDING_AT as int] == 1,
        mode: Mode::Running,
    }
}

/// The bus of `bus` with the bytes of the snapshot `state` from `from` up
/// to `upto` in place of its own bytes at their addresses.
spec fn spec_restore_bus_upto_from(
    bus: Seq<u8>,
    state: Seq<u8>,
    from: int,
    upto: int,
) -> Seq<u8> {
    Seq::new(
        ADDRESS_SPACE as nat,
        |addr: int|
            match spec_index_of(addr) {
                Some(index) => if from <= index < upto {
                    state[index]
                } else {
                    bus[addr]
                },
                None => bus[addr],
            },
    )
}

/// The eight bytes of a count, put together again, give the count back.
pub proof fn lemma_count_round_trip(count: u64)
    ensures
        ({
            let bytes = Seq::new(8, |index: int| spec_count_byte(count, index));
            spec_count_at(bytes, 0) == count
        }),
{
    let b0 = (count % 0x100) as u8;
    let b1 = (count / 0x100 % 0x100) as u8;
    let b2 = (count / 0x1_0000 % 0x100) as u8;
    let b3 = (count / 0x100_0000 % 0x100) as u8;
    let b4 = (count / 0x1_0000_0000 % 0x100) as u8;
    let b5 = (count / 0x100_0000_0000 % 0x100) as u8;
    let b6 = (count / 0x1_0000_0000_0000 % 0x100) as u8;
    let b7 = (count / 0x100_0000_0000_0000 % 0x100) as u8;
    assert({
        &&& b0 == (count % 0x100) as u8
        &&& b1 == (count / 0x100 % 0x100) as u8
        &&& b2 == (count / 0x1_0000 % 0x100) as u8
        &&& b3 == (count / 0x100_0000 % 0x100) as u8
        &&& b4 == (count / 0x1_0000_0000 % 0x100) as u8
        &&& b5 == (count / 0x100_0000_0000 % 0x100) as u8
        &&& b6 == (count / 0x1_0000_0000_0000 % 0x100) as u8
        &&& b7 == (count / 0x100_0000_0000_0000 % 0x100) as u8
    } ==> b0 as u64 + b1 as u64 * 0x100 + b2 as u64 * 0x1_0000 + b3 as u64 * 0x100_0000
        + b4 as u64 * 0x1_0000_0000 + b5 as u64 * 0x100_0000_0000 + b6 as u64
        * 0x1_0000_0000_0000 + b7 as u64 * 0x100_0000_0000_0000 == count) by (bit_vector);
    let bytes = Seq::new(8, |index: int| spec_count_byte(count, index));
    assert(bytes[0] == b0 && bytes[1] == b1 && bytes[2] == b2 && bytes[3] == b3 && bytes[4] == b4
        && bytes[5] == b5 && bytes[6] == b6 && bytes[7] == b7);
}

/// The snapshot of a state restores to that state, running, with the same
/// count of cycles, whatever ROM it is restored over being kept.
#[verifier::rlimit(40)]
pub proof fn lemma_snapshot_round_trip(s: CpuState, cycles: u64, over: CpuState)
    requires
        s.valid(),
        over.bus.len() == ADDRESS_SPACE,
    ensures
        spec_snapshot(s, cycles).len() == SNAPSHOT_LEN,
        spec_check(spec_snapshot(s, cycles)) is Ok,
        spec_count_at(spec_snapshot(s, cycles), CYCLES_AT as int) == cycles,
        spec_restore(over, spec_snapshot(s, cycles)).regs == s.regs,
        spec_restore(over, spec_snapshot(s, cycles)).ime == s.ime,
        spec_restore(over, spec_snapshot(s, cycles)).ei_pending == s.ei_pending,
        forall|addr: int|
            0x8000 <= addr < ADDRESS_SPACE ==> #[trigger] spec_restore(
                over,
                spec_snapshot(s, cycles),
            ).bus[addr] == s.bus[addr],
        forall|addr: int|
            0 <= addr < 0x8000 ==> #[trigger] spec_restore(
                over,
                spec_snapshot(s, cycles),
            ).bus[addr] == over.bus[addr],
        spec_restore(s, spec_snapshot(s, cycles)) == s.set_mode(Mode::Running),
{
    let state = spec_snapshot(s, cycles);
    s.regs.flags.lemma_low_nibble_zero();
    s.regs.flags.lemma_byte_round_trip();
    lemma_count_round_trip(cycles);
    assert(spec_count_at(state, CYCLES_AT as int) == cycles);
    assert(spec_registers_of(state) == s.regs);
    let restored = spec_restore(over, state);
    assert forall|addr: int| 0x8000 <= addr < ADDRESS_SPACE implies #[trigger] restored.bus[addr]
        == s.bus[addr] by {
        if 0xE000 <= addr < 0xFE00 {
            assert(s.bus[(addr as u16) as int] == s.bus[(addr as u16) - 0x2000]);
        }
        if 0xFEA0 <= addr < 0xFF00 {
            assert(s.bus[(addr as u16) as int] == 0xFF);
        }
    }
    assert forall|addr: int| 0x8000 <= addr < ADDRESS_SPACE implies #[trigger] spec_restore(
        s,
        state,
    ).bus[addr] == s.bus[addr] by {
        if 0xE000 <= addr < 0xFE00 {
            assert(s.bus[(addr as u16) as int] == s.bus[(addr as u16) - 0x2000]);
        }
        if 0xFEA0 <= addr < 0xFF00 {
            assert(s.bus[(addr as u16) as int] == 0xFF);
        }
    }
    assert(spec_restore(s, state).bus =~= s.bus);
}

impl Cpu {
    /// The state of the processor as a snapshot.
    #[verifier::rlimit(40)]
    pub fn snapshot(&self) -> (state: Vec<u8>)
        ensures
            state@ == spec_snapshot(self@, self.spec_cycles()),
            state@.len() == SNAPSHOT_LEN,
    {
        let ghost expected = spec_snapshot(self@, self.spec_cycles());
        proof {
            self.lemma_valid();
        }
        let sp = self.get_long_reg(LongRegister::SP);
        let pc = self.get_long_reg(LongRegister::PC);
        let mut state: Vec<u8> = Vec::new();
        state.push(self.get_reg(Register::A));
        state.push(self.get_reg(Register::F));
        state.push(self.get_reg(Register::B));
        state.push(self.get_reg(Register::C));
        state.push(self.get_reg(Register::D));
        state.push(self.get_reg(Register::E));
        state.push(self.get_reg(Register::H));
        state.push(self.get_reg(Register::L));
        state.push(sp.get_low());
        state.push(sp.get_high());
        state.push(pc.get_low());
        state.push(pc.get_high());
        state.push(if self.interrupts_enabled() { 1 } else { 0 });
        state.push(if self.interrupts_pending_enable() { 1 } else { 0 });
        assert(state@ =~= expected.subrange(0, WORK_RAM_AT as int));
        self.save_region(&mut state, 0xC000, 0x2000);
        self.save_region(&mut state, 0xFF80, 0x7F);
        self.save_region(&mut state, 0xFE00, 0xA0);
        self.save_region(&mut state, 0xFFFF, 0x01);
        self.save_region(&mut state, 0xFF00, 0x80);
        self.save_region(&mut state, 0x8000, 0x2000);
        self.save_region(&mut state, 0xA000, 0x2000);
        let cycles = self.cycles();
        state.push((cycles % 0x100) as u8);
        state.push((cycles / 0x100 % 0x100) as u8);
        state.push((cycles / 0x1_0000 % 0x100) as u8);
        state.push((cycles / 0x100_0000 % 0x100) as u8);
        state.push((cycles / 0x1_0000_0000 % 0x100) as u8);
        state.push((cycles / 0x100_0000_0000 % 0x100) as u8);
        state.push((cycles / 0x1_0000_0000_0000 % 0x100) as u8);
        state.push((cycles / 0x100_0000_0000_0000 % 0x100) as u8);
        assert(state@ =~= expected);
        state
    }

    /// Appends to `state` the `len` bytes of memory from `start` on, which
    /// are the next part of the snapshot.
    fn save_region(&self, state: &mut Vec<u8>, start: u16, len: u16)
        requires
            WORK_RAM_AT <= old(state)@.len(),
            old(state)@.len() + len <= CYCLES_AT,
            start + len <= ADDRESS_SPACE,
            spec_address_of(old(state)@.len() as int) == start,
            spec_address_of(old(state)@.len() + len - 1) == start + len - 1,
            old(state)@ == spec_snapshot(self@, self.spec_cycles()).subrange(
                0,
                old(state)@.len() as int,
            ),
        ensures
            final(state)@.len() == old(state)@.len() + len,
            final(state)@ == spec_snapshot(self@, self.spec_cycles()).subrange(
                0,
                final(state)@.len() as int,
            ),
    {
        let ghost expected = spec_snapshot(self@, self.spec_cycles());
        let ghost at = state@.len();
        let mut i: u16 = 0;
        while i < len
            invariant
                i <= len,
                WORK_RAM_AT <= at,
                at + len <= CYCLES_AT,
                start + len <= ADDRESS_SPACE,
                spec_address_of(at as int) == start,
                spec_address_of(at + len - 1) == start + len - 1,
                expected == spec_snapshot(self@, self.spec_cycles()),
                state@.len() == at + i,
                state@ == expected.subrange(0, at + i),
            decreases len - i,
        {
            let byte = self.peek(start + i);
            state.push(byte);
            assert(state@ =~= expected.subrange(0, at + i + 1));
            i += 1;
        }
    }

    /// Puts the snapshot `state` in place of the state of the processor.
    /// ROM stays as it is, and the processor runs. Where `state` is no
    /// snapshot, nothing is changed.
    #[verifier::rlimit(40)]
    pub fn restore(&mut self, state: &[u8]) -> (r: Result<(), SnapshotError>)
        ensures
            r == spec_check(state@),
            r is Ok ==> final(self)@ == spec_restore(old(self)@, state@),
            r is Ok ==> final(self).spec_cycles() == spec_count_at(state@, CYCLES_AT as int),
            r is Err ==> final(self)@ == old(self)@,
            r is Err ==> final(self).spec_cycles() == old(self).spec_cycles(),
    {
        if state.len() != SNAPSHOT_LEN {
            return Err(SnapshotError::Length);
        }
        if state[1] & 0x0F != 0 {
            return Err(SnapshotError::FlagRegister);
        }
        if state[IME_AT] > 1 || state[EI_PENDING_AT] > 1 {
            return Err(SnapshotError::InterruptState);
        }
        proof {
            self.lemma_valid();
        }
        self.put_reg(Register::A, state[0]);
        self.put_reg(Register::F, state[1]);
        self.put_reg(Register::B, state[2]);
        self.put_reg(Register::C, state[3]);
        self.put_reg(Register::D, state[4]);
        self.put_reg(Register::E, state[5]);
        self.put_reg(Register::H, state[6]);
        self.put_reg(Register::L, state[7]);
        self.put_long_reg(LongRegister::SP, word(state[9], state[8]));
        self.put_long_reg(LongRegister::PC, word(state[11], state[10]));
        if state[IME_AT] == 1 {
            self.enable_interrupts();
        } else {
            self.disable_interrupts();
        }
        if state[EI_PENDING_AT] == 1 {
            self.enable_interrupts_delayed();
        }
        self.set_mode(Mode::Running);
        self.load_region(state, 0xC000, 0x2000, WORK_RAM_AT);
        self.load_region(state, 0xFF80, 0x7F, HIGH_RAM_AT);
        self.load_region(state, 0xFE00, 0xA0, OAM_AT);
        self.load_region(state, 0xFFFF, 0x01, INTERRUPT_ENABLE_AT);
        self.load_region(state, 0xFF00, 0x80, IO_PORTS_AT);
        self.load_region(state, 0x8000, 0x2000, VRAM_AT);
        self.load_region(state, 0xA000, 0x2000, EXTERNAL_RAM_AT);
        let cycles: u64 = state[CYCLES_AT] as u64 + state[CYCLES_AT + 1] as u64 * 0x100
            + state[CYCLES_AT + 2] as u64 * 0x1_0000 + state[CYCLES_AT + 3] as u64 * 0x100_0000
            + state[CYCLES_AT + 4] as u64 * 0x1_0000_0000 + state[CYCLES_AT + 5] as u64
            * 0x100_0000_0000 + state[CYCLES_AT + 6] as u64 * 0x1_0000_0000_0000 + state[CYCLES_AT
            + 7] as u64 * 0x100_0000_0000_0000;
        self.set_cycles(cycles);
        assert(self@.bus =~= spec_restore_bus(old(self)@.bus, state@)) by {
            old(self).lemma_valid();
        }
        Ok(())
    }

    /// Stores the part of the snapshot `state` that starts at `at` in the
    /// `len` bytes of memory from `start` on.
    fn load_region(&mut self, state: &[u8], start: u16, len: u16, at: usize)
        requires
            state@.len() == SNAPSHOT_LEN,
            WORK_RAM_AT <= at,
            at + len <= CYCLES_AT,
            0x8000 <= start,
            start + len <= ADDRESS_SPACE,
            start + len <= 0xE000 || 0xFE00 <= start,
            start + len <= 0xFEA0 || 0xFF00 <= start,
            spec_address_of(at as int) == start,
            spec_address_of(at + len - 1) == start + len - 1,
            0 < len,
        ensures
            final(self)@ == (CpuState {
                bus: spec_restore_bus_upto_from(old(self)@.bus, state@, at as int, at + len),
                ..old(self)@
            }),
            final(self).spec_cycles() == old(self).spec_cycles(),
    {
        let mut i: u16 = 0;
        assert(self@.bus =~= spec_restore_bus_upto_from(old(self)@.bus, state@, at as int, at as int))
            by {
            self.lemma_valid();
        }
        while i < len
            invariant
                i <= len,
                0 < len,
                state@.len() == SNAPSHOT_LEN,
                WORK_RAM_AT <= at,
                at + len <= CYCLES_AT,
                0x8000 <= start,
                start + len <= ADDRESS_SPACE,
                start + len <= 0xE000 || 0xFE00 <= start,
                start + len <= 0xFEA0 || 0xFF00 <= start,
                spec_address_of(at as int) == start,
                spec_address_of(at + len - 1) == start + len - 1,
                old(self)@.bus.len() == ADDRESS_SPACE,
                self@ == (CpuState {
                    bus: spec_restore_bus_upto_from(old(self)@.bus, state@, at as int, at + i),
                    ..old(self)@
                }),
                self.spec_cycles() == old(self).spec_cycles(),
            decreases len - i,
        {
            self.load(start + i, state[at + i as usize]);
            assert(self@.bus =~= spec_restore_bus_upto_from(
                old(self)@.bus,
                state@,
                at as int,
                at + i + 1,
            ));
            i += 1;
        }
    }
}

} // verus!
