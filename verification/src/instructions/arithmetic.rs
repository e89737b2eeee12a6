//! Arithmetic and logic on bytes and words.

use vstd::prelude::*;
use crate::cpu::cyclic::{add_cycles, lemma_add_cycles};
use crate::cpu::registers::{Flags, LongRegister, Register, SetFlags};
use crate::cpu::{Cpu, CpuState};
use super::load::LoadInstruction;
use super::{pair_or_sp, signed, spec_pair_or_sp, spec_signed, FetchRegister};

verus! {

#[derive(Debug, Clone, Copy, PartialEq, Eq)]
pub enum ArithmeticInstruction {
    // 8-bits arithmetic
    /// ADD A, n
    ///
    /// Add to the 8-bit register A, the immediate data n.
    ///
    /// Cycles: 8
    AddImmediate(u8),
    /// ADD A, r
    ///
    /// Add to the 8-bit register A, the value of the 8-bit register r.
    ///
    /// Cycles: 4
    AddRegister(Register),
    /// ADD A, (HL)
    ///
    /// Add to the 8-bit register A, the value at the absolute address specified by HL.
    ///
    /// Cycles: 8
    AddAddrHL,
    /// SUB A, n
    ///
    /// Subtract from the 8-bit register A, the immediate data n.
    ///
    /// Cycles: 8
    SubImmediate(u8),
    /// SUB A, r
    ///
    /// Subtract from the 8-bit register A, the value of the 8-bit register r.
    ///
    /// Cycles: 4
    SubRegister(Register),
    /// SUB A, (HL)
    ///
    /// Subtract from the 8-bit register A, the value at the absolute address specified by HL.
    ///
    /// Cycles: 8
    SubAddrHL,
    /// ADC A, n
    ///
    /// Add to the 8-bit register A, the immediate data n + the carry flag.
    ///
    /// Cycles: 8
    AddCarryImmediate(u8),
    /// ADC A, r
    ///
    /// Add to the 8-bit register A, the value of the 8-bit register r + the carry flag.
    ///
    /// Cycles: 4
    AddCarryRegister(Register),
    /// ADC A, (HL)
    ///
    /// Add to the 8-bit register A, the value at the absolute address specified by HL + the carry flag.
    ///
    /// Cycles: 8
    AddCarryAddrHL,
    /// SBC A, n
    ///
    /// Subtract from the 8-bit register A, the immediate data n + the carry flag.
    ///
    /// Cycles: 8
    SubCarryImmediate(u8),
    /// SBC A, r
    ///
    /// Subtract from the 8-bit register A, the value of the 8-bit register r + the carry flag.
    ///
    /// Cycles: 4
    SubCarryRegister(Register),
    /// SBC A, (HL)
    ///
    /// Subtract from the 8-bit register A, the value at the absolute address specified by HL + the carry flag.
    ///
    /// Cycles: 8
    SubCarryAddrHL,
    /// AND n
    ///
    /// Logically AND the 8-bit register A with the immediate value n, result in A
    ///
    /// Cycles: 8
    AndImmediate(u8),
    /// AND r
    ///
    /// Logically AND the 8-bit register A with the 8-bit register r, result in A
    ///
    /// Cycles: 4
    AndRegister(Register),
    /// AND (HL)
    ///
    /// Logically AND the 8-bit register A with the value at the absolute address HL, result in A
    ///
    /// Cycles: 8
    AndAddrHL,
    /// OR n
    ///
    /// Logically OR the 8-bit register A with the immediate value n, result in A
    ///
    /// Cycles: 8
    OrImmediate(u8),
    /// OR r
    ///
    /// Logically OR the 8-bit register A with the 8-bit register r, result in A
    ///
    /// Cycles: 4
    OrRegister(Register),
    /// OR (HL)
    ///
    /// Logically OR the 8-bit register A with the value at the absolute address HL, result in A
    ///
    /// Cycles: 8
    OrAddrHL,
    /// XOR n
    ///
    /// Logically XOR the 8-bit register A with the immediate value n, result in A
    ///
    /// Cycles: 8
    XorImmediate(u8),
    /// XOR r
    ///
    /// Logically XOR the 8-bit register A with the 8-bit register r, result in A
    ///
    /// Cycles: 4
    XorRegister(Register),
    /// XOR (HL)
    ///
    /// Logically XOR the 8-bit register A with the value at the absolute address HL, result in A
    ///
    /// Cycles: 8
    XorAddrHL,
    /// CP n
    ///
    /// Compare the 8-bit register A with the immediate value n, basically A - n but the result is thrown away.
    ///
    /// Cycles: 8
    CmpImmediate(u8),
    /// CP r
    ///
    /// Compare the 8-bit register A with the 8-bit register r, basically A - r but the result is thrown away.
    ///
    /// Cycles: 4
    CmpRegister(Register),
    /// CP (HL)
    ///
    /// Compare the 8-bit register A with the value at the absolute address HL, basically A - (HL) but the result is thrown away.
    ///
    /// Cycles: 8
    CmpAddrHL,
    /// INC r
    ///
    /// Increment register r.
    ///
    /// Cycles: 4
    IncRegister(Register),
    /// INC (HL)
    ///
    /// Increment the value at the absolute address HL.
    ///
    /// Cycles: 12
    IncAddrHL,
    /// DEC r
    ///
    /// Decrement register r.
    ///
    /// Cycles: 4
    DecRegister(Register),
    /// DEC (HL)
    ///
    /// Decrement the value at the absolute address HL.
    ///
    /// Cycles: 12
    DecAddrHL,
    // 16-bits arithmetic
    /// ADD HL, lr
    ///
    /// Add to the 16-bit register HL, the value from the 16-bit register lr.
    ///
    /// Cycles: 8
    AddHL(LongRegister),
    /// ADD SP, n
    ///
    /// Add to the 16-bit register SP, the immediate 8-bit value n, taken as signed.
    ///
    /// Cycles: 16
    AddSPImmediate(u8),
    /// INC lr
    ///
    /// Increment register lr.
    ///
    /// Cycles: 8
    IncLongRegister(LongRegister),
    /// DEC lr
    ///
    /// Decrement register lr.
    ///
    /// Cycles: 8
    DecLongRegister(LongRegister),
}

impl ArithmeticInstruction {
    /// `a + b + carry` on bytes. Z is set on a zero result, N is reset, H is
    /// the carry out of bit 3 and C the carry out of bit 7.
    pub open spec fn spec_add_carry(a: u8, b: u8, carry: bool) -> (u8, SetFlags) {
        let c: int = if carry { 1 } else { 0 };
        let value = ((a + b + c) % 256) as u8;
        (
            value,
            SetFlags {
                zero: value == 0,
                substract: false,
                half_carry: (a & 0x0F) + (b & 0x0F) + c > 0x0F,
                carry: a + b + c > 0xFF,
            },
        )
    }

    /// `a + b` on bytes, with the flags of [`Self::spec_add_carry`].
    pub open spec fn spec_add(a: u8, b: u8) -> (u8, SetFlags) {
        Self::spec_add_carry(a, b, false)
    }

    /// `a - b - carry` on bytes. Z is set on a zero result, N is set, H is
    /// the borrow into bit 3 and C the borrow into bit 7.
    pub open spec fn spec_sub_carry(a: u8, b: u8, carry: bool) -> (u8, SetFlags) {
        let c: int = if carry { 1 } else { 0 };
        let value = ((a - b - c) % 256) as u8;
        (
            value,
            SetFlags {
                zero: value == 0,
                substract: true,
                half_carry: (a & 0x0F) - (b & 0x0F) - c < 0,
                carry: a - b - c < 0,
            },
        )
    }

    /// `a - b` on bytes, with the flags of [`Self::spec_sub_carry`].
    pub open spec fn spec_sub(a: u8, b: u8) -> (u8, SetFlags) {
        Self::spec_sub_carry(a, b, false)
    }

    /// `a + 1` on a byte. Z is set on a zero result, N is reset, H is set
    /// when the low nibble was 0xF, and C stays as `carry`.
    pub open spec fn spec_inc(a: u8, carry: bool) -> (u8, SetFlags) {
        let value = ((a + 1) % 256) as u8;
        (
            value,
            SetFlags { zero: value == 0, substract: false, half_carry: a & 0x0F == 0x0F, carry },
        )
    }

    /// `a - 1` on a byte. Z is set on a zero result, N is set, H is set when
    /// the low nibble was 0, and C stays as `carry`.
    pub open spec fn spec_dec(a: u8, carry: bool) -> (u8, SetFlags) {
        let value = ((a - 1) % 256) as u8;
        (
            value,
            SetFlags { zero: value == 0, substract: true, half_carry: a & 0x0F == 0, carry },
        )
    }

    /// The flags after AND, OR or XOR gave `value`: Z on zero, H as
    /// `half_carry`, N and C reset.
    pub open spec fn spec_bitwise_flags(value: u8, half_carry: bool) -> SetFlags {
        SetFlags { zero: value == 0, substract: false, half_carry, carry: false }
    }

    /// `hl + value` on words. Z stays as it is in `flags`, N is reset, H is
    /// the carry out of bit 11 and C the carry out of bit 15.
    pub open spec fn spec_add_long(hl: u16, value: u16, flags: SetFlags) -> (u16, SetFlags) {
        (
            hl.wrapping_add(value),
            SetFlags {
                zero: flags.zero,
                substract: false,
                half_carry: (hl & 0x0FFF) + (value & 0x0FFF) > 0x0FFF,
                carry: hl + value > 0xFFFF,
            },
        )
    }

    /// The byte that the instruction works on beside A: the immediate, the
    /// register or the byte at HL.
    pub open spec fn spec_operand(self, s: CpuState) -> u8 {
        match self {
            ArithmeticInstruction::AddImmediate(n)
            | ArithmeticInstruction::SubImmediate(n)
            | ArithmeticInstruction::AddCarryImmediate(n)
            | ArithmeticInstruction::SubCarryImmediate(n)
            | ArithmeticInstruction::AndImmediate(n)
            | ArithmeticInstruction::OrImmediate(n)
            | ArithmeticInstruction::XorImmediate(n)
            | ArithmeticInstruction::CmpImmediate(n)
            | ArithmeticInstruction::AddSPImmediate(n) => n,
            ArithmeticInstruction::AddRegister(reg)
            | ArithmeticInstruction::SubRegister(reg)
            | ArithmeticInstruction::AddCarryRegister(reg)
            | ArithmeticInstruction::SubCarryRegister(reg)
            | ArithmeticInstruction::AndRegister(reg)
            | ArithmeticInstruction::OrRegister(reg)
            | ArithmeticInstruction::XorRegister(reg)
            | ArithmeticInstruction::CmpRegister(reg)
            | ArithmeticInstruction::IncRegister(reg)
            | ArithmeticInstruction::DecRegister(reg) => s.regs.spec_get(reg),
            ArithmeticInstruction::AddAddrHL
            | ArithmeticInstruction::SubAddrHL
            | ArithmeticInstruction::AddCarryAddrHL
            | ArithmeticInstruction::SubCarryAddrHL
            | ArithmeticInstruction::AndAddrHL
            | ArithmeticInstruction::OrAddrHL
            | ArithmeticInstruction::XorAddrHL
            | ArithmeticInstruction::CmpAddrHL
            | ArithmeticInstruction::IncAddrHL
            | ArithmeticInstruction::DecAddrHL => s.read(s.hl()),
            ArithmeticInstruction::AddHL(_)
            | ArithmeticInstruction::IncLongRegister(_)
            | ArithmeticInstruction::DecLongRegister(_) => 0,
        }
    }

    /// Whether the instruction reads the byte at HL.
    pub open spec fn spec_reads_hl(self) -> bool {
        match self {
            ArithmeticInstruction::AddAddrHL
            | ArithmeticInstruction::SubAddrHL
            | ArithmeticInstruction::AddCarryAddrHL
            | ArithmeticInstruction::SubCarryAddrHL
            | ArithmeticInstruction::AndAddrHL
            | ArithmeticInstruction::OrAddrHL
            | ArithmeticInstruction::XorAddrHL
            | ArithmeticInstruction::CmpAddrHL
            | ArithmeticInstruction::IncAddrHL
            | ArithmeticInstruction::DecAddrHL => true,
            _ => false,
        }
    }

    /// The state with `result.1` as flags and `result.0` in A.
    pub open spec fn spec_store_a(s: CpuState, result: (u8, SetFlags)) -> CpuState {
        s.set_flags(result.1).set_reg(Register::A, result.0)
    }

    /// The state after the instruction is executed, PC being past it.
    pub open spec fn spec_execute(self, s: CpuState) -> CpuState {
        let a = s.regs.a;
        let n = self.spec_operand(s);
        let carry = s.flags().carry;
        match self {
            ArithmeticInstruction::AddImmediate(_)
            | ArithmeticInstruction::AddRegister(_)
            | ArithmeticInstruction::AddAddrHL => Self::spec_store_a(s, Self::spec_add(a, n)),
            ArithmeticInstruction::SubImmediate(_)
            | ArithmeticInstruction::SubRegister(_)
            | ArithmeticInstruction::SubAddrHL => Self::spec_store_a(s, Self::spec_sub(a, n)),
            ArithmeticInstruction::AddCarryImmediate(_)
            | ArithmeticInstruction::AddCarryRegister(_)
            | ArithmeticInstruction::AddCarryAddrHL => Self::spec_store_a(
                s,
                Self::spec_add_carry(a, n, carry),
            ),
            ArithmeticInstruction::SubCarryImmediate(_)
            | ArithmeticInstruction::SubCarryRegister(_)
            | ArithmeticInstruction::SubCarryAddrHL => Self::spec_store_a(
                s,
                Self::spec_sub_carry(a, n, carry),
            ),
            ArithmeticInstruction::AndImmediate(_)
            | ArithmeticInstruction::AndRegister(_)
            | ArithmeticInstruction::AndAddrHL => Self::spec_store_a(
                s,
                (a & n, Self::spec_bitwise_flags(a & n, true)),
            ),
            ArithmeticInstruction::OrImmediate(_)
            | ArithmeticInstruction::OrRegister(_)
            | ArithmeticInstruction::OrAddrHL => Self::spec_store_a(
                s,
                (a | n, Self::spec_bitwise_flags(a | n, false)),
            ),
            ArithmeticInstruction::XorImmediate(_)
            | ArithmeticInstruction::XorRegister(_)
            | ArithmeticInstruction::XorAddrHL => Self::spec_store_a(
                s,
                (a ^ n, Self::spec_bitwise_flags(a ^ n, false)),
            ),
            ArithmeticInstruction::CmpImmediate(_)
            | ArithmeticInstruction::CmpRegister(_)
            | ArithmeticInstruction::CmpAddrHL => s.set_flags(Self::spec_sub(a, n).1),
            ArithmeticInstruction::IncRegister(reg) => s.set_flags(
                Self::spec_inc(n, carry).1,
            ).set_reg(reg, Self::spec_inc(n, carry).0),
            ArithmeticInstruction::IncAddrHL => s.set_flags(Self::spec_inc(n, carry).1).write(
                s.hl(),
                Self::spec_inc(n, carry).0,
            ),
            ArithmeticInstruction::DecRegister(reg) => s.set_flags(
                Self::spec_dec(n, carry).1,
            ).set_reg(reg, Self::spec_dec(n, carry).0),
            ArithmeticInstruction::DecAddrHL => s.set_flags(Self::spec_dec(n, carry).1).write(
                s.hl(),
                Self::spec_dec(n, carry).0,
            ),
            ArithmeticInstruction::AddHL(reg) => {
                let result = Self::spec_add_long(s.hl(), s.regs.spec_get_long(reg), s.flags());
                s.set_flags(result.1).set_long(LongRegister::HL, result.0)
            },
            ArithmeticInstruction::AddSPImmediate(_) => {
                let result = LoadInstruction::spec_add_delta_to_addr(s.sp(), spec_signed(n));
                s.set_flags(result.1).set_long(LongRegister::SP, result.0)
            },
            ArithmeticInstruction::IncLongRegister(reg) => s.set_long(
                reg,
                s.regs.spec_get_long(reg).wrapping_add(1),
            ),
            ArithmeticInstruction::DecLongRegister(reg) => s.set_long(
                reg,
                s.regs.spec_get_long(reg).wrapping_sub(1),
            ),
        }
    }

    /// The bytes that the instruction takes in memory.
    pub open spec fn spec_length(self) -> int {
        match self {
            ArithmeticInstruction::AddImmediate(_)
            | ArithmeticInstruction::SubImmediate(_)
            | ArithmeticInstruction::AddCarryImmediate(_)
            | ArithmeticInstruction::SubCarryImmediate(_)
            | ArithmeticInstruction::AndImmediate(_)
            | ArithmeticInstruction::OrImmediate(_)
            | ArithmeticInstruction::XorImmediate(_)
            | ArithmeticInstruction::CmpImmediate(_)
            | ArithmeticInstruction::AddSPImmediate(_) => 2,
            _ => 1,
        }
    }

    /// The T-cycles that the instruction takes, fetch included.
    pub open spec fn spec_cycles(self) -> int {
        match self {
            ArithmeticInstruction::AddImmediate(_)
            | ArithmeticInstruction::SubImmediate(_)
            | ArithmeticInstruction::AddCarryImmediate(_)
            | ArithmeticInstruction::SubCarryImmediate(_)
            | ArithmeticInstruction::AndImmediate(_)
            | ArithmeticInstruction::OrImmediate(_)
            | ArithmeticInstruction::XorImmediate(_)
            | ArithmeticInstruction::CmpImmediate(_) => 8,
            ArithmeticInstruction::AddRegister(_)
            | ArithmeticInstruction::SubRegister(_)
            | ArithmeticInstruction::AddCarryRegister(_)
            | ArithmeticInstruction::SubCarryRegister(_)
            | ArithmeticInstruction::AndRegister(_)
            | ArithmeticInstruction::OrRegister(_)
            | ArithmeticInstruction::XorRegister(_)
            | ArithmeticInstruction::CmpRegister(_)
            | ArithmeticInstruction::IncRegister(_)
            | ArithmeticInstruction::DecRegister(_) => 4,
            ArithmeticInstruction::AddAddrHL
            | ArithmeticInstruction::SubAddrHL
            | ArithmeticInstruction::AddCarryAddrHL
            | ArithmeticInstruction::SubCarryAddrHL
            | ArithmeticInstruction::AndAddrHL
            | ArithmeticInstruction::OrAddrHL
            | ArithmeticInstruction::XorAddrHL
            | ArithmeticInstruction::CmpAddrHL => 8,
            ArithmeticInstruction::IncAddrHL | ArithmeticInstruction::DecAddrHL => 12,
            ArithmeticInstruction::AddHL(_) => 8,
            ArithmeticInstruction::AddSPImmediate(_) => 16,
            ArithmeticInstruction::IncLongRegister(_)
            | ArithmeticInstruction::DecLongRegister(_) => 8,
        }
    }

    /// ADD and ADC of a register or of the byte at HL, for opcodes 0x80 to
    /// 0x8F: bit 3 chooses ADC, the low three bits the operand.
    pub open spec fn spec_fetch_add(opcode: u8) -> Self {
        let with_carry = (opcode / 8) % 2 == 1;
        match (with_carry, FetchRegister::spec_from(opcode)) {
            (true, FetchRegister::AddrHL) => ArithmeticInstruction::AddCarryAddrHL,
            (false, FetchRegister::AddrHL) => ArithmeticInstruction::AddAddrHL,
            (true, FetchRegister::Register(reg)) => ArithmeticInstruction::AddCarryRegister(reg),
            (false, FetchRegister::Register(reg)) => ArithmeticInstruction::AddRegister(reg),
        }
    }

    /// SUB and SBC of a register or of the byte at HL, for opcodes 0x90 to
    /// 0x9F: bit 3 chooses SBC, the low three bits the operand.
    pub open spec fn spec_fetch_sub(opcode: u8) -> Self {
        let with_carry = (opcode / 8) % 2 == 1;
        match (with_carry, FetchRegister::spec_from(opcode)) {
            (true, FetchRegister::AddrHL) => ArithmeticInstruction::SubCarryAddrHL,
            (false, FetchRegister::AddrHL) => ArithmeticInstruction::SubAddrHL,
            (true, FetchRegister::Register(reg)) => ArithmeticInstruction::SubCarryRegister(reg),
            (false, FetchRegister::Register(reg)) => ArithmeticInstruction::SubRegister(reg),
        }
    }

    /// AND, XOR, OR and CP of a register or of the byte at HL, for opcodes
    /// 0xA0 to 0xBF: bits 4 and 3 choose the operation, the low three bits
    /// the operand.
    pub open spec fn spec_fetch_bitwise(opcode: u8) -> Self {
        let op = (opcode / 8) % 4;
        match FetchRegister::spec_from(opcode) {
            FetchRegister::AddrHL => if op == 0 {
                ArithmeticInstruction::AndAddrHL
            } else if op == 1 {
                ArithmeticInstruction::XorAddrHL
            } else if op == 2 {
                ArithmeticInstruction::OrAddrHL
            } else {
                ArithmeticInstruction::CmpAddrHL
            },
            FetchRegister::Register(reg) => if op == 0 {
                ArithmeticInstruction::AndRegister(reg)
            } else if op == 1 {
                ArithmeticInstruction::XorRegister(reg)
            } else if op == 2 {
                ArithmeticInstruction::OrRegister(reg)
            } else {
                ArithmeticInstruction::CmpRegister(reg)
            },
        }
    }

    /// INC and DEC of a register or of the byte at HL: bit 0 chooses DEC,
    /// bits 5 to 3 the operand.
    pub open spec fn spec_fetch_inc_dec(opcode: u8) -> Self {
        let dec = opcode % 2 == 1;
        match (dec, FetchRegister::spec_from(opcode / 8)) {
            (true, FetchRegister::AddrHL) => ArithmeticInstruction::DecAddrHL,
            (false, FetchRegister::AddrHL) => ArithmeticInstruction::IncAddrHL,
            (true, FetchRegister::Register(reg)) => ArithmeticInstruction::DecRegister(reg),
            (false, FetchRegister::Register(reg)) => ArithmeticInstruction::IncRegister(reg),
        }
    }

    /// INC and DEC of a word register: bit 3 chooses DEC, bits 5 and 4 the
    /// register.
    pub open spec fn spec_fetch_inc_dec_long(opcode: u8) -> Self {
        let reg = spec_pair_or_sp(opcode / 16);
        if (opcode / 8) % 2 == 1 {
            ArithmeticInstruction::DecLongRegister(reg)
        } else {
            ArithmeticInstruction::IncLongRegister(reg)
        }
    }

    /// ADD HL of a word register: bits 5 and 4 choose the register.
    pub open spec fn spec_fetch_add_hl_long(opcode: u8) -> Self {
        ArithmeticInstruction::AddHL(spec_pair_or_sp(opcode / 16))
    }

    /// The number of bytes that follow `opcode` as its operand, where the
    /// opcode is one of this family.
    pub open spec fn spec_operand_bytes(opcode: u8) -> u16 {
        if opcode >= 0xC0 && opcode % 8 == 6 || opcode == 0xE8 {
            1
        } else {
            0
        }
    }

    /// The instruction of this family that `opcode` stands for, `n` being
    /// the byte that follows it; `None` where the opcode belongs to another
    /// family or to none.
    pub open spec fn spec_decode(opcode: u8, n: u8) -> Option<Self> {
        if 0x80 <= opcode <= 0x8F {
            Some(Self::spec_fetch_add(opcode))
        } else if 0x90 <= opcode <= 0x9F {
            Some(Self::spec_fetch_sub(opcode))
        } else if opcode == 0xC6 {
            Some(ArithmeticInstruction::AddImmediate(n))
        } else if opcode == 0xCE {
            Some(ArithmeticInstruction::AddCarryImmediate(n))
        } else if opcode == 0xD6 {
            Some(ArithmeticInstruction::SubImmediate(n))
        } else if opcode == 0xDE {
            Some(ArithmeticInstruction::SubCarryImmediate(n))
        } else if opcode == 0xE6 {
            Some(ArithmeticInstruction::AndImmediate(n))
        } else if opcode == 0xE8 {
            Some(ArithmeticInstruction::AddSPImmediate(n))
        } else if opcode == 0xEE {
            Some(ArithmeticInstruction::XorImmediate(n))
        } else if opcode == 0xF6 {
            Some(ArithmeticInstruction::OrImmediate(n))
        } else if opcode == 0xFE {
            Some(ArithmeticInstruction::CmpImmediate(n))
        } else if 0xA0 <= opcode <= 0xBF {
            Some(Self::spec_fetch_bitwise(opcode))
        } else if opcode < 0x40 && (opcode % 8 == 4 || opcode % 8 == 5) {
            Some(Self::spec_fetch_inc_dec(opcode))
        } else if opcode < 0x40 && opcode % 8 == 3 {
            Some(Self::spec_fetch_inc_dec_long(opcode))
        } else if opcode < 0x40 && opcode % 16 == 9 {
            Some(Self::spec_fetch_add_hl_long(opcode))
        } else {
            None
        }
    }

    fn fetch_add(opcode: u8) -> (r: Self)
        ensures
            r == Self::spec_fetch_add(opcode),
    {
        let with_carry = (opcode / 8) % 2 == 1;
        match (with_carry, FetchRegister::from(opcode)) {
            (true, FetchRegister::AddrHL) => ArithmeticInstruction::AddCarryAddrHL,
            (false, FetchRegister::AddrHL) => ArithmeticInstruction::AddAddrHL,
            (true, FetchRegister::Register(reg)) => ArithmeticInstruction::AddCarryRegister(reg),
            (false, FetchRegister::Register(reg)) => ArithmeticInstruction::AddRegister(reg),
        }
    }

    fn fetch_sub(opcode: u8) -> (r: Self)
        ensures
            r == Self::spec_fetch_sub(opcode),
    {
        let with_carry = (opcode / 8) % 2 == 1;
        match (with_carry, FetchRegister::from(opcode)) {
            (true, FetchRegister::AddrHL) => ArithmeticInstruction::SubCarryAddrHL,
            (false, FetchRegister::AddrHL) => ArithmeticInstruction::SubAddrHL,
            (true, FetchRegister::Register(reg)) => ArithmeticInstruction::SubCarryRegister(reg),
            (false, FetchRegister::Register(reg)) => ArithmeticInstruction::SubRegister(reg),
        }
    }

    fn fetch_bitwise(opcode: u8) -> (r: Self)
        ensures
            r == Self::spec_fetch_bitwise(opcode),
    {
        let op = (opcode / 8) % 4;
        match (op, FetchRegister::from(opcode)) {
            (0, FetchRegister::AddrHL) => ArithmeticInstruction::AndAddrHL,
            (1, FetchRegister::AddrHL) => ArithmeticInstruction::XorAddrHL,
            (2, FetchRegister::AddrHL) => ArithmeticInstruction::OrAddrHL,
            (_, FetchRegister::AddrHL) => ArithmeticInstruction::CmpAddrHL,
            (0, FetchRegister::Register(reg)) => ArithmeticInstruction::AndRegister(reg),
            (1, FetchRegister::Register(reg)) => ArithmeticInstruction::XorRegister(reg),
            (2, FetchRegister::Register(reg)) => ArithmeticInstruction::OrRegister(reg),
            (_, FetchRegister::Register(reg)) => ArithmeticInstruction::CmpRegister(reg),
        }
    }

    fn fetch_inc_dec(opcode: u8) -> (r: Self)
        ensures
            r == Self::spec_fetch_inc_dec(opcode),
    {
        let dec = opcode % 2 == 1;
        match (dec, FetchRegister::from(opcode / 8)) {
            (true, FetchRegister::AddrHL) => ArithmeticInstruction::DecAddrHL,
            (false, FetchRegister::AddrHL) => ArithmeticInstruction::IncAddrHL,
            (true, FetchRegister::Register(reg)) => ArithmeticInstruction::DecRegister(reg),
            (false, FetchRegister::Register(reg)) => ArithmeticInstruction::IncRegister(reg),
        }
    }

    fn fetch_inc_dec_long(opcode: u8) -> (r: Self)
        ensures
            r == Self::spec_fetch_inc_dec_long(opcode),
    {
        let reg = pair_or_sp(opcode / 16);
        if (opcode / 8) % 2 == 1 {
            ArithmeticInstruction::DecLongRegister(reg)
        } else {
            ArithmeticInstruction::IncLongRegister(reg)
        }
    }

    fn fetch_add_hl_long(opcode: u8) -> (r: Self)
        ensures
            r == Self::spec_fetch_add_hl_long(opcode),
    {
        ArithmeticInstruction::AddHL(pair_or_sp(opcode / 16))
    }

    /// Decodes `opcode`, which was read at PC-1, and reads its operand, if
    /// it has one, at PC.
    #[verifier::rlimit(40)]
    pub fn fetch(cpu: &mut Cpu, opcode: u8) -> (r: Option<Self>)
        ensures
            r == Self::spec_decode(opcode, old(cpu)@.read(old(cpu)@.pc())),
            final(cpu)@ == old(cpu)@.advance_pc(Self::spec_operand_bytes(opcode)),
            final(cpu).spec_cycles() == add_cycles(
                old(cpu).spec_cycles(),
                4 * Self::spec_operand_bytes(opcode),
            ),
            r matches Some(instruction) ==> instruction.spec_length() == 1
                + Self::spec_operand_bytes(opcode),
    {
        if opcode >= 0xC0 && opcode % 8 == 6 || opcode == 0xE8 {
            let n = cpu.advance();
            if opcode == 0xC6 {
                Some(ArithmeticInstruction::AddImmediate(n))
            } else if opcode == 0xCE {
                Some(ArithmeticInstruction::AddCarryImmediate(n))
            } else if opcode == 0xD6 {
                Some(ArithmeticInstruction::SubImmediate(n))
            } else if opcode == 0xDE {
                Some(ArithmeticInstruction::SubCarryImmediate(n))
            } else if opcode == 0xE6 {
                Some(ArithmeticInstruction::AndImmediate(n))
            } else if opcode == 0xE8 {
                Some(ArithmeticInstruction::AddSPImmediate(n))
            } else if opcode == 0xEE {
                Some(ArithmeticInstruction::XorImmediate(n))
            } else if opcode == 0xF6 {
                Some(ArithmeticInstruction::OrImmediate(n))
            } else {
                Some(ArithmeticInstruction::CmpImmediate(n))
            }
        } else {
            if 0x80 <= opcode && opcode <= 0x8F {
                Some(Self::fetch_add(opcode))
            } else if 0x90 <= opcode && opcode <= 0x9F {
                Some(Self::fetch_sub(opcode))
            } else if 0xA0 <= opcode && opcode <= 0xBF {
                Some(Self::fetch_bitwise(opcode))
            } else if opcode < 0x40 && (opcode % 8 == 4 || opcode % 8 == 5) {
                Some(Self::fetch_inc_dec(opcode))
            } else if opcode < 0x40 && opcode % 8 == 3 {
                Some(Self::fetch_inc_dec_long(opcode))
            } else if opcode < 0x40 && opcode % 16 == 9 {
                Some(Self::fetch_add_hl_long(opcode))
            } else {
                None
            }
        }
    }

    pub fn add(a: u8, b: u8) -> (r: (u8, SetFlags))
        ensures
            r == Self::spec_add(a, b),
    {
        Self::add_carry(a, b, false)
    }

    pub fn add_carry(a: u8, b: u8, carry: bool) -> (r: (u8, SetFlags))
        ensures
            r == Self::spec_add_carry(a, b, carry),
    {
        let c: u16 = if carry { 1 } else { 0 };
        let sum: u16 = a as u16 + b as u16 + c;
        let value = (sum % 256) as u8;
        let flags = SetFlags {
            zero: value == 0,
            substract: false,
            half_carry: (a & 0x0F) as u16 + (b & 0x0F) as u16 + c > 0x0F,
            carry: sum > 0xFF,
        };
        (value, flags)
    }

    pub fn sub(a: u8, b: u8) -> (r: (u8, SetFlags))
        ensures
            r == Self::spec_sub(a, b),
    {
        Self::sub_carry(a, b, false)
    }

    pub fn sub_carry(a: u8, b: u8, carry: bool) -> (r: (u8, SetFlags))
        ensures
            r == Self::spec_sub_carry(a, b, carry),
    {
        let c: u16 = if carry { 1 } else { 0 };
        let value = ((256 + a as u16 - b as u16 - c) % 256) as u8;
        let flags = SetFlags {
            zero: value == 0,
            substract: true,
            half_carry: ((a & 0x0F) as u16) < (b & 0x0F) as u16 + c,
            carry: (a as u16) < b as u16 + c,
        };
        (value, flags)
    }

    pub fn inc(a: u8, carry: bool) -> (r: (u8, SetFlags))
        ensures
            r == Self::spec_inc(a, carry),
    {
        let value = a.wrapping_add(1);
        let flags = SetFlags {
            zero: value == 0,
            substract: false,
            half_carry: a & 0x0F == 0x0F,
            carry,
        };
        (value, flags)
    }

    pub fn dec(a: u8, carry: bool) -> (r: (u8, SetFlags))
        ensures
            r == Self::spec_dec(a, carry),
    {
        let value = a.wrapping_sub(1);
        let flags = SetFlags { zero: value == 0, substract: true, half_carry: a & 0x0F == 0, carry };
        (value, flags)
    }

    pub fn add_long(hl: u16, value: u16, flags: SetFlags) -> (r: (u16, SetFlags))
        ensures
            r == Self::spec_add_long(hl, value, flags),
    {
        let flags = SetFlags {
            zero: flags.zero,
            substract: false,
            half_carry: (hl & 0x0FFF) as u32 + (value & 0x0FFF) as u32 > 0x0FFF,
            carry: hl as u32 + value as u32 > 0xFFFF,
        };
        (hl.wrapping_add(value), flags)
    }

    /// Reads the byte that the instruction works on beside A.
    ///
    /// Cycles: 4 for the byte at HL, else none
    fn operand(self, cpu: &mut Cpu) -> (n: u8)
        ensures
            n == self.spec_operand(old(cpu)@),
            final(cpu)@ == old(cpu)@,
            final(cpu).spec_cycles() == add_cycles(
                old(cpu).spec_cycles(),
                if self.spec_reads_hl() {
                    4int
                } else {
                    0int
                },
            ),
    {
        match self {
            ArithmeticInstruction::AddImmediate(n)
            | ArithmeticInstruction::SubImmediate(n)
            | ArithmeticInstruction::AddCarryImmediate(n)
            | ArithmeticInstruction::SubCarryImmediate(n)
            | ArithmeticInstruction::AndImmediate(n)
            | ArithmeticInstruction::OrImmediate(n)
            | ArithmeticInstruction::XorImmediate(n)
            | ArithmeticInstruction::CmpImmediate(n)
            | ArithmeticInstruction::AddSPImmediate(n) => n,
            ArithmeticInstruction::AddRegister(reg)
            | ArithmeticInstruction::SubRegister(reg)
            | ArithmeticInstruction::AddCarryRegister(reg)
            | ArithmeticInstruction::SubCarryRegister(reg)
            | ArithmeticInstruction::AndRegister(reg)
            | ArithmeticInstruction::OrRegister(reg)
            | ArithmeticInstruction::XorRegister(reg)
            | ArithmeticInstruction::CmpRegister(reg)
            | ArithmeticInstruction::IncRegister(reg)
            | ArithmeticInstruction::DecRegister(reg) => cpu.get_reg(reg),
            ArithmeticInstruction::AddAddrHL
            | ArithmeticInstruction::SubAddrHL
            | ArithmeticInstruction::AddCarryAddrHL
            | ArithmeticInstruction::SubCarryAddrHL
            | ArithmeticInstruction::AndAddrHL
            | ArithmeticInstruction::OrAddrHL
            | ArithmeticInstruction::XorAddrHL
            | ArithmeticInstruction::CmpAddrHL
            | ArithmeticInstruction::IncAddrHL
            | ArithmeticInstruction::DecAddrHL => cpu.get_at_hl(),
            ArithmeticInstruction::AddHL(_)
            | ArithmeticInstruction::IncLongRegister(_)
            | ArithmeticInstruction::DecLongRegister(_) => 0,
        }
    }

    /// Executes the instruction, which was fetched: PC is past it, and the
    /// cycles of the fetch are counted.
    #[verifier::rlimit(40)]
    pub fn execute(self, cpu: &mut Cpu)
        ensures
            final(cpu)@ == self.spec_execute(old(cpu)@),
            final(cpu).spec_cycles() == add_cycles(
                old(cpu).spec_cycles(),
                self.spec_cycles() - 4 * self.spec_length(),
            ),
    {
        let a = cpu.get_reg_a();
        let carry = cpu.get_flag(Flags::Carry);
        let n = self.operand(cpu);
        proof {
            lemma_add_cycles(old(cpu).spec_cycles(), 4, 4);
        }
        match self {
            ArithmeticInstruction::AddImmediate(_)
            | ArithmeticInstruction::AddRegister(_)
            | ArithmeticInstruction::AddAddrHL => {
                let (value, flags) = Self::add(a, n);
                cpu.set_flags(flags);
                cpu.put_reg_a(value);
            },
            ArithmeticInstruction::SubImmediate(_)
            | ArithmeticInstruction::SubRegister(_)
            | ArithmeticInstruction::SubAddrHL => {
                let (value, flags) = Self::sub(a, n);
                cpu.set_flags(flags);
                cpu.put_reg_a(value);
            },
            ArithmeticInstruction::AddCarryImmediate(_)
            | ArithmeticInstruction::AddCarryRegister(_)
            | ArithmeticInstruction::AddCarryAddrHL => {
                let (value, flags) = Self::add_carry(a, n, carry);
                cpu.set_flags(flags);
                cpu.put_reg_a(value);
            },
            ArithmeticInstruction::SubCarryImmediate(_)
            | ArithmeticInstruction::SubCarryRegister(_)
            | ArithmeticInstruction::SubCarryAddrHL => {
                let (value, flags) = Self::sub_carry(a, n, carry);
                cpu.set_flags(flags);
                cpu.put_reg_a(value);
            },
            ArithmeticInstruction::AndImmediate(_)
            | ArithmeticInstruction::AndRegister(_)
            | ArithmeticInstruction::AndAddrHL => {
                let result = a & n;
                let flags = SetFlags {
                    zero: result == 0,
                    substract: false,
                    half_carry: true,
                    carry: false,
                };
                cpu.set_flags(flags);
                cpu.put_reg_a(result);
            },
            ArithmeticInstruction::OrImmediate(_)
            | ArithmeticInstruction::OrRegister(_)
            | ArithmeticInstruction::OrAddrHL => {
                let result = a | n;
                let flags = SetFlags { zero: result == 0, ..SetFlags::default() };
                cpu.set_flags(flags);
                cpu.put_reg_a(result);
            },
            ArithmeticInstruction::XorImmediate(_)
            | ArithmeticInstruction::XorRegister(_)
            | ArithmeticInstruction::XorAddrHL => {
                let result = a ^ n;
                let flags = SetFlags { zero: result == 0, ..SetFlags::default() };
                cpu.set_flags(flags);
                cpu.put_reg_a(result);
            },
            ArithmeticInstruction::CmpImmediate(_)
            | ArithmeticInstruction::CmpRegister(_)
            | ArithmeticInstruction::CmpAddrHL => {
                let (_, flags) = Self::sub(a, n);
                cpu.set_flags(flags);
            },
            ArithmeticInstruction::IncRegister(reg) => {
                let (value, flags) = Self::inc(n, carry);
                cpu.set_flags(flags);
                cpu.put_reg(reg, value);
            },
            ArithmeticInstruction::IncAddrHL => {
                let (value, flags) = Self::inc(n, carry);
                cpu.set_flags(flags);
                cpu.put_at_hl(value);
            },
            ArithmeticInstruction::DecRegister(reg) => {
                let (value, flags) = Self::dec(n, carry);
                cpu.set_flags(flags);
                cpu.put_reg(reg, value);
            },
            ArithmeticInstruction::DecAddrHL => {
                let (value, flags) = Self::dec(n, carry);
                cpu.set_flags(flags);
                cpu.put_at_hl(value);
            },
            ArithmeticInstruction::AddHL(reg) => {
                // one fetch, but two machine cycles
                cpu.cycle();
                let hl = cpu.get_long_reg(LongRegister::HL);
                let value = cpu.get_long_reg(reg);
                let (value, flags) = Self::add_long(hl, value, cpu.get_flags());
                cpu.set_flags(flags);
                cpu.put_long_reg(LongRegister::HL, value);
            },
            ArithmeticInstruction::AddSPImmediate(_) => {
                // two fetches, but four machine cycles
                cpu.cycle();
                cpu.cycle();
                let sp = cpu.get_long_reg(LongRegister::SP);
                let (value, flags) = LoadInstruction::add_delta_to_addr(sp, signed(n));
                cpu.set_flags(flags);
                cpu.put_long_reg(LongRegister::SP, value);
            },
            ArithmeticInstruction::IncLongRegister(reg) => {
                // one fetch, but two machine cycles
                cpu.cycle();
                let value = cpu.get_long_reg(reg);
                cpu.put_long_reg(reg, value.wrapping_add(1));
            },
            ArithmeticInstruction::DecLongRegister(reg) => {
                // one fetch, but two machine cycles
                cpu.cycle();
                let value = cpu.get_long_reg(reg);
                cpu.put_long_reg(reg, value.wrapping_sub(1));
            },
        }
    }
}

} // verus!
