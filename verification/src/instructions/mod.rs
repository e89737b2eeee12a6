//! The instruction set: decoding opcodes to instructions and executing
//! them, one family to a module.

use vstd::prelude::*;
use crate::cpu::cyclic::{add_cycles, lemma_add_cycles};
use crate::cpu::registers::{LongRegister, Register, SetFlags};
use crate::cpu::{Cpu, CpuState};
use self::arithmetic::ArithmeticInstruction;
use self::bit::{BitInstruction, TargetBit};
use self::control_flow::{ControlFlowCondition, ControlFlowInstruction};
use self::load::LoadInstruction;
use self::miscellaneous::MiscInstruction;
use self::rotate_shift::RotateShiftInstruction;

pub mod arithmetic;
pub mod bit;
pub mod control_flow;
pub mod load;
pub mod miscellaneous;
pub mod rotate_shift;

verus! {

/// The operand that the three-bit register field of an opcode names.
#[derive(Debug, Clone, Copy, PartialEq, Eq, Structural)]
pub enum FetchRegister {
    Register(Register),
    /// The byte at the address in HL.
    AddrHL,
}

impl FetchRegister {
    /// The operand that a register field names: B, C, D, E, H, L, (HL), A
    /// for 0 to 7. Only the low three bits of `field` count.
    pub open spec fn spec_from(field: u8) -> FetchRegister {
        let field = field % 8;
        if field == 0 {
            FetchRegister::Register(Register::B)
        } else if field == 1 {
            FetchRegister::Register(Register::C)
        } else if field == 2 {
            FetchRegister::Register(Register::D)
        } else if field == 3 {
            FetchRegister::Register(Register::E)
        } else if field == 4 {
            FetchRegister::Register(Register::H)
        } else if field == 5 {
            FetchRegister::Register(Register::L)
        } else if field == 6 {
            FetchRegister::AddrHL
        } else {
            FetchRegister::Register(Register::A)
        }
    }

    /// Applies `if_reg` to the register, or gives `if_hl` where the operand
    /// is the byte at HL.
    pub fn map<F, T>(self, if_reg: F, if_hl: T) -> (r: T) where F: FnOnce(Register) -> T
        requires
            self matches FetchRegister::Register(reg) ==> if_reg.requires((reg,)),
        ensures
            match self {
                FetchRegister::Register(reg) => if_reg.ensures((reg,), r),
                FetchRegister::AddrHL => r == if_hl,
            },
    {
        match self {
            FetchRegister::Register(reg) => if_reg(reg),
            FetchRegister::AddrHL => if_hl,
        }
    }
}

impl From<u8> for FetchRegister {
    fn from(field: u8) -> (r: FetchRegister) {
        match field % 8 {
            0 => FetchRegister::Register(Register::B),
            1 => FetchRegister::Register(Register::C),
            2 => FetchRegister::Register(Register::D),
            3 => FetchRegister::Register(Register::E),
            4 => FetchRegister::Register(Register::H),
            5 => FetchRegister::Register(Register::L),
            6 => FetchRegister::AddrHL,
            _ => FetchRegister::Register(Register::A),
        }
    }
}

impl vstd::std_specs::convert::FromSpecImpl<u8> for FetchRegister {
    open spec fn obeys_from_spec() -> bool {
        true
    }

    open spec fn from_spec(field: u8) -> FetchRegister {
        FetchRegister::spec_from(field)
    }
}

/// The word register that the two-bit pair field of an opcode names in
/// arithmetic and in loads of immediates: BC, DE, HL, SP for 0 to 3. Only
/// the low two bits of `field` count.
pub open spec fn spec_pair_or_sp(field: u8) -> LongRegister {
    let field = field % 4;
    if field == 0 {
        LongRegister::BC
    } else if field == 1 {
        LongRegister::DE
    } else if field == 2 {
        LongRegister::HL
    } else {
        LongRegister::SP
    }
}

/// The word register that the two-bit pair field of an opcode names in
/// PUSH and POP: BC, DE, HL, AF for 0 to 3. Only the low two bits of
/// `field` count.
pub open spec fn spec_pair_or_af(field: u8) -> LongRegister {
    let field = field % 4;
    if field == 0 {
        LongRegister::BC
    } else if field == 1 {
        LongRegister::DE
    } else if field == 2 {
        LongRegister::HL
    } else {
        LongRegister::AF
    }
}

pub fn pair_or_sp(field: u8) -> (reg: LongRegister)
    ensures
        reg == spec_pair_or_sp(field),
{
    match field % 4 {
        0 => LongRegister::BC,
        1 => LongRegister::DE,
        2 => LongRegister::HL,
        _ => LongRegister::SP,
    }
}

pub fn pair_or_af(field: u8) -> (reg: LongRegister)
    ensures
        reg == spec_pair_or_af(field),
{
    match field % 4 {
        0 => LongRegister::BC,
        1 => LongRegister::DE,
        2 => LongRegister::HL,
        _ => LongRegister::AF,
    }
}

/// The signed value of a byte in two's complement.
pub open spec fn spec_signed(byte: u8) -> i8 {
    if byte < 128 {
        byte as i8
    } else {
        (byte - 256) as i8
    }
}

/// The byte that holds a signed value in two's complement.
pub open spec fn spec_unsigned(value: i8) -> u8 {
    if value < 0 {
        (value + 256) as u8
    } else {
        value as u8
    }
}

pub fn signed(byte: u8) -> (value: i8)
    ensures
        value == spec_signed(byte),
        spec_unsigned(value) == byte,
{
    if byte < 128 {
        byte as i8
    } else {
        (byte as i16 - 256) as i8
    }
}

pub fn unsigned(value: i8) -> (byte: u8)
    ensures
        byte == spec_unsigned(value),
        spec_signed(byte) == value,
{
    if value < 0 {
        (value as i16 + 256) as u8
    } else {
        value as u8
    }
}

#[derive(Debug, Clone, Copy, PartialEq, Eq)]
pub enum Instruction {
    Load(LoadInstruction),
    Arithmetic(ArithmeticInstruction),
    Misc(MiscInstruction),
    RotateShift(RotateShiftInstruction),
    Bit(BitInstruction),
    ControlFlow(ControlFlowInstruction),
}

/// The opcode that announces an instruction of the prefixed page.
pub const PREFIX: u8 = 0xCB;

/// Whether `opcode` is one of the eleven bytes of the unprefixed page that
/// the processor has no instruction for.
pub open spec fn spec_is_illegal(opcode: u8) -> bool {
    ||| opcode == 0xD3
    ||| opcode == 0xDB
    ||| opcode == 0xDD
    ||| opcode == 0xE3
    ||| opcode == 0xE4
    ||| opcode == 0xEB
    ||| opcode == 0xEC
    ||| opcode == 0xED
    ||| opcode == 0xF4
    ||| opcode == 0xFC
    ||| opcode == 0xFD
}

impl Instruction {
    /// The instruction that `opcode` stands for on the prefixed page: the
    /// low three bits name the operand, the rest the operation.
    pub open spec fn spec_decode_prefixed(opcode: u8) -> Option<Instruction> {
        let reg = FetchRegister::spec_from(opcode);
        let opcode_id = (opcode - opcode % 8) as u8;
        match MiscInstruction::spec_decode_prefixed(opcode_id, reg) {
            Some(instruction) => Some(Instruction::Misc(instruction)),
            None => match RotateShiftInstruction::spec_decode_prefixed(opcode_id, reg) {
                Some(instruction) => Some(Instruction::RotateShift(instruction)),
                None => match BitInstruction::spec_decode_prefixed(opcode_id, reg) {
                    Some(instruction) => Some(Instruction::Bit(instruction)),
                    None => None,
                },
            },
        }
    }

    /// The instruction that `opcode` stands for on the unprefixed page, `n`
    /// being the byte that follows it and `nn` the word that follows it,
    /// low byte first.
    pub open spec fn spec_decode(opcode: u8, n: u8, nn: u16) -> Option<Instruction> {
        match LoadInstruction::spec_decode(opcode, n, nn) {
            Some(instruction) => Some(Instruction::Load(instruction)),
            None => match ArithmeticInstruction::spec_decode(opcode, n) {
                Some(instruction) => Some(Instruction::Arithmetic(instruction)),
                None => match MiscInstruction::spec_decode(opcode, n) {
                    Some(instruction) => Some(Instruction::Misc(instruction)),
                    None => match RotateShiftInstruction::spec_decode(opcode) {
                        Some(instruction) => Some(Instruction::RotateShift(instruction)),
                        None => match ControlFlowInstruction::spec_decode(opcode, n, nn) {
                            Some(instruction) => Some(Instruction::ControlFlow(instruction)),
                            None => None,
                        },
                    },
                },
            },
        }
    }

    /// The instruction at PC, if there is one.
    #[verifier::opaque]
    pub open spec fn spec_fetch(s: CpuState) -> Option<Instruction> {
        let opcode = s.read(s.pc());
        let after = s.pc().wrapping_add(1);
        if opcode == PREFIX {
            Self::spec_decode_prefixed(s.read(after))
        } else {
            Self::spec_decode(opcode, s.read(after), s.read_long(after))
        }
    }

    /// The state after the instruction is executed, PC being past it.
    #[verifier::opaque]
    pub open spec fn spec_execute(self, s: CpuState) -> CpuState {
        match self {
            Instruction::Load(instruction) => instruction.spec_execute(s),
            Instruction::Arithmetic(instruction) => instruction.spec_execute(s),
            Instruction::Misc(instruction) => instruction.spec_execute(s),
            Instruction::RotateShift(instruction) => instruction.spec_execute(s),
            Instruction::Bit(instruction) => instruction.spec_execute(s),
            Instruction::ControlFlow(instruction) => instruction.spec_execute(s),
        }
    }

    /// The bytes that the instruction takes in memory, the prefix counted.
    pub open spec fn spec_length(self) -> int {
        match self {
            Instruction::Load(instruction) => instruction.spec_length(),
            Instruction::Arithmetic(instruction) => instruction.spec_length(),
            Instruction::Misc(instruction) => instruction.spec_length(),
            Instruction::RotateShift(instruction) => instruction.spec_length(),
            Instruction::Bit(instruction) => instruction.spec_length(),
            Instruction::ControlFlow(instruction) => instruction.spec_length(),
        }
    }

    /// The bytes of the instruction that are read on the bus when it is
    /// fetched: all of them, but for the second byte of STOP.
    pub open spec fn spec_fetched_bytes(self) -> int {
        match self {
            Instruction::Misc(instruction) => instruction.spec_fetched_bytes(),
            _ => self.spec_length(),
        }
    }

    /// Whether the instruction branches when the flags are `flags`; true of
    /// every instruction that is no conditional branch.
    pub open spec fn spec_taken(self, flags: SetFlags) -> bool {
        match self {
            Instruction::ControlFlow(instruction) => instruction.spec_taken(flags),
            _ => true,
        }
    }

    /// The T-cycles that the instruction takes from the fetch of its first
    /// byte to its end, by whether it branches.
    pub open spec fn spec_cycles(self, taken: bool) -> int {
        match self {
            Instruction::Load(instruction) => instruction.spec_cycles(),
            Instruction::Arithmetic(instruction) => instruction.spec_cycles(),
            Instruction::Misc(instruction) => instruction.spec_cycles(),
            Instruction::RotateShift(instruction) => instruction.spec_cycles(),
            Instruction::Bit(instruction) => instruction.spec_cycles(),
            Instruction::ControlFlow(instruction) => instruction.spec_cycles(taken),
        }
    }

    /// The bytes that a fetch takes where the byte `opcode` at PC starts no
    /// instruction: 0x10 takes the byte after it along, whatever it holds,
    /// and every other such byte stands alone.
    pub open spec fn spec_undefined_length(opcode: u8) -> u16 {
        if opcode == 0x10 {
            2
        } else {
            1
        }
    }

    /// Reads the instruction at PC and moves PC past it. Every byte of it
    /// is read on the bus, but for the second byte of STOP.
    ///
    /// Where the byte at PC starts no instruction, PC moves past that byte,
    /// and four cycles pass for its read. 0x10 before a byte other than
    /// zero is such a case: PC moves past both bytes, and the second is not
    /// read on the bus, as it is not for STOP.
    #[verifier::rlimit(40)]
    pub fn fetch(cpu: &mut Cpu) -> (r: Option<Self>)
        ensures
            r == Self::spec_fetch(old(cpu)@),
            final(cpu)@ == old(cpu)@.advance_pc(
                match r {
                    Some(instruction) => instruction.spec_length() as u16,
                    None => Self::spec_undefined_length(old(cpu)@.read(old(cpu)@.pc())),
                },
            ),
            final(cpu).spec_cycles() == add_cycles(
                old(cpu).spec_cycles(),
                match r {
                    Some(instruction) => 4 * instruction.spec_fetched_bytes(),
                    None => 4,
                },
            ),
    {
        reveal(Instruction::spec_fetch);
        let opcode = cpu.advance();
        if opcode == PREFIX {
            let opcode = cpu.advance();
            proof {
                lemma_add_cycles(old(cpu).spec_cycles(), 4, 4);
                Self::lemma_prefixed_page_is_total(opcode);
            }
            let reg = FetchRegister::from(opcode);
            let opcode_id = opcode - opcode % 8;
            match MiscInstruction::fetch_prefixed(cpu, opcode_id, reg) {
                Some(instruction) => Some(Instruction::Misc(instruction)),
                None => match RotateShiftInstruction::fetch_prefixed(cpu, opcode_id, reg) {
                    Some(instruction) => Some(Instruction::RotateShift(instruction)),
                    None => match BitInstruction::fetch_prefixed(cpu, opcode_id, reg) {
                        Some(instruction) => Some(Instruction::Bit(instruction)),
                        None => None,
                    },
                },
            }
        } else {
            proof {
                lemma_add_cycles(old(cpu).spec_cycles(), 4, 0);
                lemma_add_cycles(old(cpu).spec_cycles(), 4, 4);
                lemma_add_cycles(old(cpu).spec_cycles(), 4, 8);
            }
            match LoadInstruction::fetch(cpu, opcode) {
                Some(instruction) => Some(Instruction::Load(instruction)),
                None => match ArithmeticInstruction::fetch(cpu, opcode) {
                    Some(instruction) => Some(Instruction::Arithmetic(instruction)),
                    None => match MiscInstruction::fetch(cpu, opcode) {
                        Some(instruction) => Some(Instruction::Misc(instruction)),
                        None => match RotateShiftInstruction::fetch(cpu, opcode) {
                            Some(instruction) => Some(Instruction::RotateShift(instruction)),
                            None => match ControlFlowInstruction::fetch(cpu, opcode) {
                                Some(instruction) => Some(Instruction::ControlFlow(instruction)),
                                None => None,
                            },
                        },
                    },
                },
            }
        }
    }

    /// Executes the instruction, which was fetched: PC is past it, and the
    /// cycles of the fetch are counted. With them, the instruction takes
    /// the cycles of [`Instruction::spec_cycles`].
    #[verifier::rlimit(40)]
    pub fn execute(self, cpu: &mut Cpu)
        ensures
            final(cpu)@ == self.spec_execute(old(cpu)@),
            final(cpu).spec_cycles() == add_cycles(
                old(cpu).spec_cycles(),
                self.spec_cycles(self.spec_taken(old(cpu)@.flags())) - 4
                    * self.spec_fetched_bytes(),
            ),
    {
        reveal(Instruction::spec_execute);
        match self {
            Instruction::Load(instruction) => instruction.execute(cpu),
            Instruction::Arithmetic(instruction) => instruction.execute(cpu),
            Instruction::Misc(instruction) => instruction.execute(cpu),
            Instruction::RotateShift(instruction) => instruction.execute(cpu),
            Instruction::Bit(instruction) => instruction.execute(cpu),
            Instruction::ControlFlow(instruction) => instruction.execute(cpu),
        }
    }

    /// Every opcode of the prefixed page is an instruction of two bytes.
    #[verifier::rlimit(40)]
    pub proof fn lemma_prefixed_page_is_total(opcode: u8)
        ensures
            Self::spec_decode_prefixed(opcode) matches Some(instruction)
                && instruction.spec_length() == 2 && instruction.spec_fetched_bytes() == 2,
    {
    }

    /// The bytes of the unprefixed page that start no instruction are the
    /// prefix, the eleven illegal opcodes, and 0x10 where no zero byte
    /// follows it.
    #[verifier::rlimit(40)]
    pub proof fn lemma_undefined_opcodes(opcode: u8, n: u8, nn: u16)
        ensures
            Self::spec_decode(opcode, n, nn) is None <==> (opcode == PREFIX || spec_is_illegal(
                opcode,
            ) || (opcode == 0x10 && n != 0)),
    {
    }

    /// The cycles of an instruction are those of the bus transactions that
    /// fetch it and those of its execution, which are never negative.
    pub proof fn lemma_cycles_cover_fetch(self, taken: bool)
        ensures
            1 <= self.spec_fetched_bytes() <= self.spec_length() <= 3,
            4 * self.spec_fetched_bytes() <= self.spec_cycles(taken) <= 24,
            self.spec_cycles(taken) % 4 == 0,
    {
    }

    /// The rows of the opcode table of the unprefixed page that are loads,
    /// by bit fields: each row gives a mask and the value that the masked
    /// opcode has, and the instruction that every such opcode stands for.
    /// The low three bits and bits 5 to 3 name byte operands, bits 5 and 4
    /// a word register.
    #[verifier::rlimit(40)]
    pub proof fn lemma_opcode_table_loads(opcode: u8, n: u8, nn: u16)
        ensures
            ({
                let decoded = Self::spec_decode(opcode, n, nn);
                let source = FetchRegister::spec_from(opcode & 0x07);
                let target = FetchRegister::spec_from((opcode >> 3) & 0x07);
                let pair = spec_pair_or_sp((opcode >> 4) & 0x03);
                let stacked = spec_pair_or_af((opcode >> 4) & 0x03);
                // LD r,r'
                &&& opcode & 0xC0 == 0x40 ==> decoded == Some(
                    match (target, source) {
                        (FetchRegister::AddrHL, FetchRegister::AddrHL) => Instruction::Misc(
                            MiscInstruction::Halt,
                        ),
                        (FetchRegister::AddrHL, FetchRegister::Register(r)) => Instruction::Load(
                            LoadInstruction::LoadIntoHLAddr(r),
                        ),
                        (FetchRegister::Register(r), FetchRegister::AddrHL) => Instruction::Load(
                            LoadInstruction::LoadFromHLAddr(r),
                        ),
                        (
                            FetchRegister::Register(r1),
                            FetchRegister::Register(r2),
                        ) => Instruction::Load(LoadInstruction::LoadRegister(r1, r2)),
                    },
                )
                // LD r,n
                &&& opcode & 0xC7 == 0x06 ==> decoded == Some(
                    Instruction::Load(
                        match target {
                            FetchRegister::Register(r) => LoadInstruction::LoadImmediate(r, n),
                            FetchRegister::AddrHL => LoadInstruction::LoadIntoHLAddrn(n),
                        },
                    ),
                )
                // LD rr,nn
                &&& opcode & 0xCF == 0x01 ==> decoded == Some(
                    Instruction::Load(LoadInstruction::LoadImmediateLong(pair, nn)),
                )
                // PUSH rr
                &&& opcode & 0xCF == 0xC5 ==> decoded == Some(
                    Instruction::Load(LoadInstruction::Push(stacked)),
                )
                // POP rr
                &&& opcode & 0xCF == 0xC1 ==> decoded == Some(
                    Instruction::Load(LoadInstruction::Pop(stacked)),
                )
            }),
    {
        Self::lemma_opcode_fields(opcode);
    }

    /// The rows of the opcode table of the unprefixed page that are
    /// arithmetic, by bit fields: the low three bits and bits 5 to 3 name
    /// byte operands, bits 5 and 4 a word register.
    #[verifier::rlimit(40)]
    pub proof fn lemma_opcode_table_arithmetic(opcode: u8, n: u8, nn: u16)
        ensures
            ({
                let decoded = Self::spec_decode(opcode, n, nn);
                let source = FetchRegister::spec_from(opcode & 0x07);
                let target = FetchRegister::spec_from((opcode >> 3) & 0x07);
                let pair = spec_pair_or_sp((opcode >> 4) & 0x03);
                // ADD A,r
                &&& opcode & 0xF8 == 0x80 ==> decoded == Some(
                    Instruction::Arithmetic(
                        match source {
                            FetchRegister::Register(r) => ArithmeticInstruction::AddRegister(r),
                            FetchRegister::AddrHL => ArithmeticInstruction::AddAddrHL,
                        },
                    ),
                )
                // ADC A,r
                &&& opcode & 0xF8 == 0x88 ==> decoded == Some(
                    Instruction::Arithmetic(
                        match source {
                            FetchRegister::Register(r) => ArithmeticInstruction::AddCarryRegister(r),
                            FetchRegister::AddrHL => ArithmeticInstruction::AddCarryAddrHL,
                        },
                    ),
                )
                // SUB A,r
                &&& opcode & 0xF8 == 0x90 ==> decoded == Some(
                    Instruction::Arithmetic(
                        match source {
                            FetchRegister::Register(r) => ArithmeticInstruction::SubRegister(r),
                            FetchRegister::AddrHL => ArithmeticInstruction::SubAddrHL,
                        },
                    ),
                )
                // SBC A,r
                &&& opcode & 0xF8 == 0x98 ==> decoded == Some(
                    Instruction::Arithmetic(
                        match source {
                            FetchRegister::Register(r) => ArithmeticInstruction::SubCarryRegister(r),
                            FetchRegister::AddrHL => ArithmeticInstruction::SubCarryAddrHL,
                        },
                    ),
                )
                // AND A,r
                &&& opcode & 0xF8 == 0xA0 ==> decoded == Some(
                    Instruction::Arithmetic(
                        match source {
                            FetchRegister::Register(r) => ArithmeticInstruction::AndRegister(r),
                            FetchRegister::AddrHL => ArithmeticInstruction::AndAddrHL,
                        },
                    ),
                )
                // XOR A,r
                &&& opcode & 0xF8 == 0xA8 ==> decoded == Some(
                    Instruction::Arithmetic(
                        match source {
                            FetchRegister::Register(r) => ArithmeticInstruction::XorRegister(r),
                            FetchRegister::AddrHL => ArithmeticInstruction::XorAddrHL,
                        },
                    ),
                )
                // OR A,r
                &&& opcode & 0xF8 == 0xB0 ==> decoded == Some(
                    Instruction::Arithmetic(
                        match source {
                            FetchRegister::Register(r) => ArithmeticInstruction::OrRegister(r),
                            FetchRegister::AddrHL => ArithmeticInstruction::OrAddrHL,
                        },
                    ),
                )
                // CP A,r
                &&& opcode & 0xF8 == 0xB8 ==> decoded == Some(
                    Instruction::Arithmetic(
                        match source {
                            FetchRegister::Register(r) => ArithmeticInstruction::CmpRegister(r),
                            FetchRegister::AddrHL => ArithmeticInstruction::CmpAddrHL,
                        },
                    ),
                )
                // INC r
                &&& opcode & 0xC7 == 0x04 ==> decoded == Some(
                    Instruction::Arithmetic(
                        match target {
                            FetchRegister::Register(r) => ArithmeticInstruction::IncRegister(r),
                            FetchRegister::AddrHL => ArithmeticInstruction::IncAddrHL,
                        },
                    ),
                )
                // DEC r
                &&& opcode & 0xC7 == 0x05 ==> decoded == Some(
                    Instruction::Arithmetic(
                        match target {
                            FetchRegister::Register(r) => ArithmeticInstruction::DecRegister(r),
                            FetchRegister::AddrHL => ArithmeticInstruction::DecAddrHL,
                        },
                    ),
                )
                // INC rr
                &&& opcode & 0xCF == 0x03 ==> decoded == Some(
                    Instruction::Arithmetic(ArithmeticInstruction::IncLongRegister(pair)),
                )
                // ADD HL,rr
                &&& opcode & 0xCF == 0x09 ==> decoded == Some(
                    Instruction::Arithmetic(ArithmeticInstruction::AddHL(pair)),
                )
                // DEC rr
                &&& opcode & 0xCF == 0x0B ==> decoded == Some(
                    Instruction::Arithmetic(ArithmeticInstruction::DecLongRegister(pair)),
                )
            }),
    {
        Self::lemma_opcode_fields(opcode);
    }

    /// The rows of the opcode table of the unprefixed page that are
    /// branches, by bit fields: bits 4 and 3 name the condition, bits 5 to
    /// 3 the target of RST.
    #[verifier::rlimit(40)]
    pub proof fn lemma_opcode_table_control_flow(opcode: u8, n: u8, nn: u16)
        ensures
            ({
                let decoded = Self::spec_decode(opcode, n, nn);
                let cc = ControlFlowCondition::spec_from((opcode >> 3) & 0x03);
                // JR cc,e
                &&& opcode & 0xE7 == 0x20 ==> decoded == Some(
                    Instruction::ControlFlow(
                        ControlFlowInstruction::JumpRelativeCondition(cc, spec_signed(n)),
                    ),
                )
                // RET cc
                &&& opcode & 0xE7 == 0xC0 ==> decoded == Some(
                    Instruction::ControlFlow(ControlFlowInstruction::ReturnCondition(cc)),
                )
                // JP cc,nn
                &&& opcode & 0xE7 == 0xC2 ==> decoded == Some(
                    Instruction::ControlFlow(
                        ControlFlowInstruction::JumpImmediateCondition(cc, nn),
                    ),
                )
                // CALL cc,nn
                &&& opcode & 0xE7 == 0xC4 ==> decoded == Some(
                    Instruction::ControlFlow(
                        ControlFlowInstruction::CallImmediateCondition(cc, nn),
                    ),
                )
                // RST n
                &&& opcode & 0xC7 == 0xC7 ==> decoded == Some(
                    Instruction::ControlFlow(ControlFlowInstruction::Reset(opcode & 0x38)),
                )
            }),
    {
        Self::lemma_opcode_fields(opcode);
    }

    /// The opcodes of the unprefixed page that stand alone in the table,
    /// each with its instruction.
    #[verifier::rlimit(40)]
    pub proof fn lemma_single_opcodes(n: u8, nn: u16)
        ensures
            Self::spec_decode(0xC3, n, nn) == Some(
                Instruction::ControlFlow(ControlFlowInstruction::JumpImmediate(nn)),
            ),
            Self::spec_decode(0xCD, n, nn) == Some(
                Instruction::ControlFlow(ControlFlowInstruction::CallImmediate(nn)),
            ),
            Self::spec_decode(0xC9, n, nn) == Some(
                Instruction::ControlFlow(ControlFlowInstruction::Return),
            ),
            Self::spec_decode(0xD9, n, nn) == Some(
                Instruction::ControlFlow(ControlFlowInstruction::ReturnEnableInterrupt),
            ),
            Self::spec_decode(0x18, n, nn) == Some(
                Instruction::ControlFlow(
                    ControlFlowInstruction::JumpImmediateRelative(spec_signed(n)),
                ),
            ),
            Self::spec_decode(0xE9, n, nn) == Some(
                Instruction::ControlFlow(ControlFlowInstruction::JumpAddrHL),
            ),
            Self::spec_decode(0xEA, n, nn) == Some(
                Instruction::Load(LoadInstruction::LoadIntoAddrnnFromA(nn)),
            ),
            Self::spec_decode(0xFA, n, nn) == Some(
                Instruction::Load(LoadInstruction::LoadIntoAFromAddrnn(nn)),
            ),
            Self::spec_decode(0xE2, n, nn) == Some(
                Instruction::Load(LoadInstruction::LoadIntoAddrCFromA),
            ),
            Self::spec_decode(0xF2, n, nn) == Some(
                Instruction::Load(LoadInstruction::LoadFromAddrCIntoA),
            ),
            Self::spec_decode(0xE0, n, nn) == Some(
                Instruction::Load(LoadInstruction::LoadFromAIntoAddrn(n)),
            ),
            Self::spec_decode(0xF0, n, nn) == Some(
                Instruction::Load(LoadInstruction::LoadFromAddrnIntoA(n)),
            ),
            Self::spec_decode(0x08, n, nn) == Some(
                Instruction::Load(LoadInstruction::LoadSPIntoAddrnn(nn)),
            ),
            Self::spec_decode(0xF9, n, nn) == Some(
                Instruction::Load(LoadInstruction::LoadFromHLIntoSP),
            ),
            Self::spec_decode(0xF8, n, nn) == Some(
                Instruction::Load(LoadInstruction::LoadFromSPPlusnIntoHL(spec_signed(n))),
            ),
            Self::spec_decode(0xE8, n, nn) == Some(
                Instruction::Arithmetic(ArithmeticInstruction::AddSPImmediate(n)),
            ),
            Self::spec_decode(0x02, n, nn) == Some(
                Instruction::Load(LoadInstruction::LoadIntoAddrFromA(LongRegister::BC)),
            ),
            Self::spec_decode(0x12, n, nn) == Some(
                Instruction::Load(LoadInstruction::LoadIntoAddrFromA(LongRegister::DE)),
            ),
            Self::spec_decode(0x0A, n, nn) == Some(
                Instruction::Load(LoadInstruction::LoadIntoAFromAddr(LongRegister::BC)),
            ),
            Self::spec_decode(0x1A, n, nn) == Some(
                Instruction::Load(LoadInstruction::LoadIntoAFromAddr(LongRegister::DE)),
            ),
            Self::spec_decode(0x22, n, nn) == Some(
                Instruction::Load(LoadInstruction::LoadFromAIntoAddrHLInc),
            ),
            Self::spec_decode(0x2A, n, nn) == Some(
                Instruction::Load(LoadInstruction::LoadFromAddrHLIntoAInc),
            ),
            Self::spec_decode(0x32, n, nn) == Some(
                Instruction::Load(LoadInstruction::LoadFromAIntoAddrHLDec),
            ),
            Self::spec_decode(0x3A, n, nn) == Some(
                Instruction::Load(LoadInstruction::LoadFromAddrHLIntoADec),
            ),
            Self::spec_decode(0xC6, n, nn) == Some(
                Instruction::Arithmetic(ArithmeticInstruction::AddImmediate(n)),
            ),
            Self::spec_decode(0xCE, n, nn) == Some(
                Instruction::Arithmetic(ArithmeticInstruction::AddCarryImmediate(n)),
            ),
            Self::spec_decode(0xD6, n, nn) == Some(
                Instruction::Arithmetic(ArithmeticInstruction::SubImmediate(n)),
            ),
            Self::spec_decode(0xDE, n, nn) == Some(
                Instruction::Arithmetic(ArithmeticInstruction::SubCarryImmediate(n)),
            ),
            Self::spec_decode(0xE6, n, nn) == Some(
                Instruction::Arithmetic(ArithmeticInstruction::AndImmediate(n)),
            ),
            Self::spec_decode(0xEE, n, nn) == Some(
                Instruction::Arithmetic(ArithmeticInstruction::XorImmediate(n)),
            ),
            Self::spec_decode(0xF6, n, nn) == Some(
                Instruction::Arithmetic(ArithmeticInstruction::OrImmediate(n)),
            ),
            Self::spec_decode(0xFE, n, nn) == Some(
                Instruction::Arithmetic(ArithmeticInstruction::CmpImmediate(n)),
            ),
            Self::spec_decode(0x00, n, nn) == Some(Instruction::Misc(MiscInstruction::Nop)),
            Self::spec_decode(0x76, n, nn) == Some(Instruction::Misc(MiscInstruction::Halt)),
            Self::spec_decode(0x10, 0x00, nn) == Some(Instruction::Misc(MiscInstruction::Stop)),
            Self::spec_decode(0xF3, n, nn) == Some(
                Instruction::Misc(MiscInstruction::DisableInterrupt),
            ),
            Self::spec_decode(0xFB, n, nn) == Some(
                Instruction::Misc(MiscInstruction::EnableInterrupt),
            ),
            Self::spec_decode(0x27, n, nn) == Some(
                Instruction::Misc(MiscInstruction::DecimalAdjustA),
            ),
            Self::spec_decode(0x2F, n, nn) == Some(Instruction::Misc(MiscInstruction::ComplementA)),
            Self::spec_decode(0x3F, n, nn) == Some(
                Instruction::Misc(MiscInstruction::ComplementCarry),
            ),
            Self::spec_decode(0x37, n, nn) == Some(Instruction::Misc(MiscInstruction::SetCarry)),
            Self::spec_decode(0x07, n, nn) == Some(
                Instruction::RotateShift(RotateShiftInstruction::RotateLeftCarryA),
            ),
            Self::spec_decode(0x17, n, nn) == Some(
                Instruction::RotateShift(RotateShiftInstruction::RotateLeftA),
            ),
            Self::spec_decode(0x0F, n, nn) == Some(
                Instruction::RotateShift(RotateShiftInstruction::RotateRightCarryA),
            ),
            Self::spec_decode(0x1F, n, nn) == Some(
                Instruction::RotateShift(RotateShiftInstruction::RotateRightA),
            ),
    {
    }

    /// The opcode table of the prefixed page: the two high bits choose BIT,
    /// RES or SET, or else a rotation, a shift or SWAP by bits 5 to 3; the
    /// low three bits name the operand, and bits 5 to 3 the bit.
    #[verifier::rlimit(40)]
    pub proof fn lemma_prefixed_opcode_table(opcode: u8)
        ensures
            ({
                let decoded = Self::spec_decode_prefixed(opcode);
                let source = FetchRegister::spec_from(opcode & 0x07);
                let bit = TargetBit::spec_from((opcode >> 3) & 0x07);
                &&& opcode & 0xC0 == 0x40 ==> decoded == Some(
                    Instruction::Bit(
                        match source {
                            FetchRegister::Register(r) => BitInstruction::BitRegister(r, bit),
                            FetchRegister::AddrHL => BitInstruction::BitAddrHL(bit),
                        },
                    ),
                )
                &&& opcode & 0xC0 == 0x80 ==> decoded == Some(
                    Instruction::Bit(
                        match source {
                            FetchRegister::Register(r) => BitInstruction::ResRegister(r, bit),
                            FetchRegister::AddrHL => BitInstruction::ResAddrHL(bit),
                        },
                    ),
                )
                &&& opcode & 0xC0 == 0xC0 ==> decoded == Some(
                    Instruction::Bit(
                        match source {
                            FetchRegister::Register(r) => BitInstruction::SetRegister(r, bit),
                            FetchRegister::AddrHL => BitInstruction::SetAddrHL(bit),
                        },
                    ),
                )
                &&& opcode & 0xF8 == 0x00 ==> decoded == Some(
                    Instruction::RotateShift(
                        match source {
                            FetchRegister::Register(
                                r,
                            ) => RotateShiftInstruction::RotateLeftCarryRegister(r),
                            FetchRegister::AddrHL => RotateShiftInstruction::RotateLeftCarryAddrHL,
                        },
                    ),
                )
                &&& opcode & 0xF8 == 0x08 ==> decoded == Some(
                    Instruction::RotateShift(
                        match source {
                            FetchRegister::Register(
                                r,
                            ) => RotateShiftInstruction::RotateRightCarryRegister(r),
                            FetchRegister::AddrHL => RotateShiftInstruction::RotateRightCarryAddrHL,
                        },
                    ),
                )
                &&& opcode & 0xF8 == 0x10 ==> decoded == Some(
                    Instruction::RotateShift(
                        match source {
                            FetchRegister::Register(r) => RotateShiftInstruction::RotateLeftRegister(
                                r,
                            ),
                            FetchRegister::AddrHL => RotateShiftInstruction::RotateLeftAddrHL,
                        },
                    ),
                )
                &&& opcode & 0xF8 == 0x18 ==> decoded == Some(
                    Instruction::RotateShift(
                        match source {
                            FetchRegister::Register(
                                r,
                            ) => RotateShiftInstruction::RotateRightRegister(r),
                            FetchRegister::AddrHL => RotateShiftInstruction::RotateRightAddrHL,
                        },
                    ),
                )
                &&& opcode & 0xF8 == 0x20 ==> decoded == Some(
                    Instruction::RotateShift(
                        match source {
                            FetchRegister::Register(r) => RotateShiftInstruction::ShiftLeftRegister(
                                r,
                            ),
                            FetchRegister::AddrHL => RotateShiftInstruction::ShiftLeftAddrHL,
                        },
                    ),
                )
                &&& opcode & 0xF8 == 0x28 ==> decoded == Some(
                    Instruction::RotateShift(
                        match source {
                            FetchRegister::Register(
                                r,
                            ) => RotateShiftInstruction::ShiftRightRegisterSigned(r),
                            FetchRegister::AddrHL => RotateShiftInstruction::ShiftRightAddrHLSigned,
                        },
                    ),
                )
                &&& opcode & 0xF8 == 0x30 ==> decoded == Some(
                    Instruction::Misc(
                        match source {
                            FetchRegister::Register(r) => MiscInstruction::SwapRegister(r),
                            FetchRegister::AddrHL => MiscInstruction::SwapAddrHL,
                        },
                    ),
                )
                &&& opcode & 0xF8 == 0x38 ==> decoded == Some(
                    Instruction::RotateShift(
                        match source {
                            FetchRegister::Register(r) => RotateShiftInstruction::ShiftRightRegister(
                                r,
                            ),
                            FetchRegister::AddrHL => RotateShiftInstruction::ShiftRightAddrHL,
                        },
                    ),
                )
            }),
    {
        Self::lemma_opcode_fields(opcode);
    }

    /// The bit fields of an opcode in terms of division: what the masks
    /// and shifts of the opcode table select.
    pub proof fn lemma_opcode_fields(opcode: u8)
        by (bit_vector)
        ensures
            opcode & 0x07 == opcode % 8,
            (opcode >> 3) & 0x07 == (opcode / 8) % 8,
            (opcode >> 3) & 0x03 == (opcode / 8) % 4,
            (opcode >> 4) & 0x03 == (opcode / 16) % 4,
            opcode & 0xF8 == (opcode / 8) * 8,
            opcode & 0x38 == ((opcode / 8) % 8) * 8,
            opcode & 0xC0 == (opcode / 64) * 64,
            opcode & 0xC7 == (opcode / 64) * 64 + opcode % 8,
            opcode & 0xCF == (opcode / 64) * 64 + opcode % 16,
            opcode & 0xE7 == (opcode / 32) * 32 + opcode % 8,
    {
    }
}

} // verus!
