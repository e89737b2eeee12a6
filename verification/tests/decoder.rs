use lr35902::cpu::registers::{LongRegister, Register};
use lr35902::cpu::Cpu;
use lr35902::instructions::arithmetic::ArithmeticInstruction;
use lr35902::instructions::bit::{BitInstruction, TargetBit};
use lr35902::instructions::control_flow::{ControlFlowCondition, ControlFlowInstruction};
use lr35902::instructions::load::LoadInstruction;
use lr35902::instructions::miscellaneous::MiscInstruction;
use lr35902::instructions::rotate_shift::RotateShiftInstruction;
use lr35902::instructions::{pair_or_af, pair_or_sp, signed, unsigned, FetchRegister, Instruction};

fn decode(bytes: &[u8]) -> (Option<Instruction>, u16, u64) {
    let mut cpu = Cpu::default();
    let mut addr: u16 = 0x0100;
    for byte in bytes {
        cpu.load(addr, *byte);
        addr += 1;
    }
    cpu.set_pc(0x0100);
    let instruction = Instruction::fetch(&mut cpu);
    (instruction, cpu.get_pc() - 0x0100, cpu.cycles())
}

fn decoded(bytes: &[u8]) -> Instruction {
    let (instruction, length, cycles) = decode(bytes);
    assert_eq!(usize::from(length), bytes.len());
    if bytes == [0x10, 0x00] {
        assert_eq!(cycles, 4);
    } else {
        assert_eq!(cycles, 4 * u64::from(length));
    }
    match instruction {
        Some(instruction) => instruction,
        None => panic!("no instruction"),
    }
}

#[test]
fn display_instruction() {
    let mut cpu = Cpu::opcode_filled();
    for i in 0..=0xFF {
        let head = format!("{:#X} : ", cpu.current_byte());
        if i == 0xCB {
            cpu.advance();
            println!("{}PREFIX CB", head);
            continue;
        }
        let instruction = Instruction::fetch(&mut cpu);
        if let Some(inst) = instruction {
            println!("{}{:?}", head, inst,);
        } else {
            println!("{}Unknown", head);
        }
    }

    for _ in 0..=0xFF {
        let head = format!("CB {:#X} : ", cpu.get_relative(1));
        let instruction = Instruction::fetch(&mut cpu);
        if let Some(inst) = instruction {
            println!("{}{:?}", head, inst,);
        } else {
            println!("{}Unknown", head);
        }
    }

    let head = format!("0x10 0x00 : ");
    if let Some(inst) = Instruction::fetch(&mut cpu) {
        println!("{}{:?}", head, inst,);
    } else {
        println!("{}Unknown", head);
    }
}

#[test]
fn opcode_filled_layout() {
    let cpu = Cpu::opcode_filled();
    for opcode in 0..=0xFFu16 {
        assert_eq!(u16::from(cpu.peek(opcode)), opcode);
        assert_eq!(cpu.peek(0x0100 + 2 * opcode), 0xCB);
        assert_eq!(u16::from(cpu.peek(0x0100 + 2 * opcode + 1)), opcode);
    }
    assert_eq!(cpu.peek(0x0300), 0x10);
    assert_eq!(cpu.peek(0x0301), 0x00);
    assert_eq!(cpu.peek(0x0302), 0x00);
    assert_eq!(cpu.peek(0xFEA0), 0xFF);
    assert_eq!(cpu.get_pc(), 0);
    assert_eq!(cpu.cycles(), 0);
}

#[test]
fn register_fields() {
    assert_eq!(FetchRegister::from(0), FetchRegister::Register(Register::B));
    assert_eq!(FetchRegister::from(1), FetchRegister::Register(Register::C));
    assert_eq!(FetchRegister::from(2), FetchRegister::Register(Register::D));
    assert_eq!(FetchRegister::from(3), FetchRegister::Register(Register::E));
    assert_eq!(FetchRegister::from(4), FetchRegister::Register(Register::H));
    assert_eq!(FetchRegister::from(5), FetchRegister::Register(Register::L));
    assert_eq!(FetchRegister::from(6), FetchRegister::AddrHL);
    assert_eq!(FetchRegister::from(7), FetchRegister::Register(Register::A));
    assert_eq!(FetchRegister::from(0x47), FetchRegister::Register(Register::A));
    assert_eq!(pair_or_sp(0), LongRegister::BC);
    assert_eq!(pair_or_sp(1), LongRegister::DE);
    assert_eq!(pair_or_sp(2), LongRegister::HL);
    assert_eq!(pair_or_sp(3), LongRegister::SP);
    assert_eq!(pair_or_af(0), LongRegister::BC);
    assert_eq!(pair_or_af(1), LongRegister::DE);
    assert_eq!(pair_or_af(2), LongRegister::HL);
    assert_eq!(pair_or_af(3), LongRegister::AF);
    assert_eq!(ControlFlowCondition::from(0), ControlFlowCondition::NotZero);
    assert_eq!(ControlFlowCondition::from(1), ControlFlowCondition::Zero);
    assert_eq!(ControlFlowCondition::from(2), ControlFlowCondition::NoCarry);
    assert_eq!(ControlFlowCondition::from(3), ControlFlowCondition::Carry);
    assert_eq!(TargetBit::from(0), TargetBit::First);
    assert_eq!(TargetBit::from(7), TargetBit::Eighth);
    assert_eq!(TargetBit::from(9), TargetBit::Second);
}

#[test]
fn fetch_register_map() {
    let double = |reg: Register| if reg == Register::A { 1 } else { 2 };
    assert_eq!(FetchRegister::Register(Register::A).map(double, 0), 1);
    assert_eq!(FetchRegister::Register(Register::B).map(double, 0), 2);
    assert_eq!(FetchRegister::AddrHL.map(double, 0), 0);
}

#[test]
fn signed_bytes() {
    assert_eq!(signed(0x00), 0);
    assert_eq!(signed(0x7F), 127);
    assert_eq!(signed(0x80), -128);
    assert_eq!(signed(0xFE), -2);
    assert_eq!(signed(0xFF), -1);
    assert_eq!(unsigned(-1), 0xFF);
    assert_eq!(unsigned(-128), 0x80);
    assert_eq!(unsigned(5), 0x05);
    for byte in 0..=255u8 {
        assert_eq!(unsigned(signed(byte)), byte);
    }
}

#[test]
fn target_bit_masks() {
    assert_eq!(TargetBit::First.get_mask(), 0x01);
    assert_eq!(TargetBit::Second.get_mask(), 0x02);
    assert_eq!(TargetBit::Third.get_mask(), 0x04);
    assert_eq!(TargetBit::Fourth.get_mask(), 0x08);
    assert_eq!(TargetBit::Fifth.get_mask(), 0x10);
    assert_eq!(TargetBit::Sixth.get_mask(), 0x20);
    assert_eq!(TargetBit::Seventh.get_mask(), 0x40);
    assert_eq!(TargetBit::Eighth.get_mask(), 0x80);
}

#[test]
fn decode_loads() {
    assert_eq!(decoded(&[0x3E, 0x01]), Instruction::Load(LoadInstruction::LoadImmediate(Register::A, 0x01)));
    assert_eq!(decoded(&[0x06, 0x01]), Instruction::Load(LoadInstruction::LoadImmediate(Register::B, 0x01)));
    assert_eq!(decoded(&[0x2E, 0x99]), Instruction::Load(LoadInstruction::LoadImmediate(Register::L, 0x99)));
    assert_eq!(decoded(&[0x36, 0x42]), Instruction::Load(LoadInstruction::LoadIntoHLAddrn(0x42)));
    assert_eq!(decoded(&[0x47]), Instruction::Load(LoadInstruction::LoadRegister(Register::B, Register::A)));
    assert_eq!(decoded(&[0x78]), Instruction::Load(LoadInstruction::LoadRegister(Register::A, Register::B)));
    assert_eq!(decoded(&[0x40]), Instruction::Load(LoadInstruction::LoadRegister(Register::B, Register::B)));
    assert_eq!(decoded(&[0x6B]), Instruction::Load(LoadInstruction::LoadRegister(Register::L, Register::E)));
    assert_eq!(decoded(&[0x7E]), Instruction::Load(LoadInstruction::LoadFromHLAddr(Register::A)));
    assert_eq!(decoded(&[0x46]), Instruction::Load(LoadInstruction::LoadFromHLAddr(Register::B)));
    assert_eq!(decoded(&[0x70]), Instruction::Load(LoadInstruction::LoadIntoHLAddr(Register::B)));
    assert_eq!(decoded(&[0x77]), Instruction::Load(LoadInstruction::LoadIntoHLAddr(Register::A)));
    assert_eq!(decoded(&[0x0A]), Instruction::Load(LoadInstruction::LoadIntoAFromAddr(LongRegister::BC)));
    assert_eq!(decoded(&[0x1A]), Instruction::Load(LoadInstruction::LoadIntoAFromAddr(LongRegister::DE)));
    assert_eq!(decoded(&[0x02]), Instruction::Load(LoadInstruction::LoadIntoAddrFromA(LongRegister::BC)));
    assert_eq!(decoded(&[0x12]), Instruction::Load(LoadInstruction::LoadIntoAddrFromA(LongRegister::DE)));
    assert_eq!(decoded(&[0x22]), Instruction::Load(LoadInstruction::LoadFromAIntoAddrHLInc));
    assert_eq!(decoded(&[0x2A]), Instruction::Load(LoadInstruction::LoadFromAddrHLIntoAInc));
    assert_eq!(decoded(&[0x32]), Instruction::Load(LoadInstruction::LoadFromAIntoAddrHLDec));
    assert_eq!(decoded(&[0x3A]), Instruction::Load(LoadInstruction::LoadFromAddrHLIntoADec));
    assert_eq!(decoded(&[0xEA, 0x34, 0x12]), Instruction::Load(LoadInstruction::LoadIntoAddrnnFromA(0x1234)));
    assert_eq!(decoded(&[0xFA, 0x34, 0x12]), Instruction::Load(LoadInstruction::LoadIntoAFromAddrnn(0x1234)));
    assert_eq!(decoded(&[0xE2]), Instruction::Load(LoadInstruction::LoadIntoAddrCFromA));
    assert_eq!(decoded(&[0xF2]), Instruction::Load(LoadInstruction::LoadFromAddrCIntoA));
    assert_eq!(decoded(&[0xE0, 0x80]), Instruction::Load(LoadInstruction::LoadFromAIntoAddrn(0x80)));
    assert_eq!(decoded(&[0xF0, 0x44]), Instruction::Load(LoadInstruction::LoadFromAddrnIntoA(0x44)));
    assert_eq!(decoded(&[0x08, 0xCD, 0xAB]), Instruction::Load(LoadInstruction::LoadSPIntoAddrnn(0xABCD)));
    assert_eq!(decoded(&[0xF9]), Instruction::Load(LoadInstruction::LoadFromHLIntoSP));
    assert_eq!(decoded(&[0xF8, 0xFE]), Instruction::Load(LoadInstruction::LoadFromSPPlusnIntoHL(-2)));
    assert_eq!(decoded(&[0xF8, 0x05]), Instruction::Load(LoadInstruction::LoadFromSPPlusnIntoHL(5)));
    assert_eq!(
        decoded(&[0x01, 0x34, 0x12]),
        Instruction::Load(LoadInstruction::LoadImmediateLong(LongRegister::BC, 0x1234))
    );
    assert_eq!(
        decoded(&[0x11, 0x34, 0x12]),
        Instruction::Load(LoadInstruction::LoadImmediateLong(LongRegister::DE, 0x1234))
    );
    assert_eq!(
        decoded(&[0x21, 0x34, 0x12]),
        Instruction::Load(LoadInstruction::LoadImmediateLong(LongRegister::HL, 0x1234))
    );
    assert_eq!(
        decoded(&[0x31, 0xFE, 0xFF]),
        Instruction::Load(LoadInstruction::LoadImmediateLong(LongRegister::SP, 0xFFFE))
    );
    assert_eq!(decoded(&[0xC5]), Instruction::Load(LoadInstruction::Push(LongRegister::BC)));
    assert_eq!(decoded(&[0xD5]), Instruction::Load(LoadInstruction::Push(LongRegister::DE)));
    assert_eq!(decoded(&[0xE5]), Instruction::Load(LoadInstruction::Push(LongRegister::HL)));
    assert_eq!(decoded(&[0xF5]), Instruction::Load(LoadInstruction::Push(LongRegister::AF)));
    assert_eq!(decoded(&[0xC1]), Instruction::Load(LoadInstruction::Pop(LongRegister::BC)));
    assert_eq!(decoded(&[0xD1]), Instruction::Load(LoadInstruction::Pop(LongRegister::DE)));
    assert_eq!(decoded(&[0xE1]), Instruction::Load(LoadInstruction::Pop(LongRegister::HL)));
    assert_eq!(decoded(&[0xF1]), Instruction::Load(LoadInstruction::Pop(LongRegister::AF)));
}

#[test]
fn decode_arithmetic() {
    assert_eq!(decoded(&[0x80]), Instruction::Arithmetic(ArithmeticInstruction::AddRegister(Register::B)));
    assert_eq!(decoded(&[0x87]), Instruction::Arithmetic(ArithmeticInstruction::AddRegister(Register::A)));
    assert_eq!(decoded(&[0x86]), Instruction::Arithmetic(ArithmeticInstruction::AddAddrHL));
    assert_eq!(decoded(&[0x88]), Instruction::Arithmetic(ArithmeticInstruction::AddCarryRegister(Register::B)));
    assert_eq!(decoded(&[0x8E]), Instruction::Arithmetic(ArithmeticInstruction::AddCarryAddrHL));
    assert_eq!(decoded(&[0x91]), Instruction::Arithmetic(ArithmeticInstruction::SubRegister(Register::C)));
    assert_eq!(decoded(&[0x96]), Instruction::Arithmetic(ArithmeticInstruction::SubAddrHL));
    assert_eq!(decoded(&[0x9A]), Instruction::Arithmetic(ArithmeticInstruction::SubCarryRegister(Register::D)));
    assert_eq!(decoded(&[0x9E]), Instruction::Arithmetic(ArithmeticInstruction::SubCarryAddrHL));
    assert_eq!(decoded(&[0xA3]), Instruction::Arithmetic(ArithmeticInstruction::AndRegister(Register::E)));
    assert_eq!(decoded(&[0xA6]), Instruction::Arithmetic(ArithmeticInstruction::AndAddrHL));
    assert_eq!(decoded(&[0xAC]), Instruction::Arithmetic(ArithmeticInstruction::XorRegister(Register::H)));
    assert_eq!(decoded(&[0xAF]), Instruction::Arithmetic(ArithmeticInstruction::XorRegister(Register::A)));
    assert_eq!(decoded(&[0xAE]), Instruction::Arithmetic(ArithmeticInstruction::XorAddrHL));
    assert_eq!(decoded(&[0xB5]), Instruction::Arithmetic(ArithmeticInstruction::OrRegister(Register::L)));
    assert_eq!(decoded(&[0xB6]), Instruction::Arithmetic(ArithmeticInstruction::OrAddrHL));
    assert_eq!(decoded(&[0xB8]), Instruction::Arithmetic(ArithmeticInstruction::CmpRegister(Register::B)));
    assert_eq!(decoded(&[0xBE]), Instruction::Arithmetic(ArithmeticInstruction::CmpAddrHL));
    assert_eq!(decoded(&[0xC6, 0x12]), Instruction::Arithmetic(ArithmeticInstruction::AddImmediate(0x12)));
    assert_eq!(decoded(&[0xCE, 0x12]), Instruction::Arithmetic(ArithmeticInstruction::AddCarryImmediate(0x12)));
    assert_eq!(decoded(&[0xD6, 0x12]), Instruction::Arithmetic(ArithmeticInstruction::SubImmediate(0x12)));
    assert_eq!(decoded(&[0xDE, 0x12]), Instruction::Arithmetic(ArithmeticInstruction::SubCarryImmediate(0x12)));
    assert_eq!(decoded(&[0xE6, 0x12]), Instruction::Arithmetic(ArithmeticInstruction::AndImmediate(0x12)));
    assert_eq!(decoded(&[0xEE, 0x12]), Instruction::Arithmetic(ArithmeticInstruction::XorImmediate(0x12)));
    assert_eq!(decoded(&[0xF6, 0x12]), Instruction::Arithmetic(ArithmeticInstruction::OrImmediate(0x12)));
    assert_eq!(decoded(&[0xFE, 0x12]), Instruction::Arithmetic(ArithmeticInstruction::CmpImmediate(0x12)));
    assert_eq!(decoded(&[0xE8, 0xFE]), Instruction::Arithmetic(ArithmeticInstruction::AddSPImmediate(0xFE)));
    assert_eq!(decoded(&[0x04]), Instruction::Arithmetic(ArithmeticInstruction::IncRegister(Register::B)));
    assert_eq!(decoded(&[0x3C]), Instruction::Arithmetic(ArithmeticInstruction::IncRegister(Register::A)));
    assert_eq!(decoded(&[0x34]), Instruction::Arithmetic(ArithmeticInstruction::IncAddrHL));
    assert_eq!(decoded(&[0x05]), Instruction::Arithmetic(ArithmeticInstruction::DecRegister(Register::B)));
    assert_eq!(decoded(&[0x2D]), Instruction::Arithmetic(ArithmeticInstruction::DecRegister(Register::L)));
    assert_eq!(decoded(&[0x35]), Instruction::Arithmetic(ArithmeticInstruction::DecAddrHL));
    assert_eq!(decoded(&[0x03]), Instruction::Arithmetic(ArithmeticInstruction::IncLongRegister(LongRegister::BC)));
    assert_eq!(decoded(&[0x13]), Instruction::Arithmetic(ArithmeticInstruction::IncLongRegister(LongRegister::DE)));
    assert_eq!(decoded(&[0x23]), Instruction::Arithmetic(ArithmeticInstruction::IncLongRegister(LongRegister::HL)));
    assert_eq!(decoded(&[0x33]), Instruction::Arithmetic(ArithmeticInstruction::IncLongRegister(LongRegister::SP)));
    assert_eq!(decoded(&[0x0B]), Instruction::Arithmetic(ArithmeticInstruction::DecLongRegister(LongRegister::BC)));
    assert_eq!(decoded(&[0x3B]), Instruction::Arithmetic(ArithmeticInstruction::DecLongRegister(LongRegister::SP)));
    assert_eq!(decoded(&[0x09]), Instruction::Arithmetic(ArithmeticInstruction::AddHL(LongRegister::BC)));
    assert_eq!(decoded(&[0x19]), Instruction::Arithmetic(ArithmeticInstruction::AddHL(LongRegister::DE)));
    assert_eq!(decoded(&[0x29]), Instruction::Arithmetic(ArithmeticInstruction::AddHL(LongRegister::HL)));
    assert_eq!(decoded(&[0x39]), Instruction::Arithmetic(ArithmeticInstruction::AddHL(LongRegister::SP)));
}

#[test]
fn decode_control_flow() {
    assert_eq!(decoded(&[0xC3, 0x06, 0x01]), Instruction::ControlFlow(ControlFlowInstruction::JumpImmediate(0x0106)));
    assert_eq!(
        decoded(&[0xC2, 0x06, 0x01]),
        Instruction::ControlFlow(ControlFlowInstruction::JumpImmediateCondition(ControlFlowCondition::NotZero, 0x0106))
    );
    assert_eq!(
        decoded(&[0xCA, 0x06, 0x01]),
        Instruction::ControlFlow(ControlFlowInstruction::JumpImmediateCondition(ControlFlowCondition::Zero, 0x0106))
    );
    assert_eq!(
        decoded(&[0xD2, 0x06, 0x01]),
        Instruction::ControlFlow(ControlFlowInstruction::JumpImmediateCondition(ControlFlowCondition::NoCarry, 0x0106))
    );
    assert_eq!(
        decoded(&[0xDA, 0x06, 0x01]),
        Instruction::ControlFlow(ControlFlowInstruction::JumpImmediateCondition(ControlFlowCondition::Carry, 0x0106))
    );
    assert_eq!(decoded(&[0xE9]), Instruction::ControlFlow(ControlFlowInstruction::JumpAddrHL));
    assert_eq!(decoded(&[0x18, 0xFE]), Instruction::ControlFlow(ControlFlowInstruction::JumpImmediateRelative(-2)));
    assert_eq!(
        decoded(&[0x20, 0x05]),
        Instruction::ControlFlow(ControlFlowInstruction::JumpRelativeCondition(ControlFlowCondition::NotZero, 5))
    );
    assert_eq!(decoded(&[0x28, 0x05]), Instruction::ControlFlow(ControlFlowInstruction::JumpRelativeCondition(ControlFlowCondition::Zero, 5)));
    assert_eq!(
        decoded(&[0x30, 0x80]),
        Instruction::ControlFlow(ControlFlowInstruction::JumpRelativeCondition(ControlFlowCondition::NoCarry, -128))
    );
    assert_eq!(
        decoded(&[0x38, 0x7F]),
        Instruction::ControlFlow(ControlFlowInstruction::JumpRelativeCondition(ControlFlowCondition::Carry, 127))
    );
    assert_eq!(decoded(&[0xCD, 0x34, 0x12]), Instruction::ControlFlow(ControlFlowInstruction::CallImmediate(0x1234)));
    assert_eq!(
        decoded(&[0xC4, 0x34, 0x12]),
        Instruction::ControlFlow(ControlFlowInstruction::CallImmediateCondition(ControlFlowCondition::NotZero, 0x1234))
    );
    assert_eq!(
        decoded(&[0xCC, 0x34, 0x12]),
        Instruction::ControlFlow(ControlFlowInstruction::CallImmediateCondition(ControlFlowCondition::Zero, 0x1234))
    );
    assert_eq!(
        decoded(&[0xD4, 0x34, 0x12]),
        Instruction::ControlFlow(ControlFlowInstruction::CallImmediateCondition(ControlFlowCondition::NoCarry, 0x1234))
    );
    assert_eq!(
        decoded(&[0xDC, 0x34, 0x12]),
        Instruction::ControlFlow(ControlFlowInstruction::CallImmediateCondition(ControlFlowCondition::Carry, 0x1234))
    );
    assert_eq!(decoded(&[0xC7]), Instruction::ControlFlow(ControlFlowInstruction::Reset(0x00)));
    assert_eq!(decoded(&[0xCF]), Instruction::ControlFlow(ControlFlowInstruction::Reset(0x08)));
    assert_eq!(decoded(&[0xD7]), Instruction::ControlFlow(ControlFlowInstruction::Reset(0x10)));
    assert_eq!(decoded(&[0xDF]), Instruction::ControlFlow(ControlFlowInstruction::Reset(0x18)));
    assert_eq!(decoded(&[0xE7]), Instruction::ControlFlow(ControlFlowInstruction::Reset(0x20)));
    assert_eq!(decoded(&[0xEF]), Instruction::ControlFlow(ControlFlowInstruction::Reset(0x28)));
    assert_eq!(decoded(&[0xF7]), Instruction::ControlFlow(ControlFlowInstruction::Reset(0x30)));
    assert_eq!(decoded(&[0xFF]), Instruction::ControlFlow(ControlFlowInstruction::Reset(0x38)));
    assert_eq!(decoded(&[0xC9]), Instruction::ControlFlow(ControlFlowInstruction::Return));
    assert_eq!(decoded(&[0xC0]), Instruction::ControlFlow(ControlFlowInstruction::ReturnCondition(ControlFlowCondition::NotZero)));
    assert_eq!(decoded(&[0xC8]), Instruction::ControlFlow(ControlFlowInstruction::ReturnCondition(ControlFlowCondition::Zero)));
    assert_eq!(decoded(&[0xD0]), Instruction::ControlFlow(ControlFlowInstruction::ReturnCondition(ControlFlowCondition::NoCarry)));
    assert_eq!(decoded(&[0xD8]), Instruction::ControlFlow(ControlFlowInstruction::ReturnCondition(ControlFlowCondition::Carry)));
    assert_eq!(decoded(&[0xD9]), Instruction::ControlFlow(ControlFlowInstruction::ReturnEnableInterrupt));
}

#[test]
fn decode_misc_and_rotates() {
    assert_eq!(decoded(&[0x00]), Instruction::Misc(MiscInstruction::Nop));
    assert_eq!(decoded(&[0x76]), Instruction::Misc(MiscInstruction::Halt));
    assert_eq!(decoded(&[0x10, 0x00]), Instruction::Misc(MiscInstruction::Stop));
    assert_eq!(decoded(&[0xF3]), Instruction::Misc(MiscInstruction::DisableInterrupt));
    assert_eq!(decoded(&[0xFB]), Instruction::Misc(MiscInstruction::EnableInterrupt));
    assert_eq!(decoded(&[0x27]), Instruction::Misc(MiscInstruction::DecimalAdjustA));
    assert_eq!(decoded(&[0x2F]), Instruction::Misc(MiscInstruction::ComplementA));
    assert_eq!(decoded(&[0x3F]), Instruction::Misc(MiscInstruction::ComplementCarry));
    assert_eq!(decoded(&[0x37]), Instruction::Misc(MiscInstruction::SetCarry));
    assert_eq!(decoded(&[0x07]), Instruction::RotateShift(RotateShiftInstruction::RotateLeftCarryA));
    assert_eq!(decoded(&[0x17]), Instruction::RotateShift(RotateShiftInstruction::RotateLeftA));
    assert_eq!(decoded(&[0x0F]), Instruction::RotateShift(RotateShiftInstruction::RotateRightCarryA));
    assert_eq!(decoded(&[0x1F]), Instruction::RotateShift(RotateShiftInstruction::RotateRightA));
}

#[test]
fn decode_prefixed_page() {
    assert_eq!(
        decoded(&[0xCB, 0x00]),
        Instruction::RotateShift(RotateShiftInstruction::RotateLeftCarryRegister(Register::B))
    );
    assert_eq!(decoded(&[0xCB, 0x06]), Instruction::RotateShift(RotateShiftInstruction::RotateLeftCarryAddrHL));
    assert_eq!(
        decoded(&[0xCB, 0x09]),
        Instruction::RotateShift(RotateShiftInstruction::RotateRightCarryRegister(Register::C))
    );
    assert_eq!(decoded(&[0xCB, 0x0E]), Instruction::RotateShift(RotateShiftInstruction::RotateRightCarryAddrHL));
    assert_eq!(decoded(&[0xCB, 0x12]), Instruction::RotateShift(RotateShiftInstruction::RotateLeftRegister(Register::D)));
    assert_eq!(decoded(&[0xCB, 0x16]), Instruction::RotateShift(RotateShiftInstruction::RotateLeftAddrHL));
    assert_eq!(decoded(&[0xCB, 0x1B]), Instruction::RotateShift(RotateShiftInstruction::RotateRightRegister(Register::E)));
    assert_eq!(decoded(&[0xCB, 0x1E]), Instruction::RotateShift(RotateShiftInstruction::RotateRightAddrHL));
    assert_eq!(decoded(&[0xCB, 0x24]), Instruction::RotateShift(RotateShiftInstruction::ShiftLeftRegister(Register::H)));
    assert_eq!(decoded(&[0xCB, 0x26]), Instruction::RotateShift(RotateShiftInstruction::ShiftLeftAddrHL));
    assert_eq!(
        decoded(&[0xCB, 0x2D]),
        Instruction::RotateShift(RotateShiftInstruction::ShiftRightRegisterSigned(Register::L))
    );
    assert_eq!(decoded(&[0xCB, 0x2E]), Instruction::RotateShift(RotateShiftInstruction::ShiftRightAddrHLSigned));
    assert_eq!(decoded(&[0xCB, 0x37]), Instruction::Misc(MiscInstruction::SwapRegister(Register::A)));
    assert_eq!(decoded(&[0xCB, 0x36]), Instruction::Misc(MiscInstruction::SwapAddrHL));
    assert_eq!(decoded(&[0xCB, 0x3F]), Instruction::RotateShift(RotateShiftInstruction::ShiftRightRegister(Register::A)));
    assert_eq!(decoded(&[0xCB, 0x3E]), Instruction::RotateShift(RotateShiftInstruction::ShiftRightAddrHL));
    assert_eq!(
        decoded(&[0xCB, 0x40]),
        Instruction::Bit(BitInstruction::BitRegister(Register::B, TargetBit::First))
    );
    assert_eq!(
        decoded(&[0xCB, 0x7F]),
        Instruction::Bit(BitInstruction::BitRegister(Register::A, TargetBit::Eighth))
    );
    assert_eq!(decoded(&[0xCB, 0x5E]), Instruction::Bit(BitInstruction::BitAddrHL(TargetBit::Fourth)));
    assert_eq!(
        decoded(&[0xCB, 0x80]),
        Instruction::Bit(BitInstruction::ResRegister(Register::B, TargetBit::First))
    );
    assert_eq!(
        decoded(&[0xCB, 0xAF]),
        Instruction::Bit(BitInstruction::ResRegister(Register::A, TargetBit::Sixth))
    );
    assert_eq!(decoded(&[0xCB, 0xBE]), Instruction::Bit(BitInstruction::ResAddrHL(TargetBit::Eighth)));
    assert_eq!(
        decoded(&[0xCB, 0xC1]),
        Instruction::Bit(BitInstruction::SetRegister(Register::C, TargetBit::First))
    );
    assert_eq!(
        decoded(&[0xCB, 0xFF]),
        Instruction::Bit(BitInstruction::SetRegister(Register::A, TargetBit::Eighth))
    );
    assert_eq!(decoded(&[0xCB, 0xD6]), Instruction::Bit(BitInstruction::SetAddrHL(TargetBit::Third)));
}

#[test]
fn every_prefixed_opcode_is_an_instruction() {
    for opcode in 0..=255u8 {
        let instruction = decoded(&[0xCB, opcode]);
        let family_matches = match instruction {
            Instruction::Bit(_) => opcode >= 0x40,
            Instruction::Misc(_) => opcode & 0xF8 == 0x30,
            Instruction::RotateShift(_) => opcode < 0x40 && opcode & 0xF8 != 0x30,
            _ => false,
        };
        assert!(family_matches);
    }
}

#[test]
fn illegal_opcodes_are_no_instruction() {
    let illegal: [u8; 11] = [0xD3, 0xDB, 0xDD, 0xE3, 0xE4, 0xEB, 0xEC, 0xED, 0xF4, 0xFC, 0xFD];
    for opcode in 0..=255u8 {
        if opcode == 0xCB {
            continue;
        }
        let (instruction, length, cycles) = decode(&[opcode, 0x00, 0x00]);
        if illegal.contains(&opcode) {
            assert_eq!(instruction, None);
            assert_eq!(length, 1);
            assert_eq!(cycles, 4);
        } else {
            assert!(instruction.is_some());
        }
    }
}

#[test]
fn stop_needs_a_zero_byte() {
    let (instruction, length, cycles) = decode(&[0x10, 0x01]);
    assert_eq!(instruction, None);
    assert_eq!(length, 2);
    assert_eq!(cycles, 4);
    let (instruction, length, cycles) = decode(&[0x10, 0xFF]);
    assert_eq!(instruction, None);
    assert_eq!(length, 2);
    assert_eq!(cycles, 4);
    let (instruction, length, cycles) = decode(&[0x10, 0x00]);
    assert_eq!(instruction, Some(Instruction::Misc(MiscInstruction::Stop)));
    assert_eq!(length, 2);
    assert_eq!(cycles, 4);
}

#[test]
fn misc_fetch_moves_pc_only_for_stop_opcode() {
    for opcode in 0..=255u8 {
        for second in [0x00u8, 0x01, 0x80] {
            let mut cpu = Cpu::default();
            cpu.load(0x0100, second);
            cpu.set_pc(0x0100);
            let instruction = MiscInstruction::fetch(&mut cpu, opcode);
            let moved: u16 = if opcode == 0x10 { 1 } else { 0 };
            assert_eq!(cpu.get_pc(), 0x0100 + moved);
            assert_eq!(cpu.cycles(), 0);
            let known = [0x00u8, 0x27, 0x2F, 0x37, 0x3F, 0x76, 0xF3, 0xFB].contains(&opcode)
                || (opcode == 0x10 && second == 0x00);
            assert_eq!(instruction.is_some(), known);
        }
    }
    let mut cpu = Cpu::default();
    cpu.set_pc(0x0100);
    assert_eq!(MiscInstruction::fetch(&mut cpu, 0x10), Some(MiscInstruction::Stop));
    assert_eq!(MiscInstruction::fetch(&mut cpu, 0x00), Some(MiscInstruction::Nop));
    assert_eq!(MiscInstruction::fetch(&mut cpu, 0x27), Some(MiscInstruction::DecimalAdjustA));
    assert_eq!(MiscInstruction::fetch(&mut cpu, 0x2F), Some(MiscInstruction::ComplementA));
    assert_eq!(MiscInstruction::fetch(&mut cpu, 0x37), Some(MiscInstruction::SetCarry));
    assert_eq!(MiscInstruction::fetch(&mut cpu, 0x3F), Some(MiscInstruction::ComplementCarry));
    assert_eq!(MiscInstruction::fetch(&mut cpu, 0x76), Some(MiscInstruction::Halt));
    assert_eq!(MiscInstruction::fetch(&mut cpu, 0xF3), Some(MiscInstruction::DisableInterrupt));
    assert_eq!(MiscInstruction::fetch(&mut cpu, 0xFB), Some(MiscInstruction::EnableInterrupt));
}

#[test]
fn fetch_wraps_at_the_end_of_memory() {
    let mut cpu = Cpu::default();
    cpu.put_memory(0xFFFF, 0xC3);
    cpu.load(0x0000, 0x06);
    cpu.load(0x0001, 0x01);
    cpu.set_pc(0xFFFF);
    let before = cpu.cycles();
    let instruction = Instruction::fetch(&mut cpu);
    assert_eq!(
        instruction,
        Some(Instruction::ControlFlow(ControlFlowInstruction::JumpImmediate(0x0106)))
    );
    assert_eq!(cpu.get_pc(), 0x0002);
    assert_eq!(cpu.cycles() - before, 12);
}
