use lr35902::cpu::registers::{Flags, LongRegister, Register, SetFlags};
use lr35902::cpu::{Cpu, Interrupt, Mode};
use lr35902::instructions::control_flow::{ControlFlowCondition, ControlFlowInstruction};
use lr35902::instructions::miscellaneous::MiscInstruction;
use lr35902::instructions::Instruction;

fn flags(zero: bool, substract: bool, half_carry: bool, carry: bool) -> SetFlags {
    SetFlags { zero, substract, half_carry, carry }
}

fn cpu_with_program(at: u16, bytes: &[u8]) -> Cpu {
    let mut cpu = Cpu::default();
    let mut addr: u16 = at;
    for byte in bytes {
        cpu.load(addr, *byte);
        addr = addr.wrapping_add(1);
    }
    cpu.set_pc(at);
    cpu
}

fn cycles_of(bytes: &[u8], flags: SetFlags) -> u64 {
    let mut cpu = cpu_with_program(0x0100, bytes);
    cpu.put_long_reg(LongRegister::SP, 0xD000);
    cpu.put_long_reg(LongRegister::HL, 0xC000);
    cpu.set_flags(flags);
    let before: u64 = cpu.cycles();
    let elapsed: u64 = cpu.step();
    assert_eq!(cpu.cycles() - before, elapsed);
    elapsed
}

#[test]
fn fresh_processor() {
    let cpu = Cpu::default();
    assert_eq!(cpu.get_pc(), 0);
    assert_eq!(cpu.get_long_reg(LongRegister::SP), 0);
    assert_eq!(cpu.get_long_reg(LongRegister::AF), 0);
    assert_eq!(cpu.cycles(), 0);
    assert_eq!(cpu.mode(), Mode::Running);
    assert!(!cpu.interrupts_enabled());
    assert!(!cpu.interrupts_pending_enable());
    assert!(!cpu.interrupt_pending());
    assert_eq!(cpu.peek(0xC000), 0);
    assert_eq!(cpu.peek(0xFEA0), 0xFF);
}

#[test]
fn bus_transactions_take_four_cycles() {
    let mut cpu = Cpu::default();
    cpu.put_memory(0xC000, 0x12);
    assert_eq!(cpu.cycles(), 4);
    assert_eq!(cpu.get_memory(0xC000), 0x12);
    assert_eq!(cpu.cycles(), 8);
    cpu.put_long_at(0xC010, 0xBEEF);
    assert_eq!(cpu.cycles(), 16);
    assert_eq!(cpu.peek(0xC010), 0xEF);
    assert_eq!(cpu.peek(0xC011), 0xBE);
    assert_eq!(cpu.get_long_at(0xC010), 0xBEEF);
    assert_eq!(cpu.cycles(), 24);
    cpu.cycle();
    assert_eq!(cpu.cycles(), 28);
    cpu.put_long_reg(LongRegister::HL, 0xC000);
    assert_eq!(cpu.get_at_hl(), 0x12);
    cpu.put_at_hl(0x13);
    assert_eq!(cpu.cycles(), 36);
    assert_eq!(cpu.peek(0xC000), 0x13);
    assert_eq!(cpu.cycles(), 36);
}

#[test]
fn program_counter_moves() {
    let mut cpu = cpu_with_program(0x0100, &[0x11, 0x22, 0x33, 0x44]);
    assert_eq!(cpu.current_byte(), 0x11);
    assert_eq!(cpu.get_pc(), 0x0100);
    assert_eq!(cpu.advance(), 0x11);
    assert_eq!(cpu.get_pc(), 0x0101);
    assert_eq!(cpu.get_relative(1), 0x33);
    assert_eq!(cpu.get_next_long(), 0x4433);
    assert_eq!(cpu.advance_long(), 0x3322);
    assert_eq!(cpu.get_pc(), 0x0103);
    assert_eq!(cpu.cycles(), 4 + 4 + 4 + 8 + 8);
    cpu.advance_by(0xFFFF);
    assert_eq!(cpu.get_pc(), 0x0102);
    cpu.move_by(-0x0103);
    assert_eq!(cpu.get_pc(), 0xFFFF);
    cpu.move_by(1);
    assert_eq!(cpu.get_pc(), 0x0000);
    *cpu.get_pc_mut() = 0x1234;
    assert_eq!(cpu.get_pc(), 0x1234);
    cpu.set_pc(0xFFFF);
    cpu.advance_by(1);
    assert_eq!(cpu.get_pc(), 0x0000);
}

#[test]
fn registers_through_the_processor() {
    let mut cpu = Cpu::default();
    cpu.put_reg(Register::H, 0x12);
    *cpu.get_reg_mut(Register::L) = 0x34;
    assert_eq!(cpu.get_long_reg(LongRegister::HL), 0x1234);
    *cpu.get_long_reg_mut(LongRegister::SP) = 0xFFFE;
    assert_eq!(cpu.get_long_reg(LongRegister::SP), 0xFFFE);
    cpu.put_reg(Register::F, 0xFF);
    assert_eq!(cpu.get_reg(Register::F), 0xF0);
    assert!(cpu.get_flag(Flags::Zero));
    cpu.reset_flag(Flags::Zero);
    cpu.set_flag_to(Flags::Carry, false);
    assert_eq!(cpu.get_reg(Register::F), 0x60);
    cpu.set_flag(Flags::Zero);
    assert_eq!(cpu.get_flags(), flags(true, true, true, false));
    assert_eq!(cpu.cycles(), 0);
}

#[test]
fn stack_operations() {
    let mut cpu = Cpu::default();
    cpu.put_long_reg(LongRegister::SP, 0xFFFE);
    cpu.push_stack(0x1234);
    assert_eq!(cpu.get_long_reg(LongRegister::SP), 0xFFFC);
    assert_eq!(cpu.peek(0xFFFC), 0x34);
    assert_eq!(cpu.peek(0xFFFD), 0x12);
    assert_eq!(cpu.cycles(), 8);
    assert_eq!(cpu.pop_stack(), 0x1234);
    assert_eq!(cpu.get_long_reg(LongRegister::SP), 0xFFFE);
    assert_eq!(cpu.cycles(), 16);
    cpu.put_long_reg(LongRegister::SP, 0x0000);
    cpu.push_stack(0xABCD);
    assert_eq!(cpu.get_long_reg(LongRegister::SP), 0xFFFE);
    assert_eq!(cpu.peek(0xFFFF), 0xAB);
    assert_eq!(cpu.peek(0xFFFE), 0xCD);
    assert_eq!(cpu.pop_stack(), 0xABCD);
    assert_eq!(cpu.get_long_reg(LongRegister::SP), 0x0000);
}

#[test]
fn fibonacci_fragment() {
    let mut cpu =
        cpu_with_program(0x0100, &[0x3E, 0x01, 0x06, 0x01, 0x80, 0x47, 0x78, 0xC3, 0x06, 0x01]);
    for _ in 0..6 {
        cpu.step();
    }
    assert_eq!(cpu.get_reg_a(), 2);
    assert_eq!(cpu.get_reg(Register::B), 2);
    assert_eq!(cpu.get_pc(), 0x0106);
    assert_eq!(cpu.cycles(), 8 + 8 + 4 + 4 + 4 + 16);
}

#[test]
fn stack_round_trip() {
    let mut cpu = cpu_with_program(0x0100, &[0xC5, 0xC1]);
    cpu.put_long_reg(LongRegister::SP, 0xFFFE);
    cpu.put_long_reg(LongRegister::BC, 0x1234);
    let pushed: u64 = cpu.step();
    assert_eq!(pushed, 16);
    cpu.put_long_reg(LongRegister::BC, 0x0000);
    let popped: u64 = cpu.step();
    assert_eq!(popped, 12);
    assert_eq!(cpu.get_long_reg(LongRegister::SP), 0xFFFE);
    assert_eq!(cpu.get_long_reg(LongRegister::BC), 0x1234);
    assert_eq!(cpu.peek(0xFFFC), 0x34);
    assert_eq!(cpu.peek(0xFFFD), 0x12);
    assert_eq!(cpu.cycles(), 28);
}

#[test]
fn half_carry_in_add() {
    let mut cpu = cpu_with_program(0x0100, &[0x80]);
    cpu.put_reg_a(0x3A);
    cpu.put_reg(Register::B, 0xC6);
    assert_eq!(cpu.step(), 4);
    assert_eq!(cpu.get_reg_a(), 0x00);
    assert_eq!(cpu.get_flags(), flags(true, false, true, true));
}

#[test]
fn conditional_jr_not_taken() {
    let mut cpu = cpu_with_program(0x0200, &[0x28, 0x05]);
    cpu.put_reg(Register::F, 0x00);
    assert_eq!(cpu.step(), 8);
    assert_eq!(cpu.get_pc(), 0x0202);
    assert_eq!(cpu.cycles(), 8);
}

#[test]
fn conditional_jr_taken() {
    let mut cpu = cpu_with_program(0x0200, &[0x28, 0x05]);
    cpu.put_reg(Register::F, 0x80);
    assert_eq!(cpu.step(), 12);
    assert_eq!(cpu.get_pc(), 0x0207);
    assert_eq!(cpu.cycles(), 12);
}

#[test]
fn echo_ram_mirror_through_the_processor() {
    let mut cpu = Cpu::default();
    cpu.put_memory(0xC100, 0xAB);
    assert_eq!(cpu.get_memory(0xE100), 0xAB);
    cpu.put_memory(0xE200, 0xCD);
    assert_eq!(cpu.get_memory(0xC200), 0xCD);
    assert_eq!(cpu.get_memory(0xFEA0), 0xFF);
}

#[test]
fn jr_to_itself_loops() {
    let mut cpu = cpu_with_program(0x1000, &[0x18, 0xFE]);
    for _ in 0..3 {
        assert_eq!(cpu.step(), 12);
        assert_eq!(cpu.get_pc(), 0x1000);
    }
}

#[test]
fn inc_and_dec_at_the_boundaries() {
    let mut cpu = cpu_with_program(0x0100, &[0x3C, 0x3D]);
    cpu.put_reg_a(0xFF);
    cpu.set_flag(Flags::Carry);
    cpu.step();
    assert_eq!(cpu.get_reg_a(), 0x00);
    assert_eq!(cpu.get_flags(), flags(true, false, true, true));
    cpu.reset_flag(Flags::Carry);
    cpu.step();
    assert_eq!(cpu.get_reg_a(), 0xFF);
    assert_eq!(cpu.get_flags(), flags(false, true, true, false));
}

#[test]
fn add_at_the_boundaries() {
    let mut cpu = cpu_with_program(0x0100, &[0xC6, 0x01, 0xC6, 0x01]);
    cpu.put_reg_a(0x0F);
    cpu.step();
    assert_eq!(cpu.get_reg_a(), 0x10);
    assert_eq!(cpu.get_flags(), flags(false, false, true, false));
    cpu.put_reg_a(0xFF);
    cpu.step();
    assert_eq!(cpu.get_reg_a(), 0x00);
    assert_eq!(cpu.get_flags(), flags(true, false, true, true));
}

#[test]
fn cycles_of_loads() {
    let none = SetFlags::default();
    assert_eq!(cycles_of(&[0x06, 0x12], none), 8);
    assert_eq!(cycles_of(&[0x41], none), 4);
    assert_eq!(cycles_of(&[0x46], none), 8);
    assert_eq!(cycles_of(&[0x70], none), 8);
    assert_eq!(cycles_of(&[0x36, 0x12], none), 12);
    assert_eq!(cycles_of(&[0x0A], none), 8);
    assert_eq!(cycles_of(&[0x12], none), 8);
    assert_eq!(cycles_of(&[0xFA, 0x00, 0xC0], none), 16);
    assert_eq!(cycles_of(&[0xEA, 0x00, 0xC0], none), 16);
    assert_eq!(cycles_of(&[0xF2], none), 8);
    assert_eq!(cycles_of(&[0xE2], none), 8);
    assert_eq!(cycles_of(&[0x22], none), 8);
    assert_eq!(cycles_of(&[0x2A], none), 8);
    assert_eq!(cycles_of(&[0x32], none), 8);
    assert_eq!(cycles_of(&[0x3A], none), 8);
    assert_eq!(cycles_of(&[0xE0, 0x80], none), 12);
    assert_eq!(cycles_of(&[0xF0, 0x80], none), 12);
    assert_eq!(cycles_of(&[0x01, 0x34, 0x12], none), 12);
    assert_eq!(cycles_of(&[0xF9], none), 8);
    assert_eq!(cycles_of(&[0xF8, 0x02], none), 12);
    assert_eq!(cycles_of(&[0x08, 0x00, 0xC0], none), 20);
    assert_eq!(cycles_of(&[0xC5], none), 16);
    assert_eq!(cycles_of(&[0xF1], none), 12);
}

#[test]
fn cycles_of_arithmetic() {
    let none = SetFlags::default();
    assert_eq!(cycles_of(&[0x80], none), 4);
    assert_eq!(cycles_of(&[0x86], none), 8);
    assert_eq!(cycles_of(&[0xC6, 0x01], none), 8);
    assert_eq!(cycles_of(&[0x98], none), 4);
    assert_eq!(cycles_of(&[0x9E], none), 8);
    assert_eq!(cycles_of(&[0xDE, 0x01], none), 8);
    assert_eq!(cycles_of(&[0xA0], none), 4);
    assert_eq!(cycles_of(&[0xAE], none), 8);
    assert_eq!(cycles_of(&[0xF6, 0x01], none), 8);
    assert_eq!(cycles_of(&[0xB8], none), 4);
    assert_eq!(cycles_of(&[0xBE], none), 8);
    assert_eq!(cycles_of(&[0xFE, 0x01], none), 8);
    assert_eq!(cycles_of(&[0x04], none), 4);
    assert_eq!(cycles_of(&[0x34], none), 12);
    assert_eq!(cycles_of(&[0x05], none), 4);
    assert_eq!(cycles_of(&[0x35], none), 12);
    assert_eq!(cycles_of(&[0x09], none), 8);
    assert_eq!(cycles_of(&[0xE8, 0x01], none), 16);
    assert_eq!(cycles_of(&[0x03], none), 8);
    assert_eq!(cycles_of(&[0x0B], none), 8);
}

#[test]
fn cycles_of_the_prefixed_page() {
    let none = SetFlags::default();
    for opcode in 0..=255u8 {
        let at_hl = opcode & 0x07 == 0x06;
        let bit_test = (0x40..0x80).contains(&opcode);
        let expected: u64 = if !at_hl {
            8
        } else if bit_test {
            12
        } else {
            16
        };
        assert_eq!(cycles_of(&[0xCB, opcode], none), expected);
    }
}

#[test]
fn cycles_of_misc_and_rotates() {
    let none = SetFlags::default();
    for opcode in [0x00u8, 0x27, 0x2F, 0x3F, 0x37, 0x76, 0xF3, 0xFB, 0x07, 0x17, 0x0F, 0x1F] {
        assert_eq!(cycles_of(&[opcode], none), 4);
    }
    assert_eq!(cycles_of(&[0x10, 0x00], none), 4);
}

#[test]
fn cycles_of_control_flow() {
    let none = SetFlags::default();
    let zero = flags(true, false, false, false);
    let carry = flags(false, false, false, true);
    assert_eq!(cycles_of(&[0xC3, 0x00, 0x02], none), 16);
    assert_eq!(cycles_of(&[0xC2, 0x00, 0x02], none), 16);
    assert_eq!(cycles_of(&[0xC2, 0x00, 0x02], zero), 12);
    assert_eq!(cycles_of(&[0xCA, 0x00, 0x02], zero), 16);
    assert_eq!(cycles_of(&[0xCA, 0x00, 0x02], none), 12);
    assert_eq!(cycles_of(&[0xD2, 0x00, 0x02], carry), 12);
    assert_eq!(cycles_of(&[0xDA, 0x00, 0x02], carry), 16);
    assert_eq!(cycles_of(&[0xE9], none), 4);
    assert_eq!(cycles_of(&[0x18, 0x05], none), 12);
    assert_eq!(cycles_of(&[0x20, 0x05], none), 12);
    assert_eq!(cycles_of(&[0x20, 0x05], zero), 8);
    assert_eq!(cycles_of(&[0x30, 0x05], carry), 8);
    assert_eq!(cycles_of(&[0x38, 0x05], carry), 12);
    assert_eq!(cycles_of(&[0xCD, 0x00, 0x02], none), 24);
    assert_eq!(cycles_of(&[0xC4, 0x00, 0x02], none), 24);
    assert_eq!(cycles_of(&[0xC4, 0x00, 0x02], zero), 12);
    assert_eq!(cycles_of(&[0xCC, 0x00, 0x02], zero), 24);
    assert_eq!(cycles_of(&[0xDC, 0x00, 0x02], none), 12);
    assert_eq!(cycles_of(&[0xC7], none), 16);
    assert_eq!(cycles_of(&[0xFF], none), 16);
    assert_eq!(cycles_of(&[0xC9], none), 16);
    assert_eq!(cycles_of(&[0xC0], none), 20);
    assert_eq!(cycles_of(&[0xC0], zero), 8);
    assert_eq!(cycles_of(&[0xC8], zero), 20);
    assert_eq!(cycles_of(&[0xD8], none), 8);
    assert_eq!(cycles_of(&[0xD0], none), 20);
    assert_eq!(cycles_of(&[0xD9], none), 16);
}

#[test]
fn jumps() {
    let mut cpu = cpu_with_program(0x0100, &[0xC3, 0x06, 0x01]);
    cpu.step();
    assert_eq!(cpu.get_pc(), 0x0106);
    let mut cpu = cpu_with_program(0x0100, &[0xE9]);
    cpu.put_long_reg(LongRegister::HL, 0x4321);
    cpu.step();
    assert_eq!(cpu.get_pc(), 0x4321);
    let mut cpu = cpu_with_program(0x0100, &[0xDA, 0x00, 0x02]);
    cpu.step();
    assert_eq!(cpu.get_pc(), 0x0103);
    let mut cpu = cpu_with_program(0x0100, &[0xDA, 0x00, 0x02]);
    cpu.set_flag(Flags::Carry);
    cpu.step();
    assert_eq!(cpu.get_pc(), 0x0200);
    let mut cpu = cpu_with_program(0x0100, &[0x18, 0x80]);
    cpu.step();
    assert_eq!(cpu.get_pc(), 0x0082);
    let mut cpu = cpu_with_program(0x0100, &[0x18, 0x7F]);
    cpu.step();
    assert_eq!(cpu.get_pc(), 0x0181);
}

#[test]
fn call_and_return() {
    let mut cpu = cpu_with_program(0x0100, &[0xCD, 0x00, 0x02]);
    cpu.load(0x0200, 0xC9);
    cpu.put_long_reg(LongRegister::SP, 0xFFFE);
    assert_eq!(cpu.step(), 24);
    assert_eq!(cpu.get_pc(), 0x0200);
    assert_eq!(cpu.get_long_reg(LongRegister::SP), 0xFFFC);
    assert_eq!(cpu.peek(0xFFFC), 0x03);
    assert_eq!(cpu.peek(0xFFFD), 0x01);
    assert_eq!(cpu.step(), 16);
    assert_eq!(cpu.get_pc(), 0x0103);
    assert_eq!(cpu.get_long_reg(LongRegister::SP), 0xFFFE);
}

#[test]
fn conditional_call_and_return() {
    let mut cpu = cpu_with_program(0x0100, &[0xCC, 0x00, 0x02, 0xC4, 0x00, 0x02]);
    cpu.load(0x0200, 0xC8);
    cpu.load(0x0201, 0xC0);
    cpu.put_long_reg(LongRegister::SP, 0xD000);
    cpu.step();
    assert_eq!(cpu.get_pc(), 0x0103);
    assert_eq!(cpu.get_long_reg(LongRegister::SP), 0xD000);
    cpu.step();
    assert_eq!(cpu.get_pc(), 0x0200);
    assert_eq!(cpu.get_long_reg(LongRegister::SP), 0xCFFE);
    cpu.step();
    assert_eq!(cpu.get_pc(), 0x0201);
    cpu.step();
    assert_eq!(cpu.get_pc(), 0x0106);
    assert_eq!(cpu.get_long_reg(LongRegister::SP), 0xD000);
}

#[test]
fn restart() {
    let mut cpu = cpu_with_program(0x0100, &[0xEF]);
    cpu.put_long_reg(LongRegister::SP, 0xD000);
    cpu.step();
    assert_eq!(cpu.get_pc(), 0x0028);
    assert_eq!(cpu.get_long_reg(LongRegister::SP), 0xCFFE);
    assert_eq!(cpu.peek(0xCFFE), 0x01);
    assert_eq!(cpu.peek(0xCFFF), 0x01);
}

#[test]
fn condition_checks() {
    let zero = flags(true, false, false, false);
    let carry = flags(false, false, false, true);
    assert!(ControlFlowCondition::Zero.check_condition(zero));
    assert!(!ControlFlowCondition::NotZero.check_condition(zero));
    assert!(ControlFlowCondition::NoCarry.check_condition(zero));
    assert!(!ControlFlowCondition::Carry.check_condition(zero));
    assert!(ControlFlowCondition::Carry.check_condition(carry));
    assert!(ControlFlowCondition::NotZero.check_condition(carry));
}

#[test]
fn enable_interrupts_after_the_next_instruction() {
    let mut cpu = cpu_with_program(0x0100, &[0xFB, 0x00, 0x00]);
    cpu.step();
    assert!(!cpu.interrupts_enabled());
    assert!(cpu.interrupts_pending_enable());
    cpu.step();
    assert!(cpu.interrupts_enabled());
    assert!(!cpu.interrupts_pending_enable());
    cpu.step();
    assert!(cpu.interrupts_enabled());
}

#[test]
fn disable_interrupts_at_once() {
    let mut cpu = cpu_with_program(0x0100, &[0xFB, 0xF3, 0x00]);
    cpu.step();
    cpu.step();
    assert!(!cpu.interrupts_enabled());
    assert!(!cpu.interrupts_pending_enable());
    cpu.step();
    assert!(!cpu.interrupts_enabled());
    cpu.enable_interrupts();
    assert!(cpu.interrupts_enabled());
    cpu.disable_interrupts();
    assert!(!cpu.interrupts_enabled());
    cpu.enable_interrupts_delayed();
    assert!(cpu.interrupts_pending_enable());
    assert!(!cpu.interrupts_enabled());
}

#[test]
fn return_and_enable_interrupts() {
    let mut cpu = cpu_with_program(0x0100, &[0xD9]);
    cpu.put_long_reg(LongRegister::SP, 0xD000);
    cpu.push_stack(0x0234);
    cpu.step();
    assert_eq!(cpu.get_pc(), 0x0234);
    assert!(cpu.interrupts_enabled());
    assert!(!cpu.interrupts_pending_enable());
    assert_eq!(cpu.get_long_reg(LongRegister::SP), 0xD000);
}

#[test]
fn halt_until_an_interrupt() {
    let mut cpu = cpu_with_program(0x0100, &[0x76, 0x3C]);
    assert_eq!(cpu.step(), 4);
    assert_eq!(cpu.mode(), Mode::Halted);
    assert_eq!(cpu.get_pc(), 0x0101);
    assert_eq!(cpu.step(), 4);
    assert_eq!(cpu.get_pc(), 0x0101);
    assert_eq!(cpu.get_reg_a(), 0);
    cpu.request_interrupt(Interrupt::Timer);
    assert_eq!(cpu.peek(0xFF0F), 0x04);
    assert!(!cpu.interrupt_pending());
    assert_eq!(cpu.step(), 4);
    assert_eq!(cpu.mode(), Mode::Halted);
    cpu.put_memory(0xFFFF, 0x04);
    assert!(cpu.interrupt_pending());
    assert_eq!(cpu.step(), 4);
    assert_eq!(cpu.mode(), Mode::Running);
    assert_eq!(cpu.get_reg_a(), 1);
    assert_eq!(cpu.get_pc(), 0x0102);
}

#[test]
fn halt_with_an_interrupt_waiting_goes_on() {
    let mut cpu = cpu_with_program(0x0100, &[0x76, 0x3C]);
    cpu.put_memory(0xFFFF, 0x01);
    cpu.request_interrupt(Interrupt::VBlank);
    cpu.step();
    assert_eq!(cpu.mode(), Mode::Running);
    cpu.step();
    assert_eq!(cpu.get_reg_a(), 1);
}

#[test]
fn interrupt_requests_set_their_bits() {
    let mut cpu = Cpu::default();
    cpu.request_interrupt(Interrupt::VBlank);
    assert_eq!(cpu.peek(0xFF0F), 0x01);
    cpu.request_interrupt(Interrupt::LcdStat);
    assert_eq!(cpu.peek(0xFF0F), 0x03);
    cpu.request_interrupt(Interrupt::Timer);
    cpu.request_interrupt(Interrupt::Serial);
    cpu.request_interrupt(Interrupt::Joypad);
    assert_eq!(cpu.peek(0xFF0F), 0x1F);
    cpu.request_interrupt(Interrupt::Timer);
    assert_eq!(cpu.peek(0xFF0F), 0x1F);
    assert_eq!(cpu.cycles(), 0);
    assert_eq!(Interrupt::Joypad.mask(), 0x10);
}

#[test]
fn illegal_opcode_locks_the_processor() {
    for opcode in [0xD3u8, 0xDB, 0xDD, 0xE3, 0xE4, 0xEB, 0xEC, 0xED, 0xF4, 0xFC, 0xFD] {
        let mut cpu = cpu_with_program(0x0100, &[opcode, 0x3C]);
        assert_eq!(cpu.step(), 4);
        assert_eq!(cpu.mode(), Mode::Locked);
        assert_eq!(cpu.get_pc(), 0x0100);
        assert_eq!(cpu.step(), 4);
        assert_eq!(cpu.step(), 4);
        assert_eq!(cpu.mode(), Mode::Locked);
        assert_eq!(cpu.get_pc(), 0x0100);
        assert_eq!(cpu.get_reg_a(), 0);
        assert_eq!(cpu.cycles(), 12);
        cpu.set_mode(Mode::Running);
        cpu.set_pc(0x0101);
        cpu.step();
        assert_eq!(cpu.get_reg_a(), 1);
    }
}

#[test]
fn stop_does_nothing() {
    let mut cpu = cpu_with_program(0x0100, &[0x10, 0x00, 0x3C]);
    assert_eq!(cpu.step(), 4);
    assert_eq!(cpu.mode(), Mode::Running);
    assert_eq!(cpu.get_pc(), 0x0102);
    cpu.step();
    assert_eq!(cpu.get_reg_a(), 1);
}

#[test]
fn instruction_execute_dispatches() {
    let mut cpu = Cpu::default();
    cpu.put_long_reg(LongRegister::HL, 0x0150);
    Instruction::ControlFlow(ControlFlowInstruction::JumpAddrHL).execute(&mut cpu);
    assert_eq!(cpu.get_pc(), 0x0150);
    Instruction::Misc(MiscInstruction::SetCarry).execute(&mut cpu);
    assert!(cpu.get_flag(Flags::Carry));
    Instruction::ControlFlow(ControlFlowInstruction::JumpRelativeCondition(
        ControlFlowCondition::Carry,
        -0x50,
    ))
    .execute(&mut cpu);
    assert_eq!(cpu.get_pc(), 0x0100);
    assert_eq!(cpu.cycles(), 4);
}

#[test]
fn cycle_counter_counts() {
    let mut counter = lr35902::cpu::cyclic::Cyclic::new();
    assert_eq!(counter.count(), 0);
    counter.cycle();
    assert_eq!(counter.count(), 4);
    counter.cycle_n(3);
    assert_eq!(counter.count(), 16);
    counter.cycle_n(0);
    assert_eq!(counter.count(), 16);
    counter.cycle_n(255);
    assert_eq!(counter.count(), 16 + 4 * 255);
}

#[test]
fn cycle_counter_wraps() {
    let mut counter = lr35902::cpu::cyclic::Cyclic::new();
    counter.set(u64::MAX - 3);
    counter.cycle();
    assert_eq!(counter.count(), 0);
    counter.set(u64::MAX);
    counter.cycle();
    assert_eq!(counter.count(), 3);
    counter.set(u64::MAX - 7);
    counter.cycle_n(3);
    assert_eq!(counter.count(), 4);

    let mut cpu = Cpu::default();
    cpu.set_cycles(u64::MAX - 3);
    cpu.cycle();
    assert_eq!(cpu.cycles(), 0);
    cpu.set_cycles(u64::MAX - 3);
    assert_eq!(cpu.get_memory(0xC000), 0);
    assert_eq!(cpu.cycles(), 0);
}

#[test]
fn step_counts_across_the_wrap() {
    let mut cpu = cpu_with_program(0x0100, &[0x00, 0xC5, 0xCD, 0x00, 0x02]);
    cpu.put_long_reg(LongRegister::SP, 0xD000);
    cpu.set_cycles(u64::MAX - 3);
    assert_eq!(cpu.step(), 4);
    assert_eq!(cpu.cycles(), 0);
    cpu.set_cycles(u64::MAX - 5);
    assert_eq!(cpu.step(), 16);
    assert_eq!(cpu.cycles(), 10);
    cpu.set_cycles(u64::MAX);
    assert_eq!(cpu.step(), 24);
    assert_eq!(cpu.cycles(), 23);
    assert_eq!(cpu.get_pc(), 0x0200);
}

#[test]
fn stop_opcode_before_another_byte_locks() {
    let mut cpu = cpu_with_program(0x0100, &[0x10, 0x01, 0x3C]);
    assert_eq!(cpu.step(), 4);
    assert_eq!(cpu.mode(), Mode::Locked);
    assert_eq!(cpu.get_pc(), 0x0100);
    assert_eq!(cpu.step(), 4);
    assert_eq!(cpu.get_pc(), 0x0100);
    assert_eq!(cpu.get_reg_a(), 0);
    assert_eq!(cpu.cycles(), 8);
}
