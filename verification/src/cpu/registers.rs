//! The register file: seven byte registers, the four flags, SP and PC.

use vstd::prelude::*;
use crate::help_traits::{spec_high, spec_low, spec_word, word, AccesBigEndianBytesU16};

verus! {

/// The byte registers. `F` is the flag register.
#[derive(Debug, Clone, Copy, PartialEq, Eq, Structural)]
pub enum Register {
    A,
    B,
    C,
    D,
    E,
    F,
    H,
    L,
}

/// The word registers: the four pairs, the stack pointer and the program
/// counter.
#[derive(Debug, Clone, Copy, PartialEq, Eq, Structural)]
pub enum LongRegister {
    AF,
    BC,
    DE,
    HL,
    SP,
    PC,
}

/// Flags are contained in the F register
///
/// |7|6|5|4|3|2|1|0|
/// |-|-|-|-|-|-|-|-|
/// |Z|N|H|C|0|0|0|0|
#[derive(Debug, Clone, Copy, PartialEq, Eq, Structural)]
pub enum Flags {
    /// Zero Flag (Z)
    ///
    /// This bit is set when the result of a math operation
    /// is zero or two values match when using the CP instruction.
    Zero,
    /// Substract Flag (N)
    ///
    /// This bit is set if a subtraction was performed
    /// in the last math instruction.
    Substract,
    /// Half Carry Flag (H)
    ///
    /// This bit is set if a carry occurred from the lower
    /// nibble in the last math operation
    HalfCarry,
    /// Carry Flag (C)
    ///
    /// This bit is set if a carry occurred from the last
    /// math operation or if register A is the smaller value
    /// when executing the CP instruction.
    Carry,
}

/// The four flags, each as a truth value.
#[derive(Debug, Clone, Copy, PartialEq, Eq, Structural)]
pub struct SetFlags {
    pub zero: bool,
    pub substract: bool,
    pub half_carry: bool,
    pub carry: bool,
}

pub const ZERO_MASK: u8 = 0x80;

pub const SUBSTRACT_MASK: u8 = 0x40;

pub const HALF_CARRY_MASK: u8 = 0x20;

pub const CARRY_MASK: u8 = 0x10;

impl Flags {
    /// The bit of F that holds the flag.
    pub open spec fn spec_mask(self) -> u8 {
        match self {
            Flags::Zero => ZERO_MASK,
            Flags::Substract => SUBSTRACT_MASK,
            Flags::HalfCarry => HALF_CARRY_MASK,
            Flags::Carry => CARRY_MASK,
        }
    }
}

impl From<Flags> for u8 {
    fn from(flag: Flags) -> (mask: u8) {
        match flag {
            Flags::Zero => ZERO_MASK,
            Flags::Substract => SUBSTRACT_MASK,
            Flags::HalfCarry => HALF_CARRY_MASK,
            Flags::Carry => CARRY_MASK,
        }
    }
}

impl vstd::std_specs::convert::FromSpecImpl<Flags> for u8 {
    open spec fn obeys_from_spec() -> bool {
        true
    }

    open spec fn from_spec(flag: Flags) -> u8 {
        flag.spec_mask()
    }
}

impl SetFlags {
    /// The flags that the byte `flags` holds in its high nibble.
    pub open spec fn spec_from_byte(flags: u8) -> SetFlags {
        SetFlags {
            zero: flags & ZERO_MASK == ZERO_MASK,
            substract: flags & SUBSTRACT_MASK == SUBSTRACT_MASK,
            half_carry: flags & HALF_CARRY_MASK == HALF_CARRY_MASK,
            carry: flags & CARRY_MASK == CARRY_MASK,
        }
    }

    /// The value of F: one bit for each flag that is set, the low nibble zero.
    pub open spec fn spec_byte(self) -> u8 {
        (if self.zero { ZERO_MASK } else { 0u8 })
            | (if self.substract { SUBSTRACT_MASK } else { 0u8 })
            | (if self.half_carry { HALF_CARRY_MASK } else { 0u8 })
            | (if self.carry { CARRY_MASK } else { 0u8 })
    }

    /// The value of one flag.
    pub open spec fn spec_get(self, flag: Flags) -> bool {
        match flag {
            Flags::Zero => self.zero,
            Flags::Substract => self.substract,
            Flags::HalfCarry => self.half_carry,
            Flags::Carry => self.carry,
        }
    }

    /// The flags with `flag` replaced by `value`.
    pub open spec fn spec_with(self, flag: Flags, value: bool) -> SetFlags {
        match flag {
            Flags::Zero => SetFlags { zero: value, ..self },
            Flags::Substract => SetFlags { substract: value, ..self },
            Flags::HalfCarry => SetFlags { half_carry: value, ..self },
            Flags::Carry => SetFlags { carry: value, ..self },
        }
    }

    /// No flag set.
    pub open spec fn spec_clear() -> SetFlags {
        SetFlags { zero: false, substract: false, half_carry: false, carry: false }
    }

    /// The low nibble of F is zero whatever the flags are.
    pub proof fn lemma_low_nibble_zero(self)
        ensures
            self.spec_byte() & 0x0F == 0,
    {
        let z = self.zero;
        let n = self.substract;
        let h = self.half_carry;
        let c = self.carry;
        assert(((if z { 0x80u8 } else { 0u8 }) | (if n { 0x40u8 } else { 0u8 }) | (if h {
            0x20u8
        } else {
            0u8
        }) | (if c { 0x10u8 } else { 0u8 })) & 0x0F == 0) by (bit_vector);
    }

    /// Reading the flags out of the byte that holds them gives them back.
    pub proof fn lemma_byte_round_trip(self)
        ensures
            SetFlags::spec_from_byte(self.spec_byte()) == self,
    {
        let z = self.zero;
        let n = self.substract;
        let h = self.half_carry;
        let c = self.carry;
        let b = self.spec_byte();
        assert(b == ((if z { 0x80u8 } else { 0u8 }) | (if n { 0x40u8 } else { 0u8 }) | (if h {
            0x20u8
        } else {
            0u8
        }) | (if c { 0x10u8 } else { 0u8 })) ==> ((b & 0x80 == 0x80) == z && (b & 0x40 == 0x40) == n
            && (b & 0x20 == 0x20) == h && (b & 0x10 == 0x10) == c)) by (bit_vector);
    }

    /// Storing a byte in F keeps its high nibble and drops the low one.
    pub proof fn lemma_from_byte_masks(flags: u8)
        ensures
            SetFlags::spec_from_byte(flags).spec_byte() == flags & 0xF0,
    {
        let z = flags & 0x80 == 0x80;
        let n = flags & 0x40 == 0x40;
        let h = flags & 0x20 == 0x20;
        let c = flags & 0x10 == 0x10;
        assert((z == (flags & 0x80 == 0x80) && n == (flags & 0x40 == 0x40) && h == (flags & 0x20
            == 0x20) && c == (flags & 0x10 == 0x10)) ==> ((if z { 0x80u8 } else { 0u8 }) | (if n {
            0x40u8
        } else {
            0u8
        }) | (if h { 0x20u8 } else { 0u8 }) | (if c { 0x10u8 } else { 0u8 })) == flags & 0xF0)
            by (bit_vector);
    }
}

impl From<u8> for SetFlags {
    fn from(flags: u8) -> (r: SetFlags) {
        SetFlags {
            zero: flags & ZERO_MASK == ZERO_MASK,
            substract: flags & SUBSTRACT_MASK == SUBSTRACT_MASK,
            half_carry: flags & HALF_CARRY_MASK == HALF_CARRY_MASK,
            carry: flags & CARRY_MASK == CARRY_MASK,
        }
    }
}

impl vstd::std_specs::convert::FromSpecImpl<u8> for SetFlags {
    open spec fn obeys_from_spec() -> bool {
        true
    }

    open spec fn from_spec(flags: u8) -> SetFlags {
        SetFlags::spec_from_byte(flags)
    }
}

impl From<SetFlags> for u8 {
    fn from(flags: SetFlags) -> (byte: u8) {
        (if flags.zero { ZERO_MASK } else { 0u8 })
            | (if flags.substract { SUBSTRACT_MASK } else { 0u8 })
            | (if flags.half_carry { HALF_CARRY_MASK } else { 0u8 })
            | (if flags.carry { CARRY_MASK } else { 0u8 })
    }
}

impl vstd::std_specs::convert::FromSpecImpl<SetFlags> for u8 {
    open spec fn obeys_from_spec() -> bool {
        true
    }

    open spec fn from_spec(flags: SetFlags) -> u8 {
        flags.spec_byte()
    }
}

impl Default for SetFlags {
    fn default() -> (r: SetFlags)
        ensures
            r == SetFlags::spec_clear(),
    {
        SetFlags { zero: false, substract: false, half_carry: false, carry: false }
    }
}

/// The register file. A pair is held as its two bytes, and F as its four
/// flags, so that the low nibble of F is zero whatever is written to it.
#[derive(Debug, Clone, Copy)]
pub struct Registers {
    pub a: u8,
    pub flags: SetFlags,
    pub b: u8,
    pub c: u8,
    pub d: u8,
    pub e: u8,
    pub h: u8,
    pub l: u8,
    pub sp: u16,
    pub pc: u16,
}

impl Registers {
    /// The register file with every register zero.
    pub open spec fn spec_zero() -> Registers {
        Registers {
            a: 0,
            flags: SetFlags::spec_clear(),
            b: 0,
            c: 0,
            d: 0,
            e: 0,
            h: 0,
            l: 0,
            sp: 0,
            pc: 0,
        }
    }

    /// The value of a byte register.
    pub open spec fn spec_get(self, reg: Register) -> u8 {
        match reg {
            Register::A => self.a,
            Register::B => self.b,
            Register::C => self.c,
            Register::D => self.d,
            Register::E => self.e,
            Register::F => self.flags.spec_byte(),
            Register::H => self.h,
            Register::L => self.l,
        }
    }

    /// The register file after `byte` is written to `reg`. A write to F
    /// keeps the high nibble only.
    pub open spec fn spec_set(self, reg: Register, byte: u8) -> Registers {
        match reg {
            Register::A => Registers { a: byte, ..self },
            Register::B => Registers { b: byte, ..self },
            Register::C => Registers { c: byte, ..self },
            Register::D => Registers { d: byte, ..self },
            Register::E => Registers { e: byte, ..self },
            Register::F => Registers { flags: SetFlags::spec_from_byte(byte), ..self },
            Register::H => Registers { h: byte, ..self },
            Register::L => Registers { l: byte, ..self },
        }
    }

    /// The value of a word register. The first register of a pair is its
    /// high byte.
    pub open spec fn spec_get_long(self, reg: LongRegister) -> u16 {
        match reg {
            LongRegister::AF => spec_word(self.a, self.flags.spec_byte()),
            LongRegister::BC => spec_word(self.b, self.c),
            LongRegister::DE => spec_word(self.d, self.e),
            LongRegister::HL => spec_word(self.h, self.l),
            LongRegister::SP => self.sp,
            LongRegister::PC => self.pc,
        }
    }

    /// The register file after `value` is written to the word register
    /// `reg`: each half of a pair takes its byte, F its high nibble.
    pub open spec fn spec_set_long(self, reg: LongRegister, value: u16) -> Registers {
        match reg {
            LongRegister::AF => Registers {
                a: spec_high(value),
                flags: SetFlags::spec_from_byte(spec_low(value)),
                ..self
            },
            LongRegister::BC => Registers { b: spec_high(value), c: spec_low(value), ..self },
            LongRegister::DE => Registers { d: spec_high(value), e: spec_low(value), ..self },
            LongRegister::HL => Registers { h: spec_high(value), l: spec_low(value), ..self },
            LongRegister::SP => Registers { sp: value, ..self },
            LongRegister::PC => Registers { pc: value, ..self },
        }
    }

    /// The register file with the flags replaced.
    pub open spec fn spec_set_flags(self, flags: SetFlags) -> Registers {
        Registers { flags, ..self }
    }

    /// A mutable reference to the byte that holds `reg`. F has no such byte:
    /// it is written through [`Registers::set`] or the flag functions.
    pub fn get_mut(&mut self, reg: Register) -> (r: &mut u8)
        requires
            reg != Register::F,
        ensures
            *r == old(self).spec_get(reg),
            *final(self) == old(self).spec_set(reg, *final(r)),
    {
        match reg {
            Register::A => &mut self.a,
            Register::B => &mut self.b,
            Register::C => &mut self.c,
            Register::D => &mut self.d,
            Register::E => &mut self.e,
            Register::F => vstd::pervasive::unreached(),
            Register::H => &mut self.h,
            Register::L => &mut self.l,
        }
    }

    /// Reads a byte register. The low nibble of F reads as zero.
    pub fn get(&self, reg: Register) -> (byte: u8)
        ensures
            byte == self.spec_get(reg),
            reg == Register::F ==> byte & 0x0F == 0,
    {
        proof {
            self.lemma_flag_register_low_nibble();
        }
        match reg {
            Register::A => self.a,
            Register::B => self.b,
            Register::C => self.c,
            Register::D => self.d,
            Register::E => self.e,
            Register::F => u8::from(self.flags),
            Register::H => self.h,
            Register::L => self.l,
        }
    }

    /// Writes a byte register. F keeps the high nibble of `byte` only.
    pub fn set(&mut self, reg: Register, byte: u8)
        ensures
            *final(self) == old(self).spec_set(reg, byte),
    {
        match reg {
            Register::A => self.a = byte,
            Register::B => self.b = byte,
            Register::C => self.c = byte,
            Register::D => self.d = byte,
            Register::E => self.e = byte,
            Register::F => self.flags = SetFlags::from(byte),
            Register::H => self.h = byte,
            Register::L => self.l = byte,
        }
    }

    /// A mutable reference to the word that holds `reg`. Only SP and PC are
    /// held as words; a pair is written through [`Registers::set_long`].
    pub fn get_long_mut(&mut self, reg: LongRegister) -> (r: &mut u16)
        requires
            reg == LongRegister::SP || reg == LongRegister::PC,
        ensures
            *r == old(self).spec_get_long(reg),
            *final(self) == old(self).spec_set_long(reg, *final(r)),
    {
        match reg {
            LongRegister::SP => &mut self.sp,
            LongRegister::PC => &mut self.pc,
            _ => vstd::pervasive::unreached(),
        }
    }

    /// Reads a word register. The low nibble of AF reads as zero.
    pub fn get_long(&self, reg: LongRegister) -> (value: u16)
        ensures
            value == self.spec_get_long(reg),
            reg == LongRegister::AF ==> value & 0x000F == 0,
    {
        proof {
            self.lemma_flag_register_low_nibble();
        }
        match reg {
            LongRegister::AF => word(self.a, u8::from(self.flags)),
            LongRegister::BC => word(self.b, self.c),
            LongRegister::DE => word(self.d, self.e),
            LongRegister::HL => word(self.h, self.l),
            LongRegister::SP => self.sp,
            LongRegister::PC => self.pc,
        }
    }

    /// Writes a word register: each half of a pair takes its byte, and F
    /// the high nibble of the low byte only.
    pub fn set_long(&mut self, reg: LongRegister, value: u16)
        ensures
            *final(self) == old(self).spec_set_long(reg, value),
    {
        let high = value.get_high();
        let low = value.get_low();
        match reg {
            LongRegister::AF => {
                self.a = high;
                self.flags = SetFlags::from(low);
            },
            LongRegister::BC => {
                self.b = high;
                self.c = low;
            },
            LongRegister::DE => {
                self.d = high;
                self.e = low;
            },
            LongRegister::HL => {
                self.h = high;
                self.l = low;
            },
            LongRegister::SP => self.sp = value,
            LongRegister::PC => self.pc = value,
        }
    }

    pub fn get_flags(&self) -> (flags: SetFlags)
        ensures
            flags == self.flags,
    {
        self.flags
    }

    pub fn set_flags(&mut self, flags: SetFlags)
        ensures
            *final(self) == old(self).spec_set_flags(flags),
    {
        self.flags = flags;
    }

    pub fn get_flag(&self, flag: Flags) -> (value: bool)
        ensures
            value == self.flags.spec_get(flag),
    {
        match flag {
            Flags::Zero => self.flags.zero,
            Flags::Substract => self.flags.substract,
            Flags::HalfCarry => self.flags.half_carry,
            Flags::Carry => self.flags.carry,
        }
    }

    pub fn set_flag(&mut self, flag: Flags)
        ensures
            *final(self) == old(self).spec_set_flags(old(self).flags.spec_with(flag, true)),
    {
        self.set_flag_to(flag, true);
    }

    pub fn reset_flag(&mut self, flag: Flags)
        ensures
            *final(self) == old(self).spec_set_flags(old(self).flags.spec_with(flag, false)),
    {
        self.set_flag_to(flag, false);
    }

    pub fn set_flag_to(&mut self, flag: Flags, value: bool)
        ensures
            *final(self) == old(self).spec_set_flags(old(self).flags.spec_with(flag, value)),
    {
        match flag {
            Flags::Zero => self.flags.zero = value,
            Flags::Substract => self.flags.substract = value,
            Flags::HalfCarry => self.flags.half_carry = value,
            Flags::Carry => self.flags.carry = value,
        }
    }

    /// The low nibble of F reads as zero in every register file, through
    /// the byte register and through the pair AF.
    pub proof fn lemma_flag_register_low_nibble(self)
        ensures
            self.spec_get(Register::F) & 0x0F == 0,
            self.spec_get_long(LongRegister::AF) & 0x000F == 0,
    {
        self.flags.lemma_low_nibble_zero();
        let a = self.a;
        let f = self.flags.spec_byte();
        assert(f & 0x0F == 0 ==> ((a as u16) * 256 + (f as u16)) as u16 & 0x000F == 0)
            by (bit_vector);
    }

    /// PC and SP are 16-bit values in every register file.
    pub proof fn lemma_word_registers_in_range(self)
        ensures
            0 <= self.spec_get_long(LongRegister::PC) < 0x10000,
            0 <= self.spec_get_long(LongRegister::SP) < 0x10000,
    {
    }

    /// A byte register other than F reads back the byte last written to it,
    /// F its high nibble; the other byte registers keep their values.
    pub proof fn lemma_get_set(self, reg: Register, other: Register, byte: u8)
        ensures
            self.spec_set(reg, byte).spec_get(reg) == (if reg == Register::F {
                byte & 0xF0
            } else {
                byte
            }),
            other != reg ==> self.spec_set(reg, byte).spec_get(other) == self.spec_get(other),
    {
        SetFlags::lemma_from_byte_masks(byte);
    }

    /// The halves of a pair alias the pair: after a write to the pair, its
    /// first register holds the high byte and its second the low byte (F
    /// the high nibble of it), and the pair reads back accordingly.
    pub proof fn lemma_pair_aliasing(self, value: u16)
        ensures
            self.spec_set_long(LongRegister::BC, value).b == spec_high(value),
            self.spec_set_long(LongRegister::BC, value).c == spec_low(value),
            self.spec_set_long(LongRegister::DE, value).d == spec_high(value),
            self.spec_set_long(LongRegister::DE, value).e == spec_low(value),
            self.spec_set_long(LongRegister::HL, value).h == spec_high(value),
            self.spec_set_long(LongRegister::HL, value).l == spec_low(value),
            self.spec_set_long(LongRegister::AF, value).a == spec_high(value),
            self.spec_set_long(LongRegister::AF, value).spec_get(Register::F) == spec_low(value)
                & 0xF0,
            forall|reg: LongRegister|
                reg != LongRegister::AF ==> #[trigger] self.spec_set_long(reg, value).spec_get_long(
                    reg,
                ) == value,
            self.spec_set_long(LongRegister::AF, value).spec_get_long(LongRegister::AF) == value
                & 0xFFF0,
    {
        SetFlags::lemma_from_byte_masks(spec_low(value));
        let low = spec_low(value);
        let high = spec_high(value);
        assert(high == (value / 256) as u8 && low == (value % 256) as u8 ==> ((high as u16) * 256
            + ((low & 0xF0) as u16)) as u16 == value & 0xFFF0) by (bit_vector);
    }
}

impl Default for Registers {
    fn default() -> (r: Registers)
        ensures
            r == Registers::spec_zero(),
    {
        Registers {
            a: 0,
            flags: SetFlags::default(),
            b: 0,
            c: 0,
            d: 0,
            e: 0,
            h: 0,
            l: 0,
            sp: 0,
            pc: 0,
        }
    }
}

} // verus!
