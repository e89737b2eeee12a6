//! Splitting 16-bit words into bytes and joining them again.

use vstd::prelude::*;

verus! {

/// The most significant byte of `word`.
pub open spec fn spec_high(word: u16) -> u8 {
    (word / 256) as u8
}

/// The least significant byte of `word`.
pub open spec fn spec_low(word: u16) -> u8 {
    (word % 256) as u8
}

/// The word whose most significant byte is `high` and whose least
/// significant byte is `low`.
pub open spec fn spec_word(high: u8, low: u8) -> u16 {
    (high * 256 + low) as u16
}

/// Joins two bytes into a word, most significant byte first.
pub fn word(high: u8, low: u8) -> (r: u16)
    ensures
        r == spec_word(high, low),
        spec_high(r) == high,
        spec_low(r) == low,
{
    (high as u16) * 256 + (low as u16)
}

/// Splitting a word and joining the halves gives the word back.
pub proof fn lemma_split_join(w: u16)
    ensures
        spec_word(spec_high(w), spec_low(w)) == w,
{
}

/// Joining two bytes and splitting the word gives the bytes back.
pub proof fn lemma_join_split(high: u8, low: u8)
    ensures
        spec_high(spec_word(high, low)) == high,
        spec_low(spec_word(high, low)) == low,
{
}

/// Byte access to a value that stands for a 16-bit word, the most
/// significant byte being the high one whatever the host's byte order.
pub trait AccesBigEndianBytesU16: Sized {
    /// The word that the value stands for.
    spec fn as_word(self) -> u16;

    fn get_high(self) -> (byte: u8)
        ensures
            byte == spec_high(self.as_word()),
    ;

    fn get_low(self) -> (byte: u8)
        ensures
            byte == spec_low(self.as_word()),
    ;

    fn set_high(&mut self, byte: u8)
        ensures
            (*final(self)).as_word() == spec_word(byte, spec_low((*old(self)).as_word())),
    ;

    fn set_low(&mut self, byte: u8)
        ensures
            (*final(self)).as_word() == spec_word(spec_high((*old(self)).as_word()), byte),
    ;
}

impl AccesBigEndianBytesU16 for u16 {
    open spec fn as_word(self) -> u16 {
        self
    }

    fn get_high(self) -> (byte: u8) {
        (self / 256) as u8
    }

    fn get_low(self) -> (byte: u8) {
        (self % 256) as u8
    }

    fn set_high(&mut self, byte: u8) {
        *self = word(byte, (*self % 256) as u8);
    }

    fn set_low(&mut self, byte: u8) {
        *self = word((*self / 256) as u8, byte);
    }
}

} // verus!
