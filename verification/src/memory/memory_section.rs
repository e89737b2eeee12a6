//! A block of bytes of fixed size that backs one region of the address space.

use vstd::prelude::*;

verus! {

#[derive(Debug)]
pub struct MemorySection<const N: usize> {
    mem: [u8; N],
}

impl<const N: usize> View for MemorySection<N> {
    type V = Seq<u8>;

    closed spec fn view(&self) -> Seq<u8> {
        self.mem@
    }
}

impl<const N: usize> MemorySection<N> {
    /// The bytes of a section always number `N`.
    pub proof fn lemma_len(&self)
        ensures
            self@.len() == N,
    {
    }

    /// A section of `N` zero bytes.
    pub fn new() -> (section: Self)
        ensures
            section@ == Seq::new(N as nat, |i: int| 0u8),
    {
        let section = MemorySection { mem: [0u8;N] };
        assert(section@ =~= Seq::new(N as nat, |i: int| 0u8));
        section
    }

    pub fn get(&self, addr: u16) -> (byte: u8)
        requires
            (addr as int) < N,
        ensures
            byte == self@[addr as int],
    {
        self.mem[addr as usize]
    }

    pub fn set(&mut self, addr: u16, value: u8)
        requires
            (addr as int) < N,
        ensures
            final(self)@ == old(self)@.update(addr as int, value),
    {
        self.mem[addr as usize] = value;
    }
}

impl<const N: usize> Default for MemorySection<N> {
    fn default() -> (section: Self)
        ensures
            section@ == Seq::new(N as nat, |i: int| 0u8),
    {
        Self::new()
    }
}

} // verus!
