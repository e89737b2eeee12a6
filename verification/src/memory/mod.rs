//! The memory bus: a 16-bit address space cut into regions, each with its
//! own backing store and its own rule for reads and writes.
//!
//! The model of the bus is the sequence of the 65536 bytes that a read
//! returns, address by address.

use vstd::prelude::*;
use self::memory_section::MemorySection;

pub mod memory_section;

verus! {

pub const ROM_BANK_START: u16 = 0x0000;

pub const SWITCHABLE_ROM_BANK_START: u16 = 0x4000;

pub const VRAM_START: u16 = 0x8000;

pub const SWITCHABLE_RAM_BANK_START: u16 = 0xA000;

pub const INTERNAL_RAM_START: u16 = 0xC000;

pub const INTERNAL_RAM_ECHO_START: u16 = 0xE000;

pub const OAM_START: u16 = 0xFE00;

pub const EMPTY_START: u16 = 0xFEA0;

pub const IO_PORTS_START: u16 = 0xFF00;

pub const INTERNAL_RAM_TWO_START: u16 = 0xFF80;

pub const INTERRUPT_ENABLE_REGISTER_START: u16 = 0xFFFF;

pub const ROM_BANK_SIZE: usize = 0x4000;

pub const SWITCHABLE_ROM_BANK_SIZE: usize = 0x4000;

pub const VRAM_SIZE: usize = 0x2000;

pub const SWITCHABLE_RAM_BANK_SIZE: usize = 0x2000;

pub const INTERNAL_RAM_SIZE: usize = 0x2000;

pub const INTERNAL_RAM_ECHO_SIZE: usize = 0x1E00;

pub const OAM_SIZE: usize = 0xA0;

pub const EMPTY_SIZE: usize = 0x60;

pub const IO_PORTS_SIZE: usize = 0x80;

pub const INTERNAL_RAM_TWO_SIZE: usize = 0x7F;

/// The number of addresses on the bus.
pub const ADDRESS_SPACE: usize = 0x10000;

/// The address of the interrupt-flag port.
pub const INTERRUPT_FLAG_PORT: u16 = 0xFF0F;

/// The regions of the address space, but for the interrupt-enable register
/// at 0xFFFF, which is a single byte.
#[derive(Debug, Clone, Copy, PartialEq, Eq, Structural)]
pub enum Bank {
    /// 0x0000-0x3FFF, ROM bank 0.
    Rom,
    /// 0x4000-0x7FFF, the switchable ROM bank.
    SwitchableRom,
    /// 0x8000-0x9FFF, video RAM.
    Vram,
    /// 0xA000-0xBFFF, the cartridge's RAM.
    SwitchableRam,
    /// 0xC000-0xDFFF, work RAM.
    InternalRam,
    /// 0xE000-0xFDFF, the echo of the first 0x1E00 bytes of work RAM.
    InternalRamEcho,
    /// 0xFE00-0xFE9F, sprite attributes.
    Oam,
    /// 0xFEA0-0xFEFF, prohibited.
    Empty,
    /// 0xFF00-0xFF7F, I/O ports.
    IOPorts,
    /// 0xFF80-0xFFFE, high RAM.
    InternalRamTwo,
}

impl Bank {
    /// The first address of the region.
    pub open spec fn spec_start(self) -> u16 {
        match self {
            Bank::Rom => ROM_BANK_START,
            Bank::SwitchableRom => SWITCHABLE_ROM_BANK_START,
            Bank::Vram => VRAM_START,
            Bank::SwitchableRam => SWITCHABLE_RAM_BANK_START,
            Bank::InternalRam => INTERNAL_RAM_START,
            Bank::InternalRamEcho => INTERNAL_RAM_ECHO_START,
            Bank::Oam => OAM_START,
            Bank::Empty => EMPTY_START,
            Bank::IOPorts => IO_PORTS_START,
            Bank::InternalRamTwo => INTERNAL_RAM_TWO_START,
        }
    }

    /// The number of addresses in the region.
    pub open spec fn spec_size(self) -> usize {
        match self {
            Bank::Rom => ROM_BANK_SIZE,
            Bank::SwitchableRom => SWITCHABLE_ROM_BANK_SIZE,
            Bank::Vram => VRAM_SIZE,
            Bank::SwitchableRam => SWITCHABLE_RAM_BANK_SIZE,
            Bank::InternalRam => INTERNAL_RAM_SIZE,
            Bank::InternalRamEcho => INTERNAL_RAM_ECHO_SIZE,
            Bank::Oam => OAM_SIZE,
            Bank::Empty => EMPTY_SIZE,
            Bank::IOPorts => IO_PORTS_SIZE,
            Bank::InternalRamTwo => INTERNAL_RAM_TWO_SIZE,
        }
    }

    /// Whether `addr` lies in the region.
    pub open spec fn spec_contains(self, addr: u16) -> bool {
        self.spec_start() <= addr < self.spec_start() + self.spec_size()
    }

    /// The region that holds `addr`, with the offset of `addr` in it; `None`
    /// for the interrupt-enable register.
    pub open spec fn spec_from_addr(addr: u16) -> Option<(Bank, u16)> {
        if addr < SWITCHABLE_ROM_BANK_START {
            Some((Bank::Rom, addr))
        } else if addr < VRAM_START {
            Some((Bank::SwitchableRom, (addr - SWITCHABLE_ROM_BANK_START) as u16))
        } else if addr < SWITCHABLE_RAM_BANK_START {
            Some((Bank::Vram, (addr - VRAM_START) as u16))
        } else if addr < INTERNAL_RAM_START {
            Some((Bank::SwitchableRam, (addr - SWITCHABLE_RAM_BANK_START) as u16))
        } else if addr < INTERNAL_RAM_ECHO_START {
            Some((Bank::InternalRam, (addr - INTERNAL_RAM_START) as u16))
        } else if addr < OAM_START {
            Some((Bank::InternalRamEcho, (addr - INTERNAL_RAM_ECHO_START) as u16))
        } else if addr < EMPTY_START {
            Some((Bank::Oam, (addr - OAM_START) as u16))
        } else if addr < IO_PORTS_START {
            Some((Bank::Empty, (addr - EMPTY_START) as u16))
        } else if addr < INTERNAL_RAM_TWO_START {
            Some((Bank::IOPorts, (addr - IO_PORTS_START) as u16))
        } else if addr < INTERRUPT_ENABLE_REGISTER_START {
            Some((Bank::InternalRamTwo, (addr - INTERNAL_RAM_TWO_START) as u16))
        } else {
            None
        }
    }

    /// Decodes an address to its region and the offset in it. The result is
    /// the one region that contains the address; only 0xFFFF has none.
    pub fn from_addr(addr: u16) -> (r: Option<(Bank, u16)>)
        ensures
            r == Bank::spec_from_addr(addr),
            r is None <==> addr == INTERRUPT_ENABLE_REGISTER_START,
            r matches Some((bank, offset)) ==> bank.spec_contains(addr) && bank.spec_start()
                + offset == addr,
            forall|bank: Bank| #[trigger]
                bank.spec_contains(addr) ==> (r matches Some((b, _)) && b == bank),
    {
        if addr < SWITCHABLE_ROM_BANK_START {
            Some((Bank::Rom, addr - ROM_BANK_START))
        } else if addr < VRAM_START {
            Some((Bank::SwitchableRom, addr - SWITCHABLE_ROM_BANK_START))
        } else if addr < SWITCHABLE_RAM_BANK_START {
            Some((Bank::Vram, addr - VRAM_START))
        } else if addr < INTERNAL_RAM_START {
            Some((Bank::SwitchableRam, addr - SWITCHABLE_RAM_BANK_START))
        } else if addr < INTERNAL_RAM_ECHO_START {
            Some((Bank::InternalRam, addr - INTERNAL_RAM_START))
        } else if addr < OAM_START {
            Some((Bank::InternalRamEcho, addr - INTERNAL_RAM_ECHO_START))
        } else if addr < EMPTY_START {
            Some((Bank::Oam, addr - OAM_START))
        } else if addr < IO_PORTS_START {
            Some((Bank::Empty, addr - EMPTY_START))
        } else if addr < INTERNAL_RAM_TWO_START {
            Some((Bank::IOPorts, addr - IO_PORTS_START))
        } else if addr < INTERRUPT_ENABLE_REGISTER_START {
            Some((Bank::InternalRamTwo, addr - INTERNAL_RAM_TWO_START))
        } else {
            None
        }
    }
}

/// Whether `addr` lies in cartridge ROM, which the processor cannot write.
pub open spec fn is_rom(addr: u16) -> bool {
    addr < VRAM_START
}

/// Whether `addr` lies in the part of work RAM that echo RAM mirrors.
pub open spec fn is_mirrored_work_ram(addr: u16) -> bool {
    INTERNAL_RAM_START <= addr < INTERNAL_RAM_START + INTERNAL_RAM_ECHO_SIZE
}

/// Whether `addr` lies in echo RAM.
pub open spec fn is_echo(addr: u16) -> bool {
    INTERNAL_RAM_ECHO_START <= addr < OAM_START
}

/// Whether `addr` lies in the prohibited region.
pub open spec fn is_prohibited(addr: u16) -> bool {
    EMPTY_START <= addr < IO_PORTS_START
}

/// Whether a write on the bus stores its byte: everywhere but in ROM and
/// in the prohibited region.
pub open spec fn is_writable(addr: u16) -> bool {
    !is_rom(addr) && !is_prohibited(addr)
}

/// What holds of the bytes that a bus returns, whatever was written: there
/// is one for each address, the prohibited region reads 0xFF, and echo RAM
/// reads as the work RAM 0x2000 below it.
pub open spec fn bus_valid(bus: Seq<u8>) -> bool {
    &&& bus.len() == ADDRESS_SPACE
    &&& forall|addr: u16| is_prohibited(addr) ==> #[trigger] bus[addr as int] == 0xFF
    &&& forall|addr: u16| is_echo(addr) ==> #[trigger] bus[addr as int] == bus[addr - 0x2000]
}

/// The bus of a machine that was just made: zero everywhere but in the
/// prohibited region.
pub open spec fn bus_zero() -> Seq<u8> {
    Seq::new(
        ADDRESS_SPACE as nat,
        |addr: int|
            if EMPTY_START <= addr < IO_PORTS_START {
                0xFFu8
            } else {
                0u8
            },
    )
}

/// The bus after `value` is stored at `addr` and at its mirror image, with
/// no regard to what can be written.
pub open spec fn bus_store(bus: Seq<u8>, addr: u16, value: u8) -> Seq<u8> {
    if is_prohibited(addr) {
        bus
    } else if is_mirrored_work_ram(addr) {
        bus.update(addr as int, value).update(addr + 0x2000, value)
    } else if is_echo(addr) {
        bus.update(addr as int, value).update(addr - 0x2000, value)
    } else {
        bus.update(addr as int, value)
    }
}

/// The bus after the processor writes `value` at `addr`. A write to ROM or
/// to the prohibited region changes nothing; a write to work RAM or to echo
/// RAM shows in both.
pub open spec fn bus_write(bus: Seq<u8>, addr: u16, value: u8) -> Seq<u8> {
    if is_rom(addr) {
        bus
    } else {
        bus_store(bus, addr, value)
    }
}

#[derive(Debug)]
pub struct Memory {
    rom: MemorySection<ROM_BANK_SIZE>,
    switchable_rom: MemorySection<SWITCHABLE_ROM_BANK_SIZE>,
    vram: MemorySection<VRAM_SIZE>,
    switchable_ram: MemorySection<SWITCHABLE_RAM_BANK_SIZE>,
    internal_ram: MemorySection<INTERNAL_RAM_SIZE>,
    oam: MemorySection<OAM_SIZE>,
    io_ports: MemorySection<IO_PORTS_SIZE>,
    internal_ram_two: MemorySection<INTERNAL_RAM_TWO_SIZE>,
    interrupt_enable_register: u8,
}

impl View for Memory {
    type V = Seq<u8>;

    closed spec fn view(&self) -> Seq<u8> {
        Seq::new(ADDRESS_SPACE as nat, |addr: int| self.spec_read(addr as u16))
    }
}

impl Memory {
    /// The byte that a read at `addr` returns.
    pub closed spec fn spec_read(&self, addr: u16) -> u8 {
        match Bank::spec_from_addr(addr) {
            Some((Bank::Rom, offset)) => self.rom@[offset as int],
            Some((Bank::SwitchableRom, offset)) => self.switchable_rom@[offset as int],
            Some((Bank::Vram, offset)) => self.vram@[offset as int],
            Some((Bank::SwitchableRam, offset)) => self.switchable_ram@[offset as int],
            Some((Bank::InternalRam, offset)) => self.internal_ram@[offset as int],
            Some((Bank::InternalRamEcho, offset)) => self.internal_ram@[offset as int],
            Some((Bank::Oam, offset)) => self.oam@[offset as int],
            Some((Bank::Empty, _)) => 0xFF,
            Some((Bank::IOPorts, offset)) => self.io_ports@[offset as int],
            Some((Bank::InternalRamTwo, offset)) => self.internal_ram_two@[offset as int],
            None => self.interrupt_enable_register,
        }
    }

    /// The bytes of every memory form a valid bus.
    pub proof fn lemma_valid(&self)
        ensures
            bus_valid(self@),
    {
    }

    /// Reads the byte at `addr`. The prohibited region reads 0xFF, echo RAM
    /// reads as work RAM.
    pub fn get(&self, addr: u16) -> (byte: u8)
        ensures
            byte == self@[addr as int],
            is_prohibited(addr) ==> byte == 0xFF,
            is_echo(addr) ==> byte == self@[addr - 0x2000],
    {
        match Bank::from_addr(addr) {
            Some((bank, offset)) => match bank {
                Bank::Rom => self.rom.get(offset),
                Bank::SwitchableRom => self.switchable_rom.get(offset),
                Bank::Vram => self.vram.get(offset),
                Bank::SwitchableRam => self.switchable_ram.get(offset),
                Bank::InternalRam => self.internal_ram.get(offset),
                Bank::InternalRamEcho => self.internal_ram.get(offset),
                Bank::Oam => self.oam.get(offset),
                Bank::Empty => 0xFF,
                Bank::IOPorts => self.io_ports.get(offset),
                Bank::InternalRamTwo => self.internal_ram_two.get(offset),
            },
            None => self.interrupt_enable_register,
        }
    }

    /// Writes `value` at `addr` as the processor does. ROM and the
    /// prohibited region keep their bytes.
    #[verifier::rlimit(40)]
    pub fn put(&mut self, addr: u16, value: u8)
        ensures
            final(self)@ == bus_write(old(self)@, addr, value),
    {
        proof {
            self.rom.lemma_len();
            self.switchable_rom.lemma_len();
            self.vram.lemma_len();
            self.switchable_ram.lemma_len();
            self.internal_ram.lemma_len();
            self.oam.lemma_len();
            self.io_ports.lemma_len();
            self.internal_ram_two.lemma_len();
        }
        match Bank::from_addr(addr) {
            Some((bank, offset)) => match bank {
                Bank::Rom => {},
                Bank::SwitchableRom => {},
                Bank::Vram => self.vram.set(offset, value),
                Bank::SwitchableRam => self.switchable_ram.set(offset, value),
                Bank::InternalRam => self.internal_ram.set(offset, value),
                Bank::InternalRamEcho => self.internal_ram.set(offset, value),
                Bank::Oam => self.oam.set(offset, value),
                Bank::Empty => {},
                Bank::IOPorts => self.io_ports.set(offset, value),
                Bank::InternalRamTwo => self.internal_ram_two.set(offset, value),
            },
            None => {
                self.interrupt_enable_register = value;
            },
        }
        assert(self@ =~= bus_write(old(self)@, addr, value));
    }

    /// Stores `value` at `addr` as the cartridge does when it maps its
    /// contents: in ROM too, elsewhere as a write does.
    #[verifier::rlimit(40)]
    pub fn load(&mut self, addr: u16, value: u8)
        ensures
            final(self)@ == bus_store(old(self)@, addr, value),
    {
        proof {
            self.rom.lemma_len();
            self.switchable_rom.lemma_len();
        }
        match Bank::from_addr(addr) {
            Some((Bank::Rom, offset)) => {
                self.rom.set(offset, value);
                assert(self@ =~= bus_store(old(self)@, addr, value));
            },
            Some((Bank::SwitchableRom, offset)) => {
                self.switchable_rom.set(offset, value);
                assert(self@ =~= bus_store(old(self)@, addr, value));
            },
            _ => self.put(addr, value),
        }
    }
}

impl Default for Memory {
    fn default() -> (memory: Memory)
        ensures
            memory@ == bus_zero(),
    {
        let memory = Memory {
            rom: MemorySection::new(),
            switchable_rom: MemorySection::new(),
            vram: MemorySection::new(),
            switchable_ram: MemorySection::new(),
            internal_ram: MemorySection::new(),
            oam: MemorySection::new(),
            io_ports: MemorySection::new(),
            internal_ram_two: MemorySection::new(),
            interrupt_enable_register: 0,
        };
        assert(memory@ =~= bus_zero());
        memory
    }
}

/// A write never breaks the bus, and neither does a load.
pub proof fn lemma_write_keeps_valid(bus: Seq<u8>, addr: u16, value: u8)
    requires
        bus_valid(bus),
    ensures
        bus_valid(bus_write(bus, addr, value)),
        bus_valid(bus_store(bus, addr, value)),
{
}

/// The prohibited region reads 0xFF on every valid bus, whatever was
/// written before.
pub proof fn lemma_prohibited_reads(bus: Seq<u8>, addr: u16, written_at: u16, value: u8)
    requires
        bus_valid(bus),
        is_prohibited(addr),
    ensures
        bus[addr as int] == 0xFF,
        bus_write(bus, written_at, value)[addr as int] == 0xFF,
{
}

/// A byte written where the bus stores it is the byte read there next.
pub proof fn lemma_read_after_write(bus: Seq<u8>, addr: u16, value: u8)
    requires
        bus_valid(bus),
        is_writable(addr),
    ensures
        bus_write(bus, addr, value)[addr as int] == value,
{
}

/// A byte written to work RAM below 0xDE00 is read 0x2000 above it in echo
/// RAM, and a byte written to echo RAM is read 0x2000 below it in work RAM.
pub proof fn lemma_echo_mirror(bus: Seq<u8>, addr: u16, value: u8)
    requires
        bus_valid(bus),
    ensures
        is_mirrored_work_ram(addr) ==> bus_write(bus, addr, value)[addr + 0x2000] == value,
        is_echo(addr) ==> bus_write(bus, addr, value)[addr - 0x2000] == value,
{
}

/// A write changes the byte at its address and at the mirror image of it,
/// and no other.
pub proof fn lemma_write_frame(bus: Seq<u8>, addr: u16, value: u8, other: u16)
    requires
        bus_valid(bus),
        other != addr,
        !(is_mirrored_work_ram(addr) && other == addr + 0x2000),
        !(is_echo(addr) && other == addr - 0x2000),
    ensures
        bus_write(bus, addr, value)[other as int] == bus[other as int],
{
}

} // verus!
