//! The memory management unit: six backing stores behind one 64K address
//! space.

use vstd::prelude::*;
use crate::bits::{high_byte, low_byte, pack, pack_u16, unpack_u16};

verus! {

/// The parts of the address space.
pub enum Region {
    /// 0x0000-0x7FFF: cartridge ROM.
    Cartridge,
    /// 0x8000-0x9FFF: video RAM.
    Video,
    /// 0xA000-0xBFFF: cartridge RAM.
    External,
    /// 0xC000-0xDFFF: working RAM, and its mirror at 0xE000-0xFDFF.
    Working,
    /// 0xFE00-0xFE9F: object attribute memory.
    Object,
    /// 0xFEA0-0xFEFF: nothing.
    Unmapped,
    /// 0xFF00-0xFFFF: zero-page and I/O RAM.
    ZeroPage,
}

/// The number of addresses.
pub open spec fn address_space() -> nat {
    0x10000
}

/// The region that `addr` falls in.
pub open spec fn region_of(addr: int) -> Region {
    if addr < 0x8000 {
        Region::Cartridge
    } else if addr < 0xA000 {
        Region::Video
    } else if addr < 0xC000 {
        Region::External
    } else if addr < 0xFE00 {
        Region::Working
    } else if addr < 0xFEA0 {
        Region::Object
    } else if addr < 0xFF00 {
        Region::Unmapped
    } else {
        Region::ZeroPage
    }
}

/// The place of `addr` in the store of its region.
pub open spec fn offset_of(addr: int) -> int {
    if addr < 0x8000 {
        addr
    } else if addr < 0xA000 {
        addr - 0x8000
    } else if addr < 0xC000 {
        addr - 0xA000
    } else if addr < 0xE000 {
        addr - 0xC000
    } else if addr < 0xFE00 {
        addr - 0xE000
    } else if addr < 0xFF00 {
        addr - 0xFE00
    } else {
        addr - 0xFF00
    }
}

/// Two addresses name one byte of storage.
pub open spec fn same_cell(a: int, b: int) -> bool {
    region_of(a) == region_of(b) && offset_of(a) == offset_of(b)
}

/// The address after `addr`; the one after the last is the first.
pub open spec fn next_address(addr: u16) -> u16 {
    if addr == 0xFFFF {
        0
    } else {
        (addr + 1) as u16
    }
}

/// What every reading of the address space looks like: 64K bytes, zero in
/// the unmapped part, and the mirror equal to working RAM.
pub open spec fn valid_memory(mem: Seq<u8>) -> bool {
    &&& mem.len() == address_space()
    &&& forall|a: int| 0xFEA0 <= a < 0xFF00 ==> mem[a] == 0
    &&& forall|a: int| 0xE000 <= a < 0xFE00 ==> mem[a] == #[trigger] mem[a - 0x2000]
}

/// The memory after `value` is written to `addr`: every address of the same
/// cell reads `value`, every other address is unchanged, and a write to the
/// unmapped part is dropped.
pub open spec fn write_byte(mem: Seq<u8>, addr: u16, value: u8) -> Seq<u8> {
    if region_of(addr as int) is Unmapped {
        mem
    } else {
        Seq::new(
            mem.len(),
            |b: int|
                if same_cell(b, addr as int) {
                    value
                } else {
                    mem[b]
                },
        )
    }
}

/// The word at `addr`: low byte first.
pub open spec fn read_word(mem: Seq<u8>, addr: u16) -> u16 {
    pack(mem[next_address(addr) as int], mem[addr as int])
}

/// The memory after `value` is written to `addr`: low byte first.
pub open spec fn write_word(mem: Seq<u8>, addr: u16, value: u16) -> Seq<u8> {
    write_byte(write_byte(mem, addr, low_byte(value)), next_address(addr), high_byte(value))
}

/// The value of the I/O register at `addr` after power-on.
pub open spec fn io_reset_value(addr: int) -> u8 {
    if addr == 0xFF10 {
        0x80
    } else if addr == 0xFF11 || addr == 0xFF14 || addr == 0xFF19 || addr == 0xFF1E || addr
        == 0xFF23 {
        0xBF
    } else if addr == 0xFF12 || addr == 0xFF25 {
        0xF3
    } else if addr == 0xFF16 {
        0x3F
    } else if addr == 0xFF1A {
        0x7F
    } else if addr == 0xFF1B || addr == 0xFF20 || addr == 0xFF48 || addr == 0xFF49 {
        0xFF
    } else if addr == 0xFF1C {
        0x9F
    } else if addr == 0xFF24 {
        0x77
    } else if addr == 0xFF26 {
        0xF1
    } else if addr == 0xFF40 {
        0x91
    } else if addr == 0xFF47 {
        0xFC
    } else {
        0
    }
}

/// The memory at power-on over the cartridge `rom`: the first 32K of the
/// cartridge, with zeroes where it is shorter, the I/O registers at their
/// reset values, and zeroes elsewhere.
pub open spec fn power_on(rom: Seq<u8>) -> Seq<u8> {
    Seq::new(
        address_space(),
        |a: int|
            if a < 0x8000 {
                if a < rom.len() {
                    rom[a]
                } else {
                    0
                }
            } else if a >= 0xFF00 {
                io_reset_value(a)
            } else {
                0
            },
    )
}

/// A write is read back at its own address, but for the unmapped part,
/// which reads zero whatever was written.
pub proof fn lemma_write_then_read(mem: Seq<u8>, addr: u16, value: u8)
    requires
        valid_memory(mem),
    ensures
        write_byte(mem, addr, value)[addr as int] == (if 0xFEA0 <= addr <= 0xFEFF {
            0
        } else {
            value
        }),
{
}

/// A write to working RAM is read back 0x2000 above it where the mirror
/// reaches, that is up to 0xDDFF; above that the byte 0x2000 higher is in
/// another region and keeps its value.
pub proof fn lemma_write_mirrored(mem: Seq<u8>, addr: u16, value: u8)
    requires
        valid_memory(mem),
        0xC000 <= addr <= 0xDFFF,
    ensures
        write_byte(mem, addr, value)[addr + 0x2000] == (if addr <= 0xDDFF {
            value
        } else {
            mem[addr + 0x2000]
        }),
{
}

/// A write through the mirror is read back in working RAM.
pub proof fn lemma_write_through_mirror(mem: Seq<u8>, addr: u16, value: u8)
    requires
        valid_memory(mem),
        0xE000 <= addr <= 0xFDFF,
    ensures
        write_byte(mem, addr, value)[addr - 0x2000] == value,
{
}

/// A write changes no address outside the cell it is made to.
pub proof fn lemma_write_elsewhere(mem: Seq<u8>, addr: u16, value: u8, other: u16)
    requires
        valid_memory(mem),
        !same_cell(addr as int, other as int),
    ensures
        write_byte(mem, addr, value)[other as int] == mem[other as int],
{
}

/// Writing keeps a memory valid.
pub proof fn lemma_write_valid(mem: Seq<u8>, addr: u16, value: u8)
    requires
        valid_memory(mem),
    ensures
        valid_memory(write_byte(mem, addr, value)),
{
    let after = write_byte(mem, addr, value);
    assert forall|a: int| 0xE000 <= a < 0xFE00 implies after[a] == #[trigger] after[a - 0x2000] by {
        assert(mem[a] == mem[a - 0x2000]);
    }
}

/// Writing a word keeps a memory valid.
pub proof fn lemma_write_word_valid(mem: Seq<u8>, addr: u16, value: u16)
    requires
        valid_memory(mem),
    ensures
        valid_memory(write_word(mem, addr, value)),
{
    lemma_write_valid(mem, addr, low_byte(value));
    lemma_write_valid(write_byte(mem, addr, low_byte(value)), next_address(addr), high_byte(value));
}

/// The memory at power-on is valid.
pub proof fn lemma_power_on_valid(rom: Seq<u8>)
    ensures
        valid_memory(power_on(rom)),
{
}

/// Writing to an address what it reads changes nothing.
pub proof fn lemma_write_back(mem: Seq<u8>, addr: u16)
    requires
        valid_memory(mem),
    ensures
        write_byte(mem, addr, mem[addr as int]) == mem,
{
    let after = write_byte(mem, addr, mem[addr as int]);
    assert forall|b: int| 0 <= b < mem.len() implies after[b] == mem[b] by {
        if same_cell(b, addr as int) && b != addr {
            if b >= 0xE000 {
                assert(mem[b] == mem[b - 0x2000]);
            } else {
                assert(mem[b + 0x2000] == mem[b + 0x2000 - 0x2000]);
            }
        }
    }
    assert(after =~= mem);
}

/// The memory management unit.
pub struct Mmu {
    /// Cartridge ROM
    cart: Vec<u8>,
    /// Video RAM
    vram: Vec<u8>,
    /// Cartridge (external) RAM
    cart_ram: Vec<u8>,
    /// Working (internal) RAM
    ram: Vec<u8>,
    /// Object attribute memory
    oam: Vec<u8>,
    /// Zero-page RAM
    zpram: Vec<u8>,
}

impl View for Mmu {
    type V = Seq<u8>;

    /// What a read returns at each of the 64K addresses.
    closed spec fn view(&self) -> Seq<u8> {
        Seq::new(address_space(), |a: int| self.byte_at(a))
    }
}

impl Mmu {
    #[verifier::type_invariant]
    spec fn stores_sized(self) -> bool {
        &&& self.cart.len() >= 0x8000
        &&& self.vram.len() == 0x2000
        &&& self.cart_ram.len() == 0x2000
        &&& self.ram.len() == 0x2000
        &&& self.oam.len() == 0x100
        &&& self.zpram.len() == 0x100
    }

    spec fn byte_at(self, addr: int) -> u8 {
        match region_of(addr) {
            Region::Cartridge => self.cart[offset_of(addr)],
            Region::Video => self.vram[offset_of(addr)],
            Region::External => self.cart_ram[offset_of(addr)],
            Region::Working => self.ram[offset_of(addr)],
            Region::Object => self.oam[offset_of(addr)],
            Region::Unmapped => 0,
            Region::ZeroPage => self.zpram[offset_of(addr)],
        }
    }

    /// The view of a unit is a valid memory.
    pub proof fn lemma_view_valid(self)
        ensures
            valid_memory(self@),
    {
    }

    /// A unit over the cartridge `cart`, with the I/O registers at their
    /// reset values. A cartridge of less than 32K is filled up with zeroes.
    pub fn new(cart: Vec<u8>) -> (mmu: Mmu)
        ensures
            mmu@ == power_on(cart@),
    {
        let ghost rom = cart@;
        let mut cart = cart;
        while cart.len() < 0x8000
            invariant
                rom.len() <= cart.len(),
                forall|a: int| 0 <= a < rom.len() ==> cart[a] == rom[a],
                forall|a: int| rom.len() <= a < cart.len() ==> cart[a] == 0,
            decreases 0x8000 - cart.len(),
        {
            cart.push(0);
        }
        let mut mmu = Mmu {
            cart,
            vram: vec![0; 0x2000],
            cart_ram: vec![0; 0x2000],
            ram: vec![0; 0x2000],
            oam: vec![0; 0x100],
            zpram: vec![0; 0x100],
        };
        let ghost blank = mmu@;
        assert forall|a: int| 0 <= a < 0x10000 implies #[trigger] blank[a] == (if a < 0x8000 {
            if a < rom.len() {
                rom[a]
            } else {
                0
            }
        } else {
            0
        }) by {}

        mmu.wb(0xFF05, 0x00);
        mmu.wb(0xFF06, 0x00);
        mmu.wb(0xFF07, 0x00);
        mmu.wb(0xFF10, 0x80);
        mmu.wb(0xFF11, 0xBF);
        mmu.wb(0xFF12, 0xF3);
        mmu.wb(0xFF14, 0xBF);
        mmu.wb(0xFF16, 0x3F);
        mmu.wb(0xFF17, 0x00);
        mmu.wb(0xFF19, 0xBF);
        mmu.wb(0xFF1A, 0x7F);
        mmu.wb(0xFF1B, 0xFF);
        mmu.wb(0xFF1C, 0x9F);
        mmu.wb(0xFF1E, 0xBF);
        mmu.wb(0xFF20, 0xFF);
        mmu.wb(0xFF21, 0x00);
        mmu.wb(0xFF22, 0x00);
        mmu.wb(0xFF23, 0xBF);
        mmu.wb(0xFF24, 0x77);
        mmu.wb(0xFF25, 0xF3);
        mmu.wb(0xFF26, 0xF1);
        mmu.wb(0xFF40, 0x91);
        mmu.wb(0xFF42, 0x00);
        mmu.wb(0xFF43, 0x00);
        mmu.wb(0xFF45, 0x00);
        mmu.wb(0xFF47, 0xFC);
        mmu.wb(0xFF48, 0xFF);
        mmu.wb(0xFF49, 0xFF);
        mmu.wb(0xFF4A, 0x00);
        mmu.wb(0xFF4B, 0x00);
        mmu.wb(0xFFFF, 0x00);

        assert(mmu@ =~= power_on(rom));
        mmu
    }

    /// Writes `value` at `addr`. A write to the unmapped part is dropped.
    pub fn wb(&mut self, addr: u16, value: u8)
        ensures
            final(self)@ == write_byte(old(self)@, addr, value),
    {
        proof {
            use_type_invariant(&*self);
        }
        match addr {
            0x0000..=0x7FFF => self.cart[addr as usize] = value,
            0x8000..=0x9FFF => self.vram[(addr - 0x8000) as usize] = value,
            0xA000..=0xBFFF => self.cart_ram[(addr - 0xA000) as usize] = value,
            0xC000..=0xDFFF => self.ram[(addr - 0xC000) as usize] = value,
            0xE000..=0xFDFF => self.ram[(addr - 0xE000) as usize] = value,
            0xFE00..=0xFE9F => self.oam[(addr - 0xFE00) as usize] = value,
            0xFEA0..=0xFEFF => (),
            0xFF00..=0xFFFF => self.zpram[(addr - 0xFF00) as usize] = value,
        }
        assert(self@ =~= write_byte(old(self)@, addr, value));
    }

    /// Writes `value` at `addr`, low byte first. The high byte of a word at
    /// the last address goes to the first.
    pub fn ww(&mut self, addr: u16, value: u16)
        ensures
            final(self)@ == write_word(old(self)@, addr, value),
    {
        let (high, low) = unpack_u16(value);
        self.wb(addr, low);
        self.wb(addr.wrapping_add(1), high);
    }

    /// The byte at `addr`. The unmapped part reads zero.
    pub fn rb(&self, addr: u16) -> (value: u8)
        ensures
            value == self@[addr as int],
    {
        proof {
            use_type_invariant(self);
        }
        match addr {
            0x0000..=0x7FFF => self.cart[addr as usize],
            0x8000..=0x9FFF => self.vram[(addr - 0x8000) as usize],
            0xA000..=0xBFFF => self.cart_ram[(addr - 0xA000) as usize],
            0xC000..=0xDFFF => self.ram[(addr - 0xC000) as usize],
            0xE000..=0xFDFF => self.ram[(addr - 0xE000) as usize],
            0xFE00..=0xFE9F => self.oam[(addr - 0xFE00) as usize],
            0xFEA0..=0xFEFF => 0,
            0xFF00..=0xFFFF => self.zpram[(addr - 0xFF00) as usize],
        }
    }

    /// The word at `addr`, low byte first. The high byte of a word at the
    /// last address comes from the first.
    pub fn rw(&self, addr: u16) -> (value: u16)
        ensures
            value == read_word(self@, addr),
    {
        pack_u16(self.rb(addr.wrapping_add(1)), self.rb(addr))
    }
}

} // verus!
