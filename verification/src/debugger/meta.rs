//! The header of the cartridge.

use vstd::arithmetic::power2::{lemma2_to64, pow2};
use vstd::prelude::*;
use vstd::string::StringExecFns;
use crate::bits::{pack, pack_u16};
use crate::mmu::Mmu;

verus! {

/// The first address of the title.
pub const TITLE_START: u16 = 0x0134;

/// The last address of the title.
pub const TITLE_END: u16 = 0x0142;

/// What the header of a cartridge says.
pub struct Header {
    pub title: Seq<char>,
    pub licensee: u16,
    pub cart_type: u8,
    pub rom_size: u8,
    pub ram_size: u8,
}

/// The number of title characters from `from` on: up to the first zero byte,
/// and to the end of the title field at most.
pub open spec fn title_length(mem: Seq<u8>, from: int) -> nat
    decreases TITLE_END + 1 - from,
{
    if from > TITLE_END || mem[from] == 0 {
        0
    } else {
        1 + title_length(mem, from + 1)
    }
}

/// The header that `mem` holds: the title at 0x0134-0x0142, cut at its first
/// zero byte, each byte a character; the licensee code at 0x0144 (high byte)
/// and 0x0145; the cartridge type at 0x0147, the ROM size at 0x0148 and the
/// RAM size at 0x0149.
pub open spec fn header_of(mem: Seq<u8>) -> Header {
    Header {
        title: Seq::new(
            title_length(mem, TITLE_START as int),
            |i: int| mem[TITLE_START + i] as char,
        ),
        licensee: pack(mem[0x0144], mem[0x0145]),
        cart_type: mem[0x0147],
        rom_size: mem[0x0148],
        ram_size: mem[0x0149],
    }
}

/// The name of the cartridge type that the header byte stands for, where
/// it has one here: 0 is a plain ROM, 1 to 3 a ROM with the first kind of
/// bank controller, 5 and 6 one with the second.
pub open spec fn cart_type_text(cart_type: u8) -> Option<Seq<char>> {
    if cart_type == 0 {
        Some("ROM"@)
    } else if 1 <= cart_type <= 3 {
        Some("ROM+MBC1"@)
    } else if 5 <= cart_type <= 6 {
        Some("ROM+MBC2"@)
    } else {
        None
    }
}

/// The number of ROM banks that the header byte stands for: two to the
/// power of the byte plus one, where that fits in a byte.
pub open spec fn rom_bank_count(rom_size: u8) -> Option<u8> {
    if rom_size <= 6 {
        Some(pow2((rom_size + 1) as nat) as u8)
    } else {
        None
    }
}

/// What the header byte says of the cartridge RAM.
pub open spec fn ram_size_text(ram_size: u8) -> Seq<char> {
    if ram_size == 0 {
        "None"@
    } else if ram_size == 1 || ram_size == 2 {
        "1 bank"@
    } else if ram_size == 3 {
        "4 banks"@
    } else if ram_size == 4 {
        "16 banks"@
    } else {
        "<INVALID>"@
    }
}

/// The name of a cartridge type, or nothing where the type has none.
pub fn cart_type_name(cart_type: u8) -> (name: Option<String>)
    ensures
        name is Some <==> cart_type_text(cart_type) is Some,
        name matches Some(s) ==> cart_type_text(cart_type) == Some(s@),
{
    match cart_type {
        0 => Some(String::from_str("ROM")),
        1..=3 => Some(String::from_str("ROM+MBC1")),
        5..=6 => Some(String::from_str("ROM+MBC2")),
        _ => None,
    }
}

/// The number of ROM banks, or nothing where it does not fit in a byte.
pub fn rom_banks(rom_size: u8) -> (banks: Option<u8>)
    ensures
        banks == rom_bank_count(rom_size),
{
    if rom_size > 6 {
        return None;
    }
    let mut banks: u8 = 1;
    let mut doubled: u8 = 0;
    proof {
        lemma2_to64();
    }
    while doubled <= rom_size
        invariant
            rom_size <= 6,
            doubled <= rom_size + 1,
            banks == pow2(doubled as nat),
        decreases rom_size + 1 - doubled,
    {
        proof {
            lemma2_to64();
        }
        banks = banks * 2;
        doubled = doubled + 1;
    }
    Some(banks)
}

/// What a RAM size byte says, in words.
pub fn ram_size_name(ram_size: u8) -> (name: String)
    ensures
        name@ == ram_size_text(ram_size),
{
    String::from_str(
        match ram_size {
            0 => "None",
            1 | 2 => "1 bank",
            3 => "4 banks",
            4 => "16 banks",
            _ => "<INVALID>",
        },
    )
}

/// `String::push` of std: the string gets `c` as its new last character.
#[verifier::external_body]
fn push_char(s: &mut String, c: char)
    ensures
        final(s)@ == old(s)@.push(c),
{
    s.push(c)
}

/// The header of the cartridge, as the inspector shows it.
pub struct MetadataWidget {
    title: String,
    licensee: u16,
    cart_type: u8,
    rom_size: u8,
    ram_size: u8,
}

impl View for MetadataWidget {
    type V = Header;

    closed spec fn view(&self) -> Header {
        Header {
            title: self.title@,
            licensee: self.licensee,
            cart_type: self.cart_type,
            rom_size: self.rom_size,
            ram_size: self.ram_size,
        }
    }
}

impl MetadataWidget {
    /// Reads the header from memory.
    pub fn new(mmu: &Mmu) -> (widget: MetadataWidget)
        ensures
            widget@ == header_of(mmu@),
    {
        let mut title = String::new();
        let mut addr: u16 = TITLE_START;
        while addr <= TITLE_END
            invariant
                TITLE_START <= addr <= TITLE_END + 1,
                title@.len() == addr - TITLE_START,
                forall|i: int| 0 <= i < title@.len() ==> title@[i] == mmu@[TITLE_START + i] as char,
                title_length(mmu@, TITLE_START as int) == title@.len() + title_length(
                    mmu@,
                    addr as int,
                ),
            ensures
                title@.len() == title_length(mmu@, TITLE_START as int),
                forall|i: int| 0 <= i < title@.len() ==> title@[i] == mmu@[TITLE_START + i] as char,
            decreases TITLE_END + 1 - addr,
        {
            let byte = mmu.rb(addr);
            if byte == 0 {
                break ;
            }
            push_char(&mut title, byte as char);
            addr = addr + 1;
        }
        let licensee = pack_u16(mmu.rb(0x0144), mmu.rb(0x0145));
        let cart_type = mmu.rb(0x0147);
        let rom_size = mmu.rb(0x0148);
        let ram_size = mmu.rb(0x0149);

        let widget = MetadataWidget { title, licensee, cart_type, rom_size, ram_size };
        assert(widget@.title =~= header_of(mmu@).title);
        widget
    }

    pub fn title(&self) -> (title: &String)
        ensures
            title@ == self@.title,
    {
        &self.title
    }

    pub fn licensee(&self) -> (licensee: u16)
        ensures
            licensee == self@.licensee,
    {
        self.licensee
    }

    pub fn cart_type(&self) -> (cart_type: u8)
        ensures
            cart_type == self@.cart_type,
    {
        self.cart_type
    }

    pub fn rom_size(&self) -> (rom_size: u8)
        ensures
            rom_size == self@.rom_size,
    {
        self.rom_size
    }

    pub fn ram_size(&self) -> (ram_size: u8)
        ensures
            ram_size == self@.ram_size,
    {
        self.ram_size
    }
}

} // verus!
