use yeahboy::cpu::Cpu;
use yeahboy::debugger::instructions::InstructionsWidget;
use yeahboy::debugger::meta::{cart_type_name, ram_size_name, rom_banks, MetadataWidget};
use yeahboy::instructions::{IAction, IFlag, ILocation};
use yeahboy::mmu::Mmu;

fn rom_with_header(title: &[u8]) -> Vec<u8> {
    let mut rom = vec![0u8; 0x8000];
    rom[0x0134..0x0134 + title.len()].copy_from_slice(title);
    rom[0x0144] = 0x30;
    rom[0x0145] = 0x31;
    rom[0x0147] = 0x03;
    rom[0x0148] = 0x02;
    rom[0x0149] = 0x01;
    rom
}

#[test]
fn header_fields() {
    let widget = MetadataWidget::new(&Mmu::new(rom_with_header(b"TETRIS")));
    assert_eq!(widget.title(), "TETRIS");
    assert_eq!(widget.licensee(), 0x3031);
    assert_eq!(widget.cart_type(), 0x03);
    assert_eq!(widget.rom_size(), 0x02);
    assert_eq!(widget.ram_size(), 0x01);
}

#[test]
fn title_ends_at_the_first_zero_byte() {
    let widget = MetadataWidget::new(&Mmu::new(rom_with_header(b"AB\0CD")));
    assert_eq!(widget.title(), "AB");
    let widget = MetadataWidget::new(&Mmu::new(rom_with_header(b"")));
    assert_eq!(widget.title(), "");
}

#[test]
fn title_fills_its_field_at_most() {
    let mut rom = rom_with_header(b"ABCDEFGHIJKLMNO");
    rom[0x0143] = b'P';
    let widget = MetadataWidget::new(&Mmu::new(rom));
    assert_eq!(widget.title(), "ABCDEFGHIJKLMNO");
}

#[test]
fn title_bytes_are_characters() {
    let widget = MetadataWidget::new(&Mmu::new(rom_with_header(&[0x41, 0xE9, 0x7F])));
    let expected: String = ['A', '\u{e9}', '\u{7f}'].iter().collect();
    assert_eq!(widget.title(), &expected);
}

#[test]
fn listing_follows_the_instruction_lengths() {
    let mut rom = vec![0u8; 0x8000];
    rom[0x0100] = 0xC3;
    rom[0x0101] = 0x34;
    rom[0x0102] = 0x12;
    rom[0x0103] = 0x06;
    rom[0x0104] = 0x99;
    let cpu = Cpu::new(rom);
    let widget = InstructionsWidget::new(&cpu);
    let rows = widget.rows();
    assert_eq!(rows.len(), 0x8000 - 0x0100 - 3);
    assert_eq!(rows[0].address, 0x0100);
    assert_eq!(rows[0].instruction.action(), IAction::JP(IFlag::TRUE, ILocation::ImmediateWord));
    assert_eq!(rows[0].instruction.raw_bytes(), &vec![0xC3, 0x34, 0x12]);
    assert_eq!(rows[1].address, 0x0103);
    assert_eq!(rows[1].instruction.raw_bytes(), &vec![0x06, 0x99]);
    assert_eq!(rows[2].address, 0x0105);
    assert_eq!(rows[rows.len() - 1].address, 0x7FFF);
    assert_eq!(widget.index_of(0x0100), Some(0));
    assert_eq!(widget.index_of(0x0101), None);
    assert_eq!(widget.index_of(0x0102), None);
    assert_eq!(widget.index_of(0x0103), Some(1));
    assert_eq!(widget.index_of(0x0105), Some(2));
    assert_eq!(widget.index_of(0x7FFF), Some(rows.len() - 1));
    assert_eq!(widget.index_of(0x8000), None);
    assert_eq!(widget.index_of(0x00FF), None);
}

#[test]
fn listing_may_end_behind_the_cartridge() {
    let mut rom = vec![0u8; 0x8000];
    rom[0x7FFF] = 0xC3;
    let cpu = Cpu::new(rom);
    let widget = InstructionsWidget::new(&cpu);
    let rows = widget.rows();
    let last = &rows[rows.len() - 1];
    assert_eq!(last.address, 0x7FFF);
    assert_eq!(last.instruction.len(), 3);
    assert_eq!(last.instruction.raw_bytes(), &vec![0xC3, 0x00, 0x00]);
}

#[test]
fn listing_starts_at_the_program_counter() {
    // JP 0x7FFE
    let mut rom = vec![0u8; 0x8000];
    rom[0x0100] = 0xC3;
    rom[0x0101] = 0xFE;
    rom[0x0102] = 0x7F;
    let mut cpu = Cpu::new(rom);
    assert_eq!(cpu.step(), Ok(()));
    let widget = InstructionsWidget::new(&cpu);
    assert_eq!(widget.rows().len(), 2);
    assert_eq!(widget.index_of(0x7FFE), Some(0));
    assert_eq!(widget.index_of(0x7FFF), Some(1));
    assert_eq!(widget.index_of(0x0100), None);
}

#[test]
fn listing_is_empty_behind_the_cartridge() {
    // JP 0x8000
    let mut rom = vec![0u8; 0x8000];
    rom[0x0100] = 0xC3;
    rom[0x0101] = 0x00;
    rom[0x0102] = 0x80;
    let mut cpu = Cpu::new(rom);
    assert_eq!(cpu.step(), Ok(()));
    let widget = InstructionsWidget::new(&cpu);
    assert_eq!(widget.rows().len(), 0);
    assert_eq!(widget.index_of(0x8000), None);
}

#[test]
fn names_of_cartridge_types() {
    assert_eq!(cart_type_name(0), Some(String::from("ROM")));
    for t in 1..=3u8 {
        assert_eq!(cart_type_name(t), Some(String::from("ROM+MBC1")));
    }
    assert_eq!(cart_type_name(4), None);
    assert_eq!(cart_type_name(5), Some(String::from("ROM+MBC2")));
    assert_eq!(cart_type_name(6), Some(String::from("ROM+MBC2")));
    for t in 7..=255u8 {
        assert_eq!(cart_type_name(t), None);
    }
}

#[test]
fn rom_banks_double_with_the_size() {
    let counts = [2u8, 4, 8, 16, 32, 64, 128];
    for (size, count) in counts.iter().enumerate() {
        assert_eq!(rom_banks(size as u8), Some(*count));
    }
    for size in 7..=255u8 {
        assert_eq!(rom_banks(size), None);
    }
}

#[test]
fn names_of_ram_sizes() {
    assert_eq!(ram_size_name(0), "None");
    assert_eq!(ram_size_name(1), "1 bank");
    assert_eq!(ram_size_name(2), "1 bank");
    assert_eq!(ram_size_name(3), "4 banks");
    assert_eq!(ram_size_name(4), "16 banks");
    for size in 5..=255u8 {
        assert_eq!(ram_size_name(size), "<INVALID>");
    }
}
