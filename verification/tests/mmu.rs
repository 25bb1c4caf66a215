use yeahboy::mmu::Mmu;

#[test]
fn read_write_bytes() {
    let mut mmu = Mmu::new(vec![0; 0x8000]);

    let addr = 0x1234;

    assert!(mmu.rb(addr) == 0);

    mmu.wb(addr, 0x67);
    assert!(mmu.rb(addr) == 0x67);

    mmu.wb(addr + 1, 0x79);
    assert!(mmu.rb(addr + 1) == 0x79);
    assert!(mmu.rw(addr) == 0x7967);

    mmu.ww(addr, 0x5248);
    assert!(mmu.rb(addr) == 0x48);
    assert!(mmu.rb(addr + 1) == 0x52);
    assert!(mmu.rw(addr) == 0x5248);
}

#[test]
fn word_reads_low_byte_first() {
    let mut mmu = Mmu::new(vec![0; 0x8000]);
    mmu.wb(0x1234, 0x67);
    mmu.wb(0x1235, 0x79);
    assert_eq!(mmu.rw(0x1234), 0x7967);
}

#[test]
fn every_mapped_address_reads_what_was_written() {
    let mut mmu = Mmu::new(vec![0; 0x8000]);
    for a in 0..=0xFFFFu16 {
        let v = (a as u8) ^ 0x5A;
        mmu.wb(a, v);
        if (0xFEA0..=0xFEFF).contains(&a) {
            assert_eq!(mmu.rb(a), 0);
        } else {
            assert_eq!(mmu.rb(a), v);
        }
    }
}

#[test]
fn unmapped_reads_zero_whatever_was_written() {
    let mut mmu = Mmu::new(vec![0xFF; 0x8000]);
    for a in 0xFEA0..=0xFEFFu16 {
        assert_eq!(mmu.rb(a), 0);
        mmu.wb(a, 0xAB);
        assert_eq!(mmu.rb(a), 0);
    }
    assert_eq!(mmu.rb(0xFE9F), 0);
    mmu.wb(0xFE9F, 0xAB);
    assert_eq!(mmu.rb(0xFE9F), 0xAB);
}

#[test]
fn working_ram_is_mirrored() {
    let mut mmu = Mmu::new(vec![0; 0x8000]);
    for a in 0xC000..=0xDDFFu16 {
        let v = (a as u8).wrapping_add(1);
        mmu.wb(a, v);
        assert_eq!(mmu.rb(a + 0x2000), v);
    }
    for a in 0xE000..=0xFDFFu16 {
        let v = (a as u8).wrapping_add(7);
        mmu.wb(a, v);
        assert_eq!(mmu.rb(a - 0x2000), v);
    }
}

#[test]
fn the_top_of_working_ram_has_no_mirror() {
    let mut mmu = Mmu::new(vec![0; 0x8000]);
    mmu.wb(0xFE00, 0x11);
    mmu.wb(0xFF80, 0x22);
    mmu.wb(0xDE00, 0x33);
    mmu.wb(0xDF80, 0x44);
    mmu.wb(0xDEA0, 0x55);
    assert_eq!(mmu.rb(0xDE00), 0x33);
    assert_eq!(mmu.rb(0xFE00), 0x11);
    assert_eq!(mmu.rb(0xFF80), 0x22);
    assert_eq!(mmu.rb(0xFEA0), 0);
}

#[test]
fn a_write_stays_in_its_region() {
    let mut mmu = Mmu::new(vec![0; 0x8000]);
    let edges = [
        0x0000u16, 0x7FFF, 0x8000, 0x9FFF, 0xA000, 0xBFFF, 0xC000, 0xDFFF, 0xFE00, 0xFE9F,
        0xFF00, 0xFFFE,
    ];
    for (i, a) in edges.iter().enumerate() {
        mmu.wb(*a, 0x10 + i as u8);
    }
    for (i, a) in edges.iter().enumerate() {
        assert_eq!(mmu.rb(*a), 0x10 + i as u8);
    }
}

#[test]
fn word_at_the_last_address_wraps() {
    let mut mmu = Mmu::new(vec![0; 0x8000]);
    mmu.ww(0xFFFF, 0xABCD);
    assert_eq!(mmu.rb(0xFFFF), 0xCD);
    assert_eq!(mmu.rb(0x0000), 0xAB);
    assert_eq!(mmu.rw(0xFFFF), 0xABCD);
}

#[test]
fn io_registers_at_power_on() {
    let mmu = Mmu::new(vec![0; 0x8000]);
    let seeded = [
        (0xFF05u16, 0x00u8),
        (0xFF06, 0x00),
        (0xFF07, 0x00),
        (0xFF10, 0x80),
        (0xFF11, 0xBF),
        (0xFF12, 0xF3),
        (0xFF14, 0xBF),
        (0xFF16, 0x3F),
        (0xFF17, 0x00),
        (0xFF19, 0xBF),
        (0xFF1A, 0x7F),
        (0xFF1B, 0xFF),
        (0xFF1C, 0x9F),
        (0xFF1E, 0xBF),
        (0xFF20, 0xFF),
        (0xFF21, 0x00),
        (0xFF22, 0x00),
        (0xFF23, 0xBF),
        (0xFF24, 0x77),
        (0xFF25, 0xF3),
        (0xFF26, 0xF1),
        (0xFF40, 0x91),
        (0xFF42, 0x00),
        (0xFF43, 0x00),
        (0xFF45, 0x00),
        (0xFF47, 0xFC),
        (0xFF48, 0xFF),
        (0xFF49, 0xFF),
        (0xFF4A, 0x00),
        (0xFF4B, 0x00),
        (0xFFFF, 0x00),
    ];
    for (a, v) in seeded {
        assert_eq!(mmu.rb(a), v);
    }
    let mut others = 0u32;
    for a in 0x8000..=0xFFFFu16 {
        if !seeded.iter().any(|(s, _)| *s == a) {
            assert_eq!(mmu.rb(a), 0);
            others += 1;
        }
    }
    assert_eq!(others, 0x8000 - 31);
}

#[test]
fn cartridge_is_read_at_its_addresses() {
    let mut rom = vec![0u8; 0x8000];
    for (i, b) in rom.iter_mut().enumerate() {
        *b = (i % 251) as u8;
    }
    let mmu = Mmu::new(rom);
    assert_eq!(mmu.rb(0x0000), 0);
    assert_eq!(mmu.rb(0x0100), (0x0100 % 251) as u8);
    assert_eq!(mmu.rb(0x7FFF), (0x7FFF % 251) as u8);
    assert_eq!(mmu.rb(0x8000), 0);
}

#[test]
fn short_cartridge_is_filled_with_zeroes() {
    let mut mmu = Mmu::new(vec![0xAA, 0xBB, 0xCC]);
    assert_eq!(mmu.rb(0), 0xAA);
    assert_eq!(mmu.rb(2), 0xCC);
    assert_eq!(mmu.rb(3), 0);
    assert_eq!(mmu.rb(0x7FFF), 0);
    mmu.wb(0x7FFF, 9);
    assert_eq!(mmu.rb(0x7FFF), 9);
    let empty = Mmu::new(Vec::new());
    assert_eq!(empty.rb(0x0000), 0);
    assert_eq!(empty.rb(0xFF10), 0x80);
}

#[test]
fn long_cartridge_shows_its_first_32k() {
    let mut rom = vec![0x11u8; 0x10000];
    rom[0x7FFF] = 0x22;
    rom[0x8000] = 0x33;
    let mmu = Mmu::new(rom);
    assert_eq!(mmu.rb(0x7FFF), 0x22);
    assert_eq!(mmu.rb(0x8000), 0);
}
