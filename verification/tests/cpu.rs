use yeahboy::cpu::Cpu;
use yeahboy::flags::Flags;
use yeahboy::instructions::{IAction, ILocation, IRegister};
use yeahboy::machine::StepError;

fn cpu_with(program: &[u8]) -> Cpu {
    let mut rom = vec![0u8; 0x8000];
    rom[0x0100..0x0100 + program.len()].copy_from_slice(program);
    Cpu::new(rom)
}

fn run(cpu: &mut Cpu, steps: usize) {
    for _ in 0..steps {
        assert_eq!(cpu.step(), Ok(()));
    }
}

#[test]
fn fresh_cpu() {
    let cpu = Cpu::new(vec![0; 0x8000]);
    assert_eq!(cpu.pc(), 0x0100);
    assert_eq!(cpu.sp(), 0xFFFE);
    assert_eq!(cpu.reg().af(), 0x01B0);
    assert_eq!(cpu.reg().bc(), 0x0013);
    assert_eq!(cpu.reg().de(), 0x00D8);
    assert_eq!(cpu.reg().hl(), 0x014D);
    assert_eq!(cpu.mmu().rb(0xFF40), 0x91);
}

#[test]
fn nop_only_advances_pc() {
    let mut cpu = cpu_with(&[0x00]);
    assert_eq!(cpu.step(), Ok(()));
    assert_eq!(cpu.pc(), 0x0101);
    assert_eq!(cpu.sp(), 0xFFFE);
    assert_eq!(cpu.reg().af(), 0x01B0);
    assert_eq!(cpu.reg().bc(), 0x0013);
    assert_eq!(cpu.reg().de(), 0x00D8);
    assert_eq!(cpu.reg().hl(), 0x014D);
}

#[test]
fn xor_a_a_clears_a() {
    let mut cpu = cpu_with(&[0xAF]);
    assert_eq!(cpu.step(), Ok(()));
    assert_eq!(cpu.reg().a(), 0);
    assert_eq!(cpu.reg().f().bits(), Flags::zero().bits());
    assert_eq!(cpu.reg().af(), 0x0080);
    assert_eq!(cpu.pc(), 0x0101);
}

#[test]
fn xor_a_a_whatever_a_holds() {
    for a in [0x00u8, 0x01, 0x7F, 0x80, 0xFF] {
        let mut cpu = cpu_with(&[0x3E, a, 0xAF]);
        run(&mut cpu, 2);
        assert_eq!(cpu.reg().af(), 0x0080);
    }
}

#[test]
fn xor_with_another_register() {
    // LD A, 0xF0; LD C, 0x3C; XOR A, C
    let mut cpu = cpu_with(&[0x3E, 0xF0, 0x0E, 0x3C, 0xA9]);
    run(&mut cpu, 3);
    assert_eq!(cpu.reg().a(), 0xCC);
    assert_eq!(cpu.reg().c(), 0x3C);
    assert_eq!(cpu.reg().f().bits(), 0x00);
}

#[test]
fn xor_with_b() {
    // LD A, 0x0F; LD B, 0x0F; XOR A, B
    let mut cpu = cpu_with(&[0x3E, 0x0F, 0x06, 0x0F, 0xA8]);
    run(&mut cpu, 3);
    assert_eq!(cpu.reg().a(), 0x00);
    assert_eq!(cpu.reg().b(), 0x0F);
    assert_eq!(cpu.reg().f().bits(), 0x80);
    assert_eq!(cpu.pc(), 0x0105);
    // LD A, 0xA5; LD B, 0x0F; XOR A, B
    let mut cpu = cpu_with(&[0x3E, 0xA5, 0x06, 0x0F, 0xA8]);
    run(&mut cpu, 3);
    assert_eq!(cpu.reg().a(), 0xAA);
    assert_eq!(cpu.reg().f().bits(), 0x00);
}

#[test]
fn every_xor_opcode_runs() {
    for opcode in 0xA8..=0xAFu8 {
        let mut cpu = cpu_with(&[opcode]);
        assert_eq!(cpu.step(), Ok(()));
        assert_eq!(cpu.pc(), 0x0101);
    }
}

#[test]
fn jp_takes_its_operand_low_byte_first() {
    let mut cpu = cpu_with(&[0xC3, 0x34, 0x12]);
    assert_eq!(cpu.step(), Ok(()));
    assert_eq!(cpu.pc(), 0x1234);
    assert_eq!(cpu.reg().af(), 0x01B0);
}

#[test]
fn inc_then_dec_restores_a_register() {
    for b in [0x00u8, 0x01, 0x7F, 0xFE, 0xFF] {
        // LD B, b; INC B; DEC B
        let mut cpu = cpu_with(&[0x06, b, 0x04, 0x05]);
        run(&mut cpu, 2);
        assert_eq!(cpu.reg().b(), b.wrapping_add(1));
        assert_eq!(cpu.reg().has_flag(Flags::zero()), b == 0xFF);
        assert!(!cpu.reg().has_flag(Flags::subtract()));
        assert_eq!(cpu.reg().has_flag(Flags::half_carry()), b == 0xFF);
        run(&mut cpu, 1);
        assert_eq!(cpu.reg().b(), b);
        assert_eq!(cpu.reg().has_flag(Flags::zero()), b == 0x00);
        assert!(cpu.reg().has_flag(Flags::subtract()));
        assert_eq!(cpu.reg().has_flag(Flags::half_carry()), b == 0xFF);
        assert!(cpu.reg().has_flag(Flags::carry()));
    }
}

#[test]
fn inc_from_ff_and_dec_from_zero() {
    // LD B, 0xFF; INC B
    let mut cpu = cpu_with(&[0x06, 0xFF, 0x04]);
    run(&mut cpu, 2);
    assert_eq!(cpu.reg().b(), 0x00);
    assert_eq!(cpu.reg().f().bits(), 0xB0);
    // LD B, 0x00; DEC B
    let mut cpu = cpu_with(&[0x06, 0x00, 0x05]);
    run(&mut cpu, 2);
    assert_eq!(cpu.reg().b(), 0xFF);
    assert_eq!(cpu.reg().f().bits(), 0x70);
    // LD B, 0x01; DEC B
    let mut cpu = cpu_with(&[0x06, 0x01, 0x05]);
    run(&mut cpu, 2);
    assert_eq!(cpu.reg().b(), 0x00);
    assert_eq!(cpu.reg().f().bits(), 0xD0);
}

#[test]
fn inc_then_dec_restores_memory() {
    // LD HL, 0xC010; LD (HL), 0x41; INC (HL); DEC (HL)
    let mut cpu = cpu_with(&[0x21, 0x10, 0xC0, 0x36, 0x41, 0x34, 0x35]);
    run(&mut cpu, 3);
    assert_eq!(cpu.mmu().rb(0xC010), 0x42);
    assert_eq!(cpu.mmu().rb(0xE010), 0x42);
    run(&mut cpu, 1);
    assert_eq!(cpu.mmu().rb(0xC010), 0x41);
    assert_eq!(cpu.reg().hl(), 0xC010);
    assert_eq!(cpu.reg().f().bits(), 0x50);
}

#[test]
fn inc_then_dec_in_the_unmapped_part() {
    // LD HL, 0xFEA0; INC (HL); DEC (HL)
    let mut cpu = cpu_with(&[0x21, 0xA0, 0xFE, 0x34, 0x35]);
    run(&mut cpu, 2);
    assert_eq!(cpu.mmu().rb(0xFEA0), 0);
    assert_eq!(cpu.reg().f().bits(), 0x10);
    run(&mut cpu, 1);
    assert_eq!(cpu.mmu().rb(0xFEA0), 0);
    assert_eq!(cpu.reg().f().bits(), 0x70);
}

#[test]
fn loads_between_registers() {
    // LD B, 0x12; LD C, B; LD H, C; LD A, H
    let mut cpu = cpu_with(&[0x06, 0x12, 0x48, 0x61, 0x7C]);
    run(&mut cpu, 4);
    assert_eq!(cpu.reg().b(), 0x12);
    assert_eq!(cpu.reg().c(), 0x12);
    assert_eq!(cpu.reg().h(), 0x12);
    assert_eq!(cpu.reg().a(), 0x12);
    assert_eq!(cpu.reg().f().bits(), 0xB0);
    assert_eq!(cpu.pc(), 0x0105);
}

#[test]
fn loads_through_hl_plus_and_minus() {
    // LD HL, 0xC000; LD A, 0x5A; LD (HL+), A; LD (HL+), A; LD (HL-), A; LD A, (HL-)
    let mut cpu = cpu_with(&[0x21, 0x00, 0xC0, 0x3E, 0x5A, 0x22, 0x22, 0x32, 0x3A]);
    run(&mut cpu, 3);
    assert_eq!(cpu.mmu().rb(0xC000), 0x5A);
    assert_eq!(cpu.reg().hl(), 0xC001);
    run(&mut cpu, 1);
    assert_eq!(cpu.mmu().rb(0xC001), 0x5A);
    assert_eq!(cpu.reg().hl(), 0xC002);
    run(&mut cpu, 1);
    assert_eq!(cpu.mmu().rb(0xC002), 0x5A);
    assert_eq!(cpu.reg().hl(), 0xC001);
    run(&mut cpu, 1);
    assert_eq!(cpu.reg().a(), 0x5A);
    assert_eq!(cpu.reg().hl(), 0xC000);
}

#[test]
fn hl_plus_wraps() {
    // LD HL, 0xFFFF; LD (HL+), A
    let mut cpu = cpu_with(&[0x21, 0xFF, 0xFF, 0x22]);
    run(&mut cpu, 2);
    assert_eq!(cpu.mmu().rb(0xFFFF), 0x01);
    assert_eq!(cpu.reg().hl(), 0x0000);
    // LD HL, 0x0000; LD A, (HL-)
    let mut cpu = cpu_with(&[0x21, 0x00, 0x00, 0x3A]);
    run(&mut cpu, 2);
    assert_eq!(cpu.reg().hl(), 0xFFFF);
}

#[test]
fn loads_through_bc_and_de() {
    // LD BC, 0xC100; LD DE, 0xC200; LD (BC), A; LD A, 0x77; LD (DE), A; LD A, (BC)
    let mut cpu =
        cpu_with(&[0x01, 0x00, 0xC1, 0x11, 0x00, 0xC2, 0x02, 0x3E, 0x77, 0x12, 0x0A]);
    run(&mut cpu, 5);
    assert_eq!(cpu.mmu().rb(0xC100), 0x01);
    assert_eq!(cpu.mmu().rb(0xC200), 0x77);
    run(&mut cpu, 1);
    assert_eq!(cpu.reg().a(), 0x01);
}

#[test]
fn word_loads() {
    // LD SP, 0xBEEF; LD (0xC050), SP; LD BC, 0x1234
    let mut cpu = cpu_with(&[0x31, 0xEF, 0xBE, 0x08, 0x50, 0xC0, 0x01, 0x34, 0x12]);
    run(&mut cpu, 3);
    assert_eq!(cpu.sp(), 0xBEEF);
    assert_eq!(cpu.mmu().rb(0xC050), 0xEF);
    assert_eq!(cpu.mmu().rb(0xC051), 0xBE);
    assert_eq!(cpu.mmu().rw(0xC050), 0xBEEF);
    assert_eq!(cpu.reg().bc(), 0x1234);
    assert_eq!(cpu.reg().f().bits(), 0xB0);
    assert_eq!(cpu.pc(), 0x0109);
}

#[test]
fn word_increments_wrap_and_keep_the_flags() {
    // LD BC, 0xFFFF; INC BC; DEC BC; DEC SP; INC SP; INC SP; INC SP
    let mut cpu = cpu_with(&[0x01, 0xFF, 0xFF, 0x03, 0x0B, 0x3B, 0x33, 0x33, 0x33]);
    run(&mut cpu, 2);
    assert_eq!(cpu.reg().bc(), 0x0000);
    run(&mut cpu, 1);
    assert_eq!(cpu.reg().bc(), 0xFFFF);
    run(&mut cpu, 1);
    assert_eq!(cpu.sp(), 0xFFFD);
    run(&mut cpu, 3);
    assert_eq!(cpu.sp(), 0x0000);
    assert_eq!(cpu.reg().f().bits(), 0xB0);
}

#[test]
fn cpl_inverts_a_and_keeps_the_flags() {
    let mut cpu = cpu_with(&[0x2F]);
    run(&mut cpu, 1);
    assert_eq!(cpu.reg().a(), 0xFE);
    assert_eq!(cpu.reg().f().bits(), 0xB0);
}

#[test]
fn ccf_inverts_carry_and_sets_subtract_and_half_carry() {
    let mut cpu = cpu_with(&[0x3F, 0x3F]);
    run(&mut cpu, 1);
    assert_eq!(cpu.reg().f().bits(), 0xE0);
    run(&mut cpu, 1);
    assert_eq!(cpu.reg().f().bits(), 0xF0);
    // XOR A, A; CCF
    let mut cpu = cpu_with(&[0xAF, 0x3F]);
    run(&mut cpu, 2);
    assert_eq!(cpu.reg().f().bits(), 0xF0);
}

#[test]
fn illegal_opcode_is_reported_and_not_passed() {
    for opcode in [0xD3u8, 0xDB, 0xDD, 0xE3, 0xE4, 0xEB, 0xEC, 0xED, 0xF4, 0xFC, 0xFD] {
        let mut cpu = cpu_with(&[0x00, opcode]);
        run(&mut cpu, 1);
        let fault = StepError::IllegalOpcode { opcode, pc: 0x0101 };
        assert_eq!(cpu.step(), Err(fault));
        assert_eq!(cpu.pc(), 0x0101);
        assert_eq!(cpu.step(), Err(fault));
        assert_eq!(cpu.pc(), 0x0101);
        assert_eq!(cpu.reg().af(), 0x01B0);
        assert_eq!(cpu.sp(), 0xFFFE);
    }
}

#[test]
fn unimplemented_action_is_reported_with_the_registers() {
    let mut cpu = cpu_with(&[0x80, 0xC6, 0x05, 0x00]);
    assert_eq!(
        cpu.step(),
        Err(StepError::Unimplemented {
            opcode: 0x80,
            action: IAction::ADD(
                ILocation::Register(IRegister::A),
                ILocation::Register(IRegister::B)
            ),
            af: 0x01B0,
            bc: 0x0013,
            de: 0x00D8,
            hl: 0x014D,
            sp: 0xFFFE,
            pc: 0x0101,
        })
    );
    assert_eq!(cpu.pc(), 0x0101);
    assert_eq!(cpu.reg().af(), 0x01B0);
    assert_eq!(
        cpu.step(),
        Err(StepError::Unimplemented {
            opcode: 0xC6,
            action: IAction::UNIMPLEMENTED,
            af: 0x01B0,
            bc: 0x0013,
            de: 0x00D8,
            hl: 0x014D,
            sp: 0xFFFE,
            pc: 0x0103,
        })
    );
    assert_eq!(cpu.pc(), 0x0103);
    assert_eq!(cpu.step(), Ok(()));
    assert_eq!(cpu.pc(), 0x0104);
}

#[test]
fn every_unhandled_action_is_reported() {
    for opcode in [0x09u8, 0x80, 0x88, 0x89, 0x90, 0x98, 0x99, 0xA0, 0xB0, 0xB8, 0xB9, 0x76, 0xFF] {
        let mut cpu = cpu_with(&[opcode]);
        match cpu.step() {
            Err(StepError::Unimplemented { opcode: reported, .. }) => assert_eq!(reported, opcode),
            other => panic!("{:?}", other),
        }
    }
}

#[test]
fn pc_goes_around_the_end_of_the_address_space() {
    // JP 0xFFFF, where power-on leaves a zero: NOP
    let mut cpu = cpu_with(&[0xC3, 0xFF, 0xFF]);
    run(&mut cpu, 2);
    assert_eq!(cpu.pc(), 0x0000);
}

#[test]
fn a_program_can_write_to_the_cartridge() {
    // LD HL, 0x0200; LD (HL), 0x99
    let mut cpu = cpu_with(&[0x21, 0x00, 0x02, 0x36, 0x99]);
    run(&mut cpu, 2);
    assert_eq!(cpu.mmu().rb(0x0200), 0x99);
}
