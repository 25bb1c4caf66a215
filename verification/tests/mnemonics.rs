use yeahboy::instructions::IAction::{
    ADD16, CCF, CP, CPL, DEC16, INC, JP, LD, LD16, NOP, UNIMPLEMENTED, XOR,
};
use yeahboy::instructions::ILocation::{
    ImmediateByte, ImmediateByteIndirectByte, ImmediateWord, ImmediateWordIndirectWord, Register,
    RegisterIndirectByte, RegisterIndirectWord,
};
use yeahboy::instructions::IRegister::{A, BC, HL, HL_DEC, HL_INC, SP};
use yeahboy::instructions::{IFlag, ILocation, IRegister};

#[test]
fn text_of_actions() {
    assert_eq!(NOP.to_string(), "NOP");
    assert_eq!(LD(RegisterIndirectByte(HL_INC), Register(A)).to_string(), "LD (HL+), A");
    assert_eq!(LD(Register(A), RegisterIndirectByte(HL_DEC)).to_string(), "LD A, (HL-)");
    assert_eq!(LD(Register(A), ImmediateByte).to_string(), "LD A, u8");
    assert_eq!(LD16(ImmediateWordIndirectWord, Register(SP)).to_string(), "LD (u16), SP");
    assert_eq!(LD16(Register(BC), ImmediateWord).to_string(), "LD BC, u16");
    assert_eq!(LD(ImmediateByteIndirectByte, Register(A)).to_string(), "LD (u8), A");
    assert_eq!(INC(RegisterIndirectByte(HL)).to_string(), "INC (HL)");
    assert_eq!(DEC16(RegisterIndirectWord(BC)).to_string(), "DEC (BC)");
    assert_eq!(JP(IFlag::TRUE, ImmediateWord).to_string(), "JP , u16");
    assert_eq!(JP(IFlag::NCY, ImmediateWord).to_string(), "JP NCY, u16");
    assert_eq!(ADD16(Register(HL), Register(BC)).to_string(), "ADD HL, BC");
    assert_eq!(XOR(Register(A), Register(A)).to_string(), "XOR A, A");
    assert_eq!(CP(Register(A), RegisterIndirectByte(HL)).to_string(), "CP A, (HL)");
    assert_eq!(CPL.to_string(), "CPL (FLIP A)");
    assert_eq!(CCF.to_string(), "CCF (FLIP CY)");
    assert_eq!(UNIMPLEMENTED.to_string(), "<???>");
}

#[test]
fn text_of_conditions_and_registers() {
    assert_eq!(IFlag::TRUE.to_string(), "");
    assert_eq!(IFlag::Z.to_string(), "Z");
    assert_eq!(IFlag::NZ.to_string(), "NZ");
    assert_eq!(IFlag::CY.to_string(), "CY");
    assert_eq!(IFlag::NCY.to_string(), "NCY");
    let names = [
        (IRegister::A, "A"),
        (IRegister::B, "B"),
        (IRegister::C, "C"),
        (IRegister::D, "D"),
        (IRegister::E, "E"),
        (IRegister::H, "H"),
        (IRegister::L, "L"),
        (IRegister::AF, "AF"),
        (IRegister::BC, "BC"),
        (IRegister::DE, "DE"),
        (IRegister::HL, "HL"),
        (IRegister::HL_INC, "HL+"),
        (IRegister::HL_DEC, "HL-"),
        (IRegister::SP, "SP"),
    ];
    for (reg, name) in names {
        assert_eq!(reg.to_string(), name);
    }
    assert_eq!(ILocation::ImmediateWord.to_string(), "u16");
    assert_eq!(ILocation::ImmediateByteIndirectWord.to_string(), "(u8)");
    assert_eq!(ILocation::ImmediateWordIndirectByte.to_string(), "(u16)");
}
