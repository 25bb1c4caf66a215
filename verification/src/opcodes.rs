//! The opcode table: what each of the 256 opcodes does, how long the
//! instruction is and how many cycles it takes.

use vstd::prelude::*;
use crate::instructions::IAction::{
    ADC, ADD, ADD16, AND, CCF, CP, CPL, DEC, DEC16, INC, INC16, JP, LD, LD16, NOP, OR, SBC, SUB,
    UNIMPLEMENTED, XOR,
};
use crate::instructions::IFlag::TRUE;
use crate::instructions::ILocation::{
    ImmediateByte, ImmediateWord, ImmediateWordIndirectWord, Register, RegisterIndirectByte,
};
use crate::instructions::IRegister::{A, B, BC, C, D, DE, E, H, HL, HL_DEC, HL_INC, L, SP};
use crate::instructions::{IAction, ILocation, IRegister, Instruction};

verus! {

/// The byte operand that a three-bit field selects: B, C, D, E, H, L, the
/// byte that HL points to, A.
pub open spec fn operand(field: int) -> ILocation {
    if field == 0 {
        Register(B)
    } else if field == 1 {
        Register(C)
    } else if field == 2 {
        Register(D)
    } else if field == 3 {
        Register(E)
    } else if field == 4 {
        Register(H)
    } else if field == 5 {
        Register(L)
    } else if field == 6 {
        RegisterIndirectByte(HL)
    } else {
        Register(A)
    }
}

/// The register pair that a two-bit field selects: BC, DE, HL, SP.
pub open spec fn pair(field: int) -> IRegister {
    if field == 0 {
        BC
    } else if field == 1 {
        DE
    } else if field == 2 {
        HL
    } else {
        SP
    }
}

/// The pointer that a two-bit field selects: BC, DE, HL+, HL-.
pub open spec fn pointer(field: int) -> IRegister {
    if field == 0 {
        BC
    } else if field == 1 {
        DE
    } else if field == 2 {
        HL_INC
    } else {
        HL_DEC
    }
}

/// The operation on A that a three-bit field selects: ADD, ADC, SUB, SBC,
/// AND, XOR, OR, CP.
pub open spec fn operation(field: int, src: ILocation) -> IAction {
    if field == 0 {
        ADD(Register(A), src)
    } else if field == 1 {
        ADC(Register(A), src)
    } else if field == 2 {
        SUB(Register(A), src)
    } else if field == 3 {
        SBC(Register(A), src)
    } else if field == 4 {
        AND(Register(A), src)
    } else if field == 5 {
        XOR(Register(A), src)
    } else if field == 6 {
        OR(Register(A), src)
    } else {
        CP(Register(A), src)
    }
}

/// The opcode has no meaning on the hardware.
pub open spec fn is_illegal(opcode: u8) -> bool {
    opcode == 0xD3 || opcode == 0xDB || opcode == 0xDD || opcode == 0xE3 || opcode == 0xE4
        || opcode == 0xEB || opcode == 0xEC || opcode == 0xED || opcode == 0xF4 || opcode == 0xFC
        || opcode == 0xFD
}

/// Whether the opcode has no meaning on the hardware.
pub fn illegal(opcode: u8) -> (r: bool)
    ensures
        r == is_illegal(opcode),
{
    match opcode {
        0xD3 | 0xDB | 0xDD | 0xE3 | 0xE4 | 0xEB | 0xEC | 0xED | 0xF4 | 0xFC | 0xFD => true,
        _ => false,
    }
}

/// Opcodes 0x00-0x3F: loads of immediates and through pointers, increments
/// and decrements. Bits 4-5 select the pair or pointer, bits 3-5 the byte
/// operand, the low nibble the kind of instruction.
pub open spec fn first_quarter(op: int) -> Instruction {
    let column = op % 16;
    let wide = op / 16;
    let narrow = op / 8;
    let slow: u8 = if narrow == 6 {
        12
    } else {
        4
    };
    if column == 0 {
        if op == 0x00 {
            Instruction { action: NOP, length: 1, cycles: 4 }
        } else if op == 0x10 {
            Instruction { action: UNIMPLEMENTED, length: 1, cycles: 4 }
        } else {
            Instruction { action: UNIMPLEMENTED, length: 2, cycles: 12 }
        }
    } else if column == 1 {
        Instruction { action: LD16(Register(pair(wide)), ImmediateWord), length: 3, cycles: 12 }
    } else if column == 2 {
        Instruction {
            action: LD(RegisterIndirectByte(pointer(wide)), Register(A)),
            length: 1,
            cycles: 8,
        }
    } else if column == 3 {
        Instruction { action: INC16(Register(pair(wide))), length: 1, cycles: 8 }
    } else if column == 4 || column == 12 {
        Instruction { action: INC(operand(narrow)), length: 1, cycles: slow }
    } else if column == 5 || column == 13 {
        Instruction { action: DEC(operand(narrow)), length: 1, cycles: slow }
    } else if column == 6 || column == 14 {
        Instruction {
            action: LD(operand(narrow), ImmediateByte),
            length: 2,
            cycles: if narrow == 6 {
                12
            } else {
                8
            },
        }
    } else if column == 7 {
        Instruction { action: UNIMPLEMENTED, length: 1, cycles: 4 }
    } else if column == 8 {
        if op == 0x08 {
            Instruction {
                action: LD16(ImmediateWordIndirectWord, Register(SP)),
                length: 3,
                cycles: 20,
            }
        } else {
            Instruction { action: UNIMPLEMENTED, length: 2, cycles: 12 }
        }
    } else if column == 9 {
        Instruction { action: ADD16(Register(HL), Register(pair(wide))), length: 1, cycles: 8 }
    } else if column == 10 {
        Instruction {
            action: LD(Register(A), RegisterIndirectByte(pointer(wide))),
            length: 1,
            cycles: 8,
        }
    } else if column == 11 {
        Instruction { action: DEC16(Register(pair(wide))), length: 1, cycles: 8 }
    } else if op == 0x2F {
        Instruction { action: CPL, length: 1, cycles: 4 }
    } else if op == 0x3F {
        Instruction { action: CCF, length: 1, cycles: 4 }
    } else {
        Instruction { action: UNIMPLEMENTED, length: 1, cycles: 4 }
    }
}

/// Opcodes 0x40-0x7F: loads between byte operands. Bits 3-5 select the
/// destination, bits 0-2 the source; 0x76 is no load.
pub open spec fn second_quarter(op: int) -> Instruction {
    let dst = (op / 8) % 8;
    let src = op % 8;
    if op == 0x76 {
        Instruction { action: UNIMPLEMENTED, length: 1, cycles: 4 }
    } else {
        Instruction {
            action: LD(operand(dst), operand(src)),
            length: 1,
            cycles: if dst == 6 || src == 6 {
                8
            } else {
                4
            },
        }
    }
}

/// Opcodes 0x80-0xBF: operations on A. Bits 3-5 select the operation, bits
/// 0-2 the source.
pub open spec fn third_quarter(op: int) -> Instruction {
    let kind = (op / 8) % 8;
    let src = op % 8;
    Instruction {
        action: operation(kind, operand(src)),
        length: 1,
        cycles: if src == 6 {
            8
        } else {
            4
        },
    }
}

/// The length of the instruction at an opcode in 0xC0-0xFF.
pub open spec fn last_quarter_length(op: int) -> u8 {
    let column = op % 16;
    if is_illegal(op as u8) {
        1
    } else if column == 2 || column == 4 || column == 12 {
        if op < 0xE0 || column != 2 {
            3
        } else {
            1
        }
    } else if column == 3 || column == 13 {
        if op == 0xC3 || op == 0xCD {
            3
        } else {
            1
        }
    } else if column == 10 {
        3
    } else if column == 6 || column == 14 {
        2
    } else if column == 0 || column == 8 {
        if op < 0xE0 {
            1
        } else {
            2
        }
    } else {
        1
    }
}

/// The cycles of the instruction at an opcode in 0xC0-0xFF; an illegal
/// opcode takes none.
pub open spec fn last_quarter_cycles(op: int) -> u8 {
    let column = op % 16;
    if is_illegal(op as u8) {
        0
    } else if column == 0 {
        if op < 0xE0 {
            20
        } else {
            12
        }
    } else if column == 1 {
        12
    } else if column == 2 {
        if op < 0xE0 {
            16
        } else {
            8
        }
    } else if column == 3 || column == 11 {
        if op == 0xC3 {
            16
        } else {
            4
        }
    } else if column == 4 || column == 12 || column == 13 {
        24
    } else if column == 6 || column == 14 {
        8
    } else if column == 8 {
        if op < 0xE0 {
            20
        } else if op == 0xE8 {
            16
        } else {
            12
        }
    } else if column == 9 {
        if op < 0xE0 {
            16
        } else if op == 0xE9 {
            4
        } else {
            8
        }
    } else {
        16
    }
}

/// Opcodes 0xC0-0xFF: the absolute jump at 0xC3, and opcodes without an
/// action.
pub open spec fn last_quarter(op: int) -> Instruction {
    Instruction {
        action: if op == 0xC3 {
            JP(TRUE, ImmediateWord)
        } else {
            UNIMPLEMENTED
        },
        length: last_quarter_length(op),
        cycles: last_quarter_cycles(op),
    }
}

/// The table's entry for `opcode`.
pub open spec fn instruction_at(opcode: u8) -> Instruction {
    let op = opcode as int;
    if op < 0x40 {
        first_quarter(op)
    } else if op < 0x80 {
        second_quarter(op)
    } else if op < 0xC0 {
        third_quarter(op)
    } else {
        last_quarter(op)
    }
}

/// Every instruction is one to three bytes long.
pub proof fn lemma_length(opcode: u8)
    ensures
        1 <= instruction_at(opcode).length <= 3,
{
}

/// Every action of the table is well formed for the length it stands with.
pub proof fn lemma_well_formed(opcode: u8)
    ensures
        instruction_at(opcode).action.well_formed(instruction_at(opcode).length as int),
{
}

/// An illegal opcode has no action.
pub proof fn lemma_illegal_unimplemented(opcode: u8)
    requires
        is_illegal(opcode),
    ensures
        instruction_at(opcode) == (Instruction { action: UNIMPLEMENTED, length: 1, cycles: 0 }),
{
}

/// The entries for 0x00-0x3F.
fn first_entries(opcode: u8) -> (entry: Instruction)
    requires
        0x00 <= opcode <= 0x3F,
    ensures
        entry == instruction_at(opcode),
{
    match opcode {
        0x00 => Instruction::new(NOP, 1, 4),
        0x01 => Instruction::new(LD16(Register(BC), ImmediateWord), 3, 12),
        0x02 => Instruction::new(LD(RegisterIndirectByte(BC), Register(A)), 1, 8),
        0x03 => Instruction::new(INC16(Register(BC)), 1, 8),
        0x04 => Instruction::new(INC(Register(B)), 1, 4),
        0x05 => Instruction::new(DEC(Register(B)), 1, 4),
        0x06 => Instruction::new(LD(Register(B), ImmediateByte), 2, 8),
        0x07 => Instruction::new(UNIMPLEMENTED, 1, 4),
        0x08 => Instruction::new(LD16(ImmediateWordIndirectWord, Register(SP)), 3, 20),
        0x09 => Instruction::new(ADD16(Register(HL), Register(BC)), 1, 8),
        0x0A => Instruction::new(LD(Register(A), RegisterIndirectByte(BC)), 1, 8),
        0x0B => Instruction::new(DEC16(Register(BC)), 1, 8),
        0x0C => Instruction::new(INC(Register(C)), 1, 4),
        0x0D => Instruction::new(DEC(Register(C)), 1, 4),
        0x0E => Instruction::new(LD(Register(C), ImmediateByte), 2, 8),
        0x0F => Instruction::new(UNIMPLEMENTED, 1, 4),
        0x10 => Instruction::new(UNIMPLEMENTED, 1, 4),
        0x11 => Instruction::new(LD16(Register(DE), ImmediateWord), 3, 12),
        0x12 => Instruction::new(LD(RegisterIndirectByte(DE), Register(A)), 1, 8),
        0x13 => Instruction::new(INC16(Register(DE)), 1, 8),
        0x14 => Instruction::new(INC(Register(D)), 1, 4),
        0x15 => Instruction::new(DEC(Register(D)), 1, 4),
        0x16 => Instruction::new(LD(Register(D), ImmediateByte), 2, 8),
        0x17 => Instruction::new(UNIMPLEMENTED, 1, 4),
        0x18 => Instruction::new(UNIMPLEMENTED, 2, 12),
        0x19 => Instruction::new(ADD16(Register(HL), Register(DE)), 1, 8),
        0x1A => Instruction::new(LD(Register(A), RegisterIndirectByte(DE)), 1, 8),
        0x1B => Instruction::new(DEC16(Register(DE)), 1, 8),
        0x1C => Instruction::new(INC(Register(E)), 1, 4),
        0x1D => Instruction::new(DEC(Register(E)), 1, 4),
        0x1E => Instruction::new(LD(Register(E), ImmediateByte), 2, 8),
        0x1F => Instruction::new(UNIMPLEMENTED, 1, 4),
        0x20 => Instruction::new(UNIMPLEMENTED, 2, 12),
        0x21 => Instruction::new(LD16(Register(HL), ImmediateWord), 3, 12),
        0x22 => Instruction::new(LD(RegisterIndirectByte(HL_INC), Register(A)), 1, 8),
        0x23 => Instruction::new(INC16(Register(HL)), 1, 8),
        0x24 => Instruction::new(INC(Register(H)), 1, 4),
        0x25 => Instruction::new(DEC(Register(H)), 1, 4),
        0x26 => Instruction::new(LD(Register(H), ImmediateByte), 2, 8),
        0x27 => Instruction::new(UNIMPLEMENTED, 1, 4),
        0x28 => Instruction::new(UNIMPLEMENTED, 2, 12),
        0x29 => Instruction::new(ADD16(Register(HL), Register(HL)), 1, 8),
        0x2A => Instruction::new(LD(Register(A), RegisterIndirectByte(HL_INC)), 1, 8),
        0x2B => Instruction::new(DEC16(Register(HL)), 1, 8),
        0x2C => Instruction::new(INC(Register(L)), 1, 4),
        0x2D => Instruction::new(DEC(Register(L)), 1, 4),
        0x2E => Instruction::new(LD(Register(L), ImmediateByte), 2, 8),
        0x2F => Instruction::new(CPL, 1, 4),
        0x30 => Instruction::new(UNIMPLEMENTED, 2, 12),
        0x31 => Instruction::new(LD16(Register(SP), ImmediateWord), 3, 12),
        0x32 => Instruction::new(LD(RegisterIndirectByte(HL_DEC), Register(A)), 1, 8),
        0x33 => Instruction::new(INC16(Register(SP)), 1, 8),
        0x34 => Instruction::new(INC(RegisterIndirectByte(HL)), 1, 12),
        0x35 => Instruction::new(DEC(RegisterIndirectByte(HL)), 1, 12),
        0x36 => Instruction::new(LD(RegisterIndirectByte(HL), ImmediateByte), 2, 12),
        0x37 => Instruction::new(UNIMPLEMENTED, 1, 4),
        0x38 => Instruction::new(UNIMPLEMENTED, 2, 12),
        0x39 => Instruction::new(ADD16(Register(HL), Register(SP)), 1, 8),
        0x3A => Instruction::new(LD(Register(A), RegisterIndirectByte(HL_DEC)), 1, 8),
        0x3B => Instruction::new(DEC16(Register(SP)), 1, 8),
        0x3C => Instruction::new(INC(Register(A)), 1, 4),
        0x3D => Instruction::new(DEC(Register(A)), 1, 4),
        0x3E => Instruction::new(LD(Register(A), ImmediateByte), 2, 8),
        0x3F => Instruction::new(CCF, 1, 4),
        _ => unreached(),
    }
}

/// The entries for 0x40-0x7F.
fn second_entries(opcode: u8) -> (entry: Instruction)
    requires
        0x40 <= opcode <= 0x7F,
    ensures
        entry == instruction_at(opcode),
{
    match opcode {
        0x40 => Instruction::new(LD(Register(B), Register(B)), 1, 4),
        0x41 => Instruction::new(LD(Register(B), Register(C)), 1, 4),
        0x42 => Instruction::new(LD(Register(B), Register(D)), 1, 4),
        0x43 => Instruction::new(LD(Register(B), Register(E)), 1, 4),
        0x44 => Instruction::new(LD(Register(B), Register(H)), 1, 4),
        0x45 => Instruction::new(LD(Register(B), Register(L)), 1, 4),
        0x46 => Instruction::new(LD(Register(B), RegisterIndirectByte(HL)), 1, 8),
        0x47 => Instruction::new(LD(Register(B), Register(A)), 1, 4),
        0x48 => Instruction::new(LD(Register(C), Register(B)), 1, 4),
        0x49 => Instruction::new(LD(Register(C), Register(C)), 1, 4),
        0x4A => Instruction::new(LD(Register(C), Register(D)), 1, 4),
        0x4B => Instruction::new(LD(Register(C), Register(E)), 1, 4),
        0x4C => Instruction::new(LD(Register(C), Register(H)), 1, 4),
        0x4D => Instruction::new(LD(Register(C), Register(L)), 1, 4),
        0x4E => Instruction::new(LD(Register(C), RegisterIndirectByte(HL)), 1, 8),
        0x4F => Instruction::new(LD(Register(C), Register(A)), 1, 4),
        0x50 => Instruction::new(LD(Register(D), Register(B)), 1, 4),
        0x51 => Instruction::new(LD(Register(D), Register(C)), 1, 4),
        0x52 => Instruction::new(LD(Register(D), Register(D)), 1, 4),
        0x53 => Instruction::new(LD(Register(D), Register(E)), 1, 4),
        0x54 => Instruction::new(LD(Register(D), Register(H)), 1, 4),
        0x55 => Instruction::new(LD(Register(D), Register(L)), 1, 4),
        0x56 => Instruction::new(LD(Register(D), RegisterIndirectByte(HL)), 1, 8),
        0x57 => Instruction::new(LD(Register(D), Register(A)), 1, 4),
        0x58 => Instruction::new(LD(Register(E), Register(B)), 1, 4),
        0x59 => Instruction::new(LD(Register(E), Register(C)), 1, 4),
        0x5A => Instruction::new(LD(Register(E), Register(D)), 1, 4),
        0x5B => Instruction::new(LD(Register(E), Register(E)), 1, 4),
        0x5C => Instruction::new(LD(Register(E), Register(H)), 1, 4),
        0x5D => Instruction::new(LD(Register(E), Register(L)), 1, 4),
        0x5E => Instruction::new(LD(Register(E), RegisterIndirectByte(HL)), 1, 8),
        0x5F => Instruction::new(LD(Register(E), Register(A)), 1, 4),
        0x60 => Instruction::new(LD(Register(H), Register(B)), 1, 4),
        0x61 => Instruction::new(LD(Register(H), Register(C)), 1, 4),
        0x62 => Instruction::new(LD(Register(H), Register(D)), 1, 4),
        0x63 => Instruction::new(LD(Register(H), Register(E)), 1, 4),
        0x64 => Instruction::new(LD(Register(H), Register(H)), 1, 4),
        0x65 => Instruction::new(LD(Register(H), Register(L)), 1, 4),
        0x66 => Instruction::new(LD(Register(H), RegisterIndirectByte(HL)), 1, 8),
        0x67 => Instruction::new(LD(Register(H), Register(A)), 1, 4),
        0x68 => Instruction::new(LD(Register(L), Register(B)), 1, 4),
        0x69 => Instruction::new(LD(Register(L), Register(C)), 1, 4),
        0x6A => Instruction::new(LD(Register(L), Register(D)), 1, 4),
        0x6B => Instruction::new(LD(Register(L), Register(E)), 1, 4),
        0x6C => Instruction::new(LD(Register(L), Register(H)), 1, 4),
        0x6D => Instruction::new(LD(Register(L), Register(L)), 1, 4),
        0x6E => Instruction::new(LD(Register(L), RegisterIndirectByte(HL)), 1, 8),
        0x6F => Instruction::new(LD(Register(L), Register(A)), 1, 4),
        0x70 => Instruction::new(LD(RegisterIndirectByte(HL), Register(B)), 1, 8),
        0x71 => Instruction::new(LD(RegisterIndirectByte(HL), Register(C)), 1, 8),
        0x72 => Instruction::new(LD(RegisterIndirectByte(HL), Register(D)), 1, 8),
        0x73 => Instruction::new(LD(RegisterIndirectByte(HL), Register(E)), 1, 8),
        0x74 => Instruction::new(LD(RegisterIndirectByte(HL), Register(H)), 1, 8),
        0x75 => Instruction::new(LD(RegisterIndirectByte(HL), Register(L)), 1, 8),
        0x76 => Instruction::new(UNIMPLEMENTED, 1, 4),
        0x77 => Instruction::new(LD(RegisterIndirectByte(HL), Register(A)), 1, 8),
        0x78 => Instruction::new(LD(Register(A), Register(B)), 1, 4),
        0x79 => Instruction::new(LD(Register(A), Register(C)), 1, 4),
        0x7A => Instruction::new(LD(Register(A), Register(D)), 1, 4),
        0x7B => Instruction::new(LD(Register(A), Register(E)), 1, 4),
        0x7C => Instruction::new(LD(Register(A), Register(H)), 1, 4),
        0x7D => Instruction::new(LD(Register(A), Register(L)), 1, 4),
        0x7E => Instruction::new(LD(Register(A), RegisterIndirectByte(HL)), 1, 8),
        0x7F => Instruction::new(LD(Register(A), Register(A)), 1, 4),
        _ => unreached(),
    }
}

/// The entries for 0x80-0xBF.
fn third_entries(opcode: u8) -> (entry: Instruction)
    requires
        0x80 <= opcode <= 0xBF,
    ensures
        entry == instruction_at(opcode),
{
    match opcode {
        0x80 => Instruction::new(ADD(Register(A), Register(B)), 1, 4),
        0x81 => Instruction::new(ADD(Register(A), Register(C)), 1, 4),
        0x82 => Instruction::new(ADD(Register(A), Register(D)), 1, 4),
        0x83 => Instruction::new(ADD(Register(A), Register(E)), 1, 4),
        0x84 => Instruction::new(ADD(Register(A), Register(H)), 1, 4),
        0x85 => Instruction::new(ADD(Register(A), Register(L)), 1, 4),
        0x86 => Instruction::new(ADD(Register(A), RegisterIndirectByte(HL)), 1, 8),
        0x87 => Instruction::new(ADD(Register(A), Register(A)), 1, 4),
        0x88 => Instruction::new(ADC(Register(A), Register(B)), 1, 4),
        0x89 => Instruction::new(ADC(Register(A), Register(C)), 1, 4),
        0x8A => Instruction::new(ADC(Register(A), Register(D)), 1, 4),
        0x8B => Instruction::new(ADC(Register(A), Register(E)), 1, 4),
        0x8C => Instruction::new(ADC(Register(A), Register(H)), 1, 4),
        0x8D => Instruction::new(ADC(Register(A), Register(L)), 1, 4),
        0x8E => Instruction::new(ADC(Register(A), RegisterIndirectByte(HL)), 1, 8),
        0x8F => Instruction::new(ADC(Register(A), Register(A)), 1, 4),
        0x90 => Instruction::new(SUB(Register(A), Register(B)), 1, 4),
        0x91 => Instruction::new(SUB(Register(A), Register(C)), 1, 4),
        0x92 => Instruction::new(SUB(Register(A), Register(D)), 1, 4),
        0x93 => Instruction::new(SUB(Register(A), Register(E)), 1, 4),
        0x94 => Instruction::new(SUB(Register(A), Register(H)), 1, 4),
        0x95 => Instruction::new(SUB(Register(A), Register(L)), 1, 4),
        0x96 => Instruction::new(SUB(Register(A), RegisterIndirectByte(HL)), 1, 8),
        0x97 => Instruction::new(SUB(Register(A), Register(A)), 1, 4),
        0x98 => Instruction::new(SBC(Register(A), Register(B)), 1, 4),
        0x99 => Instruction::new(SBC(Register(A), Register(C)), 1, 4),
        0x9A => Instruction::new(SBC(Register(A), Register(D)), 1, 4),
        0x9B => Instruction::new(SBC(Register(A), Register(E)), 1, 4),
        0x9C => Instruction::new(SBC(Register(A), Register(H)), 1, 4),
        0x9D => Instruction::new(SBC(Register(A), Register(L)), 1, 4),
        0x9E => Instruction::new(SBC(Register(A), RegisterIndirectByte(HL)), 1, 8),
        0x9F => Instruction::new(SBC(Register(A), Register(A)), 1, 4),
        0xA0 => Instruction::new(AND(Register(A), Register(B)), 1, 4),
        0xA1 => Instruction::new(AND(Register(A), Register(C)), 1, 4),
        0xA2 => Instruction::new(AND(Register(A), Register(D)), 1, 4),
        0xA3 => Instruction::new(AND(Register(A), Register(E)), 1, 4),
        0xA4 => Instruction::new(AND(Register(A), Register(H)), 1, 4),
        0xA5 => Instruction::new(AND(Register(A), Register(L)), 1, 4),
        0xA6 => Instruction::new(AND(Register(A), RegisterIndirectByte(HL)), 1, 8),
        0xA7 => Instruction::new(AND(Register(A), Register(A)), 1, 4),
        0xA8 => Instruction::new(XOR(Register(A), Register(B)), 1, 4),
        0xA9 => Instruction::new(XOR(Register(A), Register(C)), 1, 4),
        0xAA => Instruction::new(XOR(Register(A), Register(D)), 1, 4),
        0xAB => Instruction::new(XOR(Register(A), Register(E)), 1, 4),
        0xAC => Instruction::new(XOR(Register(A), Register(H)), 1, 4),
        0xAD => Instruction::new(XOR(Register(A), Register(L)), 1, 4),
        0xAE => Instruction::new(XOR(Register(A), RegisterIndirectByte(HL)), 1, 8),
        0xAF => Instruction::new(XOR(Register(A), Register(A)), 1, 4),
        0xB0 => Instruction::new(OR(Register(A), Register(B)), 1, 4),
        0xB1 => Instruction::new(OR(Register(A), Register(C)), 1, 4),
        0xB2 => Instruction::new(OR(Register(A), Register(D)), 1, 4),
        0xB3 => Instruction::new(OR(Register(A), Register(E)), 1, 4),
        0xB4 => Instruction::new(OR(Register(A), Register(H)), 1, 4),
        0xB5 => Instruction::new(OR(Register(A), Register(L)), 1, 4),
        0xB6 => Instruction::new(OR(Register(A), RegisterIndirectByte(HL)), 1, 8),
        0xB7 => Instruction::new(OR(Register(A), Register(A)), 1, 4),
        0xB8 => Instruction::new(CP(Register(A), Register(B)), 1, 4),
        0xB9 => Instruction::new(CP(Register(A), Register(C)), 1, 4),
        0xBA => Instruction::new(CP(Register(A), Register(D)), 1, 4),
        0xBB => Instruction::new(CP(Register(A), Register(E)), 1, 4),
        0xBC => Instruction::new(CP(Register(A), Register(H)), 1, 4),
        0xBD => Instruction::new(CP(Register(A), Register(L)), 1, 4),
        0xBE => Instruction::new(CP(Register(A), RegisterIndirectByte(HL)), 1, 8),
        0xBF => Instruction::new(CP(Register(A), Register(A)), 1, 4),
        _ => unreached(),
    }
}

/// The entries for 0xC0-0xFF.
fn last_entries(opcode: u8) -> (entry: Instruction)
    requires
        0xC0 <= opcode <= 0xFF,
    ensures
        entry == instruction_at(opcode),
{
    match opcode {
        0xC0 => Instruction::new(UNIMPLEMENTED, 1, 20),
        0xC1 => Instruction::new(UNIMPLEMENTED, 1, 12),
        0xC2 => Instruction::new(UNIMPLEMENTED, 3, 16),
        0xC3 => Instruction::new(JP(TRUE, ImmediateWord), 3, 16),
        0xC4 => Instruction::new(UNIMPLEMENTED, 3, 24),
        0xC5 => Instruction::new(UNIMPLEMENTED, 1, 16),
        0xC6 => Instruction::new(UNIMPLEMENTED, 2, 8),
        0xC7 => Instruction::new(UNIMPLEMENTED, 1, 16),
        0xC8 => Instruction::new(UNIMPLEMENTED, 1, 20),
        0xC9 => Instruction::new(UNIMPLEMENTED, 1, 16),
        0xCA => Instruction::new(UNIMPLEMENTED, 3, 16),
        0xCB => Instruction::new(UNIMPLEMENTED, 1, 4),
        0xCC => Instruction::new(UNIMPLEMENTED, 3, 24),
        0xCD => Instruction::new(UNIMPLEMENTED, 3, 24),
        0xCE => Instruction::new(UNIMPLEMENTED, 2, 8),
        0xCF => Instruction::new(UNIMPLEMENTED, 1, 16),
        0xD0 => Instruction::new(UNIMPLEMENTED, 1, 20),
        0xD1 => Instruction::new(UNIMPLEMENTED, 1, 12),
        0xD2 => Instruction::new(UNIMPLEMENTED, 3, 16),
        0xD3 => Instruction::new(UNIMPLEMENTED, 1, 0),
        0xD4 => Instruction::new(UNIMPLEMENTED, 3, 24),
        0xD5 => Instruction::new(UNIMPLEMENTED, 1, 16),
        0xD6 => Instruction::new(UNIMPLEMENTED, 2, 8),
        0xD7 => Instruction::new(UNIMPLEMENTED, 1, 16),
        0xD8 => Instruction::new(UNIMPLEMENTED, 1, 20),
        0xD9 => Instruction::new(UNIMPLEMENTED, 1, 16),
        0xDA => Instruction::new(UNIMPLEMENTED, 3, 16),
        0xDB => Instruction::new(UNIMPLEMENTED, 1, 0),
        0xDC => Instruction::new(UNIMPLEMENTED, 3, 24),
        0xDD => Instruction::new(UNIMPLEMENTED, 1, 0),
        0xDE => Instruction::new(UNIMPLEMENTED, 2, 8),
        0xDF => Instruction::new(UNIMPLEMENTED, 1, 16),
        0xE0 => Instruction::new(UNIMPLEMENTED, 2, 12),
        0xE1 => Instruction::new(UNIMPLEMENTED, 1, 12),
        0xE2 => Instruction::new(UNIMPLEMENTED, 1, 8),
        0xE3 => Instruction::new(UNIMPLEMENTED, 1, 0),
        0xE4 => Instruction::new(UNIMPLEMENTED, 1, 0),
        0xE5 => Instruction::new(UNIMPLEMENTED, 1, 16),
        0xE6 => Instruction::new(UNIMPLEMENTED, 2, 8),
        0xE7 => Instruction::new(UNIMPLEMENTED, 1, 16),
        0xE8 => Instruction::new(UNIMPLEMENTED, 2, 16),
        0xE9 => Instruction::new(UNIMPLEMENTED, 1, 4),
        0xEA => Instruction::new(UNIMPLEMENTED, 3, 16),
        0xEB => Instruction::new(UNIMPLEMENTED, 1, 0),
        0xEC => Instruction::new(UNIMPLEMENTED, 1, 0),
        0xED => Instruction::new(UNIMPLEMENTED, 1, 0),
        0xEE => Instruction::new(UNIMPLEMENTED, 2, 8),
        0xEF => Instruction::new(UNIMPLEMENTED, 1, 16),
        0xF0 => Instruction::new(UNIMPLEMENTED, 2, 12),
        0xF1 => Instruction::new(UNIMPLEMENTED, 1, 12),
        0xF2 => Instruction::new(UNIMPLEMENTED, 1, 8),
        0xF3 => Instruction::new(UNIMPLEMENTED, 1, 4),
        0xF4 => Instruction::new(UNIMPLEMENTED, 1, 0),
        0xF5 => Instruction::new(UNIMPLEMENTED, 1, 16),
        0xF6 => Instruction::new(UNIMPLEMENTED, 2, 8),
        0xF7 => Instruction::new(UNIMPLEMENTED, 1, 16),
        0xF8 => Instruction::new(UNIMPLEMENTED, 2, 12),
        0xF9 => Instruction::new(UNIMPLEMENTED, 1, 8),
        0xFA => Instruction::new(UNIMPLEMENTED, 3, 16),
        0xFB => Instruction::new(UNIMPLEMENTED, 1, 4),
        0xFC => Instruction::new(UNIMPLEMENTED, 1, 0),
        0xFD => Instruction::new(UNIMPLEMENTED, 1, 0),
        0xFE => Instruction::new(UNIMPLEMENTED, 2, 8),
        0xFF => Instruction::new(UNIMPLEMENTED, 1, 16),
        _ => unreached(),
    }
}

/// Looks `opcode` up in the table of unprefixed instructions.
pub fn unprefixed(opcode: u8) -> (entry: Instruction)
    ensures
        entry == instruction_at(opcode),
{
    match opcode {
        0x00..=0x3F => first_entries(opcode),
        0x40..=0x7F => second_entries(opcode),
        0x80..=0xBF => third_entries(opcode),
        0xC0..=0xFF => last_entries(opcode),
    }
}

} // verus!
