//! The text of conditions, registers, locations and actions, as a
//! disassembly shows them.

use vstd::prelude::*;
use vstd::string::StringExecFns;
use crate::instructions::{IAction, IFlag, ILocation, IRegister};

verus! {

impl IFlag {
    /// The name of the condition; the one that always holds has none.
    pub open spec fn text(self) -> Seq<char> {
        match self {
            IFlag::TRUE => ""@,
            IFlag::Z => "Z"@,
            IFlag::NZ => "NZ"@,
            IFlag::CY => "CY"@,
            IFlag::NCY => "NCY"@,
        }
    }

    pub fn to_string(&self) -> (s: String)
        ensures
            s@ == self.text(),
    {
        String::from_str(
            match self {
                IFlag::TRUE => "",
                IFlag::Z => "Z",
                IFlag::NZ => "NZ",
                IFlag::CY => "CY",
                IFlag::NCY => "NCY",
            },
        )
    }
}

impl IRegister {
    /// The name of the register.
    pub open spec fn text(self) -> Seq<char> {
        match self {
            IRegister::A => "A"@,
            IRegister::B => "B"@,
            IRegister::C => "C"@,
            IRegister::D => "D"@,
            IRegister::E => "E"@,
            IRegister::H => "H"@,
            IRegister::L => "L"@,
            IRegister::AF => "AF"@,
            IRegister::BC => "BC"@,
            IRegister::DE => "DE"@,
            IRegister::HL => "HL"@,
            IRegister::HL_INC => "HL+"@,
            IRegister::HL_DEC => "HL-"@,
            IRegister::SP => "SP"@,
        }
    }

    pub fn to_string(&self) -> (s: String)
        ensures
            s@ == self.text(),
    {
        String::from_str(
            match self {
                IRegister::A => "A",
                IRegister::B => "B",
                IRegister::C => "C",
                IRegister::D => "D",
                IRegister::E => "E",
                IRegister::H => "H",
                IRegister::L => "L",
                IRegister::AF => "AF",
                IRegister::BC => "BC",
                IRegister::DE => "DE",
                IRegister::HL => "HL",
                IRegister::HL_INC => "HL+",
                IRegister::HL_DEC => "HL-",
                IRegister::SP => "SP",
            },
        )
    }
}

impl ILocation {
    /// The location as an operand: a register by its name, an immediate by
    /// its width, and a place in memory as what gives its address, in
    /// brackets.
    pub open spec fn text(self) -> Seq<char> {
        match self {
            ILocation::Register(reg) => reg.text(),
            ILocation::RegisterIndirectByte(reg) | ILocation::RegisterIndirectWord(reg) => "("@
                + reg.text() + ")"@,
            ILocation::ImmediateByte => "u8"@,
            ILocation::ImmediateWord => "u16"@,
            ILocation::ImmediateByteIndirectByte | ILocation::ImmediateByteIndirectWord => "(u8)"@,
            ILocation::ImmediateWordIndirectByte | ILocation::ImmediateWordIndirectWord => "(u16)"@,
        }
    }

    pub fn to_string(&self) -> (s: String)
        ensures
            s@ == self.text(),
    {
        match self {
            ILocation::Register(reg) => reg.to_string(),
            ILocation::RegisterIndirectByte(reg) | ILocation::RegisterIndirectWord(reg) => {
                let mut s = String::from_str("(");
                s.append(reg.to_string().as_str());
                s.append(")");
                s
            },
            ILocation::ImmediateByte => String::from_str("u8"),
            ILocation::ImmediateWord => String::from_str("u16"),
            ILocation::ImmediateByteIndirectByte => String::from_str("(u8)"),
            ILocation::ImmediateByteIndirectWord => String::from_str("(u8)"),
            ILocation::ImmediateWordIndirectByte => String::from_str("(u16)"),
            ILocation::ImmediateWordIndirectWord => String::from_str("(u16)"),
        }
    }
}

/// A mnemonic with two operands: the mnemonic, a space, the first operand, a
/// comma and a space, the second operand.
pub open spec fn binary_text(mnemonic: Seq<char>, first: Seq<char>, second: Seq<char>) -> Seq<
    char,
> {
    mnemonic + " "@ + first + ", "@ + second
}

/// A mnemonic with one operand: the mnemonic, a space, the operand.
pub open spec fn unary_text(mnemonic: Seq<char>, operand: Seq<char>) -> Seq<char> {
    mnemonic + " "@ + operand
}

fn binary(mnemonic: &str, first: String, second: String) -> (s: String)
    ensures
        s@ == binary_text(mnemonic@, first@, second@),
{
    let mut s = String::from_str(mnemonic);
    s.append(" ");
    s.append(first.as_str());
    s.append(", ");
    s.append(second.as_str());
    s
}

fn unary(mnemonic: &str, operand: String) -> (s: String)
    ensures
        s@ == unary_text(mnemonic@, operand@),
{
    let mut s = String::from_str(mnemonic);
    s.append(" ");
    s.append(operand.as_str());
    s
}

impl IAction {
    /// The action as a line of disassembly. The 8-bit and the 16-bit form
    /// of an action share a mnemonic.
    pub open spec fn text(self) -> Seq<char> {
        match self {
            IAction::NOP => "NOP"@,
            IAction::LD(dst, src) | IAction::LD16(dst, src) => binary_text(
                "LD"@,
                dst.text(),
                src.text(),
            ),
            IAction::INC(loc) | IAction::INC16(loc) => unary_text("INC"@, loc.text()),
            IAction::DEC(loc) | IAction::DEC16(loc) => unary_text("DEC"@, loc.text()),
            IAction::JP(flag, loc) => binary_text("JP"@, flag.text(), loc.text()),
            IAction::CPL => "CPL (FLIP A)"@,
            IAction::CCF => "CCF (FLIP CY)"@,
            IAction::UNIMPLEMENTED => "<???>"@,
            IAction::ADD(dst, src) | IAction::ADD16(dst, src) => binary_text(
                "ADD"@,
                dst.text(),
                src.text(),
            ),
            IAction::ADC(dst, src) => binary_text("ADC"@, dst.text(), src.text()),
            IAction::SUB(dst, src) => binary_text("SUB"@, dst.text(), src.text()),
            IAction::SBC(dst, src) => binary_text("SBC"@, dst.text(), src.text()),
            IAction::AND(dst, src) => binary_text("AND"@, dst.text(), src.text()),
            IAction::XOR(dst, src) => binary_text("XOR"@, dst.text(), src.text()),
            IAction::OR(dst, src) => binary_text("OR"@, dst.text(), src.text()),
            IAction::CP(dst, src) => binary_text("CP"@, dst.text(), src.text()),
        }
    }

    pub fn to_string(&self) -> (s: String)
        ensures
            s@ == self.text(),
    {
        match self {
            IAction::NOP => String::from_str("NOP"),
            IAction::LD(dst, src) => binary("LD", dst.to_string(), src.to_string()),
            IAction::LD16(dst, src) => binary("LD", dst.to_string(), src.to_string()),
            IAction::INC(loc) => unary("INC", loc.to_string()),
            IAction::INC16(loc) => unary("INC", loc.to_string()),
            IAction::DEC(loc) => unary("DEC", loc.to_string()),
            IAction::DEC16(loc) => unary("DEC", loc.to_string()),
            IAction::JP(flag, loc) => binary("JP", flag.to_string(), loc.to_string()),
            IAction::CPL => String::from_str("CPL (FLIP A)"),
            IAction::CCF => String::from_str("CCF (FLIP CY)"),
            IAction::UNIMPLEMENTED => String::from_str("<???>"),
            IAction::ADD(dst, src) => binary("ADD", dst.to_string(), src.to_string()),
            IAction::ADD16(dst, src) => binary("ADD", dst.to_string(), src.to_string()),
            IAction::ADC(dst, src) => binary("ADC", dst.to_string(), src.to_string()),
            IAction::SUB(dst, src) => binary("SUB", dst.to_string(), src.to_string()),
            IAction::SBC(dst, src) => binary("SBC", dst.to_string(), src.to_string()),
            IAction::AND(dst, src) => binary("AND", dst.to_string(), src.to_string()),
            IAction::XOR(dst, src) => binary("XOR", dst.to_string(), src.to_string()),
            IAction::OR(dst, src) => binary("OR", dst.to_string(), src.to_string()),
            IAction::CP(dst, src) => binary("CP", dst.to_string(), src.to_string()),
        }
    }
}

} // verus!
