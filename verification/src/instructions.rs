//! Instructions: what they do, what they work on, and how one is read from
//! memory.

use vstd::prelude::*;
use vstd::slice::slice_subrange;
use crate::bits::{pack, pack_u16};
use crate::mmu::Mmu;
use crate::opcodes::{instruction_at, lemma_length, lemma_well_formed, unprefixed};

verus! {

/// A condition that a jump depends on.
#[allow(non_camel_case_types)]
#[derive(Clone, Copy, Debug, PartialEq, Eq, Structural)]
pub enum IFlag {
    /// No condition: always holds.
    TRUE,
    /// ZERO is set.
    Z,
    /// ZERO is clear.
    NZ,
    /// CARRY is set.
    CY,
    /// CARRY is clear.
    NCY,
}

/// A register that an instruction names.
#[allow(non_camel_case_types)]
#[derive(Clone, Copy, Debug, PartialEq, Eq, Structural)]
pub enum IRegister {
    A,
    B,
    C,
    D,
    E,
    H,
    L,
    AF,
    BC,
    DE,
    HL,
    /// HL, incremented after it is read (HL+).
    HL_INC,
    /// HL, decremented after it is read (HL-).
    HL_DEC,
    SP,
}

impl IRegister {
    /// One of the seven byte registers.
    pub open spec fn is_byte(self) -> bool {
        self is A || self is B || self is C || self is D || self is E || self is H || self is L
    }
}

/// Where an operand comes from or goes to.
#[derive(Clone, Copy, Debug, PartialEq, Eq, Structural)]
pub enum ILocation {
    /// The register itself.
    Register(IRegister),
    /// The byte at the address that the register holds.
    RegisterIndirectByte(IRegister),
    /// The word at the address that the register holds.
    RegisterIndirectWord(IRegister),
    /// The operand byte of the instruction.
    ImmediateByte,
    /// The operand word of the instruction.
    ImmediateWord,
    /// The byte at the address that the operand byte gives.
    ImmediateByteIndirectByte,
    /// The word at the address that the operand byte gives.
    ImmediateByteIndirectWord,
    /// The byte at the address that the operand word gives.
    ImmediateWordIndirectByte,
    /// The word at the address that the operand word gives.
    ImmediateWordIndirectWord,
}

impl ILocation {
    /// The location is a place in memory.
    pub open spec fn is_memory(self) -> bool {
        !(self is Register || self is ImmediateByte || self is ImmediateWord)
    }

    /// A byte can be read here by an instruction of `len` bytes.
    pub open spec fn reads_byte(self, len: int) -> bool {
        match self {
            ILocation::Register(reg) => reg.is_byte(),
            ILocation::RegisterIndirectByte(_) => true,
            ILocation::ImmediateByte => len >= 2,
            ILocation::ImmediateByteIndirectByte => len >= 2,
            ILocation::ImmediateWordIndirectByte => len >= 3,
            _ => false,
        }
    }

    /// A byte can be written here by an instruction of `len` bytes.
    pub open spec fn writes_byte(self, len: int) -> bool {
        self.reads_byte(len) && !(self is ImmediateByte)
    }

    /// A word can be read here by an instruction of `len` bytes. A byte
    /// register is read as a word with a zero high byte.
    pub open spec fn reads_word(self, len: int) -> bool {
        match self {
            ILocation::Register(_) => true,
            ILocation::RegisterIndirectWord(_) => true,
            ILocation::ImmediateWord => len >= 3,
            ILocation::ImmediateByteIndirectWord => len >= 2,
            ILocation::ImmediateWordIndirectWord => len >= 3,
            _ => false,
        }
    }

    /// A word can be written here by an instruction of `len` bytes.
    pub open spec fn writes_word(self, len: int) -> bool {
        match self {
            ILocation::Register(reg) => !reg.is_byte(),
            ILocation::RegisterIndirectWord(_) => true,
            ILocation::ImmediateByteIndirectWord => len >= 2,
            ILocation::ImmediateWordIndirectWord => len >= 3,
            _ => false,
        }
    }
}

/// What an instruction does.
#[allow(non_camel_case_types)]
#[derive(Clone, Copy, Debug, PartialEq, Eq, Structural)]
pub enum IAction {
    NOP,
    LD(ILocation, ILocation),
    LD16(ILocation, ILocation),
    JP(IFlag, ILocation),
    CPL,
    CCF,
    INC(ILocation),
    INC16(ILocation),
    DEC(ILocation),
    DEC16(ILocation),
    ADD(ILocation, ILocation),
    ADD16(ILocation, ILocation),
    ADC(ILocation, ILocation),
    SUB(ILocation, ILocation),
    AND(ILocation, ILocation),
    SBC(ILocation, ILocation),
    XOR(ILocation, ILocation),
    OR(ILocation, ILocation),
    CP(ILocation, ILocation),
    /// No action is defined for the opcode.
    UNIMPLEMENTED,
}

impl IAction {
    /// The engine has a handler for the action.
    pub open spec fn is_handled(self) -> bool {
        match self {
            IAction::NOP
            | IAction::LD(_, _)
            | IAction::LD16(_, _)
            | IAction::JP(_, _)
            | IAction::CPL
            | IAction::CCF
            | IAction::INC(_)
            | IAction::INC16(_)
            | IAction::DEC(_)
            | IAction::DEC16(_)
            | IAction::XOR(_, _) => true,
            _ => false,
        }
    }

    /// The operands of a handled action have the width that the action works
    /// on, its destination can be written, and the instruction of `len`
    /// bytes carries the operand bytes that they need.
    pub open spec fn well_formed(self, len: int) -> bool {
        match self {
            IAction::LD(dst, src) => dst.writes_byte(len) && src.reads_byte(len),
            IAction::LD16(dst, src) => dst.writes_word(len) && src.reads_word(len),
            IAction::JP(_, target) => target.reads_word(len),
            IAction::INC(loc) | IAction::DEC(loc) => loc.reads_byte(len) && loc.writes_byte(len),
            IAction::INC16(loc) | IAction::DEC16(loc) => loc.reads_word(len) && loc.writes_word(
                len,
            ),
            IAction::XOR(dst, src) => dst.reads_byte(len) && dst.writes_byte(len)
                && src.reads_byte(len),
            _ => true,
        }
    }
}

/// An entry of the opcode table.
#[derive(Clone, Copy, Debug, PartialEq, Eq, Structural)]
pub struct Instruction {
    pub action: IAction,
    /// The length in bytes, opcode included.
    pub length: u8,
    /// The machine cycles that it takes.
    pub cycles: u8,
}

impl Instruction {
    pub fn new(action: IAction, length: u8, cycles: u8) -> (ins: Instruction)
        ensures
            ins == (Instruction { action, length, cycles }),
    {
        Instruction { action, length, cycles }
    }
}

/// What a decoded instruction holds.
pub struct Decoded {
    pub action: IAction,
    pub len: u8,
    pub cycles: u8,
    /// The opcode and the operand bytes after it.
    pub raw_bytes: Seq<u8>,
}

impl Decoded {
    /// The instruction is what a decoding gives: as many bytes as it is
    /// long, the first of them its opcode, and action, length and cycles
    /// those of the table's entry for that opcode.
    pub open spec fn is_decoding(self) -> bool {
        &&& self.raw_bytes.len() == self.len
        &&& instruction_at(self.raw_bytes[0]) == (Instruction {
            action: self.action,
            length: self.len,
            cycles: self.cycles,
        })
    }

    /// The opcode.
    pub open spec fn opcode(self) -> u8 {
        self.raw_bytes[0]
    }

    /// The operand byte.
    pub open spec fn operand_byte(self) -> u8 {
        self.raw_bytes[1]
    }

    /// The operand word: its low byte comes first.
    pub open spec fn operand_word(self) -> u16 {
        pack(self.raw_bytes[2], self.raw_bytes[1])
    }
}

/// The instruction that `mem` holds at `pc`: the table's entry for the
/// opcode there, and as many bytes from `pc` on as the entry is long. The
/// byte after the last address is the first.
pub open spec fn decode_at(mem: Seq<u8>, pc: u16) -> Decoded {
    let entry = instruction_at(mem[pc as int]);
    Decoded {
        action: entry.action,
        len: entry.length,
        cycles: entry.cycles,
        raw_bytes: Seq::new(entry.length as nat, |i: int| mem[(pc + i) % 0x10000]),
    }
}

/// What is read at an address is a decoding.
pub proof fn lemma_decode_at(mem: Seq<u8>, pc: u16)
    ensures
        decode_at(mem, pc).is_decoding(),
        decode_at(mem, pc).opcode() == mem[pc as int],
        1 <= decode_at(mem, pc).len <= 3,
        decode_at(mem, pc).action.well_formed(decode_at(mem, pc).len as int),
{
    lemma_length(mem[pc as int]);
    lemma_well_formed(mem[pc as int]);
}

/// An instruction as it was read from memory.
pub struct DecodedInstruction {
    action: IAction,
    len: u8,
    cycles: u8,
    raw_bytes: Vec<u8>,
}

impl View for DecodedInstruction {
    type V = Decoded;

    closed spec fn view(&self) -> Decoded {
        Decoded {
            action: self.action,
            len: self.len,
            cycles: self.cycles,
            raw_bytes: self.raw_bytes@,
        }
    }
}

impl DecodedInstruction {
    #[verifier::type_invariant]
    spec fn decoded(self) -> bool {
        self@.is_decoding()
    }

    /// Reads the instruction at `pc`. Nothing is changed.
    pub fn decode(mmu: &Mmu, pc: u16) -> (inst: DecodedInstruction)
        ensures
            inst@ == decode_at(mmu@, pc),
    {
        let opcode = mmu.rb(pc);
        let instruction = unprefixed(opcode);
        proof {
            lemma_length(opcode);
            mmu.lemma_view_valid();
        }
        let mut raw_bytes: Vec<u8> = Vec::with_capacity(instruction.length as usize);
        raw_bytes.push(opcode);
        let mut i: u8 = 1;
        while i < instruction.length
            invariant
                1 <= i <= instruction.length <= 3,
                mmu@.len() == 0x10000,
                raw_bytes.len() == i,
                forall|k: int| 0 <= k < i ==> raw_bytes[k] == mmu@[(pc + k) % 0x10000],
            decreases instruction.length - i,
        {
            let byte = mmu.rb(pc.wrapping_add(i as u16));
            raw_bytes.push(byte);
            i = i + 1;
        }
        let inst = DecodedInstruction {
            action: instruction.action,
            len: instruction.length,
            cycles: instruction.cycles,
            raw_bytes,
        };
        assert(inst@.raw_bytes =~= decode_at(mmu@, pc).raw_bytes);
        inst
    }

    pub fn action(&self) -> (action: IAction)
        ensures
            action == self@.action,
            self@.is_decoding(),
    {
        proof {
            use_type_invariant(self);
        }
        self.action
    }

    /// The length in bytes, which is the number of raw bytes.
    pub fn len(&self) -> (len: u8)
        ensures
            len == self@.len,
            self@.is_decoding(),
    {
        proof {
            use_type_invariant(self);
        }
        self.len
    }

    pub fn cycles(&self) -> (cycles: u8)
        ensures
            cycles == self@.cycles,
            self@.is_decoding(),
    {
        proof {
            use_type_invariant(self);
        }
        self.cycles
    }

    /// The first of the raw bytes.
    pub fn opcode(&self) -> (opcode: u8)
        ensures
            opcode == self@.opcode(),
            self@.is_decoding(),
    {
        proof {
            use_type_invariant(self);
            lemma_length(self@.raw_bytes[0]);
        }
        self.raw_bytes[0]
    }

    pub fn raw_bytes(&self) -> (bytes: &Vec<u8>)
        ensures
            bytes@ == self@.raw_bytes,
            self@.is_decoding(),
    {
        proof {
            use_type_invariant(self);
        }
        &self.raw_bytes
    }

    /// The bytes after the opcode.
    fn operands(&self) -> (operands: &[u8])
        ensures
            operands@ == self@.raw_bytes.skip(1),
    {
        proof {
            use_type_invariant(self);
            lemma_length(self@.raw_bytes[0]);
        }
        slice_subrange(self.raw_bytes.as_slice(), 1, self.raw_bytes.len())
    }

    /// The two bytes after the opcode as a word, low byte first.
    pub fn operands_as_u16(&self) -> (word: u16)
        requires
            self@.len >= 3,
        ensures
            word == self@.operand_word(),
    {
        proof {
            use_type_invariant(self);
        }
        let operands = self.operands();

        // The word is stored low byte first.
        pack_u16(operands[1], operands[0])
    }

    /// The byte after the opcode.
    pub fn operands_as_u8(&self) -> (byte: u8)
        requires
            self@.len >= 2,
        ensures
            byte == self@.operand_byte(),
    {
        proof {
            use_type_invariant(self);
        }
        let operands = self.operands();

        operands[0]
    }
}

} // verus!
