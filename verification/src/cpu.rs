//! The execution engine: it fetches the instruction at the program counter,
//! moves the counter behind it and carries the instruction out.

use vstd::prelude::*;
use crate::flags::{FlagSet, Flags};
use crate::instructions::{
    lemma_decode_at, DecodedInstruction, IAction, IFlag, ILocation, IRegister,
};
use crate::machine::{CpuState, StepError};
use crate::mmu::{valid_memory, Mmu};
use crate::opcodes::{illegal, lemma_well_formed};
use crate::registers::Registers;

verus! {

/// The processor with its memory.
pub struct Cpu {
    reg: Registers,
    mmu: Mmu,
    sp: u16,
    pc: u16,
}

impl View for Cpu {
    type V = CpuState;

    closed spec fn view(&self) -> CpuState {
        CpuState { reg: self.reg@, mem: self.mmu@, sp: self.sp, pc: self.pc }
    }
}

impl Cpu {
    /// The memory of a processor is a valid memory.
    pub proof fn lemma_view_valid(self)
        ensures
            valid_memory(self@.mem),
    {
        self.mmu.lemma_view_valid();
    }

    /// A processor after the boot sequence, over the cartridge `rom`.
    pub fn new(rom: Vec<u8>) -> (cpu: Cpu)
        ensures
            cpu@ == CpuState::power_on(rom@),
    {
        Cpu { reg: Registers::new(), mmu: Mmu::new(rom), sp: 0xFFFE, pc: 0x0100 }
    }

    /// The register file.
    pub fn reg(&self) -> (reg: &Registers)
        ensures
            reg@ == self@.reg,
    {
        &self.reg
    }

    /// The memory.
    pub fn mmu(&self) -> (mmu: &Mmu)
        ensures
            mmu@ == self@.mem,
    {
        &self.mmu
    }

    /// The stack pointer.
    pub fn sp(&self) -> (sp: u16)
        ensures
            sp == self@.sp,
    {
        self.sp
    }

    /// The program counter.
    pub fn pc(&self) -> (pc: u16)
        ensures
            pc == self@.pc,
    {
        self.pc
    }

    /// Reads a byte register. No action of the opcode table reads a wider
    /// register as a byte (see `lemma_well_formed`), so none is accepted.
    fn read_register(&self, reg: IRegister) -> (value: u8)
        requires
            reg.is_byte(),
        ensures
            value == self@.register(reg),
    {
        match reg {
            IRegister::A => self.reg.a(),
            IRegister::B => self.reg.b(),
            IRegister::C => self.reg.c(),
            IRegister::D => self.reg.d(),
            IRegister::E => self.reg.e(),
            IRegister::H => self.reg.h(),
            IRegister::L => self.reg.l(),
            IRegister::AF
            | IRegister::BC
            | IRegister::DE
            | IRegister::HL
            | IRegister::HL_INC
            | IRegister::HL_DEC
            | IRegister::SP => unreached(),
        }
    }

    /// Reads a register as a word. Reading HL+ or HL- gives HL and then
    /// moves it: the only read that changes anything.
    fn read_register_u16(&mut self, reg: IRegister) -> (value: u16)
        ensures
            value == old(self)@.register_word(reg),
            final(self)@ == old(self)@.after_register_word(reg),
    {
        match reg {
            IRegister::AF => self.reg.af(),
            IRegister::BC => self.reg.bc(),
            IRegister::DE => self.reg.de(),
            IRegister::HL => self.reg.hl(),
            IRegister::HL_INC => {
                let value = self.reg.hl();
                self.reg.set_hl(value.wrapping_add(1));
                value
            },
            IRegister::HL_DEC => {
                let value = self.reg.hl();
                self.reg.set_hl(value.wrapping_sub(1));
                value
            },
            // A byte register is read as a word where it serves as an
            // address.
            IRegister::SP => self.sp,
            IRegister::A => self.reg.a() as u16,
            IRegister::B => self.reg.b() as u16,
            IRegister::C => self.reg.c() as u16,
            IRegister::D => self.reg.d() as u16,
            IRegister::E => self.reg.e() as u16,
            IRegister::H => self.reg.h() as u16,
            IRegister::L => self.reg.l() as u16,
        }
    }

    /// Writes a byte register.
    fn write_register(&mut self, reg: IRegister, value: u8)
        requires
            reg.is_byte(),
        ensures
            final(self)@ == old(self)@.with_register(reg, value),
    {
        match reg {
            IRegister::A => self.reg.set_a(value),
            IRegister::B => self.reg.set_b(value),
            IRegister::C => self.reg.set_c(value),
            IRegister::D => self.reg.set_d(value),
            IRegister::E => self.reg.set_e(value),
            IRegister::H => self.reg.set_h(value),
            IRegister::L => self.reg.set_l(value),
            IRegister::AF
            | IRegister::BC
            | IRegister::DE
            | IRegister::HL
            | IRegister::HL_INC
            | IRegister::HL_DEC
            | IRegister::SP => unreached(),
        }
    }

    /// Writes a register pair or SP.
    fn write_register_u16(&mut self, reg: IRegister, value: u16)
        requires
            !reg.is_byte(),
        ensures
            final(self)@ == old(self)@.with_register_word(reg, value),
    {
        match reg {
            IRegister::AF => self.reg.set_af(value),
            IRegister::BC => self.reg.set_bc(value),
            IRegister::DE => self.reg.set_de(value),
            IRegister::HL => self.reg.set_hl(value),
            IRegister::HL_INC => self.reg.set_hl(value.wrapping_add(1)),
            IRegister::HL_DEC => self.reg.set_hl(value.wrapping_sub(1)),
            IRegister::SP => self.sp = value,
            IRegister::A
            | IRegister::B
            | IRegister::C
            | IRegister::D
            | IRegister::E
            | IRegister::H
            | IRegister::L => unreached(),
        }
    }

    /// Reads the byte at a location.
    fn read_location(&mut self, inst: &DecodedInstruction, loc: ILocation) -> (value: u8)
        requires
            loc.reads_byte(inst@.len as int),
        ensures
            value == old(self)@.byte_at(inst@, loc),
            final(self)@ == old(self)@.after_byte_at(loc),
    {
        match loc {
            ILocation::Register(reg) => self.read_register(reg),
            ILocation::RegisterIndirectByte(reg) => {
                // The address is the register as a word, so that all of the
                // address space can be reached.
                let addr = self.read_register_u16(reg);
                self.mmu.rb(addr)
            },
            ILocation::ImmediateByte => inst.operands_as_u8(),
            ILocation::ImmediateByteIndirectByte => self.mmu.rb(inst.operands_as_u8() as u16),
            ILocation::ImmediateWordIndirectByte => self.mmu.rb(inst.operands_as_u16()),
            ILocation::ImmediateWord
            | ILocation::ImmediateByteIndirectWord
            | ILocation::ImmediateWordIndirectWord
            | ILocation::RegisterIndirectWord(_) => unreached(),
        }
    }

    /// Reads the word at a location.
    fn read_location_u16(&mut self, inst: &DecodedInstruction, loc: ILocation) -> (value: u16)
        requires
            loc.reads_word(inst@.len as int),
        ensures
            value == old(self)@.word_at(inst@, loc),
            final(self)@ == old(self)@.after_word_at(loc),
    {
        match loc {
            ILocation::Register(reg) => self.read_register_u16(reg),
            ILocation::ImmediateWord => inst.operands_as_u16(),
            ILocation::ImmediateByteIndirectWord => self.mmu.rw(inst.operands_as_u8() as u16),
            ILocation::ImmediateWordIndirectWord => self.mmu.rw(inst.operands_as_u16()),
            ILocation::RegisterIndirectWord(reg) => {
                let addr = self.read_register_u16(reg);
                self.mmu.rw(addr)
            },
            ILocation::RegisterIndirectByte(_)
            | ILocation::ImmediateByte
            | ILocation::ImmediateByteIndirectByte
            | ILocation::ImmediateWordIndirectByte => unreached(),
        }
    }

    /// Writes a byte to a location. An immediate cannot be written.
    fn write_location(&mut self, inst: &DecodedInstruction, loc: ILocation, value: u8)
        requires
            loc.writes_byte(inst@.len as int),
        ensures
            final(self)@ == old(self)@.with_byte_at(inst@, loc, value),
    {
        match loc {
            ILocation::Register(reg) => self.write_register(reg, value),
            ILocation::RegisterIndirectByte(reg) => {
                let addr = self.read_register_u16(reg);
                self.mmu.wb(addr, value)
            },
            ILocation::ImmediateByteIndirectByte => {
                self.mmu.wb(inst.operands_as_u8() as u16, value)
            },
            ILocation::ImmediateWordIndirectByte => {
                self.mmu.wb(inst.operands_as_u16(), value)
            },
            ILocation::ImmediateByte
            | ILocation::ImmediateWord
            | ILocation::RegisterIndirectWord(_)
            | ILocation::ImmediateByteIndirectWord
            | ILocation::ImmediateWordIndirectWord => unreached(),
        }
    }

    /// Writes a word to a location. An immediate cannot be written.
    fn write_location_u16(&mut self, inst: &DecodedInstruction, loc: ILocation, value: u16)
        requires
            loc.writes_word(inst@.len as int),
        ensures
            final(self)@ == old(self)@.with_word_at(inst@, loc, value),
    {
        match loc {
            ILocation::Register(reg) => self.write_register_u16(reg, value),
            ILocation::RegisterIndirectWord(reg) => {
                let addr = self.read_register_u16(reg);
                self.mmu.ww(addr, value)
            },
            ILocation::ImmediateByteIndirectWord => {
                self.mmu.ww(inst.operands_as_u8() as u16, value)
            },
            ILocation::ImmediateWordIndirectWord => {
                self.mmu.ww(inst.operands_as_u16(), value)
            },
            ILocation::ImmediateByte
            | ILocation::ImmediateWord
            | ILocation::RegisterIndirectByte(_)
            | ILocation::ImmediateByteIndirectByte
            | ILocation::ImmediateWordIndirectByte => unreached(),
        }
    }

    /// Whether the condition of a jump holds.
    fn read_flag(&self, flag: IFlag) -> (holds: bool)
        ensures
            holds == self@.condition(flag),
    {
        match flag {
            IFlag::TRUE => true,
            IFlag::CY => self.reg.has_flag(Flags::carry()),
            IFlag::NCY => !self.reg.has_flag(Flags::carry()),
            IFlag::Z => self.reg.has_flag(Flags::zero()),
            IFlag::NZ => !self.reg.has_flag(Flags::zero()),
        }
    }

    /// Sets ZERO if `value` is zero and clears it if not.
    fn check_zero(&mut self, value: u16)
        ensures
            final(self)@ == old(self)@.with_flags(
                FlagSet { zero: value == 0, ..old(self)@.reg.f },
            ),
    {
        self.reg.set_flag(Flags::zero(), value == 0)
    }

    /// LD: copies a byte from `src` to `dst`.
    fn ld(&mut self, inst: &DecodedInstruction, dst: ILocation, src: ILocation)
        requires
            IAction::LD(dst, src).well_formed(inst@.len as int),
        ensures
            final(self)@ == old(self)@.ld(inst@, dst, src),
    {
        let value = self.read_location(inst, src);
        self.write_location(inst, dst, value);
    }

    /// LD: copies a word from `src` to `dst`.
    fn ld16(&mut self, inst: &DecodedInstruction, dst: ILocation, src: ILocation)
        requires
            IAction::LD16(dst, src).well_formed(inst@.len as int),
        ensures
            final(self)@ == old(self)@.ld16(inst@, dst, src),
    {
        let value = self.read_location_u16(inst, src);
        self.write_location_u16(inst, dst, value);
    }

    /// JP: jumps to the address at `loc` if `flag` holds.
    fn jp(&mut self, inst: &DecodedInstruction, flag: IFlag, loc: ILocation)
        requires
            IAction::JP(flag, loc).well_formed(inst@.len as int),
        ensures
            final(self)@ == old(self)@.jp(inst@, flag, loc),
    {
        if self.read_flag(flag) {
            self.pc = self.read_location_u16(inst, loc);
        }
    }

    /// CPL: inverts register A.
    fn cpl(&mut self)
        ensures
            final(self)@ == old(self)@.cpl(),
    {
        let a = self.reg.a();
        assert(!a == 255 - a) by (bit_vector);
        self.reg.set_a(!a)
    }

    /// CCF: inverts the carry flag, and sets SUBTRACT and HALF_CARRY.
    fn ccf(&mut self)
        ensures
            final(self)@ == old(self)@.ccf(),
    {
        self.reg.flip_flag(Flags::carry());
        self.reg.set_flag(Flags::subtract(), true);
        self.reg.set_flag(Flags::half_carry(), true);
    }

    /// XOR: `dst` exclusive-or `src`, stored in `dst`.
    fn xor(&mut self, inst: &DecodedInstruction, dst: ILocation, src: ILocation)
        requires
            IAction::XOR(dst, src).well_formed(inst@.len as int),
        ensures
            final(self)@ == old(self)@.xor(inst@, dst, src),
    {
        let src_value = self.read_location(inst, src);
        let dst_value = self.read_location(inst, dst);

        let value = src_value ^ dst_value;
        self.write_location(inst, dst, value);

        self.check_zero(value as u16);
        self.reg.set_flag(Flags::subtract(), false);
        self.reg.set_flag(Flags::half_carry(), false);
        self.reg.set_flag(Flags::carry(), false);
    }

    /// DEC: takes one from the byte at `loc`.
    fn dec(&mut self, inst: &DecodedInstruction, loc: ILocation)
        requires
            IAction::DEC(loc).well_formed(inst@.len as int),
        ensures
            final(self)@ == old(self)@.dec(inst@, loc),
    {
        let before = self.read_location(inst, loc);
        let after = before.wrapping_sub(1);
        self.write_location(inst, loc, after);

        self.check_zero(after as u16);
        self.reg.set_flag(Flags::subtract(), true);
        // The subtraction borrows only where it goes from 0 to 0xFF.
        self.reg.set_flag(Flags::half_carry(), before == 0);
    }

    /// DEC: takes one from the word at `loc`; the flags stay.
    fn dec16(&mut self, inst: &DecodedInstruction, loc: ILocation)
        requires
            IAction::DEC16(loc).well_formed(inst@.len as int),
        ensures
            final(self)@ == old(self)@.dec16(inst@, loc),
    {
        let before = self.read_location_u16(inst, loc);
        let after = before.wrapping_sub(1);
        self.write_location_u16(inst, loc, after);
    }

    /// INC: adds one to the byte at `loc`.
    fn inc(&mut self, inst: &DecodedInstruction, loc: ILocation)
        requires
            IAction::INC(loc).well_formed(inst@.len as int),
        ensures
            final(self)@ == old(self)@.inc(inst@, loc),
    {
        let before = self.read_location(inst, loc);
        let after = before.wrapping_add(1);
        self.write_location(inst, loc, after);

        self.check_zero(after as u16);
        self.reg.set_flag(Flags::subtract(), false);
        // The addition carries only where it goes from 0xFF to 0.
        self.reg.set_flag(Flags::half_carry(), before == 0xFF);
    }

    /// INC: adds one to the word at `loc`; the flags stay.
    fn inc16(&mut self, inst: &DecodedInstruction, loc: ILocation)
        requires
            IAction::INC16(loc).well_formed(inst@.len as int),
        ensures
            final(self)@ == old(self)@.inc16(inst@, loc),
    {
        let before = self.read_location_u16(inst, loc);
        let after = before.wrapping_add(1);
        self.write_location_u16(inst, loc, after);
    }

    /// Carries out the action of `inst`, or reports that there is no
    /// handler for it.
    fn execute(&mut self, inst: &DecodedInstruction) -> (outcome: Result<(), StepError>)
        ensures
            final(self)@ == old(self)@.execute(inst@),
            outcome == old(self)@.execute_outcome(inst@),
    {
        let opcode = inst.opcode();
        proof {
            lemma_well_formed(opcode);
        }
        match inst.action() {
            IAction::NOP => Ok(()),
            IAction::LD(dst, src) => {
                self.ld(inst, dst, src);
                Ok(())
            },
            IAction::LD16(dst, src) => {
                self.ld16(inst, dst, src);
                Ok(())
            },
            IAction::JP(flag, loc) => {
                self.jp(inst, flag, loc);
                Ok(())
            },
            IAction::CPL => {
                self.cpl();
                Ok(())
            },
            IAction::CCF => {
                self.ccf();
                Ok(())
            },
            IAction::XOR(dst, src) => {
                self.xor(inst, dst, src);
                Ok(())
            },
            IAction::DEC(loc) => {
                self.dec(inst, loc);
                Ok(())
            },
            IAction::DEC16(loc) => {
                self.dec16(inst, loc);
                Ok(())
            },
            IAction::INC(loc) => {
                self.inc(inst, loc);
                Ok(())
            },
            IAction::INC16(loc) => {
                self.inc16(inst, loc);
                Ok(())
            },
            action => Err(
                StepError::Unimplemented {
                    opcode,
                    action,
                    af: self.reg.af(),
                    bc: self.reg.bc(),
                    de: self.reg.de(),
                    hl: self.reg.hl(),
                    sp: self.sp,
                    pc: self.pc,
                },
            ),
        }
    }

    /// Runs the instruction at the program counter.
    ///
    /// An illegal opcode is reported with the address it stands at, and
    /// nothing changes: the next step finds it again. Any other instruction
    /// first moves the program counter behind itself, so that a jump can
    /// overwrite it. An action that the engine has no handler for is then
    /// reported with the registers and changes nothing more: the next step
    /// goes on behind it.
    pub fn step(&mut self) -> (outcome: Result<(), StepError>)
        ensures
            final(self)@ == old(self)@.step(),
            outcome == old(self)@.step_outcome(),
    {
        let inst = DecodedInstruction::decode(&self.mmu, self.pc);
        let opcode = inst.opcode();
        proof {
            lemma_decode_at(self@.mem, self@.pc);
            assert(inst@ == self@.fetch());
            assert(opcode == self@.mem[self@.pc as int]);
        }
        if illegal(opcode) {
            return Err(StepError::IllegalOpcode { opcode, pc: self.pc });
        }
        self.pc = self.pc.wrapping_add(inst.len() as u16);
        assert(self@ == old(self)@.advanced());
        self.execute(&inst)
    }
}

} // verus!
