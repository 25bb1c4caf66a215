//! The machine as a mathematical object: its state, what its operand
//! locations denote, and what each instruction makes of a state.

use vstd::prelude::*;
use crate::bits::low_byte;
use crate::flags::FlagSet;
use crate::instructions::{decode_at, Decoded, IAction, IFlag, ILocation, IRegister};
use crate::mmu::{
    lemma_power_on_valid, lemma_write_back, lemma_write_valid, lemma_write_word_valid, power_on,
    read_word, region_of, valid_memory, write_byte, write_word, Region,
};
use crate::opcodes::is_illegal;
use crate::registers::RegisterState;

verus! {

/// `value` plus one, from 0xFF to 0.
pub open spec fn increment(value: u8) -> u8 {
    if value == 0xFF {
        0
    } else {
        (value + 1) as u8
    }
}

/// `value` minus one, from 0 to 0xFF.
pub open spec fn decrement(value: u8) -> u8 {
    if value == 0 {
        0xFF
    } else {
        (value - 1) as u8
    }
}

/// `value` plus one, from 0xFFFF to 0.
pub open spec fn increment_word(value: u16) -> u16 {
    if value == 0xFFFF {
        0
    } else {
        (value + 1) as u16
    }
}

/// `value` minus one, from 0 to 0xFFFF.
pub open spec fn decrement_word(value: u16) -> u16 {
    if value == 0 {
        0xFFFF
    } else {
        (value - 1) as u16
    }
}

/// The address `len` bytes after `pc`, around the end of the address space.
pub open spec fn advance(pc: u16, len: u8) -> u16 {
    ((pc + len) % 0x10000) as u16
}

/// Why a step did not run an instruction.
#[derive(Clone, Copy, Debug, PartialEq, Eq, Structural)]
pub enum StepError {
    /// The opcode at `pc` has no meaning on the hardware.
    IllegalOpcode { opcode: u8, pc: u16 },
    /// The engine has no handler for the action of the opcode. The other
    /// fields are the registers as the engine held them, the program
    /// counter already behind the instruction.
    Unimplemented {
        opcode: u8,
        action: IAction,
        af: u16,
        bc: u16,
        de: u16,
        hl: u16,
        sp: u16,
        pc: u16,
    },
}

/// The state of the machine.
#[verifier::ext_equal]
pub struct CpuState {
    pub reg: RegisterState,
    /// What each of the 64K addresses reads.
    pub mem: Seq<u8>,
    pub sp: u16,
    pub pc: u16,
}

impl CpuState {
    /// The state after the boot sequence, over the cartridge `rom`.
    pub open spec fn power_on(rom: Seq<u8>) -> CpuState {
        CpuState { reg: RegisterState::power_on(), mem: power_on(rom), sp: 0xFFFE, pc: 0x0100 }
    }

    /// The state with other registers.
    pub open spec fn with_reg(self, reg: RegisterState) -> CpuState {
        CpuState { reg, ..self }
    }

    /// The state with other flags.
    pub open spec fn with_flags(self, f: FlagSet) -> CpuState {
        CpuState { reg: RegisterState { f, ..self.reg }, ..self }
    }

    /// The byte in a byte register.
    pub open spec fn register(self, reg: IRegister) -> u8
        recommends
            reg.is_byte(),
    {
        match reg {
            IRegister::A => self.reg.a,
            IRegister::B => self.reg.b,
            IRegister::C => self.reg.c,
            IRegister::D => self.reg.d,
            IRegister::E => self.reg.e,
            IRegister::H => self.reg.h,
            IRegister::L => self.reg.l,
            _ => 0,
        }
    }

    /// The state after `value` is written to a byte register.
    pub open spec fn with_register(self, reg: IRegister, value: u8) -> CpuState
        recommends
            reg.is_byte(),
    {
        match reg {
            IRegister::A => self.with_reg(RegisterState { a: value, ..self.reg }),
            IRegister::B => self.with_reg(RegisterState { b: value, ..self.reg }),
            IRegister::C => self.with_reg(RegisterState { c: value, ..self.reg }),
            IRegister::D => self.with_reg(RegisterState { d: value, ..self.reg }),
            IRegister::E => self.with_reg(RegisterState { e: value, ..self.reg }),
            IRegister::H => self.with_reg(RegisterState { h: value, ..self.reg }),
            IRegister::L => self.with_reg(RegisterState { l: value, ..self.reg }),
            _ => self,
        }
    }

    /// The word that a register reads as. A byte register is widened; HL+
    /// and HL- read as HL.
    pub open spec fn register_word(self, reg: IRegister) -> u16 {
        match reg {
            IRegister::AF => self.reg.af(),
            IRegister::BC => self.reg.bc(),
            IRegister::DE => self.reg.de(),
            IRegister::HL | IRegister::HL_INC | IRegister::HL_DEC => self.reg.hl(),
            IRegister::SP => self.sp,
            IRegister::A => self.reg.a as u16,
            IRegister::B => self.reg.b as u16,
            IRegister::C => self.reg.c as u16,
            IRegister::D => self.reg.d as u16,
            IRegister::E => self.reg.e as u16,
            IRegister::H => self.reg.h as u16,
            IRegister::L => self.reg.l as u16,
        }
    }

    /// The state after a register was read as a word: the read moves HL
    /// where the register is HL+ or HL-, and changes nothing else.
    pub open spec fn after_register_word(self, reg: IRegister) -> CpuState {
        match reg {
            IRegister::HL_INC => self.with_reg(self.reg.with_hl(increment_word(self.reg.hl()))),
            IRegister::HL_DEC => self.with_reg(self.reg.with_hl(decrement_word(self.reg.hl()))),
            _ => self,
        }
    }

    /// The state after `value` is written to a register as a word. Through
    /// HL+ and HL-, HL gets the value plus and minus one.
    pub open spec fn with_register_word(self, reg: IRegister, value: u16) -> CpuState
        recommends
            !reg.is_byte(),
    {
        match reg {
            IRegister::AF => self.with_reg(self.reg.with_af(value)),
            IRegister::BC => self.with_reg(self.reg.with_bc(value)),
            IRegister::DE => self.with_reg(self.reg.with_de(value)),
            IRegister::HL => self.with_reg(self.reg.with_hl(value)),
            IRegister::HL_INC => self.with_reg(self.reg.with_hl(increment_word(value))),
            IRegister::HL_DEC => self.with_reg(self.reg.with_hl(decrement_word(value))),
            IRegister::SP => CpuState { sp: value, ..self },
            _ => self,
        }
    }

    /// Whether the condition holds.
    pub open spec fn condition(self, flag: IFlag) -> bool {
        match flag {
            IFlag::TRUE => true,
            IFlag::CY => self.reg.f.carry,
            IFlag::NCY => !self.reg.f.carry,
            IFlag::Z => self.reg.f.zero,
            IFlag::NZ => !self.reg.f.zero,
        }
    }

    /// The state with `value` written to memory at `addr`.
    pub open spec fn with_memory(self, addr: u16, value: u8) -> CpuState {
        CpuState { mem: write_byte(self.mem, addr, value), ..self }
    }

    /// The state with `value` written to memory at `addr`, low byte first.
    pub open spec fn with_memory_word(self, addr: u16, value: u16) -> CpuState {
        CpuState { mem: write_word(self.mem, addr, value), ..self }
    }

    /// The address that a location in memory stands for: the register as a
    /// word, or the operand byte or word of the instruction `inst`.
    pub open spec fn address_at(self, inst: Decoded, loc: ILocation) -> u16
        recommends
            loc.is_memory(),
    {
        match loc {
            ILocation::RegisterIndirectByte(reg) | ILocation::RegisterIndirectWord(reg) => {
                self.register_word(reg)
            },
            ILocation::ImmediateByteIndirectByte | ILocation::ImmediateByteIndirectWord => {
                inst.operand_byte() as u16
            },
            ILocation::ImmediateWordIndirectByte | ILocation::ImmediateWordIndirectWord => {
                inst.operand_word()
            },
            _ => 0,
        }
    }

    /// The state after the address of a location was worked out: that moves
    /// HL where the address comes from HL+ or HL-, and changes nothing
    /// else.
    pub open spec fn after_address_at(self, loc: ILocation) -> CpuState {
        match loc {
            ILocation::RegisterIndirectByte(reg) | ILocation::RegisterIndirectWord(reg) => {
                self.after_register_word(reg)
            },
            _ => self,
        }
    }

    /// The byte that the location holds for the instruction `inst`.
    pub open spec fn byte_at(self, inst: Decoded, loc: ILocation) -> u8
        recommends
            loc.reads_byte(inst.len as int),
    {
        match loc {
            ILocation::Register(reg) => self.register(reg),
            ILocation::ImmediateByte => inst.operand_byte(),
            _ => self.mem[self.address_at(inst, loc) as int],
        }
    }

    /// The state after a byte was read at the location.
    pub open spec fn after_byte_at(self, loc: ILocation) -> CpuState {
        self.after_address_at(loc)
    }

    /// The state after `value` is written to the location as a byte.
    pub open spec fn with_byte_at(self, inst: Decoded, loc: ILocation, value: u8) -> CpuState
        recommends
            loc.writes_byte(inst.len as int),
    {
        match loc {
            ILocation::Register(reg) => self.with_register(reg, value),
            _ => self.after_address_at(loc).with_memory(self.address_at(inst, loc), value),
        }
    }

    /// The word that the location holds for the instruction `inst`.
    pub open spec fn word_at(self, inst: Decoded, loc: ILocation) -> u16
        recommends
            loc.reads_word(inst.len as int),
    {
        match loc {
            ILocation::Register(reg) => self.register_word(reg),
            ILocation::ImmediateWord => inst.operand_word(),
            _ => read_word(self.mem, self.address_at(inst, loc)),
        }
    }

    /// The state after a word was read at the location: reading HL+ or HL-
    /// itself moves HL as working out an address from it does.
    pub open spec fn after_word_at(self, loc: ILocation) -> CpuState {
        match loc {
            ILocation::Register(reg) => self.after_register_word(reg),
            _ => self.after_address_at(loc),
        }
    }

    /// The state after `value` is written to the location as a word.
    pub open spec fn with_word_at(self, inst: Decoded, loc: ILocation, value: u16) -> CpuState
        recommends
            loc.writes_word(inst.len as int),
    {
        match loc {
            ILocation::Register(reg) => self.with_register_word(reg, value),
            _ => self.after_address_at(loc).with_memory_word(self.address_at(inst, loc), value),
        }
    }

    /// LD: the byte at `src` goes to `dst`. No flag changes.
    pub open spec fn ld(self, inst: Decoded, dst: ILocation, src: ILocation) -> CpuState {
        self.after_byte_at(src).with_byte_at(inst, dst, self.byte_at(inst, src))
    }

    /// LD16: the word at `src` goes to `dst`. No flag changes.
    pub open spec fn ld16(self, inst: Decoded, dst: ILocation, src: ILocation) -> CpuState {
        self.after_word_at(src).with_word_at(inst, dst, self.word_at(inst, src))
    }

    /// JP: where the condition holds, the word at `target` becomes the
    /// program counter; where it does not, nothing changes.
    pub open spec fn jp(self, inst: Decoded, flag: IFlag, target: ILocation) -> CpuState {
        if self.condition(flag) {
            CpuState { pc: self.word_at(inst, target), ..self.after_word_at(target) }
        } else {
            self
        }
    }

    /// CPL: every bit of A is inverted. No flag changes.
    pub open spec fn cpl(self) -> CpuState {
        self.with_reg(RegisterState { a: (255 - self.reg.a) as u8, ..self.reg })
    }

    /// CCF: CARRY is inverted, SUBTRACT and HALF_CARRY are set, ZERO stays.
    pub open spec fn ccf(self) -> CpuState {
        self.with_flags(
            FlagSet {
                zero: self.reg.f.zero,
                subtract: true,
                half_carry: true,
                carry: !self.reg.f.carry,
            },
        )
    }

    /// XOR: the byte at `src`, read first, exclusive-or the byte at `dst`
    /// goes to `dst`. ZERO says whether the result is zero; the other flags
    /// are cleared.
    pub open spec fn xor(self, inst: Decoded, dst: ILocation, src: ILocation) -> CpuState {
        let first = self.after_byte_at(src);
        let second = first.after_byte_at(dst);
        let value = self.byte_at(inst, src) ^ first.byte_at(inst, dst);
        second.with_byte_at(inst, dst, value).with_flags(
            FlagSet { zero: value == 0, subtract: false, half_carry: false, carry: false },
        )
    }

    /// INC: the byte at `loc` plus one goes back to `loc`. ZERO says
    /// whether the result is zero, SUBTRACT is cleared, HALF_CARRY says
    /// whether the byte was 0xFF, CARRY stays.
    pub open spec fn inc(self, inst: Decoded, loc: ILocation) -> CpuState {
        let before = self.byte_at(inst, loc);
        let written = self.after_byte_at(loc).with_byte_at(inst, loc, increment(before));
        written.with_flags(
            FlagSet {
                zero: increment(before) == 0,
                subtract: false,
                half_carry: before == 0xFF,
                carry: written.reg.f.carry,
            },
        )
    }

    /// DEC: the byte at `loc` minus one goes back to `loc`. ZERO says
    /// whether the result is zero, SUBTRACT is set, HALF_CARRY says whether
    /// the byte was zero, CARRY stays.
    pub open spec fn dec(self, inst: Decoded, loc: ILocation) -> CpuState {
        let before = self.byte_at(inst, loc);
        let written = self.after_byte_at(loc).with_byte_at(inst, loc, decrement(before));
        written.with_flags(
            FlagSet {
                zero: decrement(before) == 0,
                subtract: true,
                half_carry: before == 0,
                carry: written.reg.f.carry,
            },
        )
    }

    /// INC16: the word at `loc` plus one goes back to `loc`. No flag
    /// changes.
    pub open spec fn inc16(self, inst: Decoded, loc: ILocation) -> CpuState {
        self.after_word_at(loc).with_word_at(inst, loc, increment_word(self.word_at(inst, loc)))
    }

    /// DEC16: the word at `loc` minus one goes back to `loc`. No flag
    /// changes.
    pub open spec fn dec16(self, inst: Decoded, loc: ILocation) -> CpuState {
        self.after_word_at(loc).with_word_at(inst, loc, decrement_word(self.word_at(inst, loc)))
    }

    /// The state after the action of `inst`. An action without a handler
    /// changes nothing.
    pub open spec fn execute(self, inst: Decoded) -> CpuState {
        match inst.action {
            IAction::LD(dst, src) => self.ld(inst, dst, src),
            IAction::LD16(dst, src) => self.ld16(inst, dst, src),
            IAction::JP(flag, target) => self.jp(inst, flag, target),
            IAction::CPL => self.cpl(),
            IAction::CCF => self.ccf(),
            IAction::XOR(dst, src) => self.xor(inst, dst, src),
            IAction::DEC(loc) => self.dec(inst, loc),
            IAction::DEC16(loc) => self.dec16(inst, loc),
            IAction::INC(loc) => self.inc(inst, loc),
            IAction::INC16(loc) => self.inc16(inst, loc),
            _ => self,
        }
    }

    /// What the engine reports of the action of `inst`: nothing where it
    /// has a handler, else the opcode, the action and the registers.
    pub open spec fn execute_outcome(self, inst: Decoded) -> Result<(), StepError> {
        if inst.action.is_handled() {
            Ok(())
        } else {
            Err(
                StepError::Unimplemented {
                    opcode: inst.opcode(),
                    action: inst.action,
                    af: self.reg.af(),
                    bc: self.reg.bc(),
                    de: self.reg.de(),
                    hl: self.reg.hl(),
                    sp: self.sp,
                    pc: self.pc,
                },
            )
        }
    }

    /// The instruction at the program counter.
    pub open spec fn fetch(self) -> Decoded {
        decode_at(self.mem, self.pc)
    }

    /// The state with the program counter behind the instruction at it.
    pub open spec fn advanced(self) -> CpuState {
        CpuState { pc: advance(self.pc, self.fetch().len), ..self }
    }

    /// The state after one step. An illegal opcode changes nothing. Any
    /// other instruction moves the program counter behind itself and then
    /// acts, if the engine has a handler for it.
    pub open spec fn step(self) -> CpuState {
        if is_illegal(self.mem[self.pc as int]) {
            self
        } else {
            self.advanced().execute(self.fetch())
        }
    }

    /// What one step reports.
    pub open spec fn step_outcome(self) -> Result<(), StepError> {
        if is_illegal(self.mem[self.pc as int]) {
            Err(StepError::IllegalOpcode { opcode: self.mem[self.pc as int], pc: self.pc })
        } else {
            self.advanced().execute_outcome(self.fetch())
        }
    }
}

/// Whatever is written to a location as a byte or as a word, the memory
/// stays valid.
pub proof fn lemma_write_at_valid(state: CpuState, inst: Decoded, loc: ILocation, value: u16)
    requires
        valid_memory(state.mem),
    ensures
        valid_memory(state.after_byte_at(loc).mem),
        valid_memory(state.after_word_at(loc).mem),
        valid_memory(state.with_byte_at(inst, loc, low_byte(value)).mem),
        valid_memory(state.with_word_at(inst, loc, value).mem),
{
    lemma_write_valid(state.mem, state.address_at(inst, loc), low_byte(value));
    lemma_write_word_valid(state.mem, state.address_at(inst, loc), value);
}

/// The memory at power-on is valid.
pub proof fn lemma_power_on_state_valid(rom: Seq<u8>)
    ensures
        valid_memory(CpuState::power_on(rom).mem),
{
    lemma_power_on_valid(rom);
}

/// A step keeps the memory valid.
pub proof fn lemma_step_valid(state: CpuState)
    requires
        valid_memory(state.mem),
    ensures
        valid_memory(state.step().mem),
{
    let inst = state.fetch();
    let s = state.advanced();
    match inst.action {
        IAction::LD(dst, src) => {
            lemma_write_at_valid(s, inst, src, 0);
            lemma_write_at_valid(s.after_byte_at(src), inst, dst, s.byte_at(inst, src) as u16);
        },
        IAction::LD16(dst, src) => {
            lemma_write_at_valid(s, inst, src, 0);
            lemma_write_at_valid(s.after_word_at(src), inst, dst, s.word_at(inst, src));
        },
        IAction::JP(flag, target) => {
            lemma_write_at_valid(s, inst, target, 0);
        },
        IAction::XOR(dst, src) => {
            let first = s.after_byte_at(src);
            let second = first.after_byte_at(dst);
            lemma_write_at_valid(s, inst, src, 0);
            lemma_write_at_valid(first, inst, dst, 0);
            lemma_write_at_valid(
                second,
                inst,
                dst,
                (s.byte_at(inst, src) ^ first.byte_at(inst, dst)) as u16,
            );
        },
        IAction::INC(loc) => {
            lemma_write_at_valid(s, inst, loc, 0);
            lemma_write_at_valid(
                s.after_byte_at(loc),
                inst,
                loc,
                increment(s.byte_at(inst, loc)) as u16,
            );
        },
        IAction::DEC(loc) => {
            lemma_write_at_valid(s, inst, loc, 0);
            lemma_write_at_valid(
                s.after_byte_at(loc),
                inst,
                loc,
                decrement(s.byte_at(inst, loc)) as u16,
            );
        },
        IAction::INC16(loc) => {
            lemma_write_at_valid(s, inst, loc, 0);
            lemma_write_at_valid(
                s.after_word_at(loc),
                inst,
                loc,
                increment_word(s.word_at(inst, loc)),
            );
        },
        IAction::DEC16(loc) => {
            lemma_write_at_valid(s, inst, loc, 0);
            lemma_write_at_valid(
                s.after_word_at(loc),
                inst,
                loc,
                decrement_word(s.word_at(inst, loc)),
            );
        },
        _ => {},
    }
}

/// The location names one byte, the same one before and after it was read
/// or written: a byte register, a fixed address, or the address in a
/// register that neither the access nor a change of flags moves (so not
/// HL+, HL- or AF).
pub open spec fn is_steady(loc: ILocation) -> bool {
    match loc {
        ILocation::Register(reg) => reg.is_byte(),
        ILocation::RegisterIndirectByte(reg) => !(reg is HL_INC || reg is HL_DEC || reg is AF),
        ILocation::ImmediateByteIndirectByte | ILocation::ImmediateWordIndirectByte => true,
        _ => false,
    }
}

/// INC and then DEC on a steady location give back the state they began
/// with, but for the flags: CARRY is kept, SUBTRACT is set, and ZERO and
/// HALF_CARRY are those of the DEC, which says of the byte that it found
/// whether it became zero and whether it was zero.
pub proof fn lemma_inc_then_dec(state: CpuState, inst: Decoded, loc: ILocation)
    requires
        valid_memory(state.mem),
        is_steady(loc),
        loc.writes_byte(inst.len as int),
    ensures
        ({
            let up = state.inc(inst, loc);
            let down = up.dec(inst, loc);
            let found = up.byte_at(inst, loc);
            &&& found == (if loc.is_memory() && region_of(state.address_at(inst, loc) as int)
                is Unmapped {
                0
            } else {
                increment(state.byte_at(inst, loc))
            })
            &&& down.byte_at(inst, loc) == state.byte_at(inst, loc)
            &&& down == state.with_flags(
                FlagSet {
                    zero: decrement(found) == 0,
                    subtract: true,
                    half_carry: found == 0,
                    carry: state.reg.f.carry,
                },
            )
        }),
{
    let up = state.inc(inst, loc);
    let down = up.dec(inst, loc);
    match loc {
        ILocation::Register(reg) => {
            assert(down.reg == (RegisterState { f: down.reg.f, ..state.reg }));
        },
        _ => {
            lemma_write_twice(
                state.mem,
                state.address_at(inst, loc),
                increment(state.byte_at(inst, loc)),
            );
        },
    }
}

/// Writing to an address and then writing back what it read before gives
/// the memory back.
proof fn lemma_write_twice(mem: Seq<u8>, addr: u16, value: u8)
    requires
        valid_memory(mem),
    ensures
        write_byte(mem, addr, value)[addr as int] == (if region_of(addr as int) is Unmapped {
            0
        } else {
            value
        }),
        region_of(addr as int) is Unmapped ==> write_byte(mem, addr, 0xFF) == mem,
        write_byte(write_byte(mem, addr, value), addr, mem[addr as int]) == mem,
{
    lemma_write_back(mem, addr);
    assert(write_byte(write_byte(mem, addr, value), addr, mem[addr as int]) =~= write_byte(
        mem,
        addr,
        mem[addr as int],
    ));
}

/// XOR of A with itself leaves zero in A, sets ZERO and clears the other
/// flags, whatever A held.
pub proof fn lemma_xor_a_with_a(state: CpuState, inst: Decoded)
    ensures
        state.xor(inst, ILocation::Register(IRegister::A), ILocation::Register(IRegister::A))
            == state.with_reg(
            RegisterState {
                a: 0,
                f: FlagSet { zero: true, subtract: false, half_carry: false, carry: false },
                ..state.reg
            },
        ),
{
    let a = state.reg.a;
    assert(a ^ a == 0) by (bit_vector);
}

} // verus!
