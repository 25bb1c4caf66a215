//! The listing of the program.

use std::collections::BTreeMap;
use vstd::prelude::*;
use crate::cpu::Cpu;
use crate::instructions::{decode_at, Decoded, DecodedInstruction};
use crate::opcodes::{instruction_at, lemma_length};

verus! {

/// Where the listing ends: the first address behind the cartridge ROM.
pub const LISTING_END: u16 = 0x8000;

/// The addresses of the instructions from `pc` on, each found behind the
/// one before it, as far as they lie in the cartridge ROM.
pub open spec fn listing(mem: Seq<u8>, pc: int) -> Seq<int>
    decreases 0x10000 - pc,
{
    if 0 <= pc < LISTING_END {
        proof {
            lemma_length(mem[pc]);
        }
        seq![pc] + listing(mem, pc + instruction_at(mem[pc]).length)
    } else {
        Seq::empty()
    }
}

/// The place of `address` among `addresses`.
pub open spec fn line_of(addresses: Seq<int>, address: int) -> int {
    choose|i: int| 0 <= i < addresses.len() && addresses[i] == address
}

/// A line of the listing.
pub struct InstructionRow {
    pub address: u16,
    pub instruction: DecodedInstruction,
}

/// What a listing holds.
pub struct Listing {
    /// The lines: address and instruction.
    pub rows: Seq<(u16, Decoded)>,
    /// The line of each address that an instruction starts at.
    pub addr_to_index: Map<u16, usize>,
}

/// The listing of `mem` from `pc` on: a line for each address of
/// `listing`, in that order, with the instruction found there, and the
/// index of each line under its address. No address stands in two lines.
pub open spec fn listing_of(mem: Seq<u8>, pc: u16) -> Listing {
    let addresses = listing(mem, pc as int);
    Listing {
        rows: Seq::new(
            addresses.len(),
            |i: int| (addresses[i] as u16, decode_at(mem, addresses[i] as u16)),
        ),
        addr_to_index: Map::new(
            |a: u16| addresses.contains(a as int),
            |a: u16| line_of(addresses, a as int) as usize,
        ),
    }
}

/// The addresses of a listing begin at `pc`, lie in the cartridge ROM and
/// grow from line to line, so there are no more of them than addresses from
/// `pc` to the end of the ROM.
pub proof fn lemma_listing_grows(mem: Seq<u8>, pc: int)
    ensures
        forall|i: int|
            0 <= i < listing(mem, pc).len() ==> pc <= #[trigger] listing(mem, pc)[i] < LISTING_END,
        forall|i: int, j: int|
            0 <= i < j < listing(mem, pc).len() ==> listing(mem, pc)[i] < listing(mem, pc)[j],
        listing(mem, pc).len() <= (if 0 <= pc < LISTING_END {
            LISTING_END - pc
        } else {
            0
        }),
    decreases 0x10000 - pc,
{
    if 0 <= pc < LISTING_END {
        lemma_length(mem[pc]);
        let next = pc + instruction_at(mem[pc]).length;
        lemma_listing_grows(mem, next);
        let rest = listing(mem, next);
        let all = listing(mem, pc);
        assert forall|i: int| 0 <= i < all.len() implies pc <= #[trigger] all[i] < LISTING_END by {
            if i > 0 {
                assert(all[i] == rest[i - 1]);
            }
        }
        assert forall|i: int, j: int| 0 <= i < j < all.len() implies all[i] < all[j] by {
            assert(all[j] == rest[j - 1]);
            if i > 0 {
                assert(all[i] == rest[i - 1]);
            }
        }
    }
}

/// In the listing, the line under an address is the line of that address.
pub proof fn lemma_listing_indexed(mem: Seq<u8>, pc: u16, i: int)
    requires
        0 <= i < listing(mem, pc as int).len(),
    ensures
        listing_of(mem, pc).rows[i].0 == listing(mem, pc as int)[i],
        listing_of(mem, pc).addr_to_index.contains_key(listing_of(mem, pc).rows[i].0),
        listing_of(mem, pc).addr_to_index[listing_of(mem, pc).rows[i].0] == i,
{
    lemma_listing_grows(mem, pc as int);
    let addresses = listing(mem, pc as int);
    assert(addresses.contains(addresses[i]));
    let k = line_of(addresses, addresses[i]);
    if k < i {
        assert(addresses[k] < addresses[i]);
    } else if i < k {
        assert(addresses[i] < addresses[k]);
    }
}

/// A listing that is extended behind its last line: the addresses up to
/// `next` and then those from `next` on are those from `pc` on.
proof fn lemma_listing_split(mem: Seq<u8>, pc: int, done: Seq<int>, next: int)
    requires
        0 <= pc,
        pc <= next,
        listing(mem, pc) == done + listing(mem, next),
        0 <= next < LISTING_END,
    ensures
        listing(mem, pc) == done.push(next) + listing(
            mem,
            next + instruction_at(mem[next]).length,
        ),
{
    let rest = listing(mem, next + instruction_at(mem[next]).length);
    assert(done + (seq![next] + rest) =~= done.push(next) + rest);
}

/// The listing of the program, as the inspector shows it.
pub struct InstructionsWidget {
    rows: Vec<InstructionRow>,
    addr_to_index: BTreeMap<u16, usize>,
}

impl View for InstructionsWidget {
    type V = Listing;

    closed spec fn view(&self) -> Listing {
        Listing {
            rows: Seq::new(
                self.rows@.len(),
                |i: int| (self.rows@[i].address, self.rows@[i].instruction@),
            ),
            addr_to_index: self.addr_to_index@,
        }
    }
}

impl InstructionsWidget {
    /// Lists the program from the program counter of `cpu` on.
    pub fn new(cpu: &Cpu) -> (widget: InstructionsWidget)
        ensures
            widget@ == listing_of(cpu@.mem, cpu@.pc),
    {
        broadcast use vstd::std_specs::btree::group_btree_axioms;

        let mut rows: Vec<InstructionRow> = Vec::new();
        let mut addr_to_index: BTreeMap<u16, usize> = BTreeMap::new();

        let mut pc = cpu.pc();
        let mut index: usize = 0;
        let ghost mem = cpu@.mem;
        let ghost start = cpu@.pc as int;
        let ghost done: Seq<int> = Seq::empty();
        proof {
            lemma_listing_grows(mem, start);
            assert(listing(mem, start) =~= done + listing(mem, start));
        }

        while pc < LISTING_END
            invariant
                mem == cpu@.mem,
                start <= pc,
                0 <= start,
                index == rows.len(),
                rows.len() == done.len(),
                listing(mem, start) == done + listing(mem, pc as int),
                listing(mem, start).len() <= LISTING_END,
                forall|i: int|
                    0 <= i < done.len() ==> rows[i].address == #[trigger] done[i]
                        && rows[i].instruction@ == decode_at(mem, done[i] as u16),
                forall|i: int| 0 <= i < done.len() ==> #[trigger] done[i] < pc,
                forall|a: u16| #[trigger]
                    addr_to_index@.contains_key(a) <==> done.contains(a as int),
                forall|i: int|
                    0 <= i < done.len() ==> addr_to_index@[#[trigger] done[i] as u16] == i,
            decreases 0x10000 - pc,
        {
            let inst = InstructionRow {
                address: pc,
                instruction: DecodedInstruction::decode(cpu.mmu(), pc),
            };
            proof {
                lemma_length(mem[pc as int]);
                lemma_listing_split(mem, start, done, pc as int);
                assert forall|a: u16| #[trigger]
                    addr_to_index@.insert(pc, index).contains_key(a) <==> done.push(
                        pc as int,
                    ).contains(a as int) by {
                    if a == pc {
                        assert(done.push(pc as int)[done.len() as int] == pc);
                    } else if done.contains(a as int) {
                        let k = choose|k: int| 0 <= k < done.len() && done[k] == a as int;
                        assert(done.push(pc as int)[k] == a as int);
                    }
                }
                done = done.push(pc as int);
            }

            addr_to_index.insert(pc, index);

            pc = pc + inst.instruction.len() as u16;

            rows.push(inst);

            index = index + 1;
        }

        let widget = InstructionsWidget { rows, addr_to_index };
        proof {
            let addresses = listing(mem, start);
            assert(addresses =~= done);
            let want = listing_of(mem, start as u16);
            assert(widget@.rows =~= want.rows);
            assert forall|a: u16| #[trigger] want.addr_to_index.contains_key(a) implies
                widget@.addr_to_index[a] == want.addr_to_index[a] by {
                let k = line_of(addresses, a as int);
                assert(0 <= k < done.len() && done[k] == a as int);
                assert(widget@.addr_to_index[done[k] as u16] == k);
            }
            assert(widget@.addr_to_index =~= want.addr_to_index);
        }
        widget
    }

    /// The lines of the listing.
    pub fn rows(&self) -> (rows: &Vec<InstructionRow>)
        ensures
            rows@.len() == self@.rows.len(),
            forall|i: int|
                0 <= i < rows@.len() ==> (#[trigger] rows@[i].address, rows@[i].instruction@)
                    == self@.rows[i],
    {
        &self.rows
    }

    /// The line that starts at `address`, if one does.
    pub fn index_of(&self, address: u16) -> (index: Option<usize>)
        ensures
            index == (if self@.addr_to_index.contains_key(address) {
                Some(self@.addr_to_index[address])
            } else {
                None
            }),
    {
        broadcast use vstd::std_specs::btree::group_btree_axioms;

        match self.addr_to_index.get(&address) {
            Some(index) => Some(*index),
            None => None,
        }
    }
}

} // verus!
