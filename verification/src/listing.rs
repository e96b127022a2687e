//! The listing of a program: each instruction slot with its address, its
//! opcode, and what the decoder makes of it.

use vstd::prelude::*;
use crate::cartridge::{Cartridge, MemoryImage, CARTRIDGE_START};
use crate::error::{error_text, Chip8Error};
use crate::instruction::{decode, from_opcode, Instruction};
use crate::mnemonic::instruction_text;
use crate::text::{prefixed_hex_text, push_prefixed_hex};

verus! {

/// One line of a listing.
#[derive(Clone, Copy, Debug, PartialEq, Eq)]
pub struct ListingEntry {
    pub address: u16,
    pub opcode: u16,
    /// The instruction, or why the opcode is none.
    pub instruction: Result<Instruction, Chip8Error>,
}

/// Number of instruction slots of a program: the pairs of bytes from the
/// program start on that lie in the valid range.
pub open spec fn slots(image: MemoryImage) -> int {
    (image.end - CARTRIDGE_START) / 2
}

/// The line of slot `k`: the slot's address, the big-endian word there, and
/// the word decoded.
pub open spec fn entry_at(image: MemoryImage, k: int) -> ListingEntry {
    let address = (CARTRIDGE_START + 2 * k) as u16;
    let opcode = (image.bytes[address as int] * 0x100 + image.bytes[address + 1]) as u16;
    ListingEntry { address, opcode, instruction: decode(opcode) }
}

/// How a line reads: address and opcode in hexadecimal, then the instruction
/// in words, or the failure of the decoder.
pub open spec fn entry_text(entry: ListingEntry) -> Seq<char> {
    prefixed_hex_text(entry.address as nat, 4) + "  "@ + prefixed_hex_text(
        entry.opcode as nat,
        4,
    ) + "  "@ + match entry.instruction {
        Ok(instruction) => instruction_text(instruction),
        Err(e) => error_text(e),
    }
}

impl ListingEntry {
    /// The line as text.
    pub fn to_string(&self) -> (s: String)
        ensures
            s@ == entry_text(*self),
    {
        let mut s = String::new();
        push_prefixed_hex(&mut s, self.address, 4);
        s.append("  ");
        push_prefixed_hex(&mut s, self.opcode, 4);
        s.append("  ");
        let words = match self.instruction {
            Ok(instruction) => instruction.to_string(),
            Err(e) => e.to_string(),
        };
        s.append(words.as_str());
        assert(s@ =~= entry_text(*self));
        s
    }
}

/// Lists the program: one line for each instruction slot, from the program
/// start to the end of the valid range. Nothing is run.
pub fn listing(cartridge: &Cartridge) -> (entries: Vec<ListingEntry>)
    requires
        cartridge.wf(),
    ensures
        entries@.len() == slots(cartridge@),
        forall|k: int| 0 <= k < entries@.len() ==> entries@[k] == entry_at(cartridge@, k),
{
    let mut entries: Vec<ListingEntry> = Vec::new();
    let mut address = cartridge.start();
    loop
        invariant
            cartridge.wf(),
            CARTRIDGE_START <= address <= cartridge@.end,
            address == CARTRIDGE_START + 2 * entries@.len(),
            forall|k: int| 0 <= k < entries@.len() ==> entries@[k] == entry_at(cartridge@, k),
        ensures
            entries@.len() == slots(cartridge@),
            forall|k: int| 0 <= k < entries@.len() ==> entries@[k] == entry_at(cartridge@, k),
        decreases cartridge@.end - address,
    {
        match cartridge.get_opcode_from(address) {
            Ok(opcode) => {
                entries.push(ListingEntry { address, opcode, instruction: from_opcode(opcode) });
                address += 2;
            },
            Err(_) => {
                break ;
            },
        }
    }
    entries
}

} // verus!
