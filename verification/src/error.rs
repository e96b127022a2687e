//! The failures that stop the machine.

use vstd::prelude::*;
use crate::text::{prefixed_hex_text, push_prefixed_hex};

verus! {

/// Why the execution engine stopped. Every failure is terminal: nothing is
/// retried, and the value names the opcode or the address at fault.
#[derive(Clone, Copy, Debug, PartialEq, Eq, Structural)]
pub enum Chip8Error {
    /// The opcode belongs to no instruction family.
    InvalidOpcode(u16),
    /// The opcode's family is known, but the family does not define it.
    UnimplementedOpcode(u16),
    /// A fetch or a memory access at this address lies outside the valid range.
    AddressOutOfBounds(u16),
    /// A return was executed while the call stack was empty.
    StackUnderflow,
    /// The opcode names an operand that its instruction does not accept.
    ReservedOperandMisuse(u16),
}

/// What a failure says to the user.
pub open spec fn error_text(e: Chip8Error) -> Seq<char> {
    match e {
        Chip8Error::InvalidOpcode(opcode) => "opcode "@ + prefixed_hex_text(opcode as nat, 4)
            + " not implemented"@,
        Chip8Error::UnimplementedOpcode(opcode) => "opcode "@ + prefixed_hex_text(
            opcode as nat,
            4,
        ) + " not implemented in its family"@,
        Chip8Error::AddressOutOfBounds(address) => "address "@ + prefixed_hex_text(
            address as nat,
            4,
        ) + " out of bounds"@,
        Chip8Error::StackUnderflow => "return with an empty call stack"@,
        Chip8Error::ReservedOperandMisuse(opcode) => "opcode "@ + prefixed_hex_text(
            opcode as nat,
            4,
        ) + ": vf not allowed here"@,
    }
}

impl Chip8Error {
    /// The failure in words, with the opcode or the address at fault.
    pub fn to_string(&self) -> (s: String)
        ensures
            s@ == error_text(*self),
    {
        let mut s = String::new();
        match *self {
            Chip8Error::InvalidOpcode(opcode) => {
                s.append("opcode ");
                push_prefixed_hex(&mut s, opcode, 4);
                s.append(" not implemented");
            },
            Chip8Error::UnimplementedOpcode(opcode) => {
                s.append("opcode ");
                push_prefixed_hex(&mut s, opcode, 4);
                s.append(" not implemented in its family");
            },
            Chip8Error::AddressOutOfBounds(address) => {
                s.append("address ");
                push_prefixed_hex(&mut s, address, 4);
                s.append(" out of bounds");
            },
            Chip8Error::StackUnderflow => {
                s.append("return with an empty call stack");
            },
            Chip8Error::ReservedOperandMisuse(opcode) => {
                s.append("opcode ");
                push_prefixed_hex(&mut s, opcode, 4);
                s.append(": vf not allowed here");
            },
        }
        assert(s@ =~= error_text(*self));
        s
    }
}

} // verus!
