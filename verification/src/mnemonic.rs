//! Instructions in words, as a listing shows them.

use vstd::prelude::*;
use crate::instruction::{Instruction, Operation, Varset};
use crate::text::{
    decimal_text, hex_text, prefixed_hex_text, push_decimal, push_hex, push_prefixed_hex,
};

verus! {

/// How an operand reference reads in a listing: `V` and the register number
/// in upper-case hexadecimal, or the name of the latch or timer.
pub open spec fn varset_text(vs: Varset) -> Seq<char> {
    match vs {
        Varset::V(vnum) => "V"@ + hex_text(vnum as nat, 1, true),
        Varset::Keyboard => "Keyboard"@,
        Varset::DelayTimer => "DelayTimer"@,
        Varset::SoundTimer => "SoundTimer"@,
    }
}

/// What a listing says where an instruction carries an operation that its
/// shape does not define.
pub open spec fn unsupported_text() -> Seq<char> {
    "display of operation not supported"@
}

/// How an operation of a destination with an immediate reads.
pub open spec fn on_value_text(var: Varset, val: u8, op: Operation) -> Seq<char> {
    let var = varset_text(var);
    let val = prefixed_hex_text(val as nat, 2);
    match op {
        Operation::Assign => "set "@ + var + " to "@ + val,
        Operation::IncrementNoCarry => "increment "@ + var + " by "@ + val + " ignoring carry"@,
        Operation::Randomize => "randomize "@ + var + " using "@ + val,
        _ => unsupported_text(),
    }
}

/// How an operation of a destination with another operand reads.
pub open spec fn on_variable_text(varx: Varset, vary: Varset, op: Operation) -> Seq<char> {
    let x = varset_text(varx);
    let y = varset_text(vary);
    match op {
        Operation::Assign => "set "@ + x + " to "@ + y,
        Operation::IncrementNoCarry => "increment "@ + x + " by "@ + y + " ignoring carry"@,
        Operation::IncrementWithCarry => "increment "@ + x + " by "@ + y + " using carry"@,
        Operation::DecrementAndFlip => "decrement "@ + x + " by "@ + y
            + " ignoring carry, then flip its sign"@,
        Operation::DecrementWithBorrow => "decrement "@ + x + " by "@ + y + " using borrow"@,
        Operation::Randomize => "randomize "@ + x + " using "@ + y,
        Operation::BitOr => "bitwise Or on "@ + x + " using "@ + y + " as second input"@,
        Operation::BitXor => "bitwise XOr on "@ + x + " using "@ + y + " as second input"@,
        Operation::BitAnd => "bitwise And on "@ + x + " using "@ + y + " as second input"@,
        Operation::BitshiftAndStore => "bitshift "@ + x + " and store carry on "@ + y,
        Operation::SpriteMultiply => unsupported_text(),
    }
}

/// How an instruction reads in a listing.
pub open spec fn instruction_text(instruction: Instruction) -> Seq<char> {
    match instruction {
        Instruction::RCARoutine(routine) => "RCA routine "@ + prefixed_hex_text(routine as nat, 3),
        Instruction::ClearDraw => "clear display"@,
        Instruction::ReturnFromSubroutine => "return from subroutine"@,
        Instruction::GotoAdress(address) => "goto address "@ + prefixed_hex_text(
            address as nat,
            3,
        ),
        Instruction::RunSubroutineAtAdress(address) => "run subroutine at "@ + prefixed_hex_text(
            address as nat,
            3,
        ),
        Instruction::SkipNextIfVarEq(var, val) => "if ("@ + varset_text(var) + " == "@
            + prefixed_hex_text(val as nat, 2) + ") skip next"@,
        Instruction::SkipNextIfVarNeq(var, val) => "if ("@ + varset_text(var) + " != "@
            + prefixed_hex_text(val as nat, 2) + ") skip next"@,
        Instruction::VariableOnValue(var, val, op) => on_value_text(var, val, op),
        Instruction::SkipNextIfVarsEq(varx, vary) => "if ("@ + varset_text(varx) + " == "@
            + varset_text(vary) + ") skip next"@,
        Instruction::SkipNextIfVarsNeq(varx, vary) => "if ("@ + varset_text(varx) + " != "@
            + varset_text(vary) + ") skip next"@,
        Instruction::VariableOnVariable(varx, vary, op) => on_variable_text(varx, vary, op),
        Instruction::DrawSpriteXYH(varx, vary, h) => "draw sprite at "@ + varset_text(varx) + ","@
            + varset_text(vary) + " with height "@ + decimal_text(h as nat),
        Instruction::SetITo(num) => "set I to "@ + decimal_text(num as nat),
        Instruction::IOnVariable(vs, op) => match op {
            Operation::SpriteMultiply => "set I to address for sprite "@ + varset_text(vs),
            Operation::IncrementNoCarry => "increment I by "@ + varset_text(vs),
            _ => unsupported_text(),
        },
        Instruction::StoreVarAsDecimalInPositionI(vs) => "store "@ + varset_text(vs)
            + " at decimal starting from memory position I"@,
        Instruction::DumpVariablesUptoInPositionI(vs) => "dump "@ + varset_text(Varset::V(0))
            + "--"@ + varset_text(vs) + " to memory position I"@,
        Instruction::LoadVariablesUptoFromPositionI(vs) => "load "@ + varset_text(Varset::V(0))
            + "--"@ + varset_text(vs) + " from memory position I"@,
    }
}

impl Varset {
    /// Appends the reference as a listing shows it.
    pub fn push_to(&self, s: &mut String)
        ensures
            final(s)@ == old(s)@ + varset_text(*self),
    {
        match self {
            Varset::V(vnum) => {
                s.append("V");
                push_hex(s, *vnum as u16, 1, true);
                assert(s@ =~= old(s)@ + varset_text(*self));
            },
            Varset::Keyboard => s.append("Keyboard"),
            Varset::DelayTimer => s.append("DelayTimer"),
            Varset::SoundTimer => s.append("SoundTimer"),
        }
    }

    /// The reference as a listing shows it.
    pub fn to_string(&self) -> (s: String)
        ensures
            s@ == varset_text(*self),
    {
        let mut s = String::new();
        self.push_to(&mut s);
        assert(s@ =~= varset_text(*self));
        s
    }
}

/// Appends `head`, the first operand, `mid`, the second operand, and `tail`.
fn push_two_operands(s: &mut String, head: &str, x: Varset, mid: &str, y: Varset, tail: &str)
    ensures
        final(s)@ == old(s)@ + (head@ + varset_text(x) + mid@ + varset_text(y) + tail@),
{
    s.append(head);
    x.push_to(s);
    s.append(mid);
    y.push_to(s);
    s.append(tail);
    assert(s@ =~= old(s)@ + (head@ + varset_text(x) + mid@ + varset_text(y) + tail@));
}

/// Appends `head`, the operand, `mid`, the byte in hexadecimal, and `tail`.
fn push_operand_and_byte(s: &mut String, head: &str, x: Varset, mid: &str, val: u8, tail: &str)
    ensures
        final(s)@ == old(s)@ + (head@ + varset_text(x) + mid@ + prefixed_hex_text(val as nat, 2)
            + tail@),
{
    s.append(head);
    x.push_to(s);
    s.append(mid);
    push_prefixed_hex(s, val as u16, 2);
    s.append(tail);
    assert(s@ =~= old(s)@ + (head@ + varset_text(x) + mid@ + prefixed_hex_text(val as nat, 2)
        + tail@));
}

/// Appends `head` and the address in hexadecimal.
fn push_address(s: &mut String, head: &str, address: u16)
    ensures
        final(s)@ == old(s)@ + (head@ + prefixed_hex_text(address as nat, 3)),
{
    s.append(head);
    push_prefixed_hex(s, address, 3);
    assert(s@ =~= old(s)@ + (head@ + prefixed_hex_text(address as nat, 3)));
}

/// The text of an operation of a destination with an immediate.
fn on_value_string(var: Varset, val: u8, op: Operation) -> (s: String)
    ensures
        s@ == on_value_text(var, val, op),
{
    proof {
        reveal_strlit("");
    }
    let mut s = String::new();
    match op {
        Operation::Assign => push_operand_and_byte(&mut s, "set ", var, " to ", val, ""),
        Operation::IncrementNoCarry => push_operand_and_byte(
            &mut s,
            "increment ",
            var,
            " by ",
            val,
            " ignoring carry",
        ),
        Operation::Randomize => push_operand_and_byte(&mut s, "randomize ", var, " using ", val, ""),
        _ => s.append("display of operation not supported"),
    }
    assert(s@ =~= on_value_text(var, val, op));
    s
}

/// The text of an operation of a destination with another operand.
fn on_variable_string(x: Varset, y: Varset, op: Operation) -> (s: String)
    ensures
        s@ == on_variable_text(x, y, op),
{
    proof {
        reveal_strlit("");
    }
    let mut s = String::new();
    match op {
        Operation::Assign => push_two_operands(&mut s, "set ", x, " to ", y, ""),
        Operation::IncrementNoCarry => push_two_operands(
            &mut s,
            "increment ",
            x,
            " by ",
            y,
            " ignoring carry",
        ),
        Operation::IncrementWithCarry => push_two_operands(
            &mut s,
            "increment ",
            x,
            " by ",
            y,
            " using carry",
        ),
        Operation::DecrementAndFlip => push_two_operands(
            &mut s,
            "decrement ",
            x,
            " by ",
            y,
            " ignoring carry, then flip its sign",
        ),
        Operation::DecrementWithBorrow => push_two_operands(
            &mut s,
            "decrement ",
            x,
            " by ",
            y,
            " using borrow",
        ),
        Operation::Randomize => push_two_operands(&mut s, "randomize ", x, " using ", y, ""),
        Operation::BitOr => push_two_operands(
            &mut s,
            "bitwise Or on ",
            x,
            " using ",
            y,
            " as second input",
        ),
        Operation::BitXor => push_two_operands(
            &mut s,
            "bitwise XOr on ",
            x,
            " using ",
            y,
            " as second input",
        ),
        Operation::BitAnd => push_two_operands(
            &mut s,
            "bitwise And on ",
            x,
            " using ",
            y,
            " as second input",
        ),
        Operation::BitshiftAndStore => push_two_operands(
            &mut s,
            "bitshift ",
            x,
            " and store carry on ",
            y,
            "",
        ),
        Operation::SpriteMultiply => s.append("display of operation not supported"),
    }
    assert(s@ =~= on_variable_text(x, y, op));
    s
}

impl Instruction {
    /// The instruction as a listing shows it. An operation that the shape of
    /// the instruction does not define is shown as such.
    pub fn to_string(&self) -> (s: String)
        ensures
            s@ == instruction_text(*self),
    {
        proof {
            reveal_strlit("");
        }
        let mut s = String::new();
        match *self {
            Instruction::RCARoutine(routine) => push_address(&mut s, "RCA routine ", routine),
            Instruction::ClearDraw => s.append("clear display"),
            Instruction::ReturnFromSubroutine => s.append("return from subroutine"),
            Instruction::GotoAdress(address) => push_address(&mut s, "goto address ", address),
            Instruction::RunSubroutineAtAdress(address) => push_address(
                &mut s,
                "run subroutine at ",
                address,
            ),
            Instruction::SkipNextIfVarEq(var, val) => push_operand_and_byte(
                &mut s,
                "if (",
                var,
                " == ",
                val,
                ") skip next",
            ),
            Instruction::SkipNextIfVarNeq(var, val) => push_operand_and_byte(
                &mut s,
                "if (",
                var,
                " != ",
                val,
                ") skip next",
            ),
            Instruction::VariableOnValue(var, val, op) => {
                return on_value_string(var, val, op);
            },
            Instruction::SkipNextIfVarsEq(varx, vary) => push_two_operands(
                &mut s,
                "if (",
                varx,
                " == ",
                vary,
                ") skip next",
            ),
            Instruction::SkipNextIfVarsNeq(varx, vary) => push_two_operands(
                &mut s,
                "if (",
                varx,
                " != ",
                vary,
                ") skip next",
            ),
            Instruction::VariableOnVariable(varx, vary, op) => {
                return on_variable_string(varx, vary, op);
            },
            Instruction::DrawSpriteXYH(varx, vary, h) => {
                push_two_operands(&mut s, "draw sprite at ", varx, ",", vary, " with height ");
                push_decimal(&mut s, h as u16);
            },
            Instruction::SetITo(num) => {
                s.append("set I to ");
                push_decimal(&mut s, num);
            },
            Instruction::IOnVariable(vs, op) => match op {
                Operation::SpriteMultiply => {
                    s.append("set I to address for sprite ");
                    vs.push_to(&mut s);
                },
                Operation::IncrementNoCarry => {
                    s.append("increment I by ");
                    vs.push_to(&mut s);
                },
                _ => s.append("display of operation not supported"),
            },
            Instruction::StoreVarAsDecimalInPositionI(vs) => {
                s.append("store ");
                vs.push_to(&mut s);
                s.append(" at decimal starting from memory position I");
            },
            Instruction::DumpVariablesUptoInPositionI(vs) => push_two_operands(
                &mut s,
                "dump ",
                Varset::V(0),
                "--",
                vs,
                " to memory position I",
            ),
            Instruction::LoadVariablesUptoFromPositionI(vs) => push_two_operands(
                &mut s,
                "load ",
                Varset::V(0),
                "--",
                vs,
                " from memory position I",
            ),
        }
        assert(s@ =~= instruction_text(*self));
        s
    }
}

} // verus!
