//! Operand references, instructions, and the decoder from 16-bit opcodes.

use vstd::prelude::*;
use crate::error::Chip8Error;

verus! {

/// A handle to one piece of machine state that an instruction reads or writes.
#[derive(Clone, Copy, Debug, PartialEq, Eq, Structural)]
pub enum Varset {
    /// General register `V0`..`VF`, by its number.
    V(u8),
    /// The keyboard latch. Reading it consumes the pending key.
    Keyboard,
    /// The delay timer.
    DelayTimer,
    /// The sound timer.
    SoundTimer,
}

impl Varset {
    /// The reference names something that exists: a register number is below 16.
    pub open spec fn wf(self) -> bool {
        self matches Varset::V(n) ==> n < 16
    }

    /// The reference names storage of the register bank: a general register or
    /// a timer, never the keyboard latch.
    pub open spec fn is_storage(self) -> bool {
        self.wf() && !(self is Keyboard)
    }

    /// The reference names a general register.
    pub open spec fn is_register(self) -> bool {
        self matches Varset::V(n) && n < 16
    }

    /// Tells whether the reference names something that exists.
    pub fn is_wf(&self) -> (ok: bool)
        ensures
            ok == self.wf(),
    {
        match self {
            Varset::V(vnum) => *vnum < 16,
            _ => true,
        }
    }

    /// Tells whether the reference names a register or a timer.
    pub fn names_storage(&self) -> (ok: bool)
        ensures
            ok == self.is_storage(),
    {
        match self {
            Varset::V(vnum) => *vnum < 16,
            Varset::Keyboard => false,
            _ => true,
        }
    }
}

/// What an instruction does with its operands.
#[derive(Clone, Copy, Debug, PartialEq, Eq, Structural)]
pub enum Operation {
    /// Replace the destination by the operand.
    Assign,
    /// Add, keep the low bits, leave the flag register alone.
    IncrementNoCarry,
    /// Add, and note the carry in the flag register.
    IncrementWithCarry,
    /// Subtract the operand, and note the borrow in the flag register.
    DecrementWithBorrow,
    /// Replace the destination by a random byte masked with the operand.
    Randomize,
    BitOr,
    BitAnd,
    BitXor,
    /// Shift right by one; the bit that falls out goes to the flag register.
    BitshiftAndStore,
    /// Replace the destination by operand minus destination.
    DecrementAndFlip,
    /// Point the index register at the glyph of a hexadecimal digit.
    SpriteMultiply,
}

/// One instruction with its operands.
#[derive(Clone, Copy, Debug, PartialEq, Eq, Structural)]
pub enum Instruction {
    /// `0NNN`: a machine-code routine. It decodes, but the engine cannot run it.
    RCARoutine(u16),
    /// `00E0`: turn every pixel off.
    ClearDraw,
    /// `DXYN`: draw the sprite at the index register at the position that the
    /// two operands hold; the third field is its height in rows.
    DrawSpriteXYH(Varset, Varset, u8),
    /// `1NNN`: jump.
    GotoAdress(u16),
    /// `2NNN`: call.
    RunSubroutineAtAdress(u16),
    /// `00EE`: return.
    ReturnFromSubroutine,
    /// `EX9E`: skip the next instruction if the operands are equal.
    SkipNextIfVarsEq(Varset, Varset),
    /// `3XNN`: skip the next instruction if the operand equals the immediate.
    SkipNextIfVarEq(Varset, u8),
    /// `9XY0`, `EXA1`: skip the next instruction if the operands differ.
    SkipNextIfVarsNeq(Varset, Varset),
    /// `4XNN`: skip the next instruction if the operand differs from the
    /// immediate.
    SkipNextIfVarNeq(Varset, u8),
    /// `6XNN`, `7XNN`, `CXNN`: an operation of a destination with an immediate.
    VariableOnValue(Varset, u8, Operation),
    /// `8XYN`, `FX07`, `FX15`, `FX18`: an operation of a destination with
    /// another operand.
    VariableOnVariable(Varset, Varset, Operation),
    /// `ANNN`: set the index register.
    SetITo(u16),
    /// `FX1E`, `FX29`: update the index register from an operand.
    IOnVariable(Varset, Operation),
    /// `FX33`: store the three decimal digits of the operand at the index
    /// register on.
    StoreVarAsDecimalInPositionI(Varset),
    /// `FX55`: store the registers up to the operand at the index register on.
    DumpVariablesUptoInPositionI(Varset),
    /// `FX65`: load the registers up to the operand from the index register on.
    LoadVariablesUptoFromPositionI(Varset),
}

impl Operation {
    /// The operations that combine a destination with an immediate.
    pub open spec fn on_value(self) -> bool {
        self is Assign || self is IncrementNoCarry || self is Randomize
    }

    /// The operations that combine a destination with another operand.
    pub open spec fn on_variable(self) -> bool {
        self is Assign || self is IncrementNoCarry || self is IncrementWithCarry
            || self is DecrementAndFlip || self is DecrementWithBorrow || self is BitOr
            || self is BitAnd || self is BitXor || self is BitshiftAndStore
    }

    /// The operations that update the index register from an operand.
    pub open spec fn on_index(self) -> bool {
        self is Assign || self is IncrementNoCarry || self is SpriteMultiply
    }
}

impl Instruction {
    /// The instruction asks for a random byte.
    pub open spec fn draws_random(self) -> bool {
        self matches Instruction::VariableOnValue(_, _, Operation::Randomize)
    }

    /// The instruction carries operands that its semantics accept: register
    /// numbers below 16, the keyboard latch only where a skip compares against
    /// it, an operation that its shape defines, and a sprite of at most 15 rows.
    pub open spec fn wf(self) -> bool {
        match self {
            Instruction::RCARoutine(_) => true,
            Instruction::ClearDraw => true,
            Instruction::DrawSpriteXYH(vx, vy, h) => vx.is_storage() && vy.is_storage() && h <= 15,
            Instruction::GotoAdress(_) => true,
            Instruction::RunSubroutineAtAdress(_) => true,
            Instruction::ReturnFromSubroutine => true,
            Instruction::SkipNextIfVarsEq(va, vb) => va.wf() && vb.wf(),
            Instruction::SkipNextIfVarEq(vs, _) => vs.wf(),
            Instruction::SkipNextIfVarsNeq(va, vb) => va.wf() && vb.wf(),
            Instruction::SkipNextIfVarNeq(vs, _) => vs.wf(),
            Instruction::VariableOnValue(vs, _, op) => vs.is_storage() && op.on_value(),
            Instruction::VariableOnVariable(vs, vi, op) => vs.is_storage() && vi.is_storage()
                && op.on_variable(),
            Instruction::SetITo(_) => true,
            Instruction::IOnVariable(vs, op) => vs.is_storage() && op.on_index(),
            Instruction::StoreVarAsDecimalInPositionI(vs) => vs.is_storage(),
            Instruction::DumpVariablesUptoInPositionI(vs) => vs.is_register(),
            Instruction::LoadVariablesUptoFromPositionI(vs) => vs.is_register(),
        }
    }

    /// Tells whether the engine accepts the instruction: whether its operands
    /// exist and its operation fits its shape.
    pub fn is_wf(&self) -> (ok: bool)
        ensures
            ok == self.wf(),
    {
        match *self {
            Instruction::DrawSpriteXYH(vx, vy, h) => vx.names_storage() && vy.names_storage() && h
                <= 15,
            Instruction::SkipNextIfVarsEq(va, vb) | Instruction::SkipNextIfVarsNeq(va, vb) => {
                va.is_wf() && vb.is_wf()
            },
            Instruction::SkipNextIfVarEq(vs, _) | Instruction::SkipNextIfVarNeq(vs, _) => {
                vs.is_wf()
            },
            Instruction::VariableOnValue(vs, _, op) => vs.names_storage() && match op {
                Operation::Assign | Operation::IncrementNoCarry | Operation::Randomize => true,
                _ => false,
            },
            Instruction::VariableOnVariable(vs, vi, op) => vs.names_storage()
                && vi.names_storage() && match op {
                Operation::Randomize | Operation::SpriteMultiply => false,
                _ => true,
            },
            Instruction::IOnVariable(vs, op) => vs.names_storage() && match op {
                Operation::Assign | Operation::IncrementNoCarry | Operation::SpriteMultiply => true,
                _ => false,
            },
            Instruction::StoreVarAsDecimalInPositionI(vs) => vs.names_storage(),
            Instruction::DumpVariablesUptoInPositionI(vs)
            | Instruction::LoadVariablesUptoFromPositionI(vs) => match vs {
                Varset::V(vmax) => vmax < 16,
                _ => false,
            },
            _ => true,
        }
    }
}

/// The first register operand: the second hex digit of the opcode.
pub open spec fn field_x(opcode: u16) -> u8 {
    ((opcode & 0x0f00) >> 8) as u8
}

/// The second register operand: the third hex digit of the opcode.
pub open spec fn field_y(opcode: u16) -> u8 {
    ((opcode & 0x00f0) >> 4) as u8
}

/// The 4-bit immediate: the last hex digit of the opcode.
pub open spec fn field_n(opcode: u16) -> u8 {
    (opcode & 0x000f) as u8
}

/// The 8-bit immediate: the low byte of the opcode.
pub open spec fn field_nn(opcode: u16) -> u8 {
    (opcode & 0x00ff) as u8
}

/// The 12-bit address: the opcode without its first hex digit.
pub open spec fn field_nnn(opcode: u16) -> u16 {
    opcode & 0x0fff
}

/// The fields of an opcode are its hexadecimal digits: `x` the second, `y` the
/// third, `n` the fourth, `nn` the last two and `nnn` the last three.
pub proof fn lemma_fields_are_hex_digits(opcode: u16)
    ensures
        field_x(opcode) == (opcode / 0x100) % 0x10,
        field_y(opcode) == (opcode / 0x10) % 0x10,
        field_n(opcode) == opcode % 0x10,
        field_nn(opcode) == opcode % 0x100,
        field_nnn(opcode) == opcode % 0x1000,
        (opcode & 0xf000) == (opcode / 0x1000) * 0x1000,
{
    assert(((opcode & 0x0f00) >> 8) as u8 == (opcode / 0x100) % 0x10) by (bit_vector);
    assert(((opcode & 0x00f0) >> 4) as u8 == (opcode / 0x10) % 0x10) by (bit_vector);
    assert((opcode & 0x000f) as u8 == opcode % 0x10) by (bit_vector);
    assert((opcode & 0x00ff) as u8 == opcode % 0x100) by (bit_vector);
    assert(opcode & 0x0fff == opcode % 0x1000) by (bit_vector);
    assert((opcode & 0xf000) == (opcode / 0x1000) * 0x1000) by (bit_vector);
}

/// The arithmetic family `8XYN`: the last digit selects the operation.
pub open spec fn decode_arithmetic(opcode: u16) -> Result<Instruction, Chip8Error> {
    let vx = Varset::V(field_x(opcode));
    let vy = Varset::V(field_y(opcode));
    match opcode & 0x000f {
        0 => Ok(Instruction::VariableOnVariable(vx, vy, Operation::Assign)),
        1 => Ok(Instruction::VariableOnVariable(vx, vy, Operation::BitOr)),
        2 => Ok(Instruction::VariableOnVariable(vx, vy, Operation::BitAnd)),
        3 => Ok(Instruction::VariableOnVariable(vx, vy, Operation::BitXor)),
        4 => Ok(Instruction::VariableOnVariable(vx, vy, Operation::IncrementWithCarry)),
        5 => Ok(Instruction::VariableOnVariable(vx, vy, Operation::DecrementWithBorrow)),
        6 => Ok(Instruction::VariableOnVariable(vx, vy, Operation::BitshiftAndStore)),
        7 => Ok(Instruction::VariableOnVariable(vx, vy, Operation::DecrementAndFlip)),
        _ => Err(Chip8Error::UnimplementedOpcode(opcode)),
    }
}

/// The keyboard family `EXNN`: the low byte selects pressed or not pressed.
pub open spec fn decode_keyboard(opcode: u16) -> Result<Instruction, Chip8Error> {
    let vx = Varset::V(field_x(opcode));
    match opcode & 0x00ff {
        0x9e => Ok(Instruction::SkipNextIfVarsEq(vx, Varset::Keyboard)),
        0xa1 => Ok(Instruction::SkipNextIfVarsNeq(vx, Varset::Keyboard)),
        _ => Err(Chip8Error::UnimplementedOpcode(opcode)),
    }
}

/// The special family `FXNN`: timers, index register, memory transfers.
pub open spec fn decode_special(opcode: u16) -> Result<Instruction, Chip8Error> {
    let vx = Varset::V(field_x(opcode));
    match opcode & 0x00ff {
        0x07 => Ok(Instruction::VariableOnVariable(vx, Varset::DelayTimer, Operation::Assign)),
        0x15 => Ok(Instruction::VariableOnVariable(Varset::DelayTimer, vx, Operation::Assign)),
        0x18 => Ok(Instruction::VariableOnVariable(Varset::SoundTimer, vx, Operation::Assign)),
        0x1e => if field_x(opcode) == 0xf {
            Err(Chip8Error::ReservedOperandMisuse(opcode))
        } else {
            Ok(Instruction::IOnVariable(vx, Operation::IncrementNoCarry))
        },
        0x29 => Ok(Instruction::IOnVariable(vx, Operation::SpriteMultiply)),
        0x33 => Ok(Instruction::StoreVarAsDecimalInPositionI(vx)),
        0x55 => Ok(Instruction::DumpVariablesUptoInPositionI(vx)),
        0x65 => Ok(Instruction::LoadVariablesUptoFromPositionI(vx)),
        _ => Err(Chip8Error::UnimplementedOpcode(opcode)),
    }
}

/// What an opcode means. The two fixed opcodes come first; then the first hex
/// digit selects the family, and the families `8`, `E` and `F` look at the
/// last digit or the low byte. Families `5` and `B` do not exist.
pub open spec fn decode(opcode: u16) -> Result<Instruction, Chip8Error> {
    let vx = Varset::V(field_x(opcode));
    let vy = Varset::V(field_y(opcode));
    let nn = field_nn(opcode);
    let nnn = field_nnn(opcode);
    if opcode == 0x00e0 {
        Ok(Instruction::ClearDraw)
    } else if opcode == 0x00ee {
        Ok(Instruction::ReturnFromSubroutine)
    } else {
        match opcode & 0xf000 {
            0x0000 => Ok(Instruction::RCARoutine(nnn)),
            0x1000 => Ok(Instruction::GotoAdress(nnn)),
            0x2000 => Ok(Instruction::RunSubroutineAtAdress(nnn)),
            0x3000 => Ok(Instruction::SkipNextIfVarEq(vx, nn)),
            0x4000 => Ok(Instruction::SkipNextIfVarNeq(vx, nn)),
            0x6000 => Ok(Instruction::VariableOnValue(vx, nn, Operation::Assign)),
            0x7000 => Ok(Instruction::VariableOnValue(vx, nn, Operation::IncrementNoCarry)),
            0x8000 => decode_arithmetic(opcode),
            0x9000 => Ok(Instruction::SkipNextIfVarsNeq(vx, vy)),
            0xa000 => Ok(Instruction::SetITo(nnn)),
            0xc000 => Ok(Instruction::VariableOnValue(vx, nn, Operation::Randomize)),
            0xd000 => Ok(Instruction::DrawSpriteXYH(vx, vy, field_n(opcode))),
            0xe000 => decode_keyboard(opcode),
            0xf000 => decode_special(opcode),
            _ => Err(Chip8Error::InvalidOpcode(opcode)),
        }
    }
}

/// Whatever decodes is well formed: its registers exist, its operation fits
/// its shape, and its sprite has at most 15 rows.
pub proof fn lemma_decoded_is_wf(opcode: u16)
    ensures
        decode(opcode) matches Ok(instruction) ==> instruction.wf(),
{
    assert((((opcode & 0x0f00) >> 8) as u8) < 16) by (bit_vector);
    assert((((opcode & 0x00f0) >> 4) as u8) < 16) by (bit_vector);
    assert(((opcode & 0x000f) as u8) <= 15) by (bit_vector);
}

/// The register named by the second hex digit.
pub fn get_0x00(opcode: u16) -> (vs: Varset)
    ensures
        vs == Varset::V(field_x(opcode)),
        vs.is_register(),
{
    assert((opcode & 0x0f00) >> 8 < 16) by (bit_vector);
    Varset::V(((opcode & 0x0f00) >> 8) as u8)
}

/// The register named by the third hex digit.
pub fn get_00y0(opcode: u16) -> (vs: Varset)
    ensures
        vs == Varset::V(field_y(opcode)),
        vs.is_register(),
{
    assert((opcode & 0x00f0) >> 4 < 16) by (bit_vector);
    Varset::V(((opcode & 0x00f0) >> 4) as u8)
}

/// The 4-bit immediate.
pub fn get_000n(opcode: u16) -> (n: u8)
    ensures
        n == field_n(opcode),
        n <= 15,
{
    assert(opcode & 0x000f < 16) by (bit_vector);
    (opcode & 0x000f) as u8
}

/// The 8-bit immediate.
pub fn get_00nn(opcode: u16) -> (nn: u8)
    ensures
        nn == field_nn(opcode),
{
    assert(opcode & 0x00ff < 256) by (bit_vector);
    (opcode & 0x00ff) as u8
}

/// The 12-bit address.
pub fn get_0nnn(opcode: u16) -> (nnn: u16)
    ensures
        nnn == field_nnn(opcode),
        nnn < 0x1000,
{
    assert(opcode & 0x0fff < 0x1000) by (bit_vector);
    opcode & 0x0fff
}

/// Decodes one opcode. Fails with `InvalidOpcode` when the first hex digit
/// names no family, with `UnimplementedOpcode` when the family does not define
/// the opcode, and with `ReservedOperandMisuse` for `FF1E`, which would add the
/// flag register to the index register. Whatever decodes is well formed.
pub fn from_opcode(opcode: u16) -> (res: Result<Instruction, Chip8Error>)
    ensures
        res == decode(opcode),
        res matches Ok(instruction) ==> instruction.wf(),
{
    match opcode {
        0x00e0 => Ok(Instruction::ClearDraw),
        0x00ee => Ok(Instruction::ReturnFromSubroutine),
        _ => match opcode & 0xf000 {
            0x0000 => Ok(Instruction::RCARoutine(get_0nnn(opcode))),
            0x1000 => Ok(Instruction::GotoAdress(get_0nnn(opcode))),
            0x2000 => Ok(Instruction::RunSubroutineAtAdress(get_0nnn(opcode))),
            0x3000 => Ok(Instruction::SkipNextIfVarEq(get_0x00(opcode), get_00nn(opcode))),
            0x4000 => Ok(Instruction::SkipNextIfVarNeq(get_0x00(opcode), get_00nn(opcode))),
            0x6000 => Ok(
                Instruction::VariableOnValue(get_0x00(opcode), get_00nn(opcode), Operation::Assign),
            ),
            0x7000 => Ok(
                Instruction::VariableOnValue(
                    get_0x00(opcode),
                    get_00nn(opcode),
                    Operation::IncrementNoCarry,
                ),
            ),
            0x8000 => {
                let vx = get_0x00(opcode);
                let vy = get_00y0(opcode);
                match opcode & 0x000f {
                    0 => Ok(Instruction::VariableOnVariable(vx, vy, Operation::Assign)),
                    1 => Ok(Instruction::VariableOnVariable(vx, vy, Operation::BitOr)),
                    2 => Ok(Instruction::VariableOnVariable(vx, vy, Operation::BitAnd)),
                    3 => Ok(Instruction::VariableOnVariable(vx, vy, Operation::BitXor)),
                    4 => Ok(Instruction::VariableOnVariable(vx, vy, Operation::IncrementWithCarry)),
                    5 => Ok(
                        Instruction::VariableOnVariable(vx, vy, Operation::DecrementWithBorrow),
                    ),
                    6 => Ok(Instruction::VariableOnVariable(vx, vy, Operation::BitshiftAndStore)),
                    7 => Ok(Instruction::VariableOnVariable(vx, vy, Operation::DecrementAndFlip)),
                    _ => Err(Chip8Error::UnimplementedOpcode(opcode)),
                }
            },
            0x9000 => Ok(Instruction::SkipNextIfVarsNeq(get_0x00(opcode), get_00y0(opcode))),
            0xa000 => Ok(Instruction::SetITo(get_0nnn(opcode))),
            0xc000 => Ok(
                Instruction::VariableOnValue(
                    get_0x00(opcode),
                    get_00nn(opcode),
                    Operation::Randomize,
                ),
            ),
            0xd000 => Ok(
                Instruction::DrawSpriteXYH(get_0x00(opcode), get_00y0(opcode), get_000n(opcode)),
            ),
            0xe000 => {
                let vx = get_0x00(opcode);
                match opcode & 0x00ff {
                    0x9e => Ok(Instruction::SkipNextIfVarsEq(vx, Varset::Keyboard)),
                    0xa1 => Ok(Instruction::SkipNextIfVarsNeq(vx, Varset::Keyboard)),
                    _ => Err(Chip8Error::UnimplementedOpcode(opcode)),
                }
            },
            0xf000 => {
                let vx = get_0x00(opcode);
                match opcode & 0x00ff {
                    0x07 => Ok(
                        Instruction::VariableOnVariable(vx, Varset::DelayTimer, Operation::Assign),
                    ),
                    0x15 => Ok(
                        Instruction::VariableOnVariable(Varset::DelayTimer, vx, Operation::Assign),
                    ),
                    0x18 => Ok(
                        Instruction::VariableOnVariable(Varset::SoundTimer, vx, Operation::Assign),
                    ),
                    0x1e => if vx == Varset::V(0xf) {
                        Err(Chip8Error::ReservedOperandMisuse(opcode))
                    } else {
                        Ok(Instruction::IOnVariable(vx, Operation::IncrementNoCarry))
                    },
                    0x29 => Ok(Instruction::IOnVariable(vx, Operation::SpriteMultiply)),
                    0x33 => Ok(Instruction::StoreVarAsDecimalInPositionI(vx)),
                    0x55 => Ok(Instruction::DumpVariablesUptoInPositionI(vx)),
                    0x65 => Ok(Instruction::LoadVariablesUptoFromPositionI(vx)),
                    _ => Err(Chip8Error::UnimplementedOpcode(opcode)),
                }
            },
            _ => Err(Chip8Error::InvalidOpcode(opcode)),
        },
    }
}

} // verus!
