//! What holds of the machine in every state: the rules that programs and
//! callers rely on, stated over the machine as a value and proved from the
//! definitions of the instructions.

use vstd::prelude::*;
use crate::display::{
    clear_event, lemma_column_offset, lemma_drawn_wf, lemma_push_in_grid, lemma_row_offset, lit,
    pixel_index, sprite_bit, DisplayView, PIXELS,
};
use crate::error::Chip8Error;
use crate::instruction::{decode, lemma_decoded_is_wf, Instruction, Operation, Varset};
use crate::register::{RegisterView, FLAG};
use crate::state::{decimal_digits, MachineView, RunState};

verus! {

/// Increment with carry: the destination takes the sum modulo 256, and the
/// flag register becomes 1 if the sum exceeds 255 and 0 otherwise. No other
/// register and no timer changes.
pub proof fn lemma_increment_with_carry(regs: RegisterView, x: u8, y: u8)
    requires
        regs.wf(),
        x < FLAG,
        y < 16,
    ensures
        ({
            let after = regs.inc_withcarry(Varset::V(x), regs.v[y as int]);
            let sum = regs.v[x as int] + regs.v[y as int];
            &&& after.v[x as int] == sum % 0x100
            &&& after.v[FLAG as int] == if sum > 0xff {
                1int
            } else {
                0int
            }
            &&& forall|n: int| 0 <= n < 16 && n != x && n != FLAG ==> after.v[n] == regs.v[n]
            &&& after.delay == regs.delay
            &&& after.sound == regs.sound
            &&& after.wf()
        }),
{
}

/// Decrement and flip: the destination takes source minus destination modulo
/// 256. Nothing else changes, the flag register included.
pub proof fn lemma_decrement_and_flip(regs: RegisterView, x: u8, y: u8)
    requires
        regs.wf(),
        x < 16,
        y < 16,
    ensures
        ({
            let after = regs.decrement_and_flip(Varset::V(x), Varset::V(y));
            &&& after.v[x as int] == (regs.v[y as int] - regs.v[x as int]) % 0x100
            &&& forall|n: int| 0 <= n < 16 && n != x ==> after.v[n] == regs.v[n]
            &&& after.delay == regs.delay
            &&& after.sound == regs.sound
            &&& after.wf()
        }),
{
}

/// Decrement with borrow: the destination takes the difference modulo 256,
/// and the flag register becomes 1 if the source is larger than the
/// destination and 0 otherwise.
pub proof fn lemma_decrement_with_borrow(regs: RegisterView, x: u8, y: u8)
    requires
        regs.wf(),
        x < FLAG,
        y < 16,
    ensures
        ({
            let after = regs.decrement_with_borrow(Varset::V(x), Varset::V(y));
            &&& after.v[x as int] == (regs.v[x as int] - regs.v[y as int]) % 0x100
            &&& after.v[FLAG as int] == if regs.v[y as int] > regs.v[x as int] {
                1int
            } else {
                0int
            }
            &&& forall|n: int| 0 <= n < 16 && n != x && n != FLAG ==> after.v[n] == regs.v[n]
            &&& after.wf()
        }),
{
}

/// Bitshift and store: the flag register takes the lowest bit of the
/// destination as it was, and the destination is halved.
pub proof fn lemma_bitshift_and_store(regs: RegisterView, x: u8)
    requires
        regs.wf(),
        x < FLAG,
    ensures
        ({
            let after = regs.bitshift_and_store(Varset::V(x));
            &&& after.v[FLAG as int] == regs.v[x as int] % 2
            &&& after.v[x as int] == regs.v[x as int] / 2
            &&& forall|n: int| 0 <= n < 16 && n != x && n != FLAG ==> after.v[n] == regs.v[n]
            &&& after.wf()
        }),
{
}

/// Draw collision: where a set bit of the sprite lands on a pixel that is on,
/// the draw reports a collision and leaves that pixel off.
pub proof fn lemma_draw_collision(display: DisplayView, x0: u8, y0: u8, sprite: Seq<u8>, idx: int)
    requires
        display.wf(),
        0 <= idx < PIXELS,
        display.pixels[idx],
        lit(sprite, x0, y0, idx),
    ensures
        display.collides(x0, y0, sprite),
        !display.drawn(x0, y0, sprite).pixels[idx],
{
}

/// The highest bit of a sprite's first row lands on the pixel at the sprite's
/// position.
pub proof fn lemma_highest_bit_lands_at_position(sprite: Seq<u8>, x0: u8, y0: u8)
    requires
        sprite.len() > 0,
    ensures
        lit(sprite, x0, y0, pixel_index(x0 as int, y0 as int)) == sprite_bit(sprite[0], 7),
{
    let idx = pixel_index(x0 as int, y0 as int);
    assert(idx % 64 == x0 % 64 && idx / 64 == y0 % 32);
    lemma_column_offset(x0, 0, x0 as int % 64);
    lemma_row_offset(y0, 0, y0 as int % 32);
}

/// Sprites are composed by XOR: a pixel of the display changes exactly where
/// the sprite has a set bit, and drawing the same sprite again at the same
/// place brings every pixel back.
pub proof fn lemma_draw_twice_restores(display: DisplayView, x0: u8, y0: u8, sprite: Seq<u8>)
    requires
        display.wf(),
    ensures
        forall|idx: int|
            0 <= idx < PIXELS ==> (#[trigger] display.drawn(x0, y0, sprite).pixels[idx]
                != display.pixels[idx]) == lit(sprite, x0, y0, idx),
        display.drawn(x0, y0, sprite).drawn(x0, y0, sprite).pixels == display.pixels,
{
    assert(display.drawn(x0, y0, sprite).drawn(x0, y0, sprite).pixels =~= display.pixels);
}

/// The three digits that a decimal store writes are the decimal notation of
/// the byte.
pub proof fn lemma_decimal_digits(val: u8)
    ensures
        decimal_digits(val).len() == 3,
        forall|k: int| 0 <= k < 3 ==> decimal_digits(val)[k] <= 9,
        100 * decimal_digits(val)[0] + 10 * decimal_digits(val)[1] + decimal_digits(val)[2]
            == val,
{
}

/// Call and return: a call followed by a return leaves the machine as it was,
/// with the program counter on the instruction after the call.
pub proof fn lemma_call_then_return(m: MachineView, address: u16, r1: u8, r2: u8)
    requires
        m.state is Running,
        m.pc + 2 <= u16::MAX,
    ensures
        m.execute(Instruction::RunSubroutineAtAdress(address), r1).pc == address,
        m.execute(Instruction::RunSubroutineAtAdress(address), r1).execute(
            Instruction::ReturnFromSubroutine,
            r2,
        ) == (MachineView { pc: (m.pc + 2) as u16, ..m }),
{
    let called = m.execute(Instruction::RunSubroutineAtAdress(address), r1);
    assert(called.stack.drop_last() =~= m.stack);
}

/// Conditional skip: comparing a register with an immediate moves the program
/// counter by 4 if they are equal and by 2 if they differ, and changes
/// nothing else.
pub proof fn lemma_skip_if_equal(m: MachineView, x: u8, val: u8, random: u8)
    requires
        m.state is Running,
        m.pc + 4 <= u16::MAX,
        x < 16,
    ensures
        m.execute(Instruction::SkipNextIfVarEq(Varset::V(x), val), random) == (MachineView {
            pc: if m.regs.v[x as int] == val {
                (m.pc + 4) as u16
            } else {
                (m.pc + 2) as u16
            },
            ..m
        }),
        m.execute(Instruction::SkipNextIfVarNeq(Varset::V(x), val), random) == (MachineView {
            pc: if m.regs.v[x as int] != val {
                (m.pc + 4) as u16
            } else {
                (m.pc + 2) as u16
            },
            ..m
        }),
{
}

/// Stack discipline: a return on an empty call stack halts the machine with
/// `StackUnderflow`, reports it, and changes nothing else.
pub proof fn lemma_return_on_empty_stack(m: MachineView, random: u8)
    requires
        m.state is Running,
        m.stack.len() == 0,
    ensures
        m.execute(Instruction::ReturnFromSubroutine, random) == m.halted(
            Chip8Error::StackUnderflow,
        ),
        m.execute(Instruction::ReturnFromSubroutine, random).outcome() == Err::<(), Chip8Error>(
            Chip8Error::StackUnderflow,
        ),
{
}

/// The keyboard latch is read once: after a read through the keyboard
/// reference the latch is empty, and the next read finds no key.
pub proof fn lemma_keyboard_read_once(m: MachineView)
    ensures
        m.read(Varset::Keyboard).0 == match m.key {
            Some(k) => k,
            None => 0u8,
        },
        m.read(Varset::Keyboard).1.key is None,
        m.read(Varset::Keyboard).1.read(Varset::Keyboard).0 == 0,
{
}

/// Failures are terminal: an instruction either leaves the machine running,
/// or halts it and changes nothing else; and a halted machine never changes
/// again, whatever it is asked to run.
pub proof fn lemma_failures_are_terminal(m: MachineView, instruction: Instruction, random: u8)
    ensures
        m.state is Halted ==> m.execute(instruction, random) == m && m.cycle(random) == m,
        m.state is Running ==> match m.execute(instruction, random).state {
            RunState::Running => m.fault(instruction) is None,
            RunState::Halted(e) => m.fault(instruction) == Some(e) && m.execute(
                instruction,
                random,
            ) == m.halted(e),
        },
{
}

/// Only a randomize instruction looks at the random byte.
pub proof fn lemma_random_byte_matters_to_randomize_only(
    m: MachineView,
    instruction: Instruction,
    r1: u8,
    r2: u8,
)
    requires
        !instruction.draws_random(),
    ensures
        m.execute(instruction, r1) == m.execute(instruction, r2),
{
}

/// The register operations keep sixteen registers.
proof fn lemma_registers_keep_wf(
    m: MachineView,
    vs: Varset,
    vi: Varset,
    val: u8,
    op: Operation,
    random: u8,
)
    requires
        m.regs.wf(),
        vs.is_storage(),
        vi.is_storage(),
    ensures
        m.on_value(vs, val, op, random).wf(),
        m.on_variable(vs, vi, op).wf(),
{
}

/// Jumps, calls, returns, skips and the operations on the index register keep
/// the machine well formed.
proof fn lemma_control_keeps_wf(m: MachineView, instruction: Instruction, random: u8)
    requires
        m.wf(),
        instruction.wf(),
        instruction is RCARoutine || instruction is GotoAdress
            || instruction is RunSubroutineAtAdress || instruction is ReturnFromSubroutine
            || instruction is SkipNextIfVarEq || instruction is SkipNextIfVarNeq
            || instruction is SkipNextIfVarsEq || instruction is SkipNextIfVarsNeq
            || instruction is SetITo || instruction is IOnVariable,
    ensures
        m.effect(instruction, random).wf(),
        m.effect(instruction, random).memory.end == m.memory.end,
{
}

/// The transfers between registers and memory keep the machine well formed.
proof fn lemma_transfer_keeps_wf(m: MachineView, instruction: Instruction, random: u8)
    requires
        m.wf(),
        instruction.wf(),
        instruction is StoreVarAsDecimalInPositionI
            || instruction is DumpVariablesUptoInPositionI
            || instruction is LoadVariablesUptoFromPositionI,
    ensures
        m.effect(instruction, random).wf(),
        m.effect(instruction, random).memory.end == m.memory.end,
{
}

/// Every instruction that the decoder can yield keeps the machine well
/// formed: sixteen registers, a full grid, a full memory with its valid range
/// unchanged, and only showable changes in the queue.
pub proof fn lemma_execute_keeps_wf(m: MachineView, instruction: Instruction, random: u8)
    requires
        m.wf(),
        instruction.wf(),
    ensures
        m.execute(instruction, random).wf(),
        m.execute(instruction, random).memory.end == m.memory.end,
{
    if m.state is Running && m.fault(instruction) is None {
        match instruction {
            Instruction::ClearDraw => {
                lemma_push_in_grid(m.display.events, clear_event());
            },
            Instruction::DrawSpriteXYH(vx, vy, h) => {
                lemma_drawn_wf(
                    m.display,
                    m.regs.get(vx),
                    m.regs.get(vy),
                    m.memory.block(m.i, h as int),
                );
            },
            Instruction::VariableOnValue(vs, val, op) => {
                lemma_registers_keep_wf(m, vs, vs, val, op, random);
            },
            Instruction::VariableOnVariable(vs, vi, op) => {
                lemma_registers_keep_wf(m, vs, vi, 0, op, random);
            },
            Instruction::StoreVarAsDecimalInPositionI(_)
            | Instruction::DumpVariablesUptoInPositionI(_)
            | Instruction::LoadVariablesUptoFromPositionI(_) => {
                lemma_transfer_keeps_wf(m, instruction, random);
            },
            _ => {
                lemma_control_keeps_wf(m, instruction, random);
            },
        }
    }
}

/// Every cycle keeps the machine well formed, whatever the memory holds.
pub proof fn lemma_cycle_keeps_wf(m: MachineView, random: u8)
    requires
        m.wf(),
    ensures
        m.cycle(random).wf(),
        m.cycle(random).memory.end == m.memory.end,
{
    if m.state is Running {
        if let Ok(opcode) = m.memory.opcode_at(m.pc) {
            lemma_decoded_is_wf(opcode);
            if let Ok(instruction) = decode(opcode) {
                lemma_execute_keeps_wf(m, instruction, random);
            }
        }
    }
}

/// A fetch succeeds exactly where the program counter and the cell after it
/// lie in the valid range; elsewhere the cycle halts the machine with
/// `AddressOutOfBounds` at the program counter and changes nothing else.
pub proof fn lemma_fetch_is_in_range(m: MachineView, random: u8)
    requires
        m.wf(),
        m.state is Running,
    ensures
        m.memory.opcode_at(m.pc) is Ok <==> m.pc + 1 < m.memory.end,
        m.pc + 1 >= m.memory.end ==> m.cycle(random) == m.halted(
            Chip8Error::AddressOutOfBounds(m.pc),
        ),
{
}

} // verus!
