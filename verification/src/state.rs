//! The execution engine: program counter, call stack, index register, and the
//! effect of each instruction on the whole machine.

use vstd::prelude::*;
use rand::Rng;
use rand::rngs::ThreadRng;
use crate::cartridge::{Cartridge, MemoryImage, CARTRIDGE_START};
use crate::display::{DisplayView, TermDisplay, PIXELS};
use crate::error::Chip8Error;
use crate::instruction::{decode, from_opcode, Instruction, Operation, Varset};
use crate::keyboard::HexKeyboard;
use crate::register::{Register, RegisterView, FLAG};
use crate::text::{prefixed_hex_text, push_prefixed_hex};

verus! {

/// `rand::rngs::ThreadRng`, the generator that `rand` keeps for each thread.
/// The type is opaque here: nothing of its state is known or claimed.
#[verifier::external_type_specification]
#[verifier::external_body]
pub struct ExThreadRng(ThreadRng);

/// `rand::thread_rng` hands out a handle to the generator of the calling
/// thread, which the operating system seeds. Nothing is claimed of the handle.
/// Not proved: that the call returns; it panics where the system has no
/// entropy to give.
pub assume_specification[ rand::thread_rng ]() -> (rng: ThreadRng);

/// Draws one byte with `rand::Rng::gen`. Nothing is claimed of the byte: every
/// value may come back, and two calls may differ. Not proved: that the call
/// returns; it panics where reseeding from the operating system fails.
#[verifier::external_body]
fn random_byte(rng: &mut ThreadRng) -> (byte: u8) {
    rng.gen()
}

/// Whether the engine still runs, or why it stopped.
#[derive(Clone, Copy, Debug, PartialEq, Eq, Structural)]
pub enum RunState {
    Running,
    Halted(Chip8Error),
}

/// The whole machine as a value.
#[verifier::ext_equal]
pub struct MachineView {
    /// Address of the next instruction.
    pub pc: u16,
    /// The index register.
    pub i: u16,
    /// The saved return addresses, the most recent one last.
    pub stack: Seq<u16>,
    pub regs: RegisterView,
    /// The key that waits in the keyboard latch.
    pub key: Option<u8>,
    pub display: DisplayView,
    pub memory: MemoryImage,
    pub state: RunState,
}

/// One character for each subroutine that is running.
pub open spec fn depth_text(depth: nat) -> Seq<char> {
    Seq::new(depth, |k: int| '♥')
}

/// The machine in one line: the program counter and the depth of the call
/// stack.
pub open spec fn status_text(m: MachineView) -> Seq<char> {
    "pc:"@ + prefixed_hex_text(m.pc as nat, 4) + " subr:"@ + depth_text(m.stack.len())
}

/// The three decimal digits of a byte, hundreds first.
pub open spec fn decimal_digits(val: u8) -> Seq<u8> {
    seq![val / 100, (val / 10) % 10, val % 10]
}

impl MachineView {
    /// Every part is well formed, and a pending key is one of the sixteen.
    pub open spec fn wf(self) -> bool {
        &&& self.regs.wf()
        &&& self.display.wf()
        &&& self.memory.wf()
        &&& (self.key matches Some(k) ==> k <= 15)
    }

    /// The machine as it starts on a memory image: the program counter at the
    /// program start, everything else empty or zero.
    pub open spec fn initial(memory: MemoryImage) -> MachineView {
        MachineView {
            pc: CARTRIDGE_START,
            i: 0,
            stack: Seq::empty(),
            regs: RegisterView { v: Seq::new(16, |n: int| 0u8), delay: 0, sound: 0 },
            key: None,
            display: DisplayView {
                pixels: Seq::new(PIXELS as nat, |idx: int| false),
                events: Seq::empty(),
            },
            memory,
            state: RunState::Running,
        }
    }

    /// The value that an operand reference resolves to, and the machine after
    /// the read. Reading the keyboard takes the pending key out of the latch;
    /// an empty latch reads as 0.
    pub open spec fn read(self, vs: Varset) -> (u8, MachineView) {
        if vs is Keyboard {
            (
                match self.key {
                    Some(k) => k,
                    None => 0u8,
                },
                MachineView { key: None, ..self },
            )
        } else {
            (self.regs.get(vs), self)
        }
    }

    /// The machine stopped for the reason `e`, with nothing else changed.
    pub open spec fn halted(self, e: Chip8Error) -> MachineView {
        MachineView { state: RunState::Halted(e), ..self }
    }

    /// What the caller is told: the reason of the halt, if the machine halted.
    pub open spec fn outcome(self) -> Result<(), Chip8Error> {
        match self.state {
            RunState::Running => Ok(()),
            RunState::Halted(e) => Err(e),
        }
    }

    /// The machine after one tick of the timers.
    pub open spec fn ticked(self) -> MachineView {
        MachineView { regs: self.regs.tick(), ..self }
    }

    /// The program counter moved past the next instruction if `skip` holds.
    pub open spec fn skip_if(self, skip: bool) -> MachineView {
        if skip {
            MachineView { pc: (self.pc + 2) as u16, ..self }
        } else {
            self
        }
    }

    /// The failure that the instruction meets in this machine, if any: an
    /// `0NNN` routine cannot be run, a return needs a saved address, and a
    /// memory transfer or a sprite must lie in the valid range.
    pub open spec fn fault(self, instruction: Instruction) -> Option<Chip8Error> {
        match instruction {
            Instruction::RCARoutine(routine) => Some(Chip8Error::UnimplementedOpcode(routine)),
            Instruction::ReturnFromSubroutine => if self.stack.len() == 0 {
                Some(Chip8Error::StackUnderflow)
            } else {
                None
            },
            Instruction::StoreVarAsDecimalInPositionI(_) => self.memory.range_fault(self.i, 3),
            Instruction::DumpVariablesUptoInPositionI(Varset::V(vmax)) => self.memory.range_fault(
                self.i,
                vmax + 1,
            ),
            Instruction::LoadVariablesUptoFromPositionI(Varset::V(vmax)) => self.memory.range_fault(
                self.i,
                vmax + 1,
            ),
            Instruction::DrawSpriteXYH(_, _, h) => self.memory.range_fault(self.i, h as int),
            _ => None,
        }
    }

    /// The registers after an operation of a destination with an immediate.
    pub open spec fn on_value(self, vs: Varset, val: u8, op: Operation, random: u8) -> RegisterView {
        match op {
            Operation::Assign => self.regs.set(vs, val),
            Operation::IncrementNoCarry => self.regs.inc_nocarry(vs, val),
            Operation::Randomize => self.regs.set(vs, random & val),
            _ => self.regs,
        }
    }

    /// The registers after an operation of a destination with another operand.
    /// The bitwise operations leave the flag register as it is.
    pub open spec fn on_variable(self, vs: Varset, vi: Varset, op: Operation) -> RegisterView {
        let regs = self.regs;
        match op {
            Operation::Assign => regs.set_to_var(vs, vi),
            Operation::IncrementNoCarry => regs.inc_nocarry(vs, regs.get(vi)),
            Operation::IncrementWithCarry => regs.inc_withcarry(vs, regs.get(vi)),
            Operation::DecrementAndFlip => regs.decrement_and_flip(vs, vi),
            Operation::DecrementWithBorrow => regs.decrement_with_borrow(vs, vi),
            Operation::BitOr => regs.set(vs, regs.get(vs) | regs.get(vi)),
            Operation::BitAnd => regs.set(vs, regs.get(vs) & regs.get(vi)),
            Operation::BitXor => regs.set(vs, regs.get(vs) ^ regs.get(vi)),
            Operation::BitshiftAndStore => regs.bitshift_and_store(vs),
            _ => regs,
        }
    }

    /// The index register after an operation with an operand: the operand
    /// itself, the sum in sixteen bits, or the address of the glyph of that
    /// digit, five bytes each.
    pub open spec fn on_index(self, vs: Varset, op: Operation) -> u16 {
        let val = self.regs.get(vs);
        match op {
            Operation::Assign => val as u16,
            Operation::IncrementNoCarry => ((self.i + val) % 0x1_0000) as u16,
            Operation::SpriteMultiply => (5 * val) as u16,
            _ => self.i,
        }
    }

    /// The registers after `V0`..`V[vmax]` are loaded from the cells at the
    /// index register on.
    pub open spec fn loaded(self, vmax: u8) -> RegisterView {
        RegisterView {
            v: Seq::new(
                16,
                |n: int|
                    if n <= vmax {
                        self.memory.bytes[self.i + n]
                    } else {
                        self.regs.v[n]
                    },
            ),
            ..self.regs
        }
    }

    /// The machine after the instruction, where it meets no failure. The
    /// program counter moves on by 2, and by 2 more where a skip is taken;
    /// jump, call and return set it instead. A call saves the address of the
    /// instruction that follows it.
    pub open spec fn effect(self, instruction: Instruction, random: u8) -> MachineView {
        let next = MachineView { pc: (self.pc + 2) as u16, ..self };
        match instruction {
            Instruction::RCARoutine(_) => next,
            Instruction::GotoAdress(address) => MachineView { pc: address, ..self },
            Instruction::RunSubroutineAtAdress(address) => MachineView {
                pc: address,
                stack: self.stack.push(next.pc),
                ..self
            },
            Instruction::ReturnFromSubroutine => MachineView {
                pc: self.stack.last(),
                stack: self.stack.drop_last(),
                ..self
            },
            Instruction::SkipNextIfVarEq(vs, val) => {
                let (a, m) = next.read(vs);
                m.skip_if(a == val)
            },
            Instruction::SkipNextIfVarNeq(vs, val) => {
                let (a, m) = next.read(vs);
                m.skip_if(a != val)
            },
            Instruction::SkipNextIfVarsEq(va, vb) => {
                let (a, m1) = next.read(va);
                let (b, m2) = m1.read(vb);
                m2.skip_if(a == b)
            },
            Instruction::SkipNextIfVarsNeq(va, vb) => {
                let (a, m1) = next.read(va);
                let (b, m2) = m1.read(vb);
                m2.skip_if(a != b)
            },
            Instruction::VariableOnValue(vs, val, op) => MachineView {
                regs: self.on_value(vs, val, op, random),
                ..next
            },
            Instruction::VariableOnVariable(vs, vi, op) => MachineView {
                regs: self.on_variable(vs, vi, op),
                ..next
            },
            Instruction::SetITo(num) => MachineView { i: num, ..next },
            Instruction::IOnVariable(vs, op) => MachineView { i: self.on_index(vs, op), ..next },
            Instruction::StoreVarAsDecimalInPositionI(vs) => MachineView {
                memory: self.memory.store(self.i, decimal_digits(self.regs.get(vs))),
                ..next
            },
            Instruction::DumpVariablesUptoInPositionI(vs) => match vs {
                Varset::V(vmax) => MachineView {
                    memory: self.memory.store(self.i, self.regs.v.subrange(0, vmax + 1)),
                    ..next
                },
                _ => next,
            },
            Instruction::LoadVariablesUptoFromPositionI(vs) => match vs {
                Varset::V(vmax) => MachineView { regs: self.loaded(vmax), ..next },
                _ => next,
            },
            Instruction::ClearDraw => MachineView { display: self.display.cleared(), ..next },
            Instruction::DrawSpriteXYH(vx, vy, h) => {
                let x0 = self.regs.get(vx);
                let y0 = self.regs.get(vy);
                let sprite = self.memory.block(self.i, h as int);
                MachineView {
                    display: self.display.drawn(x0, y0, sprite),
                    regs: self.regs.set(
                        Varset::V(FLAG),
                        if self.display.collides(x0, y0, sprite) {
                            1
                        } else {
                            0
                        },
                    ),
                    ..next
                }
            },
        }
    }

    /// The machine after the engine is asked to run one instruction. A halted
    /// machine stays as it is. A failure halts the machine and changes
    /// nothing else.
    pub open spec fn execute(self, instruction: Instruction, random: u8) -> MachineView {
        if self.state is Halted {
            self
        } else {
            match self.fault(instruction) {
                Some(e) => self.halted(e),
                None => self.effect(instruction, random),
            }
        }
    }

    /// What the next cycle fetches: the opcode at the program counter,
    /// decoded, or the failure of the fetch or of the decoder.
    pub open spec fn fetched(self) -> Result<Instruction, Chip8Error> {
        match self.memory.opcode_at(self.pc) {
            Err(e) => Err(e),
            Ok(opcode) => decode(opcode),
        }
    }

    /// The machine after one cycle: fetch the opcode at the program counter,
    /// decode it, run it. A failed fetch and a failed decode halt the machine
    /// like a failed instruction.
    pub open spec fn cycle(self, random: u8) -> MachineView {
        if self.state is Halted {
            self
        } else {
            match self.fetched() {
                Err(e) => self.halted(e),
                Ok(instruction) => self.execute(instruction, random),
            }
        }
    }
}

pub struct Chip8State {
    /// The program counter.
    pub pc: u16,
    /// The index register.
    pub i: u16,
    /// The saved return addresses of the subroutines that are running. The
    /// machines of the time had room for 16; this stack grows as it must.
    pub stack: Vec<u16>,
    pub register: Register,
    pub keyboard: HexKeyboard,
    pub display: TermDisplay,
    pub cartridge: Cartridge,
    pub state: RunState,
    /// Source of the bytes for the randomize instruction.
    pub rng: ThreadRng,
}

impl View for Chip8State {
    type V = MachineView;

    open spec fn view(&self) -> MachineView {
        MachineView {
            pc: self.pc,
            i: self.i,
            stack: self.stack@,
            regs: self.register@,
            key: self.keyboard@,
            display: self.display@,
            memory: self.cartridge@,
            state: self.state,
        }
    }
}

impl Chip8State {
    /// The memory image and the keyboard latch are well formed, and the
    /// display reports only pixels of the grid.
    pub open spec fn wf(&self) -> bool {
        self@.wf()
    }

    /// The machine at the start of the program on `cartridge`.
    pub fn new(cartridge: Cartridge) -> (machine: Self)
        requires
            cartridge.wf(),
        ensures
            machine.wf(),
            machine@ == MachineView::initial(cartridge@),
    {
        Self {
            pc: 0x200,
            i: 0,
            stack: Vec::with_capacity(32),
            register: Register::new(),
            keyboard: HexKeyboard::new(),
            display: TermDisplay::new(),
            cartridge,
            state: RunState::Running,
            rng: rand::thread_rng(),
        }
    }

    /// Reads through an operand reference. Reading the keyboard takes the
    /// pending key out of the latch; an empty latch reads as 0.
    pub fn get(&mut self, vs: Varset) -> (val: u8)
        requires
            old(self).wf(),
            vs.wf(),
        ensures
            final(self).wf(),
            (val, final(self)@) == old(self)@.read(vs),
    {
        match vs {
            Varset::Keyboard => match self.keyboard.consume() {
                Some(k) => k,
                None => 0u8,
            },
            _ => self.register.get(vs),
        }
    }

    /// One tick of the timers: each of the two goes down by one unless it is
    /// zero.
    pub fn tick(&mut self)
        requires
            old(self).wf(),
        ensures
            final(self).wf(),
            final(self)@ == old(self)@.ticked(),
    {
        self.register.tick();
    }

    /// The machine in one line, for a trace: the program counter and one heart
    /// for each subroutine that is running.
    pub fn to_string(&self) -> (s: String)
        ensures
            s@ == status_text(self@),
    {
        let mut s = String::new();
        s.append("pc:");
        push_prefixed_hex(&mut s, self.pc, 4);
        s.append(" subr:");
        let ghost head = s@;
        let mut n: usize = 0;
        while n < self.stack.len()
            invariant
                n <= self.stack.len(),
                s@ == head + depth_text(n as nat),
            decreases self.stack.len() - n,
        {
            s.append("♥");
            n += 1;
            proof {
                reveal_strlit("♥");
                assert("♥"@ =~= seq!['♥']);
                assert(depth_text(n as nat) =~= depth_text((n - 1) as nat).push('♥'));
                assert(s@ =~= head + depth_text(n as nat));
            }
        }
        assert(s@ =~= status_text(self@));
        s
    }

    /// Stops the machine for the reason `e` and reports it.
    fn halt(&mut self, e: Chip8Error) -> (res: Result<(), Chip8Error>)
        ensures
            final(self)@ == old(self)@.halted(e),
            res == Err::<(), Chip8Error>(e),
    {
        self.state = RunState::Halted(e);
        Err(e)
    }

    /// Whether the operand reads as `val`.
    fn var_equals_val(&mut self, vs: Varset, val: u8) -> (equal: bool)
        requires
            old(self).wf(),
            vs.wf(),
        ensures
            final(self).wf(),
            equal == (old(self)@.read(vs).0 == val),
            final(self)@ == old(self)@.read(vs).1,
    {
        self.get(vs) == val
    }

    /// Whether the two operands read as the same value, the first one read
    /// first.
    fn vars_are_equal(&mut self, va: Varset, vb: Varset) -> (equal: bool)
        requires
            old(self).wf(),
            va.wf(),
            vb.wf(),
        ensures
            final(self).wf(),
            equal == (old(self)@.read(va).0 == old(self)@.read(va).1.read(vb).0),
            final(self)@ == old(self)@.read(va).1.read(vb).1,
    {
        let a = self.get(va);
        let b = self.get(vb);
        a == b
    }

    /// Stores `V0`..`V[vmax]` in the cells at the index register on.
    fn dump_registers(&mut self, vmax: u8) -> (res: Result<(), Chip8Error>)
        requires
            old(self).wf(),
            vmax < 16,
            old(self)@.memory.range_fault(old(self).i, vmax + 1) is None,
        ensures
            res == Ok::<(), Chip8Error>(()),
            final(self).wf(),
            final(self)@ == (MachineView {
                memory: old(self)@.memory.store(
                    old(self).i,
                    old(self)@.regs.v.subrange(0, vmax + 1),
                ),
                ..old(self)@
            }),
    {
        let mut vnum: u8 = 0;
        while vnum <= vmax
            invariant
                vmax < 16,
                vnum <= vmax + 1,
                self.wf(),
                old(self)@.memory.range_fault(old(self).i, vmax + 1) is None,
                self@ == (MachineView {
                    memory: old(self)@.memory.store(
                        old(self).i,
                        old(self)@.regs.v.subrange(0, vnum as int),
                    ),
                    ..old(self)@
                }),
            decreases vmax + 1 - vnum,
        {
            let val = self.register.get(Varset::V(vnum));
            self.cartridge.set_memory(self.i + vnum as u16, val)?;
            vnum += 1;
            assert(self@.memory.bytes =~= old(self)@.memory.store(
                old(self).i,
                old(self)@.regs.v.subrange(0, vnum as int),
            ).bytes);
        }
        Ok(())
    }

    /// Loads `V0`..`V[vmax]` from the cells at the index register on.
    fn load_registers(&mut self, vmax: u8) -> (res: Result<(), Chip8Error>)
        requires
            old(self).wf(),
            vmax < 16,
            old(self)@.memory.range_fault(old(self).i, vmax + 1) is None,
        ensures
            res == Ok::<(), Chip8Error>(()),
            final(self).wf(),
            final(self)@ == (MachineView { regs: old(self)@.loaded(vmax), ..old(self)@ }),
    {
        let mut vnum: u8 = 0;
        while vnum <= vmax
            invariant
                vmax < 16,
                vnum <= vmax + 1,
                self.wf(),
                old(self)@.memory.range_fault(old(self).i, vmax + 1) is None,
                self@ == (MachineView {
                    regs: RegisterView {
                        v: Seq::new(
                            16,
                            |n: int|
                                if n < vnum {
                                    old(self)@.memory.bytes[old(self).i + n]
                                } else {
                                    old(self)@.regs.v[n]
                                },
                        ),
                        ..old(self)@.regs
                    },
                    ..old(self)@
                }),
            decreases vmax + 1 - vnum,
        {
            let val = self.cartridge.get_memory(self.i + vnum as u16)?;
            self.register.set(Varset::V(vnum), val);
            vnum += 1;
        }
        Ok(())
    }

    /// Stores the three decimal digits of `val` at the index register on.
    fn store_decimal(&mut self, val: u8) -> (res: Result<(), Chip8Error>)
        requires
            old(self).wf(),
            old(self)@.memory.range_fault(old(self).i, 3) is None,
        ensures
            res == Ok::<(), Chip8Error>(()),
            final(self).wf(),
            final(self)@ == (MachineView {
                memory: old(self)@.memory.store(old(self).i, decimal_digits(val)),
                ..old(self)@
            }),
    {
        let hun = val / 100;
        self.cartridge.set_memory(self.i, hun)?;
        let dec = val / 10 - hun * 10;
        self.cartridge.set_memory(self.i + 1, dec)?;
        let uno = val - dec * 10 - hun * 100;
        self.cartridge.set_memory(self.i + 2, uno)?;
        assert(self@.memory.bytes =~= old(self)@.memory.store(
            old(self).i,
            decimal_digits(val),
        ).bytes);
        Ok(())
    }

    /// A conditional skip: moves on by 2, and by 2 more if the comparison holds.
    fn run_skip(&mut self, instruction: Instruction)
        requires
            old(self).wf(),
            instruction.wf(),
            old(self).pc <= 0xfffb,
            old(self).state is Running,
            instruction is SkipNextIfVarEq || instruction is SkipNextIfVarNeq
                || instruction is SkipNextIfVarsEq || instruction is SkipNextIfVarsNeq,
        ensures
            final(self).wf(),
            final(self)@ == old(self)@.effect(instruction, 0),
    {
        self.pc += 2;
        let skip = match instruction {
            Instruction::SkipNextIfVarEq(vs, val) => self.var_equals_val(vs, val),
            Instruction::SkipNextIfVarNeq(vs, val) => !self.var_equals_val(vs, val),
            Instruction::SkipNextIfVarsEq(va, vb) => self.vars_are_equal(va, vb),
            Instruction::SkipNextIfVarsNeq(va, vb) => !self.vars_are_equal(va, vb),
            _ => false,
        };
        if skip {
            self.pc += 2
        }
    }

    /// An operation of a destination with an immediate.
    fn run_on_value(&mut self, vs: Varset, val: u8, op: Operation, random: u8)
        requires
            old(self).wf(),
            Instruction::VariableOnValue(vs, val, op).wf(),
            old(self).pc <= 0xfffb,
            old(self).state is Running,
        ensures
            final(self).wf(),
            final(self)@ == old(self)@.effect(Instruction::VariableOnValue(vs, val, op), random),
    {
        self.pc += 2;
        match op {
            Operation::Assign => self.register.set(vs, val),
            Operation::IncrementNoCarry => self.register.inc_nocarry(vs, val),
            Operation::Randomize => self.register.set(vs, random & val),
            _ => {},
        }
    }

    /// An operation of a destination with another operand.
    fn run_on_variable(&mut self, vs: Varset, vi: Varset, op: Operation)
        requires
            old(self).wf(),
            Instruction::VariableOnVariable(vs, vi, op).wf(),
            old(self).pc <= 0xfffb,
            old(self).state is Running,
        ensures
            final(self).wf(),
            final(self)@ == old(self)@.effect(Instruction::VariableOnVariable(vs, vi, op), 0),
    {
        self.pc += 2;
        match op {
            Operation::Assign => self.register.set_to_var(vs, vi),
            Operation::IncrementNoCarry => {
                let val = self.register.get(vi);
                self.register.inc_nocarry(vs, val)
            },
            Operation::IncrementWithCarry => {
                let val = self.register.get(vi);
                self.register.inc_withcarry(vs, val)
            },
            Operation::DecrementAndFlip => self.register.decrement_and_flip(vs, vi),
            Operation::DecrementWithBorrow => self.register.decrement_with_borrow(vs, vi),
            Operation::BitOr => {
                let val = self.register.get(vs) | self.register.get(vi);
                self.register.set(vs, val)
            },
            Operation::BitAnd => {
                let val = self.register.get(vs) & self.register.get(vi);
                self.register.set(vs, val)
            },
            Operation::BitXor => {
                let val = self.register.get(vs) ^ self.register.get(vi);
                self.register.set(vs, val)
            },
            Operation::BitshiftAndStore => self.register.bitshift_and_store(vs),
            _ => {},
        }
    }

    /// An update of the index register from an operand.
    fn run_on_index(&mut self, vs: Varset, op: Operation)
        requires
            old(self).wf(),
            Instruction::IOnVariable(vs, op).wf(),
            old(self).pc <= 0xfffb,
            old(self).state is Running,
        ensures
            final(self).wf(),
            final(self)@ == old(self)@.effect(Instruction::IOnVariable(vs, op), 0),
    {
        self.pc += 2;
        let val = self.register.get(vs) as u16;
        match op {
            Operation::Assign => {
                self.i = val;
            },
            Operation::IncrementNoCarry => {
                self.i = self.i.wrapping_add(val);
            },
            Operation::SpriteMultiply => {
                self.i = 5 * val;
            },
            _ => {},
        }
    }

    /// A transfer between registers and memory: decimal digits, dump or load.
    fn run_transfer(&mut self, instruction: Instruction) -> (res: Result<(), Chip8Error>)
        requires
            old(self).wf(),
            instruction.wf(),
            old(self).pc <= 0xfffb,
            old(self).state is Running,
            instruction is StoreVarAsDecimalInPositionI
                || instruction is DumpVariablesUptoInPositionI
                || instruction is LoadVariablesUptoFromPositionI,
        ensures
            final(self).wf(),
            final(self)@ == old(self)@.execute(instruction, 0),
            res == final(self)@.outcome(),
    {
        match instruction {
            Instruction::StoreVarAsDecimalInPositionI(vs) => {
                if let Some(e) = self.cartridge.check_range(self.i, 3) {
                    return self.halt(e);
                }
                self.pc += 2;
                let val = self.register.get(vs);
                self.store_decimal(val)
            },
            Instruction::DumpVariablesUptoInPositionI(Varset::V(vmax)) => {
                if let Some(e) = self.cartridge.check_range(self.i, vmax as u16 + 1) {
                    return self.halt(e);
                }
                self.pc += 2;
                self.dump_registers(vmax)
            },
            Instruction::LoadVariablesUptoFromPositionI(Varset::V(vmax)) => {
                if let Some(e) = self.cartridge.check_range(self.i, vmax as u16 + 1) {
                    return self.halt(e);
                }
                self.pc += 2;
                self.load_registers(vmax)
            },
            _ => Ok(()),
        }
    }

    /// Draws the sprite of `h` rows at the index register at the position that
    /// the two operands give, and notes a collision in the flag register.
    fn run_draw(&mut self, vx: Varset, vy: Varset, h: u8) -> (res: Result<(), Chip8Error>)
        requires
            old(self).wf(),
            Instruction::DrawSpriteXYH(vx, vy, h).wf(),
            old(self).pc <= 0xfffb,
            old(self).state is Running,
        ensures
            final(self).wf(),
            final(self)@ == old(self)@.execute(Instruction::DrawSpriteXYH(vx, vy, h), 0),
            res == final(self)@.outcome(),
    {
        let x0 = self.register.get(vx);
        let y0 = self.register.get(vy);
        match self.cartridge.block(self.i, h as u16) {
            Err(e) => self.halt(e),
            Ok(sprite) => {
                self.pc += 2;
                let any_flipped_off = self.display.draw_sprite(x0, y0, sprite);
                self.register.set(
                    Varset::V(FLAG),
                    if any_flipped_off {
                        1
                    } else {
                        0
                    },
                );
                Ok(())
            },
        }
    }

    /// Jump, call and return.
    fn run_control(&mut self, instruction: Instruction) -> (res: Result<(), Chip8Error>)
        requires
            old(self).wf(),
            old(self).pc <= 0xfffb,
            old(self).state is Running,
            instruction is GotoAdress || instruction is RunSubroutineAtAdress
                || instruction is ReturnFromSubroutine,
        ensures
            final(self).wf(),
            final(self)@ == old(self)@.execute(instruction, 0),
            res == final(self)@.outcome(),
    {
        match instruction {
            Instruction::GotoAdress(address) => {
                self.pc = address;
            },
            Instruction::RunSubroutineAtAdress(address) => {
                self.stack.push(self.pc + 2);
                self.pc = address;
            },
            Instruction::ReturnFromSubroutine => match self.stack.pop() {
                Some(address) => {
                    self.pc = address;
                },
                None => {
                    return self.halt(Chip8Error::StackUnderflow);
                },
            },
            _ => {},
        }
        Ok(())
    }

    /// Runs one instruction, with `random` as the byte that a randomize
    /// instruction draws. A halted machine stays as it is; a failure halts the
    /// machine, changes nothing else, and is reported.
    pub fn execute(&mut self, instruction: Instruction, random: u8) -> (res: Result<
        (),
        Chip8Error,
    >)
        requires
            old(self).wf(),
            instruction.wf(),
            old(self).pc <= 0xfffb,
        ensures
            final(self).wf(),
            final(self)@ == old(self)@.execute(instruction, random),
            res == final(self)@.outcome(),
    {
        if let RunState::Halted(e) = self.state {
            return Err(e);
        }
        match instruction {
            Instruction::RCARoutine(routine) => self.halt(
                Chip8Error::UnimplementedOpcode(routine),
            ),
            Instruction::GotoAdress(_) | Instruction::RunSubroutineAtAdress(_)
            | Instruction::ReturnFromSubroutine => self.run_control(instruction),
            Instruction::SkipNextIfVarEq(_, _) | Instruction::SkipNextIfVarNeq(_, _)
            | Instruction::SkipNextIfVarsEq(_, _) | Instruction::SkipNextIfVarsNeq(_, _) => {
                self.run_skip(instruction);
                Ok(())
            },
            Instruction::VariableOnValue(vs, val, op) => {
                self.run_on_value(vs, val, op, random);
                Ok(())
            },
            Instruction::VariableOnVariable(vs, vi, op) => {
                self.run_on_variable(vs, vi, op);
                Ok(())
            },
            Instruction::SetITo(num) => {
                self.pc += 2;
                self.i = num;
                Ok(())
            },
            Instruction::IOnVariable(vs, op) => {
                self.run_on_index(vs, op);
                Ok(())
            },
            Instruction::StoreVarAsDecimalInPositionI(_)
            | Instruction::DumpVariablesUptoInPositionI(_)
            | Instruction::LoadVariablesUptoFromPositionI(_) => self.run_transfer(instruction),
            Instruction::ClearDraw => {
                self.pc += 2;
                self.display.clear();
                Ok(())
            },
            Instruction::DrawSpriteXYH(vx, vy, h) => self.run_draw(vx, vy, h),
        }
    }

    /// Runs one instruction. A randomize instruction draws its byte from the
    /// machine's generator, so the result is that of `execute` for some byte;
    /// for every other instruction the byte does not matter.
    pub fn run_instruction(&mut self, instruction: Instruction) -> (res: Result<(), Chip8Error>)
        requires
            old(self).wf(),
            instruction.wf(),
            old(self).pc <= 0xfffb,
        ensures
            final(self).wf(),
            exists|random: u8| final(self)@ == old(self)@.execute(instruction, random),
            !instruction.draws_random() ==> final(self)@ == old(self)@.execute(instruction, 0),
            res == final(self)@.outcome(),
    {
        let random = match instruction {
            Instruction::VariableOnValue(_, _, Operation::Randomize) => random_byte(&mut self.rng),
            _ => 0u8,
        };
        self.execute(instruction, random)
    }

    /// One cycle: fetches the opcode at the program counter, decodes it and
    /// runs it. A failure of any of the three halts the machine and is
    /// reported; a halted machine reports its failure again and stays as it is.
    /// A randomize instruction draws its byte from the machine's generator, so
    /// the result is that of the cycle for some byte; for every other
    /// instruction the byte does not matter.
    pub fn cycle(&mut self) -> (res: Result<(), Chip8Error>)
        requires
            old(self).wf(),
        ensures
            final(self).wf(),
            exists|random: u8| final(self)@ == old(self)@.cycle(random),
            !(old(self)@.fetched() matches Ok(instruction) && instruction.draws_random())
                ==> final(self)@ == old(self)@.cycle(0),
            res == final(self)@.outcome(),
    {
        if let RunState::Halted(e) = self.state {
            assert(self@ == old(self)@.cycle(0));
            return Err(e);
        }
        let opcode = match self.cartridge.get_opcode_from(self.pc) {
            Ok(opcode) => opcode,
            Err(e) => {
                let res = self.halt(e);
                assert(self@ == old(self)@.cycle(0));
                return res;
            },
        };
        let instruction = match from_opcode(opcode) {
            Ok(instruction) => instruction,
            Err(e) => {
                let res = self.halt(e);
                assert(self@ == old(self)@.cycle(0));
                return res;
            },
        };
        let res = self.run_instruction(instruction);
        proof {
            let random = choose|random: u8| self@ == old(self)@.execute(instruction, random);
            assert(self@ == old(self)@.cycle(random));
        }
        res
    }
}

} // verus!
