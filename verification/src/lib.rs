//! A CHIP-8 virtual machine: opcode decoder, register bank, execution engine,
//! display buffer and keyboard latch, each with a machine-checked contract.
//!
//! The machine is stepped from outside, one [`state::Chip8State::cycle`] at a
//! time. Every part has a view, a plain mathematical value, and the contracts
//! say how each operation changes that value: [`state::MachineView::execute`]
//! is the meaning of an instruction, [`instruction::decode`] the meaning of an
//! opcode. The rules that follow from these definitions are proved in
//! [`laws`].
//!
//! Two things are taken on trust, both from the `rand` crate: the generator of
//! the calling thread and the byte that it draws for the randomize
//! instruction. Nothing is claimed of either.

pub mod cartridge;
pub mod display;
pub mod error;
pub mod instruction;
pub mod keyboard;
pub mod laws;
pub mod listing;
pub mod mnemonic;
pub mod pacer;
pub mod register;
pub mod state;
pub mod text;
pub mod window;
