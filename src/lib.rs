//! Emulator of CARDIAC, a decimal teaching computer: one accumulator, a sign
//! flag, 100 memory cells of three signed digits, decks of input and output
//! cards, and ten instructions.
//!
//! `model` states the machine and one step of it mathematically, `assembler`
//! holds the executable machine whose every operation is proved against that
//! model, and `laws` proves properties of the instruction set.
use vstd::prelude::*;

pub mod arith;
pub mod assembler;
pub mod laws;
pub mod model;

pub use assembler::Assembler;
pub use model::{CardiacError, Instruction, MachineView};

verus! {

/// Whether a value fits on a card: three decimal digits and a sign.
pub fn card_in_range(value: i32) -> (r: bool)
    ensures
        r == model::is_card_value(value as int),
{
    -999 <= value && value <= 999
}

} // verus!
