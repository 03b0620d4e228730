//! State-transition rules of a grid wargame whose economy runs on a fungible token.
//!
//! Players place stacks of units on the cells of a 6 x 6 x 6 grid, move them
//! between neighbouring cells and attack neighbouring enemy stacks. Every
//! operation is a function from the records it touches, the acting identity and
//! the current slot to the updated records, the token movements the ledger has
//! to carry out, and the event to publish. Nothing here performs a transfer or
//! reads a clock: whoever hosts the game supplies the slot and executes the
//! returned instructions.

pub mod arith;
pub mod constants;
pub mod errors;
pub mod instructions;
pub mod state;
