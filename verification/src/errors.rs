//! Why an operation was refused.

use vstd::prelude::*;

verus! {

/// The reasons for which the game rejects an operation. A rejected operation
/// changes nothing.
#[derive(Clone, Copy, Debug, PartialEq, Eq, Structural)]
pub enum KillError {
    /// The two cells are not exactly one step apart.
    NotAdjacent,
    /// The acting stack holds nothing, or a spawn asked for nothing.
    EmptyAttacker,
    /// The attacked stack holds nothing.
    EmptyDefender,
    /// The attacked stack belongs to the attacker.
    SelfAttack,
    /// A cell identifier lies beyond the grid.
    InvalidStackId,
    /// Gameplay is paused.
    GamePaused,
    /// A count would no longer fit in 64 bits.
    Overflow,
    /// The player cannot pay. Raised by the token ledger, never by the rules here.
    InsufficientBalance,
    /// The caller is not the admin, or does not own the stack it acts with.
    Unauthorized,
}

} // verus!
