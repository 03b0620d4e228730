//! Numbers fixed by the game's design.

use vstd::prelude::*;

verus! {

/// Share of every bounty that is burned, in basis points (6.66%).
pub const BURN_BPS: u64 = 666;

/// Tokens charged for a spawn: 20 whole tokens at 6 decimal places.
pub const SPAWN_COST: u64 = 20_000_000;

/// Tokens charged for a move: 100 whole tokens at 6 decimal places.
pub const MOVE_COST: u64 = 100_000_000;

/// Combat weight of one reaper in units, and the bounty earned per unit.
pub const THERMAL_PARITY: u64 = 666;

/// Factor by which a defending stack's power counts in combat.
pub const DEFENDER_WEIGHT: u64 = 11;

/// Ceiling of the bounty multiplier.
pub const MAX_MULTIPLIER: u64 = 20;

/// Slots a stack has to age for each step of the bounty multiplier.
pub const SLOTS_PER_MULTIPLIER: u64 = 32_400;

/// Side length of the cubic grid.
pub const GRID_SIZE: u16 = 6;

/// Highest cell identifier; cells are numbered 0 to 215.
pub const MAX_STACK_ID: u16 = 215;

/// Basis points in a whole.
pub const BPS_DENOM: u64 = 10_000;

/// Decimal places of the token in which costs and bounties are counted.
pub const TOKEN_DECIMALS: u8 = 6;

} // verus!
