//! Creating the configuration record.

use vstd::prelude::*;

use crate::errors::KillError;
use crate::state::{Address, GameConfig};

verus! {

/// What initialisation works on: the record to fill, and the identities to
/// bind it to.
#[derive(Clone, Copy, Debug, PartialEq, Eq)]
pub struct InitializeGame {
    /// The record to fill. What it held before is overwritten.
    pub game_config: GameConfig,
    /// Mint of the token the economy runs on.
    pub kill_mint: Address,
    /// The vault, a token account of that mint under the record's authority.
    pub game_vault: Address,
    /// The caller, who becomes the admin.
    pub admin: Address,
    /// Bump of the record's derived address.
    pub bump: u8,
}

/// The configuration a deployment starts with: bound to the given mint, vault
/// and admin, no kills counted, not paused.
pub open spec fn initial_config(ctx: InitializeGame) -> GameConfig {
    GameConfig {
        kill_mint: ctx.kill_mint,
        game_vault: ctx.game_vault,
        admin: ctx.admin,
        total_kills: 0,
        paused: false,
        bump: ctx.bump,
    }
}

/// Fills the configuration record. Always succeeds; that it happens once per
/// deployment is for the store that hands out the record to enforce.
pub fn handler(ctx: &mut InitializeGame) -> (result: Result<(), KillError>)
    ensures
        result == Ok::<(), KillError>(()),
        *final(ctx) == (InitializeGame { game_config: initial_config(*old(ctx)), ..*old(ctx) }),
{
    ctx.game_config.kill_mint = ctx.kill_mint;
    ctx.game_config.game_vault = ctx.game_vault;
    ctx.game_config.admin = ctx.admin;
    ctx.game_config.total_kills = 0;
    ctx.game_config.paused = false;
    ctx.game_config.bump = ctx.bump;
    Ok(())
}

} // verus!
