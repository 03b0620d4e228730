//! What the admin may do: pause the game, and withdraw from the vault.
//!
//! Neither operation looks at the pause flag: both stay available while the
//! game is paused.

use vstd::prelude::*;

use crate::errors::KillError;
use crate::state::{Address, GameConfig, TokenInstruction};

verus! {

/// What pausing works on: the configuration and the caller.
#[derive(Clone, Copy, Debug, PartialEq, Eq)]
pub struct AdminConfig {
    pub game_config: GameConfig,
    /// The caller, who has to be the stored admin.
    pub admin: Address,
}

/// What a withdrawal works on: the configuration, the caller and the account
/// the caller wants the tokens in.
#[derive(Clone, Copy, Debug, PartialEq, Eq)]
pub struct AdminWithdraw {
    pub game_config: GameConfig,
    /// The token account that receives the withdrawal.
    pub destination: Address,
    /// The caller, who has to be the stored admin.
    pub admin: Address,
}

/// Whether `caller` is the admin stored in `config`.
pub open spec fn is_admin(config: GameConfig, caller: Address) -> bool {
    caller == config.admin
}

/// Whom the configuration takes for its admin does not depend on the pause
/// flag: the stored admin can pause, resume and withdraw while the game is
/// paused, and nobody else can at any time.
pub proof fn lemma_admin_unaffected_by_pause(config: GameConfig, caller: Address, paused: bool)
    ensures
        is_admin((GameConfig { paused, ..config }), caller) == is_admin(config, caller),
        is_admin((GameConfig { paused, ..config }), config.admin),
{
}

/// Sets the pause flag to `paused`, for the stored admin only.
///
/// Anyone else is refused with `Unauthorized`, and nothing changes. Only the
/// flag changes on success.
pub fn set_paused(ctx: &mut AdminConfig, paused: bool) -> (result: Result<(), KillError>)
    ensures
        is_admin(old(ctx).game_config, old(ctx).admin) ==> result == Ok::<(), KillError>(())
            && *final(ctx) == (AdminConfig {
            game_config: GameConfig { paused, ..old(ctx).game_config },
            ..*old(ctx)
        }),
        !is_admin(old(ctx).game_config, old(ctx).admin) ==> result == Err::<(), KillError>(
            KillError::Unauthorized,
        ) && *final(ctx) == *old(ctx),
{
    if ctx.admin != ctx.game_config.admin {
        return Err(KillError::Unauthorized);
    }
    ctx.game_config.paused = paused;
    Ok(())
}

/// Withdraws `amount` from the vault to the destination the admin names.
///
/// Returns the movement the ledger has to make, for the stored admin only;
/// anyone else is refused with `Unauthorized`. The amount is not bounded here:
/// the ledger refuses what the vault does not hold.
pub fn withdraw(ctx: &AdminWithdraw, amount: u64) -> (result: Result<TokenInstruction, KillError>)
    ensures
        is_admin(ctx.game_config, ctx.admin) ==> result == Ok::<TokenInstruction, KillError>(
            ctx.game_config.release(ctx.destination, amount),
        ),
        !is_admin(ctx.game_config, ctx.admin) ==> result == Err::<TokenInstruction, KillError>(
            KillError::Unauthorized,
        ),
{
    if ctx.admin != ctx.game_config.admin {
        return Err(KillError::Unauthorized);
    }
    Ok(ctx.game_config.release(ctx.destination, amount))
}

} // verus!
