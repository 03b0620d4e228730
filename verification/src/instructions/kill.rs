//! Attacking a neighbouring enemy stack.

use vstd::prelude::*;

use crate::arith::{saturate, saturating_mul};
use crate::constants::{BPS_DENOM, BURN_BPS};
use crate::errors::KillError;
use crate::instructions::{
    adjacent, attacker_wins, combat, get_pending_bounty, is_adjacent, lemma_survivors_bounded,
    pending_bounty, resolve_combat,
};
use crate::state::{Address, AgentStack, GameConfig, KillEvent, TokenInstruction};

verus! {

/// What an attack works on: the configuration, the two stacks, and the two
/// players. The defender need not consent; its identity only names its stack.
#[derive(Clone, Copy, Debug, PartialEq, Eq)]
pub struct Kill {
    pub game_config: GameConfig,
    /// The stack that attacks.
    pub attacker_stack: AgentStack,
    /// The stack that is attacked.
    pub defender_stack: AgentStack,
    /// The acting player.
    pub attacker: Address,
    /// The acting player's token account, which receives the payout.
    pub attacker_token_account: Address,
    /// The player whose stack is attacked.
    pub defender: Address,
}

/// How an attack that met its preconditions ended.
#[derive(Clone, Copy, Debug, PartialEq, Eq)]
pub enum KillOutcome {
    /// The attacker lost and its stack is cleared. No token moves and nothing
    /// is published.
    Repelled,
    /// The attacker won.
    Victory {
        /// Payment of the attacker's share out of the vault; none where the share is zero.
        payout: Option<TokenInstruction>,
        /// Burn of the remaining share out of the vault; none where it is zero.
        burn: Option<TokenInstruction>,
        /// The event to publish.
        event: KillEvent,
    },
}

/// Part of a bounty that is burned: `BURN_BPS` basis points of it, rounded
/// down, the product saturating.
pub open spec fn burn_share(bounty: u64) -> u64 {
    saturate(bounty * BURN_BPS) / BPS_DENOM
}

/// Part of a bounty that is paid to the winner: what is left of it without
/// the burned share, never less than nothing.
pub open spec fn payout_share(bounty: u64) -> u64 {
    saturate(bounty - burn_share(bounty))
}

/// The split neither creates nor destroys a token: the two shares are
/// non-negative and add up to the bounty.
pub proof fn lemma_split_conserves(bounty: u64)
    ensures
        burn_share(bounty) <= bounty,
        payout_share(bounty) <= bounty,
        burn_share(bounty) + payout_share(bounty) == bounty,
{
    assert(saturate(bounty * BURN_BPS) <= bounty * 666);
}

/// Where the product fits in 64 bits the burned share is exactly
/// `bounty * BURN_BPS / BPS_DENOM`, rounded down.
pub proof fn lemma_burn_share_exact(bounty: u64)
    requires
        bounty * BURN_BPS <= u64::MAX,
    ensures
        burn_share(bounty) == (bounty * BURN_BPS) / (BPS_DENOM as int),
        payout_share(bounty) == bounty - (bounty * BURN_BPS) / (BPS_DENOM as int),
{
}

/// Splits a bounty into the burned share and the winner's share, in that order.
pub fn split_bounty(bounty: u64) -> (shares: (u64, u64))
    ensures
        shares.0 == burn_share(bounty),
        shares.1 == payout_share(bounty),
        shares.0 + shares.1 == bounty,
{
    proof {
        lemma_split_conserves(bounty);
    }
    let burn_amount: u64 = saturating_mul(bounty, BURN_BPS) / BPS_DENOM;
    let payout: u64 = bounty.saturating_sub(burn_amount);
    (burn_amount, payout)
}

/// The payment of the winner's share out of the vault to the attacker's
/// token account, or none where the share is nothing.
pub open spec fn payout_of(ctx: Kill, amount: u64) -> Option<TokenInstruction> {
    if amount > 0 {
        Some(ctx.game_config.release(ctx.attacker_token_account, amount))
    } else {
        None
    }
}

/// The burn of the burned share out of the vault, or none where the share is
/// nothing.
pub open spec fn burn_of(ctx: Kill, amount: u64) -> Option<TokenInstruction> {
    if amount > 0 {
        Some(ctx.game_config.burn(amount))
    } else {
        None
    }
}

/// Why an attack is refused, if it is. The checks come in this order: the
/// pause flag, the attacker's ownership of its stack, the two stacks'
/// occupancy, the defender's ownership, adjacency.
pub open spec fn kill_error(ctx: Kill, attacker_stack_id: u16, defender_stack_id: u16) -> Option<
    KillError,
> {
    if ctx.game_config.paused {
        Some(KillError::GamePaused)
    } else if ctx.attacker_stack.agent != ctx.attacker {
        Some(KillError::Unauthorized)
    } else if ctx.attacker_stack.is_empty() {
        Some(KillError::EmptyAttacker)
    } else if ctx.defender_stack.is_empty() {
        Some(KillError::EmptyDefender)
    } else if ctx.defender_stack.agent == ctx.attacker {
        Some(KillError::SelfAttack)
    } else if !adjacent(attacker_stack_id, defender_stack_id) {
        Some(KillError::NotAdjacent)
    } else {
        None
    }
}

/// Whether the attacker of `ctx` wins the fight.
pub open spec fn kill_won(ctx: Kill) -> bool {
    attacker_wins(
        ctx.defender_stack.units,
        ctx.attacker_stack.units,
        ctx.defender_stack.reapers,
        ctx.attacker_stack.reapers,
    )
}

/// The records after an accepted attack at `current_slot`.
///
/// On a win the defender is cleared, the attacker keeps its survivors and
/// notes the slot, and the kill counter grows by one, saturating. On a loss
/// only the attacker is cleared.
pub open spec fn after_kill(ctx: Kill, current_slot: u64) -> Kill {
    let fight = combat(
        ctx.defender_stack.units,
        ctx.attacker_stack.units,
        ctx.defender_stack.reapers,
        ctx.attacker_stack.reapers,
    );
    if fight.0 {
        Kill {
            game_config: GameConfig {
                total_kills: saturate(ctx.game_config.total_kills + 1),
                ..ctx.game_config
            },
            attacker_stack: AgentStack {
                units: fight.1,
                reapers: fight.2,
                kill_slot: current_slot,
                ..ctx.attacker_stack
            },
            defender_stack: ctx.defender_stack.cleared(),
            ..ctx
        }
    } else {
        Kill { attacker_stack: ctx.attacker_stack.cleared(), ..ctx }
    }
}

/// What an accepted attack at `current_slot` hands back: the token movements
/// and the event of a win, computed on the defender as it stood before.
pub open spec fn kill_outcome(
    ctx: Kill,
    attacker_stack_id: u16,
    defender_stack_id: u16,
    current_slot: u64,
) -> KillOutcome {
    let fight = combat(
        ctx.defender_stack.units,
        ctx.attacker_stack.units,
        ctx.defender_stack.reapers,
        ctx.attacker_stack.reapers,
    );
    if fight.0 {
        let bounty = pending_bounty(ctx.defender_stack, current_slot);
        KillOutcome::Victory {
            payout: payout_of(ctx, payout_share(bounty)),
            burn: burn_of(ctx, burn_share(bounty)),
            event: KillEvent {
                attacker: ctx.attacker,
                defender: ctx.defender,
                attacker_stack: attacker_stack_id,
                defender_stack: defender_stack_id,
                bounty,
                burned: burn_share(bounty),
                remaining_units: fight.1,
                remaining_reapers: fight.2,
                slot: current_slot,
            },
        }
    } else {
        KillOutcome::Repelled
    }
}

/// Attacks the stack on `defender_stack_id` with the one on `attacker_stack_id`.
///
/// Refused attacks change nothing. An accepted attack is resolved at
/// `current_slot`; the returned outcome lists what the ledger has to move and
/// what is to be published.
pub fn handler(
    ctx: &mut Kill,
    attacker_stack_id: u16,
    defender_stack_id: u16,
    current_slot: u64,
) -> (result: Result<KillOutcome, KillError>)
    ensures
        match kill_error(*old(ctx), attacker_stack_id, defender_stack_id) {
            Some(refusal) => result == Err::<KillOutcome, KillError>(refusal) && *final(ctx)
                == *old(ctx),
            None => result == Ok::<KillOutcome, KillError>(
                kill_outcome(*old(ctx), attacker_stack_id, defender_stack_id, current_slot),
            ) && *final(ctx) == after_kill(*old(ctx), current_slot),
        },
{
    if ctx.game_config.paused {
        return Err(KillError::GamePaused);
    }
    if ctx.attacker_stack.agent != ctx.attacker {
        return Err(KillError::Unauthorized);
    }
    if ctx.attacker_stack.is_empty() {
        return Err(KillError::EmptyAttacker);
    }
    if ctx.defender_stack.is_empty() {
        return Err(KillError::EmptyDefender);
    }
    if ctx.defender_stack.agent == ctx.attacker {
        return Err(KillError::SelfAttack);
    }
    if !is_adjacent(attacker_stack_id, defender_stack_id) {
        return Err(KillError::NotAdjacent);
    }
    let (won, rem_units, rem_reapers) = resolve_combat(
        ctx.defender_stack.units,
        ctx.attacker_stack.units,
        ctx.defender_stack.reapers,
        ctx.attacker_stack.reapers,
    );

    if !won {
        ctx.attacker_stack.clear();
        return Ok(KillOutcome::Repelled);
    }
    let bounty: u64 = get_pending_bounty(&ctx.defender_stack, current_slot);
    let (burn_amount, payout_amount) = split_bounty(bounty);
    let payout = if payout_amount > 0 {
        Some(ctx.game_config.release(ctx.attacker_token_account, payout_amount))
    } else {
        None
    };
    let burn = if burn_amount > 0 {
        Some(ctx.game_config.burn(burn_amount))
    } else {
        None
    };

    ctx.defender_stack.clear();
    ctx.attacker_stack.units = rem_units;
    ctx.attacker_stack.reapers = rem_reapers;
    ctx.attacker_stack.kill_slot = current_slot;
    ctx.game_config.total_kills = ctx.game_config.total_kills.saturating_add(1);

    Ok(
        KillOutcome::Victory {
            payout,
            burn,
            event: KillEvent {
                attacker: ctx.attacker,
                defender: ctx.defender,
                attacker_stack: attacker_stack_id,
                defender_stack: defender_stack_id,
                bounty,
                burned: burn_amount,
                remaining_units: rem_units,
                remaining_reapers: rem_reapers,
                slot: current_slot,
            },
        },
    )
}

/// While the game is paused every attack is refused with `GamePaused`,
/// whatever else it asks for.
pub proof fn lemma_paused_refuses_kill(ctx: Kill, attacker_stack_id: u16, defender_stack_id: u16)
    requires
        ctx.game_config.paused,
    ensures
        kill_error(ctx, attacker_stack_id, defender_stack_id) == Some(KillError::GamePaused),
{
}

/// An attack leaves exactly one of the two stacks standing. On a win the
/// defender is emptied and the attacker keeps at most what it brought; on a
/// loss the attacker is emptied and the defender is untouched. Neither stack
/// changes owner or cell.
pub proof fn lemma_kill_clears_the_loser(ctx: Kill, current_slot: u64)
    ensures
        ({
            let after = after_kill(ctx, current_slot);
            &&& kill_won(ctx) ==> after.defender_stack == ctx.defender_stack.cleared()
                && after.attacker_stack.units <= ctx.attacker_stack.units
                && after.attacker_stack.reapers <= ctx.attacker_stack.reapers
                && after.attacker_stack.kill_slot == current_slot
            &&& !kill_won(ctx) ==> after.attacker_stack == ctx.attacker_stack.cleared()
                && after.defender_stack == ctx.defender_stack && after.game_config
                == ctx.game_config
            &&& after.attacker_stack.agent == ctx.attacker_stack.agent
            &&& after.attacker_stack.stack_id == ctx.attacker_stack.stack_id
            &&& after.attacker_stack.spawn_slot == ctx.attacker_stack.spawn_slot
            &&& after.defender_stack.agent == ctx.defender_stack.agent
            &&& after.defender_stack.stack_id == ctx.defender_stack.stack_id
        }),
{
    lemma_survivors_bounded(
        ctx.defender_stack.units,
        ctx.attacker_stack.units,
        ctx.defender_stack.reapers,
        ctx.attacker_stack.reapers,
    );
}

/// The kill counter never decreases. It grows by exactly one with every win,
/// until it has reached the largest 64-bit value, and stands still on a loss.
/// Nothing else in the configuration changes.
pub proof fn lemma_kill_counts_wins(ctx: Kill, current_slot: u64)
    ensures
        ({
            let before = ctx.game_config;
            let after = after_kill(ctx, current_slot).game_config;
            &&& after.total_kills >= before.total_kills
            &&& kill_won(ctx) && before.total_kills < u64::MAX ==> after.total_kills
                == before.total_kills + 1
            &&& !kill_won(ctx) ==> after.total_kills == before.total_kills
            &&& after == (GameConfig { total_kills: after.total_kills, ..before })
        }),
{
}

/// Tokens an optional instruction moves: its amount, or nothing.
pub open spec fn amount_of(instruction: Option<TokenInstruction>) -> int {
    match instruction {
        Some(instruction) => instruction.amount() as int,
        None => 0,
    }
}

/// What a win moves out of the vault adds up to the bounty: the payment and
/// the burn, each left out where it is zero, and no more.
pub proof fn lemma_kill_settles_the_bounty(
    ctx: Kill,
    attacker_stack_id: u16,
    defender_stack_id: u16,
    current_slot: u64,
)
    requires
        kill_won(ctx),
    ensures
        ({
            let outcome = kill_outcome(ctx, attacker_stack_id, defender_stack_id, current_slot);
            &&& outcome matches KillOutcome::Victory { payout, burn, event }
            &&& event.bounty == pending_bounty(ctx.defender_stack, current_slot)
            &&& amount_of(payout) + amount_of(burn) == event.bounty
            &&& amount_of(burn) == event.burned
            &&& payout matches Some(instruction) ==> instruction == ctx.game_config.release(
                ctx.attacker_token_account,
                payout_share(event.bounty),
            )
            &&& burn matches Some(instruction) ==> instruction == ctx.game_config.burn(
                event.burned,
            )
        }),
{
    lemma_split_conserves(pending_bounty(ctx.defender_stack, current_slot));
}

} // verus!
