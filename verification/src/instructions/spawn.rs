//! Placing new units on a cell.

use vstd::prelude::*;

use crate::constants::{MAX_STACK_ID, SPAWN_COST};
use crate::errors::KillError;
use crate::state::{Address, AgentStack, GameConfig, StackSpawned, TokenInstruction};

verus! {

/// What a spawn works on: the configuration, the acting player, and the
/// player's record for the target cell. A cell the player never held comes as
/// a record that was never written.
#[derive(Clone, Copy, Debug, PartialEq, Eq)]
pub struct Spawn {
    pub game_config: GameConfig,
    /// The player's stack on the target cell.
    pub agent_stack: AgentStack,
    /// The acting player.
    pub agent: Address,
    /// The player's token account, which pays the cost.
    pub agent_token_account: Address,
    /// Bump of the stack record's derived address, stored on fresh occupation.
    pub agent_stack_bump: u8,
}

/// What a successful spawn hands back.
#[derive(Clone, Copy, Debug, PartialEq, Eq)]
pub struct SpawnReceipt {
    /// The spawn cost, to be moved from the player's token account into the vault.
    pub payment: TokenInstruction,
    /// The event to publish.
    pub event: StackSpawned,
}

/// Why a spawn is refused, if it is. The checks come in this order: the pause
/// flag, the cell, that something is spawned at all, room in the counts.
pub open spec fn spawn_error(ctx: Spawn, stack_id: u16, units: u64, reapers: u64) -> Option<
    KillError,
> {
    if ctx.game_config.paused {
        Some(KillError::GamePaused)
    } else if stack_id > MAX_STACK_ID {
        Some(KillError::InvalidStackId)
    } else if units == 0 && reapers == 0 {
        Some(KillError::EmptyAttacker)
    } else if !ctx.agent_stack.can_take(units, reapers) {
        Some(KillError::Overflow)
    } else {
        None
    }
}

/// The records after an accepted spawn at `current_slot`: the stack has taken
/// the new units and reapers, nothing else has changed.
pub open spec fn after_spawn(
    ctx: Spawn,
    stack_id: u16,
    units: u64,
    reapers: u64,
    current_slot: u64,
) -> Spawn {
    Spawn {
        agent_stack: ctx.agent_stack.reinforced(
            ctx.agent,
            stack_id,
            ctx.agent_stack_bump,
            units,
            reapers,
            current_slot,
        ),
        ..ctx
    }
}

/// What an accepted spawn hands back: the cost to pay and the event, which
/// carries the stack's totals after the spawn.
pub open spec fn spawn_receipt(
    ctx: Spawn,
    stack_id: u16,
    units: u64,
    reapers: u64,
    current_slot: u64,
) -> SpawnReceipt {
    let stack = after_spawn(ctx, stack_id, units, reapers, current_slot).agent_stack;
    SpawnReceipt {
        payment: ctx.game_config.deposit(ctx.agent, ctx.agent_token_account, SPAWN_COST),
        event: StackSpawned {
            agent: ctx.agent,
            stack_id,
            units: stack.units,
            reapers: stack.reapers,
            slot: current_slot,
        },
    }
}

/// Spawns `units` and `reapers` for the acting player on cell `stack_id`.
///
/// A refused spawn changes nothing. An accepted one occupies or reinforces the
/// stack and returns the payment the ledger has to make and the event.
pub fn handler(ctx: &mut Spawn, stack_id: u16, units: u64, reapers: u64, current_slot: u64) -> (result:
    Result<SpawnReceipt, KillError>)
    ensures
        match spawn_error(*old(ctx), stack_id, units, reapers) {
            Some(refusal) => result == Err::<SpawnReceipt, KillError>(refusal) && *final(ctx)
                == *old(ctx),
            None => result == Ok::<SpawnReceipt, KillError>(
                spawn_receipt(*old(ctx), stack_id, units, reapers, current_slot),
            ) && *final(ctx) == after_spawn(*old(ctx), stack_id, units, reapers, current_slot),
        },
{
    if ctx.game_config.paused {
        return Err(KillError::GamePaused);
    }
    if stack_id > MAX_STACK_ID {
        return Err(KillError::InvalidStackId);
    }
    if units == 0 && reapers == 0 {
        return Err(KillError::EmptyAttacker);
    }
    match ctx.agent_stack.reinforce(
        ctx.agent,
        stack_id,
        ctx.agent_stack_bump,
        units,
        reapers,
        current_slot,
    ) {
        Ok(()) => {},
        Err(refusal) => {
            return Err(refusal);
        },
    }
    Ok(
        SpawnReceipt {
            payment: ctx.game_config.deposit(
                ctx.agent,
                ctx.agent_token_account,
                SPAWN_COST,
            ),
            event: StackSpawned {
                agent: ctx.agent,
                stack_id,
                units: ctx.agent_stack.units,
                reapers: ctx.agent_stack.reapers,
                slot: current_slot,
            },
        },
    )
}

/// While the game is paused every spawn is refused with `GamePaused`,
/// whatever else it asks for.
pub proof fn lemma_paused_refuses_spawn(ctx: Spawn, stack_id: u16, units: u64, reapers: u64)
    requires
        ctx.game_config.paused,
    ensures
        spawn_error(ctx, stack_id, units, reapers) == Some(KillError::GamePaused),
{
}

/// A spawn touches the stack alone: the configuration, the player, its token
/// account and the bump come out as they went in.
pub proof fn lemma_spawn_touches_stack_only(
    ctx: Spawn,
    stack_id: u16,
    units: u64,
    reapers: u64,
    current_slot: u64,
)
    ensures
        after_spawn(ctx, stack_id, units, reapers, current_slot) == (Spawn {
            agent_stack: after_spawn(ctx, stack_id, units, reapers, current_slot).agent_stack,
            ..ctx
        }),
{
}

/// A spawn onto an empty stack occupies it afresh, for the acting player and
/// the target cell, with its age anchored at the current slot. A spawn onto an
/// occupied stack adds to its counts and leaves everything else, the anchor
/// included.
pub proof fn lemma_spawn_occupies_or_reinforces(
    ctx: Spawn,
    stack_id: u16,
    units: u64,
    reapers: u64,
    current_slot: u64,
)
    requires
        spawn_error(ctx, stack_id, units, reapers) is None,
    ensures
        ({
            let before = ctx.agent_stack;
            let after = after_spawn(ctx, stack_id, units, reapers, current_slot).agent_stack;
            &&& !after.is_empty()
            &&& after.units == before.units + units
            &&& after.reapers == before.reapers + reapers
            &&& before.is_empty() ==> after.agent == ctx.agent && after.stack_id == stack_id
                && after.spawn_slot == current_slot && after.kill_slot == 0
            &&& !before.is_empty() ==> after == (AgentStack {
                units: after.units,
                reapers: after.reapers,
                ..before
            })
        }),
{
}

/// Two spawns in a row on the same player and cell add up, and the second
/// leaves the age anchor where it stood after the first.
pub proof fn lemma_spawn_twice_accumulates(
    ctx: Spawn,
    stack_id: u16,
    first_units: u64,
    first_reapers: u64,
    first_slot: u64,
    second_units: u64,
    second_reapers: u64,
    second_slot: u64,
)
    requires
        spawn_error(ctx, stack_id, first_units, first_reapers) is None,
        spawn_error(
            after_spawn(ctx, stack_id, first_units, first_reapers, first_slot),
            stack_id,
            second_units,
            second_reapers,
        ) is None,
    ensures
        ({
            let first = after_spawn(ctx, stack_id, first_units, first_reapers, first_slot);
            let second = after_spawn(first, stack_id, second_units, second_reapers, second_slot);
            &&& second.agent_stack.units == ctx.agent_stack.units + first_units + second_units
            &&& second.agent_stack.reapers == ctx.agent_stack.reapers + first_reapers
                + second_reapers
            &&& second.agent_stack.spawn_slot == first.agent_stack.spawn_slot
            &&& second.agent_stack.agent == first.agent_stack.agent
            &&& second.agent_stack.stack_id == first.agent_stack.stack_id
            &&& second.agent_stack.kill_slot == first.agent_stack.kill_slot
        }),
{
}

} // verus!
