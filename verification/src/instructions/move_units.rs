//! Moving a stack to a neighbouring cell.

use vstd::prelude::*;

use crate::constants::{MAX_STACK_ID, MOVE_COST};
use crate::errors::KillError;
use crate::instructions::{adjacent, is_adjacent};
use crate::state::{Address, AgentStack, GameConfig, StackMoved, TokenInstruction};

verus! {

/// What a move works on: the configuration, the acting player, and the
/// player's records for the two cells. A destination the player never held
/// comes as a record that was never written.
#[derive(Clone, Copy, Debug, PartialEq, Eq)]
pub struct MoveUnits {
    pub game_config: GameConfig,
    /// The stack that leaves.
    pub from_stack: AgentStack,
    /// The player's stack on the destination cell.
    pub to_stack: AgentStack,
    /// The acting player.
    pub agent: Address,
    /// The player's token account, which pays the cost.
    pub agent_token_account: Address,
    /// Bump of the destination record's derived address, stored on fresh occupation.
    pub to_stack_bump: u8,
}

/// What a successful move hands back.
#[derive(Clone, Copy, Debug, PartialEq, Eq)]
pub struct MoveReceipt {
    /// The move cost, to be moved from the player's token account into the vault.
    pub payment: TokenInstruction,
    /// The event to publish.
    pub event: StackMoved,
}

/// Why a move is refused, if it is. The checks come in this order: the pause
/// flag, ownership of the source, its occupancy, the two cells, adjacency,
/// room in the destination's counts.
pub open spec fn move_error(ctx: MoveUnits, from_stack_id: u16, to_stack_id: u16) -> Option<
    KillError,
> {
    if ctx.game_config.paused {
        Some(KillError::GamePaused)
    } else if ctx.from_stack.agent != ctx.agent {
        Some(KillError::Unauthorized)
    } else if ctx.from_stack.is_empty() {
        Some(KillError::EmptyAttacker)
    } else if from_stack_id > MAX_STACK_ID || to_stack_id > MAX_STACK_ID {
        Some(KillError::InvalidStackId)
    } else if !adjacent(from_stack_id, to_stack_id) {
        Some(KillError::NotAdjacent)
    } else if !ctx.to_stack.can_take(ctx.from_stack.units, ctx.from_stack.reapers) {
        Some(KillError::Overflow)
    } else {
        None
    }
}

/// The records after an accepted move at `current_slot`: the source keeps its
/// owner and cell and holds nothing, the destination has taken all the source
/// held.
pub open spec fn after_move(ctx: MoveUnits, to_stack_id: u16, current_slot: u64) -> MoveUnits {
    MoveUnits {
        from_stack: ctx.from_stack.cleared(),
        to_stack: ctx.to_stack.reinforced(
            ctx.agent,
            to_stack_id,
            ctx.to_stack_bump,
            ctx.from_stack.units,
            ctx.from_stack.reapers,
            current_slot,
        ),
        ..ctx
    }
}

/// What an accepted move hands back: the cost to pay and the event, which
/// carries the counts that travelled.
pub open spec fn move_receipt(
    ctx: MoveUnits,
    from_stack_id: u16,
    to_stack_id: u16,
    current_slot: u64,
) -> MoveReceipt {
    MoveReceipt {
        payment: ctx.game_config.deposit(ctx.agent, ctx.agent_token_account, MOVE_COST),
        event: StackMoved {
            agent: ctx.agent,
            from_stack: from_stack_id,
            to_stack: to_stack_id,
            units: ctx.from_stack.units,
            reapers: ctx.from_stack.reapers,
            slot: current_slot,
        },
    }
}

/// Moves all the acting player holds on `from_stack_id` to `to_stack_id`.
///
/// A refused move changes nothing. An accepted one empties the source, merges
/// what it held into the destination and returns the payment the ledger has to
/// make and the event.
pub fn handler(ctx: &mut MoveUnits, from_stack_id: u16, to_stack_id: u16, current_slot: u64) -> (result:
    Result<MoveReceipt, KillError>)
    ensures
        match move_error(*old(ctx), from_stack_id, to_stack_id) {
            Some(refusal) => result == Err::<MoveReceipt, KillError>(refusal) && *final(ctx)
                == *old(ctx),
            None => result == Ok::<MoveReceipt, KillError>(
                move_receipt(*old(ctx), from_stack_id, to_stack_id, current_slot),
            ) && *final(ctx) == after_move(*old(ctx), to_stack_id, current_slot),
        },
{
    if ctx.game_config.paused {
        return Err(KillError::GamePaused);
    }
    if ctx.from_stack.agent != ctx.agent {
        return Err(KillError::Unauthorized);
    }
    if ctx.from_stack.is_empty() {
        return Err(KillError::EmptyAttacker);
    }
    if from_stack_id > MAX_STACK_ID {
        return Err(KillError::InvalidStackId);
    }
    if to_stack_id > MAX_STACK_ID {
        return Err(KillError::InvalidStackId);
    }
    if !is_adjacent(from_stack_id, to_stack_id) {
        return Err(KillError::NotAdjacent);
    }
    let units: u64 = ctx.from_stack.units;
    let reapers: u64 = ctx.from_stack.reapers;

    match ctx.to_stack.reinforce(
        ctx.agent,
        to_stack_id,
        ctx.to_stack_bump,
        units,
        reapers,
        current_slot,
    ) {
        Ok(()) => {},
        Err(refusal) => {
            return Err(refusal);
        },
    }
    ctx.from_stack.clear();

    Ok(
        MoveReceipt {
            payment: ctx.game_config.deposit(
                ctx.agent,
                ctx.agent_token_account,
                MOVE_COST,
            ),
            event: StackMoved {
                agent: ctx.agent,
                from_stack: from_stack_id,
                to_stack: to_stack_id,
                units,
                reapers,
                slot: current_slot,
            },
        },
    )
}

/// While the game is paused every move is refused with `GamePaused`,
/// whatever else it asks for.
pub proof fn lemma_paused_refuses_move(ctx: MoveUnits, from_stack_id: u16, to_stack_id: u16)
    requires
        ctx.game_config.paused,
    ensures
        move_error(ctx, from_stack_id, to_stack_id) == Some(KillError::GamePaused),
{
}

/// A move drains the source and adds all it held to the destination: no unit
/// or reaper is created or lost on the way. The source keeps its owner, cell
/// and slots; the configuration is untouched.
pub proof fn lemma_move_conserves(
    ctx: MoveUnits,
    from_stack_id: u16,
    to_stack_id: u16,
    current_slot: u64,
)
    requires
        move_error(ctx, from_stack_id, to_stack_id) is None,
    ensures
        ({
            let after = after_move(ctx, to_stack_id, current_slot);
            &&& after.from_stack.units == 0
            &&& after.from_stack.reapers == 0
            &&& after.to_stack.units == ctx.to_stack.units + ctx.from_stack.units
            &&& after.to_stack.reapers == ctx.to_stack.reapers + ctx.from_stack.reapers
            &&& after.from_stack.units + after.to_stack.units == ctx.from_stack.units
                + ctx.to_stack.units
            &&& after.from_stack.reapers + after.to_stack.reapers == ctx.from_stack.reapers
                + ctx.to_stack.reapers
            &&& after.from_stack == (AgentStack { units: 0, reapers: 0, ..ctx.from_stack })
            &&& after.game_config == ctx.game_config
        }),
{
}

/// A move into an empty destination occupies it afresh for the acting player,
/// with its age anchored at the current slot; a move into an occupied one
/// leaves the destination's owner, cell and slots.
pub proof fn lemma_move_occupies_or_reinforces(
    ctx: MoveUnits,
    from_stack_id: u16,
    to_stack_id: u16,
    current_slot: u64,
)
    requires
        move_error(ctx, from_stack_id, to_stack_id) is None,
    ensures
        ({
            let before = ctx.to_stack;
            let after = after_move(ctx, to_stack_id, current_slot).to_stack;
            &&& !after.is_empty()
            &&& before.is_empty() ==> after.agent == ctx.agent && after.stack_id == to_stack_id
                && after.spawn_slot == current_slot && after.kill_slot == 0
            &&& !before.is_empty() ==> after == (AgentStack {
                units: after.units,
                reapers: after.reapers,
                ..before
            })
        }),
{
}

} // verus!
