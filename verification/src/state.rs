//! Records kept by the game and the events it publishes.

use vstd::prelude::*;
use vstd::std_specs::cmp::PartialEqSpecImpl;

use crate::errors::KillError;

verus! {

/// A 32-byte identity: a player, an account or a token mint.
#[derive(Clone, Copy, Debug)]
pub struct Address {
    pub bytes: [u8; 32],
}

impl PartialEq for Address {
    fn eq(&self, other: &Address) -> (r: bool) {
        let mut i: usize = 0;
        while i < 32
            invariant
                i <= 32,
                forall|j: int| 0 <= j < i ==> self.bytes[j] == other.bytes[j],
            decreases 32 - i,
        {
            if self.bytes[i] != other.bytes[i] {
                return false;
            }
            i += 1;
        }
        assert(self.bytes@ =~= other.bytes@);
        assert(self.bytes == other.bytes);
        true
    }
}

impl PartialEqSpecImpl for Address {
    open spec fn obeys_eq_spec() -> bool {
        true
    }

    open spec fn eq_spec(&self, other: &Address) -> bool {
        *self == *other
    }
}

impl Eq for Address {

}

impl Default for Address {
    /// The identity made of zero bytes, as found in a record that was never written.
    fn default() -> (r: Address)
        ensures
            forall|i: int| 0 <= i < 32 ==> r.bytes[i] == 0,
    {
        Address { bytes: [0u8; 32] }
    }
}

/// The one configuration record of a deployment.
///
/// The record is also the authority that signs for the vault: every movement
/// out of the vault is made in its name.
#[derive(Clone, Copy, Debug, PartialEq, Eq)]
pub struct GameConfig {
    /// Mint of the token the economy runs on. Fixed at creation.
    pub kill_mint: Address,
    /// Token account that pools costs and pays bounties. Fixed at creation.
    pub game_vault: Address,
    /// Who may pause the game and withdraw from the vault.
    pub admin: Address,
    /// Kills won by attackers since creation. Never decreases.
    pub total_kills: u64,
    /// While set, spawn, move and kill are refused.
    pub paused: bool,
    /// Bump of the record's derived address.
    pub bump: u8,
}

/// The units one player holds on one cell.
///
/// A record is never deleted: a stack that leaves or dies is zeroed and keeps
/// its owner and cell.
#[derive(Clone, Copy, Debug, PartialEq, Eq)]
pub struct AgentStack {
    /// Owner of the stack.
    pub agent: Address,
    /// Cell of the stack, 0 to 215.
    pub stack_id: u16,
    /// Basic units.
    pub units: u64,
    /// Heavy units.
    pub reapers: u64,
    /// Slot at which the stack last went from empty to occupied.
    pub spawn_slot: u64,
    /// Slot of the stack's latest victory.
    pub kill_slot: u64,
    /// Bump of the record's derived address.
    pub bump: u8,
}

impl AgentStack {
    /// A stack is empty when it holds neither units nor reapers.
    pub open spec fn spec_is_empty(&self) -> bool {
        self.units == 0 && self.reapers == 0
    }

    /// Whether the stack holds nothing.
    #[verifier::when_used_as_spec(spec_is_empty)]
    pub fn is_empty(&self) -> (r: bool)
        ensures
            r == self.spec_is_empty(),
    {
        self.units == 0 && self.reapers == 0
    }

    /// The stack without its units: owner, cell and slots stay.
    pub open spec fn cleared(self) -> AgentStack {
        AgentStack { units: 0, reapers: 0, ..self }
    }

    /// Removes every unit and reaper, and leaves the rest of the record as it is.
    pub fn clear(&mut self)
        ensures
            *final(self) == old(self).cleared(),
    {
        self.units = 0;
        self.reapers = 0;
    }

    /// Whether the stack can take `units` and `reapers` more without a count
    /// leaving 64 bits.
    pub open spec fn can_take(self, units: u64, reapers: u64) -> bool {
        self.units + units <= u64::MAX && self.reapers + reapers <= u64::MAX
    }

    /// The stack after `units` and `reapers` arrive at `slot`.
    ///
    /// An empty stack is occupied afresh: it takes the arriving owner, cell and
    /// bump, anchors its age at `slot` and forgets its last victory. An occupied
    /// stack only grows.
    pub open spec fn reinforced(
        self,
        agent: Address,
        stack_id: u16,
        bump: u8,
        units: u64,
        reapers: u64,
        slot: u64,
    ) -> AgentStack {
        if self.is_empty() {
            AgentStack { agent, stack_id, units, reapers, spawn_slot: slot, kill_slot: 0, bump }
        } else {
            AgentStack {
                units: (self.units + units) as u64,
                reapers: (self.reapers + reapers) as u64,
                ..self
            }
        }
    }

    /// Merges arriving units and reapers into the stack.
    ///
    /// Fails with `Overflow`, and changes nothing, where a count would leave
    /// 64 bits.
    pub fn reinforce(
        &mut self,
        agent: Address,
        stack_id: u16,
        bump: u8,
        units: u64,
        reapers: u64,
        slot: u64,
    ) -> (result: Result<(), KillError>)
        ensures
            old(self).can_take(units, reapers) ==> result == Ok::<(), KillError>(())
                && *final(self) == old(self).reinforced(
                agent,
                stack_id,
                bump,
                units,
                reapers,
                slot,
            ),
            !old(self).can_take(units, reapers) ==> result == Err::<(), KillError>(
                KillError::Overflow,
            ) && *final(self) == *old(self),
    {
        let total_units: u64 = match self.units.checked_add(units) {
            Some(sum) => sum,
            None => { return Err(KillError::Overflow); },
        };
        let total_reapers: u64 = match self.reapers.checked_add(reapers) {
            Some(sum) => sum,
            None => { return Err(KillError::Overflow); },
        };
        if self.units == 0 && self.reapers == 0 {
            self.agent = agent;
            self.stack_id = stack_id;
            self.spawn_slot = slot;
            self.kill_slot = 0;
            self.bump = bump;
        }
        self.units = total_units;
        self.reapers = total_reapers;
        Ok(())
    }
}

impl Default for AgentStack {
    /// A record that was never written: empty, all fields zero.
    fn default() -> (r: AgentStack)
        ensures
            forall|i: int| 0 <= i < 32 ==> r.agent.bytes[i] == 0,
            r.stack_id == 0,
            r.units == 0,
            r.reapers == 0,
            r.spawn_slot == 0,
            r.kill_slot == 0,
            r.bump == 0,
    {
        AgentStack {
            agent: Address::default(),
            stack_id: 0,
            units: 0,
            reapers: 0,
            spawn_slot: 0,
            kill_slot: 0,
            bump: 0,
        }
    }
}

/// Published when a spawn succeeds, with the stack's totals after it.
#[derive(Clone, Copy, Debug, PartialEq, Eq)]
pub struct StackSpawned {
    pub agent: Address,
    pub stack_id: u16,
    pub units: u64,
    pub reapers: u64,
    pub slot: u64,
}

/// Published when a move succeeds, with the counts that travelled.
#[derive(Clone, Copy, Debug, PartialEq, Eq)]
pub struct StackMoved {
    pub agent: Address,
    pub from_stack: u16,
    pub to_stack: u16,
    pub units: u64,
    pub reapers: u64,
    pub slot: u64,
}

/// Published when an attacker wins.
#[derive(Clone, Copy, Debug, PartialEq, Eq)]
pub struct KillEvent {
    pub attacker: Address,
    pub defender: Address,
    pub attacker_stack: u16,
    pub defender_stack: u16,
    /// Bounty earned on the defeated stack.
    pub bounty: u64,
    /// Part of the bounty that was burned.
    pub burned: u64,
    /// Units the attacker keeps.
    pub remaining_units: u64,
    /// Reapers the attacker keeps.
    pub remaining_reapers: u64,
    pub slot: u64,
}

/// In whose name the ledger moves tokens.
#[derive(Clone, Copy, Debug, PartialEq, Eq)]
pub enum TokenAuthority {
    /// The owner of the debited account, who has signed the operation.
    Owner(Address),
    /// The configuration record, which signs for the vault through its
    /// derived address; `bump` completes the seeds of that address.
    Config { bump: u8 },
}

/// One movement of tokens that the ledger is asked to carry out.
#[derive(Clone, Copy, Debug, PartialEq, Eq)]
pub enum TokenInstruction {
    /// Move `amount` from one token account to another.
    Transfer { from: Address, to: Address, authority: TokenAuthority, amount: u64 },
    /// Destroy `amount` of the token of `mint` held by the account `from`.
    Burn { mint: Address, from: Address, authority: TokenAuthority, amount: u64 },
}

impl GameConfig {
    /// The authority under which the vault is spent.
    pub open spec fn vault_authority(&self) -> TokenAuthority {
        TokenAuthority::Config { bump: self.bump }
    }

    /// The payment of `amount` by `player` out of the token account `source`
    /// into the vault.
    pub open spec fn spec_deposit(&self, player: Address, source: Address, amount: u64) -> TokenInstruction {
        TokenInstruction::Transfer {
            from: source,
            to: self.game_vault,
            authority: TokenAuthority::Owner(player),
            amount,
        }
    }

    /// The payment of `amount` out of the vault to the token account
    /// `destination`, in the record's name.
    pub open spec fn spec_release(&self, destination: Address, amount: u64) -> TokenInstruction {
        TokenInstruction::Transfer {
            from: self.game_vault,
            to: destination,
            authority: self.vault_authority(),
            amount,
        }
    }

    /// The destruction of `amount` out of the vault, in the record's name.
    pub open spec fn spec_burn(&self, amount: u64) -> TokenInstruction {
        TokenInstruction::Burn {
            mint: self.kill_mint,
            from: self.game_vault,
            authority: self.vault_authority(),
            amount,
        }
    }

    /// Builds the instruction by which `player` pays `amount` from `source`
    /// into the vault.
    #[verifier::when_used_as_spec(spec_deposit)]
    pub fn deposit(&self, player: Address, source: Address, amount: u64) -> (instruction:
        TokenInstruction)
        ensures
            instruction == self.spec_deposit(player, source, amount),
    {
        TokenInstruction::Transfer {
            from: source,
            to: self.game_vault,
            authority: TokenAuthority::Owner(player),
            amount,
        }
    }

    /// Builds the instruction that pays `amount` out of the vault to `destination`.
    #[verifier::when_used_as_spec(spec_release)]
    pub fn release(&self, destination: Address, amount: u64) -> (instruction:
        TokenInstruction)
        ensures
            instruction == self.spec_release(destination, amount),
    {
        TokenInstruction::Transfer {
            from: self.game_vault,
            to: destination,
            authority: TokenAuthority::Config { bump: self.bump },
            amount,
        }
    }

    /// Builds the instruction that destroys `amount` out of the vault.
    #[verifier::when_used_as_spec(spec_burn)]
    pub fn burn(&self, amount: u64) -> (instruction: TokenInstruction)
        ensures
            instruction == self.spec_burn(amount),
    {
        TokenInstruction::Burn {
            mint: self.kill_mint,
            from: self.game_vault,
            authority: TokenAuthority::Config { bump: self.bump },
            amount,
        }
    }
}

impl TokenInstruction {
    /// Tokens the instruction moves or destroys.
    pub open spec fn amount(self) -> u64 {
        match self {
            TokenInstruction::Transfer { amount, .. } => amount,
            TokenInstruction::Burn { amount, .. } => amount,
        }
    }
}

} // verus!
