use kill_game::constants::SPAWN_COST;
use kill_game::errors::KillError;
use kill_game::instructions::spawn::{handler, Spawn, SpawnReceipt};
use kill_game::state::{
    Address, AgentStack, GameConfig, StackSpawned, TokenAuthority, TokenInstruction,
};

fn player(tag: u8) -> Address {
    Address { bytes: [tag; 32] }
}

fn config(paused: bool) -> GameConfig {
    GameConfig {
        kill_mint: player(200),
        game_vault: player(201),
        admin: player(202),
        total_kills: 12,
        paused,
        bump: 255,
    }
}

fn fresh(agent: Address) -> Spawn {
    Spawn {
        game_config: config(false),
        agent_stack: AgentStack::default(),
        agent,
        agent_token_account: player(101),
        agent_stack_bump: 250,
    }
}

fn payment(agent: Address) -> TokenInstruction {
    TokenInstruction::Transfer {
        from: player(101),
        to: player(201),
        authority: TokenAuthority::Owner(agent),
        amount: 20_000_000,
    }
}

#[test]
fn spawn_cost_is_twenty_tokens() {
    assert_eq!(SPAWN_COST, 20_000_000);
}

#[test]
fn first_spawn_occupies_the_cell() {
    let mut ctx = fresh(player(1));
    let receipt = handler(&mut ctx, 42, 10, 2, 5_000);
    assert_eq!(
        receipt,
        Ok(SpawnReceipt {
            payment: payment(player(1)),
            event: StackSpawned { agent: player(1), stack_id: 42, units: 10, reapers: 2, slot: 5_000 },
        })
    );
    assert_eq!(
        ctx.agent_stack,
        AgentStack {
            agent: player(1),
            stack_id: 42,
            units: 10,
            reapers: 2,
            spawn_slot: 5_000,
            kill_slot: 0,
            bump: 250,
        }
    );
    assert_eq!(ctx.game_config, config(false));
    assert_eq!(ctx.agent, player(1));
    assert_eq!(ctx.agent_token_account, player(101));
    assert_eq!(ctx.agent_stack_bump, 250);
}

#[test]
fn spawn_is_paid_by_the_player_into_the_vault() {
    let mut ctx = fresh(player(9));
    ctx.agent_token_account = player(77);
    ctx.game_config.game_vault = player(88);
    let receipt = handler(&mut ctx, 0, 1, 0, 1).unwrap();
    assert_eq!(
        receipt.payment,
        TokenInstruction::Transfer {
            from: player(77),
            to: player(88),
            authority: TokenAuthority::Owner(player(9)),
            amount: SPAWN_COST,
        }
    );
}

#[test]
fn second_spawn_adds_and_keeps_the_anchor() {
    let mut ctx = fresh(player(1));
    handler(&mut ctx, 42, 10, 2, 5_000).unwrap();
    ctx.agent_stack_bump = 3;
    let receipt = handler(&mut ctx, 42, 5, 1, 9_000).unwrap();
    assert_eq!(
        receipt.event,
        StackSpawned { agent: player(1), stack_id: 42, units: 15, reapers: 3, slot: 9_000 }
    );
    assert_eq!(receipt.payment, payment(player(1)));
    assert_eq!(SPAWN_COST, 20_000_000);
    assert_eq!(
        ctx.agent_stack,
        AgentStack {
            agent: player(1),
            stack_id: 42,
            units: 15,
            reapers: 3,
            spawn_slot: 5_000,
            kill_slot: 0,
            bump: 250,
        }
    );
}

#[test]
fn spawn_on_a_cleared_stack_is_a_fresh_occupation() {
    let mut ctx = fresh(player(1));
    ctx.agent_stack = AgentStack {
        agent: player(1),
        stack_id: 42,
        units: 0,
        reapers: 0,
        spawn_slot: 100,
        kill_slot: 700,
        bump: 250,
    };
    handler(&mut ctx, 42, 0, 1, 9_000).unwrap();
    assert_eq!(ctx.agent_stack.spawn_slot, 9_000);
    assert_eq!(ctx.agent_stack.kill_slot, 0);
    assert_eq!(ctx.agent_stack.units, 0);
    assert_eq!(ctx.agent_stack.reapers, 1);
}

#[test]
fn spawn_keeps_the_last_victory_of_an_occupied_stack() {
    let mut ctx = fresh(player(1));
    ctx.agent_stack = AgentStack {
        agent: player(1),
        stack_id: 42,
        units: 0,
        reapers: 6,
        spawn_slot: 100,
        kill_slot: 700,
        bump: 250,
    };
    handler(&mut ctx, 42, 4, 0, 9_000).unwrap();
    assert_eq!(ctx.agent_stack.spawn_slot, 100);
    assert_eq!(ctx.agent_stack.kill_slot, 700);
    assert_eq!(ctx.agent_stack.units, 4);
    assert_eq!(ctx.agent_stack.reapers, 6);
}

#[test]
fn spawn_accepts_the_last_cell() {
    let mut ctx = fresh(player(1));
    assert!(handler(&mut ctx, 215, 1, 0, 1).is_ok());
    assert_eq!(ctx.agent_stack.stack_id, 215);
}

#[test]
fn spawn_rejects_a_cell_beyond_the_grid() {
    let mut ctx = fresh(player(1));
    let before = ctx;
    assert_eq!(handler(&mut ctx, 216, 1, 0, 1), Err(KillError::InvalidStackId));
    assert_eq!(handler(&mut ctx, u16::MAX, 1, 0, 1), Err(KillError::InvalidStackId));
    assert_eq!(ctx, before);
}

#[test]
fn spawn_rejects_nothing() {
    let mut ctx = fresh(player(1));
    let before = ctx;
    assert_eq!(handler(&mut ctx, 5, 0, 0, 1), Err(KillError::EmptyAttacker));
    assert_eq!(ctx, before);
}

#[test]
fn spawn_rejects_overflow_of_units() {
    let mut ctx = fresh(player(1));
    ctx.agent_stack.units = u64::MAX;
    let before = ctx;
    assert_eq!(handler(&mut ctx, 5, 1, 0, 1), Err(KillError::Overflow));
    assert_eq!(ctx, before);
}

#[test]
fn spawn_rejects_overflow_of_reapers_without_touching_units() {
    let mut ctx = fresh(player(1));
    ctx.agent_stack.units = 1;
    ctx.agent_stack.reapers = u64::MAX - 1;
    let before = ctx;
    assert_eq!(handler(&mut ctx, 5, 7, 2, 1), Err(KillError::Overflow));
    assert_eq!(ctx, before);
    assert!(handler(&mut ctx, 5, 7, 1, 1).is_ok());
    assert_eq!(ctx.agent_stack.units, 8);
    assert_eq!(ctx.agent_stack.reapers, u64::MAX);
}

#[test]
fn paused_game_rejects_spawn() {
    let mut ctx = fresh(player(1));
    ctx.game_config.paused = true;
    let before = ctx;
    assert_eq!(handler(&mut ctx, 5, 1, 1, 1), Err(KillError::GamePaused));
    assert_eq!(ctx, before);
}

#[test]
fn pause_comes_before_every_other_refusal_of_a_spawn() {
    let mut ctx = fresh(player(1));
    ctx.game_config.paused = true;
    ctx.agent_stack.units = u64::MAX;
    assert_eq!(handler(&mut ctx, 999, 0, 0, 1), Err(KillError::GamePaused));
    assert_eq!(handler(&mut ctx, 5, 1, 0, 1), Err(KillError::GamePaused));
}

#[test]
fn invalid_cell_comes_before_an_empty_spawn() {
    let mut ctx = fresh(player(1));
    assert_eq!(handler(&mut ctx, 216, 0, 0, 1), Err(KillError::InvalidStackId));
}
