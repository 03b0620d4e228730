use kill_game::constants::{MAX_MULTIPLIER, SLOTS_PER_MULTIPLIER, THERMAL_PARITY};
use kill_game::instructions::get_pending_bounty;
use kill_game::state::{Address, AgentStack};

fn stack(units: u64, reapers: u64, spawn_slot: u64) -> AgentStack {
    AgentStack {
        agent: Address { bytes: [7u8; 32] },
        stack_id: 3,
        units,
        reapers,
        spawn_slot,
        kill_slot: 0,
        bump: 254,
    }
}

#[test]
fn bounty_constants() {
    assert_eq!(MAX_MULTIPLIER, 20);
    assert_eq!(SLOTS_PER_MULTIPLIER, 32_400);
}

#[test]
fn no_units_no_bounty() {
    assert_eq!(get_pending_bounty(&stack(0, 0, 0), 0), 0);
    assert_eq!(get_pending_bounty(&stack(0, 1_000, 0), 10_000_000), 0);
    assert_eq!(get_pending_bounty(&stack(0, u64::MAX, 5), u64::MAX), 0);
}

#[test]
fn fresh_stack_has_multiplier_one() {
    assert_eq!(get_pending_bounty(&stack(1, 0, 100), 100), 666);
    assert_eq!(get_pending_bounty(&stack(5, 9, 100), 100), 3_330);
}

#[test]
fn anchor_ahead_of_the_clock_counts_as_age_zero() {
    assert_eq!(get_pending_bounty(&stack(5, 0, 1_000), 10), 3_330);
    assert_eq!(get_pending_bounty(&stack(5, 0, u64::MAX), 0), 3_330);
}

#[test]
fn one_step_still_has_multiplier_one() {
    assert_eq!(get_pending_bounty(&stack(5, 0, 100), 100 + 32_399), 3_330);
    assert_eq!(get_pending_bounty(&stack(5, 0, 100), 100 + 32_400), 3_330);
    assert_eq!(get_pending_bounty(&stack(5, 0, 100), 100 + 64_799), 3_330);
}

#[test]
fn two_steps_double_the_bounty() {
    assert_eq!(get_pending_bounty(&stack(5, 0, 100), 100 + 64_800), 6_660);
    assert_eq!(get_pending_bounty(&stack(5, 0, 100), 100 + 97_199), 6_660);
    assert_eq!(get_pending_bounty(&stack(5, 0, 100), 100 + 97_200), 9_990);
}

#[test]
fn multiplier_counts_completed_steps() {
    for k in 1..=20u64 {
        let s = stack(1, 0, 0);
        assert_eq!(get_pending_bounty(&s, k * SLOTS_PER_MULTIPLIER), 666 * k);
        assert_eq!(get_pending_bounty(&s, (k + 1) * SLOTS_PER_MULTIPLIER - 1), 666 * k);
    }
}

#[test]
fn multiplier_is_capped() {
    let s = stack(5, 0, 0);
    assert_eq!(get_pending_bounty(&s, 20 * 32_400 - 1), 5 * 666 * 19);
    assert_eq!(get_pending_bounty(&s, 20 * 32_400), 5 * 666 * 20);
    assert_eq!(get_pending_bounty(&s, 21 * 32_400), 5 * 666 * 20);
    assert_eq!(get_pending_bounty(&s, u64::MAX), 5 * 666 * 20);
}

#[test]
fn reapers_do_not_change_the_bounty() {
    assert_eq!(
        get_pending_bounty(&stack(5, 0, 0), 64_800),
        get_pending_bounty(&stack(5, 1_000_000, 0), 64_800)
    );
}

#[test]
fn bounty_saturates() {
    assert_eq!(get_pending_bounty(&stack(u64::MAX, 0, 0), 0), u64::MAX);
    let just_fits = u64::MAX / THERMAL_PARITY;
    assert_eq!(get_pending_bounty(&stack(just_fits, 0, 0), 0), just_fits * 666);
    assert_eq!(get_pending_bounty(&stack(just_fits, 0, 0), 64_800), u64::MAX);
    assert_eq!(get_pending_bounty(&stack(just_fits + 1, 0, 0), 0), u64::MAX);
}
