use kill_game::arith::saturating_mul;
use kill_game::constants::{DEFENDER_WEIGHT, THERMAL_PARITY, TOKEN_DECIMALS};
use kill_game::instructions::resolve_combat;

#[test]
fn combat_constants() {
    assert_eq!(THERMAL_PARITY, 666);
    assert_eq!(DEFENDER_WEIGHT, 11);
    assert_eq!(TOKEN_DECIMALS, 6);
}

#[test]
fn saturating_mul_multiplies() {
    assert_eq!(saturating_mul(0, 0), 0);
    assert_eq!(saturating_mul(7, 6), 42);
    assert_eq!(saturating_mul(u64::MAX, 1), u64::MAX);
    assert_eq!(saturating_mul(1 << 32, (1 << 32) - 1), u64::MAX - (1 << 32) + 1);
}

#[test]
fn saturating_mul_clamps() {
    assert_eq!(saturating_mul(1 << 32, 1 << 32), u64::MAX);
    assert_eq!(saturating_mul(u64::MAX, 2), u64::MAX);
    assert_eq!(saturating_mul(u64::MAX, u64::MAX), u64::MAX);
}

#[test]
fn one_unit_beats_an_empty_defender() {
    assert_eq!(resolve_combat(0, 1, 0, 0), (true, 1, 0));
}

#[test]
fn nothing_does_not_beat_nothing() {
    assert_eq!(resolve_combat(0, 0, 0, 0), (false, 0, 0));
}

#[test]
fn tie_goes_to_the_defender() {
    // defender power 10 * 11 = 110
    assert_eq!(resolve_combat(10, 110, 0, 0), (false, 0, 0));
}

#[test]
fn one_more_than_a_tie_wins_with_nothing_left() {
    // surplus 1, share 100 / 111 = 0 percent
    assert_eq!(resolve_combat(10, 111, 0, 0), (true, 0, 0));
}

#[test]
fn equal_counts_lose_to_the_bonus() {
    assert_eq!(resolve_combat(100, 100, 0, 0), (false, 0, 0));
    assert_eq!(resolve_combat(0, 0, 5, 5), (false, 0, 0));
}

#[test]
fn half_the_attacker_survives() {
    // defender 110, attacker 220, surplus 110, share 50 percent
    assert_eq!(resolve_combat(10, 220, 0, 0), (true, 110, 0));
}

#[test]
fn survivors_are_truncated_independently() {
    // defender 11, attacker 7 + 2 * 666 = 1339, surplus 1328,
    // share 132800 / 1339 = 99 percent; 7 * 99 / 100 = 6, 2 * 99 / 100 = 1
    assert_eq!(resolve_combat(1, 7, 0, 2), (true, 6, 1));
}

#[test]
fn reapers_weigh_666_units() {
    // defender one reaper: 666 * 11 = 7326
    assert_eq!(resolve_combat(0, 7326, 1, 0), (false, 0, 0));
    assert_eq!(resolve_combat(0, 7327, 1, 0).0, true);
    // attacker eleven reapers: 7326, a tie
    assert_eq!(resolve_combat(0, 0, 1, 11), (false, 0, 0));
    // attacker twelve reapers: 7992, surplus 666, share 66600 / 7992 = 8 percent
    assert_eq!(resolve_combat(0, 0, 1, 12), (true, 0, 0));
    // attacker 100 reapers: 66600, surplus 59274, share 5927400 / 66600 = 89 percent
    assert_eq!(resolve_combat(0, 0, 1, 100), (true, 0, 89));
}

#[test]
fn defender_power_saturates() {
    // the defender's power clamps at the maximum, which nobody can exceed
    assert_eq!(resolve_combat(u64::MAX, u64::MAX, 0, 0), (false, 0, 0));
    assert_eq!(resolve_combat(u64::MAX / 11 + 1, u64::MAX, 0, 0), (false, 0, 0));
    assert_eq!(resolve_combat(0, u64::MAX, u64::MAX, u64::MAX), (false, 0, 0));
}

#[test]
fn attacker_power_saturates() {
    // attacker power clamps at the maximum; the surplus times 100 clamps too,
    // so the share is max / max = 1 percent
    let (won, units, reapers) = resolve_combat(0, u64::MAX, 0, u64::MAX);
    assert!(won);
    assert_eq!(units, u64::MAX / 100);
    assert_eq!(reapers, u64::MAX / 100);
}

#[test]
fn large_surplus_clamps_the_share() {
    // attacker 2^60, defender 0: surplus * 100 clamps, share = max / 2^60 = 15 percent
    let attacker = 1u64 << 60;
    assert_eq!(resolve_combat(0, attacker, 0, 0), (true, attacker * 15 / 100, 0));
    assert_eq!(resolve_combat(0, attacker, 0, 0), (true, 172_938_225_691_027_046, 0));
    // attacker 10^17: surplus * 100 = 10^19 fits, so the whole attacker survives
    let attacker = 100_000_000_000_000_000u64;
    assert_eq!(resolve_combat(0, attacker, 0, 0), (true, attacker, 0));
}

#[test]
fn survivors_never_exceed_the_attacker() {
    let samples = [0u64, 1, 2, 10, 110, 111, 666, 7326, 1 << 40, u64::MAX / 666, u64::MAX];
    for &def_units in samples.iter() {
        for &atk_units in samples.iter() {
            for &def_reapers in samples.iter() {
                for &atk_reapers in samples.iter() {
                    let (won, units, reapers) =
                        resolve_combat(def_units, atk_units, def_reapers, atk_reapers);
                    assert!(units <= atk_units);
                    assert!(reapers <= atk_reapers);
                    if !won {
                        assert_eq!((units, reapers), (0, 0));
                    }
                }
            }
        }
    }
}

#[test]
fn stronger_attacker_always_wins() {
    let samples = [0u64, 1, 2, 10, 110, 111, 666, 7326, 1 << 40];
    for &def_units in samples.iter() {
        for &atk_units in samples.iter() {
            for &def_reapers in samples.iter() {
                for &atk_reapers in samples.iter() {
                    let defence =
                        (def_units as u128 + def_reapers as u128 * 666) * 11;
                    let attack = atk_units as u128 + atk_reapers as u128 * 666;
                    let (won, _, _) =
                        resolve_combat(def_units, atk_units, def_reapers, atk_reapers);
                    assert_eq!(won, attack > defence);
                }
            }
        }
    }
}
