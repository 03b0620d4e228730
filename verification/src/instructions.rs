//! The operations of the game, and the pure rules they share: adjacency on the
//! grid, combat resolution and bounty accrual.

use vstd::prelude::*;

pub mod admin;
pub mod initialize;
pub mod kill;
pub mod move_units;
pub mod spawn;

use crate::arith::{saturate, saturating_mul};
use crate::constants::{
    DEFENDER_WEIGHT, GRID_SIZE, MAX_MULTIPLIER, MAX_STACK_ID, SLOTS_PER_MULTIPLIER,
    THERMAL_PARITY,
};
use crate::state::AgentStack;

verus! {

/// First coordinate of a cell.
pub open spec fn cell_x(id: u16) -> int {
    id as int % GRID_SIZE as int
}

/// Second coordinate of a cell.
pub open spec fn cell_y(id: u16) -> int {
    (id as int / GRID_SIZE as int) % GRID_SIZE as int
}

/// Third coordinate of a cell.
pub open spec fn cell_z(id: u16) -> int {
    id as int / (GRID_SIZE as int * GRID_SIZE as int)
}

/// Distance between two integers.
pub open spec fn gap(p: int, q: int) -> int {
    if p >= q {
        p - q
    } else {
        q - p
    }
}

/// Manhattan distance between two cells of the grid.
pub open spec fn manhattan(a: u16, b: u16) -> int {
    gap(cell_x(a), cell_x(b)) + gap(cell_y(a), cell_y(b)) + gap(cell_z(a), cell_z(b))
}

/// Two cells are adjacent when both lie on the grid and are exactly one step
/// apart along one axis.
pub open spec fn adjacent(a: u16, b: u16) -> bool {
    a <= MAX_STACK_ID && b <= MAX_STACK_ID && manhattan(a, b) == 1
}

/// Whether two cell identifiers name neighbouring cells of the grid.
///
/// Total on `u16`: an identifier beyond the grid is adjacent to nothing.
pub fn is_adjacent(a: u16, b: u16) -> (r: bool)
    ensures
        r == adjacent(a, b),
{
    if a == b || a > MAX_STACK_ID || b > MAX_STACK_ID {
        return false;
    }
    let ax: u16 = a % GRID_SIZE;
    let ay: u16 = (a / GRID_SIZE) % GRID_SIZE;
    let az: u16 = a / (GRID_SIZE * GRID_SIZE);
    let bx: u16 = b % GRID_SIZE;
    let by: u16 = (b / GRID_SIZE) % GRID_SIZE;
    let bz: u16 = b / (GRID_SIZE * GRID_SIZE);
    let dx: u16 = if ax >= bx { ax - bx } else { bx - ax };
    let dy: u16 = if ay >= by { ay - by } else { by - ay };
    let dz: u16 = if az >= bz { az - bz } else { bz - az };
    dx + dy + dz == 1
}

/// Adjacency does not depend on the order of the two cells.
pub proof fn lemma_adjacent_symmetric(a: u16, b: u16)
    ensures
        adjacent(a, b) == adjacent(b, a),
{
}

/// No cell is adjacent to itself.
pub proof fn lemma_adjacent_irreflexive(a: u16)
    ensures
        !adjacent(a, a),
{
}

/// A cell beyond the grid is adjacent to nothing.
pub proof fn lemma_adjacent_stays_on_grid(a: u16, b: u16)
    requires
        a > MAX_STACK_ID || b > MAX_STACK_ID,
    ensures
        !adjacent(a, b),
{
}

/// Adjacent cells differ in exactly one coordinate, and there by one.
pub proof fn lemma_adjacent_one_axis(a: u16, b: u16)
    requires
        adjacent(a, b),
    ensures
        (gap(cell_x(a), cell_x(b)) == 1 && cell_y(a) == cell_y(b) && cell_z(a) == cell_z(b))
            || (cell_x(a) == cell_x(b) && gap(cell_y(a), cell_y(b)) == 1 && cell_z(a) == cell_z(b))
            || (cell_x(a) == cell_x(b) && cell_y(a) == cell_y(b) && gap(cell_z(a), cell_z(b)) == 1),
{
}

/// Combat power of a stack: its units, and each reaper counted as
/// `THERMAL_PARITY` units. Saturates at the largest 64-bit value.
pub open spec fn power(units: u64, reapers: u64) -> u64 {
    saturate(units + saturate(reapers * THERMAL_PARITY))
}

/// Power with which a stack defends: its power times `DEFENDER_WEIGHT`,
/// saturating. The attacker's power is taken as it is.
pub open spec fn defender_power(units: u64, reapers: u64) -> u64 {
    saturate(power(units, reapers) * DEFENDER_WEIGHT)
}

/// The attacker wins when its power exceeds the defender's; a tie is lost.
pub open spec fn attacker_wins(
    def_units: u64,
    atk_units: u64,
    def_reapers: u64,
    atk_reapers: u64,
) -> bool {
    power(atk_units, atk_reapers) > defender_power(def_units, def_reapers)
}

/// Share of a winning attacker that survives, in whole percent: the part of
/// its power that exceeds the defender's, rounded down.
pub open spec fn surviving_percent(
    def_units: u64,
    atk_units: u64,
    def_reapers: u64,
    atk_reapers: u64,
) -> u64 {
    let attack = power(atk_units, atk_reapers);
    let defence = defender_power(def_units, def_reapers);
    saturate((attack - defence) * 100) / attack
}

/// What is left of `count` when `percent` of it survives, rounded down.
pub open spec fn survivors(count: u64, percent: u64) -> u64 {
    saturate(count * percent) / 100
}

/// Outcome of an attack: whether the attacker won, and the units and reapers
/// it keeps. A losing attacker keeps nothing.
pub open spec fn combat(def_units: u64, atk_units: u64, def_reapers: u64, atk_reapers: u64) -> (
    bool,
    u64,
    u64,
) {
    if attacker_wins(def_units, atk_units, def_reapers, atk_reapers) {
        let percent = surviving_percent(def_units, atk_units, def_reapers, atk_reapers);
        (true, survivors(atk_units, percent), survivors(atk_reapers, percent))
    } else {
        (false, 0, 0)
    }
}

/// Resolves an attack by the square-law model.
///
/// Returns whether the attacker won and the units and reapers it keeps. Every
/// intermediate product and sum saturates; nothing wraps.
pub fn resolve_combat(def_units: u64, atk_units: u64, def_reapers: u64, atk_reapers: u64) -> (r: (
    bool,
    u64,
    u64,
))
    ensures
        r == combat(def_units, atk_units, def_reapers, atk_reapers),
{
    let def_pow: u64 = saturating_mul(
        def_units.saturating_add(saturating_mul(def_reapers, THERMAL_PARITY)),
        DEFENDER_WEIGHT,
    );
    let atk_pow: u64 = atk_units.saturating_add(saturating_mul(atk_reapers, THERMAL_PARITY));

    if atk_pow > def_pow {
        let surplus: u64 = atk_pow.saturating_sub(def_pow);
        let remain_pct: u64 = saturating_mul(surplus, 100) / atk_pow;
        let rem_units: u64 = saturating_mul(atk_units, remain_pct) / 100;
        let rem_reapers: u64 = saturating_mul(atk_reapers, remain_pct) / 100;
        (true, rem_units, rem_reapers)
    } else {
        (false, 0, 0)
    }
}

/// An attacker whose power exceeds the defender's wins; with equal or lower
/// power it loses and keeps nothing.
pub proof fn lemma_stronger_attacker_wins(
    def_units: u64,
    atk_units: u64,
    def_reapers: u64,
    atk_reapers: u64,
)
    ensures
        power(atk_units, atk_reapers) > defender_power(def_units, def_reapers) ==> combat(
            def_units,
            atk_units,
            def_reapers,
            atk_reapers,
        ).0,
        power(atk_units, atk_reapers) <= defender_power(def_units, def_reapers) ==> combat(
            def_units,
            atk_units,
            def_reapers,
            atk_reapers,
        ) == (false, 0u64, 0u64),
{
}

/// The surviving share of a winning attacker lies between 0 and 100 percent.
pub proof fn lemma_surviving_percent_bounds(
    def_units: u64,
    atk_units: u64,
    def_reapers: u64,
    atk_reapers: u64,
)
    requires
        attacker_wins(def_units, atk_units, def_reapers, atk_reapers),
    ensures
        surviving_percent(def_units, atk_units, def_reapers, atk_reapers) <= 100,
{
    let attack = power(atk_units, atk_reapers);
    let defence = defender_power(def_units, def_reapers);
    let surplus = saturate((attack - defence) * 100);
    assert(surplus <= attack * 100);
    assert(surplus / attack <= 100) by (nonlinear_arith)
        requires
            0 < attack,
            surplus <= attack * 100,
    ;
}

/// Combat creates no units: the attacker never keeps more than it brought.
pub proof fn lemma_survivors_bounded(
    def_units: u64,
    atk_units: u64,
    def_reapers: u64,
    atk_reapers: u64,
)
    ensures
        combat(def_units, atk_units, def_reapers, atk_reapers).1 <= atk_units,
        combat(def_units, atk_units, def_reapers, atk_reapers).2 <= atk_reapers,
{
    if attacker_wins(def_units, atk_units, def_reapers, atk_reapers) {
        lemma_surviving_percent_bounds(def_units, atk_units, def_reapers, atk_reapers);
        let percent = surviving_percent(def_units, atk_units, def_reapers, atk_reapers);
        lemma_survivors_at_most(atk_units, percent);
        lemma_survivors_at_most(atk_reapers, percent);
    }
}

/// At a share of at most 100 percent, what survives of a count is at most the count.
pub proof fn lemma_survivors_at_most(count: u64, percent: u64)
    requires
        percent <= 100,
    ensures
        survivors(count, percent) <= count,
{
    let scaled = saturate(count * percent);
    assert(count * percent <= count * 100) by (nonlinear_arith)
        requires
            percent <= 100,
    ;
    assert(scaled <= count * 100);
}

/// Slots a stack has aged: the distance from its anchor to now, zero where
/// the anchor lies ahead.
pub open spec fn age_slots(spawn_slot: u64, current_slot: u64) -> u64 {
    saturate(current_slot - spawn_slot)
}

/// Bounty multiplier at a given age: one per completed step, at least 1 and
/// at most `MAX_MULTIPLIER`.
pub open spec fn multiplier(age: u64) -> u64 {
    let steps = age / SLOTS_PER_MULTIPLIER;
    if steps < 1 {
        1
    } else if steps > MAX_MULTIPLIER {
        MAX_MULTIPLIER
    } else {
        steps
    }
}

/// Bounty a stack would yield if it were defeated at `current_slot`: its units
/// times `THERMAL_PARITY` times the multiplier of its age, saturating. Reapers
/// earn nothing.
pub open spec fn pending_bounty(stack: AgentStack, current_slot: u64) -> u64 {
    if stack.units == 0 {
        0
    } else {
        saturate(
            saturate(stack.units * THERMAL_PARITY) * multiplier(
                age_slots(stack.spawn_slot, current_slot),
            ),
        )
    }
}

/// Bounty owed for a stack at the given slot.
pub fn get_pending_bounty(stack: &AgentStack, current_slot: u64) -> (bounty: u64)
    ensures
        bounty == pending_bounty(*stack, current_slot),
{
    if stack.units == 0 {
        return 0;
    }
    let age: u64 = current_slot.saturating_sub(stack.spawn_slot);
    let steps: u64 = age / SLOTS_PER_MULTIPLIER;
    let mult: u64 = if steps < 1 {
        1
    } else if steps > MAX_MULTIPLIER {
        MAX_MULTIPLIER
    } else {
        steps
    };
    saturating_mul(saturating_mul(stack.units, THERMAL_PARITY), mult)
}

/// A stack without units earns no bounty, whatever its age and its reapers.
pub proof fn lemma_no_units_no_bounty(stack: AgentStack, current_slot: u64)
    requires
        stack.units == 0,
    ensures
        pending_bounty(stack, current_slot) == 0,
{
}

/// The multiplier never leaves the range from 1 to `MAX_MULTIPLIER`.
pub proof fn lemma_multiplier_bounds(age: u64)
    ensures
        1 <= multiplier(age) <= MAX_MULTIPLIER,
{
}

/// Between `k` and `k + 1` completed steps the multiplier is `k`, for `k`
/// from 1 to `MAX_MULTIPLIER`.
pub proof fn lemma_multiplier_counts_steps(age: u64, k: u64)
    requires
        1 <= k <= MAX_MULTIPLIER,
        k * SLOTS_PER_MULTIPLIER <= age < (k + 1) * SLOTS_PER_MULTIPLIER,
    ensures
        multiplier(age) == k,
{
    assert(age as int / 32_400 == k) by (nonlinear_arith)
        requires
            k * 32_400 <= age < (k + 1) * 32_400,
    ;
}

/// A stack younger than two steps has multiplier 1.
pub proof fn lemma_multiplier_floor(age: u64)
    requires
        age < 2 * SLOTS_PER_MULTIPLIER,
    ensures
        multiplier(age) == 1,
{
}

/// From `MAX_MULTIPLIER` completed steps on, the multiplier stays at `MAX_MULTIPLIER`.
pub proof fn lemma_multiplier_ceiling(age: u64)
    requires
        age >= MAX_MULTIPLIER * SLOTS_PER_MULTIPLIER,
    ensures
        multiplier(age) == MAX_MULTIPLIER,
{
}

/// Where nothing saturates the bounty is exactly the units times
/// `THERMAL_PARITY` times the multiplier.
pub proof fn lemma_bounty_exact(stack: AgentStack, current_slot: u64)
    requires
        stack.units * THERMAL_PARITY * multiplier(age_slots(stack.spawn_slot, current_slot))
            <= u64::MAX,
    ensures
        pending_bounty(stack, current_slot) == stack.units * THERMAL_PARITY * multiplier(
            age_slots(stack.spawn_slot, current_slot),
        ),
{
    let m = multiplier(age_slots(stack.spawn_slot, current_slot));
    let base = stack.units * THERMAL_PARITY;
    assert(base <= base * m && (base == 0 ==> base * m == 0)) by (nonlinear_arith)
        requires
            0 <= base,
            1 <= m,
    ;
}

/// The bounty never exceeds what the units earn at the highest multiplier.
pub proof fn lemma_bounty_bounded(stack: AgentStack, current_slot: u64)
    ensures
        pending_bounty(stack, current_slot) <= stack.units * THERMAL_PARITY * MAX_MULTIPLIER,
{
    let m = multiplier(age_slots(stack.spawn_slot, current_slot));
    let base = saturate(stack.units * THERMAL_PARITY);
    assert(base * m <= stack.units * THERMAL_PARITY * MAX_MULTIPLIER) by (nonlinear_arith)
        requires
            base <= stack.units * THERMAL_PARITY,
            1 <= m <= MAX_MULTIPLIER,
    ;
}

} // verus!
