//! Opposed-roll contests between two threads.
//!
//! Each side rolls a d20 and adds its chosen attribute, a luck modifier of one
//! point per five points of luck, and a state modifier. The initiator wins
//! only on a strictly greater total: ties go to the defender.

use crate::weaver::properties::{Stat, ThreadProperties};
use rand::rngs::StdRng;
use vstd::prelude::*;

verus! {

/// Declares rand's `StdRng`, the seedable generator that callers hand in, so
/// that contests can be replayed from a seed.
#[verifier::external_type_specification]
#[verifier::external_body]
pub struct ExStdRng(StdRng);

/// Outcome of a contest, seen from the initiator.
#[derive(Debug, Clone, Copy, PartialEq, Eq, Structural)]
pub enum ContestResult {
    Success,
    Failure,
}

/// Number of faces of the die that each side rolls.
pub const DIE_FACES: i32 = 20;

/// Luck points that make one point of modifier.
pub const LUCK_STEP: u8 = 5;

pub open spec fn is_die_roll(roll: int) -> bool {
    1 <= roll <= DIE_FACES
}

pub open spec fn luck_modifier(p: ThreadProperties) -> int {
    p.luck as int / LUCK_STEP as int
}

/// A side's total: its roll, its chosen attribute, its luck modifier and its
/// state modifier.
pub open spec fn contest_total(p: ThreadProperties, stat: Stat, state_mod: int, roll: int) -> int {
    roll + p.stat(stat) as int + luck_modifier(p) + state_mod
}

pub open spec fn contest_outcome(
    initiator: ThreadProperties,
    initiator_stat: Stat,
    initiator_mod: int,
    initiator_roll: int,
    defender: ThreadProperties,
    defender_stat: Stat,
    defender_mod: int,
    defender_roll: int,
) -> ContestResult {
    if contest_total(initiator, initiator_stat, initiator_mod, initiator_roll) > contest_total(
        defender,
        defender_stat,
        defender_mod,
        defender_roll,
    ) {
        ContestResult::Success
    } else {
        ContestResult::Failure
    }
}

/// Relies on rand's `Rng::gen_range` for `StdRng`: a draw from `low..=high`
/// lies within both bounds (it panics only on an empty range).
#[verifier::external_body]
fn draw_between(rng: &mut StdRng, low: i32, high: i32) -> (r: i32)
    requires
        low <= high,
    ensures
        low <= r <= high,
{
    rand::Rng::gen_range(rng, low..=high)
}

/// Modifiers that the temporal states of both sides add to their totals.
/// No state has an effect on contests yet, so both are zero.
pub fn calculate_state_modifiers<S>(_initiator_states: &S, _defender_states: &S) -> (r: (i32, i32))
    ensures
        r.0 == 0,
        r.1 == 0,
{
    (0, 0)
}

/// Decides a contest once both rolls and both state modifiers are known.
pub fn resolve_rolls(
    initiator: &ThreadProperties,
    initiator_stat: Stat,
    initiator_mod: i32,
    initiator_roll: i32,
    defender: &ThreadProperties,
    defender_stat: Stat,
    defender_mod: i32,
    defender_roll: i32,
) -> (r: ContestResult)
    ensures
        r == contest_outcome(
            *initiator,
            initiator_stat,
            initiator_mod as int,
            initiator_roll as int,
            *defender,
            defender_stat,
            defender_mod as int,
            defender_roll as int,
        ),
{
    let initiator_total: i64 = initiator_roll as i64 + initiator.get_stat(initiator_stat) as i64
        + (initiator.luck / LUCK_STEP) as i64 + initiator_mod as i64;
    let defender_total: i64 = defender_roll as i64 + defender.get_stat(defender_stat) as i64
        + (defender.luck / LUCK_STEP) as i64 + defender_mod as i64;
    if initiator_total > defender_total {
        ContestResult::Success
    } else {
        ContestResult::Failure
    }
}

/// Resolves a contest: both sides roll a d20 from `rng`, and the result is
/// the outcome for some pair of rolls with zero state modifiers.
pub fn resolve_contest<S>(
    initiator_props: &ThreadProperties,
    initiator_states: &S,
    initiator_stat: Stat,
    defender_props: &ThreadProperties,
    defender_states: &S,
    defender_stat: Stat,
    rng: &mut StdRng,
) -> (r: ContestResult)
    ensures
        exists|a: int, b: int|
            is_die_roll(a) && is_die_roll(b) && r == contest_outcome(
                *initiator_props,
                initiator_stat,
                0,
                a,
                *defender_props,
                defender_stat,
                0,
                b,
            ),
{
    let initiator_roll = draw_between(rng, 1, DIE_FACES);
    let defender_roll = draw_between(rng, 1, DIE_FACES);
    let (initiator_mod, defender_mod) = calculate_state_modifiers(initiator_states, defender_states);
    let r = resolve_rolls(
        initiator_props,
        initiator_stat,
        initiator_mod,
        initiator_roll,
        defender_props,
        defender_stat,
        defender_mod,
        defender_roll,
    );
    assert(is_die_roll(initiator_roll as int) && is_die_roll(defender_roll as int));
    r
}

/// Number of defender rolls in `1..=defender_max` that lose to an initiator
/// who rolled `initiator_roll`, with no state modifiers.
pub open spec fn wins_for_roll(
    initiator: ThreadProperties,
    initiator_stat: Stat,
    defender: ThreadProperties,
    defender_stat: Stat,
    initiator_roll: int,
    defender_max: int,
) -> nat
    decreases defender_max,
{
    if defender_max <= 0 {
        0
    } else {
        wins_for_roll(
            initiator,
            initiator_stat,
            defender,
            defender_stat,
            initiator_roll,
            defender_max - 1,
        ) + if contest_outcome(
            initiator,
            initiator_stat,
            0,
            initiator_roll,
            defender,
            defender_stat,
            0,
            defender_max,
        ) == ContestResult::Success {
            1nat
        } else {
            0nat
        }
    }
}

/// Number of roll pairs, with the initiator's roll in `1..=initiator_max` and
/// the defender's in `1..=DIE_FACES`, that the initiator wins.
pub open spec fn winning_pairs(
    initiator: ThreadProperties,
    initiator_stat: Stat,
    defender: ThreadProperties,
    defender_stat: Stat,
    initiator_max: int,
) -> nat
    decreases initiator_max,
{
    if initiator_max <= 0 {
        0
    } else {
        winning_pairs(initiator, initiator_stat, defender, defender_stat, initiator_max - 1)
            + wins_for_roll(
            initiator,
            initiator_stat,
            defender,
            defender_stat,
            initiator_max,
            DIE_FACES as int,
        )
    }
}

/// A side's total without its roll.
pub open spec fn contest_base(p: ThreadProperties, stat: Stat) -> int {
    p.stat(stat) as int + luck_modifier(p)
}

spec fn capped(k: int, m: int) -> int {
    if k < 0 {
        0
    } else if k > m {
        m
    } else {
        k
    }
}

spec fn capped_sum(n: int, shift: int) -> int
    decreases n,
{
    if n <= 0 {
        0
    } else {
        capped_sum(n - 1, shift) + capped(n + shift, DIE_FACES as int)
    }
}

proof fn lemma_wins_for_roll(
    initiator: ThreadProperties,
    initiator_stat: Stat,
    defender: ThreadProperties,
    defender_stat: Stat,
    initiator_roll: int,
    defender_max: int,
)
    requires
        defender_max >= 0,
    ensures
        wins_for_roll(
            initiator,
            initiator_stat,
            defender,
            defender_stat,
            initiator_roll,
            defender_max,
        ) == capped(
            initiator_roll + contest_base(initiator, initiator_stat) - contest_base(
                defender,
                defender_stat,
            ) - 1,
            defender_max,
        ),
    decreases defender_max,
{
    if defender_max > 0 {
        lemma_wins_for_roll(
            initiator,
            initiator_stat,
            defender,
            defender_stat,
            initiator_roll,
            defender_max - 1,
        );
    }
}

proof fn lemma_winning_pairs(
    initiator: ThreadProperties,
    initiator_stat: Stat,
    defender: ThreadProperties,
    defender_stat: Stat,
    initiator_max: int,
)
    ensures
        winning_pairs(initiator, initiator_stat, defender, defender_stat, initiator_max)
            == capped_sum(
            initiator_max,
            contest_base(initiator, initiator_stat) - contest_base(defender, defender_stat) - 1,
        ),
    decreases initiator_max,
{
    if initiator_max > 0 {
        lemma_winning_pairs(initiator, initiator_stat, defender, defender_stat, initiator_max - 1);
        lemma_wins_for_roll(
            initiator,
            initiator_stat,
            defender,
            defender_stat,
            initiator_max,
            DIE_FACES as int,
        );
    }
}

proof fn lemma_capped_sum_monotone(n: int, low: int, high: int)
    requires
        low <= high,
    ensures
        capped_sum(n, low) <= capped_sum(n, high),
    decreases n,
{
    if n > 0 {
        lemma_capped_sum_monotone(n - 1, low, high);
    }
}

/// Fairness under symmetry: when both sides have the same profile, choose
/// the same attribute and carry no state modifier, the initiator wins 190 of
/// the 400 equally likely roll pairs, a success rate of 47.5%, which lies
/// strictly between 40% and 60%.
pub proof fn lemma_symmetric_contest_is_fair(p: ThreadProperties, stat: Stat)
    ensures
        winning_pairs(p, stat, p, stat, DIE_FACES as int) == 190,
        40 * DIE_FACES * DIE_FACES < 100 * winning_pairs(p, stat, p, stat, DIE_FACES as int)
            < 60 * DIE_FACES * DIE_FACES,
{
    lemma_winning_pairs(p, stat, p, stat, DIE_FACES as int);
    reveal_with_fuel(capped_sum, 21);
    assert(capped_sum(20, -1) == 190);
}

/// Monotonic advantage: when the initiator's chosen attribute exceeds the
/// defender's by at least 10 points, the initiator wins more than 60% of the
/// 400 equally likely roll pairs. Luck can take part of the advantage back,
/// so the totals without the rolls must still differ by at least 3 in the
/// initiator's favour.
pub proof fn lemma_attribute_advantage_wins_more(
    initiator: ThreadProperties,
    initiator_stat: Stat,
    defender: ThreadProperties,
    defender_stat: Stat,
)
    requires
        initiator.stat(initiator_stat) >= defender.stat(defender_stat) + 10,
        contest_base(initiator, initiator_stat) >= contest_base(defender, defender_stat) + 3,
    ensures
        100 * winning_pairs(initiator, initiator_stat, defender, defender_stat, DIE_FACES as int)
            > 60 * DIE_FACES * DIE_FACES,
{
    lemma_winning_pairs(initiator, initiator_stat, defender, defender_stat, DIE_FACES as int);
    lemma_capped_sum_monotone(
        DIE_FACES as int,
        2,
        contest_base(initiator, initiator_stat) - contest_base(defender, defender_stat) - 1,
    );
    reveal_with_fuel(capped_sum, 21);
    assert(capped_sum(20, 2) == 247);
}

/// The bound above is tight: with totals (without the rolls) that differ by
/// at most 2 in the initiator's favour, the initiator wins at most 229 of the
/// 400 roll pairs, which is not more than 60%, whatever the attributes.
pub proof fn lemma_small_advantage_is_not_enough(
    initiator: ThreadProperties,
    initiator_stat: Stat,
    defender: ThreadProperties,
    defender_stat: Stat,
)
    requires
        contest_base(initiator, initiator_stat) <= contest_base(defender, defender_stat) + 2,
    ensures
        winning_pairs(initiator, initiator_stat, defender, defender_stat, DIE_FACES as int) <= 229,
        100 * winning_pairs(initiator, initiator_stat, defender, defender_stat, DIE_FACES as int)
            <= 60 * DIE_FACES * DIE_FACES,
{
    lemma_winning_pairs(initiator, initiator_stat, defender, defender_stat, DIE_FACES as int);
    lemma_capped_sum_monotone(
        DIE_FACES as int,
        contest_base(initiator, initiator_stat) - contest_base(defender, defender_stat) - 1,
        1,
    );
    reveal_with_fuel(capped_sum, 21);
    assert(capped_sum(20, 1) == 229);
}

} // verus!
