//! The difficulty state and its time-based retarget.

use vstd::prelude::*;

verus! {

/// The target at genesis: `u128::MAX / 1_000_000`.
pub const GENESIS_TARGET: u128 = u128::MAX / 1_000_000;

/// Seconds after which a retarget is due: 210,000 blocks of ten minutes.
pub const HALVING_PERIOD: i64 = 210_000 * 600;

/// The consensus difficulty state.
pub struct Difficulty {
    /// The current target; a digest is accepted when its prefix is below it.
    pub value: u128,
    /// Unix time of the last retarget.
    pub last_update: i64,
    /// Seconds that must pass, strictly, before the next retarget.
    pub halving_period: i64,
    /// Number of accepted submissions since genesis.
    pub blocks_mined: u64,
}

impl Difficulty {
    /// The target lies strictly between zero and `u128::MAX`, and the period
    /// is not negative (so a retarget only moves `last_update` forward).
    pub open spec fn wf(&self) -> bool {
        0 < self.value < u128::MAX && self.halving_period >= 0
    }

    /// The current target.
    pub fn current_target(&self) -> (r: u128)
        ensures
            r == self.value,
    {
        self.value
    }
}

/// The state created at genesis, at time `now`.
pub open spec fn genesis_state(now: i64) -> Difficulty {
    Difficulty {
        value: GENESIS_TARGET,
        last_update: now,
        halving_period: HALVING_PERIOD,
        blocks_mined: 0,
    }
}

/// The target after one halving; it never drops below 1.
pub open spec fn halved(t: u128) -> u128 {
    if t / 2 == 0 {
        1
    } else {
        t / 2
    }
}

/// A retarget is due when strictly more than the period has passed.
pub open spec fn retarget_due(d: Difficulty, now: i64) -> bool {
    now - d.last_update > d.halving_period
}

/// The state after a retarget evaluated at `now`.
pub open spec fn retargeted(d: Difficulty, now: i64) -> Difficulty {
    if retarget_due(d, now) {
        Difficulty { value: halved(d.value), last_update: now, ..d }
    } else {
        d
    }
}

/// The state after one accepted submission at `now`: a retarget, and one more
/// in the work counter.
pub open spec fn after_work(d: Difficulty, now: i64) -> Difficulty {
    Difficulty { blocks_mined: (d.blocks_mined + 1) as u64, ..retargeted(d, now) }
}

/// Sets up the genesis state at time `now`.
pub fn initialize_difficulty(difficulty: &mut Difficulty, now: i64)
    ensures
        *final(difficulty) == genesis_state(now),
        final(difficulty).wf(),
{
    difficulty.value = GENESIS_TARGET;
    difficulty.last_update = now;
    difficulty.halving_period = HALVING_PERIOD;
    difficulty.blocks_mined = 0;
}

/// Halves the target, with a floor of 1, when more than the period has
/// passed since the last retarget; otherwise leaves the state as it is.
pub fn retarget(difficulty: &mut Difficulty, now: i64)
    ensures
        *final(difficulty) == retargeted(*old(difficulty), now),
        old(difficulty).wf() ==> final(difficulty).wf(),
        old(difficulty).wf() ==> final(difficulty).last_update >= old(difficulty).last_update,
{
    if (now as i128) - (difficulty.last_update as i128) > difficulty.halving_period as i128 {
        let half = difficulty.value / 2;
        difficulty.value = if half == 0 {
            1
        } else {
            half
        };
        difficulty.last_update = now;
    }
}

/// Records one accepted submission at `now`: counts it, then retargets.
pub fn update_difficulty(difficulty: &mut Difficulty, now: i64)
    requires
        old(difficulty).blocks_mined < u64::MAX,
    ensures
        *final(difficulty) == after_work(*old(difficulty), now),
        old(difficulty).wf() ==> final(difficulty).wf(),
{
    difficulty.blocks_mined = difficulty.blocks_mined + 1;
    retarget(difficulty, now);
}

/// A retarget that fires halves the target by integer division, and a
/// target of 1 stays 1 under every retarget.
pub proof fn halving_correctness(d: Difficulty, now: i64)
    ensures
        retarget_due(d, now) && d.value >= 2 ==> retargeted(d, now).value == d.value / 2,
        retarget_due(d, now) ==> retargeted(d, now).last_update == now,
        d.value == 1 ==> retargeted(d, now).value == 1,
        !retarget_due(d, now) ==> retargeted(d, now) == d,
{
}

/// From genesis at `t0`, work accepted at `t0` counts one block and keeps the
/// target; further work at a time more than one period after `t0` halves it.
pub proof fn genesis_then_two_blocks(t0: i64, t1: i64)
    requires
        t1 - t0 > HALVING_PERIOD,
    ensures
        after_work(genesis_state(t0), t0).blocks_mined == 1,
        after_work(genesis_state(t0), t0).value == GENESIS_TARGET,
        after_work(after_work(genesis_state(t0), t0), t1).blocks_mined == 2,
        after_work(after_work(genesis_state(t0), t0), t1).value == GENESIS_TARGET / 2,
{
}

} // verus!
