use vstd::prelude::*;

use crate::constants::{LP_LOCK_PERIOD, MAX_BATCH_SIZE, SECONDS_PER_DAY};
use crate::error::VeraluxErrorCode;
use crate::math::{delay_elapsed, div_i64, has_elapsed, trunc_div};
use crate::state::{ContractState, LPStaker, Treasury};

verus! {

/// Adds `amount` to a liquidity position; a position that was empty starts its
/// lock clock at `now`. On failure nothing changes.
pub fn stake_lp(state: &ContractState, lp_staker: &mut LPStaker, amount: u64, now: i64) -> (r:
    Result<(), VeraluxErrorCode>)
    ensures
        state.is_processing ==> r == Err::<(), VeraluxErrorCode>(
            VeraluxErrorCode::ReentrancyGuardTriggered,
        ),
        !state.is_processing && state.paused ==> r == Err::<(), VeraluxErrorCode>(
            VeraluxErrorCode::Paused,
        ),
        !state.is_processing && !state.paused && old(lp_staker).amount + amount > u64::MAX ==> r
            == Err::<(), VeraluxErrorCode>(VeraluxErrorCode::ArithmeticOverflow),
        r is Err ==> *final(lp_staker) == *old(lp_staker),
        !state.is_processing && !state.paused && old(lp_staker).amount + amount <= u64::MAX ==> r
            is Ok && *final(lp_staker) == (LPStaker {
            amount: (old(lp_staker).amount + amount) as u64,
            last_action_time: if old(lp_staker).amount == 0 {
                now
            } else {
                old(lp_staker).last_action_time
            },
            ..*old(lp_staker)
        }),
{
    if state.is_processing {
        return Err(VeraluxErrorCode::ReentrancyGuardTriggered);
    }
    if state.paused {
        return Err(VeraluxErrorCode::Paused);
    }
    let total = match lp_staker.amount.checked_add(amount) {
        Some(v) => v,
        None => return Err(VeraluxErrorCode::ArithmeticOverflow),
    };
    if lp_staker.amount == 0 {
        lp_staker.last_action_time = now;
    }
    lp_staker.amount = total;
    Ok(())
}

/// The first reason, in the order checked, for which withdrawing LP stake fails.
pub open spec fn unstake_lp_failure(s: &ContractState, lp: LPStaker, amount: int, now: int) -> Option<
    VeraluxErrorCode,
> {
    if s.is_processing {
        Some(VeraluxErrorCode::ReentrancyGuardTriggered)
    } else if s.paused {
        Some(VeraluxErrorCode::Paused)
    } else if lp.amount < amount {
        Some(VeraluxErrorCode::InsufficientStakedAmount)
    } else if !delay_elapsed(lp.last_action_time, now as i64, LP_LOCK_PERIOD) {
        Some(VeraluxErrorCode::LockPeriodNotMet)
    } else {
        None
    }
}

/// Withdraws `amount` from a liquidity position whose lock (seven days since its
/// last action) has passed, and restarts the lock. Returns whether the position is
/// now empty, in which case its record is to be closed. On failure nothing changes.
pub fn unstake_lp(state: &ContractState, lp_staker: &mut LPStaker, amount: u64, now: i64) -> (r:
    Result<bool, VeraluxErrorCode>)
    ensures
        match unstake_lp_failure(state, *old(lp_staker), amount as int, now as int) {
            Some(e) => r == Err::<bool, VeraluxErrorCode>(e) && *final(lp_staker) == *old(lp_staker),
            None => r == Ok::<bool, VeraluxErrorCode>(old(lp_staker).amount == amount) && *final(
                lp_staker
            ) == (LPStaker {
                amount: (old(lp_staker).amount - amount) as u64,
                last_action_time: now,
                ..*old(lp_staker)
            }),
        },
{
    if state.is_processing {
        return Err(VeraluxErrorCode::ReentrancyGuardTriggered);
    }
    if state.paused {
        return Err(VeraluxErrorCode::Paused);
    }
    if lp_staker.amount < amount {
        return Err(VeraluxErrorCode::InsufficientStakedAmount);
    }
    if !has_elapsed(lp_staker.last_action_time, now, LP_LOCK_PERIOD) {
        return Err(VeraluxErrorCode::LockPeriodNotMet);
    }
    lp_staker.amount = lp_staker.amount - amount;
    lp_staker.last_action_time = now;
    Ok(lp_staker.amount == 0)
}

/// Pays out a liquidity position's accumulated incentives once its lock has
/// passed; returns the amount, 0 (with no change) when nothing has accrued. On
/// failure nothing changes.
pub fn claim_lp_rewards(state: &ContractState, lp_staker: &mut LPStaker, now: i64) -> (r: Result<
    u64,
    VeraluxErrorCode,
>)
    ensures
        state.is_processing ==> r == Err::<u64, VeraluxErrorCode>(
            VeraluxErrorCode::ReentrancyGuardTriggered,
        ),
        !state.is_processing && state.paused ==> r == Err::<u64, VeraluxErrorCode>(
            VeraluxErrorCode::Paused,
        ),
        !state.is_processing && !state.paused && !delay_elapsed(
            old(lp_staker).last_action_time,
            now,
            LP_LOCK_PERIOD,
        ) ==> r == Err::<u64, VeraluxErrorCode>(VeraluxErrorCode::LockPeriodNotMet),
        r is Err ==> *final(lp_staker) == *old(lp_staker),
        !state.is_processing && !state.paused && delay_elapsed(
            old(lp_staker).last_action_time,
            now,
            LP_LOCK_PERIOD,
        ) ==> r == Ok::<u64, VeraluxErrorCode>(old(lp_staker).unclaimed_rewards) && *final(lp_staker)
            == (LPStaker { unclaimed_rewards: 0, ..*old(lp_staker) }),
{
    if state.is_processing {
        return Err(VeraluxErrorCode::ReentrancyGuardTriggered);
    }
    if state.paused {
        return Err(VeraluxErrorCode::Paused);
    }
    if !has_elapsed(lp_staker.last_action_time, now, LP_LOCK_PERIOD) {
        return Err(VeraluxErrorCode::LockPeriodNotMet);
    }
    let rewards = lp_staker.unclaimed_rewards;
    if rewards == 0 {
        return Ok(0);
    }
    lp_staker.unclaimed_rewards = 0;
    Ok(rewards)
}

/// Start (00:00 UTC) of the day that holds `now`.
pub open spec fn day_start(now: int) -> int {
    trunc_div(now, SECONDS_PER_DAY as int) * SECONDS_PER_DAY
}

/// Whether a position shares in the incentives of the day starting at `day`: its
/// last action is more than seven days before that day.
pub open spec fn eligible(st: LPStaker, day: int) -> bool {
    st.last_action_time < day - 7 * SECONDS_PER_DAY
}

/// Stake of the positions among the first `n` of `v` that are eligible on `day`.
pub open spec fn eligible_stake(v: Seq<LPStaker>, day: int, n: int) -> int
    decreases n,
{
    if n <= 0 || n > v.len() {
        0
    } else {
        eligible_stake(v, day, n - 1) + if eligible(v[n - 1], day) {
            v[n - 1].amount as int
        } else {
            0
        }
    }
}

proof fn lemma_eligible_stake_bounds(v: Seq<LPStaker>, day: int, n: int, i: int)
    requires
        0 <= i < n <= v.len(),
        eligible(v[i], day),
    ensures
        v[i].amount <= eligible_stake(v, day, n),
    decreases n,
{
    lemma_eligible_stake_nonneg(v, day, n - 1);
    if i < n - 1 {
        lemma_eligible_stake_bounds(v, day, n - 1, i);
    }
}

proof fn lemma_eligible_stake_nonneg(v: Seq<LPStaker>, day: int, n: int)
    ensures
        0 <= eligible_stake(v, day, n),
    decreases n,
{
    if n > 0 {
        lemma_eligible_stake_nonneg(v, day, n - 1);
    }
}

/// A position's share of `reward` when `total` is the eligible stake.
pub open spec fn share(st: LPStaker, reward: int, total: int) -> int {
    st.amount * reward / total
}

/// The incentive amount of the day in progress: the whole LP-incentive sub-pool at
/// the first batch of a day, the amount moved then for the later batches.
pub open spec fn day_reward(s: &ContractState, t: Treasury) -> u64 {
    if s.last_processed_index == 0 {
        t.liquidity_incentive
    } else {
        s.lp_reward_amount
    }
}

/// First position of the next batch (the cursor, kept within the list).
pub open spec fn batch_start(s: &ContractState, n: int) -> int {
    if s.last_processed_index as int <= n {
        s.last_processed_index as int
    } else {
        n
    }
}

/// End (exclusive) of the next batch of at most `batch_size` positions.
pub open spec fn batch_end(s: &ContractState, n: int, batch_size: int) -> int {
    if batch_start(s, n) + batch_size <= n {
        batch_start(s, n) + batch_size
    } else {
        n
    }
}

/// What one call of the daily LP incentive run did.
#[derive(Clone, Copy, Debug, PartialEq, Eq, Structural)]
pub struct DailyRewardsOutcome {
    /// Amount to move from the treasury account into the holding pool.
    pub moved_to_holding: u64,
    /// Whether the day is now fully processed.
    pub day_complete: bool,
}

/// Computes the eligible stake of all positions.
fn total_eligible_stake(stakers: &Vec<LPStaker>, day: i64) -> (r: u128)
    ensures
        r == eligible_stake(stakers@, day as int, stakers@.len() as int),
{
    let mut total: u128 = 0;
    let mut i: usize = 0;
    while i < stakers.len()
        invariant
            i <= stakers.len(),
            total == eligible_stake(stakers@, day as int, i as int),
            total <= i * (u64::MAX as int),
        decreases stakers.len() - i,
    {
        if (stakers[i].last_action_time as i128) < (day as i128) - 7 * (SECONDS_PER_DAY as i128) {
            total = total + stakers[i].amount as u128;
        }
        i = i + 1;
    }
    total
}

/// Whether `new` is `old` with each eligible position in `[start, end)` credited
/// its share of `reward`.
pub open spec fn batch_credited(
    old: Seq<LPStaker>,
    new: Seq<LPStaker>,
    day: int,
    start: int,
    end: int,
    reward: int,
    total: int,
) -> bool {
    &&& new.len() == old.len()
    &&& forall|j: int|
        0 <= j < old.len() ==> #[trigger] new[j] == if start <= j < end && eligible(old[j], day) {
            LPStaker {
                unclaimed_rewards: (old[j].unclaimed_rewards + share(old[j], reward, total)) as u64,
                ..old[j]
            }
        } else {
            old[j]
        }
}

/// Whether crediting the batch `[start, end)` overflows some position.
pub open spec fn batch_overflows(
    v: Seq<LPStaker>,
    day: int,
    start: int,
    end: int,
    reward: int,
    total: int,
) -> bool {
    exists|j: int|
        start <= j < end && eligible(v[j], day) && #[trigger] v[j].unclaimed_rewards + share(
            v[j],
            reward,
            total,
        ) > u64::MAX
}

/// Runs one batch of the day's LP incentive distribution over the full list of
/// positions. The first batch of a day moves the whole LP-incentive sub-pool into
/// the holding pool; every batch then credits each eligible position in
/// `[cursor, cursor + batch_size)` with its stake's proportion of that amount,
/// measured against the eligible stake of the whole list. The cursor is kept in
/// `state`; when it reaches the end the day is marked processed and the cursor
/// resets, so repeated or resumed calls never pay a day twice. A day with no
/// incentive or no eligible stake is marked processed with nothing moved.
#[verifier::loop_isolation(false)]
pub fn process_daily_rewards(
    state: &mut ContractState,
    treasury: &mut Treasury,
    stakers: &mut Vec<LPStaker>,
    batch_size: u64,
    now: i64,
) -> (r: Result<DailyRewardsOutcome, VeraluxErrorCode>)
    ensures
        old(state).is_processing ==> r == Err::<DailyRewardsOutcome, VeraluxErrorCode>(
            VeraluxErrorCode::ReentrancyGuardTriggered,
        ),
        !old(state).is_processing && old(state).paused ==> r == Err::<
            DailyRewardsOutcome,
            VeraluxErrorCode,
        >(VeraluxErrorCode::Paused),
        !old(state).is_processing && !old(state).paused && batch_size > MAX_BATCH_SIZE ==> r
            == Err::<DailyRewardsOutcome, VeraluxErrorCode>(VeraluxErrorCode::BatchSizeTooLarge),
        r is Err ==> *final(state) == *old(state) && *final(treasury) == *old(treasury)
            && final(stakers)@ == old(stakers)@,
        ({
            let day = day_start(now as int);
            let n = old(stakers)@.len() as int;
            let first = old(state).last_processed_index == 0;
            let reward = day_reward(old(state), *old(treasury));
            let total = eligible_stake(old(stakers)@, day, n);
            let start = batch_start(old(state), n);
            let end = batch_end(old(state), n, batch_size as int);
            r is Ok ==> if old(state).last_processed_day >= day {
                r->Ok_0 == DailyRewardsOutcome { moved_to_holding: 0, day_complete: false }
                    && *final(state) == *old(state) && *final(treasury) == *old(treasury)
                    && final(stakers)@ == old(stakers)@
            } else if reward == 0 || total == 0 {
                &&& r->Ok_0 == DailyRewardsOutcome { moved_to_holding: 0, day_complete: true }
                &&& *final(state) == (ContractState {
                    last_processed_day: day as i64,
                    last_processed_index: 0,
                    lp_reward_amount: 0,
                    ..*old(state)
                })
                &&& *final(treasury) == *old(treasury)
                &&& final(stakers)@ == old(stakers)@
            } else {
                &&& batch_credited(
                    old(stakers)@,
                    final(stakers)@,
                    day,
                    start,
                    end,
                    reward as int,
                    total,
                )
                &&& r->Ok_0 == DailyRewardsOutcome {
                    moved_to_holding: if first {
                        reward
                    } else {
                        0
                    },
                    day_complete: end == n,
                }
                &&& *final(treasury) == if first {
                    Treasury { liquidity_incentive: 0, ..*old(treasury) }
                } else {
                    *old(treasury)
                }
                &&& *final(state) == if end == n {
                    ContractState {
                        last_processed_day: day as i64,
                        last_processed_index: 0,
                        lp_reward_amount: 0,
                        ..*old(state)
                    }
                } else {
                    ContractState {
                        last_processed_index: end as u64,
                        lp_reward_amount: reward,
                        ..*old(state)
                    }
                }
            }
        }),
        ({
            let day = day_start(now as int);
            let n = old(stakers)@.len() as int;
            r is Err <==> (old(state).is_processing || old(state).paused || batch_size
                > MAX_BATCH_SIZE || (old(state).last_processed_day < day && day_reward(
                old(state),
                *old(treasury),
            ) != 0 && eligible_stake(old(stakers)@, day, n) != 0 && batch_overflows(
                old(stakers)@,
                day,
                batch_start(old(state), n),
                batch_end(old(state), n, batch_size as int),
                day_reward(old(state), *old(treasury)) as int,
                eligible_stake(old(stakers)@, day, n),
            )))
        }),
        r is Err && !old(state).is_processing && !old(state).paused && batch_size
            <= MAX_BATCH_SIZE ==> r == Err::<DailyRewardsOutcome, VeraluxErrorCode>(
            VeraluxErrorCode::ArithmeticOverflow,
        ),
{
    if state.is_processing {
        return Err(VeraluxErrorCode::ReentrancyGuardTriggered);
    }
    if state.paused {
        return Err(VeraluxErrorCode::Paused);
    }
    if batch_size > MAX_BATCH_SIZE {
        return Err(VeraluxErrorCode::BatchSizeTooLarge);
    }
    let day = div_i64(now, SECONDS_PER_DAY as u64) * SECONDS_PER_DAY;
    if state.last_processed_day >= day {
        return Ok(DailyRewardsOutcome { moved_to_holding: 0, day_complete: false });
    }
    let n = stakers.len();
    let first = state.last_processed_index == 0;
    let reward = if first {
        treasury.liquidity_incentive
    } else {
        state.lp_reward_amount
    };
    let total = total_eligible_stake(stakers, day);
    if reward == 0 || total == 0 {
        state.last_processed_day = day;
        state.last_processed_index = 0;
        state.lp_reward_amount = 0;
        return Ok(DailyRewardsOutcome { moved_to_holding: 0, day_complete: true });
    }
    let start: usize = if state.last_processed_index as u128 <= n as u128 {
        state.last_processed_index as usize
    } else {
        n
    };
    let end: usize = if start as u128 + batch_size as u128 <= n as u128 {
        start + batch_size as usize
    } else {
        n
    };
    let mut updated = stakers.clone();
    let ghost old_stakers = stakers@;
    let mut j: usize = start;
    while j < end
        invariant
            start <= j <= end <= n,
            n == old_stakers.len(),
            old_stakers == stakers@,
            updated@.len() == n,
            total == eligible_stake(old_stakers, day as int, n as int),
            total > 0,
            forall|k: int| 0 <= k < n ==> #[trigger] updated@[k] == if start <= k < j && eligible(
                old_stakers[k],
                day as int,
            ) {
                LPStaker {
                    unclaimed_rewards: (old_stakers[k].unclaimed_rewards + share(
                        old_stakers[k],
                        reward as int,
                        total as int,
                    )) as u64,
                    ..old_stakers[k]
                }
            } else {
                old_stakers[k]
            },
            forall|k: int|
                start <= k < j && eligible(old_stakers[k], day as int) ==> #[trigger] old_stakers[k].unclaimed_rewards
                    + share(old_stakers[k], reward as int, total as int) <= u64::MAX,
        decreases end - j,
    {
        let st = stakers[j];
        if (st.last_action_time as i128) < (day as i128) - 7 * (SECONDS_PER_DAY as i128) {
            proof {
                lemma_eligible_stake_bounds(old_stakers, day as int, n as int, j as int);
                assert((st.amount as int) * (reward as int) <= (u64::MAX as int) * (u64::MAX as int))
                    by (nonlinear_arith)
                    requires
                        st.amount <= u64::MAX,
                        reward <= u64::MAX,
                ;
                assert((st.amount as int) * (reward as int) / (total as int) <= reward as int)
                    by (nonlinear_arith)
                    requires
                        st.amount <= total,
                        total > 0,
                        reward >= 0,
                ;
            }
            let portion: u128 = (st.amount as u128) * (reward as u128) / total;
            let credited = match st.unclaimed_rewards.checked_add(portion as u64) {
                Some(v) => v,
                None => {
                    proof {
                        assert(batch_overflows(
                            old_stakers,
                            day as int,
                            start as int,
                            end as int,
                            reward as int,
                            total as int,
                        ));
                    }
                    return Err(VeraluxErrorCode::ArithmeticOverflow);
                },
            };
            updated.set(j, LPStaker { unclaimed_rewards: credited, ..st });
        }
        j = j + 1;
    }
    proof {
        assert(!batch_overflows(
            old_stakers,
            day as int,
            start as int,
            end as int,
            reward as int,
            total as int,
        ));
    }
    *stakers = updated;
    if first {
        treasury.liquidity_incentive = 0;
    }
    if end == n {
        state.last_processed_day = day;
        state.last_processed_index = 0;
        state.lp_reward_amount = 0;
    } else {
        state.last_processed_index = end as u64;
        state.lp_reward_amount = reward;
    }
    Ok(DailyRewardsOutcome { moved_to_holding: if first { reward } else { 0 }, day_complete: end == n })
}

} // verus!
