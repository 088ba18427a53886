use vstd::prelude::*;

use crate::constants::{SECONDS_PER_DAY, STAKING_POOL_PCT, TREASURY_RESERVE};
use crate::error::VeraluxErrorCode;
use crate::math::{div_i64, elapsed, fits_i64, trunc_div};
use crate::state::{ContractState, Staker, Treasury};

verus! {

/// Marks a staker that holds no tier.
pub const INELIGIBLE: u8 = 255;

/// Reward-pool size (the staking share of the treasury reserve) that the pool
/// fraction is measured against.
pub const STAKING_POOL_BASE: u64 = TREASURY_RESERVE / 100 * STAKING_POOL_PCT;

/// Minimum staking duration of tier `i`.
pub open spec fn duration(i: int) -> int {
    if i == 0 {
        604_800
    } else if i == 1 {
        1_209_600
    } else {
        2_592_000
    }
}

/// Highest tier below `n` whose amount and duration minimums `amount` and
/// `time_staked` both meet, or 0 when none is met.
pub open spec fn best_tier(tiers: Seq<u64>, amount: int, time_staked: int, n: nat) -> u8
    decreases n,
{
    if n == 0 {
        0
    } else if amount >= tiers[n - 1] && time_staked >= duration(n - 1) {
        (n - 1) as u8
    } else {
        best_tier(tiers, amount, time_staked, (n - 1) as nat)
    }
}

/// The tier a stake of `amount` held for `time_staked` seconds earns: ineligible
/// below the tier-0 amount or under a week, else the highest tier whose amount and
/// duration minimums are both met.
pub open spec fn tier_for(tiers: Seq<u64>, amount: int, time_staked: int) -> u8 {
    if amount < tiers[0] || time_staked < 7 * SECONDS_PER_DAY {
        INELIGIBLE
    } else {
        best_tier(tiers, amount, time_staked, 4)
    }
}

/// Highest tier below `n` whose amount minimum `amount` meets, or ineligible.
pub open spec fn highest_tier(tiers: Seq<u64>, amount: int, n: nat) -> u8
    decreases n,
{
    if n == 0 {
        INELIGIBLE
    } else if amount >= tiers[n - 1] {
        (n - 1) as u8
    } else {
        highest_tier(tiers, amount, (n - 1) as nat)
    }
}

/// Voting weight of each tier before the duration multiplier.
pub open spec fn base_power(tier: int) -> int {
    if tier == 1 {
        1
    } else if tier == 2 {
        4
    } else if tier == 3 {
        20
    } else {
        0
    }
}

/// Duration multiplier, per mille.
pub open spec fn multiplier(time_staked: int) -> int {
    if time_staked >= 90 * SECONDS_PER_DAY {
        1995
    } else if time_staked >= 60 * SECONDS_PER_DAY {
        1500
    } else {
        1000
    }
}

/// `base` scaled by the per-mille multiplier `m`, rounded up.
pub open spec fn scaled(base: int, m: int) -> int {
    (base * m + 999) / 1000
}

/// The cap on voting power: the power of the highest tier the amount alone reaches.
pub open spec fn power_cap(tiers: Seq<u64>, amount: int, time_staked: int) -> int {
    let h = highest_tier(tiers, amount, 4);
    if h == INELIGIBLE {
        0
    } else {
        scaled(base_power(h as int), multiplier(time_staked))
    }
}

/// Voting power of a staker of tier `tier` (0 to 3) and `amount`, staked for
/// `time_staked` seconds.
pub open spec fn power_at(tier: int, tiers: Seq<u64>, amount: int, time_staked: int) -> int {
    let p = scaled(base_power(tier), multiplier(time_staked));
    let cap = power_cap(tiers, amount, time_staked);
    if p < cap {
        p
    } else {
        cap
    }
}

/// Voting power of `st` at time `now` under the tiers of `s`.
pub open spec fn voting_power(st: Staker, s: &ContractState, now: int) -> Result<u64, VeraluxErrorCode> {
    if st.tier == INELIGIBLE {
        Ok(0)
    } else if st.tier > 3 {
        Err(VeraluxErrorCode::InvalidTier)
    } else if !fits_i64(now - st.start_time) {
        Err(VeraluxErrorCode::ArithmeticOverflow)
    } else {
        Ok(power_at(st.tier as int, s.staking_tiers@, st.amount as int, now - st.start_time) as u64)
    }
}

/// The tier earned by `amount` staked for `time_staked` seconds: ineligible below
/// the tier-0 amount or under a week, else the highest tier whose amount and
/// duration minimums are both met.
pub fn calculate_tier(state: &ContractState, amount: u64, time_staked: i64) -> (r: Result<
    u8,
    VeraluxErrorCode,
>)
    ensures
        r == Ok::<u8, VeraluxErrorCode>(
            tier_for(state.staking_tiers@, amount as int, time_staked as int),
        ),
{
    if amount < state.staking_tiers[0] || time_staked < 7 * SECONDS_PER_DAY {
        return Ok(INELIGIBLE);
    }
    let mut i: usize = 4;
    while i > 1
        invariant
            1 <= i <= 4,
            amount >= state.staking_tiers@[0],
            time_staked >= 7 * SECONDS_PER_DAY,
            best_tier(state.staking_tiers@, amount as int, time_staked as int, 4) == best_tier(
                state.staking_tiers@,
                amount as int,
                time_staked as int,
                i as nat,
            ),
        decreases i,
    {
        let t = i - 1;
        if amount >= state.staking_tiers[t] && time_staked >= staking_duration(t) {
            return Ok(t as u8);
        }
        i = t;
    }
    Ok(0)
}

/// Highest tier whose amount minimum `amount` meets, or ineligible.
pub fn get_highest_eligible_tier(state: &ContractState, amount: u64) -> (r: u8)
    ensures
        r == highest_tier(state.staking_tiers@, amount as int, 4),
        r == INELIGIBLE || r <= 3,
{
    let mut i: usize = 4;
    while i > 0
        invariant
            i <= 4,
            highest_tier(state.staking_tiers@, amount as int, 4) == highest_tier(
                state.staking_tiers@,
                amount as int,
                i as nat,
            ),
        decreases i,
    {
        let t = i - 1;
        if amount >= state.staking_tiers[t] {
            return t as u8;
        }
        i = t;
    }
    INELIGIBLE
}

/// Minimum staking duration of tier `i`, in seconds.
pub fn staking_duration(i: usize) -> (r: i64)
    requires
        i < 4,
    ensures
        r == duration(i as int),
{
    if i == 0 {
        604_800
    } else if i == 1 {
        1_209_600
    } else {
        2_592_000
    }
}

fn tier_base_power(tier: u8) -> (r: u64)
    requires
        tier <= 3,
    ensures
        r == base_power(tier as int),
{
    if tier == 1 {
        1
    } else if tier == 2 {
        4
    } else if tier == 3 {
        20
    } else {
        0
    }
}

/// Voting power of `staker` at `now`: the tier's base power times the duration
/// multiplier (rounded up), capped by the power of the highest tier the staked
/// amount alone reaches.
pub fn calculate_voting_power(staker: &Staker, state: &ContractState, current_time: i64) -> (r:
    Result<u64, VeraluxErrorCode>)
    ensures
        r == voting_power(*staker, state, current_time as int),
        r is Ok ==> r->Ok_0 <= 40,
{
    if staker.tier == INELIGIBLE {
        return Ok(0);
    }
    if staker.tier > 3 {
        return Err(VeraluxErrorCode::InvalidTier);
    }
    let time_staked = match elapsed(current_time, staker.start_time) {
        Ok(t) => t,
        Err(e) => return Err(e),
    };
    let m: u64 = if time_staked >= 90 * SECONDS_PER_DAY {
        1995
    } else if time_staked >= 60 * SECONDS_PER_DAY {
        1500
    } else {
        1000
    };
    let power = (tier_base_power(staker.tier) * m + 999) / 1000;
    let highest = get_highest_eligible_tier(state, staker.amount);
    if highest == INELIGIBLE {
        return Ok(0);
    }
    let cap = (tier_base_power(highest) * m + 999) / 1000;
    if power < cap {
        Ok(power)
    } else {
        Ok(cap)
    }
}

/// For a fixed tier and amount, voting power never decreases as the stake ages,
/// and it never exceeds the cap of the highest tier the amount reaches.
pub proof fn lemma_voting_power_monotonic(
    tier: int,
    tiers: Seq<u64>,
    amount: int,
    t1: int,
    t2: int,
)
    requires
        0 <= tier <= 3,
        t1 <= t2,
    ensures
        power_at(tier, tiers, amount, t1) <= power_at(tier, tiers, amount, t2),
        power_at(tier, tiers, amount, t2) <= power_cap(tiers, amount, t2),
{
    let m1 = multiplier(t1);
    let m2 = multiplier(t2);
    assert(m1 <= m2);
    let b = base_power(tier);
    assert(scaled(b, m1) <= scaled(b, m2)) by {
        assert(b * m1 <= b * m2) by (nonlinear_arith)
            requires
                0 <= b,
                m1 <= m2,
        ;
        vstd::arithmetic::div_mod::lemma_div_is_ordered(b * m1 + 999, b * m2 + 999, 1000);
    }
    let h = highest_tier(tiers, amount, 4);
    if h != INELIGIBLE {
        let c = base_power(h as int);
        assert(scaled(c, m1) <= scaled(c, m2)) by {
            assert(c * m1 <= c * m2) by (nonlinear_arith)
                requires
                    0 <= c,
                    m1 <= m2,
            ;
            vstd::arithmetic::div_mod::lemma_div_is_ordered(c * m1 + 999, c * m2 + 999, 1000);
        }
    }
}

proof fn lemma_power_bounds(tier: int, tiers: Seq<u64>, amount: int, time_staked: int)
    requires
        0 <= tier <= 3,
    ensures
        0 <= power_at(tier, tiers, amount, time_staked) <= 40,
        0 <= power_cap(tiers, amount, time_staked) <= 40,
{
}

/// For a fixed staker and policy, the voting power that `calculate_voting_power`
/// reports never decreases as time goes on (across the 60- and 90-day breakpoints),
/// and never exceeds the cap of the highest tier the staked amount reaches.
pub proof fn lemma_voting_power_nondecreasing(st: Staker, s: &ContractState, t1: int, t2: int)
    requires
        st.tier <= 3 || st.tier == INELIGIBLE,
        st.start_time <= t1 <= t2,
        fits_i64(t2 - st.start_time),
    ensures
        voting_power(st, s, t1) is Ok,
        voting_power(st, s, t2) is Ok,
        voting_power(st, s, t1)->Ok_0 <= voting_power(st, s, t2)->Ok_0,
        voting_power(st, s, t2)->Ok_0 <= power_cap(
            s.staking_tiers@,
            st.amount as int,
            t2 - st.start_time,
        ),
{
    if st.tier != INELIGIBLE {
        let tiers = s.staking_tiers@;
        let a = st.amount as int;
        lemma_voting_power_monotonic(st.tier as int, tiers, a, t1 - st.start_time, t2 - st.start_time);
        lemma_power_bounds(st.tier as int, tiers, a, t1 - st.start_time);
        lemma_power_bounds(st.tier as int, tiers, a, t2 - st.start_time);
    } else {
        lemma_power_bounds(0, s.staking_tiers@, st.amount as int, t2 - st.start_time);
    }
}

/// Reward-reduction factor for a pool fraction (per mille of the reward pool size).
pub open spec fn reduction_factor(s: &ContractState, fraction: int) -> int {
    if fraction < s.reduction_thresholds[0] {
        s.reduction_factors[0] as int
    } else if fraction < s.reduction_thresholds[1] {
        s.reduction_factors[1] as int
    } else if fraction < s.reduction_thresholds[2] {
        s.reduction_factors[2] as int
    } else {
        s.reduction_factors[3] as int
    }
}

/// Reward owed to `st` at `now`, before any bound on its size.
pub open spec fn reward_amount(st: Staker, s: &ContractState, t: Treasury, now: int) -> int {
    let days = trunc_div(now - st.last_claim, SECONDS_PER_DAY as int);
    let fraction = t.staking_pool * 1000 / STAKING_POOL_BASE as int;
    let daily = s.staking_rewards[st.tier as int] / 7;
    daily * reduction_factor(s, fraction) * days / 1000
}

/// Staking reward pending for `st` at `now`.
pub open spec fn pending_rewards(st: Staker, s: &ContractState, t: Treasury, now: int) -> Result<
    u64,
    VeraluxErrorCode,
> {
    let days = trunc_div(now - st.last_claim, SECONDS_PER_DAY as int);
    if st.amount == 0 || st.tier == INELIGIBLE {
        Ok(0)
    } else if !fits_i64(now - st.start_time) || !fits_i64(now - st.last_claim) {
        Err(VeraluxErrorCode::ArithmeticOverflow)
    } else if days <= 0 {
        Ok(0)
    } else if st.tier > 3 {
        Err(VeraluxErrorCode::InvalidTier)
    } else if reward_amount(st, s, t, now) > u64::MAX {
        Err(VeraluxErrorCode::ArithmeticOverflow)
    } else {
        Ok(reward_amount(st, s, t, now) as u64)
    }
}

/// Staking reward pending for `staker` at `current_time`: nothing for an empty or
/// ineligible stake or before a full day since the last claim; otherwise the
/// tier's daily reward, scaled per mille by the factor that the staking pool's
/// depletion selects, times the whole days elapsed.
pub fn get_pending_rewards(
    state: &ContractState,
    staker: &Staker,
    treasury: &Treasury,
    current_time: i64,
) -> (r: Result<u64, VeraluxErrorCode>)
    requires
        state.wf(),
    ensures
        r == pending_rewards(*staker, state, *treasury, current_time as int),
{
    if staker.amount == 0 || staker.tier == INELIGIBLE {
        return Ok(0);
    }
    match elapsed(current_time, staker.start_time) {
        Ok(_) => {},
        Err(e) => return Err(e),
    }
    let since_claim = match elapsed(current_time, staker.last_claim) {
        Ok(d) => d,
        Err(e) => return Err(e),
    };
    let days = div_i64(since_claim, SECONDS_PER_DAY as u64);
    if days <= 0 {
        return Ok(0);
    }
    if staker.tier > 3 {
        return Err(VeraluxErrorCode::InvalidTier);
    }
    let fraction: u128 = (treasury.staking_pool as u128 * 1000) / STAKING_POOL_BASE as u128;
    let factor: u64 = if fraction < state.reduction_thresholds[0] as u128 {
        state.reduction_factors[0]
    } else if fraction < state.reduction_thresholds[1] as u128 {
        state.reduction_factors[1]
    } else if fraction < state.reduction_thresholds[2] as u128 {
        state.reduction_factors[2]
    } else {
        state.reduction_factors[3]
    };
    let daily: u64 = state.staking_rewards[staker.tier as usize] / 7;
    let d: u64 = days as u64;
    proof {
        assert(d <= 200_000_000_000_000);
        assert(factor <= 2000);
        assert((daily as int) * (factor as int) <= (u64::MAX as int) * 2000) by (nonlinear_arith)
            requires
                factor <= 2000,
                daily <= u64::MAX,
        ;
        assert((daily as int) * (factor as int) * (d as int) <= (u64::MAX as int) * 2000
            * 200_000_000_000_000) by (nonlinear_arith)
            requires
                (daily as int) * (factor as int) <= (u64::MAX as int) * 2000,
                0 <= (daily as int) * (factor as int),
                d <= 200_000_000_000_000,
        ;
    }
    let reward: u128 = (daily as u128) * (factor as u128) * (d as u128) / 1000;
    if reward > u64::MAX as u128 {
        return Err(VeraluxErrorCode::ArithmeticOverflow);
    }
    Ok(reward as u64)
}

/// Lock duration that applies to a staker of the given tier before it may unstake
/// or claim: the tier's minimum duration, the shortest one for an ineligible stake.
pub open spec fn lock_of(tier: int) -> int {
    if 0 <= tier <= 3 {
        duration(tier)
    } else {
        duration(0)
    }
}

fn lock_duration(tier: u8) -> (r: i64)
    ensures
        r == lock_of(tier as int),
{
    if tier <= 3 {
        staking_duration(tier as usize)
    } else {
        staking_duration(0)
    }
}

/// Voting power a position held before adding to it.
pub open spec fn prior_power(st: Staker, s: &ContractState, now: int) -> Result<u64, VeraluxErrorCode> {
    if st.start_time == 0 {
        Ok(0)
    } else {
        voting_power(st, s, now)
    }
}

/// The position after adding `amount` at `now`, before its tier is recomputed: a
/// new position starts its clocks at `now`.
pub open spec fn grown(st: Staker, amount: int, now: int) -> Staker {
    if st.start_time == 0 {
        Staker { start_time: now as i64, last_claim: now as i64, amount: amount as u64, ..st }
    } else {
        Staker { amount: (st.amount + amount) as u64, ..st }
    }
}

/// The position after adding `amount` at `now`, with its tier recomputed.
pub open spec fn restaked(st: Staker, s: &ContractState, amount: int, now: int) -> Staker {
    let g = grown(st, amount, now);
    Staker { tier: tier_for(s.staking_tiers@, g.amount as int, now - g.start_time), ..g }
}

/// The first reason, in the order checked, for which staking `amount` fails.
pub open spec fn stake_failure(s: &ContractState, st: Staker, amount: int, now: int) -> Option<
    VeraluxErrorCode,
> {
    let n = restaked(st, s, amount, now);
    if s.is_processing {
        Some(VeraluxErrorCode::ReentrancyGuardTriggered)
    } else if s.paused {
        Some(VeraluxErrorCode::Paused)
    } else if prior_power(st, s, now) is Err {
        Some(prior_power(st, s, now)->Err_0)
    } else if st.start_time != 0 && st.amount + amount > u64::MAX {
        Some(VeraluxErrorCode::ArithmeticOverflow)
    } else if !fits_i64(now - grown(st, amount, now).start_time) {
        Some(VeraluxErrorCode::ArithmeticOverflow)
    } else if voting_power(n, s, now) is Err {
        Some(voting_power(n, s, now)->Err_0)
    } else if s.total_voting_power < prior_power(st, s, now)->Ok_0 {
        Some(VeraluxErrorCode::ArithmeticOverflow)
    } else if s.total_voting_power - prior_power(st, s, now)->Ok_0 + voting_power(n, s, now)->Ok_0
        > u64::MAX {
        Some(VeraluxErrorCode::ArithmeticOverflow)
    } else {
        None
    }
}

/// Adds `amount` to the caller's stake (opening the position if it has none),
/// recomputes its tier, and moves the global voting-power total from the
/// position's old power to its new one. The tokens themselves are moved by the
/// caller of this function. On failure nothing changes.
pub fn stake(state: &mut ContractState, staker: &mut Staker, amount: u64, now: i64) -> (r: Result<
    (),
    VeraluxErrorCode,
>)
    ensures
        match stake_failure(old(state), *old(staker), amount as int, now as int) {
            Some(e) => r == Err::<(), VeraluxErrorCode>(e) && *final(staker) == *old(staker)
                && *final(state) == *old(state),
            None => {
                let n = restaked(*old(staker), old(state), amount as int, now as int);
                &&& r is Ok
                &&& *final(staker) == n
                &&& *final(state) == (ContractState {
                    total_voting_power: (old(state).total_voting_power - prior_power(
                        *old(staker),
                        old(state),
                        now as int,
                    )->Ok_0 + voting_power(n, old(state), now as int)->Ok_0) as u64,
                    ..*old(state)
                })
            },
        },
{
    if state.is_processing {
        return Err(VeraluxErrorCode::ReentrancyGuardTriggered);
    }
    if state.paused {
        return Err(VeraluxErrorCode::Paused);
    }
    let old_power = if staker.start_time == 0 {
        0
    } else {
        match calculate_voting_power(staker, state, now) {
            Ok(p) => p,
            Err(e) => return Err(e),
        }
    };
    let mut n = *staker;
    if n.start_time == 0 {
        n.start_time = now;
        n.last_claim = now;
        n.amount = amount;
    } else {
        n.amount = match n.amount.checked_add(amount) {
            Some(a) => a,
            None => return Err(VeraluxErrorCode::ArithmeticOverflow),
        };
    }
    let time_staked = match elapsed(now, n.start_time) {
        Ok(t) => t,
        Err(e) => return Err(e),
    };
    n.tier = match calculate_tier(state, n.amount, time_staked) {
        Ok(t) => t,
        Err(e) => return Err(e),
    };
    let new_power = match calculate_voting_power(&n, state, now) {
        Ok(p) => p,
        Err(e) => return Err(e),
    };
    let reduced = match state.total_voting_power.checked_sub(old_power) {
        Some(v) => v,
        None => return Err(VeraluxErrorCode::ArithmeticOverflow),
    };
    let total = match reduced.checked_add(new_power) {
        Some(v) => v,
        None => return Err(VeraluxErrorCode::ArithmeticOverflow),
    };
    state.total_voting_power = total;
    *staker = n;
    Ok(())
}

/// What unstaking pays out: the pending reward and the staked amount.
#[derive(Clone, Copy, Debug, PartialEq, Eq, Structural)]
pub struct UnstakeOutcome {
    pub reward: u64,
    pub amount: u64,
}

/// The first reason, in the order checked, for which unstaking fails.
pub open spec fn unstake_failure(s: &ContractState, st: Staker, t: Treasury, now: int) -> Option<
    VeraluxErrorCode,
> {
    let reward = pending_rewards(st, s, t, now);
    if s.is_processing {
        Some(VeraluxErrorCode::ReentrancyGuardTriggered)
    } else if s.paused {
        Some(VeraluxErrorCode::Paused)
    } else if !fits_i64(now - st.start_time) {
        Some(VeraluxErrorCode::ArithmeticOverflow)
    } else if now - st.start_time < lock_of(st.tier as int) {
        Some(VeraluxErrorCode::LockPeriodNotMet)
    } else if reward is Err {
        Some(reward->Err_0)
    } else if t.staking_pool < reward->Ok_0 {
        Some(VeraluxErrorCode::InsufficientStakingPoolFunds)
    } else if voting_power(st, s, now) is Err {
        Some(voting_power(st, s, now)->Err_0)
    } else if s.total_voting_power < voting_power(st, s, now)->Ok_0 {
        Some(VeraluxErrorCode::ArithmeticOverflow)
    } else {
        None
    }
}

/// The emptied position left by unstaking.
pub open spec fn cleared_staker() -> Staker {
    Staker { tier: 0, amount: 0, start_time: 0, last_claim: 0 }
}

/// Closes a position once its tier's lock has elapsed: pays the pending reward out
/// of the staking sub-pool, empties the position, and removes its voting power
/// from the global total. On failure nothing changes.
pub fn unstake(
    state: &mut ContractState,
    staker: &mut Staker,
    treasury: &mut Treasury,
    now: i64,
) -> (r: Result<UnstakeOutcome, VeraluxErrorCode>)
    requires
        old(state).wf(),
    ensures
        match unstake_failure(old(state), *old(staker), *old(treasury), now as int) {
            Some(e) => r == Err::<UnstakeOutcome, VeraluxErrorCode>(e) && *final(staker) == *old(staker) && *final(state) == *old(state) && *final(treasury) == *old(treasury),
            None => {
                let reward = pending_rewards(*old(staker), old(state), *old(treasury), now as int)->Ok_0;
                let power = voting_power(*old(staker), old(state), now as int)->Ok_0;
                &&& r == Ok::<UnstakeOutcome, VeraluxErrorCode>(
                    UnstakeOutcome { reward, amount: old(staker).amount },
                )
                &&& *final(staker) == cleared_staker()
                &&& *final(treasury) == (Treasury {
                    staking_pool: (old(treasury).staking_pool - reward) as u64,
                    ..*old(treasury)
                })
                &&& *final(state) == (ContractState {
                    total_voting_power: (old(state).total_voting_power - power) as u64,
                    ..*old(state)
                })
            },
        },
{
    if state.is_processing {
        return Err(VeraluxErrorCode::ReentrancyGuardTriggered);
    }
    if state.paused {
        return Err(VeraluxErrorCode::Paused);
    }
    let time_staked = match elapsed(now, staker.start_time) {
        Ok(t) => t,
        Err(e) => return Err(e),
    };
    if time_staked < lock_duration(staker.tier) {
        return Err(VeraluxErrorCode::LockPeriodNotMet);
    }
    let reward = match get_pending_rewards(state, staker, treasury, now) {
        Ok(v) => v,
        Err(e) => return Err(e),
    };
    if treasury.staking_pool < reward {
        return Err(VeraluxErrorCode::InsufficientStakingPoolFunds);
    }
    let power = match calculate_voting_power(staker, state, now) {
        Ok(p) => p,
        Err(e) => return Err(e),
    };
    if state.total_voting_power < power {
        return Err(VeraluxErrorCode::ArithmeticOverflow);
    }
    let amount = staker.amount;
    treasury.staking_pool = treasury.staking_pool - reward;
    state.total_voting_power = state.total_voting_power - power;
    *staker = Staker { tier: 0, amount: 0, start_time: 0, last_claim: 0 };
    Ok(UnstakeOutcome { reward, amount })
}

/// The first reason, in the order checked, for which claiming staking rewards fails.
pub open spec fn claim_failure(s: &ContractState, st: Staker, t: Treasury, now: int) -> Option<
    VeraluxErrorCode,
> {
    let reward = pending_rewards(st, s, t, now);
    if s.is_processing {
        Some(VeraluxErrorCode::ReentrancyGuardTriggered)
    } else if s.paused {
        Some(VeraluxErrorCode::Paused)
    } else if !fits_i64(now - st.start_time) {
        Some(VeraluxErrorCode::ArithmeticOverflow)
    } else if now - st.start_time < lock_of(st.tier as int) {
        Some(VeraluxErrorCode::LockPeriodNotMet)
    } else if reward is Err {
        Some(reward->Err_0)
    } else if t.staking_pool < reward->Ok_0 {
        Some(VeraluxErrorCode::InsufficientStakingPoolFunds)
    } else {
        None
    }
}

/// Pays the pending staking reward out of the staking sub-pool and restarts the
/// reward clock; returns the amount paid, 0 (with no change) when nothing is
/// pending. On failure nothing changes.
pub fn claim_rewards(
    state: &ContractState,
    staker: &mut Staker,
    treasury: &mut Treasury,
    now: i64,
) -> (r: Result<u64, VeraluxErrorCode>)
    requires
        state.wf(),
    ensures
        match claim_failure(state, *old(staker), *old(treasury), now as int) {
            Some(e) => r == Err::<u64, VeraluxErrorCode>(e) && *final(staker) == *old(staker)
                && *final(treasury) == *old(treasury),
            None => {
                let reward = pending_rewards(*old(staker), state, *old(treasury), now as int)->Ok_0;
                &&& r == Ok::<u64, VeraluxErrorCode>(reward)
                &&& reward == 0 ==> *final(staker) == *old(staker) && *final(treasury) == *old(treasury)
                &&& reward > 0 ==> *final(staker) == (Staker { last_claim: now, ..*old(staker) })
                    && *final(treasury) == (Treasury {
                    staking_pool: (old(treasury).staking_pool - reward) as u64,
                    ..*old(treasury)
                })
            },
        },
{
    if state.is_processing {
        return Err(VeraluxErrorCode::ReentrancyGuardTriggered);
    }
    if state.paused {
        return Err(VeraluxErrorCode::Paused);
    }
    let time_staked = match elapsed(now, staker.start_time) {
        Ok(t) => t,
        Err(e) => return Err(e),
    };
    if time_staked < lock_duration(staker.tier) {
        return Err(VeraluxErrorCode::LockPeriodNotMet);
    }
    let reward = match get_pending_rewards(state, staker, treasury, now) {
        Ok(v) => v,
        Err(e) => return Err(e),
    };
    if reward == 0 {
        return Ok(0);
    }
    if treasury.staking_pool < reward {
        return Err(VeraluxErrorCode::InsufficientStakingPoolFunds);
    }
    treasury.staking_pool = treasury.staking_pool - reward;
    staker.last_claim = now;
    Ok(reward)
}

/// Reward pending for a position, or 0 when the position does not exist.
pub fn query_pending_rewards(
    state: &ContractState,
    staker: Option<Staker>,
    treasury: &Treasury,
    now: i64,
) -> (r: Result<u64, VeraluxErrorCode>)
    requires
        state.wf(),
    ensures
        match staker {
            Some(st) => r == pending_rewards(st, state, *treasury, now as int),
            None => r == Ok::<u64, VeraluxErrorCode>(0),
        },
{
    match staker {
        Some(st) => get_pending_rewards(state, &st, treasury, now),
        None => Ok(0),
    }
}

} // verus!
