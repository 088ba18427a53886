use vstd::prelude::*;

use crate::constants::{TRANSACTION_TRACKING_THRESHOLD, TXN_COOLDOWN};
use crate::error::VeraluxErrorCode;
use crate::key::{contains_key, key_in, Key};
use crate::math::{ceil_bps, elapsed, fits_i64, mul_bps_ceil};
use crate::ratelimit::{
    advance_buckets, daily_error, max_txn_error, record_volume, ring, rotated_bucket,
    rotated_index, rotated_ring, rotated_start, rotation_overflows, window_sum,
};
use crate::state::{ContractState, TransactionRecord, Treasury, WhitelistEntry};

verus! {

/// The amounts moved by a taxed transfer.
#[derive(Clone, Copy, Debug, PartialEq, Eq, Structural)]
pub struct TransferOutcome {
    /// Whether the recipient is an exchange program.
    pub is_sell: bool,
    pub tax: u64,
    /// Destroyed.
    pub burn: u64,
    /// Credited to the staking sub-pool.
    pub treasury_tax: u64,
    /// Sent to the liquidity-pool account.
    pub liquidity_pool_tax: u64,
    /// Credited to the LP-incentive sub-pool.
    pub lp_incentive_tax: u64,
    /// Sent to the charity account.
    pub charity_tax: u64,
    /// Credited to the team sub-pool and sent to the team account.
    pub team_tax: u64,
    /// What reaches the recipient: `amount - tax`.
    pub net_amount: u64,
}

/// Whether some whitelist entry names `k`.
pub open spec fn whitelisted(s: Seq<WhitelistEntry>, k: Key) -> bool {
    exists|i: int| 0 <= i < s.len() && s[i].contract == k
}

/// The first whitelist entry that names `k`.
pub open spec fn find_entry(s: Seq<WhitelistEntry>, k: Key) -> Option<WhitelistEntry>
    decreases s.len(),
{
    if s.len() == 0 {
        None
    } else if s[0].contract == k {
        Some(s[0])
    } else {
        find_entry(s.drop_first(), k)
    }
}

/// Rate (basis points) applied to a transfer: half for a whitelisted recipient,
/// triple at or above the progressive threshold, else the base rate.
pub open spec fn applicable_rate(s: &ContractState, is_whitelisted: bool, amount: int) -> int {
    if is_whitelisted {
        s.tax_rate as int / 2
    } else if amount >= s.progressive_tax_threshold {
        s.tax_rate * 3
    } else {
        s.tax_rate as int
    }
}

/// The outcome of taxing `amount` at `rate` under the allocations of `s`.
pub open spec fn taxed(s: &ContractState, amount: int, rate: int, is_sell: bool) -> TransferOutcome {
    let tax = ceil_bps(amount, rate);
    TransferOutcome {
        is_sell,
        tax: tax as u64,
        burn: ceil_bps(tax, s.burn_alloc as int) as u64,
        treasury_tax: ceil_bps(tax, s.treasury_alloc as int) as u64,
        liquidity_pool_tax: ceil_bps(tax, s.liquidity_pool_alloc as int) as u64,
        lp_incentive_tax: ceil_bps(tax, s.lp_incentive_alloc as int) as u64,
        charity_tax: ceil_bps(tax, s.charity_alloc as int) as u64,
        team_tax: ceil_bps(tax, s.team_alloc as int) as u64,
        net_amount: (amount - tax) as u64,
    }
}

/// Whether the sub-pool credits of `o` fit in `t`.
pub open spec fn credits_fit(t: Treasury, o: TransferOutcome) -> bool {
    &&& t.staking_pool + o.treasury_tax <= u64::MAX
    &&& t.liquidity_incentive + o.lp_incentive_tax <= u64::MAX
    &&& t.team_pool + o.team_tax <= u64::MAX
}

/// `t` after the sub-pool credits of `o`.
pub open spec fn credited(t: Treasury, o: TransferOutcome) -> Treasury {
    Treasury {
        staking_pool: (t.staking_pool + o.treasury_tax) as u64,
        liquidity_incentive: (t.liquidity_incentive + o.lp_incentive_tax) as u64,
        team_pool: (t.team_pool + o.team_tax) as u64,
        ..t
    }
}

/// Tests whether some whitelist entry names `k`.
pub fn is_whitelisted(v: &Vec<WhitelistEntry>, k: &Key) -> (r: bool)
    ensures
        r == whitelisted(v@, *k),
{
    let mut i: usize = 0;
    while i < v.len()
        invariant
            i <= v.len(),
            forall|j: int| 0 <= j < i ==> v@[j].contract != *k,
        decreases v.len() - i,
    {
        if v[i].contract == *k {
            return true;
        }
        i = i + 1;
    }
    false
}

/// The first whitelist entry that names `k`, if any.
pub fn whitelist_entry(v: &Vec<WhitelistEntry>, k: &Key) -> (r: Option<WhitelistEntry>)
    ensures
        r == find_entry(v@, *k),
{
    let mut i: usize = 0;
    assert(v@.subrange(0, v@.len() as int) =~= v@);
    while i < v.len()
        invariant
            i <= v.len(),
            find_entry(v@, *k) == find_entry(v@.subrange(i as int, v@.len() as int), *k),
        decreases v.len() - i,
    {
        let ghost rest = v@.subrange(i as int, v@.len() as int);
        if v[i].contract == *k {
            return Some(v[i]);
        }
        assert(rest.drop_first() =~= v@.subrange(i + 1, v@.len() as int));
        i = i + 1;
    }
    assert(v@.subrange(i as int, v@.len() as int) =~= Seq::<WhitelistEntry>::empty());
    None
}

/// Splits `amount` taxed at `rate` into its parts, each allocation rounded up on its own.
pub fn tax_outcome(state: &ContractState, amount: u64, rate: u64, is_sell: bool) -> (r:
    TransferOutcome)
    requires
        state.wf(),
        rate <= 10000,
    ensures
        r == taxed(state, amount as int, rate as int, is_sell),
        r.tax <= amount,
{
    let tax = mul_bps_ceil(amount, rate);
    TransferOutcome {
        is_sell,
        tax,
        burn: mul_bps_ceil(tax, state.burn_alloc),
        treasury_tax: mul_bps_ceil(tax, state.treasury_alloc),
        liquidity_pool_tax: mul_bps_ceil(tax, state.liquidity_pool_alloc),
        lp_incentive_tax: mul_bps_ceil(tax, state.lp_incentive_alloc),
        charity_tax: mul_bps_ceil(tax, state.charity_alloc),
        team_tax: mul_bps_ceil(tax, state.team_alloc),
        net_amount: amount - tax,
    }
}

/// Credits the sub-pool parts of a taxed transfer to the treasury, or changes
/// nothing when one of them would overflow.
pub fn credit_tax(treasury: &mut Treasury, o: &TransferOutcome) -> (r: Result<(), VeraluxErrorCode>)
    ensures
        credits_fit(*old(treasury), *o) ==> r is Ok && *final(treasury) == credited(
            *old(treasury),
            *o,
        ),
        !credits_fit(*old(treasury), *o) ==> r == Err::<(), VeraluxErrorCode>(
            VeraluxErrorCode::ArithmeticOverflow,
        ) && *final(treasury) == *old(treasury),
{
    let staking = match treasury.staking_pool.checked_add(o.treasury_tax) {
        Some(v) => v,
        None => return Err(VeraluxErrorCode::ArithmeticOverflow),
    };
    let incentive = match treasury.liquidity_incentive.checked_add(o.lp_incentive_tax) {
        Some(v) => v,
        None => return Err(VeraluxErrorCode::ArithmeticOverflow),
    };
    let team = match treasury.team_pool.checked_add(o.team_tax) {
        Some(v) => v,
        None => return Err(VeraluxErrorCode::ArithmeticOverflow),
    };
    treasury.staking_pool = staking;
    treasury.liquidity_incentive = incentive;
    treasury.team_pool = team;
    Ok(())
}

pub open spec fn max_limit(s: &ContractState, is_sell: bool) -> u64 {
    if is_sell {
        s.max_sell_txn_limit
    } else {
        s.max_transfer_limit
    }
}

pub open spec fn daily_limit(s: &ContractState, is_sell: bool) -> u64 {
    if is_sell {
        s.daily_sell_limit
    } else {
        s.daily_transfer_limit
    }
}

/// The outcome a plain transfer owes when it succeeds.
pub open spec fn transfer_outcome(s: &ContractState, recipient: Key, amount: int) -> TransferOutcome {
    let is_sell = key_in(s.dex_programs@, recipient);
    let rate = applicable_rate(s, whitelisted(s.whitelisted_contracts@, recipient), amount);
    taxed(s, amount, rate, is_sell)
}

/// The first reason, in the order checked, for which a plain transfer fails.
pub open spec fn transfer_failure(
    s: &ContractState,
    t: Treasury,
    rec: TransactionRecord,
    sender: Key,
    sender_account_owner: Key,
    recipient: Key,
    amount: int,
    now: int,
) -> Option<VeraluxErrorCode> {
    let is_sell = key_in(s.dex_programs@, recipient);
    let o = transfer_outcome(s, recipient, amount);
    if s.is_processing {
        Some(VeraluxErrorCode::ReentrancyGuardTriggered)
    } else if s.paused && amount != 0 {
        Some(VeraluxErrorCode::Paused)
    } else if sender != sender_account_owner {
        Some(VeraluxErrorCode::UnauthorizedSender)
    } else if !fits_i64(now - rec.last_txn_time) {
        Some(VeraluxErrorCode::ArithmeticOverflow)
    } else if now - rec.last_txn_time < TXN_COOLDOWN {
        Some(VeraluxErrorCode::CooldownActive)
    } else if rotation_overflows(rec, now) {
        Some(VeraluxErrorCode::ArithmeticOverflow)
    } else if amount > max_limit(s, is_sell) {
        Some(max_txn_error(is_sell))
    } else if window_sum(rotated_ring(rec, now, is_sell)) + amount > daily_limit(s, is_sell) {
        Some(daily_error(is_sell))
    } else if o.tax >= amount {
        Some(VeraluxErrorCode::AmountTooSmallAfterTax)
    } else if !credits_fit(t, o) {
        Some(VeraluxErrorCode::ArithmeticOverflow)
    } else {
        None
    }
}

/// Whether `new` is the volume record after an accepted transfer of `amount` at
/// `now`: rotated, the amount added to the current bucket of its kind, the time
/// stamped, and a large transfer starting its kind's cooldown marker if unset.
pub open spec fn transfer_recorded(
    old: TransactionRecord,
    new: TransactionRecord,
    is_sell: bool,
    amount: int,
    now: int,
) -> bool {
    let i = rotated_index(old, now);
    let large = amount >= TRANSACTION_TRACKING_THRESHOLD;
    &&& new.current_bucket_index == i
    &&& new.bucket_start_time == rotated_start(old, now)
    &&& ring(new, is_sell) == rotated_ring(old, now, is_sell).update(
        i,
        (rotated_bucket(old, now, is_sell, i) + amount) as u64,
    )
    &&& ring(new, !is_sell) == rotated_ring(old, now, !is_sell)
    &&& new.last_txn_time == now
    &&& new.sell_cooldown_start == (if large && is_sell && old.sell_cooldown_start == 0 {
        now
    } else {
        old.sell_cooldown_start as int
    })
    &&& new.transfer_cooldown_start == (if large && !is_sell && old.transfer_cooldown_start
        == 0 {
        now
    } else {
        old.transfer_cooldown_start as int
    })
}

/// A transfer of `amount` from `sender` to the account owned by `recipient`, rate
/// limited through the sender's volume record and taxed. On success the sub-pool
/// parts of the tax are credited to the treasury and the record is updated; the
/// returned outcome says what the value-transfer primitive must move. On failure
/// nothing changes.
pub fn transfer(
    state: &ContractState,
    treasury: &mut Treasury,
    record: &mut TransactionRecord,
    sender: Key,
    sender_account_owner: Key,
    recipient: Key,
    amount: u64,
    now: i64,
) -> (r: Result<TransferOutcome, VeraluxErrorCode>)
    requires
        state.wf(),
        old(record).wf(),
    ensures
        final(record).wf(),
        match transfer_failure(
            state,
            *old(treasury),
            *old(record),
            sender,
            sender_account_owner,
            recipient,
            amount as int,
            now as int,
        ) {
            Some(e) => r == Err::<TransferOutcome, VeraluxErrorCode>(e) && *final(treasury) == *old(treasury) && *final(record) == *old(record),
            None => {
                let o = transfer_outcome(state, recipient, amount as int);
                &&& r == Ok::<TransferOutcome, VeraluxErrorCode>(o)
                &&& *final(treasury) == credited(*old(treasury), o)
                &&& transfer_recorded(*old(record), *final(record), o.is_sell, amount as int, now as int)
            },
        },
        r is Ok ==> window_sum(ring(*final(record), r->Ok_0.is_sell)) <= daily_limit(
            state,
            r->Ok_0.is_sell,
        ),
{
    if state.is_processing {
        return Err(VeraluxErrorCode::ReentrancyGuardTriggered);
    }
    if state.paused && amount != 0 {
        return Err(VeraluxErrorCode::Paused);
    }
    if sender != sender_account_owner {
        return Err(VeraluxErrorCode::UnauthorizedSender);
    }
    let since_last = match elapsed(now, record.last_txn_time) {
        Ok(d) => d,
        Err(e) => return Err(e),
    };
    if since_last < TXN_COOLDOWN {
        return Err(VeraluxErrorCode::CooldownActive);
    }
    let is_sell = contains_key(&state.dex_programs, &recipient);
    let mut rec = *record;
    match advance_buckets(&mut rec, now) {
        Ok(()) => {},
        Err(e) => return Err(e),
    }
    proof {
        assert(ring(rec, is_sell) =~= rotated_ring(*old(record), now as int, is_sell));
        assert(ring(rec, !is_sell) =~= rotated_ring(*old(record), now as int, !is_sell));
    }
    let (max_txn, limit) = if is_sell {
        (state.max_sell_txn_limit, state.daily_sell_limit)
    } else {
        (state.max_transfer_limit, state.daily_transfer_limit)
    };
    match record_volume(&mut rec, is_sell, amount, max_txn, limit) {
        Ok(()) => {},
        Err(e) => return Err(e),
    }
    let whitelisted_recipient = is_whitelisted(&state.whitelisted_contracts, &recipient);
    let rate = if whitelisted_recipient {
        state.tax_rate / 2
    } else if amount >= state.progressive_tax_threshold {
        state.tax_rate * 3
    } else {
        state.tax_rate
    };
    let o = tax_outcome(state, amount, rate, is_sell);
    if o.tax >= amount {
        return Err(VeraluxErrorCode::AmountTooSmallAfterTax);
    }
    match credit_tax(treasury, &o) {
        Ok(()) => {},
        Err(e) => return Err(e),
    }
    rec.last_txn_time = now;
    if amount >= TRANSACTION_TRACKING_THRESHOLD {
        if is_sell && rec.sell_cooldown_start == 0 {
            rec.sell_cooldown_start = now;
        } else if !is_sell && rec.transfer_cooldown_start == 0 {
            rec.transfer_cooldown_start = now;
        }
    }
    *record = rec;
    Ok(o)
}

/// The first reason, in the order checked, for which a transfer on behalf of a
/// whitelisted program fails.
pub open spec fn whitelisted_transfer_failure(
    s: &ContractState,
    t: Treasury,
    caller_program: Key,
    recipient: Key,
    amount: int,
) -> Option<VeraluxErrorCode> {
    let o = taxed(s, amount, s.tax_rate as int / 2, false);
    let entry = find_entry(s.whitelisted_contracts@, caller_program);
    if s.is_processing {
        Some(VeraluxErrorCode::ReentrancyGuardTriggered)
    } else if s.paused {
        Some(VeraluxErrorCode::Paused)
    } else if entry is None {
        Some(VeraluxErrorCode::CallerNotWhitelisted)
    } else if !key_in(s.allowed_destinations@, recipient) {
        Some(VeraluxErrorCode::InvalidDestination)
    } else if entry.unwrap().version_hash != caller_program {
        Some(VeraluxErrorCode::VersionMismatch)
    } else if o.tax >= amount {
        Some(VeraluxErrorCode::AmountTooSmallAfterTax)
    } else if !credits_fit(t, o) {
        Some(VeraluxErrorCode::ArithmeticOverflow)
    } else {
        None
    }
}

/// A transfer made on behalf of a whitelisted program to an allowed destination,
/// taxed at half the base rate and not rate limited. The program's entry must carry
/// the program's own key as its version hash. On success the sub-pool parts of the
/// tax are credited; on failure nothing changes.
pub fn whitelisted_transfer(
    state: &ContractState,
    treasury: &mut Treasury,
    caller_program: Key,
    recipient: Key,
    amount: u64,
) -> (r: Result<TransferOutcome, VeraluxErrorCode>)
    requires
        state.wf(),
    ensures
        match whitelisted_transfer_failure(
            state,
            *old(treasury),
            caller_program,
            recipient,
            amount as int,
        ) {
            Some(e) => r == Err::<TransferOutcome, VeraluxErrorCode>(e) && *final(treasury) == *old(treasury),
            None => {
                let o = taxed(state, amount as int, state.tax_rate as int / 2, false);
                &&& r == Ok::<TransferOutcome, VeraluxErrorCode>(o)
                &&& *final(treasury) == credited(*old(treasury), o)
            },
        },
{
    if state.is_processing {
        return Err(VeraluxErrorCode::ReentrancyGuardTriggered);
    }
    if state.paused {
        return Err(VeraluxErrorCode::Paused);
    }
    let entry = match whitelist_entry(&state.whitelisted_contracts, &caller_program) {
        Some(e) => e,
        None => return Err(VeraluxErrorCode::CallerNotWhitelisted),
    };
    if !contains_key(&state.allowed_destinations, &recipient) {
        return Err(VeraluxErrorCode::InvalidDestination);
    }
    if entry.version_hash != caller_program {
        return Err(VeraluxErrorCode::VersionMismatch);
    }
    let o = tax_outcome(state, amount, state.tax_rate / 2, false);
    if o.tax >= amount {
        return Err(VeraluxErrorCode::AmountTooSmallAfterTax);
    }
    match credit_tax(treasury, &o) {
        Ok(()) => {},
        Err(e) => return Err(e),
    }
    Ok(o)
}

} // verus!
