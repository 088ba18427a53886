use vstd::prelude::*;

use crate::constants::MAX_RECIPIENTS;
use crate::error::VeraluxErrorCode;
use crate::key::Key;
use crate::multisig::{authorized, validate_multisig};
use crate::state::{ContractState, Multisig, PoolType, Treasury};

verus! {

/// Balance of sub-pool `p`.
pub open spec fn pool_of(t: Treasury, p: PoolType) -> int {
    match p {
        PoolType::Staking => t.staking_pool as int,
        PoolType::Airdrop => t.airdrop_pool as int,
        PoolType::Governance => t.governance_reserve as int,
        PoolType::Marketing => t.marketing_fund as int,
        PoolType::Emergency => t.emergency_fund as int,
        PoolType::LiquidityIncentive => t.liquidity_incentive as int,
        PoolType::Team => t.team_pool as int,
    }
}

/// `t` with sub-pool `p` set to `v`.
pub open spec fn with_pool(t: Treasury, p: PoolType, v: u64) -> Treasury {
    match p {
        PoolType::Staking => Treasury { staking_pool: v, ..t },
        PoolType::Airdrop => Treasury { airdrop_pool: v, ..t },
        PoolType::Governance => Treasury { governance_reserve: v, ..t },
        PoolType::Marketing => Treasury { marketing_fund: v, ..t },
        PoolType::Emergency => Treasury { emergency_fund: v, ..t },
        PoolType::LiquidityIncentive => Treasury { liquidity_incentive: v, ..t },
        PoolType::Team => Treasury { team_pool: v, ..t },
    }
}

proof fn lemma_with_pool(t: Treasury, p: PoolType, v: u64)
    ensures
        pool_of(with_pool(t, p, v), p) == v,
        forall|q: PoolType| q != p ==> #[trigger] pool_of(with_pool(t, p, v), q) == pool_of(t, q),
        total_value(with_pool(t, p, v)) == total_value(t) - pool_of(t, p) + v,
{
}

/// Value held across all seven sub-pools.
pub open spec fn total_value(t: Treasury) -> int {
    t.staking_pool + t.airdrop_pool + t.governance_reserve + t.marketing_fund + t.emergency_fund
        + t.liquidity_incentive + t.team_pool
}

/// The error for a debit that `p` cannot cover.
pub open spec fn insufficient(p: PoolType) -> VeraluxErrorCode {
    match p {
        PoolType::Staking => VeraluxErrorCode::InsufficientStakingPoolFunds,
        PoolType::Airdrop => VeraluxErrorCode::InsufficientAirdropFunds,
        PoolType::LiquidityIncentive => VeraluxErrorCode::InsufficientLiquidityIncentiveFunds,
        _ => VeraluxErrorCode::InsufficientPoolFunds,
    }
}

impl Treasury {
    /// The initial balances of the sub-pools.
    pub open spec fn initial_spec() -> Treasury {
        Treasury {
            staking_pool: 198_000_000_000_000_000,
            airdrop_pool: 52_800_000_000_000_000,
            governance_reserve: 105_600_000_000_000_000,
            marketing_fund: 118_800_000_000_000_000,
            emergency_fund: 33_000_000_000_000_000,
            liquidity_incentive: 0,
            team_pool: 118_800_000_000_000_000,
        }
    }

    /// The initial split of the treasury reserve: 30% staking, 8% airdrop, 16%
    /// governance, 18% marketing, 5% emergency, 18% team, nothing for LP incentives.
    pub fn initial() -> (r: Treasury)
        ensures
            r == Treasury::initial_spec(),
    {
        Treasury {
            staking_pool: 198_000_000_000_000_000,
            airdrop_pool: 52_800_000_000_000_000,
            governance_reserve: 105_600_000_000_000_000,
            marketing_fund: 118_800_000_000_000_000,
            emergency_fund: 33_000_000_000_000_000,
            liquidity_incentive: 0,
            team_pool: 118_800_000_000_000_000,
        }
    }

    /// Balance of sub-pool `pool`.
    pub fn balance(&self, pool: PoolType) -> (r: u64)
        ensures
            r == pool_of(*self, pool),
    {
        match pool {
            PoolType::Staking => self.staking_pool,
            PoolType::Airdrop => self.airdrop_pool,
            PoolType::Governance => self.governance_reserve,
            PoolType::Marketing => self.marketing_fund,
            PoolType::Emergency => self.emergency_fund,
            PoolType::LiquidityIncentive => self.liquidity_incentive,
            PoolType::Team => self.team_pool,
        }
    }

    fn set_balance(&mut self, pool: PoolType, v: u64)
        ensures
            *final(self) == with_pool(*old(self), pool, v),
    {
        match pool {
            PoolType::Staking => self.staking_pool = v,
            PoolType::Airdrop => self.airdrop_pool = v,
            PoolType::Governance => self.governance_reserve = v,
            PoolType::Marketing => self.marketing_fund = v,
            PoolType::Emergency => self.emergency_fund = v,
            PoolType::LiquidityIncentive => self.liquidity_incentive = v,
            PoolType::Team => self.team_pool = v,
        }
    }

    /// Adds `amount` to sub-pool `pool`, or fails with no change when the balance
    /// would overflow.
    pub fn credit(&mut self, pool: PoolType, amount: u64) -> (r: Result<(), VeraluxErrorCode>)
        ensures
            pool_of(*old(self), pool) + amount <= u64::MAX ==> r is Ok && *final(self) == with_pool(
                *old(self),
                pool,
                (pool_of(*old(self), pool) + amount) as u64,
            ),
            pool_of(*old(self), pool) + amount > u64::MAX ==> r == Err::<(), VeraluxErrorCode>(
                VeraluxErrorCode::ArithmeticOverflow,
            ) && *final(self) == *old(self),
    {
        match self.balance(pool).checked_add(amount) {
            Some(v) => {
                self.set_balance(pool, v);
                Ok(())
            },
            None => Err(VeraluxErrorCode::ArithmeticOverflow),
        }
    }

    /// Takes `amount` from sub-pool `pool`, or fails with no change when the pool
    /// holds less.
    pub fn debit(&mut self, pool: PoolType, amount: u64) -> (r: Result<(), VeraluxErrorCode>)
        ensures
            amount <= pool_of(*old(self), pool) ==> r is Ok && *final(self) == with_pool(
                *old(self),
                pool,
                (pool_of(*old(self), pool) - amount) as u64,
            ),
            amount > pool_of(*old(self), pool) ==> r == Err::<(), VeraluxErrorCode>(
                insufficient(pool),
            ) && *final(self) == *old(self),
    {
        let b = self.balance(pool);
        if amount > b {
            return Err(
                match pool {
                    PoolType::Staking => VeraluxErrorCode::InsufficientStakingPoolFunds,
                    PoolType::Airdrop => VeraluxErrorCode::InsufficientAirdropFunds,
                    PoolType::LiquidityIncentive =>
                        VeraluxErrorCode::InsufficientLiquidityIncentiveFunds,
                    _ => VeraluxErrorCode::InsufficientPoolFunds,
                },
            );
        }
        self.set_balance(pool, b - amount);
        Ok(())
    }
}

/// Why moving `amount` from `src` to `dst` in `t` fails, if it does.
pub open spec fn pool_move_error(t: Treasury, src: PoolType, dst: PoolType, amount: int) -> Option<
    VeraluxErrorCode,
> {
    if amount > pool_of(t, src) {
        Some(insufficient(src))
    } else if src != dst && pool_of(t, dst) + amount > u64::MAX {
        Some(VeraluxErrorCode::ArithmeticOverflow)
    } else {
        None
    }
}

/// `t` after moving `amount` from `src` to `dst`.
pub open spec fn pools_moved(t: Treasury, src: PoolType, dst: PoolType, amount: int) -> Treasury {
    let after_debit = with_pool(t, src, (pool_of(t, src) - amount) as u64);
    with_pool(after_debit, dst, (pool_of(after_debit, dst) + amount) as u64)
}

/// A move between two distinct sub-pools that can be made debits the source and
/// credits the destination by exactly `amount`, and leaves the other five pools
/// and the total value unchanged.
pub proof fn lemma_pool_move_conserves(t: Treasury, src: PoolType, dst: PoolType, amount: int)
    requires
        pool_move_error(t, src, dst, amount) is None,
        src != dst,
        amount >= 0,
    ensures
        pool_of(pools_moved(t, src, dst, amount), src) == pool_of(t, src) - amount,
        pool_of(pools_moved(t, src, dst, amount), dst) == pool_of(t, dst) + amount,
        forall|q: PoolType|
            q != src && q != dst ==> #[trigger] pool_of(pools_moved(t, src, dst, amount), q)
                == pool_of(t, q),
        total_value(pools_moved(t, src, dst, amount)) == total_value(t),
{
    let t1 = with_pool(t, src, (pool_of(t, src) - amount) as u64);
    lemma_with_pool(t, src, (pool_of(t, src) - amount) as u64);
    lemma_with_pool(t1, dst, (pool_of(t1, dst) + amount) as u64);
}

/// Moves `amount` between two sub-pools, all or nothing.
pub fn move_between_pools(treasury: &mut Treasury, src: PoolType, dst: PoolType, amount: u64) -> (r:
    Result<(), VeraluxErrorCode>)
    ensures
        match pool_move_error(*old(treasury), src, dst, amount as int) {
            Some(e) => r == Err::<(), VeraluxErrorCode>(e) && *final(treasury) == *old(treasury),
            None => r is Ok && *final(treasury) == pools_moved(
                *old(treasury),
                src,
                dst,
                amount as int,
            ),
        },
        r is Ok ==> total_value(*final(treasury)) == total_value(*old(treasury)),
        r is Ok && src != dst ==> pool_of(*final(treasury), src) == pool_of(*old(treasury), src)
            - amount && pool_of(*final(treasury), dst) == pool_of(*old(treasury), dst) + amount,
{
    let t0 = *treasury;
    let mut t = *treasury;
    match t.debit(src, amount) {
        Ok(()) => {},
        Err(e) => return Err(e),
    }
    let t1 = t;
    proof {
        lemma_with_pool(t0, src, (pool_of(t0, src) - amount) as u64);
    }
    match t.credit(dst, amount) {
        Ok(()) => {},
        Err(e) => return Err(e),
    }
    proof {
        lemma_with_pool(t1, dst, (pool_of(t1, dst) + amount) as u64);
    }
    *treasury = t;
    Ok(())
}

/// Moves `amount` between two treasury sub-pools on the owners' authority. The
/// move is atomic: either the source is debited and the destination credited by
/// exactly `amount`, or neither changes; the total across the pools is kept.
pub fn transfer_between_pools(
    state: &ContractState,
    treasury: &mut Treasury,
    multisig: &Multisig,
    signers: &Vec<Option<Key>>,
    source_pool: PoolType,
    dest_pool: PoolType,
    amount: u64,
) -> (r: Result<(), VeraluxErrorCode>)
    ensures
        state.is_processing ==> r == Err::<(), VeraluxErrorCode>(
            VeraluxErrorCode::ReentrancyGuardTriggered,
        ),
        !state.is_processing && state.paused ==> r == Err::<(), VeraluxErrorCode>(
            VeraluxErrorCode::Paused,
        ),
        !state.is_processing && !state.paused && authorized(multisig, signers@) is Err ==> r
            == authorized(multisig, signers@),
        !state.is_processing && !state.paused && authorized(multisig, signers@) is Ok ==> match
            pool_move_error(*old(treasury), source_pool, dest_pool, amount as int) {
            Some(e) => r == Err::<(), VeraluxErrorCode>(e),
            None => r is Ok && *final(treasury) == pools_moved(
                *old(treasury),
                source_pool,
                dest_pool,
                amount as int,
            ),
        },
        r is Err ==> *final(treasury) == *old(treasury),
        r is Ok ==> total_value(*final(treasury)) == total_value(*old(treasury)),
        r is Ok && source_pool != dest_pool ==> pool_of(*final(treasury), source_pool) == pool_of(
            *old(treasury),
            source_pool,
        ) - amount && pool_of(*final(treasury), dest_pool) == pool_of(*old(treasury), dest_pool)
            + amount,
{
    if state.is_processing {
        return Err(VeraluxErrorCode::ReentrancyGuardTriggered);
    }
    if state.paused {
        return Err(VeraluxErrorCode::Paused);
    }
    match validate_multisig(multisig, signers) {
        Ok(()) => {},
        Err(e) => return Err(e),
    }
    move_between_pools(treasury, source_pool, dest_pool, amount)
}

/// Sum of the amounts of a payout list.
pub open spec fn payout_total(s: Seq<(Key, u64)>) -> int
    decreases s.len(),
{
    if s.len() == 0 {
        0
    } else {
        payout_total(s.drop_last()) + s.last().1
    }
}

/// Sum of the amounts of `payouts`, or `None` when it exceeds `u64`.
pub fn checked_payout_total(payouts: &Vec<(Key, u64)>) -> (r: Option<u64>)
    ensures
        match r {
            Some(t) => t == payout_total(payouts@),
            None => payout_total(payouts@) > u64::MAX,
        },
{
    let mut total: u64 = 0;
    let mut i: usize = 0;
    while i < payouts.len()
        invariant
            i <= payouts.len(),
            total == payout_total(payouts@.subrange(0, i as int)),
        decreases payouts.len() - i,
    {
        assert(payouts@.subrange(0, i + 1).drop_last() =~= payouts@.subrange(0, i as int));
        match total.checked_add(payouts[i].1) {
            Some(v) => total = v,
            None => {
                proof {
                    lemma_payout_total_prefix(payouts@, i + 1);
                }
                return None;
            },
        }
        i = i + 1;
    }
    assert(payouts@.subrange(0, payouts@.len() as int) =~= payouts@);
    Some(total)
}

proof fn lemma_payout_total_prefix(s: Seq<(Key, u64)>, n: int)
    requires
        0 <= n <= s.len(),
    ensures
        payout_total(s.subrange(0, n)) <= payout_total(s),
    decreases s.len(),
{
    if n < s.len() {
        assert(s.drop_last().subrange(0, n) =~= s.subrange(0, n));
        lemma_payout_total_prefix(s.drop_last(), n);
    } else {
        assert(s.subrange(0, n) =~= s);
    }
}

/// Whether each recipient account is owned by the matching recipient.
pub open spec fn owners_match(payouts: Seq<(Key, u64)>, account_owners: Seq<Key>) -> bool {
    forall|i: int| 0 <= i < payouts.len() ==> #[trigger] account_owners[i] == payouts[i].0
}

/// The first reason, in the order checked, for which a payout from sub-pool `pool`
/// fails.
pub open spec fn payout_failure(
    s: &ContractState,
    t: Treasury,
    m: &Multisig,
    signers: Seq<Option<Key>>,
    payouts: Seq<(Key, u64)>,
    account_owners: Seq<Key>,
    pool: PoolType,
    limit_first: bool,
) -> Option<VeraluxErrorCode> {
    if s.is_processing {
        Some(VeraluxErrorCode::ReentrancyGuardTriggered)
    } else if s.paused {
        Some(VeraluxErrorCode::Paused)
    } else if limit_first && payouts.len() > MAX_RECIPIENTS {
        Some(VeraluxErrorCode::TooManyRecipients)
    } else if authorized(m, signers) is Err {
        Some(authorized(m, signers)->Err_0)
    } else if !limit_first && payouts.len() > MAX_RECIPIENTS {
        Some(VeraluxErrorCode::TooManyRecipients)
    } else if account_owners.len() != payouts.len() {
        Some(VeraluxErrorCode::InvalidRecipientAccounts)
    } else if payout_total(payouts) > u64::MAX {
        Some(VeraluxErrorCode::ArithmeticOverflow)
    } else if payout_total(payouts) > pool_of(t, pool) {
        Some(insufficient(pool))
    } else if !owners_match(payouts, account_owners) {
        Some(VeraluxErrorCode::InvalidRecipientAccount)
    } else {
        None
    }
}

fn check_owners(payouts: &Vec<(Key, u64)>, account_owners: &Vec<Key>) -> (r: bool)
    requires
        payouts@.len() == account_owners@.len(),
    ensures
        r == owners_match(payouts@, account_owners@),
{
    let mut i: usize = 0;
    while i < payouts.len()
        invariant
            i <= payouts.len(),
            payouts@.len() == account_owners@.len(),
            forall|j: int| 0 <= j < i ==> #[trigger] account_owners@[j] == payouts@[j].0,
        decreases payouts.len() - i,
    {
        if account_owners[i] != payouts[i].0 {
            return false;
        }
        i = i + 1;
    }
    true
}

fn pay_out(
    state: &ContractState,
    treasury: &mut Treasury,
    multisig: &Multisig,
    signers: &Vec<Option<Key>>,
    payouts: &Vec<(Key, u64)>,
    account_owners: &Vec<Key>,
    pool: PoolType,
    limit_first: bool,
) -> (r: Result<u64, VeraluxErrorCode>)
    ensures
        match payout_failure(
            state,
            *old(treasury),
            multisig,
            signers@,
            payouts@,
            account_owners@,
            pool,
            limit_first,
        ) {
            Some(e) => r == Err::<u64, VeraluxErrorCode>(e) && *final(treasury) == *old(treasury),
            None => r == Ok::<u64, VeraluxErrorCode>(payout_total(payouts@) as u64) && *final(treasury) == with_pool(
                *old(treasury),
                pool,
                (pool_of(*old(treasury), pool) - payout_total(payouts@)) as u64,
            ),
        },
{
    if state.is_processing {
        return Err(VeraluxErrorCode::ReentrancyGuardTriggered);
    }
    if state.paused {
        return Err(VeraluxErrorCode::Paused);
    }
    if limit_first && payouts.len() > MAX_RECIPIENTS {
        return Err(VeraluxErrorCode::TooManyRecipients);
    }
    match validate_multisig(multisig, signers) {
        Ok(()) => {},
        Err(e) => return Err(e),
    }
    if payouts.len() > MAX_RECIPIENTS {
        return Err(VeraluxErrorCode::TooManyRecipients);
    }
    if account_owners.len() != payouts.len() {
        return Err(VeraluxErrorCode::InvalidRecipientAccounts);
    }
    let total = match checked_payout_total(payouts) {
        Some(t) => t,
        None => return Err(VeraluxErrorCode::ArithmeticOverflow),
    };
    let available = treasury.balance(pool);
    if total > available {
        return Err(
            match pool {
                PoolType::Staking => VeraluxErrorCode::InsufficientStakingPoolFunds,
                PoolType::Airdrop => VeraluxErrorCode::InsufficientAirdropFunds,
                PoolType::LiquidityIncentive => VeraluxErrorCode::InsufficientLiquidityIncentiveFunds,
                _ => VeraluxErrorCode::InsufficientPoolFunds,
            },
        );
    }
    if !check_owners(payouts, account_owners) {
        return Err(VeraluxErrorCode::InvalidRecipientAccount);
    }
    match treasury.debit(pool, total) {
        Ok(()) => {},
        Err(e) => return Err(e),
    }
    Ok(total)
}

/// Pays airdrop winners (at most 100) out of the airdrop sub-pool on the owners'
/// authority; `account_owners[i]` is the owner of the account that receives
/// `winners[i]`. Returns the total paid. On failure nothing changes.
pub fn airdrop(
    state: &ContractState,
    treasury: &mut Treasury,
    multisig: &Multisig,
    signers: &Vec<Option<Key>>,
    winners: &Vec<(Key, u64)>,
    account_owners: &Vec<Key>,
) -> (r: Result<u64, VeraluxErrorCode>)
    ensures
        match payout_failure(
            state,
            *old(treasury),
            multisig,
            signers@,
            winners@,
            account_owners@,
            PoolType::Airdrop,
            true,
        ) {
            Some(e) => r == Err::<u64, VeraluxErrorCode>(e) && *final(treasury) == *old(treasury),
            None => r == Ok::<u64, VeraluxErrorCode>(payout_total(winners@) as u64) && *final(treasury) == (Treasury {
                airdrop_pool: (old(treasury).airdrop_pool - payout_total(winners@)) as u64,
                ..*old(treasury)
            }),
        },
{
    pay_out(state, treasury, multisig, signers, winners, account_owners, PoolType::Airdrop, true)
}

/// Pays LP incentives directly to recipients (at most 100) out of the LP-incentive
/// sub-pool on the owners' authority. Returns the total paid. On failure nothing
/// changes.
pub fn distribute_lp_incentives(
    state: &ContractState,
    treasury: &mut Treasury,
    multisig: &Multisig,
    signers: &Vec<Option<Key>>,
    recipients: &Vec<(Key, u64)>,
    account_owners: &Vec<Key>,
) -> (r: Result<u64, VeraluxErrorCode>)
    ensures
        match payout_failure(
            state,
            *old(treasury),
            multisig,
            signers@,
            recipients@,
            account_owners@,
            PoolType::LiquidityIncentive,
            false,
        ) {
            Some(e) => r == Err::<u64, VeraluxErrorCode>(e) && *final(treasury) == *old(treasury),
            None => r == Ok::<u64, VeraluxErrorCode>(payout_total(recipients@) as u64) && *final(treasury) == (Treasury {
                liquidity_incentive: (old(treasury).liquidity_incentive - payout_total(
                    recipients@,
                )) as u64,
                ..*old(treasury)
            }),
        },
{
    pay_out(
        state,
        treasury,
        multisig,
        signers,
        recipients,
        account_owners,
        PoolType::LiquidityIncentive,
        false,
    )
}

} // verus!
