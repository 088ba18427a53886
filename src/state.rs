use vstd::prelude::*;

use crate::constants::{BPS, HOURS_PER_WINDOW, MAX_DEXES, MAX_WHITELISTED};
use crate::key::Key;

verus! {

/// The seven sub-pools of the treasury.
#[derive(Clone, Copy, Debug, PartialEq, Eq, Structural)]
pub enum PoolType {
    Staking,
    Airdrop,
    Governance,
    Marketing,
    Emergency,
    LiquidityIncentive,
    Team,
}

/// A whitelisted external program together with the version hash recorded for it.
#[derive(Clone, Copy, Debug, PartialEq, Eq, Structural)]
pub struct WhitelistEntry {
    pub contract: Key,
    pub version_hash: Key,
}

/// The global policy state of the ledger.
pub struct ContractState {
    /// Key allowed to update the wallet addresses and the launch time directly.
    pub authority: Key,
    /// Address of the owner set that administers the ledger.
    pub admin: Key,
    pub paused: bool,
    pub pause_reason: String,
    /// Address of the treasury record.
    pub treasury: Key,
    pub charity_wallet: Key,
    pub team_wallet: Key,
    pub liquidity_pool: Key,
    pub proposal_count: u64,
    pub total_voting_power: u64,
    pub launch_timestamp: i64,
    /// Base tax rate in basis points.
    pub tax_rate: u64,
    /// Minimum staked amount of each tier.
    pub staking_tiers: [u64; 4],
    pub burn_alloc: u64,
    pub treasury_alloc: u64,
    pub liquidity_pool_alloc: u64,
    pub lp_incentive_alloc: u64,
    pub charity_alloc: u64,
    pub team_alloc: u64,
    /// Ascending pool-fraction thresholds (per mille) for reward reduction.
    pub reduction_thresholds: [u64; 3],
    /// Reward factors (per mille), the first for the most depleted pool.
    pub reduction_factors: [u64; 4],
    /// Exchange programs: a transfer to one of them is a sell.
    pub dex_programs: Vec<Key>,
    pub whitelisted_contracts: Vec<WhitelistEntry>,
    pub allowed_destinations: Vec<Key>,
    pub max_sell_txn_limit: u64,
    pub daily_sell_limit: u64,
    pub max_transfer_limit: u64,
    pub daily_transfer_limit: u64,
    pub progressive_tax_threshold: u64,
    /// Weekly staking reward of each tier.
    pub staking_rewards: [u64; 4],
    pub presale_usdt_receiver: Key,
    pub presale_active: bool,
    pub total_presale_sold: u64,
    /// Start (00:00 UTC) of the last day whose LP incentives were fully processed.
    pub last_processed_day: i64,
    /// Set while a mutation is in flight.
    pub is_processing: bool,
    /// Cursor of the LP incentive batch of the day in progress.
    pub last_processed_index: u64,
    /// Incentive amount moved to the holding pool for the day in progress.
    pub lp_reward_amount: u64,
}

/// Sum of the six tax allocations.
pub open spec fn alloc_sum(s: &ContractState) -> int {
    s.burn_alloc + s.treasury_alloc + s.liquidity_pool_alloc + s.lp_incentive_alloc
        + s.charity_alloc + s.team_alloc
}

impl ContractState {
    /// The invariant kept by every operation: the allocations split the whole tax,
    /// the tax rate and reduction factors stay within their governed ranges, and the
    /// bounded lists stay within their capacity.
    pub open spec fn wf(&self) -> bool {
        &&& alloc_sum(self) == BPS as int
        &&& self.tax_rate <= 1000
        &&& forall|i: int| 0 <= i < 4 ==> #[trigger] self.reduction_factors[i] <= 2000
        &&& self.whitelisted_contracts@.len() <= MAX_WHITELISTED
        &&& self.dex_programs@.len() <= MAX_DEXES
    }

    /// Tests the invariant, for state read from storage.
    pub fn is_well_formed(&self) -> (r: bool)
        ensures
            r == self.wf(),
    {
        let total: u128 = self.burn_alloc as u128 + self.treasury_alloc as u128
            + self.liquidity_pool_alloc as u128 + self.lp_incentive_alloc as u128
            + self.charity_alloc as u128 + self.team_alloc as u128;
        let factors_ok = self.reduction_factors[0] <= 2000 && self.reduction_factors[1] <= 2000
            && self.reduction_factors[2] <= 2000 && self.reduction_factors[3] <= 2000;
        proof {
            if factors_ok {
                assert forall|i: int| 0 <= i < 4 implies #[trigger] self.reduction_factors[i] <= 2000 by {
                    if i == 0 {
                    } else if i == 1 {
                    } else if i == 2 {
                    } else {
                    }
                }
            }
        }
        total == BPS as u128 && self.tax_rate <= 1000 && factors_ok
            && self.whitelisted_contracts.len() <= MAX_WHITELISTED && self.dex_programs.len()
            <= MAX_DEXES
    }
}

/// Balances of the treasury sub-pools.
#[derive(Clone, Copy, Debug, PartialEq, Eq, Structural)]
pub struct Treasury {
    pub staking_pool: u64,
    pub airdrop_pool: u64,
    pub governance_reserve: u64,
    pub marketing_fund: u64,
    pub emergency_fund: u64,
    pub liquidity_incentive: u64,
    pub team_pool: u64,
}

/// A staker's position.
#[derive(Clone, Copy, Debug, PartialEq, Eq, Structural)]
pub struct Staker {
    /// 0 to 3, or 255 when not eligible for any tier.
    pub tier: u8,
    pub amount: u64,
    pub start_time: i64,
    pub last_claim: i64,
}

/// A liquidity provider's position.
#[derive(Clone, Copy, Debug, PartialEq, Eq, Structural)]
pub struct LPStaker {
    pub amount: u64,
    pub last_action_time: i64,
    pub unclaimed_rewards: u64,
}

/// Per-sender volume record: two rings of 24 hourly buckets.
#[derive(Clone, Copy, Debug)]
pub struct TransactionRecord {
    pub last_txn_time: i64,
    pub sell_buckets: [u64; 24],
    pub transfer_buckets: [u64; 24],
    pub current_bucket_index: u8,
    /// Start of the hour of the current bucket; 0 before the first transfer.
    pub bucket_start_time: i64,
    pub sell_cooldown_start: i64,
    pub transfer_cooldown_start: i64,
}

impl TransactionRecord {
    pub open spec fn wf(&self) -> bool {
        self.current_bucket_index < HOURS_PER_WINDOW
    }

    /// A record that has seen no transfer.
    pub fn new() -> (r: TransactionRecord)
        ensures
            r.wf(),
            r.last_txn_time == 0,
            r.bucket_start_time == 0,
            r.current_bucket_index == 0,
            r.sell_cooldown_start == 0,
            r.transfer_cooldown_start == 0,
            forall|i: int| 0 <= i < 24 ==> r.sell_buckets[i] == 0 && r.transfer_buckets[i] == 0,
    {
        TransactionRecord {
            last_txn_time: 0,
            sell_buckets: [0u64; 24],
            transfer_buckets: [0u64; 24],
            current_bucket_index: 0,
            bucket_start_time: 0,
            sell_cooldown_start: 0,
            transfer_cooldown_start: 0,
        }
    }
}

/// A governance proposal.
pub struct Proposal {
    pub id: u64,
    pub description: String,
    pub votes_for: u64,
    pub votes_against: u64,
    /// 0 pending, 1 approved, 2 rejected.
    pub status: u8,
    pub start_time: i64,
    pub end_time: i64,
    pub execution_time: i64,
    /// Which policy change the proposal carries (0 to 11).
    pub proposal_type: u8,
    pub proposal_values: Vec<u64>,
}

/// A proposed treasury withdrawal of `amount`.
#[derive(Clone, Copy, Debug, PartialEq, Eq, Structural)]
pub struct WithdrawalChange {
    pub amount: u64,
}

/// The owner set that authorizes administrative operations.
pub struct Multisig {
    pub owners: Vec<Key>,
    pub threshold: u8,
}

#[derive(Clone, Copy, Debug, PartialEq, Eq, Structural)]
pub struct PresaleVesting {
    pub total_amount: u64,
    pub claimed_amount: u64,
}

/// How a staker voted on a proposal.
#[derive(Clone, Copy, Debug, PartialEq, Eq, Structural)]
pub struct VoteRecord {
    pub staker: Key,
    pub proposal_id: u64,
    pub voted: bool,
    pub in_favor: bool,
}

#[derive(Clone, Copy, Debug, PartialEq, Eq, Structural)]
pub struct TeamVesting {
    pub team_member: Key,
    pub total_amount: u64,
    pub claimed_amount: u64,
    pub start_time: i64,
    pub canceled: bool,
    /// When the schedule was canceled; meaningful only when `canceled`.
    pub canceled_at: i64,
}

#[derive(Clone, Copy, Debug, PartialEq, Eq, Structural)]
pub struct FreelancerVesting {
    pub freelancer: Key,
    pub total_amount: u64,
    pub released_amount: u64,
    pub claimed_amount: u64,
    pub start_time: i64,
    pub last_claim_time: i64,
}

#[derive(Clone, Copy, Debug, PartialEq, Eq, Structural)]
pub struct MigrationState {
    pub total_locked: u64,
    pub migration_active: bool,
    pub migration_toggle_timestamp: i64,
}

#[derive(Clone, Copy, Debug, PartialEq, Eq, Structural)]
pub struct MigrationRecord {
    pub user: Key,
    pub locked_amount: u64,
    pub migrated: bool,
    pub migration_confirmed: bool,
}

#[derive(Clone, Copy, Debug, PartialEq, Eq, Structural)]
pub struct PresalePurchase {
    pub wallet: Key,
    pub total_purchased: u64,
    pub kyc_verified: bool,
}

/// A proposed change and the time it was proposed; it may be applied once a
/// delay has passed.
pub struct PendingAction<T> {
    pub change: T,
    pub initiation_time: i64,
}

/// A proposed addition to, or removal from, the whitelisted contracts.
#[derive(Clone, Copy, Debug, PartialEq, Eq, Structural)]
pub struct WhitelistChange {
    pub contract: Key,
    pub add: bool,
}

/// A proposed replacement of the owner set.
pub struct MultisigChange {
    pub new_owners: Vec<Key>,
    pub new_threshold: u8,
}

/// A proposed pause, with its reason.
pub struct PauseChange {
    pub reason: String,
}

/// A proposed resume.
#[derive(Clone, Copy, Debug, PartialEq, Eq, Structural)]
pub struct ResumeChange {}

pub type PendingWhitelistChange = PendingAction<WhitelistChange>;

pub type PendingMultisigChange = PendingAction<MultisigChange>;

pub type PendingPause = PendingAction<PauseChange>;

pub type PendingResume = PendingAction<ResumeChange>;

pub type PendingWithdrawal = PendingAction<WithdrawalChange>;

} // verus!
