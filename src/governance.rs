use vstd::prelude::*;

use crate::constants::{
    GRACE_PERIOD, LAUNCH_TIMESTAMP, MAX_DESCRIPTION_LEN, MAX_PROPOSAL_VALUES, MAX_WHITELISTED,
    NOTICE_PERIOD, TOKEN_UNIT, TOTAL_SUPPLY, VOTING_APPROVAL, VOTING_PERIOD, VOTING_QUORUM,
    VOTING_THRESHOLD,
};
use crate::error::VeraluxErrorCode;
use crate::key::{key_of, Key};
use crate::multisig::{authorized, validate_multisig};
use crate::staking::{calculate_voting_power, voting_power, INELIGIBLE};
use crate::state::{ContractState, Multisig, Proposal, Staker, VoteRecord, WhitelistEntry};

verus! {

pub const STATUS_PENDING: u8 = 0;
pub const STATUS_APPROVED: u8 = 1;
pub const STATUS_REJECTED: u8 = 2;

/// Votes needed for a quorum: 30% of all voting power, rounded down.
pub open spec fn quorum(total_power: int) -> int {
    total_power * VOTING_QUORUM / 100
}

/// Votes in favour needed for the approval ratio: 51% of the votes cast, rounded up.
pub open spec fn required_approval(total_votes: int) -> int {
    (total_votes * VOTING_APPROVAL + 99) / 100
}

/// Votes in favour needed in absolute terms: 20% of all voting power, rounded down.
pub open spec fn required_threshold(total_power: int) -> int {
    total_power * VOTING_THRESHOLD / 100
}

/// Whether a proposal with these tallies is approved: there is voting power at
/// all, and the quorum, the approval ratio and the absolute threshold are all met.
pub open spec fn approves(total_power: int, votes_for: int, votes_against: int) -> bool {
    let total_votes = votes_for + votes_against;
    &&& total_power != 0
    &&& total_votes >= quorum(total_power)
    &&& votes_for >= required_approval(total_votes)
    &&& votes_for >= required_threshold(total_power)
}

/// Evaluates the three approval conditions on the tallies.
pub fn is_approved(total_power: u64, votes_for: u64, votes_against: u64) -> (r: bool)
    requires
        votes_for + votes_against <= u64::MAX,
    ensures
        r == approves(total_power as int, votes_for as int, votes_against as int),
{
    if total_power == 0 {
        return false;
    }
    let total_votes = (votes_for + votes_against) as u128;
    let power = total_power as u128;
    let q = power * 30 / 100;
    let a = (total_votes * 51 + 99) / 100;
    let t = power * 20 / 100;
    total_votes >= q && votes_for as u128 >= a && votes_for as u128 >= t
}

/// A proposal that fails the quorum, the approval ratio or the absolute threshold
/// is not approved.
pub proof fn lemma_approval_needs_all_three(total_power: int, votes_for: int, votes_against: int)
    requires
        total_power > 0,
        votes_for >= 0,
        votes_against >= 0,
    ensures
        approves(total_power, votes_for, votes_against) <==> (votes_for + votes_against >= quorum(
            total_power,
        ) && votes_for >= required_approval(votes_for + votes_against) && votes_for
            >= required_threshold(total_power)),
{
}

/// Lowest and highest limit a governance change may set (0.1% and 2% of supply).
pub const MIN_GOVERNED_LIMIT: u64 = TOTAL_SUPPLY / 1000;
pub const MAX_GOVERNED_LIMIT: u64 = TOTAL_SUPPLY / 50;
/// Highest top tier threshold (10% of supply).
pub const MAX_TIER_THRESHOLD: u64 = TOTAL_SUPPLY / 10;
/// Bounds of a governed weekly staking reward (100 and 1,000,000 tokens).
pub const MIN_STAKING_REWARD: u64 = 100 * TOKEN_UNIT;
pub const MAX_STAKING_REWARD: u64 = 1_000_000 * TOKEN_UNIT;
/// Smallest governed tier-0 threshold (20,000 tokens).
pub const MIN_TIER_ZERO: u64 = 20_000 * TOKEN_UNIT;
/// A governed launch time lies between the grace period before the planned launch
/// and one year after it.
pub const EARLIEST_LAUNCH: i64 = LAUNCH_TIMESTAMP - GRACE_PERIOD;
pub const LATEST_LAUNCH: i64 = LAUNCH_TIMESTAMP + 31_536_000;

pub open spec fn in_limit_range(v: u64) -> bool {
    MIN_GOVERNED_LIMIT <= v <= MAX_GOVERNED_LIMIT
}

/// The whitelist entry a governance batch adds for value `v`.
pub open spec fn entry_of(v: u64) -> WhitelistEntry {
    WhitelistEntry { contract: key_of(v), version_hash: key_of(v) }
}

/// `s` without its first entry naming `k` (unchanged when none does).
pub open spec fn remove_first(s: Seq<WhitelistEntry>, k: Key) -> Seq<WhitelistEntry>
    decreases s.len(),
{
    if s.len() == 0 {
        s
    } else if s[0].contract == k {
        s.drop_first()
    } else {
        seq![s[0]] + remove_first(s.drop_first(), k)
    }
}

/// `s` after removing, in order, the first entry naming each of `keys`.
pub open spec fn removed_all(s: Seq<WhitelistEntry>, keys: Seq<u64>) -> Seq<WhitelistEntry>
    decreases keys.len(),
{
    if keys.len() == 0 {
        s
    } else {
        remove_first(removed_all(s, keys.drop_last()), key_of(keys.last()))
    }
}

/// `s` after appending, in order, an entry for each of `keys` while capacity lasts.
pub open spec fn added_all(s: Seq<WhitelistEntry>, keys: Seq<u64>) -> Seq<WhitelistEntry>
    decreases keys.len(),
{
    if keys.len() == 0 {
        s
    } else {
        let p = added_all(s, keys.drop_last());
        if p.len() < MAX_WHITELISTED {
            p.push(entry_of(keys.last()))
        } else {
            p
        }
    }
}

/// The whitelist after a batch proposal with values `v`: `v[0]` additions and
/// `v[1]` removals, the keys following them, removals first.
pub open spec fn batch_whitelist(s: Seq<WhitelistEntry>, v: Seq<u64>) -> Seq<WhitelistEntry> {
    let adds = v[0] as int;
    let removes = v[1] as int;
    added_all(removed_all(s, v.subrange(2, 2 + removes)), v.subrange(2 + removes, 2 + removes + adds))
}

/// Why the policy change of a proposal of type `t` with values `v` is refused, if it is.
pub open spec fn effect_error(t: u8, v: Seq<u64>) -> Option<VeraluxErrorCode> {
    if t == 0 {
        if v.len() != 1 {
            Some(VeraluxErrorCode::InvalidProposalValueCount)
        } else if !(100 <= v[0] <= 1000) {
            Some(VeraluxErrorCode::InvalidTaxRate)
        } else {
            None
        }
    } else if t == 1 {
        if v.len() != 4 {
            Some(VeraluxErrorCode::InvalidProposalValueCount)
        } else if !(v[0] >= MIN_TIER_ZERO && v[0] < v[1] && v[1] < v[2] && v[2] < v[3] && v[3]
            <= MAX_TIER_THRESHOLD) {
            Some(VeraluxErrorCode::InvalidStakingTiers)
        } else {
            None
        }
    } else if t == 2 {
        if v.len() != 6 {
            Some(VeraluxErrorCode::InvalidProposalValueCount)
        } else if v[0] + v[1] + v[2] + v[3] + v[4] + v[5] != 10000 {
            Some(VeraluxErrorCode::InvalidTaxAllocationTotal)
        } else if exists|i: int| 0 <= i < 6 && #[trigger] v[i] > 5000 {
            Some(VeraluxErrorCode::InvalidTaxAllocation)
        } else {
            None
        }
    } else if t == 3 {
        if v.len() != 7 {
            Some(VeraluxErrorCode::InvalidProposalValueCount)
        } else if !(v[0] < v[1] && v[1] < v[2] && v[0] >= 100 && v[2] <= 900) {
            Some(VeraluxErrorCode::InvalidReductionThresholds)
        } else if exists|i: int| 3 <= i < 7 && !(100 <= #[trigger] v[i] <= 2000) {
            Some(VeraluxErrorCode::InvalidReductionFactor)
        } else {
            None
        }
    } else if t == 4 {
        if v.len() != 1 {
            Some(VeraluxErrorCode::InvalidProposalValueCount)
        } else if !(EARLIEST_LAUNCH <= v[0] <= LATEST_LAUNCH) {
            Some(VeraluxErrorCode::InvalidTimestamp)
        } else {
            None
        }
    } else if 5 <= t <= 9 {
        if v.len() != 1 {
            Some(VeraluxErrorCode::InvalidProposalValueCount)
        } else if !in_limit_range(v[0]) {
            Some(
                if t <= 6 {
                    VeraluxErrorCode::InvalidSellLimit
                } else if t <= 8 {
                    VeraluxErrorCode::InvalidTransferLimit
                } else {
                    VeraluxErrorCode::InvalidTaxThreshold
                },
            )
        } else {
            None
        }
    } else if t == 10 {
        if v.len() != 4 {
            Some(VeraluxErrorCode::InvalidProposalValueCount)
        } else if exists|i: int| 0 <= i < 4 && !(MIN_STAKING_REWARD <= #[trigger] v[i] <= MAX_STAKING_REWARD) {
            Some(VeraluxErrorCode::InvalidStakingReward)
        } else {
            None
        }
    } else if t == 11 {
        if v.len() < 2 {
            Some(VeraluxErrorCode::InvalidProposalValueCount)
        } else if v[0] + v[1] > v.len() - 2 {
            Some(VeraluxErrorCode::InvalidProposalValueCount)
        } else {
            None
        }
    } else {
        Some(VeraluxErrorCode::InvalidProposalType)
    }
}

/// Whether `new` is `old` with the policy change of a valid proposal of type `t`
/// with values `v` applied, and nothing else changed.
pub open spec fn effect_applied(old: &ContractState, new: &ContractState, t: u8, v: Seq<u64>) -> bool {
    if t == 0 {
        *new == ContractState { tax_rate: v[0], ..*old }
    } else if t == 1 {
        *new == ContractState { staking_tiers: new.staking_tiers, ..*old } && new.staking_tiers@
            == v
    } else if t == 2 {
        *new == ContractState {
            burn_alloc: v[0],
            treasury_alloc: v[1],
            liquidity_pool_alloc: v[2],
            lp_incentive_alloc: v[3],
            charity_alloc: v[4],
            team_alloc: v[5],
            ..*old
        }
    } else if t == 3 {
        &&& *new == ContractState {
            reduction_thresholds: new.reduction_thresholds,
            reduction_factors: new.reduction_factors,
            ..*old
        }
        &&& new.reduction_thresholds@ == v.subrange(0, 3)
        &&& new.reduction_factors@ == v.subrange(3, 7)
    } else if t == 4 {
        *new == ContractState { launch_timestamp: v[0] as i64, ..*old }
    } else if t == 5 {
        *new == ContractState { max_sell_txn_limit: v[0], ..*old }
    } else if t == 6 {
        *new == ContractState { daily_sell_limit: v[0], ..*old }
    } else if t == 7 {
        *new == ContractState { max_transfer_limit: v[0], ..*old }
    } else if t == 8 {
        *new == ContractState { daily_transfer_limit: v[0], ..*old }
    } else if t == 9 {
        *new == ContractState { progressive_tax_threshold: v[0], ..*old }
    } else if t == 10 {
        *new == ContractState { staking_rewards: new.staking_rewards, ..*old }
            && new.staking_rewards@ == v
    } else {
        *new == ContractState { whitelisted_contracts: new.whitelisted_contracts, ..*old }
            && new.whitelisted_contracts@ == batch_whitelist(old.whitelisted_contracts@, v)
    }
}

proof fn lemma_remove_first_at(s: Seq<WhitelistEntry>, k: Key, i: int)
    requires
        0 <= i < s.len(),
        s[i].contract == k,
        forall|j: int| 0 <= j < i ==> s[j].contract != k,
    ensures
        remove_first(s, k) == s.remove(i),
    decreases i,
{
    if i == 0 {
        assert(s.drop_first() =~= s.remove(0));
    } else {
        lemma_remove_first_at(s.drop_first(), k, i - 1);
        assert(seq![s[0]] + s.drop_first().remove(i - 1) =~= s.remove(i));
    }
}

proof fn lemma_remove_first_absent(s: Seq<WhitelistEntry>, k: Key)
    requires
        forall|j: int| 0 <= j < s.len() ==> s[j].contract != k,
    ensures
        remove_first(s, k) == s,
    decreases s.len(),
{
    if s.len() > 0 {
        lemma_remove_first_absent(s.drop_first(), k);
        assert(seq![s[0]] + s.drop_first() =~= s);
    }
}

/// Removes the first entry of `list` that names `k`, if any.
pub fn remove_whitelist_key(list: &mut Vec<WhitelistEntry>, k: Key)
    ensures
        final(list)@ == remove_first(old(list)@, k),
        final(list)@.len() <= old(list)@.len(),
{
    let mut i: usize = 0;
    while i < list.len()
        invariant
            i <= list.len(),
            list@ == old(list)@,
            forall|j: int| 0 <= j < i ==> list@[j].contract != k,
        decreases list.len() - i,
    {
        if list[i].contract == k {
            proof {
                lemma_remove_first_at(list@, k, i as int);
            }
            list.remove(i);
            return;
        }
        i = i + 1;
    }
    proof {
        lemma_remove_first_absent(list@, k);
    }
}

/// Applies a whitelist batch whose counts have been validated.
#[verifier::loop_isolation(false)]
fn apply_whitelist_batch(list: &mut Vec<WhitelistEntry>, values: &Vec<u64>)
    requires
        values@.len() >= 2,
        values@[0] + values@[1] <= values@.len() - 2,
        old(list)@.len() <= MAX_WHITELISTED,
    ensures
        final(list)@ == batch_whitelist(old(list)@, values@),
        final(list)@.len() <= MAX_WHITELISTED,
{
    let n = values.len();
    assert(values@[0] + values@[1] <= n);
    let adds = values[0] as usize;
    let removes = values[1] as usize;
    let ghost start = list@;
    let ghost rkeys = values@.subrange(2, 2 + removes);
    let ghost akeys = values@.subrange(2 + removes, 2 + removes + adds);
    let mut i: usize = 0;
    while i < removes
        invariant
            i <= removes,
            2 + removes + adds <= values@.len(),
            rkeys == values@.subrange(2, 2 + removes),
            list@ == removed_all(start, rkeys.subrange(0, i as int)),
            list@.len() <= MAX_WHITELISTED,
        decreases removes - i,
    {
        assert(rkeys.subrange(0, i + 1).drop_last() =~= rkeys.subrange(0, i as int));
        assert(rkeys.subrange(0, i + 1).last() == values@[2 + i]);
        remove_whitelist_key(list, Key::from_u64(values[2 + i]));
        i = i + 1;
    }
    assert(rkeys.subrange(0, removes as int) =~= rkeys);
    let ghost mid = list@;
    let mut j: usize = 0;
    while j < adds
        invariant
            j <= adds,
            2 + removes + adds <= values@.len(),
            akeys == values@.subrange(2 + removes, 2 + removes + adds),
            list@ == added_all(mid, akeys.subrange(0, j as int)),
            list@.len() <= MAX_WHITELISTED,
        decreases adds - j,
    {
        assert(akeys.subrange(0, j + 1).drop_last() =~= akeys.subrange(0, j as int));
        assert(akeys.subrange(0, j + 1).last() == values@[2 + removes + j]);
        if list.len() < MAX_WHITELISTED {
            let key = Key::from_u64(values[2 + removes + j]);
            list.push(WhitelistEntry { contract: key, version_hash: key });
        }
        j = j + 1;
    }
    assert(akeys.subrange(0, adds as int) =~= akeys);
}

/// Checks the values of a proposal of type `t` for its policy change.
#[verifier::loop_isolation(false)]
pub fn validate_effect(t: u8, v: &Vec<u64>) -> (r: Option<VeraluxErrorCode>)
    ensures
        r == effect_error(t, v@),
{
    if t == 0 {
        if v.len() != 1 {
            return Some(VeraluxErrorCode::InvalidProposalValueCount);
        }
        if !(100 <= v[0] && v[0] <= 1000) {
            return Some(VeraluxErrorCode::InvalidTaxRate);
        }
        None
    } else if t == 1 {
        if v.len() != 4 {
            return Some(VeraluxErrorCode::InvalidProposalValueCount);
        }
        if !(v[0] >= MIN_TIER_ZERO && v[0] < v[1] && v[1] < v[2] && v[2] < v[3] && v[3]
            <= MAX_TIER_THRESHOLD) {
            return Some(VeraluxErrorCode::InvalidStakingTiers);
        }
        None
    } else if t == 2 {
        if v.len() != 6 {
            return Some(VeraluxErrorCode::InvalidProposalValueCount);
        }
        let total: u128 = v[0] as u128 + v[1] as u128 + v[2] as u128 + v[3] as u128
            + v[4] as u128 + v[5] as u128;
        if total != 10000 {
            return Some(VeraluxErrorCode::InvalidTaxAllocationTotal);
        }
        let mut i: usize = 0;
        while i < 6
            invariant
                i <= 6,
                v@.len() == 6,
                forall|j: int| 0 <= j < i ==> v@[j] <= 5000,
            decreases 6 - i,
        {
            if v[i] > 5000 {
                return Some(VeraluxErrorCode::InvalidTaxAllocation);
            }
            i = i + 1;
        }
        None
    } else if t == 3 {
        if v.len() != 7 {
            return Some(VeraluxErrorCode::InvalidProposalValueCount);
        }
        if !(v[0] < v[1] && v[1] < v[2] && v[0] >= 100 && v[2] <= 900) {
            return Some(VeraluxErrorCode::InvalidReductionThresholds);
        }
        let mut i: usize = 3;
        while i < 7
            invariant
                3 <= i <= 7,
                v@.len() == 7,
                forall|j: int| 3 <= j < i ==> 100 <= #[trigger] v@[j] <= 2000,
            decreases 7 - i,
        {
            if !(100 <= v[i] && v[i] <= 2000) {
                return Some(VeraluxErrorCode::InvalidReductionFactor);
            }
            i = i + 1;
        }
        None
    } else if t == 4 {
        if v.len() != 1 {
            return Some(VeraluxErrorCode::InvalidProposalValueCount);
        }
        if !(EARLIEST_LAUNCH as u64 <= v[0] && v[0] <= LATEST_LAUNCH as u64) {
            return Some(VeraluxErrorCode::InvalidTimestamp);
        }
        None
    } else if 5 <= t && t <= 9 {
        if v.len() != 1 {
            return Some(VeraluxErrorCode::InvalidProposalValueCount);
        }
        if !(MIN_GOVERNED_LIMIT <= v[0] && v[0] <= MAX_GOVERNED_LIMIT) {
            return Some(
                if t <= 6 {
                    VeraluxErrorCode::InvalidSellLimit
                } else if t <= 8 {
                    VeraluxErrorCode::InvalidTransferLimit
                } else {
                    VeraluxErrorCode::InvalidTaxThreshold
                },
            );
        }
        None
    } else if t == 10 {
        if v.len() != 4 {
            return Some(VeraluxErrorCode::InvalidProposalValueCount);
        }
        let mut i: usize = 0;
        while i < 4
            invariant
                i <= 4,
                v@.len() == 4,
                forall|j: int| 0 <= j < i ==> MIN_STAKING_REWARD <= #[trigger] v@[j] <= MAX_STAKING_REWARD,
            decreases 4 - i,
        {
            if !(MIN_STAKING_REWARD <= v[i] && v[i] <= MAX_STAKING_REWARD) {
                return Some(VeraluxErrorCode::InvalidStakingReward);
            }
            i = i + 1;
        }
        None
    } else if t == 11 {
        if v.len() < 2 {
            return Some(VeraluxErrorCode::InvalidProposalValueCount);
        }
        if v[0] as u128 + v[1] as u128 > (v.len() - 2) as u128 {
            return Some(VeraluxErrorCode::InvalidProposalValueCount);
        }
        None
    } else {
        Some(VeraluxErrorCode::InvalidProposalType)
    }
}

/// Applies the policy change of a proposal whose values passed `validate_effect`.
pub fn apply_effect(state: &mut ContractState, t: u8, v: &Vec<u64>)
    requires
        effect_error(t, v@) is None,
        old(state).wf(),
    ensures
        effect_applied(old(state), final(state), t, v@),
        final(state).wf(),
{
    if t == 0 {
        state.tax_rate = v[0];
    } else if t == 1 {
        state.staking_tiers = [v[0], v[1], v[2], v[3]];
        assert(state.staking_tiers@ =~= v@);
    } else if t == 2 {
        state.burn_alloc = v[0];
        state.treasury_alloc = v[1];
        state.liquidity_pool_alloc = v[2];
        state.lp_incentive_alloc = v[3];
        state.charity_alloc = v[4];
        state.team_alloc = v[5];
    } else if t == 3 {
        state.reduction_thresholds = [v[0], v[1], v[2]];
        state.reduction_factors = [v[3], v[4], v[5], v[6]];
        assert(state.reduction_thresholds@ =~= v@.subrange(0, 3));
        assert(state.reduction_factors@ =~= v@.subrange(3, 7));
        assert(forall|i: int| 0 <= i < 4 ==> state.reduction_factors@[i] == v@[i + 3]);
    } else if t == 4 {
        state.launch_timestamp = v[0] as i64;
    } else if t == 5 {
        state.max_sell_txn_limit = v[0];
    } else if t == 6 {
        state.daily_sell_limit = v[0];
    } else if t == 7 {
        state.max_transfer_limit = v[0];
    } else if t == 8 {
        state.daily_transfer_limit = v[0];
    } else if t == 9 {
        state.progressive_tax_threshold = v[0];
    } else if t == 10 {
        state.staking_rewards = [v[0], v[1], v[2], v[3]];
        assert(state.staking_rewards@ =~= v@);
    } else {
        apply_whitelist_batch(&mut state.whitelisted_contracts, v);
    }
}

/// A change of the tax allocations is accepted only when the six shares sum to
/// exactly 10000 basis points (none above half); any other sum is refused.
pub proof fn lemma_allocation_change_sums_to_whole(v: Seq<u64>)
    requires
        v.len() == 6,
    ensures
        effect_error(2, v) is None ==> v[0] + v[1] + v[2] + v[3] + v[4] + v[5] == 10000,
        v[0] + v[1] + v[2] + v[3] + v[4] + v[5] != 10000 ==> effect_error(2, v) == Some(
            VeraluxErrorCode::InvalidTaxAllocationTotal,
        ),
{
}

/// The first reason, in the order checked, for which executing a proposal fails.
pub open spec fn execute_failure(s: &ContractState, p: &Proposal, proposal_id: u64, now: int) -> Option<
    VeraluxErrorCode,
> {
    if s.is_processing {
        Some(VeraluxErrorCode::ReentrancyGuardTriggered)
    } else if s.paused {
        Some(VeraluxErrorCode::Paused)
    } else if p.id != proposal_id {
        Some(VeraluxErrorCode::InvalidProposalType)
    } else if p.status != STATUS_PENDING {
        Some(VeraluxErrorCode::ProposalAlreadyExecuted)
    } else if now <= p.end_time {
        Some(VeraluxErrorCode::VotingPeriodNotEnded)
    } else if now < p.execution_time {
        Some(VeraluxErrorCode::NoticePeriodNotMet)
    } else if p.votes_for + p.votes_against > u64::MAX {
        Some(VeraluxErrorCode::ArithmeticOverflow)
    } else if approves(s.total_voting_power as int, p.votes_for as int, p.votes_against as int)
        && effect_error(p.proposal_type, p.proposal_values@) is Some {
        effect_error(p.proposal_type, p.proposal_values@)
    } else {
        None
    }
}

/// Resolves a pending proposal once its voting and notice periods are over: it is
/// approved, and its policy change applied, exactly when quorum, approval ratio and
/// absolute threshold are all met; otherwise it is rejected and the policy stays.
/// A proposal resolves once. On failure nothing changes.
pub fn execute_proposal(
    state: &mut ContractState,
    proposal: &mut Proposal,
    proposal_id: u64,
    now: i64,
) -> (r: Result<(), VeraluxErrorCode>)
    requires
        old(state).wf(),
    ensures
        final(state).wf(),
        match execute_failure(old(state), old(proposal), proposal_id, now as int) {
            Some(e) => r == Err::<(), VeraluxErrorCode>(e) && *final(state) == *old(state)
                && *final(proposal) == *old(proposal),
            None => r is Ok && if approves(
                old(state).total_voting_power as int,
                old(proposal).votes_for as int,
                old(proposal).votes_against as int,
            ) {
                *final(proposal) == (Proposal { status: STATUS_APPROVED, ..*old(proposal) })
                    && effect_applied(
                    old(state),
                    final(state),
                    old(proposal).proposal_type,
                    old(proposal).proposal_values@,
                )
            } else {
                *final(proposal) == (Proposal { status: STATUS_REJECTED, ..*old(proposal) })
                    && *final(state) == *old(state)
            },
        },
{
    if state.is_processing {
        return Err(VeraluxErrorCode::ReentrancyGuardTriggered);
    }
    if state.paused {
        return Err(VeraluxErrorCode::Paused);
    }
    if proposal.id != proposal_id {
        return Err(VeraluxErrorCode::InvalidProposalType);
    }
    if proposal.status != STATUS_PENDING {
        return Err(VeraluxErrorCode::ProposalAlreadyExecuted);
    }
    if now <= proposal.end_time {
        return Err(VeraluxErrorCode::VotingPeriodNotEnded);
    }
    if now < proposal.execution_time {
        return Err(VeraluxErrorCode::NoticePeriodNotMet);
    }
    if proposal.votes_for.checked_add(proposal.votes_against).is_none() {
        return Err(VeraluxErrorCode::ArithmeticOverflow);
    }
    if is_approved(state.total_voting_power, proposal.votes_for, proposal.votes_against) {
        match validate_effect(proposal.proposal_type, &proposal.proposal_values) {
            Some(e) => return Err(e),
            None => {},
        }
        apply_effect(state, proposal.proposal_type, &proposal.proposal_values);
        proposal.status = STATUS_APPROVED;
    } else {
        proposal.status = STATUS_REJECTED;
    }
    Ok(())
}

/// The first reason, in the order checked, for which submitting a proposal fails.
pub open spec fn submit_failure(
    s: &ContractState,
    m: &Multisig,
    signers: Seq<Option<Key>>,
    description: Seq<char>,
    values: Seq<u64>,
    now: int,
) -> Option<VeraluxErrorCode> {
    if s.is_processing {
        Some(VeraluxErrorCode::ReentrancyGuardTriggered)
    } else if s.paused {
        Some(VeraluxErrorCode::Paused)
    } else if signers.len() == 0 || signers[0] is None || !crate::key::key_in(
        m.owners@,
        signers[0]->Some_0,
    ) {
        Some(VeraluxErrorCode::Unauthorized)
    } else if authorized(m, signers) is Err {
        Some(authorized(m, signers)->Err_0)
    } else if description.len() > MAX_DESCRIPTION_LEN {
        Some(VeraluxErrorCode::DescriptionTooLong)
    } else if values.len() > MAX_PROPOSAL_VALUES {
        Some(VeraluxErrorCode::TooManyProposalValues)
    } else if now + VOTING_PERIOD + NOTICE_PERIOD > i64::MAX {
        Some(VeraluxErrorCode::ArithmeticOverflow)
    } else if s.proposal_count == u64::MAX {
        Some(VeraluxErrorCode::ArithmeticOverflow)
    } else {
        None
    }
}

/// Opens a proposal: the first signer must be an owner and the signers must
/// authorize; the description holds at most 200 characters and at most seven
/// values are given. Voting runs fourteen days from `now`, and execution may follow
/// three days after that. The proposal takes the next id.
pub fn submit_proposal(
    state: &mut ContractState,
    multisig: &Multisig,
    signers: &Vec<Option<Key>>,
    description: String,
    proposal_type: u8,
    proposal_values: Vec<u64>,
    now: i64,
) -> (r: Result<Proposal, VeraluxErrorCode>)
    ensures
        match submit_failure(
            old(state),
            multisig,
            signers@,
            description@,
            proposal_values@,
            now as int,
        ) {
            Some(e) => r is Err && r->Err_0 == e && *final(state) == *old(state),
            None => {
                &&& r is Ok
                &&& r->Ok_0.id == old(state).proposal_count
                &&& r->Ok_0.description@ == description@
                &&& r->Ok_0.votes_for == 0
                &&& r->Ok_0.votes_against == 0
                &&& r->Ok_0.status == STATUS_PENDING
                &&& r->Ok_0.start_time == now
                &&& r->Ok_0.end_time == now + VOTING_PERIOD
                &&& r->Ok_0.execution_time == now + VOTING_PERIOD + NOTICE_PERIOD
                &&& r->Ok_0.proposal_type == proposal_type
                &&& r->Ok_0.proposal_values@ == proposal_values@
                &&& *final(state) == (ContractState {
                    proposal_count: (old(state).proposal_count + 1) as u64,
                    ..*old(state)
                })
            },
        },
{
    if state.is_processing {
        return Err(VeraluxErrorCode::ReentrancyGuardTriggered);
    }
    if state.paused {
        return Err(VeraluxErrorCode::Paused);
    }
    if signers.len() == 0 {
        return Err(VeraluxErrorCode::Unauthorized);
    }
    match signers[0] {
        Some(k) => {
            if !crate::key::contains_key(&multisig.owners, &k) {
                return Err(VeraluxErrorCode::Unauthorized);
            }
        },
        None => return Err(VeraluxErrorCode::Unauthorized),
    }
    match validate_multisig(multisig, signers) {
        Ok(()) => {},
        Err(e) => return Err(e),
    }
    if description.as_str().unicode_len() > MAX_DESCRIPTION_LEN {
        return Err(VeraluxErrorCode::DescriptionTooLong);
    }
    if proposal_values.len() > MAX_PROPOSAL_VALUES {
        return Err(VeraluxErrorCode::TooManyProposalValues);
    }
    if now as i128 + VOTING_PERIOD as i128 + NOTICE_PERIOD as i128 > i64::MAX as i128 {
        return Err(VeraluxErrorCode::ArithmeticOverflow);
    }
    if state.proposal_count == u64::MAX {
        return Err(VeraluxErrorCode::ArithmeticOverflow);
    }
    let end_time = now + VOTING_PERIOD;
    let proposal = Proposal {
        id: state.proposal_count,
        description,
        votes_for: 0,
        votes_against: 0,
        status: STATUS_PENDING,
        start_time: now,
        end_time,
        execution_time: end_time + NOTICE_PERIOD,
        proposal_type,
        proposal_values,
    };
    state.proposal_count = state.proposal_count + 1;
    Ok(proposal)
}

/// Tallies after a vote with `power`: a previous vote of this staker first takes
/// `power` off the side it was cast on.
pub open spec fn retallied(p: &Proposal, rec: VoteRecord, power: int, in_favor: bool) -> (int, int) {
    let (f0, a0) = withdrawn(p, rec, power);
    if in_favor {
        (f0 + power, a0)
    } else {
        (f0, a0 + power)
    }
}

/// Tallies once a previous vote of this staker has been taken back with `power`.
pub open spec fn withdrawn(p: &Proposal, rec: VoteRecord, power: int) -> (int, int) {
    let f0 = if rec.voted && rec.in_favor {
        p.votes_for - power
    } else {
        p.votes_for as int
    };
    let a0 = if rec.voted && !rec.in_favor {
        p.votes_against - power
    } else {
        p.votes_against as int
    };
    (f0, a0)
}

/// The first reason, in the order checked, for which a vote fails.
pub open spec fn vote_failure(
    s: &ContractState,
    p: &Proposal,
    st: Staker,
    rec: VoteRecord,
    in_favor: bool,
    now: int,
) -> Option<VeraluxErrorCode> {
    let power = voting_power(st, s, now);
    let t = retallied(p, rec, power->Ok_0 as int, in_favor);
    if s.is_processing {
        Some(VeraluxErrorCode::ReentrancyGuardTriggered)
    } else if s.paused {
        Some(VeraluxErrorCode::Paused)
    } else if st.tier == INELIGIBLE || st.tier < 1 {
        Some(VeraluxErrorCode::InsufficientTierForVoting)
    } else if p.status != STATUS_PENDING || now > p.end_time {
        Some(VeraluxErrorCode::ProposalExpired)
    } else if power is Err {
        Some(power->Err_0)
    } else if withdrawn(p, rec, power->Ok_0 as int).0 < 0 || withdrawn(
        p,
        rec,
        power->Ok_0 as int,
    ).1 < 0 || t.0 > u64::MAX || t.1 > u64::MAX {
        Some(VeraluxErrorCode::ArithmeticOverflow)
    } else {
        None
    }
}

/// Casts (or recasts) a staker's vote with the voting power the stake has at
/// `now`. Tier 0 and ineligible stakers cannot vote; a proposal takes votes only
/// while pending and within its voting window. On failure nothing changes.
pub fn vote(
    state: &ContractState,
    proposal: &mut Proposal,
    staker: &Staker,
    vote_record: &mut VoteRecord,
    user: Key,
    proposal_id: u64,
    in_favor: bool,
    now: i64,
) -> (r: Result<u64, VeraluxErrorCode>)
    ensures
        match vote_failure(state, old(proposal), *staker, *old(vote_record), in_favor, now as int) {
            Some(e) => r == Err::<u64, VeraluxErrorCode>(e) && *final(proposal) == *old(proposal)
                && *final(vote_record) == *old(vote_record),
            None => {
                let power = voting_power(*staker, state, now as int)->Ok_0;
                let t = retallied(old(proposal), *old(vote_record), power as int, in_favor);
                &&& r == Ok::<u64, VeraluxErrorCode>(power)
                &&& *final(proposal) == (Proposal {
                    votes_for: t.0 as u64,
                    votes_against: t.1 as u64,
                    ..*old(proposal)
                })
                &&& *final(vote_record) == (VoteRecord {
                    staker: user,
                    proposal_id,
                    voted: true,
                    in_favor,
                })
            },
        },
{
    if state.is_processing {
        return Err(VeraluxErrorCode::ReentrancyGuardTriggered);
    }
    if state.paused {
        return Err(VeraluxErrorCode::Paused);
    }
    if staker.tier == INELIGIBLE || staker.tier < 1 {
        return Err(VeraluxErrorCode::InsufficientTierForVoting);
    }
    if proposal.status != STATUS_PENDING || now > proposal.end_time {
        return Err(VeraluxErrorCode::ProposalExpired);
    }
    let power = match calculate_voting_power(staker, state, now) {
        Ok(p) => p,
        Err(e) => return Err(e),
    };
    let mut votes_for = proposal.votes_for;
    let mut votes_against = proposal.votes_against;
    if vote_record.voted {
        if vote_record.in_favor {
            votes_for = match votes_for.checked_sub(power) {
                Some(v) => v,
                None => return Err(VeraluxErrorCode::ArithmeticOverflow),
            };
        } else {
            votes_against = match votes_against.checked_sub(power) {
                Some(v) => v,
                None => return Err(VeraluxErrorCode::ArithmeticOverflow),
            };
        }
    }
    if in_favor {
        votes_for = match votes_for.checked_add(power) {
            Some(v) => v,
            None => return Err(VeraluxErrorCode::ArithmeticOverflow),
        };
    } else {
        votes_against = match votes_against.checked_add(power) {
            Some(v) => v,
            None => return Err(VeraluxErrorCode::ArithmeticOverflow),
        };
    }
    proposal.votes_for = votes_for;
    proposal.votes_against = votes_against;
    *vote_record = VoteRecord { staker: user, proposal_id, voted: true, in_favor };
    Ok(power)
}

} // verus!
