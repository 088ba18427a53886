use veralux::admin::{
    add_whitelisted_contract, complete_withdrawal, confirm_whitelist_change, initiate_withdrawal,
    remove_whitelisted_contract, update_dex_programs,
};
use veralux::error::VeraluxErrorCode;
use veralux::governance::{execute_proposal, submit_proposal, vote};
use veralux::key::Key;
use veralux::lp::{claim_lp_rewards, process_daily_rewards, stake_lp, unstake_lp};
use veralux::migration::{burn_locked_tokens, lock_for_migration, toggle_migration_active, unlock_for_migration};
use veralux::multisig::{confirm_set_multisig, initiate_set_multisig};
use veralux::setup::{initialize, update_global, InitGlobalIx, Initialized, UpdateGlobalIx};
use veralux::staking::{
    calculate_tier, calculate_voting_power, claim_rewards, get_highest_eligible_tier,
    get_pending_rewards, query_pending_rewards, stake, unstake,
};
use veralux::state::{
    ContractState, FreelancerVesting, LPStaker, MigrationRecord, MigrationState, Multisig,
    PresaleVesting, Proposal, Staker, TeamVesting, VoteRecord,
};
use veralux::treasury::{airdrop, distribute_lp_incentives};
use veralux::vesting::{
    buy_presale, cancel_team_vesting, claim_freelancer_vesting, claim_presale_tokens,
    claim_team_vesting, init_presale, release_freelancer_milestone, update_freelancer_vesting,
    update_team_vesting,
};

const DAY: i64 = 86_400;
const TOKEN: u64 = 1_000_000_000;

fn key(n: u64) -> Key {
    Key::from_u64(n)
}

fn quorum() -> Vec<Option<Key>> {
    vec![Some(key(1)), Some(key(2))]
}

fn setup() -> Initialized {
    let ix = InitGlobalIx {
        charity_wallet: key(20),
        team_wallet: key(21),
        liquidity_pool: key(22),
        launch_timestamp: 1_746_057_600,
        presale_usdt_receiver: key(23),
        initial_owners: vec![key(1), key(2), key(3)],
        initial_dex_programs: Vec::new(),
        threshold: 2,
    };
    let empty = Multisig { owners: Vec::new(), threshold: 0 };
    initialize(&empty, &quorum(), ix, &Vec::new(), key(1), key(40), key(41)).unwrap()
}

fn state() -> ContractState {
    setup().state
}

fn empty_staker() -> Staker {
    Staker { tier: 0, amount: 0, start_time: 0, last_claim: 0 }
}

#[test]
fn tiers_follow_amount_and_duration() {
    let s = state();
    assert_eq!(calculate_tier(&s, 19_999 * TOKEN, 30 * DAY), Ok(255));
    assert_eq!(calculate_tier(&s, 20_000 * TOKEN, 6 * DAY), Ok(255));
    assert_eq!(calculate_tier(&s, 20_000 * TOKEN, 7 * DAY), Ok(0));
    assert_eq!(calculate_tier(&s, 100_000 * TOKEN, 13 * DAY), Ok(0));
    assert_eq!(calculate_tier(&s, 100_000 * TOKEN, 14 * DAY), Ok(1));
    assert_eq!(calculate_tier(&s, 5_000_000 * TOKEN, 30 * DAY), Ok(3));
    assert_eq!(calculate_tier(&s, 5_000_000 * TOKEN, 20 * DAY), Ok(1));
    assert_eq!(get_highest_eligible_tier(&s, 600_000 * TOKEN), 2);
    assert_eq!(get_highest_eligible_tier(&s, 10 * TOKEN), 255);
}

#[test]
fn tier_zero_minimum_follows_governance() {
    let mut s = state();
    s.staking_tiers[0] = 30_000 * TOKEN;
    assert_eq!(calculate_tier(&s, 25_000 * TOKEN, 7 * DAY), Ok(255));
    assert_eq!(calculate_tier(&s, 30_000 * TOKEN, 7 * DAY), Ok(0));
}

#[test]
fn voting_power_grows_with_time_and_is_capped() {
    let s = state();
    let start = 1_000_000_000;
    let st = Staker { tier: 3, amount: 5_000_000 * TOKEN, start_time: start, last_claim: start };
    let p0 = calculate_voting_power(&st, &s, start + 30 * DAY).unwrap();
    let p60 = calculate_voting_power(&st, &s, start + 60 * DAY).unwrap();
    let p90 = calculate_voting_power(&st, &s, start + 90 * DAY).unwrap();
    assert_eq!((p0, p60, p90), (20, 30, 40));
    let tier2 = Staker { tier: 2, amount: 600_000 * TOKEN, start_time: start, last_claim: start };
    assert_eq!(calculate_voting_power(&tier2, &s, start + 90 * DAY), Ok(8));
    let grandfathered = Staker { tier: 3, amount: 600_000 * TOKEN, start_time: start, last_claim: start };
    assert_eq!(calculate_voting_power(&grandfathered, &s, start + 60 * DAY), Ok(6));
    let ineligible = Staker { tier: 255, amount: 1, start_time: start, last_claim: start };
    assert_eq!(calculate_voting_power(&ineligible, &s, start), Ok(0));
    let bad = Staker { tier: 7, amount: 1, start_time: start, last_claim: start };
    assert_eq!(calculate_voting_power(&bad, &s, start), Err(VeraluxErrorCode::InvalidTier));
}

#[test]
fn pending_rewards_scale_with_days_and_pool() {
    let init = setup();
    let start = 1_000_000_000;
    let st = Staker { tier: 1, amount: 100_000 * TOKEN, start_time: start, last_claim: start };
    assert_eq!(get_pending_rewards(&init.state, &st, &init.treasury, start + DAY - 1), Ok(0));
    let daily = 2_500 * TOKEN / 7;
    assert_eq!(get_pending_rewards(&init.state, &st, &init.treasury, start + 3 * DAY), Ok(daily * 3));
    let mut low = init.treasury;
    low.staking_pool = 198_000_000_000_000_000 / 10;
    assert_eq!(get_pending_rewards(&init.state, &st, &low, start + 2 * DAY), Ok(daily * 512 * 2 / 1000));
    assert_eq!(query_pending_rewards(&init.state, None, &init.treasury, start), Ok(0));
}

#[test]
fn stake_claim_unstake_cycle() {
    let init = setup();
    let mut s = init.state;
    let mut t = init.treasury;
    let mut st = empty_staker();
    let start = 1_000_000_000;
    stake(&mut s, &mut st, 150_000 * TOKEN, start).unwrap();
    assert_eq!(st.tier, 255);
    assert_eq!(st.start_time, start);
    assert_eq!(s.total_voting_power, 0);
    stake(&mut s, &mut st, 0, start + 14 * DAY).unwrap();
    assert_eq!(st.tier, 1);
    assert_eq!(s.total_voting_power, 1);
    let reward = claim_rewards(&s, &mut st, &mut t, start + 14 * DAY).unwrap();
    assert_eq!(reward, 2_500 * TOKEN / 7 * 14);
    assert_eq!(st.last_claim, start + 14 * DAY);
    assert_eq!(t.staking_pool, 198_000_000_000_000_000 - reward);
    let out = unstake(&mut s, &mut st, &mut t, start + 15 * DAY).unwrap();
    assert_eq!(out.amount, 150_000 * TOKEN);
    assert_eq!(out.reward, 2_500 * TOKEN / 7);
    assert_eq!(st, empty_staker());
    assert_eq!(s.total_voting_power, 0);
}

#[test]
fn unstake_before_lock_fails() {
    let init = setup();
    let mut s = init.state;
    let mut t = init.treasury;
    let mut st = empty_staker();
    stake(&mut s, &mut st, 150_000 * TOKEN, 1_000).unwrap();
    let kept = st;
    assert_eq!(unstake(&mut s, &mut st, &mut t, 1_000 + DAY), Err(VeraluxErrorCode::LockPeriodNotMet));
    assert_eq!(st, kept);
    assert_eq!(claim_rewards(&s, &mut st, &mut t, 1_000 + DAY), Err(VeraluxErrorCode::LockPeriodNotMet));
}

fn proposal(kind: u8, values: Vec<u64>, now: i64, s: &mut ContractState, m: &Multisig) -> Proposal {
    submit_proposal(s, m, &quorum(), String::from("change"), kind, values, now).unwrap()
}

fn voter(s: &mut ContractState, start: i64) -> Staker {
    let mut st = empty_staker();
    stake(s, &mut st, 5_000_000 * TOKEN, start).unwrap();
    stake(s, &mut st, 0, start + 30 * DAY).unwrap();
    st
}

#[test]
fn governance_changes_tax_rate() {
    let init = setup();
    let mut s = init.state;
    let st = voter(&mut s, 1_000);
    assert_eq!(s.total_voting_power, 20);
    let now = 40 * DAY;
    let mut p = proposal(0, vec![800], now, &mut s, &init.multisig);
    assert_eq!(p.id, 0);
    assert_eq!(s.proposal_count, 1);
    assert_eq!(p.end_time, now + 14 * DAY);
    assert_eq!(p.execution_time, now + 17 * DAY);
    let mut rec = VoteRecord { staker: key(0), proposal_id: 0, voted: false, in_favor: false };
    assert_eq!(vote(&s, &mut p, &st, &mut rec, key(9), 0, false, now + DAY), Ok(20));
    assert_eq!((p.votes_for, p.votes_against), (0, 20));
    assert_eq!(vote(&s, &mut p, &st, &mut rec, key(9), 0, true, now + DAY), Ok(20));
    assert_eq!((p.votes_for, p.votes_against), (20, 0));
    assert_eq!(execute_proposal(&mut s, &mut p, 0, now + 14 * DAY), Err(VeraluxErrorCode::VotingPeriodNotEnded));
    assert_eq!(execute_proposal(&mut s, &mut p, 0, now + 16 * DAY), Err(VeraluxErrorCode::NoticePeriodNotMet));
    assert_eq!(execute_proposal(&mut s, &mut p, 0, now + 17 * DAY), Ok(()));
    assert_eq!(p.status, 1);
    assert_eq!(s.tax_rate, 800);
    assert_eq!(execute_proposal(&mut s, &mut p, 0, now + 18 * DAY), Err(VeraluxErrorCode::ProposalAlreadyExecuted));
}

#[test]
fn governance_rejects_without_quorum() {
    let init = setup();
    let mut s = init.state;
    s.total_voting_power = 100;
    let mut p = proposal(0, vec![800], 0, &mut s, &init.multisig);
    p.votes_for = 25;
    assert_eq!(execute_proposal(&mut s, &mut p, 0, 17 * DAY), Ok(()));
    assert_eq!(p.status, 2);
    assert_eq!(s.tax_rate, 500);
    let mut q = proposal(0, vec![800], 0, &mut s, &init.multisig);
    q.votes_for = 19;
    q.votes_against = 11;
    assert_eq!(execute_proposal(&mut s, &mut q, 1, 17 * DAY), Ok(()));
    assert_eq!(q.status, 2);
    let mut r = proposal(0, vec![800], 0, &mut s, &init.multisig);
    r.votes_for = 20;
    r.votes_against = 20;
    assert_eq!(execute_proposal(&mut s, &mut r, 2, 17 * DAY), Ok(()));
    assert_eq!(r.status, 2);
    let mut z = proposal(0, vec![800], 0, &mut s, &init.multisig);
    s.total_voting_power = 0;
    assert_eq!(execute_proposal(&mut s, &mut z, 3, 17 * DAY), Ok(()));
    assert_eq!(z.status, 2);
}

#[test]
fn governance_allocation_must_sum_to_whole() {
    let init = setup();
    let mut s = init.state;
    s.total_voting_power = 10;
    let mut bad = proposal(2, vec![2000, 2000, 2000, 2000, 1000, 500], 0, &mut s, &init.multisig);
    bad.votes_for = 10;
    assert_eq!(execute_proposal(&mut s, &mut bad, 0, 17 * DAY), Err(VeraluxErrorCode::InvalidTaxAllocationTotal));
    assert_eq!(bad.status, 0);
    let mut capped = proposal(2, vec![6000, 1000, 1000, 1000, 500, 500], 0, &mut s, &init.multisig);
    capped.votes_for = 10;
    assert_eq!(execute_proposal(&mut s, &mut capped, 1, 17 * DAY), Err(VeraluxErrorCode::InvalidTaxAllocation));
    let mut good = proposal(2, vec![1000, 3000, 2000, 1000, 2000, 1000], 0, &mut s, &init.multisig);
    good.votes_for = 10;
    assert_eq!(execute_proposal(&mut s, &mut good, 2, 17 * DAY), Ok(()));
    assert_eq!(s.burn_alloc, 1000);
    assert_eq!(s.treasury_alloc, 3000);
    assert_eq!(
        s.burn_alloc + s.treasury_alloc + s.liquidity_pool_alloc + s.lp_incentive_alloc + s.charity_alloc + s.team_alloc,
        10000
    );
}

#[test]
fn governance_other_effects() {
    let init = setup();
    let mut s = init.state;
    s.total_voting_power = 10;
    let cases: Vec<(u8, Vec<u64>)> = vec![
        (1, vec![30_000 * TOKEN, 200_000 * TOKEN, 600_000 * TOKEN, 6_000_000 * TOKEN]),
        (3, vec![200, 400, 600, 300, 500, 700, 1500]),
        (5, vec![2_000_000 * TOKEN]),
        (10, vec![600 * TOKEN, 3_000 * TOKEN, 13_000 * TOKEN, 130_000 * TOKEN]),
        (11, vec![2, 0, 77, 78]),
    ];
    for (i, (kind, values)) in cases.into_iter().enumerate() {
        let mut p = proposal(kind, values, 0, &mut s, &init.multisig);
        p.votes_for = 10;
        assert_eq!(execute_proposal(&mut s, &mut p, i as u64, 17 * DAY), Ok(()));
    }
    assert_eq!(s.staking_tiers[0], 30_000 * TOKEN);
    assert_eq!(s.reduction_thresholds, [200, 400, 600]);
    assert_eq!(s.reduction_factors, [300, 500, 700, 1500]);
    assert_eq!(s.max_sell_txn_limit, 2_000_000 * TOKEN);
    assert_eq!(s.staking_rewards[3], 130_000 * TOKEN);
    assert_eq!(s.whitelisted_contracts.len(), 2);
    assert_eq!(s.whitelisted_contracts[0].contract, key(77));
    let mut p = proposal(11, vec![0, 1, 77], 0, &mut s, &init.multisig);
    p.votes_for = 10;
    assert_eq!(execute_proposal(&mut s, &mut p, 5, 17 * DAY), Ok(()));
    assert_eq!(s.whitelisted_contracts.len(), 1);
    assert_eq!(s.whitelisted_contracts[0].contract, key(78));
    let mut bad = proposal(12, vec![], 0, &mut s, &init.multisig);
    bad.votes_for = 10;
    assert_eq!(execute_proposal(&mut s, &mut bad, 6, 17 * DAY), Err(VeraluxErrorCode::InvalidProposalType));
    let mut rate = proposal(0, vec![50], 0, &mut s, &init.multisig);
    rate.votes_for = 10;
    assert_eq!(execute_proposal(&mut s, &mut rate, 7, 17 * DAY), Err(VeraluxErrorCode::InvalidTaxRate));
}

#[test]
fn submit_proposal_checks() {
    let init = setup();
    let mut s = init.state;
    let long: String = std::iter::repeat('x').take(201).collect();
    assert_eq!(
        submit_proposal(&mut s, &init.multisig, &quorum(), long, 0, vec![1], 0).err(),
        Some(VeraluxErrorCode::DescriptionTooLong)
    );
    assert_eq!(
        submit_proposal(&mut s, &init.multisig, &quorum(), String::new(), 0, vec![1; 8], 0).err(),
        Some(VeraluxErrorCode::TooManyProposalValues)
    );
    assert_eq!(
        submit_proposal(&mut s, &init.multisig, &vec![Some(key(9)), Some(key(1))], String::new(), 0, vec![], 0).err(),
        Some(VeraluxErrorCode::Unauthorized)
    );
    assert_eq!(s.proposal_count, 0);
}

#[test]
fn vote_requires_tier_and_open_window() {
    let init = setup();
    let mut s = init.state;
    let mut p = proposal(0, vec![800], 0, &mut s, &init.multisig);
    let mut rec = VoteRecord { staker: key(0), proposal_id: 0, voted: false, in_favor: false };
    let tier0 = Staker { tier: 0, amount: 20_000 * TOKEN, start_time: 0, last_claim: 0 };
    assert_eq!(vote(&s, &mut p, &tier0, &mut rec, key(9), 0, true, DAY), Err(VeraluxErrorCode::InsufficientTierForVoting));
    let tier1 = Staker { tier: 1, amount: 100_000 * TOKEN, start_time: 0, last_claim: 0 };
    assert_eq!(vote(&s, &mut p, &tier1, &mut rec, key(9), 0, true, 15 * DAY), Err(VeraluxErrorCode::ProposalExpired));
}

#[test]
fn presale_purchase_scenario() {
    let mut s = state();
    let (mut purchase, mut vesting) = init_presale(key(7));
    let tokens = buy_presale(&mut s, &mut purchase, &mut vesting, key(7), 1_600).unwrap();
    assert_eq!(tokens, 1_000_000_000);
    assert_eq!(s.total_presale_sold, 1_000_000_000);
    assert_eq!(purchase.total_purchased, 1_000_000_000);
    assert_eq!(vesting.total_amount, 1_000_000_000);
    purchase.kyc_verified = false;
    assert_eq!(buy_presale(&mut s, &mut purchase, &mut vesting, key(7), 1_600), Err(VeraluxErrorCode::KYCRequired));
    assert_eq!(buy_presale(&mut s, &mut purchase, &mut vesting, key(7), 999), Ok(624_375_000));
    purchase.kyc_verified = true;
    assert_eq!(
        buy_presale(&mut s, &mut purchase, &mut vesting, key(7), 3_300_000_000),
        Err(VeraluxErrorCode::PresaleMaxPerWalletExceeded)
    );
    s.presale_active = false;
    assert_eq!(buy_presale(&mut s, &mut purchase, &mut vesting, key(7), 1_600), Err(VeraluxErrorCode::PresaleNotActive));
}

#[test]
fn presale_claims_unlock_weekly() {
    let s = state();
    let launch = s.launch_timestamp;
    let mut v = PresaleVesting { total_amount: 1_000, claimed_amount: 0 };
    assert_eq!(claim_presale_tokens(&s, &mut v, launch - 1), Err(VeraluxErrorCode::VestingNotStarted));
    assert_eq!(claim_presale_tokens(&s, &mut v, launch), Ok(100));
    assert_eq!(claim_presale_tokens(&s, &mut v, launch + 1), Ok(0));
    assert_eq!(claim_presale_tokens(&s, &mut v, launch + 7 * DAY * 2), Ok(200));
    assert_eq!(v.claimed_amount, 300);
    assert_eq!(claim_presale_tokens(&s, &mut v, launch + 7 * DAY * 20), Ok(700));
    assert_eq!(v.claimed_amount, 1_000);
    let mut empty = PresaleVesting { total_amount: 0, claimed_amount: 0 };
    assert_eq!(claim_presale_tokens(&s, &mut empty, launch), Err(VeraluxErrorCode::UninitializedAccount));
}

#[test]
fn team_vesting_scenario() {
    let init = setup();
    let start = 1_000_000;
    let mut v = TeamVesting {
        team_member: key(8),
        total_amount: 1_000_000,
        claimed_amount: 100_000,
        start_time: start,
        canceled: false,
        canceled_at: 0,
    };
    assert_eq!(claim_team_vesting(&init.state, &mut v, start + 5 * 30 * DAY), Ok(200_000));
    assert_eq!(v.claimed_amount, 300_000);
    assert_eq!(claim_team_vesting(&init.state, &mut v, start + 5 * 30 * DAY + 1), Ok(0));
}

#[test]
fn team_vesting_update_cancel_claim() {
    let init = setup();
    let mut v = TeamVesting {
        team_member: key(0),
        total_amount: 0,
        claimed_amount: 0,
        start_time: 0,
        canceled: false,
        canceled_at: 0,
    };
    assert_eq!(
        update_team_vesting(&init.state, &init.multisig, &quorum(), &mut v, key(8), 100, 101, 0),
        Err(VeraluxErrorCode::InvalidImmediateAmount)
    );
    assert_eq!(update_team_vesting(&init.state, &init.multisig, &quorum(), &mut v, key(8), 1_100, 100, 0), Ok(100));
    assert_eq!(v.total_amount, 1_000);
    assert_eq!(claim_team_vesting(&init.state, &mut v, 2 * 30 * DAY), Ok(0));
    assert_eq!(
        cancel_team_vesting(&init.state, &init.multisig, &quorum(), &mut v, key(9), 4 * 30 * DAY),
        Err(VeraluxErrorCode::InvalidTeamMember)
    );
    cancel_team_vesting(&init.state, &init.multisig, &quorum(), &mut v, key(8), 4 * 30 * DAY).unwrap();
    assert_eq!(claim_team_vesting(&init.state, &mut v, 20 * 30 * DAY), Ok(200));
    assert_eq!(
        cancel_team_vesting(&init.state, &init.multisig, &quorum(), &mut v, key(8), 5 * 30 * DAY),
        Err(VeraluxErrorCode::VestingCanceled)
    );
}

#[test]
fn team_claims_are_capped() {
    let init = setup();
    let mut v = TeamVesting {
        team_member: key(8),
        total_amount: 100_000_000 * TOKEN,
        claimed_amount: 0,
        start_time: 0,
        canceled: false,
        canceled_at: 0,
    };
    assert_eq!(claim_team_vesting(&init.state, &mut v, 12 * 30 * DAY), Ok(20_000_000 * TOKEN));
}

#[test]
fn freelancer_milestones_and_claims() {
    let init = setup();
    let mut v = FreelancerVesting {
        freelancer: key(0),
        total_amount: 0,
        released_amount: 0,
        claimed_amount: 0,
        start_time: 0,
        last_claim_time: 0,
    };
    update_freelancer_vesting(&init.state, &init.multisig, &quorum(), &mut v, key(9), 1_000_000 * TOKEN, 100).unwrap();
    assert_eq!(v.last_claim_time, 100);
    assert_eq!(
        release_freelancer_milestone(&init.state, &init.multisig, &quorum(), &mut v, 1_000_001 * TOKEN),
        Err(VeraluxErrorCode::ExceedsVestingTotal)
    );
    release_freelancer_milestone(&init.state, &init.multisig, &quorum(), &mut v, 600_000 * TOKEN).unwrap();
    assert_eq!(claim_freelancer_vesting(&init.state, &mut v, 100 + DAY), Err(VeraluxErrorCode::ClaimCooldownNotMet));
    assert_eq!(claim_freelancer_vesting(&init.state, &mut v, 100 + 3 * DAY), Ok(500_000 * TOKEN));
    assert_eq!(claim_freelancer_vesting(&init.state, &mut v, 100 + 4 * DAY), Err(VeraluxErrorCode::ClaimCooldownNotMet));
    assert_eq!(claim_freelancer_vesting(&init.state, &mut v, 100 + 6 * DAY), Ok(100_000 * TOKEN));
    assert_eq!(v.claimed_amount, 600_000 * TOKEN);
}

#[test]
fn lp_staking_and_batched_incentives() {
    let init = setup();
    let mut s = init.state;
    let mut t = init.treasury;
    t.liquidity_incentive = 1_000;
    let day = 100 * DAY;
    let mut stakers = vec![
        LPStaker { amount: 100, last_action_time: 0, unclaimed_rewards: 0 },
        LPStaker { amount: 300, last_action_time: 0, unclaimed_rewards: 0 },
        LPStaker { amount: 500, last_action_time: day - DAY, unclaimed_rewards: 0 },
    ];
    assert_eq!(
        process_daily_rewards(&mut s, &mut t, &mut stakers, 51, day),
        Err(VeraluxErrorCode::BatchSizeTooLarge)
    );
    let first = process_daily_rewards(&mut s, &mut t, &mut stakers, 1, day + 10).unwrap();
    assert_eq!(first.moved_to_holding, 1_000);
    assert!(!first.day_complete);
    assert_eq!(t.liquidity_incentive, 0);
    assert_eq!(stakers[0].unclaimed_rewards, 250);
    assert_eq!(s.last_processed_index, 1);
    let second = process_daily_rewards(&mut s, &mut t, &mut stakers, 5, day + 20).unwrap();
    assert_eq!(second.moved_to_holding, 0);
    assert!(second.day_complete);
    assert_eq!(stakers[1].unclaimed_rewards, 750);
    assert_eq!(stakers[2].unclaimed_rewards, 0);
    assert_eq!(s.last_processed_day, day);
    assert_eq!(s.last_processed_index, 0);
    let again = process_daily_rewards(&mut s, &mut t, &mut stakers, 5, day + 30).unwrap();
    assert!(!again.day_complete);
    assert_eq!(stakers[0].unclaimed_rewards, 250);
    assert_eq!(claim_lp_rewards(&s, &mut stakers[0], day), Ok(250));
    assert_eq!(stakers[0].unclaimed_rewards, 0);
    assert_eq!(claim_lp_rewards(&s, &mut stakers[2], day), Err(VeraluxErrorCode::LockPeriodNotMet));
}

#[test]
fn lp_stake_and_unstake() {
    let s = state();
    let mut lp = LPStaker { amount: 0, last_action_time: 0, unclaimed_rewards: 0 };
    stake_lp(&s, &mut lp, 100, 1_000).unwrap();
    assert_eq!(lp.last_action_time, 1_000);
    stake_lp(&s, &mut lp, 50, 2_000).unwrap();
    assert_eq!(lp.amount, 150);
    assert_eq!(lp.last_action_time, 1_000);
    assert_eq!(unstake_lp(&s, &mut lp, 200, 1_000 + 8 * DAY), Err(VeraluxErrorCode::InsufficientStakedAmount));
    assert_eq!(unstake_lp(&s, &mut lp, 50, 1_000 + DAY), Err(VeraluxErrorCode::LockPeriodNotMet));
    assert_eq!(unstake_lp(&s, &mut lp, 50, 1_000 + 7 * DAY), Ok(false));
    assert_eq!(unstake_lp(&s, &mut lp, 100, 1_000 + 14 * DAY), Ok(true));
    assert_eq!(lp.amount, 0);
}

#[test]
fn airdrop_and_direct_incentives() {
    let init = setup();
    let mut t = init.treasury;
    let winners = vec![(key(70), 10), (key(71), 20)];
    assert_eq!(
        airdrop(&init.state, &mut t, &init.multisig, &quorum(), &winners, &vec![key(70)]),
        Err(VeraluxErrorCode::InvalidRecipientAccounts)
    );
    assert_eq!(
        airdrop(&init.state, &mut t, &init.multisig, &quorum(), &winners, &vec![key(70), key(72)]),
        Err(VeraluxErrorCode::InvalidRecipientAccount)
    );
    assert_eq!(airdrop(&init.state, &mut t, &init.multisig, &quorum(), &winners, &vec![key(70), key(71)]), Ok(30));
    assert_eq!(t.airdrop_pool, 52_800_000_000_000_000 - 30);
    assert_eq!(
        distribute_lp_incentives(&init.state, &mut t, &init.multisig, &quorum(), &winners, &vec![key(70), key(71)]),
        Err(VeraluxErrorCode::InsufficientLiquidityIncentiveFunds)
    );
    let overflow = vec![(key(70), u64::MAX), (key(71), 1)];
    assert_eq!(
        airdrop(&init.state, &mut t, &init.multisig, &quorum(), &overflow, &vec![key(70), key(71)]),
        Err(VeraluxErrorCode::ArithmeticOverflow)
    );
}

#[test]
fn owner_set_change_waits_a_day() {
    let init = setup();
    let mut m = init.multisig;
    assert_eq!(
        initiate_set_multisig(&init.state, &m, &quorum(), vec![key(4), key(4)], 2, 0).err(),
        Some(VeraluxErrorCode::DuplicateOwners)
    );
    assert_eq!(
        initiate_set_multisig(&init.state, &m, &quorum(), vec![key(4), key(5)], 3, 0).err(),
        Some(VeraluxErrorCode::ThresholdExceedsOwners)
    );
    let pending = initiate_set_multisig(&init.state, &m, &quorum(), vec![key(4), key(5)], 2, 0).unwrap();
    assert_eq!(confirm_set_multisig(&init.state, &mut m, pending, DAY - 1), Err(VeraluxErrorCode::TimeLockNotMet));
    let pending = initiate_set_multisig(&init.state, &m, &quorum(), vec![key(4), key(5)], 2, 0).unwrap();
    assert_eq!(confirm_set_multisig(&init.state, &mut m, pending, DAY), Ok(()));
    assert_eq!(m.owners, vec![key(4), key(5)]);
}

#[test]
fn whitelist_changes_wait_three_days() {
    let init = setup();
    let mut s = init.state;
    let m = init.multisig;
    assert_eq!(
        add_whitelisted_contract(&s, &m, &quorum(), key(50), (key(50), false), 0).err(),
        Some(VeraluxErrorCode::InvalidContract)
    );
    let add = add_whitelisted_contract(&s, &m, &quorum(), key(50), (key(50), true), 0).unwrap();
    assert_eq!(confirm_whitelist_change(&mut s, &add, 2 * DAY), Err(VeraluxErrorCode::WhitelistDelayNotMet));
    assert_eq!(confirm_whitelist_change(&mut s, &add, 3 * DAY), Ok(()));
    assert_eq!(s.whitelisted_contracts[0].version_hash, key(50));
    let remove_other = remove_whitelisted_contract(&s, &m, &quorum(), key(51), 0).unwrap();
    assert_eq!(confirm_whitelist_change(&mut s, &remove_other, 3 * DAY), Err(VeraluxErrorCode::ContractNotWhitelisted));
    let remove = remove_whitelisted_contract(&s, &m, &quorum(), key(50), 0).unwrap();
    assert_eq!(confirm_whitelist_change(&mut s, &remove, 3 * DAY), Ok(()));
    assert!(s.whitelisted_contracts.is_empty());
}

#[test]
fn dex_programs_and_withdrawals() {
    let init = setup();
    let mut s = init.state;
    let m = init.multisig;
    assert_eq!(
        update_dex_programs(&mut s, &m, &quorum(), vec![key(30)], &vec![(key(31), true)]),
        Err(VeraluxErrorCode::InvalidDexProgram)
    );
    assert_eq!(
        update_dex_programs(&mut s, &m, &quorum(), vec![key(30)], &Vec::new()),
        Err(VeraluxErrorCode::InvalidDexAccounts)
    );
    update_dex_programs(&mut s, &m, &quorum(), vec![key(30)], &vec![(key(30), true)]).unwrap();
    assert_eq!(s.dex_programs, vec![key(30)]);
    let pending = initiate_withdrawal(&s, &m, &quorum(), 10, 500).unwrap();
    assert_eq!(pending.change.amount, 10);
    assert_eq!(pending.initiation_time, 500);
    assert_eq!(complete_withdrawal(&s, &m, &quorum(), &pending, 500 + 3_600), Err(VeraluxErrorCode::WithdrawalDelayNotMet));
    assert_eq!(complete_withdrawal(&s, &m, &quorum(), &pending, 500 + DAY), Ok(10));
    assert_eq!(complete_withdrawal(&s, &m, &vec![Some(key(1))], &pending, 500 + DAY), Err(VeraluxErrorCode::InsufficientSigners));
}

#[test]
fn migration_lock_unlock_burn() {
    let init = setup();
    let s = init.state;
    let m = init.multisig;
    let mut ms = MigrationState { total_locked: 0, migration_active: false, migration_toggle_timestamp: 0 };
    let mut rec = MigrationRecord { user: key(0), locked_amount: 0, migrated: false, migration_confirmed: false };
    assert_eq!(lock_for_migration(&s, &mut ms, &mut rec, key(6), 10), Err(VeraluxErrorCode::MigrationNotActive));
    assert_eq!(toggle_migration_active(&s, &mut ms, &m, &quorum(), true, 7 * DAY - 1), Err(VeraluxErrorCode::MigrationToggleCooldown));
    toggle_migration_active(&s, &mut ms, &m, &quorum(), true, 7 * DAY).unwrap();
    lock_for_migration(&s, &mut ms, &mut rec, key(6), 10).unwrap();
    lock_for_migration(&s, &mut ms, &mut rec, key(6), 5).unwrap();
    assert_eq!((rec.locked_amount, ms.total_locked), (15, 15));
    assert_eq!(unlock_for_migration(&s, &mut ms, &mut rec), Err(VeraluxErrorCode::MigrationActive));
    assert_eq!(burn_locked_tokens(&s, &mut ms, &mut rec, &m, &quorum(), key(7)), Err(VeraluxErrorCode::InvalidMigrationUser));
    assert_eq!(burn_locked_tokens(&s, &mut ms, &mut rec, &m, &quorum(), key(6)), Ok(15));
    assert!(rec.migrated);
    assert_eq!(ms.total_locked, 0);
    assert_eq!(lock_for_migration(&s, &mut ms, &mut rec, key(6), 1), Err(VeraluxErrorCode::AlreadyMigrated));
    let mut other = MigrationRecord { user: key(0), locked_amount: 0, migrated: false, migration_confirmed: false };
    lock_for_migration(&s, &mut ms, &mut other, key(8), 4).unwrap();
    toggle_migration_active(&s, &mut ms, &m, &quorum(), false, 14 * DAY).unwrap();
    assert_eq!(unlock_for_migration(&s, &mut ms, &mut other), Ok(4));
    assert_eq!(unlock_for_migration(&s, &mut ms, &mut other), Err(VeraluxErrorCode::NoLockedTokens));
}

#[test]
fn authority_updates_addresses() {
    let mut s = state();
    let ix = UpdateGlobalIx { presale_usdt_receiver: key(90), launch_timestamp: 0, team_wallet: key(91), charity_wallet: key(92) };
    assert_eq!(update_global(&mut s, key(2), &ix), Err(VeraluxErrorCode::Unauthorized));
    assert_eq!(update_global(&mut s, key(1), &ix), Ok(()));
    assert_eq!(s.launch_timestamp, 1_746_057_600);
    assert_eq!(s.team_wallet, key(91));
    assert_eq!(s.presale_usdt_receiver, key(90));
}
