use veralux::admin::{confirm_pause, initiate_pause, initiate_resume, confirm_resume};
use veralux::error::VeraluxErrorCode;
use veralux::guard::ReentrancyGuard;
use veralux::key::Key;
use veralux::multisig::validate_multisig;
use veralux::ratelimit::{advance_buckets, record_volume};
use veralux::setup::{initialize, InitGlobalIx, Initialized};
use veralux::state::{ContractState, Multisig, PoolType, TransactionRecord};
use veralux::tax::{transfer, whitelisted_transfer};
use veralux::treasury::transfer_between_pools;

fn key(n: u64) -> Key {
    Key::from_u64(n)
}

fn owners() -> Vec<Key> {
    vec![key(1), key(2), key(3)]
}

fn quorum() -> Vec<Option<Key>> {
    vec![Some(key(1)), Some(key(2)), None, None, None]
}

fn setup() -> Initialized {
    let ix = InitGlobalIx {
        charity_wallet: key(20),
        team_wallet: key(21),
        liquidity_pool: key(22),
        launch_timestamp: 1_746_057_600,
        presale_usdt_receiver: key(23),
        initial_owners: owners(),
        initial_dex_programs: vec![key(30)],
        threshold: 2,
    };
    let empty = Multisig { owners: Vec::new(), threshold: 0 };
    match initialize(&empty, &quorum(), ix, &vec![(key(30), true)], key(1), key(40), key(41)) {
        Ok(i) => i,
        Err(e) => panic!("setup failed: {:?}", e),
    }
}

fn state() -> ContractState {
    setup().state
}

#[test]
fn initialize_sets_policy_defaults() {
    let init = setup();
    assert_eq!(init.state.tax_rate, 500);
    assert_eq!(
        init.state.burn_alloc + init.state.treasury_alloc + init.state.liquidity_pool_alloc
            + init.state.lp_incentive_alloc + init.state.charity_alloc + init.state.team_alloc,
        10000
    );
    assert_eq!(init.treasury.staking_pool, 198_000_000_000_000_000);
    assert_eq!(init.treasury.airdrop_pool, 52_800_000_000_000_000);
    assert_eq!(init.treasury.liquidity_incentive, 0);
    assert_eq!(init.multisig.threshold, 2);
    assert_eq!(init.multisig.owners, owners());
    assert!(!init.migration_state.migration_active);
}

#[test]
fn initialize_rejects_bad_owner_sets() {
    let empty = Multisig { owners: Vec::new(), threshold: 0 };
    let mk = |owners: Vec<Key>, threshold: u8| InitGlobalIx {
        charity_wallet: key(20),
        team_wallet: key(21),
        liquidity_pool: key(22),
        launch_timestamp: 0,
        presale_usdt_receiver: key(23),
        initial_owners: owners,
        initial_dex_programs: Vec::new(),
        threshold,
    };
    let r = initialize(&empty, &quorum(), mk(owners(), 1), &Vec::new(), key(1), key(40), key(41));
    assert_eq!(r.err(), Some(VeraluxErrorCode::InvalidThreshold));
    let r = initialize(&empty, &quorum(), mk(vec![key(1), key(2)], 2), &Vec::new(), key(1), key(40), key(41));
    assert_eq!(r.err(), Some(VeraluxErrorCode::TooFewOwners));
    let r = initialize(&empty, &quorum(), mk(vec![key(1), key(2), key(1)], 2), &Vec::new(), key(1), key(40), key(41));
    assert_eq!(r.err(), Some(VeraluxErrorCode::DuplicateOwners));
    let r = initialize(&empty, &quorum(), mk(owners(), 4), &Vec::new(), key(1), key(40), key(41));
    assert_eq!(r.err(), Some(VeraluxErrorCode::InvalidProposal));
}

#[test]
fn multisig_counts_each_signer_once() {
    let m = Multisig { owners: owners(), threshold: 2 };
    assert_eq!(validate_multisig(&m, &vec![Some(key(1)), Some(key(2))]), Ok(()));
    assert_eq!(
        validate_multisig(&m, &vec![Some(key(1)), Some(key(1)), Some(key(1))]),
        Err(VeraluxErrorCode::InsufficientSigners)
    );
    assert_eq!(
        validate_multisig(&m, &vec![Some(key(1)), None, Some(key(9))]),
        Err(VeraluxErrorCode::SignerNotOwner)
    );
    assert_eq!(validate_multisig(&m, &vec![None, None]), Err(VeraluxErrorCode::InsufficientSigners));
}

#[test]
fn multisig_with_empty_owner_list_accepts_any_quorum() {
    let m = Multisig { owners: Vec::new(), threshold: 2 };
    assert_eq!(validate_multisig(&m, &vec![Some(key(7)), Some(key(8))]), Ok(()));
    assert_eq!(validate_multisig(&m, &vec![Some(key(7))]), Err(VeraluxErrorCode::InsufficientSigners));
}

#[test]
fn transfer_scenario_five_percent_tax() {
    let init = setup();
    let s = init.state;
    let mut t = init.treasury;
    let mut rec = TransactionRecord::new();
    let now = 1_750_000_000;
    let o = transfer(&s, &mut t, &mut rec, key(5), key(5), key(6), 1_000_000, now).unwrap();
    assert_eq!(o.tax, 50_000);
    assert_eq!(o.net_amount, 950_000);
    assert_eq!(o.burn, 10_000);
    assert_eq!(o.treasury_tax, 10_000);
    assert_eq!(o.liquidity_pool_tax, 12_000);
    assert_eq!(o.lp_incentive_tax, 3_000);
    assert_eq!(o.charity_tax, 10_000);
    assert_eq!(o.team_tax, 5_000);
    assert!(!o.is_sell);
    assert_eq!(t.staking_pool, 198_000_000_000_000_000 + 10_000);
    assert_eq!(t.liquidity_incentive, 3_000);
    assert_eq!(t.team_pool, 118_800_000_000_000_000 + 5_000);
    assert_eq!(rec.last_txn_time, now);
    assert_eq!(rec.transfer_buckets[rec.current_bucket_index as usize], 1_000_000);
}

#[test]
fn transfer_tax_rounds_up() {
    let init = setup();
    let mut t = init.treasury;
    let mut rec = TransactionRecord::new();
    let o = transfer(&init.state, &mut t, &mut rec, key(5), key(5), key(6), 1_001, 1_750_000_000).unwrap();
    assert_eq!(o.tax, 51);
    assert_eq!(o.net_amount, 950);
    assert_eq!(o.burn, 11);
}

#[test]
fn transfer_to_exchange_is_sell() {
    let init = setup();
    let mut t = init.treasury;
    let mut rec = TransactionRecord::new();
    let o = transfer(&init.state, &mut t, &mut rec, key(5), key(5), key(30), 1_000_000, 1_750_000_000).unwrap();
    assert!(o.is_sell);
    assert_eq!(rec.sell_buckets[rec.current_bucket_index as usize], 1_000_000);
    assert_eq!(rec.transfer_buckets[rec.current_bucket_index as usize], 0);
}

#[test]
fn transfer_progressive_rate_triples() {
    let mut s = state();
    s.max_transfer_limit = u64::MAX;
    s.daily_transfer_limit = u64::MAX;
    let mut t = setup().treasury;
    let mut rec = TransactionRecord::new();
    let amount = s.progressive_tax_threshold;
    let o = transfer(&s, &mut t, &mut rec, key(5), key(5), key(6), amount, 1_750_000_000).unwrap();
    assert_eq!(o.tax, amount / 100 * 15);
    assert_eq!(rec.transfer_cooldown_start, 1_750_000_000);
}

#[test]
fn transfer_errors() {
    let init = setup();
    let mut t = init.treasury;
    let mut rec = TransactionRecord::new();
    let now = 1_750_000_000;
    assert_eq!(
        transfer(&init.state, &mut t, &mut rec, key(5), key(6), key(7), 100, now),
        Err(VeraluxErrorCode::UnauthorizedSender)
    );
    assert_eq!(
        transfer(&init.state, &mut t, &mut rec, key(5), key(5), key(7), 1, now),
        Err(VeraluxErrorCode::AmountTooSmallAfterTax)
    );
    assert_eq!(rec.bucket_start_time, 0);
    transfer(&init.state, &mut t, &mut rec, key(5), key(5), key(7), 100, now).unwrap();
    assert_eq!(
        transfer(&init.state, &mut t, &mut rec, key(5), key(5), key(7), 100, now + 30),
        Err(VeraluxErrorCode::CooldownActive)
    );
    let mut paused = state();
    paused.paused = true;
    assert_eq!(
        transfer(&paused, &mut t, &mut rec, key(5), key(5), key(7), 100, now + 120),
        Err(VeraluxErrorCode::Paused)
    );
    let mut busy = state();
    busy.is_processing = true;
    assert_eq!(
        transfer(&busy, &mut t, &mut rec, key(5), key(5), key(7), 100, now + 120),
        Err(VeraluxErrorCode::ReentrancyGuardTriggered)
    );
    let big = init.state.max_transfer_limit + 1;
    assert_eq!(
        transfer(&init.state, &mut t, &mut rec, key(5), key(5), key(7), big, now + 120),
        Err(VeraluxErrorCode::MaxTransferLimitExceeded)
    );
    let before = t;
    assert_eq!(
        transfer(&init.state, &mut t, &mut rec, key(5), key(5), key(30), big, now + 120),
        Err(VeraluxErrorCode::MaxSellTxnLimitExceeded)
    );
    assert_eq!(t, before);
}

#[test]
fn daily_limit_holds_within_window_and_resets_after_a_day() {
    let init = setup();
    let mut t = init.treasury;
    let mut rec = TransactionRecord::new();
    let limit = init.state.daily_transfer_limit;
    let half = limit / 2;
    let now = 1_750_000_000;
    transfer(&init.state, &mut t, &mut rec, key(5), key(5), key(6), half, now).unwrap();
    transfer(&init.state, &mut t, &mut rec, key(5), key(5), key(6), half, now + 3_600).unwrap();
    assert_eq!(
        transfer(&init.state, &mut t, &mut rec, key(5), key(5), key(6), 1_000, now + 7_200),
        Err(VeraluxErrorCode::DailyTransferLimitExceeded)
    );
    transfer(&init.state, &mut t, &mut rec, key(5), key(5), key(6), half, now + 86_400 + 3_600).unwrap();
}

#[test]
fn buckets_rotate_hour_by_hour() {
    let mut rec = TransactionRecord::new();
    advance_buckets(&mut rec, 7_200 + 15).unwrap();
    assert_eq!(rec.bucket_start_time, 7_200);
    assert_eq!(rec.current_bucket_index, 0);
    record_volume(&mut rec, false, 10, 100, 1_000).unwrap();
    advance_buckets(&mut rec, 7_200 + 3 * 3_600).unwrap();
    assert_eq!(rec.current_bucket_index, 3);
    assert_eq!(rec.bucket_start_time, 7_200 + 3 * 3_600);
    record_volume(&mut rec, false, 20, 100, 1_000).unwrap();
    assert_eq!(rec.transfer_buckets[0], 10);
    assert_eq!(rec.transfer_buckets[3], 20);
    advance_buckets(&mut rec, 7_200 + 24 * 3_600).unwrap();
    assert_eq!(rec.current_bucket_index, 0);
    assert_eq!(rec.transfer_buckets[0], 0);
    assert_eq!(rec.transfer_buckets[3], 20);
    advance_buckets(&mut rec, 7_200 + 60 * 3_600).unwrap();
    assert_eq!(rec.transfer_buckets[3], 0);
    assert_eq!(rec.bucket_start_time, 7_200 + 60 * 3_600);
}

#[test]
fn record_volume_enforces_caps() {
    let mut rec = TransactionRecord::new();
    advance_buckets(&mut rec, 3_600).unwrap();
    assert_eq!(record_volume(&mut rec, true, 101, 100, 150), Err(VeraluxErrorCode::MaxSellTxnLimitExceeded));
    record_volume(&mut rec, true, 100, 100, 150).unwrap();
    assert_eq!(record_volume(&mut rec, true, 51, 100, 150), Err(VeraluxErrorCode::DailySellLimitExceeded));
    record_volume(&mut rec, true, 50, 100, 150).unwrap();
    assert_eq!(rec.sell_buckets[0], 150);
}

#[test]
fn whitelisted_transfer_half_rate() {
    let mut s = state();
    let program = key(50);
    s.whitelisted_contracts.push(veralux::state::WhitelistEntry { contract: program, version_hash: program });
    s.allowed_destinations.push(key(60));
    let mut t = setup().treasury;
    let o = whitelisted_transfer(&s, &mut t, program, key(60), 1_000_000).unwrap();
    assert_eq!(o.tax, 25_000);
    assert_eq!(o.net_amount, 975_000);
    assert_eq!(whitelisted_transfer(&s, &mut t, key(51), key(60), 1_000_000), Err(VeraluxErrorCode::CallerNotWhitelisted));
    assert_eq!(whitelisted_transfer(&s, &mut t, program, key(61), 1_000_000), Err(VeraluxErrorCode::InvalidDestination));
    s.whitelisted_contracts[0].version_hash = key(99);
    assert_eq!(whitelisted_transfer(&s, &mut t, program, key(60), 1_000_000), Err(VeraluxErrorCode::VersionMismatch));
}

#[test]
fn pools_transfer_atomically() {
    let init = setup();
    let m = init.multisig;
    let mut t = init.treasury;
    let before = t;
    transfer_between_pools(&init.state, &mut t, &m, &quorum(), PoolType::Marketing, PoolType::Emergency, 1_000).unwrap();
    assert_eq!(t.marketing_fund, before.marketing_fund - 1_000);
    assert_eq!(t.emergency_fund, before.emergency_fund + 1_000);
    let moved = t;
    assert_eq!(
        transfer_between_pools(&init.state, &mut t, &m, &quorum(), PoolType::LiquidityIncentive, PoolType::Team, 1),
        Err(VeraluxErrorCode::InsufficientLiquidityIncentiveFunds)
    );
    assert_eq!(t, moved);
    assert_eq!(
        transfer_between_pools(&init.state, &mut t, &m, &vec![Some(key(1))], PoolType::Marketing, PoolType::Team, 1),
        Err(VeraluxErrorCode::InsufficientSigners)
    );
    assert_eq!(t, moved);
}

#[test]
fn pause_scenario_time_lock() {
    let init = setup();
    let mut s = init.state;
    let start = 1_750_000_000;
    let pending = initiate_pause(&s, &init.multisig, &quorum(), String::from("audit"), start).unwrap();
    assert_eq!(confirm_pause(&mut s, pending, start + 3_600), Err(VeraluxErrorCode::TimeLockNotMet));
    assert!(!s.paused);
    let pending = initiate_pause(&s, &init.multisig, &quorum(), String::from("audit"), start).unwrap();
    assert_eq!(confirm_pause(&mut s, pending, start + 86_401), Ok(()));
    assert!(s.paused);
    assert_eq!(s.pause_reason, "audit");
    let resume = initiate_resume(&s, &init.multisig, &quorum(), start + 90_000).unwrap();
    assert_eq!(confirm_resume(&mut s, resume, start + 90_000 + 86_400), Ok(()));
    assert!(!s.paused);
    assert_eq!(s.pause_reason, "");
}

#[test]
fn reentrancy_guard_holds_flag() {
    let mut s = state();
    let g = ReentrancyGuard::new(&mut s).unwrap();
    assert!(s.is_processing);
    assert_eq!(ReentrancyGuard::new(&mut s).err(), Some(VeraluxErrorCode::ReentrancyGuardTriggered));
    g.release(&mut s);
    assert!(!s.is_processing);
}

#[test]
fn well_formedness_and_state_copy() {
    let mut s = state();
    assert!(s.is_well_formed());
    let copy = veralux::admin::query_state(&s);
    assert_eq!(copy.tax_rate, s.tax_rate);
    assert_eq!(copy.dex_programs, s.dex_programs);
    assert_eq!(copy.pause_reason, s.pause_reason);
    s.burn_alloc = 2500;
    assert!(!s.is_well_formed());
    s.burn_alloc = 2000;
    s.reduction_factors[2] = 2001;
    assert!(!s.is_well_formed());
}

#[test]
fn key_words_round_trip() {
    let k = Key::new(1, 2, 3, 4);
    assert_eq!(k, Key { w0: 1, w1: 2, w2: 3, w3: 4 });
    assert_eq!(Key::from_u64(9), Key { w0: 9, w1: 0, w2: 0, w3: 0 });
    assert_eq!(Key::zero(), Key::from_u64(0));
    assert!(veralux::key::contains_key(&owners(), &key(2)));
    assert!(!veralux::key::contains_key(&owners(), &key(4)));
    assert!(veralux::key::all_unique(&owners()));
    assert!(!veralux::key::all_unique(&vec![key(1), key(1)]));
}
