use vstd::prelude::*;

use crate::admin::{account_is, programs_match};
use crate::constants::{
    DAILY_SELL_LIMIT, DAILY_TRANSFER_LIMIT, INITIAL_TAX_RATE, MAX_DEXES, MAX_INITIAL_OWNERS,
    MAX_SELL_TXN_LIMIT, MAX_TRANSFER_LIMIT, PROGRESSIVE_TAX_THRESHOLD,
};
use crate::error::VeraluxErrorCode;
use crate::key::{all_unique, keys_unique, Key};
use crate::multisig::{authorized, validate_multisig};
use crate::state::{ContractState, MigrationState, Multisig, Treasury};

verus! {

/// Parameters of the initial setup of the ledger.
pub struct InitGlobalIx {
    pub charity_wallet: Key,
    pub team_wallet: Key,
    pub liquidity_pool: Key,
    pub launch_timestamp: i64,
    pub presale_usdt_receiver: Key,
    pub initial_owners: Vec<Key>,
    pub initial_dex_programs: Vec<Key>,
    pub threshold: u8,
}

/// Addresses the authority may change directly; a zero launch time keeps the
/// current one.
#[derive(Clone, Copy, Debug, PartialEq, Eq, Structural)]
pub struct UpdateGlobalIx {
    pub presale_usdt_receiver: Key,
    pub launch_timestamp: i64,
    pub team_wallet: Key,
    pub charity_wallet: Key,
}

/// The records a successful setup creates.
pub struct Initialized {
    pub state: ContractState,
    pub treasury: Treasury,
    pub multisig: Multisig,
    pub migration_state: MigrationState,
}

/// The first reason, in the order checked, for which setting up fails.
pub open spec fn setup_failure(
    existing: &Multisig,
    signers: Seq<Option<Key>>,
    owners: Seq<Key>,
    threshold: int,
    dex: Seq<Key>,
    accounts: Seq<(Key, bool)>,
    max_dexes: int,
) -> Option<VeraluxErrorCode> {
    if threshold < 2 {
        Some(VeraluxErrorCode::InvalidThreshold)
    } else if owners.len() < 3 || owners.len() > MAX_INITIAL_OWNERS {
        Some(VeraluxErrorCode::TooFewOwners)
    } else if !keys_unique(owners) {
        Some(VeraluxErrorCode::DuplicateOwners)
    } else if authorized(existing, signers) is Err {
        Some(authorized(existing, signers)->Err_0)
    } else if accounts.len() != dex.len() {
        Some(VeraluxErrorCode::InvalidAccounts)
    } else if !programs_match(dex, accounts) {
        Some(VeraluxErrorCode::InvalidDexProgram)
    } else if dex.len() > max_dexes {
        Some(VeraluxErrorCode::VectorOverflow)
    } else if threshold > owners.len() {
        Some(VeraluxErrorCode::InvalidProposal)
    } else {
        None
    }
}

/// Whether `s` is the policy state a setup with these parameters starts from.
pub open spec fn is_initial_state(
    s: &ContractState,
    ix: &InitGlobalIx,
    authority: Key,
    admin: Key,
    treasury_address: Key,
) -> bool {
    &&& s.authority == authority
    &&& s.admin == admin
    &&& !s.paused
    &&& s.pause_reason@.len() == 0
    &&& s.treasury == treasury_address
    &&& s.charity_wallet == ix.charity_wallet
    &&& s.team_wallet == ix.team_wallet
    &&& s.liquidity_pool == ix.liquidity_pool
    &&& s.proposal_count == 0
    &&& s.total_voting_power == 0
    &&& s.launch_timestamp == ix.launch_timestamp
    &&& s.tax_rate == INITIAL_TAX_RATE
    &&& s.staking_tiers@ == seq![
        20_000_000_000_000u64,
        100_000_000_000_000u64,
        500_000_000_000_000u64,
        5_000_000_000_000_000u64,
    ]
    &&& s.burn_alloc == 2000
    &&& s.treasury_alloc == 2000
    &&& s.liquidity_pool_alloc == 2400
    &&& s.lp_incentive_alloc == 600
    &&& s.charity_alloc == 2000
    &&& s.team_alloc == 1000
    &&& s.reduction_thresholds@ == seq![250u64, 500u64, 750u64]
    &&& s.reduction_factors@ == seq![512u64, 640u64, 800u64, 1000u64]
    &&& s.dex_programs@ == ix.initial_dex_programs@
    &&& s.whitelisted_contracts@.len() == 0
    &&& s.allowed_destinations@.len() == 0
    &&& s.max_sell_txn_limit == MAX_SELL_TXN_LIMIT
    &&& s.daily_sell_limit == DAILY_SELL_LIMIT
    &&& s.max_transfer_limit == MAX_TRANSFER_LIMIT
    &&& s.daily_transfer_limit == DAILY_TRANSFER_LIMIT
    &&& s.progressive_tax_threshold == PROGRESSIVE_TAX_THRESHOLD
    &&& s.staking_rewards@ == seq![
        500_000_000_000u64,
        2_500_000_000_000u64,
        12_500_000_000_000u64,
        125_000_000_000_000u64,
    ]
    &&& s.presale_usdt_receiver == ix.presale_usdt_receiver
    &&& s.presale_active
    &&& s.total_presale_sold == 0
    &&& s.last_processed_day == 0
    &&& !s.is_processing
    &&& s.last_processed_index == 0
    &&& s.lp_reward_amount == 0
}

fn check_dex_accounts(programs: &Vec<Key>, accounts: &Vec<(Key, bool)>) -> (r: bool)
    requires
        programs@.len() == accounts@.len(),
    ensures
        r == programs_match(programs@, accounts@),
{
    let mut i: usize = 0;
    while i < programs.len()
        invariant
            i <= programs.len(),
            programs@.len() == accounts@.len(),
            forall|j: int| 0 <= j < i ==> #[trigger] account_is(programs@[j], accounts@[j]),
        decreases programs.len() - i,
    {
        let (account, executable) = accounts[i];
        if account != programs[i] || !executable {
            assert(!account_is(programs@[i as int], accounts@[i as int]));
            return false;
        }
        assert(account_is(programs@[i as int], accounts@[i as int]));
        i = i + 1;
    }
    true
}

fn set_up(
    existing: &Multisig,
    signers: &Vec<Option<Key>>,
    ix: InitGlobalIx,
    dex_accounts: &Vec<(Key, bool)>,
    authority: Key,
    admin: Key,
    treasury_address: Key,
    max_dexes: usize,
) -> (r: Result<Initialized, VeraluxErrorCode>)
    requires
        max_dexes <= MAX_DEXES,
    ensures
        match setup_failure(
            existing,
            signers@,
            ix.initial_owners@,
            ix.threshold as int,
            ix.initial_dex_programs@,
            dex_accounts@,
            max_dexes as int,
        ) {
            Some(e) => r is Err && r->Err_0 == e,
            None => {
                &&& r is Ok
                &&& is_initial_state(&r->Ok_0.state, &ix, authority, admin, treasury_address)
                &&& r->Ok_0.state.wf()
                &&& r->Ok_0.treasury == Treasury::initial_spec()
                &&& r->Ok_0.multisig.owners@ == ix.initial_owners@
                &&& r->Ok_0.multisig.threshold == ix.threshold
                &&& r->Ok_0.migration_state == (MigrationState {
                    total_locked: 0,
                    migration_active: false,
                    migration_toggle_timestamp: 0,
                })
            },
        },
{
    if ix.threshold < 2 {
        return Err(VeraluxErrorCode::InvalidThreshold);
    }
    if ix.initial_owners.len() < 3 || ix.initial_owners.len() > MAX_INITIAL_OWNERS {
        return Err(VeraluxErrorCode::TooFewOwners);
    }
    if !all_unique(&ix.initial_owners) {
        return Err(VeraluxErrorCode::DuplicateOwners);
    }
    match validate_multisig(existing, signers) {
        Ok(()) => {},
        Err(e) => return Err(e),
    }
    if dex_accounts.len() != ix.initial_dex_programs.len() {
        return Err(VeraluxErrorCode::InvalidAccounts);
    }
    if !check_dex_accounts(&ix.initial_dex_programs, dex_accounts) {
        return Err(VeraluxErrorCode::InvalidDexProgram);
    }
    if ix.initial_dex_programs.len() > max_dexes {
        return Err(VeraluxErrorCode::VectorOverflow);
    }
    if ix.threshold as usize > ix.initial_owners.len() {
        return Err(VeraluxErrorCode::InvalidProposal);
    }
    let state = ContractState {
        authority,
        admin,
        paused: false,
        pause_reason: String::new(),
        treasury: treasury_address,
        charity_wallet: ix.charity_wallet,
        team_wallet: ix.team_wallet,
        liquidity_pool: ix.liquidity_pool,
        proposal_count: 0,
        total_voting_power: 0,
        launch_timestamp: ix.launch_timestamp,
        tax_rate: INITIAL_TAX_RATE,
        staking_tiers: [
            20_000_000_000_000,
            100_000_000_000_000,
            500_000_000_000_000,
            5_000_000_000_000_000,
        ],
        burn_alloc: 2000,
        treasury_alloc: 2000,
        liquidity_pool_alloc: 2400,
        lp_incentive_alloc: 600,
        charity_alloc: 2000,
        team_alloc: 1000,
        reduction_thresholds: [250, 500, 750],
        reduction_factors: [512, 640, 800, 1000],
        dex_programs: ix.initial_dex_programs,
        whitelisted_contracts: Vec::new(),
        allowed_destinations: Vec::new(),
        max_sell_txn_limit: MAX_SELL_TXN_LIMIT,
        daily_sell_limit: DAILY_SELL_LIMIT,
        max_transfer_limit: MAX_TRANSFER_LIMIT,
        daily_transfer_limit: DAILY_TRANSFER_LIMIT,
        progressive_tax_threshold: PROGRESSIVE_TAX_THRESHOLD,
        staking_rewards: [500_000_000_000, 2_500_000_000_000, 12_500_000_000_000, 125_000_000_000_000],
        presale_usdt_receiver: ix.presale_usdt_receiver,
        presale_active: true,
        total_presale_sold: 0,
        last_processed_day: 0,
        is_processing: false,
        last_processed_index: 0,
        lp_reward_amount: 0,
    };
    assert(state.staking_tiers@ =~= seq![
        20_000_000_000_000u64,
        100_000_000_000_000u64,
        500_000_000_000_000u64,
        5_000_000_000_000_000u64,
    ]);
    assert(state.reduction_thresholds@ =~= seq![250u64, 500u64, 750u64]);
    assert(state.reduction_factors@ =~= seq![512u64, 640u64, 800u64, 1000u64]);
    assert(state.staking_rewards@ =~= seq![
        500_000_000_000u64,
        2_500_000_000_000u64,
        12_500_000_000_000u64,
        125_000_000_000_000u64,
    ]);
    assert(forall|i: int| 0 <= i < 4 ==> #[trigger] state.reduction_factors[i] <= 2000);
    Ok(Initialized {
        state,
        treasury: Treasury::initial(),
        multisig: Multisig { owners: ix.initial_owners, threshold: ix.threshold },
        migration_state: MigrationState {
            total_locked: 0,
            migration_active: false,
            migration_toggle_timestamp: 0,
        },
    })
}

/// Sets up the ledger: three to five distinct owners with a threshold of at least
/// two, authorized by the signers against the owner record as it stands (an empty
/// one at bootstrap), and at most ten exchange programs, each presented as an
/// executable account. `authority` is the first signer; `admin` and
/// `treasury_address` are the addresses of the owner record and the treasury.
pub fn initialize(
    existing: &Multisig,
    signers: &Vec<Option<Key>>,
    ix: InitGlobalIx,
    dex_accounts: &Vec<(Key, bool)>,
    authority: Key,
    admin: Key,
    treasury_address: Key,
) -> (r: Result<Initialized, VeraluxErrorCode>)
    ensures
        match setup_failure(
            existing,
            signers@,
            ix.initial_owners@,
            ix.threshold as int,
            ix.initial_dex_programs@,
            dex_accounts@,
            MAX_DEXES as int,
        ) {
            Some(e) => r is Err && r->Err_0 == e,
            None => {
                &&& r is Ok
                &&& is_initial_state(&r->Ok_0.state, &ix, authority, admin, treasury_address)
                &&& r->Ok_0.state.wf()
                &&& r->Ok_0.treasury == Treasury::initial_spec()
                &&& r->Ok_0.multisig.owners@ == ix.initial_owners@
                &&& r->Ok_0.multisig.threshold == ix.threshold
                &&& r->Ok_0.migration_state == (MigrationState {
                    total_locked: 0,
                    migration_active: false,
                    migration_toggle_timestamp: 0,
                })
            },
        },
{
    set_up(existing, signers, ix, dex_accounts, authority, admin, treasury_address, MAX_DEXES)
}

/// The same setup with at most five exchange programs.
pub fn init_global(
    existing: &Multisig,
    signers: &Vec<Option<Key>>,
    ix: InitGlobalIx,
    dex_accounts: &Vec<(Key, bool)>,
    authority: Key,
    admin: Key,
    treasury_address: Key,
) -> (r: Result<Initialized, VeraluxErrorCode>)
    ensures
        match setup_failure(
            existing,
            signers@,
            ix.initial_owners@,
            ix.threshold as int,
            ix.initial_dex_programs@,
            dex_accounts@,
            5,
        ) {
            Some(e) => r is Err && r->Err_0 == e,
            None => {
                &&& r is Ok
                &&& is_initial_state(&r->Ok_0.state, &ix, authority, admin, treasury_address)
                &&& r->Ok_0.state.wf()
                &&& r->Ok_0.treasury == Treasury::initial_spec()
                &&& r->Ok_0.multisig.owners@ == ix.initial_owners@
                &&& r->Ok_0.multisig.threshold == ix.threshold
            },
        },
{
    set_up(existing, signers, ix, dex_accounts, authority, admin, treasury_address, 5)
}

/// Lets the authority change the wallet addresses and (when non-zero) the launch
/// time directly. On failure nothing changes.
pub fn update_global(state: &mut ContractState, signer: Key, ix: &UpdateGlobalIx) -> (r: Result<
    (),
    VeraluxErrorCode,
>)
    ensures
        old(state).authority != signer ==> r == Err::<(), VeraluxErrorCode>(
            VeraluxErrorCode::Unauthorized,
        ) && *final(state) == *old(state),
        old(state).authority == signer ==> r is Ok && *final(state) == (ContractState {
            launch_timestamp: if ix.launch_timestamp > 0 {
                ix.launch_timestamp
            } else {
                old(state).launch_timestamp
            },
            team_wallet: ix.team_wallet,
            charity_wallet: ix.charity_wallet,
            presale_usdt_receiver: ix.presale_usdt_receiver,
            ..*old(state)
        }),
{
    if state.authority != signer {
        return Err(VeraluxErrorCode::Unauthorized);
    }
    if ix.launch_timestamp > 0 {
        state.launch_timestamp = ix.launch_timestamp;
    }
    state.team_wallet = ix.team_wallet;
    state.charity_wallet = ix.charity_wallet;
    state.presale_usdt_receiver = ix.presale_usdt_receiver;
    Ok(())
}

} // verus!
