use vstd::prelude::*;

use crate::constants::{
    ADMIN_DELAY, MAX_DEXES, MAX_PAUSE_REASON_LEN, MAX_WHITELISTED, WHITELIST_DELAY,
};
use crate::error::VeraluxErrorCode;
use crate::governance::remove_first;
use crate::key::Key;
use crate::math::{delay_elapsed, has_elapsed};
use crate::multisig::{authorized, validate_multisig};
use crate::state::{
    ContractState, Multisig, PauseChange, PendingAction, PendingPause, PendingResume,
    PendingWhitelistChange, PendingWithdrawal, ResumeChange, WhitelistChange, WhitelistEntry,
    WithdrawalChange,
};
use crate::tax::whitelisted;

verus! {

/// Whether the state and signers allow an administrative operation.
pub open spec fn gate_failure(s: &ContractState, m: &Multisig, signers: Seq<Option<Key>>) -> Option<
    VeraluxErrorCode,
> {
    if s.is_processing {
        Some(VeraluxErrorCode::ReentrancyGuardTriggered)
    } else if s.paused {
        Some(VeraluxErrorCode::Paused)
    } else if authorized(m, signers) is Err {
        Some(authorized(m, signers)->Err_0)
    } else {
        None
    }
}

fn gate(state: &ContractState, multisig: &Multisig, signers: &Vec<Option<Key>>) -> (r: Result<
    (),
    VeraluxErrorCode,
>)
    ensures
        match gate_failure(state, multisig, signers@) {
            Some(e) => r == Err::<(), VeraluxErrorCode>(e),
            None => r is Ok,
        },
{
    if state.is_processing {
        return Err(VeraluxErrorCode::ReentrancyGuardTriggered);
    }
    if state.paused {
        return Err(VeraluxErrorCode::Paused);
    }
    validate_multisig(multisig, signers)
}

/// First half of a pause: on the owners' authority, records the reason (at most
/// 100 characters) and the time. Fails when already paused.
pub fn initiate_pause(
    state: &ContractState,
    multisig: &Multisig,
    signers: &Vec<Option<Key>>,
    reason: String,
    now: i64,
) -> (r: Result<PendingPause, VeraluxErrorCode>)
    ensures
        state.is_processing ==> r is Err && r->Err_0 == VeraluxErrorCode::ReentrancyGuardTriggered,
        !state.is_processing && state.paused ==> r is Err && r->Err_0
            == VeraluxErrorCode::AlreadyPaused,
        !state.is_processing && !state.paused && reason@.len() > MAX_PAUSE_REASON_LEN ==> r is Err
            && r->Err_0 == VeraluxErrorCode::DescriptionTooLong,
        !state.is_processing && !state.paused && reason@.len() <= MAX_PAUSE_REASON_LEN ==> match
            authorized(multisig, signers@) {
            Err(e) => r is Err && r->Err_0 == e,
            Ok(_) => r is Ok && r->Ok_0.change.reason@ == reason@ && r->Ok_0.initiation_time
                == now,
        },
{
    if state.is_processing {
        return Err(VeraluxErrorCode::ReentrancyGuardTriggered);
    }
    if state.paused {
        return Err(VeraluxErrorCode::AlreadyPaused);
    }
    if reason.as_str().unicode_len() > MAX_PAUSE_REASON_LEN {
        return Err(VeraluxErrorCode::DescriptionTooLong);
    }
    match validate_multisig(multisig, signers) {
        Ok(()) => {},
        Err(e) => return Err(e),
    }
    Ok(PendingAction { change: PauseChange { reason }, initiation_time: now })
}

/// Second half of a pause: once a day has passed since it was proposed, the ledger
/// pauses with the proposed reason. The pending pause is consumed either way.
pub fn confirm_pause(state: &mut ContractState, pending: PendingPause, now: i64) -> (r: Result<
    (),
    VeraluxErrorCode,
>)
    ensures
        old(state).is_processing ==> r == Err::<(), VeraluxErrorCode>(
            VeraluxErrorCode::ReentrancyGuardTriggered,
        ),
        !old(state).is_processing && old(state).paused ==> r == Err::<(), VeraluxErrorCode>(
            VeraluxErrorCode::AlreadyPaused,
        ),
        !old(state).is_processing && !old(state).paused && !delay_elapsed(
            pending.initiation_time,
            now,
            ADMIN_DELAY,
        ) ==> r == Err::<(), VeraluxErrorCode>(VeraluxErrorCode::TimeLockNotMet),
        r is Err ==> *final(state) == *old(state),
        !old(state).is_processing && !old(state).paused && delay_elapsed(
            pending.initiation_time,
            now,
            ADMIN_DELAY,
        ) ==> r is Ok && *final(state) == (ContractState {
            paused: true,
            pause_reason: pending.change.reason,
            ..*old(state)
        }),
{
    if state.is_processing {
        return Err(VeraluxErrorCode::ReentrancyGuardTriggered);
    }
    if state.paused {
        return Err(VeraluxErrorCode::AlreadyPaused);
    }
    if !has_elapsed(pending.initiation_time, now, ADMIN_DELAY) {
        return Err(VeraluxErrorCode::TimeLockNotMet);
    }
    state.paused = true;
    state.pause_reason = pending.change.reason;
    Ok(())
}

/// First half of a resume: on the owners' authority, records the time. Fails when
/// not paused.
pub fn initiate_resume(
    state: &ContractState,
    multisig: &Multisig,
    signers: &Vec<Option<Key>>,
    now: i64,
) -> (r: Result<PendingResume, VeraluxErrorCode>)
    ensures
        state.is_processing ==> r is Err && r->Err_0 == VeraluxErrorCode::ReentrancyGuardTriggered,
        !state.is_processing && !state.paused ==> r is Err && r->Err_0
            == VeraluxErrorCode::NotPaused,
        !state.is_processing && state.paused ==> match authorized(multisig, signers@) {
            Err(e) => r is Err && r->Err_0 == e,
            Ok(_) => r is Ok && r->Ok_0.initiation_time == now,
        },
{
    if state.is_processing {
        return Err(VeraluxErrorCode::ReentrancyGuardTriggered);
    }
    if !state.paused {
        return Err(VeraluxErrorCode::NotPaused);
    }
    match validate_multisig(multisig, signers) {
        Ok(()) => {},
        Err(e) => return Err(e),
    }
    Ok(PendingAction { change: ResumeChange {  }, initiation_time: now })
}

/// Second half of a resume: once a day has passed since it was proposed, the
/// ledger resumes and the pause reason is cleared.
pub fn confirm_resume(state: &mut ContractState, pending: PendingResume, now: i64) -> (r: Result<
    (),
    VeraluxErrorCode,
>)
    ensures
        old(state).is_processing ==> r == Err::<(), VeraluxErrorCode>(
            VeraluxErrorCode::ReentrancyGuardTriggered,
        ),
        !old(state).is_processing && !old(state).paused ==> r == Err::<(), VeraluxErrorCode>(
            VeraluxErrorCode::NotPaused,
        ),
        !old(state).is_processing && old(state).paused && !delay_elapsed(
            pending.initiation_time,
            now,
            ADMIN_DELAY,
        ) ==> r == Err::<(), VeraluxErrorCode>(VeraluxErrorCode::TimeLockNotMet),
        r is Err ==> *final(state) == *old(state),
        !old(state).is_processing && old(state).paused && delay_elapsed(
            pending.initiation_time,
            now,
            ADMIN_DELAY,
        ) ==> r is Ok && !final(state).paused && final(state).pause_reason@.len() == 0 && *final(state) == (ContractState {
            paused: false,
            pause_reason: final(state).pause_reason,
            ..*old(state)
        }),
{
    if state.is_processing {
        return Err(VeraluxErrorCode::ReentrancyGuardTriggered);
    }
    if !state.paused {
        return Err(VeraluxErrorCode::NotPaused);
    }
    if !has_elapsed(pending.initiation_time, now, ADMIN_DELAY) {
        return Err(VeraluxErrorCode::TimeLockNotMet);
    }
    state.paused = false;
    state.pause_reason = String::new();
    Ok(())
}

/// First half of a treasury withdrawal, on the owners' authority: records the
/// amount and the time.
pub fn initiate_withdrawal(
    state: &ContractState,
    multisig: &Multisig,
    signers: &Vec<Option<Key>>,
    amount: u64,
    now: i64,
) -> (r: Result<PendingWithdrawal, VeraluxErrorCode>)
    ensures
        match gate_failure(state, multisig, signers@) {
            Some(e) => r is Err && r->Err_0 == e,
            None => r is Ok && r->Ok_0.change == (WithdrawalChange { amount })
                && r->Ok_0.initiation_time == now,
        },
{
    match gate(state, multisig, signers) {
        Ok(()) => {},
        Err(e) => return Err(e),
    }
    Ok(PendingAction { change: WithdrawalChange { amount }, initiation_time: now })
}

/// Second half of a treasury withdrawal, on the owners' authority, once a day has
/// passed since it was proposed; returns the amount to send.
pub fn complete_withdrawal(
    state: &ContractState,
    multisig: &Multisig,
    signers: &Vec<Option<Key>>,
    pending: &PendingWithdrawal,
    now: i64,
) -> (r: Result<u64, VeraluxErrorCode>)
    ensures
        match gate_failure(state, multisig, signers@) {
            Some(e) => r == Err::<u64, VeraluxErrorCode>(e),
            None => if !delay_elapsed(pending.initiation_time, now, ADMIN_DELAY) {
                r == Err::<u64, VeraluxErrorCode>(VeraluxErrorCode::WithdrawalDelayNotMet)
            } else {
                r == Ok::<u64, VeraluxErrorCode>(pending.change.amount)
            },
        },
{
    match gate(state, multisig, signers) {
        Ok(()) => {},
        Err(e) => return Err(e),
    }
    if !has_elapsed(pending.initiation_time, now, ADMIN_DELAY) {
        return Err(VeraluxErrorCode::WithdrawalDelayNotMet);
    }
    Ok(pending.change.amount)
}

/// Whether an account (address, executable) is the executable program `p`.
pub open spec fn account_is(p: Key, a: (Key, bool)) -> bool {
    a.1 && a.0 == p
}

/// Whether each account matches the program at the same place and is executable.
pub open spec fn programs_match(programs: Seq<Key>, accounts: Seq<(Key, bool)>) -> bool {
    forall|i: int| 0 <= i < programs.len() ==> #[trigger] account_is(programs[i], accounts[i])
}

fn check_programs(programs: &Vec<Key>, accounts: &Vec<(Key, bool)>) -> (r: bool)
    requires
        programs@.len() == accounts@.len(),
    ensures
        r == programs_match(programs@, accounts@),
{
    let mut i: usize = 0;
    while i < programs.len()
        invariant
            i <= programs.len(),
            programs@.len() == accounts@.len(),
            forall|j: int| 0 <= j < i ==> #[trigger] account_is(programs@[j], accounts@[j]),
        decreases programs.len() - i,
    {
        let (account, executable) = accounts[i];
        if account != programs[i] || !executable {
            assert(!account_is(programs@[i as int], accounts@[i as int]));
            return false;
        }
        assert(account_is(programs@[i as int], accounts@[i as int]));
        i = i + 1;
    }
    true
}

/// Replaces the exchange programs (at most ten) on the owners' authority;
/// `accounts[i]` gives the address of the account presented for `dex_programs[i]`
/// and whether it is executable. On failure nothing changes.
pub fn update_dex_programs(
    state: &mut ContractState,
    multisig: &Multisig,
    signers: &Vec<Option<Key>>,
    dex_programs: Vec<Key>,
    accounts: &Vec<(Key, bool)>,
) -> (r: Result<(), VeraluxErrorCode>)
    requires
        old(state).wf(),
    ensures
        final(state).wf(),
        match gate_failure(old(state), multisig, signers@) {
            Some(e) => r == Err::<(), VeraluxErrorCode>(e),
            None => if dex_programs@.len() > MAX_DEXES {
                r == Err::<(), VeraluxErrorCode>(VeraluxErrorCode::TooManyDexPrograms)
            } else if accounts@.len() != dex_programs@.len() {
                r == Err::<(), VeraluxErrorCode>(VeraluxErrorCode::InvalidDexAccounts)
            } else if !programs_match(dex_programs@, accounts@) {
                r == Err::<(), VeraluxErrorCode>(VeraluxErrorCode::InvalidDexProgram)
            } else {
                r is Ok && final(state).dex_programs@ == dex_programs@ && *final(state) == (
                ContractState { dex_programs: final(state).dex_programs, ..*old(state) })
            },
        },
        r is Err ==> *final(state) == *old(state),
{
    match gate(state, multisig, signers) {
        Ok(()) => {},
        Err(e) => return Err(e),
    }
    if dex_programs.len() > MAX_DEXES {
        return Err(VeraluxErrorCode::TooManyDexPrograms);
    }
    if accounts.len() != dex_programs.len() {
        return Err(VeraluxErrorCode::InvalidDexAccounts);
    }
    if !check_programs(&dex_programs, accounts) {
        return Err(VeraluxErrorCode::InvalidDexProgram);
    }
    state.dex_programs = dex_programs;
    Ok(())
}

/// First half of adding a program to the whitelist, on the owners' authority;
/// the presented account must be the program and executable.
pub fn add_whitelisted_contract(
    state: &ContractState,
    multisig: &Multisig,
    signers: &Vec<Option<Key>>,
    contract: Key,
    contract_account: (Key, bool),
    now: i64,
) -> (r: Result<PendingWhitelistChange, VeraluxErrorCode>)
    ensures
        match gate_failure(state, multisig, signers@) {
            Some(e) => r is Err && r->Err_0 == e,
            None => if contract_account.0 != contract || !contract_account.1 {
                r is Err && r->Err_0 == VeraluxErrorCode::InvalidContract
            } else {
                r is Ok && r->Ok_0.change == (WhitelistChange { contract, add: true })
                    && r->Ok_0.initiation_time == now
            },
        },
{
    match gate(state, multisig, signers) {
        Ok(()) => {},
        Err(e) => return Err(e),
    }
    if contract_account.0 != contract || !contract_account.1 {
        return Err(VeraluxErrorCode::InvalidContract);
    }
    Ok(PendingAction { change: WhitelistChange { contract, add: true }, initiation_time: now })
}

/// First half of removing a program from the whitelist, on the owners' authority.
pub fn remove_whitelisted_contract(
    state: &ContractState,
    multisig: &Multisig,
    signers: &Vec<Option<Key>>,
    contract: Key,
    now: i64,
) -> (r: Result<PendingWhitelistChange, VeraluxErrorCode>)
    ensures
        match gate_failure(state, multisig, signers@) {
            Some(e) => r is Err && r->Err_0 == e,
            None => r is Ok && r->Ok_0.change == (WhitelistChange { contract, add: false })
                && r->Ok_0.initiation_time == now,
        },
{
    match gate(state, multisig, signers) {
        Ok(()) => {},
        Err(e) => return Err(e),
    }
    Ok(PendingAction { change: WhitelistChange { contract, add: false }, initiation_time: now })
}

/// The first reason, in the order checked, for which confirming a whitelist
/// change fails.
pub open spec fn whitelist_change_failure(s: &ContractState, p: &PendingWhitelistChange, now: int) -> Option<
    VeraluxErrorCode,
> {
    if s.is_processing {
        Some(VeraluxErrorCode::ReentrancyGuardTriggered)
    } else if s.paused {
        Some(VeraluxErrorCode::Paused)
    } else if !delay_elapsed(p.initiation_time, now as i64, WHITELIST_DELAY) {
        Some(VeraluxErrorCode::WhitelistDelayNotMet)
    } else if p.change.add && s.whitelisted_contracts@.len() >= MAX_WHITELISTED {
        Some(VeraluxErrorCode::TooManyWhitelistedContracts)
    } else if !p.change.add && !whitelisted(s.whitelisted_contracts@, p.change.contract) {
        Some(VeraluxErrorCode::ContractNotWhitelisted)
    } else {
        None
    }
}

/// Second half of a whitelist change, three days after it was proposed: an
/// addition appends the program with its own key as version hash (at most twenty
/// entries); a removal drops the program's first entry. On failure nothing changes.
pub fn confirm_whitelist_change(
    state: &mut ContractState,
    pending: &PendingWhitelistChange,
    now: i64,
) -> (r: Result<(), VeraluxErrorCode>)
    requires
        old(state).wf(),
    ensures
        final(state).wf(),
        match whitelist_change_failure(old(state), pending, now as int) {
            Some(e) => r == Err::<(), VeraluxErrorCode>(e) && *final(state) == *old(state),
            None => {
                &&& r is Ok
                &&& *final(state) == (ContractState {
                    whitelisted_contracts: final(state).whitelisted_contracts,
                    ..*old(state)
                })
                &&& final(state).whitelisted_contracts@ == if pending.change.add {
                    old(state).whitelisted_contracts@.push(
                        WhitelistEntry {
                            contract: pending.change.contract,
                            version_hash: pending.change.contract,
                        },
                    )
                } else {
                    remove_first(old(state).whitelisted_contracts@, pending.change.contract)
                }
            },
        },
{
    if state.is_processing {
        return Err(VeraluxErrorCode::ReentrancyGuardTriggered);
    }
    if state.paused {
        return Err(VeraluxErrorCode::Paused);
    }
    if !has_elapsed(pending.initiation_time, now, WHITELIST_DELAY) {
        return Err(VeraluxErrorCode::WhitelistDelayNotMet);
    }
    let contract = pending.change.contract;
    if pending.change.add {
        if state.whitelisted_contracts.len() >= MAX_WHITELISTED {
            return Err(VeraluxErrorCode::TooManyWhitelistedContracts);
        }
        state.whitelisted_contracts.push(WhitelistEntry { contract, version_hash: contract });
        Ok(())
    } else {
        if !crate::tax::is_whitelisted(&state.whitelisted_contracts, &contract) {
            return Err(VeraluxErrorCode::ContractNotWhitelisted);
        }
        crate::governance::remove_whitelist_key(&mut state.whitelisted_contracts, contract);
        Ok(())
    }
}

/// Whether `a` and `b` hold the same policy state.
pub open spec fn same_state(a: &ContractState, b: &ContractState) -> bool {
    &&& *b == ContractState {
        pause_reason: b.pause_reason,
        dex_programs: b.dex_programs,
        whitelisted_contracts: b.whitelisted_contracts,
        allowed_destinations: b.allowed_destinations,
        ..*a
    }
    &&& b.pause_reason@ == a.pause_reason@
    &&& b.dex_programs@ == a.dex_programs@
    &&& b.whitelisted_contracts@ == a.whitelisted_contracts@
    &&& b.allowed_destinations@ == a.allowed_destinations@
}

/// A copy of the policy state, for reading.
pub fn query_state(state: &ContractState) -> (r: ContractState)
    ensures
        same_state(state, &r),
{
    let dex_programs = state.dex_programs.clone();
    let whitelisted_contracts = state.whitelisted_contracts.clone();
    let allowed_destinations = state.allowed_destinations.clone();
    assert(dex_programs@ =~= state.dex_programs@);
    assert(whitelisted_contracts@ =~= state.whitelisted_contracts@);
    assert(allowed_destinations@ =~= state.allowed_destinations@);
    ContractState {
        authority: state.authority,
        admin: state.admin,
        paused: state.paused,
        pause_reason: state.pause_reason.clone(),
        treasury: state.treasury,
        charity_wallet: state.charity_wallet,
        team_wallet: state.team_wallet,
        liquidity_pool: state.liquidity_pool,
        proposal_count: state.proposal_count,
        total_voting_power: state.total_voting_power,
        launch_timestamp: state.launch_timestamp,
        tax_rate: state.tax_rate,
        staking_tiers: state.staking_tiers,
        burn_alloc: state.burn_alloc,
        treasury_alloc: state.treasury_alloc,
        liquidity_pool_alloc: state.liquidity_pool_alloc,
        lp_incentive_alloc: state.lp_incentive_alloc,
        charity_alloc: state.charity_alloc,
        team_alloc: state.team_alloc,
        reduction_thresholds: state.reduction_thresholds,
        reduction_factors: state.reduction_factors,
        dex_programs,
        whitelisted_contracts,
        allowed_destinations,
        max_sell_txn_limit: state.max_sell_txn_limit,
        daily_sell_limit: state.daily_sell_limit,
        max_transfer_limit: state.max_transfer_limit,
        daily_transfer_limit: state.daily_transfer_limit,
        progressive_tax_threshold: state.progressive_tax_threshold,
        staking_rewards: state.staking_rewards,
        presale_usdt_receiver: state.presale_usdt_receiver,
        presale_active: state.presale_active,
        total_presale_sold: state.total_presale_sold,
        last_processed_day: state.last_processed_day,
        is_processing: state.is_processing,
        last_processed_index: state.last_processed_index,
        lp_reward_amount: state.lp_reward_amount,
    }
}

} // verus!
