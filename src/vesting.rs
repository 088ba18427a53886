use vstd::prelude::*;

use crate::constants::{
    FREELANCER_CLAIM_CAP, FREELANCER_CLAIM_COOLDOWN, KYC_USDT_THRESHOLD, PRESALE_MAX_PER_WALLET,
    PRESALE_PRICE_PER_TOKEN, PRESALE_SUPPLY, PRESALE_WEEK, TEAM_CLAIM_CAP, TOKEN_UNIT,
    VESTING_MONTH,
};
use crate::error::VeraluxErrorCode;
use crate::key::Key;
use crate::math::{elapsed, fits_i64};
use crate::multisig::{authorized, validate_multisig};
use crate::state::{
    ContractState, FreelancerVesting, Multisig, PresalePurchase, PresaleVesting, TeamVesting,
};

verus! {

/// Tokens (base units) bought with `usdt` base units at the presale price.
pub open spec fn presale_tokens(usdt: int) -> int {
    usdt * TOKEN_UNIT / PRESALE_PRICE_PER_TOKEN as int
}

/// The first reason, in the order checked, for which a presale purchase fails.
pub open spec fn buy_failure(
    s: &ContractState,
    p: PresalePurchase,
    v: PresaleVesting,
    usdt: int,
) -> Option<VeraluxErrorCode> {
    let tokens = presale_tokens(usdt);
    if s.is_processing {
        Some(VeraluxErrorCode::ReentrancyGuardTriggered)
    } else if s.paused {
        Some(VeraluxErrorCode::Paused)
    } else if !s.presale_active {
        Some(VeraluxErrorCode::PresaleNotActive)
    } else if tokens > u64::MAX || s.total_presale_sold + tokens > u64::MAX {
        Some(VeraluxErrorCode::ArithmeticOverflow)
    } else if s.total_presale_sold + tokens > PRESALE_SUPPLY {
        Some(VeraluxErrorCode::PresaleSupplyExceeded)
    } else if usdt >= KYC_USDT_THRESHOLD && !p.kyc_verified {
        Some(VeraluxErrorCode::KYCRequired)
    } else if p.total_purchased + tokens > u64::MAX {
        Some(VeraluxErrorCode::ArithmeticOverflow)
    } else if p.total_purchased + tokens > PRESALE_MAX_PER_WALLET {
        Some(VeraluxErrorCode::PresaleMaxPerWalletExceeded)
    } else if v.total_amount + tokens > u64::MAX {
        Some(VeraluxErrorCode::ArithmeticOverflow)
    } else {
        None
    }
}

/// Buys presale tokens for `usdt_amount` USDT base units (1600 per whole token).
/// Purchases of 1000 units or more need a verified buyer; the presale supply and the
/// per-wallet cap bound what can be bought. The bought amount vests on the presale
/// schedule; it is returned. On failure nothing changes.
pub fn buy_presale(
    state: &mut ContractState,
    purchase: &mut PresalePurchase,
    vesting: &mut PresaleVesting,
    buyer: Key,
    usdt_amount: u64,
) -> (r: Result<u64, VeraluxErrorCode>)
    ensures
        match buy_failure(old(state), *old(purchase), *old(vesting), usdt_amount as int) {
            Some(e) => r == Err::<u64, VeraluxErrorCode>(e) && *final(state) == *old(state)
                && *final(purchase) == *old(purchase) && *final(vesting) == *old(vesting),
            None => {
                let tokens = presale_tokens(usdt_amount as int);
                &&& r == Ok::<u64, VeraluxErrorCode>(tokens as u64)
                &&& *final(state) == (ContractState {
                    total_presale_sold: (old(state).total_presale_sold + tokens) as u64,
                    ..*old(state)
                })
                &&& *final(purchase) == (PresalePurchase {
                    wallet: buyer,
                    total_purchased: (old(purchase).total_purchased + tokens) as u64,
                    ..*old(purchase)
                })
                &&& *final(vesting) == (PresaleVesting {
                    total_amount: (old(vesting).total_amount + tokens) as u64,
                    ..*old(vesting)
                })
            },
        },
{
    if state.is_processing {
        return Err(VeraluxErrorCode::ReentrancyGuardTriggered);
    }
    if state.paused {
        return Err(VeraluxErrorCode::Paused);
    }
    if !state.presale_active {
        return Err(VeraluxErrorCode::PresaleNotActive);
    }
    let wide: u128 = (usdt_amount as u128) * (TOKEN_UNIT as u128) / (PRESALE_PRICE_PER_TOKEN as u128);
    if wide > u64::MAX as u128 {
        return Err(VeraluxErrorCode::ArithmeticOverflow);
    }
    let tokens = wide as u64;
    let sold = match state.total_presale_sold.checked_add(tokens) {
        Some(v) => v,
        None => return Err(VeraluxErrorCode::ArithmeticOverflow),
    };
    if sold > PRESALE_SUPPLY {
        return Err(VeraluxErrorCode::PresaleSupplyExceeded);
    }
    if usdt_amount >= KYC_USDT_THRESHOLD && !purchase.kyc_verified {
        return Err(VeraluxErrorCode::KYCRequired);
    }
    let bought = match purchase.total_purchased.checked_add(tokens) {
        Some(v) => v,
        None => return Err(VeraluxErrorCode::ArithmeticOverflow),
    };
    if bought > PRESALE_MAX_PER_WALLET {
        return Err(VeraluxErrorCode::PresaleMaxPerWalletExceeded);
    }
    let vested_total = match vesting.total_amount.checked_add(tokens) {
        Some(v) => v,
        None => return Err(VeraluxErrorCode::ArithmeticOverflow),
    };
    purchase.wallet = buyer;
    purchase.total_purchased = bought;
    vesting.total_amount = vested_total;
    state.total_presale_sold = sold;
    Ok(tokens)
}

/// The purchase and vesting records a buyer starts the presale with.
pub fn init_presale(buyer: Key) -> (r: (PresalePurchase, PresaleVesting))
    ensures
        r.0 == (PresalePurchase { wallet: buyer, total_purchased: 0, kyc_verified: true }),
        r.1 == (PresaleVesting { total_amount: 0, claimed_amount: 0 }),
{
    (
        PresalePurchase { wallet: buyer, total_purchased: 0, kyc_verified: true },
        PresaleVesting { total_amount: 0, claimed_amount: 0 },
    )
}

/// Percentage of a presale allocation unlocked `weeks` whole weeks after launch.
pub open spec fn presale_unlock_pct(weeks: int) -> int {
    if 10 + 10 * weeks < 100 {
        10 + 10 * weeks
    } else {
        100
    }
}

/// Percentage of a team allocation unlocked `months` whole 30-day months after the
/// schedule starts: nothing before month three, then ten points a month.
pub open spec fn team_unlock_pct(months: int) -> int {
    if months < 3 {
        0
    } else if 10 * (months - 2) < 100 {
        10 * (months - 2)
    } else {
        100
    }
}

/// Amount of `total` unlocked at `pct` percent.
pub open spec fn unlocked(total: int, pct: int) -> int {
    total * pct / 100
}

/// Whole weeks since launch at `now`.
pub open spec fn presale_weeks(s: &ContractState, now: int) -> int {
    (now - s.launch_timestamp) / PRESALE_WEEK as int
}

/// The first reason, in the order checked, for which a presale claim fails.
pub open spec fn presale_claim_failure(s: &ContractState, v: PresaleVesting, now: int) -> Option<
    VeraluxErrorCode,
> {
    if s.is_processing {
        Some(VeraluxErrorCode::ReentrancyGuardTriggered)
    } else if s.paused {
        Some(VeraluxErrorCode::Paused)
    } else if v.total_amount == 0 {
        Some(VeraluxErrorCode::UninitializedAccount)
    } else if !fits_i64(now - s.launch_timestamp) {
        Some(VeraluxErrorCode::ArithmeticOverflow)
    } else if now - s.launch_timestamp < 0 {
        Some(VeraluxErrorCode::VestingNotStarted)
    } else if unlocked(v.total_amount as int, presale_unlock_pct(presale_weeks(s, now)))
        < v.claimed_amount {
        Some(VeraluxErrorCode::ArithmeticOverflow)
    } else {
        None
    }
}

fn pct_of(total: u64, pct: u64) -> (r: u64)
    requires
        pct <= 100,
    ensures
        r == unlocked(total as int, pct as int),
        r <= total,
{
    proof {
        assert((total as int) * (pct as int) <= (total as int) * 100) by (nonlinear_arith)
            requires
                pct <= 100,
                total >= 0,
        ;
    }
    ((total as u128) * (pct as u128) / 100) as u64
}

/// Claims the unlocked part of a presale allocation: ten percent at launch and ten
/// more each week, up to all of it. Returns what is paid now (0, with no change,
/// when nothing more is unlocked). The claimed amount only grows and never passes
/// the unlocked amount. On failure nothing changes.
pub fn claim_presale_tokens(state: &ContractState, vesting: &mut PresaleVesting, now: i64) -> (r:
    Result<u64, VeraluxErrorCode>)
    ensures
        match presale_claim_failure(state, *old(vesting), now as int) {
            Some(e) => r == Err::<u64, VeraluxErrorCode>(e) && *final(vesting) == *old(vesting),
            None => {
                let vested = unlocked(
                    old(vesting).total_amount as int,
                    presale_unlock_pct(presale_weeks(state, now as int)),
                );
                &&& r == Ok::<u64, VeraluxErrorCode>((vested - old(vesting).claimed_amount) as u64)
                &&& *final(vesting) == (PresaleVesting {
                    claimed_amount: vested as u64,
                    ..*old(vesting)
                })
            },
        },
        r is Ok ==> old(vesting).claimed_amount <= final(vesting).claimed_amount <= unlocked(
            old(vesting).total_amount as int,
            presale_unlock_pct(presale_weeks(state, now as int)),
        ),
{
    if state.is_processing {
        return Err(VeraluxErrorCode::ReentrancyGuardTriggered);
    }
    if state.paused {
        return Err(VeraluxErrorCode::Paused);
    }
    if vesting.total_amount == 0 {
        return Err(VeraluxErrorCode::UninitializedAccount);
    }
    let since = match elapsed(now, state.launch_timestamp) {
        Ok(d) => d,
        Err(e) => return Err(e),
    };
    if since < 0 {
        return Err(VeraluxErrorCode::VestingNotStarted);
    }
    let weeks = (since as u64) / (PRESALE_WEEK as u64);
    let pct: u64 = if weeks < 9 {
        10 + 10 * weeks
    } else {
        100
    };
    let vested = pct_of(vesting.total_amount, pct);
    if vested < vesting.claimed_amount {
        return Err(VeraluxErrorCode::ArithmeticOverflow);
    }
    let claimable = vested - vesting.claimed_amount;
    vesting.claimed_amount = vested;
    Ok(claimable)
}

/// Claiming presale tokens twice at the same time pays nothing the second time:
/// after a successful claim the claimed amount equals the unlocked amount.
pub proof fn lemma_presale_claim_idempotent(s: &ContractState, v: PresaleVesting, now: int)
    requires
        presale_claim_failure(s, v, now) is None,
    ensures
        ({
            let vested = unlocked(v.total_amount as int, presale_unlock_pct(presale_weeks(s, now)));
            let after = PresaleVesting { claimed_amount: vested as u64, ..v };
            &&& v.claimed_amount <= after.claimed_amount
            &&& presale_claim_failure(s, after, now) is None
            &&& unlocked(after.total_amount as int, presale_unlock_pct(presale_weeks(s, now)))
                - after.claimed_amount == 0
        }),
{
    let pct = presale_unlock_pct(presale_weeks(s, now));
    assert(0 <= pct <= 100);
    assert(v.total_amount * pct <= v.total_amount * 100) by (nonlinear_arith)
        requires
            0 <= pct <= 100,
            v.total_amount >= 0,
    ;
    assert(unlocked(v.total_amount as int, pct) <= v.total_amount);
}

/// Whether the signers and state allow an administrative vesting change.
pub open spec fn admin_failure(s: &ContractState, m: &Multisig, signers: Seq<Option<Key>>) -> Option<
    VeraluxErrorCode,
> {
    if s.is_processing {
        Some(VeraluxErrorCode::ReentrancyGuardTriggered)
    } else if s.paused {
        Some(VeraluxErrorCode::Paused)
    } else if authorized(m, signers) is Err {
        Some(authorized(m, signers)->Err_0)
    } else {
        None
    }
}

fn check_admin(state: &ContractState, multisig: &Multisig, signers: &Vec<Option<Key>>) -> (r:
    Result<(), VeraluxErrorCode>)
    ensures
        match admin_failure(state, multisig, signers@) {
            Some(e) => r == Err::<(), VeraluxErrorCode>(e),
            None => r is Ok,
        },
{
    if state.is_processing {
        return Err(VeraluxErrorCode::ReentrancyGuardTriggered);
    }
    if state.paused {
        return Err(VeraluxErrorCode::Paused);
    }
    validate_multisig(multisig, signers)
}

/// Sets up (or replaces) a team member's schedule on the owners' authority:
/// `immediate_amount` is paid at once and the rest of `total_amount` vests from
/// `now`. Returns the amount to pay at once. On failure nothing changes.
pub fn update_team_vesting(
    state: &ContractState,
    multisig: &Multisig,
    signers: &Vec<Option<Key>>,
    team_vesting: &mut TeamVesting,
    team_member: Key,
    total_amount: u64,
    immediate_amount: u64,
    now: i64,
) -> (r: Result<u64, VeraluxErrorCode>)
    ensures
        admin_failure(state, multisig, signers@) is Some ==> r == Err::<u64, VeraluxErrorCode>(
            admin_failure(state, multisig, signers@)->Some_0,
        ),
        admin_failure(state, multisig, signers@) is None && immediate_amount > total_amount ==> r
            == Err::<u64, VeraluxErrorCode>(VeraluxErrorCode::InvalidImmediateAmount),
        r is Err ==> *final(team_vesting) == *old(team_vesting),
        admin_failure(state, multisig, signers@) is None && immediate_amount <= total_amount ==> r
            == Ok::<u64, VeraluxErrorCode>(immediate_amount) && *final(team_vesting) == (
        TeamVesting {
            team_member,
            total_amount: (total_amount - immediate_amount) as u64,
            claimed_amount: 0,
            start_time: now,
            canceled: false,
            canceled_at: 0,
        }),
{
    match check_admin(state, multisig, signers) {
        Ok(()) => {},
        Err(e) => return Err(e),
    }
    if immediate_amount > total_amount {
        return Err(VeraluxErrorCode::InvalidImmediateAmount);
    }
    *team_vesting = TeamVesting {
        team_member,
        total_amount: total_amount - immediate_amount,
        claimed_amount: 0,
        start_time: now,
        canceled: false,
        canceled_at: 0,
    };
    Ok(immediate_amount)
}

/// Cancels a team member's schedule on the owners' authority: unlocking stops at
/// `now`, and what had unlocked by then can still be claimed. On failure nothing
/// changes.
pub fn cancel_team_vesting(
    state: &ContractState,
    multisig: &Multisig,
    signers: &Vec<Option<Key>>,
    team_vesting: &mut TeamVesting,
    team_member: Key,
    now: i64,
) -> (r: Result<(), VeraluxErrorCode>)
    ensures
        admin_failure(state, multisig, signers@) is Some ==> r == Err::<(), VeraluxErrorCode>(
            admin_failure(state, multisig, signers@)->Some_0,
        ),
        admin_failure(state, multisig, signers@) is None && old(team_vesting).team_member
            != team_member ==> r == Err::<(), VeraluxErrorCode>(
            VeraluxErrorCode::InvalidTeamMember,
        ),
        admin_failure(state, multisig, signers@) is None && old(team_vesting).team_member
            == team_member && old(team_vesting).canceled ==> r == Err::<(), VeraluxErrorCode>(
            VeraluxErrorCode::VestingCanceled,
        ),
        r is Err ==> *final(team_vesting) == *old(team_vesting),
        admin_failure(state, multisig, signers@) is None && old(team_vesting).team_member
            == team_member && !old(team_vesting).canceled ==> r is Ok && *final(team_vesting) == (
        TeamVesting { canceled: true, canceled_at: now, ..*old(team_vesting) }),
{
    match check_admin(state, multisig, signers) {
        Ok(()) => {},
        Err(e) => return Err(e),
    }
    if team_vesting.team_member != team_member {
        return Err(VeraluxErrorCode::InvalidTeamMember);
    }
    if team_vesting.canceled {
        return Err(VeraluxErrorCode::VestingCanceled);
    }
    team_vesting.canceled = true;
    team_vesting.canceled_at = now;
    Ok(())
}

/// The time up to which a team schedule has unlocked: `now`, or the cancellation
/// time if the schedule was canceled before.
pub open spec fn team_clock(v: TeamVesting, now: int) -> int {
    if v.canceled && v.canceled_at < now {
        v.canceled_at as int
    } else {
        now
    }
}

/// Whole months of a team schedule at `now`.
pub open spec fn team_months(v: TeamVesting, now: int) -> int {
    (team_clock(v, now) - v.start_time) / VESTING_MONTH as int
}

/// Amount of a team schedule unlocked at `now`.
pub open spec fn team_vested(v: TeamVesting, now: int) -> int {
    unlocked(v.total_amount as int, team_unlock_pct(team_months(v, now)))
}

/// The first reason, in the order checked, for which a team claim fails.
pub open spec fn team_claim_failure(s: &ContractState, v: TeamVesting, now: int) -> Option<
    VeraluxErrorCode,
> {
    if s.is_processing {
        Some(VeraluxErrorCode::ReentrancyGuardTriggered)
    } else if s.paused {
        Some(VeraluxErrorCode::Paused)
    } else if !fits_i64(team_clock(v, now) - v.start_time) {
        Some(VeraluxErrorCode::ArithmeticOverflow)
    } else if team_clock(v, now) - v.start_time < 0 {
        Some(VeraluxErrorCode::VestingNotStarted)
    } else if team_vested(v, now) < v.claimed_amount {
        Some(VeraluxErrorCode::ArithmeticOverflow)
    } else {
        None
    }
}

/// What a team claim pays: the newly unlocked amount, at most the per-claim cap.
pub open spec fn team_claimable(v: TeamVesting, now: int) -> int {
    let open = team_vested(v, now) - v.claimed_amount;
    if open < TEAM_CLAIM_CAP {
        open
    } else {
        TEAM_CLAIM_CAP as int
    }
}

/// Claims the unlocked part of a team schedule, at most 20 million tokens per
/// claim. Returns what is paid now (0, with no change, when nothing more is
/// unlocked). The claimed amount only grows and never passes the unlocked amount.
/// On failure nothing changes.
pub fn claim_team_vesting(state: &ContractState, team_vesting: &mut TeamVesting, now: i64) -> (r:
    Result<u64, VeraluxErrorCode>)
    ensures
        match team_claim_failure(state, *old(team_vesting), now as int) {
            Some(e) => r == Err::<u64, VeraluxErrorCode>(e) && *final(team_vesting) == *old(team_vesting),
            None => {
                let c = team_claimable(*old(team_vesting), now as int);
                &&& r == Ok::<u64, VeraluxErrorCode>(c as u64)
                &&& *final(team_vesting) == (TeamVesting {
                    claimed_amount: (old(team_vesting).claimed_amount + c) as u64,
                    ..*old(team_vesting)
                })
            },
        },
        r is Ok ==> old(team_vesting).claimed_amount <= final(team_vesting).claimed_amount
            <= team_vested(*old(team_vesting), now as int),
{
    if state.is_processing {
        return Err(VeraluxErrorCode::ReentrancyGuardTriggered);
    }
    if state.paused {
        return Err(VeraluxErrorCode::Paused);
    }
    let clock = if team_vesting.canceled && team_vesting.canceled_at < now {
        team_vesting.canceled_at
    } else {
        now
    };
    let since = match elapsed(clock, team_vesting.start_time) {
        Ok(d) => d,
        Err(e) => return Err(e),
    };
    if since < 0 {
        return Err(VeraluxErrorCode::VestingNotStarted);
    }
    let months = (since as u64) / (VESTING_MONTH as u64);
    let pct: u64 = if months < 3 {
        0
    } else if months < 12 {
        10 * (months - 2)
    } else {
        100
    };
    let vested = pct_of(team_vesting.total_amount, pct);
    if vested < team_vesting.claimed_amount {
        return Err(VeraluxErrorCode::ArithmeticOverflow);
    }
    let open = vested - team_vesting.claimed_amount;
    let claimable = if open < TEAM_CLAIM_CAP {
        open
    } else {
        TEAM_CLAIM_CAP
    };
    team_vesting.claimed_amount = team_vesting.claimed_amount + claimable;
    Ok(claimable)
}

/// Sets up (or replaces) a freelancer's schedule of `total_amount` on the owners'
/// authority, with nothing released or claimed and the claim clock at `now`. On
/// failure nothing changes.
pub fn update_freelancer_vesting(
    state: &ContractState,
    multisig: &Multisig,
    signers: &Vec<Option<Key>>,
    freelancer_vesting: &mut FreelancerVesting,
    freelancer: Key,
    total_amount: u64,
    now: i64,
) -> (r: Result<(), VeraluxErrorCode>)
    ensures
        match admin_failure(state, multisig, signers@) {
            Some(e) => r == Err::<(), VeraluxErrorCode>(e) && *final(freelancer_vesting) == *old(freelancer_vesting),
            None => r is Ok && *final(freelancer_vesting) == (FreelancerVesting {
                freelancer,
                total_amount,
                released_amount: 0,
                claimed_amount: 0,
                start_time: now,
                last_claim_time: now,
            }),
        },
{
    match check_admin(state, multisig, signers) {
        Ok(()) => {},
        Err(e) => return Err(e),
    }
    *freelancer_vesting = FreelancerVesting {
        freelancer,
        total_amount,
        released_amount: 0,
        claimed_amount: 0,
        start_time: now,
        last_claim_time: now,
    };
    Ok(())
}

/// Releases a milestone of `amount` to a freelancer on the owners' authority;
/// releases never exceed the schedule's total. On failure nothing changes.
pub fn release_freelancer_milestone(
    state: &ContractState,
    multisig: &Multisig,
    signers: &Vec<Option<Key>>,
    freelancer_vesting: &mut FreelancerVesting,
    amount: u64,
) -> (r: Result<(), VeraluxErrorCode>)
    ensures
        admin_failure(state, multisig, signers@) is Some ==> r == Err::<(), VeraluxErrorCode>(
            admin_failure(state, multisig, signers@)->Some_0,
        ),
        admin_failure(state, multisig, signers@) is None && old(freelancer_vesting).released_amount
            + amount > u64::MAX ==> r == Err::<(), VeraluxErrorCode>(
            VeraluxErrorCode::ArithmeticOverflow,
        ),
        admin_failure(state, multisig, signers@) is None && old(freelancer_vesting).released_amount
            + amount <= u64::MAX && old(freelancer_vesting).released_amount + amount > old(freelancer_vesting).total_amount ==> r == Err::<(), VeraluxErrorCode>(
            VeraluxErrorCode::ExceedsVestingTotal,
        ),
        r is Err ==> *final(freelancer_vesting) == *old(freelancer_vesting),
        admin_failure(state, multisig, signers@) is None && old(freelancer_vesting).released_amount
            + amount <= old(freelancer_vesting).total_amount ==> r is Ok && *final(freelancer_vesting) == (FreelancerVesting {
            released_amount: (old(freelancer_vesting).released_amount + amount) as u64,
            ..*old(freelancer_vesting)
        }),
{
    match check_admin(state, multisig, signers) {
        Ok(()) => {},
        Err(e) => return Err(e),
    }
    let released = match freelancer_vesting.released_amount.checked_add(amount) {
        Some(v) => v,
        None => return Err(VeraluxErrorCode::ArithmeticOverflow),
    };
    if released > freelancer_vesting.total_amount {
        return Err(VeraluxErrorCode::ExceedsVestingTotal);
    }
    freelancer_vesting.released_amount = released;
    Ok(())
}

/// The first reason, in the order checked, for which a freelancer claim fails.
pub open spec fn freelancer_claim_failure(s: &ContractState, v: FreelancerVesting, now: int) -> Option<
    VeraluxErrorCode,
> {
    if s.is_processing {
        Some(VeraluxErrorCode::ReentrancyGuardTriggered)
    } else if s.paused {
        Some(VeraluxErrorCode::Paused)
    } else if !fits_i64(now - v.last_claim_time) {
        Some(VeraluxErrorCode::ArithmeticOverflow)
    } else if now - v.last_claim_time < FREELANCER_CLAIM_COOLDOWN {
        Some(VeraluxErrorCode::ClaimCooldownNotMet)
    } else if v.released_amount < v.claimed_amount {
        Some(VeraluxErrorCode::ArithmeticOverflow)
    } else {
        None
    }
}

/// What a freelancer claim pays: the released but unclaimed amount, at most the
/// per-claim cap.
pub open spec fn freelancer_claimable(v: FreelancerVesting) -> int {
    let open = v.released_amount - v.claimed_amount;
    if open < FREELANCER_CLAIM_CAP {
        open
    } else {
        FREELANCER_CLAIM_CAP as int
    }
}

/// Claims released freelancer funds, at most 500 thousand tokens per claim and at
/// most one claim every three days. Returns what is paid now (0, with no change,
/// when nothing is open). On failure nothing changes.
pub fn claim_freelancer_vesting(
    state: &ContractState,
    freelancer_vesting: &mut FreelancerVesting,
    now: i64,
) -> (r: Result<u64, VeraluxErrorCode>)
    ensures
        match freelancer_claim_failure(state, *old(freelancer_vesting), now as int) {
            Some(e) => r == Err::<u64, VeraluxErrorCode>(e) && *final(freelancer_vesting) == *old(freelancer_vesting),
            None => {
                let c = freelancer_claimable(*old(freelancer_vesting));
                &&& r == Ok::<u64, VeraluxErrorCode>(c as u64)
                &&& c == 0 ==> *final(freelancer_vesting) == *old(freelancer_vesting)
                &&& c > 0 ==> *final(freelancer_vesting) == (FreelancerVesting {
                    claimed_amount: (old(freelancer_vesting).claimed_amount + c) as u64,
                    last_claim_time: now,
                    ..*old(freelancer_vesting)
                })
            },
        },
        r is Ok ==> old(freelancer_vesting).claimed_amount <= final(freelancer_vesting).claimed_amount <= old(freelancer_vesting).released_amount,
{
    if state.is_processing {
        return Err(VeraluxErrorCode::ReentrancyGuardTriggered);
    }
    if state.paused {
        return Err(VeraluxErrorCode::Paused);
    }
    let since = match elapsed(now, freelancer_vesting.last_claim_time) {
        Ok(d) => d,
        Err(e) => return Err(e),
    };
    if since < FREELANCER_CLAIM_COOLDOWN {
        return Err(VeraluxErrorCode::ClaimCooldownNotMet);
    }
    if freelancer_vesting.released_amount < freelancer_vesting.claimed_amount {
        return Err(VeraluxErrorCode::ArithmeticOverflow);
    }
    let open = freelancer_vesting.released_amount - freelancer_vesting.claimed_amount;
    let claimable = if open < FREELANCER_CLAIM_CAP {
        open
    } else {
        FREELANCER_CLAIM_CAP
    };
    if claimable == 0 {
        return Ok(0);
    }
    freelancer_vesting.claimed_amount = freelancer_vesting.claimed_amount + claimable;
    freelancer_vesting.last_claim_time = now;
    Ok(claimable)
}

} // verus!
