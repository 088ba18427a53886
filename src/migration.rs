use vstd::prelude::*;

use crate::constants::MIGRATION_TOGGLE_COOLDOWN;
use crate::error::VeraluxErrorCode;
use crate::key::Key;
use crate::math::{elapsed, fits_i64};
use crate::multisig::{authorized, validate_multisig};
use crate::state::{ContractState, MigrationRecord, MigrationState, Multisig};

verus! {

/// The first reason, in the order checked, for which locking tokens for migration fails.
pub open spec fn lock_failure(
    s: &ContractState,
    m: MigrationState,
    rec: MigrationRecord,
    amount: int,
) -> Option<VeraluxErrorCode> {
    if s.is_processing {
        Some(VeraluxErrorCode::ReentrancyGuardTriggered)
    } else if s.paused {
        Some(VeraluxErrorCode::Paused)
    } else if !m.migration_active {
        Some(VeraluxErrorCode::MigrationNotActive)
    } else if rec.migrated {
        Some(VeraluxErrorCode::AlreadyMigrated)
    } else if rec.locked_amount + amount > u64::MAX || m.total_locked + amount > u64::MAX {
        Some(VeraluxErrorCode::ArithmeticOverflow)
    } else {
        None
    }
}

/// Locks `amount` of `user`'s tokens for migration while migration is active and
/// the user has not migrated. On failure nothing changes.
pub fn lock_for_migration(
    state: &ContractState,
    migration_state: &mut MigrationState,
    migration_record: &mut MigrationRecord,
    user: Key,
    amount: u64,
) -> (r: Result<(), VeraluxErrorCode>)
    ensures
        match lock_failure(state, *old(migration_state), *old(migration_record), amount as int) {
            Some(e) => r == Err::<(), VeraluxErrorCode>(e) && *final(migration_state) == *old(migration_state) && *final(migration_record) == *old(migration_record),
            None => r is Ok && *final(migration_record) == (MigrationRecord {
                user,
                locked_amount: (old(migration_record).locked_amount + amount) as u64,
                ..*old(migration_record)
            }) && *final(migration_state) == (MigrationState {
                total_locked: (old(migration_state).total_locked + amount) as u64,
                ..*old(migration_state)
            }),
        },
{
    if state.is_processing {
        return Err(VeraluxErrorCode::ReentrancyGuardTriggered);
    }
    if state.paused {
        return Err(VeraluxErrorCode::Paused);
    }
    if !migration_state.migration_active {
        return Err(VeraluxErrorCode::MigrationNotActive);
    }
    if migration_record.migrated {
        return Err(VeraluxErrorCode::AlreadyMigrated);
    }
    let locked = match migration_record.locked_amount.checked_add(amount) {
        Some(v) => v,
        None => return Err(VeraluxErrorCode::ArithmeticOverflow),
    };
    let total = match migration_state.total_locked.checked_add(amount) {
        Some(v) => v,
        None => return Err(VeraluxErrorCode::ArithmeticOverflow),
    };
    migration_record.user = user;
    migration_record.locked_amount = locked;
    migration_state.total_locked = total;
    Ok(())
}

/// The first reason, in the order checked, for which unlocking fails.
pub open spec fn unlock_failure(s: &ContractState, m: MigrationState, rec: MigrationRecord) -> Option<
    VeraluxErrorCode,
> {
    if s.is_processing {
        Some(VeraluxErrorCode::ReentrancyGuardTriggered)
    } else if s.paused {
        Some(VeraluxErrorCode::Paused)
    } else if m.migration_active {
        Some(VeraluxErrorCode::MigrationActive)
    } else if rec.migrated {
        Some(VeraluxErrorCode::AlreadyMigrated)
    } else if rec.locked_amount == 0 {
        Some(VeraluxErrorCode::NoLockedTokens)
    } else if m.total_locked < rec.locked_amount {
        Some(VeraluxErrorCode::ArithmeticOverflow)
    } else {
        None
    }
}

/// Returns a user's locked tokens while migration is inactive; returns the amount
/// to give back. On failure nothing changes.
pub fn unlock_for_migration(
    state: &ContractState,
    migration_state: &mut MigrationState,
    migration_record: &mut MigrationRecord,
) -> (r: Result<u64, VeraluxErrorCode>)
    ensures
        match unlock_failure(state, *old(migration_state), *old(migration_record)) {
            Some(e) => r == Err::<u64, VeraluxErrorCode>(e) && *final(migration_state) == *old(migration_state) && *final(migration_record) == *old(migration_record),
            None => r == Ok::<u64, VeraluxErrorCode>(old(migration_record).locked_amount) && *final(migration_record) == (MigrationRecord { locked_amount: 0, ..*old(migration_record) }) && *final(migration_state) == (MigrationState {
                total_locked: (old(migration_state).total_locked - old(migration_record).locked_amount) as u64,
                ..*old(migration_state)
            }),
        },
{
    if state.is_processing {
        return Err(VeraluxErrorCode::ReentrancyGuardTriggered);
    }
    if state.paused {
        return Err(VeraluxErrorCode::Paused);
    }
    if migration_state.migration_active {
        return Err(VeraluxErrorCode::MigrationActive);
    }
    if migration_record.migrated {
        return Err(VeraluxErrorCode::AlreadyMigrated);
    }
    let amount = migration_record.locked_amount;
    if amount == 0 {
        return Err(VeraluxErrorCode::NoLockedTokens);
    }
    if migration_state.total_locked < amount {
        return Err(VeraluxErrorCode::ArithmeticOverflow);
    }
    migration_record.locked_amount = 0;
    migration_state.total_locked = migration_state.total_locked - amount;
    Ok(amount)
}

/// The first reason, in the order checked, for which burning locked tokens fails.
pub open spec fn burn_failure(
    s: &ContractState,
    m: MigrationState,
    rec: MigrationRecord,
    ms: &Multisig,
    signers: Seq<Option<Key>>,
    user: Key,
) -> Option<VeraluxErrorCode> {
    if s.is_processing {
        Some(VeraluxErrorCode::ReentrancyGuardTriggered)
    } else if s.paused {
        Some(VeraluxErrorCode::Paused)
    } else if authorized(ms, signers) is Err {
        Some(authorized(ms, signers)->Err_0)
    } else if rec.user != user {
        Some(VeraluxErrorCode::InvalidMigrationUser)
    } else if rec.locked_amount == 0 {
        Some(VeraluxErrorCode::NoLockedTokens)
    } else if m.total_locked < rec.locked_amount {
        Some(VeraluxErrorCode::ArithmeticOverflow)
    } else {
        None
    }
}

/// Destroys a user's locked tokens on the owners' authority and marks the user
/// migrated, after which the user can neither lock nor unlock. Returns the amount
/// to burn. On failure nothing changes.
pub fn burn_locked_tokens(
    state: &ContractState,
    migration_state: &mut MigrationState,
    migration_record: &mut MigrationRecord,
    multisig: &Multisig,
    signers: &Vec<Option<Key>>,
    user: Key,
) -> (r: Result<u64, VeraluxErrorCode>)
    ensures
        match burn_failure(
            state,
            *old(migration_state),
            *old(migration_record),
            multisig,
            signers@,
            user,
        ) {
            Some(e) => r == Err::<u64, VeraluxErrorCode>(e) && *final(migration_state) == *old(migration_state) && *final(migration_record) == *old(migration_record),
            None => r == Ok::<u64, VeraluxErrorCode>(old(migration_record).locked_amount) && *final(migration_record) == (MigrationRecord {
                locked_amount: 0,
                migrated: true,
                ..*old(migration_record)
            }) && *final(migration_state) == (MigrationState {
                total_locked: (old(migration_state).total_locked - old(migration_record).locked_amount) as u64,
                ..*old(migration_state)
            }),
        },
{
    if state.is_processing {
        return Err(VeraluxErrorCode::ReentrancyGuardTriggered);
    }
    if state.paused {
        return Err(VeraluxErrorCode::Paused);
    }
    match validate_multisig(multisig, signers) {
        Ok(()) => {},
        Err(e) => return Err(e),
    }
    if migration_record.user != user {
        return Err(VeraluxErrorCode::InvalidMigrationUser);
    }
    let amount = migration_record.locked_amount;
    if amount == 0 {
        return Err(VeraluxErrorCode::NoLockedTokens);
    }
    if migration_state.total_locked < amount {
        return Err(VeraluxErrorCode::ArithmeticOverflow);
    }
    migration_record.locked_amount = 0;
    migration_record.migrated = true;
    migration_state.total_locked = migration_state.total_locked - amount;
    Ok(amount)
}

/// Records, on the owners' authority, that a migrated user's new tokens were
/// delivered. On failure nothing changes.
pub fn confirm_migration(
    migration_record: &mut MigrationRecord,
    multisig: &Multisig,
    signers: &Vec<Option<Key>>,
) -> (r: Result<(), VeraluxErrorCode>)
    ensures
        authorized(multisig, signers@) is Err ==> r == authorized(multisig, signers@),
        authorized(multisig, signers@) is Ok && !old(migration_record).migrated ==> r == Err::<
            (),
            VeraluxErrorCode,
        >(VeraluxErrorCode::NotMigrated),
        r is Err ==> *final(migration_record) == *old(migration_record),
        authorized(multisig, signers@) is Ok && old(migration_record).migrated ==> r is Ok
            && *final(migration_record) == (MigrationRecord {
            migration_confirmed: true,
            ..*old(migration_record)
        }),
{
    match validate_multisig(multisig, signers) {
        Ok(()) => {},
        Err(e) => return Err(e),
    }
    if !migration_record.migrated {
        return Err(VeraluxErrorCode::NotMigrated);
    }
    migration_record.migration_confirmed = true;
    Ok(())
}

/// The first reason, in the order checked, for which toggling migration fails.
pub open spec fn toggle_failure(
    s: &ContractState,
    m: MigrationState,
    ms: &Multisig,
    signers: Seq<Option<Key>>,
    now: int,
) -> Option<VeraluxErrorCode> {
    if s.is_processing {
        Some(VeraluxErrorCode::ReentrancyGuardTriggered)
    } else if s.paused {
        Some(VeraluxErrorCode::Paused)
    } else if authorized(ms, signers) is Err {
        Some(authorized(ms, signers)->Err_0)
    } else if !fits_i64(now - m.migration_toggle_timestamp) {
        Some(VeraluxErrorCode::ArithmeticOverflow)
    } else if now - m.migration_toggle_timestamp < MIGRATION_TOGGLE_COOLDOWN {
        Some(VeraluxErrorCode::MigrationToggleCooldown)
    } else {
        None
    }
}

/// Turns migration on or off on the owners' authority, at most once a week.
/// On failure nothing changes.
pub fn toggle_migration_active(
    state: &ContractState,
    migration_state: &mut MigrationState,
    multisig: &Multisig,
    signers: &Vec<Option<Key>>,
    active: bool,
    now: i64,
) -> (r: Result<(), VeraluxErrorCode>)
    ensures
        match toggle_failure(state, *old(migration_state), multisig, signers@, now as int) {
            Some(e) => r == Err::<(), VeraluxErrorCode>(e) && *final(migration_state) == *old(migration_state),
            None => r is Ok && *final(migration_state) == (MigrationState {
                migration_active: active,
                migration_toggle_timestamp: now,
                ..*old(migration_state)
            }),
        },
{
    if state.is_processing {
        return Err(VeraluxErrorCode::ReentrancyGuardTriggered);
    }
    if state.paused {
        return Err(VeraluxErrorCode::Paused);
    }
    match validate_multisig(multisig, signers) {
        Ok(()) => {},
        Err(e) => return Err(e),
    }
    let since = match elapsed(now, migration_state.migration_toggle_timestamp) {
        Ok(d) => d,
        Err(e) => return Err(e),
    };
    if since < MIGRATION_TOGGLE_COOLDOWN {
        return Err(VeraluxErrorCode::MigrationToggleCooldown);
    }
    migration_state.migration_active = active;
    migration_state.migration_toggle_timestamp = now;
    Ok(())
}

} // verus!
