use vstd::prelude::*;

use crate::constants::{ADMIN_DELAY, MAX_OWNERS};
use crate::error::VeraluxErrorCode;
use crate::key::{all_unique, contains_key, key_in, keys_unique, Key};
use crate::math::{delay_elapsed, has_elapsed};
use crate::state::{ContractState, Multisig, MultisigChange, PendingMultisigChange};

verus! {

/// The distinct keys among the signer slots that are filled.
pub open spec fn signer_set(s: Seq<Option<Key>>) -> Set<Key>
    decreases s.len(),
{
    if s.len() == 0 {
        Set::empty()
    } else {
        let rest = signer_set(s.drop_last());
        match s.last() {
            Some(k) => rest.insert(k),
            None => rest,
        }
    }
}

/// What validating `signers` against an owner list and threshold gives: too few
/// distinct signers, then a signer outside a non-empty owner list, are refused.
pub open spec fn multisig_result(owners: Seq<Key>, threshold: int, signers: Seq<Option<Key>>) -> Result<
    (),
    VeraluxErrorCode,
> {
    let u = signer_set(signers);
    if u.len() < threshold {
        Err(VeraluxErrorCode::InsufficientSigners)
    } else if owners.len() > 0 && exists|k: Key| u.contains(k) && !key_in(owners, k) {
        Err(VeraluxErrorCode::SignerNotOwner)
    } else {
        Ok(())
    }
}

/// Validation of a set of signers against an owner record.
pub open spec fn authorized(m: &Multisig, signers: Seq<Option<Key>>) -> Result<(), VeraluxErrorCode> {
    multisig_result(m.owners@, m.threshold as int, signers)
}

proof fn lemma_push_to_set(s: Seq<Key>, k: Key)
    ensures
        s.push(k).to_set() == s.to_set().insert(k),
{
    assert forall|x: Key| s.push(k).to_set().contains(x) implies s.to_set().insert(k).contains(
        x,
    ) by {
        let i = choose|i: int| 0 <= i < s.push(k).len() && s.push(k)[i] == x;
        if i < s.len() {
            assert(s[i] == x);
        }
    }
    assert forall|x: Key| s.to_set().insert(k).contains(x) implies s.push(k).to_set().contains(
        x,
    ) by {
        if x == k {
            assert(s.push(k)[s.len() as int] == k);
        } else {
            let i = choose|i: int| 0 <= i < s.len() && s[i] == x;
            assert(s.push(k)[i] == x);
        }
    }
    assert(s.push(k).to_set() =~= s.to_set().insert(k));
}

/// The distinct keys among the filled slots of `signers`, in first-seen order.
pub fn unique_signers(signers: &Vec<Option<Key>>) -> (r: Vec<Key>)
    ensures
        keys_unique(r@),
        r@.to_set() == signer_set(signers@),
        r@.len() == signer_set(signers@).len(),
{
    let mut out: Vec<Key> = Vec::new();
    let mut i: usize = 0;
    while i < signers.len()
        invariant
            i <= signers.len(),
            keys_unique(out@),
            out@.to_set() == signer_set(signers@.subrange(0, i as int)),
        decreases signers.len() - i,
    {
        let ghost prefix = signers@.subrange(0, i as int);
        let ghost next = signers@.subrange(0, i + 1);
        assert(next.drop_last() =~= prefix);
        match signers[i] {
            Some(k) => {
                if !contains_key(&out, &k) {
                    proof {
                        lemma_push_to_set(out@, k);
                    }
                    out.push(k);
                    assert(out@.to_set() =~= signer_set(next));
                } else {
                    assert(out@.to_set() =~= signer_set(next));
                }
            },
            None => {},
        }
        i = i + 1;
    }
    assert(signers@.subrange(0, signers@.len() as int) =~= signers@);
    proof {
        assert(out@.no_duplicates());
        out@.unique_seq_to_set();
    }
    out
}

/// Checks that the distinct present signers reach the owner record's threshold and
/// are all owners (any signer passes an empty owner list, which only a record not
/// yet set up has). Repeating a key does not count it twice.
pub fn validate_multisig(multisig: &Multisig, signers: &Vec<Option<Key>>) -> (r: Result<
    (),
    VeraluxErrorCode,
>)
    ensures
        r == authorized(multisig, signers@),
{
    let uniq = unique_signers(signers);
    if uniq.len() < multisig.threshold as usize {
        return Err(VeraluxErrorCode::InsufficientSigners);
    }
    if multisig.owners.len() > 0 {
        let mut i: usize = 0;
        while i < uniq.len()
            invariant
                i <= uniq.len(),
                uniq@.to_set() == signer_set(signers@),
                uniq@.len() == signer_set(signers@).len(),
                uniq@.len() >= multisig.threshold,
                multisig.owners@.len() > 0,
                forall|j: int| 0 <= j < i ==> key_in(multisig.owners@, #[trigger] uniq@[j]),
            decreases uniq.len() - i,
        {
            if !contains_key(&multisig.owners, &uniq[i]) {
                proof {
                    assert(uniq@.to_set().contains(uniq@[i as int]));
                    assert(signer_set(signers@).contains(uniq@[i as int]) && !key_in(
                        multisig.owners@,
                        uniq@[i as int],
                    ));
                }
                return Err(VeraluxErrorCode::SignerNotOwner);
            }
            i = i + 1;
        }
        proof {
            assert forall|k: Key| signer_set(signers@).contains(k) implies key_in(
                multisig.owners@,
                k,
            ) by {
                assert(uniq@.to_set().contains(k));
                let j = choose|j: int| 0 <= j < uniq@.len() && uniq@[j] == k;
                assert(key_in(multisig.owners@, uniq@[j]));
            }
        }
    }
    Ok(())
}

/// For an owner record that is set up, when every present signer is an owner,
/// authorization succeeds exactly when the number of distinct signers reaches the
/// threshold; and presenting an owner a second time changes nothing.
pub proof fn lemma_quorum_counts_distinct_owners(
    owners: Seq<Key>,
    threshold: int,
    signers: Seq<Option<Key>>,
    k: Key,
)
    requires
        owners.len() > 0,
        forall|x: Key| signer_set(signers).contains(x) ==> key_in(owners, x),
    ensures
        multisig_result(owners, threshold, signers) is Ok <==> signer_set(signers).len()
            >= threshold,
        signer_set(signers).contains(k) ==> multisig_result(
            owners,
            threshold,
            signers.push(Some(k)),
        ) == multisig_result(owners, threshold, signers),
{
    if signer_set(signers).contains(k) {
        assert(signers.push(Some(k)).drop_last() =~= signers);
        assert(signer_set(signers.push(Some(k))) =~= signer_set(signers));
    }
}

/// Whether `owners` and `threshold` form a valid owner record.
pub open spec fn owner_set_error(owners: Seq<Key>, threshold: int) -> Option<VeraluxErrorCode> {
    if owners.len() < 2 {
        Some(VeraluxErrorCode::TooFewOwners)
    } else if !keys_unique(owners) {
        Some(VeraluxErrorCode::DuplicateOwners)
    } else if owners.len() > MAX_OWNERS {
        Some(VeraluxErrorCode::TooManyOwners)
    } else if threshold < 2 {
        Some(VeraluxErrorCode::InvalidThreshold)
    } else if threshold > owners.len() {
        Some(VeraluxErrorCode::ThresholdExceedsOwners)
    } else {
        None
    }
}

/// First half of an owner-set replacement: checks authorization and the proposed
/// record, and returns the pending change stamped with `now`.
pub fn initiate_set_multisig(
    state: &ContractState,
    multisig: &Multisig,
    signers: &Vec<Option<Key>>,
    owners: Vec<Key>,
    threshold: u8,
    now: i64,
) -> (r: Result<PendingMultisigChange, VeraluxErrorCode>)
    ensures
        state.is_processing ==> r == Err::<PendingMultisigChange, VeraluxErrorCode>(
            VeraluxErrorCode::ReentrancyGuardTriggered,
        ),
        !state.is_processing && state.paused ==> r == Err::<
            PendingMultisigChange,
            VeraluxErrorCode,
        >(VeraluxErrorCode::Paused),
        !state.is_processing && !state.paused && authorized(multisig, signers@) is Err ==> r
            == Err::<PendingMultisigChange, VeraluxErrorCode>(
            authorized(multisig, signers@)->Err_0,
        ),
        !state.is_processing && !state.paused && authorized(multisig, signers@) is Ok ==> match
            owner_set_error(owners@, threshold as int) {
            Some(e) => r == Err::<PendingMultisigChange, VeraluxErrorCode>(e),
            None => r is Ok && r.unwrap().change.new_owners@ == owners@
                && r.unwrap().change.new_threshold == threshold && r.unwrap().initiation_time
                == now,
        },
{
    if state.is_processing {
        return Err(VeraluxErrorCode::ReentrancyGuardTriggered);
    }
    if state.paused {
        return Err(VeraluxErrorCode::Paused);
    }
    match validate_multisig(multisig, signers) {
        Ok(()) => {},
        Err(e) => return Err(e),
    }
    if owners.len() < 2 {
        return Err(VeraluxErrorCode::TooFewOwners);
    }
    if !all_unique(&owners) {
        return Err(VeraluxErrorCode::DuplicateOwners);
    }
    if owners.len() > MAX_OWNERS {
        return Err(VeraluxErrorCode::TooManyOwners);
    }
    if threshold < 2 {
        return Err(VeraluxErrorCode::InvalidThreshold);
    }
    if threshold as usize > owners.len() {
        return Err(VeraluxErrorCode::ThresholdExceedsOwners);
    }
    Ok(PendingMultisigChange {
        change: MultisigChange { new_owners: owners, new_threshold: threshold },
        initiation_time: now,
    })
}

/// Second half of an owner-set replacement: once a day has passed since the change
/// was proposed, the owner record takes the proposed owners and threshold. The
/// pending change is consumed either way.
pub fn confirm_set_multisig(
    state: &ContractState,
    multisig: &mut Multisig,
    pending: PendingMultisigChange,
    now: i64,
) -> (r: Result<(), VeraluxErrorCode>)
    ensures
        state.is_processing ==> r == Err::<(), VeraluxErrorCode>(
            VeraluxErrorCode::ReentrancyGuardTriggered,
        ),
        !state.is_processing && state.paused ==> r == Err::<(), VeraluxErrorCode>(
            VeraluxErrorCode::Paused,
        ),
        !state.is_processing && !state.paused && !delay_elapsed(
            pending.initiation_time,
            now,
            ADMIN_DELAY,
        ) ==> r == Err::<(), VeraluxErrorCode>(VeraluxErrorCode::TimeLockNotMet),
        r is Err ==> *final(multisig) == *old(multisig),
        !state.is_processing && !state.paused && delay_elapsed(
            pending.initiation_time,
            now,
            ADMIN_DELAY,
        ) ==> r is Ok && final(multisig).owners@ == pending.change.new_owners@
            && final(multisig).threshold == pending.change.new_threshold,
{
    if state.is_processing {
        return Err(VeraluxErrorCode::ReentrancyGuardTriggered);
    }
    if state.paused {
        return Err(VeraluxErrorCode::Paused);
    }
    if !has_elapsed(pending.initiation_time, now, ADMIN_DELAY) {
        return Err(VeraluxErrorCode::TimeLockNotMet);
    }
    multisig.owners = pending.change.new_owners;
    multisig.threshold = pending.change.new_threshold;
    Ok(())
}

} // verus!
