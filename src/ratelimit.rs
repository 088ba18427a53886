use vstd::prelude::*;

use crate::constants::{HOURS_PER_WINDOW, SECONDS_PER_HOUR};
use crate::error::VeraluxErrorCode;
use crate::math::{div_i64, elapsed, fits_i64, rem_i64, trunc_div, trunc_rem};
use crate::state::TransactionRecord;

verus! {

/// Start of the hour that holds `now` (rounded toward zero, as on `i64`).
pub open spec fn hour_floor(now: int) -> int {
    now - trunc_rem(now, SECONDS_PER_HOUR as int)
}

/// Whether bucket `j` is one of the `h` buckets entered when the cursor moves
/// `h` steps forward from `c`.
pub open spec fn entered(c: int, h: int, j: int) -> bool {
    (j - c + 23) % 24 < h
}

/// Sum of the first `n` buckets of `b`.
pub open spec fn sum_to(b: Seq<u64>, n: int) -> int
    decreases n,
{
    if n <= 0 || n > b.len() {
        0
    } else {
        sum_to(b, n - 1) + b[n - 1]
    }
}

/// Sum of all the buckets of a window.
pub open spec fn window_sum(b: Seq<u64>) -> int {
    sum_to(b, b.len() as int)
}

/// Hours between the anchor of `r` and `now`, rounded toward zero.
pub open spec fn hours_passed(r: TransactionRecord, now: int) -> int {
    trunc_div(now - r.bucket_start_time, SECONDS_PER_HOUR as int)
}

/// Whether rotating `r` to `now` empties both rings: the window was never used,
/// a day or more has passed, or the clock went back an hour or more.
pub open spec fn resets(r: TransactionRecord, now: int) -> bool {
    let h = hours_passed(r, now);
    r.bucket_start_time == 0 || h < 0 || h >= 24
}

/// Bucket `j` of the ring of the given kind once `r` is rotated to `now`.
pub open spec fn rotated_bucket(r: TransactionRecord, now: int, is_sell: bool, j: int) -> u64 {
    if resets(r, now) {
        0
    } else if entered(r.current_bucket_index as int, hours_passed(r, now), j) {
        0
    } else {
        ring(r, is_sell)[j]
    }
}

/// The ring of the given kind once `r` is rotated to `now`.
pub open spec fn rotated_ring(r: TransactionRecord, now: int, is_sell: bool) -> Seq<u64> {
    Seq::new(24, |j: int| rotated_bucket(r, now, is_sell, j))
}

/// The cursor once `r` is rotated to `now`.
pub open spec fn rotated_index(r: TransactionRecord, now: int) -> int {
    if resets(r, now) {
        0
    } else {
        (r.current_bucket_index + hours_passed(r, now)) % 24
    }
}

/// The anchor once `r` is rotated to `now`.
pub open spec fn rotated_start(r: TransactionRecord, now: int) -> int {
    if resets(r, now) {
        hour_floor(now)
    } else {
        r.bucket_start_time + hours_passed(r, now) * SECONDS_PER_HOUR
    }
}

/// Whether `new` is `old` rotated to `now`.
pub open spec fn rotated(old: TransactionRecord, new: TransactionRecord, now: int) -> bool {
    &&& new.current_bucket_index == rotated_index(old, now)
    &&& new.bucket_start_time == rotated_start(old, now)
    &&& new.last_txn_time == old.last_txn_time
    &&& new.sell_cooldown_start == old.sell_cooldown_start
    &&& new.transfer_cooldown_start == old.transfer_cooldown_start
    &&& new.sell_buckets@ == rotated_ring(old, now, true)
    &&& new.transfer_buckets@ == rotated_ring(old, now, false)
}

/// Whether rotating the window of `r` at time `now` overflows.
pub open spec fn rotation_overflows(r: TransactionRecord, now: int) -> bool {
    r.bucket_start_time != 0 && !fits_i64(now - r.bucket_start_time)
}

/// Moves the hourly window of `record` forward to `now`: a window never used is
/// anchored at the current hour; after a day or more (or a clock that went back an
/// hour or more) both rings are cleared; otherwise the cursor advances one bucket
/// per elapsed hour and each bucket it enters is zeroed, so that no bucket holds
/// volume older than 24 hours.
pub fn advance_buckets(record: &mut TransactionRecord, now: i64) -> (r: Result<(), VeraluxErrorCode>)
    requires
        old(record).wf(),
    ensures
        final(record).wf(),
        rotation_overflows(*old(record), now as int) ==> r == Err::<(), VeraluxErrorCode>(
            VeraluxErrorCode::ArithmeticOverflow,
        ) && *final(record) == *old(record),
        !rotation_overflows(*old(record), now as int) ==> r is Ok && rotated(
            *old(record),
            *final(record),
            now as int,
        ),
{
    if record.bucket_start_time == 0 {
        let anchor = now - rem_i64(now, SECONDS_PER_HOUR as u64);
        record.sell_buckets = [0u64; 24];
        record.transfer_buckets = [0u64; 24];
        record.current_bucket_index = 0;
        record.bucket_start_time = anchor;
        assert(record.sell_buckets@ =~= rotated_ring(*old(record), now as int, true));
        assert(record.transfer_buckets@ =~= rotated_ring(*old(record), now as int, false));
        return Ok(());
    }
    let e = match elapsed(now, record.bucket_start_time) {
        Ok(e) => e,
        Err(err) => return Err(err),
    };
    let h = div_i64(e, SECONDS_PER_HOUR as u64);
    if h == 0 {
        assert(record.sell_buckets@ =~= rotated_ring(*old(record), now as int, true));
        assert(record.transfer_buckets@ =~= rotated_ring(*old(record), now as int, false));
        return Ok(());
    }
    if h < 0 || h >= HOURS_PER_WINDOW as i64 {
        let anchor = now - rem_i64(now, SECONDS_PER_HOUR as u64);
        record.sell_buckets = [0u64; 24];
        record.transfer_buckets = [0u64; 24];
        record.current_bucket_index = 0;
        record.bucket_start_time = anchor;
        assert(record.sell_buckets@ =~= rotated_ring(*old(record), now as int, true));
        assert(record.transfer_buckets@ =~= rotated_ring(*old(record), now as int, false));
        return Ok(());
    }
    let ghost old_rec = *record;
    let c = record.current_bucket_index as usize;
    let steps = h as usize;
    let mut index: usize = c;
    let mut step: usize = 0;
    while step < steps
        invariant
            0 <= c < 24,
            0 < steps < 24,
            step <= steps,
            index == (c + step) % 24,
            record.current_bucket_index == old_rec.current_bucket_index,
            record.bucket_start_time == old_rec.bucket_start_time,
            record.last_txn_time == old_rec.last_txn_time,
            record.sell_cooldown_start == old_rec.sell_cooldown_start,
            record.transfer_cooldown_start == old_rec.transfer_cooldown_start,
            forall|j: int|
                0 <= j < 24 ==> #[trigger] record.sell_buckets[j] == (if entered(
                    c as int,
                    step as int,
                    j,
                ) {
                    0
                } else {
                    old_rec.sell_buckets[j]
                }),
            forall|j: int|
                0 <= j < 24 ==> #[trigger] record.transfer_buckets[j] == (if entered(
                    c as int,
                    step as int,
                    j,
                ) {
                    0
                } else {
                    old_rec.transfer_buckets[j]
                }),
        decreases steps - step,
    {
        index = (index + 1) % HOURS_PER_WINDOW;
        record.sell_buckets[index] = 0;
        record.transfer_buckets[index] = 0;
        step = step + 1;
        assert forall|j: int| 0 <= j < 24 implies (entered(c as int, step as int, j) <==> (
        entered(c as int, (step - 1) as int, j) || j == index)) by {}
    }
    record.current_bucket_index = index as u8;
    record.bucket_start_time = record.bucket_start_time + h * SECONDS_PER_HOUR;
    assert(record.sell_buckets@ =~= rotated_ring(old_rec, now as int, true));
    assert(record.transfer_buckets@ =~= rotated_ring(old_rec, now as int, false));
    Ok(())
}

/// The ring that volume of the given kind goes to.
pub open spec fn ring(r: TransactionRecord, is_sell: bool) -> Seq<u64> {
    if is_sell {
        r.sell_buckets@
    } else {
        r.transfer_buckets@
    }
}

/// Whether `new` is `old` with `amount` added to the current bucket of the ring of
/// the given kind, and nothing else changed.
pub open spec fn recorded(
    old: TransactionRecord,
    new: TransactionRecord,
    is_sell: bool,
    amount: int,
) -> bool {
    let i = old.current_bucket_index as int;
    &&& ring(new, is_sell) == ring(old, is_sell).update(i, (ring(old, is_sell)[i] + amount) as u64)
    &&& ring(new, !is_sell) == ring(old, !is_sell)
    &&& new.current_bucket_index == old.current_bucket_index
    &&& new.bucket_start_time == old.bucket_start_time
    &&& new.last_txn_time == old.last_txn_time
    &&& new.sell_cooldown_start == old.sell_cooldown_start
    &&& new.transfer_cooldown_start == old.transfer_cooldown_start
}

pub open spec fn max_txn_error(is_sell: bool) -> VeraluxErrorCode {
    if is_sell {
        VeraluxErrorCode::MaxSellTxnLimitExceeded
    } else {
        VeraluxErrorCode::MaxTransferLimitExceeded
    }
}

pub open spec fn daily_error(is_sell: bool) -> VeraluxErrorCode {
    if is_sell {
        VeraluxErrorCode::DailySellLimitExceeded
    } else {
        VeraluxErrorCode::DailyTransferLimitExceeded
    }
}

proof fn lemma_sum_update(b: Seq<u64>, n: int, i: int, v: u64)
    requires
        0 <= i < n <= b.len(),
    ensures
        sum_to(b.update(i, v), n) == sum_to(b, n) - b[i] + v,
    decreases n,
{
    if n - 1 > i {
        lemma_sum_update(b, n - 1, i, v);
    } else {
        lemma_sum_unchanged_prefix(b, b.update(i, v), n - 1);
    }
}

proof fn lemma_sum_unchanged_prefix(a: Seq<u64>, b: Seq<u64>, n: int)
    requires
        0 <= n <= a.len(),
        n <= b.len(),
        forall|k: int| 0 <= k < n ==> a[k] == b[k],
    ensures
        sum_to(a, n) == sum_to(b, n),
    decreases n,
{
    if n > 0 {
        lemma_sum_unchanged_prefix(a, b, n - 1);
    }
}

proof fn lemma_sum_bounds(b: Seq<u64>, n: int, i: int)
    requires
        0 <= i < n <= b.len(),
    ensures
        b[i] <= sum_to(b, n),
    decreases n,
{
    lemma_sum_nonneg(b, n - 1);
    if n - 1 > i {
        lemma_sum_bounds(b, n - 1, i);
    }
}

proof fn lemma_sum_nonneg(b: Seq<u64>, n: int)
    ensures
        0 <= sum_to(b, n),
    decreases n,
{
    if n > 0 {
        lemma_sum_nonneg(b, n - 1);
    }
}

/// Total volume held by a ring.
pub fn window_total(b: &[u64; 24]) -> (r: u128)
    ensures
        r == window_sum(b@),
        r <= 24 * u64::MAX,
{
    let mut s: u128 = 0;
    let mut i: usize = 0;
    while i < 24
        invariant
            i <= 24,
            b@.len() == 24,
            s == sum_to(b@, i as int),
            s <= i * u64::MAX,
        decreases 24 - i,
    {
        s = s + b[i] as u128;
        i = i + 1;
    }
    s
}

/// Checks a transfer of `amount` against the per-transaction cap and the 24-hour
/// limit of its kind (sell or plain transfer); on success adds it to the current
/// bucket of that kind. An accepted amount never takes the ring's total past the
/// daily limit.
pub fn record_volume(
    record: &mut TransactionRecord,
    is_sell: bool,
    amount: u64,
    max_txn: u64,
    daily_limit: u64,
) -> (r: Result<(), VeraluxErrorCode>)
    requires
        old(record).wf(),
    ensures
        final(record).wf(),
        amount > max_txn ==> r == Err::<(), VeraluxErrorCode>(max_txn_error(is_sell)),
        amount <= max_txn && window_sum(ring(*old(record), is_sell)) + amount > daily_limit
            ==> r == Err::<(), VeraluxErrorCode>(daily_error(is_sell)),
        amount <= max_txn && window_sum(ring(*old(record), is_sell)) + amount <= daily_limit
            ==> r is Ok,
        r is Err ==> *final(record) == *old(record),
        r is Ok ==> recorded(*old(record), *final(record), is_sell, amount as int),
        r is Ok ==> window_sum(ring(*final(record), is_sell)) == window_sum(
            ring(*old(record), is_sell),
        ) + amount <= daily_limit,
{
    if amount > max_txn {
        return Err(
            if is_sell {
                VeraluxErrorCode::MaxSellTxnLimitExceeded
            } else {
                VeraluxErrorCode::MaxTransferLimitExceeded
            },
        );
    }
    let total = if is_sell {
        window_total(&record.sell_buckets)
    } else {
        window_total(&record.transfer_buckets)
    };
    if total + amount as u128 > daily_limit as u128 {
        return Err(
            if is_sell {
                VeraluxErrorCode::DailySellLimitExceeded
            } else {
                VeraluxErrorCode::DailyTransferLimitExceeded
            },
        );
    }
    let i = record.current_bucket_index as usize;
    let ghost old_ring = ring(*record, is_sell);
    proof {
        lemma_sum_bounds(old_ring, 24, i as int);
        lemma_sum_update(old_ring, 24, i as int, (old_ring[i as int] + amount) as u64);
    }
    if is_sell {
        record.sell_buckets[i] = record.sell_buckets[i] + amount;
    } else {
        record.transfer_buckets[i] = record.transfer_buckets[i] + amount;
    }
    Ok(())
}

/// Volume older than a day never counts: once a day or more has passed since the
/// window's anchor (or the window was never used), rotation leaves both rings
/// empty; and for a shorter gap, every bucket the cursor passes over is emptied.
pub proof fn lemma_stale_volume_evicted(r: TransactionRecord, now: int, is_sell: bool, j: int)
    requires
        0 <= j < 24,
    ensures
        resets(r, now) ==> window_sum(rotated_ring(r, now, is_sell)) == 0,
        entered(r.current_bucket_index as int, hours_passed(r, now), j) ==> rotated_ring(
            r,
            now,
            is_sell,
        )[j] == 0,
{
    if resets(r, now) {
        lemma_sum_zero(rotated_ring(r, now, is_sell), 24);
    }
}

proof fn lemma_sum_zero(b: Seq<u64>, n: int)
    requires
        n <= b.len(),
        forall|k: int| 0 <= k < n ==> b[k] == 0,
    ensures
        sum_to(b, n) == 0,
    decreases n,
{
    if n > 0 {
        lemma_sum_zero(b, n - 1);
    }
}

} // verus!
