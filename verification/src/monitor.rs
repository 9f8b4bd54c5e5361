//! The transaction monitor: how one completed transaction, one sampler tick
//! and the initialization change the counters, and what holds of the counters
//! over any run of transactions.

use vstd::prelude::*;
use crate::config::{EACCES, LIPC_TARGET_MISMATCH};
use crate::records::{zero_stats, BinderTransaction, IPCStats};
use crate::service::GetIPCInfo;

verus! {

/// A counter after one more event. A counter that has reached the largest
/// value stays there, so that it never runs backwards.
pub open spec fn bumped(counter: u32) -> u32 {
    if counter < u32::MAX {
        (counter + 1) as u32
    } else {
        counter
    }
}

/// A payload size as the size counter can hold it: sizes beyond the counter's
/// range count as its largest value.
pub open spec fn clamped_size(data_size: usize) -> u32 {
    if data_size <= u32::MAX {
        data_size as u32
    } else {
        u32::MAX
    }
}

/// The counters after one completed transaction with payload size
/// `data_size` and result code `return_error`.
pub open spec fn after_transaction(
    stats: IPCStats,
    data_size: usize,
    return_error: i32,
) -> IPCStats {
    IPCStats {
        transactions_total: bumped(stats.transactions_total),
        max_transaction_size: if clamped_size(data_size) > stats.max_transaction_size {
            clamped_size(data_size)
        } else {
            stats.max_transaction_size
        },
        errors_total: if return_error != 0 {
            bumped(stats.errors_total)
        } else {
            stats.errors_total
        },
        uid_violations: if return_error == EACCES {
            bumped(stats.uid_violations)
        } else {
            stats.uid_violations
        },
        target_mismatches: if return_error == LIPC_TARGET_MISMATCH {
            bumped(stats.target_mismatches)
        } else {
            stats.target_mismatches
        },
        ..stats
    }
}

/// The counters after a run of completed transactions, each given as its
/// payload size and its result code, in the order of completion.
pub open spec fn after_transactions(stats: IPCStats, run: Seq<(usize, i32)>) -> IPCStats
    decreases run.len(),
{
    if run.len() == 0 {
        stats
    } else {
        after_transaction(after_transactions(stats, run.drop_last()), run.last().0, run.last().1)
    }
}

/// The counters after one tick of the sampler.
pub open spec fn after_tick(stats: IPCStats) -> IPCStats {
    IPCStats { uptime_seconds: bumped(stats.uptime_seconds), ..stats }
}

/// The counters after monitoring was initialized: the four counters of the
/// session start from zero, the other six keep their value.
pub open spec fn after_init(stats: IPCStats) -> IPCStats {
    IPCStats {
        transactions_total: 0,
        pages_mapped_total: 0,
        lock_contention: 0,
        errors_total: 0,
        ..stats
    }
}

/// One more event on `counter`.
fn bump(counter: u32) -> (next: u32)
    ensures
        next == bumped(counter),
{
    counter.saturating_add(1)
}

impl GetIPCInfo {
    /// Starts a monitoring session at the counter sample `now`: `now` becomes
    /// the boot timestamp, and the transaction, pages-mapped, lock-contention
    /// and error counters start from zero. The other counters and the cached
    /// snapshot stay as they were.
    pub fn init_ipc_monitoring(&mut self, now: u64)
        ensures
            final(self).boot() == now,
            final(self).stats() == after_init(old(self).stats()),
            final(self).cached() == old(self).cached(),
    {
        proof {
            use_type_invariant(&*self);
        }
        self.boot_timestamp = now;
        let mut stats = self.monitor;
        stats.transactions_total = 0;
        stats.pages_mapped_total = 0;
        stats.lock_contention = 0;
        stats.errors_total = 0;
        self.monitor = stats;
    }

    /// The counters as they stand.
    pub fn get_ipc_stats(&self) -> (stats: IPCStats)
        ensures
            stats == self.stats(),
    {
        self.monitor
    }

    /// The counter sample taken when monitoring was last initialized, zero
    /// before that.
    pub fn boot_timestamp(&self) -> (sample: u64)
        ensures
            sample == self.boot(),
    {
        self.boot_timestamp
    }
}

/// Counts one completed transaction: always as a transaction, its payload
/// size against the largest seen, and a result code other than zero as an
/// error, with the access-denied and the target-mismatch code each counted in
/// its own class as well.
pub fn monitor_transaction_hook(service: &mut GetIPCInfo, txn: &BinderTransaction)
    ensures
        final(service).stats() == after_transaction(
            old(service).stats(),
            txn.data_size,
            txn.return_error,
        ),
        final(service).cached() == old(service).cached(),
        final(service).boot() == old(service).boot(),
{
    proof {
        use_type_invariant(&*service);
    }
    let mut stats = service.monitor;
    stats.transactions_total = bump(stats.transactions_total);
    let size: u32 = if txn.data_size > u32::MAX as usize {
        u32::MAX
    } else {
        txn.data_size as u32
    };
    if size > stats.max_transaction_size {
        stats.max_transaction_size = size;
    }
    if txn.return_error != 0 {
        stats.errors_total = bump(stats.errors_total);
        if txn.return_error == EACCES {
            stats.uid_violations = bump(stats.uid_violations);
        } else if txn.return_error == LIPC_TARGET_MISMATCH {
            stats.target_mismatches = bump(stats.target_mismatches);
        }
    }
    service.monitor = stats;
}

/// One tick of the periodic sampler: a second of uptime, nothing else.
pub fn sample_ipc_stats(service: &mut GetIPCInfo)
    ensures
        final(service).stats() == after_tick(old(service).stats()),
        final(service).cached() == old(service).cached(),
        final(service).boot() == old(service).boot(),
{
    proof {
        use_type_invariant(&*service);
    }
    let mut stats = service.monitor;
    stats.uptime_seconds = bump(stats.uptime_seconds);
    service.monitor = stats;
}

/// No counter ever runs backwards: neither a completed transaction nor a
/// tick of the sampler lowers any of the ten.
pub proof fn lemma_counters_never_decrease(stats: IPCStats, data_size: usize, return_error: i32)
    ensures
        after_transaction(stats, data_size, return_error).not_below(stats),
        after_tick(stats).not_below(stats),
{
}

/// A run of transactions lowers no counter either.
pub proof fn lemma_run_never_decreases(stats: IPCStats, run: Seq<(usize, i32)>)
    ensures
        after_transactions(stats, run).not_below(stats),
    decreases run.len(),
{
    if run.len() > 0 {
        lemma_run_never_decreases(stats, run.drop_last());
    }
}

/// After a run of N transactions that all succeeded, the transaction counter
/// has grown by exactly N, as long as that stays within the counter's range,
/// and the error counters are unchanged.
pub proof fn lemma_successes_are_counted(stats: IPCStats, run: Seq<(usize, i32)>)
    requires
        forall|i: int| 0 <= i < run.len() ==> (#[trigger] run[i]).1 == 0,
        stats.transactions_total + run.len() <= u32::MAX,
    ensures
        after_transactions(stats, run).transactions_total == stats.transactions_total + run.len(),
        after_transactions(stats, run).errors_total == stats.errors_total,
        after_transactions(stats, run).uid_violations == stats.uid_violations,
        after_transactions(stats, run).target_mismatches == stats.target_mismatches,
    decreases run.len(),
{
    if run.len() > 0 {
        let head = run.drop_last();
        assert forall|i: int| 0 <= i < head.len() implies (#[trigger] head[i]).1 == 0 by {
            assert(head[i] == run[i]);
        }
        lemma_successes_are_counted(stats, head);
    }
}

/// One transaction that was refused for its sender raises the
/// access-violation counter and the error counter by exactly one each, as
/// long as neither is at the end of its range. Apart from the transaction
/// counter and the largest payload size, which every transaction touches, no
/// other counter changes.
pub proof fn lemma_access_denied_is_classified(stats: IPCStats, data_size: usize)
    requires
        stats.uid_violations < u32::MAX,
        stats.errors_total < u32::MAX,
    ensures
        ({
            let after = after_transaction(stats, data_size, EACCES);
            &&& after.uid_violations == stats.uid_violations + 1
            &&& after.errors_total == stats.errors_total + 1
            &&& after.target_mismatches == stats.target_mismatches
            &&& after.pages_mapped_total == stats.pages_mapped_total
            &&& after.lock_contention == stats.lock_contention
            &&& after.tlb_flushes_total == stats.tlb_flushes_total
            &&& after.avg_latency_ns == stats.avg_latency_ns
            &&& after.uptime_seconds == stats.uptime_seconds
            &&& after.transactions_total == bumped(stats.transactions_total)
            &&& after.max_transaction_size >= stats.max_transaction_size
        }),
{
}

/// One transaction whose device identity did not match raises the
/// target-mismatch counter and the error counter by exactly one each, within
/// their range, and not the access-violation counter. A failure of any other
/// kind raises the error counter alone.
pub proof fn lemma_other_errors_are_classified(stats: IPCStats, data_size: usize, code: i32)
    requires
        code != 0,
        code != EACCES,
        stats.target_mismatches < u32::MAX,
        stats.errors_total < u32::MAX,
    ensures
        ({
            let after = after_transaction(stats, data_size, code);
            &&& after.errors_total == stats.errors_total + 1
            &&& after.uid_violations == stats.uid_violations
            &&& after.target_mismatches == if code == LIPC_TARGET_MISMATCH {
                stats.target_mismatches + 1
            } else {
                stats.target_mismatches as int
            }
        }),
{
}

/// After a run of transactions the size counter holds the largest payload
/// size seen: it is no smaller than it was nor than the size of any
/// transaction of the run, and it is one of those values.
pub proof fn lemma_largest_size_is_tracked(stats: IPCStats, run: Seq<(usize, i32)>)
    ensures
        ({
            let after = after_transactions(stats, run);
            &&& after.max_transaction_size >= stats.max_transaction_size
            &&& forall|i: int|
                0 <= i < run.len() ==> after.max_transaction_size >= clamped_size(
                    (#[trigger] run[i]).0,
                )
            &&& (after.max_transaction_size == stats.max_transaction_size || exists|i: int|
                0 <= i < run.len() && after.max_transaction_size == clamped_size(
                    (#[trigger] run[i]).0,
                ))
        }),
    decreases run.len(),
{
    if run.len() > 0 {
        let head = run.drop_last();
        let before = after_transactions(stats, head);
        let after = after_transactions(stats, run);
        lemma_largest_size_is_tracked(stats, head);
        assert forall|i: int| 0 <= i < run.len() implies after.max_transaction_size
            >= clamped_size((#[trigger] run[i]).0) by {
            if i < head.len() {
                assert(head[i] == run[i]);
            }
        }
        if after.max_transaction_size == before.max_transaction_size {
            if before.max_transaction_size != stats.max_transaction_size {
                let i = choose|i: int|
                    0 <= i < head.len() && before.max_transaction_size == clamped_size(
                        (#[trigger] head[i]).0,
                    );
                assert(head[i] == run[i]);
            }
        } else {
            assert(after.max_transaction_size == clamped_size(run[run.len() - 1].0));
        }
    }
}

/// Classified errors stay within the error total: counters that are
/// consistent remain so after a transaction, as long as the error counter is
/// not at the end of its range. Fresh counters are consistent, and a tick of
/// the sampler keeps them so.
pub proof fn lemma_consistency_is_kept(stats: IPCStats, data_size: usize, return_error: i32)
    requires
        stats.consistent(),
        stats.errors_total < u32::MAX,
    ensures
        after_transaction(stats, data_size, return_error).consistent(),
        after_tick(stats).consistent(),
        zero_stats().consistent(),
{
}

/// Over a whole run the classified errors stay within the error total, as
/// long as the error counter cannot reach the end of its range.
pub proof fn lemma_run_keeps_consistency(stats: IPCStats, run: Seq<(usize, i32)>)
    requires
        stats.consistent(),
        stats.errors_total + run.len() <= u32::MAX,
    ensures
        after_transactions(stats, run).consistent(),
        after_transactions(stats, run).errors_total <= stats.errors_total + run.len(),
    decreases run.len(),
{
    if run.len() > 0 {
        lemma_run_keeps_consistency(stats, run.drop_last());
    }
}

/// Initialization clears the error total and keeps the two error classes,
/// so it leaves the counters consistent exactly if no classified error has
/// been counted before it.
pub proof fn lemma_init_and_consistency(stats: IPCStats)
    ensures
        after_init(stats).consistent() <==> stats.uid_violations == 0 && stats.target_mismatches
            == 0,
        after_init(zero_stats()) == zero_stats(),
{
}

} // verus!
