use ipc_info::config::{EACCES, LIPC_TARGET_MISMATCH, SYSTEM_UID};
use ipc_info::{monitor_transaction_hook, sample_ipc_stats, BinderTransaction, GetIPCInfo, IPCStats};

fn completed(data_size: usize, return_error: i32) -> BinderTransaction {
    BinderTransaction { sender_uid: SYSTEM_UID, data: Vec::new(), data_size, return_error }
}

fn zero() -> IPCStats {
    IPCStats {
        transactions_total: 0,
        pages_mapped_total: 0,
        lock_contention: 0,
        uid_violations: 0,
        target_mismatches: 0,
        tlb_flushes_total: 0,
        max_transaction_size: 0,
        avg_latency_ns: 0,
        uptime_seconds: 0,
        errors_total: 0,
    }
}

#[test]
fn result_codes_have_their_values() {
    assert_eq!(EACCES, -13);
    assert_eq!(LIPC_TARGET_MISMATCH, -99);
}

#[test]
fn new_service_has_counted_nothing() {
    let service = GetIPCInfo::new();
    assert_eq!(service.get_ipc_stats(), zero());
}

#[test]
fn successful_transactions_are_counted_one_by_one() {
    let mut service = GetIPCInfo::new();
    service.init_ipc_monitoring(0);
    for n in 1..=25u32 {
        monitor_transaction_hook(&mut service, &completed(8, 0));
        let stats = service.get_ipc_stats();
        assert_eq!(stats.transactions_total, n);
        assert_eq!(stats.errors_total, 0);
        assert_eq!(stats.uid_violations, 0);
        assert_eq!(stats.target_mismatches, 0);
    }
}

#[test]
fn access_denied_is_counted_in_its_class() {
    let mut service = GetIPCInfo::new();
    monitor_transaction_hook(&mut service, &completed(16, 0));
    let before = service.get_ipc_stats();
    monitor_transaction_hook(&mut service, &completed(16, -13));
    let after = service.get_ipc_stats();
    let expected = IPCStats {
        transactions_total: before.transactions_total + 1,
        uid_violations: before.uid_violations + 1,
        errors_total: before.errors_total + 1,
        ..before
    };
    assert_eq!(after, expected);
    assert_eq!(after.uid_violations, 1);
    assert_eq!(after.errors_total, 1);
    assert_eq!(after.target_mismatches, 0);
}

#[test]
fn target_mismatch_is_counted_in_its_class() {
    let mut service = GetIPCInfo::new();
    monitor_transaction_hook(&mut service, &completed(0, -99));
    let stats = service.get_ipc_stats();
    assert_eq!(stats, IPCStats { transactions_total: 1, target_mismatches: 1, errors_total: 1, ..zero() });
}

#[test]
fn other_failures_count_as_errors_only() {
    let mut service = GetIPCInfo::new();
    for code in [1, -1, -12, -14, 13, 99, -98, i32::MIN, i32::MAX] {
        monitor_transaction_hook(&mut service, &completed(0, code));
    }
    let stats = service.get_ipc_stats();
    assert_eq!(stats, IPCStats { transactions_total: 9, errors_total: 9, ..zero() });
}

#[test]
fn errors_total_covers_the_classified_errors() {
    let mut service = GetIPCInfo::new();
    for code in [0, -13, -99, -5, -13, 0, -99, -99, 7] {
        monitor_transaction_hook(&mut service, &completed(0, code));
        let stats = service.get_ipc_stats();
        assert!(stats.errors_total >= stats.uid_violations + stats.target_mismatches);
    }
    let stats = service.get_ipc_stats();
    assert_eq!(stats.transactions_total, 9);
    assert_eq!(stats.errors_total, 7);
    assert_eq!(stats.uid_violations, 2);
    assert_eq!(stats.target_mismatches, 3);
}

#[test]
fn max_size_is_the_largest_payload_seen() {
    let mut service = GetIPCInfo::new();
    for size in [10usize, 500, 42] {
        monitor_transaction_hook(&mut service, &completed(size, 0));
    }
    assert_eq!(service.get_ipc_stats().max_transaction_size, 500);
}

#[test]
fn max_size_follows_each_new_maximum() {
    let mut service = GetIPCInfo::new();
    let sizes = [0usize, 3, 3, 2, 9, 1, 9, 10];
    let maxima = [0u32, 3, 3, 3, 9, 9, 9, 10];
    for (size, maximum) in sizes.iter().zip(maxima.iter()) {
        monitor_transaction_hook(&mut service, &completed(*size, -1));
        assert_eq!(service.get_ipc_stats().max_transaction_size, *maximum);
    }
}

#[test]
fn payload_size_beyond_the_counter_counts_as_its_largest_value() {
    let mut service = GetIPCInfo::new();
    monitor_transaction_hook(&mut service, &completed(u32::MAX as usize, 0));
    assert_eq!(service.get_ipc_stats().max_transaction_size, u32::MAX);
    let mut service = GetIPCInfo::new();
    monitor_transaction_hook(&mut service, &completed(7, 0));
    monitor_transaction_hook(&mut service, &completed(usize::MAX, 0));
    assert_eq!(service.get_ipc_stats().max_transaction_size, u32::MAX);
    monitor_transaction_hook(&mut service, &completed(12, 0));
    assert_eq!(service.get_ipc_stats().max_transaction_size, u32::MAX);
}

#[test]
fn monitoring_scenario_three_successes() {
    let mut service = GetIPCInfo::new();
    service.init_ipc_monitoring(123_456);
    for size in [64usize, 128, 32] {
        monitor_transaction_hook(&mut service, &completed(size, 0));
    }
    let stats = service.get_ipc_stats();
    assert_eq!(stats.transactions_total, 3);
    assert_eq!(stats.max_transaction_size, 128);
    assert_eq!(stats.errors_total, 0);
    assert_eq!(stats, IPCStats { transactions_total: 3, max_transaction_size: 128, ..zero() });
}

#[test]
fn sampler_tick_adds_a_second_of_uptime() {
    let mut service = GetIPCInfo::new();
    monitor_transaction_hook(&mut service, &completed(5, -13));
    let before = service.get_ipc_stats();
    sample_ipc_stats(&mut service);
    assert_eq!(service.get_ipc_stats(), IPCStats { uptime_seconds: 1, ..before });
    sample_ipc_stats(&mut service);
    sample_ipc_stats(&mut service);
    assert_eq!(service.get_ipc_stats(), IPCStats { uptime_seconds: 3, ..before });
}

#[test]
fn initialization_sets_the_boot_timestamp() {
    let mut service = GetIPCInfo::new();
    service.init_ipc_monitoring(987_654_321);
    assert_eq!(service.boot_timestamp(), 987_654_321);
    service.init_ipc_monitoring(u64::MAX);
    assert_eq!(service.boot_timestamp(), u64::MAX);
}

#[test]
fn initialization_resets_the_session_counters_only() {
    let mut service = GetIPCInfo::new();
    service.init_ipc_monitoring(1);
    monitor_transaction_hook(&mut service, &completed(300, -13));
    monitor_transaction_hook(&mut service, &completed(20, -99));
    monitor_transaction_hook(&mut service, &completed(20, -99));
    sample_ipc_stats(&mut service);
    let before = service.get_ipc_stats();
    assert_eq!(
        before,
        IPCStats {
            transactions_total: 3,
            uid_violations: 1,
            target_mismatches: 2,
            max_transaction_size: 300,
            uptime_seconds: 1,
            errors_total: 3,
            ..zero()
        }
    );
    service.init_ipc_monitoring(2);
    let after = service.get_ipc_stats();
    assert_eq!(
        after,
        IPCStats {
            uid_violations: 1,
            target_mismatches: 2,
            max_transaction_size: 300,
            uptime_seconds: 1,
            ..zero()
        }
    );
    assert_eq!(service.boot_timestamp(), 2);
}

#[test]
fn monitoring_leaves_the_cache_alone() {
    let mut service = GetIPCInfo::new();
    let granted = service.get_ipc_info(SYSTEM_UID);
    service.init_ipc_monitoring(9);
    monitor_transaction_hook(&mut service, &completed(1, -13));
    sample_ipc_stats(&mut service);
    assert_eq!(service.cached_ipc_info(), granted);
}

#[test]
fn queries_leave_the_counters_alone() {
    let mut service = GetIPCInfo::new();
    monitor_transaction_hook(&mut service, &completed(77, -99));
    let before = service.get_ipc_stats();
    let _ = service.get_ipc_info(SYSTEM_UID);
    let _ = service.get_ipc_info(4242);
    let _ = service.get_ipc_paging_info();
    let _ = service.get_ipc_targeting_info(Some(false));
    assert_eq!(service.get_ipc_stats(), before);
}

#[test]
fn counters_never_run_backwards() {
    let mut service = GetIPCInfo::new();
    let mut before = service.get_ipc_stats();
    let events: [(usize, i32); 8] =
        [(5, 0), (900, -13), (1, -99), (0, 3), (901, 0), (2, -13), (usize::MAX, 0), (4, -1)];
    for (size, code) in events {
        monitor_transaction_hook(&mut service, &completed(size, code));
        sample_ipc_stats(&mut service);
        let now = service.get_ipc_stats();
        assert!(now.transactions_total >= before.transactions_total);
        assert!(now.uid_violations >= before.uid_violations);
        assert!(now.target_mismatches >= before.target_mismatches);
        assert!(now.max_transaction_size >= before.max_transaction_size);
        assert!(now.uptime_seconds >= before.uptime_seconds);
        assert!(now.errors_total >= before.errors_total);
        before = now;
    }
}
