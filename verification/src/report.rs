//! The two reports: the lines that describe a snapshot and the lines that
//! describe the monitor's counters. The functions here only build the lines;
//! writing them to a log is left to the caller.

use vstd::prelude::*;
use vstd::string::*;
use crate::config::{SYSTEM_UID, TICKS_PER_SECOND};
use crate::records::{paging_snapshot, valid_snapshot, IPCInfo, IPCInfoView, IPCStats};
use crate::service::GetIPCInfo;
use crate::text::{buffer_text, decimal, hex_upper, push_buffer_text, push_decimal, push_hex_upper};

verus! {

/// The lines of the report on a snapshot.
pub open spec fn snapshot_report(info: IPCInfoView) -> Seq<Seq<char>> {
    seq![
        "=== Lumen IPC Info (Nexus 6 shamu) ==="@,
        "Magic: 0x"@ + hex_upper(info.magic as nat) + " | Page Size: "@ + decimal(
            info.mem_page_size as nat,
        ) + " bytes"@,
        "UID: "@ + decimal(info.uid_enforced as nat) + " | Target: "@ + buffer_text(
            info.target_device,
        ),
        "Pages: "@ + decimal(info.pages_mapped as nat) + " | Lock: "@ + buffer_text(
            info.lock_type,
        ),
    ]
}

/// Whole seconds from the counter sample `boot_timestamp` to the sample
/// `now`; zero where `now` is not past `boot_timestamp`.
pub open spec fn uptime(boot_timestamp: u64, now: u64) -> nat {
    if now >= boot_timestamp {
        ((now - boot_timestamp) / TICKS_PER_SECOND as int) as nat
    } else {
        0
    }
}

/// The lines of the report on the monitor's counters.
pub open spec fn monitoring_report(
    stats: IPCStats,
    boot_timestamp: u64,
    now: u64,
) -> Seq<Seq<char>> {
    seq![
        "=== Lumen IPC Monitoring Report ==="@,
        "Uptime: "@ + decimal(uptime(boot_timestamp, now)) + "s | Transactions: "@ + decimal(
            stats.transactions_total as nat,
        ),
        "Pages mapped: "@ + decimal(stats.pages_mapped_total as nat) + " | TLB flushes: "@
            + decimal(stats.tlb_flushes_total as nat),
        "Errors: "@ + decimal(stats.errors_total as nat) + " (UID: "@ + decimal(
            stats.uid_violations as nat,
        ) + ", Target: "@ + decimal(stats.target_mismatches as nat) + ")"@,
        "Lock contention: "@ + decimal(stats.lock_contention as nat),
    ]
}

/// The report on the snapshot `info`, line by line. A buffer whose bytes are
/// not valid UTF-8 is shown as the placeholder.
pub fn format_snapshot_report(info: &IPCInfo) -> (lines: Vec<String>)
    ensures
        lines.deep_view() == snapshot_report(info@),
{
    let mut lines: Vec<String> = Vec::new();
    lines.push(String::from_str("=== Lumen IPC Info (Nexus 6 shamu) ==="));

    let mut line = String::from_str("Magic: 0x");
    push_hex_upper(&mut line, info.magic as u64);
    line.append(" | Page Size: ");
    push_decimal(&mut line, info.mem_page_size as u64);
    line.append(" bytes");
    lines.push(line);

    let mut line = String::from_str("UID: ");
    push_decimal(&mut line, info.uid_enforced as u64);
    line.append(" | Target: ");
    push_buffer_text(&mut line, info.target_device.as_slice());
    lines.push(line);

    let mut line = String::from_str("Pages: ");
    push_decimal(&mut line, info.pages_mapped as u64);
    line.append(" | Lock: ");
    push_buffer_text(&mut line, info.lock_type.as_slice());
    lines.push(line);

    lines
}

/// The report on the counters `stats` of a session that started at the
/// counter sample `boot_timestamp`, as of the sample `now`, line by line.
pub fn format_monitoring_report(
    stats: &IPCStats,
    boot_timestamp: u64,
    now: u64,
) -> (lines: Vec<String>)
    ensures
        lines.deep_view() == monitoring_report(*stats, boot_timestamp, now),
{
    let seconds: u64 = now.saturating_sub(boot_timestamp) / TICKS_PER_SECOND;
    let mut lines: Vec<String> = Vec::new();
    lines.push(String::from_str("=== Lumen IPC Monitoring Report ==="));

    let mut line = String::from_str("Uptime: ");
    push_decimal(&mut line, seconds);
    line.append("s | Transactions: ");
    push_decimal(&mut line, stats.transactions_total as u64);
    lines.push(line);

    let mut line = String::from_str("Pages mapped: ");
    push_decimal(&mut line, stats.pages_mapped_total as u64);
    line.append(" | TLB flushes: ");
    push_decimal(&mut line, stats.tlb_flushes_total as u64);
    lines.push(line);

    let mut line = String::from_str("Errors: ");
    push_decimal(&mut line, stats.errors_total as u64);
    line.append(" (UID: ");
    push_decimal(&mut line, stats.uid_violations as u64);
    line.append(", Target: ");
    push_decimal(&mut line, stats.target_mismatches as u64);
    line.append(")");
    lines.push(line);

    let mut line = String::from_str("Lock contention: ");
    push_decimal(&mut line, stats.lock_contention as u64);
    lines.push(line);

    lines
}

impl GetIPCInfo {
    /// The report on the counters of this service as of the counter sample
    /// `now`.
    pub fn dump_monitoring_report(&self, now: u64) -> (lines: Vec<String>)
        ensures
            lines.deep_view() == monitoring_report(self.stats(), self.boot(), now),
    {
        format_monitoring_report(&self.monitor, self.boot_timestamp, now)
    }
}

/// The report on the counters of `service` as of the counter sample `now`.
pub fn dump_ipc_monitoring(service: &GetIPCInfo, now: u64) -> (lines: Vec<String>)
    ensures
        lines.deep_view() == monitoring_report(service.stats(), service.boot(), now),
{
    service.dump_monitoring_report(now)
}

/// Queries the snapshot as the system principal, which refreshes the cache,
/// and reports on it.
pub fn dump_ipc_info(service: &mut GetIPCInfo) -> (lines: Vec<String>)
    ensures
        lines.deep_view() == snapshot_report(
            valid_snapshot(SYSTEM_UID, paging_snapshot(old(service).stats().tlb_flushes_total)),
        ),
        final(service).cached()@ == valid_snapshot(
            SYSTEM_UID,
            paging_snapshot(old(service).stats().tlb_flushes_total),
        ),
        final(service).stats() == old(service).stats(),
        final(service).boot() == old(service).boot(),
{
    let info = service.get_ipc_info(SYSTEM_UID);
    format_snapshot_report(&info)
}

} // verus!
