//! The fixed-layout records that the service hands out, and their
//! mathematical views.

use vstd::prelude::*;
use vstd::arithmetic::power2::{lemma2_to64, pow2};
use crate::config::{
    device_identity, lock_label, BINDER_HANDLE, CACHE_WRITE_BACK_WRITE_ALLOCATE, INVALID_MAGIC,
    IPC_INFO_VERSION, IPC_REGION_PAGES, KERNEL_BASE, L1_TABLE_OFFSET, LUMEN_MAGIC, MEM_PAGE_SIZE,
    RADIO_UID, SERVER_PORT, SYSTEM_UID,
};

verus! {

/// A buffer of `cap` bytes that starts with `content` and is filled up with
/// `pad`.
pub open spec fn padded(content: Seq<u8>, pad: u8, cap: nat) -> Seq<u8> {
    Seq::new(cap, |i: int| if i < content.len() { content[i] } else { pad })
}

/// What is left of `buf` once its trailing `pad` bytes are taken off.
pub open spec fn unpadded(buf: Seq<u8>, pad: u8) -> Seq<u8>
    decreases buf.len(),
{
    if buf.len() > 0 && buf.last() == pad {
        unpadded(buf.drop_last(), pad)
    } else {
        buf
    }
}

/// Padding can be taken off again: a content that fits the buffer and does
/// not itself end in the padding byte is the non-padding prefix of its padded
/// buffer.
pub proof fn lemma_unpadded_padded(content: Seq<u8>, pad: u8, cap: nat)
    requires
        content.len() <= cap,
        content.len() > 0 ==> content.last() != pad,
    ensures
        unpadded(padded(content, pad, cap), pad) == content,
    decreases cap - content.len(),
{
    let buffer = padded(content, pad, cap);
    if content.len() < cap {
        assert(buffer.drop_last() =~= padded(content, pad, (cap - 1) as nat));
        lemma_unpadded_padded(content, pad, (cap - 1) as nat);
    } else {
        assert(buffer =~= content);
    }
}

/// The composite snapshot of the IPC subsystem.
#[derive(Clone, Copy, Debug, PartialEq, Eq)]
pub struct IPCInfo {
    pub magic: u32,
    pub version: u32,
    pub mem_page_size: usize,
    pub uid_enforced: u32,
    pub target_device: [u8; 64],
    pub pages_mapped: u32,
    pub active_transactions: u32,
    pub lock_type: [u8; 16],
    pub binder_handle: u32,
    pub server_port: u32,
    pub valid: bool,
}

/// A snapshot as a mathematical value: the two buffers are byte sequences.
pub struct IPCInfoView {
    pub magic: u32,
    pub version: u32,
    pub mem_page_size: usize,
    pub uid_enforced: u32,
    pub target_device: Seq<u8>,
    pub pages_mapped: u32,
    pub active_transactions: u32,
    pub lock_type: Seq<u8>,
    pub binder_handle: u32,
    pub server_port: u32,
    pub valid: bool,
}

impl View for IPCInfo {
    type V = IPCInfoView;

    open spec fn view(&self) -> IPCInfoView {
        IPCInfoView {
            magic: self.magic,
            version: self.version,
            mem_page_size: self.mem_page_size,
            uid_enforced: self.uid_enforced,
            target_device: self.target_device@,
            pages_mapped: self.pages_mapped,
            active_transactions: self.active_transactions,
            lock_type: self.lock_type@,
            binder_handle: self.binder_handle,
            server_port: self.server_port,
            valid: self.valid,
        }
    }
}

/// The sentinel snapshot: the invalid magic, every number zero, both buffers
/// zero-filled, and `valid` false.
pub open spec fn invalid_snapshot() -> IPCInfoView {
    IPCInfoView {
        magic: INVALID_MAGIC,
        version: 0,
        mem_page_size: 0,
        uid_enforced: 0,
        target_device: padded(Seq::empty(), 0, 64),
        pages_mapped: 0,
        active_transactions: 0,
        lock_type: padded(Seq::empty(), 0, 16),
        binder_handle: 0,
        server_port: 0,
        valid: false,
    }
}

/// The snapshot that an allowed principal `uid` gets while the paging
/// resolver reports `paging`: geometry from `paging`, the configured device
/// identity and the lock label NUL-padded, and the fixed markers.
pub open spec fn valid_snapshot(uid: u32, paging: IPCPagingInfo) -> IPCInfoView {
    IPCInfoView {
        magic: LUMEN_MAGIC,
        version: IPC_INFO_VERSION,
        mem_page_size: paging.page_size,
        uid_enforced: uid,
        target_device: padded(device_identity(), 0, 64),
        pages_mapped: paging.pages_mapped,
        active_transactions: 0,
        lock_type: padded(lock_label(), 0, 16),
        binder_handle: BINDER_HANDLE,
        server_port: SERVER_PORT,
        valid: true,
    }
}

impl IPCInfoView {
    /// The invariant of a snapshot: both buffers have their fixed capacity,
    /// and one that is not valid is the sentinel in every field.
    pub open spec fn well_formed(self) -> bool {
        &&& self.target_device.len() == 64
        &&& self.lock_type.len() == 16
        &&& !self.valid ==> self == invalid_snapshot()
    }
}

/// The targeting configuration: device identity, allow-list and flags.
#[derive(Clone, Copy, Debug, PartialEq, Eq)]
pub struct IPCTargetingInfo {
    pub target_device: [u8; 64],
    pub allowed_uids: [u32; 8],
    pub uid_count: u32,
    pub target_valid: bool,
    pub enforced: bool,
    pub lock_active: bool,
}

/// A targeting record as a mathematical value.
pub struct IPCTargetingInfoView {
    pub target_device: Seq<u8>,
    pub allowed_uids: Seq<u32>,
    pub uid_count: u32,
    pub target_valid: bool,
    pub enforced: bool,
    pub lock_active: bool,
}

impl View for IPCTargetingInfo {
    type V = IPCTargetingInfoView;

    open spec fn view(&self) -> IPCTargetingInfoView {
        IPCTargetingInfoView {
            target_device: self.target_device@,
            allowed_uids: self.allowed_uids@,
            uid_count: self.uid_count,
            target_valid: self.target_valid,
            enforced: self.enforced,
            lock_active: self.lock_active,
        }
    }
}

impl IPCTargetingInfoView {
    /// The invariant of a targeting record: the count of populated slots does
    /// not exceed the capacity, and no principal is listed twice.
    pub open spec fn well_formed(self) -> bool {
        &&& self.target_device.len() == 64
        &&& self.allowed_uids.len() == 8
        &&& self.uid_count <= self.allowed_uids.len()
        &&& self.allow_list().no_duplicates()
    }

    /// The allow-list proper: the populated slots, in order.
    pub open spec fn allow_list(self) -> Seq<u32> {
        self.allowed_uids.take(self.uid_count as int)
    }

    /// Whether the record allows `uid`. Slots beyond `uid_count` do not count.
    pub open spec fn allows(self, uid: u32) -> bool {
        self.allow_list().contains(uid)
    }
}

/// The targeting record of the configured device, given what the owning
/// server said of the identity: `None` while no server is present, in which
/// case the identity counts as valid.
pub open spec fn targeting_snapshot(server_verdict: Option<bool>) -> IPCTargetingInfoView {
    IPCTargetingInfoView {
        target_device: padded(device_identity(), 0x20, 64),
        allowed_uids: seq![SYSTEM_UID, RADIO_UID, 0u32, 0u32, 0u32, 0u32, 0u32, 0u32],
        uid_count: 2,
        target_valid: match server_verdict {
            Some(verdict) => verdict,
            None => true,
        },
        enforced: true,
        lock_active: false,
    }
}

/// The geometry and policy of the IPC region.
#[derive(Clone, Copy, Debug, PartialEq, Eq)]
pub struct IPCPagingInfo {
    pub page_size: usize,
    pub pages_mapped: u32,
    pub l1_table_base: usize,
    pub total_ipc_region: usize,
    pub cache_flags: u32,
    pub tlb_flushes: u32,
    pub valid: bool,
}

impl IPCPagingInfo {
    /// The invariant of a paging record: the page size is a power of two,
    /// and the region size is derived from the page size and the page count.
    pub open spec fn well_formed(self) -> bool {
        &&& exists|k: nat| self.page_size == #[trigger] pow2(k)
        &&& self.total_ipc_region == self.page_size * self.pages_mapped
    }
}

/// The paging record of the configured region while the TLB has been flushed
/// `tlb_flushes` times.
pub open spec fn paging_snapshot(tlb_flushes: u32) -> IPCPagingInfo {
    IPCPagingInfo {
        page_size: MEM_PAGE_SIZE,
        pages_mapped: IPC_REGION_PAGES,
        l1_table_base: (KERNEL_BASE + L1_TABLE_OFFSET) as usize,
        total_ipc_region: (MEM_PAGE_SIZE * IPC_REGION_PAGES) as usize,
        cache_flags: CACHE_WRITE_BACK_WRITE_ALLOCATE,
        tlb_flushes,
        valid: true,
    }
}

/// The configured region has pages of two to the fourteenth bytes, and its
/// paging record keeps the invariant whatever the TLB counter holds.
pub proof fn lemma_paging_snapshot_well_formed(tlb_flushes: u32)
    ensures
        paging_snapshot(tlb_flushes).page_size == pow2(14),
        paging_snapshot(tlb_flushes).well_formed(),
{
    lemma2_to64();
}

/// The counters of the transaction monitor at one point in time.
#[derive(Clone, Copy, Debug, PartialEq, Eq)]
pub struct IPCStats {
    pub transactions_total: u32,
    pub pages_mapped_total: u32,
    pub lock_contention: u32,
    pub uid_violations: u32,
    pub target_mismatches: u32,
    pub tlb_flushes_total: u32,
    pub max_transaction_size: u32,
    pub avg_latency_ns: u32,
    pub uptime_seconds: u32,
    pub errors_total: u32,
}

impl IPCStats {
    /// Every classified error has also been counted as an error.
    pub open spec fn consistent(self) -> bool {
        self.errors_total >= self.uid_violations + self.target_mismatches
    }

    /// No counter of `self` is below its value in `before`.
    pub open spec fn not_below(self, before: IPCStats) -> bool {
        &&& self.transactions_total >= before.transactions_total
        &&& self.pages_mapped_total >= before.pages_mapped_total
        &&& self.lock_contention >= before.lock_contention
        &&& self.uid_violations >= before.uid_violations
        &&& self.target_mismatches >= before.target_mismatches
        &&& self.tlb_flushes_total >= before.tlb_flushes_total
        &&& self.max_transaction_size >= before.max_transaction_size
        &&& self.avg_latency_ns >= before.avg_latency_ns
        &&& self.uptime_seconds >= before.uptime_seconds
        &&& self.errors_total >= before.errors_total
    }
}

/// The counters as they stand before anything was counted.
pub open spec fn zero_stats() -> IPCStats {
    IPCStats {
        transactions_total: 0,
        pages_mapped_total: 0,
        lock_contention: 0,
        uid_violations: 0,
        target_mismatches: 0,
        tlb_flushes_total: 0,
        max_transaction_size: 0,
        avg_latency_ns: 0,
        uptime_seconds: 0,
        errors_total: 0,
    }
}

/// One IPC transaction as the transaction driver presents it: who sent it,
/// the size of its payload in bytes, and its result code, where zero means
/// success. `data` holds the payload itself where the service has made it.
#[derive(Debug, PartialEq, Eq)]
pub struct BinderTransaction {
    pub sender_uid: u32,
    pub data: Vec<u8>,
    pub data_size: usize,
    pub return_error: i32,
}

} // verus!
