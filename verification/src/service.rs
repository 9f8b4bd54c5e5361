//! The service object: the cached snapshot, the monitor's counters and the
//! boot timestamp, with the resolvers and the access decision that guard the
//! snapshot.

use vstd::prelude::*;
use crate::config::{
    device_identity, device_identity_bytes, is_allowed_uid, lemma_device_identity_shape,
    lock_label_bytes, BINDER_HANDLE, CACHE_WRITE_BACK_WRITE_ALLOCATE, INVALID_MAGIC,
    IPC_INFO_VERSION, IPC_REGION_PAGES, KERNEL_BASE, L1_TABLE_OFFSET, LUMEN_MAGIC, MEM_PAGE_SIZE,
    RADIO_UID, SERVER_PORT, SYSTEM_UID,
};
use crate::records::{
    invalid_snapshot, lemma_paging_snapshot_well_formed, lemma_unpadded_padded, padded,
    paging_snapshot, targeting_snapshot, unpadded, valid_snapshot, zero_stats, IPCInfo,
    IPCInfoView, IPCPagingInfo, IPCStats, IPCTargetingInfo,
};

verus! {

/// The snapshot that a query by `uid` returns while the paging resolver
/// reports `paging`: the sentinel unless `uid` is an allowed principal.
pub open spec fn snapshot_for(uid: u32, paging: IPCPagingInfo) -> IPCInfoView {
    if is_allowed_uid(uid) {
        valid_snapshot(uid, paging)
    } else {
        invalid_snapshot()
    }
}

/// A buffer of `N` bytes that starts with `content`, as far as it fits, and
/// is filled up with `pad`.
fn padded_buffer<const N: usize>(content: &[u8], pad: u8) -> (buffer: [u8; N])
    ensures
        buffer@ == padded(content@, pad, N as nat),
{
    let mut buffer: [u8; N] = [pad; N];
    let mut i: usize = 0;
    while i < content.len() && i < N
        invariant
            i <= content@.len(),
            i <= N,
            forall|j: int| 0 <= j < i ==> buffer@[j] == content@[j],
            forall|j: int| i <= j < N ==> buffer@[j] == pad,
        decreases N - i,
    {
        buffer[i] = content[i];
        i = i + 1;
    }
    buffer
}

/// The sentinel snapshot as a record.
fn sentinel() -> (info: IPCInfo)
    ensures
        info@ == invalid_snapshot(),
        !info.valid,
{
    let info = IPCInfo {
        magic: INVALID_MAGIC,
        version: 0,
        mem_page_size: 0,
        uid_enforced: 0,
        target_device: [0u8; 64],
        pages_mapped: 0,
        active_transactions: 0,
        lock_type: [0u8; 16],
        binder_handle: 0,
        server_port: 0,
        valid: false,
    };
    assert(info.target_device@ =~= invalid_snapshot().target_device);
    assert(info.lock_type@ =~= invalid_snapshot().lock_type);
    info
}

/// The IPC introspection service. It owns the last valid snapshot, the
/// counters of the transaction monitor and the boot timestamp; nothing else
/// changes them.
pub struct GetIPCInfo {
    pub(crate) cache: IPCInfo,
    pub(crate) monitor: IPCStats,
    pub(crate) boot_timestamp: u64,
}

impl GetIPCInfo {
    /// The cached snapshot keeps the snapshot invariant.
    #[verifier::type_invariant]
    pub(crate) open spec fn cache_well_formed(self) -> bool {
        self.cache@.well_formed()
    }

    /// The cached snapshot.
    pub open(crate) spec fn cached(&self) -> IPCInfo {
        self.cache
    }

    /// The counters of the transaction monitor.
    pub open(crate) spec fn stats(&self) -> IPCStats {
        self.monitor
    }

    /// The counter sample taken when monitoring was last initialized.
    pub open(crate) spec fn boot(&self) -> u64 {
        self.boot_timestamp
    }

    /// A service that has cached nothing and counted nothing.
    pub fn new() -> (service: Self)
        ensures
            service.cached()@ == invalid_snapshot(),
            service.stats() == zero_stats(),
            service.boot() == 0,
    {
        let cache = sentinel();
        GetIPCInfo {
            cache,
            monitor: IPCStats {
                transactions_total: 0,
                pages_mapped_total: 0,
                lock_contention: 0,
                uid_violations: 0,
                target_mismatches: 0,
                tlb_flushes_total: 0,
                max_transaction_size: 0,
                avg_latency_ns: 0,
                uptime_seconds: 0,
                errors_total: 0,
            },
            boot_timestamp: 0,
        }
    }

    /// The combined snapshot for the principal `uid`. An allowed principal
    /// gets the merged targeting and paging data, which also replaces the
    /// cached snapshot; any other gets the sentinel, and the cache stays as
    /// it was.
    pub fn get_ipc_info(&mut self, uid: u32) -> (info: IPCInfo)
        ensures
            info@ == snapshot_for(uid, paging_snapshot(old(self).stats().tlb_flushes_total)),
            info.valid == is_allowed_uid(uid),
            info@.well_formed(),
            final(self).cached() == if is_allowed_uid(uid) {
                info
            } else {
                old(self).cached()
            },
            final(self).stats() == old(self).stats(),
            final(self).boot() == old(self).boot(),
    {
        if !self.validate_uid(uid) {
            return self.invalid_ipc_info();
        }
        let paging_info = self.get_ipc_paging_info();
        let info = IPCInfo {
            magic: LUMEN_MAGIC,
            version: IPC_INFO_VERSION,
            mem_page_size: paging_info.page_size,
            uid_enforced: uid,
            target_device: padded_buffer::<64>(device_identity_bytes(), 0),
            pages_mapped: paging_info.pages_mapped,
            active_transactions: 0,
            lock_type: padded_buffer::<16>(lock_label_bytes(), 0),
            binder_handle: BINDER_HANDLE,
            server_port: SERVER_PORT,
            valid: true,
        };
        self.cache = info;
        info
    }

    /// The targeting record. `server_verdict` is what the owning server said
    /// of the configured device identity, or `None` while no server is
    /// present; the identity then counts as valid.
    pub fn get_ipc_targeting_info(&self, server_verdict: Option<bool>) -> (info: IPCTargetingInfo)
        ensures
            info@ == targeting_snapshot(server_verdict),
            info@.well_formed(),
    {
        let mut info = IPCTargetingInfo {
            target_device: padded_buffer::<64>(device_identity_bytes(), 0x20),
            allowed_uids: [SYSTEM_UID, RADIO_UID, 0, 0, 0, 0, 0, 0],
            uid_count: 2,
            target_valid: true,
            enforced: true,
            lock_active: false,
        };
        if let Some(verdict) = server_verdict {
            info.target_valid = verdict;
        }
        proof {
            lemma_allow_list_is_targeting(SYSTEM_UID, server_verdict);
        }
        info
    }

    /// The paging record: the configured geometry and cache policy, and the
    /// number of TLB flushes counted so far. It depends on nothing else, so
    /// two reads in one state agree in every field.
    pub fn get_ipc_paging_info(&self) -> (info: IPCPagingInfo)
        ensures
            info == paging_snapshot(self.stats().tlb_flushes_total),
            info.well_formed(),
            info.valid,
    {
        proof {
            lemma_paging_snapshot_well_formed(self.monitor.tlb_flushes_total);
        }
        IPCPagingInfo {
            page_size: MEM_PAGE_SIZE,
            pages_mapped: IPC_REGION_PAGES,
            l1_table_base: KERNEL_BASE + L1_TABLE_OFFSET,
            total_ipc_region: MEM_PAGE_SIZE * (IPC_REGION_PAGES as usize),
            cache_flags: CACHE_WRITE_BACK_WRITE_ALLOCATE,
            tlb_flushes: self.monitor.tlb_flushes_total,
            valid: true,
        }
    }

    /// Whether `uid` is one of the two allowed principals.
    pub fn validate_uid(&self, uid: u32) -> (allowed: bool)
        ensures
            allowed == is_allowed_uid(uid),
    {
        uid == SYSTEM_UID || uid == RADIO_UID
    }

    /// The sentinel snapshot.
    pub fn invalid_ipc_info(&self) -> (info: IPCInfo)
        ensures
            info@ == invalid_snapshot(),
            !info.valid,
    {
        sentinel()
    }

    /// The cached snapshot: the sentinel until an allowed principal has
    /// queried, then the snapshot of the last such query.
    pub fn cached_ipc_info(&self) -> (info: IPCInfo)
        ensures
            info == self.cached(),
            info@.well_formed(),
    {
        proof {
            use_type_invariant(self);
        }
        self.cache
    }
}

/// The combined snapshot for the principal `uid`, as
/// [`GetIPCInfo::get_ipc_info`] gives it.
pub fn get_ipc_info(service: &mut GetIPCInfo, uid: u32) -> (info: IPCInfo)
    ensures
        info@ == snapshot_for(uid, paging_snapshot(old(service).stats().tlb_flushes_total)),
        info.valid == is_allowed_uid(uid),
        final(service).cached() == if is_allowed_uid(uid) {
            info
        } else {
            old(service).cached()
        },
        final(service).stats() == old(service).stats(),
        final(service).boot() == old(service).boot(),
{
    service.get_ipc_info(uid)
}

/// The targeting record, as [`GetIPCInfo::get_ipc_targeting_info`] gives it.
pub fn get_ipc_targeting_info(
    service: &GetIPCInfo,
    server_verdict: Option<bool>,
) -> (info: IPCTargetingInfo)
    ensures
        info@ == targeting_snapshot(server_verdict),
{
    service.get_ipc_targeting_info(server_verdict)
}

/// The paging record, as [`GetIPCInfo::get_ipc_paging_info`] gives it.
pub fn get_ipc_paging_info(service: &GetIPCInfo) -> (info: IPCPagingInfo)
    ensures
        info == paging_snapshot(service.stats().tlb_flushes_total),
{
    service.get_ipc_paging_info()
}

/// Fills the cache at boot with the snapshot of the system principal.
pub fn init_ipc_info_cache(service: &mut GetIPCInfo)
    ensures
        final(service).cached()@ == valid_snapshot(
            SYSTEM_UID,
            paging_snapshot(old(service).stats().tlb_flushes_total),
        ),
        final(service).stats() == old(service).stats(),
        final(service).boot() == old(service).boot(),
{
    let _ = service.get_ipc_info(SYSTEM_UID);
}

/// A principal outside the allow-list gets the sentinel: not valid, the
/// invalid magic, every number zero and both buffers zero-filled.
pub proof fn lemma_denied_snapshot_is_sentinel(uid: u32, paging: IPCPagingInfo)
    requires
        !is_allowed_uid(uid),
    ensures
        ({
            let info = snapshot_for(uid, paging);
            &&& !info.valid
            &&& info.magic == INVALID_MAGIC
            &&& info.version == 0
            &&& info.mem_page_size == 0
            &&& info.uid_enforced == 0
            &&& info.pages_mapped == 0
            &&& info.active_transactions == 0
            &&& info.binder_handle == 0
            &&& info.server_port == 0
            &&& info.target_device.len() == 64
            &&& info.lock_type.len() == 16
            &&& forall|i: int| 0 <= i < 64 ==> info.target_device[i] == 0
            &&& forall|i: int| 0 <= i < 16 ==> info.lock_type[i] == 0
        }),
{
}

/// A principal of the allow-list gets a valid snapshot. Its geometry is that
/// of the paging record, whose region size is the page size times the page
/// count, and the non-padding prefix of its device-identity buffer is the
/// configured identity.
pub proof fn lemma_granted_snapshot_is_valid(uid: u32, tlb_flushes: u32)
    requires
        is_allowed_uid(uid),
    ensures
        ({
            let paging = paging_snapshot(tlb_flushes);
            let info = snapshot_for(uid, paging);
            &&& info.valid
            &&& info.magic == LUMEN_MAGIC
            &&& info.uid_enforced == uid
            &&& paging.total_ipc_region == paging.page_size * paging.pages_mapped
            &&& paging.total_ipc_region == info.mem_page_size * info.pages_mapped
            &&& unpadded(info.target_device, 0) == device_identity()
            &&& info.target_device.subrange(0, device_identity().len() as int)
                == device_identity()
        }),
{
    lemma_device_identity_shape();
    lemma_unpadded_padded(device_identity(), 0, 64);
    let info = snapshot_for(uid, paging_snapshot(tlb_flushes));
}

/// The access decision and the targeting record agree: a principal may read
/// a snapshot exactly if the record's allow-list holds it. The unpopulated
/// slots of the record allow nobody.
pub proof fn lemma_allow_list_is_targeting(uid: u32, server_verdict: Option<bool>)
    ensures
        is_allowed_uid(uid) <==> targeting_snapshot(server_verdict).allows(uid),
        targeting_snapshot(server_verdict).well_formed(),
{
    let record = targeting_snapshot(server_verdict);
    let list = record.allow_list();
    assert(list[0] == SYSTEM_UID && list[1] == RADIO_UID);
}

/// A valid snapshot names the device that the targeting record names: the
/// non-padding prefix of either buffer is the configured identity, whatever
/// the server said of it.
pub proof fn lemma_snapshot_names_targeted_device(
    uid: u32,
    paging: IPCPagingInfo,
    server_verdict: Option<bool>,
)
    ensures
        unpadded(targeting_snapshot(server_verdict).target_device, 0x20) == device_identity(),
        unpadded(valid_snapshot(uid, paging).target_device, 0) == device_identity(),
{
    lemma_device_identity_shape();
    lemma_unpadded_padded(device_identity(), 0x20, 64);
    lemma_unpadded_padded(device_identity(), 0, 64);
}

/// Two reads of the paging record with no change of state between them
/// agree in every field.
pub proof fn lemma_paging_reads_agree(
    service: GetIPCInfo,
    first: IPCPagingInfo,
    second: IPCPagingInfo,
)
    requires
        first == paging_snapshot(service.stats().tlb_flushes_total),
        second == paging_snapshot(service.stats().tlb_flushes_total),
    ensures
        first == second,
        first.well_formed(),
{
    lemma_paging_snapshot_well_formed(service.stats().tlb_flushes_total);
}

/// Every snapshot that a query returns keeps the snapshot invariant.
pub proof fn lemma_snapshot_well_formed(uid: u32, paging: IPCPagingInfo)
    ensures
        snapshot_for(uid, paging).well_formed(),
{
}

} // verus!
