use ipc_info::config::{
    BINDER_HANDLE, INVALID_MAGIC, IPC_INFO_VERSION, LUMEN_MAGIC, MEM_PAGE_SIZE, RADIO_UID,
    SERVER_PORT, SYSTEM_UID, TARGET_DEVICE,
};
use ipc_info::{init_ipc_info_cache, GetIPCInfo, IPCInfo};

fn sentinel() -> IPCInfo {
    IPCInfo {
        magic: 0xDEAD_BEEF,
        version: 0,
        mem_page_size: 0,
        uid_enforced: 0,
        target_device: [0u8; 64],
        pages_mapped: 0,
        active_transactions: 0,
        lock_type: [0u8; 16],
        binder_handle: 0,
        server_port: 0,
        valid: false,
    }
}

fn padded<const N: usize>(content: &[u8], pad: u8) -> [u8; N] {
    let mut buffer = [pad; N];
    buffer[..content.len()].copy_from_slice(content);
    buffer
}

#[test]
fn configured_constants_have_their_values() {
    assert_eq!(MEM_PAGE_SIZE, 16 * 1024);
    assert_eq!(SYSTEM_UID, 1000);
    assert_eq!(RADIO_UID, 1001);
    assert_eq!(INVALID_MAGIC, 0xDEAD_BEEF);
    assert_ne!(LUMEN_MAGIC, INVALID_MAGIC);
    assert_eq!(IPC_INFO_VERSION, 0x10001);
    assert_eq!(BINDER_HANDLE, 0xDEAD_BEEF);
    assert_eq!(SERVER_PORT, u32::from_be_bytes(*b"LIPC"));
    assert_eq!(TARGET_DEVICE, "Motorola Nexus 6 shamu");
}

#[test]
fn new_service_has_cached_nothing() {
    let service = GetIPCInfo::new();
    assert_eq!(service.cached_ipc_info(), sentinel());
    assert_eq!(service.boot_timestamp(), 0);
}

#[test]
fn unauthorized_uid_gets_the_sentinel() {
    let mut service = GetIPCInfo::new();
    let info = service.get_ipc_info(9999);
    assert!(!info.valid);
    assert_eq!(info.magic, INVALID_MAGIC);
    assert_eq!(info, sentinel());
}

#[test]
fn unauthorized_query_leaves_the_cache_unchanged() {
    let mut service = GetIPCInfo::new();
    let before_any = service.cached_ipc_info();
    let _ = service.get_ipc_info(9999);
    assert_eq!(service.cached_ipc_info(), before_any);

    let granted = service.get_ipc_info(SYSTEM_UID);
    let before = service.cached_ipc_info();
    assert_eq!(before, granted);
    let denied = service.get_ipc_info(9999);
    assert!(!denied.valid);
    assert_eq!(denied.magic, INVALID_MAGIC);
    assert_eq!(service.cached_ipc_info(), before);
}

#[test]
fn every_uid_but_the_two_principals_is_refused() {
    let mut service = GetIPCInfo::new();
    for uid in [0u32, 1, 999, 1002, 2000, 9999, u32::MAX] {
        assert!(!service.validate_uid(uid));
        assert_eq!(service.get_ipc_info(uid), sentinel());
    }
    assert_eq!(service.cached_ipc_info(), sentinel());
}

#[test]
fn system_principal_gets_a_valid_snapshot() {
    let mut service = GetIPCInfo::new();
    let info = service.get_ipc_info(SYSTEM_UID);
    let expected = IPCInfo {
        magic: LUMEN_MAGIC,
        version: 0x10001,
        mem_page_size: 16384,
        uid_enforced: 1000,
        target_device: padded::<64>(b"Motorola Nexus 6 shamu", 0),
        pages_mapped: 64,
        active_transactions: 0,
        lock_type: padded::<16>(b"Global", 0),
        binder_handle: 0xDEAD_BEEF,
        server_port: 0x4C49_5043,
        valid: true,
    };
    assert_eq!(info, expected);
    assert_eq!(service.cached_ipc_info(), expected);
}

#[test]
fn radio_principal_gets_a_snapshot_in_its_own_name() {
    let mut service = GetIPCInfo::new();
    assert!(service.validate_uid(RADIO_UID));
    let info = service.get_ipc_info(RADIO_UID);
    assert!(info.valid);
    assert_eq!(info.uid_enforced, 1001);
    assert_eq!(info.magic, LUMEN_MAGIC);
    assert_eq!(service.cached_ipc_info(), info);
}

#[test]
fn snapshot_identity_prefix_is_the_configured_identity() {
    let mut service = GetIPCInfo::new();
    let info = service.get_ipc_info(SYSTEM_UID);
    let identity = TARGET_DEVICE.as_bytes();
    assert_eq!(&info.target_device[..identity.len()], identity);
    assert!(info.target_device[identity.len()..].iter().all(|byte| *byte == 0));
    assert_eq!(&info.lock_type[..6], b"Global");
    assert!(info.lock_type[6..].iter().all(|byte| *byte == 0));
}

#[test]
fn snapshot_geometry_is_that_of_the_paging_record() {
    let mut service = GetIPCInfo::new();
    let info = service.get_ipc_info(SYSTEM_UID);
    let paging = service.get_ipc_paging_info();
    assert_eq!(info.mem_page_size, paging.page_size);
    assert_eq!(info.pages_mapped, paging.pages_mapped);
    assert_eq!(info.mem_page_size * info.pages_mapped as usize, paging.total_ipc_region);
}

#[test]
fn paging_record_has_the_configured_geometry() {
    let service = GetIPCInfo::new();
    let paging = service.get_ipc_paging_info();
    assert_eq!(paging.page_size, 16384);
    assert_eq!(paging.pages_mapped, 64);
    assert_eq!(paging.l1_table_base, 0x8000_4000);
    assert_eq!(paging.total_ipc_region, 1_048_576);
    assert_eq!(paging.total_ipc_region, paging.page_size * paging.pages_mapped as usize);
    assert_eq!(paging.cache_flags, 0x5);
    assert_eq!(paging.tlb_flushes, 0);
    assert!(paging.valid);
}

#[test]
fn paging_record_is_the_same_on_every_read() {
    let mut service = GetIPCInfo::new();
    let first = service.get_ipc_paging_info();
    let second = service.get_ipc_paging_info();
    assert_eq!(first, second);
    let _ = service.get_ipc_info(SYSTEM_UID);
    let _ = service.get_ipc_info(9999);
    assert_eq!(service.get_ipc_paging_info(), first);
}

#[test]
fn targeting_record_without_a_server_counts_as_valid() {
    let service = GetIPCInfo::new();
    let info = service.get_ipc_targeting_info(None);
    assert_eq!(info.target_device, padded::<64>(b"Motorola Nexus 6 shamu", b' '));
    assert_eq!(info.allowed_uids, [1000, 1001, 0, 0, 0, 0, 0, 0]);
    assert_eq!(info.uid_count, 2);
    assert!(info.target_valid);
    assert!(info.enforced);
    assert!(!info.lock_active);
}

#[test]
fn targeting_record_takes_the_verdict_of_the_server() {
    let service = GetIPCInfo::new();
    let matched = service.get_ipc_targeting_info(Some(true));
    let mismatched = service.get_ipc_targeting_info(Some(false));
    assert!(matched.target_valid);
    assert!(!mismatched.target_valid);
    assert_eq!(matched.allowed_uids, mismatched.allowed_uids);
    assert_eq!(matched.target_device, mismatched.target_device);
    assert_eq!(mismatched.uid_count, 2);
    assert!(mismatched.enforced);
}

#[test]
fn allow_list_of_the_targeting_record_is_the_access_decision() {
    let service = GetIPCInfo::new();
    let info = service.get_ipc_targeting_info(None);
    let populated = &info.allowed_uids[..info.uid_count as usize];
    for uid in [0u32, 999, 1000, 1001, 1002, 9999] {
        assert_eq!(service.validate_uid(uid), populated.contains(&uid));
    }
    assert!(!service.validate_uid(0));
}

#[test]
fn invalid_ipc_info_is_the_sentinel() {
    let service = GetIPCInfo::new();
    assert_eq!(service.invalid_ipc_info(), sentinel());
}

#[test]
fn cache_initialization_stores_the_system_snapshot() {
    let mut service = GetIPCInfo::new();
    init_ipc_info_cache(&mut service);
    let cached = service.cached_ipc_info();
    assert!(cached.valid);
    assert_eq!(cached.uid_enforced, SYSTEM_UID);
    assert_eq!(cached.pages_mapped, 64);
    let mut other = GetIPCInfo::new();
    assert_eq!(other.get_ipc_info(SYSTEM_UID), cached);
}

#[test]
fn entry_points_agree_with_the_methods() {
    let mut by_method = GetIPCInfo::new();
    let mut by_entry = GetIPCInfo::new();
    for uid in [9999u32, SYSTEM_UID, 7, RADIO_UID] {
        assert_eq!(ipc_info::get_ipc_info(&mut by_entry, uid), by_method.get_ipc_info(uid));
        assert_eq!(by_entry.cached_ipc_info(), by_method.cached_ipc_info());
    }
    assert_eq!(ipc_info::get_ipc_paging_info(&by_entry), by_method.get_ipc_paging_info());
    for verdict in [None, Some(true), Some(false)] {
        assert_eq!(
            ipc_info::get_ipc_targeting_info(&by_entry, verdict),
            by_method.get_ipc_targeting_info(verdict)
        );
    }
}
