//! Build-time configuration of the IPC introspection service: geometry of the
//! shared IPC region, the principals that may query it, record markers and the
//! result codes the transaction layer reports.

use vstd::prelude::*;
use vstd::string::*;

verus! {

/// Size in bytes of one page of the IPC region.
pub const MEM_PAGE_SIZE: usize = 16384;

/// Number of pages mapped for the IPC region (1 MiB in 16 KiB pages).
pub const IPC_REGION_PAGES: u32 = 64;

/// Base address of the kernel image.
pub const KERNEL_BASE: usize = 0x8000_0000;

/// Offset from `KERNEL_BASE` of the first-level translation table slot that
/// maps the IPC region.
pub const L1_TABLE_OFFSET: usize = 0x4000;

/// Cache policy of the IPC region: write-back, write-allocate.
pub const CACHE_WRITE_BACK_WRITE_ALLOCATE: u32 = 0x5;

/// The privileged system principal.
pub const SYSTEM_UID: u32 = 1000;

/// The secondary (radio) principal.
pub const RADIO_UID: u32 = 1001;

/// Marks a snapshot that carries real data.
pub const LUMEN_MAGIC: u32 = 0x4C55_4D4E;

/// Marks the sentinel snapshot handed out when access is denied.
pub const INVALID_MAGIC: u32 = 0xDEAD_BEEF;

/// Layout version of the snapshot record.
pub const IPC_INFO_VERSION: u32 = 0x10001;

/// Routing handle of the binder endpoint that serves snapshots.
pub const BINDER_HANDLE: u32 = 0xDEAD_BEEF;

/// Routing handle of the server port ("LIPC").
pub const SERVER_PORT: u32 = 0x4C49_5043;

/// Result code of a transaction that was refused for its sender.
pub const EACCES: i32 = -13;

/// Result code of a transaction whose device identity did not match.
pub const LIPC_TARGET_MISMATCH: i32 = -99;

/// Ticks of the monotonic counter per second of uptime.
pub const TICKS_PER_SECOND: u64 = 1_000_000;

/// The configured device identity.
pub const TARGET_DEVICE: &'static str = "Motorola Nexus 6 shamu";

/// Label of the lock that guards targeting.
pub const LOCK_LABEL: &'static str = "Global";

/// The bytes of a text whose characters are all ASCII.
pub open spec fn ascii_bytes(text: Seq<char>) -> Seq<u8> {
    Seq::new(text.len(), |i: int| text[i] as u8)
}

/// The configured device identity as bytes.
pub open spec fn device_identity() -> Seq<u8> {
    ascii_bytes(TARGET_DEVICE@)
}

/// The lock label as bytes.
pub open spec fn lock_label() -> Seq<u8> {
    ascii_bytes(LOCK_LABEL@)
}

/// Whether `uid` is one of the two principals that may read a snapshot.
pub open spec fn is_allowed_uid(uid: u32) -> bool {
    uid == SYSTEM_UID || uid == RADIO_UID
}

/// The device identity is 22 bytes long and ends in a byte that is not
/// padding, neither NUL nor a space.
pub proof fn lemma_device_identity_shape()
    ensures
        device_identity().len() == 22,
        device_identity().last() != 0u8,
        device_identity().last() != 0x20u8,
        device_identity()[0] == 0x4Du8,
{
    reveal_strlit("Motorola Nexus 6 shamu");
}

/// The lock label is 6 bytes long and ends in a byte that is not NUL.
pub proof fn lemma_lock_label_shape()
    ensures
        lock_label().len() == 6,
        lock_label().last() != 0u8,
        lock_label()[0] == 0x47u8,
{
    reveal_strlit("Global");
}

/// The bytes of the configured device identity.
pub fn device_identity_bytes() -> (bytes: &'static [u8])
    ensures
        bytes@ == device_identity(),
        bytes@.len() == 22,
{
    proof {
        reveal_strlit("Motorola Nexus 6 shamu");
        is_ascii_spec_bytes(TARGET_DEVICE);
    }
    TARGET_DEVICE.as_bytes()
}

/// The bytes of the lock label.
pub fn lock_label_bytes() -> (bytes: &'static [u8])
    ensures
        bytes@ == lock_label(),
        bytes@.len() == 6,
{
    proof {
        reveal_strlit("Global");
        is_ascii_spec_bytes(LOCK_LABEL);
    }
    LOCK_LABEL.as_bytes()
}

} // verus!
