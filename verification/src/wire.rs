//! The snapshot on the wire, written and read, and the handler that answers
//! a transaction with it.
//!
//! A snapshot crosses the process boundary as 116 bytes: the fields in
//! declaration order, each 32-bit word in little-endian order, the two
//! buffers as they are, `valid` as one byte, and three bytes of zero that
//! fill the last word.
//!
//! | offset | bytes | field                 |
//! |-------:|------:|-----------------------|
//! |      0 |     4 | `magic`               |
//! |      4 |     4 | `version`             |
//! |      8 |     4 | `mem_page_size`       |
//! |     12 |     4 | `uid_enforced`        |
//! |     16 |    64 | `target_device`       |
//! |     80 |     4 | `pages_mapped`        |
//! |     84 |     4 | `active_transactions` |
//! |     88 |    16 | `lock_type`           |
//! |    104 |     4 | `binder_handle`       |
//! |    108 |     4 | `server_port`         |
//! |    112 |     1 | `valid`               |
//! |    113 |     3 | zero                  |

use vstd::prelude::*;
use crate::config::{is_allowed_uid, EACCES};
use crate::records::{paging_snapshot, valid_snapshot, BinderTransaction, IPCInfo, IPCInfoView};
use crate::service::GetIPCInfo;

verus! {

/// Size in bytes of a snapshot on the wire.
pub const IPC_INFO_WIRE_SIZE: usize = 116;

/// The four bytes of `word`, least significant first.
pub open spec fn le_bytes(word: u32) -> Seq<u8> {
    seq![
        (word % 0x100) as u8,
        (word / 0x100 % 0x100) as u8,
        (word / 0x1_0000 % 0x100) as u8,
        (word / 0x100_0000) as u8,
    ]
}

/// The word whose four bytes, least significant first, are `bytes`.
pub open spec fn le_word(bytes: Seq<u8>) -> int {
    bytes[0] + 0x100 * bytes[1] + 0x1_0000 * bytes[2] + 0x100_0000 * bytes[3]
}

/// The byte that stands for a flag: one for true, zero for false.
pub open spec fn flag_byte(flag: bool) -> u8 {
    if flag {
        1
    } else {
        0
    }
}

/// Whether a snapshot can go on the wire: its page size has to fit the
/// 32-bit word that carries it.
pub open spec fn fits_wire(info: IPCInfoView) -> bool {
    info.mem_page_size <= u32::MAX
}

/// The bytes of a snapshot on the wire.
pub open spec fn wire_image(info: IPCInfoView) -> Seq<u8> {
    le_bytes(info.magic) + le_bytes(info.version) + le_bytes(info.mem_page_size as u32)
        + le_bytes(info.uid_enforced) + info.target_device + le_bytes(info.pages_mapped)
        + le_bytes(info.active_transactions) + info.lock_type + le_bytes(info.binder_handle)
        + le_bytes(info.server_port) + seq![flag_byte(info.valid), 0u8, 0u8, 0u8]
}

/// Whether `bytes` are the bytes of some snapshot on the wire: they have the
/// size of a snapshot, the flag byte is zero or one, and the three bytes
/// behind it are zero.
pub open spec fn is_wire_image(bytes: Seq<u8>) -> bool {
    &&& bytes.len() == IPC_INFO_WIRE_SIZE
    &&& bytes[112] <= 1
    &&& bytes[113] == 0
    &&& bytes[114] == 0
    &&& bytes[115] == 0
}

/// The snapshot that the wire bytes `bytes` stand for.
pub open spec fn wire_snapshot(bytes: Seq<u8>) -> IPCInfoView {
    IPCInfoView {
        magic: le_word(bytes.subrange(0, 4)) as u32,
        version: le_word(bytes.subrange(4, 8)) as u32,
        mem_page_size: le_word(bytes.subrange(8, 12)) as usize,
        uid_enforced: le_word(bytes.subrange(12, 16)) as u32,
        target_device: bytes.subrange(16, 80),
        pages_mapped: le_word(bytes.subrange(80, 84)) as u32,
        active_transactions: le_word(bytes.subrange(84, 88)) as u32,
        lock_type: bytes.subrange(88, 104),
        binder_handle: le_word(bytes.subrange(104, 108)) as u32,
        server_port: le_word(bytes.subrange(108, 112)) as u32,
        valid: bytes[112] == 1,
    }
}

/// Appends the four bytes of `word`, least significant first.
fn push_le_bytes(out: &mut Vec<u8>, word: u32)
    ensures
        final(out)@ == old(out)@ + le_bytes(word),
{
    out.push((word % 0x100) as u8);
    out.push((word / 0x100 % 0x100) as u8);
    out.push((word / 0x1_0000 % 0x100) as u8);
    out.push((word / 0x100_0000) as u8);
}

/// Appends the bytes of `bytes`.
fn push_bytes(out: &mut Vec<u8>, bytes: &[u8])
    ensures
        final(out)@ == old(out)@ + bytes@,
{
    let mut i: usize = 0;
    while i < bytes.len()
        invariant
            i <= bytes@.len(),
            out@ == old(out)@ + bytes@.take(i as int),
        decreases bytes@.len() - i,
    {
        out.push(bytes[i]);
        i = i + 1;
    }
}

/// The word whose four bytes stand at `at` in `bytes`, least significant
/// first.
fn read_le_word(bytes: &[u8], at: usize) -> (word: u32)
    requires
        at + 4 <= bytes@.len(),
    ensures
        word == le_word(bytes@.subrange(at as int, at + 4)),
{
    let b0: u32 = bytes[at] as u32;
    let b1: u32 = bytes[at + 1] as u32;
    let b2: u32 = bytes[at + 2] as u32;
    let b3: u32 = bytes[at + 3] as u32;
    b0 + 0x100 * b1 + 0x1_0000 * b2 + 0x100_0000 * b3
}

/// The `N` bytes that stand at `at` in `bytes`.
fn read_bytes<const N: usize>(bytes: &[u8], at: usize) -> (buffer: [u8; N])
    requires
        at + N <= bytes@.len(),
    ensures
        buffer@ == bytes@.subrange(at as int, at + N),
{
    let len: usize = bytes.len();
    let mut buffer: [u8; N] = [0u8; N];
    let mut i: usize = 0;
    while i < N
        invariant
            i <= N,
            at + N <= len == bytes@.len(),
            forall|j: int| 0 <= j < i ==> buffer@[j] == bytes@[at + j],
        decreases N - i,
    {
        buffer[i] = bytes[at + i];
        i = i + 1;
    }
    assert(buffer@ =~= bytes@.subrange(at as int, at + N));
    buffer
}

impl IPCInfo {
    /// The bytes of this snapshot on the wire, or `None` where its page size
    /// does not fit the word that carries it.
    pub fn pack(&self) -> (bytes: Option<Vec<u8>>)
        ensures
            bytes is Some <==> fits_wire(self@),
            bytes matches Some(image) ==> image@ == wire_image(self@),
            bytes matches Some(image) ==> image@.len() == IPC_INFO_WIRE_SIZE,
    {
        if self.mem_page_size > u32::MAX as usize {
            return None;
        }
        let mut out: Vec<u8> = Vec::new();
        push_le_bytes(&mut out, self.magic);
        push_le_bytes(&mut out, self.version);
        push_le_bytes(&mut out, self.mem_page_size as u32);
        push_le_bytes(&mut out, self.uid_enforced);
        push_bytes(&mut out, self.target_device.as_slice());
        push_le_bytes(&mut out, self.pages_mapped);
        push_le_bytes(&mut out, self.active_transactions);
        push_bytes(&mut out, self.lock_type.as_slice());
        push_le_bytes(&mut out, self.binder_handle);
        push_le_bytes(&mut out, self.server_port);
        out.push(if self.valid { 1 } else { 0 });
        out.push(0);
        out.push(0);
        out.push(0);
        Some(out)
    }

    /// The snapshot that the wire bytes `bytes` stand for, or `None` where
    /// they are not the bytes of a snapshot.
    pub fn unpack(bytes: &[u8]) -> (info: Option<IPCInfo>)
        ensures
            info is Some <==> is_wire_image(bytes@),
            info matches Some(snapshot) ==> snapshot@ == wire_snapshot(bytes@),
            info matches Some(snapshot) ==> wire_image(snapshot@) == bytes@,
    {
        if bytes.len() != IPC_INFO_WIRE_SIZE {
            return None;
        }
        if bytes[112] > 1 || bytes[113] != 0 || bytes[114] != 0 || bytes[115] != 0 {
            return None;
        }
        let snapshot = IPCInfo {
            magic: read_le_word(bytes, 0),
            version: read_le_word(bytes, 4),
            mem_page_size: read_le_word(bytes, 8) as usize,
            uid_enforced: read_le_word(bytes, 12),
            target_device: read_bytes::<64>(bytes, 16),
            pages_mapped: read_le_word(bytes, 80),
            active_transactions: read_le_word(bytes, 84),
            lock_type: read_bytes::<16>(bytes, 88),
            binder_handle: read_le_word(bytes, 104),
            server_port: read_le_word(bytes, 108),
            valid: bytes[112] == 1,
        };
        proof {
            lemma_bytes_give_their_snapshot(bytes@);
        }
        Some(snapshot)
    }
}

/// Answers a request for the snapshot. A sender outside the allow-list is
/// refused with the access-denied code before anything is queried: the
/// transaction and the service stay as they were. For an allowed sender the
/// snapshot is queried, which refreshes the cache, and its wire bytes become
/// the payload of the transaction, with their exact count as its size; the
/// result is zero.
pub fn binder_get_ipc_info_handler(
    service: &mut GetIPCInfo,
    txn: &mut BinderTransaction,
) -> (status: i32)
    ensures
        status == if is_allowed_uid(old(txn).sender_uid) {
            0
        } else {
            EACCES
        },
        !is_allowed_uid(old(txn).sender_uid) ==> ({
            &&& *final(txn) == *old(txn)
            &&& final(service).cached() == old(service).cached()
        }),
        is_allowed_uid(old(txn).sender_uid) ==> ({
            let snapshot = valid_snapshot(
                old(txn).sender_uid,
                paging_snapshot(old(service).stats().tlb_flushes_total),
            );
            &&& final(service).cached()@ == snapshot
            &&& final(txn).data@ == wire_image(snapshot)
            &&& final(txn).data_size == IPC_INFO_WIRE_SIZE
            &&& final(txn).sender_uid == old(txn).sender_uid
            &&& final(txn).return_error == old(txn).return_error
        }),
        final(service).stats() == old(service).stats(),
        final(service).boot() == old(service).boot(),
{
    if !service.validate_uid(txn.sender_uid) {
        return EACCES;
    }
    let info = service.get_ipc_info(txn.sender_uid);
    let image = info.pack().unwrap();
    txn.data_size = image.len();
    txn.data = image;
    0
}

/// Every snapshot has the same size on the wire.
pub proof fn lemma_wire_size(info: IPCInfoView)
    requires
        info.target_device.len() == 64,
        info.lock_type.len() == 16,
    ensures
        wire_image(info).len() == IPC_INFO_WIRE_SIZE,
{
}

/// The four bytes of a word give the word back.
pub proof fn lemma_le_word_of_le_bytes(word: u32)
    ensures
        le_bytes(word).len() == 4,
        le_word(le_bytes(word)) == word,
{
}

/// The word of four bytes gives the four bytes back.
pub proof fn lemma_le_bytes_of_le_word(bytes: Seq<u8>)
    requires
        bytes.len() == 4,
    ensures
        0 <= le_word(bytes) <= u32::MAX,
        le_bytes(le_word(bytes) as u32) == bytes,
{
    assert(le_bytes(le_word(bytes) as u32) =~= bytes);
}

/// Reading gives back what was written: the wire bytes of a snapshot that
/// fits the wire are the bytes of a snapshot, and they stand for it.
pub proof fn lemma_snapshot_survives_the_wire(info: IPCInfoView)
    requires
        info.target_device.len() == 64,
        info.lock_type.len() == 16,
        fits_wire(info),
    ensures
        is_wire_image(wire_image(info)),
        wire_snapshot(wire_image(info)) == info,
{
    lemma_wire_layout(info);
    lemma_le_word_of_le_bytes(info.magic);
    lemma_le_word_of_le_bytes(info.version);
    lemma_le_word_of_le_bytes(info.mem_page_size as u32);
    lemma_le_word_of_le_bytes(info.uid_enforced);
    lemma_le_word_of_le_bytes(info.pages_mapped);
    lemma_le_word_of_le_bytes(info.active_transactions);
    lemma_le_word_of_le_bytes(info.binder_handle);
    lemma_le_word_of_le_bytes(info.server_port);
}

/// Writing gives back what was read: bytes that are the bytes of a snapshot
/// are the wire bytes of the snapshot they stand for, and that snapshot fits
/// the wire.
pub proof fn lemma_bytes_give_their_snapshot(bytes: Seq<u8>)
    requires
        is_wire_image(bytes),
    ensures
        fits_wire(wire_snapshot(bytes)),
        wire_image(wire_snapshot(bytes)) == bytes,
{
    lemma_le_bytes_of_le_word(bytes.subrange(0, 4));
    lemma_le_bytes_of_le_word(bytes.subrange(4, 8));
    lemma_le_bytes_of_le_word(bytes.subrange(8, 12));
    lemma_le_bytes_of_le_word(bytes.subrange(12, 16));
    lemma_le_bytes_of_le_word(bytes.subrange(80, 84));
    lemma_le_bytes_of_le_word(bytes.subrange(84, 88));
    lemma_le_bytes_of_le_word(bytes.subrange(104, 108));
    lemma_le_bytes_of_le_word(bytes.subrange(108, 112));
    assert(wire_image(wire_snapshot(bytes)) =~= bytes);
}

/// Each field of a snapshot stands at its fixed place on the wire.
pub proof fn lemma_wire_layout(info: IPCInfoView)
    requires
        info.target_device.len() == 64,
        info.lock_type.len() == 16,
    ensures
        ({
            let image = wire_image(info);
            &&& image.subrange(0, 4) == le_bytes(info.magic)
            &&& image.subrange(4, 8) == le_bytes(info.version)
            &&& image.subrange(8, 12) == le_bytes(info.mem_page_size as u32)
            &&& image.subrange(12, 16) == le_bytes(info.uid_enforced)
            &&& image.subrange(16, 80) == info.target_device
            &&& image.subrange(80, 84) == le_bytes(info.pages_mapped)
            &&& image.subrange(84, 88) == le_bytes(info.active_transactions)
            &&& image.subrange(88, 104) == info.lock_type
            &&& image.subrange(104, 108) == le_bytes(info.binder_handle)
            &&& image.subrange(108, 112) == le_bytes(info.server_port)
            &&& image.subrange(112, 116) == seq![flag_byte(info.valid), 0u8, 0u8, 0u8]
        }),
{
}

/// Nothing is lost on the wire: two snapshots that fit it and have the same
/// bytes there are the same snapshot.
pub proof fn lemma_wire_image_is_injective(a: IPCInfoView, b: IPCInfoView)
    requires
        a.target_device.len() == 64,
        a.lock_type.len() == 16,
        b.target_device.len() == 64,
        b.lock_type.len() == 16,
        fits_wire(a),
        fits_wire(b),
        wire_image(a) == wire_image(b),
    ensures
        a == b,
{
    lemma_snapshot_survives_the_wire(a);
    lemma_snapshot_survives_the_wire(b);
}

} // verus!
