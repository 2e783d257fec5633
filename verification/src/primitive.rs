//! The mapping primitives: memory mappings as `memmap2` hands them out, and the
//! reader-writer lock of `parking_lot` that serialises access to a writable one.
//!
//! Nothing in this module is proved. Every item below states what the outside code
//! does, and the rest of the crate is verified against those statements.
//!
//! A mapping is treated as a borrowed byte buffer of fixed length. That is what Rust
//! itself assumes of the `&[u8]` that a mapping dereferences to, and it is what
//! `memmap2` asks of whoever creates a file-backed mapping: nobody else, in or out of
//! the process, changes the bytes while the mapping is in use.
use memmap2::{Mmap, MmapMut};
use parking_lot::{ArcRwLockReadGuard, ArcRwLockWriteGuard, RawRwLock, RwLock};
use std::ops::{Deref, DerefMut};
use std::sync::Arc;
use vstd::prelude::*;

verus! {

/// `memmap2::Mmap`, a read-only mapping. Opaque to the verifier.
#[verifier::external_type_specification]
#[verifier::external_body]
pub struct ExMmap(Mmap);

/// `memmap2::MmapMut`, a writable mapping. Opaque to the verifier.
#[verifier::external_type_specification]
#[verifier::external_body]
pub struct ExMmapMut(MmapMut);

/// `parking_lot::RawRwLock`, the lock's state word. Opaque to the verifier.
#[verifier::external_type_specification]
#[verifier::external_body]
pub struct ExRawRwLock(RawRwLock);

/// `lock_api::RwLock`, which `parking_lot::RwLock` is an alias of. Opaque to the
/// verifier: the value of a lock says nothing about the bytes behind it.
#[verifier::external_type_specification]
#[verifier::external_body]
#[verifier::reject_recursive_types(R)]
#[verifier::reject_recursive_types(T)]
pub struct ExRwLock<R, T: ?Sized>(parking_lot::lock_api::RwLock<R, T>);

/// `std::io::Error`, the operating system's report of a failure. Opaque to the verifier.
#[verifier::external_type_specification]
#[verifier::external_body]
pub struct ExIoError(std::io::Error);

/// Shared access to the bytes behind a lock: a `parking_lot::ArcRwLockReadGuard`.
/// While the value lives no writer is admitted; dropping it gives the access back.
///
/// The guard's own declaration is bound by a trait of `lock_api`, which the verifier
/// does not take, so the guard sits in a field that the verifier does not look into.
#[verifier::external_body]
#[derive(Debug)]
pub struct SharedHold {
    guard: ArcRwLockReadGuard<RawRwLock, MmapMut>,
}

/// Exclusive access to the bytes behind a lock: a `parking_lot::ArcRwLockWriteGuard`.
/// While the value lives nobody else is admitted; dropping it gives the access back.
///
/// Kept in a field that the verifier does not look into, as `SharedHold` is.
#[verifier::external_body]
#[derive(Debug)]
pub struct ExclusiveHold {
    guard: ArcRwLockWriteGuard<RawRwLock, MmapMut>,
}

/// The bytes that a read-only mapping shows.
pub uninterp spec fn mmap_bytes(mmap: Mmap) -> Seq<u8>;

/// The bytes that a writable mapping shows.
pub uninterp spec fn mmap_mut_bytes(mmap: MmapMut) -> Seq<u8>;

/// The length of the mapping that a lock was made around.
pub uninterp spec fn locked_len(lock: RwLock<MmapMut>) -> nat;

/// The bytes that a holder of shared access sees.
pub uninterp spec fn shared_bytes(hold: SharedHold) -> Seq<u8>;

/// The bytes that the holder of exclusive access sees.
pub uninterp spec fn exclusive_bytes(hold: ExclusiveHold) -> Seq<u8>;

/// `memmap2::MmapMut::map_anon`: asks the operating system for an anonymous mapping.
/// Whether it succeeds is the system's to decide; a mapping that comes back is as long
/// as was asked, and a length above `isize::MAX` is always refused.
#[verifier::external_body]
pub(crate) fn map_anon(length: usize) -> (res: Result<MmapMut, std::io::Error>)
    ensures
        res matches Ok(mmap) ==> mmap_mut_bytes(mmap).len() == length,
        length > isize::MAX ==> res is Err,
{
    MmapMut::map_anon(length)
}

/// `Deref` of `memmap2::Mmap`: the mapping as a byte slice.
#[verifier::external_body]
pub(crate) fn mmap_as_slice(mmap: &Mmap) -> (bytes: &[u8])
    ensures
        bytes@ == mmap_bytes(*mmap),
{
    mmap.deref()
}

/// `Deref` of `memmap2::MmapMut`: the mapping as a byte slice.
#[verifier::external_body]
pub(crate) fn mmap_mut_as_slice(mmap: &MmapMut) -> (bytes: &[u8])
    ensures
        bytes@ == mmap_mut_bytes(*mmap),
{
    mmap.deref()
}

/// `<[u8]>::as_ptr`, as a number: where the first byte of a slice lies in memory.
/// Nothing is claimed of an address.
#[verifier::external_body]
pub(crate) fn slice_address(bytes: &[u8]) -> (address: usize) {
    bytes.as_ptr() as usize
}

/// `lock_api::RwLock::new`: an unlocked lock around a mapping. The lock never hands out
/// the mapping itself, only its bytes, so the length stays what it is here.
#[verifier::external_body]
pub(crate) fn new_lock(mmap: MmapMut) -> (lock: RwLock<MmapMut>)
    ensures
        locked_len(lock) == mmap_mut_bytes(mmap).len(),
{
    RwLock::new(mmap)
}

/// `lock_api::RwLock::read_arc`: waits until no writer holds the lock, then takes
/// shared access. A thread that already holds the lock can wait for itself here, for
/// ever: the lock is not reentrant.
#[verifier::external_body]
pub(crate) fn lock_shared(lock: &Arc<RwLock<MmapMut>>) -> (hold: SharedHold)
    ensures
        shared_bytes(hold).len() == locked_len(**lock),
{
    SharedHold { guard: lock.read_arc() }
}

/// `lock_api::RwLock::write_arc`: waits until nobody holds the lock, then takes
/// exclusive access. A thread that already holds the lock waits for itself here, for
/// ever: the lock is not reentrant.
#[verifier::external_body]
pub(crate) fn lock_exclusive(lock: &Arc<RwLock<MmapMut>>) -> (hold: ExclusiveHold)
    ensures
        exclusive_bytes(hold).len() == locked_len(**lock),
{
    ExclusiveHold { guard: lock.write_arc() }
}

/// `Deref` of `lock_api::ArcRwLockReadGuard`, then of `memmap2::MmapMut`: the bytes
/// under shared access.
#[verifier::external_body]
pub(crate) fn shared_as_slice(hold: &SharedHold) -> (bytes: &[u8])
    ensures
        bytes@ == shared_bytes(*hold),
{
    hold.guard.deref().deref()
}

/// `Deref` of `lock_api::ArcRwLockWriteGuard`, then of `memmap2::MmapMut`: the bytes
/// under exclusive access, to read.
#[verifier::external_body]
pub(crate) fn exclusive_as_slice(hold: &ExclusiveHold) -> (bytes: &[u8])
    ensures
        bytes@ == exclusive_bytes(*hold),
{
    hold.guard.deref().deref()
}

/// `DerefMut` of `lock_api::ArcRwLockWriteGuard`, then of `memmap2::MmapMut`: the
/// bytes under exclusive access, to write. What is written through the slice is what
/// the holder sees afterwards; a slice cannot change its length.
#[verifier::external_body]
pub(crate) fn exclusive_as_mut_slice(hold: &mut ExclusiveHold) -> (bytes: &mut [u8])
    ensures
        bytes@ == exclusive_bytes(*old(hold)),
        final(bytes)@.len() == bytes@.len(),
        exclusive_bytes(*final(hold)) == final(bytes)@,
    no_unwind
{
    hold.guard.deref_mut().deref_mut()
}

/// `Arc::clone`: one more owner of the same allocation.
#[verifier::external_body]
pub(crate) fn share<T>(owner: &Arc<T>) -> (other: Arc<T>)
    ensures
        other == *owner,
{
    Arc::clone(owner)
}

/// `Display` of `std::io::Error`: the system's own wording of a failure. It differs
/// between platforms and locales, so nothing is claimed of it.
#[verifier::external_body]
pub(crate) fn io_error_text(error: &std::io::Error) -> (text: String) {
    format!("{}", error)
}

} // verus!
