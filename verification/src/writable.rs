//! A writable mapping behind a single-writer, multi-reader lock, shared by all its
//! clones.
use crate::error::MapError;
use crate::guards::read::{ReadGuard, SharedLock};
use crate::guards::write::{ExclusiveLock, WriteGuard};
use crate::primitive::{
    exclusive_bytes, lock_exclusive, lock_shared, locked_len, map_anon, mmap_mut_as_slice,
    mmap_mut_bytes, new_lock, share, shared_bytes, slice_address, ExclusiveHold, SharedHold,
};
use memmap2::MmapMut;
use parking_lot::RwLock;
use std::sync::Arc;
use vstd::prelude::*;

verus! {

/// What every clone of a writable mapping shares: the handle that keeps the file and
/// its advisory lock (none for an anonymous mapping), the locked bytes, and the
/// address and length recorded when the mapping was wrapped.
#[derive(Debug)]
pub struct WritableMemoryMapInner<H> {
    file: Option<H>,
    mmap: Arc<RwLock<MmapMut>>,
    base: usize,
    len: usize,
}

/// A writable mapping. Cloning it adds an owner of the same locked bytes. The mapping
/// and the handle go when the last owner goes, guards included.
#[derive(Debug)]
pub struct WritableMemoryMap<H> {
    inner: Arc<WritableMemoryMapInner<H>>,
}

impl<H> Clone for WritableMemoryMap<H> {
    fn clone(&self) -> (other: Self)
        ensures
            other == *self,
    {
        proof {
            use_type_invariant(self);
        }
        WritableMemoryMap { inner: share(&self.inner) }
    }
}

impl<H> WritableMemoryMap<H> {
    /// The recorded length is the length of the locked mapping.
    #[verifier::type_invariant]
    pub closed spec fn wf(self) -> bool {
        self.inner.len == locked_len(*self.inner.mmap)
    }

    /// The handle that the mapping was made with, if it is backed by a file.
    pub closed spec fn spec_file(&self) -> Option<H> {
        self.inner.file
    }

    /// The address recorded when the mapping was wrapped.
    pub closed spec fn spec_base(&self) -> usize {
        self.inner.base
    }

    /// The number of mapped bytes, fixed when the mapping was wrapped.
    pub closed spec fn spec_len(&self) -> nat {
        self.inner.len as nat
    }

    /// Wraps a mapping, together with the handle of the file behind it if there is
    /// one, and puts the bytes behind a lock that nobody holds yet.
    pub fn from_parts(file: Option<H>, mmap: MmapMut) -> (map: Self)
        ensures
            map.spec_len() == mmap_mut_bytes(mmap).len(),
            map.spec_file() == file,
    {
        let bytes = mmap_mut_as_slice(&mmap);
        let len = bytes.len();
        let base = slice_address(bytes);
        let lock = Arc::new(new_lock(mmap));
        WritableMemoryMap { inner: Arc::new(WritableMemoryMapInner { file, mmap: lock, base, len }) }
    }

    /// Completes a mapping: `file` is the handle that holds the exclusive advisory lock
    /// (none for an anonymous mapping), `mapped` is what the mapping call returned. A
    /// mapping is wrapped, a failure is passed on as it came.
    pub fn from_mapped(file: Option<H>, mapped: Result<MmapMut, std::io::Error>) -> (res: Result<
        Self,
        MapError,
    >)
        ensures
            mapped matches Ok(mmap) ==> res matches Ok(map) && map.spec_len() == mmap_mut_bytes(
                mmap,
            ).len() && map.spec_file() == file,
            mapped matches Err(error) ==> res matches Err(MapError::IoError(e)) && e == error,
    {
        match mapped {
            Ok(mmap) => Ok(Self::from_parts(file, mmap)),
            Err(error) => Err(MapError::IoError(error)),
        }
    }

    /// Maps `length` bytes that no file backs. The operating system may refuse; it
    /// always refuses a length above `isize::MAX`.
    pub fn map_anonymous(length: usize) -> (res: Result<Self, MapError>)
        ensures
            res matches Ok(map) ==> map.spec_len() == length && map.spec_file() is None,
            length > isize::MAX ==> res is Err,
    {
        Self::from_mapped(None, map_anon(length))
    }

    /// Shared access alone, which owns the locked bytes but not the mapping.
    pub(crate) fn hold_shared(&self) -> (hold: SharedHold)
        ensures
            shared_bytes(hold).len() == self.spec_len(),
    {
        proof {
            use_type_invariant(self);
        }
        lock_shared(&self.inner.mmap)
    }

    /// Exclusive access alone, which owns the locked bytes but not the mapping.
    pub(crate) fn hold_exclusive(&self) -> (hold: ExclusiveHold)
        ensures
            exclusive_bytes(hold).len() == self.spec_len(),
    {
        proof {
            use_type_invariant(self);
        }
        lock_exclusive(&self.inner.mmap)
    }

    /// Takes shared access, waiting while a writer holds the bytes. Any number of
    /// readers may hold it at once. The guard is one more owner of the mapping.
    #[must_use]
    pub fn read(&self) -> (guard: ReadGuard<H>)
        ensures
            guard matches ReadGuard::Writable(lock) && lock.spec_map() == *self,
            guard@.len() == self.spec_len(),
    {
        self.clone().into_read()
    }

    /// Takes shared access as `read` does, and hands this owner of the mapping over
    /// to the guard.
    #[must_use]
    pub fn into_read(self) -> (guard: ReadGuard<H>)
        ensures
            guard matches ReadGuard::Writable(lock) && lock.spec_map() == self,
            guard@.len() == self.spec_len(),
    {
        let hold = self.hold_shared();
        ReadGuard::Writable(SharedLock::new(hold, self))
    }

    /// Takes exclusive access, waiting while anybody else holds the bytes. The guard
    /// is one more owner of the mapping.
    #[must_use]
    pub fn write(&self) -> (guard: WriteGuard<H>)
        ensures
            guard matches WriteGuard::Writable(lock) && lock.spec_map() == *self,
            guard@.len() == self.spec_len(),
    {
        self.clone().into_write()
    }

    /// Takes exclusive access as `write` does, and hands this owner of the mapping
    /// over to the guard.
    #[must_use]
    pub fn into_write(self) -> (guard: WriteGuard<H>)
        ensures
            guard matches WriteGuard::Writable(lock) && lock.spec_map() == self,
            guard@.len() == self.spec_len(),
    {
        let hold = self.hold_exclusive();
        WriteGuard::Writable(ExclusiveLock::new(hold, self))
    }

    /// The handle of the file behind the mapping, if there is one.
    pub fn file(&self) -> (file: Option<&H>)
        ensures
            file matches Some(handle) ==> self.spec_file() == Some(*handle),
            file is None ==> self.spec_file() is None,
    {
        self.inner.file.as_ref()
    }

    /// Where the mapping starts in memory, as recorded when it was wrapped. Writing
    /// there goes past the lock: whoever does so keeps readers and writers apart.
    pub fn as_mut_ptr(&self) -> (address: usize)
        ensures
            address == self.spec_base(),
    {
        self.inner.base
    }

    /// Where the mapping starts in memory, as recorded when it was wrapped.
    pub fn as_ptr(&self) -> (address: usize)
        ensures
            address == self.spec_base(),
    {
        self.as_mut_ptr()
    }

    /// The number of mapped bytes. No lock is taken: the length never changes.
    pub fn len(&self) -> (len: usize)
        ensures
            len == self.spec_len(),
    {
        self.inner.len
    }

    /// Whether the mapping holds no byte at all.
    pub fn is_empty(&self) -> (empty: bool)
        ensures
            empty == (self.spec_len() == 0),
    {
        self.len() == 0
    }
}

} // verus!
