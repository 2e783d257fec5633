//! Memory-mapped files behind two access modes, read-only and read-write, with the
//! bookkeeping that keeps a mapping alive for as long as anything refers to it.
//!
//! A mapping of either kind is shared by its clones and by the guards taken on it, and
//! goes when the last of them goes. The type parameter `H` is the handle that keeps
//! the file behind a mapping open and advisory-locked: the crate never looks into it,
//! it only sees to it that the handle lives exactly as long as the mapping.
mod error;
mod guards;
mod laws;
mod primitive;
mod readable;
mod rw;
mod writable;

pub use error::{MapError, PsMmapError};
pub use guards::read::{ReadGuard, SharedLock};
pub use guards::write::{ExclusiveLock, WriteGuard};
pub use laws::lemma_guards_agree_on_len;
pub use primitive::{mmap_bytes, mmap_mut_bytes, ExclusiveHold, SharedHold};
pub use readable::{ReadableMemoryMap, ReadableMemoryMapInner};
pub use rw::MutableMemoryMapping;
pub use writable::{WritableMemoryMap, WritableMemoryMapInner};

use primitive::{exclusive_as_mut_slice, shared_as_slice};
use vstd::prelude::*;

verus! {

/// A mapping of either kind. Which kind it is never changes.
#[derive(Debug)]
pub enum MemoryMap<H> {
    /// Mapped read-only, under a shared advisory lock.
    Readable(ReadableMemoryMap<H>),
    /// Mapped read-write, under an exclusive advisory lock or backed by no file.
    Writable(WritableMemoryMap<H>),
}

impl<H> Clone for MemoryMap<H> {
    fn clone(&self) -> (other: Self)
        ensures
            other == *self,
    {
        match self {
            MemoryMap::Readable(value) => MemoryMap::Readable(value.clone()),
            MemoryMap::Writable(value) => MemoryMap::Writable(value.clone()),
        }
    }
}

impl<H> MemoryMap<H> {
    /// The number of mapped bytes.
    pub open spec fn spec_len(&self) -> nat {
        match self {
            MemoryMap::Readable(value) => value.spec_len(),
            MemoryMap::Writable(value) => value.spec_len(),
        }
    }

    /// Where the mapping starts in memory.
    pub open spec fn spec_base(&self) -> usize {
        match self {
            MemoryMap::Readable(value) => value.spec_base(),
            MemoryMap::Writable(value) => value.spec_base(),
        }
    }

    /// What a reader of the mapping may be shown: the bytes of a read-only mapping as
    /// they are; of a writable mapping, whatever its writers have left there, which is
    /// as many bytes as the mapping holds.
    pub open spec fn may_show(&self, bytes: Seq<u8>) -> bool {
        match self {
            MemoryMap::Readable(value) => bytes == value@,
            MemoryMap::Writable(value) => bytes.len() == value.spec_len(),
        }
    }

    /// Maps `length` bytes that no file backs. Such a mapping is always writable and
    /// has no file handle. The operating system may refuse; it always refuses a length
    /// above `isize::MAX`.
    pub fn map_anonymous(length: usize) -> (res: Result<Self, MapError>)
        ensures
            res matches Ok(map) ==> map matches MemoryMap::Writable(inner) && inner.spec_len()
                == length && inner.spec_file() is None,
            length > isize::MAX ==> res is Err,
    {
        match WritableMemoryMap::map_anonymous(length) {
            Ok(value) => Ok(MemoryMap::Writable(value)),
            Err(error) => Err(error),
        }
    }

    /// Read access: at once for a read-only mapping, after waiting for a writer to
    /// finish for a writable one.
    #[must_use]
    pub fn read(&self) -> (guard: ReadGuard<H>)
        ensures
            guard.spec_map() == *self,
            guard@.len() == self.spec_len(),
    {
        self.clone().into_read()
    }

    /// Read access as `read` gives it, with this owner of the mapping handed over to
    /// the guard.
    #[must_use]
    pub fn into_read(self) -> (guard: ReadGuard<H>)
        ensures
            guard.spec_map() == self,
            guard@.len() == self.spec_len(),
    {
        match self {
            MemoryMap::Readable(value) => ReadGuard::Readable(value),
            MemoryMap::Writable(value) => value.into_read(),
        }
    }

    /// Write access, after waiting for everybody else to finish. A read-only mapping
    /// has none: it answers `ReadOnly` without touching any lock.
    pub fn try_write(&self) -> (res: Result<WriteGuard<H>, PsMmapError>)
        ensures
            *self is Readable ==> res matches Err(PsMmapError::ReadOnly),
            *self matches MemoryMap::Writable(map) ==> res matches Ok(guard) && guard.spec_map()
                == map && guard@.len() == map.spec_len(),
    {
        match self {
            MemoryMap::Readable(_) => Err(PsMmapError::ReadOnly),
            MemoryMap::Writable(value) => Ok(value.write()),
        }
    }

    /// Write access as `try_write` gives it, with this owner of the mapping handed
    /// over to the guard.
    pub fn try_into_write(self) -> (res: Result<WriteGuard<H>, PsMmapError>)
        ensures
            self is Readable ==> res matches Err(PsMmapError::ReadOnly),
            self matches MemoryMap::Writable(map) ==> res matches Ok(guard) && guard.spec_map()
                == map && guard@.len() == map.spec_len(),
    {
        match self {
            MemoryMap::Readable(_) => Err(PsMmapError::ReadOnly),
            MemoryMap::Writable(value) => Ok(value.into_write()),
        }
    }

    /// A writable mapping as a handle that needs no further check before each write,
    /// or `ReadOnly`.
    pub fn rw(self) -> (res: Result<MutableMemoryMapping<H>, PsMmapError>)
        ensures
            self is Readable ==> res matches Err(PsMmapError::ReadOnly),
            self matches MemoryMap::Writable(map) ==> res matches Ok(handle)
                && handle.spec_mapping() == map,
    {
        match self {
            MemoryMap::Readable(_) => Err(PsMmapError::ReadOnly),
            MemoryMap::Writable(value) => Ok(MutableMemoryMapping::from(value)),
        }
    }

    /// Calls `closure` on the bytes under read access and gives the access back when
    /// the closure is done, whichever way it ends.
    pub fn read_with<F, R>(&self, closure: F) -> (res: R) where F: FnOnce(&[u8]) -> R
        requires
            forall|bytes: &[u8]| self.may_show(bytes@) ==> #[trigger] closure.requires((bytes,)),
        ensures
            exists|bytes: &[u8]| self.may_show(bytes@) && #[trigger] closure.ensures((bytes,), res),
    {
        match self {
            MemoryMap::Readable(value) => closure(value.as_bytes()),
            MemoryMap::Writable(value) => {
                let hold = value.hold_shared();
                closure(shared_as_slice(&hold))
            },
        }
    }

    /// Calls `closure` on the bytes under write access and gives the access back when
    /// the closure is done, whichever way it ends. On a read-only mapping the closure
    /// is not called and no lock is touched.
    pub fn try_write_with<F, R>(&self, closure: F) -> (res: Result<R, PsMmapError>) where
        F: FnOnce(&mut [u8]) -> R,

        requires
            *self is Writable ==> forall|bytes: &mut [u8]|
                bytes@.len() == self.spec_len() ==> #[trigger] closure.requires((bytes,)),
        ensures
            *self is Readable ==> res matches Err(PsMmapError::ReadOnly),
            *self is Writable ==> res is Ok,
            res matches Ok(value) ==> exists|bytes: &mut [u8]|
                bytes@.len() == self.spec_len() && final(bytes)@.len() == self.spec_len()
                    && #[trigger] closure.ensures((bytes,), value),
    {
        match self {
            MemoryMap::Readable(_) => Err(PsMmapError::ReadOnly),
            MemoryMap::Writable(value) => {
                let mut hold = value.hold_exclusive();
                let outcome = closure(exclusive_as_mut_slice(&mut hold));
                let res = Ok(outcome);
                proof {
                    let shown = choose|bytes: &mut [u8]|
                        bytes@.len() == self.spec_len() && final(bytes)@.len() == self.spec_len()
                            && #[trigger] closure.ensures((bytes,), outcome);
                    assert(closure.ensures((shown,), res->Ok_0));
                }
                res
            },
        }
    }

    /// Where the mapping starts in memory. The address stays valid for as long as any
    /// owner of the mapping lives.
    #[must_use]
    pub fn as_ptr(&self) -> (address: usize)
        ensures
            address == self.spec_base(),
    {
        match self {
            MemoryMap::Readable(value) => value.as_ptr(),
            MemoryMap::Writable(value) => value.as_ptr(),
        }
    }

    /// Where the mapping starts in memory, for writing past the lock, or `ReadOnly`.
    /// Whoever writes there keeps readers and writers apart.
    pub fn try_as_mut_ptr(&self) -> (res: Result<usize, PsMmapError>)
        ensures
            *self is Readable ==> res matches Err(PsMmapError::ReadOnly),
            *self is Writable ==> (res matches Ok(address) && address == self.spec_base()),
    {
        match self {
            MemoryMap::Readable(_) => Err(PsMmapError::ReadOnly),
            MemoryMap::Writable(value) => Ok(value.as_mut_ptr()),
        }
    }

    /// The number of mapped bytes. It is fixed when the mapping is made.
    #[must_use]
    pub fn len(&self) -> (len: usize)
        ensures
            len == self.spec_len(),
    {
        match self {
            MemoryMap::Readable(value) => value.len(),
            MemoryMap::Writable(value) => value.len(),
        }
    }

    /// Whether the mapping holds no byte at all.
    #[must_use]
    pub fn is_empty(&self) -> (empty: bool)
        ensures
            empty == (self.spec_len() == 0),
    {
        self.len() == 0
    }
}

} // verus!
