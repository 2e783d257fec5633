//! Shared read access to a mapping of either kind.
use crate::primitive::{shared_as_slice, shared_bytes, SharedHold};
use crate::readable::ReadableMemoryMap;
use crate::writable::WritableMemoryMap;
use crate::MemoryMap;
use std::ops::Deref;
use vstd::prelude::*;
use vstd::std_specs::convert::FromSpecImpl;

verus! {

/// Shared access to the bytes of a writable mapping, and an owner of that mapping:
/// the mapping cannot go while the access is held.
#[derive(Debug)]
pub struct SharedLock<H> {
    hold: SharedHold,
    map: WritableMemoryMap<H>,
}

impl<H> View for SharedLock<H> {
    type V = Seq<u8>;

    /// The bytes as they are while the access is held.
    closed spec fn view(&self) -> Seq<u8> {
        shared_bytes(self.hold)
    }
}

impl<H> SharedLock<H> {
    /// The access shows exactly as many bytes as the mapping holds.
    #[verifier::type_invariant]
    pub closed spec fn wf(self) -> bool {
        shared_bytes(self.hold).len() == self.map.spec_len()
    }

    /// The mapping that the access was taken on.
    pub closed spec fn spec_map(&self) -> WritableMemoryMap<H> {
        self.map
    }

    /// A well-formed access shows exactly as many bytes as its mapping holds.
    pub proof fn lemma_len(self)
        requires
            self.wf(),
        ensures
            self@.len() == self.spec_map().spec_len(),
    {
    }

    pub(crate) fn new(hold: SharedHold, map: WritableMemoryMap<H>) -> (lock: Self)
        requires
            shared_bytes(hold).len() == map.spec_len(),
        ensures
            lock@ == shared_bytes(hold),
            lock.spec_map() == map,
    {
        SharedLock { hold, map }
    }

    /// The bytes under the lock.
    pub fn as_bytes(&self) -> (bytes: &[u8])
        ensures
            bytes@ == self@,
            bytes@.len() == self.spec_map().spec_len(),
    {
        proof {
            use_type_invariant(self);
        }
        shared_as_slice(&self.hold)
    }

    /// The mapping that the access was taken on.
    pub fn map(&self) -> (map: &WritableMemoryMap<H>)
        ensures
            *map == self.spec_map(),
            map.spec_len() == self@.len(),
    {
        proof {
            use_type_invariant(self);
        }
        &self.map
    }

    /// Gives the access back and keeps the mapping.
    pub fn into_map(self) -> (map: WritableMemoryMap<H>)
        ensures
            map == self.spec_map(),
            map.spec_len() == self@.len(),
    {
        proof {
            use_type_invariant(&self);
        }
        self.map
    }
}

/// Read access to a mapping, the same to use whichever kind the mapping is.
#[derive(Debug)]
pub enum ReadGuard<H> {
    /// A read-only mapping needs no lock: the guard is one more owner of it.
    Readable(ReadableMemoryMap<H>),
    /// A writable mapping is read under its lock, held shared.
    Writable(SharedLock<H>),
}

impl<H> View for ReadGuard<H> {
    type V = Seq<u8>;

    /// The bytes that the guard gives access to.
    open spec fn view(&self) -> Seq<u8> {
        match self {
            ReadGuard::Readable(map) => map@,
            ReadGuard::Writable(lock) => lock@,
        }
    }
}

impl<H> ReadGuard<H> {
    /// Every guard that the crate hands out is well formed: it shows as many bytes as
    /// the mapping it was taken on holds.
    pub open spec fn wf(self) -> bool {
        match self {
            ReadGuard::Readable(_) => true,
            ReadGuard::Writable(lock) => lock.wf(),
        }
    }

    /// The mapping that the guard was taken on.
    pub open spec fn spec_map(&self) -> MemoryMap<H> {
        match self {
            ReadGuard::Readable(map) => MemoryMap::Readable(*map),
            ReadGuard::Writable(lock) => MemoryMap::Writable(lock.spec_map()),
        }
    }

    /// A well-formed guard shows exactly as many bytes as its mapping holds.
    pub proof fn lemma_len(self)
        requires
            self.wf(),
        ensures
            self@.len() == self.spec_map().spec_len(),
    {
        match self {
            ReadGuard::Readable(_) => {},
            ReadGuard::Writable(lock) => lock.lemma_len(),
        }
    }

    /// The bytes. They stay as they are for as long as the guard lives.
    pub fn as_bytes(&self) -> (bytes: &[u8])
        ensures
            bytes@ == self@,
            bytes@.len() == self.spec_map().spec_len(),
    {
        match self {
            ReadGuard::Readable(map) => map.as_bytes(),
            ReadGuard::Writable(lock) => lock.as_bytes(),
        }
    }

    /// One more owner of the mapping that the guard was taken on.
    pub fn map(&self) -> (map: MemoryMap<H>)
        ensures
            map == self.spec_map(),
            map.spec_len() == self@.len(),
    {
        match self {
            ReadGuard::Readable(value) => MemoryMap::Readable(value.clone()),
            ReadGuard::Writable(lock) => MemoryMap::Writable(lock.map().clone()),
        }
    }

    /// Gives the access back and keeps the mapping.
    pub fn into_map(self) -> (map: MemoryMap<H>)
        ensures
            map == self.spec_map(),
            map.spec_len() == self@.len(),
    {
        match self {
            ReadGuard::Readable(value) => MemoryMap::Readable(value),
            ReadGuard::Writable(lock) => MemoryMap::Writable(lock.into_map()),
        }
    }
}

impl<H> Deref for ReadGuard<H> {
    type Target = [u8];

    fn deref(&self) -> (bytes: &[u8])
        ensures
            bytes@ == self@,
    {
        self.as_bytes()
    }
}

impl<H> From<ReadableMemoryMap<H>> for ReadGuard<H> {
    fn from(value: ReadableMemoryMap<H>) -> (guard: Self) {
        ReadGuard::Readable(value)
    }
}

impl<H> FromSpecImpl<ReadableMemoryMap<H>> for ReadGuard<H> {
    open spec fn obeys_from_spec() -> bool {
        true
    }

    open spec fn from_spec(value: ReadableMemoryMap<H>) -> Self {
        ReadGuard::Readable(value)
    }
}

impl<H> From<WritableMemoryMap<H>> for ReadGuard<H> {
    fn from(value: WritableMemoryMap<H>) -> (guard: Self)
        ensures
            guard.spec_map() == MemoryMap::Writable(value),
            guard@.len() == value.spec_len(),
    {
        value.into_read()
    }
}

impl<H> FromSpecImpl<WritableMemoryMap<H>> for ReadGuard<H> {
    /// Which access comes back is the lock's to say, not a function of the mapping.
    open spec fn obeys_from_spec() -> bool {
        false
    }

    open spec fn from_spec(value: WritableMemoryMap<H>) -> Self {
        arbitrary()
    }
}

impl<H> From<MemoryMap<H>> for ReadGuard<H> {
    fn from(value: MemoryMap<H>) -> (guard: Self)
        ensures
            guard.spec_map() == value,
            guard@.len() == value.spec_len(),
    {
        value.into_read()
    }
}

impl<H> FromSpecImpl<MemoryMap<H>> for ReadGuard<H> {
    /// Which access comes back is the lock's to say, not a function of the mapping.
    open spec fn obeys_from_spec() -> bool {
        false
    }

    open spec fn from_spec(value: MemoryMap<H>) -> Self {
        arbitrary()
    }
}

impl<'a, H> From<&'a MemoryMap<H>> for ReadGuard<H> {
    fn from(value: &'a MemoryMap<H>) -> (guard: Self)
        ensures
            guard.spec_map() == *value,
            guard@.len() == value.spec_len(),
    {
        value.read()
    }
}

impl<'a, H> FromSpecImpl<&'a MemoryMap<H>> for ReadGuard<H> {
    /// Which access comes back is the lock's to say, not a function of the mapping.
    open spec fn obeys_from_spec() -> bool {
        false
    }

    open spec fn from_spec(value: &'a MemoryMap<H>) -> Self {
        arbitrary()
    }
}

impl<H> From<ReadGuard<H>> for MemoryMap<H> {
    fn from(value: ReadGuard<H>) -> (map: Self)
        ensures
            map.spec_len() == value@.len(),
    {
        value.into_map()
    }
}

impl<H> FromSpecImpl<ReadGuard<H>> for MemoryMap<H> {
    open spec fn obeys_from_spec() -> bool {
        true
    }

    open spec fn from_spec(value: ReadGuard<H>) -> Self {
        value.spec_map()
    }
}

impl<'a, H> From<&'a ReadGuard<H>> for MemoryMap<H> {
    fn from(value: &'a ReadGuard<H>) -> (map: Self)
        ensures
            map.spec_len() == value@.len(),
    {
        value.map()
    }
}

impl<'a, H> FromSpecImpl<&'a ReadGuard<H>> for MemoryMap<H> {
    open spec fn obeys_from_spec() -> bool {
        true
    }

    open spec fn from_spec(value: &'a ReadGuard<H>) -> Self {
        value.spec_map()
    }
}

} // verus!
