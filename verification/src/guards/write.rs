//! Exclusive write access to a writable mapping.
use crate::primitive::{exclusive_as_mut_slice, exclusive_as_slice, exclusive_bytes, ExclusiveHold};
use crate::error::PsMmapError;
use crate::writable::WritableMemoryMap;
use crate::MemoryMap;
use std::ops::{Deref, DerefMut};
use vstd::prelude::*;
use vstd::std_specs::convert::{FromSpecImpl, TryFromSpecImpl};

verus! {

/// Exclusive access to the bytes of a writable mapping, and an owner of that mapping:
/// the mapping cannot go while the access is held.
#[derive(Debug)]
pub struct ExclusiveLock<H> {
    hold: ExclusiveHold,
    map: WritableMemoryMap<H>,
}

impl<H> View for ExclusiveLock<H> {
    type V = Seq<u8>;

    /// The bytes as the holder sees them now.
    closed spec fn view(&self) -> Seq<u8> {
        exclusive_bytes(self.hold)
    }
}

impl<H> ExclusiveLock<H> {
    /// The access shows exactly as many bytes as the mapping holds.
    #[verifier::type_invariant]
    pub closed spec fn wf(self) -> bool {
        exclusive_bytes(self.hold).len() == self.map.spec_len()
    }

    /// The mapping that the access was taken on.
    pub closed spec fn spec_map(&self) -> WritableMemoryMap<H> {
        self.map
    }

    /// A well-formed access shows exactly as many bytes as its mapping holds.
    pub proof fn lemma_len(self)
        requires
            self.wf(),
        ensures
            self@.len() == self.spec_map().spec_len(),
    {
    }

    pub(crate) fn new(hold: ExclusiveHold, map: WritableMemoryMap<H>) -> (lock: Self)
        requires
            exclusive_bytes(hold).len() == map.spec_len(),
        ensures
            lock@ == exclusive_bytes(hold),
            lock.spec_map() == map,
    {
        ExclusiveLock { hold, map }
    }

    /// The bytes under the lock, to read.
    pub fn as_bytes(&self) -> (bytes: &[u8])
        ensures
            bytes@ == self@,
            bytes@.len() == self.spec_map().spec_len(),
    {
        proof {
            use_type_invariant(self);
        }
        exclusive_as_slice(&self.hold)
    }

    /// The bytes under the lock, to write. What is written is what the lock shows
    /// afterwards; the mapping and the number of bytes stay the same.
    pub fn as_bytes_mut(&mut self) -> (bytes: &mut [u8])
        ensures
            bytes@ == old(self)@,
            final(bytes)@.len() == bytes@.len(),
            final(self)@ == final(bytes)@,
            final(self).spec_map() == old(self).spec_map(),
    {
        proof {
            use_type_invariant(&*self);
        }
        exclusive_as_mut_slice(&mut self.hold)
    }

    /// The mapping that the access was taken on.
    pub fn map(&self) -> (map: &WritableMemoryMap<H>)
        ensures
            *map == self.spec_map(),
            map.spec_len() == self@.len(),
    {
        proof {
            use_type_invariant(self);
        }
        &self.map
    }

    /// Gives the access back and keeps the mapping.
    pub fn into_map(self) -> (map: WritableMemoryMap<H>)
        ensures
            map == self.spec_map(),
            map.spec_len() == self@.len(),
    {
        proof {
            use_type_invariant(&self);
        }
        self.map
    }
}

/// Write access to a mapping. Only a writable mapping has one.
#[derive(Debug)]
pub enum WriteGuard<H> {
    /// A writable mapping is written under its lock, held exclusively.
    Writable(ExclusiveLock<H>),
}

impl<H> View for WriteGuard<H> {
    type V = Seq<u8>;

    /// The bytes that the guard gives access to, as they are now.
    open spec fn view(&self) -> Seq<u8> {
        match self {
            WriteGuard::Writable(lock) => lock@,
        }
    }
}

impl<H> WriteGuard<H> {
    /// Every guard that the crate hands out is well formed: it shows as many bytes as
    /// the mapping it was taken on holds.
    pub open spec fn wf(self) -> bool {
        match self {
            WriteGuard::Writable(lock) => lock.wf(),
        }
    }

    /// The mapping that the guard was taken on.
    pub open spec fn spec_map(&self) -> WritableMemoryMap<H> {
        match self {
            WriteGuard::Writable(lock) => lock.spec_map(),
        }
    }

    /// A well-formed guard shows exactly as many bytes as its mapping holds.
    pub proof fn lemma_len(self)
        requires
            self.wf(),
        ensures
            self@.len() == self.spec_map().spec_len(),
    {
        match self {
            WriteGuard::Writable(lock) => lock.lemma_len(),
        }
    }

    /// The bytes, to read.
    pub fn as_bytes(&self) -> (bytes: &[u8])
        ensures
            bytes@ == self@,
            bytes@.len() == self.spec_map().spec_len(),
    {
        match self {
            WriteGuard::Writable(lock) => lock.as_bytes(),
        }
    }

    /// The bytes, to write. What is written at an offset is what the guard shows
    /// there afterwards, and every other offset keeps its byte; the mapping and the
    /// number of bytes stay the same.
    pub fn as_bytes_mut(&mut self) -> (bytes: &mut [u8])
        ensures
            bytes@ == old(self)@,
            final(bytes)@.len() == bytes@.len(),
            final(self)@ == final(bytes)@,
            final(self).spec_map() == old(self).spec_map(),
    {
        match self {
            WriteGuard::Writable(lock) => lock.as_bytes_mut(),
        }
    }

    /// One more owner of the mapping that the guard was taken on.
    pub fn map(&self) -> (map: WritableMemoryMap<H>)
        ensures
            map == self.spec_map(),
            map.spec_len() == self@.len(),
    {
        match self {
            WriteGuard::Writable(lock) => lock.map().clone(),
        }
    }

    /// Gives the access back and keeps the mapping.
    pub fn into_map(self) -> (map: WritableMemoryMap<H>)
        ensures
            map == self.spec_map(),
            map.spec_len() == self@.len(),
    {
        match self {
            WriteGuard::Writable(lock) => lock.into_map(),
        }
    }
}

impl<H> Deref for WriteGuard<H> {
    type Target = [u8];

    fn deref(&self) -> (bytes: &[u8])
        ensures
            bytes@ == self@,
    {
        self.as_bytes()
    }
}

impl<H> DerefMut for WriteGuard<H> {
    fn deref_mut(&mut self) -> (bytes: &mut [u8])
        ensures
            bytes@ == old(self)@,
            final(bytes)@.len() == bytes@.len(),
            final(self)@ == final(bytes)@,
            final(self).spec_map() == old(self).spec_map(),
    {
        self.as_bytes_mut()
    }
}

impl<H> From<WritableMemoryMap<H>> for WriteGuard<H> {
    fn from(value: WritableMemoryMap<H>) -> (guard: Self)
        ensures
            guard.spec_map() == value,
            guard@.len() == value.spec_len(),
    {
        value.into_write()
    }
}

impl<H> FromSpecImpl<WritableMemoryMap<H>> for WriteGuard<H> {
    /// Which access comes back is the lock's to say, not a function of the mapping.
    open spec fn obeys_from_spec() -> bool {
        false
    }

    open spec fn from_spec(value: WritableMemoryMap<H>) -> Self {
        arbitrary()
    }
}

impl<H> TryFrom<MemoryMap<H>> for WriteGuard<H> {
    type Error = PsMmapError;

    fn try_from(value: MemoryMap<H>) -> (res: Result<Self, PsMmapError>)
        ensures
            value is Readable ==> res matches Err(PsMmapError::ReadOnly),
            value matches MemoryMap::Writable(map) ==> res matches Ok(guard) && guard.spec_map()
                == map && guard@.len() == map.spec_len(),
    {
        value.try_into_write()
    }
}

impl<H> TryFromSpecImpl<MemoryMap<H>> for WriteGuard<H> {
    /// Which access comes back is the lock's to say, not a function of the mapping.
    open spec fn obeys_try_from_spec() -> bool {
        false
    }

    open spec fn try_from_spec(value: MemoryMap<H>) -> Result<Self, PsMmapError> {
        arbitrary()
    }
}

impl<'a, H> TryFrom<&'a MemoryMap<H>> for WriteGuard<H> {
    type Error = PsMmapError;

    fn try_from(value: &'a MemoryMap<H>) -> (res: Result<Self, PsMmapError>)
        ensures
            *value is Readable ==> res matches Err(PsMmapError::ReadOnly),
            *value matches MemoryMap::Writable(map) ==> res matches Ok(guard) && guard.spec_map()
                == map && guard@.len() == map.spec_len(),
    {
        value.try_write()
    }
}

impl<'a, H> TryFromSpecImpl<&'a MemoryMap<H>> for WriteGuard<H> {
    /// Which access comes back is the lock's to say, not a function of the mapping.
    open spec fn obeys_try_from_spec() -> bool {
        false
    }

    open spec fn try_from_spec(value: &'a MemoryMap<H>) -> Result<Self, PsMmapError> {
        arbitrary()
    }
}

impl<H> From<WriteGuard<H>> for WritableMemoryMap<H> {
    fn from(value: WriteGuard<H>) -> (map: Self)
        ensures
            map.spec_len() == value@.len(),
    {
        value.into_map()
    }
}

impl<H> FromSpecImpl<WriteGuard<H>> for WritableMemoryMap<H> {
    open spec fn obeys_from_spec() -> bool {
        true
    }

    open spec fn from_spec(value: WriteGuard<H>) -> Self {
        value.spec_map()
    }
}

impl<'a, H> From<&'a WriteGuard<H>> for WritableMemoryMap<H> {
    fn from(value: &'a WriteGuard<H>) -> (map: Self)
        ensures
            map.spec_len() == value@.len(),
    {
        value.map()
    }
}

impl<'a, H> FromSpecImpl<&'a WriteGuard<H>> for WritableMemoryMap<H> {
    open spec fn obeys_from_spec() -> bool {
        true
    }

    open spec fn from_spec(value: &'a WriteGuard<H>) -> Self {
        value.spec_map()
    }
}

impl<H> From<WriteGuard<H>> for MemoryMap<H> {
    fn from(value: WriteGuard<H>) -> (map: Self)
        ensures
            map.spec_len() == value@.len(),
    {
        MemoryMap::Writable(value.into_map())
    }
}

impl<H> FromSpecImpl<WriteGuard<H>> for MemoryMap<H> {
    open spec fn obeys_from_spec() -> bool {
        true
    }

    open spec fn from_spec(value: WriteGuard<H>) -> Self {
        MemoryMap::Writable(value.spec_map())
    }
}

impl<'a, H> From<&'a WriteGuard<H>> for MemoryMap<H> {
    fn from(value: &'a WriteGuard<H>) -> (map: Self)
        ensures
            map.spec_len() == value@.len(),
    {
        MemoryMap::Writable(value.map())
    }
}

impl<'a, H> FromSpecImpl<&'a WriteGuard<H>> for MemoryMap<H> {
    open spec fn obeys_from_spec() -> bool {
        true
    }

    open spec fn from_spec(value: &'a WriteGuard<H>) -> Self {
        MemoryMap::Writable(value.spec_map())
    }
}

} // verus!
