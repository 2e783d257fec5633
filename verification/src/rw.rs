//! A mapping that is known to be writable.
use crate::error::PsMmapError;
use crate::guards::write::WriteGuard;
use crate::writable::WritableMemoryMap;
use crate::MemoryMap;
use vstd::prelude::*;
use vstd::std_specs::convert::{FromSpecImpl, TryFromSpecImpl};

verus! {

/// A writable mapping, set apart from the read-only kind once and for all: taking
/// write access through it cannot be refused.
#[derive(Debug)]
pub struct MutableMemoryMapping<H> {
    mapping: WritableMemoryMap<H>,
}

impl<H> Clone for MutableMemoryMapping<H> {
    fn clone(&self) -> (other: Self)
        ensures
            other == *self,
    {
        MutableMemoryMapping { mapping: self.mapping.clone() }
    }
}

impl<H> MutableMemoryMapping<H> {
    /// The mapping inside.
    pub closed spec fn spec_mapping(&self) -> WritableMemoryMap<H> {
        self.mapping
    }

    /// Sets a writable mapping apart.
    pub fn from(mapping: WritableMemoryMap<H>) -> (handle: Self)
        ensures
            handle.spec_mapping() == mapping,
    {
        MutableMemoryMapping { mapping }
    }

    /// Gives the mapping back as a mapping of either kind; it is the writable kind.
    pub fn done(self) -> (mapping: MemoryMap<H>)
        ensures
            mapping == MemoryMap::Writable(self.spec_mapping()),
    {
        MemoryMap::Writable(self.mapping)
    }

    /// Takes exclusive access, waiting while anybody else holds the bytes.
    #[must_use]
    pub fn lock(&self) -> (guard: WriteGuard<H>)
        ensures
            guard.spec_map() == self.spec_mapping(),
            guard@.len() == self.spec_mapping().spec_len(),
    {
        self.mapping.write()
    }
}

impl<H> From<MutableMemoryMapping<H>> for MemoryMap<H> {
    fn from(mapping: MutableMemoryMapping<H>) -> (map: Self) {
        mapping.done()
    }
}

impl<H> FromSpecImpl<MutableMemoryMapping<H>> for MemoryMap<H> {
    open spec fn obeys_from_spec() -> bool {
        true
    }

    open spec fn from_spec(mapping: MutableMemoryMapping<H>) -> Self {
        MemoryMap::Writable(mapping.spec_mapping())
    }
}

impl<H> TryFrom<MemoryMap<H>> for MutableMemoryMapping<H> {
    type Error = PsMmapError;

    fn try_from(mapping: MemoryMap<H>) -> (res: Result<Self, PsMmapError>)
        ensures
            mapping is Readable ==> res matches Err(PsMmapError::ReadOnly),
            mapping matches MemoryMap::Writable(map) ==> res matches Ok(handle)
                && handle.spec_mapping() == map,
    {
        mapping.rw()
    }
}

impl<H> TryFromSpecImpl<MemoryMap<H>> for MutableMemoryMapping<H> {
    open spec fn obeys_try_from_spec() -> bool {
        false
    }

    open spec fn try_from_spec(mapping: MemoryMap<H>) -> Result<Self, PsMmapError> {
        arbitrary()
    }
}

} // verus!
