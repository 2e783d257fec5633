//! A read-only mapping, shared by all its clones.
use crate::error::MapError;
use crate::primitive::{mmap_as_slice, mmap_bytes, share, slice_address};
use memmap2::Mmap;
use std::ops::Deref;
use std::sync::Arc;
use vstd::prelude::*;

verus! {

/// What every clone of a read-only mapping shares: the handle that keeps the file
/// and its advisory lock, and the mapped bytes.
#[derive(Debug)]
pub struct ReadableMemoryMapInner<H> {
    file: H,
    mmap: Mmap,
    base: usize,
}

/// A read-only mapping. Cloning it adds an owner; the file is neither opened nor
/// locked again. The mapping and the handle go when the last owner goes.
#[derive(Debug)]
pub struct ReadableMemoryMap<H> {
    inner: Arc<ReadableMemoryMapInner<H>>,
}

impl<H> View for ReadableMemoryMap<H> {
    type V = Seq<u8>;

    /// The mapped bytes. They never change.
    closed spec fn view(&self) -> Seq<u8> {
        mmap_bytes(self.inner.mmap)
    }
}

impl<H> Clone for ReadableMemoryMap<H> {
    fn clone(&self) -> (other: Self)
        ensures
            other == *self,
    {
        ReadableMemoryMap { inner: share(&self.inner) }
    }
}

impl<H> Deref for ReadableMemoryMap<H> {
    type Target = Mmap;

    fn deref(&self) -> (mmap: &Mmap)
        ensures
            *mmap == self.spec_mmap(),
    {
        self.as_mmap()
    }
}

impl<H> ReadableMemoryMap<H> {
    /// The handle that the mapping was made with.
    pub closed spec fn spec_file(&self) -> H {
        self.inner.file
    }

    /// The mapping that the bytes are read from.
    pub closed spec fn spec_mmap(&self) -> Mmap {
        self.inner.mmap
    }

    /// The address recorded when the mapping was wrapped.
    pub closed spec fn spec_base(&self) -> usize {
        self.inner.base
    }

    /// The number of mapped bytes.
    pub open spec fn spec_len(&self) -> nat {
        self@.len()
    }

    /// Wraps a mapping together with the handle of the file behind it. The handle is
    /// kept until the last clone, and the last guard made from one, is gone.
    pub fn from_parts(file: H, mmap: Mmap) -> (map: Self)
        ensures
            map@ == mmap_bytes(mmap),
            map.spec_file() == file,
            map.spec_mmap() == mmap,
    {
        let base = slice_address(mmap_as_slice(&mmap));
        ReadableMemoryMap { inner: Arc::new(ReadableMemoryMapInner { file, mmap, base }) }
    }

    /// Completes the mapping of a file: `file` is the handle that holds the shared
    /// advisory lock, `mapped` is what the mapping call returned. A mapping is wrapped,
    /// a failure is passed on as it came.
    pub fn from_mapped(file: H, mapped: Result<Mmap, std::io::Error>) -> (res: Result<
        Self,
        MapError,
    >)
        ensures
            mapped matches Ok(mmap) ==> res matches Ok(map) && map@ == mmap_bytes(mmap)
                && map.spec_file() == file && map.spec_mmap() == mmap,
            mapped matches Err(error) ==> res matches Err(MapError::IoError(e)) && e == error,
    {
        match mapped {
            Ok(mmap) => Ok(Self::from_parts(file, mmap)),
            Err(error) => Err(MapError::IoError(error)),
        }
    }

    /// The mapped bytes. No lock is taken: nobody can write to them.
    pub fn as_bytes(&self) -> (bytes: &[u8])
        ensures
            bytes@ == self@,
    {
        mmap_as_slice(&self.inner.mmap)
    }

    /// The mapping itself.
    pub fn as_mmap(&self) -> (mmap: &Mmap)
        ensures
            *mmap == self.spec_mmap(),
    {
        &self.inner.mmap
    }

    /// The handle of the file behind the mapping.
    pub fn file(&self) -> (file: &H)
        ensures
            *file == self.spec_file(),
    {
        &self.inner.file
    }

    /// Where the mapping starts in memory, as recorded when it was wrapped.
    pub fn as_ptr(&self) -> (address: usize)
        ensures
            address == self.spec_base(),
    {
        self.inner.base
    }

    /// The number of mapped bytes.
    pub fn len(&self) -> (len: usize)
        ensures
            len == self.spec_len(),
    {
        self.as_bytes().len()
    }

    /// Whether the mapping holds no byte at all.
    pub fn is_empty(&self) -> (empty: bool)
        ensures
            empty == (self.spec_len() == 0),
    {
        self.len() == 0
    }
}

} // verus!
