//! What can go wrong: the operating system refuses to open, lock or map; a write is
//! asked of a read-only mapping; or a lock was left poisoned.
use crate::primitive::io_error_text;
use vstd::prelude::*;

verus! {

/// Mapping a file into memory failed.
#[derive(Debug)]
pub enum MapError {
    /// Opening, locking or mapping failed in the operating system.
    IoError(std::io::Error),
}

/// Access to a mapping was refused.
#[derive(Debug)]
pub enum PsMmapError {
    /// A call into the operating system failed.
    IoError(std::io::Error),
    /// An exclusive or mutable view was asked of a read-only mapping.
    ReadOnly,
    /// A holder of the in-process lock ended abnormally while holding it, so the bytes
    /// can no longer be trusted. The lock this crate uses releases itself when its
    /// holder unwinds and never reports this; the variant is there for callers that
    /// put a poisoning lock of their own around a mapping.
    Poisoned,
}

impl MapError {
    /// The text shown to a user: the operating system's own.
    pub fn message(&self) -> (text: String) {
        match self {
            MapError::IoError(error) => io_error_text(error),
        }
    }
}

impl PsMmapError {
    /// The fixed text of a variant that has one; the operating system words its own
    /// failures.
    pub open spec fn fixed_message(self) -> Option<Seq<char>> {
        match self {
            PsMmapError::IoError(_) => None,
            PsMmapError::ReadOnly => Some("This memory map is read-only."@),
            PsMmapError::Poisoned => Some("This memory map's lock is poisoned."@),
        }
    }

    /// The text shown to a user.
    pub fn message(&self) -> (text: String)
        ensures
            self.fixed_message() matches Some(fixed) ==> text@ == fixed,
    {
        match self {
            PsMmapError::IoError(error) => io_error_text(error),
            PsMmapError::ReadOnly => "This memory map is read-only.".to_owned(),
            PsMmapError::Poisoned => "This memory map's lock is poisoned.".to_owned(),
        }
    }
}

impl From<std::io::Error> for MapError {
    fn from(error: std::io::Error) -> (res: Self) {
        MapError::IoError(error)
    }
}

impl vstd::std_specs::convert::FromSpecImpl<std::io::Error> for MapError {
    open spec fn obeys_from_spec() -> bool {
        true
    }

    open spec fn from_spec(error: std::io::Error) -> Self {
        MapError::IoError(error)
    }
}

impl From<std::io::Error> for PsMmapError {
    fn from(error: std::io::Error) -> (res: Self) {
        PsMmapError::IoError(error)
    }
}

impl vstd::std_specs::convert::FromSpecImpl<std::io::Error> for PsMmapError {
    open spec fn obeys_from_spec() -> bool {
        true
    }

    open spec fn from_spec(error: std::io::Error) -> Self {
        PsMmapError::IoError(error)
    }
}

} // verus!
