//! Guards: values that grant access to the bytes of a mapping for as long as they live.
pub mod read;
pub mod write;
