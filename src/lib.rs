//! An append-only byte store over a memory-mapped region.
//!
//! The committed prefix of the region is what readers see; an append writes
//! past it, flushes, and only then moves the cursor that bounds the prefix.

pub mod error;
pub mod mapping;
pub mod appender;
pub mod laws;
