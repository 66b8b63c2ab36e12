use vstd::prelude::*;

verus! {

/// The ways an operation on the store can fail.
#[derive(Clone, Copy, Debug, PartialEq, Eq, Structural)]
pub enum Error {
    /// The backing file could not be opened or created.
    FileOpen,
    /// The mapped region could not be established.
    Mmap,
    /// The mapped region is too small for the file's content or for an append.
    MmapTooSmall,
    /// Growing the file or flushing the region failed during an append.
    Write,
}

} // verus!
