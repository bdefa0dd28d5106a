use vstd::prelude::*;

verus! {

/// Why one attempt to fetch a file failed.
#[derive(Debug, Clone, Copy, PartialEq, Eq, Structural)]
pub enum FailureCause {
    /// The request failed, the response was not a success, or the stream broke.
    Transport,
    /// The content did not have the declared size or digest.
    IntegrityMismatch,
}

/// An error that ends a synchronisation run.
#[derive(Debug, Clone, Copy, PartialEq, Eq, Structural)]
pub enum SyncError {
    /// The descriptor at this index does not carry the fields its kind needs.
    MalformedDescriptor { index: usize },
    /// No runtime is published for this platform.
    UnsupportedPlatform,
    /// The manifest has no runtime of the requested kind for the platform.
    NoRuntimeAvailable,
    /// Every attempt to fetch the task at this index failed; the last for `cause`.
    RetriesExhausted { index: usize, cause: FailureCause },
    /// Local input or output for the task at this index failed.
    LocalIo { index: usize },
    /// The sizes to fetch add up to more than a 64-bit count holds.
    SizeOverflow,
    /// The caller cancelled the run.
    Cancelled,
}

} // verus!
