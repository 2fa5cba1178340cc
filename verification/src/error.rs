use vstd::prelude::*;

verus! {

/// Why constructing or serialising a multi-proof failed.
///
/// Every failure surfaces to the immediate caller; nothing is retried
/// or suppressed, and no partial container is ever returned.
#[derive(Clone, Copy, Debug, PartialEq, Eq, Structural)]
pub enum Error {
    /// A fixed-size byte window did not decode to a valid proof record,
    /// for instance because it holds an invalid curve-point encoding.
    Decode,
    /// Fewer complete windows were available in the buffer than the
    /// requested partition count; both counts are reported so a caller
    /// can tell truncated data from a wrong partition-count argument.
    PartitionMismatch { expected: usize, actual: usize },
    /// Reading from the byte source or writing to the byte sink failed.
    Io,
}

} // verus!
