//! The error taxonomy of the tile pipeline.
use vstd::prelude::*;

verus! {

/// Why an elevation lookup failed.
///
/// `InvalidResolution` carries the byte size that matched neither known
/// grid layout; an unrecognised size is an explicit failure, never a
/// silent fallback to a default resolution.
#[derive(Debug, Clone, Copy, PartialEq, Eq, Structural)]
pub enum HgtError {
    /// A local filesystem operation failed, or a tile held fewer bytes
    /// than the sample's offset requires.
    IoError,
    /// The fetched archive was not a well-formed gzip stream.
    DecodeError,
    /// The network fetch of the remote archive failed.
    NetworkError,
    /// The tile's byte size matches neither the 3601x3601 nor the
    /// 1201x1201 layout.
    InvalidResolution(u64),
}

} // verus!
