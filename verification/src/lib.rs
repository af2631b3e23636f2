//! Elevation lookup over SRTM/HGT ("Skadi") tiles.
//!
//! A tile is a square grid of big-endian signed 16-bit elevation samples
//! covering one 1°x1° geographic cell. This crate maps a coordinate to
//! its tile identity and cache path, decides the fetch-and-decompress
//! steps that materialise a tile on disk, and decodes the sample nearest
//! a coordinate from the tile's bytes. Coordinates are fixed-point
//! micro-degrees; the network and the filesystem stay with the caller,
//! who drives the store decisions and hands the tile's size and bytes
//! back in.
use vstd::prelude::*;

pub mod error;
pub mod fmtnum;
pub mod grid;
pub mod hgt;
pub mod store;

pub use error::HgtError;
pub use hgt::HgtFile;
pub use store::store_step;
pub use store::StoreAction;
pub use store::StoreEvent;

use crate::grid::{
    lemma_offset_in_grid, offset_of, read_sample, sample_offset, sample_val, spec_resolution,
};

verus! {

/// The elevation lookup service.
pub struct EarthEl;

/// What an elevation lookup yields on a tile of `size` bytes whose
/// readable contents are `data`: the sample nearest the coordinate, or
/// the error the tile's shape forces.
pub open spec fn spec_elevation(lat: int, lon: int, size: int, data: Seq<u8>) -> Result<
    int,
    HgtError,
> {
    match spec_resolution(size) {
        None => Err(HgtError::InvalidResolution(size as u64)),
        Some(n) => {
            let off = offset_of(lat, lon, n);
            if off + 2 <= data.len() {
                Ok(sample_val(data[off], data[off + 1]))
            } else {
                Err(HgtError::IoError)
            }
        },
    }
}

impl EarthEl {
    /// The elevation, in whole meters, nearest the coordinate
    /// `(lat_micro, lon_micro)` (micro-degrees), read out of a tile
    /// whose on-disk byte size is `size` and whose readable bytes are
    /// `data`.
    ///
    /// A size matching neither known grid layout is
    /// `InvalidResolution(size)`; a tile holding fewer bytes than the
    /// sample's offset requires is `IoError`; otherwise the result is
    /// exactly the grid sample the projection names.
    pub fn get_elevation(lat_micro: i64, lon_micro: i64, size: u64, data: &Vec<u8>) -> (r: Result<
        i16,
        HgtError,
    >)
        ensures
            r matches Ok(e) ==> spec_elevation(lat_micro as int, lon_micro as int, size as int, data@)
                == Ok::<int, HgtError>(e as int),
            r matches Err(e) ==> spec_elevation(
                lat_micro as int,
                lon_micro as int,
                size as int,
                data@,
            ) == Err::<int, HgtError>(e),
    {
        let tile = HgtFile::new(lat_micro, lon_micro);
        let n = match tile.get_resolution(size) {
            Some(n) => n,
            None => {
                return Err(HgtError::InvalidResolution(size));
            },
        };
        let off = sample_offset(lat_micro, lon_micro, n);
        read_sample(data, off)
    }
}

/// Format round-trip: in a well-formed grid of either known resolution,
/// a lookup returns exactly the sample value whose big-endian bytes
/// stand at the coordinate's offset — the value previously written
/// there is the value read back.
pub proof fn lemma_format_round_trip(lat: int, lon: int, n: int, data: Seq<u8>, v: i16)
    requires
        n == 1201 || n == 3601,
        data.len() == 2 * n * n,
        sample_val(data[offset_of(lat, lon, n)], data[offset_of(lat, lon, n) + 1]) == v as int,
    ensures
        spec_elevation(lat, lon, 2 * n * n, data) == Ok::<int, HgtError>(v as int),
{
    lemma_offset_in_grid(lat, lon, n);
}

} // verus!
