//! The binary grid format: resolution inference from byte size, the
//! coordinate-to-sample projection, and big-endian sample codec.
use vstd::prelude::*;

use crate::error::HgtError;
use crate::hgt::HgtFile;

verus! {

/// Byte size of a 3601x3601 grid of 2-byte samples (SRTM1).
pub const SRTM1_BYTES: u64 = 2 * 3601 * 3601;

/// Byte size of a 1201x1201 grid of 2-byte samples (SRTM3).
pub const SRTM3_BYTES: u64 = 2 * 1201 * 1201;

/// The grid resolution a byte size denotes, if it denotes one.
pub open spec fn spec_resolution(size: int) -> Option<int> {
    if size == 2 * 3601 * 3601 {
        Some(3601)
    } else if size == 2 * 1201 * 1201 {
        Some(1201)
    } else {
        None
    }
}

/// The arc-seconds a micro-degree value stands above the floor of its
/// degree: `floor(frac_deg * 3600)`, always in `[0, 3600)`.
pub open spec fn seconds_of(x: int) -> int {
    (x % 1_000_000) * 3600 / 1_000_000
}

/// The grid row of a latitude: row 0 is the northernmost sample, so the
/// row falls as the latitude climbs within its cell.
pub open spec fn row_of(lat: int, n: int) -> int {
    (n - 1) - seconds_of(lat) * (n - 1) / 3600
}

/// The grid column of a longitude: column 0 is the westernmost sample.
pub open spec fn col_of(lon: int, n: int) -> int {
    seconds_of(lon) * (n - 1) / 3600
}

/// The byte offset of the sample nearest a coordinate in a row-major
/// grid of `n` x `n` two-byte samples.
pub open spec fn offset_of(lat: int, lon: int, n: int) -> int {
    2 * (row_of(lat, n) * n + col_of(lon, n))
}

/// The elevation a big-endian sample byte pair denotes.
pub open spec fn sample_val(hi: u8, lo: u8) -> int {
    if hi < 128 {
        hi * 256 + lo
    } else {
        hi * 256 + lo - 65536
    }
}

impl HgtFile {
    /// Infers the grid resolution from a tile's byte size; any size
    /// matching neither known layout is indeterminate, never defaulted.
    pub fn get_resolution(&self, size: u64) -> (r: Option<usize>)
        ensures
            r matches Some(n) ==> spec_resolution(size as int) == Some(n as int),
            r is None <==> spec_resolution(size as int) is None,
    {
        if size == SRTM1_BYTES {
            Some(3601)
        } else if size == SRTM3_BYTES {
            Some(1201)
        } else {
            None
        }
    }
}

/// Arc-seconds within the cell, in `[0, 3600)`, for any micro-degree
/// value on either side of zero.
pub fn seconds_in_cell(micro: i64) -> (s: u64)
    ensures
        s as int == seconds_of(micro as int),
        s < 3600,
{
    let rem: u64 = if micro >= 0 {
        (micro as u64) % 1_000_000
    } else {
        let mag: u64 = (-(micro as i128)) as u64;
        let m = mag % 1_000_000;
        if m == 0 {
            0
        } else {
            1_000_000 - m
        }
    };
    proof {
        assert(rem as int == (micro as int) % 1_000_000);
    }
    (rem * 3600) / 1_000_000
}

/// Bounds of the projection: every coordinate lands on a sample whose
/// two bytes lie inside a well-formed grid of the tile's size.
pub proof fn lemma_offset_in_grid(lat: int, lon: int, n: int)
    requires
        n == 1201 || n == 3601,
    ensures
        0 <= seconds_of(lat) < 3600,
        0 <= seconds_of(lon) < 3600,
        0 <= row_of(lat, n) < n,
        0 <= col_of(lon, n) < n,
        0 <= offset_of(lat, lon, n),
        offset_of(lat, lon, n) + 2 <= 2 * n * n,
{
    assert(0 <= lat % 1_000_000 < 1_000_000);
    assert(0 <= lon % 1_000_000 < 1_000_000);
    assert(0 <= seconds_of(lat) < 3600);
    assert(0 <= seconds_of(lon) < 3600);
    let sl = seconds_of(lat);
    let sc = seconds_of(lon);
    assert(0 <= sl * (n - 1) / 3600 < n) by (nonlinear_arith)
        requires
            0 <= sl < 3600,
            n == 1201 || n == 3601,
    ;
    assert(0 <= sc * (n - 1) / 3600 < n) by (nonlinear_arith)
        requires
            0 <= sc < 3600,
            n == 1201 || n == 3601,
    ;
    assert(row_of(lat, n) * n + col_of(lon, n) < n * n) by (nonlinear_arith)
        requires
            0 <= row_of(lat, n) < n,
            0 <= col_of(lon, n) < n,
            n == 1201 || n == 3601,
    ;
}

/// A coordinate on an exact integer degree has zero arc-seconds in its
/// cell and projects to the southernmost row of the grid.
pub proof fn lemma_boundary_bottom_row(lat: int, n: int)
    requires
        lat % 1_000_000 == 0,
        n == 1201 || n == 3601,
    ensures
        seconds_of(lat) == 0,
        row_of(lat, n) == n - 1,
{
}

/// The byte offset of the sample nearest a coordinate, for a grid of
/// one of the two known resolutions.
pub fn sample_offset(lat_micro: i64, lon_micro: i64, n: usize) -> (off: usize)
    requires
        n == 1201 || n == 3601,
    ensures
        off as int == offset_of(lat_micro as int, lon_micro as int, n as int),
        off + 2 <= 2 * n * n,
{
    proof {
        lemma_offset_in_grid(lat_micro as int, lon_micro as int, n as int);
    }
    let lat_s = seconds_in_cell(lat_micro);
    let lon_s = seconds_in_cell(lon_micro);
    let nm1: u64 = (n as u64) - 1;
    let row: u64 = nm1 - (lat_s * nm1) / 3600;
    let col: u64 = (lon_s * nm1) / 3600;
    let off: u64 = 2 * (row * (n as u64) + col);
    off as usize
}

/// Decodes one big-endian signed 16-bit sample.
pub fn decode_sample(hi: u8, lo: u8) -> (r: i16)
    ensures
        r as int == sample_val(hi, lo),
{
    let v: u32 = (hi as u32) * 256 + (lo as u32);
    if v < 32768 {
        v as i16
    } else {
        (v as i32 - 65536) as i16
    }
}

/// Encodes an elevation as its big-endian sample byte pair; the inverse
/// of `decode_sample`.
pub fn encode_sample(v: i16) -> (b: (u8, u8))
    ensures
        sample_val(b.0, b.1) == v as int,
{
    let u: u16 = if v >= 0 {
        v as u16
    } else {
        (v as i32 + 65536) as u16
    };
    ((u / 256) as u8, (u % 256) as u8)
}

/// Reads the sample at `offset` out of a tile's bytes; a tile holding
/// fewer than `offset + 2` bytes is corrupt and yields `IoError`, never
/// a value.
pub fn read_sample(data: &Vec<u8>, offset: usize) -> (r: Result<i16, HgtError>)
    ensures
        offset + 2 <= data@.len() ==> (r matches Ok(e) && e as int == sample_val(
            data@[offset as int],
            data@[offset as int + 1],
        )),
        offset + 2 > data@.len() ==> r == Err::<i16, HgtError>(HgtError::IoError),
{
    if data.len() >= 2 && offset <= data.len() - 2 {
        let hi = data[offset];
        let lo = data[offset + 1];
        Ok(decode_sample(hi, lo))
    } else {
        Err(HgtError::IoError)
    }
}

} // verus!
