//! Tile identity: which 1°x1° cell a coordinate falls in, and the names
//! and paths derived from that cell.
//!
//! Coordinates are fixed-point micro-degrees: `47_059_200` stands for
//! 47.0592°. The mapping to a cell uses the floor of the absolute degree
//! value together with a sign prefix, so `-500_000` (−0.5°) falls in band
//! `S0`, not `S1`.
use vstd::prelude::*;
use vstd::string::*;

use crate::fmtnum::{dec_rep, dec_rep2, dec_rep3, fmt_u64, fmt_u64_pad2, fmt_u64_pad3};

verus! {

/// Micro-degrees per degree.
pub const MICRO_PER_DEG: u64 = 1_000_000;

/// The magnitude of `x`.
pub open spec fn abs_of(x: int) -> int {
    if x >= 0 {
        x
    } else {
        -x
    }
}

/// The integer-degree band of a micro-degree value: the floor of its
/// absolute value in degrees.
pub open spec fn band_of(x: int) -> int {
    abs_of(x) / 1_000_000
}

/// The latitude hemisphere prefix: `"N"` for non-negative latitudes.
pub open spec fn lat_prefix(lat: int) -> Seq<char> {
    if lat >= 0 {
        "N"@
    } else {
        "S"@
    }
}

/// The longitude hemisphere prefix: `"E"` for non-negative longitudes.
pub open spec fn lon_prefix(lon: int) -> Seq<char> {
    if lon >= 0 {
        "E"@
    } else {
        "W"@
    }
}

/// The folder a tile lives under: prefix and band, no zero-padding.
pub open spec fn spec_folder(lat: int) -> Seq<char> {
    lat_prefix(lat) + dec_rep(band_of(lat) as nat)
}

/// The tile file name: latitude band padded to two digits, longitude
/// band padded to three, `.hgt` suffix.
pub open spec fn spec_name(lat: int, lon: int) -> Seq<char> {
    lat_prefix(lat) + dec_rep2(band_of(lat) as nat) + lon_prefix(lon) + dec_rep3(
        band_of(lon) as nat,
    ) + ".hgt"@
}

/// The canonical cache path of a tile under `root`.
pub open spec fn spec_path(root: Seq<char>, lat: int, lon: int) -> Seq<char> {
    root + "/"@ + spec_folder(lat) + "/"@ + spec_name(lat, lon)
}

/// The remote archive address of a tile: the Skadi layout keyed by
/// folder and file name, gzip-compressed.
pub open spec fn spec_url(lat: int, lon: int) -> Seq<char> {
    "https://elevation-tiles-prod.s3.amazonaws.com/skadi/"@ + spec_folder(lat) + "/"@ + spec_name(
        lat,
        lon,
    ) + ".gz"@
}

/// Two micro-degree values that fall in the same band on the same side
/// of the equator or meridian.
pub open spec fn same_band(a: int, b: int) -> bool {
    (a >= 0 <==> b >= 0) && band_of(a) == band_of(b)
}

/// The identity of one tile: its folder, file name, and cache path.
pub struct HgtFile {
    pub folder: String,
    pub name: String,
    pub path: String,
}

/// The magnitude of `x`, widened so every `i64` has one.
fn abs_u64(x: i64) -> (r: u64)
    ensures
        r as int == abs_of(x as int),
{
    if x >= 0 {
        x as u64
    } else {
        let wide: i128 = -(x as i128);
        wide as u64
    }
}

impl HgtFile {
    /// Maps a coordinate to its tile identity under the default cache
    /// root `/tmp/hgt`.
    pub fn new(lat_micro: i64, lon_micro: i64) -> (f: HgtFile)
        ensures
            f.folder@ == spec_folder(lat_micro as int),
            f.name@ == spec_name(lat_micro as int, lon_micro as int),
            f.path@ == spec_path("/tmp/hgt"@, lat_micro as int, lon_micro as int),
    {
        Self::with_root("/tmp/hgt", lat_micro, lon_micro)
    }

    /// Maps a coordinate to its tile identity under an explicit cache
    /// root, so callers can isolate cache state.
    pub fn with_root(root: &str, lat_micro: i64, lon_micro: i64) -> (f: HgtFile)
        ensures
            f.folder@ == spec_folder(lat_micro as int),
            f.name@ == spec_name(lat_micro as int, lon_micro as int),
            f.path@ == spec_path(root@, lat_micro as int, lon_micro as int),
    {
        let lat_p = if lat_micro >= 0 {
            "N"
        } else {
            "S"
        };
        let lon_p = if lon_micro >= 0 {
            "E"
        } else {
            "W"
        };
        let lat_band: u64 = abs_u64(lat_micro) / MICRO_PER_DEG;
        let lon_band: u64 = abs_u64(lon_micro) / MICRO_PER_DEG;

        let mut folder = String::from_str(lat_p);
        let band_s = fmt_u64(lat_band);
        folder.append(band_s.as_str());

        let mut name = String::from_str(lat_p);
        let lat2 = fmt_u64_pad2(lat_band);
        name.append(lat2.as_str());
        name.append(lon_p);
        let lon3 = fmt_u64_pad3(lon_band);
        name.append(lon3.as_str());
        name.append(".hgt");

        let mut path = String::from_str(root);
        path.append("/");
        path.append(folder.as_str());
        path.append("/");
        path.append(name.as_str());

        proof {
            assert(folder@ =~= spec_folder(lat_micro as int));
            assert(name@ =~= spec_name(lat_micro as int, lon_micro as int));
            assert(path@ =~= spec_path(root@, lat_micro as int, lon_micro as int));
        }
        HgtFile { folder, name, path }
    }

    /// The remote archive address for this tile.
    pub fn remote_url(&self) -> (r: String)
        ensures
            r@ == "https://elevation-tiles-prod.s3.amazonaws.com/skadi/"@ + self.folder@ + "/"@
                + self.name@ + ".gz"@,
    {
        let mut url = String::from_str("https://elevation-tiles-prod.s3.amazonaws.com/skadi/");
        url.append(self.folder.as_str());
        url.append("/");
        url.append(self.name.as_str());
        url.append(".gz");
        proof {
            assert(url@ =~= "https://elevation-tiles-prod.s3.amazonaws.com/skadi/"@ + self.folder@
                + "/"@ + self.name@ + ".gz"@);
        }
        url
    }

    /// A temporary target distinct from the cache path, keyed by the
    /// tile and a caller-chosen suffix unique per in-flight fetch; a
    /// tile is materialised here first and renamed into place only on
    /// full success.
    pub fn temp_path(&self, suffix: &str) -> (r: String)
        ensures
            r@ == self.path@ + "."@ + suffix@ + ".part"@,
            r@.len() > self.path@.len(),
    {
        let mut t = String::from_str(self.path.as_str());
        t.append(".");
        t.append(suffix);
        t.append(".part");
        proof {
            reveal_strlit(".");
            reveal_strlit(".part");
            assert(t@ =~= self.path@ + "."@ + suffix@ + ".part"@);
        }
        t
    }
}

/// Determinism of tile identity: two coordinates in the same 1° cell
/// (same hemisphere prefixes, same integer-degree bands) name the same
/// folder, file, and cache path.
pub proof fn lemma_locate_deterministic(
    root: Seq<char>,
    lat_a: int,
    lon_a: int,
    lat_b: int,
    lon_b: int,
)
    requires
        same_band(lat_a, lat_b),
        same_band(lon_a, lon_b),
    ensures
        spec_folder(lat_a) == spec_folder(lat_b),
        spec_name(lat_a, lon_a) == spec_name(lat_b, lon_b),
        spec_path(root, lat_a, lon_a) == spec_path(root, lat_b, lon_b),
{
}

} // verus!
