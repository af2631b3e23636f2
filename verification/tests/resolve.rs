use earth_el::grid::{encode_sample, sample_offset};
use earth_el::{EarthEl, HgtError};

const SRTM1_BYTES: usize = 2 * 3601 * 3601;
const SRTM3_BYTES: usize = 2 * 1201 * 1201;

fn grid_with_sample(n: usize, offset: usize, value: i16) -> Vec<u8> {
    let mut data = vec![0u8; 2 * n * n];
    let (hi, lo) = encode_sample(value);
    data[offset] = hi;
    data[offset + 1] = lo;
    data
}

#[test]
fn format_round_trip_srtm3() {
    let lat = 47_059_200;
    let lon = 5_718_100;
    let off = sample_offset(lat, lon, 1201);
    let data = grid_with_sample(1201, off, 1234);
    let r = EarthEl::get_elevation(lat, lon, SRTM3_BYTES as u64, &data);
    assert_eq!(r, Ok(1234));
}

#[test]
fn format_round_trip_negative_elevation() {
    let lat = -33_865_100;
    let lon = 151_209_300;
    let off = sample_offset(lat, lon, 3601);
    let data = grid_with_sample(3601, off, -428);
    let r = EarthEl::get_elevation(lat, lon, SRTM1_BYTES as u64, &data);
    assert_eq!(r, Ok(-428));
}

#[test]
fn scenario_jura_village() {
    let lat = 47_059_200;
    let lon = 5_718_100;
    let off = sample_offset(lat, lon, 3601);
    let data = grid_with_sample(3601, off, 259);
    let r = EarthEl::get_elevation(lat, lon, SRTM1_BYTES as u64, &data);
    assert_eq!(r, Ok(259));
}

#[test]
fn scenario_mont_blanc() {
    let lat = 45_833_641;
    let lon = 6_864_594;
    let off = sample_offset(lat, lon, 3601);
    let data = grid_with_sample(3601, off, 4740);
    let r = EarthEl::get_elevation(lat, lon, SRTM1_BYTES as u64, &data);
    assert_eq!(r, Ok(4740));
}

#[test]
fn boundary_integer_degree_reads_southernmost_row() {
    let lat = 46_000_000;
    let lon = 5_500_000;
    let off = sample_offset(lat, lon, 1201);
    assert_eq!(off / 2 / 1201, 1200);
    let data = grid_with_sample(1201, off, 777);
    let r = EarthEl::get_elevation(lat, lon, SRTM3_BYTES as u64, &data);
    assert_eq!(r, Ok(777));
}

#[test]
fn unknown_size_is_invalid_resolution() {
    let data = vec![0u8; 100];
    let r = EarthEl::get_elevation(47_059_200, 5_718_100, 100, &data);
    assert_eq!(r, Err(HgtError::InvalidResolution(100)));
}

#[test]
fn truncated_tile_is_io_error() {
    let lat = 47_059_200;
    let lon = 5_718_100;
    let off = sample_offset(lat, lon, 3601);
    let data = vec![0u8; off + 1];
    let r = EarthEl::get_elevation(lat, lon, SRTM1_BYTES as u64, &data);
    assert_eq!(r, Err(HgtError::IoError));
}

#[test]
fn empty_tile_of_valid_claimed_size_is_io_error() {
    let data: Vec<u8> = vec![];
    let r = EarthEl::get_elevation(47_059_200, 5_718_100, SRTM1_BYTES as u64, &data);
    assert_eq!(r, Err(HgtError::IoError));
}
