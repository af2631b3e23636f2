use earth_el::grid::{decode_sample, encode_sample, read_sample, sample_offset};
use earth_el::{HgtError, HgtFile};

#[test]
fn resolution_srtm1() {
    let f = HgtFile::new(47_000_000, 5_000_000);
    assert_eq!(f.get_resolution(25_934_402), Some(3601));
}

#[test]
fn resolution_srtm3() {
    let f = HgtFile::new(47_000_000, 5_000_000);
    assert_eq!(f.get_resolution(2_884_802), Some(1201));
}

#[test]
fn resolution_unknown_sizes() {
    let f = HgtFile::new(47_000_000, 5_000_000);
    assert_eq!(f.get_resolution(0), None);
    assert_eq!(f.get_resolution(2_884_801), None);
    assert_eq!(f.get_resolution(25_934_403), None);
    assert_eq!(f.get_resolution(1_000_000), None);
}

#[test]
fn decode_known_samples() {
    assert_eq!(decode_sample(0x01, 0x03), 259);
    assert_eq!(decode_sample(0x12, 0x84), 4740);
    assert_eq!(decode_sample(0x00, 0x00), 0);
    assert_eq!(decode_sample(0xFF, 0xFF), -1);
    assert_eq!(decode_sample(0x80, 0x00), -32768);
}

#[test]
fn encode_decode_round_trip() {
    let samples: Vec<i16> = vec![0, 1, 259, 4740, 32767, -1, -428, -32768];
    for v in samples {
        let (hi, lo) = encode_sample(v);
        assert_eq!(decode_sample(hi, lo), v);
    }
}

#[test]
fn read_sample_in_bounds() {
    let data: Vec<u8> = vec![0x00, 0x00, 0x01, 0x03];
    assert_eq!(read_sample(&data, 2), Ok(259));
}

#[test]
fn read_sample_truncated_is_io_error() {
    let data: Vec<u8> = vec![0x00, 0x00, 0x01];
    assert_eq!(read_sample(&data, 2), Err(HgtError::IoError));
    let empty: Vec<u8> = vec![];
    assert_eq!(read_sample(&empty, 0), Err(HgtError::IoError));
}

#[test]
fn boundary_integer_degree_maps_to_southernmost_row() {
    for n in [1201usize, 3601usize] {
        let off = sample_offset(46_000_000, 5_500_000, n);
        let row = off / 2 / n;
        assert_eq!(row, n - 1);
    }
}

#[test]
fn column_grows_eastward_within_cell() {
    let west = sample_offset(46_500_000, 5_100_000, 3601);
    let east = sample_offset(46_500_000, 5_900_000, 3601);
    assert!(east > west);
    assert_eq!(west / 2 / 3601, east / 2 / 3601);
}
