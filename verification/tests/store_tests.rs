use earth_el::{store_step, EarthEl, HgtError, StoreAction, StoreEvent};
use std::io::Write;

fn gzip(data: &[u8]) -> Vec<u8> {
    let mut enc = flate2::write::GzEncoder::new(Vec::new(), flate2::Compression::default());
    enc.write_all(data).unwrap();
    enc.finish().unwrap()
}

#[test]
fn cache_hit_opens_without_fetch() {
    let a = store_step(StoreEvent::Checked { exists: true });
    assert!(matches!(a, StoreAction::Open));
}

#[test]
fn cache_miss_fetches() {
    let a = store_step(StoreEvent::Checked { exists: false });
    assert!(matches!(a, StoreAction::Fetch));
}

#[test]
fn transport_failure_is_network_error() {
    let a = store_step(StoreEvent::Fetched { body: None });
    assert!(matches!(
        a,
        StoreAction::Fail {
            err: HgtError::NetworkError
        }
    ));
}

#[test]
fn fetched_archive_is_inflated_for_writing() {
    let tile: Vec<u8> = (0u16..500).flat_map(|v| v.to_be_bytes()).collect();
    let body = gzip(&tile);
    assert_ne!(body, tile);
    match store_step(StoreEvent::Fetched { body: Some(body) }) {
        StoreAction::Write { tile: out } => assert_eq!(out, tile),
        _ => panic!("expected a write of the inflated tile"),
    }
}

#[test]
fn malformed_archive_is_decode_error() {
    let body = vec![0x1f, 0x8b, 0xff, 0x00, 0x01, 0x02];
    let a = store_step(StoreEvent::Fetched { body: Some(body) });
    assert!(matches!(
        a,
        StoreAction::Fail {
            err: HgtError::DecodeError
        }
    ));
}

#[test]
fn write_outcomes() {
    let a = store_step(StoreEvent::Written { ok: true });
    assert!(matches!(a, StoreAction::Open));
    let b = store_step(StoreEvent::Written { ok: false });
    assert!(matches!(
        b,
        StoreAction::Fail {
            err: HgtError::IoError
        }
    ));
}

#[test]
fn fetch_decompress_resolve_pipeline() {
    let lat = 45_833_641;
    let lon = 6_864_594;
    let off = earth_el::grid::sample_offset(lat, lon, 1201);
    let mut tile = vec![0u8; 2 * 1201 * 1201];
    let (hi, lo) = earth_el::grid::encode_sample(4740);
    tile[off] = hi;
    tile[off + 1] = lo;
    let body = gzip(&tile);

    let written = match store_step(StoreEvent::Fetched { body: Some(body) }) {
        StoreAction::Write { tile: out } => out,
        _ => panic!("expected a write action"),
    };
    assert_eq!(written.len(), 2 * 1201 * 1201);
    let r = EarthEl::get_elevation(lat, lon, written.len() as u64, &written);
    assert_eq!(r, Ok(4740));
}
