//! The tile store: the decisions that materialise a tile in the local
//! cache, and the gzip decompression they lean on.
//!
//! The store itself touches no disk and no network. A caller drives it:
//! it reports what it observed as a [`StoreEvent`] and performs the
//! [`StoreAction`] handed back, until the action is `Open` or `Fail`.
//! A fetched archive is decompressed in memory; the caller writes the
//! tile to a temporary path and renames it into the cache path only on
//! full success, so no partially written tile is ever observable at the
//! cache path.
use vstd::prelude::*;

use crate::error::HgtError;

verus! {

/// The bytes a well-formed gzip stream inflates to; a function of the
/// compressed bytes alone.
pub uninterp spec fn gunzip_of(gz: Seq<u8>) -> Seq<u8>;

/// Whether a byte sequence is a well-formed gzip stream — whether
/// inflating it succeeds; a function of the bytes alone.
pub uninterp spec fn gunzip_ok(gz: Seq<u8>) -> bool;

#[verifier::external_type_specification]
#[verifier::external_body]
pub struct ExIoError(std::io::Error);

/// Relies on `flate2::read::GzDecoder`, driven to the end of its stream
/// by `std::io::Read::read_to_end`: inflates a gzip stream. The source
/// reads only from the byte slice, so both whether inflation succeeds
/// (header, CRC, and length checks) and what it inflates to are
/// functions of the compressed bytes alone; a malformed stream is
/// reported as an error, never as bytes.
#[verifier::external_body]
fn gunzip(gz: &Vec<u8>) -> (r: Result<Vec<u8>, std::io::Error>)
    ensures
        r is Ok <==> gunzip_ok(gz@),
        r matches Ok(out) ==> out@ == gunzip_of(gz@),
{
    let mut decoder = flate2::read::GzDecoder::new(gz.as_slice());
    let mut out: Vec<u8> = Vec::new();
    match std::io::Read::read_to_end(&mut decoder, &mut out) {
        Ok(_) => Ok(out),
        Err(e) => Err(e),
    }
}

/// Inflates a fetched archive into tile bytes: a well-formed stream
/// yields exactly its inflation, and a malformed stream is a
/// `DecodeError`, never bytes.
pub fn decompress_tile(gz: &Vec<u8>) -> (r: Result<Vec<u8>, HgtError>)
    ensures
        r is Ok <==> gunzip_ok(gz@),
        r matches Ok(out) ==> out@ == gunzip_of(gz@),
        r is Err ==> r == Err::<Vec<u8>, HgtError>(HgtError::DecodeError),
{
    match gunzip(gz) {
        Ok(tile) => Ok(tile),
        Err(_) => Err(HgtError::DecodeError),
    }
}

/// What the caller observed while carrying out the previous action.
pub enum StoreEvent {
    /// Whether a file already exists at the tile's cache path.
    Checked { exists: bool },
    /// The outcome of the network fetch: the archive's bytes, or
    /// nothing on transport failure or a non-success status.
    Fetched { body: Option<Vec<u8>> },
    /// Whether the tile bytes were written to the temporary path and
    /// renamed into the cache path.
    Written { ok: bool },
}

/// What the caller is to do next.
pub enum StoreAction {
    /// Open and read the file at the tile's cache path.
    Open,
    /// Fetch the tile's remote archive.
    Fetch,
    /// Write these tile bytes to the tile's temporary path, then rename
    /// that file onto the cache path.
    Write { tile: Vec<u8> },
    /// Give up and surface this error.
    Fail { err: HgtError },
}

/// One decision of the store: the next action after an observation.
///
/// A cache hit is served as it stands — no fetch, no validation — so a
/// second lookup of a cached tile never touches the network. A fetched
/// well-formed archive is handed out for writing as exactly its full
/// inflation; a malformed one fails the lookup with `DecodeError`.
pub fn store_step(event: StoreEvent) -> (a: StoreAction)
    ensures
        event matches StoreEvent::Checked { exists: true } ==> a == StoreAction::Open,
        event matches StoreEvent::Checked { exists: false } ==> a == StoreAction::Fetch,
        event matches StoreEvent::Fetched { body: None } ==> a == (StoreAction::Fail {
            err: HgtError::NetworkError,
        }),
        event matches StoreEvent::Fetched { body: Some(gz) } ==> if gunzip_ok(gz@) {
            a matches StoreAction::Write { tile } && tile@ == gunzip_of(gz@)
        } else {
            a == (StoreAction::Fail { err: HgtError::DecodeError })
        },
        event matches StoreEvent::Written { ok: true } ==> a == StoreAction::Open,
        event matches StoreEvent::Written { ok: false } ==> a == (StoreAction::Fail {
            err: HgtError::IoError,
        }),
{
    match event {
        StoreEvent::Checked { exists } => {
            if exists {
                StoreAction::Open
            } else {
                StoreAction::Fetch
            }
        },
        StoreEvent::Fetched { body } => {
            match body {
                None => StoreAction::Fail { err: HgtError::NetworkError },
                Some(gz) => {
                    match decompress_tile(&gz) {
                        Ok(tile) => StoreAction::Write { tile },
                        Err(err) => StoreAction::Fail { err },
                    }
                },
            }
        },
        StoreEvent::Written { ok } => {
            if ok {
                StoreAction::Open
            } else {
                StoreAction::Fail { err: HgtError::IoError }
            }
        },
    }
}

} // verus!
