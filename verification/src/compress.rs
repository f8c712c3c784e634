//! The gzip layer under the bulk responses.
//!
//! Compression is the work of the `flate2` crate. What it returns is not
//! computed here but named: `gzip_of` and `gunzip_of` stand for what the
//! crate's encoder and decoder make of a byte string, failure included,
//! and the contracts of the bulk messages are stated over these names.

use std::io::Write;
use flate2::write::{GzDecoder, GzEncoder};
use flate2::Compression;
use vstd::prelude::*;
use crate::error::Error;

verus! {

/// What `flate2`'s encoder makes of `data` at its default level, with the
/// header it writes when none is configured: the gzip stream, or `None`
/// where the encoder reports an error.
pub uninterp spec fn gzip_of(data: Seq<u8>) -> Option<Seq<u8>>;

/// What `flate2`'s decoder of a single gzip member recovers from `blob`,
/// or `None` where it refuses `blob`.
pub uninterp spec fn gunzip_of(blob: Seq<u8>) -> Option<Seq<u8>>;

/// The gzip stream of `data`. It says nothing where the encoder fails.
pub open spec fn blob_of(data: Seq<u8>) -> Seq<u8>
    recommends
        gzip_of(data) is Some,
{
    gzip_of(data)->0
}

/// The encoder writes a stream for `data`, and the decoder recovers `data`
/// from it.
pub open spec fn gzip_round_trip(data: Seq<u8>) -> bool {
    gzip_of(data) matches Some(blob) && gunzip_of(blob) == Some(data)
}

/// Runs `flate2::write::GzEncoder` over `data` in one piece: `new` with an
/// empty vector and the default level, `write_all`, `finish`.
///
/// Claims that the result is `gzip_of(data)`: the stream that the encoder
/// hands back, or nothing where it reports an error; and that the decoder
/// recovers `data` from a stream that was handed back. Nothing is claimed
/// about when the encoder succeeds.
#[verifier::external_body]
fn gzip(data: &[u8]) -> (r: Option<Vec<u8>>)
    ensures
        r matches Some(blob) ==> gzip_of(data@) == Some(blob@) && gunzip_of(blob@) == Some(data@),
        r is None ==> gzip_of(data@) is None,
{
    let mut encoder = GzEncoder::new(Vec::new(), Compression::default());
    encoder.write_all(data).ok()?;
    encoder.finish().ok()
}

/// Runs `flate2::write::GzDecoder` over `blob` in one piece: `new` with an
/// empty vector, `write_all`, `finish`.
///
/// Claims that the result is `gunzip_of(blob)`: the recovered bytes, or
/// nothing where the decoder reports an error (a damaged or cut stream, a
/// checksum that does not match, bytes after the end of the member).
#[verifier::external_body]
fn gunzip(blob: &[u8]) -> (r: Option<Vec<u8>>)
    ensures
        r matches Some(data) ==> gunzip_of(blob@) == Some(data@),
        r is None ==> gunzip_of(blob@) is None,
{
    let mut decoder = GzDecoder::new(Vec::new());
    decoder.write_all(blob).ok()?;
    decoder.finish().ok()
}

/// Compresses `data`: the gzip stream that the encoder writes for it, from
/// which the decoder recovers `data`; or `CompressionFailure` exactly where
/// the encoder writes none.
pub fn compress_bytes(data: &[u8]) -> (r: Result<Vec<u8>, Error>)
    ensures
        r matches Ok(blob) ==> gzip_of(data@) == Some(blob@) && gunzip_of(blob@) == Some(data@),
        r matches Err(e) ==> e == Error::CompressionFailure && gzip_of(data@) is None,
{
    match gzip(data) {
        Some(blob) => Ok(blob),
        None => Err(Error::CompressionFailure),
    }
}

/// Decompresses `blob`: the bytes that the decoder recovers, or
/// `CompressionFailure` exactly where it refuses `blob`.
pub fn decompress_bytes(blob: &[u8]) -> (r: Result<Vec<u8>, Error>)
    ensures
        r matches Ok(data) ==> gunzip_of(blob@) == Some(data@),
        r matches Err(e) ==> e == Error::CompressionFailure && gunzip_of(blob@) is None,
{
    match gunzip(blob) {
        Some(data) => Ok(data),
        None => Err(Error::CompressionFailure),
    }
}

} // verus!
