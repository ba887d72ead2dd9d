//! Decoding gzip streams.

use crate::archive::ArchiveError;
use std::io::Read;
use vstd::prelude::*;

verus! {

/// The error of `std::io`, which the decoder fails with. Nothing is known
/// of what it holds.
#[verifier::external_type_specification]
#[verifier::external_body]
pub struct ExIoError(std::io::Error);

/// What the first member of the gzip stream `data` holds once it is decoded,
/// or `None` where `data` does not decode as gzip.
pub uninterp spec fn gzip_decoded(data: Seq<u8>) -> Option<Seq<u8>>;

/// Decodes the first member of the gzip stream `data` with
/// `flate2::read::GzDecoder`, read to its end.
///
/// Trusted: the decoder yields the same bytes for the same data, and fails
/// on the same data; nothing more is claimed of what those bytes are.
#[verifier::external_body]
fn gunzip(data: &[u8]) -> (r: Result<Vec<u8>, std::io::Error>)
    ensures
        match r {
            Ok(decoded) => gzip_decoded(data@) == Some(decoded@),
            Err(_) => gzip_decoded(data@) is None,
        },
{
    let mut decoded = Vec::new();
    flate2::read::GzDecoder::new(data).read_to_end(&mut decoded)?;
    Ok(decoded)
}

/// What decoding gave, with its failure as an error of this library: the
/// decoded bytes, or the error that the data could not be decoded.
pub fn decoded_stream(decoded: Result<Vec<u8>, std::io::Error>) -> (r: Result<
    Vec<u8>,
    ArchiveError,
>)
    ensures
        match decoded {
            Ok(stream) => r == Ok::<Vec<u8>, ArchiveError>(stream),
            Err(_) => r == Err::<Vec<u8>, ArchiveError>(ArchiveError::Decoding),
        },
{
    match decoded {
        Ok(stream) => Ok(stream),
        Err(_) => Err(ArchiveError::Decoding),
    }
}

/// Decodes the first member of the gzip stream `compressed_data`. Data that
/// does not decode is an error.
pub fn decode_gzip(compressed_data: &[u8]) -> (r: Result<Vec<u8>, ArchiveError>)
    ensures
        match r {
            Ok(stream) => gzip_decoded(compressed_data@) == Some(stream@),
            Err(e) => gzip_decoded(compressed_data@) is None && e == ArchiveError::Decoding,
        },
{
    decoded_stream(gunzip(compressed_data))
}

} // verus!
