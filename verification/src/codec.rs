//! The wire format of a transfer: one zlib stream that holds the bytes of
//! the artifact, and nothing else. There is no length prefix, checksum or
//! framing around it.
//!
//! Compression and decompression are done by `flate2`. What this module
//! states about them is not proved here: it is what `flate2` documents.

use vstd::prelude::*;

use crate::failure::Failure;

verus! {

/// An error of the standard library's I/O layer. `flate2` reports a stream it
/// cannot read as one of these.
#[verifier::external_type_specification]
#[verifier::external_body]
pub struct ExIoError(std::io::Error);

/// What reading a `flate2::bufread::ZlibEncoder` over `data` to its end gives
/// with the fast compression level, and `None` where the read fails.
pub uninterp spec fn deflated(data: Seq<u8>) -> Option<Seq<u8>>;

/// What reading a `flate2::bufread::ZlibDecoder` over `wire` to its end
/// gives, and `None` where the read fails: where `wire` does not start with a
/// complete, well-formed zlib stream.
pub uninterp spec fn inflated(wire: Seq<u8>) -> Option<Seq<u8>>;

/// Reads a `flate2::bufread::ZlibEncoder` over `data`, made with
/// `Compression::fast()`, to its end.
///
/// Trusted: the bytes read are a function of `data` alone, and they are a
/// zlib stream that a `ZlibDecoder` reads back as `data`.
#[verifier::external_body]
fn zlib_compress(data: &[u8]) -> (wire: Result<Vec<u8>, std::io::Error>)
    ensures
        match wire {
            Ok(bytes) => deflated(data@) == Some(bytes@) && inflated(bytes@) == Some(data@),
            Err(_) => deflated(data@) is None,
        },
{
    let mut bytes = Vec::new();
    let mut encoder = flate2::bufread::ZlibEncoder::new(data, flate2::Compression::fast());
    std::io::Read::read_to_end(&mut encoder, &mut bytes)?;
    Ok(bytes)
}

/// Reads a `flate2::bufread::ZlibDecoder` over `wire` to its end.
///
/// Trusted: whether the read succeeds, and the bytes it gives, are a function
/// of `wire` alone.
#[verifier::external_body]
fn zlib_decompress(wire: &[u8]) -> (data: Result<Vec<u8>, std::io::Error>)
    ensures
        match data {
            Ok(bytes) => inflated(wire@) == Some(bytes@),
            Err(_) => inflated(wire@) is None,
        },
{
    let mut bytes = Vec::new();
    let mut decoder = flate2::bufread::ZlibDecoder::new(wire);
    std::io::Read::read_to_end(&mut decoder, &mut bytes)?;
    Ok(bytes)
}

/// The bytes of a result, and `None` for a failure.
pub open spec fn bytes_of(outcome: Result<Vec<u8>, Failure>) -> Option<Seq<u8>> {
    match outcome {
        Ok(bytes) => Some(bytes@),
        Err(_) => None,
    }
}

/// Compresses `data` into the stream that goes over the wire, favouring
/// speed over size.
///
/// Decoding what this returns gives `data` back, byte for byte.
pub fn encode(data: &[u8]) -> (wire: Result<Vec<u8>, Failure>)
    ensures
        bytes_of(wire) == deflated(data@),
        wire is Err ==> wire == Err::<Vec<u8>, Failure>(Failure::Codec),
        wire matches Ok(bytes) ==> inflated(bytes@) == Some(data@),
{
    match zlib_compress(data) {
        Ok(bytes) => Ok(bytes),
        Err(_) => Err(Failure::Codec),
    }
}

/// Decompresses a stream that came over the wire. A stream that is cut
/// short or damaged is refused with [`Failure::Codec`].
pub fn decode(wire: &[u8]) -> (data: Result<Vec<u8>, Failure>)
    ensures
        bytes_of(data) == inflated(wire@),
        data is Err ==> data == Err::<Vec<u8>, Failure>(Failure::Codec),
{
    match zlib_decompress(wire) {
        Ok(bytes) => Ok(bytes),
        Err(_) => Err(Failure::Codec),
    }
}

} // verus!
