use vstd::prelude::*;
use std::io::Read;
use std::io::Write;
use crate::status::Status;

verus! {

/// The XZ container that the fixed-level encoder produces for a given
/// byte sequence. The encoding depends on the input bytes alone.
pub uninterp spec fn xz_encoding(input: Seq<u8>) -> Seq<u8>;

/// What the XZ decoder makes of a byte sequence: the decoded payload when
/// the bytes form a well-formed container, nothing when it rejects them.
/// The outcome depends on the input bytes alone.
pub uninterp spec fn xz_decoding(container: Seq<u8>) -> Option<Seq<u8>>;

/// Relies on xz2's `write::XzEncoder` at preset 6: writing the whole input
/// and finishing the stream materializes the complete standard XZ container
/// for it, which a conformant decoder reads back to exactly the input.
/// An error surfaced by the encoder comes back as `None`.
#[verifier::external_body]
fn encode_with_xz(input: &[u8]) -> (r: Option<Vec<u8>>)
    ensures
        r matches Some(container) ==> container@ == xz_encoding(input@),
        r is Some ==> xz_decoding(xz_encoding(input@)) == Some(input@),
{
    let mut encoder = xz2::write::XzEncoder::new(Vec::new(), 6);
    if encoder.write_all(input).is_err() {
        return None;
    }
    match encoder.finish() {
        Ok(container) => Some(container),
        Err(_) => None,
    }
}

/// Relies on xz2's `read::XzDecoder`: reading the stream to its end yields
/// the decoded payload exactly when the input is a well-formed XZ container,
/// and fails (`None`) exactly when the decoder rejects the bytes; either
/// outcome is a function of the input bytes alone.
#[verifier::external_body]
fn decode_with_xz(container: &[u8]) -> (r: Option<Vec<u8>>)
    ensures
        r is Some <==> xz_decoding(container@) is Some,
        r matches Some(payload) ==> xz_decoding(container@) == Some(payload@),
{
    let mut decoder = xz2::read::XzDecoder::new(container);
    let mut payload = Vec::new();
    match decoder.read_to_end(&mut payload) {
        Ok(_) => Some(payload),
        Err(_) => None,
    }
}

/// Encode `input` as an XZ container at the fixed compression level.
/// On success the result is the container for `input`, and decoding it
/// yields `input` again; an encoder failure is reported as `IoFailure`.
pub fn compress_bytes(input: &[u8]) -> (r: Result<Vec<u8>, Status>)
    ensures
        r matches Ok(container) ==> {
            &&& container@ == xz_encoding(input@)
            &&& xz_decoding(container@) == Some(input@)
        },
        r matches Err(s) ==> s == Status::IoFailure,
{
    match encode_with_xz(input) {
        Some(container) => Ok(container),
        None => Err(Status::IoFailure),
    }
}

/// Decode an XZ container. Succeeds exactly on the byte sequences the
/// decoder accepts, with the decoded payload; anything malformed is
/// reported as `IoFailure`.
pub fn decompress_bytes(container: &[u8]) -> (r: Result<Vec<u8>, Status>)
    ensures
        r is Ok <==> xz_decoding(container@) is Some,
        r matches Ok(payload) ==> xz_decoding(container@) == Some(payload@),
        r matches Err(s) ==> s == Status::IoFailure,
{
    match decode_with_xz(container) {
        Some(payload) => Ok(payload),
        None => Err(Status::IoFailure),
    }
}

/// Round trip: decompressing whatever a successful compression produced
/// gives back the original bytes, byte for byte, for every input —
/// including the empty one. The only failure is the encoder's own, and
/// decompression never fails on a container that compression produced.
pub fn round_trip(input: &[u8]) -> (r: Result<Vec<u8>, Status>)
    ensures
        r matches Ok(payload) ==> payload@ == input@,
        r matches Err(s) ==> s == Status::IoFailure,
{
    let container = match compress_bytes(input) {
        Ok(container) => container,
        Err(s) => {
            return Err(s);
        },
    };
    match decompress_bytes(container.as_slice()) {
        Ok(payload) => Ok(payload),
        Err(s) => Err(s),
    }
}

} // verus!
