//! The decompressors, as far as detection needs them: whether a gzip header
//! parses, and the first bytes that come out of a gzip or bzip2 stream.
//!
//! Decoding is left to the `flate2` and `bzip2` crates. Nothing in this module
//! is proved: each function states what it takes from the decoder, and the
//! rest of the library reasons from those statements alone.

use std::io::Read;
use vstd::prelude::*;

verus! {

/// The bytes of a buffer that a decoder may or may not have filled.
pub open spec fn bytes_of(head: Option<Vec<u8>>) -> Option<Seq<u8>> {
    match head {
        Some(bytes) => Some(bytes@),
        None => None,
    }
}

/// Whether `flate2` accepts the gzip member header at the start of `content`.
pub uninterp spec fn gzip_header_parses(content: Seq<u8>) -> bool;

/// What the first read of at most `limit` bytes from a `flate2` gzip decoder
/// over `content` gives: the decoded bytes, or `None` where the read fails.
pub uninterp spec fn gunzip_first_read(content: Seq<u8>, limit: nat) -> Option<Seq<u8>>;

/// What the first read of at most `limit` bytes from a `bzip2` decoder over
/// `content` gives: the decoded bytes, or `None` where the read fails.
pub uninterp spec fn bunzip2_first_read(content: Seq<u8>, limit: nat) -> Option<Seq<u8>>;

/// Opens a gzip decoder over `content` with `flate2::bufread::GzDecoder::new`,
/// which parses the member header at once, and asks it with `header` whether
/// that header was valid. The answer depends on `content` alone.
#[verifier::external_body]
pub(crate) fn gzip_header_ok(content: &[u8]) -> (ok: bool)
    ensures
        ok == gzip_header_parses(content@),
{
    flate2::bufread::GzDecoder::new(content).header().is_some()
}

/// Opens a gzip decoder over `content` and reads from it once, with `read` of
/// `flate2::bufread::GzDecoder`, into a buffer of `limit` bytes. Hands back the
/// bytes that this read produced, or `None` where it reported an error. The
/// outcome depends on `content` and `limit` alone.
#[verifier::external_body]
pub(crate) fn gunzip_head(content: &[u8], limit: usize) -> (head: Option<Vec<u8>>)
    ensures
        bytes_of(head) == gunzip_first_read(content@, limit as nat),
{
    let mut buffer = vec![0u8; limit];
    match flate2::bufread::GzDecoder::new(content).read(&mut buffer) {
        Ok(n) => {
            buffer.truncate(n);
            Some(buffer)
        },
        Err(_) => None,
    }
}

/// Opens a bzip2 decoder over `content` and reads from it once, with `read` of
/// `bzip2::bufread::BzDecoder`, into a buffer of `limit` bytes. Hands back the
/// bytes that this read produced, or `None` where it reported an error. The
/// outcome depends on `content` and `limit` alone.
#[verifier::external_body]
pub(crate) fn bunzip2_head(content: &[u8], limit: usize) -> (head: Option<Vec<u8>>)
    ensures
        bytes_of(head) == bunzip2_first_read(content@, limit as nat),
{
    let mut buffer = vec![0u8; limit];
    match bzip2::bufread::BzDecoder::new(content).read(&mut buffer) {
        Ok(n) => {
            buffer.truncate(n);
            Some(buffer)
        },
        Err(_) => None,
    }
}

} // verus!
