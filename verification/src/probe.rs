//! The two fixed-offset probes: the zip trailer at the end of a file and the
//! tar magic inside the first header block of a stream.

use vstd::prelude::*;
use crate::bytes::{matches_at, occurs_at};

verus! {

/// Length of a zip end-of-central-directory record that carries no comment.
pub const ZIP_TRAILER_LEN: usize = 22;

/// Offset of the magic field inside a tar header block.
pub const TAR_MAGIC_OFFSET: usize = 257;

/// Number of bytes the tar probe takes from the start of a stream: enough to
/// hold the longer of the two magic fields.
pub const TAR_PROBE_LEN: usize = 265;

/// Fewest leading bytes with which the tar probe can succeed: the header up to
/// the end of the six-byte POSIX magic.
pub const TAR_PROBE_MIN: usize = 263;

/// Signature that opens an end-of-central-directory record: `PK\x05\x06`.
pub open spec fn zip_trailer_signature() -> Seq<u8> {
    seq![0x50u8, 0x4bu8, 0x05u8, 0x06u8]
}

/// A comment-length field of zero.
pub open spec fn zip_empty_comment() -> Seq<u8> {
    seq![0x00u8, 0x00u8]
}

/// POSIX magic: `ustar` and a NUL.
pub open spec fn ustar_posix() -> Seq<u8> {
    seq![0x75u8, 0x73u8, 0x74u8, 0x61u8, 0x72u8, 0x00u8]
}

/// GNU magic: `ustar`, two spaces and a NUL.
pub open spec fn ustar_gnu() -> Seq<u8> {
    seq![0x75u8, 0x73u8, 0x74u8, 0x61u8, 0x72u8, 0x20u8, 0x20u8, 0x00u8]
}

/// The last 22 bytes of `content` are an end-of-central-directory record
/// without a comment: they open with the record's signature and close with a
/// comment length of zero.
pub open spec fn ends_with_zip_trailer(content: Seq<u8>) -> bool {
    &&& content.len() >= ZIP_TRAILER_LEN
    &&& occurs_at(content, content.len() - ZIP_TRAILER_LEN, zip_trailer_signature())
    &&& occurs_at(content, content.len() - 2, zip_empty_comment())
}

/// The bytes that the tar probe looks at: the first 265 of the stream, or all
/// of it where it is shorter.
pub open spec fn tar_probe_window(stream: Seq<u8>) -> Seq<u8> {
    if stream.len() <= TAR_PROBE_LEN {
        stream
    } else {
        stream.subrange(0, TAR_PROBE_LEN as int)
    }
}

/// The probed window holds at least 263 bytes and one of the two ustar magics
/// at offset 257.
pub open spec fn has_tar_magic(stream: Seq<u8>) -> bool {
    let window = tar_probe_window(stream);
    &&& window.len() >= TAR_PROBE_MIN
    &&& (occurs_at(window, TAR_MAGIC_OFFSET as int, ustar_posix()) || occurs_at(
        window,
        TAR_MAGIC_OFFSET as int,
        ustar_gnu(),
    ))
}

/// Looks for a zip end-of-central-directory record in the last 22 bytes of
/// `content`. A zip file with an archive comment, or with anything after the
/// record, is not found.
pub fn check_zip(content: &[u8]) -> (found: bool)
    ensures
        found == ends_with_zip_trailer(content@),
        content@.len() < 22 ==> !found,
{
    let len: usize = content.len();
    if len < ZIP_TRAILER_LEN {
        return false;
    }
    let signature: [u8; 4] = [0x50, 0x4b, 0x05, 0x06];
    let no_comment: [u8; 2] = [0x00, 0x00];
    assert(signature@ =~= zip_trailer_signature());
    assert(no_comment@ =~= zip_empty_comment());
    matches_at(content, len - ZIP_TRAILER_LEN, signature.as_slice()) && matches_at(
        content,
        len - 2,
        no_comment.as_slice(),
    )
}

/// Looks for a tar header at the start of `stream`: takes its first 265 bytes
/// and compares what stands at offset 257 with the two ustar magics. No
/// checksum is verified.
pub fn check_tar(stream: &[u8]) -> (found: bool)
    ensures
        found == has_tar_magic(stream@),
        stream@.len() < 263 ==> !found,
        stream@.len() >= 263 && stream@.subrange(257, 263) == ustar_posix() ==> found,
        stream@.len() >= 265 && stream@.subrange(257, 265) == ustar_gnu() ==> found,
{
    let len: usize = stream.len();
    if len < TAR_PROBE_MIN {
        return false;
    }
    let posix: [u8; 6] = [0x75, 0x73, 0x74, 0x61, 0x72, 0x00];
    let gnu: [u8; 8] = [0x75, 0x73, 0x74, 0x61, 0x72, 0x20, 0x20, 0x00];
    assert(posix@ =~= ustar_posix());
    assert(gnu@ =~= ustar_gnu());
    proof {
        let window = tar_probe_window(stream@);
        assert(window.subrange(257, 263) =~= stream@.subrange(257, 263));
        if len >= 265 {
            assert(window.subrange(257, 265) =~= stream@.subrange(257, 265));
        }
    }
    matches_at(stream, TAR_MAGIC_OFFSET, posix.as_slice()) || matches_at(
        stream,
        TAR_MAGIC_OFFSET,
        gnu.as_slice(),
    )
}

} // verus!
