//! Detection proper: the probes in their fixed order, and what a compressed
//! stream is reported as once its first bytes have been decoded.

use vstd::prelude::*;
use crate::codec::{
    bunzip2_first_read, bunzip2_head, bytes_of, gunzip_first_read, gunzip_head, gzip_header_ok,
    gzip_header_parses,
};
use crate::format::ArchiveType;
use crate::probe::{check_tar, check_zip, ends_with_zip_trailer, has_tar_magic, TAR_PROBE_LEN};
use crate::signature::{signature_of, sniff_signature, Signature};

verus! {

/// Whether decoded leading bytes show a tar archive. A stream whose first
/// read failed shows none.
pub open spec fn payload_is_tar(head: Option<Seq<u8>>) -> bool {
    match head {
        Some(bytes) => has_tar_magic(bytes),
        None => false,
    }
}

/// What a file with a gzip signature is reported as: nothing where its header
/// does not parse, else gzip, with a tar archive inside where the decoded
/// leading bytes show one.
pub open spec fn gzip_verdict(header_ok: bool, head: Option<Seq<u8>>) -> Option<ArchiveType> {
    if header_ok {
        Some(ArchiveType::Gzip { tar: payload_is_tar(head) })
    } else {
        None
    }
}

/// What a file with a bzip2 signature is reported as: bzip2, with a tar
/// archive inside where the decoded leading bytes show one.
pub open spec fn bzip2_verdict(head: Option<Seq<u8>>) -> ArchiveType {
    ArchiveType::Bzip2 { tar: payload_is_tar(head) }
}

/// The format of a file with the given content, once the decoders have said
/// whether the gzip header parses (`gzip_header`) and what the first 265
/// decoded bytes are (`gzip_head`, `bzip2_head`).
///
/// The zip trailer is tried first, then the tar magic in the raw content,
/// then the leading signatures. Only gzip and bzip2 are looked into.
pub open spec fn detected_with(
    content: Seq<u8>,
    gzip_header: bool,
    gzip_head: Option<Seq<u8>>,
    bzip2_head: Option<Seq<u8>>,
) -> Option<ArchiveType> {
    if ends_with_zip_trailer(content) {
        Some(ArchiveType::Zip)
    } else if has_tar_magic(content) {
        Some(ArchiveType::Tar)
    } else {
        match signature_of(content) {
            Some(Signature::Gzip) => gzip_verdict(gzip_header, gzip_head),
            Some(Signature::Bzip2) => Some(bzip2_verdict(bzip2_head)),
            Some(Signature::Xz) => Some(ArchiveType::Xz),
            Some(Signature::SevenZ) => Some(ArchiveType::SevenZ),
            Some(Signature::MSCabinet) => Some(ArchiveType::MSCabinet),
            None => None,
        }
    }
}

/// The format of a file with the given content, with the decoders' answers
/// for that content filled in.
pub open spec fn detected(content: Seq<u8>) -> Option<ArchiveType> {
    detected_with(
        content,
        gzip_header_parses(content),
        gunzip_first_read(content, TAR_PROBE_LEN as nat),
        bunzip2_first_read(content, TAR_PROBE_LEN as nat),
    )
}

/// Tells whether the first bytes decoded from a compressed stream show a tar
/// archive. `head` is what one read from the decoder gave, `None` where the
/// read failed.
pub fn wraps_tar(head: &Option<Vec<u8>>) -> (tar: bool)
    ensures
        tar == payload_is_tar(bytes_of(*head)),
{
    match head {
        Some(bytes) => check_tar(bytes.as_slice()),
        None => false,
    }
}

/// Settles a gzip signature: a header that does not parse makes the file
/// unknown, whatever the signature said.
pub fn resolve_gzip(header_ok: bool, head: &Option<Vec<u8>>) -> (verdict: Option<ArchiveType>)
    ensures
        verdict == gzip_verdict(header_ok, bytes_of(*head)),
{
    if header_ok {
        Some(ArchiveType::Gzip { tar: wraps_tar(head) })
    } else {
        None
    }
}

/// Settles a bzip2 signature. Opening a bzip2 decoder cannot fail, so the
/// file is always reported as bzip2.
pub fn resolve_bzip2(head: &Option<Vec<u8>>) -> (verdict: ArchiveType)
    ensures
        verdict == bzip2_verdict(bytes_of(*head)),
{
    ArchiveType::Bzip2 { tar: wraps_tar(head) }
}

/// Identifies the format of a file from its content.
///
/// Returns `None` for content that is no known archive, and for a gzip
/// signature that is followed by a malformed header.
pub fn detect_archive(content: &[u8]) -> (found: Option<ArchiveType>)
    ensures
        found == detected(content@),
        content@.len() < 2 ==> found is None,
{
    if check_zip(content) {
        return Some(ArchiveType::Zip);
    }
    if check_tar(content) {
        return Some(ArchiveType::Tar);
    }
    match sniff_signature(content) {
        Some(Signature::Gzip) => {
            let header_ok = gzip_header_ok(content);
            let head = gunzip_head(content, TAR_PROBE_LEN);
            resolve_gzip(header_ok, &head)
        },
        Some(Signature::Bzip2) => {
            let head = bunzip2_head(content, TAR_PROBE_LEN);
            Some(resolve_bzip2(&head))
        },
        Some(Signature::Xz) => Some(ArchiveType::Xz),
        Some(Signature::SevenZ) => Some(ArchiveType::SevenZ),
        Some(Signature::MSCabinet) => Some(ArchiveType::MSCabinet),
        None => None,
    }
}

/// Detection is a function of the content: two files with the same bytes are
/// classified alike, however often and from wherever they are read.
pub proof fn lemma_detection_deterministic(first: Seq<u8>, second: Seq<u8>)
    requires
        first =~= second,
    ensures
        detected(first) == detected(second),
{
}

} // verus!
