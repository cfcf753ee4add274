//! The magic byte sequences with which compressed files and archives open.

use vstd::prelude::*;
use crate::bytes::{matches_at, occurs_at};

verus! {

/// A format that is known by the bytes at the very start of a file.
#[derive(Clone, Copy, Debug, PartialEq, Eq, Structural)]
pub enum Signature {
    Gzip,
    Bzip2,
    Xz,
    SevenZ,
    MSCabinet,
}

impl Signature {
    /// The bytes with which a file of this format begins.
    pub open spec fn magic(self) -> Seq<u8> {
        match self {
            Signature::Gzip => seq![0x1fu8, 0x8bu8],
            Signature::Bzip2 => seq![0x42u8, 0x5au8, 0x68u8],
            Signature::Xz => seq![0xfdu8, 0x37u8, 0x7au8, 0x58u8, 0x5au8, 0x00u8],
            Signature::SevenZ => seq![0x37u8, 0x7au8, 0xbcu8, 0xafu8, 0x27u8, 0x1cu8],
            Signature::MSCabinet => seq![0x4du8, 0x53u8, 0x43u8, 0x46u8],
        }
    }

    /// `content` begins with this format's magic.
    pub open spec fn opens(self, content: Seq<u8>) -> bool {
        occurs_at(content, 0, self.magic())
    }
}

/// Number of leading bytes that suffice to tell the signature.
pub const LOOKAHEAD_LEN: usize = 32;

/// The first 32 bytes of `content`, or all of it where it is shorter.
pub open spec fn lookahead(content: Seq<u8>) -> Seq<u8> {
    if content.len() <= LOOKAHEAD_LEN {
        content
    } else {
        content.subrange(0, LOOKAHEAD_LEN as int)
    }
}

/// The signature with which `content` begins, tried in the order gzip, bzip2,
/// xz, 7z, cabinet.
pub open spec fn signature_of(content: Seq<u8>) -> Option<Signature> {
    if Signature::Gzip.opens(content) {
        Some(Signature::Gzip)
    } else if Signature::Bzip2.opens(content) {
        Some(Signature::Bzip2)
    } else if Signature::Xz.opens(content) {
        Some(Signature::Xz)
    } else if Signature::SevenZ.opens(content) {
        Some(Signature::SevenZ)
    } else if Signature::MSCabinet.opens(content) {
        Some(Signature::MSCabinet)
    } else {
        None
    }
}

/// Compares the start of `content` with each known magic, in the order of
/// `signature_of`, and reports the first that matches.
pub fn sniff_signature(content: &[u8]) -> (found: Option<Signature>)
    ensures
        found == signature_of(content@),
        found matches Some(s) ==> s.opens(content@),
        content@.len() < 2 ==> found is None,
{
    let gzip: [u8; 2] = [0x1f, 0x8b];
    let bzip2: [u8; 3] = [0x42, 0x5a, 0x68];
    let xz: [u8; 6] = [0xfd, 0x37, 0x7a, 0x58, 0x5a, 0x00];
    let seven_z: [u8; 6] = [0x37, 0x7a, 0xbc, 0xaf, 0x27, 0x1c];
    let cabinet: [u8; 4] = [0x4d, 0x53, 0x43, 0x46];
    assert(gzip@ =~= Signature::Gzip.magic());
    assert(bzip2@ =~= Signature::Bzip2.magic());
    assert(xz@ =~= Signature::Xz.magic());
    assert(seven_z@ =~= Signature::SevenZ.magic());
    assert(cabinet@ =~= Signature::MSCabinet.magic());
    if matches_at(content, 0, gzip.as_slice()) {
        Some(Signature::Gzip)
    } else if matches_at(content, 0, bzip2.as_slice()) {
        Some(Signature::Bzip2)
    } else if matches_at(content, 0, xz.as_slice()) {
        Some(Signature::Xz)
    } else if matches_at(content, 0, seven_z.as_slice()) {
        Some(Signature::SevenZ)
    } else if matches_at(content, 0, cabinet.as_slice()) {
        Some(Signature::MSCabinet)
    } else {
        None
    }
}

/// No content begins with the magics of two different formats, so the order
/// in which they are tried decides nothing: `signature_of` reports a format
/// exactly when the content opens with that format's magic.
pub proof fn lemma_signatures_exclusive(content: Seq<u8>, s: Signature)
    ensures
        signature_of(content) == Some(s) <==> s.opens(content),
{
    assert(Signature::Gzip.magic()[0] == 0x1fu8);
    assert(Signature::Bzip2.magic()[0] == 0x42u8);
    assert(Signature::Xz.magic()[0] == 0xfdu8);
    assert(Signature::SevenZ.magic()[0] == 0x37u8);
    assert(Signature::MSCabinet.magic()[0] == 0x4du8);
    assert forall|t: Signature| #[trigger] t.opens(content) implies content[0] == t.magic()[0] by {
        assert(content.subrange(0, t.magic().len() as int)[0] == content[0]);
    }
}

/// The signature is decided by the first 32 bytes: whatever follows them
/// changes nothing.
pub proof fn lemma_lookahead_suffices(content: Seq<u8>)
    ensures
        signature_of(lookahead(content)) == signature_of(content),
{
    let look = lookahead(content);
    assert forall|s: Signature| s.opens(look) == s.opens(content) by {
        let n = s.magic().len() as int;
        assert(n <= 6);
        if n <= look.len() {
            assert(look.subrange(0, n) =~= content.subrange(0, n));
        }
    }
}

} // verus!
