//! Comparing a fixed byte pattern with a window of a byte sequence.

use vstd::prelude::*;

verus! {

/// `pattern` lies in `data`, starting at index `at`.
pub open spec fn occurs_at(data: Seq<u8>, at: int, pattern: Seq<u8>) -> bool {
    &&& 0 <= at
    &&& at + pattern.len() <= data.len()
    &&& data.subrange(at, at + pattern.len()) == pattern
}

/// Tells whether `pattern` lies in `data` at index `at`. A window that
/// reaches past the end of `data` never matches.
pub fn matches_at(data: &[u8], at: usize, pattern: &[u8]) -> (found: bool)
    ensures
        found == occurs_at(data@, at as int, pattern@),
{
    let n: usize = pattern.len();
    let len: usize = data.len();
    if n > len || at > len - n {
        return false;
    }
    let mut i: usize = 0;
    while i < n
        invariant
            n == pattern@.len(),
            len == data@.len(),
            at + n <= len,
            i <= n,
            forall|k: int| 0 <= k < i ==> data@[at + k] == pattern@[k],
        decreases n - i,
    {
        if data[at + i] != pattern[i] {
            assert(data@.subrange(at as int, at + n)[i as int] != pattern@[i as int]);
            return false;
        }
        i += 1;
    }
    assert(data@.subrange(at as int, at + n) =~= pattern@);
    true
}

} // verus!
