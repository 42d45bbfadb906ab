//! Literal, case-sensitive substring search on UTF-8 text.

use vstd::prelude::*;
use vstd::utf8::encode_utf8;

verus! {

/// `needle` starts at position `i` of `hay`.
pub open spec fn occurs_at(needle: Seq<u8>, hay: Seq<u8>, i: int) -> bool {
    &&& 0 <= i
    &&& i + needle.len() <= hay.len()
    &&& hay.subrange(i, i + needle.len()) == needle
}

/// `needle` is a contiguous run of `hay`.
pub open spec fn occurs_in(needle: Seq<u8>, hay: Seq<u8>) -> bool {
    exists|i: int| occurs_at(needle, hay, i)
}

/// The text `hay` contains the text `pat`. Both are compared as their UTF-8
/// encodings, byte for byte: no case folding, no normalisation. The empty
/// text is contained in every text.
pub open spec fn contains_text(hay: Seq<char>, pat: Seq<char>) -> bool {
    occurs_in(encode_utf8(pat), encode_utf8(hay))
}

fn bytes_match_at(hay: &[u8], pat: &[u8], i: usize) -> (r: bool)
    requires
        i + pat@.len() <= hay@.len(),
    ensures
        r == occurs_at(pat@, hay@, i as int),
{
    let n = hay.len();
    let mut j: usize = 0;
    while j < pat.len()
        invariant
            n == hay@.len(),
            i + pat@.len() <= hay@.len(),
            j <= pat@.len(),
            forall|k: int| 0 <= k < j ==> hay@[i + k] == pat@[k],
        decreases pat@.len() - j,
    {
        if hay[i + j] != pat[j] {
            proof {
                let w = hay@.subrange(i as int, i + pat@.len());
                assert(w[j as int] != pat@[j as int]);
            }
            return false;
        }
        j += 1;
    }
    proof {
        assert(hay@.subrange(i as int, i + pat@.len()) =~= pat@);
    }
    true
}

/// Whether `pat` occurs in `hay`.
pub fn contains(hay: &str, pat: &str) -> (r: bool)
    ensures
        r == contains_text(hay@, pat@),
{
    let h = hay.as_bytes();
    let p = pat.as_bytes();
    if p.len() > h.len() {
        return false;
    }
    let last = h.len() - p.len();
    let mut i: usize = 0;
    while i < last
        invariant
            h@ == encode_utf8(hay@),
            p@ == encode_utf8(pat@),
            last == h@.len() - p@.len(),
            i <= last,
            forall|k: int| 0 <= k < i ==> !occurs_at(p@, h@, k),
        decreases last - i,
    {
        if bytes_match_at(h, p, i) {
            return true;
        }
        i += 1;
    }
    if bytes_match_at(h, p, last) {
        return true;
    }
    proof {
        assert forall|k: int| !occurs_at(p@, h@, k) by {
            if 0 <= k < i {
            }
        }
    }
    false
}

} // verus!
