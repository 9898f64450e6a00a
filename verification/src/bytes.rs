//! Small helpers on byte vectors shared by the codec, the characteristic
//! resolver and the scan filter: appending, ASCII lowercasing, dash removal
//! and substring search.

use vstd::prelude::*;

verus! {

/// ASCII lowercase of a single byte.
pub open spec fn lower_byte(b: u8) -> u8 {
    if 65 <= b <= 90 {
        (b + 32) as u8
    } else {
        b
    }
}

/// ASCII lowercase of a byte sequence.
pub open spec fn lower_seq(s: Seq<u8>) -> Seq<u8> {
    s.map_values(|b: u8| lower_byte(b))
}

/// The sequence with every ASCII dash (`-`, byte 45) removed.
pub open spec fn strip_dashes_seq(s: Seq<u8>) -> Seq<u8>
    decreases s.len(),
{
    if s.len() == 0 {
        Seq::empty()
    } else {
        strip_dashes_seq(s.drop_last()) + (if s.last() == 45 {
            Seq::<u8>::empty()
        } else {
            seq![s.last()]
        })
    }
}

/// `needle` occurs in `hay` starting at index `i`.
pub open spec fn matches_at(hay: Seq<u8>, needle: Seq<u8>, i: int) -> bool {
    0 <= i && i + needle.len() <= hay.len() && hay.subrange(i, i + needle.len() as int) == needle
}

/// `needle` occurs somewhere in `hay` as a contiguous subsequence.
pub open spec fn contains_seq(hay: Seq<u8>, needle: Seq<u8>) -> bool {
    exists|i: int| matches_at(hay, needle, i)
}

/// Appends all of `src` to `dst`.
pub fn append_bytes(dst: &mut Vec<u8>, src: &[u8])
    ensures
        final(dst)@ == old(dst)@ + src@,
{
    let mut i: usize = 0;
    while i < src.len()
        invariant
            i <= src.len(),
            dst@ == old(dst)@ + src@.subrange(0, i as int),
        decreases src.len() - i,
    {
        dst.push(src[i]);
        i = i + 1;
        proof {
            assert(dst@ == old(dst)@ + src@.subrange(0, i as int)) by {
                assert(old(dst)@ + src@.subrange(0, i as int) =~= (old(dst)@ + src@.subrange(
                    0,
                    i - 1,
                )).push(src@[i - 1]));
            }
        }
    }
    proof {
        assert(src@.subrange(0, src@.len() as int) =~= src@);
    }
}

/// ASCII lowercase of a byte slice.
pub fn lower_ascii(src: &[u8]) -> (out: Vec<u8>)
    ensures
        out@ == lower_seq(src@),
{
    let mut out: Vec<u8> = Vec::new();
    let mut i: usize = 0;
    while i < src.len()
        invariant
            i <= src.len(),
            out@ == lower_seq(src@.subrange(0, i as int)),
        decreases src.len() - i,
    {
        let b = src[i];
        if 65 <= b && b <= 90 {
            out.push(b + 32);
        } else {
            out.push(b);
        }
        i = i + 1;
        proof {
            assert(out@ =~= lower_seq(src@.subrange(0, i as int)));
        }
    }
    proof {
        assert(src@.subrange(0, src@.len() as int) =~= src@);
    }
    out
}

/// Copy of a byte slice with every ASCII dash removed.
pub fn strip_dashes(src: &[u8]) -> (out: Vec<u8>)
    ensures
        out@ == strip_dashes_seq(src@),
{
    let mut out: Vec<u8> = Vec::new();
    let mut i: usize = 0;
    while i < src.len()
        invariant
            i <= src.len(),
            out@ == strip_dashes_seq(src@.subrange(0, i as int)),
        decreases src.len() - i,
    {
        let b = src[i];
        if b != 45 {
            out.push(b);
        }
        i = i + 1;
        proof {
            let prefix = src@.subrange(0, i as int);
            assert(prefix.drop_last() =~= src@.subrange(0, i - 1));
            assert(out@ =~= strip_dashes_seq(prefix));
        }
    }
    proof {
        assert(src@.subrange(0, src@.len() as int) =~= src@);
    }
    out
}

/// Whether `needle` occurs in `hay` starting exactly at index `i`.
fn matches_prefix_at(hay: &[u8], needle: &[u8], i: usize) -> (r: bool)
    requires
        i + needle@.len() <= hay@.len(),
    ensures
        r == matches_at(hay@, needle@, i as int),
{
    let hay_len = hay.len();
    let mut j: usize = 0;
    while j < needle.len()
        invariant
            i + needle@.len() <= hay@.len(),
            hay_len == hay@.len(),
            j <= needle@.len(),
            forall|k: int| 0 <= k < j ==> hay@[i + k] == needle@[k],
        decreases needle.len() - j,
    {
        if hay[i + j] != needle[j] {
            proof {
                assert(hay@.subrange(i as int, i + needle@.len() as int)[j as int] == hay@[i + j]);
            }
            return false;
        }
        j = j + 1;
    }
    proof {
        assert(hay@.subrange(i as int, i + needle@.len() as int) =~= needle@);
    }
    true
}

/// Substring search: whether `needle` occurs contiguously in `hay`.
pub fn contains_bytes(hay: &[u8], needle: &[u8]) -> (r: bool)
    ensures
        r == contains_seq(hay@, needle@),
{
    if needle.len() == 0 {
        proof {
            assert(matches_at(hay@, needle@, 0)) by {
                assert(hay@.subrange(0, 0) =~= needle@);
            }
        }
        return true;
    }
    if needle.len() > hay.len() {
        proof {
            assert forall|k: int| !matches_at(hay@, needle@, k) by {}
        }
        return false;
    }
    let last_start = hay.len() - needle.len();
    let mut i: usize = 0;
    while i <= last_start
        invariant
            1 <= needle@.len() <= hay@.len(),
            hay@.len() <= usize::MAX,
            last_start == hay@.len() - needle@.len(),
            i <= last_start + 1,
            forall|k: int| 0 <= k < i ==> !matches_at(hay@, needle@, k),
        decreases last_start + 1 - i,
    {
        if matches_prefix_at(hay, needle, i) {
            return true;
        }
        i = i + 1;
    }
    false
}

} // verus!
