//! Byte-sequence comparison primitives used by the origin policy and the
//! target-address helpers.

use vstd::prelude::*;

verus! {

/// `p` is an initial run of `s`.
pub open spec fn is_prefix_of(p: Seq<u8>, s: Seq<u8>) -> bool {
    p.len() <= s.len() && s.subrange(0, p.len() as int) == p
}

/// `p` is a final run of `s`.
pub open spec fn is_suffix_of(p: Seq<u8>, s: Seq<u8>) -> bool {
    p.len() <= s.len() && s.subrange(s.len() - p.len(), s.len() as int) == p
}

/// Compares the `len` bytes of `a` starting at `a_from` with the `len` bytes
/// of `b` starting at `b_from`.
pub fn range_eq(a: &Vec<u8>, a_from: usize, b: &Vec<u8>, b_from: usize, len: usize) -> (r: bool)
    requires
        a_from + len <= a@.len(),
        b_from + len <= b@.len(),
    ensures
        r == (a@.subrange(a_from as int, a_from + len) == b@.subrange(
            b_from as int,
            b_from + len,
        )),
{
    let a_len = a.len();
    let b_len = b.len();
    let mut i: usize = 0;
    while i < len
        invariant
            0 <= i <= len,
            a_from + len <= a_len == a@.len(),
            b_from + len <= b_len == b@.len(),
            forall|k: int| 0 <= k < i ==> a@[a_from + k] == #[trigger] b@[b_from + k],
        decreases len - i,
    {
        if a[a_from + i] != b[b_from + i] {
            proof {
                let sa = a@.subrange(a_from as int, a_from + len);
                let sb = b@.subrange(b_from as int, b_from + len);
                assert(sa[i as int] != sb[i as int]);
            }
            return false;
        }
        i = i + 1;
    }
    proof {
        let sa = a@.subrange(a_from as int, a_from + len);
        let sb = b@.subrange(b_from as int, b_from + len);
        assert forall|k: int| 0 <= k < len as int implies sa[k] == sb[k] by {
            assert(a@[a_from + k] == b@[b_from + k]);
        }
        assert(sa =~= sb);
    }
    true
}

/// True when `s` begins with `p`.
pub fn has_prefix(s: &Vec<u8>, p: &Vec<u8>) -> (r: bool)
    ensures
        r == is_prefix_of(p@, s@),
{
    if p.len() > s.len() {
        return false;
    }
    let r = range_eq(s, 0, p, 0, p.len());
    proof {
        assert(p@.subrange(0, p@.len() as int) =~= p@);
    }
    r
}

/// Appends the bytes of `src` to `dst`.
pub fn append_bytes(dst: &mut Vec<u8>, src: &Vec<u8>)
    ensures
        final(dst)@ == old(dst)@ + src@,
{
    let ghost dst0 = dst@;
    let n = src.len();
    let mut i: usize = 0;
    while i < n
        invariant
            0 <= i <= n,
            n == src@.len(),
            dst@ == dst0 + src@.subrange(0, i as int),
        decreases n - i,
    {
        dst.push(src[i]);
        proof {
            assert(dst@ =~= dst0 + src@.subrange(0, i + 1));
        }
        i = i + 1;
    }
    proof {
        assert(src@.subrange(0, n as int) =~= src@);
    }
}

} // verus!
