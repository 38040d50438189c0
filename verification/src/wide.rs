//! Trimming the UTF-16 buffers that window-identity resolution hands
//! back: the platform fills a fixed buffer and terminates the text
//! with a NUL unit, which must not end up in the decoded string.

use vstd::prelude::*;

verus! {

/// The code units of `buf` strictly before its first NUL unit, or all
/// of `buf` when it contains none.
pub fn units_before_nul(buf: &Vec<u16>) -> (r: Vec<u16>)
    ensures
        r@.len() <= buf@.len(),
        r@ == buf@.subrange(0, r@.len() as int),
        forall|j: int| 0 <= j < r@.len() ==> r@[j] != 0,
        r@.len() < buf@.len() ==> buf@[r@.len() as int] == 0,
{
    let n: usize = buf.len();
    let mut out: Vec<u16> = Vec::new();
    let mut i: usize = 0;
    while i < n
        invariant
            i <= n,
            n == buf@.len(),
            out@.len() == i,
            out@ =~= buf@.subrange(0, i as int),
            forall|j: int| 0 <= j < i ==> buf@[j] != 0,
        decreases n - i,
    {
        if buf[i] == 0 {
            proof {
                assert(out@ == buf@.subrange(0, out@.len() as int));
            }
            return out;
        }
        out.push(buf[i]);
        i += 1;
    }
    proof {
        assert(out@ == buf@.subrange(0, out@.len() as int));
    }
    out
}

} // verus!
