//! Small byte-vector helpers shared across the crate.

use vstd::prelude::*;

verus! {

/// A clone of a byte is that byte.
pub(crate) proof fn lemma_cloned_byte(a: u8, b: u8)
    requires
        cloned::<u8>(a, b),
    ensures
        a == b,
{
}

/// Appends `src[0 .. k]` to `dst`.
pub(crate) fn append_prefix(dst: &mut Vec<u8>, src: &Vec<u8>, k: usize)
    requires
        k <= src@.len(),
    ensures
        final(dst)@ == old(dst)@ + src@.take(k as int),
{
    let mut i: usize = 0;
    proof {
        assert(dst@ =~= dst@ + src@.take(0));
    }
    while i < k
        invariant
            i <= k <= src@.len(),
            dst@ == old(dst)@ + src@.take(i as int),
        decreases k - i,
    {
        dst.push(src[i]);
        proof {
            assert(old(dst)@ + src@.take(i as int) + seq![src@[i as int]] =~= old(dst)@
                + src@.take(i + 1));
        }
        i = i + 1;
    }
}

/// Appends all of `src` to `dst`.
pub(crate) fn append_slice(dst: &mut Vec<u8>, src: &[u8])
    ensures
        final(dst)@ == old(dst)@ + src@,
{
    dst.extend_from_slice(src);
    proof {
        assert forall|i: int| old(dst)@.len() <= i < dst@.len() implies dst@[i] == src@[i - old(
            dst,
        )@.len()] by {
            lemma_cloned_byte(src@[i - old(dst)@.len()], dst@[i]);
        }
        assert(dst@ =~= old(dst)@ + src@);
    }
}

/// An exact copy of a byte vector.
pub(crate) fn clone_bytes(v: &Vec<u8>) -> (r: Vec<u8>)
    ensures
        r@ == v@,
{
    let r: Vec<u8> = v.clone();
    proof {
        assert forall|i: int| 0 <= i < r@.len() implies r@[i] == v@[i] by {
            lemma_cloned_byte(v@[i], r@[i]);
        }
        assert(r@ =~= v@);
    }
    r
}

} // verus!
