use vstd::prelude::*;

verus! {

/// Converts 16-bit BGRA samples to the 15-bit range used by the host's
/// 16u pixel format: every copied sample is shifted right by one bit.
/// Only `min(src.len(), dst.len())` samples are written; the rest of `dst`
/// is left untouched.
pub fn bgra64_to_u16_shift(src: &[u16], dst: &mut [u16])
    ensures
        final(dst)@.len() == old(dst)@.len(),
        forall|i: int|
            0 <= i < final(dst)@.len() ==> #[trigger] final(dst)@[i] == (if i < src@.len() {
                (src@[i] / 2) as u16
            } else {
                old(dst)@[i]
            }),
{
    let len = if src.len() < dst.len() { src.len() } else { dst.len() };
    let mut i: usize = 0;
    while i < len
        invariant
            len <= src@.len(),
            len <= dst@.len(),
            len == src@.len() || len == old(dst)@.len(),
            i <= len,
            dst@.len() == old(dst)@.len(),
            forall|j: int|
                0 <= j < dst@.len() ==> #[trigger] dst@[j] == (if j < i {
                    (src@[j] / 2) as u16
                } else {
                    old(dst)@[j]
                }),
        decreases len - i,
    {
        let v: u16 = src[i];
        assert(v >> 1 == v / 2) by (bit_vector);
        dst[i] = v >> 1;
        i = i + 1;
    }
}

} // verus!
