//! Pixel-format swizzling for software buffers.
//!
//! A buffer of 32-bit pixels is converted between BGRA and RGBA byte order by
//! swapping the first and third byte of every complete four-byte pixel; a
//! trailing partial pixel is left untouched.

use vstd::prelude::*;

verus! {

/// Length of the prefix of `s` made of complete four-byte pixels.
pub open spec fn pixel_prefix_len(s: Seq<u8>) -> int {
    s.len() - (s.len() % 4)
}

/// The byte at position `i` after the swizzle: within each complete pixel the
/// first and third byte trade places, all other bytes stay.
pub open spec fn swizzled_byte(s: Seq<u8>, i: int) -> u8 {
    if i < pixel_prefix_len(s) {
        if i % 4 == 0 {
            s[i + 2]
        } else if i % 4 == 2 {
            s[i - 2]
        } else {
            s[i]
        }
    } else {
        s[i]
    }
}

/// The whole buffer after the swizzle.
pub open spec fn swizzled(s: Seq<u8>) -> Seq<u8> {
    Seq::new(s.len(), |i: int| swizzled_byte(s, i))
}

/// Converting twice restores the original buffer: the swizzle is an
/// involution, so one routine serves both directions of the conversion.
pub proof fn law_swizzle_involution(s: Seq<u8>)
    ensures
        swizzled(swizzled(s)) =~= s,
{
    assert forall|i: int| 0 <= i < s.len() implies swizzled(swizzled(s))[i] == s[i] by {
        assert(swizzled(s).len() == s.len());
        if i < pixel_prefix_len(s) {
            if i % 4 == 0 {
                assert((i + 2) % 4 == 2);
            } else if i % 4 == 2 {
                assert((i - 2) % 4 == 0);
            }
        }
    }
}

/// Swap the first and third byte of every complete four-byte pixel in place.
pub fn swizzle_scalar(data: &mut Vec<u8>)
    ensures
        final(data)@ == swizzled(old(data)@),
{
    let n = data.len();
    let m = n - n % 4;
    let mut i: usize = 0;
    while i < m
        invariant
            i % 4 == 0,
            i <= m,
            m == n - n % 4,
            n == data@.len(),
            n == old(data)@.len(),
            forall|j: int| 0 <= j < i ==> data@[j] == swizzled_byte(old(data)@, j),
            forall|j: int| i <= j < n ==> data@[j] == old(data)@[j],
        decreases m - i,
    {
        let a = data[i];
        let b = data[i + 2];
        data.set(i, b);
        data.set(i + 2, a);
        i = i + 4;
    }
    assert(data@ =~= swizzled(old(data)@));
}

/// Swizzles a BGRA8888 buffer to RGBA8888 (or vice versa).
pub fn swizzle_bgra_rgba(data: &mut Vec<u8>)
    ensures
        final(data)@ == swizzled(old(data)@),
{
    swizzle_scalar(data)
}

} // verus!
