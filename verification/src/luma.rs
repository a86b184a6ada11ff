//! The luminance of a pixel and of a whole RGBA buffer, as mathematics.

use vstd::prelude::*;

verus! {

/// Weight of the red channel, in ten-thousandths.
pub const RED_WEIGHT: u32 = 2126;

/// Weight of the green channel, in ten-thousandths.
pub const GREEN_WEIGHT: u32 = 7152;

/// Weight of the blue channel, in ten-thousandths.
pub const BLUE_WEIGHT: u32 = 722;

/// The sum of the three weights.
pub const WEIGHT_SCALE: u32 = 10000;

/// The weighted sum of the three colour channels, before it is scaled down.
pub open spec fn weighted_sum(r: u8, g: u8, b: u8) -> int {
    RED_WEIGHT * r + GREEN_WEIGHT * g + BLUE_WEIGHT * b
}

/// The luminance byte of one pixel: the weighted sum of red, green and blue
/// with the sRGB weights 0.2126, 0.7152 and 0.0722, rounded down. The alpha
/// channel takes no part in it.
pub open spec fn luma(r: u8, g: u8, b: u8) -> u8 {
    (weighted_sum(r, g, b) / (WEIGHT_SCALE as int)) as u8
}

/// The grayscale image of an RGBA buffer: one luminance byte for each group
/// of four bytes, in the order of the input.
pub open spec fn grayscale(rgba: Seq<u8>) -> Seq<u8> {
    Seq::new(
        (rgba.len() / 4) as nat,
        |i: int| luma(rgba[4 * i], rgba[4 * i + 1], rgba[4 * i + 2]),
    )
}

/// The scaled weighted sum never leaves the range of a byte, so the
/// luminance is that quotient itself and nothing is ever clamped.
pub proof fn lemma_luma_is_quotient(r: u8, g: u8, b: u8)
    ensures
        0 <= weighted_sum(r, g, b) / (WEIGHT_SCALE as int) <= 255,
        luma(r, g, b) as int == weighted_sum(r, g, b) / (WEIGHT_SCALE as int),
{
}

/// A pixel whose red, green and blue bytes are equal keeps that byte as its
/// luminance, whatever its alpha: the three weights add up to the scale.
pub proof fn lemma_luma_of_gray(v: u8)
    ensures
        luma(v, v, v) == v,
{
    assert(weighted_sum(v, v, v) == WEIGHT_SCALE * v);
}

/// The grayscale image has one byte for each whole pixel of the input, and
/// the byte at `i` is the luminance of the pixel at `i`.
pub proof fn lemma_grayscale_pixel(rgba: Seq<u8>, i: int)
    requires
        0 <= i < rgba.len() / 4,
    ensures
        grayscale(rgba).len() == rgba.len() / 4,
        grayscale(rgba)[i] == luma(rgba[4 * i], rgba[4 * i + 1], rgba[4 * i + 2]),
{
}

/// Two buffers of one length that agree on every red, green and blue byte
/// have the same grayscale image: the alpha bytes do not count.
pub proof fn lemma_grayscale_ignores_alpha(a: Seq<u8>, b: Seq<u8>)
    requires
        a.len() == b.len(),
        forall|k: int| 0 <= k < a.len() && k % 4 != 3 ==> a[k] == b[k],
    ensures
        grayscale(a) == grayscale(b),
{
    assert forall|i: int| 0 <= i < a.len() / 4 implies grayscale(a)[i] == grayscale(b)[i] by {
        assert(a[4 * i] == b[4 * i]);
        assert(a[4 * i + 1] == b[4 * i + 1]);
        assert(a[4 * i + 2] == b[4 * i + 2]);
    }
    assert(grayscale(a) =~= grayscale(b));
}

} // verus!
