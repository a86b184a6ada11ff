//! Conversion of an RGBA bitmap into a grayscale bitmap, and the release of
//! the converted bitmap.

use crate::luma::grayscale;
use vstd::prelude::*;
use vstd::slice::slice_to_vec;

verus! {

/// The number of bytes of an RGBA bitmap of the given dimensions.
pub open spec fn rgba_len(width: u32, height: u32) -> int {
    width * height * 4
}

/// The number of bytes of a grayscale bitmap of the given dimensions.
pub open spec fn gray_len(width: u32, height: u32) -> int {
    width * height
}

/// The number of bytes that an RGBA bitmap of the given dimensions takes, or
/// `None` where that number does not fit the machine's size type.
pub fn checked_rgba_len(width: u32, height: u32) -> (len: Option<usize>)
    ensures
        len == (if rgba_len(width, height) <= usize::MAX {
            Some(rgba_len(width, height) as usize)
        } else {
            None
        }),
{
    proof {
        assert(0 <= width * height <= 0xFFFF_FFFF * 0xFFFF_FFFF) by (nonlinear_arith)
            requires
                0 <= width <= 0xFFFF_FFFF,
                0 <= height <= 0xFFFF_FFFF,
        ;
    }
    let pixels: u64 = (width as u64) * (height as u64);
    if pixels > (usize::MAX as u64) / 4 {
        None
    } else {
        Some((pixels as usize) * 4)
    }
}

/// Calls `image::RgbaImage::from_raw`, `image::DynamicImage::to_luma8` and
/// `image::GrayImage::into_raw` of the `image` crate, in this order.
///
/// Trusted: for a buffer of exactly `width * height * 4` bytes the image is
/// accepted, and the result holds one byte per pixel, in the order of the
/// input, each of them the integer quotient
/// `(2126 * r + 7152 * g + 722 * b) / 10000` of that pixel's red, green and
/// blue bytes. `from_raw` gives `None` only for a buffer that is too short,
/// which the precondition leaves out.
#[verifier::external_body]
fn rgba8_to_luma8(width: u32, height: u32, rgba: Vec<u8>) -> (gray: Vec<u8>)
    requires
        rgba@.len() == rgba_len(width, height),
    ensures
        gray@ == grayscale(rgba@),
{
    match image::RgbaImage::from_raw(width, height, rgba) {
        Some(img) => image::DynamicImage::ImageRgba8(img).to_luma8().into_raw(),
        None => Vec::new(),
    }
}

/// Converts an RGBA bitmap to grayscale.
///
/// `bitmap` is borrowed for the call and left as it is. The result is a new
/// buffer that the caller owns: one luminance byte per pixel, row by row, in
/// the order of the input. An image without pixels gives an empty buffer.
pub fn apply_grayscale(bitmap: &[u8], width: u32, height: u32) -> (gray: Vec<u8>)
    requires
        bitmap@.len() == rgba_len(width, height),
    ensures
        gray@ == grayscale(bitmap@),
        gray@.len() == gray_len(width, height),
        (width == 0 || height == 0) ==> gray@.len() == 0,
{
    let gray = rgba8_to_luma8(width, height, slice_to_vec(bitmap));
    proof {
        assert(width == 0 || height == 0 ==> gray_len(width, height) == 0) by (nonlinear_arith);
    }
    gray
}

/// Releases a bitmap that `apply_grayscale` returned, or nothing where the
/// caller holds none.
///
/// The bitmap is taken by value: it is released here, once, and cannot be
/// named again by the caller.
pub fn free_bitmap(bitmap: Option<Vec<u8>>) {
    match bitmap {
        Some(bytes) => {
            let _released: Vec<u8> = bytes;
        },
        None => {},
    }
}

} // verus!
