//! The copy layout of decoded texture images.
//!
//! Decoding itself is an external collaborator: the engine receives a
//! decoded RGBA image — 8 bits per channel, 4 bytes per pixel — of
//! known dimensions. What the engine owes the driver is the copy
//! layout of the tightly packed payload: bytes per row, rows per
//! image, and that the payload length is exactly 4·width·height.

use vstd::prelude::*;

verus! {

/// The copy layout of one tightly packed RGBA image.
#[derive(Clone, Copy, Debug, PartialEq, Eq, Structural)]
pub struct ImageCopyLayout {
    /// Bytes in one row: four per pixel, no padding.
    pub bytes_per_row: u32,
    /// Rows in the image.
    pub rows_per_image: u32,
}

/// The byte length a tightly packed RGBA image of this size must
/// have.
pub open spec fn rgba_payload_len(width: u32, height: u32) -> int {
    4 * width * height
}

/// Computes the copy layout for a decoded RGBA image. Returns it for
/// every non-empty image whose row fits the driver's 32-bit row
/// pitch, and nothing otherwise.
pub fn rgba_copy_layout(width: u32, height: u32) -> (r: Option<ImageCopyLayout>)
    ensures
        match r {
            Some(l) => {
                &&& width >= 1
                &&& height >= 1
                &&& 4 * width <= u32::MAX
                &&& l.bytes_per_row == 4 * width
                &&& l.rows_per_image == height
            },
            None => width == 0 || height == 0 || 4 * width > u32::MAX,
        },
{
    if width == 0 || height == 0 {
        return None;
    }
    if width > u32::MAX / 4 {
        return None;
    }
    Some(ImageCopyLayout { bytes_per_row: 4 * width, rows_per_image: height })
}

/// Whether a decoded payload has exactly the packed length its
/// dimensions demand.
pub fn rgba_payload_matches(width: u32, height: u32, len: usize) -> (ok: bool)
    ensures
        ok == (len == rgba_payload_len(width, height)),
{
    let row: u64 = 4u64 * (width as u64);
    proof {
        vstd::arithmetic::mul::lemma_mul_upper_bound(
            row as int,
            0x4_0000_0000,
            height as int,
            0xFFFF_FFFF,
        );
    }
    let expected: u128 = (row as u128) * (height as u128);
    (len as u128) == expected
}

} // verus!
