use vstd::prelude::*;

verus! {

/// The little-endian 32-bit value at byte `i` of `b`.
pub open spec fn le_u32_at(b: Seq<u8>, i: int) -> int {
    b[i] + b[i + 1] * 256 + b[i + 2] * 65536 + b[i + 3] * 16777216
}

/// Byte position of the width field of a bitmap file.
pub const WIDTH_AT: usize = 18;
/// Byte position of the colors-used field of a bitmap file.
pub const COLORS_USED_AT: usize = 46;
/// Widths from here on make the row length overflow a 32-bit `usize`.
pub const WIDTH_LIMIT: u32 = 0x0800_0000;
/// Color counts from here on make the color table's length overflow a 32-bit `usize`.
pub const COLORS_USED_LIMIT: u32 = 0x4000_0000;

/// The header holds the fields that the decoder sizes its buffers from, and
/// their values keep that arithmetic within a 32-bit `usize`.
pub open spec fn bmp_header_ok(b: Seq<u8>) -> bool {
    &&& b.len() >= COLORS_USED_AT + 4
    &&& le_u32_at(b, WIDTH_AT as int) < WIDTH_LIMIT
    &&& le_u32_at(b, COLORS_USED_AT as int) < COLORS_USED_LIMIT
}

fn read_le_u32(b: &[u8], i: usize) -> (v: u32)
    requires
        i + 4 <= b@.len(),
    ensures
        v == le_u32_at(b@, i as int),
{
    (b[i] as u32) + (b[i + 1] as u32) * 256 + (b[i + 2] as u32) * 65536 + (b[i + 3] as u32)
        * 16777216
}

/// Whether the bitmap header is safe to hand to the decoder.
pub fn header_fits(b: &[u8]) -> (r: bool)
    ensures
        r == bmp_header_ok(b@),
{
    b.len() >= COLORS_USED_AT + 4 && read_le_u32(b, WIDTH_AT) < WIDTH_LIMIT && read_le_u32(
        b,
        COLORS_USED_AT,
    ) < COLORS_USED_LIMIT
}

/// Width and height of a bitmap file, or none when the bytes do not parse as one.
pub uninterp spec fn bmp_size_of(bytes: Seq<u8>) -> Option<(u32, u32)>;

/// The packed 16-bit color of pixel (x, y) of a bitmap file, top row first,
/// or none when the bytes do not parse or the pixel cannot be read.
pub uninterp spec fn bmp_pixel_of(bytes: Seq<u8>, x: u32, y: u32) -> Option<u16>;

/// Relies on tinybmp's `Bmp::from_slice` and the image's `size`: the header's
/// width and height when the bytes parse as a bitmap.
#[verifier::external_body]
pub(crate) fn bmp_size(bytes: &[u8]) -> (r: Option<(u32, u32)>)
    requires
        bmp_header_ok(bytes@),
    ensures
        r == bmp_size_of(bytes@),
{
    let bmp = tinybmp::Bmp::<embedded_graphics::pixelcolor::Rgb565>::from_slice(bytes).ok()?;
    let size = embedded_graphics::geometry::OriginDimensions::size(&bmp);
    Some((size.width, size.height))
}

/// Relies on tinybmp's `Bmp::from_slice` and `Bmp::pixel`: the color of one
/// pixel in Rgb565, packed by embedded-graphics' `IntoStorage`.
#[verifier::external_body]
pub(crate) fn bmp_pixel(bytes: &[u8], x: u32, y: u32) -> (r: Option<u16>)
    requires
        bmp_header_ok(bytes@),
    ensures
        r == bmp_pixel_of(bytes@, x, y),
{
    let bmp = tinybmp::Bmp::<embedded_graphics::pixelcolor::Rgb565>::from_slice(bytes).ok()?;
    let p = bmp.pixel(embedded_graphics::geometry::Point::new(x as i32, y as i32))?;
    Some(embedded_graphics::prelude::IntoStorage::into_storage(p))
}

} // verus!
