//! Rendering a weather icon onto the black-and-white panel: the icon's BMP
//! bytes are found by name in the icon table, decoded into Rgb555 pixels,
//! and each pixel becomes a black or white dot, mirrored vertically and
//! shifted to the requested position.

use embedded_graphics::pixelcolor::{Rgb555, RgbColor};
use embedded_graphics::prelude::{OriginDimensions, Pixel};
use epd_waveshare::color::Color;
use tinybmp::Bmp;
use vstd::prelude::*;

verus! {

/// The panel's two colours.
#[verifier::external_type_specification]
pub struct ExColor(Color);

/// One decoded pixel: its position, counted from the top left corner of the
/// image, and its 5-bit red, green and blue channels.
#[derive(Clone, Copy, Debug, PartialEq, Eq, Structural)]
pub struct BitmapPixel {
    pub x: i32,
    pub y: i32,
    pub r: u8,
    pub g: u8,
    pub b: u8,
}

/// A decoded image: its height and its pixels in the order the decoder
/// yields them.
#[derive(Debug)]
pub struct Bitmap {
    pub height: u32,
    pub pixels: Vec<BitmapPixel>,
}

/// One dot to draw on the panel.
#[derive(Clone, Copy, Debug)]
pub struct IconDot {
    pub x: i32,
    pub y: i32,
    pub color: Color,
}

/// Why an icon cannot be drawn.
#[derive(Clone, Copy, Debug, PartialEq, Eq, Structural)]
pub enum IconError {
    /// No entry of the icon table has that name.
    UnknownIcon,
    /// The icon's bytes are not a BMP image that tinybmp decodes, or their
    /// header declares a row or colour table whose size in bytes does not
    /// fit in a `usize` of this target.
    InvalidBitmap,
    /// A dot's position does not fit in the panel's `i32` coordinates.
    OutOfRange,
}

/// What tinybmp decodes from `bytes` as an Rgb555 image: `None` where
/// `Bmp::from_slice` fails, else the image height and, in iteration order,
/// each pixel of `Bmp::pixels` as (x, y, red, green, blue).
pub uninterp spec fn bmp_rgb555_decoding(bytes: Seq<u8>) -> Option<(u32, Seq<(i32, i32, u8, u8, u8)>)>;

/// A decoded pixel as the tuple that [`bmp_rgb555_decoding`] lists.
pub open spec fn pixel_tuple(p: BitmapPixel) -> (i32, i32, u8, u8, u8) {
    (p.x, p.y, p.r, p.g, p.b)
}

/// The pixel that a tuple of [`bmp_rgb555_decoding`] describes.
pub open spec fn tuple_pixel(t: (i32, i32, u8, u8, u8)) -> BitmapPixel {
    BitmapPixel { x: t.0, y: t.1, r: t.2, g: t.3, b: t.4 }
}

/// The little-endian `u16` at `offset` of `bytes`.
pub open spec fn le_u16_at(bytes: Seq<u8>, offset: int) -> int {
    bytes[offset] + bytes[offset + 1] * 0x100
}

/// The little-endian `u32` at `offset` of `bytes`.
pub open spec fn le_u32_at(bytes: Seq<u8>, offset: int) -> int {
    bytes[offset] + bytes[offset + 1] * 0x100 + bytes[offset + 2] * 0x1_0000 + bytes[offset
        + 3] * 0x100_0000
}

/// Whether the sizes that tinybmp computes in `usize` from a BMP header fit
/// in a `usize`: the bits of a row (image width at offset 18 times bits per
/// pixel at offset 28, plus 31 for the rounding to whole 32-bit words) and
/// the bytes of the colour table (colour count at offset 46 times 4). Where
/// they do not, tinybmp's arithmetic overflows, which panics in a debug
/// build and, in a release build, leads to `chunks_exact(0)`, which panics.
/// Fields that the bytes are too short to hold impose nothing: tinybmp
/// rejects such input before it uses them.
pub open spec fn bmp_sizes_fit(bytes: Seq<u8>) -> bool {
    &&& bytes.len() >= 30 ==> le_u32_at(bytes, 18) * le_u16_at(bytes, 28) + 31 <= usize::MAX
    &&& bytes.len() >= 50 ==> le_u32_at(bytes, 46) * 4 <= usize::MAX
}

/// Decodes `bytes` with `tinybmp::Bmp::<Rgb555>::from_slice` and lists the
/// pixels of `Bmp::pixels` with the height of `size()`. The contract claims
/// that the result is what [`bmp_rgb555_decoding`] names for these bytes.
/// It requires [`bmp_sizes_fit`], on which tinybmp's size arithmetic does
/// not overflow; the other arithmetic and indexing of tinybmp on this path
/// is checked or saturating.
#[verifier::external_body]
fn decode_bmp_rgb555(bytes: &[u8]) -> (image: Option<Bitmap>)
    requires
        bmp_sizes_fit(bytes@),
    ensures
        match bmp_rgb555_decoding(bytes@) {
            None => image is None,
            Some(decoded) => image matches Some(img) && img.height == decoded.0
                && img.pixels@.map_values(|p: BitmapPixel| pixel_tuple(p)) == decoded.1,
        },
{
    let bmp: Bmp<'_, Rgb555> = match Bmp::from_slice(bytes) {
        Ok(bmp) => bmp,
        Err(_) => return None,
    };
    let pixels = bmp.pixels().map(|Pixel(p, c)| BitmapPixel { x: p.x, y: p.y, r: c.r(), g: c.g(), b: c.b() }).collect();
    Some(Bitmap { height: bmp.size().height, pixels })
}

/// Light pixels (mean channel value above 0x10) are drawn white, the others
/// black.
pub open spec fn is_light(p: BitmapPixel) -> bool {
    (p.r as int + p.g as int + p.b as int) / 3 > 0x10
}

/// The panel colour of a pixel.
pub open spec fn dot_color(p: BitmapPixel) -> Color {
    if is_light(p) {
        Color::White
    } else {
        Color::Black
    }
}

/// The row a pixel lands on once the image is flipped upside down.
pub open spec fn mirrored_row(height: u32, p: BitmapPixel) -> int {
    height - 1 - p.y
}

/// Where a pixel lands when the image is drawn at (`x`, `y`): flipped
/// upside down, then shifted by (`x`, `y`).
pub open spec fn dot_position(height: u32, p: BitmapPixel, x: i32, y: i32) -> (int, int) {
    (x + p.x, y + mirrored_row(height, p))
}

/// Whether every value computed for a pixel fits in an `i32`.
pub open spec fn pixel_fits(height: u32, p: BitmapPixel, x: i32, y: i32) -> bool {
    &&& height <= i32::MAX
    &&& i32::MIN <= mirrored_row(height, p) <= i32::MAX
    &&& i32::MIN <= dot_position(height, p, x, y).0 <= i32::MAX
    &&& i32::MIN <= dot_position(height, p, x, y).1 <= i32::MAX
}

/// Whether every pixel of the image fits when drawn at (`x`, `y`).
pub open spec fn image_fits(height: u32, pixels: Seq<BitmapPixel>, x: i32, y: i32) -> bool {
    forall|i: int| 0 <= i < pixels.len() ==> #[trigger] pixel_fits(height, pixels[i], x, y)
}

/// Whether `dot` is how pixel `p` of an image of that height is drawn at
/// (`x`, `y`).
pub open spec fn is_dot_of(dot: IconDot, height: u32, p: BitmapPixel, x: i32, y: i32) -> bool {
    &&& dot.x == dot_position(height, p, x, y).0
    &&& dot.y == dot_position(height, p, x, y).1
    &&& dot.color == dot_color(p)
}

/// Whether `dots` draws `pixels` at (`x`, `y`), one dot per pixel, in order.
pub open spec fn draws_image(dots: Seq<IconDot>, height: u32, pixels: Seq<BitmapPixel>, x: i32, y: i32) -> bool {
    &&& dots.len() == pixels.len()
    &&& forall|i: int| 0 <= i < pixels.len() ==> #[trigger] is_dot_of(dots[i], height, pixels[i], x, y)
}

/// The dots that draw a decoded image at (`x`, `y`): each pixel, flipped
/// upside down and shifted, in black or white by its brightness.
pub fn render_bitmap(bitmap: &Bitmap, x: i32, y: i32) -> (dots: Vec<IconDot>)
    requires
        image_fits(bitmap.height, bitmap.pixels@, x, y),
    ensures
        draws_image(dots@, bitmap.height, bitmap.pixels@, x, y),
        dots@.len() == bitmap.pixels@.len(),
        forall|i: int|
            0 <= i < dots@.len() ==> {
                let p = #[trigger] bitmap.pixels@[i];
                &&& dots@[i].x == x + p.x
                &&& dots@[i].y == y + bitmap.height - 1 - p.y
                &&& (dots@[i].color == Color::White <==> (p.r + p.g + p.b) / 3 > 16)
                &&& (dots@[i].color == Color::Black <==> (p.r + p.g + p.b) / 3 <= 16)
            },
{
    let mut dots: Vec<IconDot> = Vec::new();
    let n = bitmap.pixels.len();
    let mut i: usize = 0;
    while i < n
        invariant
            n == bitmap.pixels@.len(),
            i <= n,
            image_fits(bitmap.height, bitmap.pixels@, x, y),
            dots@.len() == i,
            forall|j: int| 0 <= j < i ==> #[trigger] is_dot_of(dots@[j], bitmap.height, bitmap.pixels@[j], x, y),
        decreases n - i,
    {
        let p = bitmap.pixels[i];
        assert(pixel_fits(bitmap.height, bitmap.pixels@[i as int], x, y));
        let height = bitmap.height as i32;
        let luma: u32 = (p.r as u32 + p.g as u32 + p.b as u32) / 3;
        let color = if luma > 0x10 {
            Color::White
        } else {
            Color::Black
        };
        let row = height - 1 - p.y;
        dots.push(IconDot { x: x + p.x, y: y + row, color });
        i = i + 1;
    }
    proof {
        assert forall|j: int| 0 <= j < dots@.len() implies {
            let p = #[trigger] bitmap.pixels@[j];
            &&& dots@[j].x == x + p.x
            &&& dots@[j].y == y + bitmap.height - 1 - p.y
            &&& (dots@[j].color == Color::White <==> (p.r + p.g + p.b) / 3 > 16)
            &&& (dots@[j].color == Color::Black <==> (p.r + p.g + p.b) / 3 <= 16)
        } by {
            assert(is_dot_of(dots@[j], bitmap.height, bitmap.pixels@[j], x, y));
        }
    }
    dots
}

/// The little-endian `u16` at `offset` of `bytes`.
fn read_le_u16(bytes: &[u8], offset: usize) -> (value: u64)
    requires
        offset + 2 <= bytes@.len(),
    ensures
        value == le_u16_at(bytes@, offset as int),
{
    bytes[offset] as u64 + bytes[offset + 1] as u64 * 0x100
}

/// The little-endian `u32` at `offset` of `bytes`.
fn read_le_u32(bytes: &[u8], offset: usize) -> (value: u64)
    requires
        offset + 4 <= bytes@.len(),
    ensures
        value == le_u32_at(bytes@, offset as int),
        value <= 0xffff_ffff,
{
    bytes[offset] as u64 + bytes[offset + 1] as u64 * 0x100 + bytes[offset + 2] as u64 * 0x1_0000
        + bytes[offset + 3] as u64 * 0x100_0000
}

/// Whether tinybmp's size arithmetic fits for `bytes`, checked.
fn sizes_fit(bytes: &[u8]) -> (fits: bool)
    ensures
        fits == bmp_sizes_fit(bytes@),
{
    let limit = usize::MAX as u64;
    if bytes.len() >= 30 {
        let width = read_le_u32(bytes, 18);
        let bpp = read_le_u16(bytes, 28);
        assert(width * bpp <= 0xffff_ffff * 0xffff) by (nonlinear_arith)
            requires
                width <= 0xffff_ffff,
                bpp <= 0xffff,
        ;
        if width * bpp + 31 > limit {
            return false;
        }
    }
    if bytes.len() >= 50 {
        let colors = read_le_u32(bytes, 46);
        if colors * 4 > limit {
            return false;
        }
    }
    true
}

/// Whether every pixel fits, checked one by one.
fn all_pixels_fit(bitmap: &Bitmap, x: i32, y: i32) -> (fits: bool)
    ensures
        fits == image_fits(bitmap.height, bitmap.pixels@, x, y),
{
    if bitmap.height > i32::MAX as u32 {
        if bitmap.pixels.len() > 0 {
            assert(!pixel_fits(bitmap.height, bitmap.pixels@[0], x, y));
        }
        return bitmap.pixels.len() == 0;
    }
    let height = bitmap.height as i64;
    let n = bitmap.pixels.len();
    let mut i: usize = 0;
    while i < n
        invariant
            n == bitmap.pixels@.len(),
            i <= n,
            height == bitmap.height,
            height <= i32::MAX,
            forall|j: int| 0 <= j < i ==> #[trigger] pixel_fits(bitmap.height, bitmap.pixels@[j], x, y),
        decreases n - i,
    {
        let p = bitmap.pixels[i];
        let row: i64 = height - 1 - p.y as i64;
        let dx: i64 = x as i64 + p.x as i64;
        let dy: i64 = y as i64 + row;
        if row < i32::MIN as i64 || row > i32::MAX as i64 || dx < i32::MIN as i64
            || dx > i32::MAX as i64 || dy < i32::MIN as i64 || dy > i32::MAX as i64 {
            assert(!pixel_fits(bitmap.height, bitmap.pixels@[i as int], x, y));
            return false;
        }
        i = i + 1;
    }
    true
}

/// Whether two strings hold the same characters.
fn same_name(a: &str, b: &str) -> (same: bool)
    ensures
        same == (a@ == b@),
{
    let n = a.unicode_len();
    if n != b.unicode_len() {
        return false;
    }
    let mut i: usize = 0;
    while i < n
        invariant
            n == a@.len(),
            n == b@.len(),
            i <= n,
            forall|j: int| 0 <= j < i ==> a@[j] == b@[j],
        decreases n - i,
    {
        if a.get_char(i) != b.get_char(i) {
            return false;
        }
        i = i + 1;
    }
    assert(a@ =~= b@);
    true
}

/// The position of the first entry of `table` whose name is `name`.
pub open spec fn is_first_entry_named<'a>(table: Seq<(&'a str, &'a [u8])>, name: Seq<char>, i: int) -> bool {
    &&& 0 <= i < table.len()
    &&& table[i].0@ == name
    &&& forall|j: int| 0 <= j < i ==> #[trigger] table[j].0@ != name
}

/// Whether some entry of `table` has the name `name`.
pub open spec fn has_entry_named<'a>(table: Seq<(&'a str, &'a [u8])>, name: Seq<char>) -> bool {
    exists|i: int| 0 <= i < table.len() && #[trigger] table[i].0@ == name
}

/// The bytes of the first icon of `table` named `name`, if there is one.
pub fn find_icon<'a>(table: &[(&'a str, &'a [u8])], name: &str) -> (found: Option<&'a [u8]>)
    ensures
        found is Some <==> has_entry_named(table@, name@),
        found matches Some(bytes) ==> exists|i: int|
            is_first_entry_named(table@, name@, i) && #[trigger] table@[i].1@ == bytes@,
{
    let n = table.len();
    let mut i: usize = 0;
    while i < n
        invariant
            n == table@.len(),
            i <= n,
            forall|j: int| 0 <= j < i ==> #[trigger] table@[j].0@ != name@,
        decreases n - i,
    {
        let (entry_name, bytes) = table[i];
        if same_name(entry_name, name) {
            assert(table@[i as int].1@ == bytes@);
            return Some(bytes);
        }
        i = i + 1;
    }
    None
}

/// The pixels of a decoding that [`bmp_rgb555_decoding`] names.
pub open spec fn decoded_pixels(decoded: (u32, Seq<(i32, i32, u8, u8, u8)>)) -> Seq<BitmapPixel> {
    decoded.1.map_values(|t: (i32, i32, u8, u8, u8)| tuple_pixel(t))
}

/// Whether `res` is the outcome of drawing the BMP image `bytes` at
/// (`x`, `y`): `InvalidBitmap` where its header sizes do not fit (see
/// [`bmp_sizes_fit`]) or tinybmp does not decode it,
/// `OutOfRange` where a dot's position does not fit, else the dots that
/// draw the decoded image.
pub open spec fn is_bitmap_outcome(bytes: Seq<u8>, x: i32, y: i32, res: Result<Vec<IconDot>, IconError>) -> bool {
    if !bmp_sizes_fit(bytes) {
        res == Err::<Vec<IconDot>, IconError>(IconError::InvalidBitmap)
    } else {
        match bmp_rgb555_decoding(bytes) {
            None => res == Err::<Vec<IconDot>, IconError>(IconError::InvalidBitmap),
            Some(decoded) => if image_fits(decoded.0, decoded_pixels(decoded), x, y) {
                res matches Ok(dots) && draws_image(dots@, decoded.0, decoded_pixels(decoded), x, y)
            } else {
                res == Err::<Vec<IconDot>, IconError>(IconError::OutOfRange)
            },
        }
    }
}

/// Decodes the BMP image `bytes` and lays out its dots at (`x`, `y`).
pub fn bitmap_dots(bytes: &[u8], x: i32, y: i32) -> (res: Result<Vec<IconDot>, IconError>)
    ensures
        is_bitmap_outcome(bytes@, x, y, res),
{
    if !sizes_fit(bytes) {
        return Err(IconError::InvalidBitmap);
    }
    let bitmap = match decode_bmp_rgb555(bytes) {
        Some(bitmap) => bitmap,
        None => return Err(IconError::InvalidBitmap),
    };
    proof {
        let decoded = bmp_rgb555_decoding(bytes@).unwrap();
        assert(bitmap.pixels@ =~= decoded_pixels(decoded)) by {
            assert forall|i: int| 0 <= i < bitmap.pixels@.len() implies bitmap.pixels@[i]
                == decoded_pixels(decoded)[i] by {
                let mapped = bitmap.pixels@.map_values(|p: BitmapPixel| pixel_tuple(p));
                assert(mapped[i] == pixel_tuple(bitmap.pixels@[i]));
            }
        }
    }
    if !all_pixels_fit(&bitmap, x, y) {
        return Err(IconError::OutOfRange);
    }
    Ok(render_bitmap(&bitmap, x, y))
}

/// The dots that draw the icon `icon_name` of `table` at (`x`, `y`): the
/// first entry with that name is decoded and laid out as by
/// [`bitmap_dots`]; `UnknownIcon` where no entry has that name.
pub fn icon_dots<'a>(table: &[(&'a str, &'a [u8])], icon_name: &str, x: i32, y: i32) -> (res: Result<Vec<IconDot>, IconError>)
    ensures
        !has_entry_named(table@, icon_name@) ==> res == Err::<Vec<IconDot>, IconError>(
            IconError::UnknownIcon,
        ),
        forall|i: int| #[trigger] is_first_entry_named(table@, icon_name@, i)
            ==> is_bitmap_outcome(table@[i].1@, x, y, res),
{
    match find_icon(table, icon_name) {
        None => Err(IconError::UnknownIcon),
        Some(bytes) => {
            let res = bitmap_dots(bytes, x, y);
            proof {
                assert forall|i: int| #[trigger] is_first_entry_named(table@, icon_name@, i)
                    implies is_bitmap_outcome(table@[i].1@, x, y, res) by {
                    let k = choose|k: int| is_first_entry_named(table@, icon_name@, k) && #[trigger] table@[k].1@ == bytes@;
                    if i < k {
                        assert(table@[i].0@ != icon_name@);
                    } else if k < i {
                        assert(table@[k].0@ != icon_name@);
                    }
                }
            }
            res
        },
    }
}

/// Every dot of a drawn image comes from the pixel at the same position:
/// shifted right by `x`, its row counted from the bottom (`height - 1 - py`)
/// and shifted down by `y`, white exactly when the mean of its three
/// channels, rounded down, is above 16 and black otherwise.
pub proof fn lemma_drawn_dot(dots: Seq<IconDot>, height: u32, pixels: Seq<BitmapPixel>, x: i32, y: i32, i: int)
    requires
        draws_image(dots, height, pixels, x, y),
        0 <= i < pixels.len(),
    ensures
        dots.len() == pixels.len(),
        dots[i].x == x + pixels[i].x,
        dots[i].y == y + height - 1 - pixels[i].y,
        dots[i].color == Color::White <==> (pixels[i].r + pixels[i].g + pixels[i].b) / 3 > 16,
        dots[i].color == Color::Black <==> (pixels[i].r + pixels[i].g + pixels[i].b) / 3 <= 16,
{
    assert(is_dot_of(dots[i], height, pixels[i], x, y));
}

/// A pixel can be drawn exactly when the image height, the mirrored row
/// and both coordinates of its dot are `i32` values; negative coordinates
/// are fine.
pub proof fn lemma_pixel_fit_bounds(height: u32, p: BitmapPixel, x: i32, y: i32)
    ensures
        pixel_fits(height, p, x, y) <==> {
            &&& height <= 0x7fff_ffff
            &&& -0x8000_0000 <= height - 1 - p.y <= 0x7fff_ffff
            &&& -0x8000_0000 <= x + p.x <= 0x7fff_ffff
            &&& -0x8000_0000 <= y + height - 1 - p.y <= 0x7fff_ffff
        },
{
}

/// The size guard rejects a header exactly when tinybmp's row size in bits
/// (width at bytes 18..22 times bits per pixel at bytes 28..30, plus 31) or
/// colour table size in bytes (count at bytes 46..50 times 4) exceeds
/// `usize::MAX`; the height and every other field play no part.
pub proof fn lemma_size_guard_bounds(bytes: Seq<u8>)
    ensures
        bmp_sizes_fit(bytes) <==> {
            &&& bytes.len() >= 30 ==> (bytes[18] + bytes[19] * 0x100 + bytes[20] * 0x1_0000
                + bytes[21] * 0x100_0000) * (bytes[28] + bytes[29] * 0x100) + 31 <= usize::MAX
            &&& bytes.len() >= 50 ==> (bytes[46] + bytes[47] * 0x100 + bytes[48] * 0x1_0000
                + bytes[49] * 0x100_0000) * 4 <= usize::MAX
        },
{
}

/// Whether, for every decoded pixel (px, py) of an image of that height,
/// the height, `height - 1 - py`, `x + px` and `y + height - 1 - py` all lie
/// in the `i32` range.
pub open spec fn decoded_coordinates_in_i32(height: u32, pixels: Seq<(i32, i32, u8, u8, u8)>, x: i32, y: i32) -> bool {
    &&& pixels.len() > 0 ==> height <= 0x7fff_ffff
    &&& forall|i: int|
        0 <= i < pixels.len() ==> {
            &&& -0x8000_0000 <= height - 1 - (#[trigger] pixels[i]).1 <= 0x7fff_ffff
            &&& -0x8000_0000 <= x + pixels[i].0 <= 0x7fff_ffff
            &&& -0x8000_0000 <= y + height - 1 - pixels[i].1 <= 0x7fff_ffff
        }
}

/// The outcome of drawing a BMP image at (`x`, `y`), case by case:
/// `InvalidBitmap` exactly when the header's row or colour table size
/// overflows `usize` (see [`lemma_size_guard_bounds`]) or tinybmp rejects
/// the bytes; otherwise `OutOfRange` exactly when some decoded pixel's
/// coordinates leave the `i32` range; otherwise the dots, whatever the
/// image's height and wherever, negative coordinates included, it lands:
/// one per decoded pixel (px, py, r, g, b), in order, at
/// (`x + px`, `y + height - 1 - py`), white exactly when `(r + g + b) / 3`
/// is above 16.
pub proof fn lemma_bitmap_outcome_cases(bytes: Seq<u8>, x: i32, y: i32, res: Result<Vec<IconDot>, IconError>)
    requires
        is_bitmap_outcome(bytes, x, y, res),
    ensures
        res == Err::<Vec<IconDot>, IconError>(IconError::InvalidBitmap) <==> (!bmp_sizes_fit(bytes)
            || bmp_rgb555_decoding(bytes) is None),
        res == Err::<Vec<IconDot>, IconError>(IconError::OutOfRange) <==> (bmp_sizes_fit(bytes)
            && (bmp_rgb555_decoding(bytes) matches Some(d) && !decoded_coordinates_in_i32(
            d.0,
            d.1,
            x,
            y,
        ))),
        res is Ok <==> (bmp_sizes_fit(bytes) && (bmp_rgb555_decoding(bytes) matches Some(d)
            && decoded_coordinates_in_i32(d.0, d.1, x, y))),
        res is Ok || res == Err::<Vec<IconDot>, IconError>(IconError::InvalidBitmap) || res == Err::<
            Vec<IconDot>,
            IconError,
        >(IconError::OutOfRange),
        res matches Ok(dots) ==> (bmp_rgb555_decoding(bytes) matches Some(d) && dots@.len()
            == d.1.len() && forall|i: int|
            0 <= i < d.1.len() ==> {
                let t = #[trigger] d.1[i];
                &&& dots@[i].x == x + t.0
                &&& dots@[i].y == y + d.0 - 1 - t.1
                &&& (dots@[i].color == Color::White <==> (t.2 + t.3 + t.4) / 3 > 16)
                &&& (dots@[i].color == Color::Black <==> (t.2 + t.3 + t.4) / 3 <= 16)
            }),
{
    if bmp_sizes_fit(bytes) {
        if let Some(d) = bmp_rgb555_decoding(bytes) {
            let pixels = decoded_pixels(d);
            assert(pixels.len() == d.1.len());
            if image_fits(d.0, pixels, x, y) {
                assert forall|i: int| 0 <= i < d.1.len() implies {
                    &&& d.0 <= 0x7fff_ffff
                    &&& -0x8000_0000 <= d.0 - 1 - (#[trigger] d.1[i]).1 <= 0x7fff_ffff
                    &&& -0x8000_0000 <= x + d.1[i].0 <= 0x7fff_ffff
                    &&& -0x8000_0000 <= y + d.0 - 1 - d.1[i].1 <= 0x7fff_ffff
                } by {
                    assert(pixels[i] == tuple_pixel(d.1[i]));
                    assert(pixel_fits(d.0, pixels[i], x, y));
                }
                if d.1.len() > 0 {
                    assert(pixel_fits(d.0, pixels[0], x, y));
                }
                assert(decoded_coordinates_in_i32(d.0, d.1, x, y));
                if let Ok(dots) = res {
                    assert forall|i: int| 0 <= i < d.1.len() implies {
                        let t = #[trigger] d.1[i];
                        &&& dots@[i].x == x + t.0
                        &&& dots@[i].y == y + d.0 - 1 - t.1
                        &&& (dots@[i].color == Color::White <==> (t.2 + t.3 + t.4) / 3 > 16)
                        &&& (dots@[i].color == Color::Black <==> (t.2 + t.3 + t.4) / 3 <= 16)
                    } by {
                        assert(pixels[i] == tuple_pixel(d.1[i]));
                        lemma_drawn_dot(dots@, d.0, pixels, x, y, i);
                    }
                }
            } else {
                let k = choose|k: int|
                    0 <= k < pixels.len() && !#[trigger] pixel_fits(d.0, pixels[k], x, y);
                assert(pixels[k] == tuple_pixel(d.1[k]));
                assert(d.1[k] == d.1[k]);
                assert(!decoded_coordinates_in_i32(d.0, d.1, x, y));
            }
        }
    }
}

} // verus!
