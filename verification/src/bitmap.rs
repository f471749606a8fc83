use vstd::prelude::*;
use crate::colors::Rgb;

verus! {

/// Length in bytes of everything that precedes the pixel data.
pub const HEADER_LEN: u32 = 26;

/// Length in bytes of the core header that follows the file header.
pub const CORE_HEADER_LEN: u32 = 12;

/// The two bytes of `x`, least significant first.
pub open spec fn le_bytes_u16(x: u16) -> Seq<u8> {
    seq![(x % 256) as u8, (x / 256) as u8]
}

/// The four bytes of `x`, least significant first.
pub open spec fn le_bytes_u32(x: u32) -> Seq<u8> {
    seq![
        (x % 256) as u8,
        (x / 256 % 256) as u8,
        (x / 65536 % 256) as u8,
        (x / 16777216) as u8,
    ]
}

/// The three bytes a pixel occupies in the file: blue, green, red.
pub open spec fn pixel_bytes(px: Rgb) -> Seq<u8> {
    seq![px.2, px.1, px.0]
}

/// The pixel that `buf` holds at column `x` of its `row`-th stored row, for
/// rows of `width` pixels.
pub open spec fn stored_pixel(buf: Seq<u8>, width: int, row: int, x: int) -> Rgb {
    let at = (row * width + x) * 3;
    Rgb(buf[at + 2], buf[at + 1], buf[at])
}

/// The value of the header's file size field for an image of the given
/// dimensions: header and three bytes per pixel, rows unpadded.
pub open spec fn file_size(width: u16, height: u16) -> int {
    height * width * 3 + 26
}

/// The 26 bytes in front of the pixel data.
pub open spec fn header_bytes(width: u16, height: u16) -> Seq<u8>
    recommends
        file_size(width, height) <= u32::MAX,
{
    seq![0x42u8, 0x4du8]
        + le_bytes_u32(file_size(width, height) as u32)
        + seq![0u8, 0u8, 0u8, 0u8]
        + le_bytes_u32(HEADER_LEN)
        + le_bytes_u32(CORE_HEADER_LEN)
        + le_bytes_u16(width)
        + le_bytes_u16(height)
        + seq![1u8, 0u8]
        + seq![24u8, 0u8]
}

fn push_u16_le(out: &mut Vec<u8>, x: u16)
    ensures
        final(out)@ == old(out)@ + le_bytes_u16(x),
{
    out.push((x % 256) as u8);
    out.push((x / 256) as u8);
}

fn push_u32_le(out: &mut Vec<u8>, x: u32)
    ensures
        final(out)@ == old(out)@ + le_bytes_u32(x),
{
    out.push((x % 256) as u8);
    out.push((x / 256 % 256) as u8);
    out.push((x / 65536 % 256) as u8);
    out.push((x / 16777216) as u8);
}

/// An image under construction: its dimensions and the pixel bytes pushed so
/// far, in file order.
pub struct Bitmap {
    width: u16,
    height: u16,
    pixels: Vec<u8>,
}

/// What an image is: its dimensions and the pixel bytes pushed so far, in
/// file order.
pub struct BitmapView {
    pub width: u16,
    pub height: u16,
    pub pixels: Seq<u8>,
}

impl View for Bitmap {
    type V = BitmapView;

    closed spec fn view(&self) -> BitmapView {
        BitmapView { width: self.width, height: self.height, pixels: self.pixels@ }
    }
}

impl Bitmap {
    /// The width in pixels that the image was made with.
    pub open spec fn spec_width(&self) -> u16 {
        self@.width
    }

    /// The height in pixels that the image was made with.
    pub open spec fn spec_height(&self) -> u16 {
        self@.height
    }

    /// Every pixel of the image has been pushed, and nothing more.
    pub open spec fn is_complete(&self) -> bool {
        self@.pixels.len() == self.spec_height() * self.spec_width() * 3
    }

    /// The pixel at column `x` of row `y`, rows counted from the top of the
    /// image, as the buffer of a complete image holds it: rows bottom-up,
    /// columns left to right.
    pub open spec fn pixel_at(&self, x: int, y: int) -> Rgb
        recommends
            self.is_complete(),
            0 <= x < self.spec_width(),
            0 <= y < self.spec_height(),
    {
        stored_pixel(self@.pixels, self.spec_width() as int, self.spec_height() - 1 - y, x)
    }

    /// An image of the given dimensions with no pixel pushed yet.
    pub fn new(width: u16, height: u16) -> (img: Self)
        ensures
            img.spec_width() == width,
            img.spec_height() == height,
            img@.pixels == Seq::<u8>::empty(),
    {
        Bitmap { width, height, pixels: Vec::new() }
    }

    /// The width in pixels.
    #[verifier::when_used_as_spec(spec_width)]
    pub fn width(&self) -> (w: u16)
        ensures
            w == self.spec_width(),
    {
        self.width
    }

    /// The height in pixels.
    #[verifier::when_used_as_spec(spec_height)]
    pub fn height(&self) -> (h: u16)
        ensures
            h == self.spec_height(),
    {
        self.height
    }

    /// The pixel bytes pushed so far.
    pub fn pixels(&self) -> (bytes: &Vec<u8>)
        ensures
            bytes@ == self@.pixels,
    {
        &self.pixels
    }

    /// Appends one pixel, as its blue, green and red bytes.
    pub fn push_pixel(&mut self, px: Rgb)
        ensures
            final(self)@.pixels == old(self)@.pixels + pixel_bytes(px),
            final(self).spec_width() == old(self).spec_width(),
            final(self).spec_height() == old(self).spec_height(),
    {
        let Rgb(r, g, b) = px;
        self.pixels.push(b);
        self.pixels.push(g);
        self.pixels.push(r);
    }

    /// The header's file size field, where it fits its four bytes.
    pub fn file_size(&self) -> (size: Option<u32>)
        ensures
            size matches Some(s) ==> s == file_size(self.spec_width(), self.spec_height()),
            size is Some <==> file_size(self.spec_width(), self.spec_height()) <= u32::MAX,
    {
        assert(self.height * self.width <= 65535 * 65535) by (nonlinear_arith)
            requires
                self.height <= 65535,
                self.width <= 65535,
        ;
        let area: u64 = (self.height as u64) * (self.width as u64);
        let size: u64 = area * 3 + 26;
        if size <= 0xffff_ffffu64 {
            Some(size as u32)
        } else {
            None
        }
    }

    /// The whole file: the header, then the pixel bytes as they were pushed.
    pub fn serialize(self) -> (bytes: Vec<u8>)
        requires
            file_size(self.spec_width(), self.spec_height()) <= u32::MAX,
        ensures
            bytes@ == header_bytes(self.spec_width(), self.spec_height()) + self@.pixels,
            self.is_complete() ==> bytes@.len() == file_size(
                self.spec_width(),
                self.spec_height(),
            ),
    {
        let size: u32 = (self.height as u32) * (self.width as u32) * 3 + 26;
        let mut bmp: Vec<u8> = Vec::new();
        bmp.push(0x42u8);
        bmp.push(0x4du8);
        push_u32_le(&mut bmp, size);
        bmp.push(0);
        bmp.push(0);
        bmp.push(0);
        bmp.push(0);
        push_u32_le(&mut bmp, HEADER_LEN);
        push_u32_le(&mut bmp, CORE_HEADER_LEN);
        push_u16_le(&mut bmp, self.width);
        push_u16_le(&mut bmp, self.height);
        bmp.push(1);
        bmp.push(0);
        bmp.push(24);
        bmp.push(0);
        assert(bmp@ =~= header_bytes(self.width, self.height));
        let mut pixels = self.pixels;
        bmp.append(&mut pixels);
        bmp
    }
}

/// A byte position in the pixel data of an image of `width` by `height`
/// pixels lies in the pixel at some column of some stored row.
proof fn lemma_locate_byte(width: int, height: int, at: int) -> (place: (int, int, int))
    requires
        0 <= at < height * width * 3,
        0 <= width,
        0 <= height,
    ensures
        0 <= place.0 < height,
        0 <= place.1 < width,
        0 <= place.2 < 3,
        at == (place.0 * width + place.1) * 3 + place.2,
{
    let k = at / 3;
    assert(width > 0) by (nonlinear_arith)
        requires
            0 <= at < height * width * 3,
            0 <= width,
    ;
    assert(0 <= k < height * width) by (nonlinear_arith)
        requires
            0 <= at < height * width * 3,
            k == at / 3,
    ;
    let row = k / width;
    let x = k % width;
    assert(k == row * width + x && 0 <= x < width) by (nonlinear_arith)
        requires
            width > 0,
            row == k / width,
            x == k % width,
    ;
    assert(0 <= row < height) by (nonlinear_arith)
        requires
            0 <= k < height * width,
            k == row * width + x,
            0 <= x < width,
    ;
    (row, x, at % 3)
}

/// A complete image is determined by its pixels: two complete images of the
/// same dimensions that agree on every pixel hold the same bytes, and so
/// serialize to the same file.
pub proof fn lemma_pixels_determine_image(a: Bitmap, b: Bitmap)
    requires
        a.is_complete(),
        b.is_complete(),
        a.spec_width() == b.spec_width(),
        a.spec_height() == b.spec_height(),
        forall|x: int, y: int|
            0 <= x < a.spec_width() && 0 <= y < a.spec_height() ==> #[trigger] a.pixel_at(x, y)
                == b.pixel_at(x, y),
    ensures
        a@ == b@,
        header_bytes(a.spec_width(), a.spec_height()) + a@.pixels == header_bytes(
            b.spec_width(),
            b.spec_height(),
        ) + b@.pixels,
{
    let width = a.spec_width() as int;
    let height = a.spec_height() as int;
    assert forall|at: int| 0 <= at < a@.pixels.len() implies a@.pixels[at] == b@.pixels[at] by {
        let (row, x, k) = lemma_locate_byte(width, height, at);
        let y = height - 1 - row;
        assert(a.pixel_at(x, y) == b.pixel_at(x, y));
        assert(a.pixel_at(x, y) == stored_pixel(a@.pixels, width, row, x));
        assert(b.pixel_at(x, y) == stored_pixel(b@.pixels, width, row, x));
    }
    assert(a@.pixels =~= b@.pixels);
}

} // verus!
