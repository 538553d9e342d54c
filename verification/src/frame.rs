//! Captured frames: RGBA pixels, row by row, four bytes per pixel.

use vstd::prelude::*;

verus! {

/// A captured frame of `width` by `height` RGBA pixels. `data` holds the rows from
/// top to bottom, each pixel as four bytes (red, green, blue, alpha).
pub struct RgbaImage {
    pub width: u32,
    pub height: u32,
    pub data: Vec<u8>,
}

impl RgbaImage {
    /// The buffer holds exactly the frame's pixels.
    pub open spec fn wf(&self) -> bool {
        self.data@.len() == self.width * self.height * 4
    }
}

/// Where channel `ch` of the pixel at column `col`, row `row` lies in the bytes of a
/// frame `width` pixels wide.
pub open spec fn pixel_index(width: int, col: int, row: int, ch: int) -> int {
    (row * width + col) * 4 + ch
}

/// The bytes of the `w` by `h` rectangle whose top-left pixel is at column `x`, row
/// `y` of a frame `src_width` pixels wide holding `src`.
pub open spec fn cropped(src: Seq<u8>, src_width: int, x: int, y: int, w: int, h: int) -> Seq<u8> {
    Seq::new(
        (w * h * 4) as nat,
        |k: int| src[pixel_index(src_width, x + (k / 4) % w, y + (k / 4) / w, k % 4)],
    )
}

/// A crop holds `w * h` pixels, and its pixel at column `col`, row `row` is the
/// source's pixel at column `x + col`, row `y + row`, channel by channel.
pub proof fn lemma_cropped_pixels(src: Seq<u8>, src_width: int, x: int, y: int, w: int, h: int)
    requires
        w > 0,
        h >= 0,
    ensures
        cropped(src, src_width, x, y, w, h).len() == w * h * 4,
        forall|col: int, row: int, ch: int|
            0 <= col < w && 0 <= row < h && 0 <= ch < 4 ==> #[trigger] cropped(
                src,
                src_width,
                x,
                y,
                w,
                h,
            )[pixel_index(w, col, row, ch)] == src[pixel_index(src_width, x + col, y + row, ch)],
{
    assert(w * h * 4 >= 0) by (nonlinear_arith)
        requires
            w > 0,
            h >= 0,
    ;
    assert forall|col: int, row: int, ch: int|
        0 <= col < w && 0 <= row < h && 0 <= ch < 4 implies #[trigger] cropped(
        src,
        src_width,
        x,
        y,
        w,
        h,
    )[pixel_index(w, col, row, ch)] == src[pixel_index(src_width, x + col, y + row, ch)] by {
        let k: int = pixel_index(w, col, row, ch);
        let p: int = row * w + col;
        assert(0 <= k < w * h * 4 && k / 4 == p && k % 4 == ch) by (nonlinear_arith)
            requires
                k == (row * w + col) * 4 + ch,
                p == row * w + col,
                0 <= col < w,
                0 <= row < h,
                0 <= ch < 4,
        ;
        assert(p % w == col && p / w == row) by (nonlinear_arith)
            requires
                p == row * w + col,
                0 <= col < w,
                0 <= row,
        ;
    }
}

/// Keeping a rectangle that covers the whole frame keeps the frame as it is.
pub proof fn lemma_whole_frame_crop(src: Seq<u8>, width: int, height: int)
    requires
        width > 0,
        height >= 0,
        src.len() == width * height * 4,
    ensures
        cropped(src, width, 0, 0, width, height) == src,
{
    let out = cropped(src, width, 0, 0, width, height);
    assert forall|k: int| 0 <= k < src.len() implies out[k] == src[k] by {
        let p: int = k / 4;
        assert(k == p * 4 + k % 4) by (nonlinear_arith)
            requires
                p == k / 4,
        ;
        assert(p == (p / width) * width + p % width) by (nonlinear_arith)
            requires
                width > 0,
        ;
        assert(pixel_index(width, 0 + p % width, 0 + p / width, k % 4) == k) by (nonlinear_arith)
            requires
                k == p * 4 + k % 4,
                p == (p / width) * width + p % width,
        ;
    }
    assert(out =~= src);
}

/// Copies the `w` by `h` rectangle at column `x`, row `y` out of `pic`, through
/// `image::GenericImageView::view` and `image::SubImage::to_image`. Believed: the
/// result is `w` by `h` and holds, pixel for pixel, the rectangle of `pic`, as those
/// functions document; `view` panics when the rectangle leaves the frame, which the
/// `requires` rules out, and `ImageBuffer::from_raw` accepts a buffer of exactly
/// `width * height * 4` bytes.
#[verifier::external_body]
pub(crate) fn crop_frame(pic: &RgbaImage, x: u32, y: u32, w: u32, h: u32) -> (out: RgbaImage)
    requires
        pic.wf(),
        x + w <= pic.width,
        y + h <= pic.height,
    ensures
        out.width == w,
        out.height == h,
        out.data@ == cropped(pic.data@, pic.width as int, x as int, y as int, w as int, h as int),
{
    let buf = image::RgbaImage::from_raw(pic.width, pic.height, pic.data.clone()).unwrap();
    let sub = image::GenericImageView::view(&buf, x, y, w, h).to_image();
    RgbaImage { width: w, height: h, data: sub.into_raw() }
}

} // verus!
