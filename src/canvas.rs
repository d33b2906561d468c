//! The raster that a CAPTCHA is composed on, its palettes, and the
//! whole-buffer wave remap.
use image::{ImageBuffer, Rgb};
use imageproc::drawing::draw_hollow_ellipse_mut;
use crate::distortion::warped_pixel;
use vstd::prelude::*;

verus! {

/// The least and largest canvas sizes that a CAPTCHA is built at.
pub const MIN_WIDTH: u32 = 30;
pub const MAX_WIDTH: u32 = 2000;
pub const MIN_HEIGHT: u32 = 20;
pub const MAX_HEIGHT: u32 = 2000;

/// One pixel: red, green and blue.
pub type Color = [u8; 3];

/// Glyph and decoy colors on a light background.
pub const LIGHT_BASIC_COLOR: [Color; 5] = [
    [214, 14, 50],
    [240, 181, 41],
    [176, 203, 40],
    [105, 137, 194],
    [242, 140, 71],
];

/// Glyph and decoy colors on a dark background.
pub const DARK_BASIC_COLOR: [Color; 5] = [
    [251, 188, 5],
    [116, 192, 255],
    [255, 224, 133],
    [198, 215, 97],
    [247, 185, 168],
];

/// Background of a light canvas.
pub const LIGHT: Color = [224, 238, 253];

/// Background of a dark canvas.
pub const DARK: Color = [18, 18, 18];

/// The color of the copy drawn beneath each glyph when shadows are on.
pub const SHADOW: Color = [60, 60, 60];

/// The background color of a mode.
pub open spec fn background(dark_mode: bool) -> Color {
    if dark_mode { DARK } else { LIGHT }
}

/// The palette of a mode.
pub open spec fn palette(dark_mode: bool) -> Seq<Color> {
    if dark_mode { DARK_BASIC_COLOR@ } else { LIGHT_BASIC_COLOR@ }
}

/// A color drawn uniformly from the palette of the mode.
pub fn get_color(dark_mode: bool) -> (c: Color)
    ensures
        palette(dark_mode).contains(c),
{
    let rnd = crate::text::get_rnd(4);
    if dark_mode {
        assert(DARK_BASIC_COLOR@[rnd as int] == DARK_BASIC_COLOR[rnd as int]);
        DARK_BASIC_COLOR[rnd]
    } else {
        assert(LIGHT_BASIC_COLOR@[rnd as int] == LIGHT_BASIC_COLOR[rnd as int]);
        LIGHT_BASIC_COLOR[rnd]
    }
}

/// A `width` by `height` RGB raster, row by row.
pub struct Canvas {
    width: u32,
    height: u32,
    pixels: Vec<Color>,
}

/// `x` held to `0..=hi`.
pub open spec fn clamp_to(x: int, hi: int) -> int {
    if x < 0 { 0 } else if x > hi { hi } else { x }
}

impl Canvas {
    pub closed spec fn spec_width(&self) -> nat {
        self.width as nat
    }

    pub closed spec fn spec_height(&self) -> nat {
        self.height as nat
    }

    /// The pixels, row by row: pixel `(x, y)` is at `y * width + x`.
    pub closed spec fn view(&self) -> Seq<Color> {
        self.pixels@
    }

    /// The buffer holds exactly one pixel per position.
    pub open spec fn wf(&self) -> bool {
        &&& self@.len() == self.spec_width() * self.spec_height()
        &&& self.spec_width() * self.spec_height() <= usize::MAX
    }

    /// The pixel at column `x`, row `y`.
    pub open spec fn pixel(&self, x: int, y: int) -> Color {
        self@[y * self.spec_width() + x]
    }

    pub fn width(&self) -> (r: u32)
        ensures
            r == self.spec_width(),
    {
        self.width
    }

    pub fn height(&self) -> (r: u32)
        ensures
            r == self.spec_height(),
    {
        self.height
    }

    /// The pixels, row by row.
    pub fn pixels(&self) -> (r: &Vec<Color>)
        ensures
            r@ == self@,
    {
        &self.pixels
    }

    /// A canvas of the given size, every pixel set to `color`.
    pub fn filled(width: u32, height: u32, color: Color) -> (c: Canvas)
        requires
            width as int * height as int <= usize::MAX,
        ensures
            c.wf(),
            c.spec_width() == width,
            c.spec_height() == height,
            forall|i: int| 0 <= i < c@.len() ==> #[trigger] c@[i] == color,
    {
        let n: usize = width as usize * height as usize;
        let mut pixels: Vec<Color> = Vec::new();
        let mut k: usize = 0;
        while k < n
            invariant
                k <= n,
                pixels@.len() == k,
                forall|i: int| 0 <= i < k ==> #[trigger] pixels@[i] == color,
            decreases n - k,
        {
            pixels.push(color);
            k += 1;
        }
        Canvas { width, height, pixels }
    }

    /// A canvas over the given pixels, row by row; `None` where there is
    /// not exactly one pixel per position.
    pub fn from_pixels(width: u32, height: u32, pixels: Vec<Color>) -> (r: Option<Canvas>)
        ensures
            r is Some <==> pixels@.len() == width as int * height as int,
            r matches Some(c) ==> c.wf() && c.spec_width() == width && c.spec_height() == height && c@ == pixels@,
    {
        proof {
            assert(width as int * height as int <= u32::MAX as int * u32::MAX as int) by (nonlinear_arith)
                requires width <= u32::MAX, height <= u32::MAX;
        }
        let n: u128 = width as u128 * height as u128;
        if pixels.len() as u128 == n {
            Some(Canvas { width, height, pixels })
        } else {
            None
        }
    }

    /// The pixels, row by row, handed over.
    pub fn into_pixels(self) -> (r: Vec<Color>)
        ensures
            r@ == self@,
    {
        self.pixels
    }

    /// Pixel `(x, y)`.
    pub fn get_pixel(&self, x: u32, y: u32) -> (c: Color)
        requires
            self.wf(),
            x < self.spec_width(),
            y < self.spec_height(),
        ensures
            c == self.pixel(x as int, y as int),
    {
        proof { lemma_index_in_bounds(x as int, y as int, self.width as int, self.height as int); }
        self.pixels[y as usize * self.width as usize + x as usize]
    }

    /// Sets pixel `(x, y)` to `color`, leaving every other pixel as it was.
    pub fn set_pixel(&mut self, x: u32, y: u32, color: Color)
        requires
            old(self).wf(),
            x < old(self).spec_width(),
            y < old(self).spec_height(),
        ensures
            final(self).wf(),
            final(self).spec_width() == old(self).spec_width(),
            final(self).spec_height() == old(self).spec_height(),
            final(self)@ == old(self)@.update(y * old(self).spec_width() + x, color),
    {
        proof { lemma_index_in_bounds(x as int, y as int, self.width as int, self.height as int); }
        let i = y as usize * self.width as usize + x as usize;
        self.pixels.set(i, color);
    }

    /// Draws the outline of a circle of radius `radius` around `(cx, cy)`;
    /// the part that falls outside the canvas is dropped.
    pub fn draw_hollow_circle(&mut self, cx: i32, cy: i32, radius: i32, color: Color)
        requires
            old(self).wf(),
            circle_drawable(cx as int, cy as int, radius as int),
        ensures
            final(self).wf(),
            final(self).spec_width() == old(self).spec_width(),
            final(self).spec_height() == old(self).spec_height(),
            final(self)@ == hollow_circle_of(old(self)@, old(self).spec_width(), old(self).spec_height(), cx, cy, radius, color),
            forall|i: int| 0 <= i < final(self)@.len() ==> #[trigger] final(self)@[i] == old(self)@[i] || final(self)@[i] == color,
    {
        draw_hollow_ellipse(self, cx, cy, radius, color);
    }
}

/// `v + shift` held to `0..=hi`.
fn shift_clamped(v: u32, shift: i32, hi: u32) -> (r: u32)
    ensures
        r == clamp_to(v + shift, hi as int),
{
    let s: i64 = v as i64 + shift as i64;
    if s < 0 {
        0
    } else if s > hi as i64 {
        hi
    } else {
        s as u32
    }
}

impl Canvas {
    /// Rewrites every pixel from a snapshot of the canvas: pixel `(x, y)`
    /// becomes the one at `(x + x_shift[y], y + y_shift[x])`, clamped to
    /// the edges.
    pub fn warp(&mut self, x_shift: &Vec<i32>, y_shift: &Vec<i32>)
        requires
            old(self).wf(),
            x_shift@.len() == old(self).spec_height(),
            y_shift@.len() == old(self).spec_width(),
        ensures
            final(self).wf(),
            final(self).spec_width() == old(self).spec_width(),
            final(self).spec_height() == old(self).spec_height(),
            forall|x: int, y: int|
                0 <= x < old(self).spec_width() && 0 <= y < old(self).spec_height()
                    ==> #[trigger] final(self).pixel(x, y) == warped_pixel(*old(self), x_shift@, y_shift@, x, y),
    {
        let w = self.width();
        let h = self.height();
        let mut out: Vec<Color> = Vec::new();
        let mut y: u32 = 0;
        while y < h
            invariant
                self.wf(),
                w == self.spec_width(),
                h == self.spec_height(),
                x_shift@.len() == h,
                y_shift@.len() == w,
                y <= h,
                out@.len() == y * w,
                forall|xx: int, yy: int|
                    0 <= xx < w && 0 <= yy < y ==> #[trigger] out@[yy * w + xx] == warped_pixel(*self, x_shift@, y_shift@, xx, yy),
            decreases h - y,
        {
            let mut x: u32 = 0;
            while x < w
                invariant
                    self.wf(),
                    w == self.spec_width(),
                    h == self.spec_height(),
                    x_shift@.len() == h,
                    y_shift@.len() == w,
                    y < h,
                    x <= w,
                    out@.len() == y * w + x,
                    forall|xx: int, yy: int|
                        0 <= xx < w && 0 <= yy < y ==> #[trigger] out@[yy * w + xx] == warped_pixel(*self, x_shift@, y_shift@, xx, yy),
                    forall|xx: int| 0 <= xx < x ==> #[trigger] out@[y * w + xx] == warped_pixel(*self, x_shift@, y_shift@, xx, y as int),
                decreases w - x,
            {
                let sx = shift_clamped(x, x_shift[y as usize], w - 1);
                let sy = shift_clamped(y, y_shift[x as usize], h - 1);
                let p = self.get_pixel(sx, sy);
                proof {
                    assert forall|xx: int, yy: int| 0 <= xx < w && 0 <= yy < y implies #[trigger] (yy * w + xx) < y * w by {
                        lemma_index_in_bounds(xx, yy, w as int, y as int);
                        assert(w * y == y * w) by (nonlinear_arith);
                    }
                }
                out.push(p);
                x += 1;
            }
            assert((y + 1) * w == y * w + w) by (nonlinear_arith);
            y += 1;
        }
        assert(out@.len() == w * h) by (nonlinear_arith)
            requires out@.len() == y * w, y == h;
        self.pixels = out;
    }
}

/// Bounds on a circle under which drawing it stays clear of `i32`
/// overflow: a radius up to 4096 and a center within 2^30 of the origin.
pub open spec fn circle_drawable(cx: int, cy: int, radius: int) -> bool {
    &&& 0 <= radius <= 4096
    &&& -0x4000_0000 <= cx <= 0x4000_0000
    &&& -0x4000_0000 <= cy <= 0x4000_0000
}

/// The pixels that imageproc's circle outline of this center, radius and
/// color leaves on a canvas of these pixels and this size.
pub uninterp spec fn hollow_circle_of(
    pixels: Seq<Color>,
    width: nat,
    height: nat,
    cx: i32,
    cy: i32,
    radius: i32,
    color: Color,
) -> Seq<Color>;

/// Relies on imageproc's `draw_hollow_ellipse_mut` with equal radii, which
/// draws the midpoint circle: on an image of the same size it sets some
/// in-bounds pixels to `color` and leaves the others. Its `i32` arithmetic
/// stays in range under `circle_drawable`.
#[verifier::external_body]
fn draw_hollow_ellipse(canvas: &mut Canvas, cx: i32, cy: i32, radius: i32, color: Color)
    requires
        old(canvas).wf(),
        circle_drawable(cx as int, cy as int, radius as int),
    ensures
        final(canvas)@ == hollow_circle_of(old(canvas)@, old(canvas).spec_width(), old(canvas).spec_height(), cx, cy, radius, color),
        final(canvas).wf(),
        final(canvas).spec_width() == old(canvas).spec_width(),
        final(canvas).spec_height() == old(canvas).spec_height(),
        forall|i: int| 0 <= i < final(canvas)@.len() ==> #[trigger] final(canvas)@[i] == old(canvas)@[i] || final(canvas)@[i] == color,
{
    let flat = std::mem::take(&mut canvas.pixels).concat();
    let mut img = ImageBuffer::<Rgb<u8>, Vec<u8>>::from_raw(canvas.width, canvas.height, flat).unwrap();
    draw_hollow_ellipse_mut(&mut img, (cx, cy), radius, radius, Rgb(color));
    canvas.pixels = img.into_raw().chunks_exact(3).map(|p| [p[0], p[1], p[2]]).collect();
}

/// Row-major indices of a `w` by `h` grid stay inside it.
pub proof fn lemma_index_in_bounds(x: int, y: int, w: int, h: int)
    requires
        0 <= x < w,
        0 <= y < h,
    ensures
        0 <= y * w + x < w * h,
        y * w + x + 1 <= (y + 1) * w,
{
    assert(y * w + x < w * h) by (nonlinear_arith)
        requires 0 <= x < w, 0 <= y < h;
    assert(0 <= y * w) by (nonlinear_arith)
        requires 0 <= y, 0 <= w;
    assert((y + 1) * w == y * w + w) by (nonlinear_arith);
}

/// A fresh canvas of the given size in the background color of the mode.
pub fn get_image(width: u32, height: u32, dark_mode: bool) -> (c: Canvas)
    requires
        width as int * height as int <= usize::MAX,
    ensures
        c.wf(),
        c.spec_width() == width,
        c.spec_height() == height,
        forall|i: int| 0 <= i < c@.len() ==> #[trigger] c@[i] == background(dark_mode),
{
    let color = if dark_mode { DARK } else { LIGHT };
    Canvas::filled(width, height, color)
}

} // verus!
