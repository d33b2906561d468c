//! Where glyphs and decoys go: the geometry and colors that the drawing
//! stages put on a canvas, and the strength of the noise laid over it.
use crate::canvas::{circle_drawable, get_color, hollow_circle_of, palette, Color, MAX_HEIGHT, MAX_WIDTH};
use crate::text::get_rnd;
use vstd::prelude::*;

verus! {

/// Font size tier of the glyphs.
#[derive(Clone, Copy, Debug, PartialEq, Eq, Structural)]
pub enum GlyphScale {
    /// For six or more characters.
    Small,
    /// For four or five characters.
    Medium,
    /// For one to three characters.
    Large,
}

/// The tier that keeps `len` glyphs inside the canvas.
pub open spec fn scale_for(len: int) -> GlyphScale {
    if 1 <= len <= 3 {
        GlyphScale::Large
    } else if 4 <= len <= 5 {
        GlyphScale::Medium
    } else {
        GlyphScale::Small
    }
}

/// Left edge of the first glyph slot, and the margin taken off the width.
pub const LEFT: u32 = 5;
pub const MARGIN: u32 = 10;

/// How far right and down a glyph's shadow is drawn.
pub const SHADOW_OFFSET: i32 = 2;

/// Placement of the solution's glyphs: glyph `i` is drawn at
/// `(LEFT + i * slot_width, top)` in `colors[i]`, with a dark copy two
/// pixels right and down beneath it where `shadow` is set.
pub struct GlyphLayout {
    pub scale: GlyphScale,
    pub slot_width: u32,
    pub top: i32,
    pub shadow: bool,
    pub colors: Vec<Color>,
}

impl GlyphLayout {
    /// All slots together fit in the width.
    pub open spec fn wf(&self) -> bool {
        self.slot_width as int * self.colors@.len() <= u32::MAX
    }

    /// Left edge of glyph `i`.
    pub fn x_of(&self, i: usize) -> (r: u64)
        requires
            self.wf(),
            i < self.colors@.len(),
        ensures
            r == LEFT + i * self.slot_width,
    {
        proof {
            assert(i as int * self.slot_width as int <= u32::MAX) by (nonlinear_arith)
                requires i < self.colors@.len(), self.slot_width as int * self.colors@.len() <= u32::MAX;
        }
        LEFT as u64 + i as u64 * self.slot_width as u64
    }
}

/// Width of one glyph slot: the width less the margin, shared evenly.
pub open spec fn slot_width_for(len: int, width: int) -> int {
    if len == 0 || width < MARGIN { 0 } else { (width - MARGIN) / len }
}

/// The layout of `len` glyphs on a `width` by `height` canvas: a slot
/// each, the baseline near the middle, a size tier by count, and a color
/// drawn from the mode's palette for each glyph.
pub fn glyph_layout(len: usize, width: u32, height: u32, dark_mode: bool, drop_shadow: bool) -> (r: GlyphLayout)
    ensures
        r.wf(),
        r.scale == scale_for(len as int),
        r.slot_width == slot_width_for(len as int, width as int),
        r.top == height / 2 - 15,
        r.shadow == drop_shadow,
        r.colors@.len() == len,
        forall|i: int| 0 <= i < len ==> palette(dark_mode).contains(#[trigger] r.colors@[i]),
{
    let scale = if 1 <= len && len <= 3 {
        GlyphScale::Large
    } else if 4 <= len && len <= 5 {
        GlyphScale::Medium
    } else {
        GlyphScale::Small
    };
    let slot_width: u32 = if len == 0 || width < MARGIN {
        0
    } else {
        let usable: u64 = (width - MARGIN) as u64;
        let s = usable / len as u64;
        proof {
            vstd::arithmetic::div_mod::lemma_fundamental_div_mod(usable as int, len as int);
            assert(0 <= usable as int % len as int);
            assert(s as int * len as int <= usable) by (nonlinear_arith)
                requires usable as int == len as int * s as int + usable as int % len as int, 0 <= usable as int % len as int;
        }
        s as u32
    };
    let mut colors: Vec<Color> = Vec::new();
    let mut k: usize = 0;
    while k < len
        invariant
            k <= len,
            colors@.len() == k,
            forall|i: int| 0 <= i < k ==> palette(dark_mode).contains(#[trigger] colors@[i]),
        decreases len - k,
    {
        colors.push(get_color(dark_mode));
        k += 1;
    }
    let top: i32 = (height / 2) as i32 - 15;
    GlyphLayout { scale, slot_width, top, shadow: drop_shadow, colors }
}

/// A decoy cubic Bézier curve from `start` to `end` through two control points.
#[derive(Clone, Copy, Debug, PartialEq, Eq)]
pub struct Curve {
    pub start: (u32, u32),
    pub end: (u32, u32),
    pub control1: (u32, u32),
    pub control2: (u32, u32),
    pub color: Color,
}

/// The bounds a decoy curve keeps on a `width` by `height` canvas: it runs
/// from the left edge, upper half, to the right edge, lower half, so that it
/// crosses the text; its control points lie in the middle half of the width.
pub open spec fn curve_fits(c: Curve, width: int, height: int, dark_mode: bool) -> bool {
    &&& c.start.0 == 5 && 5 <= c.start.1 <= height / 2
    &&& c.end.0 == width - 5 && height / 2 <= c.end.1 <= height - 5
    &&& width / 4 <= c.control1.0 <= width / 4 * 3 && 5 <= c.control1.1 <= height - 5
    &&& width / 4 <= c.control2.0 <= width / 4 * 3 && 5 <= c.control2.1 <= height - 5
    &&& palette(dark_mode).contains(c.color)
}

/// The least width and height on which decoy curves are drawn: below
/// them the ranges the points are drawn from would be empty.
pub const MIN_CURVE_WIDTH: u32 = 6;
pub const MIN_CURVE_HEIGHT: u32 = 10;

/// A random decoy curve, `None` on a canvas narrower or lower than the
/// curve minimum.
pub fn draw_interference_line(width: u32, height: u32, dark_mode: bool) -> (r: Option<Curve>)
    ensures
        r is None <==> (width < MIN_CURVE_WIDTH || height < MIN_CURVE_HEIGHT),
        r matches Some(c) ==> curve_fits(c, width as int, height as int, dark_mode),
{
    if width < MIN_CURVE_WIDTH || height < MIN_CURVE_HEIGHT {
        return None;
    }
    let y1 = 5 + get_rnd((height / 2 - 5) as usize) as u32;
    let y2 = height / 2 + get_rnd((height - 5 - height / 2) as usize) as u32;
    let cx1 = width / 4 + get_rnd((width / 4 * 3 - width / 4) as usize) as u32;
    let cy1 = 5 + get_rnd((height - 10) as usize) as u32;
    let cx2 = width / 4 + get_rnd((width / 4 * 3 - width / 4) as usize) as u32;
    let cy2 = 5 + get_rnd((height - 10) as usize) as u32;
    let color = get_color(dark_mode);
    Some(Curve { start: (5, y1), end: (width - 5, y2), control1: (cx1, cy1), control2: (cx2, cy2), color })
}

/// A decoy circle outline.
#[derive(Clone, Copy, Debug, PartialEq, Eq)]
pub struct Ring {
    pub center: (i32, i32),
    pub radius: i32,
    pub color: Color,
}

/// The largest radius a decoy ring takes: 15, or less where the canvas is
/// too small to hold a ring that size.
pub open spec fn ring_max_radius(width: int, height: int) -> int {
    let side = if width < height { width } else { height };
    if (side - 1) / 2 < 15 { (side - 1) / 2 } else { 15 }
}

/// The least radius a decoy ring takes: 10, or the largest where that is less.
pub open spec fn ring_min_radius(width: int, height: int) -> int {
    if ring_max_radius(width, height) < 10 { ring_max_radius(width, height) } else { 10 }
}

/// The bounds a decoy ring keeps: a radius between the two above, and a
/// center that keeps the whole ring inside the canvas.
pub open spec fn ring_fits(r: Ring, width: int, height: int, dark_mode: bool) -> bool {
    &&& ring_min_radius(width, height) <= r.radius <= ring_max_radius(width, height)
    &&& r.radius <= r.center.0 && r.center.0 + r.radius < width
    &&& r.radius <= r.center.1 && r.center.1 + r.radius < height
    &&& palette(dark_mode).contains(r.color)
}

/// The least width and height on which decoy rings are drawn.
pub const MIN_RING_SIDE: u32 = 6;

/// A random decoy ring inside the canvas, `None` on a canvas of five
/// pixels or fewer either way.
pub fn draw_interference_ellipse(width: u32, height: u32, dark_mode: bool) -> (r: Option<Ring>)
    requires
        width <= MAX_WIDTH,
        height <= MAX_HEIGHT,
    ensures
        r is None <==> (width < MIN_RING_SIDE || height < MIN_RING_SIDE),
        r matches Some(g) ==> ring_fits(g, width as int, height as int, dark_mode),
{
    if width < MIN_RING_SIDE || height < MIN_RING_SIDE {
        return None;
    }
    let side = if width < height { width } else { height };
    let hi: u32 = if (side - 1) / 2 < 15 { (side - 1) / 2 } else { 15 };
    let lo: u32 = if hi < 10 { hi } else { 10 };
    let radius = lo + get_rnd((hi - lo) as usize) as u32;
    let x = radius + get_rnd((width - 1 - 2 * radius) as usize) as u32;
    let y = radius + get_rnd((height - 1 - 2 * radius) as usize) as u32;
    let color = get_color(dark_mode);
    Some(Ring { center: (x as i32, y as i32), radius: radius as i32, color })
}

/// A ring's outline can be drawn without overflow.
pub open spec fn ring_drawable(g: Ring) -> bool {
    circle_drawable(g.center.0 as int, g.center.1 as int, g.radius as int)
}

/// The pixels after drawing `rings` in order on a canvas of these pixels
/// and this size.
pub open spec fn rings_drawn(pixels: Seq<Color>, width: nat, height: nat, rings: Seq<Ring>) -> Seq<Color>
    decreases rings.len(),
{
    if rings.len() == 0 {
        pixels
    } else {
        let g = rings.last();
        hollow_circle_of(rings_drawn(pixels, width, height, rings.drop_last()), width, height, g.center.0, g.center.1, g.radius, g.color)
    }
}

/// Strength of the noise laid over a finished canvas: Gaussian noise of
/// the given mean and standard deviation, then salt-and-pepper noise that
/// flips `salt_pepper_per_mille` pixels in a thousand.
#[derive(Clone, Copy, Debug, PartialEq, Eq, Structural)]
pub struct Noise {
    pub mean: u32,
    pub stddev: u32,
    pub salt_pepper_per_mille: u32,
}

/// The noise of a complexity level: none at level 1, and from there mean,
/// spread and flip rate growing linearly.
pub open spec fn noise_spec(complexity: int) -> Option<Noise> {
    if complexity <= 1 {
        None
    } else {
        Some(Noise {
            mean: (complexity - 1) as u32,
            stddev: (5 * complexity - 5) as u32,
            salt_pepper_per_mille: (2 * complexity - 2) as u32,
        })
    }
}

/// The noise of a complexity level (at most 10).
pub fn noise_for(complexity: u32) -> (r: Option<Noise>)
    requires
        complexity <= 10,
    ensures
        r == noise_spec(complexity as int),
{
    if complexity <= 1 {
        None
    } else {
        Some(Noise { mean: complexity - 1, stddev: 5 * complexity - 5, salt_pepper_per_mille: 2 * complexity - 2 })
    }
}

} // verus!

verus! {

/// Everything a captcha's drawing stages put on its canvas after the
/// background: the glyphs, the decoy curves and rings, the strength of the
/// wave warp (0 for none) and the noise.
pub struct Scene {
    pub glyphs: GlyphLayout,
    pub curves: Vec<Curve>,
    pub rings: Vec<Ring>,
    pub distortion: u32,
    pub noise: Option<Noise>,
}

} // verus!
