//! Distorted verification images (CAPTCHAs) and a stateless, signed
//! token scheme for checking a submitted answer.
//!
//! A [`CaptchaBuilder`] resolves its options into one [`Captcha`]: the
//! solution text, a canvas in the background color of the chosen mode, and
//! the [`scene::Scene`] that the drawing stages lay on it (glyphs, decoy
//! curves and rings, a wave warp, noise).
use vstd::prelude::*;
use vstd::string::StrSliceExecFns;

pub mod canvas;
pub mod distortion;
pub mod encode;
pub mod scene;
pub mod stateless;
pub mod text;

pub use stateless::{sign, verify};

use crate::canvas::{background, get_image, Canvas, MAX_HEIGHT, MAX_WIDTH, MIN_HEIGHT, MIN_WIDTH};
use crate::distortion::apply_wavy_distortion;
use crate::encode::{jpeg_encodable, jpeg_of, jpeg_uri_of, jpeg_uri_prefix, to_base64_str, to_jpeg_bytes};
use crate::scene::{
    curve_fits, draw_interference_ellipse, draw_interference_line, glyph_layout, noise_for, noise_spec,
    ring_drawable, ring_fits, rings_drawn, scale_for, slot_width_for, Curve, Ring, Scene,
};
use crate::stateless::{base64_url_of, token_bytes};
use crate::text::{drawn_from, generate, BASIC_CHAR, MAX_LENGTH, MIN_LENGTH};
use vstd::string::StringSliceAdditionalSpecFns;

verus! {

/// `v` held to `lo..=hi`.
pub open spec fn clamp(v: int, lo: int, hi: int) -> int {
    if v < lo { lo } else if v > hi { hi } else { v }
}

pub const MIN_COMPLEXITY: u32 = 1;
pub const MAX_COMPLEXITY: u32 = 10;
pub const MIN_COMPRESSION: u8 = 1;
pub const MAX_COMPRESSION: u8 = 99;

/// The options of a builder, as values.
pub struct BuilderView {
    pub text: Option<Seq<char>>,
    pub length: int,
    pub characters: Seq<char>,
    pub width: int,
    pub height: int,
    pub dark_mode: bool,
    pub complexity: int,
    pub compression: int,
    pub drop_shadow: bool,
    pub interference_lines: int,
    pub interference_ellipses: int,
    pub distortion: int,
}

/// The defaults: five characters of the default alphabet on a light
/// 130 by 40 canvas, no noise, quality 40, no shadow, two decoy curves,
/// two decoy rings, no warp.
pub open spec fn default_view() -> BuilderView {
    BuilderView {
        text: None,
        length: 5,
        characters: BASIC_CHAR@,
        width: 130,
        height: 40,
        dark_mode: false,
        complexity: 1,
        compression: 40,
        drop_shadow: false,
        interference_lines: 2,
        interference_ellipses: 2,
        distortion: 0,
    }
}

/// A generated CAPTCHA: its solution, its canvas, the mode it was drawn
/// in, the JPEG quality it is encoded at, and what is drawn on the canvas.
pub struct Captcha {
    pub text: String,
    pub image: Canvas,
    pub dark_mode: bool,
    pub compression: u8,
    pub scene: Scene,
}

/// Options for one CAPTCHA. Out-of-range numbers are clamped as they are
/// set; the solution is drawn at `build` unless a text was given.
#[derive(Clone)]
pub struct CaptchaBuilder {
    text: Option<String>,
    length: usize,
    characters: Vec<char>,
    width: u32,
    height: u32,
    dark_mode: bool,
    complexity: u32,
    compression: u8,
    drop_shadow: bool,
    interference_lines: usize,
    interference_ellipses: usize,
    distortion: u32,
}

impl CaptchaBuilder {
    pub closed spec fn view(&self) -> BuilderView {
        BuilderView {
            text: match self.text {
                Some(t) => Some(t@),
                None => None,
            },
            length: self.length as int,
            characters: self.characters@,
            width: self.width as int,
            height: self.height as int,
            dark_mode: self.dark_mode,
            complexity: self.complexity as int,
            compression: self.compression as int,
            drop_shadow: self.drop_shadow,
            interference_lines: self.interference_lines as int,
            interference_ellipses: self.interference_ellipses as int,
            distortion: self.distortion as int,
        }
    }

    /// Every option lies in its range.
    pub open spec fn wf(&self) -> bool {
        &&& self@.characters.len() > 0
        &&& MIN_LENGTH <= self@.length <= MAX_LENGTH
        &&& MIN_WIDTH <= self@.width <= MAX_WIDTH
        &&& MIN_HEIGHT <= self@.height <= MAX_HEIGHT
        &&& MIN_COMPLEXITY <= self@.complexity <= MAX_COMPLEXITY
        &&& MIN_COMPRESSION <= self@.compression <= MAX_COMPRESSION
        &&& 0 <= self@.interference_lines <= usize::MAX
        &&& 0 <= self@.interference_ellipses <= usize::MAX
        &&& 0 <= self@.distortion <= u32::MAX
    }

    /// A builder with the default options.
    pub fn new() -> (r: Self)
        ensures
            r.wf(),
            r@ == default_view(),
    {
        let mut characters: Vec<char> = Vec::new();
        let mut k: usize = 0;
        while k < 54
            invariant
                k <= 54,
                characters@ == BASIC_CHAR@.subrange(0, k as int),
            decreases 54 - k,
        {
            characters.push(BASIC_CHAR[k]);
            k += 1;
            assert(characters@ =~= BASIC_CHAR@.subrange(0, k as int));
        }
        assert(BASIC_CHAR@.subrange(0, 54) =~= BASIC_CHAR@);
        CaptchaBuilder {
            text: None,
            length: 5,
            characters,
            width: 130,
            height: 40,
            dark_mode: false,
            complexity: 1,
            compression: 40,
            drop_shadow: false,
            interference_lines: 2,
            interference_ellipses: 2,
            distortion: 0,
        }
    }

    /// Uses `text` as the solution, verbatim. An empty text leaves the
    /// solution to be drawn at random.
    pub fn text(self, text: String) -> (r: Self)
        requires
            self.wf(),
        ensures
            r.wf(),
            r@ == (BuilderView { text: Some(text@), ..self@ }),
    {
        CaptchaBuilder { text: Some(text), ..self }
    }

    /// The length of a drawn solution, held to 1..=16.
    pub fn length(self, length: usize) -> (r: Self)
        requires
            self.wf(),
        ensures
            r.wf(),
            r@ == (BuilderView { length: clamp(length as int, MIN_LENGTH as int, MAX_LENGTH as int), ..self@ }),
    {
        let length = if length < MIN_LENGTH { MIN_LENGTH } else if length > MAX_LENGTH { MAX_LENGTH } else { length };
        CaptchaBuilder { length, ..self }
    }

    /// The alphabet a solution is drawn from; an empty one is ignored.
    pub fn characters(self, characters: Vec<char>) -> (r: Self)
        requires
            self.wf(),
        ensures
            r.wf(),
            characters@.len() > 0 ==> r@ == (BuilderView { characters: characters@, ..self@ }),
            characters@.len() == 0 ==> r@ == self@,
    {
        if characters.len() == 0 {
            self
        } else {
            CaptchaBuilder { characters, ..self }
        }
    }

    /// The canvas width, held to 30..=2000.
    pub fn width(self, width: u32) -> (r: Self)
        requires
            self.wf(),
        ensures
            r.wf(),
            r@ == (BuilderView { width: clamp(width as int, MIN_WIDTH as int, MAX_WIDTH as int), ..self@ }),
    {
        let width = if width < MIN_WIDTH { MIN_WIDTH } else if width > MAX_WIDTH { MAX_WIDTH } else { width };
        CaptchaBuilder { width, ..self }
    }

    /// The canvas height, held to 20..=2000.
    pub fn height(self, height: u32) -> (r: Self)
        requires
            self.wf(),
        ensures
            r.wf(),
            r@ == (BuilderView { height: clamp(height as int, MIN_HEIGHT as int, MAX_HEIGHT as int), ..self@ }),
    {
        let height = if height < MIN_HEIGHT { MIN_HEIGHT } else if height > MAX_HEIGHT { MAX_HEIGHT } else { height };
        CaptchaBuilder { height, ..self }
    }

    /// Dark background and the dark palette, or the light ones.
    pub fn dark_mode(self, dark_mode: bool) -> (r: Self)
        requires
            self.wf(),
        ensures
            r.wf(),
            r@ == (BuilderView { dark_mode, ..self@ }),
    {
        CaptchaBuilder { dark_mode, ..self }
    }

    /// The noise level, held to 1..=10; 1 is no noise.
    pub fn complexity(self, complexity: u32) -> (r: Self)
        requires
            self.wf(),
        ensures
            r.wf(),
            r@ == (BuilderView { complexity: clamp(complexity as int, MIN_COMPLEXITY as int, MAX_COMPLEXITY as int), ..self@ }),
    {
        let mut complexity = complexity;
        if complexity > MAX_COMPLEXITY {
            complexity = MAX_COMPLEXITY;
        }
        if complexity < MIN_COMPLEXITY {
            complexity = MIN_COMPLEXITY;
        }
        CaptchaBuilder { complexity, ..self }
    }

    /// The JPEG quality, held to 1..=99.
    pub fn compression(self, compression: u8) -> (r: Self)
        requires
            self.wf(),
        ensures
            r.wf(),
            r@ == (BuilderView { compression: clamp(compression as int, MIN_COMPRESSION as int, MAX_COMPRESSION as int), ..self@ }),
    {
        let compression = if compression < MIN_COMPRESSION {
            MIN_COMPRESSION
        } else if compression > MAX_COMPRESSION {
            MAX_COMPRESSION
        } else {
            compression
        };
        CaptchaBuilder { compression, ..self }
    }

    /// Whether each glyph gets a dark copy beneath it.
    pub fn drop_shadow(self, drop_shadow: bool) -> (r: Self)
        requires
            self.wf(),
        ensures
            r.wf(),
            r@ == (BuilderView { drop_shadow, ..self@ }),
    {
        CaptchaBuilder { drop_shadow, ..self }
    }

    /// The number of decoy curves.
    pub fn interference_lines(self, interference_lines: usize) -> (r: Self)
        requires
            self.wf(),
        ensures
            r.wf(),
            r@ == (BuilderView { interference_lines: interference_lines as int, ..self@ }),
    {
        CaptchaBuilder { interference_lines, ..self }
    }

    /// The number of decoy rings.
    pub fn interference_ellipses(self, interference_ellipses: usize) -> (r: Self)
        requires
            self.wf(),
        ensures
            r.wf(),
            r@ == (BuilderView { interference_ellipses: interference_ellipses as int, ..self@ }),
    {
        CaptchaBuilder { interference_ellipses, ..self }
    }

    /// The strength of the wave warp; 0 is none.
    pub fn distortion(self, distortion: u32) -> (r: Self)
        requires
            self.wf(),
        ensures
            r.wf(),
            r@ == (BuilderView { distortion: distortion as int, ..self@ }),
    {
        CaptchaBuilder { distortion, ..self }
    }
}

impl Default for CaptchaBuilder {
    fn default() -> (r: Self)
        ensures
            r.wf(),
            r@ == default_view(),
    {
        CaptchaBuilder::new()
    }
}

/// The text a builder's options fix as the solution: the given text,
/// unless it is empty.
pub open spec fn given_text(v: BuilderView) -> Option<Seq<char>> {
    match v.text {
        Some(t) => if t.len() > 0 { Some(t) } else { None },
        None => None,
    }
}

impl CaptchaBuilder {
    /// Resolves the options into one CAPTCHA: the given text, or one drawn
    /// from the alphabet at the set length; a canvas of the set size in the
    /// mode's background color; a glyph layout for the solution; the set
    /// numbers of decoy curves and rings; the warp strength; and the noise
    /// of the complexity level.
    pub fn build(self) -> (r: Captcha)
        requires
            self.wf(),
        ensures
            r.wf(),
            given_text(self@) matches Some(t) ==> r.text@ == t,
            given_text(self@) is None ==> r.text@.len() == self@.length && drawn_from(r.text@, self@.characters),
            r.image.spec_width() == self@.width,
            r.image.spec_height() == self@.height,
            forall|i: int| 0 <= i < r.image@.len() ==> #[trigger] r.image@[i] == background(self@.dark_mode),
            r.dark_mode == self@.dark_mode,
            r.compression == self@.compression,
            r.scene.glyphs.scale == scale_for(r.text@.len() as int),
            r.scene.glyphs.slot_width == slot_width_for(r.text@.len() as int, self@.width),
            r.scene.glyphs.top == self@.height / 2 - 15,
            r.scene.glyphs.shadow == self@.drop_shadow,
            forall|i: int| 0 <= i < r.text@.len() ==> canvas::palette(self@.dark_mode).contains(#[trigger] r.scene.glyphs.colors@[i]),
            r.scene.curves@.len() == self@.interference_lines,
            forall|i: int| 0 <= i < r.scene.curves@.len()
                ==> curve_fits(#[trigger] r.scene.curves@[i], self@.width, self@.height, self@.dark_mode),
            r.scene.rings@.len() == self@.interference_ellipses,
            forall|i: int| 0 <= i < r.scene.rings@.len()
                ==> ring_fits(#[trigger] r.scene.rings@[i], self@.width, self@.height, self@.dark_mode),
            r.scene.distortion == self@.distortion,
            r.scene.noise == noise_spec(self@.complexity),
    {
        let CaptchaBuilder {
            text,
            length,
            characters,
            width,
            height,
            dark_mode,
            complexity,
            compression,
            drop_shadow,
            interference_lines,
            interference_ellipses,
            distortion,
        } = self;
        let text = match text {
            Some(t) => {
                if t.as_str().is_empty() {
                    generate(&characters, length)
                } else {
                    t
                }
            },
            None => generate(&characters, length),
        };
        proof {
            assert(width as int * height as int <= 2000 * 2000) by (nonlinear_arith)
                requires width <= 2000, height <= 2000;
        }
        let image = get_image(width, height, dark_mode);
        let glyphs = glyph_layout(text.as_str().unicode_len(), width, height, dark_mode, drop_shadow);

        let mut curves: Vec<Curve> = Vec::new();
        let mut k: usize = 0;
        while k < interference_lines
            invariant
                k <= interference_lines,
                MIN_WIDTH <= width && MIN_HEIGHT <= height,
                curves@.len() == k,
                forall|i: int| 0 <= i < k ==> curve_fits(#[trigger] curves@[i], width as int, height as int, dark_mode),
            decreases interference_lines - k,
        {
            if let Some(c) = draw_interference_line(width, height, dark_mode) {
                curves.push(c);
            }
            k += 1;
        }

        let mut rings: Vec<Ring> = Vec::new();
        let mut k: usize = 0;
        while k < interference_ellipses
            invariant
                k <= interference_ellipses,
                MIN_WIDTH <= width <= MAX_WIDTH && MIN_HEIGHT <= height <= MAX_HEIGHT,
                rings@.len() == k,
                forall|i: int| 0 <= i < k ==> ring_fits(#[trigger] rings@[i], width as int, height as int, dark_mode),
            decreases interference_ellipses - k,
        {
            if let Some(g) = draw_interference_ellipse(width, height, dark_mode) {
                rings.push(g);
            }
            k += 1;
        }

        let noise = noise_for(complexity);
        let scene = Scene { glyphs, curves, rings, distortion, noise };
        Captcha { text, image, dark_mode, compression, scene }
    }
}

impl Captcha {
    /// The canvas holds one pixel per position and the layout one color
    /// per character of the solution.
    pub open spec fn wf(&self) -> bool {
        &&& self.image.wf()
        &&& self.scene.glyphs.wf()
        &&& self.scene.glyphs.colors@.len() == self.text@.len()
        &&& forall|i: int| 0 <= i < self.scene.rings@.len() ==> ring_drawable(#[trigger] self.scene.rings@[i])
    }

    /// Draws the scene's decoy rings on the canvas, one after another.
    pub fn draw_rings(&mut self)
        requires
            old(self).wf(),
        ensures
            final(self).wf(),
            final(self).text == old(self).text,
            final(self).dark_mode == old(self).dark_mode,
            final(self).compression == old(self).compression,
            final(self).scene == old(self).scene,
            final(self).image.spec_width() == old(self).image.spec_width(),
            final(self).image.spec_height() == old(self).image.spec_height(),
            final(self).image@ == rings_drawn(
                old(self).image@,
                old(self).image.spec_width(),
                old(self).image.spec_height(),
                old(self).scene.rings@,
            ),
    {
        let ghost start = self.image@;
        let ghost w = self.image.spec_width();
        let ghost h = self.image.spec_height();
        let n = self.scene.rings.len();
        let mut k: usize = 0;
        while k < n
            invariant
                k <= n,
                n == self.scene.rings@.len(),
                self.wf(),
                self.text == old(self).text,
                self.dark_mode == old(self).dark_mode,
                self.compression == old(self).compression,
                self.scene == old(self).scene,
                w == old(self).image.spec_width(),
                h == old(self).image.spec_height(),
                self.image.spec_width() == w,
                self.image.spec_height() == h,
                start == old(self).image@,
                self.image@ == rings_drawn(start, w, h, self.scene.rings@.subrange(0, k as int)),
            decreases n - k,
        {
            let g = self.scene.rings[k];
            self.image.draw_hollow_circle(g.center.0, g.center.1, g.radius, g.color);
            proof {
                let done = self.scene.rings@.subrange(0, k + 1);
                assert(done.drop_last() =~= self.scene.rings@.subrange(0, k as int));
                assert(done.last() == g);
            }
            k += 1;
        }
        assert(self.scene.rings@.subrange(0, n as int) =~= self.scene.rings@);
    }

    /// Applies the scene's wave warp with the given displacement tables (one
    /// horizontal shift per row, one vertical shift per column); with warp
    /// strength 0 the canvas is left exactly as it was.
    pub fn distort(&mut self, x_shift: &Vec<i32>, y_shift: &Vec<i32>)
        requires
            old(self).wf(),
            x_shift@.len() == old(self).image.spec_height(),
            y_shift@.len() == old(self).image.spec_width(),
        ensures
            final(self).wf(),
            final(self).text == old(self).text,
            final(self).dark_mode == old(self).dark_mode,
            final(self).compression == old(self).compression,
            final(self).scene == old(self).scene,
            final(self).image.spec_width() == old(self).image.spec_width(),
            final(self).image.spec_height() == old(self).image.spec_height(),
            old(self).scene.distortion == 0 ==> final(self).image == old(self).image,
            old(self).scene.distortion != 0 ==> forall|x: int, y: int|
                0 <= x < old(self).image.spec_width() && 0 <= y < old(self).image.spec_height()
                    ==> #[trigger] final(self).image.pixel(x, y)
                        == distortion::warped_pixel(old(self).image, x_shift@, y_shift@, x, y),
    {
        let level = self.scene.distortion;
        apply_wavy_distortion(&mut self.image, level, x_shift, y_shift);
    }

    /// The image as a `data:image/jpeg;base64,` URI at the captcha's
    /// quality; the payload is empty where the encoder fails.
    pub fn to_base64(&self) -> (r: String)
        requires
            self.wf(),
        ensures
            jpeg_uri_prefix().is_prefix_of(r@),
            r@ == jpeg_uri_of(self.image, self.compression),
    {
        to_base64_str(&self.image, self.compression)
    }

    /// The image as JPEG bytes at the captcha's quality; empty for a size
    /// JPEG cannot hold.
    pub fn to_bytes(&self) -> (r: Vec<u8>)
        requires
            self.wf(),
        ensures
            jpeg_encodable(self.image.spec_width(), self.image.spec_height())
                ==> r@ == jpeg_of(self.image@, self.image.spec_width(), self.image.spec_height(), self.compression),
            !jpeg_encodable(self.image.spec_width(), self.image.spec_height()) ==> r@.len() == 0,
    {
        match to_jpeg_bytes(&self.image, self.compression) {
            Some(bytes) => bytes,
            None => Vec::new(),
        }
    }

    /// The image URI together with a token for the solution, signed with
    /// `secret` and valid for `expiration` seconds from now.
    pub fn as_tuple(&self, secret: &str, expiration: u64) -> (r: Option<(String, String)>)
        requires
            self.wf(),
        ensures
            r matches Some((image, token)) && image@ == jpeg_uri_of(self.image, self.compression) && exists|issued_at: u64|
                token@ == base64_url_of(
                    token_bytes(self.text@, #[trigger] issued_at.saturating_add(expiration), secret.spec_bytes()),
                ),
    {
        let image = self.to_base64();
        let token = sign(self.text.as_str(), expiration, secret);
        Some((image, token))
    }
}

} // verus!
