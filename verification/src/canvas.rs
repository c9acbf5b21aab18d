//! The canvas and the masked overlay that paints a layer on it.

use vstd::prelude::*;
use crate::element::SmileElement;
use crate::sprite::{lemma_cell_in_bounds, Rgb};

verus! {

/// Width of the canvas in pixels.
pub const SMILE_WIDTH: u32 = 64;

/// Height of the canvas in pixels.
pub const SMILE_HEIGHT: u32 = 64;

/// Number of pixels of the canvas.
pub const CANVAS_PIXELS: usize = 4096;

/// Number of pixels of the canvas.
pub open spec fn canvas_len() -> nat {
    CANVAS_PIXELS as nat
}

/// The canvas before anything is painted: every pixel black.
pub open spec fn blank() -> Seq<Rgb> {
    Seq::new(canvas_len(), |i: int| Rgb { r: 0, g: 0, b: 0 })
}

/// The pixel at `(x, y)` after `el` was painted over a pixel `under`.
pub open spec fn painted_pixel(under: Rgb, el: Option<&SmileElement>, x: int, y: int) -> Rgb {
    match el {
        Some(e) => if e.covers(x, y) {
            e.color_at(x, y)
        } else {
            under
        },
        None => under,
    }
}

/// The canvas after `el` was painted over `canvas`.
pub open spec fn painted(canvas: Seq<Rgb>, el: Option<&SmileElement>) -> Seq<Rgb> {
    Seq::new(canvas_len(), |i: int| painted_pixel(canvas[i], el, i % 64, i / 64))
}

/// The canvas with the four layers painted from the bottom up.
pub open spec fn composed(
    background: &SmileElement,
    brow: Option<&SmileElement>,
    eyes: Option<&SmileElement>,
    mouth: Option<&SmileElement>,
) -> Seq<Rgb> {
    painted(painted(painted(painted(blank(), Some(background)), brow), eyes), mouth)
}

/// A 64 x 64 grid of opaque pixels, row by row from the top left.
#[derive(Debug)]
pub struct Canvas {
    pixels: Vec<Rgb>,
}

impl View for Canvas {
    type V = Seq<Rgb>;

    closed spec fn view(&self) -> Seq<Rgb> {
        self.pixels@
    }
}

impl Canvas {
    /// A canvas holds one pixel per cell.
    #[verifier::type_invariant]
    pub open spec fn wf(self) -> bool {
        self@.len() == canvas_len()
    }

    /// The pixel in column `x` of row `y`.
    pub open spec fn pixel_spec(self, x: int, y: int) -> Rgb {
        self@[y * 64 + x]
    }

    /// A blank canvas.
    pub fn new() -> (r: Canvas)
        ensures
            r.wf(),
            r@ == blank(),
    {
        let mut pixels: Vec<Rgb> = Vec::with_capacity(CANVAS_PIXELS);
        let mut i: usize = 0;
        while i < CANVAS_PIXELS
            invariant
                i <= CANVAS_PIXELS,
                pixels@.len() == i,
                forall|j: int| 0 <= j < i ==> #[trigger] pixels@[j] == (Rgb { r: 0, g: 0, b: 0 }),
            decreases CANVAS_PIXELS - i,
        {
            pixels.push(Rgb { r: 0, g: 0, b: 0 });
            i += 1;
        }
        assert(pixels@ =~= blank());
        Canvas { pixels }
    }

    /// The pixel in column `x` of row `y`.
    pub fn get_pixel(&self, x: u32, y: u32) -> (r: Rgb)
        requires
            x < SMILE_WIDTH,
            y < SMILE_HEIGHT,
        ensures
            r == self.pixel_spec(x as int, y as int),
    {
        proof {
            use_type_invariant(self);
        }
        self.pixels[(y as usize) * 64 + (x as usize)]
    }

    /// Paints one layer: every pixel that the element covers takes the
    /// element's colour, every other pixel stays. An absent layer paints
    /// nothing.
    pub fn add_element(&mut self, el: Option<&SmileElement>)
        ensures
            final(self).wf(),
            final(self)@ == painted(old(self)@, el),
    {
        proof {
            use_type_invariant(&*self);
        }
        let e = match el {
            Some(e) => e,
            None => {
                assert(self@ =~= painted(self@, el));
                return;
            },
        };
        let mut next: Vec<Rgb> = Vec::with_capacity(CANVAS_PIXELS);
        let mut i: usize = 0;
        while i < CANVAS_PIXELS
            invariant
                i <= CANVAS_PIXELS,
                el == Some(e),
                self.pixels@.len() == CANVAS_PIXELS,
                next@.len() == i,
                forall|j: int| 0 <= j < i ==> #[trigger] next@[j] == painted(self@, el)[j],
            decreases CANVAS_PIXELS - i,
        {
            match e.paint_at(i % 64, i / 64) {
                Some(colour) => next.push(colour),
                None => next.push(self.pixels[i]),
            }
            i += 1;
        }
        assert(next@ =~= painted(self@, el));
        self.pixels = next;
    }

    /// The canvas as RGB bytes, three per pixel, row by row.
    pub fn to_rgb8(&self) -> (r: Vec<u8>)
        ensures
            r@ == rgb8_of_pixels(self@),
            r@.len() == 3 * canvas_len(),
    {
        proof {
            use_type_invariant(self);
        }
        let mut out: Vec<u8> = Vec::with_capacity(3 * CANVAS_PIXELS);
        let mut i: usize = 0;
        while i < CANVAS_PIXELS
            invariant
                i <= CANVAS_PIXELS,
                self.pixels@.len() == CANVAS_PIXELS,
                out@.len() == 3 * i,
                forall|j: int| 0 <= j < 3 * i ==> #[trigger] out@[j] == rgb8_of_pixels(self@)[j],
            decreases CANVAS_PIXELS - i,
        {
            let p = self.pixels[i];
            out.push(p.r);
            out.push(p.g);
            out.push(p.b);
            i += 1;
        }
        assert(out@ =~= rgb8_of_pixels(self@));
        out
    }
}

/// The bytes of a row of pixels: red, green and blue of each in turn.
pub open spec fn rgb8_of_pixels(pixels: Seq<Rgb>) -> Seq<u8> {
    Seq::new(
        3 * pixels.len(),
        |j: int|
            if j % 3 == 0 {
                pixels[j / 3].r
            } else if j % 3 == 1 {
                pixels[j / 3].g
            } else {
                pixels[j / 3].b
            },
    )
}

/// The colour of one pixel of the composed canvas: black, painted over by
/// each layer in turn.
pub open spec fn composed_pixel(
    background: &SmileElement,
    brow: Option<&SmileElement>,
    eyes: Option<&SmileElement>,
    mouth: Option<&SmileElement>,
    x: int,
    y: int,
) -> Rgb {
    painted_pixel(
        painted_pixel(
            painted_pixel(
                painted_pixel(Rgb { r: 0, g: 0, b: 0 }, Some(background), x, y),
                brow,
                x,
                y,
            ),
            eyes,
            x,
            y,
        ),
        mouth,
        x,
        y,
    )
}

/// Painting changes a pixel only by what the layer holds for that very
/// pixel.
pub proof fn lemma_painted_pixel(canvas: Seq<Rgb>, el: Option<&SmileElement>, x: int, y: int)
    requires
        0 <= x < 64,
        0 <= y < 64,
    ensures
        painted(canvas, el).len() == canvas_len(),
        painted(canvas, el)[y * 64 + x] == painted_pixel(canvas[y * 64 + x], el, x, y),
{
}

/// An absent layer leaves the canvas as it is.
pub proof fn lemma_absent_layer_paints_nothing(canvas: Seq<Rgb>)
    requires
        canvas.len() == canvas_len(),
    ensures
        painted(canvas, None) == canvas,
{
    assert(painted(canvas, None) =~= canvas);
}

/// A sprite whose pixels are all transparent paints nothing: the canvas is
/// the same, pixel for pixel, as with the layer absent.
pub proof fn lemma_clear_layer_paints_nothing(canvas: Seq<Rgb>, el: &SmileElement)
    requires
        canvas.len() == canvas_len(),
        el.wf(),
        el.image@.is_clear(),
    ensures
        painted(canvas, Some(el)) == painted(canvas, None),
        painted(canvas, Some(el)) == canvas,
{
    assert forall|x: int, y: int| !el.covers(x, y) by {
        if el.reaches(x, y) {
            lemma_cell_in_bounds(
                x - el.pos.0,
                y - el.pos.1,
                el.image@.width as int,
                el.image@.height as int,
            );
        }
    }
    assert(painted(canvas, Some(el)) =~= canvas);
    assert(painted(canvas, None) =~= canvas);
}

/// Where a layer covers a pixel, its colour is what the canvas shows,
/// whatever was painted before.
pub proof fn lemma_later_layer_wins(
    canvas: Seq<Rgb>,
    first: Option<&SmileElement>,
    second: &SmileElement,
    x: int,
    y: int,
)
    requires
        0 <= x < 64,
        0 <= y < 64,
        second.covers(x, y),
    ensures
        painted(painted(canvas, first), Some(second))[y * 64 + x] == second.color_at(x, y),
{
}

/// The layer covers the pixel at `(x, y)`.
pub open spec fn layer_covers(el: Option<&SmileElement>, x: int, y: int) -> bool {
    el matches Some(e) && e.covers(x, y)
}

/// The layers are painted in the order background, brows, eyes, mouth: a
/// pixel shows the mouth where the mouth covers it, else the eyes, else the
/// brows, else the background, and black where no layer covers it.
pub proof fn lemma_painting_order(
    background: &SmileElement,
    brow: Option<&SmileElement>,
    eyes: Option<&SmileElement>,
    mouth: Option<&SmileElement>,
    x: int,
    y: int,
)
    requires
        0 <= x < 64,
        0 <= y < 64,
    ensures
        composed(background, brow, eyes, mouth)[y * 64 + x] == (if layer_covers(mouth, x, y) {
            mouth.unwrap().color_at(x, y)
        } else if layer_covers(eyes, x, y) {
            eyes.unwrap().color_at(x, y)
        } else if layer_covers(brow, x, y) {
            brow.unwrap().color_at(x, y)
        } else if background.covers(x, y) {
            background.color_at(x, y)
        } else {
            Rgb { r: 0, g: 0, b: 0 }
        }),
{
}

/// Each pixel of the composed canvas is black painted over by each layer in
/// turn, and by nothing else.
pub proof fn lemma_composed_pixel(
    background: &SmileElement,
    brow: Option<&SmileElement>,
    eyes: Option<&SmileElement>,
    mouth: Option<&SmileElement>,
    x: int,
    y: int,
)
    requires
        0 <= x < 64,
        0 <= y < 64,
    ensures
        composed(background, brow, eyes, mouth).len() == canvas_len(),
        composed(background, brow, eyes, mouth)[y * 64 + x] == composed_pixel(
            background,
            brow,
            eyes,
            mouth,
            x,
            y,
        ),
{
}

} // verus!
