//! Pixels and decoded sprites.

use vstd::prelude::*;

verus! {

/// A colour with an alpha channel, eight bits each.
#[derive(Debug, Clone, Copy, PartialEq, Eq, Structural)]
pub struct Rgba {
    pub r: u8,
    pub g: u8,
    pub b: u8,
    pub a: u8,
}

/// An opaque colour, eight bits per channel.
#[derive(Debug, Clone, Copy, PartialEq, Eq, Structural)]
pub struct Rgb {
    pub r: u8,
    pub g: u8,
    pub b: u8,
}

impl Rgba {
    /// Only the pixel whose four channels are all zero is transparent.
    pub open spec fn is_transparent_spec(self) -> bool {
        self.r == 0 && self.g == 0 && self.b == 0 && self.a == 0
    }

    /// The colour with its alpha channel dropped.
    pub open spec fn rgb_spec(self) -> Rgb {
        Rgb { r: self.r, g: self.g, b: self.b }
    }

    #[verifier::when_used_as_spec(is_transparent_spec)]
    pub fn is_transparent(self) -> (r: bool)
        ensures
            r == self.is_transparent_spec(),
    {
        self.r == 0 && self.g == 0 && self.b == 0 && self.a == 0
    }

    #[verifier::when_used_as_spec(rgb_spec)]
    pub fn rgb(self) -> (r: Rgb)
        ensures
            r == self.rgb_spec(),
    {
        Rgb { r: self.r, g: self.g, b: self.b }
    }
}

/// The pixels that a buffer of RGBA bytes holds, four bytes each.
pub open spec fn pixels_of_rgba8(raw: Seq<u8>) -> Seq<Rgba> {
    Seq::new(
        (raw.len() / 4) as nat,
        |i: int| Rgba { r: raw[4 * i], g: raw[4 * i + 1], b: raw[4 * i + 2], a: raw[4 * i + 3] },
    )
}

/// What a sprite holds: `width * height` pixels, row by row from the top
/// left.
pub struct Grid {
    pub width: nat,
    pub height: nat,
    pub pixels: Seq<Rgba>,
}

impl Grid {
    /// The grid holds one pixel per cell.
    pub open spec fn wf(self) -> bool {
        self.pixels.len() == self.width * self.height
    }

    /// The pixel in column `x` of row `y`.
    pub open spec fn pixel(self, x: int, y: int) -> Rgba {
        self.pixels[y * self.width + x]
    }

    /// Every pixel of the grid is the transparent one.
    pub open spec fn is_clear(self) -> bool {
        forall|i: int| 0 <= i < self.pixels.len() ==> (#[trigger] self.pixels[i]).is_transparent_spec()
    }
}

/// A decoded image.
#[derive(Debug)]
pub struct Sprite {
    width: usize,
    height: usize,
    pixels: Vec<Rgba>,
}

impl View for Sprite {
    type V = Grid;

    closed spec fn view(&self) -> Grid {
        Grid { width: self.width as nat, height: self.height as nat, pixels: self.pixels@ }
    }
}

impl Sprite {
    /// A sprite holds one pixel per cell.
    #[verifier::type_invariant]
    pub open spec fn wf(self) -> bool {
        self@.wf()
    }

    pub fn width(&self) -> (r: usize)
        ensures
            r == self@.width,
    {
        self.width
    }

    pub fn height(&self) -> (r: usize)
        ensures
            r == self@.height,
    {
        self.height
    }

    /// Builds a sprite from `width * height` RGBA pixels of four bytes each,
    /// row by row. `None` where the number of bytes is another.
    pub fn from_rgba8(width: u32, height: u32, raw: &[u8]) -> (r: Option<Sprite>)
        ensures
            r.is_some() <==> raw@.len() == 4 * (width * height),
            r matches Some(s) ==> s.wf() && s@ == (Grid {
                width: width as nat,
                height: height as nat,
                pixels: pixels_of_rgba8(raw@),
            }),
    {
        let n: usize = raw.len();
        if n % 4 != 0 {
            return None;
        }
        let count: usize = n / 4;
        assert(width * height <= 0xffff_ffff * 0xffff_ffff) by (nonlinear_arith)
            requires
                width <= 0xffff_ffff,
                height <= 0xffff_ffff,
        ;
        if (width as u64) * (height as u64) != count as u64 {
            return None;
        }
        let mut pixels: Vec<Rgba> = Vec::with_capacity(count);
        let mut i: usize = 0;
        while i < count
            invariant
                i <= count,
                count == n / 4,
                n == raw@.len(),
                n % 4 == 0,
                pixels@.len() == i,
                forall|j: int| 0 <= j < i ==> #[trigger] pixels@[j] == pixels_of_rgba8(raw@)[j],
            decreases count - i,
        {
            let p = Rgba { r: raw[4 * i], g: raw[4 * i + 1], b: raw[4 * i + 2], a: raw[4 * i + 3] };
            pixels.push(p);
            i += 1;
        }
        assert(pixels@ =~= pixels_of_rgba8(raw@));
        Some(Sprite { width: width as usize, height: height as usize, pixels })
    }

    /// The pixel in column `x` of row `y`.
    pub fn get_pixel(&self, x: usize, y: usize) -> (r: Rgba)
        requires
            x < self@.width,
            y < self@.height,
        ensures
            r == self@.pixel(x as int, y as int),
    {
        proof {
            use_type_invariant(self);
            lemma_cell_in_bounds(x as int, y as int, self.width as int, self.height as int);
            assert(self.pixels.len() == self.pixels@.len());
        }
        self.pixels[y * self.width + x]
    }
}

/// A cell of a grid has its index inside the grid.
pub proof fn lemma_cell_in_bounds(x: int, y: int, width: int, height: int)
    by (nonlinear_arith)
    requires
        0 <= x < width,
        0 <= y < height,
    ensures
        0 <= y * width <= y * width + x < width * height,
{
}

} // verus!
