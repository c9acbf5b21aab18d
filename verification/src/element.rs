//! A sprite placed on the canvas.

use vstd::prelude::*;
use crate::sprite::{Rgb, Sprite};

verus! {

/// A sprite together with the canvas coordinate of its top left pixel.
#[derive(Debug)]
pub struct SmileElement {
    pub image: Sprite,
    pub pos: (usize, usize),
}

impl SmileElement {
    /// Places `image` with its top left pixel at `pos`.
    pub fn new(image: Sprite, pos: (usize, usize)) -> (r: SmileElement)
        ensures
            r.image == image,
            r.pos == pos,
    {
        SmileElement { image, pos }
    }

    /// The element's sprite is well formed.
    pub open spec fn wf(self) -> bool {
        self.image@.wf()
    }

    /// The sprite has a pixel for the canvas coordinate `(x, y)`.
    pub open spec fn reaches(self, x: int, y: int) -> bool {
        &&& self.pos.0 <= x < self.pos.0 + self.image@.width
        &&& self.pos.1 <= y < self.pos.1 + self.image@.height
    }

    /// The element paints the canvas coordinate `(x, y)`: its sprite has a
    /// pixel there, and that pixel is not the transparent one.
    pub open spec fn covers(self, x: int, y: int) -> bool {
        self.reaches(x, y) && !self.image@.pixel(x - self.pos.0, y - self.pos.1).is_transparent_spec()
    }

    /// The colour that the element paints at a coordinate it covers.
    pub open spec fn color_at(self, x: int, y: int) -> Rgb {
        self.image@.pixel(x - self.pos.0, y - self.pos.1).rgb_spec()
    }

    /// The colour painted at `(x, y)`, or `None` where the element leaves the
    /// canvas as it is.
    pub fn paint_at(&self, x: usize, y: usize) -> (r: Option<Rgb>)
        ensures
            r == (if self.covers(x as int, y as int) {
                Some(self.color_at(x as int, y as int))
            } else {
                None
            }),
    {
        if x < self.pos.0 || y < self.pos.1 {
            return None;
        }
        let sx: usize = x - self.pos.0;
        let sy: usize = y - self.pos.1;
        if sx >= self.image.width() || sy >= self.image.height() {
            return None;
        }
        let p = self.image.get_pixel(sx, sy);
        if p.is_transparent() {
            None
        } else {
            Some(p.rgb())
        }
    }
}

} // verus!
