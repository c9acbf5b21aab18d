//! A mix of two faces, and the picture it makes.

use vstd::prelude::*;
use vstd::string::*;
use crate::canvas::{composed, Canvas};
use crate::catalog::{Catalog, Slot};
use crate::element::SmileElement;
use crate::kind::SmileType;
use crate::sprite::Rgb;

verus! {

/// Two faces to mix: `left` gives the brows and the eyes, `right` the mouth.
#[derive(Debug, Clone, Copy, PartialEq, Eq, Structural)]
pub struct Smile {
    pub left: SmileType,
    pub right: SmileType,
}

impl Smile {
    pub fn new(left: SmileType, right: SmileType) -> (r: Smile)
        ensures
            r.left == left,
            r.right == right,
    {
        Smile { left, right }
    }

    /// The query string that asks the service for this mix.
    pub open spec fn api_query_spec(self) -> Seq<char> {
        "?left="@ + self.left.name_spec() + "&right="@ + self.right.name_spec()
    }

    /// The query string that asks the service for this mix.
    pub fn api_query(&self) -> (r: String)
        ensures
            r@ == self.api_query_spec(),
    {
        let mut query = "?left=".to_owned();
        query.append(self.left.name());
        query.append("&right=");
        query.append(self.right.name());
        query
    }

    /// The layers of the mix: brows and eyes of `left`, mouth of `right`.
    pub open spec fn parts_spec(self, catalog: &Catalog) -> (
        Option<&SmileElement>,
        Option<&SmileElement>,
        Option<&SmileElement>,
    ) {
        (
            catalog.get_spec(Slot::Brow, self.left),
            catalog.get_spec(Slot::Eyes, self.left),
            catalog.get_spec(Slot::Mouth, self.right),
        )
    }

    /// The layers of the mix: brows and eyes of `left`, mouth of `right`.
    /// Eyes and mouth are always there; the brows are missing for the two
    /// faces that have none.
    pub fn get_parts<'a>(&self, catalog: &'a Catalog) -> (r: (
        Option<&'a SmileElement>,
        Option<&'a SmileElement>,
        Option<&'a SmileElement>,
    ))
        ensures
            r == self.parts_spec(catalog),
            r.0.is_some() <==> self.left != SmileType::Grin && self.left != SmileType::Angry,
            r.1.is_some(),
            r.2.is_some(),
    {
        (
            catalog.get(Slot::Brow, self.left),
            catalog.get(Slot::Eyes, self.left),
            catalog.get(Slot::Mouth, self.right),
        )
    }

    /// The picture of the mix: the background, then the brows, the eyes and
    /// the mouth, each painted over what is below.
    pub open spec fn generated(self, catalog: &Catalog) -> Seq<Rgb> {
        let parts = self.parts_spec(catalog);
        composed(catalog.background_spec(), parts.0, parts.1, parts.2)
    }

    /// Paints the mix on a fresh canvas.
    pub fn generate(&self, catalog: &Catalog) -> (r: Canvas)
        ensures
            r.wf(),
            r@ == self.generated(catalog),
    {
        let (brows, eyes, mouth) = self.get_parts(catalog);
        let mut image = Canvas::new();
        image.add_element(Some(catalog.background()));
        image.add_element(brows);
        image.add_element(eyes);
        image.add_element(mouth);
        image
    }
}

} // verus!
