//! A face as its three layers, and the mixing of two such faces.

use vstd::prelude::*;
use crate::canvas::{composed, Canvas};
use crate::catalog::{Catalog, Slot};
use crate::generator;
use crate::kind::lemma_name_round_trip;
use crate::element::SmileElement;
use crate::kind::{named, parse_spec, SmileType, UnknownIdentifier};
use crate::sprite::Rgb;

verus! {

/// The layers of a face above the background. A layer may be absent.
#[derive(Debug, Clone, Copy)]
pub struct Smile<'a> {
    pub brow: Option<&'a SmileElement>,
    pub eye: Option<&'a SmileElement>,
    pub mouth: Option<&'a SmileElement>,
}

impl<'a> Smile<'a> {
    pub fn new(
        brow: Option<&'a SmileElement>,
        eye: Option<&'a SmileElement>,
        mouth: Option<&'a SmileElement>,
    ) -> (r: Smile<'a>)
        ensures
            r.brow == brow,
            r.eye == eye,
            r.mouth == mouth,
    {
        Smile { brow, eye, mouth }
    }

    /// The layers that the catalog holds for a face.
    pub open spec fn resolved(catalog: &'a Catalog, kind: SmileType) -> Smile<'a> {
        Smile {
            brow: catalog.get_spec(Slot::Brow, kind),
            eye: catalog.get_spec(Slot::Eyes, kind),
            mouth: catalog.get_spec(Slot::Mouth, kind),
        }
    }

    /// The layers that the catalog holds for a face. Eyes and mouth are
    /// always there; the brows are missing for the two faces that have none.
    pub fn resolve(catalog: &'a Catalog, kind: SmileType) -> (r: Smile<'a>)
        ensures
            r == Smile::resolved(catalog, kind),
            r.brow.is_some() <==> kind != SmileType::Grin && kind != SmileType::Angry,
            r.eye.is_some(),
            r.mouth.is_some(),
    {
        Smile {
            brow: catalog.get(Slot::Brow, kind),
            eye: catalog.get(Slot::Eyes, kind),
            mouth: catalog.get(Slot::Mouth, kind),
        }
    }

    pub fn grin(catalog: &'a Catalog) -> (r: Smile<'a>)
        ensures
            r == Smile::resolved(catalog, SmileType::Grin),
    {
        Smile::resolve(catalog, SmileType::Grin)
    }

    pub fn angry(catalog: &'a Catalog) -> (r: Smile<'a>)
        ensures
            r == Smile::resolved(catalog, SmileType::Angry),
    {
        Smile::resolve(catalog, SmileType::Angry)
    }

    pub fn flush(catalog: &'a Catalog) -> (r: Smile<'a>)
        ensures
            r == Smile::resolved(catalog, SmileType::Flush),
    {
        Smile::resolve(catalog, SmileType::Flush)
    }

    pub fn he(catalog: &'a Catalog) -> (r: Smile<'a>)
        ensures
            r == Smile::resolved(catalog, SmileType::He),
    {
        Smile::resolve(catalog, SmileType::He)
    }

    pub fn mad(catalog: &'a Catalog) -> (r: Smile<'a>)
        ensures
            r == Smile::resolved(catalog, SmileType::Mad),
    {
        Smile::resolve(catalog, SmileType::Mad)
    }

    pub fn plead(catalog: &'a Catalog) -> (r: Smile<'a>)
        ensures
            r == Smile::resolved(catalog, SmileType::Plead),
    {
        Smile::resolve(catalog, SmileType::Plead)
    }

    pub fn sad(catalog: &'a Catalog) -> (r: Smile<'a>)
        ensures
            r == Smile::resolved(catalog, SmileType::Sad),
    {
        Smile::resolve(catalog, SmileType::Sad)
    }

    pub fn sg(catalog: &'a Catalog) -> (r: Smile<'a>)
        ensures
            r == Smile::resolved(catalog, SmileType::Sg),
    {
        Smile::resolve(catalog, SmileType::Sg)
    }

    pub fn shock(catalog: &'a Catalog) -> (r: Smile<'a>)
        ensures
            r == Smile::resolved(catalog, SmileType::Shock),
    {
        Smile::resolve(catalog, SmileType::Shock)
    }

    pub fn sl_smile(catalog: &'a Catalog) -> (r: Smile<'a>)
        ensures
            r == Smile::resolved(catalog, SmileType::SlSmile),
    {
        Smile::resolve(catalog, SmileType::SlSmile)
    }

    pub fn sleep(catalog: &'a Catalog) -> (r: Smile<'a>)
        ensures
            r == Smile::resolved(catalog, SmileType::Sleep),
    {
        Smile::resolve(catalog, SmileType::Sleep)
    }

    pub fn smiley(catalog: &'a Catalog) -> (r: Smile<'a>)
        ensures
            r == Smile::resolved(catalog, SmileType::Smiley),
    {
        Smile::resolve(catalog, SmileType::Smiley)
    }

    pub fn tong(catalog: &'a Catalog) -> (r: Smile<'a>)
        ensures
            r == Smile::resolved(catalog, SmileType::Tong),
    {
        Smile::resolve(catalog, SmileType::Tong)
    }

    pub fn unamus(catalog: &'a Catalog) -> (r: Smile<'a>)
        ensures
            r == Smile::resolved(catalog, SmileType::Unamus),
    {
        Smile::resolve(catalog, SmileType::Unamus)
    }

    pub fn wink(catalog: &'a Catalog) -> (r: Smile<'a>)
        ensures
            r == Smile::resolved(catalog, SmileType::Wink),
    {
        Smile::resolve(catalog, SmileType::Wink)
    }

    pub fn zany(catalog: &'a Catalog) -> (r: Smile<'a>)
        ensures
            r == Smile::resolved(catalog, SmileType::Zany),
    {
        Smile::resolve(catalog, SmileType::Zany)
    }

    /// Brows and eyes of `left` over the mouth of `right`.
    pub open spec fn combined(left: Smile<'a>, right: Smile<'a>) -> Smile<'a> {
        Smile { brow: left.brow, eye: left.eye, mouth: right.mouth }
    }

    /// Mixes two faces: brows and eyes of `left`, mouth of `right`.
    pub fn combine(left: Smile<'a>, right: Smile<'a>) -> (r: Smile<'a>)
        ensures
            r == Smile::combined(left, right),
    {
        Smile::new(left.brow, left.eye, right.mouth)
    }

    /// The picture of the face: the catalog's background, then the brows,
    /// the eyes and the mouth, each painted over what is below.
    pub open spec fn image_spec(self, catalog: &Catalog) -> Seq<Rgb> {
        composed(catalog.background_spec(), self.brow, self.eye, self.mouth)
    }

    /// Paints the face on a fresh canvas.
    pub fn image(&self, catalog: &Catalog) -> (r: Canvas)
        ensures
            r.wf(),
            r@ == self.image_spec(catalog),
    {
        let mut image = Canvas::new();
        image.add_element(Some(catalog.background()));
        image.add_element(self.brow);
        image.add_element(self.eye);
        image.add_element(self.mouth);
        image
    }

    /// The face with the given canonical name.
    pub fn from_str_real(catalog: &'a Catalog, s: &str) -> (r: Result<Smile<'a>, UnknownIdentifier>)
        ensures
            match r {
                Ok(smile) => named(s@) matches Some(kind) && smile == Smile::resolved(catalog, kind),
                Err(_) => named(s@).is_none(),
            },
    {
        match SmileType::from_name(s) {
            Ok(kind) => Ok(Smile::resolve(catalog, kind)),
            Err(e) => Err(e),
        }
    }

    /// The face that the text names, with or without its decoration.
    pub fn from_str(catalog: &'a Catalog, s: &str) -> (r: Result<Smile<'a>, UnknownIdentifier>)
        ensures
            match r {
                Ok(smile) => parse_spec(s@) matches Some(kind) && smile == Smile::resolved(
                    catalog,
                    kind,
                ),
                Err(_) => parse_spec(s@).is_none(),
            },
    {
        match SmileType::from_str(s) {
            Ok(kind) => Ok(Smile::resolve(catalog, kind)),
            Err(e) => Err(e),
        }
    }
}

/// The canonical name of a face reads as that face, and the face has eyes
/// and a mouth; it has brows unless it is one of the two faces without.
pub proof fn lemma_named_face_resolves(catalog: &Catalog, kind: SmileType)
    ensures
        parse_spec(kind.name_spec()) == Some(kind),
        Smile::resolved(catalog, kind).eye.is_some(),
        Smile::resolved(catalog, kind).mouth.is_some(),
        Smile::resolved(catalog, kind).brow.is_some() <==> kind != SmileType::Grin && kind
            != SmileType::Angry,
{
    lemma_name_round_trip(kind);
}

/// A mix has the brows and the eyes of its first face and the mouth of its
/// second, and nothing else of either. Mixing a face with itself gives that
/// face, and so its picture.
pub proof fn lemma_mix_layers(catalog: &Catalog, a: SmileType, b: SmileType)
    ensures
        Smile::combined(Smile::resolved(catalog, a), Smile::resolved(catalog, b)).brow
            == Smile::resolved(catalog, a).brow,
        Smile::combined(Smile::resolved(catalog, a), Smile::resolved(catalog, b)).eye
            == Smile::resolved(catalog, a).eye,
        Smile::combined(Smile::resolved(catalog, a), Smile::resolved(catalog, b)).mouth
            == Smile::resolved(catalog, b).mouth,
        (generator::Smile { left: a, right: b }).parts_spec(catalog) == (
            Smile::resolved(catalog, a).brow,
            Smile::resolved(catalog, a).eye,
            Smile::resolved(catalog, b).mouth,
        ),
        (generator::Smile { left: a, right: b }).generated(catalog) == Smile::combined(
            Smile::resolved(catalog, a),
            Smile::resolved(catalog, b),
        ).image_spec(catalog),
        Smile::combined(Smile::resolved(catalog, a), Smile::resolved(catalog, a))
            == Smile::resolved(catalog, a),
        (generator::Smile { left: a, right: a }).generated(catalog) == Smile::resolved(
            catalog,
            a,
        ).image_spec(catalog),
{
}

} // verus!
