//! The catalog: which sprite each face has for each layer, and where it goes.

use vstd::prelude::*;
use vstd::string::*;
use crate::element::SmileElement;
use crate::kind::SmileType;
use crate::sprite::Sprite;

verus! {

/// One of the four layers of a face, from the bottom up.
#[derive(Debug, Clone, Copy, PartialEq, Eq, Hash, Structural)]
pub enum Slot {
    Background,
    Brow,
    Eyes,
    Mouth,
}

/// Number of sprites in a catalog: one background, fourteen brows, sixteen
/// eyes and sixteen mouths.
pub const ASSET_COUNT: usize = 47;

/// Where the sprite of a face for a layer goes on the canvas, or `None` where
/// the face has no sprite for that layer. The background is the same for
/// every face.
pub open spec fn origin_spec(slot: Slot, kind: SmileType) -> Option<(usize, usize)> {
    match slot {
        Slot::Background => Some((0, 0)),
        Slot::Brow => match kind {
            SmileType::Grin => None,
            SmileType::Angry => None,
            SmileType::Flush => Some((8, 2)),
            SmileType::He => Some((9, 3)),
            SmileType::Mad => Some((13, 4)),
            SmileType::Plead => Some((7, 4)),
            SmileType::Sad => Some((12, 3)),
            SmileType::Sg => Some((4, 2)),
            SmileType::Shock => Some((7, 3)),
            SmileType::SlSmile => Some((10, 3)),
            SmileType::Sleep => Some((7, 4)),
            SmileType::Smiley => Some((11, 1)),
            SmileType::Tong => Some((8, 4)),
            SmileType::Unamus => Some((16, 4)),
            SmileType::Wink => Some((14, 4)),
            SmileType::Zany => Some((14, 1)),
        },
        Slot::Eyes => match kind {
            SmileType::Grin => Some((9, 2)),
            SmileType::Angry => Some((10, 6)),
            SmileType::Flush => Some((4, 10)),
            SmileType::He => Some((1, 13)),
            SmileType::Mad => Some((11, 12)),
            SmileType::Plead => Some((10, 9)),
            SmileType::Sad => Some((10, 12)),
            SmileType::Sg => Some((8, 11)),
            SmileType::Shock => Some((5, 9)),
            SmileType::SlSmile => Some((9, 11)),
            SmileType::Sleep => Some((9, 11)),
            SmileType::Smiley => Some((11, 4)),
            SmileType::Tong => Some((9, 10)),
            SmileType::Unamus => Some((8, 10)),
            SmileType::Wink => Some((8, 14)),
            SmileType::Zany => Some((11, 8)),
        },
        Slot::Mouth => match kind {
            SmileType::Grin => Some((0, 25)),
            SmileType::Angry => Some((7, 39)),
            SmileType::Flush => Some((22, 43)),
            SmileType::He => Some((2, 42)),
            SmileType::Mad => Some((2, 40)),
            SmileType::Plead => Some((18, 47)),
            SmileType::Sad => Some((3, 39)),
            SmileType::Sg => Some((4, 44)),
            SmileType::Shock => Some((27, 52)),
            SmileType::SlSmile => Some((3, 42)),
            SmileType::Sleep => Some((29, 50)),
            SmileType::Smiley => Some((1, 30)),
            SmileType::Tong => Some((3, 31)),
            SmileType::Unamus => Some((5, 44)),
            SmileType::Wink => Some((6, 35)),
            SmileType::Zany => Some((26, 51)),
        },
    }
}

/// The face has a sprite for the layer.
pub open spec fn has_asset(slot: Slot, kind: SmileType) -> bool {
    origin_spec(slot, kind).is_some()
}

/// Position of a sprite in the loading order: the background, then the brows,
/// the eyes and the mouths, each in the order of the faces.
pub open spec fn asset_index_spec(slot: Slot, kind: SmileType) -> int {
    match slot {
        Slot::Background => 0,
        Slot::Brow => kind.index_spec() - 1,
        Slot::Eyes => kind.index_spec() + 15,
        Slot::Mouth => kind.index_spec() + 31,
    }
}

/// The layer of the sprite at a position of the loading order.
pub open spec fn slot_at(index: int) -> Slot {
    if index == 0 {
        Slot::Background
    } else if index <= 14 {
        Slot::Brow
    } else if index <= 30 {
        Slot::Eyes
    } else {
        Slot::Mouth
    }
}

/// The face of the sprite at a position of the loading order; for the
/// background, which all faces share, the first face.
pub open spec fn kind_at(index: int) -> SmileType {
    SmileType::all_spec()[if index == 0 {
        0
    } else if index <= 14 {
        index + 1
    } else if index <= 30 {
        index - 15
    } else {
        index - 31
    }]
}

/// Where the sprite at a position of the loading order goes on the canvas.
pub open spec fn origin_at(index: int) -> (usize, usize) {
    origin_spec(slot_at(index), kind_at(index)).unwrap()
}

/// Where the sprite of a face for a layer goes on the canvas.
pub fn origin(slot: Slot, kind: SmileType) -> (r: Option<(usize, usize)>)
    ensures
        r == origin_spec(slot, kind),
{
    match slot {
        Slot::Background => Some((0, 0)),
        Slot::Brow => match kind {
            SmileType::Grin => None,
            SmileType::Angry => None,
            SmileType::Flush => Some((8, 2)),
            SmileType::He => Some((9, 3)),
            SmileType::Mad => Some((13, 4)),
            SmileType::Plead => Some((7, 4)),
            SmileType::Sad => Some((12, 3)),
            SmileType::Sg => Some((4, 2)),
            SmileType::Shock => Some((7, 3)),
            SmileType::SlSmile => Some((10, 3)),
            SmileType::Sleep => Some((7, 4)),
            SmileType::Smiley => Some((11, 1)),
            SmileType::Tong => Some((8, 4)),
            SmileType::Unamus => Some((16, 4)),
            SmileType::Wink => Some((14, 4)),
            SmileType::Zany => Some((14, 1)),
        },
        Slot::Eyes => match kind {
            SmileType::Grin => Some((9, 2)),
            SmileType::Angry => Some((10, 6)),
            SmileType::Flush => Some((4, 10)),
            SmileType::He => Some((1, 13)),
            SmileType::Mad => Some((11, 12)),
            SmileType::Plead => Some((10, 9)),
            SmileType::Sad => Some((10, 12)),
            SmileType::Sg => Some((8, 11)),
            SmileType::Shock => Some((5, 9)),
            SmileType::SlSmile => Some((9, 11)),
            SmileType::Sleep => Some((9, 11)),
            SmileType::Smiley => Some((11, 4)),
            SmileType::Tong => Some((9, 10)),
            SmileType::Unamus => Some((8, 10)),
            SmileType::Wink => Some((8, 14)),
            SmileType::Zany => Some((11, 8)),
        },
        Slot::Mouth => match kind {
            SmileType::Grin => Some((0, 25)),
            SmileType::Angry => Some((7, 39)),
            SmileType::Flush => Some((22, 43)),
            SmileType::He => Some((2, 42)),
            SmileType::Mad => Some((2, 40)),
            SmileType::Plead => Some((18, 47)),
            SmileType::Sad => Some((3, 39)),
            SmileType::Sg => Some((4, 44)),
            SmileType::Shock => Some((27, 52)),
            SmileType::SlSmile => Some((3, 42)),
            SmileType::Sleep => Some((29, 50)),
            SmileType::Smiley => Some((1, 30)),
            SmileType::Tong => Some((3, 31)),
            SmileType::Unamus => Some((5, 44)),
            SmileType::Wink => Some((6, 35)),
            SmileType::Zany => Some((26, 51)),
        },
    }
}

/// Position of a sprite in the loading order, where the face has one for the
/// layer.
pub fn asset_index(slot: Slot, kind: SmileType) -> (r: Option<usize>)
    ensures
        r == (if has_asset(slot, kind) {
            Some(asset_index_spec(slot, kind) as usize)
        } else {
            None
        }),
        r matches Some(i) ==> i < ASSET_COUNT && slot_at(i as int) == slot && (slot
            != Slot::Background ==> kind_at(i as int) == kind),
{
    let k: usize = kind.index();
    match slot {
        Slot::Background => Some(0),
        Slot::Brow => if k >= 2 {
            Some(k - 1)
        } else {
            None
        },
        Slot::Eyes => Some(k + 15),
        Slot::Mouth => Some(k + 31),
    }
}

/// The layer and the face of the sprite at a position of the loading order.
pub fn asset_at(index: usize) -> (r: Option<(Slot, SmileType)>)
    ensures
        r == (if index < ASSET_COUNT {
            Some((slot_at(index as int), kind_at(index as int)))
        } else {
            None
        }),
        r matches Some(a) ==> has_asset(a.0, a.1) && asset_index_spec(a.0, a.1) == index,
{
    if index == 0 {
        Some((Slot::Background, SmileType::Grin))
    } else if index <= 14 {
        Some((Slot::Brow, SmileType::get(index + 1).unwrap()))
    } else if index <= 30 {
        Some((Slot::Eyes, SmileType::get(index - 15).unwrap()))
    } else if index < ASSET_COUNT {
        Some((Slot::Mouth, SmileType::get(index - 31).unwrap()))
    } else {
        None
    }
}

/// Directory and file name of the sprite of a face for a layer, where the
/// face has one.
pub open spec fn asset_name_spec(slot: Slot, kind: SmileType) -> Seq<char> {
    match slot {
        Slot::Background => "res/background.png"@,
        Slot::Brow => "res/brows/"@ + kind.name_spec() + ".png"@,
        Slot::Eyes => "res/eyes/"@ + kind.name_spec() + ".png"@,
        Slot::Mouth => "res/mouth/"@ + kind.name_spec() + ".png"@,
    }
}

/// Directory and file name of the sprite of a face for a layer, or `None`
/// where the face has none.
pub fn asset_name(slot: Slot, kind: SmileType) -> (r: Option<String>)
    ensures
        r.is_some() == has_asset(slot, kind),
        r matches Some(name) ==> name@ == asset_name_spec(slot, kind),
{
    if origin(slot, kind).is_none() {
        return None;
    }
    let dir = match slot {
        Slot::Background => {
            return Some("res/background.png".to_owned());
        },
        Slot::Brow => "res/brows/",
        Slot::Eyes => "res/eyes/",
        Slot::Mouth => "res/mouth/",
    };
    let mut name = dir.to_owned();
    name.append(kind.name());
    name.append(".png");
    Some(name)
}

/// Every sprite the mixer can paint, each at its fixed place on the canvas.
#[derive(Debug)]
pub struct Catalog {
    elements: Vec<SmileElement>,
}

impl View for Catalog {
    type V = Seq<SmileElement>;

    /// The elements in loading order.
    closed spec fn view(&self) -> Seq<SmileElement> {
        self.elements@
    }
}

impl Catalog {
    /// A catalog holds one element per sprite, each at the place that the
    /// table gives it.
    #[verifier::type_invariant]
    pub open spec fn wf(self) -> bool {
        &&& self@.len() == ASSET_COUNT
        &&& forall|i: int|
            0 <= i < ASSET_COUNT ==> (#[trigger] self@[i]).pos == origin_at(i) && self@[i].wf()
    }

    /// The element of a face for a layer, if the face has one.
    pub open spec fn get_spec(&self, slot: Slot, kind: SmileType) -> Option<&SmileElement> {
        if has_asset(slot, kind) {
            Some(&self@[asset_index_spec(slot, kind)])
        } else {
            None
        }
    }

    /// The background, which all faces share.
    pub open spec fn background_spec(&self) -> &SmileElement {
        &self@[0]
    }

    /// The file names of the sprites, in loading order.
    pub fn asset_names() -> (r: Vec<String>)
        ensures
            r@.len() == ASSET_COUNT,
            forall|i: int|
                0 <= i < ASSET_COUNT ==> (#[trigger] r@[i])@ == asset_name_spec(
                    slot_at(i),
                    kind_at(i),
                ),
            forall|slot: Slot, kind: SmileType|
                has_asset(slot, kind) ==> r@[#[trigger] asset_index_spec(slot, kind)]@
                    == asset_name_spec(slot, kind),
    {
        let mut names: Vec<String> = Vec::with_capacity(ASSET_COUNT);
        let mut i: usize = 0;
        while i < ASSET_COUNT
            invariant
                i <= ASSET_COUNT,
                names@.len() == i,
                forall|j: int|
                    0 <= j < i ==> (#[trigger] names@[j])@ == asset_name_spec(
                        slot_at(j),
                        kind_at(j),
                    ),
            decreases ASSET_COUNT - i,
        {
            let (slot, kind) = asset_at(i).unwrap();
            names.push(asset_name(slot, kind).unwrap());
            i += 1;
        }
        proof {
            assert forall|slot: Slot, kind: SmileType| has_asset(slot, kind) implies names@[
                #[trigger] asset_index_spec(slot, kind)]@ == asset_name_spec(slot, kind) by {
                let at = asset_index_spec(slot, kind);
                assert(slot_at(at) == slot);
                assert(slot != Slot::Background ==> kind_at(at) == kind);
            }
        }
        names
    }

    /// Builds the catalog from its sprites, given in loading order. Each
    /// sprite gets the place that the table fixes for it. `None` unless there
    /// are exactly as many sprites as the catalog holds.
    pub fn new(sprites: Vec<Sprite>) -> (r: Option<Catalog>)
        ensures
            r.is_some() <==> sprites@.len() == ASSET_COUNT,
            r matches Some(c) ==> c.wf() && forall|i: int|
                0 <= i < ASSET_COUNT ==> (#[trigger] c@[i]).image == sprites@[i],
    {
        if sprites.len() != ASSET_COUNT {
            return None;
        }
        let mut elements: Vec<SmileElement> = Vec::with_capacity(ASSET_COUNT);
        let mut rest = sprites;
        let mut i: usize = 0;
        while i < ASSET_COUNT
            invariant
                i <= ASSET_COUNT,
                sprites@.len() == ASSET_COUNT,
                elements@.len() == i,
                rest@ == sprites@.skip(i as int),
                forall|j: int|
                    0 <= j < i ==> (#[trigger] elements@[j]).pos == origin_at(j) && elements@[j].wf()
                        && elements@[j].image == sprites@[j],
            decreases ASSET_COUNT - i,
        {
            let sprite = rest.remove(0);
            proof {
                use_type_invariant(&sprite);
                assert(rest@ =~= sprites@.skip(i + 1));
            }
            let (slot, kind) = asset_at(i).unwrap();
            elements.push(SmileElement::new(sprite, origin(slot, kind).unwrap()));
            i += 1;
        }
        Some(Catalog { elements })
    }

    /// The element of a face for a layer, if the face has one.
    pub fn get(&self, slot: Slot, kind: SmileType) -> (r: Option<&SmileElement>)
        ensures
            r == self.get_spec(slot, kind),
            r.is_some() == has_asset(slot, kind),
            r matches Some(e) ==> e.wf() && Some(e.pos) == origin_spec(slot, kind),
    {
        proof {
            use_type_invariant(self);
        }
        match asset_index(slot, kind) {
            Some(i) => {
                assert(self@[i as int].pos == origin_at(i as int));
                Some(&self.elements[i])
            },
            None => None,
        }
    }

    /// The background, which all faces share.
    pub fn background(&self) -> (r: &SmileElement)
        ensures
            r == self.background_spec(),
            r.wf(),
            r.pos == (0usize, 0usize),
    {
        proof {
            use_type_invariant(self);
            assert(self@[0].pos == origin_at(0));
        }
        &self.elements[0]
    }
}

} // verus!
