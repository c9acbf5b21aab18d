//! What the service does with a request: two names in, a GIF file out.

use vstd::prelude::*;
use crate::canvas::Canvas;
use crate::catalog::Catalog;
use crate::generator::Smile;
use crate::kind::{parse_spec, SmileType};

verus! {

/// Why a request gave no picture.
#[derive(Debug, Clone, Copy, PartialEq, Eq, Structural)]
pub enum MixError {
    /// One of the two names is not the name of a face.
    InvalidName,
    /// The picture could not be encoded.
    Encoding,
}

impl MixError {
    /// The HTTP status that answers the request.
    pub open spec fn status_spec(self) -> u16 {
        match self {
            MixError::InvalidName => 400,
            MixError::Encoding => 500,
        }
    }

    /// The HTTP status that answers the request.
    pub fn status(&self) -> (r: u16)
        ensures
            r == self.status_spec(),
    {
        match self {
            MixError::InvalidName => 400,
            MixError::Encoding => 500,
        }
    }

    /// The text that answers the request.
    pub open spec fn message_spec(self) -> Seq<char> {
        match self {
            MixError::InvalidName => "invalid smile name"@,
            MixError::Encoding => "failed to convert result image to bytes"@,
        }
    }

    /// The text that answers the request.
    pub fn message(&self) -> (r: &'static str)
        ensures
            r@ == self.message_spec(),
    {
        match self {
            MixError::InvalidName => "invalid smile name",
            MixError::Encoding => "failed to convert result image to bytes",
        }
    }
}

/// The mix that two texts ask for, where both name a face.
pub open spec fn mix_spec(left: Seq<char>, right: Seq<char>) -> Option<Smile> {
    match (parse_spec(left), parse_spec(right)) {
        (Some(l), Some(r)) => Some(Smile { left: l, right: r }),
        _ => None,
    }
}

/// Reads the two names of a request. Both must name a face.
pub fn mix(left: &str, right: &str) -> (r: Result<Smile, MixError>)
    ensures
        r == (match mix_spec(left@, right@) {
            Some(smile) => Ok::<Smile, MixError>(smile),
            None => Err(MixError::InvalidName),
        }),
{
    let left = SmileType::from_str(left);
    let right = SmileType::from_str(right);
    match (left, right) {
        (Ok(l), Ok(r)) => Ok(Smile::new(l, r)),
        _ => Err(MixError::InvalidName),
    }
}

/// Paints the picture that a request asks for. Nothing is painted unless
/// both names are names of faces.
pub fn mix_image(catalog: &Catalog, left: &str, right: &str) -> (r: Result<Canvas, MixError>)
    ensures
        match r {
            Ok(canvas) => mix_spec(left@, right@) matches Some(smile) && canvas.wf() && canvas@
                == smile.generated(catalog),
            Err(e) => e == MixError::InvalidName && mix_spec(left@, right@).is_none(),
        },
{
    match mix(left, right) {
        Ok(smile) => Ok(smile.generate(catalog)),
        Err(e) => Err(e),
    }
}

/// The answer to a request once its picture was encoded, or was not.
pub fn encoded_reply(encoded: Result<Vec<u8>, crate::codec::EncodeError>) -> (r: Result<
    Vec<u8>,
    MixError,
>)
    ensures
        r == (match encoded {
            Ok(bytes) => Ok::<Vec<u8>, MixError>(bytes),
            Err(_) => Err(MixError::Encoding),
        }),
{
    match encoded {
        Ok(bytes) => Ok(bytes),
        Err(_) => Err(MixError::Encoding),
    }
}

/// Answers a request with the GIF file of its picture.
pub fn mix_image_gif(catalog: &Catalog, left: &str, right: &str) -> (r: Result<Vec<u8>, MixError>)
    ensures
        match mix_spec(left@, right@) {
            None => r == Err::<Vec<u8>, MixError>(MixError::InvalidName),
            Some(smile) => match crate::codec::gif_encoding(
                crate::canvas::SMILE_WIDTH,
                crate::canvas::SMILE_HEIGHT,
                crate::canvas::rgb8_of_pixels(smile.generated(catalog)),
            ) {
                Some(bytes) => r matches Ok(b) && b@ == bytes,
                None => r == Err::<Vec<u8>, MixError>(MixError::Encoding),
            },
        },
{
    match mix_image(catalog, left, right) {
        Ok(canvas) => encoded_reply(canvas.to_gif()),
        Err(e) => Err(e),
    }
}

} // verus!
