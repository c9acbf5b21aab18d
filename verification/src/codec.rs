//! Decoding sprites from PNG files and encoding the canvas as a GIF, both done
//! by the `image` crate.

use vstd::prelude::*;
use crate::canvas::{rgb8_of_pixels, Canvas, SMILE_HEIGHT, SMILE_WIDTH};
use crate::catalog::{Catalog, ASSET_COUNT};
use crate::sprite::{pixels_of_rgba8, Grid, Sprite};

verus! {

/// The error type of the `image` crate. Nothing is known of a value of it.
#[verifier::external_type_specification]
#[verifier::external_body]
pub struct ExImageError(image::ImageError);

/// What decoding a PNG file gives: width, height and the RGBA bytes of the
/// pixels row by row, or `None` where the bytes are no PNG image that the
/// decoder accepts.
pub uninterp spec fn png_decoding(bytes: Seq<u8>) -> Option<(u32, u32, Seq<u8>)>;

/// The bytes of the GIF file that encoding a grid of RGB bytes gives, or
/// `None` where the encoder refuses it.
pub uninterp spec fn gif_encoding(width: u32, height: u32, rgb: Seq<u8>) -> Option<Seq<u8>>;

/// Calls `image::load_from_memory_with_format` with the PNG format and reads
/// the decoded image through `GenericImageView::pixels`, which walks it row
/// by row and hands each pixel out as RGBA. Assumed: the outcome depends on
/// the bytes alone.
#[verifier::external_body]
fn decode_png(bytes: &[u8]) -> (r: Result<(u32, u32, Vec<u8>), image::ImageError>)
    ensures
        match r {
            Ok(d) => png_decoding(bytes@) == Some((d.0, d.1, d.2@)),
            Err(_) => png_decoding(bytes@).is_none(),
        },
{
    let img = image::load_from_memory_with_format(bytes, image::ImageFormat::Png)?;
    let raw = image::GenericImageView::pixels(&img).flat_map(|(_, _, p)| p.0).collect();
    Ok((img.width(), img.height(), raw))
}

/// Calls `image::write_buffer_with_format` with the RGB8 colour type and the
/// GIF format, writing into memory. Assumed: the outcome depends on the
/// arguments alone. The encoder panics on a buffer that does not hold three
/// bytes per pixel, so such a buffer is not accepted.
#[verifier::external_body]
fn encode_gif(width: u32, height: u32, rgb: &[u8]) -> (r: Result<Vec<u8>, image::ImageError>)
    requires
        rgb@.len() == 3 * (width * height),
    ensures
        match r {
            Ok(bytes) => gif_encoding(width, height, rgb@) == Some(bytes@),
            Err(_) => gif_encoding(width, height, rgb@).is_none(),
        },
{
    let mut out: Vec<u8> = Vec::new();
    image::write_buffer_with_format(
        &mut std::io::Cursor::new(&mut out),
        rgb,
        width,
        height,
        image::ExtendedColorType::Rgb8,
        image::ImageFormat::Gif,
    )?;
    Ok(out)
}

/// The bytes of a file gave no sprite: they are no PNG image, or the decoder
/// did not give four bytes per pixel.
#[derive(Debug, Clone, Copy, PartialEq, Eq, Structural)]
pub struct DecodeError;

/// Why a canvas gave no GIF file.
#[derive(Debug, Clone, Copy, PartialEq, Eq, Structural)]
pub struct EncodeError;

/// The sprite that the bytes of a PNG file hold, if they hold one.
pub open spec fn sprite_decoding(bytes: Seq<u8>) -> Option<Grid> {
    match png_decoding(bytes) {
        Some((width, height, raw)) if raw.len() == 4 * (width * height) => Some(
            Grid { width: width as nat, height: height as nat, pixels: pixels_of_rgba8(raw) },
        ),
        _ => None,
    }
}

impl Sprite {
    /// Decodes the bytes of a PNG file.
    pub fn decode(bytes: &[u8]) -> (r: Result<Sprite, DecodeError>)
        ensures
            match r {
                Ok(s) => s.wf() && sprite_decoding(bytes@) == Some(s@),
                Err(_) => sprite_decoding(bytes@).is_none(),
            },
    {
        match decode_png(bytes) {
            Err(_) => Err(DecodeError),
            Ok((width, height, raw)) => match Sprite::from_rgba8(width, height, raw.as_slice()) {
                Some(sprite) => Ok(sprite),
                None => Err(DecodeError),
            },
        }
    }
}

impl Canvas {
    /// The GIF file of the canvas, if the encoder gives one.
    pub open spec fn gif_spec(self) -> Option<Seq<u8>> {
        gif_encoding(SMILE_WIDTH, SMILE_HEIGHT, rgb8_of_pixels(self@))
    }

    /// Encodes the canvas as a GIF file.
    pub fn to_gif(&self) -> (r: Result<Vec<u8>, EncodeError>)
        ensures
            match r {
                Ok(bytes) => self.gif_spec() == Some(bytes@),
                Err(_) => self.gif_spec().is_none(),
            },
    {
        let rgb = self.to_rgb8();
        match encode_gif(SMILE_WIDTH, SMILE_HEIGHT, rgb.as_slice()) {
            Ok(bytes) => Ok(bytes),
            Err(_) => Err(EncodeError),
        }
    }
}

/// Why the files gave no catalog.
#[derive(Debug, Clone, Copy, PartialEq, Eq, Structural)]
pub enum CatalogError {
    /// There are more or fewer files than the catalog has sprites.
    Count,
    /// The file at this position of the loading order gave no sprite.
    Asset(usize),
}

impl Catalog {
    /// Decodes the catalog from the contents of its files, given in loading
    /// order. The error names the first file that gives no sprite.
    pub fn decode(files: &Vec<Vec<u8>>) -> (r: Result<Catalog, CatalogError>)
        ensures
            match r {
                Ok(c) => {
                    &&& c.wf()
                    &&& files@.len() == ASSET_COUNT
                    &&& forall|i: int|
                        0 <= i < ASSET_COUNT ==> sprite_decoding(#[trigger] files@[i]@) == Some(
                            c@[i].image@,
                        )
                },
                Err(CatalogError::Count) => files@.len() != ASSET_COUNT,
                Err(CatalogError::Asset(at)) => {
                    &&& files@.len() == ASSET_COUNT
                    &&& at < ASSET_COUNT
                    &&& sprite_decoding(files@[at as int]@).is_none()
                    &&& forall|i: int|
                        0 <= i < at ==> sprite_decoding(#[trigger] files@[i]@).is_some()
                },
            },
    {
        if files.len() != ASSET_COUNT {
            return Err(CatalogError::Count);
        }
        let mut sprites: Vec<Sprite> = Vec::with_capacity(ASSET_COUNT);
        let mut i: usize = 0;
        while i < ASSET_COUNT
            invariant
                i <= ASSET_COUNT,
                files@.len() == ASSET_COUNT,
                sprites@.len() == i,
                forall|j: int|
                    0 <= j < i ==> sprite_decoding(#[trigger] files@[j]@) == Some(sprites@[j]@),
            decreases ASSET_COUNT - i,
        {
            match Sprite::decode(files[i].as_slice()) {
                Ok(sprite) => sprites.push(sprite),
                Err(_) => {
                    return Err(CatalogError::Asset(i));
                },
            }
            i += 1;
        }
        match Catalog::new(sprites) {
            Some(catalog) => Ok(catalog),
            None => Err(CatalogError::Count),
        }
    }
}

} // verus!
