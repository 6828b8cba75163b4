//! A small TGA (Truevision TGA) image decoder.
//!
//! The decoder borrows a byte buffer holding a complete TGA file and exposes
//! the parsed header, the optional color map, the optional footer areas, and
//! lazy iterators over the raw and typed pixel values. Construction fails
//! fast on a malformed header; once constructed, pixel iteration never
//! fails: truncated pixel data degrades to zero-valued pixels or early
//! termination, as the format's tolerant decoders conventionally do.

pub mod bytes;
pub mod color_map;
pub mod footer;
pub mod geometry;
pub mod header;
pub mod parse_error;
pub mod pixels;
pub mod raw_iter;
pub mod raw_tga;

pub use crate::color_map::ColorMap;
pub use crate::geometry::{Point, Size};
pub use crate::header::{Bpp, Compression, DataType, ImageOrigin, TgaHeader};
pub use crate::parse_error::ParseError;
pub use crate::pixels::{ColorType, Pixels, TgaColor, TgaPixel};
pub use crate::raw_iter::{RawColors, RawPixel, RawPixels};
pub use crate::raw_tga::RawTga;

use crate::raw_tga::spec_from_slice;
use vstd::prelude::*;

verus! {

/// The color representation implied by a color bit depth and a data kind;
/// `None` for every unsupported combination, 32-bit pixel data among them.
pub open spec fn spec_color_type(bpp: Bpp, data_type: DataType) -> Option<ColorType> {
    match (bpp, data_type) {
        (Bpp::Bits8, DataType::BlackAndWhite) => Some(ColorType::Gray8),
        (Bpp::Bits16, DataType::ColorMapped) => Some(ColorType::Rgb555),
        (Bpp::Bits16, DataType::TrueColor) => Some(ColorType::Rgb555),
        (Bpp::Bits24, DataType::ColorMapped) => Some(ColorType::Rgb888),
        (Bpp::Bits24, DataType::TrueColor) => Some(ColorType::Rgb888),
        _ => None,
    }
}

/// TGA image: a raw image together with the color representation that its
/// color depth and data kind select.
#[derive(Copy, Clone, Eq, PartialEq, Debug)]
pub struct Tga<'a> {
    /// Raw TGA file.
    pub raw: RawTga<'a>,
    /// The selected color representation.
    pub image_color_type: ColorType,
}

impl<'a> Tga<'a> {
    /// A well-formed image is a well-formed raw image carrying the
    /// representation that its classification selects.
    pub open spec fn wf(self) -> bool {
        &&& self.raw.wf()
        &&& spec_color_type(self.raw.spec_color_bpp(), self.raw.header.data_type) == Some(
            self.image_color_type,
        )
    }

    /// Parses a TGA image from a byte slice.
    ///
    /// Construction succeeds exactly when the raw image parses and the
    /// pair of its color bit depth and data kind has a supported color
    /// representation; an unsupported pair is named in the error.
    pub fn from_slice(data: &'a [u8]) -> (r: Result<Tga<'a>, ParseError>)
        ensures
            match r {
                Ok(t) => {
                    &&& spec_from_slice(data@) is Ok
                    &&& t.raw.data@ == data@
                    &&& t.wf()
                },
                Err(e) => match spec_from_slice(data@) {
                    Err(pe) => e == pe,
                    Ok(parts) => ({
                        let cb = match parts.color_map {
                            Some((d, _)) => d,
                            None => parts.header.pixel_depth,
                        };
                        &&& spec_color_type(cb, parts.header.data_type) is None
                        &&& e == ParseError::UnsupportedTgaType(parts.header.data_type, cb)
                    }),
                },
            },
    {
        let raw = match RawTga::from_slice(data) {
            Ok(t) => t,
            Err(e) => {
                return Err(e);
            },
        };
        let color_bpp = raw.color_bpp();
        let data_type = raw.data_type();
        let image_color_type = match (color_bpp, data_type) {
            (Bpp::Bits8, DataType::BlackAndWhite) => ColorType::Gray8,
            (Bpp::Bits16, DataType::ColorMapped) => ColorType::Rgb555,
            (Bpp::Bits16, DataType::TrueColor) => ColorType::Rgb555,
            (Bpp::Bits24, DataType::ColorMapped) => ColorType::Rgb888,
            (Bpp::Bits24, DataType::TrueColor) => ColorType::Rgb888,
            _ => {
                return Err(ParseError::UnsupportedTgaType(data_type, color_bpp));
            },
        };
        Ok(Tga { raw, image_color_type })
    }

    /// Returns a reference to the raw TGA image, which gives access to
    /// lower level details of the file.
    pub fn as_raw(&self) -> (r: &RawTga<'a>)
        ensures
            *r == self.raw,
    {
        &self.raw
    }

    /// Returns an iterator over the pixels in this image.
    pub fn pixels(&self) -> (r: Pixels<'a>)
        ensures
            r.wf(),
            r.raw.colors.data@ == self.raw.pixel_data@,
            r.raw.colors.bpp == self.raw.header.pixel_depth,
            r.raw.colors.compression == self.raw.header.compression,
            r.raw.colors.pos == 0,
            r.raw.colors.rle_repeat == 0,
            r.raw.colors.rle_take_raw == 0,
            r.raw.colors.rle_pixel == 0,
            r.raw.width == self.raw.header.width,
            r.raw.height == self.raw.header.height,
            r.raw.origin == self.raw.header.image_origin,
            r.raw.emitted@ == 0,
            r.color_map == self.raw.color_map,
            r.color_type == self.image_color_type,
    {
        Pixels::new(self)
    }

    /// Returns the dimensions of this image.
    pub fn size(&self) -> (r: Size)
        ensures
            r == (Size {
                width: self.raw.header.width as u32,
                height: self.raw.header.height as u32,
            }),
    {
        self.raw.size()
    }
}

} // verus!
