//! The typed pixel iterator: raw values resolved through the color map and
//! packed at the image's selected color representation.

use crate::color_map::{spec_cm_get, ColorMap};
use crate::geometry::Point;
use crate::header::Bpp;
use crate::raw_iter::{
    spec_dec_emit, spec_dec_step, spec_pixel_limit, spec_position_at, RawPixels,
};
use crate::Tga;
use vstd::prelude::*;

verus! {

/// The color representation selected for a decoded image, by the pair of
/// its color bit depth and its data kind.
#[derive(Copy, Clone, Eq, PartialEq, Structural, Debug)]
pub enum ColorType {
    /// 8-bit grayscale.
    Gray8,
    /// 15-bit RGB, five bits per channel, packed in 16 stored bits.
    Rgb555,
    /// 24-bit RGB, one byte per channel.
    Rgb888,
}

/// One decoded pixel color: the packed raw bits at the image's selected
/// representation, already resolved through the color map when one is
/// present.
#[derive(Copy, Clone, Eq, PartialEq, Structural, Debug)]
pub enum TgaColor {
    /// An 8-bit grayscale luma value.
    Gray8(u8),
    /// A packed 15-bit RGB value in the low bits.
    Rgb555(u16),
    /// A packed 24-bit RGB value.
    Rgb888(u32),
}

/// The raw stored value resolved through the optional color map: a palette
/// lookup for color mapped images, the value itself otherwise. A palette
/// index beyond the table resolves to zero, in line with the tolerance
/// shown to every other kind of malformed pixel data.
pub open spec fn spec_resolve_color(cm: Option<(Bpp, Seq<u8>)>, raw: u32) -> u32 {
    match cm {
        None => raw,
        Some((bpp, table)) => match spec_cm_get(table, bpp, raw as int) {
            Some(v) => v,
            None => 0,
        },
    }
}

/// The resolved value packed at the selected representation: its low 8, 16
/// or 24 bits.
pub open spec fn spec_typed_color(ct: ColorType, v: u32) -> TgaColor {
    match ct {
        ColorType::Gray8 => TgaColor::Gray8((v & 0xFF) as u8),
        ColorType::Rgb555 => TgaColor::Rgb555((v & 0xFFFF) as u16),
        ColorType::Rgb888 => TgaColor::Rgb888(v & 0xFFFFFF),
    }
}

/// One typed pixel: a position relative to the top left corner of the
/// image, and the pixel's color.
#[derive(Copy, Clone, Eq, PartialEq, Structural, Debug)]
pub struct TgaPixel {
    /// The position relative to the top left corner of the image.
    pub position: Point,
    /// The pixel color.
    pub color: TgaColor,
}

/// Iterator over the typed pixels of a [`Tga`] image.
#[derive(Copy, Clone)]
pub struct Pixels<'a> {
    /// The raw pixel iterator.
    pub raw: RawPixels<'a>,
    /// The color map, for color mapped images.
    pub color_map: Option<ColorMap<'a>>,
    /// The selected color representation.
    pub color_type: ColorType,
}

impl<'a> Pixels<'a> {
    /// The iterator is as well formed as its raw pixel walk.
    pub open spec fn wf(self) -> bool {
        self.raw.wf()
    }

    /// Entry depth and table bytes of the color map, when present.
    pub open spec fn spec_cm_parts(self) -> Option<(Bpp, Seq<u8>)> {
        match self.color_map {
            None => None,
            Some(cm) => Some((cm.entry_bpp, cm.data@)),
        }
    }

    /// Creates an iterator over the pixels of `tga`.
    pub(crate) fn new(tga: &Tga<'a>) -> (r: Self)
        ensures
            r.wf(),
            r.raw.colors.data@ == tga.raw.pixel_data@,
            r.raw.colors.bpp == tga.raw.header.pixel_depth,
            r.raw.colors.compression == tga.raw.header.compression,
            r.raw.colors.pos == 0,
            r.raw.colors.rle_repeat == 0,
            r.raw.colors.rle_take_raw == 0,
            r.raw.colors.rle_pixel == 0,
            r.raw.width == tga.raw.header.width,
            r.raw.height == tga.raw.header.height,
            r.raw.origin == tga.raw.header.image_origin,
            r.raw.emitted@ == 0,
            r.color_map == tga.raw.color_map,
            r.color_type == tga.image_color_type,
    {
        Pixels {
            raw: RawPixels::new(&tga.raw),
            color_map: tga.raw.color_map,
            color_type: tga.image_color_type,
        }
    }

    /// Produces the next pixel: the next raw pixel, its value resolved
    /// through the color map when one is present, packed at the selected
    /// representation. `None` once every pixel has been produced, or as
    /// soon as an RLE stream terminates early.
    pub fn next(&mut self) -> (r: Option<TgaPixel>)
        requires
            old(self).wf(),
        ensures
            final(self).wf(),
            final(self).color_map == old(self).color_map,
            final(self).color_type == old(self).color_type,
            final(self).raw.width == old(self).raw.width,
            final(self).raw.height == old(self).raw.height,
            final(self).raw.origin == old(self).raw.origin,
            final(self).raw.colors.data@ == old(self).raw.colors.data@,
            final(self).raw.colors.bpp == old(self).raw.colors.bpp,
            final(self).raw.colors.compression == old(self).raw.colors.compression,
            ({
                let w = old(self).raw.width as int;
                let h = old(self).raw.height as int;
                let k = old(self).raw.emitted@;
                let c = old(self).raw.colors;
                if k < spec_pixel_limit(w, h) {
                    &&& final(self).raw.emitted@ == k + 1
                    &&& final(self).raw.colors.state() == spec_dec_step(
                        c.data@,
                        c.byte_width(),
                        c.compression,
                        c.state(),
                    )
                    &&& r == match spec_dec_emit(c.data@, c.byte_width(), c.compression, c.state()) {
                        Some(v) => Some(
                            TgaPixel {
                                position: spec_position_at(old(self).raw.origin, w, h, k as int),
                                color: spec_typed_color(
                                    old(self).color_type,
                                    spec_resolve_color(old(self).spec_cm_parts(), v),
                                ),
                            },
                        ),
                        None => None::<TgaPixel>,
                    }
                } else {
                    &&& r is None
                    &&& *final(self) == *old(self)
                }
            }),
    {
        let raw_pixel = match self.raw.next() {
            Some(p) => p,
            None => {
                return None;
            },
        };
        let value = match &self.color_map {
            Some(cm) => match cm.get_raw(raw_pixel.color as usize) {
                Some(v) => v,
                None => 0,
            },
            None => raw_pixel.color,
        };
        let color = match self.color_type {
            ColorType::Gray8 => TgaColor::Gray8((value & 0xFF) as u8),
            ColorType::Rgb555 => TgaColor::Rgb555((value & 0xFFFF) as u16),
            ColorType::Rgb888 => TgaColor::Rgb888(value & 0xFFFFFF),
        };
        Some(TgaPixel { position: raw_pixel.position, color })
    }
}

} // verus!
