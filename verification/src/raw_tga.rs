//! The raw TGA image: structural parsing of a whole file buffer.

use crate::color_map::{spec_cm_byte_len, spec_parse_color_map, ColorMap};
use crate::footer::{
    spec_developer_directory, spec_extension_area, spec_footer_length, TgaFooter,
};
use crate::geometry::Size;
use crate::header::{
    spec_parse_header, Bpp, Compression, DataType, ImageOrigin, TgaHeader, HEADER_LENGTH,
};
use crate::parse_error::ParseError;
use crate::raw_iter::{DecState, RawPixels};
use vstd::prelude::*;
use vstd::slice::slice_subrange;

verus! {

/// Raw TGA image.
///
/// `RawTga` borrows the input buffer for its whole lifetime and owns no
/// copy of the pixel data; only the fixed header fields are cached at
/// construction, and every cached value is a pure function of the buffer.
#[derive(Copy, Clone, Eq, PartialEq, Debug)]
pub struct RawTga<'a> {
    /// The whole input buffer.
    pub data: &'a [u8],
    /// The parsed header.
    pub header: TgaHeader,
    /// The color map, when the header announces one.
    pub color_map: Option<ColorMap<'a>>,
    /// The pixel data byte range: the bytes after the image ID field and
    /// the color map, up to the footer region.
    pub pixel_data: &'a [u8],
}

/// The first byte offset after the image ID field.
pub open spec fn spec_id_end(h: TgaHeader) -> int {
    HEADER_LENGTH + h.id_len
}

/// The first byte offset of the pixel data.
pub open spec fn spec_pixel_data_start(h: TgaHeader) -> int {
    spec_id_end(h) + spec_cm_byte_len(h)
}

/// The byte offset one past the pixel data: the buffer end minus the
/// footer region, never before the pixel data start.
pub open spec fn spec_pixel_data_end(data: Seq<u8>, h: TgaHeader) -> int {
    let start = spec_pixel_data_start(h);
    let avail = data.len() - start;
    let foot = spec_footer_length(data);
    if foot > avail {
        start
    } else {
        data.len() - foot
    }
}

/// The ghost content of a raw TGA image: the header, the color map entry
/// depth and table bytes, and the pixel data bytes.
pub ghost struct RawTgaParts {
    /// The parsed header.
    pub header: TgaHeader,
    /// Entry depth and table bytes of the color map, when present.
    pub color_map: Option<(Bpp, Seq<u8>)>,
    /// The pixel data bytes.
    pub pixel_data: Seq<u8>,
}

/// The complete construction of a raw TGA image from a buffer: the parsed
/// header, the optional color map, and the pixel data range, or the first
/// classified error. The pixel data range is not validated against the
/// image dimensions: a truncated pixel data region is tolerated.
pub open spec fn spec_from_slice(data: Seq<u8>) -> Result<RawTgaParts, ParseError> {
    match spec_parse_header(data) {
        Err(e) => Err(e),
        Ok(h) => {
            if data.len() < spec_id_end(h) {
                Err(ParseError::Header)
            } else {
                match spec_parse_color_map(data.subrange(spec_id_end(h), data.len() as int), h) {
                    Err(e) => Err(e),
                    Ok(cm) => Ok(
                        RawTgaParts {
                            header: h,
                            color_map: cm,
                            pixel_data: data.subrange(
                                spec_pixel_data_start(h),
                                spec_pixel_data_end(data, h),
                            ),
                        },
                    ),
                }
            }
        },
    }
}

impl<'a> RawTga<'a> {
    /// The ghost content of this value.
    pub open spec fn parts(self) -> RawTgaParts {
        RawTgaParts {
            header: self.header,
            color_map: match self.color_map {
                None => None,
                Some(cm) => Some((cm.entry_bpp, cm.data@)),
            },
            pixel_data: self.pixel_data@,
        }
    }

    /// A well-formed value holds exactly the successful parse of its
    /// buffer.
    pub open spec fn wf(self) -> bool {
        spec_from_slice(self.data@) == Ok::<RawTgaParts, ParseError>(self.parts())
    }

    /// The color bit depth of the decoded pixels: the color map entry
    /// depth when a color map is present, the stored pixel depth
    /// otherwise.
    pub open spec fn spec_color_bpp(self) -> Bpp {
        match self.color_map {
            Some(cm) => cm.entry_bpp,
            None => self.header.pixel_depth,
        }
    }

    /// Parses a TGA image from a byte slice.
    ///
    /// Construction fails fast with one classified error; it succeeds even
    /// when the pixel data region is shorter than the image dimensions
    /// call for, because pixel iteration tolerates truncation.
    pub fn from_slice(data: &'a [u8]) -> (r: Result<RawTga<'a>, ParseError>)
        ensures
            match r {
                Ok(t) => {
                    &&& spec_from_slice(data@) is Ok
                    &&& t.data@ == data@
                    &&& t.wf()
                },
                Err(e) => spec_from_slice(data@) == Err::<RawTgaParts, ParseError>(e),
            },
    {
        let header = match TgaHeader::parse(data) {
            Ok(h) => h,
            Err(e) => {
                return Err(e);
            },
        };
        let id_end = HEADER_LENGTH + header.id_len as usize;
        if data.len() < id_end {
            return Err(ParseError::Header);
        }
        let after_id = slice_subrange(data, id_end, data.len());
        let (cm_len, color_map) = match ColorMap::parse(after_id, &header) {
            Ok(p) => p,
            Err(e) => {
                return Err(e);
            },
        };
        let pd_start = id_end + cm_len;
        let footer_len = match TgaFooter::parse(data) {
            Some(f) => f.length(data),
            None => 0,
        };
        let avail = data.len() - pd_start;
        let pixel_end = if footer_len > avail {
            pd_start
        } else {
            data.len() - footer_len
        };
        let pixel_data = slice_subrange(data, pd_start, pixel_end);
        Ok(RawTga { data, header, color_map, pixel_data })
    }

    /// Returns the dimensions of this image.
    pub fn size(&self) -> (r: Size)
        ensures
            r == (Size { width: self.header.width as u32, height: self.header.height as u32 }),
    {
        Size::new(self.header.width as u32, self.header.height as u32)
    }

    /// Returns the color map, or `None` if the image contains no color
    /// map.
    pub fn color_map(&self) -> (r: Option<&ColorMap<'a>>)
        ensures
            match r {
                Some(cm) => self.color_map == Some(*cm),
                None => self.color_map is None,
            },
    {
        self.color_map.as_ref()
    }

    /// Returns the color bit depth of the decoded pixels, regardless of
    /// how they are stored: the color map entry depth for color mapped
    /// images, the stored pixel depth otherwise.
    pub fn color_bpp(&self) -> (r: Bpp)
        ensures
            r == self.spec_color_bpp(),
    {
        match &self.color_map {
            Some(cm) => cm.entry_bpp,
            None => self.header.pixel_depth,
        }
    }

    /// Returns the image origin.
    pub fn image_origin(&self) -> (r: ImageOrigin)
        ensures
            r == self.header.image_origin,
    {
        self.header.image_origin
    }

    /// Returns the data type.
    pub fn data_type(&self) -> (r: DataType)
        ensures
            r == self.header.data_type,
    {
        self.header.data_type
    }

    /// Returns the compression type.
    pub fn compression(&self) -> (r: Compression)
        ensures
            r == self.header.compression,
    {
        self.header.compression
    }

    /// Returns the raw image data contained in this image.
    pub fn image_data(&self) -> (r: &'a [u8])
        ensures
            r@ == self.pixel_data@,
    {
        self.pixel_data
    }

    /// Returns the number of bits used to store one pixel in the image
    /// data: for color mapped images the bit depth of the palette
    /// indices, which may differ from the color depth.
    pub fn image_data_bpp(&self) -> (r: Bpp)
        ensures
            r == self.header.pixel_depth,
    {
        self.header.pixel_depth
    }

    /// Returns an iterator over the raw pixels in this image.
    pub fn pixels(&self) -> (r: RawPixels<'a>)
        ensures
            r.wf(),
            r.colors.data@ == self.pixel_data@,
            r.colors.bpp == self.header.pixel_depth,
            r.colors.compression == self.header.compression,
            r.colors.state() == (DecState { pos: 0, repeat: 0, take_raw: 0, pixel: 0 }),
            r.width == self.header.width,
            r.height == self.header.height,
            r.origin == self.header.image_origin,
            r.emitted@ == 0,
    {
        RawPixels::new(self)
    }

    /// Returns the TGA header.
    ///
    /// The returned value is a direct representation of the header
    /// contained in the file; it is cached at construction, and equal to
    /// what re-parsing the buffer would give.
    pub fn header(&self) -> (r: TgaHeader)
        ensures
            r == self.header,
            self.wf() ==> Ok::<TgaHeader, ParseError>(r) == spec_parse_header(self.data@),
    {
        self.header
    }

    /// Returns the developer directory, when the footer announces one
    /// whose offset points inside the buffer.
    pub fn developer_directory(&self) -> (r: Option<&'a [u8]>)
        ensures
            r is Some <==> spec_developer_directory(self.data@) is Some,
            r matches Some(s) ==> Some(s@) == spec_developer_directory(self.data@),
    {
        match TgaFooter::parse(self.data) {
            None => None,
            Some(f) => f.developer_directory(self.data),
        }
    }

    /// Returns the extension area, when the footer announces one whose
    /// offset points inside the buffer.
    pub fn extension_area(&self) -> (r: Option<&'a [u8]>)
        ensures
            r is Some <==> spec_extension_area(self.data@) is Some,
            r matches Some(s) ==> Some(s@) == spec_extension_area(self.data@),
    {
        match TgaFooter::parse(self.data) {
            None => None,
            Some(f) => f.extension_area(self.data),
        }
    }

    /// Returns the content of the image ID field, or `None` when the file
    /// holds none.
    pub fn image_id(&self) -> (r: Option<&'a [u8]>)
        requires
            self.wf(),
        ensures
            r is Some <==> self.header.id_len > 0,
            r matches Some(s) ==> s@ == self.data@.subrange(
                HEADER_LENGTH as int,
                spec_id_end(self.header),
            ),
    {
        if self.header.id_len == 0 {
            None
        } else {
            Some(slice_subrange(self.data, HEADER_LENGTH, HEADER_LENGTH + self.header.id_len as usize))
        }
    }
}

/// Decoding has no observable side effects: any two well-formed images
/// over equal buffers carry equal headers, color maps, pixel data and
/// footer areas, so two independent decoding passes yield identical
/// results.
pub proof fn lemma_decode_idempotent(t1: RawTga<'_>, t2: RawTga<'_>)
    requires
        t1.wf(),
        t2.wf(),
        t1.data@ == t2.data@,
    ensures
        t1.header == t2.header,
        t1.parts() == t2.parts(),
        t1.pixel_data@ == t2.pixel_data@,
        spec_developer_directory(t1.data@) == spec_developer_directory(t2.data@),
        spec_extension_area(t1.data@) == spec_extension_area(t2.data@),
{
}

/// Construction never demands that the pixel data region be as long as the
/// image dimensions call for: it succeeds whenever the header parses and
/// the image ID field and the announced color map fit in the buffer,
/// however few bytes remain after them.
pub proof fn lemma_construction_tolerates_truncation(data: Seq<u8>)
    requires
        spec_parse_header(data) is Ok,
        spec_id_end(spec_parse_header(data)->Ok_0) <= data.len(),
        spec_parse_color_map(
            data.subrange(spec_id_end(spec_parse_header(data)->Ok_0), data.len() as int),
            spec_parse_header(data)->Ok_0,
        ) is Ok,
    ensures
        spec_from_slice(data) is Ok,
{
}

} // verus!
