//! The optional color map (palette) table of a TGA file.

use crate::bytes::{lemma_le_bytes_fits_u32, read_le_bytes, spec_le_bytes};
use crate::header::{Bpp, TgaHeader};
use crate::parse_error::ParseError;
use vstd::prelude::*;
use vstd::slice::slice_subrange;

verus! {

/// A read-only palette table borrowed from the input buffer.
///
/// The table is indexable by a zero-based entry index; each entry is one
/// raw color value stored little-endian at the table's entry bit depth.
#[derive(Copy, Clone, Eq, PartialEq, Debug)]
pub struct ColorMap<'a> {
    /// Number of bits of one palette entry.
    pub entry_bpp: Bpp,
    /// The raw bytes of the whole table.
    pub data: &'a [u8],
}

/// The byte length of the color map table announced by a header: entry
/// count times entry byte width. Zero when no color map is present.
pub open spec fn spec_cm_byte_len(h: TgaHeader) -> int {
    if h.has_color_map {
        match h.color_map_depth {
            Some(d) => h.color_map_len * d.spec_bytes(),
            None => 0,
        }
    } else {
        0
    }
}

/// The color map table parsed from the bytes that follow the image ID
/// field. `Ok(None)` when the header announces no color map; the color map
/// class error when the header announces one without a usable entry depth;
/// a structural header error when the announced table overruns the buffer.
pub open spec fn spec_parse_color_map(input: Seq<u8>, h: TgaHeader) -> Result<
    Option<(Bpp, Seq<u8>)>,
    ParseError,
> {
    if !h.has_color_map {
        Ok(None)
    } else {
        match h.color_map_depth {
            None => Err(ParseError::ColorMap),
            Some(d) => {
                let nbytes = h.color_map_len * d.spec_bytes();
                if nbytes <= input.len() {
                    Ok(Some((d, input.subrange(0, nbytes))))
                } else {
                    Err(ParseError::Header)
                }
            },
        }
    }
}

/// Whether the executable result of [`ColorMap::parse`] carries exactly the
/// table that [`spec_parse_color_map`] describes.
pub open spec fn cm_parse_matches<'a>(
    r: Result<(usize, Option<ColorMap<'a>>), ParseError>,
    sp: Result<Option<(Bpp, Seq<u8>)>, ParseError>,
) -> bool {
    match (r, sp) {
        (Ok((n, None)), Ok(None)) => n == 0,
        (Ok((n, Some(cm))), Ok(Some((d, bytes)))) => {
            &&& n == bytes.len()
            &&& cm.entry_bpp == d
            &&& cm.data@ == bytes
        },
        (Err(e1), Err(e2)) => e1 == e2,
        _ => false,
    }
}

/// The raw color value of palette entry `index` of a table of `data` bytes
/// at `entry_bpp` depth; absent when the entry lies outside the table.
pub open spec fn spec_cm_get(data: Seq<u8>, entry_bpp: Bpp, index: int) -> Option<u32> {
    let nb = entry_bpp.spec_bytes() as int;
    if 0 <= index && index * nb + nb <= data.len() {
        Some(spec_le_bytes(data, index * nb, nb) as u32)
    } else {
        None
    }
}

impl<'a> ColorMap<'a> {
    /// The raw color value of palette entry `index`, absent when the entry
    /// lies outside the table.
    pub open spec fn spec_get(self, index: int) -> Option<u32> {
        spec_cm_get(self.data@, self.entry_bpp, index)
    }

    /// Parses the color map table from the bytes that follow the image ID
    /// field, when the header announces one. On success the consumed byte
    /// count is returned beside the optional table.
    pub fn parse(input: &'a [u8], header: &TgaHeader) -> (r: Result<
        (usize, Option<ColorMap<'a>>),
        ParseError,
    >)
        ensures
            cm_parse_matches(r, spec_parse_color_map(input@, *header)),
    {
        if !header.has_color_map {
            return Ok((0, None));
        }
        let depth = match header.color_map_depth {
            Some(d) => d,
            None => {
                return Err(ParseError::ColorMap);
            },
        };
        let nb = depth.bytes() as usize;
        proof {
            assert(header.color_map_len as int * nb as int <= 0x3FFFC) by (nonlinear_arith)
                requires
                    header.color_map_len <= 0xFFFF,
                    nb <= 4,
            ;
        }
        let nbytes = (header.color_map_len as usize) * nb;
        if nbytes <= input.len() {
            Ok((nbytes, Some(ColorMap { entry_bpp: depth, data: slice_subrange(input, 0, nbytes) })))
        } else {
            Err(ParseError::Header)
        }
    }

    /// Returns the bit depth of one palette entry.
    pub fn entry_bpp(&self) -> (r: Bpp)
        ensures
            r == self.entry_bpp,
    {
        self.entry_bpp
    }

    /// Returns the raw color value of palette entry `index`, or `None` when
    /// the entry lies outside the table.
    pub fn get_raw(&self, index: usize) -> (r: Option<u32>)
        ensures
            r == self.spec_get(index as int),
    {
        let nb = self.entry_bpp.bytes() as usize;
        let dlen = self.data.len();
        match index.checked_mul(nb) {
            None => None,
            Some(start) => match start.checked_add(nb) {
                None => None,
                Some(end) => {
                    if end <= dlen {
                        let value = read_le_bytes(self.data, start, nb);
                        proof {
                            lemma_le_bytes_fits_u32(self.data@, start as int, nb as int);
                        }
                        Some(value)
                    } else {
                        None
                    }
                },
            },
        }
    }
}

} // verus!
