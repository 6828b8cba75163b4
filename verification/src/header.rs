//! Parsing of the fixed 18-byte TGA header.

use crate::parse_error::ParseError;
use vstd::prelude::*;

verus! {

/// Bits per pixel.
#[derive(Copy, Clone, Eq, PartialEq, Structural, Ord, PartialOrd, Hash, Debug)]
#[non_exhaustive]
pub enum Bpp {
    /// 8 bits per pixel.
    Bits8,
    /// 16 bits per pixel.
    Bits16,
    /// 24 bits per pixel.
    Bits24,
    /// 32 bits per pixel.
    Bits32,
}

/// The bit depth encoded by a pixel or color map depth byte, if the byte
/// holds one of the four supported values.
pub open spec fn spec_bpp_new(value: u8) -> Option<Bpp> {
    if value == 8 {
        Some(Bpp::Bits8)
    } else if value == 16 {
        Some(Bpp::Bits16)
    } else if value == 24 {
        Some(Bpp::Bits24)
    } else if value == 32 {
        Some(Bpp::Bits32)
    } else {
        None
    }
}

impl Bpp {
    /// The number of bits: 8, 16, 24 or 32.
    pub open spec fn spec_bits(self) -> u8 {
        match self {
            Bpp::Bits8 => 8,
            Bpp::Bits16 => 16,
            Bpp::Bits24 => 24,
            Bpp::Bits32 => 32,
        }
    }

    /// The number of bytes that store one value of this bit depth.
    pub open spec fn spec_bytes(self) -> u8 {
        match self {
            Bpp::Bits8 => 1,
            Bpp::Bits16 => 2,
            Bpp::Bits24 => 3,
            Bpp::Bits32 => 4,
        }
    }

    /// Classifies a depth byte; only 8, 16, 24 and 32 are supported.
    pub fn new(value: u8) -> (r: Option<Self>)
        ensures
            r == spec_bpp_new(value),
    {
        if value == 8 {
            Some(Self::Bits8)
        } else if value == 16 {
            Some(Self::Bits16)
        } else if value == 24 {
            Some(Self::Bits24)
        } else if value == 32 {
            Some(Self::Bits32)
        } else {
            None
        }
    }

    /// Returns the number of bits.
    pub fn bits(self) -> (r: u8)
        ensures
            r == self.spec_bits(),
    {
        match self {
            Self::Bits8 => 8,
            Self::Bits16 => 16,
            Self::Bits24 => 24,
            Self::Bits32 => 32,
        }
    }

    /// Returns the number of bytes needed to store values with this bit depth.
    pub fn bytes(self) -> (r: u8)
        ensures
            r == self.spec_bytes(),
            1 <= r <= 4,
    {
        match self {
            Self::Bits8 => 1,
            Self::Bits16 => 2,
            Self::Bits24 => 3,
            Self::Bits32 => 4,
        }
    }
}

/// Image data compression.
#[derive(Copy, Clone, Eq, PartialEq, Structural, Ord, PartialOrd, Hash, Debug)]
pub enum Compression {
    /// Uncompressed image data.
    Uncompressed,
    /// Run-length encoded image data.
    Rle,
}

/// Image data type.
#[derive(Copy, Clone, Eq, PartialEq, Structural, Ord, PartialOrd, Hash, Debug)]
pub enum DataType {
    /// No image data.
    NoData,
    /// Color mapped.
    ColorMapped,
    /// True color.
    TrueColor,
    /// Black and white or grayscale.
    BlackAndWhite,
}

/// An image type byte is valid when it uses only bits {0, 1, 3} and is not
/// the reserved value 8.
pub open spec fn spec_image_type_valid(image_type: u8) -> bool {
    image_type & 0xF4 == 0 && image_type != 8
}

/// The data kind selected by the low two bits of the image type byte.
pub open spec fn spec_data_type(image_type: u8) -> DataType {
    if image_type & 0x3 == 1 {
        DataType::ColorMapped
    } else if image_type & 0x3 == 2 {
        DataType::TrueColor
    } else if image_type & 0x3 == 3 {
        DataType::BlackAndWhite
    } else {
        DataType::NoData
    }
}

/// The compression mode selected by bit 3 of the image type byte.
pub open spec fn spec_compression(image_type: u8) -> Compression {
    if image_type & 0x8 != 0 {
        Compression::Rle
    } else {
        Compression::Uncompressed
    }
}

/// Classifies the image type byte into a data kind and a compression mode.
///
/// For every byte that uses only bits {0, 1, 3} and is not the reserved
/// value 8, the result is exactly the pair implied by bits {0, 1} and bit 3;
/// every other byte value fails with the unsupported image type error.
pub fn parse_image_type(image_type: u8) -> (r: Result<(DataType, Compression), ParseError>)
    ensures
        r is Ok <==> spec_image_type_valid(image_type),
        spec_image_type_valid(image_type) ==> r == Ok::<_, ParseError>(
            (spec_data_type(image_type), spec_compression(image_type)),
        ),
        !spec_image_type_valid(image_type) ==> r == Err::<(DataType, Compression), _>(
            ParseError::UnsupportedImageType(image_type),
        ),
{
    if image_type & 0xF4 != 0 || image_type == 8 {
        return Err(ParseError::UnsupportedImageType(image_type));
    }

    let data_type = if image_type & 0x3 == 1 {
        DataType::ColorMapped
    } else if image_type & 0x3 == 2 {
        DataType::TrueColor
    } else if image_type & 0x3 == 3 {
        DataType::BlackAndWhite
    } else {
        DataType::NoData
    };

    let compression = if image_type & 0x8 != 0 {
        Compression::Rle
    } else {
        Compression::Uncompressed
    };

    Ok((data_type, compression))
}

/// Image origin: the corner of the image that the first stored pixel row
/// belongs to.
#[derive(Copy, Clone, Eq, PartialEq, Structural, Ord, PartialOrd, Hash, Debug)]
pub enum ImageOrigin {
    /// Bottom left.
    BottomLeft,
    /// Bottom right.
    BottomRight,
    /// Top left.
    TopLeft,
    /// Top right.
    TopRight,
}

/// The image origin encoded in bits 4 and 5 of the image descriptor byte.
pub open spec fn spec_origin_from_descriptor(value: u8) -> ImageOrigin {
    if (value & 0x30) >> 4u8 == 0 {
        ImageOrigin::BottomLeft
    } else if (value & 0x30) >> 4u8 == 1 {
        ImageOrigin::BottomRight
    } else if (value & 0x30) >> 4u8 == 2 {
        ImageOrigin::TopLeft
    } else {
        ImageOrigin::TopRight
    }
}

impl ImageOrigin {
    /// Whether the first stored pixel row is the bottom row of the image.
    pub open spec fn spec_is_bottom(self) -> bool {
        self is BottomLeft || self is BottomRight
    }

    /// Extracts the image origin from bits 4 and 5 of the image descriptor
    /// byte.
    pub fn from_image_descriptor(value: u8) -> (r: Self)
        ensures
            r == spec_origin_from_descriptor(value),
    {
        let bits = (value & 0x30) >> 4u8;
        if bits == 0 {
            Self::BottomLeft
        } else if bits == 1 {
            Self::BottomRight
        } else if bits == 2 {
            Self::TopLeft
        } else {
            Self::TopRight
        }
    }

    /// Whether the stored rows run bottom-up.
    pub fn is_bottom(self) -> (r: bool)
        ensures
            r == self.spec_is_bottom(),
    {
        match self {
            Self::BottomLeft | Self::BottomRight => true,
            _ => false,
        }
    }
}

/// The value of two consecutive bytes read little-endian.
pub open spec fn spec_le16(b0: u8, b1: u8) -> u16 {
    (b0 + b1 * 256) as u16
}

/// The byte length of the fixed TGA header.
pub const HEADER_LENGTH: usize = 18;

/// TGA header.
///
/// The fields are direct representations of the fixed 18-byte header of a
/// TGA file.
#[derive(Copy, Clone, Eq, PartialEq, Ord, PartialOrd, Hash, Debug)]
pub struct TgaHeader {
    /// Image ID field length.
    pub id_len: u8,
    /// Whether a color map is included in the image data.
    pub has_color_map: bool,
    /// Data type.
    pub data_type: DataType,
    /// Compression.
    pub compression: Compression,
    /// Color map origin.
    pub color_map_start: u16,
    /// Length of color map.
    pub color_map_len: u16,
    /// Number of bits in each color palette entry.
    pub color_map_depth: Option<Bpp>,
    /// Image origin (X).
    pub x_origin: u16,
    /// Image origin (Y).
    pub y_origin: u16,
    /// Image width in pixels.
    pub width: u16,
    /// Image height in pixels.
    pub height: u16,
    /// Pixel bit depth.
    pub pixel_depth: Bpp,
    /// Image origin.
    pub image_origin: ImageOrigin,
    /// Alpha channel depth.
    pub alpha_channel_depth: u8,
}

/// The header field values read from the first 18 bytes of `data`.
pub open spec fn spec_header_fields(data: Seq<u8>) -> TgaHeader {
    TgaHeader {
        id_len: data[0],
        has_color_map: data[1] == 1,
        data_type: spec_data_type(data[2]),
        compression: spec_compression(data[2]),
        color_map_start: spec_le16(data[3], data[4]),
        color_map_len: spec_le16(data[5], data[6]),
        color_map_depth: spec_bpp_new(data[7]),
        x_origin: spec_le16(data[8], data[9]),
        y_origin: spec_le16(data[10], data[11]),
        width: spec_le16(data[12], data[13]),
        height: spec_le16(data[14], data[15]),
        pixel_depth: spec_bpp_new(data[16]).unwrap(),
        image_origin: spec_origin_from_descriptor(data[17]),
        alpha_channel_depth: data[17] & 0xF,
    }
}

/// The result of parsing the fixed header from the start of `data`.
///
/// The fields are validated in storage order: the color map presence byte
/// must be 0 or 1, the image type byte must satisfy the bit-mask invariant,
/// and the pixel depth byte must name a supported depth. A buffer too short
/// for any fixed field is a structural header error. An unsupported color
/// map depth byte is not by itself an error; it merely leaves the optional
/// depth field absent.
pub open spec fn spec_parse_header(data: Seq<u8>) -> Result<TgaHeader, ParseError> {
    if data.len() < 2 {
        Err(ParseError::Header)
    } else if !(data[1] == 0 || data[1] == 1) {
        Err(ParseError::ColorMap)
    } else if data.len() < 3 {
        Err(ParseError::Header)
    } else if !spec_image_type_valid(data[2]) {
        Err(ParseError::UnsupportedImageType(data[2]))
    } else if data.len() < 17 {
        Err(ParseError::Header)
    } else if spec_bpp_new(data[16]) is None {
        Err(ParseError::Header)
    } else if data.len() < 18 {
        Err(ParseError::Header)
    } else {
        Ok(spec_header_fields(data))
    }
}

/// Reads two bytes little-endian at offset `i`.
fn read_le16(s: &[u8], i: usize) -> (r: u16)
    requires
        i + 2 <= s@.len(),
    ensures
        r == spec_le16(s@[i as int], s@[i as int + 1]),
{
    let b0 = s[i];
    let b1 = s[i + 1];
    b0 as u16 + (b1 as u16) * 256
}

impl TgaHeader {
    /// Parses the fixed 18-byte TGA header from the start of `input`.
    ///
    /// The result is exactly [`spec_parse_header`] of the buffer: the field
    /// values on success, and the first classified failure in storage order
    /// otherwise.
    pub fn parse(input: &[u8]) -> (r: Result<TgaHeader, ParseError>)
        ensures
            r == spec_parse_header(input@),
    {
        if input.len() < 2 {
            return Err(ParseError::Header);
        }
        let color_map_byte = input[1];
        if !(color_map_byte == 0 || color_map_byte == 1) {
            return Err(ParseError::ColorMap);
        }
        if input.len() < 3 {
            return Err(ParseError::Header);
        }
        let (data_type, compression) = match parse_image_type(input[2]) {
            Ok(pair) => pair,
            Err(e) => {
                return Err(e);
            },
        };
        if input.len() < 17 {
            return Err(ParseError::Header);
        }
        let pixel_depth = match Bpp::new(input[16]) {
            Some(depth) => depth,
            None => {
                return Err(ParseError::Header);
            },
        };
        if input.len() < 18 {
            return Err(ParseError::Header);
        }
        let descriptor = input[17];

        Ok(TgaHeader {
            id_len: input[0],
            has_color_map: color_map_byte == 1,
            data_type,
            compression,
            color_map_start: read_le16(input, 3),
            color_map_len: read_le16(input, 5),
            color_map_depth: Bpp::new(input[7]),
            x_origin: read_le16(input, 8),
            y_origin: read_le16(input, 10),
            width: read_le16(input, 12),
            height: read_le16(input, 14),
            pixel_depth,
            image_origin: ImageOrigin::from_image_descriptor(descriptor),
            alpha_channel_depth: descriptor & 0xF,
        })
    }
}

} // verus!
