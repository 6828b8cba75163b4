//! Parsing of the optional 26-byte TGA 2.0 footer.

use crate::bytes::{lemma_le_bytes_bound, lemma_pow256_values, read_le_bytes, spec_le_bytes};
use vstd::prelude::*;
use vstd::slice::slice_subrange;

verus! {

/// The byte length of the footer.
pub const FOOTER_LENGTH: usize = 26;

/// The byte at offset `i` of the 18-byte footer signature: the ASCII text
/// "TRUEVISION-XFILE." followed by one NUL byte.
pub open spec fn spec_signature_byte(i: int) -> u8 {
    if i == 0 {
        0x54
    } else if i == 1 {
        0x52
    } else if i == 2 {
        0x55
    } else if i == 3 {
        0x45
    } else if i == 4 {
        0x56
    } else if i == 5 {
        0x49
    } else if i == 6 {
        0x53
    } else if i == 7 {
        0x49
    } else if i == 8 {
        0x4F
    } else if i == 9 {
        0x4E
    } else if i == 10 {
        0x2D
    } else if i == 11 {
        0x58
    } else if i == 12 {
        0x46
    } else if i == 13 {
        0x49
    } else if i == 14 {
        0x4C
    } else if i == 15 {
        0x45
    } else if i == 16 {
        0x2E
    } else {
        0x00
    }
}

/// Returns byte `i` of the footer signature.
fn signature_byte(i: usize) -> (b: u8)
    requires
        i < 18,
    ensures
        b == spec_signature_byte(i as int),
{
    match i {
        0 => 0x54,
        1 => 0x52,
        2 => 0x55,
        3 => 0x45,
        4 => 0x56,
        5 => 0x49,
        6 => 0x53,
        7 => 0x49,
        8 => 0x4F,
        9 => 0x4E,
        10 => 0x2D,
        11 => 0x58,
        12 => 0x46,
        13 => 0x49,
        14 => 0x4C,
        15 => 0x45,
        16 => 0x2E,
        _ => 0x00,
    }
}

/// Whether the buffer is long enough for a footer and ends in the fixed
/// footer signature.
pub open spec fn spec_has_signature(data: Seq<u8>) -> bool {
    &&& data.len() >= 26
    &&& forall|i: int|
        0 <= i < 18 ==> data[data.len() - 18 + i] == spec_signature_byte(i)
}

/// TGA footer: the two area offsets carried by the trailing 26 bytes.
#[derive(Copy, Clone, Eq, PartialEq, Structural, Debug)]
pub struct TgaFooter {
    /// Byte offset of the extension area, relative to the buffer start;
    /// 0 means absent.
    pub extension_area_offset: u32,
    /// Byte offset of the developer directory, relative to the buffer
    /// start; 0 means absent.
    pub developer_directory_offset: u32,
}

/// The footer read from the last 26 bytes of the buffer, when the trailing
/// signature matches. Absence of a footer is a normal condition, not an
/// error.
pub open spec fn spec_parse_footer(data: Seq<u8>) -> Option<TgaFooter> {
    if spec_has_signature(data) {
        Some(
            TgaFooter {
                extension_area_offset: spec_le_bytes(data, data.len() - 26, 4) as u32,
                developer_directory_offset: spec_le_bytes(data, data.len() - 22, 4) as u32,
            },
        )
    } else {
        None
    }
}

/// A footer offset is usable when it points strictly inside the buffer;
/// 0 conventionally means the area is absent.
pub open spec fn spec_offset_valid(offset: u32, len: int) -> bool {
    0 < offset < len
}

/// The larger of two integers.
pub open spec fn spec_max2(a: int, b: int) -> int {
    if a >= b {
        a
    } else {
        b
    }
}

/// The number of trailing buffer bytes belonging to the footer, including
/// the extension area and the developer directory when their offsets are
/// usable.
pub open spec fn spec_footer_region(f: TgaFooter, len: int) -> int {
    spec_max2(
        26,
        spec_max2(
            if spec_offset_valid(f.extension_area_offset, len) {
                len - f.extension_area_offset
            } else {
                0
            },
            if spec_offset_valid(f.developer_directory_offset, len) {
                len - f.developer_directory_offset
            } else {
                0
            },
        ),
    )
}

/// The number of trailing buffer bytes that do not belong to the pixel
/// data: 0 when the buffer has no footer.
pub open spec fn spec_footer_length(data: Seq<u8>) -> int {
    match spec_parse_footer(data) {
        None => 0,
        Some(f) => spec_footer_region(f, data.len() as int),
    }
}

/// The developer directory byte range: present exactly when the buffer has
/// a footer whose developer directory offset points inside the buffer.
pub open spec fn spec_developer_directory(data: Seq<u8>) -> Option<Seq<u8>> {
    match spec_parse_footer(data) {
        None => None,
        Some(f) => if spec_offset_valid(f.developer_directory_offset, data.len() as int) {
            Some(data.subrange(f.developer_directory_offset as int, data.len() as int))
        } else {
            None
        },
    }
}

/// The extension area byte range: present exactly when the buffer has a
/// footer whose extension area offset points inside the buffer.
pub open spec fn spec_extension_area(data: Seq<u8>) -> Option<Seq<u8>> {
    match spec_parse_footer(data) {
        None => None,
        Some(f) => if spec_offset_valid(f.extension_area_offset, data.len() as int) {
            Some(data.subrange(f.extension_area_offset as int, data.len() as int))
        } else {
            None
        },
    }
}

/// A buffer shorter than 26 bytes, or one whose trailing signature does not
/// match, has no footer: both optional areas are absent and no byte of the
/// buffer is claimed by a footer region. No error is involved.
pub proof fn lemma_footer_absent(data: Seq<u8>)
    requires
        !spec_has_signature(data),
    ensures
        spec_parse_footer(data) is None,
        spec_developer_directory(data) is None,
        spec_extension_area(data) is None,
        spec_footer_length(data) == 0,
{
}

impl TgaFooter {
    /// Reads the footer from the last 26 bytes of the buffer. `None` is
    /// returned when the buffer is too short or the signature mismatches.
    pub fn parse(data: &[u8]) -> (r: Option<TgaFooter>)
        ensures
            r == spec_parse_footer(data@),
    {
        if data.len() < FOOTER_LENGTH {
            return None;
        }
        let len = data.len();
        let sig_start = len - 18;
        let mut i: usize = 0;
        while i < 18
            invariant
                len == data@.len(),
                len >= 26,
                sig_start == len - 18,
                i <= 18,
                forall|j: int| 0 <= j < i ==> data@[sig_start + j] == spec_signature_byte(j),
            decreases 18 - i,
        {
            if data[sig_start + i] != signature_byte(i) {
                proof {
                    assert(!spec_has_signature(data@));
                }
                return None;
            }
            i = i + 1;
        }
        let ext = read_le_bytes(data, data.len() - 26, 4);
        let dev = read_le_bytes(data, data.len() - 22, 4);
        proof {
            assert(spec_has_signature(data@));
            lemma_le_bytes_bound(data@, data@.len() - 26, 4);
            lemma_le_bytes_bound(data@, data@.len() - 22, 4);
            lemma_pow256_values();
        }
        Some(TgaFooter { extension_area_offset: ext, developer_directory_offset: dev })
    }

    /// Returns the length in bytes of the footer region at the end of the
    /// buffer: the 26 footer bytes, extended backwards over the extension
    /// area and the developer directory when their offsets are usable.
    pub fn length(&self, data: &[u8]) -> (r: usize)
        ensures
            r == spec_footer_region(*self, data@.len() as int),
    {
        let len = data.len();
        let mut r: usize = FOOTER_LENGTH;
        if self.extension_area_offset > 0 && (self.extension_area_offset as usize) < len {
            let area = len - self.extension_area_offset as usize;
            if area > r {
                r = area;
            }
        }
        if self.developer_directory_offset > 0 && (self.developer_directory_offset as usize) < len {
            let area = len - self.developer_directory_offset as usize;
            if area > r {
                r = area;
            }
        }
        r
    }

    /// Returns the developer directory byte range, when its offset points
    /// inside the buffer.
    pub fn developer_directory<'a>(&self, data: &'a [u8]) -> (r: Option<&'a [u8]>)
        ensures
            r is Some <==> spec_offset_valid(self.developer_directory_offset, data@.len() as int),
            r matches Some(s) ==> s@ == data@.subrange(
                self.developer_directory_offset as int,
                data@.len() as int,
            ),
    {
        let off = self.developer_directory_offset;
        if off > 0 && (off as usize) < data.len() {
            Some(slice_subrange(data, off as usize, data.len()))
        } else {
            None
        }
    }

    /// Returns the extension area byte range, when its offset points inside
    /// the buffer.
    pub fn extension_area<'a>(&self, data: &'a [u8]) -> (r: Option<&'a [u8]>)
        ensures
            r is Some <==> spec_offset_valid(self.extension_area_offset, data@.len() as int),
            r matches Some(s) ==> s@ == data@.subrange(
                self.extension_area_offset as int,
                data@.len() as int,
            ),
    {
        let off = self.extension_area_offset;
        if off > 0 && (off as usize) < data.len() {
            Some(slice_subrange(data, off as usize, data.len()))
        } else {
            None
        }
    }
}

} // verus!
