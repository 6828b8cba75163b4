//! Errors reported while constructing a decoder from a byte buffer.

use crate::header::{Bpp, DataType};
use vstd::prelude::*;

verus! {

/// A construction-time parse failure.
///
/// All variants are terminal: decoding cannot proceed without a valid
/// header, so construction fails fast with one classified error and no
/// partial result. Once construction succeeds, pixel iteration never fails.
#[derive(Copy, Clone, Debug, PartialEq, Eq)]
pub enum ParseError {
    /// A fixed header or color map field was truncated or malformed.
    Header,
    /// The color map presence byte was neither 0 nor 1, or the color map
    /// entry bit depth was missing although the presence flag was set.
    ColorMap,
    /// The image type byte uses a bit outside {0, 1, 3} or holds the
    /// reserved value 8. The offending byte is carried along.
    UnsupportedImageType(u8),
    /// The combination of data type and color bit depth has no supported
    /// color representation.
    UnsupportedTgaType(DataType, Bpp),
}

} // verus!
