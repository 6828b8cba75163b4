//! The RLE/raw color value decoder and the position-aware pixel iterator.

use crate::bytes::{lemma_le_bytes_fits_u32, read_le_bytes, spec_le_bytes};
use crate::geometry::Point;
use crate::header::{Bpp, Compression, ImageOrigin};
use crate::raw_tga::RawTga;
use vstd::prelude::*;

verus! {

/// The state of a color value decoder: the cursor into the pixel data and
/// the counters of the RLE packet being drained.
pub ghost struct DecState {
    /// Byte offset of the next unread byte of the pixel data.
    pub pos: int,
    /// How many more copies of `pixel` the current repeat packet emits.
    pub repeat: int,
    /// How many more literal values the current raw packet emits.
    pub take_raw: int,
    /// The pixel value of the current repeat packet.
    pub pixel: u32,
}

/// Whether `n` more bytes can be read at `pos`.
pub open spec fn spec_can_read(data: Seq<u8>, pos: int, n: int) -> bool {
    pos + n <= data.len()
}

/// The color value read at `pos`: `n` bytes little-endian, or 0 when fewer
/// than `n` bytes remain. A truncated pixel data region degrades to
/// zero-valued pixels instead of failing.
pub open spec fn spec_color_value(data: Seq<u8>, pos: int, n: int) -> u32 {
    if spec_can_read(data, pos, n) {
        spec_le_bytes(data, pos, n) as u32
    } else {
        0
    }
}

/// The cursor after reading one color value at `pos`; it does not move
/// when the read could not complete.
pub open spec fn spec_color_pos(data: Seq<u8>, pos: int, n: int) -> int {
    if spec_can_read(data, pos, n) {
        pos + n
    } else {
        pos
    }
}

/// What one decoding step emits, for values stored `n` bytes wide.
///
/// Uncompressed data always emits a value (zero once the input is
/// exhausted). RLE data first drains the counters of the current packet;
/// at a packet boundary one control byte selects the next packet, whose
/// first value is emitted at once; exhaustion at a packet boundary emits
/// nothing, terminating the stream.
pub open spec fn spec_dec_emit(
    data: Seq<u8>,
    n: int,
    compression: Compression,
    s: DecState,
) -> Option<u32> {
    match compression {
        Compression::Uncompressed => Some(spec_color_value(data, s.pos, n)),
        Compression::Rle => {
            if s.repeat > 0 {
                Some(s.pixel)
            } else if s.take_raw > 0 {
                Some(spec_color_value(data, s.pos, n))
            } else if s.pos < data.len() {
                Some(spec_color_value(data, s.pos + 1, n))
            } else {
                None
            }
        },
    }
}

/// The decoder state after one step. A control byte `c` starts a repeat
/// packet when bit 7 is set, else a raw packet; bits 0 to 6 hold the pixel
/// count less one, and the packet's first value is consumed immediately,
/// so the counter is set to `c & 0x7F`.
pub open spec fn spec_dec_step(
    data: Seq<u8>,
    n: int,
    compression: Compression,
    s: DecState,
) -> DecState {
    match compression {
        Compression::Uncompressed => DecState { pos: spec_color_pos(data, s.pos, n), ..s },
        Compression::Rle => {
            if s.repeat > 0 {
                DecState { repeat: s.repeat - 1, ..s }
            } else if s.take_raw > 0 {
                DecState {
                    pos: spec_color_pos(data, s.pos, n),
                    take_raw: s.take_raw - 1,
                    ..s
                }
            } else if s.pos < data.len() {
                let control = data[s.pos];
                if control & 0x80 != 0 {
                    DecState {
                        pos: spec_color_pos(data, s.pos + 1, n),
                        repeat: (control & 0x7F) as int,
                        take_raw: 0,
                        pixel: spec_color_value(data, s.pos + 1, n),
                    }
                } else {
                    DecState {
                        pos: spec_color_pos(data, s.pos + 1, n),
                        repeat: 0,
                        take_raw: (control & 0x7F) as int,
                        pixel: s.pixel,
                    }
                }
            } else {
                s
            }
        },
    }
}

/// The first `k` values the decoder emits from state `s`; shorter than `k`
/// only where the stream terminates.
pub open spec fn spec_decoded(
    data: Seq<u8>,
    n: int,
    compression: Compression,
    s: DecState,
    k: nat,
) -> Seq<u32>
    decreases k,
{
    if k == 0 {
        Seq::empty()
    } else {
        match spec_dec_emit(data, n, compression, s) {
            None => Seq::empty(),
            Some(v) => seq![v] + spec_decoded(
                data,
                n,
                compression,
                spec_dec_step(data, n, compression, s),
                (k - 1) as nat,
            ),
        }
    }
}

/// The decoder state after emitting `k` values from state `s`.
pub open spec fn spec_dec_after(
    data: Seq<u8>,
    n: int,
    compression: Compression,
    s: DecState,
    k: nat,
) -> DecState
    decreases k,
{
    if k == 0 {
        s
    } else {
        match spec_dec_emit(data, n, compression, s) {
            None => s,
            Some(_) => spec_dec_after(
                data,
                n,
                compression,
                spec_dec_step(data, n, compression, s),
                (k - 1) as nat,
            ),
        }
    }
}

/// An iterator over the raw color values stored in the pixel data, without
/// positions: the flat stream of palette indices or direct colors.
#[derive(Copy, Clone, Debug)]
pub struct RawColors<'a> {
    /// The pixel data byte range.
    pub data: &'a [u8],
    /// Byte offset of the next unread byte.
    pub pos: usize,
    /// The pixel value of the current repeat packet.
    pub rle_pixel: u32,
    /// How many more copies of `rle_pixel` the current repeat packet
    /// emits.
    pub rle_repeat: u8,
    /// How many more literal values the current raw packet emits.
    pub rle_take_raw: u8,
    /// Raw pixel storage width.
    pub bpp: Bpp,
    /// Compression mode.
    pub compression: Compression,
}

impl<'a> RawColors<'a> {
    /// The decoder state held by this iterator.
    pub open spec fn state(self) -> DecState {
        DecState {
            pos: self.pos as int,
            repeat: self.rle_repeat as int,
            take_raw: self.rle_take_raw as int,
            pixel: self.rle_pixel,
        }
    }

    /// The byte width of one stored value.
    pub open spec fn byte_width(self) -> int {
        self.bpp.spec_bytes() as int
    }

    /// The cursor never leaves the pixel data range.
    pub open spec fn wf(self) -> bool {
        self.pos <= self.data@.len()
    }

    /// Creates a decoder over the pixel data of `raw_tga`, at the image's
    /// stored bit depth and compression mode.
    pub fn new(raw_tga: &RawTga<'a>) -> (r: Self)
        ensures
            r.wf(),
            r.data@ == raw_tga.pixel_data@,
            r.bpp == raw_tga.header.pixel_depth,
            r.compression == raw_tga.header.compression,
            r.state() == (DecState { pos: 0, repeat: 0, take_raw: 0, pixel: 0 }),
    {
        RawColors {
            data: raw_tga.image_data(),
            pos: 0,
            rle_pixel: 0,
            rle_repeat: 0,
            rle_take_raw: 0,
            bpp: raw_tga.image_data_bpp(),
            compression: raw_tga.compression(),
        }
    }

    /// Reads one color value at the cursor: the next `byte_width` bytes
    /// little-endian, or 0 without moving when fewer bytes remain.
    fn read_color(&mut self) -> (c: u32)
        requires
            old(self).wf(),
        ensures
            final(self).wf(),
            final(self).data@ == old(self).data@,
            final(self).bpp == old(self).bpp,
            final(self).compression == old(self).compression,
            final(self).rle_pixel == old(self).rle_pixel,
            final(self).rle_repeat == old(self).rle_repeat,
            final(self).rle_take_raw == old(self).rle_take_raw,
            c == spec_color_value(old(self).data@, old(self).pos as int, old(self).byte_width()),
            final(self).pos == spec_color_pos(old(self).data@, old(self).pos as int, old(self).byte_width()),
    {
        let n = self.bpp.bytes() as usize;
        let len = self.data.len();
        if n <= len - self.pos {
            let v = read_le_bytes(self.data, self.pos, n);
            proof {
                lemma_le_bytes_fits_u32(self.data@, self.pos as int, n as int);
            }
            self.pos = self.pos + n;
            v
        } else {
            0
        }
    }

    /// Decodes the next raw color value.
    ///
    /// In uncompressed mode a value is always produced; exhausted input
    /// yields zero-valued pixels, because the caller drives the pixel
    /// count from the image dimensions. In RLE mode the current packet is
    /// drained first, then one control byte introduces the next packet;
    /// `None` is produced exactly when the input ends at a packet
    /// boundary. A packet whose payload is truncated degrades to
    /// zero-valued pixels like uncompressed underrun does.
    pub fn next(&mut self) -> (r: Option<u32>)
        requires
            old(self).wf(),
        ensures
            final(self).wf(),
            final(self).data@ == old(self).data@,
            final(self).bpp == old(self).bpp,
            final(self).compression == old(self).compression,
            r == spec_dec_emit(
                old(self).data@,
                old(self).byte_width(),
                old(self).compression,
                old(self).state(),
            ),
            final(self).state() == spec_dec_step(
                old(self).data@,
                old(self).byte_width(),
                old(self).compression,
                old(self).state(),
            ),
    {
        match self.compression {
            Compression::Uncompressed => Some(self.read_color()),
            Compression::Rle => {
                if self.rle_repeat > 0 {
                    self.rle_repeat = self.rle_repeat - 1;
                    Some(self.rle_pixel)
                } else if self.rle_take_raw > 0 {
                    self.rle_take_raw = self.rle_take_raw - 1;
                    Some(self.read_color())
                } else if self.pos < self.data.len() {
                    let control = self.data[self.pos];
                    self.pos = self.pos + 1;
                    let count = control & 0x7F;
                    if control & 0x80 != 0 {
                        let pixel = self.read_color();
                        self.rle_pixel = pixel;
                        self.rle_repeat = count;
                        Some(pixel)
                    } else {
                        self.rle_take_raw = count;
                        Some(self.read_color())
                    }
                } else {
                    None
                }
            },
        }
    }
}

/// A repeat counter of `k` emits `k` copies of the cached pixel value
/// without moving the cursor, and leaves both counters clear.
pub proof fn lemma_dec_drain_repeat(data: Seq<u8>, n: int, s: DecState, k: nat)
    requires
        s.repeat == k,
        s.take_raw == 0,
    ensures
        spec_decoded(data, n, Compression::Rle, s, k) == Seq::new(k, |i: int| s.pixel),
        spec_dec_after(data, n, Compression::Rle, s, k) == (DecState { repeat: 0, ..s }),
    decreases k,
{
    if k == 0 {
        assert(spec_decoded(data, n, Compression::Rle, s, k) =~= Seq::new(k, |i: int| s.pixel));
    } else {
        let s1 = spec_dec_step(data, n, Compression::Rle, s);
        lemma_dec_drain_repeat(data, n, s1, (k - 1) as nat);
        assert(spec_decoded(data, n, Compression::Rle, s, k) =~= Seq::new(k, |i: int| s.pixel));
    }
}

/// A raw counter of `k`, with `k` whole values left in the input, emits
/// the next `k` stored values in order and advances the cursor over them.
pub proof fn lemma_dec_drain_raw(data: Seq<u8>, n: int, s: DecState, k: nat)
    requires
        s.repeat == 0,
        s.take_raw == k,
        1 <= n,
        0 <= s.pos,
        s.pos + k * n <= data.len(),
    ensures
        spec_decoded(data, n, Compression::Rle, s, k) == Seq::new(
            k,
            |i: int| spec_color_value(data, s.pos + i * n, n),
        ),
        spec_dec_after(data, n, Compression::Rle, s, k) == (DecState {
            pos: s.pos + k * n,
            repeat: 0,
            take_raw: 0,
            pixel: s.pixel,
        }),
    decreases k,
{
    if k == 0 {
        assert(spec_decoded(data, n, Compression::Rle, s, k) =~= Seq::new(
            k,
            |i: int| spec_color_value(data, s.pos + i * n, n),
        ));
    } else {
        assert(1 * n <= k * n) by (nonlinear_arith)
            requires
                1 <= k,
                1 <= n,
        ;
        assert(spec_can_read(data, s.pos, n));
        let s1 = spec_dec_step(data, n, Compression::Rle, s);
        assert(s1 == (DecState { pos: s.pos + n, repeat: 0, take_raw: k - 1, pixel: s.pixel }));
        assert((k - 1) * n + n == k * n) by (nonlinear_arith);
        lemma_dec_drain_raw(data, n, s1, (k - 1) as nat);
        let whole = Seq::new(k, |i: int| spec_color_value(data, s.pos + i * n, n));
        let rest = Seq::new((k - 1) as nat, |i: int| spec_color_value(data, s.pos + n + i * n, n));
        assert forall|i: int| 0 <= i < k - 1 implies rest[i] == whole[i + 1] by {
            assert(i * n + n == (i + 1) * n) by (nonlinear_arith);
        }
        assert(0 * n == 0);
        assert(spec_decoded(data, n, Compression::Rle, s, k) =~= whole);
    }
}

/// RLE round trip for a repeat packet. A packet encoding a run of `count`
/// identical values (a control byte `0x80 | (count - 1)` followed by one
/// stored value) decodes to exactly `count` copies of that value; the
/// decoder then stands at the first byte after the packet with both
/// counters clear, so the next packet continues with no off-by-one drift.
pub proof fn lemma_rle_repeat_packet(data: Seq<u8>, n: int, s: DecState, count: nat)
    requires
        1 <= count <= 128,
        1 <= n <= 4,
        s.repeat == 0,
        s.take_raw == 0,
        0 <= s.pos,
        s.pos + 1 + n <= data.len(),
        data[s.pos] == 0x80u8 | ((count - 1) as u8),
    ensures
        spec_decoded(data, n, Compression::Rle, s, count) == Seq::new(
            count,
            |i: int| spec_color_value(data, s.pos + 1, n),
        ),
        spec_dec_after(data, n, Compression::Rle, s, count) == (DecState {
            pos: s.pos + 1 + n,
            repeat: 0,
            take_raw: 0,
            pixel: spec_color_value(data, s.pos + 1, n),
        }),
{
    let c = data[s.pos];
    let k8 = (count - 1) as u8;
    assert(c & 0x80 != 0 && c & 0x7F == k8) by (bit_vector)
        requires
            c == 0x80u8 | k8,
            k8 <= 127,
    ;
    let v = spec_color_value(data, s.pos + 1, n);
    let s1 = spec_dec_step(data, n, Compression::Rle, s);
    assert(s1 == (DecState { pos: s.pos + 1 + n, repeat: count - 1, take_raw: 0, pixel: v }));
    lemma_dec_drain_repeat(data, n, s1, (count - 1) as nat);
    assert(spec_decoded(data, n, Compression::Rle, s, count) =~= Seq::new(
        count,
        |i: int| spec_color_value(data, s.pos + 1, n),
    ));
}

/// RLE round trip for a raw packet. A packet encoding `count` arbitrary
/// values (a control byte `count - 1` followed by the `count` stored
/// values) decodes to exactly those values in order; the decoder then
/// stands at the first byte after the packet with both counters clear.
pub proof fn lemma_rle_raw_packet(data: Seq<u8>, n: int, s: DecState, count: nat)
    requires
        1 <= count <= 128,
        1 <= n <= 4,
        s.repeat == 0,
        s.take_raw == 0,
        0 <= s.pos,
        s.pos + 1 + count * n <= data.len(),
        data[s.pos] == (count - 1) as u8,
    ensures
        spec_decoded(data, n, Compression::Rle, s, count) == Seq::new(
            count,
            |i: int| spec_color_value(data, s.pos + 1 + i * n, n),
        ),
        spec_dec_after(data, n, Compression::Rle, s, count) == (DecState {
            pos: s.pos + 1 + count * n,
            repeat: 0,
            take_raw: 0,
            pixel: s.pixel,
        }),
{
    let c = data[s.pos];
    let k8 = (count - 1) as u8;
    assert(c & 0x80 == 0 && c & 0x7F == k8) by (bit_vector)
        requires
            c == k8,
            k8 <= 127,
    ;
    assert(1 * n <= count * n) by (nonlinear_arith)
        requires
            1 <= count,
            1 <= n,
    ;
    assert(spec_can_read(data, s.pos + 1, n));
    let s1 = spec_dec_step(data, n, Compression::Rle, s);
    assert(s1 == (DecState {
        pos: s.pos + 1 + n,
        repeat: 0,
        take_raw: count - 1,
        pixel: s.pixel,
    }));
    assert((count - 1) * n + n == count * n) by (nonlinear_arith);
    lemma_dec_drain_raw(data, n, s1, (count - 1) as nat);
    let whole = Seq::new(count, |i: int| spec_color_value(data, s.pos + 1 + i * n, n));
    let rest = Seq::new(
        (count - 1) as nat,
        |i: int| spec_color_value(data, s.pos + 1 + n + i * n, n),
    );
    assert forall|i: int| 0 <= i < count - 1 implies rest[i] == whole[i + 1] by {
        assert(i * n + n == (i + 1) * n) by (nonlinear_arith);
    }
    assert(0 * n == 0);
    assert(spec_decoded(data, n, Compression::Rle, s, count) =~= whole);
}

/// The number of pixel positions the raw pixel iterator walks through: one
/// per pixel of the image. An image of width zero still walks one position
/// per row, because the column only wraps after it has been handed out.
pub open spec fn spec_pixel_limit(w: int, h: int) -> int {
    if w == 0 {
        h
    } else {
        w * h
    }
}

/// The column of the `k`-th pixel in storage order.
pub open spec fn spec_col(w: int, k: int) -> int {
    if w == 0 {
        0
    } else {
        k % w
    }
}

/// The storage row of the `k`-th pixel in storage order.
pub open spec fn spec_row(w: int, k: int) -> int {
    if w == 0 {
        k
    } else {
        k / w
    }
}

/// The output row of a storage row: storage rows run away from the origin
/// corner, while the output coordinate space always has its origin at the
/// top left.
pub open spec fn spec_y_of_row(origin: ImageOrigin, h: int, row: int) -> int {
    if origin.spec_is_bottom() {
        h - 1 - row
    } else {
        row
    }
}

/// The output position of the `k`-th pixel in storage order. Pixels run
/// left to right within a row; only the vertical component is resolved
/// against the origin corner here, so the reported position of a
/// right-origin image still counts columns from the left.
pub open spec fn spec_position_at(origin: ImageOrigin, w: int, h: int, k: int) -> Point {
    Point {
        x: spec_col(w, k) as i32,
        y: spec_y_of_row(origin, h, spec_row(w, k)) as i32,
    }
}

/// Coordinate symmetry: for a top-left-origin image the `k`-th emitted
/// position is `(k mod width, k div width)`; for a bottom-left-origin
/// image it is `(k mod width, height - 1 - k div width)`.
pub proof fn lemma_position_coordinates(width: int, height: int, k: int)
    requires
        1 <= width,
        0 <= k,
    ensures
        spec_position_at(ImageOrigin::TopLeft, width, height, k) == (Point {
            x: (k % width) as i32,
            y: (k / width) as i32,
        }),
        spec_position_at(ImageOrigin::BottomLeft, width, height, k) == (Point {
            x: (k % width) as i32,
            y: (height - 1 - k / width) as i32,
        }),
{
}

/// How column and row move from pixel `k` to pixel `k + 1` of an image of
/// positive width: the column advances until it wraps at the width, which
/// carries into the row; and the last pixel of the image sits in the last
/// column of the last row.
proof fn lemma_colrow_step(w: int, h: int, k: int)
    requires
        1 <= w,
        0 <= k,
        k < w * h,
    ensures
        0 <= spec_col(w, k) < w,
        0 <= spec_row(w, k) < h,
        spec_col(w, k) + 1 < w ==> spec_col(w, k + 1) == spec_col(w, k) + 1 && spec_row(w, k + 1)
            == spec_row(w, k),
        spec_col(w, k) + 1 == w ==> spec_col(w, k + 1) == 0 && spec_row(w, k + 1) == spec_row(
            w,
            k,
        ) + 1,
        k + 1 == w * h ==> spec_col(w, k) + 1 == w && spec_row(w, k) == h - 1,
{
    vstd::arithmetic::div_mod::lemma_fundamental_div_mod(k, w);
    vstd::arithmetic::div_mod::lemma_mod_division_less_than_divisor(k, w);
    vstd::arithmetic::div_mod::lemma_div_pos_is_pos(k, w);
    vstd::arithmetic::div_mod::lemma_multiply_divide_lt(k, w, h);
    let col = k % w;
    let row = k / w;
    assert(w * row == row * w) by (nonlinear_arith);
    if col + 1 < w {
        assert(k + 1 == row * w + (col + 1));
        vstd::arithmetic::div_mod::lemma_fundamental_div_mod_converse_div(k + 1, w, row, col + 1);
        vstd::arithmetic::div_mod::lemma_fundamental_div_mod_converse_mod(k + 1, w, row, col + 1);
    } else {
        assert((row + 1) * w == row * w + w) by (nonlinear_arith);
        assert(k + 1 == (row + 1) * w + 0);
        vstd::arithmetic::div_mod::lemma_fundamental_div_mod_converse_div(k + 1, w, row + 1, 0);
        vstd::arithmetic::div_mod::lemma_fundamental_div_mod_converse_mod(k + 1, w, row + 1, 0);
    }
    if k + 1 == w * h {
        assert(h >= 1) by (nonlinear_arith)
            requires
                1 <= w,
                0 <= k,
                k + 1 == w * h,
        ;
        assert((h - 1) * w + (w - 1) == w * h - 1) by (nonlinear_arith);
        vstd::arithmetic::div_mod::lemma_fundamental_div_mod_converse_div(k, w, h - 1, w - 1);
        vstd::arithmetic::div_mod::lemma_fundamental_div_mod_converse_mod(k, w, h - 1, w - 1);
    }
}

/// Pixel with raw pixel color.
///
/// Values of this type are produced by [`RawPixels`].
#[derive(Copy, Clone, Eq, PartialEq, Structural, Debug, Default)]
pub struct RawPixel {
    /// The position relative to the top left corner of the image.
    pub position: Point,
    /// The raw pixel color.
    pub color: u32,
}

impl RawPixel {
    /// Creates a new raw pixel.
    pub fn new(position: Point, color: u32) -> (r: Self)
        ensures
            r == (RawPixel { position, color }),
    {
        RawPixel { position, color }
    }
}

/// An iterator over the raw pixels of an image: the decoded color value
/// stream of [`RawColors`] joined with the position walk that maps storage
/// order onto top-left-relative coordinates.
#[derive(Copy, Clone)]
pub struct RawPixels<'a> {
    /// The color value decoder.
    pub colors: RawColors<'a>,
    /// Image width in pixels.
    pub width: u16,
    /// Image height in pixels.
    pub height: u16,
    /// Image origin.
    pub origin: ImageOrigin,
    /// The position of the next pixel.
    pub position: Point,
    /// How many pixels were emitted so far.
    pub emitted: Ghost<nat>,
}

impl<'a> RawPixels<'a> {
    /// The position walk tracks the emission count: while pixels remain
    /// the position is the one owed for the next pixel, and afterwards the
    /// vertical coordinate has left the image.
    pub open spec fn wf(self) -> bool {
        let w = self.width as int;
        let h = self.height as int;
        let limit = spec_pixel_limit(w, h);
        &&& self.colors.wf()
        &&& self.emitted@ <= limit
        &&& if self.emitted@ < limit {
            self.position == spec_position_at(self.origin, w, h, self.emitted@ as int)
        } else {
            self.position.y < 0 || self.position.y >= h
        }
    }

    /// Creates an iterator over the raw pixels of `raw_tga`.
    pub fn new(raw_tga: &RawTga<'a>) -> (r: Self)
        ensures
            r.wf(),
            r.colors.data@ == raw_tga.pixel_data@,
            r.colors.bpp == raw_tga.header.pixel_depth,
            r.colors.compression == raw_tga.header.compression,
            r.colors.state() == (DecState { pos: 0, repeat: 0, take_raw: 0, pixel: 0 }),
            r.width == raw_tga.header.width,
            r.height == raw_tga.header.height,
            r.origin == raw_tga.header.image_origin,
            r.emitted@ == 0,
    {
        let colors = RawColors::new(raw_tga);
        let height = raw_tga.header.height;
        let origin = raw_tga.image_origin();
        proof {
            let w = raw_tga.header.width as int;
            let h = raw_tga.header.height as int;
            if w > 0 {
                assert(0 == 0 * w + 0) by (nonlinear_arith);
                vstd::arithmetic::div_mod::lemma_fundamental_div_mod_converse_div(0, w, 0, 0);
                vstd::arithmetic::div_mod::lemma_fundamental_div_mod_converse_mod(0, w, 0, 0);
                assert(w * h >= 0) by (nonlinear_arith)
                    requires
                        w >= 0,
                        h >= 0,
                ;
                assert(w * h == 0 ==> h == 0) by (nonlinear_arith)
                    requires
                        w >= 1,
                ;
                assert(h == 0 ==> w * h == 0) by (nonlinear_arith);
            }
        }
        let start_y: i32 = if origin.is_bottom() && height > 0 {
            (height - 1) as i32
        } else {
            0
        };
        RawPixels {
            colors,
            width: raw_tga.header.width,
            height,
            origin,
            position: Point { x: 0, y: start_y },
            emitted: Ghost(0),
        }
    }

    /// Hands out the position owed for the next pixel and advances the
    /// walk: the column moves right and wraps at the width, carrying the
    /// row one step away from the origin corner. `None` once every pixel
    /// position has been handed out.
    fn next_position(&mut self) -> (r: Option<Point>)
        requires
            old(self).wf(),
        ensures
            final(self).wf(),
            final(self).colors == old(self).colors,
            final(self).width == old(self).width,
            final(self).height == old(self).height,
            final(self).origin == old(self).origin,
            ({
                let w = old(self).width as int;
                let h = old(self).height as int;
                let k = old(self).emitted@;
                if k < spec_pixel_limit(w, h) {
                    &&& r == Some(spec_position_at(old(self).origin, w, h, k as int))
                    &&& final(self).emitted@ == k + 1
                } else {
                    &&& r is None
                    &&& *final(self) == *old(self)
                }
            }),
    {
        let w = self.width;
        let h = self.height;
        if self.position.y < 0 || self.position.y >= h as i32 {
            proof {
                if old(self).emitted@ < spec_pixel_limit(w as int, h as int) {
                    if w > 0 {
                        lemma_colrow_step(w as int, h as int, old(self).emitted@ as int);
                    }
                }
            }
            return None;
        }
        proof {
            assert(old(self).emitted@ < spec_pixel_limit(w as int, h as int)) by {
                if old(self).emitted@ >= spec_pixel_limit(w as int, h as int) {
                    assert(old(self).position.y < 0 || old(self).position.y >= h as int);
                }
            }
            if w > 0 {
                lemma_colrow_step(w as int, h as int, old(self).emitted@ as int);
            }
        }
        let position = self.position;
        self.position.x = self.position.x + 1;
        if self.position.x >= w as i32 {
            self.position.x = 0;
            if self.origin.is_bottom() {
                self.position.y = self.position.y - 1;
            } else {
                self.position.y = self.position.y + 1;
            }
        }
        proof {
            self.emitted@ = self.emitted@ + 1;
        }
        Some(position)
    }

    /// Produces the next raw pixel: the next decoded color value under the
    /// next position of the walk. `None` once every pixel of the image has
    /// been produced, or as soon as an RLE stream terminates early.
    pub fn next(&mut self) -> (r: Option<RawPixel>)
        requires
            old(self).wf(),
        ensures
            final(self).wf(),
            final(self).width == old(self).width,
            final(self).height == old(self).height,
            final(self).origin == old(self).origin,
            final(self).colors.data@ == old(self).colors.data@,
            final(self).colors.bpp == old(self).colors.bpp,
            final(self).colors.compression == old(self).colors.compression,
            ({
                let w = old(self).width as int;
                let h = old(self).height as int;
                let k = old(self).emitted@;
                let c = old(self).colors;
                if k < spec_pixel_limit(w, h) {
                    &&& final(self).emitted@ == k + 1
                    &&& final(self).colors.state() == spec_dec_step(
                        c.data@,
                        c.byte_width(),
                        c.compression,
                        c.state(),
                    )
                    &&& r == match spec_dec_emit(c.data@, c.byte_width(), c.compression, c.state()) {
                        Some(v) => Some(
                            RawPixel {
                                position: spec_position_at(old(self).origin, w, h, k as int),
                                color: v,
                            },
                        ),
                        None => None::<RawPixel>,
                    }
                } else {
                    &&& r is None
                    &&& *final(self) == *old(self)
                }
            }),
    {
        let position = match self.next_position() {
            Some(p) => p,
            None => {
                return None;
            },
        };
        let color = match self.colors.next() {
            Some(c) => c,
            None => {
                return None;
            },
        };
        Some(RawPixel { position, color })
    }
}

/// An uncompressed decoder emits a value at every step: any requested
/// count is delivered in full, however short the input.
pub proof fn lemma_uncompressed_total(data: Seq<u8>, n: int, s: DecState, k: nat)
    ensures
        spec_decoded(data, n, Compression::Uncompressed, s, k).len() == k,
    decreases k,
{
    if k == 0 {
    } else {
        lemma_uncompressed_total(
            data,
            n,
            spec_dec_step(data, n, Compression::Uncompressed, s),
            (k - 1) as nat,
        );
    }
}

/// Once fewer bytes than one storage width remain, an uncompressed
/// decoder emits only zero-valued pixels and its cursor no longer moves.
pub proof fn lemma_uncompressed_underrun(data: Seq<u8>, n: int, s: DecState, k: nat)
    requires
        s.pos + n > data.len(),
    ensures
        spec_decoded(data, n, Compression::Uncompressed, s, k) == Seq::new(k, |i: int| 0u32),
        spec_dec_after(data, n, Compression::Uncompressed, s, k) == s,
    decreases k,
{
    if k == 0 {
        assert(spec_decoded(data, n, Compression::Uncompressed, s, k) =~= Seq::new(
            k,
            |i: int| 0u32,
        ));
    } else {
        lemma_uncompressed_underrun(data, n, s, (k - 1) as nat);
        assert(spec_dec_step(data, n, Compression::Uncompressed, s) == s);
        assert(spec_decoded(data, n, Compression::Uncompressed, s, k) =~= Seq::new(
            k,
            |i: int| 0u32,
        ));
    }
}

} // verus!
