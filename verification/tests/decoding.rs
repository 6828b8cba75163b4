//! Pixel decoding tests: RLE and uncompressed streams, coordinate walks,
//! color map resolution and the typed facade.

use tinytga::{
    Bpp, ColorType, DataType, ParseError, Point, RawTga, Size, TgaColor, Tga,
};

/// Builds the fixed 18-byte header.
fn header_bytes(
    id_len: u8,
    has_color_map: u8,
    image_type: u8,
    color_map_len: u16,
    color_map_depth: u8,
    width: u16,
    height: u16,
    pixel_depth: u8,
    descriptor: u8,
) -> Vec<u8> {
    let mut v = Vec::new();
    v.push(id_len);
    v.push(has_color_map);
    v.push(image_type);
    v.push(0);
    v.push(0);
    v.push((color_map_len & 0xFF) as u8);
    v.push((color_map_len >> 8) as u8);
    v.push(color_map_depth);
    v.push(0);
    v.push(0);
    v.push(0);
    v.push(0);
    v.push((width & 0xFF) as u8);
    v.push((width >> 8) as u8);
    v.push((height & 0xFF) as u8);
    v.push((height >> 8) as u8);
    v.push(pixel_depth);
    v.push(descriptor);
    v
}

/// Collects every raw pixel of the image.
fn collect_raw(tga: &RawTga<'_>) -> Vec<(i32, i32, u32)> {
    let mut pixels = tga.pixels();
    let mut out = Vec::new();
    while let Some(p) = pixels.next() {
        out.push((p.position.x, p.position.y, p.color));
    }
    out
}

/// Collects every typed pixel of the image.
fn collect_typed(tga: &Tga<'_>) -> Vec<(i32, i32, TgaColor)> {
    let mut pixels = tga.pixels();
    let mut out = Vec::new();
    while let Some(p) = pixels.next() {
        out.push((p.position.x, p.position.y, p.color));
    }
    out
}

#[test]
fn rle_repeat_packet_round_trip() {
    // One repeat packet of five copies of 0xAB, then one raw packet of
    // three literals: the runs decode back with no off-by-one drift into
    // the following packet. Type 11 is grayscale, RLE.
    let mut data = header_bytes(0, 0, 11, 0, 0, 8, 1, 8, 0x20);
    data.extend_from_slice(&[0x84, 0xAB, 0x02, 0x01, 0x02, 0x03]);
    let tga = RawTga::from_slice(&data).unwrap();
    let colors: Vec<u32> = collect_raw(&tga).iter().map(|p| p.2).collect();
    assert_eq!(colors, vec![0xAB, 0xAB, 0xAB, 0xAB, 0xAB, 1, 2, 3]);
}

#[test]
fn rle_raw_packet_round_trip() {
    // One raw packet of eight arbitrary values decodes to exactly those
    // values in order.
    let mut data = header_bytes(0, 0, 11, 0, 0, 8, 1, 8, 0x20);
    data.extend_from_slice(&[0x07, 9, 8, 7, 6, 5, 4, 3, 2]);
    let tga = RawTga::from_slice(&data).unwrap();
    let colors: Vec<u32> = collect_raw(&tga).iter().map(|p| p.2).collect();
    assert_eq!(colors, vec![9, 8, 7, 6, 5, 4, 3, 2]);
}

#[test]
fn rle_sixteen_bit_values() {
    // RLE true color at 16 bits per pixel: values are read little-endian.
    let mut data = header_bytes(0, 0, 10, 0, 0, 3, 1, 16, 0x20);
    data.extend_from_slice(&[0x81, 0x34, 0x12, 0x00, 0xCD, 0xAB]);
    let tga = RawTga::from_slice(&data).unwrap();
    let colors: Vec<u32> = collect_raw(&tga).iter().map(|p| p.2).collect();
    assert_eq!(colors, vec![0x1234, 0x1234, 0xABCD]);
}

#[test]
fn rle_stream_exhaustion_terminates() {
    // The RLE stream covers only five of the eight pixels; iteration ends
    // early instead of failing.
    let mut data = header_bytes(0, 0, 11, 0, 0, 8, 1, 8, 0x20);
    data.extend_from_slice(&[0x84, 0xAB]);
    let tga = RawTga::from_slice(&data).unwrap();
    let colors: Vec<u32> = collect_raw(&tga).iter().map(|p| p.2).collect();
    assert_eq!(colors, vec![0xAB, 0xAB, 0xAB, 0xAB, 0xAB]);
}

#[test]
fn rle_truncated_payload_degrades_to_zero() {
    // A repeat packet whose pixel value is cut off behaves like an
    // uncompressed underrun: the run is delivered as zero-valued pixels.
    let mut data = header_bytes(0, 0, 10, 0, 0, 4, 1, 16, 0x20);
    data.extend_from_slice(&[0x83, 0xFF]); // value needs 2 bytes, 1 present
    let tga = RawTga::from_slice(&data).unwrap();
    let pixels = collect_raw(&tga);
    assert_eq!(pixels.len(), 4);
    assert!(pixels.iter().all(|p| p.2 == 0));
}

#[test]
fn truncated_uncompressed_buffer_zero_fills() {
    // 4x4 pixels at 3 bytes each call for 48 bytes; only 5 are present.
    // Construction succeeds, the first whole value is read, every later
    // pixel is zero-valued, and iteration still ends after exactly 16
    // pixels.
    let mut data = header_bytes(0, 0, 2, 0, 0, 4, 4, 24, 0x20);
    data.extend_from_slice(&[0x11, 0x22, 0x33, 0x44, 0x55]);
    let tga = RawTga::from_slice(&data).unwrap();
    let pixels = collect_raw(&tga);
    assert_eq!(pixels.len(), 16);
    assert_eq!(pixels[0].2, 0x332211);
    assert!(pixels[1..].iter().all(|p| p.2 == 0));
    let mut it = tga.pixels();
    for _ in 0..16 {
        assert!(it.next().is_some());
    }
    assert!(it.next().is_none());
    assert!(it.next().is_none());
}

#[test]
fn top_left_positions() {
    // For a top-left origin the k-th position is (k % w, k / w).
    let mut data = header_bytes(0, 0, 3, 0, 0, 3, 2, 8, 0x20);
    data.extend_from_slice(&[0, 1, 2, 3, 4, 5]);
    let tga = RawTga::from_slice(&data).unwrap();
    let pixels = collect_raw(&tga);
    let expected = vec![
        (0, 0, 0),
        (1, 0, 1),
        (2, 0, 2),
        (0, 1, 3),
        (1, 1, 4),
        (2, 1, 5),
    ];
    assert_eq!(pixels, expected);
}

#[test]
fn bottom_left_positions() {
    // For a bottom-left origin the k-th position is
    // (k % w, h - 1 - k / w): rows arrive bottom-up.
    let mut data = header_bytes(0, 0, 3, 0, 0, 3, 2, 8, 0x00);
    data.extend_from_slice(&[0, 1, 2, 3, 4, 5]);
    let tga = RawTga::from_slice(&data).unwrap();
    let pixels = collect_raw(&tga);
    let expected = vec![
        (0, 1, 0),
        (1, 1, 1),
        (2, 1, 2),
        (0, 0, 3),
        (1, 0, 4),
        (2, 0, 5),
    ];
    assert_eq!(pixels, expected);
}

#[test]
fn right_origin_positions_count_from_left() {
    // The raw iterator resolves only the vertical component: a top-right
    // image reports the same positions as a top-left one, and the
    // horizontal mirroring is left to the consumer.
    let mut data = header_bytes(0, 0, 3, 0, 0, 2, 2, 8, 0x30);
    data.extend_from_slice(&[0, 1, 2, 3]);
    let tga = RawTga::from_slice(&data).unwrap();
    let pixels = collect_raw(&tga);
    assert_eq!(pixels, vec![(0, 0, 0), (1, 0, 1), (0, 1, 2), (1, 1, 3)]);
}

#[test]
fn checkerboard_true_color_top_left() {
    // A 4x4 true-color, uncompressed, top-left image with a checkerboard
    // of white and black, one red, one green and one blue pixel; stored
    // bytes are blue, green, red.
    let w: [u8; 3] = [0xFF, 0xFF, 0xFF];
    let k: [u8; 3] = [0x00, 0x00, 0x00];
    let r: [u8; 3] = [0x00, 0x00, 0xFF];
    let g: [u8; 3] = [0x00, 0xFF, 0x00];
    let b: [u8; 3] = [0xFF, 0x00, 0x00];
    let rows: [[&[u8; 3]; 4]; 4] = [
        [&w, &k, &w, &k],
        [&k, &r, &k, &g],
        [&w, &k, &b, &k],
        [&k, &w, &k, &w],
    ];
    let mut data = header_bytes(0, 0, 2, 0, 0, 4, 4, 24, 0x20);
    for row in rows.iter() {
        for px in row.iter() {
            data.extend_from_slice(&px[..]);
        }
    }
    let tga = Tga::from_slice(&data).unwrap();
    assert_eq!(tga.size(), Size::new(4, 4));

    let white = TgaColor::Rgb888(0xFFFFFF);
    let black = TgaColor::Rgb888(0x000000);
    let red = TgaColor::Rgb888(0xFF0000);
    let green = TgaColor::Rgb888(0x00FF00);
    let blue = TgaColor::Rgb888(0x0000FF);
    let expected = vec![
        (0, 0, white), (1, 0, black), (2, 0, white), (3, 0, black),
        (0, 1, black), (1, 1, red),   (2, 1, black), (3, 1, green),
        (0, 2, white), (1, 2, black), (2, 2, blue),  (3, 2, black),
        (0, 3, black), (1, 3, white), (2, 3, black), (3, 3, white),
    ];
    assert_eq!(collect_typed(&tga), expected);
}

#[test]
fn color_mapped_rle_equals_true_color() {
    // An 8-bit color-mapped, RLE-compressed, bottom-left image with an
    // 8-entry 24-bit palette decodes to the same image as its
    // uncompressed, non-mapped 24-bit equivalent.
    let palette_entry = |i: u8| -> [u8; 3] { [i, 2 * i, 3 * i] };
    let indices: [u8; 16] = [0, 0, 0, 1, 1, 1, 2, 2, 2, 3, 3, 3, 4, 5, 6, 7];

    let mut mapped = header_bytes(0, 1, 9, 8, 24, 4, 4, 8, 0x00);
    for i in 0..8 {
        mapped.extend_from_slice(&palette_entry(i));
    }
    // Four repeat packets of three, then one raw packet of four.
    mapped.extend_from_slice(&[0x82, 0, 0x82, 1, 0x82, 2, 0x82, 3, 0x03, 4, 5, 6, 7]);

    let mut plain = header_bytes(0, 0, 2, 0, 0, 4, 4, 24, 0x00);
    for i in indices.iter() {
        plain.extend_from_slice(&palette_entry(*i));
    }

    let mapped_tga = Tga::from_slice(&mapped).unwrap();
    let plain_tga = Tga::from_slice(&plain).unwrap();
    assert_eq!(mapped_tga.size(), plain_tga.size());
    let mapped_pixels = collect_typed(&mapped_tga);
    let plain_pixels = collect_typed(&plain_tga);
    assert_eq!(mapped_pixels.len(), 16);
    assert_eq!(mapped_pixels, plain_pixels);
}

#[test]
fn color_map_index_resolution() {
    // A 16-bit palette resolved through 8-bit indices; pixels come out at
    // the palette's depth.
    let mut data = header_bytes(0, 1, 1, 2, 16, 2, 1, 8, 0x20);
    data.extend_from_slice(&[0x34, 0x12, 0x78, 0x56]);
    data.extend_from_slice(&[1, 0]);
    let tga = Tga::from_slice(&data).unwrap();
    let pixels = collect_typed(&tga);
    assert_eq!(
        pixels,
        vec![(0, 0, TgaColor::Rgb555(0x5678)), (1, 0, TgaColor::Rgb555(0x1234))]
    );
}

#[test]
fn grayscale_pixels() {
    let mut data = header_bytes(0, 0, 3, 0, 0, 2, 1, 8, 0x20);
    data.extend_from_slice(&[0x00, 0xC8]);
    let tga = Tga::from_slice(&data).unwrap();
    let pixels = collect_typed(&tga);
    assert_eq!(
        pixels,
        vec![(0, 0, TgaColor::Gray8(0)), (1, 0, TgaColor::Gray8(0xC8))]
    );
}

#[test]
fn unsupported_type_combinations() {
    // 32-bit true color is unsupported.
    let mut data = header_bytes(0, 0, 2, 0, 0, 1, 1, 32, 0x20);
    data.extend_from_slice(&[0, 0, 0, 0]);
    assert_eq!(
        Tga::from_slice(&data),
        Err(ParseError::UnsupportedTgaType(DataType::TrueColor, Bpp::Bits32))
    );
    // 16-bit grayscale is unsupported.
    let mut data = header_bytes(0, 0, 3, 0, 0, 1, 1, 16, 0x20);
    data.extend_from_slice(&[0, 0]);
    assert_eq!(
        Tga::from_slice(&data),
        Err(ParseError::UnsupportedTgaType(DataType::BlackAndWhite, Bpp::Bits16))
    );
    // The raw image still parses.
    assert!(RawTga::from_slice(&data).is_ok());
}

#[test]
fn facade_accessors() {
    let mut data = header_bytes(0, 0, 2, 0, 0, 2, 1, 24, 0x20);
    data.extend_from_slice(&[0; 6]);
    let tga = Tga::from_slice(&data).unwrap();
    assert_eq!(tga.as_raw().image_data_bpp(), Bpp::Bits24);
    assert_eq!(tga.image_color_type, ColorType::Rgb888);
    assert_eq!(tga.size(), Size::new(2, 1));
    assert_eq!(tga.as_raw().size(), Size::new(2, 1));
}

#[test]
fn out_of_range_palette_index_is_zero() {
    // A stored index beyond the palette resolves to a zero-valued color
    // instead of failing mid-iteration.
    let mut data = header_bytes(0, 1, 1, 2, 24, 2, 1, 8, 0x20);
    data.extend_from_slice(&[0x10, 0x20, 0x30, 0x40, 0x50, 0x60]);
    data.extend_from_slice(&[1, 7]);
    let tga = Tga::from_slice(&data).unwrap();
    let pixels = collect_typed(&tga);
    assert_eq!(
        pixels,
        vec![
            (0, 0, TgaColor::Rgb888(0x605040)),
            (1, 0, TgaColor::Rgb888(0)),
        ]
    );
}

#[test]
fn zero_height_image_yields_no_pixels() {
    let data = header_bytes(0, 0, 2, 0, 0, 4, 0, 24, 0x20);
    let tga = RawTga::from_slice(&data).unwrap();
    assert_eq!(collect_raw(&tga).len(), 0);
    let data = header_bytes(0, 0, 2, 0, 0, 4, 0, 24, 0x00);
    let tga = RawTga::from_slice(&data).unwrap();
    assert_eq!(collect_raw(&tga).len(), 0);
}

#[test]
fn raw_pixel_new_sets_fields() {
    let p = tinytga::RawPixel::new(Point::new(3, 4), 0xABCDEF);
    assert_eq!(p.position, Point { x: 3, y: 4 });
    assert_eq!(p.color, 0xABCDEF);
}
