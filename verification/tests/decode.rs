use binlens::pixel_mode::PixelMode;
use binlens::preview::Pixel;
use binlens::shader::{index_wire_code, DecodingScheme};

fn some_run(msb: u32, count: u32) -> [Option<u32>; 8] {
    let mut r = [None; 8];
    let mut i: usize = 0;
    while i < count as usize {
        r[i] = Some(msb - i as u32);
        i += 1;
    }
    r
}

#[test]
fn rgb24_catalog_tables() {
    let s = DecodingScheme::rgb24();
    assert_eq!(s.bits_per_pixel, 24);
    assert_eq!(s.red, some_run(23, 8));
    assert_eq!(s.green, some_run(15, 8));
    assert_eq!(s.blue, some_run(7, 8));
}

#[test]
fn bgr24_catalog_tables() {
    let s = DecodingScheme::bgr24();
    assert_eq!(s.bits_per_pixel, 24);
    assert_eq!(s.red, some_run(7, 8));
    assert_eq!(s.green, some_run(15, 8));
    assert_eq!(s.blue, some_run(23, 8));
}

#[test]
fn gray8_catalog_tables() {
    let s = DecodingScheme::gray8();
    assert_eq!(s.bits_per_pixel, 8);
    assert_eq!(s.red, some_run(7, 8));
    assert_eq!(s.green, some_run(7, 8));
    assert_eq!(s.blue, some_run(7, 8));
}

#[test]
fn rgb565_catalog_tables() {
    let s = DecodingScheme::rgb565();
    assert_eq!(s.bits_per_pixel, 16);
    assert_eq!(s.red, some_run(15, 5));
    assert_eq!(s.green, some_run(10, 6));
    assert_eq!(s.blue, some_run(4, 5));
}

#[test]
fn default_scheme_is_rgb24() {
    let s = DecodingScheme::default();
    assert_eq!(s.bits_per_pixel, 24);
    assert_eq!(s.red, DecodingScheme::rgb24().red);
    assert_eq!(s.blue, DecodingScheme::rgb24().blue);
}

#[test]
fn pixel_mode_catalog_selection() {
    assert_eq!(PixelMode::Rgb.decoding_scheme().bits_per_pixel, 24);
    assert_eq!(PixelMode::Rgb.decoding_scheme().red, some_run(23, 8));
    assert_eq!(PixelMode::Bgr.decoding_scheme().red, some_run(7, 8));
    assert_eq!(PixelMode::Grayscale.decoding_scheme().bits_per_pixel, 8);
    assert_eq!(PixelMode::Rgb565.decoding_scheme().bits_per_pixel, 16);
}

#[test]
fn decode_rgb24_pixel() {
    let s = DecodingScheme::rgb24();
    let p = s.decode_pixel(0xFF0080);
    assert_eq!(p, Pixel { red: 255, green: 0, blue: 128 });
    let p = s.decode_pixel(0x102030);
    assert_eq!(p, Pixel { red: 0x10, green: 0x20, blue: 0x30 });
}

#[test]
fn decode_bgr24_swaps_red_and_blue() {
    let s = DecodingScheme::bgr24();
    let p = s.decode_pixel(0xFF0080);
    assert_eq!(p, Pixel { red: 128, green: 0, blue: 255 });
}

#[test]
fn decode_gray8_feeds_all_channels() {
    let s = DecodingScheme::gray8();
    let p = s.decode_pixel(0xA5);
    assert_eq!(p, Pixel { red: 0xA5, green: 0xA5, blue: 0xA5 });
}

#[test]
fn decode_rgb565_leaves_low_bits_zero() {
    let s = DecodingScheme::rgb565();
    // red 0b10110, green 0b101101, blue 0b01011
    let raw: u64 = (0b10110 << 11) | (0b101101 << 5) | 0b01011;
    let p = s.decode_pixel(raw);
    assert_eq!(p, Pixel { red: 0b10110_000, green: 0b101101_00, blue: 0b01011_000 });
}

#[test]
fn decode_absent_entries_give_zero() {
    // A scheme that reads only one source bit into the red channel's
    // most significant output bit.
    let mut red = [None; 8];
    red[0] = Some(0);
    let s = DecodingScheme::new(red, [None; 8], [None; 8], 1).unwrap();
    assert_eq!(s.decode_pixel(1), Pixel { red: 0x80, green: 0, blue: 0 });
    assert_eq!(s.decode_pixel(0), Pixel { red: 0, green: 0, blue: 0 });
}

#[test]
fn new_rejects_index_at_or_past_width() {
    let mut red = [None; 8];
    red[3] = Some(16);
    assert!(DecodingScheme::new(red, [None; 8], [None; 8], 16).is_none());
    red[3] = Some(15);
    assert!(DecodingScheme::new(red, [None; 8], [None; 8], 16).is_some());
}

#[test]
fn wire_code_flattens_entries() {
    assert_eq!(index_wire_code(None), -1);
    assert_eq!(index_wire_code(Some(0)), 0);
    assert_eq!(index_wire_code(Some(23)), 23);
    assert_eq!(index_wire_code(Some(u32::MAX)), -1);
}

#[test]
fn new_rejects_zero_and_oversized_width() {
    assert!(DecodingScheme::new([None; 8], [None; 8], [None; 8], 0).is_none());
    assert!(DecodingScheme::new([None; 8], [None; 8], [None; 8], 65).is_none());
    assert!(DecodingScheme::new([None; 8], [None; 8], [None; 8], 64).is_some());
}
