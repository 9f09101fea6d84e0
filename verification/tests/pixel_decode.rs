use binlens::preview::{Pixel, Preview};
use binlens::render::{decode_at, decode_output_at, extract_bits};
use binlens::shader::DecodingScheme;
use binlens::window::window;

#[test]
fn extract_reads_big_endian_stream() {
    let words = vec![0xFF008010, 0x20300000];
    assert_eq!(extract_bits(&words, 0, 24), 0xFF0080);
    assert_eq!(extract_bits(&words, 24, 24), 0x102030);
    assert_eq!(extract_bits(&words, 0, 8), 0xFF);
    assert_eq!(extract_bits(&words, 4, 8), 0xF0);
    assert_eq!(extract_bits(&words, 0, 0), 0);
}

#[test]
fn extract_past_end_reads_zero() {
    let words = vec![0xFFFFFFFF];
    assert_eq!(extract_bits(&words, 24, 16), 0xFF00);
    assert_eq!(extract_bits(&words, 64, 24), 0);
}

#[test]
fn two_rgb24_pixels_decode_from_packed_file() {
    // A 24-bit red-green-blue view of six file bytes: the first pixel is
    // (255, 0, 128), the second (16, 32, 48).
    let file = vec![0xFF, 0x00, 0x80, 0x10, 0x20, 0x30];
    let (words, offset) = window(&file, 0, 2, 1, 24);
    let scheme = DecodingScheme::rgb24();
    let p0 = decode_at(&words, offset, &scheme, 2, 0, 0);
    let p1 = decode_at(&words, offset, &scheme, 2, 1, 0);
    assert_eq!(p0, Pixel { red: 255, green: 0, blue: 128 });
    assert_eq!(p1, Pixel { red: 16, green: 32, blue: 48 });
}

#[test]
fn padding_past_short_file_decodes_black() {
    // The file holds 8 bits; the 8 x 1 grayscale viewport needs 64. All
    // pixels past the file decode to (0, 0, 0).
    let file = vec![0xAB];
    let (words, offset) = window(&file, 0, 8, 1, 8);
    let scheme = DecodingScheme::gray8();
    let p0 = decode_at(&words, offset, &scheme, 8, 0, 0);
    assert_eq!(p0, Pixel { red: 0xAB, green: 0xAB, blue: 0xAB });
    for x in 1..8 {
        let p = decode_at(&words, offset, &scheme, 8, x, 0);
        assert_eq!(p, Pixel { red: 0, green: 0, blue: 0 });
    }
}

#[test]
fn residual_offset_shifts_the_first_pixel() {
    // Starting 3 bits into the file: the window still begins at byte 0
    // and the decoder skips the 3 residual bits. The window spans only
    // the byte count the viewport's pixels need, so the 3 bits spilling
    // into the next byte read as padding zeros.
    let file = vec![0b1010_1111, 0b0110_0000];
    let (words, offset) = window(&file, 3, 1, 1, 8);
    assert_eq!(offset, 3);
    assert_eq!(words, vec![0b1010_1111 << 24]);
    let scheme = DecodingScheme::gray8();
    let p = decode_at(&words, offset, &scheme, 1, 0, 0);
    assert_eq!(p.red, 0b0111_1000);
}

#[test]
fn second_row_advances_by_a_full_line() {
    let file = vec![1, 2, 3, 4];
    let (words, offset) = window(&file, 0, 2, 2, 8);
    let scheme = DecodingScheme::gray8();
    assert_eq!(decode_at(&words, offset, &scheme, 2, 0, 0).red, 1);
    assert_eq!(decode_at(&words, offset, &scheme, 2, 1, 0).red, 2);
    assert_eq!(decode_at(&words, offset, &scheme, 2, 0, 1).red, 3);
    assert_eq!(decode_at(&words, offset, &scheme, 2, 1, 1).red, 4);
}

#[test]
fn magnified_pixels_come_in_scale_blocks() {
    let file = vec![1, 2, 3, 4];
    let (words, offset) = window(&file, 0, 2, 2, 8);
    let scheme = DecodingScheme::gray8();
    // At scale 3, output positions 0..2 all show source pixel 0 and
    // positions 3..5 show source pixel 1, on every output row of the
    // first source row.
    for oy in 0..3 {
        for ox in 0..3 {
            assert_eq!(decode_output_at(&words, offset, &scheme, 2, 3, ox, oy).red, 1);
            assert_eq!(decode_output_at(&words, offset, &scheme, 2, 3, ox + 3, oy).red, 2);
        }
    }
    assert_eq!(decode_output_at(&words, offset, &scheme, 2, 3, 0, 3).red, 3);
}

#[test]
fn preview_pipeline_decodes_end_to_end() {
    let mut p = Preview::default();
    p.set_target_width(2);
    p.set_frame_width(2);
    p.set_frame_height(1);
    p.set_file_data(vec![0xFF, 0x00, 0x80, 0x10, 0x20, 0x30]);
    let scheme = *p.decoding_scheme();
    let pix = decode_at(
        p.program.buffer(),
        p.program.bit_offset(),
        &scheme,
        p.target_width(),
        0,
        0,
    );
    assert_eq!(pix, Pixel { red: 255, green: 0, blue: 128 });
}
