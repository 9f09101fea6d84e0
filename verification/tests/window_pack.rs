use binlens::preview::Preview;
use binlens::window::window;

#[test]
fn packs_four_bytes_big_endian() {
    let file = vec![0xDE, 0xAD, 0xBE, 0xEF];
    let (words, offset) = window(&file, 0, 4, 1, 8);
    assert_eq!(words, vec![0xDEADBEEF]);
    assert_eq!(offset, 0);
}

#[test]
fn pads_trailing_group_with_zero_bytes() {
    let file = vec![0xFF, 0x00, 0x80, 0x10, 0x20, 0x30];
    let (words, offset) = window(&file, 0, 2, 1, 24);
    assert_eq!(words, vec![0xFF008010, 0x20300000]);
    assert_eq!(offset, 0);
}

#[test]
fn empty_file_gives_single_zero_word() {
    let file = Vec::new();
    let (words, offset) = window(&file, 0, 100, 100, 24);
    assert_eq!(words, vec![0]);
    assert_eq!(offset, 0);
}

#[test]
fn start_past_end_gives_single_zero_word() {
    let file = vec![1, 2, 3];
    let (words, offset) = window(&file, 1000, 10, 10, 8);
    assert_eq!(words, vec![0]);
    assert_eq!(offset, 0);
}

#[test]
fn residual_offset_is_start_bit_mod_8() {
    let file = vec![0xAA, 0xBB, 0xCC];
    let (words, offset) = window(&file, 11, 4, 1, 8);
    // Start byte is 11 / 8 = 1; the residual 3 bits are left to the
    // decoder.
    assert_eq!(offset, 3);
    assert_eq!(words, vec![0xBBCC0000]);
}

#[test]
fn window_is_cut_to_viewport_need() {
    let file = vec![1, 2, 3, 4, 5, 6, 7, 8, 9];
    // 2 x 1 pixels at 8 bits each need ceil(16 / 8) = 2 bytes.
    let (words, _) = window(&file, 0, 2, 1, 8);
    assert_eq!(words, vec![0x01020000]);
}

#[test]
fn short_file_is_taken_whole() {
    let file = vec![0xAB];
    // The viewport wants 8 bytes; the file has 1 bit length 8.
    let (words, offset) = window(&file, 0, 8, 1, 8);
    assert_eq!(words, vec![0xAB000000]);
    assert_eq!(offset, 0);
}

#[test]
fn odd_bit_need_rounds_up_to_a_byte() {
    let file = vec![9, 9, 9, 9, 9];
    // 3 x 1 pixels at 3 bits each span 9 bits: 2 bytes.
    let (words, _) = window(&file, 0, 3, 1, 3);
    assert_eq!(words, vec![0x09090000]);
}

#[test]
fn preview_buffer_mirrors_window() {
    let mut p = Preview::default();
    p.set_target_width(2);
    p.set_frame_width(2);
    p.set_frame_height(1);
    p.set_file_data(vec![0xFF, 0x00, 0x80, 0x10, 0x20, 0x30]);
    assert_eq!(p.program.buffer().as_slice(), &[0xFF008010, 0x20300000]);
    assert_eq!(p.program.bit_offset(), 0);
    p.set_start_bit(11);
    assert_eq!(p.program.bit_offset(), 3);
    assert_eq!(p.program.buffer().as_slice(), &[0x00801020, 0x30000000]);
}

#[test]
fn program_buffer_never_empty() {
    let mut p = Preview::default();
    p.set_frame_width(0);
    p.set_frame_height(0);
    p.set_file_data(vec![1, 2, 3]);
    assert_eq!(p.program.buffer().as_slice(), &[0u32]);
}
