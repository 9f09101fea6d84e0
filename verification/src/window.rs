//! The buffer windower: given the file bytes and the navigation state it
//! extracts the minimal byte window the viewport can need, zero-pads short
//! reads, and packs the window big-endian into 32-bit transfer words plus a
//! residual bit offset of 0 to 7.

use vstd::prelude::*;

verus! {

use vstd::arithmetic::mul::lemma_mul_upper_bound;

/// The most bytes the viewport could need: one byte per started group of 8
/// viewport bits. Scale does not appear: magnification changes how large a
/// source pixel is drawn, not how many are sampled.
pub open spec fn max_window_bytes(frame_width: int, frame_height: int, bits_per_pixel: int) -> int {
    (frame_width * frame_height * bits_per_pixel + 7) / 8
}

/// How many bytes the window really holds: the wanted count, cut down to
/// what the file still has past the start byte.
pub open spec fn window_take(
    file_len: int,
    start_bit: int,
    frame_width: int,
    frame_height: int,
    bits_per_pixel: int,
) -> int {
    let start_byte = start_bit / 8;
    let avail = if start_byte < file_len {
        file_len - start_byte
    } else {
        0
    };
    let wanted = max_window_bytes(frame_width, frame_height, bits_per_pixel);
    if wanted <= avail {
        wanted
    } else {
        avail
    }
}

/// Byte `k` of the window: a file byte while the window lasts, zero beyond
/// it.
pub open spec fn window_byte(
    file: Seq<u8>,
    start_bit: int,
    frame_width: int,
    frame_height: int,
    bits_per_pixel: int,
    k: int,
) -> u8 {
    if 0 <= k < window_take(file.len() as int, start_bit, frame_width, frame_height, bits_per_pixel) {
        file[start_bit / 8 + k]
    } else {
        0u8
    }
}

/// Four bytes packed big-endian into one transfer word.
pub open spec fn pack_word(b0: u8, b1: u8, b2: u8, b3: u8) -> u32 {
    ((b0 as int) * 0x100_0000 + (b1 as int) * 0x1_0000 + (b2 as int) * 0x100 + (b3 as int)) as u32
}

/// How many words the packed window holds: one per started group of four
/// bytes, and a single zero word when the window is empty.
pub open spec fn window_word_count(
    file_len: int,
    start_bit: int,
    frame_width: int,
    frame_height: int,
    bits_per_pixel: int,
) -> int {
    let take = window_take(file_len, start_bit, frame_width, frame_height, bits_per_pixel);
    if take == 0 {
        1
    } else {
        (take + 3) / 4
    }
}

/// The packed transfer buffer: the window's bytes four at a time,
/// big-endian, a trailing partial group padded with zero bytes.
pub open spec fn spec_window(
    file: Seq<u8>,
    start_bit: int,
    frame_width: int,
    frame_height: int,
    bits_per_pixel: int,
) -> Seq<u32> {
    Seq::new(
        window_word_count(
            file.len() as int,
            start_bit,
            frame_width,
            frame_height,
            bits_per_pixel,
        ) as nat,
        |j: int|
            pack_word(
                window_byte(file, start_bit, frame_width, frame_height, bits_per_pixel, 4 * j),
                window_byte(file, start_bit, frame_width, frame_height, bits_per_pixel, 4 * j + 1),
                window_byte(file, start_bit, frame_width, frame_height, bits_per_pixel, 4 * j + 2),
                window_byte(file, start_bit, frame_width, frame_height, bits_per_pixel, 4 * j + 3),
            ),
    )
}

proof fn lemma_pack_word_shifts(b0: u8, b1: u8, b2: u8, b3: u8)
    by (bit_vector)
    ensures
        (((b0 as u32) << 24) | ((b1 as u32) << 16) | ((b2 as u32) << 8) | (b3 as u32)) as int == (
        b0 as int) * 0x100_0000 + (b1 as int) * 0x1_0000 + (b2 as int) * 0x100 + (b3 as int),
{
}

/// Computes the byte window and the packed transfer buffer for a view that
/// starts at `start_bit`. Never fails: a start past the end of the file or
/// a short file only shortens the window, and an empty window becomes a
/// single zero word, so the buffer is never empty. The second result is the
/// residual bit offset, `start_bit` modulo 8, that the decoder skips in the
/// first word.
pub fn window(
    file: &Vec<u8>,
    start_bit: u64,
    frame_width: u32,
    frame_height: u32,
    bits_per_pixel: u32,
) -> (r: (Vec<u32>, u32))
    ensures
        r.0@ == spec_window(
            file@,
            start_bit as int,
            frame_width as int,
            frame_height as int,
            bits_per_pixel as int,
        ),
        r.0@.len() >= 1,
        r.1 as int == start_bit as int % 8,
        r.1 <= 7,
{
    let ghost fl: int = file@.len() as int;
    let ghost sb: int = start_bit as int;
    let ghost fw: int = frame_width as int;
    let ghost fh: int = frame_height as int;
    let ghost bpp: int = bits_per_pixel as int;

    let start_byte_u64: u64 = start_bit / 8;
    let bit_offset: u32 = (start_bit % 8) as u32;

    let (start_byte, avail): (usize, usize) = if start_byte_u64 < file.len() as u64 {
        (start_byte_u64 as usize, file.len() - start_byte_u64 as usize)
    } else {
        (0, 0)
    };

    proof {
        lemma_mul_upper_bound(fw, u32::MAX as int, fh, u32::MAX as int);
        lemma_mul_upper_bound(fw * fh, u32::MAX as int * u32::MAX as int, bpp, u32::MAX as int);
    }
    let wanted: u128 = ((frame_width as u128) * (frame_height as u128) * (bits_per_pixel as u128)
        + 7) / 8;
    let take: usize = if wanted <= avail as u128 {
        wanted as usize
    } else {
        avail
    };
    assert(take as int == window_take(fl, sb, fw, fh, bpp));

    let n_words: usize = take / 4 + if take % 4 == 0 {
        0
    } else {
        1
    };

    let mut words: Vec<u32> = Vec::new();
    let mut w: usize = 0;
    while w < n_words
        invariant
            w <= n_words,
            take as int == window_take(fl, sb, fw, fh, bpp),
            take > 0 ==> n_words as int == (take as int + 3) / 4,
            take == 0 ==> n_words == 0,
            take as int <= fl - start_byte as int,
            take > 0 ==> start_byte as int == sb / 8,
            fl == file@.len(),
            fl <= usize::MAX as int,
            words@.len() == w as int,
            forall|j: int|
                0 <= j < w ==> words@[j] == pack_word(
                    window_byte(file@, sb, fw, fh, bpp, 4 * j),
                    window_byte(file@, sb, fw, fh, bpp, 4 * j + 1),
                    window_byte(file@, sb, fw, fh, bpp, 4 * j + 2),
                    window_byte(file@, sb, fw, fh, bpp, 4 * j + 3),
                ),
        decreases n_words - w,
    {
        proof {
            vstd::arithmetic::div_mod::lemma_fundamental_div_mod(take as int + 3, 4);
            assert(4 * (w as int) <= 4 * (n_words as int - 1));
            assert(4 * (w as int) < take as int);
        }
        let base = 4 * w;
        let rem = take - base;
        let b0 = file[start_byte + base];
        let b1 = if rem > 1 {
            file[start_byte + base + 1]
        } else {
            0
        };
        let b2 = if rem > 2 {
            file[start_byte + base + 2]
        } else {
            0
        };
        let b3 = if rem > 3 {
            file[start_byte + base + 3]
        } else {
            0
        };
        let word = ((b0 as u32) << 24) | ((b1 as u32) << 16) | ((b2 as u32) << 8) | (b3 as u32);
        proof {
            lemma_pack_word_shifts(b0, b1, b2, b3);
            assert(b0 == window_byte(file@, sb, fw, fh, bpp, 4 * w as int));
            assert(b1 == window_byte(file@, sb, fw, fh, bpp, 4 * w as int + 1));
            assert(b2 == window_byte(file@, sb, fw, fh, bpp, 4 * w as int + 2));
            assert(b3 == window_byte(file@, sb, fw, fh, bpp, 4 * w as int + 3));
        }
        words.push(word);
        w = w + 1;
    }
    if words.len() == 0 {
        words.push(0u32);
        proof {
            assert(pack_word(0u8, 0u8, 0u8, 0u8) == 0u32);
        }
    }
    proof {
        assert(words@ =~= spec_window(file@, sb, fw, fh, bpp));
    }
    (words, bit_offset)
}

} // verus!
