//! The pure per-pixel decoder a rendering backend must agree with. The
//! packed transfer buffer is read as one contiguous big-endian bitstream;
//! the pixel at output position (x, y) starts `bit_offset` plus
//! `(y * target_width + x) * bits_per_pixel` bits into it, and its bits
//! are decoded through the scheme's channel tables. Bits past the end of
//! the buffer read as zero, so padded windows decode to black.

use vstd::prelude::*;

verus! {

use vstd::arithmetic::div_mod::{lemma_fundamental_div_mod, lemma_fundamental_div_mod_converse};
use vstd::arithmetic::div_mod::lemma_multiply_divide_lt;
use vstd::arithmetic::mul::lemma_mul_upper_bound;
use crate::bits::{u32_bit, u64_bit, u8_bit};
use crate::preview::Pixel;
use crate::shader::{channel_bit, DecodingScheme};
use crate::window::{pack_word, spec_window, window_byte, window_take};

/// Bit `i` of the packed buffer read as one big-endian bitstream: bit 0
/// is the most significant bit of the first word, and bits past the end
/// read 0.
pub open spec fn stream_bit(words: Seq<u32>, i: int) -> bool {
    0 <= i < words.len() * 32 && u32_bit(words[i / 32], (31 - i % 32) as u32)
}

/// `r` holds the `count` stream bits that start at `start`: the first of
/// them is the most significant meaningful bit of `r`, and everything
/// above them is zero.
pub open spec fn holds_stream_bits(words: Seq<u32>, start: int, count: int, r: u64) -> bool {
    &&& forall|k: u32| k < count ==> u64_bit(r, k) == stream_bit(words, start + count - 1 - k)
    &&& forall|k: u32| count <= k < 64 ==> !u64_bit(r, k)
}

proof fn lemma_u64_shift_in_low(x: u64, b: u64)
    by (bit_vector)
    requires
        b <= 1,
    ensures
        (((x << 1u64) | b) >> 0u32) & 1u64 == b,
{
}

proof fn lemma_u64_shift_in_high(x: u64, b: u64, k: u32, k1: u32)
    by (bit_vector)
    requires
        b <= 1,
        k < 64,
        1 <= k,
        k1 == k - 1,
    ensures
        (((x << 1u64) | b) >> k) & 1u64 == (x >> k1) & 1u64,
{
}

/// Reads `count` consecutive bits of the big-endian stream, starting at
/// stream bit `start`, into the low `count` bits of the result, first
/// stream bit foremost.
pub fn extract_bits(words: &Vec<u32>, start: u64, count: u32) -> (r: u64)
    requires
        count <= 64,
        start + count <= u64::MAX,
    ensures
        holds_stream_bits(words@, start as int, count as int, r),
{
    let mut r: u64 = 0;
    proof {
        assert forall|k: u32| k < 64 implies !u64_bit(0u64, k) by {
            assert((0u64 >> k) & 1u64 == 0u64) by (bit_vector);
        }
    }
    let mut j: u32 = 0;
    while j < count
        invariant
            j <= count <= 64,
            start + count <= u64::MAX,
            forall|t: u32|
                t < j ==> #[trigger] u64_bit(r, t) == stream_bit(words@, start + j - 1 - t),
            forall|t: u32| j <= t < 64 ==> !(#[trigger] u64_bit(r, t)),
        decreases count - j,
    {
        let i: u64 = start + j as u64;
        let word_index: u64 = i / 32;
        let b: bool = if word_index < words.len() as u64 {
            let w = words[word_index as usize];
            let shift: u32 = 31 - (i % 32) as u32;
            (w >> shift) & 1 == 1
        } else {
            proof {
                lemma_fundamental_div_mod(i as int, 32);
            }
            false
        };
        assert(b == stream_bit(words@, i as int));
        let bit: u64 = if b {
            1
        } else {
            0
        };
        let shifted: u64 = (r << 1u64) | bit;
        proof {
            lemma_u64_shift_in_low(r, bit);
            assert(u64_bit(shifted, 0) == b);
            assert forall|t: u32| 1 <= t < 64 implies u64_bit(shifted, t) == u64_bit(
                r,
                (t - 1) as u32,
            ) by {
                lemma_u64_shift_in_high(r, bit, t, (t - 1) as u32);
            }
            assert forall|t: u32| t < j + 1 implies u64_bit(shifted, t) == stream_bit(
                words@,
                start + (j + 1) - 1 - t,
            ) by {
                if t >= 1 {
                    assert(u64_bit(shifted, t) == u64_bit(r, (t - 1) as u32));
                }
            }
            assert forall|t: u32| j + 1 <= t < 64 implies !u64_bit(shifted, t) by {
                assert(u64_bit(shifted, t) == u64_bit(r, (t - 1) as u32));
            }
        }
        r = shifted;
        j = j + 1;
    }
    r
}

proof fn lemma_pack_word_bit(w: u32, b0: u8, b1: u8, b2: u8, b3: u8, s: u32)
    by (bit_vector)
    requires
        s < 32,
        w as int == (b0 as int) * 0x100_0000 + (b1 as int) * 0x1_0000 + (b2 as int) * 0x100 + (
        b3 as int),
    ensures
        ((w >> ((31 - s) as u32)) & 1u32 == 1u32) == ({
            let b = if s < 8 {
                b0
            } else if s < 16 {
                b1
            } else if s < 24 {
                b2
            } else {
                b3
            };
            (b >> ((7 - (s % 8)) as u32)) & 1u8 == 1u8
        }),
{
}

/// Law: the packed transfer buffer, read as one big-endian bitstream,
/// shows exactly the window's bytes: stream bit `i` is bit `7 - i % 8` of
/// window byte `i / 8`, zero padding included, for every `i >= 0`. This
/// is the wire-format agreement between the windower's packing and the
/// decoder's bit addressing.
pub proof fn lemma_window_stream_bit(
    file: Seq<u8>,
    start_bit: int,
    frame_width: int,
    frame_height: int,
    bits_per_pixel: int,
    i: int,
)
    requires
        0 <= i,
    ensures
        stream_bit(spec_window(file, start_bit, frame_width, frame_height, bits_per_pixel), i)
            == u8_bit(
            window_byte(file, start_bit, frame_width, frame_height, bits_per_pixel, i / 8),
            (7 - i % 8) as u32,
        ),
{
    let words = spec_window(file, start_bit, frame_width, frame_height, bits_per_pixel);
    let take = window_take(file.len() as int, start_bit, frame_width, frame_height, bits_per_pixel);
    let j = i / 32;
    let s = i % 32;
    lemma_fundamental_div_mod(i, 32);
    lemma_fundamental_div_mod(s, 8);
    // The byte a stream bit falls in: i / 8 == 4 * j + s / 8, and the bit
    // within it: i % 8 == s % 8.
    lemma_fundamental_div_mod_converse(i, 8, 4 * j + s / 8, s % 8);
    assert forall|t: u32| t < 8 implies !u8_bit(0u8, t) by {
        assert((0u8 >> t) & 1u8 == 0u8) by (bit_vector);
    }
    if j < words.len() {
        let b0 = window_byte(file, start_bit, frame_width, frame_height, bits_per_pixel, 4 * j);
        let b1 = window_byte(file, start_bit, frame_width, frame_height, bits_per_pixel, 4 * j + 1);
        let b2 = window_byte(file, start_bit, frame_width, frame_height, bits_per_pixel, 4 * j + 2);
        let b3 = window_byte(file, start_bit, frame_width, frame_height, bits_per_pixel, 4 * j + 3);
        assert(words[j] == pack_word(b0, b1, b2, b3));
        lemma_pack_word_bit(words[j], b0, b1, b2, b3, s as u32);
        if s < 8 {
            vstd::arithmetic::div_mod::lemma_basic_div(s, 8);
        } else if s < 16 {
            lemma_fundamental_div_mod_converse(s, 8, 1, s - 8);
        } else if s < 24 {
            lemma_fundamental_div_mod_converse(s, 8, 2, s - 16);
        } else {
            lemma_fundamental_div_mod_converse(s, 8, 3, s - 24);
        }
    } else {
        // Past the last word the stream reads 0; so does the window,
        // whose bytes have run out: 4 * words.len() covers the take.
        lemma_fundamental_div_mod(take + 3, 4);
        assert(4 * words.len() >= take);
        assert(i / 8 >= 4 * j);
        assert(window_byte(file, start_bit, frame_width, frame_height, bits_per_pixel, i / 8)
            == 0u8);
    }
}

/// Law: a channel of a pixel that lies wholly past the end of the packed
/// buffer decodes to 0 — missing data shows as black, never as garbage.
pub proof fn lemma_padding_decodes_black(
    words: Seq<u32>,
    base: int,
    entries: Seq<Option<u32>>,
    bits_per_pixel: u32,
    out: u8,
)
    requires
        decodes_stream_channel(words, base, entries, bits_per_pixel, out),
        crate::shader::channel_wf(entries, bits_per_pixel),
        entries.len() == 8,
        base >= words.len() * 32,
    ensures
        out == 0,
{
    assert forall|t: u32| t < 8 implies !u8_bit(out, t) by {
        let i = 7 - t as int;
        assert(u8_bit(out, (7 - i) as u32) == (entries[i] matches Some(k) && stream_bit(
            words,
            base + bits_per_pixel - 1 - k,
        )));
        match entries[i] {
            Some(k) => {
                assert(k < bits_per_pixel);
                assert(base + bits_per_pixel - 1 - k >= words.len() * 32);
            },
            None => {},
        }
    }
    assert(out == 0u8) by (bit_vector)
        requires
            !u8_bit(out, 0u32),
            !u8_bit(out, 1u32),
            !u8_bit(out, 2u32),
            !u8_bit(out, 3u32),
            !u8_bit(out, 4u32),
            !u8_bit(out, 5u32),
            !u8_bit(out, 6u32),
            !u8_bit(out, 7u32),
    ;
}

/// Output channel byte `out` is what the backend must show for a channel
/// table, for the pixel whose bits start at stream bit `base`: output bit
/// `i` (0 = most significant) equals stream bit `base + bits_per_pixel - 1
/// - k` when entry `i` points at source bit `k`, else 0.
pub open spec fn decodes_stream_channel(
    words: Seq<u32>,
    base: int,
    entries: Seq<Option<u32>>,
    bits_per_pixel: u32,
    out: u8,
) -> bool {
    forall|i: int|
        0 <= i < 8 ==> u8_bit(out, (7 - i) as u32) == (#[trigger] entries[i] matches Some(k)
            && stream_bit(words, base + bits_per_pixel - 1 - k))
}

/// Decodes the output pixel at (x, y) from the packed buffer, exactly as
/// the rendering backend is obliged to: this function is the single place
/// that reconciles bit addressing with the word-packed storage.
pub fn decode_at(
    words: &Vec<u32>,
    bit_offset: u32,
    scheme: &DecodingScheme,
    target_width: u32,
    x: u32,
    y: u32,
) -> (p: Pixel)
    requires
        scheme.wf(),
        x < target_width,
        bit_offset + (y * target_width + x) * scheme.bits_per_pixel + scheme.bits_per_pixel
            <= u64::MAX,
    ensures
        ({
            let base = bit_offset + (y * target_width + x) * scheme.bits_per_pixel;
            &&& decodes_stream_channel(words@, base, scheme.red@, scheme.bits_per_pixel, p.red)
            &&& decodes_stream_channel(
                words@,
                base,
                scheme.green@,
                scheme.bits_per_pixel,
                p.green,
            )
            &&& decodes_stream_channel(words@, base, scheme.blue@, scheme.bits_per_pixel, p.blue)
        }),
{
    proof {
        lemma_mul_upper_bound(y as int, u32::MAX as int, target_width as int, u32::MAX as int);
    }
    let pixel_index: u64 = (y as u64) * (target_width as u64) + (x as u64);
    let base: u64 = (bit_offset as u64) + pixel_index * (scheme.bits_per_pixel as u64);
    let pixel_bits = extract_bits(words, base, scheme.bits_per_pixel);
    let p = scheme.decode_pixel(pixel_bits);
    proof {
        lemma_channels_match(words@, base as int, scheme.red@, scheme.bits_per_pixel, pixel_bits, p.red);
        lemma_channels_match(
            words@,
            base as int,
            scheme.green@,
            scheme.bits_per_pixel,
            pixel_bits,
            p.green,
        );
        lemma_channels_match(
            words@,
            base as int,
            scheme.blue@,
            scheme.bits_per_pixel,
            pixel_bits,
            p.blue,
        );
    }
    p
}

/// Decodes the displayed pixel at output position (ox, oy) when the image
/// is magnified `scale` times: every source pixel is drawn as a
/// `scale * scale` block, so the output position maps onto source pixel
/// (ox / scale, oy / scale), decoded as [`decode_at`] does.
pub fn decode_output_at(
    words: &Vec<u32>,
    bit_offset: u32,
    scheme: &DecodingScheme,
    target_width: u32,
    scale: u32,
    ox: u32,
    oy: u32,
) -> (p: Pixel)
    requires
        scheme.wf(),
        scale >= 1,
        ox < target_width * scale,
        bit_offset + ((oy / scale) * target_width + (ox / scale)) * scheme.bits_per_pixel
            + scheme.bits_per_pixel <= u64::MAX,
    ensures
        ({
            let base = bit_offset + ((oy / scale) * target_width + (ox / scale))
                * scheme.bits_per_pixel;
            &&& decodes_stream_channel(words@, base, scheme.red@, scheme.bits_per_pixel, p.red)
            &&& decodes_stream_channel(
                words@,
                base,
                scheme.green@,
                scheme.bits_per_pixel,
                p.green,
            )
            &&& decodes_stream_channel(words@, base, scheme.blue@, scheme.bits_per_pixel, p.blue)
        }),
{
    proof {
        vstd::arithmetic::mul::lemma_mul_is_commutative(target_width as int, scale as int);
        lemma_multiply_divide_lt(ox as int, scale as int, target_width as int);
    }
    let x = ox / scale;
    let y = oy / scale;
    decode_at(words, bit_offset, scheme, target_width, x, y)
}

/// A channel byte decoded from the extracted raw value shows exactly the
/// stream bits the channel table points at.
proof fn lemma_channels_match(
    words: Seq<u32>,
    base: int,
    entries: Seq<Option<u32>>,
    bits_per_pixel: u32,
    pixel_bits: u64,
    out: u8,
)
    requires
        crate::shader::channel_wf(entries, bits_per_pixel),
        bits_per_pixel <= 64,
        entries.len() == 8,
        holds_stream_bits(words, base, bits_per_pixel as int, pixel_bits),
        crate::shader::decodes_channel(entries, pixel_bits, out),
    ensures
        decodes_stream_channel(words, base, entries, bits_per_pixel, out),
{
    assert forall|i: int| 0 <= i < 8 implies u8_bit(out, (7 - i) as u32) == (#[trigger] entries[i]
        matches Some(k) && stream_bit(words, base + bits_per_pixel - 1 - k)) by {
        assert(u8_bit(out, (7 - i) as u32) == channel_bit(entries, i, pixel_bits));
        match entries[i] {
            Some(k) => {
                assert(k < bits_per_pixel);
                assert(u64_bit(pixel_bits, k) == stream_bit(
                    words,
                    base + bits_per_pixel - 1 - k,
                ));
            },
            None => {},
        }
    }
}

} // verus!
