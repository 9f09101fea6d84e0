//! The pixel decoding scheme: a data table that routes, for each of the
//! three colour channels, each of the 8 output bits to an optional source
//! bit of the pixel's raw value. Also the data handed to a rendering
//! backend: the packed transfer buffer together with the knobs that decide
//! how it is decoded.

use vstd::prelude::*;

verus! {

use crate::bits::{u64_bit, u8_bit};
use crate::preview::Pixel;

/// Declares which source bit (if any) feeds each output bit of each colour
/// channel. Entry `i` of a channel (0 = most significant output bit) holds
/// `Some(k)` when output bit `i` copies bit `k` of the pixel's raw value
/// (bit 0 = least significant), and `None` when output bit `i` is forced
/// to 0.
#[derive(Clone, Copy, Debug)]
pub struct DecodingScheme {
    pub red: [Option<u32>; 8],
    pub green: [Option<u32>; 8],
    pub blue: [Option<u32>; 8],
    pub bits_per_pixel: u32,
}

/// Every present index of the channel reads a bit that the pixel has.
pub open spec fn channel_wf(entries: Seq<Option<u32>>, bits_per_pixel: u32) -> bool {
    forall|i: int|
        0 <= i < entries.len() ==> (#[trigger] entries[i] matches Some(k) ==> k < bits_per_pixel)
}

/// The value of output bit `i` (0 = most significant) of a channel decoded
/// from `pixel_bits`.
pub open spec fn channel_bit(entries: Seq<Option<u32>>, i: int, pixel_bits: u64) -> bool {
    entries[i] matches Some(k) && u64_bit(pixel_bits, k)
}

/// `out` is exactly the byte that the channel table produces from
/// `pixel_bits`: output bit `i` (0 = most significant, so bit `7 - i` of
/// the byte) equals the referenced source bit when present, else 0.
pub open spec fn decodes_channel(entries: Seq<Option<u32>>, pixel_bits: u64, out: u8) -> bool {
    forall|i: int|
        0 <= i < 8 ==> u8_bit(out, (7 - i) as u32) == #[trigger] channel_bit(
            entries,
            i,
            pixel_bits,
        )
}

proof fn lemma_u8_set_bit(x: u8, s: u32, t: u32)
    by (bit_vector)
    requires
        s < 8,
        t < 8,
    ensures
        ((x | (1u8 << s)) >> t) & 1u8 == if s == t {
            1u8
        } else {
            (x >> t) & 1u8
        },
{
}

/// The byte a channel table decodes out of `pixel_bits`.
fn decode_channel(entries: &[Option<u32>; 8], pixel_bits: u64) -> (out: u8)
    requires
        channel_wf(entries@, 64),
    ensures
        decodes_channel(entries@, pixel_bits, out),
{
    let mut out: u8 = 0;
    proof {
        assert forall|t: u32| t < 8 implies !u8_bit(out, t) by {
            assert((0u8 >> t) & 1u8 == 0u8) by (bit_vector);
        }
    }
    let mut i: usize = 0;
    while i < 8
        invariant
            i <= 8,
            channel_wf(entries@, 64),
            forall|j: int|
                0 <= j < i ==> u8_bit(out, (7 - j) as u32) == #[trigger] channel_bit(
                    entries@,
                    j,
                    pixel_bits,
                ),
            forall|t: u32| t + i < 8 ==> !(#[trigger] u8_bit(out, t)),
        decreases 8 - i,
    {
        let shift: u32 = 7 - i as u32;
        match entries[i] {
            Some(k) => {
                assert(k < 64);
                if (pixel_bits >> k) & 1 == 1 {
                    let updated = out | (1u8 << shift);
                    proof {
                        assert forall|t: u32| t < 8 implies u8_bit(updated, t) == (t == shift
                            || u8_bit(out, t)) by {
                            lemma_u8_set_bit(out, shift, t);
                        }
                    }
                    out = updated;
                }
            },
            None => {},
        }
        i = i + 1;
    }
    out
}

impl DecodingScheme {
    /// Every present index is below `bits_per_pixel`, and the pixel width
    /// itself fits the 64-bit raw value a pixel is carried in.
    pub open spec fn wf(&self) -> bool {
        &&& 1 <= self.bits_per_pixel <= 64
        &&& channel_wf(self.red@, self.bits_per_pixel)
        &&& channel_wf(self.green@, self.bits_per_pixel)
        &&& channel_wf(self.blue@, self.bits_per_pixel)
    }

    /// Builds a scheme after checking it: a table with an index at or past
    /// `bits_per_pixel`, a zero pixel width, or one wider than 64 bits is a
    /// configuration error and is rejected.
    pub fn new(
        red: [Option<u32>; 8],
        green: [Option<u32>; 8],
        blue: [Option<u32>; 8],
        bits_per_pixel: u32,
    ) -> (r: Option<DecodingScheme>)
        ensures
            ({
                let s = DecodingScheme { red, green, blue, bits_per_pixel };
                if s.wf() {
                    r == Some(s)
                } else {
                    r == None::<DecodingScheme>
                }
            }),
    {
        let ok = 1 <= bits_per_pixel && bits_per_pixel <= 64 && channel_ok(&red, bits_per_pixel)
            && channel_ok(&green, bits_per_pixel) && channel_ok(&blue, bits_per_pixel);
        if ok {
            Some(DecodingScheme { red, green, blue, bits_per_pixel })
        } else {
            None
        }
    }

    /// Decodes one pixel: `pixel_bits` is the pixel's raw value, the low
    /// `bits_per_pixel` bits of which are meaningful. Each output channel
    /// bit equals the source bit its table entry points at, else 0.
    pub fn decode_pixel(&self, pixel_bits: u64) -> (p: Pixel)
        requires
            self.wf(),
        ensures
            decodes_channel(self.red@, pixel_bits, p.red),
            decodes_channel(self.green@, pixel_bits, p.green),
            decodes_channel(self.blue@, pixel_bits, p.blue),
    {
        Pixel {
            red: decode_channel(&self.red, pixel_bits),
            green: decode_channel(&self.green, pixel_bits),
            blue: decode_channel(&self.blue, pixel_bits),
        }
    }
}

/// A channel table whose `count` leading entries read a contiguous source
/// bit field downward from bit `msb`, and whose remaining output bits are
/// forced to 0. Fields narrower than 8 bits leave the low output bits zero.
pub open spec fn field_indices(msb: int, count: int) -> Seq<Option<u32>> {
    Seq::new(
        8,
        |i: int|
            if i < count {
                Some((msb - i) as u32)
            } else {
                None
            },
    )
}

proof fn lemma_field_indices_wf(msb: int, count: int, bits_per_pixel: u32)
    requires
        0 <= msb < bits_per_pixel,
        count <= msb + 1,
    ensures
        channel_wf(field_indices(msb, count), bits_per_pixel),
{
    assert forall|i: int|
        0 <= i < field_indices(msb, count).len() implies (#[trigger] field_indices(msb, count)[i]
        matches Some(k) ==> k < bits_per_pixel) by {
        if i < count {
            assert(field_indices(msb, count)[i] == Some((msb - i) as u32));
            assert(0 <= msb - i < bits_per_pixel);
        }
    }
}

/// Builds the channel table described by `field_indices(msb, count)`.
fn field_entries(msb: u32, count: u32) -> (r: [Option<u32>; 8])
    requires
        count <= 8,
        count <= msb + 1,
        msb < 64,
    ensures
        r@ == field_indices(msb as int, count as int),
{
    let mut r: [Option<u32>; 8] = [None, None, None, None, None, None, None, None];
    let mut i: usize = 0;
    while i < 8
        invariant
            i <= 8,
            count <= msb + 1,
            r@.len() == 8,
            forall|j: int|
                0 <= j < i ==> r@[j] == field_indices(msb as int, count as int)[j],
            forall|j: int| i <= j < 8 ==> r@[j] == None::<u32>,
        decreases 8 - i,
    {
        if (i as u32) < count {
            r[i] = Some(msb - i as u32);
        }
        i = i + 1;
    }
    proof {
        assert(r@ =~= field_indices(msb as int, count as int));
    }
    r
}

/// The catalogued 24-bit layout with red in the highest byte.
pub open spec fn is_rgb24(s: DecodingScheme) -> bool {
    &&& s.bits_per_pixel == 24
    &&& s.red@ == field_indices(23, 8)
    &&& s.green@ == field_indices(15, 8)
    &&& s.blue@ == field_indices(7, 8)
}

/// The catalogued 24-bit layout with blue in the highest byte.
pub open spec fn is_bgr24(s: DecodingScheme) -> bool {
    &&& s.bits_per_pixel == 24
    &&& s.red@ == field_indices(7, 8)
    &&& s.green@ == field_indices(15, 8)
    &&& s.blue@ == field_indices(23, 8)
}

/// The catalogued 8-bit layout that feeds the one byte to all channels.
pub open spec fn is_gray8(s: DecodingScheme) -> bool {
    &&& s.bits_per_pixel == 8
    &&& s.red@ == field_indices(7, 8)
    &&& s.green@ == field_indices(7, 8)
    &&& s.blue@ == field_indices(7, 8)
}

/// The catalogued packed 16-bit layout: 5 red, 6 green, 5 blue bits.
pub open spec fn is_rgb565(s: DecodingScheme) -> bool {
    &&& s.bits_per_pixel == 16
    &&& s.red@ == field_indices(15, 5)
    &&& s.green@ == field_indices(10, 6)
    &&& s.blue@ == field_indices(4, 5)
}

impl DecodingScheme {
    /// The 24-bit red-green-blue catalog entry.
    pub fn rgb24() -> (s: DecodingScheme)
        ensures
            is_rgb24(s),
            s.wf(),
    {
        let s = DecodingScheme {
            red: field_entries(23, 8),
            green: field_entries(15, 8),
            blue: field_entries(7, 8),
            bits_per_pixel: 24,
        };
        proof {
            lemma_field_indices_wf(23, 8, 24);
            lemma_field_indices_wf(15, 8, 24);
            lemma_field_indices_wf(7, 8, 24);
        }
        s
    }

    /// The 24-bit blue-green-red catalog entry.
    pub fn bgr24() -> (s: DecodingScheme)
        ensures
            is_bgr24(s),
            s.wf(),
    {
        let s = DecodingScheme {
            red: field_entries(7, 8),
            green: field_entries(15, 8),
            blue: field_entries(23, 8),
            bits_per_pixel: 24,
        };
        proof {
            lemma_field_indices_wf(23, 8, 24);
            lemma_field_indices_wf(15, 8, 24);
            lemma_field_indices_wf(7, 8, 24);
        }
        s
    }

    /// The 8-bit grayscale catalog entry.
    pub fn gray8() -> (s: DecodingScheme)
        ensures
            is_gray8(s),
            s.wf(),
    {
        let s = DecodingScheme {
            red: field_entries(7, 8),
            green: field_entries(7, 8),
            blue: field_entries(7, 8),
            bits_per_pixel: 8,
        };
        proof {
            lemma_field_indices_wf(7, 8, 8);
        }
        s
    }

    /// The packed 16-bit catalog entry.
    pub fn rgb565() -> (s: DecodingScheme)
        ensures
            is_rgb565(s),
            s.wf(),
    {
        let s = DecodingScheme {
            red: field_entries(15, 5),
            green: field_entries(10, 6),
            blue: field_entries(4, 5),
            bits_per_pixel: 16,
        };
        proof {
            lemma_field_indices_wf(15, 5, 16);
            lemma_field_indices_wf(10, 6, 16);
            lemma_field_indices_wf(4, 5, 16);
        }
        s
    }
}

impl Default for DecodingScheme {
    /// The scheme the viewer starts with: 24-bit red-green-blue.
    fn default() -> (s: Self)
        ensures
            is_rgb24(s),
            s.wf(),
    {
        DecodingScheme::rgb24()
    }
}

/// The wire form of one channel-table entry, as the flattened uniforms
/// hand it to a rendering backend: the bit index itself, or -1 for an
/// absent entry (and for an index too large for the wire, which no well
/// formed scheme holds).
pub open spec fn spec_index_wire_code(entry: Option<u32>) -> i32 {
    match entry {
        Some(k) => if k <= i32::MAX as u32 {
            k as i32
        } else {
            -1i32
        },
        None => -1i32,
    }
}

/// Flattens one channel-table entry for the backend's uniforms.
pub fn index_wire_code(entry: Option<u32>) -> (r: i32)
    ensures
        r == spec_index_wire_code(entry),
{
    match entry {
        Some(k) => {
            if k <= i32::MAX as u32 {
                k as i32
            } else {
                -1
            }
        },
        None => -1,
    }
}

/// Everything a rendering backend needs to draw one frame, owned by the
/// view: the packed transfer buffer, the residual bit offset into its
/// first word, the decoding table, and the width, magnification and grid
/// knobs. The buffer it hands out is never empty.
pub struct FragmentShaderProgram {
    target_width: u32,
    scale: u32,
    buffer: Vec<u32>,
    bit_offset: u32,
    decoding_scheme: DecodingScheme,
    grid: bool,
}

impl FragmentShaderProgram {
    pub closed spec fn spec_target_width(&self) -> u32 {
        self.target_width
    }

    pub closed spec fn spec_scale(&self) -> u32 {
        self.scale
    }

    pub closed spec fn spec_buffer(&self) -> Seq<u32> {
        self.buffer@
    }

    pub closed spec fn spec_bit_offset(&self) -> u32 {
        self.bit_offset
    }

    pub closed spec fn spec_decoding_scheme(&self) -> DecodingScheme {
        self.decoding_scheme
    }

    pub closed spec fn spec_grid(&self) -> bool {
        self.grid
    }

    /// The starting state: 300 pixels wide, unmagnified, one zero transfer
    /// word, no offset, 24-bit red-green-blue decoding, no grid.
    pub fn new() -> (p: Self)
        ensures
            p.spec_target_width() == 300,
            p.spec_scale() == 1,
            p.spec_buffer() == seq![0u32],
            p.spec_bit_offset() == 0,
            is_rgb24(p.spec_decoding_scheme()),
            p.spec_decoding_scheme().wf(),
            !p.spec_grid(),
    {
        let mut buffer: Vec<u32> = Vec::new();
        buffer.push(0u32);
        proof {
            assert(buffer@ =~= seq![0u32]);
        }
        FragmentShaderProgram {
            target_width: 300,
            scale: 1,
            buffer,
            bit_offset: 0,
            decoding_scheme: DecodingScheme::rgb24(),
            grid: false,
        }
    }

    pub fn set_target_width(&mut self, target_width: u32)
        ensures
            final(self).spec_target_width() == target_width,
            final(self).spec_scale() == old(self).spec_scale(),
            final(self).spec_buffer() == old(self).spec_buffer(),
            final(self).spec_bit_offset() == old(self).spec_bit_offset(),
            final(self).spec_decoding_scheme() == old(self).spec_decoding_scheme(),
            final(self).spec_grid() == old(self).spec_grid(),
    {
        self.target_width = target_width;
    }

    pub fn target_width(&self) -> (r: u32)
        ensures
            r == self.spec_target_width(),
    {
        self.target_width
    }

    pub fn set_scale(&mut self, scale: u32)
        ensures
            final(self).spec_scale() == scale,
            final(self).spec_target_width() == old(self).spec_target_width(),
            final(self).spec_buffer() == old(self).spec_buffer(),
            final(self).spec_bit_offset() == old(self).spec_bit_offset(),
            final(self).spec_decoding_scheme() == old(self).spec_decoding_scheme(),
            final(self).spec_grid() == old(self).spec_grid(),
    {
        self.scale = scale;
    }

    pub fn scale(&self) -> (r: u32)
        ensures
            r == self.spec_scale(),
    {
        self.scale
    }

    /// Replaces the transfer buffer; an empty one is replaced by a single
    /// zero word, so the backend never receives an empty buffer.
    pub fn set_buffer(&mut self, buffer: Vec<u32>)
        ensures
            (final(self).spec_buffer() == if buffer@.len() == 0 {
                seq![0u32]
            } else {
                buffer@
            }),
            final(self).spec_buffer().len() >= 1,
            final(self).spec_target_width() == old(self).spec_target_width(),
            final(self).spec_scale() == old(self).spec_scale(),
            final(self).spec_bit_offset() == old(self).spec_bit_offset(),
            final(self).spec_decoding_scheme() == old(self).spec_decoding_scheme(),
            final(self).spec_grid() == old(self).spec_grid(),
    {
        let mut buffer = buffer;
        if buffer.len() == 0 {
            buffer.push(0u32);
            proof {
                assert(buffer@ =~= seq![0u32]);
            }
        }
        self.buffer = buffer;
    }

    /// The packed transfer buffer; never empty.
    pub fn buffer(&self) -> (r: &Vec<u32>)
        ensures
            r@ == self.spec_buffer(),
    {
        &self.buffer
    }

    pub fn set_bit_offset(&mut self, bit_offset: u32)
        ensures
            final(self).spec_bit_offset() == bit_offset,
            final(self).spec_target_width() == old(self).spec_target_width(),
            final(self).spec_scale() == old(self).spec_scale(),
            final(self).spec_buffer() == old(self).spec_buffer(),
            final(self).spec_decoding_scheme() == old(self).spec_decoding_scheme(),
            final(self).spec_grid() == old(self).spec_grid(),
    {
        self.bit_offset = bit_offset;
    }

    /// The residual bit offset the decoder skips in the first word.
    pub fn bit_offset(&self) -> (r: u32)
        ensures
            r == self.spec_bit_offset(),
    {
        self.bit_offset
    }

    pub fn set_decoding_scheme(&mut self, decoding_scheme: DecodingScheme)
        ensures
            final(self).spec_decoding_scheme() == decoding_scheme,
            final(self).spec_target_width() == old(self).spec_target_width(),
            final(self).spec_scale() == old(self).spec_scale(),
            final(self).spec_buffer() == old(self).spec_buffer(),
            final(self).spec_bit_offset() == old(self).spec_bit_offset(),
            final(self).spec_grid() == old(self).spec_grid(),
    {
        self.decoding_scheme = decoding_scheme;
    }

    pub fn decoding_scheme(&self) -> (r: &DecodingScheme)
        ensures
            *r == self.spec_decoding_scheme(),
    {
        &self.decoding_scheme
    }

    pub fn set_grid(&mut self, grid: bool)
        ensures
            final(self).spec_grid() == grid,
            final(self).spec_target_width() == old(self).spec_target_width(),
            final(self).spec_scale() == old(self).spec_scale(),
            final(self).spec_buffer() == old(self).spec_buffer(),
            final(self).spec_bit_offset() == old(self).spec_bit_offset(),
            final(self).spec_decoding_scheme() == old(self).spec_decoding_scheme(),
    {
        self.grid = grid;
    }

    pub fn grid(&self) -> (r: bool)
        ensures
            r == self.spec_grid(),
    {
        self.grid
    }
}

/// A frozen copy of the program state for one frame in flight, taken when
/// a frame is drawn so later edits cannot race it.
pub struct FragmentShaderPrimitive {
    target_width: u32,
    scale: u32,
    buffer: Vec<u32>,
    decoding_scheme: DecodingScheme,
    bit_offset: u32,
}

impl FragmentShaderPrimitive {
    pub closed spec fn spec_target_width(&self) -> u32 {
        self.target_width
    }

    pub closed spec fn spec_scale(&self) -> u32 {
        self.scale
    }

    pub closed spec fn spec_buffer(&self) -> Seq<u32> {
        self.buffer@
    }

    pub closed spec fn spec_bit_offset(&self) -> u32 {
        self.bit_offset
    }

    pub closed spec fn spec_decoding_scheme(&self) -> DecodingScheme {
        self.decoding_scheme
    }

    pub fn new(
        target_width: u32,
        scale: u32,
        buffer: Vec<u32>,
        bit_offset: u32,
        decoding_scheme: DecodingScheme,
    ) -> (p: Self)
        ensures
            p.spec_target_width() == target_width,
            p.spec_scale() == scale,
            p.spec_buffer() == buffer@,
            p.spec_bit_offset() == bit_offset,
            p.spec_decoding_scheme() == decoding_scheme,
    {
        FragmentShaderPrimitive { target_width, scale, buffer, bit_offset, decoding_scheme }
    }
}

/// Whether every present index of the table is below `bits_per_pixel`.
fn channel_ok(entries: &[Option<u32>; 8], bits_per_pixel: u32) -> (ok: bool)
    ensures
        ok == channel_wf(entries@, bits_per_pixel),
{
    let mut i: usize = 0;
    while i < 8
        invariant
            i <= 8,
            forall|j: int|
                0 <= j < i ==> (#[trigger] entries@[j] matches Some(k) ==> k < bits_per_pixel),
        decreases 8 - i,
    {
        match entries[i] {
            Some(k) => {
                if k >= bits_per_pixel {
                    return false;
                }
            },
            None => {},
        }
        i = i + 1;
    }
    true
}

} // verus!
