//! Navigation state of the viewer: the absolute bit offset into the file,
//! the viewport geometry and the shared file bytes, with the derived line
//! arithmetic and the line-based and bit-based scrolling operations. The
//! bit offset is the single source of truth: changing the width or scale
//! knobs never re-snaps it.

use vstd::prelude::*;

verus! {

use vstd::arithmetic::div_mod::{lemma_fundamental_div_mod, lemma_fundamental_div_mod_converse};
use vstd::arithmetic::mul::{lemma_mul_inequality, lemma_mul_upper_bound};
use crate::shader::{DecodingScheme, FragmentShaderProgram};
use crate::window::{spec_window, window};

/// One decoded colour, eight bits per channel.
#[derive(Clone, Copy, Debug, PartialEq, Eq, Structural)]
pub struct Pixel {
    pub red: u8,
    pub green: u8,
    pub blue: u8,
}

/// The view into the loaded file: where rendering begins (in bits), how
/// large the viewport is, the file bytes themselves, and the program state
/// handed to the rendering backend.
pub struct Preview {
    pub start_bit: u64,
    pub frame_height: u32,
    pub frame_width: u32,
    pub file_data: Vec<u8>,
    pub program: FragmentShaderProgram,
}

impl Preview {
    pub open spec fn spec_start_bit(&self) -> u64 {
        self.start_bit
    }

    pub open spec fn spec_frame_width(&self) -> u32 {
        self.frame_width
    }

    pub open spec fn spec_frame_height(&self) -> u32 {
        self.frame_height
    }

    pub open spec fn spec_file(&self) -> Seq<u8> {
        self.file_data@
    }

    /// The file's bit length fits a 64-bit count; established when file
    /// bytes are taken in and preserved by every operation.
    pub open spec fn wf(&self) -> bool {
        self.spec_file().len() * 8 <= u64::MAX
    }

    pub open spec fn spec_file_bits(&self) -> int {
        self.spec_file().len() * 8int
    }

    /// Bits spanned by one rendered line of `target_width` pixels.
    pub open spec fn spec_bits_per_line(&self) -> int {
        self.program.spec_target_width() * self.program.spec_decoding_scheme().bits_per_pixel
    }

    /// Whole lines the file holds; 0 when a line spans no bits.
    pub open spec fn spec_total_lines(&self) -> int {
        if self.spec_bits_per_line() == 0 {
            0
        } else {
            self.spec_file_bits() / self.spec_bits_per_line()
        }
    }

    /// The line the start bit lies in; 0 when a line spans no bits.
    pub open spec fn spec_current_line(&self) -> int {
        if self.spec_bits_per_line() == 0 {
            0
        } else {
            self.spec_start_bit() as int / self.spec_bits_per_line()
        }
    }

    /// The fine bit offset within the current line, dialled in separately
    /// from line scrolling and preserved by it.
    pub open spec fn spec_remainder(&self) -> int {
        if self.spec_bits_per_line() == 0 {
            0
        } else {
            self.spec_start_bit() as int % self.spec_bits_per_line()
        }
    }

    /// Where scrolling to `line` lands: the line clamped to the file's
    /// total, times the line width, plus the preserved fine bit remainder.
    pub open spec fn spec_line_target(&self, line: int) -> int {
        let clamped = if line <= self.spec_total_lines() {
            line
        } else {
            self.spec_total_lines()
        };
        clamped * self.spec_bits_per_line() + self.spec_remainder()
    }

    /// The line a relative scroll of `delta` aims at: the current line
    /// moved by `delta` many lines (negative `delta` moves forward, as a
    /// wheel notch does), saturating at both ends of the 64-bit range.
    pub open spec fn spec_scroll_target(&self, delta: i64) -> int {
        let cur = self.spec_current_line();
        if delta < 0 {
            if cur - delta <= u64::MAX as int {
                cur - delta
            } else {
                u64::MAX as int
            }
        } else {
            if cur - delta >= 0 {
                cur - delta
            } else {
                0
            }
        }
    }

    /// The program's transfer buffer and residual bit offset mirror the
    /// current file, start bit and viewport.
    pub open spec fn program_synced(&self) -> bool {
        &&& self.program.spec_buffer() == spec_window(
            self.spec_file(),
            self.spec_start_bit() as int,
            self.spec_frame_width() as int,
            self.spec_frame_height() as int,
            self.program.spec_decoding_scheme().bits_per_pixel as int,
        )
        &&& self.program.spec_bit_offset() as int == self.spec_start_bit() as int % 8
    }

    /// The knobs that no navigation operation touches.
    pub open spec fn same_view_knobs(&self, other: &Preview) -> bool {
        &&& self.spec_frame_width() == other.spec_frame_width()
        &&& self.spec_frame_height() == other.spec_frame_height()
        &&& self.program.spec_target_width() == other.program.spec_target_width()
        &&& self.program.spec_scale() == other.program.spec_scale()
        &&& self.program.spec_decoding_scheme() == other.program.spec_decoding_scheme()
        &&& self.program.spec_grid() == other.program.spec_grid()
    }

    pub fn set_grid(&mut self, grid: bool)
        ensures
            final(self).program.spec_grid() == grid,
            final(self).spec_start_bit() == old(self).spec_start_bit(),
            final(self).spec_file() == old(self).spec_file(),
            final(self).spec_frame_width() == old(self).spec_frame_width(),
            final(self).spec_frame_height() == old(self).spec_frame_height(),
            final(self).program.spec_target_width() == old(self).program.spec_target_width(),
            final(self).program.spec_scale() == old(self).program.spec_scale(),
            final(self).program.spec_decoding_scheme() == old(self).program.spec_decoding_scheme(),
            final(self).program.spec_buffer() == old(self).program.spec_buffer(),
            final(self).program.spec_bit_offset() == old(self).program.spec_bit_offset(),
    {
        self.program.set_grid(grid);
    }

    pub fn grid(&self) -> (r: bool)
        ensures
            r == self.program.spec_grid(),
    {
        self.program.grid()
    }

    /// Sets the absolute bit position directly, without clamping: a start
    /// past the end of the file is legitimate and resolves to zero-padded
    /// output, not an error. Recomputes the program's transfer buffer.
    pub fn set_start_bit(&mut self, offset: u64)
        ensures
            final(self).spec_start_bit() == offset,
            final(self).spec_file() == old(self).spec_file(),
            old(self).same_view_knobs(final(self)),
            final(self).program_synced(),
    {
        self.start_bit = offset;
        self.update_program_buffer();
    }

    pub fn start_bit(&self) -> (r: u64)
        ensures
            r == self.spec_start_bit(),
    {
        self.start_bit
    }

    pub fn file_data(&self) -> (r: &[u8])
        ensures
            r@ == self.spec_file(),
    {
        self.file_data.as_slice()
    }

    /// Bits spanned by one rendered line.
    pub fn bits_per_line(&self) -> (r: u64)
        ensures
            r as int == self.spec_bits_per_line(),
    {
        proof {
            lemma_mul_upper_bound(
                self.program.spec_target_width() as int,
                u32::MAX as int,
                self.program.spec_decoding_scheme().bits_per_pixel as int,
                u32::MAX as int,
            );
        }
        (self.program.target_width() as u64) * (self.program.decoding_scheme().bits_per_pixel
            as u64)
    }

    pub fn scale(&self) -> (r: u32)
        ensures
            r == self.program.spec_scale(),
    {
        self.program.scale()
    }

    pub fn set_scale(&mut self, scale: u32)
        ensures
            final(self).program.spec_scale() == scale,
            final(self).spec_start_bit() == old(self).spec_start_bit(),
            final(self).spec_file() == old(self).spec_file(),
            final(self).spec_frame_width() == old(self).spec_frame_width(),
            final(self).spec_frame_height() == old(self).spec_frame_height(),
            final(self).program.spec_target_width() == old(self).program.spec_target_width(),
            final(self).program.spec_decoding_scheme() == old(self).program.spec_decoding_scheme(),
            final(self).program.spec_buffer() == old(self).program.spec_buffer(),
            final(self).program.spec_bit_offset() == old(self).program.spec_bit_offset(),
            final(self).program.spec_grid() == old(self).program.spec_grid(),
    {
        self.program.set_scale(scale)
    }

    /// Sets the pixels-per-line knob. The bit offset is not re-snapped:
    /// the meaning of the current and total line changes on the next
    /// query instead.
    pub fn set_target_width(&mut self, width: u32)
        ensures
            final(self).program.spec_target_width() == width,
            final(self).spec_start_bit() == old(self).spec_start_bit(),
            final(self).spec_file() == old(self).spec_file(),
            final(self).spec_frame_width() == old(self).spec_frame_width(),
            final(self).spec_frame_height() == old(self).spec_frame_height(),
            final(self).program.spec_scale() == old(self).program.spec_scale(),
            final(self).program.spec_decoding_scheme() == old(self).program.spec_decoding_scheme(),
            final(self).program.spec_buffer() == old(self).program.spec_buffer(),
            final(self).program.spec_bit_offset() == old(self).program.spec_bit_offset(),
            final(self).program.spec_grid() == old(self).program.spec_grid(),
    {
        self.program.set_target_width(width)
    }

    pub fn target_width(&self) -> (r: u32)
        ensures
            r == self.program.spec_target_width(),
    {
        self.program.target_width()
    }

    pub fn set_frame_height(&mut self, frame_height: u32)
        ensures
            final(self).spec_frame_height() == frame_height,
            final(self).spec_start_bit() == old(self).spec_start_bit(),
            final(self).spec_file() == old(self).spec_file(),
            final(self).spec_frame_width() == old(self).spec_frame_width(),
            final(self).program == old(self).program,
    {
        self.frame_height = frame_height;
    }

    pub fn set_frame_width(&mut self, frame_width: u32)
        ensures
            final(self).spec_frame_width() == frame_width,
            final(self).spec_start_bit() == old(self).spec_start_bit(),
            final(self).spec_file() == old(self).spec_file(),
            final(self).spec_frame_height() == old(self).spec_frame_height(),
            final(self).program == old(self).program,
    {
        self.frame_width = frame_width;
    }

    /// Whole lines the file holds at the current line width; 0 when the
    /// line width is 0 rather than a division error.
    pub fn total_lines(&self) -> (r: u64)
        requires
            self.wf(),
        ensures
            r as int == self.spec_total_lines(),
    {
        let bits: u64 = (self.file_data.len() as u64) * 8;
        let bpl = self.bits_per_line();
        if bpl == 0 {
            0
        } else {
            bits / bpl
        }
    }

    /// The line the start bit lies in; 0 when the line width is 0.
    pub fn current_line(&self) -> (r: u64)
        ensures
            r as int == self.spec_current_line(),
    {
        let bpl = self.bits_per_line();
        if bpl == 0 {
            0
        } else {
            self.start_bit / bpl
        }
    }

    /// Scrolls to a whole line: the requested line is clamped to the
    /// file's total, while the fine bit offset within the line — dialled
    /// in separately — is preserved, keeping the coarse and fine controls
    /// independent. When the clamped target exists in the 64-bit range
    /// (everywhere but astronomically far navigation states), the current
    /// line afterwards is exactly the clamped request and the remainder is
    /// unchanged.
    pub fn go_to_line(&mut self, line: u64)
        requires
            old(self).wf(),
        ensures
            final(self).wf(),
            final(self).spec_file() == old(self).spec_file(),
            old(self).same_view_knobs(final(self)),
            final(self).program_synced(),
            (final(self).spec_start_bit() as int == if old(self).spec_line_target(line as int)
                <= u64::MAX as int {
                old(self).spec_line_target(line as int)
            } else {
                u64::MAX as int
            }),
            old(self).spec_line_target(line as int) <= u64::MAX as int ==> {
                &&& final(self).spec_current_line() == (if line as int <= old(
                    self,
                ).spec_total_lines() {
                    line as int
                } else {
                    old(self).spec_total_lines()
                })
                &&& final(self).spec_remainder() == old(self).spec_remainder()
            },
    {
        let bpl = self.bits_per_line();
        let remainder: u64 = if bpl == 0 {
            0
        } else {
            self.start_bit % bpl
        };
        let total = self.total_lines();
        let clamped: u64 = if line > total {
            total
        } else {
            line
        };
        proof {
            if bpl != 0 {
                lemma_fundamental_div_mod(old(self).spec_file_bits(), bpl as int);
                lemma_mul_inequality(clamped as int, total as int, bpl as int);
            }
        }
        let base: u64 = clamped * bpl;
        let new_offset: u64 = if remainder <= u64::MAX - base {
            base + remainder
        } else {
            u64::MAX
        };
        self.set_start_bit(new_offset);
        proof {
            if bpl != 0 && old(self).spec_line_target(line as int) <= u64::MAX as int {
                lemma_fundamental_div_mod_converse(
                    new_offset as int,
                    bpl as int,
                    clamped as int,
                    remainder as int,
                );
            }
        }
    }

    /// Scrolls by a relative number of lines: negative `delta` moves
    /// forward through the file, positive moves back, saturating at line 0
    /// on the low end.
    pub fn scroll_by_lines(&mut self, delta: i64)
        requires
            old(self).wf(),
        ensures
            final(self).wf(),
            final(self).spec_file() == old(self).spec_file(),
            old(self).same_view_knobs(final(self)),
            final(self).program_synced(),
            (final(self).spec_start_bit() as int == {
                let target = old(self).spec_line_target(old(self).spec_scroll_target(delta));
                if target <= u64::MAX as int {
                    target
                } else {
                    u64::MAX as int
                }
            }),
    {
        let cur = self.current_line();
        let target: u64 = if delta >= 0 {
            let d = delta as u64;
            if cur >= d {
                cur - d
            } else {
                0
            }
        } else {
            let d: u64 = if delta == i64::MIN {
                0x8000_0000_0000_0000u64
            } else {
                (-delta) as u64
            };
            if cur <= u64::MAX - d {
                cur + d
            } else {
                u64::MAX
            }
        };
        assert(target as int == self.spec_scroll_target(delta));
        self.go_to_line(target);
    }

    /// Takes in a new file image. The caller keeps the file's bit length
    /// inside the 64-bit range, the one machine limit of the model.
    pub fn set_file_data(&mut self, data: Vec<u8>)
        requires
            data@.len() * 8 <= u64::MAX,
        ensures
            final(self).wf(),
            final(self).spec_file() == data@,
            final(self).spec_start_bit() == old(self).spec_start_bit(),
            old(self).same_view_knobs(final(self)),
            final(self).program_synced(),
    {
        self.file_data = data;
        self.update_program_buffer();
    }

    /// Drops the file: the view renders an empty (zero-padded) buffer.
    pub fn clear(&mut self)
        ensures
            final(self).wf(),
            final(self).spec_file().len() == 0,
            final(self).spec_start_bit() == old(self).spec_start_bit(),
            old(self).same_view_knobs(final(self)),
            final(self).program_synced(),
    {
        self.set_file_data(Vec::new());
    }

    /// Swaps the decoding scheme atomically. The transfer buffer is not
    /// recomputed here; the next navigation or file change refreshes it.
    pub fn set_decoding_scheme(&mut self, decoding_scheme: &DecodingScheme)
        ensures
            final(self).program.spec_decoding_scheme() == *decoding_scheme,
            final(self).spec_start_bit() == old(self).spec_start_bit(),
            final(self).spec_file() == old(self).spec_file(),
            final(self).spec_frame_width() == old(self).spec_frame_width(),
            final(self).spec_frame_height() == old(self).spec_frame_height(),
            final(self).program.spec_target_width() == old(self).program.spec_target_width(),
            final(self).program.spec_scale() == old(self).program.spec_scale(),
            final(self).program.spec_buffer() == old(self).program.spec_buffer(),
            final(self).program.spec_bit_offset() == old(self).program.spec_bit_offset(),
            final(self).program.spec_grid() == old(self).program.spec_grid(),
    {
        self.program.set_decoding_scheme(decoding_scheme.clone());
    }

    pub fn decoding_scheme(&self) -> (r: &DecodingScheme)
        ensures
            *r == self.program.spec_decoding_scheme(),
    {
        self.program.decoding_scheme()
    }

    /// Recomputes the packed transfer buffer and residual bit offset from
    /// the current file, start bit and viewport, and hands them to the
    /// program.
    fn update_program_buffer(&mut self)
        ensures
            final(self).spec_start_bit() == old(self).spec_start_bit(),
            final(self).spec_file() == old(self).spec_file(),
            old(self).same_view_knobs(final(self)),
            final(self).program_synced(),
    {
        let bits_per_pixel = self.program.decoding_scheme().bits_per_pixel;
        let (buf, bit_offset) = window(
            &self.file_data,
            self.start_bit,
            self.frame_width,
            self.frame_height,
            bits_per_pixel,
        );
        self.program.set_bit_offset(bit_offset);
        self.program.set_buffer(buf);
    }
}

impl Default for Preview {
    /// The starting view: no file, zero-sized frame, start bit 0, and the
    /// program's own starting state.
    fn default() -> (p: Self)
        ensures
            p.wf(),
            p.spec_start_bit() == 0,
            p.spec_frame_width() == 0,
            p.spec_frame_height() == 0,
            p.spec_file().len() == 0,
            p.program.spec_target_width() == 300,
            p.program.spec_scale() == 1,
            p.program.spec_buffer() == seq![0u32],
            p.program.spec_bit_offset() == 0,
            crate::shader::is_rgb24(p.program.spec_decoding_scheme()),
            p.program.spec_decoding_scheme().wf(),
            !p.program.spec_grid(),
    {
        Preview {
            frame_height: 0,
            frame_width: 0,
            start_bit: 0,
            program: FragmentShaderProgram::new(),
            file_data: Vec::new(),
        }
    }
}

} // verus!
