//! The closed catalog of pixel formats the user can pick from. Each mode
//! carries no data of its own; selecting one yields the corresponding
//! [`DecodingScheme`] table, so new formats are pure data.

use vstd::prelude::*;

verus! {

use crate::shader::{is_bgr24, is_gray8, is_rgb24, is_rgb565, DecodingScheme};

/// A catalogued pixel format.
#[derive(Clone, Copy, Debug, PartialEq, Eq, Structural)]
pub enum PixelMode {
    Rgb,
    Bgr,
    Grayscale,
    Rgb565,
}

impl PixelMode {
    /// The decoding table of this format; always well formed.
    pub fn decoding_scheme(&self) -> (s: DecodingScheme)
        ensures
            s.wf(),
            (match *self {
                PixelMode::Rgb => is_rgb24(s),
                PixelMode::Bgr => is_bgr24(s),
                PixelMode::Grayscale => is_gray8(s),
                PixelMode::Rgb565 => is_rgb565(s),
            }),
    {
        match self {
            PixelMode::Rgb => DecodingScheme::rgb24(),
            PixelMode::Bgr => DecodingScheme::bgr24(),
            PixelMode::Grayscale => DecodingScheme::gray8(),
            PixelMode::Rgb565 => DecodingScheme::rgb565(),
        }
    }
}

} // verus!
