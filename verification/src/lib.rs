//! Bit-accurate model of a binary-file pseudo-image viewer.
//!
//! A file is rendered as an image by mapping a configurable bit layout onto
//! RGB pixels. This crate holds the decoding and navigation core: the
//! [`shader::DecodingScheme`] table that routes source bits to colour-channel
//! bits, the [`preview::Preview`] navigation state with its line geometry,
//! the byte-window extraction and big-endian word packing of
//! [`window::window`], the scrollbar mapping of [`scrollbar`], and the pure
//! per-pixel decoder of [`render`] that a rendering backend must agree with.

pub mod bits;
pub mod pixel_mode;
pub mod preview;
pub mod render;
pub mod scrollbar;
pub mod shader;
pub mod window;
