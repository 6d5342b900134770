//! Verified core of a small windowed demo: a triangle or a textured quad that
//! slides across the window, one step per frame, until the window is closed.
//!
//! Everything the demo decides lives here and is proved with Verus: how the
//! offset advances and wraps, what each frame draws, when the loop ends, which
//! vertices and indices are uploaded, which PNG files are handed to the
//! decoder, and how a decoded image is laid out for the GPU. Opening the
//! window, reading files and talking to the GPU are left to the program built
//! around this crate.
//!
//! Coordinates, colours and offsets are fixed-point integers counted in
//! ten-thousandths (see [`units`]), so that every value of the demo is exact.

pub mod animation;
pub mod fps;
pub mod frame;
pub mod geometry;
pub mod png_layout;
pub mod render_loop;
pub mod texture;
pub mod transform;
pub mod units;
