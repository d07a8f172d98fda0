//! Renders raster images and animations as coloured character frames that fill
//! a terminal grid.
//!
//! Everything here is computation on plain values: reading files, running the
//! decoder process and talking to the terminal are left to the program that
//! drives this library.
//!
//! - [`util::size`] fits a source into a grid, [`util::grayscale`] maps
//!   intensities to glyphs, and [`util::frame`] and [`util::imgparse`] render
//!   an image as a frame of coloured glyphs.
//! - [`util::cache`], [`util::record`], [`util::diagnostics`] and
//!   [`util::gif`] name the cache of an animation, read and write its record,
//!   and work out what a run of the decoder yields.
//! - [`renderer`] holds the two sources of frames, a still image and an
//!   animation, and [`engines`] the steps of the display loop.

pub mod config;
pub mod engines;
pub mod error;
pub mod renderer;
pub mod text;
pub mod util;
