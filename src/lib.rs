//! Escape-time rendering of the Mandelbrot set: color quantization, pixel
//! painting of whole images and of horizontal bands, and argument parsing.

pub mod color;
pub mod parse;
pub mod raster;
pub mod render;
