//! Escape-time fractal images (Julia and Mandelbrot sets) rendered into an
//! RGB pixel buffer.
//!
//! The floating-point orbit of each point is computed by the caller; this
//! library holds the integer logic around it: when an orbit counts as escaped,
//! how the escape step becomes a brightness byte, contrast, coloring, and the
//! filling of the pixel buffer.
pub mod color;
pub mod escape;
pub mod pixels;
pub mod render;
