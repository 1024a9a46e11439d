//! Verified core of a software 3D renderer: color arithmetic, a depth-tested
//! framebuffer, primitive assembly, an exact barycentric rasterizer, and the
//! camera's control surface (dirty flag and input decisions).
//!
//! Floating-point work (vertex transforms, noise-driven shading, attribute
//! interpolation) lives in the surrounding application; the library works on
//! plain integer values: 8-bit color channels, integer screen coordinates,
//! exact barycentric weights, and order-preserving integer depth keys.

pub mod assembly;
pub mod camera;
pub mod color;
pub mod framebuffer;
pub mod raster;
