//! Integer core of a small ray caster: the camera's per-pixel ray
//! direction, channel quantisation, raster order and the textual
//! pixel-map encoding of a rendered image.

pub mod quantize;
pub mod ppm;
pub mod camera;
pub mod raster;
