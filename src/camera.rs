use vstd::prelude::*;

verus! {

/// Direction of the primary ray through a pixel, before normalisation.
///
/// The camera sits at the origin and looks along `+z` at an image plane
/// `focal` units away, where `focal` is half the image height.
#[derive(Clone, Copy, Debug, PartialEq, Eq, Structural)]
pub struct PixelDirection {
    pub x: i64,
    pub y: i64,
    pub z: i64,
}

/// Distance from the camera to the image plane: half the image height,
/// rounded down.
pub open spec fn focal_length(height: nat) -> int {
    (height / 2) as int
}

/// The unnormalised direction through pixel `(x, y)` of a
/// `width` by `height` image: `(x - width/2, y - height/2, height/2)`,
/// each half rounded down.
pub fn pixel_direction(x: u32, y: u32, width: u32, height: u32) -> (d: PixelDirection)
    requires
        x < width,
        y < height,
    ensures
        d.x == x as int - (width / 2) as int,
        d.y == y as int - (height / 2) as int,
        d.z == focal_length(height as nat),
{
    PixelDirection {
        x: x as i64 - (width / 2) as i64,
        y: y as i64 - (height / 2) as i64,
        z: (height / 2) as i64,
    }
}

} // verus!
