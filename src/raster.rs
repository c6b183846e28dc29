use vstd::prelude::*;

verus! {

/// Coordinates of pixel number `i` of an image `width` pixels wide, when
/// pixels are counted row by row, each row left to right.
pub open spec fn raster_position(i: int, width: int) -> (int, int) {
    (i % width, i / width)
}

/// Every pixel `(x, y)` of a `width` by `height` image, row by row from
/// `y = 0`, each row from `x = 0` to `x = width - 1`.
pub fn raster_order(width: u32, height: u32) -> (coords: Vec<(u32, u32)>)
    requires
        width as int * height as int <= usize::MAX,
    ensures
        coords@.len() == width as int * height as int,
        forall|i: int|
            0 <= i < coords@.len() ==> {
                let (x, y) = #[trigger] coords@[i];
                (x as int, y as int) == raster_position(i, width as int)
            },
{
    let mut coords: Vec<(u32, u32)> = Vec::new();
    let mut y: u32 = 0;
    while y < height
        invariant
            y <= height,
            coords@.len() == y as int * width as int,
            forall|i: int|
                0 <= i < coords@.len() ==> {
                    let (px, py) = #[trigger] coords@[i];
                    (px as int, py as int) == raster_position(i, width as int)
                },
        decreases height - y,
    {
        let mut x: u32 = 0;
        while x < width
            invariant
                y < height,
                x <= width,
                coords@.len() == y as int * width as int + x as int,
                forall|i: int|
                    0 <= i < coords@.len() ==> {
                        let (px, py) = #[trigger] coords@[i];
                        (px as int, py as int) == raster_position(i, width as int)
                    },
            decreases width - x,
        {
            proof {
                lemma_raster_step(y as int, x as int, width as int);
            }
            coords.push((x, y));
            x = x + 1;
        }
        assert((y + 1) as int * width as int == y as int * width as int + width as int)
            by (nonlinear_arith);
        y = y + 1;
    }
    assert(height as int * width as int == width as int * height as int) by (nonlinear_arith);
    coords
}

/// Pixel number `y * width + x` sits at `(x, y)` when `x < width`.
proof fn lemma_raster_step(y: int, x: int, width: int)
    requires
        0 <= y,
        0 <= x < width,
    ensures
        raster_position(y * width + x, width) == (x, y),
{
    vstd::arithmetic::div_mod::lemma_fundamental_div_mod_converse(y * width + x, width, y, x);
}

} // verus!
