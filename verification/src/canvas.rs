//! The sampling grid takes its size from the canvas, which takes it from the
//! webcam video.
use vstd::prelude::*;

verus! {

/// The grid size for a canvas of `width` by `height` pixels: each side kept
/// to its low 16 bits.
pub open spec fn spec_grid_dims(width: u32, height: u32) -> [u16; 2] {
    [(width % 65536) as u16, (height % 65536) as u16]
}

/// The grid size for a canvas: each side truncated to 16 bits, as the
/// sampler takes 16-bit sides.
pub fn grid_dims(width: u32, height: u32) -> (d: [u16; 2])
    ensures
        d == spec_grid_dims(width, height),
        d[0] == width % 65536,
        d[1] == height % 65536,
{
    let w = width as u16;
    let h = height as u16;
    proof {
        assert(w as u32 == width % 65536) by (bit_vector)
            requires w == width as u16;
        assert(h as u32 == height % 65536) by (bit_vector)
            requires h == height as u16;
    }
    let d = [w, h];
    assert(d == spec_grid_dims(width, height));
    d
}

/// The size the drawing surface is configured with: the grid size widened
/// back to 32 bits.
pub fn surface_size(dims: [u16; 2]) -> (s: (u32, u32))
    ensures
        s.0 == dims[0],
        s.1 == dims[1],
{
    (dims[0] as u32, dims[1] as u32)
}

/// A canvas whose sides fit in 16 bits gets a surface of its own size.
pub proof fn lemma_surface_matches_small_canvas(width: u32, height: u32)
    requires
        width < 65536,
        height < 65536,
    ensures
        spec_grid_dims(width, height)[0] == width,
        spec_grid_dims(width, height)[1] == height,
{
}

} // verus!
