//! How the radius pass is dispatched over the pixel grid.
use vstd::prelude::*;
use crate::arith::{ceil_div, div_ceil_u32, lemma_ceil_div_is_least_cover, min_u32};

verus! {

/// Invocations in one workgroup of the radius compute shader.
pub const WORKGROUP_SIZE: u32 = 64;

/// The most workgroups the radius pass puts along the first dimension.
pub const MAX_GROUPS_X: u32 = 32768;

/// A compute dispatch: workgroup counts along x, y and z.
#[derive(Clone, Copy, Debug, PartialEq, Eq, Structural)]
pub struct DispatchSize {
    pub x: u32,
    pub y: u32,
    pub z: u32,
}

/// Number of pixels of a grid of the given width and height.
pub open spec fn pixel_count(dims: [u16; 2]) -> int {
    dims[0] as int * dims[1] as int
}

/// Workgroups needed so that every pixel gets one invocation.
pub open spec fn spec_workgroup_count(dims: [u16; 2]) -> int {
    ceil_div(pixel_count(dims), WORKGROUP_SIZE as int)
}

/// The smaller of two integers.
pub open spec fn min_int(a: int, b: int) -> int {
    if a <= b { a } else { b }
}

/// The dispatch of the radius pass: rows of at most 32768 workgroups, as
/// many rows as needed, one layer.
pub open spec fn spec_calc_radii_dispatch(dims: [u16; 2]) -> DispatchSize {
    let wc = spec_workgroup_count(dims);
    DispatchSize {
        x: min_int(wc, MAX_GROUPS_X as int) as u32,
        y: ceil_div(wc, MAX_GROUPS_X as int) as u32,
        z: 1,
    }
}

/// The number of workgroups covering the grid: pixels / 64, rounded up.
pub fn workgroup_count(dims: [u16; 2]) -> (n: u32)
    ensures
        n == spec_workgroup_count(dims),
{
    let w = dims[0] as u32;
    let h = dims[1] as u32;
    proof {
        assert(w * h <= 65535 * 65535) by (nonlinear_arith)
            requires w <= 65535, h <= 65535;
    }
    div_ceil_u32(w * h, WORKGROUP_SIZE)
}

/// The workgroup count is the least number of 64-invocation workgroups that
/// gives every pixel an invocation.
pub proof fn lemma_workgroup_count_is_least_cover(dims: [u16; 2])
    ensures
        spec_workgroup_count(dims) * WORKGROUP_SIZE as int >= pixel_count(dims),
        pixel_count(dims) > 0 ==> pixel_count(dims)
            > (spec_workgroup_count(dims) - 1) * (WORKGROUP_SIZE as int),
        pixel_count(dims) == 0 ==> spec_workgroup_count(dims) == 0,
{
    let p = pixel_count(dims);
    assert(p >= 0) by (nonlinear_arith)
        requires p == dims[0] as int * dims[1] as int, dims[0] >= 0, dims[1] >= 0;
    lemma_ceil_div_is_least_cover(p, 64);
}

/// Every pixel of the grid gets an invocation, the counts stay within the
/// per-dimension limits, one layer is used, and no row of workgroups is
/// wasted.
pub open spec fn dispatch_fits_grid(d: DispatchSize, dims: [u16; 2]) -> bool {
    &&& d.x as int * d.y as int * d.z as int * WORKGROUP_SIZE as int >= pixel_count(dims)
    &&& d.x <= MAX_GROUPS_X
    &&& d.y <= 2048
    &&& d.z == 1
    &&& pixel_count(dims) > 0 ==> d.x as int * (d.y as int - 1) < spec_workgroup_count(dims)
    &&& pixel_count(dims) == 0 ==> d.x == 0 && d.y == 0
}

/// The radius pass dispatch fits its grid.
pub proof fn lemma_calc_radii_dispatch_fits(dims: [u16; 2])
    ensures
        dispatch_fits_grid(spec_calc_radii_dispatch(dims), dims),
        spec_workgroup_count(dims) <= 67106817,
{
    let p = pixel_count(dims);
    let wc = spec_workgroup_count(dims);
    assert(p <= 65535 * 65535) by (nonlinear_arith)
        requires p == dims[0] as int * dims[1] as int, dims[0] <= 65535, dims[1] <= 65535;
    assert(p >= 0) by (nonlinear_arith)
        requires p == dims[0] as int * dims[1] as int, dims[0] >= 0, dims[1] >= 0;
    lemma_ceil_div_is_least_cover(p, 64);
    assert(0 <= wc <= 67106817);
    lemma_ceil_div_is_least_cover(wc, 32768);
    let x = min_int(wc, 32768);
    let y = ceil_div(wc, 32768);
    assert(y <= 2048);
    let d = spec_calc_radii_dispatch(dims);
    assert(d.x == x && d.y == y);
    if wc <= 32768 {
        assert(wc == 0 || y == 1);
        assert(x * y == wc) by (nonlinear_arith)
            requires x == wc, (wc == 0 ==> y == 0), (wc != 0 ==> y == 1);
    } else {
        assert(x * y >= wc) by (nonlinear_arith)
            requires x == 32768, y * 32768 >= wc;
    }
    assert(x * y * 1 * 64 >= p) by (nonlinear_arith)
        requires x * y >= wc, wc * 64 >= p;
    if p > 0 {
        if wc <= 32768 {
            assert(x * (y - 1) < wc) by (nonlinear_arith)
                requires x == wc, y == 1, wc > 0;
        } else {
            assert(x * (y - 1) < wc) by (nonlinear_arith)
                requires x == 32768, (y - 1) * 32768 < wc;
        }
    }
}

/// The dispatch of the radius pass over a grid of size `dims`: the
/// workgroups are laid out in rows of at most 32768, with as many rows as
/// needed, in one layer.
pub fn calc_radii_dispatch(dims: [u16; 2]) -> (d: DispatchSize)
    ensures
        d == spec_calc_radii_dispatch(dims),
        d.x == min_int(spec_workgroup_count(dims), MAX_GROUPS_X as int),
        d.y == ceil_div(spec_workgroup_count(dims), MAX_GROUPS_X as int),
        d.z == 1,
        // every pixel has an invocation
        d.x as int * d.y as int * d.z as int * WORKGROUP_SIZE as int >= pixel_count(dims),
        // within the per-dimension limits
        d.x <= MAX_GROUPS_X,
        d.y <= 2048,
        // no row of workgroups is wasted
        pixel_count(dims) > 0 ==> d.x as int * (d.y as int - 1) < spec_workgroup_count(dims),
        pixel_count(dims) == 0 ==> d.x == 0 && d.y == 0,
{
    let wc = workgroup_count(dims);
    let x = min_u32(wc, MAX_GROUPS_X);
    let y = div_ceil_u32(wc, MAX_GROUPS_X);
    proof {
        lemma_calc_radii_dispatch_fits(dims);
    }
    DispatchSize { x, y, z: 1 }
}

} // verus!
