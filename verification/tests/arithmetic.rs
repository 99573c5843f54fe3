use poisson_webcam::arith::{div_ceil_u32, min_u32};
use poisson_webcam::canvas::{grid_dims, surface_size};
use poisson_webcam::dispatch::{calc_radii_dispatch, workgroup_count, DispatchSize};
use poisson_webcam::draw::{plot_draw, DrawCall};

#[test]
fn div_ceil_rounds_up() {
    assert_eq!(div_ceil_u32(10, 3), 4);
    assert_eq!(div_ceil_u32(9, 3), 3);
    assert_eq!(div_ceil_u32(0, 5), 0);
    assert_eq!(div_ceil_u32(1, 64), 1);
    assert_eq!(div_ceil_u32(u32::MAX, 1), u32::MAX);
    assert_eq!(div_ceil_u32(u32::MAX, 2), 2147483648);
    assert_eq!(div_ceil_u32(u32::MAX, u32::MAX), 1);
}

#[test]
fn min_picks_smaller() {
    assert_eq!(min_u32(3, 7), 3);
    assert_eq!(min_u32(7, 3), 3);
    assert_eq!(min_u32(5, 5), 5);
}

#[test]
fn workgroups_cover_a_vga_frame() {
    assert_eq!(workgroup_count([640, 480]), 4800);
    assert_eq!(workgroup_count([1, 1]), 1);
    assert_eq!(workgroup_count([65, 1]), 2);
    assert_eq!(workgroup_count([0, 480]), 0);
    assert_eq!(workgroup_count([65535, 65535]), 67106817);
}

#[test]
fn dispatch_of_small_grid_is_one_row() {
    assert_eq!(calc_radii_dispatch([640, 480]), DispatchSize { x: 4800, y: 1, z: 1 });
    assert_eq!(calc_radii_dispatch([1, 1]), DispatchSize { x: 1, y: 1, z: 1 });
}

#[test]
fn dispatch_of_empty_grid_is_empty() {
    assert_eq!(calc_radii_dispatch([0, 0]), DispatchSize { x: 0, y: 0, z: 1 });
    assert_eq!(calc_radii_dispatch([1920, 0]), DispatchSize { x: 0, y: 0, z: 1 });
}

#[test]
fn dispatch_of_large_grid_wraps_into_rows() {
    // 4096 * 1024 pixels = 65536 workgroups: two full rows.
    assert_eq!(calc_radii_dispatch([4096, 1024]), DispatchSize { x: 32768, y: 2, z: 1 });
    // one workgroup more needs a third row
    assert_eq!(calc_radii_dispatch([4097, 1024]), DispatchSize { x: 32768, y: 3, z: 1 });
    assert_eq!(calc_radii_dispatch([65535, 65535]), DispatchSize { x: 32768, y: 2048, z: 1 });
}

#[test]
fn dispatch_covers_every_pixel() {
    for dims in [[640u16, 480u16], [1920, 1080], [4097, 1024], [65535, 65535], [3, 7], [0, 9]] {
        let d = calc_radii_dispatch(dims);
        let pixels = dims[0] as u64 * dims[1] as u64;
        let invocations = d.x as u64 * d.y as u64 * d.z as u64 * 64;
        assert!(invocations >= pixels);
        assert!(d.x <= 32768);
        assert!(d.y <= 2048);
        if pixels > 0 {
            let groups = (pixels + 63) / 64;
            assert!((d.x as u64) * (d.y as u64 - 1) < groups);
        }
    }
}

#[test]
fn plot_draws_three_vertices_per_point() {
    assert_eq!(
        plot_draw(5),
        DrawCall { first_vertex: 0, vertex_end: 15, first_instance: 0, instance_end: 1 }
    );
    assert_eq!(
        plot_draw(0),
        DrawCall { first_vertex: 0, vertex_end: 0, first_instance: 0, instance_end: 1 }
    );
    assert_eq!(plot_draw(u32::MAX / 3).vertex_end, u32::MAX);
}

#[test]
fn grid_takes_canvas_size() {
    assert_eq!(grid_dims(640, 480), [640, 480]);
    assert_eq!(grid_dims(65535, 1), [65535, 1]);
    assert_eq!(surface_size(grid_dims(1280, 720)), (1280, 720));
}

#[test]
fn grid_truncates_oversized_canvas() {
    assert_eq!(grid_dims(70000, 65536), [4464, 0]);
    assert_eq!(surface_size([4464, 0]), (4464, 0));
}
