// Tests for the camera follow/clamp algorithm.
//
// World coordinates use 20 sub-units per pixel. The viewport is the
// original 1024×768-px window (20480 × 15360 sub-units) and the zoom is
// 1/4, so the camera sees 256 × 192 px of world: half-extents 2560 and
// 1920 sub-units.

use weird_woods::camera::{follow_player, Viewport, Zoom};
use weird_woods::geometry::WorldPos;
use weird_woods::tilemap::GridSizing;

fn window() -> Viewport {
    Viewport { width: 20480, height: 15360 }
}

fn quarter() -> Zoom {
    Zoom { num: 1, den: 4 }
}

// A 64×48 grid of 16-px cells: world 20480 × 15360 sub-units.
fn big_world() -> GridSizing {
    GridSizing { cell_size: 320, grid_height: 48, grid_width: 64 }
}

#[test]
fn a_target_inside_the_bounds_is_followed_exactly() {
    let target = WorldPos::new(9000, 7000);
    let cam = follow_player(&target, &window(), &big_world(), &quarter());
    assert_eq!(cam, target);
}

#[test]
fn a_target_on_the_bounds_is_followed_exactly() {
    let min_corner = WorldPos::new(2560, 1920);
    let cam = follow_player(&min_corner, &window(), &big_world(), &quarter());
    assert_eq!(cam, min_corner);
    let max_corner = WorldPos::new(20480 - 2560, 15360 - 1920);
    let cam = follow_player(&max_corner, &window(), &big_world(), &quarter());
    assert_eq!(cam, max_corner);
}

#[test]
fn a_target_outside_the_world_is_clamped_to_the_bounds() {
    let cam = follow_player(&WorldPos::new(-100000, 7000), &window(), &big_world(), &quarter());
    assert_eq!(cam, WorldPos::new(2560, 7000));
    let cam = follow_player(&WorldPos::new(100000, 7000), &window(), &big_world(), &quarter());
    assert_eq!(cam, WorldPos::new(20480 - 2560, 7000));
    let cam = follow_player(&WorldPos::new(9000, -100000), &window(), &big_world(), &quarter());
    assert_eq!(cam, WorldPos::new(9000, 1920));
    let cam = follow_player(&WorldPos::new(9000, 100000), &window(), &big_world(), &quarter());
    assert_eq!(cam, WorldPos::new(9000, 15360 - 1920));
}

#[test]
fn each_axis_clamps_independently() {
    let cam = follow_player(&WorldPos::new(-100000, 100000), &window(), &big_world(), &quarter());
    assert_eq!(cam, WorldPos::new(2560, 15360 - 1920));
}

#[test]
fn zoom_scales_the_visible_world() {
    // At zoom 1 the full window is visible: half-extents 10240 and 7680.
    let full = Zoom { num: 1, den: 1 };
    let cam = follow_player(&WorldPos::new(0, 0), &window(), &big_world(), &full);
    assert_eq!(cam, WorldPos::new(10240, 7680));
}

#[test]
fn half_extents_round_down() {
    // Width 10 at zoom 1/4: effective 2, half-extent 1.
    let vp = Viewport { width: 10, height: 8 };
    let cam = follow_player(&WorldPos::new(0, 0), &vp, &big_world(), &quarter());
    assert_eq!(cam, WorldPos::new(1, 1));
}

#[test]
fn a_viewport_larger_than_the_world_pins_to_the_upper_bound() {
    // A 3×3-cell world (960 sub-units square) is smaller than the visible
    // area, so the ordered clamp degenerates: raise to min, then lower to
    // max, leaving max on both axes wherever the target was.
    let tiny = GridSizing { cell_size: 320, grid_height: 3, grid_width: 3 };
    let cam = follow_player(&WorldPos::new(480, 480), &window(), &tiny, &quarter());
    assert_eq!(cam, WorldPos::new(960 - 2560, 960 - 1920));
    let cam = follow_player(&WorldPos::new(-99999, 99999), &window(), &tiny, &quarter());
    assert_eq!(cam, WorldPos::new(960 - 2560, 960 - 1920));
}
