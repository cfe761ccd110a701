use hexmap::fixed::FRAC_ONE;
use hexmap::hex::HexCell;
use hexmap::mouse::{tracking, update_tile, MousePos, ScreenPos, WorldPos};

const ONE: i64 = FRAC_ONE;

fn sp(x: i64, y: i64) -> ScreenPos {
    ScreenPos { x: x * ONE, y: y * ONE }
}

fn wp(x: i64, y: i64, z: i64) -> WorldPos {
    WorldPos { x: x * ONE, y: y * ONE, z: z * ONE }
}

#[test]
fn click_fires_within_radius() {
    let mut m = MousePos::new();
    m.begin_frame();
    m.on_press(sp(0, 0), true);
    // squared distance 2^2 + 1^2 = 5 <= 10
    m.on_release(sp(2, 1), true);
    assert!(m.click);
    assert!(m.click_started.is_none());
    // Edge-triggered: the flag lasts exactly one cycle.
    m.begin_frame();
    assert!(!m.click);
}

#[test]
fn click_fires_at_exact_threshold() {
    let mut m = MousePos::new();
    m.on_press(sp(0, 0), true);
    // squared distance 3^2 + 1^2 = 10, the boundary, still a click
    m.on_release(sp(3, 1), true);
    assert!(m.click);
}

#[test]
fn release_outside_radius_is_no_click() {
    let mut m = MousePos::new();
    m.on_press(sp(0, 0), true);
    // squared distance 3^2 + 2^2 = 13 > 10
    m.on_release(sp(3, 2), true);
    assert!(!m.click);
    assert!(m.click_started.is_none());
}

#[test]
fn drag_cancels_click_even_when_release_returns() {
    let mut m = MousePos::new();
    m.on_press(sp(0, 0), true);
    // A wide move: squared distance 16 > 10 cancels the pending click.
    m.on_move(sp(4, 0), wp(0, 0, 0));
    assert!(m.click_started.is_none());
    // Releasing back at the press origin must not fire.
    m.on_release(sp(0, 0), true);
    assert!(!m.click);
}

#[test]
fn small_move_keeps_click_pending() {
    let mut m = MousePos::new();
    m.on_press(sp(0, 0), true);
    m.on_move(sp(1, 0), wp(0, 0, 0));
    assert!(m.click_started.is_some());
    m.on_release(sp(0, 0), true);
    assert!(m.click);
}

#[test]
fn pointer_leaving_clears_press() {
    let mut m = MousePos::new();
    m.on_move(sp(0, 0), wp(0, 0, 0));
    assert!(m.on_screen);
    m.on_press(sp(0, 0), true);
    m.on_out();
    assert!(!m.on_screen);
    assert!(m.click_started.is_none());
    m.on_release(sp(0, 0), true);
    assert!(!m.click);
}

#[test]
fn secondary_button_does_not_start_click() {
    let mut m = MousePos::new();
    m.on_press(sp(0, 0), false);
    assert!(m.click_started.is_none());
    m.on_release(sp(0, 0), true);
    assert!(!m.click);
}

#[test]
fn second_press_keeps_first_origin() {
    let mut m = MousePos::new();
    m.on_press(sp(0, 0), true);
    m.on_press(sp(5, 5), true);
    // The first origin stands, so releasing next to it clicks.
    m.on_release(sp(1, 0), true);
    assert!(m.click);
}

#[test]
fn move_updates_hovered_cell() {
    let mut m = MousePos::new();
    m.on_move(sp(0, 0), wp(1, 0, 0));
    assert_eq!(m.hex_cell, HexCell { x: 1, y: 0, z: -1 });
}

#[test]
fn tracking_skips_parallel_ray() {
    let origin = wp(0, 10, 0);
    let level = wp(1, 0, 0);
    assert!(tracking(origin, level).is_none());
}

#[test]
fn tracking_hits_ground_plane() {
    let origin = wp(0, 10, 0);
    let down = wp(0, -1, 0);
    let hit = tracking(origin, down).expect("vertical ray must hit");
    assert_eq!(hit.depth, -10 * ONE);
    assert_eq!(hit.position.x, 0);
    assert_eq!(hit.position.y, 0);
    assert_eq!(hit.position.z, 0);
}

#[test]
fn tracking_slanted_ray() {
    let origin = wp(0, 10, 0);
    let dir = wp(1, -1, 0);
    let hit = tracking(origin, dir).expect("slanted ray must hit");
    assert_eq!(hit.depth, -10 * ONE);
    assert_eq!(hit.position.x, 10 * ONE);
    assert_eq!(hit.position.y, 0);
    assert_eq!(hit.position.z, 0);
}

#[test]
fn material_params_follow_pointer() {
    let mut m = MousePos::new();
    let p = update_tile(&m);
    assert!(p.hover_hidden);
    m.on_move(sp(0, 0), wp(1, 0, 0));
    let p = update_tile(&m);
    assert!(!p.hover_hidden);
    assert_eq!(p.hover, HexCell { x: 1, y: 0, z: -1 });
    assert_eq!(p.selected_tile, m.selected_tile);
}

#[test]
fn snapshot_is_a_full_copy() {
    let mut m = MousePos::new();
    m.on_move(sp(0, 0), wp(1, 0, 0));
    m.on_press(sp(0, 0), true);
    m.on_release(sp(0, 0), true);
    let snap = m.extract();
    assert_eq!(snap, m);
    m.begin_frame();
    assert!(snap.click);
    assert!(!m.click);
}
