use hexmap::fixed::FRAC_ONE;
use hexmap::tiles::TileSelection;

const ONE: i64 = FRAC_ONE;

#[test]
fn arrows_step_and_wrap_the_selection() {
    let s = TileSelection { x: 0, y: 0 };
    assert_eq!(s.keyboard_input(false, false, true, false), TileSelection { x: 43, y: 0 });
    assert_eq!(s.keyboard_input(false, false, false, true), TileSelection { x: 1, y: 0 });
    assert_eq!(s.keyboard_input(true, false, false, false), TileSelection { x: 0, y: 1 });
    assert_eq!(s.keyboard_input(false, true, false, false), TileSelection { x: 0, y: 5 });
    // Stepping backward from row 0 wraps to the last row.
    let t = TileSelection { x: 0, y: 5 };
    assert_eq!(t.keyboard_input(true, false, false, false), TileSelection { x: 0, y: 0 });
}

#[test]
fn scroll_steps_match_arrow_steps() {
    let s = TileSelection { x: 10, y: 3 };
    assert_eq!(s.scroll_input(false, false, true, false), TileSelection { x: 9, y: 3 });
    assert_eq!(s.scroll_input(false, false, false, true), TileSelection { x: 11, y: 3 });
    assert_eq!(s.scroll_input(true, false, false, false), TileSelection { x: 10, y: 4 });
    assert_eq!(s.scroll_input(false, true, false, false), TileSelection { x: 10, y: 2 });
}

#[test]
fn preview_click_picks_the_dominant_wedge() {
    let s = TileSelection { x: 10, y: 3 };
    // Left wedge: rotation steps forward.
    assert_eq!(s.pick_from_preview(-ONE, 0), TileSelection { x: 10, y: 4 });
    // Right wedge: rotation steps backward through the wrap.
    assert_eq!(s.pick_from_preview(ONE, 0), TileSelection { x: 10, y: 2 });
    // Bottom wedge: tile steps backward through the wrap.
    assert_eq!(s.pick_from_preview(0, -ONE), TileSelection { x: 9, y: 3 });
    // Top wedge: tile steps forward.
    assert_eq!(s.pick_from_preview(0, ONE), TileSelection { x: 11, y: 3 });
    // An exact diagonal dominates nothing and leaves the selection alone.
    assert_eq!(s.pick_from_preview(ONE, ONE), s);
}

#[test]
fn advancing_wraps_both_axes() {
    let s = TileSelection { x: 43, y: 5 };
    assert_eq!(s.advanced(1, 1), TileSelection { x: 0, y: 0 });
    assert_eq!(s.advanced(0, 0), s);
}

#[test]
fn atlas_index_is_row_major() {
    assert_eq!(TileSelection { x: 7, y: 2 }.atlas_index(), 95);
    assert_eq!(TileSelection { x: 0, y: 0 }.atlas_index(), 0);
    assert_eq!(TileSelection { x: 43, y: 5 }.atlas_index(), 263);
}
