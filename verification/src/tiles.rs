//! Selection of the tile to paint.
//!
//! The tile sheet is a grid of `TILE_COUNT` columns, one per tile model,
//! by `ROTATION_COUNT` rows, one per sixth-turn rotation. The current
//! selection moves through it from keyboard arrows, scroll wheel ticks,
//! or a click on the preview widget, always wrapping modulo the sheet.

use vstd::prelude::*;

verus! {

use crate::fixed::COORD_LIMIT;

/// Number of distinct tile models in the tile sheet.
pub const TILE_COUNT: u32 = 44;

/// Number of rotation rows in the tile sheet.
pub const ROTATION_COUNT: u32 = 6;

/// The currently selected tile: column `x` (the tile index) and row `y`
/// (the rotation index) of the tile sheet.
#[derive(Clone, Copy, PartialEq, Eq, Structural, Debug)]
pub struct TileSelection {
    pub x: u32,
    pub y: u32,
}

impl TileSelection {
    /// A selection always points inside the tile sheet.
    pub open spec fn wf(self) -> bool {
        self.x < TILE_COUNT && self.y < ROTATION_COUNT
    }

    /// The selection moved `dx` columns and `dy` rows forward, wrapping.
    pub open spec fn spec_advanced(self, dx: int, dy: int) -> TileSelection {
        TileSelection {
            x: ((self.x + dx) % (TILE_COUNT as int)) as u32,
            y: ((self.y + dy) % (ROTATION_COUNT as int)) as u32,
        }
    }

    /// Move the selection forward by `dx` columns and `dy` rows, wrapping
    /// at the sheet edges.
    pub fn advanced(self, dx: u32, dy: u32) -> (r: TileSelection)
        requires
            self.wf(),
            dx <= 1000,
            dy <= 1000,
        ensures
            r == self.spec_advanced(dx as int, dy as int),
            r.wf(),
    {
        TileSelection { x: (self.x + dx) % TILE_COUNT, y: (self.y + dy) % ROTATION_COUNT }
    }

    /// Apply one cycle of arrow-key input. Up and down step the tile
    /// index (up going backward through the wrap), left and right step
    /// the rotation (right going backward through the wrap).
    pub fn keyboard_input(self, left: bool, right: bool, up: bool, down: bool) -> (r:
        TileSelection)
        requires
            self.wf(),
        ensures
            r == self.spec_advanced(
                (if up { (TILE_COUNT - 1) as int } else { 0 }) + (if down { 1int } else { 0 }),
                (if left { 1int } else { 0 }) + (if right { 5int } else { 0 }),
            ),
            r.wf(),
    {
        let dx: u32 = (if up { TILE_COUNT - 1 } else { 0 }) + (if down { 1 } else { 0 });
        let dy: u32 = (if left { 1 } else { 0 }) + (if right { 5 } else { 0 });
        self.advanced(dx, dy)
    }

    /// Apply one scroll-wheel event, given the sign of each scroll axis.
    /// Horizontal scroll steps the rotation, vertical scroll the tile.
    pub fn scroll_input(self, x_neg: bool, x_pos: bool, y_neg: bool, y_pos: bool) -> (r:
        TileSelection)
        requires
            self.wf(),
        ensures
            r == self.spec_advanced(
                (if y_neg { (TILE_COUNT - 1) as int } else { 0 }) + (if y_pos { 1int } else { 0 }),
                (if x_neg { 1int } else { 0 }) + (if x_pos { 5int } else { 0 }),
            ),
            r.wf(),
    {
        let dx: u32 = (if y_neg { TILE_COUNT - 1 } else { 0 }) + (if y_pos { 1 } else { 0 });
        let dy: u32 = (if x_neg { 1 } else { 0 }) + (if x_pos { 5 } else { 0 });
        self.advanced(dx, dy)
    }

    /// Apply a click on the preview widget. The click direction, measured
    /// from the widget centre in fixed point, picks one of four wedges:
    /// the dominant axis decides whether the tile or the rotation steps,
    /// and the sign decides the direction of the step.
    pub fn pick_from_preview(self, dir_x: i64, dir_y: i64) -> (r: TileSelection)
        requires
            self.wf(),
            -COORD_LIMIT <= dir_x <= COORD_LIMIT,
            -COORD_LIMIT <= dir_y <= COORD_LIMIT,
        ensures
            r == self.spec_advanced(
                (if dir_y < -crate::fixed::abs_of(dir_x as int) {
                    (TILE_COUNT - 1) as int
                } else {
                    0
                }) + (if dir_y > crate::fixed::abs_of(dir_x as int) {
                    1int
                } else {
                    0
                }),
                (if dir_x < -crate::fixed::abs_of(dir_y as int) {
                    1int
                } else {
                    0
                }) + (if dir_x > crate::fixed::abs_of(dir_y as int) {
                    5int
                } else {
                    0
                }),
            ),
            r.wf(),
    {
        let ax: i64 = if dir_x < 0 { -dir_x } else { dir_x };
        let ay: i64 = if dir_y < 0 { -dir_y } else { dir_y };
        let dx: u32 = (if dir_y < -ax { TILE_COUNT - 1 } else { 0 }) + (if dir_y > ax { 1 } else { 0 });
        let dy: u32 = (if dir_x < -ay { 1 } else { 0 }) + (if dir_x > ay { 5 } else { 0 });
        self.advanced(dx, dy)
    }

    /// Index of the selected tile in the flattened atlas: row-major over
    /// the tile sheet.
    pub fn atlas_index(self) -> (i: u32)
        requires
            self.wf(),
        ensures
            i == self.x + self.y * TILE_COUNT,
    {
        self.x + self.y * TILE_COUNT
    }
}

} // verus!
