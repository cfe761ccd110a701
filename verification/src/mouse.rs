//! Pointer tracking and the click/drag state machine.
//!
//! One `MousePos` per process records what the pointer is over and what
//! it is doing. Every input cycle starts by clearing the edge-triggered
//! `click` flag; press, move and release events then drive a small state
//! machine: a press records the press origin, a move that strays more
//! than the click radius from the origin cancels it (a drag), and a
//! release close to the origin fires a click. Moves also update the
//! hovered hex cell from the ray/ground-plane hit position.

use vstd::prelude::*;

verus! {

use crate::fixed::COORD_LIMIT;
use crate::fixed::FRAC_ONE;
use crate::fixed::tdiv;
use crate::fixed::tdiv_i128;
use crate::hex::HexCell;
use crate::hex::WORLD_LIMIT;
use crate::hex::hex_at;
use crate::hex::round_hex;
use crate::hex::world_to_cube;
use crate::tiles::TileSelection;

/// Click radius: a release further than the square root of this many
/// squared screen units from the press origin is a drag, not a click.
pub const CLICK_RADIUS_SQ: i64 = 10;

/// `CLICK_RADIUS_SQ` rescaled to the squared fixed-point ticks that
/// `dist_sq` yields.
#[verifier::nonlinear]
pub const DRAG_THRESHOLD: i64 = CLICK_RADIUS_SQ * FRAC_ONE * FRAC_ONE;

/// A 2D pointer position in 16.16 fixed-point screen units.
#[derive(Clone, Copy, PartialEq, Eq, Structural, Debug)]
pub struct ScreenPos {
    pub x: i64,
    pub y: i64,
}

/// A 3D world position in 16.16 fixed-point world units.
#[derive(Clone, Copy, PartialEq, Eq, Structural, Debug)]
pub struct WorldPos {
    pub x: i64,
    pub y: i64,
    pub z: i64,
}

impl ScreenPos {
    /// Within the coordinate range the distance arithmetic accepts.
    pub open spec fn in_range(self) -> bool {
        &&& -COORD_LIMIT <= self.x <= COORD_LIMIT
        &&& -COORD_LIMIT <= self.y <= COORD_LIMIT
    }
}

impl WorldPos {
    /// Within the coordinate range the world-to-cube transform accepts.
    pub open spec fn in_world_range(self) -> bool {
        &&& -WORLD_LIMIT <= self.x <= WORLD_LIMIT
        &&& -WORLD_LIMIT <= self.y <= WORLD_LIMIT
        &&& -WORLD_LIMIT <= self.z <= WORLD_LIMIT
    }
}

/// Squared distance between two screen positions, in raw fixed-point
/// ticks squared.
pub open spec fn dist_sq(a: ScreenPos, b: ScreenPos) -> int {
    (a.x - b.x) * (a.x - b.x) + (a.y - b.y) * (a.y - b.y)
}

/// The click radius in the scale of `dist_sq`.
pub open spec fn drag_threshold() -> int {
    DRAG_THRESHOLD as int
}

/// Whether two screen positions lie further apart than the click radius.
fn exceeds_threshold(a: ScreenPos, b: ScreenPos) -> (r: bool)
    requires
        a.in_range(),
        b.in_range(),
    ensures
        r == (dist_sq(a, b) > drag_threshold()),
{
    let dx: i128 = a.x as i128 - b.x as i128;
    let dy: i128 = a.y as i128 - b.y as i128;
    proof {
        assert(0 <= dx * dx <= 0x10_0000_0000_0000_0000_0000 && 0 <= dy * dy
            <= 0x10_0000_0000_0000_0000_0000) by (nonlinear_arith)
            requires
                -0x200_0000_0000 <= dx <= 0x200_0000_0000,
                -0x200_0000_0000 <= dy <= 0x200_0000_0000,
        ;
    }
    let d2: i128 = dx * dx + dy * dy;
    d2 > DRAG_THRESHOLD as i128
}

/// The shared per-process pointer state.
#[derive(Clone, Copy, PartialEq, Eq, Structural, Debug)]
pub struct MousePos {
    /// The hex cell currently under the pointer.
    pub hex_cell: HexCell,
    /// False while the pointer is outside the viewport or off the map.
    pub on_screen: bool,
    /// Where the primary button went down, while a click is still possible.
    pub click_started: Option<ScreenPos>,
    /// Edge-triggered: true for exactly one cycle after a committed click.
    pub click: bool,
    /// The tile that a click will paint.
    pub selected_tile: TileSelection,
}

impl MousePos {
    /// Positions stored in the state stay within arithmetic range, the
    /// hovered cell is a valid cube coordinate, and the selection points
    /// inside the tile sheet.
    pub open spec fn wf(self) -> bool {
        &&& self.hex_cell.zero_sum()
        &&& self.selected_tile.wf()
        &&& match self.click_started {
            Some(p) => p.in_range(),
            None => true,
        }
    }

    /// The state at process start.
    pub open spec fn spec_init() -> MousePos {
        MousePos {
            hex_cell: HexCell { x: 0, y: 0, z: 0 },
            on_screen: false,
            click_started: None,
            click: false,
            selected_tile: TileSelection { x: 0, y: 0 },
        }
    }

    pub fn new() -> (s: MousePos)
        ensures
            s == MousePos::spec_init(),
            s.wf(),
    {
        MousePos {
            hex_cell: HexCell { x: 0, y: 0, z: 0 },
            on_screen: false,
            click_started: None,
            click: false,
            selected_tile: TileSelection { x: 0, y: 0 },
        }
    }

    /// The state after the start-of-cycle reset of the click flag.
    pub open spec fn spec_frame_started(self) -> MousePos {
        MousePos { click: false, ..self }
    }

    /// The state after a button press at `pos`: the press origin is
    /// recorded if the press is with the primary button and no origin is
    /// pending.
    pub open spec fn spec_pressed(self, pos: ScreenPos, primary: bool) -> MousePos {
        if primary && self.click_started is None {
            MousePos { click_started: Some(pos), ..self }
        } else {
            self
        }
    }

    /// The state after the pointer moves to screen position `pos` over
    /// the map, hitting the ground plane at `hit`: the pointer is on
    /// screen, a wide move cancels the pending click, and the hovered
    /// cell follows the hit position.
    pub open spec fn spec_moved(self, pos: ScreenPos, hit: WorldPos) -> MousePos {
        let started = match self.click_started {
            Some(start) => if dist_sq(pos, start) > drag_threshold() {
                None
            } else {
                self.click_started
            },
            None => None,
        };
        let h = hex_at(hit.x as int, hit.z as int);
        MousePos {
            on_screen: true,
            click_started: started,
            hex_cell: HexCell { x: h.0 as i32, y: h.1 as i32, z: h.2 as i32 },
            ..self
        }
    }

    /// The state after the pointer leaves the map: off screen, and no
    /// click can complete.
    pub open spec fn spec_left(self) -> MousePos {
        MousePos { on_screen: false, click_started: None, ..self }
    }

    /// The state after a button release at `pos`: with a pending origin,
    /// a near release fires the click and a far one does not; either way
    /// the origin is consumed.
    pub open spec fn spec_released(self, pos: ScreenPos, primary: bool) -> MousePos {
        if !primary {
            self
        } else {
            match self.click_started {
                Some(start) => if dist_sq(pos, start) <= drag_threshold() {
                    MousePos { click: true, click_started: None, ..self }
                } else {
                    MousePos { click_started: None, ..self }
                },
                None => self,
            }
        }
    }

    /// Reset the edge-triggered click flag at the start of an input cycle.
    pub fn begin_frame(&mut self)
        requires
            old(self).wf(),
        ensures
            *final(self) == old(self).spec_frame_started(),
            final(self).wf(),
    {
        self.click = false;
    }

    /// Record a button press.
    pub fn on_press(&mut self, pos: ScreenPos, primary: bool)
        requires
            old(self).wf(),
            pos.in_range(),
        ensures
            *final(self) == old(self).spec_pressed(pos, primary),
            final(self).wf(),
    {
        if primary && self.click_started.is_none() {
            self.click_started = Some(pos);
        }
    }

    /// Track a pointer move over the map.
    pub fn on_move(&mut self, pos: ScreenPos, hit: WorldPos)
        requires
            old(self).wf(),
            pos.in_range(),
            hit.in_world_range(),
        ensures
            *final(self) == old(self).spec_moved(pos, hit),
            final(self).wf(),
    {
        self.on_screen = true;
        match self.click_started {
            Some(start) => {
                if exceeds_threshold(pos, start) {
                    self.click_started = None;
                }
            },
            None => {},
        }
        let f = world_to_cube(hit.x, hit.z);
        self.hex_cell = round_hex(f);
    }

    /// Track the pointer leaving the map.
    pub fn on_out(&mut self)
        requires
            old(self).wf(),
        ensures
            *final(self) == old(self).spec_left(),
            final(self).wf(),
    {
        self.on_screen = false;
        self.click_started = None;
    }

    /// Record a button release, firing the click flag when it completes a
    /// click.
    pub fn on_release(&mut self, pos: ScreenPos, primary: bool)
        requires
            old(self).wf(),
            pos.in_range(),
        ensures
            *final(self) == old(self).spec_released(pos, primary),
            final(self).wf(),
    {
        if primary {
            match self.click_started {
                Some(start) => {
                    if !exceeds_threshold(pos, start) {
                        self.click = true;
                    }
                    self.click_started = None;
                },
                None => {},
            }
        }
    }

    /// The once-per-frame snapshot handed from the input stage to the
    /// GPU-submission stage: a full copy, so the consumer never observes
    /// a partially updated state.
    pub fn extract(&self) -> (snapshot: MousePos)
        ensures
            snapshot == *self,
    {
        *self
    }
}

/// What the draw material reads from the pointer each frame: the
/// hovered cell for highlighting, whether the highlight is hidden, and
/// the tile selection.
#[derive(Clone, Copy, PartialEq, Eq, Structural, Debug)]
pub struct MaterialParams {
    pub hover: HexCell,
    /// True while the pointer is off screen, hiding the hover highlight.
    pub hover_hidden: bool,
    pub selected_tile: TileSelection,
}

/// Extract the per-frame material parameters from the pointer state.
pub fn update_tile(mouse: &MousePos) -> (p: MaterialParams)
    ensures
        p.hover == mouse.hex_cell,
        p.hover_hidden == !mouse.on_screen,
        p.selected_tile == mouse.selected_tile,
{
    MaterialParams {
        hover: mouse.hex_cell,
        hover_hidden: !mouse.on_screen,
        selected_tile: mouse.selected_tile,
    }
}

/// The result of casting a pointer ray against the ground plane.
#[derive(Clone, Copy, PartialEq, Eq, Structural, Debug)]
pub struct PointerHit {
    /// Distance along the ray to the plane, in fixed-point units.
    pub depth: i64,
    /// The intersection point, fed to the world-to-cube transform.
    pub position: WorldPos,
}

/// Ray depth to the ground plane `y == 0`: `origin_y / direction_y`, in
/// fixed point.
pub open spec fn ray_depth(oy: int, dy: int) -> int {
    tdiv(oy * (FRAC_ONE as int), dy)
}

/// One axis of the intersection point: `origin - direction * depth`, in
/// fixed point.
pub open spec fn hit_axis(o: int, d: int, depth: int) -> int {
    o - tdiv(d * depth, FRAC_ONE as int)
}

/// Whether the intersection point stays within the world range on every
/// axis.
pub open spec fn hit_in_range(origin: WorldPos, dir: WorldPos) -> bool {
    let depth = ray_depth(origin.y as int, dir.y as int);
    &&& -WORLD_LIMIT <= hit_axis(origin.x as int, dir.x as int, depth) <= WORLD_LIMIT
    &&& -WORLD_LIMIT <= hit_axis(origin.y as int, dir.y as int, depth) <= WORLD_LIMIT
    &&& -WORLD_LIMIT <= hit_axis(origin.z as int, dir.z as int, depth) <= WORLD_LIMIT
}

/// One axis of `origin - direction * depth`.
fn hit_axis_at(o: i64, d: i64, depth: i128) -> (r: i128)
    requires
        -WORLD_LIMIT <= o <= WORLD_LIMIT,
        -WORLD_LIMIT <= d <= WORLD_LIMIT,
        -0x40_0000_0000_0000 <= depth <= 0x40_0000_0000_0000,
    ensures
        r == hit_axis(o as int, d as int, depth as int),
{
    proof {
        assert(-0x1000_0000_0000_0000_0000_0000 <= (d as int) * (depth as int)
            <= 0x1000_0000_0000_0000_0000_0000) by (nonlinear_arith)
            requires
                -WORLD_LIMIT <= d <= WORLD_LIMIT,
                -0x40_0000_0000_0000 <= depth <= 0x40_0000_0000_0000,
                WORLD_LIMIT == 0x40_0000_0000,
        ;
    }
    let prod: i128 = (d as i128) * depth;
    let t: i128 = tdiv_i128(prod, FRAC_ONE as i128);
    (o as i128) - t
}

/// Cast one pointer ray against the ground plane `y == 0` and report the
/// hit. A ray parallel to the plane (`direction.y == 0`) has no defined
/// intersection and yields no hit, as does an intersection point outside
/// the world range.
pub fn tracking(origin: WorldPos, direction: WorldPos) -> (hit: Option<PointerHit>)
    requires
        origin.in_world_range(),
        direction.in_world_range(),
    ensures
        hit is Some <==> direction.y != 0 && hit_in_range(origin, direction),
        hit matches Some(h) ==> {
            &&& h.depth == ray_depth(origin.y as int, direction.y as int)
            &&& h.position.x == hit_axis(origin.x as int, direction.x as int, h.depth as int)
            &&& h.position.y == hit_axis(origin.y as int, direction.y as int, h.depth as int)
            &&& h.position.z == hit_axis(origin.z as int, direction.z as int, h.depth as int)
            &&& h.position.in_world_range()
        },
{
    if direction.y == 0 {
        return None;
    }
    proof {
        assert(-0x40_0000_0000_0000 <= (origin.y as int) * (FRAC_ONE as int)
            <= 0x40_0000_0000_0000) by (nonlinear_arith)
            requires
                -WORLD_LIMIT <= origin.y <= WORLD_LIMIT,
                WORLD_LIMIT == 0x40_0000_0000,
                FRAC_ONE == 65536,
        ;
    }
    let depth: i128 = tdiv_i128((origin.y as i128) * (FRAC_ONE as i128), direction.y as i128);
    let px: i128 = hit_axis_at(origin.x, direction.x, depth);
    let py: i128 = hit_axis_at(origin.y, direction.y, depth);
    let pz: i128 = hit_axis_at(origin.z, direction.z, depth);
    let limit: i128 = WORLD_LIMIT as i128;
    if px < -limit || px > limit || py < -limit || py > limit || pz < -limit || pz > limit {
        return None;
    }
    Some(
        PointerHit {
            depth: depth as i64,
            position: WorldPos { x: px as i64, y: py as i64, z: pz as i64 },
        },
    )
}

/// A press and a release with no wide move in between fire a click
/// exactly when the squared distance between the two positions is within
/// the click radius; the flag then lasts a single frame, the next cycle
/// start clearing it.
pub proof fn lemma_click_iff_near(s: MousePos, press: ScreenPos, release: ScreenPos)
    requires
        !s.click,
        s.click_started is None,
    ensures
        ({
            let after = s.spec_pressed(press, true).spec_released(release, true);
            &&& after.click == (dist_sq(press, release) <= drag_threshold())
            &&& !after.spec_frame_started().click
        }),
{
    assert(dist_sq(release, press) == dist_sq(press, release)) by (nonlinear_arith);
}

/// A drag that strays beyond the click radius can never turn into a
/// click: wherever the pointer is released afterwards, the click flag
/// stays down.
pub proof fn lemma_drag_never_clicks(
    s: MousePos,
    move_pos: ScreenPos,
    hit: WorldPos,
    release: ScreenPos,
    primary: bool,
)
    requires
        !s.click,
        s.click_started matches Some(start) ==> dist_sq(move_pos, start) > drag_threshold(),
    ensures
        !s.spec_moved(move_pos, hit).spec_released(release, primary).click,
{
}

} // verus!
