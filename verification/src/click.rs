//! Click-to-write.
//!
//! Once per frame the GPU-submission stage receives a snapshot of the
//! pointer state. If its edge-triggered click flag is up, the hovered
//! hex cell is turned into a texel address by wrapping its x and y axes
//! into the texture — the Euclidean remainder by `MAP_SIZE`, which for a
//! power-of-two size is exactly the bitwise AND with `MAP_SIZE - 1` —
//! and a four-byte payload is built from the selected tile and a freshly
//! drawn non-zero seed. The write replaces the whole cell; nothing is
//! read back.

use vstd::prelude::*;

verus! {

use vstd::arithmetic::div_mod::lemma_fundamental_div_mod;
use vstd::arithmetic::div_mod::lemma_fundamental_div_mod_converse;
use crate::map_state::MAP_SIZE;
use crate::map_state::MapCell;
use crate::map_state::SEED_BOUND;
use crate::map_state::rand_in_range;
use crate::mouse::MousePos;

/// A cell axis wrapped into the texture's addressable range.
pub open spec fn wrapped_coord(c: int) -> int {
    c % (MAP_SIZE as int)
}

/// Wrap one axis of a hex cell into the texture.
fn mask_coord(c: i32) -> (r: u32)
    ensures
        r == wrapped_coord(c as int),
        r < MAP_SIZE,
{
    if c >= 0 {
        (c as u32) % MAP_SIZE
    } else {
        let mag: i64 = -(c as i64);
        let m: u32 = (mag as u32) % MAP_SIZE;
        proof {
            let size = MAP_SIZE as int;
            let q = (mag as int) / size;
            lemma_fundamental_div_mod(mag as int, size);
            if m == 0 {
                lemma_fundamental_div_mod_converse(c as int, size, -q, 0);
            } else {
                lemma_fundamental_div_mod_converse(c as int, size, -q - 1, size - m);
            }
        }
        if m == 0 {
            0
        } else {
            MAP_SIZE - m
        }
    }
}

/// A single-texel write against the map texture: destination address and
/// the four replacement bytes. Extent is one texel; the payload is one
/// four-byte row.
#[derive(Clone, Copy, PartialEq, Eq, Structural, Debug)]
pub struct TexelWrite {
    /// Texel x address, within the texture.
    pub x: u32,
    /// Texel y address, within the texture.
    pub y: u32,
    /// The replacement cell.
    pub cell: MapCell,
}

/// Deterministic core of the click write: address the hovered cell by
/// wrapping its x and y axes into the texture, and fill the payload from
/// the selected tile and the given seed.
pub fn build_write(mouse: &MousePos, seed: u32) -> (w: TexelWrite)
    requires
        mouse.wf(),
        1 <= seed < SEED_BOUND,
    ensures
        w.x == wrapped_coord(mouse.hex_cell.x as int),
        w.y == wrapped_coord(mouse.hex_cell.y as int),
        w.x < MAP_SIZE,
        w.y < MAP_SIZE,
        w.cell.tile == mouse.selected_tile.x,
        w.cell.rotation == mouse.selected_tile.y,
        w.cell.seed() == seed,
        w.cell.wf(),
{
    TexelWrite {
        x: mask_coord(mouse.hex_cell.x),
        y: mask_coord(mouse.hex_cell.y),
        cell: MapCell::pack(mouse.selected_tile.x, mouse.selected_tile.y, seed),
    }
}

/// Turn the frame's pointer snapshot into at most one texel write: one
/// exactly when the snapshot carries a committed click, aimed at the
/// hovered cell, carrying the selected tile and a fresh non-zero seed.
pub fn handle_click(mouse: &MousePos) -> (w: Option<TexelWrite>)
    requires
        mouse.wf(),
    ensures
        w is Some <==> mouse.click,
        w matches Some(t) ==> {
            &&& t.x == wrapped_coord(mouse.hex_cell.x as int)
            &&& t.y == wrapped_coord(mouse.hex_cell.y as int)
            &&& t.x < MAP_SIZE
            &&& t.y < MAP_SIZE
            &&& t.cell.tile == mouse.selected_tile.x
            &&& t.cell.rotation == mouse.selected_tile.y
            &&& 1 <= t.cell.seed() < SEED_BOUND
            &&& t.cell.wf()
        },
{
    if !mouse.click {
        return None;
    }
    let seed: u32 = rand_in_range(1, SEED_BOUND);
    Some(build_write(mouse, seed))
}

} // verus!
