//! GPU-resident map state.
//!
//! The authoritative map lives in a square texture of packed cells, four
//! unsigned 8-bit channels each: tile index, rotation index, and a
//! two-byte big-endian seed for the per-cell pseudo-random generator.
//! The seed is never zero — a zero seed would degenerate the generator.
//! The texture is filled once at map setup with independent random
//! cells; afterwards it changes only through single-texel writes.
//!
//! The texture starts sampled and copy-writable. A one-time transition
//! polls the backing image every frame and, the first time it reports
//! loaded, adds the compute-storage capability and publishes the handle
//! the compute pipeline will bind.

use vstd::prelude::*;

verus! {

use vstd::arithmetic::div_mod::lemma_fundamental_div_mod;
use crate::tiles::ROTATION_COUNT;
use crate::tiles::TILE_COUNT;

/// Width and height of the map texture, in cells; a power of two, so a
/// cell axis wraps into the texture by masking with `MAP_SIZE - 1`.
pub const MAP_SIZE: u32 = 1024;

/// Exclusive upper bound of the per-cell generator seed.
pub const SEED_BOUND: u32 = 65536;

/// Relies on `rand::Rng::gen_range` on the generator of
/// `rand::thread_rng`: the result lies within the given right-open
/// range; the call panics only on an empty range, which the
/// precondition excludes.
#[verifier::external_body]
pub(crate) fn rand_in_range(lo: u32, hi: u32) -> (r: u32)
    requires
        lo < hi,
    ensures
        lo <= r < hi,
{
    rand::Rng::gen_range(&mut rand::thread_rng(), lo..hi)
}

/// One packed map cell: the four bytes of one texel.
#[derive(Clone, Copy, PartialEq, Eq, Structural, Debug)]
pub struct MapCell {
    /// Which tile model fills the cell.
    pub tile: u8,
    /// Which sixth-turn rotation the model stands in.
    pub rotation: u8,
    /// High byte of the per-cell generator seed.
    pub seed_hi: u8,
    /// Low byte of the seed.
    pub seed_lo: u8,
}

impl MapCell {
    /// The 16-bit generator seed, packed big-endian in the last two
    /// bytes.
    pub open spec fn seed(self) -> int {
        self.seed_hi * 256 + self.seed_lo
    }

    /// Indices inside their ranges, and the seed non-zero.
    pub open spec fn wf(self) -> bool {
        &&& self.tile < TILE_COUNT
        &&& self.rotation < ROTATION_COUNT
        &&& self.seed() != 0
    }

    /// Pack a tile, a rotation and a non-zero seed into one cell.
    pub fn pack(tile: u32, rotation: u32, seed: u32) -> (c: MapCell)
        requires
            tile < TILE_COUNT,
            rotation < ROTATION_COUNT,
            1 <= seed < SEED_BOUND,
        ensures
            c.tile == tile,
            c.rotation == rotation,
            c.seed() == seed,
            c.wf(),
    {
        proof {
            lemma_fundamental_div_mod(seed as int, 256);
        }
        MapCell {
            tile: tile as u8,
            rotation: rotation as u8,
            seed_hi: (seed / 256) as u8,
            seed_lo: (seed % 256) as u8,
        }
    }

    /// Draw one cell with every field independently random and the seed
    /// never zero.
    pub fn random() -> (c: MapCell)
        ensures
            c.wf(),
    {
        let tile: u32 = rand_in_range(0, TILE_COUNT);
        let rotation: u32 = rand_in_range(0, ROTATION_COUNT);
        let seed: u32 = rand_in_range(1, SEED_BOUND);
        MapCell::pack(tile, rotation, seed)
    }

    /// The cell's bytes in texture order.
    pub fn to_bytes(&self) -> (b: Vec<u8>)
        ensures
            b@ == seq![self.tile, self.rotation, self.seed_hi, self.seed_lo],
    {
        let mut b: Vec<u8> = Vec::new();
        b.push(self.tile);
        b.push(self.rotation);
        b.push(self.seed_hi);
        b.push(self.seed_lo);
        proof {
            assert(b@ =~= seq![self.tile, self.rotation, self.seed_hi, self.seed_lo]);
        }
        b
    }
}

/// Byte quadruple `i` of a packed cell buffer is a well-formed cell:
/// indices in range and the seed bytes not both zero.
pub open spec fn cell_at_ok(data: Seq<u8>, i: int) -> bool {
    &&& data[4 * i] < TILE_COUNT
    &&& data[4 * i + 1] < ROTATION_COUNT
    &&& !(data[4 * i + 2] == 0 && data[4 * i + 3] == 0)
}

/// Fill `cells` packed cells with independent random draws.
pub fn generate_cells(cells: usize) -> (data: Vec<u8>)
    requires
        cells <= 0x10_0000,
    ensures
        data@.len() == 4 * cells,
        forall|i: int| 0 <= i < cells ==> cell_at_ok(data@, i),
{
    let mut data: Vec<u8> = Vec::new();
    let mut i: usize = 0;
    while i < cells
        invariant
            i <= cells,
            cells <= 0x10_0000,
            data@.len() == 4 * i,
            forall|j: int| 0 <= j < i ==> cell_at_ok(data@, j),
        decreases cells - i,
    {
        let ghost prev: Seq<u8> = data@;
        let c = MapCell::random();
        data.push(c.tile);
        data.push(c.rotation);
        data.push(c.seed_hi);
        data.push(c.seed_lo);
        i = i + 1;
        proof {
            assert forall|j: int| 0 <= j < i implies cell_at_ok(data@, j) by {
                if j < i - 1 {
                    assert(cell_at_ok(prev, j));
                }
            }
        }
    }
    data
}

/// The initial contents of the map texture: every one of the
/// `MAP_SIZE * MAP_SIZE` cells independently random, each with a
/// non-zero seed.
pub fn initial_map_data() -> (data: Vec<u8>)
    ensures
        data@.len() == 4 * (MAP_SIZE * MAP_SIZE),
        forall|i: int| 0 <= i < MAP_SIZE * MAP_SIZE ==> cell_at_ok(data@, i),
{
    proof {
        assert((MAP_SIZE as int) * (MAP_SIZE as int) == 0x10_0000) by (nonlinear_arith)
            requires
                MAP_SIZE == 1024,
        ;
    }
    generate_cells((MAP_SIZE * MAP_SIZE) as usize)
}

/// The usage capabilities of the map texture.
#[derive(Clone, Copy, PartialEq, Eq, Structural, Debug)]
pub struct TextureUsage {
    /// May be sampled by the draw shaders.
    pub texture_binding: bool,
    /// May receive copy writes from the graphics queue.
    pub copy_dst: bool,
    /// May be read and written by the compute kernel.
    pub storage_binding: bool,
}

/// The map texture as the library tracks it: its dimensions and usage
/// capabilities. The format is fixed: four unsigned 8-bit channels, no
/// mipmaps.
#[derive(Clone, Copy, PartialEq, Eq, Structural, Debug)]
pub struct MapTexture {
    pub width: u32,
    pub height: u32,
    pub usage: TextureUsage,
}

impl MapTexture {
    /// The texture as created at map setup: square, `MAP_SIZE` wide,
    /// sampled and copy-writable but not yet compute-writable.
    pub fn create() -> (t: MapTexture)
        ensures
            t.width == MAP_SIZE,
            t.height == MAP_SIZE,
            t.usage == (TextureUsage {
                texture_binding: true,
                copy_dst: true,
                storage_binding: false,
            }),
    {
        MapTexture {
            width: MAP_SIZE,
            height: MAP_SIZE,
            usage: TextureUsage { texture_binding: true, copy_dst: true, storage_binding: false },
        }
    }
}

/// The one-time transition that watches the backing image and, once it
/// has loaded, makes the texture compute-writable and publishes the
/// handle the compute pipeline will bind.
#[derive(Clone, Copy, PartialEq, Eq, Structural, Debug)]
pub struct StorageTransition {
    /// The published storage-capable handle, once the transition has
    /// run; its presence keeps the transition from running again.
    pub published: Option<u64>,
}

impl StorageTransition {
    pub open spec fn spec_init() -> StorageTransition {
        StorageTransition { published: None }
    }

    pub fn new() -> (s: StorageTransition)
        ensures
            s == StorageTransition::spec_init(),
    {
        StorageTransition { published: None }
    }

    /// The state and texture after one poll.
    pub open spec fn spec_polled(self, texture: MapTexture, loaded: bool, handle: u64) -> (
        StorageTransition,
        MapTexture,
    ) {
        if self.published is Some || !loaded {
            (self, texture)
        } else {
            (
                StorageTransition { published: Some(handle) },
                MapTexture {
                    usage: TextureUsage { storage_binding: true, ..texture.usage },
                    ..texture
                },
            )
        }
    }

    /// Poll the transition once: safe to call every frame. Nothing
    /// happens until the image reports loaded; the first loaded poll
    /// augments the texture usage with the storage capability and
    /// publishes `handle`; every later poll leaves both untouched.
    pub fn poll(&mut self, texture: &mut MapTexture, loaded: bool, handle: u64)
        ensures
            (*final(self), *final(texture)) == old(self).spec_polled(
                *old(texture),
                loaded,
                handle,
            ),
            old(self).published is Some ==> *final(self) == *old(self) && *final(texture) == *old(
                texture,
            ),
            final(self).published is Some <==> old(self).published is Some || loaded,
            old(self).published matches Some(h) ==> final(self).published == Some(h),
    {
        if self.published.is_some() {
            return ;
        }
        if !loaded {
            return ;
        }
        texture.usage.storage_binding = true;
        self.published = Some(handle);
    }
}

} // verus!
