//! Layer settings, the authoring builder of a layer, and the finished layer.

use vstd::prelude::*;

verus! {

/// Size of a map, in chunks along x and y.
#[derive(Clone, Copy, Debug, PartialEq, Eq, Structural)]
pub struct MapSize(pub u32, pub u32);

/// Size of a chunk, in cells along x and y.
#[derive(Clone, Copy, Debug, PartialEq, Eq, Structural)]
pub struct ChunkSize(pub u32, pub u32);

/// Size of one cell, in whole pixels.
#[derive(Clone, Copy, Debug, PartialEq, Eq, Structural)]
pub struct TileSize(pub u32, pub u32);

/// Size of the atlas image, in whole pixels.
#[derive(Clone, Copy, Debug, PartialEq, Eq, Structural)]
pub struct TextureSize(pub u32, pub u32);

/// Position of a cell in grid coordinates, from the bottom-left cell.
#[derive(Clone, Copy, Debug, PartialEq, Eq, Structural)]
pub struct TilePos(pub u32, pub u32);

/// The parameters of one layer's grid.
#[derive(Clone, Copy, Debug, PartialEq, Eq, Structural)]
pub struct LayerSettings {
    pub map_size: MapSize,
    pub chunk_size: ChunkSize,
    pub tile_size: TileSize,
    pub texture_size: TextureSize,
}

/// What one cell shows: an entry of the atlas and how it is drawn.
#[derive(Clone, Copy, Debug, PartialEq, Eq, Structural)]
pub struct Tile {
    pub texture_index: u16,
    pub flip_x: bool,
    pub flip_y: bool,
    pub flip_d: bool,
    pub visible: bool,
}

/// The error of an edit that names a cell outside the grid.
#[derive(Clone, Copy, Debug, PartialEq, Eq, Structural)]
pub enum MapTileError {
    OutOfBounds,
}

impl Tile {
    /// The default tile: atlas entry 0, not flipped, visible.
    pub open spec fn default_spec() -> Tile {
        Tile { texture_index: 0, flip_x: false, flip_y: false, flip_d: false, visible: true }
    }

    /// The default tile showing the given atlas entry.
    pub open spec fn with_index_spec(texture_index: u16) -> Tile {
        Tile { texture_index, ..Tile::default_spec() }
    }

    /// The default tile showing the given atlas entry.
    pub fn with_index(texture_index: u16) -> (r: Tile)
        ensures
            r == Tile::with_index_spec(texture_index),
    {
        Tile { texture_index, ..Tile::default() }
    }
}

impl Default for Tile {
    fn default() -> (r: Tile)
        ensures
            r == Tile::default_spec(),
    {
        Tile { texture_index: 0, flip_x: false, flip_y: false, flip_d: false, visible: true }
    }
}

impl LayerSettings {
    /// Number of cells along x.
    pub open spec fn width_spec(self) -> nat {
        self.map_size.0 as nat * self.chunk_size.0 as nat
    }

    /// Number of cells along y.
    pub open spec fn height_spec(self) -> nat {
        self.map_size.1 as nat * self.chunk_size.1 as nat
    }

    /// Number of cells in the grid.
    pub open spec fn cell_count_spec(self) -> nat {
        self.width_spec() * self.height_spec()
    }

    /// Whether a position names a cell of the grid.
    pub open spec fn contains_spec(self, pos: TilePos) -> bool {
        pos.0 < self.width_spec() && pos.1 < self.height_spec()
    }

    /// Where a cell stands in row-major order.
    pub open spec fn index_spec(self, pos: TilePos) -> nat {
        pos.1 as nat * self.width_spec() + pos.0 as nat
    }

    /// How many atlas entries a grid of whole tiles lays out.
    pub open spec fn tile_variant_count_spec(self) -> nat
        recommends
            self.tile_size.0 > 0,
            self.tile_size.1 > 0,
    {
        (self.texture_size.0 / self.tile_size.0) as nat * (self.texture_size.1
            / self.tile_size.1) as nat
    }

    pub fn new(
        map_size: MapSize,
        chunk_size: ChunkSize,
        tile_size: TileSize,
        texture_size: TextureSize,
    ) -> (r: LayerSettings)
        ensures
            r == (LayerSettings { map_size, chunk_size, tile_size, texture_size }),
    {
        LayerSettings { map_size, chunk_size, tile_size, texture_size }
    }

    /// Number of cells along x.
    pub fn width(&self) -> (r: u64)
        ensures
            r == self.width_spec(),
    {
        let a = self.map_size.0 as u64;
        let b = self.chunk_size.0 as u64;
        assert(a * b <= u32::MAX as nat * u32::MAX as nat) by (nonlinear_arith)
            requires
                a <= u32::MAX,
                b <= u32::MAX,
        ;
        a * b
    }

    /// Number of cells along y.
    pub fn height(&self) -> (r: u64)
        ensures
            r == self.height_spec(),
    {
        let a = self.map_size.1 as u64;
        let b = self.chunk_size.1 as u64;
        assert(a * b <= u32::MAX as nat * u32::MAX as nat) by (nonlinear_arith)
            requires
                a <= u32::MAX,
                b <= u32::MAX,
        ;
        a * b
    }

    /// Number of cells in the grid, or `None` where it exceeds `u64`.
    pub fn cell_count(&self) -> (r: Option<u64>)
        ensures
            r == (if self.cell_count_spec() <= u64::MAX {
                Some(self.cell_count_spec() as u64)
            } else {
                None::<u64>
            }),
    {
        let w = self.width();
        let h = self.height();
        w.checked_mul(h)
    }

    /// How many atlas entries the atlas holds, or `None` where a tile
    /// dimension is zero.
    pub fn tile_variant_count(&self) -> (r: Option<u64>)
        ensures
            r == (if self.tile_size.0 > 0 && self.tile_size.1 > 0 {
                Some(self.tile_variant_count_spec() as u64)
            } else {
                None::<u64>
            }),
    {
        if self.tile_size.0 == 0 || self.tile_size.1 == 0 {
            return None;
        }
        let a = (self.texture_size.0 / self.tile_size.0) as u64;
        let b = (self.texture_size.1 / self.tile_size.1) as u64;
        assert(a * b <= u32::MAX as nat * u32::MAX as nat) by (nonlinear_arith)
            requires
                a <= u32::MAX,
                b <= u32::MAX,
        ;
        Some(a * b)
    }

    /// The row-major place of a cell, or `None` where the position lies
    /// outside the grid.
    pub fn index_of(&self, pos: TilePos) -> (r: Option<u64>)
        requires
            self.cell_count_spec() <= u64::MAX,
        ensures
            r == (if self.contains_spec(pos) {
                Some(self.index_spec(pos) as u64)
            } else {
                None::<u64>
            }),
            self.contains_spec(pos) ==> self.index_spec(pos) < self.cell_count_spec(),
    {
        let w = self.width();
        let h = self.height();
        proof {
            if self.contains_spec(pos) {
                lemma_index_in_grid(pos.0 as nat, pos.1 as nat, w as nat, h as nat);
            }
        }
        if (pos.0 as u64) < w && (pos.1 as u64) < h {
            Some(pos.1 as u64 * w + pos.0 as u64)
        } else {
            None
        }
    }
}

/// A cell inside a `w` by `h` grid has a row-major place below `w * h`.
proof fn lemma_index_in_grid(x: nat, y: nat, w: nat, h: nat)
    requires
        x < w,
        y < h,
    ensures
        y * w + x < w * h,
{
    assert(y * w + x < w * h) by (nonlinear_arith)
        requires
            x < w,
            y < h,
    ;
}

/// A layer while it is authored: every cell may still be set.
pub struct LayerBuilder {
    settings: LayerSettings,
    map_id: u16,
    layer_id: u16,
    tiles: Vec<Option<Tile>>,
}

/// A finished layer: its cells no longer change.
pub struct Layer {
    settings: LayerSettings,
    map_id: u16,
    layer_id: u16,
    tiles: Vec<Option<Tile>>,
}

impl LayerBuilder {
    /// The cells, in row-major order.
    pub closed spec fn view(&self) -> Seq<Option<Tile>> {
        self.tiles@
    }

    pub closed spec fn settings_spec(&self) -> LayerSettings {
        self.settings
    }

    pub closed spec fn map_id_spec(&self) -> u16 {
        self.map_id
    }

    pub closed spec fn layer_id_spec(&self) -> u16 {
        self.layer_id
    }

    /// One entry for each cell of the grid.
    pub closed spec fn wf(&self) -> bool {
        &&& self.tiles@.len() == self.settings.cell_count_spec()
        &&& self.settings.cell_count_spec() <= usize::MAX
    }

    /// A builder whose cells are all unset.
    pub fn new(settings: LayerSettings, map_id: u16, layer_id: u16) -> (r: LayerBuilder)
        requires
            settings.cell_count_spec() <= usize::MAX,
        ensures
            r.wf(),
            r.settings_spec() == settings,
            r.map_id_spec() == map_id,
            r.layer_id_spec() == layer_id,
            r@.len() == settings.cell_count_spec(),
            forall|i: int| 0 <= i < r@.len() ==> r@[i] is None,
    {
        let n = match settings.cell_count() {
            Some(n) => n as usize,
            None => 0,
        };
        let mut tiles: Vec<Option<Tile>> = Vec::with_capacity(n);
        let mut i: usize = 0;
        while i < n
            invariant
                n == settings.cell_count_spec(),
                i <= n,
                tiles@.len() == i,
                forall|j: int| 0 <= j < i ==> tiles@[j] is None,
            decreases n - i,
        {
            tiles.push(None);
            i = i + 1;
        }
        LayerBuilder { settings, map_id, layer_id, tiles }
    }

    pub fn settings(&self) -> (r: LayerSettings)
        ensures
            r == self.settings_spec(),
    {
        self.settings
    }

    /// Sets one cell, or reports that the position lies outside the grid.
    pub fn set_tile(&mut self, pos: TilePos, tile: Tile) -> (r: Result<(), MapTileError>)
        requires
            old(self).wf(),
        ensures
            final(self).wf(),
            final(self).settings_spec() == old(self).settings_spec(),
            final(self).map_id_spec() == old(self).map_id_spec(),
            final(self).layer_id_spec() == old(self).layer_id_spec(),
            old(self).settings_spec().contains_spec(pos) ==> {
                &&& r is Ok
                &&& final(self)@ == old(self)@.update(
                    old(self).settings_spec().index_spec(pos) as int,
                    Some(tile),
                )
            },
            !old(self).settings_spec().contains_spec(pos) ==> {
                &&& r == Err::<(), MapTileError>(MapTileError::OutOfBounds)
                &&& final(self)@ == old(self)@
            },
    {
        match self.settings.index_of(pos) {
            Some(i) => {
                self.tiles.set(i as usize, Some(tile));
                Ok(())
            },
            None => Err(MapTileError::OutOfBounds),
        }
    }

    /// The content of one cell; `None` where it is unset or outside the grid.
    pub fn get_tile(&self, pos: TilePos) -> (r: Option<Tile>)
        requires
            self.wf(),
        ensures
            r == (if self.settings_spec().contains_spec(pos) {
                self@[self.settings_spec().index_spec(pos) as int]
            } else {
                None::<Tile>
            }),
    {
        match self.settings.index_of(pos) {
            Some(i) => self.tiles[i as usize],
            None => None,
        }
    }

    /// Sets every cell of the grid to the same tile.
    pub fn set_all(&mut self, tile: Tile)
        requires
            old(self).wf(),
        ensures
            final(self).wf(),
            final(self).settings_spec() == old(self).settings_spec(),
            final(self).map_id_spec() == old(self).map_id_spec(),
            final(self).layer_id_spec() == old(self).layer_id_spec(),
            final(self)@.len() == old(self)@.len(),
            forall|i: int| 0 <= i < final(self)@.len() ==> final(self)@[i] == Some(tile),
    {
        let n = self.tiles.len();
        let mut i: usize = 0;
        while i < n
            invariant
                self.wf(),
                n == self.tiles@.len(),
                self.settings == old(self).settings,
                self.map_id == old(self).map_id,
                self.layer_id == old(self).layer_id,
                i <= n,
                forall|j: int| 0 <= j < i ==> self.tiles@[j] == Some(tile),
            decreases n - i,
        {
            self.tiles.set(i, Some(tile));
            i = i + 1;
        }
    }

    /// Finishes the layer; its cells no longer change after this.
    pub fn build(self) -> (r: Layer)
        requires
            self.wf(),
        ensures
            r.wf(),
            r@ == self@,
            r.settings_spec() == self.settings_spec(),
            r.map_id_spec() == self.map_id_spec(),
            r.layer_id_spec() == self.layer_id_spec(),
    {
        Layer {
            settings: self.settings,
            map_id: self.map_id,
            layer_id: self.layer_id,
            tiles: self.tiles,
        }
    }
}

impl Layer {
    /// The cells, in row-major order.
    pub closed spec fn view(&self) -> Seq<Option<Tile>> {
        self.tiles@
    }

    pub closed spec fn settings_spec(&self) -> LayerSettings {
        self.settings
    }

    pub closed spec fn map_id_spec(&self) -> u16 {
        self.map_id
    }

    pub closed spec fn layer_id_spec(&self) -> u16 {
        self.layer_id
    }

    /// One entry for each cell of the grid.
    pub closed spec fn wf(&self) -> bool {
        &&& self.tiles@.len() == self.settings.cell_count_spec()
        &&& self.settings.cell_count_spec() <= usize::MAX
    }

    pub fn settings(&self) -> (r: LayerSettings)
        ensures
            r == self.settings_spec(),
    {
        self.settings
    }

    pub fn map_id(&self) -> (r: u16)
        ensures
            r == self.map_id_spec(),
    {
        self.map_id
    }

    pub fn layer_id(&self) -> (r: u16)
        ensures
            r == self.layer_id_spec(),
    {
        self.layer_id
    }

    /// Number of cells of the layer.
    pub fn len(&self) -> (r: usize)
        ensures
            r == self@.len(),
    {
        self.tiles.len()
    }

    /// The content of one cell; `None` where it is unset or outside the grid.
    pub fn get_tile(&self, pos: TilePos) -> (r: Option<Tile>)
        requires
            self.wf(),
        ensures
            r == (if self.settings_spec().contains_spec(pos) {
                self@[self.settings_spec().index_spec(pos) as int]
            } else {
                None::<Tile>
            }),
    {
        match self.settings.index_of(pos) {
            Some(i) => self.tiles[i as usize],
            None => None,
        }
    }

    /// Whether every cell is set and shows the given atlas entry.
    pub fn all_cells_show(&self, texture_index: u16) -> (r: bool)
        ensures
            r == (forall|i: int|
                0 <= i < self@.len() ==> (#[trigger] self@[i] matches Some(t)
                    && t.texture_index == texture_index)),
    {
        let n = self.tiles.len();
        let mut i: usize = 0;
        while i < n
            invariant
                n == self.tiles@.len(),
                i <= n,
                forall|j: int|
                    0 <= j < i ==> (#[trigger] self.tiles@[j] matches Some(t)
                        && t.texture_index == texture_index),
            decreases n - i,
        {
            match self.tiles[i] {
                Some(t) => {
                    if t.texture_index != texture_index {
                        return false;
                    }
                },
                None => {
                    return false;
                },
            }
            i = i + 1;
        }
        true
    }
}

} // verus!
