//! The tile map container and the scene that startup builds.

use vstd::prelude::*;
use crate::layer::{ChunkSize, Layer, LayerBuilder, LayerSettings, MapSize, TextureSize, Tile, TileSize};
use std::collections::HashMap;

verus! {

broadcast use vstd::std_specs::hash::group_hash_axioms;

/// A placement in world space, in whole pixels.
#[derive(Clone, Copy, Debug, PartialEq, Eq, Structural)]
pub struct Transform {
    pub x: i32,
    pub y: i32,
    pub z: i32,
}

impl Transform {
    pub fn from_xyz(x: i32, y: i32, z: i32) -> (r: Transform)
        ensures
            r == (Transform { x, y, z }),
    {
        Transform { x, y, z }
    }
}

/// A numbered owner of layers, each registered under a key.
pub struct TileMap {
    id: u16,
    layers: HashMap<u16, usize>,
}

impl TileMap {
    /// Which layer (by its place in the scene) each key names.
    pub closed spec fn view(&self) -> Map<u16, usize> {
        self.layers@
    }

    pub closed spec fn id_spec(&self) -> u16 {
        self.id
    }

    /// A map with no layers.
    pub fn new(id: u16) -> (r: TileMap)
        ensures
            r.id_spec() == id,
            r@ == Map::<u16, usize>::empty(),
    {
        TileMap { id, layers: HashMap::new() }
    }

    pub fn id(&self) -> (r: u16)
        ensures
            r == self.id_spec(),
    {
        self.id
    }

    /// Registers a layer under a key; a layer already there is replaced.
    pub fn add_layer(&mut self, layer_id: u16, layer: usize)
        ensures
            final(self).id_spec() == old(self).id_spec(),
            final(self)@ == old(self)@.insert(layer_id, layer),
    {
        self.layers.insert(layer_id, layer);
    }

    /// The layer registered under a key, if any.
    pub fn get_layer(&self, layer_id: u16) -> (r: Option<usize>)
        ensures
            r == (if self@.contains_key(layer_id) {
                Some(self@[layer_id])
            } else {
                None::<usize>
            }),
    {
        match self.layers.get(&layer_id) {
            Some(l) => Some(*l),
            None => None,
        }
    }

    /// Number of registered layers.
    pub fn layer_count(&self) -> (r: usize)
        ensures
            r == self@.len(),
    {
        self.layers.len()
    }
}

/// Path of the tile atlas image.
pub const TILESET_PATH: &'static str = "tiles.png";

/// The atlas entry that every cell shows.
pub const FILL_TEXTURE_INDEX: u16 = 1;

/// Where the map stands in world space.
pub open spec fn map_translation_spec() -> Transform {
    Transform { x: -640i32, y: -256i32, z: 0i32 }
}

/// The grid of the scene: 5 by 2 chunks of 16 by 16 cells of 16 by 16
/// pixels, over a 96 by 16 pixel atlas.
pub open spec fn scene_settings_spec() -> LayerSettings {
    LayerSettings {
        map_size: MapSize(5, 2),
        chunk_size: ChunkSize(16, 16),
        tile_size: TileSize(16, 16),
        texture_size: TextureSize(96, 16),
    }
}

/// The grid of the scene.
pub fn scene_settings() -> (r: LayerSettings)
    ensures
        r == scene_settings_spec(),
        r.cell_count_spec() == 2560,
        r.tile_variant_count_spec() == 6,
{
    let r = LayerSettings::new(
        MapSize(5, 2),
        ChunkSize(16, 16),
        TileSize(16, 16),
        TextureSize(96, 16),
    );
    proof {
        let w = r.width_spec();
        let h = r.height_spec();
        assert(w * h == 2560) by (nonlinear_arith)
            requires
                w == 80,
                h == 32,
        ;
    }
    r
}

/// What startup leaves behind: a camera, the atlas it asked for, one map
/// and the layers the map refers to.
pub struct Scene {
    cameras: u32,
    texture_path: &'static str,
    map: TileMap,
    layers: Vec<Layer>,
    map_transform: Transform,
}

impl Scene {
    pub closed spec fn cameras_spec(&self) -> u32 {
        self.cameras
    }

    pub closed spec fn texture_path_spec(&self) -> Seq<char> {
        self.texture_path@
    }

    pub closed spec fn map_spec(&self) -> &TileMap {
        &self.map
    }

    pub closed spec fn layers_spec(&self) -> Seq<Layer> {
        self.layers@
    }

    pub closed spec fn map_transform_spec(&self) -> Transform {
        self.map_transform
    }

    /// Every key of the map names a well-formed layer of the scene.
    pub closed spec fn wf(&self) -> bool {
        &&& forall|k: u16| #[trigger]
            self.map@.contains_key(k) ==> self.map@[k] < self.layers@.len()
        &&& forall|i: int| 0 <= i < self.layers@.len() ==> #[trigger] self.layers@[i].wf()
    }

    pub fn cameras(&self) -> (r: u32)
        ensures
            r == self.cameras_spec(),
    {
        self.cameras
    }

    pub fn texture_path(&self) -> (r: &'static str)
        ensures
            r@ == self.texture_path_spec(),
    {
        self.texture_path
    }

    pub fn map(&self) -> (r: &TileMap)
        ensures
            r == self.map_spec(),
    {
        &self.map
    }

    /// Number of layers in the scene.
    pub fn layer_count(&self) -> (r: usize)
        ensures
            r == self.layers_spec().len(),
    {
        self.layers.len()
    }

    /// The layer at a place in the scene.
    pub fn layer(&self, i: usize) -> (r: &Layer)
        requires
            i < self.layers_spec().len(),
        ensures
            *r == self.layers_spec()[i as int],
    {
        &self.layers[i]
    }

    /// The layer that the map registers under a key, if any.
    pub fn map_layer(&self, layer_id: u16) -> (r: Option<&Layer>)
        requires
            self.wf(),
        ensures
            r == (if self.map_spec()@.contains_key(layer_id) {
                Some(&self.layers_spec()[self.map_spec()@[layer_id] as int])
            } else {
                None::<&Layer>
            }),
    {
        match self.map.get_layer(layer_id) {
            Some(i) => Some(&self.layers[i]),
            None => None,
        }
    }

    /// Where the map stands in world space.
    pub fn map_transform(&self) -> (r: Transform)
        ensures
            r == self.map_transform_spec(),
    {
        self.map_transform
    }
}

/// Builds the scene once, before the first frame: a camera, the atlas
/// request, one map with one layer under key 0 whose cells all show atlas
/// entry 1, placed at (-640, -256, 0).
pub fn startup() -> (r: Scene)
    ensures
        r.wf(),
        r.cameras_spec() == 1,
        r.texture_path_spec() == TILESET_PATH@,
        r.map_spec().id_spec() == 0,
        r.map_spec()@ == map![0u16 => 0usize],
        r.layers_spec().len() == 1,
        r.layers_spec()[0].settings_spec() == scene_settings_spec(),
        r.layers_spec()[0].map_id_spec() == 0,
        r.layers_spec()[0].layer_id_spec() == 0,
        r.layers_spec()[0]@.len() == 2560,
        forall|i: int|
            0 <= i < r.layers_spec()[0]@.len() ==> #[trigger] r.layers_spec()[0]@[i] == Some(
                Tile::with_index_spec(FILL_TEXTURE_INDEX),
            ),
        r.map_transform_spec() == map_translation_spec(),
{
    let cameras: u32 = 1;
    let texture_path = TILESET_PATH;

    let mut map = TileMap::new(0);
    let mut layer_builder = LayerBuilder::new(scene_settings(), 0, 0);
    layer_builder.set_all(Tile::with_index(FILL_TEXTURE_INDEX));
    let layer = layer_builder.build();

    let mut layers: Vec<Layer> = Vec::new();
    layers.push(layer);
    map.add_layer(0, 0);
    assert(map@ =~= map![0u16 => 0usize]);

    Scene { cameras, texture_path, map, layers, map_transform: Transform::from_xyz(-640, -256, 0) }
}

} // verus!
