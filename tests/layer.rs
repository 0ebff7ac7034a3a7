use tilemap_setup::layer::{
    ChunkSize, LayerBuilder, LayerSettings, MapSize, MapTileError, TextureSize, Tile, TilePos,
    TileSize,
};

fn small_settings() -> LayerSettings {
    LayerSettings::new(MapSize(2, 1), ChunkSize(2, 3), TileSize(8, 8), TextureSize(32, 16))
}

#[test]
fn new_builder_has_every_cell_unset() {
    let builder = LayerBuilder::new(small_settings(), 7, 2);
    for y in 0..3u32 {
        for x in 0..4u32 {
            assert_eq!(builder.get_tile(TilePos(x, y)), None);
        }
    }
    let layer = builder.build();
    assert_eq!(layer.len(), 12);
    assert_eq!(layer.map_id(), 7);
    assert_eq!(layer.layer_id(), 2);
    assert!(!layer.all_cells_show(0));
}

#[test]
fn set_tile_inside_and_outside_the_grid() {
    let mut builder = LayerBuilder::new(small_settings(), 0, 0);
    let tile = Tile::with_index(5);
    assert_eq!(builder.set_tile(TilePos(3, 2), tile), Ok(()));
    assert_eq!(builder.get_tile(TilePos(3, 2)), Some(tile));
    assert_eq!(builder.get_tile(TilePos(2, 2)), None);
    assert_eq!(builder.set_tile(TilePos(4, 0), tile), Err(MapTileError::OutOfBounds));
    assert_eq!(builder.set_tile(TilePos(0, 3), tile), Err(MapTileError::OutOfBounds));
    let layer = builder.build();
    assert_eq!(layer.get_tile(TilePos(3, 2)), Some(tile));
    assert_eq!(layer.get_tile(TilePos(0, 0)), None);
}

#[test]
fn set_all_overwrites_every_cell() {
    let mut builder = LayerBuilder::new(small_settings(), 0, 0);
    builder.set_tile(TilePos(1, 1), Tile::with_index(4)).unwrap();
    builder.set_all(Tile::with_index(2));
    let layer = builder.build();
    assert!(layer.all_cells_show(2));
    assert_eq!(layer.get_tile(TilePos(1, 1)), Some(Tile::with_index(2)));
}

#[test]
fn default_tile_and_with_index() {
    let d = Tile::default();
    assert_eq!(d, Tile { texture_index: 0, flip_x: false, flip_y: false, flip_d: false, visible: true });
    assert_eq!(Tile::with_index(3), Tile { texture_index: 3, ..d });
}

#[test]
fn settings_counts_and_edges() {
    let s = small_settings();
    assert_eq!(s.width(), 4);
    assert_eq!(s.height(), 3);
    assert_eq!(s.cell_count(), Some(12));
    assert_eq!(s.tile_variant_count(), Some(8));
    assert_eq!(s.index_of(TilePos(1, 2)), Some(9));
    assert_eq!(s.index_of(TilePos(4, 2)), None);

    let empty = LayerSettings::new(MapSize(0, 5), ChunkSize(16, 16), TileSize(16, 16), TextureSize(96, 16));
    assert_eq!(empty.cell_count(), Some(0));
    assert_eq!(empty.index_of(TilePos(0, 0)), None);

    let zero_tile = LayerSettings::new(MapSize(1, 1), ChunkSize(1, 1), TileSize(0, 16), TextureSize(96, 16));
    assert_eq!(zero_tile.tile_variant_count(), None);

    let m = u32::MAX;
    let huge = LayerSettings::new(MapSize(m, m), ChunkSize(m, m), TileSize(1, 1), TextureSize(1, 1));
    assert_eq!(huge.width(), (m as u64) * (m as u64));
    assert_eq!(huge.cell_count(), None);
}
