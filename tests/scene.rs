use tilemap_setup::layer::{Tile, TilePos};
use tilemap_setup::scene::{scene_settings, startup, TileMap, Transform};

#[test]
fn startup_builds_one_map_with_one_layer_under_key_zero() {
    let scene = startup();
    assert_eq!(scene.cameras(), 1);
    assert_eq!(scene.texture_path(), "tiles.png");
    assert_eq!(scene.map().id(), 0);
    assert_eq!(scene.map().layer_count(), 1);
    assert_eq!(scene.map().get_layer(0), Some(0));
    assert_eq!(scene.map().get_layer(1), None);
    assert_eq!(scene.layer_count(), 1);
    let layer = scene.map_layer(0).unwrap();
    assert_eq!(layer.map_id(), 0);
    assert_eq!(layer.layer_id(), 0);
    assert!(scene.map_layer(1).is_none());
}

#[test]
fn startup_fills_every_cell_with_atlas_entry_one() {
    let scene = startup();
    let layer = scene.layer(0);
    assert_eq!(layer.len(), 2560);
    assert!(layer.all_cells_show(1));
    assert!(!layer.all_cells_show(0));
    let expected = Tile { texture_index: 1, flip_x: false, flip_y: false, flip_d: false, visible: true };
    assert_eq!(layer.get_tile(TilePos(0, 0)), Some(expected));
    assert_eq!(layer.get_tile(TilePos(79, 31)), Some(expected));
    assert_eq!(layer.get_tile(TilePos(80, 0)), None);
    assert_eq!(layer.get_tile(TilePos(0, 32)), None);
    for y in 0..32u32 {
        for x in 0..80u32 {
            assert_eq!(layer.get_tile(TilePos(x, y)), Some(expected));
        }
    }
}

#[test]
fn startup_places_map_at_fixed_offset() {
    let scene = startup();
    assert_eq!(scene.map_transform(), Transform { x: -640, y: -256, z: 0 });
    assert_eq!(scene.map_transform(), Transform::from_xyz(-640, -256, 0));
}

#[test]
fn scene_grid_dimensions() {
    let settings = scene_settings();
    assert_eq!(settings.width(), 80);
    assert_eq!(settings.height(), 32);
    assert_eq!(settings.cell_count(), Some(2560));
    assert_eq!(settings.tile_variant_count(), Some(6));
    assert_eq!(startup().layer(0).settings(), settings);
}

#[test]
fn tile_map_add_layer_replaces_existing_key() {
    let mut map = TileMap::new(3);
    assert_eq!(map.id(), 3);
    assert_eq!(map.layer_count(), 0);
    map.add_layer(0, 4);
    map.add_layer(2, 5);
    assert_eq!(map.layer_count(), 2);
    map.add_layer(0, 9);
    assert_eq!(map.layer_count(), 2);
    assert_eq!(map.get_layer(0), Some(9));
    assert_eq!(map.get_layer(2), Some(5));
    assert_eq!(map.get_layer(1), None);
}
