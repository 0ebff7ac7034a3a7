use bevy::render::render_resource::TextureUsages;
use tilemap_setup::normalizer::{set_texture_filters_to_nearest, AssetEvent, Image, ImageAssets};
use tilemap_setup::usage::{render_usage, COPY_DST, COPY_SRC, TEXTURE_BINDING};

fn image(usage: u32) -> Image {
    Image { width: 96, height: 16, usage }
}

fn two_images() -> ImageAssets {
    let mut textures = ImageAssets::new();
    textures.insert(1, image(16));
    textures.insert(2, image(16));
    textures
}

#[test]
fn render_usage_is_binding_and_both_copies() {
    assert_eq!(render_usage(), 7);
    assert_eq!(render_usage(), TEXTURE_BINDING | COPY_SRC | COPY_DST);
    let expected = TextureUsages::TEXTURE_BINDING | TextureUsages::COPY_SRC | TextureUsages::COPY_DST;
    assert_eq!(render_usage(), expected.bits());
}

#[test]
fn created_image_gets_render_usage_others_untouched() {
    let mut textures = two_images();
    let events = vec![
        AssetEvent::Modified { handle: 2 },
        AssetEvent::Created { handle: 1 },
        AssetEvent::Removed { handle: 2 },
    ];
    set_texture_filters_to_nearest(&events, &mut textures);
    assert_eq!(textures.get(1), Some(image(7)));
    assert_eq!(textures.get(2), Some(image(16)));
    assert_eq!(textures.len(), 2);
}

#[test]
fn created_event_twice_same_as_once() {
    let mut once = two_images();
    set_texture_filters_to_nearest(&vec![AssetEvent::Created { handle: 2 }], &mut once);
    let mut twice = two_images();
    let e = AssetEvent::Created { handle: 2 };
    set_texture_filters_to_nearest(&vec![e, e], &mut twice);
    assert_eq!(once.get(1), twice.get(1));
    assert_eq!(once.get(2), twice.get(2));
    assert_eq!(twice.get(2), Some(image(7)));
    set_texture_filters_to_nearest(&vec![e], &mut once);
    assert_eq!(once.get(2), Some(image(7)));
    assert_eq!(once.get(1), Some(image(16)));
}

#[test]
fn created_event_for_unresolved_handle_changes_nothing() {
    let mut textures = two_images();
    set_texture_filters_to_nearest(&vec![AssetEvent::Created { handle: 9 }], &mut textures);
    assert_eq!(textures.len(), 2);
    assert_eq!(textures.get(9), None);
    assert_eq!(textures.get(1), Some(image(16)));
    assert_eq!(textures.get(2), Some(image(16)));
}

#[test]
fn empty_event_stream_changes_nothing() {
    let mut textures = two_images();
    set_texture_filters_to_nearest(&vec![], &mut textures);
    assert_eq!(textures.get(1), Some(image(16)));
    assert_eq!(textures.get(2), Some(image(16)));
}

#[test]
fn set_usage_reports_whether_handle_resolved() {
    let mut textures = two_images();
    assert!(textures.set_usage(1, 3));
    assert_eq!(textures.get(1), Some(image(3)));
    assert!(!textures.set_usage(5, 3));
    assert_eq!(textures.len(), 2);
}
